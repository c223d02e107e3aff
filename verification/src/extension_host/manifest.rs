//! The SUPER IDE extension manifest and its conversion to the SDK form.

use vstd::prelude::*;
use crate::sdk::extension::{
    ActivationEvent, ActivationEventView, Contribution, ContributionView, ExtensionManifest,
};
use crate::seq_facts::{lemma_map_push, lemma_take_push};
use crate::text::{
    chars_of, eq_chars, starts_with_exec, starts_with_seq, strip_prefix_repeatedly,
    strip_prefix_repeatedly_exec,
};

verus! {

/// An extension manifest as written in `super-extension.json`.
#[derive(Debug)]
pub struct SuperExtensionManifest {
    pub id: String,
    pub name: String,
    pub version: String,
    pub description: String,
    pub author: String,
    pub wasm: Option<WasmConfig>,
    pub activation_events: Vec<String>,
    pub contributes: ManifestContributions,
}

/// Where an extension's WebAssembly module lives.
#[derive(Debug)]
pub struct WasmConfig {
    pub path: String,
    pub args: Vec<String>,
}

/// Everything a manifest contributes.
#[derive(Debug)]
pub struct ManifestContributions {
    pub commands: Vec<ManifestCommand>,
    pub themes: Vec<ManifestTheme>,
    pub icon_themes: Vec<ManifestIconTheme>,
    pub views: Vec<ManifestView>,
    pub settings: Vec<ManifestSettings>,
    pub providers: Vec<String>,
    pub agents: Vec<String>,
}

/// A command declared in a manifest.
#[derive(Debug)]
pub struct ManifestCommand {
    pub id: String,
    pub title: String,
    pub shortcut: Option<String>,
}

/// A color theme declared in a manifest.
#[derive(Debug)]
pub struct ManifestTheme {
    pub id: String,
    pub path: String,
    pub label: Option<String>,
}

/// An icon theme declared in a manifest.
#[derive(Debug)]
pub struct ManifestIconTheme {
    pub id: String,
    pub path: String,
}

/// A sidebar view declared in a manifest.
#[derive(Debug)]
pub struct ManifestView {
    pub id: String,
    pub title: String,
    pub icon: Option<String>,
}

/// A settings schema declared in a manifest.
#[derive(Debug)]
pub struct ManifestSettings {
    pub path: String,
}

// ── Specification of the conversion ────────────────────────────────────

/// The event that an activation-event string names, if any.
pub open spec fn parse_activation_event_spec(s: Seq<char>) -> Option<ActivationEventView> {
    if s == "onStartupFinished"@ {
        Some(ActivationEventView::OnStartupFinished)
    } else if s == "onAiRequested"@ {
        Some(ActivationEventView::OnAiRequested)
    } else if starts_with_seq(s, "onLanguage:"@) {
        Some(ActivationEventView::OnLanguage(strip_prefix_repeatedly(s, "onLanguage:"@)))
    } else if starts_with_seq(s, "onCommand:"@) {
        Some(ActivationEventView::OnCommand(strip_prefix_repeatedly(s, "onCommand:"@)))
    } else if starts_with_seq(s, "onView:"@) {
        Some(ActivationEventView::OnView(strip_prefix_repeatedly(s, "onView:"@)))
    } else if starts_with_seq(s, "workspaceContains:"@) {
        Some(
            ActivationEventView::WorkspaceContains(
                strip_prefix_repeatedly(s, "workspaceContains:"@),
            ),
        )
    } else {
        None
    }
}

/// The events named by a list of strings, unknown names dropped, order kept.
pub open spec fn parse_activation_events_spec(strs: Seq<Seq<char>>) -> Seq<ActivationEventView>
    decreases strs.len(),
{
    if strs.len() == 0 {
        Seq::empty()
    } else {
        let rest = parse_activation_events_spec(strs.drop_last());
        match parse_activation_event_spec(strs.last()) {
            Some(e) => rest.push(e),
            None => rest,
        }
    }
}

/// The contributions a manifest declares, in the order commands, themes,
/// icon themes, views, settings, providers, agents.
pub open spec fn manifest_contributions_spec(c: ManifestContributions) -> Seq<ContributionView> {
    c.commands@.map_values(
        |x: ManifestCommand| ContributionView::Command { id: x.id@, title: x.title@ },
    ) + c.themes@.map_values(
        |x: ManifestTheme| ContributionView::Theme { id: x.id@, path: x.path@ },
    ) + c.icon_themes@.map_values(
        |x: ManifestIconTheme| ContributionView::IconTheme { id: x.id@, path: x.path@ },
    ) + c.views@.map_values(
        |x: ManifestView| ContributionView::SidebarView { id: x.id@, title: x.title@ },
    ) + c.settings@.map_values(|x: ManifestSettings| ContributionView::SettingsSchema { path: x.path@ })
        + c.providers@.map_values(|x: String| ContributionView::Provider { id: x@ })
        + c.agents@.map_values(|x: String| ContributionView::Agent { id: x@ })
}

/// The views of a list of activation events.
pub open spec fn events_view(v: Seq<ActivationEvent>) -> Seq<ActivationEventView> {
    v.map_values(|e: ActivationEvent| e@)
}

/// The views of a list of contributions.
pub open spec fn contributions_view(v: Seq<Contribution>) -> Seq<ContributionView> {
    v.map_values(|c: Contribution| c@)
}

/// `m` is the SDK form of manifest `s`.
pub open spec fn is_sdk_form(s: SuperExtensionManifest, m: ExtensionManifest) -> bool {
    &&& m.id@ == s.id@
    &&& m.display_name@ == s.name@
    &&& m.version@ == s.version@
    &&& events_view(m.activation_events@) == parse_activation_events_spec(
        s.activation_events@.map_values(|x: String| x@),
    )
    &&& contributions_view(m.contributions@) == manifest_contributions_spec(s.contributes)
}

// ── Parsing activation events ──────────────────────────────────────────

/// Reads an activation-event string such as `onLanguage:rust`.
pub fn parse_activation_event(s: &str) -> (r: Option<ActivationEvent>)
    ensures
        match r {
            Some(e) => parse_activation_event_spec(s@) == Some(e@),
            None => parse_activation_event_spec(s@) is None,
        },
{
    let v = chars_of(s);
    if eq_chars(&v, &chars_of("onStartupFinished")) {
        return Some(ActivationEvent::OnStartupFinished);
    }
    if eq_chars(&v, &chars_of("onAiRequested")) {
        return Some(ActivationEvent::OnAiRequested);
    }
    let p = chars_of("onLanguage:");
    if starts_with_exec(&v, &p) {
        return Some(ActivationEvent::OnLanguage(strip_prefix_repeatedly_exec(&v, &p)));
    }
    let p = chars_of("onCommand:");
    if starts_with_exec(&v, &p) {
        return Some(ActivationEvent::OnCommand(strip_prefix_repeatedly_exec(&v, &p)));
    }
    let p = chars_of("onView:");
    if starts_with_exec(&v, &p) {
        return Some(ActivationEvent::OnView(strip_prefix_repeatedly_exec(&v, &p)));
    }
    let p = chars_of("workspaceContains:");
    if starts_with_exec(&v, &p) {
        return Some(ActivationEvent::WorkspaceContains(strip_prefix_repeatedly_exec(&v, &p)));
    }
    None
}

// ── Conversion to the SDK manifest ─────────────────────────────────────

/// The SDK form of a manifest lists every contribution it declares, each
/// once, with its own fields, kind after kind in declaration order:
/// commands, themes, icon themes, sidebar views, settings schemas, providers
/// and agents. So there are as many contributions as declarations.
pub proof fn lemma_sdk_lists_every_contribution(s: SuperExtensionManifest, m: ExtensionManifest)
    requires
        is_sdk_form(s, m),
    ensures
        ({
            let c = s.contributes;
            let v = contributions_view(m.contributions@);
            let o1 = c.commands@.len() as int;
            let o2 = o1 + c.themes@.len();
            let o3 = o2 + c.icon_themes@.len();
            let o4 = o3 + c.views@.len();
            let o5 = o4 + c.settings@.len();
            let o6 = o5 + c.providers@.len();
            &&& v.len() == o6 + c.agents@.len()
            &&& forall|i: int| 0 <= i < c.commands@.len() ==> v[i] == ContributionView::Command {
                id: c.commands@[i].id@,
                title: c.commands@[i].title@,
            }
            &&& forall|i: int| 0 <= i < c.themes@.len() ==> v[o1 + i] == ContributionView::Theme {
                id: c.themes@[i].id@,
                path: c.themes@[i].path@,
            }
            &&& forall|i: int| 0 <= i < c.icon_themes@.len() ==> v[o2 + i] == ContributionView::IconTheme {
                id: c.icon_themes@[i].id@,
                path: c.icon_themes@[i].path@,
            }
            &&& forall|i: int| 0 <= i < c.views@.len() ==> v[o3 + i] == ContributionView::SidebarView {
                id: c.views@[i].id@,
                title: c.views@[i].title@,
            }
            &&& forall|i: int| 0 <= i < c.settings@.len() ==> v[o4 + i] == ContributionView::SettingsSchema {
                path: c.settings@[i].path@,
            }
            &&& forall|i: int| 0 <= i < c.providers@.len() ==> v[o5 + i] == ContributionView::Provider {
                id: c.providers@[i]@,
            }
            &&& forall|i: int| 0 <= i < c.agents@.len() ==> v[o6 + i] == ContributionView::Agent {
                id: c.agents@[i]@,
            }
        }),
{
    let c = s.contributes;
    let a1 = c.commands@.map_values(
        |x: ManifestCommand| ContributionView::Command { id: x.id@, title: x.title@ },
    );
    let a2 = c.themes@.map_values(
        |x: ManifestTheme| ContributionView::Theme { id: x.id@, path: x.path@ },
    );
    let a3 = c.icon_themes@.map_values(
        |x: ManifestIconTheme| ContributionView::IconTheme { id: x.id@, path: x.path@ },
    );
    let a4 = c.views@.map_values(
        |x: ManifestView| ContributionView::SidebarView { id: x.id@, title: x.title@ },
    );
    let a5 = c.settings@.map_values(|x: ManifestSettings| ContributionView::SettingsSchema { path: x.path@ });
    let a6 = c.providers@.map_values(|x: String| ContributionView::Provider { id: x@ });
    let a7 = c.agents@.map_values(|x: String| ContributionView::Agent { id: x@ });
    let v = contributions_view(m.contributions@);
    assert(v == a1 + a2 + a3 + a4 + a5 + a6 + a7);
    let o1 = a1.len() as int;
    let o2 = o1 + a2.len();
    let o3 = o2 + a3.len();
    let o4 = o3 + a4.len();
    let o5 = o4 + a5.len();
    let o6 = o5 + a6.len();
    assert forall|i: int| 0 <= i < a1.len() implies v[i] == a1[i] by {
        assert((a1 + a2 + a3 + a4 + a5 + a6 + a7)[i] == a1[i]);
    }
    assert forall|i: int| 0 <= i < a2.len() implies v[o1 + i] == a2[i] by {
        assert((a1 + a2 + a3 + a4 + a5 + a6 + a7)[o1 + i] == a2[i]);
    }
    assert forall|i: int| 0 <= i < a3.len() implies v[o2 + i] == a3[i] by {
        assert((a1 + a2 + a3 + a4 + a5 + a6 + a7)[o2 + i] == a3[i]);
    }
    assert forall|i: int| 0 <= i < a4.len() implies v[o3 + i] == a4[i] by {
        assert((a1 + a2 + a3 + a4 + a5 + a6 + a7)[o3 + i] == a4[i]);
    }
    assert forall|i: int| 0 <= i < a5.len() implies v[o4 + i] == a5[i] by {
        assert((a1 + a2 + a3 + a4 + a5 + a6 + a7)[o4 + i] == a5[i]);
    }
    assert forall|i: int| 0 <= i < a6.len() implies v[o5 + i] == a6[i] by {
        assert((a1 + a2 + a3 + a4 + a5 + a6 + a7)[o5 + i] == a6[i]);
    }
    assert forall|i: int| 0 <= i < a7.len() implies v[o6 + i] == a7[i] by {
        assert((a1 + a2 + a3 + a4 + a5 + a6 + a7)[o6 + i] == a7[i]);
    }
}

impl SuperExtensionManifest {
    /// Converts the manifest to the SDK's `ExtensionManifest`: known activation
    /// events are parsed (unknown ones dropped) and all contributions are listed.
    pub fn to_sdk(&self) -> (r: ExtensionManifest)
        ensures
            is_sdk_form(*self, r),
    {
        let mut activation_events: Vec<ActivationEvent> = Vec::new();
        let ghost strs = self.activation_events@.map_values(|x: String| x@);
        let mut i: usize = 0;
        while i < self.activation_events.len()
            invariant
                i <= self.activation_events@.len(),
                strs == self.activation_events@.map_values(|x: String| x@),
                events_view(activation_events@) == parse_activation_events_spec(
                    strs.take(i as int),
                ),
            decreases self.activation_events.len() - i,
        {
            let parsed = parse_activation_event(self.activation_events[i].as_str());
            proof {
                assert(strs.take(i + 1).drop_last() =~= strs.take(i as int));
                assert(strs.take(i + 1).last() == self.activation_events@[i as int]@);
            }
            match parsed {
                Some(e) => {
                    activation_events.push(e);
                    assert(events_view(activation_events@) =~= parse_activation_events_spec(
                        strs.take(i as int),
                    ).push(e@));
                },
                None => {},
            }
            i = i + 1;
        }
        assert(strs.take(strs.len() as int) =~= strs);
        let contributions = contributions_of(&self.contributes);
        ExtensionManifest {
            id: self.id.clone(),
            display_name: self.name.clone(),
            version: self.version.clone(),
            activation_events,
            contributions,
        }
    }
}

/// All contributions of a manifest, in declaration order per kind.
#[verifier::loop_isolation(false)]
fn contributions_of(c: &ManifestContributions) -> (r: Vec<Contribution>)
    ensures
        contributions_view(r@) == manifest_contributions_spec(*c),
{
    let mut out: Vec<Contribution> = Vec::new();
    let ghost f1 = |x: ManifestCommand| ContributionView::Command { id: x.id@, title: x.title@ };
    let mut i: usize = 0;
    while i < c.commands.len()
        invariant
            i <= c.commands@.len(),
            contributions_view(out@) == c.commands@.take(i as int).map_values(f1),
        decreases c.commands.len() - i,
    {
        let x = &c.commands[i];
        let item = Contribution::Command { id: x.id.clone(), title: x.title.clone() };
        let ghost prev = out@;
        out.push(item);
        proof {
            lemma_take_push(c.commands@, i as int);
            lemma_map_push(c.commands@.take(i as int), c.commands@[i as int], f1);
            assert(contributions_view(out@) =~= contributions_view(prev).push(item@));
        }
        i = i + 1;
        assert(contributions_view(out@) =~= c.commands@.take(i as int).map_values(f1));
    }
    assert(c.commands@.take(c.commands@.len() as int) =~= c.commands@);
    let ghost acc1 = contributions_view(out@);

    let ghost f2 = |x: ManifestTheme| ContributionView::Theme { id: x.id@, path: x.path@ };
    let mut i: usize = 0;
    while i < c.themes.len()
        invariant
            i <= c.themes@.len(),
            contributions_view(out@) == acc1 + c.themes@.take(i as int).map_values(f2),
        decreases c.themes.len() - i,
    {
        let x = &c.themes[i];
        let item = Contribution::Theme { id: x.id.clone(), path: x.path.clone() };
        let ghost prev = out@;
        out.push(item);
        proof {
            lemma_take_push(c.themes@, i as int);
            lemma_map_push(c.themes@.take(i as int), c.themes@[i as int], f2);
            assert(contributions_view(out@) =~= contributions_view(prev).push(item@));
        }
        i = i + 1;
        assert(contributions_view(out@) =~= acc1 + c.themes@.take(i as int).map_values(f2));
    }
    assert(c.themes@.take(c.themes@.len() as int) =~= c.themes@);
    let ghost acc2 = contributions_view(out@);

    let ghost f3 = |x: ManifestIconTheme| ContributionView::IconTheme { id: x.id@, path: x.path@ };
    let mut i: usize = 0;
    while i < c.icon_themes.len()
        invariant
            i <= c.icon_themes@.len(),
            contributions_view(out@) == acc2 + c.icon_themes@.take(i as int).map_values(f3),
        decreases c.icon_themes.len() - i,
    {
        let x = &c.icon_themes[i];
        let item = Contribution::IconTheme { id: x.id.clone(), path: x.path.clone() };
        let ghost prev = out@;
        out.push(item);
        proof {
            lemma_take_push(c.icon_themes@, i as int);
            lemma_map_push(c.icon_themes@.take(i as int), c.icon_themes@[i as int], f3);
            assert(contributions_view(out@) =~= contributions_view(prev).push(item@));
        }
        i = i + 1;
        assert(contributions_view(out@) =~= acc2 + c.icon_themes@.take(i as int).map_values(f3));
    }
    assert(c.icon_themes@.take(c.icon_themes@.len() as int) =~= c.icon_themes@);
    let ghost acc3 = contributions_view(out@);

    let ghost f4 = |x: ManifestView| ContributionView::SidebarView { id: x.id@, title: x.title@ };
    let mut i: usize = 0;
    while i < c.views.len()
        invariant
            i <= c.views@.len(),
            contributions_view(out@) == acc3 + c.views@.take(i as int).map_values(f4),
        decreases c.views.len() - i,
    {
        let x = &c.views[i];
        let item = Contribution::SidebarView { id: x.id.clone(), title: x.title.clone() };
        let ghost prev = out@;
        out.push(item);
        proof {
            lemma_take_push(c.views@, i as int);
            lemma_map_push(c.views@.take(i as int), c.views@[i as int], f4);
            assert(contributions_view(out@) =~= contributions_view(prev).push(item@));
        }
        i = i + 1;
        assert(contributions_view(out@) =~= acc3 + c.views@.take(i as int).map_values(f4));
    }
    assert(c.views@.take(c.views@.len() as int) =~= c.views@);
    let ghost acc4 = contributions_view(out@);

    let ghost f5 = |x: ManifestSettings| ContributionView::SettingsSchema { path: x.path@ };
    let mut i: usize = 0;
    while i < c.settings.len()
        invariant
            i <= c.settings@.len(),
            contributions_view(out@) == acc4 + c.settings@.take(i as int).map_values(f5),
        decreases c.settings.len() - i,
    {
        let x = &c.settings[i];
        let item = Contribution::SettingsSchema { path: x.path.clone() };
        let ghost prev = out@;
        out.push(item);
        proof {
            lemma_take_push(c.settings@, i as int);
            lemma_map_push(c.settings@.take(i as int), c.settings@[i as int], f5);
            assert(contributions_view(out@) =~= contributions_view(prev).push(item@));
        }
        i = i + 1;
        assert(contributions_view(out@) =~= acc4 + c.settings@.take(i as int).map_values(f5));
    }
    assert(c.settings@.take(c.settings@.len() as int) =~= c.settings@);
    let ghost acc5 = contributions_view(out@);

    let ghost f6 = |x: String| ContributionView::Provider { id: x@ };
    let mut i: usize = 0;
    while i < c.providers.len()
        invariant
            i <= c.providers@.len(),
            contributions_view(out@) == acc5 + c.providers@.take(i as int).map_values(f6),
        decreases c.providers.len() - i,
    {
        let item = Contribution::Provider { id: c.providers[i].clone() };
        let ghost prev = out@;
        out.push(item);
        proof {
            lemma_take_push(c.providers@, i as int);
            lemma_map_push(c.providers@.take(i as int), c.providers@[i as int], f6);
            assert(contributions_view(out@) =~= contributions_view(prev).push(item@));
        }
        i = i + 1;
        assert(contributions_view(out@) =~= acc5 + c.providers@.take(i as int).map_values(f6));
    }
    assert(c.providers@.take(c.providers@.len() as int) =~= c.providers@);
    let ghost acc6 = contributions_view(out@);

    let ghost f7 = |x: String| ContributionView::Agent { id: x@ };
    let mut i: usize = 0;
    while i < c.agents.len()
        invariant
            i <= c.agents@.len(),
            contributions_view(out@) == acc6 + c.agents@.take(i as int).map_values(f7),
        decreases c.agents.len() - i,
    {
        let item = Contribution::Agent { id: c.agents[i].clone() };
        let ghost prev = out@;
        out.push(item);
        proof {
            lemma_take_push(c.agents@, i as int);
            lemma_map_push(c.agents@.take(i as int), c.agents@[i as int], f7);
            assert(contributions_view(out@) =~= contributions_view(prev).push(item@));
        }
        i = i + 1;
        assert(contributions_view(out@) =~= acc6 + c.agents@.take(i as int).map_values(f7));
    }
    assert(c.agents@.take(c.agents@.len() as int) =~= c.agents@);
    assert(contributions_view(out@) =~= manifest_contributions_spec(*c));
    out
}

} // verus!
