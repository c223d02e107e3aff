//! What activated extensions contribute: commands, themes, views, providers
//! and agents.

use vstd::prelude::*;
use crate::sdk::extension::{Contribution, ContributionView};
use crate::text::to_owned_string;

verus! {

/// A command contributed by an extension.
#[derive(Debug)]
pub struct CommandEntry {
    pub id: String,
    pub title: String,
    pub extension_id: String,
}

/// A color theme contributed by an extension.
#[derive(Debug)]
pub struct ThemeEntry {
    pub id: String,
    pub path: String,
    pub extension_id: String,
}

/// An icon theme contributed by an extension.
#[derive(Debug)]
pub struct IconThemeEntry {
    pub id: String,
    pub path: String,
    pub extension_id: String,
}

/// A sidebar view contributed by an extension.
#[derive(Debug)]
pub struct ViewEntry {
    pub id: String,
    pub title: String,
    pub extension_id: String,
}

/// An entry as three character sequences: its id, its second field (title
/// or path) and the id of the extension it came from.
pub ghost struct EntryView {
    pub id: Seq<char>,
    pub detail: Seq<char>,
    pub extension_id: Seq<char>,
}

impl View for CommandEntry {
    type V = EntryView;

    open spec fn view(&self) -> EntryView {
        EntryView { id: self.id@, detail: self.title@, extension_id: self.extension_id@ }
    }
}

impl View for ThemeEntry {
    type V = EntryView;

    open spec fn view(&self) -> EntryView {
        EntryView { id: self.id@, detail: self.path@, extension_id: self.extension_id@ }
    }
}

impl View for IconThemeEntry {
    type V = EntryView;

    open spec fn view(&self) -> EntryView {
        EntryView { id: self.id@, detail: self.path@, extension_id: self.extension_id@ }
    }
}

impl View for ViewEntry {
    type V = EntryView;

    open spec fn view(&self) -> EntryView {
        EntryView { id: self.id@, detail: self.title@, extension_id: self.extension_id@ }
    }
}

impl Clone for CommandEntry {
    fn clone(&self) -> (r: Self)
        ensures
            r == *self,
    {
        CommandEntry {
            id: self.id.clone(),
            title: self.title.clone(),
            extension_id: self.extension_id.clone(),
        }
    }
}

impl Clone for ThemeEntry {
    fn clone(&self) -> (r: Self)
        ensures
            r == *self,
    {
        ThemeEntry {
            id: self.id.clone(),
            path: self.path.clone(),
            extension_id: self.extension_id.clone(),
        }
    }
}

impl Clone for IconThemeEntry {
    fn clone(&self) -> (r: Self)
        ensures
            r == *self,
    {
        IconThemeEntry {
            id: self.id.clone(),
            path: self.path.clone(),
            extension_id: self.extension_id.clone(),
        }
    }
}

impl Clone for ViewEntry {
    fn clone(&self) -> (r: Self)
        ensures
            r == *self,
    {
        ViewEntry {
            id: self.id.clone(),
            title: self.title.clone(),
            extension_id: self.extension_id.clone(),
        }
    }
}

/// The registry's contents as sequences of entries.
pub ghost struct RegistryView {
    pub commands: Seq<EntryView>,
    pub themes: Seq<EntryView>,
    pub icon_themes: Seq<EntryView>,
    pub views: Seq<EntryView>,
    pub providers: Seq<Seq<char>>,
    pub agents: Seq<Seq<char>>,
}

/// No two entries share an id.
pub open spec fn ids_unique(s: Seq<EntryView>) -> bool {
    forall|i: int, j: int| 0 <= i < s.len() && 0 <= j < s.len() && i != j ==> s[i].id != s[j].id
}

/// Some entry has id `k`.
pub open spec fn has_id(s: Seq<EntryView>, k: Seq<char>) -> bool {
    exists|i: int| 0 <= i < s.len() && s[i].id == k
}

/// `s` with `e` stored under its id: the entry with that id is replaced in
/// place, or `e` is appended when there is none (a map insert).
pub open spec fn upsert(s: Seq<EntryView>, e: EntryView) -> Seq<EntryView> {
    if has_id(s, e.id) {
        s.update(choose|i: int| 0 <= i < s.len() && s[i].id == e.id, e)
    } else {
        s.push(e)
    }
}

/// The registry after recording one contribution of extension `ext`.
pub open spec fn register_one(r: RegistryView, ext: Seq<char>, c: ContributionView) -> RegistryView {
    match c {
        ContributionView::Command { id, title } => RegistryView {
            commands: upsert(r.commands, EntryView { id, detail: title, extension_id: ext }),
            ..r
        },
        ContributionView::Theme { id, path } => RegistryView {
            themes: r.themes.push(EntryView { id, detail: path, extension_id: ext }),
            ..r
        },
        ContributionView::IconTheme { id, path } => RegistryView {
            icon_themes: r.icon_themes.push(EntryView { id, detail: path, extension_id: ext }),
            ..r
        },
        ContributionView::SidebarView { id, title } => RegistryView {
            views: r.views.push(EntryView { id, detail: title, extension_id: ext }),
            ..r
        },
        ContributionView::Provider { id } => RegistryView { providers: r.providers.push(id), ..r },
        ContributionView::Agent { id } => RegistryView { agents: r.agents.push(id), ..r },
        ContributionView::SettingsSchema { .. } => r,
    }
}

/// The registry after recording all contributions of `ext`, in order.
pub open spec fn register_all(r: RegistryView, ext: Seq<char>, cs: Seq<ContributionView>) -> RegistryView
    decreases cs.len(),
{
    if cs.len() == 0 {
        r
    } else {
        register_one(register_all(r, ext, cs.drop_last()), ext, cs.last())
    }
}

/// Recording one contribution keeps every command id already registered.
proof fn lemma_register_one_keeps(r: RegistryView, ext: Seq<char>, c: ContributionView, k: Seq<char>)
    requires
        has_id(r.commands, k),
    ensures
        has_id(register_one(r, ext, c).commands, k),
{
    match c {
        ContributionView::Command { id, title } => {
            let e = EntryView { id, detail: title, extension_id: ext };
            let j = choose|j: int| 0 <= j < r.commands.len() && r.commands[j].id == k;
            if has_id(r.commands, e.id) {
                let c = choose|i: int| 0 <= i < r.commands.len() && r.commands[i].id == e.id;
                let u = r.commands.update(c, e);
                if j == c {
                    assert(u[c].id == k);
                } else {
                    assert(u[j].id == k);
                }
            } else {
                assert(r.commands.push(e)[j].id == k);
            }
        },
        _ => {},
    }
}

/// Recording contributions keeps every command id already registered.
pub proof fn lemma_register_keeps_commands(r: RegistryView, ext: Seq<char>, cs: Seq<ContributionView>, k: Seq<char>)
    requires
        has_id(r.commands, k),
    ensures
        has_id(register_all(r, ext, cs).commands, k),
    decreases cs.len(),
{
    if cs.len() > 0 {
        lemma_register_keeps_commands(r, ext, cs.drop_last(), k);
        lemma_register_one_keeps(register_all(r, ext, cs.drop_last()), ext, cs.last(), k);
    }
}

/// After the contributions of an extension are recorded, each command it
/// contributes can be found by its id.
pub proof fn lemma_registered_commands_found(r: RegistryView, ext: Seq<char>, cs: Seq<ContributionView>, i: int)
    requires
        0 <= i < cs.len(),
        cs[i] is Command,
    ensures
        has_id(register_all(r, ext, cs).commands, cs[i]->Command_id),
    decreases cs.len(),
{
    if i == cs.len() - 1 {
        let prev = register_all(r, ext, cs.drop_last());
        let e = EntryView { id: cs[i]->Command_id, detail: cs[i]->Command_title, extension_id: ext };
        if has_id(prev.commands, e.id) {
            let c = choose|j: int| 0 <= j < prev.commands.len() && prev.commands[j].id == e.id;
            assert(prev.commands.update(c, e)[c].id == e.id);
        } else {
            assert(prev.commands.push(e)[prev.commands.len() as int].id == e.id);
        }
    } else {
        lemma_registered_commands_found(r, ext, cs.drop_last(), i);
        assert(cs.drop_last()[i] == cs[i]);
        lemma_register_one_keeps(register_all(r, ext, cs.drop_last()), ext, cs.last(), cs[i]->Command_id);
    }
}

/// The entry with id `k`, if any (the only one where ids are unique).
pub open spec fn lookup(s: Seq<EntryView>, k: Seq<char>) -> Option<EntryView> {
    if has_id(s, k) {
        Some(s[choose|i: int| 0 <= i < s.len() && s[i].id == k])
    } else {
        None
    }
}

/// The title of the last command with id `k` among `cs`, if any.
pub open spec fn last_command_title(cs: Seq<ContributionView>, k: Seq<char>) -> Option<Seq<char>>
    decreases cs.len(),
{
    if cs.len() == 0 {
        None
    } else if cs.last() is Command && cs.last()->Command_id == k {
        Some(cs.last()->Command_title)
    } else {
        last_command_title(cs.drop_last(), k)
    }
}

/// The theme entries that the contributions `cs` of `ext` add, in order.
pub open spec fn contributed_themes(ext: Seq<char>, cs: Seq<ContributionView>) -> Seq<EntryView>
    decreases cs.len(),
{
    if cs.len() == 0 {
        Seq::empty()
    } else {
        let prev = contributed_themes(ext, cs.drop_last());
        match cs.last() {
            ContributionView::Theme { id, path } => prev.push(EntryView { id, detail: path, extension_id: ext }),
            _ => prev,
        }
    }
}

/// The icon theme entries that the contributions `cs` of `ext` add, in order.
pub open spec fn contributed_icon_themes(ext: Seq<char>, cs: Seq<ContributionView>) -> Seq<EntryView>
    decreases cs.len(),
{
    if cs.len() == 0 {
        Seq::empty()
    } else {
        let prev = contributed_icon_themes(ext, cs.drop_last());
        match cs.last() {
            ContributionView::IconTheme { id, path } => prev.push(
                EntryView { id, detail: path, extension_id: ext },
            ),
            _ => prev,
        }
    }
}

/// The sidebar view entries that the contributions `cs` of `ext` add, in
/// order.
pub open spec fn contributed_views(ext: Seq<char>, cs: Seq<ContributionView>) -> Seq<EntryView>
    decreases cs.len(),
{
    if cs.len() == 0 {
        Seq::empty()
    } else {
        let prev = contributed_views(ext, cs.drop_last());
        match cs.last() {
            ContributionView::SidebarView { id, title } => prev.push(
                EntryView { id, detail: title, extension_id: ext },
            ),
            _ => prev,
        }
    }
}

/// The provider ids that the contributions `cs` add, in order.
pub open spec fn contributed_providers(cs: Seq<ContributionView>) -> Seq<Seq<char>>
    decreases cs.len(),
{
    if cs.len() == 0 {
        Seq::empty()
    } else {
        let prev = contributed_providers(cs.drop_last());
        match cs.last() {
            ContributionView::Provider { id } => prev.push(id),
            _ => prev,
        }
    }
}

/// The agent ids that the contributions `cs` add, in order.
pub open spec fn contributed_agents(cs: Seq<ContributionView>) -> Seq<Seq<char>>
    decreases cs.len(),
{
    if cs.len() == 0 {
        Seq::empty()
    } else {
        let prev = contributed_agents(cs.drop_last());
        match cs.last() {
            ContributionView::Agent { id } => prev.push(id),
            _ => prev,
        }
    }
}

/// Storing `e` by id keeps ids unique; afterwards `e` is found under its id
/// and every other id finds what it found before.
proof fn lemma_upsert_lookup(s: Seq<EntryView>, e: EntryView, k: Seq<char>)
    requires
        ids_unique(s),
    ensures
        ids_unique(upsert(s, e)),
        lookup(upsert(s, e), k) == (if k == e.id {
            Some(e)
        } else {
            lookup(s, k)
        }),
{
    let u = upsert(s, e);
    if has_id(s, e.id) {
        let c = choose|i: int| 0 <= i < s.len() && s[i].id == e.id;
        assert(u[c] == e);
        assert forall|i: int, j: int| 0 <= i < u.len() && 0 <= j < u.len() && i != j implies u[i].id != u[j].id by {
            if i != c && j != c {
                assert(u[i] == s[i] && u[j] == s[j]);
            } else if i == c {
                assert(u[j] == s[j]);
            } else {
                assert(u[i] == s[i]);
            }
        }
        if k == e.id {
            let w = choose|i: int| 0 <= i < u.len() && u[i].id == k;
            assert(w == c);
        } else if has_id(s, k) {
            let a = choose|i: int| 0 <= i < s.len() && s[i].id == k;
            assert(a != c);
            assert(u[a].id == k);
            let w = choose|i: int| 0 <= i < u.len() && u[i].id == k;
            assert(w != c);
            assert(u[w] == s[w]);
            assert(w == a);
        } else {
            assert forall|i: int| 0 <= i < u.len() implies u[i].id != k by {
                if i != c {
                    assert(u[i] == s[i]);
                }
            }
        }
    } else {
        let n = s.len() as int;
        assert(u[n] == e);
        assert forall|i: int, j: int| 0 <= i < u.len() && 0 <= j < u.len() && i != j implies u[i].id != u[j].id by {
            if i != n && j != n {
                assert(u[i] == s[i] && u[j] == s[j]);
            } else if i == n {
                assert(u[j] == s[j]);
            } else {
                assert(u[i] == s[i]);
            }
        }
        if k == e.id {
            let w = choose|i: int| 0 <= i < u.len() && u[i].id == k;
            if w != n {
                assert(u[w] == s[w]);
            }
        } else if has_id(s, k) {
            let a = choose|i: int| 0 <= i < s.len() && s[i].id == k;
            assert(u[a].id == k);
            let w = choose|i: int| 0 <= i < u.len() && u[i].id == k;
            assert(w != n);
            assert(u[w] == s[w]);
            assert(w == a);
        } else {
            assert forall|i: int| 0 <= i < u.len() implies u[i].id != k by {
                if i != n {
                    assert(u[i] == s[i]);
                }
            }
        }
    }
}

/// Recording the contributions `cs` of extension `ext`: each command id
/// that `cs` contributes then finds the title of the last such command,
/// under `ext`, and every other id finds what it found before; themes, icon
/// themes, sidebar views, providers and agents are appended in order;
/// settings schemas add nothing.
pub proof fn lemma_register_extension_per_kind(r: RegistryView, ext: Seq<char>, cs: Seq<ContributionView>, k: Seq<char>)
    requires
        ids_unique(r.commands),
    ensures
        ids_unique(register_all(r, ext, cs).commands),
        lookup(register_all(r, ext, cs).commands, k) == (match last_command_title(cs, k) {
            Some(t) => Some(EntryView { id: k, detail: t, extension_id: ext }),
            None => lookup(r.commands, k),
        }),
        register_all(r, ext, cs).themes == r.themes + contributed_themes(ext, cs),
        register_all(r, ext, cs).icon_themes == r.icon_themes + contributed_icon_themes(ext, cs),
        register_all(r, ext, cs).views == r.views + contributed_views(ext, cs),
        register_all(r, ext, cs).providers == r.providers + contributed_providers(cs),
        register_all(r, ext, cs).agents == r.agents + contributed_agents(cs),
    decreases cs.len(),
{
    if cs.len() == 0 {
        assert(r.themes + Seq::<EntryView>::empty() =~= r.themes);
        assert(r.icon_themes + Seq::<EntryView>::empty() =~= r.icon_themes);
        assert(r.views + Seq::<EntryView>::empty() =~= r.views);
        assert(r.providers + Seq::<Seq<char>>::empty() =~= r.providers);
        assert(r.agents + Seq::<Seq<char>>::empty() =~= r.agents);
    } else {
        let dl = cs.drop_last();
        lemma_register_extension_per_kind(r, ext, dl, k);
        let prev = register_all(r, ext, dl);
        match cs.last() {
            ContributionView::Command { id, title } => {
                lemma_upsert_lookup(prev.commands, EntryView { id, detail: title, extension_id: ext }, k);
            },
            ContributionView::Theme { id, path } => {
                let e = EntryView { id, detail: path, extension_id: ext };
                assert((r.themes + contributed_themes(ext, dl)).push(e) =~= r.themes + contributed_themes(ext, dl).push(e));
            },
            ContributionView::IconTheme { id, path } => {
                let e = EntryView { id, detail: path, extension_id: ext };
                assert((r.icon_themes + contributed_icon_themes(ext, dl)).push(e) =~= r.icon_themes
                    + contributed_icon_themes(ext, dl).push(e));
            },
            ContributionView::SidebarView { id, title } => {
                let e = EntryView { id, detail: title, extension_id: ext };
                assert((r.views + contributed_views(ext, dl)).push(e) =~= r.views + contributed_views(ext, dl).push(e));
            },
            ContributionView::Provider { id } => {
                assert((r.providers + contributed_providers(dl)).push(id) =~= r.providers + contributed_providers(dl).push(id));
            },
            ContributionView::Agent { id } => {
                assert((r.agents + contributed_agents(dl)).push(id) =~= r.agents + contributed_agents(dl).push(id));
            },
            ContributionView::SettingsSchema { .. } => {},
        }
    }
}

/// Commands stored by id, at most one per id.
struct CommandTable {
    entries: Vec<CommandEntry>,
}

impl CommandTable {
    /// Stores a command under its id, replacing an earlier one with that id.
    fn upsert(&mut self, entry: CommandEntry)
        ensures
            final(self).view_seq() == upsert(old(self).view_seq(), entry@),
    {
        proof {
            use_type_invariant(&*self);
        }
        let ghost cmds = self.view_seq();
        let mut i: usize = 0;
        while i < self.entries.len()
            invariant
                i <= self.entries@.len(),
                self.view_seq() == old(self).view_seq(),
                cmds == self.view_seq(),
                ids_unique(cmds),
                forall|j: int| 0 <= j < i ==> cmds[j].id != entry@.id,
            decreases self.entries.len() - i,
        {
            if self.entries[i].id == entry.id {
                assert(cmds[i as int].id == entry@.id);
                assert(has_id(cmds, entry@.id));
                let ghost k = choose|k: int| 0 <= k < cmds.len() && cmds[k].id == entry@.id;
                assert(k == i);
                                self.set(i, entry);
                return;
            }
            i = i + 1;
        }
        assert(!has_id(cmds, entry@.id));
        let ghost e = entry@;
        self.push(entry);
    }

    /// Replaces the command at `i`, whose id is the new entry's.
    fn set(&mut self, i: usize, entry: CommandEntry)
        requires
            i < old(self).view_seq().len(),
            old(self).view_seq()[i as int].id == entry@.id,
        ensures
            final(self).view_seq() == old(self).view_seq().update(i as int, entry@),
    {
        proof {
            use_type_invariant(&*self);
        }
        let ghost old_cmds = self.entries@;
        let ghost e = entry@;
        let mut cmds: Vec<CommandEntry> = Vec::new();
        std::mem::swap(&mut cmds, &mut self.entries);
        cmds.set(i, entry);
        assert(cmds@.map_values(|e: CommandEntry| e@) =~= old_cmds.map_values(
            |e: CommandEntry| e@,
        ).update(i as int, e));
        self.entries = cmds;
    }

    /// Appends a command whose id is not present yet.
    fn push(&mut self, entry: CommandEntry)
        requires
            !has_id(old(self).view_seq(), entry@.id),
        ensures
            final(self).view_seq() == old(self).view_seq().push(entry@),
    {
        proof {
            use_type_invariant(&*self);
        }
        let ghost old_cmds = self.entries@;
        let ghost e = entry@;
        let mut cmds: Vec<CommandEntry> = Vec::new();
        std::mem::swap(&mut cmds, &mut self.entries);
        cmds.push(entry);
        assert(cmds@.map_values(|e: CommandEntry| e@) =~= old_cmds.map_values(
            |e: CommandEntry| e@,
        ).push(e));
        self.entries = cmds;
    }

    /// The entries as views.
    closed spec fn view_seq(&self) -> Seq<EntryView> {
        self.entries@.map_values(|e: CommandEntry| e@)
    }

    /// Ids are unique, as the keys of a map are.
    #[verifier::type_invariant]
    closed spec fn wf(self) -> bool {
        ids_unique(self.entries@.map_values(|e: CommandEntry| e@))
    }
}

/// All contributions of activated extensions.
pub struct ContributionRegistry {
    commands: CommandTable,
    themes: Vec<ThemeEntry>,
    icon_themes: Vec<IconThemeEntry>,
    views: Vec<ViewEntry>,
    providers: Vec<String>,
    agents: Vec<String>,
}

impl View for ContributionRegistry {
    type V = RegistryView;

    closed spec fn view(&self) -> RegistryView {
        RegistryView {
            commands: self.commands.view_seq(),
            themes: self.themes@.map_values(|e: ThemeEntry| e@),
            icon_themes: self.icon_themes@.map_values(|e: IconThemeEntry| e@),
            views: self.views@.map_values(|e: ViewEntry| e@),
            providers: self.providers@.map_values(|s: String| s@),
            agents: self.agents@.map_values(|s: String| s@),
        }
    }
}

impl ContributionRegistry {
    /// The contents of an empty registry.
    pub open spec fn empty_view() -> RegistryView {
        RegistryView {
            commands: Seq::empty(),
            themes: Seq::empty(),
            icon_themes: Seq::empty(),
            views: Seq::empty(),
            providers: Seq::empty(),
            agents: Seq::empty(),
        }
    }

    /// An empty registry.
    pub fn new() -> (r: Self)
        ensures
            r@ == Self::empty_view(),
    {
        let r = ContributionRegistry {
            commands: CommandTable { entries: Vec::new() },
            themes: Vec::new(),
            icon_themes: Vec::new(),
            views: Vec::new(),
            providers: Vec::new(),
            agents: Vec::new(),
        };
        assert(r@.commands =~= Seq::empty());
        assert(r@.themes =~= Seq::empty());
        assert(r@.icon_themes =~= Seq::empty());
        assert(r@.views =~= Seq::empty());
        assert(r@.providers =~= Seq::empty());
        assert(r@.agents =~= Seq::empty());
        r
    }

    /// Records the contributions of an activated extension, in order.
    /// Commands are stored by id (a later one replaces an earlier one with
    /// the same id); themes, icon themes, views, providers and agents are
    /// appended; settings schemas are not recorded.
    pub fn register_extension(&mut self, extension_id: &str, contributions: &[Contribution])
        ensures
            final(self)@ == register_all(
                old(self)@,
                extension_id@,
                contributions@.map_values(|c: Contribution| c@),
            ),
    {
        let ghost cs = contributions@.map_values(|c: Contribution| c@);
        let mut i: usize = 0;
        assert(cs.take(0) =~= Seq::<ContributionView>::empty());
        while i < contributions.len()
            invariant
                i <= contributions@.len(),
                cs == contributions@.map_values(|c: Contribution| c@),
                self@ == register_all(old(self)@, extension_id@, cs.take(i as int)),
            decreases contributions.len() - i,
        {
            let ghost before = self@;
            match &contributions[i] {
                Contribution::Command { id, title } => {
                    self.commands.upsert(
                        CommandEntry {
                            id: id.clone(),
                            title: title.clone(),
                            extension_id: to_owned_string(extension_id),
                        },
                    );
                },
                Contribution::Theme { id, path } => {
                    let e = ThemeEntry {
                        id: id.clone(),
                        path: path.clone(),
                        extension_id: to_owned_string(extension_id),
                    };
                    let ghost ev = e@;
                    self.themes.push(e);
                    assert(self@.themes =~= before.themes.push(ev));
                },
                Contribution::IconTheme { id, path } => {
                    let e = IconThemeEntry {
                        id: id.clone(),
                        path: path.clone(),
                        extension_id: to_owned_string(extension_id),
                    };
                    let ghost ev = e@;
                    self.icon_themes.push(e);
                    assert(self@.icon_themes =~= before.icon_themes.push(ev));
                },
                Contribution::SidebarView { id, title } => {
                    let e = ViewEntry {
                        id: id.clone(),
                        title: title.clone(),
                        extension_id: to_owned_string(extension_id),
                    };
                    let ghost ev = e@;
                    self.views.push(e);
                    assert(self@.views =~= before.views.push(ev));
                },
                Contribution::Provider { id } => {
                    self.providers.push(id.clone());
                    assert(self@.providers =~= before.providers.push(id@));
                },
                Contribution::Agent { id } => {
                    self.agents.push(id.clone());
                    assert(self@.agents =~= before.agents.push(id@));
                },
                Contribution::SettingsSchema { .. } => {},
            }
            proof {
                assert(cs.take(i + 1).drop_last() =~= cs.take(i as int));
            }
            i = i + 1;
        }
        assert(cs.take(cs.len() as int) =~= cs);
    }

    /// The registered commands, one per id.
    pub fn commands(&self) -> (r: &Vec<CommandEntry>)
        ensures
            r@.map_values(|e: CommandEntry| e@) == self@.commands,
            ids_unique(self@.commands),
    {
        proof {
            use_type_invariant(&self.commands);
        }
        &self.commands.entries
    }

    /// The registered color themes, in registration order.
    pub fn themes(&self) -> (r: &[ThemeEntry])
        ensures
            r@.map_values(|e: ThemeEntry| e@) == self@.themes,
    {
        self.themes.as_slice()
    }

    /// The registered icon themes, in registration order.
    pub fn icon_themes(&self) -> (r: &[IconThemeEntry])
        ensures
            r@.map_values(|e: IconThemeEntry| e@) == self@.icon_themes,
    {
        self.icon_themes.as_slice()
    }

    /// The registered sidebar views, in registration order.
    pub fn views(&self) -> (r: &[ViewEntry])
        ensures
            r@.map_values(|e: ViewEntry| e@) == self@.views,
    {
        self.views.as_slice()
    }

    /// The registered provider ids, in registration order.
    pub fn providers(&self) -> (r: &[String])
        ensures
            r@.map_values(|s: String| s@) == self@.providers,
    {
        self.providers.as_slice()
    }

    /// The registered agent ids, in registration order.
    pub fn agents(&self) -> (r: &[String])
        ensures
            r@.map_values(|s: String| s@) == self@.agents,
    {
        self.agents.as_slice()
    }

    /// The command registered under `id`, if any.
    pub fn find_command(&self, id: &str) -> (r: Option<&CommandEntry>)
        ensures
            r is Some <==> has_id(self@.commands, id@),
            r matches Some(e) ==> e@.id == id@ && self@.commands.contains(e@),
            match r {
                Some(e) => Some(e@),
                None => None,
            } == lookup(self@.commands, id@),
    {
        proof {
            use_type_invariant(&self.commands);
        }
        let key = to_owned_string(id);
        let mut i: usize = 0;
        while i < self.commands.entries.len()
            invariant
                i <= self.commands.entries@.len(),
                key@ == id@,
                ids_unique(self@.commands),
                forall|j: int| 0 <= j < i ==> self.commands.entries@[j].id@ != id@,
            decreases self.commands.entries.len() - i,
        {
            if self.commands.entries[i].id == key {
                proof {
                    assert(self@.commands[i as int] == self.commands.entries@[i as int]@);
                    assert(self@.commands[i as int].id == id@);
                    assert(has_id(self@.commands, id@));
                    assert(ids_unique(self@.commands));
                    let w = choose|w: int| 0 <= w < self@.commands.len() && self@.commands[w].id == id@;
                    assert(w == i);
                }
                return Some(&self.commands.entries[i]);
            }
            i = i + 1;
        }
        proof {
            if has_id(self@.commands, id@) {
                let k = choose|k: int| 0 <= k < self@.commands.len() && self@.commands[k].id == id@;
                assert(self.commands.entries@[k].id@ == id@);
            }
        }
        None
    }
}

impl Clone for ContributionRegistry {
    fn clone(&self) -> (r: Self)
        ensures
            r@ == self@,
    {
        proof {
            use_type_invariant(&self.commands);
        }
        let r = ContributionRegistry {
            commands: CommandTable { entries: self.commands.entries.clone() },
            themes: self.themes.clone(),
            icon_themes: self.icon_themes.clone(),
            views: self.views.clone(),
            providers: self.providers.clone(),
            agents: self.agents.clone(),
        };
        assert(r.commands.entries@ =~= self.commands.entries@);
        assert(r.themes@ =~= self.themes@);
        assert(r.icon_themes@ =~= self.icon_themes@);
        assert(r.views@ =~= self.views@);
        assert(r.providers@ =~= self.providers@);
        assert(r.agents@ =~= self.agents@);
        r
    }
}

} // verus!
