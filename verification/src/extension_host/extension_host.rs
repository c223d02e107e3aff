//! The extension host: the catalog of discovered extensions, their
//! activation, and the contributions of the active ones.

use vstd::prelude::*;
use crate::extension_host::contribution_registry::{
    ContributionRegistry, RegistryView, has_id, lemma_registered_commands_found, register_all,
};
use crate::extension_host::discovery::DiscoveredExtension;
use crate::extension_host::manifest::{
    SuperExtensionManifest, contributions_view, events_view, is_sdk_form,
    manifest_contributions_spec, parse_activation_events_spec,
};
use crate::sdk::extension::{ActivationEvent, ActivationEventView, ContributionView, ExtensionError};
use crate::text::{join_path, join_path_spec, to_owned_string};

verus! {

/// Where an extension is in its life cycle.
#[derive(Debug, Clone, Copy, PartialEq, Eq, Structural)]
pub enum ExtensionState {
    Discovered,
    Activated,
    Deactivated,
}

/// A managed extension as the host sees it.
pub ghost struct ManagedView {
    pub id: Seq<char>,
    pub state: ExtensionState,
    pub root: Seq<char>,
    pub events: Seq<ActivationEventView>,
    pub contributions: Seq<ContributionView>,
    pub wasm: Option<Seq<char>>,
}

/// The manifest strings of activation events, as characters.
pub open spec fn event_strings(m: SuperExtensionManifest) -> Seq<Seq<char>> {
    m.activation_events@.map_values(|x: String| x@)
}

/// How the host sees a manifest found under `root`, in state `state`.
pub open spec fn managed_view_of(m: SuperExtensionManifest, root: Seq<char>, state: ExtensionState) -> ManagedView {
    ManagedView {
        id: m.id@,
        state,
        root,
        events: parse_activation_events_spec(event_strings(m)),
        contributions: manifest_contributions_spec(m.contributes),
        wasm: match m.wasm {
            Some(w) => Some(w.path@),
            None => None,
        },
    }
}

struct ManagedExtension {
    manifest: SuperExtensionManifest,
    state: ExtensionState,
    root: String,
}

impl View for ManagedExtension {
    type V = ManagedView;

    closed spec fn view(&self) -> ManagedView {
        managed_view_of(self.manifest, self.root@, self.state)
    }
}

/// No two managed extensions share an id.
pub open spec fn ext_ids_unique(s: Seq<ManagedView>) -> bool {
    forall|i: int, j: int| 0 <= i < s.len() && 0 <= j < s.len() && i != j ==> s[i].id != s[j].id
}

/// Some managed extension has id `k`.
pub open spec fn has_ext(s: Seq<ManagedView>, k: Seq<char>) -> bool {
    exists|i: int| 0 <= i < s.len() && s[i].id == k
}

/// The position of the extension with id `k` (meaningful when `has_ext`).
pub open spec fn ext_index(s: Seq<ManagedView>, k: Seq<char>) -> int {
    choose|i: int| 0 <= i < s.len() && s[i].id == k
}

/// `s` with `e` stored under its id (a map insert).
pub open spec fn upsert_ext(s: Seq<ManagedView>, e: ManagedView) -> Seq<ManagedView> {
    if has_ext(s, e.id) {
        s.update(ext_index(s, e.id), e)
    } else {
        s.push(e)
    }
}

/// The host's catalog and contributions.
pub ghost struct HostView {
    pub extensions: Seq<ManagedView>,
    pub registry: RegistryView,
}

/// The catalog after recording discovered extensions, in order.
pub open spec fn refresh_spec(s: Seq<ManagedView>, found: Seq<ManagedView>) -> Seq<ManagedView>
    decreases found.len(),
{
    if found.len() == 0 {
        s
    } else {
        upsert_ext(refresh_spec(s, found.drop_last()), found.last())
    }
}

/// How the host sees a discovered extension.
pub open spec fn discovered_view(d: DiscoveredExtension) -> ManagedView {
    managed_view_of(d.manifest, d.root@, ExtensionState::Discovered)
}

/// The host after activating the extension `id` (unchanged when it is
/// unknown or already active).
pub open spec fn activate_spec(h: HostView, id: Seq<char>) -> HostView {
    if !has_ext(h.extensions, id) {
        h
    } else {
        let k = ext_index(h.extensions, id);
        let e = h.extensions[k];
        if e.state == ExtensionState::Activated {
            h
        } else {
            HostView {
                extensions: h.extensions.update(k, ManagedView { state: ExtensionState::Activated, ..e }),
                registry: register_all(h.registry, id, e.contributions),
            }
        }
    }
}

/// The extension wants to be activated on `ev`.
pub open spec fn listens_to(e: ManagedView, ev: ActivationEventView) -> bool {
    e.events.contains(ev)
}

/// The host after activating, in catalog order, each of the first `n`
/// extensions that listen to `ev`.
pub open spec fn activate_for_event_spec(h: HostView, ev: ActivationEventView, n: nat) -> HostView
    decreases n,
{
    if n == 0 {
        h
    } else {
        let prev = activate_for_event_spec(h, ev, (n - 1) as nat);
        if (n - 1) < h.extensions.len() && listens_to(h.extensions[n - 1], ev) {
            activate_spec(prev, h.extensions[n - 1].id)
        } else {
            prev
        }
    }
}

/// The ids of the first `n` extensions that listen to `ev`, in catalog order.
pub open spec fn listeners(s: Seq<ManagedView>, ev: ActivationEventView) -> Seq<Seq<char>> {
    s.filter(|e: ManagedView| listens_to(e, ev)).map_values(|e: ManagedView| e.id)
}

struct ExtensionTable {
    entries: Vec<ManagedExtension>,
}

impl ExtensionTable {
    closed spec fn view_seq(&self) -> Seq<ManagedView> {
        self.entries@.map_values(|e: ManagedExtension| e@)
    }

    #[verifier::type_invariant]
    closed spec fn wf(self) -> bool {
        ext_ids_unique(self.entries@.map_values(|e: ManagedExtension| e@))
    }

    /// The position of extension `id`, if it is present.
    fn find(&self, id: &String) -> (r: Option<usize>)
        ensures
            r is Some <==> has_ext(self.view_seq(), id@),
            r matches Some(k) ==> k < self.view_seq().len() && k == ext_index(
                self.view_seq(),
                id@,
            ),
    {
        proof {
            use_type_invariant(self);
        }
        let ghost s = self.view_seq();
        let mut i: usize = 0;
        while i < self.entries.len()
            invariant
                i <= self.entries@.len(),
                s == self.view_seq(),
                ext_ids_unique(s),
                forall|j: int| 0 <= j < i ==> s[j].id != id@,
            decreases self.entries.len() - i,
        {
            if self.entries[i].manifest.id == *id {
                assert(s[i as int].id == id@);
                assert(has_ext(s, id@));
                return Some(i);
            }
            i = i + 1;
        }
        None
    }

    /// Stores an extension under its id.
    fn upsert(&mut self, e: ManagedExtension)
        ensures
            final(self).view_seq() == upsert_ext(old(self).view_seq(), e@),
    {
        proof {
            use_type_invariant(&*self);
        }
        let ghost ev = e@;
        let found = self.find(&e.manifest.id);
        let mut entries: Vec<ManagedExtension> = Vec::new();
        std::mem::swap(&mut entries, &mut self.entries);
        let ghost old_entries = entries@;
        match found {
            Some(k) => {
                entries.set(k, e);
                assert(entries@.map_values(|x: ManagedExtension| x@) =~= old_entries.map_values(
                    |x: ManagedExtension| x@,
                ).update(k as int, ev));
            },
            None => {
                entries.push(e);
                assert(entries@.map_values(|x: ManagedExtension| x@) =~= old_entries.map_values(
                    |x: ManagedExtension| x@,
                ).push(ev));
            },
        }
        self.entries = entries;
    }

    /// Marks the extension at `k` active.
    fn activate_at(&mut self, k: usize)
        requires
            k < old(self).view_seq().len(),
        ensures
            final(self).view_seq() == old(self).view_seq().update(
                k as int,
                ManagedView { state: ExtensionState::Activated, ..old(self).view_seq()[k as int] },
            ),
    {
        proof {
            use_type_invariant(&*self);
        }
        let mut entries: Vec<ManagedExtension> = Vec::new();
        std::mem::swap(&mut entries, &mut self.entries);
        let ghost old_entries = entries@;
        let mut e = entries.remove(k);
        e.state = ExtensionState::Activated;
        let ghost ev = e@;
        entries.insert(k, e);
        assert(entries@.map_values(|x: ManagedExtension| x@) =~= old_entries.map_values(
            |x: ManagedExtension| x@,
        ).update(k as int, ev));
        self.entries = entries;
    }
}


/// The extension host.
pub struct SuperExtensionHost {
    extensions: ExtensionTable,
    contribution_registry: ContributionRegistry,
    search_dirs: Vec<String>,
}

impl View for SuperExtensionHost {
    type V = HostView;

    closed spec fn view(&self) -> HostView {
        HostView { extensions: self.extensions.view_seq(), registry: self.contribution_registry@ }
    }
}

impl SuperExtensionHost {
    /// The directories this host searches for extensions.
    pub closed spec fn search_dirs_spec(&self) -> Seq<Seq<char>> {
        self.search_dirs@.map_values(|s: String| s@)
    }

    /// A host with no extensions that searches `search_dirs`.
    pub fn new(search_dirs: Vec<String>) -> (r: Self)
        ensures
            r@.extensions == Seq::<ManagedView>::empty(),
            r@.registry == ContributionRegistry::empty_view(),
            r.search_dirs_spec() == search_dirs@.map_values(|s: String| s@),
    {
        let r = SuperExtensionHost {
            extensions: ExtensionTable { entries: Vec::new() },
            contribution_registry: ContributionRegistry::new(),
            search_dirs,
        };
        assert(r@.extensions =~= Seq::<ManagedView>::empty());
        r
    }

    /// The directories this host searches for extensions.
    pub fn search_dirs(&self) -> (r: &Vec<String>)
        ensures
            r@.map_values(|s: String| s@) == self.search_dirs_spec(),
    {
        &self.search_dirs
    }

    /// Records the extensions found by a scan of the search directories: each
    /// is stored under its manifest id as `Discovered`, replacing an earlier
    /// entry with that id. Returns the ids in the order found.
    pub fn refresh(&mut self, discovered: Vec<DiscoveredExtension>) -> (r: Vec<String>)
        ensures
            final(self)@.extensions == refresh_spec(
                old(self)@.extensions,
                discovered@.map_values(|d: DiscoveredExtension| discovered_view(d)),
            ),
            final(self)@.registry == old(self)@.registry,
            final(self).search_dirs_spec() == old(self).search_dirs_spec(),
            r@.map_values(|s: String| s@) == discovered@.map_values(
                |d: DiscoveredExtension| d.manifest.id@,
            ),
    {
        let ghost found = discovered@.map_values(|d: DiscoveredExtension| discovered_view(d));
        let ghost ids = discovered@.map_values(|d: DiscoveredExtension| d.manifest.id@);
        let mut rest = discovered;
        let mut ids_out: Vec<String> = Vec::new();
        let mut i: usize = 0;
        let n = rest.len();
        proof {
            assert(found.take(0) =~= Seq::<ManagedView>::empty());
            assert(rest@ =~= discovered@.skip(0));
        }
        while rest.len() > 0
            invariant
                i <= n == discovered@.len(),
                rest@ == discovered@.skip(i as int),
                found == discovered@.map_values(|d: DiscoveredExtension| discovered_view(d)),
                ids == discovered@.map_values(|d: DiscoveredExtension| d.manifest.id@),
                self@.extensions == refresh_spec(old(self)@.extensions, found.take(i as int)),
                self@.registry == old(self)@.registry,
                self.search_dirs_spec() == old(self).search_dirs_spec(),
                ids_out@.map_values(|s: String| s@) == ids.take(i as int),
            decreases rest.len(),
        {
            let d = rest.remove(0);
            assert(d == discovered@[i as int]);
            let id = d.manifest.id.clone();
            let e = ManagedExtension {
                manifest: d.manifest,
                state: ExtensionState::Discovered,
                root: d.root,
            };
            assert(e@ == found[i as int]);
            self.extensions.upsert(e);
            let ghost prev_ids = ids_out@;
            assert(ids[i as int] == id@);
            ids_out.push(id);
            proof {
                assert(ids_out@.map_values(|s: String| s@) =~= prev_ids.map_values(|s: String| s@).push(id@));
                assert(ids.take(i + 1) =~= ids.take(i as int).push(ids[i as int]));
                assert(found.take(i + 1).drop_last() =~= found.take(i as int));
                assert(ids_out@.map_values(|s: String| s@) =~= ids.take(i + 1));
                assert(rest@ =~= discovered@.skip(i + 1));
            }
            i = i + 1;
        }
        assert(found.take(i as int) =~= found);
        assert(ids.take(i as int) =~= ids);
        ids_out
    }

    /// Activates extension `id`: its contributions are registered the first
    /// time. Fails when no extension has that id.
    pub fn activate_extension(&mut self, extension_id: &str) -> (r: Result<(), ExtensionError>)
        ensures
            final(self)@ == activate_spec(old(self)@, extension_id@),
            final(self).search_dirs_spec() == old(self).search_dirs_spec(),
            r is Ok <==> has_ext(old(self)@.extensions, extension_id@),
            r matches Err(e) ==> e.extension_id@ == extension_id@ && e.message@
                == "Extension not found"@,
    {
        let key = to_owned_string(extension_id);
        match self.extensions.find(&key) {
            None => Err(
                ExtensionError {
                    extension_id: to_owned_string(extension_id),
                    message: to_owned_string("Extension not found"),
                },
            ),
            Some(k) => {
                if self.extensions.entries[k].state == ExtensionState::Activated {
                    return Ok(());
                }
                let sdk = self.extensions.entries[k].manifest.to_sdk();
                proof {
                    assert(is_sdk_form(self.extensions.entries@[k as int].manifest, sdk));
                }
                self.contribution_registry.register_extension(
                    extension_id,
                    sdk.contributions.as_slice(),
                );
                self.extensions.activate_at(k);
                Ok(())
            },
        }
    }

    /// Activates, in catalog order, every extension that listens to `event`,
    /// and returns their ids.
    pub fn activate_for_event(&mut self, event: &ActivationEvent) -> (r: Vec<String>)
        ensures
            final(self)@ == activate_for_event_spec(
                old(self)@,
                event@,
                old(self)@.extensions.len(),
            ),
            final(self).search_dirs_spec() == old(self).search_dirs_spec(),
            r@.map_values(|s: String| s@) == listeners(old(self)@.extensions, event@),
    {
        let ghost h0 = self@;
        let ghost pred = |e: ManagedView| listens_to(e, event@);
        let mut activated: Vec<String> = Vec::new();
        let n = self.extensions.entries.len();
        let mut i: usize = 0;
        proof {
            assert(h0.extensions.take(0).filter(pred) =~= Seq::<ManagedView>::empty());
            assert(activated@.map_values(|s: String| s@) =~= h0.extensions.take(0).filter(
                pred,
            ).map_values(|e: ManagedView| e.id));
        }
        while i < n
            invariant
                n == h0.extensions.len(),
                n == self.extensions.entries@.len(),
                i <= n,
                self@ == activate_for_event_spec(h0, event@, i as nat),
                self.search_dirs_spec() == old(self).search_dirs_spec(),
                h0 == old(self)@,
                pred == (|e: ManagedView| listens_to(e, event@)),
                self@.extensions.map_values(|e: ManagedView| e.id) == h0.extensions.map_values(
                    |e: ManagedView| e.id,
                ),
                self@.extensions.map_values(|e: ManagedView| e.events) == h0.extensions.map_values(
                    |e: ManagedView| e.events,
                ),
                activated@.map_values(|s: String| s@) == h0.extensions.take(i as int).filter(
                    pred,
                ).map_values(|e: ManagedView| e.id),
            decreases n - i,
        {
            proof {
                assert(self@.extensions.map_values(|e: ManagedView| e.id)[i as int]
                    == h0.extensions[i as int].id);
                assert(self@.extensions.map_values(|e: ManagedView| e.events)[i as int]
                    == h0.extensions[i as int].events);
            }
            let sdk = self.extensions.entries[i].manifest.to_sdk();
            let listens = contains_event(&sdk.activation_events, event);
            proof {
                assert(self@.extensions[i as int] == self.extensions.entries@[i as int]@);
                assert(listens == pred(h0.extensions[i as int]));
            }
            let ghost prev = activated@;
            if listens {
                let id = self.extensions.entries[i].manifest.id.clone();
                let ghost before = self@;
                let res = self.activate_extension(id.as_str());
                proof {
                    assert(before.extensions[i as int].id == id@);
                    assert(has_ext(before.extensions, id@));
                }
                activated.push(id);
                proof {
                    lemma_activate_keeps_ids(before, id@);
                    assert(activated@.map_values(|s: String| s@) =~= prev.map_values(|s: String| s@).push(id@));
                }
            }
            proof {
                lemma_filter_take_step(h0.extensions, pred, i as int);
                if listens {
                    assert(h0.extensions.take(i + 1).filter(pred).map_values(|e: ManagedView| e.id) =~= h0.extensions.take(i as int).filter(pred).map_values(|e: ManagedView| e.id).push(h0.extensions[i as int].id));
                }
                assert(activated@.map_values(|s: String| s@) =~= h0.extensions.take(i + 1).filter(
                    pred,
                ).map_values(|e: ManagedView| e.id));
            }
            i = i + 1;
        }
        assert(h0.extensions.take(n as int) =~= h0.extensions);
        activated
    }

    /// The contributions of the activated extensions.
    pub fn contribution_registry(&self) -> (r: &ContributionRegistry)
        ensures
            r@ == self@.registry,
    {
        &self.contribution_registry
    }

    /// Every extension in the catalog with its state, in catalog order.
    pub fn list_extensions(&self) -> (r: Vec<(String, ExtensionState)>)
        ensures
            r@.map_values(|p: (String, ExtensionState)| (p.0@, p.1)) == self@.extensions.map_values(
                |e: ManagedView| (e.id, e.state),
            ),
            ext_ids_unique(self@.extensions),
    {
        proof {
            use_type_invariant(&self.extensions);
        }
        let mut out: Vec<(String, ExtensionState)> = Vec::new();
        let mut i: usize = 0;
        while i < self.extensions.entries.len()
            invariant
                i <= self@.extensions.len(),
                self@.extensions.len() == self.extensions.entries@.len(),
                out@.map_values(|p: (String, ExtensionState)| (p.0@, p.1))
                    == self@.extensions.take(i as int).map_values(
                    |e: ManagedView| (e.id, e.state),
                ),
            decreases self.extensions.entries.len() - i,
        {
            let e = &self.extensions.entries[i];
            let ghost prev = out@;
            out.push((e.manifest.id.clone(), e.state));
            proof {
                assert(out@.map_values(|p: (String, ExtensionState)| (p.0@, p.1)) =~= prev.map_values(|p: (String, ExtensionState)| (p.0@, p.1)).push((e.manifest.id@, e.state)));
                assert(self@.extensions.take(i + 1) =~= self@.extensions.take(i as int).push(self@.extensions[i as int]));
                assert(self@.extensions[i as int] == self.extensions.entries@[i as int]@);
                assert(out@.map_values(|p: (String, ExtensionState)| (p.0@, p.1))
                    =~= self@.extensions.take(i + 1).map_values(|e: ManagedView| (e.id, e.state)));
            }
            i = i + 1;
        }
        assert(self@.extensions.take(i as int) =~= self@.extensions);
        out
    }

    /// Activation through the shared host interface, which cannot change
    /// the host: always refused, pointing to `activate_extension`.
    pub fn activate(&self, extension_id: &str, reason: ActivationEvent) -> (r: Result<(), ExtensionError>)
        ensures
            r matches Err(e) && e.extension_id@ == extension_id@ && e.message@
                == "Use SuperExtensionHost::activate for mutable access"@,
    {
        Err(
            ExtensionError {
                extension_id: to_owned_string(extension_id),
                message: to_owned_string("Use SuperExtensionHost::activate for mutable access"),
            },
        )
    }

    /// Deactivation, which the host does not offer: always refused.
    pub fn deactivate(&self, extension_id: &str) -> (r: Result<(), ExtensionError>)
        ensures
            r matches Err(e) && e.extension_id@ == extension_id@ && e.message@ == "Not implemented"@,
    {
        Err(
            ExtensionError {
                extension_id: to_owned_string(extension_id),
                message: to_owned_string("Not implemented"),
            },
        )
    }

    /// Where the WebAssembly module of extension `id` lives: its path joined to
    /// the extension's root. `None` for an unknown extension or one without a
    /// module.
    pub fn get_wasm_path(&self, extension_id: &str) -> (r: Option<String>)
        ensures
            match r {
                Some(p) => has_ext(self@.extensions, extension_id@) && ({
                    let e = self@.extensions[ext_index(self@.extensions, extension_id@)];
                    e.wasm is Some && p@ == join_path_spec(e.root, e.wasm->0)
                }),
                None => !has_ext(self@.extensions, extension_id@) || self@.extensions[ext_index(
                    self@.extensions,
                    extension_id@,
                )].wasm is None,
            },
    {
        let key = to_owned_string(extension_id);
        match self.extensions.find(&key) {
            None => None,
            Some(k) => {
                let e = &self.extensions.entries[k];
                match &e.manifest.wasm {
                    Some(w) => Some(join_path(e.root.as_str(), w.path.as_str())),
                    None => None,
                }
            },
        }
    }
}

/// Is `event` among `events`?
fn contains_event(events: &Vec<ActivationEvent>, event: &ActivationEvent) -> (b: bool)
    ensures
        b == events_view(events@).contains(event@),
{
    let mut i: usize = 0;
    while i < events.len()
        invariant
            i <= events@.len(),
            forall|j: int| 0 <= j < i ==> events@[j]@ != event@,
        decreases events.len() - i,
    {
        if events[i].equals(event) {
            assert(events_view(events@)[i as int] == event@);
            return true;
        }
        i = i + 1;
    }
    proof {
        if events_view(events@).contains(event@) {
            let j = choose|j: int| 0 <= j < events_view(events@).len() && events_view(events@)[j] == event@;
            assert(events@[j]@ == event@);
        }
    }
    false
}

/// Activation changes neither the ids nor the events of the catalog.
proof fn lemma_activate_keeps_ids(h: HostView, id: Seq<char>)
    ensures
        activate_spec(h, id).extensions.map_values(|e: ManagedView| e.id)
            == h.extensions.map_values(|e: ManagedView| e.id),
        activate_spec(h, id).extensions.map_values(|e: ManagedView| e.events)
            == h.extensions.map_values(|e: ManagedView| e.events),
{
    assert(activate_spec(h, id).extensions.map_values(|e: ManagedView| e.id)
        =~= h.extensions.map_values(|e: ManagedView| e.id));
    assert(activate_spec(h, id).extensions.map_values(|e: ManagedView| e.events)
        =~= h.extensions.map_values(|e: ManagedView| e.events));
}

/// Activating an extension a second time changes nothing.
pub proof fn lemma_activate_idempotent(h: HostView, id: Seq<char>)
    requires
        ext_ids_unique(h.extensions),
    ensures
        activate_spec(activate_spec(h, id), id) == activate_spec(h, id),
{
    if has_ext(h.extensions, id) {
        let k = ext_index(h.extensions, id);
        let h1 = activate_spec(h, id);
        assert(h1.extensions[k].id == id);
        assert(has_ext(h1.extensions, id));
        let k1 = ext_index(h1.extensions, id);
        assert(h1.extensions[k1].id == id);
        assert(h.extensions[k1].id == id);
        assert(k1 == k);
    }
}

/// Activating a known extension makes each command it contributes findable
/// in the registry.
pub proof fn lemma_activated_commands_found(h: HostView, id: Seq<char>, i: int)
    requires
        has_ext(h.extensions, id),
        h.extensions[ext_index(h.extensions, id)].state != ExtensionState::Activated,
        0 <= i < h.extensions[ext_index(h.extensions, id)].contributions.len(),
        h.extensions[ext_index(h.extensions, id)].contributions[i] is Command,
    ensures
        has_id(
            activate_spec(h, id).registry.commands,
            h.extensions[ext_index(h.extensions, id)].contributions[i]->Command_id,
        ),
{
    let e = h.extensions[ext_index(h.extensions, id)];
    lemma_registered_commands_found(h.registry, id, e.contributions, i);
}

/// Filtering one more element of a prefix.
proof fn lemma_filter_take_step(s: Seq<ManagedView>, pred: spec_fn(ManagedView) -> bool, i: int)
    requires
        0 <= i < s.len(),
    ensures
        s.take(i + 1).filter(pred) == if pred(s[i]) {
            s.take(i).filter(pred).push(s[i])
        } else {
            s.take(i).filter(pred)
        },
{
    reveal(Seq::filter);
    assert(s.take(i + 1).drop_last() =~= s.take(i));
}

} // verus!
