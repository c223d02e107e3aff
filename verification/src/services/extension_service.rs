//! The editor's handle on the extension host.

use vstd::prelude::*;
use crate::extension_host::contribution_registry::ContributionRegistry;
use crate::extension_host::discovery::DiscoveredExtension;
use crate::extension_host::extension_host::{
    ExtensionState, HostView, ManagedView, SuperExtensionHost, activate_for_event_spec,
    activate_spec, discovered_view, ext_ids_unique, ext_index, has_ext, listeners, refresh_spec,
};
use crate::text::join_path_spec;
use crate::sdk::extension::ActivationEvent;

verus! {

/// Finds, activates and lists the editor's extensions.
pub struct ExtensionService {
    host: SuperExtensionHost,
}

impl ExtensionService {
    /// The host's state.
    pub closed spec fn host_view(&self) -> HostView {
        self.host@
    }

    /// The directories searched for extensions.
    pub closed spec fn search_dirs_view(&self) -> Seq<Seq<char>> {
        self.host.search_dirs_spec()
    }

    /// A service with no extensions that searches `search_dirs`.
    pub fn new(search_dirs: Vec<String>) -> (r: Self)
        ensures
            r.host_view().extensions == Seq::<ManagedView>::empty(),
            r.host_view().registry == ContributionRegistry::empty_view(),
            r.search_dirs_view() == search_dirs@.map_values(|s: String| s@),
    {
        ExtensionService { host: SuperExtensionHost::new(search_dirs) }
    }

    /// Takes in the extensions a scan of the search directories found, and
    /// returns their ids in the order found.
    pub fn refresh(&mut self, discovered: Vec<DiscoveredExtension>) -> (r: Vec<String>)
        ensures
            final(self).host_view().extensions == refresh_spec(
                old(self).host_view().extensions,
                discovered@.map_values(|d: DiscoveredExtension| discovered_view(d)),
            ),
            final(self).host_view().registry == old(self).host_view().registry,
            final(self).search_dirs_view() == old(self).search_dirs_view(),
            r@.map_values(|s: String| s@) == discovered@.map_values(
                |d: DiscoveredExtension| d.manifest.id@,
            ),
    {
        self.host.refresh(discovered)
    }

    /// Activates extension `id`; an unknown id changes nothing.
    pub fn activate(&mut self, id: &str)
        ensures
            final(self).host_view() == activate_spec(old(self).host_view(), id@),
            final(self).search_dirs_view() == old(self).search_dirs_view(),
    {
        let _ = self.host.activate_extension(id);
    }

    /// Activates every extension that listens to `event` and returns their
    /// ids.
    pub fn activate_for_event(&mut self, event: ActivationEvent) -> (r: Vec<String>)
        ensures
            final(self).host_view() == activate_for_event_spec(
                old(self).host_view(),
                event@,
                old(self).host_view().extensions.len(),
            ),
            r@.map_values(|s: String| s@) == listeners(old(self).host_view().extensions, event@),
            final(self).search_dirs_view() == old(self).search_dirs_view(),
    {
        self.host.activate_for_event(&event)
    }

    /// A snapshot of what activated extensions contribute.
    pub fn contributions(&self) -> (r: ContributionRegistry)
        ensures
            r@ == self.host_view().registry,
    {
        self.host.contribution_registry().clone()
    }

    /// The path of extension `id`'s WebAssembly module, if it has one.
    pub fn wasm_path(&self, id: &str) -> (r: Option<String>)
        ensures
            match r {
                Some(p) => has_ext(self.host_view().extensions, id@) && ({
                    let e = self.host_view().extensions[ext_index(self.host_view().extensions, id@)];
                    e.wasm is Some && p@ == join_path_spec(e.root, e.wasm->0)
                }),
                None => !has_ext(self.host_view().extensions, id@) || self.host_view().extensions[ext_index(
                    self.host_view().extensions,
                    id@,
                )].wasm is None,
            },
    {
        self.host.get_wasm_path(id)
    }

    /// Every known extension with its state, in discovery order.
    pub fn list_extensions(&self) -> (r: Vec<(String, ExtensionState)>)
        ensures
            r@.map_values(|p: (String, ExtensionState)| (p.0@, p.1)) == self.host_view().extensions.map_values(
                |e: ManagedView| (e.id, e.state),
            ),
            ext_ids_unique(self.host_view().extensions),
    {
        self.host.list_extensions()
    }
}

} // verus!
