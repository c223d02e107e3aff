//! Extension manifests, the contribution registry and the extension host.

pub mod contribution_registry;
pub mod discovery;
pub mod extension_host;
pub mod manifest;
