//! The editor's services: the event bus, workspaces, themes, the agent and
//! extensions.

pub mod agent_service;
pub mod event_bus;
pub mod extension_service;
pub mod state_store;
pub mod theme_service;
pub mod workspace_service;
