//! Shared vocabulary of the IDE: agents, events, extensions and AI providers.

pub mod agent;
pub mod event;
pub mod extension;
pub mod provider;
