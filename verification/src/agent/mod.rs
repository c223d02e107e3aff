//! The agent: its loop, context, skills, tool registry and built-in tools.

pub mod agent_loop;
pub mod context_manager;
pub mod skills;
pub mod tool_registry;
pub mod tools;
