//! Core logic of the SUPER IDE: agent tools, skills, extensions, events and
//! chat-content handling, with contracts proved by Verus.

pub mod seq_facts;
pub mod string_map;
pub mod text;
pub mod sdk;
pub mod extension_host;
pub mod agent;
pub mod chat_view;
pub mod ai;
pub mod mcp;
pub mod services;
pub mod config;
