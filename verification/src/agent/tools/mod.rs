//! The built-in tools: files, workspace search, terminal and web search.

pub mod file_tools;
pub mod pattern;
pub mod terminal_tools;
pub mod web_search;
