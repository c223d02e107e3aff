//! Agent requests, steps and actions.

use vstd::prelude::*;
use crate::sdk::provider::ProviderId;

verus! {

/// The kind of work an agent is asked to do.
#[derive(Debug, Clone, Copy, PartialEq, Eq, Structural)]
pub enum AgentMode {
    Chat,
    Plan,
    Edit,
    Review,
    Debug,
    Research,
}

/// Which engine drives an agent.
#[derive(Debug, Clone, PartialEq, Eq)]
pub enum AgentBackendKind {
    Native,
    ClaudeCode,
    Codex,
    OpenCode,
    Blackbox,
    Custom(String),
}

/// What an agent knows about the editor when it starts.
#[derive(Debug, Clone, PartialEq, Eq)]
pub struct AgentContext {
    pub workspace_root: Option<String>,
    pub active_file: Option<String>,
    pub selected_text: Option<String>,
    pub provider_id: Option<ProviderId>,
    pub mode: AgentMode,
}

/// A prompt together with its context.
#[derive(Debug, Clone, PartialEq, Eq)]
pub struct AgentRequest {
    pub prompt: String,
    pub context: AgentContext,
}

/// One action an agent takes.
#[derive(Debug, Clone, PartialEq, Eq)]
pub enum AgentAction {
    Think { summary: String },
    ReadFile { path: String },
    WriteFile { path: String },
    RunTerminal { command: String },
    SearchWorkspace { query: String },
    AskUser { prompt: String },
    Done { summary: String },
}

/// An action, and whether the user sees it.
#[derive(Debug, Clone, PartialEq, Eq)]
pub struct AgentStep {
    pub action: AgentAction,
    pub visible_to_user: bool,
}

/// An error raised by an agent.
#[derive(Debug, Clone, PartialEq, Eq)]
pub struct AgentError {
    pub agent_id: String,
    pub message: String,
}

} // verus!
