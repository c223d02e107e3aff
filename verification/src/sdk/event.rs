//! Events published on the IDE's event bus.

use vstd::prelude::*;

verus! {

/// Where an AI request came from.
#[derive(Debug, Clone, Copy, PartialEq, Eq, Structural)]
pub enum AiSurface {
    Chat,
    Agent,
    InlineCompletion,
    ModelPicker,
}

/// An event of the IDE.
#[derive(Debug, Clone, PartialEq, Eq)]
pub enum SuperEvent {
    WorkspaceOpened { root: String },
    WorkspaceClosed { root: String },
    FileOpened { path: String },
    FileSaved { path: String },
    CommandInvoked { command: String },
    SearchRequested { query: String },
    TerminalStarted { terminal_id: String },
    GitStatusChanged { workspace: String },
    AiRequested { surface: AiSurface },
    ProviderReady { provider_id: String },
    ProviderFailed { provider_id: String, message: String },
    AgentStarted { agent_id: String },
    AgentFinished { agent_id: String },
    ExtensionActivated { extension_id: String },
    Custom { topic: String, payload: String },
}

} // verus!
