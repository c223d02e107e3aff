use std::sync::Arc;

use superide::agent::agent_loop::{AgentLoop, NativeAgentBackend};
use superide::agent::context_manager::{ContextManager, WorkspaceContext};
use superide::agent::tool_registry::ToolRegistry;
use superide::sdk::agent::{AgentAction, AgentBackendKind, AgentMode};

#[test]
fn run_reports_request_and_context() {
    let agent = AgentLoop::new(AgentMode::Chat, Some("/ws".to_string()));
    assert_eq!(agent.max_steps, 25);
    let steps = agent.run("fix it", Some("/ws/src/a.rs".to_string()), None, vec!["/ws/src/a.rs".to_string()]);
    assert_eq!(steps.len(), 1);
    assert!(steps[0].visible_to_user);
    match &steps[0].action {
        AgentAction::Think { summary } => assert_eq!(
            summary,
            "Received request: fix it\n\nContext:\nWorkspace root: /ws\n\nActive file: /ws/src/a.rs\n\nFiles in workspace (showing 1 of 1):\nsrc/a.rs"
        ),
        other => panic!("Expected Think, got {:?}", other),
    }
}

#[test]
fn context_prompt_lists_at_most_thirty_files() {
    let cm = ContextManager::new(Some("/r".to_string()));
    let files: Vec<String> = (0..35).map(|i| format!("/r/f{}", i)).collect();
    let ctx = cm.build_context(AgentMode::Edit, None, Some("x".to_string()), files);
    let prompt = cm.format_context_prompt(&ctx);
    assert!(prompt.starts_with("Workspace root: /r\n\nSelected text:\n```\nx\n```\n\nFiles in workspace (showing 30 of 35):\nf0\nf1\n"));
    assert!(prompt.ends_with("\nf29"));
}

#[test]
fn context_without_root_has_no_files() {
    let cm = ContextManager::new(None);
    let ctx: WorkspaceContext = cm.build_context(AgentMode::Chat, None, None, vec!["/x".to_string()]);
    assert!(ctx.files_in_workspace.is_empty());
    assert_eq!(cm.format_context_prompt(&ctx), "");
    let ac = cm.to_agent_context(&ctx, AgentMode::Review);
    assert_eq!(ac.mode, AgentMode::Review);
    assert!(ac.provider_id.is_none());
}

#[test]
fn native_backend_resolves_actions() {
    let backend = NativeAgentBackend::new(Arc::new(ToolRegistry::new()));
    assert_eq!(backend.id(), "super-native");
    assert_eq!(backend.kind(), AgentBackendKind::Native);
    let call = backend.resolve_tool(&AgentAction::SearchWorkspace { query: "todo".to_string() }).unwrap();
    assert_eq!(call.tool, "search_workspace");
    assert_eq!(call.args.get("pattern"), Some(&"todo".to_string()));
    assert!(backend.resolve_tool(&AgentAction::Done { summary: String::new() }).is_none());
    let err = backend.next_step().unwrap_err();
    assert_eq!(err.message, "Not yet implemented: agent planning loop");
}
