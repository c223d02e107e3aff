use superide::services::state_store::{SettingsService, StateStore};
use superide::services::agent_service::AgentService;
use superide::services::extension_service::ExtensionService;
use superide::services::theme_service::ThemeService;
use superide::services::workspace_service::{paths_equal, WorkspaceService};
use superide::agent::tool_registry::{ToolOutcome, ToolResult};
use superide::sdk::agent::AgentMode;
use superide::string_map::StringMap;

#[test]
fn theme_starts_dark_and_changes() {
    let mut t = ThemeService::new();
    assert_eq!(t.current(), "SUPER Orange Dark");
    t.set_theme("Light");
    assert_eq!(t.current(), "Light");
}

#[test]
fn opening_moves_to_front_without_repeats() {
    let mut ws = WorkspaceService::new();
    ws.open("/a".to_string());
    ws.open("/b".to_string());
    ws.open("/a/".to_string());
    assert_eq!(ws.recent(), vec!["/a/".to_string(), "/b".to_string()]);
    let cur = ws.current().unwrap();
    assert_eq!(cur.root, "/a/");
    assert_eq!(cur.name, "a");
    ws.close();
    assert!(ws.current().is_none());
    assert_eq!(ws.recent().len(), 2);
}

#[test]
fn recent_list_keeps_twenty() {
    let mut ws = WorkspaceService::new();
    for i in 0..25 {
        ws.open(format!("/w{}", i));
    }
    let recent = ws.recent();
    assert_eq!(recent.len(), 20);
    assert_eq!(recent[0], "/w24");
    assert_eq!(recent[19], "/w5");
}

#[test]
fn path_equality_is_by_components() {
    assert!(paths_equal("/a/b", "/a//b/"));
    assert!(paths_equal("a/./b", "a/b"));
    assert!(!paths_equal("./a", "a"));
    assert!(!paths_equal("/a", "a"));
    assert!(!paths_equal("/a/b", "/a/c"));
}

#[test]
fn workspace_name_is_last_component() {
    let mut ws = WorkspaceService::new();
    ws.open("/".to_string());
    assert_eq!(ws.current().unwrap().name, "");
}

#[test]
fn agent_service_before_and_after_init() {
    let mut svc = AgentService::new();
    assert!(!svc.is_initialized());
    assert!(svc.tool_specs().is_empty());
    match svc.execute_tool("read_file", &StringMap::new(), false) {
        ToolOutcome::Finished(ToolResult::Error { message }) => {
            assert_eq!(message, "Agent service not initialized")
        }
        other => panic!("Expected Error, got {:?}", other),
    }
    svc.set_mode(AgentMode::Plan);
    svc.initialize(Some("/ws".to_string()));
    assert!(svc.is_initialized());
    let names: Vec<String> = svc.tool_specs().into_iter().map(|s| s.name).collect();
    assert_eq!(
        names,
        vec!["read_file", "write_file", "edit_file", "web_search", "run_terminal", "search_workspace"]
    );
    match svc.execute_tool("read_file", &StringMap::new(), false) {
        ToolOutcome::Finished(ToolResult::Error { message }) => assert_eq!(message, "Missing 'path' argument"),
        other => panic!("Expected Error, got {:?}", other),
    }
}

#[test]
fn agent_service_without_workspace_has_no_search() {
    let mut svc = AgentService::new();
    svc.initialize(None);
    assert_eq!(svc.tool_specs().len(), 5);
}

#[test]
fn extension_service_lists_nothing_at_first() {
    let svc = ExtensionService::new(vec!["/exts".to_string()]);
    assert!(svc.list_extensions().is_empty());
    assert!(svc.wasm_path("x").is_none());
    assert!(svc.contributions().commands().is_empty());
}

#[test]
fn state_store_keeps_values_by_key() {
    let mut store = StateStore::default();
    assert!(store.get("a").is_none());
    store.set("flag", serde_json::Value::Bool(true));
    store.set("name", serde_json::Value::String("super".to_string()));
    assert_eq!(store.get_bool("flag"), Some(true));
    assert_eq!(store.get_string("name"), Some("super".to_string()));
    assert_eq!(store.get_bool("name"), None);
    assert_eq!(store.get_string("flag"), None);
    store.set("flag", serde_json::Value::Bool(false));
    assert_eq!(store.get("flag"), Some(serde_json::Value::Bool(false)));
    store.remove("flag");
    assert!(store.get("flag").is_none());
    assert_eq!(store.get_string("name"), Some("super".to_string()));
    store.remove("missing");
    store.clear();
    assert!(store.get("name").is_none());
}

#[test]
fn settings_replace_values() {
    let mut settings = SettingsService::new();
    settings.set("editor.fontSize", serde_json::Value::from(14));
    settings.set("editor.fontSize", serde_json::Value::from(16));
    assert_eq!(settings.get("editor.fontSize"), Some(serde_json::Value::from(16)));
    assert!(settings.get("other").is_none());
}
