use superide::extension_host::contribution_registry::ContributionRegistry;
use superide::extension_host::discovery::{workspace_extension_dirs, DiscoveredExtension};
use superide::extension_host::extension_host::{ExtensionState, SuperExtensionHost};
use superide::extension_host::manifest::{
    parse_activation_event, ManifestCommand, ManifestContributions, SuperExtensionManifest,
    WasmConfig,
};
use superide::sdk::extension::{ActivationEvent, Contribution};

fn manifest(id: &str, events: &[&str], wasm: Option<&str>) -> SuperExtensionManifest {
    SuperExtensionManifest {
        id: id.to_string(),
        name: id.to_string(),
        version: "1.0.0".to_string(),
        description: String::new(),
        author: String::new(),
        wasm: wasm.map(|p| WasmConfig { path: p.to_string(), args: vec![] }),
        activation_events: events.iter().map(|s| s.to_string()).collect(),
        contributes: ManifestContributions {
            commands: vec![ManifestCommand {
                id: format!("{}.hello", id),
                title: format!("{} Hello", id),
                shortcut: None,
            }],
            themes: vec![],
            icon_themes: vec![],
            views: vec![],
            settings: vec![],
            providers: vec![],
            agents: vec![],
        },
    }
}

fn discovered(id: &str, events: &[&str], wasm: Option<&str>) -> DiscoveredExtension {
    DiscoveredExtension {
        manifest: manifest(id, events, wasm),
        root: format!("/exts/{}", id),
        manifest_path: format!("/exts/{}/super-extension.json", id),
    }
}

#[test]
fn test_parse_activation_events() {
    assert_eq!(parse_activation_event("onStartupFinished"), Some(ActivationEvent::OnStartupFinished));
    assert_eq!(parse_activation_event("onAiRequested"), Some(ActivationEvent::OnAiRequested));
    assert_eq!(parse_activation_event("onLanguage:rust"), Some(ActivationEvent::OnLanguage("rust".to_string())));
    assert_eq!(
        parse_activation_event("onCommand:editor.format"),
        Some(ActivationEvent::OnCommand("editor.format".to_string()))
    );
    assert_eq!(parse_activation_event("onView:explorer"), Some(ActivationEvent::OnView("explorer".to_string())));
    assert_eq!(
        parse_activation_event("workspaceContains:Cargo.toml"),
        Some(ActivationEvent::WorkspaceContains("Cargo.toml".to_string()))
    );
    assert_eq!(parse_activation_event("unknownEvent"), None);
}

#[test]
fn test_discover_and_activate() {
    let mut host = SuperExtensionHost::new(vec!["/exts".to_string()]);
    let ids = host.refresh(vec![
        discovered("ext-a", &["onStartupFinished"], None),
        discovered("ext-b", &["onLanguage:rust"], None),
    ]);
    assert_eq!(ids.len(), 2);
    assert!(ids.contains(&"ext-a".to_string()));
    assert!(ids.contains(&"ext-b".to_string()));

    host.activate_extension("ext-a").unwrap();
    let state = host.list_extensions().into_iter().find(|(id, _)| id == "ext-a").unwrap().1;
    assert_eq!(state, ExtensionState::Activated);

    let cmd = host.contribution_registry().find_command("ext-a.hello");
    assert!(cmd.is_some());
    assert_eq!(cmd.unwrap().extension_id, "ext-a");
}

#[test]
fn test_activate_by_event() {
    let mut host = SuperExtensionHost::new(vec!["/exts".to_string()]);
    host.refresh(vec![
        discovered("ext-a", &["onStartupFinished"], None),
        discovered("ext-b", &["onLanguage:rust"], None),
    ]);

    let activated = host.activate_for_event(&ActivationEvent::OnStartupFinished);
    assert_eq!(activated, vec!["ext-a"]);

    let activated = host.activate_for_event(&ActivationEvent::OnLanguage("rust".to_string()));
    assert_eq!(activated, vec!["ext-b"]);
}

#[test]
fn manifest_converts_to_sdk_form() {
    let m = manifest("test-ext", &["onStartupFinished", "bogus"], None);
    let sdk = m.to_sdk();
    assert_eq!(sdk.id, "test-ext");
    assert_eq!(sdk.activation_events, vec![ActivationEvent::OnStartupFinished]);
    assert_eq!(sdk.contributions.len(), 1);
    assert_eq!(
        sdk.contributions[0],
        Contribution::Command { id: "test-ext.hello".to_string(), title: "test-ext Hello".to_string() }
    );
}

#[test]
fn discover_then_activate() {
    let mut host = SuperExtensionHost::new(vec!["/exts".to_string()]);
    let found = host.refresh(vec![
        discovered("ext-a", &["onStartupFinished"], None),
        discovered("ext-b", &["onLanguage:rust"], Some("main.wasm")),
    ]);
    assert_eq!(found, vec!["ext-a".to_string(), "ext-b".to_string()]);
    assert!(host.contribution_registry().find_command("ext-a.hello").is_none());
    assert!(host.activate_extension("ext-a").is_ok());
    assert!(host.contribution_registry().find_command("ext-a.hello").is_some());
    let list = host.list_extensions();
    assert_eq!(list[0], ("ext-a".to_string(), ExtensionState::Activated));
    assert_eq!(list[1], ("ext-b".to_string(), ExtensionState::Discovered));
    let err = host.activate_extension("nope").unwrap_err();
    assert_eq!(err.message, "Extension not found");
}

#[test]
fn activation_by_event_picks_listeners() {
    let mut host = SuperExtensionHost::new(vec![]);
    host.refresh(vec![
        discovered("ext-a", &["onStartupFinished"], None),
        discovered("ext-b", &["onLanguage:rust"], None),
    ]);
    let activated = host.activate_for_event(&ActivationEvent::OnLanguage("rust".to_string()));
    assert_eq!(activated, vec!["ext-b".to_string()]);
    assert!(host.contribution_registry().find_command("ext-b.hello").is_some());
    assert!(host.contribution_registry().find_command("ext-a.hello").is_none());
}

#[test]
fn activating_twice_keeps_one_command() {
    let mut host = SuperExtensionHost::new(vec![]);
    host.refresh(vec![discovered("ext-a", &["onStartupFinished"], None)]);
    host.activate_extension("ext-a").unwrap();
    host.activate_extension("ext-a").unwrap();
    assert_eq!(host.contribution_registry().commands().len(), 1);
}

#[test]
fn wasm_path_is_under_the_root() {
    let mut host = SuperExtensionHost::new(vec![]);
    host.refresh(vec![
        discovered("ext-a", &[], None),
        discovered("ext-b", &[], Some("main.wasm")),
    ]);
    assert_eq!(host.get_wasm_path("ext-b"), Some("/exts/ext-b/main.wasm".to_string()));
    assert_eq!(host.get_wasm_path("ext-a"), None);
    assert_eq!(host.get_wasm_path("ext-c"), None);
}

#[test]
fn workspace_dirs_in_order() {
    let dirs = workspace_extension_dirs("/ws", Some("/home/u"));
    assert_eq!(
        dirs,
        vec![
            "/ws/.super-ide/extensions".to_string(),
            "/home/u/.super-ide/extensions".to_string(),
            "/home/u/.config/super-ide/extensions".to_string(),
            "/home/u/.local/share/super-ide/extensions".to_string(),
        ]
    );
    assert_eq!(workspace_extension_dirs("/ws", None), vec!["/ws/.super-ide/extensions".to_string()]);
}

#[test]
fn shared_interface_refuses_changes() {
    let host = SuperExtensionHost::new(vec![]);
    let e = host.activate("x", ActivationEvent::OnAiRequested).unwrap_err();
    assert_eq!(e.message, "Use SuperExtensionHost::activate for mutable access");
    assert_eq!(host.deactivate("x").unwrap_err().message, "Not implemented");
}

#[test]
fn contributions_are_recorded_per_kind() {
    let mut reg = ContributionRegistry::new();
    reg.register_extension("ext-a", &[
        Contribution::Command { id: "a.run".to_string(), title: "Run".to_string() },
        Contribution::Theme { id: "dark".to_string(), path: "themes/dark.json".to_string() },
        Contribution::Command { id: "a.run".to_string(), title: "Run again".to_string() },
        Contribution::Provider { id: "p1".to_string() },
        Contribution::SettingsSchema { path: "schema.json".to_string() },
        Contribution::Agent { id: "helper".to_string() },
        Contribution::Theme { id: "light".to_string(), path: "themes/light.json".to_string() },
    ]);
    let cmd = reg.find_command("a.run").unwrap();
    assert_eq!(cmd.title, "Run again");
    assert_eq!(cmd.extension_id, "ext-a");
    assert_eq!(reg.commands().len(), 1);
    let themes: Vec<&str> = reg.themes().iter().map(|t| t.id.as_str()).collect();
    assert_eq!(themes, vec!["dark", "light"]);
    assert_eq!(reg.themes()[1].extension_id, "ext-a");
    assert_eq!(reg.providers(), &["p1".to_string()]);
    assert_eq!(reg.agents(), &["helper".to_string()]);
    assert!(reg.views().is_empty());
    assert!(reg.icon_themes().is_empty());

    reg.register_extension("ext-b", &[
        Contribution::Command { id: "a.run".to_string(), title: "Taken over".to_string() },
        Contribution::Command { id: "b.other".to_string(), title: "Other".to_string() },
    ]);
    assert_eq!(reg.find_command("a.run").unwrap().extension_id, "ext-b");
    assert_eq!(reg.find_command("b.other").unwrap().title, "Other");
    assert_eq!(reg.themes().len(), 2);
}
