use superide::chat_view::{hex_color, mode_accent, step_color};
use superide::sdk::agent::AgentMode;
use superide::chat_view::{
    default_providers, parse_content, shell_escape, split_code_blocks, step_icon, AgentStepLog,
    ChatLog, ContentPart, StepStatus,
};
use superide::chat_view::{
    bubble_color, config_model, default_provider_configs, input_key, loading_label, mode_icon,
    role_color, role_label, run_moves, RunMove,
};
use superide::chat_view::{
    agent_plan, is_blank, mode_name, step_tool, step_tool_args, submit_request, ChatPanel,
};
use superide::sdk::provider::{ChatMessage, ChatResponse, ProviderError, ProviderId};

fn text(s: &str) -> ContentPart {
    ContentPart::Text(s.to_string())
}

fn code(language: &str, c: &str) -> ContentPart {
    ContentPart::Code { language: language.to_string(), code: c.to_string() }
}

#[test]
fn split_text_and_code() {
    let parts = split_code_blocks("Intro\n```rust\nfn main() {}\n```\nOutro");
    assert_eq!(parts, vec![text("Intro\n"), code("rust", "fn main() {}\n"), text("\nOutro")]);
}

#[test]
fn split_code_without_language() {
    assert_eq!(split_code_blocks("```x = 1```"), vec![code("", "x = 1")]);
    assert_eq!(split_code_blocks("```  py \nprint()```"), vec![code("py", "print()")]);
}

#[test]
fn split_plain_text() {
    assert_eq!(split_code_blocks("just text"), vec![text("just text")]);
    assert!(split_code_blocks("").is_empty());
}

#[test]
fn parse_splits_paragraphs() {
    let parts = parse_content("First para.\n\n  Second  \n\n\n```sh\nls\n```");
    assert_eq!(
        parts,
        vec![text("First para."), text("\n"), text("Second"), code("sh", "ls\n")]
    );
}

#[test]
fn parse_drops_blank_first_paragraph() {
    assert_eq!(parse_content("\n\nHello"), vec![text("\n"), text("Hello")]);
}

#[test]
fn part_ids() {
    assert_eq!(text("héllo").id(), "text_6");
    assert_eq!(code("rust", "fn f() {}").id(), "code_rust_9");
}

#[test]
fn icons_for_steps() {
    assert_eq!(step_icon("think"), "\u{25cf}");
    assert_eq!(step_icon("done"), "\u{2713}");
    assert_eq!(step_icon("error"), "\u{2717}");
    assert_eq!(step_icon("other"), "\u{b7}");
}

#[test]
fn builtin_providers() {
    let ps = default_providers();
    assert_eq!(ps.len(), 7);
    assert_eq!(ps[0].id, "openai");
    assert_eq!(ps[3].display_name, "Ollama (Local)");
    assert!(ps.iter().all(|p| !p.is_custom));
}

#[test]
fn shell_quotes_are_escaped() {
    assert_eq!(shell_escape("it's"), "it'\\''s");
    assert_eq!(shell_escape("plain"), "plain");
}

#[test]
fn steps_are_numbered_and_updated() {
    let mut log = AgentStepLog::new();
    let a = log.add_step("read", "reading");
    let b = log.add_step("write", "writing");
    assert_eq!((a, b), (1, 2));
    log.update_step(b, StepStatus::Done, "written".to_string());
    assert_eq!(log.steps()[1].status, StepStatus::Done);
    assert_eq!(log.steps()[1].description, "written");
    assert_eq!(log.steps()[0].status, StepStatus::Running);
    log.update_step(99, StepStatus::Error, "x".to_string());
    assert_eq!(log.steps()[0].description, "reading");
    log.clear_steps();
    assert!(log.steps().is_empty());
    assert_eq!(log.add_step("run", "again"), 3);
}

#[test]
fn messages_are_numbered() {
    let mut chat = ChatLog::new();
    chat.add_message("user", "hi", false, "10:00:00".to_string());
    chat.add_message("assistant", "hello", true, "10:00:01".to_string());
    assert_eq!(chat.messages().len(), 2);
    assert_eq!(chat.messages()[0].id, 1);
    assert_eq!(chat.messages()[1].id, 2);
    assert!(chat.messages()[1].agent_mode);
}

#[test]
fn colors_from_hex_and_modes() {
    assert_eq!(hex_color(0x123456), (0x12, 0x34, 0x56, 0xFF));
    assert_eq!(mode_accent(&AgentMode::Debug), (0xEF, 0x44, 0x44, 0xFF));
    assert_eq!(mode_accent(&AgentMode::Plan), hex_color(0xF97316));
    assert_eq!(mode_accent(&AgentMode::Research), hex_color(0xA855F7));
    assert_eq!(mode_accent(&AgentMode::Edit), hex_color(0x22C55E));
    assert_eq!(mode_accent(&AgentMode::Review), hex_color(0x3B82F6));
    assert_eq!(step_color("search"), (0x3B, 0x82, 0xF6, 0xFF));
    assert_eq!(step_color("unknown"), (0xA1, 0xA1, 0xAA, 0xFF));
}

fn panel_with(input: &str, mode: AgentMode) -> ChatPanel {
    let mut p = ChatPanel::new();
    p.input = input.to_string();
    p.mode = mode;
    p
}

#[test]
fn new_panel_defaults() {
    let p = ChatPanel::new();
    assert_eq!(p.mode, AgentMode::Chat);
    assert_eq!(p.active_provider, "openai");
    assert_eq!(p.active_model, "gpt-4o");
    assert!(p.messages.messages().is_empty());
    assert!(!p.is_loading && !p.agent_running);
}

#[test]
fn blank_input_is_not_submitted() {
    assert!(is_blank(" \t\n"));
    assert!(!is_blank(" x "));
    let mut p = panel_with("   \n", AgentMode::Chat);
    assert!(submit_request(&p).is_none());
    assert!(p.submit("10:00:00".to_string()).is_none());
    assert!(p.messages.messages().is_empty());
    assert!(!p.is_loading);
    assert_eq!(p.input, "   \n");
}

#[test]
fn chat_submission_sends_history_and_message() {
    let mut p = panel_with("first", AgentMode::Chat);
    p.submit("10:00:00".to_string()).unwrap();
    p.apply_reply("openai", false, Ok(ChatResponse {
        message: ChatMessage { role: "assistant".to_string(), content: "hello".to_string() },
        usage: None,
    }), "10:00:01".to_string());
    p.input = "second".to_string();
    let req = p.submit("10:00:02".to_string()).unwrap();
    assert_eq!(req.model, "gpt-4o");
    assert!(!req.tools_enabled);
    let pairs: Vec<(String, String)> = req.messages.iter().map(|m| (m.role.clone(), m.content.clone())).collect();
    assert_eq!(pairs, vec![
        ("user".to_string(), "first".to_string()),
        ("assistant".to_string(), "hello".to_string()),
        ("user".to_string(), "second".to_string()),
    ]);
    let msgs = p.messages.messages();
    assert_eq!(msgs.len(), 3);
    assert_eq!(msgs[2].content, "second");
    assert_eq!(msgs[2].timestamp, "10:00:02");
    assert!(!msgs[2].agent_mode);
    assert_eq!(p.input, "");
    assert!(p.is_loading);
    assert!(!p.agent_running);
}

#[test]
fn agent_submission_starts_a_run() {
    let mut p = panel_with("fix it", AgentMode::Debug);
    p.steps.add_step("read", "old step");
    let req = p.submit("09:00:00".to_string()).unwrap();
    assert!(req.tools_enabled);
    assert!(p.agent_running);
    assert!(p.steps.steps().is_empty());
    assert!(p.messages.messages()[0].agent_mode);

    let think = p.start_analysis(AgentMode::Debug);
    assert_eq!(p.steps.steps()[0].description, "Analyzing in Debug mode");
    assert_eq!(p.steps.steps()[0].status, StepStatus::Running);
    p.finish_analysis(think, AgentMode::Debug);
    assert_eq!(p.steps.steps()[0].description, "Analysis complete \u{2014} executing Debug mode plan");
    assert_eq!(p.steps.steps()[0].status, StepStatus::Done);

    let id = p.start_step("run", "Running diagnostics");
    p.complete_step(id, "Running diagnostics");
    assert_eq!(p.steps.steps()[1].description, "Running diagnostics \u{2014} completed");
    assert_eq!(p.steps.steps()[1].step_type, "run");
}

#[test]
fn plans_per_mode() {
    let pairs = |m: AgentMode| -> Vec<(String, String)> { agent_plan(m) };
    assert_eq!(pairs(AgentMode::Edit), vec![
        ("read".to_string(), "Reading workspace files for Edit".to_string()),
        ("search".to_string(), "Searching for relevant code patterns".to_string()),
        ("write".to_string(), "Applying Edit changes".to_string()),
    ]);
    assert_eq!(pairs(AgentMode::Plan)[2], ("think".to_string(), "Formulating plan".to_string()));
    assert_eq!(pairs(AgentMode::Review).len(), 2);
    assert_eq!(pairs(AgentMode::Debug)[1], ("run".to_string(), "Running diagnostics".to_string()));
    assert_eq!(pairs(AgentMode::Research)[0], ("search".to_string(), "Searching workspace".to_string()));
    assert!(pairs(AgentMode::Chat).is_empty());
    assert_eq!(mode_name(AgentMode::Research), "Research");
}

#[test]
fn steps_map_to_tools() {
    assert_eq!(step_tool("read"), Some("read_file"));
    assert_eq!(step_tool("write"), Some("write_file"));
    assert_eq!(step_tool("run"), Some("run_terminal"));
    assert_eq!(step_tool("search"), Some("search_workspace"));
    assert_eq!(step_tool("think"), None);
    let args = step_tool_args("needle");
    assert_eq!(args.get("path"), Some(&".".to_string()));
    assert_eq!(args.get("pattern"), Some(&"needle".to_string()));
    assert_eq!(args.len(), 2);
}

fn failure(message: &str) -> Result<ChatResponse, ProviderError> {
    Err(ProviderError { provider_id: ProviderId("qwen".to_string()), message: message.to_string() })
}

#[test]
fn replies_outside_agent_runs() {
    let mut p = panel_with("hi", AgentMode::Chat);
    p.submit("08:00:00".to_string()).unwrap();
    p.apply_reply("qwen", false, failure("boom"), "08:00:01".to_string());
    let m = &p.messages.messages()[1];
    assert_eq!(m.role, "system");
    assert_eq!(m.content, "Error from qwen: boom");
    assert!(!m.agent_mode);
    assert!(!p.is_loading);
    assert!(p.steps.steps().is_empty());
    assert_eq!(p.mode, AgentMode::Chat);
}

#[test]
fn replies_end_agent_runs() {
    let mut p = panel_with("go", AgentMode::Edit);
    p.submit("08:00:00".to_string()).unwrap();
    p.apply_reply("qwen", true, Ok(ChatResponse {
        message: ChatMessage { role: "assistant".to_string(), content: "done".to_string() },
        usage: None,
    }), "08:00:05".to_string());
    assert_eq!(p.mode, AgentMode::Chat);
    assert!(!p.is_loading);
    let m = &p.messages.messages()[1];
    assert_eq!((m.role.as_str(), m.content.as_str(), m.agent_mode), ("assistant", "done", true));
    let s = &p.steps.steps()[0];
    assert_eq!((s.step_type.as_str(), s.description.as_str(), s.status), ("done", "Agent task completed", StepStatus::Done));

    let mut p = panel_with("go", AgentMode::Review);
    p.submit("08:00:00".to_string()).unwrap();
    p.apply_reply("qwen", true, failure("quota"), "08:00:05".to_string());
    let m = &p.messages.messages()[1];
    assert_eq!((m.role.as_str(), m.content.as_str(), m.agent_mode), ("system", "Error: quota", false));
    let s = &p.steps.steps()[0];
    assert_eq!((s.step_type.as_str(), s.description.as_str(), s.status), ("error", "Agent failed: quota", StepStatus::Error));
    assert_eq!(p.mode, AgentMode::Chat);
}

#[test]
fn clearing_the_chat() {
    let mut p = panel_with("hi", AgentMode::Chat);
    p.submit("08:00:00".to_string()).unwrap();
    p.clear_chat();
    assert!(p.messages.messages().is_empty());
    assert!(!p.is_loading);
    p.input = "again".to_string();
    p.submit("08:00:01".to_string()).unwrap();
    assert_eq!(p.messages.messages()[0].id, 2);
}

#[test]
fn run_moves_follow_the_mode() {
    assert_eq!(run_moves(AgentMode::Chat, true), vec![RunMove::Send { agent_mode: false }]);
    assert_eq!(run_moves(AgentMode::Debug, false), vec![
        RunMove::StartAnalysis,
        RunMove::Wait(200),
        RunMove::FinishAnalysis,
        RunMove::Send { agent_mode: false },
    ]);
    let moves = run_moves(AgentMode::Plan, true);
    assert_eq!(moves, vec![
        RunMove::StartAnalysis,
        RunMove::Wait(200),
        RunMove::FinishAnalysis,
        RunMove::StartStep(0),
        RunMove::Wait(150),
        RunMove::CallTool { step: 0, tool: "read_file".to_string() },
        RunMove::CompleteStep(0),
        RunMove::StartStep(1),
        RunMove::Wait(150),
        RunMove::CallTool { step: 1, tool: "search_workspace".to_string() },
        RunMove::CompleteStep(1),
        RunMove::StartStep(2),
        RunMove::Wait(150),
        RunMove::CompleteStep(2),
        RunMove::Send { agent_mode: true },
    ]);
    let debug = run_moves(AgentMode::Debug, true);
    assert_eq!(debug[9], RunMove::CallTool { step: 1, tool: "run_terminal".to_string() });
}

#[test]
fn choosing_a_provider_sets_its_model() {
    let mut p = ChatPanel::new();
    p.toggle_provider_list();
    assert!(p.show_provider_list);
    p.set_provider("qwen");
    assert_eq!(p.active_provider, "qwen");
    assert_eq!(p.active_model, "qwen-plus");
    assert!(!p.show_provider_list);
    p.set_provider("custom");
    assert_eq!(p.active_provider, "custom");
    assert_eq!(p.active_model, "qwen-plus");
    let configs = default_provider_configs();
    assert_eq!(config_model(&configs, "grok"), Some("grok-3".to_string()));
    assert_eq!(config_model(&configs, "ollama"), Some("llama3.2".to_string()));
    assert_eq!(configs[0].endpoint, "https://api.openai.com/v1");
    assert!(configs.iter().all(|c| c.api_key.is_empty()));
}

#[test]
fn panel_ui_decisions() {
    let mut p = ChatPanel::new();
    assert!(p.shows_welcome());
    assert_eq!(mode_icon(p.mode), "\u{1F4AC}");
    p.toggle_mode();
    assert_eq!(p.mode, AgentMode::Edit);
    assert_eq!(mode_icon(p.mode), "\u{1F916}");
    p.toggle_mode();
    assert_eq!(p.mode, AgentMode::Chat);
    p.input = "hi".to_string();
    p.submit("01:02:03".to_string()).unwrap();
    assert!(!p.shows_welcome());

    assert_eq!(input_key(true, false, false), Some(true));
    assert_eq!(input_key(true, false, true), Some(false));
    assert_eq!(input_key(true, true, false), None);
    assert_eq!(input_key(false, false, false), None);

    assert_eq!(role_label("user"), "You");
    assert_eq!(role_label("system"), "System");
    assert_eq!(role_label("assistant"), "Assistant");
    assert_eq!(role_color("user", false), (0xF9, 0x73, 0x16, 0xFF));
    assert_eq!(role_color("assistant", true), (0x22, 0xC5, 0x5E, 0xFF));
    assert_eq!(role_color("assistant", false), (0xA8, 0x55, 0xF7, 0xFF));
    assert_eq!(bubble_color("user", true), (0x22, 0xC5, 0x5E, 0x12));
    assert_eq!(bubble_color("system", false), (0xEF, 0x44, 0x44, 0x0D));
    assert_eq!(bubble_color("assistant", false), (0, 0, 0, 0));

    assert_eq!(loading_label(false, AgentMode::Edit), "");
    assert_eq!(loading_label(true, AgentMode::Chat), "AI is thinking...");
    assert_eq!(loading_label(true, AgentMode::Debug), "Agent is Debuging...");
}
