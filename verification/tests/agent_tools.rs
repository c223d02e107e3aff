use std::collections::HashMap;

use superide::agent::tool_registry::{
    resume, BuiltinTool, IoReply, IoRequest, Tool, ToolCall, ToolOutcome, ToolRegistry, ToolResult,
};
use superide::agent::tools::file_tools::{
    glob_match, EditFileTool, ReadFileTool, SearchWorkspaceTool, WorkspaceFile, WriteFailure,
    WriteFileTool,
};
use superide::agent::tools::terminal_tools::{CommandOutcome, RunTerminalTool};
use superide::agent::tools::web_search::{
    urlencoding, RelatedTopic, SearchResponse, TopicLink, WebSearchTool,
};
use superide::string_map::StringMap;

fn args(pairs: &[(&str, &str)]) -> StringMap {
    let mut m = StringMap::new();
    for (k, v) in pairs {
        m.insert(k.to_string(), v.to_string());
    }
    m
}

/// A stand-in for the disk, the shell and the network: files live in a map,
/// and the few commands the tests run answer as `sh` would.
struct World {
    files: HashMap<String, String>,
}

impl World {
    fn new() -> World {
        World { files: HashMap::new() }
    }

    fn run_command(&self, command: &str, workdir: Option<&str>, timeout_secs: u64) -> CommandOutcome {
        let exited = |stdout: &str| CommandOutcome::Exited {
            success: true,
            code: Some(0),
            stdout: stdout.to_string(),
            stderr: String::new(),
        };
        if let Some(rest) = command.strip_prefix("sleep ") {
            let secs: u64 = rest.trim().parse().unwrap();
            return if secs > timeout_secs { CommandOutcome::TimedOut } else { exited("") };
        }
        if command == "pwd" {
            return exited(&format!("{}\n", workdir.unwrap_or("/home")));
        }
        if command == "echo foo bar baz | wc -w" {
            return exited("3\n");
        }
        if let Some(rest) = command.strip_prefix("echo ") {
            return exited(&format!("{}\n", rest));
        }
        CommandOutcome::Exited {
            success: false,
            code: Some(127),
            stdout: String::new(),
            stderr: format!("sh: {}: not found\n", command),
        }
    }

    fn perform(&mut self, req: &IoRequest) -> IoReply {
        match req {
            IoRequest::ReadFile { path } | IoRequest::EditRead { path, .. } => IoReply::FileRead(
                self.files
                    .get(path)
                    .cloned()
                    .ok_or_else(|| "No such file or directory (os error 2)".to_string()),
            ),
            IoRequest::WriteFile { path, content } | IoRequest::EditWrite { path, content, .. } => {
                if path.starts_with("/nonexistent") {
                    IoReply::FileWritten(Err(WriteFailure::Write("Permission denied (os error 13)".to_string())))
                } else {
                    self.files.insert(path.clone(), content.clone());
                    IoReply::FileWritten(Ok(()))
                }
            }
            IoRequest::ListWorkspace { .. } => IoReply::Workspace(None),
            IoRequest::RunCommand { command, workdir, timeout_secs } => {
                IoReply::Command(self.run_command(command, workdir.as_deref(), *timeout_secs))
            }
            IoRequest::FetchSearch { .. } => {
                IoReply::Search(Err("Search request failed: no network".to_string()))
            }
        }
    }

    fn complete(&mut self, mut outcome: ToolOutcome) -> ToolResult {
        loop {
            match outcome {
                ToolOutcome::Finished(r) => return r,
                ToolOutcome::Io(req) => {
                    let reply = self.perform(&req);
                    outcome = resume(req, reply);
                }
            }
        }
    }

    fn run(&mut self, tool: &dyn Tool, a: &StringMap) -> ToolResult {
        let outcome = tool.execute(a);
        self.complete(outcome)
    }
}

fn run(tool: &dyn Tool, a: &StringMap) -> ToolResult {
    World::new().run(tool, a)
}

fn complete(outcome: ToolOutcome) -> ToolResult {
    World::new().complete(outcome)
}

#[test]
fn test_read_file_not_found() {
    let tool = ReadFileTool::default();
    let result = run(&tool, &args(&[("path", "/nonexistent/file.txt")]));
    match result {
        ToolResult::Error { message } => assert!(message.contains("Failed to read")),
        _ => panic!("Expected Error result"),
    }
}

#[test]
fn test_read_file_missing_args() {
    let tool = ReadFileTool::default();
    let result = run(&tool, &StringMap::new());
    match result {
        ToolResult::Error { message } => assert_eq!(message, "Missing 'path' argument"),
        _ => panic!("Expected Error result"),
    }
}

#[test]
fn test_write_file_and_read_back() {
    let mut world = World::new();
    let p = "/tmp/superide/test_write.txt";

    let write = WriteFileTool::default();
    let result = world.run(&write, &args(&[("path", p), ("content", "hello world")]));
    match &result {
        ToolResult::Success { output } => assert!(output.contains("Wrote 11 bytes")),
        _ => panic!("Expected Success, got {:?}", result),
    }

    let read = ReadFileTool::default();
    let result = world.run(&read, &args(&[("path", p)]));
    match &result {
        ToolResult::Success { output } => assert!(output.contains("hello world")),
        _ => panic!("Expected Success, got {:?}", result),
    }
}

#[test]
fn test_edit_file() {
    let mut world = World::new();
    let p = "/tmp/superide/test_edit.rs";
    world.files.insert(p.to_string(), "fn old_name() {}".to_string());

    let edit = EditFileTool::default();
    let result = world.run(
        &edit,
        &args(&[("path", p), ("old_string", "old_name"), ("new_string", "new_name")]),
    );
    match &result {
        ToolResult::Success { .. } => {}
        _ => panic!("Expected Success, got {:?}", result),
    }

    let content = world.files.get(p).unwrap();
    assert_eq!(content, "fn new_name() {}");
}

#[test]
fn test_edit_file_not_found() {
    let edit = EditFileTool::default();
    let result = run(
        &edit,
        &args(&[("path", "/nonexistent.rs"), ("old_string", "old"), ("new_string", "new")]),
    );
    match &result {
        ToolResult::Error { message } => assert!(message.contains("Failed to read")),
        _ => panic!("Expected Error, got {:?}", result),
    }
}

#[test]
fn test_edit_file_pattern_not_found() {
    let mut world = World::new();
    let p = "/tmp/superide/test_no_match.rs";
    world.files.insert(p.to_string(), "content".to_string());

    let edit = EditFileTool::default();
    let result = world.run(
        &edit,
        &args(&[("path", p), ("old_string", "does_not_exist"), ("new_string", "replacement")]),
    );
    match &result {
        ToolResult::Error { message } => assert!(message.contains("Could not find")),
        _ => panic!("Expected Error, got {:?}", result),
    }
}

#[test]
fn test_tool_registry() {
    let mut reg: ToolRegistry<BuiltinTool> = ToolRegistry::new();
    reg.register(BuiltinTool::ReadFile(ReadFileTool::default()));

    let specs = reg.all_specs();
    assert_eq!(specs.len(), 1);
    assert_eq!(specs[0].name, "read_file");

    let result = complete(reg.execute(&ToolCall { tool: "read_file".to_string(), args: StringMap::new(), approved: false }));
    match result {
        ToolResult::Error { message } => assert_eq!(message, "Missing 'path' argument"),
        _ => panic!("Expected Error"),
    }

    let result = complete(reg.execute(&ToolCall { tool: "unknown_tool".to_string(), args: StringMap::new(), approved: false }));
    match result {
        ToolResult::Error { message } => assert!(message.contains("Unknown tool")),
        _ => panic!("Expected Error"),
    }
}

#[test]
fn test_glob_match() {
    assert!(glob_match("*.rs", "main.rs"));
    assert!(!glob_match("*.rs", "main.py"));
    assert!(glob_match("test?.txt", "test1.txt"));
    assert!(!glob_match("test?.txt", "test12.txt"));
    assert!(glob_match("*.{ts,tsx}", "component.tsx"));
}

#[test]
fn test_terminal_tool_spec() {
    let tool = RunTerminalTool::default();
    assert_eq!(tool.spec().name, "run_terminal");
    assert!(tool.spec().requires_approval);
    assert!(!tool.spec().parameters.is_empty());
}

#[test]
fn test_terminal_missing_command() {
    let tool = RunTerminalTool::default();
    match run(&tool, &StringMap::new()) {
        ToolResult::Error { message } => assert!(message.contains("command")),
        _ => panic!("Expected error"),
    }
}

#[test]
fn test_terminal_echo() {
    let tool = RunTerminalTool::default();
    match run(&tool, &args(&[("command", "echo hello_world")])) {
        ToolResult::Success { output } => assert!(output.contains("hello_world")),
        ToolResult::Error { message } => panic!("Unexpected error: {}", message),
        _ => panic!("Unexpected result"),
    }
}

#[test]
fn test_terminal_with_workdir() {
    let tool = RunTerminalTool::default();
    match run(&tool, &args(&[("command", "pwd"), ("workdir", "/tmp")])) {
        ToolResult::Success { output } => assert!(output.contains("/tmp")),
        ToolResult::Error { message } => panic!("Unexpected error: {}", message),
        _ => panic!("Unexpected result"),
    }
}

#[test]
fn test_terminal_timeout() {
    let tool = RunTerminalTool::default();
    match run(&tool, &args(&[("command", "sleep 10"), ("timeout", "2")])) {
        ToolResult::Error { message } => assert!(message.contains("timed out")),
        _ => panic!("Expected timeout error"),
    }
}

#[test]
fn test_terminal_pipe() {
    let tool = RunTerminalTool::default();
    match run(&tool, &args(&[("command", "echo foo bar baz | wc -w")])) {
        ToolResult::Success { output } => {
            assert!(output.trim().contains("3") || output.trim().starts_with("3"))
        }
        ToolResult::Error { message } => panic!("Unexpected error: {}", message),
        _ => panic!("Unexpected result"),
    }
}

#[test]
fn test_url_encoding() {
    assert_eq!(urlencoding("hello world"), "hello+world");
    assert_eq!(urlencoding("rust lang"), "rust+lang");
    assert_eq!(urlencoding("a/b"), "a%2Fb");
}

#[test]
fn test_web_search_spec() {
    let tool = WebSearchTool::default();
    assert_eq!(tool.spec().name, "web_search");
    assert!(!tool.spec().parameters.is_empty());
    assert_eq!(tool.spec().parameters[0].name, "query");
}

#[test]
fn test_web_search_missing_query() {
    let tool = WebSearchTool::default();
    match run(&tool, &StringMap::new()) {
        ToolResult::Error { message } => {
            assert!(message.contains("query"));
        }
        _ => panic!("Expected error for missing query"),
    }
}

#[test]
fn test_web_search_network() {
    let tool = WebSearchTool::default();
    let result = run(&tool, &args(&[("query", "Rust programming language")]));
    match result {
        ToolResult::Success { output } => {
            assert!(!output.is_empty());
            assert!(output.contains("Rust") || output.contains("rust"));
        }
        ToolResult::Error { message } => {
            println!("Network error (expected if offline): {}", message);
        }
        _ => panic!("Unexpected result"),
    }
}

// ── Further scenarios ─────────────────────────────────────────────────

#[test]
fn search_url_encodes_query() {
    assert_eq!(
        WebSearchTool::search_url("a b"),
        "https://api.duckduckgo.com/?q=a+b&format=json&no_html=1&skip_disambig=1"
    );
}

#[test]
fn url_encoding_keeps_unreserved_and_encodes_utf8() {
    assert_eq!(urlencoding("a-b_c.d~e"), "a-b_c.d~e");
    assert_eq!(urlencoding("é"), "%C3%A9");
}

#[test]
fn web_search_formats_answer_and_topics() {
    let response = SearchResponse {
        abstract_text: Some("Rust is a language".to_string()),
        abstract_source: Some("Wikipedia".to_string()),
        abstract_url: Some("https://en.wikipedia.org/wiki/Rust".to_string()),
        answer: None,
        answer_url: None,
        related_topics: Some(vec![RelatedTopic {
            text: Some("Cargo".to_string()),
            first_url: Some("https://crates.io".to_string()),
            topics: Some(vec![TopicLink {
                text: Some("Crates".to_string()),
                first_url: Some("https://crates.io/crates".to_string()),
            }]),
        }]),
    };
    match WebSearchTool::finish(Ok(response)) {
        ToolResult::Success { output } => assert_eq!(
            output,
            "## Summary\nRust is a language\n\nSource: Wikipedia\nURL: https://en.wikipedia.org/wiki/Rust\n\n## Related Results\n1. Cargo (https://crates.io)\n  - Crates (https://crates.io/crates)\n"
        ),
        other => panic!("Expected Success, got {:?}", other),
    }
}

#[test]
fn web_search_reports_nothing_found() {
    let response = SearchResponse {
        abstract_text: None,
        abstract_source: None,
        abstract_url: None,
        answer: None,
        answer_url: None,
        related_topics: Some(vec![]),
    };
    match WebSearchTool::finish(Ok(response)) {
        ToolResult::Success { output } => {
            assert_eq!(output, "No instant results found. Try a more specific query.")
        }
        other => panic!("Expected Success, got {:?}", other),
    }
}

#[test]
fn web_search_truncates_after_twenty_two_results() {
    let topics: Vec<RelatedTopic> = (0..30)
        .map(|i| RelatedTopic { text: Some(format!("t{}", i)), first_url: None, topics: None })
        .collect();
    let response = SearchResponse {
        abstract_text: None,
        abstract_source: None,
        abstract_url: None,
        answer: None,
        answer_url: None,
        related_topics: Some(topics),
    };
    match WebSearchTool::finish(Ok(response)) {
        ToolResult::Success { output } => {
            assert!(output.contains("22. t21\n"));
            assert!(!output.contains("23. "));
            assert!(output.ends_with("... (results truncated)\n"));
        }
        other => panic!("Expected Success, got {:?}", other),
    }
}

#[test]
fn terminal_reports_exit_code_and_stderr() {
    let r = RunTerminalTool::finish(
        "false",
        30,
        CommandOutcome::Exited { success: false, code: Some(2), stdout: "out".to_string(), stderr: "bad".to_string() },
    );
    match r {
        ToolResult::Error { message } => {
            assert_eq!(message, "Command exited with code 2:\nout\n[stderr]\nbad")
        }
        other => panic!("Expected Error, got {:?}", other),
    }
}

#[test]
fn terminal_success_without_output() {
    let r = RunTerminalTool::finish(
        "true",
        30,
        CommandOutcome::Exited { success: true, code: Some(0), stdout: String::new(), stderr: String::new() },
    );
    match r {
        ToolResult::Success { output } => assert_eq!(output, "Command completed successfully (no output)"),
        other => panic!("Expected Success, got {:?}", other),
    }
}

#[test]
fn terminal_timeout_message() {
    match RunTerminalTool::finish("sleep 10", 2, CommandOutcome::TimedOut) {
        ToolResult::Error { message } => assert_eq!(message, "Command timed out after 2 seconds:\nsleep 10"),
        other => panic!("Expected Error, got {:?}", other),
    }
}

#[test]
fn terminal_poll_budget() {
    assert_eq!(RunTerminalTool::poll_budget(2), 40);
    assert_eq!(RunTerminalTool::poll_budget(30), 600);
}

#[test]
fn terminal_plans_default_timeout() {
    let tool = RunTerminalTool::default();
    match tool.execute(&args(&[("command", "ls"), ("timeout", "soon")])) {
        ToolOutcome::Io(IoRequest::RunCommand { command, workdir, timeout_secs }) => {
            assert_eq!(command, "ls");
            assert!(workdir.is_none());
            assert_eq!(timeout_secs, 30);
        }
        other => panic!("Expected a command to run, got {:?}", other),
    }
}

#[test]
fn write_failures_are_reported() {
    match WriteFileTool::finish("/x/y", "abc", Err(WriteFailure::CreateDirs("denied".to_string()))) {
        ToolResult::Error { message } => assert_eq!(message, "Failed to create directories: denied"),
        other => panic!("Expected Error, got {:?}", other),
    }
    match WriteFileTool::finish("/x/y", "abc", Err(WriteFailure::Write("full".to_string()))) {
        ToolResult::Error { message } => assert_eq!(message, "Failed to write '/x/y': full"),
        other => panic!("Expected Error, got {:?}", other),
    }
}

#[test]
fn write_counts_utf8_bytes() {
    match WriteFileTool::finish("f", "héllo", Ok(())) {
        ToolResult::Success { output } => assert_eq!(output, "Wrote 6 bytes to f"),
        other => panic!("Expected Success, got {:?}", other),
    }
}

#[test]
fn read_file_formats_content() {
    match ReadFileTool::finish("a.txt", Ok("hi".to_string())) {
        ToolResult::Success { output } => assert_eq!(output, "File: a.txt\n```\nhi\n```"),
        other => panic!("Expected Success, got {:?}", other),
    }
}

#[test]
fn edit_replaces_every_occurrence() {
    match EditFileTool::after_read("f.rs", "a", "b", Ok("a-a".to_string())) {
        ToolOutcome::Io(IoRequest::EditWrite { content, replaced, .. }) => {
            assert_eq!(content, "b-b");
            assert_eq!(replaced, 2);
        }
        other => panic!("Expected a write, got {:?}", other),
    }
    match EditFileTool::after_write("f.rs", 2, Ok(())) {
        ToolResult::Success { output } => assert!(output.contains("2")),
        other => panic!("Expected Success, got {:?}", other),
    }
}

#[test]
fn search_workspace_lists_matches() {
    let files = vec![
        WorkspaceFile { path: "/ws/src/main.rs".to_string(), content: Some("fn main() {}\nlet x = 1;".to_string()) },
        WorkspaceFile { path: "/ws/README.md".to_string(), content: Some("fn in docs".to_string()) },
    ];
    match SearchWorkspaceTool::finish("/ws", "fn", Some("*.rs".to_string()), Some(files)) {
        ToolResult::Success { output } => {
            assert_eq!(output, "Found 1 result(s) for 'fn':\nsrc/main.rs:1  fn main() {}")
        }
        other => panic!("Expected Success, got {:?}", other),
    }
}

#[test]
fn search_workspace_missing_root() {
    match SearchWorkspaceTool::finish("/nope", "fn", None, None) {
        ToolResult::Error { message } => assert_eq!(message, "Workspace root does not exist"),
        other => panic!("Expected Error, got {:?}", other),
    }
}

#[test]
fn registering_same_name_replaces() {
    let mut reg: ToolRegistry<BuiltinTool> = ToolRegistry::new();
    reg.register(BuiltinTool::ReadFile(ReadFileTool::default()));
    reg.register(BuiltinTool::ReadFile(ReadFileTool::default()));
    assert_eq!(reg.all_specs().len(), 1);
    assert!(reg.get("read_file").is_some());
    assert!(reg.get("write_file").is_none());
}

#[test]
fn unapproved_write_needs_approval() {
    let mut reg: ToolRegistry<BuiltinTool> = ToolRegistry::new();
    reg.register(BuiltinTool::WriteFile(WriteFileTool::default()));
    reg.register(BuiltinTool::ReadFile(ReadFileTool::default()));
    let call_args = args(&[("path", "/tmp/out.txt"), ("content", "hi")]);

    let outcome = reg.execute(&ToolCall { tool: "write_file".to_string(), args: call_args.clone(), approved: false });
    match outcome {
        ToolOutcome::Finished(ToolResult::NeedsApproval { action }) => assert_eq!(action, "write_file"),
        other => panic!("Expected NeedsApproval, got {:?}", other),
    }

    let outcome = reg.execute(&ToolCall { tool: "write_file".to_string(), args: call_args, approved: true });
    match outcome {
        ToolOutcome::Io(IoRequest::WriteFile { path, content }) => {
            assert_eq!(path, "/tmp/out.txt");
            assert_eq!(content, "hi");
        }
        other => panic!("Expected a write request, got {:?}", other),
    }

    // A tool that needs no approval runs without it.
    let outcome = reg.execute(&ToolCall {
        tool: "read_file".to_string(),
        args: args(&[("path", "/tmp/out.txt")]),
        approved: false,
    });
    assert!(matches!(outcome, ToolOutcome::Io(IoRequest::ReadFile { .. })));
}
