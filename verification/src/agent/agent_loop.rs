//! The agent loop and the native agent backend.

use vstd::prelude::*;
use std::sync::Arc;
use crate::sdk::agent::{AgentAction, AgentBackendKind, AgentError, AgentMode, AgentRequest, AgentStep};
use crate::agent::context_manager::{ContextManager, opt_chars, prompt_of};
use crate::agent::tool_registry::{BuiltinTool, ToolCall, ToolRegistry};
use crate::string_map::StringMap;
use crate::text::{push_str, to_owned_string};

verus! {

/// Runs requests in one mode over one workspace.
pub struct AgentLoop {
    pub mode: AgentMode,
    pub context: ContextManager,
    pub tools: ToolRegistry<BuiltinTool>,
    pub max_steps: usize,
}

/// The summary of the first step of a run: the request and its context.
pub open spec fn request_summary(prompt: Seq<char>, context: Seq<char>) -> Seq<char> {
    "Received request: "@ + prompt + "\n\nContext:\n"@ + context
}

impl AgentLoop {
    /// A loop in `mode` for the workspace at `workspace_root`, with no tools
    /// registered and a limit of 25 steps.
    pub fn new(mode: AgentMode, workspace_root: Option<String>) -> (r: Self)
        ensures
            r.mode == mode,
            r.context.workspace_root == workspace_root,
            r.tools.tools_view().len() == 0,
            r.max_steps == 25,
    {
        AgentLoop {
            mode,
            context: ContextManager::new(workspace_root),
            tools: ToolRegistry::new(),
            max_steps: 25,
        }
    }

    /// Runs a request. `files` are the files a walk of the workspace root
    /// found. The run takes one visible step: it thinks over the request and
    /// the context built for it.
    pub fn run(
        &self,
        prompt: &str,
        active_file: Option<String>,
        selected_text: Option<String>,
        files: Vec<String>,
    ) -> (r: Vec<AgentStep>)
        ensures
            r@.len() == 1,
            r@[0].visible_to_user,
            r@[0].action matches AgentAction::Think { summary } && summary@ == request_summary(
                prompt@,
                prompt_of(
                    opt_chars(self.context.workspace_root),
                    opt_chars(active_file),
                    opt_chars(selected_text),
                    if self.context.workspace_root is Some {
                        files@.map_values(|f: String| f@)
                    } else {
                        Seq::empty()
                    },
                ),
            ),
    {
        let ghost root = self.context.workspace_root;
        let ghost fs = files;
        let ctx = self.context.build_context(self.mode, active_file, selected_text, files);
        let context_text = self.context.format_context_prompt(&ctx);
        let mut summary = to_owned_string("Received request: ");
        push_str(&mut summary, prompt);
        push_str(&mut summary, "\n\nContext:\n");
        push_str(&mut summary, context_text.as_str());
        let mut steps: Vec<AgentStep> = Vec::new();
        steps.push(AgentStep { action: AgentAction::Think { summary }, visible_to_user: true });
        proof {
            assert(ctx.files_in_workspace@.map_values(|f: String| f@) =~= (if root is Some {
                fs@.map_values(|f: String| f@)
            } else {
                Seq::empty()
            }));
        }
        steps
    }
}

/// The tool call an action stands for, if any.
pub open spec fn resolve_spec(action: AgentAction) -> Option<(Seq<char>, Map<Seq<char>, Seq<char>>)> {
    match action {
        AgentAction::ReadFile { path } => Some(("read_file"@, map!["path"@ => path@])),
        AgentAction::WriteFile { path } => Some(("write_file"@, map!["path"@ => path@])),
        AgentAction::RunTerminal { command } => Some(("run_terminal"@, map!["command"@ => command@])),
        AgentAction::SearchWorkspace { query } => Some(
            ("search_workspace"@, map!["pattern"@ => query@]),
        ),
        _ => None,
    }
}

/// The agent backend that runs inside the editor.
pub struct NativeAgentBackend {
    tools: Arc<ToolRegistry<BuiltinTool>>,
}

/// A one-argument call of `tool`, not yet approved.
fn single_arg_call(tool: &str, key: &str, value: &String) -> (r: ToolCall)
    ensures
        r.tool@ == tool@,
        r.args@ == map![key@ => value@],
        !r.approved,
{
    let mut args = StringMap::new();
    args.insert(to_owned_string(key), value.clone());
    assert(args@ =~= map![key@ => value@]);
    ToolCall { tool: to_owned_string(tool), args, approved: false }
}

impl NativeAgentBackend {
    /// A backend using the tools of `tools`.
    pub fn new(tools: Arc<ToolRegistry<BuiltinTool>>) -> (r: Self)
        ensures
            r.tools_view() == tools,
    {
        NativeAgentBackend { tools }
    }

    /// The registry the backend calls tools through.
    pub closed spec fn tools_view(&self) -> Arc<ToolRegistry<BuiltinTool>> {
        self.tools
    }

    /// The backend's id.
    pub fn id(&self) -> (r: &'static str)
        ensures
            r@ == "super-native"@,
    {
        "super-native"
    }

    /// The backend's kind.
    pub fn kind(&self) -> (r: AgentBackendKind)
        ensures
            r == AgentBackendKind::Native,
    {
        AgentBackendKind::Native
    }

    /// Starts a request; the native backend accepts every request.
    pub fn start(&self, request: AgentRequest) -> (r: Result<(), AgentError>)
        ensures
            r is Ok,
    {
        Ok(())
    }

    /// The next step of the running request. Planning is not available yet,
    /// so this always fails with the backend's id and a message saying so.
    pub fn next_step(&self) -> (r: Result<AgentStep, AgentError>)
        ensures
            r matches Err(e) && e.agent_id@ == "super-native"@ && e.message@
                == "Not yet implemented: agent planning loop"@,
    {
        Err(
            AgentError {
                agent_id: to_owned_string("super-native"),
                message: to_owned_string("Not yet implemented: agent planning loop"),
            },
        )
    }

    /// Stops the running request.
    pub fn stop(&self) -> (r: Result<(), AgentError>)
        ensures
            r is Ok,
    {
        Ok(())
    }

    /// The tool call an action stands for (see `resolve_spec`), not yet
    /// approved by the user.
    pub fn resolve_tool(&self, action: &AgentAction) -> (r: Option<ToolCall>)
        ensures
            match resolve_spec(*action) {
                Some((tool, args)) => r matches Some(c) && c.tool@ == tool && c.args@ == args
                    && !c.approved,
                None => r is None,
            },
    {
        match action {
            AgentAction::ReadFile { path } => Some(single_arg_call("read_file", "path", path)),
            AgentAction::WriteFile { path } => Some(single_arg_call("write_file", "path", path)),
            AgentAction::RunTerminal { command } => Some(
                single_arg_call("run_terminal", "command", command),
            ),
            AgentAction::SearchWorkspace { query } => Some(
                single_arg_call("search_workspace", "pattern", query),
            ),
            _ => None,
        }
    }
}

} // verus!
