//! The agent as the editor uses it: its mode, its context and the built-in
//! tools it may call.

use vstd::prelude::*;
use crate::sdk::agent::AgentMode;
use crate::string_map::StringMap;
use crate::agent::context_manager::{ContextManager, opt_chars, clone_opt};
use crate::agent::tool_registry::{
    BuiltinTool, Tool, ToolCall, ToolOutcome, ToolOutcomeView, ToolRegistry, ToolResult, ToolSpec,
    ToolSpecView, dispatch, fails_with, has_tool, names_unique, with_tool,
};
use crate::agent::tools::file_tools::{
    EditFileTool, ReadFileTool, SearchWorkspaceTool, WriteFileTool, edit_file_tool_spec, edit_plan,
    read_file_tool_spec, read_plan, search_plan, search_workspace_tool_spec, write_file_tool_spec,
    write_plan,
};
use crate::agent::tools::terminal_tools::{RunTerminalTool, run_terminal_tool_spec, terminal_plan};
use crate::agent::tools::web_search::{WebSearchTool, web_plan, web_search_tool_spec};
use crate::text::to_owned_string;

verus! {

/// How the built-in tools describe themselves, in the order they are
/// registered; the workspace search only when there is a workspace.
pub open spec fn default_tool_specs(root: Option<Seq<char>>) -> Seq<ToolSpecView> {
    seq![
        read_file_tool_spec(),
        write_file_tool_spec(),
        edit_file_tool_spec(),
        web_search_tool_spec(),
        run_terminal_tool_spec(),
    ] + match root {
        Some(_) => seq![search_workspace_tool_spec()],
        None => Seq::empty(),
    }
}

/// What the built-in tool at position `i` does first with `args`.
pub open spec fn default_plan(root: Option<Seq<char>>, i: int, args: Map<Seq<char>, Seq<char>>) -> ToolOutcomeView {
    if i == 0 {
        read_plan(args)
    } else if i == 1 {
        write_plan(args)
    } else if i == 2 {
        edit_plan(args)
    } else if i == 3 {
        web_plan(args)
    } else if i == 4 {
        terminal_plan(args)
    } else {
        search_plan(root.unwrap(), args)
    }
}

/// The registered tools are the built-in ones for the workspace at `root`.
pub open spec fn is_default_registry(tools: Seq<BuiltinTool>, root: Option<Seq<char>>) -> bool {
    &&& tools.len() == default_tool_specs(root).len()
    &&& forall|i: int| 0 <= i < tools.len() ==> #[trigger] tools[i].tool_spec() == default_tool_specs(root)[i]
    &&& forall|i: int, args: Map<Seq<char>, Seq<char>>|
        0 <= i < tools.len() ==> #[trigger] tools[i].plan(args) == default_plan(root, i, args)
}

/// The agent service: unset until initialized for a workspace.
pub struct AgentService {
    mode: Option<AgentMode>,
    workspace_root: Option<String>,
    context_manager: Option<ContextManager>,
    tool_registry: Option<ToolRegistry<BuiltinTool>>,
}

/// Registers a tool whose name no registered tool has.
fn add_new(registry: &mut ToolRegistry<BuiltinTool>, tool: BuiltinTool)
    requires
        !has_tool(old(registry).tools_view(), tool.tool_spec().name),
    ensures
        final(registry).tools_view() == old(registry).tools_view().push(tool),
{
    registry.register(tool);
}

impl AgentService {
    /// The mode chosen last, if any.
    pub closed spec fn mode_view(&self) -> Option<AgentMode> {
        self.mode
    }

    /// The workspace root given at initialization.
    pub closed spec fn root_view(&self) -> Option<Seq<char>> {
        opt_chars(self.workspace_root)
    }

    /// The registered tools, once initialized.
    pub closed spec fn tools_view(&self) -> Option<Seq<BuiltinTool>> {
        match self.tool_registry {
            Some(r) => Some(r.tools_view()),
            None => None,
        }
    }

    /// The context manager's workspace root, once initialized.
    pub closed spec fn context_root_view(&self) -> Option<Option<Seq<char>>> {
        match self.context_manager {
            Some(c) => Some(opt_chars(c.workspace_root)),
            None => None,
        }
    }

    /// A service that is not initialized and has no mode.
    pub fn new() -> (r: Self)
        ensures
            r.mode_view() is None,
            r.tools_view() is None,
            r.context_root_view() is None,
            r.root_view() is None,
    {
        AgentService { mode: None, workspace_root: None, context_manager: None, tool_registry: None }
    }

    /// Sets up the built-in tools and the context for the workspace at
    /// `workspace_root`, if any; the mode is kept.
    pub fn initialize(&mut self, workspace_root: Option<String>)
        ensures
            final(self).tools_view() matches Some(ts) && is_default_registry(ts, opt_chars(workspace_root)),
            final(self).root_view() == opt_chars(workspace_root),
            final(self).context_root_view() == Some(opt_chars(workspace_root)),
            final(self).mode_view() == old(self).mode_view(),
    {
        proof {
            reveal_strlit("read_file");
            reveal_strlit("write_file");
            reveal_strlit("edit_file");
            reveal_strlit("web_search");
            reveal_strlit("run_terminal");
            reveal_strlit("search_workspace");
        }
        let ghost root = opt_chars(workspace_root);
        let mut registry: ToolRegistry<BuiltinTool> = ToolRegistry::new();
        let t0 = BuiltinTool::ReadFile(ReadFileTool::default());
        add_new(&mut registry, t0);
        let t1 = BuiltinTool::WriteFile(WriteFileTool::default());
        assert(registry.tools_view()[0].tool_spec().name[0] != t1.tool_spec().name[0]);
        add_new(&mut registry, t1);
        let t2 = BuiltinTool::EditFile(EditFileTool::default());
        assert(registry.tools_view()[0].tool_spec().name[0] != t2.tool_spec().name[0]);
        add_new(&mut registry, t2);
        let t3 = BuiltinTool::WebSearch(WebSearchTool::default());
        assert(registry.tools_view()[1].tool_spec().name[1] != t3.tool_spec().name[1]);
        add_new(&mut registry, t3);
        let t4 = BuiltinTool::RunTerminal(RunTerminalTool::default());
        assert forall|i: int| 0 <= i < registry.tools_view().len() implies #[trigger] registry.tools_view()[i].tool_spec().name != t4.tool_spec().name by {
            assert(t4.tool_spec().name.len() == 12);
            if i == 0 {
            } else if i == 1 {
            } else if i == 2 {
            } else {
            }
            assert(registry.tools_view()[i].tool_spec().name.len() < 12);
        }
        add_new(&mut registry, t4);
        match &workspace_root {
            Some(r) => {
                let t5 = BuiltinTool::SearchWorkspace(SearchWorkspaceTool::new(r.clone()));
                assert forall|i: int| 0 <= i < registry.tools_view().len() implies #[trigger] registry.tools_view()[i].tool_spec().name != t5.tool_spec().name by {
                    assert(t5.tool_spec().name.len() == 16);
                    if i == 0 {
                    } else if i == 1 {
                    } else if i == 2 {
                    } else if i == 3 {
                    } else {
                    }
                    assert(registry.tools_view()[i].tool_spec().name.len() < 16);
                }
                add_new(&mut registry, t5);
            },
            None => {},
        }
        assert(is_default_registry(registry.tools_view(), root));
        self.tool_registry = Some(registry);
        self.context_manager = Some(ContextManager::new(clone_opt(&workspace_root)));
        self.workspace_root = workspace_root;
    }

    /// Chooses the agent's mode.
    pub fn set_mode(&mut self, mode: AgentMode)
        ensures
            final(self).mode_view() == Some(mode),
            final(self).tools_view() == old(self).tools_view(),
            final(self).root_view() == old(self).root_view(),
            final(self).context_root_view() == old(self).context_root_view(),
    {
        self.mode = Some(mode);
    }

    /// How each registered tool describes itself, in registration order;
    /// nothing before initialization.
    pub fn tool_specs(&self) -> (r: Vec<ToolSpec>)
        ensures
            match self.tools_view() {
                Some(ts) => r@.len() == ts.len() && forall|i: int|
                    0 <= i < ts.len() ==> #[trigger] r@[i]@ == ts[i].tool_spec(),
                None => r@.len() == 0,
            },
    {
        match &self.tool_registry {
            Some(registry) => {
                let specs = registry.all_specs();
                let mut out: Vec<ToolSpec> = Vec::new();
                let mut i: usize = 0;
                while i < specs.len()
                    invariant
                        i <= specs@.len(),
                        specs@.len() == registry.tools_view().len(),
                        forall|j: int| 0 <= j < specs@.len() ==> #[trigger] specs@[j]@ == registry.tools_view()[j].tool_spec(),
                        out@.len() == i,
                        forall|j: int| 0 <= j < i ==> #[trigger] out@[j]@ == registry.tools_view()[j].tool_spec(),
                    decreases specs.len() - i,
                {
                    out.push(specs[i].clone());
                    i = i + 1;
                }
                out
            },
            None => Vec::new(),
        }
    }

    /// Runs the first step of a call of `tool` with `args`, approved by the
    /// user or not: dispatched to the registry, or an error before
    /// initialization.
    pub fn execute_tool(&self, tool: &str, args: &StringMap, approved: bool) -> (r: ToolOutcome)
        ensures
            r@ == match self.tools_view() {
                Some(ts) => dispatch(ts, tool@, args@, approved),
                None => fails_with("Agent service not initialized"@),
            },
    {
        match &self.tool_registry {
            Some(registry) => {
                let call = ToolCall { tool: to_owned_string(tool), args: args.clone(), approved };
                registry.execute(&call)
            },
            None => ToolOutcome::Finished(
                ToolResult::Error { message: to_owned_string("Agent service not initialized") },
            ),
        }
    }

    /// Has the service been initialized?
    pub fn is_initialized(&self) -> (b: bool)
        ensures
            b == self.tools_view() is Some,
    {
        self.tool_registry.is_some()
    }
}

impl Default for AgentService {
    fn default() -> (r: Self)
        ensures
            r.mode_view() is None,
            r.tools_view() is None,
    {
        AgentService::new()
    }
}

} // verus!
