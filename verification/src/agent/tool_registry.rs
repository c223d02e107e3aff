//! Tools the agent can call, and the registry that dispatches calls to them.
//!
//! A tool call is planned here and carried out in steps: `execute` either
//! finishes at once (for instance when an argument is missing) or asks for
//! one piece of outside work (`IoRequest`); the caller performs it and hands
//! the reply to `resume`, which decides what comes next.

use vstd::prelude::*;
use crate::string_map::StringMap;
use crate::text::{push_str, to_owned_string};
use crate::agent::tools::file_tools::{
    EditFileTool, ReadFileTool, SearchWorkspaceTool, WorkspaceFile, WriteFailure, WriteFileTool,
    edit_read_spec, edit_write_spec, read_result_spec, search_result_spec, write_result_spec,
};
use crate::agent::tools::terminal_tools::{CommandOutcome, RunTerminalTool, command_result_spec};
use crate::agent::tools::web_search::{SearchResponse, WebSearchTool, web_result_spec};

verus! {

/// What a tool call produced.
#[derive(Debug, Clone)]
pub enum ToolResult {
    Success { output: String },
    Error { message: String },
    NeedsApproval { action: String },
    Done { summary: String },
}

/// A tool result with its text as characters.
pub ghost enum ToolResultView {
    Success(Seq<char>),
    Error(Seq<char>),
    NeedsApproval(Seq<char>),
    Done(Seq<char>),
}

impl View for ToolResult {
    type V = ToolResultView;

    open spec fn view(&self) -> ToolResultView {
        match self {
            ToolResult::Success { output } => ToolResultView::Success(output@),
            ToolResult::Error { message } => ToolResultView::Error(message@),
            ToolResult::NeedsApproval { action } => ToolResultView::NeedsApproval(action@),
            ToolResult::Done { summary } => ToolResultView::Done(summary@),
        }
    }
}

/// One parameter a tool takes.
#[derive(Debug)]
pub struct ToolParam {
    pub name: String,
    pub param_type: String,
    pub description: String,
    pub required: bool,
}

/// A tool parameter as characters.
pub ghost struct ToolParamView {
    pub name: Seq<char>,
    pub param_type: Seq<char>,
    pub description: Seq<char>,
    pub required: bool,
}

impl View for ToolParam {
    type V = ToolParamView;

    open spec fn view(&self) -> ToolParamView {
        ToolParamView {
            name: self.name@,
            param_type: self.param_type@,
            description: self.description@,
            required: self.required,
        }
    }
}

/// What a tool is called, what it does, what it takes, and whether the
/// user must approve a call.
#[derive(Debug)]
pub struct ToolSpec {
    pub name: String,
    pub description: String,
    pub parameters: Vec<ToolParam>,
    pub requires_approval: bool,
}

/// A tool description as characters.
pub ghost struct ToolSpecView {
    pub name: Seq<char>,
    pub description: Seq<char>,
    pub parameters: Seq<ToolParamView>,
    pub requires_approval: bool,
}

impl View for ToolSpec {
    type V = ToolSpecView;

    open spec fn view(&self) -> ToolSpecView {
        ToolSpecView {
            name: self.name@,
            description: self.description@,
            parameters: self.parameters@.map_values(|p: ToolParam| p@),
            requires_approval: self.requires_approval,
        }
    }
}

impl Clone for ToolParam {
    fn clone(&self) -> (r: Self)
        ensures
            r == *self,
    {
        ToolParam {
            name: self.name.clone(),
            param_type: self.param_type.clone(),
            description: self.description.clone(),
            required: self.required,
        }
    }
}

impl Clone for ToolSpec {
    fn clone(&self) -> (r: Self)
        ensures
            r@ == self@,
    {
        let r = ToolSpec {
            name: self.name.clone(),
            description: self.description.clone(),
            parameters: self.parameters.clone(),
            requires_approval: self.requires_approval,
        };
        assert(r.parameters@ =~= self.parameters@);
        r
    }
}

/// A parameter built from its parts.
pub fn make_param(name: &str, param_type: &str, description: &str, required: bool) -> (r: ToolParam)
    ensures
        r@ == (ToolParamView {
            name: name@,
            param_type: param_type@,
            description: description@,
            required,
        }),
{
    ToolParam {
        name: to_owned_string(name),
        param_type: to_owned_string(param_type),
        description: to_owned_string(description),
        required,
    }
}

/// A request to call the tool named `tool` with `args`; `approved` says
/// whether the user has approved this call.
#[derive(Debug, Clone)]
pub struct ToolCall {
    pub tool: String,
    pub args: StringMap,
    pub approved: bool,
}

/// Outside work a tool call needs before it can go on.
#[derive(Debug)]
pub enum IoRequest {
    /// Read the whole file at `path`.
    ReadFile { path: String },
    /// Create the missing parent directories of `path`, then write `content` to it.
    WriteFile { path: String, content: String },
    /// Read the file at `path` for a search-and-replace edit.
    EditRead { path: String, old_string: String, new_string: String },
    /// Write the edited `content` back to `path`; `replaced` occurrences were replaced.
    EditWrite { path: String, content: String, replaced: usize },
    /// List the files under `root` with their contents.
    ListWorkspace { root: String, pattern: String, glob: Option<String> },
    /// Run `command` through the shell.
    RunCommand { command: String, workdir: Option<String>, timeout_secs: u64 },
    /// Fetch the search results at `url`.
    FetchSearch { query: String, url: String },
}

/// The outcome of the outside work an `IoRequest` asked for.
#[derive(Debug)]
pub enum IoReply {
    /// The file's contents, or the error message of the failed read.
    FileRead(Result<String, String>),
    /// Whether the write went through.
    FileWritten(Result<(), WriteFailure>),
    /// The files under the root, or `None` when the root does not exist.
    Workspace(Option<Vec<WorkspaceFile>>),
    /// How the command ended.
    Command(CommandOutcome),
    /// The decoded search response, or the message of what failed.
    Search(Result<SearchResponse, String>),
}

/// The reply answers the request.
pub open spec fn reply_fits(req: IoRequest, reply: IoReply) -> bool {
    match req {
        IoRequest::ReadFile { .. } => reply is FileRead,
        IoRequest::EditRead { .. } => reply is FileRead,
        IoRequest::WriteFile { .. } => reply is FileWritten,
        IoRequest::EditWrite { .. } => reply matches IoReply::FileWritten(Ok(_)) || reply matches IoReply::FileWritten(Err(WriteFailure::Write(_))),
        IoRequest::ListWorkspace { .. } => reply is Workspace,
        IoRequest::RunCommand { .. } => reply is Command,
        IoRequest::FetchSearch { .. } => reply is Search,
    }
}

/// An `IoRequest` as characters.
pub ghost enum IoRequestView {
    ReadFile { path: Seq<char> },
    WriteFile { path: Seq<char>, content: Seq<char> },
    EditRead { path: Seq<char>, old_string: Seq<char>, new_string: Seq<char> },
    EditWrite { path: Seq<char>, content: Seq<char>, replaced: nat },
    ListWorkspace { root: Seq<char>, pattern: Seq<char>, glob: Option<Seq<char>> },
    RunCommand { command: Seq<char>, workdir: Option<Seq<char>>, timeout_secs: nat },
    FetchSearch { query: Seq<char>, url: Seq<char> },
}

/// The characters of an optional string.
pub open spec fn opt_view(o: Option<String>) -> Option<Seq<char>> {
    match o {
        Some(s) => Some(s@),
        None => None,
    }
}

impl View for IoRequest {
    type V = IoRequestView;

    open spec fn view(&self) -> IoRequestView {
        match self {
            IoRequest::ReadFile { path } => IoRequestView::ReadFile { path: path@ },
            IoRequest::WriteFile { path, content } => IoRequestView::WriteFile {
                path: path@,
                content: content@,
            },
            IoRequest::EditRead { path, old_string, new_string } => IoRequestView::EditRead {
                path: path@,
                old_string: old_string@,
                new_string: new_string@,
            },
            IoRequest::EditWrite { path, content, replaced } => IoRequestView::EditWrite {
                path: path@,
                content: content@,
                replaced: *replaced as nat,
            },
            IoRequest::ListWorkspace { root, pattern, glob } => IoRequestView::ListWorkspace {
                root: root@,
                pattern: pattern@,
                glob: opt_view(*glob),
            },
            IoRequest::RunCommand { command, workdir, timeout_secs } => IoRequestView::RunCommand {
                command: command@,
                workdir: opt_view(*workdir),
                timeout_secs: *timeout_secs as nat,
            },
            IoRequest::FetchSearch { query, url } => IoRequestView::FetchSearch {
                query: query@,
                url: url@,
            },
        }
    }
}

/// The next step of a tool call.
#[derive(Debug)]
pub enum ToolOutcome {
    /// The call is over.
    Finished(ToolResult),
    /// The call needs this outside work done first.
    Io(IoRequest),
}

/// A step of a tool call as characters.
pub ghost enum ToolOutcomeView {
    Finished(ToolResultView),
    Io(IoRequestView),
}

impl View for ToolOutcome {
    type V = ToolOutcomeView;

    open spec fn view(&self) -> ToolOutcomeView {
        match self {
            ToolOutcome::Finished(r) => ToolOutcomeView::Finished(r@),
            ToolOutcome::Io(q) => ToolOutcomeView::Io(q@),
        }
    }
}

/// The call ends with an error carrying `msg`.
pub open spec fn fails_with(msg: Seq<char>) -> ToolOutcomeView {
    ToolOutcomeView::Finished(ToolResultView::Error(msg))
}

/// Something the agent can call.
pub trait Tool {
    /// How the tool describes itself.
    spec fn tool_spec(&self) -> ToolSpecView;

    /// What a call with arguments `args` does first.
    spec fn plan(&self, args: Map<Seq<char>, Seq<char>>) -> ToolOutcomeView;

    /// How the tool describes itself.
    fn spec(&self) -> (r: &ToolSpec)
        ensures
            r@ == self.tool_spec(),
    ;

    /// Plans a call with `args`: finished at once, or outside work to do first.
    fn execute(&self, args: &StringMap) -> (r: ToolOutcome)
        ensures
            r@ == self.plan(args@),
    ;
}

/// No two tools share a name.
pub open spec fn names_unique<T: Tool>(tools: Seq<T>) -> bool {
    forall|i: int, j: int|
        0 <= i < tools.len() && 0 <= j < tools.len() && i != j ==> #[trigger] tools[i].tool_spec().name
            != #[trigger] tools[j].tool_spec().name
}

/// Some tool is named `name`.
pub open spec fn has_tool<T: Tool>(tools: Seq<T>, name: Seq<char>) -> bool {
    exists|i: int| 0 <= i < tools.len() && tools[i].tool_spec().name == name
}

/// The position of the tool named `name` (meaningful when there is one).
pub open spec fn tool_index<T: Tool>(tools: Seq<T>, name: Seq<char>) -> int {
    choose|i: int| 0 <= i < tools.len() && tools[i].tool_spec().name == name
}

/// `tools` with `tool` registered under its name: a tool of that name is
/// replaced in place, or `tool` is appended (a map insert).
pub open spec fn with_tool<T: Tool>(tools: Seq<T>, tool: T) -> Seq<T> {
    if has_tool(tools, tool.tool_spec().name) {
        tools.update(tool_index(tools, tool.tool_spec().name), tool)
    } else {
        tools.push(tool)
    }
}

/// What a call of the tool named `name` with `args` does first: an "Unknown
/// tool" error when none has that name; a request for approval, with no
/// outside work planned, when that tool requires approval and the call is not
/// approved; else the plan of that tool.
pub open spec fn dispatch<T: Tool>(
    tools: Seq<T>,
    name: Seq<char>,
    args: Map<Seq<char>, Seq<char>>,
    approved: bool,
) -> ToolOutcomeView {
    if !has_tool(tools, name) {
        fails_with("Unknown tool: "@ + name)
    } else if tools[tool_index(tools, name)].tool_spec().requires_approval && !approved {
        ToolOutcomeView::Finished(ToolResultView::NeedsApproval(name))
    } else {
        tools[tool_index(tools, name)].plan(args)
    }
}

/// The tools the agent can call, at most one per name.
pub struct ToolRegistry<T: Tool> {
    tools: Vec<T>,
}

impl<T: Tool> ToolRegistry<T> {
    /// Names are unique, as the keys of a map are.
    #[verifier::type_invariant]
    closed spec fn wf(self) -> bool {
        names_unique(self.tools@)
    }

    /// The registered tools, in the order they were first registered.
    pub closed spec fn tools_view(&self) -> Seq<T> {
        self.tools@
    }

    /// An empty registry.
    pub fn new() -> (r: Self)
        ensures
            r.tools_view() == Seq::<T>::empty(),
            names_unique(r.tools_view()),
    {
        ToolRegistry { tools: Vec::new() }
    }

    /// The position of the tool named `name`, if any.
    fn find(&self, name: &str) -> (r: Option<usize>)
        ensures
            r is Some <==> has_tool(self.tools_view(), name@),
            r matches Some(i) ==> i == tool_index(self.tools_view(), name@) && i < self.tools_view().len(),
    {
        proof {
            use_type_invariant(self);
        }
        let key = to_owned_string(name);
        let mut i: usize = 0;
        while i < self.tools.len()
            invariant
                i <= self.tools@.len(),
                key@ == name@,
                names_unique(self.tools@),
                forall|j: int| 0 <= j < i ==> self.tools@[j].tool_spec().name != name@,
            decreases self.tools.len() - i,
        {
            if self.tools[i].spec().name == key {
                proof {
                    let t = self.tools@;
                    assert(t[i as int].tool_spec().name == name@);
                    let c = tool_index(t, name@);
                    assert(0 <= c < t.len() && t[c].tool_spec().name == name@);
                    assert(c == i);
                }
                return Some(i);
            }
            i = i + 1;
        }
        None
    }

    /// Registers `tool` under its name, replacing a tool of the same name.
    pub fn register(&mut self, tool: T)
        ensures
            final(self).tools_view() == with_tool(old(self).tools_view(), tool),
            names_unique(final(self).tools_view()),
    {
        proof {
            use_type_invariant(&*self);
        }
        let ghost old_tools = self.tools@;
        let ghost t = tool;
        let name = tool.spec().name.clone();
        let found = self.find(name.as_str());
        let mut tools: Vec<T> = Vec::new();
        std::mem::swap(&mut tools, &mut self.tools);
        match found {
            Some(i) => {
                tools.set(i, tool);
                assert(tools@ == old_tools.update(i as int, t));
            },
            None => {
                tools.push(tool);
                assert(tools@ == old_tools.push(t));
            },
        }
        self.tools = tools;
    }

    /// The tool named `name`.
    pub fn get(&self, name: &str) -> (r: Option<&T>)
        ensures
            r is Some <==> has_tool(self.tools_view(), name@),
            r matches Some(t) ==> *t == self.tools_view()[tool_index(self.tools_view(), name@)],
    {
        match self.find(name) {
            Some(i) => Some(&self.tools[i]),
            None => None,
        }
    }

    /// How each registered tool describes itself, in registration order.
    pub fn all_specs(&self) -> (r: Vec<&ToolSpec>)
        ensures
            r@.len() == self.tools_view().len(),
            forall|i: int| 0 <= i < r@.len() ==> #[trigger] r@[i]@ == self.tools_view()[i].tool_spec(),
    {
        let mut out: Vec<&ToolSpec> = Vec::new();
        let mut i: usize = 0;
        while i < self.tools.len()
            invariant
                i <= self.tools@.len(),
                out@.len() == i,
                forall|j: int| 0 <= j < i ==> #[trigger] out@[j]@ == self.tools@[j].tool_spec(),
            decreases self.tools.len() - i,
        {
            out.push(self.tools[i].spec());
            i = i + 1;
        }
        out
    }

    /// Dispatches `call` to the tool it names, unless that tool requires an
    /// approval that the call does not carry.
    pub fn execute(&self, call: &ToolCall) -> (r: ToolOutcome)
        ensures
            r@ == dispatch(self.tools_view(), call.tool@, call.args@, call.approved),
    {
        match self.find(call.tool.as_str()) {
            Some(i) => {
                if self.tools[i].spec().requires_approval && !call.approved {
                    ToolOutcome::Finished(ToolResult::NeedsApproval { action: call.tool.clone() })
                } else {
                    self.tools[i].execute(&call.args)
                }
            },
            None => {
                let mut message = to_owned_string("Unknown tool: ");
                push_str(&mut message, call.tool.as_str());
                ToolOutcome::Finished(ToolResult::Error { message })
            },
        }
    }
}

/// Registering a tool makes it the one found under its name, and keeps the
/// names unique.
pub proof fn lemma_register_then_lookup<T: Tool>(tools: Seq<T>, tool: T)
    requires
        names_unique(tools),
    ensures
        names_unique(with_tool(tools, tool)),
        has_tool(with_tool(tools, tool), tool.tool_spec().name),
        with_tool(tools, tool)[tool_index(with_tool(tools, tool), tool.tool_spec().name)] == tool,
{
    let n = tool.tool_spec().name;
    let w = with_tool(tools, tool);
    if has_tool(tools, n) {
        let k = tool_index(tools, n);
        assert(w[k].tool_spec().name == n);
        assert forall|i: int, j: int|
            0 <= i < w.len() && 0 <= j < w.len() && i != j implies #[trigger] w[i].tool_spec().name
                != #[trigger] w[j].tool_spec().name by {
            if i != k && j != k {
                assert(w[i] == tools[i] && w[j] == tools[j]);
            } else if i == k {
                assert(w[j] == tools[j]);
                assert(tools[k].tool_spec().name == n);
            } else {
                assert(w[i] == tools[i]);
                assert(tools[k].tool_spec().name == n);
            }
        }
        let c = tool_index(w, n);
        assert(w[c].tool_spec().name == n);
        assert(c == k);
    } else {
        let k = tools.len() as int;
        assert(w[k].tool_spec().name == n);
        assert forall|i: int, j: int|
            0 <= i < w.len() && 0 <= j < w.len() && i != j implies #[trigger] w[i].tool_spec().name
                != #[trigger] w[j].tool_spec().name by {
            if i != k && j != k {
                assert(w[i] == tools[i] && w[j] == tools[j]);
            } else if i == k {
                assert(w[j] == tools[j]);
            } else {
                assert(w[i] == tools[i]);
            }
        }
        let c = tool_index(w, n);
        assert(w[c].tool_spec().name == n);
        assert(c == k);
    }
}

/// A call of a tool that requires approval is answered with a request for
/// approval, and plans no outside work, until the call is approved; once
/// approved, or for a tool that needs no approval, the tool's own plan runs.
pub proof fn lemma_approval_gates_calls<T: Tool>(
    tools: Seq<T>,
    name: Seq<char>,
    args: Map<Seq<char>, Seq<char>>,
)
    requires
        has_tool(tools, name),
    ensures
        tools[tool_index(tools, name)].tool_spec().requires_approval ==> dispatch(tools, name, args, false)
            == ToolOutcomeView::Finished(ToolResultView::NeedsApproval(name)),
        !(dispatch(tools, name, args, false) is Io) || !tools[tool_index(
            tools,
            name,
        )].tool_spec().requires_approval,
        dispatch(tools, name, args, true) == tools[tool_index(tools, name)].plan(args),
        !tools[tool_index(tools, name)].tool_spec().requires_approval ==> dispatch(tools, name, args, false)
            == tools[tool_index(tools, name)].plan(args),
{
}

/// One of the tools the library provides.
pub enum BuiltinTool {
    ReadFile(ReadFileTool),
    WriteFile(WriteFileTool),
    EditFile(EditFileTool),
    SearchWorkspace(SearchWorkspaceTool),
    RunTerminal(RunTerminalTool),
    WebSearch(WebSearchTool),
}

impl Tool for BuiltinTool {
    open spec fn tool_spec(&self) -> ToolSpecView {
        match self {
            BuiltinTool::ReadFile(t) => t.tool_spec(),
            BuiltinTool::WriteFile(t) => t.tool_spec(),
            BuiltinTool::EditFile(t) => t.tool_spec(),
            BuiltinTool::SearchWorkspace(t) => t.tool_spec(),
            BuiltinTool::RunTerminal(t) => t.tool_spec(),
            BuiltinTool::WebSearch(t) => t.tool_spec(),
        }
    }

    open spec fn plan(&self, args: Map<Seq<char>, Seq<char>>) -> ToolOutcomeView {
        match self {
            BuiltinTool::ReadFile(t) => t.plan(args),
            BuiltinTool::WriteFile(t) => t.plan(args),
            BuiltinTool::EditFile(t) => t.plan(args),
            BuiltinTool::SearchWorkspace(t) => t.plan(args),
            BuiltinTool::RunTerminal(t) => t.plan(args),
            BuiltinTool::WebSearch(t) => t.plan(args),
        }
    }

    fn spec(&self) -> (r: &ToolSpec) {
        match self {
            BuiltinTool::ReadFile(t) => t.spec(),
            BuiltinTool::WriteFile(t) => t.spec(),
            BuiltinTool::EditFile(t) => t.spec(),
            BuiltinTool::SearchWorkspace(t) => t.spec(),
            BuiltinTool::RunTerminal(t) => t.spec(),
            BuiltinTool::WebSearch(t) => t.spec(),
        }
    }

    fn execute(&self, args: &StringMap) -> (r: ToolOutcome) {
        match self {
            BuiltinTool::ReadFile(t) => t.execute(args),
            BuiltinTool::WriteFile(t) => t.execute(args),
            BuiltinTool::EditFile(t) => t.execute(args),
            BuiltinTool::SearchWorkspace(t) => t.execute(args),
            BuiltinTool::RunTerminal(t) => t.execute(args),
            BuiltinTool::WebSearch(t) => t.execute(args),
        }
    }
}

/// The next step after the outside work for `req` replied `reply`.
pub open spec fn resume_spec(req: IoRequest, reply: IoReply) -> ToolOutcomeView {
    match (req, reply) {
        (IoRequest::ReadFile { path }, IoReply::FileRead(read)) => ToolOutcomeView::Finished(
            read_result_spec(path@, read),
        ),
        (IoRequest::WriteFile { path, content }, IoReply::FileWritten(w)) => ToolOutcomeView::Finished(
            write_result_spec(path@, content@, w),
        ),
        (IoRequest::EditRead { path, old_string, new_string }, IoReply::FileRead(read)) => edit_read_spec(
            path@,
            old_string@,
            new_string@,
            read,
        ),
        (IoRequest::EditWrite { path, replaced, .. }, IoReply::FileWritten(w)) => ToolOutcomeView::Finished(
            edit_write_spec(path@, replaced as nat, w),
        ),
        (IoRequest::ListWorkspace { root, pattern, glob }, IoReply::Workspace(files)) => ToolOutcomeView::Finished(
            search_result_spec(root@, pattern@, opt_view(glob), files),
        ),
        (IoRequest::RunCommand { command, timeout_secs, .. }, IoReply::Command(c)) => ToolOutcomeView::Finished(
            command_result_spec(command@, timeout_secs as nat, c),
        ),
        (IoRequest::FetchSearch { .. }, IoReply::Search(s)) => ToolOutcomeView::Finished(
            web_result_spec(s),
        ),
        _ => fails_with(Seq::empty()),
    }
}

/// Carries a tool call on after the outside work for `request` is done.
pub fn resume(request: IoRequest, reply: IoReply) -> (r: ToolOutcome)
    requires
        reply_fits(request, reply),
    ensures
        r@ == resume_spec(request, reply),
{
    match (request, reply) {
        (IoRequest::ReadFile { path }, IoReply::FileRead(read)) => ToolOutcome::Finished(
            ReadFileTool::finish(path.as_str(), read),
        ),
        (IoRequest::WriteFile { path, content }, IoReply::FileWritten(w)) => ToolOutcome::Finished(
            WriteFileTool::finish(path.as_str(), content.as_str(), w),
        ),
        (IoRequest::EditRead { path, old_string, new_string }, IoReply::FileRead(read)) => EditFileTool::after_read(
            path.as_str(),
            old_string.as_str(),
            new_string.as_str(),
            read,
        ),
        (IoRequest::EditWrite { path, replaced, .. }, IoReply::FileWritten(w)) => ToolOutcome::Finished(
            EditFileTool::after_write(path.as_str(), replaced, w),
        ),
        (IoRequest::ListWorkspace { root, pattern, glob }, IoReply::Workspace(files)) => ToolOutcome::Finished(
            SearchWorkspaceTool::finish(root.as_str(), pattern.as_str(), glob, files),
        ),
        (IoRequest::RunCommand { command, timeout_secs, .. }, IoReply::Command(c)) => ToolOutcome::Finished(
            RunTerminalTool::finish(command.as_str(), timeout_secs, c),
        ),
        (IoRequest::FetchSearch { .. }, IoReply::Search(s)) => ToolOutcome::Finished(
            WebSearchTool::finish(s),
        ),
        _ => ToolOutcome::Finished(ToolResult::Error { message: String::new() }),
    }
}

} // verus!
