//! What the agent is told about the workspace: its root, the active file,
//! the selection and the files found under the root.

use vstd::prelude::*;
use crate::sdk::agent::{AgentContext, AgentMode};
use crate::agent::tools::file_tools::display_path;
use crate::text::{
    chars_of, decimal_spec, join_exec, join_spec, push_decimal, push_str, strip_path_prefix,
    to_owned_string,
};

verus! {

/// The workspace as the agent sees it when a request starts.
#[derive(Debug, Clone)]
pub struct WorkspaceContext {
    pub workspace_root: Option<String>,
    pub active_file: Option<String>,
    pub selected_text: Option<String>,
    pub files_in_workspace: Vec<String>,
}

/// Builds the context of requests for one workspace.
#[derive(Debug)]
pub struct ContextManager {
    pub workspace_root: Option<String>,
}

/// The characters of an optional string.
pub open spec fn opt_chars(o: Option<String>) -> Option<Seq<char>> {
    match o {
        Some(s) => Some(s@),
        None => None,
    }
}

/// A copy of an optional string.
pub fn clone_opt(o: &Option<String>) -> (r: Option<String>)
    ensures
        r == *o,
{
    match o {
        Some(s) => Some(s.clone()),
        None => None,
    }
}

/// The most files listed in the prompt.
pub open spec fn max_listed_files() -> nat {
    30
}

/// How a file is shown in the prompt: relative to the root when it lies
/// under it, else as it is.
pub open spec fn shown_file(root: Option<Seq<char>>, file: Seq<char>) -> Seq<char> {
    match root {
        Some(r) => display_path(r, file),
        None => file,
    }
}

/// The files shown in the prompt: the first 30, each as `shown_file`.
pub open spec fn shown_files(root: Option<Seq<char>>, files: Seq<Seq<char>>) -> Seq<Seq<char>> {
    let n = if files.len() > max_listed_files() { max_listed_files() } else { files.len() };
    files.take(n as int).map_values(|f: Seq<char>| shown_file(root, f))
}

/// The paragraphs of the prompt, each present only when its part of the
/// context is.
pub open spec fn context_parts(
    root: Option<Seq<char>>,
    active: Option<Seq<char>>,
    selected: Option<Seq<char>>,
    files: Seq<Seq<char>>,
) -> Seq<Seq<char>> {
    (match root {
        Some(r) => seq!["Workspace root: "@ + r],
        None => Seq::empty(),
    }) + (match active {
        Some(f) => seq!["Active file: "@ + f],
        None => Seq::empty(),
    }) + (match selected {
        Some(t) => seq!["Selected text:\n```\n"@ + t + "\n```"@],
        None => Seq::empty(),
    }) + (if files.len() > 0 {
        let shown = shown_files(root, files);
        seq![
            "Files in workspace (showing "@ + decimal_spec(shown.len()) + " of "@ + decimal_spec(
                files.len(),
            ) + "):\n"@ + join_spec(shown, "\n"@),
        ]
    } else {
        Seq::empty()
    })
}

/// The prompt text for the parts of a context: its paragraphs separated by
/// blank lines.
pub open spec fn prompt_of(
    root: Option<Seq<char>>,
    active: Option<Seq<char>>,
    selected: Option<Seq<char>>,
    files: Seq<Seq<char>>,
) -> Seq<char> {
    join_spec(context_parts(root, active, selected, files), "\n\n"@)
}

/// The prompt text for a context.
pub open spec fn context_prompt(ctx: WorkspaceContext) -> Seq<char> {
    prompt_of(
        opt_chars(ctx.workspace_root),
        opt_chars(ctx.active_file),
        opt_chars(ctx.selected_text),
        ctx.files_in_workspace@.map_values(|f: String| f@),
    )
}

/// How `file` is shown, computed.
fn show_file(root: &Option<String>, file: &String) -> (r: String)
    ensures
        r@ == shown_file(opt_chars(*root), file@),
{
    match root {
        Some(rt) => {
            let fv = chars_of(file.as_str());
            let rv = chars_of(rt.as_str());
            match strip_path_prefix(&fv, &rv) {
                Some(rel) => rel,
                None => file.clone(),
            }
        },
        None => file.clone(),
    }
}

impl ContextManager {
    /// A context manager for the workspace at `workspace_root`, if any.
    pub fn new(workspace_root: Option<String>) -> (r: Self)
        ensures
            r.workspace_root == workspace_root,
    {
        ContextManager { workspace_root }
    }

    /// The context of a request. `files` are the files a walk of the
    /// workspace root found; they are kept only when there is a root.
    pub fn build_context(
        &self,
        mode: AgentMode,
        active_file: Option<String>,
        selected_text: Option<String>,
        files: Vec<String>,
    ) -> (r: WorkspaceContext)
        ensures
            r.workspace_root == self.workspace_root,
            r.active_file == active_file,
            r.selected_text == selected_text,
            r.files_in_workspace@ == (if self.workspace_root is Some {
                files@
            } else {
                Seq::empty()
            }),
    {
        let files_in_workspace = if self.workspace_root.is_some() {
            files
        } else {
            Vec::new()
        };
        WorkspaceContext {
            workspace_root: clone_opt(&self.workspace_root),
            active_file,
            selected_text,
            files_in_workspace,
        }
    }

    /// The context as an agent receives it, with no provider chosen.
    pub fn to_agent_context(&self, ctx: &WorkspaceContext, mode: AgentMode) -> (r: AgentContext)
        ensures
            r.workspace_root == ctx.workspace_root,
            r.active_file == ctx.active_file,
            r.selected_text == ctx.selected_text,
            r.provider_id is None,
            r.mode == mode,
    {
        AgentContext {
            workspace_root: clone_opt(&ctx.workspace_root),
            active_file: clone_opt(&ctx.active_file),
            selected_text: clone_opt(&ctx.selected_text),
            provider_id: None,
            mode,
        }
    }

    /// The context written out for the model (see `context_prompt`).
    pub fn format_context_prompt(&self, ctx: &WorkspaceContext) -> (r: String)
        ensures
            r@ == context_prompt(*ctx),
    {
        let ghost root = opt_chars(ctx.workspace_root);
        let ghost fs = ctx.files_in_workspace@.map_values(|f: String| f@);
        let mut parts: Vec<String> = Vec::new();
        let ghost mut expect: Seq<Seq<char>> = Seq::empty();
        match &ctx.workspace_root {
            Some(rt) => {
                let mut p = to_owned_string("Workspace root: ");
                push_str(&mut p, rt.as_str());
                proof {
                    expect = expect.push(p@);
                }
                let ghost prev = parts@;
                parts.push(p);
                assert(parts@.map_values(|s: String| s@) =~= prev.map_values(|s: String| s@).push(expect.last()));
            },
            None => {},
        }
        match &ctx.active_file {
            Some(f) => {
                let mut p = to_owned_string("Active file: ");
                push_str(&mut p, f.as_str());
                proof {
                    expect = expect.push(p@);
                }
                let ghost prev = parts@;
                parts.push(p);
                assert(parts@.map_values(|s: String| s@) =~= prev.map_values(|s: String| s@).push(expect.last()));
            },
            None => {},
        }
        match &ctx.selected_text {
            Some(t) => {
                let mut p = to_owned_string("Selected text:\n```\n");
                push_str(&mut p, t.as_str());
                push_str(&mut p, "\n```");
                proof {
                    expect = expect.push(p@);
                }
                let ghost prev = parts@;
                parts.push(p);
                assert(parts@.map_values(|s: String| s@) =~= prev.map_values(|s: String| s@).push(expect.last()));
            },
            None => {},
        }
        let total = ctx.files_in_workspace.len();
        if total > 0 {
            let n: usize = if total > 30 {
                30
            } else {
                total
            };
            let mut shown: Vec<String> = Vec::new();
            let mut i: usize = 0;
            while i < n
                invariant
                    i <= n,
                    n <= ctx.files_in_workspace@.len(),
                    n == (if ctx.files_in_workspace@.len() > max_listed_files() {
                        max_listed_files()
                    } else {
                        ctx.files_in_workspace@.len()
                    }),
                    root == opt_chars(ctx.workspace_root),
                    fs == ctx.files_in_workspace@.map_values(|f: String| f@),
                    shown@.map_values(|s: String| s@) == fs.take(i as int).map_values(
                        |f: Seq<char>| shown_file(root, f),
                    ),
                decreases n - i,
            {
                let s = show_file(&ctx.workspace_root, &ctx.files_in_workspace[i]);
                let ghost prev = shown@;
                shown.push(s);
                proof {
                    assert(fs.take(i + 1) =~= fs.take(i as int).push(fs[i as int]));
                    assert(shown@.map_values(|s: String| s@) =~= prev.map_values(|s: String| s@).push(
                        s@,
                    ));
                    assert(fs.take(i + 1).map_values(|f: Seq<char>| shown_file(root, f))
                        =~= fs.take(i as int).map_values(|f: Seq<char>| shown_file(root, f)).push(
                        shown_file(root, fs[i as int]),
                    ));
                }
                i = i + 1;
            }
            let mut p = to_owned_string("Files in workspace (showing ");
            push_decimal(&mut p, n as u64);
            push_str(&mut p, " of ");
            push_decimal(&mut p, total as u64);
            push_str(&mut p, "):\n");
            let body = join_exec(&shown, "\n");
            push_str(&mut p, body.as_str());
            proof {
                assert(shown_files(root, fs) == fs.take(n as int).map_values(
                    |f: Seq<char>| shown_file(root, f),
                ));
                assert(shown_files(root, fs).len() == n);
                expect = expect.push(p@);
            }
            let ghost prev = parts@;
            parts.push(p);
            assert(parts@.map_values(|s: String| s@) =~= prev.map_values(|s: String| s@).push(expect.last()));
        }
        proof {
            assert(parts@.map_values(|s: String| s@) =~= expect);
            assert(expect =~= context_parts(
                root,
                opt_chars(ctx.active_file),
                opt_chars(ctx.selected_text),
                fs,
            ));
        }
        join_exec(&parts, "\n\n")
    }
}

} // verus!
