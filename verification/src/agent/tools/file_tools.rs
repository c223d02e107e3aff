//! Tools that read, write, edit and search files.

use vstd::prelude::*;
use crate::agent::tool_registry::{
    IoRequest, IoRequestView, Tool, ToolOutcome, ToolOutcomeView, ToolParam, ToolParamView,
    ToolResult, ToolResultView, ToolSpec, ToolSpecView, fails_with, make_param, opt_view,
};
use crate::agent::tools::pattern::{compile_regex, regex_compile_error, regex_is_match, CompiledRegex};
use crate::string_map::StringMap;
use crate::text::{
    file_name_exec, file_name_spec, lemma_file_name_of_joined, lemma_replace_char_concat,
    lemma_replace_single_char, replace_char_spec, strip_path_prefix, strip_path_prefix_spec, trim_range,
    trim_spec,
    contains_exec, contains_seq, count_from, count_spec, first_match_from, interleave_exec,
    lemma_first_match_is_match, replace_exec, replace_spec,
    chars_of, decimal_spec, join_exec, join_spec, lines_exec, lines_spec, push_decimal, push_str,
    to_owned_string, utf8_len,
};

verus! {

broadcast use vstd::string::group_string_axioms;

/// A tool description built from its parts.
pub fn make_spec(name: &str, description: &str, parameters: Vec<ToolParam>, requires_approval: bool) -> (r: ToolSpec)
    ensures
        r@ == (ToolSpecView {
            name: name@,
            description: description@,
            parameters: parameters@.map_values(|p: ToolParam| p@),
            requires_approval,
        }),
{
    ToolSpec {
        name: to_owned_string(name),
        description: to_owned_string(description),
        parameters,
        requires_approval,
    }
}

/// Appends `text`; a shorthand used when building messages.
fn put(s: &mut String, text: &str)
    ensures
        final(s)@ == old(s)@ + text@,
{
    push_str(s, text);
}

// ── Read File ──────────────────────────────────────────────────────────

/// How `read_file` describes itself.
pub open spec fn read_file_tool_spec() -> ToolSpecView {
    ToolSpecView {
        name: "read_file"@,
        description: "Read the contents of a file from the filesystem"@,
        parameters: seq![
            ToolParamView {
                name: "path"@,
                param_type: "string"@,
                description: "Path to the file"@,
                required: true,
            },
        ],
        requires_approval: false,
    }
}

/// What a `read_file` call with `args` does first.
pub open spec fn read_plan(args: Map<Seq<char>, Seq<char>>) -> ToolOutcomeView {
    if !args.dom().contains("path"@) {
        fails_with("Missing 'path' argument"@)
    } else {
        ToolOutcomeView::Io(IoRequestView::ReadFile { path: args["path"@] })
    }
}

/// The part of a file shown to the agent: all of it when it has at most 50
/// lines, otherwise its first 50 lines and a note of how many were left out.
pub open spec fn read_body_spec(content: Seq<char>) -> Seq<char> {
    let ls = lines_spec(content);
    if ls.len() > 50 {
        join_spec(ls.take(50), "\n"@) + "\n\n... ("@ + decimal_spec((ls.len() - 50) as nat)
            + " more lines, "@ + decimal_spec(ls.len()) + " total)"@
    } else {
        content
    }
}

/// The result of a `read_file` call once the read of `path` is done.
pub open spec fn read_result_spec(path: Seq<char>, read: Result<String, String>) -> ToolResultView {
    match read {
        Ok(content) => ToolResultView::Success(
            "File: "@ + path + "\n```\n"@ + read_body_spec(content@) + "\n```"@,
        ),
        Err(e) => ToolResultView::Error("Failed to read '"@ + path + "': "@ + e@),
    }
}

/// Reads a file.
pub struct ReadFileTool {
    spec: ToolSpec,
}

impl ReadFileTool {
    /// The `read_file` tool.
    pub fn default() -> (r: Self)
        ensures
            r.tool_spec() == read_file_tool_spec(),
    {
        let mut params: Vec<ToolParam> = Vec::new();
        params.push(make_param("path", "string", "Path to the file", true));
        let r = ReadFileTool { spec: make_spec("read_file", "Read the contents of a file from the filesystem", params, false) };
        assert(r.tool_spec().parameters =~= read_file_tool_spec().parameters);
        r
    }

    /// The result once the file at `path` was read (or failed to be).
    pub fn finish(path: &str, read: Result<String, String>) -> (r: ToolResult)
        ensures
            r@ == read_result_spec(path@, read),
    {
        match read {
            Ok(content) => {
                let mut out = String::new();
                put(&mut out, "File: ");
                put(&mut out, path);
                put(&mut out, "\n```\n");
                let body = read_body(&content);
                push_str(&mut out, body.as_str());
                put(&mut out, "\n```");
                assert(out@ =~= "File: "@ + path@ + "\n```\n"@ + read_body_spec(content@) + "\n```"@);
                ToolResult::Success { output: out }
            },
            Err(e) => {
                let mut out = String::new();
                put(&mut out, "Failed to read '");
                put(&mut out, path);
                put(&mut out, "': ");
                push_str(&mut out, e.as_str());
                assert(out@ =~= "Failed to read '"@ + path@ + "': "@ + e@);
                ToolResult::Error { message: out }
            },
        }
    }
}

/// The part of a file shown to the agent (see `read_body_spec`).
fn read_body(content: &String) -> (r: String)
    ensures
        r@ == read_body_spec(content@),
{
    let ls = lines_exec(&chars_of(content.as_str()));
    let n = ls.len();
    if n > 50 {
        let mut first: Vec<String> = Vec::new();
        let mut i: usize = 0;
        while i < 50
            invariant
                50 < n == ls@.len(),
                i <= 50,
                first@.map_values(|s: String| s@) == ls@.map_values(|s: String| s@).take(i as int),
            decreases 50 - i,
        {
            let ghost prev = first@;
            let t = ls[i].clone();
            first.push(t);
            assert(first@.map_values(|s: String| s@) =~= prev.map_values(|s: String| s@).push(t@));
            assert(ls@.map_values(|s: String| s@).take(i + 1) =~= ls@.map_values(|s: String| s@).take(i as int).push(ls@[i as int]@));
            i = i + 1;
        }
        let mut out = join_exec(&first, "\n");
        put(&mut out, "\n\n... (");
        push_decimal(&mut out, (n - 50) as u64);
        put(&mut out, " more lines, ");
        push_decimal(&mut out, n as u64);
        put(&mut out, " total)");
        let ghost ls_v = lines_spec(content@);
        assert(out@ =~= join_spec(ls_v.take(50), "\n"@) + "\n\n... ("@ + decimal_spec((ls_v.len() - 50) as nat)
            + " more lines, "@ + decimal_spec(ls_v.len()) + " total)"@);
        out
    } else {
        content.clone()
    }
}

impl Tool for ReadFileTool {
    closed spec fn tool_spec(&self) -> ToolSpecView {
        self.spec@
    }

    open spec fn plan(&self, args: Map<Seq<char>, Seq<char>>) -> ToolOutcomeView {
        read_plan(args)
    }

    fn spec(&self) -> (r: &ToolSpec) {
        &self.spec
    }

    fn execute(&self, args: &StringMap) -> (r: ToolOutcome) {
        match args.get("path") {
            Some(p) => ToolOutcome::Io(IoRequest::ReadFile { path: p.clone() }),
            None => ToolOutcome::Finished(ToolResult::Error { message: to_owned_string("Missing 'path' argument") }),
        }
    }
}


// ── Write File ─────────────────────────────────────────────────────────

/// How `write_file` describes itself.
pub open spec fn write_file_tool_spec() -> ToolSpecView {
    ToolSpecView {
        name: "write_file"@,
        description: "Write content to a file. Creates parent directories if needed."@,
        parameters: seq![
            ToolParamView {
                name: "path"@,
                param_type: "string"@,
                description: "Path to the file"@,
                required: true,
            },
            ToolParamView {
                name: "content"@,
                param_type: "string"@,
                description: "Content to write"@,
                required: true,
            },
        ],
        requires_approval: true,
    }
}

/// What a `write_file` call with `args` does first.
pub open spec fn write_plan(args: Map<Seq<char>, Seq<char>>) -> ToolOutcomeView {
    if !args.dom().contains("path"@) {
        fails_with("Missing 'path' argument"@)
    } else if !args.dom().contains("content"@) {
        fails_with("Missing 'content' argument"@)
    } else {
        ToolOutcomeView::Io(
            IoRequestView::WriteFile { path: args["path"@], content: args["content"@] },
        )
    }
}

/// The result of a `write_file` call once the write is done; the size is
/// counted in UTF-8 bytes.
pub open spec fn write_result_spec(path: Seq<char>, content: Seq<char>, w: Result<(), WriteFailure>) -> ToolResultView {
    match w {
        Ok(_) => ToolResultView::Success(
            "Wrote "@ + decimal_spec(utf8_len(content)) + " bytes to "@ + path,
        ),
        Err(WriteFailure::CreateDirs(e)) => ToolResultView::Error(
            "Failed to create directories: "@ + e@,
        ),
        Err(WriteFailure::Write(e)) => ToolResultView::Error(
            "Failed to write '"@ + path + "': "@ + e@,
        ),
    }
}

/// Writes a file, creating its parent directories.
pub struct WriteFileTool {
    spec: ToolSpec,
}

impl WriteFileTool {
    /// The `write_file` tool.
    pub fn default() -> (r: Self)
        ensures
            r.tool_spec() == write_file_tool_spec(),
    {
        let mut params: Vec<ToolParam> = Vec::new();
        params.push(make_param("path", "string", "Path to the file", true));
        params.push(make_param("content", "string", "Content to write", true));
        let r = WriteFileTool {
            spec: make_spec(
                "write_file",
                "Write content to a file. Creates parent directories if needed.",
                params,
                true,
            ),
        };
        assert(r.tool_spec().parameters =~= write_file_tool_spec().parameters);
        r
    }

    /// The result once `content` was written to `path` (or failed to be).
    pub fn finish(path: &str, content: &str, w: Result<(), WriteFailure>) -> (r: ToolResult)
        ensures
            r@ == write_result_spec(path@, content@, w),
    {
        let mut out = String::new();
        match w {
            Ok(_) => {
                put(&mut out, "Wrote ");
                push_decimal(&mut out, content.len() as u64);
                put(&mut out, " bytes to ");
                put(&mut out, path);
                assert(out@ =~= "Wrote "@ + decimal_spec(utf8_len(content@)) + " bytes to "@ + path@);
                ToolResult::Success { output: out }
            },
            Err(WriteFailure::CreateDirs(e)) => {
                put(&mut out, "Failed to create directories: ");
                push_str(&mut out, e.as_str());
                ToolResult::Error { message: out }
            },
            Err(WriteFailure::Write(e)) => {
                put(&mut out, "Failed to write '");
                put(&mut out, path);
                put(&mut out, "': ");
                push_str(&mut out, e.as_str());
                assert(out@ =~= "Failed to write '"@ + path@ + "': "@ + e@);
                ToolResult::Error { message: out }
            },
        }
    }
}

impl Tool for WriteFileTool {
    closed spec fn tool_spec(&self) -> ToolSpecView {
        self.spec@
    }

    open spec fn plan(&self, args: Map<Seq<char>, Seq<char>>) -> ToolOutcomeView {
        write_plan(args)
    }

    fn spec(&self) -> (r: &ToolSpec) {
        &self.spec
    }

    fn execute(&self, args: &StringMap) -> (r: ToolOutcome) {
        let path = match args.get("path") {
            Some(p) => p,
            None => {
                return ToolOutcome::Finished(
                    ToolResult::Error { message: to_owned_string("Missing 'path' argument") },
                )
            },
        };
        let content = match args.get("content") {
            Some(c) => c,
            None => {
                return ToolOutcome::Finished(
                    ToolResult::Error { message: to_owned_string("Missing 'content' argument") },
                )
            },
        };
        ToolOutcome::Io(IoRequest::WriteFile { path: path.clone(), content: content.clone() })
    }
}

// ── Edit File ──────────────────────────────────────────────────────────

/// How `edit_file` describes itself.
pub open spec fn edit_file_tool_spec() -> ToolSpecView {
    ToolSpecView {
        name: "edit_file"@,
        description: "Apply a search-and-replace edit to a file"@,
        parameters: seq![
            ToolParamView {
                name: "path"@,
                param_type: "string"@,
                description: "Path to the file"@,
                required: true,
            },
            ToolParamView {
                name: "old_string"@,
                param_type: "string"@,
                description: "Text to search for (must match exactly)"@,
                required: true,
            },
            ToolParamView {
                name: "new_string"@,
                param_type: "string"@,
                description: "Replacement text"@,
                required: true,
            },
        ],
        requires_approval: true,
    }
}

/// What an `edit_file` call with `args` does first.
pub open spec fn edit_plan(args: Map<Seq<char>, Seq<char>>) -> ToolOutcomeView {
    if !args.dom().contains("path"@) {
        fails_with("Missing 'path' argument"@)
    } else if !args.dom().contains("old_string"@) {
        fails_with("Missing 'old_string' argument"@)
    } else if !args.dom().contains("new_string"@) {
        fails_with("Missing 'new_string' argument"@)
    } else {
        ToolOutcomeView::Io(
            IoRequestView::EditRead {
                path: args["path"@],
                old_string: args["old_string"@],
                new_string: args["new_string"@],
            },
        )
    }
}

/// `n`, capped at `usize::MAX`.
pub open spec fn cap_usize(n: nat) -> nat {
    if n > usize::MAX {
        usize::MAX as nat
    } else {
        n
    }
}

/// What an edit does once the file is read: fail when the read failed or
/// `old` does not occur; otherwise write back the file with every
/// occurrence of `old` replaced by `new`.
pub open spec fn edit_read_spec(path: Seq<char>, old: Seq<char>, new: Seq<char>, read: Result<String, String>) -> ToolOutcomeView {
    match read {
        Err(e) => fails_with("Failed to read '"@ + path + "': "@ + e@),
        Ok(content) => if !contains_seq(content@, old) {
            fails_with("Could not find '"@ + old + "' in "@ + path)
        } else {
            ToolOutcomeView::Io(
                IoRequestView::EditWrite {
                    path,
                    content: replace_spec(content@, old, new),
                    replaced: cap_usize(count_spec(content@, old)),
                },
            )
        },
    }
}

/// The result of an edit once the new contents were written.
pub open spec fn edit_write_spec(path: Seq<char>, replaced: nat, w: Result<(), WriteFailure>) -> ToolResultView {
    match w {
        Ok(_) => ToolResultView::Success(
            "Edited "@ + path + ": replaced "@ + decimal_spec(replaced) + " occurrence(s)"@,
        ),
        Err(WriteFailure::CreateDirs(e)) => ToolResultView::Error(
            "Failed to write '"@ + path + "': "@ + e@,
        ),
        Err(WriteFailure::Write(e)) => ToolResultView::Error(
            "Failed to write '"@ + path + "': "@ + e@,
        ),
    }
}

/// Applies a search-and-replace edit to a file.
pub struct EditFileTool {
    spec: ToolSpec,
}

impl EditFileTool {
    /// The `edit_file` tool.
    pub fn default() -> (r: Self)
        ensures
            r.tool_spec() == edit_file_tool_spec(),
    {
        let mut params: Vec<ToolParam> = Vec::new();
        params.push(make_param("path", "string", "Path to the file", true));
        params.push(make_param("old_string", "string", "Text to search for (must match exactly)", true));
        params.push(make_param("new_string", "string", "Replacement text", true));
        let r = EditFileTool {
            spec: make_spec("edit_file", "Apply a search-and-replace edit to a file", params, true),
        };
        assert(r.tool_spec().parameters =~= edit_file_tool_spec().parameters);
        r
    }

    /// The next step once the file at `path` was read (or failed to be).
    pub fn after_read(path: &str, old: &str, new: &str, read: Result<String, String>) -> (r: ToolOutcome)
        ensures
            r@ == edit_read_spec(path@, old@, new@, read),
    {
        match read {
            Err(e) => {
                let mut out = String::new();
                put(&mut out, "Failed to read '");
                put(&mut out, path);
                put(&mut out, "': ");
                push_str(&mut out, e.as_str());
                assert(out@ =~= "Failed to read '"@ + path@ + "': "@ + e@);
                ToolOutcome::Finished(ToolResult::Error { message: out })
            },
            Ok(content) => {
                let cs = chars_of(content.as_str());
                let os = chars_of(old);
                let ns = chars_of(new);
                if !contains_exec(&cs, &os) {
                    let mut out = String::new();
                    put(&mut out, "Could not find '");
                    put(&mut out, old);
                    put(&mut out, "' in ");
                    put(&mut out, path);
                    assert(out@ =~= "Could not find '"@ + old@ + "' in "@ + path@);
                    return ToolOutcome::Finished(ToolResult::Error { message: out });
                }
                let (new_content, replaced) = if os.len() == 0 {
                    let n: usize = if cs.len() < usize::MAX {
                        cs.len() + 1
                    } else {
                        cs.len()
                    };
                    (interleave_exec(&cs, &ns), n)
                } else {
                    replace_exec(&cs, &os, &ns)
                };
                proof {
                    if os@.len() > 0 {
                        lemma_count_from_bounded(cs@, os@, 0);
                    }
                }
                ToolOutcome::Io(
                    IoRequest::EditWrite { path: to_owned_string(path), content: new_content, replaced },
                )
            },
        }
    }

    /// The result once the edited file was written (or failed to be).
    pub fn after_write(path: &str, replaced: usize, w: Result<(), WriteFailure>) -> (r: ToolResult)
        ensures
            r@ == edit_write_spec(path@, replaced as nat, w),
    {
        let mut out = String::new();
        match w {
            Ok(_) => {
                put(&mut out, "Edited ");
                put(&mut out, path);
                put(&mut out, ": replaced ");
                push_decimal(&mut out, replaced as u64);
                put(&mut out, " occurrence(s)");
                assert(out@ =~= "Edited "@ + path@ + ": replaced "@ + decimal_spec(replaced as nat) + " occurrence(s)"@);
                ToolResult::Success { output: out }
            },
            Err(WriteFailure::CreateDirs(e)) | Err(WriteFailure::Write(e)) => {
                put(&mut out, "Failed to write '");
                put(&mut out, path);
                put(&mut out, "': ");
                push_str(&mut out, e.as_str());
                assert(out@ =~= "Failed to write '"@ + path@ + "': "@ + e@);
                ToolResult::Error { message: out }
            },
        }
    }
}

impl Tool for EditFileTool {
    closed spec fn tool_spec(&self) -> ToolSpecView {
        self.spec@
    }

    open spec fn plan(&self, args: Map<Seq<char>, Seq<char>>) -> ToolOutcomeView {
        edit_plan(args)
    }

    fn spec(&self) -> (r: &ToolSpec) {
        &self.spec
    }

    fn execute(&self, args: &StringMap) -> (r: ToolOutcome) {
        let path = match args.get("path") {
            Some(p) => p,
            None => {
                return ToolOutcome::Finished(
                    ToolResult::Error { message: to_owned_string("Missing 'path' argument") },
                )
            },
        };
        let old = match args.get("old_string") {
            Some(s) => s,
            None => {
                return ToolOutcome::Finished(
                    ToolResult::Error { message: to_owned_string("Missing 'old_string' argument") },
                )
            },
        };
        let new = match args.get("new_string") {
            Some(s) => s,
            None => {
                return ToolOutcome::Finished(
                    ToolResult::Error { message: to_owned_string("Missing 'new_string' argument") },
                )
            },
        };
        ToolOutcome::Io(
            IoRequest::EditRead { path: path.clone(), old_string: old.clone(), new_string: new.clone() },
        )
    }
}

/// The number of occurrences never exceeds the length.
proof fn lemma_count_from_bounded(s: Seq<char>, pat: Seq<char>, pos: int)
    requires
        pat.len() > 0,
        0 <= pos <= s.len(),
    ensures
        count_from(s, pat, pos) <= s.len() - pos,
    decreases s.len() + 1 - pos,
{
    lemma_first_match_is_match(s, pat, pos);
    match first_match_from(s, pat, pos) {
        None => {},
        Some(k) => {
            lemma_count_from_bounded(s, pat, k + pat.len());
        },
    }
}

// ── Search Workspace ───────────────────────────────────────────────────

/// How `search_workspace` describes itself.
pub open spec fn search_workspace_tool_spec() -> ToolSpecView {
    ToolSpecView {
        name: "search_workspace"@,
        description: "Search for text in workspace files using regex"@,
        parameters: seq![
            ToolParamView {
                name: "pattern"@,
                param_type: "string"@,
                description: "Regex pattern to search for"@,
                required: true,
            },
            ToolParamView {
                name: "glob"@,
                param_type: "string"@,
                description: "Optional file glob filter (e.g. '*.rs')"@,
                required: false,
            },
        ],
        requires_approval: false,
    }
}

/// What a `search_workspace` call with `args` does first, for a tool rooted
/// at `root`.
pub open spec fn search_plan(root: Seq<char>, args: Map<Seq<char>, Seq<char>>) -> ToolOutcomeView {
    if !args.dom().contains("pattern"@) {
        fails_with("Missing 'pattern' argument"@)
    } else {
        ToolOutcomeView::Io(
            IoRequestView::ListWorkspace {
                root,
                pattern: args["pattern"@],
                glob: if args.dom().contains("glob"@) {
                    Some(args["glob"@])
                } else {
                    None
                },
            },
        )
    }
}

/// The regex a file glob stands for: `.` is literal, `*` any run of
/// characters and `?` one character, anchored at both ends.
pub open spec fn glob_regex_spec(glob: Seq<char>) -> Seq<char> {
    "^"@ + replace_spec(
        replace_spec(replace_spec(glob, "."@, "\\."@), "*"@, ".*"@),
        "?"@,
        "."@,
    ) + "$"@
}

/// Whether a path passes a file glob: its file name must match the glob's
/// regex. A path without a file name, or a glob whose regex does not
/// compile, lets everything pass.
pub open spec fn glob_match_spec(glob: Seq<char>, path: Seq<char>) -> bool {
    match file_name_spec(path) {
        None => true,
        Some(name) => match regex_compile_error(glob_regex_spec(glob)) {
            Some(_) => true,
            None => regex_is_match(glob_regex_spec(glob), name),
        },
    }
}

/// Does the file name of `path` match the glob (see `glob_match_spec`)?
pub fn glob_match(glob: &str, path: &str) -> (b: bool)
    ensures
        b == glob_match_spec(glob@, path@),
{
    match file_name_exec(&chars_of(path)) {
        None => true,
        Some(name) => {
            let g = chars_of(glob);
            let mut dot: Vec<char> = Vec::new();
            dot.push('.');
            let mut esc_dot: Vec<char> = Vec::new();
            esc_dot.push('\\');
            esc_dot.push('.');
            let mut star: Vec<char> = Vec::new();
            star.push('*');
            let mut any_run: Vec<char> = Vec::new();
            any_run.push('.');
            any_run.push('*');
            let mut qmark: Vec<char> = Vec::new();
            qmark.push('?');
            proof {
                reveal_strlit(".");
                reveal_strlit("\\.");
                reveal_strlit("*");
                reveal_strlit(".*");
                reveal_strlit("?");
                assert(dot@ =~= "."@);
                assert(esc_dot@ =~= "\\."@);
                assert(star@ =~= "*"@);
                assert(any_run@ =~= ".*"@);
                assert(qmark@ =~= "?"@);
            }
            let (a, _) = replace_exec(&g, &dot, &esc_dot);
            let (b, _) = replace_exec(&chars_of(a.as_str()), &star, &any_run);
            let (c, _) = replace_exec(&chars_of(b.as_str()), &qmark, &dot);
            let mut re = String::new();
            put(&mut re, "^");
            push_str(&mut re, c.as_str());
            put(&mut re, "$");
            assert(re@ =~= glob_regex_spec(glob@));
            match compile_regex(re.as_str()) {
                Err(_) => true,
                Ok(compiled) => compiled.is_match(name.as_str()),
            }
        },
    }
}

/// The regex text for one glob character: `.` matches only itself, `*`
/// any run of characters, `?` any one character, and every other character
/// itself.
pub open spec fn glob_char_regex(c: char) -> Seq<char> {
    if c == '.' {
        seq!['\\', '.']
    } else if c == '*' {
        seq!['.', '*']
    } else if c == '?' {
        seq!['.']
    } else {
        seq![c]
    }
}

/// The regex text for the characters of a glob, one after the other.
pub open spec fn glob_chars_regex(g: Seq<char>) -> Seq<char>
    decreases g.len(),
{
    if g.len() == 0 {
        Seq::empty()
    } else {
        glob_char_regex(g[0]) + glob_chars_regex(g.drop_first())
    }
}

/// The three replacements of `glob_regex_spec`, applied in turn.
spec fn glob_replaced(g: Seq<char>) -> Seq<char> {
    replace_char_spec(
        replace_char_spec(replace_char_spec(g, '.', seq!['\\', '.']), '*', seq!['.', '*']),
        '?',
        seq!['.'],
    )
}

/// The three replacements distribute over concatenation.
proof fn lemma_glob_replaced_concat(a: Seq<char>, b: Seq<char>)
    ensures
        glob_replaced(a + b) == glob_replaced(a) + glob_replaced(b),
{
    let e = seq!['\\', '.'];
    let st = seq!['.', '*'];
    let q = seq!['.'];
    lemma_replace_char_concat(a, b, '.', e);
    let a1 = replace_char_spec(a, '.', e);
    let b1 = replace_char_spec(b, '.', e);
    lemma_replace_char_concat(a1, b1, '*', st);
    let a2 = replace_char_spec(a1, '*', st);
    let b2 = replace_char_spec(b1, '*', st);
    lemma_replace_char_concat(a2, b2, '?', q);
}

/// One glob character goes through the three replacements as
/// `glob_char_regex` says.
proof fn lemma_glob_replaced_char(x: char)
    ensures
        glob_replaced(seq![x]) == glob_char_regex(x),
{
    reveal_with_fuel(replace_char_spec, 3);
    let e = seq!['\\', '.'];
    let st = seq!['.', '*'];
    let q = seq!['.'];
    assert(seq![x].drop_first() =~= Seq::<char>::empty());
    assert(e.drop_first() =~= seq!['.']);
    assert(seq!['.'].drop_first() =~= Seq::<char>::empty());
    assert(st.drop_first() =~= seq!['*']);
    assert(seq!['*'].drop_first() =~= Seq::<char>::empty());
    let r1 = replace_char_spec(seq![x], '.', e);
    let r2 = replace_char_spec(r1, '*', st);
    if x == '.' {
        assert(r1 =~= e);
        assert(replace_char_spec(seq!['.'], '*', st) =~= seq!['.']);
        assert(r2 =~= e);
        assert(replace_char_spec(seq!['.'], '?', q) =~= seq!['.']);
        assert(replace_char_spec(e, '?', q) =~= e);
    } else if x == '*' {
        assert(r1 =~= seq!['*']);
        assert(r2 =~= st);
        assert(replace_char_spec(seq!['*'], '?', q) =~= seq!['*']);
        assert(replace_char_spec(st, '?', q) =~= st);
    } else if x == '?' {
        assert(r1 =~= seq!['?']);
        assert(r2 =~= seq!['?']);
        assert(replace_char_spec(seq!['?'], '?', q) =~= q);
    } else {
        assert(r1 =~= seq![x]);
        assert(r2 =~= seq![x]);
        assert(replace_char_spec(seq![x], '?', q) =~= seq![x]);
    }
}

/// The three replacements give `glob_chars_regex`.
proof fn lemma_glob_replaced_chars(g: Seq<char>)
    ensures
        glob_replaced(g) == glob_chars_regex(g),
    decreases g.len(),
{
    if g.len() == 0 {
        reveal_with_fuel(replace_char_spec, 1);
    } else {
        let rest = g.drop_first();
        assert(g =~= seq![g[0]] + rest);
        lemma_glob_replaced_concat(seq![g[0]], rest);
        lemma_glob_replaced_char(g[0]);
        lemma_glob_replaced_chars(rest);
    }
}

/// A glob becomes its regex character by character, anchored at both ends
/// so that the whole file name must match: `.` matches only itself, `*` any
/// run of characters, `?` any one character, every other character itself.
pub proof fn lemma_glob_regex_per_char(g: Seq<char>)
    ensures
        glob_regex_spec(g) == "^"@ + glob_chars_regex(g) + "$"@,
{
    reveal_strlit(".");
    reveal_strlit("\\.");
    reveal_strlit("*");
    reveal_strlit(".*");
    reveal_strlit("?");
    assert("."@ =~= seq!['.']);
    assert("\\."@ =~= seq!['\\', '.']);
    assert("*"@ =~= seq!['*']);
    assert(".*"@ =~= seq!['.', '*']);
    assert("?"@ =~= seq!['?']);
    let e = seq!['\\', '.'];
    let st = seq!['.', '*'];
    lemma_replace_single_char(g, '.', e);
    let r1 = replace_char_spec(g, '.', e);
    lemma_replace_single_char(r1, '*', st);
    let r2 = replace_char_spec(r1, '*', st);
    lemma_replace_single_char(r2, '?', seq!['.']);
    lemma_glob_replaced_chars(g);
}

/// Whether a path passes a glob depends on its file name alone: a path
/// that ends in `name` after a separator, in any directory, passes exactly
/// when `name` on its own does.
pub proof fn lemma_glob_looks_at_file_name(glob: Seq<char>, dir: Seq<char>, name: Seq<char>)
    requires
        name.len() > 0,
        forall|j: int| 0 <= j < name.len() ==> name[j] != '/',
        name != seq!['.'],
        name != seq!['.', '.'],
    ensures
        glob_match_spec(glob, dir + seq!['/'] + name) == glob_match_spec(glob, name),
{
    lemma_file_name_of_joined(dir, name);
}

/// A matching line: the file's path relative to the root, the line's
/// number counted from 1, and the line without surrounding white space.
pub type SearchHit = (Seq<char>, nat, Seq<char>);

/// How a file's path is shown: relative to the root when under it.
pub open spec fn display_path(root: Seq<char>, path: Seq<char>) -> Seq<char> {
    match strip_path_prefix_spec(path, root) {
        Some(rel) => rel,
        None => path,
    }
}

/// The hits among the first `n` lines `ls` of a file shown as `shown`.
pub open spec fn line_hits(shown: Seq<char>, pattern: Seq<char>, ls: Seq<Seq<char>>, n: nat) -> Seq<SearchHit>
    decreases n,
{
    if n == 0 || n > ls.len() {
        Seq::empty()
    } else {
        let prev = line_hits(shown, pattern, ls, (n - 1) as nat);
        if regex_is_match(pattern, ls[n - 1]) {
            prev.push((shown, n, trim_spec(ls[n - 1])))
        } else {
            prev
        }
    }
}

/// The hits in one file: none when it failed the glob or could not be read.
pub open spec fn file_hits(root: Seq<char>, pattern: Seq<char>, glob: Option<Seq<char>>, f: WorkspaceFile) -> Seq<SearchHit> {
    let passes = match glob {
        Some(g) => glob_match_spec(g, f.path@),
        None => true,
    };
    match f.content {
        Some(c) if passes => line_hits(
            display_path(root, f.path@),
            pattern,
            lines_spec(c@),
            lines_spec(c@).len(),
        ),
        _ => Seq::empty(),
    }
}

/// All hits in the files, in order.
pub open spec fn all_hits(root: Seq<char>, pattern: Seq<char>, glob: Option<Seq<char>>, fs: Seq<WorkspaceFile>) -> Seq<SearchHit>
    decreases fs.len(),
{
    if fs.len() == 0 {
        Seq::empty()
    } else {
        all_hits(root, pattern, glob, fs.drop_last()) + file_hits(root, pattern, glob, fs.last())
    }
}

/// A hit as a line of the tool's output: `path:line  text`.
pub open spec fn hit_line(h: SearchHit) -> Seq<char> {
    h.0 + ":"@ + decimal_spec(h.1) + "  "@ + h.2
}

/// The most hits a search reports.
pub open spec fn max_hits() -> nat {
    50
}

/// The result of a search once the workspace was listed.
pub open spec fn search_result_spec(root: Seq<char>, pattern: Seq<char>, glob: Option<Seq<char>>, files: Option<Vec<WorkspaceFile>>) -> ToolResultView {
    match files {
        None => ToolResultView::Error("Workspace root does not exist"@),
        Some(fs) => match regex_compile_error(pattern) {
            Some(e) => ToolResultView::Error("Invalid regex '"@ + pattern + "': "@ + e),
            None => {
                let all = all_hits(root, pattern, glob, fs@);
                let hits = if all.len() > max_hits() {
                    all.take(max_hits() as int)
                } else {
                    all
                };
                if hits.len() == 0 {
                    ToolResultView::Success("No matches found for '"@ + pattern + "'"@)
                } else {
                    ToolResultView::Success(
                        "Found "@ + decimal_spec(hits.len()) + " result(s) for '"@ + pattern
                            + "':\n"@ + join_spec(hits.map_values(|h: SearchHit| hit_line(h)), "\n"@),
                    )
                }
            },
        },
    }
}

/// Searches the files of a workspace with a regex.
pub struct SearchWorkspaceTool {
    spec: ToolSpec,
    workspace_root: String,
}

impl SearchWorkspaceTool {
    /// The directory this tool searches.
    pub closed spec fn root(&self) -> Seq<char> {
        self.workspace_root@
    }

    /// The `search_workspace` tool for the workspace at `workspace_root`.
    pub fn new(workspace_root: String) -> (r: Self)
        ensures
            r.tool_spec() == search_workspace_tool_spec(),
            r.root() == workspace_root@,
    {
        let mut params: Vec<ToolParam> = Vec::new();
        params.push(make_param("pattern", "string", "Regex pattern to search for", true));
        params.push(make_param("glob", "string", "Optional file glob filter (e.g. '*.rs')", false));
        let r = SearchWorkspaceTool {
            workspace_root,
            spec: make_spec(
                "search_workspace",
                "Search for text in workspace files using regex",
                params,
                false,
            ),
        };
        assert(r.tool_spec().parameters =~= search_workspace_tool_spec().parameters);
        r
    }

    /// The result once the files under `root` were listed (`None` when the
    /// root does not exist): at most 50 matching lines, in file and line
    /// order.
    pub fn finish(root: &str, pattern: &str, glob: Option<String>, files: Option<Vec<WorkspaceFile>>) -> (r: ToolResult)
        ensures
            r@ == search_result_spec(root@, pattern@, opt_view(glob), files),
    {
        let fs = match files {
            None => return ToolResult::Error { message: to_owned_string("Workspace root does not exist") },
            Some(fs) => fs,
        };
        let re = match compile_regex(pattern) {
            Err(e) => {
                let mut out = String::new();
                put(&mut out, "Invalid regex '");
                put(&mut out, pattern);
                put(&mut out, "': ");
                push_str(&mut out, e.as_str());
                assert(out@ =~= "Invalid regex '"@ + pattern@ + "': "@ + e@);
                return ToolResult::Error { message: out };
            },
            Ok(re) => re,
        };
        let hits = collect_hits(root, &re, &glob, &fs);
        let ghost all = all_hits(root@, pattern@, opt_view(glob), fs@);
        let ghost expect = if all.len() > max_hits() {
            all.take(max_hits() as int)
        } else {
            all
        };
        let mut out = String::new();
        if hits.len() == 0 {
            put(&mut out, "No matches found for '");
            put(&mut out, pattern);
            put(&mut out, "'");
            assert(out@ =~= "No matches found for '"@ + pattern@ + "'"@);
            return ToolResult::Success { output: out };
        }
        let mut lines: Vec<String> = Vec::new();
        let mut i: usize = 0;
        while i < hits.len()
            invariant
                i <= hits@.len(),
                lines@.map_values(|s: String| s@) == hits@.map_values(|h: (String, usize, String)| hit_line((h.0@, h.1 as nat, h.2@))).take(i as int),
            decreases hits.len() - i,
        {
            let mut line = String::new();
            push_str(&mut line, hits[i].0.as_str());
            put(&mut line, ":");
            push_decimal(&mut line, hits[i].1 as u64);
            put(&mut line, "  ");
            push_str(&mut line, hits[i].2.as_str());
            let ghost prev = lines@;
            let ghost lv = line@;
            lines.push(line);
            proof {
                let h = hits@[i as int];
                assert(lv =~= hit_line((h.0@, h.1 as nat, h.2@)));
                assert(lines@.map_values(|s: String| s@) =~= prev.map_values(|s: String| s@).push(lv));
                assert(hits@.map_values(|h: (String, usize, String)| hit_line((h.0@, h.1 as nat, h.2@))).take(i + 1) =~= hits@.map_values(|h: (String, usize, String)| hit_line((h.0@, h.1 as nat, h.2@))).take(i as int).push(lv));
            }
            i = i + 1;
        }
        proof {
            assert(hits@.map_values(|h: (String, usize, String)| hit_line((h.0@, h.1 as nat, h.2@))).take(i as int) =~= hits@.map_values(|h: (String, usize, String)| hit_line((h.0@, h.1 as nat, h.2@))));
            assert(hits@.map_values(|h: (String, usize, String)| hit_line((h.0@, h.1 as nat, h.2@))) =~= expect.map_values(|h: SearchHit| hit_line(h)));
        }
        let body = join_exec(&lines, "\n");
        put(&mut out, "Found ");
        push_decimal(&mut out, hits.len() as u64);
        put(&mut out, " result(s) for '");
        put(&mut out, pattern);
        put(&mut out, "':\n");
        push_str(&mut out, body.as_str());
        assert(out@ =~= "Found "@ + decimal_spec(expect.len()) + " result(s) for '"@ + pattern@
            + "':\n"@ + join_spec(expect.map_values(|h: SearchHit| hit_line(h)), "\n"@));
        ToolResult::Success { output: out }
    }
}

impl Tool for SearchWorkspaceTool {
    closed spec fn tool_spec(&self) -> ToolSpecView {
        self.spec@
    }

    open spec fn plan(&self, args: Map<Seq<char>, Seq<char>>) -> ToolOutcomeView {
        search_plan(self.root(), args)
    }

    fn spec(&self) -> (r: &ToolSpec) {
        &self.spec
    }

    fn execute(&self, args: &StringMap) -> (r: ToolOutcome) {
        let pattern = match args.get("pattern") {
            Some(p) => p,
            None => {
                return ToolOutcome::Finished(
                    ToolResult::Error { message: to_owned_string("Missing 'pattern' argument") },
                )
            },
        };
        let glob = match args.get("glob") {
            Some(g) => Some(g.clone()),
            None => None,
        };
        ToolOutcome::Io(
            IoRequest::ListWorkspace {
                root: self.workspace_root.clone(),
                pattern: pattern.clone(),
                glob,
            },
        )
    }
}

/// The hits as exec values, viewed.
pub open spec fn hits_view(v: Seq<(String, usize, String)>) -> Seq<SearchHit> {
    v.map_values(|h: (String, usize, String)| (h.0@, h.1 as nat, h.2@))
}

/// `a` is a prefix of `b`.
pub open spec fn is_prefix<A>(a: Seq<A>, b: Seq<A>) -> bool {
    a.len() <= b.len() && b.take(a.len() as int) == a
}

/// The first 50 hits of the files, in order.
#[verifier::loop_isolation(false)]
fn collect_hits(root: &str, re: &CompiledRegex, glob: &Option<String>, fs: &Vec<WorkspaceFile>) -> (r: Vec<(String, usize, String)>)
    requires
        regex_compile_error(re.pattern_spec()) is None,
    ensures
        hits_view(r@) == ({
            let all = all_hits(root@, re.pattern_spec(), opt_view(*glob), fs@);
            if all.len() > max_hits() {
                all.take(max_hits() as int)
            } else {
                all
            }
        }),
{
    let ghost pattern = re.pattern_spec();
    let ghost g = opt_view(*glob);
    let rootv = chars_of(root);
    let mut results: Vec<(String, usize, String)> = Vec::new();
    let mut i: usize = 0;
    while i < fs.len()
        invariant
            i <= fs@.len(),
            rootv@ == root@,
            pattern == re.pattern_spec(),
            g == opt_view(*glob),
            hits_view(results@) == all_hits(root@, pattern, g, fs@.take(i as int)),
            results@.len() < 50,
        decreases fs.len() - i,
    {
        let f = &fs[i];
        proof {
            assert(fs@.take(i + 1).drop_last() =~= fs@.take(i as int));
            assert(fs@.take(i + 1).last() == *f);
        }
        let passes = match glob {
            Some(gl) => glob_match(gl.as_str(), f.path.as_str()),
            None => true,
        };
        match &f.content {
            Some(c) if passes => {
                let shown = match strip_path_prefix(&chars_of(f.path.as_str()), &rootv) {
                    Some(rel) => rel,
                    None => f.path.clone(),
                };
                let ls = lines_exec(&chars_of(c.as_str()));
                let ghost lsv = lines_spec(c@);
                let ghost base = hits_view(results@);
                let mut j: usize = 0;
                while j < ls.len()
                    invariant
                        j <= ls@.len(),
                        ls@.map_values(|s: String| s@) == lsv,
                        lsv.len() == ls@.len(),
                        shown@ == display_path(root@, f.path@),
                        pattern == re.pattern_spec(),
                        hits_view(results@) == base + line_hits(shown@, pattern, lsv, j as nat),
                        results@.len() < 50,
                    decreases ls.len() - j,
                {
                    let ghost before = results@;
                    assert(ls@[j as int]@ == lsv[j as int]);
                    if re.is_match(ls[j].as_str()) {
                        let lc = chars_of(ls[j].as_str());
                        let t = trim_range(&lc, 0, lc.len());
                        assert(lc@.subrange(0, lc@.len() as int) =~= lc@);
                        results.push((shown.clone(), j + 1, t));
                        proof {
                            assert(hits_view(results@) =~= hits_view(before).push((shown@, (j + 1) as nat, trim_spec(lsv[j as int]))));
                        }
                        if results.len() >= 50 {
                            proof {
                                lemma_line_hits_prefix(shown@, pattern, lsv, (j + 1) as nat);
                                lemma_all_hits_prefix(root@, pattern, g, fs@, (i + 1) as nat);
                                assert(file_hits(root@, pattern, g, fs@[i as int]) == line_hits(shown@, pattern, lsv, lsv.len()));
                                lemma_prefix_concat(base, line_hits(shown@, pattern, lsv, (j + 1) as nat), line_hits(shown@, pattern, lsv, lsv.len()));
                                lemma_prefix_trans(hits_view(results@), all_hits(root@, pattern, g, fs@.take(i + 1)), all_hits(root@, pattern, g, fs@));
                                assert(fs@.take(fs@.len() as int) =~= fs@);
                                let all = all_hits(root@, pattern, g, fs@);
                                assert(hits_view(results@).len() == 50);
                                if all.len() == 50 {
                                    assert(all =~= all.take(50));
                                }
                            }
                            return results;
                        }
                    }
                    j = j + 1;
                }
            },
            _ => {},
        }
        i = i + 1;
    }
    proof {
        assert(fs@.take(fs@.len() as int) =~= fs@);
    }
    results
}

/// The hits of fewer lines are a prefix of the hits of more lines.
proof fn lemma_line_hits_prefix(shown: Seq<char>, pattern: Seq<char>, ls: Seq<Seq<char>>, n: nat)
    requires
        n <= ls.len(),
    ensures
        is_prefix(line_hits(shown, pattern, ls, n), line_hits(shown, pattern, ls, ls.len())),
    decreases ls.len() - n,
{
    if n < ls.len() {
        lemma_line_hits_prefix(shown, pattern, ls, n + 1);
        let a = line_hits(shown, pattern, ls, n);
        let b = line_hits(shown, pattern, ls, n + 1);
        let c = line_hits(shown, pattern, ls, ls.len());
        assert(is_prefix(a, b)) by {
            assert(b.take(a.len() as int) =~= a);
        }
        lemma_prefix_trans(a, b, c);
    } else {
        let c = line_hits(shown, pattern, ls, ls.len());
        assert(c.take(c.len() as int) =~= c);
    }
}

/// The hits of fewer files are a prefix of the hits of more files.
proof fn lemma_all_hits_prefix(root: Seq<char>, pattern: Seq<char>, g: Option<Seq<char>>, fs: Seq<WorkspaceFile>, n: nat)
    requires
        n <= fs.len(),
    ensures
        is_prefix(all_hits(root, pattern, g, fs.take(n as int)), all_hits(root, pattern, g, fs)),
    decreases fs.len() - n,
{
    if n < fs.len() {
        lemma_all_hits_prefix(root, pattern, g, fs, n + 1);
        let a = all_hits(root, pattern, g, fs.take(n as int));
        let b = all_hits(root, pattern, g, fs.take(n as int + 1));
        assert(fs.take(n as int + 1).drop_last() =~= fs.take(n as int));
        assert(is_prefix(a, b)) by {
            assert(b.take(a.len() as int) =~= a);
        }
        lemma_prefix_trans(a, b, all_hits(root, pattern, g, fs));
    } else {
        assert(fs.take(n as int) =~= fs);
        let c = all_hits(root, pattern, g, fs);
        assert(c.take(c.len() as int) =~= c);
    }
}

/// Prefixes compose.
proof fn lemma_prefix_trans<A>(a: Seq<A>, b: Seq<A>, c: Seq<A>)
    requires
        is_prefix(a, b),
        is_prefix(b, c),
    ensures
        is_prefix(a, c),
{
    assert(c.take(a.len() as int) =~= b.take(a.len() as int));
}

/// A prefix of the second part extends to a prefix of the whole.
proof fn lemma_prefix_concat<A>(base: Seq<A>, a: Seq<A>, b: Seq<A>)
    requires
        is_prefix(a, b),
    ensures
        is_prefix(base + a, base + b),
{
    assert((base + b).take((base + a).len() as int) =~= base + a);
}

/// Why a write failed.
#[derive(Debug)]
pub enum WriteFailure {
    /// The missing parent directories could not be created.
    CreateDirs(String),
    /// The file could not be written.
    Write(String),
}

/// A file under the workspace root and its contents (`None` when it could
/// not be read as text).
#[derive(Debug)]
pub struct WorkspaceFile {
    pub path: String,
    pub content: Option<String>,
}

} // verus!
