//! The terminal tool: runs a shell command and reports its output.

use vstd::prelude::*;
use crate::agent::tool_registry::{
    IoRequest, IoRequestView, Tool, ToolOutcome, ToolOutcomeView, ToolParam, ToolParamView,
    ToolResult, ToolResultView, ToolSpec, ToolSpecView, fails_with, make_param,
};
use crate::agent::tools::file_tools::make_spec;
use crate::string_map::StringMap;
use crate::text::{
    chars_of, decimal_spec, int_decimal_spec, push_decimal, push_int_decimal, push_str,
    to_owned_string,
};

verus! {

broadcast use vstd::string::group_string_axioms;

/// How a shell command ended.
#[derive(Debug)]
pub enum CommandOutcome {
    /// The shell could not be started.
    SpawnFailed(String),
    /// Waiting for the command failed.
    WaitFailed(String),
    /// The command ran past its time limit and was killed.
    TimedOut,
    /// The command exited.
    Exited { success: bool, code: Option<i32>, stdout: String, stderr: String },
}

/// How `run_terminal` describes itself.
pub open spec fn run_terminal_tool_spec() -> ToolSpecView {
    ToolSpecView {
        name: "run_terminal"@,
        description: "Execute a shell command and return its output. Supports piping, chaining, and most bash built-ins."@,
        parameters: seq![
            ToolParamView {
                name: "command"@,
                param_type: "string"@,
                description: "The shell command to execute"@,
                required: true,
            },
            ToolParamView {
                name: "workdir"@,
                param_type: "string"@,
                description: "Working directory for the command (default: current dir)"@,
                required: false,
            },
            ToolParamView {
                name: "timeout"@,
                param_type: "string"@,
                description: "Timeout in seconds (default: 30)"@,
                required: false,
            },
        ],
        requires_approval: true,
    }
}

/// The value of a run of ASCII digits.
pub open spec fn digits_value(d: Seq<char>) -> nat
    decreases d.len(),
{
    if d.len() == 0 {
        0
    } else {
        digits_value(d.drop_last()) * 10 + (d.last() as nat - '0' as nat) as nat
    }
}

/// Every character is an ASCII digit.
pub open spec fn all_digits(d: Seq<char>) -> bool {
    forall|i: int| 0 <= i < d.len() ==> '0' <= #[trigger] d[i] <= '9'
}

/// What `u64::from_str` reads from `s`: an optional `+`, then one or more
/// ASCII digits whose value fits in 64 bits.
pub open spec fn parse_u64_spec(s: Seq<char>) -> Option<nat> {
    let d = if s.len() > 0 && s[0] == '+' {
        s.drop_first()
    } else {
        s
    };
    if d.len() == 0 || !all_digits(d) || digits_value(d) > u64::MAX {
        None
    } else {
        Some(digits_value(d))
    }
}

/// Reads a `u64` the way `u64::from_str` does (see `parse_u64_spec`).
pub fn parse_u64(s: &str) -> (r: Option<u64>)
    ensures
        match r {
            Some(v) => parse_u64_spec(s@) == Some(v as nat),
            None => parse_u64_spec(s@) is None,
        },
{
    let v = chars_of(s);
    let start: usize = if v.len() > 0 && v[0] == '+' {
        1
    } else {
        0
    };
    let ghost d = if s@.len() > 0 && s@[0] == '+' {
        s@.drop_first()
    } else {
        s@
    };
    assert(d =~= v@.skip(start as int));
    if start >= v.len() {
        return None;
    }
    let mut acc: u64 = 0;
    let mut i = start;
    while i < v.len()
        invariant
            start <= i <= v@.len(),
            d == v@.skip(start as int),
            v@ == s@,
            d == (if s@.len() > 0 && s@[0] == '+' {
                s@.drop_first()
            } else {
                s@
            }),
            all_digits(v@.subrange(start as int, i as int)),
            acc as nat == digits_value(v@.subrange(start as int, i as int)),
        decreases v.len() - i,
    {
        let c = v[i];
        assert(v@.subrange(start as int, i + 1).drop_last() =~= v@.subrange(start as int, i as int));
        if !('0' <= c && c <= '9') {
            assert(d[i - start] == c);
            assert(!all_digits(d));
            assert(parse_u64_spec(s@) is None);
            return None;
        }
        let digit: u64 = (c as u32 - '0' as u32) as u64;
        proof {
            let p = v@.subrange(start as int, i + 1);
            assert(p.last() == c);
            assert(all_digits(p));
            assert(digits_value(p) == digits_value(v@.subrange(start as int, i as int)) * 10 + digit);
            assert(p =~= d.take(i - start + 1));
        }
        match acc.checked_mul(10) {
            None => {
                proof {
                    lemma_digits_value_grows(d, (i - start + 1) as nat);
                    assert(acc * 10 > u64::MAX);
                    assert(digits_value(d.take(i - start + 1)) > u64::MAX);
                    assert(parse_u64_spec(s@) is None);
                }
                return None;
            },
            Some(m) => match m.checked_add(digit) {
                None => {
                    proof {
                        lemma_digits_value_grows(d, (i - start + 1) as nat);
                        assert(parse_u64_spec(s@) is None);
                    }
                    return None;
                },
                Some(n) => {
                    acc = n;
                },
            },
        }
        i = i + 1;
    }
    assert(v@.subrange(start as int, v@.len() as int) =~= d);
    Some(acc)
}

/// The value of a prefix never exceeds the value of the whole.
proof fn lemma_digits_value_grows(d: Seq<char>, n: nat)
    requires
        n <= d.len(),
        all_digits(d.take(n as int)),
    ensures
        all_digits(d) ==> digits_value(d.take(n as int)) <= digits_value(d),
    decreases d.len() - n,
{
    if n < d.len() && all_digits(d) {
        assert(all_digits(d.take(n as int + 1)));
        lemma_digits_value_grows(d, n + 1);
        assert(d.take(n as int + 1).drop_last() =~= d.take(n as int));
    } else if n == d.len() {
        assert(d.take(n as int) =~= d);
    }
}

/// The time limit a call with `args` gets: its `timeout` when that reads as
/// a number of seconds, otherwise 30.
pub open spec fn timeout_of(args: Map<Seq<char>, Seq<char>>) -> nat {
    if args.dom().contains("timeout"@) && parse_u64_spec(args["timeout"@]) is Some {
        parse_u64_spec(args["timeout"@])->0
    } else {
        30
    }
}

/// What a `run_terminal` call with `args` does first.
pub open spec fn terminal_plan(args: Map<Seq<char>, Seq<char>>) -> ToolOutcomeView {
    if !args.dom().contains("command"@) {
        fails_with("Missing 'command' argument"@)
    } else {
        ToolOutcomeView::Io(
            IoRequestView::RunCommand {
                command: args["command"@],
                workdir: if args.dom().contains("workdir"@) {
                    Some(args["workdir"@])
                } else {
                    None
                },
                timeout_secs: timeout_of(args),
            },
        )
    }
}

/// What a finished command printed: its standard output, then, when it wrote
/// to standard error, that under a `[stderr]` heading (on a new line when
/// there was output before it).
pub open spec fn combined_output(stdout: Seq<char>, stderr: Seq<char>) -> Seq<char> {
    if stderr.len() == 0 {
        stdout
    } else if stdout.len() == 0 {
        "[stderr]\n"@ + stderr
    } else {
        stdout + "\n"@ + "[stderr]\n"@ + stderr
    }
}

/// The result of a `run_terminal` call once the command ended.
pub open spec fn command_result_spec(command: Seq<char>, timeout_secs: nat, c: CommandOutcome) -> ToolResultView {
    match c {
        CommandOutcome::SpawnFailed(e) => ToolResultView::Error("Failed to spawn command: "@ + e@),
        CommandOutcome::WaitFailed(e) => ToolResultView::Error(
            "Failed to wait for command: "@ + e@,
        ),
        CommandOutcome::TimedOut => ToolResultView::Error(
            "Command timed out after "@ + decimal_spec(timeout_secs) + " seconds:\n"@ + command,
        ),
        CommandOutcome::Exited { success, code, stdout, stderr } => {
            let out = combined_output(stdout@, stderr@);
            if success {
                ToolResultView::Success(
                    if out.len() == 0 {
                        "Command completed successfully (no output)"@
                    } else {
                        out
                    },
                )
            } else {
                ToolResultView::Error(
                    "Command exited with code "@ + int_decimal_spec(
                        match code {
                            Some(k) => k as int,
                            None => -1,
                        },
                    ) + ":\n"@ + if out.len() == 0 {
                        "(no output)"@
                    } else {
                        out
                    },
                )
            }
        },
    }
}

/// Runs shell commands.
pub struct RunTerminalTool {
    spec: ToolSpec,
}

impl RunTerminalTool {
    /// The `run_terminal` tool.
    pub fn default() -> (r: Self)
        ensures
            r.tool_spec() == run_terminal_tool_spec(),
    {
        let mut params: Vec<ToolParam> = Vec::new();
        params.push(make_param("command", "string", "The shell command to execute", true));
        params.push(make_param("workdir", "string", "Working directory for the command (default: current dir)", false));
        params.push(make_param("timeout", "string", "Timeout in seconds (default: 30)", false));
        let r = RunTerminalTool {
            spec: make_spec(
                "run_terminal",
                "Execute a shell command and return its output. Supports piping, chaining, and most bash built-ins.",
                params,
                true,
            ),
        };
        assert(r.tool_spec().parameters =~= run_terminal_tool_spec().parameters);
        r
    }

    /// How many 50 ms polls fit in a time limit of `timeout_secs` seconds.
    pub fn poll_budget(timeout_secs: u64) -> (n: u64)
        requires
            timeout_secs * 1000 <= u64::MAX,
        ensures
            n == timeout_secs * 1000 / 50,
    {
        timeout_secs * 1000 / 50
    }

    /// The result once the command `command` ended.
    pub fn finish(command: &str, timeout_secs: u64, c: CommandOutcome) -> (r: ToolResult)
        ensures
            r@ == command_result_spec(command@, timeout_secs as nat, c),
    {
        let mut out = String::new();
        match c {
            CommandOutcome::SpawnFailed(e) => {
                push_str(&mut out, "Failed to spawn command: ");
                push_str(&mut out, e.as_str());
                ToolResult::Error { message: out }
            },
            CommandOutcome::WaitFailed(e) => {
                push_str(&mut out, "Failed to wait for command: ");
                push_str(&mut out, e.as_str());
                ToolResult::Error { message: out }
            },
            CommandOutcome::TimedOut => {
                push_str(&mut out, "Command timed out after ");
                push_decimal(&mut out, timeout_secs);
                push_str(&mut out, " seconds:\n");
                push_str(&mut out, command);
                assert(out@ =~= "Command timed out after "@ + decimal_spec(timeout_secs as nat) + " seconds:\n"@ + command@);
                ToolResult::Error { message: out }
            },
            CommandOutcome::Exited { success, code, stdout, stderr } => {
                let mut output = String::new();
                push_str(&mut output, stdout.as_str());
                if !stderr.as_str().is_empty() {
                    if !output.as_str().is_empty() {
                        push_str(&mut output, "\n");
                    }
                    push_str(&mut output, "[stderr]\n");
                    push_str(&mut output, stderr.as_str());
                }
                assert(output@ =~= combined_output(stdout@, stderr@));
                if success {
                    if output.as_str().is_empty() {
                        ToolResult::Success { output: to_owned_string("Command completed successfully (no output)") }
                    } else {
                        ToolResult::Success { output }
                    }
                } else {
                    let k: i64 = match code {
                        Some(k) => k as i64,
                        None => -1,
                    };
                    push_str(&mut out, "Command exited with code ");
                    push_int_decimal(&mut out, k);
                    push_str(&mut out, ":\n");
                    if output.as_str().is_empty() {
                        push_str(&mut out, "(no output)");
                    } else {
                        push_str(&mut out, output.as_str());
                    }
                    ToolResult::Error { message: out }
                }
            },
        }
    }
}

impl Tool for RunTerminalTool {
    closed spec fn tool_spec(&self) -> ToolSpecView {
        self.spec@
    }

    open spec fn plan(&self, args: Map<Seq<char>, Seq<char>>) -> ToolOutcomeView {
        terminal_plan(args)
    }

    fn spec(&self) -> (r: &ToolSpec) {
        &self.spec
    }

    fn execute(&self, args: &StringMap) -> (r: ToolOutcome) {
        let command = match args.get("command") {
            Some(c) => c,
            None => {
                return ToolOutcome::Finished(
                    ToolResult::Error { message: to_owned_string("Missing 'command' argument") },
                )
            },
        };
        let workdir = match args.get("workdir") {
            Some(w) => Some(w.clone()),
            None => None,
        };
        let timeout_secs: u64 = match args.get("timeout") {
            Some(t) => match parse_u64(t.as_str()) {
                Some(v) => v,
                None => 30,
            },
            None => 30,
        };
        ToolOutcome::Io(IoRequest::RunCommand { command: command.clone(), workdir, timeout_secs })
    }
}

} // verus!
