//! JSON-RPC pieces of the protocol that involve no JSON parsing.

use vstd::prelude::*;
use crate::text::{int_decimal_spec, push_int_decimal, push_str, to_owned_string};

verus! {

/// `serde_json::Value`, carried through unread.
#[verifier::external_type_specification]
#[verifier::external_body]
pub struct ExJsonValue(serde_json::Value);

/// The name and version a server reports.
#[derive(Debug, Clone, PartialEq, Eq)]
pub struct ServerInfo {
    pub name: String,
    pub version: String,
}

impl Default for ServerInfo {
    /// A server that did not say: `unknown`, version `0.0.0`.
    fn default() -> (r: Self)
        ensures
            r.name@ == "unknown"@,
            r.version@ == "0.0.0"@,
    {
        ServerInfo { name: to_owned_string("unknown"), version: to_owned_string("0.0.0") }
    }
}

/// The error object of a JSON-RPC response.
#[derive(Debug, Clone)]
pub struct JsonRpcError {
    pub code: i64,
    pub message: String,
    pub data: Option<serde_json::Value>,
}

/// How an error is reported to the user.
pub open spec fn rpc_error_text(code: i64, message: Seq<char>) -> Seq<char> {
    "MCP error "@ + int_decimal_spec(code as int) + ": "@ + message
}

impl JsonRpcError {
    /// The error as the user reads it (see `rpc_error_text`).
    pub fn to_string(&self) -> (r: String)
        ensures
            r@ == rpc_error_text(self.code, self.message@),
    {
        let mut out = to_owned_string("MCP error ");
        push_int_decimal(&mut out, self.code);
        push_str(&mut out, ": ");
        push_str(&mut out, self.message.as_str());
        out
    }
}

/// Numbers requests: each request gets the next number of a counter that
/// starts at 1 and only goes up (wrapping at `u64::MAX`).
#[derive(Debug)]
pub struct RequestIds {
    next: u64,
}

impl RequestIds {
    /// A counter whose first number is 1.
    pub fn new() -> (r: Self)
        ensures
            r.next_view() == 1,
    {
        RequestIds { next: 1 }
    }

    /// The number the next request gets.
    pub closed spec fn next_view(&self) -> u64 {
        self.next
    }

    /// Takes the next request number.
    pub fn next_id(&mut self) -> (id: u64)
        ensures
            id == old(self).next_view(),
            final(self).next_view() == (if id == u64::MAX {
                0
            } else {
                (id + 1) as u64
            }),
    {
        let id = self.next;
        self.next = if id == u64::MAX {
            0
        } else {
            id + 1
        };
        id
    }
}

/// What arrived while waiting for the response to a request.
#[derive(Debug, Clone)]
pub enum WaitEvent {
    /// A response to the request numbered `id`, with its error if it has one.
    Response { id: u64, error: Option<JsonRpcError> },
    /// A request or notification from the server.
    Unsolicited,
    /// The server closed the connection.
    Closed,
}

/// What to do next while waiting for a response.
#[derive(Debug, Clone, PartialEq, Eq)]
pub enum WaitStep {
    /// Read the next message.
    KeepWaiting,
    /// This is the awaited response, and it succeeded.
    Done,
    /// The wait failed with this message.
    Failed(String),
}

/// A wait step as characters.
pub ghost enum WaitStepView {
    KeepWaiting,
    Done,
    Failed(Seq<char>),
}

impl View for WaitStep {
    type V = WaitStepView;

    open spec fn view(&self) -> WaitStepView {
        match self {
            WaitStep::KeepWaiting => WaitStepView::KeepWaiting,
            WaitStep::Done => WaitStepView::Done,
            WaitStep::Failed(m) => WaitStepView::Failed(m@),
        }
    }
}

/// What to do when `event` arrives while waiting for the response to
/// request `expected`: responses to other requests and unsolicited
/// messages are skipped; the awaited response ends the wait, failing with
/// its error if it has one; a closed connection fails the wait.
pub open spec fn wait_step_spec(expected: u64, event: WaitEvent) -> WaitStepView {
    match event {
        WaitEvent::Response { id, error } => if id == expected {
            match error {
                Some(e) => WaitStepView::Failed(rpc_error_text(e.code, e.message@)),
                None => WaitStepView::Done,
            }
        } else {
            WaitStepView::KeepWaiting
        },
        WaitEvent::Unsolicited => WaitStepView::KeepWaiting,
        WaitEvent::Closed => WaitStepView::Failed("MCP server closed connection"@),
    }
}

/// Decides what to do when `event` arrives (see `wait_step_spec`).
pub fn wait_step(expected: u64, event: &WaitEvent) -> (r: WaitStep)
    ensures
        r@ == wait_step_spec(expected, *event),
{
    match event {
        WaitEvent::Response { id, error } => {
            if *id == expected {
                match error {
                    Some(e) => WaitStep::Failed(e.to_string()),
                    None => WaitStep::Done,
                }
            } else {
                WaitStep::KeepWaiting
            }
        },
        WaitEvent::Unsolicited => WaitStep::KeepWaiting,
        WaitEvent::Closed => WaitStep::Failed(to_owned_string("MCP server closed connection")),
    }
}

} // verus!
