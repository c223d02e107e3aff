//! Message framing on the server's standard streams: a `Content-Length`
//! header, a blank line, then the JSON body.

use vstd::prelude::*;
use crate::text::{decimal_spec, push_decimal, push_str, to_owned_string, trim_spec, trim_range, chars_of, utf8_len};

verus! {

broadcast use vstd::string::group_string_axioms;

/// The frame for a JSON body: its length in UTF-8 bytes in a
/// `Content-Length` header, a blank line, then the body.
pub open spec fn frame_spec(body: Seq<char>) -> Seq<char> {
    "Content-Length: "@ + decimal_spec(utf8_len(body)) + "\r\n\r\n"@ + body
}

/// Frames a JSON body for sending (see `frame_spec`).
pub fn frame_message(body: &str) -> (r: String)
    ensures
        r@ == frame_spec(body@),
{
    let mut out = to_owned_string("Content-Length: ");
    push_decimal(&mut out, body.len() as u64);
    push_str(&mut out, "\r\n\r\n");
    push_str(&mut out, body);
    out
}

/// Does a header line end the headers? It does when it holds nothing but
/// white space.
pub fn ends_headers(line: &str) -> (b: bool)
    ensures
        b == (trim_spec(line@).len() == 0),
{
    let v = chars_of(line);
    let t = trim_range(&v, 0, v.len());
    assert(v@.subrange(0, v@.len() as int) =~= v@);
    t.as_str().is_empty()
}

} // verus!
