//! The web search tool: a DuckDuckGo instant-answer query and a readable
//! summary of the response.

use vstd::prelude::*;
use vstd::utf8::encode_utf8;
use crate::agent::tool_registry::{
    IoRequest, IoRequestView, Tool, ToolOutcome, ToolOutcomeView, ToolParam, ToolParamView,
    ToolResult, ToolResultView, ToolSpec, ToolSpecView, fails_with, make_param,
};
use crate::agent::tools::file_tools::make_spec;
use crate::string_map::StringMap;
use crate::text::{
    contains_seq, decimal_spec, lemma_contains_middle, lemma_contains_widen, push_char, push_decimal,
    push_str, to_owned_string,
};

verus! {

broadcast use vstd::string::group_string_axioms;

/// A link among the related results of a search.
#[derive(Debug)]
pub struct TopicLink {
    pub text: Option<String>,
    pub first_url: Option<String>,
}

/// One related result of a search, with its own sub-results.
#[derive(Debug)]
pub struct RelatedTopic {
    pub text: Option<String>,
    pub first_url: Option<String>,
    pub topics: Option<Vec<TopicLink>>,
}

/// The fields of a DuckDuckGo instant-answer response that the tool reads;
/// a field that is missing or not a string (an array for the topics) is
/// `None`.
#[derive(Debug)]
pub struct SearchResponse {
    pub abstract_text: Option<String>,
    pub abstract_source: Option<String>,
    pub abstract_url: Option<String>,
    pub answer: Option<String>,
    pub answer_url: Option<String>,
    pub related_topics: Option<Vec<RelatedTopic>>,
}

/// How `web_search` describes itself.
pub open spec fn web_search_tool_spec() -> ToolSpecView {
    ToolSpecView {
        name: "web_search"@,
        description: "Search the web using DuckDuckGo. Returns relevant snippets and URLs."@,
        parameters: seq![
            ToolParamView {
                name: "query"@,
                param_type: "string"@,
                description: "The search query"@,
                required: true,
            },
        ],
        requires_approval: false,
    }
}

// ── URL encoding ───────────────────────────────────────────────────────

/// Bytes that stand for themselves in a query string.
pub open spec fn is_unreserved(b: u8) -> bool {
    (65 <= b <= 90) || (97 <= b <= 122) || (48 <= b <= 57) || b == 45 || b == 95 || b == 46
        || b == 126
}

/// The upper-case hexadecimal digit for `d` in `0..16`.
pub open spec fn hex_digit_spec(d: u8) -> char {
    if d < 10 {
        digit_of(d)
    } else {
        upper_letter(d)
    }
}

/// `0`..`9` for `d < 10`.
pub open spec fn digit_of(d: u8) -> char {
    ((48 + d) as u32) as char
}

/// `A`..`F` for `10 <= d < 16`.
pub open spec fn upper_letter(d: u8) -> char {
    ((55 + d) as u32) as char
}

/// One byte of a query string, encoded: unreserved bytes as themselves, a
/// space as `+`, anything else as `%` and two upper-case hex digits.
pub open spec fn encode_byte(b: u8) -> Seq<char> {
    if is_unreserved(b) {
        seq![(b as u32) as char]
    } else if b == 32 {
        seq!['+']
    } else {
        seq!['%', hex_digit_spec(b / 16), hex_digit_spec(b % 16)]
    }
}

/// Bytes encoded for a query string, in order.
pub open spec fn url_encode_spec(bytes: Seq<u8>) -> Seq<char>
    decreases bytes.len(),
{
    if bytes.len() == 0 {
        Seq::empty()
    } else {
        url_encode_spec(bytes.drop_last()) + encode_byte(bytes.last())
    }
}

fn hex_digit(d: u8) -> (c: char)
    requires
        d < 16,
    ensures
        c == hex_digit_spec(d),
{
    let table: [char; 16] = ['0', '1', '2', '3', '4', '5', '6', '7', '8', '9', 'A', 'B', 'C', 'D', 'E', 'F'];
    assert(table@[d as int] == hex_digit_spec(d)) by {
        assert(table@ =~= seq!['0', '1', '2', '3', '4', '5', '6', '7', '8', '9', 'A', 'B', 'C', 'D', 'E', 'F']);
    }
    table[d as usize]
}

/// Encodes the UTF-8 bytes of `query` for a query string.
pub fn urlencoding(query: &str) -> (r: String)
    ensures
        r@ == url_encode_spec(encode_utf8(query@)),
{
    let bytes = query.as_bytes();
    let mut out = String::new();
    let mut i: usize = 0;
    while i < bytes.len()
        invariant
            i <= bytes@.len(),
            bytes@ == encode_utf8(query@),
            out@ == url_encode_spec(bytes@.take(i as int)),
        decreases bytes.len() - i,
    {
        let b = bytes[i];
        if (65 <= b && b <= 90) || (97 <= b && b <= 122) || (48 <= b && b <= 57) || b == 45 || b
            == 95 || b == 46 || b == 126 {
            push_char(&mut out, b as char);
        } else if b == 32 {
            push_char(&mut out, '+');
        } else {
            push_char(&mut out, '%');
            push_char(&mut out, hex_digit(b / 16));
            push_char(&mut out, hex_digit(b % 16));
        }
        proof {
            assert(bytes@.take(i + 1).drop_last() =~= bytes@.take(i as int));
            assert(out@ =~= url_encode_spec(bytes@.take(i + 1)));
        }
        i = i + 1;
    }
    assert(bytes@.take(i as int) =~= bytes@);
    out
}

/// The DuckDuckGo instant-answer URL for a query.
pub open spec fn search_url_spec(query: Seq<char>) -> Seq<char> {
    "https://api.duckduckgo.com/?q="@ + url_encode_spec(encode_utf8(query))
        + "&format=json&no_html=1&skip_disambig=1"@
}

/// What a `web_search` call with `args` does first.
pub open spec fn web_plan(args: Map<Seq<char>, Seq<char>>) -> ToolOutcomeView {
    if !args.dom().contains("query"@) {
        fails_with("Missing 'query' argument"@)
    } else {
        ToolOutcomeView::Io(
            IoRequestView::FetchSearch {
                query: args["query"@],
                url: search_url_spec(args["query"@]),
            },
        )
    }
}

// ── Formatting the response ────────────────────────────────────────────

/// The field is a non-empty string.
pub open spec fn filled(o: Option<String>) -> bool {
    o matches Some(s) && s@.len() > 0
}

/// The characters of a field known to be present.
pub open spec fn text_of(o: Option<String>) -> Seq<char> {
    match o {
        Some(s) => s@,
        None => Seq::empty(),
    }
}

/// The summary section: the abstract, its source and its URL.
pub open spec fn summary_section(r: SearchResponse) -> Seq<char> {
    if filled(r.abstract_text) {
        "## Summary\n"@ + text_of(r.abstract_text) + "\n"@ + (if r.abstract_source is Some {
            "\nSource: "@ + text_of(r.abstract_source) + "\n"@
        } else {
            Seq::empty()
        }) + (if filled(r.abstract_url) {
            "URL: "@ + text_of(r.abstract_url) + "\n"@
        } else {
            Seq::empty()
        }) + "\n"@
    } else {
        Seq::empty()
    }
}

/// The answer section: the answer and its URL.
pub open spec fn answer_section(r: SearchResponse) -> Seq<char> {
    if filled(r.answer) {
        "## Answer\n"@ + text_of(r.answer) + "\n"@ + (if filled(r.answer_url) {
            "URL: "@ + text_of(r.answer_url) + "\n"@
        } else {
            Seq::empty()
        }) + "\n"@
    } else {
        Seq::empty()
    }
}

/// The lines of the first `n` sub-results that have both a text and a URL.
pub open spec fn sub_lines(subs: Seq<TopicLink>, n: nat) -> Seq<char>
    decreases n,
{
    if n == 0 || n > subs.len() {
        Seq::empty()
    } else {
        let t = subs[n - 1];
        sub_lines(subs, (n - 1) as nat) + if t.text is Some && t.first_url is Some {
            "  - "@ + text_of(t.text) + " ("@ + text_of(t.first_url) + ")\n"@
        } else {
            Seq::empty()
        }
    }
}

/// The lines of the related result at position `i`: its numbered title when
/// it has a text, then its sub-results.
pub open spec fn topic_lines(i: nat, t: RelatedTopic) -> Seq<char> {
    (if t.text is Some {
        decimal_spec(i + 1) + ". "@ + text_of(t.text) + (if t.first_url is Some {
            " ("@ + text_of(t.first_url) + ")"@
        } else {
            Seq::empty()
        }) + "\n"@
    } else {
        Seq::empty()
    }) + match t.topics {
        Some(subs) => sub_lines(subs@, subs@.len()),
        None => Seq::empty(),
    }
}

/// The most related results listed.
pub open spec fn max_topics() -> nat {
    22
}

/// The lines of the first `n` related results.
pub open spec fn topics_lines(ts: Seq<RelatedTopic>, n: nat) -> Seq<char>
    decreases n,
{
    if n == 0 || n > ts.len() {
        Seq::empty()
    } else {
        topics_lines(ts, (n - 1) as nat) + topic_lines((n - 1) as nat, ts[n - 1])
    }
}

/// The related-results section: at most 22 results, and a note when the
/// list was cut there.
pub open spec fn related_section(r: SearchResponse) -> Seq<char> {
    match r.related_topics {
        Some(ts) if ts@.len() > 0 => {
            let n = if ts@.len() > max_topics() {
                max_topics()
            } else {
                ts@.len()
            };
            "## Related Results\n"@ + topics_lines(ts@, n) + if ts@.len() >= max_topics() {
                "... (results truncated)\n"@
            } else {
                Seq::empty()
            }
        },
        _ => Seq::empty(),
    }
}

/// The response has neither an abstract, nor an answer, nor related results.
pub open spec fn nothing_found(r: SearchResponse) -> bool {
    !filled(r.abstract_text) && !filled(r.answer) && match r.related_topics {
        Some(ts) => ts@.len() == 0,
        None => true,
    }
}

/// The text the tool returns for a response.
pub open spec fn format_response_spec(r: SearchResponse) -> Seq<char> {
    summary_section(r) + answer_section(r) + related_section(r) + if nothing_found(r) {
        "No instant results found. Try a more specific query."@
    } else {
        Seq::empty()
    }
}

/// The related results of a response (none when it has no list).
pub open spec fn topics_of(r: SearchResponse) -> Seq<RelatedTopic> {
    match r.related_topics {
        Some(ts) => ts@,
        None => Seq::empty(),
    }
}

/// The sub-results of a related result (none when it has no list).
pub open spec fn subs_of(t: RelatedTopic) -> Seq<TopicLink> {
    match t.topics {
        Some(subs) => subs@,
        None => Seq::empty(),
    }
}

/// Each sub-result with a text and a URL among the first `n` is listed.
proof fn lemma_sub_lines_show(subs: Seq<TopicLink>, n: nat, j: int)
    requires
        0 <= j < n <= subs.len(),
        subs[j].text is Some && subs[j].first_url is Some,
    ensures
        contains_seq(
            sub_lines(subs, n),
            "  - "@ + text_of(subs[j].text) + " ("@ + text_of(subs[j].first_url) + ")\n"@,
        ),
    decreases n,
{
    let line = "  - "@ + text_of(subs[j].text) + " ("@ + text_of(subs[j].first_url) + ")\n"@;
    let prev = sub_lines(subs, (n - 1) as nat);
    if j == n - 1 {
        lemma_contains_middle(prev, line, Seq::empty());
        assert(prev + line + Seq::<char>::empty() =~= sub_lines(subs, n));
    } else {
        lemma_sub_lines_show(subs, (n - 1) as nat, j);
        let t = subs[n - 1];
        let last = if t.text is Some && t.first_url is Some {
            "  - "@ + text_of(t.text) + " ("@ + text_of(t.first_url) + ")\n"@
        } else {
            Seq::empty()
        };
        lemma_contains_widen(prev, line, Seq::empty(), last);
        assert(Seq::<char>::empty() + prev + last =~= sub_lines(subs, n));
    }
}

/// What the related result at position `i` shows occurs in the lines of the
/// first `n` results, `i < n`.
proof fn lemma_topics_lines_show(ts: Seq<RelatedTopic>, n: nat, i: int, p: Seq<char>)
    requires
        0 <= i < n <= ts.len(),
        contains_seq(topic_lines(i as nat, ts[i]), p),
    ensures
        contains_seq(topics_lines(ts, n), p),
    decreases n,
{
    let prev = topics_lines(ts, (n - 1) as nat);
    let last = topic_lines((n - 1) as nat, ts[n - 1]);
    assert(topics_lines(ts, n) == prev + last);
    if i == n - 1 {
        lemma_contains_widen(last, p, prev, Seq::empty());
        assert(prev + last + Seq::<char>::empty() =~= prev + last);
    } else {
        lemma_topics_lines_show(ts, (n - 1) as nat, i, p);
        lemma_contains_widen(prev, p, Seq::empty(), last);
        assert(Seq::<char>::empty() + prev + last =~= prev + last);
    }
}

/// The answer section's lines occur in the output.
proof fn lemma_answer_shown(r: SearchResponse)
    ensures
        filled(r.answer) ==> contains_seq(
            format_response_spec(r),
            "## Answer\n"@ + text_of(r.answer) + "\n"@,
        ),
        filled(r.answer) && filled(r.answer_url) ==> contains_seq(
            format_response_spec(r),
            "URL: "@ + text_of(r.answer_url) + "\n"@,
        ),
{
    let sum = summary_section(r);
    let ans = answer_section(r);
    let after = related_section(r) + if nothing_found(r) {
        "No instant results found. Try a more specific query."@
    } else {
        Seq::empty()
    };
    let out = format_response_spec(r);
    assert(out =~= sum + ans + after);
    if filled(r.answer) {
        let head = "## Answer\n"@ + text_of(r.answer) + "\n"@;
        let url = if filled(r.answer_url) {
            "URL: "@ + text_of(r.answer_url) + "\n"@
        } else {
            Seq::empty()
        };
        assert(ans == head + url + "\n"@);
        lemma_contains_middle(sum, head, url + "\n"@ + after);
        assert(sum + head + (url + "\n"@ + after) =~= out);
        if filled(r.answer_url) {
            lemma_contains_middle(sum + head, url, "\n"@ + after);
            assert(sum + head + url + ("\n"@ + after) =~= out);
        }
    }
}

/// The summary section's lines occur in the output.
proof fn lemma_summary_shown(r: SearchResponse)
    ensures
        filled(r.abstract_text) ==> contains_seq(
            format_response_spec(r),
            "## Summary\n"@ + text_of(r.abstract_text) + "\n"@,
        ),
        filled(r.abstract_text) && r.abstract_source is Some ==> contains_seq(
            format_response_spec(r),
            "\nSource: "@ + text_of(r.abstract_source) + "\n"@,
        ),
        filled(r.abstract_text) && filled(r.abstract_url) ==> contains_seq(
            format_response_spec(r),
            "URL: "@ + text_of(r.abstract_url) + "\n"@,
        ),
{
    let sum = summary_section(r);
    let after = answer_section(r) + related_section(r) + if nothing_found(r) {
        "No instant results found. Try a more specific query."@
    } else {
        Seq::empty()
    };
    let out = format_response_spec(r);
    assert(out =~= sum + after);
    if filled(r.abstract_text) {
        let head = "## Summary\n"@ + text_of(r.abstract_text) + "\n"@;
        let src = if r.abstract_source is Some {
            "\nSource: "@ + text_of(r.abstract_source) + "\n"@
        } else {
            Seq::empty()
        };
        let url = if filled(r.abstract_url) {
            "URL: "@ + text_of(r.abstract_url) + "\n"@
        } else {
            Seq::empty()
        };
        assert(sum == head + src + url + "\n"@);
        lemma_contains_middle(Seq::empty(), head, src + url + "\n"@ + after);
        assert(Seq::<char>::empty() + head + (src + url + "\n"@ + after) =~= out);
        if r.abstract_source is Some {
            lemma_contains_middle(head, src, url + "\n"@ + after);
            assert(head + src + (url + "\n"@ + after) =~= out);
        }
        if filled(r.abstract_url) {
            lemma_contains_middle(head + src, url, "\n"@ + after);
            assert(head + src + url + ("\n"@ + after) =~= out);
        }
    }
}

/// The related results' lines occur in the output.
proof fn lemma_related_shown(r: SearchResponse)
    ensures
        forall|i: int|
            0 <= i < topics_of(r).len() && i < max_topics() && (#[trigger] topics_of(r)[i]).text is Some
                ==> contains_seq(
                format_response_spec(r),
                decimal_spec((i + 1) as nat) + ". "@ + text_of(topics_of(r)[i].text),
            ),
        forall|i: int, j: int|
            0 <= i < topics_of(r).len() && i < max_topics() && 0 <= j < subs_of(topics_of(r)[i]).len()
                && (#[trigger] subs_of(#[trigger] topics_of(r)[i])[j]).text is Some && subs_of(
                topics_of(r)[i],
            )[j].first_url is Some ==> contains_seq(
                format_response_spec(r),
                "  - "@ + text_of(subs_of(topics_of(r)[i])[j].text) + " ("@ + text_of(
                    subs_of(topics_of(r)[i])[j].first_url,
                ) + ")\n"@,
            ),
{
    let before = summary_section(r) + answer_section(r);
    let rel = related_section(r);
    let tail = if nothing_found(r) {
        "No instant results found. Try a more specific query."@
    } else {
        Seq::empty()
    };
    let out = format_response_spec(r);
    assert(out =~= before + rel + tail);
    match r.related_topics {
        Some(ts) => {
            if ts@.len() > 0 {
                let n: nat = if ts@.len() > max_topics() {
                    max_topics()
                } else {
                    ts@.len()
                };
                let trunc = if ts@.len() >= max_topics() {
                    "... (results truncated)\n"@
                } else {
                    Seq::empty()
                };
                let lines = topics_lines(ts@, n);
                let pre = before + "## Related Results\n"@;
                assert(rel == "## Related Results\n"@ + lines + trunc);
                assert(out =~= pre + lines + (trunc + tail));
                assert(topics_of(r) == ts@);
                assert forall|i: int|
                    0 <= i < ts@.len() && i < max_topics() && (#[trigger] topics_of(r)[i]).text is Some implies contains_seq(
                        out,
                        decimal_spec((i + 1) as nat) + ". "@ + text_of(topics_of(r)[i].text),
                    ) by {
                    let t = ts@[i];
                    let title = decimal_spec((i + 1) as nat) + ". "@ + text_of(t.text);
                    let rest_title = (if t.first_url is Some {
                        " ("@ + text_of(t.first_url) + ")"@
                    } else {
                        Seq::empty()
                    }) + "\n"@;
                    let subs_part = match t.topics {
                        Some(subs) => sub_lines(subs@, subs@.len()),
                        None => Seq::empty(),
                    };
                    assert(topic_lines(i as nat, t) =~= Seq::<char>::empty() + title + (rest_title + subs_part));
                    lemma_contains_middle(Seq::empty(), title, rest_title + subs_part);
                    lemma_topics_lines_show(ts@, n, i, title);
                    lemma_contains_widen(lines, title, pre, trunc + tail);
                }
                assert forall|i: int, j: int|
                    0 <= i < topics_of(r).len() && i < max_topics() && 0 <= j < subs_of(topics_of(r)[i]).len()
                        && (#[trigger] subs_of(#[trigger] topics_of(r)[i])[j]).text is Some
                        && subs_of(topics_of(r)[i])[j].first_url is Some implies contains_seq(
                        out,
                        "  - "@ + text_of(subs_of(topics_of(r)[i])[j].text) + " ("@ + text_of(
                            subs_of(topics_of(r)[i])[j].first_url,
                        ) + ")\n"@,
                    ) by {
                    let t = ts@[i];
                    let subs = t.topics->Some_0;
                    assert(subs_of(t) == subs@);
                    let line = "  - "@ + text_of(subs@[j].text) + " ("@ + text_of(subs@[j].first_url) + ")\n"@;
                    let head = if t.text is Some {
                        decimal_spec((i + 1) as nat) + ". "@ + text_of(t.text) + (if t.first_url is Some {
                            " ("@ + text_of(t.first_url) + ")"@
                        } else {
                            Seq::empty()
                        }) + "\n"@
                    } else {
                        Seq::empty()
                    };
                    lemma_sub_lines_show(subs@, subs@.len(), j);
                    assert(topic_lines(i as nat, t) =~= head + sub_lines(subs@, subs@.len()) + Seq::<char>::empty());
                    lemma_contains_widen(sub_lines(subs@, subs@.len()), line, head, Seq::empty());
                    lemma_topics_lines_show(ts@, n, i, line);
                    lemma_contains_widen(lines, line, pre, trunc + tail);
                }
            }
        },
        None => {},
    }
}

/// Nothing the response says is left out of what the tool returns: a
/// non-empty abstract and answer each stand on the line after their
/// heading, their source and URLs are shown, and each of the first 22
/// related results shows its numbered text and every sub-result that has a
/// text and a URL.
pub proof fn lemma_response_texts_shown(r: SearchResponse)
    ensures
        filled(r.answer) ==> contains_seq(
            format_response_spec(r),
            "## Answer\n"@ + text_of(r.answer) + "\n"@,
        ),
        filled(r.answer) && filled(r.answer_url) ==> contains_seq(
            format_response_spec(r),
            "URL: "@ + text_of(r.answer_url) + "\n"@,
        ),
        filled(r.abstract_text) ==> contains_seq(
            format_response_spec(r),
            "## Summary\n"@ + text_of(r.abstract_text) + "\n"@,
        ),
        filled(r.abstract_text) && r.abstract_source is Some ==> contains_seq(
            format_response_spec(r),
            "\nSource: "@ + text_of(r.abstract_source) + "\n"@,
        ),
        filled(r.abstract_text) && filled(r.abstract_url) ==> contains_seq(
            format_response_spec(r),
            "URL: "@ + text_of(r.abstract_url) + "\n"@,
        ),
        forall|i: int|
            0 <= i < topics_of(r).len() && i < max_topics() && (#[trigger] topics_of(r)[i]).text is Some
                ==> contains_seq(
                format_response_spec(r),
                decimal_spec((i + 1) as nat) + ". "@ + text_of(topics_of(r)[i].text),
            ),
        forall|i: int, j: int|
            0 <= i < topics_of(r).len() && i < max_topics() && 0 <= j < subs_of(topics_of(r)[i]).len()
                && (#[trigger] subs_of(#[trigger] topics_of(r)[i])[j]).text is Some && subs_of(
                topics_of(r)[i],
            )[j].first_url is Some ==> contains_seq(
                format_response_spec(r),
                "  - "@ + text_of(subs_of(topics_of(r)[i])[j].text) + " ("@ + text_of(
                    subs_of(topics_of(r)[i])[j].first_url,
                ) + ")\n"@,
            ),
{
    lemma_answer_shown(r);
    lemma_summary_shown(r);
    lemma_related_shown(r);
}

/// The result of a `web_search` call once the response came (or failed).
pub open spec fn web_result_spec(s: Result<SearchResponse, String>) -> ToolResultView {
    match s {
        Ok(r) => ToolResultView::Success(format_response_spec(r)),
        Err(e) => ToolResultView::Error(e@),
    }
}

/// Is the field a non-empty string?
fn is_filled(o: &Option<String>) -> (b: bool)
    ensures
        b == filled(*o),
{
    match o {
        Some(s) => !s.as_str().is_empty(),
        None => false,
    }
}

/// Appends a field known to be present.
fn push_field(out: &mut String, o: &Option<String>)
    ensures
        final(out)@ == old(out)@ + text_of(*o),
{
    match o {
        Some(s) => push_str(out, s.as_str()),
        None => {},
    }
}

/// The text the tool returns for a response (see `format_response_spec`).
pub fn format_response(r: &SearchResponse) -> (out: String)
    ensures
        out@ == format_response_spec(*r),
{
    let mut out = String::new();
    if is_filled(&r.abstract_text) {
        push_str(&mut out, "## Summary\n");
        push_field(&mut out, &r.abstract_text);
        push_str(&mut out, "\n");
        if r.abstract_source.is_some() {
            push_str(&mut out, "\nSource: ");
            push_field(&mut out, &r.abstract_source);
            push_str(&mut out, "\n");
        }
        if is_filled(&r.abstract_url) {
            push_str(&mut out, "URL: ");
            push_field(&mut out, &r.abstract_url);
            push_str(&mut out, "\n");
        }
        push_str(&mut out, "\n");
    }
    assert(out@ =~= summary_section(*r));
    let ghost s1 = out@;
    if is_filled(&r.answer) {
        push_str(&mut out, "## Answer\n");
        push_field(&mut out, &r.answer);
        push_str(&mut out, "\n");
        if is_filled(&r.answer_url) {
            push_str(&mut out, "URL: ");
            push_field(&mut out, &r.answer_url);
            push_str(&mut out, "\n");
        }
        push_str(&mut out, "\n");
    }
    assert(out@ =~= s1 + answer_section(*r));
    let ghost s2 = out@;
    push_related(&mut out, r);
    assert(out@ =~= s2 + related_section(*r));
    if !is_filled(&r.abstract_text) && !is_filled(&r.answer) && match &r.related_topics {
        Some(ts) => ts.len() == 0,
        None => true,
    } {
        push_str(&mut out, "No instant results found. Try a more specific query.");
    }
    assert(out@ =~= format_response_spec(*r));
    out
}

/// Appends the related-results section of `r` (see `related_section`).
fn push_related(out: &mut String, r: &SearchResponse)
    ensures
        final(out)@ == old(out)@ + related_section(*r),
{
    let ghost s2 = out@;
    match &r.related_topics {
        Some(ts) => {
            if ts.len() > 0 {
                push_str(out, "## Related Results\n");
                let ghost s3 = out@;
                let mut i: usize = 0;
                loop
                    invariant_except_break
                        i <= ts@.len(),
                        i < max_topics(),
                        out@ == s3 + topics_lines(ts@, i as nat),
                    ensures
                        out@ == s3 + topics_lines(ts@, if ts@.len() > max_topics() { max_topics() } else { ts@.len() }) + if ts@.len() >= max_topics() {
                            "... (results truncated)\n"@
                        } else {
                            Seq::empty()
                        },
                    decreases ts@.len() - i,
                {
                    if i >= ts.len() {
                        assert(out@ =~= s3 + topics_lines(ts@, i as nat) + Seq::empty());
                        break;
                    }
                    push_topic(out, i, &ts[i]);
                    assert(out@ =~= s3 + topics_lines(ts@, (i + 1) as nat));
                    if i > 20 {
                        push_str(out, "... (results truncated)\n");
                        break;
                    }
                    i = i + 1;
                }
            }
        },
        None => {},
    }
    assert(out@ =~= s2 + related_section(*r));
}

/// Appends the lines of the related result at position `i`.
fn push_topic(out: &mut String, i: usize, t: &RelatedTopic)
    requires
        i < 22,
    ensures
        final(out)@ == old(out)@ + topic_lines(i as nat, *t),
{
    let ghost start = out@;
    if t.text.is_some() {
        push_decimal(out, (i + 1) as u64);
        push_str(out, ". ");
        push_field(out, &t.text);
        if t.first_url.is_some() {
            push_str(out, " (");
            push_field(out, &t.first_url);
            push_str(out, ")");
        }
        push_str(out, "\n");
    }
    let ghost mid = out@;
    match &t.topics {
        Some(subs) => {
            let mut j: usize = 0;
            while j < subs.len()
                invariant
                    j <= subs@.len(),
                    out@ == mid + sub_lines(subs@, j as nat),
                decreases subs.len() - j,
            {
                let s = &subs[j];
                if s.text.is_some() && s.first_url.is_some() {
                    push_str(out, "  - ");
                    push_field(out, &s.text);
                    push_str(out, " (");
                    push_field(out, &s.first_url);
                    push_str(out, ")\n");
                }
                assert(out@ =~= mid + sub_lines(subs@, (j + 1) as nat));
                j = j + 1;
            }
        },
        None => {},
    }
    assert(out@ =~= start + topic_lines(i as nat, *t));
}

/// Searches the web.
pub struct WebSearchTool {
    spec: ToolSpec,
}

impl WebSearchTool {
    /// The `web_search` tool.
    pub fn default() -> (r: Self)
        ensures
            r.tool_spec() == web_search_tool_spec(),
    {
        let mut params: Vec<ToolParam> = Vec::new();
        params.push(make_param("query", "string", "The search query", true));
        let r = WebSearchTool {
            spec: make_spec(
                "web_search",
                "Search the web using DuckDuckGo. Returns relevant snippets and URLs.",
                params,
                false,
            ),
        };
        assert(r.tool_spec().parameters =~= web_search_tool_spec().parameters);
        r
    }

    /// The DuckDuckGo instant-answer URL for `query`.
    pub fn search_url(query: &str) -> (r: String)
        ensures
            r@ == search_url_spec(query@),
    {
        let mut url = String::new();
        push_str(&mut url, "https://api.duckduckgo.com/?q=");
        let enc = urlencoding(query);
        push_str(&mut url, enc.as_str());
        push_str(&mut url, "&format=json&no_html=1&skip_disambig=1");
        assert(url@ =~= search_url_spec(query@));
        url
    }

    /// The result once the search response came (or failed).
    pub fn finish(s: Result<SearchResponse, String>) -> (r: ToolResult)
        ensures
            r@ == web_result_spec(s),
    {
        match s {
            Ok(resp) => ToolResult::Success { output: format_response(&resp) },
            Err(e) => ToolResult::Error { message: e },
        }
    }
}

impl Tool for WebSearchTool {
    closed spec fn tool_spec(&self) -> ToolSpecView {
        self.spec@
    }

    open spec fn plan(&self, args: Map<Seq<char>, Seq<char>>) -> ToolOutcomeView {
        web_plan(args)
    }

    fn spec(&self) -> (r: &ToolSpec) {
        &self.spec
    }

    fn execute(&self, args: &StringMap) -> (r: ToolOutcome) {
        match args.get("query") {
            Some(q) => ToolOutcome::Io(
                IoRequest::FetchSearch { query: q.clone(), url: Self::search_url(q.as_str()) },
            ),
            None => ToolOutcome::Finished(
                ToolResult::Error { message: to_owned_string("Missing 'query' argument") },
            ),
        }
    }
}

} // verus!
