//! What the chat panel shows: message content split into text and code
//! parts, the agent's steps, and the providers offered.

use vstd::prelude::*;
use crate::sdk::agent::AgentMode;
use crate::sdk::provider::{ChatMessage, ChatRequest, ChatResponse, ProviderError};
use crate::string_map::StringMap;
use crate::text::{
    chars_of, decimal_spec, find_from, first_match_from, lemma_first_match_is_match,
    matches_at, push_decimal, push_str, split_exec, split_spec, string_from_range, to_owned_string,
    trim_range, trim_spec, utf8_len, str_eq, replace_exec, replace_spec, contains_seq,
};
use vstd::assert_seqs_equal;

verus! {

broadcast use vstd::string::group_string_axioms;

// ── Content parts ──────────────────────────────────────────────────────

/// A piece of a chat message: running text, or a fenced code block with
/// its language tag.
#[derive(Debug, Clone, PartialEq, Eq)]
pub enum ContentPart {
    Text(String),
    Code { language: String, code: String },
}

/// A content part as characters.
pub ghost enum PartView {
    Text(Seq<char>),
    Code { language: Seq<char>, code: Seq<char> },
}

impl View for ContentPart {
    type V = PartView;

    open spec fn view(&self) -> PartView {
        match self {
            ContentPart::Text(t) => PartView::Text(t@),
            ContentPart::Code { language, code } => PartView::Code {
                language: language@,
                code: code@,
            },
        }
    }
}

/// The parts as views.
pub open spec fn parts_view(v: Seq<ContentPart>) -> Seq<PartView> {
    v.map_values(|p: ContentPart| p@)
}

/// A code fence.
pub open spec fn fence() -> Seq<char> {
    seq!['`', '`', '`']
}

/// Every fence opened at or after `pos` is closed again.
pub open spec fn fences_closed_from(s: Seq<char>, pos: int) -> bool
    decreases s.len() + 1 - pos,
{
    if pos < 0 || pos > s.len() {
        true
    } else {
        match first_match_from(s, fence(), pos) {
            None => true,
            Some(start) => match first_match_from(s, fence(), start + 3) {
                None => false,
                Some(end) => if pos < end + 3 <= s.len() {
                    fences_closed_from(s, end + 3)
                } else {
                    true
                },
            },
        }
    }
}

/// Every code fence in `s` is closed.
pub open spec fn fences_closed(s: Seq<char>) -> bool {
    fences_closed_from(s, 0)
}

/// The code part for the text between two fences: the first line is the
/// language tag (trimmed), the rest is the code; with no line break, there
/// is no tag.
pub open spec fn code_part(block: Seq<char>) -> PartView {
    match first_match_from(block, seq!['\n'], 0) {
        Some(nl) => PartView::Code { language: trim_spec(block.take(nl)), code: block.skip(nl + 1) },
        None => PartView::Code { language: Seq::empty(), code: block },
    }
}

/// The parts of `s` from `pos` on: non-empty text between code blocks, and
/// each fenced block as a code part.
pub open spec fn blocks_from(s: Seq<char>, pos: int) -> Seq<PartView>
    decreases s.len() + 1 - pos,
{
    if pos < 0 || pos > s.len() {
        Seq::empty()
    } else {
        match first_match_from(s, fence(), pos) {
            None => if pos < s.len() {
                seq![PartView::Text(s.subrange(pos, s.len() as int))]
            } else {
                Seq::empty()
            },
            Some(start) => match first_match_from(s, fence(), start + 3) {
                None => Seq::empty(),
                Some(end) => if pos < end + 3 <= s.len() {
                    (if start > pos {
                        seq![PartView::Text(s.subrange(pos, start))]
                    } else {
                        Seq::empty()
                    }) + seq![code_part(s.subrange(start + 3, end))] + blocks_from(s, end + 3)
                } else {
                    Seq::empty()
                },
            },
        }
    }
}

/// The text and code parts of a message.
pub open spec fn code_blocks_spec(s: Seq<char>) -> Seq<PartView> {
    blocks_from(s, 0)
}

/// A part written back as message text: a text part as it is, a code part
/// as its raw block `raw` between two fences.
pub open spec fn part_text(p: PartView, raw: Seq<char>) -> Seq<char> {
    match p {
        PartView::Text(t) => t,
        PartView::Code { .. } => fence() + raw + fence(),
    }
}

/// The parts written back one after the other, the `k`-th code part with
/// the raw block `raws[k]`.
pub open spec fn assemble(parts: Seq<PartView>, raws: Seq<Seq<char>>) -> Seq<char>
    decreases parts.len(),
{
    if parts.len() == 0 {
        Seq::empty()
    } else {
        part_text(parts[0], raws[0]) + assemble(parts.drop_first(), raws.drop_first())
    }
}

/// `parts` read back, with the raw blocks `raws`, give exactly `s`: every
/// character outside the fences is in a text part, text parts are non-empty,
/// hold no fence and are never split in two, and each code part is what its
/// raw block (which holds no fence) says.
pub open spec fn reads_back(s: Seq<char>, parts: Seq<PartView>, raws: Seq<Seq<char>>) -> bool {
    &&& raws.len() == parts.len()
    &&& assemble(parts, raws) == s
    &&& forall|k: int|
        0 <= k < parts.len() ==> match #[trigger] parts[k] {
            PartView::Text(t) => t.len() > 0 && !contains_seq(t, fence()) && (k + 1 < parts.len()
                ==> parts[k + 1] is Code),
            PartView::Code { .. } => code_read_from(parts[k], raws[k]) && !contains_seq(raws[k], fence()),
        }
}

/// `p` is the code part read from the raw block `raw`: when `raw` has a line
/// break, the text before the first one, trimmed, is the language and all
/// the text after it is the code; otherwise there is no language and all of
/// `raw` is the code.
pub open spec fn code_read_from(p: PartView, raw: Seq<char>) -> bool {
    match p {
        PartView::Code { language, code } => if raw.contains('\n') {
            exists|l: Seq<char>|
                raw == l + seq!['\n'] + code && !l.contains('\n') && language == trim_spec(l)
        } else {
            language.len() == 0 && code == raw
        },
        PartView::Text(_) => false,
    }
}

/// The code part of a raw block is read from it as `code_read_from` says.
proof fn lemma_code_part_read(raw: Seq<char>)
    ensures
        code_read_from(code_part(raw), raw),
{
    let nl = seq!['\n'];
    lemma_first_match_is_match(raw, nl, 0);
    match first_match_from(raw, nl, 0) {
        Some(k) => {
            let l = raw.take(k);
            let code = raw.skip(k + 1);
            assert(raw.subrange(k, k + 1) == nl);
            assert(raw[k] == raw.subrange(k, k + 1)[0]);
            assert(raw =~= l + nl + code);
            assert(raw.contains('\n'));
            if l.contains('\n') {
                let j = choose|j: int| 0 <= j < l.len() && l[j] == '\n';
                assert(raw.subrange(j, j + 1) =~= nl);
                assert(matches_at(raw, nl, j));
            }
        },
        None => {
            if raw.contains('\n') {
                let j = choose|j: int| 0 <= j < raw.len() && raw[j] == '\n';
                assert(raw.subrange(j, j + 1) =~= nl);
                assert(matches_at(raw, nl, j));
            }
        },
    }
}

/// The raw blocks behind `blocks_from(s, pos)`, an empty one for each text
/// part.
spec fn raws_from(s: Seq<char>, pos: int) -> Seq<Seq<char>>
    decreases s.len() + 1 - pos,
{
    if pos < 0 || pos > s.len() {
        Seq::empty()
    } else {
        match first_match_from(s, fence(), pos) {
            None => if pos < s.len() {
                seq![Seq::empty()]
            } else {
                Seq::empty()
            },
            Some(start) => match first_match_from(s, fence(), start + 3) {
                None => Seq::empty(),
                Some(end) => if pos < end + 3 <= s.len() {
                    (if start > pos {
                        seq![Seq::<char>::empty()]
                    } else {
                        Seq::empty()
                    }) + seq![s.subrange(start + 3, end)] + raws_from(s, end + 3)
                } else {
                    Seq::empty()
                },
            },
        }
    }
}

/// Putting one part in front of others.
proof fn lemma_assemble_cons(p: PartView, r: Seq<char>, parts: Seq<PartView>, raws: Seq<Seq<char>>)
    ensures
        assemble(seq![p] + parts, seq![r] + raws) == part_text(p, r) + assemble(parts, raws),
{
    assert((seq![p] + parts).drop_first() =~= parts);
    assert((seq![r] + raws).drop_first() =~= raws);
}

/// A piece of `s` between two positions, where no fence starts, holds no
/// fence.
proof fn lemma_no_fence_inside(s: Seq<char>, a: int, b: int)
    requires
        0 <= a <= b <= s.len(),
        forall|j: int| a <= j < b ==> !matches_at(s, fence(), j),
    ensures
        !contains_seq(s.subrange(a, b), fence()),
{
    let t = s.subrange(a, b);
    if contains_seq(t, fence()) {
        let j = choose|j: int| matches_at(t, fence(), j);
        assert(t.subrange(j, j + 3) =~= s.subrange(a + j, a + j + 3));
        assert(matches_at(s, fence(), a + j));
    }
}

/// `blocks_from(s, pos)` reads back as `s[pos..]`.
proof fn lemma_blocks_read_back(s: Seq<char>, pos: int)
    requires
        0 <= pos <= s.len(),
        fences_closed_from(s, pos),
    ensures
        reads_back(s.subrange(pos, s.len() as int), blocks_from(s, pos), raws_from(s, pos)),
    decreases s.len() + 1 - pos,
{
    let rest_s = s.subrange(pos, s.len() as int);
    lemma_first_match_is_match(s, fence(), pos);
    match first_match_from(s, fence(), pos) {
        None => {
            if pos < s.len() {
                lemma_no_fence_inside(s, pos, s.len() as int);
                let parts = blocks_from(s, pos);
                let raws = raws_from(s, pos);
                assert(parts =~= seq![PartView::Text(rest_s)]);
                lemma_assemble_cons(parts[0], raws[0], Seq::empty(), Seq::empty());
                assert(seq![parts[0]] + Seq::<PartView>::empty() =~= parts);
                assert(seq![raws[0]] + Seq::<Seq<char>>::empty() =~= raws);
                assert(assemble(parts, raws) =~= rest_s);
            } else {
                assert(rest_s =~= Seq::<char>::empty());
            }
        },
        Some(start) => {
            lemma_first_match_is_match(s, fence(), start + 3);
            let end = first_match_from(s, fence(), start + 3)->Some_0;
            assert(pos < end + 3 <= s.len());
            lemma_blocks_read_back(s, end + 3);
            let rest_p = blocks_from(s, end + 3);
            let rest_r = raws_from(s, end + 3);
            let raw = s.subrange(start + 3, end);
            let code = code_part(raw);
            lemma_no_fence_inside(s, start + 3, end);
            lemma_code_part_read(raw);
            lemma_assemble_cons(code, raw, rest_p, rest_r);
            let tail_p = seq![code] + rest_p;
            let tail_r = seq![raw] + rest_r;
            assert(s.subrange(start, start + 3) == fence());
            assert(s.subrange(end, end + 3) == fence());
            assert(part_text(code, raw) + s.subrange(end + 3, s.len() as int) =~= s.subrange(
                start,
                s.len() as int,
            ));
            assert(reads_back(s.subrange(start, s.len() as int), tail_p, tail_r)) by {
                assert forall|k: int| 0 <= k < tail_p.len() implies match #[trigger] tail_p[k] {
                    PartView::Text(t) => t.len() > 0 && !contains_seq(t, fence()) && (k + 1
                        < tail_p.len() ==> tail_p[k + 1] is Code),
                    PartView::Code { .. } => code_read_from(tail_p[k], tail_r[k]) && !contains_seq(
                        tail_r[k],
                        fence(),
                    ),
                } by {
                    if k > 0 {
                        assert(tail_p[k] == rest_p[k - 1]);
                        assert(tail_r[k] == rest_r[k - 1]);
                        if k + 1 < tail_p.len() {
                            assert(tail_p[k + 1] == rest_p[k]);
                        }
                    }
                }
            }
            if start > pos {
                let t = s.subrange(pos, start);
                lemma_no_fence_inside(s, pos, start);
                let parts = seq![PartView::Text(t)] + tail_p;
                let raws = seq![Seq::<char>::empty()] + tail_r;
                assert(blocks_from(s, pos) =~= parts);
                assert(raws_from(s, pos) =~= raws);
                lemma_assemble_cons(PartView::Text(t), Seq::empty(), tail_p, tail_r);
                assert(t + s.subrange(start, s.len() as int) =~= rest_s);
                assert forall|k: int| 0 <= k < parts.len() implies match #[trigger] parts[k] {
                    PartView::Text(t) => t.len() > 0 && !contains_seq(t, fence()) && (k + 1
                        < parts.len() ==> parts[k + 1] is Code),
                    PartView::Code { .. } => code_read_from(parts[k], raws[k]) && !contains_seq(
                        raws[k],
                        fence(),
                    ),
                } by {
                    if k > 0 {
                        assert(parts[k] == tail_p[k - 1]);
                        assert(raws[k] == tail_r[k - 1]);
                        if k + 1 < parts.len() {
                            assert(parts[k + 1] == tail_p[k]);
                        }
                    } else {
                        assert(parts[1] == code);
                    }
                }
            } else {
                assert(start == pos);
                assert(blocks_from(s, pos) =~= tail_p);
                assert(raws_from(s, pos) =~= tail_r);
            }
        },
    }
}

/// Nothing of a message is lost when it is split: written back in order
/// (text as it is, each code block between fences around its raw text), the
/// parts give the whole message again. Every text outside the fences,
/// including each non-empty run between two code blocks, is a text part in
/// its place; text parts hold no fence, and each code part is read from its
/// raw block (language from the first line, code from the rest).
pub proof fn lemma_split_code_blocks_reads_back(s: Seq<char>)
    requires
        fences_closed(s),
    ensures
        exists|raws: Seq<Seq<char>>| reads_back(s, code_blocks_spec(s), raws),
{
    lemma_blocks_read_back(s, 0);
    assert(s.subrange(0, s.len() as int) =~= s);
    assert(reads_back(s, code_blocks_spec(s), raws_from(s, 0)));
}

/// The code part for `v[from..to]`.
fn make_code_part(v: &Vec<char>, from: usize, to: usize) -> (r: ContentPart)
    requires
        from <= to <= v@.len(),
    ensures
        r@ == code_part(v@.subrange(from as int, to as int)),
{
    let block_str = string_from_range(v, from, to);
    let block = chars_of(block_str.as_str());
    let nl: Vec<char> = vec!['\n'];
    assert(nl@ =~= seq!['\n']);
    match find_from(&block, &nl, 0) {
        Some(k) => {
            proof {
                lemma_first_match_is_match(block@, nl@, 0);
            }
            let language = trim_range(&block, 0, k);
            let code = string_from_range(&block, k + 1, block.len());
            assert(block@.subrange(0, k as int) =~= block@.take(k as int));
            assert(block@.subrange(k + 1, block@.len() as int) =~= block@.skip(k + 1));
            ContentPart::Code { language, code }
        },
        None => ContentPart::Code { language: String::new(), code: block_str },
    }
}

/// Splits a message into text and fenced code blocks. Every fence must be
/// closed.
pub fn split_code_blocks(content: &str) -> (r: Vec<ContentPart>)
    requires
        fences_closed(content@),
    ensures
        parts_view(r@) == code_blocks_spec(content@),
{
    let s = chars_of(content);
    let f: Vec<char> = vec!['`', '`', '`'];
    assert(f@ =~= fence());
    let mut parts: Vec<ContentPart> = Vec::new();
    let mut pos: usize = 0;
    loop
        invariant
            pos <= s@.len(),
            s@ == content@,
            f@ == fence(),
            fences_closed_from(s@, pos as int),
            parts_view(parts@) + blocks_from(s@, pos as int) == code_blocks_spec(s@),
        decreases s@.len() + 1 - pos,
    {
        proof {
            lemma_first_match_is_match(s@, f@, pos as int);
        }
        match find_from(&s, &f, pos) {
            None => {
                if pos < s.len() {
                    let t = string_from_range(&s, pos, s.len());
                    let ghost prev = parts@;
                    parts.push(ContentPart::Text(t));
                    assert(parts_view(parts@) =~= parts_view(prev).push(
                        PartView::Text(s@.subrange(pos as int, s@.len() as int)),
                    ));
                } else {
                    assert(parts_view(parts@) + blocks_from(s@, pos as int) =~= parts_view(parts@));
                }
                assert(parts_view(parts@) =~= code_blocks_spec(s@));
                return parts;
            },
            Some(start) => {
                assert(matches_at(s@, f@, start as int));
                assert(start + 3 <= s.len());
                proof {
                    lemma_first_match_is_match(s@, f@, start + 3);
                }
                let end = match find_from(&s, &f, start + 3) {
                    Some(e) => e,
                    None => {
                        assert(false);
                        0
                    },
                };
                assert(matches_at(s@, f@, end as int));
                assert(end + 3 <= s.len());
                let ghost prev = parts@;
                let ghost before: Seq<PartView> = if start > pos {
                    seq![PartView::Text(s@.subrange(pos as int, start as int))]
                } else {
                    Seq::empty()
                };
                if start > pos {
                    let t = string_from_range(&s, pos, start);
                    parts.push(ContentPart::Text(t));
                }
                let c = make_code_part(&s, start + 3, end);
                parts.push(c);
                assert(parts_view(parts@) =~= parts_view(prev) + before + seq![
                    code_part(s@.subrange(start + 3, end as int)),
                ]);
                pos = end + 3;
            },
        }
    }
}

/// The paragraphs of a text part, as parts: each non-blank paragraph
/// trimmed, with a line break before every one but the first paragraph of
/// the text.
pub open spec fn paragraph_parts(paras: Seq<Seq<char>>, n: nat) -> Seq<PartView>
    decreases n,
{
    if n == 0 || n > paras.len() {
        Seq::empty()
    } else {
        let i = (n - 1) as int;
        let t = trim_spec(paras[i]);
        paragraph_parts(paras, (n - 1) as nat) + if t.len() > 0 {
            (if i > 0 {
                seq![PartView::Text(seq!['\n'])]
            } else {
                Seq::empty()
            }) + seq![PartView::Text(t)]
        } else {
            Seq::empty()
        }
    }
}

/// The parts a content part becomes for display: code stays as it is, and
/// text is broken into its paragraphs (split at blank lines).
pub open spec fn display_parts(p: PartView) -> Seq<PartView> {
    match p {
        PartView::Code { .. } => seq![p],
        PartView::Text(t) => {
            let paras = split_spec(t, seq!['\n', '\n']);
            paragraph_parts(paras, paras.len())
        },
    }
}

/// The display parts of the first `n` parts, in order.
pub open spec fn all_display_parts(ps: Seq<PartView>, n: nat) -> Seq<PartView>
    decreases n,
{
    if n == 0 || n > ps.len() {
        Seq::empty()
    } else {
        all_display_parts(ps, (n - 1) as nat) + display_parts(ps[n - 1])
    }
}

/// The parts a message is shown as.
pub open spec fn parse_content_spec(s: Seq<char>) -> Seq<PartView> {
    let ps = code_blocks_spec(s);
    all_display_parts(ps, ps.len())
}

/// Appends the paragraphs of `text` (see `paragraph_parts`).
fn push_paragraphs(out: &mut Vec<ContentPart>, text: &String)
    ensures
        parts_view(final(out)@) == parts_view(old(out)@) + display_parts(PartView::Text(text@)),
{
    let v = chars_of(text.as_str());
    let sep: Vec<char> = vec!['\n', '\n'];
    assert(sep@ =~= seq!['\n', '\n']);
    let paras = split_exec(&v, &sep);
    let ghost pv = paras@.map_values(|p: String| p@);
    let ghost start = out@;
    let mut i: usize = 0;
    while i < paras.len()
        invariant
            i <= paras@.len(),
            pv == paras@.map_values(|p: String| p@),
            parts_view(out@) == parts_view(start) + paragraph_parts(pv, i as nat),
        decreases paras.len() - i,
    {
        let pc = chars_of(paras[i].as_str());
        let t = trim_range(&pc, 0, pc.len());
        assert(pc@.subrange(0, pc@.len() as int) =~= pc@);
        assert(pc@ == pv[i as int]);
        let ghost prev = out@;
        let ghost tv = t@;
        if !t.as_str().is_empty() {
            if i > 0 {
                let mut nl = String::new();
                push_str(&mut nl, "\n");
                proof {
                    reveal_strlit("\n");
                }
                assert(nl@ =~= seq!['\n']);
                out.push(ContentPart::Text(nl));
            }
            out.push(ContentPart::Text(t));
            assert(parts_view(out@) =~= parts_view(prev) + (if i > 0 {
                seq![PartView::Text(seq!['\n'])]
            } else {
                Seq::empty()
            }) + seq![PartView::Text(tv)]);
        } else {
            assert(parts_view(out@) =~= parts_view(prev));
        }
        assert(parts_view(out@) =~= parts_view(start) + paragraph_parts(pv, (i + 1) as nat));
        i = i + 1;
    }
}

/// Splits a message into the parts it is shown as: code blocks, and the
/// trimmed paragraphs of the text around them. Every fence must be closed.
pub fn parse_content(content: &str) -> (r: Vec<ContentPart>)
    requires
        fences_closed(content@),
    ensures
        parts_view(r@) == parse_content_spec(content@),
{
    let code_parts = split_code_blocks(content);
    let ghost ps = parts_view(code_parts@);
    let mut all: Vec<ContentPart> = Vec::new();
    let mut i: usize = 0;
    while i < code_parts.len()
        invariant
            i <= code_parts@.len(),
            ps == parts_view(code_parts@),
            parts_view(all@) == all_display_parts(ps, i as nat),
        decreases code_parts.len() - i,
    {
        match &code_parts[i] {
            ContentPart::Code { language, code } => {
                let ghost prev = all@;
                all.push(ContentPart::Code { language: language.clone(), code: code.clone() });
                assert(parts_view(all@) =~= parts_view(prev) + seq![ps[i as int]]);
            },
            ContentPart::Text(t) => {
                push_paragraphs(&mut all, t);
            },
        }
        i = i + 1;
    }
    all
}

/// A key for a part: its kind, its language for code, and its length in
/// UTF-8 bytes.
pub open spec fn part_id_spec(p: PartView) -> Seq<char> {
    match p {
        PartView::Text(t) => "text_"@ + decimal_spec(utf8_len(t)),
        PartView::Code { language, code } => "code_"@ + language + "_"@ + decimal_spec(
            utf8_len(code),
        ),
    }
}

impl ContentPart {
    /// A key for the part (see `part_id_spec`).
    pub fn id(&self) -> (r: String)
        ensures
            r@ == part_id_spec(self@),
    {
        let mut out = String::new();
        match self {
            ContentPart::Text(t) => {
                push_str(&mut out, "text_");
                push_decimal(&mut out, t.as_str().len() as u64);
            },
            ContentPart::Code { language, code } => {
                push_str(&mut out, "code_");
                push_str(&mut out, language.as_str());
                push_str(&mut out, "_");
                push_decimal(&mut out, code.as_str().len() as u64);
            },
        }
        out
    }
}

// ── Colors ─────────────────────────────────────────────────────────────

/// An opaque color from `0xRRGGBB`, as (red, green, blue, alpha).
pub open spec fn hex_color_spec(hex: u32) -> (u8, u8, u8, u8) {
    (((hex / 0x10000) % 0x100) as u8, ((hex / 0x100) % 0x100) as u8, (hex % 0x100) as u8, 0xFF)
}

/// An opaque color from `0xRRGGBB` (see `hex_color_spec`).
pub fn hex_color(hex: u32) -> (r: (u8, u8, u8, u8))
    ensures
        r == hex_color_spec(hex),
{
    let r = ((hex >> 16) & 0xFF) as u8;
    let g = ((hex >> 8) & 0xFF) as u8;
    let b = (hex & 0xFF) as u8;
    assert(((hex >> 16) & 0xFF) == (hex / 0x10000) % 0x100) by (bit_vector);
    assert(((hex >> 8) & 0xFF) == (hex / 0x100) % 0x100) by (bit_vector);
    assert((hex & 0xFF) == hex % 0x100) by (bit_vector);
    (r, g, b, 0xFF)
}

/// The accent color of each agent mode: Plan orange, Edit green, Review
/// blue, Debug red, Research purple, and Chat a neutral grey.
pub open spec fn mode_accent_spec(mode: AgentMode) -> (u8, u8, u8, u8) {
    match mode {
        AgentMode::Chat => hex_color_spec(0xD4D4D8),
        AgentMode::Edit => hex_color_spec(0x22C55E),
        AgentMode::Plan => hex_color_spec(0xF97316),
        AgentMode::Review => hex_color_spec(0x3B82F6),
        AgentMode::Debug => hex_color_spec(0xEF4444),
        AgentMode::Research => hex_color_spec(0xA855F7),
    }
}

/// The accent color of an agent mode (see `mode_accent_spec`).
pub fn mode_accent(mode: &AgentMode) -> (r: (u8, u8, u8, u8))
    ensures
        r == mode_accent_spec(*mode),
{
    match mode {
        AgentMode::Chat => hex_color(0xD4D4D8),
        AgentMode::Edit => hex_color(0x22C55E),
        AgentMode::Plan => hex_color(0xF97316),
        AgentMode::Review => hex_color(0x3B82F6),
        AgentMode::Debug => hex_color(0xEF4444),
        AgentMode::Research => hex_color(0xA855F7),
    }
}

/// The color a step of type `step_type` is drawn in, as (red, green, blue,
/// alpha).
pub open spec fn step_color_spec(step_type: Seq<char>) -> (u8, u8, u8, u8) {
    if step_type == "think"@ {
        (0xA8, 0x55, 0xF7, 0xFF)
    } else if step_type == "read"@ || step_type == "search"@ {
        (0x3B, 0x82, 0xF6, 0xFF)
    } else if step_type == "write"@ || step_type == "done"@ {
        (0x22, 0xC5, 0x5E, 0xFF)
    } else if step_type == "run"@ {
        (0xF9, 0x73, 0x16, 0xFF)
    } else if step_type == "error"@ {
        (0xEF, 0x44, 0x44, 0xFF)
    } else {
        (0xA1, 0xA1, 0xAA, 0xFF)
    }
}

/// The color a step of type `step_type` is drawn in.
pub fn step_color(step_type: &str) -> (r: (u8, u8, u8, u8))
    ensures
        r == step_color_spec(step_type@),
{
    if str_eq(step_type, "think") {
        (0xA8, 0x55, 0xF7, 0xFF)
    } else if str_eq(step_type, "read") || str_eq(step_type, "search") {
        (0x3B, 0x82, 0xF6, 0xFF)
    } else if str_eq(step_type, "write") || str_eq(step_type, "done") {
        (0x22, 0xC5, 0x5E, 0xFF)
    } else if str_eq(step_type, "run") {
        (0xF9, 0x73, 0x16, 0xFF)
    } else if str_eq(step_type, "error") {
        (0xEF, 0x44, 0x44, 0xFF)
    } else {
        (0xA1, 0xA1, 0xAA, 0xFF)
    }
}

// ── Agent steps ────────────────────────────────────────────────────────

/// How far an agent step has got.
#[derive(Debug, Clone, Copy, PartialEq, Eq, Structural)]
pub enum StepStatus {
    Pending,
    Running,
    Done,
    Error,
}

/// An agent step as the panel lists it.
#[derive(Debug, Clone)]
pub struct AgentStepDisplay {
    pub id: u64,
    pub step_type: String,
    pub description: String,
    pub status: StepStatus,
}

/// A listed step as characters.
pub ghost struct StepView {
    pub id: u64,
    pub step_type: Seq<char>,
    pub description: Seq<char>,
    pub status: StepStatus,
}

impl View for AgentStepDisplay {
    type V = StepView;

    open spec fn view(&self) -> StepView {
        StepView {
            id: self.id,
            step_type: self.step_type@,
            description: self.description@,
            status: self.status,
        }
    }
}

/// The icon shown for a step of type `step_type`.
pub open spec fn step_icon_spec(step_type: Seq<char>) -> Seq<char> {
    if step_type == "think"@ {
        "\u{25cf}"@
    } else if step_type == "read"@ {
        "\u{25ce}"@
    } else if step_type == "write"@ {
        "\u{270e}"@
    } else if step_type == "run"@ {
        "\u{25b8}"@
    } else if step_type == "search"@ {
        "\u{2315}"@
    } else if step_type == "done"@ {
        "\u{2713}"@
    } else if step_type == "error"@ {
        "\u{2717}"@
    } else {
        "\u{b7}"@
    }
}

/// The icon shown for a step of type `step_type`.
pub fn step_icon(step_type: &str) -> (r: &'static str)
    ensures
        r@ == step_icon_spec(step_type@),
{
    if str_eq(step_type, "think") {
        "\u{25cf}"
    } else if str_eq(step_type, "read") {
        "\u{25ce}"
    } else if str_eq(step_type, "write") {
        "\u{270e}"
    } else if str_eq(step_type, "run") {
        "\u{25b8}"
    } else if str_eq(step_type, "search") {
        "\u{2315}"
    } else if str_eq(step_type, "done") {
        "\u{2713}"
    } else if str_eq(step_type, "error") {
        "\u{2717}"
    } else {
        "\u{b7}"
    }
}

/// The agent steps of a run, in the order they were added; each gets the
/// next number of a counter that only goes up (and wraps at `u64::MAX`).
pub struct AgentStepLog {
    steps: Vec<AgentStepDisplay>,
    next_id: u64,
}

/// The id after `id` on a counter that wraps.
pub open spec fn next_counter(id: u64) -> u64 {
    if id == u64::MAX {
        0
    } else {
        (id + 1) as u64
    }
}

/// `steps` with the first step numbered `id`, if any, given `status` and
/// `description`.
pub open spec fn update_steps(steps: Seq<StepView>, id: u64, status: StepStatus, description: Seq<char>) -> Seq<StepView> {
    if exists|i: int| 0 <= i < steps.len() && steps[i].id == id {
        let i = choose|i: int|
            0 <= i < steps.len() && steps[i].id == id && forall|j: int| 0 <= j < i ==> steps[j].id != id;
        steps.update(i, StepView { status, description, ..steps[i] })
    } else {
        steps
    }
}

impl AgentStepLog {
    /// The listed steps.
    pub closed spec fn steps_view(&self) -> Seq<StepView> {
        self.steps@.map_values(|s: AgentStepDisplay| s@)
    }

    /// The number the next step gets.
    pub closed spec fn next_id_view(&self) -> u64 {
        self.next_id
    }

    /// An empty list whose first step is numbered 1.
    pub fn new() -> (r: Self)
        ensures
            r.steps_view() == Seq::<StepView>::empty(),
            r.next_id_view() == 1,
    {
        AgentStepLog { steps: Vec::new(), next_id: 1 }
    }

    /// The listed steps.
    pub fn steps(&self) -> (r: &Vec<AgentStepDisplay>)
        ensures
            r@.map_values(|s: AgentStepDisplay| s@) == self.steps_view(),
    {
        &self.steps
    }

    /// Adds a running step and returns its number.
    pub fn add_step(&mut self, step_type: &str, description: &str) -> (id: u64)
        ensures
            id == old(self).next_id_view(),
            final(self).next_id_view() == next_counter(id),
            final(self).steps_view() == old(self).steps_view().push(
                StepView {
                    id,
                    step_type: step_type@,
                    description: description@,
                    status: StepStatus::Running,
                },
            ),
    {
        self.push_step(step_type, description, StepStatus::Running)
    }

    /// Adds a step with status `status` and returns its number.
    pub fn push_step(&mut self, step_type: &str, description: &str, status: StepStatus) -> (id: u64)
        ensures
            id == old(self).next_id_view(),
            final(self).next_id_view() == next_counter(id),
            final(self).steps_view() == old(self).steps_view().push(
                StepView { id, step_type: step_type@, description: description@, status },
            ),
    {
        let id = self.next_id;
        self.next_id = if self.next_id == u64::MAX {
            0
        } else {
            self.next_id + 1
        };
        let ghost prev = self.steps@;
        let step = AgentStepDisplay {
            id,
            step_type: to_owned_string(step_type),
            description: to_owned_string(description),
            status,
        };
        let ghost sv = step@;
        self.steps.push(step);
        assert(self.steps@.map_values(|s: AgentStepDisplay| s@) =~= prev.map_values(
            |s: AgentStepDisplay| s@,
        ).push(sv));
        id
    }

    /// Sets the status and description of the first step numbered `id`;
    /// nothing changes when there is none.
    pub fn update_step(&mut self, id: u64, status: StepStatus, description: String)
        ensures
            final(self).steps_view() == update_steps(old(self).steps_view(), id, status, description@),
            final(self).next_id_view() == old(self).next_id_view(),
    {
        let ghost old_steps = self.steps_view();
        let mut i: usize = 0;
        while i < self.steps.len()
            invariant
                i <= self.steps@.len(),
                self.steps_view() == old_steps,
                old_steps == old(self).steps_view(),
                self.next_id == old(self).next_id,
                forall|j: int| 0 <= j < i ==> self.steps@[j].id != id,
            decreases self.steps.len() - i,
        {
            if self.steps[i].id == id {
                proof {
                    assert(old_steps[i as int].id == id);
                    let c = choose|c: int|
                        0 <= c < old_steps.len() && old_steps[c].id == id && forall|j: int|
                            0 <= j < c ==> old_steps[j].id != id;
                    assert(0 <= c < old_steps.len() && old_steps[c].id == id && forall|j: int|
                            0 <= j < c ==> old_steps[j].id != id) by {
                        assert(forall|j: int| 0 <= j < i ==> old_steps[j].id != id);
                    }
                    if c < i {
                        assert(old_steps[c].id != id);
                    }
                    if c > i {
                        assert(old_steps[i as int].id != id);
                    }
                    assert(c == i);
                }
                let ghost prev = self.steps@;
                let step_type = self.steps[i].step_type.clone();
                let new_step = AgentStepDisplay { id, step_type, description, status };
                let ghost nv = new_step@;
                self.steps.set(i, new_step);
                assert(self.steps@.map_values(|s: AgentStepDisplay| s@) =~= prev.map_values(
                    |s: AgentStepDisplay| s@,
                ).update(i as int, nv));
                return;
            }
            i = i + 1;
        }
        assert(!(exists|k: int| 0 <= k < old_steps.len() && old_steps[k].id == id)) by {
            if exists|k: int| 0 <= k < old_steps.len() && old_steps[k].id == id {
                let k = choose|k: int| 0 <= k < old_steps.len() && old_steps[k].id == id;
                assert(self.steps@[k].id != id);
            }
        }
    }

    /// Removes every step; numbering goes on where it was.
    pub fn clear_steps(&mut self)
        ensures
            final(self).steps_view() == Seq::<StepView>::empty(),
            final(self).next_id_view() == old(self).next_id_view(),
    {
        self.steps = Vec::new();
        assert(self.steps_view() =~= Seq::<StepView>::empty());
    }
}

// ── Messages ───────────────────────────────────────────────────────────

/// A chat message as the panel lists it.
#[derive(Debug, Clone)]
pub struct ChatMessageDisplay {
    pub id: u64,
    pub role: String,
    pub content: String,
    pub timestamp: String,
    pub agent_mode: bool,
}

/// A listed message as characters.
pub ghost struct MessageView {
    pub id: u64,
    pub role: Seq<char>,
    pub content: Seq<char>,
    pub timestamp: Seq<char>,
    pub agent_mode: bool,
}

impl View for ChatMessageDisplay {
    type V = MessageView;

    open spec fn view(&self) -> MessageView {
        MessageView {
            id: self.id,
            role: self.role@,
            content: self.content@,
            timestamp: self.timestamp@,
            agent_mode: self.agent_mode,
        }
    }
}

/// The messages of a chat, in the order they were added, numbered by a
/// counter that only goes up (and wraps at `u64::MAX`).
pub struct ChatLog {
    messages: Vec<ChatMessageDisplay>,
    next_id: u64,
}

impl ChatLog {
    /// The listed messages.
    pub closed spec fn messages_view(&self) -> Seq<MessageView> {
        self.messages@.map_values(|m: ChatMessageDisplay| m@)
    }

    /// The number the next message gets.
    pub closed spec fn next_id_view(&self) -> u64 {
        self.next_id
    }

    /// An empty chat whose first message is numbered 1.
    pub fn new() -> (r: Self)
        ensures
            r.messages_view() == Seq::<MessageView>::empty(),
            r.next_id_view() == 1,
    {
        ChatLog { messages: Vec::new(), next_id: 1 }
    }

    /// The listed messages.
    pub fn messages(&self) -> (r: &Vec<ChatMessageDisplay>)
        ensures
            r@.map_values(|m: ChatMessageDisplay| m@) == self.messages_view(),
    {
        &self.messages
    }

    /// Adds a message sent at `timestamp` (the local time as `HH:MM:SS`).
    pub fn add_message(&mut self, role: &str, content: &str, agent_mode: bool, timestamp: String)
        ensures
            final(self).next_id_view() == next_counter(old(self).next_id_view()),
            final(self).messages_view() == old(self).messages_view().push(
                MessageView {
                    id: old(self).next_id_view(),
                    role: role@,
                    content: content@,
                    timestamp: timestamp@,
                    agent_mode,
                },
            ),
    {
        let id = self.next_id;
        self.next_id = if self.next_id == u64::MAX {
            0
        } else {
            self.next_id + 1
        };
        let ghost prev = self.messages@;
        let m = ChatMessageDisplay {
            id,
            role: to_owned_string(role),
            content: to_owned_string(content),
            timestamp,
            agent_mode,
        };
        let ghost mv = m@;
        self.messages.push(m);
        assert(self.messages@.map_values(|m: ChatMessageDisplay| m@) =~= prev.map_values(
            |m: ChatMessageDisplay| m@,
        ).push(mv));
    }

    /// Removes every message; numbering goes on where it was.
    pub fn clear(&mut self)
        ensures
            final(self).messages_view() == Seq::<MessageView>::empty(),
            final(self).next_id_view() == old(self).next_id_view(),
    {
        self.messages = Vec::new();
        assert(self.messages_view() =~= Seq::<MessageView>::empty());
    }
}

// ── Providers ──────────────────────────────────────────────────────────

/// A provider offered in the provider list.
#[derive(Debug, Clone)]
pub struct ProviderDef {
    pub id: String,
    pub display_name: String,
    pub is_custom: bool,
}

/// The built-in providers as (id, display name) pairs, in list order.
pub open spec fn default_providers_spec() -> Seq<(Seq<char>, Seq<char>)> {
    seq![
        ("openai"@, "OpenAI"@),
        ("anthropic"@, "Anthropic"@),
        ("openrouter"@, "OpenRouter"@),
        ("ollama"@, "Ollama (Local)"@),
        ("deepseek"@, "DeepSeek"@),
        ("qwen"@, "Qwen"@),
        ("grok"@, "Grok"@),
    ]
}

/// A built-in (not custom) provider entry.
fn builtin_provider(id: &str, display_name: &str) -> (r: ProviderDef)
    ensures
        r.id@ == id@,
        r.display_name@ == display_name@,
        !r.is_custom,
{
    ProviderDef { id: to_owned_string(id), display_name: to_owned_string(display_name), is_custom: false }
}

/// The built-in providers, none of them custom.
pub fn default_providers() -> (r: Vec<ProviderDef>)
    ensures
        r@.len() == default_providers_spec().len(),
        forall|i: int|
            0 <= i < r@.len() ==> (#[trigger] r@[i]).id@ == default_providers_spec()[i].0
                && r@[i].display_name@ == default_providers_spec()[i].1 && !r@[i].is_custom,
{
    let mut v: Vec<ProviderDef> = Vec::new();
    v.push(builtin_provider("openai", "OpenAI"));
    v.push(builtin_provider("anthropic", "Anthropic"));
    v.push(builtin_provider("openrouter", "OpenRouter"));
    v.push(builtin_provider("ollama", "Ollama (Local)"));
    v.push(builtin_provider("deepseek", "DeepSeek"));
    v.push(builtin_provider("qwen", "Qwen"));
    v.push(builtin_provider("grok", "Grok"));
    v
}

// ── Shell quoting ──────────────────────────────────────────────────────

/// `s` ready to stand between single quotes in a shell command: each `'`
/// becomes `'\''`.
pub open spec fn shell_escape_spec(s: Seq<char>) -> Seq<char> {
    replace_spec(s, seq!['\''], seq!['\'', '\\', '\'', '\''])
}

/// Escapes `s` for use between single quotes in a shell command.
pub fn shell_escape(s: &str) -> (r: String)
    ensures
        r@ == shell_escape_spec(s@),
{
    let v = chars_of(s);
    let pat: Vec<char> = vec!['\''];
    let to: Vec<char> = vec!['\'', '\\', '\'', '\''];
    assert(pat@ =~= seq!['\'']);
    assert(to@ =~= seq!['\'', '\\', '\'', '\'']);
    replace_exec(&v, &pat, &to).0
}


// ── The chat panel ─────────────────────────────────────────────────────

/// The state behind the chat panel: the conversation, the steps of the
/// agent's run, the mode, what is being typed, and which provider and model
/// answer.
pub struct ChatPanel {
    pub messages: ChatLog,
    pub steps: AgentStepLog,
    pub mode: AgentMode,
    pub agent_running: bool,
    pub is_loading: bool,
    pub input: String,
    pub active_provider: String,
    pub active_model: String,
    pub show_provider_list: bool,
    pub provider_configs: Vec<ProviderConfigEntry>,
}

/// The settings the panel keeps for one provider.
#[derive(Debug, Clone)]
pub struct ProviderConfigEntry {
    pub id: String,
    pub display_name: String,
    pub api_key: String,
    pub endpoint: String,
    pub model: String,
}

/// A provider's settings as characters.
pub ghost struct ProviderConfigView {
    pub id: Seq<char>,
    pub display_name: Seq<char>,
    pub api_key: Seq<char>,
    pub endpoint: Seq<char>,
    pub model: Seq<char>,
}

impl View for ProviderConfigEntry {
    type V = ProviderConfigView;

    open spec fn view(&self) -> ProviderConfigView {
        ProviderConfigView {
            id: self.id@,
            display_name: self.display_name@,
            api_key: self.api_key@,
            endpoint: self.endpoint@,
            model: self.model@,
        }
    }
}

/// The settings of the built-in providers as (id, display name, endpoint,
/// model), in list order; no API key is set. Anthropic has no entry here, so
/// choosing it keeps the active model.
pub open spec fn default_provider_configs_spec() -> Seq<(Seq<char>, Seq<char>, Seq<char>, Seq<char>)> {
    seq![
        ("openai"@, "OpenAI"@, "https://api.openai.com/v1"@, "gpt-4o"@),
        ("openrouter"@, "OpenRouter"@, "https://openrouter.ai/api/v1"@, "openai/gpt-4o"@),
        ("ollama"@, "Ollama (Local)"@, "http://localhost:11434"@, "llama3.2"@),
        ("deepseek"@, "DeepSeek"@, "https://api.deepseek.com"@, "deepseek-chat"@),
        ("qwen"@, "Qwen"@, "https://dashscope.aliyuncs.com/compatible-mode/v1"@, "qwen-plus"@),
        ("grok"@, "Grok"@, "https://api.x.ai/v1"@, "grok-3"@),
    ]
}

/// A provider's settings with no API key.
fn config_entry(id: &str, display_name: &str, endpoint: &str, model: &str) -> (r: ProviderConfigEntry)
    ensures
        r@ == (ProviderConfigView {
            id: id@,
            display_name: display_name@,
            api_key: Seq::empty(),
            endpoint: endpoint@,
            model: model@,
        }),
{
    ProviderConfigEntry {
        id: to_owned_string(id),
        display_name: to_owned_string(display_name),
        api_key: String::new(),
        endpoint: to_owned_string(endpoint),
        model: to_owned_string(model),
    }
}

/// `v` holds the settings of `default_provider_configs_spec`.
pub open spec fn are_default_configs(v: Seq<ProviderConfigView>) -> bool {
    &&& v.len() == default_provider_configs_spec().len()
    &&& forall|i: int|
        0 <= i < v.len() ==> (#[trigger] v[i]) == (ProviderConfigView {
            id: default_provider_configs_spec()[i].0,
            display_name: default_provider_configs_spec()[i].1,
            api_key: Seq::empty(),
            endpoint: default_provider_configs_spec()[i].2,
            model: default_provider_configs_spec()[i].3,
        })
}

/// The settings of the built-in providers (see
/// `default_provider_configs_spec`).
pub fn default_provider_configs() -> (r: Vec<ProviderConfigEntry>)
    ensures
        are_default_configs(r@.map_values(|c: ProviderConfigEntry| c@)),
{
    let mut v: Vec<ProviderConfigEntry> = Vec::new();
    v.push(config_entry("openai", "OpenAI", "https://api.openai.com/v1", "gpt-4o"));
    v.push(config_entry("openrouter", "OpenRouter", "https://openrouter.ai/api/v1", "openai/gpt-4o"));
    v.push(config_entry("ollama", "Ollama (Local)", "http://localhost:11434", "llama3.2"));
    v.push(config_entry("deepseek", "DeepSeek", "https://api.deepseek.com", "deepseek-chat"));
    v.push(
        config_entry("qwen", "Qwen", "https://dashscope.aliyuncs.com/compatible-mode/v1", "qwen-plus"),
    );
    v.push(config_entry("grok", "Grok", "https://api.x.ai/v1", "grok-3"));
    let ghost w = v@.map_values(|c: ProviderConfigEntry| c@);
    assert(w.len() == 6);
    assert(w[0] == v@[0]@);
    assert(w[1] == v@[1]@);
    assert(w[2] == v@[2]@);
    assert(w[3] == v@[3]@);
    assert(w[4] == v@[4]@);
    assert(w[5] == v@[5]@);
    v
}

/// `i` is the first position in `cs` whose id is `id`.
pub open spec fn is_first_config(cs: Seq<ProviderConfigView>, id: Seq<char>, i: int) -> bool {
    &&& 0 <= i < cs.len()
    &&& cs[i].id == id
    &&& forall|j: int| 0 <= j < i ==> cs[j].id != id
}

/// The model set for provider `id` in `cs` (its first entry), if any.
pub open spec fn config_model_spec(cs: Seq<ProviderConfigView>, id: Seq<char>) -> Option<Seq<char>> {
    if exists|i: int| is_first_config(cs, id, i) {
        Some(cs[choose|i: int| is_first_config(cs, id, i)].model)
    } else {
        None
    }
}

/// The model set for provider `id` in `cs`, if any.
pub fn config_model(cs: &Vec<ProviderConfigEntry>, id: &str) -> (r: Option<String>)
    ensures
        match r {
            Some(m) => config_model_spec(cs@.map_values(|c: ProviderConfigEntry| c@), id@) == Some(m@),
            None => config_model_spec(cs@.map_values(|c: ProviderConfigEntry| c@), id@) is None,
        },
{
    let ghost v = cs@.map_values(|c: ProviderConfigEntry| c@);
    let mut i: usize = 0;
    while i < cs.len()
        invariant
            i <= cs@.len(),
            v == cs@.map_values(|c: ProviderConfigEntry| c@),
            forall|j: int| 0 <= j < i ==> v[j].id != id@,
        decreases cs.len() - i,
    {
        assert(v[i as int] == cs@[i as int]@);
        if str_eq(cs[i].id.as_str(), id) {
            proof {
                assert(is_first_config(v, id@, i as int));
                let c = choose|c: int| is_first_config(v, id@, c);
                if c < i {
                    assert(v[c].id != id@);
                }
                if c > i {
                    assert(v[i as int].id != id@);
                }
                assert(c == i);
            }
            return Some(cs[i].model.clone());
        }
        i = i + 1;
    }
    proof {
        if exists|k: int| is_first_config(v, id@, k) {
            let k = choose|k: int| is_first_config(v, id@, k);
            assert(v[k].id != id@);
        }
    }
    None
}

/// The mode the mode button switches to: Chat goes to Edit, every agent
/// mode back to Chat.
pub open spec fn toggled_mode_spec(mode: AgentMode) -> AgentMode {
    if mode == AgentMode::Chat {
        AgentMode::Edit
    } else {
        AgentMode::Chat
    }
}

/// The icon of the mode button: a speech balloon in Chat mode, a robot in
/// the agent modes.
pub open spec fn mode_icon_spec(mode: AgentMode) -> Seq<char> {
    if mode == AgentMode::Chat {
        "\u{1F4AC}"@
    } else {
        "\u{1F916}"@
    }
}

/// The icon of the mode button.
pub fn mode_icon(mode: AgentMode) -> (r: &'static str)
    ensures
        r@ == mode_icon_spec(mode),
{
    if mode == AgentMode::Chat {
        "\u{1F4AC}"
    } else {
        "\u{1F916}"
    }
}

/// What a key press in the input does: `None` when it is not Enter without
/// Shift (the key goes on to the text field); otherwise the press is taken
/// and the input is submitted unless a reply is awaited (`Some(submit)`).
pub open spec fn input_key_spec(enter: bool, shift: bool, is_loading: bool) -> Option<bool> {
    if enter && !shift {
        Some(!is_loading)
    } else {
        None
    }
}

/// What a key press in the input does (see `input_key_spec`).
pub fn input_key(enter: bool, shift: bool, is_loading: bool) -> (r: Option<bool>)
    ensures
        r == input_key_spec(enter, shift, is_loading),
{
    if enter && !shift {
        Some(!is_loading)
    } else {
        None
    }
}

/// The label shown above a message with role `role`.
pub open spec fn role_label_spec(role: Seq<char>) -> Seq<char> {
    if role == "user"@ {
        "You"@
    } else if role == "system"@ {
        "System"@
    } else {
        "Assistant"@
    }
}

/// The label shown above a message with role `role`.
pub fn role_label(role: &str) -> (r: &'static str)
    ensures
        r@ == role_label_spec(role@),
{
    if str_eq(role, "user") {
        "You"
    } else if str_eq(role, "system") {
        "System"
    } else {
        "Assistant"
    }
}

/// The color of a message's role label: the user orange, the system red,
/// agent replies green, other replies purple.
pub open spec fn role_color_spec(role: Seq<char>, agent_mode: bool) -> (u8, u8, u8, u8) {
    if role == "user"@ {
        (0xF9, 0x73, 0x16, 0xFF)
    } else if role == "system"@ {
        (0xEF, 0x44, 0x44, 0xFF)
    } else if agent_mode {
        (0x22, 0xC5, 0x5E, 0xFF)
    } else {
        (0xA8, 0x55, 0xF7, 0xFF)
    }
}

/// The color of a message's role label (see `role_color_spec`).
pub fn role_color(role: &str, agent_mode: bool) -> (r: (u8, u8, u8, u8))
    ensures
        r == role_color_spec(role@, agent_mode),
{
    if str_eq(role, "user") {
        (0xF9, 0x73, 0x16, 0xFF)
    } else if str_eq(role, "system") {
        (0xEF, 0x44, 0x44, 0xFF)
    } else if agent_mode {
        (0x22, 0xC5, 0x5E, 0xFF)
    } else {
        (0xA8, 0x55, 0xF7, 0xFF)
    }
}

/// The background of a message's bubble: faint green for the user's agent
/// requests, faint orange for the user's chat messages, fainter green for
/// agent replies, faint red for system messages, none for other replies.
pub open spec fn bubble_color_spec(role: Seq<char>, agent_mode: bool) -> (u8, u8, u8, u8) {
    if role == "user"@ {
        if agent_mode {
            (0x22, 0xC5, 0x5E, 0x12)
        } else {
            (0xF9, 0x73, 0x16, 0x12)
        }
    } else if agent_mode {
        (0x22, 0xC5, 0x5E, 0x08)
    } else if role == "system"@ {
        (0xEF, 0x44, 0x44, 0x0D)
    } else {
        (0, 0, 0, 0)
    }
}

/// The background of a message's bubble (see `bubble_color_spec`).
pub fn bubble_color(role: &str, agent_mode: bool) -> (r: (u8, u8, u8, u8))
    ensures
        r == bubble_color_spec(role@, agent_mode),
{
    if str_eq(role, "user") {
        if agent_mode {
            (0x22, 0xC5, 0x5E, 0x12)
        } else {
            (0xF9, 0x73, 0x16, 0x12)
        }
    } else if agent_mode {
        (0x22, 0xC5, 0x5E, 0x08)
    } else if str_eq(role, "system") {
        (0xEF, 0x44, 0x44, 0x0D)
    } else {
        (0, 0, 0, 0)
    }
}

/// The line shown while a reply is awaited: nothing when none is, else
/// what the AI (in Chat mode) or the agent is doing.
pub open spec fn loading_label_spec(is_loading: bool, mode: AgentMode) -> Seq<char> {
    if !is_loading {
        Seq::empty()
    } else if mode == AgentMode::Chat {
        "AI is thinking..."@
    } else {
        "Agent is "@ + mode_name_spec(mode) + "ing..."@
    }
}

/// The line shown while a reply is awaited (see `loading_label_spec`).
pub fn loading_label(is_loading: bool, mode: AgentMode) -> (r: String)
    ensures
        r@ == loading_label_spec(is_loading, mode),
{
    if !is_loading {
        String::new()
    } else if mode == AgentMode::Chat {
        to_owned_string("AI is thinking...")
    } else {
        let mut s = to_owned_string("Agent is ");
        push_str(&mut s, mode_name(mode));
        push_str(&mut s, "ing...");
        s
    }
}

/// The name of `mode` as the panel writes it.
pub open spec fn mode_name_spec(mode: AgentMode) -> Seq<char> {
    match mode {
        AgentMode::Chat => "Chat"@,
        AgentMode::Plan => "Plan"@,
        AgentMode::Edit => "Edit"@,
        AgentMode::Review => "Review"@,
        AgentMode::Debug => "Debug"@,
        AgentMode::Research => "Research"@,
    }
}

/// The name of `mode` as the panel writes it.
pub fn mode_name(mode: AgentMode) -> (r: &'static str)
    ensures
        r@ == mode_name_spec(mode),
{
    match mode {
        AgentMode::Chat => "Chat",
        AgentMode::Plan => "Plan",
        AgentMode::Edit => "Edit",
        AgentMode::Review => "Review",
        AgentMode::Debug => "Debug",
        AgentMode::Research => "Research",
    }
}

/// There is nothing but whitespace in `s`.
pub open spec fn is_blank_spec(s: Seq<char>) -> bool {
    trim_spec(s).len() == 0
}

/// Is there nothing but whitespace in `s`?
pub fn is_blank(s: &str) -> (r: bool)
    ensures
        r == is_blank_spec(s@),
{
    let v = chars_of(s);
    let t = trim_range(&v, 0, v.len());
    assert(v@.subrange(0, v@.len() as int) =~= v@);
    let tv = chars_of(t.as_str());
    tv.len() == 0
}

/// The (role, content) pairs of listed messages.
pub open spec fn history_pairs(msgs: Seq<MessageView>) -> Seq<(Seq<char>, Seq<char>)> {
    msgs.map_values(|m: MessageView| (m.role, m.content))
}

/// The (role, content) pairs of the messages of a request.
pub open spec fn request_pairs(msgs: Seq<ChatMessage>) -> Seq<(Seq<char>, Seq<char>)> {
    msgs.map_values(|m: ChatMessage| (m.role@, m.content@))
}

/// `q` is the request the panel sends for its input: the active model, the
/// conversation so far followed by the user's message, and tools on in every
/// mode but Chat.
pub open spec fn is_request_for(q: ChatRequest, panel: ChatPanel) -> bool {
    &&& q.model@ == panel.active_model@
    &&& q.tools_enabled == (panel.mode != AgentMode::Chat)
    &&& request_pairs(q.messages@) == history_pairs(panel.messages.messages_view()).push(
        ("user"@, panel.input@),
    )
}

/// The request a submission of the panel's input sends, or `None` when the
/// input is blank.
pub fn submit_request(panel: &ChatPanel) -> (r: Option<ChatRequest>)
    ensures
        r is None <==> is_blank_spec(panel.input@),
        r matches Some(q) ==> is_request_for(q, *panel),
{
    if is_blank(panel.input.as_str()) {
        return None;
    }
    let msgs = panel.messages.messages();
    let ghost hist = panel.messages.messages_view();
    let mut out: Vec<ChatMessage> = Vec::new();
    let mut i: usize = 0;
    while i < msgs.len()
        invariant
            i <= msgs@.len(),
            msgs@.map_values(|m: ChatMessageDisplay| m@) == hist,
            out@.len() == i,
            forall|j: int|
                0 <= j < i ==> (#[trigger] out@[j]).role@ == msgs@[j].role@ && out@[j].content@
                    == msgs@[j].content@,
        decreases msgs.len() - i,
    {
        out.push(ChatMessage { role: msgs[i].role.clone(), content: msgs[i].content.clone() });
        i = i + 1;
    }
    let ghost prefix = out@;
    out.push(ChatMessage { role: to_owned_string("user"), content: panel.input.clone() });
    proof {
        assert(hist.len() == msgs@.len());
        assert forall|j: int| 0 <= j < hist.len() implies #[trigger] hist[j] == msgs@[j]@ by {
            assert(hist[j] == msgs@.map_values(|m: ChatMessageDisplay| m@)[j]);
        }
        assert_seqs_equal!(request_pairs(out@), history_pairs(hist).push(("user"@, panel.input@)), j => {
            if j < msgs@.len() {
                assert(out@[j] == prefix[j]);
                assert(hist[j] == msgs@[j]@);
            }
        });
    }
    Some(
        ChatRequest {
            model: panel.active_model.clone(),
            messages: out,
            tools_enabled: panel.mode != AgentMode::Chat,
        },
    )
}

/// `after` is `before` once its input has been submitted at `timestamp`:
/// the input is added as the user's message (marked as an agent message
/// outside Chat mode) and cleared, loading starts, and outside Chat mode an
/// agent run starts with no steps listed.
pub open spec fn submitted(before: ChatPanel, after: ChatPanel, timestamp: Seq<char>) -> bool {
    let agent = before.mode != AgentMode::Chat;
    &&& after.messages.messages_view() == before.messages.messages_view().push(
        MessageView {
            id: before.messages.next_id_view(),
            role: "user"@,
            content: before.input@,
            timestamp,
            agent_mode: agent,
        },
    )
    &&& after.messages.next_id_view() == next_counter(before.messages.next_id_view())
    &&& after.input@ == Seq::<char>::empty()
    &&& after.is_loading
    &&& after.agent_running == (before.agent_running || agent)
    &&& after.steps.steps_view() == (if agent {
        Seq::<StepView>::empty()
    } else {
        before.steps.steps_view()
    })
    &&& after.steps.next_id_view() == before.steps.next_id_view()
    &&& after.mode == before.mode
    &&& after.active_provider@ == before.active_provider@
    &&& after.active_model@ == before.active_model@
    &&& after.show_provider_list == before.show_provider_list
    &&& after.provider_configs == before.provider_configs
}

/// `after` differs from `before` in its steps alone.
pub open spec fn only_steps_changed(before: ChatPanel, after: ChatPanel) -> bool {
    &&& after.messages == before.messages
    &&& after.mode == before.mode
    &&& after.agent_running == before.agent_running
    &&& after.is_loading == before.is_loading
    &&& after.input == before.input
    &&& after.active_provider == before.active_provider
    &&& after.active_model == before.active_model
    &&& after.show_provider_list == before.show_provider_list
    &&& after.provider_configs == before.provider_configs
}

/// The description of the analysis step of a run in `mode`, while it runs.
pub open spec fn analysis_started_spec(mode: AgentMode) -> Seq<char> {
    "Analyzing in "@ + mode_name_spec(mode) + " mode"@
}

/// The description of the analysis step of a run in `mode`, once done.
pub open spec fn analysis_done_spec(mode: AgentMode) -> Seq<char> {
    "Analysis complete \u{2014} executing "@ + mode_name_spec(mode) + " mode plan"@
}

/// The steps an agent run in `mode` goes through, as (step type,
/// description) pairs; a run in Chat mode has none.
pub open spec fn agent_plan_spec(mode: AgentMode) -> Seq<(Seq<char>, Seq<char>)> {
    match mode {
        AgentMode::Edit => seq![
            ("read"@, "Reading workspace files for Edit"@),
            ("search"@, "Searching for relevant code patterns"@),
            ("write"@, "Applying Edit changes"@),
        ],
        AgentMode::Plan => seq![
            ("read"@, "Reading project structure"@),
            ("search"@, "Analyzing dependencies"@),
            ("think"@, "Formulating plan"@),
        ],
        AgentMode::Review => seq![
            ("read"@, "Reading code for review"@),
            ("search"@, "Checking for patterns"@),
        ],
        AgentMode::Debug => seq![
            ("read"@, "Reading error context"@),
            ("run"@, "Running diagnostics"@),
            ("search"@, "Searching for known issues"@),
        ],
        AgentMode::Research => seq![
            ("search"@, "Searching workspace"@),
            ("read"@, "Reading relevant files"@),
        ],
        AgentMode::Chat => Seq::empty(),
    }
}

/// A (step type, description) pair.
fn plan_step(step_type: &str, description: &str) -> (r: (String, String))
    ensures
        r.0@ == step_type@,
        r.1@ == description@,
{
    (to_owned_string(step_type), to_owned_string(description))
}

/// The steps an agent run in `mode` goes through (see `agent_plan_spec`).
pub fn agent_plan(mode: AgentMode) -> (r: Vec<(String, String)>)
    ensures
        r@.len() == agent_plan_spec(mode).len(),
        forall|i: int|
            0 <= i < r@.len() ==> (#[trigger] r@[i]).0@ == agent_plan_spec(mode)[i].0 && r@[i].1@
                == agent_plan_spec(mode)[i].1,
{
    let mut v: Vec<(String, String)> = Vec::new();
    match mode {
        AgentMode::Edit => {
            v.push(plan_step("read", "Reading workspace files for Edit"));
            v.push(plan_step("search", "Searching for relevant code patterns"));
            v.push(plan_step("write", "Applying Edit changes"));
        },
        AgentMode::Plan => {
            v.push(plan_step("read", "Reading project structure"));
            v.push(plan_step("search", "Analyzing dependencies"));
            v.push(plan_step("think", "Formulating plan"));
        },
        AgentMode::Review => {
            v.push(plan_step("read", "Reading code for review"));
            v.push(plan_step("search", "Checking for patterns"));
        },
        AgentMode::Debug => {
            v.push(plan_step("read", "Reading error context"));
            v.push(plan_step("run", "Running diagnostics"));
            v.push(plan_step("search", "Searching for known issues"));
        },
        AgentMode::Research => {
            v.push(plan_step("search", "Searching workspace"));
            v.push(plan_step("read", "Reading relevant files"));
        },
        AgentMode::Chat => {},
    }
    v
}

/// The tool a plan step of type `step_type` runs, if any.
pub open spec fn step_tool_spec(step_type: Seq<char>) -> Option<Seq<char>> {
    if step_type == "read"@ {
        Some("read_file"@)
    } else if step_type == "write"@ {
        Some("write_file"@)
    } else if step_type == "run"@ {
        Some("run_terminal"@)
    } else if step_type == "search"@ {
        Some("search_workspace"@)
    } else {
        None
    }
}

/// The tool a plan step of type `step_type` runs, if any.
pub fn step_tool(step_type: &str) -> (r: Option<&'static str>)
    ensures
        match step_tool_spec(step_type@) {
            Some(t) => r matches Some(n) && n@ == t,
            None => r is None,
        },
{
    if str_eq(step_type, "read") {
        Some("read_file")
    } else if str_eq(step_type, "write") {
        Some("write_file")
    } else if str_eq(step_type, "run") {
        Some("run_terminal")
    } else if str_eq(step_type, "search") {
        Some("search_workspace")
    } else {
        None
    }
}

/// The arguments a plan step hands its tool: the workspace root `.` as
/// path, and the user's input as pattern.
pub fn step_tool_args(input: &str) -> (r: StringMap)
    ensures
        r@ == map!["path"@ => "."@, "pattern"@ => input@],
{
    let mut args = StringMap::new();
    args.insert(to_owned_string("path"), to_owned_string("."));
    args.insert(to_owned_string("pattern"), to_owned_string(input));
    proof {
        reveal_strlit("path");
        reveal_strlit("pattern");
        assert("path"@.len() != "pattern"@.len());
    }
    assert(args@ =~= map!["path"@ => "."@, "pattern"@ => input@]);
    args
}

/// One move of a chat run, in the order `run_moves` gives them.
#[derive(Debug, Clone, PartialEq, Eq)]
pub enum RunMove {
    /// List the running analysis step (`ChatPanel::start_analysis`).
    StartAnalysis,
    /// Wait this many milliseconds.
    Wait(u64),
    /// Mark the analysis step done (`ChatPanel::finish_analysis`).
    FinishAnalysis,
    /// List plan step `i` as running (`ChatPanel::start_step`).
    StartStep(usize),
    /// Call `tool` for plan step `step`, with `step_tool_args` of the input.
    CallTool { step: usize, tool: String },
    /// Mark plan step `i` done (`ChatPanel::complete_step`).
    CompleteStep(usize),
    /// Send the request and take in the reply (`ChatPanel::apply_reply`
    /// with this `agent_mode`).
    Send { agent_mode: bool },
}

/// A move of a chat run as characters.
pub ghost enum RunMoveView {
    StartAnalysis,
    Wait(u64),
    FinishAnalysis,
    StartStep(nat),
    CallTool(nat, Seq<char>),
    CompleteStep(nat),
    Send(bool),
}

impl View for RunMove {
    type V = RunMoveView;

    open spec fn view(&self) -> RunMoveView {
        match self {
            RunMove::StartAnalysis => RunMoveView::StartAnalysis,
            RunMove::Wait(ms) => RunMoveView::Wait(*ms),
            RunMove::FinishAnalysis => RunMoveView::FinishAnalysis,
            RunMove::StartStep(i) => RunMoveView::StartStep(*i as nat),
            RunMove::CallTool { step, tool } => RunMoveView::CallTool(*step as nat, tool@),
            RunMove::CompleteStep(i) => RunMoveView::CompleteStep(*i as nat),
            RunMove::Send { agent_mode } => RunMoveView::Send(*agent_mode),
        }
    }
}

/// The moves of plan step `i` of `plan`: list it, wait 150 ms, call its
/// tool if its type has one, and mark it done.
pub open spec fn step_moves(plan: Seq<(Seq<char>, Seq<char>)>, i: nat) -> Seq<RunMoveView> {
    seq![RunMoveView::StartStep(i), RunMoveView::Wait(150)] + match step_tool_spec(plan[i as int].0) {
        Some(t) => seq![RunMoveView::CallTool(i, t)],
        None => Seq::empty(),
    } + seq![RunMoveView::CompleteStep(i)]
}

/// The moves of the first `n` steps of `plan`, in order.
pub open spec fn plan_moves(plan: Seq<(Seq<char>, Seq<char>)>, n: nat) -> Seq<RunMoveView>
    decreases n,
{
    if n == 0 {
        Seq::empty()
    } else {
        plan_moves(plan, (n - 1) as nat) + step_moves(plan, (n - 1) as nat)
    }
}

/// The moves of a run in `mode` once its request is submitted: outside Chat
/// mode, the analysis step (listed, 200 ms, done); then, outside Chat mode
/// and with the agent service ready, the steps of `agent_plan_spec(mode)`;
/// last, the request, whose reply counts as an agent run's exactly when
/// the plan ran.
pub open spec fn run_moves_spec(mode: AgentMode, agent_ready: bool) -> Seq<RunMoveView> {
    let agent = mode != AgentMode::Chat;
    let plan = agent_plan_spec(mode);
    (if agent {
        seq![RunMoveView::StartAnalysis, RunMoveView::Wait(200), RunMoveView::FinishAnalysis]
    } else {
        Seq::empty()
    }) + (if agent && agent_ready {
        plan_moves(plan, plan.len())
    } else {
        Seq::empty()
    }) + seq![RunMoveView::Send(agent && agent_ready)]
}

/// The moves of a run in `mode` (see `run_moves_spec`); `agent_ready` says
/// whether the agent service is initialized.
pub fn run_moves(mode: AgentMode, agent_ready: bool) -> (r: Vec<RunMove>)
    ensures
        r@.map_values(|m: RunMove| m@) == run_moves_spec(mode, agent_ready),
{
    let agent = mode != AgentMode::Chat;
    let mut out: Vec<RunMove> = Vec::new();
    if agent {
        out.push(RunMove::StartAnalysis);
        out.push(RunMove::Wait(200));
        out.push(RunMove::FinishAnalysis);
    }
    let ghost head = out@.map_values(|m: RunMove| m@);
    assert(head =~= (if agent {
        seq![RunMoveView::StartAnalysis, RunMoveView::Wait(200), RunMoveView::FinishAnalysis]
    } else {
        Seq::<RunMoveView>::empty()
    }));
    if agent && agent_ready {
        let plan = agent_plan(mode);
        let ghost ps = agent_plan_spec(mode);
        let mut i: usize = 0;
        assert(head + plan_moves(ps, 0) =~= head);
        while i < plan.len()
            invariant
                i <= plan@.len(),
                plan@.len() == ps.len(),
                ps == agent_plan_spec(mode),
                forall|k: int| 0 <= k < plan@.len() ==> (#[trigger] plan@[k]).0@ == ps[k].0 && plan@[k].1@ == ps[k].1,
                out@.map_values(|m: RunMove| m@) == head + plan_moves(ps, i as nat),
            decreases plan.len() - i,
        {
            let ghost before = out@.map_values(|m: RunMove| m@);
            out.push(RunMove::StartStep(i));
            out.push(RunMove::Wait(150));
            let tool = step_tool(plan[i].0.as_str());
            match tool {
                Some(t) => {
                    out.push(RunMove::CallTool { step: i, tool: to_owned_string(t) });
                },
                None => {},
            }
            out.push(RunMove::CompleteStep(i));
            proof {
                assert(plan@[i as int].0@ == ps[i as int].0);
                assert(out@.map_values(|m: RunMove| m@) =~= before + step_moves(ps, i as nat));
                assert(plan_moves(ps, (i + 1) as nat) == plan_moves(ps, i as nat) + step_moves(ps, i as nat));
                assert(head + plan_moves(ps, (i + 1) as nat) =~= before + step_moves(ps, i as nat));
            }
            i = i + 1;
        }
    }
    let ghost mid = out@.map_values(|m: RunMove| m@);
    out.push(RunMove::Send { agent_mode: agent && agent_ready });
    proof {
        let ps = agent_plan_spec(mode);
        let body = if agent && agent_ready {
            plan_moves(ps, ps.len())
        } else {
            Seq::<RunMoveView>::empty()
        };
        assert(mid =~= head + body);
        assert(out@.map_values(|m: RunMove| m@) =~= mid.push(RunMoveView::Send(agent && agent_ready)));
    }
    out
}

/// The description of a finished plan step first described as `desc`.
pub open spec fn step_completed_spec(desc: Seq<char>) -> Seq<char> {
    desc + " \u{2014} completed"@
}

/// The role, content and agent flag of the message that a provider's reply
/// (or failure) adds: the reply itself, or a system message with the error,
/// which outside an agent run names the provider.
pub open spec fn reply_message_spec(
    provider_id: Seq<char>,
    agent_mode: bool,
    result: Result<ChatResponse, ProviderError>,
) -> (Seq<char>, Seq<char>, bool) {
    match result {
        Ok(resp) => (resp.message.role@, resp.message.content@, agent_mode),
        Err(e) => (
            "system"@,
            if agent_mode {
                "Error: "@ + e.message@
            } else {
                "Error from "@ + provider_id + ": "@ + e.message@
            },
            false,
        ),
    }
}

/// The type, description and status of the step that ends an agent run.
pub open spec fn reply_step_spec(result: Result<ChatResponse, ProviderError>) -> (Seq<char>, Seq<char>, StepStatus) {
    match result {
        Ok(_) => ("done"@, "Agent task completed"@, StepStatus::Done),
        Err(e) => ("error"@, "Agent failed: "@ + e.message@, StepStatus::Error),
    }
}

/// `after` is `before` once the reply `result` of provider `provider_id`
/// came in at `timestamp`: the reply or the error is added as a message (see
/// `reply_message_spec`); at the end of an agent run a done or error step is
/// listed and the mode returns to Chat; loading stops; nothing else changes.
pub open spec fn replied(
    before: ChatPanel,
    after: ChatPanel,
    provider_id: Seq<char>,
    agent_mode: bool,
    result: Result<ChatResponse, ProviderError>,
    timestamp: Seq<char>,
) -> bool {
    &&& after.messages.messages_view() == before.messages.messages_view().push(
        MessageView {
            id: before.messages.next_id_view(),
            role: reply_message_spec(provider_id, agent_mode, result).0,
            content: reply_message_spec(provider_id, agent_mode, result).1,
            timestamp,
            agent_mode: reply_message_spec(provider_id, agent_mode, result).2,
        },
    )
    &&& after.messages.next_id_view() == next_counter(before.messages.next_id_view())
    &&& agent_mode ==> after.steps.steps_view() == before.steps.steps_view().push(
        StepView {
            id: before.steps.next_id_view(),
            step_type: reply_step_spec(result).0,
            description: reply_step_spec(result).1,
            status: reply_step_spec(result).2,
        },
    ) && after.steps.next_id_view() == next_counter(before.steps.next_id_view()) && after.mode
        == AgentMode::Chat
    &&& !agent_mode ==> after.steps == before.steps && after.mode == before.mode
    &&& !after.is_loading
    &&& after.agent_running == before.agent_running
    &&& after.input == before.input
    &&& after.active_provider == before.active_provider
    &&& after.active_model == before.active_model
    &&& after.show_provider_list == before.show_provider_list
    &&& after.provider_configs == before.provider_configs
}

/// A submission and the reply to it add exactly two messages to the
/// conversation, the user's input and then the reply (or the error), stop
/// loading, and leave the input empty; an agent run returns to Chat mode
/// with its closing step listed last, while outside an agent run the mode
/// stays.
pub proof fn lemma_submit_then_reply(
    p0: ChatPanel,
    p1: ChatPanel,
    p2: ChatPanel,
    provider_id: Seq<char>,
    agent_mode: bool,
    result: Result<ChatResponse, ProviderError>,
    sent_at: Seq<char>,
    replied_at: Seq<char>,
)
    requires
        submitted(p0, p1, sent_at),
        replied(p1, p2, provider_id, agent_mode, result, replied_at),
    ensures
        p2.messages.messages_view().len() == p0.messages.messages_view().len() + 2,
        p2.messages.messages_view().take(p0.messages.messages_view().len() as int)
            == p0.messages.messages_view(),
        p2.messages.messages_view()[p0.messages.messages_view().len() as int].role == "user"@,
        p2.messages.messages_view()[p0.messages.messages_view().len() as int].content == p0.input@,
        p2.messages.messages_view()[p0.messages.messages_view().len() + 1int].content == reply_message_spec(
            provider_id,
            agent_mode,
            result,
        ).1,
        !p2.is_loading,
        p2.input@ == Seq::<char>::empty(),
        agent_mode ==> p2.mode == AgentMode::Chat && p2.steps.steps_view().last().step_type
            == reply_step_spec(result).0,
        !agent_mode ==> p2.mode == p0.mode,
{
    let m0 = p0.messages.messages_view();
    assert(p2.messages.messages_view().take(m0.len() as int) =~= m0);
}

impl ChatPanel {
    /// A panel in Chat mode with nothing typed and no messages, talking to
    /// the `gpt-4o` model of `openai`.
    pub fn new() -> (r: Self)
        ensures
            r.messages.messages_view() == Seq::<MessageView>::empty(),
            r.messages.next_id_view() == 1,
            r.steps.steps_view() == Seq::<StepView>::empty(),
            r.steps.next_id_view() == 1,
            r.mode == AgentMode::Chat,
            !r.agent_running,
            !r.is_loading,
            r.input@ == Seq::<char>::empty(),
            r.active_provider@ == "openai"@,
            r.active_model@ == "gpt-4o"@,
            !r.show_provider_list,
            are_default_configs(r.provider_configs@.map_values(|c: ProviderConfigEntry| c@)),
    {
        ChatPanel {
            messages: ChatLog::new(),
            steps: AgentStepLog::new(),
            mode: AgentMode::Chat,
            agent_running: false,
            is_loading: false,
            input: String::new(),
            active_provider: to_owned_string("openai"),
            active_model: to_owned_string("gpt-4o"),
            show_provider_list: false,
            provider_configs: default_provider_configs(),
        }
    }

    /// Does the panel show its welcome screen (no messages yet)?
    pub fn shows_welcome(&self) -> (r: bool)
        ensures
            r == (self.messages.messages_view().len() == 0),
    {
        self.messages.messages().len() == 0
    }

    /// Opens the provider list, or closes it when open.
    pub fn toggle_provider_list(&mut self)
        ensures
            final(self).show_provider_list == !old(self).show_provider_list,
            final(self).messages == old(self).messages,
            final(self).steps == old(self).steps,
            final(self).mode == old(self).mode,
            final(self).agent_running == old(self).agent_running,
            final(self).is_loading == old(self).is_loading,
            final(self).input == old(self).input,
            final(self).active_provider == old(self).active_provider,
            final(self).active_model == old(self).active_model,
            final(self).provider_configs == old(self).provider_configs,
    {
        self.show_provider_list = !self.show_provider_list;
    }

    /// Switches between Chat and an agent mode (see `toggled_mode_spec`).
    pub fn toggle_mode(&mut self)
        ensures
            final(self).mode == toggled_mode_spec(old(self).mode),
            final(self).messages == old(self).messages,
            final(self).steps == old(self).steps,
            final(self).agent_running == old(self).agent_running,
            final(self).is_loading == old(self).is_loading,
            final(self).input == old(self).input,
            final(self).active_provider == old(self).active_provider,
            final(self).active_model == old(self).active_model,
            final(self).show_provider_list == old(self).show_provider_list,
            final(self).provider_configs == old(self).provider_configs,
    {
        self.mode = if self.mode == AgentMode::Chat {
            AgentMode::Edit
        } else {
            AgentMode::Chat
        };
    }

    /// Chooses provider `id`: it becomes the active provider, the model set
    /// for it becomes the active model (the model stays when none is set),
    /// and the provider list closes.
    pub fn set_provider(&mut self, id: &str)
        ensures
            final(self).active_provider@ == id@,
            final(self).active_model@ == (match config_model_spec(
                old(self).provider_configs@.map_values(|c: ProviderConfigEntry| c@),
                id@,
            ) {
                Some(m) => m,
                None => old(self).active_model@,
            }),
            !final(self).show_provider_list,
            final(self).messages == old(self).messages,
            final(self).steps == old(self).steps,
            final(self).mode == old(self).mode,
            final(self).agent_running == old(self).agent_running,
            final(self).is_loading == old(self).is_loading,
            final(self).input == old(self).input,
            final(self).provider_configs == old(self).provider_configs,
    {
        self.show_provider_list = false;
        self.active_provider = to_owned_string(id);
        match config_model(&self.provider_configs, id) {
            Some(m) => {
                self.active_model = m;
            },
            None => {},
        }
    }

    /// Submits what was typed, at `timestamp`: a blank input is ignored;
    /// otherwise the request to send is returned and the panel updated (see
    /// `submitted`).
    pub fn submit(&mut self, timestamp: String) -> (r: Option<ChatRequest>)
        ensures
            r is None <==> is_blank_spec(old(self).input@),
            r is None ==> *final(self) == *old(self),
            r matches Some(q) ==> is_request_for(q, *old(self)) && submitted(
                *old(self),
                *final(self),
                timestamp@,
            ),
    {
        let r = submit_request(self);
        match r {
            None => None,
            Some(q) => {
                let agent = self.mode != AgentMode::Chat;
                let text = self.input.clone();
                self.messages.add_message("user", text.as_str(), agent, timestamp);
                self.input = String::new();
                self.is_loading = true;
                if agent {
                    self.agent_running = true;
                    self.steps.clear_steps();
                }
                Some(q)
            },
        }
    }

    /// Lists the running analysis step of a run in `mode` and returns its
    /// number.
    pub fn start_analysis(&mut self, mode: AgentMode) -> (id: u64)
        ensures
            id == old(self).steps.next_id_view(),
            final(self).steps.next_id_view() == next_counter(id),
            final(self).steps.steps_view() == old(self).steps.steps_view().push(
                StepView {
                    id,
                    step_type: "think"@,
                    description: analysis_started_spec(mode),
                    status: StepStatus::Running,
                },
            ),
            only_steps_changed(*old(self), *final(self)),
    {
        let mut d = to_owned_string("Analyzing in ");
        push_str(&mut d, mode_name(mode));
        push_str(&mut d, " mode");
        self.steps.add_step("think", d.as_str())
    }

    /// Marks the analysis step `id` of a run in `mode` done.
    pub fn finish_analysis(&mut self, id: u64, mode: AgentMode)
        ensures
            final(self).steps.steps_view() == update_steps(
                old(self).steps.steps_view(),
                id,
                StepStatus::Done,
                analysis_done_spec(mode),
            ),
            final(self).steps.next_id_view() == old(self).steps.next_id_view(),
            only_steps_changed(*old(self), *final(self)),
    {
        let mut d = to_owned_string("Analysis complete \u{2014} executing ");
        push_str(&mut d, mode_name(mode));
        push_str(&mut d, " mode plan");
        self.steps.update_step(id, StepStatus::Done, d);
    }

    /// Lists a running plan step and returns its number.
    pub fn start_step(&mut self, step_type: &str, description: &str) -> (id: u64)
        ensures
            id == old(self).steps.next_id_view(),
            final(self).steps.next_id_view() == next_counter(id),
            final(self).steps.steps_view() == old(self).steps.steps_view().push(
                StepView {
                    id,
                    step_type: step_type@,
                    description: description@,
                    status: StepStatus::Running,
                },
            ),
            only_steps_changed(*old(self), *final(self)),
    {
        self.steps.add_step(step_type, description)
    }

    /// Marks the plan step `id`, first described as `description`, done.
    pub fn complete_step(&mut self, id: u64, description: &str)
        ensures
            final(self).steps.steps_view() == update_steps(
                old(self).steps.steps_view(),
                id,
                StepStatus::Done,
                step_completed_spec(description@),
            ),
            final(self).steps.next_id_view() == old(self).steps.next_id_view(),
            only_steps_changed(*old(self), *final(self)),
    {
        let mut d = to_owned_string(description);
        push_str(&mut d, " \u{2014} completed");
        self.steps.update_step(id, StepStatus::Done, d);
    }

    /// Takes in what the provider `provider_id` answered, at `timestamp`:
    /// the reply or the error is added as a message (see
    /// `reply_message_spec`); at the end of an agent run a done or error step
    /// is listed and the mode returns to Chat; loading stops.
    pub fn apply_reply(
        &mut self,
        provider_id: &str,
        agent_mode: bool,
        result: Result<ChatResponse, ProviderError>,
        timestamp: String,
    )
        ensures
            replied(*old(self), *final(self), provider_id@, agent_mode, result, timestamp@),
    {
        match result {
            Ok(resp) => {
                self.messages.add_message(
                    resp.message.role.as_str(),
                    resp.message.content.as_str(),
                    agent_mode,
                    timestamp,
                );
                if agent_mode {
                    self.steps.push_step("done", "Agent task completed", StepStatus::Done);
                }
            },
            Err(e) => {
                let content = if agent_mode {
                    let mut c = to_owned_string("Error: ");
                    push_str(&mut c, e.message.as_str());
                    c
                } else {
                    let mut c = to_owned_string("Error from ");
                    push_str(&mut c, provider_id);
                    push_str(&mut c, ": ");
                    push_str(&mut c, e.message.as_str());
                    c
                };
                self.messages.add_message("system", content.as_str(), false, timestamp);
                if agent_mode {
                    let mut d = to_owned_string("Agent failed: ");
                    push_str(&mut d, e.message.as_str());
                    self.steps.push_step("error", d.as_str(), StepStatus::Error);
                }
            },
        }
        if agent_mode {
            self.mode = AgentMode::Chat;
        }
        self.is_loading = false;
    }

    /// Starts a new chat: every message is removed and loading stops.
    pub fn clear_chat(&mut self)
        ensures
            final(self).messages.messages_view() == Seq::<MessageView>::empty(),
            final(self).messages.next_id_view() == old(self).messages.next_id_view(),
            !final(self).is_loading,
            final(self).steps == old(self).steps,
            final(self).mode == old(self).mode,
            final(self).agent_running == old(self).agent_running,
            final(self).input == old(self).input,
            final(self).active_provider == old(self).active_provider,
            final(self).active_model == old(self).active_model,
            final(self).show_provider_list == old(self).show_provider_list,
            final(self).provider_configs == old(self).provider_configs,
    {
        self.messages.clear();
        self.is_loading = false;
    }
}

} // verus!
