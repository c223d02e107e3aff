//! Character-level string helpers shared by the rest of the library.
//!
//! Strings are reasoned about through their views, sequences of `char`.

use vstd::prelude::*;

verus! {

broadcast use vstd::string::group_string_axioms;

// ── Specifications ─────────────────────────────────────────────────────

/// `pat` occurs in `s` starting at index `i`.
pub open spec fn matches_at(s: Seq<char>, pat: Seq<char>, i: int) -> bool {
    0 <= i && i + pat.len() <= s.len() && s.subrange(i, i + pat.len()) == pat
}

/// `pat` occurs somewhere in `s`.
pub open spec fn contains_seq(s: Seq<char>, pat: Seq<char>) -> bool {
    exists|i: int| matches_at(s, pat, i)
}

/// `s` begins with `prefix`.
pub open spec fn starts_with_seq(s: Seq<char>, prefix: Seq<char>) -> bool {
    prefix.len() <= s.len() && s.take(prefix.len() as int) == prefix
}

/// The first index at or after `start` where `pat` occurs in `s`.
pub open spec fn first_match_from(s: Seq<char>, pat: Seq<char>, start: int) -> Option<int>
    decreases s.len() + 1 - start,
{
    if start < 0 || start + pat.len() > s.len() {
        None
    } else if matches_at(s, pat, start) {
        Some(start)
    } else {
        first_match_from(s, pat, start + 1)
    }
}

/// The first index where `pat` occurs in `s` (`str::find`).
pub open spec fn first_match(s: Seq<char>, pat: Seq<char>) -> Option<int> {
    first_match_from(s, pat, 0)
}

/// `s` with every leading copy of `p` removed (`str::trim_start_matches`).
pub open spec fn strip_prefix_repeatedly(s: Seq<char>, p: Seq<char>) -> Seq<char>
    decreases s.len(),
{
    if p.len() > 0 && starts_with_seq(s, p) {
        strip_prefix_repeatedly(s.skip(p.len() as int), p)
    } else {
        s
    }
}

/// The length of `s` in UTF-8 bytes, as `str::len` reports it.
pub open spec fn utf8_len(s: Seq<char>) -> nat {
    (vstd::utf8::encode_utf8(s).len() as usize) as nat
}

/// `s` ends with the character `c`.
pub open spec fn ends_with_char(s: Seq<char>, c: char) -> bool {
    s.len() > 0 && s.last() == c
}

/// Joins two `/`-separated paths the way `Path::join` does on Unix: an
/// absolute `rel` replaces `base`; otherwise a separator is put between them
/// unless `base` is empty or already ends with one.
pub open spec fn join_path_spec(base: Seq<char>, rel: Seq<char>) -> Seq<char> {
    if rel.len() > 0 && rel[0] == '/' {
        rel
    } else if base.len() == 0 || ends_with_char(base, '/') {
        base + rel
    } else {
        base + seq!['/'] + rel
    }
}

/// The pieces of `s[pos..]` between occurrences of `sep`, left to right
/// (`str::split` with a non-empty separator).
pub open spec fn split_from(s: Seq<char>, sep: Seq<char>, pos: int) -> Seq<Seq<char>>
    recommends
        sep.len() > 0,
        0 <= pos <= s.len(),
    decreases s.len() + 1 - pos,
{
    if sep.len() == 0 || pos < 0 || pos > s.len() {
        seq![s.subrange(pos, s.len() as int)]
    } else {
        match first_match_from(s, sep, pos) {
            None => seq![s.subrange(pos, s.len() as int)],
            Some(k) => {
                proof {
                    lemma_first_match_is_match(s, sep, pos);
                }
                seq![s.subrange(pos, k)] + split_from(s, sep, k + sep.len())
            },
        }
    }
}

/// `str::split` with a non-empty separator.
pub open spec fn split_spec(s: Seq<char>, sep: Seq<char>) -> Seq<Seq<char>> {
    split_from(s, sep, 0)
}

/// `s[pos..]` with every occurrence of a non-empty `pat` replaced by `to`,
/// left to right without overlaps.
pub open spec fn replace_from(s: Seq<char>, pat: Seq<char>, to: Seq<char>, pos: int) -> Seq<char>
    decreases s.len() + 1 - pos,
{
    if pat.len() == 0 || pos < 0 || pos > s.len() {
        s.subrange(pos, s.len() as int)
    } else {
        match first_match_from(s, pat, pos) {
            None => s.subrange(pos, s.len() as int),
            Some(k) => {
                proof {
                    lemma_first_match_is_match(s, pat, pos);
                }
                s.subrange(pos, k) + to + replace_from(s, pat, to, k + pat.len())
            },
        }
    }
}

/// The number of occurrences of a non-empty `pat` in `s[pos..]`, left to
/// right without overlaps.
pub open spec fn count_from(s: Seq<char>, pat: Seq<char>, pos: int) -> nat
    decreases s.len() + 1 - pos,
{
    if pat.len() == 0 || pos < 0 || pos > s.len() {
        0
    } else {
        match first_match_from(s, pat, pos) {
            None => 0,
            Some(k) => {
                proof {
                    lemma_first_match_is_match(s, pat, pos);
                }
                1 + count_from(s, pat, k + pat.len())
            },
        }
    }
}

/// `to` before every character of `s` and at its end: what `str::replace`
/// does with an empty pattern.
pub open spec fn interleave(s: Seq<char>, to: Seq<char>) -> Seq<char>
    decreases s.len(),
{
    if s.len() == 0 {
        to
    } else {
        to + seq![s[0]] + interleave(s.drop_first(), to)
    }
}

/// `str::replace`.
pub open spec fn replace_spec(s: Seq<char>, pat: Seq<char>, to: Seq<char>) -> Seq<char> {
    if pat.len() == 0 {
        interleave(s, to)
    } else {
        replace_from(s, pat, to, 0)
    }
}

/// `str::matches(pat).count()`.
pub open spec fn count_spec(s: Seq<char>, pat: Seq<char>) -> nat {
    if pat.len() == 0 {
        s.len() + 1
    } else {
        count_from(s, pat, 0)
    }
}

/// The lines of `s` as `str::lines` gives them: the pieces between `\n`,
/// without a last empty piece, each piece that ended in `\r\n` without its
/// `\r`.
pub open spec fn lines_spec(s: Seq<char>) -> Seq<Seq<char>> {
    let pieces = split_spec(s, seq!['\n']);
    let kept = if pieces.last().len() == 0 {
        pieces.drop_last()
    } else {
        pieces
    };
    Seq::new(
        kept.len(),
        |i: int|
            if i < pieces.len() - 1 && kept[i].len() > 0 && kept[i].last() == '\r' {
                kept[i].drop_last()
            } else {
                kept[i]
            },
    )
}

/// The pieces joined with `sep` between them.
pub open spec fn join_spec(parts: Seq<Seq<char>>, sep: Seq<char>) -> Seq<char>
    decreases parts.len(),
{
    if parts.len() == 0 {
        Seq::empty()
    } else if parts.len() == 1 {
        parts[0]
    } else {
        join_spec(parts.drop_last(), sep) + sep + parts.last()
    }
}

/// Unicode White_Space, which `char::is_whitespace` tests.
pub open spec fn is_whitespace_spec(c: char) -> bool {
    ||| '\u{9}' <= c <= '\u{d}'
    ||| c == ' '
    ||| c == '\u{85}'
    ||| c == '\u{a0}'
    ||| c == '\u{1680}'
    ||| '\u{2000}' <= c <= '\u{200a}'
    ||| c == '\u{2028}'
    ||| c == '\u{2029}'
    ||| c == '\u{202f}'
    ||| c == '\u{205f}'
    ||| c == '\u{3000}'
}

/// `str::trim_end`.
pub open spec fn trim_end_spec(s: Seq<char>) -> Seq<char>
    decreases s.len(),
{
    if s.len() > 0 && is_whitespace_spec(s.last()) {
        trim_end_spec(s.drop_last())
    } else {
        s
    }
}

/// `str::trim_start`.
pub open spec fn trim_start_spec(s: Seq<char>) -> Seq<char>
    decreases s.len(),
{
    if s.len() > 0 && is_whitespace_spec(s[0]) {
        trim_start_spec(s.drop_first())
    } else {
        s
    }
}

/// `str::trim`.
pub open spec fn trim_spec(s: Seq<char>) -> Seq<char> {
    trim_end_spec(trim_start_spec(s))
}

/// The decimal digit character for `d` in `0..10`.
pub open spec fn digit_char(d: int) -> char {
    if d == 0 {
        '0'
    } else if d == 1 {
        '1'
    } else if d == 2 {
        '2'
    } else if d == 3 {
        '3'
    } else if d == 4 {
        '4'
    } else if d == 5 {
        '5'
    } else if d == 6 {
        '6'
    } else if d == 7 {
        '7'
    } else if d == 8 {
        '8'
    } else {
        '9'
    }
}

/// The decimal form of a natural number, without leading zeros.
pub open spec fn decimal_spec(n: nat) -> Seq<char>
    decreases n,
{
    if n < 10 {
        seq![digit_char(n as int)]
    } else {
        decimal_spec(n / 10).push(digit_char((n % 10) as int))
    }
}

/// The decimal form of an integer, with a `-` when it is negative.
pub open spec fn int_decimal_spec(n: int) -> Seq<char> {
    if n < 0 {
        seq!['-'] + decimal_spec((-n) as nat)
    } else {
        decimal_spec(n as nat)
    }
}

/// The last normal component among `/`-separated pieces: empty pieces and
/// `.` are skipped, and a final `..` has no name.
pub open spec fn last_normal_component(pieces: Seq<Seq<char>>) -> Option<Seq<char>>
    decreases pieces.len(),
{
    if pieces.len() == 0 {
        None
    } else if pieces.last().len() == 0 || pieces.last() == seq!['.'] {
        last_normal_component(pieces.drop_last())
    } else if pieces.last() == seq!['.', '.'] {
        None
    } else {
        Some(pieces.last())
    }
}

/// The final component of a `/`-separated path, as `Path::file_name` gives it
/// on Unix.
pub open spec fn file_name_spec(path: Seq<char>) -> Option<Seq<char>> {
    last_normal_component(split_spec(path, seq!['/']))
}

/// `s` is a relative path whose first component is `.`.
pub open spec fn starts_cur_dir(s: Seq<char>) -> bool {
    s.len() > 0 && s[0] == '.' && (s.len() == 1 || s[1] == '/')
}

/// `s` without the separators and `.` components it starts with.
pub open spec fn skip_body(s: Seq<char>) -> Seq<char>
    decreases s.len(),
{
    if s.len() > 0 && (s[0] == '/' || starts_cur_dir(s)) {
        skip_body(s.drop_first())
    } else {
        s
    }
}

/// The length of the first component of `s` (the characters before the
/// first `/`).
pub open spec fn first_comp_len(s: Seq<char>) -> nat
    decreases s.len(),
{
    if s.len() == 0 || s[0] == '/' {
        0
    } else {
        1 + first_comp_len(s.drop_first())
    }
}

/// `s` without the separators and `.` components it ends with; the first
/// `keep` characters (a root or a leading `.`) always stay.
pub open spec fn trim_right_from(s: Seq<char>, keep: nat) -> Seq<char>
    decreases s.len(),
{
    if s.len() <= keep {
        s
    } else if s.last() == '/' {
        trim_right_from(s.drop_last(), keep)
    } else if s.last() == '.' && (s.len() == keep + 1 || s[s.len() - 2] == '/') {
        trim_right_from(s.drop_last(), keep)
    } else {
        s
    }
}

/// `p` relative to `r`, both past their leading separators and `.`
/// components: the components of `r` must begin those of `p`, compared one
/// by one; what is left of `p`, without trailing separators and `.`
/// components, is the result.
pub open spec fn strip_body(p: Seq<char>, r: Seq<char>) -> Option<Seq<char>>
    decreases r.len(),
{
    if r.len() == 0 {
        Some(trim_right_from(p, 0))
    } else {
        let n = first_comp_len(r);
        if n == 0 || first_comp_len(p) != n || p.take(n as int) != r.take(n as int) {
            None
        } else {
            let r2 = skip_body(r.skip(n as int));
            if r2.len() < r.len() {
                strip_body(skip_body(p.skip(n as int)), r2)
            } else {
                None
            }
        }
    }
}

/// `path` relative to `root`, as `Path::strip_prefix` gives it on Unix: the
/// components of `root` (a root `/`, a leading `.`, then the names between
/// separators, with repeated separators and `.` components not counted)
/// must be the first components of `path`; the rest of `path` is given
/// without the separators and `.` components around it.
pub open spec fn strip_path_prefix_spec(path: Seq<char>, root: Seq<char>) -> Option<Seq<char>> {
    if root.len() == 0 {
        Some(
            trim_right_from(
                path,
                if path.len() > 0 && (path[0] == '/' || starts_cur_dir(path)) {
                    1
                } else {
                    0
                },
            ),
        )
    } else if root[0] == '/' || starts_cur_dir(root) {
        if path.len() > 0 && path[0] == root[0] && (root[0] == '/' || starts_cur_dir(path)) {
            strip_body(skip_body(path.drop_first()), skip_body(root.drop_first()))
        } else {
            None
        }
    } else if path.len() > 0 && (path[0] == '/' || starts_cur_dir(path)) {
        None
    } else {
        strip_body(path, root)
    }
}

// ── Trusted std operations ─────────────────────────────────────────────

/// `String::push`: the character is appended at the end.
#[verifier::external_body]
pub(crate) fn push_char(s: &mut String, c: char)
    ensures
        final(s)@ == old(s)@.push(c),
{
    s.push(c);
}

// ── Conversions ────────────────────────────────────────────────────────

/// Copies a string slice into a fresh `String`.
pub fn to_owned_string(s: &str) -> (r: String)
    ensures
        r@ == s@,
{
    s.to_string()
}

/// The characters of a string slice, one by one.
pub fn chars_of(s: &str) -> (r: Vec<char>)
    ensures
        r@ == s@,
{
    let mut r: Vec<char> = Vec::new();
    for c in it: s.chars()
        invariant
            r@ == it.seq().take(it.index() as int),
            it.seq() == s@,
    {
        r.push(c);
    }
    r
}

/// Builds a `String` from the characters `v[from..to]`.
pub fn string_from_range(v: &Vec<char>, from: usize, to: usize) -> (r: String)
    requires
        from <= to <= v@.len(),
    ensures
        r@ == v@.subrange(from as int, to as int),
{
    let mut r = String::new();
    let mut i = from;
    while i < to
        invariant
            from <= i <= to <= v@.len(),
            r@ == v@.subrange(from as int, i as int),
        decreases to - i,
    {
        push_char(&mut r, v[i]);
        i = i + 1;
        assert(r@ =~= v@.subrange(from as int, i as int));
    }
    r
}

/// Builds a `String` from all characters of `v`.
pub fn string_from_chars(v: &Vec<char>) -> (r: String)
    ensures
        r@ == v@,
{
    let r = string_from_range(v, 0, v.len());
    assert(v@.subrange(0, v@.len() as int) =~= v@);
    r
}

/// Appends the characters of `v` to `s`.
pub fn push_chars(s: &mut String, v: &Vec<char>)
    ensures
        final(s)@ == old(s)@ + v@,
{
    let mut i: usize = 0;
    while i < v.len()
        invariant
            i <= v@.len(),
            s@ == old(s)@ + v@.take(i as int),
        decreases v.len() - i,
    {
        push_char(s, v[i]);
        i = i + 1;
        assert(s@ =~= old(s)@ + v@.take(i as int));
    }
    assert(v@.take(v@.len() as int) =~= v@);
}

/// Appends a string slice to `s`.
pub fn push_str(s: &mut String, t: &str)
    ensures
        final(s)@ == old(s)@ + t@,
{
    let v = chars_of(t);
    push_chars(s, &v);
}

/// Joins two `/`-separated paths (see `join_path_spec`).
pub fn join_path(base: &str, rel: &str) -> (r: String)
    ensures
        r@ == join_path_spec(base@, rel@),
{
    let b = chars_of(base);
    let v = chars_of(rel);
    if v.len() > 0 && v[0] == '/' {
        return string_from_chars(&v);
    }
    let mut r = string_from_chars(&b);
    if b.len() > 0 && b[b.len() - 1] != '/' {
        push_char(&mut r, '/');
    }
    push_chars(&mut r, &v);
    r
}

/// The digit character for `d < 10`.
pub fn digit(d: u64) -> (c: char)
    requires
        d < 10,
    ensures
        c == digit_char(d as int),
{
    if d == 0 {
        '0'
    } else if d == 1 {
        '1'
    } else if d == 2 {
        '2'
    } else if d == 3 {
        '3'
    } else if d == 4 {
        '4'
    } else if d == 5 {
        '5'
    } else if d == 6 {
        '6'
    } else if d == 7 {
        '7'
    } else if d == 8 {
        '8'
    } else {
        '9'
    }
}

/// Appends the decimal form of `n`.
pub fn push_decimal(s: &mut String, n: u64)
    ensures
        final(s)@ == old(s)@ + decimal_spec(n as nat),
    decreases n,
{
    if n < 10 {
        push_char(s, digit(n));
    } else {
        push_decimal(s, n / 10);
        push_char(s, digit(n % 10));
    }
}

/// The decimal form of `n`.
pub fn decimal(n: u64) -> (r: String)
    ensures
        r@ == decimal_spec(n as nat),
{
    let mut r = String::new();
    push_decimal(&mut r, n);
    r
}

/// Appends the decimal form of an integer, with a `-` when it is negative.
pub fn push_int_decimal(s: &mut String, n: i64)
    ensures
        final(s)@ == old(s)@ + int_decimal_spec(n as int),
{
    if n < 0 {
        push_char(s, '-');
        let m: u64 = if n == i64::MIN {
            9223372036854775808u64
        } else {
            (-n) as u64
        };
        push_decimal(s, m);
        assert(s@ =~= old(s)@ + int_decimal_spec(n as int));
    } else {
        push_decimal(s, n as u64);
    }
}

/// Is `c` Unicode white space (`char::is_whitespace`)?
pub fn is_whitespace(c: char) -> (b: bool)
    ensures
        b == is_whitespace_spec(c),
{
    ('\u{9}' <= c && c <= '\u{d}') || c == ' ' || c == '\u{85}' || c == '\u{a0}' || c
        == '\u{1680}' || ('\u{2000}' <= c && c <= '\u{200a}') || c == '\u{2028}' || c
        == '\u{2029}' || c == '\u{202f}' || c == '\u{205f}' || c == '\u{3000}'
}

/// Where the trimmed part of `v[from..to]` ends.
pub fn trim_end_index(v: &Vec<char>, from: usize, to: usize) -> (e: usize)
    requires
        from <= to <= v@.len(),
    ensures
        from <= e <= to,
        v@.subrange(from as int, e as int) == trim_end_spec(v@.subrange(from as int, to as int)),
{
    let mut e = to;
    while e > from && is_whitespace(v[e - 1])
        invariant
            from <= e <= to <= v@.len(),
            trim_end_spec(v@.subrange(from as int, to as int)) == trim_end_spec(
                v@.subrange(from as int, e as int),
            ),
        decreases e,
    {
        assert(v@.subrange(from as int, e as int).drop_last() =~= v@.subrange(
            from as int,
            e - 1,
        ));
        e = e - 1;
    }
    proof {
        if e > from {
            assert(v@.subrange(from as int, e as int).last() == v@[e - 1]);
        }
    }
    e
}

/// Where the trimmed part of `v[from..to]` starts.
pub fn trim_start_index(v: &Vec<char>, from: usize, to: usize) -> (b: usize)
    requires
        from <= to <= v@.len(),
    ensures
        from <= b <= to,
        v@.subrange(b as int, to as int) == trim_start_spec(v@.subrange(from as int, to as int)),
{
    let mut b = from;
    while b < to && is_whitespace(v[b])
        invariant
            from <= b <= to <= v@.len(),
            trim_start_spec(v@.subrange(from as int, to as int)) == trim_start_spec(
                v@.subrange(b as int, to as int),
            ),
        decreases to - b,
    {
        assert(v@.subrange(b as int, to as int).drop_first() =~= v@.subrange(b + 1, to as int));
        b = b + 1;
    }
    b
}

/// `v[from..to]` without white space at either end (`str::trim`).
pub fn trim_range(v: &Vec<char>, from: usize, to: usize) -> (r: String)
    requires
        from <= to <= v@.len(),
    ensures
        r@ == trim_spec(v@.subrange(from as int, to as int)),
{
    let b = trim_start_index(v, from, to);
    let e = trim_end_index(v, b, to);
    string_from_range(v, b, e)
}

/// The pieces of `v` between occurrences of a non-empty `sep`.
pub fn split_exec(v: &Vec<char>, sep: &Vec<char>) -> (r: Vec<String>)
    requires
        sep@.len() > 0,
    ensures
        r@.map_values(|s: String| s@) == split_spec(v@, sep@),
{
    let mut out: Vec<String> = Vec::new();
    let mut pos: usize = 0;
    loop
        invariant
            sep@.len() > 0,
            pos <= v@.len(),
            out@.map_values(|s: String| s@) + split_from(v@, sep@, pos as int) == split_spec(
                v@,
                sep@,
            ),
        decreases v@.len() + 1 - pos,
    {
        let found = find_from(v, sep, pos);
        proof {
            lemma_first_match_is_match(v@, sep@, pos as int);
        }
        match found {
            None => {
                let piece = string_from_range(v, pos, v.len());
                let ghost prev = out@;
                out.push(piece);
                assert(out@.map_values(|s: String| s@) =~= prev.map_values(|s: String| s@).push(
                    piece@,
                ));
                assert(out@.map_values(|s: String| s@) =~= split_spec(v@, sep@));
                return out;
            },
            Some(k) => {
                let piece = string_from_range(v, pos, k);
                let ghost prev = out@;
                out.push(piece);
                assert(out@.map_values(|s: String| s@) =~= prev.map_values(|s: String| s@).push(
                    piece@,
                ));
                assert(out@.map_values(|s: String| s@) + split_from(v@, sep@, k + sep@.len())
                    =~= split_spec(v@, sep@));
                assert(matches_at(v@, sep@, k as int));
                assert(k + sep.len() <= v.len());
                pos = k + sep.len();
            },
        }
    }
}

/// Do two string slices hold the same characters?
pub fn str_eq(a: &str, b: &str) -> (r: bool)
    ensures
        r == (a@ == b@),
{
    let av = chars_of(a);
    let bv = chars_of(b);
    eq_chars(&av, &bv)
}

/// `str::replace` with a non-empty pattern, and the number of replaced
/// occurrences.
pub fn replace_exec(v: &Vec<char>, pat: &Vec<char>, to: &Vec<char>) -> (r: (String, usize))
    requires
        pat@.len() > 0,
    ensures
        r.0@ == replace_spec(v@, pat@, to@),
        r.1 == count_spec(v@, pat@),
{
    let mut out = String::new();
    let mut count: usize = 0;
    let mut pos: usize = 0;
    loop
        invariant
            pat@.len() > 0,
            pos <= v@.len(),
            count <= pos,
            out@ + replace_from(v@, pat@, to@, pos as int) == replace_from(v@, pat@, to@, 0),
            count + count_from(v@, pat@, pos as int) == count_from(v@, pat@, 0),
        decreases v@.len() + 1 - pos,
    {
        let found = find_from(v, pat, pos);
        proof {
            lemma_first_match_is_match(v@, pat@, pos as int);
        }
        match found {
            None => {
                let ghost before = out@;
                push_chars_range(&mut out, v, pos, v.len());
                assert(out@ =~= replace_from(v@, pat@, to@, 0));
                return (out, count);
            },
            Some(k) => {
                let ghost before = out@;
                push_chars_range(&mut out, v, pos, k);
                push_chars(&mut out, to);
                assert(out@ + replace_from(v@, pat@, to@, k + pat@.len()) =~= replace_from(
                    v@,
                    pat@,
                    to@,
                    0,
                ));
                assert(matches_at(v@, pat@, k as int));
                assert(count <= k);
                assert(k + pat.len() <= v.len());
                count = count + 1;
                pos = k + pat.len();
            },
        }
    }
}

/// `to` before every character of `v` and at its end.
pub fn interleave_exec(v: &Vec<char>, to: &Vec<char>) -> (r: String)
    ensures
        r@ == interleave(v@, to@),
{
    let mut out = String::new();
    let mut i: usize = 0;
    assert(v@.skip(0) =~= v@);
    assert(out@ + interleave(v@.skip(0), to@) =~= interleave(v@, to@));
    while i < v.len()
        invariant
            i <= v@.len(),
            out@ + interleave(v@.skip(i as int), to@) == interleave(v@, to@),
        decreases v.len() - i,
    {
        push_chars(&mut out, to);
        push_char(&mut out, v[i]);
        assert(v@.skip(i as int).drop_first() =~= v@.skip(i + 1));
        assert(out@ + interleave(v@.skip(i + 1), to@) =~= interleave(v@, to@));
        i = i + 1;
    }
    push_chars(&mut out, to);
    assert(v@.skip(i as int) =~= Seq::<char>::empty());
    assert(out@ =~= interleave(v@, to@));
    out
}

/// Appends `v[from..to]`.
pub fn push_chars_range(s: &mut String, v: &Vec<char>, from: usize, to: usize)
    requires
        from <= to <= v@.len(),
    ensures
        final(s)@ == old(s)@ + v@.subrange(from as int, to as int),
{
    let mut i = from;
    while i < to
        invariant
            from <= i <= to <= v@.len(),
            s@ == old(s)@ + v@.subrange(from as int, i as int),
        decreases to - i,
    {
        push_char(s, v[i]);
        i = i + 1;
        assert(s@ =~= old(s)@ + v@.subrange(from as int, i as int));
    }
}

/// The pieces joined with `sep` between them.
pub fn join_exec(parts: &Vec<String>, sep: &str) -> (r: String)
    ensures
        r@ == join_spec(parts@.map_values(|s: String| s@), sep@),
{
    let ghost ps = parts@.map_values(|s: String| s@);
    let mut out = String::new();
    let mut i: usize = 0;
    while i < parts.len()
        invariant
            i <= parts@.len(),
            ps == parts@.map_values(|s: String| s@),
            out@ == join_spec(ps.take(i as int), sep@),
        decreases parts.len() - i,
    {
        if i > 0 {
            push_str(&mut out, sep);
        }
        push_str(&mut out, parts[i].as_str());
        proof {
            assert(ps.take(i + 1).drop_last() =~= ps.take(i as int));
            if i == 0 {
                assert(out@ =~= ps.take(1)[0]);
            }
        }
        i = i + 1;
    }
    assert(ps.take(i as int) =~= ps);
    out
}

/// The lines of `v` as `str::lines` gives them.
pub fn lines_exec(v: &Vec<char>) -> (r: Vec<String>)
    ensures
        r@.map_values(|s: String| s@) == lines_spec(v@),
{
    let mut nl: Vec<char> = Vec::new();
    nl.push('\n');
    assert(nl@ =~= seq!['\n']);
    let pieces = split_exec(v, &nl);
    let ghost ps = pieces@.map_values(|s: String| s@);
    proof {
        lemma_split_nonempty(v@, nl@, 0);
    }
    let n = pieces.len();
    let kept: usize = if pieces[n - 1].as_str().is_empty() {
        n - 1
    } else {
        n
    };
    let ghost ks = if ps.last().len() == 0 {
        ps.drop_last()
    } else {
        ps
    };
    assert(ks.len() == kept);
    let mut out: Vec<String> = Vec::new();
    let mut i: usize = 0;
    while i < kept
        invariant
            kept <= n == pieces@.len() == ps.len(),
            ps == pieces@.map_values(|s: String| s@),
            ks.len() == kept,
            forall|j: int| 0 <= j < kept ==> ks[j] == ps[j],
            i <= kept,
            out@.map_values(|s: String| s@) == lines_spec(v@).take(i as int),
            lines_spec(v@).len() == kept,
            forall|j: int|
                0 <= j < kept ==> lines_spec(v@)[j] == if j < ps.len() - 1 && ks[j].len() > 0
                    && ks[j].last() == '\r' {
                    ks[j].drop_last()
                } else {
                    ks[j]
                },
        decreases kept - i,
    {
        let cs = chars_of(pieces[i].as_str());
        let line = if i + 1 < n && cs.len() > 0 && cs[cs.len() - 1] == '\r' {
            string_from_range(&cs, 0, cs.len() - 1)
        } else {
            string_from_chars(&cs)
        };
        proof {
            assert(cs@ == ps[i as int]);
            assert(cs@.subrange(0, cs@.len() - 1) =~= cs@.drop_last());
        }
        let ghost prev = out@;
        let ghost lv = line@;
        assert(lv == lines_spec(v@)[i as int]);
        out.push(line);
        assert(out@.map_values(|s: String| s@) =~= prev.map_values(|s: String| s@).push(lv));
        assert(out@.map_values(|s: String| s@) =~= lines_spec(v@).take(i + 1));
        i = i + 1;
    }
    assert(lines_spec(v@).take(kept as int) =~= lines_spec(v@));
    out
}

/// `split_from` always yields at least one piece.
pub proof fn lemma_split_nonempty(s: Seq<char>, sep: Seq<char>, pos: int)
    ensures
        split_from(s, sep, pos).len() >= 1,
    decreases s.len() + 1 - pos,
{
    if sep.len() == 0 || pos < 0 || pos > s.len() {
    } else {
        match first_match_from(s, sep, pos) {
            None => {},
            Some(k) => {
                lemma_first_match_is_match(s, sep, pos);
                lemma_split_nonempty(s, sep, k + sep.len());
            },
        }
    }
}

/// The final component of a `/`-separated path (see `file_name_spec`).
pub fn file_name_exec(path: &Vec<char>) -> (r: Option<String>)
    ensures
        match r {
            Some(n) => file_name_spec(path@) == Some(n@),
            None => file_name_spec(path@) is None,
        },
{
    let mut slash: Vec<char> = Vec::new();
    slash.push('/');
    assert(slash@ =~= seq!['/']);
    let pieces = split_exec(path, &slash);
    let ghost ps = pieces@.map_values(|s: String| s@);
    let mut n = pieces.len();
    let ghost all = ps;
    assert(ps.take(n as int) =~= ps);
    while n > 0
        invariant
            n <= pieces@.len(),
            ps == pieces@.map_values(|s: String| s@),
            all == ps,
            all == split_spec(path@, seq!['/']),
            last_normal_component(ps.take(n as int)) == last_normal_component(all),
        decreases n,
    {
        let piece = chars_of(pieces[n - 1].as_str());
        proof {
            assert(ps.take(n as int).last() == piece@);
            assert(ps.take(n as int).drop_last() =~= ps.take(n - 1));
        }
        let dot = piece.len() == 1 && piece[0] == '.';
        let dotdot = piece.len() == 2 && piece[0] == '.' && piece[1] == '.';
        proof {
            if dot {
                assert(piece@ =~= seq!['.']);
            }
            if piece@ == seq!['.'] {
                assert(dot);
            }
            if dotdot {
                assert(piece@ =~= seq!['.', '.']);
            }
            if piece@ == seq!['.', '.'] {
                assert(dotdot);
            }
        }
        if piece.len() == 0 || dot {
            n = n - 1;
        } else if dotdot {
            return None;
        } else {
            return Some(string_from_chars(&piece));
        }
    }
    None
}

/// Where `v` from `i` on goes past its leading separators and `.`
/// components.
fn skip_body_at(v: &Vec<char>, i: usize) -> (j: usize)
    requires
        i <= v@.len(),
    ensures
        i <= j <= v@.len(),
        v@.skip(j as int) == skip_body(v@.skip(i as int)),
{
    let mut j = i;
    while j < v.len() && (v[j] == '/' || (v[j] == '.' && (j + 1 == v.len() || v[j + 1] == '/')))
        invariant
            i <= j <= v@.len(),
            skip_body(v@.skip(j as int)) == skip_body(v@.skip(i as int)),
        decreases v@.len() - j,
    {
        proof {
            let s = v@.skip(j as int);
            assert(s[0] == v@[j as int]);
            if j + 1 < v@.len() {
                assert(s[1] == v@[j + 1]);
            }
            assert(s.drop_first() =~= v@.skip(j + 1));
        }
        j = j + 1;
    }
    proof {
        let s = v@.skip(j as int);
        if j < v@.len() {
            assert(s[0] == v@[j as int]);
            if j + 1 < v@.len() {
                assert(s[1] == v@[j + 1]);
            }
        }
    }
    j
}

/// Where the first component of `v` from `i` on ends.
fn first_comp_end(v: &Vec<char>, i: usize) -> (e: usize)
    requires
        i <= v@.len(),
    ensures
        i <= e <= v@.len(),
        e - i == first_comp_len(v@.skip(i as int)),
{
    let mut e = i;
    while e < v.len() && v[e] != '/'
        invariant
            i <= e <= v@.len(),
            first_comp_len(v@.skip(i as int)) == (e - i) + first_comp_len(v@.skip(e as int)),
        decreases v@.len() - e,
    {
        proof {
            let s = v@.skip(e as int);
            assert(s[0] == v@[e as int]);
            assert(s.drop_first() =~= v@.skip(e + 1));
        }
        e = e + 1;
    }
    proof {
        let s = v@.skip(e as int);
        if e < v@.len() {
            assert(s[0] == v@[e as int]);
        }
    }
    e
}

/// Where `v[i..]` ends once trailing separators and `.` components are
/// trimmed, keeping its first `keep` characters.
fn trim_right_end(v: &Vec<char>, i: usize, keep: usize) -> (e: usize)
    requires
        i <= v@.len(),
    ensures
        i <= e <= v@.len(),
        v@.subrange(i as int, e as int) == trim_right_from(v@.skip(i as int), keep as nat),
{
    let mut e = v.len();
    assert(v@.subrange(i as int, e as int) =~= v@.skip(i as int));
    while e - i > keep && (v[e - 1] == '/' || (v[e - 1] == '.' && (e - i == keep + 1 || v[e - 2] == '/')))
        invariant
            i <= e <= v@.len(),
            trim_right_from(v@.subrange(i as int, e as int), keep as nat) == trim_right_from(
                v@.skip(i as int),
                keep as nat,
            ),
        decreases e,
    {
        proof {
            let s = v@.subrange(i as int, e as int);
            assert(s.last() == v@[e - 1]);
            if e - i >= 2 {
                assert(s[s.len() - 2] == v@[e - 2]);
            }
            assert(s.drop_last() =~= v@.subrange(i as int, e - 1));
        }
        e = e - 1;
    }
    proof {
        let s = v@.subrange(i as int, e as int);
        if e - i > keep {
            assert(s.last() == v@[e - 1]);
            if e - i >= 2 {
                assert(s[s.len() - 2] == v@[e - 2]);
            }
        }
    }
    e
}

/// Do `a[i..i + n]` and `b[j..j + n]` hold the same characters?
fn same_range(a: &Vec<char>, i: usize, b: &Vec<char>, j: usize, n: usize) -> (r: bool)
    requires
        i + n <= a@.len(),
        j + n <= b@.len(),
    ensures
        r == (a@.subrange(i as int, i + n) == b@.subrange(j as int, j + n)),
{
    let mut k: usize = 0;
    while k < n
        invariant
            k <= n,
            i + n <= a@.len(),
            j + n <= b@.len(),
            a@.subrange(i as int, i + k) == b@.subrange(j as int, j + k),
        decreases n - k,
    {
        assert(a@.len() == a.len() && b@.len() == b.len());
        if a[i + k] != b[j + k] {
            assert(a@.subrange(i as int, i + n)[k as int] != b@.subrange(j as int, j + n)[k as int]);
            return false;
        }
        k = k + 1;
        assert(a@.subrange(i as int, i + k) =~= b@.subrange(j as int, j + k));
    }
    true
}

/// `p[i..]` relative to `r[j..]` (see `strip_body`): the range of `p` that is
/// left, if the components of `r[j..]` begin those of `p[i..]`.
fn strip_body_exec(p: &Vec<char>, i0: usize, r: &Vec<char>, j0: usize) -> (res: Option<(usize, usize)>)
    requires
        i0 <= p@.len(),
        j0 <= r@.len(),
    ensures
        match res {
            Some((a, b)) => a <= b <= p@.len() && strip_body(p@.skip(i0 as int), r@.skip(j0 as int))
                == Some(p@.subrange(a as int, b as int)),
            None => strip_body(p@.skip(i0 as int), r@.skip(j0 as int)) is None,
        },
{
    let mut i = i0;
    let mut j = j0;
    loop
        invariant
            i <= p@.len(),
            j <= r@.len(),
            strip_body(p@.skip(i as int), r@.skip(j as int)) == strip_body(
                p@.skip(i0 as int),
                r@.skip(j0 as int),
            ),
        decreases r@.len() - j,
    {
        let ghost ps = p@.skip(i as int);
        let ghost rs = r@.skip(j as int);
        if j == r.len() {
            let e = trim_right_end(p, i, 0);
            return Some((i, e));
        }
        let n_end = first_comp_end(r, j);
        let m_end = first_comp_end(p, i);
        let n = n_end - j;
        if n == 0 || m_end - i != n {
            return None;
        }
        proof {
            assert(rs.take(n as int) =~= r@.subrange(j as int, j + n));
            assert(ps.take(n as int) =~= p@.subrange(i as int, i + n));
        }
        if !same_range(p, i, r, j, n) {
            return None;
        }
        let j2 = skip_body_at(r, n_end);
        let i2 = skip_body_at(p, m_end);
        proof {
            assert(rs.skip(n as int) =~= r@.skip(n_end as int));
            assert(ps.skip(n as int) =~= p@.skip(m_end as int));
        }
        i = i2;
        j = j2;
    }
}

/// `path` relative to `root` (see `strip_path_prefix_spec`).
pub fn strip_path_prefix(path: &Vec<char>, root: &Vec<char>) -> (r: Option<String>)
    ensures
        match r {
            Some(s) => strip_path_prefix_spec(path@, root@) == Some(s@),
            None => strip_path_prefix_spec(path@, root@) is None,
        },
{
    let path_cur = path.len() > 0 && path[0] == '.' && (path.len() == 1 || path[1] == '/');
    let root_cur = root.len() > 0 && root[0] == '.' && (root.len() == 1 || root[1] == '/');
    if root.len() == 0 {
        let keep: usize = if path.len() > 0 && (path[0] == '/' || path_cur) {
            1
        } else {
            0
        };
        let e = trim_right_end(path, 0, keep);
        assert(path@.skip(0) =~= path@);
        return Some(string_from_range(path, 0, e));
    }
    let res = if root[0] == '/' || root_cur {
        if path.len() > 0 && path[0] == root[0] && (root[0] == '/' || path_cur) {
            let i = skip_body_at(path, 1);
            let j = skip_body_at(root, 1);
            assert(path@.drop_first() =~= path@.skip(1));
            assert(root@.drop_first() =~= root@.skip(1));
            strip_body_exec(path, i, root, j)
        } else {
            None
        }
    } else if path.len() > 0 && (path[0] == '/' || path_cur) {
        None
    } else {
        assert(path@.skip(0) =~= path@);
        assert(root@.skip(0) =~= root@);
        strip_body_exec(path, 0, root, 0)
    };
    match res {
        Some((a, b)) => Some(string_from_range(path, a, b)),
        None => None,
    }
}

// ── Searching ──────────────────────────────────────────────────────────

/// Does `pat` occur in `s` at index `i`?
pub fn matches_at_exec(s: &Vec<char>, pat: &Vec<char>, i: usize) -> (b: bool)
    ensures
        b == matches_at(s@, pat@, i as int),
{
    if i > s.len() || pat.len() > s.len() - i {
        return false;
    }
    let mut j: usize = 0;
    while j < pat.len()
        invariant
            i + pat@.len() <= s@.len(),
            j <= pat@.len(),
            s@.subrange(i as int, i + j) == pat@.take(j as int),
        decreases pat.len() - j,
    {
        assert(i + j < s.len());
        if s[i + j] != pat[j] {
            assert(s@.subrange(i as int, i + pat@.len())[j as int] != pat@[j as int]);
            return false;
        }
        j = j + 1;
        assert(s@.subrange(i as int, i + j) =~= pat@.take(j as int));
    }
    assert(pat@.take(pat@.len() as int) =~= pat@);
    true
}

/// The first index at or after `start` where `pat` occurs (`str::find` on a suffix).
pub fn find_from(s: &Vec<char>, pat: &Vec<char>, start: usize) -> (r: Option<usize>)
    ensures
        match r {
            Some(k) => first_match_from(s@, pat@, start as int) == Some(k as int),
            None => first_match_from(s@, pat@, start as int) is None,
        },
{
    let mut i = start;
    while i <= s.len() && pat.len() <= s.len() - i
        invariant
            start <= i,
            first_match_from(s@, pat@, start as int) == first_match_from(s@, pat@, i as int),
        decreases s.len() + 1 - i,
    {
        if matches_at_exec(s, pat, i) {
            return Some(i);
        }
        assert(s@.subrange(i as int, i as int + pat@.len()) =~= pat@ || pat@.len() > 0);
        assert(i < s@.len());
        i = i + 1;
    }
    None
}

/// Does `pat` occur anywhere in `s`?
pub fn contains_exec(s: &Vec<char>, pat: &Vec<char>) -> (b: bool)
    ensures
        b == contains_seq(s@, pat@),
{
    let r = find_from(s, pat, 0);
    proof {
        lemma_first_match_some_iff_contains(s@, pat@, 0);
        if let Some(k) = first_match_from(s@, pat@, 0) {
            lemma_first_match_is_match(s@, pat@, 0);
        }
    }
    r.is_some()
}

/// Does `s` begin with `prefix`?
pub fn starts_with_exec(s: &Vec<char>, prefix: &Vec<char>) -> (b: bool)
    ensures
        b == starts_with_seq(s@, prefix@),
{
    let b = matches_at_exec(s, prefix, 0);
    proof {
        if prefix@.len() <= s@.len() {
            assert(s@.subrange(0, prefix@.len() as int) =~= s@.take(prefix@.len() as int));
        }
    }
    b
}

/// Are the two character sequences equal?
pub fn eq_chars(a: &Vec<char>, b: &Vec<char>) -> (r: bool)
    ensures
        r == (a@ == b@),
{
    if a.len() != b.len() {
        return false;
    }
    let r = matches_at_exec(a, b, 0);
    proof {
        if r {
            assert(a@.subrange(0, a@.len() as int) =~= a@);
        } else {
            assert(a@.subrange(0, b@.len() as int) =~= a@);
        }
    }
    r
}

/// Removes every leading copy of `p` from `v` (`str::trim_start_matches`).
pub fn strip_prefix_repeatedly_exec(v: &Vec<char>, p: &Vec<char>) -> (r: String)
    ensures
        r@ == strip_prefix_repeatedly(v@, p@),
{
    if p.len() == 0 {
        return string_from_chars(v);
    }
    let mut i: usize = 0;
    assert(v@.skip(0) =~= v@);
    while matches_at_exec(v, p, i)
        invariant
            p@.len() > 0,
            i <= v@.len(),
            strip_prefix_repeatedly(v@, p@) == strip_prefix_repeatedly(v@.skip(i as int), p@),
        decreases v.len() - i,
    {
        proof {
            assert(v@.skip(i as int).take(p@.len() as int) =~= v@.subrange(
                i as int,
                i + p@.len(),
            ));
            assert(v@.skip(i as int).skip(p@.len() as int) =~= v@.skip(i + p@.len()));
        }
        i = i + p.len();
    }
    proof {
        if p@.len() <= v@.skip(i as int).len() {
            assert(v@.skip(i as int).take(p@.len() as int) =~= v@.subrange(
                i as int,
                i + p@.len(),
            ));
        }
    }
    let r = string_from_range(v, i, v.len());
    assert(v@.subrange(i as int, v@.len() as int) =~= v@.skip(i as int));
    r
}

// ── Lemmas ─────────────────────────────────────────────────────────────

/// What `first_match_from` returns is an occurrence at or after `start`,
/// and nothing occurs between `start` and it.
pub proof fn lemma_first_match_is_match(s: Seq<char>, pat: Seq<char>, start: int)
    requires
        0 <= start,
    ensures
        match first_match_from(s, pat, start) {
            Some(k) => start <= k && matches_at(s, pat, k) && forall|j: int|
                start <= j < k ==> !matches_at(s, pat, j),
            None => forall|j: int| start <= j ==> !matches_at(s, pat, j),
        },
    decreases s.len() + 1 - start,
{
    if start + pat.len() > s.len() {
    } else if matches_at(s, pat, start) {
    } else {
        lemma_first_match_is_match(s, pat, start + 1);
    }
}

/// `first_match_from` finds something exactly when `pat` occurs at or after `start`.
pub proof fn lemma_first_match_some_iff_contains(s: Seq<char>, pat: Seq<char>, start: int)
    requires
        start == 0,
    ensures
        first_match_from(s, pat, start) is Some <==> contains_seq(s, pat),
{
    lemma_first_match_is_match(s, pat, start);
}


/// The last `/`-separated piece of `s[pos..]` is `s[q..]`, when `q` is just
/// past a separator (or is `pos`) and no separator follows it.
proof fn lemma_split_last_piece(s: Seq<char>, pos: int, q: int)
    requires
        0 <= pos <= q <= s.len(),
        q == pos || s[q - 1] == '/',
        forall|j: int| q <= j < s.len() ==> s[j] != '/',
    ensures
        split_from(s, seq!['/'], pos).last() == s.subrange(q, s.len() as int),
    decreases s.len() + 1 - pos,
{
    let sep = seq!['/'];
    lemma_first_match_is_match(s, sep, pos);
    match first_match_from(s, sep, pos) {
        None => {
            if q > pos {
                assert(s.subrange(q - 1, q) =~= sep);
                assert(matches_at(s, sep, q - 1));
            }
        },
        Some(k) => {
            assert(s.subrange(k, k + 1) == sep);
            assert(s[k] == s.subrange(k, k + 1)[0]);
            assert(k < q);
            if q > k + 1 {
            } else {
                assert(q == k + 1);
            }
            lemma_split_last_piece(s, k + 1, q);
            lemma_split_nonempty(s, sep, k + 1);
            let rest = split_from(s, sep, k + 1);
            assert((seq![s.subrange(pos, k)] + rest).last() == rest.last());
        },
    }
}

/// A name with no separator, neither `.` nor `..`, is the file name of a
/// path that ends in it after a separator, and of itself.
pub proof fn lemma_file_name_of_joined(dir: Seq<char>, name: Seq<char>)
    requires
        name.len() > 0,
        forall|j: int| 0 <= j < name.len() ==> name[j] != '/',
        name != seq!['.'],
        name != seq!['.', '.'],
    ensures
        file_name_spec(dir + seq!['/'] + name) == Some(name),
        file_name_spec(name) == Some(name),
{
    let p = dir + seq!['/'] + name;
    let q: int = dir.len() as int + 1;
    assert(p[q - 1] == '/');
    assert forall|j: int| q <= j < p.len() implies p[j] != '/' by {
        assert(p[j] == name[j - q]);
    }
    lemma_split_last_piece(p, 0, q);
    assert(p.subrange(q, p.len() as int) =~= name);
    lemma_split_nonempty(p, seq!['/'], 0);
    lemma_split_last_piece(name, 0, 0);
    assert(name.subrange(0, name.len() as int) =~= name);
    lemma_split_nonempty(name, seq!['/'], 0);
}


/// `p` occurs in `a + p + b`.
pub proof fn lemma_contains_middle(a: Seq<char>, p: Seq<char>, b: Seq<char>)
    ensures
        contains_seq(a + p + b, p),
{
    let s = a + p + b;
    assert(s.subrange(a.len() as int, a.len() + p.len() as int) =~= p);
    assert(matches_at(s, p, a.len() as int));
}

/// What occurs in `x` occurs in `a + x + b`.
pub proof fn lemma_contains_widen(x: Seq<char>, p: Seq<char>, a: Seq<char>, b: Seq<char>)
    requires
        contains_seq(x, p),
    ensures
        contains_seq(a + x + b, p),
{
    let i = choose|i: int| matches_at(x, p, i);
    let s = a + x + b;
    assert(s.subrange(a.len() + i, a.len() + i + p.len()) =~= x.subrange(i, i + p.len()));
    assert(matches_at(s, p, a.len() + i));
}


/// `t` with each character `c` written as `to`, character by character.
pub open spec fn replace_char_spec(t: Seq<char>, c: char, to: Seq<char>) -> Seq<char>
    decreases t.len(),
{
    if t.len() == 0 {
        Seq::empty()
    } else {
        (if t[0] == c {
            to
        } else {
            seq![t[0]]
        }) + replace_char_spec(t.drop_first(), c, to)
    }
}

/// Writing characters one by one distributes over concatenation.
pub proof fn lemma_replace_char_concat(a: Seq<char>, b: Seq<char>, c: char, to: Seq<char>)
    ensures
        replace_char_spec(a + b, c, to) == replace_char_spec(a, c, to) + replace_char_spec(b, c, to),
    decreases a.len(),
{
    if a.len() == 0 {
        assert(a + b =~= b);
    } else {
        assert((a + b).drop_first() =~= a.drop_first() + b);
        assert((a + b)[0] == a[0]);
        lemma_replace_char_concat(a.drop_first(), b, c, to);
        let h = if a[0] == c {
            to
        } else {
            seq![a[0]]
        };
        assert(h + (replace_char_spec(a.drop_first(), c, to) + replace_char_spec(b, c, to)) =~= h
            + replace_char_spec(a.drop_first(), c, to) + replace_char_spec(b, c, to));
    }
}

/// Text without `c` is written as it is.
pub proof fn lemma_replace_char_absent(t: Seq<char>, c: char, to: Seq<char>)
    requires
        !t.contains(c),
    ensures
        replace_char_spec(t, c, to) == t,
    decreases t.len(),
{
    if t.len() > 0 {
        assert(t[0] != c);
        assert(!t.drop_first().contains(c)) by {
            if t.drop_first().contains(c) {
                let j = choose|j: int| 0 <= j < t.drop_first().len() && t.drop_first()[j] == c;
                assert(t[j + 1] == c);
            }
        }
        lemma_replace_char_absent(t.drop_first(), c, to);
        assert(seq![t[0]] + t.drop_first() =~= t);
    }
}

/// Replacing a one-character pattern writes `s[pos..]` character by
/// character.
proof fn lemma_replace_from_single(s: Seq<char>, c: char, to: Seq<char>, pos: int)
    requires
        0 <= pos <= s.len(),
    ensures
        replace_from(s, seq![c], to, pos) == replace_char_spec(s.subrange(pos, s.len() as int), c, to),
    decreases s.len() + 1 - pos,
{
    let pat = seq![c];
    lemma_first_match_is_match(s, pat, pos);
    match first_match_from(s, pat, pos) {
        None => {
            let t = s.subrange(pos, s.len() as int);
            if t.contains(c) {
                let j = choose|j: int| 0 <= j < t.len() && t[j] == c;
                assert(s.subrange(pos + j, pos + j + 1) =~= pat);
                assert(matches_at(s, pat, pos + j));
            }
            lemma_replace_char_absent(t, c, to);
        },
        Some(k) => {
            lemma_replace_from_single(s, c, to, k + 1);
            let a = s.subrange(pos, k);
            let b = s.subrange(k + 1, s.len() as int);
            assert(s.subrange(k, k + 1) == pat);
            assert(s[k] == s.subrange(k, k + 1)[0]);
            if a.contains(c) {
                let j = choose|j: int| 0 <= j < a.len() && a[j] == c;
                assert(s.subrange(pos + j, pos + j + 1) =~= pat);
                assert(matches_at(s, pat, pos + j));
            }
            lemma_replace_char_absent(a, c, to);
            let mid = seq![c] + b;
            assert(s.subrange(pos, s.len() as int) =~= a + mid);
            lemma_replace_char_concat(a, mid, c, to);
            assert(mid.drop_first() =~= b);
            assert(mid[0] == c);
        },
    }
}

/// `replace_spec` with a one-character pattern writes each occurrence of
/// that character as `to` and keeps the others.
pub proof fn lemma_replace_single_char(s: Seq<char>, c: char, to: Seq<char>)
    ensures
        replace_spec(s, seq![c], to) == replace_char_spec(s, c, to),
{
    lemma_replace_from_single(s, c, to, 0);
    assert(s.subrange(0, s.len() as int) =~= s);
}

} // verus!
