//! Character-level text operations: searching, splitting, trimming and joining.
//!
//! Every operation is stated over `Seq<char>`, the view of `str` and `String`.

use itertools::Itertools;
use vstd::prelude::*;

verus! {

/// Index of the first occurrence of `c` in `s`, or `s.len()` when `c` does not occur.
pub open spec fn first_index(s: Seq<char>, c: char) -> int
    decreases s.len(),
{
    if s.len() == 0 || s[0] == c {
        0
    } else {
        1 + first_index(s.drop_first(), c)
    }
}

/// `first_index` is in range, nothing before it is `c`, and `c` stands at it when it is
/// inside the sequence.
pub proof fn lemma_first_index(s: Seq<char>, c: char)
    ensures
        0 <= first_index(s, c) <= s.len(),
        forall|k: int| 0 <= k < first_index(s, c) ==> s[k] != c,
        first_index(s, c) < s.len() ==> s[first_index(s, c)] == c,
    decreases s.len(),
{
    if s.len() == 0 || s[0] == c {
    } else {
        let t = s.drop_first();
        lemma_first_index(t, c);
        assert forall|k: int| 0 <= k < first_index(s, c) implies s[k] != c by {
            if k > 0 {
                assert(s[k] == t[k - 1]);
            }
        }
        if first_index(s, c) < s.len() {
            assert(s[first_index(s, c)] == t[first_index(t, c)]);
        }
    }
}

/// An index with the defining properties of `first_index` is `first_index`.
pub proof fn lemma_first_index_unique(s: Seq<char>, c: char, n: int)
    requires
        0 <= n <= s.len(),
        forall|k: int| 0 <= k < n ==> s[k] != c,
        n < s.len() ==> s[n] == c,
    ensures
        first_index(s, c) == n,
{
    lemma_first_index(s, c);
    let m = first_index(s, c);
    if m < n {
        assert(s[m] == c);
    } else if n < m {
        assert(s[n] == c);
    }
}

/// The pieces of `s` between the occurrences of `sep`. There is always at least one piece;
/// a separator at either end, or two in a row, give an empty piece.
pub open spec fn split_on(s: Seq<char>, sep: char) -> Seq<Seq<char>>
    decreases s.len(),
{
    let n = first_index(s, sep);
    if 0 <= n < s.len() {
        seq![s.take(n)] + split_on(s.skip(n + 1), sep)
    } else {
        seq![s]
    }
}

/// A split has at least one piece.
pub proof fn lemma_split_on_len(s: Seq<char>, sep: char)
    ensures
        split_on(s, sep).len() >= 1,
{
}

/// Whether `c` does not occur in `s`.
pub open spec fn has_no(s: Seq<char>, c: char) -> bool {
    forall|k: int| 0 <= k < s.len() ==> s[k] != c
}

/// `s` without one line feed at its end, if it has one.
pub open spec fn without_final_line_feed(s: Seq<char>) -> Seq<char> {
    if s.len() > 0 && s.last() == '\n' {
        s.drop_last()
    } else {
        s
    }
}

/// The lines of `s`: the pieces between its line feeds, where a line feed at the very end
/// ends the last line and starts no new one. Every other character, a carriage return
/// too, belongs to its line. The empty text has one line, which is empty.
pub open spec fn lines_of(s: Seq<char>) -> Seq<Seq<char>> {
    split_on(without_final_line_feed(s), '\n')
}

/// The parts written one after another with `sep` between each two neighbours.
pub open spec fn joined(parts: Seq<Seq<char>>, sep: Seq<char>) -> Seq<char>
    decreases parts.len(),
{
    if parts.len() == 0 {
        Seq::empty()
    } else if parts.len() == 1 {
        parts[0]
    } else {
        parts[0] + sep + joined(parts.drop_first(), sep)
    }
}

/// A text that starts with a piece and a separator has that piece as the first of its
/// split; the other pieces are those of what follows.
pub proof fn lemma_split_on_first(piece: Seq<char>, rest: Seq<char>, sep: char)
    requires
        has_no(piece, sep),
    ensures
        split_on(piece + seq![sep] + rest, sep) == seq![piece] + split_on(rest, sep),
{
    let s = piece + seq![sep] + rest;
    lemma_first_index_unique(s, sep, piece.len() as int);
    assert(s.take(piece.len() as int) == piece);
    assert(s.skip(piece.len() as int + 1) == rest);
}

/// No piece of a split holds the separator.
pub proof fn lemma_split_on_pieces(s: Seq<char>, sep: char)
    ensures
        forall|i: int|
            0 <= i < split_on(s, sep).len() ==> has_no(#[trigger] split_on(s, sep)[i], sep),
    decreases s.len(),
{
    let n = first_index(s, sep);
    lemma_first_index(s, sep);
    if n < s.len() {
        let rest = s.skip(n + 1);
        lemma_split_on_pieces(rest, sep);
        assert(has_no(s.take(n), sep));
        assert forall|i: int| 0 <= i < split_on(s, sep).len() implies has_no(
            #[trigger] split_on(s, sep)[i],
            sep,
        ) by {
            if i > 0 {
                assert(split_on(s, sep)[i] == split_on(rest, sep)[i - 1]);
            }
        }
    } else {
        assert(has_no(s, sep));
    }
}

/// The pieces of a split, joined by the separator, are the text that was split.
pub proof fn lemma_joined_split(s: Seq<char>, sep: char)
    ensures
        joined(split_on(s, sep), seq![sep]) == s,
    decreases s.len(),
{
    let n = first_index(s, sep);
    lemma_first_index(s, sep);
    if n < s.len() {
        let rest = s.skip(n + 1);
        lemma_joined_split(rest, sep);
        lemma_split_on_len(rest, sep);
        let all = seq![s.take(n)] + split_on(rest, sep);
        assert(all.drop_first() == split_on(rest, sep));
        assert(joined(all, seq![sep]) == s.take(n) + seq![sep] + rest);
        assert(s.take(n) + seq![sep] + rest == s);
    }
}

/// Two rows of parts, joined as one row, are the first row joined, a separator, and
/// the second row joined.
pub proof fn lemma_joined_concat(first: Seq<Seq<char>>, second: Seq<Seq<char>>, sep: Seq<char>)
    requires
        first.len() >= 1,
        second.len() >= 1,
    ensures
        joined(first + second, sep) == joined(first, sep) + sep + joined(second, sep),
    decreases first.len(),
{
    let all = first + second;
    assert(all[0] == first[0]);
    if first.len() == 1 {
        assert(all.drop_first() == second);
    } else {
        let rest = first.drop_first();
        assert(all.drop_first() == rest + second);
        lemma_joined_concat(rest, second, sep);
        assert(first[0] + sep + (joined(rest, sep) + sep + joined(second, sep)) == (first[0] + sep
            + joined(rest, sep)) + sep + joined(second, sep));
    }
}

/// Parts that hold no separator, joined by it and followed by a separator and more text,
/// are split into themselves and the pieces of that text.
pub proof fn lemma_split_joined(parts: Seq<Seq<char>>, rest: Seq<char>, sep: char)
    requires
        parts.len() >= 1,
        forall|i: int| 0 <= i < parts.len() ==> has_no(#[trigger] parts[i], sep),
    ensures
        split_on(joined(parts, seq![sep]) + seq![sep] + rest, sep) == parts + split_on(rest, sep),
    decreases parts.len(),
{
    if parts.len() == 1 {
        lemma_split_on_first(parts[0], rest, sep);
        assert(seq![parts[0]] == parts);
    } else {
        let others = parts.drop_first();
        assert forall|i: int| 0 <= i < others.len() implies has_no(#[trigger] others[i], sep) by {
            assert(others[i] == parts[i + 1]);
        }
        lemma_split_joined(others, rest, sep);
        let after = joined(others, seq![sep]) + seq![sep] + rest;
        lemma_split_on_first(parts[0], after, sep);
        assert(joined(parts, seq![sep]) + seq![sep] + rest == parts[0] + seq![sep] + after);
        assert(seq![parts[0]] + (others + split_on(rest, sep)) == parts + split_on(rest, sep));
    }
}

/// Whether `c` has the Unicode property `White_Space`.
pub open spec fn is_white_space(c: char) -> bool {
    let u: u32 = c as u32;
    ||| 0x09 <= u <= 0x0d
    ||| u == 0x20
    ||| u == 0x85
    ||| u == 0xa0
    ||| u == 0x1680
    ||| 0x2000 <= u <= 0x200a
    ||| u == 0x2028
    ||| u == 0x2029
    ||| u == 0x202f
    ||| u == 0x205f
    ||| u == 0x3000
}

/// `s` without the white space at its start.
pub open spec fn trimmed_start(s: Seq<char>) -> Seq<char>
    decreases s.len(),
{
    if s.len() > 0 && is_white_space(s[0]) {
        trimmed_start(s.drop_first())
    } else {
        s
    }
}

/// `s` without the white space at its end.
pub open spec fn trimmed_end(s: Seq<char>) -> Seq<char>
    decreases s.len(),
{
    if s.len() > 0 && is_white_space(s.last()) {
        trimmed_end(s.drop_last())
    } else {
        s
    }
}

/// `s` without the white space at its start and at its end.
pub open spec fn trimmed(s: Seq<char>) -> Seq<char> {
    trimmed_end(trimmed_start(s))
}

/// Collects the characters of `s` into a vector.
pub fn to_chars(s: &str) -> (out: Vec<char>)
    ensures
        out@ == s@,
{
    let mut out: Vec<char> = Vec::new();
    for c in it: s.chars()
        invariant
            out@ == it.seq().take(it.index() as int),
            it.seq() == s@,
    {
        out.push(c);
    }
    out
}

/// `String::push`: the string afterwards is the string before with `c` added at its end.
#[verifier::external_body]
fn push_char(s: &mut String, c: char)
    ensures
        final(s)@ == old(s)@.push(c),
{
    s.push(c)
}

/// `Itertools::join` on the strings of `parts`: each written as it is, with `sep`
/// between each two neighbours, and the empty string when there is no part.
#[verifier::external_body]
pub(crate) fn join_strings(parts: &Vec<String>, sep: &str) -> (out: String)
    ensures
        out@ == joined(parts.deep_view(), sep@),
{
    parts.iter().join(sep)
}

/// The characters of `v` from index `from` up to, not including, index `to`, as a string.
pub fn from_chars(v: &Vec<char>, from: usize, to: usize) -> (out: String)
    requires
        from <= to <= v.len(),
    ensures
        out@ == v@.subrange(from as int, to as int),
{
    let mut out = String::new();
    let mut i: usize = from;
    while i < to
        invariant
            from <= i <= to <= v.len(),
            out@ == v@.subrange(from as int, i as int),
        decreases to - i,
    {
        push_char(&mut out, v[i]);
        i += 1;
        assert(v@.subrange(from as int, i as int) == v@.subrange(from as int, i - 1).push(
            v@[i - 1],
        ));
    }
    out
}

/// The first index at or after `from` at which `c` stands in `v`, or `v.len()`.
pub fn find_from(v: &Vec<char>, from: usize, c: char) -> (at: usize)
    requires
        from <= v.len(),
    ensures
        at == from + first_index(v@.skip(from as int), c),
        from <= at <= v.len(),
{
    let mut i: usize = from;
    while i < v.len() && v[i] != c
        invariant
            from <= i <= v.len(),
            forall|k: int| from <= k < i ==> v@[k] != c,
        decreases v.len() - i,
    {
        i += 1;
    }
    proof {
        lemma_first_index_unique(v@.skip(from as int), c, i - from);
    }
    i
}

/// Splits `s` at every occurrence of `sep`.
pub fn split(s: &str, sep: char) -> (out: Vec<String>)
    ensures
        out.deep_view() == split_on(s@, sep),
{
    let v = to_chars(s);
    let mut out: Vec<String> = Vec::new();
    let mut start: usize = 0;
    let mut done = false;
    proof {
        assert(v@.skip(0) == v@);
        assert(out.deep_view() + split_on(v@, sep) == split_on(v@, sep));
    }
    while !done
        invariant
            v@ == s@,
            start <= v.len(),
            !done ==> split_on(s@, sep) == out.deep_view() + split_on(v@.skip(start as int), sep),
            done ==> split_on(s@, sep) == out.deep_view(),
        decreases v.len() - start + if done { 0int } else { 1int },
    {
        let at = find_from(&v, start, sep);
        let piece = from_chars(&v, start, at);
        let ghost rest = v@.skip(start as int);
        let ghost before = out.deep_view();
        out.push(piece);
        proof {
            assert(rest.take(at - start) == v@.subrange(start as int, at as int));
            assert(out.deep_view() == before.push(piece@));
        }
        if at < v.len() {
            proof {
                assert(rest.skip(at - start + 1) == v@.skip(at + 1));
                assert(before + (seq![piece@] + split_on(v@.skip(at + 1), sep)) == before.push(
                    piece@,
                ) + split_on(v@.skip(at + 1), sep));
            }
            start = at + 1;
        } else {
            proof {
                assert(rest.take(at - start) == rest);
                assert(before + seq![piece@] == before.push(piece@));
            }
            done = true;
        }
    }
    out
}

/// Splits `s` into its lines.
pub fn lines(s: &str) -> (out: Vec<String>)
    ensures
        out.deep_view() == lines_of(s@),
{
    let v = to_chars(s);
    let end = if v.len() > 0 && v[v.len() - 1] == '\n' {
        v.len() - 1
    } else {
        v.len()
    };
    let body = from_chars(&v, 0, end);
    assert(v@.subrange(0, end as int) == without_final_line_feed(s@));
    split(body.as_str(), '\n')
}

/// Whether `c` is white space.
pub fn is_whitespace(c: char) -> (r: bool)
    ensures
        r == is_white_space(c),
{
    let u: u32 = c as u32;
    (0x09 <= u && u <= 0x0d) || u == 0x20 || u == 0x85 || u == 0xa0 || u == 0x1680 || (0x2000 <= u
        && u <= 0x200a) || u == 0x2028 || u == 0x2029 || u == 0x202f || u == 0x205f || u == 0x3000
}

/// Skipping the white space at the start leaves what follows the first character that is
/// none.
pub proof fn lemma_trimmed_start(s: Seq<char>, n: int)
    requires
        0 <= n <= s.len(),
        forall|k: int| 0 <= k < n ==> is_white_space(s[k]),
        n < s.len() ==> !is_white_space(s[n]),
    ensures
        trimmed_start(s) == s.skip(n),
    decreases n,
{
    if n == 0 {
        assert(s.skip(0) == s);
    } else {
        let t = s.drop_first();
        assert forall|k: int| 0 <= k < n - 1 implies is_white_space(t[k]) by {
            assert(t[k] == s[k + 1]);
        }
        lemma_trimmed_start(t, n - 1);
        assert(t.skip(n - 1) == s.skip(n));
    }
}

/// Dropping the white space at the end leaves what precedes the last character that is
/// none.
pub proof fn lemma_trimmed_end(s: Seq<char>, n: int)
    requires
        0 <= n <= s.len(),
        forall|k: int| n <= k < s.len() ==> is_white_space(s[k]),
        n > 0 ==> !is_white_space(s[n - 1]),
    ensures
        trimmed_end(s) == s.take(n),
    decreases s.len() - n,
{
    if n == s.len() {
        assert(s.take(n) == s);
    } else {
        let t = s.drop_last();
        lemma_trimmed_end(t, n);
        assert(t.take(n) == s.take(n));
    }
}

/// `s` without the white space at its start and at its end.
pub fn trim(s: &str) -> (out: String)
    ensures
        out@ == trimmed(s@),
{
    let v = to_chars(s);
    let mut from: usize = 0;
    while from < v.len() && is_whitespace(v[from])
        invariant
            from <= v.len(),
            forall|k: int| 0 <= k < from ==> is_white_space(v@[k]),
        decreases v.len() - from,
    {
        from += 1;
    }
    let mut to: usize = v.len();
    while to > from && is_whitespace(v[to - 1])
        invariant
            from <= to <= v.len(),
            forall|k: int| to <= k < v.len() ==> is_white_space(v@[k]),
        decreases to,
    {
        to -= 1;
    }
    proof {
        lemma_trimmed_start(v@, from as int);
        let rest = v@.skip(from as int);
        assert forall|k: int| to - from <= k < rest.len() implies is_white_space(rest[k]) by {
            assert(rest[k] == v@[k + from]);
        }
        if to > from {
            assert(rest[to - from - 1] == v@[to - 1]);
        }
        lemma_trimmed_end(rest, to - from);
        assert(rest.take(to - from) == v@.subrange(from as int, to as int));
    }
    from_chars(&v, from, to)
}

} // verus!
