//! Character-level text helpers: whitespace, query segments, line cleanup.

use vstd::prelude::*;

verus! {

/// A character with the Unicode `White_Space` property.
pub open spec fn is_space(c: char) -> bool {
    let u = c as u32;
    (9 <= u && u <= 13) || u == 32 || u == 0x85 || u == 0xa0 || u == 0x1680 || (0x2000 <= u
        && u <= 0x200a) || u == 0x2028 || u == 0x2029 || u == 0x202f || u == 0x205f || u == 0x3000
}

/// A text that is empty or made of whitespace only: what trims to nothing.
pub open spec fn is_blank(s: Seq<char>) -> bool {
    forall|i: int| 0 <= i < s.len() ==> is_space(#[trigger] s[i])
}

/// The pieces of `s` between the `sep` characters, as `str::split` yields
/// them: always at least one, empty pieces included.
pub open spec fn split_on(s: Seq<char>, sep: char) -> Seq<Seq<char>>
    decreases s.len(),
{
    if s.len() == 0 {
        seq![Seq::<char>::empty()]
    } else {
        let prev = split_on(s.drop_last(), sep);
        if s.last() == sep {
            prev.push(Seq::<char>::empty())
        } else {
            prev.update(prev.len() - 1, prev.last().push(s.last()))
        }
    }
}

/// The query's segments: its `|`-separated pieces that are not blank, in
/// order and untrimmed.
pub open spec fn segments(q: Seq<char>) -> Seq<Seq<char>> {
    split_on(q, '|').filter(|p: Seq<char>| !is_blank(p))
}

/// The views of a vector of strings.
pub open spec fn views(v: Seq<String>) -> Seq<Seq<char>> {
    v.map_values(|s: String| s@)
}

/// A text without the separator splits into itself alone.
pub proof fn lemma_split_without_sep(s: Seq<char>, sep: char)
    requires
        forall|i: int| 0 <= i < s.len() ==> #[trigger] s[i] != sep,
    ensures
        split_on(s, sep) == seq![s],
    decreases s.len(),
{
    if s.len() > 0 {
        lemma_split_without_sep(s.drop_last(), sep);
        assert(s.drop_last().push(s.last()) =~= s);
        assert(seq![s.drop_last()].update(0, s.drop_last().push(s.last())) =~= seq![s]);
    } else {
        assert(s =~= Seq::<char>::empty());
    }
}

/// Tests the Unicode `White_Space` property.
pub fn is_space_char(c: char) -> (r: bool)
    ensures
        r == is_space(c),
{
    let u = c as u32;
    (9 <= u && u <= 13) || u == 32 || u == 0x85 || u == 0xa0 || u == 0x1680 || (0x2000 <= u
        && u <= 0x200a) || u == 0x2028 || u == 0x2029 || u == 0x202f || u == 0x205f || u == 0x3000
}

/// Whether the characters are all whitespace.
pub fn is_blank_chars(v: &Vec<char>) -> (r: bool)
    ensures
        r == is_blank(v@),
{
    let n = v.len();
    for i in 0..n
        invariant
            n == v@.len(),
            forall|j: int| 0 <= j < i ==> is_space(#[trigger] v@[j]),
    {
        if !is_space_char(v[i]) {
            return false;
        }
    }
    true
}

/// The characters of `s`.
pub(crate) fn chars_of(s: &str) -> (r: Vec<char>)
    ensures
        r@ == s@,
{
    broadcast use vstd::string::axiom_spec_iter;

    let mut out: Vec<char> = Vec::new();
    for c in it: s.chars()
        invariant
            it.seq() == s@,
            out@ == it.seq().take(it.index() as int),
    {
        out.push(c);
        assert(out@ =~= it.seq().take(it.index() + 1));
    }
    assert(out@ =~= s@);
    out
}

/// Relies on `String: FromIterator<&char>`: the string of the characters.
#[verifier::external_body]
pub(crate) fn string_of(v: &Vec<char>) -> (r: String)
    ensures
        r@ == v@,
{
    v.iter().collect()
}

/// The segments of a query: split on `|`, blank pieces dropped.
pub fn query_segments(query: &str) -> (r: Vec<String>)
    ensures
        views(r@) == segments(query@),
{
    let chars = chars_of(query);
    let n = chars.len();
    let mut out: Vec<String> = Vec::new();
    let mut cur: Vec<char> = Vec::new();
    let ghost done: Seq<Seq<char>> = Seq::empty();
    let ghost keep = |p: Seq<char>| !is_blank(p);
    for i in 0..n
        invariant
            n == chars@.len(),
            chars@ == query@,
            keep == (|p: Seq<char>| !is_blank(p)),
            split_on(chars@.take(i as int), '|') == done.push(cur@),
            views(out@) == done.filter(keep),
    {
        let c = chars[i];
        assert(chars@.take(i + 1).drop_last() =~= chars@.take(i as int));
        if c == '|' {
            proof {
                done.lemma_filter_push(cur@, keep);
            }
            if !is_blank_chars(&cur) {
                let s = string_of(&cur);
                out.push(s);
            }
            proof {
                done = done.push(cur@);
            }
            assert(views(out@) =~= done.filter(keep));
            cur = Vec::new();
            assert(split_on(chars@.take(i + 1), '|') =~= done.push(cur@));
        } else {
            cur.push(c);
            assert(split_on(chars@.take(i + 1), '|') =~= done.push(cur@));
        }
    }
    proof {
        done.lemma_filter_push(cur@, keep);
    }
    if !is_blank_chars(&cur) {
        let s = string_of(&cur);
        out.push(s);
    }
    assert(chars@.take(n as int) =~= query@);
    assert(views(out@) =~= segments(query@));
    out
}

} // verus!
