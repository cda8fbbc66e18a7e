//! The matcher: decides whether a line matches a query and which of its
//! positions to highlight.
//!
//! Highlighted positions are byte offsets into the line, as the regex engine
//! reports its matches.

use grep::matcher::Matcher;
use grep::regex::RegexMatcherBuilder;
use vstd::prelude::*;
use vstd::utf8::encode_utf8;

use crate::text::{chars_of, is_blank, lemma_split_without_sep, query_segments, segments, split_on, views};

verus! {

/// What the regex engine finds in `haystack` for the alternation of
/// `patterns`: the successive non-overlapping matches as byte ranges, or
/// `None` where the patterns do not compile or the search fails.
pub uninterp spec fn regex_find_all(
    patterns: Seq<Seq<char>>,
    case_insensitive: bool,
    haystack: Seq<char>,
) -> Option<Seq<(usize, usize)>>;

/// The number of bytes in the UTF-8 encoding of `s`.
pub open spec fn byte_len(s: Seq<char>) -> nat {
    encode_utf8(s).len()
}

/// Whether byte position `i` lies in one of the ranges.
pub open spec fn covered(spans: Seq<(usize, usize)>, i: int) -> bool {
    exists|k: int| 0 <= k < spans.len() && (#[trigger] spans[k]).0 <= i < spans[k].1
}

/// `mask` with every position that a range covers switched on.
pub open spec fn marked(mask: Seq<bool>, spans: Seq<(usize, usize)>) -> Seq<bool> {
    Seq::new(mask.len(), |i: int| mask[i] || covered(spans, i))
}

/// Whether a range starts inside a text of `n` bytes.
pub open spec fn has_hit(spans: Seq<(usize, usize)>, n: nat) -> bool {
    exists|k: int| 0 <= k < spans.len() && (#[trigger] spans[k]).0 < n
}

/// A styled line's model: its text, and one highlight flag per byte.
pub type StyledView = (Seq<char>, Seq<bool>);

/// The line with nothing highlighted.
pub open spec fn plain(line: Seq<char>) -> StyledView {
    (line, Seq::new(byte_len(line), |i: int| false))
}

/// The result for a line given what the regex engine reported: no result
/// where the search failed or found nothing inside the line; otherwise the
/// line with every matched position highlighted.
pub open spec fn from_matches(line: Seq<char>, found: Option<Seq<(usize, usize)>>) -> Option<
    StyledView,
> {
    match found {
        None => None,
        Some(spans) => if has_hit(spans, byte_len(line)) {
            Some((line, marked(plain(line).1, spans)))
        } else {
            None
        },
    }
}

/// The matches of every segment, each compiled as a pattern of its own, in
/// `line`: the ranges that each segment alone finds, segment after segment;
/// `None` where a segment does not compile.
pub open spec fn segment_matches(segs: Seq<Seq<char>>, case_insensitive: bool, line: Seq<char>) -> Option<
    Seq<(usize, usize)>,
>
    decreases segs.len(),
{
    if segs.len() == 0 {
        Some(Seq::empty())
    } else {
        match (
            segment_matches(segs.drop_last(), case_insensitive, line),
            regex_find_all(seq![segs.last()], case_insensitive, line),
        ) {
            (Some(before), Some(found)) => Some(before + found),
            _ => None,
        }
    }
}

/// The result of matching `line` against the given segments: with no
/// segment every line matches unstyled; otherwise a line matches where any
/// segment matches anywhere in it, and every range that any segment finds
/// is highlighted, overlapping ranges united.
pub open spec fn styled_by(segs: Seq<Seq<char>>, case_insensitive: bool, line: Seq<char>) -> Option<
    StyledView,
> {
    if segs.len() == 0 {
        Some(plain(line))
    } else {
        from_matches(line, segment_matches(segs, case_insensitive, line))
    }
}

/// The result of matching `line` against the query `q`.
pub open spec fn styled_spec(q: Seq<char>, case_insensitive: bool, line: Seq<char>) -> Option<
    StyledView,
> {
    styled_by(segments(q), case_insensitive, line)
}

/// The model of what the regex engine reported.
pub open spec fn found_view(found: Option<Vec<(usize, usize)>>) -> Option<Seq<(usize, usize)>> {
    match found {
        Some(v) => Some(v@),
        None => None,
    }
}

/// The number of bytes that the UTF-8 encoding of `c` takes.
pub open spec fn utf8_width(c: char) -> int {
    let u = c as u32;
    if u < 0x80 {
        1
    } else if u < 0x800 {
        2
    } else if u < 0x10000 {
        3
    } else {
        4
    }
}

/// The byte offset at which character `k` of `s` starts.
pub open spec fn char_offset(s: Seq<char>, k: int) -> int
    decreases k,
{
    if k <= 0 {
        0
    } else {
        char_offset(s, k - 1) + utf8_width(s[k - 1])
    }
}

/// Whether a byte of character `k` of `s` is flagged in `mask`.
pub open spec fn char_flagged(s: Seq<char>, mask: Seq<bool>, k: int) -> bool {
    exists|b: int|
        char_offset(s, k) <= b < char_offset(s, k) + utf8_width(s[k]) && 0 <= b < mask.len()
            && #[trigger] mask[b]
}

/// A line with the positions to highlight.
pub struct StyledLine {
    pub text: String,
    pub highlighted: Vec<bool>,
}

impl View for StyledLine {
    type V = StyledView;

    open spec fn view(&self) -> StyledView {
        (self.text@, self.highlighted@)
    }
}

/// The model of an optional styled line.
pub open spec fn opt_view(r: Option<StyledLine>) -> Option<StyledView> {
    match r {
        Some(s) => Some(s@),
        None => None,
    }
}

impl StyledLine {
    /// The line with nothing highlighted.
    pub fn plain(line: &str) -> (r: StyledLine)
        ensures
            r@ == plain(line@),
    {
        let n = line.as_bytes().len();
        let mut mask: Vec<bool> = Vec::new();
        for i in 0..n
            invariant
                mask@ == Seq::new(i as nat, |j: int| false),
        {
            mask.push(false);
            assert(mask@ =~= Seq::new((i + 1) as nat, |j: int| false));
        }
        StyledLine { text: line.to_owned(), highlighted: mask }
    }

    /// Switches on the highlight of every position that a range covers and
    /// that lies in the line. Doing so again with the same ranges changes
    /// nothing more.
    pub fn highlight(&mut self, spans: &Vec<(usize, usize)>)
        ensures
            final(self).text@ == old(self).text@,
            final(self).highlighted@ == marked(old(self).highlighted@, spans@),
    {
        let ghost mask0 = self.highlighted@;
        let n = self.highlighted.len();
        for k in 0..spans.len()
            invariant
                n == mask0.len(),
                self.text@ == old(self).text@,
                mask0 == old(self).highlighted@,
                self.highlighted@ == marked(mask0, spans@.take(k as int)),
        {
            let (start, end) = spans[k];
            let stop = if end < n { end } else { n };
            let ghost before = self.highlighted@;
            let mut i = start;
            while i < stop
                invariant
                    n == mask0.len(),
                    self.text@ == old(self).text@,
                    self.highlighted@.len() == n,
                    stop <= n,
                    before.len() == n,
                    start <= i,
                    i <= stop || i == start,
                    forall|j: int|
                        0 <= j < n ==> #[trigger] self.highlighted@[j] == (before[j] || (start
                            <= j < i)),
                decreases stop - i,
            {
                self.highlighted.set(i, true);
                i = i + 1;
            }
            assert(self.highlighted@ =~= marked(mask0, spans@.take(k + 1))) by {
                assert forall|j: int| 0 <= j < n implies self.highlighted@[j] == (mask0[j]
                    || covered(spans@.take(k + 1), j)) by {
                    let t1 = spans@.take(k + 1);
                    let t0 = spans@.take(k as int);
                    assert(t1[k as int] == (start, end));
                    assert(before[j] == (mask0[j] || covered(t0, j)));
                    if start <= j < end {
                        assert(covered(t1, j));
                    }
                    if covered(t1, j) && !covered(t0, j) {
                        let w = choose|w: int| 0 <= w < t1.len() && (#[trigger] t1[w]).0 <= j < t1[w].1;
                        if w < k {
                            assert(t0[w] == t1[w]);
                        }
                    }
                    if covered(t0, j) {
                        let w = choose|w: int| 0 <= w < t0.len() && (#[trigger] t0[w]).0 <= j < t0[w].1;
                        assert(t1[w] == t0[w]);
                    }
                }
            }
        }
        assert(spans@.take(spans@.len() as int) =~= spans@);
    }

    /// One highlight flag per character of the text: a character is
    /// highlighted where one of its bytes is.
    pub fn char_highlights(&self) -> (r: Vec<bool>)
        ensures
            r@.len() == self.text@.len(),
            forall|k: int|
                0 <= k < r@.len() ==> #[trigger] r@[k] == char_flagged(
                    self.text@,
                    self.highlighted@,
                    k,
                ),
    {
        let chars = chars_of(self.text.as_str());
        let mask = &self.highlighted;
        let n = mask.len();
        let mut out: Vec<bool> = Vec::new();
        let mut off: usize = 0;
        for k in 0..chars.len()
            invariant
                chars@ == self.text@,
                mask@ == self.highlighted@,
                n == mask@.len(),
                out@.len() == k,
                off as int == if char_offset(chars@, k as int) < n {
                    char_offset(chars@, k as int)
                } else {
                    n as int
                },
                forall|j: int|
                    0 <= j < k ==> #[trigger] out@[j] == char_flagged(chars@, mask@, j),
        {
            let c = chars[k];
            let u = c as u32;
            let w: usize = if u < 0x80 {
                1
            } else if u < 0x800 {
                2
            } else if u < 0x10000 {
                3
            } else {
                4
            };
            assert(w as int == utf8_width(c));
            assert(char_offset(chars@, k + 1) == char_offset(chars@, k as int) + w);
            let end = if w <= n - off {
                off + w
            } else {
                n
            };
            let mut flag = false;
            let mut b = off;
            while b < end
                invariant
                    off <= b <= end <= n,
                    n == mask@.len(),
                    flag == exists|x: int| off <= x < b && #[trigger] mask@[x],
                decreases end - b,
            {
                if mask[b] {
                    flag = true;
                }
                b = b + 1;
            }
            assert(flag == char_flagged(chars@, mask@, k as int)) by {
                if flag {
                    let x = choose|x: int| off <= x < b && #[trigger] mask@[x];
                    assert(char_offset(chars@, k as int) <= x < char_offset(chars@, k as int)
                        + utf8_width(chars@[k as int]) && 0 <= x < mask@.len() && mask@[x]);
                }
                if char_flagged(chars@, mask@, k as int) {
                    let x = choose|x: int|
                        char_offset(chars@, k as int) <= x < char_offset(chars@, k as int)
                            + utf8_width(chars@[k as int]) && 0 <= x < mask@.len()
                            && #[trigger] mask@[x];
                    assert(off <= x < b);
                }
            }
            out.push(flag);
            off = end;
        }
        out
    }
}

/// Highlighting twice with the same ranges yields the same positions as
/// highlighting once.
pub proof fn lemma_highlight_idempotent(mask: Seq<bool>, spans: Seq<(usize, usize)>)
    ensures
        marked(marked(mask, spans), spans) == marked(mask, spans),
{
    assert(marked(marked(mask, spans), spans) =~= marked(mask, spans));
}

/// Relies on grep-regex's `RegexMatcherBuilder::build_many` (the patterns
/// joined as one alternation, case folding as asked) and on grep-matcher's
/// `Matcher::find_iter`, which reports the successive non-overlapping
/// matches in `line`'s bytes. A pattern that does not compile, or a failed
/// search, gives `None`.
#[verifier::external_body]
fn find_all(patterns: &Vec<String>, case_insensitive: bool, line: &str) -> (r: Option<
    Vec<(usize, usize)>,
>)
    ensures
        regex_find_all(views(patterns@), case_insensitive, line@) == found_view(r),
{
    let matcher = RegexMatcherBuilder::new()
        .case_insensitive(case_insensitive)
        .build_many(patterns)
        .ok()?;
    let mut found: Vec<(usize, usize)> = Vec::new();
    matcher.find_iter(line.as_bytes(), |m| {
        found.push((m.start(), m.end()));
        true
    }).ok()?;
    Some(found)
}

/// Whether one of the ranges starts before byte `n`.
fn any_hit(spans: &Vec<(usize, usize)>, n: usize) -> (r: bool)
    ensures
        r == has_hit(spans@, n as nat),
{
    for k in 0..spans.len()
        invariant
            forall|j: int| 0 <= j < k ==> (#[trigger] spans@[j]).0 >= n,
    {
        if spans[k].0 < n {
            return true;
        }
    }
    false
}

/// The result for `line` given the matches that the regex engine reported
/// for it (`None` for a failed search): no result where nothing matched
/// inside the line, else the line with all matched positions highlighted.
pub fn styled_from_matches(line: &str, found: Option<Vec<(usize, usize)>>) -> (r: Option<
    StyledLine,
>)
    ensures
        opt_view(r) == from_matches(line@, found_view(found)),
{
    match found {
        None => None,
        Some(spans) => {
            if any_hit(&spans, line.as_bytes().len()) {
                let mut styled = StyledLine::plain(line);
                styled.highlight(&spans);
                Some(styled)
            } else {
                None
            }
        },
    }
}

/// Matches `line` against `query`. The query is split on `|` and its blank
/// pieces dropped; with no piece left every line matches, unstyled.
/// Otherwise each piece is a regular expression of its own: the line
/// matches where any piece matches anywhere in it, and every position that
/// any piece matches is highlighted; a line with no match, or a piece that
/// does not compile, gives `None`.
pub fn styled(query: &str, line: &str, case_insensitive: bool) -> (r: Option<StyledLine>)
    ensures
        opt_view(r) == styled_spec(query@, case_insensitive, line@),
{
    let segs = query_segments(query);
    if segs.len() == 0 {
        Some(StyledLine::plain(line))
    } else {
        let found = find_each(&segs, case_insensitive, line);
        styled_from_matches(line, found)
    }
}

/// The ranges that each segment, compiled alone, finds in `line`, segment
/// after segment; `None` where a segment does not compile.
fn find_each(segs: &Vec<String>, case_insensitive: bool, line: &str) -> (r: Option<
    Vec<(usize, usize)>,
>)
    ensures
        found_view(r) == segment_matches(views(segs@), case_insensitive, line@),
{
    let mut all: Vec<(usize, usize)> = Vec::new();
    for i in 0..segs.len()
        invariant
            segment_matches(views(segs@).take(i as int), case_insensitive, line@) == Some(all@),
    {
        let one = vec![segs[i].clone()];
        let ghost prefix = views(segs@).take(i + 1);
        assert(views(one@) =~= seq![prefix.last()]);
        assert(prefix.drop_last() =~= views(segs@).take(i as int));
        match find_all(&one, case_insensitive, line) {
            None => {
                proof {
                    lemma_failure_persists(views(segs@), case_insensitive, line@, i + 1);
                }
                return None;
            },
            Some(mut found) => {
                all.append(&mut found);
            },
        }
    }
    assert(views(segs@).take(segs@.len() as int) =~= views(segs@));
    Some(all)
}

/// Dropping the blank pieces of a query before the patterns are compiled
/// changes no result: two queries with the same non-blank pieces match and
/// highlight every line alike.
pub proof fn lemma_blank_pieces_ignored(
    q1: Seq<char>,
    q2: Seq<char>,
    case_insensitive: bool,
    line: Seq<char>,
)
    requires
        segments(q1) == segments(q2),
    ensures
        styled_spec(q1, case_insensitive, line) == styled_spec(q2, case_insensitive, line),
{
}

/// A query whose `|`-separated pieces are all blank matches every line,
/// with nothing highlighted.
pub proof fn lemma_all_blank_query_matches_all(q: Seq<char>, case_insensitive: bool, line: Seq<char>)
    requires
        forall|i: int|
            0 <= i < split_on(q, '|').len() ==> is_blank(#[trigger] split_on(q, '|')[i]),
    ensures
        styled_spec(q, case_insensitive, line) == Some(plain(line)),
{
    let pieces = split_on(q, '|');
    let keep = |p: Seq<char>| !is_blank(p);
    if pieces.filter(keep).len() > 0 {
        let p = pieces.filter(keep)[0];
        pieces.lemma_filter_pred(keep, 0);
        assert(pieces.filter(keep).contains(p));
        pieces.lemma_filter_contains_rev(keep, p);
    }
}

/// A query that is empty, or whitespace only, matches every line with
/// nothing highlighted, as an all-blank query does.
pub proof fn lemma_blank_query_matches_all(q: Seq<char>, case_insensitive: bool, line: Seq<char>)
    requires
        is_blank(q),
    ensures
        styled_spec(q, case_insensitive, line) == Some(plain(line)),
{
    lemma_split_without_sep(q, '|');
    lemma_all_blank_query_matches_all(q, case_insensitive, line);
}

/// A query with at least one non-blank piece excludes a line in which none
/// of its pieces matches; a query with none keeps that line, unstyled.
pub proof fn lemma_unmatched_line_excluded(q: Seq<char>, case_insensitive: bool, line: Seq<char>)
    requires
        forall|i: int|
            0 <= i < segments(q).len() ==> regex_find_all(
                seq![#[trigger] segments(q)[i]],
                case_insensitive,
                line,
            ) == Some(Seq::<(usize, usize)>::empty()),
    ensures
        segments(q).len() > 0 ==> styled_spec(q, case_insensitive, line) is None,
        segments(q).len() == 0 ==> styled_spec(q, case_insensitive, line) == Some(plain(line)),
{
    lemma_no_segment_matches(segments(q), case_insensitive, line);
}

/// A segment that does not compile fails the whole query, whatever
/// segments follow it.
proof fn lemma_failure_persists(segs: Seq<Seq<char>>, case_insensitive: bool, line: Seq<char>, k: int)
    requires
        0 <= k <= segs.len(),
        segment_matches(segs.take(k), case_insensitive, line) is None,
    ensures
        segment_matches(segs, case_insensitive, line) is None,
    decreases segs.len() - k,
{
    if k == segs.len() {
        assert(segs.take(k) =~= segs);
    } else {
        assert(segs.take(k + 1).drop_last() =~= segs.take(k));
        lemma_failure_persists(segs, case_insensitive, line, k + 1);
    }
}

/// Where no segment finds anything, the segments together find nothing.
pub proof fn lemma_no_segment_matches(segs: Seq<Seq<char>>, case_insensitive: bool, line: Seq<char>)
    requires
        forall|i: int|
            0 <= i < segs.len() ==> regex_find_all(seq![#[trigger] segs[i]], case_insensitive, line)
                == Some(Seq::<(usize, usize)>::empty()),
    ensures
        segment_matches(segs, case_insensitive, line) == Some(Seq::<(usize, usize)>::empty()),
    decreases segs.len(),
{
    if segs.len() > 0 {
        let prev = segs.drop_last();
        assert forall|i: int| 0 <= i < prev.len() implies regex_find_all(
            seq![#[trigger] prev[i]],
            case_insensitive,
            line,
        ) == Some(Seq::<(usize, usize)>::empty()) by {
            assert(prev[i] == segs[i]);
        }
        lemma_no_segment_matches(prev, case_insensitive, line);
        assert(segs.last() == segs[segs.len() - 1]);
        assert(Seq::<(usize, usize)>::empty() + Seq::<(usize, usize)>::empty() =~= Seq::<(usize, usize)>::empty());
    }
}

} // verus!
