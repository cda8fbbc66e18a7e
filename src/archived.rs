//! Archived mode: searching a frozen snapshot of lines.

use rayon::iter::{IntoParallelRefIterator, ParallelIterator};
use vstd::prelude::*;

use crate::matcher::{styled, styled_spec, StyledLine, StyledView};
use crate::text::{chars_of, views};

pub mod keymap;

verus! {

/// The models of a list of styled lines.
pub open spec fn styled_views(v: Seq<StyledLine>) -> Seq<StyledView> {
    v.map_values(|s: StyledLine| s@)
}

/// What the list shows for `query`: the lines that match it, styled, in
/// the order of the snapshot.
pub open spec fn filtered(query: Seq<char>, case_insensitive: bool, lines: Seq<Seq<char>>) -> Seq<
    StyledView,
> {
    lines.filter_map(|l: Seq<char>| styled_spec(query, case_insensitive, l))
}

/// Relies on rayon's `par_iter`, `filter_map` and `collect` into a `Vec`:
/// the closure is applied to every line, on several threads, and the
/// results are collected in the order of the lines.
#[verifier::external_body]
fn par_filter_styled(query: &str, lines: &Vec<String>, case_insensitive: bool) -> (r: Vec<
    StyledLine,
>)
    ensures
        styled_views(r@) == filtered(query@, case_insensitive, views(lines@)),
{
    lines.par_iter().filter_map(|line| styled(query, line.as_str(), case_insensitive)).collect()
}

/// A frozen snapshot of lines, searched with a query.
pub struct Archived {
    lines: Vec<String>,
    applied: Vec<char>,
    case_insensitive: bool,
}

/// The model of archived mode: the snapshot, the last query applied to it,
/// and whether matching ignores case.
pub struct ArchivedView {
    pub lines: Seq<Seq<char>>,
    pub applied: Seq<char>,
    pub case_insensitive: bool,
}

impl View for Archived {
    type V = ArchivedView;

    closed spec fn view(&self) -> ArchivedView {
        ArchivedView {
            lines: views(self.lines@),
            applied: self.applied@,
            case_insensitive: self.case_insensitive,
        }
    }
}

impl Archived {
    /// Archived mode over `lines`, with the empty query applied.
    pub fn new(lines: Vec<String>, case_insensitive: bool) -> (r: Archived)
        ensures
            r@.lines == views(lines@),
            r@.applied == Seq::<char>::empty(),
            r@.case_insensitive == case_insensitive,
    {
        Archived { lines, applied: Vec::new(), case_insensitive }
    }

    /// The snapshot, oldest line first.
    pub fn lines(&self) -> (r: &Vec<String>)
        ensures
            views(r@) == self@.lines,
    {
        &self.lines
    }

    /// Re-evaluates the list after an edit of the query. When the query's
    /// text is the one last applied (only the cursor moved), nothing is
    /// recomputed and `None` comes back. Otherwise every line of the
    /// snapshot is matched against the new query, in parallel, and the
    /// matching lines come back styled and in order.
    pub fn evaluate(&mut self, query: &str) -> (r: Option<Vec<StyledLine>>)
        ensures
            final(self)@.lines == old(self)@.lines,
            final(self)@.case_insensitive == old(self)@.case_insensitive,
            final(self)@.applied == query@,
            query@ == old(self)@.applied ==> r is None,
            query@ != old(self)@.applied ==> (r matches Some(v) && styled_views(v@) == filtered(
                query@,
                old(self)@.case_insensitive,
                old(self)@.lines,
            )),
    {
        let q = chars_of(query);
        if same_chars(&q, &self.applied) {
            return None;
        }
        let list = par_filter_styled(query, &self.lines, self.case_insensitive);
        self.applied = q;
        Some(list)
    }
}

/// Whether two character vectors hold the same characters.
fn same_chars(a: &Vec<char>, b: &Vec<char>) -> (r: bool)
    ensures
        r == (a@ == b@),
{
    if a.len() != b.len() {
        return false;
    }
    for i in 0..a.len()
        invariant
            a@.len() == b@.len(),
            forall|j: int| 0 <= j < i ==> a@[j] == b@[j],
    {
        if a[i] != b[i] {
            return false;
        }
    }
    assert(a@ =~= b@);
    true
}

} // verus!
