//! Streaming mode: the session state shared by the consumer of incoming
//! lines and the input loop.

use vstd::prelude::*;

use crate::matcher::{opt_view, styled, styled_spec, StyledLine};
use crate::store::{keep_last, lemma_push_keeps_window, LineStore};
use crate::text::views;

pub mod keymap;

verus! {

/// The model of a streaming session: the lines kept, whether the session
/// was frozen for archived mode, and the store's capacity.
pub struct SessionView {
    pub lines: Seq<Seq<char>>,
    pub frozen: bool,
    pub capacity: nat,
}

/// The session after one more line arrives: a frozen session ignores it;
/// a live one keeps it in the bounded window.
pub open spec fn accept_spec(s: SessionView, line: Seq<char>) -> SessionView {
    if s.frozen {
        s
    } else {
        SessionView { lines: keep_last(s.lines.push(line), s.capacity), ..s }
    }
}

/// The session after the lines arrive one by one.
pub open spec fn accept_all(s: SessionView, lines: Seq<Seq<char>>) -> SessionView
    decreases lines.len(),
{
    if lines.len() == 0 {
        s
    } else {
        accept_spec(accept_all(s, lines.drop_last()), lines.last())
    }
}

/// The lines of a streaming session, and whether they were handed to
/// archived mode.
pub struct StreamingSession {
    store: LineStore,
    frozen: bool,
}

impl View for StreamingSession {
    type V = SessionView;

    closed spec fn view(&self) -> SessionView {
        SessionView {
            lines: self.store@,
            frozen: self.frozen,
            capacity: self.store.spec_capacity(),
        }
    }
}

impl StreamingSession {
    pub closed spec fn wf(&self) -> bool {
        self.store.wf()
    }

    /// A live session whose store keeps at most `capacity` lines.
    pub fn new(capacity: usize) -> (r: StreamingSession)
        ensures
            r.wf(),
            r@.lines == Seq::<Seq<char>>::empty(),
            !r@.frozen,
            r@.capacity == capacity,
    {
        StreamingSession { store: LineStore::new(capacity), frozen: false }
    }

    /// Takes in a line from the source. A live session stores it and
    /// returns it styled against the current query when it matches; a frozen
    /// session leaves everything as it was and returns `None`.
    pub fn accept_line(&mut self, line: String, query: &str) -> (r: Option<StyledLine>)
        requires
            old(self).wf(),
        ensures
            final(self).wf(),
            final(self)@ == accept_spec(old(self)@, line@),
            old(self)@.frozen ==> r is None,
            !old(self)@.frozen ==> opt_view(r) == styled_spec(query@, false, line@),
    {
        if self.frozen {
            return None;
        }
        let r = styled(query, line.as_str(), false);
        self.store.push(line);
        r
    }

    /// Freezes the session for archived mode and returns the lines held at
    /// this moment. Lines that arrive afterwards are not stored.
    pub fn freeze(&mut self) -> (r: Vec<String>)
        requires
            old(self).wf(),
        ensures
            final(self).wf(),
            final(self)@ == (SessionView { frozen: true, ..old(self)@ }),
            views(r@) == old(self)@.lines,
    {
        self.frozen = true;
        self.store.snapshot()
    }

    /// The lines held, oldest first.
    pub fn snapshot(&self) -> (r: Vec<String>)
        ensures
            views(r@) == self@.lines,
    {
        self.store.snapshot()
    }

    /// Whether the session was frozen.
    pub fn is_frozen(&self) -> (r: bool)
        ensures
            r == self@.frozen,
    {
        self.frozen
    }
}

/// Once a session is frozen, no line that arrives afterwards reaches its
/// store: the lines stay those handed off at the freeze.
pub proof fn lemma_frozen_session_keeps_snapshot(s: SessionView, lines: Seq<Seq<char>>)
    requires
        s.frozen,
    ensures
        accept_all(s, lines) == s,
    decreases lines.len(),
{
    if lines.len() > 0 {
        lemma_frozen_session_keeps_snapshot(s, lines.drop_last());
    }
}

/// A live session whose store holds the last lines of `prior` holds, after
/// `lines` arrive, the last lines of `prior` followed by `lines`: starting
/// empty, exactly the last `min(n, capacity)` lines received, in arrival
/// order.
pub proof fn lemma_live_session_keeps_last(
    s: SessionView,
    prior: Seq<Seq<char>>,
    lines: Seq<Seq<char>>,
)
    requires
        !s.frozen,
        s.lines == keep_last(prior, s.capacity),
    ensures
        accept_all(s, lines) == (SessionView { lines: keep_last(prior + lines, s.capacity), ..s }),
    decreases lines.len(),
{
    if lines.len() == 0 {
        assert(prior + lines =~= prior);
    } else {
        lemma_live_session_keeps_last(s, prior, lines.drop_last());
        lemma_push_keeps_window(s.capacity, prior + lines.drop_last(), lines.last());
        assert((prior + lines.drop_last()).push(lines.last()) =~= prior + lines);
    }
}

} // verus!
