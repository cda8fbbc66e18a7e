//! The bounded line store: a sliding window over the most recent lines.

use std::collections::VecDeque;
use vstd::prelude::*;

use crate::text::views;

verus! {

/// The last `c` elements of `s`, or all of `s` when it is shorter.
pub open spec fn keep_last(s: Seq<Seq<char>>, c: nat) -> Seq<Seq<char>> {
    if s.len() <= c {
        s
    } else {
        s.subrange(s.len() - c, s.len() as int)
    }
}

/// The contents of a store of capacity `c` after `pushed` was pushed, in
/// order, into an empty one: each push appends, then evicts the oldest line
/// while the window is over capacity.
pub open spec fn after_pushes(c: nat, pushed: Seq<Seq<char>>) -> Seq<Seq<char>>
    decreases pushed.len(),
{
    if pushed.len() == 0 {
        Seq::empty()
    } else {
        keep_last(after_pushes(c, pushed.drop_last()).push(pushed.last()), c)
    }
}

/// A fixed-capacity FIFO of lines that drops the oldest line on overflow.
pub struct LineStore {
    lines: VecDeque<String>,
    capacity: usize,
}

impl View for LineStore {
    type V = Seq<Seq<char>>;

    closed spec fn view(&self) -> Seq<Seq<char>> {
        views(self.lines@)
    }
}

impl LineStore {
    /// The capacity that the store was made with.
    pub closed spec fn spec_capacity(&self) -> nat {
        self.capacity as nat
    }

    /// Well-formedness: the window never holds more than the capacity.
    pub closed spec fn wf(&self) -> bool {
        self.lines@.len() <= self.capacity
    }

    /// An empty store that keeps at most `capacity` lines.
    pub fn new(capacity: usize) -> (r: LineStore)
        ensures
            r.wf(),
            r@ == Seq::<Seq<char>>::empty(),
            r.spec_capacity() == capacity,
    {
        LineStore { lines: VecDeque::new(), capacity }
    }

    /// The capacity that the store was made with.
    pub fn capacity(&self) -> (r: usize)
        ensures
            r == self.spec_capacity(),
    {
        self.capacity
    }

    /// The number of lines held.
    pub fn len(&self) -> (r: usize)
        ensures
            r == self@.len(),
    {
        self.lines.len()
    }

    /// Appends `line`; when the window then exceeds the capacity, the oldest
    /// line is dropped. For an instant inside the call the window holds one
    /// line more than the capacity.
    pub fn push(&mut self, line: String)
        requires
            old(self).wf(),
        ensures
            final(self).wf(),
            final(self).spec_capacity() == old(self).spec_capacity(),
            final(self)@ == keep_last(old(self)@.push(line@), old(self).spec_capacity()),
    {
        let ghost before = self@;
        self.lines.push_back(line);
        assert(self@ =~= before.push(line@));
        if self.lines.len() > self.capacity {
            let _ = self.lines.pop_front();
            assert(self@ =~= before.push(line@).subrange(1, before.len() + 1 as int));
        }
    }

    /// A copy of the lines held, oldest first.
    pub fn snapshot(&self) -> (r: Vec<String>)
        ensures
            views(r@) == self@,
    {
        let mut out: Vec<String> = Vec::new();
        let n = self.lines.len();
        for i in 0..n
            invariant
                n == self.lines@.len(),
                out@.len() == i,
                forall|j: int| 0 <= j < i ==> out@[j]@ == self.lines@[j]@,
        {
            out.push(self.lines[i].clone());
        }
        assert(views(out@) =~= self@);
        out
    }
}

/// A store that holds the last lines of what was pushed so far still does
/// after one more push: the window of the pushed lines moves by one line.
/// With an empty store to start from, every store holds, after any run of
/// pushes, exactly the last `min(n, c)` lines pushed, in arrival order.
pub proof fn lemma_push_keeps_window(c: nat, pushed: Seq<Seq<char>>, line: Seq<char>)
    ensures
        keep_last(keep_last(pushed, c).push(line), c) == keep_last(pushed.push(line), c),
{
    assert(keep_last(keep_last(pushed, c).push(line), c) =~= keep_last(pushed.push(line), c));
}

/// Filling a store of any capacity `c` with any sequence of lines leaves
/// exactly the last `min(n, c)` of them, in the order they arrived.
pub proof fn lemma_store_keeps_last(c: nat, pushed: Seq<Seq<char>>)
    ensures
        after_pushes(c, pushed) == keep_last(pushed, c),
        after_pushes(c, pushed).len() == if pushed.len() <= c { pushed.len() } else { c },
    decreases pushed.len(),
{
    if pushed.len() > 0 {
        let prev = pushed.drop_last();
        lemma_store_keeps_last(c, prev);
        lemma_push_keeps_window(c, prev, pushed.last());
        assert(prev.push(pushed.last()) =~= pushed);
    }
}

} // verus!
