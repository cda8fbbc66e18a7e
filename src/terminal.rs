//! The anchored renderer: a scrolling stream region above a fixed pane
//! whose top row is the anchor. Each draw is planned here as a list of
//! terminal operations, which the caller performs in order.

use vstd::prelude::*;

verus! {

/// One terminal operation of a drawing plan.
#[derive(Clone, Copy, Debug, PartialEq, Eq, Structural)]
pub enum TermOp {
    /// Move the cursor to a column and a row.
    MoveTo(u16, u16),
    /// Scroll the screen up by this many rows.
    ScrollUp(u16),
    /// Clear from the cursor to the end of the screen.
    ClearFromCursorDown,
    /// Print the stream row with this index, then move to the start of the
    /// next line.
    PrintItem(usize),
    /// Print the pane row with this index.
    PrintPaneRow(usize),
    /// Flush the output.
    Flush,
}

/// The anchor row for a pane of `rows` visible rows on a screen `height`
/// rows high: the height less the pane's rows less one, or the top row.
pub open spec fn anchor_row(height: u16, rows: usize) -> u16 {
    if rows + 1 <= height {
        (height - 1 - rows) as u16
    } else {
        0
    }
}

/// How many rows a stream block of `n` rows moves the cursor up: one less
/// than its row count, at most `u16::MAX - 1`.
pub open spec fn lift(n: usize) -> u16 {
    if n == 0 {
        0
    } else if n - 1 <= u16::MAX - 1 {
        (n - 1) as u16
    } else {
        (u16::MAX - 1) as u16
    }
}

/// The pane drawn beneath the anchor: clear below it, print each visible
/// row, flush.
pub open spec fn pane_plan(anchor: (u16, u16), rows: usize) -> Seq<TermOp> {
    seq![TermOp::MoveTo(anchor.0, (anchor.1 + 1) as u16), TermOp::ClearFromCursorDown]
        + Seq::new(rows as nat, |i: int| TermOp::PrintPaneRow(i as usize)) + seq![TermOp::Flush]
}

/// A block of `n` stream rows appended above the pane: move up by the
/// block's lift, scroll that many rows plus one, clear below, print each
/// row, flush, and draw the pane again beneath.
pub open spec fn stream_plan(anchor: (u16, u16), n: usize, pane_rows: usize) -> Seq<TermOp> {
    seq![
        TermOp::MoveTo(anchor.0, if anchor.1 >= lift(n) { (anchor.1 - lift(n)) as u16 } else { 0 }),
        TermOp::ScrollUp((lift(n) + 1) as u16),
        TermOp::ClearFromCursorDown,
    ] + Seq::new(n as nat, |i: int| TermOp::PrintItem(i as usize)) + seq![TermOp::Flush]
        + pane_plan(anchor, pane_rows)
}

/// The renderer's state: where the fixed pane is anchored.
pub struct Terminal {
    anchor_position: (u16, u16),
}

impl Terminal {
    /// The anchor: the column, and the row just above the pane.
    pub closed spec fn spec_anchor(&self) -> (u16, u16) {
        self.anchor_position
    }

    /// The anchor leaves room for the row below it.
    pub open spec fn wf(&self) -> bool {
        self.spec_anchor().1 < u16::MAX
    }

    /// A renderer for a pane of `pane_rows` visible rows on a screen
    /// `height` rows high.
    pub fn new(height: u16, pane_rows: usize) -> (r: Terminal)
        ensures
            r.wf(),
            r.spec_anchor() == (0u16, anchor_row(height, pane_rows)),
    {
        Terminal { anchor_position: (0, anchor(height, pane_rows)) }
    }

    /// The anchor: the column, and the row just above the pane.
    pub fn anchor_position(&self) -> (r: (u16, u16))
        ensures
            r == self.spec_anchor(),
    {
        self.anchor_position
    }

    /// Plans appending `n_items` matched stream rows above the pane, then
    /// redrawing the pane of `pane_rows` rows beneath them. The anchor stays.
    pub fn draw_stream_and_pane(&self, n_items: usize, pane_rows: usize) -> (r: Vec<TermOp>)
        requires
            self.wf(),
        ensures
            r@ == stream_plan(self.spec_anchor(), n_items, pane_rows),
    {
        let (x, y) = self.anchor_position;
        let up: u16 = if n_items == 0 {
            0
        } else if n_items - 1 <= (u16::MAX - 1) as usize {
            (n_items - 1) as u16
        } else {
            u16::MAX - 1
        };
        let mut ops: Vec<TermOp> = Vec::new();
        ops.push(TermOp::MoveTo(x, y.saturating_sub(up)));
        ops.push(TermOp::ScrollUp(up + 1));
        ops.push(TermOp::ClearFromCursorDown);
        let ghost head = ops@;
        for i in 0..n_items
            invariant
                ops@ == head + Seq::new(i as nat, |k: int| TermOp::PrintItem(k as usize)),
        {
            ops.push(TermOp::PrintItem(i));
            assert(ops@ =~= head + Seq::new((i + 1) as nat, |k: int| TermOp::PrintItem(k as usize)));
        }
        ops.push(TermOp::Flush);
        let mut pane = self.pane_ops(pane_rows);
        ops.append(&mut pane);
        assert(ops@ =~= stream_plan(self.spec_anchor(), n_items, pane_rows));
        ops
    }

    /// Plans redrawing the pane after its own state changed: clear below
    /// the old anchor, move the anchor for a pane of `pane_rows` rows on a
    /// screen `height` rows high, and draw the pane there.
    pub fn draw_pane(&mut self, height: u16, pane_rows: usize) -> (r: Vec<TermOp>)
        requires
            old(self).wf(),
        ensures
            final(self).wf(),
            final(self).spec_anchor() == (old(self).spec_anchor().0, anchor_row(height, pane_rows)),
            r@ == seq![
                TermOp::MoveTo(old(self).spec_anchor().0, (old(self).spec_anchor().1 + 1) as u16),
                TermOp::ClearFromCursorDown,
            ] + pane_plan(final(self).spec_anchor(), pane_rows),
    {
        let mut ops: Vec<TermOp> = Vec::new();
        ops.push(TermOp::MoveTo(self.anchor_position.0, self.anchor_position.1 + 1));
        ops.push(TermOp::ClearFromCursorDown);
        self.anchor_position.1 = anchor(height, pane_rows);
        let mut pane = self.pane_ops(pane_rows);
        ops.append(&mut pane);
        assert(ops@ =~= seq![
            TermOp::MoveTo(old(self).spec_anchor().0, (old(self).spec_anchor().1 + 1) as u16),
            TermOp::ClearFromCursorDown,
        ] + pane_plan(self.spec_anchor(), pane_rows));
        ops
    }

    /// Plans drawing the pane of `pane_rows` rows beneath the anchor.
    fn pane_ops(&self, pane_rows: usize) -> (r: Vec<TermOp>)
        requires
            self.wf(),
        ensures
            r@ == pane_plan(self.spec_anchor(), pane_rows),
    {
        let mut ops: Vec<TermOp> = Vec::new();
        ops.push(TermOp::MoveTo(self.anchor_position.0, self.anchor_position.1 + 1));
        ops.push(TermOp::ClearFromCursorDown);
        let ghost head = ops@;
        for i in 0..pane_rows
            invariant
                ops@ == head + Seq::new(i as nat, |k: int| TermOp::PrintPaneRow(k as usize)),
        {
            ops.push(TermOp::PrintPaneRow(i));
            assert(ops@ =~= head + Seq::new((i + 1) as nat, |k: int| TermOp::PrintPaneRow(k as usize)));
        }
        ops.push(TermOp::Flush);
        assert(ops@ =~= pane_plan(self.spec_anchor(), pane_rows));
        ops
    }
}

/// The anchor row for a pane of `rows` visible rows on a screen `height`
/// rows high.
pub fn anchor(height: u16, rows: usize) -> (r: u16)
    ensures
        r == anchor_row(height, rows),
        r < u16::MAX,
{
    if rows < height as usize {
        height - 1 - rows as u16
    } else {
        0
    }
}

} // verus!
