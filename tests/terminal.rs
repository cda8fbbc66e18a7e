use sig::terminal::{anchor, TermOp, Terminal};

#[test]
fn anchor_leaves_room_for_pane() {
    assert_eq!(anchor(24, 1), 22);
    assert_eq!(anchor(24, 23), 0);
    assert_eq!(anchor(24, 100), 0);
    assert_eq!(anchor(0, 0), 0);
    let t = Terminal::new(40, 2);
    assert_eq!(t.anchor_position(), (0, 37));
}

#[test]
fn pane_redraw_plan() {
    let mut t = Terminal::new(24, 1);
    let ops = t.draw_pane(24, 2);
    assert_eq!(
        ops,
        vec![
            TermOp::MoveTo(0, 23),
            TermOp::ClearFromCursorDown,
            TermOp::MoveTo(0, 22),
            TermOp::ClearFromCursorDown,
            TermOp::PrintPaneRow(0),
            TermOp::PrintPaneRow(1),
            TermOp::Flush,
        ]
    );
    assert_eq!(t.anchor_position(), (0, 21));
}

#[test]
fn stream_append_plan() {
    let t = Terminal::new(24, 1);
    let ops = t.draw_stream_and_pane(3, 1);
    assert_eq!(
        ops,
        vec![
            TermOp::MoveTo(0, 20),
            TermOp::ScrollUp(3),
            TermOp::ClearFromCursorDown,
            TermOp::PrintItem(0),
            TermOp::PrintItem(1),
            TermOp::PrintItem(2),
            TermOp::Flush,
            TermOp::MoveTo(0, 23),
            TermOp::ClearFromCursorDown,
            TermOp::PrintPaneRow(0),
            TermOp::Flush,
        ]
    );
    assert_eq!(t.anchor_position(), (0, 22));
}

#[test]
fn stream_append_single_row_and_top_clamp() {
    let t = Terminal::new(3, 5);
    let ops = t.draw_stream_and_pane(1, 0);
    assert_eq!(&ops[..3], &[TermOp::MoveTo(0, 0), TermOp::ScrollUp(1), TermOp::ClearFromCursorDown]);
    let ops = t.draw_stream_and_pane(4, 0);
    assert_eq!(&ops[..2], &[TermOp::MoveTo(0, 0), TermOp::ScrollUp(4)]);
}
