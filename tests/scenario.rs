use sig::keys::{EditMode, Event, KeyCode, KeyEvent, Modifiers};
use sig::matcher::styled;
use sig::sig::keymap::default as streaming_keys;
use sig::sig::StreamingSession;
use sig::store::LineStore;
use sig::Signal;

#[test]
fn end_to_end_store_and_queries() {
    let mut store = LineStore::new(3);
    for l in ["a", "b", "c", "d"] {
        store.push(l.to_string());
    }
    let lines = store.snapshot();
    assert_eq!(lines, vec!["b", "c", "d"]);

    let hits: Vec<_> = lines.iter().filter_map(|l| styled("b", l, false)).collect();
    assert_eq!(hits.len(), 1);
    assert_eq!(hits[0].text, "b");
    assert_eq!(hits[0].highlighted, vec![true]);

    let all: Vec<_> = lines.iter().filter_map(|l| styled("", l, false)).collect();
    assert_eq!(all.len(), 3);
    for (s, l) in all.iter().zip(lines.iter()) {
        assert_eq!(&s.text, l);
        assert!(s.highlighted.iter().all(|b| !b));
    }

    let c: Vec<_> = lines.iter().filter_map(|l| styled("x|c", l, false)).collect();
    assert_eq!(c.len(), 1);
    assert_eq!(c[0].text, "c");
    assert_eq!(c[0].highlighted, vec![true]);
}

#[test]
fn transition_key_hands_off_snapshot() {
    let mut session = StreamingSession::new(10);
    for l in ["x1", "x2", "x3"] {
        session.accept_line(l.to_string(), "x");
    }
    let ctrl_f = Event::Key(KeyEvent {
        code: KeyCode::Char('f'),
        modifiers: Modifiers::Control,
        press: true,
        plain_state: true,
    });
    let (signal, _) = streaming_keys(&ctrl_f, EditMode::Insert, &None).unwrap();
    assert_eq!(signal, Signal::GotoArchived);
    let snapshot = session.freeze();
    assert_eq!(snapshot, vec!["x1", "x2", "x3"]);
    // Ingestion goes on briefly before cancellation completes.
    assert!(session.accept_line("x4".to_string(), "x").is_none());
    assert_eq!(session.snapshot(), snapshot);
}
