use sig::ingest::{
    blank_controls, ingest_step, merged_outcome, normalize_line, parse_command, split_words, IngestAction,
    ReadOutcome,
};
use sig::store::LineStore;

#[test]
fn controls_become_spaces() {
    assert_eq!(blank_controls("a\tb\nc"), "a b c");
    assert_eq!(blank_controls(""), "");
}

#[test]
fn escapes_are_stripped() {
    assert_eq!(normalize_line("\x1b[32mfoo\x1b[m\tbar"), "foo bar");
    assert_eq!(normalize_line("plain"), "plain");
}

#[test]
fn words_split_on_whitespace() {
    assert_eq!(split_words("  ls  -la\t/tmp "), vec!["ls", "-la", "/tmp"]);
    assert!(split_words(" \t ").is_empty());
}

#[test]
fn command_splits_into_program_and_args() {
    let (p, a) = parse_command("stern --context kind-kind etcd").unwrap();
    assert_eq!(p, "stern");
    assert_eq!(a, vec!["--context", "kind-kind", "etcd"]);
    let (p, a) = parse_command("cat").unwrap();
    assert_eq!(p, "cat");
    assert!(a.is_empty());
    assert!(parse_command("   ").is_none());
}

#[test]
fn step_decisions() {
    assert!(matches!(ingest_step(false, ReadOutcome::TimedOut), IngestAction::ReadAgain));
    assert!(matches!(ingest_step(false, ReadOutcome::Closed), IngestAction::Stop));
    assert!(matches!(ingest_step(false, ReadOutcome::Failed), IngestAction::Stop));
    match ingest_step(false, ReadOutcome::Line("x\ty".to_string())) {
        IngestAction::Forward(l) => assert_eq!(l, "x y"),
        _ => panic!("line not forwarded"),
    }
    assert!(matches!(ingest_step(true, ReadOutcome::Line("x".to_string())), IngestAction::Stop));
    assert!(matches!(ingest_step(true, ReadOutcome::TimedOut), IngestAction::Stop));
}

/// A fake source: a script of read outcomes, with cancellation raised
/// before the read at `cancel_at`.
fn run_fake_source(script: Vec<ReadOutcome>, cancel_at: usize, store: &mut LineStore) -> usize {
    let mut reads = 0;
    for (i, outcome) in script.into_iter().enumerate() {
        reads += 1;
        match ingest_step(i >= cancel_at, outcome) {
            IngestAction::ReadAgain => continue,
            IngestAction::Forward(l) => store.push(l),
            IngestAction::Stop => break,
        }
    }
    reads
}

#[test]
fn cancellation_stops_appending_within_one_read() {
    let script = vec![
        ReadOutcome::Line("one".to_string()),
        ReadOutcome::TimedOut,
        ReadOutcome::Line("two".to_string()),
        ReadOutcome::Line("three".to_string()),
        ReadOutcome::Line("four".to_string()),
        ReadOutcome::TimedOut,
    ];
    let mut store = LineStore::new(10);
    let reads = run_fake_source(script, 3, &mut store);
    assert_eq!(store.snapshot(), vec!["one", "two"]);
    assert_eq!(reads, 4);
}

#[test]
fn cancellation_while_idle_stops_at_next_timeout() {
    let script = vec![ReadOutcome::TimedOut, ReadOutcome::TimedOut, ReadOutcome::TimedOut];
    let mut store = LineStore::new(10);
    let reads = run_fake_source(script, 1, &mut store);
    assert!(store.snapshot().is_empty());
    assert_eq!(reads, 2);
}

#[test]
fn source_end_stops_ingestion() {
    let script = vec![
        ReadOutcome::Line("a".to_string()),
        ReadOutcome::Closed,
        ReadOutcome::Line("b".to_string()),
    ];
    let mut store = LineStore::new(10);
    run_fake_source(script, 100, &mut store);
    assert_eq!(store.snapshot(), vec!["a"]);
}

#[test]
fn normalized_lines_hold_no_controls_or_escapes() {
    let l = normalize_line("a\x1b[1;31mb\x1b[0m\tc\nd");
    assert_eq!(l, "ab c d");
    assert!(!l.contains('\n') && !l.contains('\t') && !l.contains('\x1b'));
}

#[test]
fn merged_streams_end_only_together() {
    assert!(matches!(merged_outcome(ReadOutcome::Closed, true), ReadOutcome::TimedOut));
    assert!(matches!(merged_outcome(ReadOutcome::Failed, true), ReadOutcome::TimedOut));
    assert!(matches!(merged_outcome(ReadOutcome::Closed, false), ReadOutcome::Closed));
    assert!(matches!(merged_outcome(ReadOutcome::Failed, false), ReadOutcome::Failed));
    assert!(matches!(merged_outcome(ReadOutcome::TimedOut, true), ReadOutcome::TimedOut));
    match merged_outcome(ReadOutcome::Line("x".to_string()), false) {
        ReadOutcome::Line(l) => assert_eq!(l, "x"),
        _ => panic!("line lost"),
    }
}
