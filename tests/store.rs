use sig::store::LineStore;

fn pushed(capacity: usize, lines: &[&str]) -> Vec<String> {
    let mut store = LineStore::new(capacity);
    for l in lines {
        store.push(l.to_string());
    }
    store.snapshot()
}

#[test]
fn store_keeps_last_lines_in_order() {
    assert_eq!(pushed(3, &["a", "b", "c", "d"]), vec!["b", "c", "d"]);
}

#[test]
fn store_under_capacity_keeps_everything() {
    assert_eq!(pushed(5, &["a", "b"]), vec!["a", "b"]);
}

#[test]
fn store_with_zero_capacity_stays_empty() {
    assert!(pushed(0, &["a", "b", "c"]).is_empty());
}

#[test]
fn store_at_exact_capacity() {
    assert_eq!(pushed(2, &["x", "y"]), vec!["x", "y"]);
    assert_eq!(pushed(2, &["x", "y", "z"]), vec!["y", "z"]);
}

#[test]
fn store_reports_capacity_and_len() {
    let mut store = LineStore::new(2);
    assert_eq!(store.capacity(), 2);
    assert_eq!(store.len(), 0);
    for l in ["1", "2", "3", "4", "5"] {
        store.push(l.to_string());
        assert!(store.len() <= 2);
    }
    assert_eq!(store.len(), 2);
    assert_eq!(store.snapshot(), vec!["4", "5"]);
}

#[test]
fn store_many_lines_window() {
    let lines: Vec<String> = (0..1000).map(|i| i.to_string()).collect();
    let refs: Vec<&str> = lines.iter().map(|s| s.as_str()).collect();
    let got = pushed(10, &refs);
    let want: Vec<String> = (990..1000).map(|i| i.to_string()).collect();
    assert_eq!(got, want);
}
