use sig::matcher::{styled, styled_from_matches, StyledLine};
use sig::text::query_segments;

fn marks(s: &StyledLine) -> Vec<usize> {
    s.highlighted
        .iter()
        .enumerate()
        .filter(|(_, b)| **b)
        .map(|(i, _)| i)
        .collect()
}

#[test]
fn segments_drop_blank_pieces() {
    assert_eq!(query_segments("a| |b||c "), vec!["a", "b", "c "]);
    assert!(query_segments("").is_empty());
    assert!(query_segments("  |\t| ").is_empty());
    assert_eq!(query_segments("x|c"), vec!["x", "c"]);
}

#[test]
fn empty_query_matches_unstyled() {
    let s = styled("", "hello", false).unwrap();
    assert_eq!(s.text, "hello");
    assert_eq!(s.highlighted, vec![false; 5]);
}

#[test]
fn blank_query_behaves_like_empty_query() {
    for q in ["   ", " | ", "|", "\t|  |"] {
        let s = styled(q, "hello", false).unwrap();
        assert_eq!(s.text, "hello");
        assert!(marks(&s).is_empty());
    }
}

#[test]
fn full_match_is_fully_highlighted() {
    let s = styled("b", "b", false).unwrap();
    assert_eq!(s.text, "b");
    assert_eq!(s.highlighted, vec![true]);
}

#[test]
fn every_occurrence_is_highlighted() {
    let s = styled("ab", "xabyab", false).unwrap();
    assert_eq!(marks(&s), vec![1, 2, 4, 5]);
}

#[test]
fn any_segment_matches() {
    let s = styled("foo|bar", "a bar", false).unwrap();
    assert_eq!(marks(&s), vec![2, 3, 4]);
    let s = styled("foo|bar", "foo bar", false).unwrap();
    assert_eq!(marks(&s), vec![0, 1, 2, 4, 5, 6]);
}

#[test]
fn line_without_any_segment_is_excluded() {
    assert!(styled("x", "abc", false).is_none());
    assert!(styled("x|y", "abc", false).is_none());
}

#[test]
fn segments_are_regular_expressions() {
    let s = styled("a.c", "zabc", false).unwrap();
    assert_eq!(marks(&s), vec![1, 2, 3]);
    let s = styled("^z", "zz", false).unwrap();
    assert_eq!(marks(&s), vec![0]);
}

#[test]
fn invalid_pattern_is_no_match() {
    assert!(styled("(", "a(b", false).is_none());
    assert!(styled("a|[", "a", false).is_none());
}

#[test]
fn case_folding_only_when_asked() {
    assert!(styled("abc", "ABC", false).is_none());
    let s = styled("abc", "xABC", true).unwrap();
    assert_eq!(marks(&s), vec![1, 2, 3]);
}

#[test]
fn styling_twice_gives_same_highlight() {
    let a = styled("b|bc", "abcb", false).unwrap();
    let b = styled("b|bc", "abcb", false).unwrap();
    assert_eq!(a.highlighted, b.highlighted);
    assert_eq!(a.highlighted, vec![false, true, true, true]);
    let mut again = StyledLine { text: a.text.clone(), highlighted: a.highlighted.clone() };
    again.highlight(&vec![(1, 2), (3, 4), (1, 3)]);
    assert_eq!(again.highlighted, a.highlighted);
    again.highlight(&vec![(1, 2), (3, 4), (1, 3)]);
    assert_eq!(again.highlighted, a.highlighted);
}

#[test]
fn overlapping_ranges_union() {
    let mut s = StyledLine::plain("abcdef");
    s.highlight(&vec![(0, 3), (2, 4), (10, 12)]);
    assert_eq!(s.highlighted, vec![true, true, true, true, false, false]);
}

#[test]
fn matches_at_line_end_do_not_count() {
    assert!(styled_from_matches("abc", Some(vec![(3, 3)])).is_none());
    assert!(styled_from_matches("abc", Some(vec![])).is_none());
    assert!(styled_from_matches("abc", None).is_none());
    let s = styled_from_matches("abc", Some(vec![(1, 2)])).unwrap();
    assert_eq!(s.highlighted, vec![false, true, false]);
}

#[test]
fn empty_match_inside_line_keeps_line_unstyled() {
    let s = styled_from_matches("abc", Some(vec![(0, 0)])).unwrap();
    assert_eq!(s.highlighted, vec![false, false, false]);
}

#[test]
fn highlight_positions_are_bytes() {
    let s = styled("b", "\u{e9}b", false).unwrap();
    assert_eq!(s.highlighted, vec![false, false, true]);
}

#[test]
fn overlapping_segments_are_each_highlighted() {
    let s = styled("abc|bcd", "abcd", false).unwrap();
    assert_eq!(s.highlighted, vec![true, true, true, true]);
    let s = styled("bcd|abc", "xabcd", false).unwrap();
    assert_eq!(marks(&s), vec![1, 2, 3, 4]);
}

#[test]
fn one_invalid_segment_fails_the_query() {
    assert!(styled("a|(", "a", false).is_none());
    assert!(styled("(|a", "a", false).is_none());
}

#[test]
fn character_flags_follow_byte_flags() {
    let s = styled("b", "\u{e9}b\u{e9}", false).unwrap();
    assert_eq!(s.highlighted, vec![false, false, true, false, false]);
    assert_eq!(s.char_highlights(), vec![false, true, false]);
    let s = styled("\u{e9}", "a\u{e9}", false).unwrap();
    assert_eq!(s.char_highlights(), vec![false, true]);
    let s = styled("", "\u{1f600}x", false).unwrap();
    assert_eq!(s.char_highlights(), vec![false, false]);
}
