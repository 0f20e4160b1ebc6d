use woocraft::label::{HighlightsMatch, Label};

fn full(text: &str) -> HighlightsMatch {
    HighlightsMatch::Full(text.to_string())
}

#[test]
fn every_match_is_highlighted_ignoring_case() {
    let label = Label::new("Hello World".to_string()).highlights(full("O"));
    assert_eq!(label.highlight_ranges(), vec![4..5, 7..8]);
}

#[test]
fn matches_may_overlap() {
    let label = Label::new("aaa".to_string()).highlights(full("aa"));
    assert_eq!(label.highlight_ranges(), vec![0..2, 1..3]);
}

#[test]
fn a_secondary_text_adds_its_two_parts_first() {
    let label = Label::new("File".to_string()).secondary("txt".to_string());
    assert_eq!(label.full_text(), "File txt");
    assert_eq!(label.highlight_ranges(), vec![0..4, 4..8]);
    let label = label.highlights(HighlightsMatch::Prefix("fI".to_string()));
    assert_eq!(label.highlight_ranges(), vec![0..4, 4..8, 0..2]);
}

#[test]
fn a_prefix_match_counts_only_at_the_start() {
    let label = Label::new("Open file".to_string()).highlights(HighlightsMatch::Prefix("file".to_string()));
    assert_eq!(label.highlight_ranges(), Vec::<std::ops::Range<usize>>::new());
    let label = Label::new("Open file".to_string()).highlights(full("file"));
    assert_eq!(label.highlight_ranges(), vec![5..9]);
}

#[test]
fn an_empty_search_highlights_nothing() {
    let label = Label::new("abc".to_string()).highlights(full(""));
    assert_eq!(label.highlight_ranges(), Vec::<std::ops::Range<usize>>::new());
    assert_eq!(Label::new("abc".to_string()).highlight_ranges(), Vec::<std::ops::Range<usize>>::new());
}

#[test]
fn matches_running_past_the_text_are_dropped() {
    // "İ" lower-cases to two characters, so the match of "x" lies past the
    // end of the shown text.
    let label = Label::new("İx".to_string()).highlights(full("x"));
    assert_eq!(label.try_highlight_ranges(), Some(vec![]));
}

#[test]
fn a_search_off_a_lower_cased_boundary_has_no_ranges() {
    let label = Label::new("İİ".to_string()).highlights(full("i"));
    assert_eq!(label.try_highlight_ranges(), None);
    let label = Label::new("Hello".to_string()).highlights(full("l"));
    assert_eq!(label.try_highlight_ranges(), Some(vec![2..3, 3..4]));
}

#[test]
fn masked_labels_show_bullets() {
    let label = Label::new("pwd".to_string()).masked(true);
    assert_eq!(label.display_text(), "•••");
    assert_eq!(Label::new("pwd".to_string()).display_text(), "pwd");
    assert!(full("x").as_str() == "x" && !full("x").is_prefix());
}
