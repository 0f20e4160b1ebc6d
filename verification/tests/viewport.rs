use woocraft::viewport::{clamp_top_row, max_top_row, DEFAULT_VIEWPORT_ROWS};

#[test]
fn top_row_is_clamped_to_valid_range() {
    assert_eq!(max_top_row(100, 10), 90);
    assert_eq!(clamp_top_row(95, 100, 10), 90);
    assert_eq!(clamp_top_row(3, 2, 10), 0);
}

#[test]
fn a_viewport_taller_than_the_text_never_scrolls() {
    assert_eq!(max_top_row(5, 24), 0);
    assert_eq!(clamp_top_row(7, 5, DEFAULT_VIEWPORT_ROWS), 0);
}

#[test]
fn rows_within_range_are_kept() {
    assert_eq!(clamp_top_row(42, 100, 10), 42);
    assert_eq!(clamp_top_row(90, 100, 10), 90);
}
