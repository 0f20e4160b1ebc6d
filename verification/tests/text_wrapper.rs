use ropey::Rope;
use std::ops::Range;
use woocraft::editor::DisplayPoint;
use woocraft::text_wrapper::TextWrapper;

fn no_wraps() -> Vec<Vec<Range<usize>>> {
    Vec::new()
}

fn line_start_offset(text: &str, row: usize) -> usize {
    if row == 0 {
        return 0;
    }
    text.match_indices('\n').nth(row - 1).map(|(i, _)| i + 1).unwrap_or(text.len())
}

fn line_end_offset(text: &str, row: usize) -> usize {
    let start = line_start_offset(text, row);
    text[start..].find('\n').map(|i| start + i).unwrap_or(text.len())
}

fn wrapper_lines(text: &str, wrapper: &TextWrapper) -> Vec<Vec<String>> {
    let mut actual = vec![];
    let mut offset = 0;
    for row in 0..wrapper.line_count() {
        let line = wrapper.line(row).unwrap();
        actual.push(
            line.wrapped_lines()
                .iter()
                .map(|range| text[offset + range.start..offset + range.end].to_string())
                .collect::<Vec<_>>(),
        );
        offset += line.len() + 1;
    }
    actual
}

fn assert_wrapper_lines(text: &str, wrapper: &TextWrapper, expected: &[&[&str]]) {
    let expected: Vec<Vec<String>> =
        expected.iter().map(|l| l.iter().map(|s| s.to_string()).collect()).collect();
    assert_eq!(wrapper_lines(text, wrapper), expected);
}

#[test]
fn test_update() {
    let mut wrapper = TextWrapper::new(false);
    let mut text =
        String::from("Hello, 世界!\r\nThis is second line.\nThis is third line.\n这里是第 4 行。");

    let all = text.clone();
    wrapper.update(&Rope::from(text.as_str()), &(0..text.len()), &Rope::from(all.as_str()), &no_wraps());
    assert_eq!(wrapper.line_count(), 4);
    assert_wrapper_lines(
        &text,
        &wrapper,
        &[
            &["Hello, 世界!\r"],
            &["This is second line."],
            &["This is third line."],
            &["这里是第 4 行。"],
        ],
    );

    // Add a new text to end
    let range = text.len()..text.len();
    let new_text = "New text";
    text.replace_range(range.clone(), new_text);
    wrapper.update(&Rope::from(text.as_str()), &range, &Rope::from(new_text), &no_wraps());
    assert_eq!(
        text,
        "Hello, 世界!\r\nThis is second line.\nThis is third line.\n这里是第 4 行。New text"
    );
    assert_eq!(wrapper.line_count(), 4);
    assert_wrapper_lines(
        &text,
        &wrapper,
        &[
            &["Hello, 世界!\r"],
            &["This is second line."],
            &["This is third line."],
            &["这里是第 4 行。New text"],
        ],
    );

    // Replace first line `Hello` to `AAA`
    let range = 0..5;
    let new_text = "AAA";
    text.replace_range(range.clone(), new_text);
    wrapper.update(&Rope::from(text.as_str()), &range, &Rope::from(new_text), &no_wraps());
    assert_eq!(
        text,
        "AAA, 世界!\r\nThis is second line.\nThis is third line.\n这里是第 4 行。New text"
    );
    assert_eq!(wrapper.line_count(), 4);
    assert_wrapper_lines(
        &text,
        &wrapper,
        &[
            &["AAA, 世界!\r"],
            &["This is second line."],
            &["This is third line."],
            &["这里是第 4 行。New text"],
        ],
    );

    // Remove the second line
    let start_offset = line_start_offset(&text, 1);
    let end_offset = line_end_offset(&text, 1);
    let range = start_offset..end_offset + 1;
    text.replace_range(range.clone(), "");
    wrapper.update(&Rope::from(text.as_str()), &range, &Rope::from(""), &no_wraps());
    assert_eq!(text, "AAA, 世界!\r\nThis is third line.\n这里是第 4 行。New text");
    assert_eq!(wrapper.line_count(), 3);
    assert_wrapper_lines(
        &text,
        &wrapper,
        &[&["AAA, 世界!\r"], &["This is third line."], &["这里是第 4 行。New text"]],
    );

    // Replace the first 2 lines to "This is a new line."
    let range = line_start_offset(&text, 0)..line_end_offset(&text, 1) + 1;
    let new_text = "This is a new line.\nThis is new line 2.\n";
    text.replace_range(range.clone(), new_text);
    wrapper.update(&Rope::from(text.as_str()), &range, &Rope::from(new_text), &no_wraps());
    assert_eq!(text, "This is a new line.\nThis is new line 2.\n这里是第 4 行。New text");
    assert_eq!(wrapper.line_count(), 3);
    assert_wrapper_lines(
        &text,
        &wrapper,
        &[&["This is a new line."], &["This is new line 2."], &["这里是第 4 行。New text"]],
    );

    // Add a new line at the end
    let range = text.len()..text.len();
    let new_text = "\nThis is a new line at the end.";
    text.replace_range(range.clone(), new_text);
    wrapper.update(&Rope::from(text.as_str()), &range, &Rope::from(new_text), &no_wraps());
    assert_eq!(
        text,
        "This is a new line.\nThis is new line 2.\n这里是第 4 行。New text\nThis is a new line at the end."
    );
    assert_eq!(wrapper.line_count(), 4);
    assert_wrapper_lines(
        &text,
        &wrapper,
        &[
            &["This is a new line."],
            &["This is new line 2."],
            &["这里是第 4 行。New text"],
            &["This is a new line at the end."],
        ],
    );

    // Add a new line at the beginning
    let range = 0..0;
    let new_text = "This is a new line at the beginning.\n";
    text.replace_range(range.clone(), new_text);
    wrapper.update(&Rope::from(text.as_str()), &range, &Rope::from(new_text), &no_wraps());
    assert_eq!(
        text,
        "This is a new line at the beginning.\nThis is a new line.\nThis is new line 2.\n这里是第 4 行。New text\nThis is a new line at the end."
    );
    assert_eq!(wrapper.line_count(), 5);
    assert_wrapper_lines(
        &text,
        &wrapper,
        &[
            &["This is a new line at the beginning."],
            &["This is a new line."],
            &["This is new line 2."],
            &["这里是第 4 行。New text"],
            &["This is a new line at the end."],
        ],
    );

    // Remove all to at least one line in `lines`.
    let range = 0..text.len();
    let new_text = "";
    text.replace_range(range.clone(), new_text);
    wrapper.update(&Rope::from(text.as_str()), &range, &Rope::from(new_text), &no_wraps());
    assert_eq!(text, "");
    assert_eq!(wrapper.line_count(), 1);
    assert_eq!(wrapper.line(0).unwrap().wrapped_lines(), &vec![0..0]);

    // Test update_all
    let range = 0..text.len();
    let new_text = "This is a full text.\nThis is a second line.";
    text.replace_range(range.clone(), new_text);
    let all = text.clone();
    wrapper.update(&Rope::from(text.as_str()), &range, &Rope::from(all.as_str()), &no_wraps());
    assert_eq!(text, "This is a full text.\nThis is a second line.");
    assert_eq!(wrapper.line_count(), 2);
}

fn four_line_wrapper() -> TextWrapper {
    let text = "Hello, 世界!\r\nThis is second line.\nThis is third line.\n这里是第 4 行。";
    let mut wrapper = TextWrapper::new(true);
    let wraps = vec![
        vec![0..15],
        vec![0..10, 10..20],
        vec![0..9, 9..15, 15..20],
        vec![0..22],
    ];
    wrapper.update(&Rope::from(text), &(0..0), &Rope::from(text), &wraps);
    wrapper
}

#[test]
fn test_offset_to_display_point() {
    let wrapper = four_line_wrapper();

    assert_eq!(wrapper.offset_to_display_point(12), DisplayPoint::new(0, 0, 12));
    assert_eq!(wrapper.offset_to_display_point(15), DisplayPoint::new(0, 0, 15));

    assert_eq!(wrapper.offset_to_display_point(16), DisplayPoint::new(1, 0, 0));
    assert_eq!(wrapper.offset_to_display_point(21), DisplayPoint::new(1, 0, 5));
    assert_eq!(wrapper.offset_to_display_point(27), DisplayPoint::new(2, 1, 1));
    assert_eq!(wrapper.offset_to_display_point(37), DisplayPoint::new(3, 0, 0));
    assert_eq!(wrapper.offset_to_display_point(54), DisplayPoint::new(5, 2, 2));
    assert_eq!(wrapper.offset_to_display_point(59), DisplayPoint::new(6, 0, 2));

    assert_eq!(wrapper.display_point_to_offset(DisplayPoint::new(6, 0, 2)), 59);
    assert_eq!(wrapper.display_point_to_offset(DisplayPoint::new(5, 2, 2)), 54);
    assert_eq!(wrapper.display_point_to_offset(DisplayPoint::new(3, 0, 0)), 37);
    assert_eq!(wrapper.display_point_to_offset(DisplayPoint::new(2, 1, 1)), 27);
    assert_eq!(wrapper.display_point_to_offset(DisplayPoint::new(1, 0, 5)), 21);
    assert_eq!(wrapper.display_point_to_offset(DisplayPoint::new(1, 0, 0)), 16);
    assert_eq!(wrapper.display_point_to_offset(DisplayPoint::new(0, 0, 15)), 15);
}

#[test]
fn test_display_row_to_line_row() {
    let text = "alpha\nbeta\ngamma";
    let mut wrapper = TextWrapper::new(true);
    let wraps = vec![vec![0..2, 2..5], vec![0..4], vec![0..1, 1..3, 3..5]];
    wrapper.update(&Rope::from(text), &(0..0), &Rope::from(text), &wraps);
    assert_eq!(wrapper.len(), 6);

    assert_eq!(wrapper.display_row_to_line_row(0), Some((0, 0)));
    assert_eq!(wrapper.display_row_to_line_row(1), Some((0, 1)));
    assert_eq!(wrapper.display_row_to_line_row(2), Some((1, 0)));
    assert_eq!(wrapper.display_row_to_line_row(3), Some((2, 0)));
    assert_eq!(wrapper.display_row_to_line_row(5), Some((2, 2)));
}

#[test]
fn test_empty_line_only_uses_one_wrapped_row() {
    let mut wrapper = TextWrapper::new(true);
    let text = "alpha\n\nbeta";
    wrapper.update(&Rope::from(text), &(0..text.len()), &Rope::from(text), &no_wraps());

    assert_eq!(wrapper.line_count(), 3);
    assert_eq!(wrapper.line(1).unwrap().wrapped_lines(), &vec![0..0]);
    assert_eq!(wrapper.line(1).unwrap().lines_len(), 1);
    assert_eq!(wrapper.len(), 3);
}

#[test]
fn display_rows_past_the_end_clamp_to_the_last_row() {
    let text = "alpha\nbeta";
    let mut wrapper = TextWrapper::new(false);
    wrapper.update_all(&Rope::from(text), &no_wraps());
    assert_eq!(wrapper.display_row_to_line_row(100), Some((1, 0)));
    assert_eq!(TextWrapper::new(false).display_row_to_line_row(3), Some((0, 0)));
}

#[test]
fn offsets_round_trip_through_display_points() {
    let text = "ab\ncdef\n\nghi";
    let mut wrapper = TextWrapper::new(true);
    let wraps = vec![vec![0..1], vec![0..2, 2..3], vec![], vec![0..3]];
    wrapper.update_all(&Rope::from(text), &wraps);
    for offset in 0..=text.len() {
        let point = wrapper.offset_to_display_point(offset);
        assert_eq!(wrapper.display_point_to_offset(point), offset);
    }
}

#[test]
fn layout_rows_leave_a_tail_row_for_the_rest_of_the_line() {
    let text = "abcdef";
    let mut wrapper = TextWrapper::new(true);
    wrapper.update_all(&Rope::from(text), &vec![vec![0..2]]);
    assert_eq!(wrapper.line(0).unwrap().wrapped_lines(), &vec![0..2, 2..6]);
    assert_eq!(wrapper.len(), 2);
}

#[test]
fn the_longest_line_is_tracked_by_bytes() {
    let text = "ab\nabcd\nabc";
    let mut wrapper = TextWrapper::new(false);
    wrapper.update_all(&Rope::from(text), &no_wraps());
    assert_eq!(wrapper.longest_row().row, 1);
    assert_eq!(wrapper.longest_row().len, 4);
}

#[test]
fn sync_lays_out_only_when_something_changed() {
    let mut wrapper = TextWrapper::new(false);
    assert!(wrapper.sync(&Rope::from("one\ntwo"), false, false, &no_wraps()));
    assert!(wrapper.is_initialized());
    assert_eq!(wrapper.line_count(), 2);
    assert!(!wrapper.sync(&Rope::from("one\ntwo"), false, false, &no_wraps()));
    assert!(wrapper.sync(&Rope::from("one"), false, false, &no_wraps()));
    assert_eq!(wrapper.line_count(), 1);
    assert!(wrapper.sync(&Rope::from("one"), false, true, &no_wraps()));
}

#[test]
fn lines_to_wrap_are_the_lines_an_edit_touches() {
    let changed = "a\nbXc\nd";
    // "X" was inserted at byte 3
    assert_eq!(TextWrapper::lines_to_wrap(&Rope::from(changed), 3, 1), vec!["bXc".to_string()]);
    assert_eq!(
        TextWrapper::lines_to_wrap(&Rope::from(changed), 0, changed.len()),
        vec!["a".to_string(), "bXc".to_string(), "d".to_string()]
    );
}
