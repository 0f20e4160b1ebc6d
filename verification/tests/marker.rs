use woocraft::marker::{
    resolve_marker_pixels, MarkerSegment, MarkerSpan, ScrollbarMarker, ScrollbarMarkerKind,
};

const RED: u64 = 0xFF0000;
const GREEN: u64 = 0x00FF00;

fn span(top: usize, bottom: usize, priority: u32, kind: ScrollbarMarkerKind, color: u64) -> MarkerSpan {
    MarkerSpan { top, bottom, priority, kind, color }
}

#[test]
fn a_lone_dot_is_one_segment() {
    // A dot on row 50 of 100 over a 100px track covers pixels 47..53.
    let segments = resolve_marker_pixels(&vec![span(47, 53, 0, ScrollbarMarkerKind::Dot, RED)], 100);
    assert_eq!(segments, vec![MarkerSegment { start: 47, len: 6, kind: ScrollbarMarkerKind::Dot, color: RED }]);
}

#[test]
fn spans_are_clipped_to_the_track() {
    let segments = resolve_marker_pixels(&vec![span(95, 140, 0, ScrollbarMarkerKind::Bar, RED)], 100);
    assert_eq!(segments, vec![MarkerSegment { start: 95, len: 5, kind: ScrollbarMarkerKind::Bar, color: RED }]);
    assert!(resolve_marker_pixels(&vec![span(10, 10, 0, ScrollbarMarkerKind::Dot, RED)], 100).is_empty());
}

#[test]
fn a_later_marker_of_equal_priority_splits_the_earlier() {
    let spans = vec![
        span(0, 100, 0, ScrollbarMarkerKind::Bar, GREEN),
        span(47, 53, 0, ScrollbarMarkerKind::Dot, RED),
    ];
    let segments = resolve_marker_pixels(&spans, 100);
    assert_eq!(segments.len(), 3);
    assert_eq!(segments[1], MarkerSegment { start: 47, len: 6, kind: ScrollbarMarkerKind::Dot, color: RED });
    assert_eq!(segments[0].len, 47);
    assert_eq!(segments[2].start, 53);
}

#[test]
fn priority_overrides_insertion_order() {
    let spans = vec![
        span(47, 53, 10, ScrollbarMarkerKind::Dot, RED),
        span(0, 100, 0, ScrollbarMarkerKind::Bar, GREEN),
    ];
    let segments = resolve_marker_pixels(&spans, 100);
    let dot = segments.iter().find(|s| s.color == RED).expect("dot segment should win its pixels");
    assert_eq!(dot.len, 6);
    assert!(segments.iter().any(|s| s.color == GREEN));
}

#[test]
fn adjacent_pixels_of_one_kind_and_color_merge() {
    let spans = vec![
        span(10, 20, 0, ScrollbarMarkerKind::Bar, RED),
        span(20, 30, 0, ScrollbarMarkerKind::Bar, RED),
        span(30, 35, 0, ScrollbarMarkerKind::Tick, RED),
    ];
    let segments = resolve_marker_pixels(&spans, 100);
    assert_eq!(
        segments,
        vec![
            MarkerSegment { start: 10, len: 20, kind: ScrollbarMarkerKind::Bar, color: RED },
            MarkerSegment { start: 30, len: 5, kind: ScrollbarMarkerKind::Tick, color: RED },
        ]
    );
}

#[test]
fn empty_inputs_produce_no_segments() {
    assert!(resolve_marker_pixels(&vec![], 100).is_empty());
    assert!(resolve_marker_pixels(&vec![span(0, 5, 0, ScrollbarMarkerKind::Dot, RED)], 0).is_empty());
}

#[test]
fn marker_constructors() {
    let dot = ScrollbarMarker::dot(42, "red");
    assert_eq!((dot.row, dot.end_row, dot.kind, dot.priority), (42, 42, ScrollbarMarkerKind::Dot, 0));
    let bar = ScrollbarMarker::bar(10..21, "red").with_priority(10);
    assert_eq!((bar.row, bar.end_row, bar.priority), (10, 20, 10));
    let empty = ScrollbarMarker::bar(7..7, "red");
    assert_eq!((empty.row, empty.end_row), (7, 7));
    let zero = ScrollbarMarker::bar(0..0, "red");
    assert_eq!(zero.end_row, 0);
    assert_eq!(ScrollbarMarker::tick(5, 1u8).with_end_row(3).end_row, 5);
    assert_eq!(ScrollbarMarker::dash(5, 1u8).with_end_row(9).end_row, 9);
}
