use woocraft::caret::{BlinkCursor, CaretBlink, CARET_STEADY_MS};

#[test]
fn the_caret_stays_solid_for_a_while_after_an_interaction() {
    let mut caret = CaretBlink::new();
    assert!(caret.should_animate(0));
    caret.hold_visible(1_000);
    assert_eq!(caret.steady_until, Some(1_000 + CARET_STEADY_MS));
    assert!(!caret.animates_at(1_500));
    assert!(!caret.should_animate(1_500));
    assert!(caret.should_animate(1_700));
    assert_eq!(caret.steady_until, None);
}

#[test]
fn holding_near_the_end_of_the_clock_saturates() {
    let mut caret = CaretBlink::new();
    caret.hold_visible(u64::MAX - 1);
    assert_eq!(caret.steady_until, Some(u64::MAX));
}

#[test]
fn only_the_current_frame_goes_on() {
    let mut cursor = BlinkCursor::new(0);
    assert_eq!(cursor.tick(0), None);
    let first = cursor.start(100).unwrap();
    assert_eq!(first, 1);
    assert!(cursor.is_active());
    assert_eq!(cursor.tick(0), None);
    assert_eq!(cursor.tick(first), Some(2));
    assert_eq!(cursor.tick(first), None);
    cursor.stop();
    assert!(!cursor.is_active());
    assert_eq!(cursor.tick(cursor.epoch()), None);
}

#[test]
fn the_editor_caret_blinks_after_its_solid_period() {
    let mut cursor = BlinkCursor::new(0);
    assert_eq!(cursor.blink_elapsed(50), None);
    cursor.start(100);
    assert_eq!(cursor.blink_elapsed(300), None);
    assert_eq!(cursor.blink_elapsed(900), Some(800));
    cursor.pause(900);
    assert_eq!(cursor.blink_elapsed(1_000), None);
}
