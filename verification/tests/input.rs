use woocraft::input::{accepts_input, paste_text, InputState, OtpState, Selection};

#[test]
fn typing_then_undo_restores_the_text_and_redo_reapplies() {
    let mut input = InputState::new().default_value("hello");
    assert_eq!(input.selected_range(), Selection::new(5, 5));
    assert!(input.insert(" world", true));
    assert_eq!(input.text(), "hello world");
    assert_eq!(input.selected_range().end, 11);
    assert!(input.undo());
    assert_eq!(input.text(), "hello");
    assert_eq!(input.selected_range(), Selection::new(5, 5));
    assert!(input.redo());
    assert_eq!(input.text(), "hello world");
    assert!(!input.redo());
}

#[test]
fn a_rejected_or_disabled_edit_changes_nothing() {
    let mut input = InputState::new().default_value("abc");
    assert!(!input.insert("x", false));
    assert_eq!(input.text(), "abc");
    input.set_disabled(true);
    assert!(!input.insert("x", true));
    assert_eq!(input.text(), "abc");
    assert!(!input.undo());
}

#[test]
fn utf16_and_byte_offsets_convert_both_ways() {
    let text = "a😀b";
    assert_eq!(InputState::byte_to_utf16_offset(text, 5), 3);
    assert_eq!(InputState::utf16_to_byte_offset(text, 3), 5);
    assert_eq!(InputState::byte_to_utf16_offset(text, 2), 1);
    assert_eq!(InputState::normalize_to_char_boundary(text, 3), 1);
    assert_eq!(InputState::byte_to_char_offset(text, 5), 2);
    assert_eq!(InputState::char_to_byte_offset(text, 2), 5);
}

#[test]
fn ime_composition_replaces_its_marked_text() {
    let mut input = InputState::new();
    assert!(input.replace_and_mark_text_in_range(None, "r", None, true));
    assert!(input.replace_and_mark_text_in_range(None, "ru", None, true));
    assert_eq!(input.text(), "ru");
    assert_eq!(input.marked_text_range(), Some(0..2));
    assert!(input.replace_text_in_range_silent(None, "你", true));
    assert_eq!(input.text(), "你");
    assert_eq!(input.marked_text_range(), None);
}

#[test]
fn caret_motion_and_selection() {
    let mut input = InputState::new().default_value("ab cd");
    input.move_home();
    assert_eq!(input.selected_range().end, 0);
    input.move_right();
    assert_eq!(input.selected_range().end, 1);
    input.move_to_next_word();
    assert_eq!(input.selected_range().end, 2);
    input.move_end();
    input.move_to_previous_word();
    assert_eq!(input.selected_range().end, 3);
    input.select_all();
    assert_eq!(input.selected_range_normalized(), 0..5);
    assert_eq!(input.copy(), Some("ab cd".to_string()));
}

#[test]
fn masked_inputs_display_bullets() {
    let input = InputState::new().default_value("pw").masked(true);
    assert_eq!(input.display_text(), "••");
    assert_eq!(input.value(), "pw");
}

#[test]
fn pasted_text_keeps_a_single_line() {
    assert_eq!(paste_text("a\r\nb\nc"), "a\rbc");
}

#[test]
fn otp_inputs_take_digits_up_to_their_length() {
    let mut otp = OtpState::new(3);
    assert!(otp.on_key_down("1"));
    assert!(otp.on_key_down("2"));
    assert!(!otp.on_key_down("x"));
    assert!(otp.on_key_down("3"));
    assert!(!otp.on_key_down("4"));
    assert_eq!(otp.value(), "123");
    assert!(otp.on_key_down("backspace"));
    assert_eq!(otp.value(), "12");
}

#[test]
fn a_pattern_must_match_the_edited_text() {
    let input = InputState::new().pattern(regex::Regex::new("^[0-9]*$").unwrap());
    assert!(input.is_valid_input("123", true));
    assert!(!input.is_valid_input("12a", true));
    assert!(!input.is_valid_input("123", false));
    let free = InputState::new();
    assert!(free.is_valid_input("anything", true));
    assert!(!free.is_valid_input("anything", false));
}

#[test]
fn an_edit_needs_both_the_validator_and_the_pattern() {
    assert!(accepts_input(true, None));
    assert!(!accepts_input(false, None));
    assert!(accepts_input(true, Some(true)));
    assert!(!accepts_input(true, Some(false)));
    assert!(!accepts_input(false, Some(true)));
}

#[test]
fn decorations_follow_the_state() {
    let st = InputState::new().default_value("abc");
    let d = st.decorations(true, false, true);
    assert!(d.focused && d.show_clear_button && d.has_suffix && !d.show_placeholder);
    let d = st.decorations(false, false, false);
    assert!(!d.show_clear_button && !d.has_suffix && !d.show_placeholder);

    let mut loading = InputState::new().default_value("abc");
    loading.set_loading(true);
    let d = loading.decorations(true, false, true);
    assert!(!d.show_clear_button && d.has_suffix);

    let empty = InputState::new();
    let d = empty.decorations(true, true, false);
    assert!(d.show_placeholder && !d.show_clear_button && d.has_suffix);
    assert!(!empty.decorations(true, false, true).show_placeholder);

    let mut disabled = InputState::new();
    disabled.set_disabled(true);
    let d = disabled.decorations(true, false, true);
    assert!(!d.focused && d.show_placeholder);
}
