use woocraft::color_picker::{
    hex_digits, is_complete_eight_hex_input, is_enter_committable_hex_input, is_hex_digits,
    parse_complete_eight_hex_color, parse_hex_byte, parse_hex_byte_pair, parse_hex_color,
    rgba_to_hex, PickerChannel, Rgba8,
};

#[test]
fn hex_inputs_are_trimmed_and_lose_their_hash() {
    assert_eq!(hex_digits("  #a1b2c3 "), "a1b2c3");
    assert_eq!(hex_digits("ff"), "ff");
    assert!(is_hex_digits("0aF9"));
    assert!(!is_hex_digits(""));
    assert!(!is_hex_digits("0g"));
}

#[test]
fn committable_inputs_have_three_four_six_or_eight_digits() {
    assert!(is_enter_committable_hex_input("#abc"));
    assert!(is_enter_committable_hex_input("abcd"));
    assert!(is_enter_committable_hex_input(" #aabbcc"));
    assert!(!is_enter_committable_hex_input("#abcde"));
    assert!(is_complete_eight_hex_input("#11223344"));
    assert!(!is_complete_eight_hex_input("#112233"));
}

#[test]
fn colors_parse_in_short_and_long_forms() {
    assert_eq!(parse_hex_color("#FF8000"), Some(Rgba8 { r: 255, g: 128, b: 0, a: 255 }));
    assert_eq!(parse_hex_color("#f80"), Some(Rgba8 { r: 255, g: 136, b: 0, a: 255 }));
    assert_eq!(parse_hex_color("#f808"), Some(Rgba8 { r: 255, g: 136, b: 0, a: 136 }));
    assert_eq!(parse_hex_color("11223344"), Some(Rgba8 { r: 0x11, g: 0x22, b: 0x33, a: 0x44 }));
    assert_eq!(parse_hex_color("#12345"), None);
    assert_eq!(parse_hex_color("#zz0000"), None);
    assert_eq!(parse_complete_eight_hex_color("#11223344"), Some(Rgba8 { r: 0x11, g: 0x22, b: 0x33, a: 0x44 }));
    assert_eq!(parse_complete_eight_hex_color("#112233"), None);
}

#[test]
fn bytes_parse_from_hex_digits() {
    assert_eq!(parse_hex_byte("ff"), Some(255));
    assert_eq!(parse_hex_byte("+f"), Some(15));
    assert_eq!(parse_hex_byte(""), None);
    assert_eq!(parse_hex_byte("100"), None);
    assert_eq!(parse_hex_byte_pair('a', 'b'), Some(0xab));
    assert_eq!(parse_hex_byte_pair('a', 'x'), None);
}

#[test]
fn colors_format_as_upper_case_hex() {
    assert_eq!(rgba_to_hex(Rgba8 { r: 255, g: 128, b: 0, a: 255 }), "#FF8000FF");
    assert_eq!(rgba_to_hex(Rgba8 { r: 1, g: 2, b: 3, a: 4 }), "#01020304");
}

#[test]
fn channels_are_ordered_and_named() {
    assert_eq!(PickerChannel::Lightness.index(), 0);
    assert_eq!(PickerChannel::Alpha.index(), 3);
    assert_eq!(PickerChannel::Hue.id_label(), "Hue");
    assert_eq!(PickerChannel::Chroma.i18n_key(), "color_picker.chroma");
}

use woocraft::color_picker::{HexInputEvent, HexInputSync};

#[test]
fn the_pickers_own_writes_are_not_user_edits() {
    let mut sync = HexInputSync::new();
    assert!(sync.sync_display("#000000FF", "#FF8000FF"));
    assert_eq!(sync.pending_programmatic_events(), 1);
    assert_eq!(sync.on_hex_input_event(HexInputEvent::Change, "#FF8000FF"), None);
    assert_eq!(sync.pending_programmatic_events(), 0);
    assert!(!sync.is_dirty());
}

#[test]
fn a_complete_eight_digit_edit_commits_at_once() {
    let mut sync = HexInputSync::new();
    assert_eq!(sync.on_hex_input_event(HexInputEvent::Change, "#11223"), None);
    assert!(sync.is_dirty());
    // While the user edits, the display is left alone.
    assert!(!sync.sync_display("#11223", "#FF8000FF"));
    assert_eq!(
        sync.on_hex_input_event(HexInputEvent::Change, "#11223344"),
        Some(Rgba8 { r: 0x11, g: 0x22, b: 0x33, a: 0x44 })
    );
    assert!(!sync.is_dirty());
}

#[test]
fn enter_commits_short_forms() {
    let mut sync = HexInputSync::new();
    assert_eq!(sync.on_hex_input_event(HexInputEvent::Change, "#f80"), None);
    assert_eq!(
        sync.on_hex_input_event(HexInputEvent::PressEnter, "#f80"),
        Some(Rgba8 { r: 255, g: 136, b: 0, a: 255 })
    );
    assert!(!sync.is_dirty());
    assert_eq!(sync.on_hex_input_event(HexInputEvent::PressEnter, "#f8"), None);
    assert_eq!(sync.on_hex_input_event(HexInputEvent::Other, "#f80"), None);
    assert!(!sync.sync_display("#FF8800FF", "#FF8800FF"));
}

#[test]
fn hex_text_parses_back_to_the_color() {
    for (r, g, b, a) in [(0u8, 0u8, 0u8, 0u8), (255, 255, 255, 255), (18, 52, 86, 120), (171, 205, 239, 1)] {
        let color = Rgba8 { r, g, b, a };
        assert_eq!(parse_hex_color(&rgba_to_hex(color)), Some(color));
    }
}

#[test]
fn groups_after_a_failed_group_are_not_sliced() {
    // six bytes whose later groups would split the 'é'
    assert_eq!(parse_hex_color("zzzéa"), None);
    // eight bytes that are not all hex digits
    assert_eq!(parse_complete_eight_hex_color("éééé"), None);
    assert_eq!(parse_complete_eight_hex_color("#zzzzzzzz"), None);
}

#[test]
fn eight_digits_write_back_in_upper_case() {
    let c = parse_complete_eight_hex_color(" #a1B2c3D4 ").unwrap();
    assert_eq!(rgba_to_hex(c), "#A1B2C3D4");
}
