use woocraft::badge::{decimal_string, Badge, BadgeMode};

#[test]
fn counts_beyond_the_cap_show_the_cap_and_a_plus() {
    assert_eq!(Badge::new().count(5).label(), Some("5".to_string()));
    assert_eq!(Badge::new().count(99).label(), Some("99".to_string()));
    assert_eq!(Badge::new().count(100).label(), Some("99+".to_string()));
    assert_eq!(Badge::new().count(12).max(9).label(), Some("9+".to_string()));
}

#[test]
fn a_zero_count_hides_the_badge() {
    assert!(!Badge::new().is_visible());
    assert!(Badge::new().count(1).is_visible());
    assert!(Badge::new().dot().is_visible());
    assert_eq!(Badge::new().dot().label(), None);
}

#[test]
fn icons_hang_on_the_bottom_right() {
    assert!(Badge::new().icon().anchored_bottom_right());
    assert!(!Badge::new().dot().anchored_bottom_right());
    assert!(Badge::new().icon().is_visible());
    let _ = BadgeMode::Icon;
}

#[test]
fn decimal_numerals() {
    assert_eq!(decimal_string(0), "0");
    assert_eq!(decimal_string(7), "7");
    assert_eq!(decimal_string(10), "10");
    assert_eq!(decimal_string(1234567890), "1234567890");
    assert_eq!(decimal_string(u64::MAX), u64::MAX.to_string());
}
