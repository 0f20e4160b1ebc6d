use woocraft::avatar::{extract_initials, hue_for_name, Avatar, AvatarContent};

#[test]
fn initials_use_the_first_two_words() {
    assert_eq!(extract_initials("Jason Lee"), "JL");
    assert_eq!(extract_initials("Foo Bar Dar"), "FB");
}

#[test]
fn single_word_names_use_the_first_two_letters() {
    assert_eq!(extract_initials("huacnlee"), "HU");
}

#[test]
fn single_letter_names_duplicate_the_letter() {
    assert_eq!(extract_initials("q"), "Q");
}

#[test]
fn name_hue_is_stable_across_calls() {
    assert_eq!(hue_for_name("alice"), hue_for_name("alice"));
    assert!((0..360).contains(&hue_for_name("bob")));
}

#[test]
fn initials_upper_case_non_ascii_letters() {
    assert_eq!(extract_initials("émile zola"), "ÉZ");
}

#[test]
fn empty_names_have_no_initials() {
    assert_eq!(extract_initials(""), "");
    assert_eq!(extract_initials("   "), "");
}

#[test]
fn hue_of_the_empty_name_is_the_fnv_offset_modulo_360() {
    assert_eq!(hue_for_name(""), (0xcbf29ce484222325u64 % 360) as u32);
}

#[test]
fn name_setter_extracts_initials() {
    let avatar = Avatar::new().name("Jason Lee".to_string());
    assert_eq!(avatar.initials(), "JL");
}

#[test]
fn avatar_shows_image_then_initials_then_placeholder() {
    assert_eq!(Avatar::new().content(), AvatarContent::Placeholder);
    assert_eq!(Avatar::new().name("Ann".to_string()).content(), AvatarContent::Initials);
    assert_eq!(
        Avatar::new().name("Ann".to_string()).src("a.png".to_string()).content(),
        AvatarContent::Image
    );
}

#[test]
fn avatar_accent_hue_follows_the_name() {
    assert_eq!(Avatar::new().name_hue(), None);
    assert_eq!(Avatar::new().name("alice".to_string()).name_hue(), Some(hue_for_name("alice")));
}

#[test]
fn initials_that_grow_when_upper_cased_are_cut_to_two() {
    assert_eq!(extract_initials("ßa"), "SS");
    assert!(extract_initials("ß ß").chars().count() <= 2);
}
