use woocraft::kbd::{Kbd, KeyPlatform, Keystroke, Modifiers};

fn stroke(control: bool, alt: bool, shift: bool, platform: bool, key: &str) -> Keystroke {
    Keystroke {
        modifiers: Modifiers { control, alt, shift, platform, function: false },
        key: key.to_string(),
    }
}

#[test]
fn modifiers_come_first_in_a_fixed_order() {
    let key = stroke(true, true, true, true, "a");
    assert_eq!(Kbd::format(&key, KeyPlatform::Other), "Ctrl+Alt+Shift+Win+A");
    assert_eq!(Kbd::format(&key, KeyPlatform::Mac), "⌃⌥⇧⌘A");
}

#[test]
fn named_keys_use_their_names_or_symbols() {
    assert_eq!(Kbd::format(&stroke(false, false, false, false, "pageup"), KeyPlatform::Other), "Page Up");
    assert_eq!(Kbd::format(&stroke(false, false, false, false, "escape"), KeyPlatform::Other), "Esc");
    assert_eq!(Kbd::format(&stroke(false, false, false, false, "escape"), KeyPlatform::Mac), "⎋");
    assert_eq!(Kbd::format(&stroke(false, false, false, true, "enter"), KeyPlatform::Other), "Win+Enter");
    assert_eq!(Kbd::format(&stroke(false, false, false, false, "space"), KeyPlatform::Mac), "Space");
    assert_eq!(Kbd::format(&stroke(false, false, false, false, "space"), KeyPlatform::Other), "Space");
    assert_eq!(Kbd::format(&stroke(false, false, false, false, "left"), KeyPlatform::Mac), "←");
}

#[test]
fn other_keys_are_capitalised() {
    assert_eq!(Kbd::format(&stroke(true, false, false, false, "f12"), KeyPlatform::Other), "Ctrl+F12");
    assert_eq!(Kbd::format(&stroke(false, false, false, false, "é"), KeyPlatform::Other), "É");
    assert_eq!(Kbd::format(&stroke(false, false, false, false, "ß"), KeyPlatform::Other), "SS");
    assert_eq!(Kbd::format(&stroke(false, false, false, false, ""), KeyPlatform::Other), "");
    assert_eq!(Kbd::format(&stroke(true, false, false, false, ""), KeyPlatform::Other), "Ctrl+");
}

#[test]
fn key_caps_keep_their_keystroke() {
    let kbd = Kbd::new(stroke(false, false, true, false, "tab")).appearance(false).outline();
    assert_eq!(kbd.text(KeyPlatform::Other), "Shift+Tab");
}
