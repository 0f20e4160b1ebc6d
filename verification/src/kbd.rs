//! Keystrokes written out for people: modifiers and a key name, with the
//! symbols of macOS or the names used elsewhere.
use vstd::prelude::*;

use crate::text_offsets::{
    byte_len, chars_of, lemma_width_pos, str_equal, string_from_chars, to_uppercase, uppercase_of,
    utf8_width, char_utf8_width,
};

verus! {

/// The modifier keys held with a key.
#[derive(Debug, Clone, Copy, PartialEq, Eq, Default, Structural)]
pub struct Modifiers {
    pub control: bool,
    pub alt: bool,
    pub shift: bool,
    pub platform: bool,
    pub function: bool,
}

/// A key pressed with modifiers; `key` is the key's name, such as "a",
/// "enter" or "pageup".
#[derive(Debug, Clone, PartialEq, Eq)]
pub struct Keystroke {
    pub modifiers: Modifiers,
    pub key: String,
}

/// Whose conventions a keystroke is written in.
#[derive(Debug, Clone, Copy, PartialEq, Eq, Structural)]
pub enum KeyPlatform {
    /// Symbols, written together: "⌃⇧A".
    Mac,
    /// Names joined by "+": "Ctrl+Shift+A".
    Other,
}

/// The written modifiers, in the order control, alt, shift, platform.
pub open spec fn modifier_parts(m: Modifiers, p: KeyPlatform) -> Seq<Seq<char>> {
    let mac = p is Mac;
    let c = if m.control {
        seq![if mac { "⌃"@ } else { "Ctrl"@ }]
    } else {
        Seq::empty()
    };
    let a = if m.alt {
        seq![if mac { "⌥"@ } else { "Alt"@ }]
    } else {
        Seq::empty()
    };
    let s = if m.shift {
        seq![if mac { "⇧"@ } else { "Shift"@ }]
    } else {
        Seq::empty()
    };
    let w = if m.platform {
        seq![if mac { "⌘"@ } else { "Win"@ }]
    } else {
        Seq::empty()
    };
    c + a + s + w
}

/// How a key name is written: named keys by their symbol or name, a
/// one-byte name upper-cased, and any other name with its first character
/// upper-cased.
pub open spec fn key_label(key: Seq<char>, p: KeyPlatform) -> Seq<char> {
    let mac = p is Mac;
    if key == "ctrl"@ {
        if mac { "⌃"@ } else { "Ctrl"@ }
    } else if key == "alt"@ {
        if mac { "⌥"@ } else { "Alt"@ }
    } else if key == "shift"@ {
        if mac { "⇧"@ } else { "Shift"@ }
    } else if key == "cmd"@ {
        if mac { "⌘"@ } else { "Win"@ }
    } else if key == "space"@ && mac {
        "Space"@
    } else if key == "backspace"@ {
        if mac { "⌫"@ } else { "Backspace"@ }
    } else if key == "delete"@ {
        if mac { "⌫"@ } else { "Delete"@ }
    } else if key == "escape"@ {
        if mac { "⎋"@ } else { "Esc"@ }
    } else if key == "enter"@ {
        if mac { "⏎"@ } else { "Enter"@ }
    } else if key == "pagedown"@ {
        "Page Down"@
    } else if key == "pageup"@ {
        "Page Up"@
    } else if key == "left"@ {
        if mac { "←"@ } else { "Left"@ }
    } else if key == "right"@ {
        if mac { "→"@ } else { "Right"@ }
    } else if key == "up"@ {
        if mac { "↑"@ } else { "Up"@ }
    } else if key == "down"@ {
        if mac { "↓"@ } else { "Down"@ }
    } else if byte_len(key) == 1 {
        uppercase_of(key)
    } else if key.len() > 0 {
        uppercase_of(seq![key[0]]) + key.skip(1)
    } else {
        key
    }
}

/// `parts` joined with `sep` between them.
pub open spec fn joined(parts: Seq<Seq<char>>, sep: Seq<char>) -> Seq<char>
    decreases parts.len(),
{
    if parts.len() == 0 {
        Seq::empty()
    } else if parts.len() == 1 {
        parts[0]
    } else {
        joined(parts.drop_last(), sep) + sep + parts.last()
    }
}

/// The written keystroke: modifiers then key, joined with "+" except on
/// macOS, where the symbols stand together.
pub open spec fn keystroke_text(m: Modifiers, key: Seq<char>, p: KeyPlatform) -> Seq<char> {
    joined(
        modifier_parts(m, p).push(key_label(key, p)),
        if p is Mac {
            ""@
        } else {
            "+"@
        },
    )
}

proof fn lemma_byte_len_at_least_len(s: Seq<char>)
    ensures
        byte_len(s) >= s.len(),
    decreases s.len(),
{
    if s.len() > 0 {
        lemma_byte_len_at_least_len(s.drop_last());
        lemma_width_pos(s.last());
    }
}

/// Appends the characters of `s`.
fn push_str(out: &mut Vec<char>, s: &str)
    ensures
        final(out)@ == old(out)@ + s@,
{
    let cs = chars_of(s);
    let ghost start = old(out)@;
    let mut i: usize = 0;
    while i < cs.len()
        invariant
            cs@ == s@,
            i <= cs@.len(),
            out@ == start + cs@.take(i as int),
        decreases cs@.len() - i,
    {
        out.push(cs[i]);
        assert(cs@.take(i + 1) =~= cs@.take(i as int).push(cs@[i as int]));
        i += 1;
    }
    assert(cs@.take(cs@.len() as int) =~= cs@);
}

/// The written key name.
fn key_label_of(key: &str, platform: KeyPlatform) -> (r: String)
    ensures
        r@ == key_label(key@, platform),
{
    let mac = match platform {
        KeyPlatform::Mac => true,
        KeyPlatform::Other => false,
    };
    let named: Option<&str> = if str_equal(key, "ctrl") {
        Some(if mac { "⌃" } else { "Ctrl" })
    } else if str_equal(key, "alt") {
        Some(if mac { "⌥" } else { "Alt" })
    } else if str_equal(key, "shift") {
        Some(if mac { "⇧" } else { "Shift" })
    } else if str_equal(key, "cmd") {
        Some(if mac { "⌘" } else { "Win" })
    } else if str_equal(key, "space") && mac {
        Some("Space")
    } else if str_equal(key, "backspace") {
        Some(if mac { "⌫" } else { "Backspace" })
    } else if str_equal(key, "delete") {
        Some(if mac { "⌫" } else { "Delete" })
    } else if str_equal(key, "escape") {
        Some(if mac { "⎋" } else { "Esc" })
    } else if str_equal(key, "enter") {
        Some(if mac { "⏎" } else { "Enter" })
    } else if str_equal(key, "pagedown") {
        Some("Page Down")
    } else if str_equal(key, "pageup") {
        Some("Page Up")
    } else if str_equal(key, "left") {
        Some(if mac { "←" } else { "Left" })
    } else if str_equal(key, "right") {
        Some(if mac { "→" } else { "Right" })
    } else if str_equal(key, "up") {
        Some(if mac { "↑" } else { "Up" })
    } else if str_equal(key, "down") {
        Some(if mac { "↓" } else { "Down" })
    } else {
        None
    };
    match named {
        Some(label) => {
            let mut out: Vec<char> = Vec::new();
            push_str(&mut out, label);
            return string_from_chars(out.as_slice());
        },
        None => {},
    }
    let cs = chars_of(key);
    proof {
        lemma_byte_len_at_least_len(key@);
    }
    if cs.len() == 0 {
        return string_from_chars(cs.as_slice());
    }
    let first = cs[0];
    if cs.len() == 1 && char_utf8_width(first) == 1 {
        proof {
            assert(key@.drop_last() =~= Seq::<char>::empty());
            assert(byte_len(Seq::<char>::empty()) == 0);
        }
        return to_uppercase(key);
    }
    proof {
        if cs@.len() == 1 {
            assert(key@.drop_last() =~= Seq::<char>::empty());
            assert(byte_len(Seq::<char>::empty()) == 0);
            assert(byte_len(key@) == utf8_width(first));
        }
    }
    let single = [first];
    let head = string_from_chars(&single);
    let upper = to_uppercase(head.as_str());
    let mut out: Vec<char> = Vec::new();
    push_str(&mut out, upper.as_str());
    let mut i: usize = 1;
    while i < cs.len()
        invariant
            cs@ == key@,
            1 <= i <= cs@.len(),
            out@ == upper@ + cs@.subrange(1, i as int),
        decreases cs@.len() - i,
    {
        out.push(cs[i]);
        assert(cs@.subrange(1, i + 1) =~= cs@.subrange(1, i as int).push(cs@[i as int]));
        i += 1;
    }
    assert(head@ =~= seq![first]);
    assert(cs@.subrange(1, cs@.len() as int) =~= key@.skip(1));
    string_from_chars(out.as_slice())
}

/// A keystroke shown as a key cap.
pub struct Kbd {
    stroke: Keystroke,
    appearance: bool,
    outline: bool,
}

impl Kbd {
    pub closed spec fn shows_appearance(&self) -> bool {
        self.appearance
    }

    pub closed spec fn outlined(&self) -> bool {
        self.outline
    }

    pub closed spec fn stroke_modifiers(&self) -> Modifiers {
        self.stroke.modifiers
    }

    pub closed spec fn stroke_key(&self) -> Seq<char> {
        self.stroke.key@
    }

    /// A key cap for `stroke`, drawn with its background and border.
    pub fn new(stroke: Keystroke) -> (r: Self)
        ensures
            r.shows_appearance(),
            !r.outlined(),
            r.stroke_modifiers() == stroke.modifiers,
            r.stroke_key() == stroke.key@,
    {
        Kbd { stroke, appearance: true, outline: false }
    }

    /// Whether the cap is drawn with its background and border.
    pub fn appearance(self, appearance: bool) -> (r: Self)
        ensures
            r.shows_appearance() == appearance,
            r.outlined() == self.outlined(),
            r.stroke_modifiers() == self.stroke_modifiers(),
            r.stroke_key() == self.stroke_key(),
    {
        Kbd { appearance, ..self }
    }

    /// Switches to the outlined cap.
    pub fn outline(self) -> (r: Self)
        ensures
            r.outlined(),
            r.shows_appearance() == self.shows_appearance(),
            r.stroke_modifiers() == self.stroke_modifiers(),
            r.stroke_key() == self.stroke_key(),
    {
        Kbd { outline: true, ..self }
    }

    /// The keystroke as written for `platform`.
    pub fn format(key: &Keystroke, platform: KeyPlatform) -> (r: String)
        ensures
            r@ == keystroke_text(key.modifiers, key.key@, platform),
    {
        let mac = match platform {
            KeyPlatform::Mac => true,
            KeyPlatform::Other => false,
        };
        let mut parts: Vec<String> = Vec::new();
        let ghost mut spec_parts: Seq<Seq<char>> = Seq::empty();
        let m = key.modifiers;
        if m.control {
            let mut v: Vec<char> = Vec::new();
            push_str(&mut v, if mac { "⌃" } else { "Ctrl" });
            parts.push(string_from_chars(v.as_slice()));
        }
        if m.alt {
            let mut v: Vec<char> = Vec::new();
            push_str(&mut v, if mac { "⌥" } else { "Alt" });
            parts.push(string_from_chars(v.as_slice()));
        }
        if m.shift {
            let mut v: Vec<char> = Vec::new();
            push_str(&mut v, if mac { "⇧" } else { "Shift" });
            parts.push(string_from_chars(v.as_slice()));
        }
        if m.platform {
            let mut v: Vec<char> = Vec::new();
            push_str(&mut v, if mac { "⌘" } else { "Win" });
            parts.push(string_from_chars(v.as_slice()));
        }
        parts.push(key_label_of(key.key.as_str(), platform));
        let ghost views = parts@.map_values(|s: String| s@);
        assert(views =~= modifier_parts(m, platform).push(key_label(key.key@, platform)));
        let mut out: Vec<char> = Vec::new();
        let mut i: usize = 0;
        while i < parts.len()
            invariant
                views == parts@.map_values(|s: String| s@),
                i <= parts@.len(),
                parts@.len() >= 1,
                out@ == joined(views.take(i as int), if mac { ""@ } else { "+"@ }),
            decreases parts@.len() - i,
        {
            let ghost before = out@;
            if i > 0 && !mac {
                out.push('+');
            }
            push_str(&mut out, parts[i].as_str());
            proof {
                let t = views.take(i + 1);
                assert(t.drop_last() =~= views.take(i as int));
                if i > 0 && !mac {
                    assert("+"@ =~= seq!['+']) by {
                        reveal_strlit("+");
                    }
                }
                if i > 0 && mac {
                    assert(""@ =~= Seq::<char>::empty()) by {
                        reveal_strlit("");
                    }
                }
                if i == 0 {
                    assert(views.take(0) =~= Seq::<Seq<char>>::empty());
                }
                assert(out@ =~= joined(t, if mac { ""@ } else { "+"@ }));
            }
            i += 1;
        }
        assert(views.take(views.len() as int) =~= views);
        string_from_chars(out.as_slice())
    }

    /// The keystroke as written for `platform`.
    pub fn text(&self, platform: KeyPlatform) -> (r: String)
        ensures
            r@ == keystroke_text(self.stroke_modifiers(), self.stroke_key(), platform),
    {
        Kbd::format(&self.stroke, platform)
    }
}

/// The last part written is the last character of a joined text.
proof fn lemma_joined_ends_with_last(parts: Seq<Seq<char>>, x: Seq<char>, sep: Seq<char>)
    requires
        x.len() > 0,
    ensures
        joined(parts.push(x), sep).len() > 0,
        joined(parts.push(x), sep).last() == x.last(),
{
    let p = parts.push(x);
    assert(p.drop_last() =~= parts);
    assert(p.last() == x);
    if parts.len() == 0 {
        assert(p.len() == 1);
        assert(p[0] == x);
    } else {
        let j = joined(parts, sep) + sep;
        assert((j + x).last() == x.last());
    }
}

/// On macOS `left` is written ←.
proof fn lemma_mac_left()
    ensures
        key_label("left"@, KeyPlatform::Mac) == "←"@,
{
    reveal_strlit("left");
    reveal_strlit("ctrl");
    assert("left"@ != "ctrl"@) by {
        if "left"@.len() == "ctrl"@.len() {
            assert("left"@[0] != "ctrl"@[0] || "left"@[1] != "ctrl"@[1]);
        }
    }
    reveal_strlit("alt");
    assert("left"@ != "alt"@) by {
        if "left"@.len() == "alt"@.len() {
            assert("left"@[0] != "alt"@[0] || "left"@[1] != "alt"@[1]);
        }
    }
    reveal_strlit("shift");
    assert("left"@ != "shift"@) by {
        if "left"@.len() == "shift"@.len() {
            assert("left"@[0] != "shift"@[0] || "left"@[1] != "shift"@[1]);
        }
    }
    reveal_strlit("cmd");
    assert("left"@ != "cmd"@) by {
        if "left"@.len() == "cmd"@.len() {
            assert("left"@[0] != "cmd"@[0] || "left"@[1] != "cmd"@[1]);
        }
    }
    reveal_strlit("space");
    assert("left"@ != "space"@) by {
        if "left"@.len() == "space"@.len() {
            assert("left"@[0] != "space"@[0] || "left"@[1] != "space"@[1]);
        }
    }
    reveal_strlit("backspace");
    assert("left"@ != "backspace"@) by {
        if "left"@.len() == "backspace"@.len() {
            assert("left"@[0] != "backspace"@[0] || "left"@[1] != "backspace"@[1]);
        }
    }
    reveal_strlit("delete");
    assert("left"@ != "delete"@) by {
        if "left"@.len() == "delete"@.len() {
            assert("left"@[0] != "delete"@[0] || "left"@[1] != "delete"@[1]);
        }
    }
    reveal_strlit("escape");
    assert("left"@ != "escape"@) by {
        if "left"@.len() == "escape"@.len() {
            assert("left"@[0] != "escape"@[0] || "left"@[1] != "escape"@[1]);
        }
    }
    reveal_strlit("enter");
    assert("left"@ != "enter"@) by {
        if "left"@.len() == "enter"@.len() {
            assert("left"@[0] != "enter"@[0] || "left"@[1] != "enter"@[1]);
        }
    }
    reveal_strlit("pagedown");
    assert("left"@ != "pagedown"@) by {
        if "left"@.len() == "pagedown"@.len() {
            assert("left"@[0] != "pagedown"@[0] || "left"@[1] != "pagedown"@[1]);
        }
    }
    reveal_strlit("pageup");
    assert("left"@ != "pageup"@) by {
        if "left"@.len() == "pageup"@.len() {
            assert("left"@[0] != "pageup"@[0] || "left"@[1] != "pageup"@[1]);
        }
    }
}

/// On macOS `right` is written →.
proof fn lemma_mac_right()
    ensures
        key_label("right"@, KeyPlatform::Mac) == "→"@,
{
    reveal_strlit("right");
    reveal_strlit("ctrl");
    assert("right"@ != "ctrl"@) by {
        if "right"@.len() == "ctrl"@.len() {
            assert("right"@[0] != "ctrl"@[0] || "right"@[1] != "ctrl"@[1]);
        }
    }
    reveal_strlit("alt");
    assert("right"@ != "alt"@) by {
        if "right"@.len() == "alt"@.len() {
            assert("right"@[0] != "alt"@[0] || "right"@[1] != "alt"@[1]);
        }
    }
    reveal_strlit("shift");
    assert("right"@ != "shift"@) by {
        if "right"@.len() == "shift"@.len() {
            assert("right"@[0] != "shift"@[0] || "right"@[1] != "shift"@[1]);
        }
    }
    reveal_strlit("cmd");
    assert("right"@ != "cmd"@) by {
        if "right"@.len() == "cmd"@.len() {
            assert("right"@[0] != "cmd"@[0] || "right"@[1] != "cmd"@[1]);
        }
    }
    reveal_strlit("space");
    assert("right"@ != "space"@) by {
        if "right"@.len() == "space"@.len() {
            assert("right"@[0] != "space"@[0] || "right"@[1] != "space"@[1]);
        }
    }
    reveal_strlit("backspace");
    assert("right"@ != "backspace"@) by {
        if "right"@.len() == "backspace"@.len() {
            assert("right"@[0] != "backspace"@[0] || "right"@[1] != "backspace"@[1]);
        }
    }
    reveal_strlit("delete");
    assert("right"@ != "delete"@) by {
        if "right"@.len() == "delete"@.len() {
            assert("right"@[0] != "delete"@[0] || "right"@[1] != "delete"@[1]);
        }
    }
    reveal_strlit("escape");
    assert("right"@ != "escape"@) by {
        if "right"@.len() == "escape"@.len() {
            assert("right"@[0] != "escape"@[0] || "right"@[1] != "escape"@[1]);
        }
    }
    reveal_strlit("enter");
    assert("right"@ != "enter"@) by {
        if "right"@.len() == "enter"@.len() {
            assert("right"@[0] != "enter"@[0] || "right"@[1] != "enter"@[1]);
        }
    }
    reveal_strlit("pagedown");
    assert("right"@ != "pagedown"@) by {
        if "right"@.len() == "pagedown"@.len() {
            assert("right"@[0] != "pagedown"@[0] || "right"@[1] != "pagedown"@[1]);
        }
    }
    reveal_strlit("pageup");
    assert("right"@ != "pageup"@) by {
        if "right"@.len() == "pageup"@.len() {
            assert("right"@[0] != "pageup"@[0] || "right"@[1] != "pageup"@[1]);
        }
    }
    reveal_strlit("left");
    assert("right"@ != "left"@) by {
        if "right"@.len() == "left"@.len() {
            assert("right"@[0] != "left"@[0] || "right"@[1] != "left"@[1]);
        }
    }
}

/// On macOS `up` is written ↑.
proof fn lemma_mac_up()
    ensures
        key_label("up"@, KeyPlatform::Mac) == "↑"@,
{
    reveal_strlit("up");
    reveal_strlit("ctrl");
    assert("up"@ != "ctrl"@) by {
        if "up"@.len() == "ctrl"@.len() {
            assert("up"@[0] != "ctrl"@[0] || "up"@[1] != "ctrl"@[1]);
        }
    }
    reveal_strlit("alt");
    assert("up"@ != "alt"@) by {
        if "up"@.len() == "alt"@.len() {
            assert("up"@[0] != "alt"@[0] || "up"@[1] != "alt"@[1]);
        }
    }
    reveal_strlit("shift");
    assert("up"@ != "shift"@) by {
        if "up"@.len() == "shift"@.len() {
            assert("up"@[0] != "shift"@[0] || "up"@[1] != "shift"@[1]);
        }
    }
    reveal_strlit("cmd");
    assert("up"@ != "cmd"@) by {
        if "up"@.len() == "cmd"@.len() {
            assert("up"@[0] != "cmd"@[0] || "up"@[1] != "cmd"@[1]);
        }
    }
    reveal_strlit("space");
    assert("up"@ != "space"@) by {
        if "up"@.len() == "space"@.len() {
            assert("up"@[0] != "space"@[0] || "up"@[1] != "space"@[1]);
        }
    }
    reveal_strlit("backspace");
    assert("up"@ != "backspace"@) by {
        if "up"@.len() == "backspace"@.len() {
            assert("up"@[0] != "backspace"@[0] || "up"@[1] != "backspace"@[1]);
        }
    }
    reveal_strlit("delete");
    assert("up"@ != "delete"@) by {
        if "up"@.len() == "delete"@.len() {
            assert("up"@[0] != "delete"@[0] || "up"@[1] != "delete"@[1]);
        }
    }
    reveal_strlit("escape");
    assert("up"@ != "escape"@) by {
        if "up"@.len() == "escape"@.len() {
            assert("up"@[0] != "escape"@[0] || "up"@[1] != "escape"@[1]);
        }
    }
    reveal_strlit("enter");
    assert("up"@ != "enter"@) by {
        if "up"@.len() == "enter"@.len() {
            assert("up"@[0] != "enter"@[0] || "up"@[1] != "enter"@[1]);
        }
    }
    reveal_strlit("pagedown");
    assert("up"@ != "pagedown"@) by {
        if "up"@.len() == "pagedown"@.len() {
            assert("up"@[0] != "pagedown"@[0] || "up"@[1] != "pagedown"@[1]);
        }
    }
    reveal_strlit("pageup");
    assert("up"@ != "pageup"@) by {
        if "up"@.len() == "pageup"@.len() {
            assert("up"@[0] != "pageup"@[0] || "up"@[1] != "pageup"@[1]);
        }
    }
    reveal_strlit("left");
    assert("up"@ != "left"@) by {
        if "up"@.len() == "left"@.len() {
            assert("up"@[0] != "left"@[0] || "up"@[1] != "left"@[1]);
        }
    }
    reveal_strlit("right");
    assert("up"@ != "right"@) by {
        if "up"@.len() == "right"@.len() {
            assert("up"@[0] != "right"@[0] || "up"@[1] != "right"@[1]);
        }
    }
}

/// On macOS `down` is written ↓.
proof fn lemma_mac_down()
    ensures
        key_label("down"@, KeyPlatform::Mac) == "↓"@,
{
    reveal_strlit("down");
    reveal_strlit("ctrl");
    assert("down"@ != "ctrl"@) by {
        if "down"@.len() == "ctrl"@.len() {
            assert("down"@[0] != "ctrl"@[0] || "down"@[1] != "ctrl"@[1]);
        }
    }
    reveal_strlit("alt");
    assert("down"@ != "alt"@) by {
        if "down"@.len() == "alt"@.len() {
            assert("down"@[0] != "alt"@[0] || "down"@[1] != "alt"@[1]);
        }
    }
    reveal_strlit("shift");
    assert("down"@ != "shift"@) by {
        if "down"@.len() == "shift"@.len() {
            assert("down"@[0] != "shift"@[0] || "down"@[1] != "shift"@[1]);
        }
    }
    reveal_strlit("cmd");
    assert("down"@ != "cmd"@) by {
        if "down"@.len() == "cmd"@.len() {
            assert("down"@[0] != "cmd"@[0] || "down"@[1] != "cmd"@[1]);
        }
    }
    reveal_strlit("space");
    assert("down"@ != "space"@) by {
        if "down"@.len() == "space"@.len() {
            assert("down"@[0] != "space"@[0] || "down"@[1] != "space"@[1]);
        }
    }
    reveal_strlit("backspace");
    assert("down"@ != "backspace"@) by {
        if "down"@.len() == "backspace"@.len() {
            assert("down"@[0] != "backspace"@[0] || "down"@[1] != "backspace"@[1]);
        }
    }
    reveal_strlit("delete");
    assert("down"@ != "delete"@) by {
        if "down"@.len() == "delete"@.len() {
            assert("down"@[0] != "delete"@[0] || "down"@[1] != "delete"@[1]);
        }
    }
    reveal_strlit("escape");
    assert("down"@ != "escape"@) by {
        if "down"@.len() == "escape"@.len() {
            assert("down"@[0] != "escape"@[0] || "down"@[1] != "escape"@[1]);
        }
    }
    reveal_strlit("enter");
    assert("down"@ != "enter"@) by {
        if "down"@.len() == "enter"@.len() {
            assert("down"@[0] != "enter"@[0] || "down"@[1] != "enter"@[1]);
        }
    }
    reveal_strlit("pagedown");
    assert("down"@ != "pagedown"@) by {
        if "down"@.len() == "pagedown"@.len() {
            assert("down"@[0] != "pagedown"@[0] || "down"@[1] != "pagedown"@[1]);
        }
    }
    reveal_strlit("pageup");
    assert("down"@ != "pageup"@) by {
        if "down"@.len() == "pageup"@.len() {
            assert("down"@[0] != "pageup"@[0] || "down"@[1] != "pageup"@[1]);
        }
    }
    reveal_strlit("left");
    assert("down"@ != "left"@) by {
        if "down"@.len() == "left"@.len() {
            assert("down"@[0] != "left"@[0] || "down"@[1] != "left"@[1]);
        }
    }
    reveal_strlit("right");
    assert("down"@ != "right"@) by {
        if "down"@.len() == "right"@.len() {
            assert("down"@[0] != "right"@[0] || "down"@[1] != "right"@[1]);
        }
    }
    reveal_strlit("up");
    assert("down"@ != "up"@) by {
        if "down"@.len() == "up"@.len() {
            assert("down"@[0] != "up"@[0] || "down"@[1] != "up"@[1]);
        }
    }
}

/// On macOS an arrow key is written as the arrow pointing its way, last
/// after any modifier symbols: `up` as ↑, `down` as ↓, `left` as ←,
/// `right` as →.
pub proof fn law_mac_arrow_keys_point_their_way(m: Modifiers)
    ensures
        keystroke_text(m, "up"@, KeyPlatform::Mac).len() > 0,
        keystroke_text(m, "up"@, KeyPlatform::Mac).last() == '\u{2191}',
        keystroke_text(m, "down"@, KeyPlatform::Mac).len() > 0,
        keystroke_text(m, "down"@, KeyPlatform::Mac).last() == '\u{2193}',
        keystroke_text(m, "left"@, KeyPlatform::Mac).len() > 0,
        keystroke_text(m, "left"@, KeyPlatform::Mac).last() == '\u{2190}',
        keystroke_text(m, "right"@, KeyPlatform::Mac).len() > 0,
        keystroke_text(m, "right"@, KeyPlatform::Mac).last() == '\u{2192}',
{
    reveal_strlit("←");
    reveal_strlit("→");
    reveal_strlit("↑");
    reveal_strlit("↓");
    let mac = KeyPlatform::Mac;
    let parts = modifier_parts(m, mac);
    lemma_mac_up();
    lemma_mac_down();
    lemma_mac_left();
    lemma_mac_right();
    lemma_joined_ends_with_last(parts, "↑"@, ""@);
    lemma_joined_ends_with_last(parts, "↓"@, ""@);
    lemma_joined_ends_with_last(parts, "←"@, ""@);
    lemma_joined_ends_with_last(parts, "→"@, ""@);
}

} // verus!
