//! Hex color input of the color picker: recognising, parsing and printing
//! `#RGB`, `#RGBA`, `#RRGGBB` and `#RRGGBBAA` colors, and the picker's
//! channels.
use vstd::prelude::*;

use crate::input::{byte_slice, is_white_space, char_is_whitespace};
use crate::text_offsets::{byte_len, char_floor, chars_of, is_boundary, str_byte_len, string_from_chars};
use vstd::string::StrSliceExecFns;

verus! {

/// A channel of the picker's Oklch color.
#[derive(Clone, Copy, Debug, PartialEq, Eq, Structural)]
pub enum PickerChannel {
    Lightness,
    Chroma,
    Hue,
    Alpha,
}

impl PickerChannel {
    /// Position of the channel among the picker's sliders.
    pub fn index(self) -> (r: usize)
        ensures
            r == match self {
                PickerChannel::Lightness => 0usize,
                PickerChannel::Chroma => 1,
                PickerChannel::Hue => 2,
                PickerChannel::Alpha => 3,
            },
    {
        match self {
            PickerChannel::Lightness => 0,
            PickerChannel::Chroma => 1,
            PickerChannel::Hue => 2,
            PickerChannel::Alpha => 3,
        }
    }

    /// Element id label of the channel's slider.
    pub fn id_label(self) -> (r: &'static str)
        ensures
            r@ == match self {
                PickerChannel::Lightness => "Lightness"@,
                PickerChannel::Chroma => "Chroma"@,
                PickerChannel::Hue => "Hue"@,
                PickerChannel::Alpha => "Alpha"@,
            },
    {
        match self {
            PickerChannel::Lightness => "Lightness",
            PickerChannel::Chroma => "Chroma",
            PickerChannel::Hue => "Hue",
            PickerChannel::Alpha => "Alpha",
        }
    }

    /// Translation key of the channel's label.
    pub fn i18n_key(self) -> (r: &'static str)
        ensures
            r@ == match self {
                PickerChannel::Lightness => "color_picker.lightness"@,
                PickerChannel::Chroma => "color_picker.chroma"@,
                PickerChannel::Hue => "color_picker.hue"@,
                PickerChannel::Alpha => "color_picker.alpha"@,
            },
    {
        match self {
            PickerChannel::Lightness => "color_picker.lightness",
            PickerChannel::Chroma => "color_picker.chroma",
            PickerChannel::Hue => "color_picker.hue",
            PickerChannel::Alpha => "color_picker.alpha",
        }
    }
}

/// An 8-bit RGBA color.
#[derive(Clone, Copy, Debug, PartialEq, Eq, Structural)]
pub struct Rgba8 {
    pub r: u8,
    pub g: u8,
    pub b: u8,
    pub a: u8,
}

/// Value of an ASCII hex digit.
pub open spec fn hex_value(c: char) -> Option<nat> {
    if '0' <= c <= '9' {
        Some((c as u32 - '0' as u32) as nat)
    } else if 'a' <= c <= 'f' {
        Some((c as u32 - 'a' as u32 + 10) as nat)
    } else if 'A' <= c <= 'F' {
        Some((c as u32 - 'A' as u32 + 10) as nat)
    } else {
        None
    }
}

pub open spec fn is_hex_digit(c: char) -> bool {
    hex_value(c) is Some
}

/// Number written by the hex digits `s` (when they all are).
pub open spec fn hex_number(s: Seq<char>) -> nat
    decreases s.len(),
{
    if s.len() == 0 {
        0
    } else {
        hex_number(s.drop_last()) * 16 + match hex_value(s.last()) {
            Some(v) => v,
            None => 0,
        }
    }
}

pub open spec fn all_hex(s: Seq<char>) -> bool {
    forall|i: int| 0 <= i < s.len() ==> is_hex_digit(#[trigger] s[i])
}

/// `u8::from_str_radix(s, 16)`: an optional leading `+` (not alone), then
/// hex digits whose value fits in a byte.
pub open spec fn parse_byte_radix16(s: Seq<char>) -> Option<u8> {
    let digits = if s.len() > 1 && s[0] == '+' {
        s.drop_first()
    } else {
        s
    };
    if s.len() == 0 || !all_hex(digits) || hex_number(digits) > 255 {
        None
    } else {
        Some(hex_number(digits) as u8)
    }
}

/// `s` without leading and trailing whitespace.
pub open spec fn trimmed(s: Seq<char>) -> Seq<char> {
    s.subrange(leading_space(s, 0), s.len() - trailing_space(s, 0))
}

/// Number of whitespace characters starting `s` from index `i`.
pub open spec fn leading_space(s: Seq<char>, i: int) -> int
    decreases s.len() - i,
{
    if 0 <= i < s.len() && is_white_space(s[i]) {
        leading_space(s, i + 1)
    } else {
        i
    }
}

/// Number of whitespace characters ending `s`, not counting the last `j`.
pub open spec fn trailing_space(s: Seq<char>, j: int) -> int
    decreases s.len() - j,
{
    if 0 <= j < s.len() && is_white_space(s[s.len() - 1 - j]) && s.len() - 1 - j >= leading_space(
        s,
        0,
    ) {
        trailing_space(s, j + 1)
    } else {
        j
    }
}

/// The hex digits of a color input: trimmed, without one leading `#`.
pub open spec fn hex_digits_of(input: Seq<char>) -> Seq<char> {
    let t = trimmed(input);
    if t.len() > 0 && t[0] == '#' {
        t.drop_first()
    } else {
        t
    }
}

proof fn lemma_leading_space(s: Seq<char>, i: int)
    requires
        0 <= i <= s.len(),
    ensures
        i <= leading_space(s, i) <= s.len(),
    decreases s.len() - i,
{
    if 0 <= i < s.len() && is_white_space(s[i]) {
        lemma_leading_space(s, i + 1);
    }
}

proof fn lemma_trailing_space(s: Seq<char>, j: int)
    requires
        0 <= j,
        leading_space(s, 0) <= s.len() - j,
    ensures
        j <= trailing_space(s, j) <= s.len() - leading_space(s, 0),
    decreases s.len() - j,
{
    if 0 <= j < s.len() && is_white_space(s[s.len() - 1 - j]) && s.len() - 1 - j >= leading_space(
        s,
        0,
    ) {
        lemma_trailing_space(s, j + 1);
    }
}

/// The hex digits of a color input: the input trimmed of whitespace,
/// without one leading `#`.
pub fn hex_digits(input: &str) -> (r: &str)
    ensures
        r@ == hex_digits_of(input@),
{
    let cs = chars_of(input);
    let n = cs.len();
    let mut start: usize = 0;
    while start < n && char_is_whitespace(cs[start])
        invariant
            cs@ == input@,
            n == cs@.len(),
            start <= n,
            leading_space(cs@, start as int) == leading_space(cs@, 0),
        decreases n - start,
    {
        start += 1;
    }
    proof {
        lemma_leading_space(cs@, 0);
    }
    let mut trail: usize = 0;
    while trail < n && char_is_whitespace(cs[n - 1 - trail]) && n - 1 - trail >= start
        invariant
            cs@ == input@,
            n == cs@.len(),
            start == leading_space(cs@, 0),
            start <= n,
            trail <= n - start,
            trailing_space(cs@, trail as int) == trailing_space(cs@, 0),
        decreases n - trail,
    {
        trail += 1;
    }
    proof {
        lemma_trailing_space(cs@, 0);
    }
    let end = n - trail;
    if start < end && cs[start] == '#' {
        input.substring_char(start + 1, end)
    } else {
        input.substring_char(start, end)
    }
}

/// Value of a character as a hex digit.
fn hex_digit_value(c: char) -> (r: Option<u8>)
    ensures
        r matches Some(v) ==> hex_value(c) == Some(v as nat),
        r is None ==> hex_value(c) is None,
{
    if '0' <= c && c <= '9' {
        Some((c as u32 - '0' as u32) as u8)
    } else if 'a' <= c && c <= 'f' {
        Some((c as u32 - 'a' as u32 + 10) as u8)
    } else if 'A' <= c && c <= 'F' {
        Some((c as u32 - 'A' as u32 + 10) as u8)
    } else {
        None
    }
}

/// Non-empty and made of ASCII hex digits only.
pub fn is_hex_digits(text: &str) -> (r: bool)
    ensures
        r == (text@.len() > 0 && all_hex(text@)),
{
    let cs = chars_of(text);
    if cs.len() == 0 {
        return false;
    }
    let mut i: usize = 0;
    while i < cs.len()
        invariant
            cs@ == text@,
            i <= cs@.len(),
            forall|j: int| 0 <= j < i ==> is_hex_digit(#[trigger] cs@[j]),
        decreases cs@.len() - i,
    {
        if hex_digit_value(cs[i]).is_none() {
            return false;
        }
        i += 1;
    }
    true
}

/// A complete `RRGGBBAA` color (with optional `#` and surrounding spaces).
pub fn is_complete_eight_hex_input(input: &str) -> (r: bool)
    ensures
        r == (byte_len(hex_digits_of(input@)) == 8 && hex_digits_of(input@).len() > 0 && all_hex(
            hex_digits_of(input@),
        )),
{
    let hex = hex_digits(input);
    proof {
        lemma_hex_digits_len(input@);
    }
    let len = str_byte_len(hex);
    len == 8 && is_hex_digits(hex)
}

/// A color that Enter commits: 3, 4, 6 or 8 hex digits.
pub fn is_enter_committable_hex_input(input: &str) -> (r: bool)
    ensures
        r == ({
            let n = byte_len(hex_digits_of(input@));
            n == 3 || n == 4 || n == 6 || n == 8
        } && hex_digits_of(input@).len() > 0 && all_hex(hex_digits_of(input@))),
{
    let hex = hex_digits(input);
    proof {
        lemma_hex_digits_len(input@);
    }
    let len = str_byte_len(hex);
    (len == 3 || len == 4 || len == 6 || len == 8) && is_hex_digits(hex)
}

/// `u8::from_str_radix(input, 16)`.
pub fn parse_hex_byte(input: &str) -> (r: Option<u8>)
    ensures
        r == parse_byte_radix16(input@),
{
    let cs = chars_of(input);
    if cs.len() == 0 {
        return None;
    }
    let start: usize = if cs.len() > 1 && cs[0] == '+' {
        1
    } else {
        0
    };
    let ghost digits = if cs@.len() > 1 && cs@[0] == '+' {
        cs@.drop_first()
    } else {
        cs@
    };
    assert(digits =~= cs@.subrange(start as int, cs@.len() as int));
    assert(cs@.subrange(start as int, start as int) =~= Seq::<char>::empty());
    let mut value: u32 = 0;
    let mut i = start;
    while i < cs.len()
        invariant
            cs@ == input@,
            start <= i <= cs@.len(),
            cs@.len() > 0,
            digits == cs@.subrange(start as int, cs@.len() as int),
            digits == (if cs@.len() > 1 && cs@[0] == '+' {
                cs@.drop_first()
            } else {
                cs@
            }),
            all_hex(cs@.subrange(start as int, i as int)),
            value == hex_number(cs@.subrange(start as int, i as int)),
            value <= 255,
        decreases cs@.len() - i,
    {
        let ghost prefix = cs@.subrange(start as int, i + 1);
        assert(prefix.drop_last() =~= cs@.subrange(start as int, i as int));
        match hex_digit_value(cs[i]) {
            Some(v) => {
                value = value * 16 + v as u32;
                assert(prefix.last() == cs@[i as int]);
                assert(value == hex_number(prefix));
                if value > 255 {
                    proof {
                        assert(digits.take(i + 1 - start) =~= prefix);
                        if all_hex(digits) {
                            lemma_hex_number_grows(digits, i + 1 - start);
                            assert(hex_number(digits) > 255);
                        }
                        assert(!all_hex(digits) || hex_number(digits) > 255);
                        assert(parse_byte_radix16(cs@) is None);
                    }
                    return None;
                }
            },
            None => {
                proof {
                    let j = (i - start) as int;
                    assert(digits[j] == cs@[i as int]);
                    assert(!is_hex_digit(digits[j]));
                    assert(!all_hex(digits));
                    assert(parse_byte_radix16(cs@) is None);
                }
                return None;
            },
        }
        i += 1;
    }
    assert(cs@.subrange(start as int, cs@.len() as int) =~= digits);
    Some(value as u8)
}

/// A longer run of hex digits writes at least as large a number.
proof fn lemma_hex_number_grows(s: Seq<char>, k: int)
    requires
        0 <= k <= s.len(),
        all_hex(s),
    ensures
        hex_number(s.take(k)) <= hex_number(s),
    decreases s.len() - k,
{
    if k < s.len() {
        lemma_hex_number_grows(s, k + 1);
        assert(s.take(k + 1).drop_last() =~= s.take(k));
    } else {
        assert(s.take(k) =~= s);
    }
}

/// The hex digits of an input are no longer than the input.
proof fn lemma_hex_digits_len(input: Seq<char>)
    ensures
        byte_len(hex_digits_of(input)) <= byte_len(input),
{
    lemma_leading_space(input, 0);
    lemma_trailing_space(input, 0);
    let i = leading_space(input, 0);
    let j = input.len() - trailing_space(input, 0);
    let t = input.subrange(i, j);
    assert(input =~= input.take(i) + t + input.skip(j));
    crate::text_offsets::lemma_byte_len_concat(input.take(i), t);
    crate::text_offsets::lemma_byte_len_concat(input.take(i) + t, input.skip(j));
    if t.len() > 0 && t[0] == '#' {
        assert(t =~= seq![t[0]] + t.drop_first());
        crate::text_offsets::lemma_byte_len_concat(seq![t[0]], t.drop_first());
    }
}

/// The byte a character becomes when cast with `as u8`.
pub open spec fn low_byte(c: char) -> u8 {
    (c as u32 % 256) as u8
}

/// Parses the two characters `left right` as a hex byte, each cast to a
/// byte first; `None` unless both bytes are ASCII and form a byte in hex.
pub fn parse_hex_byte_pair(left: char, right: char) -> (r: Option<u8>)
    ensures
        r == (if low_byte(left) < 0x80 && low_byte(right) < 0x80 {
            parse_byte_radix16(seq![low_byte(left) as char, low_byte(right) as char])
        } else {
            None
        }),
{
    let l = (left as u32 % 256) as u8;
    let r = (right as u32 % 256) as u8;
    if l >= 0x80 || r >= 0x80 {
        return None;
    }
    let text = string_from_chars(&[l as char, r as char]);
    assert(text@ =~= seq![l as char, r as char]);
    parse_hex_byte(text.as_str())
}

/// Whether the two-digit groups of a six- or eight-digit color that the
/// parser reaches are sliced at character boundaries: the first group
/// always, each further group only when the groups before it parsed.
pub open spec fn pairs_on_boundaries(hex: Seq<char>) -> bool {
    (byte_len(hex) == 6 || byte_len(hex) == 8) ==> {
        &&& is_boundary(hex, 2)
        &&& (pair_at(hex, 0) is Some ==> is_boundary(hex, 4))
        &&& (pair_at(hex, 0) is Some && pair_at(hex, 2) is Some ==> is_boundary(hex, 6))
    }
}

/// The two-digit group of a six- or eight-digit color starting at byte `at`.
pub open spec fn pair_at(hex: Seq<char>, at: int) -> Option<u8> {
    parse_byte_radix16(byte_slice(hex, at, at + 2))
}

/// The color a hex input stands for.
pub open spec fn hex_color(input: Seq<char>) -> Option<Rgba8> {
    let hex = hex_digits_of(input);
    let n = byte_len(hex);
    let short = |c: char| parse_hex_pair_spec(c, c);
    if hex.len() == 0 {
        None
    } else if n == 3 {
        if hex.len() < 3 {
            None
        } else {
            match (short(hex[0]), short(hex[1]), short(hex[2])) {
                (Some(r), Some(g), Some(b)) => Some(Rgba8 { r, g, b, a: 255 }),
                _ => None,
            }
        }
    } else if n == 4 {
        if hex.len() < 4 {
            None
        } else {
            match (short(hex[0]), short(hex[1]), short(hex[2]), short(hex[3])) {
                (Some(r), Some(g), Some(b), Some(a)) => Some(Rgba8 { r, g, b, a }),
                _ => None,
            }
        }
    } else if n == 6 {
        match (pair_at(hex, 0), pair_at(hex, 2), pair_at(hex, 4)) {
            (Some(r), Some(g), Some(b)) => Some(Rgba8 { r, g, b, a: 255 }),
            _ => None,
        }
    } else if n == 8 {
        match (pair_at(hex, 0), pair_at(hex, 2), pair_at(hex, 4), pair_at(hex, 6)) {
            (Some(r), Some(g), Some(b), Some(a)) => Some(Rgba8 { r, g, b, a }),
            _ => None,
        }
    } else {
        None
    }
}

/// What `parse_hex_byte_pair` returns.
pub open spec fn parse_hex_pair_spec(left: char, right: char) -> Option<u8> {
    if low_byte(left) < 0x80 && low_byte(right) < 0x80 {
        parse_byte_radix16(seq![low_byte(left) as char, low_byte(right) as char])
    } else {
        None
    }
}

/// The characters between two byte boundaries of a text.
fn slice_between(text: &str, a: usize, b: usize) -> (r: String)
    requires
        byte_len(text@) <= usize::MAX,
        a <= b,
        is_boundary(text@, a as int),
        is_boundary(text@, b as int),
    ensures
        r@ == byte_slice(text@, a as int, b as int),
{
    crate::input::slice_text(text, a, b)
}

/// Parses a `#RGB`, `#RGBA`, `#RRGGBB` or `#RRGGBBAA` color (the `#` and
/// surrounding whitespace optional), one digit doubled for short forms and
/// alpha `FF` when absent.
pub fn parse_hex_color(input: &str) -> (r: Option<Rgba8>)
    requires
        pairs_on_boundaries(hex_digits_of(input@)),
    ensures
        r == hex_color(input@),
{
    let hex = hex_digits(input);
    proof {
        lemma_hex_digits_len(input@);
    }
    let cs = chars_of(hex);
    if cs.len() == 0 {
        return None;
    }
    let n = str_byte_len(hex);
    proof {
        crate::text_offsets::lemma_encode_len(hex@);
    }
    if n == 3 || n == 4 {
        if cs.len() < n {
            return None;
        }
        let r = match parse_hex_byte_pair(cs[0], cs[0]) {
            Some(v) => v,
            None => return None,
        };
        let g = match parse_hex_byte_pair(cs[1], cs[1]) {
            Some(v) => v,
            None => return None,
        };
        let b = match parse_hex_byte_pair(cs[2], cs[2]) {
            Some(v) => v,
            None => return None,
        };
        if n == 3 {
            return Some(Rgba8 { r, g, b, a: 255 });
        }
        let a = match parse_hex_byte_pair(cs[3], cs[3]) {
            Some(v) => v,
            None => return None,
        };
        return Some(Rgba8 { r, g, b, a });
    }
    if n == 6 || n == 8 {
        proof {
            crate::input::lemma_end_boundary(hex@);
            assert(hex@.take(0) =~= Seq::<char>::empty());
            crate::text_offsets::lemma_offset_is_boundary(hex@, 0);
        }
        let r = match parse_hex_byte(slice_between(hex, 0, 2).as_str()) {
            Some(v) => v,
            None => return None,
        };
        let g = match parse_hex_byte(slice_between(hex, 2, 4).as_str()) {
            Some(v) => v,
            None => return None,
        };
        let b = match parse_hex_byte(slice_between(hex, 4, 6).as_str()) {
            Some(v) => v,
            None => return None,
        };
        if n == 6 {
            return Some(Rgba8 { r, g, b, a: 255 });
        }
        let a = match parse_hex_byte(slice_between(hex, 6, 8).as_str()) {
            Some(v) => v,
            None => return None,
        };
        return Some(Rgba8 { r, g, b, a });
    }
    None
}

/// Parses a complete `RRGGBBAA` input; `None` for anything else.
pub fn parse_complete_eight_hex_color(input: &str) -> (r: Option<Rgba8>)
    ensures
        r == (if byte_len(hex_digits_of(input@)) == 8 && hex_digits_of(input@).len() > 0
            && all_hex(hex_digits_of(input@)) {
            hex_color(input@)
        } else {
            None
        }),
{
    let hex = hex_digits(input);
    proof {
        lemma_hex_digits_len(input@);
    }
    let n = str_byte_len(hex);
    proof {
        crate::text_offsets::lemma_encode_len(hex@);
    }
    if n != 8 || !is_hex_digits(hex) {
        return None;
    }
    proof {
        lemma_hex_pairs_sliceable(hex@);
    }
    parse_hex_color(input)
}

/// Upper-case hex digit of a nibble.
pub open spec fn hex_digit_upper(n: u8) -> char {
    if n < 10 {
        ((n + '0' as u32) as u32) as char
    } else {
        ((n - 10 + 'A' as u32) as u32) as char
    }
}

/// Two upper-case hex digits of a byte.
pub open spec fn hex_byte_upper(b: u8) -> Seq<char> {
    seq![hex_digit_upper(b / 16), hex_digit_upper(b % 16)]
}

fn nibble_char(n: u8) -> (r: char)
    requires
        n < 16,
    ensures
        r == hex_digit_upper(n),
{
    if n < 10 {
        ((n as u32) + ('0' as u32)) as u8 as char
    } else {
        ((n as u32) - 10 + ('A' as u32)) as u8 as char
    }
}

/// `#RRGGBBAA` in upper-case hex.
pub fn rgba_to_hex(rgba: Rgba8) -> (r: String)
    ensures
        r@ == seq!['#'] + hex_byte_upper(rgba.r) + hex_byte_upper(rgba.g) + hex_byte_upper(rgba.b)
            + hex_byte_upper(rgba.a),
{
    let v = [
        '#',
        nibble_char(rgba.r / 16),
        nibble_char(rgba.r % 16),
        nibble_char(rgba.g / 16),
        nibble_char(rgba.g % 16),
        nibble_char(rgba.b / 16),
        nibble_char(rgba.b % 16),
        nibble_char(rgba.a / 16),
        nibble_char(rgba.a % 16),
    ];
    let s = string_from_chars(&v);
    assert(s@ =~= seq!['#'] + hex_byte_upper(rgba.r) + hex_byte_upper(rgba.g) + hex_byte_upper(
        rgba.b,
    ) + hex_byte_upper(rgba.a));
    s
}

/// Hex digits are ASCII, so every character index is a byte boundary.
proof fn lemma_hex_offsets(s: Seq<char>, k: int)
    requires
        all_hex(s),
        0 <= k <= s.len(),
    ensures
        crate::text_offsets::byte_offset(s, k) == k,
        is_boundary(s, k),
    decreases k,
{
    if k > 0 {
        lemma_hex_offsets(s, k - 1);
        crate::text_offsets::lemma_offset_succ(s, k - 1);
        assert(is_hex_digit(s[k - 1]));
    } else {
        assert(s.take(0) =~= Seq::<char>::empty());
    }
    crate::text_offsets::lemma_offset_is_boundary(s, k);
}

/// The two-digit groups of hex digits can always be sliced out.
proof fn lemma_hex_pairs_sliceable(hex: Seq<char>)
    requires
        all_hex(hex),
    ensures
        pairs_on_boundaries(hex),
{
    lemma_hex_offsets(hex, hex.len() as int);
    crate::text_offsets::lemma_offset_end(hex);
    if hex.len() >= 2 {
        lemma_hex_offsets(hex, 2);
    }
    if hex.len() >= 4 {
        lemma_hex_offsets(hex, 4);
    }
    if hex.len() >= 6 {
        lemma_hex_offsets(hex, 6);
    }
}

/// What the hex input reports to the picker.
#[derive(Debug, Clone, Copy, PartialEq, Eq, Structural)]
pub enum HexInputEvent {
    /// The text changed.
    Change,
    /// Enter was pressed.
    PressEnter,
    /// Anything else.
    Other,
}

/// Keeps the picker's hex input and its color in step: which changes came
/// from the picker itself, and whether the user is mid-edit.
pub struct HexInputSync {
    pending_programmatic: usize,
    dirty: bool,
}

impl HexInputSync {
    pub closed spec fn pending(&self) -> usize {
        self.pending_programmatic
    }

    pub closed spec fn dirty_spec(&self) -> bool {
        self.dirty
    }

    /// Nothing pending and nothing being edited.
    pub fn new() -> (r: Self)
        ensures
            r.pending() == 0,
            !r.dirty_spec(),
    {
        HexInputSync { pending_programmatic: 0, dirty: false }
    }

    /// Whether the user has edited the text since it last showed the color.
    pub fn is_dirty(&self) -> (r: bool)
        ensures
            r == self.dirty_spec(),
    {
        self.dirty
    }

    /// Number of text changes still expected from the picker's own writes.
    pub fn pending_programmatic_events(&self) -> (r: usize)
        ensures
            r == self.pending(),
    {
        self.pending_programmatic
    }

    /// Whether to write `expected`, the color's hex text, into the input
    /// that holds `current`: not when it already does (the edit is then
    /// over), nor while the user is editing; a write is counted so that its
    /// change event is not taken for the user's.
    pub fn sync_display(&mut self, current: &str, expected: &str) -> (write: bool)
        ensures
            current@ == expected@ ==> !write && !final(self).dirty_spec() && final(self).pending()
                == old(self).pending(),
            current@ != expected@ && old(self).dirty_spec() ==> !write && *final(self)
                == *old(self),
            current@ != expected@ && !old(self).dirty_spec() ==> write
                && !final(self).dirty_spec() && final(self).pending() == (if old(self).pending()
                == usize::MAX {
                usize::MAX as int
            } else {
                old(self).pending() + 1
            }),
    {
        if crate::text_offsets::str_equal(current, expected) {
            self.dirty = false;
            return false;
        }
        if self.dirty {
            return false;
        }
        self.pending_programmatic = self.pending_programmatic.saturating_add(1);
        true
    }

    /// An event of the hex input holding `input`: the color it commits, if
    /// any. A change the picker wrote itself is skipped; a user change marks
    /// the input edited and commits a complete eight-digit color; Enter
    /// commits any three-, four-, six- or eight-digit color. A committed
    /// color ends the edit.
    pub fn on_hex_input_event(&mut self, event: HexInputEvent, input: &str) -> (r: Option<Rgba8>)
        ensures
            match event {
                HexInputEvent::Change => if old(self).pending() > 0 {
                    r is None && final(self).pending() == old(self).pending() - 1
                        && final(self).dirty_spec() == old(self).dirty_spec()
                } else {
                    let hex = hex_digits_of(input@);
                    let complete = byte_len(hex) == 8 && hex.len() > 0 && all_hex(hex);
                    &&& r == (if complete { hex_color(input@) } else { None })
                    &&& final(self).pending() == 0
                    &&& final(self).dirty_spec() == (r is None)
                },
                HexInputEvent::PressEnter => {
                    let hex = hex_digits_of(input@);
                    let n = byte_len(hex);
                    let committable = (n == 3 || n == 4 || n == 6 || n == 8) && hex.len() > 0
                        && all_hex(hex);
                    &&& r == (if committable { hex_color(input@) } else { None })
                    &&& final(self).pending() == old(self).pending()
                    &&& final(self).dirty_spec() == (if r is Some {
                        false
                    } else {
                        old(self).dirty_spec()
                    })
                },
                HexInputEvent::Other => r is None && *final(self) == *old(self),
            },
    {
        let parsed = match event {
            HexInputEvent::Change => {
                if self.pending_programmatic > 0 {
                    self.pending_programmatic = self.pending_programmatic - 1;
                    return None;
                }
                self.dirty = true;
                if !is_complete_eight_hex_input(input) {
                    return None;
                }
                proof {
                    lemma_hex_pairs_sliceable(hex_digits_of(input@));
                }
                parse_complete_eight_hex_color(input)
            },
            HexInputEvent::PressEnter => {
                if !is_enter_committable_hex_input(input) {
                    return None;
                }
                proof {
                    lemma_hex_pairs_sliceable(hex_digits_of(input@));
                }
                parse_hex_color(input)
            },
            HexInputEvent::Other => {
                return None;
            },
        };
        match parsed {
            Some(rgba) => {
                self.dirty = false;
                Some(rgba)
            },
            None => None,
        }
    }
}

/// The text `rgba_to_hex` writes for a color.
pub open spec fn hex_text(c: Rgba8) -> Seq<char> {
    seq!['#'] + hex_byte_upper(c.r) + hex_byte_upper(c.g) + hex_byte_upper(c.b) + hex_byte_upper(
        c.a,
    )
}

proof fn lemma_upper_digit(n: u8)
    requires
        n < 16,
    ensures
        is_hex_digit(hex_digit_upper(n)),
        hex_value(hex_digit_upper(n)) == Some(n as nat),
        !is_white_space(hex_digit_upper(n)),
        hex_digit_upper(n) != '+',
        hex_digit_upper(n) != '#',
{
}

/// A byte written as two hex digits reads back as that byte.
proof fn lemma_pair_reads_back(b: u8)
    ensures
        parse_byte_radix16(hex_byte_upper(b)) == Some(b),
{
    let hi = b / 16;
    let lo = b % 16;
    lemma_upper_digit(hi);
    lemma_upper_digit(lo);
    let s = hex_byte_upper(b);
    assert(all_hex(s));
    assert(s.drop_last() =~= seq![hex_digit_upper(hi)]);
    assert(s.drop_last().drop_last() =~= Seq::<char>::empty());
    let t = seq![hex_digit_upper(hi)];
    assert(t.drop_last() =~= Seq::<char>::empty());
    assert(hex_number(Seq::<char>::empty()) == 0);
    assert(t.last() == hex_digit_upper(hi));
    assert(hex_number(t) == hi);
    assert(hex_number(s) == hi * 16 + lo);
}

/// The hex text of a color parses back to the color.
pub proof fn law_hex_text_round_trips(c: Rgba8)
    ensures
        hex_color(hex_text(c)) == Some(c),
{
    let s = hex_text(c);
    let h = s.drop_first();
    assert(s.len() == 9);
    assert forall|i: int| 1 <= i < 9 implies is_hex_digit(#[trigger] s[i]) && !is_white_space(
        s[i],
    ) by {
        lemma_upper_digit(c.r / 16);
        lemma_upper_digit(c.r % 16);
        lemma_upper_digit(c.g / 16);
        lemma_upper_digit(c.g % 16);
        lemma_upper_digit(c.b / 16);
        lemma_upper_digit(c.b % 16);
        lemma_upper_digit(c.a / 16);
        lemma_upper_digit(c.a % 16);
    }
    assert(!is_white_space(s[0]));
    assert(leading_space(s, 0) == 0);
    assert(!is_white_space(s[8]));
    assert(trailing_space(s, 0) == 0);
    assert(trimmed(s) =~= s);
    assert(hex_digits_of(s) == h);
    assert(all_hex(h)) by {
        assert forall|i: int| 0 <= i < h.len() implies is_hex_digit(#[trigger] h[i]) by {
            assert(h[i] == s[i + 1]);
        }
    }
    lemma_hex_offsets(h, 8);
    crate::text_offsets::lemma_offset_end(h);
    assert(byte_len(h) == 8);
    assert forall|k: int| 0 <= k <= 8 implies char_floor(h, k) == k by {
        lemma_hex_offsets(h, k);
        crate::text_offsets::lemma_offset_is_boundary(h, k);
    }
    lemma_pair_reads_back(c.r);
    lemma_pair_reads_back(c.g);
    lemma_pair_reads_back(c.b);
    lemma_pair_reads_back(c.a);
    assert(byte_slice(h, 0, 2) =~= hex_byte_upper(c.r));
    assert(byte_slice(h, 2, 4) =~= hex_byte_upper(c.g));
    assert(byte_slice(h, 4, 6) =~= hex_byte_upper(c.b));
    assert(byte_slice(h, 6, 8) =~= hex_byte_upper(c.a));
}


/// The upper-case form of an ASCII hex letter; other characters stay.
pub open spec fn upper_hex(c: char) -> char {
    if 'a' <= c <= 'f' {
        ((c as u32) - 32) as char
    } else {
        c
    }
}

proof fn lemma_digit_writes_back(c: char)
    requires
        is_hex_digit(c),
    ensures
        hex_value(c).unwrap() < 16,
        hex_digit_upper(hex_value(c).unwrap() as u8) == upper_hex(c),
{
}

/// Two hex digits read as a byte and written back give the digits in upper
/// case.
proof fn lemma_pair_writes_back(d0: char, d1: char)
    requires
        is_hex_digit(d0),
        is_hex_digit(d1),
    ensures
        parse_byte_radix16(seq![d0, d1]) is Some,
        hex_byte_upper(parse_byte_radix16(seq![d0, d1]).unwrap()) == seq![
            upper_hex(d0),
            upper_hex(d1),
        ],
{
    lemma_digit_writes_back(d0);
    lemma_digit_writes_back(d1);
    let v0 = hex_value(d0).unwrap();
    let v1 = hex_value(d1).unwrap();
    let s = seq![d0, d1];
    assert(all_hex(s));
    let t = seq![d0];
    assert(s.drop_last() =~= t);
    assert(t.drop_last() =~= Seq::<char>::empty());
    assert(hex_number(Seq::<char>::empty()) == 0);
    assert(hex_number(t) == v0);
    assert(hex_number(s) == v0 * 16 + v1);
    let b = (v0 * 16 + v1) as u8;
    assert(b / 16 == v0 && b % 16 == v1) by (nonlinear_arith)
        requires
            v0 < 16,
            v1 < 16,
            b == v0 * 16 + v1,
    ;
}

/// Parsing eight hex digits and writing the color back gives the same
/// digits, in upper case, after a `#`.
#[verifier::rlimit(50)]
pub proof fn law_hex_digits_write_back_upper(input: Seq<char>)
    requires
        byte_len(hex_digits_of(input)) == 8,
        all_hex(hex_digits_of(input)),
    ensures
        hex_color(input) is Some,
        hex_text(hex_color(input).unwrap()) == seq!['#'] + hex_digits_of(input).map_values(
            |d: char| upper_hex(d),
        ),
{
    let h = hex_digits_of(input);
    lemma_hex_offsets(h, h.len() as int);
    crate::text_offsets::lemma_offset_end(h);
    assert(h.take(h.len() as int) =~= h);
    assert(h.len() == 8);
    assert forall|k: int| 0 <= k <= 8 implies char_floor(h, k) == k by {
        lemma_hex_offsets(h, k);
        crate::text_offsets::lemma_offset_is_boundary(h, k);
    }
    assert(byte_slice(h, 0, 2) =~= seq![h[0], h[1]]);
    assert(byte_slice(h, 2, 4) =~= seq![h[2], h[3]]);
    assert(byte_slice(h, 4, 6) =~= seq![h[4], h[5]]);
    assert(byte_slice(h, 6, 8) =~= seq![h[6], h[7]]);
    assert(is_hex_digit(h[0]) && is_hex_digit(h[1]) && is_hex_digit(h[2]) && is_hex_digit(h[3]));
    assert(is_hex_digit(h[4]) && is_hex_digit(h[5]) && is_hex_digit(h[6]) && is_hex_digit(h[7]));
    lemma_pair_writes_back(h[0], h[1]);
    lemma_pair_writes_back(h[2], h[3]);
    lemma_pair_writes_back(h[4], h[5]);
    lemma_pair_writes_back(h[6], h[7]);
    assert(hex_text(hex_color(input).unwrap()) =~= seq!['#'] + h.map_values(
        |d: char| upper_hex(d),
    ));
}

} // verus!
