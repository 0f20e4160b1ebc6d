//! Word and line selection: the run of like characters, or the line,
//! around an offset of a rope's text.
use vstd::prelude::*;
use std::ops::Range;
use ropey::Rope;
use crate::editor::{
    rope_byte_to_char, rope_char, rope_char_to_byte, rope_len_bytes, rope_len_chars, rope_text,
};
use crate::input::{char_is_whitespace, is_white_space};
use crate::text_offsets::{byte_len, byte_offset, char_floor, lemma_char_floor};
use crate::text_wrapper::{
    lemma_row_of_prefix, lemma_split_head, lemma_split_tail, row_at, row_start, split_lines,
};

verus! {

/// How a character joins its neighbours into a word.
#[derive(Debug, Clone, Copy, PartialEq, Eq, Structural)]
pub enum CharType {
    Word,
    Whitespace,
    Newline,
    Other,
}

/// Letters and digits of ASCII, Latin-1, the Latin Extended blocks,
/// Cyrillic and the combining diacritical marks, and `_`.
pub open spec fn word_char(c: char) -> bool {
    let u = c as u32;
    ||| u == 0x5F
    ||| (0x30 <= u <= 0x39)
    ||| (0x41 <= u <= 0x5A)
    ||| (0x61 <= u <= 0x7A)
    ||| (0xC0 <= u <= 0xFF)
    ||| (0x100 <= u <= 0x17F)
    ||| (0x180 <= u <= 0x24F)
    ||| (0x400 <= u <= 0x4FF)
    ||| (0x1E00 <= u <= 0x1EFF)
    ||| (0x300 <= u <= 0x36F)
}

/// Whether `c` belongs in a word.
pub fn is_word_char(c: char) -> (r: bool)
    ensures
        r == word_char(c),
{
    let u = c as u32;
    u == 0x5F || (0x30 <= u && u <= 0x39) || (0x41 <= u && u <= 0x5A) || (0x61 <= u && u <= 0x7A)
        || (0xC0 <= u && u <= 0xFF) || (0x100 <= u && u <= 0x17F) || (0x180 <= u && u <= 0x24F)
        || (0x400 <= u && u <= 0x4FF) || (0x1E00 <= u && u <= 0x1EFF) || (0x300 <= u && u
        <= 0x36F)
}

/// The type of `c`: a word character, a line break (`\n` or `\r`), other
/// whitespace, or anything else.
pub open spec fn char_type(c: char) -> CharType {
    if word_char(c) {
        CharType::Word
    } else if c == '\n' || c == '\r' {
        CharType::Newline
    } else if is_white_space(c) {
        CharType::Whitespace
    } else {
        CharType::Other
    }
}

/// Words join word characters and whitespace joins whitespace; nothing
/// else joins.
pub open spec fn connectable(t: CharType, c: char) -> bool {
    (t is Word && char_type(c) is Word) || (t is Whitespace && char_type(c) is Whitespace)
}

impl vstd::std_specs::convert::FromSpecImpl<char> for CharType {
    open spec fn obeys_from_spec() -> bool {
        true
    }

    open spec fn from_spec(c: char) -> CharType {
        char_type(c)
    }
}

impl From<char> for CharType {
    fn from(c: char) -> (r: CharType) {
        if is_word_char(c) {
            CharType::Word
        } else if c == '\n' || c == '\r' {
            CharType::Newline
        } else if char_is_whitespace(c) {
            CharType::Whitespace
        } else {
            CharType::Other
        }
    }
}

impl CharType {
    /// Whether `c` joins a run of this type.
    pub fn is_connectable(self, c: char) -> (r: bool)
        ensures
            r == connectable(self, c),
    {
        let other = CharType::from(c);
        match (self, other) {
            (CharType::Word, CharType::Word) => true,
            (CharType::Whitespace, CharType::Whitespace) => true,
            _ => false,
        }
    }
}

/// Characters looked at on each side of the one under the offset.
pub const WORD_SCAN_LIMIT: usize = 128;

/// Number of characters right before `k` that join type `t`, at most `n`.
pub open spec fn joined_before(s: Seq<char>, k: int, t: CharType, n: int) -> int
    decreases n,
{
    if n <= 0 || k <= 0 || k > s.len() || !connectable(t, s[k - 1]) {
        0
    } else {
        1 + joined_before(s, k - 1, t, n - 1)
    }
}

/// Number of characters from `k` on that join type `t`, at most `n`.
pub open spec fn joined_from(s: Seq<char>, k: int, t: CharType, n: int) -> int
    decreases n,
{
    if n <= 0 || k < 0 || k >= s.len() || !connectable(t, s[k]) {
        0
    } else {
        1 + joined_from(s, k + 1, t, n - 1)
    }
}

/// The byte range of the word around byte `offset` of `s` (clamped to
/// the text and taken to the character it falls in): that character and
/// the characters of its type joined to it, up to 128 on each side; none
/// at the end of the text.
pub open spec fn word_range_spec(s: Seq<char>, offset: int) -> Option<Range<usize>> {
    let b = if offset < byte_len(s) {
        offset
    } else {
        byte_len(s) as int
    };
    let k = char_floor(s, b) as int;
    if k >= s.len() {
        None
    } else {
        let t = char_type(s[k]);
        let start = k - joined_before(s, k, t, 128);
        let end = k + 1 + joined_from(s, k + 1, t, 128);
        Some(Range { start: byte_offset(s, start) as usize, end: byte_offset(s, end) as usize })
    }
}

/// The byte range of the word around byte `offset` of `text`.
pub fn word_range(text: &Rope, offset: usize) -> (r: Option<Range<usize>>)
    ensures
        r == word_range_spec(rope_text(*text), offset as int),
{
    let ghost s = rope_text(*text);
    let len = rope_len_bytes(text);
    let b = if offset < len {
        offset
    } else {
        len
    };
    let k = rope_byte_to_char(text, b);
    let n = rope_len_chars(text);
    if k >= n {
        return None;
    }
    proof {
        lemma_char_floor(s, b as int);
    }
    let t = CharType::from(rope_char(text, k));
    let mut start = k;
    let mut taken: usize = 0;
    while taken < WORD_SCAN_LIMIT && start > 0 && t.is_connectable(rope_char(text, start - 1))
        invariant
            s == rope_text(*text),
            n == s.len(),
            k < n,
            t == char_type(s[k as int]),
            start <= k,
            taken == k - start,
            taken <= 128,
            taken + joined_before(s, start as int, t, 128 - taken) == joined_before(
                s,
                k as int,
                t,
                128,
            ),
        decreases start,
    {
        start -= 1;
        taken += 1;
    }
    let mut end = k + 1;
    let mut taken_after: usize = 0;
    while taken_after < WORD_SCAN_LIMIT && end < n && t.is_connectable(rope_char(text, end))
        invariant
            s == rope_text(*text),
            n == s.len(),
            k < n,
            k + 1 <= end <= n,
            taken_after == end - k - 1,
            taken_after <= 128,
            taken_after + joined_from(s, end as int, t, 128 - taken_after) == joined_from(
                s,
                k + 1,
                t,
                128,
            ),
        decreases n - end,
    {
        end += 1;
        taken_after += 1;
    }
    Some(rope_char_to_byte(text, start)..rope_char_to_byte(text, end))
}

proof fn lemma_joined_before_bound(s: Seq<char>, k: int, t: CharType, n: int)
    ensures
        0 <= joined_before(s, k, t, n),
        k >= 0 ==> joined_before(s, k, t, n) <= k,
    decreases n,
{
    if !(n <= 0 || k <= 0 || k > s.len() || !connectable(t, s[k - 1])) {
        lemma_joined_before_bound(s, k - 1, t, n - 1);
    }
}

proof fn lemma_joined_from_bound(s: Seq<char>, k: int, t: CharType, n: int)
    ensures
        0 <= joined_from(s, k, t, n),
        0 <= k <= s.len() ==> k + joined_from(s, k, t, n) <= s.len(),
    decreases n,
{
    if !(n <= 0 || k < 0 || k >= s.len() || !connectable(t, s[k])) {
        lemma_joined_from_bound(s, k + 1, t, n - 1);
    }
}

/// The word found around an offset holds the byte at that offset; there
/// is a word exactly when the offset lies within the text.
pub proof fn law_word_range_holds_offset(s: Seq<char>, offset: int)
    requires
        byte_len(s) <= usize::MAX,
        0 <= offset,
    ensures
        word_range_spec(s, offset) is Some <==> offset < byte_len(s),
        word_range_spec(s, offset) matches Some(r) ==> r.start <= offset < r.end <= byte_len(s),
{
    crate::text_offsets::lemma_offset_end(s);
    let b = if offset < byte_len(s) {
        offset
    } else {
        byte_len(s) as int
    };
    lemma_char_floor(s, b);
    let k = char_floor(s, b) as int;
    if b == byte_len(s) && k < s.len() {
        crate::text_offsets::lemma_offset_mono(s, k + 1, s.len() as int);
    }
    if offset < byte_len(s) && k == s.len() {
        assert(byte_offset(s, k) == byte_len(s));
    }
    if k < s.len() {
        let t = char_type(s[k]);
        lemma_joined_before_bound(s, k, t, 128);
        lemma_joined_from_bound(s, k + 1, t, 128);
        let start = k - joined_before(s, k, t, 128);
        let end = k + 1 + joined_from(s, k + 1, t, 128);
        crate::text_offsets::lemma_offset_mono(s, start, k);
        crate::text_offsets::lemma_offset_mono(s, k + 1, end);
        crate::text_offsets::lemma_offset_mono(s, end, s.len() as int);
    }
}


/// The bytes of the line that holds byte `offset`, without its line break;
/// an offset past the end of the text picks the last line.
pub fn line_range(text: &Rope, offset: usize) -> (r: Range<usize>)
    ensures
        r.start == row_start(rope_text(*text), row_at(rope_text(*text), offset as int) as int),
        r.end == r.start + byte_len(
            split_lines(rope_text(*text))[row_at(rope_text(*text), offset as int) as int],
        ),
{
    let ghost s = rope_text(*text);
    let len = rope_len_bytes(text);
    let b = if offset < len {
        offset
    } else {
        len
    };
    let k = rope_byte_to_char(text, b);
    let n = rope_len_chars(text);
    proof {
        lemma_char_floor(s, b as int);
        lemma_char_floor(s, offset as int);
        if len <= offset {
            crate::text_offsets::lemma_offset_end(s);
            crate::text_offsets::lemma_offset_is_boundary(s, s.len() as int);
        }
    }
    // back to the character after the previous line break
    let mut p = k;
    while p > 0 && rope_char(text, p - 1) != '\n'
        invariant
            s == rope_text(*text),
            k <= n == s.len(),
            p <= k,
            forall|i: int| p <= i < k ==> s[i] != '\n',
        decreases p,
    {
        p -= 1;
    }
    // on to the next line break or the end
    let mut q = k;
    while q < n && rope_char(text, q) != '\n'
        invariant
            s == rope_text(*text),
            k <= q <= n == s.len(),
            forall|i: int| k <= i < q ==> s[i] != '\n',
        decreases n - q,
    {
        q += 1;
    }
    let start = rope_char_to_byte(text, p);
    let end = rope_char_to_byte(text, q);
    proof {
        let a = s.take(k as int);
        let rest = s.skip(k as int);
        lemma_split_tail(a, p as int);
        assert(a.subrange(p as int, k as int) =~= s.subrange(p as int, k as int));
        lemma_split_head(rest, q - k);
        assert(rest.take(q - k) =~= s.subrange(k as int, q as int));
        lemma_row_of_prefix(s, k as int);
        assert(a =~= s.take(p as int) + s.subrange(p as int, k as int));
        crate::text_offsets::lemma_byte_len_concat(s.take(p as int), s.subrange(p as int, k as int));
        assert(s.take(q as int) =~= a + s.subrange(k as int, q as int));
        crate::text_offsets::lemma_byte_len_concat(a, s.subrange(k as int, q as int));
        crate::text_offsets::lemma_byte_len_concat(
            s.subrange(p as int, k as int),
            s.subrange(k as int, q as int),
        );
        crate::text_offsets::lemma_offset_mono(s, p as int, q as int);
    }
    start..end
}

/// An ASCII letter or digit, or `_`.
pub open spec fn ascii_word_char(c: char) -> bool {
    ||| ('0' as u32 <= c as u32 <= '9' as u32)
    ||| ('a' as u32 <= c as u32 <= 'z' as u32)
    ||| ('A' as u32 <= c as u32 <= 'Z' as u32)
    ||| c == '_'
}

proof fn lemma_joined_before_run(s: Seq<char>, k: int, n: int, a: int)
    requires
        0 <= a <= k <= s.len(),
        k - a <= n,
        forall|p: int| a <= p < k ==> char_type(#[trigger] s[p]) is Word,
    ensures
        joined_before(s, k, CharType::Word, n) >= k - a,
    decreases n,
{
    lemma_joined_before_bound(s, k, CharType::Word, n);
    if k > a {
        assert(char_type(s[k - 1]) is Word);
        lemma_joined_before_run(s, k - 1, n - 1, a);
    }
}

proof fn lemma_joined_from_run(s: Seq<char>, k: int, n: int, e: int)
    requires
        0 <= k <= e <= s.len(),
        e - k <= n,
        forall|p: int| k <= p < e ==> char_type(#[trigger] s[p]) is Word,
    ensures
        joined_from(s, k, CharType::Word, n) >= e - k,
    decreases n,
{
    lemma_joined_from_bound(s, k, CharType::Word, n);
    if k < e {
        assert(char_type(s[k]) is Word);
        lemma_joined_from_run(s, k + 1, n - 1, e);
    }
}

/// ASCII letters, digits and `_` are word characters: for a run of them
/// (characters `a..e`), the word found at any character `k` of the run
/// covers the whole run, as far as the scan reaches (128 characters on
/// each side of `k`).
pub proof fn law_ascii_runs_are_one_word(s: Seq<char>, a: int, k: int, e: int)
    requires
        byte_len(s) <= usize::MAX,
        0 <= a <= k < e <= s.len(),
        k - a <= 128,
        e - k - 1 <= 128,
        forall|p: int| a <= p < e ==> ascii_word_char(#[trigger] s[p]),
    ensures
        word_range_spec(s, byte_offset(s, k) as int) matches Some(r) && r.start <= byte_offset(
            s,
            a,
        ) && byte_offset(s, e) <= r.end,
{
    assert forall|p: int| a <= p < e implies char_type(#[trigger] s[p]) is Word by {
        assert(ascii_word_char(s[p]));
    }
    crate::text_offsets::lemma_offset_is_boundary(s, k);
    crate::text_offsets::lemma_offset_mono(s, k, k + 1);
    crate::text_offsets::lemma_offset_mono(s, k + 1, s.len() as int);
    crate::text_offsets::lemma_offset_end(s);
    lemma_joined_before_run(s, k, 128, a);
    lemma_joined_from_run(s, k + 1, 128, e);
    lemma_joined_before_bound(s, k, CharType::Word, 128);
    lemma_joined_from_bound(s, k + 1, CharType::Word, 128);
    let start = k - joined_before(s, k, CharType::Word, 128);
    let end = k + 1 + joined_from(s, k + 1, CharType::Word, 128);
    crate::text_offsets::lemma_offset_mono(s, start, a);
    crate::text_offsets::lemma_offset_mono(s, e, end);
    crate::text_offsets::lemma_offset_mono(s, end, s.len() as int);
}

} // verus!
