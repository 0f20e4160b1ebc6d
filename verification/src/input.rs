//! Single-line text input: text, selection, IME composition and undo/redo.
//!
//! Offsets in the text are byte offsets into its UTF-8 encoding; the IME
//! speaks UTF-16 offsets. The state keeps every offset it stores either on a
//! character boundary or past the end of the text.
use core::ops::Range;
use regex::Regex;
use vstd::prelude::*;

use crate::text_offsets::{
    byte_len, byte_offset, char_floor, chars_of, is_boundary, lemma_char_floor,
    lemma_char_floor_unique, lemma_offset_end, lemma_offset_is_boundary, lemma_offset_mono,
    lemma_offset_succ, lemma_utf16_floor, lemma_utf16_floor_of_offset, str_byte_len, utf16_floor,
    utf16_offset, TextIndex,
};

verus! {

/// A selection: `start` is the anchor, `end` the caret.
#[derive(Debug, Copy, Clone, PartialEq, Eq, Structural)]
pub struct Selection {
    pub start: usize,
    pub end: usize,
}

impl Default for Selection {
    fn default() -> (r: Self)
        ensures
            r.start == 0 && r.end == 0,
    {
        Selection { start: 0, end: 0 }
    }
}

pub open spec fn min_usize(a: usize, b: usize) -> usize {
    if a <= b {
        a
    } else {
        b
    }
}

pub open spec fn max_usize(a: usize, b: usize) -> usize {
    if a <= b {
        b
    } else {
        a
    }
}

impl Selection {
    pub open spec fn new_spec(start: usize, end: usize) -> Selection {
        Selection { start, end }
    }

    pub fn new(start: usize, end: usize) -> (r: Self)
        ensures
            r.start == start,
            r.end == end,
    {
        Selection { start, end }
    }

    pub fn is_empty(&self) -> (r: bool)
        ensures
            r == (self.start == self.end),
    {
        self.start == self.end
    }

    /// The selected range with its ends in increasing order.
    pub fn normalized(&self) -> (r: Range<usize>)
        ensures
            r.start == min_usize(self.start, self.end),
            r.end == max_usize(self.start, self.end),
    {
        if self.start <= self.end {
            self.start..self.end
        } else {
            self.end..self.start
        }
    }
}

/// Events an input emits.
#[derive(Clone)]
pub enum InputEvent {
    Change,
    PressEnter { secondary: bool },
    Focus,
    Blur,
}

/// Saved text and selection, for undo and redo.
#[derive(Clone)]
pub struct Snapshot {
    pub text: String,
    pub selection: Selection,
}

/// Maximum number of undo steps kept.
pub const UNDO_LIMIT: usize = 256;

/// `Unicode White_Space` (the characters `char::is_whitespace` accepts).
pub open spec fn is_white_space(c: char) -> bool {
    let u = c as u32;
    (0x9 <= u <= 0xD) || u == 0x20 || u == 0x85 || u == 0xA0 || u == 0x1680 || (0x2000 <= u
        <= 0x200A) || u == 0x2028 || u == 0x2029 || u == 0x202F || u == 0x205F || u == 0x3000
}

pub fn char_is_whitespace(c: char) -> (r: bool)
    ensures
        r == is_white_space(c),
{
    let u = c as u32;
    (0x9 <= u && u <= 0xD) || u == 0x20 || u == 0x85 || u == 0xA0 || u == 0x1680 || (0x2000 <= u
        && u <= 0x200A) || u == 0x2028 || u == 0x2029 || u == 0x202F || u == 0x205F || u == 0x3000
}

/// An offset that is a character boundary of `s` or lies past its end.
pub open spec fn valid_offset(s: Seq<char>, o: int) -> bool {
    o > byte_len(s) || is_boundary(s, o)
}

pub open spec fn valid_selection(s: Seq<char>, sel: Selection) -> bool {
    valid_offset(s, sel.start as int) && valid_offset(s, sel.end as int)
}

/// The text `s` with the byte range `a..b` replaced by `ins`, when
/// `a <= b <= byte_len(s)`; `s` itself otherwise.
pub open spec fn splice(s: Seq<char>, a: int, b: int, ins: Seq<char>) -> Seq<char> {
    if a <= b <= byte_len(s) {
        s.take(char_floor(s, a) as int) + ins + s.skip(char_floor(s, b) as int)
    } else {
        s
    }
}

/// Number of characters of `s` that start before byte `o`.
pub open spec fn chars_before(s: Seq<char>, o: int) -> int {
    if o <= 0 {
        0
    } else if char_floor(s, o - 1) + 1 <= s.len() {
        char_floor(s, o - 1) as int + 1
    } else {
        s.len() as int
    }
}

/// Moves back from `i` over whitespace.
pub open spec fn back_over_space(s: Seq<char>, i: int) -> int
    decreases i,
{
    if i > 0 && is_white_space(s[i]) {
        back_over_space(s, i - 1)
    } else {
        i
    }
}

/// Moves back from `i` to the start of the run of non-whitespace before it.
pub open spec fn back_to_word_start(s: Seq<char>, i: int) -> int
    decreases i,
{
    if i > 0 && !is_white_space(s[i - 1]) {
        back_to_word_start(s, i - 1)
    } else {
        i
    }
}

/// Moves forward from `i` over whitespace.
pub open spec fn forward_over_space(s: Seq<char>, i: int) -> int
    decreases s.len() - i,
{
    if 0 <= i < s.len() && is_white_space(s[i]) {
        forward_over_space(s, i + 1)
    } else {
        i
    }
}

/// Moves forward from `i` over non-whitespace.
pub open spec fn forward_over_word(s: Seq<char>, i: int) -> int
    decreases s.len() - i,
{
    if 0 <= i < s.len() && !is_white_space(s[i]) {
        forward_over_word(s, i + 1)
    } else {
        i
    }
}

/// Byte offset of the start of the word before `o`.
pub open spec fn previous_word_start_of(s: Seq<char>, o: int) -> int {
    if s.len() == 0 {
        0
    } else {
        let i = if chars_before(s, o) > 0 {
            chars_before(s, o) - 1
        } else {
            0
        };
        byte_offset(s, back_to_word_start(s, back_over_space(s, i))) as int
    }
}

/// Byte offset of the end of the word after `o`.
pub open spec fn next_word_end_of(s: Seq<char>, o: int) -> int {
    if s.len() == 0 {
        0
    } else {
        byte_offset(s, forward_over_word(s, forward_over_space(s, chars_before(s, o)))) as int
    }
}

/// The byte offset that UTF-16 offset `u` lands on: the start of the
/// character that contains it (the end of the text past the end).
pub open spec fn byte_of_utf16(s: Seq<char>, u: int) -> int {
    byte_offset(s, utf16_floor(s, u) as int) as int
}

/// The UTF-16 offset of byte offset `b`, clamped to the end of the text.
pub open spec fn utf16_of_byte(s: Seq<char>, b: int) -> int {
    utf16_offset(s, char_floor(s, if b <= byte_len(s) { b } else { byte_len(s) as int }) as int) as int
}

/// The previous character boundary before `o` (clamped to the text).
pub open spec fn previous_boundary(s: Seq<char>, o: int) -> int {
    let k = char_floor(s, if o <= byte_len(s) { o } else { byte_len(s) as int });
    if k == 0 {
        0
    } else {
        byte_offset(s, k - 1) as int
    }
}

/// The next character boundary after `o` (the end of the text at most).
pub open spec fn next_boundary(s: Seq<char>, o: int) -> int {
    if o >= byte_len(s) {
        byte_len(s) as int
    } else {
        byte_offset(s, char_floor(s, o) as int + 1) as int
    }
}

pub struct SnapshotView {
    pub text: Seq<char>,
    pub selection: Selection,
}

pub open spec fn snapshot_view(sn: Snapshot) -> SnapshotView {
    SnapshotView { text: sn.text@, selection: sn.selection }
}

pub open spec fn snapshot_wf(sn: SnapshotView) -> bool {
    &&& valid_selection(sn.text, sn.selection)
    &&& byte_len(sn.text) <= usize::MAX
}

/// The undo stack after saving `x`: pushed, and its oldest entry dropped
/// when it would exceed the limit.
pub open spec fn push_bounded(st: Seq<SnapshotView>, x: SnapshotView) -> Seq<SnapshotView> {
    if st.len() + 1 > UNDO_LIMIT {
        st.push(x).drop_first()
    } else {
        st.push(x)
    }
}

/// The abstract state of an input.
pub struct InputView {
    pub text: Seq<char>,
    pub placeholder: Seq<char>,
    pub selection: Selection,
    pub marked: Option<Selection>,
    pub selecting: bool,
    pub disabled: bool,
    pub loading: bool,
    pub masked: bool,
    pub clean_on_escape: bool,
    pub undo: Seq<SnapshotView>,
    pub redo: Seq<SnapshotView>,
}

/// Text, selection and history of a single-line text input.
pub struct InputState {
    text: String,
    placeholder: String,
    selected_range: Selection,
    ime_marked_range: Option<Selection>,
    selecting: bool,
    disabled: bool,
    loading: bool,
    masked: bool,
    clean_on_escape: bool,
    undo_stack: Vec<Snapshot>,
    redo_stack: Vec<Snapshot>,
    pattern: Option<Regex>,
}

#[verifier::external_type_specification]
#[verifier::external_body]
pub struct ExRegex(Regex);

/// What `Regex::is_match` answers for a compiled pattern and a text: whether
/// the pattern matches somewhere in the text. The answer depends on the
/// pattern and the text alone; the matching itself is not spelled out.
pub uninterp spec fn regex_matches(pattern: Regex, text: Seq<char>) -> bool;

/// `Regex::is_match`: whether the pattern matches somewhere in `text`; the
/// answer is named by `regex_matches`.
#[verifier::external_body]
fn regex_is_match(pattern: &Regex, text: &str) -> (r: bool)
    ensures
        r == regex_matches(*pattern, text@),
{
    pattern.is_match(text)
}

/// Whether an edit is accepted, given the validator's verdict and, when
/// the input has a pattern, whether the pattern matched the edited text:
/// both must agree.
pub fn accepts_input(validated: bool, pattern_match: Option<bool>) -> (r: bool)
    ensures
        r == match pattern_match {
            Some(m) => m && validated,
            None => validated,
        },
{
    match pattern_match {
        Some(m) => m && validated,
        None => validated,
    }
}


impl View for InputState {
    type V = InputView;

    closed spec fn view(&self) -> InputView {
        InputView {
            text: self.text@,
            placeholder: self.placeholder@,
            selection: self.selected_range,
            marked: self.ime_marked_range,
            selecting: self.selecting,
            disabled: self.disabled,
            loading: self.loading,
            masked: self.masked,
            clean_on_escape: self.clean_on_escape,
            undo: self.undo_stack@.map_values(|sn: Snapshot| snapshot_view(sn)),
            redo: self.redo_stack@.map_values(|sn: Snapshot| snapshot_view(sn)),
        }
    }
}

impl InputView {
    /// Every stored offset is a boundary or past the end, and every text
    /// fits in memory.
    pub open spec fn wf(self) -> bool {
        &&& valid_selection(self.text, self.selection)
        &&& byte_len(self.text) <= usize::MAX
        &&& self.undo.len() + self.redo.len() <= UNDO_LIMIT
        &&& forall|i: int| 0 <= i < self.undo.len() ==> snapshot_wf(#[trigger] self.undo[i])
        &&& forall|i: int| 0 <= i < self.redo.len() ==> snapshot_wf(#[trigger] self.redo[i])
    }

    /// The caret, clamped to the text.
    pub open spec fn cursor(self) -> int {
        if self.selection.end <= byte_len(self.text) {
            self.selection.end as int
        } else {
            byte_len(self.text) as int
        }
    }

    /// The byte range an edit replaces: the given UTF-16 range, else the
    /// marked (composing) range, else the selection.
    pub open spec fn edit_range(self, range_utf16: Option<Range<usize>>) -> (int, int) {
        match range_utf16 {
            Some(r) => (
                byte_of_utf16(self.text, r.start as int),
                byte_of_utf16(self.text, r.end as int),
            ),
            None => match self.marked {
                Some(m) => (min_usize(m.start, m.end) as int, max_usize(m.start, m.end) as int),
                None => (
                    min_usize(self.selection.start, self.selection.end) as int,
                    max_usize(self.selection.start, self.selection.end) as int,
                ),
            },
        }
    }

    /// The text after replacing the edit range with `ins`.
    pub open spec fn replaced_text(self, range_utf16: Option<Range<usize>>, ins: Seq<char>) -> Seq<
        char,
    > {
        let (a, b) = self.edit_range(range_utf16);
        splice(self.text, a, b, ins)
    }

    /// An edit can be applied without leaving an offset inside a character
    /// and without exceeding the address space.
    pub open spec fn edit_fits(self, range_utf16: Option<Range<usize>>, ins: Seq<char>) -> bool {
        let (a, b) = self.edit_range(range_utf16);
        &&& byte_len(self.text) + byte_len(ins) <= usize::MAX
        &&& a + byte_len(ins) <= usize::MAX
        &&& (a <= b <= byte_len(self.text) ==> is_boundary(self.text, a) && is_boundary(
            self.text,
            b,
        ))
        &&& valid_offset(self.replaced_text(range_utf16, ins), a + byte_len(ins))
    }

    /// The selection a composition update leaves.
    pub open spec fn ime_selection(
        self,
        range_utf16: Option<Range<usize>>,
        ins: Seq<char>,
        selected_utf16: Option<Range<usize>>,
    ) -> Selection {
        let (a, b) = self.edit_range(range_utf16);
        let next = self.replaced_text(range_utf16, ins);
        let len = byte_len(next) as int;
        let mark_end = if a + byte_len(ins) <= len {
            a + byte_len(ins)
        } else {
            len
        };
        match selected_utf16 {
            Some(r) => {
                let s = a + byte_of_utf16(next, r.start as int);
                let e = a + byte_of_utf16(next, r.end as int);
                Selection {
                    start: (if s <= len {
                        s
                    } else {
                        len
                    }) as usize,
                    end: (if e <= len {
                        e
                    } else {
                        len
                    }) as usize,
                }
            },
            None => Selection { start: mark_end as usize, end: mark_end as usize },
        }
    }

    /// The marked range a non-empty composition update leaves.
    pub open spec fn ime_marked(self, range_utf16: Option<Range<usize>>, ins: Seq<char>) -> Selection {
        let (a, b) = self.edit_range(range_utf16);
        let len = byte_len(self.replaced_text(range_utf16, ins)) as int;
        Selection {
            start: a as usize,
            end: (if a + byte_len(ins) <= len {
                a + byte_len(ins)
            } else {
                len
            }) as usize,
        }
    }

    /// A composition update can be applied without leaving an offset inside
    /// a character and without overflowing.
    pub open spec fn ime_fits(
        self,
        range_utf16: Option<Range<usize>>,
        ins: Seq<char>,
        selected_utf16: Option<Range<usize>>,
    ) -> bool {
        let next = self.replaced_text(range_utf16, ins);
        let (a, b) = self.edit_range(range_utf16);
        &&& byte_len(self.text) + byte_len(ins) <= usize::MAX
        &&& a + byte_len(ins) <= usize::MAX
        &&& a + byte_len(next) <= usize::MAX
        &&& (a <= b <= byte_len(self.text) ==> is_boundary(self.text, a) && is_boundary(
            self.text,
            b,
        ))
        &&& ins.len() == 0 ==> valid_offset(next, a)
        &&& ins.len() > 0 ==> valid_selection(
            next,
            self.ime_selection(range_utf16, ins, selected_utf16),
        )
    }

    /// This state with the current text and selection saved for undo.
    pub open spec fn saved(self) -> Seq<SnapshotView> {
        push_bounded(self.undo, SnapshotView { text: self.text, selection: self.selection })
    }

    /// The state after an accepted edit: the edit range replaced by `ins`,
    /// the caret after it, the previous state saved for undo.
    pub open spec fn edited(self, range_utf16: Option<Range<usize>>, ins: Seq<char>) -> InputView {
        let cursor = (self.edit_range(range_utf16).0 + byte_len(ins)) as usize;
        InputView {
            text: self.replaced_text(range_utf16, ins),
            selection: Selection { start: cursor, end: cursor },
            marked: None,
            undo: self.saved(),
            redo: Seq::empty(),
            ..self
        }
    }

    /// The state after an accepted composition update.
    pub open spec fn composed(
        self,
        range_utf16: Option<Range<usize>>,
        ins: Seq<char>,
        selected_utf16: Option<Range<usize>>,
    ) -> InputView {
        let a = self.edit_range(range_utf16).0 as usize;
        if ins.len() == 0 {
            InputView {
                text: self.replaced_text(range_utf16, ins),
                selection: Selection { start: a, end: a },
                marked: None,
                ..self
            }
        } else {
            InputView {
                text: self.replaced_text(range_utf16, ins),
                selection: self.ime_selection(range_utf16, ins, selected_utf16),
                marked: Some(self.ime_marked(range_utf16, ins)),
                ..self
            }
        }
    }

    /// The state after undo (unchanged when there is nothing to undo).
    pub open spec fn undone(self) -> InputView {
        if self.undo.len() == 0 {
            self
        } else {
            InputView {
                text: self.undo.last().text,
                selection: self.undo.last().selection,
                undo: self.undo.drop_last(),
                redo: self.redo.push(SnapshotView { text: self.text, selection: self.selection }),
                ..self
            }
        }
    }

    /// The state after redo (unchanged when there is nothing to redo).
    pub open spec fn redone(self) -> InputView {
        if self.redo.len() == 0 {
            self
        } else {
            InputView {
                text: self.redo.last().text,
                selection: self.redo.last().selection,
                undo: self.undo.push(SnapshotView { text: self.text, selection: self.selection }),
                redo: self.redo.drop_last(),
                ..self
            }
        }
    }

    /// The state after clearing the text.
    pub open spec fn cleaned(self) -> InputView {
        InputView {
            text: Seq::empty(),
            selection: Selection { start: 0, end: 0 },
            undo: self.saved(),
            redo: Seq::empty(),
            ..self
        }
    }
}


proof fn lemma_empty_text()
    ensures
        byte_len(Seq::<char>::empty()) == 0,
        is_boundary(Seq::<char>::empty(), 0),
{
    assert(Seq::<char>::empty().take(0) =~= Seq::<char>::empty());
}

/// Every boundary is at most the byte length.
proof fn lemma_boundary_le_len(s: Seq<char>, b: int)
    requires
        is_boundary(s, b),
    ensures
        b <= byte_len(s),
        char_floor(s, b) <= s.len(),
{
    lemma_char_floor(s, b);
    lemma_offset_mono(s, char_floor(s, b) as int, s.len() as int);
    lemma_offset_end(s);
}

/// The end of the text is a boundary.
pub proof fn lemma_end_boundary(s: Seq<char>)
    ensures
        is_boundary(s, byte_len(s) as int),
        char_floor(s, byte_len(s) as int) == s.len(),
{
    lemma_offset_end(s);
    lemma_offset_is_boundary(s, s.len() as int);
}

/// Indexes the characters of `text`.
fn index_of(text: &str) -> (r: TextIndex)
    ensures
        r.indexes(text@),
{
    let _ = str_byte_len(text);
    TextIndex::build(chars_of(text))
}

impl InputState {
    pub fn new() -> (r: Self)
        ensures
            r@.wf(),
            r@.text == Seq::<char>::empty(),
            r@.placeholder == Seq::<char>::empty(),
            r@.selection == Selection::new_spec(0, 0),
            r@.marked is None,
            !r@.selecting && !r@.disabled && !r@.loading && !r@.masked && !r@.clean_on_escape,
            r@.undo.len() == 0,
            r@.redo.len() == 0,
            !r.has_pattern(),
            forall|t: Seq<char>| #[trigger] r.pattern_accepts(t),
    {
        proof {
            lemma_empty_text();
        }
        let r = InputState {
            text: String::new(),
            placeholder: String::new(),
            selected_range: Selection { start: 0, end: 0 },
            ime_marked_range: None,
            selecting: false,
            disabled: false,
            loading: false,
            masked: false,
            clean_on_escape: false,
            undo_stack: Vec::new(),
            redo_stack: Vec::new(),
            pattern: None,
        };
        assert(r@.undo =~= Seq::<SnapshotView>::empty());
        assert(r@.redo =~= Seq::<SnapshotView>::empty());
        r
    }
}


/// Facts about the text an in-bounds splice produces.
proof fn lemma_splice(s: Seq<char>, a: int, b: int, ins: Seq<char>)
    requires
        a <= b <= byte_len(s),
        is_boundary(s, a),
        is_boundary(s, b),
    ensures
        byte_len(splice(s, a, b, ins)) == a + byte_len(ins) + (byte_len(s) - b),
        is_boundary(splice(s, a, b, ins), a),
        is_boundary(splice(s, a, b, ins), a + byte_len(ins)),
        char_floor(s, a) <= char_floor(s, b),
{
    let ka = char_floor(s, a) as int;
    let kb = char_floor(s, b) as int;
    lemma_boundary_le_len(s, a);
    lemma_boundary_le_len(s, b);
    if kb < ka {
        lemma_offset_mono(s, kb, ka);
    }
    let p = s.take(ka);
    let q = s.skip(kb);
    let next = p + ins + q;
    assert(s.take(kb) + q =~= s);
    crate::text_offsets::lemma_byte_len_concat(s.take(kb), q);
    crate::text_offsets::lemma_byte_len_concat(p, ins);
    crate::text_offsets::lemma_byte_len_concat(p + ins, q);
    crate::text_offsets::lemma_offset_concat_left(p, ins, ka);
    crate::text_offsets::lemma_take_full(p);
    crate::text_offsets::lemma_offset_concat_left(p + ins, q, ka);
    crate::text_offsets::lemma_offset_concat_right(p, ins, ins.len() as int);
    crate::text_offsets::lemma_take_full(ins);
    crate::text_offsets::lemma_offset_concat_left(p + ins, q, ka + ins.len());
    lemma_offset_is_boundary(next, ka);
    lemma_offset_is_boundary(next, ka + ins.len());
}


impl InputState {
    /// Number of characters before byte `byte_offset`.
    pub fn byte_to_char_offset(text: &str, byte_offset: usize) -> (r: usize)
        requires
            is_boundary(text@, min_usize(byte_offset, byte_len(text@) as usize) as int),
        ensures
            r == char_floor(text@, min_usize(byte_offset, byte_len(text@) as usize) as int),
    {
        let idx = index_of(text);
        let len = idx.byte_length(Ghost(text@));
        let b = if byte_offset < len {
            byte_offset
        } else {
            len
        };
        idx.floor_char(Ghost(text@), b)
    }

    /// The character boundary at or before `offset` (clamped to the text).
    pub fn normalize_to_char_boundary(text: &str, offset: usize) -> (r: usize)
        ensures
            r == byte_offset(
                text@,
                char_floor(text@, min_usize(offset, byte_len(text@) as usize) as int) as int,
            ),
            is_boundary(text@, r as int),
    {
        let idx = index_of(text);
        let len = idx.byte_length(Ghost(text@));
        let b = if offset < len {
            offset
        } else {
            len
        };
        let k = idx.floor_char(Ghost(text@), b);
        proof {
            lemma_char_floor(text@, b as int);
            lemma_offset_is_boundary(text@, k as int);
        }
        idx.byte_starts[k]
    }

    /// Byte offset of the character `char_offset` (the end of the text past
    /// the last character).
    pub fn char_to_byte_offset(text: &str, char_offset: usize) -> (r: usize)
        ensures
            r == byte_offset(text@, min_usize(char_offset, text@.len() as usize) as int),
    {
        let idx = index_of(text);
        let n = idx.char_count();
        let k = if char_offset < n {
            char_offset
        } else {
            n
        };
        idx.byte_starts[k]
    }

    /// UTF-16 offset of byte offset `byte_offset` (clamped to the text).
    pub fn byte_to_utf16_offset(text: &str, byte_offset: usize) -> (r: usize)
        requires
            is_boundary(text@, min_usize(byte_offset, byte_len(text@) as usize) as int),
        ensures
            r == utf16_of_byte(text@, byte_offset as int),
    {
        let idx = index_of(text);
        let len = idx.byte_length(Ghost(text@));
        let b = if byte_offset < len {
            byte_offset
        } else {
            len
        };
        let k = idx.floor_char(Ghost(text@), b);
        proof {
            lemma_char_floor(text@, b as int);
        }
        idx.utf16_starts[k]
    }

    /// Byte offset of UTF-16 offset `utf16_offset`: the start of the
    /// character it falls in, or the end of the text.
    pub fn utf16_to_byte_offset(text: &str, utf16_offset: usize) -> (r: usize)
        ensures
            r == byte_of_utf16(text@, utf16_offset as int),
            is_boundary(text@, r as int),
    {
        let idx = index_of(text);
        let k = idx.floor_char_utf16(Ghost(text@), utf16_offset);
        proof {
            lemma_utf16_floor(text@, utf16_offset as int);
            lemma_offset_is_boundary(text@, k as int);
        }
        idx.byte_starts[k]
    }
}


proof fn lemma_back_over_space(s: Seq<char>, i: int)
    requires
        0 <= i < s.len(),
    ensures
        0 <= back_over_space(s, i) <= i,
    decreases i,
{
    if i > 0 && is_white_space(s[i]) {
        lemma_back_over_space(s, i - 1);
    }
}

proof fn lemma_back_to_word_start(s: Seq<char>, i: int)
    requires
        0 <= i < s.len(),
    ensures
        0 <= back_to_word_start(s, i) <= i,
    decreases i,
{
    if i > 0 && !is_white_space(s[i - 1]) {
        lemma_back_to_word_start(s, i - 1);
    }
}

proof fn lemma_forward_over_space(s: Seq<char>, i: int)
    requires
        0 <= i <= s.len(),
    ensures
        i <= forward_over_space(s, i) <= s.len(),
    decreases s.len() - i,
{
    if 0 <= i < s.len() && is_white_space(s[i]) {
        lemma_forward_over_space(s, i + 1);
    }
}

proof fn lemma_forward_over_word(s: Seq<char>, i: int)
    requires
        0 <= i <= s.len(),
    ensures
        i <= forward_over_word(s, i) <= s.len(),
    decreases s.len() - i,
{
    if 0 <= i < s.len() && !is_white_space(s[i]) {
        lemma_forward_over_word(s, i + 1);
    }
}

/// Number of characters of the indexed text that start before byte `o`.
fn count_chars_before(idx: &TextIndex, Ghost(s): Ghost<Seq<char>>, o: usize) -> (r: usize)
    requires
        idx.indexes(s),
    ensures
        r == chars_before(s, o as int),
        r <= s.len(),
{
    let n = idx.char_count();
    let mut k: usize = 0;
    while k < n && idx.byte_starts[k] < o
        invariant
            idx.indexes(s),
            n == s.len(),
            k <= n,
            k > 0 ==> byte_offset(s, k - 1) < o,
        decreases n - k,
    {
        k += 1;
    }
    proof {
        if o > 0 {
            let b = o - 1;
            if k == 0 {
                lemma_char_floor(s, b as int);
                lemma_offset_mono(s, 0, char_floor(s, b as int) as int);
                assert(s.take(0) =~= Seq::<char>::empty());
                assert(byte_offset(s, 0) == 0);
            } else if k < n {
                lemma_char_floor_unique(s, b as int, k - 1);
            } else {
                lemma_char_floor(s, b as int);
                let f = char_floor(s, b as int) as int;
                if f < n - 1 {
                    lemma_offset_mono(s, f + 1, n - 1);
                }
            }
        } else {
            if k > 0 {
                assert(false);
            }
        }
    }
    k
}

impl InputState {
    /// The caret, clamped to the text.
    fn cursor(&self) -> (r: usize)
        requires
            self@.wf(),
        ensures
            r == self@.cursor(),
    {
        let len = str_byte_len(self.text.as_str());
        if self.selected_range.end < len {
            self.selected_range.end
        } else {
            len
        }
    }

    /// The character boundary before `offset`.
    fn previous_char_boundary(&self, offset: usize) -> (r: usize)
        requires
            self@.wf(),
        ensures
            r == previous_boundary(self@.text, offset as int),
            is_boundary(self@.text, r as int),
    {
        let ghost s = self.text@;
        let idx = index_of(self.text.as_str());
        let len = idx.byte_length(Ghost(s));
        let o = if offset < len {
            offset
        } else {
            len
        };
        let k = idx.floor_char(Ghost(s), o);
        proof {
            lemma_char_floor(s, o as int);
        }
        if k == 0 {
            proof {
                assert(s.take(0) =~= Seq::<char>::empty());
                lemma_offset_is_boundary(s, 0);
            }
            0
        } else {
            proof {
                lemma_offset_is_boundary(s, k - 1);
            }
            idx.byte_starts[k - 1]
        }
    }

    /// The character boundary after `offset`.
    fn next_char_boundary(&self, offset: usize) -> (r: usize)
        requires
            self@.wf(),
        ensures
            r == next_boundary(self@.text, offset as int),
            is_boundary(self@.text, r as int),
    {
        let ghost s = self.text@;
        let idx = index_of(self.text.as_str());
        let len = idx.byte_length(Ghost(s));
        if offset >= len {
            proof {
                lemma_end_boundary(s);
            }
            return len;
        }
        let k = idx.floor_char(Ghost(s), offset);
        proof {
            lemma_char_floor(s, offset as int);
            if k == s.len() {
                lemma_offset_end(s);
            }
            lemma_offset_is_boundary(s, k + 1);
        }
        idx.byte_starts[k + 1]
    }

    /// Start of the word before `offset`.
    fn previous_word_start(&self, offset: usize) -> (r: usize)
        requires
            self@.wf(),
        ensures
            r == previous_word_start_of(self@.text, offset as int),
            is_boundary(self@.text, r as int),
    {
        let ghost s = self.text@;
        let idx = index_of(self.text.as_str());
        let n = idx.char_count();
        if n == 0 {
            proof {
                lemma_empty_text();
                assert(s =~= Seq::<char>::empty());
            }
            return 0;
        }
        let before = count_chars_before(&idx, Ghost(s), offset);
        let mut i: usize = if before > 0 {
            before - 1
        } else {
            0
        };
        while i > 0 && char_is_whitespace(idx.chars[i])
            invariant
                idx.indexes(s),
                n == s.len(),
                i < n,
                back_over_space(s, i as int) == back_over_space(
                    s,
                    (if chars_before(s, offset as int) > 0 {
                        chars_before(s, offset as int) - 1
                    } else {
                        0
                    }),
                ),
            decreases i,
        {
            i -= 1;
        }
        let ghost j0 = i as int;
        while i > 0 && !char_is_whitespace(idx.chars[i - 1])
            invariant
                idx.indexes(s),
                n == s.len(),
                i < n,
                back_to_word_start(s, i as int) == back_to_word_start(s, j0),
            decreases i,
        {
            i -= 1;
        }
        proof {
            lemma_offset_is_boundary(s, i as int);
        }
        idx.byte_starts[i]
    }

    /// End of the word after `offset`.
    fn next_word_end(&self, offset: usize) -> (r: usize)
        requires
            self@.wf(),
        ensures
            r == next_word_end_of(self@.text, offset as int),
            is_boundary(self@.text, r as int),
    {
        let ghost s = self.text@;
        let idx = index_of(self.text.as_str());
        let n = idx.char_count();
        if n == 0 {
            proof {
                lemma_empty_text();
                assert(s =~= Seq::<char>::empty());
            }
            return 0;
        }
        let mut i = count_chars_before(&idx, Ghost(s), offset);
        let ghost i0 = i as int;
        while i < n && char_is_whitespace(idx.chars[i])
            invariant
                idx.indexes(s),
                n == s.len(),
                i <= n,
                forward_over_space(s, i as int) == forward_over_space(s, i0),
            decreases n - i,
        {
            i += 1;
        }
        let ghost j0 = i as int;
        while i < n && !char_is_whitespace(idx.chars[i])
            invariant
                idx.indexes(s),
                n == s.len(),
                i <= n,
                forward_over_word(s, i as int) == forward_over_word(s, j0),
            decreases n - i,
        {
            i += 1;
        }
        proof {
            lemma_offset_is_boundary(s, i as int);
        }
        idx.byte_starts[i]
    }
}


/// `text` with the byte range `a..b` replaced by `ins` (unchanged when the
/// range is reversed or runs past the end).
fn splice_text(text: &str, a: usize, b: usize, ins: &str) -> (r: String)
    requires
        byte_len(text@) <= usize::MAX,
        a <= b <= byte_len(text@) ==> is_boundary(text@, a as int) && is_boundary(text@, b as int),
    ensures
        r@ == splice(text@, a as int, b as int, ins@),
{
    let ghost s = text@;
    let idx = index_of(text);
    let len = idx.byte_length(Ghost(s));
    if a <= b && b <= len {
        let ka = idx.floor_char(Ghost(s), a);
        let kb = idx.floor_char(Ghost(s), b);
        proof {
            lemma_splice(s, a as int, b as int, ins@);
            lemma_boundary_le_len(s, b as int);
        }
        let ins_chars = chars_of(ins);
        let mut out: Vec<char> = Vec::new();
        let mut i: usize = 0;
        while i < ka
            invariant
                idx.indexes(s),
                ka <= s.len(),
                i <= ka,
                out@ == s.take(i as int),
            decreases ka - i,
        {
            out.push(idx.chars[i]);
            assert(s.take(i + 1) =~= s.take(i as int).push(s[i as int]));
            i += 1;
        }
        let mut j: usize = 0;
        while j < ins_chars.len()
            invariant
                out@ == s.take(ka as int) + ins_chars@.take(j as int),
                j <= ins_chars@.len(),
            decreases ins_chars@.len() - j,
        {
            out.push(ins_chars[j]);
            assert(ins_chars@.take(j + 1) =~= ins_chars@.take(j as int).push(ins_chars@[j as int]));
            j += 1;
        }
        assert(ins_chars@.take(ins_chars@.len() as int) =~= ins_chars@);
        let n = idx.char_count();
        let mut k: usize = kb;
        while k < n
            invariant
                idx.indexes(s),
                n == s.len(),
                kb <= k <= n,
                out@ == s.take(ka as int) + ins@ + s.subrange(kb as int, k as int),
            decreases n - k,
        {
            out.push(idx.chars[k]);
            assert(s.subrange(kb as int, k + 1) =~= s.subrange(kb as int, k as int).push(
                s[k as int],
            ));
            k += 1;
        }
        assert(s.subrange(kb as int, n as int) =~= s.skip(kb as int));
        crate::text_offsets::string_from_chars(out.as_slice())
    } else {
        text.to_owned()
    }
}

impl InputState {
    /// The byte range an edit replaces.
    fn resolve_edit_range(&self, range_utf16: &Option<Range<usize>>) -> (r: (usize, usize))
        requires
            self@.wf(),
        ensures
            r.0 == self@.edit_range(*range_utf16).0,
            r.1 == self@.edit_range(*range_utf16).1,
    {
        match range_utf16 {
            Some(r) => (
                Self::utf16_to_byte_offset(self.text.as_str(), r.start),
                Self::utf16_to_byte_offset(self.text.as_str(), r.end),
            ),
            None => match &self.ime_marked_range {
                Some(m) => {
                    let n = m.normalized();
                    (n.start, n.end)
                },
                None => {
                    let n = self.selected_range.normalized();
                    (n.start, n.end)
                },
            },
        }
    }

    /// The text an edit would produce, for validating it before it is
    /// applied.
    pub fn replaced_text(&self, range_utf16: Option<Range<usize>>, new_text: &str) -> (r: String)
        requires
            self@.wf(),
            self@.edit_fits(range_utf16, new_text@),
        ensures
            r@ == self@.replaced_text(range_utf16, new_text@),
    {
        let (a, b) = self.resolve_edit_range(&range_utf16);
        splice_text(self.text.as_str(), a, b, new_text)
    }

    /// Saves the text and selection for undo, dropping the oldest step past
    /// the limit, and forgets the redo history.
    fn push_undo_snapshot(&mut self)
        requires
            old(self)@.wf(),
        ensures
            final(self)@ == (InputView { undo: old(self)@.saved(), redo: Seq::empty(), ..old(self)@ }),
            final(self)@.wf(),
    {
        let ghost old_undo = self@.undo;
        let snap = Snapshot { text: self.text.clone(), selection: self.selected_range };
        let ghost sv = snapshot_view(snap);
        self.undo_stack.push(snap);
        assert(self.undo_stack@.map_values(|sn: Snapshot| snapshot_view(sn)) =~= old_undo.push(sv));
        if self.undo_stack.len() > UNDO_LIMIT {
            self.undo_stack.remove(0);
            assert(self.undo_stack@.map_values(|sn: Snapshot| snapshot_view(sn)) =~= old_undo.push(
                sv,
            ).drop_first());
        }
        self.redo_stack.clear();
        assert(self@.redo =~= Seq::<SnapshotView>::empty());
    }

    /// Replaces the edit range with `new_text` and puts the caret after it.
    ///
    /// `input_valid` is the verdict of the input's pattern and validator on
    /// the resulting text (see [`InputState::replaced_text`]); a rejected or
    /// disabled edit leaves the state unchanged. Returns whether the text
    /// changed (the input then emits `Change`).
    pub fn replace_text_in_range_silent(
        &mut self,
        range_utf16: Option<Range<usize>>,
        new_text: &str,
        input_valid: bool,
    ) -> (changed: bool)
        requires
            old(self)@.wf(),
            old(self)@.edit_fits(range_utf16, new_text@),
        ensures
            final(self)@.wf(),
            changed == (!old(self)@.disabled && input_valid),
            !changed ==> final(self)@ == old(self)@,
            changed ==> final(self)@ == old(self)@.edited(range_utf16, new_text@),
    {
        if self.disabled {
            return false;
        }
        let (a, b) = self.resolve_edit_range(&range_utf16);
        let next_text = splice_text(self.text.as_str(), a, b, new_text);
        if !input_valid {
            return false;
        }
        proof {
            if a <= b && b <= byte_len(self@.text) {
                lemma_splice(self@.text, a as int, b as int, new_text@);
            }
        }
        self.push_undo_snapshot();
        self.text = next_text;
        let cursor = a + str_byte_len(new_text);
        self.selected_range = Selection::new(cursor, cursor);
        self.ime_marked_range = None;
        true
    }
}


impl InputState {
    /// Replaces the edit range with composing (marked) text from the IME.
    ///
    /// A non-empty `new_text` becomes the marked range and the selection is
    /// placed by `new_selected_range_utf16` (relative to the edit start), at
    /// the end of the marked text by default; an empty one ends the
    /// composition. `input_valid` is the validators' verdict on the
    /// resulting text. Returns whether the text changed.
    pub fn replace_and_mark_text_in_range(
        &mut self,
        range_utf16: Option<Range<usize>>,
        new_text: &str,
        new_selected_range_utf16: Option<Range<usize>>,
        input_valid: bool,
    ) -> (changed: bool)
        requires
            old(self)@.wf(),
            old(self)@.ime_fits(range_utf16, new_text@, new_selected_range_utf16),
        ensures
            final(self)@.wf(),
            changed == (!old(self)@.disabled && input_valid),
            !changed ==> final(self)@ == old(self)@,
            changed ==> final(self)@ == old(self)@.composed(
                range_utf16,
                new_text@,
                new_selected_range_utf16,
            ),
    {
        if self.disabled {
            return false;
        }
        let (a, b) = self.resolve_edit_range(&range_utf16);
        let next_text = splice_text(self.text.as_str(), a, b, new_text);
        if !input_valid {
            return false;
        }
        proof {
            if a <= b && b <= byte_len(self@.text) {
                lemma_splice(self@.text, a as int, b as int, new_text@);
            }
        }
        self.text = next_text;
        let len = str_byte_len(self.text.as_str());
        let new_len = str_byte_len(new_text);
        if new_len == 0 {
            proof {
                assert(new_text@.len() == 0) by {
                    if new_text@.len() > 0 {
                        crate::text_offsets::lemma_offset_mono(new_text@, 0, new_text@.len() as int);
                        crate::text_offsets::lemma_offset_end(new_text@);
                    }
                };
            }
            self.ime_marked_range = None;
            self.selected_range = Selection::new(a, a);
        } else {
            proof {
                assert(new_text@.len() > 0) by {
                    if new_text@.len() == 0 {
                        assert(new_text@ =~= Seq::<char>::empty());
                        lemma_empty_text();
                    }
                };
            }
            let mark_end = if a + new_len < len {
                a + new_len
            } else {
                len
            };
            self.ime_marked_range = Some(Selection::new(a, mark_end));
            self.selected_range = match new_selected_range_utf16 {
                Some(sel) => {
                    let s = a + Self::utf16_to_byte_offset(self.text.as_str(), sel.start);
                    let e = a + Self::utf16_to_byte_offset(self.text.as_str(), sel.end);
                    Selection::new(
                        if s < len {
                            s
                        } else {
                            len
                        },
                        if e < len {
                            e
                        } else {
                            len
                        },
                    )
                },
                None => Selection::new(mark_end, mark_end),
            };
        }
        true
    }

    /// Restores the last saved text and selection, saving the current ones
    /// for redo. Returns whether there was anything to undo.
    pub fn undo(&mut self) -> (changed: bool)
        requires
            old(self)@.wf(),
        ensures
            final(self)@.wf(),
            changed == (old(self)@.undo.len() > 0),
            final(self)@ == old(self)@.undone(),
    {
        let ghost old_undo = self@.undo;
        let ghost old_redo = self@.redo;
        match self.undo_stack.pop() {
            Some(snapshot) => {
                let current = Snapshot { text: self.text.clone(), selection: self.selected_range };
                let ghost cv = snapshot_view(current);
                self.redo_stack.push(current);
                assert(self.redo_stack@.map_values(|sn: Snapshot| snapshot_view(sn))
                    =~= old_redo.push(cv));
                assert(self.undo_stack@.map_values(|sn: Snapshot| snapshot_view(sn))
                    =~= old_undo.drop_last());
                assert(snapshot_view(snapshot) == old_undo.last());
                assert(snapshot_wf(old_undo[old_undo.len() - 1]));
                self.text = snapshot.text;
                self.selected_range = snapshot.selection;
                true
            },
            None => false,
        }
    }

    /// Reapplies the last undone step, saving the current text and
    /// selection for undo. Returns whether there was anything to redo.
    pub fn redo(&mut self) -> (changed: bool)
        requires
            old(self)@.wf(),
        ensures
            final(self)@.wf(),
            changed == (old(self)@.redo.len() > 0),
            final(self)@ == old(self)@.redone(),
    {
        let ghost old_undo = self@.undo;
        let ghost old_redo = self@.redo;
        match self.redo_stack.pop() {
            Some(snapshot) => {
                let current = Snapshot { text: self.text.clone(), selection: self.selected_range };
                let ghost cv = snapshot_view(current);
                self.undo_stack.push(current);
                assert(self.undo_stack@.map_values(|sn: Snapshot| snapshot_view(sn))
                    =~= old_undo.push(cv));
                assert(self.redo_stack@.map_values(|sn: Snapshot| snapshot_view(sn))
                    =~= old_redo.drop_last());
                assert(snapshot_view(snapshot) == old_redo.last());
                assert(snapshot_wf(old_redo[old_redo.len() - 1]));
                self.text = snapshot.text;
                self.selected_range = snapshot.selection;
                true
            },
            None => false,
        }
    }

    /// Clears the text, saving it for undo.
    pub fn clean(&mut self)
        requires
            old(self)@.wf(),
        ensures
            final(self)@.wf(),
            final(self)@ == old(self)@.cleaned(),
    {
        self.push_undo_snapshot();
        self.text = String::new();
        self.selected_range = Selection::new(0, 0);
        proof {
            lemma_empty_text();
        }
    }
}


impl InputState {
    /// Whether edits must match a pattern.
    pub closed spec fn has_pattern(&self) -> bool {
        self.pattern is Some
    }

    /// Whether the input's pattern lets `text` through: always without a
    /// pattern, else when the pattern matches somewhere in it.
    pub closed spec fn pattern_accepts(&self, text: Seq<char>) -> bool {
        match self.pattern {
            Some(p) => regex_matches(p, text),
            None => true,
        }
    }

    /// Edits must match `pattern` somewhere in the resulting text.
    pub fn pattern(self, pattern: Regex) -> (r: Self)
        ensures
            r@ == self@,
            r.has_pattern(),
            forall|t: Seq<char>| #[trigger] r.pattern_accepts(t) == regex_matches(pattern, t),
    {
        let mut this = self;
        this.pattern = Some(pattern);
        this
    }

    /// Edits must match `pattern` somewhere in the resulting text.
    pub fn set_pattern(&mut self, pattern: Regex)
        ensures
            final(self)@ == old(self)@,
            final(self).has_pattern(),
            forall|t: Seq<char>| #[trigger] final(self).pattern_accepts(t) == regex_matches(
                pattern,
                t,
            ),
    {
        self.pattern = Some(pattern);
    }

    /// Whether `new_text`, the text an edit would produce, is accepted: the
    /// pattern, when there is one, must match it, and the caller's own
    /// validator must have `validated` it.
    pub fn is_valid_input(&self, new_text: &str, validated: bool) -> (r: bool)
        ensures
            r == (validated && self.pattern_accepts(new_text@)),
    {
        let pattern_match = match &self.pattern {
            Some(pattern) => Some(regex_is_match(pattern, new_text)),
            None => None,
        };
        accepts_input(validated, pattern_match)
    }
}

impl InputState {
    /// Sets the placeholder shown while the input is empty.
    pub fn placeholder(self, placeholder: &str) -> (r: Self)
        ensures
            r@ == (InputView { placeholder: placeholder@, ..self@ }),
    {
        let mut this = self;
        this.placeholder = placeholder.to_owned();
        this
    }

    /// Sets the placeholder shown while the input is empty.
    pub fn set_placeholder(&mut self, placeholder: &str)
        ensures
            final(self)@ == (InputView { placeholder: placeholder@, ..old(self)@ }),
    {
        self.placeholder = placeholder.to_owned();
    }

    /// The placeholder shown while the input is empty.
    pub fn placeholder_text(&self) -> (r: &str)
        ensures
            r@ == self@.placeholder,
    {
        self.placeholder.as_str()
    }

    /// Starts with `value` as the text and the caret at its end.
    pub fn default_value(self, value: &str) -> (r: Self)
        requires
            self@.wf(),
        ensures
            r@.wf(),
            r@ == (InputView {
                text: value@,
                selection: Selection::new_spec(byte_len(value@) as usize, byte_len(value@) as usize),
                ..self@
            }),
    {
        let mut this = self;
        this.set_value(value);
        this
    }

    /// Replaces the text with `value` and puts the caret at its end (the
    /// input then emits `Change`).
    pub fn set_value(&mut self, value: &str)
        requires
            old(self)@.wf(),
        ensures
            final(self)@.wf(),
            final(self)@ == (InputView {
                text: value@,
                selection: Selection::new_spec(byte_len(value@) as usize, byte_len(value@) as usize),
                ..old(self)@
            }),
    {
        let len = str_byte_len(value);
        self.text = value.to_owned();
        self.selected_range = Selection::new(len, len);
        proof {
            lemma_end_boundary(value@);
        }
    }

    /// The text.
    pub fn value(&self) -> (r: String)
        ensures
            r@ == self@.text,
    {
        self.text.clone()
    }

    /// The text, unmasked.
    pub fn unmask_value(&self) -> (r: String)
        ensures
            r@ == self@.text,
    {
        self.value()
    }

    /// The text.
    pub fn text(&self) -> (r: &str)
        ensures
            r@ == self@.text,
    {
        self.text.as_str()
    }

    /// The current selection.
    pub fn selected_range(&self) -> (r: Selection)
        ensures
            r == self@.selection,
    {
        self.selected_range
    }

    /// The current composition range, if any.
    pub fn ime_marked_range(&self) -> (r: Option<Selection>)
        ensures
            r == self@.marked,
    {
        self.ime_marked_range
    }

    /// Whether text is shown as bullets.
    pub fn set_masked(&mut self, masked: bool)
        ensures
            final(self)@ == (InputView { masked: masked, ..old(self)@ }),
    {
        self.masked = masked;
    }

    /// Whether text is shown as bullets.
    pub fn masked(self, masked: bool) -> (r: Self)
        ensures
            r@ == (InputView { masked: masked, ..self@ }),
    {
        let mut this = self;
        this.masked = masked;
        this
    }

    /// Escape clears the text.
    pub fn clean_on_escape(self) -> (r: Self)
        ensures
            r@ == (InputView { clean_on_escape: true, ..self@ }),
    {
        let mut this = self;
        this.clean_on_escape = true;
        this
    }

    /// Shows or hides the loading indicator.
    pub fn set_loading(&mut self, loading: bool)
        ensures
            final(self)@ == (InputView { loading: loading, ..old(self)@ }),
    {
        self.loading = loading;
    }

    /// Whether the loading indicator shows.
    pub fn is_loading(&self) -> (r: bool)
        ensures
            r == self@.loading,
    {
        self.loading
    }

    /// Enables or disables editing.
    pub fn set_disabled(&mut self, disabled: bool)
        ensures
            final(self)@ == (InputView { disabled: disabled, ..old(self)@ }),
    {
        self.disabled = disabled;
    }

    /// Whether editing is disabled.
    pub fn is_disabled(&self) -> (r: bool)
        ensures
            r == self@.disabled,
    {
        self.disabled
    }

    /// Whether text is shown as bullets.
    pub fn is_masked(&self) -> (r: bool)
        ensures
            r == self@.masked,
    {
        self.masked
    }

    /// Inserts `text` in place of the selection (see
    /// [`InputState::replace_text_in_range_silent`]).
    pub fn insert(&mut self, text: &str, input_valid: bool) -> (changed: bool)
        requires
            old(self)@.wf(),
            old(self)@.edit_fits(None, text@),
        ensures
            final(self)@.wf(),
            changed == (!old(self)@.disabled && input_valid),
            !changed ==> final(self)@ == old(self)@,
            changed ==> final(self)@ == old(self)@.edited(None, text@),
    {
        self.replace_text_in_range_silent(None, text, input_valid)
    }

    /// Replaces the selection with `text` (see
    /// [`InputState::replace_text_in_range_silent`]).
    pub fn replace(&mut self, text: &str, input_valid: bool) -> (changed: bool)
        requires
            old(self)@.wf(),
            old(self)@.edit_fits(None, text@),
        ensures
            final(self)@.wf(),
            changed == (!old(self)@.disabled && input_valid),
            !changed ==> final(self)@ == old(self)@,
            changed ==> final(self)@ == old(self)@.edited(None, text@),
    {
        self.replace_text_in_range_silent(None, text, input_valid)
    }

    /// The selection with its ends in increasing order.
    pub fn selected_range_normalized(&self) -> (r: Range<usize>)
        ensures
            r.start == min_usize(self@.selection.start, self@.selection.end),
            r.end == max_usize(self@.selection.start, self@.selection.end),
    {
        self.selected_range.normalized()
    }

    /// UTF-16 range of a byte range (each end clamped to the text).
    pub fn range_to_utf16(&self, range: &Range<usize>) -> (r: Range<usize>)
        requires
            self@.wf(),
            valid_offset(self@.text, range.start as int),
            valid_offset(self@.text, range.end as int),
        ensures
            r.start == utf16_of_byte(self@.text, range.start as int),
            r.end == utf16_of_byte(self@.text, range.end as int),
    {
        proof {
            lemma_end_boundary(self@.text);
        }
        Self::byte_to_utf16_offset(self.text.as_str(), range.start)
            ..Self::byte_to_utf16_offset(self.text.as_str(), range.end)
    }

    /// Byte range of a UTF-16 range.
    pub fn range_from_utf16(&self, range_utf16: &Range<usize>) -> (r: Range<usize>)
        requires
            self@.wf(),
        ensures
            r.start == byte_of_utf16(self@.text, range_utf16.start as int),
            r.end == byte_of_utf16(self@.text, range_utf16.end as int),
            is_boundary(self@.text, r.start as int),
            is_boundary(self@.text, r.end as int),
    {
        Self::utf16_to_byte_offset(self.text.as_str(), range_utf16.start)
            ..Self::utf16_to_byte_offset(self.text.as_str(), range_utf16.end)
    }
}



impl InputState {
    /// Caret one character left, or to the start of the selection.
    pub fn move_left(&mut self)
        requires
            old(self)@.wf(),
        ensures
            final(self)@.wf(),
            final(self)@ == (InputView {
                marked: None,
                selection: (if old(self)@.selection.start == old(self)@.selection.end {
                    Selection::new_spec(
                        previous_boundary(old(self)@.text, old(self)@.cursor()) as usize,
                        previous_boundary(old(self)@.text, old(self)@.cursor()) as usize,
                    )
                } else {
                    Selection::new_spec(
                        min_usize(old(self)@.selection.start, old(self)@.selection.end),
                        min_usize(old(self)@.selection.start, old(self)@.selection.end),
                    )
                }),
                ..old(self)@
            }),
    {
        self.ime_marked_range = None;
        let cursor = if self.selected_range.is_empty() {
            let c = self.cursor();
            self.previous_char_boundary(c)
        } else {
            self.selected_range.normalized().start
        };
        self.selected_range = Selection::new(cursor, cursor);
    }

    /// Caret one character right, or to the end of the selection.
    pub fn move_right(&mut self)
        requires
            old(self)@.wf(),
        ensures
            final(self)@.wf(),
            final(self)@ == (InputView {
                marked: None,
                selection: (if old(self)@.selection.start == old(self)@.selection.end {
                    Selection::new_spec(
                        next_boundary(old(self)@.text, old(self)@.cursor()) as usize,
                        next_boundary(old(self)@.text, old(self)@.cursor()) as usize,
                    )
                } else {
                    Selection::new_spec(
                        max_usize(old(self)@.selection.start, old(self)@.selection.end),
                        max_usize(old(self)@.selection.start, old(self)@.selection.end),
                    )
                }),
                ..old(self)@
            }),
    {
        self.ime_marked_range = None;
        let cursor = if self.selected_range.is_empty() {
            let c = self.cursor();
            self.next_char_boundary(c)
        } else {
            self.selected_range.normalized().end
        };
        self.selected_range = Selection::new(cursor, cursor);
    }

    /// Caret to the start of the text.
    pub fn move_home(&mut self)
        requires
            old(self)@.wf(),
        ensures
            final(self)@.wf(),
            final(self)@ == (InputView {
                marked: None,
                selection: Selection::new_spec(0, 0),
                ..old(self)@
            }),
    {
        proof {
            assert(self@.text.take(0) =~= Seq::<char>::empty());
            lemma_offset_is_boundary(self@.text, 0);
        }
        self.ime_marked_range = None;
        self.selected_range = Selection::new(0, 0);
    }

    /// Caret to the end of the text.
    pub fn move_end(&mut self)
        requires
            old(self)@.wf(),
        ensures
            final(self)@.wf(),
            final(self)@ == (InputView {
                marked: None,
                selection: Selection::new_spec(
                    byte_len(old(self)@.text) as usize,
                    byte_len(old(self)@.text) as usize,
                ),
                ..old(self)@
            }),
    {
        proof {
            lemma_end_boundary(self@.text);
        }
        self.ime_marked_range = None;
        let end = str_byte_len(self.text.as_str());
        self.selected_range = Selection::new(end, end);
    }

    /// Extends the selection one character left.
    pub fn select_left(&mut self)
        requires
            old(self)@.wf(),
        ensures
            final(self)@.wf(),
            final(self)@ == (InputView {
                selection: Selection::new_spec(
                    old(self)@.selection.start,
                    previous_boundary(old(self)@.text, old(self)@.selection.end as int) as usize,
                ),
                ..old(self)@
            }),
    {
        let end = self.previous_char_boundary(self.selected_range.end);
        self.selected_range.end = end;
    }

    /// Extends the selection one character right.
    pub fn select_right(&mut self)
        requires
            old(self)@.wf(),
        ensures
            final(self)@.wf(),
            final(self)@ == (InputView {
                selection: Selection::new_spec(
                    old(self)@.selection.start,
                    next_boundary(old(self)@.text, old(self)@.selection.end as int) as usize,
                ),
                ..old(self)@
            }),
    {
        let end = self.next_char_boundary(self.selected_range.end);
        self.selected_range.end = end;
    }

    /// Selects the whole text.
    pub fn select_all(&mut self)
        requires
            old(self)@.wf(),
        ensures
            final(self)@.wf(),
            final(self)@ == (InputView {
                selection: Selection::new_spec(0, byte_len(old(self)@.text) as usize),
                ..old(self)@
            }),
    {
        proof {
            lemma_end_boundary(self@.text);
            assert(self@.text.take(0) =~= Seq::<char>::empty());
            lemma_offset_is_boundary(self@.text, 0);
        }
        let len = str_byte_len(self.text.as_str());
        self.selected_range = Selection::new(0, len);
    }

    /// Caret to the start of the previous word.
    pub fn move_to_previous_word(&mut self)
        requires
            old(self)@.wf(),
        ensures
            final(self)@.wf(),
            final(self)@ == (InputView {
                selection: Selection::new_spec(
                    previous_word_start_of(old(self)@.text, old(self)@.cursor()) as usize,
                    previous_word_start_of(old(self)@.text, old(self)@.cursor()) as usize,
                ),
                ..old(self)@
            }),
    {
        let c = self.cursor();
        let offset = self.previous_word_start(c);
        self.selected_range = Selection::new(offset, offset);
    }

    /// Caret to the end of the next word.
    pub fn move_to_next_word(&mut self)
        requires
            old(self)@.wf(),
        ensures
            final(self)@.wf(),
            final(self)@ == (InputView {
                selection: Selection::new_spec(
                    next_word_end_of(old(self)@.text, old(self)@.cursor()) as usize,
                    next_word_end_of(old(self)@.text, old(self)@.cursor()) as usize,
                ),
                ..old(self)@
            }),
    {
        let c = self.cursor();
        let offset = self.next_word_end(c);
        self.selected_range = Selection::new(offset, offset);
    }

    /// What Backspace deletes: `None` for the selection when it is not
    /// empty, else the UTF-16 range of the character before the caret.
    pub fn backspace(&self) -> (r: Option<Range<usize>>)
        requires
            self@.wf(),
        ensures
            self@.selection.start != self@.selection.end ==> r is None,
            self@.selection.start == self@.selection.end ==> r == Some(
                (utf16_of_byte(self@.text, previous_boundary(self@.text, self@.cursor())) as usize)
                    ..(utf16_of_byte(self@.text, self@.cursor()) as usize),
            ),
    {
        if !self.selected_range.is_empty() {
            return None;
        }
        let cursor = self.cursor();
        let start = self.previous_char_boundary(cursor);
        proof {
            lemma_end_boundary(self@.text);
        }
        Some(self.range_to_utf16(&(start..cursor)))
    }

    /// What Delete deletes: `None` for the selection when it is not empty,
    /// else the UTF-16 range of the character after the caret.
    pub fn delete(&self) -> (r: Option<Range<usize>>)
        requires
            self@.wf(),
        ensures
            self@.selection.start != self@.selection.end ==> r is None,
            self@.selection.start == self@.selection.end ==> r == Some(
                (utf16_of_byte(self@.text, self@.cursor()) as usize)..(utf16_of_byte(
                    self@.text,
                    next_boundary(self@.text, self@.cursor()),
                ) as usize),
            ),
    {
        if !self.selected_range.is_empty() {
            return None;
        }
        let cursor = self.cursor();
        let end = self.next_char_boundary(cursor);
        proof {
            lemma_end_boundary(self@.text);
        }
        Some(self.range_to_utf16(&(cursor..end)))
    }

    /// What deleting to the previous word start removes: `None` for the
    /// selection when it is not empty, else the UTF-16 range from the start
    /// of the previous word to the caret.
    pub fn delete_previous_word(&self) -> (r: Option<Range<usize>>)
        requires
            self@.wf(),
        ensures
            self@.selection.start != self@.selection.end ==> r is None,
            self@.selection.start == self@.selection.end ==> r == Some(
                (utf16_of_byte(self@.text, previous_word_start_of(self@.text, self@.cursor())) as usize)
                    ..(utf16_of_byte(self@.text, self@.cursor()) as usize),
            ),
    {
        if !self.selected_range.is_empty() {
            return None;
        }
        let cursor = self.cursor();
        let start = self.previous_word_start(cursor);
        proof {
            lemma_end_boundary(self@.text);
        }
        Some(self.range_to_utf16(&(start..cursor)))
    }

    /// What deleting to the next word end removes: `None` for the selection
    /// when it is not empty, else the UTF-16 range from the caret to the end
    /// of the next word.
    pub fn delete_next_word(&self) -> (r: Option<Range<usize>>)
        requires
            self@.wf(),
        ensures
            self@.selection.start != self@.selection.end ==> r is None,
            self@.selection.start == self@.selection.end ==> r == Some(
                (utf16_of_byte(self@.text, self@.cursor()) as usize)..(utf16_of_byte(
                    self@.text,
                    next_word_end_of(self@.text, self@.cursor()),
                ) as usize),
            ),
    {
        if !self.selected_range.is_empty() {
            return None;
        }
        let cursor = self.cursor();
        let end = self.next_word_end(cursor);
        proof {
            lemma_end_boundary(self@.text);
        }
        Some(self.range_to_utf16(&(cursor..end)))
    }
}


/// `s` with its line feeds removed.
pub open spec fn without_line_feeds(s: Seq<char>) -> Seq<char>
    decreases s.len(),
{
    if s.len() == 0 {
        s
    } else if s.last() == '\n' {
        without_line_feeds(s.drop_last())
    } else {
        without_line_feeds(s.drop_last()).push(s.last())
    }
}

/// Text shown for a masked input of `n` characters.
pub open spec fn bullets(n: nat) -> Seq<char> {
    Seq::new(n, |i: int| '•')
}

/// The characters of `s` between the byte boundaries `a` and `b`.
pub open spec fn byte_slice(s: Seq<char>, a: int, b: int) -> Seq<char> {
    s.subrange(char_floor(s, a) as int, char_floor(s, b) as int)
}

/// The characters between two boundaries of an indexed text.
pub(crate) fn slice_text(text: &str, a: usize, b: usize) -> (r: String)
    requires
        byte_len(text@) <= usize::MAX,
        a <= b,
        is_boundary(text@, a as int),
        is_boundary(text@, b as int),
    ensures
        r@ == byte_slice(text@, a as int, b as int),
{
    let ghost s = text@;
    let idx = index_of(text);
    let ka = idx.floor_char(Ghost(s), a);
    let kb = idx.floor_char(Ghost(s), b);
    proof {
        lemma_boundary_le_len(s, b as int);
        lemma_boundary_le_len(s, a as int);
        if kb < ka {
            lemma_offset_mono(s, kb as int, ka as int);
        }
    }
    let mut out: Vec<char> = Vec::new();
    let mut k = ka;
    while k < kb
        invariant
            idx.indexes(s),
            ka <= k <= kb <= s.len(),
            out@ == s.subrange(ka as int, k as int),
        decreases kb - k,
    {
        out.push(idx.chars[k]);
        assert(s.subrange(ka as int, k + 1) =~= s.subrange(ka as int, k as int).push(s[k as int]));
        k += 1;
    }
    crate::text_offsets::string_from_chars(out.as_slice())
}

/// Pasted text for a single-line input: the clipboard text without line
/// feeds.
pub fn paste_text(clipboard: &str) -> (r: String)
    ensures
        r@ == without_line_feeds(clipboard@),
{
    let cs = chars_of(clipboard);
    let mut out: Vec<char> = Vec::new();
    let mut i: usize = 0;
    while i < cs.len()
        invariant
            cs@ == clipboard@,
            i <= cs@.len(),
            out@ == without_line_feeds(cs@.take(i as int)),
        decreases cs@.len() - i,
    {
        assert(cs@.take(i + 1).drop_last() =~= cs@.take(i as int));
        if cs[i] != '\n' {
            out.push(cs[i]);
        }
        i += 1;
    }
    assert(cs@.take(cs@.len() as int) =~= cs@);
    crate::text_offsets::string_from_chars(out.as_slice())
}

impl InputState {
    /// The selected text, if the selection is not empty (for the clipboard).
    pub fn copy(&self) -> (r: Option<String>)
        requires
            self@.wf(),
            self@.selection.start != self@.selection.end ==> max_usize(
                self@.selection.start,
                self@.selection.end,
            ) <= byte_len(self@.text),
        ensures
            r is None <==> self@.selection.start == self@.selection.end,
            r matches Some(t) ==> t@ == byte_slice(
                self@.text,
                min_usize(self@.selection.start, self@.selection.end) as int,
                max_usize(self@.selection.start, self@.selection.end) as int,
            ),
    {
        let range = self.selected_range.normalized();
        if range.start == range.end {
            return None;
        }
        Some(slice_text(self.text.as_str(), range.start, range.end))
    }

    /// The selected text and its UTF-16 range, if the selection is not
    /// empty: the clipboard gets the text and the range is then deleted.
    pub fn cut(&self) -> (r: Option<(String, Range<usize>)>)
        requires
            self@.wf(),
            self@.selection.start != self@.selection.end ==> max_usize(
                self@.selection.start,
                self@.selection.end,
            ) <= byte_len(self@.text),
        ensures
            r is None <==> self@.selection.start == self@.selection.end,
            r matches Some(p) ==> p.0@ == byte_slice(
                self@.text,
                min_usize(self@.selection.start, self@.selection.end) as int,
                max_usize(self@.selection.start, self@.selection.end) as int,
            ) && p.1.start == utf16_of_byte(
                self@.text,
                min_usize(self@.selection.start, self@.selection.end) as int,
            ) && p.1.end == utf16_of_byte(
                self@.text,
                max_usize(self@.selection.start, self@.selection.end) as int,
            ),
    {
        let range = self.selected_range.normalized();
        if range.start == range.end {
            return None;
        }
        let text = slice_text(self.text.as_str(), range.start, range.end);
        Some((text, self.range_to_utf16(&range)))
    }

    /// Escape: clears the text when the input is set to, returning whether
    /// it handled the key.
    pub fn escape(&mut self) -> (handled: bool)
        requires
            old(self)@.wf(),
        ensures
            final(self)@.wf(),
            handled == old(self)@.clean_on_escape,
            !handled ==> final(self)@ == old(self)@,
            handled ==> final(self)@ == old(self)@.cleaned(),
    {
        if self.clean_on_escape {
            self.clean();
            return true;
        }
        false
    }

    /// The text as displayed: one bullet per character when masked.
    pub fn display_text(&self) -> (r: String)
        ensures
            r@ == (if self@.masked {
                bullets(self@.text.len())
            } else {
                self@.text
            }),
    {
        if self.masked {
            let cs = chars_of(self.text.as_str());
            let mut out: Vec<char> = Vec::new();
            let mut i: usize = 0;
            while i < cs.len()
                invariant
                    i <= cs@.len(),
                    out@ =~= bullets(i as nat),
                decreases cs@.len() - i,
            {
                out.push('•');
                i += 1;
            }
            crate::text_offsets::string_from_chars(out.as_slice())
        } else {
            self.text.clone()
        }
    }

    /// The index in the displayed text of byte `text_byte_offset` of the
    /// text (the character at or before it).
    pub fn text_byte_to_display_index(&self, display: &str, text_byte_offset: usize) -> (r: usize)
        requires
            self@.wf(),
        ensures
            r == byte_offset(
                display@,
                min_usize(
                    char_floor(
                        self@.text,
                        min_usize(text_byte_offset, byte_len(self@.text) as usize) as int,
                    ) as usize,
                    display@.len() as usize,
                ) as int,
            ),
    {
        let ghost s = self@.text;
        let safe = Self::normalize_to_char_boundary(self.text.as_str(), text_byte_offset);
        proof {
            lemma_char_floor(s, min_usize(text_byte_offset, byte_len(s) as usize) as int);
            lemma_offset_is_boundary(
                s,
                char_floor(s, min_usize(text_byte_offset, byte_len(s) as usize) as int) as int,
            );
            lemma_boundary_le_len(s, safe as int);
        }
        let chars = Self::byte_to_char_offset(self.text.as_str(), safe);
        Self::char_to_byte_offset(display, chars)
    }

    /// The byte of the text at index `display_index` of the displayed text.
    pub fn display_index_to_text_byte(&self, display: &str, display_index: usize) -> (r: usize)
        requires
            self@.wf(),
        ensures
            r == byte_offset(
                self@.text,
                min_usize(
                    char_floor(
                        display@,
                        min_usize(display_index, byte_len(display@) as usize) as int,
                    ) as usize,
                    self@.text.len() as usize,
                ) as int,
            ),
            is_boundary(self@.text, r as int),
    {
        let ghost d = display@;
        let safe = Self::normalize_to_char_boundary(display, display_index);
        proof {
            lemma_char_floor(d, min_usize(display_index, byte_len(d) as usize) as int);
            lemma_offset_is_boundary(
                d,
                char_floor(d, min_usize(display_index, byte_len(d) as usize) as int) as int,
            );
            lemma_boundary_le_len(d, safe as int);
        }
        let chars = Self::byte_to_char_offset(display, safe);
        let r = Self::char_to_byte_offset(self.text.as_str(), chars);
        proof {
            lemma_offset_is_boundary(self@.text, min_usize(chars, self@.text.len() as usize) as int);
        }
        r
    }

    /// Mouse press at byte `offset`: starts a selection there, or extends
    /// the current one with Shift. Returns whether it was handled.
    pub fn on_mouse_down(&mut self, offset: usize, shift: bool) -> (handled: bool)
        requires
            old(self)@.wf(),
            valid_offset(old(self)@.text, offset as int),
        ensures
            final(self)@.wf(),
            handled == !old(self)@.disabled,
            !handled ==> final(self)@ == old(self)@,
            handled ==> final(self)@ == (InputView {
                selecting: true,
                selection: (if shift {
                    Selection::new_spec(old(self)@.selection.start, offset)
                } else {
                    Selection::new_spec(offset, offset)
                }),
                ..old(self)@
            }),
    {
        if self.disabled {
            return false;
        }
        self.selecting = true;
        if shift {
            self.selected_range.end = offset;
        } else {
            self.selected_range = Selection::new(offset, offset);
        }
        true
    }

    /// Mouse drag to byte `offset` with the left button down: moves the
    /// caret end of the selection. Returns whether it was handled.
    pub fn on_mouse_move(&mut self, offset: usize, left_button_pressed: bool) -> (handled: bool)
        requires
            old(self)@.wf(),
            valid_offset(old(self)@.text, offset as int),
        ensures
            final(self)@.wf(),
            handled == (!old(self)@.disabled && old(self)@.selecting && left_button_pressed),
            !handled ==> final(self)@ == old(self)@,
            handled ==> final(self)@ == (InputView {
                selection: Selection::new_spec(old(self)@.selection.start, offset),
                ..old(self)@
            }),
    {
        if self.disabled || !self.selecting || !left_button_pressed {
            return false;
        }
        self.selected_range.end = offset;
        true
    }

    /// Mouse release: ends a drag selection. Returns whether one was in
    /// progress.
    pub fn on_mouse_up(&mut self) -> (handled: bool)
        ensures
            handled == old(self)@.selecting,
            final(self)@ == (InputView { selecting: false, ..old(self)@ }),
    {
        if self.selecting {
            self.selecting = false;
            return true;
        }
        false
    }

    /// The text of a UTF-16 range, with the range adjusted to character
    /// boundaries.
    pub fn text_for_range(&self, range_utf16: Range<usize>) -> (r: (String, Range<usize>))
        requires
            self@.wf(),
            byte_of_utf16(self@.text, range_utf16.start as int) <= byte_of_utf16(
                self@.text,
                range_utf16.end as int,
            ),
        ensures
            r.0@ == byte_slice(
                self@.text,
                byte_of_utf16(self@.text, range_utf16.start as int),
                byte_of_utf16(self@.text, range_utf16.end as int),
            ),
            r.1.start == utf16_of_byte(
                self@.text,
                byte_of_utf16(self@.text, range_utf16.start as int),
            ),
            r.1.end == utf16_of_byte(self@.text, byte_of_utf16(self@.text, range_utf16.end as int)),
    {
        let range = self.range_from_utf16(&range_utf16);
        let adjusted = self.range_to_utf16(&range);
        (slice_text(self.text.as_str(), range.start, range.end), adjusted)
    }

    /// UTF-16 range of the selection, and whether it runs backwards.
    pub fn selected_text_range(&self) -> (r: (Range<usize>, bool))
        requires
            self@.wf(),
        ensures
            r.0.start == utf16_of_byte(
                self@.text,
                min_usize(self@.selection.start, self@.selection.end) as int,
            ),
            r.0.end == utf16_of_byte(
                self@.text,
                max_usize(self@.selection.start, self@.selection.end) as int,
            ),
            r.1 == (self@.selection.start > self@.selection.end),
    {
        let range = self.selected_range.normalized();
        (self.range_to_utf16(&range), self.selected_range.start > self.selected_range.end)
    }

    /// UTF-16 range of the composition, if any.
    pub fn marked_text_range(&self) -> (r: Option<Range<usize>>)
        requires
            self@.wf(),
            self@.marked matches Some(m) ==> valid_selection(self@.text, m),
        ensures
            r is Some <==> self@.marked is Some,
            r matches Some(u) ==> u.start == utf16_of_byte(
                self@.text,
                min_usize(self@.marked->0.start, self@.marked->0.end) as int,
            ) && u.end == utf16_of_byte(
                self@.text,
                max_usize(self@.marked->0.start, self@.marked->0.end) as int,
            ),
    {
        match &self.ime_marked_range {
            Some(m) => {
                let range = m.normalized();
                Some(self.range_to_utf16(&range))
            },
            None => None,
        }
    }

    /// Ends the composition, returning whether there was one.
    pub fn unmark_text(&mut self) -> (r: bool)
        ensures
            r == old(self)@.marked is Some,
            final(self)@ == (InputView { marked: None, ..old(self)@ }),
    {
        let had = self.ime_marked_range.is_some();
        self.ime_marked_range = None;
        had
    }
}


proof fn lemma_saved_last(v: InputView)
    ensures
        v.saved().len() > 0,
        v.saved().last() == (SnapshotView { text: v.text, selection: v.selection }),
{
}

/// Undoing an accepted edit gives back the text and the selection the edit
/// replaced.
pub proof fn law_undo_reverts_edit(v: InputView, range_utf16: Option<Range<usize>>, ins: Seq<char>)
    ensures
        v.edited(range_utf16, ins).undone().text == v.text,
        v.edited(range_utf16, ins).undone().selection == v.selection,
{
    lemma_saved_last(v);
}

/// Redoing what was just undone returns to the state before the undo.
pub proof fn law_redo_after_undo(v: InputView)
    requires
        v.undo.len() > 0,
    ensures
        v.undone().redone() == v,
{
    let u = v.undone();
    assert(u.redo.len() > 0);
    assert(u.redo.drop_last() =~= v.redo);
    assert(u.undo.push(SnapshotView { text: u.text, selection: u.selection }) =~= v.undo);
}

/// Undoing what was just redone returns to the state before the redo.
pub proof fn law_undo_after_redo(v: InputView)
    requires
        v.redo.len() > 0,
    ensures
        v.redone().undone() == v,
{
    let r = v.redone();
    assert(r.undo.drop_last() =~= v.undo);
    assert(r.redo.push(SnapshotView { text: r.text, selection: r.selection }) =~= v.redo);
}

/// The characters of `s` between boundaries, around a splice.
proof fn lemma_splice_parts(s: Seq<char>, a: int, b: int, ins: Seq<char>)
    requires
        a <= b <= byte_len(s),
        is_boundary(s, a),
        is_boundary(s, b),
    ensures
        char_floor(splice(s, a, b, ins), a) == char_floor(s, a),
        char_floor(splice(s, a, b, ins), a + byte_len(ins)) == char_floor(s, a) + ins.len(),
        splice(s, a, b, ins).take(char_floor(s, a) as int) == s.take(char_floor(s, a) as int),
        splice(s, a, b, ins).skip(char_floor(s, a) as int + ins.len()) == s.skip(char_floor(s, b) as int),
{
    lemma_splice(s, a, b, ins);
    let ka = char_floor(s, a) as int;
    let kb = char_floor(s, b) as int;
    let p = s.take(ka);
    let q = s.skip(kb);
    let next = p + ins + q;
    lemma_boundary_le_len(s, a);
    crate::text_offsets::lemma_take_full(p);
    crate::text_offsets::lemma_take_full(ins);
    crate::text_offsets::lemma_offset_concat_left(p, ins, ka);
    crate::text_offsets::lemma_offset_concat_left(p + ins, q, ka);
    crate::text_offsets::lemma_offset_concat_right(p, ins, ins.len() as int);
    crate::text_offsets::lemma_offset_concat_left(p + ins, q, ka + ins.len());
    lemma_offset_is_boundary(next, ka);
    lemma_offset_is_boundary(next, ka + ins.len());
    assert(next.take(ka) =~= p);
    assert(next.skip(ka + ins.len()) =~= q);
}

/// While composing, each update replaces the text the previous update
/// marked: composing `first` and then `second` (or committing `second`)
/// leaves the text as if only `second` had been entered.
pub proof fn law_composition_replaces_marked_text(
    v: InputView,
    first: Seq<char>,
    second: Seq<char>,
    selected_utf16: Option<Range<usize>>,
)
    requires
        first.len() > 0,
        byte_len(v.text) + byte_len(first) <= usize::MAX,
        v.edit_range(None).0 <= v.edit_range(None).1 <= byte_len(v.text),
        is_boundary(v.text, v.edit_range(None).0),
        is_boundary(v.text, v.edit_range(None).1),
    ensures
        v.composed(None, first, selected_utf16).composed(None, second, None).text
            == v.replaced_text(None, second),
        v.composed(None, first, selected_utf16).edited(None, second).text == v.replaced_text(
            None,
            second,
        ),
        v.composed(None, first, selected_utf16).marked == Some(
            Selection::new_spec(
                v.edit_range(None).0 as usize,
                (v.edit_range(None).0 + byte_len(first)) as usize,
            ),
        ),
{
    let (a, b) = v.edit_range(None);
    let s = v.text;
    let w = v.composed(None, first, selected_utf16);
    lemma_splice(s, a, b, first);
    lemma_splice_parts(s, a, b, first);
    let t1 = splice(s, a, b, first);
    let n1 = byte_len(first) as int;
    assert(w.text == t1);
    assert(byte_len(t1) == a + n1 + (byte_len(s) - b));
    assert(w.marked == Some(Selection { start: a as usize, end: (a + n1) as usize }));
    assert(w.edit_range(None) == (a, a + n1));
    lemma_boundary_le_len(t1, a + n1);
    let t2 = splice(t1, a, a + n1, second);
    assert(t2 =~= s.take(char_floor(s, a) as int) + second + s.skip(char_floor(s, b) as int));
}

/// Converting a character boundary to UTF-16 and back gives it back.
pub proof fn law_utf16_round_trip(s: Seq<char>, b: int)
    requires
        is_boundary(s, b),
    ensures
        byte_of_utf16(s, utf16_of_byte(s, b)) == b,
{
    lemma_boundary_le_len(s, b);
    lemma_utf16_floor_of_offset(s, char_floor(s, b) as int);
}


/// Abstract state of a one-time-password input.
pub struct OtpView {
    pub value: Seq<char>,
    pub masked: bool,
    pub length: usize,
    pub disabled: bool,
}

/// A fixed-length code input that accepts digits only.
pub struct OtpState {
    value: String,
    masked: bool,
    length: usize,
    disabled: bool,
}

impl View for OtpState {
    type V = OtpView;

    closed spec fn view(&self) -> OtpView {
        OtpView {
            value: self.value@,
            masked: self.masked,
            length: self.length,
            disabled: self.disabled,
        }
    }
}

impl OtpView {
    /// The state after pressing `key`.
    pub open spec fn after_key(self, key: Seq<char>) -> OtpView {
        if self.disabled {
            self
        } else if key == "backspace"@ {
            if self.value.len() > 0 {
                OtpView { value: self.value.drop_last(), ..self }
            } else {
                self
            }
        } else if key.len() > 0 && '0' <= key[0] <= '9' && self.value.len() < self.length {
            OtpView { value: self.value.push(key[0]), ..self }
        } else {
            self
        }
    }
}

impl OtpState {
    /// A code input of `length` digits (at least one).
    pub fn new(length: usize) -> (r: Self)
        ensures
            r@.value == Seq::<char>::empty(),
            r@.length == (if length > 1 {
                length
            } else {
                1
            }),
            !r@.masked && !r@.disabled,
    {
        OtpState {
            value: String::new(),
            masked: false,
            length: if length > 1 {
                length
            } else {
                1
            },
            disabled: false,
        }
    }

    pub fn default_value(self, value: &str) -> (r: Self)
        ensures
            r@ == (OtpView { value: value@, ..self@ }),
    {
        let mut this = self;
        this.value = value.to_owned();
        this
    }

    /// Replaces the value (the input then emits `Change`).
    pub fn set_value(&mut self, value: &str)
        ensures
            final(self)@ == (OtpView { value: value@, ..old(self)@ }),
    {
        self.value = value.to_owned();
    }

    pub fn value(&self) -> (r: &str)
        ensures
            r@ == self@.value,
    {
        self.value.as_str()
    }

    pub fn masked(self, masked: bool) -> (r: Self)
        ensures
            r@ == (OtpView { masked: masked, ..self@ }),
    {
        let mut this = self;
        this.masked = masked;
        this
    }

    pub fn set_masked(&mut self, masked: bool)
        ensures
            final(self)@ == (OtpView { masked: masked, ..old(self)@ }),
    {
        self.masked = masked;
    }

    pub fn is_masked(&self) -> (r: bool)
        ensures
            r == self@.masked,
    {
        self.masked
    }

    /// Number of digits of the code.
    pub fn length(&self) -> (r: usize)
        ensures
            r == self@.length,
    {
        self.length
    }

    /// A key press: Backspace removes the last digit, a digit is appended
    /// while the code is incomplete. Returns whether the value changed.
    pub fn on_key_down(&mut self, key: &str) -> (changed: bool)
        ensures
            final(self)@ == old(self)@.after_key(key@),
            changed == (final(self)@.value != old(self)@.value),
    {
        if self.disabled {
            return false;
        }
        let mut chars = chars_of(self.value.as_str());
        if crate::text_offsets::str_equal(key, "backspace") {
            if chars.len() > 0 {
                chars.pop();
                self.value = crate::text_offsets::string_from_chars(chars.as_slice());
                proof {
                    assert(chars@ =~= old(self)@.value.drop_last());
                }
                return true;
            }
            return false;
        }
        let key_chars = chars_of(key);
        if key_chars.len() > 0 && '0' <= key_chars[0] && key_chars[0] <= '9' && chars.len()
            < self.length {
            chars.push(key_chars[0]);
            self.value = crate::text_offsets::string_from_chars(chars.as_slice());
            proof {
                assert(self@.value.len() == old(self)@.value.len() + 1);
            }
            return true;
        }
        false
    }
}

/// A step of a number input.
#[derive(Clone, Copy, PartialEq, Eq, Structural)]
pub enum StepAction {
    Decrement,
    Increment,
}

/// Events a number input emits.
pub enum NumberInputEvent {
    Step(StepAction),
}

/// What an input draws around its text.
#[derive(Debug, Clone, Copy, PartialEq, Eq, Structural)]
pub struct InputDecorations {
    /// The input shows itself focused.
    pub focused: bool,
    /// The clear button is shown.
    pub show_clear_button: bool,
    /// Something (spinner, mask toggle or clear button) follows the text.
    pub has_suffix: bool,
    /// The placeholder is shown in place of the text.
    pub show_placeholder: bool,
}

impl InputState {
    /// What the input draws around its text, given whether it can be
    /// cleared, whether it has a mask toggle and whether it holds the
    /// window's focus: focused only when enabled; a clear button when
    /// clearable, enabled, not loading and not empty; the placeholder when
    /// empty and not focused.
    pub fn decorations(&self, cleanable: bool, mask_toggle: bool, window_focused: bool) -> (r:
        InputDecorations)
        ensures
            r.focused == (window_focused && !self@.disabled),
            r.show_clear_button == (cleanable && !self@.disabled && !self@.loading
                && self@.text.len() > 0),
            r.has_suffix == (self@.loading || mask_toggle || r.show_clear_button),
            r.show_placeholder == (self@.text.len() == 0 && !r.focused),
    {
        let empty = str_byte_len(self.text.as_str()) == 0;
        proof {
            if self@.text.len() > 0 {
                let t = self@.text;
                assert(t.take(t.len() - 1) =~= t.drop_last());
                crate::text_offsets::lemma_width_pos(t.last());
            } else {
                assert(self@.text =~= Seq::<char>::empty());
            }
        }
        let focused = window_focused && !self.disabled;
        let show_clear_button = cleanable && !self.disabled && !self.loading && !empty;
        InputDecorations {
            focused,
            show_clear_button,
            has_suffix: self.loading || mask_toggle || show_clear_button,
            show_placeholder: empty && !focused,
        }
    }
}

/// A key press on an enabled code input: a key starting with an ASCII digit
/// `0` to `9` appends that digit while the code is shorter than its
/// length; a full code, or a key starting with anything else (but
/// Backspace), leaves the value as it was; Backspace takes the last digit
/// off.
pub proof fn law_otp_digits_are_appended(v: OtpView, key: Seq<char>)
    requires
        !v.disabled,
        key.len() > 0,
    ensures
        ('0' <= key[0] <= '9') && v.value.len() < v.length ==> v.after_key(
            key,
        ).value == v.value.push(key[0]),
        !('0' <= key[0] <= '9') && key != "backspace"@ ==> v.after_key(
            key,
        ).value == v.value,
        v.value.len() >= v.length && key != "backspace"@ ==> v.after_key(key).value == v.value,
        key == "backspace"@ && v.value.len() > 0 ==> v.after_key(key).value + seq![v.value.last()]
            == v.value,
{
    reveal_strlit("backspace");
    if key == "backspace"@ && v.value.len() > 0 {
        assert(v.value.drop_last() + seq![v.value.last()] =~= v.value);
    }
    if '0' <= key[0] <= '9' {
        assert(key != "backspace"@) by {
            if key == "backspace"@ {
                assert(key[0] == 'b');
            }
        }
    }
}

/// A caret at the start of character `i` stands after exactly `i`
/// characters.
proof fn lemma_chars_before_offset(s: Seq<char>, i: int)
    requires
        0 <= i <= s.len(),
    ensures
        chars_before(s, byte_offset(s, i) as int) == i,
        byte_offset(s, i) <= byte_len(s),
{
    lemma_offset_end(s);
    lemma_offset_mono(s, i, s.len() as int);
    if i == 0 {
        assert(s.take(0) =~= Seq::<char>::empty());
    } else {
        lemma_offset_mono(s, 0, i);
        assert(s.take(0) =~= Seq::<char>::empty());
        lemma_offset_succ(s, i - 1);
        crate::text_offsets::lemma_width_pos(s[i - 1]);
        lemma_char_floor_unique(s, byte_offset(s, i) - 1, i - 1);
    }
}

/// Moving back from a boundary takes exactly one character; at the start
/// of the text the caret stays.
pub proof fn law_previous_boundary_is_one_character_back(s: Seq<char>, i: int)
    requires
        0 <= i <= s.len(),
    ensures
        i == 0 ==> previous_boundary(s, byte_offset(s, i) as int) == 0,
        i > 0 ==> is_boundary(s, previous_boundary(s, byte_offset(s, i) as int)),
        i > 0 ==> previous_boundary(s, byte_offset(s, i) as int) + crate::text_offsets::utf8_width(
            s[i - 1],
        ) == byte_offset(s, i),
{
    let o = byte_offset(s, i) as int;
    lemma_offset_end(s);
    lemma_offset_mono(s, i, s.len() as int);
    lemma_offset_is_boundary(s, i);
    if i == 0 {
        assert(s.take(0) =~= Seq::<char>::empty());
    } else {
        lemma_offset_is_boundary(s, i - 1);
        lemma_offset_succ(s, i - 1);
    }
}

/// Moving forward from a boundary takes exactly one character; at the end
/// of the text the caret stays.
pub proof fn law_next_boundary_is_one_character_on(s: Seq<char>, i: int)
    requires
        0 <= i <= s.len(),
    ensures
        i == s.len() ==> next_boundary(s, byte_offset(s, i) as int) == byte_len(s),
        i < s.len() ==> is_boundary(s, next_boundary(s, byte_offset(s, i) as int)),
        i < s.len() ==> next_boundary(s, byte_offset(s, i) as int) == byte_offset(s, i)
            + crate::text_offsets::utf8_width(s[i]),
{
    lemma_offset_end(s);
    lemma_offset_mono(s, i, s.len() as int);
    lemma_offset_is_boundary(s, i);
    if i < s.len() {
        lemma_offset_mono(s, i, i + 1);
        lemma_offset_mono(s, i + 1, s.len() as int);
        lemma_offset_is_boundary(s, i + 1);
        lemma_offset_succ(s, i);
    }
}

proof fn lemma_forward_over_space_stops(s: Seq<char>, i: int)
    requires
        0 <= i <= s.len(),
    ensures
        i <= forward_over_space(s, i) <= s.len(),
        forall|p: int| i <= p < forward_over_space(s, i) ==> is_white_space(#[trigger] s[p]),
        forward_over_space(s, i) == s.len() || !is_white_space(s[forward_over_space(s, i)]),
    decreases s.len() - i,
{
    if 0 <= i < s.len() && is_white_space(s[i]) {
        lemma_forward_over_space_stops(s, i + 1);
    }
}

proof fn lemma_forward_over_word_stops(s: Seq<char>, i: int)
    requires
        0 <= i <= s.len(),
    ensures
        i <= forward_over_word(s, i) <= s.len(),
        forall|p: int| i <= p < forward_over_word(s, i) ==> !is_white_space(#[trigger] s[p]),
        forward_over_word(s, i) == s.len() || is_white_space(s[forward_over_word(s, i)]),
    decreases s.len() - i,
{
    if 0 <= i < s.len() && !is_white_space(s[i]) {
        lemma_forward_over_word_stops(s, i + 1);
    }
}

/// The characters `i..j` of `s` are whitespace and `j..m` are not; that
/// word is not empty unless the text ends at `m`, and whitespace or the end
/// of the text follows it.
pub open spec fn space_then_word(s: Seq<char>, i: int, j: int, m: int) -> bool {
    &&& 0 <= i <= j <= m <= s.len()
    &&& forall|p: int| i <= p < j ==> is_white_space(#[trigger] s[p])
    &&& forall|p: int| j <= p < m ==> !is_white_space(#[trigger] s[p])
    &&& (j < m || m == s.len())
    &&& (m == s.len() || is_white_space(s[m]))
}

/// From a caret at the start of character `i`, the next word end lies past
/// any whitespace and then past the word that follows: the characters up
/// to it are whitespace (from `i` to `j`) then non-whitespace (from `j` to
/// `m`), the word is not empty unless the text ends, and it ends at
/// whitespace or the end of the text. Before the end of the text the caret
/// always moves forward.
pub proof fn law_next_word_end_skips_space_then_word(s: Seq<char>, i: int)
    requires
        0 <= i <= s.len(),
    ensures
        i < s.len() ==> next_word_end_of(s, byte_offset(s, i) as int) > byte_offset(s, i),
        exists|j: int, m: int|
            #[trigger] space_then_word(s, i, j, m) && next_word_end_of(s, byte_offset(s, i) as int)
                == byte_offset(s, m),
{
    let o = byte_offset(s, i) as int;
    if s.len() == 0 {
        assert(s.take(0) =~= Seq::<char>::empty());
        assert(next_word_end_of(s, o) == byte_offset(s, 0));
        assert(space_then_word(s, i, 0, 0));
    } else {
        lemma_chars_before_offset(s, i);
        lemma_forward_over_space_stops(s, i);
        let j = forward_over_space(s, i);
        lemma_forward_over_word_stops(s, j);
        let m = forward_over_word(s, j);
        assert(next_word_end_of(s, o) == byte_offset(s, m));
        if i < s.len() {
            assert(i < m);
            lemma_offset_mono(s, i, m);
        }
        assert(j < m || m == s.len());
        assert(space_then_word(s, i, j, m));
    }
}

/// The characters `a..j` of `s` are not whitespace and `j..i` are; that
/// word is not empty unless it starts the text, and whitespace or the start
/// of the text comes before it.
pub open spec fn word_then_space(s: Seq<char>, a: int, j: int, i: int) -> bool {
    &&& 0 <= a <= j <= i <= s.len()
    &&& forall|p: int| a <= p < j ==> !is_white_space(#[trigger] s[p])
    &&& forall|p: int| j <= p < i ==> is_white_space(#[trigger] s[p])
    &&& (a < j || a == 0)
    &&& (a == 0 || is_white_space(s[a - 1]))
}

proof fn lemma_back_over_space_stops(s: Seq<char>, i: int)
    requires
        0 <= i < s.len(),
    ensures
        0 <= back_over_space(s, i) <= i,
        forall|p: int| back_over_space(s, i) < p <= i ==> is_white_space(#[trigger] s[p]),
        back_over_space(s, i) == 0 || !is_white_space(s[back_over_space(s, i)]),
    decreases i,
{
    if i > 0 && is_white_space(s[i]) {
        lemma_back_over_space_stops(s, i - 1);
    }
}

proof fn lemma_back_to_word_start_stops(s: Seq<char>, i: int)
    requires
        0 <= i < s.len(),
    ensures
        0 <= back_to_word_start(s, i) <= i,
        forall|p: int| back_to_word_start(s, i) <= p < i ==> !is_white_space(#[trigger] s[p]),
        back_to_word_start(s, i) == 0 || is_white_space(s[back_to_word_start(s, i) - 1]),
    decreases i,
{
    if i > 0 && !is_white_space(s[i - 1]) {
        lemma_back_to_word_start_stops(s, i - 1);
    }
}

/// From a caret at the start of character `i`, the previous word start lies
/// before any whitespace and then before the word that precedes it: the
/// characters from it are non-whitespace (from `a` to `j`) then whitespace
/// (from `j` to `i`), the word is not empty unless the text starts there,
/// and whitespace or the start of the text comes before it. After the start
/// of the text the caret always moves back.
pub proof fn law_previous_word_start_skips_space_then_word(s: Seq<char>, i: int)
    requires
        0 <= i <= s.len(),
    ensures
        i > 0 ==> previous_word_start_of(s, byte_offset(s, i) as int) < byte_offset(s, i),
        exists|a: int, j: int|
            #[trigger] word_then_space(s, a, j, i) && previous_word_start_of(
                s,
                byte_offset(s, i) as int,
            ) == byte_offset(s, a),
{
    let o = byte_offset(s, i) as int;
    assert(s.take(0) =~= Seq::<char>::empty());
    if s.len() == 0 {
        assert(word_then_space(s, 0, 0, i));
    } else {
        lemma_chars_before_offset(s, i);
        let i1 = if i > 0 {
            i - 1
        } else {
            0
        };
        lemma_back_over_space_stops(s, i1);
        let q = back_over_space(s, i1);
        lemma_back_to_word_start_stops(s, q);
        let a = back_to_word_start(s, q);
        assert(previous_word_start_of(s, o) == byte_offset(s, a));
        if i == 0 {
            assert(word_then_space(s, 0, 0, 0));
        } else {
            let j = if is_white_space(s[q]) {
                q
            } else {
                q + 1
            };
            assert(word_then_space(s, a, j, i));
            lemma_offset_mono(s, a, i);
        }
    }
}

} // verus!
