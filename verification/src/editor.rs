//! The editor's backend protocol and the rope-backed buffer that edits
//! text through it.
use vstd::prelude::*;
use std::ops::Range;
use ropey::Rope;
use crate::badge::{decimal, decimal_string};
use crate::text_offsets::{byte_len, char_floor, lemma_char_floor, lemma_offset_mono, string_from_chars};
use crate::text_wrapper::{line_count_of, row_bounds, row_start, split_chars, split_lines};

verus! {

#[verifier::external_type_specification]
#[verifier::external_body]
pub struct ExRope(Rope);

/// The characters a rope holds.
pub uninterp spec fn rope_text(r: Rope) -> Seq<char>;

/// `Rope::from_str`: a rope holding exactly the characters of `text`.
#[verifier::external_body]
pub(crate) fn rope_from_str(text: &str) -> (r: Rope)
    ensures
        rope_text(r) == text@,
{
    Rope::from_str(text)
}

/// `Rope::len_bytes`: the number of bytes of the rope's UTF-8 text.
#[verifier::external_body]
pub(crate) fn rope_len_bytes(rope: &Rope) -> (r: usize)
    ensures
        r == byte_len(rope_text(*rope)),
{
    rope.len_bytes()
}

/// `Rope::byte_to_char`: the index of the character that byte `byte_idx`
/// belongs to (one past the end for the end of the text); it panics past
/// the end, which `requires` leaves out.
#[verifier::external_body]
pub(crate) fn rope_byte_to_char(rope: &Rope, byte_idx: usize) -> (r: usize)
    requires
        byte_idx <= byte_len(rope_text(*rope)),
    ensures
        r == char_floor(rope_text(*rope), byte_idx as int),
{
    rope.byte_to_char(byte_idx)
}

/// `Rope::remove`: removes the characters `start..end`; it panics on a
/// reversed or out-of-bounds range, which `requires` leaves out.
#[verifier::external_body]
pub(crate) fn rope_remove(rope: &mut Rope, start: usize, end: usize)
    requires
        start <= end <= rope_text(*old(rope)).len(),
    ensures
        rope_text(*final(rope)) == rope_text(*old(rope)).take(start as int) + rope_text(
            *old(rope),
        ).skip(end as int),
{
    rope.remove(start..end)
}

/// `Rope::insert`: inserts `text` before the character `char_idx`; it
/// panics past the end, which `requires` leaves out.
#[verifier::external_body]
pub(crate) fn rope_insert(rope: &mut Rope, char_idx: usize, text: &str)
    requires
        char_idx <= rope_text(*old(rope)).len(),
    ensures
        rope_text(*final(rope)) == rope_text(*old(rope)).take(char_idx as int) + text@
            + rope_text(*old(rope)).skip(char_idx as int),
{
    rope.insert(char_idx, text)
}

/// `Rope::clone`: a rope sharing the same text.
#[verifier::external_body]
pub(crate) fn rope_clone(rope: &Rope) -> (r: Rope)
    ensures
        rope_text(r) == rope_text(*rope),
{
    rope.clone()
}

/// `Rope::new`: an empty rope.
#[verifier::external_body]
pub(crate) fn rope_new() -> (r: Rope)
    ensures
        rope_text(r) == Seq::<char>::empty(),
{
    Rope::new()
}

/// `Rope`'s `==`: whether two ropes hold the same text (compared byte by
/// byte across their chunks).
#[verifier::external_body]
pub(crate) fn rope_eq(a: &Rope, b: &Rope) -> (r: bool)
    ensures
        r == (rope_text(*a) == rope_text(*b)),
{
    a == b
}

/// `Rope::len_chars`: the number of characters in the rope.
#[verifier::external_body]
pub(crate) fn rope_len_chars(rope: &Rope) -> (r: usize)
    ensures
        r == rope_text(*rope).len(),
{
    rope.len_chars()
}

/// `Rope::char`: the character at `char_idx`; it panics past the last
/// character, which `requires` leaves out.
#[verifier::external_body]
pub(crate) fn rope_char(rope: &Rope, char_idx: usize) -> (r: char)
    requires
        char_idx < rope_text(*rope).len(),
    ensures
        r == rope_text(*rope)[char_idx as int],
{
    rope.char(char_idx)
}

/// `Rope::char_to_byte`: the byte at which the character `char_idx` starts
/// (the byte length for one past the end); it panics further on, which
/// `requires` leaves out.
#[verifier::external_body]
pub(crate) fn rope_char_to_byte(rope: &Rope, char_idx: usize) -> (r: usize)
    requires
        char_idx <= rope_text(*rope).len(),
    ensures
        r == crate::text_offsets::byte_offset(rope_text(*rope), char_idx as int),
{
    rope.char_to_byte(char_idx)
}

/// How many of the rows `start..end` exist in a text of `n` lines.
pub open spec fn rows_shown(start: int, end: int, n: int) -> int {
    let stop = if end < n {
        end
    } else {
        n
    };
    if start < stop {
        stop - start
    } else {
        0
    }
}

/// `Rope::len_utf16_cu`: the number of UTF-16 code units of the rope's
/// text.
#[verifier::external_body]
pub(crate) fn rope_len_utf16(rope: &Rope) -> (r: usize)
    ensures
        r == crate::text_offsets::utf16_len(rope_text(*rope)),
{
    rope.len_utf16_cu()
}

/// `Rope::utf16_cu_to_char`: the index of the character that UTF-16 code
/// unit `utf16_idx` belongs to (the character count at the end); it panics
/// past the end, which `requires` leaves out.
#[verifier::external_body]
pub(crate) fn rope_utf16_to_char(rope: &Rope, utf16_idx: usize) -> (r: usize)
    requires
        utf16_idx <= crate::text_offsets::utf16_len(rope_text(*rope)),
    ensures
        r == crate::text_offsets::utf16_floor(rope_text(*rope), utf16_idx as int),
{
    rope.utf16_cu_to_char(utf16_idx)
}

/// `Rope::char_to_utf16_cu`: the UTF-16 code unit at which character
/// `char_idx` starts; it panics past the end, which `requires` leaves out.
#[verifier::external_body]
pub(crate) fn rope_char_to_utf16(rope: &Rope, char_idx: usize) -> (r: usize)
    requires
        char_idx <= rope_text(*rope).len(),
    ensures
        r == crate::text_offsets::utf16_offset(rope_text(*rope), char_idx as int),
{
    rope.char_to_utf16_cu(char_idx)
}

/// `Rope`'s `to_string` (its `Display`): the rope's text, chunk after
/// chunk.
#[verifier::external_body]
pub(crate) fn rope_to_string(rope: &Rope) -> (r: String)
    ensures
        r@ == rope_text(*rope),
{
    rope.to_string()
}

/// A pointer button, as the editor backend sees it.
#[derive(Clone, Copy, Debug, PartialEq, Eq, Structural)]
pub enum EditorPointerButton {
    Left,
    Right,
    Middle,
    Other,
}

/// What a backend lets the editor do.
#[derive(Clone, Copy, Debug, PartialEq, Eq, Structural)]
pub struct EditorBackendCapabilities {
    pub editable: bool,
    pub custom_line_numbers: bool,
    pub custom_highlighter: bool,
}

impl Default for EditorBackendCapabilities {
    /// Editable, with the editor's own line numbers and highlighting.
    fn default() -> (r: Self)
        ensures
            r == (EditorBackendCapabilities {
                editable: true,
                custom_line_numbers: false,
                custom_highlighter: false,
            }),
    {
        EditorBackendCapabilities {
            editable: true,
            custom_line_numbers: false,
            custom_highlighter: false,
        }
    }
}

impl EditorBackendCapabilities {
    /// Not editable, with the editor's own line numbers and highlighting.
    pub fn read_only() -> (r: Self)
        ensures
            r == (EditorBackendCapabilities {
                editable: false,
                custom_line_numbers: false,
                custom_highlighter: false,
            }),
    {
        EditorBackendCapabilities {
            editable: false,
            custom_line_numbers: false,
            custom_highlighter: false,
        }
    }
}

/// A request to replace the bytes `range` with `new_text`; `marked` text
/// is an IME composition.
#[derive(Debug)]
pub struct EditorBackendEditRequest {
    pub range: Range<u64>,
    pub new_text: String,
    pub marked: bool,
}

impl Clone for EditorBackendEditRequest {
    fn clone(&self) -> (r: Self)
        ensures
            r.range == self.range,
            r.new_text@ == self.new_text@,
            r.marked == self.marked,
    {
        EditorBackendEditRequest {
            range: self.range.start..self.range.end,
            new_text: self.new_text.clone(),
            marked: self.marked,
        }
    }
}

/// The outcome of an accepted edit: the selection and cursor to show.
#[derive(Debug, PartialEq, Eq)]
pub struct EditorBackendEditResult {
    pub accepted: bool,
    pub selection: Option<Range<u64>>,
    pub cursor: Option<u64>,
}

impl Default for EditorBackendEditResult {
    /// Accepted, leaving selection and cursor to the editor.
    fn default() -> (r: Self)
        ensures
            r.accepted,
            r.selection is None,
            r.cursor is None,
    {
        EditorBackendEditResult { accepted: true, selection: None, cursor: None }
    }
}

/// Why a backend refused an edit.
#[derive(Clone, Debug, PartialEq, Eq)]
pub enum EditorEditError {
    /// The backend does not edit.
    Unsupported,
    /// The backend refused this edit, for the given reason.
    Rejected(String),
}

/// A position in soft-wrapped text.
#[derive(Debug, Clone, Copy, PartialEq, Eq, Structural)]
pub struct DisplayPoint {
    /// The soft-wrapped row.
    pub row: usize,
    /// The row within its line.
    pub local_row: usize,
    /// The byte column within the display row.
    pub column: usize,
}

impl DisplayPoint {
    pub fn new(row: usize, local_row: usize, column: usize) -> (r: Self)
        ensures
            r == (DisplayPoint { row, local_row, column }),
    {
        DisplayPoint { row, local_row, column }
    }
}

/// The text after replacing the characters that hold bytes `start..end`
/// (each end taken to the character it falls in) with `new_text`.
pub open spec fn replace_bytes(text: Seq<char>, start: int, end: int, new_text: Seq<char>) -> Seq<
    char,
> {
    text.take(char_floor(text, start) as int) + new_text + text.skip(char_floor(text, end) as int)
}

/// The text of a buffer backend after an edit of the bytes `range`,
/// clamped to the text.
pub open spec fn edited_text(text: Seq<char>, range: Range<u64>, new_text: Seq<char>) -> Seq<char> {
    let len = byte_len(text) as int;
    let start = if (range.start as usize) < len {
        (range.start as usize) as int
    } else {
        len
    };
    let end = if (range.end as usize) < len {
        (range.end as usize) as int
    } else {
        len
    };
    replace_bytes(text, start, end, new_text)
}

/// The byte the cursor lands on after an edit: after the inserted text,
/// within the new text.
pub open spec fn edit_cursor(text: Seq<char>, range: Range<u64>, new_text: Seq<char>) -> u64 {
    let len = byte_len(text) as int;
    let start = if (range.start as usize) < len {
        (range.start as usize) as int
    } else {
        len
    };
    let after = start + byte_len(new_text);
    let new_len = byte_len(edited_text(text, range, new_text)) as int;
    (if after < new_len {
        after
    } else {
        new_len
    }) as u64
}

/// A text buffer held in a rope, with a language for highlighting, a
/// revision counter and a read-only switch.
pub struct RopeBufferBackend {
    revision: u64,
    language: String,
    text: Rope,
    read_only: bool,
}

impl RopeBufferBackend {
    pub closed spec fn text_spec(&self) -> Seq<char> {
        rope_text(self.text)
    }

    pub closed spec fn revision_spec(&self) -> u64 {
        self.revision
    }

    pub closed spec fn language_spec(&self) -> Seq<char> {
        self.language@
    }

    pub closed spec fn read_only_spec(&self) -> bool {
        self.read_only
    }

    /// An editable buffer holding `text`, at revision 0, in the language
    /// "text".
    pub fn new(text: &str) -> (r: Self)
        ensures
            r.text_spec() == text@,
            r.revision_spec() == 0,
            r.language_spec() == "text"@,
            !r.read_only_spec(),
    {
        RopeBufferBackend {
            revision: 0,
            language: String::from_str("text"),
            text: rope_from_str(text),
            read_only: false,
        }
    }

    /// The same buffer in `language`.
    pub fn with_language(self, language: String) -> (r: Self)
        ensures
            r.language_spec() == language@,
            r.text_spec() == self.text_spec(),
            r.revision_spec() == self.revision_spec(),
            r.read_only_spec() == self.read_only_spec(),
    {
        RopeBufferBackend { language, ..self }
    }

    /// The same buffer, read-only or not.
    pub fn with_read_only(self, read_only: bool) -> (r: Self)
        ensures
            r.read_only_spec() == read_only,
            r.text_spec() == self.text_spec(),
            r.revision_spec() == self.revision_spec(),
            r.language_spec() == self.language_spec(),
    {
        RopeBufferBackend { read_only, ..self }
    }

    /// Switches the language, which starts a new revision.
    pub fn set_language(&mut self, language: String)
        ensures
            final(self).language_spec() == language@,
            final(self).revision_spec() == (if old(self).revision_spec() == u64::MAX {
                0
            } else {
                old(self).revision_spec() + 1
            }),
            final(self).text_spec() == old(self).text_spec(),
            final(self).read_only_spec() == old(self).read_only_spec(),
    {
        self.language = language;
        self.bump_revision();
    }

    /// Makes the buffer read-only or editable.
    pub fn set_read_only(&mut self, read_only: bool)
        ensures
            final(self).read_only_spec() == read_only,
            final(self).text_spec() == old(self).text_spec(),
            final(self).revision_spec() == old(self).revision_spec(),
            final(self).language_spec() == old(self).language_spec(),
    {
        self.read_only = read_only;
    }

    /// The text.
    pub fn text(&self) -> (r: &Rope)
        ensures
            rope_text(*r) == self.text_spec(),
    {
        &self.text
    }

    /// The language.
    pub fn language(&self) -> (r: &String)
        ensures
            r@ == self.language_spec(),
    {
        &self.language
    }

    /// The revision, which every edit and language switch advances.
    pub fn revision(&self) -> (r: u64)
        ensures
            r == self.revision_spec(),
    {
        self.revision
    }

    /// Editable unless read-only; highlighting is the buffer's own.
    pub fn capabilities(&self) -> (r: EditorBackendCapabilities)
        ensures
            r == (EditorBackendCapabilities {
                editable: !self.read_only_spec(),
                custom_line_numbers: false,
                custom_highlighter: true,
            }),
    {
        EditorBackendCapabilities {
            editable: !self.read_only,
            custom_line_numbers: false,
            custom_highlighter: true,
        }
    }

    /// A snapshot of the text at the current revision.
    pub fn snapshot(&self) -> (r: RopeEditorSnapshot)
        ensures
            r.revision_spec() == self.revision_spec(),
            r.text_spec() == self.text_spec(),
    {
        RopeEditorSnapshot::new(self.revision, rope_clone(&self.text))
    }

    fn bump_revision(&mut self)
        ensures
            final(self).revision == (if old(self).revision == u64::MAX {
                0
            } else {
                old(self).revision + 1
            }),
            final(self).text == old(self).text,
            final(self).language == old(self).language,
            final(self).read_only == old(self).read_only,
    {
        self.revision = self.revision.wrapping_add(1);
    }

    /// Replaces the bytes `request.range`, clamped to the text, with
    /// `request.new_text`, and puts the cursor after the inserted text;
    /// a read-only buffer refuses with `Unsupported` and stays as it was.
    pub fn apply_edit(&mut self, request: EditorBackendEditRequest) -> (r: Result<
        EditorBackendEditResult,
        EditorEditError,
    >)
        requires
            request.range.start <= request.range.end,
            request.range.end <= usize::MAX,
            byte_len(old(self).text_spec()) + byte_len(request.new_text@) <= usize::MAX,
        ensures
            old(self).read_only_spec() ==> r == Err::<EditorBackendEditResult, EditorEditError>(
                EditorEditError::Unsupported,
            ) && final(self).text_spec() == old(self).text_spec() && final(self).revision_spec()
                == old(self).revision_spec(),
            !old(self).read_only_spec() ==> {
                &&& r == Ok::<EditorBackendEditResult, EditorEditError>(
                    EditorBackendEditResult {
                        accepted: true,
                        selection: None,
                        cursor: Some(
                            edit_cursor(old(self).text_spec(), request.range, request.new_text@),
                        ),
                    },
                )
                &&& final(self).text_spec() == edited_text(
                    old(self).text_spec(),
                    request.range,
                    request.new_text@,
                )
                &&& final(self).revision_spec() == (if old(self).revision_spec() == u64::MAX {
                    0
                } else {
                    old(self).revision_spec() + 1
                })
            },
            final(self).language_spec() == old(self).language_spec(),
            final(self).read_only_spec() == old(self).read_only_spec(),
    {
        if self.read_only {
            return Err(EditorEditError::Unsupported);
        }
        let ghost old_text = rope_text(self.text);
        let len = rope_len_bytes(&self.text);
        let start = if (request.range.start as usize) < len {
            request.range.start as usize
        } else {
            len
        };
        let end = if (request.range.end as usize) < len {
            request.range.end as usize
        } else {
            len
        };
        proof {
            lemma_char_floor_mono(old_text, start as int, end as int);
            lemma_char_floor(old_text, end as int);
        }
        let char_start = rope_byte_to_char(&self.text, start);
        let char_end = rope_byte_to_char(&self.text, end);
        rope_remove(&mut self.text, char_start, char_end);
        rope_insert(&mut self.text, char_start, request.new_text.as_str());
        assert(rope_text(self.text) =~= replace_bytes(
            old_text,
            start as int,
            end as int,
            request.new_text@,
        ));
        self.bump_revision();
        let new_len = rope_len_bytes(&self.text);
        let inserted = request.new_text.as_str().len();
        proof {
            crate::text_offsets::lemma_encode_len(request.new_text@);
        }
        let after = start + inserted;
        let cursor = if after < new_len {
            after
        } else {
            new_len
        };
        Ok(EditorBackendEditResult { accepted: true, selection: None, cursor: Some(cursor as u64) })
    }
}

/// `char_floor` grows with the byte offset.
pub proof fn lemma_char_floor_mono(s: Seq<char>, a: int, b: int)
    requires
        0 <= a <= b,
    ensures
        char_floor(s, a) <= char_floor(s, b),
{
    lemma_char_floor(s, a);
    lemma_char_floor(s, b);
    let fa = char_floor(s, a) as int;
    let fb = char_floor(s, b) as int;
    if fb < fa {
        lemma_offset_mono(s, fb + 1, fa);
    }
}


/// The line number shown for row `row`: one more than the row, in decimal
/// (the row itself at the largest row).
pub open spec fn line_number_spec(row: u64) -> Seq<char> {
    decimal(
        if row == u64::MAX {
            row as nat
        } else {
            (row + 1) as nat
        },
    )
}

/// A line of a snapshot: its row, its bytes without the line break, its
/// text and its line number.
#[derive(Debug, PartialEq, Eq)]
pub struct EditorLine {
    pub row: u64,
    pub byte_range: Range<u64>,
    pub text: String,
    pub line_number: String,
}

impl Clone for EditorLine {
    fn clone(&self) -> (r: Self)
        ensures
            r.row == self.row,
            r.byte_range == self.byte_range,
            r.text@ == self.text@,
            r.line_number@ == self.line_number@,
    {
        EditorLine {
            row: self.row,
            byte_range: self.byte_range.start..self.byte_range.end,
            text: self.text.clone(),
            line_number: self.line_number.clone(),
        }
    }
}

/// A revision of an editor's text, held in a rope.
pub struct RopeEditorSnapshot {
    revision: u64,
    text: Rope,
}

impl RopeEditorSnapshot {
    pub closed spec fn text_spec(&self) -> Seq<char> {
        rope_text(self.text)
    }

    pub closed spec fn revision_spec(&self) -> u64 {
        self.revision
    }

    /// The snapshot of `text` at `revision`.
    pub fn new(revision: u64, text: Rope) -> (r: Self)
        ensures
            r.revision_spec() == revision,
            r.text_spec() == rope_text(text),
    {
        RopeEditorSnapshot { revision, text }
    }

    /// The text.
    pub fn text(&self) -> (r: &Rope)
        ensures
            rope_text(*r) == self.text_spec(),
    {
        &self.text
    }

    /// The revision the snapshot was taken at.
    pub fn revision(&self) -> (r: u64)
        ensures
            r == self.revision_spec(),
    {
        self.revision
    }

    /// Bytes in the text.
    pub fn byte_len(&self) -> (r: u64)
        ensures
            r == byte_len(self.text_spec()),
    {
        rope_len_bytes(&self.text) as u64
    }

    /// Number of lines, the empty line after a final line break included.
    pub fn line_count(&self) -> (r: u64)
        ensures
            r == split_lines(self.text_spec()).len(),
    {
        line_count_of(&self.text) as u64
    }

    /// The line number shown for `row`.
    pub fn line_number_text(&self, row: u64) -> (r: String)
        ensures
            r@ == line_number_spec(row),
    {
        decimal_string(
            if row == u64::MAX {
                row
            } else {
                row + 1
            },
        )
    }

    /// The line number of the last row, the widest one shown.
    pub fn max_line_number_text(&self) -> (r: String)
        ensures
            r@ == line_number_spec((split_lines(self.text_spec()).len() - 1) as u64),
    {
        let n = self.line_count();
        proof {
            crate::text_wrapper::lemma_split_len(self.text_spec());
        }
        self.line_number_text(
            if n == 0 {
                0
            } else {
                n - 1
            },
        )
    }

    /// Line `row`, or none past the last line.
    pub fn line(&self, row: u64) -> (r: Option<EditorLine>)
        ensures
            match r {
                Some(l) => {
                    let t = self.text_spec();
                    &&& row < split_lines(t).len()
                    &&& l.row == row
                    &&& l.byte_range.start == row_start(t, row as int)
                    &&& l.byte_range.end == row_start(t, row as int) + byte_len(
                        split_lines(t)[row as int],
                    )
                    &&& l.text@ == split_lines(t)[row as int]
                    &&& l.line_number@ == line_number_spec(row)
                },
                None => row >= split_lines(self.text_spec()).len(),
            },
    {
        let all = split_chars(&self.text);
        if row >= all.len() as u64 {
            return None;
        }
        let r = row as usize;
        match row_bounds(&self.text, r) {
            Some(rg) => {
                let text = string_from_chars(all[r].as_slice());
                Some(
                    EditorLine {
                        row,
                        byte_range: (rg.start as u64)..(rg.end as u64),
                        text,
                        line_number: self.line_number_text(row),
                    },
                )
            },
            None => None,
        }
    }

    /// The bytes of line `row` without its line break, or none past the last
    /// line.
    pub fn line_range(&self, row: u64) -> (r: Option<Range<u64>>)
        ensures
            match r {
                Some(rg) => {
                    let t = self.text_spec();
                    &&& row < split_lines(t).len()
                    &&& rg.start == row_start(t, row as int)
                    &&& rg.end == row_start(t, row as int) + byte_len(split_lines(t)[row as int])
                },
                None => row >= split_lines(self.text_spec()).len(),
            },
    {
        match self.line(row) {
            Some(l) => Some(l.byte_range),
            None => None,
        }
    }

    /// The lines of the rows `rows` that exist, in order.
    pub fn lines(&self, rows: Range<u64>) -> (r: Vec<EditorLine>)
        ensures
            r@.len() == rows_shown(
                rows.start as int,
                rows.end as int,
                split_lines(self.text_spec()).len() as int,
            ),
            forall|k: int|
                0 <= k < r@.len() ==> (#[trigger] r@[k]).row == rows.start + k && r@[k].text@
                    == split_lines(self.text_spec())[rows.start + k],
    {
        let n = self.line_count();
        let stop = if rows.end < n {
            rows.end
        } else {
            n
        };
        let mut out: Vec<EditorLine> = Vec::new();
        let mut row = if rows.start < stop {
            rows.start
        } else {
            stop
        };
        while row < stop
            invariant
                n == split_lines(self.text_spec()).len(),
                stop <= n,
                rows.start < stop ==> rows.start <= row,
                row <= stop,
                rows.start >= stop ==> out@.len() == 0 && row == stop,
                rows.start < stop ==> out@.len() == row - rows.start,
                forall|k: int|
                    0 <= k < out@.len() ==> (#[trigger] out@[k]).row == rows.start + k
                        && out@[k].text@ == split_lines(self.text_spec())[rows.start + k],
            decreases stop - row,
        {
            match self.line(row) {
                Some(l) => {
                    out.push(l);
                },
                None => {},
            }
            row += 1;
        }
        out
    }
}

} // verus!
