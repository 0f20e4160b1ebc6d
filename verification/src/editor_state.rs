//! The code editor's editing state: its text held in a rope, the
//! selection, the IME's marked range, the first visible row and the
//! grouped undo/redo history of changes.
//!
//! Offsets into the text are UTF-8 byte offsets; the IME speaks UTF-16
//! offsets. An edit either goes to a custom backend, whose answer the
//! editor then shows, or is applied to the rope here.
//!
//! Outside the code-editor mode an edit is validated first; the verdict
//! (the input's validator and pattern on the resulting text) is handed in
//! as `input_valid`. Each applied edit is recorded as a change. While an
//! IME composition runs, changes are grouped: each joins the group being
//! filled; otherwise a change is an undo step of its own. Recording forgets
//! the redo history. Undo and redo hand out the changes of one step, which
//! `undo_change` and `redo_change` then apply one by one without recording.
use vstd::prelude::*;
use std::ops::Range;
use ropey::Rope;
use crate::editor::{
    lemma_char_floor_mono, replace_bytes, rope_byte_to_char, rope_char, rope_char_to_byte,
    rope_char_to_utf16, rope_clone, rope_from_str, rope_insert, rope_len_bytes, rope_len_chars,
    rope_len_utf16, rope_new, rope_remove, rope_text, rope_to_string, rope_utf16_to_char,
    EditorBackendEditResult,
};
use crate::input::{byte_of_utf16, char_is_whitespace, is_white_space, utf16_of_byte, Selection};
use crate::text_wrapper::{
    count_newlines, floor_char, lemma_local_offset, lemma_newline_prefix, lemma_row_start_bound,
    lemma_split_len, row_at, row_bounds, row_start, split_lines,
};
use crate::text_offsets::{
    byte_len, byte_offset, char_floor, is_boundary, lemma_char_floor,
    lemma_offset_end, lemma_offset_is_boundary, lemma_offset_mono, lemma_utf16_floor,
    lemma_utf16_floor_of_offset, lemma_utf16_offset_strict, string_from_chars, utf16_floor,
    utf16_len,
};

verus! {

/// One recorded edit: the bytes `old_range` held `old_text`; after the
/// edit the bytes `new_range` hold `new_text`.
#[derive(Debug)]
pub struct EditorChange {
    pub old_range: Range<usize>,
    pub old_text: String,
    pub new_range: Range<usize>,
    pub new_text: String,
}

/// What a change holds, as values.
pub struct ChangeView {
    pub old_range: Range<usize>,
    pub old_text: Seq<char>,
    pub new_range: Range<usize>,
    pub new_text: Seq<char>,
}

pub open spec fn change_view(c: EditorChange) -> ChangeView {
    ChangeView {
        old_range: c.old_range,
        old_text: c.old_text@,
        new_range: c.new_range,
        new_text: c.new_text@,
    }
}

pub open spec fn group_view(g: Vec<EditorChange>) -> Seq<ChangeView> {
    g@.map_values(|c: EditorChange| change_view(c))
}

/// Both ranges of a change run forwards.
pub open spec fn change_wf(c: ChangeView) -> bool {
    c.old_range.start <= c.old_range.end && c.new_range.start <= c.new_range.end
}

pub open spec fn history_wf(h: Seq<Seq<ChangeView>>) -> bool {
    forall|i: int, j: int|
        0 <= i < h.len() && 0 <= j < h[i].len() ==> change_wf(#[trigger] h[i][j])
}

/// The abstract state of the editor.
pub struct EditorView {
    pub text: Seq<char>,
    pub selection: Selection,
    pub reversed: bool,
    pub marked: Option<Selection>,
    /// The word a double click selected, kept selected while dragging.
    pub word_range: Option<Selection>,
    pub top_row: usize,
    pub disabled: bool,
    pub read_only: bool,
    pub code_editor: bool,
    pub masked: bool,
    /// Changes are being grouped into one undo step.
    pub grouping: bool,
    /// The last undo step is the group still being filled.
    pub group_open: bool,
    pub undo: Seq<Seq<ChangeView>>,
    pub redo: Seq<Seq<ChangeView>>,
}

/// A selection that runs forwards within the text, on character
/// boundaries.
pub open spec fn selection_in(t: Seq<char>, s: Selection) -> bool {
    &&& s.start <= s.end
    &&& s.end <= byte_len(t)
    &&& is_boundary(t, s.start as int)
    &&& is_boundary(t, s.end as int)
}

/// The characters of `t` that hold the bytes `a..b`.
pub open spec fn text_between(t: Seq<char>, a: int, b: int) -> Seq<char> {
    t.subrange(char_floor(t, a) as int, char_floor(t, b) as int)
}

/// The UTF-16 range of the byte range `r` of `t`.
pub open spec fn utf16_range(t: Seq<char>, r: Range<usize>) -> Range<usize> {
    (utf16_of_byte(t, r.start as int) as usize)..(utf16_of_byte(t, r.end as int) as usize)
}

/// The undo history after recording `c`: added to the group being filled,
/// or as a step of its own.
pub open spec fn recorded(v: EditorView, c: ChangeView) -> Seq<Seq<ChangeView>> {
    if v.grouping && v.group_open && v.undo.len() > 0 {
        v.undo.update(v.undo.len() - 1, v.undo.last().push(c))
    } else {
        v.undo.push(seq![c])
    }
}

/// The group `g` in the opposite order.
pub open spec fn reversed_group(g: Seq<ChangeView>) -> Seq<ChangeView> {
    Seq::new(g.len(), |i: int| g[g.len() - 1 - i])
}

impl EditorView {
    /// The text fits in memory and every recorded change runs forwards.
    pub open spec fn wf(self) -> bool {
        &&& byte_len(self.text) <= usize::MAX
        &&& history_wf(self.undo)
        &&& history_wf(self.redo)
    }

    /// The byte range an edit replaces: the given UTF-16 range, else the
    /// marked range, else the selection.
    pub open spec fn edit_range(self, range_utf16: Option<Range<usize>>) -> (int, int) {
        match range_utf16 {
            Some(r) => (
                byte_of_utf16(self.text, r.start as int),
                byte_of_utf16(self.text, r.end as int),
            ),
            None => match self.marked {
                Some(m) => (m.start as int, m.end as int),
                None => (self.selection.start as int, self.selection.end as int),
            },
        }
    }

    /// The edit range can be cut out of the text (a UTF-16 range that runs
    /// forwards, or a marked range or selection inside the text), and the
    /// caret and the edited text fit in memory.
    pub open spec fn edit_ok(self, range_utf16: Option<Range<usize>>, ins: Seq<char>) -> bool {
        &&& self.edit_range(range_utf16).0 + byte_len(ins) <= usize::MAX
        &&& byte_len(self.text) - (self.edit_range(range_utf16).1 - self.edit_range(range_utf16).0)
            + byte_len(ins) <= usize::MAX
        &&& match range_utf16 {
            Some(r) => r.start <= r.end,
            None => match self.marked {
                Some(m) => selection_in(self.text, m),
                None => selection_in(self.text, self.selection),
            },
        }
    }

    /// The text after replacing the edit range with `ins`.
    pub open spec fn replaced_text(self, range_utf16: Option<Range<usize>>, ins: Seq<char>) -> Seq<
        char,
    > {
        let (a, b) = self.edit_range(range_utf16);
        replace_bytes(self.text, a, b, ins)
    }

    /// The change an edit records.
    pub open spec fn change_of(self, range_utf16: Option<Range<usize>>, ins: Seq<char>) -> ChangeView {
        let (a, b) = self.edit_range(range_utf16);
        ChangeView {
            old_range: (a as usize)..(b as usize),
            old_text: text_between(self.text, a, b),
            new_range: (a as usize)..((a + byte_len(ins)) as usize),
            new_text: ins,
        }
    }

    /// An edit is applied: not disabled nor read-only, and, outside the
    /// code-editor mode, the resulting text passed validation.
    pub open spec fn edit_applies(self, input_valid: bool) -> bool {
        !self.disabled && !self.read_only && (self.code_editor || input_valid)
    }

    /// The selection an IME update leaves: `selected_utf16`, read in the
    /// new text, shifted by the start of the edit range at its start and by
    /// the end of the edit range at its end; else the caret after the
    /// composed text.
    pub open spec fn marked_selection(
        self,
        range_utf16: Option<Range<usize>>,
        ins: Seq<char>,
        selected_utf16: Option<Range<usize>>,
    ) -> Selection {
        let (a, b) = self.edit_range(range_utf16);
        let next = self.replaced_text(range_utf16, ins);
        match selected_utf16 {
            Some(r) => Selection {
                start: (byte_of_utf16(next, r.start as int) + a) as usize,
                end: (byte_of_utf16(next, r.end as int) + b) as usize,
            },
            None => Selection {
                start: (a + byte_len(ins)) as usize,
                end: (a + byte_len(ins)) as usize,
            },
        }
    }

    /// The state after an applied IME update: the edit range replaced by
    /// `ins`, which becomes the marked range (an empty one ends the
    /// composition with the caret at the edit's start), and the change
    /// recorded in the group that the composition fills.
    pub open spec fn composed(
        self,
        range_utf16: Option<Range<usize>>,
        ins: Seq<char>,
        selected_utf16: Option<Range<usize>>,
    ) -> EditorView {
        let a = self.edit_range(range_utf16).0;
        let g = EditorView { grouping: true, group_open: self.grouping && self.group_open, ..self };
        EditorView {
            text: self.replaced_text(range_utf16, ins),
            selection: if ins.len() == 0 {
                Selection { start: a as usize, end: a as usize }
            } else {
                self.marked_selection(range_utf16, ins, selected_utf16)
            },
            marked: if ins.len() == 0 {
                None
            } else {
                Some(Selection { start: a as usize, end: (a + byte_len(ins)) as usize })
            },
            undo: recorded(g, self.change_of(range_utf16, ins)),
            redo: Seq::empty(),
            grouping: true,
            group_open: true,
            ..self
        }
    }

    /// The state after an applied edit: the edit range replaced by `ins`,
    /// the caret after it, the marked range gone, the change recorded
    /// (unless `record` is off) and the group closed.
    pub open spec fn edited(self, range_utf16: Option<Range<usize>>, ins: Seq<char>, record: bool) -> EditorView {
        let a = self.edit_range(range_utf16).0;
        let caret = (a + byte_len(ins)) as usize;
        EditorView {
            text: self.replaced_text(range_utf16, ins),
            selection: Selection { start: caret, end: caret },
            marked: None,
            undo: if record {
                recorded(self, self.change_of(range_utf16, ins))
            } else {
                self.undo
            },
            redo: if record {
                Seq::empty()
            } else {
                self.redo
            },
            grouping: false,
            group_open: false,
            ..self
        }
    }
}

/// The code editor's editing state.
pub struct InputState {
    text: Rope,
    selected_range: Selection,
    selection_reversed: bool,
    ime_marked_range: Option<Selection>,
    selected_word_range: Option<Selection>,
    top_row: usize,
    disabled: bool,
    read_only: bool,
    code_editor: bool,
    masked: bool,
    language: String,
    grouping: bool,
    group_open: bool,
    undo_stack: Vec<Vec<EditorChange>>,
    redo_stack: Vec<Vec<EditorChange>>,
}

impl View for InputState {
    type V = EditorView;

    closed spec fn view(&self) -> EditorView {
        EditorView {
            text: rope_text(self.text),
            selection: self.selected_range,
            reversed: self.selection_reversed,
            marked: self.ime_marked_range,
            word_range: self.selected_word_range,
            top_row: self.top_row,
            disabled: self.disabled,
            read_only: self.read_only,
            code_editor: self.code_editor,
            masked: self.masked,
            grouping: self.grouping,
            group_open: self.group_open,
            undo: self.undo_stack@.map_values(|g: Vec<EditorChange>| group_view(g)),
            redo: self.redo_stack@.map_values(|g: Vec<EditorChange>| group_view(g)),
        }
    }
}

impl InputState {
    /// An empty, editable plain-text editor.
    pub fn new() -> (r: Self)
        ensures
            r@ == (EditorView {
                text: Seq::empty(),
                selection: Selection { start: 0, end: 0 },
                reversed: false,
                marked: None,
                word_range: None,
                top_row: 0,
                disabled: false,
                read_only: false,
                code_editor: false,
                masked: false,
                grouping: false,
                group_open: false,
                undo: Seq::empty(),
                redo: Seq::empty(),
            }),
            r@.wf(),
            r.language_spec() == Seq::<char>::empty(),
    {
        let r = InputState {
            text: rope_new(),
            selected_range: Selection { start: 0, end: 0 },
            selection_reversed: false,
            ime_marked_range: None,
            selected_word_range: None,
            top_row: 0,
            disabled: false,
            read_only: false,
            code_editor: false,
            masked: false,
            language: String::new(),
            grouping: false,
            group_open: false,
            undo_stack: Vec::new(),
            redo_stack: Vec::new(),
        };
        proof {
            assert(byte_len(Seq::<char>::empty()) == 0);
            assert(r@.undo =~= Seq::<Seq<ChangeView>>::empty());
            assert(r@.redo =~= Seq::<Seq<ChangeView>>::empty());
        }
        r
    }

    /// The language the code editor highlights.
    pub closed spec fn language_spec(&self) -> Seq<char> {
        self.language@
    }

    /// Switches to the code-editor mode for `language`.
    pub fn code_editor(self, language: &str) -> (r: Self)
        ensures
            r@ == (EditorView { code_editor: true, ..self@ }),
            r.language_spec() == language@,
    {
        let mut s = self;
        s.code_editor = true;
        s.language = language.to_string();
        s
    }
}

/// `utf16_floor` grows with the UTF-16 offset.
pub proof fn lemma_utf16_floor_mono(s: Seq<char>, a: int, b: int)
    requires
        0 <= a <= b,
    ensures
        utf16_floor(s, a) <= utf16_floor(s, b),
{
    lemma_utf16_floor(s, a);
    lemma_utf16_floor(s, b);
    let fa = utf16_floor(s, a) as int;
    let fb = utf16_floor(s, b) as int;
    if fb < fa {
        lemma_utf16_offset_strict(s, fb + 1, fa);
    }
}

/// The byte offset of a UTF-16 offset is a boundary within the text.
pub proof fn lemma_byte_of_utf16(s: Seq<char>, u: int)
    requires
        0 <= u,
    ensures
        is_boundary(s, byte_of_utf16(s, u)),
        0 <= byte_of_utf16(s, u) <= byte_len(s),
{
    lemma_utf16_floor(s, u);
    let k = utf16_floor(s, u) as int;
    lemma_offset_is_boundary(s, k);
    lemma_offset_mono(s, k, s.len() as int);
    lemma_offset_end(s);
}

/// `byte_of_utf16` grows with the UTF-16 offset.
pub proof fn lemma_byte_of_utf16_mono(s: Seq<char>, a: int, b: int)
    requires
        0 <= a <= b,
    ensures
        byte_of_utf16(s, a) <= byte_of_utf16(s, b),
{
    lemma_utf16_floor_mono(s, a, b);
    lemma_utf16_floor(s, b);
    lemma_offset_mono(s, utf16_floor(s, a) as int, utf16_floor(s, b) as int);
}

/// A boundary survives the way to UTF-16 and back.
pub proof fn lemma_boundary_utf16_round_trip(s: Seq<char>, b: int)
    requires
        is_boundary(s, b),
        b <= byte_len(s),
    ensures
        byte_of_utf16(s, utf16_of_byte(s, b)) == b,
{
    lemma_char_floor(s, b);
    lemma_utf16_floor_of_offset(s, char_floor(s, b) as int);
}

impl InputState {
    /// The byte offset of UTF-16 offset `offset`: the start of the character
    /// it falls in, or the end of the text.
    pub fn offset_from_utf16(&self, offset: usize) -> (r: usize)
        ensures
            r == byte_of_utf16(self@.text, offset as int),
    {
        let ghost t = self@.text;
        let n16 = rope_len_utf16(&self.text);
        let k = if offset <= n16 {
            rope_utf16_to_char(&self.text, offset)
        } else {
            proof {
                if t.len() == 0 {
                } else {
                    assert(utf16_floor(t, offset as int) == t.len());
                }
            }
            rope_len_chars(&self.text)
        };
        proof {
            lemma_utf16_floor(t, offset as int);
        }
        rope_char_to_byte(&self.text, k)
    }

    /// The UTF-16 offset of byte offset `offset`, clamped to the text.
    pub fn offset_to_utf16(&self, offset: usize) -> (r: usize)
        ensures
            r == utf16_of_byte(self@.text, offset as int),
    {
        let ghost t = self@.text;
        let len = rope_len_bytes(&self.text);
        let x = if offset <= len {
            offset
        } else {
            len
        };
        let k = rope_byte_to_char(&self.text, x);
        proof {
            lemma_char_floor(t, x as int);
        }
        rope_char_to_utf16(&self.text, k)
    }

    /// The UTF-16 range of the byte range `range`.
    pub fn range_to_utf16(&self, range: &Range<usize>) -> (r: Range<usize>)
        ensures
            r == utf16_range(self@.text, *range),
            r.start == utf16_of_byte(self@.text, range.start as int),
            r.end == utf16_of_byte(self@.text, range.end as int),
    {
        let s = self.offset_to_utf16(range.start);
        let e = self.offset_to_utf16(range.end);
        s..e
    }

    /// The byte range of the UTF-16 range `range_utf16`.
    pub fn range_from_utf16(&self, range_utf16: &Range<usize>) -> (r: Range<usize>)
        ensures
            r.start == byte_of_utf16(self@.text, range_utf16.start as int),
            r.end == byte_of_utf16(self@.text, range_utf16.end as int),
    {
        let s = self.offset_from_utf16(range_utf16.start);
        let e = self.offset_from_utf16(range_utf16.end);
        s..e
    }

    /// The byte range an edit replaces, on boundaries of the text.
    fn resolve_edit_range(&self, range_utf16: &Option<Range<usize>>, Ghost(ins): Ghost<Seq<char>>) -> (r: (usize, usize))
        requires
            self@.edit_ok(*range_utf16, ins),
        ensures
            r.0 == self@.edit_range(*range_utf16).0,
            r.1 == self@.edit_range(*range_utf16).1,
            r.0 <= r.1 <= byte_len(self@.text),
            is_boundary(self@.text, r.0 as int),
            is_boundary(self@.text, r.1 as int),
    {
        match range_utf16 {
            Some(r) => {
                let rg = self.range_from_utf16(r);
                proof {
                    lemma_byte_of_utf16(self@.text, r.start as int);
                    lemma_byte_of_utf16(self@.text, r.end as int);
                    lemma_byte_of_utf16_mono(self@.text, r.start as int, r.end as int);
                }
                (rg.start, rg.end)
            },
            None => match &self.ime_marked_range {
                Some(m) => (m.start, m.end),
                None => (self.selected_range.start, self.selected_range.end),
            },
        }
    }

    /// The characters holding the bytes `a..b`, as text.
    fn slice_text(&self, a: usize, b: usize) -> (r: String)
        requires
            a <= b <= byte_len(self@.text),
        ensures
            r@ == text_between(self@.text, a as int, b as int),
    {
        let ghost t = self@.text;
        proof {
            lemma_char_floor_mono(t, a as int, b as int);
            lemma_char_floor(t, b as int);
        }
        let ka = rope_byte_to_char(&self.text, a);
        let kb = rope_byte_to_char(&self.text, b);
        let mut out: Vec<char> = Vec::new();
        let mut i = ka;
        while i < kb
            invariant
                t == self@.text,
                ka <= i <= kb <= t.len(),
                out@ == t.subrange(ka as int, i as int),
            decreases kb - i,
        {
            out.push(rope_char(&self.text, i));
            assert(t.subrange(ka as int, i + 1) =~= t.subrange(ka as int, i as int).push(t[i as int]));
            i += 1;
        }
        string_from_chars(out.as_slice())
    }
}

/// Bytes of a text with a range between boundaries replaced.
pub proof fn lemma_replace_len(t: Seq<char>, a: int, b: int, ins: Seq<char>)
    requires
        0 <= a <= b <= byte_len(t),
        is_boundary(t, a),
        is_boundary(t, b),
    ensures
        byte_len(replace_bytes(t, a, b, ins)) == byte_len(t) - (b - a) + byte_len(ins),
        char_floor(t, a) <= char_floor(t, b) <= t.len(),
{
    lemma_char_floor_mono(t, a, b);
    lemma_char_floor(t, b);
    let fa = char_floor(t, a) as int;
    let fb = char_floor(t, b) as int;
    assert(t =~= t.take(fb) + t.skip(fb));
    crate::text_offsets::lemma_byte_len_concat(t.take(fb), t.skip(fb));
    crate::text_offsets::lemma_byte_len_concat(t.take(fa), ins);
    crate::text_offsets::lemma_byte_len_concat(t.take(fa) + ins, t.skip(fb));
}

impl InputState {
    /// Records `c` in the undo history and forgets the redo history.
    fn push_history(&mut self, c: EditorChange)
        requires
            old(self)@.wf(),
            change_wf(change_view(c)),
        ensures
            final(self)@ == (EditorView {
                undo: recorded(old(self)@, change_view(c)),
                redo: Seq::empty(),
                group_open: old(self)@.grouping,
                ..old(self)@
            }),
            final(self)@.wf(),
            final(self).language_spec() == old(self).language_spec(),
    {
        let ghost v = self@;
        let ghost cv = change_view(c);
        let n = self.undo_stack.len();
        if self.grouping && self.group_open && n > 0 {
            let mut last = self.undo_stack.pop().unwrap();
            let ghost g0 = group_view(last);
            last.push(c);
            assert(group_view(last) =~= g0.push(cv));
            self.undo_stack.push(last);
            assert(self@.undo =~= v.undo.update(v.undo.len() - 1, v.undo.last().push(cv)));
        } else {
            let mut g: Vec<EditorChange> = Vec::new();
            g.push(c);
            assert(group_view(g) =~= seq![cv]);
            self.undo_stack.push(g);
            assert(self@.undo =~= v.undo.push(seq![cv]));
        }
        self.redo_stack = Vec::new();
        self.group_open = self.grouping;
        proof {
            assert(self@.redo =~= Seq::<Seq<ChangeView>>::empty());
            let h = self@.undo;
            assert forall|i: int, j: int| 0 <= i < h.len() && 0 <= j < h[i].len() implies change_wf(
                #[trigger] h[i][j],
            ) by {
                if i < v.undo.len() && !(i == v.undo.len() - 1 && v.grouping && v.group_open && j
                    == h[i].len() - 1) {
                    assert(h[i][j] == v.undo[i][j]);
                }
            }
        }
    }

    /// Replaces the edit range of the rope with `new_text`, unless the
    /// editor is disabled or read-only or the edit failed validation;
    /// records the change when `record` is on, closes the group, puts the
    /// caret after the inserted text and drops the marked range.
    fn apply_local_edit(
        &mut self,
        range_utf16: Option<Range<usize>>,
        new_text: &str,
        input_valid: bool,
        record: bool,
    ) -> (changed: bool)
        requires
            old(self)@.wf(),
            old(self)@.edit_ok(range_utf16, new_text@),
        ensures
            changed == old(self)@.edit_applies(input_valid),
            changed ==> final(self)@ == old(self)@.edited(range_utf16, new_text@, record),
            !changed ==> final(self)@ == old(self)@,
            final(self)@.wf(),
            final(self).language_spec() == old(self).language_spec(),
    {
        if self.disabled || self.read_only {
            return false;
        }
        let ghost v = self@;
        let ghost t = self@.text;
        let (a, b) = self.resolve_edit_range(&range_utf16, Ghost(new_text@));
        if !self.code_editor && !input_valid {
            return false;
        }
        proof {
            lemma_replace_len(t, a as int, b as int, new_text@);
            crate::text_offsets::lemma_encode_len(new_text@);
        }
        let ins_len = new_text.len();
        let ka = rope_byte_to_char(&self.text, a);
        let kb = rope_byte_to_char(&self.text, b);
        if record {
            let old_text = self.slice_text(a, b);
            let change = EditorChange {
                old_range: a..b,
                old_text,
                new_range: a..a + ins_len,
                new_text: new_text.to_owned(),
            };
            assert(change_view(change) == v.change_of(range_utf16, new_text@));
            self.push_history(change);
        }
        rope_remove(&mut self.text, ka, kb);
        rope_insert(&mut self.text, ka, new_text);
        assert(rope_text(self.text) =~= replace_bytes(t, a as int, b as int, new_text@));
        self.grouping = false;
        self.group_open = false;
        let caret = a + ins_len;
        self.selected_range = Selection { start: caret, end: caret };
        self.ime_marked_range = None;
        proof {
            if !record {
                assert(self@.undo == v.undo);
                assert(self@.redo == v.redo);
            }
        }
        true
    }
}

/// The text, clamped to its start and end, as one UTF-16 range.
pub proof fn lemma_whole_range(t: Seq<char>)
    ensures
        byte_of_utf16(t, 0) == 0,
        byte_of_utf16(t, utf16_len(t) as int) == byte_len(t),
        char_floor(t, 0) == 0,
        char_floor(t, byte_len(t) as int) == t.len(),
{
    assert(t.take(0) =~= Seq::<char>::empty());
    lemma_utf16_floor_of_offset(t, 0);
    lemma_offset_end(t);
    lemma_utf16_floor_of_offset(t, t.len() as int);
    lemma_offset_is_boundary(t, 0);
    lemma_offset_is_boundary(t, t.len() as int);
}

impl InputState {
    /// Replaces the edit range (the UTF-16 range `range_utf16`, else the
    /// marked range, else the selection) with `new_text`, records the change
    /// for undo and puts the caret after the inserted text.
    ///
    /// `input_valid` is the input's validation of the resulting text; it
    /// counts outside the code-editor mode only. A disabled or read-only
    /// editor, or a refused text, leaves the state unchanged. Returns whether
    /// the text was replaced.
    pub fn replace_text_in_range(
        &mut self,
        range_utf16: Option<Range<usize>>,
        new_text: &str,
        input_valid: bool,
    ) -> (changed: bool)
        requires
            old(self)@.wf(),
            old(self)@.edit_ok(range_utf16, new_text@),
        ensures
            changed == (!old(self)@.disabled && !old(self)@.read_only && (old(self)@.code_editor
                || input_valid)),
            changed ==> final(self)@ == old(self)@.edited(range_utf16, new_text@, true),
            changed ==> final(self)@.text == old(self)@.replaced_text(range_utf16, new_text@),
            !changed ==> final(self)@ == old(self)@,
            final(self)@.wf(),
            final(self).language_spec() == old(self).language_spec(),
    {
        self.apply_local_edit(range_utf16, new_text, input_valid, true)
    }

    /// Replaces the whole text with `value`, without recording it for undo
    /// (even on a disabled editor, but not on a read-only one, and not when
    /// validation refuses it), then puts the caret at the start and scrolls
    /// to the top.
    pub fn set_value(&mut self, value: &str, input_valid: bool)
        requires
            old(self)@.wf(),
        ensures
            ({
                let v = old(self)@;
                let applies = !v.read_only && (v.code_editor || input_valid);
                final(self)@ == EditorView {
                    text: if applies {
                        value@
                    } else {
                        v.text
                    },
                    selection: Selection::new_spec(0, 0),
                    marked: if applies {
                        None
                    } else {
                        v.marked
                    },
                    grouping: if applies {
                        false
                    } else {
                        v.grouping
                    },
                    group_open: if applies {
                        false
                    } else {
                        v.group_open
                    },
                    top_row: 0,
                    ..v
                }
            }),
            final(self)@.wf(),
            final(self).language_spec() == old(self).language_spec(),
    {
        let ghost t = self@.text;
        let was_disabled = self.disabled;
        self.disabled = false;
        let n16 = rope_len_utf16(&self.text);
        let vlen = crate::text_offsets::str_byte_len(value);
        proof {
            lemma_whole_range(t);
            crate::text_offsets::lemma_encode_len(value@);
        }
        let ghost v1 = self@;
        assert(vlen == byte_len(value@));
        assert(v1.edit_range(Some(0..n16)) == (0int, byte_len(t) as int));
        let changed = self.apply_local_edit(Some(0..n16), value, input_valid, false);
        proof {
            if changed {
                assert(replace_bytes(t, 0, byte_len(t) as int, value@) =~= value@);
            }
        }
        self.disabled = was_disabled;
        self.selected_range = Selection { start: 0, end: 0 };
        self.top_row = 0;
    }

    /// Sets the initial text; nothing else changes.
    pub fn default_value(self, value: &str) -> (r: Self)
        ensures
            r@ == (EditorView { text: value@, ..self@ }),
            r.language_spec() == self.language_spec(),
    {
        let mut s = self;
        s.text = rope_from_str(value);
        s
    }

    /// The text, as a string.
    pub fn value(&self) -> (r: String)
        ensures
            r@ == self@.text,
    {
        rope_to_string(&self.text)
    }

    /// The rope holding the text.
    pub fn text(&self) -> (r: &Rope)
        ensures
            rope_text(*r) == self@.text,
    {
        &self.text
    }

    /// The selection, as byte offsets.
    pub fn selected_range(&self) -> (r: Selection)
        ensures
            r == self@.selection,
    {
        self.selected_range
    }

    /// The IME's marked range, if any.
    pub fn ime_marked_range(&self) -> (r: Option<Selection>)
        ensures
            r == self@.marked,
    {
        self.ime_marked_range
    }

    /// The first visible row.
    pub fn top_row(&self) -> (r: usize)
        ensures
            r == self@.top_row,
    {
        self.top_row
    }

    /// Makes the editor read-only (or editable again).
    pub fn read_only(self, read_only: bool) -> (r: Self)
        ensures
            r@ == (EditorView { read_only, ..self@ }),
            r.language_spec() == self.language_spec(),
    {
        let mut s = self;
        s.read_only = read_only;
        s
    }

    /// Sets whether the editor is read-only.
    pub fn set_read_only(&mut self, read_only: bool)
        ensures
            final(self)@ == (EditorView { read_only, ..old(self)@ }),
            final(self).language_spec() == old(self).language_spec(),
    {
        self.read_only = read_only;
    }

    /// Whether the editor is read-only.
    pub fn is_read_only(&self) -> (r: bool)
        ensures
            r == self@.read_only,
    {
        self.read_only
    }

    /// Disables (or enables) editing.
    pub fn disabled(self, disabled: bool) -> (r: Self)
        ensures
            r@ == (EditorView { disabled, ..self@ }),
            r.language_spec() == self.language_spec(),
    {
        let mut s = self;
        s.disabled = disabled;
        s
    }

    /// The caret: the end of the marked range while composing, else the
    /// selection's start when it was made backwards, else its end.
    pub fn cursor(&self) -> (r: usize)
        ensures
            r == match self@.marked {
                Some(m) => m.end,
                None => if self@.reversed {
                    self@.selection.start
                } else {
                    self@.selection.end
                },
            },
    {
        match &self.ime_marked_range {
            Some(m) => m.end,
            None => if self.selection_reversed {
                self.selected_range.start
            } else {
                self.selected_range.end
            },
        }
    }

    /// Collapses the selection onto the caret.
    pub fn unselect(&mut self)
        ensures
            final(self)@ == (EditorView {
                selection: Selection::new_spec(old(self).cursor_spec(), old(self).cursor_spec()),
                ..old(self)@
            }),
            final(self).language_spec() == old(self).language_spec(),
    {
        let offset = self.cursor();
        self.selected_range = Selection { start: offset, end: offset };
    }

    /// The caret, as `cursor` gives it.
    pub open spec fn cursor_spec(&self) -> usize {
        match self@.marked {
            Some(m) => m.end,
            None => if self@.reversed {
                self@.selection.start
            } else {
                self@.selection.end
            },
        }
    }

    /// Inserts `text` at the caret, even on a disabled editor (not on a
    /// read-only one), records it and leaves the caret after it; a refused
    /// text only collapses the selection onto its end.
    pub fn insert(&mut self, text: &str, input_valid: bool) -> (changed: bool)
        requires
            old(self)@.wf(),
            ({
                let v = old(self)@;
                let c = old(self).cursor_spec();
                let a = byte_of_utf16(v.text, utf16_of_byte(v.text, c as int));
                &&& a + byte_len(text@) <= usize::MAX
                &&& byte_len(v.text) + byte_len(text@) <= usize::MAX
            }),
        ensures
            ({
                let v = old(self)@;
                let c = old(self).cursor_spec();
                let rg = Some(utf16_range(v.text, c..c));
                let v1 = EditorView { disabled: false, ..v };
                &&& changed == (!v.read_only && (v.code_editor || input_valid))
                &&& changed ==> final(self)@ == EditorView {
                    disabled: v.disabled,
                    ..v1.edited(rg, text@, true)
                }
                &&& !changed ==> final(self)@ == EditorView {
                    selection: Selection::new_spec(v.selection.end, v.selection.end),
                    ..v
                }
            }),
            final(self)@.wf(),
            final(self).language_spec() == old(self).language_spec(),
    {
        let was_disabled = self.disabled;
        self.disabled = false;
        let c = self.cursor();
        let rg = self.range_to_utf16(&(c..c));
        assert(rg.start == rg.end);
        assert(self@.edit_range(Some(rg)).0 == byte_of_utf16(
            self@.text,
            utf16_of_byte(self@.text, c as int),
        ));
        let changed = self.apply_local_edit(Some(rg), text, input_valid, true);
        let end = self.selected_range.end;
        self.selected_range = Selection { start: end, end };
        self.disabled = was_disabled;
        changed
    }

    /// Replaces the edit range (the marked range, else the selection) with
    /// `text`, even on a disabled editor (not on a read-only one), records
    /// it and leaves the caret after it; a refused text only collapses the
    /// selection onto its end.
    pub fn replace(&mut self, text: &str, input_valid: bool) -> (changed: bool)
        requires
            old(self)@.wf(),
            old(self)@.edit_ok(None, text@),
        ensures
            ({
                let v = old(self)@;
                let v1 = EditorView { disabled: false, ..v };
                &&& changed == (!v.read_only && (v.code_editor || input_valid))
                &&& changed ==> final(self)@ == EditorView {
                    disabled: v.disabled,
                    ..v1.edited(None, text@, true)
                }
                &&& !changed ==> final(self)@ == EditorView {
                    selection: Selection::new_spec(v.selection.end, v.selection.end),
                    ..v
                }
            }),
            final(self)@.wf(),
            final(self).language_spec() == old(self).language_spec(),
    {
        let was_disabled = self.disabled;
        self.disabled = false;
        let changed = self.apply_local_edit(None, text, input_valid, true);
        let end = self.selected_range.end;
        self.selected_range = Selection { start: end, end };
        self.disabled = was_disabled;
        changed
    }

    /// Ends the IME composition, keeping its text.
    pub fn unmark_text(&mut self)
        ensures
            final(self)@ == (EditorView { marked: None, ..old(self)@ }),
            final(self).language_spec() == old(self).language_spec(),
    {
        self.ime_marked_range = None;
    }
}

impl InputState {
    /// Replaces the edit range with the IME's composing text `new_text`,
    /// which becomes the marked range, and records the change in the group
    /// the composition fills. The selection is `new_selected_range_utf16`
    /// read in the new text and shifted by the edit range, else the caret
    /// after the composed text; an empty `new_text` ends the composition
    /// with the caret at the edit's start. A disabled editor, or a refused
    /// text, leaves the state unchanged. Returns whether the text changed.
    pub fn replace_and_mark_text_in_range(
        &mut self,
        range_utf16: Option<Range<usize>>,
        new_text: &str,
        new_selected_range_utf16: Option<Range<usize>>,
        input_valid: bool,
    ) -> (changed: bool)
        requires
            old(self)@.wf(),
            old(self)@.edit_ok(range_utf16, new_text@),
            new_selected_range_utf16 is Some ==> byte_len(
                old(self)@.replaced_text(range_utf16, new_text@),
            ) + old(self)@.edit_range(range_utf16).1 <= usize::MAX,
        ensures
            changed == (!old(self)@.disabled && (old(self)@.code_editor || input_valid)),
            changed ==> final(self)@ == old(self)@.composed(
                range_utf16,
                new_text@,
                new_selected_range_utf16,
            ),
            !changed ==> final(self)@ == old(self)@,
            final(self)@.wf(),
            final(self).language_spec() == old(self).language_spec(),
    {
        if self.disabled {
            return false;
        }
        let ghost v = self@;
        let ghost t = self@.text;
        let (a, b) = self.resolve_edit_range(&range_utf16, Ghost(new_text@));
        if !self.code_editor && !input_valid {
            return false;
        }
        proof {
            lemma_replace_len(t, a as int, b as int, new_text@);
            crate::text_offsets::lemma_encode_len(new_text@);
        }
        let ins_len = new_text.len();
        let ka = rope_byte_to_char(&self.text, a);
        let kb = rope_byte_to_char(&self.text, b);
        let old_text = self.slice_text(a, b);
        let change = EditorChange {
            old_range: a..b,
            old_text,
            new_range: a..a + ins_len,
            new_text: new_text.to_owned(),
        };
        assert(change_view(change) == v.change_of(range_utf16, new_text@));
        rope_remove(&mut self.text, ka, kb);
        rope_insert(&mut self.text, ka, new_text);
        assert(rope_text(self.text) =~= replace_bytes(t, a as int, b as int, new_text@));
        if ins_len == 0 {
            self.selected_range = Selection { start: a, end: a };
            self.ime_marked_range = None;
        } else {
            self.ime_marked_range = Some(Selection { start: a, end: a + ins_len });
            let sel = match &new_selected_range_utf16 {
                Some(r) => {
                    let nr = self.range_from_utf16(r);
                    proof {
                        lemma_byte_of_utf16(self@.text, r.start as int);
                        lemma_byte_of_utf16(self@.text, r.end as int);
                    }
                    Selection { start: nr.start + a, end: nr.end + b }
                },
                None => Selection { start: a + ins_len, end: a + ins_len },
            };
            self.selected_range = sel;
        }
        if !self.grouping {
            self.grouping = true;
            self.group_open = false;
        }
        self.push_history(change);
        true
    }
}

/// `utf16_of_byte` grows with the byte offset.
pub proof fn lemma_utf16_of_byte_mono(s: Seq<char>, a: int, b: int)
    requires
        0 <= a <= b,
    ensures
        utf16_of_byte(s, a) <= utf16_of_byte(s, b),
{
    let x = if a <= byte_len(s) { a } else { byte_len(s) as int };
    let y = if b <= byte_len(s) { b } else { byte_len(s) as int };
    lemma_char_floor_mono(s, x, y);
    lemma_char_floor(s, y);
    lemma_offset_mono(s, char_floor(s, x) as int, char_floor(s, y) as int);
}

/// A copy of the change `c`.
fn copy_change(c: &EditorChange) -> (r: EditorChange)
    ensures
        change_view(r) == change_view(*c),
{
    EditorChange {
        old_range: c.old_range.start..c.old_range.end,
        old_text: c.old_text.clone(),
        new_range: c.new_range.start..c.new_range.end,
        new_text: c.new_text.clone(),
    }
}

/// A copy of the group `g`, in order or last first.
fn copy_group(g: &Vec<EditorChange>, backwards: bool) -> (r: Vec<EditorChange>)
    ensures
        group_view(r) == (if backwards {
            reversed_group(group_view(*g))
        } else {
            group_view(*g)
        }),
{
    let ghost gv = group_view(*g);
    let n = g.len();
    let mut out: Vec<EditorChange> = Vec::new();
    let mut i: usize = 0;
    while i < n
        invariant
            n == g@.len(),
            gv == group_view(*g),
            i <= n,
            out@.len() == i,
            forall|k: int|
                0 <= k < i ==> change_view(#[trigger] out@[k]) == (if backwards {
                    gv[n - 1 - k]
                } else {
                    gv[k]
                }),
        decreases n - i,
    {
        let j = if backwards {
            n - 1 - i
        } else {
            i
        };
        let c = copy_change(&g[j]);
        out.push(c);
        i += 1;
    }
    proof {
        if backwards {
            assert(group_view(out) =~= reversed_group(gv));
        } else {
            assert(group_view(out) =~= gv);
        }
    }
    out
}

impl InputState {
    /// Takes the last undo step: moves it to the redo history and returns
    /// its changes last first, the order in which `undo_change` reverts
    /// them. Nothing when there is nothing to undo.
    pub fn undo(&mut self) -> (r: Option<Vec<EditorChange>>)
        requires
            old(self)@.wf(),
        ensures
            old(self)@.undo.len() == 0 ==> r is None && final(self)@ == old(self)@,
            old(self)@.undo.len() > 0 ==> r is Some && group_view(r->Some_0) == reversed_group(
                old(self)@.undo.last(),
            ) && final(self)@ == (EditorView {
                undo: old(self)@.undo.drop_last(),
                redo: old(self)@.redo.push(old(self)@.undo.last()),
                group_open: false,
                ..old(self)@
            }),
            final(self)@.wf(),
            final(self).language_spec() == old(self).language_spec(),
    {
        let ghost v = self@;
        if self.undo_stack.len() == 0 {
            return None;
        }
        let g = self.undo_stack.pop().unwrap();
        assert(self@.undo =~= v.undo.drop_last());
        let steps = copy_group(&g, true);
        self.redo_stack.push(g);
        assert(self@.redo =~= v.redo.push(v.undo.last()));
        self.group_open = false;
        proof {
            let h = self@.redo;
            assert forall|i: int, j: int| 0 <= i < h.len() && 0 <= j < h[i].len() implies change_wf(
                #[trigger] h[i][j],
            ) by {
                if i < v.redo.len() {
                    assert(h[i] == v.redo[i]);
                } else {
                    assert(h[i] == v.undo[v.undo.len() - 1]);
                }
            }
            let u = self@.undo;
            assert forall|i: int, j: int| 0 <= i < u.len() && 0 <= j < u[i].len() implies change_wf(
                #[trigger] u[i][j],
            ) by {
                assert(u[i] == v.undo[i]);
            }
        }
        Some(steps)
    }

    /// Takes the last redo step: moves it back to the undo history and
    /// returns its changes in the order in which `redo_change` applies them.
    /// Nothing when there is nothing to redo.
    pub fn redo(&mut self) -> (r: Option<Vec<EditorChange>>)
        requires
            old(self)@.wf(),
        ensures
            old(self)@.redo.len() == 0 ==> r is None && final(self)@ == old(self)@,
            old(self)@.redo.len() > 0 ==> r is Some && group_view(r->Some_0)
                == old(self)@.redo.last() && final(self)@ == (EditorView {
                undo: old(self)@.undo.push(old(self)@.redo.last()),
                redo: old(self)@.redo.drop_last(),
                group_open: false,
                ..old(self)@
            }),
            final(self)@.wf(),
            final(self).language_spec() == old(self).language_spec(),
    {
        let ghost v = self@;
        if self.redo_stack.len() == 0 {
            return None;
        }
        let g = self.redo_stack.pop().unwrap();
        assert(self@.redo =~= v.redo.drop_last());
        let steps = copy_group(&g, false);
        self.undo_stack.push(g);
        assert(self@.undo =~= v.undo.push(v.redo.last()));
        self.group_open = false;
        proof {
            let h = self@.undo;
            assert forall|i: int, j: int| 0 <= i < h.len() && 0 <= j < h[i].len() implies change_wf(
                #[trigger] h[i][j],
            ) by {
                if i < v.undo.len() {
                    assert(h[i] == v.undo[i]);
                } else {
                    assert(h[i] == v.redo[v.redo.len() - 1]);
                }
            }
            let u = self@.redo;
            assert forall|i: int, j: int| 0 <= i < u.len() && 0 <= j < u[i].len() implies change_wf(
                #[trigger] u[i][j],
            ) by {
                assert(u[i] == v.redo[i]);
            }
        }
        Some(steps)
    }

    /// Reverts one change of an undo step: the bytes `change.new_range`
    /// (through UTF-16, as the IME would give them) get `change.old_text`
    /// back, without recording anything; the same checks as any edit apply.
    pub fn undo_change(&mut self, change: &EditorChange, input_valid: bool) -> (changed: bool)
        requires
            old(self)@.wf(),
            change_wf(change_view(*change)),
            old(self)@.edit_ok(Some(utf16_range(old(self)@.text, change.new_range)), change.old_text@),
        ensures
            changed == old(self)@.edit_applies(input_valid),
            changed ==> final(self)@ == old(self)@.edited(
                Some(utf16_range(old(self)@.text, change.new_range)),
                change.old_text@,
                false,
            ),
            !changed ==> final(self)@ == old(self)@,
            final(self)@.wf(),
            final(self).language_spec() == old(self).language_spec(),
    {
        let rg = self.range_to_utf16(&change.new_range);
        self.apply_local_edit(Some(rg), change.old_text.as_str(), input_valid, false)
    }

    /// Applies one change of a redo step again: the bytes `change.old_range`
    /// (through UTF-16) get `change.new_text`, without recording anything;
    /// the same checks as any edit apply.
    pub fn redo_change(&mut self, change: &EditorChange, input_valid: bool) -> (changed: bool)
        requires
            old(self)@.wf(),
            change_wf(change_view(*change)),
            old(self)@.edit_ok(Some(utf16_range(old(self)@.text, change.old_range)), change.new_text@),
        ensures
            changed == old(self)@.edit_applies(input_valid),
            changed ==> final(self)@ == old(self)@.edited(
                Some(utf16_range(old(self)@.text, change.old_range)),
                change.new_text@,
                false,
            ),
            !changed ==> final(self)@ == old(self)@,
            final(self)@.wf(),
            final(self).language_spec() == old(self).language_spec(),
    {
        let rg = self.range_to_utf16(&change.old_range);
        self.apply_local_edit(Some(rg), change.new_text.as_str(), input_valid, false)
    }
}

/// Bytes of the characters between two boundaries.
proof fn lemma_text_between_len(t: Seq<char>, a: int, b: int)
    requires
        0 <= a <= b <= byte_len(t),
        is_boundary(t, a),
        is_boundary(t, b),
    ensures
        byte_len(text_between(t, a, b)) == b - a,
{
    lemma_char_floor_mono(t, a, b);
    lemma_char_floor(t, b);
    let fa = char_floor(t, a) as int;
    let fb = char_floor(t, b) as int;
    assert(t.take(fb) =~= t.take(fa) + t.subrange(fa, fb));
    crate::text_offsets::lemma_byte_len_concat(t.take(fa), t.subrange(fa, fb));
}

/// An applied edit outside a composition is an undo step of its own.
/// Reverting the change it records, on the text the edit left, can be done
/// and gives the text before the edit back; applying the change again to
/// that text gives the edited text.
pub proof fn law_undo_change_restores_text(
    v: EditorView,
    range_utf16: Option<Range<usize>>,
    ins: Seq<char>,
)
    requires
        v.wf(),
        v.edit_ok(range_utf16, ins),
    ensures
        ({
            let c = v.change_of(range_utf16, ins);
            let w = v.edited(range_utf16, ins, true);
            &&& change_wf(c)
            &&& (!v.grouping ==> w.undo == v.undo.push(seq![c]) && reversed_group(w.undo.last())
                == seq![c])
            &&& w.edit_ok(Some(utf16_range(w.text, c.new_range)), c.old_text)
            &&& w.edited(Some(utf16_range(w.text, c.new_range)), c.old_text, false).text == v.text
            &&& v.edit_ok(Some(utf16_range(v.text, c.old_range)), c.new_text)
            &&& v.edited(Some(utf16_range(v.text, c.old_range)), c.new_text, false).text == w.text
        }),
{
    let t = v.text;
    let (a, b) = v.edit_range(range_utf16);
    // the edit range lies on boundaries of the text
    match range_utf16 {
        Some(r) => {
            lemma_byte_of_utf16(t, r.start as int);
            lemma_byte_of_utf16(t, r.end as int);
            lemma_byte_of_utf16_mono(t, r.start as int, r.end as int);
        },
        None => {},
    }
    let c = v.change_of(range_utf16, ins);
    let w = v.edited(range_utf16, ins, true);
    let tt = w.text;
    lemma_replace_len(t, a, b, ins);
    lemma_text_between_len(t, a, b);
    let fa = char_floor(t, a) as int;
    let fb = char_floor(t, b) as int;
    let li = byte_len(ins) as int;
    // the inserted text sits between two boundaries of the edited text
    assert(tt.take(fa) =~= t.take(fa));
    assert(tt.take(fa + ins.len()) =~= t.take(fa) + ins);
    crate::text_offsets::lemma_byte_len_concat(t.take(fa), ins);
    assert(byte_offset(tt, fa) == a);
    assert(byte_offset(tt, fa + ins.len()) == a + li);
    lemma_offset_is_boundary(tt, fa);
    lemma_offset_is_boundary(tt, fa + ins.len() as int);
    lemma_offset_mono(tt, fa + ins.len() as int, tt.len() as int);
    lemma_offset_end(tt);
    lemma_boundary_utf16_round_trip(tt, a);
    lemma_boundary_utf16_round_trip(tt, a + li);
    lemma_utf16_of_byte_mono(tt, a, a + li);
    let ru = utf16_range(tt, c.new_range);
    lemma_utf16_of_byte_mono(tt, 0, a + li);
    crate::text_offsets::lemma_offset_mono(tt, 0, tt.len() as int);
    assert(w.edit_range(Some(ru)) == (a, a + li));
    assert(replace_bytes(tt, a, a + li, c.old_text) =~= t);
    // the old range lies on boundaries of the text before the edit
    lemma_boundary_utf16_round_trip(t, a);
    lemma_boundary_utf16_round_trip(t, b);
    lemma_utf16_of_byte_mono(t, a, b);
    crate::text_offsets::lemma_offset_mono(t, 0, t.len() as int);
    lemma_offset_end(t);
    let ro = utf16_range(t, c.old_range);
    assert(v.edit_range(Some(ro)) == (a, b));
    if !v.grouping {
        assert(reversed_group(seq![c]) =~= seq![c]);
    }
}

/// `x` clamped to `len`.
pub open spec fn clamp_to(x: usize, len: usize) -> usize {
    if x < len {
        x
    } else {
        len
    }
}

/// The selection, and whether it runs backwards, that the editor shows
/// after a backend accepted the edit of `range_start..` with `ins_len`
/// bytes, on a text of `len` bytes: the backend's selection, clamped and
/// put in order; else a caret at the backend's cursor, clamped; else a
/// caret after the inserted text, clamped.
pub open spec fn backend_selection(
    len: usize,
    range_start: usize,
    ins_len: nat,
    resp: EditorBackendEditResult,
) -> (Selection, bool) {
    match resp.selection {
        Some(sel) => {
            let s = clamp_to(sel.start as usize, len);
            let e = clamp_to(sel.end as usize, len);
            if e < s {
                (Selection { start: e, end: s }, true)
            } else {
                (Selection { start: s, end: e }, false)
            }
        },
        None => {
            let o = match resp.cursor {
                Some(c) => clamp_to(c as usize, len),
                None => clamp_to((range_start + ins_len) as usize, len),
            };
            (Selection { start: o, end: o }, false)
        },
    }
}

/// The caret a backend's answer to a composition update points at: its
/// cursor, else the end of the composed text, clamped to `len`.
pub open spec fn backend_fallback(
    len: usize,
    range_start: usize,
    ins_len: nat,
    resp: EditorBackendEditResult,
) -> usize {
    match resp.cursor {
        Some(c) => clamp_to(c as usize, len),
        None => clamp_to((range_start + ins_len) as usize, len),
    }
}

fn clamp_usize(x: usize, len: usize) -> (r: usize)
    ensures
        r == clamp_to(x, len),
{
    if x < len {
        x
    } else {
        len
    }
}

impl InputState {
    /// The byte range an edit replaces: the UTF-16 range `range_utf16`,
    /// else the marked range, else the selection.
    pub fn edit_range(&self, range_utf16: &Option<Range<usize>>) -> (r: Range<usize>)
        ensures
            r.start == self@.edit_range(*range_utf16).0,
            r.end == self@.edit_range(*range_utf16).1,
    {
        match range_utf16 {
            Some(r) => self.range_from_utf16(r),
            None => match &self.ime_marked_range {
                Some(m) => m.start..m.end,
                None => self.selected_range.start..self.selected_range.end,
            },
        }
    }

    /// Shows a backend's answer to the edit of `range` with `new_text`.
    /// A refused edit changes nothing. An accepted one takes the backend's
    /// text, shows the selection `backend_selection` gives and ends any
    /// composition. Returns whether the edit was accepted.
    pub fn apply_backend_response(
        &mut self,
        range: &Range<usize>,
        new_text: &str,
        response: &EditorBackendEditResult,
        backend_text: &Rope,
    ) -> (accepted: bool)
        requires
            range.start + byte_len(new_text@) <= usize::MAX,
        ensures
            accepted == response.accepted,
            !accepted ==> final(self)@ == old(self)@,
            old(self)@.wf() ==> final(self)@.wf(),
            accepted ==> final(self)@ == (EditorView {
                text: rope_text(*backend_text),
                selection: backend_selection(
                    byte_len(rope_text(*backend_text)) as usize,
                    range.start,
                    byte_len(new_text@),
                    *response,
                ).0,
                reversed: backend_selection(
                    byte_len(rope_text(*backend_text)) as usize,
                    range.start,
                    byte_len(new_text@),
                    *response,
                ).1,
                marked: None,
                ..old(self)@
            }),
            final(self).language_spec() == old(self).language_spec(),
    {
        if !response.accepted {
            return false;
        }
        self.text = rope_clone(backend_text);
        let text_len = rope_len_bytes(&self.text);
        let ins_len = crate::text_offsets::str_byte_len(new_text);
        match &response.selection {
            Some(sel) => {
                let mut start = clamp_usize(sel.start as usize, text_len);
                let mut end = clamp_usize(sel.end as usize, text_len);
                self.selection_reversed = false;
                if end < start {
                    let tmp = start;
                    start = end;
                    end = tmp;
                    self.selection_reversed = true;
                }
                self.selected_range = Selection { start, end };
            },
            None => {
                let new_offset = match response.cursor {
                    Some(c) => clamp_usize(c as usize, text_len),
                    None => clamp_usize(range.start + ins_len, text_len),
                };
                self.selection_reversed = false;
                self.selected_range = Selection { start: new_offset, end: new_offset };
            },
        }
        self.ime_marked_range = None;
        true
    }

    /// Shows a backend's answer to the composition update of `range` with
    /// `new_text`. A refused update changes nothing. An accepted one takes
    /// the backend's text; an empty `new_text` ends the composition with
    /// the caret at the range's start (clamped); else the backend's
    /// selection, clamped and put in order, becomes both the selection and
    /// the marked range; else the marked range is a caret at
    /// `backend_fallback` and the selection is `new_selected_range_utf16`
    /// read in the new text, or that caret. Changes are grouped from here
    /// on. Returns whether the update was accepted.
    pub fn apply_backend_mark_response(
        &mut self,
        range: &Range<usize>,
        new_text: &str,
        new_selected_range_utf16: Option<Range<usize>>,
        response: &EditorBackendEditResult,
        backend_text: &Rope,
    ) -> (accepted: bool)
        requires
            range.start + byte_len(new_text@) <= usize::MAX,
        ensures
            accepted == response.accepted,
            !accepted ==> final(self)@ == old(self)@,
            old(self)@.wf() ==> final(self)@.wf(),
            accepted ==> ({
                let v = old(self)@;
                let t = rope_text(*backend_text);
                let len = byte_len(t) as usize;
                let bs = backend_selection(len, range.start, byte_len(new_text@), *response);
                let fb = backend_fallback(len, range.start, byte_len(new_text@), *response);
                let g = EditorView {
                    text: t,
                    grouping: true,
                    group_open: if v.grouping {
                        v.group_open
                    } else {
                        false
                    },
                    ..v
                };
                if new_text@.len() == 0 {
                    final(self)@ == EditorView {
                        selection: Selection::new_spec(
                            clamp_to(range.start, len),
                            clamp_to(range.start, len),
                        ),
                        marked: None,
                        ..g
                    }
                } else if response.selection is Some {
                    final(self)@ == EditorView {
                        selection: bs.0,
                        reversed: bs.1,
                        marked: Some(bs.0),
                        ..g
                    }
                } else {
                    final(self)@ == EditorView {
                        selection: match new_selected_range_utf16 {
                            Some(r) => Selection::new_spec(
                                byte_of_utf16(t, r.start as int) as usize,
                                byte_of_utf16(t, r.end as int) as usize,
                            ),
                            None => Selection::new_spec(fb, fb),
                        },
                        marked: Some(Selection::new_spec(fb, fb)),
                        ..g
                    }
                }
            }),
            final(self).language_spec() == old(self).language_spec(),
    {
        if !response.accepted {
            return false;
        }
        self.text = rope_clone(backend_text);
        let text_len = rope_len_bytes(&self.text);
        let ins_len = crate::text_offsets::str_byte_len(new_text);
        if ins_len == 0 {
            let s = clamp_usize(range.start, text_len);
            self.selected_range = Selection { start: s, end: s };
            self.ime_marked_range = None;
        } else {
            match &response.selection {
                Some(sel) => {
                    let mut start = clamp_usize(sel.start as usize, text_len);
                    let mut end = clamp_usize(sel.end as usize, text_len);
                    self.selection_reversed = false;
                    if end < start {
                        let tmp = start;
                        start = end;
                        end = tmp;
                        self.selection_reversed = true;
                    }
                    self.selected_range = Selection { start, end };
                    self.ime_marked_range = Some(Selection { start, end });
                },
                None => {
                    let fallback = match response.cursor {
                        Some(c) => clamp_usize(c as usize, text_len),
                        None => clamp_usize(range.start + ins_len, text_len),
                    };
                    let selected = match &new_selected_range_utf16 {
                        Some(r) => {
                            let nr = self.range_from_utf16(r);
                            Selection { start: nr.start, end: nr.end }
                        },
                        None => Selection { start: fallback, end: fallback },
                    };
                    self.selected_range = selected;
                    self.ime_marked_range = Some(Selection { start: fallback, end: fallback });
                },
            }
        }
        if !self.grouping {
            self.grouping = true;
            self.group_open = false;
        }
        true
    }
}

impl InputState {
    /// Clears the text (even on a disabled editor, not on a read-only
    /// one), recording the change, and puts the caret at the start.
    pub fn clean(&mut self) -> (changed: bool)
        requires
            old(self)@.wf(),
        ensures
            ({
                let v = old(self)@;
                let rg = Some(0..(utf16_len(v.text) as usize));
                let v1 = EditorView { disabled: false, ..v };
                &&& changed == !v.read_only
                &&& changed ==> final(self)@ == EditorView {
                    disabled: v.disabled,
                    selection: Selection::new_spec(0, 0),
                    ..v1.edited(rg, Seq::empty(), true)
                }
                &&& changed ==> final(self)@.text == Seq::<char>::empty()
                &&& !changed ==> final(self)@ == EditorView {
                    selection: Selection::new_spec(0, 0),
                    ..v
                }
            }),
            final(self)@.wf(),
            final(self).language_spec() == old(self).language_spec(),
    {
        let ghost t = self@.text;
        let was_disabled = self.disabled;
        self.disabled = false;
        let n16 = rope_len_utf16(&self.text);
        proof {
            lemma_whole_range(t);
            assert(byte_len(""@) == 0) by {
                reveal_strlit("");
            }
        }
        assert(self@.edit_range(Some(0..n16)) == (0int, byte_len(t) as int));
        let changed = self.apply_local_edit(Some(0..n16), "", true, true);
        proof {
            reveal_strlit("");
            if changed {
                assert(replace_bytes(t, 0, byte_len(t) as int, ""@) =~= Seq::<char>::empty());
            }
        }
        self.disabled = was_disabled;
        self.selected_range = Selection { start: 0, end: 0 };
        changed
    }
}

/// The text as a masked editor shows it: every character but a line break
/// drawn as `*`.
pub open spec fn mask_chars(s: Seq<char>) -> Seq<char> {
    s.map_values(|c: char| if c == '\n' || c == '\r' { c } else { '*' })
}

/// A piece of the drawn text: its length in bytes and whether it is
/// underlined as composing text.
#[derive(Debug, Clone, Copy, PartialEq, Eq, Structural)]
pub struct TextRunSpan {
    pub len: usize,
    pub marked: bool,
}

/// The non-empty pieces among `runs`, in order.
pub open spec fn non_empty_runs(runs: Seq<TextRunSpan>) -> Seq<TextRunSpan> {
    runs.filter(|r: TextRunSpan| r.len > 0)
}

/// The pieces of a drawn text of `len` bytes around the marked range `m`:
/// before it, the composing text, after it; empty pieces left out.
pub fn split_runs_at_marked(len: usize, m: Selection) -> (r: Vec<TextRunSpan>)
    requires
        m.start <= m.end <= len,
    ensures
        r@ == non_empty_runs(
            seq![
                TextRunSpan { len: m.start, marked: false },
                TextRunSpan { len: (m.end - m.start) as usize, marked: true },
                TextRunSpan { len: (len - m.end) as usize, marked: false },
            ],
        ),
{
    let ghost all = seq![
        TextRunSpan { len: m.start, marked: false },
        TextRunSpan { len: (m.end - m.start) as usize, marked: true },
        TextRunSpan { len: (len - m.end) as usize, marked: false },
    ];
    let mut out: Vec<TextRunSpan> = Vec::new();
    let a = TextRunSpan { len: m.start, marked: false };
    let b = TextRunSpan { len: m.end - m.start, marked: true };
    let c = TextRunSpan { len: len - m.end, marked: false };
    if a.len > 0 {
        out.push(a);
    }
    if b.len > 0 {
        out.push(b);
    }
    if c.len > 0 {
        out.push(c);
    }
    proof {
        let f = |r: TextRunSpan| r.len > 0;
        assert(all.take(1).drop_last() =~= Seq::<TextRunSpan>::empty());
        assert(all.take(2).drop_last() =~= all.take(1));
        assert(all.take(3).drop_last() =~= all.take(2));
        assert(all.take(3) =~= all);
        reveal(Seq::filter);
        assert(Seq::<TextRunSpan>::empty().filter(f) =~= Seq::<TextRunSpan>::empty());
        assert(all.take(1).filter(f) =~= (if a.len > 0 { seq![a] } else { Seq::empty() }));
        assert(all.take(2).filter(f) =~= all.take(1).filter(f) + (if b.len > 0 { seq![b] } else { Seq::empty() }));
        assert(all.filter(f) =~= all.take(2).filter(f) + (if c.len > 0 { seq![c] } else { Seq::empty() }));
        assert(out@ =~= all.filter(f));
    }
    out
}

impl InputState {
    /// Shows the text masked (or plainly again).
    pub fn masked(self, masked: bool) -> (r: Self)
        ensures
            r@ == (EditorView { masked, ..self@ }),
            r.language_spec() == self.language_spec(),
    {
        let mut s = self;
        s.masked = masked;
        s
    }

    /// Sets whether the text is shown masked.
    pub fn set_masked(&mut self, masked: bool)
        ensures
            final(self)@ == (EditorView { masked, ..old(self)@ }),
            final(self).language_spec() == old(self).language_spec(),
    {
        self.masked = masked;
    }

    /// The text the editor draws: the placeholder when the text is empty,
    /// else the text, masked when the editor masks it.
    pub fn display_text(&self, placeholder: &str) -> (r: String)
        ensures
            r@ == if self@.text.len() == 0 {
                placeholder@
            } else if self@.masked {
                mask_chars(self@.text)
            } else {
                self@.text
            },
    {
        let ghost t = self@.text;
        let n = rope_len_chars(&self.text);
        if n == 0 {
            return placeholder.to_owned();
        }
        if !self.masked {
            return rope_to_string(&self.text);
        }
        let mut out: Vec<char> = Vec::new();
        let mut i: usize = 0;
        while i < n
            invariant
                t == self@.text,
                n == t.len(),
                i <= n,
                out@ == mask_chars(t.take(i as int)),
            decreases n - i,
        {
            let c = rope_char(&self.text, i);
            let shown = if c == '\n' || c == '\r' {
                c
            } else {
                '*'
            };
            out.push(shown);
            assert(mask_chars(t.take(i + 1)) =~= mask_chars(t.take(i as int)).push(shown));
            i += 1;
        }
        assert(t.take(n as int) =~= t);
        string_from_chars(out.as_slice())
    }
}

/// The selection after moving its moving end to `offset` (clamped to a
/// text of `len` bytes), and whether it then runs backwards: the ends are
/// swapped when they cross, and a kept word stays inside the selection.
pub open spec fn selected_to(
    sel: Selection,
    reversed: bool,
    word: Option<Selection>,
    len: usize,
    offset: usize,
) -> (Selection, bool) {
    let o = clamp_to(offset, len);
    let moved = if reversed {
        Selection { start: o, end: sel.end }
    } else {
        Selection { start: sel.start, end: o }
    };
    let (ordered, rev) = if moved.end < moved.start {
        (Selection { start: moved.end, end: moved.start }, !reversed)
    } else {
        (moved, reversed)
    };
    match word {
        Some(w) => (
            Selection {
                start: if ordered.start > w.start {
                    w.start
                } else {
                    ordered.start
                },
                end: if ordered.end < w.end {
                    w.end
                } else {
                    ordered.end
                },
            },
            rev,
        ),
        None => (ordered, rev),
    }
}

impl InputState {
    /// Moves the moving end of the selection to `offset`, clamped to the
    /// text; see `selected_to`.
    pub fn select_to(&mut self, offset: usize)
        ensures
            final(self)@ == (EditorView {
                selection: selected_to(
                    old(self)@.selection,
                    old(self)@.reversed,
                    old(self)@.word_range,
                    byte_len(old(self)@.text) as usize,
                    offset,
                ).0,
                reversed: selected_to(
                    old(self)@.selection,
                    old(self)@.reversed,
                    old(self)@.word_range,
                    byte_len(old(self)@.text) as usize,
                    offset,
                ).1,
                ..old(self)@
            }),
            final(self).language_spec() == old(self).language_spec(),
    {
        let len = rope_len_bytes(&self.text);
        let o = clamp_usize(offset, len);
        if self.selection_reversed {
            self.selected_range.start = o;
        } else {
            self.selected_range.end = o;
        }
        if self.selected_range.end < self.selected_range.start {
            self.selection_reversed = !self.selection_reversed;
            self.selected_range = Selection {
                start: self.selected_range.end,
                end: self.selected_range.start,
            };
        }
        match &self.selected_word_range {
            Some(w) => {
                if self.selected_range.start > w.start {
                    self.selected_range.start = w.start;
                }
                if self.selected_range.end < w.end {
                    self.selected_range.end = w.end;
                }
            },
            None => {},
        }
    }

    /// Selects the whole text.
    pub fn select_all(&mut self)
        ensures
            final(self)@ == (EditorView {
                selection: Selection::new_spec(0, byte_len(old(self)@.text) as usize),
                ..old(self)@
            }),
            final(self).language_spec() == old(self).language_spec(),
    {
        let len = rope_len_bytes(&self.text);
        self.selected_range = Selection { start: 0, end: len };
    }

    /// Extends the selection to the start of the text.
    pub fn select_to_start(&mut self)
        ensures
            final(self)@ == (EditorView {
                selection: selected_to(
                    old(self)@.selection,
                    old(self)@.reversed,
                    old(self)@.word_range,
                    byte_len(old(self)@.text) as usize,
                    0,
                ).0,
                reversed: selected_to(
                    old(self)@.selection,
                    old(self)@.reversed,
                    old(self)@.word_range,
                    byte_len(old(self)@.text) as usize,
                    0,
                ).1,
                ..old(self)@
            }),
            final(self).language_spec() == old(self).language_spec(),
    {
        self.select_to(0);
    }

    /// Extends the selection to the end of the text.
    pub fn select_to_end(&mut self)
        ensures
            final(self)@ == (EditorView {
                selection: selected_to(
                    old(self)@.selection,
                    old(self)@.reversed,
                    old(self)@.word_range,
                    byte_len(old(self)@.text) as usize,
                    byte_len(old(self)@.text) as usize,
                ).0,
                reversed: selected_to(
                    old(self)@.selection,
                    old(self)@.reversed,
                    old(self)@.word_range,
                    byte_len(old(self)@.text) as usize,
                    byte_len(old(self)@.text) as usize,
                ).1,
                ..old(self)@
            }),
            final(self).language_spec() == old(self).language_spec(),
    {
        let len = rope_len_bytes(&self.text);
        self.select_to(len);
    }

    /// Keeps the word `word` selected while the selection is dragged (or
    /// stops keeping one).
    pub fn set_selected_word_range(&mut self, word: Option<Selection>)
        ensures
            final(self)@ == (EditorView { word_range: word, ..old(self)@ }),
            final(self).language_spec() == old(self).language_spec(),
    {
        self.selected_word_range = word;
    }
}

/// Byte offset where the line holding byte `o` of `t` starts.
pub open spec fn line_start_at(t: Seq<char>, o: int) -> int {
    row_start(t, row_at(t, o) as int) as int
}

/// Byte offset where the line holding byte `o` of `t` ends, before its
/// line break.
pub open spec fn line_end_at(t: Seq<char>, o: int) -> int {
    (row_start(t, row_at(t, o) as int) + byte_len(split_lines(t)[row_at(t, o) as int])) as int
}

/// The indentation that starts at character `k` of `s`: the whitespace
/// characters up to the first other one or line break.
pub open spec fn indent_from(s: Seq<char>, k: int) -> Seq<char>
    decreases s.len() - k,
{
    if 0 <= k < s.len() && is_white_space(s[k]) && s[k] != '\n' && s[k] != '\r' {
        seq![s[k]] + indent_from(s, k + 1)
    } else {
        Seq::empty()
    }
}

/// The indentation Enter carries over in a code editor, with the caret at
/// byte `o`: the indentation after the line's end when it is longer (in
/// bytes) than the one at the line's start, else the one at its start.
pub open spec fn next_line_indent(t: Seq<char>, o: int) -> Seq<char> {
    let cur = indent_from(t, char_floor(t, line_start_at(t, o)) as int);
    let next = indent_from(t, char_floor(t, line_end_at(t, o)) as int);
    if byte_len(next) > byte_len(cur) {
        next
    } else {
        cur
    }
}

/// The line holding byte `o` lies within the text, around `o` when `o`
/// does.
proof fn lemma_line_at(t: Seq<char>, o: int)
    requires
        0 <= o,
    ensures
        row_at(t, o) < split_lines(t).len(),
        0 <= line_start_at(t, o) <= line_end_at(t, o) <= byte_len(t),
        line_start_at(t, o) <= o,
        o <= byte_len(t) ==> o <= line_end_at(t, o),
{
    lemma_char_floor(t, o);
    lemma_newline_prefix(t, char_floor(t, o) as int, t.len() as int);
    lemma_split_len(t);
    assert(t.take(t.len() as int) =~= t);
    lemma_row_start_bound(t, row_at(t, o) as int);
    if o <= byte_len(t) {
        lemma_local_offset(t, o);
    }
}

impl InputState {
    /// The start and the end of the line holding byte `o`.
    fn line_bounds_at(&self, o: usize) -> (r: (usize, usize))
        ensures
            r.0 == line_start_at(self@.text, o as int),
            r.1 == line_end_at(self@.text, o as int),
    {
        let ghost t = self@.text;
        let k = floor_char(&self.text, o);
        let row = count_newlines(&self.text, k);
        proof {
            lemma_line_at(t, o as int);
        }
        match row_bounds(&self.text, row) {
            Some(rg) => (rg.start, rg.end),
            None => (0, 0),
        }
    }

    /// Where the caret's line starts.
    pub fn start_of_line(&self) -> (r: usize)
        ensures
            r == line_start_at(self@.text, self.cursor_spec() as int),
    {
        let c = self.cursor();
        self.line_bounds_at(c).0
    }

    /// Where the caret's line ends, before its line break.
    pub fn end_of_line(&self) -> (r: usize)
        ensures
            r == line_end_at(self@.text, self.cursor_spec() as int),
    {
        let c = self.cursor();
        self.line_bounds_at(c).1
    }

    /// The indentation starting at character `k`.
    fn indent_at(&self, k: usize) -> (r: Vec<char>)
        requires
            k <= self@.text.len(),
        ensures
            r@ == indent_from(self@.text, k as int),
    {
        let ghost t = self@.text;
        let n = rope_len_chars(&self.text);
        let mut out: Vec<char> = Vec::new();
        let mut i = k;
        let mut going = true;
        while going && i < n
            invariant
                t == self@.text,
                n == t.len(),
                k <= i <= n,
                out@ + indent_from(t, i as int) == indent_from(t, k as int),
                !going ==> indent_from(t, i as int) == Seq::<char>::empty(),
            decreases n - i + (if going { 1int } else { 0int }),
        {
            let c = rope_char(&self.text, i);
            if char_is_whitespace(c) && c != '\n' && c != '\r' {
                out.push(c);
                assert(indent_from(t, i as int) == seq![c] + indent_from(t, i + 1));
                assert(out@ + indent_from(t, i + 1) =~= out@.drop_last() + indent_from(t, i as int));
                i += 1;
            } else {
                going = false;
            }
        }
        assert(out@ + Seq::<char>::empty() =~= out@);
        out
    }

    /// The indentation Enter carries over in a code editor; see
    /// `next_line_indent`.
    pub fn indent_of_next_line(&self) -> (r: String)
        ensures
            r@ == next_line_indent(self@.text, self.cursor_spec() as int),
    {
        let ghost t = self@.text;
        let start = self.start_of_line();
        let end = self.end_of_line();
        proof {
            lemma_line_at(t, self.cursor_spec() as int);
        }
        let ks = rope_byte_to_char(&self.text, start);
        let ke = rope_byte_to_char(&self.text, end);
        proof {
            lemma_char_floor(t, start as int);
            lemma_char_floor(t, end as int);
        }
        let cur = string_from_chars(self.indent_at(ks).as_slice());
        let next = string_from_chars(self.indent_at(ke).as_slice());
        if crate::text_offsets::str_byte_len(next.as_str()) > crate::text_offsets::str_byte_len(
            cur.as_str(),
        ) {
            next
        } else {
            cur
        }
    }
}

/// The text Enter types: a line break, then, in a code editor, the
/// indentation `next_line_indent` gives.
pub open spec fn enter_text(v: EditorView, caret: int) -> Seq<char> {
    seq!['\n'] + if v.code_editor {
        next_line_indent(v.text, caret)
    } else {
        Seq::<char>::empty()
    }
}

/// Where deleting to the start of the line begins, with the caret at `c`:
/// the line's start, or the byte before the caret when it already stands
/// there.
pub open spec fn line_delete_start(t: Seq<char>, c: usize) -> usize {
    let s = line_start_at(t, c as int);
    if s == c {
        if s > 0 {
            (s - 1) as usize
        } else {
            0
        }
    } else {
        s as usize
    }
}

/// Where deleting to the end of the line stops, with the caret at `c`: the
/// line's end, or one byte further (within the text) when the caret
/// already stands there.
pub open spec fn line_delete_end(t: Seq<char>, c: usize) -> usize {
    let e = line_end_at(t, c as int);
    if e == c {
        if e + 1 < byte_len(t) {
            (e + 1) as usize
        } else {
            byte_len(t) as usize
        }
    } else {
        e as usize
    }
}

impl InputState {
    /// Enter: replaces the edit range with a line break, followed in a code
    /// editor by the indentation of the caret's line; see
    /// `replace_text_in_range`.
    pub fn enter(&mut self, input_valid: bool) -> (changed: bool)
        requires
            old(self)@.wf(),
            old(self)@.edit_ok(None, enter_text(old(self)@, old(self).cursor_spec() as int)),
        ensures
            changed == old(self)@.edit_applies(input_valid),
            changed ==> final(self)@ == old(self)@.edited(
                None,
                enter_text(old(self)@, old(self).cursor_spec() as int),
                true,
            ),
            !changed ==> final(self)@ == old(self)@,
            final(self)@.wf(),
            final(self).language_spec() == old(self).language_spec(),
    {
        let mut chars: Vec<char> = Vec::new();
        chars.push('\n');
        if self.code_editor {
            let indent = self.indent_of_next_line();
            let ic = crate::text_offsets::chars_of(indent.as_str());
            let mut i: usize = 0;
            while i < ic.len()
                invariant
                    i <= ic@.len(),
                    chars@ == seq!['\n'] + ic@.take(i as int),
                decreases ic@.len() - i,
            {
                chars.push(ic[i]);
                assert(ic@.take(i + 1) =~= ic@.take(i as int).push(ic@[i as int]));
                i += 1;
            }
            assert(ic@.take(ic@.len() as int) =~= ic@);
        } else {
            assert(chars@ =~= seq!['\n'] + Seq::<char>::empty());
        }
        let text = string_from_chars(chars.as_slice());
        self.apply_local_edit(None, text.as_str(), input_valid, true)
    }

    /// Deletes the selection when there is one; else deletes from the start
    /// of the caret's line (or the byte before the caret when it stands at
    /// that start) to the caret.
    pub fn delete_to_beginning_of_line(&mut self, input_valid: bool) -> (changed: bool)
        requires
            old(self)@.wf(),
            old(self)@.selection.start != old(self)@.selection.end ==> old(self)@.edit_ok(
                None,
                Seq::empty(),
            ),
        ensures
            ({
                let v = old(self)@;
                let c = old(self).cursor_spec();
                let rg = if v.selection.start != v.selection.end {
                    None
                } else {
                    Some(utf16_range(v.text, line_delete_start(v.text, c)..c))
                };
                &&& changed == v.edit_applies(input_valid)
                &&& changed ==> final(self)@ == v.edited(rg, Seq::empty(), true)
                &&& !changed ==> final(self)@ == v
            }),
            final(self)@.wf(),
            final(self).language_spec() == old(self).language_spec(),
    {
        if self.selected_range.start != self.selected_range.end {
            proof {
                reveal_strlit("");
                assert(""@ =~= Seq::<char>::empty());
            }
            return self.apply_local_edit(None, "", input_valid, true);
        }
        let ghost t = self@.text;
        let c = self.cursor();
        let mut offset = self.start_of_line();
        if offset == c {
            offset = if offset > 0 {
                offset - 1
            } else {
                0
            };
        }
        proof {
            lemma_line_at(t, c as int);
            lemma_utf16_of_byte_mono(t, offset as int, c as int);
            lemma_byte_of_utf16_mono(
                t,
                utf16_of_byte(t, offset as int),
                utf16_of_byte(t, c as int),
            );
            lemma_byte_of_utf16(t, utf16_of_byte(t, offset as int));
            lemma_byte_of_utf16(t, utf16_of_byte(t, c as int));
            reveal_strlit("");
            assert(""@ =~= Seq::<char>::empty());
        }
        let rg = self.range_to_utf16(&(offset..c));
        self.apply_local_edit(Some(rg), "", input_valid, true)
    }

    /// Deletes the selection when there is one; else deletes from the caret
    /// to the end of its line (or one byte further when the caret stands at
    /// that end).
    pub fn delete_to_end_of_line(&mut self, input_valid: bool) -> (changed: bool)
        requires
            old(self)@.wf(),
            old(self)@.selection.start != old(self)@.selection.end ==> old(self)@.edit_ok(
                None,
                Seq::empty(),
            ),
            old(self)@.selection.start == old(self)@.selection.end ==> old(self).cursor_spec()
                <= byte_len(old(self)@.text),
        ensures
            ({
                let v = old(self)@;
                let c = old(self).cursor_spec();
                let rg = if v.selection.start != v.selection.end {
                    None
                } else {
                    Some(utf16_range(v.text, c..line_delete_end(v.text, c)))
                };
                &&& changed == v.edit_applies(input_valid)
                &&& changed ==> final(self)@ == v.edited(rg, Seq::empty(), true)
                &&& !changed ==> final(self)@ == v
            }),
            final(self)@.wf(),
            final(self).language_spec() == old(self).language_spec(),
    {
        if self.selected_range.start != self.selected_range.end {
            proof {
                reveal_strlit("");
                assert(""@ =~= Seq::<char>::empty());
            }
            return self.apply_local_edit(None, "", input_valid, true);
        }
        let ghost t = self@.text;
        let c = self.cursor();
        let len = rope_len_bytes(&self.text);
        let mut offset = self.end_of_line();
        proof {
            lemma_line_at(t, c as int);
        }
        if offset == c {
            offset = if offset < len {
                offset + 1
            } else {
                len
            };
        }
        proof {
            lemma_utf16_of_byte_mono(t, c as int, offset as int);
            lemma_byte_of_utf16_mono(
                t,
                utf16_of_byte(t, c as int),
                utf16_of_byte(t, offset as int),
            );
            lemma_byte_of_utf16(t, utf16_of_byte(t, offset as int));
            lemma_byte_of_utf16(t, utf16_of_byte(t, c as int));
            reveal_strlit("");
            assert(""@ =~= Seq::<char>::empty());
        }
        let rg = self.range_to_utf16(&(c..offset));
        self.apply_local_edit(Some(rg), "", input_valid, true)
    }
}

/// A composition outside any group, ended by an edit, is one undo step
/// holding both changes, in order.
pub proof fn law_composition_is_one_undo_step(
    v: EditorView,
    range_utf16: Option<Range<usize>>,
    composing: Seq<char>,
    selected_utf16: Option<Range<usize>>,
    committed: Seq<char>,
)
    requires
        !v.grouping,
    ensures
        ({
            let w1 = v.composed(range_utf16, composing, selected_utf16);
            let w2 = w1.edited(None, committed, true);
            &&& w2.undo == v.undo.push(
                seq![v.change_of(range_utf16, composing), w1.change_of(None, committed)],
            )
            &&& !w2.grouping
            &&& w2.redo == Seq::<Seq<ChangeView>>::empty()
        }),
{
    let w1 = v.composed(range_utf16, composing, selected_utf16);
    let c1 = v.change_of(range_utf16, composing);
    let c2 = w1.change_of(None, committed);
    assert(w1.undo == v.undo.push(seq![c1]));
    assert(seq![c1].push(c2) =~= seq![c1, c2]);
    assert(w1.undo.update(w1.undo.len() - 1, w1.undo.last().push(c2)) =~= v.undo.push(
        seq![c1, c2],
    ));
}

} // verus!
