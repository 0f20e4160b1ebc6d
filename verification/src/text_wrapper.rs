//! Soft-wrapped lines of an editor's text.
//!
//! The text is cut into lines at each `'\n'`; each line is cut further into
//! display rows by byte ranges that the layout supplies. The wrapper keeps
//! the lines of its text and, for each, the first display row it starts on,
//! so that byte offsets and display points convert both ways.
use vstd::prelude::*;
use std::ops::Range;
use ropey::Rope;
use crate::editor::{
    lemma_char_floor_mono, replace_bytes, rope_byte_to_char, rope_char, rope_clone, rope_eq,
    rope_from_str, rope_len_bytes, rope_len_chars, rope_new, rope_text, DisplayPoint,
};
use crate::text_offsets::{
    byte_len, byte_offset, char_floor, is_boundary, str_byte_len, string_from_chars,
    utf8_width, lemma_byte_len_concat, lemma_char_floor, lemma_char_floor_unique,
    lemma_offset_end, lemma_offset_is_boundary, lemma_offset_mono, lemma_offset_succ,
};

verus! {

/// Number of `'\n'` characters in `s`.
pub open spec fn newline_count(s: Seq<char>) -> nat
    decreases s.len(),
{
    if s.len() == 0 {
        0
    } else {
        newline_count(s.drop_last()) + if s.last() == '\n' {
            1nat
        } else {
            0nat
        }
    }
}

/// The lines of `s`: the pieces between its `'\n'` characters, which they
/// do not hold. The empty text has one empty line.
pub open spec fn split_lines(s: Seq<char>) -> Seq<Seq<char>>
    decreases s.len(),
{
    if s.len() == 0 {
        seq![Seq::<char>::empty()]
    } else {
        let p = split_lines(s.drop_last());
        if s.last() == '\n' {
            p.push(Seq::<char>::empty())
        } else {
            p.update(p.len() - 1, p[p.len() - 1].push(s.last()))
        }
    }
}

/// Lines of a concatenation: the last line of the first part joins the
/// first line of the second.
pub open spec fn merge_lines(x: Seq<Seq<char>>, y: Seq<Seq<char>>) -> Seq<Seq<char>> {
    x.drop_last() + seq![x.last() + y[0]] + y.drop_first()
}

/// Bytes that the lines `ls` take with one line break after each.
pub open spec fn lines_bytes(ls: Seq<Seq<char>>) -> nat
    decreases ls.len(),
{
    if ls.len() == 0 {
        0
    } else {
        lines_bytes(ls.drop_last()) + byte_len(ls.last()) + 1
    }
}

/// The row of byte `b` of `s`: the number of line breaks before it.
pub open spec fn row_at(s: Seq<char>, b: int) -> nat {
    newline_count(s.take(char_floor(s, b) as int))
}

/// Byte offset where row `r` of `s` starts.
pub open spec fn row_start(s: Seq<char>, r: int) -> nat {
    lines_bytes(split_lines(s).take(r))
}

pub proof fn lemma_newline_count_concat(a: Seq<char>, b: Seq<char>)
    ensures
        newline_count(a + b) == newline_count(a) + newline_count(b),
    decreases b.len(),
{
    if b.len() == 0 {
        assert(a + b =~= a);
    } else {
        lemma_newline_count_concat(a, b.drop_last());
        assert((a + b).drop_last() =~= a + b.drop_last());
    }
}

/// A text has one line more than it has line breaks.
pub proof fn lemma_split_len(s: Seq<char>)
    ensures
        split_lines(s).len() == newline_count(s) + 1,
    decreases s.len(),
{
    if s.len() > 0 {
        lemma_split_len(s.drop_last());
    }
}

/// The lines of a concatenation are those of its parts, merged.
pub proof fn lemma_split_concat(a: Seq<char>, b: Seq<char>)
    ensures
        split_lines(a + b) == merge_lines(split_lines(a), split_lines(b)),
    decreases b.len(),
{
    let x = split_lines(a);
    lemma_split_len(a);
    if b.len() == 0 {
        assert(a + b =~= a);
        assert(x.last() + Seq::<char>::empty() =~= x.last());
        assert(merge_lines(x, split_lines(b)) =~= x);
    } else {
        let b1 = b.drop_last();
        let ch = b.last();
        lemma_split_concat(a, b1);
        lemma_split_len(b1);
        assert((a + b).drop_last() =~= a + b1);
        assert((a + b).last() == ch);
        let y1 = split_lines(b1);
        let s1 = merge_lines(x, y1);
        let y = split_lines(b);
        if ch == '\n' {
            assert(y == y1.push(Seq::<char>::empty()));
            assert(y[0] == y1[0]);
            assert(y.drop_first() =~= y1.drop_first().push(Seq::<char>::empty()));
            assert(split_lines(a + b) == s1.push(Seq::<char>::empty()));
            assert(split_lines(a + b) =~= merge_lines(x, y));
        } else {
            assert(split_lines(a + b) == s1.update(s1.len() - 1, s1[s1.len() - 1].push(ch)));
            assert(y == y1.update(y1.len() - 1, y1[y1.len() - 1].push(ch)));
            if y1.len() == 1 {
                assert(s1[s1.len() - 1] == x.last() + y1[0]);
                assert((x.last() + y1[0]).push(ch) =~= x.last() + y1[0].push(ch));
                assert(split_lines(a + b) =~= merge_lines(x, y));
            } else {
                assert(y[0] == y1[0]);
                assert(y.drop_first() =~= y1.drop_first().update(
                    y1.len() - 2,
                    y1[y1.len() - 1].push(ch),
                ));
                assert(split_lines(a + b) =~= merge_lines(x, y));
            }
        }
    }
}

/// The lines with their breaks take one byte more than the text.
pub proof fn lemma_lines_bytes(s: Seq<char>)
    ensures
        lines_bytes(split_lines(s)) == byte_len(s) + 1,
    decreases s.len(),
{
    if s.len() == 0 {
        let e = seq![Seq::<char>::empty()];
        assert(e.drop_last() =~= Seq::<Seq<char>>::empty());
        assert(byte_len(Seq::<char>::empty()) == 0);
        assert(lines_bytes(e) == lines_bytes(e.drop_last()) + byte_len(e.last()) + 1);
    } else {
        let p = split_lines(s.drop_last());
        lemma_lines_bytes(s.drop_last());
        lemma_split_len(s.drop_last());
        let c = s.last();
        assert(byte_len(s) == byte_len(s.drop_last()) + utf8_width(c));
        if c == '\n' {
            let q = p.push(Seq::<char>::empty());
            assert(q.drop_last() =~= p);
            assert(byte_len(Seq::<char>::empty()) == 0);
            assert(utf8_width('\n') == 1);
            assert(lines_bytes(q) == lines_bytes(p) + 1);
        } else {
            let l = p[p.len() - 1];
            let q = p.update(p.len() - 1, l.push(c));
            assert(q.drop_last() =~= p.drop_last());
            assert(l.push(c).drop_last() =~= l);
            assert(byte_len(l.push(c)) == byte_len(l) + utf8_width(c));
            assert(lines_bytes(q) == lines_bytes(p.drop_last()) + byte_len(l.push(c)) + 1);
            assert(lines_bytes(p) == lines_bytes(p.drop_last()) + byte_len(l) + 1);
        }
    }
}

/// Bytes of lines add up over concatenation.
pub proof fn lemma_lines_bytes_concat(x: Seq<Seq<char>>, y: Seq<Seq<char>>)
    ensures
        lines_bytes(x + y) == lines_bytes(x) + lines_bytes(y),
    decreases y.len(),
{
    if y.len() == 0 {
        assert(x + y =~= x);
    } else {
        lemma_lines_bytes_concat(x, y.drop_last());
        assert((x + y).drop_last() =~= x + y.drop_last());
    }
}

/// Where a character position sits among the lines: the row is the number
/// of line breaks before it, the lines before that row are those of the
/// prefix, and the row's line is the prefix's last line continued by the
/// suffix's first.
pub proof fn lemma_row_of_prefix(s: Seq<char>, k: int)
    requires
        0 <= k <= s.len(),
    ensures
        ({
            let a = s.take(k);
            let b = s.skip(k);
            let r = newline_count(a) as int;
            let tail = split_lines(a).last();
            &&& r < split_lines(s).len()
            &&& split_lines(s).take(r) == split_lines(a).drop_last()
            &&& split_lines(s)[r] == tail + split_lines(b)[0]
            &&& byte_len(tail) <= byte_len(a)
            &&& row_start(s, r) + byte_len(tail) == byte_len(a)
        }),
{
    let a = s.take(k);
    let b = s.skip(k);
    assert(s =~= a + b);
    lemma_split_concat(a, b);
    lemma_split_len(a);
    lemma_split_len(b);
    lemma_split_len(s);
    lemma_newline_count_concat(a, b);
    let x = split_lines(a);
    let y = split_lines(b);
    let r = newline_count(a) as int;
    let m = merge_lines(x, y);
    assert(m.take(r) =~= x.drop_last());
    assert(m[r] == x.last() + y[0]);
    lemma_lines_bytes(a);
    assert(lines_bytes(x) == lines_bytes(x.drop_last()) + byte_len(x.last()) + 1);
}

/// A line that starts with a character other than a line break holds that
/// character first.
pub proof fn lemma_first_line_width(b: Seq<char>)
    requires
        b.len() > 0,
        b[0] != '\n',
    ensures
        utf8_width(b[0]) <= byte_len(split_lines(b)[0]),
{
    let h = seq![b[0]];
    let rest = b.skip(1);
    assert(b =~= h + rest);
    lemma_split_concat(h, rest);
    lemma_split_len(rest);
    assert(h.drop_last() =~= Seq::<char>::empty());
    assert(split_lines(h.drop_last()) == seq![Seq::<char>::empty()]);
    assert(Seq::<char>::empty().push(b[0]) =~= h);
    assert(split_lines(h) =~= seq![h]);
    assert(split_lines(b)[0] == h + split_lines(rest)[0]);
    lemma_byte_len_concat(h, split_lines(rest)[0]);
    assert(byte_len(h) == byte_len(h.drop_last()) + utf8_width(b[0]));
    assert(byte_len(Seq::<char>::empty()) == 0);
}

/// The line of a row ends within the text.
pub proof fn lemma_row_start_bound(s: Seq<char>, r: int)
    requires
        0 <= r < split_lines(s).len(),
    ensures
        row_start(s, r) + byte_len(split_lines(s)[r]) <= byte_len(s),
        row_start(s, r + 1) == row_start(s, r) + byte_len(split_lines(s)[r]) + 1,
{
    let ls = split_lines(s);
    lemma_lines_bytes(s);
    assert(ls =~= ls.take(r) + ls.skip(r));
    lemma_lines_bytes_concat(ls.take(r), ls.skip(r));
    let rest = ls.skip(r);
    assert(rest =~= seq![ls[r]] + rest.skip(1));
    lemma_lines_bytes_concat(seq![ls[r]], rest.skip(1));
    let one = seq![ls[r]];
    assert(one.drop_last() =~= Seq::<Seq<char>>::empty());
    assert(lines_bytes(Seq::<Seq<char>>::empty()) == 0);
    assert(one.last() == ls[r]);
    assert(lines_bytes(one) == lines_bytes(one.drop_last()) + byte_len(one.last()) + 1);
    assert(ls.take(r + 1).drop_last() =~= ls.take(r));
}

/// Offset of byte `b` within its line: at most the line's length.
pub proof fn lemma_local_offset(s: Seq<char>, b: int)
    requires
        0 <= b <= byte_len(s),
    ensures
        row_at(s, b) < split_lines(s).len(),
        row_start(s, row_at(s, b) as int) <= b,
        b <= row_start(s, row_at(s, b) as int) + byte_len(split_lines(s)[row_at(s, b) as int]),
{
    lemma_char_floor(s, b);
    let k = char_floor(s, b) as int;
    lemma_row_of_prefix(s, k);
    let a = s.take(k);
    let rest = s.skip(k);
    let tail = split_lines(a).last();
    let r = newline_count(a) as int;
    lemma_split_len(rest);
    lemma_byte_len_concat(tail, split_lines(rest)[0]);
    if k < s.len() && b > byte_offset(s, k) {
        assert(rest[0] == s[k]);
        lemma_offset_succ(s, k);
        if s[k] != '\n' {
            lemma_first_line_width(rest);
        }
    } else if k == s.len() {
        lemma_offset_end(s);
    }
}

/// Whether the range holds the byte `x`.
pub open spec fn range_holds(rg: Range<usize>, x: int) -> bool {
    rg.start <= x < rg.end
}

/// Number of bytes a range spans (none when it is reversed).
pub open spec fn range_len(rg: Range<usize>) -> nat {
    if rg.start <= rg.end {
        (rg.end - rg.start) as nat
    } else {
        0
    }
}

/// The display rows of a line of `len` bytes: with soft wrap off, one row
/// for the whole line; with it on, the rows the layout gave, followed by a
/// row for what they leave at the end of the line (or an empty row when
/// they are none).
pub open spec fn wrap_ranges(len: nat, wrapping: bool, w: Seq<Range<usize>>) -> Seq<
    Range<usize>,
> {
    let base = if wrapping {
        w
    } else {
        Seq::<Range<usize>>::empty()
    };
    let prev: int = if base.len() == 0 {
        0
    } else {
        base.last().end as int
    };
    if base.len() == 0 || prev < len {
        base.push(Range { start: prev as usize, end: len as usize })
    } else {
        base
    }
}

/// Line items for the lines `ls`, the `k`-th wrapped by the `k`-th layout
/// in `wraps` (by none when `wraps` is shorter).
pub open spec fn new_items(
    ls: Seq<Seq<char>>,
    wrapping: bool,
    wraps: Seq<Seq<Range<usize>>>,
) -> Seq<(Seq<char>, Seq<Range<usize>>)> {
    Seq::new(
        ls.len(),
        |k: int|
            (
                ls[k],
                wrap_ranges(
                    byte_len(ls[k]),
                    wrapping,
                    if k < wraps.len() {
                        wraps[k]
                    } else {
                        Seq::<Range<usize>>::empty()
                    },
                ),
            ),
    )
}

/// `r`, kept within the rows of `n` lines (row 0 when there are none).
pub open spec fn clamp_row(r: nat, n: nat) -> nat {
    if n == 0 {
        0
    } else if r < n {
        r
    } else {
        (n - 1) as nat
    }
}

/// `old` with the items `lo..=hi` replaced by `new`; all of it replaced
/// when it is empty.
pub open spec fn spliced<A>(old: Seq<A>, lo: int, hi: int, new: Seq<A>) -> Seq<A> {
    if old.len() == 0 {
        new
    } else {
        old.take(lo) + new + old.skip(hi + 1)
    }
}

/// The longest line after looking at the lines `ls`, which stand at rows
/// from `base` on, starting from `init` (row, bytes): a line replaces it
/// only when it is strictly longer.
pub open spec fn longest_after(init: (nat, nat), base: nat, ls: Seq<Seq<char>>) -> (nat, nat)
    decreases ls.len(),
{
    if ls.len() == 0 {
        init
    } else {
        let p = longest_after(init, base, ls.drop_last());
        if byte_len(ls.last()) > p.1 {
            ((base + ls.len() - 1) as nat, byte_len(ls.last()))
        } else {
            p
        }
    }
}

/// Number of display rows of the lines `ls`.
pub open spec fn soft_count(ls: Seq<(Seq<char>, Seq<Range<usize>>)>) -> nat
    decreases ls.len(),
{
    if ls.len() == 0 {
        0
    } else {
        soft_count(ls.drop_last()) + ls.last().1.len()
    }
}

/// Texts of the lines `ls`.
pub open spec fn texts_of(ls: Seq<(Seq<char>, Seq<Range<usize>>)>) -> Seq<Seq<char>> {
    ls.map_values(|l: (Seq<char>, Seq<Range<usize>>)| l.0)
}

/// `c` is `t` with the bytes `start..end` replaced by `m`, both ends being
/// character boundaries of `t`.
pub open spec fn replaced(t: Seq<char>, start: int, end: int, m: Seq<char>, c: Seq<char>) -> bool {
    &&& start <= end
    &&& is_boundary(t, start)
    &&& is_boundary(t, end)
    &&& c == replace_bytes(t, start, end, m)
}

/// A line of the text, without its line break, and the byte ranges of its
/// display rows.
pub struct LineItem {
    line: Rope,
    wrapped_lines: Vec<Range<usize>>,
}

impl View for LineItem {
    type V = (Seq<char>, Seq<Range<usize>>);

    closed spec fn view(&self) -> (Seq<char>, Seq<Range<usize>>) {
        (rope_text(self.line), self.wrapped_lines@)
    }
}

impl LineItem {
    /// Bytes in the line.
    pub fn len(&self) -> (r: usize)
        ensures
            r == byte_len(self@.0),
    {
        rope_len_bytes(&self.line)
    }

    /// Number of display rows of the line.
    pub fn lines_len(&self) -> (r: usize)
        ensures
            r == self@.1.len(),
    {
        self.wrapped_lines.len()
    }

    /// The line's text.
    pub fn text(&self) -> (r: &Rope)
        ensures
            rope_text(*r) == self@.0,
    {
        &self.line
    }

    /// The byte ranges of the line's display rows.
    pub fn wrapped_lines(&self) -> (r: &Vec<Range<usize>>)
        ensures
            r@ == self@.1,
    {
        &self.wrapped_lines
    }
}

/// The longest line seen: its row and its length in bytes.
#[derive(Debug, Clone, Copy, PartialEq, Eq, Structural)]
pub struct LongestRow {
    pub row: usize,
    pub len: usize,
}

/// The lines of a text with their display rows.
pub struct TextWrapper {
    text: Rope,
    soft_lines: usize,
    wrapping: bool,
    longest_row: LongestRow,
    lines: Vec<LineItem>,
    display_row_starts: Vec<usize>,
    initialized: bool,
}

/// Row counts add up along the lines.
pub proof fn lemma_soft_take(ls: Seq<(Seq<char>, Seq<Range<usize>>)>, i: int)
    requires
        0 <= i < ls.len(),
    ensures
        soft_count(ls.take(i + 1)) == soft_count(ls.take(i)) + ls[i].1.len(),
{
    assert(ls.take(i + 1).drop_last() =~= ls.take(i));
}

/// Rows of a prefix of the lines are at most the rows of all of them.
pub proof fn lemma_soft_mono(ls: Seq<(Seq<char>, Seq<Range<usize>>)>, i: int, j: int)
    requires
        0 <= i <= j <= ls.len(),
    ensures
        soft_count(ls.take(i)) <= soft_count(ls.take(j)),
        soft_count(ls.take(ls.len() as int)) == soft_count(ls),
    decreases j - i,
{
    assert(ls.take(ls.len() as int) =~= ls);
    if i < j {
        lemma_soft_mono(ls, i, j - 1);
        lemma_soft_take(ls, j - 1);
    }
}

/// Line breaks in a prefix grow with the prefix and stay within the text.
pub proof fn lemma_newline_prefix(s: Seq<char>, i: int, j: int)
    requires
        0 <= i <= j <= s.len(),
    ensures
        newline_count(s.take(i)) <= newline_count(s.take(j)),
        newline_count(s.take(j)) <= newline_count(s),
{
    assert(s.take(j) =~= s.take(i) + s.subrange(i, j));
    lemma_newline_count_concat(s.take(i), s.subrange(i, j));
    assert(s =~= s.take(j) + s.skip(j));
    lemma_newline_count_concat(s.take(j), s.skip(j));
}

/// Number of line breaks among the first `k` characters of the rope.
pub(crate) fn count_newlines(rope: &Rope, k: usize) -> (r: usize)
    requires
        k <= rope_text(*rope).len(),
    ensures
        r == newline_count(rope_text(*rope).take(k as int)),
{
    let ghost cs = rope_text(*rope);
    let mut n: usize = 0;
    let mut i: usize = 0;
    while i < k
        invariant
            cs == rope_text(*rope),
            k <= cs.len(),
            i <= k,
            n <= i,
            n == newline_count(cs.take(i as int)),
        decreases k - i,
    {
        assert(cs.take(i + 1).drop_last() =~= cs.take(i as int));
        if rope_char(rope, i) == '\n' {
            n += 1;
        }
        i += 1;
    }
    n
}

/// The character a byte of the rope's text falls in; the end of the text
/// for a byte past it.
pub(crate) fn floor_char(rope: &Rope, b: usize) -> (r: usize)
    ensures
        r == char_floor(rope_text(*rope), b as int),
        r <= rope_text(*rope).len(),
{
    let ghost s = rope_text(*rope);
    let len = rope_len_bytes(rope);
    proof {
        lemma_char_floor(s, b as int);
    }
    if b <= len {
        rope_byte_to_char(rope, b)
    } else {
        proof {
            lemma_offset_end(s);
            lemma_offset_is_boundary(s, s.len() as int);
            lemma_char_floor_mono(s, len as int, b as int);
        }
        rope_len_chars(rope)
    }
}

/// The lines of the rope's text.
pub(crate) fn split_chars(rope: &Rope) -> (r: Vec<Vec<char>>)
    ensures
        r@.len() == split_lines(rope_text(*rope)).len(),
        forall|k: int|
            0 <= k < r@.len() ==> #[trigger] r@[k]@ == split_lines(rope_text(*rope))[k],
{
    let ghost cs = rope_text(*rope);
    let n = rope_len_chars(rope);
    let mut done: Vec<Vec<char>> = Vec::new();
    let mut cur: Vec<char> = Vec::new();
    let mut i: usize = 0;
    assert(cs.take(0) =~= Seq::<char>::empty());
    while i < n
        invariant
            cs == rope_text(*rope),
            n == cs.len(),
            i <= cs.len(),
            split_lines(cs.take(i as int)).len() == done@.len() + 1,
            forall|k: int|
                0 <= k < done@.len() ==> #[trigger] done@[k]@ == split_lines(cs.take(i as int))[k],
            cur@ == split_lines(cs.take(i as int))[done@.len() as int],
        decreases cs.len() - i,
    {
        let ghost pre = cs.take(i as int);
        assert(cs.take(i + 1).drop_last() =~= pre);
        assert(cs.take(i + 1).last() == cs[i as int]);
        let c = rope_char(rope, i);
        if c == '\n' {
            let line = cur;
            done.push(line);
            cur = Vec::new();
            assert(cur@ =~= Seq::<char>::empty());
        } else {
            cur.push(c);
        }
        i += 1;
    }
    assert(cs.take(cs.len() as int) =~= cs);
    done.push(cur);
    done
}

/// A copy of the ranges `v`.
fn copy_ranges(v: &Vec<Range<usize>>) -> (r: Vec<Range<usize>>)
    ensures
        r@ == v@,
{
    let mut out: Vec<Range<usize>> = Vec::new();
    let mut i: usize = 0;
    while i < v.len()
        invariant
            i <= v@.len(),
            out@ == v@.take(i as int),
        decreases v@.len() - i,
    {
        let rg = Range { start: v[i].start, end: v[i].end };
        out.push(rg);
        assert(v@.take(i + 1) =~= v@.take(i as int).push(v@[i as int]));
        i += 1;
    }
    assert(v@.take(v@.len() as int) =~= v@);
    out
}

/// The display rows of a line of `len` bytes from the layout's rows `w`.
fn wrap_rows(len: usize, wrapping: bool, w: Vec<Range<usize>>) -> (r: Vec<Range<usize>>)
    ensures
        r@ == wrap_ranges(len as nat, wrapping, w@),
{
    let mut rows = if wrapping {
        w
    } else {
        Vec::new()
    };
    let prev: usize = if rows.len() == 0 {
        0
    } else {
        rows[rows.len() - 1].end
    };
    if rows.len() == 0 || prev < len {
        rows.push(Range { start: prev, end: len });
    }
    rows
}

/// Row starts and row total of the lines `lines`.
fn row_starts(lines: &Vec<LineItem>) -> (r: (Vec<usize>, usize))
    requires
        soft_count(lines@.map_values(|l: LineItem| l@)) <= usize::MAX,
    ensures
        r.0@.len() == lines@.len(),
        forall|k: int|
            0 <= k < lines@.len() ==> #[trigger] r.0@[k] == soft_count(
                lines@.map_values(|l: LineItem| l@).take(k),
            ),
        r.1 == soft_count(lines@.map_values(|l: LineItem| l@)),
{
    let ghost ls = lines@.map_values(|l: LineItem| l@);
    let mut starts: Vec<usize> = Vec::new();
    let mut total: usize = 0;
    let mut i: usize = 0;
    assert(ls.take(0) =~= Seq::<(Seq<char>, Seq<Range<usize>>)>::empty());
    while i < lines.len()
        invariant
            ls == lines@.map_values(|l: LineItem| l@),
            soft_count(ls) <= usize::MAX,
            i <= lines@.len(),
            starts@.len() == i,
            forall|k: int| 0 <= k < i ==> #[trigger] starts@[k] == soft_count(ls.take(k)),
            total == soft_count(ls.take(i as int)),
        decreases lines@.len() - i,
    {
        proof {
            lemma_soft_take(ls, i as int);
            lemma_soft_mono(ls, i + 1, ls.len() as int);
        }
        starts.push(total);
        total = total + lines[i].lines_len();
        i += 1;
    }
    proof {
        lemma_soft_mono(ls, 0, ls.len() as int);
    }
    (starts, total)
}

/// The lines after the first line break of the second part of a
/// concatenation are that part's lines after its first.
pub proof fn lemma_split_suffix(x: Seq<char>, y: Seq<char>)
    ensures
        newline_count(x) + 1 <= split_lines(x + y).len(),
        split_lines(x + y).skip(newline_count(x) + 1int) == split_lines(y).drop_first(),
{
    lemma_split_concat(x, y);
    lemma_split_len(x);
    lemma_split_len(y);
    let m = merge_lines(split_lines(x), split_lines(y));
    assert(m.skip(newline_count(x) + 1int) =~= split_lines(y).drop_first());
}

/// Replacing the lines that an edit touched by the lines of the edited
/// text around it gives the lines of the edited text.
pub proof fn lemma_splice_sync(
    t: Seq<char>,
    c: Seq<char>,
    start: int,
    end: int,
    m: Seq<char>,
    old: Seq<(Seq<char>, Seq<Range<usize>>)>,
    wrapping: bool,
    wraps: Seq<Seq<Range<usize>>>,
)
    requires
        texts_of(old) == split_lines(t),
        replaced(t, start, end, m, c),
        end <= byte_len(t),
    ensures
        texts_of(
            spliced(
                old,
                clamp_row(row_at(t, start), old.len()) as int,
                clamp_row(row_at(t, end), old.len()) as int,
                new_items(
                    split_lines(c).subrange(
                        row_at(c, start) as int,
                        row_at(c, start + byte_len(m)) + 1int,
                    ),
                    wrapping,
                    wraps,
                ),
            ),
        ) == split_lines(c),
{
    let i = char_floor(t, start) as int;
    let j = char_floor(t, end) as int;
    lemma_char_floor(t, start);
    lemma_char_floor(t, end);
    lemma_char_floor_mono(t, start, end);
    let p = t.take(i);
    let k = i + m.len();
    assert(c == p + m + t.skip(j));
    assert(c.take(i) =~= p);
    assert(c.take(k) =~= p + m);
    assert(c.skip(k) =~= t.skip(j));
    assert(t.take(j) + t.skip(j) =~= t);
    assert(t.take(j).take(i) =~= p);
    // rows of the edit's ends in both texts
    lemma_split_len(t);
    lemma_split_len(c);
    lemma_newline_prefix(t, i, j);
    lemma_newline_prefix(t, j, t.len() as int);
    lemma_offset_is_boundary(c, i);
    lemma_byte_len_concat(p, m);
    assert(byte_offset(c, i) == byte_len(p));
    assert(byte_offset(c, k) == byte_len(p + m));
    lemma_offset_is_boundary(c, k);
    let lo = newline_count(p) as int;
    let hi = newline_count(t.take(j)) as int;
    let b = newline_count(p + m) as int;
    lemma_newline_prefix(c, i, k);
    lemma_newline_prefix(c, k, c.len() as int);
    assert(row_at(t, start) == lo);
    assert(row_at(t, end) == hi);
    assert(row_at(c, start) == lo);
    assert(row_at(c, start + byte_len(m)) == b);
    // the lines before the edit and after it are shared
    lemma_row_of_prefix(t, i);
    lemma_row_of_prefix(c, i);
    lemma_split_suffix(t.take(j), t.skip(j));
    lemma_split_suffix(p + m, t.skip(j));
    let tl = split_lines(t);
    let cl = split_lines(c);
    assert(texts_of(old).len() == old.len());
    let mid = cl.subrange(lo, b + 1);
    let items = new_items(mid, wrapping, wraps);
    assert(texts_of(items) =~= mid);
    let sp = spliced(old, lo, hi, items);
    assert(sp == old.take(lo) + items + old.skip(hi + 1));
    assert(texts_of(sp) =~= texts_of(old).take(lo) + texts_of(items) + texts_of(old).skip(hi + 1));
    assert(tl.take(lo) == cl.take(lo));
    assert(tl.skip(hi + 1) == cl.skip(b + 1));
    assert(cl.take(lo) + mid + cl.skip(b + 1) =~= cl);
}

/// Rows, clamped to the `n` lines held, of the bytes `start` and `end` of
/// the rope's text.
fn edit_rows(text: &Rope, n: usize, start: usize, end: usize) -> (r: (usize, usize))
    requires
        start <= end,
    ensures
        r.0 == clamp_row(row_at(rope_text(*text), start as int), n as nat),
        r.1 == clamp_row(row_at(rope_text(*text), end as int), n as nat),
        r.0 <= r.1,
{
    let ghost t = rope_text(*text);
    let i = floor_char(text, start);
    let j = floor_char(text, end);
    proof {
        lemma_char_floor_mono(t, start as int, end as int);
        lemma_newline_prefix(t, i as int, j as int);
    }
    let a0 = count_newlines(text, i);
    let e0 = count_newlines(text, j);
    let start_row = if n == 0 {
        0
    } else if a0 < n {
        a0
    } else {
        n - 1
    };
    let end_row = if n == 0 {
        0
    } else if e0 < n {
        e0
    } else {
        n - 1
    };
    (start_row, end_row)
}

/// The lines of the rope's text, with the rows of its bytes `start` and
/// `start + new_len`.
fn changed_rows(changed: &Rope, start: usize, new_len: usize) -> (r: (Vec<Vec<char>>, usize, usize))
    requires
        start + new_len <= usize::MAX,
    ensures
        r.0@.len() == split_lines(rope_text(*changed)).len(),
        forall|k: int|
            0 <= k < r.0@.len() ==> #[trigger] r.0@[k]@ == split_lines(rope_text(*changed))[k],
        r.1 == row_at(rope_text(*changed), start as int),
        r.2 == row_at(rope_text(*changed), start + new_len),
        r.1 <= r.2 < r.0@.len(),
{
    let ghost c = rope_text(*changed);
    let i2 = floor_char(changed, start);
    let k2 = floor_char(changed, start + new_len);
    proof {
        lemma_char_floor_mono(c, start as int, (start + new_len) as int);
        lemma_newline_prefix(c, i2 as int, k2 as int);
        lemma_split_len(c);
    }
    let ns = count_newlines(changed, i2);
    let ne = count_newlines(changed, k2);
    let all = split_chars(changed);
    (all, ns, ne)
}

/// Line items for the lines `all[ns..=ne]`, laid out by `wraps`, with the
/// longest line after looking at them from `(row, len)`.
fn build_items(
    all: &Vec<Vec<char>>,
    ns: usize,
    ne: usize,
    wrapping: bool,
    wraps: &Vec<Vec<Range<usize>>>,
    row: usize,
    len: usize,
) -> (r: (Vec<LineItem>, usize, usize))
    requires
        ns <= ne < all@.len(),
    ensures
        r.0@.map_values(|l: LineItem| l@) == new_items(
            all@.map_values(|v: Vec<char>| v@).subrange(ns as int, ne + 1int),
            wrapping,
            wraps_view(wraps@),
        ),
        (r.1 as nat, r.2 as nat) == longest_after(
            (row as nat, len as nat),
            ns as nat,
            all@.map_values(|v: Vec<char>| v@).subrange(ns as int, ne + 1int),
        ),
{
    let ghost mid = all@.map_values(|v: Vec<char>| v@).subrange(ns as int, ne + 1int);
    let ghost wv = wraps_view(wraps@);
    let ghost init: (nat, nat) = (row as nat, len as nat);
    let nall = all.len();
    let mut longest_row = row;
    let mut longest_len = len;
    let mut new_lines: Vec<LineItem> = Vec::new();
    let mut m = ns;
    assert(mid.take(0) =~= Seq::<Seq<char>>::empty());
    while m <= ne
        invariant
            ns <= m <= ne + 1,
            ne < nall,
            nall == all@.len(),
            mid == all@.map_values(|v: Vec<char>| v@).subrange(ns as int, ne + 1int),
            wv == wraps_view(wraps@),
            new_lines@.len() == m - ns,
            forall|k: int|
                0 <= k < new_lines@.len() ==> #[trigger] new_lines@[k]@ == new_items(
                    mid,
                    wrapping,
                    wv,
                )[k],
            (longest_row as nat, longest_len as nat) == longest_after(
                init,
                ns as nat,
                mid.take(m - ns),
            ),
        decreases ne + 1 - m,
    {
        let text = string_from_chars(all[m].as_slice());
        let line = rope_from_str(text.as_str());
        let blen = rope_len_bytes(&line);
        proof {
            assert(mid.take(m - ns + 1).drop_last() =~= mid.take(m - ns));
            assert(mid.take(m - ns + 1).last() == mid[m - ns]);
            assert(mid[m - ns] == all@[m as int]@);
        }
        if blen > longest_len {
            longest_row = m;
            longest_len = blen;
        }
        let q = m - ns;
        let w: Vec<Range<usize>> = if q < wraps.len() {
            copy_ranges(&wraps[q])
        } else {
            Vec::new()
        };
        let rows = wrap_rows(blen, wrapping, w);
        new_lines.push(LineItem { line, wrapped_lines: rows });
        m += 1;
    }
    assert(mid.take(m - ns) =~= mid);
    assert(new_lines@.map_values(|l: LineItem| l@) =~= new_items(mid, wrapping, wv));
    (new_lines, longest_row, longest_len)
}

/// `old` with the items `lo..=hi` replaced by `new`; `new` alone when `old`
/// is empty.
fn splice_lines(old: Vec<LineItem>, lo: usize, hi: usize, new: Vec<LineItem>) -> (r: Vec<LineItem>)
    requires
        lo <= hi,
        old@.len() > 0 ==> hi < old@.len(),
    ensures
        r@.map_values(|l: LineItem| l@) == spliced(
            old@.map_values(|l: LineItem| l@),
            lo as int,
            hi as int,
            new@.map_values(|l: LineItem| l@),
        ),
{
    let mut old = old;
    let mut new = new;
    if old.len() == 0 {
        new
    } else {
        let mut tail = old.split_off(hi + 1);
        old.truncate(lo);
        old.append(&mut new);
        old.append(&mut tail);
        old
    }
}

/// Every line of a splice has a display row when the lines spliced
/// together have.
pub proof fn lemma_spliced_rows(
    old: Seq<(Seq<char>, Seq<Range<usize>>)>,
    lo: int,
    hi: int,
    new: Seq<(Seq<char>, Seq<Range<usize>>)>,
)
    requires
        0 <= lo <= hi,
        old.len() > 0 ==> hi < old.len(),
        forall|k: int| 0 <= k < old.len() ==> #[trigger] old[k].1.len() >= 1,
        forall|k: int| 0 <= k < new.len() ==> #[trigger] new[k].1.len() >= 1,
    ensures
        forall|k: int|
            0 <= k < spliced(old, lo, hi, new).len() ==> #[trigger] spliced(
                old,
                lo,
                hi,
                new,
            )[k].1.len() >= 1,
{
    let sp = spliced(old, lo, hi, new);
    assert forall|k: int| 0 <= k < sp.len() implies #[trigger] sp[k].1.len() >= 1 by {
        if old.len() == 0 {
        } else if k < lo {
            assert(sp[k] == old[k]);
        } else if k < lo + new.len() {
            assert(sp[k] == new[k - lo]);
        } else {
            assert(sp[k] == old[k - lo - new.len() + hi + 1]);
        }
    }
}

/// Every laid-out line has a display row.
pub proof fn lemma_new_items_rows(
    ls: Seq<Seq<char>>,
    wrapping: bool,
    wraps: Seq<Seq<Range<usize>>>,
)
    ensures
        forall|k: int|
            0 <= k < new_items(ls, wrapping, wraps).len() ==> #[trigger] new_items(
                ls,
                wrapping,
                wraps,
            )[k].1.len() >= 1,
{
}

/// The line that display row `d` falls in, looking from line `i` on: the
/// first whose rows reach past `d` (the last line at the latest).
pub open spec fn line_of_row_from(ls: Seq<(Seq<char>, Seq<Range<usize>>)>, d: int, i: int) -> int
    decreases ls.len() - i,
{
    if i + 1 >= ls.len() {
        i
    } else if d < soft_count(ls.take(i + 1)) {
        i
    } else {
        line_of_row_from(ls, d, i + 1)
    }
}

/// Line and row within it of display row `d`, `d` kept within the rows;
/// `(0, 0)` when there are no lines.
pub open spec fn display_row_lookup(ls: Seq<(Seq<char>, Seq<Range<usize>>)>, d: int) -> (int, int) {
    if ls.len() == 0 {
        (0, 0)
    } else {
        let dd = if d < soft_count(ls) - 1 {
            d
        } else {
            soft_count(ls) - 1
        };
        let ix = line_of_row_from(ls, dd, 0);
        (ix, dd - soft_count(ls.take(ix)))
    }
}

/// The first of the ranges `rs` from index `i` on that holds byte `x`;
/// `rs.len()` when none does.
pub open spec fn first_from(rs: Seq<Range<usize>>, x: int, i: int) -> int
    decreases rs.len() - i,
{
    if i >= rs.len() {
        rs.len() as int
    } else if range_holds(rs[i], x) {
        i
    } else {
        first_from(rs, x, i + 1)
    }
}

/// The ranges `rs` cut the bytes `0..len` into consecutive rows.
pub open spec fn tiles(rs: Seq<Range<usize>>, len: nat) -> bool {
    &&& rs.len() >= 1
    &&& rs[0].start == 0
    &&& rs.last().end == len
    &&& forall|i: int| 0 <= i < rs.len() ==> #[trigger] rs[i].start <= rs[i].end
    &&& forall|i: int| 0 <= i < rs.len() - 1 ==> #[trigger] rs[i].end == rs[i + 1].start
}

/// A display row is found in the line whose rows hold it.
pub proof fn lemma_line_of_row(ls: Seq<(Seq<char>, Seq<Range<usize>>)>, d: int, i: int, i0: int)
    requires
        0 <= i <= i0 < ls.len(),
        soft_count(ls.take(i0)) <= d,
        i0 + 1 < ls.len() ==> d < soft_count(ls.take(i0 + 1)),
    ensures
        line_of_row_from(ls, d, i) == i0,
    decreases i0 - i,
{
    if i < i0 {
        lemma_soft_mono(ls, i + 1, i0);
        lemma_line_of_row(ls, d, i + 1, i0);
    }
}

/// What `first_from` finds holds the byte, and nothing before it does.
pub proof fn lemma_first_from(rs: Seq<Range<usize>>, x: int, i: int)
    requires
        0 <= i <= rs.len(),
    ensures
        i <= first_from(rs, x, i) <= rs.len(),
        first_from(rs, x, i) < rs.len() ==> range_holds(rs[first_from(rs, x, i)], x),
    decreases rs.len() - i,
{
    if i < rs.len() && !range_holds(rs[i], x) {
        lemma_first_from(rs, x, i + 1);
    }
}

/// Rows that tile a line end within it, and every byte before its end is
/// in one of them.
pub proof fn lemma_tiles(rs: Seq<Range<usize>>, len: nat, x: int)
    requires
        tiles(rs, len),
    ensures
        forall|j: int| 0 <= j < rs.len() ==> #[trigger] rs[j].end <= len,
        0 <= x < len ==> first_from(rs, x, 0) < rs.len(),
{
    assert forall|j: int| 0 <= j < rs.len() implies #[trigger] rs[j].end <= len by {
        lemma_tiles_end(rs, len, j);
    }
    if 0 <= x < len {
        lemma_tiles_cover(rs, len, x, rs.len() - 1);
        let m = choose|m: int| 0 <= m < rs.len() && range_holds(rs[m], x);
        lemma_first_from_le(rs, x, 0, m);
    }
}

proof fn lemma_tiles_end(rs: Seq<Range<usize>>, len: nat, j: int)
    requires
        tiles(rs, len),
        0 <= j < rs.len(),
    ensures
        rs[j].end <= len,
    decreases rs.len() - j,
{
    if j < rs.len() - 1 {
        lemma_tiles_end(rs, len, j + 1);
        assert(rs[j].end == rs[j + 1].start);
        assert(rs[j + 1].start <= rs[j + 1].end);
    }
}

proof fn lemma_tiles_cover(rs: Seq<Range<usize>>, len: nat, x: int, j: int)
    requires
        tiles(rs, len),
        0 <= j < rs.len(),
        0 <= x < rs[j].end,
    ensures
        exists|m: int| 0 <= m < rs.len() && range_holds(rs[m], x),
    decreases j,
{
    if j == 0 {
        assert(range_holds(rs[0], x));
    } else if x < rs[j - 1].end {
        lemma_tiles_cover(rs, len, x, j - 1);
    } else {
        assert(rs[j - 1].end == rs[j].start);
        assert(range_holds(rs[j], x));
    }
}

proof fn lemma_first_from_le(rs: Seq<Range<usize>>, x: int, i: int, m: int)
    requires
        0 <= i <= m < rs.len(),
        range_holds(rs[m], x),
    ensures
        first_from(rs, x, i) <= m,
    decreases m - i,
{
    if i < m && !range_holds(rs[i], x) {
        lemma_first_from_le(rs, x, i + 1, m);
    }
}

/// The views of layouts given as vectors.
pub open spec fn wraps_view(ws: Seq<Vec<Range<usize>>>) -> Seq<Seq<Range<usize>>> {
    ws.map_values(|v: Vec<Range<usize>>| v@)
}

impl TextWrapper {
    pub closed spec fn text_spec(&self) -> Seq<char> {
        rope_text(self.text)
    }

    pub closed spec fn lines_spec(&self) -> Seq<(Seq<char>, Seq<Range<usize>>)> {
        self.lines@.map_values(|l: LineItem| l@)
    }

    pub closed spec fn wrapping_spec(&self) -> bool {
        self.wrapping
    }

    pub closed spec fn longest_spec(&self) -> (nat, nat) {
        (self.longest_row.row as nat, self.longest_row.len as nat)
    }

    pub closed spec fn initialized_spec(&self) -> bool {
        self.initialized
    }

    /// The row starts and the row total agree with the lines, and every
    /// line has a display row.
    pub closed spec fn wf(&self) -> bool {
        &&& self.display_row_starts@.len() == self.lines@.len()
        &&& forall|k: int|
            0 <= k < self.lines@.len() ==> #[trigger] self.display_row_starts@[k] == soft_count(
                self.lines_spec().take(k),
            )
        &&& self.soft_lines == soft_count(self.lines_spec())
        &&& forall|k: int| 0 <= k < self.lines@.len() ==> #[trigger] self.lines@[k]@.1.len() >= 1
        &&& byte_len(rope_text(self.text)) <= usize::MAX
    }

    /// The wrapper holds the lines of its text, in order.
    pub open spec fn synced(&self) -> bool {
        texts_of(self.lines_spec()) == split_lines(self.text_spec())
    }

    /// The lines after an update for the edit of the bytes `start..end` of
    /// the text into `new_len` bytes, giving `c`: the lines the edit
    /// touched, from the row of its start to the row of its end, are
    /// replaced by the lines of `c` from the row of its start to the row
    /// where the inserted text ends.
    pub open spec fn updated_lines(
        &self,
        c: Seq<char>,
        start: int,
        end: int,
        new_len: int,
        wraps: Seq<Seq<Range<usize>>>,
    ) -> Seq<(Seq<char>, Seq<Range<usize>>)> {
        let t = self.text_spec();
        let n = self.lines_spec().len();
        spliced(
            self.lines_spec(),
            clamp_row(row_at(t, start), n) as int,
            clamp_row(row_at(t, end), n) as int,
            new_items(
                split_lines(c).subrange(row_at(c, start) as int, row_at(c, start + new_len) + 1int),
                self.wrapping_spec(),
                wraps,
            ),
        )
    }

    /// The longest line after such an update: forgotten when its row was
    /// among those replaced, then replaced by any new line strictly longer.
    pub open spec fn updated_longest(&self, c: Seq<char>, start: int, end: int, new_len: int) -> (
        nat,
        nat,
    ) {
        let t = self.text_spec();
        let n = self.lines_spec().len();
        let lo = clamp_row(row_at(t, start), n);
        let hi = clamp_row(row_at(t, end), n);
        let (lr, ll) = self.longest_spec();
        let init = if lo <= lr <= hi {
            (0nat, 0nat)
        } else {
            (lr, ll)
        };
        let a = row_at(c, start);
        longest_after(init, a, split_lines(c).subrange(a as int, row_at(c, start + new_len) + 1int))
    }

    /// An empty wrapper, with or without soft wrap, before any layout.
    pub fn new(wrapping: bool) -> (r: Self)
        ensures
            r.wf(),
            r.text_spec() == Seq::<char>::empty(),
            r.lines_spec() == Seq::<(Seq<char>, Seq<Range<usize>>)>::empty(),
            r.wrapping_spec() == wrapping,
            r.longest_spec() == (0nat, 0nat),
            !r.initialized_spec(),
    {
        let r = TextWrapper {
            text: rope_new(),
            soft_lines: 0,
            wrapping,
            longest_row: LongestRow { row: 0, len: 0 },
            lines: Vec::new(),
            display_row_starts: Vec::new(),
            initialized: false,
        };
        assert(r.lines_spec() =~= Seq::<(Seq<char>, Seq<Range<usize>>)>::empty());
        r
    }

    /// Total number of display rows.
    pub fn len(&self) -> (r: usize)
        requires
            self.wf(),
        ensures
            r == soft_count(self.lines_spec()),
    {
        self.soft_lines
    }

    /// Number of lines.
    pub fn line_count(&self) -> (r: usize)
        ensures
            r == self.lines_spec().len(),
    {
        self.lines.len()
    }

    /// The line at `row`, if there is one.
    pub fn line(&self, row: usize) -> (r: Option<&LineItem>)
        ensures
            match r {
                Some(l) => row < self.lines_spec().len() && l@ == self.lines_spec()[row as int],
                None => row >= self.lines_spec().len(),
            },
    {
        if row < self.lines.len() {
            Some(&self.lines[row])
        } else {
            None
        }
    }

    /// The longest line seen, by bytes.
    pub fn longest_row(&self) -> (r: LongestRow)
        ensures
            (r.row as nat, r.len as nat) == self.longest_spec(),
    {
        self.longest_row
    }

    /// Whether soft wrap is on.
    pub fn wrapping(&self) -> (r: bool)
        ensures
            r == self.wrapping_spec(),
    {
        self.wrapping
    }

    /// Whether the lines were ever laid out.
    pub fn is_initialized(&self) -> (r: bool)
        ensures
            r == self.initialized_spec(),
    {
        self.initialized
    }

    /// Updates the lines after the bytes `range` of the text were replaced
    /// by `new_text`, giving `changed_text`. The lines from the row of the
    /// range's start to the row of its end are replaced by the lines of the
    /// changed text from the row of the start to the row where the inserted
    /// text ends, each laid out by the matching entry of `wraps` when soft
    /// wrap is on; on a wrapper that holds no lines yet these become all its
    /// lines. When the wrapper held the lines of its text and the changed
    /// text is that edit of it, it holds the lines of the changed text.
    pub fn update(
        &mut self,
        changed_text: &Rope,
        range: &Range<usize>,
        new_text: &Rope,
        wraps: &Vec<Vec<Range<usize>>>,
    )
        requires
            old(self).wf(),
            range.start <= range.end,
            range.start + byte_len(rope_text(*new_text)) <= usize::MAX,
            soft_count(
                old(self).updated_lines(
                    rope_text(*changed_text),
                    range.start as int,
                    range.end as int,
                    byte_len(rope_text(*new_text)) as int,
                    wraps_view(wraps@),
                ),
            ) <= usize::MAX,
        ensures
            final(self).wf(),
            final(self).text_spec() == rope_text(*changed_text),
            final(self).lines_spec() == old(self).updated_lines(
                rope_text(*changed_text),
                range.start as int,
                range.end as int,
                byte_len(rope_text(*new_text)) as int,
                wraps_view(wraps@),
            ),
            final(self).longest_spec() == old(self).updated_longest(
                rope_text(*changed_text),
                range.start as int,
                range.end as int,
                byte_len(rope_text(*new_text)) as int,
            ),
            final(self).wrapping_spec() == old(self).wrapping_spec(),
            final(self).initialized_spec() == old(self).initialized_spec(),
            old(self).synced() && replaced(
                old(self).text_spec(),
                range.start as int,
                range.end as int,
                rope_text(*new_text),
                rope_text(*changed_text),
            ) ==> final(self).synced(),
            old(self).rows_tile() && !old(self).wrapping_spec() ==> final(self).rows_tile(),
    {
        let ghost t = rope_text(self.text);
        let ghost c = rope_text(*changed_text);
        let ghost old_lines = self.lines_spec();
        let ghost wv = wraps_view(wraps@);
        let start = range.start;
        let end = range.end;
        let (start_row, end_row) = edit_rows(&self.text, self.lines.len(), start, end);
        let mut longest_row: usize = self.longest_row.row;
        let mut longest_len: usize = self.longest_row.len;
        if start_row <= longest_row && longest_row <= end_row {
            longest_row = 0;
            longest_len = 0;
        }
        let new_len = rope_len_bytes(new_text);
        let _changed_len = rope_len_bytes(changed_text);
        let (all, ns, ne) = changed_rows(changed_text, start, new_len);
        proof {
            assert(all@.map_values(|v: Vec<char>| v@) =~= split_lines(c));
        }
        let (new_lines, row, len) = build_items(
            &all,
            ns,
            ne,
            self.wrapping,
            wraps,
            longest_row,
            longest_len,
        );
        let ghost items = new_lines@.map_values(|l: LineItem| l@);
        proof {
            lemma_new_items_rows(split_lines(c).subrange(ns as int, ne + 1int), self.wrapping, wv);
        }
        let mut old_vec: Vec<LineItem> = Vec::new();
        std::mem::swap(&mut old_vec, &mut self.lines);
        proof {
            assert(old_vec@.map_values(|l: LineItem| l@) == old_lines);
            lemma_spliced_rows(old_lines, start_row as int, end_row as int, items);
        }
        let result = splice_lines(old_vec, start_row, end_row, new_lines);
        let (starts, total) = row_starts(&result);
        self.lines = result;
        self.display_row_starts = starts;
        self.soft_lines = total;
        self.text = rope_clone(changed_text);
        self.longest_row = LongestRow { row, len };
        proof {
            assert forall|k: int| 0 <= k < self.lines@.len() implies #[trigger] self.lines@[k]@.1.len()
                >= 1 by {
                assert(self.lines_spec()[k] == self.lines@[k]@);
            }
            if old(self).rows_tile() && !self.wrapping {
                let mid = split_lines(c).subrange(ns as int, ne + 1int);
                assert forall|k: int| 0 <= k < mid.len() implies #[trigger] byte_len(mid[k])
                    <= usize::MAX by {
                    lemma_line_bytes_bound(c, ns + k);
                }
                lemma_spliced_tiles(old_lines, start_row as int, end_row as int, mid, wv);
            }
            if old(self).synced() && replaced(t, start as int, end as int, rope_text(*new_text), c) {
                lemma_char_floor(t, end as int);
                lemma_offset_mono(t, char_floor(t, end as int) as int, t.len() as int);
                lemma_offset_end(t);
                lemma_splice_sync(
                    t,
                    c,
                    start as int,
                    end as int,
                    rope_text(*new_text),
                    old_lines,
                    self.wrapping,
                    wv,
                );
            }
        }
    }

    /// Lays out all the lines of `text` anew, each by the matching entry of
    /// `wraps` when soft wrap is on; the longest line is looked for among
    /// them alone.
    pub fn update_all(&mut self, text: &Rope, wraps: &Vec<Vec<Range<usize>>>)
        requires
            old(self).wf(),
            soft_count(new_items(split_lines(rope_text(*text)), old(self).wrapping_spec(), wraps_view(wraps@)))
                <= usize::MAX,
        ensures
            final(self).wf(),
            final(self).synced(),
            final(self).text_spec() == rope_text(*text),
            final(self).lines_spec() == new_items(
                split_lines(rope_text(*text)),
                old(self).wrapping_spec(),
                wraps_view(wraps@),
            ),
            final(self).longest_spec() == longest_after((0nat, 0nat), 0nat, split_lines(rope_text(*text))),
            final(self).wrapping_spec() == old(self).wrapping_spec(),
            final(self).initialized_spec() == old(self).initialized_spec(),
            !old(self).wrapping_spec() ==> final(self).rows_tile(),
    {
        let ghost c = rope_text(*text);
        let _len = rope_len_bytes(text);
        self.text = rope_new();
        self.lines = Vec::new();
        self.display_row_starts = Vec::new();
        self.soft_lines = 0;
        self.longest_row = LongestRow { row: 0, len: 0 };
        proof {
            assert(self.lines_spec() =~= Seq::<(Seq<char>, Seq<Range<usize>>)>::empty());
            assert(byte_len(Seq::<char>::empty()) == 0);
            // the whole text is the inserted part
            lemma_split_len(c);
            if c.len() > 0 {
                lemma_offset_mono(c, 0, 1);
                assert(c.take(0) =~= Seq::<char>::empty());
            }
            lemma_char_floor_unique(c, 0, 0);
            lemma_offset_end(c);
            lemma_offset_is_boundary(c, c.len() as int);
            assert(c.take(0) =~= Seq::<char>::empty());
            assert(c.take(c.len() as int) =~= c);
            assert(row_at(c, 0) == 0);
            assert(row_at(c, byte_len(c) as int) == newline_count(c));
            assert(split_lines(c).subrange(0, newline_count(c) + 1int) =~= split_lines(c));
            assert(self.rows_tile());
        }
        self.update(text, &(0..0), text, wraps);
        proof {
            assert(texts_of(self.lines_spec()) =~= split_lines(c));
        }
    }

    /// Whether the lines must be laid out anew: before the first layout,
    /// when the text differs from the one held, when soft wrap is switched,
    /// or when the font or wrap width changed (`layout_changed`).
    pub fn needs_layout(&self, text: &Rope, wrapping: bool, layout_changed: bool) -> (r: bool)
        ensures
            r == (!self.initialized_spec() || rope_text(*text) != self.text_spec() || wrapping
                != self.wrapping_spec() || layout_changed),
    {
        !self.initialized || !rope_eq(text, &self.text)
            || wrapping != self.wrapping || layout_changed
    }

    /// Lays the lines out anew when `needs_layout` says so, with soft wrap
    /// as given, and says whether it did.
    pub fn sync(
        &mut self,
        text: &Rope,
        wrapping: bool,
        layout_changed: bool,
        wraps: &Vec<Vec<Range<usize>>>,
    ) -> (r: bool)
        requires
            old(self).wf(),
            soft_count(new_items(split_lines(rope_text(*text)), wrapping, wraps_view(wraps@))) <= usize::MAX,
        ensures
            r == (!old(self).initialized_spec() || rope_text(*text) != old(self).text_spec() || wrapping
                != old(self).wrapping_spec() || layout_changed),
            final(self).wf(),
            r ==> final(self).synced() && final(self).text_spec() == rope_text(*text)
                && final(self).wrapping_spec() == wrapping && final(self).initialized_spec()
                && final(self).lines_spec() == new_items(
                split_lines(rope_text(*text)),
                wrapping,
                wraps_view(wraps@),
            ) && final(self).longest_spec() == longest_after(
                (0nat, 0nat),
                0nat,
                split_lines(rope_text(*text)),
            ),
            !r ==> *final(self) == *old(self),
    {
        if self.needs_layout(text, wrapping, layout_changed) {
            self.initialized = true;
            self.wrapping = wrapping;
            self.update_all(text, wraps);
            true
        } else {
            false
        }
    }

    /// Lays the lines out for the first time; does nothing once they were.
    pub fn prepare_if_need(&mut self, text: &Rope, wraps: &Vec<Vec<Range<usize>>>)
        requires
            old(self).wf(),
            soft_count(new_items(split_lines(rope_text(*text)), old(self).wrapping_spec(), wraps_view(wraps@)))
                <= usize::MAX,
        ensures
            final(self).wf(),
            final(self).initialized_spec(),
            old(self).initialized_spec() ==> *final(self) == *old(self),
            !old(self).initialized_spec() ==> final(self).synced() && final(self).text_spec()
                == rope_text(*text) && final(self).lines_spec() == new_items(
                split_lines(rope_text(*text)),
                old(self).wrapping_spec(),
                wraps_view(wraps@),
            ),
    {
        if self.initialized {
            return ;
        }
        self.initialized = true;
        self.update_all(text, wraps);
    }

    /// Row counts and the text's length fit in a `usize`.
    pub proof fn lemma_wf_bounds(&self)
        requires
            self.wf(),
        ensures
            soft_count(self.lines_spec()) <= usize::MAX,
            byte_len(self.text_spec()) <= usize::MAX,
    {
    }

    /// Every line's display rows cut it into consecutive pieces.
    pub open spec fn rows_tile(&self) -> bool {
        forall|k: int|
            0 <= k < self.lines_spec().len() ==> #[trigger] tiles(
                self.lines_spec()[k].1,
                byte_len(self.lines_spec()[k].0),
            )
    }

    /// The display point of byte `offset`: the row of its line and, within
    /// the line, the first display row that holds it and its column there;
    /// past the end of every display row, the end of the line's last one.
    pub open spec fn display_point_spec(&self, offset: int) -> DisplayPoint {
        let t = self.text_spec();
        let ls = self.lines_spec();
        let row = row_at(t, offset) as int;
        let local = offset - row_start(t, row);
        let rs = ls[row].1;
        let wrow = soft_count(ls.take(row)) as int;
        let ix = first_from(rs, local, 0);
        if ix < rs.len() {
            DisplayPoint {
                row: (wrow + ix) as usize,
                local_row: ix as usize,
                column: (local - rs[ix].start) as usize,
            }
        } else {
            DisplayPoint {
                row: (wrow + rs.len() - 1) as usize,
                local_row: (rs.len() - 1) as usize,
                column: range_len(rs[rs.len() - 1]) as usize,
            }
        }
    }

    /// The byte offset of display point `p`: the start of its line plus its
    /// column into its display row, kept within that row; the end of the
    /// line when the line has no such row.
    pub open spec fn point_offset_spec(&self, p: DisplayPoint) -> int {
        let t = self.text_spec();
        let ls = self.lines_spec();
        let (row, local_row) = display_row_lookup(ls, p.row as int);
        let start = row_start(t, row) as int;
        let rs = ls[row].1;
        if local_row < rs.len() {
            let rg = rs[local_row];
            let shifted = rg.start + p.column;
            start + if shifted < rg.end {
                shifted
            } else {
                rg.end as int
            }
        } else {
            start + byte_len(ls[row].0)
        }
    }

    /// Byte offset where row `row` starts.
    fn row_start_offset(&self, row: usize) -> (r: usize)
        requires
            self.synced(),
            row < self.lines_spec().len(),
        ensures
            r == row_start(self.text_spec(), row as int),
    {
        let ghost t = rope_text(self.text);
        let ghost ls = split_lines(t);
        let _tlen = rope_len_bytes(&self.text);
        let mut acc: usize = 0;
        let mut m: usize = 0;
        proof {
            assert(ls.take(0) =~= Seq::<Seq<char>>::empty());
        }
        while m < row
            invariant
                self.synced(),
                t == self.text_spec(),
                ls == split_lines(t),
                row < self.lines_spec().len(),
                byte_len(t) <= usize::MAX,
                m <= row,
                acc == row_start(t, m as int),
            decreases row - m,
        {
            proof {
                assert(texts_of(self.lines_spec())[m as int] == self.lines@[m as int]@.0);
                lemma_row_start_bound(t, m as int);
                lemma_row_start_bound(t, m + 1);
            }
            acc = acc + self.lines[m].len() + 1;
            m += 1;
        }
        acc
    }

    /// The line and the row within it of display row `display_row`, kept
    /// within the rows; `(0, 0)` when there are no lines.
    pub fn display_row_to_line_row(&self, display_row: usize) -> (r: Option<(usize, usize)>)
        requires
            self.wf(),
        ensures
            r == Some(
                (
                    display_row_lookup(self.lines_spec(), display_row as int).0 as usize,
                    display_row_lookup(self.lines_spec(), display_row as int).1 as usize,
                ),
            ),
            self.lines_spec().len() > 0 ==> 0 <= display_row_lookup(
                self.lines_spec(),
                display_row as int,
            ).0 < self.lines_spec().len(),
            self.lines_spec().len() > 0 ==> 0 <= display_row_lookup(
                self.lines_spec(),
                display_row as int,
            ).1 < self.lines_spec()[display_row_lookup(
                self.lines_spec(),
                display_row as int,
            ).0].1.len(),
    {
        let ghost ls = self.lines_spec();
        let n = self.lines.len();
        if n == 0 {
            return Some((0, 0));
        }
        proof {
            assert(ls.take(0) =~= Seq::<(Seq<char>, Seq<Range<usize>>)>::empty());
            assert(ls[0] == self.lines@[0]@);
            lemma_soft_take(ls, 0);
            lemma_soft_mono(ls, 1, ls.len() as int);
        }
        let last = self.soft_lines - 1;
        let d = if display_row < last {
            display_row
        } else {
            last
        };
        let mut lo: usize = 0;
        let mut hi: usize = n;
        while lo + 1 < hi
            invariant
                self.wf(),
                ls == self.lines_spec(),
                n == ls.len(),
                lo < hi <= n,
                self.display_row_starts@[lo as int] <= d,
                hi < n ==> d < self.display_row_starts@[hi as int],
            decreases hi - lo,
        {
            let mid = lo + (hi - lo) / 2;
            if self.display_row_starts[mid] <= d {
                lo = mid;
            } else {
                hi = mid;
            }
        }
        proof {
            lemma_soft_take(ls, lo as int);
            lemma_soft_mono(ls, lo + 1, ls.len() as int);
            assert(ls[lo as int] == self.lines@[lo as int]@);
            if lo + 1 < n {
                assert(self.display_row_starts@[lo + 1] == soft_count(ls.take(lo + 1)));
            }
            lemma_line_of_row(ls, d as int, 0, lo as int);
        }
        Some((lo, d - self.display_row_starts[lo]))
    }

    /// The display point of byte `offset` of the text.
    pub fn offset_to_display_point(&self, offset: usize) -> (r: DisplayPoint)
        requires
            self.wf(),
            self.synced(),
            offset <= byte_len(self.text_spec()),
        ensures
            r == self.display_point_spec(offset as int),
    {
        let ghost t = rope_text(self.text);
        let ghost ls = self.lines_spec();
        let _tlen = rope_len_bytes(&self.text);
        let k = floor_char(&self.text, offset);
        proof {
            lemma_char_floor(t, offset as int);
            lemma_local_offset(t, offset as int);
            lemma_split_len(t);
        }
        let row = count_newlines(&self.text, k);
        let start = self.row_start_offset(row);
        let line = &self.lines[row];
        let wrapped_row = self.display_row_starts[row];
        let local = offset - start;
        let nr = line.wrapped_lines.len();
        let ghost rs = ls[row as int].1;
        proof {
            assert(ls[row as int] == line@);
            lemma_soft_take(ls, row as int);
            lemma_soft_mono(ls, row + 1, ls.len() as int);
        }
        let mut ix: usize = 0;
        while ix < nr
            invariant
                t == self.text_spec(),
                ls == self.lines_spec(),
                row == row_at(t, offset as int),
                start == row_start(t, row as int),
                local == offset - start,
                wrapped_row == soft_count(ls.take(row as int)),
                row < ls.len(),
                rs == ls[row as int].1,
                rs == line.wrapped_lines@,
                nr == rs.len(),
                ix <= nr,
                first_from(rs, local as int, 0) == first_from(rs, local as int, ix as int),
                wrapped_row + nr <= usize::MAX,
            decreases nr - ix,
        {
            let rg = &line.wrapped_lines[ix];
            if rg.start <= local && local < rg.end {
                return DisplayPoint::new(wrapped_row + ix, ix, local - rg.start);
            }
            ix += 1;
        }
        let last = nr - 1;
        let lr = &line.wrapped_lines[last];
        let len = if lr.start <= lr.end {
            lr.end - lr.start
        } else {
            0
        };
        DisplayPoint::new(wrapped_row + last, last, len)
    }

    /// The byte offset of display point `point`.
    pub fn display_point_to_offset(&self, point: DisplayPoint) -> (r: usize)
        requires
            self.wf(),
            self.synced(),
            self.point_offset_spec(point) <= usize::MAX,
        ensures
            r == self.point_offset_spec(point),
    {
        let ghost t = rope_text(self.text);
        let ghost ls = self.lines_spec();
        proof {
            lemma_split_len(t);
            assert(texts_of(ls).len() == ls.len());
            assert(ls.len() >= 1);
        }
        let found = self.display_row_to_line_row(point.row);
        let ghost lk = display_row_lookup(ls, point.row as int);
        let nlines = self.lines.len();
        assert(ls.len() == nlines);
        assert(0 <= lk.0 < ls.len());
        assert(0 <= lk.1 <= soft_count(ls));
        let (row, local_row) = match found {
            Some(p) => p,
            None => (0, 0),
        };
        assert(row == lk.0);
        assert(local_row == lk.1);
        let line_start = self.row_start_offset(row);
        let line = &self.lines[row];
        proof {
            assert(ls[row as int] == line@);
            assert(texts_of(ls)[row as int] == line@.0);
            lemma_row_start_bound(t, row as int);
        }
        if local_row < line.wrapped_lines.len() {
            let s = line.wrapped_lines[local_row].start;
            let e = line.wrapped_lines[local_row].end;
            let inner = if s > e || point.column >= e - s {
                e
            } else {
                s + point.column
            };
            assert(inner == (if s + point.column < e {
                s + point.column
            } else {
                e as int
            }));
            line_start + inner
        } else {
            line_start + line.len()
        }
    }

    /// The texts of the lines an update will lay out: those of `changed_text`
    /// from the row of byte `start` to the row of byte `start + new_len`.
    pub fn lines_to_wrap(changed_text: &Rope, start: usize, new_len: usize) -> (r: Vec<String>)
        requires
            start + new_len <= usize::MAX,
        ensures
            r@.len() == split_lines(rope_text(*changed_text)).subrange(
                row_at(rope_text(*changed_text), start as int) as int,
                row_at(rope_text(*changed_text), start + new_len) + 1int,
            ).len(),
            forall|k: int|
                0 <= k < r@.len() ==> #[trigger] r@[k]@ == split_lines(rope_text(*changed_text)).subrange(
                    row_at(rope_text(*changed_text), start as int) as int,
                    row_at(rope_text(*changed_text), start + new_len) + 1int,
                )[k],
    {
        let ghost c = rope_text(*changed_text);
        let i2 = floor_char(changed_text, start);
        let k2 = floor_char(changed_text, start + new_len);
        proof {
            lemma_char_floor(c, start as int);
            lemma_char_floor(c, (start + new_len) as int);
            lemma_char_floor_mono(c, start as int, (start + new_len) as int);
            lemma_newline_prefix(c, i2 as int, k2 as int);
            lemma_split_len(c);
        }
        let ns = count_newlines(changed_text, i2);
        let ne = count_newlines(changed_text, k2);
        let all = split_chars(changed_text);
        let ghost mid = split_lines(c).subrange(ns as int, ne + 1int);
        let nall = all.len();
        let mut out: Vec<String> = Vec::new();
        let mut m = ns;
        while m <= ne
            invariant
                rope_text(*changed_text) == c,
                ns <= m <= ne + 1,
                ne < nall,
                nall == all@.len(),
                all@.len() == split_lines(c).len(),
                forall|k: int| 0 <= k < all@.len() ==> #[trigger] all@[k]@ == split_lines(c)[k],
                mid == split_lines(c).subrange(ns as int, ne + 1int),
                out@.len() == m - ns,
                forall|k: int| 0 <= k < out@.len() ==> #[trigger] out@[k]@ == mid[k],
            decreases ne + 1 - m,
        {
            let line = string_from_chars(all[m].as_slice());
            out.push(line);
            m += 1;
        }
        out
    }
}

/// Converting a byte offset of the text to its display point and back
/// gives the offset again, for every offset up to the end of the text,
/// when the wrapper holds the lines of its text and their display rows cut
/// each line into consecutive pieces.
pub proof fn law_display_point_round_trip(w: &TextWrapper, offset: int)
    requires
        w.wf(),
        w.synced(),
        w.rows_tile(),
        0 <= offset <= byte_len(w.text_spec()),
    ensures
        w.point_offset_spec(w.display_point_spec(offset)) == offset,
{
    let t = w.text_spec();
    let ls = w.lines_spec();
    w.lemma_wf_bounds();
    lemma_local_offset(t, offset);
    lemma_split_len(t);
    let row = row_at(t, offset) as int;
    let start = row_start(t, row) as int;
    let local = offset - start;
    assert(texts_of(ls).len() == ls.len());
    assert(texts_of(ls)[row] == ls[row].0);
    let len = byte_len(ls[row].0);
    lemma_row_start_bound(t, row);
    let rs = ls[row].1;
    assert(tiles(rs, len));
    lemma_tiles(rs, len, local);
    lemma_first_from(rs, local, 0);
    let wrow = soft_count(ls.take(row));
    lemma_soft_take(ls, row);
    lemma_soft_mono(ls, row + 1, ls.len() as int);
    let ix = first_from(rs, local, 0);
    let p = w.display_point_spec(offset);
    if ix < rs.len() {
        assert(p.row == wrow + ix);
        lemma_line_of_row(ls, wrow + ix, 0, row);
        assert(display_row_lookup(ls, p.row as int) == (row, ix));
    } else {
        let last = rs.len() - 1;
        assert(rs[last] == rs.last());
        assert(p.row == wrow + last);
        lemma_line_of_row(ls, wrow + last, 0, row);
        assert(display_row_lookup(ls, p.row as int) == (row, last));
    }
}

/// With soft wrap off, a line is one display row covering all of it.
pub proof fn lemma_unwrapped_tiles(len: nat, w: Seq<Range<usize>>)
    requires
        len <= usize::MAX,
    ensures
        wrap_ranges(len, false, w) == seq![Range { start: 0usize, end: len as usize }],
        tiles(wrap_ranges(len, false, w), len),
{
    assert(wrap_ranges(len, false, w) =~= seq![Range { start: 0usize, end: len as usize }]);
}

/// Lines laid out without soft wrap, spliced between lines whose rows tile
/// them, give lines whose rows tile them.
pub proof fn lemma_spliced_tiles(
    old: Seq<(Seq<char>, Seq<Range<usize>>)>,
    lo: int,
    hi: int,
    ls: Seq<Seq<char>>,
    wraps: Seq<Seq<Range<usize>>>,
)
    requires
        0 <= lo <= hi,
        old.len() > 0 ==> hi < old.len(),
        forall|k: int| 0 <= k < old.len() ==> #[trigger] tiles(old[k].1, byte_len(old[k].0)),
        forall|k: int| 0 <= k < ls.len() ==> #[trigger] byte_len(ls[k]) <= usize::MAX,
    ensures
        forall|k: int|
            0 <= k < spliced(old, lo, hi, new_items(ls, false, wraps)).len() ==> #[trigger] tiles(
                spliced(old, lo, hi, new_items(ls, false, wraps))[k].1,
                byte_len(spliced(old, lo, hi, new_items(ls, false, wraps))[k].0),
            ),
{
    let new = new_items(ls, false, wraps);
    let sp = spliced(old, lo, hi, new);
    assert forall|k: int| 0 <= k < sp.len() implies #[trigger] tiles(sp[k].1, byte_len(sp[k].0)) by {
        if old.len() == 0 || (lo <= k < lo + new.len()) {
            let q = if old.len() == 0 {
                k
            } else {
                k - lo
            };
            assert(sp[k] == new[q]);
            assert(byte_len(ls[q]) <= usize::MAX);
            lemma_unwrapped_tiles(
                byte_len(ls[q]),
                if q < wraps.len() {
                    wraps[q]
                } else {
                    Seq::<Range<usize>>::empty()
                },
            );
        } else if k < lo {
            assert(sp[k] == old[k]);
        } else {
            assert(sp[k] == old[k - lo - new.len() + hi + 1]);
        }
    }
}

/// The lines of a text fit in it.
pub proof fn lemma_line_bytes_bound(s: Seq<char>, k: int)
    requires
        0 <= k < split_lines(s).len(),
    ensures
        byte_len(split_lines(s)[k]) <= byte_len(s),
{
    lemma_row_start_bound(s, k);
}

/// Number of lines of `text`.
pub fn line_count_of(text: &Rope) -> (r: usize)
    ensures
        r == split_lines(rope_text(*text)).len(),
{
    let all = split_chars(text);
    all.len()
}

/// The byte range of line `row` of `text`, without its line break; none
/// past the last line.
pub fn row_bounds(text: &Rope, row: usize) -> (r: Option<Range<usize>>)
    ensures
        match r {
            Some(rg) => {
                &&& row < split_lines(rope_text(*text)).len()
                &&& rg.start == row_start(rope_text(*text), row as int)
                &&& rg.end == rg.start + byte_len(split_lines(rope_text(*text))[row as int])
            },
            None => row >= split_lines(rope_text(*text)).len(),
        },
{
    let ghost t = rope_text(*text);
    let _tlen = rope_len_bytes(text);
    let all = split_chars(text);
    if row >= all.len() {
        return None;
    }
    let mut acc: usize = 0;
    let mut m: usize = 0;
    proof {
        assert(split_lines(t).take(0) =~= Seq::<Seq<char>>::empty());
    }
    while m < row
        invariant
            rope_text(*text) == t,
            all@.len() == split_lines(t).len(),
            forall|q: int| 0 <= q < all@.len() ==> #[trigger] all@[q]@ == split_lines(t)[q],
            row < split_lines(t).len(),
            byte_len(t) <= usize::MAX,
            m <= row,
            acc == row_start(t, m as int),
        decreases row - m,
    {
        proof {
            lemma_row_start_bound(t, m as int);
            lemma_row_start_bound(t, m + 1);
        }
        let line = string_from_chars(all[m].as_slice());
        acc = acc + str_byte_len(line.as_str()) + 1;
        m += 1;
    }
    proof {
        lemma_row_start_bound(t, row as int);
    }
    let line = string_from_chars(all[row].as_slice());
    let end = acc + str_byte_len(line.as_str());
    Some(acc..end)
}


/// A text without line breaks is a single line.
pub proof fn lemma_split_no_newline(x: Seq<char>)
    requires
        forall|i: int| 0 <= i < x.len() ==> x[i] != '\n',
    ensures
        split_lines(x) == seq![x],
    decreases x.len(),
{
    if x.len() == 0 {
        assert(x =~= Seq::<char>::empty());
    } else {
        lemma_split_no_newline(x.drop_last());
        assert(x[x.len() - 1] != '\n');
        assert(x.drop_last().push(x.last()) =~= x);
        let p = split_lines(x.drop_last());
        assert(p[p.len() - 1].push(x.last()) =~= x);
        assert(split_lines(x) =~= seq![x]);
    }
}

/// The last line of `x` runs from just after its last line break.
pub proof fn lemma_split_tail(x: Seq<char>, p: int)
    requires
        0 <= p <= x.len(),
        forall|i: int| p <= i < x.len() ==> x[i] != '\n',
        p == 0 || x[p - 1] == '\n',
    ensures
        split_lines(x).last() == x.subrange(p, x.len() as int),
{
    let rest = x.subrange(p, x.len() as int);
    lemma_split_no_newline(rest);
    if p == 0 {
        assert(rest =~= x);
    } else {
        let a = x.take(p);
        assert(a + rest =~= x);
        lemma_split_concat(a, rest);
        lemma_split_len(a);
        assert(a.last() == '\n');
        assert(split_lines(a).last() == Seq::<char>::empty());
        assert(Seq::<char>::empty() + rest =~= rest);
    }
}

/// The first line of `y` runs up to its first line break.
pub proof fn lemma_split_head(y: Seq<char>, q: int)
    requires
        0 <= q <= y.len(),
        forall|i: int| 0 <= i < q ==> y[i] != '\n',
        q == y.len() || y[q] == '\n',
    ensures
        split_lines(y)[0] == y.take(q),
{
    let h = y.take(q);
    let z = y.skip(q);
    assert(h + z =~= y);
    lemma_split_no_newline(h);
    lemma_split_concat(h, z);
    lemma_split_len(z);
    if q == y.len() {
        assert(z =~= Seq::<char>::empty());
        assert(h + Seq::<char>::empty() =~= h);
    } else {
        let nl = seq!['\n'];
        let zr = z.skip(1);
        assert(nl + zr =~= z);
        lemma_split_concat(nl, zr);
        lemma_split_len(zr);
        assert(nl.drop_last() =~= Seq::<char>::empty());
        assert(split_lines(nl.drop_last()) == seq![Seq::<char>::empty()]);
        assert(split_lines(nl) == seq![Seq::<char>::empty(), Seq::<char>::empty()]);
        assert(split_lines(z)[0] == Seq::<char>::empty());
        assert(h + Seq::<char>::empty() =~= h);
    }
}

} // verus!
