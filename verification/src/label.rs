//! A label's text, its optional secondary text, and the ranges it
//! highlights for a case-insensitive search.
use std::ops::Range;
use vstd::prelude::*;

use crate::text_offsets::{
    byte_len, byte_offset, char_floor, chars_of, is_boundary, lemma_char_floor,
    lemma_offset_end, lemma_offset_is_boundary, lemma_offset_mono, str_byte_len,
    string_from_chars, TextIndex,
};

verus! {

/// What `str::to_lowercase` returns for a text: its Unicode lower-casing.
pub uninterp spec fn lowercase_of(s: Seq<char>) -> Seq<char>;

/// `str::to_lowercase`: the text lower-cased; the result is named, not
/// spelled out (it follows the Unicode case tables).
#[verifier::external_body]
fn to_lowercase(s: &str) -> (r: String)
    ensures
        r@ == lowercase_of(s@),
{
    s.to_lowercase()
}

/// Text a label highlights: wherever it occurs, or only at the start.
pub enum HighlightsMatch {
    Prefix(String),
    Full(String),
}

/// The searched text of a match.
pub open spec fn match_text(m: HighlightsMatch) -> Seq<char> {
    match m {
        HighlightsMatch::Prefix(s) => s@,
        HighlightsMatch::Full(s) => s@,
    }
}

impl HighlightsMatch {
    /// The searched text.
    pub fn as_str(&self) -> (r: &str)
        ensures
            r@ == match_text(*self),
    {
        match self {
            HighlightsMatch::Prefix(s) => s.as_str(),
            HighlightsMatch::Full(s) => s.as_str(),
        }
    }

    /// Whether only a prefix match counts.
    pub fn is_prefix(&self) -> (r: bool)
        ensures
            r == (*self is Prefix),
    {
        match self {
            HighlightsMatch::Prefix(_) => true,
            HighlightsMatch::Full(_) => false,
        }
    }
}

/// Whether `needle` occurs in `hay` at character `k`.
pub open spec fn occurs_at(hay: Seq<char>, needle: Seq<char>, k: int) -> bool {
    0 <= k && k + needle.len() <= hay.len() && hay.subrange(k, k + needle.len()) == needle
}

/// The first character index at or after `k` where `needle` occurs.
pub open spec fn first_occurrence(hay: Seq<char>, needle: Seq<char>, k: int) -> Option<int>
    decreases hay.len() + 1 - k,
{
    if k < 0 || k > hay.len() {
        None
    } else if occurs_at(hay, needle, k) {
        Some(k)
    } else {
        first_occurrence(hay, needle, k + 1)
    }
}

/// The first byte at or after `b` that is a character boundary of `s`, or
/// the end of the text.
pub open spec fn boundary_from(s: Seq<char>, b: int) -> int
    decreases byte_len(s) - b,
{
    if b < byte_len(s) && !is_boundary(s, b) {
        boundary_from(s, b + 1)
    } else {
        b
    }
}

pub proof fn lemma_first_occurrence(hay: Seq<char>, needle: Seq<char>, k: int)
    ensures
        first_occurrence(hay, needle, k) matches Some(i) ==> k <= i <= hay.len() && occurs_at(
            hay,
            needle,
            i,
        ),
    decreases hay.len() + 1 - k,
{
    if 0 <= k <= hay.len() && !occurs_at(hay, needle, k) {
        lemma_first_occurrence(hay, needle, k + 1);
    }
}

pub proof fn lemma_boundary_from(s: Seq<char>, b: int)
    ensures
        boundary_from(s, b) >= b,
    decreases byte_len(s) - b,
{
    if b < byte_len(s) && !is_boundary(s, b) {
        lemma_boundary_from(s, b + 1);
    }
}

/// The ranges of the matches of `search` in `lower` (the lower-cased
/// `full`) from byte `start` on: each starts where `search` occurs and is
/// `mlen` bytes long, kept when it ends within `full`; the next search
/// starts at the first boundary of `full` after the match start. `None`
/// where a search would start off a character boundary of `lower`.
pub open spec fn scan_matches(
    full: Seq<char>,
    lower: Seq<char>,
    search: Seq<char>,
    mlen: int,
    start: int,
) -> Option<Seq<Range<usize>>>
    decreases byte_len(full) - start,
{
    if start < 0 || !is_boundary(lower, start) {
        None
    } else {
        match first_occurrence(lower, search, char_floor(lower, start) as int) {
            None => Some(Seq::empty()),
            Some(k) => {
                let ms = byte_offset(lower, k) as int;
                let me = ms + mlen;
                let head = if me <= byte_len(full) {
                    seq![Range { start: ms as usize, end: me as usize }]
                } else {
                    Seq::empty()
                };
                let next = boundary_from(full, ms + 1);
                if next >= byte_len(full) {
                    Some(head)
                } else {
                    proof {
                        lemma_char_floor(lower, start);
                        lemma_first_occurrence(lower, search, char_floor(lower, start) as int);
                        lemma_offset_mono(lower, char_floor(lower, start) as int, k);
                        lemma_boundary_from(full, ms + 1);
                    }
                    match scan_matches(full, lower, search, mlen, next) {
                        Some(rest) => Some(head + rest),
                        None => None,
                    }
                }
            },
        }
    }
}

/// Whether `s` starts with `prefix`.
pub open spec fn starts_with(s: Seq<char>, prefix: Seq<char>) -> bool {
    prefix.len() <= s.len() && s.take(prefix.len() as int) == prefix
}

/// The ranges a label highlights: with a secondary text, the primary and
/// the secondary part first; then, for a non-empty search, the prefix when
/// the lower-cased text starts with the lower-cased search, or every
/// match of it. `None` where the search would slice the lower-cased text
/// off a character boundary.
pub open spec fn highlight_ranges_spec(
    label: Seq<char>,
    has_secondary: bool,
    full: Seq<char>,
    prefix_only: bool,
    matched: Option<Seq<char>>,
) -> Option<Seq<Range<usize>>> {
    let base = if has_secondary {
        seq![
            Range { start: 0usize, end: byte_len(label) as usize },
            Range { start: byte_len(label) as usize, end: byte_len(full) as usize },
        ]
    } else {
        Seq::empty()
    };
    match matched {
        None => Some(base),
        Some(m) => if m.len() == 0 {
            Some(base)
        } else if prefix_only {
            if starts_with(lowercase_of(full), lowercase_of(m)) {
                Some(base.push(Range { start: 0usize, end: byte_len(m) as usize }))
            } else {
                Some(base)
            }
        } else {
            match scan_matches(full, lowercase_of(full), lowercase_of(m), byte_len(m) as int, 0) {
                Some(found) => Some(base + found),
                None => None,
            }
        },
    }
}

/// Whether `needle` occurs in the indexed text at character `k`.
fn occurs_at_exec(hay: &Vec<char>, needle: &Vec<char>, k: usize) -> (r: bool)
    ensures
        r == occurs_at(hay@, needle@, k as int),
{
    let hay_len = hay.len();
    if k > hay_len || needle.len() > hay_len - k {
        return false;
    }
    let mut i: usize = 0;
    while i < needle.len()
        invariant
            hay_len == hay@.len(),
            k + needle@.len() <= hay@.len(),
            i <= needle@.len(),
            forall|j: int| 0 <= j < i ==> hay@[k + j] == needle@[j],
        decreases needle@.len() - i,
    {
        if hay[k + i] != needle[i] {
            assert(hay@.subrange(k as int, k + needle@.len())[i as int] != needle@[i as int]);
            return false;
        }
        i += 1;
    }
    assert(hay@.subrange(k as int, k + needle@.len()) =~= needle@);
    true
}

/// The matches of `search` in the indexed lower-cased text of the indexed
/// `full`, each `mlen` bytes long; see `scan_matches`.
fn scan(full: &TextIndex, lower: &TextIndex, search: &Vec<char>, mlen: usize) -> (r: Option<
    Vec<Range<usize>>,
>)
    requires
        full.indexes(full.chars@),
        lower.indexes(lower.chars@),
    ensures
        match r {
            Some(v) => scan_matches(full.chars@, lower.chars@, search@, mlen as int, 0) == Some(v@),
            None => scan_matches(full.chars@, lower.chars@, search@, mlen as int, 0) is None,
        },
{
    let ghost fs = full.chars@;
    let ghost ls = lower.chars@;
    let full_len = full.byte_length(Ghost(fs));
    let lower_len = lower.byte_length(Ghost(ls));
    let n_lower = lower.char_count();
    let starts_len = lower.byte_starts.len();
    assert(n_lower < usize::MAX);
    let mut out: Vec<Range<usize>> = Vec::new();
    let mut start: usize = 0;
    let ghost total = scan_matches(fs, ls, search@, mlen as int, 0);
    proof {
        lemma_offset_end(fs);
        lemma_offset_end(ls);
    }
    loop
        invariant
            fs == full.chars@,
            ls == lower.chars@,
            total == scan_matches(fs, ls, search@, mlen as int, 0),
            full.indexes(fs),
            lower.indexes(ls),
            full_len == byte_len(fs),
            lower_len == byte_len(ls),
            n_lower == ls.len(),
            n_lower < usize::MAX,
            total == match scan_matches(fs, ls, search@, mlen as int, start as int) {
                Some(rest) => Some(out@ + rest),
                None => None::<Seq<Range<usize>>>,
            },
        decreases full_len - start,
    {
        // The search starts at `start`, which must be a boundary of the
        // lower-cased text.
        if start > lower_len {
            proof {
                lemma_char_floor(ls, start as int);
                lemma_offset_end(ls);
                lemma_offset_mono(ls, char_floor(ls, start as int) as int, ls.len() as int);
                assert(!is_boundary(ls, start as int));
                assert(scan_matches(fs, ls, search@, mlen as int, start as int) is None);
            }
            return None;
        }
        let k = lower.floor_char(Ghost(ls), start);
        proof {
            lemma_char_floor(ls, start as int);
        }
        if lower.byte_starts[k] != start {
            proof {
                assert(!is_boundary(ls, start as int));
                assert(scan_matches(fs, ls, search@, mlen as int, start as int) is None);
            }
            return None;
        }
        proof {
            lemma_offset_is_boundary(ls, k as int);
        }
        let mut j: usize = k;
        while j <= n_lower && !occurs_at_exec(&lower.chars, search, j)
            invariant
                k <= j <= n_lower + 1,
                n_lower == ls.len(),
                n_lower < usize::MAX,
                lower.indexes(ls),
                first_occurrence(ls, search@, k as int) == first_occurrence(ls, search@, j as int),
            decreases n_lower + 1 - j,
        {
            j += 1;
        }
        if j > n_lower {
            assert(first_occurrence(ls, search@, j as int) is None);
            assert(out@ + Seq::<Range<usize>>::empty() =~= out@);
            return Some(out);
        }
        let ms = lower.byte_starts[j];
        let ghost head_before = out@;
        if mlen <= full_len && ms <= full_len - mlen {
            out.push(ms..ms + mlen);
        }
        if ms >= full_len || ms + 1 >= full_len {
            proof {
                lemma_boundary_from(fs, ms + 1);
            }
            return Some(out);
        }
        let mut next: usize = ms + 1;
        while next < full_len && !index_is_boundary(full, Ghost(fs), next)
            invariant
                full.indexes(fs),
                full_len == byte_len(fs),
                ms + 1 <= next <= full_len,
                boundary_from(fs, ms + 1) == boundary_from(fs, next as int),
            decreases full_len - next,
        {
            next += 1;
        }
        if next >= full_len {
            return Some(out);
        }
        proof {
            lemma_offset_mono(ls, k as int, j as int);
        }
        start = next;
    }
}

/// Whether byte `b` is a character boundary of the indexed text.
fn index_is_boundary(idx: &TextIndex, Ghost(s): Ghost<Seq<char>>, b: usize) -> (r: bool)
    requires
        idx.indexes(s),
    ensures
        r == is_boundary(s, b as int),
{
    let k = idx.floor_char(Ghost(s), b);
    proof {
        lemma_char_floor(s, b as int);
    }
    idx.byte_starts[k] == b
}

/// A label: its text, an optional secondary text shown after it, whether
/// it is masked, and what it highlights.
pub struct Label {
    label: String,
    secondary: Option<String>,
    masked: bool,
    highlights_text: Option<HighlightsMatch>,
    full_text: String,
}

impl Label {
    pub closed spec fn label_spec(&self) -> Seq<char> {
        self.label@
    }

    pub closed spec fn secondary_spec(&self) -> Option<Seq<char>> {
        match self.secondary {
            Some(s) => Some(s@),
            None => None,
        }
    }

    pub closed spec fn full_spec(&self) -> Seq<char> {
        self.full_text@
    }

    pub closed spec fn masked_spec(&self) -> bool {
        self.masked
    }

    pub closed spec fn prefix_only(&self) -> bool {
        self.highlights_text matches Some(HighlightsMatch::Prefix(_))
    }

    pub closed spec fn matched_spec(&self) -> Option<Seq<char>> {
        match self.highlights_text {
            Some(m) => Some(match_text(m)),
            None => None,
        }
    }

    /// The highlight ranges are defined: no search slices the lower-cased
    /// text off a character boundary.
    pub open spec fn highlights_defined(&self) -> bool {
        highlight_ranges_spec(
            self.label_spec(),
            self.secondary_spec() is Some,
            self.full_spec(),
            self.prefix_only(),
            self.matched_spec(),
        ) is Some
    }

    /// A label showing `label`.
    pub fn new(label: String) -> (r: Self)
        ensures
            r.label_spec() == label@,
            r.full_spec() == label@,
            r.secondary_spec() is None,
            !r.masked_spec(),
            r.matched_spec() is None,
    {
        let full_text = label.clone();
        Label { label, secondary: None, masked: false, highlights_text: None, full_text }
    }

    /// Shows `secondary` after the label, separated by a space.
    pub fn secondary(self, secondary: String) -> (r: Self)
        ensures
            r.label_spec() == self.label_spec(),
            r.secondary_spec() == Some(secondary@),
            r.full_spec() == self.label_spec() + seq![' '] + secondary@,
            r.masked_spec() == self.masked_spec(),
            r.matched_spec() == self.matched_spec(),
            r.prefix_only() == self.prefix_only(),
    {
        let mut cs = chars_of(self.label.as_str());
        cs.push(' ');
        let rest = chars_of(secondary.as_str());
        let mut i: usize = 0;
        let ghost start = cs@;
        while i < rest.len()
            invariant
                i <= rest@.len(),
                cs@ == start + rest@.take(i as int),
            decreases rest@.len() - i,
        {
            cs.push(rest[i]);
            assert(rest@.take(i + 1) =~= rest@.take(i as int).push(rest@[i as int]));
            i += 1;
        }
        assert(rest@.take(rest@.len() as int) =~= rest@);
        let full_text = string_from_chars(cs.as_slice());
        Label { full_text, secondary: Some(secondary), ..self }
    }

    /// Shows the text as bullets.
    pub fn masked(self, masked: bool) -> (r: Self)
        ensures
            r.masked_spec() == masked,
            r.label_spec() == self.label_spec(),
            r.full_spec() == self.full_spec(),
            r.secondary_spec() == self.secondary_spec(),
            r.matched_spec() == self.matched_spec(),
            r.prefix_only() == self.prefix_only(),
    {
        Label { masked, ..self }
    }

    /// Highlights `text`.
    pub fn highlights(self, text: HighlightsMatch) -> (r: Self)
        ensures
            r.matched_spec() == Some(match_text(text)),
            r.prefix_only() == (text is Prefix),
            r.masked_spec() == self.masked_spec(),
            r.label_spec() == self.label_spec(),
            r.full_spec() == self.full_spec(),
            r.secondary_spec() == self.secondary_spec(),
    {
        Label { highlights_text: Some(text), ..self }
    }

    /// The label and secondary text as shown.
    pub fn full_text(&self) -> (r: &str)
        ensures
            r@ == self.full_spec(),
    {
        self.full_text.as_str()
    }

    /// The ranges highlighted; see `highlight_ranges_spec`.
    pub fn highlight_ranges(&self) -> (r: Vec<Range<usize>>)
        requires
            self.highlights_defined(),
        ensures
            Some(r@) == highlight_ranges_spec(
                self.label_spec(),
                self.secondary_spec() is Some,
                self.full_spec(),
                self.prefix_only(),
                self.matched_spec(),
            ),
    {
        match self.compute_highlights() {
            Some(v) => v,
            None => Vec::new(),
        }
    }

    /// The ranges highlighted, or `None` where the search would slice the
    /// lower-cased text off a character boundary.
    pub fn try_highlight_ranges(&self) -> (r: Option<Vec<Range<usize>>>)
        ensures
            match r {
                Some(v) => Some(v@) == highlight_ranges_spec(
                    self.label_spec(),
                    self.secondary_spec() is Some,
                    self.full_spec(),
                    self.prefix_only(),
                    self.matched_spec(),
                ),
                None => !self.highlights_defined(),
            },
    {
        match self.compute_highlights() {
            Some(_) => Some(self.highlight_ranges()),
            None => None,
        }
    }

    fn compute_highlights(&self) -> (r: Option<Vec<Range<usize>>>)
        ensures
            match r {
                Some(v) => Some(v@) == highlight_ranges_spec(
                    self.label_spec(),
                    self.secondary_spec() is Some,
                    self.full_spec(),
                    self.prefix_only(),
                    self.matched_spec(),
                ),
                None => !self.highlights_defined(),
            },
    {
        let full = self.full_text.as_str();
        let full_len = str_byte_len(full);
        let label_len = str_byte_len(self.label.as_str());
        let mut ranges: Vec<Range<usize>> = Vec::new();
        if self.secondary.is_some() {
            ranges.push(0..label_len);
            ranges.push(label_len..full_len);
        }
        let ghost base = ranges@;
        let matched = match &self.highlights_text {
            Some(m) => m,
            None => {
                return Some(ranges);
            },
        };
        let matched_str = matched.as_str();
        let mlen = str_byte_len(matched_str);
        if matched_str.is_empty() {
            return Some(ranges);
        }
        let lower = to_lowercase(full);
        let search = to_lowercase(matched_str);
        let lower_chars = chars_of(lower.as_str());
        let search_chars = chars_of(search.as_str());
        if matched.is_prefix() {
            let n = lower_chars.len();
            let m = search_chars.len();
            let mut i: usize = 0;
            if m <= n {
                while i < m && lower_chars[i] == search_chars[i]
                    invariant
                        m <= n,
                        n == lower_chars@.len(),
                        m == search_chars@.len(),
                        i <= m,
                        forall|j: int| 0 <= j < i ==> lower_chars@[j] == search_chars@[j],
                    decreases m - i,
                {
                    i += 1;
                }
                proof {
                    if i == m {
                        assert(lower_chars@.take(m as int) =~= search_chars@);
                    } else {
                        assert(lower_chars@.take(m as int)[i as int] != search_chars@[i as int]);
                    }
                }
            }
            let ok = m <= n;
            if ok && i == m {
                ranges.push(0..mlen);
            }
            return Some(ranges);
        }
        let _ = str_byte_len(lower.as_str());
        let full_index = TextIndex::build(chars_of(full));
        let lower_index = TextIndex::build(lower_chars);
        match scan(&full_index, &lower_index, &search_chars, mlen) {
            Some(found) => {
                let mut all = ranges;
                let mut i: usize = 0;
                while i < found.len()
                    invariant
                        i <= found@.len(),
                        all@ == base + found@.take(i as int),
                    decreases found@.len() - i,
                {
                    let r = &found[i];
                    all.push(r.start..r.end);
                    assert(found@.take(i + 1) =~= found@.take(i as int).push(found@[i as int]));
                    i += 1;
                }
                assert(found@.take(found@.len() as int) =~= found@);
                Some(all)
            },
            None => None,
        }
    }

    /// The text as displayed: a bullet per character when masked.
    pub fn display_text(&self) -> (r: String)
        ensures
            r@ == if self.masked_spec() {
                Seq::new(self.full_spec().len(), |i: int| '•')
            } else {
                self.full_spec()
            },
    {
        let cs = chars_of(self.full_text.as_str());
        if !self.masked {
            return string_from_chars(cs.as_slice());
        }
        let mut out: Vec<char> = Vec::new();
        let mut i: usize = 0;
        while i < cs.len()
            invariant
                i <= cs@.len(),
                out@ == Seq::new(i as nat, |j: int| '•'),
            decreases cs@.len() - i,
        {
            out.push('•');
            assert(out@ =~= Seq::new((i + 1) as nat, |j: int| '•'));
            i += 1;
        }
        string_from_chars(out.as_slice())
    }
}

} // verus!
