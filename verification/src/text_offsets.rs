//! Byte, character and UTF-16 positions in UTF-8 text.
//!
//! Text is modelled by its characters (`Seq<char>`). A byte offset is a
//! character boundary when it is the sum of the UTF-8 widths of a prefix of
//! the characters; UTF-16 offsets are prefix sums of UTF-16 widths.
use vstd::prelude::*;
use vstd::utf8::*;

verus! {

/// Number of bytes `c` takes in UTF-8.
pub open spec fn utf8_width(c: char) -> nat {
    let u = c as u32;
    if u <= 0x7F {
        1
    } else if u <= 0x7FF {
        2
    } else if u <= 0xFFFF {
        3
    } else {
        4
    }
}

/// Number of UTF-16 code units `c` takes.
pub open spec fn utf16_width(c: char) -> nat {
    if (c as u32) <= 0xFFFF {
        1
    } else {
        2
    }
}

/// Length in bytes of the UTF-8 encoding of `s`.
pub open spec fn byte_len(s: Seq<char>) -> nat
    decreases s.len(),
{
    if s.len() == 0 {
        0
    } else {
        byte_len(s.drop_last()) + utf8_width(s.last())
    }
}

/// Length in UTF-16 code units of `s`.
pub open spec fn utf16_len(s: Seq<char>) -> nat
    decreases s.len(),
{
    if s.len() == 0 {
        0
    } else {
        utf16_len(s.drop_last()) + utf16_width(s.last())
    }
}

/// Byte offset at which the character `k` of `s` starts (the byte length
/// of `s` for `k == s.len()`).
pub open spec fn byte_offset(s: Seq<char>, k: int) -> nat {
    byte_len(s.take(k))
}

/// UTF-16 offset at which the character `k` of `s` starts.
pub open spec fn utf16_offset(s: Seq<char>, k: int) -> nat {
    utf16_len(s.take(k))
}

/// Number of characters of `s` that end at or before byte `b`: the index of
/// the last character boundary not after `b`.
pub open spec fn char_floor(s: Seq<char>, b: int) -> nat
    decreases s.len(),
{
    if s.len() == 0 {
        0
    } else if byte_len(s) <= b {
        s.len()
    } else {
        char_floor(s.drop_last(), b)
    }
}

/// Number of characters of `s` that end at or before UTF-16 offset `u`.
pub open spec fn utf16_floor(s: Seq<char>, u: int) -> nat
    decreases s.len(),
{
    if s.len() == 0 {
        0
    } else if utf16_len(s) <= u {
        s.len()
    } else {
        utf16_floor(s.drop_last(), u)
    }
}

/// `b` is a character boundary of `s` (the end of the text included).
pub open spec fn is_boundary(s: Seq<char>, b: int) -> bool {
    0 <= b && byte_offset(s, char_floor(s, b) as int) == b
}

/// The last character boundary of `s` at or before `b` (clamped to the end).
pub open spec fn floor_boundary(s: Seq<char>, b: int) -> nat {
    byte_offset(s, char_floor(s, b) as int)
}

pub proof fn lemma_take_full<A>(s: Seq<A>)
    ensures
        s.take(s.len() as int) =~= s,
{
}

pub proof fn lemma_drop_last_take<A>(s: Seq<A>, k: int)
    requires
        0 <= k < s.len(),
    ensures
        s.drop_last().take(k) =~= s.take(k),
{
}

/// Adding one character to the prefix adds its widths.
pub proof fn lemma_offset_succ(s: Seq<char>, k: int)
    requires
        0 <= k < s.len(),
    ensures
        byte_offset(s, k + 1) == byte_offset(s, k) + utf8_width(s[k]),
        utf16_offset(s, k + 1) == utf16_offset(s, k) + utf16_width(s[k]),
{
    assert(s.take(k + 1).drop_last() =~= s.take(k));
    assert(s.take(k + 1).last() == s[k]);
}

pub proof fn lemma_width_pos(c: char)
    ensures
        1 <= utf8_width(c) <= 4,
        1 <= utf16_width(c) <= 2,
        utf16_width(c) <= utf8_width(c),
{
}

/// Offsets grow with the character index, strictly for bytes.
pub proof fn lemma_offset_mono(s: Seq<char>, i: int, j: int)
    requires
        0 <= i <= j <= s.len(),
    ensures
        byte_offset(s, i) <= byte_offset(s, j),
        utf16_offset(s, i) <= utf16_offset(s, j),
        i < j ==> byte_offset(s, i) < byte_offset(s, j),
        utf16_offset(s, j) - utf16_offset(s, i) <= byte_offset(s, j) - byte_offset(s, i),
    decreases j - i,
{
    if i < j {
        lemma_offset_mono(s, i, j - 1);
        lemma_offset_succ(s, j - 1);
        lemma_width_pos(s[j - 1]);
    }
}

/// The offset of the end of the text is its length.
pub proof fn lemma_offset_end(s: Seq<char>)
    ensures
        byte_offset(s, s.len() as int) == byte_len(s),
        utf16_offset(s, s.len() as int) == utf16_len(s),
{
    lemma_take_full(s);
}

/// Byte lengths add up over concatenation.
pub proof fn lemma_byte_len_concat(a: Seq<char>, b: Seq<char>)
    ensures
        byte_len(a + b) == byte_len(a) + byte_len(b),
        utf16_len(a + b) == utf16_len(a) + utf16_len(b),
    decreases b.len(),
{
    if b.len() == 0 {
        assert(a + b =~= a);
    } else {
        lemma_byte_len_concat(a, b.drop_last());
        assert((a + b).drop_last() =~= a + b.drop_last());
    }
}

/// Offsets of positions inside the first part of a concatenation.
pub proof fn lemma_offset_concat_left(a: Seq<char>, b: Seq<char>, k: int)
    requires
        0 <= k <= a.len(),
    ensures
        byte_offset(a + b, k) == byte_offset(a, k),
        utf16_offset(a + b, k) == utf16_offset(a, k),
{
    assert((a + b).take(k) =~= a.take(k));
}

/// Offsets of positions inside the second part of a concatenation.
pub proof fn lemma_offset_concat_right(a: Seq<char>, b: Seq<char>, k: int)
    requires
        0 <= k <= b.len(),
    ensures
        byte_offset(a + b, a.len() + k) == byte_len(a) + byte_offset(b, k),
        utf16_offset(a + b, a.len() + k) == utf16_len(a) + utf16_offset(b, k),
{
    assert((a + b).take(a.len() + k) =~= a + b.take(k));
    lemma_byte_len_concat(a, b.take(k));
}

/// Characteristic property of `char_floor`.
pub proof fn lemma_char_floor(s: Seq<char>, b: int)
    requires
        0 <= b,
    ensures
        char_floor(s, b) <= s.len(),
        byte_offset(s, char_floor(s, b) as int) <= b,
        char_floor(s, b) < s.len() ==> b < byte_offset(s, char_floor(s, b) as int + 1),
    decreases s.len(),
{
    lemma_offset_end(s);
    if s.len() == 0 {
    } else if byte_len(s) <= b {
    } else {
        let t = s.drop_last();
        lemma_char_floor(t, b);
        let k = char_floor(t, b);
        lemma_drop_last_take(s, k as int);
        if k < t.len() {
            lemma_drop_last_take(s, k as int + 1);
        } else {
            assert(s.take(s.len() as int) =~= s);
        }
    }
}

/// A character index is the floor of any byte between its start and the
/// start of the next character.
pub proof fn lemma_char_floor_unique(s: Seq<char>, b: int, k: int)
    requires
        0 <= k <= s.len(),
        byte_offset(s, k) <= b,
        k < s.len() ==> b < byte_offset(s, k + 1),
    ensures
        char_floor(s, b) == k,
{
    lemma_char_floor(s, b);
    let f = char_floor(s, b) as int;
    if f < k {
        lemma_offset_mono(s, f + 1, k);
    } else if k < f {
        lemma_offset_mono(s, k + 1, f);
    }
}

/// Characteristic property of `utf16_floor`.
pub proof fn lemma_utf16_floor(s: Seq<char>, u: int)
    requires
        0 <= u,
    ensures
        utf16_floor(s, u) <= s.len(),
        utf16_offset(s, utf16_floor(s, u) as int) <= u,
        utf16_floor(s, u) < s.len() ==> u < utf16_offset(s, utf16_floor(s, u) as int + 1),
    decreases s.len(),
{
    lemma_offset_end(s);
    if s.len() == 0 {
    } else if utf16_len(s) <= u {
    } else {
        let t = s.drop_last();
        lemma_utf16_floor(t, u);
        let k = utf16_floor(t, u);
        lemma_drop_last_take(s, k as int);
        if k < t.len() {
            lemma_drop_last_take(s, k as int + 1);
        }
    }
}

/// The start of every character is a boundary.
pub proof fn lemma_offset_is_boundary(s: Seq<char>, k: int)
    requires
        0 <= k <= s.len(),
    ensures
        is_boundary(s, byte_offset(s, k) as int),
        char_floor(s, byte_offset(s, k) as int) == k,
{
    if k < s.len() {
        lemma_offset_mono(s, k, k + 1);
    }
    lemma_char_floor_unique(s, byte_offset(s, k) as int, k);
}

/// Each UTF-16 offset of a character start maps back to that character.
pub proof fn lemma_utf16_floor_of_offset(s: Seq<char>, k: int)
    requires
        0 <= k <= s.len(),
    ensures
        utf16_floor(s, utf16_offset(s, k) as int) == k,
{
    let u = utf16_offset(s, k) as int;
    lemma_utf16_floor(s, u);
    let f = utf16_floor(s, u) as int;
    if f < k {
        lemma_utf16_offset_strict(s, f + 1, k);
    } else if k < f {
        lemma_utf16_offset_strict(s, k, f);
    }
}

/// UTF-16 offsets grow strictly with the character index.
pub proof fn lemma_utf16_offset_strict(s: Seq<char>, i: int, j: int)
    requires
        0 <= i <= j <= s.len(),
    ensures
        utf16_offset(s, i) <= utf16_offset(s, j),
        i < j ==> utf16_offset(s, i) < utf16_offset(s, j),
    decreases j - i,
{
    if i < j {
        lemma_utf16_offset_strict(s, i, j - 1);
        lemma_offset_succ(s, j - 1);
        lemma_width_pos(s[j - 1]);
    }
}

/// The UTF-8 encoding that `vstd` gives a string has `byte_len` bytes.
pub proof fn lemma_encode_len(s: Seq<char>)
    ensures
        encode_utf8(s).len() == byte_len(s),
    decreases s.len(),
{
    if s.len() > 0 {
        lemma_encode_len(s.drop_first());
        let c = s[0];
        char_is_scalar(c);
        assert(s =~= seq![c] + s.drop_first());
        lemma_byte_len_concat(seq![c], s.drop_first());
        assert(seq![c].drop_last() =~= Seq::<char>::empty());
        assert(byte_len(Seq::<char>::empty()) == 0);
        assert(byte_len(seq![c]) == utf8_width(c));
        assert(encode_scalar(c as u32).len() == utf8_width(c));
        assert(encode_utf8(s) == encode_scalar(s[0] as u32) + encode_utf8(s.drop_first()));
    }
}

/// Length in bytes of a string slice.
pub fn str_byte_len(s: &str) -> (r: usize)
    ensures
        r as int == byte_len(s@),
{
    proof {
        lemma_encode_len(s@);
    }
    let bytes = s.as_bytes();
    bytes.len()
}

/// UTF-8 width of a character.
pub fn char_utf8_width(c: char) -> (r: usize)
    ensures
        r == utf8_width(c),
{
    let u = c as u32;
    if u <= 0x7F {
        1
    } else if u <= 0x7FF {
        2
    } else if u <= 0xFFFF {
        3
    } else {
        4
    }
}

/// UTF-16 width of a character.
pub fn char_utf16_width(c: char) -> (r: usize)
    ensures
        r == utf16_width(c),
{
    if (c as u32) <= 0xFFFF {
        1
    } else {
        2
    }
}

/// The characters of a string.
pub fn chars_of(s: &str) -> (r: Vec<char>)
    ensures
        r@ == s@,
{
    let mut out: Vec<char> = Vec::new();
    for c in it: s.chars()
        invariant
            out@ == it.seq().take(it.index() as int),
            it.seq() == s@,
    {
        out.push(c);
    }
    out
}

/// Whether two strings hold the same characters.
pub fn str_equal(a: &str, b: &str) -> (r: bool)
    ensures
        r == (a@ == b@),
{
    let x = chars_of(a);
    let y = chars_of(b);
    if x.len() != y.len() {
        return false;
    }
    let mut i: usize = 0;
    while i < x.len()
        invariant
            x@ == a@,
            y@ == b@,
            x@.len() == y@.len(),
            i <= x@.len(),
            forall|j: int| 0 <= j < i ==> x@[j] == y@[j],
        decreases x@.len() - i,
    {
        if x[i] != y[i] {
            return false;
        }
        i += 1;
    }
    assert(x@ =~= y@);
    true
}

/// What `str::to_uppercase` returns for a text: its Unicode upper-casing.
pub uninterp spec fn uppercase_of(s: Seq<char>) -> Seq<char>;

/// `str::to_uppercase`: the text upper-cased; the result is named, not
/// spelled out (it follows the Unicode case tables).
#[verifier::external_body]
pub(crate) fn to_uppercase(s: &str) -> (r: String)
    ensures
        r@ == uppercase_of(s@),
{
    s.to_uppercase()
}

/// Appends one character to a string (`String::push`).
#[verifier::external_body]
pub(crate) fn string_push(s: &mut String, c: char)
    ensures
        final(s)@ == old(s)@.push(c),
{
    s.push(c);
}

/// A string made of the characters `cs`.
pub fn string_from_chars(cs: &[char]) -> (r: String)
    ensures
        r@ == cs@,
{
    let mut out = String::new();
    let mut i: usize = 0;
    while i < cs.len()
        invariant
            i <= cs@.len(),
            out@ == cs@.take(i as int),
        decreases cs@.len() - i,
    {
        string_push(&mut out, cs[i]);
        assert(cs@.take(i + 1) =~= cs@.take(i as int).push(cs@[i as int]));
        i += 1;
    }
    assert(cs@.take(cs@.len() as int) =~= cs@);
    out
}

/// Character starts of a text, in bytes and in UTF-16 units, with one
/// extra entry for the end of the text.
pub struct TextIndex {
    pub chars: Vec<char>,
    pub byte_starts: Vec<usize>,
    pub utf16_starts: Vec<usize>,
}

impl TextIndex {
    pub open spec fn indexes(&self, s: Seq<char>) -> bool {
        &&& self.chars@ == s
        &&& self.byte_starts@.len() == s.len() + 1
        &&& self.utf16_starts@.len() == s.len() + 1
        &&& forall|k: int|
            0 <= k <= s.len() ==> #[trigger] self.byte_starts@[k] == byte_offset(s, k)
        &&& forall|k: int|
            0 <= k <= s.len() ==> #[trigger] self.utf16_starts@[k] == utf16_offset(s, k)
    }

    /// Indexes the characters `cs`.
    pub fn build(cs: Vec<char>) -> (r: TextIndex)
        requires
            byte_len(cs@) <= usize::MAX,
        ensures
            r.indexes(cs@),
    {
        let ghost s = cs@;
        let mut bytes: Vec<usize> = Vec::new();
        let mut units: Vec<usize> = Vec::new();
        bytes.push(0);
        units.push(0);
        let mut b: usize = 0;
        let mut u: usize = 0;
        let mut i: usize = 0;
        proof {
            lemma_offset_end(s);
            assert(s.take(0) =~= Seq::<char>::empty());
        }
        while i < cs.len()
            invariant
                cs@ == s,
                byte_len(s) <= usize::MAX,
                i <= s.len(),
                bytes@.len() == i + 1,
                units@.len() == i + 1,
                b == byte_offset(s, i as int),
                u == utf16_offset(s, i as int),
                byte_len(s) == byte_offset(s, s.len() as int),
                forall|k: int| 0 <= k <= i ==> #[trigger] bytes@[k] == byte_offset(s, k),
                forall|k: int| 0 <= k <= i ==> #[trigger] units@[k] == utf16_offset(s, k),
            decreases s.len() - i,
        {
            proof {
                lemma_offset_succ(s, i as int);
                lemma_offset_mono(s, i + 1, s.len() as int);
                lemma_offset_mono(s, 0, i + 1);
            }
            b = b + char_utf8_width(cs[i]);
            u = u + char_utf16_width(cs[i]);
            bytes.push(b);
            units.push(u);
            i += 1;
        }
        TextIndex { chars: cs, byte_starts: bytes, utf16_starts: units }
    }

    /// Number of characters.
    pub fn char_count(&self) -> (r: usize)
        ensures
            r == self.chars@.len(),
    {
        self.chars.len()
    }

    /// Byte length of the text.
    pub fn byte_length(&self, Ghost(s): Ghost<Seq<char>>) -> (r: usize)
        requires
            self.indexes(s),
        ensures
            r == byte_len(s),
    {
        proof {
            lemma_offset_end(s);
        }
        self.byte_starts[self.chars.len()]
    }

    /// Number of characters that end at or before byte `b`.
    pub fn floor_char(&self, Ghost(s): Ghost<Seq<char>>, b: usize) -> (r: usize)
        requires
            self.indexes(s),
        ensures
            r == char_floor(s, b as int),
    {
        let n = self.chars.len();
        let mut k: usize = 0;
        while k < n && self.byte_starts[k + 1] <= b
            invariant
                self.indexes(s),
                n == s.len(),
                k <= n,
                byte_offset(s, k as int) <= b,
            decreases n - k,
        {
            k += 1;
        }
        proof {
            lemma_char_floor_unique(s, b as int, k as int);
        }
        k
    }

    /// Number of characters that end at or before UTF-16 offset `u`.
    pub fn floor_char_utf16(&self, Ghost(s): Ghost<Seq<char>>, u: usize) -> (r: usize)
        requires
            self.indexes(s),
        ensures
            r == utf16_floor(s, u as int),
    {
        let n = self.chars.len();
        let mut k: usize = 0;
        while k < n && self.utf16_starts[k + 1] <= u
            invariant
                self.indexes(s),
                n == s.len(),
                k <= n,
                utf16_offset(s, k as int) <= u,
            decreases n - k,
        {
            k += 1;
        }
        proof {
            lemma_utf16_floor(s, u as int);
            let f = utf16_floor(s, u as int) as int;
            if f < k {
                lemma_utf16_offset_strict(s, f + 1, k as int);
            } else if (k as int) < f {
                lemma_utf16_offset_strict(s, k + 1, f);
            }
        }
        k
    }
}

} // verus!
