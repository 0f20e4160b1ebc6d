//! Initials and accent hue of an avatar, derived from a display name.
use vstd::prelude::*;

use crate::text_offsets::{chars_of, string_from_chars, to_uppercase, uppercase_of};
use vstd::string::StringSliceAdditionalSpecFns;

verus! {

/// First characters of the space-separated words of `s`, in order.
pub open spec fn word_initials(s: Seq<char>) -> Seq<char>
    decreases s.len(),
{
    if s.len() == 0 {
        Seq::empty()
    } else {
        let rest = word_initials(s.drop_last());
        if s.last() != ' ' && (s.len() == 1 || s[s.len() - 2] == ' ') {
            rest.push(s.last())
        } else {
            rest
        }
    }
}

/// At most the first two elements of `s`.
pub open spec fn first_two(s: Seq<char>) -> Seq<char> {
    if s.len() <= 2 {
        s
    } else {
        s.take(2)
    }
}

/// The initials before upper-casing: the first letters of the first two
/// words, or the first two characters of the name when it has one word.
pub open spec fn raw_initials(name: Seq<char>) -> Seq<char> {
    if first_two(word_initials(name)).len() == 1 {
        first_two(name)
    } else {
        first_two(word_initials(name))
    }
}

/// Up to two upper-cased leading characters of a display name: the first
/// letters of the first two words ("Jason Lee" gives "JL"), or the first
/// two letters of a single-word name ("huacnlee" gives "HU"). An
/// upper-casing that grows (as "ß" does into "SS") is cut back to two
/// characters.
pub fn extract_initials(name: &str) -> (r: String)
    ensures
        r@ == first_two(uppercase_of(raw_initials(name@))),
        r@.len() <= 2,
{
    let cs = chars_of(name);
    let mut initials: Vec<char> = Vec::new();
    let mut i: usize = 0;
    while i < cs.len()
        invariant
            cs@ == name@,
            i <= cs@.len(),
            initials@ == word_initials(cs@.take(i as int)),
        decreases cs@.len() - i,
    {
        let ghost t = cs@.take(i + 1);
        assert(t.drop_last() =~= cs@.take(i as int));
        if cs[i] != ' ' && (i == 0 || cs[i - 1] == ' ') {
            initials.push(cs[i]);
        }
        i += 1;
    }
    assert(cs@.take(cs@.len() as int) =~= cs@);
    let mut picked: Vec<char> = Vec::new();
    let mut j: usize = 0;
    while j < initials.len() && j < 2
        invariant
            j <= initials@.len(),
            j <= 2,
            picked@ == initials@.take(j as int),
        decreases initials@.len() - j,
    {
        picked.push(initials[j]);
        assert(initials@.take(j + 1) =~= initials@.take(j as int).push(initials@[j as int]));
        j += 1;
    }
    assert(picked@ =~= first_two(initials@));
    if picked.len() == 1 {
        picked = Vec::new();
        let mut k: usize = 0;
        while k < cs.len() && k < 2
            invariant
                k <= cs@.len(),
                k <= 2,
                picked@ == cs@.take(k as int),
            decreases cs@.len() - k,
        {
            picked.push(cs[k]);
            assert(cs@.take(k + 1) =~= cs@.take(k as int).push(cs@[k as int]));
            k += 1;
        }
        assert(picked@ =~= first_two(cs@));
    }
    let raw = string_from_chars(picked.as_slice());
    let upper = to_uppercase(raw.as_str());
    let up = chars_of(upper.as_str());
    let mut kept: Vec<char> = Vec::new();
    let mut k: usize = 0;
    while k < up.len() && k < 2
        invariant
            k <= up@.len(),
            k <= 2,
            kept@ == up@.take(k as int),
        decreases up@.len() - k,
    {
        kept.push(up[k]);
        assert(up@.take(k + 1) =~= up@.take(k as int).push(up@[k as int]));
        k += 1;
    }
    assert(kept@ =~= first_two(up@));
    string_from_chars(kept.as_slice())
}

/// FNV-1a offset basis and prime (64-bit).
pub const FNV_OFFSET: u64 = 0xCBF2_9CE4_8422_2325;

pub const FNV_PRIME: u64 = 0x0000_0100_0000_01B3;

/// 64-bit FNV-1a hash of `bytes`.
pub open spec fn fnv1a(bytes: Seq<u8>) -> u64
    decreases bytes.len(),
{
    if bytes.len() == 0 {
        FNV_OFFSET
    } else {
        let h = fnv1a(bytes.drop_last()) ^ (bytes.last() as u64);
        ((h as nat * FNV_PRIME as nat) % 0x1_0000_0000_0000_0000) as u64
    }
}

/// A stable accent hue, in whole degrees in `[0, 360)`, for a display
/// name: the FNV-1a hash of its UTF-8 bytes modulo 360, so the same name
/// keeps the same color across renders and builds.
pub fn hue_for_name(name: &str) -> (r: u32)
    ensures
        r == fnv1a(name.spec_bytes()) % 360,
        r < 360,
{
    let bytes = name.as_bytes();
    let mut hash: u64 = FNV_OFFSET;
    let mut i: usize = 0;
    while i < bytes.len()
        invariant
            bytes@ == name.spec_bytes(),
            i <= bytes@.len(),
            hash == fnv1a(bytes@.take(i as int)),
        decreases bytes@.len() - i,
    {
        assert(bytes@.take(i + 1).drop_last() =~= bytes@.take(i as int));
        hash = hash ^ (bytes[i] as u64);
        hash = hash.wrapping_mul(FNV_PRIME);
        i += 1;
    }
    assert(bytes@.take(bytes@.len() as int) =~= bytes@);
    (hash % 360) as u32
}


/// What an avatar shows inside its circle.
#[derive(Debug, Clone, Copy, PartialEq, Eq, Structural)]
pub enum AvatarContent {
    /// The image from its source.
    Image,
    /// The initials of its name.
    Initials,
    /// The placeholder icon.
    Placeholder,
}

/// What an avatar is built with: an image source and a display name, with
/// the initials taken from the name when it is set.
pub struct Avatar {
    src: Option<String>,
    name: Option<String>,
    initials: String,
}

impl Avatar {
    pub closed spec fn src_spec(&self) -> Option<Seq<char>> {
        match self.src {
            Some(s) => Some(s@),
            None => None,
        }
    }

    pub closed spec fn name_spec(&self) -> Option<Seq<char>> {
        match self.name {
            Some(n) => Some(n@),
            None => None,
        }
    }

    pub closed spec fn initials_spec(&self) -> Seq<char> {
        self.initials@
    }

    /// An empty avatar: no image, no name, and so the placeholder icon.
    pub fn new() -> (r: Self)
        ensures
            r.src_spec() is None,
            r.name_spec() is None,
            r.initials_spec() == Seq::<char>::empty(),
    {
        Avatar { src: None, name: None, initials: String::new() }
    }

    /// The image to show in place of initials or placeholder.
    pub fn src(self, src: String) -> (r: Self)
        ensures
            r.src_spec() == Some(src@),
            r.name_spec() == self.name_spec(),
            r.initials_spec() == self.initials_spec(),
    {
        Avatar { src: Some(src), ..self }
    }

    /// The display name, and the initials extracted from it.
    pub fn name(self, name: String) -> (r: Self)
        ensures
            r.name_spec() == Some(name@),
            r.initials_spec() == first_two(uppercase_of(raw_initials(name@))),
            r.src_spec() == self.src_spec(),
    {
        let initials = extract_initials(name.as_str());
        Avatar { src: self.src, name: Some(name), initials }
    }

    /// The initials shown when there is a name and no image.
    pub fn initials(&self) -> (r: &str)
        ensures
            r@ == self.initials_spec(),
    {
        self.initials.as_str()
    }

    /// What the circle shows: the image when a source is set, else the
    /// initials when a name is set, else the placeholder icon.
    pub fn content(&self) -> (r: AvatarContent)
        ensures
            r == (if self.src_spec() is Some {
                AvatarContent::Image
            } else if self.name_spec() is Some {
                AvatarContent::Initials
            } else {
                AvatarContent::Placeholder
            }),
    {
        if self.src.is_some() {
            AvatarContent::Image
        } else if self.name.is_some() {
            AvatarContent::Initials
        } else {
            AvatarContent::Placeholder
        }
    }

    /// The hue of the accent taken from the name, when there is one; with
    /// none the theme's primary color is used.
    pub fn name_hue(&self) -> (r: Option<u32>)
        ensures
            match self.name_spec() {
                Some(n) => r == Some((fnv1a(vstd::utf8::encode_utf8(n)) % 360) as u32),
                None => r is None,
            },
    {
        match &self.name {
            Some(n) => Some(hue_for_name(n.as_str())),
            None => None,
        }
    }
}

} // verus!
