//! What a badge shows: a count capped at a maximum, a dot, or an icon.
use vstd::prelude::*;

use crate::text_offsets::string_from_chars;

verus! {

/// What a badge displays.
#[derive(Debug, Clone, Copy, PartialEq, Eq, Structural)]
pub enum BadgeMode {
    /// A count, hidden at zero.
    Number,
    /// A small dot.
    Dot,
    /// An icon, which the caller keeps.
    Icon,
}

/// The decimal digit `d`.
pub open spec fn digit_char(d: nat) -> char {
    ((d % 10) + 48) as char
}

/// The decimal numeral of `n`.
pub open spec fn decimal(n: nat) -> Seq<char>
    decreases n,
{
    if n < 10 {
        seq![digit_char(n)]
    } else {
        decimal(n / 10).push(digit_char(n % 10))
    }
}

/// The character of the decimal digit `d`.
fn digit(d: u64) -> (r: char)
    requires
        d < 10,
    ensures
        r == digit_char(d as nat),
{
    ((d as u8) + 48) as char
}

/// The decimal numeral of `n`.
pub fn decimal_string(n: u64) -> (r: String)
    ensures
        r@ == decimal(n as nat),
{
    let mut digits: Vec<char> = Vec::new();
    let mut m = n;
    while m >= 10
        invariant
            decimal(n as nat) == decimal(m as nat) + digits@,
        decreases m,
    {
        let c = digit(m % 10);
        let ghost before = digits@;
        digits.insert(0, c);
        assert(decimal(m as nat) == decimal((m / 10) as nat).push(c));
        assert(decimal((m / 10) as nat).push(c) + before =~= decimal((m / 10) as nat) + digits@);
        m = m / 10;
    }
    let c = digit(m);
    let ghost before = digits@;
    digits.insert(0, c);
    assert(seq![c] + before =~= digits@);
    string_from_chars(digits.as_slice())
}

/// The text of a count badge: the count, or the maximum and "+" beyond it.
pub open spec fn count_label(count: usize, max: usize) -> Seq<char> {
    if count > max {
        decimal(max as nat).push('+')
    } else {
        decimal(count as nat)
    }
}

/// A badge's count, cap and mode.
pub struct Badge {
    count: usize,
    max: usize,
    mode: BadgeMode,
}

impl Badge {
    pub closed spec fn count_spec(&self) -> usize {
        self.count
    }

    pub closed spec fn max_spec(&self) -> usize {
        self.max
    }

    pub closed spec fn mode_spec(&self) -> BadgeMode {
        self.mode
    }

    /// A count badge at zero (so hidden), capped at 99.
    pub fn new() -> (r: Self)
        ensures
            r.count_spec() == 0,
            r.max_spec() == 99,
            r.mode_spec() == BadgeMode::Number,
    {
        Badge { count: 0, max: 99, mode: BadgeMode::Number }
    }

    /// Shows a dot.
    pub fn dot(self) -> (r: Self)
        ensures
            r.mode_spec() == BadgeMode::Dot,
            r.count_spec() == self.count_spec(),
            r.max_spec() == self.max_spec(),
    {
        Badge { mode: BadgeMode::Dot, ..self }
    }

    /// Shows an icon.
    pub fn icon(self) -> (r: Self)
        ensures
            r.mode_spec() == BadgeMode::Icon,
            r.count_spec() == self.count_spec(),
            r.max_spec() == self.max_spec(),
    {
        Badge { mode: BadgeMode::Icon, ..self }
    }

    /// Sets the count.
    pub fn count(self, count: usize) -> (r: Self)
        ensures
            r.count_spec() == count,
            r.mode_spec() == self.mode_spec(),
            r.max_spec() == self.max_spec(),
    {
        Badge { count, ..self }
    }

    /// Sets the cap beyond which the count shows as "max+".
    pub fn max(self, max: usize) -> (r: Self)
        ensures
            r.max_spec() == max,
            r.mode_spec() == self.mode_spec(),
            r.count_spec() == self.count_spec(),
    {
        Badge { max, ..self }
    }

    /// Whether the badge shows: a count badge only above zero.
    pub fn is_visible(&self) -> (r: bool)
        ensures
            r == (self.mode_spec() != BadgeMode::Number || self.count_spec() > 0),
    {
        match self.mode {
            BadgeMode::Number => self.count > 0,
            _ => true,
        }
    }

    /// Whether the badge hangs on the bottom-right corner (icons) rather
    /// than the top-right one.
    pub fn anchored_bottom_right(&self) -> (r: bool)
        ensures
            r == (self.mode_spec() == BadgeMode::Icon),
    {
        match self.mode {
            BadgeMode::Icon => true,
            _ => false,
        }
    }

    /// The text of a count badge; none for a dot or an icon.
    pub fn label(&self) -> (r: Option<String>)
        ensures
            self.mode_spec() == BadgeMode::Number ==> (r matches Some(s) && s@ == count_label(
                self.count_spec(),
                self.max_spec(),
            )),
            self.mode_spec() != BadgeMode::Number ==> r is None,
    {
        match self.mode {
            BadgeMode::Number => {
                if self.count > self.max {
                    let digits = decimal_string(self.max as u64);
                    let mut s = digits;
                    crate::text_offsets::string_push(&mut s, '+');
                    Some(s)
                } else {
                    Some(decimal_string(self.count as u64))
                }
            },
            _ => None,
        }
    }
}

} // verus!
