//! The core `Ternary` enum, its arithmetic modulo 3 and its conversions.

use vstd::prelude::*;
use vstd::std_specs::convert::{FromSpecImpl, TryFromSpecImpl};

verus! {

/// The three possible states of a balanced ternary digit (trit).
///
/// `Negative` represents `-1`, `Neutral` represents `0`, and `Positive` represents `+1`.
#[derive(Debug, Clone, Copy, PartialEq, Eq, Structural, Ord, Hash)]
pub enum Ternary {
    /// Represents the value `-1`.
    Negative,
    /// Represents the value `0` (the neutral / zero state).
    Neutral,
    /// Represents the value `+1`.
    Positive,
}

impl Ternary {
    /// The integer that this trit stands for.
    pub open spec fn value(self) -> int {
        match self {
            Ternary::Negative => -1,
            Ternary::Neutral => 0,
            Ternary::Positive => 1,
        }
    }
}

/// The balanced residue of `v` modulo 3: the unique `r` in `{-1, 0, 1}` with `r ≡ v (mod 3)`.
pub open spec fn balanced(v: int) -> int {
    (v + 1) % 3 - 1
}

/// The trit whose value is the sign of `v` (so `trit_of(t.value()) == t`).
pub open spec fn trit_of(v: int) -> Ternary {
    if v < 0 {
        Ternary::Negative
    } else if v == 0 {
        Ternary::Neutral
    } else {
        Ternary::Positive
    }
}

/// Whether `v` is the value of some trit.
pub open spec fn is_trit_value(v: int) -> bool {
    -1 <= v <= 1
}

// ---------------------------------------------------------------------------
// Conversions from and to integers
// ---------------------------------------------------------------------------

/// What converting a wide integer gives: the trit when `v` is in `{-1, 0, 1}`;
/// `InvalidConversion` when `v` fits in an `i8` but is no trit value; and
/// `Overflow`, carrying `v`, when `v` lies outside the `i8` range.
pub open spec fn narrow_spec(v: int) -> Result<Ternary, TernaryError> {
    if is_trit_value(v) {
        Ok(trit_of(v))
    } else if i8::MIN <= v <= i8::MAX {
        Err(TernaryError::InvalidConversion(v as i8))
    } else {
        Err(TernaryError::Overflow(v as i64))
    }
}

impl TryFromSpecImpl<i8> for Ternary {
    open spec fn obeys_try_from_spec() -> bool {
        true
    }

    open spec fn try_from_spec(v: i8) -> Result<Ternary, TernaryError> {
        if is_trit_value(v as int) {
            Ok(trit_of(v as int))
        } else {
            Err(TernaryError::InvalidConversion(v))
        }
    }
}

impl TryFrom<i8> for Ternary {
    type Error = TernaryError;

    fn try_from(value: i8) -> (r: Result<Self, Self::Error>)
        ensures
            r == if is_trit_value(value as int) {
                Ok(trit_of(value as int))
            } else {
                Err(TernaryError::InvalidConversion(value))
            },
    {
        match value {
            -1 => Ok(Ternary::Negative),
            0 => Ok(Ternary::Neutral),
            1 => Ok(Ternary::Positive),
            _ => Err(TernaryError::InvalidConversion(value)),
        }
    }
}

impl TryFromSpecImpl<i16> for Ternary {
    open spec fn obeys_try_from_spec() -> bool {
        true
    }

    open spec fn try_from_spec(v: i16) -> Result<Ternary, TernaryError> {
        narrow_spec(v as int)
    }
}

impl TryFrom<i16> for Ternary {
    type Error = TernaryError;

    fn try_from(value: i16) -> (r: Result<Self, Self::Error>)
        ensures
            r == narrow_spec(value as int),
    {
        match value {
            -1 => Ok(Ternary::Negative),
            0 => Ok(Ternary::Neutral),
            1 => Ok(Ternary::Positive),
            n if -128 <= n && n <= 127 => Err(TernaryError::InvalidConversion(n as i8)),
            _ => Err(TernaryError::Overflow(value as i64)),
        }
    }
}

impl TryFromSpecImpl<i32> for Ternary {
    open spec fn obeys_try_from_spec() -> bool {
        true
    }

    open spec fn try_from_spec(v: i32) -> Result<Ternary, TernaryError> {
        narrow_spec(v as int)
    }
}

impl TryFrom<i32> for Ternary {
    type Error = TernaryError;

    fn try_from(value: i32) -> (r: Result<Self, Self::Error>)
        ensures
            r == narrow_spec(value as int),
    {
        match value {
            -1 => Ok(Ternary::Negative),
            0 => Ok(Ternary::Neutral),
            1 => Ok(Ternary::Positive),
            n if -128 <= n && n <= 127 => Err(TernaryError::InvalidConversion(n as i8)),
            _ => Err(TernaryError::Overflow(value as i64)),
        }
    }
}

impl TryFromSpecImpl<i64> for Ternary {
    open spec fn obeys_try_from_spec() -> bool {
        true
    }

    open spec fn try_from_spec(v: i64) -> Result<Ternary, TernaryError> {
        narrow_spec(v as int)
    }
}

impl TryFrom<i64> for Ternary {
    type Error = TernaryError;

    fn try_from(value: i64) -> (r: Result<Self, Self::Error>)
        ensures
            r == narrow_spec(value as int),
    {
        match value {
            -1 => Ok(Ternary::Negative),
            0 => Ok(Ternary::Neutral),
            1 => Ok(Ternary::Positive),
            n if -128 <= n && n <= 127 => Err(TernaryError::InvalidConversion(n as i8)),
            _ => Err(TernaryError::Overflow(value)),
        }
    }
}

impl TryFromSpecImpl<isize> for Ternary {
    open spec fn obeys_try_from_spec() -> bool {
        true
    }

    open spec fn try_from_spec(v: isize) -> Result<Ternary, TernaryError> {
        narrow_spec(v as int)
    }
}

impl TryFrom<isize> for Ternary {
    type Error = TernaryError;

    fn try_from(value: isize) -> (r: Result<Self, Self::Error>)
        ensures
            r == narrow_spec(value as int),
    {
        match value {
            -1 => Ok(Ternary::Negative),
            0 => Ok(Ternary::Neutral),
            1 => Ok(Ternary::Positive),
            n if -128 <= n && n <= 127 => Err(TernaryError::InvalidConversion(n as i8)),
            _ => Err(TernaryError::Overflow(value as i64)),
        }
    }
}

impl FromSpecImpl<Ternary> for i8 {
    open spec fn obeys_from_spec() -> bool {
        true
    }

    open spec fn from_spec(v: Ternary) -> i8 {
        v.value() as i8
    }
}

impl From<Ternary> for i8 {
    fn from(value: Ternary) -> (r: i8)
        ensures
            r == value.value(),
    {
        match value {
            Ternary::Negative => -1,
            Ternary::Neutral => 0,
            Ternary::Positive => 1,
        }
    }
}

// ---------------------------------------------------------------------------
// Arithmetic modulo 3
// ---------------------------------------------------------------------------

impl vstd::std_specs::ops::NegSpecImpl for Ternary {
    open spec fn obeys_neg_spec() -> bool {
        true
    }

    open spec fn neg_req(self) -> bool {
        true
    }

    /// Negation: the trit of value `-t`.
    open spec fn neg_spec(self) -> Ternary {
        trit_of(-self.value())
    }
}

/// Negation; the result is `neg_spec` above.
impl core::ops::Neg for Ternary {
    type Output = Self;

    fn neg(self) -> (r: Self) {
        match self {
            Ternary::Negative => Ternary::Positive,
            Ternary::Neutral => Ternary::Neutral,
            Ternary::Positive => Ternary::Negative,
        }
    }
}

impl vstd::std_specs::ops::AddSpecImpl for Ternary {
    open spec fn obeys_add_spec() -> bool {
        true
    }

    open spec fn add_req(self, rhs: Ternary) -> bool {
        true
    }

    /// Balanced addition modulo 3.
    open spec fn add_spec(self, rhs: Ternary) -> Ternary {
        trit_of(balanced(self.value() + rhs.value()))
    }
}

/// Balanced ternary addition (mod 3); the result is `add_spec` above.
///
/// | + | -1 | 0 | +1 |
/// |---|---|---|---|
/// | -1| +1 | -1 | 0 |
/// | 0 | -1 | 0 | +1 |
/// | +1| 0 | +1 | -1 |
impl core::ops::Add for Ternary {
    type Output = Self;

    fn add(self, rhs: Self) -> (r: Self) {
        match (self, rhs) {
            (Ternary::Negative, Ternary::Negative) => Ternary::Positive,
            (Ternary::Negative, Ternary::Neutral) => Ternary::Negative,
            (Ternary::Negative, Ternary::Positive) => Ternary::Neutral,
            (Ternary::Neutral, Ternary::Negative) => Ternary::Negative,
            (Ternary::Neutral, Ternary::Neutral) => Ternary::Neutral,
            (Ternary::Neutral, Ternary::Positive) => Ternary::Positive,
            (Ternary::Positive, Ternary::Negative) => Ternary::Neutral,
            (Ternary::Positive, Ternary::Neutral) => Ternary::Positive,
            (Ternary::Positive, Ternary::Positive) => Ternary::Negative,
        }
    }
}

impl vstd::std_specs::ops::SubSpecImpl for Ternary {
    open spec fn obeys_sub_spec() -> bool {
        true
    }

    open spec fn sub_req(self, rhs: Ternary) -> bool {
        true
    }

    /// Balanced subtraction modulo 3.
    open spec fn sub_spec(self, rhs: Ternary) -> Ternary {
        trit_of(balanced(self.value() - rhs.value()))
    }
}

/// Balanced ternary subtraction (mod 3); the result is `sub_spec` above.
impl core::ops::Sub for Ternary {
    type Output = Self;

    fn sub(self, rhs: Self) -> (r: Self) {
        self + core::ops::Neg::neg(rhs)
    }
}

impl vstd::std_specs::ops::MulSpecImpl for Ternary {
    open spec fn obeys_mul_spec() -> bool {
        true
    }

    open spec fn mul_req(self, rhs: Ternary) -> bool {
        true
    }

    /// Multiplication of the values (which never leaves `{-1, 0, 1}`).
    open spec fn mul_spec(self, rhs: Ternary) -> Ternary {
        trit_of(self.value() * rhs.value())
    }
}

/// Balanced ternary multiplication; the result is `mul_spec` above.
///
/// | × | -1 | 0 | +1 |
/// |---|---|---|---|
/// | -1| +1 | 0 | -1 |
/// | 0 | 0 | 0 | 0 |
/// | +1| -1 | 0 | +1 |
impl core::ops::Mul for Ternary {
    type Output = Self;

    fn mul(self, rhs: Self) -> (r: Self) {
        match (self, rhs) {
            (Ternary::Negative, Ternary::Negative) => Ternary::Positive,
            (Ternary::Negative, Ternary::Neutral) => Ternary::Neutral,
            (Ternary::Negative, Ternary::Positive) => Ternary::Negative,
            (Ternary::Neutral, _) => Ternary::Neutral,
            (Ternary::Positive, Ternary::Negative) => Ternary::Negative,
            (Ternary::Positive, Ternary::Neutral) => Ternary::Neutral,
            (Ternary::Positive, Ternary::Positive) => Ternary::Positive,
        }
    }
}

// ---------------------------------------------------------------------------
// Errors
// ---------------------------------------------------------------------------

/// Errors that can occur when converting into a [`Ternary`].
#[derive(Debug, Clone, Copy, PartialEq, Eq, Structural)]
pub enum TernaryError {
    /// The source integer is outside the valid range after narrowing.
    Overflow(i64),
    /// The source integer was a valid `i8`-range value that simply isn't `-1`,
    /// `0`, or `+1` (e.g. `42` or `-128`).
    InvalidConversion(i8),
}

/// A convenience alias for [`Result`] whose error is a [`TernaryError`].
pub type TernaryResult<T> = Result<T, TernaryError>;

// ---------------------------------------------------------------------------
// Enumeration of the three values
// ---------------------------------------------------------------------------

/// Yields the three [`Ternary`] variants in order: `Negative`, `Neutral`, `Positive`.
#[derive(Debug, Clone)]
pub struct TernaryIter {
    idx: u8,
}

impl TernaryIter {
    /// How many values have been asked for so far (saturating at 255).
    pub closed spec fn position(self) -> nat {
        self.idx as nat
    }

    /// The trit that the next call of `next` yields, if any.
    pub open spec fn next_spec(position: nat) -> Option<Ternary> {
        if position < 3 {
            Some(trit_of(position - 1))
        } else {
            None
        }
    }

    /// How many values are still to come.
    pub open spec fn remaining_spec(position: nat) -> nat {
        if position < 3 {
            (3 - position) as nat
        } else {
            0
        }
    }

    /// The enumeration yields each trit exactly once, in increasing order of value,
    /// and nothing after the third; the count still to come falls by one each step.
    pub proof fn law_enumeration_order(p: nat, q: nat, t: Ternary)
        ensures
            p < 3 ==> Self::next_spec(p) is Some,
            p >= 3 ==> Self::next_spec(p) is None,
            p < q < 3 ==> Self::next_spec(p)->0.value() < Self::next_spec(q)->0.value(),
            Self::next_spec((t.value() + 1) as nat) == Some(t),
            Self::remaining_spec(p) + (if p < 3 {
                p
            } else {
                3
            }) == 3,
    {
    }

    /// Yield the next variant, or `None` once all three have been yielded.
    pub fn next(&mut self) -> (r: Option<Ternary>)
        ensures
            r == Self::next_spec(old(self).position()),
            final(self).position() == if old(self).position() < 255 {
                old(self).position() + 1
            } else {
                255
            },
    {
        let v = match self.idx {
            0 => Some(Ternary::Negative),
            1 => Some(Ternary::Neutral),
            2 => Some(Ternary::Positive),
            _ => None,
        };
        self.idx = self.idx.saturating_add(1);
        v
    }

    /// Exact bounds on the number of values still to come.
    pub fn size_hint(&self) -> (r: (usize, Option<usize>))
        ensures
            r.0 == Self::remaining_spec(self.position()),
            r.1 == Some(r.0),
    {
        let remaining = 3usize.saturating_sub(self.idx as usize);
        (remaining, Some(remaining))
    }

    /// The number of values still to come.
    pub fn len(&self) -> (r: usize)
        ensures
            r == Self::remaining_spec(self.position()),
    {
        let (lower, _) = self.size_hint();
        lower
    }
}

impl Ternary {
    /// Iterate over all three [`Ternary`] variants in order.
    pub fn iter() -> (r: TernaryIter)
        ensures
            r.position() == 0,
    {
        TernaryIter { idx: 0 }
    }

    /// Return the numeric value of this ternary state as an `i8`.
    pub fn to_i8(self) -> (r: i8)
        ensures
            r == self.value(),
    {
        i8::from(self)
    }

    /// Return the numeric value as an `i32`.
    pub fn to_i32(self) -> (r: i32)
        ensures
            r == self.value(),
    {
        i8::from(self) as i32
    }

    /// Convert from an `i8` that is `-1`, `0` or `1`.
    pub fn from_i8(v: i8) -> (r: Self)
        requires
            is_trit_value(v as int),
        ensures
            r.value() == v,
    {
        match v {
            -1 => Ternary::Negative,
            0 => Ternary::Neutral,
            _ => Ternary::Positive,
        }
    }

    /// Is this trit non‑zero?
    pub fn is_nonzero(self) -> (r: bool)
        ensures
            r == (self.value() != 0),
    {
        self != Ternary::Neutral
    }

    /// Is this trit zero / neutral?
    pub fn is_zero(self) -> (r: bool)
        ensures
            r == (self.value() == 0),
    {
        self == Ternary::Neutral
    }

    /// The signum: -1 → -1, 0 → 0, +1 → +1 (the value itself).
    pub fn signum(self) -> (r: i8)
        ensures
            r == self.value(),
    {
        i8::from(self)
    }
}

} // verus!
