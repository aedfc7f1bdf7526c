//! Conversion traits between `Ternary` and common numeric types.

use crate::ternary::{is_trit_value, trit_of, Ternary};
use crate::trit_vector::TritVector;
use vstd::prelude::*;
use vstd::std_specs::convert::TryFromSpec;

verus! {

/// The trit of `v` when `v` is `-1`, `0` or `1`, and `Neutral` otherwise.
pub open spec fn trit_or_neutral(v: int) -> Ternary {
    if is_trit_value(v) {
        trit_of(v)
    } else {
        Ternary::Neutral
    }
}

/// A trait for types that can be converted to/from `Ternary`.
pub trait TernaryConvertible: Sized {
    /// Convert a `Ternary` to `Self`.
    fn from_ternary(t: Ternary) -> Self;

    /// Convert `Self` to a `Ternary`.
    fn to_ternary(&self) -> Ternary;
}

impl TernaryConvertible for i8 {
    /// The value of the trit.
    fn from_ternary(t: Ternary) -> (r: i8)
        ensures
            r == t.value(),
    {
        i8::from(t)
    }

    /// The trit of this number, with anything but `-1`, `0`, `1` read as `Neutral`.
    fn to_ternary(&self) -> (r: Ternary)
        ensures
            r == trit_or_neutral(*self as int),
    {
        match Ternary::try_from(*self) {
            Ok(t) => t,
            Err(_) => Ternary::Neutral,
        }
    }
}

impl TernaryConvertible for bool {
    /// Whether the trit is nonzero.
    fn from_ternary(t: Ternary) -> (r: bool)
        ensures
            r == (t.value() != 0),
    {
        t.is_nonzero()
    }

    /// `Positive` for `true`, `Neutral` for `false`.
    fn to_ternary(&self) -> (r: Ternary)
        ensures
            r == if *self {
                Ternary::Positive
            } else {
                Ternary::Neutral
            },
    {
        if *self {
            Ternary::Positive
        } else {
            Ternary::Neutral
        }
    }
}

/// Reading an `i8` as a trit keeps `-1`, `0` and `1` (as the trits with those
/// values) and reads every other number as `Neutral`; it agrees with the `i8`
/// conversion, falling back to `Neutral` where that conversion is refused.
pub proof fn law_i8_clamp(v: i8)
    ensures
        (v == -1 || v == 0 || v == 1) ==> trit_or_neutral(v as int).value() == v,
        !(v == -1 || v == 0 || v == 1) ==> trit_or_neutral(v as int) == Ternary::Neutral,
        trit_or_neutral(v as int) == match <Ternary as TryFromSpec<i8>>::try_from_spec(v) {
            Ok(t) => t,
            Err(_) => Ternary::Neutral,
        },
{
}

/// Convert a slice of i8 values to a TritVector (clamping invalid values to Neutral).
pub fn i8_slice_to_trits(values: &[i8]) -> (r: TritVector)
    ensures
        r@ == Seq::new(values@.len(), |i: int| trit_or_neutral(values@[i] as int)),
{
    let mut data: Vec<Ternary> = Vec::new();
    let mut i: usize = 0;
    while i < values.len()
        invariant
            i <= values@.len(),
            data@.len() == i,
            forall|j: int| 0 <= j < i ==> #[trigger] data@[j] == trit_or_neutral(values@[j] as int),
        decreases values@.len() - i,
    {
        let t = match Ternary::try_from(values[i]) {
            Ok(t) => t,
            Err(_) => Ternary::Neutral,
        };
        data.push(t);
        i = i + 1;
    }
    let r = TritVector::new(data.as_slice());
    proof {
        assert(r@ =~= Seq::new(values@.len(), |i: int| trit_or_neutral(values@[i] as int)));
    }
    r
}

} // verus!
