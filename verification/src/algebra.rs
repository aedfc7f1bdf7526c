//! The laws of balanced ternary arithmetic: the trits with `+` and `*` form the
//! ring of integers modulo 3, and the conversions to and from `i8` undo each other.

use crate::order::compare_ints;
use crate::ternary::{balanced, is_trit_value, trit_of, Ternary, TernaryError};
use core::cmp::Ordering;
use vstd::prelude::*;
use vstd::std_specs::cmp::PartialOrdSpec;
use vstd::std_specs::convert::{FromSpec, TryFromSpec};
use vstd::std_specs::ops::{AddSpec, MulSpec, NegSpec, SubSpec};

verus! {

// ---------------------------------------------------------------------------
// Facts about values and residues that the proofs below rest on
// ---------------------------------------------------------------------------

/// The value of a trit lies in `{-1, 0, 1}`, and the trit is recovered from it.
pub proof fn lemma_value_bounds(t: Ternary)
    ensures
        is_trit_value(t.value()),
        trit_of(t.value()) == t,
{
}

/// On `{-1, 0, 1}`, taking the trit and then its value gives back the number.
pub proof fn lemma_value_of_trit_of(v: int)
    requires
        is_trit_value(v),
    ensures
        trit_of(v).value() == v,
{
}

/// The balanced residue lies in `{-1, 0, 1}` and differs from `v` by a multiple of 3.
pub proof fn lemma_balanced_range(v: int)
    ensures
        is_trit_value(balanced(v)),
        (v - balanced(v)) % 3 == 0,
        is_trit_value(v) ==> balanced(v) == v,
{
    let r = (v + 1) % 3;
    vstd::arithmetic::div_mod::lemma_fundamental_div_mod(v + 1, 3);
    assert((v - balanced(v)) == 3 * ((v + 1) / 3));
    vstd::arithmetic::div_mod::lemma_mod_multiples_basic((v + 1) / 3, 3);
    if is_trit_value(v) {
        vstd::arithmetic::div_mod::lemma_small_mod((v + 1) as nat, 3);
    }
}

/// Taking the residue of a partial sum first does not change the residue of the total.
pub proof fn lemma_balanced_add(x: int, y: int)
    ensures
        balanced(balanced(x) + y) == balanced(x + y),
{
    vstd::arithmetic::div_mod::lemma_add_mod_noop(x + 1, y, 3);
    vstd::arithmetic::div_mod::lemma_mod_twice(x + 1, 3);
    vstd::arithmetic::div_mod::lemma_add_mod_noop((x + 1) % 3, y, 3);
}

// ---------------------------------------------------------------------------
// Conversions
// ---------------------------------------------------------------------------

/// Converting a trit to `i8` and back gives the trit again.
pub proof fn law_i8_roundtrip(t: Ternary)
    ensures
        <Ternary as TryFromSpec<i8>>::try_from_spec(<i8 as FromSpec<Ternary>>::from_spec(t)) == Ok::<
            Ternary,
            TernaryError,
        >(t),
{
}

/// Converting a valid `i8` to a trit and back gives the number again; every other
/// `i8` is refused with `InvalidConversion` carrying it.
pub proof fn law_i8_conversion_inverse(v: i8)
    ensures
        is_trit_value(v as int) ==> <i8 as FromSpec<Ternary>>::from_spec(
            <Ternary as TryFromSpec<i8>>::try_from_spec(v).unwrap(),
        ) == v,
        !is_trit_value(v as int) ==> <Ternary as TryFromSpec<i8>>::try_from_spec(v) == Err::<
            Ternary,
            TernaryError,
        >(TernaryError::InvalidConversion(v)),
{
}

/// Exactly `-1`, `0` and `1` convert from `i8`, each to the trit with that value;
/// every other `i8` is refused with `InvalidConversion` carrying it.
pub proof fn law_i8_conversion_exact(v: i8)
    ensures
        <Ternary as TryFromSpec<i8>>::try_from_spec(v) is Ok <==> (v == -1 || v == 0 || v == 1),
        <Ternary as TryFromSpec<i8>>::try_from_spec(v) matches Ok(t) ==> t.value() == v
            && <i8 as FromSpec<Ternary>>::from_spec(t) == v,
        !(v == -1 || v == 0 || v == 1) ==> <Ternary as TryFromSpec<i8>>::try_from_spec(v) == Err::<
            Ternary,
            TernaryError,
        >(TernaryError::InvalidConversion(v)),
{
}

/// Exactly `-1`, `0` and `1` convert from `i16`, each to the trit with that value,
/// which converts back to the same number as an `i8`. Any other value is refused:
/// with `InvalidConversion` when it fits in an `i8`, with `Overflow` when it does not.
pub proof fn law_i16_conversion_exact(v: i16)
    ensures
        <Ternary as TryFromSpec<i16>>::try_from_spec(v) is Ok <==> (v == -1 || v == 0 || v == 1),
        <Ternary as TryFromSpec<i16>>::try_from_spec(v) matches Ok(t) ==> t.value() == v
            && <i8 as FromSpec<Ternary>>::from_spec(t) == v,
        !(v == -1 || v == 0 || v == 1) && -128 <= v <= 127
            ==> <Ternary as TryFromSpec<i16>>::try_from_spec(v) == Err::<Ternary, TernaryError>(
            TernaryError::InvalidConversion(v as i8),
        ),
        !(-128 <= v <= 127) ==> <Ternary as TryFromSpec<i16>>::try_from_spec(v) == Err::<
            Ternary,
            TernaryError,
        >(TernaryError::Overflow(v as i64)),
{
}

/// Exactly `-1`, `0` and `1` convert from `i32`, each to the trit with that value,
/// which converts back to the same number as an `i8`. Any other value is refused:
/// with `InvalidConversion` when it fits in an `i8`, with `Overflow` when it does not.
pub proof fn law_i32_conversion_exact(v: i32)
    ensures
        <Ternary as TryFromSpec<i32>>::try_from_spec(v) is Ok <==> (v == -1 || v == 0 || v == 1),
        <Ternary as TryFromSpec<i32>>::try_from_spec(v) matches Ok(t) ==> t.value() == v
            && <i8 as FromSpec<Ternary>>::from_spec(t) == v,
        !(v == -1 || v == 0 || v == 1) && -128 <= v <= 127
            ==> <Ternary as TryFromSpec<i32>>::try_from_spec(v) == Err::<Ternary, TernaryError>(
            TernaryError::InvalidConversion(v as i8),
        ),
        !(-128 <= v <= 127) ==> <Ternary as TryFromSpec<i32>>::try_from_spec(v) == Err::<
            Ternary,
            TernaryError,
        >(TernaryError::Overflow(v as i64)),
{
}

/// Exactly `-1`, `0` and `1` convert from `i64`, each to the trit with that value,
/// which converts back to the same number as an `i8`. Any other value is refused:
/// with `InvalidConversion` when it fits in an `i8`, with `Overflow` when it does not.
pub proof fn law_i64_conversion_exact(v: i64)
    ensures
        <Ternary as TryFromSpec<i64>>::try_from_spec(v) is Ok <==> (v == -1 || v == 0 || v == 1),
        <Ternary as TryFromSpec<i64>>::try_from_spec(v) matches Ok(t) ==> t.value() == v
            && <i8 as FromSpec<Ternary>>::from_spec(t) == v,
        !(v == -1 || v == 0 || v == 1) && -128 <= v <= 127
            ==> <Ternary as TryFromSpec<i64>>::try_from_spec(v) == Err::<Ternary, TernaryError>(
            TernaryError::InvalidConversion(v as i8),
        ),
        !(-128 <= v <= 127) ==> <Ternary as TryFromSpec<i64>>::try_from_spec(v) == Err::<
            Ternary,
            TernaryError,
        >(TernaryError::Overflow(v)),
{
}

/// Exactly `-1`, `0` and `1` convert from `isize`, each to the trit with that value,
/// which converts back to the same number as an `i8`. Any other value is refused:
/// with `InvalidConversion` when it fits in an `i8`, with `Overflow` when it does not.
pub proof fn law_isize_conversion_exact(v: isize)
    ensures
        <Ternary as TryFromSpec<isize>>::try_from_spec(v) is Ok <==> (v == -1 || v == 0 || v
            == 1),
        <Ternary as TryFromSpec<isize>>::try_from_spec(v) matches Ok(t) ==> t.value() == v
            && <i8 as FromSpec<Ternary>>::from_spec(t) == v,
        !(v == -1 || v == 0 || v == 1) && -128 <= v <= 127
            ==> <Ternary as TryFromSpec<isize>>::try_from_spec(v) == Err::<Ternary, TernaryError>(
            TernaryError::InvalidConversion(v as i8),
        ),
        !(-128 <= v <= 127) ==> <Ternary as TryFromSpec<isize>>::try_from_spec(v) == Err::<
            Ternary,
            TernaryError,
        >(TernaryError::Overflow(v as i64)),
{
}

// ---------------------------------------------------------------------------
// Negation
// ---------------------------------------------------------------------------

/// Negation undoes itself.
pub proof fn law_neg_involutive(t: Ternary)
    ensures
        t.neg_spec().neg_spec() == t,
{
}

/// Negation negates the value.
pub proof fn law_neg_value(t: Ternary)
    ensures
        t.neg_spec().value() == -t.value(),
{
}

// ---------------------------------------------------------------------------
// Addition: an abelian group
// ---------------------------------------------------------------------------

/// The value of a sum is the balanced residue of the sum of the values.
pub proof fn law_add_value(a: Ternary, b: Ternary)
    ensures
        a.add_spec(b).value() == balanced(a.value() + b.value()),
        (a.add_spec(b).value() - (a.value() + b.value())) % 3 == 0,
{
    lemma_balanced_range(a.value() + b.value());
}

/// Addition is commutative.
pub proof fn law_add_commutative(a: Ternary, b: Ternary)
    ensures
        a.add_spec(b) == b.add_spec(a),
{
}

/// Addition is associative.
pub proof fn law_add_associative(a: Ternary, b: Ternary, c: Ternary)
    ensures
        a.add_spec(b).add_spec(c) == a.add_spec(b.add_spec(c)),
{
}

/// `Neutral` is the identity of addition.
pub proof fn law_add_identity(a: Ternary)
    ensures
        a.add_spec(Ternary::Neutral) == a,
        Ternary::Neutral.add_spec(a) == a,
{
}

/// Every trit plus its negation is `Neutral`.
pub proof fn law_add_inverse(a: Ternary)
    ensures
        a.add_spec(a.neg_spec()) == Ternary::Neutral,
{
}

/// Subtraction is addition of the negation.
pub proof fn law_sub_is_add_neg(a: Ternary, b: Ternary)
    ensures
        a.sub_spec(b) == a.add_spec(b.neg_spec()),
{
}

/// Subtraction undoes addition.
pub proof fn law_sub_undoes_add(a: Ternary, b: Ternary)
    ensures
        a.add_spec(b).sub_spec(b) == a,
{
}

// ---------------------------------------------------------------------------
// Multiplication: a commutative monoid that distributes over addition
// ---------------------------------------------------------------------------

/// The value of a product is the product of the values.
pub proof fn law_mul_value(a: Ternary, b: Ternary)
    ensures
        a.mul_spec(b).value() == a.value() * b.value(),
{
}

/// Multiplication is commutative.
pub proof fn law_mul_commutative(a: Ternary, b: Ternary)
    ensures
        a.mul_spec(b) == b.mul_spec(a),
{
}

/// Multiplication is associative.
pub proof fn law_mul_associative(a: Ternary, b: Ternary, c: Ternary)
    ensures
        a.mul_spec(b).mul_spec(c) == a.mul_spec(b.mul_spec(c)),
{
}

/// `Positive` is the identity of multiplication and `Neutral` absorbs.
pub proof fn law_mul_identity_and_zero(a: Ternary)
    ensures
        a.mul_spec(Ternary::Positive) == a,
        Ternary::Positive.mul_spec(a) == a,
        a.mul_spec(Ternary::Neutral) == Ternary::Neutral,
        Ternary::Neutral.mul_spec(a) == Ternary::Neutral,
{
}

/// Multiplying by `Negative` negates.
pub proof fn law_mul_negative_is_neg(a: Ternary)
    ensures
        a.mul_spec(Ternary::Negative) == a.neg_spec(),
{
}

/// Multiplication distributes over addition.
pub proof fn law_mul_distributes(a: Ternary, b: Ternary, c: Ternary)
    ensures
        a.mul_spec(b.add_spec(c)) == a.mul_spec(b).add_spec(a.mul_spec(c)),
{
}

/// Every nonzero trit is its own multiplicative inverse, so the trits form a field.
pub proof fn law_mul_inverse(a: Ternary)
    requires
        a != Ternary::Neutral,
    ensures
        a.mul_spec(a) == Ternary::Positive,
{
}

// ---------------------------------------------------------------------------
// Order
// ---------------------------------------------------------------------------

/// Trits are ordered as their values: `Negative < Neutral < Positive`.
pub proof fn law_order_follows_values(a: Ternary, b: Ternary)
    ensures
        a.partial_cmp_spec(&b) == Some(compare_ints(a.value(), b.value())),
        (a.partial_cmp_spec(&b) == Some(Ordering::Less)) <==> a.value() < b.value(),
        (a.partial_cmp_spec(&b) == Some(Ordering::Equal)) <==> a == b,
{
}

} // verus!
