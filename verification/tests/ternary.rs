use ternary_types::trits::{N, P, Z};
use ternary_types::{Negative, Neutral, Positive, Ternary, TernaryError, TernaryIter};

fn collect_all(mut it: TernaryIter) -> Vec<Ternary> {
    let mut out = Vec::new();
    while let Some(t) = it.next() {
        out.push(t);
    }
    out
}

#[test]
fn try_from_i8() {
    assert_eq!(Ternary::try_from(-1_i8), Ok(Negative));
    assert_eq!(Ternary::try_from(0_i8), Ok(Neutral));
    assert_eq!(Ternary::try_from(1_i8), Ok(Positive));
    assert_eq!(Ternary::try_from(42_i8), Err(TernaryError::InvalidConversion(42)));
}

#[test]
fn into_i8() {
    assert_eq!(i8::from(Negative), -1);
    assert_eq!(i8::from(Neutral), 0);
    assert_eq!(i8::from(Positive), 1);
}

#[test]
fn display() {
    assert_eq!(Negative.to_string(), "-1");
    assert_eq!(Neutral.to_string(), "0");
    assert_eq!(Positive.to_string(), "+1");
}

#[test]
fn neg() {
    assert_eq!(-Negative, Positive);
    assert_eq!(-Neutral, Neutral);
    assert_eq!(-Positive, Negative);
}

#[test]
fn arithmetic_add() {
    assert_eq!(Negative + Negative, Positive);
    assert_eq!(Negative + Positive, Neutral);
    assert_eq!(Neutral + Positive, Positive);
    assert_eq!(Positive + Positive, Negative);
}

#[test]
fn arithmetic_mul() {
    assert_eq!(Negative * Negative, Positive);
    assert_eq!(Negative * Positive, Negative);
    assert_eq!(Positive * Positive, Positive);
    assert_eq!(Negative * Neutral, Neutral);
}

#[test]
fn arithmetic_sub() {
    // (-1) - (+1) = -2 ≡ +1 (mod 3)
    assert_eq!(Negative - Positive, Positive);
    // (+1) - (-1) = +2 ≡ -1 (mod 3)
    assert_eq!(Positive - Negative, Negative);
    // (+1) - (+1) = 0 (mod 3)
    assert_eq!(Positive - Positive, Neutral);
    assert_eq!(Neutral - Neutral, Neutral);
}

#[test]
fn iter_all() {
    let collected: Vec<Ternary> = collect_all(Ternary::iter());
    assert_eq!(collected, vec![Negative, Neutral, Positive]);
}

#[test]
fn to_i8_method() {
    assert_eq!(Negative.to_i8(), -1);
    assert_eq!(Neutral.to_i8(), 0);
    assert_eq!(Positive.to_i8(), 1);
}

#[test]
fn is_nonzero() {
    assert!(Negative.is_nonzero());
    assert!(!Neutral.is_nonzero());
    assert!(Positive.is_nonzero());
}

#[test]
fn try_from_wider_types() {
    assert_eq!(Ternary::try_from(0i32), Ok(Neutral));
    assert_eq!(Ternary::try_from(-1i64), Ok(Negative));
    assert_eq!(Ternary::try_from(1i16), Ok(Positive));
    assert_eq!(Ternary::try_from(999i32), Err(TernaryError::Overflow(999)));
    assert_eq!(Ternary::try_from(-1000i64), Err(TernaryError::Overflow(-1000)));
}

#[test]
fn error_display() {
    let e = TernaryError::Overflow(999);
    assert_eq!(e.to_string(), "ternary overflow: 999 cannot be narrowed to -1/0/1");
    let e = TernaryError::InvalidConversion(42);
    assert_eq!(e.to_string(), "invalid ternary conversion: 42 is not -1, 0, or 1");
}

#[test]
fn exact_size_iterator() {
    let it = Ternary::iter();
    assert_eq!(it.len(), 3);
}

// ---------------------------------------------------------------------------
// Further cases
// ---------------------------------------------------------------------------

#[test]
fn error_display_edges() {
    assert_eq!(
        TernaryError::Overflow(i64::MIN).to_string(),
        "ternary overflow: -9223372036854775808 cannot be narrowed to -1/0/1"
    );
    assert_eq!(
        TernaryError::Overflow(i64::MAX).to_string(),
        "ternary overflow: 9223372036854775807 cannot be narrowed to -1/0/1"
    );
    assert_eq!(
        TernaryError::InvalidConversion(-128).to_string(),
        "invalid ternary conversion: -128 is not -1, 0, or 1"
    );
    assert_eq!(
        TernaryError::Overflow(-2).to_string(),
        "ternary overflow: -2 cannot be narrowed to -1/0/1"
    );
    assert_eq!(
        TernaryError::InvalidConversion(10).to_string(),
        "invalid ternary conversion: 10 is not -1, 0, or 1"
    );
}

#[test]
fn try_from_edges() {
    assert_eq!(Ternary::try_from(-128_i8), Err(TernaryError::InvalidConversion(-128)));
    assert_eq!(Ternary::try_from(2_i8), Err(TernaryError::InvalidConversion(2)));
    assert_eq!(Ternary::try_from(-2i16), Err(TernaryError::InvalidConversion(-2)));
    assert_eq!(Ternary::try_from(i64::MIN), Err(TernaryError::Overflow(i64::MIN)));
    assert_eq!(Ternary::try_from(1isize), Ok(Positive));
    assert_eq!(Ternary::try_from(-5isize), Err(TernaryError::InvalidConversion(-5)));
    assert_eq!(Ternary::try_from(42i32), Err(TernaryError::InvalidConversion(42)));
    assert_eq!(Ternary::try_from(127i64), Err(TernaryError::InvalidConversion(127)));
    assert_eq!(Ternary::try_from(-128i16), Err(TernaryError::InvalidConversion(-128)));
    assert_eq!(Ternary::try_from(128i16), Err(TernaryError::Overflow(128)));
    assert_eq!(Ternary::try_from(-129i32), Err(TernaryError::Overflow(-129)));
    assert_eq!(Ternary::try_from(1000isize), Err(TernaryError::Overflow(1000)));
    assert_eq!(Ternary::try_from(0i16), Ok(Neutral));
}

#[test]
fn i8_conversion_roundtrip() {
    for t in [Negative, Neutral, Positive] {
        assert_eq!(Ternary::try_from(i8::from(t)), Ok(t));
    }
    for v in -1i8..=1 {
        assert_eq!(i8::from(Ternary::try_from(v).unwrap()), v);
    }
}

#[test]
fn value_accessors() {
    assert_eq!(Negative.to_i32(), -1);
    assert_eq!(Positive.to_i32(), 1);
    assert_eq!(Neutral.signum(), 0);
    assert_eq!(Negative.signum(), -1);
    assert!(Neutral.is_zero());
    assert!(!Positive.is_zero());
    assert_eq!(Ternary::from_i8(-1), Negative);
    assert_eq!(Ternary::from_i8(0), Neutral);
    assert_eq!(Ternary::from_i8(1), Positive);
}

#[test]
fn iterator_exhausts() {
    let mut it = Ternary::iter();
    assert_eq!(it.size_hint(), (3, Some(3)));
    assert_eq!(it.next(), Some(Negative));
    assert_eq!(it.len(), 2);
    assert_eq!(it.next(), Some(Neutral));
    assert_eq!(it.next(), Some(Positive));
    assert_eq!(it.next(), None);
    assert_eq!(it.next(), None);
    assert_eq!(it.size_hint(), (0, Some(0)));
}

#[test]
fn ring_laws() {
    let all = [Negative, Neutral, Positive];
    for a in all {
        assert_eq!(-(-a), a);
        assert_eq!(a + (-a), Neutral);
        assert_eq!(a + Neutral, a);
        assert_eq!(a * Positive, a);
        assert_eq!(a * Neutral, Neutral);
        assert_eq!(a * Negative, -a);
        if a != Neutral {
            assert_eq!(a * a, Positive);
        }
        for b in all {
            assert_eq!(a + b, b + a);
            assert_eq!(a * b, b * a);
            assert_eq!(a - b, a + (-b));
            assert_eq!((a + b) - b, a);
            for c in all {
                assert_eq!((a + b) + c, a + (b + c));
                assert_eq!((a * b) * c, a * (b * c));
                assert_eq!(a * (b + c), (a * b) + (a * c));
            }
        }
    }
}

#[test]
fn ordering() {
    assert!(Negative < Neutral);
    assert!(Neutral < Positive);
    assert!(Negative < Positive);
    assert!(!(Positive < Negative));
    assert_eq!(Negative.partial_cmp(&Positive), Some(std::cmp::Ordering::Less));
    assert_eq!(Neutral.partial_cmp(&Neutral), Some(std::cmp::Ordering::Equal));
    assert_eq!(Negative.cmp(&Neutral), std::cmp::Ordering::Less);
    assert_eq!(Positive.max(Negative), Positive);
}

#[test]
fn short_aliases() {
    assert_eq!(N, Negative);
    assert_eq!(Z, Neutral);
    assert_eq!(P, Positive);
    assert_eq!(ternary_types::z3::Positive, Positive);
}
