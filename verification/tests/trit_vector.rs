use ternary_types::Ternary::{Negative, Neutral, Positive};
use ternary_types::{i8_slice_to_trits, Ternary, TernaryConvertible, TritVector};

#[test]
fn dot_product() {
    let a = TritVector::new(&[Positive, Negative, Neutral]);
    let b = TritVector::new(&[Positive, Positive, Negative]);
    // dot = (+1*+1) + (-1*+1) + (0*-1) = +1 + -1 + 0 = 0 (Neutral)
    assert_eq!(a.dot(&b), Neutral);
}

#[test]
fn add_vectors() {
    let a = TritVector::new(&[Positive, Negative, Positive]);
    let b = TritVector::new(&[Negative, Positive, Positive]);
    let c = a.add(&b);
    // +1 + -1 = 0, -1 + +1 = 0, +1 + +1 = -1
    assert_eq!(c.as_slice(), &[Neutral, Neutral, Negative]);
}

#[test]
fn hamming_distance() {
    let a = TritVector::new(&[Positive, Negative, Neutral]);
    let b = TritVector::new(&[Positive, Neutral, Neutral]);
    assert_eq!(a.hamming_distance(&b), 1);
}

#[test]
fn count_nonzero() {
    let v = TritVector::new(&[Positive, Neutral, Negative, Neutral, Positive]);
    assert_eq!(v.count_nonzero(), 3);
}

#[test]
fn from_i8_vec() {
    let v = TritVector::from_i8_vec(vec![1i8, 0, -1, 1]);
    assert_eq!(v.as_slice(), &[Positive, Neutral, Negative, Positive]);
}

#[test]
fn pack_unpack() {
    let v = TritVector::new(&[Negative, Positive, Negative, Neutral]);
    let packed = v.pack();
    let unpacked = packed.unpack();
    assert_eq!(unpacked, v.as_slice());
}

// ---------------------------------------------------------------------------
// Further cases
// ---------------------------------------------------------------------------

#[test]
fn constructors_and_access() {
    let z = TritVector::zeros(3);
    assert_eq!(z.as_slice(), &[Neutral, Neutral, Neutral]);
    let o = TritVector::ones(2);
    assert_eq!(o.as_slice(), &[Positive, Positive]);
    assert!(TritVector::zeros(0).is_empty());
    assert_eq!(o.len(), 2);
    let mut v = TritVector::new(&[Negative, Positive]);
    assert_eq!(v.get(1), Some(Positive));
    assert_eq!(v.get(2), None);
    v.set(0, Neutral);
    v.set(7, Negative);
    assert_eq!(v.as_slice(), &[Neutral, Positive]);
    assert_eq!(v.to_i8_vec(), vec![0i8, 1]);
}

#[test]
fn elementwise_ops_use_shorter_length() {
    let a = TritVector::new(&[Positive, Negative, Negative]);
    let b = TritVector::new(&[Negative, Negative]);
    assert_eq!(a.add(&b).as_slice(), &[Neutral, Positive]);
    assert_eq!(a.mul(&b).as_slice(), &[Negative, Positive]);
    assert_eq!(a.hamming_distance(&b), 1);
    // (+1)(-1) + (-1)(-1) = 0
    assert_eq!(a.dot(&b), Neutral);
    assert_eq!(a.negate().as_slice(), &[Negative, Positive, Positive]);
}

#[test]
fn dot_wraps_modulo_three() {
    let a = TritVector::ones(2);
    // 1 + 1 = 2 ≡ -1 (mod 3)
    assert_eq!(a.dot(&a), Negative);
    let b = TritVector::ones(3);
    assert_eq!(b.dot(&b), Neutral);
    assert_eq!(TritVector::zeros(0).dot(&a), Neutral);
}

#[test]
fn vector_laws() {
    let a = TritVector::new(&[Positive, Negative, Neutral, Negative]);
    let b = TritVector::new(&[Negative, Negative, Positive, Neutral]);
    assert_eq!(a.dot(&b), b.dot(&a));
    assert_eq!(a.add(&b), b.add(&a));
    assert_eq!(a.mul(&b), b.mul(&a));
    assert_eq!(a.negate().negate(), a);
    assert_eq!(a.add(&a.negate()), TritVector::zeros(4));
    assert_eq!(a.hamming_distance(&b), b.hamming_distance(&a));
    assert_eq!(a.hamming_distance(&a), 0);
    assert_eq!(a.count_nonzero(), a.hamming_distance(&TritVector::zeros(4)));
}

#[test]
fn vec_conversions() {
    let v: TritVector = TritVector::from(vec![Negative, Positive]);
    assert_eq!(v.as_slice(), &[Negative, Positive]);
    let back: Vec<Ternary> = Vec::from(v);
    assert_eq!(back, vec![Negative, Positive]);
}

#[test]
fn pack_keeps_first_32() {
    let v = TritVector::new(&[Negative; 33]);
    let p = v.pack();
    assert_eq!(p.len(), 32);
    assert_eq!(p.unpack(), vec![Negative; 32]);
}

#[test]
fn i8_slice_clamps() {
    let v = i8_slice_to_trits(&[1, 0, -1, 5, -128]);
    assert_eq!(v.as_slice(), &[Positive, Neutral, Negative, Neutral, Neutral]);
}

#[test]
fn convertible_impls() {
    assert_eq!(<i8 as TernaryConvertible>::from_ternary(Negative), -1);
    assert_eq!(TernaryConvertible::to_ternary(&1i8), Positive);
    assert_eq!(TernaryConvertible::to_ternary(&7i8), Neutral);
    assert!(<bool as TernaryConvertible>::from_ternary(Negative));
    assert!(!<bool as TernaryConvertible>::from_ternary(Neutral));
    assert_eq!(TernaryConvertible::to_ternary(&true), Positive);
    assert_eq!(TernaryConvertible::to_ternary(&false), Neutral);
}
