use ternary_types::Ternary::{Negative, Neutral, Positive};
use ternary_types::{PackedTrits, Ternary, TRITS_PER_U64};

#[test]
fn packed_roundtrip() {
    let trits = vec![Negative, Neutral, Positive, Neutral, Negative];
    let packed = PackedTrits::pack(&trits);
    assert_eq!(packed.len(), 5);
    assert_eq!(packed.unpack(), trits);
}

#[test]
fn get_set() {
    let mut packed = PackedTrits::pack(&[Neutral, Neutral, Neutral]);
    packed.set(0, Positive);
    packed.set(2, Negative);
    assert_eq!(packed.get(0), Some(Positive));
    assert_eq!(packed.get(1), Some(Neutral));
    assert_eq!(packed.get(2), Some(Negative));
}

#[test]
fn max_trits() {
    let trits: Vec<Ternary> = (0..32)
        .map(|i| match i % 3 {
            0 => Negative,
            1 => Neutral,
            _ => Positive,
        })
        .collect();
    let packed = PackedTrits::pack(&trits);
    assert_eq!(packed.len(), 32);
    assert_eq!(packed.unpack(), trits);
}

#[test]
fn empty() {
    let p = PackedTrits::new(0, 0);
    assert!(p.is_empty());
    assert!(p.unpack().is_empty());
}

// ---------------------------------------------------------------------------
// Further cases
// ---------------------------------------------------------------------------

#[test]
fn bit_layout() {
    let p = PackedTrits::pack(&[Neutral, Positive, Negative]);
    assert_eq!(p.bits(), 0b10_01_00);
    assert_eq!(p.len(), 3);
    assert!(!p.is_empty());
}

#[test]
fn pack_drops_past_capacity() {
    let trits = vec![Positive; 40];
    let p = PackedTrits::pack(&trits);
    assert_eq!(p.len(), TRITS_PER_U64);
    assert_eq!(p.unpack(), vec![Positive; 32]);
    assert_eq!(p.bits(), 0x5555_5555_5555_5555);
}

#[test]
fn new_clamps_count() {
    let p = PackedTrits::new(u64::MAX, 200);
    assert_eq!(p.len(), 32);
    assert_eq!(p.bits(), u64::MAX);
    // the invalid code 11 reads as Neutral
    assert_eq!(p.get(0), Some(Neutral));
    let q = PackedTrits::new(0b01, 1);
    assert_eq!(q.get(0), Some(Positive));
}

#[test]
fn get_and_set_out_of_range() {
    let mut p = PackedTrits::pack(&[Positive, Negative]);
    assert_eq!(p.get(2), None);
    assert_eq!(p.get(1000), None);
    let before = p;
    p.set(2, Negative);
    p.set(5000, Negative);
    assert_eq!(p, before);
}

#[test]
fn set_changes_one_slot() {
    let mut p = PackedTrits::pack(&[Negative, Negative, Negative, Negative]);
    p.set(1, Positive);
    assert_eq!(p.unpack(), vec![Negative, Positive, Negative, Negative]);
    p.set(1, Neutral);
    assert_eq!(p.unpack(), vec![Negative, Neutral, Negative, Negative]);
    assert_eq!(p.bits(), 0b10_10_00_10);
}
