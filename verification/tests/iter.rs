use ternary_types::{trits_to_bytes, Ternary, TritIterator};

fn read_all(bytes: &[u8]) -> Vec<Ternary> {
    let mut it = TritIterator::new(bytes);
    let mut out = Vec::new();
    while let Some(t) = it.next() {
        out.push(t);
    }
    out
}

#[test]
fn byte_mapping() {
    let bytes = vec![0u8, 128u8, 200u8, 85u8];
    let trits: Vec<Ternary> = read_all(&bytes);
    assert_eq!(trits[0], Ternary::Negative);
    assert_eq!(trits[1], Ternary::Neutral);
    assert_eq!(trits[2], Ternary::Positive);
    assert_eq!(trits[3], Ternary::Neutral);
}

#[test]
fn iter_roundtrip() {
    let trits = vec![Ternary::Negative, Ternary::Neutral, Ternary::Positive];
    let bytes = trits_to_bytes(trits.clone());
    let back: Vec<Ternary> = read_all(&bytes);
    assert_eq!(trits, back);
}

#[test]
fn byte_thresholds() {
    let bytes = [84u8, 85, 170, 171, 255];
    assert_eq!(
        read_all(&bytes),
        vec![Ternary::Negative, Ternary::Neutral, Ternary::Neutral, Ternary::Positive, Ternary::Positive]
    );
    assert!(read_all(&[]).is_empty());
}

#[test]
fn bytes_written() {
    assert_eq!(
        trits_to_bytes(vec![Ternary::Negative, Ternary::Neutral, Ternary::Positive]),
        vec![0u8, 128, 255]
    );
    assert!(trits_to_bytes(Vec::new()).is_empty());
}

#[test]
fn iterator_stays_exhausted() {
    let bytes = [7u8];
    let mut it = TritIterator::new(&bytes);
    assert_eq!(it.next(), Some(Ternary::Negative));
    assert_eq!(it.next(), None);
    assert_eq!(it.next(), None);
}
