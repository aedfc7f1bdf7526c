use ternary_types::Ternary::{Negative, Neutral, Positive};
use ternary_types::{TernaryMatrix, TritVector};

#[test]
fn identity_matmul() {
    // 2x2 identity: [[+1, 0], [0, +1]]
    let mut eye = TernaryMatrix::new(2, 2);
    eye.set(0, 0, Positive);
    eye.set(1, 1, Positive);

    let mut a = TernaryMatrix::new(2, 2);
    a.set(0, 0, Positive);
    a.set(0, 1, Negative);
    a.set(1, 0, Neutral);
    a.set(1, 1, Positive);

    let b = a.matmul(&eye);
    assert_eq!(a, b);
}

#[test]
fn transpose_symmetry() {
    let mut m = TernaryMatrix::new(2, 3);
    m.set(0, 0, Positive);
    m.set(0, 1, Negative);
    m.set(1, 2, Positive);

    let t = m.transpose();
    assert_eq!(t.rows(), 3);
    assert_eq!(t.cols(), 2);
    assert_eq!(t.get(0, 0), Some(Positive));
    assert_eq!(t.get(1, 0), Some(Negative));
    assert_eq!(t.get(2, 1), Some(Positive));
}

#[test]
fn matvec_product() {
    let mut m = TernaryMatrix::new(2, 3);
    m.set(0, 0, Positive);
    m.set(0, 1, Negative);
    m.set(0, 2, Neutral);
    m.set(1, 0, Neutral);
    m.set(1, 1, Positive);
    m.set(1, 2, Negative);

    let v = TritVector::new(&[Positive, Neutral, Positive]);
    let result = m.matvec(&v);
    // row0: +1*+1 + -1*0 + 0*+1 = +1
    // row1: 0*+1 + +1*0 + -1*+1 = -1
    assert_eq!(result.as_slice(), &[Positive, Negative]);
}

// ---------------------------------------------------------------------------
// Further cases
// ---------------------------------------------------------------------------

#[test]
fn access_outside_is_ignored() {
    let mut m = TernaryMatrix::new(2, 2);
    assert_eq!(m.get(2, 0), None);
    assert_eq!(m.get(0, 2), None);
    m.set(5, 0, Positive);
    m.set(0, 5, Positive);
    assert_eq!(m.as_slice(), &[Neutral; 4]);
    assert!(m.row(2).is_none());
    assert!(m.col(2).is_none());
}

#[test]
fn rows_and_columns() {
    let m = TernaryMatrix::from_slice(2, 3, &[Positive, Negative, Neutral, Neutral, Positive, Negative]);
    assert_eq!(m.row(1).unwrap().as_slice(), &[Neutral, Positive, Negative]);
    assert_eq!(m.col(1).unwrap().as_slice(), &[Negative, Positive]);
    assert_eq!(m.get(1, 2), Some(Negative));
    assert_eq!(m.rows(), 2);
    assert_eq!(m.cols(), 3);
}

#[test]
fn matmul_values() {
    // [[+1, -1], [+1, +1]] * [[+1, +1], [-1, +1]] = [[2, 0], [0, 2]] ≡ [[-1, 0], [0, -1]]
    let a = TernaryMatrix::from_slice(2, 2, &[Positive, Negative, Positive, Positive]);
    let b = TernaryMatrix::from_slice(2, 2, &[Positive, Positive, Negative, Positive]);
    let p = a.matmul(&b);
    assert_eq!(p.as_slice(), &[Negative, Neutral, Neutral, Negative]);
    // non-square: 1x3 * 3x1
    let r = TernaryMatrix::from_slice(1, 3, &[Positive, Positive, Negative]);
    let c = TernaryMatrix::from_slice(3, 1, &[Negative, Positive, Negative]);
    let rc = r.matmul(&c);
    assert_eq!((rc.rows(), rc.cols()), (1, 1));
    assert_eq!(rc.get(0, 0), Some(Positive));
}

#[test]
fn matrix_laws() {
    let m = TernaryMatrix::from_slice(2, 3, &[Positive, Negative, Neutral, Neutral, Positive, Negative]);
    assert_eq!(m.transpose().transpose(), m);
    let mut eye3 = TernaryMatrix::new(3, 3);
    for i in 0..3 {
        eye3.set(i, i, Positive);
    }
    let mut eye2 = TernaryMatrix::new(2, 2);
    for i in 0..2 {
        eye2.set(i, i, Positive);
    }
    assert_eq!(m.matmul(&eye3), m);
    assert_eq!(eye2.matmul(&m), m);
}

#[test]
fn empty_matrices() {
    let m = TernaryMatrix::new(0, 3);
    let t = m.transpose();
    assert_eq!((t.rows(), t.cols()), (3, 0));
    assert!(t.as_slice().is_empty());
    let v = TritVector::zeros(3);
    assert!(m.matvec(&v).is_empty());
}
