//! A heap-allocated vector of trits with arithmetic operations.

use crate::algebra::{lemma_balanced_add, lemma_balanced_range, lemma_value_of_trit_of};
use crate::packed::{packed_count, packs, PackedTrits};
use crate::ternary::{balanced, is_trit_value, trit_of, Ternary};
use vstd::prelude::*;
use vstd::std_specs::convert::FromSpecImpl;
use vstd::std_specs::ops::{AddSpec, MulSpec, NegSpec};

verus! {

/// The number of positions that two sequences share: the shorter length.
pub open spec fn zip_len(a: Seq<Ternary>, b: Seq<Ternary>) -> nat {
    if a.len() <= b.len() {
        a.len()
    } else {
        b.len()
    }
}

/// The integer sum of the products `a[i] * b[i]` over the first `n` positions.
pub open spec fn dot_sum(a: Seq<Ternary>, b: Seq<Ternary>, n: nat) -> int
    decreases n,
{
    if n == 0 {
        0
    } else {
        dot_sum(a, b, (n - 1) as nat) + a[n - 1].value() * b[n - 1].value()
    }
}

/// The dot product modulo 3 over the shared positions.
pub open spec fn dot_spec(a: Seq<Ternary>, b: Seq<Ternary>) -> Ternary {
    trit_of(balanced(dot_sum(a, b, zip_len(a, b))))
}

/// Element-wise sums over the shared positions.
pub open spec fn add_seq(a: Seq<Ternary>, b: Seq<Ternary>) -> Seq<Ternary> {
    Seq::new(zip_len(a, b), |i: int| a[i].add_spec(b[i]))
}

/// Element-wise products over the shared positions.
pub open spec fn mul_seq(a: Seq<Ternary>, b: Seq<Ternary>) -> Seq<Ternary> {
    Seq::new(zip_len(a, b), |i: int| a[i].mul_spec(b[i]))
}

/// Element-wise negations.
pub open spec fn neg_seq(s: Seq<Ternary>) -> Seq<Ternary> {
    Seq::new(s.len(), |i: int| s[i].neg_spec())
}

/// The number of nonzero trits among the first `n`.
pub open spec fn count_nonzero_upto(s: Seq<Ternary>, n: nat) -> nat
    decreases n,
{
    if n == 0 {
        0
    } else {
        count_nonzero_upto(s, (n - 1) as nat) + if s[n - 1] != Ternary::Neutral {
            1nat
        } else {
            0nat
        }
    }
}

/// The number of positions among the first `n` where the two sequences differ.
pub open spec fn count_diff_upto(a: Seq<Ternary>, b: Seq<Ternary>, n: nat) -> nat
    decreases n,
{
    if n == 0 {
        0
    } else {
        count_diff_upto(a, b, (n - 1) as nat) + if a[n - 1] != b[n - 1] {
            1nat
        } else {
            0nat
        }
    }
}

/// The Hamming distance over the shared positions.
pub open spec fn hamming_spec(a: Seq<Ternary>, b: Seq<Ternary>) -> nat {
    count_diff_upto(a, b, zip_len(a, b))
}

/// The values of the trits, as `i8`.
pub open spec fn values_i8(s: Seq<Ternary>) -> Seq<i8> {
    Seq::new(s.len(), |i: int| s[i].value() as i8)
}

/// The trits whose values are the given numbers.
pub open spec fn trits_of_values(v: Seq<i8>) -> Seq<Ternary> {
    Seq::new(v.len(), |i: int| trit_of(v[i] as int))
}

/// A heap-allocated vector of trits.
///
/// Provides arithmetic operations, dot products, and conversions.
#[derive(Debug, Clone, PartialEq, Eq)]
pub struct TritVector {
    data: Vec<Ternary>,
}

impl View for TritVector {
    type V = Seq<Ternary>;

    closed spec fn view(&self) -> Seq<Ternary> {
        self.data@
    }
}

impl TritVector {
    /// Create a new `TritVector` from a slice of `Ternary` values.
    pub fn new(trits: &[Ternary]) -> (r: Self)
        ensures
            r@ == trits@,
    {
        TritVector { data: vstd::slice::slice_to_vec(trits) }
    }

    /// Create a `TritVector` of length `len` filled with `Neutral`.
    pub fn zeros(len: usize) -> (r: Self)
        ensures
            r@ == Seq::new(len as nat, |i: int| Ternary::Neutral),
    {
        TritVector { data: filled(Ternary::Neutral, len) }
    }

    /// Create a `TritVector` of length `len` filled with `Positive`.
    pub fn ones(len: usize) -> (r: Self)
        ensures
            r@ == Seq::new(len as nat, |i: int| Ternary::Positive),
    {
        TritVector { data: filled(Ternary::Positive, len) }
    }

    /// The length of this vector.
    pub fn len(&self) -> (r: usize)
        ensures
            r == self@.len(),
    {
        self.data.len()
    }

    /// Is this vector empty?
    pub fn is_empty(&self) -> (r: bool)
        ensures
            r == (self@.len() == 0),
    {
        self.data.len() == 0
    }

    /// Get the trit at index `i`, or `None` past the end.
    pub fn get(&self, i: usize) -> (r: Option<Ternary>)
        ensures
            r == if i < self@.len() {
                Some(self@[i as int])
            } else {
                None::<Ternary>
            },
    {
        if i < self.data.len() {
            Some(self.data[i])
        } else {
            None
        }
    }

    /// Set the trit at index `i`; past the end nothing changes.
    pub fn set(&mut self, i: usize, t: Ternary)
        ensures
            final(self)@ == if i < old(self)@.len() {
                old(self)@.update(i as int, t)
            } else {
                old(self)@
            },
    {
        if i < self.data.len() {
            self.data.set(i, t);
        }
    }

    /// Return a reference to the underlying slice.
    pub fn as_slice(&self) -> (r: &[Ternary])
        ensures
            r@ == self@,
    {
        self.data.as_slice()
    }

    /// Convert to a `Vec<i8>` of the values.
    pub fn to_i8_vec(&self) -> (r: Vec<i8>)
        ensures
            r@ == values_i8(self@),
    {
        let mut out: Vec<i8> = Vec::new();
        let mut i: usize = 0;
        while i < self.data.len()
            invariant
                i <= self.data@.len(),
                out@ == values_i8(self@.take(i as int)),
            decreases self.data@.len() - i,
        {
            out.push(self.data[i].to_i8());
            i = i + 1;
            proof {
                assert(out@ =~= values_i8(self@.take(i as int)));
            }
        }
        proof {
            assert(self@.take(i as int) =~= self@);
        }
        out
    }

    /// Dot product of two `TritVector`s over their shared positions.
    ///
    /// Returns a `Ternary` (sum mod 3 via balanced addition).
    pub fn dot(&self, other: &TritVector) -> (r: Ternary)
        ensures
            r == dot_spec(self@, other@),
    {
        let n: usize = if self.data.len() <= other.data.len() {
            self.data.len()
        } else {
            other.data.len()
        };
        let mut sum = Ternary::Neutral;
        let mut i: usize = 0;
        while i < n
            invariant
                n == zip_len(self@, other@),
                n <= self.data@.len(),
                n <= other.data@.len(),
                i <= n,
                sum == trit_of(balanced(dot_sum(self@, other@, i as nat))),
            decreases n - i,
        {
            let prod = self.data[i] * other.data[i];
            let ghost before = dot_sum(self@, other@, i as nat);
            proof {
                lemma_balanced_range(before);
                lemma_value_of_trit_of(balanced(before));
                crate::algebra::law_mul_value(self@[i as int], other@[i as int]);
                lemma_balanced_add(before, prod.value());
            }
            sum = sum + prod;
            i = i + 1;
        }
        sum
    }

    /// Element-wise addition over the shared positions.
    pub fn add(&self, other: &TritVector) -> (r: Self)
        ensures
            r@ == add_seq(self@, other@),
    {
        let mut data: Vec<Ternary> = Vec::new();
        let mut i: usize = 0;
        while i < self.data.len() && i < other.data.len()
            invariant
                i <= self.data@.len(),
                i <= other.data@.len(),
                data@.len() == i,
                forall|j: int| 0 <= j < i ==> data@[j] == self@[j].add_spec(other@[j]),
            decreases self.data@.len() - i,
        {
            data.push(self.data[i] + other.data[i]);
            i = i + 1;
        }
        proof {
            assert(data@ =~= add_seq(self@, other@));
        }
        TritVector { data }
    }

    /// Element-wise multiplication over the shared positions.
    pub fn mul(&self, other: &TritVector) -> (r: Self)
        ensures
            r@ == mul_seq(self@, other@),
    {
        let mut data: Vec<Ternary> = Vec::new();
        let mut i: usize = 0;
        while i < self.data.len() && i < other.data.len()
            invariant
                i <= self.data@.len(),
                i <= other.data@.len(),
                data@.len() == i,
                forall|j: int| 0 <= j < i ==> data@[j] == self@[j].mul_spec(other@[j]),
            decreases self.data@.len() - i,
        {
            data.push(self.data[i] * other.data[i]);
            i = i + 1;
        }
        proof {
            assert(data@ =~= mul_seq(self@, other@));
        }
        TritVector { data }
    }

    /// Negate all elements.
    pub fn negate(&self) -> (r: Self)
        ensures
            r@ == neg_seq(self@),
    {
        let mut data: Vec<Ternary> = Vec::new();
        let mut i: usize = 0;
        while i < self.data.len()
            invariant
                i <= self.data@.len(),
                data@.len() == i,
                forall|j: int| 0 <= j < i ==> data@[j] == self@[j].neg_spec(),
            decreases self.data@.len() - i,
        {
            data.push(core::ops::Neg::neg(self.data[i]));
            i = i + 1;
        }
        proof {
            assert(data@ =~= neg_seq(self@));
        }
        TritVector { data }
    }

    /// Popcount of non-zero trits (L0 "norm").
    pub fn count_nonzero(&self) -> (r: usize)
        ensures
            r == count_nonzero_upto(self@, self@.len()),
    {
        let mut count: usize = 0;
        let mut i: usize = 0;
        while i < self.data.len()
            invariant
                i <= self.data@.len(),
                count == count_nonzero_upto(self@, i as nat),
                count <= i,
            decreases self.data@.len() - i,
        {
            if self.data[i].is_nonzero() {
                count = count + 1;
            }
            i = i + 1;
        }
        count
    }

    /// Hamming distance: number of shared positions where trits differ.
    pub fn hamming_distance(&self, other: &TritVector) -> (r: usize)
        ensures
            r == hamming_spec(self@, other@),
    {
        let n: usize = if self.data.len() <= other.data.len() {
            self.data.len()
        } else {
            other.data.len()
        };
        let mut count: usize = 0;
        let mut i: usize = 0;
        while i < n
            invariant
                n == zip_len(self@, other@),
                n <= self.data@.len(),
                n <= other.data@.len(),
                i <= n,
                count == count_diff_upto(self@, other@, i as nat),
                count <= i,
            decreases n - i,
        {
            if self.data[i] != other.data[i] {
                count = count + 1;
            }
            i = i + 1;
        }
        count
    }

    /// Pack this vector into a `PackedTrits` representation (its first 32 trits at most).
    pub fn pack(&self) -> (r: PackedTrits)
        ensures
            packs(r, self@),
            r.wf(),
            r.view() == self@.take(packed_count(self@.len()) as int),
    {
        PackedTrits::pack(self.data.as_slice())
    }

    /// Build a vector from numbers that are each `-1`, `0` or `1`.
    pub fn from_i8_vec(v: Vec<i8>) -> (r: Self)
        requires
            forall|i: int| 0 <= i < v@.len() ==> is_trit_value(#[trigger] v@[i] as int),
        ensures
            r@ == trits_of_values(v@),
    {
        let mut data: Vec<Ternary> = Vec::new();
        let mut i: usize = 0;
        while i < v.len()
            invariant
                i <= v@.len(),
                forall|j: int| 0 <= j < v@.len() ==> is_trit_value(#[trigger] v@[j] as int),
                data@.len() == i,
                forall|j: int| 0 <= j < i ==> data@[j] == trit_of(v@[j] as int),
            decreases v@.len() - i,
        {
            let t = Ternary::from_i8(v[i]);
            proof {
                assert(is_trit_value(v@[i as int] as int));
            }
            data.push(t);
            i = i + 1;
        }
        proof {
            assert(data@ =~= trits_of_values(v@));
        }
        TritVector { data }
    }
}

/// A vector of `len` copies of `t`.
fn filled(t: Ternary, len: usize) -> (r: Vec<Ternary>)
    ensures
        r@ == Seq::new(len as nat, |i: int| t),
{
    let mut data: Vec<Ternary> = Vec::new();
    let mut i: usize = 0;
    while i < len
        invariant
            i <= len,
            data@ == Seq::new(i as nat, |j: int| t),
        decreases len - i,
    {
        data.push(t);
        i = i + 1;
        proof {
            assert(data@ =~= Seq::new(i as nat, |j: int| t));
        }
    }
    data
}

impl FromSpecImpl<Vec<Ternary>> for TritVector {
    open spec fn obeys_from_spec() -> bool {
        true
    }

    closed spec fn from_spec(v: Vec<Ternary>) -> TritVector {
        TritVector { data: v }
    }
}

impl From<Vec<Ternary>> for TritVector {
    fn from(v: Vec<Ternary>) -> (r: Self)
        ensures
            r@ == v@,
    {
        TritVector { data: v }
    }
}

impl FromSpecImpl<TritVector> for Vec<Ternary> {
    open spec fn obeys_from_spec() -> bool {
        true
    }

    closed spec fn from_spec(v: TritVector) -> Vec<Ternary> {
        v.data
    }
}

impl From<TritVector> for Vec<Ternary> {
    fn from(v: TritVector) -> (r: Self)
        ensures
            r@ == v@,
    {
        v.data
    }
}

} // verus!

verus! {

// ---------------------------------------------------------------------------
// Laws of the vector operations
// ---------------------------------------------------------------------------

pub proof fn lemma_dot_sum_symmetric(a: Seq<Ternary>, b: Seq<Ternary>, n: nat)
    ensures
        dot_sum(a, b, n) == dot_sum(b, a, n),
    decreases n,
{
    if n > 0 {
        lemma_dot_sum_symmetric(a, b, (n - 1) as nat);
        vstd::arithmetic::mul::lemma_mul_is_commutative(a[n - 1].value(), b[n - 1].value());
    }
}

/// The dot product is symmetric.
pub proof fn law_dot_commutative(a: Seq<Ternary>, b: Seq<Ternary>)
    ensures
        dot_spec(a, b) == dot_spec(b, a),
{
    lemma_dot_sum_symmetric(a, b, zip_len(a, b));
}

/// Element-wise addition is commutative.
pub proof fn law_add_commutative(a: Seq<Ternary>, b: Seq<Ternary>)
    ensures
        add_seq(a, b) == add_seq(b, a),
{
    assert(add_seq(a, b) =~= add_seq(b, a));
}

/// Element-wise multiplication is commutative.
pub proof fn law_mul_commutative(a: Seq<Ternary>, b: Seq<Ternary>)
    ensures
        mul_seq(a, b) == mul_seq(b, a),
{
    assert(mul_seq(a, b) =~= mul_seq(b, a));
}

/// Negating twice gives the vector back.
pub proof fn law_negate_involutive(s: Seq<Ternary>)
    ensures
        neg_seq(neg_seq(s)) == s,
{
    assert(neg_seq(neg_seq(s)) =~= s);
}

/// A vector plus its negation is the zero vector of the same length.
pub proof fn law_add_negate_is_zero(s: Seq<Ternary>)
    ensures
        add_seq(s, neg_seq(s)) == Seq::new(s.len(), |i: int| Ternary::Neutral),
{
    assert(add_seq(s, neg_seq(s)) =~= Seq::new(s.len(), |i: int| Ternary::Neutral));
}

proof fn lemma_count_diff_symmetric(a: Seq<Ternary>, b: Seq<Ternary>, n: nat)
    ensures
        count_diff_upto(a, b, n) == count_diff_upto(b, a, n),
        count_diff_upto(a, b, n) <= n,
    decreases n,
{
    if n > 0 {
        lemma_count_diff_symmetric(a, b, (n - 1) as nat);
    }
}

proof fn lemma_count_diff_self(a: Seq<Ternary>, n: nat)
    ensures
        count_diff_upto(a, a, n) == 0,
    decreases n,
{
    if n > 0 {
        lemma_count_diff_self(a, (n - 1) as nat);
    }
}

/// The Hamming distance is symmetric, zero from a vector to itself, and at most
/// the number of shared positions.
pub proof fn law_hamming_metric(a: Seq<Ternary>, b: Seq<Ternary>)
    ensures
        hamming_spec(a, b) == hamming_spec(b, a),
        hamming_spec(a, a) == 0,
        hamming_spec(a, b) <= zip_len(a, b),
{
    lemma_count_diff_symmetric(a, b, zip_len(a, b));
    lemma_count_diff_self(a, a.len());
}

proof fn lemma_count_nonzero_is_diff_from_zero(s: Seq<Ternary>, n: nat)
    requires
        n <= s.len(),
    ensures
        count_nonzero_upto(s, n) == count_diff_upto(
            s,
            Seq::new(s.len(), |i: int| Ternary::Neutral),
            n,
        ),
        count_nonzero_upto(s, n) <= n,
    decreases n,
{
    if n > 0 {
        lemma_count_nonzero_is_diff_from_zero(s, (n - 1) as nat);
    }
}

/// The number of nonzero trits is the Hamming distance to the zero vector, and at
/// most the length.
pub proof fn law_count_nonzero_is_distance_to_zero(s: Seq<Ternary>)
    ensures
        count_nonzero_upto(s, s.len()) == hamming_spec(
            s,
            Seq::new(s.len(), |i: int| Ternary::Neutral),
        ),
        count_nonzero_upto(s, s.len()) <= s.len(),
{
    lemma_count_nonzero_is_diff_from_zero(s, s.len());
}

} // verus!

verus! {

proof fn lemma_dot_sum_prefix(a: Seq<Ternary>, b: Seq<Ternary>, c: Seq<Ternary>, d: Seq<Ternary>, n: nat)
    requires
        n <= a.len(),
        n <= b.len(),
        n <= c.len(),
        n <= d.len(),
        forall|i: int| 0 <= i < n ==> a[i] == c[i] && b[i] == d[i],
    ensures
        dot_sum(a, b, n) == dot_sum(c, d, n),
    decreases n,
{
    if n > 0 {
        lemma_dot_sum_prefix(a, b, c, d, (n - 1) as nat);
    }
}

/// The dot product of empty vectors is `Neutral`, and appending one position to
/// both vectors adds the product of the two new trits to it (modulo 3).
pub proof fn law_dot_accumulates(a: Seq<Ternary>, b: Seq<Ternary>, x: Ternary, y: Ternary)
    requires
        a.len() == b.len(),
    ensures
        dot_spec(Seq::<Ternary>::empty(), b) == Ternary::Neutral,
        dot_spec(a.push(x), b.push(y)) == dot_spec(a, b).add_spec(x.mul_spec(y)),
{
    let n = a.len();
    lemma_dot_sum_prefix(a.push(x), b.push(y), a, b, n);
    let s = dot_sum(a, b, n);
    crate::algebra::law_mul_value(x, y);
    lemma_balanced_range(s);
    lemma_value_of_trit_of(balanced(s));
    lemma_balanced_add(s, x.value() * y.value());
    assert(balanced(0) == 0);
}

} // verus!
