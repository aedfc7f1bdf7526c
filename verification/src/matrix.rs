//! A 2D matrix of trits with basic operations.

use crate::ternary::Ternary;
use crate::trit_vector::{dot_spec, dot_sum, zip_len, TritVector};
use vstd::prelude::*;

verus! {

/// A 2D matrix of trits stored in row-major order.
///
/// Its view is `(rows, cols, entries)`, the entries listed row after row.
#[derive(Debug, PartialEq, Eq)]
pub struct TernaryMatrix {
    rows: usize,
    cols: usize,
    data: Vec<Ternary>,
}

impl View for TernaryMatrix {
    type V = (nat, nat, Seq<Ternary>);

    closed spec fn view(&self) -> (nat, nat, Seq<Ternary>) {
        (self.rows as nat, self.cols as nat, self.data@)
    }
}

impl Clone for TernaryMatrix {
    /// A copy with the same shape and entries.
    fn clone(&self) -> (r: Self)
        ensures
            r@ == self@,
    {
        proof {
            use_type_invariant(self);
        }
        TernaryMatrix {
            rows: self.rows,
            cols: self.cols,
            data: vstd::slice::slice_to_vec(self.data.as_slice()),
        }
    }
}

/// The position of entry `(r, c)` in the row-major list of a matrix with `cols` columns.
pub open spec fn flat_index(r: int, c: int, cols: int) -> int {
    r * cols + c
}

impl TernaryMatrix {
    /// The number of rows.
    pub open spec fn nrows(&self) -> nat {
        self@.0
    }

    /// The number of columns.
    pub open spec fn ncols(&self) -> nat {
        self@.1
    }

    /// The entries, row after row.
    pub open spec fn entries(&self) -> Seq<Ternary> {
        self@.2
    }

    /// The entries number exactly `rows * cols`, which fits in a `usize`.
    ///
    /// This is the type's invariant: every matrix value satisfies it.
    #[verifier::type_invariant]
    pub open spec fn well_formed(&self) -> bool {
        &&& self.entries().len() == self.nrows() * self.ncols()
        &&& self.nrows() * self.ncols() <= usize::MAX
    }

    /// The entry at row `r`, column `c`.
    pub open spec fn entry(&self, r: int, c: int) -> Ternary {
        self.entries()[flat_index(r, c, self.ncols() as int)]
    }

    /// Row `r`, left to right.
    pub open spec fn row_spec(&self, r: int) -> Seq<Ternary> {
        Seq::new(self.ncols(), |c: int| self.entry(r, c))
    }

    /// Column `c`, top to bottom.
    pub open spec fn col_spec(&self, c: int) -> Seq<Ternary> {
        Seq::new(self.nrows(), |r: int| self.entry(r, c))
    }
}

/// `p` is the product of `a` and `b`: entry `(i, j)` is the dot product of
/// row `i` of `a` with column `j` of `b`.
pub open spec fn is_product(a: TernaryMatrix, b: TernaryMatrix, p: TernaryMatrix) -> bool {
    &&& p.well_formed()
    &&& p.nrows() == a.nrows()
    &&& p.ncols() == b.ncols()
    &&& forall|i: int, j: int|
        0 <= i < p.nrows() && 0 <= j < p.ncols() ==> #[trigger] p.entry(i, j) == dot_spec(
            a.row_spec(i),
            b.col_spec(j),
        )
}

/// `t` is the transpose of `m`: its entry `(c, r)` is the entry `(r, c)` of `m`.
pub open spec fn is_transpose(m: TernaryMatrix, t: TernaryMatrix) -> bool {
    &&& t.well_formed()
    &&& t.nrows() == m.ncols()
    &&& t.ncols() == m.nrows()
    &&& forall|r: int, c: int|
        0 <= r < m.nrows() && 0 <= c < m.ncols() ==> #[trigger] t.entry(c, r) == m.entry(r, c)
}

/// A matrix with `rows * cols` entries all `Neutral`.
pub open spec fn neutral_entries(rows: nat, cols: nat) -> Seq<Ternary> {
    Seq::new(rows * cols, |i: int| Ternary::Neutral)
}

// ---------------------------------------------------------------------------
// Index arithmetic
// ---------------------------------------------------------------------------

/// The entries of row `r` sit in one block of the row-major list, inside it.
pub proof fn lemma_flat_index_bounds(r: int, c: int, rows: int, cols: int)
    requires
        0 <= r < rows,
        0 <= c < cols,
    ensures
        0 <= r * cols,
        0 <= flat_index(r, c, cols) < rows * cols,
        r * cols + cols <= rows * cols,
{
    assert(0 <= r * cols) by (nonlinear_arith)
        requires
            0 <= r,
            0 <= cols,
    ;
    assert(r * cols + cols <= rows * cols) by (nonlinear_arith)
        requires
            0 <= r < rows,
            0 <= cols,
    ;
}

/// Distinct positions of a matrix have distinct places in the row-major list.
pub proof fn lemma_flat_index_injective(r1: int, c1: int, r2: int, c2: int, cols: int)
    requires
        0 <= r1,
        0 <= r2,
        0 <= c1 < cols,
        0 <= c2 < cols,
        flat_index(r1, c1, cols) == flat_index(r2, c2, cols),
    ensures
        r1 == r2,
        c1 == c2,
{
    if r1 < r2 {
        assert(r1 * cols + cols <= r2 * cols) by (nonlinear_arith)
            requires
                0 <= r1 < r2,
                0 <= cols,
        ;
    } else if r2 < r1 {
        assert(r2 * cols + cols <= r1 * cols) by (nonlinear_arith)
            requires
                0 <= r2 < r1,
                0 <= cols,
        ;
    }
}

/// Every place of the row-major list is the place of one position.
pub proof fn lemma_flat_index_onto(k: int, rows: int, cols: int)
    requires
        0 <= k < rows * cols,
        0 <= rows,
        0 <= cols,
    ensures
        0 < cols,
        0 <= k / cols < rows,
        0 <= k % cols < cols,
        flat_index(k / cols, k % cols, cols) == k,
{
    if cols == 0 {
        assert(rows * cols == 0) by (nonlinear_arith)
            requires
                cols == 0,
        ;
    }
    vstd::arithmetic::div_mod::lemma_fundamental_div_mod(k, cols);
    vstd::arithmetic::div_mod::lemma_div_pos_is_pos(k, cols);
    vstd::arithmetic::div_mod::lemma_mod_pos_bound(k, cols);
    if k / cols >= rows {
        assert(k / cols * cols >= rows * cols) by (nonlinear_arith)
            requires
                k / cols >= rows,
                cols > 0,
        ;
    }
    vstd::arithmetic::mul::lemma_mul_is_commutative(cols, k / cols);
}

/// Two well-formed matrices of the same shape with the same entries are the same.
pub proof fn lemma_same_entries(a: TernaryMatrix, b: TernaryMatrix)
    requires
        a.well_formed(),
        b.well_formed(),
        a.nrows() == b.nrows(),
        a.ncols() == b.ncols(),
        forall|r: int, c: int|
            0 <= r < a.nrows() && 0 <= c < a.ncols() ==> #[trigger] a.entry(r, c) == b.entry(r, c),
    ensures
        a@ == b@,
{
    assert forall|k: int| 0 <= k < a.entries().len() implies a.entries()[k] == b.entries()[k] by {
        lemma_flat_index_onto(k, a.nrows() as int, a.ncols() as int);
        assert(a.entry(k / a.ncols() as int, k % a.ncols() as int) == b.entry(
            k / a.ncols() as int,
            k % a.ncols() as int,
        ));
    }
    assert(a.entries() =~= b.entries());
}

impl TernaryMatrix {
    /// Create a new matrix filled with `Neutral`.
    pub fn new(rows: usize, cols: usize) -> (r: Self)
        requires
            rows * cols <= usize::MAX,
        ensures
            r.well_formed(),
            r.nrows() == rows,
            r.ncols() == cols,
            r.entries() == neutral_entries(rows as nat, cols as nat),
    {
        let n: usize = rows * cols;
        let mut data: Vec<Ternary> = Vec::new();
        let mut i: usize = 0;
        while i < n
            invariant
                i <= n,
                data@ == Seq::new(i as nat, |k: int| Ternary::Neutral),
            decreases n - i,
        {
            data.push(Ternary::Neutral);
            i = i + 1;
            proof {
                assert(data@ =~= Seq::new(i as nat, |k: int| Ternary::Neutral));
            }
        }
        TernaryMatrix { rows, cols, data }
    }

    /// Create a matrix from a flat slice (row-major) of exactly `rows * cols` trits.
    pub fn from_slice(rows: usize, cols: usize, data: &[Ternary]) -> (r: Self)
        requires
            data@.len() == rows * cols,
        ensures
            r.well_formed(),
            r.nrows() == rows,
            r.ncols() == cols,
            r.entries() == data@,
    {
        proof {
            assert(data.len() == rows * cols);
        }
        TernaryMatrix { rows, cols, data: vstd::slice::slice_to_vec(data) }
    }

    /// Number of rows.
    pub fn rows(&self) -> (r: usize)
        ensures
            r == self.nrows(),
    {
        self.rows
    }

    /// Number of columns.
    pub fn cols(&self) -> (r: usize)
        ensures
            r == self.ncols(),
    {
        self.cols
    }

    /// Get the trit at position `(r, c)`, or `None` outside the matrix.
    pub fn get(&self, r: usize, c: usize) -> (res: Option<Ternary>)
        ensures
            res == if r < self.nrows() && c < self.ncols() {
                Some(self.entry(r as int, c as int))
            } else {
                None::<Ternary>
            },
    {
        proof {
            use_type_invariant(self);
        }
        if r >= self.rows || c >= self.cols {
            return None;
        }
        proof {
            lemma_flat_index_bounds(r as int, c as int, self.rows as int, self.cols as int);
        }
        let idx = r * self.cols + c;
        Some(self.data[idx])
    }

    /// Set the trit at position `(r, c)`; outside the matrix nothing changes.
    pub fn set(&mut self, r: usize, c: usize, t: Ternary)
        ensures
            final(self).well_formed(),
            final(self).nrows() == old(self).nrows(),
            final(self).ncols() == old(self).ncols(),
            final(self).entries() == if r < old(self).nrows() && c < old(self).ncols() {
                old(self).entries().update(flat_index(r as int, c as int, old(self).ncols() as int), t)
            } else {
                old(self).entries()
            },
            forall|i: int, j: int|
                0 <= i < old(self).nrows() && 0 <= j < old(self).ncols()
                    ==> #[trigger] final(self).entry(i, j) == if i == r && j == c {
                    t
                } else {
                    old(self).entry(i, j)
                },
    {
        proof {
            use_type_invariant(&*self);
        }
        if r < self.rows && c < self.cols {
            proof {
                lemma_flat_index_bounds(r as int, c as int, self.rows as int, self.cols as int);
            }
            let idx = r * self.cols + c;
            // Take the matrix out, leaving an empty one, so that the invariant holds
            // at every step while the entries change.
            let mut taken = TernaryMatrix { rows: 0, cols: 0, data: Vec::new() };
            core::mem::swap(self, &mut taken);
            let TernaryMatrix { rows, cols, mut data } = taken;
            data.set(idx, t);
            *self = TernaryMatrix { rows, cols, data };
            proof {
                assert forall|i: int, j: int|
                    0 <= i < old(self).nrows() && 0 <= j < old(self).ncols() implies #[trigger] self.entry(
                        i,
                        j,
                    ) == if i == r && j == c {
                        t
                    } else {
                        old(self).entry(i, j)
                    } by {
                    lemma_flat_index_bounds(i, j, self.rows as int, self.cols as int);
                    if flat_index(i, j, self.cols as int) == idx {
                        lemma_flat_index_injective(i, j, r as int, c as int, self.cols as int);
                    }
                }
            }
        }
    }

    /// Get row `r` as a `TritVector`, or `None` past the last row.
    pub fn row(&self, r: usize) -> (res: Option<TritVector>)
        ensures
            r < self.nrows() ==> res is Some && res->0@ == self.row_spec(r as int),
            r >= self.nrows() ==> res is None,
    {
        proof {
            use_type_invariant(self);
        }
        if r >= self.rows {
            return None;
        }
        proof {
            if self.cols > 0 {
                lemma_flat_index_bounds(r as int, 0, self.rows as int, self.cols as int);
            } else {
                assert(r * self.cols == 0) by (nonlinear_arith)
                    requires
                        self.cols == 0,
                ;
            }
        }
        let start = r * self.cols;
        let slice = vstd::slice::slice_subrange(self.data.as_slice(), start, start + self.cols);
        let v = TritVector::new(slice);
        proof {
            assert(v@ =~= self.row_spec(r as int));
        }
        Some(v)
    }

    /// Get column `c` as a `TritVector`, or `None` past the last column.
    pub fn col(&self, c: usize) -> (res: Option<TritVector>)
        ensures
            c < self.ncols() ==> res is Some && res->0@ == self.col_spec(c as int),
            c >= self.ncols() ==> res is None,
    {
        proof {
            use_type_invariant(self);
        }
        if c >= self.cols {
            return None;
        }
        let mut col_data: Vec<Ternary> = Vec::new();
        let mut r: usize = 0;
        while r < self.rows
            invariant
                self.well_formed(),
                c < self.ncols(),
                r <= self.nrows(),
                col_data@.len() == r,
                forall|k: int| 0 <= k < r ==> #[trigger] col_data@[k] == self.entry(k, c as int),
            decreases self.rows - r,
        {
            proof {
                lemma_flat_index_bounds(r as int, c as int, self.rows as int, self.cols as int);
            }
            col_data.push(self.data[r * self.cols + c]);
            r = r + 1;
        }
        let v = TritVector::new(col_data.as_slice());
        proof {
            assert(v@ =~= self.col_spec(c as int));
        }
        Some(v)
    }

    /// Matrix-matrix multiplication (mod 3).
    ///
    /// `C[i][j] = dot(A.row(i), B.col(j))`
    pub fn matmul(&self, other: &TernaryMatrix) -> (res: Self)
        requires
            self.ncols() == other.nrows(),
            self.nrows() * other.ncols() <= usize::MAX,
        ensures
            is_product(*self, *other, res),
    {
        proof {
            use_type_invariant(self);
            use_type_invariant(other);
        }
        let mut result = TernaryMatrix::new(self.rows, other.cols);
        let mut i: usize = 0;
        while i < self.rows
            invariant
                self.well_formed(),
                other.well_formed(),
                result.well_formed(),
                result.nrows() == self.nrows(),
                result.ncols() == other.ncols(),
                i <= self.nrows(),
                forall|a: int, b: int|
                    0 <= a < i && 0 <= b < other.ncols() ==> #[trigger] result.entry(a, b)
                        == dot_spec(self.row_spec(a), other.col_spec(b)),
            decreases self.rows - i,
        {
            let mut j: usize = 0;
            while j < other.cols
                invariant
                    self.well_formed(),
                    other.well_formed(),
                    result.well_formed(),
                    result.nrows() == self.nrows(),
                    result.ncols() == other.ncols(),
                    i < self.nrows(),
                    j <= other.ncols(),
                    forall|a: int, b: int|
                        0 <= a < result.nrows() && 0 <= b < result.ncols() && (a < i || (a == i
                            && b < j)) ==> #[trigger] result.entry(a, b) == dot_spec(
                            self.row_spec(a),
                            other.col_spec(b),
                        ),
                decreases other.cols - j,
            {
                let a_row = self.row(i).unwrap();
                let b_col = other.col(j).unwrap();
                let d = a_row.dot(&b_col);
                result.set(i, j, d);
                j = j + 1;
            }
            i = i + 1;
        }
        result
    }

    /// Matrix-vector multiplication: entry `i` is the dot product of row `i` with `vec`.
    pub fn matvec(&self, vec: &TritVector) -> (res: TritVector)
        requires
            self.ncols() == vec@.len(),
        ensures
            res@ == Seq::new(self.nrows(), |i: int| dot_spec(self.row_spec(i), vec@)),
    {
        proof {
            use_type_invariant(self);
        }
        let mut result: Vec<Ternary> = Vec::new();
        let mut i: usize = 0;
        while i < self.rows
            invariant
                self.well_formed(),
                i <= self.nrows(),
                result@.len() == i,
                forall|k: int| 0 <= k < i ==> #[trigger] result@[k] == dot_spec(self.row_spec(k), vec@),
            decreases self.rows - i,
        {
            let row = self.row(i).unwrap();
            result.push(row.dot(vec));
            i = i + 1;
        }
        let v = TritVector::new(result.as_slice());
        proof {
            assert(v@ =~= Seq::new(self.nrows(), |i: int| dot_spec(self.row_spec(i), vec@)));
        }
        v
    }

    /// Transpose the matrix.
    pub fn transpose(&self) -> (res: Self)
        ensures
            is_transpose(*self, res),
    {
        proof {
            use_type_invariant(self);
        }
        proof {
            vstd::arithmetic::mul::lemma_mul_is_commutative(self.rows as int, self.cols as int);
        }
        let mut result = TernaryMatrix::new(self.cols, self.rows);
        let mut r: usize = 0;
        while r < self.rows
            invariant
                self.well_formed(),
                result.well_formed(),
                result.nrows() == self.ncols(),
                result.ncols() == self.nrows(),
                r <= self.nrows(),
                forall|a: int, b: int|
                    0 <= a < r && 0 <= b < self.ncols() ==> #[trigger] result.entry(b, a)
                        == self.entry(a, b),
            decreases self.rows - r,
        {
            let mut c: usize = 0;
            while c < self.cols
                invariant
                    self.well_formed(),
                    result.well_formed(),
                    result.nrows() == self.ncols(),
                    result.ncols() == self.nrows(),
                    r < self.nrows(),
                    c <= self.ncols(),
                    forall|a: int, b: int|
                        0 <= a < self.nrows() && 0 <= b < self.ncols() && (a < r || (a == r && b
                            < c)) ==> #[trigger] result.entry(b, a) == self.entry(a, b),
                decreases self.cols - c,
            {
                let t = self.get(r, c).unwrap();
                result.set(c, r, t);
                c = c + 1;
            }
            r = r + 1;
        }
        result
    }

    /// The raw underlying data slice, row after row.
    pub fn as_slice(&self) -> (res: &[Ternary])
        ensures
            res@ == self.entries(),
    {
        self.data.as_slice()
    }
}

} // verus!

verus! {

// ---------------------------------------------------------------------------
// Laws of transposition and multiplication
// ---------------------------------------------------------------------------

/// Transposing twice gives the matrix back.
pub proof fn law_transpose_involutive(m: TernaryMatrix, t: TernaryMatrix, tt: TernaryMatrix)
    requires
        m.well_formed(),
        is_transpose(m, t),
        is_transpose(t, tt),
    ensures
        tt@ == m@,
{
    assert forall|r: int, c: int| 0 <= r < m.nrows() && 0 <= c < m.ncols() implies #[trigger] tt.entry(
        r,
        c,
    ) == m.entry(r, c) by {
        assert(t.entry(c, r) == m.entry(r, c));
        assert(tt.entry(r, c) == t.entry(c, r));
    }
    lemma_same_entries(tt, m);
}

/// `e` is the `n × n` identity matrix: `Positive` on the diagonal, `Neutral` elsewhere.
pub open spec fn is_identity(e: TernaryMatrix, n: nat) -> bool {
    &&& e.well_formed()
    &&& e.nrows() == n
    &&& e.ncols() == n
    &&& forall|i: int, j: int|
        0 <= i < n && 0 <= j < n ==> #[trigger] e.entry(i, j) == if i == j {
            Ternary::Positive
        } else {
            Ternary::Neutral
        }
}

/// The dot product against a unit vector (`Positive` at `j`, `Neutral` elsewhere)
/// picks out the value at `j`.
proof fn lemma_dot_sum_unit(a: Seq<Ternary>, u: Seq<Ternary>, j: int, n: nat)
    requires
        n <= a.len(),
        n <= u.len(),
        0 <= j,
        forall|k: int| 0 <= k < u.len() ==> #[trigger] u[k] == if k == j {
            Ternary::Positive
        } else {
            Ternary::Neutral
        },
    ensures
        dot_sum(a, u, n) == if j < n {
            a[j].value()
        } else {
            0
        },
    decreases n,
{
    if n > 0 {
        lemma_dot_sum_unit(a, u, j, (n - 1) as nat);
        let k = n - 1;
        assert(u[k] == if k == j {
            Ternary::Positive
        } else {
            Ternary::Neutral
        });
    }
}

/// Multiplying by the identity on the right gives the matrix back.
pub proof fn law_matmul_identity_right(a: TernaryMatrix, e: TernaryMatrix, p: TernaryMatrix)
    requires
        a.well_formed(),
        is_identity(e, a.ncols()),
        is_product(a, e, p),
    ensures
        p@ == a@,
{
    assert forall|i: int, j: int| 0 <= i < a.nrows() && 0 <= j < a.ncols() implies #[trigger] p.entry(
        i,
        j,
    ) == a.entry(i, j) by {
        let row = a.row_spec(i);
        let col = e.col_spec(j);
        assert forall|k: int| 0 <= k < col.len() implies #[trigger] col[k] == if k == j {
            Ternary::Positive
        } else {
            Ternary::Neutral
        } by {
            assert(col[k] == e.entry(k, j));
        }
        lemma_dot_sum_unit(row, col, j, zip_len(row, col));
        crate::algebra::lemma_value_bounds(a.entry(i, j));
        crate::algebra::lemma_balanced_range(a.entry(i, j).value());
        assert(p.entry(i, j) == dot_spec(row, col));
    }
    lemma_same_entries(p, a);
}

/// Multiplying by the identity on the left gives the matrix back.
pub proof fn law_matmul_identity_left(e: TernaryMatrix, a: TernaryMatrix, p: TernaryMatrix)
    requires
        a.well_formed(),
        is_identity(e, a.nrows()),
        is_product(e, a, p),
    ensures
        p@ == a@,
{
    assert forall|i: int, j: int| 0 <= i < a.nrows() && 0 <= j < a.ncols() implies #[trigger] p.entry(
        i,
        j,
    ) == a.entry(i, j) by {
        let row = e.row_spec(i);
        let col = a.col_spec(j);
        assert forall|k: int| 0 <= k < row.len() implies #[trigger] row[k] == if k == i {
            Ternary::Positive
        } else {
            Ternary::Neutral
        } by {
            assert(row[k] == e.entry(i, k));
        }
        lemma_dot_sum_unit(col, row, i, zip_len(row, col));
        crate::trit_vector::lemma_dot_sum_symmetric(row, col, zip_len(row, col));
        crate::algebra::lemma_value_bounds(a.entry(i, j));
        crate::algebra::lemma_balanced_range(a.entry(i, j).value());
        assert(p.entry(i, j) == dot_spec(row, col));
    }
    lemma_same_entries(p, a);
}

} // verus!
