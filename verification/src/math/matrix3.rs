//! The 3x3 matrix: submatrix extraction, minors, cofactors and the
//! determinant by cofactor expansion along row 0.

use super::matrix::adjugate::skip_at;
use super::matrix::adjugate::skip_idx;
use super::matrix2::Matrix2;
use super::matrix2::det2_spec;
use super::matrix2::mat2_bounded;
use super::scalar::FLOAT_EQ_EPS;
use super::scalar::SCALE;
use super::scalar::Scalar;
use super::scalar::bounded_raw;
use super::scalar::close_enough;
use super::scalar::in_i64;
use super::scalar::lemma_bounded_times_i64;
use super::scalar::round_div;
use super::scalar::round_div_i128;
use vstd::prelude::*;

verus! {

/// Entry `(i, j)` of a 3x3 matrix stored row-major as 9 raw values.
pub open spec fn ent3(v: Seq<int>, i: int, j: int) -> int {
    v[3 * i + j]
}

/// The 2x2 grid left over when row `row` and column `col` are deleted.
pub open spec fn sub3_spec(v: Seq<int>, row: int, col: int) -> Seq<int> {
    Seq::new(4, |n: int| ent3(v, skip_idx(n / 2, row), skip_idx(n % 2, col)))
}

/// Raw value of the minor of entry `(i, j)`.
pub open spec fn minor3_spec(v: Seq<int>, i: int, j: int) -> int {
    det2_spec(sub3_spec(v, i, j))
}

/// Raw value of the cofactor of entry `(i, j)`: the minor under the
/// checkerboard sign.
pub open spec fn cof3_spec(v: Seq<int>, i: int, j: int) -> int {
    if (i + j) % 2 == 0 {
        minor3_spec(v, i, j)
    } else {
        -minor3_spec(v, i, j)
    }
}

/// Raw value of the determinant: cofactor expansion along row 0, scaled back
/// by one rounded division.
pub open spec fn det3_spec(v: Seq<int>) -> int {
    round_div(
        ent3(v, 0, 0) * cof3_spec(v, 0, 0) + ent3(v, 0, 1) * cof3_spec(v, 0, 1) + ent3(v, 0, 2)
            * cof3_spec(v, 0, 2),
        SCALE as int,
    )
}

/// All nine raw entries under the compound-operation cap.
pub open spec fn mat3_bounded(v: Seq<int>) -> bool {
    forall|k: int| 0 <= k < 9 ==> bounded_raw(#[trigger] v[k])
}

/// The machine limits the determinant expansion relies on: the row-0 minors,
/// cofactors and the determinant itself representable as raw values.
pub open spec fn det3_ready(v: Seq<int>) -> bool {
    &&& mat3_bounded(v)
    &&& in_i64(minor3_spec(v, 0, 0))
    &&& in_i64(minor3_spec(v, 0, 1))
    &&& in_i64(minor3_spec(v, 0, 2))
    &&& in_i64(cof3_spec(v, 0, 0))
    &&& in_i64(cof3_spec(v, 0, 1))
    &&& in_i64(cof3_spec(v, 0, 2))
    &&& in_i64(det3_spec(v))
}

/// A 3x3 matrix of scalars, stored row-major.
#[derive(Clone, Debug)]
pub struct Matrix3 {
    data: Vec<Scalar>,
}

impl View for Matrix3 {
    type V = Seq<int>;

    closed spec fn view(&self) -> Seq<int> {
        self.data@.map_values(|s: Scalar| s.raw as int)
    }
}

impl Matrix3 {
    pub open spec fn wf(&self) -> bool {
        self@.len() == 9
    }

    /// A matrix with every cell set to `fill_value`.
    pub fn create_and_fill(fill_value: Scalar) -> (r: Matrix3)
        ensures
            r.wf(),
            forall|k: int| 0 <= k < 9 ==> r@[k] == fill_value.raw,
    {
        let mut data: Vec<Scalar> = Vec::new();
        let mut k: usize = 0;
        while k < 9
            invariant
                k <= 9,
                data@.len() == k,
                forall|m: int| 0 <= m < k ==> data@[m] == fill_value,
            decreases 9 - k,
        {
            data.push(fill_value);
            k = k + 1;
        }
        Matrix3 { data }
    }

    /// The all-zero matrix.
    pub fn zeros() -> (r: Matrix3)
        ensures
            r.wf(),
            forall|k: int| 0 <= k < 9 ==> r@[k] == 0,
    {
        Matrix3::create_and_fill(Scalar::from_raw(0))
    }

    /// Cell `(row, col)`.
    pub fn at(&self, row: usize, col: usize) -> (r: Scalar)
        requires
            self.wf(),
            row < 3,
            col < 3,
        ensures
            r.raw == self@[3 * row + col],
    {
        self.data[3 * row + col]
    }

    /// Overwrite cell `(row, col)`.
    pub fn set(&mut self, row: usize, col: usize, val: Scalar)
        requires
            old(self).wf(),
            row < 3,
            col < 3,
        ensures
            final(self).wf(),
            final(self)@ == old(self)@.update(3 * row + col, val.raw as int),
    {
        self.data.set(3 * row + col, val);
        proof {
            assert(self@ =~= old(self)@.update(3 * row + col, val.raw as int));
        }
    }

    /// The 2x2 matrix left by deleting row `row` and column `col`, remaining
    /// cells compacted in their original relative order.
    pub fn submatrix(&self, row: usize, col: usize) -> (r: Matrix2)
        requires
            self.wf(),
            row < 3,
            col < 3,
        ensures
            r.wf(),
            r@ == sub3_spec(self@, row as int, col as int),
    {
        let mut sub = Matrix2::zeros();
        let mut ni: usize = 0;
        while ni < 2
            invariant
                self.wf(),
                row < 3,
                col < 3,
                ni <= 2,
                sub.wf(),
                forall|n: int|
                    0 <= n < 2 * ni ==> #[trigger] sub@[n] == ent3(
                        self@,
                        skip_idx(n / 2, row as int),
                        skip_idx(n % 2, col as int),
                    ),
            decreases 2 - ni,
        {
            let mut nj: usize = 0;
            while nj < 2
                invariant
                    self.wf(),
                    row < 3,
                    col < 3,
                    ni < 2,
                    nj <= 2,
                    sub.wf(),
                    forall|n: int|
                        0 <= n < 2 * ni + nj ==> #[trigger] sub@[n] == ent3(
                            self@,
                            skip_idx(n / 2, row as int),
                            skip_idx(n % 2, col as int),
                        ),
                decreases 2 - nj,
            {
                let val = self.at(skip_at(ni, row), skip_at(nj, col));
                sub.set(ni, nj, val);
                nj = nj + 1;
            }
            ni = ni + 1;
        }
        proof {
            assert(sub@ =~= sub3_spec(self@, row as int, col as int));
        }
        sub
    }

    /// The determinant of the submatrix at `(row, col)`.
    pub fn minor(&self, row: usize, col: usize) -> (r: Scalar)
        requires
            self.wf(),
            row < 3,
            col < 3,
            mat3_bounded(self@),
            in_i64(minor3_spec(self@, row as int, col as int)),
        ensures
            r.raw == minor3_spec(self@, row as int, col as int),
    {
        let sub = self.submatrix(row, col);
        proof {
            assert forall|k: int| 0 <= k < 4 implies bounded_raw(#[trigger] sub@[k]) by {
                assert(sub@[k] == ent3(
                    self@,
                    skip_idx(k / 2, row as int),
                    skip_idx(k % 2, col as int),
                ));
            }
        }
        sub.determinant()
    }

    /// The minor under the checkerboard sign.
    pub fn cofactor(&self, row: usize, col: usize) -> (r: Scalar)
        requires
            self.wf(),
            row < 3,
            col < 3,
            mat3_bounded(self@),
            in_i64(minor3_spec(self@, row as int, col as int)),
            in_i64(cof3_spec(self@, row as int, col as int)),
        ensures
            r.raw == cof3_spec(self@, row as int, col as int),
    {
        let minor = self.minor(row, col);
        if (row + col) % 2 != 0 {
            return minor.neg();
        }
        minor
    }

    /// The determinant: cofactor expansion along row 0.
    pub fn determinant(&self) -> (r: Scalar)
        requires
            self.wf(),
            det3_ready(self@),
        ensures
            r.raw == det3_spec(self@),
    {
        let c0 = self.cofactor(0, 0);
        let c1 = self.cofactor(0, 1);
        let c2 = self.cofactor(0, 2);
        let a0 = self.at(0, 0);
        let a1 = self.at(0, 1);
        let a2 = self.at(0, 2);
        proof {
            lemma_bounded_times_i64(a0.raw as int, c0.raw as int);
            lemma_bounded_times_i64(a1.raw as int, c1.raw as int);
            lemma_bounded_times_i64(a2.raw as int, c2.raw as int);
        }
        let n: i128 = a0.raw as i128 * c0.raw as i128 + a1.raw as i128 * c1.raw as i128
            + a2.raw as i128 * c2.raw as i128;
        let q = round_div_i128(n, SCALE as i128);
        Scalar { raw: q as i64 }
    }
}

impl PartialEq for Matrix3 {
    /// Cell-wise tolerance equality.
    fn eq(&self, other: &Self) -> (r: bool) {
        if self.data.len() != other.data.len() {
            return false;
        }
        let mut k: usize = 0;
        while k < self.data.len()
            invariant
                self@.len() == other@.len(),
                k <= self@.len(),
                forall|m: int|
                    0 <= m < k ==> close_enough(self@[m], other@[m], FLOAT_EQ_EPS as int),
            decreases self@.len() - k,
        {
            let d: i128 = self.data[k].raw as i128 - other.data[k].raw as i128;
            let e: i128 = FLOAT_EQ_EPS as i128;
            if !(d < e && -d < e) {
                proof {
                    assert(!close_enough(self@[k as int], other@[k as int], FLOAT_EQ_EPS as int));
                }
                return false;
            }
            k = k + 1;
        }
        true
    }
}

impl vstd::std_specs::cmp::PartialEqSpecImpl for Matrix3 {
    open spec fn obeys_eq_spec() -> bool {
        true
    }

    open spec fn eq_spec(&self, other: &Matrix3) -> bool {
        &&& self@.len() == other@.len()
        &&& forall|k: int|
            0 <= k < self@.len() ==> close_enough(
                #[trigger] self@[k],
                other@[k],
                FLOAT_EQ_EPS as int,
            )
    }
}

} // verus!
