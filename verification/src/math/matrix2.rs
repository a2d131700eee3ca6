//! The 2x2 matrix: the base case of the cofactor recursion.

use super::scalar::FLOAT_EQ_EPS;
use super::scalar::SCALE;
use super::scalar::Scalar;
use super::scalar::bounded_raw;
use super::scalar::close_enough;
use super::scalar::in_i64;
use super::scalar::lemma_i64_product_fits;
use super::scalar::round_div;
use super::scalar::round_div_i128;
use vstd::prelude::*;

verus! {

/// Raw value of the 2x2 determinant `ad - bc` of the row-major entries `v`,
/// scaled back to raw units by one rounded division.
pub open spec fn det2_spec(v: Seq<int>) -> int
    recommends
        v.len() == 4,
{
    round_div(v[0] * v[3] - v[1] * v[2], SCALE as int)
}

/// All four raw entries under the compound-operation cap.
pub open spec fn mat2_bounded(v: Seq<int>) -> bool {
    forall|k: int| 0 <= k < 4 ==> bounded_raw(#[trigger] v[k])
}

/// A 2x2 matrix of scalars, stored row-major.
#[derive(Clone, Debug)]
pub struct Matrix2 {
    data: Vec<Scalar>,
}

impl View for Matrix2 {
    type V = Seq<int>;

    closed spec fn view(&self) -> Seq<int> {
        self.data@.map_values(|s: Scalar| s.raw as int)
    }
}

impl Matrix2 {
    pub open spec fn wf(&self) -> bool {
        self@.len() == 4
    }

    /// A matrix with every cell set to `fill_value`.
    pub fn create_and_fill(fill_value: Scalar) -> (r: Matrix2)
        ensures
            r.wf(),
            forall|k: int| 0 <= k < 4 ==> r@[k] == fill_value.raw,
    {
        let mut data: Vec<Scalar> = Vec::new();
        data.push(fill_value);
        data.push(fill_value);
        data.push(fill_value);
        data.push(fill_value);
        Matrix2 { data }
    }

    /// The all-zero matrix.
    pub fn zeros() -> (r: Matrix2)
        ensures
            r.wf(),
            forall|k: int| 0 <= k < 4 ==> r@[k] == 0,
    {
        Matrix2::create_and_fill(Scalar::from_raw(0))
    }

    /// Cell `(row, col)`.
    pub fn at(&self, row: usize, col: usize) -> (r: Scalar)
        requires
            self.wf(),
            row < 2,
            col < 2,
        ensures
            r.raw == self@[2 * row + col],
    {
        self.data[2 * row + col]
    }

    /// Overwrite cell `(row, col)`.
    pub fn set(&mut self, row: usize, col: usize, val: Scalar)
        requires
            old(self).wf(),
            row < 2,
            col < 2,
        ensures
            final(self).wf(),
            final(self)@ == old(self)@.update(2 * row + col, val.raw as int),
    {
        self.data.set(2 * row + col, val);
        proof {
            assert(self@ =~= old(self)@.update(2 * row + col, val.raw as int));
        }
    }

    /// The determinant `ad - bc`.
    pub fn determinant(&self) -> (r: Scalar)
        requires
            self.wf(),
            mat2_bounded(self@),
            in_i64(det2_spec(self@)),
        ensures
            r.raw == det2_spec(self@),
    {
        let a = self.at(0, 0);
        let b = self.at(0, 1);
        let c = self.at(1, 0);
        let d = self.at(1, 1);
        proof {
            lemma_i64_product_fits(a.raw as int, d.raw as int);
            lemma_i64_product_fits(b.raw as int, c.raw as int);
            super::scalar::lemma_bounded_product(a.raw as int, d.raw as int);
            super::scalar::lemma_bounded_product(b.raw as int, c.raw as int);
        }
        let n: i128 = a.raw as i128 * d.raw as i128 - b.raw as i128 * c.raw as i128;
        let q = round_div_i128(n, SCALE as i128);
        Scalar { raw: q as i64 }
    }
}

impl PartialEq for Matrix2 {
    /// Cell-wise tolerance equality.
    fn eq(&self, other: &Self) -> (r: bool) {
        if self.data.len() != other.data.len() {
            return false;
        }
        let mut k: usize = 0;
        while k < self.data.len()
            invariant
                self@.len() == other@.len(),
                k <= self@.len(),
                forall|m: int|
                    0 <= m < k ==> close_enough(self@[m], other@[m], FLOAT_EQ_EPS as int),
            decreases self@.len() - k,
        {
            let d: i128 = self.data[k].raw as i128 - other.data[k].raw as i128;
            let e: i128 = FLOAT_EQ_EPS as i128;
            if !(d < e && -d < e) {
                proof {
                    assert(!close_enough(self@[k as int], other@[k as int], FLOAT_EQ_EPS as int));
                }
                return false;
            }
            k = k + 1;
        }
        true
    }
}

impl vstd::std_specs::cmp::PartialEqSpecImpl for Matrix2 {
    open spec fn obeys_eq_spec() -> bool {
        true
    }

    open spec fn eq_spec(&self, other: &Matrix2) -> bool {
        &&& self@.len() == other@.len()
        &&& forall|k: int|
            0 <= k < self@.len() ==> close_enough(
                #[trigger] self@[k],
                other@[k],
                FLOAT_EQ_EPS as int,
            )
    }
}

} // verus!
