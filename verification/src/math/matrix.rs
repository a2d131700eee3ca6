//! The 4x4 matrix: indexed access, tolerance equality, multiplication with
//! matrices and tuples, transpose, submatrix extraction, minors, cofactors,
//! the determinant, and the adjugate-based inverse.

use super::matrix3::Matrix3;
use super::matrix3::det3_ready;
use super::matrix3::det3_spec;
use super::scalar::FLOAT_EQ_EPS;
use super::scalar::SCALE;
use super::scalar::Scalar;
use super::scalar::bounded_raw;
use super::scalar::close_enough;
use super::scalar::div_spec;
use super::scalar::in_i64;
use super::scalar::lemma_bounded_product;
use super::scalar::lemma_bounded_times_i64;
use super::scalar::lemma_round_div_exact;
use super::scalar::round_div;
use super::scalar::round_div_i128;
use super::tuple::Tuple4D;
use super::tuple::tup_bounded;
use vstd::prelude::*;

pub mod adjugate;
pub mod laws;

pub use adjugate::ent4;
pub use adjugate::exact_cof4;
pub use adjugate::exact_det3_at;
pub use adjugate::exact_det4;
pub use adjugate::exact_minor4;
pub use adjugate::lemma_adjugate_row;
pub use adjugate::skip_idx;

pub use laws::int_scaled;
pub use laws::lemma_mul_inverse_identity;
pub use laws::lemma_scaled_det4;

use adjugate::skip_at;

verus! {

/// The 3x3 grid left over when row `row` and column `col` are deleted.
pub open spec fn sub4_spec(v: Seq<int>, row: int, col: int) -> Seq<int> {
    Seq::new(9, |n: int| ent4(v, skip_idx(n / 3, row), skip_idx(n % 3, col)))
}

/// Raw value of the minor of entry `(i, j)`.
pub open spec fn minor4_spec(v: Seq<int>, i: int, j: int) -> int {
    det3_spec(sub4_spec(v, i, j))
}

/// Raw value of the cofactor of entry `(i, j)`: the minor under the
/// checkerboard sign.
pub open spec fn cof4_spec(v: Seq<int>, i: int, j: int) -> int {
    if (i + j) % 2 == 0 {
        minor4_spec(v, i, j)
    } else {
        -minor4_spec(v, i, j)
    }
}

/// Raw value of the determinant: cofactor expansion along row 0, scaled back
/// by one rounded division.
pub open spec fn det4_spec(v: Seq<int>) -> int {
    round_div(
        ent4(v, 0, 0) * cof4_spec(v, 0, 0) + ent4(v, 0, 1) * cof4_spec(v, 0, 1) + ent4(v, 0, 2)
            * cof4_spec(v, 0, 2) + ent4(v, 0, 3) * cof4_spec(v, 0, 3),
        SCALE as int,
    )
}

/// All sixteen raw entries under the compound-operation cap.
pub open spec fn mat4_bounded(v: Seq<int>) -> bool {
    forall|k: int| 0 <= k < 16 ==> bounded_raw(#[trigger] v[k])
}

/// The machine limits the determinant expansion relies on.
pub open spec fn det4_ready(v: Seq<int>) -> bool {
    &&& mat4_bounded(v)
    &&& forall|j: int|
        0 <= j < 4 ==> det3_ready(#[trigger] sub4_spec(v, 0, j)) && in_i64(cof4_spec(v, 0, j))
    &&& in_i64(det4_spec(v))
}

/// The machine limits the full inverse relies on: every cofactor
/// representable, and, when the determinant clears the singularity
/// tolerance, every quotient of a cofactor by the determinant too.
pub open spec fn inv_ready(v: Seq<int>) -> bool {
    &&& det4_ready(v)
    &&& forall|i: int, j: int|
        0 <= i < 4 && 0 <= j < 4 ==> det3_ready(#[trigger] sub4_spec(v, i, j)) && in_i64(
            cof4_spec(v, i, j),
        )
    &&& !close_enough(det4_spec(v), 0, FLOAT_EQ_EPS as int) ==> forall|i: int, j: int|
        0 <= i < 4 && 0 <= j < 4 ==> in_i64(
            div_spec(#[trigger] cof4_spec(v, i, j), det4_spec(v)),
        )
}

/// Raw entries of the identity matrix.
pub open spec fn eye4_spec() -> Seq<int> {
    Seq::new(
        16,
        |n: int|
            if n / 4 == n % 4 {
                SCALE as int
            } else {
                0
            },
    )
}

/// Raw value of entry `(i, j)` of a matrix product, scaled back by one
/// rounded division.
pub open spec fn mm4_spec(a: Seq<int>, b: Seq<int>, i: int, j: int) -> int {
    round_div(
        ent4(a, i, 0) * ent4(b, 0, j) + ent4(a, i, 1) * ent4(b, 1, j) + ent4(a, i, 2) * ent4(
            b,
            2,
            j,
        ) + ent4(a, i, 3) * ent4(b, 3, j),
        SCALE as int,
    )
}

/// Raw component `i` of a matrix applied to a tuple.
pub open spec fn mv4_spec(v: Seq<int>, t: Tuple4D, i: int) -> int {
    round_div(
        ent4(v, i, 0) * t.x.raw + ent4(v, i, 1) * t.y.raw + ent4(v, i, 2) * t.z.raw + ent4(v, i, 3)
            * t.w.raw,
        SCALE as int,
    )
}

/// Raw entries of the transpose: entry `(i, j)` holds entry `(j, i)` of the
/// original.
pub open spec fn transpose4_spec(v: Seq<int>) -> Seq<int> {
    Seq::new(16, |n: int| v[4 * (n % 4) + n / 4])
}

/// A 4x4 matrix of scalars, stored row-major.
#[derive(Clone, Debug)]
pub struct Matrix4 {
    data: Vec<Scalar>,
}

impl View for Matrix4 {
    type V = Seq<int>;

    closed spec fn view(&self) -> Seq<int> {
        self.data@.map_values(|s: Scalar| s.raw as int)
    }
}

impl Matrix4 {
    pub open spec fn wf(&self) -> bool {
        self@.len() == 16
    }

    /// A matrix with every cell set to `fill_value`.
    pub fn create_and_fill(fill_value: Scalar) -> (r: Matrix4)
        ensures
            r.wf(),
            forall|k: int| 0 <= k < 16 ==> r@[k] == fill_value.raw,
    {
        let mut data: Vec<Scalar> = Vec::new();
        let mut k: usize = 0;
        while k < 16
            invariant
                k <= 16,
                data@.len() == k,
                forall|m: int| 0 <= m < k ==> data@[m] == fill_value,
            decreases 16 - k,
        {
            data.push(fill_value);
            k = k + 1;
        }
        Matrix4 { data }
    }

    /// The all-zero matrix.
    pub fn zeros() -> (r: Matrix4)
        ensures
            r.wf(),
            forall|k: int| 0 <= k < 16 ==> r@[k] == 0,
    {
        Matrix4::create_and_fill(Scalar::from_raw(0))
    }

    /// The identity matrix.
    pub fn eye() -> (r: Matrix4)
        ensures
            r.wf(),
            r@ == eye4_spec(),
    {
        let mut mat = Matrix4::create_and_fill(Scalar::from_raw(0));
        mat.set(0, 0, Scalar { raw: SCALE });
        mat.set(1, 1, Scalar { raw: SCALE });
        mat.set(2, 2, Scalar { raw: SCALE });
        mat.set(3, 3, Scalar { raw: SCALE });
        proof {
            assert(mat@ =~= eye4_spec());
        }
        mat
    }

    /// Cell `(row, col)`.
    pub fn at(&self, row: usize, col: usize) -> (r: Scalar)
        requires
            self.wf(),
            row < 4,
            col < 4,
        ensures
            r.raw == self@[4 * row + col],
    {
        self.data[4 * row + col]
    }

    /// Overwrite cell `(row, col)`.
    pub fn set(&mut self, row: usize, col: usize, val: Scalar)
        requires
            old(self).wf(),
            row < 4,
            col < 4,
        ensures
            final(self).wf(),
            final(self)@ == old(self)@.update(4 * row + col, val.raw as int),
    {
        self.data.set(4 * row + col, val);
        proof {
            assert(self@ =~= old(self)@.update(4 * row + col, val.raw as int));
        }
    }

    /// The matrix product `self * rhs`.
    pub fn mul(&self, rhs: &Matrix4) -> (r: Matrix4)
        requires
            self.wf(),
            rhs.wf(),
            mat4_bounded(self@),
            mat4_bounded(rhs@),
            forall|i: int, j: int|
                0 <= i < 4 && 0 <= j < 4 ==> in_i64(#[trigger] mm4_spec(self@, rhs@, i, j)),
        ensures
            r.wf(),
            forall|i: int, j: int|
                0 <= i < 4 && 0 <= j < 4 ==> r@[4 * i + j] == mm4_spec(self@, rhs@, i, j),
    {
        let mut res = Matrix4::zeros();
        let mut i: usize = 0;
        while i < 4
            invariant
                self.wf(),
                rhs.wf(),
                mat4_bounded(self@),
                mat4_bounded(rhs@),
                forall|a: int, b: int|
                    0 <= a < 4 && 0 <= b < 4 ==> in_i64(#[trigger] mm4_spec(self@, rhs@, a, b)),
                i <= 4,
                res.wf(),
                forall|a: int, b: int|
                    0 <= a < i && 0 <= b < 4 ==> #[trigger] res@[4 * a + b] == mm4_spec(
                        self@,
                        rhs@,
                        a,
                        b,
                    ),
            decreases 4 - i,
        {
            let mut j: usize = 0;
            while j < 4
                invariant
                    self.wf(),
                    rhs.wf(),
                    mat4_bounded(self@),
                    mat4_bounded(rhs@),
                    forall|a: int, b: int|
                        0 <= a < 4 && 0 <= b < 4 ==> in_i64(#[trigger] mm4_spec(self@, rhs@, a, b)),
                    i < 4,
                    j <= 4,
                    res.wf(),
                    forall|a: int, b: int|
                        0 <= a < i && 0 <= b < 4 ==> #[trigger] res@[4 * a + b] == mm4_spec(
                            self@,
                            rhs@,
                            a,
                            b,
                        ),
                    forall|b: int|
                        0 <= b < j ==> #[trigger] res@[4 * i + b] == mm4_spec(
                            self@,
                            rhs@,
                            i as int,
                            b,
                        ),
                decreases 4 - j,
            {
                proof {
                    lemma_bounded_product(self@[4 * i as int + 0], rhs@[4 * 0 + j as int]);
                    lemma_bounded_product(self@[4 * i as int + 1], rhs@[4 * 1 + j as int]);
                    lemma_bounded_product(self@[4 * i as int + 2], rhs@[4 * 2 + j as int]);
                    lemma_bounded_product(self@[4 * i as int + 3], rhs@[4 * 3 + j as int]);
                }
                let n: i128 = self.at(i, 0).raw as i128 * rhs.at(0, j).raw as i128 + self.at(
                    i,
                    1,
                ).raw as i128 * rhs.at(1, j).raw as i128 + self.at(i, 2).raw as i128 * rhs.at(
                    2,
                    j,
                ).raw as i128 + self.at(i, 3).raw as i128 * rhs.at(3, j).raw as i128;
                let q = round_div_i128(n, SCALE as i128);
                res.set(i, j, Scalar { raw: q as i64 });
                j = j + 1;
            }
            i = i + 1;
        }
        res
    }

    /// The matrix applied to a tuple, the tuple taken as a 4-vector with its
    /// `w` slot.
    pub fn mul_tuple(&self, rhs: Tuple4D) -> (r: Tuple4D)
        requires
            self.wf(),
            mat4_bounded(self@),
            tup_bounded(rhs),
            forall|i: int| 0 <= i < 4 ==> in_i64(#[trigger] mv4_spec(self@, rhs, i)),
        ensures
            r.x.raw == mv4_spec(self@, rhs, 0),
            r.y.raw == mv4_spec(self@, rhs, 1),
            r.z.raw == mv4_spec(self@, rhs, 2),
            r.w.raw == mv4_spec(self@, rhs, 3),
    {
        let x = self.row_apply(0, rhs);
        let y = self.row_apply(1, rhs);
        let z = self.row_apply(2, rhs);
        let w = self.row_apply(3, rhs);
        Tuple4D { x, y, z, w }
    }

    /// One component of a matrix-tuple product.
    fn row_apply(&self, i: usize, rhs: Tuple4D) -> (r: Scalar)
        requires
            self.wf(),
            i < 4,
            mat4_bounded(self@),
            tup_bounded(rhs),
            in_i64(mv4_spec(self@, rhs, i as int)),
        ensures
            r.raw == mv4_spec(self@, rhs, i as int),
    {
        proof {
            lemma_bounded_product(self@[4 * i as int + 0], rhs.x.raw as int);
            lemma_bounded_product(self@[4 * i as int + 1], rhs.y.raw as int);
            lemma_bounded_product(self@[4 * i as int + 2], rhs.z.raw as int);
            lemma_bounded_product(self@[4 * i as int + 3], rhs.w.raw as int);
        }
        let n: i128 = self.at(i, 0).raw as i128 * rhs.x.raw as i128 + self.at(i, 1).raw as i128
            * rhs.y.raw as i128 + self.at(i, 2).raw as i128 * rhs.z.raw as i128 + self.at(
            i,
            3,
        ).raw as i128 * rhs.w.raw as i128;
        let q = round_div_i128(n, SCALE as i128);
        Scalar { raw: q as i64 }
    }

    /// The transpose: cell `(i, j)` holds the original's cell `(j, i)`.
    pub fn transpose(&self) -> (r: Matrix4)
        requires
            self.wf(),
        ensures
            r.wf(),
            r@ == transpose4_spec(self@),
    {
        let mut res = Matrix4::zeros();
        let mut i: usize = 0;
        while i < 4
            invariant
                self.wf(),
                i <= 4,
                res.wf(),
                forall|n: int|
                    0 <= n < 4 * i ==> #[trigger] res@[n] == self@[4 * (n % 4) + n / 4],
            decreases 4 - i,
        {
            let mut j: usize = 0;
            while j < 4
                invariant
                    self.wf(),
                    i < 4,
                    j <= 4,
                    res.wf(),
                    forall|n: int|
                        0 <= n < 4 * i + j ==> #[trigger] res@[n] == self@[4 * (n % 4) + n / 4],
                decreases 4 - j,
            {
                let val = self.at(j, i);
                res.set(i, j, val);
                j = j + 1;
            }
            i = i + 1;
        }
        proof {
            assert(res@ =~= transpose4_spec(self@));
        }
        res
    }

    /// The 3x3 matrix left by deleting row `row` and column `col`, remaining
    /// cells compacted in their original relative order.
    pub fn submatrix(&self, row: usize, col: usize) -> (r: Matrix3)
        requires
            self.wf(),
            row < 4,
            col < 4,
        ensures
            r.wf(),
            r@ == sub4_spec(self@, row as int, col as int),
    {
        let mut sub = Matrix3::zeros();
        let mut ni: usize = 0;
        while ni < 3
            invariant
                self.wf(),
                row < 4,
                col < 4,
                ni <= 3,
                sub.wf(),
                forall|n: int|
                    0 <= n < 3 * ni ==> #[trigger] sub@[n] == ent4(
                        self@,
                        skip_idx(n / 3, row as int),
                        skip_idx(n % 3, col as int),
                    ),
            decreases 3 - ni,
        {
            let mut nj: usize = 0;
            while nj < 3
                invariant
                    self.wf(),
                    row < 4,
                    col < 4,
                    ni < 3,
                    nj <= 3,
                    sub.wf(),
                    forall|n: int|
                        0 <= n < 3 * ni + nj ==> #[trigger] sub@[n] == ent4(
                            self@,
                            skip_idx(n / 3, row as int),
                            skip_idx(n % 3, col as int),
                        ),
                decreases 3 - nj,
            {
                let val = self.at(skip_at(ni, row), skip_at(nj, col));
                sub.set(ni, nj, val);
                nj = nj + 1;
            }
            ni = ni + 1;
        }
        proof {
            assert(sub@ =~= sub4_spec(self@, row as int, col as int));
        }
        sub
    }

    /// The determinant of the submatrix at `(row, col)`.
    pub fn minor(&self, row: usize, col: usize) -> (r: Scalar)
        requires
            self.wf(),
            row < 4,
            col < 4,
            det3_ready(sub4_spec(self@, row as int, col as int)),
        ensures
            r.raw == minor4_spec(self@, row as int, col as int),
    {
        let sub = self.submatrix(row, col);
        sub.determinant()
    }

    /// The minor under the checkerboard sign.
    pub fn cofactor(&self, row: usize, col: usize) -> (r: Scalar)
        requires
            self.wf(),
            row < 4,
            col < 4,
            det3_ready(sub4_spec(self@, row as int, col as int)),
            in_i64(cof4_spec(self@, row as int, col as int)),
        ensures
            r.raw == cof4_spec(self@, row as int, col as int),
    {
        let minor = self.minor(row, col);
        if (row + col) % 2 != 0 {
            return minor.neg();
        }
        minor
    }

    /// The determinant: cofactor expansion along row 0.
    pub fn determinant(&self) -> (r: Scalar)
        requires
            self.wf(),
            det4_ready(self@),
        ensures
            r.raw == det4_spec(self@),
    {
        let c0 = self.cofactor(0, 0);
        let c1 = self.cofactor(0, 1);
        let c2 = self.cofactor(0, 2);
        let c3 = self.cofactor(0, 3);
        let a0 = self.at(0, 0);
        let a1 = self.at(0, 1);
        let a2 = self.at(0, 2);
        let a3 = self.at(0, 3);
        proof {
            lemma_bounded_times_i64(a0.raw as int, c0.raw as int);
            lemma_bounded_times_i64(a1.raw as int, c1.raw as int);
            lemma_bounded_times_i64(a2.raw as int, c2.raw as int);
            lemma_bounded_times_i64(a3.raw as int, c3.raw as int);
        }
        let n: i128 = a0.raw as i128 * c0.raw as i128 + a1.raw as i128 * c1.raw as i128
            + a2.raw as i128 * c2.raw as i128 + a3.raw as i128 * c3.raw as i128;
        let q = round_div_i128(n, SCALE as i128);
        Scalar { raw: q as i64 }
    }

    /// The inverse by the adjugate rule: `None` when the determinant lies
    /// within tolerance of zero (the matrix counts as singular); otherwise
    /// cell `(j, i)` of the inverse is `cofactor(i, j) / determinant` — the
    /// transposed index assignment of the adjugate.
    pub fn inverse(&self) -> (r: Option<Matrix4>)
        requires
            self.wf(),
            inv_ready(self@),
        ensures
            close_enough(det4_spec(self@), 0, FLOAT_EQ_EPS as int) <==> r is None,
            r is Some ==> (r->Some_0).wf() && forall|i: int, j: int|
                0 <= i < 4 && 0 <= j < 4 ==> (r->Some_0)@[4 * j + i] == div_spec(
                    #[trigger] cof4_spec(self@, i, j),
                    det4_spec(self@),
                ),
    {
        let det = self.determinant();
        let e: i128 = FLOAT_EQ_EPS as i128;
        let d: i128 = det.raw as i128;
        if d < e && -d < e {
            return None;
        }
        let mut inv = Matrix4::zeros();
        let mut i: usize = 0;
        while i < 4
            invariant
                self.wf(),
                inv_ready(self@),
                det.raw == det4_spec(self@),
                !close_enough(det4_spec(self@), 0, FLOAT_EQ_EPS as int),
                i <= 4,
                inv.wf(),
                forall|a: int, b: int|
                    0 <= a < i && 0 <= b < 4 ==> #[trigger] inv@[4 * b + a] == div_spec(
                        cof4_spec(self@, a, b),
                        det4_spec(self@),
                    ),
            decreases 4 - i,
        {
            let mut j: usize = 0;
            while j < 4
                invariant
                    self.wf(),
                    inv_ready(self@),
                    det.raw == det4_spec(self@),
                    !close_enough(det4_spec(self@), 0, FLOAT_EQ_EPS as int),
                    i < 4,
                    j <= 4,
                    inv.wf(),
                    forall|a: int, b: int|
                        0 <= a < i && 0 <= b < 4 ==> #[trigger] inv@[4 * b + a] == div_spec(
                            cof4_spec(self@, a, b),
                            det4_spec(self@),
                        ),
                    forall|b: int|
                        0 <= b < j ==> #[trigger] inv@[4 * b + i] == div_spec(
                            cof4_spec(self@, i as int, b),
                            det4_spec(self@),
                        ),
                decreases 4 - j,
            {
                let cof = self.cofactor(i, j);
                let cell = cof.div(det);
                inv.set(j, i, cell);
                j = j + 1;
            }
            i = i + 1;
        }
        Some(inv)
    }
}

/// Multiplying by the identity returns the original entry: entry `(i, j)` of
/// `v * eye` equals entry `(i, j)` of `v`.
pub proof fn lemma_identity_neutral(v: Seq<int>, i: int, j: int)
    requires
        v.len() == 16,
        0 <= i < 4,
        0 <= j < 4,
    ensures
        mm4_spec(v, eye4_spec(), i, j) == ent4(v, i, j),
{
    let e = eye4_spec();
    if j == 0 {
        assert(ent4(v, i, 0) * ent4(e, 0, 0) == ent4(v, i, 0) * (SCALE as int)) by (nonlinear_arith)
            requires
                ent4(e, 0, 0) == SCALE as int,
        ;
        assert(ent4(v, i, 1) * ent4(e, 1, 0) == 0) by (nonlinear_arith)
            requires
                ent4(e, 1, 0) == 0,
        ;
        assert(ent4(v, i, 2) * ent4(e, 2, 0) == 0) by (nonlinear_arith)
            requires
                ent4(e, 2, 0) == 0,
        ;
        assert(ent4(v, i, 3) * ent4(e, 3, 0) == 0) by (nonlinear_arith)
            requires
                ent4(e, 3, 0) == 0,
        ;
        lemma_round_div_exact(ent4(v, i, 0), SCALE as int);
    } else if j == 1 {
        assert(ent4(v, i, 0) * ent4(e, 0, 1) == 0) by (nonlinear_arith)
            requires
                ent4(e, 0, 1) == 0,
        ;
        assert(ent4(v, i, 1) * ent4(e, 1, 1) == ent4(v, i, 1) * (SCALE as int)) by (nonlinear_arith)
            requires
                ent4(e, 1, 1) == SCALE as int,
        ;
        assert(ent4(v, i, 2) * ent4(e, 2, 1) == 0) by (nonlinear_arith)
            requires
                ent4(e, 2, 1) == 0,
        ;
        assert(ent4(v, i, 3) * ent4(e, 3, 1) == 0) by (nonlinear_arith)
            requires
                ent4(e, 3, 1) == 0,
        ;
        lemma_round_div_exact(ent4(v, i, 1), SCALE as int);
    } else if j == 2 {
        assert(ent4(v, i, 0) * ent4(e, 0, 2) == 0) by (nonlinear_arith)
            requires
                ent4(e, 0, 2) == 0,
        ;
        assert(ent4(v, i, 1) * ent4(e, 1, 2) == 0) by (nonlinear_arith)
            requires
                ent4(e, 1, 2) == 0,
        ;
        assert(ent4(v, i, 2) * ent4(e, 2, 2) == ent4(v, i, 2) * (SCALE as int)) by (nonlinear_arith)
            requires
                ent4(e, 2, 2) == SCALE as int,
        ;
        assert(ent4(v, i, 3) * ent4(e, 3, 2) == 0) by (nonlinear_arith)
            requires
                ent4(e, 3, 2) == 0,
        ;
        lemma_round_div_exact(ent4(v, i, 2), SCALE as int);
    } else {
        assert(ent4(v, i, 0) * ent4(e, 0, 3) == 0) by (nonlinear_arith)
            requires
                ent4(e, 0, 3) == 0,
        ;
        assert(ent4(v, i, 1) * ent4(e, 1, 3) == 0) by (nonlinear_arith)
            requires
                ent4(e, 1, 3) == 0,
        ;
        assert(ent4(v, i, 2) * ent4(e, 2, 3) == 0) by (nonlinear_arith)
            requires
                ent4(e, 2, 3) == 0,
        ;
        assert(ent4(v, i, 3) * ent4(e, 3, 3) == ent4(v, i, 3) * (SCALE as int)) by (nonlinear_arith)
            requires
                ent4(e, 3, 3) == SCALE as int,
        ;
        lemma_round_div_exact(ent4(v, i, 3), SCALE as int);
    }
}

/// The identity applied to a tuple returns each component unchanged.
pub proof fn lemma_identity_neutral_tuple(t: Tuple4D, i: int)
    requires
        0 <= i < 4,
    ensures
        mv4_spec(eye4_spec(), t, i) == if i == 0 {
            t.x.raw as int
        } else if i == 1 {
            t.y.raw as int
        } else if i == 2 {
            t.z.raw as int
        } else {
            t.w.raw as int
        },
{
    let e = eye4_spec();
    if i == 0 {
        assert(ent4(e, 0, 0) * t.x.raw == t.x.raw * (SCALE as int)) by (nonlinear_arith)
            requires
                ent4(e, 0, 0) == SCALE as int,
        ;
        assert(ent4(e, 0, 1) * t.y.raw == 0) by (nonlinear_arith)
            requires
                ent4(e, 0, 1) == 0,
        ;
        assert(ent4(e, 0, 2) * t.z.raw == 0) by (nonlinear_arith)
            requires
                ent4(e, 0, 2) == 0,
        ;
        assert(ent4(e, 0, 3) * t.w.raw == 0) by (nonlinear_arith)
            requires
                ent4(e, 0, 3) == 0,
        ;
        lemma_round_div_exact(t.x.raw as int, SCALE as int);
    } else if i == 1 {
        assert(ent4(e, 1, 0) * t.x.raw == 0) by (nonlinear_arith)
            requires
                ent4(e, 1, 0) == 0,
        ;
        assert(ent4(e, 1, 1) * t.y.raw == t.y.raw * (SCALE as int)) by (nonlinear_arith)
            requires
                ent4(e, 1, 1) == SCALE as int,
        ;
        assert(ent4(e, 1, 2) * t.z.raw == 0) by (nonlinear_arith)
            requires
                ent4(e, 1, 2) == 0,
        ;
        assert(ent4(e, 1, 3) * t.w.raw == 0) by (nonlinear_arith)
            requires
                ent4(e, 1, 3) == 0,
        ;
        lemma_round_div_exact(t.y.raw as int, SCALE as int);
    } else if i == 2 {
        assert(ent4(e, 2, 0) * t.x.raw == 0) by (nonlinear_arith)
            requires
                ent4(e, 2, 0) == 0,
        ;
        assert(ent4(e, 2, 1) * t.y.raw == 0) by (nonlinear_arith)
            requires
                ent4(e, 2, 1) == 0,
        ;
        assert(ent4(e, 2, 2) * t.z.raw == t.z.raw * (SCALE as int)) by (nonlinear_arith)
            requires
                ent4(e, 2, 2) == SCALE as int,
        ;
        assert(ent4(e, 2, 3) * t.w.raw == 0) by (nonlinear_arith)
            requires
                ent4(e, 2, 3) == 0,
        ;
        lemma_round_div_exact(t.z.raw as int, SCALE as int);
    } else {
        assert(ent4(e, 3, 0) * t.x.raw == 0) by (nonlinear_arith)
            requires
                ent4(e, 3, 0) == 0,
        ;
        assert(ent4(e, 3, 1) * t.y.raw == 0) by (nonlinear_arith)
            requires
                ent4(e, 3, 1) == 0,
        ;
        assert(ent4(e, 3, 2) * t.z.raw == 0) by (nonlinear_arith)
            requires
                ent4(e, 3, 2) == 0,
        ;
        assert(ent4(e, 3, 3) * t.w.raw == t.w.raw * (SCALE as int)) by (nonlinear_arith)
            requires
                ent4(e, 3, 3) == SCALE as int,
        ;
        lemma_round_div_exact(t.w.raw as int, SCALE as int);
    }
}

/// Transposing twice gives back the original grid.
pub proof fn lemma_transpose_involution(v: Seq<int>)
    requires
        v.len() == 16,
    ensures
        transpose4_spec(transpose4_spec(v)) == v,
{
    assert(transpose4_spec(transpose4_spec(v)) =~= v);
}

impl PartialEq for Matrix4 {
    /// Cell-wise tolerance equality.
    fn eq(&self, other: &Self) -> (r: bool) {
        if self.data.len() != other.data.len() {
            return false;
        }
        let mut k: usize = 0;
        while k < self.data.len()
            invariant
                self@.len() == other@.len(),
                k <= self@.len(),
                forall|m: int|
                    0 <= m < k ==> close_enough(self@[m], other@[m], FLOAT_EQ_EPS as int),
            decreases self@.len() - k,
        {
            let d: i128 = self.data[k].raw as i128 - other.data[k].raw as i128;
            let e: i128 = FLOAT_EQ_EPS as i128;
            if !(d < e && -d < e) {
                proof {
                    assert(!close_enough(self@[k as int], other@[k as int], FLOAT_EQ_EPS as int));
                }
                return false;
            }
            k = k + 1;
        }
        true
    }
}

impl vstd::std_specs::cmp::PartialEqSpecImpl for Matrix4 {
    open spec fn obeys_eq_spec() -> bool {
        true
    }

    open spec fn eq_spec(&self, other: &Matrix4) -> bool {
        &&& self@.len() == other@.len()
        &&& forall|k: int|
            0 <= k < self@.len() ==> close_enough(
                #[trigger] self@[k],
                other@[k],
                FLOAT_EQ_EPS as int,
            )
    }
}

} // verus!
