//! The inverse law. For a matrix whose entries are whole scalars (raw values
//! that are exact multiples of `SCALE`), the executable determinant and
//! cofactors agree exactly with the integer determinant theory of
//! [`super::adjugate`], and the product of the matrix with its computed
//! inverse is the identity within the comparison tolerance.

use super::adjugate::ent4;
use super::adjugate::exact_cof4;
use super::adjugate::exact_det4;
use super::adjugate::exact_minor4;
use super::adjugate::lemma_adjugate_row;
use super::adjugate::skip_idx;
use super::super::matrix2::det2_spec;
use super::super::matrix3::cof3_spec;
use super::super::matrix3::det3_spec;
use super::super::matrix3::ent3;
use super::super::matrix3::minor3_spec;
use super::super::matrix3::sub3_spec;
use super::super::scalar::FLOAT_EQ_EPS;
use super::super::scalar::SCALE;
use super::super::scalar::close_enough;
use super::super::scalar::div_spec;
use super::super::scalar::lemma_distribute_sum2;
use super::super::scalar::lemma_distribute_sum3;
use super::super::scalar::lemma_distribute_sum4;
use super::super::scalar::lemma_factor_add3;
use super::super::scalar::lemma_factor_add4;
use super::super::scalar::lemma_factor_sub;
use super::super::scalar::lemma_mul_comm;
use super::super::scalar::lemma_mul_neg_right;
use super::super::scalar::lemma_mul_rotate;
use super::super::scalar::lemma_round_div_err;
use super::super::scalar::lemma_round_div_exact;
use super::super::scalar::lemma_round_div_scale;
use super::super::scalar::lemma_scale_left;
use super::super::scalar::lemma_scale_prod;
use super::cof4_spec;
use super::det4_spec;
use super::eye4_spec;
use super::mat4_bounded;
use super::minor4_spec;
use super::mm4_spec;
use super::sub4_spec;
use vstd::prelude::*;

verus! {

/// Every raw entry of `v` is `SCALE` times the corresponding entry of `q`:
/// the matrix holds whole scalars with integer parts `q`.
pub open spec fn int_scaled(v: Seq<int>, q: Seq<int>) -> bool {
    &&& v.len() == q.len()
    &&& forall|k: int| 0 <= k < v.len() ==> v[k] == SCALE * #[trigger] q[k]
}

/// Exact 3x3 determinant of nine row-major entries.
spec fn exact_det3_flat(p: Seq<int>) -> int {
    p[0] * (p[4] * p[8] - p[5] * p[7]) - p[1] * (p[3] * p[8] - p[5] * p[6]) + p[2] * (p[3] * p[7]
        - p[4] * p[6])
}

/// A scaled 2x2 grid has the scaled exact determinant.
proof fn lemma_scaled_det2(u: Seq<int>, p: Seq<int>)
    requires
        u.len() == 4,
        int_scaled(u, p),
    ensures
        det2_spec(u) == SCALE * (p[0] * p[3] - p[1] * p[2]),
{
    let s = SCALE as int;
    let x0 = p[0] * p[3];
    let x1 = p[1] * p[2];
    assert(u[0] * u[3] == (s * p[0]) * (s * p[3]));
    lemma_scale_prod(s, p[0], p[3]);
    assert(u[1] * u[2] == (s * p[1]) * (s * p[2]));
    lemma_scale_prod(s, p[1], p[2]);
    lemma_factor_sub(s * x0, s * x1, s);
    lemma_distribute_sum2(s, x0, x1);
    assert(u[0] * u[3] - u[1] * u[2] == (s * (x0 - x1)) * s);
    lemma_round_div_exact(s * (x0 - x1), s);
}

/// A scaled 3x3 grid has the scaled exact determinant.
proof fn lemma_scaled_det3(u: Seq<int>, p: Seq<int>)
    requires
        u.len() == 9,
        int_scaled(u, p),
    ensures
        det3_spec(u) == SCALE * exact_det3_flat(p),
{
    let s = SCALE as int;
    assert forall|t: int, k: int| 0 <= t < 3 && 0 <= k < 4 implies #[trigger] sub3_spec(u, 0, t)[k]
        == s * sub3_spec(p, 0, t)[k] by {
        assert(sub3_spec(u, 0, t)[k] == ent3(u, skip_idx(k / 2, 0), skip_idx(k % 2, t)));
        assert(u[3 * skip_idx(k / 2, 0) + skip_idx(k % 2, t)] == s * p[3 * skip_idx(k / 2, 0)
            + skip_idx(k % 2, t)]);
    }
    let m0 = p[4] * p[8] - p[5] * p[7];
    let m1 = p[3] * p[8] - p[5] * p[6];
    let m2 = p[3] * p[7] - p[4] * p[6];
    lemma_scaled_det2(sub3_spec(u, 0, 0), sub3_spec(p, 0, 0));
    lemma_scaled_det2(sub3_spec(u, 0, 1), sub3_spec(p, 0, 1));
    lemma_scaled_det2(sub3_spec(u, 0, 2), sub3_spec(p, 0, 2));
    assert(minor3_spec(u, 0, 0) == s * m0);
    assert(minor3_spec(u, 0, 1) == s * m1);
    assert(minor3_spec(u, 0, 2) == s * m2);
    lemma_mul_neg_right(s, m1);
    assert(cof3_spec(u, 0, 0) == s * m0);
    assert(cof3_spec(u, 0, 1) == s * (-m1));
    assert(cof3_spec(u, 0, 2) == s * m2);
    let y0 = p[0] * m0;
    let y1 = p[1] * (-m1);
    let y2 = p[2] * m2;
    assert(ent3(u, 0, 0) * cof3_spec(u, 0, 0) == (s * p[0]) * (s * m0));
    lemma_scale_prod(s, p[0], m0);
    assert(ent3(u, 0, 1) * cof3_spec(u, 0, 1) == (s * p[1]) * (s * (-m1)));
    lemma_scale_prod(s, p[1], -m1);
    assert(ent3(u, 0, 2) * cof3_spec(u, 0, 2) == (s * p[2]) * (s * m2));
    lemma_scale_prod(s, p[2], m2);
    lemma_factor_add3(s * y0, s * y1, s * y2, s);
    lemma_distribute_sum3(s, y0, y1, y2);
    assert(ent3(u, 0, 0) * cof3_spec(u, 0, 0) + ent3(u, 0, 1) * cof3_spec(u, 0, 1) + ent3(u, 0, 2)
        * cof3_spec(u, 0, 2) == (s * (y0 + y1 + y2)) * s);
    lemma_round_div_exact(s * (y0 + y1 + y2), s);
    lemma_mul_neg_right(p[1], m1);
    assert(exact_det3_flat(p) == y0 + y1 + y2);
}

/// A scaled 4x4 grid has scaled exact minors and cofactors.
proof fn lemma_scaled_cof4(v: Seq<int>, q: Seq<int>, i: int, j: int)
    requires
        v.len() == 16,
        int_scaled(v, q),
        0 <= i < 4,
        0 <= j < 4,
    ensures
        minor4_spec(v, i, j) == SCALE * exact_minor4(q, i, j),
        cof4_spec(v, i, j) == SCALE * exact_cof4(q, i, j),
{
    let s = SCALE as int;
    assert forall|k: int| 0 <= k < 9 implies #[trigger] sub4_spec(v, i, j)[k] == s * sub4_spec(
        q,
        i,
        j,
    )[k] by {
        assert(sub4_spec(v, i, j)[k] == ent4(v, skip_idx(k / 3, i), skip_idx(k % 3, j)));
        assert(v[4 * skip_idx(k / 3, i) + skip_idx(k % 3, j)] == s * q[4 * skip_idx(k / 3, i)
            + skip_idx(k % 3, j)]);
    }
    lemma_scaled_det3(sub4_spec(v, i, j), sub4_spec(q, i, j));
    assert(exact_det3_flat(sub4_spec(q, i, j)) == exact_minor4(q, i, j));
    if (i + j) % 2 != 0 {
        lemma_mul_neg_right(s, exact_minor4(q, i, j));
    }
}

/// A scaled 4x4 grid has the scaled exact determinant and scaled exact
/// cofactors.
pub proof fn lemma_scaled_det4(v: Seq<int>, q: Seq<int>)
    requires
        v.len() == 16,
        int_scaled(v, q),
    ensures
        det4_spec(v) == SCALE * exact_det4(q),
        forall|i: int, j: int|
            0 <= i < 4 && 0 <= j < 4 ==> #[trigger] cof4_spec(v, i, j) == SCALE * exact_cof4(
                q,
                i,
                j,
            ),
{
    let s = SCALE as int;
    assert forall|i: int, j: int| 0 <= i < 4 && 0 <= j < 4 implies #[trigger] cof4_spec(v, i, j)
        == s * exact_cof4(q, i, j) by {
        lemma_scaled_cof4(v, q, i, j);
    }
    let c0 = exact_cof4(q, 0, 0);
    let c1 = exact_cof4(q, 0, 1);
    let c2 = exact_cof4(q, 0, 2);
    let c3 = exact_cof4(q, 0, 3);
    let y0 = ent4(q, 0, 0) * c0;
    let y1 = ent4(q, 0, 1) * c1;
    let y2 = ent4(q, 0, 2) * c2;
    let y3 = ent4(q, 0, 3) * c3;
    assert(ent4(v, 0, 0) * cof4_spec(v, 0, 0) == (s * ent4(q, 0, 0)) * (s * c0));
    lemma_scale_prod(s, ent4(q, 0, 0), c0);
    assert(ent4(v, 0, 1) * cof4_spec(v, 0, 1) == (s * ent4(q, 0, 1)) * (s * c1));
    lemma_scale_prod(s, ent4(q, 0, 1), c1);
    assert(ent4(v, 0, 2) * cof4_spec(v, 0, 2) == (s * ent4(q, 0, 2)) * (s * c2));
    lemma_scale_prod(s, ent4(q, 0, 2), c2);
    assert(ent4(v, 0, 3) * cof4_spec(v, 0, 3) == (s * ent4(q, 0, 3)) * (s * c3));
    lemma_scale_prod(s, ent4(q, 0, 3), c3);
    lemma_factor_add4(s * y0, s * y1, s * y2, s * y3, s);
    lemma_distribute_sum4(s, y0, y1, y2, y3);
    assert(ent4(v, 0, 0) * cof4_spec(v, 0, 0) + ent4(v, 0, 1) * cof4_spec(v, 0, 1) + ent4(v, 0, 2)
        * cof4_spec(v, 0, 2) + ent4(v, 0, 3) * cof4_spec(v, 0, 3) == (s * (y0 + y1 + y2 + y3))
        * s);
    lemma_round_div_exact(s * (y0 + y1 + y2 + y3), s);
    assert(exact_det4(q) == y0 + y1 + y2 + y3);
}

/// One inverse cell lands within half a determinant of the exact ratio:
/// `|r * dd - cc * SCALE|` is at most `|dd| / 2` for the computed cell
/// `r = div_spec(SCALE * cc, SCALE * dd)`.
proof fn lemma_inverse_cell_err(cc: int, dd: int)
    requires
        dd != 0,
    ensures
        2 * (div_spec(SCALE * cc, SCALE * dd) * dd - cc * SCALE) <= (if dd > 0 {
            dd
        } else {
            -dd
        }),
        -(if dd > 0 {
            dd
        } else {
            -dd
        }) <= 2 * (div_spec(SCALE * cc, SCALE * dd) * dd - cc * SCALE),
{
    let s = SCALE as int;
    if dd > 0 {
        assert(s * dd > 0);
        lemma_scale_left(s, cc, s);
        lemma_mul_comm(cc, s);
        assert((s * cc) * s == s * (cc * s));
        lemma_round_div_scale(s, cc * s, dd);
        lemma_round_div_err(cc * s, dd);
    } else {
        assert(s * dd < 0);
        lemma_scale_left(s, cc, s);
        lemma_mul_comm(cc, s);
        assert((s * cc) * s == s * (cc * s));
        lemma_mul_neg_right(s, cc * s);
        assert(-((s * cc) * s) == s * (-(cc * s)));
        lemma_mul_neg_right(s, dd);
        assert(-(s * dd) == s * (-dd));
        lemma_round_div_scale(s, -(cc * s), -dd);
        lemma_round_div_err(-(cc * s), -dd);
        let r = div_spec(s * cc, s * dd);
        assert(2 * (r * (-dd) - (-(cc * s))) <= -dd && -(-dd) <= 2 * (r * (-dd) - (-(cc * s))));
        lemma_mul_neg_right(r, dd);
        assert(r * (-dd) == -(r * dd));
    }
}

/// A matrix of whole scalars times its computed inverse is the identity,
/// cell by cell, within the comparison tolerance. `inv` holds what
/// `inverse` returned — cell `(b, a)` is `cofactor(a, b) / determinant` —
/// and the determinant clears the singularity tolerance.
#[verifier::rlimit(60)]
pub proof fn lemma_mul_inverse_identity(v: Seq<int>, q: Seq<int>, inv: Seq<int>, i: int, j: int)
    requires
        v.len() == 16,
        inv.len() == 16,
        int_scaled(v, q),
        mat4_bounded(v),
        !close_enough(det4_spec(v), 0, FLOAT_EQ_EPS as int),
        forall|a: int, b: int|
            0 <= a < 4 && 0 <= b < 4 ==> inv[4 * b + a] == div_spec(
                #[trigger] cof4_spec(v, a, b),
                det4_spec(v),
            ),
        0 <= i < 4,
        0 <= j < 4,
    ensures
        close_enough(mm4_spec(v, inv, i, j), eye4_spec()[4 * i + j], FLOAT_EQ_EPS as int),
{
    let s = SCALE as int;
    lemma_scaled_det4(v, q);
    let dd = exact_det4(q);
    if dd == 0 {
        assert(det4_spec(v) == s * 0);
        assert(false);
    }
    let da = if dd > 0 {
        dd
    } else {
        -dd
    };
    let q0 = ent4(q, i, 0);
    let q1 = ent4(q, i, 1);
    let q2 = ent4(q, i, 2);
    let q3 = ent4(q, i, 3);
    let c0 = exact_cof4(q, j, 0);
    let c1 = exact_cof4(q, j, 1);
    let c2 = exact_cof4(q, j, 2);
    let c3 = exact_cof4(q, j, 3);
    let r0 = inv[4 * 0 + j];
    let r1 = inv[4 * 1 + j];
    let r2 = inv[4 * 2 + j];
    let r3 = inv[4 * 3 + j];
    assert(cof4_spec(v, j, 0) == s * c0);
    assert(cof4_spec(v, j, 1) == s * c1);
    assert(cof4_spec(v, j, 2) == s * c2);
    assert(cof4_spec(v, j, 3) == s * c3);
    assert(inv[4 * 0 + j] == div_spec(cof4_spec(v, j, 0), det4_spec(v)));
    assert(inv[4 * 1 + j] == div_spec(cof4_spec(v, j, 1), det4_spec(v)));
    assert(inv[4 * 2 + j] == div_spec(cof4_spec(v, j, 2), det4_spec(v)));
    assert(inv[4 * 3 + j] == div_spec(cof4_spec(v, j, 3), det4_spec(v)));
    assert(r0 == div_spec(s * c0, s * dd));
    assert(r1 == div_spec(s * c1, s * dd));
    assert(r2 == div_spec(s * c2, s * dd));
    assert(r3 == div_spec(s * c3, s * dd));
    lemma_inverse_cell_err(c0, dd);
    lemma_inverse_cell_err(c1, dd);
    lemma_inverse_cell_err(c2, dd);
    lemma_inverse_cell_err(c3, dd);
    let e0 = r0 * dd - c0 * s;
    let e1 = r1 * dd - c1 * s;
    let e2 = r2 * dd - c2 * s;
    let e3 = r3 * dd - c3 * s;
    // the product cell is the exact combination of the inverse cells
    assert(ent4(v, i, 0) * ent4(inv, 0, j) == (s * q0) * r0);
    lemma_scale_left(s, q0, r0);
    assert(ent4(v, i, 1) * ent4(inv, 1, j) == (s * q1) * r1);
    lemma_scale_left(s, q1, r1);
    assert(ent4(v, i, 2) * ent4(inv, 2, j) == (s * q2) * r2);
    lemma_scale_left(s, q2, r2);
    assert(ent4(v, i, 3) * ent4(inv, 3, j) == (s * q3) * r3);
    lemma_scale_left(s, q3, r3);
    let t = q0 * r0 + q1 * r1 + q2 * r2 + q3 * r3;
    lemma_factor_add4(q0 * r0, q1 * r1, q2 * r2, q3 * r3, s);
    assert(ent4(v, i, 0) * ent4(inv, 0, j) + ent4(v, i, 1) * ent4(inv, 1, j) + ent4(v, i, 2)
        * ent4(inv, 2, j) + ent4(v, i, 3) * ent4(inv, 3, j) == t * s);
    lemma_round_div_exact(t, s);
    assert(mm4_spec(v, inv, i, j) == t);
    // scale the combination by the determinant and split off the errors
    lemma_adjugate_row(q, i, j);
    lemma_distribute_sum4(dd, q0 * r0, q1 * r1, q2 * r2, q3 * r3);
    lemma_mul_rotate(dd, q0, r0);
    lemma_mul_comm(dd, r0);
    lemma_mul_rotate(dd, q1, r1);
    lemma_mul_comm(dd, r1);
    lemma_mul_rotate(dd, q2, r2);
    lemma_mul_comm(dd, r2);
    lemma_mul_rotate(dd, q3, r3);
    lemma_mul_comm(dd, r3);
    assert(dd * t == q0 * (c0 * s + e0) + q1 * (c1 * s + e1) + q2 * (c2 * s + e2) + q3 * (c3 * s
        + e3));
    lemma_distribute_sum2(q0, c0 * s, e0);
    lemma_mul_rotate(q0, c0, s);
    lemma_distribute_sum2(q1, c1 * s, e1);
    lemma_mul_rotate(q1, c1, s);
    lemma_distribute_sum2(q2, c2 * s, e2);
    lemma_mul_rotate(q2, c2, s);
    lemma_distribute_sum2(q3, c3 * s, e3);
    lemma_mul_rotate(q3, c3, s);
    lemma_factor_add4(q0 * c0, q1 * c1, q2 * c2, q3 * c3, s);
    assert(dd * t == (q0 * c0 + q1 * c1 + q2 * c2 + q3 * c3) * s + (q0 * e0 + q1 * e1 + q2 * e2
        + q3 * e3));
    // whole-scalar entries stay within a million, so the error terms are
    // small
    assert(-1000000 <= q0 <= 1000000);
    assert(-1000000 <= q1 <= 1000000);
    assert(-1000000 <= q2 <= 1000000);
    assert(-1000000 <= q3 <= 1000000);
    assert(-(1000000 * da) <= 2 * (q0 * e0) <= 1000000 * da) by (nonlinear_arith)
        requires
            -1000000 <= q0 <= 1000000,
            -da <= 2 * e0 <= da,
            da >= 0,
    ;
    assert(-(1000000 * da) <= 2 * (q1 * e1) <= 1000000 * da) by (nonlinear_arith)
        requires
            -1000000 <= q1 <= 1000000,
            -da <= 2 * e1 <= da,
            da >= 0,
    ;
    assert(-(1000000 * da) <= 2 * (q2 * e2) <= 1000000 * da) by (nonlinear_arith)
        requires
            -1000000 <= q2 <= 1000000,
            -da <= 2 * e2 <= da,
            da >= 0,
    ;
    assert(-(1000000 * da) <= 2 * (q3 * e3) <= 1000000 * da) by (nonlinear_arith)
        requires
            -1000000 <= q3 <= 1000000,
            -da <= 2 * e3 <= da,
            da >= 0,
    ;
    // divide the determinant back out of the bound
    vstd::arithmetic::div_mod::lemma_fundamental_div_mod_converse_div(4 * i + j, 4, i, j);
    vstd::arithmetic::div_mod::lemma_fundamental_div_mod_converse_mod(4 * i + j, 4, i, j);
    if i == j {
        assert(q0 * c0 + q1 * c1 + q2 * c2 + q3 * c3 == dd);
        lemma_distribute_sum2(dd, t, s);
        assert(-(4000000 * da) <= 2 * (dd * (t - s)) <= 4000000 * da);
        if dd > 0 {
            assert(-2000000 <= t - s <= 2000000) by (nonlinear_arith)
                requires
                    -(4000000 * dd) <= 2 * (dd * (t - s)) <= 4000000 * dd,
                    dd >= 1,
            ;
        } else {
            assert(-2000000 <= t - s <= 2000000) by (nonlinear_arith)
                requires
                    -(4000000 * (-dd)) <= 2 * (dd * (t - s)) <= 4000000 * (-dd),
                    dd <= -1,
            ;
        }
        assert(eye4_spec()[4 * i + j] == s);
    } else {
        assert(q0 * c0 + q1 * c1 + q2 * c2 + q3 * c3 == 0);
        assert(-(4000000 * da) <= 2 * (dd * t) <= 4000000 * da);
        if dd > 0 {
            assert(-2000000 <= t <= 2000000) by (nonlinear_arith)
                requires
                    -(4000000 * dd) <= 2 * (dd * t) <= 4000000 * dd,
                    dd >= 1,
            ;
        } else {
            assert(-2000000 <= t <= 2000000) by (nonlinear_arith)
                requires
                    -(4000000 * (-dd)) <= 2 * (dd * t) <= 4000000 * (-dd),
                    dd <= -1,
            ;
        }
        assert(eye4_spec()[4 * i + j] == 0);
    }
}

} // verus!
