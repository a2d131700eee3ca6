//! The exact (unrounded) determinant theory of the 4x4 matrix: entry-level
//! spec functions for minors, cofactors and the determinant over the raw
//! integer values, and the Laplace-expansion lemma behind the inverse — a
//! row expanded against its own cofactors gives the determinant, and against
//! another row's cofactors cancels to zero.

use vstd::prelude::*;

verus! {

/// Entry `(i, j)` of a 4x4 matrix stored row-major as 16 raw values.
pub open spec fn ent4(v: Seq<int>, i: int, j: int) -> int {
    v[4 * i + j]
}

/// Row or column index of the full matrix that position `k` of a submatrix
/// maps to when row or column `d` is deleted.
pub open spec fn skip_idx(k: int, d: int) -> int {
    if k < d {
        k
    } else {
        k + 1
    }
}

/// Executable twin of [`skip_idx`].
pub(crate) fn skip_at(k: usize, d: usize) -> (r: usize)
    requires
        k < 8,
    ensures
        r as int == skip_idx(k as int, d as int),
{
    if k < d {
        k
    } else {
        k + 1
    }
}

/// Exact determinant of the 3x3 matrix left by keeping rows `r0, r1, r2` and
/// columns `c0, c1, c2`, expanded along its first row.
pub open spec fn exact_det3_at(
    v: Seq<int>,
    r0: int,
    r1: int,
    r2: int,
    c0: int,
    c1: int,
    c2: int,
) -> int {
    ent4(v, r0, c0) * (ent4(v, r1, c1) * ent4(v, r2, c2) - ent4(v, r1, c2) * ent4(v, r2, c1))
        - ent4(v, r0, c1) * (ent4(v, r1, c0) * ent4(v, r2, c2) - ent4(v, r1, c2) * ent4(v, r2, c0))
        + ent4(v, r0, c2) * (ent4(v, r1, c0) * ent4(v, r2, c1) - ent4(v, r1, c1) * ent4(v, r2, c0))
}

/// Exact minor of entry `(i, j)`: the 3x3 determinant left over when row `i`
/// and column `j` are deleted.
pub open spec fn exact_minor4(v: Seq<int>, i: int, j: int) -> int {
    exact_det3_at(
        v,
        skip_idx(0, i),
        skip_idx(1, i),
        skip_idx(2, i),
        skip_idx(0, j),
        skip_idx(1, j),
        skip_idx(2, j),
    )
}

/// Exact cofactor of entry `(i, j)`: the minor under the checkerboard sign.
pub open spec fn exact_cof4(v: Seq<int>, i: int, j: int) -> int {
    if (i + j) % 2 == 0 {
        exact_minor4(v, i, j)
    } else {
        -exact_minor4(v, i, j)
    }
}

/// Exact determinant: cofactor expansion along row 0.
pub open spec fn exact_det4(v: Seq<int>) -> int {
    ent4(v, 0, 0) * exact_cof4(v, 0, 0) + ent4(v, 0, 1) * exact_cof4(v, 0, 1) + ent4(v, 0, 2)
        * exact_cof4(v, 0, 2) + ent4(v, 0, 3) * exact_cof4(v, 0, 3)
}

proof fn lemma_expand_minor_neg(x: int, a: int, b: int, c: int, d: int, e: int, f: int)
    ensures
        x * (-a + b + c - d - e + f) == -(x * a) + x * b + x * c - x * d - x * e + x * f,
{
    assert(x * (-a + b + c - d - e + f) == -(x * a) + x * b + x * c - x * d - x * e + x * f)
        by (nonlinear_arith);
}

proof fn lemma_expand_minor(x: int, a: int, b: int, c: int, d: int, e: int, f: int)
    ensures
        x * (a - b - c + d + e - f) == x * a - x * b - x * c + x * d + x * e - x * f,
{
    assert(x * (a - b - c + d + e - f) == x * a - x * b - x * c + x * d + x * e - x * f)
        by (nonlinear_arith);
}

proof fn lemma_distribute2(x: int, a: int, b: int)
    ensures
        x * (a - b) == x * a - x * b,
{
    assert(x * (a - b) == x * a - x * b) by (nonlinear_arith);
}

/// Row `i` expanded against the cofactors of row `j`: the determinant when
/// `i == j`, zero otherwise (the alien-cofactor cancellation).
pub proof fn lemma_adjugate_row(v: Seq<int>, i: int, j: int)
    requires
        v.len() == 16,
        0 <= i < 4,
        0 <= j < 4,
    ensures
        ent4(v, i, 0) * exact_cof4(v, j, 0) + ent4(v, i, 1) * exact_cof4(v, j, 1) + ent4(v, i, 2)
            * exact_cof4(v, j, 2) + ent4(v, i, 3) * exact_cof4(v, j, 3) == if i == j {
            exact_det4(v)
        } else {
            0
        },
{
    if i == 0 && j == 0 {
        lemma_laplace_0_0(v);
    } else if i == 0 && j == 1 {
        lemma_laplace_0_1(v);
    } else if i == 0 && j == 2 {
        lemma_laplace_0_2(v);
    } else if i == 0 && j == 3 {
        lemma_laplace_0_3(v);
    } else if i == 1 && j == 0 {
        lemma_laplace_1_0(v);
    } else if i == 1 && j == 1 {
        lemma_laplace_1_1(v);
    } else if i == 1 && j == 2 {
        lemma_laplace_1_2(v);
    } else if i == 1 && j == 3 {
        lemma_laplace_1_3(v);
    } else if i == 2 && j == 0 {
        lemma_laplace_2_0(v);
    } else if i == 2 && j == 1 {
        lemma_laplace_2_1(v);
    } else if i == 2 && j == 2 {
        lemma_laplace_2_2(v);
    } else if i == 2 && j == 3 {
        lemma_laplace_2_3(v);
    } else if i == 3 && j == 0 {
        lemma_laplace_3_0(v);
    } else if i == 3 && j == 1 {
        lemma_laplace_3_1(v);
    } else if i == 3 && j == 2 {
        lemma_laplace_3_2(v);
    } else if i == 3 && j == 3 {
        lemma_laplace_3_3(v);
    }
}


proof fn lemma_laplace_0_0(v: Seq<int>)
    requires
        v.len() == 16,
    ensures
        ent4(v, 0, 0) * exact_cof4(v, 0, 0) + ent4(v, 0, 1) * exact_cof4(v, 0, 1) + ent4(v, 0, 2)
            * exact_cof4(v, 0, 2) + ent4(v, 0, 3) * exact_cof4(v, 0, 3) == exact_det4(v),
{
    assert(exact_cof4(v, 0, 0) == v[5] * (v[10] * v[15] - v[11] * v[14]) - v[6] * (v[9] * v[15] - v[11] * v[13]) + v[7] * (v[9] * v[14] - v[10] * v[13]));
    lemma_distribute2(v[5], v[10] * v[15], v[11] * v[14]);
    lemma_distribute2(v[6], v[9] * v[15], v[11] * v[13]);
    lemma_distribute2(v[7], v[9] * v[14], v[10] * v[13]);
    assert(exact_cof4(v, 0, 0) == v[5] * (v[10] * v[15]) - v[5] * (v[11] * v[14]) - v[6] * (v[9] * v[15]) + v[6] * (v[11] * v[13]) + v[7] * (v[9] * v[14]) - v[7] * (v[10] * v[13]));
    lemma_expand_minor(v[0], v[5] * (v[10] * v[15]), v[5] * (v[11] * v[14]), v[6] * (v[9] * v[15]), v[6] * (v[11] * v[13]), v[7] * (v[9] * v[14]), v[7] * (v[10] * v[13]));
    assert(ent4(v, 0, 0) * exact_cof4(v, 0, 0) == v[0] * (v[5] * (v[10] * v[15])) - v[0] * (v[5] * (v[11] * v[14])) - v[0] * (v[6] * (v[9] * v[15])) + v[0] * (v[6] * (v[11] * v[13])) + v[0] * (v[7] * (v[9] * v[14])) - v[0] * (v[7] * (v[10] * v[13])));
    assert(exact_cof4(v, 0, 1) == -(v[4] * (v[10] * v[15] - v[11] * v[14]) - v[6] * (v[8] * v[15] - v[11] * v[12]) + v[7] * (v[8] * v[14] - v[10] * v[12])));
    lemma_distribute2(v[4], v[10] * v[15], v[11] * v[14]);
    lemma_distribute2(v[6], v[8] * v[15], v[11] * v[12]);
    lemma_distribute2(v[7], v[8] * v[14], v[10] * v[12]);
    assert(exact_cof4(v, 0, 1) == -(v[4] * (v[10] * v[15])) + v[4] * (v[11] * v[14]) + v[6] * (v[8] * v[15]) - v[6] * (v[11] * v[12]) - v[7] * (v[8] * v[14]) + v[7] * (v[10] * v[12]));
    lemma_expand_minor_neg(v[1], v[4] * (v[10] * v[15]), v[4] * (v[11] * v[14]), v[6] * (v[8] * v[15]), v[6] * (v[11] * v[12]), v[7] * (v[8] * v[14]), v[7] * (v[10] * v[12]));
    assert(ent4(v, 0, 1) * exact_cof4(v, 0, 1) == -(v[1] * (v[4] * (v[10] * v[15]))) + v[1] * (v[4] * (v[11] * v[14])) + v[1] * (v[6] * (v[8] * v[15])) - v[1] * (v[6] * (v[11] * v[12])) - v[1] * (v[7] * (v[8] * v[14])) + v[1] * (v[7] * (v[10] * v[12])));
    assert(exact_cof4(v, 0, 2) == v[4] * (v[9] * v[15] - v[11] * v[13]) - v[5] * (v[8] * v[15] - v[11] * v[12]) + v[7] * (v[8] * v[13] - v[9] * v[12]));
    lemma_distribute2(v[4], v[9] * v[15], v[11] * v[13]);
    lemma_distribute2(v[5], v[8] * v[15], v[11] * v[12]);
    lemma_distribute2(v[7], v[8] * v[13], v[9] * v[12]);
    assert(exact_cof4(v, 0, 2) == v[4] * (v[9] * v[15]) - v[4] * (v[11] * v[13]) - v[5] * (v[8] * v[15]) + v[5] * (v[11] * v[12]) + v[7] * (v[8] * v[13]) - v[7] * (v[9] * v[12]));
    lemma_expand_minor(v[2], v[4] * (v[9] * v[15]), v[4] * (v[11] * v[13]), v[5] * (v[8] * v[15]), v[5] * (v[11] * v[12]), v[7] * (v[8] * v[13]), v[7] * (v[9] * v[12]));
    assert(ent4(v, 0, 2) * exact_cof4(v, 0, 2) == v[2] * (v[4] * (v[9] * v[15])) - v[2] * (v[4] * (v[11] * v[13])) - v[2] * (v[5] * (v[8] * v[15])) + v[2] * (v[5] * (v[11] * v[12])) + v[2] * (v[7] * (v[8] * v[13])) - v[2] * (v[7] * (v[9] * v[12])));
    assert(exact_cof4(v, 0, 3) == -(v[4] * (v[9] * v[14] - v[10] * v[13]) - v[5] * (v[8] * v[14] - v[10] * v[12]) + v[6] * (v[8] * v[13] - v[9] * v[12])));
    lemma_distribute2(v[4], v[9] * v[14], v[10] * v[13]);
    lemma_distribute2(v[5], v[8] * v[14], v[10] * v[12]);
    lemma_distribute2(v[6], v[8] * v[13], v[9] * v[12]);
    assert(exact_cof4(v, 0, 3) == -(v[4] * (v[9] * v[14])) + v[4] * (v[10] * v[13]) + v[5] * (v[8] * v[14]) - v[5] * (v[10] * v[12]) - v[6] * (v[8] * v[13]) + v[6] * (v[9] * v[12]));
    lemma_expand_minor_neg(v[3], v[4] * (v[9] * v[14]), v[4] * (v[10] * v[13]), v[5] * (v[8] * v[14]), v[5] * (v[10] * v[12]), v[6] * (v[8] * v[13]), v[6] * (v[9] * v[12]));
    assert(ent4(v, 0, 3) * exact_cof4(v, 0, 3) == -(v[3] * (v[4] * (v[9] * v[14]))) + v[3] * (v[4] * (v[10] * v[13])) + v[3] * (v[5] * (v[8] * v[14])) - v[3] * (v[5] * (v[10] * v[12])) - v[3] * (v[6] * (v[8] * v[13])) + v[3] * (v[6] * (v[9] * v[12])));
}

proof fn lemma_laplace_0_1(v: Seq<int>)
    requires
        v.len() == 16,
    ensures
        ent4(v, 0, 0) * exact_cof4(v, 1, 0) + ent4(v, 0, 1) * exact_cof4(v, 1, 1) + ent4(v, 0, 2)
            * exact_cof4(v, 1, 2) + ent4(v, 0, 3) * exact_cof4(v, 1, 3) == 0,
{
    assert(exact_cof4(v, 1, 0) == -(v[1] * (v[10] * v[15] - v[11] * v[14]) - v[2] * (v[9] * v[15] - v[11] * v[13]) + v[3] * (v[9] * v[14] - v[10] * v[13])));
    lemma_distribute2(v[1], v[10] * v[15], v[11] * v[14]);
    lemma_distribute2(v[2], v[9] * v[15], v[11] * v[13]);
    lemma_distribute2(v[3], v[9] * v[14], v[10] * v[13]);
    assert(exact_cof4(v, 1, 0) == -(v[1] * (v[10] * v[15])) + v[1] * (v[11] * v[14]) + v[2] * (v[9] * v[15]) - v[2] * (v[11] * v[13]) - v[3] * (v[9] * v[14]) + v[3] * (v[10] * v[13]));
    lemma_expand_minor_neg(v[0], v[1] * (v[10] * v[15]), v[1] * (v[11] * v[14]), v[2] * (v[9] * v[15]), v[2] * (v[11] * v[13]), v[3] * (v[9] * v[14]), v[3] * (v[10] * v[13]));
    assert(ent4(v, 0, 0) * exact_cof4(v, 1, 0) == -(v[0] * (v[1] * (v[10] * v[15]))) + v[0] * (v[1] * (v[11] * v[14])) + v[0] * (v[2] * (v[9] * v[15])) - v[0] * (v[2] * (v[11] * v[13])) - v[0] * (v[3] * (v[9] * v[14])) + v[0] * (v[3] * (v[10] * v[13])));
    assert(exact_cof4(v, 1, 1) == v[0] * (v[10] * v[15] - v[11] * v[14]) - v[2] * (v[8] * v[15] - v[11] * v[12]) + v[3] * (v[8] * v[14] - v[10] * v[12]));
    lemma_distribute2(v[0], v[10] * v[15], v[11] * v[14]);
    lemma_distribute2(v[2], v[8] * v[15], v[11] * v[12]);
    lemma_distribute2(v[3], v[8] * v[14], v[10] * v[12]);
    assert(exact_cof4(v, 1, 1) == v[0] * (v[10] * v[15]) - v[0] * (v[11] * v[14]) - v[2] * (v[8] * v[15]) + v[2] * (v[11] * v[12]) + v[3] * (v[8] * v[14]) - v[3] * (v[10] * v[12]));
    lemma_expand_minor(v[1], v[0] * (v[10] * v[15]), v[0] * (v[11] * v[14]), v[2] * (v[8] * v[15]), v[2] * (v[11] * v[12]), v[3] * (v[8] * v[14]), v[3] * (v[10] * v[12]));
    assert(v[1] * (v[0] * (v[10] * v[15])) == v[0] * (v[1] * (v[10] * v[15]))) by (nonlinear_arith);
    assert(v[1] * (v[0] * (v[11] * v[14])) == v[0] * (v[1] * (v[11] * v[14]))) by (nonlinear_arith);
    assert(ent4(v, 0, 1) * exact_cof4(v, 1, 1) == v[0] * (v[1] * (v[10] * v[15])) - v[0] * (v[1] * (v[11] * v[14])) - v[1] * (v[2] * (v[8] * v[15])) + v[1] * (v[2] * (v[11] * v[12])) + v[1] * (v[3] * (v[8] * v[14])) - v[1] * (v[3] * (v[10] * v[12])));
    assert(exact_cof4(v, 1, 2) == -(v[0] * (v[9] * v[15] - v[11] * v[13]) - v[1] * (v[8] * v[15] - v[11] * v[12]) + v[3] * (v[8] * v[13] - v[9] * v[12])));
    lemma_distribute2(v[0], v[9] * v[15], v[11] * v[13]);
    lemma_distribute2(v[1], v[8] * v[15], v[11] * v[12]);
    lemma_distribute2(v[3], v[8] * v[13], v[9] * v[12]);
    assert(exact_cof4(v, 1, 2) == -(v[0] * (v[9] * v[15])) + v[0] * (v[11] * v[13]) + v[1] * (v[8] * v[15]) - v[1] * (v[11] * v[12]) - v[3] * (v[8] * v[13]) + v[3] * (v[9] * v[12]));
    lemma_expand_minor_neg(v[2], v[0] * (v[9] * v[15]), v[0] * (v[11] * v[13]), v[1] * (v[8] * v[15]), v[1] * (v[11] * v[12]), v[3] * (v[8] * v[13]), v[3] * (v[9] * v[12]));
    assert(v[2] * (v[0] * (v[9] * v[15])) == v[0] * (v[2] * (v[9] * v[15]))) by (nonlinear_arith);
    assert(v[2] * (v[0] * (v[11] * v[13])) == v[0] * (v[2] * (v[11] * v[13]))) by (nonlinear_arith);
    assert(v[2] * (v[1] * (v[8] * v[15])) == v[1] * (v[2] * (v[8] * v[15]))) by (nonlinear_arith);
    assert(v[2] * (v[1] * (v[11] * v[12])) == v[1] * (v[2] * (v[11] * v[12]))) by (nonlinear_arith);
    assert(ent4(v, 0, 2) * exact_cof4(v, 1, 2) == -(v[0] * (v[2] * (v[9] * v[15]))) + v[0] * (v[2] * (v[11] * v[13])) + v[1] * (v[2] * (v[8] * v[15])) - v[1] * (v[2] * (v[11] * v[12])) - v[2] * (v[3] * (v[8] * v[13])) + v[2] * (v[3] * (v[9] * v[12])));
    assert(exact_cof4(v, 1, 3) == v[0] * (v[9] * v[14] - v[10] * v[13]) - v[1] * (v[8] * v[14] - v[10] * v[12]) + v[2] * (v[8] * v[13] - v[9] * v[12]));
    lemma_distribute2(v[0], v[9] * v[14], v[10] * v[13]);
    lemma_distribute2(v[1], v[8] * v[14], v[10] * v[12]);
    lemma_distribute2(v[2], v[8] * v[13], v[9] * v[12]);
    assert(exact_cof4(v, 1, 3) == v[0] * (v[9] * v[14]) - v[0] * (v[10] * v[13]) - v[1] * (v[8] * v[14]) + v[1] * (v[10] * v[12]) + v[2] * (v[8] * v[13]) - v[2] * (v[9] * v[12]));
    lemma_expand_minor(v[3], v[0] * (v[9] * v[14]), v[0] * (v[10] * v[13]), v[1] * (v[8] * v[14]), v[1] * (v[10] * v[12]), v[2] * (v[8] * v[13]), v[2] * (v[9] * v[12]));
    assert(v[3] * (v[0] * (v[9] * v[14])) == v[0] * (v[3] * (v[9] * v[14]))) by (nonlinear_arith);
    assert(v[3] * (v[0] * (v[10] * v[13])) == v[0] * (v[3] * (v[10] * v[13]))) by (nonlinear_arith);
    assert(v[3] * (v[1] * (v[8] * v[14])) == v[1] * (v[3] * (v[8] * v[14]))) by (nonlinear_arith);
    assert(v[3] * (v[1] * (v[10] * v[12])) == v[1] * (v[3] * (v[10] * v[12]))) by (nonlinear_arith);
    assert(v[3] * (v[2] * (v[8] * v[13])) == v[2] * (v[3] * (v[8] * v[13]))) by (nonlinear_arith);
    assert(v[3] * (v[2] * (v[9] * v[12])) == v[2] * (v[3] * (v[9] * v[12]))) by (nonlinear_arith);
    assert(ent4(v, 0, 3) * exact_cof4(v, 1, 3) == v[0] * (v[3] * (v[9] * v[14])) - v[0] * (v[3] * (v[10] * v[13])) - v[1] * (v[3] * (v[8] * v[14])) + v[1] * (v[3] * (v[10] * v[12])) + v[2] * (v[3] * (v[8] * v[13])) - v[2] * (v[3] * (v[9] * v[12])));
}

proof fn lemma_laplace_0_2(v: Seq<int>)
    requires
        v.len() == 16,
    ensures
        ent4(v, 0, 0) * exact_cof4(v, 2, 0) + ent4(v, 0, 1) * exact_cof4(v, 2, 1) + ent4(v, 0, 2)
            * exact_cof4(v, 2, 2) + ent4(v, 0, 3) * exact_cof4(v, 2, 3) == 0,
{
    assert(exact_cof4(v, 2, 0) == v[1] * (v[6] * v[15] - v[7] * v[14]) - v[2] * (v[5] * v[15] - v[7] * v[13]) + v[3] * (v[5] * v[14] - v[6] * v[13]));
    lemma_distribute2(v[1], v[6] * v[15], v[7] * v[14]);
    lemma_distribute2(v[2], v[5] * v[15], v[7] * v[13]);
    lemma_distribute2(v[3], v[5] * v[14], v[6] * v[13]);
    assert(exact_cof4(v, 2, 0) == v[1] * (v[6] * v[15]) - v[1] * (v[7] * v[14]) - v[2] * (v[5] * v[15]) + v[2] * (v[7] * v[13]) + v[3] * (v[5] * v[14]) - v[3] * (v[6] * v[13]));
    lemma_expand_minor(v[0], v[1] * (v[6] * v[15]), v[1] * (v[7] * v[14]), v[2] * (v[5] * v[15]), v[2] * (v[7] * v[13]), v[3] * (v[5] * v[14]), v[3] * (v[6] * v[13]));
    assert(ent4(v, 0, 0) * exact_cof4(v, 2, 0) == v[0] * (v[1] * (v[6] * v[15])) - v[0] * (v[1] * (v[7] * v[14])) - v[0] * (v[2] * (v[5] * v[15])) + v[0] * (v[2] * (v[7] * v[13])) + v[0] * (v[3] * (v[5] * v[14])) - v[0] * (v[3] * (v[6] * v[13])));
    assert(exact_cof4(v, 2, 1) == -(v[0] * (v[6] * v[15] - v[7] * v[14]) - v[2] * (v[4] * v[15] - v[7] * v[12]) + v[3] * (v[4] * v[14] - v[6] * v[12])));
    lemma_distribute2(v[0], v[6] * v[15], v[7] * v[14]);
    lemma_distribute2(v[2], v[4] * v[15], v[7] * v[12]);
    lemma_distribute2(v[3], v[4] * v[14], v[6] * v[12]);
    assert(exact_cof4(v, 2, 1) == -(v[0] * (v[6] * v[15])) + v[0] * (v[7] * v[14]) + v[2] * (v[4] * v[15]) - v[2] * (v[7] * v[12]) - v[3] * (v[4] * v[14]) + v[3] * (v[6] * v[12]));
    lemma_expand_minor_neg(v[1], v[0] * (v[6] * v[15]), v[0] * (v[7] * v[14]), v[2] * (v[4] * v[15]), v[2] * (v[7] * v[12]), v[3] * (v[4] * v[14]), v[3] * (v[6] * v[12]));
    assert(v[1] * (v[0] * (v[6] * v[15])) == v[0] * (v[1] * (v[6] * v[15]))) by (nonlinear_arith);
    assert(v[1] * (v[0] * (v[7] * v[14])) == v[0] * (v[1] * (v[7] * v[14]))) by (nonlinear_arith);
    assert(ent4(v, 0, 1) * exact_cof4(v, 2, 1) == -(v[0] * (v[1] * (v[6] * v[15]))) + v[0] * (v[1] * (v[7] * v[14])) + v[1] * (v[2] * (v[4] * v[15])) - v[1] * (v[2] * (v[7] * v[12])) - v[1] * (v[3] * (v[4] * v[14])) + v[1] * (v[3] * (v[6] * v[12])));
    assert(exact_cof4(v, 2, 2) == v[0] * (v[5] * v[15] - v[7] * v[13]) - v[1] * (v[4] * v[15] - v[7] * v[12]) + v[3] * (v[4] * v[13] - v[5] * v[12]));
    lemma_distribute2(v[0], v[5] * v[15], v[7] * v[13]);
    lemma_distribute2(v[1], v[4] * v[15], v[7] * v[12]);
    lemma_distribute2(v[3], v[4] * v[13], v[5] * v[12]);
    assert(exact_cof4(v, 2, 2) == v[0] * (v[5] * v[15]) - v[0] * (v[7] * v[13]) - v[1] * (v[4] * v[15]) + v[1] * (v[7] * v[12]) + v[3] * (v[4] * v[13]) - v[3] * (v[5] * v[12]));
    lemma_expand_minor(v[2], v[0] * (v[5] * v[15]), v[0] * (v[7] * v[13]), v[1] * (v[4] * v[15]), v[1] * (v[7] * v[12]), v[3] * (v[4] * v[13]), v[3] * (v[5] * v[12]));
    assert(v[2] * (v[0] * (v[5] * v[15])) == v[0] * (v[2] * (v[5] * v[15]))) by (nonlinear_arith);
    assert(v[2] * (v[0] * (v[7] * v[13])) == v[0] * (v[2] * (v[7] * v[13]))) by (nonlinear_arith);
    assert(v[2] * (v[1] * (v[4] * v[15])) == v[1] * (v[2] * (v[4] * v[15]))) by (nonlinear_arith);
    assert(v[2] * (v[1] * (v[7] * v[12])) == v[1] * (v[2] * (v[7] * v[12]))) by (nonlinear_arith);
    assert(ent4(v, 0, 2) * exact_cof4(v, 2, 2) == v[0] * (v[2] * (v[5] * v[15])) - v[0] * (v[2] * (v[7] * v[13])) - v[1] * (v[2] * (v[4] * v[15])) + v[1] * (v[2] * (v[7] * v[12])) + v[2] * (v[3] * (v[4] * v[13])) - v[2] * (v[3] * (v[5] * v[12])));
    assert(exact_cof4(v, 2, 3) == -(v[0] * (v[5] * v[14] - v[6] * v[13]) - v[1] * (v[4] * v[14] - v[6] * v[12]) + v[2] * (v[4] * v[13] - v[5] * v[12])));
    lemma_distribute2(v[0], v[5] * v[14], v[6] * v[13]);
    lemma_distribute2(v[1], v[4] * v[14], v[6] * v[12]);
    lemma_distribute2(v[2], v[4] * v[13], v[5] * v[12]);
    assert(exact_cof4(v, 2, 3) == -(v[0] * (v[5] * v[14])) + v[0] * (v[6] * v[13]) + v[1] * (v[4] * v[14]) - v[1] * (v[6] * v[12]) - v[2] * (v[4] * v[13]) + v[2] * (v[5] * v[12]));
    lemma_expand_minor_neg(v[3], v[0] * (v[5] * v[14]), v[0] * (v[6] * v[13]), v[1] * (v[4] * v[14]), v[1] * (v[6] * v[12]), v[2] * (v[4] * v[13]), v[2] * (v[5] * v[12]));
    assert(v[3] * (v[0] * (v[5] * v[14])) == v[0] * (v[3] * (v[5] * v[14]))) by (nonlinear_arith);
    assert(v[3] * (v[0] * (v[6] * v[13])) == v[0] * (v[3] * (v[6] * v[13]))) by (nonlinear_arith);
    assert(v[3] * (v[1] * (v[4] * v[14])) == v[1] * (v[3] * (v[4] * v[14]))) by (nonlinear_arith);
    assert(v[3] * (v[1] * (v[6] * v[12])) == v[1] * (v[3] * (v[6] * v[12]))) by (nonlinear_arith);
    assert(v[3] * (v[2] * (v[4] * v[13])) == v[2] * (v[3] * (v[4] * v[13]))) by (nonlinear_arith);
    assert(v[3] * (v[2] * (v[5] * v[12])) == v[2] * (v[3] * (v[5] * v[12]))) by (nonlinear_arith);
    assert(ent4(v, 0, 3) * exact_cof4(v, 2, 3) == -(v[0] * (v[3] * (v[5] * v[14]))) + v[0] * (v[3] * (v[6] * v[13])) + v[1] * (v[3] * (v[4] * v[14])) - v[1] * (v[3] * (v[6] * v[12])) - v[2] * (v[3] * (v[4] * v[13])) + v[2] * (v[3] * (v[5] * v[12])));
}

proof fn lemma_laplace_0_3(v: Seq<int>)
    requires
        v.len() == 16,
    ensures
        ent4(v, 0, 0) * exact_cof4(v, 3, 0) + ent4(v, 0, 1) * exact_cof4(v, 3, 1) + ent4(v, 0, 2)
            * exact_cof4(v, 3, 2) + ent4(v, 0, 3) * exact_cof4(v, 3, 3) == 0,
{
    assert(exact_cof4(v, 3, 0) == -(v[1] * (v[6] * v[11] - v[7] * v[10]) - v[2] * (v[5] * v[11] - v[7] * v[9]) + v[3] * (v[5] * v[10] - v[6] * v[9])));
    lemma_distribute2(v[1], v[6] * v[11], v[7] * v[10]);
    lemma_distribute2(v[2], v[5] * v[11], v[7] * v[9]);
    lemma_distribute2(v[3], v[5] * v[10], v[6] * v[9]);
    assert(exact_cof4(v, 3, 0) == -(v[1] * (v[6] * v[11])) + v[1] * (v[7] * v[10]) + v[2] * (v[5] * v[11]) - v[2] * (v[7] * v[9]) - v[3] * (v[5] * v[10]) + v[3] * (v[6] * v[9]));
    lemma_expand_minor_neg(v[0], v[1] * (v[6] * v[11]), v[1] * (v[7] * v[10]), v[2] * (v[5] * v[11]), v[2] * (v[7] * v[9]), v[3] * (v[5] * v[10]), v[3] * (v[6] * v[9]));
    assert(ent4(v, 0, 0) * exact_cof4(v, 3, 0) == -(v[0] * (v[1] * (v[6] * v[11]))) + v[0] * (v[1] * (v[7] * v[10])) + v[0] * (v[2] * (v[5] * v[11])) - v[0] * (v[2] * (v[7] * v[9])) - v[0] * (v[3] * (v[5] * v[10])) + v[0] * (v[3] * (v[6] * v[9])));
    assert(exact_cof4(v, 3, 1) == v[0] * (v[6] * v[11] - v[7] * v[10]) - v[2] * (v[4] * v[11] - v[7] * v[8]) + v[3] * (v[4] * v[10] - v[6] * v[8]));
    lemma_distribute2(v[0], v[6] * v[11], v[7] * v[10]);
    lemma_distribute2(v[2], v[4] * v[11], v[7] * v[8]);
    lemma_distribute2(v[3], v[4] * v[10], v[6] * v[8]);
    assert(exact_cof4(v, 3, 1) == v[0] * (v[6] * v[11]) - v[0] * (v[7] * v[10]) - v[2] * (v[4] * v[11]) + v[2] * (v[7] * v[8]) + v[3] * (v[4] * v[10]) - v[3] * (v[6] * v[8]));
    lemma_expand_minor(v[1], v[0] * (v[6] * v[11]), v[0] * (v[7] * v[10]), v[2] * (v[4] * v[11]), v[2] * (v[7] * v[8]), v[3] * (v[4] * v[10]), v[3] * (v[6] * v[8]));
    assert(v[1] * (v[0] * (v[6] * v[11])) == v[0] * (v[1] * (v[6] * v[11]))) by (nonlinear_arith);
    assert(v[1] * (v[0] * (v[7] * v[10])) == v[0] * (v[1] * (v[7] * v[10]))) by (nonlinear_arith);
    assert(ent4(v, 0, 1) * exact_cof4(v, 3, 1) == v[0] * (v[1] * (v[6] * v[11])) - v[0] * (v[1] * (v[7] * v[10])) - v[1] * (v[2] * (v[4] * v[11])) + v[1] * (v[2] * (v[7] * v[8])) + v[1] * (v[3] * (v[4] * v[10])) - v[1] * (v[3] * (v[6] * v[8])));
    assert(exact_cof4(v, 3, 2) == -(v[0] * (v[5] * v[11] - v[7] * v[9]) - v[1] * (v[4] * v[11] - v[7] * v[8]) + v[3] * (v[4] * v[9] - v[5] * v[8])));
    lemma_distribute2(v[0], v[5] * v[11], v[7] * v[9]);
    lemma_distribute2(v[1], v[4] * v[11], v[7] * v[8]);
    lemma_distribute2(v[3], v[4] * v[9], v[5] * v[8]);
    assert(exact_cof4(v, 3, 2) == -(v[0] * (v[5] * v[11])) + v[0] * (v[7] * v[9]) + v[1] * (v[4] * v[11]) - v[1] * (v[7] * v[8]) - v[3] * (v[4] * v[9]) + v[3] * (v[5] * v[8]));
    lemma_expand_minor_neg(v[2], v[0] * (v[5] * v[11]), v[0] * (v[7] * v[9]), v[1] * (v[4] * v[11]), v[1] * (v[7] * v[8]), v[3] * (v[4] * v[9]), v[3] * (v[5] * v[8]));
    assert(v[2] * (v[0] * (v[5] * v[11])) == v[0] * (v[2] * (v[5] * v[11]))) by (nonlinear_arith);
    assert(v[2] * (v[0] * (v[7] * v[9])) == v[0] * (v[2] * (v[7] * v[9]))) by (nonlinear_arith);
    assert(v[2] * (v[1] * (v[4] * v[11])) == v[1] * (v[2] * (v[4] * v[11]))) by (nonlinear_arith);
    assert(v[2] * (v[1] * (v[7] * v[8])) == v[1] * (v[2] * (v[7] * v[8]))) by (nonlinear_arith);
    assert(ent4(v, 0, 2) * exact_cof4(v, 3, 2) == -(v[0] * (v[2] * (v[5] * v[11]))) + v[0] * (v[2] * (v[7] * v[9])) + v[1] * (v[2] * (v[4] * v[11])) - v[1] * (v[2] * (v[7] * v[8])) - v[2] * (v[3] * (v[4] * v[9])) + v[2] * (v[3] * (v[5] * v[8])));
    assert(exact_cof4(v, 3, 3) == v[0] * (v[5] * v[10] - v[6] * v[9]) - v[1] * (v[4] * v[10] - v[6] * v[8]) + v[2] * (v[4] * v[9] - v[5] * v[8]));
    lemma_distribute2(v[0], v[5] * v[10], v[6] * v[9]);
    lemma_distribute2(v[1], v[4] * v[10], v[6] * v[8]);
    lemma_distribute2(v[2], v[4] * v[9], v[5] * v[8]);
    assert(exact_cof4(v, 3, 3) == v[0] * (v[5] * v[10]) - v[0] * (v[6] * v[9]) - v[1] * (v[4] * v[10]) + v[1] * (v[6] * v[8]) + v[2] * (v[4] * v[9]) - v[2] * (v[5] * v[8]));
    lemma_expand_minor(v[3], v[0] * (v[5] * v[10]), v[0] * (v[6] * v[9]), v[1] * (v[4] * v[10]), v[1] * (v[6] * v[8]), v[2] * (v[4] * v[9]), v[2] * (v[5] * v[8]));
    assert(v[3] * (v[0] * (v[5] * v[10])) == v[0] * (v[3] * (v[5] * v[10]))) by (nonlinear_arith);
    assert(v[3] * (v[0] * (v[6] * v[9])) == v[0] * (v[3] * (v[6] * v[9]))) by (nonlinear_arith);
    assert(v[3] * (v[1] * (v[4] * v[10])) == v[1] * (v[3] * (v[4] * v[10]))) by (nonlinear_arith);
    assert(v[3] * (v[1] * (v[6] * v[8])) == v[1] * (v[3] * (v[6] * v[8]))) by (nonlinear_arith);
    assert(v[3] * (v[2] * (v[4] * v[9])) == v[2] * (v[3] * (v[4] * v[9]))) by (nonlinear_arith);
    assert(v[3] * (v[2] * (v[5] * v[8])) == v[2] * (v[3] * (v[5] * v[8]))) by (nonlinear_arith);
    assert(ent4(v, 0, 3) * exact_cof4(v, 3, 3) == v[0] * (v[3] * (v[5] * v[10])) - v[0] * (v[3] * (v[6] * v[9])) - v[1] * (v[3] * (v[4] * v[10])) + v[1] * (v[3] * (v[6] * v[8])) + v[2] * (v[3] * (v[4] * v[9])) - v[2] * (v[3] * (v[5] * v[8])));
}

proof fn lemma_laplace_1_0(v: Seq<int>)
    requires
        v.len() == 16,
    ensures
        ent4(v, 1, 0) * exact_cof4(v, 0, 0) + ent4(v, 1, 1) * exact_cof4(v, 0, 1) + ent4(v, 1, 2)
            * exact_cof4(v, 0, 2) + ent4(v, 1, 3) * exact_cof4(v, 0, 3) == 0,
{
    assert(exact_cof4(v, 0, 0) == v[5] * (v[10] * v[15] - v[11] * v[14]) - v[6] * (v[9] * v[15] - v[11] * v[13]) + v[7] * (v[9] * v[14] - v[10] * v[13]));
    lemma_distribute2(v[5], v[10] * v[15], v[11] * v[14]);
    lemma_distribute2(v[6], v[9] * v[15], v[11] * v[13]);
    lemma_distribute2(v[7], v[9] * v[14], v[10] * v[13]);
    assert(exact_cof4(v, 0, 0) == v[5] * (v[10] * v[15]) - v[5] * (v[11] * v[14]) - v[6] * (v[9] * v[15]) + v[6] * (v[11] * v[13]) + v[7] * (v[9] * v[14]) - v[7] * (v[10] * v[13]));
    lemma_expand_minor(v[4], v[5] * (v[10] * v[15]), v[5] * (v[11] * v[14]), v[6] * (v[9] * v[15]), v[6] * (v[11] * v[13]), v[7] * (v[9] * v[14]), v[7] * (v[10] * v[13]));
    assert(ent4(v, 1, 0) * exact_cof4(v, 0, 0) == v[4] * (v[5] * (v[10] * v[15])) - v[4] * (v[5] * (v[11] * v[14])) - v[4] * (v[6] * (v[9] * v[15])) + v[4] * (v[6] * (v[11] * v[13])) + v[4] * (v[7] * (v[9] * v[14])) - v[4] * (v[7] * (v[10] * v[13])));
    assert(exact_cof4(v, 0, 1) == -(v[4] * (v[10] * v[15] - v[11] * v[14]) - v[6] * (v[8] * v[15] - v[11] * v[12]) + v[7] * (v[8] * v[14] - v[10] * v[12])));
    lemma_distribute2(v[4], v[10] * v[15], v[11] * v[14]);
    lemma_distribute2(v[6], v[8] * v[15], v[11] * v[12]);
    lemma_distribute2(v[7], v[8] * v[14], v[10] * v[12]);
    assert(exact_cof4(v, 0, 1) == -(v[4] * (v[10] * v[15])) + v[4] * (v[11] * v[14]) + v[6] * (v[8] * v[15]) - v[6] * (v[11] * v[12]) - v[7] * (v[8] * v[14]) + v[7] * (v[10] * v[12]));
    lemma_expand_minor_neg(v[5], v[4] * (v[10] * v[15]), v[4] * (v[11] * v[14]), v[6] * (v[8] * v[15]), v[6] * (v[11] * v[12]), v[7] * (v[8] * v[14]), v[7] * (v[10] * v[12]));
    assert(v[5] * (v[4] * (v[10] * v[15])) == v[4] * (v[5] * (v[10] * v[15]))) by (nonlinear_arith);
    assert(v[5] * (v[4] * (v[11] * v[14])) == v[4] * (v[5] * (v[11] * v[14]))) by (nonlinear_arith);
    assert(ent4(v, 1, 1) * exact_cof4(v, 0, 1) == -(v[4] * (v[5] * (v[10] * v[15]))) + v[4] * (v[5] * (v[11] * v[14])) + v[5] * (v[6] * (v[8] * v[15])) - v[5] * (v[6] * (v[11] * v[12])) - v[5] * (v[7] * (v[8] * v[14])) + v[5] * (v[7] * (v[10] * v[12])));
    assert(exact_cof4(v, 0, 2) == v[4] * (v[9] * v[15] - v[11] * v[13]) - v[5] * (v[8] * v[15] - v[11] * v[12]) + v[7] * (v[8] * v[13] - v[9] * v[12]));
    lemma_distribute2(v[4], v[9] * v[15], v[11] * v[13]);
    lemma_distribute2(v[5], v[8] * v[15], v[11] * v[12]);
    lemma_distribute2(v[7], v[8] * v[13], v[9] * v[12]);
    assert(exact_cof4(v, 0, 2) == v[4] * (v[9] * v[15]) - v[4] * (v[11] * v[13]) - v[5] * (v[8] * v[15]) + v[5] * (v[11] * v[12]) + v[7] * (v[8] * v[13]) - v[7] * (v[9] * v[12]));
    lemma_expand_minor(v[6], v[4] * (v[9] * v[15]), v[4] * (v[11] * v[13]), v[5] * (v[8] * v[15]), v[5] * (v[11] * v[12]), v[7] * (v[8] * v[13]), v[7] * (v[9] * v[12]));
    assert(v[6] * (v[4] * (v[9] * v[15])) == v[4] * (v[6] * (v[9] * v[15]))) by (nonlinear_arith);
    assert(v[6] * (v[4] * (v[11] * v[13])) == v[4] * (v[6] * (v[11] * v[13]))) by (nonlinear_arith);
    assert(v[6] * (v[5] * (v[8] * v[15])) == v[5] * (v[6] * (v[8] * v[15]))) by (nonlinear_arith);
    assert(v[6] * (v[5] * (v[11] * v[12])) == v[5] * (v[6] * (v[11] * v[12]))) by (nonlinear_arith);
    assert(ent4(v, 1, 2) * exact_cof4(v, 0, 2) == v[4] * (v[6] * (v[9] * v[15])) - v[4] * (v[6] * (v[11] * v[13])) - v[5] * (v[6] * (v[8] * v[15])) + v[5] * (v[6] * (v[11] * v[12])) + v[6] * (v[7] * (v[8] * v[13])) - v[6] * (v[7] * (v[9] * v[12])));
    assert(exact_cof4(v, 0, 3) == -(v[4] * (v[9] * v[14] - v[10] * v[13]) - v[5] * (v[8] * v[14] - v[10] * v[12]) + v[6] * (v[8] * v[13] - v[9] * v[12])));
    lemma_distribute2(v[4], v[9] * v[14], v[10] * v[13]);
    lemma_distribute2(v[5], v[8] * v[14], v[10] * v[12]);
    lemma_distribute2(v[6], v[8] * v[13], v[9] * v[12]);
    assert(exact_cof4(v, 0, 3) == -(v[4] * (v[9] * v[14])) + v[4] * (v[10] * v[13]) + v[5] * (v[8] * v[14]) - v[5] * (v[10] * v[12]) - v[6] * (v[8] * v[13]) + v[6] * (v[9] * v[12]));
    lemma_expand_minor_neg(v[7], v[4] * (v[9] * v[14]), v[4] * (v[10] * v[13]), v[5] * (v[8] * v[14]), v[5] * (v[10] * v[12]), v[6] * (v[8] * v[13]), v[6] * (v[9] * v[12]));
    assert(v[7] * (v[4] * (v[9] * v[14])) == v[4] * (v[7] * (v[9] * v[14]))) by (nonlinear_arith);
    assert(v[7] * (v[4] * (v[10] * v[13])) == v[4] * (v[7] * (v[10] * v[13]))) by (nonlinear_arith);
    assert(v[7] * (v[5] * (v[8] * v[14])) == v[5] * (v[7] * (v[8] * v[14]))) by (nonlinear_arith);
    assert(v[7] * (v[5] * (v[10] * v[12])) == v[5] * (v[7] * (v[10] * v[12]))) by (nonlinear_arith);
    assert(v[7] * (v[6] * (v[8] * v[13])) == v[6] * (v[7] * (v[8] * v[13]))) by (nonlinear_arith);
    assert(v[7] * (v[6] * (v[9] * v[12])) == v[6] * (v[7] * (v[9] * v[12]))) by (nonlinear_arith);
    assert(ent4(v, 1, 3) * exact_cof4(v, 0, 3) == -(v[4] * (v[7] * (v[9] * v[14]))) + v[4] * (v[7] * (v[10] * v[13])) + v[5] * (v[7] * (v[8] * v[14])) - v[5] * (v[7] * (v[10] * v[12])) - v[6] * (v[7] * (v[8] * v[13])) + v[6] * (v[7] * (v[9] * v[12])));
}

proof fn lemma_laplace_1_1(v: Seq<int>)
    requires
        v.len() == 16,
    ensures
        ent4(v, 1, 0) * exact_cof4(v, 1, 0) + ent4(v, 1, 1) * exact_cof4(v, 1, 1) + ent4(v, 1, 2)
            * exact_cof4(v, 1, 2) + ent4(v, 1, 3) * exact_cof4(v, 1, 3) == exact_det4(v),
{
    assert(exact_cof4(v, 1, 0) == -(v[1] * (v[10] * v[15] - v[11] * v[14]) - v[2] * (v[9] * v[15] - v[11] * v[13]) + v[3] * (v[9] * v[14] - v[10] * v[13])));
    lemma_distribute2(v[1], v[10] * v[15], v[11] * v[14]);
    lemma_distribute2(v[2], v[9] * v[15], v[11] * v[13]);
    lemma_distribute2(v[3], v[9] * v[14], v[10] * v[13]);
    assert(exact_cof4(v, 1, 0) == -(v[1] * (v[10] * v[15])) + v[1] * (v[11] * v[14]) + v[2] * (v[9] * v[15]) - v[2] * (v[11] * v[13]) - v[3] * (v[9] * v[14]) + v[3] * (v[10] * v[13]));
    lemma_expand_minor_neg(v[4], v[1] * (v[10] * v[15]), v[1] * (v[11] * v[14]), v[2] * (v[9] * v[15]), v[2] * (v[11] * v[13]), v[3] * (v[9] * v[14]), v[3] * (v[10] * v[13]));
    assert(v[4] * (v[1] * (v[10] * v[15])) == v[1] * (v[4] * (v[10] * v[15]))) by (nonlinear_arith);
    assert(v[4] * (v[1] * (v[11] * v[14])) == v[1] * (v[4] * (v[11] * v[14]))) by (nonlinear_arith);
    assert(v[4] * (v[2] * (v[9] * v[15])) == v[2] * (v[4] * (v[9] * v[15]))) by (nonlinear_arith);
    assert(v[4] * (v[2] * (v[11] * v[13])) == v[2] * (v[4] * (v[11] * v[13]))) by (nonlinear_arith);
    assert(v[4] * (v[3] * (v[9] * v[14])) == v[3] * (v[4] * (v[9] * v[14]))) by (nonlinear_arith);
    assert(v[4] * (v[3] * (v[10] * v[13])) == v[3] * (v[4] * (v[10] * v[13]))) by (nonlinear_arith);
    assert(ent4(v, 1, 0) * exact_cof4(v, 1, 0) == -(v[1] * (v[4] * (v[10] * v[15]))) + v[1] * (v[4] * (v[11] * v[14])) + v[2] * (v[4] * (v[9] * v[15])) - v[2] * (v[4] * (v[11] * v[13])) - v[3] * (v[4] * (v[9] * v[14])) + v[3] * (v[4] * (v[10] * v[13])));
    assert(exact_cof4(v, 1, 1) == v[0] * (v[10] * v[15] - v[11] * v[14]) - v[2] * (v[8] * v[15] - v[11] * v[12]) + v[3] * (v[8] * v[14] - v[10] * v[12]));
    lemma_distribute2(v[0], v[10] * v[15], v[11] * v[14]);
    lemma_distribute2(v[2], v[8] * v[15], v[11] * v[12]);
    lemma_distribute2(v[3], v[8] * v[14], v[10] * v[12]);
    assert(exact_cof4(v, 1, 1) == v[0] * (v[10] * v[15]) - v[0] * (v[11] * v[14]) - v[2] * (v[8] * v[15]) + v[2] * (v[11] * v[12]) + v[3] * (v[8] * v[14]) - v[3] * (v[10] * v[12]));
    lemma_expand_minor(v[5], v[0] * (v[10] * v[15]), v[0] * (v[11] * v[14]), v[2] * (v[8] * v[15]), v[2] * (v[11] * v[12]), v[3] * (v[8] * v[14]), v[3] * (v[10] * v[12]));
    assert(v[5] * (v[0] * (v[10] * v[15])) == v[0] * (v[5] * (v[10] * v[15]))) by (nonlinear_arith);
    assert(v[5] * (v[0] * (v[11] * v[14])) == v[0] * (v[5] * (v[11] * v[14]))) by (nonlinear_arith);
    assert(v[5] * (v[2] * (v[8] * v[15])) == v[2] * (v[5] * (v[8] * v[15]))) by (nonlinear_arith);
    assert(v[5] * (v[2] * (v[11] * v[12])) == v[2] * (v[5] * (v[11] * v[12]))) by (nonlinear_arith);
    assert(v[5] * (v[3] * (v[8] * v[14])) == v[3] * (v[5] * (v[8] * v[14]))) by (nonlinear_arith);
    assert(v[5] * (v[3] * (v[10] * v[12])) == v[3] * (v[5] * (v[10] * v[12]))) by (nonlinear_arith);
    assert(ent4(v, 1, 1) * exact_cof4(v, 1, 1) == v[0] * (v[5] * (v[10] * v[15])) - v[0] * (v[5] * (v[11] * v[14])) - v[2] * (v[5] * (v[8] * v[15])) + v[2] * (v[5] * (v[11] * v[12])) + v[3] * (v[5] * (v[8] * v[14])) - v[3] * (v[5] * (v[10] * v[12])));
    assert(exact_cof4(v, 1, 2) == -(v[0] * (v[9] * v[15] - v[11] * v[13]) - v[1] * (v[8] * v[15] - v[11] * v[12]) + v[3] * (v[8] * v[13] - v[9] * v[12])));
    lemma_distribute2(v[0], v[9] * v[15], v[11] * v[13]);
    lemma_distribute2(v[1], v[8] * v[15], v[11] * v[12]);
    lemma_distribute2(v[3], v[8] * v[13], v[9] * v[12]);
    assert(exact_cof4(v, 1, 2) == -(v[0] * (v[9] * v[15])) + v[0] * (v[11] * v[13]) + v[1] * (v[8] * v[15]) - v[1] * (v[11] * v[12]) - v[3] * (v[8] * v[13]) + v[3] * (v[9] * v[12]));
    lemma_expand_minor_neg(v[6], v[0] * (v[9] * v[15]), v[0] * (v[11] * v[13]), v[1] * (v[8] * v[15]), v[1] * (v[11] * v[12]), v[3] * (v[8] * v[13]), v[3] * (v[9] * v[12]));
    assert(v[6] * (v[0] * (v[9] * v[15])) == v[0] * (v[6] * (v[9] * v[15]))) by (nonlinear_arith);
    assert(v[6] * (v[0] * (v[11] * v[13])) == v[0] * (v[6] * (v[11] * v[13]))) by (nonlinear_arith);
    assert(v[6] * (v[1] * (v[8] * v[15])) == v[1] * (v[6] * (v[8] * v[15]))) by (nonlinear_arith);
    assert(v[6] * (v[1] * (v[11] * v[12])) == v[1] * (v[6] * (v[11] * v[12]))) by (nonlinear_arith);
    assert(v[6] * (v[3] * (v[8] * v[13])) == v[3] * (v[6] * (v[8] * v[13]))) by (nonlinear_arith);
    assert(v[6] * (v[3] * (v[9] * v[12])) == v[3] * (v[6] * (v[9] * v[12]))) by (nonlinear_arith);
    assert(ent4(v, 1, 2) * exact_cof4(v, 1, 2) == -(v[0] * (v[6] * (v[9] * v[15]))) + v[0] * (v[6] * (v[11] * v[13])) + v[1] * (v[6] * (v[8] * v[15])) - v[1] * (v[6] * (v[11] * v[12])) - v[3] * (v[6] * (v[8] * v[13])) + v[3] * (v[6] * (v[9] * v[12])));
    assert(exact_cof4(v, 1, 3) == v[0] * (v[9] * v[14] - v[10] * v[13]) - v[1] * (v[8] * v[14] - v[10] * v[12]) + v[2] * (v[8] * v[13] - v[9] * v[12]));
    lemma_distribute2(v[0], v[9] * v[14], v[10] * v[13]);
    lemma_distribute2(v[1], v[8] * v[14], v[10] * v[12]);
    lemma_distribute2(v[2], v[8] * v[13], v[9] * v[12]);
    assert(exact_cof4(v, 1, 3) == v[0] * (v[9] * v[14]) - v[0] * (v[10] * v[13]) - v[1] * (v[8] * v[14]) + v[1] * (v[10] * v[12]) + v[2] * (v[8] * v[13]) - v[2] * (v[9] * v[12]));
    lemma_expand_minor(v[7], v[0] * (v[9] * v[14]), v[0] * (v[10] * v[13]), v[1] * (v[8] * v[14]), v[1] * (v[10] * v[12]), v[2] * (v[8] * v[13]), v[2] * (v[9] * v[12]));
    assert(v[7] * (v[0] * (v[9] * v[14])) == v[0] * (v[7] * (v[9] * v[14]))) by (nonlinear_arith);
    assert(v[7] * (v[0] * (v[10] * v[13])) == v[0] * (v[7] * (v[10] * v[13]))) by (nonlinear_arith);
    assert(v[7] * (v[1] * (v[8] * v[14])) == v[1] * (v[7] * (v[8] * v[14]))) by (nonlinear_arith);
    assert(v[7] * (v[1] * (v[10] * v[12])) == v[1] * (v[7] * (v[10] * v[12]))) by (nonlinear_arith);
    assert(v[7] * (v[2] * (v[8] * v[13])) == v[2] * (v[7] * (v[8] * v[13]))) by (nonlinear_arith);
    assert(v[7] * (v[2] * (v[9] * v[12])) == v[2] * (v[7] * (v[9] * v[12]))) by (nonlinear_arith);
    assert(ent4(v, 1, 3) * exact_cof4(v, 1, 3) == v[0] * (v[7] * (v[9] * v[14])) - v[0] * (v[7] * (v[10] * v[13])) - v[1] * (v[7] * (v[8] * v[14])) + v[1] * (v[7] * (v[10] * v[12])) + v[2] * (v[7] * (v[8] * v[13])) - v[2] * (v[7] * (v[9] * v[12])));
    assert(exact_cof4(v, 0, 0) == v[5] * (v[10] * v[15] - v[11] * v[14]) - v[6] * (v[9] * v[15] - v[11] * v[13]) + v[7] * (v[9] * v[14] - v[10] * v[13]));
    lemma_distribute2(v[5], v[10] * v[15], v[11] * v[14]);
    lemma_distribute2(v[6], v[9] * v[15], v[11] * v[13]);
    lemma_distribute2(v[7], v[9] * v[14], v[10] * v[13]);
    assert(exact_cof4(v, 0, 0) == v[5] * (v[10] * v[15]) - v[5] * (v[11] * v[14]) - v[6] * (v[9] * v[15]) + v[6] * (v[11] * v[13]) + v[7] * (v[9] * v[14]) - v[7] * (v[10] * v[13]));
    lemma_expand_minor(v[0], v[5] * (v[10] * v[15]), v[5] * (v[11] * v[14]), v[6] * (v[9] * v[15]), v[6] * (v[11] * v[13]), v[7] * (v[9] * v[14]), v[7] * (v[10] * v[13]));
    assert(ent4(v, 0, 0) * exact_cof4(v, 0, 0) == v[0] * (v[5] * (v[10] * v[15])) - v[0] * (v[5] * (v[11] * v[14])) - v[0] * (v[6] * (v[9] * v[15])) + v[0] * (v[6] * (v[11] * v[13])) + v[0] * (v[7] * (v[9] * v[14])) - v[0] * (v[7] * (v[10] * v[13])));
    assert(exact_cof4(v, 0, 1) == -(v[4] * (v[10] * v[15] - v[11] * v[14]) - v[6] * (v[8] * v[15] - v[11] * v[12]) + v[7] * (v[8] * v[14] - v[10] * v[12])));
    lemma_distribute2(v[4], v[10] * v[15], v[11] * v[14]);
    lemma_distribute2(v[6], v[8] * v[15], v[11] * v[12]);
    lemma_distribute2(v[7], v[8] * v[14], v[10] * v[12]);
    assert(exact_cof4(v, 0, 1) == -(v[4] * (v[10] * v[15])) + v[4] * (v[11] * v[14]) + v[6] * (v[8] * v[15]) - v[6] * (v[11] * v[12]) - v[7] * (v[8] * v[14]) + v[7] * (v[10] * v[12]));
    lemma_expand_minor_neg(v[1], v[4] * (v[10] * v[15]), v[4] * (v[11] * v[14]), v[6] * (v[8] * v[15]), v[6] * (v[11] * v[12]), v[7] * (v[8] * v[14]), v[7] * (v[10] * v[12]));
    assert(ent4(v, 0, 1) * exact_cof4(v, 0, 1) == -(v[1] * (v[4] * (v[10] * v[15]))) + v[1] * (v[4] * (v[11] * v[14])) + v[1] * (v[6] * (v[8] * v[15])) - v[1] * (v[6] * (v[11] * v[12])) - v[1] * (v[7] * (v[8] * v[14])) + v[1] * (v[7] * (v[10] * v[12])));
    assert(exact_cof4(v, 0, 2) == v[4] * (v[9] * v[15] - v[11] * v[13]) - v[5] * (v[8] * v[15] - v[11] * v[12]) + v[7] * (v[8] * v[13] - v[9] * v[12]));
    lemma_distribute2(v[4], v[9] * v[15], v[11] * v[13]);
    lemma_distribute2(v[5], v[8] * v[15], v[11] * v[12]);
    lemma_distribute2(v[7], v[8] * v[13], v[9] * v[12]);
    assert(exact_cof4(v, 0, 2) == v[4] * (v[9] * v[15]) - v[4] * (v[11] * v[13]) - v[5] * (v[8] * v[15]) + v[5] * (v[11] * v[12]) + v[7] * (v[8] * v[13]) - v[7] * (v[9] * v[12]));
    lemma_expand_minor(v[2], v[4] * (v[9] * v[15]), v[4] * (v[11] * v[13]), v[5] * (v[8] * v[15]), v[5] * (v[11] * v[12]), v[7] * (v[8] * v[13]), v[7] * (v[9] * v[12]));
    assert(ent4(v, 0, 2) * exact_cof4(v, 0, 2) == v[2] * (v[4] * (v[9] * v[15])) - v[2] * (v[4] * (v[11] * v[13])) - v[2] * (v[5] * (v[8] * v[15])) + v[2] * (v[5] * (v[11] * v[12])) + v[2] * (v[7] * (v[8] * v[13])) - v[2] * (v[7] * (v[9] * v[12])));
    assert(exact_cof4(v, 0, 3) == -(v[4] * (v[9] * v[14] - v[10] * v[13]) - v[5] * (v[8] * v[14] - v[10] * v[12]) + v[6] * (v[8] * v[13] - v[9] * v[12])));
    lemma_distribute2(v[4], v[9] * v[14], v[10] * v[13]);
    lemma_distribute2(v[5], v[8] * v[14], v[10] * v[12]);
    lemma_distribute2(v[6], v[8] * v[13], v[9] * v[12]);
    assert(exact_cof4(v, 0, 3) == -(v[4] * (v[9] * v[14])) + v[4] * (v[10] * v[13]) + v[5] * (v[8] * v[14]) - v[5] * (v[10] * v[12]) - v[6] * (v[8] * v[13]) + v[6] * (v[9] * v[12]));
    lemma_expand_minor_neg(v[3], v[4] * (v[9] * v[14]), v[4] * (v[10] * v[13]), v[5] * (v[8] * v[14]), v[5] * (v[10] * v[12]), v[6] * (v[8] * v[13]), v[6] * (v[9] * v[12]));
    assert(ent4(v, 0, 3) * exact_cof4(v, 0, 3) == -(v[3] * (v[4] * (v[9] * v[14]))) + v[3] * (v[4] * (v[10] * v[13])) + v[3] * (v[5] * (v[8] * v[14])) - v[3] * (v[5] * (v[10] * v[12])) - v[3] * (v[6] * (v[8] * v[13])) + v[3] * (v[6] * (v[9] * v[12])));
}

proof fn lemma_laplace_1_2(v: Seq<int>)
    requires
        v.len() == 16,
    ensures
        ent4(v, 1, 0) * exact_cof4(v, 2, 0) + ent4(v, 1, 1) * exact_cof4(v, 2, 1) + ent4(v, 1, 2)
            * exact_cof4(v, 2, 2) + ent4(v, 1, 3) * exact_cof4(v, 2, 3) == 0,
{
    assert(exact_cof4(v, 2, 0) == v[1] * (v[6] * v[15] - v[7] * v[14]) - v[2] * (v[5] * v[15] - v[7] * v[13]) + v[3] * (v[5] * v[14] - v[6] * v[13]));
    lemma_distribute2(v[1], v[6] * v[15], v[7] * v[14]);
    lemma_distribute2(v[2], v[5] * v[15], v[7] * v[13]);
    lemma_distribute2(v[3], v[5] * v[14], v[6] * v[13]);
    assert(exact_cof4(v, 2, 0) == v[1] * (v[6] * v[15]) - v[1] * (v[7] * v[14]) - v[2] * (v[5] * v[15]) + v[2] * (v[7] * v[13]) + v[3] * (v[5] * v[14]) - v[3] * (v[6] * v[13]));
    lemma_expand_minor(v[4], v[1] * (v[6] * v[15]), v[1] * (v[7] * v[14]), v[2] * (v[5] * v[15]), v[2] * (v[7] * v[13]), v[3] * (v[5] * v[14]), v[3] * (v[6] * v[13]));
    assert(v[4] * (v[1] * (v[6] * v[15])) == v[1] * (v[4] * (v[6] * v[15]))) by (nonlinear_arith);
    assert(v[4] * (v[1] * (v[7] * v[14])) == v[1] * (v[4] * (v[7] * v[14]))) by (nonlinear_arith);
    assert(v[4] * (v[2] * (v[5] * v[15])) == v[2] * (v[4] * (v[5] * v[15]))) by (nonlinear_arith);
    assert(v[4] * (v[2] * (v[7] * v[13])) == v[2] * (v[4] * (v[7] * v[13]))) by (nonlinear_arith);
    assert(v[4] * (v[3] * (v[5] * v[14])) == v[3] * (v[4] * (v[5] * v[14]))) by (nonlinear_arith);
    assert(v[4] * (v[3] * (v[6] * v[13])) == v[3] * (v[4] * (v[6] * v[13]))) by (nonlinear_arith);
    assert(ent4(v, 1, 0) * exact_cof4(v, 2, 0) == v[1] * (v[4] * (v[6] * v[15])) - v[1] * (v[4] * (v[7] * v[14])) - v[2] * (v[4] * (v[5] * v[15])) + v[2] * (v[4] * (v[7] * v[13])) + v[3] * (v[4] * (v[5] * v[14])) - v[3] * (v[4] * (v[6] * v[13])));
    assert(exact_cof4(v, 2, 1) == -(v[0] * (v[6] * v[15] - v[7] * v[14]) - v[2] * (v[4] * v[15] - v[7] * v[12]) + v[3] * (v[4] * v[14] - v[6] * v[12])));
    lemma_distribute2(v[0], v[6] * v[15], v[7] * v[14]);
    lemma_distribute2(v[2], v[4] * v[15], v[7] * v[12]);
    lemma_distribute2(v[3], v[4] * v[14], v[6] * v[12]);
    assert(exact_cof4(v, 2, 1) == -(v[0] * (v[6] * v[15])) + v[0] * (v[7] * v[14]) + v[2] * (v[4] * v[15]) - v[2] * (v[7] * v[12]) - v[3] * (v[4] * v[14]) + v[3] * (v[6] * v[12]));
    lemma_expand_minor_neg(v[5], v[0] * (v[6] * v[15]), v[0] * (v[7] * v[14]), v[2] * (v[4] * v[15]), v[2] * (v[7] * v[12]), v[3] * (v[4] * v[14]), v[3] * (v[6] * v[12]));
    assert(v[5] * (v[0] * (v[6] * v[15])) == v[0] * (v[5] * (v[6] * v[15]))) by (nonlinear_arith);
    assert(v[5] * (v[0] * (v[7] * v[14])) == v[0] * (v[5] * (v[7] * v[14]))) by (nonlinear_arith);
    assert(v[5] * (v[2] * (v[4] * v[15])) == v[2] * (v[4] * (v[5] * v[15]))) by (nonlinear_arith);
    assert(v[5] * (v[2] * (v[7] * v[12])) == v[2] * (v[5] * (v[7] * v[12]))) by (nonlinear_arith);
    assert(v[5] * (v[3] * (v[4] * v[14])) == v[3] * (v[4] * (v[5] * v[14]))) by (nonlinear_arith);
    assert(v[5] * (v[3] * (v[6] * v[12])) == v[3] * (v[5] * (v[6] * v[12]))) by (nonlinear_arith);
    assert(ent4(v, 1, 1) * exact_cof4(v, 2, 1) == -(v[0] * (v[5] * (v[6] * v[15]))) + v[0] * (v[5] * (v[7] * v[14])) + v[2] * (v[4] * (v[5] * v[15])) - v[2] * (v[5] * (v[7] * v[12])) - v[3] * (v[4] * (v[5] * v[14])) + v[3] * (v[5] * (v[6] * v[12])));
    assert(exact_cof4(v, 2, 2) == v[0] * (v[5] * v[15] - v[7] * v[13]) - v[1] * (v[4] * v[15] - v[7] * v[12]) + v[3] * (v[4] * v[13] - v[5] * v[12]));
    lemma_distribute2(v[0], v[5] * v[15], v[7] * v[13]);
    lemma_distribute2(v[1], v[4] * v[15], v[7] * v[12]);
    lemma_distribute2(v[3], v[4] * v[13], v[5] * v[12]);
    assert(exact_cof4(v, 2, 2) == v[0] * (v[5] * v[15]) - v[0] * (v[7] * v[13]) - v[1] * (v[4] * v[15]) + v[1] * (v[7] * v[12]) + v[3] * (v[4] * v[13]) - v[3] * (v[5] * v[12]));
    lemma_expand_minor(v[6], v[0] * (v[5] * v[15]), v[0] * (v[7] * v[13]), v[1] * (v[4] * v[15]), v[1] * (v[7] * v[12]), v[3] * (v[4] * v[13]), v[3] * (v[5] * v[12]));
    assert(v[6] * (v[0] * (v[5] * v[15])) == v[0] * (v[5] * (v[6] * v[15]))) by (nonlinear_arith);
    assert(v[6] * (v[0] * (v[7] * v[13])) == v[0] * (v[6] * (v[7] * v[13]))) by (nonlinear_arith);
    assert(v[6] * (v[1] * (v[4] * v[15])) == v[1] * (v[4] * (v[6] * v[15]))) by (nonlinear_arith);
    assert(v[6] * (v[1] * (v[7] * v[12])) == v[1] * (v[6] * (v[7] * v[12]))) by (nonlinear_arith);
    assert(v[6] * (v[3] * (v[4] * v[13])) == v[3] * (v[4] * (v[6] * v[13]))) by (nonlinear_arith);
    assert(v[6] * (v[3] * (v[5] * v[12])) == v[3] * (v[5] * (v[6] * v[12]))) by (nonlinear_arith);
    assert(ent4(v, 1, 2) * exact_cof4(v, 2, 2) == v[0] * (v[5] * (v[6] * v[15])) - v[0] * (v[6] * (v[7] * v[13])) - v[1] * (v[4] * (v[6] * v[15])) + v[1] * (v[6] * (v[7] * v[12])) + v[3] * (v[4] * (v[6] * v[13])) - v[3] * (v[5] * (v[6] * v[12])));
    assert(exact_cof4(v, 2, 3) == -(v[0] * (v[5] * v[14] - v[6] * v[13]) - v[1] * (v[4] * v[14] - v[6] * v[12]) + v[2] * (v[4] * v[13] - v[5] * v[12])));
    lemma_distribute2(v[0], v[5] * v[14], v[6] * v[13]);
    lemma_distribute2(v[1], v[4] * v[14], v[6] * v[12]);
    lemma_distribute2(v[2], v[4] * v[13], v[5] * v[12]);
    assert(exact_cof4(v, 2, 3) == -(v[0] * (v[5] * v[14])) + v[0] * (v[6] * v[13]) + v[1] * (v[4] * v[14]) - v[1] * (v[6] * v[12]) - v[2] * (v[4] * v[13]) + v[2] * (v[5] * v[12]));
    lemma_expand_minor_neg(v[7], v[0] * (v[5] * v[14]), v[0] * (v[6] * v[13]), v[1] * (v[4] * v[14]), v[1] * (v[6] * v[12]), v[2] * (v[4] * v[13]), v[2] * (v[5] * v[12]));
    assert(v[7] * (v[0] * (v[5] * v[14])) == v[0] * (v[5] * (v[7] * v[14]))) by (nonlinear_arith);
    assert(v[7] * (v[0] * (v[6] * v[13])) == v[0] * (v[6] * (v[7] * v[13]))) by (nonlinear_arith);
    assert(v[7] * (v[1] * (v[4] * v[14])) == v[1] * (v[4] * (v[7] * v[14]))) by (nonlinear_arith);
    assert(v[7] * (v[1] * (v[6] * v[12])) == v[1] * (v[6] * (v[7] * v[12]))) by (nonlinear_arith);
    assert(v[7] * (v[2] * (v[4] * v[13])) == v[2] * (v[4] * (v[7] * v[13]))) by (nonlinear_arith);
    assert(v[7] * (v[2] * (v[5] * v[12])) == v[2] * (v[5] * (v[7] * v[12]))) by (nonlinear_arith);
    assert(ent4(v, 1, 3) * exact_cof4(v, 2, 3) == -(v[0] * (v[5] * (v[7] * v[14]))) + v[0] * (v[6] * (v[7] * v[13])) + v[1] * (v[4] * (v[7] * v[14])) - v[1] * (v[6] * (v[7] * v[12])) - v[2] * (v[4] * (v[7] * v[13])) + v[2] * (v[5] * (v[7] * v[12])));
}

proof fn lemma_laplace_1_3(v: Seq<int>)
    requires
        v.len() == 16,
    ensures
        ent4(v, 1, 0) * exact_cof4(v, 3, 0) + ent4(v, 1, 1) * exact_cof4(v, 3, 1) + ent4(v, 1, 2)
            * exact_cof4(v, 3, 2) + ent4(v, 1, 3) * exact_cof4(v, 3, 3) == 0,
{
    assert(exact_cof4(v, 3, 0) == -(v[1] * (v[6] * v[11] - v[7] * v[10]) - v[2] * (v[5] * v[11] - v[7] * v[9]) + v[3] * (v[5] * v[10] - v[6] * v[9])));
    lemma_distribute2(v[1], v[6] * v[11], v[7] * v[10]);
    lemma_distribute2(v[2], v[5] * v[11], v[7] * v[9]);
    lemma_distribute2(v[3], v[5] * v[10], v[6] * v[9]);
    assert(exact_cof4(v, 3, 0) == -(v[1] * (v[6] * v[11])) + v[1] * (v[7] * v[10]) + v[2] * (v[5] * v[11]) - v[2] * (v[7] * v[9]) - v[3] * (v[5] * v[10]) + v[3] * (v[6] * v[9]));
    lemma_expand_minor_neg(v[4], v[1] * (v[6] * v[11]), v[1] * (v[7] * v[10]), v[2] * (v[5] * v[11]), v[2] * (v[7] * v[9]), v[3] * (v[5] * v[10]), v[3] * (v[6] * v[9]));
    assert(v[4] * (v[1] * (v[6] * v[11])) == v[1] * (v[4] * (v[6] * v[11]))) by (nonlinear_arith);
    assert(v[4] * (v[1] * (v[7] * v[10])) == v[1] * (v[4] * (v[7] * v[10]))) by (nonlinear_arith);
    assert(v[4] * (v[2] * (v[5] * v[11])) == v[2] * (v[4] * (v[5] * v[11]))) by (nonlinear_arith);
    assert(v[4] * (v[2] * (v[7] * v[9])) == v[2] * (v[4] * (v[7] * v[9]))) by (nonlinear_arith);
    assert(v[4] * (v[3] * (v[5] * v[10])) == v[3] * (v[4] * (v[5] * v[10]))) by (nonlinear_arith);
    assert(v[4] * (v[3] * (v[6] * v[9])) == v[3] * (v[4] * (v[6] * v[9]))) by (nonlinear_arith);
    assert(ent4(v, 1, 0) * exact_cof4(v, 3, 0) == -(v[1] * (v[4] * (v[6] * v[11]))) + v[1] * (v[4] * (v[7] * v[10])) + v[2] * (v[4] * (v[5] * v[11])) - v[2] * (v[4] * (v[7] * v[9])) - v[3] * (v[4] * (v[5] * v[10])) + v[3] * (v[4] * (v[6] * v[9])));
    assert(exact_cof4(v, 3, 1) == v[0] * (v[6] * v[11] - v[7] * v[10]) - v[2] * (v[4] * v[11] - v[7] * v[8]) + v[3] * (v[4] * v[10] - v[6] * v[8]));
    lemma_distribute2(v[0], v[6] * v[11], v[7] * v[10]);
    lemma_distribute2(v[2], v[4] * v[11], v[7] * v[8]);
    lemma_distribute2(v[3], v[4] * v[10], v[6] * v[8]);
    assert(exact_cof4(v, 3, 1) == v[0] * (v[6] * v[11]) - v[0] * (v[7] * v[10]) - v[2] * (v[4] * v[11]) + v[2] * (v[7] * v[8]) + v[3] * (v[4] * v[10]) - v[3] * (v[6] * v[8]));
    lemma_expand_minor(v[5], v[0] * (v[6] * v[11]), v[0] * (v[7] * v[10]), v[2] * (v[4] * v[11]), v[2] * (v[7] * v[8]), v[3] * (v[4] * v[10]), v[3] * (v[6] * v[8]));
    assert(v[5] * (v[0] * (v[6] * v[11])) == v[0] * (v[5] * (v[6] * v[11]))) by (nonlinear_arith);
    assert(v[5] * (v[0] * (v[7] * v[10])) == v[0] * (v[5] * (v[7] * v[10]))) by (nonlinear_arith);
    assert(v[5] * (v[2] * (v[4] * v[11])) == v[2] * (v[4] * (v[5] * v[11]))) by (nonlinear_arith);
    assert(v[5] * (v[2] * (v[7] * v[8])) == v[2] * (v[5] * (v[7] * v[8]))) by (nonlinear_arith);
    assert(v[5] * (v[3] * (v[4] * v[10])) == v[3] * (v[4] * (v[5] * v[10]))) by (nonlinear_arith);
    assert(v[5] * (v[3] * (v[6] * v[8])) == v[3] * (v[5] * (v[6] * v[8]))) by (nonlinear_arith);
    assert(ent4(v, 1, 1) * exact_cof4(v, 3, 1) == v[0] * (v[5] * (v[6] * v[11])) - v[0] * (v[5] * (v[7] * v[10])) - v[2] * (v[4] * (v[5] * v[11])) + v[2] * (v[5] * (v[7] * v[8])) + v[3] * (v[4] * (v[5] * v[10])) - v[3] * (v[5] * (v[6] * v[8])));
    assert(exact_cof4(v, 3, 2) == -(v[0] * (v[5] * v[11] - v[7] * v[9]) - v[1] * (v[4] * v[11] - v[7] * v[8]) + v[3] * (v[4] * v[9] - v[5] * v[8])));
    lemma_distribute2(v[0], v[5] * v[11], v[7] * v[9]);
    lemma_distribute2(v[1], v[4] * v[11], v[7] * v[8]);
    lemma_distribute2(v[3], v[4] * v[9], v[5] * v[8]);
    assert(exact_cof4(v, 3, 2) == -(v[0] * (v[5] * v[11])) + v[0] * (v[7] * v[9]) + v[1] * (v[4] * v[11]) - v[1] * (v[7] * v[8]) - v[3] * (v[4] * v[9]) + v[3] * (v[5] * v[8]));
    lemma_expand_minor_neg(v[6], v[0] * (v[5] * v[11]), v[0] * (v[7] * v[9]), v[1] * (v[4] * v[11]), v[1] * (v[7] * v[8]), v[3] * (v[4] * v[9]), v[3] * (v[5] * v[8]));
    assert(v[6] * (v[0] * (v[5] * v[11])) == v[0] * (v[5] * (v[6] * v[11]))) by (nonlinear_arith);
    assert(v[6] * (v[0] * (v[7] * v[9])) == v[0] * (v[6] * (v[7] * v[9]))) by (nonlinear_arith);
    assert(v[6] * (v[1] * (v[4] * v[11])) == v[1] * (v[4] * (v[6] * v[11]))) by (nonlinear_arith);
    assert(v[6] * (v[1] * (v[7] * v[8])) == v[1] * (v[6] * (v[7] * v[8]))) by (nonlinear_arith);
    assert(v[6] * (v[3] * (v[4] * v[9])) == v[3] * (v[4] * (v[6] * v[9]))) by (nonlinear_arith);
    assert(v[6] * (v[3] * (v[5] * v[8])) == v[3] * (v[5] * (v[6] * v[8]))) by (nonlinear_arith);
    assert(ent4(v, 1, 2) * exact_cof4(v, 3, 2) == -(v[0] * (v[5] * (v[6] * v[11]))) + v[0] * (v[6] * (v[7] * v[9])) + v[1] * (v[4] * (v[6] * v[11])) - v[1] * (v[6] * (v[7] * v[8])) - v[3] * (v[4] * (v[6] * v[9])) + v[3] * (v[5] * (v[6] * v[8])));
    assert(exact_cof4(v, 3, 3) == v[0] * (v[5] * v[10] - v[6] * v[9]) - v[1] * (v[4] * v[10] - v[6] * v[8]) + v[2] * (v[4] * v[9] - v[5] * v[8]));
    lemma_distribute2(v[0], v[5] * v[10], v[6] * v[9]);
    lemma_distribute2(v[1], v[4] * v[10], v[6] * v[8]);
    lemma_distribute2(v[2], v[4] * v[9], v[5] * v[8]);
    assert(exact_cof4(v, 3, 3) == v[0] * (v[5] * v[10]) - v[0] * (v[6] * v[9]) - v[1] * (v[4] * v[10]) + v[1] * (v[6] * v[8]) + v[2] * (v[4] * v[9]) - v[2] * (v[5] * v[8]));
    lemma_expand_minor(v[7], v[0] * (v[5] * v[10]), v[0] * (v[6] * v[9]), v[1] * (v[4] * v[10]), v[1] * (v[6] * v[8]), v[2] * (v[4] * v[9]), v[2] * (v[5] * v[8]));
    assert(v[7] * (v[0] * (v[5] * v[10])) == v[0] * (v[5] * (v[7] * v[10]))) by (nonlinear_arith);
    assert(v[7] * (v[0] * (v[6] * v[9])) == v[0] * (v[6] * (v[7] * v[9]))) by (nonlinear_arith);
    assert(v[7] * (v[1] * (v[4] * v[10])) == v[1] * (v[4] * (v[7] * v[10]))) by (nonlinear_arith);
    assert(v[7] * (v[1] * (v[6] * v[8])) == v[1] * (v[6] * (v[7] * v[8]))) by (nonlinear_arith);
    assert(v[7] * (v[2] * (v[4] * v[9])) == v[2] * (v[4] * (v[7] * v[9]))) by (nonlinear_arith);
    assert(v[7] * (v[2] * (v[5] * v[8])) == v[2] * (v[5] * (v[7] * v[8]))) by (nonlinear_arith);
    assert(ent4(v, 1, 3) * exact_cof4(v, 3, 3) == v[0] * (v[5] * (v[7] * v[10])) - v[0] * (v[6] * (v[7] * v[9])) - v[1] * (v[4] * (v[7] * v[10])) + v[1] * (v[6] * (v[7] * v[8])) + v[2] * (v[4] * (v[7] * v[9])) - v[2] * (v[5] * (v[7] * v[8])));
}

proof fn lemma_laplace_2_0(v: Seq<int>)
    requires
        v.len() == 16,
    ensures
        ent4(v, 2, 0) * exact_cof4(v, 0, 0) + ent4(v, 2, 1) * exact_cof4(v, 0, 1) + ent4(v, 2, 2)
            * exact_cof4(v, 0, 2) + ent4(v, 2, 3) * exact_cof4(v, 0, 3) == 0,
{
    assert(exact_cof4(v, 0, 0) == v[5] * (v[10] * v[15] - v[11] * v[14]) - v[6] * (v[9] * v[15] - v[11] * v[13]) + v[7] * (v[9] * v[14] - v[10] * v[13]));
    lemma_distribute2(v[5], v[10] * v[15], v[11] * v[14]);
    lemma_distribute2(v[6], v[9] * v[15], v[11] * v[13]);
    lemma_distribute2(v[7], v[9] * v[14], v[10] * v[13]);
    assert(exact_cof4(v, 0, 0) == v[5] * (v[10] * v[15]) - v[5] * (v[11] * v[14]) - v[6] * (v[9] * v[15]) + v[6] * (v[11] * v[13]) + v[7] * (v[9] * v[14]) - v[7] * (v[10] * v[13]));
    lemma_expand_minor(v[8], v[5] * (v[10] * v[15]), v[5] * (v[11] * v[14]), v[6] * (v[9] * v[15]), v[6] * (v[11] * v[13]), v[7] * (v[9] * v[14]), v[7] * (v[10] * v[13]));
    assert(v[8] * (v[5] * (v[10] * v[15])) == v[5] * (v[8] * (v[10] * v[15]))) by (nonlinear_arith);
    assert(v[8] * (v[5] * (v[11] * v[14])) == v[5] * (v[8] * (v[11] * v[14]))) by (nonlinear_arith);
    assert(v[8] * (v[6] * (v[9] * v[15])) == v[6] * (v[8] * (v[9] * v[15]))) by (nonlinear_arith);
    assert(v[8] * (v[6] * (v[11] * v[13])) == v[6] * (v[8] * (v[11] * v[13]))) by (nonlinear_arith);
    assert(v[8] * (v[7] * (v[9] * v[14])) == v[7] * (v[8] * (v[9] * v[14]))) by (nonlinear_arith);
    assert(v[8] * (v[7] * (v[10] * v[13])) == v[7] * (v[8] * (v[10] * v[13]))) by (nonlinear_arith);
    assert(ent4(v, 2, 0) * exact_cof4(v, 0, 0) == v[5] * (v[8] * (v[10] * v[15])) - v[5] * (v[8] * (v[11] * v[14])) - v[6] * (v[8] * (v[9] * v[15])) + v[6] * (v[8] * (v[11] * v[13])) + v[7] * (v[8] * (v[9] * v[14])) - v[7] * (v[8] * (v[10] * v[13])));
    assert(exact_cof4(v, 0, 1) == -(v[4] * (v[10] * v[15] - v[11] * v[14]) - v[6] * (v[8] * v[15] - v[11] * v[12]) + v[7] * (v[8] * v[14] - v[10] * v[12])));
    lemma_distribute2(v[4], v[10] * v[15], v[11] * v[14]);
    lemma_distribute2(v[6], v[8] * v[15], v[11] * v[12]);
    lemma_distribute2(v[7], v[8] * v[14], v[10] * v[12]);
    assert(exact_cof4(v, 0, 1) == -(v[4] * (v[10] * v[15])) + v[4] * (v[11] * v[14]) + v[6] * (v[8] * v[15]) - v[6] * (v[11] * v[12]) - v[7] * (v[8] * v[14]) + v[7] * (v[10] * v[12]));
    lemma_expand_minor_neg(v[9], v[4] * (v[10] * v[15]), v[4] * (v[11] * v[14]), v[6] * (v[8] * v[15]), v[6] * (v[11] * v[12]), v[7] * (v[8] * v[14]), v[7] * (v[10] * v[12]));
    assert(v[9] * (v[4] * (v[10] * v[15])) == v[4] * (v[9] * (v[10] * v[15]))) by (nonlinear_arith);
    assert(v[9] * (v[4] * (v[11] * v[14])) == v[4] * (v[9] * (v[11] * v[14]))) by (nonlinear_arith);
    assert(v[9] * (v[6] * (v[8] * v[15])) == v[6] * (v[8] * (v[9] * v[15]))) by (nonlinear_arith);
    assert(v[9] * (v[6] * (v[11] * v[12])) == v[6] * (v[9] * (v[11] * v[12]))) by (nonlinear_arith);
    assert(v[9] * (v[7] * (v[8] * v[14])) == v[7] * (v[8] * (v[9] * v[14]))) by (nonlinear_arith);
    assert(v[9] * (v[7] * (v[10] * v[12])) == v[7] * (v[9] * (v[10] * v[12]))) by (nonlinear_arith);
    assert(ent4(v, 2, 1) * exact_cof4(v, 0, 1) == -(v[4] * (v[9] * (v[10] * v[15]))) + v[4] * (v[9] * (v[11] * v[14])) + v[6] * (v[8] * (v[9] * v[15])) - v[6] * (v[9] * (v[11] * v[12])) - v[7] * (v[8] * (v[9] * v[14])) + v[7] * (v[9] * (v[10] * v[12])));
    assert(exact_cof4(v, 0, 2) == v[4] * (v[9] * v[15] - v[11] * v[13]) - v[5] * (v[8] * v[15] - v[11] * v[12]) + v[7] * (v[8] * v[13] - v[9] * v[12]));
    lemma_distribute2(v[4], v[9] * v[15], v[11] * v[13]);
    lemma_distribute2(v[5], v[8] * v[15], v[11] * v[12]);
    lemma_distribute2(v[7], v[8] * v[13], v[9] * v[12]);
    assert(exact_cof4(v, 0, 2) == v[4] * (v[9] * v[15]) - v[4] * (v[11] * v[13]) - v[5] * (v[8] * v[15]) + v[5] * (v[11] * v[12]) + v[7] * (v[8] * v[13]) - v[7] * (v[9] * v[12]));
    lemma_expand_minor(v[10], v[4] * (v[9] * v[15]), v[4] * (v[11] * v[13]), v[5] * (v[8] * v[15]), v[5] * (v[11] * v[12]), v[7] * (v[8] * v[13]), v[7] * (v[9] * v[12]));
    assert(v[10] * (v[4] * (v[9] * v[15])) == v[4] * (v[9] * (v[10] * v[15]))) by (nonlinear_arith);
    assert(v[10] * (v[4] * (v[11] * v[13])) == v[4] * (v[10] * (v[11] * v[13]))) by (nonlinear_arith);
    assert(v[10] * (v[5] * (v[8] * v[15])) == v[5] * (v[8] * (v[10] * v[15]))) by (nonlinear_arith);
    assert(v[10] * (v[5] * (v[11] * v[12])) == v[5] * (v[10] * (v[11] * v[12]))) by (nonlinear_arith);
    assert(v[10] * (v[7] * (v[8] * v[13])) == v[7] * (v[8] * (v[10] * v[13]))) by (nonlinear_arith);
    assert(v[10] * (v[7] * (v[9] * v[12])) == v[7] * (v[9] * (v[10] * v[12]))) by (nonlinear_arith);
    assert(ent4(v, 2, 2) * exact_cof4(v, 0, 2) == v[4] * (v[9] * (v[10] * v[15])) - v[4] * (v[10] * (v[11] * v[13])) - v[5] * (v[8] * (v[10] * v[15])) + v[5] * (v[10] * (v[11] * v[12])) + v[7] * (v[8] * (v[10] * v[13])) - v[7] * (v[9] * (v[10] * v[12])));
    assert(exact_cof4(v, 0, 3) == -(v[4] * (v[9] * v[14] - v[10] * v[13]) - v[5] * (v[8] * v[14] - v[10] * v[12]) + v[6] * (v[8] * v[13] - v[9] * v[12])));
    lemma_distribute2(v[4], v[9] * v[14], v[10] * v[13]);
    lemma_distribute2(v[5], v[8] * v[14], v[10] * v[12]);
    lemma_distribute2(v[6], v[8] * v[13], v[9] * v[12]);
    assert(exact_cof4(v, 0, 3) == -(v[4] * (v[9] * v[14])) + v[4] * (v[10] * v[13]) + v[5] * (v[8] * v[14]) - v[5] * (v[10] * v[12]) - v[6] * (v[8] * v[13]) + v[6] * (v[9] * v[12]));
    lemma_expand_minor_neg(v[11], v[4] * (v[9] * v[14]), v[4] * (v[10] * v[13]), v[5] * (v[8] * v[14]), v[5] * (v[10] * v[12]), v[6] * (v[8] * v[13]), v[6] * (v[9] * v[12]));
    assert(v[11] * (v[4] * (v[9] * v[14])) == v[4] * (v[9] * (v[11] * v[14]))) by (nonlinear_arith);
    assert(v[11] * (v[4] * (v[10] * v[13])) == v[4] * (v[10] * (v[11] * v[13]))) by (nonlinear_arith);
    assert(v[11] * (v[5] * (v[8] * v[14])) == v[5] * (v[8] * (v[11] * v[14]))) by (nonlinear_arith);
    assert(v[11] * (v[5] * (v[10] * v[12])) == v[5] * (v[10] * (v[11] * v[12]))) by (nonlinear_arith);
    assert(v[11] * (v[6] * (v[8] * v[13])) == v[6] * (v[8] * (v[11] * v[13]))) by (nonlinear_arith);
    assert(v[11] * (v[6] * (v[9] * v[12])) == v[6] * (v[9] * (v[11] * v[12]))) by (nonlinear_arith);
    assert(ent4(v, 2, 3) * exact_cof4(v, 0, 3) == -(v[4] * (v[9] * (v[11] * v[14]))) + v[4] * (v[10] * (v[11] * v[13])) + v[5] * (v[8] * (v[11] * v[14])) - v[5] * (v[10] * (v[11] * v[12])) - v[6] * (v[8] * (v[11] * v[13])) + v[6] * (v[9] * (v[11] * v[12])));
}

proof fn lemma_laplace_2_1(v: Seq<int>)
    requires
        v.len() == 16,
    ensures
        ent4(v, 2, 0) * exact_cof4(v, 1, 0) + ent4(v, 2, 1) * exact_cof4(v, 1, 1) + ent4(v, 2, 2)
            * exact_cof4(v, 1, 2) + ent4(v, 2, 3) * exact_cof4(v, 1, 3) == 0,
{
    assert(exact_cof4(v, 1, 0) == -(v[1] * (v[10] * v[15] - v[11] * v[14]) - v[2] * (v[9] * v[15] - v[11] * v[13]) + v[3] * (v[9] * v[14] - v[10] * v[13])));
    lemma_distribute2(v[1], v[10] * v[15], v[11] * v[14]);
    lemma_distribute2(v[2], v[9] * v[15], v[11] * v[13]);
    lemma_distribute2(v[3], v[9] * v[14], v[10] * v[13]);
    assert(exact_cof4(v, 1, 0) == -(v[1] * (v[10] * v[15])) + v[1] * (v[11] * v[14]) + v[2] * (v[9] * v[15]) - v[2] * (v[11] * v[13]) - v[3] * (v[9] * v[14]) + v[3] * (v[10] * v[13]));
    lemma_expand_minor_neg(v[8], v[1] * (v[10] * v[15]), v[1] * (v[11] * v[14]), v[2] * (v[9] * v[15]), v[2] * (v[11] * v[13]), v[3] * (v[9] * v[14]), v[3] * (v[10] * v[13]));
    assert(v[8] * (v[1] * (v[10] * v[15])) == v[1] * (v[8] * (v[10] * v[15]))) by (nonlinear_arith);
    assert(v[8] * (v[1] * (v[11] * v[14])) == v[1] * (v[8] * (v[11] * v[14]))) by (nonlinear_arith);
    assert(v[8] * (v[2] * (v[9] * v[15])) == v[2] * (v[8] * (v[9] * v[15]))) by (nonlinear_arith);
    assert(v[8] * (v[2] * (v[11] * v[13])) == v[2] * (v[8] * (v[11] * v[13]))) by (nonlinear_arith);
    assert(v[8] * (v[3] * (v[9] * v[14])) == v[3] * (v[8] * (v[9] * v[14]))) by (nonlinear_arith);
    assert(v[8] * (v[3] * (v[10] * v[13])) == v[3] * (v[8] * (v[10] * v[13]))) by (nonlinear_arith);
    assert(ent4(v, 2, 0) * exact_cof4(v, 1, 0) == -(v[1] * (v[8] * (v[10] * v[15]))) + v[1] * (v[8] * (v[11] * v[14])) + v[2] * (v[8] * (v[9] * v[15])) - v[2] * (v[8] * (v[11] * v[13])) - v[3] * (v[8] * (v[9] * v[14])) + v[3] * (v[8] * (v[10] * v[13])));
    assert(exact_cof4(v, 1, 1) == v[0] * (v[10] * v[15] - v[11] * v[14]) - v[2] * (v[8] * v[15] - v[11] * v[12]) + v[3] * (v[8] * v[14] - v[10] * v[12]));
    lemma_distribute2(v[0], v[10] * v[15], v[11] * v[14]);
    lemma_distribute2(v[2], v[8] * v[15], v[11] * v[12]);
    lemma_distribute2(v[3], v[8] * v[14], v[10] * v[12]);
    assert(exact_cof4(v, 1, 1) == v[0] * (v[10] * v[15]) - v[0] * (v[11] * v[14]) - v[2] * (v[8] * v[15]) + v[2] * (v[11] * v[12]) + v[3] * (v[8] * v[14]) - v[3] * (v[10] * v[12]));
    lemma_expand_minor(v[9], v[0] * (v[10] * v[15]), v[0] * (v[11] * v[14]), v[2] * (v[8] * v[15]), v[2] * (v[11] * v[12]), v[3] * (v[8] * v[14]), v[3] * (v[10] * v[12]));
    assert(v[9] * (v[0] * (v[10] * v[15])) == v[0] * (v[9] * (v[10] * v[15]))) by (nonlinear_arith);
    assert(v[9] * (v[0] * (v[11] * v[14])) == v[0] * (v[9] * (v[11] * v[14]))) by (nonlinear_arith);
    assert(v[9] * (v[2] * (v[8] * v[15])) == v[2] * (v[8] * (v[9] * v[15]))) by (nonlinear_arith);
    assert(v[9] * (v[2] * (v[11] * v[12])) == v[2] * (v[9] * (v[11] * v[12]))) by (nonlinear_arith);
    assert(v[9] * (v[3] * (v[8] * v[14])) == v[3] * (v[8] * (v[9] * v[14]))) by (nonlinear_arith);
    assert(v[9] * (v[3] * (v[10] * v[12])) == v[3] * (v[9] * (v[10] * v[12]))) by (nonlinear_arith);
    assert(ent4(v, 2, 1) * exact_cof4(v, 1, 1) == v[0] * (v[9] * (v[10] * v[15])) - v[0] * (v[9] * (v[11] * v[14])) - v[2] * (v[8] * (v[9] * v[15])) + v[2] * (v[9] * (v[11] * v[12])) + v[3] * (v[8] * (v[9] * v[14])) - v[3] * (v[9] * (v[10] * v[12])));
    assert(exact_cof4(v, 1, 2) == -(v[0] * (v[9] * v[15] - v[11] * v[13]) - v[1] * (v[8] * v[15] - v[11] * v[12]) + v[3] * (v[8] * v[13] - v[9] * v[12])));
    lemma_distribute2(v[0], v[9] * v[15], v[11] * v[13]);
    lemma_distribute2(v[1], v[8] * v[15], v[11] * v[12]);
    lemma_distribute2(v[3], v[8] * v[13], v[9] * v[12]);
    assert(exact_cof4(v, 1, 2) == -(v[0] * (v[9] * v[15])) + v[0] * (v[11] * v[13]) + v[1] * (v[8] * v[15]) - v[1] * (v[11] * v[12]) - v[3] * (v[8] * v[13]) + v[3] * (v[9] * v[12]));
    lemma_expand_minor_neg(v[10], v[0] * (v[9] * v[15]), v[0] * (v[11] * v[13]), v[1] * (v[8] * v[15]), v[1] * (v[11] * v[12]), v[3] * (v[8] * v[13]), v[3] * (v[9] * v[12]));
    assert(v[10] * (v[0] * (v[9] * v[15])) == v[0] * (v[9] * (v[10] * v[15]))) by (nonlinear_arith);
    assert(v[10] * (v[0] * (v[11] * v[13])) == v[0] * (v[10] * (v[11] * v[13]))) by (nonlinear_arith);
    assert(v[10] * (v[1] * (v[8] * v[15])) == v[1] * (v[8] * (v[10] * v[15]))) by (nonlinear_arith);
    assert(v[10] * (v[1] * (v[11] * v[12])) == v[1] * (v[10] * (v[11] * v[12]))) by (nonlinear_arith);
    assert(v[10] * (v[3] * (v[8] * v[13])) == v[3] * (v[8] * (v[10] * v[13]))) by (nonlinear_arith);
    assert(v[10] * (v[3] * (v[9] * v[12])) == v[3] * (v[9] * (v[10] * v[12]))) by (nonlinear_arith);
    assert(ent4(v, 2, 2) * exact_cof4(v, 1, 2) == -(v[0] * (v[9] * (v[10] * v[15]))) + v[0] * (v[10] * (v[11] * v[13])) + v[1] * (v[8] * (v[10] * v[15])) - v[1] * (v[10] * (v[11] * v[12])) - v[3] * (v[8] * (v[10] * v[13])) + v[3] * (v[9] * (v[10] * v[12])));
    assert(exact_cof4(v, 1, 3) == v[0] * (v[9] * v[14] - v[10] * v[13]) - v[1] * (v[8] * v[14] - v[10] * v[12]) + v[2] * (v[8] * v[13] - v[9] * v[12]));
    lemma_distribute2(v[0], v[9] * v[14], v[10] * v[13]);
    lemma_distribute2(v[1], v[8] * v[14], v[10] * v[12]);
    lemma_distribute2(v[2], v[8] * v[13], v[9] * v[12]);
    assert(exact_cof4(v, 1, 3) == v[0] * (v[9] * v[14]) - v[0] * (v[10] * v[13]) - v[1] * (v[8] * v[14]) + v[1] * (v[10] * v[12]) + v[2] * (v[8] * v[13]) - v[2] * (v[9] * v[12]));
    lemma_expand_minor(v[11], v[0] * (v[9] * v[14]), v[0] * (v[10] * v[13]), v[1] * (v[8] * v[14]), v[1] * (v[10] * v[12]), v[2] * (v[8] * v[13]), v[2] * (v[9] * v[12]));
    assert(v[11] * (v[0] * (v[9] * v[14])) == v[0] * (v[9] * (v[11] * v[14]))) by (nonlinear_arith);
    assert(v[11] * (v[0] * (v[10] * v[13])) == v[0] * (v[10] * (v[11] * v[13]))) by (nonlinear_arith);
    assert(v[11] * (v[1] * (v[8] * v[14])) == v[1] * (v[8] * (v[11] * v[14]))) by (nonlinear_arith);
    assert(v[11] * (v[1] * (v[10] * v[12])) == v[1] * (v[10] * (v[11] * v[12]))) by (nonlinear_arith);
    assert(v[11] * (v[2] * (v[8] * v[13])) == v[2] * (v[8] * (v[11] * v[13]))) by (nonlinear_arith);
    assert(v[11] * (v[2] * (v[9] * v[12])) == v[2] * (v[9] * (v[11] * v[12]))) by (nonlinear_arith);
    assert(ent4(v, 2, 3) * exact_cof4(v, 1, 3) == v[0] * (v[9] * (v[11] * v[14])) - v[0] * (v[10] * (v[11] * v[13])) - v[1] * (v[8] * (v[11] * v[14])) + v[1] * (v[10] * (v[11] * v[12])) + v[2] * (v[8] * (v[11] * v[13])) - v[2] * (v[9] * (v[11] * v[12])));
}

proof fn lemma_laplace_2_2(v: Seq<int>)
    requires
        v.len() == 16,
    ensures
        ent4(v, 2, 0) * exact_cof4(v, 2, 0) + ent4(v, 2, 1) * exact_cof4(v, 2, 1) + ent4(v, 2, 2)
            * exact_cof4(v, 2, 2) + ent4(v, 2, 3) * exact_cof4(v, 2, 3) == exact_det4(v),
{
    assert(exact_cof4(v, 2, 0) == v[1] * (v[6] * v[15] - v[7] * v[14]) - v[2] * (v[5] * v[15] - v[7] * v[13]) + v[3] * (v[5] * v[14] - v[6] * v[13]));
    lemma_distribute2(v[1], v[6] * v[15], v[7] * v[14]);
    lemma_distribute2(v[2], v[5] * v[15], v[7] * v[13]);
    lemma_distribute2(v[3], v[5] * v[14], v[6] * v[13]);
    assert(exact_cof4(v, 2, 0) == v[1] * (v[6] * v[15]) - v[1] * (v[7] * v[14]) - v[2] * (v[5] * v[15]) + v[2] * (v[7] * v[13]) + v[3] * (v[5] * v[14]) - v[3] * (v[6] * v[13]));
    lemma_expand_minor(v[8], v[1] * (v[6] * v[15]), v[1] * (v[7] * v[14]), v[2] * (v[5] * v[15]), v[2] * (v[7] * v[13]), v[3] * (v[5] * v[14]), v[3] * (v[6] * v[13]));
    assert(v[8] * (v[1] * (v[6] * v[15])) == v[1] * (v[6] * (v[8] * v[15]))) by (nonlinear_arith);
    assert(v[8] * (v[1] * (v[7] * v[14])) == v[1] * (v[7] * (v[8] * v[14]))) by (nonlinear_arith);
    assert(v[8] * (v[2] * (v[5] * v[15])) == v[2] * (v[5] * (v[8] * v[15]))) by (nonlinear_arith);
    assert(v[8] * (v[2] * (v[7] * v[13])) == v[2] * (v[7] * (v[8] * v[13]))) by (nonlinear_arith);
    assert(v[8] * (v[3] * (v[5] * v[14])) == v[3] * (v[5] * (v[8] * v[14]))) by (nonlinear_arith);
    assert(v[8] * (v[3] * (v[6] * v[13])) == v[3] * (v[6] * (v[8] * v[13]))) by (nonlinear_arith);
    assert(ent4(v, 2, 0) * exact_cof4(v, 2, 0) == v[1] * (v[6] * (v[8] * v[15])) - v[1] * (v[7] * (v[8] * v[14])) - v[2] * (v[5] * (v[8] * v[15])) + v[2] * (v[7] * (v[8] * v[13])) + v[3] * (v[5] * (v[8] * v[14])) - v[3] * (v[6] * (v[8] * v[13])));
    assert(exact_cof4(v, 2, 1) == -(v[0] * (v[6] * v[15] - v[7] * v[14]) - v[2] * (v[4] * v[15] - v[7] * v[12]) + v[3] * (v[4] * v[14] - v[6] * v[12])));
    lemma_distribute2(v[0], v[6] * v[15], v[7] * v[14]);
    lemma_distribute2(v[2], v[4] * v[15], v[7] * v[12]);
    lemma_distribute2(v[3], v[4] * v[14], v[6] * v[12]);
    assert(exact_cof4(v, 2, 1) == -(v[0] * (v[6] * v[15])) + v[0] * (v[7] * v[14]) + v[2] * (v[4] * v[15]) - v[2] * (v[7] * v[12]) - v[3] * (v[4] * v[14]) + v[3] * (v[6] * v[12]));
    lemma_expand_minor_neg(v[9], v[0] * (v[6] * v[15]), v[0] * (v[7] * v[14]), v[2] * (v[4] * v[15]), v[2] * (v[7] * v[12]), v[3] * (v[4] * v[14]), v[3] * (v[6] * v[12]));
    assert(v[9] * (v[0] * (v[6] * v[15])) == v[0] * (v[6] * (v[9] * v[15]))) by (nonlinear_arith);
    assert(v[9] * (v[0] * (v[7] * v[14])) == v[0] * (v[7] * (v[9] * v[14]))) by (nonlinear_arith);
    assert(v[9] * (v[2] * (v[4] * v[15])) == v[2] * (v[4] * (v[9] * v[15]))) by (nonlinear_arith);
    assert(v[9] * (v[2] * (v[7] * v[12])) == v[2] * (v[7] * (v[9] * v[12]))) by (nonlinear_arith);
    assert(v[9] * (v[3] * (v[4] * v[14])) == v[3] * (v[4] * (v[9] * v[14]))) by (nonlinear_arith);
    assert(v[9] * (v[3] * (v[6] * v[12])) == v[3] * (v[6] * (v[9] * v[12]))) by (nonlinear_arith);
    assert(ent4(v, 2, 1) * exact_cof4(v, 2, 1) == -(v[0] * (v[6] * (v[9] * v[15]))) + v[0] * (v[7] * (v[9] * v[14])) + v[2] * (v[4] * (v[9] * v[15])) - v[2] * (v[7] * (v[9] * v[12])) - v[3] * (v[4] * (v[9] * v[14])) + v[3] * (v[6] * (v[9] * v[12])));
    assert(exact_cof4(v, 2, 2) == v[0] * (v[5] * v[15] - v[7] * v[13]) - v[1] * (v[4] * v[15] - v[7] * v[12]) + v[3] * (v[4] * v[13] - v[5] * v[12]));
    lemma_distribute2(v[0], v[5] * v[15], v[7] * v[13]);
    lemma_distribute2(v[1], v[4] * v[15], v[7] * v[12]);
    lemma_distribute2(v[3], v[4] * v[13], v[5] * v[12]);
    assert(exact_cof4(v, 2, 2) == v[0] * (v[5] * v[15]) - v[0] * (v[7] * v[13]) - v[1] * (v[4] * v[15]) + v[1] * (v[7] * v[12]) + v[3] * (v[4] * v[13]) - v[3] * (v[5] * v[12]));
    lemma_expand_minor(v[10], v[0] * (v[5] * v[15]), v[0] * (v[7] * v[13]), v[1] * (v[4] * v[15]), v[1] * (v[7] * v[12]), v[3] * (v[4] * v[13]), v[3] * (v[5] * v[12]));
    assert(v[10] * (v[0] * (v[5] * v[15])) == v[0] * (v[5] * (v[10] * v[15]))) by (nonlinear_arith);
    assert(v[10] * (v[0] * (v[7] * v[13])) == v[0] * (v[7] * (v[10] * v[13]))) by (nonlinear_arith);
    assert(v[10] * (v[1] * (v[4] * v[15])) == v[1] * (v[4] * (v[10] * v[15]))) by (nonlinear_arith);
    assert(v[10] * (v[1] * (v[7] * v[12])) == v[1] * (v[7] * (v[10] * v[12]))) by (nonlinear_arith);
    assert(v[10] * (v[3] * (v[4] * v[13])) == v[3] * (v[4] * (v[10] * v[13]))) by (nonlinear_arith);
    assert(v[10] * (v[3] * (v[5] * v[12])) == v[3] * (v[5] * (v[10] * v[12]))) by (nonlinear_arith);
    assert(ent4(v, 2, 2) * exact_cof4(v, 2, 2) == v[0] * (v[5] * (v[10] * v[15])) - v[0] * (v[7] * (v[10] * v[13])) - v[1] * (v[4] * (v[10] * v[15])) + v[1] * (v[7] * (v[10] * v[12])) + v[3] * (v[4] * (v[10] * v[13])) - v[3] * (v[5] * (v[10] * v[12])));
    assert(exact_cof4(v, 2, 3) == -(v[0] * (v[5] * v[14] - v[6] * v[13]) - v[1] * (v[4] * v[14] - v[6] * v[12]) + v[2] * (v[4] * v[13] - v[5] * v[12])));
    lemma_distribute2(v[0], v[5] * v[14], v[6] * v[13]);
    lemma_distribute2(v[1], v[4] * v[14], v[6] * v[12]);
    lemma_distribute2(v[2], v[4] * v[13], v[5] * v[12]);
    assert(exact_cof4(v, 2, 3) == -(v[0] * (v[5] * v[14])) + v[0] * (v[6] * v[13]) + v[1] * (v[4] * v[14]) - v[1] * (v[6] * v[12]) - v[2] * (v[4] * v[13]) + v[2] * (v[5] * v[12]));
    lemma_expand_minor_neg(v[11], v[0] * (v[5] * v[14]), v[0] * (v[6] * v[13]), v[1] * (v[4] * v[14]), v[1] * (v[6] * v[12]), v[2] * (v[4] * v[13]), v[2] * (v[5] * v[12]));
    assert(v[11] * (v[0] * (v[5] * v[14])) == v[0] * (v[5] * (v[11] * v[14]))) by (nonlinear_arith);
    assert(v[11] * (v[0] * (v[6] * v[13])) == v[0] * (v[6] * (v[11] * v[13]))) by (nonlinear_arith);
    assert(v[11] * (v[1] * (v[4] * v[14])) == v[1] * (v[4] * (v[11] * v[14]))) by (nonlinear_arith);
    assert(v[11] * (v[1] * (v[6] * v[12])) == v[1] * (v[6] * (v[11] * v[12]))) by (nonlinear_arith);
    assert(v[11] * (v[2] * (v[4] * v[13])) == v[2] * (v[4] * (v[11] * v[13]))) by (nonlinear_arith);
    assert(v[11] * (v[2] * (v[5] * v[12])) == v[2] * (v[5] * (v[11] * v[12]))) by (nonlinear_arith);
    assert(ent4(v, 2, 3) * exact_cof4(v, 2, 3) == -(v[0] * (v[5] * (v[11] * v[14]))) + v[0] * (v[6] * (v[11] * v[13])) + v[1] * (v[4] * (v[11] * v[14])) - v[1] * (v[6] * (v[11] * v[12])) - v[2] * (v[4] * (v[11] * v[13])) + v[2] * (v[5] * (v[11] * v[12])));
    assert(exact_cof4(v, 0, 0) == v[5] * (v[10] * v[15] - v[11] * v[14]) - v[6] * (v[9] * v[15] - v[11] * v[13]) + v[7] * (v[9] * v[14] - v[10] * v[13]));
    lemma_distribute2(v[5], v[10] * v[15], v[11] * v[14]);
    lemma_distribute2(v[6], v[9] * v[15], v[11] * v[13]);
    lemma_distribute2(v[7], v[9] * v[14], v[10] * v[13]);
    assert(exact_cof4(v, 0, 0) == v[5] * (v[10] * v[15]) - v[5] * (v[11] * v[14]) - v[6] * (v[9] * v[15]) + v[6] * (v[11] * v[13]) + v[7] * (v[9] * v[14]) - v[7] * (v[10] * v[13]));
    lemma_expand_minor(v[0], v[5] * (v[10] * v[15]), v[5] * (v[11] * v[14]), v[6] * (v[9] * v[15]), v[6] * (v[11] * v[13]), v[7] * (v[9] * v[14]), v[7] * (v[10] * v[13]));
    assert(ent4(v, 0, 0) * exact_cof4(v, 0, 0) == v[0] * (v[5] * (v[10] * v[15])) - v[0] * (v[5] * (v[11] * v[14])) - v[0] * (v[6] * (v[9] * v[15])) + v[0] * (v[6] * (v[11] * v[13])) + v[0] * (v[7] * (v[9] * v[14])) - v[0] * (v[7] * (v[10] * v[13])));
    assert(exact_cof4(v, 0, 1) == -(v[4] * (v[10] * v[15] - v[11] * v[14]) - v[6] * (v[8] * v[15] - v[11] * v[12]) + v[7] * (v[8] * v[14] - v[10] * v[12])));
    lemma_distribute2(v[4], v[10] * v[15], v[11] * v[14]);
    lemma_distribute2(v[6], v[8] * v[15], v[11] * v[12]);
    lemma_distribute2(v[7], v[8] * v[14], v[10] * v[12]);
    assert(exact_cof4(v, 0, 1) == -(v[4] * (v[10] * v[15])) + v[4] * (v[11] * v[14]) + v[6] * (v[8] * v[15]) - v[6] * (v[11] * v[12]) - v[7] * (v[8] * v[14]) + v[7] * (v[10] * v[12]));
    lemma_expand_minor_neg(v[1], v[4] * (v[10] * v[15]), v[4] * (v[11] * v[14]), v[6] * (v[8] * v[15]), v[6] * (v[11] * v[12]), v[7] * (v[8] * v[14]), v[7] * (v[10] * v[12]));
    assert(ent4(v, 0, 1) * exact_cof4(v, 0, 1) == -(v[1] * (v[4] * (v[10] * v[15]))) + v[1] * (v[4] * (v[11] * v[14])) + v[1] * (v[6] * (v[8] * v[15])) - v[1] * (v[6] * (v[11] * v[12])) - v[1] * (v[7] * (v[8] * v[14])) + v[1] * (v[7] * (v[10] * v[12])));
    assert(exact_cof4(v, 0, 2) == v[4] * (v[9] * v[15] - v[11] * v[13]) - v[5] * (v[8] * v[15] - v[11] * v[12]) + v[7] * (v[8] * v[13] - v[9] * v[12]));
    lemma_distribute2(v[4], v[9] * v[15], v[11] * v[13]);
    lemma_distribute2(v[5], v[8] * v[15], v[11] * v[12]);
    lemma_distribute2(v[7], v[8] * v[13], v[9] * v[12]);
    assert(exact_cof4(v, 0, 2) == v[4] * (v[9] * v[15]) - v[4] * (v[11] * v[13]) - v[5] * (v[8] * v[15]) + v[5] * (v[11] * v[12]) + v[7] * (v[8] * v[13]) - v[7] * (v[9] * v[12]));
    lemma_expand_minor(v[2], v[4] * (v[9] * v[15]), v[4] * (v[11] * v[13]), v[5] * (v[8] * v[15]), v[5] * (v[11] * v[12]), v[7] * (v[8] * v[13]), v[7] * (v[9] * v[12]));
    assert(ent4(v, 0, 2) * exact_cof4(v, 0, 2) == v[2] * (v[4] * (v[9] * v[15])) - v[2] * (v[4] * (v[11] * v[13])) - v[2] * (v[5] * (v[8] * v[15])) + v[2] * (v[5] * (v[11] * v[12])) + v[2] * (v[7] * (v[8] * v[13])) - v[2] * (v[7] * (v[9] * v[12])));
    assert(exact_cof4(v, 0, 3) == -(v[4] * (v[9] * v[14] - v[10] * v[13]) - v[5] * (v[8] * v[14] - v[10] * v[12]) + v[6] * (v[8] * v[13] - v[9] * v[12])));
    lemma_distribute2(v[4], v[9] * v[14], v[10] * v[13]);
    lemma_distribute2(v[5], v[8] * v[14], v[10] * v[12]);
    lemma_distribute2(v[6], v[8] * v[13], v[9] * v[12]);
    assert(exact_cof4(v, 0, 3) == -(v[4] * (v[9] * v[14])) + v[4] * (v[10] * v[13]) + v[5] * (v[8] * v[14]) - v[5] * (v[10] * v[12]) - v[6] * (v[8] * v[13]) + v[6] * (v[9] * v[12]));
    lemma_expand_minor_neg(v[3], v[4] * (v[9] * v[14]), v[4] * (v[10] * v[13]), v[5] * (v[8] * v[14]), v[5] * (v[10] * v[12]), v[6] * (v[8] * v[13]), v[6] * (v[9] * v[12]));
    assert(ent4(v, 0, 3) * exact_cof4(v, 0, 3) == -(v[3] * (v[4] * (v[9] * v[14]))) + v[3] * (v[4] * (v[10] * v[13])) + v[3] * (v[5] * (v[8] * v[14])) - v[3] * (v[5] * (v[10] * v[12])) - v[3] * (v[6] * (v[8] * v[13])) + v[3] * (v[6] * (v[9] * v[12])));
}

proof fn lemma_laplace_2_3(v: Seq<int>)
    requires
        v.len() == 16,
    ensures
        ent4(v, 2, 0) * exact_cof4(v, 3, 0) + ent4(v, 2, 1) * exact_cof4(v, 3, 1) + ent4(v, 2, 2)
            * exact_cof4(v, 3, 2) + ent4(v, 2, 3) * exact_cof4(v, 3, 3) == 0,
{
    assert(exact_cof4(v, 3, 0) == -(v[1] * (v[6] * v[11] - v[7] * v[10]) - v[2] * (v[5] * v[11] - v[7] * v[9]) + v[3] * (v[5] * v[10] - v[6] * v[9])));
    lemma_distribute2(v[1], v[6] * v[11], v[7] * v[10]);
    lemma_distribute2(v[2], v[5] * v[11], v[7] * v[9]);
    lemma_distribute2(v[3], v[5] * v[10], v[6] * v[9]);
    assert(exact_cof4(v, 3, 0) == -(v[1] * (v[6] * v[11])) + v[1] * (v[7] * v[10]) + v[2] * (v[5] * v[11]) - v[2] * (v[7] * v[9]) - v[3] * (v[5] * v[10]) + v[3] * (v[6] * v[9]));
    lemma_expand_minor_neg(v[8], v[1] * (v[6] * v[11]), v[1] * (v[7] * v[10]), v[2] * (v[5] * v[11]), v[2] * (v[7] * v[9]), v[3] * (v[5] * v[10]), v[3] * (v[6] * v[9]));
    assert(v[8] * (v[1] * (v[6] * v[11])) == v[1] * (v[6] * (v[8] * v[11]))) by (nonlinear_arith);
    assert(v[8] * (v[1] * (v[7] * v[10])) == v[1] * (v[7] * (v[8] * v[10]))) by (nonlinear_arith);
    assert(v[8] * (v[2] * (v[5] * v[11])) == v[2] * (v[5] * (v[8] * v[11]))) by (nonlinear_arith);
    assert(v[8] * (v[2] * (v[7] * v[9])) == v[2] * (v[7] * (v[8] * v[9]))) by (nonlinear_arith);
    assert(v[8] * (v[3] * (v[5] * v[10])) == v[3] * (v[5] * (v[8] * v[10]))) by (nonlinear_arith);
    assert(v[8] * (v[3] * (v[6] * v[9])) == v[3] * (v[6] * (v[8] * v[9]))) by (nonlinear_arith);
    assert(ent4(v, 2, 0) * exact_cof4(v, 3, 0) == -(v[1] * (v[6] * (v[8] * v[11]))) + v[1] * (v[7] * (v[8] * v[10])) + v[2] * (v[5] * (v[8] * v[11])) - v[2] * (v[7] * (v[8] * v[9])) - v[3] * (v[5] * (v[8] * v[10])) + v[3] * (v[6] * (v[8] * v[9])));
    assert(exact_cof4(v, 3, 1) == v[0] * (v[6] * v[11] - v[7] * v[10]) - v[2] * (v[4] * v[11] - v[7] * v[8]) + v[3] * (v[4] * v[10] - v[6] * v[8]));
    lemma_distribute2(v[0], v[6] * v[11], v[7] * v[10]);
    lemma_distribute2(v[2], v[4] * v[11], v[7] * v[8]);
    lemma_distribute2(v[3], v[4] * v[10], v[6] * v[8]);
    assert(exact_cof4(v, 3, 1) == v[0] * (v[6] * v[11]) - v[0] * (v[7] * v[10]) - v[2] * (v[4] * v[11]) + v[2] * (v[7] * v[8]) + v[3] * (v[4] * v[10]) - v[3] * (v[6] * v[8]));
    lemma_expand_minor(v[9], v[0] * (v[6] * v[11]), v[0] * (v[7] * v[10]), v[2] * (v[4] * v[11]), v[2] * (v[7] * v[8]), v[3] * (v[4] * v[10]), v[3] * (v[6] * v[8]));
    assert(v[9] * (v[0] * (v[6] * v[11])) == v[0] * (v[6] * (v[9] * v[11]))) by (nonlinear_arith);
    assert(v[9] * (v[0] * (v[7] * v[10])) == v[0] * (v[7] * (v[9] * v[10]))) by (nonlinear_arith);
    assert(v[9] * (v[2] * (v[4] * v[11])) == v[2] * (v[4] * (v[9] * v[11]))) by (nonlinear_arith);
    assert(v[9] * (v[2] * (v[7] * v[8])) == v[2] * (v[7] * (v[8] * v[9]))) by (nonlinear_arith);
    assert(v[9] * (v[3] * (v[4] * v[10])) == v[3] * (v[4] * (v[9] * v[10]))) by (nonlinear_arith);
    assert(v[9] * (v[3] * (v[6] * v[8])) == v[3] * (v[6] * (v[8] * v[9]))) by (nonlinear_arith);
    assert(ent4(v, 2, 1) * exact_cof4(v, 3, 1) == v[0] * (v[6] * (v[9] * v[11])) - v[0] * (v[7] * (v[9] * v[10])) - v[2] * (v[4] * (v[9] * v[11])) + v[2] * (v[7] * (v[8] * v[9])) + v[3] * (v[4] * (v[9] * v[10])) - v[3] * (v[6] * (v[8] * v[9])));
    assert(exact_cof4(v, 3, 2) == -(v[0] * (v[5] * v[11] - v[7] * v[9]) - v[1] * (v[4] * v[11] - v[7] * v[8]) + v[3] * (v[4] * v[9] - v[5] * v[8])));
    lemma_distribute2(v[0], v[5] * v[11], v[7] * v[9]);
    lemma_distribute2(v[1], v[4] * v[11], v[7] * v[8]);
    lemma_distribute2(v[3], v[4] * v[9], v[5] * v[8]);
    assert(exact_cof4(v, 3, 2) == -(v[0] * (v[5] * v[11])) + v[0] * (v[7] * v[9]) + v[1] * (v[4] * v[11]) - v[1] * (v[7] * v[8]) - v[3] * (v[4] * v[9]) + v[3] * (v[5] * v[8]));
    lemma_expand_minor_neg(v[10], v[0] * (v[5] * v[11]), v[0] * (v[7] * v[9]), v[1] * (v[4] * v[11]), v[1] * (v[7] * v[8]), v[3] * (v[4] * v[9]), v[3] * (v[5] * v[8]));
    assert(v[10] * (v[0] * (v[5] * v[11])) == v[0] * (v[5] * (v[10] * v[11]))) by (nonlinear_arith);
    assert(v[10] * (v[0] * (v[7] * v[9])) == v[0] * (v[7] * (v[9] * v[10]))) by (nonlinear_arith);
    assert(v[10] * (v[1] * (v[4] * v[11])) == v[1] * (v[4] * (v[10] * v[11]))) by (nonlinear_arith);
    assert(v[10] * (v[1] * (v[7] * v[8])) == v[1] * (v[7] * (v[8] * v[10]))) by (nonlinear_arith);
    assert(v[10] * (v[3] * (v[4] * v[9])) == v[3] * (v[4] * (v[9] * v[10]))) by (nonlinear_arith);
    assert(v[10] * (v[3] * (v[5] * v[8])) == v[3] * (v[5] * (v[8] * v[10]))) by (nonlinear_arith);
    assert(ent4(v, 2, 2) * exact_cof4(v, 3, 2) == -(v[0] * (v[5] * (v[10] * v[11]))) + v[0] * (v[7] * (v[9] * v[10])) + v[1] * (v[4] * (v[10] * v[11])) - v[1] * (v[7] * (v[8] * v[10])) - v[3] * (v[4] * (v[9] * v[10])) + v[3] * (v[5] * (v[8] * v[10])));
    assert(exact_cof4(v, 3, 3) == v[0] * (v[5] * v[10] - v[6] * v[9]) - v[1] * (v[4] * v[10] - v[6] * v[8]) + v[2] * (v[4] * v[9] - v[5] * v[8]));
    lemma_distribute2(v[0], v[5] * v[10], v[6] * v[9]);
    lemma_distribute2(v[1], v[4] * v[10], v[6] * v[8]);
    lemma_distribute2(v[2], v[4] * v[9], v[5] * v[8]);
    assert(exact_cof4(v, 3, 3) == v[0] * (v[5] * v[10]) - v[0] * (v[6] * v[9]) - v[1] * (v[4] * v[10]) + v[1] * (v[6] * v[8]) + v[2] * (v[4] * v[9]) - v[2] * (v[5] * v[8]));
    lemma_expand_minor(v[11], v[0] * (v[5] * v[10]), v[0] * (v[6] * v[9]), v[1] * (v[4] * v[10]), v[1] * (v[6] * v[8]), v[2] * (v[4] * v[9]), v[2] * (v[5] * v[8]));
    assert(v[11] * (v[0] * (v[5] * v[10])) == v[0] * (v[5] * (v[10] * v[11]))) by (nonlinear_arith);
    assert(v[11] * (v[0] * (v[6] * v[9])) == v[0] * (v[6] * (v[9] * v[11]))) by (nonlinear_arith);
    assert(v[11] * (v[1] * (v[4] * v[10])) == v[1] * (v[4] * (v[10] * v[11]))) by (nonlinear_arith);
    assert(v[11] * (v[1] * (v[6] * v[8])) == v[1] * (v[6] * (v[8] * v[11]))) by (nonlinear_arith);
    assert(v[11] * (v[2] * (v[4] * v[9])) == v[2] * (v[4] * (v[9] * v[11]))) by (nonlinear_arith);
    assert(v[11] * (v[2] * (v[5] * v[8])) == v[2] * (v[5] * (v[8] * v[11]))) by (nonlinear_arith);
    assert(ent4(v, 2, 3) * exact_cof4(v, 3, 3) == v[0] * (v[5] * (v[10] * v[11])) - v[0] * (v[6] * (v[9] * v[11])) - v[1] * (v[4] * (v[10] * v[11])) + v[1] * (v[6] * (v[8] * v[11])) + v[2] * (v[4] * (v[9] * v[11])) - v[2] * (v[5] * (v[8] * v[11])));
}

proof fn lemma_laplace_3_0(v: Seq<int>)
    requires
        v.len() == 16,
    ensures
        ent4(v, 3, 0) * exact_cof4(v, 0, 0) + ent4(v, 3, 1) * exact_cof4(v, 0, 1) + ent4(v, 3, 2)
            * exact_cof4(v, 0, 2) + ent4(v, 3, 3) * exact_cof4(v, 0, 3) == 0,
{
    assert(exact_cof4(v, 0, 0) == v[5] * (v[10] * v[15] - v[11] * v[14]) - v[6] * (v[9] * v[15] - v[11] * v[13]) + v[7] * (v[9] * v[14] - v[10] * v[13]));
    lemma_distribute2(v[5], v[10] * v[15], v[11] * v[14]);
    lemma_distribute2(v[6], v[9] * v[15], v[11] * v[13]);
    lemma_distribute2(v[7], v[9] * v[14], v[10] * v[13]);
    assert(exact_cof4(v, 0, 0) == v[5] * (v[10] * v[15]) - v[5] * (v[11] * v[14]) - v[6] * (v[9] * v[15]) + v[6] * (v[11] * v[13]) + v[7] * (v[9] * v[14]) - v[7] * (v[10] * v[13]));
    lemma_expand_minor(v[12], v[5] * (v[10] * v[15]), v[5] * (v[11] * v[14]), v[6] * (v[9] * v[15]), v[6] * (v[11] * v[13]), v[7] * (v[9] * v[14]), v[7] * (v[10] * v[13]));
    assert(v[12] * (v[5] * (v[10] * v[15])) == v[5] * (v[10] * (v[12] * v[15]))) by (nonlinear_arith);
    assert(v[12] * (v[5] * (v[11] * v[14])) == v[5] * (v[11] * (v[12] * v[14]))) by (nonlinear_arith);
    assert(v[12] * (v[6] * (v[9] * v[15])) == v[6] * (v[9] * (v[12] * v[15]))) by (nonlinear_arith);
    assert(v[12] * (v[6] * (v[11] * v[13])) == v[6] * (v[11] * (v[12] * v[13]))) by (nonlinear_arith);
    assert(v[12] * (v[7] * (v[9] * v[14])) == v[7] * (v[9] * (v[12] * v[14]))) by (nonlinear_arith);
    assert(v[12] * (v[7] * (v[10] * v[13])) == v[7] * (v[10] * (v[12] * v[13]))) by (nonlinear_arith);
    assert(ent4(v, 3, 0) * exact_cof4(v, 0, 0) == v[5] * (v[10] * (v[12] * v[15])) - v[5] * (v[11] * (v[12] * v[14])) - v[6] * (v[9] * (v[12] * v[15])) + v[6] * (v[11] * (v[12] * v[13])) + v[7] * (v[9] * (v[12] * v[14])) - v[7] * (v[10] * (v[12] * v[13])));
    assert(exact_cof4(v, 0, 1) == -(v[4] * (v[10] * v[15] - v[11] * v[14]) - v[6] * (v[8] * v[15] - v[11] * v[12]) + v[7] * (v[8] * v[14] - v[10] * v[12])));
    lemma_distribute2(v[4], v[10] * v[15], v[11] * v[14]);
    lemma_distribute2(v[6], v[8] * v[15], v[11] * v[12]);
    lemma_distribute2(v[7], v[8] * v[14], v[10] * v[12]);
    assert(exact_cof4(v, 0, 1) == -(v[4] * (v[10] * v[15])) + v[4] * (v[11] * v[14]) + v[6] * (v[8] * v[15]) - v[6] * (v[11] * v[12]) - v[7] * (v[8] * v[14]) + v[7] * (v[10] * v[12]));
    lemma_expand_minor_neg(v[13], v[4] * (v[10] * v[15]), v[4] * (v[11] * v[14]), v[6] * (v[8] * v[15]), v[6] * (v[11] * v[12]), v[7] * (v[8] * v[14]), v[7] * (v[10] * v[12]));
    assert(v[13] * (v[4] * (v[10] * v[15])) == v[4] * (v[10] * (v[13] * v[15]))) by (nonlinear_arith);
    assert(v[13] * (v[4] * (v[11] * v[14])) == v[4] * (v[11] * (v[13] * v[14]))) by (nonlinear_arith);
    assert(v[13] * (v[6] * (v[8] * v[15])) == v[6] * (v[8] * (v[13] * v[15]))) by (nonlinear_arith);
    assert(v[13] * (v[6] * (v[11] * v[12])) == v[6] * (v[11] * (v[12] * v[13]))) by (nonlinear_arith);
    assert(v[13] * (v[7] * (v[8] * v[14])) == v[7] * (v[8] * (v[13] * v[14]))) by (nonlinear_arith);
    assert(v[13] * (v[7] * (v[10] * v[12])) == v[7] * (v[10] * (v[12] * v[13]))) by (nonlinear_arith);
    assert(ent4(v, 3, 1) * exact_cof4(v, 0, 1) == -(v[4] * (v[10] * (v[13] * v[15]))) + v[4] * (v[11] * (v[13] * v[14])) + v[6] * (v[8] * (v[13] * v[15])) - v[6] * (v[11] * (v[12] * v[13])) - v[7] * (v[8] * (v[13] * v[14])) + v[7] * (v[10] * (v[12] * v[13])));
    assert(exact_cof4(v, 0, 2) == v[4] * (v[9] * v[15] - v[11] * v[13]) - v[5] * (v[8] * v[15] - v[11] * v[12]) + v[7] * (v[8] * v[13] - v[9] * v[12]));
    lemma_distribute2(v[4], v[9] * v[15], v[11] * v[13]);
    lemma_distribute2(v[5], v[8] * v[15], v[11] * v[12]);
    lemma_distribute2(v[7], v[8] * v[13], v[9] * v[12]);
    assert(exact_cof4(v, 0, 2) == v[4] * (v[9] * v[15]) - v[4] * (v[11] * v[13]) - v[5] * (v[8] * v[15]) + v[5] * (v[11] * v[12]) + v[7] * (v[8] * v[13]) - v[7] * (v[9] * v[12]));
    lemma_expand_minor(v[14], v[4] * (v[9] * v[15]), v[4] * (v[11] * v[13]), v[5] * (v[8] * v[15]), v[5] * (v[11] * v[12]), v[7] * (v[8] * v[13]), v[7] * (v[9] * v[12]));
    assert(v[14] * (v[4] * (v[9] * v[15])) == v[4] * (v[9] * (v[14] * v[15]))) by (nonlinear_arith);
    assert(v[14] * (v[4] * (v[11] * v[13])) == v[4] * (v[11] * (v[13] * v[14]))) by (nonlinear_arith);
    assert(v[14] * (v[5] * (v[8] * v[15])) == v[5] * (v[8] * (v[14] * v[15]))) by (nonlinear_arith);
    assert(v[14] * (v[5] * (v[11] * v[12])) == v[5] * (v[11] * (v[12] * v[14]))) by (nonlinear_arith);
    assert(v[14] * (v[7] * (v[8] * v[13])) == v[7] * (v[8] * (v[13] * v[14]))) by (nonlinear_arith);
    assert(v[14] * (v[7] * (v[9] * v[12])) == v[7] * (v[9] * (v[12] * v[14]))) by (nonlinear_arith);
    assert(ent4(v, 3, 2) * exact_cof4(v, 0, 2) == v[4] * (v[9] * (v[14] * v[15])) - v[4] * (v[11] * (v[13] * v[14])) - v[5] * (v[8] * (v[14] * v[15])) + v[5] * (v[11] * (v[12] * v[14])) + v[7] * (v[8] * (v[13] * v[14])) - v[7] * (v[9] * (v[12] * v[14])));
    assert(exact_cof4(v, 0, 3) == -(v[4] * (v[9] * v[14] - v[10] * v[13]) - v[5] * (v[8] * v[14] - v[10] * v[12]) + v[6] * (v[8] * v[13] - v[9] * v[12])));
    lemma_distribute2(v[4], v[9] * v[14], v[10] * v[13]);
    lemma_distribute2(v[5], v[8] * v[14], v[10] * v[12]);
    lemma_distribute2(v[6], v[8] * v[13], v[9] * v[12]);
    assert(exact_cof4(v, 0, 3) == -(v[4] * (v[9] * v[14])) + v[4] * (v[10] * v[13]) + v[5] * (v[8] * v[14]) - v[5] * (v[10] * v[12]) - v[6] * (v[8] * v[13]) + v[6] * (v[9] * v[12]));
    lemma_expand_minor_neg(v[15], v[4] * (v[9] * v[14]), v[4] * (v[10] * v[13]), v[5] * (v[8] * v[14]), v[5] * (v[10] * v[12]), v[6] * (v[8] * v[13]), v[6] * (v[9] * v[12]));
    assert(v[15] * (v[4] * (v[9] * v[14])) == v[4] * (v[9] * (v[14] * v[15]))) by (nonlinear_arith);
    assert(v[15] * (v[4] * (v[10] * v[13])) == v[4] * (v[10] * (v[13] * v[15]))) by (nonlinear_arith);
    assert(v[15] * (v[5] * (v[8] * v[14])) == v[5] * (v[8] * (v[14] * v[15]))) by (nonlinear_arith);
    assert(v[15] * (v[5] * (v[10] * v[12])) == v[5] * (v[10] * (v[12] * v[15]))) by (nonlinear_arith);
    assert(v[15] * (v[6] * (v[8] * v[13])) == v[6] * (v[8] * (v[13] * v[15]))) by (nonlinear_arith);
    assert(v[15] * (v[6] * (v[9] * v[12])) == v[6] * (v[9] * (v[12] * v[15]))) by (nonlinear_arith);
    assert(ent4(v, 3, 3) * exact_cof4(v, 0, 3) == -(v[4] * (v[9] * (v[14] * v[15]))) + v[4] * (v[10] * (v[13] * v[15])) + v[5] * (v[8] * (v[14] * v[15])) - v[5] * (v[10] * (v[12] * v[15])) - v[6] * (v[8] * (v[13] * v[15])) + v[6] * (v[9] * (v[12] * v[15])));
}

proof fn lemma_laplace_3_1(v: Seq<int>)
    requires
        v.len() == 16,
    ensures
        ent4(v, 3, 0) * exact_cof4(v, 1, 0) + ent4(v, 3, 1) * exact_cof4(v, 1, 1) + ent4(v, 3, 2)
            * exact_cof4(v, 1, 2) + ent4(v, 3, 3) * exact_cof4(v, 1, 3) == 0,
{
    assert(exact_cof4(v, 1, 0) == -(v[1] * (v[10] * v[15] - v[11] * v[14]) - v[2] * (v[9] * v[15] - v[11] * v[13]) + v[3] * (v[9] * v[14] - v[10] * v[13])));
    lemma_distribute2(v[1], v[10] * v[15], v[11] * v[14]);
    lemma_distribute2(v[2], v[9] * v[15], v[11] * v[13]);
    lemma_distribute2(v[3], v[9] * v[14], v[10] * v[13]);
    assert(exact_cof4(v, 1, 0) == -(v[1] * (v[10] * v[15])) + v[1] * (v[11] * v[14]) + v[2] * (v[9] * v[15]) - v[2] * (v[11] * v[13]) - v[3] * (v[9] * v[14]) + v[3] * (v[10] * v[13]));
    lemma_expand_minor_neg(v[12], v[1] * (v[10] * v[15]), v[1] * (v[11] * v[14]), v[2] * (v[9] * v[15]), v[2] * (v[11] * v[13]), v[3] * (v[9] * v[14]), v[3] * (v[10] * v[13]));
    assert(v[12] * (v[1] * (v[10] * v[15])) == v[1] * (v[10] * (v[12] * v[15]))) by (nonlinear_arith);
    assert(v[12] * (v[1] * (v[11] * v[14])) == v[1] * (v[11] * (v[12] * v[14]))) by (nonlinear_arith);
    assert(v[12] * (v[2] * (v[9] * v[15])) == v[2] * (v[9] * (v[12] * v[15]))) by (nonlinear_arith);
    assert(v[12] * (v[2] * (v[11] * v[13])) == v[2] * (v[11] * (v[12] * v[13]))) by (nonlinear_arith);
    assert(v[12] * (v[3] * (v[9] * v[14])) == v[3] * (v[9] * (v[12] * v[14]))) by (nonlinear_arith);
    assert(v[12] * (v[3] * (v[10] * v[13])) == v[3] * (v[10] * (v[12] * v[13]))) by (nonlinear_arith);
    assert(ent4(v, 3, 0) * exact_cof4(v, 1, 0) == -(v[1] * (v[10] * (v[12] * v[15]))) + v[1] * (v[11] * (v[12] * v[14])) + v[2] * (v[9] * (v[12] * v[15])) - v[2] * (v[11] * (v[12] * v[13])) - v[3] * (v[9] * (v[12] * v[14])) + v[3] * (v[10] * (v[12] * v[13])));
    assert(exact_cof4(v, 1, 1) == v[0] * (v[10] * v[15] - v[11] * v[14]) - v[2] * (v[8] * v[15] - v[11] * v[12]) + v[3] * (v[8] * v[14] - v[10] * v[12]));
    lemma_distribute2(v[0], v[10] * v[15], v[11] * v[14]);
    lemma_distribute2(v[2], v[8] * v[15], v[11] * v[12]);
    lemma_distribute2(v[3], v[8] * v[14], v[10] * v[12]);
    assert(exact_cof4(v, 1, 1) == v[0] * (v[10] * v[15]) - v[0] * (v[11] * v[14]) - v[2] * (v[8] * v[15]) + v[2] * (v[11] * v[12]) + v[3] * (v[8] * v[14]) - v[3] * (v[10] * v[12]));
    lemma_expand_minor(v[13], v[0] * (v[10] * v[15]), v[0] * (v[11] * v[14]), v[2] * (v[8] * v[15]), v[2] * (v[11] * v[12]), v[3] * (v[8] * v[14]), v[3] * (v[10] * v[12]));
    assert(v[13] * (v[0] * (v[10] * v[15])) == v[0] * (v[10] * (v[13] * v[15]))) by (nonlinear_arith);
    assert(v[13] * (v[0] * (v[11] * v[14])) == v[0] * (v[11] * (v[13] * v[14]))) by (nonlinear_arith);
    assert(v[13] * (v[2] * (v[8] * v[15])) == v[2] * (v[8] * (v[13] * v[15]))) by (nonlinear_arith);
    assert(v[13] * (v[2] * (v[11] * v[12])) == v[2] * (v[11] * (v[12] * v[13]))) by (nonlinear_arith);
    assert(v[13] * (v[3] * (v[8] * v[14])) == v[3] * (v[8] * (v[13] * v[14]))) by (nonlinear_arith);
    assert(v[13] * (v[3] * (v[10] * v[12])) == v[3] * (v[10] * (v[12] * v[13]))) by (nonlinear_arith);
    assert(ent4(v, 3, 1) * exact_cof4(v, 1, 1) == v[0] * (v[10] * (v[13] * v[15])) - v[0] * (v[11] * (v[13] * v[14])) - v[2] * (v[8] * (v[13] * v[15])) + v[2] * (v[11] * (v[12] * v[13])) + v[3] * (v[8] * (v[13] * v[14])) - v[3] * (v[10] * (v[12] * v[13])));
    assert(exact_cof4(v, 1, 2) == -(v[0] * (v[9] * v[15] - v[11] * v[13]) - v[1] * (v[8] * v[15] - v[11] * v[12]) + v[3] * (v[8] * v[13] - v[9] * v[12])));
    lemma_distribute2(v[0], v[9] * v[15], v[11] * v[13]);
    lemma_distribute2(v[1], v[8] * v[15], v[11] * v[12]);
    lemma_distribute2(v[3], v[8] * v[13], v[9] * v[12]);
    assert(exact_cof4(v, 1, 2) == -(v[0] * (v[9] * v[15])) + v[0] * (v[11] * v[13]) + v[1] * (v[8] * v[15]) - v[1] * (v[11] * v[12]) - v[3] * (v[8] * v[13]) + v[3] * (v[9] * v[12]));
    lemma_expand_minor_neg(v[14], v[0] * (v[9] * v[15]), v[0] * (v[11] * v[13]), v[1] * (v[8] * v[15]), v[1] * (v[11] * v[12]), v[3] * (v[8] * v[13]), v[3] * (v[9] * v[12]));
    assert(v[14] * (v[0] * (v[9] * v[15])) == v[0] * (v[9] * (v[14] * v[15]))) by (nonlinear_arith);
    assert(v[14] * (v[0] * (v[11] * v[13])) == v[0] * (v[11] * (v[13] * v[14]))) by (nonlinear_arith);
    assert(v[14] * (v[1] * (v[8] * v[15])) == v[1] * (v[8] * (v[14] * v[15]))) by (nonlinear_arith);
    assert(v[14] * (v[1] * (v[11] * v[12])) == v[1] * (v[11] * (v[12] * v[14]))) by (nonlinear_arith);
    assert(v[14] * (v[3] * (v[8] * v[13])) == v[3] * (v[8] * (v[13] * v[14]))) by (nonlinear_arith);
    assert(v[14] * (v[3] * (v[9] * v[12])) == v[3] * (v[9] * (v[12] * v[14]))) by (nonlinear_arith);
    assert(ent4(v, 3, 2) * exact_cof4(v, 1, 2) == -(v[0] * (v[9] * (v[14] * v[15]))) + v[0] * (v[11] * (v[13] * v[14])) + v[1] * (v[8] * (v[14] * v[15])) - v[1] * (v[11] * (v[12] * v[14])) - v[3] * (v[8] * (v[13] * v[14])) + v[3] * (v[9] * (v[12] * v[14])));
    assert(exact_cof4(v, 1, 3) == v[0] * (v[9] * v[14] - v[10] * v[13]) - v[1] * (v[8] * v[14] - v[10] * v[12]) + v[2] * (v[8] * v[13] - v[9] * v[12]));
    lemma_distribute2(v[0], v[9] * v[14], v[10] * v[13]);
    lemma_distribute2(v[1], v[8] * v[14], v[10] * v[12]);
    lemma_distribute2(v[2], v[8] * v[13], v[9] * v[12]);
    assert(exact_cof4(v, 1, 3) == v[0] * (v[9] * v[14]) - v[0] * (v[10] * v[13]) - v[1] * (v[8] * v[14]) + v[1] * (v[10] * v[12]) + v[2] * (v[8] * v[13]) - v[2] * (v[9] * v[12]));
    lemma_expand_minor(v[15], v[0] * (v[9] * v[14]), v[0] * (v[10] * v[13]), v[1] * (v[8] * v[14]), v[1] * (v[10] * v[12]), v[2] * (v[8] * v[13]), v[2] * (v[9] * v[12]));
    assert(v[15] * (v[0] * (v[9] * v[14])) == v[0] * (v[9] * (v[14] * v[15]))) by (nonlinear_arith);
    assert(v[15] * (v[0] * (v[10] * v[13])) == v[0] * (v[10] * (v[13] * v[15]))) by (nonlinear_arith);
    assert(v[15] * (v[1] * (v[8] * v[14])) == v[1] * (v[8] * (v[14] * v[15]))) by (nonlinear_arith);
    assert(v[15] * (v[1] * (v[10] * v[12])) == v[1] * (v[10] * (v[12] * v[15]))) by (nonlinear_arith);
    assert(v[15] * (v[2] * (v[8] * v[13])) == v[2] * (v[8] * (v[13] * v[15]))) by (nonlinear_arith);
    assert(v[15] * (v[2] * (v[9] * v[12])) == v[2] * (v[9] * (v[12] * v[15]))) by (nonlinear_arith);
    assert(ent4(v, 3, 3) * exact_cof4(v, 1, 3) == v[0] * (v[9] * (v[14] * v[15])) - v[0] * (v[10] * (v[13] * v[15])) - v[1] * (v[8] * (v[14] * v[15])) + v[1] * (v[10] * (v[12] * v[15])) + v[2] * (v[8] * (v[13] * v[15])) - v[2] * (v[9] * (v[12] * v[15])));
}

proof fn lemma_laplace_3_2(v: Seq<int>)
    requires
        v.len() == 16,
    ensures
        ent4(v, 3, 0) * exact_cof4(v, 2, 0) + ent4(v, 3, 1) * exact_cof4(v, 2, 1) + ent4(v, 3, 2)
            * exact_cof4(v, 2, 2) + ent4(v, 3, 3) * exact_cof4(v, 2, 3) == 0,
{
    assert(exact_cof4(v, 2, 0) == v[1] * (v[6] * v[15] - v[7] * v[14]) - v[2] * (v[5] * v[15] - v[7] * v[13]) + v[3] * (v[5] * v[14] - v[6] * v[13]));
    lemma_distribute2(v[1], v[6] * v[15], v[7] * v[14]);
    lemma_distribute2(v[2], v[5] * v[15], v[7] * v[13]);
    lemma_distribute2(v[3], v[5] * v[14], v[6] * v[13]);
    assert(exact_cof4(v, 2, 0) == v[1] * (v[6] * v[15]) - v[1] * (v[7] * v[14]) - v[2] * (v[5] * v[15]) + v[2] * (v[7] * v[13]) + v[3] * (v[5] * v[14]) - v[3] * (v[6] * v[13]));
    lemma_expand_minor(v[12], v[1] * (v[6] * v[15]), v[1] * (v[7] * v[14]), v[2] * (v[5] * v[15]), v[2] * (v[7] * v[13]), v[3] * (v[5] * v[14]), v[3] * (v[6] * v[13]));
    assert(v[12] * (v[1] * (v[6] * v[15])) == v[1] * (v[6] * (v[12] * v[15]))) by (nonlinear_arith);
    assert(v[12] * (v[1] * (v[7] * v[14])) == v[1] * (v[7] * (v[12] * v[14]))) by (nonlinear_arith);
    assert(v[12] * (v[2] * (v[5] * v[15])) == v[2] * (v[5] * (v[12] * v[15]))) by (nonlinear_arith);
    assert(v[12] * (v[2] * (v[7] * v[13])) == v[2] * (v[7] * (v[12] * v[13]))) by (nonlinear_arith);
    assert(v[12] * (v[3] * (v[5] * v[14])) == v[3] * (v[5] * (v[12] * v[14]))) by (nonlinear_arith);
    assert(v[12] * (v[3] * (v[6] * v[13])) == v[3] * (v[6] * (v[12] * v[13]))) by (nonlinear_arith);
    assert(ent4(v, 3, 0) * exact_cof4(v, 2, 0) == v[1] * (v[6] * (v[12] * v[15])) - v[1] * (v[7] * (v[12] * v[14])) - v[2] * (v[5] * (v[12] * v[15])) + v[2] * (v[7] * (v[12] * v[13])) + v[3] * (v[5] * (v[12] * v[14])) - v[3] * (v[6] * (v[12] * v[13])));
    assert(exact_cof4(v, 2, 1) == -(v[0] * (v[6] * v[15] - v[7] * v[14]) - v[2] * (v[4] * v[15] - v[7] * v[12]) + v[3] * (v[4] * v[14] - v[6] * v[12])));
    lemma_distribute2(v[0], v[6] * v[15], v[7] * v[14]);
    lemma_distribute2(v[2], v[4] * v[15], v[7] * v[12]);
    lemma_distribute2(v[3], v[4] * v[14], v[6] * v[12]);
    assert(exact_cof4(v, 2, 1) == -(v[0] * (v[6] * v[15])) + v[0] * (v[7] * v[14]) + v[2] * (v[4] * v[15]) - v[2] * (v[7] * v[12]) - v[3] * (v[4] * v[14]) + v[3] * (v[6] * v[12]));
    lemma_expand_minor_neg(v[13], v[0] * (v[6] * v[15]), v[0] * (v[7] * v[14]), v[2] * (v[4] * v[15]), v[2] * (v[7] * v[12]), v[3] * (v[4] * v[14]), v[3] * (v[6] * v[12]));
    assert(v[13] * (v[0] * (v[6] * v[15])) == v[0] * (v[6] * (v[13] * v[15]))) by (nonlinear_arith);
    assert(v[13] * (v[0] * (v[7] * v[14])) == v[0] * (v[7] * (v[13] * v[14]))) by (nonlinear_arith);
    assert(v[13] * (v[2] * (v[4] * v[15])) == v[2] * (v[4] * (v[13] * v[15]))) by (nonlinear_arith);
    assert(v[13] * (v[2] * (v[7] * v[12])) == v[2] * (v[7] * (v[12] * v[13]))) by (nonlinear_arith);
    assert(v[13] * (v[3] * (v[4] * v[14])) == v[3] * (v[4] * (v[13] * v[14]))) by (nonlinear_arith);
    assert(v[13] * (v[3] * (v[6] * v[12])) == v[3] * (v[6] * (v[12] * v[13]))) by (nonlinear_arith);
    assert(ent4(v, 3, 1) * exact_cof4(v, 2, 1) == -(v[0] * (v[6] * (v[13] * v[15]))) + v[0] * (v[7] * (v[13] * v[14])) + v[2] * (v[4] * (v[13] * v[15])) - v[2] * (v[7] * (v[12] * v[13])) - v[3] * (v[4] * (v[13] * v[14])) + v[3] * (v[6] * (v[12] * v[13])));
    assert(exact_cof4(v, 2, 2) == v[0] * (v[5] * v[15] - v[7] * v[13]) - v[1] * (v[4] * v[15] - v[7] * v[12]) + v[3] * (v[4] * v[13] - v[5] * v[12]));
    lemma_distribute2(v[0], v[5] * v[15], v[7] * v[13]);
    lemma_distribute2(v[1], v[4] * v[15], v[7] * v[12]);
    lemma_distribute2(v[3], v[4] * v[13], v[5] * v[12]);
    assert(exact_cof4(v, 2, 2) == v[0] * (v[5] * v[15]) - v[0] * (v[7] * v[13]) - v[1] * (v[4] * v[15]) + v[1] * (v[7] * v[12]) + v[3] * (v[4] * v[13]) - v[3] * (v[5] * v[12]));
    lemma_expand_minor(v[14], v[0] * (v[5] * v[15]), v[0] * (v[7] * v[13]), v[1] * (v[4] * v[15]), v[1] * (v[7] * v[12]), v[3] * (v[4] * v[13]), v[3] * (v[5] * v[12]));
    assert(v[14] * (v[0] * (v[5] * v[15])) == v[0] * (v[5] * (v[14] * v[15]))) by (nonlinear_arith);
    assert(v[14] * (v[0] * (v[7] * v[13])) == v[0] * (v[7] * (v[13] * v[14]))) by (nonlinear_arith);
    assert(v[14] * (v[1] * (v[4] * v[15])) == v[1] * (v[4] * (v[14] * v[15]))) by (nonlinear_arith);
    assert(v[14] * (v[1] * (v[7] * v[12])) == v[1] * (v[7] * (v[12] * v[14]))) by (nonlinear_arith);
    assert(v[14] * (v[3] * (v[4] * v[13])) == v[3] * (v[4] * (v[13] * v[14]))) by (nonlinear_arith);
    assert(v[14] * (v[3] * (v[5] * v[12])) == v[3] * (v[5] * (v[12] * v[14]))) by (nonlinear_arith);
    assert(ent4(v, 3, 2) * exact_cof4(v, 2, 2) == v[0] * (v[5] * (v[14] * v[15])) - v[0] * (v[7] * (v[13] * v[14])) - v[1] * (v[4] * (v[14] * v[15])) + v[1] * (v[7] * (v[12] * v[14])) + v[3] * (v[4] * (v[13] * v[14])) - v[3] * (v[5] * (v[12] * v[14])));
    assert(exact_cof4(v, 2, 3) == -(v[0] * (v[5] * v[14] - v[6] * v[13]) - v[1] * (v[4] * v[14] - v[6] * v[12]) + v[2] * (v[4] * v[13] - v[5] * v[12])));
    lemma_distribute2(v[0], v[5] * v[14], v[6] * v[13]);
    lemma_distribute2(v[1], v[4] * v[14], v[6] * v[12]);
    lemma_distribute2(v[2], v[4] * v[13], v[5] * v[12]);
    assert(exact_cof4(v, 2, 3) == -(v[0] * (v[5] * v[14])) + v[0] * (v[6] * v[13]) + v[1] * (v[4] * v[14]) - v[1] * (v[6] * v[12]) - v[2] * (v[4] * v[13]) + v[2] * (v[5] * v[12]));
    lemma_expand_minor_neg(v[15], v[0] * (v[5] * v[14]), v[0] * (v[6] * v[13]), v[1] * (v[4] * v[14]), v[1] * (v[6] * v[12]), v[2] * (v[4] * v[13]), v[2] * (v[5] * v[12]));
    assert(v[15] * (v[0] * (v[5] * v[14])) == v[0] * (v[5] * (v[14] * v[15]))) by (nonlinear_arith);
    assert(v[15] * (v[0] * (v[6] * v[13])) == v[0] * (v[6] * (v[13] * v[15]))) by (nonlinear_arith);
    assert(v[15] * (v[1] * (v[4] * v[14])) == v[1] * (v[4] * (v[14] * v[15]))) by (nonlinear_arith);
    assert(v[15] * (v[1] * (v[6] * v[12])) == v[1] * (v[6] * (v[12] * v[15]))) by (nonlinear_arith);
    assert(v[15] * (v[2] * (v[4] * v[13])) == v[2] * (v[4] * (v[13] * v[15]))) by (nonlinear_arith);
    assert(v[15] * (v[2] * (v[5] * v[12])) == v[2] * (v[5] * (v[12] * v[15]))) by (nonlinear_arith);
    assert(ent4(v, 3, 3) * exact_cof4(v, 2, 3) == -(v[0] * (v[5] * (v[14] * v[15]))) + v[0] * (v[6] * (v[13] * v[15])) + v[1] * (v[4] * (v[14] * v[15])) - v[1] * (v[6] * (v[12] * v[15])) - v[2] * (v[4] * (v[13] * v[15])) + v[2] * (v[5] * (v[12] * v[15])));
}

proof fn lemma_laplace_3_3(v: Seq<int>)
    requires
        v.len() == 16,
    ensures
        ent4(v, 3, 0) * exact_cof4(v, 3, 0) + ent4(v, 3, 1) * exact_cof4(v, 3, 1) + ent4(v, 3, 2)
            * exact_cof4(v, 3, 2) + ent4(v, 3, 3) * exact_cof4(v, 3, 3) == exact_det4(v),
{
    assert(exact_cof4(v, 3, 0) == -(v[1] * (v[6] * v[11] - v[7] * v[10]) - v[2] * (v[5] * v[11] - v[7] * v[9]) + v[3] * (v[5] * v[10] - v[6] * v[9])));
    lemma_distribute2(v[1], v[6] * v[11], v[7] * v[10]);
    lemma_distribute2(v[2], v[5] * v[11], v[7] * v[9]);
    lemma_distribute2(v[3], v[5] * v[10], v[6] * v[9]);
    assert(exact_cof4(v, 3, 0) == -(v[1] * (v[6] * v[11])) + v[1] * (v[7] * v[10]) + v[2] * (v[5] * v[11]) - v[2] * (v[7] * v[9]) - v[3] * (v[5] * v[10]) + v[3] * (v[6] * v[9]));
    lemma_expand_minor_neg(v[12], v[1] * (v[6] * v[11]), v[1] * (v[7] * v[10]), v[2] * (v[5] * v[11]), v[2] * (v[7] * v[9]), v[3] * (v[5] * v[10]), v[3] * (v[6] * v[9]));
    assert(v[12] * (v[1] * (v[6] * v[11])) == v[1] * (v[6] * (v[11] * v[12]))) by (nonlinear_arith);
    assert(v[12] * (v[1] * (v[7] * v[10])) == v[1] * (v[7] * (v[10] * v[12]))) by (nonlinear_arith);
    assert(v[12] * (v[2] * (v[5] * v[11])) == v[2] * (v[5] * (v[11] * v[12]))) by (nonlinear_arith);
    assert(v[12] * (v[2] * (v[7] * v[9])) == v[2] * (v[7] * (v[9] * v[12]))) by (nonlinear_arith);
    assert(v[12] * (v[3] * (v[5] * v[10])) == v[3] * (v[5] * (v[10] * v[12]))) by (nonlinear_arith);
    assert(v[12] * (v[3] * (v[6] * v[9])) == v[3] * (v[6] * (v[9] * v[12]))) by (nonlinear_arith);
    assert(ent4(v, 3, 0) * exact_cof4(v, 3, 0) == -(v[1] * (v[6] * (v[11] * v[12]))) + v[1] * (v[7] * (v[10] * v[12])) + v[2] * (v[5] * (v[11] * v[12])) - v[2] * (v[7] * (v[9] * v[12])) - v[3] * (v[5] * (v[10] * v[12])) + v[3] * (v[6] * (v[9] * v[12])));
    assert(exact_cof4(v, 3, 1) == v[0] * (v[6] * v[11] - v[7] * v[10]) - v[2] * (v[4] * v[11] - v[7] * v[8]) + v[3] * (v[4] * v[10] - v[6] * v[8]));
    lemma_distribute2(v[0], v[6] * v[11], v[7] * v[10]);
    lemma_distribute2(v[2], v[4] * v[11], v[7] * v[8]);
    lemma_distribute2(v[3], v[4] * v[10], v[6] * v[8]);
    assert(exact_cof4(v, 3, 1) == v[0] * (v[6] * v[11]) - v[0] * (v[7] * v[10]) - v[2] * (v[4] * v[11]) + v[2] * (v[7] * v[8]) + v[3] * (v[4] * v[10]) - v[3] * (v[6] * v[8]));
    lemma_expand_minor(v[13], v[0] * (v[6] * v[11]), v[0] * (v[7] * v[10]), v[2] * (v[4] * v[11]), v[2] * (v[7] * v[8]), v[3] * (v[4] * v[10]), v[3] * (v[6] * v[8]));
    assert(v[13] * (v[0] * (v[6] * v[11])) == v[0] * (v[6] * (v[11] * v[13]))) by (nonlinear_arith);
    assert(v[13] * (v[0] * (v[7] * v[10])) == v[0] * (v[7] * (v[10] * v[13]))) by (nonlinear_arith);
    assert(v[13] * (v[2] * (v[4] * v[11])) == v[2] * (v[4] * (v[11] * v[13]))) by (nonlinear_arith);
    assert(v[13] * (v[2] * (v[7] * v[8])) == v[2] * (v[7] * (v[8] * v[13]))) by (nonlinear_arith);
    assert(v[13] * (v[3] * (v[4] * v[10])) == v[3] * (v[4] * (v[10] * v[13]))) by (nonlinear_arith);
    assert(v[13] * (v[3] * (v[6] * v[8])) == v[3] * (v[6] * (v[8] * v[13]))) by (nonlinear_arith);
    assert(ent4(v, 3, 1) * exact_cof4(v, 3, 1) == v[0] * (v[6] * (v[11] * v[13])) - v[0] * (v[7] * (v[10] * v[13])) - v[2] * (v[4] * (v[11] * v[13])) + v[2] * (v[7] * (v[8] * v[13])) + v[3] * (v[4] * (v[10] * v[13])) - v[3] * (v[6] * (v[8] * v[13])));
    assert(exact_cof4(v, 3, 2) == -(v[0] * (v[5] * v[11] - v[7] * v[9]) - v[1] * (v[4] * v[11] - v[7] * v[8]) + v[3] * (v[4] * v[9] - v[5] * v[8])));
    lemma_distribute2(v[0], v[5] * v[11], v[7] * v[9]);
    lemma_distribute2(v[1], v[4] * v[11], v[7] * v[8]);
    lemma_distribute2(v[3], v[4] * v[9], v[5] * v[8]);
    assert(exact_cof4(v, 3, 2) == -(v[0] * (v[5] * v[11])) + v[0] * (v[7] * v[9]) + v[1] * (v[4] * v[11]) - v[1] * (v[7] * v[8]) - v[3] * (v[4] * v[9]) + v[3] * (v[5] * v[8]));
    lemma_expand_minor_neg(v[14], v[0] * (v[5] * v[11]), v[0] * (v[7] * v[9]), v[1] * (v[4] * v[11]), v[1] * (v[7] * v[8]), v[3] * (v[4] * v[9]), v[3] * (v[5] * v[8]));
    assert(v[14] * (v[0] * (v[5] * v[11])) == v[0] * (v[5] * (v[11] * v[14]))) by (nonlinear_arith);
    assert(v[14] * (v[0] * (v[7] * v[9])) == v[0] * (v[7] * (v[9] * v[14]))) by (nonlinear_arith);
    assert(v[14] * (v[1] * (v[4] * v[11])) == v[1] * (v[4] * (v[11] * v[14]))) by (nonlinear_arith);
    assert(v[14] * (v[1] * (v[7] * v[8])) == v[1] * (v[7] * (v[8] * v[14]))) by (nonlinear_arith);
    assert(v[14] * (v[3] * (v[4] * v[9])) == v[3] * (v[4] * (v[9] * v[14]))) by (nonlinear_arith);
    assert(v[14] * (v[3] * (v[5] * v[8])) == v[3] * (v[5] * (v[8] * v[14]))) by (nonlinear_arith);
    assert(ent4(v, 3, 2) * exact_cof4(v, 3, 2) == -(v[0] * (v[5] * (v[11] * v[14]))) + v[0] * (v[7] * (v[9] * v[14])) + v[1] * (v[4] * (v[11] * v[14])) - v[1] * (v[7] * (v[8] * v[14])) - v[3] * (v[4] * (v[9] * v[14])) + v[3] * (v[5] * (v[8] * v[14])));
    assert(exact_cof4(v, 3, 3) == v[0] * (v[5] * v[10] - v[6] * v[9]) - v[1] * (v[4] * v[10] - v[6] * v[8]) + v[2] * (v[4] * v[9] - v[5] * v[8]));
    lemma_distribute2(v[0], v[5] * v[10], v[6] * v[9]);
    lemma_distribute2(v[1], v[4] * v[10], v[6] * v[8]);
    lemma_distribute2(v[2], v[4] * v[9], v[5] * v[8]);
    assert(exact_cof4(v, 3, 3) == v[0] * (v[5] * v[10]) - v[0] * (v[6] * v[9]) - v[1] * (v[4] * v[10]) + v[1] * (v[6] * v[8]) + v[2] * (v[4] * v[9]) - v[2] * (v[5] * v[8]));
    lemma_expand_minor(v[15], v[0] * (v[5] * v[10]), v[0] * (v[6] * v[9]), v[1] * (v[4] * v[10]), v[1] * (v[6] * v[8]), v[2] * (v[4] * v[9]), v[2] * (v[5] * v[8]));
    assert(v[15] * (v[0] * (v[5] * v[10])) == v[0] * (v[5] * (v[10] * v[15]))) by (nonlinear_arith);
    assert(v[15] * (v[0] * (v[6] * v[9])) == v[0] * (v[6] * (v[9] * v[15]))) by (nonlinear_arith);
    assert(v[15] * (v[1] * (v[4] * v[10])) == v[1] * (v[4] * (v[10] * v[15]))) by (nonlinear_arith);
    assert(v[15] * (v[1] * (v[6] * v[8])) == v[1] * (v[6] * (v[8] * v[15]))) by (nonlinear_arith);
    assert(v[15] * (v[2] * (v[4] * v[9])) == v[2] * (v[4] * (v[9] * v[15]))) by (nonlinear_arith);
    assert(v[15] * (v[2] * (v[5] * v[8])) == v[2] * (v[5] * (v[8] * v[15]))) by (nonlinear_arith);
    assert(ent4(v, 3, 3) * exact_cof4(v, 3, 3) == v[0] * (v[5] * (v[10] * v[15])) - v[0] * (v[6] * (v[9] * v[15])) - v[1] * (v[4] * (v[10] * v[15])) + v[1] * (v[6] * (v[8] * v[15])) + v[2] * (v[4] * (v[9] * v[15])) - v[2] * (v[5] * (v[8] * v[15])));
    assert(exact_cof4(v, 0, 0) == v[5] * (v[10] * v[15] - v[11] * v[14]) - v[6] * (v[9] * v[15] - v[11] * v[13]) + v[7] * (v[9] * v[14] - v[10] * v[13]));
    lemma_distribute2(v[5], v[10] * v[15], v[11] * v[14]);
    lemma_distribute2(v[6], v[9] * v[15], v[11] * v[13]);
    lemma_distribute2(v[7], v[9] * v[14], v[10] * v[13]);
    assert(exact_cof4(v, 0, 0) == v[5] * (v[10] * v[15]) - v[5] * (v[11] * v[14]) - v[6] * (v[9] * v[15]) + v[6] * (v[11] * v[13]) + v[7] * (v[9] * v[14]) - v[7] * (v[10] * v[13]));
    lemma_expand_minor(v[0], v[5] * (v[10] * v[15]), v[5] * (v[11] * v[14]), v[6] * (v[9] * v[15]), v[6] * (v[11] * v[13]), v[7] * (v[9] * v[14]), v[7] * (v[10] * v[13]));
    assert(ent4(v, 0, 0) * exact_cof4(v, 0, 0) == v[0] * (v[5] * (v[10] * v[15])) - v[0] * (v[5] * (v[11] * v[14])) - v[0] * (v[6] * (v[9] * v[15])) + v[0] * (v[6] * (v[11] * v[13])) + v[0] * (v[7] * (v[9] * v[14])) - v[0] * (v[7] * (v[10] * v[13])));
    assert(exact_cof4(v, 0, 1) == -(v[4] * (v[10] * v[15] - v[11] * v[14]) - v[6] * (v[8] * v[15] - v[11] * v[12]) + v[7] * (v[8] * v[14] - v[10] * v[12])));
    lemma_distribute2(v[4], v[10] * v[15], v[11] * v[14]);
    lemma_distribute2(v[6], v[8] * v[15], v[11] * v[12]);
    lemma_distribute2(v[7], v[8] * v[14], v[10] * v[12]);
    assert(exact_cof4(v, 0, 1) == -(v[4] * (v[10] * v[15])) + v[4] * (v[11] * v[14]) + v[6] * (v[8] * v[15]) - v[6] * (v[11] * v[12]) - v[7] * (v[8] * v[14]) + v[7] * (v[10] * v[12]));
    lemma_expand_minor_neg(v[1], v[4] * (v[10] * v[15]), v[4] * (v[11] * v[14]), v[6] * (v[8] * v[15]), v[6] * (v[11] * v[12]), v[7] * (v[8] * v[14]), v[7] * (v[10] * v[12]));
    assert(ent4(v, 0, 1) * exact_cof4(v, 0, 1) == -(v[1] * (v[4] * (v[10] * v[15]))) + v[1] * (v[4] * (v[11] * v[14])) + v[1] * (v[6] * (v[8] * v[15])) - v[1] * (v[6] * (v[11] * v[12])) - v[1] * (v[7] * (v[8] * v[14])) + v[1] * (v[7] * (v[10] * v[12])));
    assert(exact_cof4(v, 0, 2) == v[4] * (v[9] * v[15] - v[11] * v[13]) - v[5] * (v[8] * v[15] - v[11] * v[12]) + v[7] * (v[8] * v[13] - v[9] * v[12]));
    lemma_distribute2(v[4], v[9] * v[15], v[11] * v[13]);
    lemma_distribute2(v[5], v[8] * v[15], v[11] * v[12]);
    lemma_distribute2(v[7], v[8] * v[13], v[9] * v[12]);
    assert(exact_cof4(v, 0, 2) == v[4] * (v[9] * v[15]) - v[4] * (v[11] * v[13]) - v[5] * (v[8] * v[15]) + v[5] * (v[11] * v[12]) + v[7] * (v[8] * v[13]) - v[7] * (v[9] * v[12]));
    lemma_expand_minor(v[2], v[4] * (v[9] * v[15]), v[4] * (v[11] * v[13]), v[5] * (v[8] * v[15]), v[5] * (v[11] * v[12]), v[7] * (v[8] * v[13]), v[7] * (v[9] * v[12]));
    assert(ent4(v, 0, 2) * exact_cof4(v, 0, 2) == v[2] * (v[4] * (v[9] * v[15])) - v[2] * (v[4] * (v[11] * v[13])) - v[2] * (v[5] * (v[8] * v[15])) + v[2] * (v[5] * (v[11] * v[12])) + v[2] * (v[7] * (v[8] * v[13])) - v[2] * (v[7] * (v[9] * v[12])));
    assert(exact_cof4(v, 0, 3) == -(v[4] * (v[9] * v[14] - v[10] * v[13]) - v[5] * (v[8] * v[14] - v[10] * v[12]) + v[6] * (v[8] * v[13] - v[9] * v[12])));
    lemma_distribute2(v[4], v[9] * v[14], v[10] * v[13]);
    lemma_distribute2(v[5], v[8] * v[14], v[10] * v[12]);
    lemma_distribute2(v[6], v[8] * v[13], v[9] * v[12]);
    assert(exact_cof4(v, 0, 3) == -(v[4] * (v[9] * v[14])) + v[4] * (v[10] * v[13]) + v[5] * (v[8] * v[14]) - v[5] * (v[10] * v[12]) - v[6] * (v[8] * v[13]) + v[6] * (v[9] * v[12]));
    lemma_expand_minor_neg(v[3], v[4] * (v[9] * v[14]), v[4] * (v[10] * v[13]), v[5] * (v[8] * v[14]), v[5] * (v[10] * v[12]), v[6] * (v[8] * v[13]), v[6] * (v[9] * v[12]));
    assert(ent4(v, 0, 3) * exact_cof4(v, 0, 3) == -(v[3] * (v[4] * (v[9] * v[14]))) + v[3] * (v[4] * (v[10] * v[13])) + v[3] * (v[5] * (v[8] * v[14])) - v[3] * (v[5] * (v[10] * v[12])) - v[3] * (v[6] * (v[8] * v[13])) + v[3] * (v[6] * (v[9] * v[12])));
}


} // verus!
