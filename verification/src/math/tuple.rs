//! Homogeneous 4-component tuples: points (`w = 1`) and free vectors
//! (`w = 0`), with component-wise arithmetic, magnitude, normalization and
//! the vector-only dot and cross products.

use super::scalar::FLOAT_EQ_EPS;
use super::scalar::SCALE;
use super::scalar::Scalar;
use super::scalar::bounded_raw;
use super::scalar::close_enough;
use super::scalar::div_spec;
use super::scalar::in_i64;
use super::scalar::is_round_sqrt;
use super::scalar::isqrt_round;
use super::scalar::lemma_bounded_product;
use super::scalar::lemma_normalize_fits;
use super::scalar::lemma_round_div_err;
use super::scalar::lemma_round_sqrt_unique;
use super::scalar::lemma_sqrt_dominates;
use super::scalar::mul_spec;
use super::scalar::round_div;
use super::scalar::round_div_i128;
use super::scalar::round_sqrt;
use vstd::prelude::*;

verus! {

/// A homogeneous coordinate: a point when `w` is 1, a free vector when `w`
/// is 0.
#[derive(Clone, Copy, Debug)]
pub struct Tuple4D {
    pub x: Scalar,
    pub y: Scalar,
    pub z: Scalar,
    pub w: Scalar,
}

/// The raw `w` lies within tolerance of 0: the tuple counts as a vector.
pub open spec fn vector_spec(t: Tuple4D) -> bool {
    close_enough(t.w.raw as int, 0, FLOAT_EQ_EPS as int)
}

/// All four raw components under the compound-operation cap.
pub open spec fn tup_bounded(t: Tuple4D) -> bool {
    &&& bounded_raw(t.x.raw as int)
    &&& bounded_raw(t.y.raw as int)
    &&& bounded_raw(t.z.raw as int)
    &&& bounded_raw(t.w.raw as int)
}

/// Sum of the squared raw components: the squared magnitude, at raw-squared
/// scale.
pub open spec fn mag_sq_spec(t: Tuple4D) -> int {
    t.x.raw * t.x.raw + t.y.raw * t.y.raw + t.z.raw * t.z.raw + t.w.raw * t.w.raw
}

/// Raw value of the 3-component dot product (`w` never enters the sum).
pub open spec fn dot_spec(a: Tuple4D, b: Tuple4D) -> int {
    round_div(a.x.raw * b.x.raw + a.y.raw * b.y.raw + a.z.raw * b.z.raw, SCALE as int)
}

impl Tuple4D {
    /// The point `(x, y, z)`: `w` is exactly 1.
    pub fn new_point(x: Scalar, y: Scalar, z: Scalar) -> (r: Tuple4D)
        ensures
            r.x == x,
            r.y == y,
            r.z == z,
            r.w.raw == SCALE,
    {
        Tuple4D { x, y, z, w: Scalar { raw: SCALE } }
    }

    /// The free vector `(x, y, z)`: `w` is exactly 0.
    pub fn new_vector(x: Scalar, y: Scalar, z: Scalar) -> (r: Tuple4D)
        ensures
            r.x == x,
            r.y == y,
            r.z == z,
            r.w.raw == 0,
    {
        Tuple4D { x, y, z, w: Scalar { raw: 0 } }
    }

    /// Whether `w` lies within tolerance of 0.
    pub fn is_vector(self) -> (r: bool)
        ensures
            r == vector_spec(self),
    {
        let d: i128 = self.w.raw as i128;
        let e: i128 = FLOAT_EQ_EPS as i128;
        d < e && -d < e
    }

    /// Whether `w` lies within tolerance of 1.
    pub fn is_point(self) -> (r: bool)
        ensures
            r == close_enough(self.w.raw as int, SCALE as int, FLOAT_EQ_EPS as int),
    {
        let d: i128 = self.w.raw as i128 - SCALE as i128;
        let e: i128 = FLOAT_EQ_EPS as i128;
        d < e && -d < e
    }

    /// The Euclidean norm over all four components, rounded to the nearest
    /// representable scalar.
    pub fn magnitude(self) -> (r: Scalar)
        requires
            tup_bounded(self),
        ensures
            r.raw >= 0,
            is_round_sqrt(mag_sq_spec(self), r.raw as int),
            r.raw == round_sqrt(mag_sq_spec(self)),
    {
        proof {
            lemma_bounded_product(self.x.raw as int, self.x.raw as int);
            lemma_bounded_product(self.y.raw as int, self.y.raw as int);
            lemma_bounded_product(self.z.raw as int, self.z.raw as int);
            lemma_bounded_product(self.w.raw as int, self.w.raw as int);
            assert(self.x.raw as i128 * self.x.raw as i128 >= 0) by (nonlinear_arith);
            assert(self.y.raw as i128 * self.y.raw as i128 >= 0) by (nonlinear_arith);
            assert(self.z.raw as i128 * self.z.raw as i128 >= 0) by (nonlinear_arith);
            assert(self.w.raw as i128 * self.w.raw as i128 >= 0) by (nonlinear_arith);
        }
        let m: i128 = self.x.raw as i128 * self.x.raw as i128 + self.y.raw as i128
            * self.y.raw as i128 + self.z.raw as i128 * self.z.raw as i128 + self.w.raw as i128
            * self.w.raw as i128;
        let r = isqrt_round(m);
        proof {
            lemma_round_sqrt_unique(
                m as int,
                r as int,
                choose|q: int| is_round_sqrt(m as int, q),
            );
        }
        Scalar { raw: r as i64 }
    }

    /// The tuple scaled to unit magnitude: each component divided by the
    /// magnitude. A tuple of zero magnitude has no direction and is ruled
    /// out.
    pub fn normalize(self) -> (r: Tuple4D)
        requires
            tup_bounded(self),
            mag_sq_spec(self) != 0,
        ensures
            r.x.raw == div_spec(self.x.raw as int, round_sqrt(mag_sq_spec(self))),
            r.y.raw == div_spec(self.y.raw as int, round_sqrt(mag_sq_spec(self))),
            r.z.raw == div_spec(self.z.raw as int, round_sqrt(mag_sq_spec(self))),
            r.w.raw == div_spec(self.w.raw as int, round_sqrt(mag_sq_spec(self))),
    {
        let mag = self.magnitude();
        proof {
            let m = mag_sq_spec(self);
            let r = mag.raw as int;
            assert(m > 0) by (nonlinear_arith)
                requires
                    m == mag_sq_spec(self),
                    m != 0,
                    m == self.x.raw * self.x.raw + self.y.raw * self.y.raw + self.z.raw
                        * self.z.raw + self.w.raw * self.w.raw,
            ;
            assert(self.x.raw * self.x.raw >= 0) by (nonlinear_arith);
            assert(self.y.raw * self.y.raw >= 0) by (nonlinear_arith);
            assert(self.z.raw * self.z.raw >= 0) by (nonlinear_arith);
            assert(self.w.raw * self.w.raw >= 0) by (nonlinear_arith);
            if r == 0 {
                assert(4 * m <= 1) by (nonlinear_arith)
                    requires
                        r == 0,
                        4 * m <= (2 * r + 1) * (2 * r + 1),
                ;
                assert(false);
            }
            lemma_sqrt_dominates(m, r, self.x.raw as int);
            lemma_sqrt_dominates(m, r, self.y.raw as int);
            lemma_sqrt_dominates(m, r, self.z.raw as int);
            lemma_sqrt_dominates(m, r, self.w.raw as int);
            lemma_normalize_fits(self.x.raw as int, r);
            lemma_normalize_fits(self.y.raw as int, r);
            lemma_normalize_fits(self.z.raw as int, r);
            lemma_normalize_fits(self.w.raw as int, r);
        }
        Tuple4D {
            x: self.x.div(mag),
            y: self.y.div(mag),
            z: self.z.div(mag),
            w: self.w.div(mag),
        }
    }

    /// The 3-component dot product of two vectors. Calling it on a point is
    /// a caller bug, ruled out by contract.
    pub fn dot(self, other: Self) -> (r: Scalar)
        requires
            vector_spec(self),
            vector_spec(other),
            tup_bounded(self),
            tup_bounded(other),
            in_i64(dot_spec(self, other)),
        ensures
            r.raw == dot_spec(self, other),
    {
        proof {
            lemma_bounded_product(self.x.raw as int, other.x.raw as int);
            lemma_bounded_product(self.y.raw as int, other.y.raw as int);
            lemma_bounded_product(self.z.raw as int, other.z.raw as int);
        }
        let n: i128 = self.x.raw as i128 * other.x.raw as i128 + self.y.raw as i128
            * other.y.raw as i128 + self.z.raw as i128 * other.z.raw as i128;
        let q = round_div_i128(n, SCALE as i128);
        Scalar { raw: q as i64 }
    }

    /// The 3-component cross product of two vectors, as a new vector.
    /// Calling it on a point is a caller bug, ruled out by contract.
    pub fn cross(self, other: Self) -> (r: Tuple4D)
        requires
            vector_spec(self),
            vector_spec(other),
            tup_bounded(self),
            tup_bounded(other),
            in_i64(mul_spec(self.y.raw as int, other.z.raw as int) - mul_spec(
                self.z.raw as int,
                other.y.raw as int,
            )),
            in_i64(mul_spec(self.z.raw as int, other.x.raw as int) - mul_spec(
                self.x.raw as int,
                other.z.raw as int,
            )),
            in_i64(mul_spec(self.x.raw as int, other.y.raw as int) - mul_spec(
                self.y.raw as int,
                other.x.raw as int,
            )),
        ensures
            r.x.raw == mul_spec(self.y.raw as int, other.z.raw as int) - mul_spec(
                self.z.raw as int,
                other.y.raw as int,
            ),
            r.y.raw == mul_spec(self.z.raw as int, other.x.raw as int) - mul_spec(
                self.x.raw as int,
                other.z.raw as int,
            ),
            r.z.raw == mul_spec(self.x.raw as int, other.y.raw as int) - mul_spec(
                self.y.raw as int,
                other.x.raw as int,
            ),
            r.w.raw == 0,
    {
        let cx = cross_component(self.y, other.z, self.z, other.y);
        let cy = cross_component(self.z, other.x, self.x, other.z);
        let cz = cross_component(self.x, other.y, self.y, other.x);
        Tuple4D::new_vector(cx, cy, cz)
    }

    /// Component-wise sum, `w` included.
    pub fn add(self, other: Self) -> (r: Tuple4D)
        requires
            in_i64(self.x.raw + other.x.raw),
            in_i64(self.y.raw + other.y.raw),
            in_i64(self.z.raw + other.z.raw),
            in_i64(self.w.raw + other.w.raw),
        ensures
            r.x.raw == self.x.raw + other.x.raw,
            r.y.raw == self.y.raw + other.y.raw,
            r.z.raw == self.z.raw + other.z.raw,
            r.w.raw == self.w.raw + other.w.raw,
    {
        Tuple4D {
            x: self.x.add(other.x),
            y: self.y.add(other.y),
            z: self.z.add(other.z),
            w: self.w.add(other.w),
        }
    }

    /// Component-wise difference, `w` included.
    pub fn sub(self, other: Self) -> (r: Tuple4D)
        requires
            in_i64(self.x.raw - other.x.raw),
            in_i64(self.y.raw - other.y.raw),
            in_i64(self.z.raw - other.z.raw),
            in_i64(self.w.raw - other.w.raw),
        ensures
            r.x.raw == self.x.raw - other.x.raw,
            r.y.raw == self.y.raw - other.y.raw,
            r.z.raw == self.z.raw - other.z.raw,
            r.w.raw == self.w.raw - other.w.raw,
    {
        Tuple4D {
            x: self.x.sub(other.x),
            y: self.y.sub(other.y),
            z: self.z.sub(other.z),
            w: self.w.sub(other.w),
        }
    }

    /// Component-wise negation, `w` included.
    pub fn neg(self) -> (r: Tuple4D)
        requires
            in_i64(-self.x.raw),
            in_i64(-self.y.raw),
            in_i64(-self.z.raw),
            in_i64(-self.w.raw),
        ensures
            r.x.raw == -self.x.raw,
            r.y.raw == -self.y.raw,
            r.z.raw == -self.z.raw,
            r.w.raw == -self.w.raw,
    {
        Tuple4D { x: self.x.neg(), y: self.y.neg(), z: self.z.neg(), w: self.w.neg() }
    }

    /// Component-wise scaling, `w` included.
    pub fn mul(self, rhs: Scalar) -> (r: Tuple4D)
        requires
            in_i64(mul_spec(self.x.raw as int, rhs.raw as int)),
            in_i64(mul_spec(self.y.raw as int, rhs.raw as int)),
            in_i64(mul_spec(self.z.raw as int, rhs.raw as int)),
            in_i64(mul_spec(self.w.raw as int, rhs.raw as int)),
        ensures
            r.x.raw == mul_spec(self.x.raw as int, rhs.raw as int),
            r.y.raw == mul_spec(self.y.raw as int, rhs.raw as int),
            r.z.raw == mul_spec(self.z.raw as int, rhs.raw as int),
            r.w.raw == mul_spec(self.w.raw as int, rhs.raw as int),
    {
        Tuple4D {
            x: self.x.mul(rhs),
            y: self.y.mul(rhs),
            z: self.z.mul(rhs),
            w: self.w.mul(rhs),
        }
    }

    /// Component-wise division by a non-zero scalar, `w` included.
    pub fn div(self, rhs: Scalar) -> (r: Tuple4D)
        requires
            rhs.raw != 0,
            in_i64(div_spec(self.x.raw as int, rhs.raw as int)),
            in_i64(div_spec(self.y.raw as int, rhs.raw as int)),
            in_i64(div_spec(self.z.raw as int, rhs.raw as int)),
            in_i64(div_spec(self.w.raw as int, rhs.raw as int)),
        ensures
            r.x.raw == div_spec(self.x.raw as int, rhs.raw as int),
            r.y.raw == div_spec(self.y.raw as int, rhs.raw as int),
            r.z.raw == div_spec(self.z.raw as int, rhs.raw as int),
            r.w.raw == div_spec(self.w.raw as int, rhs.raw as int),
    {
        Tuple4D {
            x: self.x.div(rhs),
            y: self.y.div(rhs),
            z: self.z.div(rhs),
            w: self.w.div(rhs),
        }
    }
}

/// One component of a cross product: `a * b - c * d`, rounded once per
/// product as the scalar multiplication is.
fn cross_component(a: Scalar, b: Scalar, c: Scalar, d: Scalar) -> (r: Scalar)
    requires
        bounded_raw(a.raw as int),
        bounded_raw(b.raw as int),
        bounded_raw(c.raw as int),
        bounded_raw(d.raw as int),
        in_i64(mul_spec(a.raw as int, b.raw as int) - mul_spec(c.raw as int, d.raw as int)),
    ensures
        r.raw == mul_spec(a.raw as int, b.raw as int) - mul_spec(c.raw as int, d.raw as int),
{
    proof {
        lemma_bounded_product(a.raw as int, b.raw as int);
        lemma_bounded_product(c.raw as int, d.raw as int);
    }
    let p1 = round_div_i128(a.raw as i128 * b.raw as i128, SCALE as i128);
    let p2 = round_div_i128(c.raw as i128 * d.raw as i128, SCALE as i128);
    proof {
        super::scalar::lemma_round_div_bound(a.raw as int * b.raw as int, SCALE as int);
        super::scalar::lemma_round_div_bound(c.raw as int * d.raw as int, SCALE as int);
    }
    Scalar { raw: (p1 - p2) as i64 }
}

proof fn lemma_sq_of_sum(a: int, b: int)
    ensures
        (a + b) * (a + b) == a * a + 2 * (a * b) + b * b,
{
    assert((a + b) * (a + b) == a * a + 2 * (a * b) + b * b) by (nonlinear_arith);
}

proof fn lemma_sq_of_product(a: int, b: int)
    ensures
        (a * b) * (a * b) == (a * a) * (b * b),
{
    assert((a * b) * (a * b) == (a * a) * (b * b)) by (nonlinear_arith);
}

proof fn lemma_product_bound(x: int, e: int, r: int)
    requires
        -r <= x <= r,
        -r <= e <= r,
    ensures
        -(r * r) <= x * e <= r * r,
{
    assert(-(r * r) <= x * e <= r * r) by (nonlinear_arith)
        requires
            -r <= x <= r,
            -r <= e <= r,
    ;
}

/// One component's contribution to the squared magnitude of a normalized
/// tuple: `(c*r)^2` expands around `(x*S)^2` with an error controlled by
/// the rounded division.
proof fn lemma_normalize_component(x: int, c: int, r: int)
    requires
        r >= 1,
        -r <= x <= r,
        c == div_spec(x, r),
    ensures
        (c * c) * (r * r) == (x * x) * (SCALE as int * SCALE as int) + (2 * (x * (c * r - x
            * SCALE))) * SCALE + (c * r - x * SCALE) * (c * r - x * SCALE),
        0 <= (c * r - x * SCALE) * (c * r - x * SCALE),
        -(r * r) <= 2 * (x * (c * r - x * SCALE)) <= r * r,
        4 * ((c * r - x * SCALE) * (c * r - x * SCALE)) <= r * r,
{
    let s = SCALE as int;
    lemma_round_div_err(x * s, r);
    let e = c * r - x * s;
    assert(-r <= 2 * e <= r);
    lemma_sq_of_product(c, r);
    lemma_sq_of_sum(x * s, e);
    assert((c * r) * (c * r) == (x * s + e) * (x * s + e));
    lemma_sq_of_product(x, s);
    assert((x * s) * e == (x * e) * s) by (nonlinear_arith);
    assert(x * (2 * e) == 2 * (x * e)) by (nonlinear_arith);
    lemma_product_bound(x, 2 * e, r);
    assert(2 * ((x * s) * e) == (2 * (x * e)) * s) by (nonlinear_arith);
    assert(2 * (x * e) == 2 * (x * (c * r - x * s)));
    assert(4 * (e * e) == (2 * e) * (2 * e)) by (nonlinear_arith);
    assert(0 <= e * e) by (nonlinear_arith);
    assert((2 * e) * (2 * e) <= r * r) by (nonlinear_arith)
        requires
            -r <= 2 * e <= r,
    ;
}

/// Law: normalizing scales the magnitude to one, within tolerance, for
/// every tuple whose magnitude is at least 10^-7 (a tuple that small
/// rounds too coarsely for its direction to survive). `r` is what
/// `magnitude` returns on the tuple, `n` what `normalize` returns, and
/// `rr` what `magnitude` returns on `n`, each pinned by those contracts.
pub proof fn lemma_normalize_unit_magnitude(t: Tuple4D, r: int, n: Tuple4D, rr: int)
    requires
        tup_bounded(t),
        mag_sq_spec(t) >= 10_000_000_000,
        is_round_sqrt(mag_sq_spec(t), r),
        n.x.raw == div_spec(t.x.raw as int, r),
        n.y.raw == div_spec(t.y.raw as int, r),
        n.z.raw == div_spec(t.z.raw as int, r),
        n.w.raw == div_spec(t.w.raw as int, r),
        is_round_sqrt(mag_sq_spec(n), rr),
    ensures
        close_enough(rr, SCALE as int, FLOAT_EQ_EPS as int),
{
    let s = SCALE as int;
    let m = mag_sq_spec(t);
    let m2 = mag_sq_spec(n);
    let x0 = t.x.raw as int;
    let x1 = t.y.raw as int;
    let x2 = t.z.raw as int;
    let x3 = t.w.raw as int;
    let c0 = n.x.raw as int;
    let c1 = n.y.raw as int;
    let c2 = n.z.raw as int;
    let c3 = n.w.raw as int;
    assert(r >= 100000) by (nonlinear_arith)
        requires
            4 * m <= (2 * r + 1) * (2 * r + 1),
            m >= 10_000_000_000,
            r >= 0,
    ;
    assert(x0 * x0 >= 0) by (nonlinear_arith);
    assert(x1 * x1 >= 0) by (nonlinear_arith);
    assert(x2 * x2 >= 0) by (nonlinear_arith);
    assert(x3 * x3 >= 0) by (nonlinear_arith);
    lemma_sqrt_dominates(m, r, x0);
    lemma_sqrt_dominates(m, r, x1);
    lemma_sqrt_dominates(m, r, x2);
    lemma_sqrt_dominates(m, r, x3);
    lemma_normalize_component(x0, c0, r);
    lemma_normalize_component(x1, c1, r);
    lemma_normalize_component(x2, c2, r);
    lemma_normalize_component(x3, c3, r);
    let rsq = r * r;
    let ssq = s * s;
    // the squared magnitude of the normalized tuple, scaled by r^2
    super::scalar::lemma_distribute_sum4(rsq, c0 * c0, c1 * c1, c2 * c2, c3 * c3);
    assert(rsq * (c0 * c0) == (c0 * c0) * rsq) by (nonlinear_arith);
    assert(rsq * (c1 * c1) == (c1 * c1) * rsq) by (nonlinear_arith);
    assert(rsq * (c2 * c2) == (c2 * c2) * rsq) by (nonlinear_arith);
    assert(rsq * (c3 * c3) == (c3 * c3) * rsq) by (nonlinear_arith);
    let e0 = c0 * r - x0 * s;
    let e1 = c1 * r - x1 * s;
    let e2 = c2 * r - x2 * s;
    let e3 = c3 * r - x3 * s;
    let exs = 2 * (x0 * e0) + 2 * (x1 * e1) + 2 * (x2 * e2) + 2 * (x3 * e3);
    let esq = e0 * e0 + e1 * e1 + e2 * e2 + e3 * e3;
    super::scalar::lemma_factor_add4(x0 * x0, x1 * x1, x2 * x2, x3 * x3, ssq);
    super::scalar::lemma_factor_add4(2 * (x0 * e0), 2 * (x1 * e1), 2 * (x2 * e2), 2 * (x3 * e3), s);
    assert(rsq * m2 == m * ssq + exs * s + esq);
    assert(-(4 * rsq) <= exs <= 4 * rsq);
    assert(4 * esq <= 4 * rsq && 0 <= 4 * esq);
    // sandwich m against r^2
    assert((2 * r - 1) * (2 * r - 1) == 4 * rsq - 4 * r + 1) by (nonlinear_arith)
        requires
            rsq == r * r,
    ;
    assert((2 * r + 1) * (2 * r + 1) == 4 * rsq + 4 * r + 1) by (nonlinear_arith)
        requires
            rsq == r * r,
    ;
    assert(4 * rsq - 4 * r + 1 <= 4 * m <= 4 * rsq + 4 * r + 1);
    // both bounds on 4 * m2, scaled by r^2
    assert(4 * (rsq * m2) == (4 * m) * ssq + 4 * (exs * s) + 4 * esq) by (nonlinear_arith)
        requires
            rsq * m2 == m * ssq + exs * s + esq,
    ;
    assert(4 * (exs * s) == (4 * exs) * s) by (nonlinear_arith);
    assert(rsq >= 100000 * r) by (nonlinear_arith)
        requires
            rsq == r * r,
            r >= 100000,
    ;
    let lo = (2 * (s - 6_000_000) - 1) * (2 * (s - 6_000_000) - 1);
    let hi = (2 * (s + 6_000_000) + 1) * (2 * (s + 6_000_000) + 1);
    assert((4 * m) * ssq <= (4 * rsq + 4 * r + 1) * ssq) by (nonlinear_arith)
        requires
            4 * m <= 4 * rsq + 4 * r + 1,
            ssq >= 0,
    ;
    assert((4 * rsq - 4 * r + 1) * ssq <= (4 * m) * ssq) by (nonlinear_arith)
        requires
            4 * rsq - 4 * r + 1 <= 4 * m,
            ssq >= 0,
    ;
    assert((4 * exs) * s <= (16 * rsq) * s && -((16 * rsq) * s) <= (4 * exs) * s)
        by (nonlinear_arith)
        requires
            -(16 * rsq) <= 4 * exs <= 16 * rsq,
            s >= 0,
    ;
    assert(0 <= 4 * esq <= 4 * rsq);
    assert(4 * (rsq * m2) <= (4 * rsq + 4 * r + 1) * ssq + (16 * rsq) * s + 4 * rsq);
    assert((4 * rsq - 4 * r + 1) * ssq - (16 * rsq) * s <= 4 * (rsq * m2));
    // turn the symbolic scale into its numeral and finish linearly
    assert(ssq == 1000000000000000000000000 && s == 1000000000000) by (nonlinear_arith)
        requires
            s == 1000000000000,
            ssq == s * s,
    ;
    assert((4 * rsq + 4 * r + 1) * ssq == 4000000000000000000000000 * rsq
        + 4000000000000000000000000 * r + 1000000000000000000000000) by (nonlinear_arith)
        requires
            ssq == 1000000000000000000000000,
    ;
    assert((4 * rsq - 4 * r + 1) * ssq == 4000000000000000000000000 * rsq
        - 4000000000000000000000000 * r + 1000000000000000000000000) by (nonlinear_arith)
        requires
            ssq == 1000000000000000000000000,
    ;
    assert((16 * rsq) * s == 16000000000000 * rsq) by (nonlinear_arith)
        requires
            s == 1000000000000,
    ;
    assert(hi == 4000048000148000024000001) by (nonlinear_arith)
        requires
            s == 1000000000000,
            hi == (2 * (s + 6_000_000) + 1) * (2 * (s + 6_000_000) + 1),
    ;
    assert(lo == 3999952000140000024000001) by (nonlinear_arith)
        requires
            s == 1000000000000,
            lo == (2 * (s - 6_000_000) - 1) * (2 * (s - 6_000_000) - 1),
    ;
    assert(48000132000023999997 * rsq >= 48000132000023999997 * (100000 * r));
    assert(47999843999975999999 * rsq >= 47999843999975999999 * (100000 * r));
    assert(hi * rsq == 4000048000148000024000001 * rsq) by (nonlinear_arith)
        requires
            hi == 4000048000148000024000001,
    ;
    assert(lo * rsq == 3999952000140000024000001 * rsq) by (nonlinear_arith)
        requires
            lo == 3999952000140000024000001,
    ;
    assert(4 * (rsq * m2) < hi * rsq && lo * rsq < 4 * (rsq * m2));
    assert(4 * m2 < hi) by (nonlinear_arith)
        requires
            4 * (rsq * m2) < hi * rsq,
            rsq >= 1,
    ;
    assert(lo < 4 * m2) by (nonlinear_arith)
        requires
            lo * rsq < 4 * (rsq * m2),
            rsq >= 1,
    ;
    // the rounded square root of m2 therefore lies within the tolerance
    if rr >= s + 6_000_001 {
        assert((2 * rr - 1) * (2 * rr - 1) >= hi) by (nonlinear_arith)
            requires
                2 * rr - 1 >= 2 * (s + 6_000_000) + 1,
                2 * (s + 6_000_000) + 1 >= 0,
                hi == (2 * (s + 6_000_000) + 1) * (2 * (s + 6_000_000) + 1),
        ;
        assert(false);
    }
    if rr <= s - 6_000_001 {
        assert((2 * rr + 1) * (2 * rr + 1) <= lo) by (nonlinear_arith)
            requires
                0 <= 2 * rr + 1,
                2 * rr + 1 <= 2 * (s - 6_000_000) - 1,
                lo == (2 * (s - 6_000_000) - 1) * (2 * (s - 6_000_000) - 1),
        ;
        assert(false);
    }
}

impl PartialEq for Tuple4D {
    /// Component-wise tolerance equality.
    fn eq(&self, other: &Self) -> (r: bool) {
        let e: i128 = FLOAT_EQ_EPS as i128;
        let dx: i128 = self.x.raw as i128 - other.x.raw as i128;
        let dy: i128 = self.y.raw as i128 - other.y.raw as i128;
        let dz: i128 = self.z.raw as i128 - other.z.raw as i128;
        let dw: i128 = self.w.raw as i128 - other.w.raw as i128;
        dx < e && -dx < e && dy < e && -dy < e && dz < e && -dz < e && dw < e && -dw < e
    }
}

impl vstd::std_specs::cmp::PartialEqSpecImpl for Tuple4D {
    open spec fn obeys_eq_spec() -> bool {
        true
    }

    open spec fn eq_spec(&self, other: &Tuple4D) -> bool {
        &&& close_enough(self.x.raw as int, other.x.raw as int, FLOAT_EQ_EPS as int)
        &&& close_enough(self.y.raw as int, other.y.raw as int, FLOAT_EQ_EPS as int)
        &&& close_enough(self.z.raw as int, other.z.raw as int, FLOAT_EQ_EPS as int)
        &&& close_enough(self.w.raw as int, other.w.raw as int, FLOAT_EQ_EPS as int)
    }
}

} // verus!
