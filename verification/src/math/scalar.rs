//! The fixed-point scalar that carries every quantity in the kernel.
//!
//! A [`Scalar`] stores an `i64` count of units of 10^-12 (`SCALE` raw units
//! make 1.0). Addition and subtraction are exact; a product or a quotient is
//! rounded to the nearest representable value, halves away from zero, and
//! every operation states the raw value of its result exactly.

use vstd::arithmetic::div_mod::lemma_div_by_multiple;
use vstd::arithmetic::div_mod::lemma_div_is_ordered;
use vstd::arithmetic::div_mod::lemma_div_multiples_vanish;
use vstd::arithmetic::div_mod::lemma_fundamental_div_mod;
use vstd::arithmetic::div_mod::lemma_mod_multiples_basic;
use vstd::prelude::*;

verus! {

/// Raw units in 1.0: raw values count units of 10^-12.
pub const SCALE: i64 = 1_000_000_000_000;

/// Default comparison tolerance in raw units: 10^-5.
pub const FLOAT_EQ_EPS: i64 = 10_000_000;

/// Magnitude cap on the raw values fed to the compound operations (dot and
/// cross products, matrix products, determinants): one million in scalar
/// terms, so that sums of double products stay far inside `i128`.
pub const RAW_LIMIT: i64 = 1_000_000_000_000_000_000;

/// An exact fixed-point scalar: the value `raw / SCALE`.
#[derive(Clone, Copy, Debug)]
pub struct Scalar {
    pub raw: i64,
}

pub open spec fn in_i64(x: int) -> bool {
    i64::MIN <= x <= i64::MAX
}

/// Two scalar raw values count as equal when they lie strictly closer than
/// `eps` raw units to one another.
pub open spec fn close_enough(a: int, b: int, eps: int) -> bool {
    a - b < eps && b - a < eps
}

/// The product of two raw values under the compound-operation cap stays far
/// inside `i128`.
pub(crate) proof fn lemma_bounded_product(a: int, b: int)
    requires
        bounded_raw(a),
        bounded_raw(b),
    ensures
        -1000000000000000000000000000000000000 <= a * b <= 1000000000000000000000000000000000000,
{
    assert(-1000000000000000000000000000000000000 <= a * b
        <= 1000000000000000000000000000000000000) by (nonlinear_arith)
        requires
            -1000000000000000000 <= a <= 1000000000000000000,
            -1000000000000000000 <= b <= 1000000000000000000,
    ;
}

/// The product of a capped raw value and any `i64` stays far inside `i128`.
pub(crate) proof fn lemma_bounded_times_i64(a: int, b: int)
    requires
        bounded_raw(a),
        in_i64(b),
    ensures
        -10000000000000000000000000000000000000 <= a * b
            <= 10000000000000000000000000000000000000,
{
    assert(-10000000000000000000000000000000000000 <= a * b
        <= 10000000000000000000000000000000000000) by (nonlinear_arith)
        requires
            -1000000000000000000 <= a <= 1000000000000000000,
            -0x8000_0000_0000_0000 <= b <= 0x7fff_ffff_ffff_ffff,
    ;
}

pub open spec fn bounded_raw(x: int) -> bool {
    -(RAW_LIMIT as int) <= x <= RAW_LIMIT as int
}

/// `n / d` for positive `d`, rounded to the nearest integer with halves away
/// from zero.
pub open spec fn round_div(n: int, d: int) -> int
    recommends
        d > 0,
{
    if n >= 0 {
        n / d + (if 2 * (n % d) >= d { 1int } else { 0int })
    } else {
        -((-n) / d + (if 2 * ((-n) % d) >= d { 1int } else { 0int }))
    }
}

/// Raw value of the product of two scalars given by raw values.
pub open spec fn mul_spec(a: int, b: int) -> int {
    round_div(a * b, SCALE as int)
}

/// Raw value of the quotient of two scalars given by raw values (`b != 0`).
pub open spec fn div_spec(a: int, b: int) -> int
    recommends
        b != 0,
{
    if b > 0 {
        round_div(a * SCALE, b)
    } else {
        round_div(-(a * SCALE), -b)
    }
}

/// `r` is the square root of `m`, rounded to the nearest integer. No integer
/// `4 * m` equals an odd square, so the bounds pin `r` down uniquely.
pub open spec fn is_round_sqrt(m: int, r: int) -> bool {
    &&& 0 <= r
    &&& r > 0 ==> (2 * r - 1) * (2 * r - 1) <= 4 * m
    &&& 4 * m <= (2 * r + 1) * (2 * r + 1)
}

pub(crate) proof fn lemma_i64_product_fits(a: int, b: int)
    requires
        i64::MIN <= a <= i64::MAX,
        i64::MIN <= b <= i64::MAX,
    ensures
        i128::MIN < a * b <= i128::MAX,
{
    assert(i128::MIN < a * b <= i128::MAX) by (nonlinear_arith)
        requires
            -0x8000_0000_0000_0000 <= a <= 0x7fff_ffff_ffff_ffff,
            -0x8000_0000_0000_0000 <= b <= 0x7fff_ffff_ffff_ffff,
    ;
}

/// A quotient whose dividend is an exact multiple of the divisor rounds to
/// that multiple: `round_div(x * d, d) == x`.
pub proof fn lemma_round_div_exact(x: int, d: int)
    requires
        d > 0,
    ensures
        round_div(x * d, d) == x,
{
    if x >= 0 {
        assert(x * d >= 0) by (nonlinear_arith)
            requires
                x >= 0,
                d > 0,
        ;
        lemma_div_by_multiple(x, d);
        lemma_mod_multiples_basic(x, d);
    } else {
        assert(x * d < 0 && -(x * d) == (-x) * d) by (nonlinear_arith)
            requires
                x < 0,
                d > 0,
        ;
        lemma_div_by_multiple(-x, d);
        lemma_mod_multiples_basic(-x, d);
    }
}

/// The square root of `m` rounded to the nearest integer, as a value: the
/// bounds of [`is_round_sqrt`] admit exactly one integer.
pub open spec fn round_sqrt(m: int) -> int {
    choose|r: int| is_round_sqrt(m, r)
}

/// Only one integer satisfies the rounded-square-root bounds.
pub proof fn lemma_round_sqrt_unique(m: int, a: int, b: int)
    requires
        0 <= m,
        is_round_sqrt(m, a),
        is_round_sqrt(m, b),
    ensures
        a == b,
{
    if a == 0 && b == 0 {
    } else if a > 0 && b == 0 {
        assert(4 * m <= 1) by (nonlinear_arith)
            requires
                b == 0,
                4 * m <= (2 * b + 1) * (2 * b + 1),
        ;
        assert(false) by (nonlinear_arith)
            requires
                a > 0,
                (2 * a - 1) * (2 * a - 1) <= 4 * m,
                4 * m <= 1,
        ;
    } else if a == 0 && b > 0 {
        assert(4 * m <= 1) by (nonlinear_arith)
            requires
                a == 0,
                4 * m <= (2 * a + 1) * (2 * a + 1),
        ;
        assert(false) by (nonlinear_arith)
            requires
                b > 0,
                (2 * b - 1) * (2 * b - 1) <= 4 * m,
                4 * m <= 1,
        ;
    } else if a < b {
        assert((2 * b - 1) * (2 * b - 1) <= 4 * m <= (2 * a + 1) * (2 * a + 1) && 2 * a + 1 <= 2
            * b - 1) by (nonlinear_arith)
            requires
                0 < a < b,
                (2 * b - 1) * (2 * b - 1) <= 4 * m,
                4 * m <= (2 * a + 1) * (2 * a + 1),
        ;
        assert((2 * b - 1) * (2 * b - 1) <= (2 * a + 1) * (2 * a + 1) ==> 2 * b - 1 <= 2 * a + 1)
            by (nonlinear_arith)
            requires
                0 < a < b,
        ;
        let t = m - b * b + b;
        assert(4 * t == 1) by (nonlinear_arith)
            requires
                t == m - b * b + b,
                4 * m == (2 * b - 1) * (2 * b - 1),
        ;
    } else if b < a {
        assert((2 * a - 1) * (2 * a - 1) <= 4 * m <= (2 * b + 1) * (2 * b + 1) && 2 * b + 1 <= 2
            * a - 1) by (nonlinear_arith)
            requires
                0 < b < a,
                (2 * a - 1) * (2 * a - 1) <= 4 * m,
                4 * m <= (2 * b + 1) * (2 * b + 1),
        ;
        assert((2 * a - 1) * (2 * a - 1) <= (2 * b + 1) * (2 * b + 1) ==> 2 * a - 1 <= 2 * b + 1)
            by (nonlinear_arith)
            requires
                0 < b < a,
        ;
        let t = m - a * a + a;
        assert(4 * t == 1) by (nonlinear_arith)
            requires
                t == m - a * a + a,
                4 * m == (2 * a - 1) * (2 * a - 1),
        ;
    }
}

/// The rounded square root of `m` dominates anything whose square is at
/// most `m`.
pub proof fn lemma_sqrt_dominates(m: int, r: int, x: int)
    requires
        is_round_sqrt(m, r),
        x * x <= m,
    ensures
        -r <= x <= r,
{
    assert(-r <= x <= r) by (nonlinear_arith)
        requires
            0 <= r,
            4 * m <= (2 * r + 1) * (2 * r + 1),
            x * x <= m,
    ;
}

/// The magnitude of a rounded quotient: at most one more than the exact
/// quotient of the magnitudes.
pub(crate) proof fn lemma_round_div_bound(n: int, d: int)
    requires
        d > 0,
    ensures
        n >= 0 ==> 0 <= round_div(n, d) <= n / d + 1,
        n < 0 ==> -((-n) / d) - 1 <= round_div(n, d) <= 0,
{
    if n >= 0 {
        lemma_div_is_ordered(0, n, d);
    } else {
        lemma_div_is_ordered(0, -n, d);
    }
}

/// Dividing a component by a rounded magnitude that dominates it keeps the
/// quotient within one raw unit of `SCALE`, so it is representable.
pub proof fn lemma_normalize_fits(x: int, r: int)
    requires
        r >= 1,
        -r <= x <= r,
    ensures
        -(SCALE as int) - 1 <= div_spec(x, r) <= SCALE as int + 1,
        in_i64(div_spec(x, r)),
{
    let s = SCALE as int;
    if x >= 0 {
        assert(0 <= x * s <= r * s) by (nonlinear_arith)
            requires
                0 <= x <= r,
                s > 0,
        ;
        lemma_round_div_bound(x * s, r);
        lemma_div_is_ordered(x * s, r * s, r);
        lemma_div_multiples_vanish(s, r);
    } else {
        assert(0 <= (-x) * s <= r * s && -(x * s) == (-x) * s) by (nonlinear_arith)
            requires
                0 <= -x <= r,
                s > 0,
        ;
        lemma_round_div_bound(x * s, r);
        lemma_div_is_ordered((-x) * s, r * s, r);
        lemma_div_multiples_vanish(s, r);
    }
}

/// Quotient and remainder are unchanged by a common positive factor, for a
/// non-negative dividend.
proof fn lemma_round_div_scale_nonneg(k: int, n: int, d: int)
    requires
        k > 0,
        d > 0,
        n >= 0,
    ensures
        (k * n) / (k * d) == n / d,
        2 * ((k * n) % (k * d)) >= k * d <==> 2 * (n % d) >= d,
{
    lemma_fundamental_div_mod(n, d);
    let q = n / d;
    let r = n % d;
    assert(k * n == q * (k * d) + k * r && 0 <= k * r && k * r < k * d && 0 < k * d)
        by (nonlinear_arith)
        requires
            n == d * q + r,
            0 <= r < d,
            k > 0,
    ;
    vstd::arithmetic::div_mod::lemma_fundamental_div_mod_converse_div(k * n, k * d, q, k * r);
    vstd::arithmetic::div_mod::lemma_fundamental_div_mod_converse_mod(k * n, k * d, q, k * r);
    assert(2 * (k * r) >= k * d <==> 2 * r >= d) by (nonlinear_arith)
        requires
            k > 0,
    ;
}

/// Rounded division is unchanged by a common positive factor.
pub proof fn lemma_round_div_scale(k: int, n: int, d: int)
    requires
        k > 0,
        d > 0,
    ensures
        round_div(k * n, k * d) == round_div(n, d),
{
    if n >= 0 {
        assert(k * n >= 0) by (nonlinear_arith)
            requires
                k > 0,
                n >= 0,
        ;
        lemma_round_div_scale_nonneg(k, n, d);
    } else {
        assert(k * n < 0 && -(k * n) == k * (-n)) by (nonlinear_arith)
            requires
                k > 0,
                n < 0,
        ;
        lemma_round_div_scale_nonneg(k, -n, d);
    }
}

/// The rounded quotient lands within half a divisor of the exact ratio:
/// `|round_div(n, d) * d - n|` is at most `d / 2`.
pub proof fn lemma_round_div_err(n: int, d: int)
    requires
        d > 0,
    ensures
        2 * (round_div(n, d) * d - n) <= d,
        -d <= 2 * (round_div(n, d) * d - n),
{
    if n >= 0 {
        lemma_fundamental_div_mod(n, d);
        let q = n / d;
        let r = n % d;
        if 2 * r >= d {
            assert((q + 1) * d - n == d - r) by (nonlinear_arith)
                requires
                    n == d * q + r,
            ;
        } else {
            assert(q * d - n == -r) by (nonlinear_arith)
                requires
                    n == d * q + r,
            ;
        }
    } else {
        lemma_fundamental_div_mod(-n, d);
        let q = (-n) / d;
        let r = (-n) % d;
        if 2 * r >= d {
            assert((-(q + 1)) * d - n == r - d) by (nonlinear_arith)
                requires
                    -n == d * q + r,
            ;
        } else {
            assert((-q) * d - n == r) by (nonlinear_arith)
                requires
                    -n == d * q + r,
            ;
        }
    }
}

/// A product of opaque terms distributes over a four-part sum.
pub(crate) proof fn lemma_distribute_sum4(x: int, a: int, b: int, c: int, d: int)
    ensures
        x * (a + b + c + d) == x * a + x * b + x * c + x * d,
{
    assert(x * (a + b + c + d) == x * a + x * b + x * c + x * d) by (nonlinear_arith);
}

/// A product of opaque terms distributes over a two-part sum.
pub(crate) proof fn lemma_distribute_sum2(x: int, a: int, b: int)
    ensures
        x * (a + b) == x * a + x * b,
        x * (a - b) == x * a - x * b,
{
    assert(x * (a + b) == x * a + x * b) by (nonlinear_arith);
    assert(x * (a - b) == x * a - x * b) by (nonlinear_arith);
}

/// The first two factors of a right-nested product swap.
pub(crate) proof fn lemma_mul_rotate(x: int, y: int, z: int)
    ensures
        x * (y * z) == y * (x * z),
        x * (y * z) == (x * y) * z,
{
    assert(x * (y * z) == y * (x * z)) by (nonlinear_arith);
    assert(x * (y * z) == (x * y) * z) by (nonlinear_arith);
}

pub(crate) proof fn lemma_mul_comm(x: int, y: int)
    ensures
        x * y == y * x,
{
    assert(x * y == y * x) by (nonlinear_arith);
}

pub(crate) proof fn lemma_mul_neg_right(x: int, y: int)
    ensures
        x * (-y) == -(x * y),
{
    assert(x * (-y) == -(x * y)) by (nonlinear_arith);
}

/// A product of two scaled factors carries the square of the scale.
pub(crate) proof fn lemma_scale_prod(s: int, a: int, b: int)
    ensures
        (s * a) * (s * b) == (s * (a * b)) * s,
{
    assert((s * a) * (s * b) == (s * (a * b)) * s) by (nonlinear_arith);
}

/// The scale factor of the left operand moves out of a product.
pub(crate) proof fn lemma_scale_left(s: int, a: int, b: int)
    ensures
        (s * a) * b == (a * b) * s,
{
    assert((s * a) * b == (a * b) * s) by (nonlinear_arith);
}

pub(crate) proof fn lemma_factor_sub(a: int, b: int, k: int)
    ensures
        a * k - b * k == (a - b) * k,
{
    assert(a * k - b * k == (a - b) * k) by (nonlinear_arith);
}

pub(crate) proof fn lemma_factor_add3(a: int, b: int, c: int, k: int)
    ensures
        a * k + b * k + c * k == (a + b + c) * k,
{
    assert(a * k + b * k + c * k == (a + b + c) * k) by (nonlinear_arith);
}

pub(crate) proof fn lemma_factor_add4(a: int, b: int, c: int, d: int, k: int)
    ensures
        a * k + b * k + c * k + d * k == (a + b + c + d) * k,
{
    assert(a * k + b * k + c * k + d * k == (a + b + c + d) * k) by (nonlinear_arith);
}

/// A product of opaque terms distributes over a three-part sum.
pub(crate) proof fn lemma_distribute_sum3(x: int, a: int, b: int, c: int)
    ensures
        x * (a + b + c) == x * a + x * b + x * c,
{
    assert(x * (a + b + c) == x * a + x * b + x * c) by (nonlinear_arith);
}

/// Rounded division on machine integers; `d` stays small enough that the
/// halving test cannot overflow.
pub(crate) fn round_div_i128(n: i128, d: i128) -> (r: i128)
    requires
        0 < d,
        d <= i128::MAX / 2,
        i128::MIN < n,
    ensures
        r == round_div(n as int, d as int),
{
    if n >= 0 {
        let q = n / d;
        let rm = n % d;
        if 2 * rm >= d {
            proof {
                lemma_fundamental_div_mod(n as int, d as int);
                assert(q < i128::MAX) by (nonlinear_arith)
                    requires
                        n as int == d as int * (q as int) + (rm as int),
                        0 <= rm < d,
                        2 * rm >= d,
                        n <= i128::MAX,
                        q >= 0,
                ;
            }
            q + 1
        } else {
            q
        }
    } else {
        let m = -n;
        let q = m / d;
        let rm = m % d;
        if 2 * rm >= d {
            proof {
                lemma_fundamental_div_mod(m as int, d as int);
                assert(q < i128::MAX) by (nonlinear_arith)
                    requires
                        m as int == d as int * (q as int) + (rm as int),
                        0 <= rm < d,
                        2 * rm >= d,
                        m <= i128::MAX,
                        q >= 0,
                ;
            }
            -(q + 1)
        } else {
            -q
        }
    }
}

impl Scalar {
    /// The scalar `raw / SCALE`.
    pub fn from_raw(raw: i64) -> (r: Scalar)
        ensures
            r.raw == raw,
    {
        Scalar { raw }
    }

    /// The integer `n` as a scalar.
    pub fn from_int(n: i64) -> (r: Scalar)
        requires
            in_i64(n * SCALE),
        ensures
            r.raw == n * SCALE,
    {
        let v: i128 = n as i128 * SCALE as i128;
        Scalar { raw: v as i64 }
    }

    /// The value `n / 10^6` as a scalar: `n` counts millionths.
    pub fn from_micros(n: i64) -> (r: Scalar)
        requires
            in_i64(n * 1_000_000),
        ensures
            r.raw == n * 1_000_000,
    {
        let v: i128 = n as i128 * 1_000_000i128;
        Scalar { raw: v as i64 }
    }

    pub fn add(self, rhs: Scalar) -> (r: Scalar)
        requires
            in_i64(self.raw + rhs.raw),
        ensures
            r.raw == self.raw + rhs.raw,
    {
        Scalar { raw: self.raw + rhs.raw }
    }

    pub fn sub(self, rhs: Scalar) -> (r: Scalar)
        requires
            in_i64(self.raw - rhs.raw),
        ensures
            r.raw == self.raw - rhs.raw,
    {
        Scalar { raw: self.raw - rhs.raw }
    }

    pub fn neg(self) -> (r: Scalar)
        requires
            in_i64(-self.raw),
        ensures
            r.raw == -self.raw,
    {
        Scalar { raw: -self.raw }
    }

    pub fn mul(self, rhs: Scalar) -> (r: Scalar)
        requires
            in_i64(mul_spec(self.raw as int, rhs.raw as int)),
        ensures
            r.raw == mul_spec(self.raw as int, rhs.raw as int),
    {
        proof {
            lemma_i64_product_fits(self.raw as int, rhs.raw as int);
        }
        let p: i128 = self.raw as i128 * rhs.raw as i128;
        let q = round_div_i128(p, SCALE as i128);
        Scalar { raw: q as i64 }
    }

    pub fn div(self, rhs: Scalar) -> (r: Scalar)
        requires
            rhs.raw != 0,
            in_i64(div_spec(self.raw as int, rhs.raw as int)),
        ensures
            r.raw == div_spec(self.raw as int, rhs.raw as int),
    {
        proof {
            lemma_i64_product_fits(self.raw as int, SCALE as int);
        }
        let n: i128 = self.raw as i128 * SCALE as i128;
        let q = if rhs.raw > 0 {
            round_div_i128(n, rhs.raw as i128)
        } else {
            round_div_i128(-n, -(rhs.raw as i128))
        };
        Scalar { raw: q as i64 }
    }

    /// Square root of a non-negative scalar, rounded to the nearest
    /// representable value.
    pub fn sqrt(self) -> (r: Scalar)
        requires
            self.raw >= 0,
        ensures
            r.raw >= 0,
            is_round_sqrt(self.raw as int * SCALE as int, r.raw as int),
    {
        let m: i128 = self.raw as i128 * SCALE as i128;
        let r = isqrt_round(m);
        Scalar { raw: r as i64 }
    }
}

/// Floor of the square root, by bisection.
fn isqrt_floor(m: i128) -> (f: i128)
    requires
        0 <= m,
        m < 4_000_000_000_004_000_000_000_000_000_001_000_000,
    ensures
        0 <= f,
        f * f <= m,
        (f + 1) * (f + 1) > m,
        f < 2_000_000_000_001_000_000,
{
    let mut lo: i128 = 0;
    let mut hi: i128 = 2_000_000_000_001_000_000;
    proof {
        assert(hi * hi > m) by (nonlinear_arith)
            requires
                hi == 2_000_000_000_001_000_000,
                m < 4_000_000_000_004_000_000_000_000_000_001_000_000,
        ;
    }
    while lo + 1 < hi
        invariant
            0 <= lo < hi,
            hi <= 2_000_000_000_001_000_000,
            lo * lo <= m,
            hi * hi > m,
        decreases hi - lo,
    {
        let mid = lo + (hi - lo) / 2;
        assert(lo < mid < hi);
        proof {
            assert(mid * mid <= i128::MAX) by (nonlinear_arith)
                requires
                    0 <= mid < 2_000_000_000_001_000_000,
            ;
        }
        if mid * mid <= m {
            lo = mid;
        } else {
            hi = mid;
        }
    }
    lo
}

/// Square root rounded to the nearest integer, halves impossible.
pub(crate) fn isqrt_round(m: i128) -> (r: i128)
    requires
        0 <= m,
        m < 4_000_000_000_004_000_000_000_000_000_001_000_000,
    ensures
        is_round_sqrt(m as int, r as int),
        0 <= r <= 2_000_000_000_001_000_000,
{
    let f = isqrt_floor(m);
    let r = if m - f * f > f {
        f + 1
    } else {
        f
    };
    proof {
        assert(is_round_sqrt(m as int, r as int)) by (nonlinear_arith)
            requires
                0 <= f,
                f * f <= m,
                (f + 1) * (f + 1) > m,
                r == if m - f * f > f { f + 1 } else { f as int },
        ;
    }
    r
}

impl PartialEq for Scalar {
    /// Tolerance equality: within `FLOAT_EQ_EPS` of one another.
    fn eq(&self, other: &Self) -> (r: bool) {
        let d: i128 = self.raw as i128 - other.raw as i128;
        let e: i128 = FLOAT_EQ_EPS as i128;
        d < e && -d < e
    }
}

impl vstd::std_specs::cmp::PartialEqSpecImpl for Scalar {
    open spec fn obeys_eq_spec() -> bool {
        true
    }

    open spec fn eq_spec(&self, other: &Scalar) -> bool {
        &&& self.raw - other.raw < FLOAT_EQ_EPS
        &&& other.raw - self.raw < FLOAT_EQ_EPS
    }
}

} // verus!
