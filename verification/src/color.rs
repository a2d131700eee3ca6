//! RGB color algebra: component-wise sums, differences, scaling and the
//! component-wise multiplicative blend. Channels are never clamped here;
//! values outside [0, 1] are legal and expected until canvas export.

use crate::math::FLOAT_EQ_EPS;
use crate::math::Scalar;
use crate::math::close_enough;
use crate::math::div_spec;
use crate::math::in_i64;
use crate::math::mul_spec;
use vstd::prelude::*;

verus! {

/// An RGB color; each channel is a scalar, unclamped.
#[derive(Clone, Copy, Debug)]
pub struct Color {
    pub r: Scalar,
    pub g: Scalar,
    pub b: Scalar,
}

impl Color {
    /// The color with the given channels.
    pub fn new(r: Scalar, g: Scalar, b: Scalar) -> (c: Color)
        ensures
            c.r == r,
            c.g == g,
            c.b == b,
    {
        Color { r, g, b }
    }

    /// Channel-wise product of two colors: the light-filter blend.
    pub fn mul_color(self, rhs: Self) -> (c: Color)
        requires
            in_i64(mul_spec(self.r.raw as int, rhs.r.raw as int)),
            in_i64(mul_spec(self.g.raw as int, rhs.g.raw as int)),
            in_i64(mul_spec(self.b.raw as int, rhs.b.raw as int)),
        ensures
            c.r.raw == mul_spec(self.r.raw as int, rhs.r.raw as int),
            c.g.raw == mul_spec(self.g.raw as int, rhs.g.raw as int),
            c.b.raw == mul_spec(self.b.raw as int, rhs.b.raw as int),
    {
        Color { r: self.r.mul(rhs.r), g: self.g.mul(rhs.g), b: self.b.mul(rhs.b) }
    }

    /// Channel-wise sum.
    pub fn add(self, other: Self) -> (c: Color)
        requires
            in_i64(self.r.raw + other.r.raw),
            in_i64(self.g.raw + other.g.raw),
            in_i64(self.b.raw + other.b.raw),
        ensures
            c.r.raw == self.r.raw + other.r.raw,
            c.g.raw == self.g.raw + other.g.raw,
            c.b.raw == self.b.raw + other.b.raw,
    {
        Color { r: self.r.add(other.r), g: self.g.add(other.g), b: self.b.add(other.b) }
    }

    /// Channel-wise difference.
    pub fn sub(self, other: Self) -> (c: Color)
        requires
            in_i64(self.r.raw - other.r.raw),
            in_i64(self.g.raw - other.g.raw),
            in_i64(self.b.raw - other.b.raw),
        ensures
            c.r.raw == self.r.raw - other.r.raw,
            c.g.raw == self.g.raw - other.g.raw,
            c.b.raw == self.b.raw - other.b.raw,
    {
        Color { r: self.r.sub(other.r), g: self.g.sub(other.g), b: self.b.sub(other.b) }
    }

    /// Channel-wise negation.
    pub fn neg(self) -> (c: Color)
        requires
            in_i64(-self.r.raw),
            in_i64(-self.g.raw),
            in_i64(-self.b.raw),
        ensures
            c.r.raw == -self.r.raw,
            c.g.raw == -self.g.raw,
            c.b.raw == -self.b.raw,
    {
        Color { r: self.r.neg(), g: self.g.neg(), b: self.b.neg() }
    }

    /// Channel-wise scaling.
    pub fn mul(self, rhs: Scalar) -> (c: Color)
        requires
            in_i64(mul_spec(self.r.raw as int, rhs.raw as int)),
            in_i64(mul_spec(self.g.raw as int, rhs.raw as int)),
            in_i64(mul_spec(self.b.raw as int, rhs.raw as int)),
        ensures
            c.r.raw == mul_spec(self.r.raw as int, rhs.raw as int),
            c.g.raw == mul_spec(self.g.raw as int, rhs.raw as int),
            c.b.raw == mul_spec(self.b.raw as int, rhs.raw as int),
    {
        Color { r: self.r.mul(rhs), g: self.g.mul(rhs), b: self.b.mul(rhs) }
    }

    /// Channel-wise division by a non-zero scalar.
    pub fn div(self, rhs: Scalar) -> (c: Color)
        requires
            rhs.raw != 0,
            in_i64(div_spec(self.r.raw as int, rhs.raw as int)),
            in_i64(div_spec(self.g.raw as int, rhs.raw as int)),
            in_i64(div_spec(self.b.raw as int, rhs.raw as int)),
        ensures
            c.r.raw == div_spec(self.r.raw as int, rhs.raw as int),
            c.g.raw == div_spec(self.g.raw as int, rhs.raw as int),
            c.b.raw == div_spec(self.b.raw as int, rhs.raw as int),
    {
        Color { r: self.r.div(rhs), g: self.g.div(rhs), b: self.b.div(rhs) }
    }
}

impl PartialEq for Color {
    /// Channel-wise tolerance equality.
    fn eq(&self, other: &Self) -> (r: bool) {
        let e: i128 = FLOAT_EQ_EPS as i128;
        let dr: i128 = self.r.raw as i128 - other.r.raw as i128;
        let dg: i128 = self.g.raw as i128 - other.g.raw as i128;
        let db: i128 = self.b.raw as i128 - other.b.raw as i128;
        dr < e && -dr < e && dg < e && -dg < e && db < e && -db < e
    }
}

impl vstd::std_specs::cmp::PartialEqSpecImpl for Color {
    open spec fn obeys_eq_spec() -> bool {
        true
    }

    open spec fn eq_spec(&self, other: &Color) -> bool {
        &&& close_enough(self.r.raw as int, other.r.raw as int, FLOAT_EQ_EPS as int)
        &&& close_enough(self.g.raw as int, other.g.raw as int, FLOAT_EQ_EPS as int)
        &&& close_enough(self.b.raw as int, other.b.raw as int, FLOAT_EQ_EPS as int)
    }
}

} // verus!
