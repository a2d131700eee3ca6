//! The algebraic layer: the fixed-point scalar, homogeneous tuples and the
//! square-matrix family, together with the tolerance comparison that every
//! `==` of the higher types goes through.

use vstd::prelude::*;

mod scalar;
pub use scalar::Scalar;
pub use scalar::FLOAT_EQ_EPS;
pub use scalar::SCALE;
pub use scalar::close_enough;
pub use scalar::in_i64;
pub use scalar::bounded_raw;
pub use scalar::round_div;
pub(crate) use scalar::round_div_i128;
pub use scalar::mul_spec;
pub use scalar::div_spec;
pub use scalar::is_round_sqrt;
pub use scalar::lemma_round_div_exact;
pub use scalar::RAW_LIMIT;
pub use scalar::round_sqrt;
pub use scalar::lemma_round_sqrt_unique;
pub use scalar::lemma_round_div_scale;
pub use scalar::lemma_round_div_err;
mod matrix;
pub use matrix::Matrix4;
pub use matrix::adjugate::exact_cof4;
pub use matrix::adjugate::exact_det3_at;
pub use matrix::adjugate::exact_det4;
pub use matrix::adjugate::exact_minor4;
pub use matrix::adjugate::ent4;
pub use matrix::adjugate::skip_idx;
pub use matrix::adjugate::lemma_adjugate_row;
pub use matrix::laws::int_scaled;
pub use matrix::laws::lemma_mul_inverse_identity;
pub use matrix::laws::lemma_scaled_det4;
pub use matrix::cof4_spec;
pub use matrix::det4_ready;
pub use matrix::det4_spec;
pub use matrix::eye4_spec;
pub use matrix::inv_ready;
pub use matrix::lemma_identity_neutral;
pub use matrix::lemma_identity_neutral_tuple;
pub use matrix::lemma_transpose_involution;
pub use matrix::mat4_bounded;
pub use matrix::minor4_spec;
pub use matrix::mm4_spec;
pub use matrix::mv4_spec;
pub use matrix::sub4_spec;
pub use matrix::transpose4_spec;
mod matrix2;
pub use matrix2::Matrix2;
pub use matrix2::det2_spec;
pub use matrix2::mat2_bounded;
mod matrix3;
pub use matrix3::Matrix3;
pub use matrix3::cof3_spec;
pub use matrix3::det3_ready;
pub use matrix3::det3_spec;
pub use matrix3::ent3;
pub use matrix3::mat3_bounded;
pub use matrix3::minor3_spec;
pub use matrix3::sub3_spec;
mod tuple;
pub use tuple::Tuple4D;
pub use tuple::dot_spec;
pub use tuple::lemma_normalize_unit_magnitude;
pub use tuple::mag_sq_spec;
pub use tuple::tup_bounded;
pub use tuple::vector_spec;

verus! {

/// Tolerance comparison: `|a - b| < eps`, exact over the fixed-point raw
/// values. This is the equality every higher type's `==` relies on.
pub fn float_eq(a: Scalar, b: Scalar, eps: Scalar) -> (r: bool)
    ensures
        r == close_enough(a.raw as int, b.raw as int, eps.raw as int),
{
    let d: i128 = a.raw as i128 - b.raw as i128;
    let e: i128 = eps.raw as i128;
    d < e && -d < e
}

} // verus!
