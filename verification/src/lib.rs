//! Geometric and photometric math kernel for a ray tracer: homogeneous
//! 4-component tuples (points and vectors), square matrices (2x2 through
//! 4x4) with determinant and inverse support, RGB color algebra, and a
//! pixel canvas that serializes to the plain-text PPM image format with a
//! strict per-line width limit.
//!
//! Every quantity is carried by [`math::Scalar`], an exact fixed-point
//! number: an `i64` count of units of 10^-12. Each operation states the raw
//! value of its result exactly, and the tolerance comparisons of the design
//! (`float_eq`, the `==` of tuples, colors and matrices) keep their
//! meaning: two scalars closer than 10^-5 are interchangeable.

pub mod canvas;
pub mod color;
pub mod math;

pub use canvas::Canvas;
pub use canvas::Vec2D;
pub use color::Color;
