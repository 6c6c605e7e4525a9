//! Finite-precision 2D geometric primitives.
//!
//! Scalars are IEEE-754 binary64 values, handled throughout by their bit
//! patterns (`u64`): all validation and classification here is exact bit
//! logic, so every decision the library makes is verified. Callers that
//! work with native `f64` values convert with `f64::to_bits` /
//! `f64::from_bits`, which are lossless in both directions.

mod error;
mod point;
pub mod scalar;
mod vector;

pub use error::RcgalError;
pub use point::Point;
pub use vector::Vector;
pub use vector::lemma_normalizable_iff_some_component_normal;
pub use vector::lemma_zero_vector_not_normalizable;
