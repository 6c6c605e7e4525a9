//! An immutable 2D displacement with guaranteed-finite components.

use vstd::prelude::*;
use crate::error::RcgalError;
use crate::scalar::{
    is_finite, is_normal, max_mag_bits, spec_is_finite, spec_is_normal, spec_is_zero,
};

verus! {

/// Structure representing a 2D vector.
///
/// Both components are bit patterns of finite binary64 values; the
/// invariant is established at construction and never broken afterwards,
/// since vectors are immutable values.
#[derive(Clone, Copy, Debug, PartialEq, Eq, Structural)]
pub struct Vector {
    x: u64,
    y: u64,
}

impl Vector {
    /// The bit pattern of the x component.
    pub closed spec fn x_bits(self) -> u64 {
        self.x
    }

    /// The bit pattern of the y component.
    pub closed spec fn y_bits(self) -> u64 {
        self.y
    }

    /// The finiteness invariant: both components are finite.
    pub open spec fn wf(self) -> bool {
        spec_is_finite(self.x_bits()) && spec_is_finite(self.y_bits())
    }

    /// Creates a new 2D vector from the bit patterns of its x and y
    /// components.
    ///
    /// Succeeds exactly when both components are finite, and then holds
    /// exactly the given bit patterns; fails with `NotFiniteInput` when a
    /// component is infinite or NaN.
    pub fn new(x: u64, y: u64) -> (r: Result<Self, RcgalError>)
        ensures
            r is Ok <==> spec_is_finite(x) && spec_is_finite(y),
            r matches Ok(v) ==> v.x_bits() == x && v.y_bits() == y && v.wf(),
            r matches Err(e) ==> e == RcgalError::NotFiniteInput,
    {
        if is_finite(x) && is_finite(y) {
            Ok(Vector { x, y })
        } else {
            Err(RcgalError::NotFiniteInput)
        }
    }

    /// Returns the bit pattern of the x component.
    pub fn x(&self) -> (r: u64)
        ensures
            r == self.x_bits(),
    {
        self.x
    }

    /// Returns the bit pattern of the y component.
    pub fn y(&self) -> (r: u64)
        ensures
            r == self.y_bits(),
    {
        self.y
    }

    /// First stage of normalization: the divisor that rescales the vector,
    /// the magnitude of its larger-magnitude component.
    ///
    /// Succeeds exactly when that magnitude is a normal number, returning
    /// its (sign-free) bit pattern; fails with `InvalidInput` otherwise —
    /// for the zero vector and for vectors whose dominant component is
    /// subnormal, normalization is ill-defined. Dividing both components
    /// by the returned value brings the dominant one to unit magnitude, so
    /// the subsequent length computation can neither overflow nor
    /// underflow.
    pub fn normalize_divisor(&self) -> (r: Result<u64, RcgalError>)
        ensures
            r is Ok <==> spec_is_normal(max_mag_bits(self.x_bits(), self.y_bits())),
            r matches Ok(m) ==> m == max_mag_bits(self.x_bits(), self.y_bits()),
            r matches Err(e) ==> e == RcgalError::InvalidInput,
    {
        let ax: u64 = self.x & 0x7fff_ffff_ffff_ffff;
        let ay: u64 = self.y & 0x7fff_ffff_ffff_ffff;
        let m: u64 = if ax < ay {
            ay
        } else {
            ax
        };
        if is_normal(m) {
            Ok(m)
        } else {
            Err(RcgalError::InvalidInput)
        }
    }
}

impl Default for Vector {
    /// The zero vector: both components are +0.0.
    fn default() -> (r: Self)
        ensures
            r.x_bits() == 0 && r.y_bits() == 0 && r.wf(),
    {
        proof {
            assert((0u64 >> 52) & 0x7ff == 0) by (bit_vector);
        }
        Vector { x: 0, y: 0 }
    }
}

/// A vector with finite components passes normalization's precheck exactly
/// when one of its components is a normal number: the dominant magnitude
/// is normal if and only if some component is normal.
pub proof fn lemma_normalizable_iff_some_component_normal(v: Vector)
    requires
        v.wf(),
    ensures
        spec_is_normal(max_mag_bits(v.x_bits(), v.y_bits())) <==> (spec_is_normal(v.x_bits())
            || spec_is_normal(v.y_bits())),
{
    let x = v.x_bits();
    let y = v.y_bits();
    assert(spec_is_normal(max_mag_bits(x, y)) <==> (spec_is_normal(x) || spec_is_normal(y)))
        by (bit_vector)
        requires
            spec_is_finite(x),
            spec_is_finite(y),
    ;
}

/// The zero vector is rejected by normalization's precheck: with both
/// components zero, the dominant magnitude is zero, not a normal number.
pub proof fn lemma_zero_vector_not_normalizable(v: Vector)
    requires
        spec_is_zero(v.x_bits()),
        spec_is_zero(v.y_bits()),
    ensures
        !spec_is_normal(max_mag_bits(v.x_bits(), v.y_bits())),
{
    let x = v.x_bits();
    let y = v.y_bits();
    assert(!spec_is_normal(max_mag_bits(x, y))) by (bit_vector)
        requires
            spec_is_zero(x),
            spec_is_zero(y),
    ;
}

} // verus!
