//! An immutable 2D location with guaranteed-finite coordinates.

use vstd::prelude::*;
use crate::error::RcgalError;
use crate::scalar::{is_finite, spec_is_finite};

verus! {

/// Structure representing a 2D point.
///
/// Both coordinates are bit patterns of finite binary64 values; the
/// invariant is established at construction and never broken afterwards,
/// since points are immutable values.
#[derive(Clone, Copy, Debug, PartialEq, Eq, Structural)]
pub struct Point {
    x: u64,
    y: u64,
}

impl Point {
    /// The bit pattern of the x coordinate.
    pub closed spec fn x_bits(self) -> u64 {
        self.x
    }

    /// The bit pattern of the y coordinate.
    pub closed spec fn y_bits(self) -> u64 {
        self.y
    }

    /// The finiteness invariant: both coordinates are finite.
    pub open spec fn wf(self) -> bool {
        spec_is_finite(self.x_bits()) && spec_is_finite(self.y_bits())
    }

    /// Creates a new 2D point from the bit patterns of its x and y
    /// coordinates.
    ///
    /// Succeeds exactly when both coordinates are finite, and then holds
    /// exactly the given bit patterns; fails with `NotFiniteInput` when a
    /// coordinate is infinite or NaN.
    pub fn new(x: u64, y: u64) -> (r: Result<Self, RcgalError>)
        ensures
            r is Ok <==> spec_is_finite(x) && spec_is_finite(y),
            r matches Ok(p) ==> p.x_bits() == x && p.y_bits() == y && p.wf(),
            r matches Err(e) ==> e == RcgalError::NotFiniteInput,
    {
        if is_finite(x) && is_finite(y) {
            Ok(Point { x, y })
        } else {
            Err(RcgalError::NotFiniteInput)
        }
    }

    /// Returns the bit pattern of the x coordinate.
    pub fn x(&self) -> (r: u64)
        ensures
            r == self.x_bits(),
    {
        self.x
    }

    /// Returns the bit pattern of the y coordinate.
    pub fn y(&self) -> (r: u64)
        ensures
            r == self.y_bits(),
    {
        self.y
    }
}

impl Default for Point {
    /// The origin: both coordinates are +0.0.
    fn default() -> (r: Self)
        ensures
            r.x_bits() == 0 && r.y_bits() == 0 && r.wf(),
    {
        proof {
            assert((0u64 >> 52) & 0x7ff == 0) by (bit_vector);
        }
        Point { x: 0, y: 0 }
    }
}

} // verus!
