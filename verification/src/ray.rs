//! Rays: an origin and a direction.
//!
//! The direction is not guaranteed to be unit length at every call site;
//! callers normalize where they need to.

use vstd::prelude::*;
use crate::vector::Vector;

verus! {

#[derive(Clone, Copy, Debug, PartialEq, Eq, Structural)]
pub struct Ray {
    pub origin: Vector,
    pub direction: Vector,
}

impl Ray {
    pub fn new(origin: Vector, direction: Vector) -> (r: Ray)
        ensures r == (Ray { origin, direction }),
    {
        Ray { origin, direction }
    }

    pub fn zero() -> (r: Ray)
        ensures r == (Ray { origin: Vector::zero_s(), direction: Vector::zero_s() }),
    {
        Ray { origin: Vector::zero(), direction: Vector::zero() }
    }
}

} // verus!
