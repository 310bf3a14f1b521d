//! A displacement in 2D space.

use vstd::prelude::*;
use crate::fixed::Fixed;

verus! {

/// A displacement or velocity: two fixed-point components. See
/// [`crate::point::Point`] for the distinction between the two types.
#[derive(Clone, Copy, PartialEq, Eq, Structural, Debug)]
pub struct Vector {
    pub x: Fixed,
    pub y: Fixed,
}

impl Vector {
    /// A new vector with the given components.
    pub fn new(x: Fixed, y: Fixed) -> (r: Vector)
        ensures
            r.x == x,
            r.y == y,
    {
        Vector { x, y }
    }
}

} // verus!
