//! Conversions between points and vectors.

use vstd::prelude::*;
use crate::base::BaseVectorPoint;
use crate::point::Point;
use crate::vector::Vector;

verus! {

/// Read a value as a displacement.
pub trait AsVector: BaseVectorPoint {
    /// The same components as a [`Vector`].
    fn as_vector(&self) -> (r: Vector)
        ensures
            r.x == self.spec_x(),
            r.y == self.spec_y(),
    {
        Vector::new(self.x(), self.y())
    }
}

/// Read a value as an absolute position.
pub trait AsPoint: BaseVectorPoint {
    /// The same components as a [`Point`].
    fn as_point(&self) -> (r: Point)
        ensures
            r.x == self.spec_x(),
            r.y == self.spec_y(),
    {
        Point::new(self.x(), self.y())
    }
}

impl AsVector for Point {

}

impl AsPoint for Vector {

}

} // verus!
