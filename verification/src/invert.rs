//! Component-wise negation for points and vectors.

use vstd::prelude::*;
use crate::base::BaseVectorPoint;
use crate::point::Point;
use crate::vector::Vector;

verus! {

/// Negation of both components, in place or as a copy.
pub trait Invert: BaseVectorPoint + Copy {
    /// Negate both components in place.
    fn invert(&mut self)
        requires
            old(self).spec_x()@ != i64::MIN,
            old(self).spec_y()@ != i64::MIN,
        ensures
            final(self).spec_x()@ == -old(self).spec_x()@,
            final(self).spec_y()@ == -old(self).spec_y()@,
    {
        let nx = self.x().negated();
        let ny = self.y().negated();
        *self.x_mut() = nx;
        *self.y_mut() = ny;
    }

    /// A copy of `self` with both components negated.
    fn inverted(&self) -> (r: Self)
        requires
            self.spec_x()@ != i64::MIN,
            self.spec_y()@ != i64::MIN,
        ensures
            r.spec_x()@ == -self.spec_x()@,
            r.spec_y()@ == -self.spec_y()@,
    {
        let mut copy = *self;
        copy.invert();
        copy
    }
}

impl Invert for Vector {

}

impl Invert for Point {

}

/// Inverting twice is the identity: a value whose components are the
/// negation of a negation has exactly the starting components, so two
/// [`Invert::inverted`] calls in a row give back the starting value.
pub proof fn lemma_inverted_round_trip(v: Vector, w: Vector, u: Vector)
    requires
        w.x@ == -v.x@,
        w.y@ == -v.y@,
        u.x@ == -w.x@,
        u.y@ == -w.y@,
    ensures
        u == v,
{
}

/// The same round trip for points.
pub proof fn lemma_point_inverted_round_trip(v: Point, w: Point, u: Point)
    requires
        w.x@ == -v.x@,
        w.y@ == -v.y@,
        u.x@ == -w.x@,
        u.y@ == -w.y@,
    ensures
        u == v,
{
}

} // verus!
