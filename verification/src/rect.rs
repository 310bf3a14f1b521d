//! A plain rectangle value: the simplest thing that is a mask.

use vstd::prelude::*;
use crate::fixed::Fixed;
use crate::mask::Mask;
use crate::origin::Origin;
use crate::point::Point;
use crate::size::Size;

verus! {

/// A free-standing rectangle: a point, a size and an origin, with the
/// whole [`Mask`] capability and nothing else. The movement resolver hands
/// one of these to its collision predicate for every candidate position.
#[derive(Clone, Copy, PartialEq, Eq, Structural, Debug)]
pub struct Rect {
    pub point: Point,
    pub size: Size,
    pub origin: Origin,
}

impl Rect {
    /// A new rectangle from its three parts.
    pub fn new(point: Point, size: Size, origin: Origin) -> (r: Rect)
        ensures
            r.spec_point() == point,
            r.spec_size() == size,
            r.spec_origin() == origin,
    {
        Rect { point, size, origin }
    }

    /// A new top-left-anchored rectangle from bare coordinates.
    pub fn new_simple(x: Fixed, y: Fixed, w: Fixed, h: Fixed) -> (r: Rect)
        ensures
            r.spec_point() == (Point { x, y }),
            r.spec_size() == (Size { w, h }),
            r.spec_origin() == Origin::TopLeft,
    {
        Rect {
            point: Point::new(x, y),
            size: Size::new(w, h),
            origin: Origin::TopLeft,
        }
    }
}

impl Mask for Rect {
    open spec fn spec_point(&self) -> Point {
        self.point
    }

    open spec fn spec_size(&self) -> Size {
        self.size
    }

    open spec fn spec_origin(&self) -> Origin {
        self.origin
    }

    fn point(&self) -> &Point {
        &self.point
    }

    fn point_mut(&mut self) -> &mut Point {
        &mut self.point
    }

    fn size(&self) -> &Size {
        &self.size
    }

    fn origin(&self) -> &Origin {
        &self.origin
    }
}

} // verus!
