//! A movable viewport over the world.

use vstd::prelude::*;
use crate::fixed::Fixed;
use crate::mask::{
    intersects, mask_fits, spec_intersects, spec_sides, spec_top_left_x, spec_top_left_y, Mask,
};
use crate::origin::Origin;
use crate::point::Point;
use crate::size::Size;
use crate::vector::Vector;

verus! {

/// A center-anchored rectangle standing for the visible part of the
/// world. It is a [`Mask`] like any entity, so visibility is the ordinary
/// intersection test; [`Camera::visible_offset`] packages the whole
/// per-entity decision a renderer needs, while the drawing itself is I/O
/// and stays with the embedding application.
#[derive(Clone, Copy, PartialEq, Eq, Structural, Debug)]
pub struct Camera {
    pub point: Point,
    pub size: Size,
    pub origin: Origin,
}

impl Camera {
    /// A new camera of the given size, centered on the world origin.
    pub fn new(size: Size) -> (r: Camera)
        ensures
            r.point == (Point { x: Fixed { raw: 0 }, y: Fixed { raw: 0 } }),
            r.size == size,
            r.origin == Origin::Center,
    {
        let zero = Fixed::zero();
        Camera { point: Point::new(zero, zero), size, origin: Origin::Center }
    }

    /// The camera's current anchor point.
    pub fn point(&self) -> (r: &Point)
        ensures
            *r == self.point,
    {
        &self.point
    }

    /// Jump to `point`.
    pub fn move_to(&mut self, point: &Point)
        ensures
            final(self).point == *point,
            final(self).size == old(self).size,
            final(self).origin == old(self).origin,
    {
        self.point = *point;
    }

    /// Pan by `vector`.
    pub fn move_by(&mut self, vector: &Vector)
        requires
            i64::MIN <= old(self).point.x@ + vector.x@ <= i64::MAX,
            i64::MIN <= old(self).point.y@ + vector.y@ <= i64::MAX,
        ensures
            final(self).point.x@ == old(self).point.x@ + vector.x@,
            final(self).point.y@ == old(self).point.y@ + vector.y@,
            final(self).size == old(self).size,
            final(self).origin == old(self).origin,
    {
        self.point = Point::new(self.point.x.plus(vector.x), self.point.y.plus(vector.y));
    }

    /// Pan horizontally by `incr`.
    pub fn move_x(&mut self, incr: Fixed)
        requires
            i64::MIN <= old(self).point.x@ + incr@ <= i64::MAX,
        ensures
            final(self).point.x@ == old(self).point.x@ + incr@,
            final(self).point.y == old(self).point.y,
            final(self).size == old(self).size,
            final(self).origin == old(self).origin,
    {
        self.point.x = self.point.x.plus(incr);
    }

    /// Pan vertically by `incr`.
    pub fn move_y(&mut self, incr: Fixed)
        requires
            i64::MIN <= old(self).point.y@ + incr@ <= i64::MAX,
        ensures
            final(self).point.y@ == old(self).point.y@ + incr@,
            final(self).point.x == old(self).point.x,
            final(self).size == old(self).size,
            final(self).origin == old(self).origin,
    {
        self.point.y = self.point.y.plus(incr);
    }

    /// The decision a renderer needs for one entity: `None` when the
    /// entity lies outside the viewport and is culled, otherwise the
    /// drawing offset — the camera's top-left corner negated — to add to
    /// the entity's world position.
    pub fn visible_offset<E: Mask>(&self, entity: &E) -> (r: Option<Vector>)
        requires
            mask_fits(self.point, self.size),
            mask_fits(entity.spec_point(), entity.spec_size()),
        ensures
            r is Some <==> spec_intersects(
                spec_sides(self.point, self.size, self.origin),
                spec_sides(entity.spec_point(), entity.spec_size(), entity.spec_origin()),
            ),
            r is Some ==> r->0.x@ == -spec_top_left_x(self.point, self.size, self.origin)
                && r->0.y@ == -spec_top_left_y(self.point, self.size, self.origin),
    {
        if intersects(self, entity) {
            let top_left = self.top_left();
            Some(Vector::new(top_left.x.negated(), top_left.y.negated()))
        } else {
            None
        }
    }
}

impl Mask for Camera {
    open spec fn spec_point(&self) -> Point {
        self.point
    }

    open spec fn spec_size(&self) -> Size {
        self.size
    }

    open spec fn spec_origin(&self) -> Origin {
        self.origin
    }

    fn point(&self) -> &Point {
        &self.point
    }

    fn point_mut(&mut self) -> &mut Point {
        &mut self.point
    }

    fn size(&self) -> &Size {
        &self.size
    }

    fn origin(&self) -> &Origin {
        &self.origin
    }
}

} // verus!
