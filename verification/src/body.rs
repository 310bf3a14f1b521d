//! A ready-made moving entity.

use vstd::prelude::*;
use crate::fixed::Fixed;
use crate::mask::Mask;
use crate::movement::Movement;
use crate::origin::Origin;
use crate::point::Point;
use crate::size::Size;
use crate::velocity::Velocity;

verus! {

/// The simplest complete entity: a rectangle with a velocity. It carries
/// every capability of the toolkit — [`Mask`], [`Velocity`] and
/// [`Movement`] — and serves both as a usable game object and as the
/// model for wiring the capabilities onto an entity type of your own.
#[derive(Clone, Copy, PartialEq, Eq, Structural, Debug)]
pub struct Body {
    pub point: Point,
    pub size: Size,
    pub origin: Origin,
    pub velocity: Point,
    pub max_velocity: Point,
}

impl Body {
    /// A new body at `point`, standing still.
    pub fn new(point: Point, size: Size, origin: Origin, max_velocity: Point) -> (r: Body)
        ensures
            r.point == point,
            r.size == size,
            r.origin == origin,
            r.velocity == (Point { x: Fixed { raw: 0 }, y: Fixed { raw: 0 } }),
            r.max_velocity == max_velocity,
    {
        Body {
            point,
            size,
            origin,
            velocity: Point::new(Fixed::zero(), Fixed::zero()),
            max_velocity,
        }
    }
}

impl Mask for Body {
    open spec fn spec_point(&self) -> Point {
        self.point
    }

    open spec fn spec_size(&self) -> Size {
        self.size
    }

    open spec fn spec_origin(&self) -> Origin {
        self.origin
    }

    fn point(&self) -> &Point {
        &self.point
    }

    fn point_mut(&mut self) -> &mut Point {
        &mut self.point
    }

    fn size(&self) -> &Size {
        &self.size
    }

    fn origin(&self) -> &Origin {
        &self.origin
    }
}

impl Velocity for Body {
    open spec fn spec_velocity(&self) -> Point {
        self.velocity
    }

    open spec fn spec_max_velocity(&self) -> Point {
        self.max_velocity
    }

    open spec fn spec_usable_velocity(&self) -> Point {
        self.velocity
    }

    fn velocity(&self) -> &Point {
        &self.velocity
    }

    fn velocity_mut(&mut self) -> &mut Point {
        &mut self.velocity
    }

    fn max_velocity(&self) -> Point {
        self.max_velocity
    }

    fn usable_velocity(&self) -> Point {
        self.velocity
    }
}

impl Movement for Body {
    fn set_position(&mut self, position: Point) {
        self.point = position;
    }
}

} // verus!
