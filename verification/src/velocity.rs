//! A per-entity velocity, bounded by a maximum.

use vstd::prelude::*;
use vstd::math::abs;
use crate::fixed::Fixed;
use crate::mask::Mask;
use crate::point::Point;

verus! {

/// Clamping of one velocity component to the band `[-max, max]`.
pub open spec fn clamp_mag(v: int, max: int) -> int {
    if v > max {
        max
    } else if v < -max {
        -max
    } else {
        v
    }
}

/// Damping of one velocity component: move it towards zero by `d`, but
/// never past zero and never flipping its sign.
pub open spec fn damp_mag(v: int, d: int) -> int {
    if v > 0 {
        if v - d > 0 {
            v - d
        } else {
            0
        }
    } else if v < 0 {
        if v + d < 0 {
            v + d
        } else {
            0
        }
    } else {
        0
    }
}

/// The capability of carrying a velocity: a stored velocity vector, a
/// per-entity ceiling on its magnitude, and clamped or damped updates.
/// Additive updates are clamped to the ceiling; direct assignment is not.
pub trait Velocity: Mask {
    /// The stored velocity, for specifications.
    spec fn spec_velocity(&self) -> Point;

    /// The velocity ceiling, for specifications.
    spec fn spec_max_velocity(&self) -> Point;

    /// The velocity the movement resolver reads, for specifications. An
    /// entity that wants to move with an effective velocity different
    /// from its stored one overrides this together with
    /// [`Velocity::usable_velocity`].
    spec fn spec_usable_velocity(&self) -> Point;

    /// The stored velocity.
    fn velocity(&self) -> (r: &Point)
        ensures
            *r == self.spec_velocity(),
    ;

    /// Mutable access to the stored velocity; everything else about the
    /// entity is untouched.
    fn velocity_mut(&mut self) -> (r: &mut Point)
        ensures
            *r == old(self).spec_velocity(),
            final(self).spec_velocity() == *final(r),
            final(self).spec_max_velocity() == old(self).spec_max_velocity(),
            final(self).spec_point() == old(self).spec_point(),
            final(self).spec_size() == old(self).spec_size(),
            final(self).spec_origin() == old(self).spec_origin(),
    ;

    /// The velocity ceiling.
    fn max_velocity(&self) -> (r: Point)
        ensures
            r == self.spec_max_velocity(),
    ;

    /// The velocity that movement resolution reads; by default the stored
    /// velocity itself.
    fn usable_velocity(&self) -> (r: Point)
        ensures
            r == self.spec_usable_velocity(),
    ;

    /// Assign the velocity directly, without clamping.
    fn set_velocity(&mut self, new_velocity: &Point)
        ensures
            final(self).spec_velocity() == *new_velocity,
            final(self).spec_max_velocity() == old(self).spec_max_velocity(),
            final(self).spec_point() == old(self).spec_point(),
            final(self).spec_size() == old(self).spec_size(),
            final(self).spec_origin() == old(self).spec_origin(),
    {
        self.velocity_mut().set(new_velocity);
    }

    /// Assign the horizontal velocity component directly, without
    /// clamping.
    fn set_velocity_x(&mut self, val: Fixed)
        ensures
            final(self).spec_velocity() == (Point { x: val, y: old(self).spec_velocity().y }),
            final(self).spec_max_velocity() == old(self).spec_max_velocity(),
            final(self).spec_point() == old(self).spec_point(),
            final(self).spec_size() == old(self).spec_size(),
            final(self).spec_origin() == old(self).spec_origin(),
    {
        self.velocity_mut().set_x(val);
    }

    /// Assign the vertical velocity component directly, without clamping.
    fn set_velocity_y(&mut self, val: Fixed)
        ensures
            final(self).spec_velocity() == (Point { x: old(self).spec_velocity().x, y: val }),
            final(self).spec_max_velocity() == old(self).spec_max_velocity(),
            final(self).spec_point() == old(self).spec_point(),
            final(self).spec_size() == old(self).spec_size(),
            final(self).spec_origin() == old(self).spec_origin(),
    {
        self.velocity_mut().set_y(val);
    }

    /// Add `incr_velocity` to the stored velocity component-wise, then
    /// clamp each component to the ceiling's band `[-max, max]`. With a
    /// non-negative ceiling, the clamped velocity never exceeds the
    /// ceiling in magnitude.
    fn add_velocity(&mut self, incr_velocity: &Point)
        requires
            i64::MIN <= old(self).spec_velocity().x@ + incr_velocity.x@ <= i64::MAX,
            i64::MIN <= old(self).spec_velocity().y@ + incr_velocity.y@ <= i64::MAX,
            old(self).spec_max_velocity().x@ != i64::MIN,
            old(self).spec_max_velocity().y@ != i64::MIN,
        ensures
            final(self).spec_velocity().x@ == clamp_mag(
                old(self).spec_velocity().x@ + incr_velocity.x@,
                old(self).spec_max_velocity().x@,
            ),
            final(self).spec_velocity().y@ == clamp_mag(
                old(self).spec_velocity().y@ + incr_velocity.y@,
                old(self).spec_max_velocity().y@,
            ),
            old(self).spec_max_velocity().x@ >= 0 ==> abs(final(self).spec_velocity().x@)
                <= old(self).spec_max_velocity().x@,
            old(self).spec_max_velocity().y@ >= 0 ==> abs(final(self).spec_velocity().y@)
                <= old(self).spec_max_velocity().y@,
            final(self).spec_max_velocity() == old(self).spec_max_velocity(),
            final(self).spec_point() == old(self).spec_point(),
            final(self).spec_size() == old(self).spec_size(),
            final(self).spec_origin() == old(self).spec_origin(),
    {
        self.velocity_mut().add(incr_velocity);
        if self.velocity().x.raw > self.max_velocity().x.raw {
            let new_x = self.max_velocity().x;
            self.velocity_mut().set_x(new_x);
        } else {
            let neg_max_x = self.max_velocity().x.negated();
            if self.velocity().x.raw < neg_max_x.raw {
                self.velocity_mut().set_x(neg_max_x);
            }
        }
        if self.velocity().y.raw > self.max_velocity().y.raw {
            let new_y = self.max_velocity().y;
            self.velocity_mut().set_y(new_y);
        } else {
            let neg_max_y = self.max_velocity().y.negated();
            if self.velocity().y.raw < neg_max_y.raw {
                self.velocity_mut().set_y(neg_max_y);
            }
        }
    }

    /// Move each velocity component towards zero by the matching
    /// component of `decr_velocity`: a friction primitive. A component
    /// never overshoots zero and never changes sign; if the decrement
    /// would carry it past zero it stops exactly at zero.
    fn decrease_velocity(&mut self, decr_velocity: &Point)
        requires
            i64::MIN <= old(self).spec_velocity().x@ - decr_velocity.x@ <= i64::MAX,
            i64::MIN <= old(self).spec_velocity().x@ + decr_velocity.x@ <= i64::MAX,
            i64::MIN <= old(self).spec_velocity().y@ - decr_velocity.y@ <= i64::MAX,
            i64::MIN <= old(self).spec_velocity().y@ + decr_velocity.y@ <= i64::MAX,
        ensures
            final(self).spec_velocity().x@ == damp_mag(
                old(self).spec_velocity().x@,
                decr_velocity.x@,
            ),
            final(self).spec_velocity().y@ == damp_mag(
                old(self).spec_velocity().y@,
                decr_velocity.y@,
            ),
            decr_velocity.x@ >= 0 && old(self).spec_velocity().x@ >= 0
                ==> 0 <= final(self).spec_velocity().x@ <= old(self).spec_velocity().x@,
            decr_velocity.x@ >= 0 && old(self).spec_velocity().x@ <= 0
                ==> old(self).spec_velocity().x@ <= final(self).spec_velocity().x@ <= 0,
            decr_velocity.y@ >= 0 && old(self).spec_velocity().y@ >= 0
                ==> 0 <= final(self).spec_velocity().y@ <= old(self).spec_velocity().y@,
            decr_velocity.y@ >= 0 && old(self).spec_velocity().y@ <= 0
                ==> old(self).spec_velocity().y@ <= final(self).spec_velocity().y@ <= 0,
            final(self).spec_max_velocity() == old(self).spec_max_velocity(),
            final(self).spec_point() == old(self).spec_point(),
            final(self).spec_size() == old(self).spec_size(),
            final(self).spec_origin() == old(self).spec_origin(),
    {
        let new_velocity = {
            let velocity = *self.velocity();
            let new_x = if velocity.x.raw > 0 {
                let nx = velocity.x.minus(decr_velocity.x);
                if nx.raw > 0 {
                    nx
                } else {
                    Fixed::zero()
                }
            } else if velocity.x.raw < 0 {
                let nx = velocity.x.plus(decr_velocity.x);
                if nx.raw < 0 {
                    nx
                } else {
                    Fixed::zero()
                }
            } else {
                Fixed::zero()
            };
            let new_y = if velocity.y.raw > 0 {
                let ny = velocity.y.minus(decr_velocity.y);
                if ny.raw > 0 {
                    ny
                } else {
                    Fixed::zero()
                }
            } else if velocity.y.raw < 0 {
                let ny = velocity.y.plus(decr_velocity.y);
                if ny.raw < 0 {
                    ny
                } else {
                    Fixed::zero()
                }
            } else {
                Fixed::zero()
            };
            Point::new(new_x, new_y)
        };
        self.velocity_mut().set(&new_velocity);
    }

    /// Set the velocity to the zero vector.
    fn clear_velocity(&mut self)
        ensures
            final(self).spec_velocity() == (Point { x: Fixed { raw: 0 }, y: Fixed { raw: 0 } }),
            final(self).spec_max_velocity() == old(self).spec_max_velocity(),
            final(self).spec_point() == old(self).spec_point(),
            final(self).spec_size() == old(self).spec_size(),
            final(self).spec_origin() == old(self).spec_origin(),
    {
        let zero_velocity = Point::new(Fixed::zero(), Fixed::zero());
        self.velocity_mut().set(&zero_velocity);
    }
}

} // verus!
