//! Collision-checked incremental movement.
//!
//! The resolver advances an entity's position one whole unit at a time per
//! axis — horizontal motion first, fully resolved, then vertical — asking
//! a caller-supplied predicate at every candidate rectangle whether the
//! entity may stand there. A final pass tries the sub-unit remainder of
//! the velocity. Stepping unit by unit keeps fast entities from tunnelling
//! through thin obstacles, and resolving the axes independently lets an
//! entity slide along a wall: a blocked horizontal step does not block
//! vertical motion.

use vstd::prelude::*;
use vstd::math::abs;
use vstd::arithmetic::div_mod::lemma_fundamental_div_mod;
use vstd::arithmetic::div_mod::lemma_mod_bound;
use crate::fixed::{rem_unit_spec, Fixed, SCALE};
use crate::mask::Mask;
use crate::origin::Origin;
use crate::point::Point;
use crate::rect::Rect;
use crate::size::Size;
use crate::vector::Vector;
use crate::velocity::Velocity;

verus! {

/// The sign of a step direction.
pub enum Polarity {
    Pos,
    Neg,
    Null,
}

/// The sign as an integer: `1`, `-1` or `0`.
pub open spec fn spec_sign(p: Polarity) -> int {
    match p {
        Polarity::Pos => 1,
        Polarity::Neg => -1,
        Polarity::Null => 0,
    }
}

impl Polarity {
    /// The sign as an integer: `1`, `-1` or `0`.
    pub fn sign(&self) -> (r: i8)
        ensures
            r as int == spec_sign(*self),
    {
        match self {
            Polarity::Pos => 1,
            Polarity::Neg => -1,
            Polarity::Null => 0,
        }
    }
}

impl From<i32> for Polarity {
    /// The polarity of an integer: positive, negative or zero.
    fn from(num: i32) -> (r: Polarity) {
        if num > 0 {
            Polarity::Pos
        } else if num < 0 {
            Polarity::Neg
        } else {
            Polarity::Null
        }
    }
}

impl vstd::std_specs::convert::FromSpecImpl<i32> for Polarity {
    open spec fn obeys_from_spec() -> bool {
        true
    }

    open spec fn from_spec(num: i32) -> Polarity {
        if num > 0 {
            Polarity::Pos
        } else if num < 0 {
            Polarity::Neg
        } else {
            Polarity::Null
        }
    }
}

/// One whole-unit step along one axis, with a direction.
pub enum Step {
    X(Polarity),
    Y(Polarity),
}

impl Step {
    /// The step as a displacement: one signed unit on the step's axis,
    /// zero on the other.
    pub fn vector(&self) -> (r: Vector)
        ensures
            r.x@ == match *self {
                Step::X(pol) => spec_sign(pol) * SCALE,
                Step::Y(_) => 0,
            },
            r.y@ == match *self {
                Step::X(_) => 0,
                Step::Y(pol) => spec_sign(pol) * SCALE,
            },
    {
        let zero = Fixed::zero();
        match self {
            Step::X(pol) => Vector::new(Fixed::from_units(pol.sign() as i64), zero),
            Step::Y(pol) => Vector::new(zero, Fixed::from_units(pol.sign() as i64)),
        }
    }
}

/// One of the two coordinate axes, in the order the resolver works them.
pub enum Axis {
    X,
    Y,
}

impl Axis {
    /// A displacement of `value` along this axis and zero along the other.
    pub fn vector(&self, value: Fixed) -> (r: Vector)
        ensures
            r.x == match *self {
                Axis::X => value,
                Axis::Y => (Fixed { raw: 0 }),
            },
            r.y == match *self {
                Axis::X => (Fixed { raw: 0 }),
                Axis::Y => value,
            },
    {
        let zero = Fixed::zero();
        match self {
            Axis::X => Vector::new(value, zero),
            Axis::Y => Vector::new(zero, value),
        }
    }
}

/// The coordinates shifted by `d` along `axis`.
pub open spec fn axis_shift(x: int, y: int, axis: Axis, d: int) -> (int, int) {
    match axis {
        Axis::X => (x + d, y),
        Axis::Y => (x, y + d),
    }
}

/// The predicate `c` implements the decision rule `q`: whenever `c`
/// answers `b` for a rectangle with this size and origin, `b` is `q` of
/// the rectangle's position. A caller whose closure has an exact
/// postcondition can pick the matching `q` and read the resolver's result
/// off [`resolve_spec`].
pub open spec fn conforms<C: Fn(&Rect) -> bool>(
    c: C,
    size: Size,
    origin: Origin,
    q: spec_fn(int, int) -> bool,
) -> bool {
    forall|r: &Rect, b: bool|
        #[trigger] call_ensures(c, (r,), b) ==> r.size == size && r.origin == origin ==> b == q(
            r.point.x@,
            r.point.y@,
        )
}

/// Up to `n` whole-unit steps of `d` along `axis` from `(x, y)`: each
/// candidate that `q` accepts is committed, and the first rejection stops
/// the walk.
pub open spec fn resolve_steps(
    q: spec_fn(int, int) -> bool,
    x: int,
    y: int,
    axis: Axis,
    d: int,
    n: nat,
) -> (int, int)
    decreases n,
{
    if n == 0 {
        (x, y)
    } else {
        let c = axis_shift(x, y, axis, d);
        if q(c.0, c.1) {
            resolve_steps(q, c.0, c.1, axis, d, (n - 1) as nat)
        } else {
            (x, y)
        }
    }
}

/// One axis pass of the resolver: `|vel|` whole units plus one extra
/// probe, stepped under `q`, then one attempt with the sub-unit
/// remainder.
pub open spec fn resolve_axis_spec(
    q: spec_fn(int, int) -> bool,
    x: int,
    y: int,
    axis: Axis,
    vel: int,
) -> (int, int) {
    let sign = if vel > 0 {
        SCALE as int
    } else if vel < 0 {
        -(SCALE as int)
    } else {
        0
    };
    let steps = ((abs(vel) as int) / (SCALE as int) + 1) as nat;
    let p = resolve_steps(q, x, y, axis, sign, steps);
    let c = axis_shift(p.0, p.1, axis, rem_unit_spec(vel));
    if q(c.0, c.1) {
        c
    } else {
        p
    }
}

/// The whole resolver: the horizontal pass from the start position, then
/// the vertical pass from wherever the horizontal pass ended.
pub open spec fn resolve_spec(
    q: spec_fn(int, int) -> bool,
    x: int,
    y: int,
    vel_x: int,
    vel_y: int,
) -> (int, int) {
    let p = resolve_axis_spec(q, x, y, Axis::X, vel_x);
    resolve_axis_spec(q, p.0, p.1, Axis::Y, vel_y)
}

/// A stepping walk never touches the other axis's coordinate.
pub proof fn lemma_steps_keep_other_axis(
    q: spec_fn(int, int) -> bool,
    x: int,
    y: int,
    axis: Axis,
    d: int,
    n: nat,
)
    ensures
        match axis {
            Axis::X => resolve_steps(q, x, y, axis, d, n).1 == y,
            Axis::Y => resolve_steps(q, x, y, axis, d, n).0 == x,
        },
    decreases n,
{
    if n > 0 {
        let c = axis_shift(x, y, axis, d);
        if q(c.0, c.1) {
            lemma_steps_keep_other_axis(q, c.0, c.1, axis, d, (n - 1) as nat);
        }
    }
}

/// One axis pass moves only along its own axis: however the predicate
/// answers, the horizontal pass leaves the vertical coordinate exactly
/// where it was, and the other way round. This is what makes a blocked
/// axis unable to disturb the other — an entity slides along a wall.
pub proof fn lemma_axis_pass_keeps_other_axis(
    q: spec_fn(int, int) -> bool,
    x: int,
    y: int,
    axis: Axis,
    vel: int,
)
    ensures
        match axis {
            Axis::X => resolve_axis_spec(q, x, y, axis, vel).1 == y,
            Axis::Y => resolve_axis_spec(q, x, y, axis, vel).0 == x,
        },
{
    let sign = if vel > 0 {
        SCALE as int
    } else if vel < 0 {
        -(SCALE as int)
    } else {
        0
    };
    let steps = ((abs(vel) as int) / (SCALE as int) + 1) as nat;
    lemma_steps_keep_other_axis(q, x, y, axis, sign, steps);
}

/// The position has room for the whole velocity plus the resolver's two
/// extra probes on each axis, so no candidate can overflow.
pub open spec fn move_fits(p: Point, vel: Point) -> bool {
    &&& i64::MIN <= p.x@ - abs(vel.x@) - 2 * SCALE
    &&& p.x@ + abs(vel.x@) + 2 * SCALE <= i64::MAX
    &&& i64::MIN <= p.y@ - abs(vel.y@) - 2 * SCALE
    &&& p.y@ + abs(vel.y@) + 2 * SCALE <= i64::MAX
}

/// One axis pass: whole-unit steps in the velocity's direction while the
/// predicate accepts, one extra probe included, then the sub-unit
/// remainder.
fn resolve_axis<C: Fn(&Rect) -> bool>(
    can_move_to: &C,
    start: Point,
    size: Size,
    origin: Origin,
    axis: Axis,
    vel: Fixed,
) -> (r: Point)
    requires
        forall|rect: &Rect| #[trigger] call_requires(*can_move_to, (rect,)),
        match axis {
            Axis::X => i64::MIN <= start.x@ - abs(vel@) - 2 * SCALE && start.x@ + abs(vel@) + 2
                * SCALE <= i64::MAX,
            Axis::Y => i64::MIN <= start.y@ - abs(vel@) - 2 * SCALE && start.y@ + abs(vel@) + 2
                * SCALE <= i64::MAX,
        },
    ensures
        forall|q: spec_fn(int, int) -> bool|
            conforms(*can_move_to, size, origin, q) ==> (r.x@, r.y@) == resolve_axis_spec(
                q,
                start.x@,
                start.y@,
                axis,
                vel@,
            ),
        match axis {
            Axis::X => r.y == start.y && abs(r.x@ - start.x@) <= abs(vel@) + 2 * SCALE,
            Axis::Y => r.x == start.x && abs(r.y@ - start.y@) <= abs(vel@) + 2 * SCALE,
        },
        vel@ == 0 ==> r == start,
{
    proof {
        lemma_fundamental_div_mod(abs(vel@) as int, SCALE as int);
        lemma_mod_bound(abs(vel@) as int, SCALE as int);
    }
    let zero = Fixed::zero();
    let mut position = start;
    let abs_steps: u64 = vel.abs_units();
    let sign: Fixed = if vel.raw != 0 {
        vel.signum_unit()
    } else {
        zero
    };
    let rem: Fixed = vel.rem_unit();
    let ghost n_total: nat = (abs_steps + 1) as nat;
    let mut i: u64 = 0;
    let mut blocked = false;
    while i <= abs_steps && !blocked
        invariant
            forall|rect: &Rect| #[trigger] call_requires(*can_move_to, (rect,)),
            abs_steps == (abs(vel@) as int) / (SCALE as int),
            abs_steps * SCALE <= abs(vel@),
            sign@ == if vel@ > 0 {
                SCALE as int
            } else if vel@ < 0 {
                -(SCALE as int)
            } else {
                0
            },
            n_total == abs_steps + 1,
            i <= n_total,
            blocked ==> i >= 1,
            match axis {
                Axis::X => position.y == start.y && abs(position.x@ - start.x@) <= i * SCALE
                    && i64::MIN <= start.x@ - abs(vel@) - 2 * SCALE && start.x@ + abs(vel@) + 2
                    * SCALE <= i64::MAX,
                Axis::Y => position.x == start.x && abs(position.y@ - start.y@) <= i * SCALE
                    && i64::MIN <= start.y@ - abs(vel@) - 2 * SCALE && start.y@ + abs(vel@) + 2
                    * SCALE <= i64::MAX,
            },
            !blocked ==> forall|q: spec_fn(int, int) -> bool|
                conforms(*can_move_to, size, origin, q) ==> resolve_steps(
                    q,
                    start.x@,
                    start.y@,
                    axis,
                    sign@,
                    n_total,
                ) == resolve_steps(q, position.x@, position.y@, axis, sign@, (n_total - i) as nat),
            blocked ==> forall|q: spec_fn(int, int) -> bool|
                conforms(*can_move_to, size, origin, q) ==> resolve_steps(
                    q,
                    start.x@,
                    start.y@,
                    axis,
                    sign@,
                    n_total,
                ) == (position.x@, position.y@),
            vel@ == 0 ==> position == start,
        decreases n_total - i, (if blocked { 0int } else { 1int }),
    {
        let candidate = match axis {
            Axis::X => Point::new(position.x.plus(sign), position.y),
            Axis::Y => Point::new(position.x, position.y.plus(sign)),
        };
        let candidate_rect = Rect::new(candidate, size, origin);
        let ghost pre = position;
        let accepted = (*can_move_to)(&candidate_rect);
        proof {
            assert forall|q: spec_fn(int, int) -> bool|
                conforms(*can_move_to, size, origin, q) implies ({
                let n_rem: nat = (n_total - i) as nat;
                &&& accepted == q(
                    axis_shift(pre.x@, pre.y@, axis, sign@).0,
                    axis_shift(pre.x@, pre.y@, axis, sign@).1,
                )
                &&& resolve_steps(q, pre.x@, pre.y@, axis, sign@, n_rem) == (if accepted {
                    resolve_steps(
                        q,
                        axis_shift(pre.x@, pre.y@, axis, sign@).0,
                        axis_shift(pre.x@, pre.y@, axis, sign@).1,
                        axis,
                        sign@,
                        (n_rem - 1) as nat,
                    )
                } else {
                    (pre.x@, pre.y@)
                })
            }) by {
                assert(call_ensures(*can_move_to, (&candidate_rect,), accepted));
                assert(candidate_rect.size == size && candidate_rect.origin == origin);
                assert((candidate.x@, candidate.y@) == axis_shift(pre.x@, pre.y@, axis, sign@));
            }
        }
        if accepted {
            position = candidate;
        } else {
            blocked = true;
        }
        i = i + 1;
    }
    proof {
        if !blocked {
            assert forall|q: spec_fn(int, int) -> bool|
                conforms(*can_move_to, size, origin, q) implies resolve_steps(
                q,
                start.x@,
                start.y@,
                axis,
                sign@,
                n_total,
            ) == (position.x@, position.y@) by {
                assert(resolve_steps(q, position.x@, position.y@, axis, sign@, 0) == (
                    position.x@,
                    position.y@,
                ));
            }
        }
    }
    let candidate = match axis {
        Axis::X => Point::new(position.x.plus(rem), position.y),
        Axis::Y => Point::new(position.x, position.y.plus(rem)),
    };
    let candidate_rect = Rect::new(candidate, size, origin);
    let accepted = (*can_move_to)(&candidate_rect);
    proof {
        assert forall|q: spec_fn(int, int) -> bool|
            conforms(*can_move_to, size, origin, q) implies accepted == q(
            candidate.x@,
            candidate.y@,
        ) by {
            assert(call_ensures(*can_move_to, (&candidate_rect,), accepted));
        }
    }
    if accepted {
        candidate
    } else {
        position
    }
}

/// The capability of moving: anything that is a mask and carries a
/// velocity can be stepped and collision-resolved.
pub trait Movement: Mask + Velocity {
    /// Put the entity at `position`, leaving everything else — size,
    /// origin, velocity, ceiling — as it was. The moving defaults below
    /// write the resolved position through this, so their contracts can
    /// say that moving changes the position alone; `point_mut` cannot
    /// promise that much, since the mask capability knows nothing of a
    /// velocity.
    fn set_position(&mut self, position: Point)
        ensures
            final(self).spec_point() == position,
            final(self).spec_size() == old(self).spec_size(),
            final(self).spec_origin() == old(self).spec_origin(),
            final(self).spec_velocity() == old(self).spec_velocity(),
            final(self).spec_max_velocity() == old(self).spec_max_velocity(),
            final(self).spec_usable_velocity() == old(self).spec_usable_velocity(),
    ;

    /// Move one whole unit in one direction.
    fn step(&mut self, step: Step)
        requires
            i64::MIN + SCALE <= old(self).spec_point().x@ <= i64::MAX - SCALE,
            i64::MIN + SCALE <= old(self).spec_point().y@ <= i64::MAX - SCALE,
        ensures
            final(self).spec_point().x@ == old(self).spec_point().x@ + match step {
                Step::X(pol) => spec_sign(pol) * SCALE,
                Step::Y(_) => 0,
            },
            final(self).spec_point().y@ == old(self).spec_point().y@ + match step {
                Step::X(_) => 0,
                Step::Y(pol) => spec_sign(pol) * SCALE,
            },
            final(self).spec_size() == old(self).spec_size(),
            final(self).spec_origin() == old(self).spec_origin(),
            final(self).spec_velocity() == old(self).spec_velocity(),
            final(self).spec_max_velocity() == old(self).spec_max_velocity(),
            final(self).spec_usable_velocity() == old(self).spec_usable_velocity(),
    {
        let v = step.vector();
        let current = *self.point();
        let new_point = Point::new(current.x.plus(v.x), current.y.plus(v.y));
        self.set_position(new_point);
    }

    /// Resolve movement with the current usable velocity against
    /// `can_move_to` and move the entity to the accepted position. See
    /// [`Movement::get_move_while`] for the resolution rule; this is its
    /// mutating form. A predicate that needs to read other entities uses
    /// the non-mutating form instead, since this one borrows the entity
    /// exclusively.
    fn move_while<C: Fn(&Rect) -> bool>(&mut self, can_move_to: C)
        requires
            forall|rect: &Rect| #[trigger] call_requires(can_move_to, (rect,)),
            move_fits(old(self).spec_point(), old(self).spec_usable_velocity()),
        ensures
            forall|q: spec_fn(int, int) -> bool|
                conforms(can_move_to, old(self).spec_size(), old(self).spec_origin(), q) ==> (
                final(self).spec_point().x@,
                final(self).spec_point().y@,
                ) == resolve_spec(
                    q,
                    old(self).spec_point().x@,
                    old(self).spec_point().y@,
                    old(self).spec_usable_velocity().x@,
                    old(self).spec_usable_velocity().y@,
                ),
            old(self).spec_usable_velocity().x@ == 0 && old(self).spec_usable_velocity().y@ == 0
                ==> final(self).spec_point() == old(self).spec_point(),
            final(self).spec_size() == old(self).spec_size(),
            final(self).spec_origin() == old(self).spec_origin(),
            final(self).spec_velocity() == old(self).spec_velocity(),
            final(self).spec_max_velocity() == old(self).spec_max_velocity(),
            final(self).spec_usable_velocity() == old(self).spec_usable_velocity(),
    {
        let position = self.get_move_while(can_move_to);
        self.set_position(position);
    }

    /// Compute, without mutating the entity, the position the entity may
    /// move to under its usable velocity: per axis — horizontal first —
    /// up to the velocity's whole-unit count plus one probe steps of one
    /// unit each, committing every candidate rectangle `can_move_to`
    /// accepts and stopping the axis at the first rejection, then one
    /// attempt with the sub-unit remainder. For any decision rule `q`
    /// that `can_move_to` implements, the result is exactly
    /// [`resolve_spec`] of `q`.
    fn get_move_while<C: Fn(&Rect) -> bool>(&self, can_move_to: C) -> (r: Point)
        requires
            forall|rect: &Rect| #[trigger] call_requires(can_move_to, (rect,)),
            move_fits(self.spec_point(), self.spec_usable_velocity()),
        ensures
            forall|q: spec_fn(int, int) -> bool|
                conforms(can_move_to, self.spec_size(), self.spec_origin(), q) ==> (r.x@, r.y@)
                    == resolve_spec(
                    q,
                    self.spec_point().x@,
                    self.spec_point().y@,
                    self.spec_usable_velocity().x@,
                    self.spec_usable_velocity().y@,
                ),
            self.spec_usable_velocity().x@ == 0 && self.spec_usable_velocity().y@ == 0 ==> r
                == self.spec_point(),
    {
        let vel = self.usable_velocity();
        let after_x = resolve_axis(
            &can_move_to,
            *self.point(),
            *self.size(),
            *self.origin(),
            Axis::X,
            vel.x,
        );
        let after_y = resolve_axis(&can_move_to, after_x, *self.size(), *self.origin(), Axis::Y, vel.y);
        after_y
    }
}

} // verus!
