//! An absolute position in 2D space.

use vstd::prelude::*;
use crate::fixed::{div_trunc, round_unit_spec, units_trunc, Fixed};

verus! {

/// A position: two fixed-point coordinates. Structurally identical to
/// [`crate::vector::Vector`], but semantically an absolute location rather
/// than a displacement; keeping the two apart prevents accidental mixups.
#[derive(Clone, Copy, PartialEq, Eq, Structural, Debug)]
pub struct Point {
    pub x: Fixed,
    pub y: Fixed,
}

/// Sum of the `x` components of a sequence of points.
pub open spec fn sum_x(s: Seq<&Point>) -> int
    decreases s.len(),
{
    if s.len() == 0 {
        0
    } else {
        sum_x(s.drop_last()) + s.last().x@
    }
}

/// Sum of the `y` components of a sequence of points.
pub open spec fn sum_y(s: Seq<&Point>) -> int
    decreases s.len(),
{
    if s.len() == 0 {
        0
    } else {
        sum_y(s.drop_last()) + s.last().y@
    }
}

/// Every prefix sum of the sequence stays within `i64` range, so the
/// accumulating loop in [`Point::combine`] cannot overflow.
pub open spec fn prefix_sums_fit(s: Seq<&Point>) -> bool {
    forall|i: int|
        0 <= i <= s.len() ==> {
            &&& i64::MIN <= sum_x(#[trigger] s.take(i)) <= i64::MAX
            &&& i64::MIN <= sum_y(s.take(i)) <= i64::MAX
        }
}

/// Summing distributes over concatenation, so accumulating a batch of
/// points in groups — in any grouping — gives the same totals as one
/// pass over all of them.
pub proof fn lemma_sum_append(s: Seq<&Point>, t: Seq<&Point>)
    ensures
        sum_x(s + t) == sum_x(s) + sum_x(t),
        sum_y(s + t) == sum_y(s) + sum_y(t),
    decreases t.len(),
{
    if t.len() == 0 {
        assert(s + t == s);
    } else {
        lemma_sum_append(s, t.drop_last());
        assert((s + t).drop_last() == s + t.drop_last());
        assert((s + t).last() == t.last());
    }
}

impl Point {
    /// A new point with the given coordinates.
    pub fn new(x: Fixed, y: Fixed) -> (r: Point)
        ensures
            r.x == x,
            r.y == y,
    {
        Point { x, y }
    }

    /// The component-wise sum of all the given points.
    pub fn combine(points: Vec<&Point>) -> (r: Point)
        requires
            prefix_sums_fit(points@),
        ensures
            r.x@ == sum_x(points@),
            r.y@ == sum_y(points@),
    {
        let mut point_acc: Point = Point::new(Fixed::zero(), Fixed::zero());
        let ghost s = points@;
        let mut i: usize = 0;
        while i < points.len()
            invariant
                0 <= i <= s.len(),
                s == points@,
                prefix_sums_fit(s),
                point_acc.x@ == sum_x(s.take(i as int)),
                point_acc.y@ == sum_y(s.take(i as int)),
            decreases s.len() - i,
        {
            proof {
                assert(s.take(i + 1).drop_last() == s.take(i as int));
                assert(s.take(i + 1).last() == s[i as int]);
            }
            point_acc.add(points[i]);
            i = i + 1;
        }
        proof {
            assert(s.take(s.len() as int) == s);
        }
        point_acc
    }

    /// Copy the coordinates of `point` into `self`.
    pub fn set(&mut self, point: &Point)
        ensures
            *final(self) == *point,
    {
        self.x = point.x;
        self.y = point.y;
    }

    /// Set the `x` coordinate.
    pub fn set_x(&mut self, value: Fixed)
        ensures
            final(self).x == value,
            final(self).y == old(self).y,
    {
        self.x = value;
    }

    /// Set the `y` coordinate.
    pub fn set_y(&mut self, value: Fixed)
        ensures
            final(self).x == old(self).x,
            final(self).y == value,
    {
        self.y = value;
    }

    /// Add the coordinates of `point` to `self`, component-wise.
    pub fn add(&mut self, point: &Point)
        requires
            i64::MIN <= old(self).x@ + point.x@ <= i64::MAX,
            i64::MIN <= old(self).y@ + point.y@ <= i64::MAX,
        ensures
            final(self).x@ == old(self).x@ + point.x@,
            final(self).y@ == old(self).y@ + point.y@,
    {
        self.x = self.x.plus(point.x);
        self.y = self.y.plus(point.y);
    }

    /// The component-wise sum of the two points, as a new point.
    pub fn plus(&self, other: &Point) -> (r: Point)
        requires
            i64::MIN <= self.x@ + other.x@ <= i64::MAX,
            i64::MIN <= self.y@ + other.y@ <= i64::MAX,
        ensures
            r.x@ == self.x@ + other.x@,
            r.y@ == self.y@ + other.y@,
    {
        Point::new(self.x.plus(other.x), self.y.plus(other.y))
    }

    /// The component-wise difference of the two points, as a new point.
    pub fn sub(&self, other: &Point) -> (r: Point)
        requires
            i64::MIN <= self.x@ - other.x@ <= i64::MAX,
            i64::MIN <= self.y@ - other.y@ <= i64::MAX,
        ensures
            r.x@ == self.x@ - other.x@,
            r.y@ == self.y@ - other.y@,
    {
        Point::new(self.x.minus(other.x), self.y.minus(other.y))
    }

    /// The component-wise fixed-point product of the two points.
    pub fn mul(&self, other: &Point) -> (r: Point)
        requires
            i64::MIN <= self.x@ * other.x@ <= i64::MAX,
            i64::MIN <= self.y@ * other.y@ <= i64::MAX,
        ensures
            r.x@ == units_trunc(self.x@ * other.x@),
            r.y@ == units_trunc(self.y@ * other.y@),
    {
        Point::new(self.x.times(other.x), self.y.times(other.y))
    }

    /// The component-wise fixed-point quotient of the two points.
    pub fn div(&self, other: &Point) -> (r: Point)
        requires
            other.x@ != 0,
            other.y@ != 0,
            -i64::MAX <= self.x@ * crate::fixed::SCALE <= i64::MAX,
            -i64::MAX <= self.y@ * crate::fixed::SCALE <= i64::MAX,
        ensures
            r.x@ == div_trunc(self.x@ * crate::fixed::SCALE, other.x@),
            r.y@ == div_trunc(self.y@ * crate::fixed::SCALE, other.y@),
    {
        Point::new(self.x.divided_by(other.x), self.y.divided_by(other.y))
    }

    /// The coordinates as an `(x, y)` pair.
    pub fn as_tup(&self) -> (r: (Fixed, Fixed))
        ensures
            r.0 == self.x,
            r.1 == self.y,
    {
        (self.x, self.y)
    }

    /// A new point with both coordinates negated.
    pub fn inverted(&self) -> (r: Point)
        requires
            self.x@ != i64::MIN,
            self.y@ != i64::MIN,
        ensures
            r.x@ == -self.x@,
            r.y@ == -self.y@,
    {
        Point::new(self.x.negated(), self.y.negated())
    }

    /// Negate both coordinates in place.
    pub fn invert(&mut self)
        requires
            old(self).x@ != i64::MIN,
            old(self).y@ != i64::MIN,
        ensures
            final(self).x@ == -old(self).x@,
            final(self).y@ == -old(self).y@,
    {
        self.x = self.x.negated();
        self.y = self.y.negated();
    }

    /// A new point with both coordinates multiplied by `mult`.
    pub fn mult_axes_by(&self, mult: Fixed) -> (r: Point)
        requires
            i64::MIN <= self.x@ * mult@ <= i64::MAX,
            i64::MIN <= self.y@ * mult@ <= i64::MAX,
        ensures
            r.x@ == units_trunc(self.x@ * mult@),
            r.y@ == units_trunc(self.y@ * mult@),
    {
        Point::new(self.x.times(mult), self.y.times(mult))
    }

    /// Round both coordinates to the nearest whole unit.
    pub fn round(&mut self)
        requires
            i64::MIN + crate::fixed::SCALE <= old(self).x@ <= i64::MAX - crate::fixed::SCALE,
            i64::MIN + crate::fixed::SCALE <= old(self).y@ <= i64::MAX - crate::fixed::SCALE,
        ensures
            final(self).x@ == round_unit_spec(old(self).x@),
            final(self).y@ == round_unit_spec(old(self).y@),
    {
        self.x = self.x.round_unit();
        self.y = self.y.round_unit();
    }
}

} // verus!
