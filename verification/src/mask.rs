//! Rectangle geometry and intersection, derived from a point, a size and
//! an origin.

use vstd::prelude::*;
use vstd::math::abs;
use crate::fixed::{half_trunc, round_unit_spec, Fixed, SCALE};
use crate::origin::{offset_x, offset_y, Origin};
use crate::point::Point;
use crate::sides::{Side, SideCollection};
use crate::size::Size;

verus! {

/// One coordinate axis stays clear of the `i64` limits: every derived side
/// coordinate lies within `c` plus or minus twice the extent's magnitude,
/// and a whole unit of margin is kept for rounding.
pub open spec fn axis_fits(c: int, e: int) -> bool {
    &&& i64::MIN + SCALE <= c - 2 * abs(e)
    &&& c + 2 * abs(e) <= i64::MAX - SCALE
}

/// The mask's derived geometry cannot overflow `i64` arithmetic.
pub open spec fn mask_fits(p: Point, s: Size) -> bool {
    axis_fits(p.x@, s.w@) && axis_fits(p.y@, s.h@)
}

/// The `x` coordinate of the rectangle's top-left corner.
pub open spec fn spec_top_left_x(p: Point, s: Size, o: Origin) -> int {
    p.x@ - offset_x(o, s.w@)
}

/// The `y` coordinate of the rectangle's top-left corner.
pub open spec fn spec_top_left_y(p: Point, s: Size, o: Origin) -> int {
    p.y@ - offset_y(o, s.h@)
}

/// The four side coordinates `(top, bottom, left, right)` of the rectangle
/// described by a point, a size and an origin.
pub open spec fn spec_sides(p: Point, s: Size, o: Origin) -> (int, int, int, int) {
    (
        spec_top_left_y(p, s, o),
        spec_top_left_y(p, s, o) + s.h@,
        spec_top_left_x(p, s, o),
        spec_top_left_x(p, s, o) + s.w@,
    )
}

/// The half-open overlap rule on one axis, exactly as the executable test
/// applies it: interval `a` starts inside `b`, or starts at or before `b`
/// and reaches past `b`'s start. Touching edges do not overlap.
pub open spec fn spec_axis_overlap(a_lo: int, a_hi: int, b_lo: int, b_hi: int) -> bool {
    ||| (a_lo >= b_lo && a_lo < b_hi)
    ||| (a_lo <= b_lo && a_hi > b_lo)
}

/// Two side collections overlap when both their horizontal and their
/// vertical intervals overlap under [`spec_axis_overlap`].
pub open spec fn spec_sides_intersect(
    a: (int, int, int, int),
    b: (int, int, int, int),
) -> bool {
    spec_axis_overlap(a.2, a.3, b.2, b.3) && spec_axis_overlap(a.0, a.1, b.0, b.1)
}

/// Two masks intersect when they cover the very same rectangle or their
/// side intervals overlap on both axes.
pub open spec fn spec_intersects(a: (int, int, int, int), b: (int, int, int, int)) -> bool {
    a == b || spec_sides_intersect(a, b)
}

/// All four side coordinates rounded to the nearest whole unit.
pub open spec fn spec_round_sides(a: (int, int, int, int)) -> (int, int, int, int) {
    (round_unit_spec(a.0), round_unit_spec(a.1), round_unit_spec(a.2), round_unit_spec(a.3))
}

/// The origin offset never exceeds the extent's magnitude on either axis.
pub proof fn lemma_offset_bounds(o: Origin, e: int)
    ensures
        -abs(e) <= offset_x(o, e) <= abs(e),
        -abs(e) <= offset_y(o, e) <= abs(e),
{
}

/// The capability of having a rectangle: a reference point, a size and an
/// origin anchor. Everything else — corners, sides, intersection — is
/// derived from those three, fresh at every query.
pub trait Mask: Sized {
    /// The stored reference point, for specifications.
    spec fn spec_point(&self) -> Point;

    /// The stored size, for specifications.
    spec fn spec_size(&self) -> Size;

    /// The stored origin, for specifications.
    spec fn spec_origin(&self) -> Origin;

    /// The stored reference point.
    fn point(&self) -> (r: &Point)
        ensures
            *r == self.spec_point(),
    ;

    /// Mutable access to the reference point; the size and origin are
    /// untouched.
    fn point_mut(&mut self) -> (r: &mut Point)
        ensures
            *r == old(self).spec_point(),
            final(self).spec_point() == *final(r),
            final(self).spec_size() == old(self).spec_size(),
            final(self).spec_origin() == old(self).spec_origin(),
    ;

    /// The stored size.
    fn size(&self) -> (r: &Size)
        ensures
            *r == self.spec_size(),
    ;

    /// The stored origin.
    fn origin(&self) -> (r: &Origin)
        ensures
            *r == self.spec_origin(),
    ;

    /// The half-open overlap test on both axes, applied to two side
    /// collections.
    fn sides_intersect(sides_one: SideCollection, sides_two: SideCollection) -> (r: bool)
        ensures
            r == spec_sides_intersect(sides_one@, sides_two@),
    {
        ((sides_one.left.raw >= sides_two.left.raw && sides_one.left.raw < sides_two.right.raw)
            || (sides_one.left.raw <= sides_two.left.raw
                && sides_one.right.raw > sides_two.left.raw)) && ((sides_one.top.raw
            >= sides_two.top.raw && sides_one.top.raw < sides_two.bottom.raw) || (
        sides_one.top.raw <= sides_two.top.raw && sides_one.bottom.raw > sides_two.top.raw))
    }

    /// Whether the point lies strictly inside the rectangle; points on an
    /// edge do not count.
    fn intersects_point(&self, point: &Point) -> (r: bool)
        requires
            mask_fits(self.spec_point(), self.spec_size()),
        ensures
            r == {
                let s = spec_sides(self.spec_point(), self.spec_size(), self.spec_origin());
                point.x@ > s.2 && point.x@ < s.3 && point.y@ > s.0 && point.y@ < s.1
            },
    {
        let sides = self.sides();
        point.x.raw > sides.left.raw && point.x.raw < sides.right.raw && point.y.raw
            > sides.top.raw && point.y.raw < sides.bottom.raw
    }

    /// The rectangle's top-left corner: the stored point shifted back by
    /// the origin's offset, exactly one table row per origin variant.
    fn top_left(&self) -> (r: Point)
        requires
            mask_fits(self.spec_point(), self.spec_size()),
        ensures
            r.x@ == spec_top_left_x(self.spec_point(), self.spec_size(), self.spec_origin()),
            r.y@ == spec_top_left_y(self.spec_point(), self.spec_size(), self.spec_origin()),
    {
        proof {
            lemma_offset_bounds(self.spec_origin(), self.spec_size().w@);
            lemma_offset_bounds(self.spec_origin(), self.spec_size().h@);
        }
        let point = *self.point();
        let size = *self.size();
        match *self.origin() {
            Origin::TopLeft => Point::new(point.x, point.y),
            Origin::TopRight => Point::new(point.x.minus(size.w), point.y),
            Origin::TopCenter => Point::new(point.x.minus(size.w.half()), point.y),
            Origin::BottomLeft => Point::new(point.x, point.y.minus(size.h)),
            Origin::BottomRight => Point::new(point.x.minus(size.w), point.y.minus(size.h)),
            Origin::BottomCenter => Point::new(
                point.x.minus(size.w.half()),
                point.y.minus(size.h),
            ),
            Origin::CenterLeft => Point::new(point.x, point.y.minus(size.h.half())),
            Origin::CenterRight => Point::new(point.x.minus(size.w), point.y.minus(size.h.half())),
            Origin::Center => Point::new(point.x.minus(size.w.half()), point.y.minus(size.h.half())),
        }
    }

    /// The rectangle's top-right corner.
    fn top_right(&self) -> (r: Point)
        requires
            mask_fits(self.spec_point(), self.spec_size()),
        ensures
            r.x@ == spec_top_left_x(self.spec_point(), self.spec_size(), self.spec_origin())
                + self.spec_size().w@,
            r.y@ == spec_top_left_y(self.spec_point(), self.spec_size(), self.spec_origin()),
    {
        proof {
            lemma_offset_bounds(self.spec_origin(), self.spec_size().w@);
        }
        let top_left = self.top_left();
        Point::new(top_left.x.plus(self.size().w), top_left.y)
    }

    /// The midpoint of the rectangle's top edge.
    fn top_center(&self) -> (r: Point)
        requires
            mask_fits(self.spec_point(), self.spec_size()),
        ensures
            r.x@ == spec_top_left_x(self.spec_point(), self.spec_size(), self.spec_origin())
                + half_trunc(self.spec_size().w@),
            r.y@ == spec_top_left_y(self.spec_point(), self.spec_size(), self.spec_origin()),
    {
        proof {
            lemma_offset_bounds(self.spec_origin(), self.spec_size().w@);
        }
        let top_left = self.top_left();
        Point::new(top_left.x.plus(self.size().w.half()), top_left.y)
    }

    /// The rectangle's bottom-left corner.
    fn bottom_left(&self) -> (r: Point)
        requires
            mask_fits(self.spec_point(), self.spec_size()),
        ensures
            r.x@ == spec_top_left_x(self.spec_point(), self.spec_size(), self.spec_origin()),
            r.y@ == spec_top_left_y(self.spec_point(), self.spec_size(), self.spec_origin())
                + self.spec_size().h@,
    {
        proof {
            lemma_offset_bounds(self.spec_origin(), self.spec_size().h@);
        }
        let top_left = self.top_left();
        Point::new(top_left.x, top_left.y.plus(self.size().h))
    }

    /// The rectangle's bottom-right corner.
    fn bottom_right(&self) -> (r: Point)
        requires
            mask_fits(self.spec_point(), self.spec_size()),
        ensures
            r.x@ == spec_top_left_x(self.spec_point(), self.spec_size(), self.spec_origin())
                + self.spec_size().w@,
            r.y@ == spec_top_left_y(self.spec_point(), self.spec_size(), self.spec_origin())
                + self.spec_size().h@,
    {
        proof {
            lemma_offset_bounds(self.spec_origin(), self.spec_size().w@);
            lemma_offset_bounds(self.spec_origin(), self.spec_size().h@);
        }
        let top_left = self.top_left();
        Point::new(top_left.x.plus(self.size().w), top_left.y.plus(self.size().h))
    }

    /// The midpoint of the rectangle's bottom edge.
    fn bottom_center(&self) -> (r: Point)
        requires
            mask_fits(self.spec_point(), self.spec_size()),
        ensures
            r.x@ == spec_top_left_x(self.spec_point(), self.spec_size(), self.spec_origin())
                + half_trunc(self.spec_size().w@),
            r.y@ == spec_top_left_y(self.spec_point(), self.spec_size(), self.spec_origin())
                + self.spec_size().h@,
    {
        proof {
            lemma_offset_bounds(self.spec_origin(), self.spec_size().w@);
            lemma_offset_bounds(self.spec_origin(), self.spec_size().h@);
        }
        let top_left = self.top_left();
        Point::new(top_left.x.plus(self.size().w.half()), top_left.y.plus(self.size().h))
    }

    /// The midpoint of the rectangle's left edge.
    fn center_left(&self) -> (r: Point)
        requires
            mask_fits(self.spec_point(), self.spec_size()),
        ensures
            r.x@ == spec_top_left_x(self.spec_point(), self.spec_size(), self.spec_origin()),
            r.y@ == spec_top_left_y(self.spec_point(), self.spec_size(), self.spec_origin())
                + half_trunc(self.spec_size().h@),
    {
        proof {
            lemma_offset_bounds(self.spec_origin(), self.spec_size().h@);
        }
        let top_left = self.top_left();
        Point::new(top_left.x, top_left.y.plus(self.size().h.half()))
    }

    /// The midpoint of the rectangle's right edge.
    fn center_right(&self) -> (r: Point)
        requires
            mask_fits(self.spec_point(), self.spec_size()),
        ensures
            r.x@ == spec_top_left_x(self.spec_point(), self.spec_size(), self.spec_origin())
                + self.spec_size().w@,
            r.y@ == spec_top_left_y(self.spec_point(), self.spec_size(), self.spec_origin())
                + half_trunc(self.spec_size().h@),
    {
        proof {
            lemma_offset_bounds(self.spec_origin(), self.spec_size().w@);
            lemma_offset_bounds(self.spec_origin(), self.spec_size().h@);
        }
        let top_left = self.top_left();
        Point::new(top_left.x.plus(self.size().w), top_left.y.plus(self.size().h.half()))
    }

    /// The stored point shifted by half the size on each axis. Note that
    /// this starts from the stored point, not from the top-left corner,
    /// so it names the rectangle's middle only for a top-left anchored
    /// mask.
    fn center(&self) -> (r: Point)
        requires
            mask_fits(self.spec_point(), self.spec_size()),
        ensures
            r.x@ == self.spec_point().x@ + half_trunc(self.spec_size().w@),
            r.y@ == self.spec_point().y@ + half_trunc(self.spec_size().h@),
    {
        let center_offset = self.size().center();
        Point::new(self.point().x.plus(center_offset.x), self.point().y.plus(center_offset.y))
    }

    /// A single side coordinate: `Top` and `Left` come straight from the
    /// top-left corner, `Bottom` adds the height, `Right` adds the width.
    fn side(&self, side: Side) -> (r: Fixed)
        requires
            mask_fits(self.spec_point(), self.spec_size()),
        ensures
            r@ == {
                let s = spec_sides(self.spec_point(), self.spec_size(), self.spec_origin());
                match side {
                    Side::Top => s.0,
                    Side::Bottom => s.1,
                    Side::Left => s.2,
                    Side::Right => s.3,
                }
            },
    {
        proof {
            lemma_offset_bounds(self.spec_origin(), self.spec_size().w@);
            lemma_offset_bounds(self.spec_origin(), self.spec_size().h@);
        }
        let top_left = self.top_left();
        match side {
            Side::Top => top_left.y,
            Side::Bottom => top_left.y.plus(self.size().h),
            Side::Left => top_left.x,
            Side::Right => top_left.x.plus(self.size().w),
        }
    }

    /// All four side coordinates, always in the order top, bottom, left,
    /// right. For non-negative sizes, the bottom never lies above the top
    /// and the right never lies left of the left side.
    fn sides(&self) -> (r: SideCollection)
        requires
            mask_fits(self.spec_point(), self.spec_size()),
        ensures
            r@ == spec_sides(self.spec_point(), self.spec_size(), self.spec_origin()),
            self.spec_size().h@ >= 0 ==> r.bottom@ >= r.top@,
            self.spec_size().w@ >= 0 ==> r.right@ >= r.left@,
    {
        SideCollection::new(
            self.side(Side::Top),
            self.side(Side::Bottom),
            self.side(Side::Left),
            self.side(Side::Right),
        )
    }
}

/// Whether the two masks cover exactly the same rectangle, side for side,
/// with no tolerance.
pub fn is_same<A: Mask, B: Mask>(one: &A, other: &B) -> (r: bool)
    requires
        mask_fits(one.spec_point(), one.spec_size()),
        mask_fits(other.spec_point(), other.spec_size()),
    ensures
        r == (spec_sides(one.spec_point(), one.spec_size(), one.spec_origin()) == spec_sides(
            other.spec_point(),
            other.spec_size(),
            other.spec_origin(),
        )),
{
    one.sides() == other.sides()
}

/// Whether the two masks' rectangles intersect: the same rectangle, or
/// side intervals overlapping on both axes.
pub fn intersects<A: Mask, B: Mask>(one: &A, other: &B) -> (r: bool)
    requires
        mask_fits(one.spec_point(), one.spec_size()),
        mask_fits(other.spec_point(), other.spec_size()),
    ensures
        r == spec_intersects(
            spec_sides(one.spec_point(), one.spec_size(), one.spec_origin()),
            spec_sides(other.spec_point(), other.spec_size(), other.spec_origin()),
        ),
{
    is_same(one, other) || A::sides_intersect(one.sides(), other.sides())
}

/// Like [`intersects`], but with all side coordinates first rounded to
/// the nearest whole unit, so sub-unit overlap is ignored.
pub fn intersects_round<A: Mask, B: Mask>(one: &A, other: &B) -> (r: bool)
    requires
        mask_fits(one.spec_point(), one.spec_size()),
        mask_fits(other.spec_point(), other.spec_size()),
    ensures
        r == {
            let a = spec_sides(one.spec_point(), one.spec_size(), one.spec_origin());
            let b = spec_sides(other.spec_point(), other.spec_size(), other.spec_origin());
            a == b || spec_sides_intersect(spec_round_sides(a), spec_round_sides(b))
        },
{
    is_same(one, other) || A::sides_intersect(one.sides().round(), other.sides().round())
}

/// Covering the same rectangle is reflexive: a mask is always the same as
/// itself.
pub proof fn lemma_is_same_reflexive(a: (int, int, int, int))
    ensures
        a == a,
        spec_intersects(a, a),
{
}

/// Covering the same rectangle is symmetric.
pub proof fn lemma_is_same_symmetric(a: (int, int, int, int), b: (int, int, int, int))
    ensures
        (a == b) == (b == a),
{
}

/// Two masks that cover the same rectangle always intersect.
pub proof fn lemma_is_same_intersects(a: (int, int, int, int), b: (int, int, int, int))
    requires
        a == b,
    ensures
        spec_intersects(a, b),
{
}

/// Side collections whose intervals are disjoint on either axis never
/// intersect, provided the rectangles have positive extent (a degenerate
/// zero-width interval sitting exactly on another's edge would still
/// count as overlapping under the half-open rule).
pub proof fn lemma_disjoint_never_intersects(a: (int, int, int, int), b: (int, int, int, int))
    requires
        a.0 < a.1 && a.2 < a.3,
        b.0 < b.1 && b.2 < b.3,
        a.3 <= b.2 || b.3 <= a.2 || a.1 <= b.0 || b.1 <= a.0,
    ensures
        !spec_intersects(a, b),
{
}

/// Side collections whose rectangles overlap by positive area on both
/// axes always intersect.
pub proof fn lemma_positive_overlap_intersects(a: (int, int, int, int), b: (int, int, int, int))
    requires
        a.2 < b.3 && b.2 < a.3,
        a.0 < b.1 && b.0 < a.1,
    ensures
        spec_intersects(a, b),
{
}

} // verus!
