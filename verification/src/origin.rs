//! The anchor point a mask's stored position refers to.

use vstd::prelude::*;
use crate::fixed::half_trunc;

verus! {

/// Where inside its rectangle a mask's stored point sits. The stored point
/// is the rectangle's top-left corner shifted by the origin's offset, so
/// `top_left = point - offset(origin, size)`.
#[derive(Clone, Copy, PartialEq, Eq, Structural, Debug)]
pub enum Origin {
    TopLeft,
    TopRight,
    TopCenter,
    BottomLeft,
    BottomRight,
    BottomCenter,
    CenterLeft,
    CenterRight,
    Center,
}

/// The horizontal offset from the rectangle's left edge to the origin
/// anchor, for a rectangle of width `w`: zero on the left, `w` on the
/// right, half of `w` in the middle.
pub open spec fn offset_x(origin: Origin, w: int) -> int {
    match origin {
        Origin::TopLeft => 0,
        Origin::TopRight => w,
        Origin::TopCenter => half_trunc(w),
        Origin::BottomLeft => 0,
        Origin::BottomRight => w,
        Origin::BottomCenter => half_trunc(w),
        Origin::CenterLeft => 0,
        Origin::CenterRight => w,
        Origin::Center => half_trunc(w),
    }
}

/// The vertical offset from the rectangle's top edge to the origin anchor,
/// for a rectangle of height `h`.
pub open spec fn offset_y(origin: Origin, h: int) -> int {
    match origin {
        Origin::TopLeft => 0,
        Origin::TopRight => 0,
        Origin::TopCenter => 0,
        Origin::BottomLeft => h,
        Origin::BottomRight => h,
        Origin::BottomCenter => h,
        Origin::CenterLeft => half_trunc(h),
        Origin::CenterRight => half_trunc(h),
        Origin::Center => half_trunc(h),
    }
}

} // verus!
