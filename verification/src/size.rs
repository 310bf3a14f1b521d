//! The width and height of a rectangle.

use vstd::prelude::*;
use crate::fixed::{Fixed, half_trunc};
use crate::vector::Vector;

verus! {

/// A rectangle's extent: a width and a height. The geometry in
/// [`crate::mask`] expects both to be non-negative; construction does not
/// enforce it, so contracts that need it say so explicitly.
#[derive(Clone, Copy, PartialEq, Eq, Structural, Debug)]
pub struct Size {
    pub w: Fixed,
    pub h: Fixed,
}

impl Size {
    /// A new size with the given width and height.
    pub fn new(w: Fixed, h: Fixed) -> (r: Size)
        ensures
            r.w == w,
            r.h == h,
    {
        Size { w, h }
    }

    /// The offset from a rectangle's top-left corner to its center:
    /// half the width and half the height.
    pub fn center(&self) -> (r: Vector)
        ensures
            r.x@ == half_trunc(self.w@),
            r.y@ == half_trunc(self.h@),
    {
        Vector::new(self.w.half(), self.h.half())
    }
}

impl From<(Fixed, Fixed)> for Size {
    /// A size from a `(width, height)` pair.
    fn from(tup: (Fixed, Fixed)) -> (r: Size) {
        Size::new(tup.0, tup.1)
    }
}

impl vstd::std_specs::convert::FromSpecImpl<(Fixed, Fixed)> for Size {
    open spec fn obeys_from_spec() -> bool {
        true
    }

    open spec fn from_spec(tup: (Fixed, Fixed)) -> Size {
        Size { w: tup.0, h: tup.1 }
    }
}

} // verus!
