//! The four absolute side coordinates of a mask's rectangle.

use vstd::prelude::*;
use crate::fixed::{Fixed, round_unit_spec, SCALE};

verus! {

/// One of the four sides of a rectangle.
#[derive(Clone, Copy, PartialEq, Eq, Structural, Debug)]
pub enum Side {
    Top,
    Bottom,
    Left,
    Right,
}

/// The four absolute side coordinates of a rectangle at query time:
/// `top` and `bottom` on the vertical axis, `left` and `right` on the
/// horizontal axis. Two masks cover the same rectangle exactly when their
/// side collections are equal component for component.
#[derive(Clone, Copy, PartialEq, Eq, Structural, Debug)]
pub struct SideCollection {
    pub top: Fixed,
    pub bottom: Fixed,
    pub left: Fixed,
    pub right: Fixed,
}

impl View for SideCollection {
    /// `(top, bottom, left, right)`.
    type V = (int, int, int, int);

    open spec fn view(&self) -> (int, int, int, int) {
        (self.top@, self.bottom@, self.left@, self.right@)
    }
}

impl SideCollection {
    /// A new collection with the given side coordinates.
    pub fn new(top: Fixed, bottom: Fixed, left: Fixed, right: Fixed) -> (r: SideCollection)
        ensures
            r@ == (top@, bottom@, left@, right@),
    {
        SideCollection { top, bottom, left, right }
    }

    /// The sides as labelled entries, always in the order top, bottom,
    /// left, right — for callers that want to walk them.
    pub fn entries(&self) -> (r: Vec<(Side, Fixed)>)
        ensures
            r@ == seq![
                (Side::Top, self.top),
                (Side::Bottom, self.bottom),
                (Side::Left, self.left),
                (Side::Right, self.right),
            ],
    {
        let mut entries: Vec<(Side, Fixed)> = Vec::new();
        entries.push((Side::Top, self.top));
        entries.push((Side::Bottom, self.bottom));
        entries.push((Side::Left, self.left));
        entries.push((Side::Right, self.right));
        proof {
            assert(entries@ =~= seq![
                (Side::Top, self.top),
                (Side::Bottom, self.bottom),
                (Side::Left, self.left),
                (Side::Right, self.right),
            ]);
        }
        entries
    }

    /// A collection from the first four values of a list, in the order
    /// top, bottom, left, right; missing entries are zero.
    pub fn from_values(values: &Vec<Fixed>) -> (r: SideCollection)
        ensures
            r.top == if values@.len() > 0 { values@[0] } else { Fixed { raw: 0 } },
            r.bottom == if values@.len() > 1 { values@[1] } else { Fixed { raw: 0 } },
            r.left == if values@.len() > 2 { values@[2] } else { Fixed { raw: 0 } },
            r.right == if values@.len() > 3 { values@[3] } else { Fixed { raw: 0 } },
    {
        let zero = Fixed::from_raw(0);
        SideCollection::new(
            if values.len() > 0 { values[0] } else { zero },
            if values.len() > 1 { values[1] } else { zero },
            if values.len() > 2 { values[2] } else { zero },
            if values.len() > 3 { values[3] } else { zero },
        )
    }

    /// All four sides rounded to the nearest whole unit.
    pub fn round(&self) -> (r: SideCollection)
        requires
            i64::MIN + SCALE <= self.top@ <= i64::MAX - SCALE,
            i64::MIN + SCALE <= self.bottom@ <= i64::MAX - SCALE,
            i64::MIN + SCALE <= self.left@ <= i64::MAX - SCALE,
            i64::MIN + SCALE <= self.right@ <= i64::MAX - SCALE,
        ensures
            r@ == (
                round_unit_spec(self.top@),
                round_unit_spec(self.bottom@),
                round_unit_spec(self.left@),
                round_unit_spec(self.right@),
            ),
    {
        SideCollection::new(
            self.top.round_unit(),
            self.bottom.round_unit(),
            self.left.round_unit(),
            self.right.round_unit(),
        )
    }
}

} // verus!
