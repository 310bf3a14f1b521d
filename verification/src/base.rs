//! Shared component access for [`Point`] and [`Vector`].

use vstd::prelude::*;
use crate::fixed::Fixed;
use crate::point::Point;
use crate::vector::Vector;

verus! {

/// Anything with an `x` and a `y` fixed-point component. Both [`Point`] and
/// [`Vector`] implement it, so behaviour shared by the two (negation,
/// conversion) can be written once against this trait.
pub trait BaseVectorPoint: Sized {
    /// The `x` component, for specifications.
    spec fn spec_x(&self) -> Fixed;

    /// The `y` component, for specifications.
    spec fn spec_y(&self) -> Fixed;

    /// The `x` component.
    fn x(&self) -> (r: Fixed)
        ensures
            r == self.spec_x(),
    ;

    /// The `y` component.
    fn y(&self) -> (r: Fixed)
        ensures
            r == self.spec_y(),
    ;

    /// Mutable access to the `x` component.
    fn x_mut(&mut self) -> (r: &mut Fixed)
        ensures
            *r == old(self).spec_x(),
            final(self).spec_x() == *final(r),
            final(self).spec_y() == old(self).spec_y(),
    ;

    /// Mutable access to the `y` component.
    fn y_mut(&mut self) -> (r: &mut Fixed)
        ensures
            *r == old(self).spec_y(),
            final(self).spec_y() == *final(r),
            final(self).spec_x() == old(self).spec_x(),
    ;
}

impl BaseVectorPoint for Vector {
    open spec fn spec_x(&self) -> Fixed {
        self.x
    }

    open spec fn spec_y(&self) -> Fixed {
        self.y
    }

    fn x(&self) -> Fixed {
        self.x
    }

    fn y(&self) -> Fixed {
        self.y
    }

    fn x_mut(&mut self) -> &mut Fixed {
        &mut self.x
    }

    fn y_mut(&mut self) -> &mut Fixed {
        &mut self.y
    }
}

impl BaseVectorPoint for Point {
    open spec fn spec_x(&self) -> Fixed {
        self.x
    }

    open spec fn spec_y(&self) -> Fixed {
        self.y
    }

    fn x(&self) -> Fixed {
        self.x
    }

    fn y(&self) -> Fixed {
        self.y
    }

    fn x_mut(&mut self) -> &mut Fixed {
        &mut self.x
    }

    fn y_mut(&mut self) -> &mut Fixed {
        &mut self.y
    }
}

} // verus!
