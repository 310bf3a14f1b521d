//! The scalar number type of the toolkit.
//!
//! Every coordinate, size and velocity component is a [`Fixed`]: a signed
//! fixed-point number stored as an `i64` count of thousandths of a world
//! unit. This keeps sub-unit positions and velocities (such as a speed of
//! two and a half units per tick) exactly representable while staying
//! within integer arithmetic.

use vstd::prelude::*;

verus! {

/// Raw increments per world unit.
pub const SCALE: i64 = 1000;

/// A signed fixed-point number: `raw` thousandths of a world unit.
#[derive(Clone, Copy, PartialEq, Eq, Structural, Debug)]
pub struct Fixed {
    pub raw: i64,
}

impl View for Fixed {
    type V = int;

    open spec fn view(&self) -> int {
        self.raw as int
    }
}

/// Truncating halving: rounds towards zero, like integer division in Rust.
pub open spec fn half_trunc(v: int) -> int {
    if v >= 0 {
        v / 2
    } else {
        -((-v) / 2)
    }
}

/// Truncating division by `SCALE`: the whole-unit part, rounded towards zero.
pub open spec fn units_trunc(v: int) -> int {
    if v >= 0 {
        v / (SCALE as int)
    } else {
        -((-v) / (SCALE as int))
    }
}

/// Remainder of division by `SCALE`, with the sign of the dividend:
/// the sub-unit part left over after `units_trunc`.
pub open spec fn rem_unit_spec(v: int) -> int {
    if v >= 0 {
        v % (SCALE as int)
    } else {
        -((-v) % (SCALE as int))
    }
}

/// Truncating division: the quotient rounded towards zero, as Rust's
/// integer division has it.
pub open spec fn div_trunc(a: int, b: int) -> int {
    if a == 0 {
        0
    } else if a > 0 && b > 0 {
        a / b
    } else if a < 0 && b < 0 {
        (-a) / (-b)
    } else if a < 0 {
        -((-a) / b)
    } else {
        -(a / (-b))
    }
}

/// Rounding to the nearest whole unit, ties away from zero.
pub open spec fn round_unit_spec(v: int) -> int {
    if v >= 0 {
        ((v + half_trunc(SCALE as int)) / (SCALE as int)) * (SCALE as int)
    } else {
        -(((-v + half_trunc(SCALE as int)) / (SCALE as int)) * (SCALE as int))
    }
}

impl Fixed {
    /// The zero value.
    pub fn zero() -> (r: Fixed)
        ensures
            r@ == 0,
    {
        Fixed { raw: 0 }
    }

    /// A whole number of world units.
    pub fn from_units(units: i64) -> (r: Fixed)
        requires
            units * SCALE <= i64::MAX,
            i64::MIN <= units * SCALE,
        ensures
            r@ == units * SCALE,
    {
        Fixed { raw: units.checked_mul(SCALE).unwrap() }
    }

    /// A number given directly in thousandths of a unit.
    pub fn from_raw(raw: i64) -> (r: Fixed)
        ensures
            r@ == raw,
    {
        Fixed { raw }
    }

    /// Component-wise sum.
    pub fn plus(self, other: Fixed) -> (r: Fixed)
        requires
            i64::MIN <= self@ + other@ <= i64::MAX,
        ensures
            r@ == self@ + other@,
    {
        Fixed { raw: self.raw.checked_add(other.raw).unwrap() }
    }

    /// Component-wise difference.
    pub fn minus(self, other: Fixed) -> (r: Fixed)
        requires
            i64::MIN <= self@ - other@ <= i64::MAX,
        ensures
            r@ == self@ - other@,
    {
        Fixed { raw: self.raw.checked_sub(other.raw).unwrap() }
    }

    /// Negation.
    pub fn negated(self) -> (r: Fixed)
        requires
            self@ != i64::MIN,
        ensures
            r@ == -self@,
    {
        Fixed { raw: -self.raw }
    }

    /// Fixed-point product: the mathematical product of the two numbers,
    /// truncated towards zero to the nearest thousandth.
    pub fn times(self, other: Fixed) -> (r: Fixed)
        requires
            i64::MIN <= self@ * other@ <= i64::MAX,
        ensures
            r@ == units_trunc(self@ * other@),
    {
        let prod: i64 = self.raw.checked_mul(other.raw).unwrap();
        Fixed { raw: prod.checked_div(SCALE).unwrap() }
    }

    /// Fixed-point quotient: the mathematical quotient of the two
    /// numbers, truncated towards zero to the nearest thousandth.
    pub fn divided_by(self, other: Fixed) -> (r: Fixed)
        requires
            other@ != 0,
            -i64::MAX <= self@ * SCALE <= i64::MAX,
        ensures
            r@ == div_trunc(self@ * SCALE, other@),
    {
        let scaled: i64 = self.raw.checked_mul(SCALE).unwrap();
        Fixed { raw: scaled.checked_div(other.raw).unwrap() }
    }

    /// Halving, rounded towards zero.
    pub fn half(self) -> (r: Fixed)
        ensures
            r@ == half_trunc(self@),
    {
        Fixed { raw: self.raw.checked_div(2).unwrap() }
    }

    /// The magnitude of the whole-unit part: `|self|` in units, rounded down.
    pub fn abs_units(self) -> (r: u64)
        requires
            self@ != i64::MIN,
        ensures
            r == if self@ >= 0 { units_trunc(self@) } else { -units_trunc(self@) },
    {
        let mag: i64 = if self.raw >= 0 { self.raw } else { -self.raw };
        mag.checked_div(SCALE).unwrap() as u64
    }

    /// The whole-unit part, rounded towards zero, with its sign.
    pub fn trunc_units(self) -> (r: i64)
        requires
            self@ != i64::MIN,
        ensures
            r == units_trunc(self@),
    {
        self.raw.checked_div(SCALE).unwrap()
    }

    /// The sub-unit remainder, with the sign of `self`.
    pub fn rem_unit(self) -> (r: Fixed)
        requires
            self@ != i64::MIN,
        ensures
            r@ == rem_unit_spec(self@),
    {
        Fixed { raw: self.raw.checked_rem(SCALE).unwrap() }
    }

    /// The sign as one whole unit: one unit for positive, minus one unit for
    /// negative, zero for zero.
    pub fn signum_unit(self) -> (r: Fixed)
        ensures
            r@ == if self@ > 0 { SCALE as int } else if self@ < 0 { -(SCALE as int) } else { 0 },
    {
        if self.raw > 0 {
            Fixed { raw: SCALE }
        } else if self.raw < 0 {
            Fixed { raw: -SCALE }
        } else {
            Fixed { raw: 0 }
        }
    }

    /// Rounded to the nearest whole unit, ties away from zero.
    pub fn round_unit(self) -> (r: Fixed)
        requires
            i64::MIN + SCALE <= self@ <= i64::MAX - SCALE,
        ensures
            r@ == round_unit_spec(self@),
    {
        let half_scale: i64 = 500;
        if self.raw >= 0 {
            let units: i64 = (self.raw.checked_add(half_scale).unwrap()).checked_div(SCALE).unwrap();
            Fixed { raw: units.checked_mul(SCALE).unwrap() }
        } else {
            let units: i64 = ((-self.raw).checked_add(half_scale).unwrap()).checked_div(SCALE).unwrap();
            Fixed { raw: -(units.checked_mul(SCALE).unwrap()) }
        }
    }
}

} // verus!
