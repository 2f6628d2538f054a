//! Exact fixed-point scalars with nine decimal places.
use vstd::prelude::*;

verus! {

/// Number of units in one whole: a `Fixed` stores `value * SCALE`.
pub const SCALE: i64 = 1_000_000_000;

/// An exact decimal number: `units / SCALE`.
#[derive(Clone, Copy, Debug, PartialEq, Eq, Structural)]
pub struct Fixed {
    pub units: i64,
}

impl Fixed {
    /// The value whose units are `u`.
    pub open spec fn spec_units(u: int) -> Fixed {
        Fixed { units: u as i64 }
    }

    /// The whole number `n`.
    pub open spec fn spec_whole(n: int) -> Fixed {
        Fixed { units: (n * SCALE) as i64 }
    }

    /// The fraction `n / d`, for a `d` that divides `SCALE`.
    pub open spec fn spec_frac(n: int, d: int) -> Fixed {
        Fixed { units: (n * (SCALE as int / d)) as i64 }
    }

    pub open spec fn fits(u: int) -> bool {
        i64::MIN <= u <= i64::MAX
    }

    pub fn zero() -> (r: Fixed)
        ensures
            r.units == 0,
    {
        Fixed { units: 0 }
    }

    pub fn from_units(u: i64) -> (r: Fixed)
        ensures
            r.units == u,
    {
        Fixed { units: u }
    }

    /// The whole number `n`; every `i32` fits.
    pub fn whole(n: i32) -> (r: Fixed)
        ensures
            r == Fixed::spec_whole(n as int),
            r.units == n * SCALE,
    {
        assert(-2147483648 * SCALE <= n * SCALE <= 2147483647 * SCALE) by (nonlinear_arith)
            requires
                -2147483648 <= n <= 2147483647,
        ;
        Fixed { units: n as i64 * SCALE }
    }

    /// The fraction `n / d`, exact because `d` divides `SCALE`.
    pub fn frac(n: i64, d: i64) -> (r: Fixed)
        requires
            1 <= d,
            SCALE % d == 0,
            Fixed::fits(n * (SCALE / d)),
        ensures
            r == Fixed::spec_frac(n as int, d as int),
            r.units == n * (SCALE / d),
    {
        Fixed { units: n * (SCALE / d) }
    }

    pub fn add(self, o: Fixed) -> (r: Fixed)
        requires
            Fixed::fits(self.units + o.units),
        ensures
            r.units == self.units + o.units,
    {
        Fixed { units: self.units + o.units }
    }

    pub fn sub(self, o: Fixed) -> (r: Fixed)
        requires
            Fixed::fits(self.units - o.units),
        ensures
            r.units == self.units - o.units,
    {
        Fixed { units: self.units - o.units }
    }

    pub fn neg(self) -> (r: Fixed)
        requires
            self.units > i64::MIN,
        ensures
            r.units == -self.units,
    {
        Fixed { units: -self.units }
    }

    /// Product of two values in `[0, 1]`, rounded down to a unit.
    pub fn mul_unit(self, o: Fixed) -> (r: Fixed)
        requires
            0 <= self.units <= SCALE,
            0 <= o.units <= SCALE,
        ensures
            r.units == (self.units * o.units) / (SCALE as int),
            0 <= r.units <= SCALE,
    {
        assert(0 <= self.units * o.units <= SCALE * SCALE) by (nonlinear_arith)
            requires
                0 <= self.units <= SCALE,
                0 <= o.units <= SCALE,
        ;
        let p: i64 = self.units * o.units;
        assert(p / SCALE <= SCALE) by (nonlinear_arith)
            requires
                0 <= p <= SCALE * SCALE,
                SCALE > 0,
        ;
        Fixed { units: p / SCALE }
    }

    pub fn min(self, o: Fixed) -> (r: Fixed)
        ensures
            r.units == if self.units <= o.units { self.units } else { o.units },
    {
        if self.units <= o.units {
            self
        } else {
            o
        }
    }

    pub fn max(self, o: Fixed) -> (r: Fixed)
        ensures
            r.units == if self.units >= o.units { self.units } else { o.units },
    {
        if self.units >= o.units {
            self
        } else {
            o
        }
    }

    pub fn lt(self, o: Fixed) -> (r: bool)
        ensures
            r == (self.units < o.units),
    {
        self.units < o.units
    }
}

} // verus!
