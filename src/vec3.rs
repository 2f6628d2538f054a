//! Exact three-component vectors, points and colors.
use vstd::prelude::*;
use crate::fixed::Fixed;

verus! {

#[derive(Clone, Copy, Debug, PartialEq, Eq, Structural)]
pub struct Rvec3 {
    pub x: Fixed,
    pub y: Fixed,
    pub z: Fixed,
}

pub type Point3 = Rvec3;

pub type Color = Rvec3;

/// The vector whose components are the whole numbers `x`, `y`, `z`.
pub open spec fn whole3(x: int, y: int, z: int) -> Rvec3 {
    Rvec3 { x: Fixed::spec_whole(x), y: Fixed::spec_whole(y), z: Fixed::spec_whole(z) }
}

/// The vector `(x / d, y / d, z / d)`, for a `d` that divides the scale.
pub open spec fn frac3(x: int, y: int, z: int, d: int) -> Rvec3 {
    Rvec3 { x: Fixed::spec_frac(x, d), y: Fixed::spec_frac(y, d), z: Fixed::spec_frac(z, d) }
}

pub open spec fn fits_add(a: Rvec3, b: Rvec3) -> bool {
    &&& Fixed::fits(a.x.units + b.x.units)
    &&& Fixed::fits(a.y.units + b.y.units)
    &&& Fixed::fits(a.z.units + b.z.units)
}

pub open spec fn spec_add(a: Rvec3, b: Rvec3) -> Rvec3 {
    Rvec3 {
        x: Fixed::spec_units(a.x.units + b.x.units),
        y: Fixed::spec_units(a.y.units + b.y.units),
        z: Fixed::spec_units(a.z.units + b.z.units),
    }
}

pub open spec fn spec_neg(a: Rvec3) -> Rvec3 {
    Rvec3 {
        x: Fixed::spec_units(-a.x.units),
        y: Fixed::spec_units(-a.y.units),
        z: Fixed::spec_units(-a.z.units),
    }
}

/// No component is `i64::MIN`, so the vector can be negated.
pub open spec fn negatable(a: Rvec3) -> bool {
    a.x.units > i64::MIN && a.y.units > i64::MIN && a.z.units > i64::MIN
}

impl Rvec3 {
    /// The zero vector.
    pub fn new() -> (r: Rvec3)
        ensures
            r == whole3(0, 0, 0),
    {
        Rvec3 { x: Fixed::zero(), y: Fixed::zero(), z: Fixed::zero() }
    }

    pub fn new_arg(x: Fixed, y: Fixed, z: Fixed) -> (r: Rvec3)
        ensures
            r == (Rvec3 { x, y, z }),
    {
        Rvec3 { x, y, z }
    }

    /// The vector of whole numbers `(x, y, z)`.
    pub fn whole(x: i32, y: i32, z: i32) -> (r: Rvec3)
        ensures
            r == whole3(x as int, y as int, z as int),
    {
        Rvec3 { x: Fixed::whole(x), y: Fixed::whole(y), z: Fixed::whole(z) }
    }

    /// The vector `(x / d, y / d, z / d)`.
    pub fn frac(x: i32, y: i32, z: i32, d: i64) -> (r: Rvec3)
        requires
            1 <= d,
            crate::fixed::SCALE % d == 0,
        ensures
            r == frac3(x as int, y as int, z as int, d as int),
    {
        assert(-2147483648 * (crate::fixed::SCALE / d) <= x * (crate::fixed::SCALE / d)
            <= 2147483647 * (crate::fixed::SCALE / d)) by (nonlinear_arith)
            requires
                -2147483648 <= x <= 2147483647,
                crate::fixed::SCALE / d >= 0,
        ;
        assert(-2147483648 * (crate::fixed::SCALE / d) <= y * (crate::fixed::SCALE / d)
            <= 2147483647 * (crate::fixed::SCALE / d)) by (nonlinear_arith)
            requires
                -2147483648 <= y <= 2147483647,
                crate::fixed::SCALE / d >= 0,
        ;
        assert(-2147483648 * (crate::fixed::SCALE / d) <= z * (crate::fixed::SCALE / d)
            <= 2147483647 * (crate::fixed::SCALE / d)) by (nonlinear_arith)
            requires
                -2147483648 <= z <= 2147483647,
                crate::fixed::SCALE / d >= 0,
        ;
        Rvec3 {
            x: Fixed::frac(x as i64, d),
            y: Fixed::frac(y as i64, d),
            z: Fixed::frac(z as i64, d),
        }
    }

    pub fn add(self, o: Rvec3) -> (r: Rvec3)
        requires
            fits_add(self, o),
        ensures
            r == spec_add(self, o),
    {
        Rvec3 { x: self.x.add(o.x), y: self.y.add(o.y), z: self.z.add(o.z) }
    }

    pub fn neg(self) -> (r: Rvec3)
        requires
            negatable(self),
        ensures
            r == spec_neg(self),
    {
        Rvec3 { x: self.x.neg(), y: self.y.neg(), z: self.z.neg() }
    }
}

} // verus!

verus! {

/// Largest magnitude of a coordinate that boxes are built from: a difference
/// of two such coordinates, and its negation, still fit.
pub const COORD_BOUND: i64 = 1_000_000_000_000_000_000;

pub open spec fn bounded(v: Rvec3) -> bool {
    &&& -COORD_BOUND <= v.x.units <= COORD_BOUND
    &&& -COORD_BOUND <= v.y.units <= COORD_BOUND
    &&& -COORD_BOUND <= v.z.units <= COORD_BOUND
}

} // verus!
