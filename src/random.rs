//! Random draws from an explicit, seedable generator.
use vstd::prelude::*;
use rand::rngs::StdRng;
use rand::Rng;
use crate::fixed::{Fixed, SCALE};
use crate::vec3::Rvec3;

verus! {

#[verifier::external_type_specification]
#[verifier::external_body]
pub struct ExStdRng(StdRng);

/// Relies on rand's `Rng::gen_range` over `low..high` of `u64`: it returns a
/// value of the range, and panics only on an empty one.
#[verifier::external_body]
fn random_below(rng: &mut StdRng, n: u64) -> (r: u64)
    requires
        n > 0,
    ensures
        r < n,
{
    rng.gen_range(0..n)
}

/// An integer drawn from `[min, max]`.
pub fn random_int(rng: &mut StdRng, min: i32, max: i32) -> (r: i32)
    requires
        min <= max,
    ensures
        min <= r <= max,
{
    let k = random_below(rng, (max as i64 - min as i64 + 1) as u64);
    (min as i64 + k as i64) as i32
}

/// A value drawn from `[min, max)`, on the grid of units.
pub fn random_range(rng: &mut StdRng, min: Fixed, max: Fixed) -> (r: Fixed)
    requires
        min.units < max.units,
        Fixed::fits(max.units - min.units),
    ensures
        min.units <= r.units < max.units,
{
    let k = random_below(rng, (max.units - min.units) as u64);
    Fixed::from_units(min.units + k as i64)
}

/// A value drawn from `[0, 1)`.
pub fn random_double(rng: &mut StdRng) -> (r: Fixed)
    ensures
        0 <= r.units < SCALE,
{
    random_range(rng, Fixed::zero(), Fixed::from_units(SCALE))
}

/// A vector whose components are drawn from `[min, max)`.
pub fn random_vec_range(rng: &mut StdRng, min: Fixed, max: Fixed) -> (r: Rvec3)
    requires
        min.units < max.units,
        Fixed::fits(max.units - min.units),
    ensures
        min.units <= r.x.units < max.units,
        min.units <= r.y.units < max.units,
        min.units <= r.z.units < max.units,
{
    let x = random_range(rng, min, max);
    let y = random_range(rng, min, max);
    let z = random_range(rng, min, max);
    Rvec3::new_arg(x, y, z)
}

/// A vector whose components are drawn from `[0, 1)`.
pub fn random_vec(rng: &mut StdRng) -> (r: Rvec3)
    ensures
        0 <= r.x.units < SCALE,
        0 <= r.y.units < SCALE,
        0 <= r.z.units < SCALE,
{
    random_vec_range(rng, Fixed::zero(), Fixed::from_units(SCALE))
}

} // verus!
