//! The integer decisions of the textures.
use vstd::prelude::*;

verus! {

/// `x` clamped to the half-open range `[low, high)`.
pub open spec fn spec_clamp(x: int, low: int, high: int) -> int {
    if x < low {
        low
    } else if x < high {
        x
    } else {
        high - 1
    }
}

/// Clamps `x` to the half-open range `[low, high)`.
pub fn clamp(x: i32, low: i32, high: i32) -> (r: i32)
    requires
        low < high,
    ensures
        r == spec_clamp(x as int, low as int, high as int),
        low <= r < high,
{
    if x < low {
        return low;
    }
    if x < high {
        return x;
    }
    high - 1
}

/// The pixel of a `width` by `height` raster nearest to column `i` and row
/// `j`: both clamped into the raster.
pub fn pixel_coords(i: i32, j: i32, width: u32, height: u32) -> (r: (u32, u32))
    requires
        1 <= width <= i32::MAX,
        1 <= height <= i32::MAX,
    ensures
        r.0 == spec_clamp(i as int, 0, width as int),
        r.1 == spec_clamp(j as int, 0, height as int),
        r.0 < width,
        r.1 < height,
{
    let x = clamp(i, 0, width as i32);
    let y = clamp(j, 0, height as i32);
    (x as u32, y as u32)
}

/// A checker cell is even when the sum of its integer coordinates is even.
pub fn checker_is_even(x: i32, y: i32, z: i32) -> (r: bool)
    ensures
        r == ((x + y + z) % 2 == 0),
{
    let s: i64 = x as i64 + y as i64 + z as i64;
    s % 2 == 0
}

} // verus!
