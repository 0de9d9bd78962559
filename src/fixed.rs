//! Fixed-point coordinates: hundredths of a pixel.
use vstd::prelude::*;

verus! {

/// Sub-pixel units in one pixel.
pub const SUBPIXELS: i32 = 100;

/// Whole pixels of a fixed-point value, truncated toward zero.
pub open spec fn trunc_pixels(v: int) -> int {
    if v >= 0 {
        v / 100
    } else {
        -((-v) / 100)
    }
}

/// Clamps `v` into `[lo, hi]`.
pub open spec fn clamp_spec(v: int, lo: int, hi: int) -> int {
    if v < lo {
        lo
    } else if v > hi {
        hi
    } else {
        v
    }
}

/// Whole pixels of `v`, truncated toward zero as a float-to-integer cast does.
pub fn to_pixels(v: i32) -> (r: i32)
    ensures
        r == trunc_pixels(v as int),
{
    let w: i64 = v as i64;
    if w >= 0 {
        (w / 100) as i32
    } else {
        (-((-w) / 100)) as i32
    }
}

/// Clamps `v` into `[lo, hi]`.
pub fn clamp(v: i32, lo: i32, hi: i32) -> (r: i32)
    requires
        lo <= hi,
    ensures
        r == clamp_spec(v as int, lo as int, hi as int),
        lo <= r <= hi,
{
    if v < lo {
        lo
    } else if v > hi {
        hi
    } else {
        v
    }
}

} // verus!
