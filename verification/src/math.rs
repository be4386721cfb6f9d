//! Fixed-point helpers shared by the game logic.
//!
//! Positions are fixed-point numbers with `ONE_BIT` fractional bits, and a
//! full turn is `ANGLE * ONE`.

use vstd::prelude::*;

verus! {

/// Number of fractional bits of a fixed-point coordinate.
pub const ONE_BIT: i32 = 8;

/// The fixed-point representation of 1.
pub const ONE: i32 = 256;

/// Number of angle units in a full turn (before fixed-point scaling).
pub const ANGLE: i32 = 256;

/// A two-dimensional integer vector.
#[derive(Clone, Copy, Debug, PartialEq, Eq, Structural)]
pub struct Vec2 {
    pub x: i32,
    pub y: i32,
}

/// `true` when `v` is a value of `i32`.
pub open spec fn fits_i32(v: int) -> bool {
    i32::MIN <= v <= i32::MAX
}

impl Vec2 {
    /// Creates a vector from its two components.
    pub fn new(x: i32, y: i32) -> (r: Vec2)
        ensures
            r.x == x,
            r.y == y,
    {
        Vec2 { x, y }
    }

    /// `true` when the component-wise sum of `self` and `o` fits in `i32`.
    pub open spec fn plus_fits(self, o: Vec2) -> bool {
        fits_i32(self.x + o.x) && fits_i32(self.y + o.y)
    }

    /// `true` when the component-wise difference `self - o` fits in `i32`.
    pub open spec fn minus_fits(self, o: Vec2) -> bool {
        fits_i32(self.x - o.x) && fits_i32(self.y - o.y)
    }

    /// The component-wise sum, as a spec value.
    pub open spec fn spec_plus(self, o: Vec2) -> Vec2 {
        Vec2 { x: (self.x + o.x) as i32, y: (self.y + o.y) as i32 }
    }

    /// The component-wise difference, as a spec value.
    pub open spec fn spec_minus(self, o: Vec2) -> Vec2 {
        Vec2 { x: (self.x - o.x) as i32, y: (self.y - o.y) as i32 }
    }

    /// Component-wise sum.
    pub fn plus(&self, o: &Vec2) -> (r: Vec2)
        requires
            self.plus_fits(*o),
        ensures
            r == self.spec_plus(*o),
            r.x == self.x + o.x,
            r.y == self.y + o.y,
    {
        Vec2 { x: self.x + o.x, y: self.y + o.y }
    }

    /// Component-wise difference `self - o`.
    pub fn minus(&self, o: &Vec2) -> (r: Vec2)
        requires
            self.minus_fits(*o),
        ensures
            r == self.spec_minus(*o),
            r.x == self.x - o.x,
            r.y == self.y - o.y,
    {
        Vec2 { x: self.x - o.x, y: self.y - o.y }
    }
}

/// `v` limited to the range from `lo` to `hi`: `lo` when `v` is below it,
/// else `hi` when `v` is above that, else `v`.
pub open spec fn spec_clamp(v: int, lo: int, hi: int) -> int {
    if v < lo {
        lo
    } else if v > hi {
        hi
    } else {
        v
    }
}

/// Limits `v` to the range from `lo` to `hi`.
pub fn clamp(v: i32, lo: i32, hi: i32) -> (r: i32)
    ensures
        r == spec_clamp(v as int, lo as int, hi as int),
{
    if v < lo {
        lo
    } else if v > hi {
        hi
    } else {
        v
    }
}

/// The square of `v`.
pub fn square(v: i32) -> (r: i32)
    requires
        v * v <= i32::MAX,
    ensures
        r == v * v,
{
    assert(v * v >= 0) by (nonlinear_arith);
    v * v
}

/// Clamping into a non-empty range lands inside it, and a value already
/// inside is left as it is.
pub proof fn lemma_clamp_in_range(v: int, lo: int, hi: int)
    requires
        lo <= hi,
    ensures
        lo <= spec_clamp(v, lo, hi) <= hi,
        lo <= v <= hi ==> spec_clamp(v, lo, hi) == v,
{
}

/// With a symmetric limit `-l..l`, the clamped value is never larger in
/// magnitude than `l`, whatever the sign of `l`.
pub proof fn lemma_clamp_symmetric_bound(v: int, l: int)
    ensures
        -(if l >= 0 { l } else { -l }) <= spec_clamp(v, -l, l) <= (if l >= 0 { l } else { -l }),
{
}

} // verus!
