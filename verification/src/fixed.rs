//! Fixed-point numbers with 8 fractional bits (24.8), the number format of
//! the platformer physics.  A value is stored as its raw `i32`; the real
//! number it stands for is `raw / 256`.
use vstd::prelude::*;

verus! {

/// Number of fractional bits.
pub const FRAC_BITS: i32 = 8;

/// `1 << FRAC_BITS`: the raw value of the number one.
pub const ONE_RAW: i32 = 256;

/// Floor division of `a` by a positive `d` (rounding towards negative
/// infinity).  Verus's `/` on `int` is Euclidean, which agrees with floor
/// division whenever the divisor is positive.
pub open spec fn floor_div(a: int, d: int) -> int
    recommends
        d > 0,
{
    a / d
}

/// Rust's truncating division (rounding towards zero) by a positive divisor.
pub open spec fn trunc_div(a: int, d: int) -> int
    recommends
        d > 0,
{
    if a >= 0 {
        a / d
    } else {
        -((-a) / d)
    }
}

/// `x` clamped into `lo..=hi`.
pub open spec fn clamp_int(x: int, lo: int, hi: int) -> int {
    if x < lo {
        lo
    } else if x > hi {
        hi
    } else {
        x
    }
}

/// Sign of `x`: -1, 0 or 1.
pub open spec fn sign(x: int) -> int {
    if x < 0 {
        -1
    } else if x > 0 {
        1
    } else {
        0
    }
}

/// Floor division of an `i32` by a positive divisor (`i32::div_euclid`).
pub fn div_floor(a: i32, d: i32) -> (q: i32)
    requires
        d > 0,
    ensures
        q == floor_div(a as int, d as int),
{
    assert(i32::MIN <= (a as int) / (d as int) <= i32::MAX) by (nonlinear_arith)
        requires
            d > 0,
            i32::MIN <= a <= i32::MAX,
    ;
    match a.checked_div_euclid(d) {
        Some(q) => q,
        None => 0,
    }
}

/// Euclidean remainder of an `i32` by a positive divisor (`i32::rem_euclid`).
pub fn rem_floor(a: i32, d: i32) -> (r: i32)
    requires
        d > 0,
    ensures
        r == (a as int) % (d as int),
        0 <= r < d,
{
    match a.checked_rem_euclid(d) {
        Some(r) => r,
        None => 0,
    }
}

/// `x` clamped into `lo..=hi` (`i32::clamp`, which panics when `lo > hi`).
pub fn clamp_i32(x: i32, lo: i32, hi: i32) -> (r: i32)
    requires
        lo <= hi,
    ensures
        r == clamp_int(x as int, lo as int, hi as int),
{
    if x < lo {
        lo
    } else if x > hi {
        hi
    } else {
        x
    }
}

/// Sign of an `i32` (`i32::signum`).
pub fn signum_i32(x: i32) -> (r: i32)
    ensures
        r == sign(x as int),
{
    if x < 0 {
        -1
    } else if x > 0 {
        1
    } else {
        0
    }
}

/// Absolute value of an `i32` (`i32::abs`, which overflows on `i32::MIN`).
pub fn abs_i32(x: i32) -> (r: i32)
    requires
        x > i32::MIN,
    ensures
        r == if x < 0 { -x } else { x as int },
{
    if x < 0 {
        -x
    } else {
        x
    }
}

/// A fixed-point number with 8 fractional bits.
#[derive(Clone, Copy, PartialEq, Eq, Structural, Debug)]
pub struct Fix {
    pub raw: i32,
}

/// A pair of fixed-point numbers (a position or a velocity in pixels).
#[derive(Clone, Copy, PartialEq, Eq, Structural, Debug)]
pub struct FixVec {
    pub x: Fix,
    pub y: Fix,
}

impl Fix {
    /// The number whose raw representation is `raw`.
    pub fn from_raw(raw: i32) -> (r: Fix)
        ensures
            r.raw == raw,
    {
        Fix { raw }
    }

    /// The raw representation.
    pub fn to_raw(self) -> (r: i32)
        ensures
            r == self.raw,
    {
        self.raw
    }

    /// The integer `integral` as a fixed-point number (`integral << 8`).
    pub fn new(integral: i32) -> (r: Fix)
        requires
            -0x80_0000 <= integral < 0x80_0000,
        ensures
            r.raw == integral * 256,
    {
        Fix { raw: integral * 256 }
    }

    /// Rounds towards negative infinity (`raw >> 8`).
    pub fn floor(self) -> (r: i32)
        ensures
            r == floor_div(self.raw as int, 256),
    {
        div_floor(self.raw, 256)
    }

    /// Sum of two numbers.
    pub fn plus(self, other: Fix) -> (r: Fix)
        requires
            i32::MIN <= self.raw + other.raw <= i32::MAX,
        ensures
            r.raw == self.raw + other.raw,
    {
        Fix { raw: self.raw + other.raw }
    }

    /// Product with an integer (`raw * k`).
    pub fn times_int(self, k: i32) -> (r: Fix)
        requires
            i32::MIN <= self.raw * k <= i32::MAX,
        ensures
            r.raw == self.raw * k,
    {
        Fix { raw: self.raw * k }
    }

    /// Quotient by an integer, truncating (`raw / k`).
    pub fn div_int(self, k: i32) -> (r: Fix)
        requires
            k > 0,
        ensures
            r.raw == trunc_div(self.raw as int, k as int),
    {
        Fix { raw: self.raw / k }
    }

    /// Absolute value.
    pub fn abs(self) -> (r: Fix)
        requires
            self.raw > i32::MIN,
        ensures
            r.raw == if self.raw < 0 { -self.raw } else { self.raw as int },
    {
        Fix { raw: abs_i32(self.raw) }
    }

    /// The number clamped into `lo..=hi`.
    pub fn clamp(self, lo: Fix, hi: Fix) -> (r: Fix)
        requires
            lo.raw <= hi.raw,
        ensures
            r.raw == clamp_int(self.raw as int, lo.raw as int, hi.raw as int),
    {
        Fix { raw: clamp_i32(self.raw, lo.raw, hi.raw) }
    }
}

impl FixVec {
    /// A vector of whole pixels (`Vector2D::change_base`).
    pub fn from_pixels(x: i32, y: i32) -> (r: FixVec)
        requires
            -0x80_0000 <= x < 0x80_0000,
            -0x80_0000 <= y < 0x80_0000,
        ensures
            r.x.raw == x * 256,
            r.y.raw == y * 256,
    {
        FixVec { x: Fix::new(x), y: Fix::new(y) }
    }
}

} // verus!

verus! {

/// A pair of integers: a pixel position, a cell coordinate or a delta.
#[derive(Clone, Copy, PartialEq, Eq, Structural, Debug)]
pub struct Vec2 {
    pub x: i32,
    pub y: i32,
}

/// One object (sprite) to draw this frame: which frame of its sprite sheet,
/// where its top-left corner goes on screen, and whether it is mirrored.
#[derive(Clone, Copy, PartialEq, Eq, Structural, Debug)]
pub struct Sprite {
    pub frame: usize,
    pub x: i32,
    pub y: i32,
    pub hflip: bool,
}

} // verus!
