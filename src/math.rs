use vstd::prelude::*;

verus! {

/// Number of fixed-point steps in one court unit: the court's half-height of
/// 1.0 is `UNIT`, and a ball at x = 0.95 sits at `95 * UNIT / 100`.
pub const UNIT: i64 = 10_000;

/// Largest magnitude of any configured length, speed or entity coordinate.
pub const COORD_LIMIT: i64 = 1_000_000_000;

/// A 2D vector of fixed-point integers: a position, a size or a velocity.
#[derive(Clone, Copy, Debug, PartialEq, Eq, Structural)]
pub struct Vec2 {
    pub x: i64,
    pub y: i64,
}

/// An RGBA color, one byte per channel.
#[derive(Clone, Copy, Debug, PartialEq, Eq, Structural)]
pub struct Vec4 {
    pub r: u8,
    pub g: u8,
    pub b: u8,
    pub a: u8,
}

pub open spec fn abs(v: int) -> int {
    if v < 0 { -v } else { v }
}

pub open spec fn clamp(v: int, lo: int, hi: int) -> int {
    if v < lo { lo } else if v > hi { hi } else { v }
}

impl Vec2 {
    pub fn new(x: i64, y: i64) -> (r: Vec2)
        ensures
            r.x == x,
            r.y == y,
    {
        Vec2 { x, y }
    }

    /// Component-wise sum.
    pub fn plus(self, o: Vec2) -> (r: Vec2)
        requires
            i64::MIN <= self.x + o.x <= i64::MAX,
            i64::MIN <= self.y + o.y <= i64::MAX,
        ensures
            r.x == self.x + o.x,
            r.y == self.y + o.y,
    {
        Vec2 { x: self.x + o.x, y: self.y + o.y }
    }

    /// Component-wise difference.
    pub fn minus(self, o: Vec2) -> (r: Vec2)
        requires
            i64::MIN <= self.x - o.x <= i64::MAX,
            i64::MIN <= self.y - o.y <= i64::MAX,
        ensures
            r.x == self.x - o.x,
            r.y == self.y - o.y,
    {
        Vec2 { x: self.x - o.x, y: self.y - o.y }
    }

    /// Both components multiplied by `k`.
    pub fn scaled(self, k: i64) -> (r: Vec2)
        requires
            i64::MIN <= self.x * k <= i64::MAX,
            i64::MIN <= self.y * k <= i64::MAX,
        ensures
            r.x == self.x * k,
            r.y == self.y * k,
    {
        Vec2 { x: self.x * k, y: self.y * k }
    }
}

impl Vec4 {
    pub fn new(r: u8, g: u8, b: u8, a: u8) -> (c: Vec4)
        ensures
            c == (Vec4 { r, g, b, a }),
    {
        Vec4 { r, g, b, a }
    }
}

} // verus!
