//! Two-dimensional fixed-point vectors and saturating arithmetic.

use vstd::prelude::*;

verus! {

/// Clips a mathematical integer into the range of `i64`.
pub open spec fn sat64(v: int) -> int {
    if v > i64::MAX {
        i64::MAX as int
    } else if v < i64::MIN {
        i64::MIN as int
    } else {
        v
    }
}

/// Saturating addition on `i64`.
pub fn sat_add64(a: i64, b: i64) -> (r: i64)
    ensures
        r == sat64(a + b),
{
    if b >= 0 {
        if a > i64::MAX - b {
            i64::MAX
        } else {
            a + b
        }
    } else {
        if a < i64::MIN - b {
            i64::MIN
        } else {
            a + b
        }
    }
}

/// A 2D vector in milliunits.
#[derive(Clone, Copy, PartialEq, Eq, Structural, Debug)]
pub struct Vec2 {
    pub x: i64,
    pub y: i64,
}

impl Vec2 {
    /// The zero vector.
    pub fn zero() -> (r: Vec2)
        ensures
            r == (Vec2 { x: 0i64, y: 0i64 }),
    {
        Vec2 { x: 0, y: 0 }
    }

    /// Component-wise saturating addition.
    pub fn sat_add(self, other: Vec2) -> (r: Vec2)
        ensures
            r.x == sat64(self.x + other.x),
            r.y == sat64(self.y + other.y),
    {
        Vec2 { x: sat_add64(self.x, other.x), y: sat_add64(self.y, other.y) }
    }
}

} // verus!
