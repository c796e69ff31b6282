//! Plain 2D point and vector types used by every entity.
//!
//! Coordinates are integers in subpixel units (see [`crate::config::SCALE`]).
//! Points name positions on (or around) the screen; vectors name offsets and
//! per-tick velocities.

use vstd::prelude::*;

verus! {

/// A position, in subpixel units. `x` grows to the right, `y` grows downward.
#[derive(Clone, Copy, PartialEq, Eq, Structural, Debug)]
pub struct Point2 {
    pub x: i64,
    pub y: i64,
}

/// An offset or a per-tick velocity, in subpixel units.
#[derive(Clone, Copy, PartialEq, Eq, Structural, Debug)]
pub struct Vector2 {
    pub x: i64,
    pub y: i64,
}

impl Point2 {
    /// Builds the point `(x, y)`.
    pub fn new(x: i64, y: i64) -> (p: Point2)
        ensures
            p.x == x,
            p.y == y,
    {
        Point2 { x, y }
    }
}

impl Vector2 {
    /// Builds the vector `(x, y)`.
    pub fn new(x: i64, y: i64) -> (v: Vector2)
        ensures
            v.x == x,
            v.y == y,
    {
        Vector2 { x, y }
    }
}

/// Squared Euclidean distance between `a` and `b`, as a mathematical integer.
pub open spec fn dist2(a: Point2, b: Point2) -> int {
    (a.x - b.x) * (a.x - b.x) + (a.y - b.y) * (a.y - b.y)
}

/// Whether `a + b` lies within `[i64::MIN + margin, i64::MAX]`, computed
/// without overflowing on the way.
pub(crate) fn sum_at_least(a: i64, b: i64, margin: i64) -> (r: bool)
    requires
        0 <= margin,
    ensures
        r == (i64::MIN + margin <= a + b <= i64::MAX),
{
    if b >= 0 {
        if a <= i64::MAX - b {
            a + b >= i64::MIN + margin
        } else {
            false
        }
    } else {
        if a >= i64::MIN - b {
            a + b >= i64::MIN + margin
        } else {
            false
        }
    }
}

} // verus!
