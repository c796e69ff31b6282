//! The crab: the shared body that walks back and forth along the bottom of
//! the screen.
//!
//! Each tick the crab advances horizontally by its velocity and then checks
//! two width-scaled thresholds: once `x + 2w` reaches the right edge the
//! velocity flips to `-s`, and once `x` drops below `w` it flips back to
//! `+s`. The two conditions are deliberately asymmetric (they scale by the
//! sprite width, not by exact edge contact); that is the game's documented
//! behaviour, not an accident to smooth over.

use vstd::prelude::*;
use crate::config::{CRAB_S, CRAB_W};
use crate::geom::{Point2, Vector2};

verus! {

/// The crab's body: position, bounce velocity and configured size and speed.
#[derive(Clone, Copy, PartialEq, Eq, Structural, Debug)]
pub struct Crab {
    /// Bottom-anchored body position; `y` never changes after construction.
    pub location: Point2,
    /// Per-tick motion: `x` is `+s` or `-s`, `y` is always `0`.
    pub velocity: Vector2,
    /// Sprite width, always [`CRAB_W`].
    pub w: i64,
    /// Walking speed, always [`CRAB_S`].
    pub s: i64,
}

impl Crab {
    /// The configured size and speed are in place and the velocity is a
    /// horizontal bounce velocity.
    pub open spec fn wf(self) -> bool {
        &&& self.w == CRAB_W
        &&& self.s == CRAB_S
        &&& self.velocity.y == 0
        &&& (self.velocity.x == CRAB_S || self.velocity.x == -CRAB_S)
    }

    /// Horizontal position after one tick, as a mathematical integer.
    pub open spec fn step_x(self) -> int {
        self.location.x + self.velocity.x
    }

    /// Horizontal velocity after one tick against a screen `max_screen`
    /// units wide: flipped leftward at the right threshold, flipped
    /// rightward below the left threshold, otherwise kept.
    pub open spec fn step_vx(self, max_screen: int) -> int {
        if self.step_x() + 2 * self.w >= max_screen {
            -self.s as int
        } else if self.step_x() < self.w {
            self.s as int
        } else {
            self.velocity.x as int
        }
    }

    /// One tick's arithmetic stays inside `i64`.
    pub open spec fn step_fits(self, max_screen: i64) -> bool {
        &&& i64::MIN <= self.step_x()
        &&& self.step_x() + 2 * self.w <= i64::MAX
    }

    /// Builds a crab at `location`, walking rightward at the configured
    /// speed.
    pub fn new(location: Point2) -> (c: Crab)
        ensures
            c.location == location,
            c.velocity.x == CRAB_S,
            c.velocity.y == 0,
            c.w == CRAB_W,
            c.s == CRAB_S,
            c.wf(),
    {
        Crab { location, velocity: Vector2 { x: CRAB_S, y: 0 }, w: CRAB_W, s: CRAB_S }
    }

    /// Advances one tick: `x` moves by the velocity, then the velocity is
    /// reflected at the width-scaled screen thresholds. The vertical
    /// position never changes.
    pub fn update(&mut self, max_screen: i64)
        requires
            old(self).wf(),
            old(self).step_fits(max_screen),
        ensures
            final(self).location.x == old(self).step_x(),
            final(self).location.y == old(self).location.y,
            final(self).velocity.x == old(self).step_vx(max_screen as int),
            final(self).velocity.y == 0,
            final(self).w == old(self).w,
            final(self).s == old(self).s,
            final(self).wf(),
    {
        self.location.x = self.location.x + self.velocity.x;
        if self.location.x + self.w * 2 >= max_screen {
            self.velocity.x = -self.s;
        } else if self.location.x < self.w {
            self.velocity.x = self.s;
        }
    }

    /// One tick's arithmetic would stay inside `i64`; lets unverified
    /// callers test [`Crab::step_fits`] before calling [`Crab::update`].
    pub fn update_fits(&self, max_screen: i64) -> (b: bool)
        requires
            self.wf(),
        ensures
            b == self.step_fits(max_screen),
    {
        if self.velocity.x >= 0 {
            self.location.x <= (i64::MAX - 2 * self.w) - self.velocity.x
        } else {
            self.location.x >= i64::MIN - self.velocity.x
                && self.location.x <= (i64::MAX - 2 * self.w) - self.velocity.x
        }
    }
}

/// While the crab walks rightward and the right threshold is still ahead,
/// its `x` strictly increases and the velocity stays `+s`.
pub proof fn lemma_crab_monotone_right(c: Crab, max_screen: int)
    requires
        c.wf(),
        c.velocity.x == CRAB_S,
        c.step_x() + 2 * CRAB_W < max_screen,
    ensures
        c.step_x() > c.location.x,
        c.step_vx(max_screen) == CRAB_S,
{
}

/// The moment `x + 2w` reaches the right edge of the screen, a rightward
/// crab's velocity flips to `-s`.
pub proof fn lemma_crab_flip_right(c: Crab, max_screen: int)
    requires
        c.wf(),
        c.velocity.x == CRAB_S,
        c.step_x() + 2 * CRAB_W >= max_screen,
    ensures
        c.step_vx(max_screen) == -CRAB_S,
{
}

/// While the crab walks leftward above the left threshold (and clear of the
/// right one), its `x` strictly decreases and the velocity stays `-s`.
pub proof fn lemma_crab_monotone_left(c: Crab, max_screen: int)
    requires
        c.wf(),
        c.velocity.x == -CRAB_S,
        c.step_x() >= CRAB_W,
        c.step_x() + 2 * CRAB_W < max_screen,
    ensures
        c.step_x() < c.location.x,
        c.step_vx(max_screen) == -CRAB_S,
{
}

/// The moment `x` drops below the crab's own width (with the right
/// threshold clear), a leftward crab's velocity flips back to `+s`. The two
/// flip conditions are not a shared midpoint: the right one compares
/// `x + 2w` against the screen width, the left one compares `x` against `w`.
pub proof fn lemma_crab_flip_left(c: Crab, max_screen: int)
    requires
        c.wf(),
        c.velocity.x == -CRAB_S,
        c.step_x() < CRAB_W,
        c.step_x() + 2 * CRAB_W < max_screen,
    ensures
        c.step_vx(max_screen) == CRAB_S,
{
}

} // verus!
