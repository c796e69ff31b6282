//! Falling snacks: spawning, the fall/respawn cycle, and catch detection.
//!
//! A snack falls straight down a random amount per tick. When it leaves the
//! bottom of the screen, or was caught by a claw, the next [`Snack::update`]
//! re-spawns it at a fresh random spot just above the top of the screen, so
//! a snack is never removed: the collection spawned once at game start keeps
//! its size forever.

use vstd::prelude::*;
use crate::config::{SCREEN_H, SCREEN_W, SNACK_VY_MAX, SNACK_VY_MIN, SNACK_W};
use crate::geom::{dist2, Point2, Vector2};
use crate::rng::random_in_range;

verus! {

/// One falling snack.
#[derive(Clone, Copy, PartialEq, Eq, Structural, Debug)]
pub struct Snack {
    /// Current position; `y` may be negative while the snack is still above
    /// the screen.
    pub location: Point2,
    /// Per-tick motion: `x` is always `0`, `y` is the random fall speed.
    pub velocity: Vector2,
    /// Sprite width, always [`SNACK_W`]; doubles as the circular collision
    /// radius.
    pub w: i64,
    /// Whether the snack can currently fall, render and be caught. Turns
    /// false when the snack is caught or leaves the screen, and back to true
    /// on the respawn inside the next [`Snack::update`].
    pub active: bool,
}

impl Snack {
    /// The snack's numbers are in their steady-state ranges: configured
    /// width, purely downward bounded velocity, and a position within one
    /// screen of the visible area.
    pub open spec fn wf(self) -> bool {
        &&& self.w == SNACK_W
        &&& self.velocity.x == 0
        &&& SNACK_VY_MIN <= self.velocity.y < SNACK_VY_MAX
        &&& 0 <= self.location.x < SCREEN_W
        &&& -SCREEN_H <= self.location.y <= SCREEN_H
    }

    /// Vertical position after one fall step, as a mathematical integer.
    pub open spec fn falls_to_y(self) -> int {
        self.location.y + self.velocity.y
    }

    /// The claw tip at `other` catches this snack: the snack is active and
    /// `other` lies strictly within `w` of its location (circular collision,
    /// compared on squared distances so it is exact).
    pub open spec fn catches(self, other: Point2) -> bool {
        self.active && dist2(self.location, other) < self.w * self.w
    }

    /// Builds a snack exactly as the spawner would with the given random
    /// draws: at `(x, y)`, falling at `vy` per tick, active.
    pub fn spawned_at(x: i64, y: i64, vy: i64) -> (s: Snack)
        requires
            0 <= x < SCREEN_W,
            -SCREEN_H <= y <= SCREEN_H,
            SNACK_VY_MIN <= vy < SNACK_VY_MAX,
        ensures
            s.location.x == x,
            s.location.y == y,
            s.velocity.x == 0,
            s.velocity.y == vy,
            s.w == SNACK_W,
            s.active,
            s.wf(),
    {
        Snack {
            location: Point2 { x, y },
            velocity: Vector2 { x: 0, y: vy },
            w: SNACK_W,
            active: true,
        }
    }

    /// Spawns a snack at a uniformly random `x` across the screen, a random
    /// `y` strictly above the top of the screen, and a random downward
    /// speed.
    fn new() -> (s: Snack)
        ensures
            s.wf(),
            s.active,
            s.location.y < 0,
    {
        let x = random_in_range(0, SCREEN_W);
        let y = random_in_range(-SCREEN_H, 0);
        let vy = random_in_range(SNACK_VY_MIN, SNACK_VY_MAX);
        Snack::spawned_at(x, y, vy)
    }

    /// Re-aims the snack at the top of the screen with the given random
    /// draws: horizontal position `x`, vertical position exactly `-w` (its
    /// own width above the screen), downward speed `vy`, active again.
    pub fn respawn_at(&mut self, x: i64, vy: i64)
        requires
            0 <= x < SCREEN_W,
            SNACK_VY_MIN <= vy < SNACK_VY_MAX,
        ensures
            final(self).location.x == x,
            final(self).location.y == -SNACK_W,
            final(self).velocity.x == 0,
            final(self).velocity.y == vy,
            final(self).w == old(self).w,
            final(self).active,
    {
        self.location = Point2 { x, y: -SNACK_W };
        self.velocity = Vector2 { x: 0, y: vy };
        self.active = true;
    }

    /// One tick: fall by the velocity; a snack that has left the bottom of
    /// the screen goes inactive; an inactive snack (whether it just left or
    /// was caught last tick) is immediately re-spawned at a fresh random
    /// spot at the top. The snack is therefore always active afterwards.
    pub fn update(&mut self)
        requires
            old(self).wf(),
        ensures
            final(self).wf(),
            snack_stepped(*old(self), *final(self)),
    {
        self.location.y = self.location.y + self.velocity.y;
        if self.location.y > SCREEN_H {
            self.active = false;
        }
        if !self.active {
            let x = random_in_range(0, SCREEN_W);
            let vy = random_in_range(SNACK_VY_MIN, SNACK_VY_MAX);
            self.respawn_at(x, vy);
        }
    }

    /// Catch test against a claw tip at `other`, consuming the snack on a
    /// hit: if the snack is active and `other` is strictly within `w` of its
    /// location, the snack goes inactive and the call returns true;
    /// otherwise nothing changes and it returns false. A snack already
    /// caught this tick is inactive, so an immediate second call returns
    /// false.
    pub fn collides_with(&mut self, other: Point2) -> (r: bool)
        requires
            old(self).wf(),
        ensures
            r == old(self).catches(other),
            final(self).location == old(self).location,
            final(self).velocity == old(self).velocity,
            final(self).w == old(self).w,
            final(self).active == (old(self).active && !r),
    {
        if !self.active {
            return false;
        }
        // A point at least `w` away on either axis is at least `w` away in
        // distance; rejecting it here also keeps the subtractions small.
        if other.x <= self.location.x - self.w || other.x >= self.location.x + self.w
            || other.y <= self.location.y - self.w || other.y >= self.location.y + self.w {
            proof {
                lemma_far_axis_no_catch(*self, other);
            }
            return false;
        }
        let dx = self.location.x - other.x;
        let dy = self.location.y - other.y;
        proof {
            assert(0 <= dx * dx < SNACK_W * SNACK_W) by (nonlinear_arith)
                requires -SNACK_W < dx < SNACK_W;
            assert(0 <= dy * dy < SNACK_W * SNACK_W) by (nonlinear_arith)
                requires -SNACK_W < dy < SNACK_W;
        }
        if dx * dx + dy * dy < self.w * self.w {
            self.active = false;
            true
        } else {
            false
        }
    }
}

/// Relates a snack after one [`Snack::update`] to its value before: either
/// it simply fell by its velocity, or (because it had left the screen or had
/// been caught) it was re-spawned at the top with fresh draws in the
/// documented ranges. Either way it is active.
pub open spec fn snack_stepped(pre: Snack, post: Snack) -> bool {
    &&& post.active
    &&& post.w == pre.w
    &&& if pre.active && pre.falls_to_y() <= SCREEN_H {
            &&& post.location.x == pre.location.x
            &&& post.location.y == pre.falls_to_y()
            &&& post.velocity == pre.velocity
        } else {
            &&& post.location.y == -SNACK_W
            &&& 0 <= post.location.x < SCREEN_W
            &&& post.velocity.x == 0
            &&& SNACK_VY_MIN <= post.velocity.y < SNACK_VY_MAX
        }
}

/// A point `w` or more away from the snack along one axis is out of catch
/// range: one squared axis distance alone already reaches `w * w`.
proof fn lemma_far_axis_no_catch(s: Snack, other: Point2)
    requires
        s.w > 0,
        other.x <= s.location.x - s.w || other.x >= s.location.x + s.w
            || other.y <= s.location.y - s.w || other.y >= s.location.y + s.w,
    ensures
        dist2(s.location, other) >= s.w * s.w,
{
    let dx = s.location.x - other.x;
    let dy = s.location.y - other.y;
    assert(dx >= s.w || dx <= -s.w || dy >= s.w || dy <= -s.w);
    assert(dx * dx + dy * dy >= s.w * s.w) by (nonlinear_arith)
        requires
            s.w > 0,
            dx >= s.w || dx <= -s.w || dy >= s.w || dy <= -s.w;
}

/// A catch is single-shot: once a successful catch has consumed the snack
/// (same position and size, but inactive), the same claw tip no longer
/// catches it.
pub proof fn lemma_catch_single_shot(pre: Snack, post: Snack, other: Point2)
    requires
        pre.catches(other),
        post.location == pre.location,
        post.velocity == pre.velocity,
        post.w == pre.w,
        !post.active,
    ensures
        !post.catches(other),
{
}

/// Generates `num` freshly spawned snacks, each above the screen.
pub fn spawn_snacks(num: usize) -> (v: Vec<Snack>)
    ensures
        v@.len() == num,
        forall |i: int| 0 <= i < num ==> (#[trigger] v@[i]).wf(),
        forall |i: int| 0 <= i < num ==> v@[i].active,
        forall |i: int| 0 <= i < num ==> v@[i].location.y < 0,
{
    let mut v: Vec<Snack> = Vec::new();
    while v.len() < num
        invariant
            v@.len() <= num,
            forall |i: int| 0 <= i < v@.len() ==> (#[trigger] v@[i]).wf(),
            forall |i: int| 0 <= i < v@.len() ==> v@[i].active,
            forall |i: int| 0 <= i < v@.len() ==> v@[i].location.y < 0,
        decreases num - v.len(),
    {
        v.push(Snack::new());
    }
    v
}

} // verus!
