//! A player-controlled claw, hanging from the crab's body.
//!
//! A claw mirrors the crab's location on every tick (it has no position
//! authority of its own), keeps a fixed `body_anchor` offset to its shoulder
//! (used only for drawing the arm), and a player-movable `joint_anchor`
//! offset to its tip. The derived [`Claw::get_origin`] point is what both
//! rendering and collision use.

use vstd::prelude::*;
use crate::config::{CLAW_H, CLAW_S, CLAW_W};
use crate::geom::{sum_at_least, Point2, Vector2};

verus! {

/// The four ways a player can nudge a claw.
#[derive(Clone, Copy, PartialEq, Eq, Structural, Debug)]
pub enum Directions {
    Up,
    Down,
    Left,
    Right,
}

/// A claw: location mirrors the parent crab, the joint anchor is the only
/// state that player input changes.
#[derive(Clone, Copy, PartialEq, Eq, Structural, Debug)]
pub struct Claw {
    /// Mirror of the parent crab's location, refreshed by [`Claw::update`].
    pub location: Point2,
    /// Fixed offset from `location` to the claw's shoulder.
    pub body_anchor: Vector2,
    /// Player-movable offset from `location` to the claw's tip.
    pub joint_anchor: Vector2,
    /// Sprite width, always [`CLAW_W`].
    pub w: i64,
    /// Sprite height, always [`CLAW_H`].
    pub h: i64,
    /// Nudge step, always [`CLAW_S`].
    pub s: i64,
}

impl Claw {
    /// The configured dimensions and step are in place.
    pub open spec fn wf(self) -> bool {
        &&& self.w == CLAW_W
        &&& self.h == CLAW_H
        &&& self.s == CLAW_S
    }

    /// Horizontal coordinate of the claw tip, as a mathematical integer.
    pub open spec fn origin_x(self) -> int {
        self.location.x + self.joint_anchor.x - CLAW_W / 2
    }

    /// Vertical coordinate of the claw tip, as a mathematical integer.
    pub open spec fn origin_y(self) -> int {
        self.location.y + self.joint_anchor.y - CLAW_H
    }

    /// The claw tip's coordinates stay inside `i64`, were the claw at
    /// location `loc`.
    pub open spec fn origin_fits_at(self, loc: Point2) -> bool {
        &&& i64::MIN + CLAW_W / 2 <= loc.x + self.joint_anchor.x <= i64::MAX
        &&& i64::MIN + CLAW_H <= loc.y + self.joint_anchor.y <= i64::MAX
    }

    /// The claw tip's coordinates stay inside `i64`.
    pub open spec fn origin_fits(self) -> bool {
        self.origin_fits_at(self.location)
    }

    /// The claw tip as a point.
    pub open spec fn spec_origin(self) -> Point2 {
        Point2 { x: self.origin_x() as i64, y: self.origin_y() as i64 }
    }

    /// Builds a claw at `location` with the given anchors and the configured
    /// dimensions and step.
    pub fn new(location: Point2, body_anchor: Vector2, joint_anchor: Vector2) -> (c: Claw)
        ensures
            c.location == location,
            c.body_anchor == body_anchor,
            c.joint_anchor == joint_anchor,
            c.wf(),
    {
        Claw { location, body_anchor, joint_anchor, w: CLAW_W, h: CLAW_H, s: CLAW_S }
    }

    /// Overwrites the claw's location with the parent's current location;
    /// nothing else changes.
    pub fn update(&mut self, parent_loc: Point2)
        ensures
            final(self).location == parent_loc,
            final(self).body_anchor == old(self).body_anchor,
            final(self).joint_anchor == old(self).joint_anchor,
            final(self).w == old(self).w,
            final(self).h == old(self).h,
            final(self).s == old(self).s,
    {
        self.location = parent_loc;
    }

    /// The claw tip: `location + joint_anchor - (CLAW_W / 2, CLAW_H)`, the
    /// point used for both collision and sprite placement.
    pub fn get_origin(&self) -> (r: Point2)
        requires
            self.wf(),
            self.origin_fits(),
        ensures
            r.x == self.origin_x(),
            r.y == self.origin_y(),
            r == self.spec_origin(),
    {
        Point2 { x: self.location.x + self.joint_anchor.x - self.w / 2,
                 y: self.location.y + self.joint_anchor.y - self.h }
    }

    /// The claw tip's coordinates stay inside `i64`; lets unverified
    /// callers test [`Claw::origin_fits`] before calling
    /// [`Claw::get_origin`].
    pub fn origin_in_range(&self) -> (b: bool)
        ensures
            b == self.origin_fits(),
    {
        sum_at_least(self.location.x, self.joint_anchor.x, CLAW_W / 2)
            && sum_at_least(self.location.y, self.joint_anchor.y, CLAW_H)
    }

    /// The nudge in direction `dir` stays inside `i64`.
    pub open spec fn can_move(self, dir: Directions) -> bool {
        match dir {
            Directions::Up => i64::MIN <= self.joint_anchor.y - self.s <= i64::MAX,
            Directions::Down => i64::MIN <= self.joint_anchor.y + self.s <= i64::MAX,
            Directions::Left => i64::MIN <= self.joint_anchor.x - self.s <= i64::MAX,
            Directions::Right => i64::MIN <= self.joint_anchor.x + self.s <= i64::MAX,
        }
    }

    /// The joint anchor after one nudge in direction `dir`: one axis moved
    /// by the step `s`, the other untouched.
    pub open spec fn moved_anchor(self, dir: Directions) -> Vector2 {
        match dir {
            Directions::Up => Vector2 {
                x: self.joint_anchor.x,
                y: (self.joint_anchor.y - self.s) as i64,
            },
            Directions::Down => Vector2 {
                x: self.joint_anchor.x,
                y: (self.joint_anchor.y + self.s) as i64,
            },
            Directions::Left => Vector2 {
                x: (self.joint_anchor.x - self.s) as i64,
                y: self.joint_anchor.y,
            },
            Directions::Right => Vector2 {
                x: (self.joint_anchor.x + self.s) as i64,
                y: self.joint_anchor.y,
            },
        }
    }

    /// Nudges the joint anchor one step in direction `dir` and returns the
    /// new anchor. There is no bound: a claw can be moved arbitrarily far
    /// from its body.
    pub fn movedir(&mut self, dir: Directions) -> (r: Vector2)
        requires
            old(self).can_move(dir),
        ensures
            final(self).joint_anchor == old(self).moved_anchor(dir),
            r == final(self).joint_anchor,
            final(self).location == old(self).location,
            final(self).body_anchor == old(self).body_anchor,
            final(self).w == old(self).w,
            final(self).h == old(self).h,
            final(self).s == old(self).s,
    {
        match dir {
            Directions::Up => self.joint_anchor.y = self.joint_anchor.y - self.s,
            Directions::Down => self.joint_anchor.y = self.joint_anchor.y + self.s,
            Directions::Left => self.joint_anchor.x = self.joint_anchor.x - self.s,
            Directions::Right => self.joint_anchor.x = self.joint_anchor.x + self.s,
        }
        self.joint_anchor
    }

    /// The nudge in direction `dir` would stay inside `i64`; lets unverified
    /// callers test [`Claw::can_move`] before calling [`Claw::movedir`].
    pub fn movedir_fits(&self, dir: Directions) -> (b: bool)
        requires
            self.wf(),
        ensures
            b == self.can_move(dir),
    {
        match dir {
            Directions::Up => self.joint_anchor.y >= i64::MIN + self.s,
            Directions::Down => self.joint_anchor.y <= i64::MAX - self.s,
            Directions::Left => self.joint_anchor.x >= i64::MIN + self.s,
            Directions::Right => self.joint_anchor.x <= i64::MAX - self.s,
        }
    }
}

/// One nudge changes exactly one axis of the joint anchor, by exactly the
/// configured step, whatever the direction.
pub proof fn lemma_movedir_changes_one_axis(c: Claw, dir: Directions)
    requires
        c.wf(),
        c.can_move(dir),
    ensures
        ({
            let m = c.moved_anchor(dir);
            let dx = m.x - c.joint_anchor.x;
            let dy = m.y - c.joint_anchor.y;
            &&& (dx == 0 || dy == 0)
            &&& !(dx == 0 && dy == 0)
            &&& (dx == 0 ==> dy == CLAW_S || dy == -CLAW_S)
            &&& (dy == 0 ==> dx == CLAW_S || dx == -CLAW_S)
        }),
{
}

} // verus!
