//! A player: one claw and a score.
//!
//! The player forwards positional updates and directional intents to its
//! claw and exposes a score increment; it holds no other state.

use vstd::prelude::*;
use crate::claw::{Claw, Directions};
use crate::geom::{Point2, Vector2};

verus! {

/// A player, exclusively owning one claw.
#[derive(Clone, Copy, PartialEq, Eq, Structural, Debug)]
pub struct Player {
    /// Snacks caught so far; only ever incremented, one at a time.
    pub score: usize,
    /// The claw this player steers.
    pub claw: Claw,
}

impl Player {
    /// Builds a player with score `0` and a claw at `loc` with the given
    /// anchors.
    pub fn new(loc: Point2, b_anchor: Vector2, j_anchor: Vector2) -> (p: Player)
        ensures
            p.score == 0,
            p.claw.location == loc,
            p.claw.body_anchor == b_anchor,
            p.claw.joint_anchor == j_anchor,
            p.claw.wf(),
    {
        Player { score: 0, claw: Claw::new(loc, b_anchor, j_anchor) }
    }

    /// Moves the claw along with the crab: its location becomes `new_loc`,
    /// nothing else changes.
    pub fn update(&mut self, new_loc: Point2)
        ensures
            final(self).claw.location == new_loc,
            final(self).claw.body_anchor == old(self).claw.body_anchor,
            final(self).claw.joint_anchor == old(self).claw.joint_anchor,
            final(self).claw.w == old(self).claw.w,
            final(self).claw.h == old(self).claw.h,
            final(self).claw.s == old(self).claw.s,
            final(self).score == old(self).score,
    {
        self.claw.update(new_loc);
    }

    /// Awards one point.
    pub fn increase_score(&mut self)
        requires
            old(self).score < usize::MAX,
        ensures
            final(self).score == old(self).score + 1,
            final(self).claw == old(self).claw,
    {
        self.score = self.score + 1;
    }

    /// Forwards a directional intent to the claw: its joint anchor moves one
    /// step in direction `dir`.
    pub fn movedir(&mut self, dir: Directions)
        requires
            old(self).claw.can_move(dir),
        ensures
            final(self).claw.joint_anchor == old(self).claw.moved_anchor(dir),
            final(self).claw.location == old(self).claw.location,
            final(self).claw.body_anchor == old(self).claw.body_anchor,
            final(self).claw.w == old(self).claw.w,
            final(self).claw.h == old(self).claw.h,
            final(self).claw.s == old(self).claw.s,
            final(self).score == old(self).score,
    {
        self.claw.movedir(dir);
    }
}

} // verus!
