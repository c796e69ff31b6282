//! The whole game state and the per-frame orchestration.
//!
//! One call of [`State::update`] runs the fixed frame order: every snack
//! falls (and re-spawns if spent), the crab advances and bounces, both claws
//! are pulled to the crab's new location, and finally every snack is tested
//! against both claw tips, scoring a point for the owner of a catching claw.
//! Player 1's claw is tested first on each snack, so a snack within reach of
//! both claws in the same tick goes to player 1.

use vstd::prelude::*;
use crate::config::{CLAW_H, CLAW_S, CLAW_W, CRAB_H, CRAB_S, CRAB_W, NUM_SNACKS, SCALE,
                    SCREEN_H, SCREEN_W, SNACK_VY_MAX, SNACK_VY_MIN, SNACK_W};
use crate::crab::Crab;
use crate::geom::{sum_at_least, Point2, Vector2};
use crate::player::Player;
use crate::snacks::{snack_stepped, spawn_snacks, Snack};

verus! {

/// The composed game: one crab, two players, a fixed pool of snacks, and
/// the screen width the crab bounces in.
pub struct State {
    /// The player on the left, steering with one set of keys.
    pub player1: Player,
    /// The player on the right, steering with the other set.
    pub player2: Player,
    /// The shared crab body both claws hang from.
    pub crab: Crab,
    /// The snack pool, spawned once; its length never changes.
    pub snacks: Vec<Snack>,
    /// Width the crab bounces in, fixed at construction.
    pub screen_width: i64,
}

/// How many of `snacks` the claw tip at `c1` catches; this claw is tested
/// first, so it takes every snack in its reach.
pub open spec fn count_caught_first(snacks: Seq<Snack>, c1: Point2) -> int
    decreases snacks.len(),
{
    if snacks.len() == 0 {
        0
    } else {
        count_caught_first(snacks.drop_last(), c1)
            + if snacks.last().catches(c1) { 1int } else { 0int }
    }
}

/// The claw tip at `c2`, tested second, catches `s` only if the tip at `c1`
/// did not catch it first.
pub open spec fn caught_second(s: Snack, c1: Point2, c2: Point2) -> bool {
    s.catches(c2) && !s.catches(c1)
}

/// How many of `snacks` the claw tip at `c2` catches, after the tip at `c1`
/// took its share.
pub open spec fn count_caught_second(snacks: Seq<Snack>, c1: Point2, c2: Point2) -> int
    decreases snacks.len(),
{
    if snacks.len() == 0 {
        0
    } else {
        count_caught_second(snacks.drop_last(), c1, c2)
            + if caught_second(snacks.last(), c1, c2) { 1int } else { 0int }
    }
}

/// Relates the snack pool after one collision pass to the pool before it:
/// positions, velocities and sizes are untouched, and a snack stays active
/// exactly if neither claw tip caught it.
pub open spec fn collided(pre: Seq<Snack>, c1: Point2, c2: Point2, post: Seq<Snack>) -> bool {
    &&& post.len() == pre.len()
    &&& forall |i: int| 0 <= i < pre.len() ==> {
            let s = pre[i];
            let t = #[trigger] post[i];
            &&& t.location == s.location
            &&& t.velocity == s.velocity
            &&& t.w == s.w
            &&& t.active == (s.active && !s.catches(c1) && !s.catches(c2))
        }
}

/// Relates a full frame: `mid` is the snack pool after the fall phase but
/// before the collision pass, and `post` is the state at the end of the
/// frame, with each score raised by the number of snacks that player's claw
/// caught among `mid`.
pub open spec fn ticked(pre: State, mid: Seq<Snack>, post: State) -> bool {
    let o1 = post.player1.claw.spec_origin();
    let o2 = post.player2.claw.spec_origin();
    &&& mid.len() == pre.snacks@.len()
    &&& forall |i: int| 0 <= i < mid.len() ==> snack_stepped(pre.snacks@[i], #[trigger] mid[i])
    &&& collided(mid, o1, o2, post.snacks@)
    &&& post.player1.score == pre.player1.score + count_caught_first(mid, o1)
    &&& post.player2.score == pre.player2.score + count_caught_second(mid, o1, o2)
}

proof fn lemma_count_first_bound(snacks: Seq<Snack>, c1: Point2)
    ensures
        0 <= count_caught_first(snacks, c1) <= snacks.len(),
    decreases snacks.len(),
{
    if snacks.len() > 0 {
        lemma_count_first_bound(snacks.drop_last(), c1);
    }
}

proof fn lemma_count_second_bound(snacks: Seq<Snack>, c1: Point2, c2: Point2)
    ensures
        0 <= count_caught_second(snacks, c1, c2) <= snacks.len(),
    decreases snacks.len(),
{
    if snacks.len() > 0 {
        lemma_count_second_bound(snacks.drop_last(), c1, c2);
    }
}

proof fn lemma_count_first_take_step(snacks: Seq<Snack>, c1: Point2, i: int)
    requires
        0 <= i < snacks.len(),
    ensures
        count_caught_first(snacks.take(i + 1), c1)
            == count_caught_first(snacks.take(i), c1)
                + if snacks[i].catches(c1) { 1int } else { 0int },
{
    assert(snacks.take(i + 1).drop_last() =~= snacks.take(i));
    assert(snacks.take(i + 1).last() == snacks[i]);
}

proof fn lemma_count_second_take_step(snacks: Seq<Snack>, c1: Point2, c2: Point2, i: int)
    requires
        0 <= i < snacks.len(),
    ensures
        count_caught_second(snacks.take(i + 1), c1, c2)
            == count_caught_second(snacks.take(i), c1, c2)
                + if caught_second(snacks[i], c1, c2) { 1int } else { 0int },
{
    assert(snacks.take(i + 1).drop_last() =~= snacks.take(i));
    assert(snacks.take(i + 1).last() == snacks[i]);
}

impl State {
    /// Every entity is well-formed: configured sizes and speeds in place,
    /// the crab bouncing, every snack within its steady-state ranges.
    pub open spec fn wf(self) -> bool {
        &&& self.crab.wf()
        &&& self.player1.claw.wf()
        &&& self.player2.claw.wf()
        &&& forall |i: int| 0 <= i < self.snacks@.len() ==> (#[trigger] self.snacks@[i]).wf()
    }

    /// The frame's arithmetic stays inside `i64`: the crab's step, and both
    /// claw tips once the claws have been pulled to the crab's new location.
    pub open spec fn update_fits(self) -> bool {
        &&& self.crab.step_fits(self.screen_width)
        &&& self.player1.claw.origin_fits_at(
                Point2 { x: self.crab.step_x() as i64, y: self.crab.location.y })
        &&& self.player2.claw.origin_fits_at(
                Point2 { x: self.crab.step_x() as i64, y: self.crab.location.y })
    }

    /// Neither score can overflow even if every snack were caught.
    pub open spec fn scores_fit(self) -> bool {
        &&& self.player1.score + self.snacks@.len() <= usize::MAX
        &&& self.player2.score + self.snacks@.len() <= usize::MAX
    }

    /// Builds the game for a `width` by `height` screen: the crab centred
    /// on the bottom edge walking rightward, both players at score zero
    /// with their claws on the crab, and [`NUM_SNACKS`] snacks in the air.
    pub fn new(width: i64, height: i64) -> (s: State)
        requires
            0 <= width,
            0 <= height,
        ensures
            s.wf(),
            s.scores_fit(),
            s.screen_width == width,
            s.crab.location.x == width / 2 - CRAB_W / 2,
            s.crab.location.y == height - CRAB_H,
            s.crab.velocity.x == CRAB_S,
            s.player1.score == 0,
            s.player2.score == 0,
            s.player1.claw.location == s.crab.location,
            s.player2.claw.location == s.crab.location,
            s.player1.claw.body_anchor.x == CLAW_W - 20 * SCALE,
            s.player1.claw.body_anchor.y == CRAB_H / 2,
            s.player1.claw.joint_anchor.x == -30 * SCALE,
            s.player1.claw.joint_anchor.y == -20 * SCALE,
            s.player2.claw.body_anchor.x == CRAB_W + 30 * SCALE,
            s.player2.claw.body_anchor.y == CRAB_H / 2,
            s.player2.claw.joint_anchor.x == 170 * SCALE,
            s.player2.claw.joint_anchor.y == -20 * SCALE,
            s.snacks@.len() == NUM_SNACKS,
            forall |i: int| 0 <= i < s.snacks@.len() ==> (#[trigger] s.snacks@[i]).active,
            forall |i: int| 0 <= i < s.snacks@.len()
                ==> (#[trigger] s.snacks@[i]).location.y < 0,
    {
        let crab_origin = Point2 { x: width / 2 - CRAB_W / 2, y: height - CRAB_H };
        State {
            player1: Player::new(
                crab_origin,
                Vector2 { x: CLAW_W - 20 * SCALE, y: CRAB_H / 2 },
                Vector2 { x: -30 * SCALE, y: -20 * SCALE },
            ),
            player2: Player::new(
                crab_origin,
                Vector2 { x: CRAB_W + 30 * SCALE, y: CRAB_H / 2 },
                Vector2 { x: 170 * SCALE, y: -20 * SCALE },
            ),
            crab: Crab::new(crab_origin),
            snacks: spawn_snacks(NUM_SNACKS),
            screen_width: width,
        }
    }

    /// One collision pass: each snack is tested against player 1's claw tip
    /// first, then against player 2's; a catching player scores a point and
    /// the snack goes inactive for the rest of the tick.
    pub fn collision_check(&mut self)
        requires
            old(self).wf(),
            old(self).player1.claw.origin_fits(),
            old(self).player2.claw.origin_fits(),
            old(self).scores_fit(),
        ensures
            final(self).wf(),
            final(self).crab == old(self).crab,
            final(self).screen_width == old(self).screen_width,
            final(self).player1.claw == old(self).player1.claw,
            final(self).player2.claw == old(self).player2.claw,
            collided(
                old(self).snacks@,
                old(self).player1.claw.spec_origin(),
                old(self).player2.claw.spec_origin(),
                final(self).snacks@,
            ),
            final(self).player1.score == old(self).player1.score
                + count_caught_first(old(self).snacks@, old(self).player1.claw.spec_origin()),
            final(self).player2.score == old(self).player2.score
                + count_caught_second(
                    old(self).snacks@,
                    old(self).player1.claw.spec_origin(),
                    old(self).player2.claw.spec_origin(),
                ),
    {
        let ghost pre = *old(self);
        let c1 = self.player1.claw.get_origin();
        let c2 = self.player2.claw.get_origin();
        let ghost o1 = pre.player1.claw.spec_origin();
        let ghost o2 = pre.player2.claw.spec_origin();
        let mut i: usize = 0;
        while i < self.snacks.len()
            invariant
                i <= self.snacks@.len(),
                self.snacks@.len() == pre.snacks@.len(),
                self.crab == pre.crab,
                self.screen_width == pre.screen_width,
                self.player1.claw == pre.player1.claw,
                self.player2.claw == pre.player2.claw,
                c1 == o1,
                c2 == o2,
                pre.scores_fit(),
                forall |j: int| 0 <= j < pre.snacks@.len() ==> (#[trigger] pre.snacks@[j]).wf(),
                forall |j: int| i <= j < pre.snacks@.len()
                    ==> self.snacks@[j] == pre.snacks@[j],
                forall |j: int| 0 <= j < i ==> {
                    let s = pre.snacks@[j];
                    let t = #[trigger] self.snacks@[j];
                    &&& t.location == s.location
                    &&& t.velocity == s.velocity
                    &&& t.w == s.w
                    &&& t.active == (s.active && !s.catches(o1) && !s.catches(o2))
                },
                self.player1.score == pre.player1.score
                    + count_caught_first(pre.snacks@.take(i as int), o1),
                self.player2.score == pre.player2.score
                    + count_caught_second(pre.snacks@.take(i as int), o1, o2),
            decreases self.snacks@.len() - i,
        {
            proof {
                lemma_count_first_bound(pre.snacks@.take(i as int), o1);
                lemma_count_second_bound(pre.snacks@.take(i as int), o1, o2);
                lemma_count_first_take_step(pre.snacks@, o1, i as int);
                lemma_count_second_take_step(pre.snacks@, o1, o2, i as int);
            }
            let mut s = self.snacks[i];
            if s.collides_with(c1) {
                self.player1.increase_score();
            } else if s.collides_with(c2) {
                self.player2.increase_score();
            }
            self.snacks.set(i, s);
            i = i + 1;
        }
        proof {
            assert(pre.snacks@.take(pre.snacks@.len() as int) =~= pre.snacks@);
        }
    }

    /// One frame, in the fixed order: snacks fall, the crab advances and
    /// bounces, both claws follow the crab, and the collision pass resolves
    /// catches to scores. The snack pool never changes size, and each score
    /// grows by at most the pool size. The `ticked` clause pins the whole
    /// frame down to the intermediate snack pool `mid` that the fall
    /// phase's random re-spawns produced.
    pub fn update(&mut self)
        requires
            old(self).wf(),
            old(self).update_fits(),
            old(self).scores_fit(),
        ensures
            final(self).wf(),
            final(self).screen_width == old(self).screen_width,
            final(self).snacks@.len() == old(self).snacks@.len(),
            final(self).crab.location.x == old(self).crab.step_x(),
            final(self).crab.location.y == old(self).crab.location.y,
            final(self).crab.velocity.x
                == old(self).crab.step_vx(old(self).screen_width as int),
            final(self).crab.velocity.y == 0,
            final(self).player1.claw.location == final(self).crab.location,
            final(self).player2.claw.location == final(self).crab.location,
            final(self).player1.claw.joint_anchor == old(self).player1.claw.joint_anchor,
            final(self).player1.claw.body_anchor == old(self).player1.claw.body_anchor,
            final(self).player2.claw.joint_anchor == old(self).player2.claw.joint_anchor,
            final(self).player2.claw.body_anchor == old(self).player2.claw.body_anchor,
            old(self).player1.score <= final(self).player1.score
                <= old(self).player1.score + old(self).snacks@.len(),
            old(self).player2.score <= final(self).player2.score
                <= old(self).player2.score + old(self).snacks@.len(),
            exists |mid: Seq<Snack>| ticked(*old(self), mid, *final(self)),
    {
        let ghost pre = *old(self);
        // 1. every snack falls, re-spawning if it left the screen or was
        //    caught last tick
        let mut i: usize = 0;
        while i < self.snacks.len()
            invariant
                i <= self.snacks@.len(),
                self.snacks@.len() == pre.snacks@.len(),
                self.crab == pre.crab,
                self.player1 == pre.player1,
                self.player2 == pre.player2,
                self.screen_width == pre.screen_width,
                forall |j: int| 0 <= j < pre.snacks@.len() ==> (#[trigger] pre.snacks@[j]).wf(),
                forall |j: int| i <= j < pre.snacks@.len()
                    ==> self.snacks@[j] == pre.snacks@[j],
                forall |j: int| 0 <= j < i
                    ==> snack_stepped(pre.snacks@[j], #[trigger] self.snacks@[j]),
                forall |j: int| 0 <= j < i ==> (#[trigger] self.snacks@[j]).wf(),
            decreases self.snacks@.len() - i,
        {
            let mut s = self.snacks[i];
            proof {
                assert(self.snacks@[i as int] == pre.snacks@[i as int]);
                assert(pre.snacks@[i as int].wf());
            }
            s.update();
            self.snacks.set(i, s);
            i = i + 1;
        }
        let ghost mid = self.snacks@;
        // 2. the crab advances and bounces at the screen thresholds
        self.crab.update(self.screen_width);
        // 3. both claws are pulled to the crab's new location
        self.player1.update(self.crab.location);
        self.player2.update(self.crab.location);
        // 4. catches become points
        self.collision_check();
        proof {
            lemma_count_first_bound(mid, self.player1.claw.spec_origin());
            lemma_count_second_bound(
                mid,
                self.player1.claw.spec_origin(),
                self.player2.claw.spec_origin(),
            );
            assert(ticked(pre, mid, *self));
        }
    }

    /// Whether [`State::update`]'s preconditions hold, computed rather than
    /// assumed; lets unverified callers test before calling.
    pub fn can_update(&self) -> (b: bool)
        ensures
            b == (self.wf() && self.update_fits() && self.scores_fit()),
    {
        let crab_ok = self.crab.w == CRAB_W && self.crab.s == CRAB_S
            && self.crab.velocity.y == 0
            && (self.crab.velocity.x == CRAB_S || self.crab.velocity.x == -CRAB_S);
        if !crab_ok {
            return false;
        }
        let claw1 = &self.player1.claw;
        let claw2 = &self.player2.claw;
        if !(claw1.w == CLAW_W && claw1.h == CLAW_H && claw1.s == CLAW_S) {
            return false;
        }
        if !(claw2.w == CLAW_W && claw2.h == CLAW_H && claw2.s == CLAW_S) {
            return false;
        }
        if !self.crab.update_fits(self.screen_width) {
            return false;
        }
        let nx = self.crab.location.x + self.crab.velocity.x;
        let ny = self.crab.location.y;
        if !(sum_at_least(nx, claw1.joint_anchor.x, CLAW_W / 2)
            && sum_at_least(ny, claw1.joint_anchor.y, CLAW_H)
            && sum_at_least(nx, claw2.joint_anchor.x, CLAW_W / 2)
            && sum_at_least(ny, claw2.joint_anchor.y, CLAW_H)) {
            return false;
        }
        if self.player1.score > usize::MAX - self.snacks.len()
            || self.player2.score > usize::MAX - self.snacks.len() {
            return false;
        }
        let mut i: usize = 0;
        while i < self.snacks.len()
            invariant
                i <= self.snacks@.len(),
                forall |j: int| 0 <= j < i ==> (#[trigger] self.snacks@[j]).wf(),
            decreases self.snacks@.len() - i,
        {
            let s = &self.snacks[i];
            if !(s.w == SNACK_W && s.velocity.x == 0
                && s.velocity.y >= SNACK_VY_MIN && s.velocity.y < SNACK_VY_MAX
                && s.location.x >= 0 && s.location.x < SCREEN_W
                && s.location.y >= -SCREEN_H && s.location.y <= SCREEN_H) {
                return false;
            }
            i = i + 1;
        }
        true
    }
}

} // verus!
