use crab::geom::{Point2, Vector2};
use crab::snacks::Snack;
use crab::state::State;

#[test]
fn new_game_centres_the_crab() {
    let s = State::new(8000, 6000);
    // 800 / 2 - 100 / 2 pixels, 600 - 150 pixels, in subpixel units
    assert_eq!(s.crab.location.x, 3500);
    assert_eq!(s.crab.location.y, 4500);
    assert_eq!(s.crab.velocity.x, 15);
    assert_eq!(s.crab.velocity.y, 0);
    assert_eq!(s.screen_width, 8000);
}

#[test]
fn new_game_places_both_claws_on_the_crab() {
    let s = State::new(8000, 6000);
    assert_eq!(s.player1.score, 0);
    assert_eq!(s.player2.score, 0);
    assert_eq!(s.player1.claw.location, s.crab.location);
    assert_eq!(s.player2.claw.location, s.crab.location);
    assert_eq!((s.player1.claw.body_anchor.x, s.player1.claw.body_anchor.y), (150, 750));
    assert_eq!((s.player1.claw.joint_anchor.x, s.player1.claw.joint_anchor.y), (-300, -200));
    assert_eq!((s.player2.claw.body_anchor.x, s.player2.claw.body_anchor.y), (1300, 750));
    assert_eq!((s.player2.claw.joint_anchor.x, s.player2.claw.joint_anchor.y), (1700, -200));
}

#[test]
fn crab_walks_right_from_the_centre_and_turns_at_the_edge() {
    let mut s = State::new(8000, 6000);
    assert_eq!(s.crab.location.x, 3500);
    // monotone rise at 15 per tick until x reaches 6000, then the turn
    let mut guard = 0;
    while s.crab.velocity.x == 15 {
        let x0 = s.crab.location.x;
        s.update();
        assert_eq!(s.crab.location.x, x0 + 15);
        guard += 1;
        assert!(guard < 10_000);
    }
    assert!(s.crab.location.x >= 6000);
    assert_eq!(s.crab.location.x, 6005);
    assert_eq!(s.crab.velocity.x, -15);
}

#[test]
fn snack_pool_keeps_its_size_forever() {
    let mut s = State::new(8000, 6000);
    assert_eq!(s.snacks.len(), 15);
    for _ in 0..200 {
        s.update();
        assert_eq!(s.snacks.len(), 15);
        for sn in &s.snacks {
            assert_eq!(sn.w, 400);
            assert_eq!(sn.velocity.x, 0);
            assert!(1 <= sn.velocity.y && sn.velocity.y < 21);
            assert!(0 <= sn.location.x && sn.location.x < 8000);
            assert!(-6000 <= sn.location.y && sn.location.y <= 6000);
        }
    }
}

#[test]
fn update_pulls_both_claws_to_the_crab() {
    let mut s = State::new(8000, 6000);
    s.update();
    assert_eq!(s.player1.claw.location, s.crab.location);
    assert_eq!(s.player2.claw.location, s.crab.location);
}

#[test]
fn a_catch_scores_for_the_catching_player() {
    let mut s = State::new(8000, 6000);
    // a deterministic pool: one snack under player 1's claw tip, the rest far away
    let mut pool: Vec<Snack> = Vec::new();
    pool.push(Snack::spawned_at(1000, 1000, 5));
    for _ in 1..15 {
        pool.push(Snack::spawned_at(7000, -4000, 5));
    }
    s.snacks = pool;
    // aim player 1's claw tip exactly at (1000, 1000):
    // origin = claw location + joint anchor - (175, 500)
    s.player1.claw.joint_anchor = Vector2::new(1000 - 3500 + 175, 1000 - 4500 + 500);
    let o = s.player1.claw.get_origin();
    assert_eq!((o.x, o.y), (1000, 1000));
    s.collision_check();
    assert_eq!(s.player1.score, 1);
    assert_eq!(s.player2.score, 0);
    assert!(!s.snacks[0].active);
    for i in 1..15 {
        assert!(s.snacks[i].active);
    }
}

#[test]
fn player_one_is_tested_first_on_a_shared_snack() {
    let mut s = State::new(8000, 6000);
    let mut pool: Vec<Snack> = Vec::new();
    pool.push(Snack::spawned_at(1000, 1000, 5));
    for _ in 1..15 {
        pool.push(Snack::spawned_at(7000, -4000, 5));
    }
    s.snacks = pool;
    // both claw tips on the same snack
    s.player1.claw.joint_anchor = Vector2::new(1000 - 3500 + 175, 1000 - 4500 + 500);
    s.player2.claw.joint_anchor = Vector2::new(1000 - 3500 + 175, 1000 - 4500 + 500);
    s.collision_check();
    assert_eq!(s.player1.score, 1);
    assert_eq!(s.player2.score, 0);
}

#[test]
fn a_missed_pool_scores_nothing() {
    let mut s = State::new(8000, 6000);
    let mut pool: Vec<Snack> = Vec::new();
    for _ in 0..15 {
        pool.push(Snack::spawned_at(7000, -4000, 5));
    }
    s.snacks = pool;
    s.collision_check();
    assert_eq!(s.player1.score, 0);
    assert_eq!(s.player2.score, 0);
    for sn in &s.snacks {
        assert!(sn.active);
    }
}

#[test]
fn a_fresh_game_is_ready_to_update() {
    let s = State::new(8000, 6000);
    assert!(s.can_update());
}

#[test]
fn a_misconfigured_game_is_not_ready() {
    let mut s = State::new(8000, 6000);
    s.crab.velocity = Vector2::new(7, 0);
    assert!(!s.can_update());
    let mut t = State::new(8000, 6000);
    t.snacks[0] = Snack {
        location: Point2::new(-1, 0),
        velocity: Vector2::new(0, 5),
        w: 400,
        active: true,
    };
    assert!(!t.can_update());
}
