use crab::claw::{Claw, Directions};
use crab::crab::Crab;
use crab::geom::{Point2, Vector2};
use crab::player::Player;
use crab::snacks::{spawn_snacks, Snack};

#[test]
fn claw_update_tracks_parent() {
    let mut c = Claw::new(
        Point2::new(0, 0),
        Vector2::new(150, 750),
        Vector2::new(-300, -200),
    );
    c.update(Point2::new(1230, 4560));
    assert_eq!(c.location.x, 1230);
    assert_eq!(c.location.y, 4560);
    // anchors are untouched by a positional update
    assert_eq!(c.body_anchor.x, 150);
    assert_eq!(c.joint_anchor.y, -200);
}

#[test]
fn movedir_changes_one_axis_by_the_step() {
    let mut c = Claw::new(Point2::new(0, 0), Vector2::new(0, 0), Vector2::new(70, 90));
    let up = c.movedir(Directions::Up);
    assert_eq!((up.x, up.y), (70, 90 - 300));
    let down = c.movedir(Directions::Down);
    assert_eq!((down.x, down.y), (70, 90));
    let left = c.movedir(Directions::Left);
    assert_eq!((left.x, left.y), (70 - 300, 90));
    let right = c.movedir(Directions::Right);
    assert_eq!((right.x, right.y), (70, 90));
}

#[test]
fn movedir_returns_the_stored_anchor() {
    let mut c = Claw::new(Point2::new(0, 0), Vector2::new(0, 0), Vector2::new(0, 0));
    let r = c.movedir(Directions::Right);
    assert_eq!(r.x, c.joint_anchor.x);
    assert_eq!(r.y, c.joint_anchor.y);
    assert_eq!(c.joint_anchor.x, 300);
}

#[test]
fn get_origin_formula() {
    let c = Claw::new(Point2::new(1000, 2000), Vector2::new(0, 0), Vector2::new(50, 60));
    let o = c.get_origin();
    // location + joint anchor - (CLAW_W / 2, CLAW_H)
    assert_eq!(o.x, 1000 + 50 - 175);
    assert_eq!(o.y, 2000 + 60 - 500);
}

#[test]
fn crab_moves_and_flips_at_the_right_threshold() {
    let mut c = Crab::new(Point2::new(5990, 4500));
    c.update(8000);
    // 5990 + 15 = 6005 and 6005 + 2 * 1000 >= 8000, so the velocity flips
    assert_eq!(c.location.x, 6005);
    assert_eq!(c.location.y, 4500);
    assert_eq!(c.velocity.x, -15);
    c.update(8000);
    assert_eq!(c.location.x, 5990);
    assert_eq!(c.velocity.x, -15);
}

#[test]
fn crab_flips_back_below_its_own_width() {
    let mut c = Crab::new(Point2::new(1000, 0));
    // force the leftward phase
    c.velocity = Vector2::new(-15, 0);
    c.update(8000);
    // 985 < 1000, so the velocity flips back to +15
    assert_eq!(c.location.x, 985);
    assert_eq!(c.velocity.x, 15);
}

#[test]
fn crab_oscillates_between_the_asymmetric_thresholds() {
    let mut c = Crab::new(Point2::new(500, 0));
    // rising phase: monotone +15 per tick until x + 2w reaches the screen edge
    let mut guard = 0;
    while c.velocity.x == 15 {
        let x0 = c.location.x;
        c.update(8000);
        assert_eq!(c.location.x, x0 + 15);
        if c.location.x + 2000 >= 8000 {
            assert_eq!(c.velocity.x, -15);
        } else {
            assert_eq!(c.velocity.x, 15);
        }
        guard += 1;
        assert!(guard < 10_000);
    }
    assert!(c.location.x + 2000 >= 8000);
    // falling phase: monotone -15 per tick until x drops below the width
    while c.velocity.x == -15 {
        let x0 = c.location.x;
        c.update(8000);
        assert_eq!(c.location.x, x0 - 15);
        if c.location.x < 1000 {
            assert_eq!(c.velocity.x, 15);
        } else {
            assert_eq!(c.velocity.x, -15);
        }
        guard += 1;
        assert!(guard < 10_000);
    }
    assert!(c.location.x < 1000);
}

#[test]
fn snack_falls_by_its_velocity() {
    let mut s = Snack::spawned_at(100, 200, 10);
    s.update();
    assert_eq!(s.location.x, 100);
    assert_eq!(s.location.y, 210);
    assert!(s.active);
}

#[test]
fn snack_respawns_at_minus_width_after_leaving_the_screen() {
    let mut s = Snack::spawned_at(100, 5995, 10);
    s.update();
    // 5995 + 10 is past the bottom, so the snack is re-spawned at y == -w
    assert!(s.active);
    assert_eq!(s.location.y, -400);
    assert!(0 <= s.location.x && s.location.x < 8000);
    assert_eq!(s.velocity.x, 0);
    assert!(1 <= s.velocity.y && s.velocity.y < 21);
}

#[test]
fn snack_respawns_after_a_catch() {
    let mut s = Snack::spawned_at(1000, 1000, 5);
    assert!(s.collides_with(Point2::new(1000, 1000)));
    assert!(!s.active);
    s.update();
    assert!(s.active);
    assert_eq!(s.location.y, -400);
    // a repeat at the old point now tests the fresh position, far above it
    assert!(!s.collides_with(Point2::new(1000, 1000)));
    assert!(s.active);
}

#[test]
fn catch_is_single_shot() {
    let mut s = Snack::spawned_at(1000, 1000, 5);
    let first = s.collides_with(Point2::new(1000, 1000));
    assert!(first);
    assert!(!s.active);
    // same point, no update in between: the snack is already consumed
    let second = s.collides_with(Point2::new(1000, 1000));
    assert!(!second);
}

#[test]
fn catch_radius_is_strict() {
    let mut s = Snack::spawned_at(1000, 1000, 5);
    // exactly w away: no catch
    assert!(!s.collides_with(Point2::new(1400, 1000)));
    assert!(s.active);
    // strictly within w: catch
    assert!(s.collides_with(Point2::new(1399, 1000)));
    assert!(!s.active);
}

#[test]
fn inactive_snack_never_catches() {
    let mut s = Snack::spawned_at(1000, 1000, 5);
    s.active = false;
    assert!(!s.collides_with(Point2::new(1000, 1000)));
}

#[test]
fn spawned_snacks_sit_above_the_screen_in_range() {
    let v = spawn_snacks(15);
    assert_eq!(v.len(), 15);
    for s in &v {
        assert!(s.active);
        assert!(0 <= s.location.x && s.location.x < 8000);
        assert!(-6000 <= s.location.y && s.location.y < 0);
        assert_eq!(s.velocity.x, 0);
        assert!(1 <= s.velocity.y && s.velocity.y < 21);
        assert_eq!(s.w, 400);
    }
}

#[test]
fn player_score_increments_by_one() {
    let mut p = Player::new(Point2::new(0, 0), Vector2::new(0, 0), Vector2::new(0, 0));
    assert_eq!(p.score, 0);
    p.increase_score();
    p.increase_score();
    p.increase_score();
    assert_eq!(p.score, 3);
}

#[test]
fn player_forwards_moves_to_its_claw() {
    let mut p = Player::new(Point2::new(10, 20), Vector2::new(1, 2), Vector2::new(30, 40));
    p.movedir(Directions::Down);
    assert_eq!(p.claw.joint_anchor.y, 340);
    assert_eq!(p.claw.joint_anchor.x, 30);
    p.update(Point2::new(70, 80));
    assert_eq!(p.claw.location.x, 70);
    assert_eq!(p.claw.location.y, 80);
    assert_eq!(p.score, 0);
}
