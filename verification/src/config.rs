//! Fixed configuration of the game: screen size, sprite sizes and speeds.
//!
//! All lengths are in subpixel units, [`SCALE`] units per pixel. The game
//! runs on an 800x600 pixel screen with a crab 100 pixels wide that moves
//! 1.5 pixels per tick, so one pixel is split into [`SCALE`] exact steps.

use vstd::prelude::*;

verus! {

/// Subpixel units per pixel.
pub const SCALE: i64 = 10;

/// Screen width.
pub const SCREEN_W: i64 = 800 * SCALE;

/// Screen height.
pub const SCREEN_H: i64 = 600 * SCALE;

/// Height of the crab sprite.
pub const CRAB_H: i64 = 150 * SCALE;

/// Width of the crab sprite.
pub const CRAB_W: i64 = 100 * SCALE;

/// Horizontal speed of the crab, per tick.
pub const CRAB_S: i64 = 15;

/// Width of a claw sprite.
pub const CLAW_W: i64 = 35 * SCALE;

/// Height of a claw sprite.
pub const CLAW_H: i64 = 50 * SCALE;

/// Step by which one directional input nudges a claw.
pub const CLAW_S: i64 = 30 * SCALE;

/// Width of a snack sprite, also used as its circular collision radius.
pub const SNACK_W: i64 = 40 * SCALE;

/// Number of snacks in the air at all times.
pub const NUM_SNACKS: usize = 15;

/// Least downward speed a snack can spawn with (0.1 pixels per tick).
pub const SNACK_VY_MIN: i64 = 1;

/// Exclusive upper bound on the downward speed a snack can spawn with
/// (2.1 pixels per tick).
pub const SNACK_VY_MAX: i64 = 21;

} // verus!
