//! Simulation core of a small two-player arcade game: a crab walks back and
//! forth along the bottom of the screen while two players steer claws to catch
//! falling snacks for points.
//!
//! This crate holds the per-frame game logic only: entity motion, claw
//! kinematics relative to the moving crab body, snack spawn/respawn cycling,
//! and collision-to-score resolution. Windowing, rendering, audio and input
//! mapping live outside, in an unverified shell around this crate.
//!
//! All coordinates are integers measured in subpixel units ([`config::SCALE`]
//! units per pixel), so every per-tick motion step is exact and free of
//! rounding.

pub mod claw;
pub mod config;
pub mod crab;
pub mod geom;
pub mod player;
mod rng;
pub mod snacks;
pub mod state;
