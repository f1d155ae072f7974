//! Simulation core of a minimal real-time interactive application: a
//! fixed-timestep update loop driving an ordered collection of entities,
//! one of which (the player) responds to keyboard input and is rendered
//! each frame. Windowing, rendering and input delivery are left to an
//! unverified host around this library.

pub mod entity;
pub mod game;
pub mod laws;

use vstd::prelude::*;

verus! {

/// Logical viewport width, in pixels.
pub const VIEWPORT_WIDTH: i32 = 800;

/// Logical viewport height, in pixels.
pub const VIEWPORT_HEIGHT: i32 = 600;

/// Where the player first appears: half the viewport width, so that the
/// spawn point is the center of the logical viewport.
pub const SPAWN_X: i32 = 400;

/// Where the player first appears: half the viewport height, so that the
/// spawn point is the center of the logical viewport.
pub const SPAWN_Y: i32 = 300;

/// How far one key-down event moves the player, in pixels.
pub const MOVE_STEP: i32 = 4;

/// Width of the rectangle a player draws.
pub const PLAYER_WIDTH: i32 = 20;

/// Height of the rectangle a player draws.
pub const PLAYER_HEIGHT: i32 = 10;

/// Target simulation update rate, in steps per second.
pub const UPDATES_PER_SECOND: u64 = 8;

/// Minimum interval between two simulation steps, in milliseconds
/// (integer-truncated, as a deliberate fixed-point simplification).
pub const MILLIS_PER_UPDATE: u64 = 1000 / UPDATES_PER_SECOND;

} // verus!
