//! The fixed numbers of the play area and of the physics.

use vstd::prelude::*;

verus! {

/// Columns of the play area; a new wall appears this far ahead of the player.
pub const SCREEN_WIDTH: i32 = 80;

/// Rows of the play area.
pub const SCREEN_HEIGHT: i32 = 50;

/// The bottom row, on which the player runs.
pub const FLOOR_Y: i32 = 49;

/// The screen column at which the player is drawn.
pub const PLAYER_COLUMN: i32 = 20;

/// Microseconds of frame time that must be exceeded before physics advances.
pub const FRAME_DURATION_US: u64 = 75_000;

/// Tenths of a row per tick that gravity adds to the velocity each tick.
pub const GRAVITY: i32 = 2;

/// The greatest falling velocity, in tenths of a row per tick.
pub const MAX_VELOCITY: i32 = 20;

/// The velocity a jump sets, in tenths of a row per tick.
pub const JUMP_VELOCITY: i32 = -25;

/// How many steps the running animation has.
pub const RUNNING_FRAMES: usize = 4;

/// The animation step shown while the player is in the air.
pub const AIRBORNE_FRAME: usize = 3;

/// The world column of the player at the start of the game and of every run.
pub const SPAWN_X: i32 = 5;

/// The row of the player at the start of the game and of every run.
pub const SPAWN_Y: i32 = 25;

/// Least gap centre a generated wall can have.
pub const GAP_Y_MIN: i32 = 39;

/// Greatest gap centre a generated wall can have.
pub const GAP_Y_MAX: i32 = 40;

/// Least half-height of the gap of a generated wall.
pub const GAP_SIZE_MIN: i32 = 2;

/// Greatest half-height of the gap of a generated wall.
pub const GAP_SIZE_MAX: i32 = 9;

} // verus!
