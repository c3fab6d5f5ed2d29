//! A side-scrolling runner: a player falls under gravity and jumps over walls
//! that scroll in from the right.
//!
//! The crate holds the rules of the game and nothing of the screen. A host
//! hands each frame's elapsed time and key to [`game::State::tick`] and draws
//! the [`scene::Scene`] that comes back.
//!
//! Vertical speed is kept in tenths of a row per tick and time in
//! microseconds, so that every rule is a statement about integers.

pub mod config;
pub mod host;
pub mod scene;
pub mod player;
pub mod obstacle;
pub mod game;
