//! What a frame shows, as plain values for a host to draw.

use vstd::prelude::*;

verus! {

/// One glyph of the terminal font at a screen position.
#[derive(Clone, Copy, Debug, PartialEq, Eq, Structural)]
pub struct Cell {
    /// Screen column.
    pub x: i32,
    /// Screen row.
    pub y: i32,
    /// Code of the glyph in the terminal font.
    pub glyph: u16,
}

/// The picture of one frame.
#[derive(Debug)]
pub enum Scene {
    /// The title screen.
    Menu,
    /// The running game: the player, the wall below the gap, and the score.
    Playing { player: Cell, wall: Vec<Cell>, score: i32 },
    /// The end screen with the score reached.
    End { score: i32 },
}

} // verus!
