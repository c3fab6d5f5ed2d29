//! The wall the player has to clear: where it stands, where its gap is, and
//! whether the player ran into it.

use vstd::prelude::*;
use bracket_lib::random::RandomNumberGenerator;
use bracket_lib::terminal::to_cp437;
use crate::config::{
    GAP_SIZE_MAX, GAP_SIZE_MIN, GAP_Y_MAX, GAP_Y_MIN, PLAYER_COLUMN, SCREEN_HEIGHT,
};
use crate::host::{cp437, range_i32};
use crate::player::Player;
use crate::scene::Cell;

verus! {

/// A wall at world column `x` with a gap of `size` rows to either side of row
/// `gap_y`.
#[derive(Clone, Copy, Debug, PartialEq, Eq, Structural)]
pub struct Obstacle {
    /// World column of the wall.
    pub x: i32,
    /// Row at the centre of the gap.
    pub gap_y: i32,
    /// Rows of gap above and below the centre.
    pub size: i32,
}

impl Obstacle {
    /// The gap is one that generation can produce.
    pub open spec fn well_formed(&self) -> bool {
        &&& GAP_Y_MIN <= self.gap_y <= GAP_Y_MAX
        &&& GAP_SIZE_MIN <= self.size <= GAP_SIZE_MAX
    }

    /// The player stands in the wall's column and outside its gap.
    pub open spec fn hits(&self, player: Player) -> bool {
        &&& player.x + PLAYER_COLUMN == self.x
        &&& (player.y < self.gap_y - self.size || player.y > self.gap_y + self.size)
    }

    /// The first row of the wall below the gap.
    pub open spec fn wall_top(&self) -> int {
        self.gap_y + self.size
    }

    /// The screen column of the wall when the player is at world column
    /// `player_x`.
    pub open spec fn screen_x(&self, player_x: int) -> int {
        self.x - player_x + PLAYER_COLUMN
    }

    /// The picture of the wall: one bar in the wall's screen column for each
    /// row from below the gap to the bottom of the play area, top down.
    pub open spec fn wall_cells(&self, player_x: int) -> Seq<Cell> {
        let rows = if self.wall_top() < SCREEN_HEIGHT {
            SCREEN_HEIGHT - self.wall_top()
        } else {
            0
        };
        Seq::new(
            rows as nat,
            |i: int|
                Cell {
                    x: self.screen_x(player_x) as i32,
                    y: (self.wall_top() + i) as i32,
                    glyph: cp437('|'),
                },
        )
    }

    /// Whether the wall is well formed.
    pub fn is_well_formed(&self) -> (ok: bool)
        ensures
            ok == self.well_formed(),
    {
        GAP_Y_MIN <= self.gap_y && self.gap_y <= GAP_Y_MAX && GAP_SIZE_MIN <= self.size
            && self.size <= GAP_SIZE_MAX
    }

    /// The wall at `x` with the given gap.
    pub fn with_gap(x: i32, gap_y: i32, size: i32) -> (obstacle: Obstacle)
        ensures
            obstacle == (Obstacle { x, gap_y, size }),
    {
        Obstacle { x, gap_y, size }
    }

    /// A wall at `x` with a gap drawn at random from a generator of its own.
    /// The score is taken so that walls could grow harder with it; at present
    /// it changes nothing.
    pub fn new(x: i32, _score: i32) -> (obstacle: Obstacle)
        ensures
            obstacle.x == x,
            obstacle.well_formed(),
    {
        let mut random = RandomNumberGenerator::new();
        let gap_y: i32 = range_i32(&mut random, GAP_Y_MIN, GAP_Y_MAX + 1);
        let size: i32 = range_i32(&mut random, GAP_SIZE_MIN, GAP_SIZE_MAX + 1);
        Obstacle::with_gap(x, gap_y, size)
    }

    /// What to draw for the wall when the player is at world column
    /// `player_x`. The column and the first row must fit the screen's
    /// coordinate type.
    pub fn render(&self, player_x: i32) -> (wall: Vec<Cell>)
        requires
            i32::MIN <= self.screen_x(player_x as int) <= i32::MAX,
            i32::MIN <= self.wall_top() <= i32::MAX,
        ensures
            wall@ == self.wall_cells(player_x as int),
    {
        let screen_x: i32 = (self.x as i64 - player_x as i64 + PLAYER_COLUMN as i64) as i32;
        let top: i32 = self.gap_y + self.size;
        let bar: u16 = to_cp437('|');
        let mut wall: Vec<Cell> = Vec::new();
        let mut y: i32 = top;
        while y < SCREEN_HEIGHT
            invariant
                top == self.wall_top(),
                screen_x == self.screen_x(player_x as int),
                bar == cp437('|'),
                top <= y,
                y <= SCREEN_HEIGHT || y == top,
                wall@.len() == y - top,
                forall|i: int|
                    0 <= i < wall@.len() ==> wall@[i] == (Cell {
                        x: screen_x,
                        y: (top + i) as i32,
                        glyph: bar,
                    }),
            decreases SCREEN_HEIGHT - y,
        {
            wall.push(Cell { x: screen_x, y, glyph: bar });
            y = y + 1;
        }
        assert(wall@ =~= self.wall_cells(player_x as int));
        wall
    }

    /// Whether the player has run into the wall: it stands in the wall's
    /// column and above or below the gap.
    pub fn hit_obstacle(&self, player: &Player) -> (hit: bool)
        ensures
            hit == self.hits(*player),
    {
        let does_x_match = player.x as i64 + PLAYER_COLUMN as i64 == self.x as i64;
        let player_above_gap = (player.y as i64) < self.gap_y as i64 - self.size as i64;
        let player_below_gap = player.y as i64 > self.gap_y as i64 + self.size as i64;
        does_x_match && (player_above_gap || player_below_gap)
    }
}

} // verus!
