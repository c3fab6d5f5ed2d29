//! The player and its physics.

use vstd::prelude::*;
use bracket_lib::terminal::to_cp437;
use crate::config::{
    AIRBORNE_FRAME, FLOOR_Y, GRAVITY, JUMP_VELOCITY, MAX_VELOCITY, PLAYER_COLUMN, RUNNING_FRAMES,
};
use crate::host::cp437;
use crate::scene::Cell;

verus! {

/// Whole rows travelled in one tick at `velocity` tenths of a row per tick:
/// the velocity over ten, rounded toward zero.
pub open spec fn rows_moved(velocity: int) -> int {
    if velocity >= 0 {
        velocity / 10
    } else {
        -((-velocity) / 10)
    }
}

/// The velocity one tick after `velocity`: gravity added, capped at
/// [`MAX_VELOCITY`].
pub open spec fn next_velocity(velocity: int) -> int {
    if velocity + GRAVITY < MAX_VELOCITY {
        velocity + GRAVITY
    } else {
        MAX_VELOCITY as int
    }
}

/// The row one tick after being at row `y` with `velocity`: moved by the new
/// velocity and stopped at the floor.
pub open spec fn next_y(y: int, velocity: int) -> int {
    let moved = y + rows_moved(next_velocity(velocity));
    if moved >= FLOOR_Y {
        FLOOR_Y as int
    } else {
        moved
    }
}

/// The animation step after a tick that ends at row `y`: the airborne step
/// above the floor, the next running step on it.
pub open spec fn next_frame(y: int, frame: int) -> int {
    if y < FLOOR_Y {
        AIRBORNE_FRAME as int
    } else {
        (frame + 1) % (RUNNING_FRAMES as int)
    }
}

/// An upper bound on the rows a player with `velocity` will still rise.
pub open spec fn headroom(velocity: int) -> int {
    if velocity < -9 {
        -velocity - 9
    } else {
        0
    }
}

/// A row and a velocity that belong together: the row is inside the play
/// area, the velocity between a jump's and the cap, and a rising player has
/// the rows above it that it will still climb.
pub open spec fn in_bounds(y: int, velocity: int) -> bool {
    &&& 0 <= y <= FLOOR_Y
    &&& JUMP_VELOCITY <= velocity <= MAX_VELOCITY
    &&& headroom(velocity) <= y
}

/// The velocity `n` ticks after `velocity`.
pub open spec fn velocity_after(velocity: int, n: nat) -> int
    decreases n,
{
    if n == 0 {
        velocity
    } else {
        velocity_after(next_velocity(velocity), (n - 1) as nat)
    }
}

/// The row `n` ticks after being at row `y` with `velocity`.
pub open spec fn y_after(y: int, velocity: int, n: nat) -> int
    decreases n,
{
    if n == 0 {
        y
    } else {
        y_after(next_y(y, velocity), next_velocity(velocity), (n - 1) as nat)
    }
}

/// The character of each step of the running animation.
pub open spec fn frame_char(frame: usize) -> char {
    if frame == 0 {
        '\u{2524}'
    } else if frame == 1 {
        '\u{2502}'
    } else if frame == 2 {
        '\u{251C}'
    } else {
        '\u{2534}'
    }
}

/// One tick keeps a row and a velocity that belong together so.
pub proof fn lemma_tick_keeps_bounds(y: int, velocity: int)
    requires
        in_bounds(y, velocity),
    ensures
        in_bounds(next_y(y, velocity), next_velocity(velocity)),
{
}

/// Any number of ticks keeps a row and a velocity that belong together so.
pub proof fn lemma_ticks_keep_bounds(y: int, velocity: int, n: nat)
    requires
        in_bounds(y, velocity),
    ensures
        in_bounds(y_after(y, velocity, n), velocity_after(velocity, n)),
    decreases n,
{
    if n > 0 {
        lemma_tick_keeps_bounds(y, velocity);
        lemma_ticks_keep_bounds(next_y(y, velocity), next_velocity(velocity), (n - 1) as nat);
    }
}

/// After any number of ticks a well-formed player's row is between 0 and the
/// floor.
pub proof fn lemma_row_stays_in_play_area(player: Player, n: nat)
    requires
        player.well_formed(),
    ensures
        0 <= y_after(player.y as int, player.velocity as int, n) <= FLOOR_Y,
{
    lemma_ticks_keep_bounds(player.y as int, player.velocity as int, n);
}

/// A velocity at most the cap is at most the cap after any number of ticks,
/// wherever the player is.
pub proof fn lemma_velocity_stays_capped(player: Player, n: nat)
    requires
        player.velocity <= MAX_VELOCITY,
    ensures
        velocity_after(player.velocity as int, n) <= MAX_VELOCITY,
{
    lemma_ticks_cap_velocity(player.velocity as int, n);
}

/// After at least one tick the velocity is at most the cap, whatever it was
/// before.
pub proof fn lemma_ticks_cap_velocity(velocity: int, n: nat)
    requires
        n > 0 || velocity <= MAX_VELOCITY,
    ensures
        velocity_after(velocity, n) <= MAX_VELOCITY,
    decreases n,
{
    if n > 0 {
        lemma_ticks_cap_velocity(next_velocity(velocity), (n - 1) as nat);
    }
}

/// The row and the velocity `n` ticks on are those of the player ticked `n`
/// times, as long as its column has room to grow.
pub proof fn lemma_ticked_follows_the_model(player: Player, n: nat)
    requires
        player.well_formed(),
        player.x + n <= i32::MAX,
    ensures
        player.ticked_times(n).well_formed(),
        player.ticked_times(n).x == player.x + n,
        player.ticked_times(n).y == y_after(player.y as int, player.velocity as int, n),
        player.ticked_times(n).velocity == velocity_after(player.velocity as int, n),
    decreases n,
{
    if n > 0 {
        lemma_tick_keeps_bounds(player.y as int, player.velocity as int);
        lemma_ticked_follows_the_model(player.ticked(), (n - 1) as nat);
    }
}

/// The runner. `velocity` is in tenths of a row per tick, positive downward.
#[derive(Clone, Copy, Debug, PartialEq, Eq, Structural)]
pub struct Player {
    /// World column; grows by one each tick.
    pub x: i32,
    /// Row, 0 at the top.
    pub y: i32,
    /// Vertical speed in tenths of a row per tick.
    pub velocity: i32,
    /// Step of the animation.
    pub frame: usize,
}

impl Player {
    /// The player is inside the play area, no faster than the cap, and its
    /// animation step exists.
    pub open spec fn well_formed(&self) -> bool {
        &&& in_bounds(self.y as int, self.velocity as int)
        &&& self.frame < RUNNING_FRAMES
    }

    /// A tick keeps the column and the row within the range of their type.
    pub open spec fn can_tick(&self) -> bool {
        &&& self.x < i32::MAX
        &&& i32::MIN <= self.y + rows_moved(next_velocity(self.velocity as int))
    }

    /// The player one physics tick later.
    pub open spec fn ticked(self) -> Player {
        let y = next_y(self.y as int, self.velocity as int);
        Player {
            x: (self.x + 1) as i32,
            y: y as i32,
            velocity: next_velocity(self.velocity as int) as i32,
            frame: next_frame(y, self.frame as int) as usize,
        }
    }

    /// The player `n` physics ticks later.
    pub open spec fn ticked_times(self, n: nat) -> Player
        decreases n,
    {
        if n == 0 {
            self
        } else {
            self.ticked().ticked_times((n - 1) as nat)
        }
    }

    /// The player after a press of the jump key: launched upward if it stood
    /// on the floor, unchanged if it was in the air.
    pub open spec fn jumped(self) -> Player {
        if self.y == FLOOR_Y {
            Player { velocity: JUMP_VELOCITY, ..self }
        } else {
            self
        }
    }

    /// The picture of the player: the glyph of its animation step, at the
    /// player's column of the screen and its row.
    pub open spec fn cell(self) -> Cell {
        Cell { x: PLAYER_COLUMN, y: self.y, glyph: cp437(frame_char(self.frame)) }
    }

    /// A player at rest at the given place, on the first animation step.
    pub fn new(x: i32, y: i32) -> (player: Player)
        ensures
            player == (Player { x, y, velocity: 0, frame: 0 }),
            player.well_formed() <==> 0 <= y <= FLOOR_Y,
    {
        Player { x, y, velocity: 0, frame: 0 }
    }

    /// Whether the player is well formed.
    pub fn is_well_formed(&self) -> (ok: bool)
        ensures
            ok == self.well_formed(),
    {
        if self.y < 0 || self.y > FLOOR_Y || self.frame >= RUNNING_FRAMES {
            return false;
        }
        if self.velocity < JUMP_VELOCITY || self.velocity > MAX_VELOCITY {
            return false;
        }
        let rising: i32 = if self.velocity < -9 {
            -self.velocity - 9
        } else {
            0
        };
        rising <= self.y
    }

    /// Whether a tick keeps the column and the row within their type.
    pub fn tick_fits(&self) -> (ok: bool)
        ensures
            ok == self.can_tick(),
    {
        let velocity: i32 = if self.velocity < MAX_VELOCITY - GRAVITY {
            self.velocity + GRAVITY
        } else {
            MAX_VELOCITY
        };
        let rows: i32 = if velocity >= 0 {
            velocity / 10
        } else {
            -((-velocity) / 10)
        };
        self.x < i32::MAX && i32::MIN as i64 <= self.y as i64 + rows as i64
    }

    /// One physics tick: gravity, fall or rise, one column forward, and the
    /// animation. The column and the row reached must fit their type; the
    /// row of a well-formed player always does.
    pub fn gravity_and_move(&mut self)
        requires
            old(self).can_tick(),
        ensures
            *final(self) == old(self).ticked(),
            final(self).velocity == next_velocity(old(self).velocity as int),
            final(self).y == next_y(old(self).y as int, old(self).velocity as int),
            final(self).x == old(self).x + 1,
            final(self).frame == next_frame(final(self).y as int, old(self).frame as int),
            final(self).velocity <= MAX_VELOCITY,
            final(self).y <= FLOOR_Y,
            final(self).frame < RUNNING_FRAMES,
            old(self).well_formed() ==> final(self).well_formed(),
    {
        if self.velocity < MAX_VELOCITY - GRAVITY {
            self.velocity = self.velocity + GRAVITY;
        } else {
            self.velocity = MAX_VELOCITY;
        }

        let rows: i32 = if self.velocity >= 0 {
            self.velocity / 10
        } else {
            -((-self.velocity) / 10)
        };
        let moved: i64 = self.y as i64 + rows as i64;
        if moved >= FLOOR_Y as i64 {
            self.y = FLOOR_Y;
        } else {
            self.y = moved as i32;
        }

        self.x = self.x + 1;

        if self.y < FLOOR_Y {
            self.frame = AIRBORNE_FRAME;
        } else {
            self.frame = (self.frame % RUNNING_FRAMES + 1) % RUNNING_FRAMES;
        }
    }

    /// Starts a jump if the player stands on the floor; does nothing in the
    /// air.
    pub fn jump(&mut self)
        ensures
            *final(self) == old(self).jumped(),
            old(self).y != FLOOR_Y ==> *final(self) == *old(self),
            old(self).y == FLOOR_Y ==> *final(self) == (Player {
                velocity: JUMP_VELOCITY,
                ..*old(self)
            }),
            old(self).well_formed() ==> final(self).well_formed(),
    {
        if self.y == FLOOR_Y {
            self.velocity = JUMP_VELOCITY;
        }
    }

    /// The character of the current animation step.
    pub fn glyph_char(&self) -> (c: char)
        ensures
            c == frame_char(self.frame),
    {
        if self.frame == 0 {
            '\u{2524}'
        } else if self.frame == 1 {
            '\u{2502}'
        } else if self.frame == 2 {
            '\u{251C}'
        } else {
            '\u{2534}'
        }
    }

    /// What to draw for the player. A step outside the animation has no
    /// glyph.
    pub fn render(&self) -> (cell: Cell)
        requires
            self.frame < RUNNING_FRAMES,
        ensures
            cell == self.cell(),
    {
        Cell { x: PLAYER_COLUMN, y: self.y, glyph: to_cp437(self.glyph_char()) }
    }
}

} // verus!
