//! The game as a state machine: a menu, the run, and the end screen.
//!
//! A host calls [`State::tick`] once per frame with the time since the last
//! frame and the key pressed, if any, and draws the [`Scene`] it gets back.

use vstd::prelude::*;
use crate::config::{
    FRAME_DURATION_US, PLAYER_COLUMN, RUNNING_FRAMES, SCREEN_WIDTH, SPAWN_X, SPAWN_Y,
};
use crate::obstacle::Obstacle;
use crate::player::Player;
use crate::scene::Scene;

verus! {

/// Which screen the game is on.
#[derive(Clone, Copy, Debug, PartialEq, Eq, Structural)]
pub enum GameMode {
    Menu,
    Playing,
    End,
}

/// A key as far as the game tells keys apart.
#[derive(Clone, Copy, Debug, PartialEq, Eq, Structural)]
pub enum Key {
    /// Starts a game from the menu or the end screen.
    Play,
    /// Makes the player jump.
    Jump,
    /// Any other key.
    Other,
}

/// Whether `elapsed_us` more microseconds on top of `frame_time` are enough
/// for a physics tick.
pub open spec fn gate_opens(frame_time: u64, elapsed_us: u32) -> bool {
    frame_time + elapsed_us > FRAME_DURATION_US
}

/// The player after one frame of a run: one tick later if the frame carried
/// a tick, and then jumped if the jump key was pressed.
pub open spec fn moved_player(player: Player, tick: bool, key: Option<Key>) -> Player {
    let moved = if tick {
        player.ticked()
    } else {
        player
    };
    if key == Some(Key::Jump) {
        moved.jumped()
    } else {
        moved
    }
}

/// `scene` is the picture of a run with this player, wall and score.
pub open spec fn shows_run(scene: Scene, player: Player, obstacle: Obstacle, score: i32) -> bool {
    &&& scene matches Scene::Playing { player: cell, wall, score: shown }
    &&& cell == player.cell()
    &&& wall@ == obstacle.wall_cells(player.x as int)
    &&& shown == score
}

/// `state` is the start of a run: the player at rest at its spawn place, a
/// generated wall one screen width from the origin, no score, no time spent.
pub open spec fn run_start(state: State) -> bool {
    &&& state.player == (Player { x: SPAWN_X, y: SPAWN_Y, velocity: 0, frame: 0 })
    &&& state.frame_time == 0
    &&& state.obstacle.x == SCREEN_WIDTH
    &&& state.obstacle.well_formed()
    &&& state.mode == GameMode::Playing
    &&& state.score == 0
}

/// One frame on a waiting screen: the play key starts a run, anything else
/// changes nothing.
pub open spec fn wait_step(pre: State, key: Option<Key>, post: State) -> bool {
    if key == Some(Key::Play) {
        run_start(post)
    } else {
        post == pre
    }
}

/// One frame of a run, from `pre` to `post`, showing `scene`.
///
/// Time is added up, and once it exceeds the frame duration it is spent on
/// one physics tick. A jump is taken in any frame. The picture is of the
/// moved player before the wall is replaced. A player past the wall scores
/// one and meets a new generated wall a screen width ahead. A player in the
/// wall ends the run.
pub open spec fn play_step(
    pre: State,
    elapsed_us: u32,
    key: Option<Key>,
    post: State,
    scene: Scene,
) -> bool {
    let tick = gate_opens(pre.frame_time, elapsed_us);
    let passed = post.player.x > pre.obstacle.x;
    &&& post.frame_time == if tick {
        0
    } else {
        pre.frame_time + elapsed_us
    }
    &&& post.player == moved_player(pre.player, tick, key)
    &&& shows_run(scene, post.player, pre.obstacle, pre.score)
    &&& passed ==> {
        &&& post.score == pre.score + 1
        &&& post.obstacle.x == post.player.x + SCREEN_WIDTH
        &&& post.obstacle.well_formed()
    }
    &&& !passed ==> {
        &&& post.score == pre.score
        &&& post.obstacle == pre.obstacle
    }
    &&& post.mode == if post.obstacle.hits(post.player) {
        GameMode::End
    } else {
        pre.mode
    }
}

/// The start of a run is well formed and has room to play.
pub proof fn lemma_run_start_is_well_formed(state: State)
    requires
        run_start(state),
    ensures
        state.well_formed(),
        state.has_room(),
{
}

/// A waiting screen is left only for a run, and only on the play key.
pub proof fn lemma_wait_step_transitions(pre: State, key: Option<Key>, post: State)
    requires
        wait_step(pre, key, post),
    ensures
        post.mode == pre.mode || post.mode == GameMode::Playing,
        post.mode != pre.mode ==> key == Some(Key::Play) && post.score == 0,
        pre.well_formed() ==> post.well_formed(),
{
}

/// A frame of a run keeps the state well formed, advances the player by at
/// most one tick, raises the score by at most one and never lowers it, and
/// leaves the run only for the end screen, and only by a collision.
pub proof fn lemma_play_step_progress(
    pre: State,
    elapsed_us: u32,
    key: Option<Key>,
    post: State,
    scene: Scene,
)
    requires
        pre.well_formed(),
        pre.has_room(),
        play_step(pre, elapsed_us, key, post, scene),
    ensures
        post.well_formed(),
        post.frame_time <= FRAME_DURATION_US,
        pre.player.x <= post.player.x <= pre.player.x + 1,
        post.player.x == pre.player.x + 1 <==> gate_opens(pre.frame_time, elapsed_us),
        pre.score <= post.score <= pre.score + 1,
        post.mode == pre.mode || post.mode == GameMode::End,
        post.mode != pre.mode ==> post.obstacle.hits(post.player),
{
}

/// On a well-formed state with room, a frame of a run fits whatever time has
/// passed and whatever key was pressed.
pub proof fn lemma_well_formed_frame_fits(state: State, elapsed_us: u32, key: Option<Key>)
    requires
        state.well_formed(),
        state.has_room(),
    ensures
        state.frame_fits(elapsed_us, key),
{
}

/// The whole game.
#[derive(Clone, Copy, Debug, PartialEq, Eq, Structural)]
pub struct State {
    pub player: Player,
    /// Microseconds since the last physics tick.
    pub frame_time: u64,
    pub obstacle: Obstacle,
    pub mode: GameMode,
    /// Walls passed in this run.
    pub score: i32,
}

impl State {
    /// What holds of every state that a game reaches from its start: the
    /// parts are well formed, the unspent time is no more than a frame
    /// duration, the wall is ahead of the player by at most a screen width,
    /// and every wall passed lies a screen width behind the next. No frame
    /// asks for it; every frame keeps it.
    pub open spec fn well_formed(&self) -> bool {
        &&& self.player.well_formed()
        &&& self.obstacle.well_formed()
        &&& self.frame_time <= FRAME_DURATION_US
        &&& 0 <= self.score
        &&& SCREEN_WIDTH * (self.score + 1) <= self.obstacle.x
        &&& self.player.x <= self.obstacle.x <= self.player.x + SCREEN_WIDTH
    }

    /// The player can still advance a tick and be given a wall a screen
    /// width ahead without leaving the range of its coordinate.
    pub open spec fn has_room(&self) -> bool {
        self.player.x < i32::MAX - SCREEN_WIDTH
    }

    /// The arithmetic of one frame of a run stays within the machine's
    /// integers: the player can take the tick if the frame carries one, the
    /// moved player has a glyph, the wall's screen column and first row fit
    /// their type, and if the player passes the wall the score can grow and
    /// a wall can stand a screen width ahead.
    pub open spec fn frame_fits(&self, elapsed_us: u32, key: Option<Key>) -> bool {
        let tick = gate_opens(self.frame_time, elapsed_us);
        let player = moved_player(self.player, tick, key);
        &&& tick ==> self.player.can_tick()
        &&& player.frame < RUNNING_FRAMES
        &&& i32::MIN <= self.obstacle.screen_x(player.x as int) <= i32::MAX
        &&& i32::MIN <= self.obstacle.wall_top() <= i32::MAX
        &&& player.x > self.obstacle.x ==> {
            &&& self.score < i32::MAX
            &&& player.x + SCREEN_WIDTH <= i32::MAX
        }
    }

    /// Whether the state is well formed and has room, which is enough for
    /// any frame of a run to fit.
    ///
    /// [`lemma_well_formed_frame_fits`] proves that it is enough.
    pub fn can_play(&self) -> (ok: bool)
        ensures
            ok == (self.well_formed() && self.has_room()),
    {
        self.player.is_well_formed() && self.obstacle.is_well_formed() && self.frame_time
            <= FRAME_DURATION_US && 0 <= self.score && SCREEN_WIDTH as i64 * (self.score as i64
            + 1) <= self.obstacle.x as i64 && self.player.x <= self.obstacle.x
            && self.obstacle.x as i64 <= self.player.x as i64 + SCREEN_WIDTH as i64
            && self.player.x < i32::MAX - SCREEN_WIDTH
    }

    /// The game as it is before the first run: on the menu, the player at
    /// rest at its spawn place, a generated wall one screen width away.
    pub fn new() -> (state: State)
        ensures
            state.player == (Player { x: SPAWN_X, y: SPAWN_Y, velocity: 0, frame: 0 }),
            state.frame_time == 0,
            state.obstacle.x == SCREEN_WIDTH,
            state.mode == GameMode::Menu,
            state.score == 0,
            state.well_formed(),
            state.has_room(),
    {
        State {
            player: Player::new(SPAWN_X, SPAWN_Y),
            frame_time: 0,
            obstacle: Obstacle::new(SCREEN_WIDTH, 0),
            mode: GameMode::Menu,
            score: 0,
        }
    }

    /// Starts a run afresh, whatever the state was.
    pub fn restart(&mut self)
        ensures
            run_start(*final(self)),
            final(self).well_formed(),
            final(self).has_room(),
    {
        self.player = Player::new(SPAWN_X, SPAWN_Y);
        self.frame_time = 0;
        self.obstacle = Obstacle::new(SCREEN_WIDTH, 0);
        self.mode = GameMode::Playing;
        self.score = 0;
    }

    /// One frame on the menu: shows the menu, and starts a run on the play
    /// key.
    pub fn main_menu(&mut self, key: Option<Key>) -> (scene: Scene)
        ensures
            scene is Menu,
            wait_step(*old(self), key, *final(self)),
            old(self).well_formed() ==> final(self).well_formed(),
    {
        if let Some(Key::Play) = key {
            self.restart();
        }
        Scene::Menu
    }

    /// One frame on the end screen: shows the score reached, and starts a
    /// run on the play key.
    pub fn dead(&mut self, key: Option<Key>) -> (scene: Scene)
        ensures
            scene matches Scene::End { score } && score == old(self).score,
            wait_step(*old(self), key, *final(self)),
            old(self).well_formed() ==> final(self).well_formed(),
    {
        let score = self.score;
        if let Some(Key::Play) = key {
            self.restart();
        }
        Scene::End { score }
    }

    /// Whether a frame of a run with this time and key fits.
    pub fn play_fits(&self, elapsed_us: u32, key: Option<Key>) -> (ok: bool)
        ensures
            ok == self.frame_fits(elapsed_us, key),
    {
        let tick = self.frame_time > FRAME_DURATION_US || elapsed_us as u64 > FRAME_DURATION_US
            - self.frame_time;
        if tick && !self.player.tick_fits() {
            return false;
        }
        let x: i64 = if tick {
            self.player.x as i64 + 1
        } else {
            self.player.x as i64
        };
        let screen_x: i64 = self.obstacle.x as i64 - x + PLAYER_COLUMN as i64;
        let top: i64 = self.obstacle.gap_y as i64 + self.obstacle.size as i64;
        let passes = x > self.obstacle.x as i64;
        (tick || self.player.frame < RUNNING_FRAMES) && i32::MIN as i64 <= screen_x && screen_x
            <= i32::MAX as i64 && i32::MIN as i64 <= top && top <= i32::MAX as i64 && (!passes || (
        self.score < i32::MAX && x + SCREEN_WIDTH as i64 <= i32::MAX as i64))
    }

    /// One frame of a run; see [`play_step`]. The frame's arithmetic must fit
    /// the machine's integers, as [`State::frame_fits`] says; on a well-formed
    /// state with room it always does.
    pub fn play(&mut self, elapsed_us: u32, key: Option<Key>) -> (scene: Scene)
        requires
            old(self).frame_fits(elapsed_us, key),
        ensures
            play_step(*old(self), elapsed_us, key, *final(self), scene),
            old(self).well_formed() ==> final(self).well_formed(),
    {
        let tick = self.frame_time > FRAME_DURATION_US || elapsed_us as u64 > FRAME_DURATION_US
            - self.frame_time;
        if tick {
            self.frame_time = 0;
            self.player.gravity_and_move();
        } else {
            self.frame_time = self.frame_time + elapsed_us as u64;
        }
        if let Some(Key::Jump) = key {
            self.player.jump();
        }
        let player = self.player.render();
        let wall = self.obstacle.render(self.player.x);
        let scene = Scene::Playing { player, wall, score: self.score };

        if self.player.x > self.obstacle.x {
            self.score = self.score + 1;
            self.obstacle = Obstacle::new(self.player.x + SCREEN_WIDTH, self.score);
        }
        if self.obstacle.hit_obstacle(&self.player) {
            self.mode = GameMode::End;
        }
        scene
    }

    /// One frame of the game: the handler of the current screen. In a run the
    /// frame's arithmetic must fit the machine's integers.
    pub fn tick(&mut self, elapsed_us: u32, key: Option<Key>) -> (scene: Scene)
        requires
            old(self).mode == GameMode::Playing ==> old(self).frame_fits(elapsed_us, key),
        ensures
            match old(self).mode {
                GameMode::Menu => scene is Menu && wait_step(*old(self), key, *final(self)),
                GameMode::End => {
                    &&& scene matches Scene::End { score } && score == old(self).score
                    &&& wait_step(*old(self), key, *final(self))
                },
                GameMode::Playing => play_step(*old(self), elapsed_us, key, *final(self), scene),
            },
            old(self).well_formed() ==> final(self).well_formed(),
    {
        match self.mode {
            GameMode::Menu => self.main_menu(key),
            GameMode::End => self.dead(key),
            GameMode::Playing => self.play(elapsed_us, key),
        }
    }
}

} // verus!
