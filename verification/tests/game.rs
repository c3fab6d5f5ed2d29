use ascii_runner::config::FRAME_DURATION_US;
use ascii_runner::game::{GameMode, Key, State};
use ascii_runner::obstacle::Obstacle;
use ascii_runner::player::Player;
use ascii_runner::scene::{Cell, Scene};

fn running(player: Player, obstacle: Obstacle, score: i32) -> State {
    State { player, frame_time: 0, obstacle, mode: GameMode::Playing, score }
}

fn grounded(x: i32) -> Player {
    Player { x, y: 49, velocity: 20, frame: 0 }
}

#[test]
fn game_starts_on_the_menu() {
    let s = State::new();
    assert_eq!(s.mode, GameMode::Menu);
    assert_eq!(s.score, 0);
    assert_eq!(s.frame_time, 0);
    assert_eq!(s.player, Player { x: 5, y: 25, velocity: 0, frame: 0 });
    assert_eq!(s.obstacle.x, 80);
    assert!(s.obstacle.is_well_formed());
    assert!(s.can_play());
}

#[test]
fn play_key_on_the_menu_starts_a_run_with_no_score() {
    let mut s = State::new();
    let scene = s.tick(16_000, Some(Key::Play));
    assert!(matches!(scene, Scene::Menu));
    assert_eq!(s.mode, GameMode::Playing);
    assert_eq!(s.score, 0);
    assert_eq!(s.player, Player { x: 5, y: 25, velocity: 0, frame: 0 });
    assert_eq!(s.frame_time, 0);
    assert_eq!(s.obstacle.x, 80);
    assert!(s.can_play());
}

#[test]
fn menu_ignores_other_keys_and_time() {
    let mut s = State::new();
    let before = s;
    assert!(matches!(s.tick(1_000_000, None), Scene::Menu));
    assert!(matches!(s.tick(1_000_000, Some(Key::Jump)), Scene::Menu));
    assert!(matches!(s.main_menu(Some(Key::Other)), Scene::Menu));
    assert_eq!(s, before);
}

#[test]
fn restart_resets_everything() {
    let mut s = State {
        player: Player { x: 900, y: 44, velocity: -7, frame: 3 },
        frame_time: 40_000,
        obstacle: Obstacle::with_gap(950, 39, 9),
        mode: GameMode::End,
        score: 11,
    };
    s.restart();
    assert_eq!(s.score, 0);
    assert_eq!(s.player, Player { x: 5, y: 25, velocity: 0, frame: 0 });
    assert_eq!(s.frame_time, 0);
    assert_eq!(s.mode, GameMode::Playing);
    assert_eq!(s.obstacle.x, 80);
    assert!(s.obstacle.is_well_formed());
}

#[test]
fn end_screen_shows_the_score_and_waits_for_the_play_key() {
    let mut s = running(grounded(100), Obstacle::with_gap(160, 40, 2), 1);
    s.mode = GameMode::End;
    let before = s;
    assert!(matches!(s.tick(80_000, Some(Key::Jump)), Scene::End { score: 1 }));
    assert!(matches!(s.dead(None), Scene::End { score: 1 }));
    assert_eq!(s, before);
    assert!(matches!(s.tick(0, Some(Key::Play)), Scene::End { score: 1 }));
    assert_eq!(s.mode, GameMode::Playing);
    assert_eq!(s.score, 0);
    assert_eq!(s.player, Player { x: 5, y: 25, velocity: 0, frame: 0 });
}

#[test]
fn physics_waits_until_the_frame_duration_is_exceeded() {
    let mut s = running(grounded(5), Obstacle::with_gap(80, 40, 2), 0);
    s.tick(75_000, None);
    assert_eq!(s.player.x, 5);
    assert_eq!(s.frame_time, FRAME_DURATION_US);
    s.tick(1, None);
    assert_eq!(s.player.x, 6);
    assert_eq!(s.frame_time, 0);
}

#[test]
fn frame_time_adds_up_over_frames_and_one_frame_gives_one_tick() {
    let mut s = running(grounded(5), Obstacle::with_gap(80, 40, 2), 0);
    for _ in 0..4 {
        s.tick(16_667, None);
    }
    assert_eq!((s.player.x, s.frame_time), (5, 66_668));
    s.tick(16_667, None);
    assert_eq!((s.player.x, s.frame_time), (6, 0));
    s.tick(u32::MAX, None);
    assert_eq!((s.player.x, s.frame_time), (7, 0));
}

#[test]
fn jump_key_acts_in_any_frame() {
    let mut s = running(grounded(5), Obstacle::with_gap(80, 40, 2), 0);
    s.tick(1_000, Some(Key::Jump));
    assert_eq!(s.player, Player { x: 5, y: 49, velocity: -25, frame: 0 });
    assert_eq!(s.frame_time, 1_000);
}

#[test]
fn jump_key_in_a_tick_frame_acts_after_the_tick() {
    let mut s = running(Player { x: 5, y: 48, velocity: 20, frame: 3 }, Obstacle::with_gap(80, 40, 2), 0);
    s.tick(80_000, Some(Key::Jump));
    assert_eq!(s.player, Player { x: 6, y: 49, velocity: -25, frame: 0 });
}

#[test]
fn other_keys_do_nothing_in_a_run() {
    let mut s = running(grounded(5), Obstacle::with_gap(80, 40, 2), 0);
    let before = s;
    s.tick(0, Some(Key::Play));
    s.tick(0, Some(Key::Other));
    assert_eq!(s, before);
}

#[test]
fn run_scene_shows_player_wall_and_score() {
    let mut s = running(grounded(5), Obstacle::with_gap(80, 40, 6), 3);
    s.obstacle.x = 320;
    s.player.x = 300;
    let scene = s.tick(80_000, None);
    match scene {
        Scene::Playing { player, wall, score } => {
            assert_eq!(player, Cell { x: 20, y: 49, glyph: 179 });
            let expected: Vec<Cell> = (46..50).map(|y| Cell { x: 39, y, glyph: 124 }).collect();
            assert_eq!(wall, expected);
            assert_eq!(score, 3);
        }
        _ => panic!("a run shows the run"),
    }
}

#[test]
fn passing_the_wall_scores_one_and_brings_a_new_wall() {
    let mut s = running(Player { x: 80, y: 40, velocity: 0, frame: 3 }, Obstacle::with_gap(80, 40, 2), 0);
    let old_wall = s.obstacle;
    let scene = s.tick(80_000, None);
    assert_eq!(s.player.x, 81);
    assert_eq!(s.score, 1);
    assert_eq!(s.obstacle.x, 161);
    assert!(s.obstacle.is_well_formed());
    assert_eq!(s.mode, GameMode::Playing);
    match scene {
        Scene::Playing { wall, score, .. } => {
            assert_eq!(score, 0);
            assert_eq!(wall, old_wall.render(81));
        }
        _ => panic!("a run shows the run"),
    }
    s.tick(80_000, None);
    assert_eq!(s.score, 1);
    assert_eq!(s.obstacle.x, 161);
}

#[test]
fn running_into_the_wall_ends_the_run() {
    let mut s = running(grounded(59), Obstacle::with_gap(80, 40, 2), 0);
    s.tick(80_000, None);
    assert_eq!(s.player.x, 60);
    assert_eq!(s.mode, GameMode::End);
    assert_eq!(s.score, 0);
    assert_eq!(s.obstacle, Obstacle::with_gap(80, 40, 2));
}

#[test]
fn passing_through_the_gap_keeps_the_run_going() {
    let mut s = running(Player { x: 59, y: 40, velocity: -1, frame: 3 }, Obstacle::with_gap(80, 40, 2), 0);
    s.tick(80_000, None);
    assert_eq!((s.player.x, s.player.y), (60, 40));
    assert_eq!(s.mode, GameMode::Playing);
}

#[test]
fn staying_on_the_floor_loses_at_the_first_wall() {
    let mut s = State::new();
    s.tick(0, Some(Key::Play));
    s.obstacle = Obstacle::with_gap(80, 40, 2);
    let mut frames = 0;
    while s.mode == GameMode::Playing {
        assert!(s.can_play());
        s.tick(80_000, None);
        frames += 1;
        assert!(frames <= 55);
    }
    assert_eq!(frames, 55);
    assert_eq!(s.mode, GameMode::End);
    assert_eq!(s.player.x, 60);
    assert_eq!(s.score, 0);
}

#[test]
fn a_timed_jump_clears_the_first_wall_and_scores() {
    let mut s = State::new();
    s.tick(0, Some(Key::Play));
    s.obstacle = Obstacle::with_gap(80, 40, 2);
    while s.player.x < 48 {
        s.tick(80_000, None);
    }
    s.tick(0, Some(Key::Jump));
    while s.player.x < 81 && s.mode == GameMode::Playing {
        s.tick(80_000, None);
        assert!(s.can_play());
    }
    assert_eq!(s.mode, GameMode::Playing);
    assert_eq!(s.score, 1);
    assert_eq!(s.obstacle.x, 161);
}

#[test]
fn can_play_tells_ill_formed_states_apart() {
    let good = running(grounded(5), Obstacle::with_gap(80, 40, 2), 0);
    assert!(good.can_play());
    let mut s = good;
    s.frame_time = 75_001;
    assert!(!s.can_play());
    s = good;
    s.score = 1;
    assert!(!s.can_play());
    s = good;
    s.player.x = 81;
    assert!(!s.can_play());
    s = good;
    s.obstacle.x = 86;
    assert!(!s.can_play());
    s = good;
    s.player.x = i32::MAX - 80;
    s.obstacle.x = i32::MAX;
    assert!(!s.can_play());
}

#[test]
fn a_frame_does_not_ask_how_the_score_relates_to_the_wall() {
    let mut s = State {
        player: Player { x: 5, y: 49, velocity: 20, frame: 1 },
        frame_time: 50_000,
        obstacle: Obstacle::with_gap(80, 40, 5),
        mode: GameMode::Playing,
        score: 3,
    };
    assert!(!s.can_play());
    assert!(s.play_fits(200_000, Some(Key::Jump)));
    s.play(200_000, Some(Key::Jump));
    assert_eq!(s.player, Player { x: 6, y: 49, velocity: -25, frame: 2 });
    assert_eq!(s.frame_time, 0);
    assert_eq!(s.score, 3);
    assert_eq!(s.obstacle, Obstacle::with_gap(80, 40, 5));
    assert_eq!(s.mode, GameMode::Playing);
}

#[test]
fn collision_with_a_score_on_the_board() {
    let mut s = running(grounded(59), Obstacle::with_gap(80, 40, 2), 4);
    assert!(s.play_fits(76_000, None));
    s.tick(76_000, None);
    assert_eq!(s.mode, GameMode::End);
    assert_eq!(s.score, 4);
    assert_eq!(s.player, Player { x: 60, y: 49, velocity: 20, frame: 1 });
    assert_eq!(s.obstacle, Obstacle::with_gap(80, 40, 2));
}

#[test]
fn inside_the_gap_with_a_score_on_the_board() {
    let mut s = running(Player { x: 59, y: 41, velocity: 0, frame: 3 }, Obstacle::with_gap(80, 40, 2), 4);
    assert!(s.play_fits(76_000, None));
    s.tick(76_000, None);
    assert_eq!(s.mode, GameMode::Playing);
    assert_eq!(s.score, 4);
    assert_eq!(s.player, Player { x: 60, y: 41, velocity: 2, frame: 3 });
}

#[test]
fn a_wall_outside_the_generated_range_plays_as_any_other() {
    let mut s = running(Player { x: 29, y: 10, velocity: 0, frame: 3 }, Obstacle::with_gap(50, 20, 12), 0);
    assert!(s.play_fits(80_000, None));
    let scene = s.tick(80_000, None);
    assert_eq!(s.mode, GameMode::Playing);
    match scene {
        Scene::Playing { wall, .. } => {
            assert_eq!(wall.len(), 18);
            assert_eq!(wall[0], Cell { x: 40, y: 32, glyph: 124 });
        }
        _ => panic!("a run shows the run"),
    }
    s.player.x = 29;
    s.player.y = 33;
    s.tick(80_000, None);
    assert_eq!(s.mode, GameMode::End);
}

#[test]
fn frames_that_do_not_fit_are_told_apart() {
    let good = running(grounded(5), Obstacle::with_gap(80, 40, 2), 0);
    assert!(good.play_fits(0, None));
    let mut s = good;
    s.player.frame = 4;
    assert!(!s.play_fits(75_000, None));
    assert!(s.play_fits(75_001, None));
    s = good;
    s.player.x = i32::MAX;
    s.obstacle.x = i32::MAX;
    assert!(s.play_fits(75_000, None));
    assert!(!s.play_fits(75_001, None));
    s = good;
    s.player.x = i32::MAX - 79;
    s.obstacle.x = i32::MAX - 80;
    assert!(!s.play_fits(0, None));
    s.obstacle.x = i32::MAX - 79;
    assert!(s.play_fits(0, None));
    s = good;
    s.player.x = 21;
    s.obstacle.x = i32::MIN;
    assert!(!s.play_fits(0, None));
    s.player.x = 20;
    assert!(s.play_fits(0, None));
    s = good;
    s.player.x = 81;
    s.score = i32::MAX;
    assert!(!s.play_fits(0, None));
    s = good;
    s.frame_time = u64::MAX;
    assert!(s.play_fits(u32::MAX, None));
}

#[test]
fn unspent_time_above_the_threshold_is_spent_on_the_next_frame() {
    let mut s = running(grounded(5), Obstacle::with_gap(80, 40, 2), 0);
    s.frame_time = u64::MAX;
    s.tick(u32::MAX, None);
    assert_eq!((s.player.x, s.frame_time), (6, 0));
}

#[test]
fn every_run_starts_where_the_game_started() {
    let start = State::new();
    let mut s = start;
    s.tick(0, Some(Key::Play));
    assert_eq!(s.player, start.player);
    for _ in 0..30 {
        s.tick(80_000, None);
    }
    s.restart();
    assert_eq!(s.player, start.player);
    assert_eq!(s.player.y, 25);
}
