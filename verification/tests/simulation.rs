//! End-to-end checks of the match core on concrete values.

use bordtennis::audio::{self, Music};
use bordtennis::ball::{self, Ball};
use bordtennis::bat::{self, Bat, BatInput, Direction, Variant};
use bordtennis::frame;
use bordtennis::state::{self, GameState, State, StateInput};
use bordtennis::units::Vec2;

fn make_bat(variant: Variant, swinging: Direction, position_x: i64) -> Bat {
    let mut b = Bat::new(variant);
    b.swinging = swinging;
    b.position_x = position_x;
    b
}

fn make_ball(x: i64, y: i64, vx: i64, vy: i64, last_hit: Variant) -> Ball {
    Ball {
        position: Vec2 { x, y },
        velocity: Vec2 { x: vx, y: vy },
        last_hit,
    }
}

fn no_keys() -> BatInput {
    BatInput {
        swing_just_pressed: false,
        left_held: false,
        right_held: false,
        run_held: false,
    }
}

fn no_state_keys() -> StateInput {
    StateInput {
        pause_just_pressed: false,
        restart_just_pressed: false,
    }
}

#[test]
fn serve_defaults() {
    let b = Ball::default();
    assert_eq!(b.position, Vec2 { x: 0, y: 2000 });
    assert_eq!(b.velocity, Vec2 { x: 0, y: -1000 });
    assert_eq!(b.last_hit, Variant::Dark);
}

#[test]
fn state_defaults() {
    let s = State::default();
    assert_eq!(s.game_state, GameState::NewGame);
    assert_eq!(s.game_time, 0);
    assert_eq!(s.music_state, Music::Zero);
    assert_eq!(s.hits_with_velocity, 0);
}

#[test]
fn new_bat_rests_at_centre() {
    let b = Bat::new(Variant::Light);
    assert_eq!(b.variant, Variant::Light);
    assert_eq!(b.swinging, Direction::Idle);
    assert_eq!(b.animation_timer, 0);
    assert_eq!(b.position_x, 0);
}

#[test]
fn home_rows() {
    assert_eq!(Variant::Light.default_y_position(), -2000);
    assert_eq!(Variant::Dark.default_y_position(), 2000);
}

#[test]
fn center_hit_reverses_and_scales() {
    // Ball just short of the dark home row, paddle dead centre: dy = 0.10,
    // dx = 0 in world units; the rebound factor bottoms out at 0.90.
    let mut b = make_ball(0, 1990, 0, -1000, Variant::Light);
    let bats = vec![make_bat(Variant::Dark, Direction::Down, 0)];
    let ev = ball::update(&mut b, &bats, 0);
    assert_eq!(ev.hit, Some(Variant::Dark));
    assert_eq!(b.velocity, Vec2 { x: 0, y: 900 });
    assert_eq!(b.last_hit, Variant::Dark);
    assert!(!ev.scored);
    assert_eq!(ev.winner, None);
}

#[test]
fn center_hit_fast_ball_scores() {
    let mut b = make_ball(0, 1990, 0, -4000, Variant::Light);
    let bats = vec![make_bat(Variant::Dark, Direction::Down, 0)];
    let ev = ball::update(&mut b, &bats, 0);
    assert_eq!(ev.hit, Some(Variant::Dark));
    assert_eq!(b.velocity, Vec2 { x: 0, y: 3600 });
    assert!(ev.scored);
}

#[test]
fn out_of_tolerance_miss() {
    // dx = 5.00 world units exceeds the 3.95 tolerance: nothing changes.
    let mut b = make_ball(0, 1990, 0, -1000, Variant::Light);
    let bats = vec![make_bat(Variant::Dark, Direction::Down, 500)];
    let ev = ball::update(&mut b, &bats, 0);
    assert_eq!(ev.hit, None);
    assert_eq!(b.velocity, Vec2 { x: 0, y: -1000 });
    assert_eq!(b.last_hit, Variant::Light);
}

#[test]
fn swing_gate_idle_and_up_never_strike() {
    for swing in [Direction::Idle, Direction::Up] {
        let mut b = make_ball(0, 1990, 0, -1000, Variant::Light);
        let bats = vec![make_bat(Variant::Dark, swing, 0)];
        let ev = ball::update(&mut b, &bats, 0);
        assert_eq!(ev.hit, None);
        assert_eq!(b.velocity, Vec2 { x: 0, y: -1000 });
        assert_eq!(b.last_hit, Variant::Light);
    }
}

#[test]
fn no_consecutive_hits_by_same_side() {
    // The dark side already holds the ball: its own swing is refused.
    let mut b = make_ball(0, 1990, 0, -1000, Variant::Dark);
    let bats = vec![make_bat(Variant::Dark, Direction::Down, 0)];
    let ev = ball::update(&mut b, &bats, 0);
    assert_eq!(ev.hit, None);
    assert_eq!(b.last_hit, Variant::Dark);
}

#[test]
fn rebound_formula_exact() {
    // dx = 2.00, dy = 3.00: vx' = -4 * 2.00 = -8.00; the factor is
    // 0.4 * 3.00 = 1.20, so vy' = -(-10.00 * 1.20) = 12.00.
    let mut b = make_ball(100, 1700, 0, -1000, Variant::Light);
    let bats = vec![make_bat(Variant::Dark, Direction::Down, 300)];
    let ev = ball::update(&mut b, &bats, 0);
    assert_eq!(ev.hit, Some(Variant::Dark));
    assert_eq!(b.velocity, Vec2 { x: -800, y: 1200 });
}

#[test]
fn rebound_vertical_speed_clamped() {
    // dy = 3.90 gives factor 1.25; 60.00 * 1.25 = 75.00 caps at 64.00.
    let mut b = make_ball(0, 1610, 0, -6000, Variant::Light);
    let bats = vec![make_bat(Variant::Dark, Direction::Down, 0)];
    let ev = ball::update(&mut b, &bats, 0);
    assert_eq!(ev.hit, Some(Variant::Dark));
    assert_eq!(b.velocity.y, 6400);
}

#[test]
fn first_accepting_paddle_wins() {
    // Two paddles of the dark side in range: the first in iteration order
    // strikes, the second is skipped.
    let mut b = make_ball(0, 1990, 0, -1000, Variant::Light);
    let bats = vec![
        make_bat(Variant::Dark, Direction::Down, 100),
        make_bat(Variant::Dark, Direction::Down, -100),
    ];
    let ev = ball::update(&mut b, &bats, 0);
    assert_eq!(ev.hit, Some(Variant::Dark));
    assert_eq!(b.velocity.x, -400);
}

#[test]
fn ball_integration_moves_by_velocity_dt() {
    let mut b = make_ball(0, 0, 100, -200, Variant::Dark);
    let bats: Vec<Bat> = vec![];
    let ev = ball::update(&mut b, &bats, 50);
    assert_eq!(b.position, Vec2 { x: 50, y: -100 });
    assert_eq!(ev.winner, None);
}

#[test]
fn crossing_a_home_row_ends_the_rally() {
    let mut b = make_ball(0, -1950, 0, -1000, Variant::Dark);
    let bats: Vec<Bat> = vec![];
    let ev = ball::update(&mut b, &bats, 100);
    assert_eq!(b.position.y, -2950);
    assert_eq!(ev.winner, Some(Variant::Dark));
}

#[test]
fn home_row_itself_is_out() {
    // The strip between the home rows is open: reaching the row exactly
    // ends the rally.
    let mut b = make_ball(0, -1000, 0, -1000, Variant::Light);
    let bats: Vec<Bat> = vec![];
    let ev = ball::update(&mut b, &bats, 100);
    assert_eq!(b.position.y, -2000);
    assert_eq!(ev.winner, Some(Variant::Light));
}

#[test]
fn paddle_walks_and_runs() {
    let mut b = Bat::new(Variant::Light);
    let mut input = no_keys();
    input.left_held = true;
    bat::update(&mut b, input, 50);
    assert_eq!(b.position_x, -400);
    input.run_held = true;
    bat::update(&mut b, input, 50);
    assert_eq!(b.position_x, -1200);
}

#[test]
fn paddle_stays_on_the_playfield() {
    let mut b = Bat::new(Variant::Dark);
    b.position_x = 1150;
    let mut input = no_keys();
    input.right_held = true;
    input.run_held = true;
    bat::update(&mut b, input, 100);
    assert_eq!(b.position_x, 1200);
}

#[test]
fn swing_press_stops_movement_that_frame() {
    let mut b = Bat::new(Variant::Light);
    let mut input = no_keys();
    input.swing_just_pressed = true;
    input.left_held = true;
    bat::update(&mut b, input, 50);
    assert_eq!(b.swinging, Direction::Down);
    assert_eq!(b.position_x, 0);
}

#[test]
fn swing_cycle_down_up_idle() {
    let mut b = Bat::new(Variant::Light);
    let mut press = no_keys();
    press.swing_just_pressed = true;
    bat::update(&mut b, press, 10);
    assert_eq!(b.swinging, Direction::Down);
    assert_eq!(b.animation_timer, 0);
    bat::update(&mut b, no_keys(), 10);
    assert_eq!(b.swinging, Direction::Down);
    assert_eq!(b.animation_timer, 10);
    bat::update(&mut b, no_keys(), 20);
    assert_eq!(b.swinging, Direction::Up);
    assert_eq!(b.animation_timer, 5);
    bat::update(&mut b, no_keys(), 25);
    assert_eq!(b.swinging, Direction::Idle);
    assert_eq!(b.animation_timer, 5);
}

#[test]
fn music_phase_thresholds() {
    assert_eq!(audio::phase(0), Music::Zero);
    assert_eq!(audio::phase(3200), Music::Zero);
    assert_eq!(audio::phase(3201), Music::One);
    assert_eq!(audio::phase(9600), Music::One);
    assert_eq!(audio::phase(9601), Music::Two);
}

#[test]
fn clock_runs_only_while_playing() {
    let mut s = State::default();
    let mut ball = Ball::default();
    let mut bats = vec![Bat::new(Variant::Light), Bat::new(Variant::Dark)];
    let pause = StateInput {
        pause_just_pressed: true,
        restart_just_pressed: false,
    };
    // NewGame: the pause key starts play; the clock then ticks.
    state::update(&mut s, &mut ball, &mut bats, pause, None, false, 10);
    assert_eq!(s.game_state, GameState::Playing);
    assert_eq!(s.game_time, 10);
    state::update(&mut s, &mut ball, &mut bats, no_state_keys(), None, false, 40);
    assert_eq!(s.game_time, 50);
    // Pausing freezes the clock exactly.
    state::update(&mut s, &mut ball, &mut bats, pause, None, false, 30);
    assert_eq!(s.game_state, GameState::Paused);
    assert_eq!(s.game_time, 50);
    state::update(&mut s, &mut ball, &mut bats, no_state_keys(), None, false, 30);
    assert_eq!(s.game_time, 50);
    // Resuming lets it run again.
    state::update(&mut s, &mut ball, &mut bats, pause, None, false, 5);
    assert_eq!(s.game_state, GameState::Playing);
    assert_eq!(s.game_time, 55);
}

#[test]
fn scoring_hit_increments_score() {
    let mut s = State::default();
    s.game_state = GameState::Playing;
    let mut ball = Ball::default();
    let mut bats = vec![Bat::new(Variant::Light), Bat::new(Variant::Dark)];
    state::update(&mut s, &mut ball, &mut bats, no_state_keys(), None, true, 10);
    assert_eq!(s.hits_with_velocity, 1);
}

#[test]
fn winner_report_ends_the_game() {
    let mut s = State::default();
    s.game_state = GameState::Playing;
    s.game_time = 5030;
    s.hits_with_velocity = 7;
    let mut ball = make_ball(0, -2500, 0, -1000, Variant::Dark);
    let mut bats = vec![Bat::new(Variant::Light), Bat::new(Variant::Dark)];
    state::update(
        &mut s,
        &mut ball,
        &mut bats,
        no_state_keys(),
        Some(Variant::Dark),
        false,
        10,
    );
    assert_eq!(s.game_state, GameState::Winner(Variant::Dark));
    // The clock and the score stand until a restart.
    assert_eq!(s.game_time, 5030);
    assert_eq!(s.hits_with_velocity, 7);
    // The ball is already back on serve for the next rally.
    assert_eq!(ball, Ball::default());
}

#[test]
fn restart_resets_everything() {
    let mut s = State {
        game_state: GameState::Winner(Variant::Dark),
        game_time: 5030,
        music_state: Music::One,
        hits_with_velocity: 7,
    };
    let mut ball = make_ball(300, -700, 40, -900, Variant::Light);
    let mut bats = vec![
        make_bat(Variant::Light, Direction::Down, 700),
        make_bat(Variant::Dark, Direction::Up, -300),
    ];
    let restart = StateInput {
        pause_just_pressed: false,
        restart_just_pressed: true,
    };
    state::update(&mut s, &mut ball, &mut bats, restart, None, false, 10);
    assert_eq!(s.game_state, GameState::NewGame);
    assert_eq!(s.game_time, 0);
    assert_eq!(s.hits_with_velocity, 0);
    assert_eq!(s.music_state, Music::Zero);
    assert_eq!(ball, Ball::default());
    for b in &bats {
        assert_eq!(b.position_x, 0);
        assert_eq!(b.swinging, Direction::Idle);
    }
}

#[test]
fn pause_from_win_clears_score_and_plays_on() {
    let mut s = State {
        game_state: GameState::Winner(Variant::Light),
        game_time: 4000,
        music_state: Music::One,
        hits_with_velocity: 3,
    };
    let mut ball = Ball::default();
    let mut bats = vec![Bat::new(Variant::Light), Bat::new(Variant::Dark)];
    let pause = StateInput {
        pause_just_pressed: true,
        restart_just_pressed: false,
    };
    state::update(&mut s, &mut ball, &mut bats, pause, None, false, 10);
    assert_eq!(s.game_state, GameState::Playing);
    assert_eq!(s.hits_with_velocity, 0);
    // Only a restart rewinds the clock.
    assert_eq!(s.game_time, 4010);
}

#[test]
fn restart_wins_over_pause_in_one_tick() {
    let mut s = State::default();
    s.game_state = GameState::Playing;
    s.game_time = 777;
    let mut ball = Ball::default();
    let mut bats = vec![Bat::new(Variant::Light), Bat::new(Variant::Dark)];
    let both = StateInput {
        pause_just_pressed: true,
        restart_just_pressed: true,
    };
    state::update(&mut s, &mut ball, &mut bats, both, None, false, 10);
    assert_eq!(s.game_state, GameState::NewGame);
    assert_eq!(s.game_time, 0);
}

#[test]
fn sprite_index_mapping() {
    assert_eq!(GameState::Paused.sprite_index(), 0);
    assert_eq!(GameState::NewGame.sprite_index(), 1);
    assert_eq!(GameState::Winner(Variant::Light).sprite_index(), 2);
    assert_eq!(GameState::Winner(Variant::Dark).sprite_index(), 3);
}

#[test]
fn frame_stands_still_outside_play() {
    let mut s = State::default();
    let mut ball = make_ball(0, 0, 500, 500, Variant::Dark);
    let mut bats = vec![Bat::new(Variant::Light), Bat::new(Variant::Dark)];
    let mut inputs = vec![no_keys(), no_keys()];
    inputs[0].left_held = true;
    let ev = frame::advance(&mut s, &mut ball, &mut bats, &inputs, no_state_keys(), 50);
    // NewGame: neither the ball nor the paddles move; no events.
    assert_eq!(ball.position, Vec2 { x: 0, y: 0 });
    assert_eq!(bats[0].position_x, 0);
    assert_eq!(ev.hit, None);
    assert!(!ev.scored);
    assert_eq!(ev.winner, None);
}

#[test]
fn frame_runs_a_rally() {
    let mut s = State::default();
    s.game_state = GameState::Playing;
    // The ball drifts toward the light paddle, which is mid-stroke.
    let mut ball = make_ball(0, -1900, 0, -1000, Variant::Dark);
    let mut bats = vec![
        make_bat(Variant::Light, Direction::Down, 0),
        Bat::new(Variant::Dark),
    ];
    let inputs = vec![no_keys(), no_keys()];
    let ev = frame::advance(&mut s, &mut ball, &mut bats, &inputs, no_state_keys(), 10);
    // The light paddle strikes (dy = -1.00, factor 0.90): the ball turns
    // back up at 9.00 per second and then moves by one frame.
    assert_eq!(ev.hit, Some(Variant::Light));
    assert_eq!(ball.last_hit, Variant::Light);
    assert_eq!(ball.velocity, Vec2 { x: 0, y: 900 });
    assert_eq!(ball.position, Vec2 { x: 0, y: -1810 });
    assert_eq!(s.game_time, 10);
    // The paddle's stroke advanced with the same frame.
    assert_eq!(bats[0].swinging, Direction::Down);
    assert_eq!(bats[0].animation_timer, 10);
}

#[test]
fn frame_reports_a_win() {
    let mut s = State::default();
    s.game_state = GameState::Playing;
    s.game_time = 100;
    let mut ball = make_ball(0, -1950, 0, -1000, Variant::Dark);
    let mut bats = vec![Bat::new(Variant::Light), Bat::new(Variant::Dark)];
    let inputs = vec![no_keys(), no_keys()];
    let ev = frame::advance(&mut s, &mut ball, &mut bats, &inputs, no_state_keys(), 100);
    assert_eq!(ev.winner, Some(Variant::Dark));
    assert_eq!(s.game_state, GameState::Winner(Variant::Dark));
    assert_eq!(ball, Ball::default());
}

#[test]
fn score_saturates_at_the_representable_bound() {
    let mut s = State::default();
    s.game_state = GameState::Playing;
    s.hits_with_velocity = u64::MAX;
    let mut ball = Ball::default();
    let mut bats = vec![Bat::new(Variant::Light), Bat::new(Variant::Dark)];
    state::update(&mut s, &mut ball, &mut bats, no_state_keys(), None, true, 1);
    assert_eq!(s.hits_with_velocity, u64::MAX);
}

#[test]
fn reach_guard_blocks_a_passed_ball() {
    // The ball is more than one unit past the dark home row: even a
    // well-aimed stroke cannot reach it.
    let mut b = make_ball(0, 2150, 0, 1000, Variant::Light);
    let bats = vec![make_bat(Variant::Dark, Direction::Down, 0)];
    let ev = ball::update(&mut b, &bats, 0);
    assert_eq!(ev.hit, None);
    assert_eq!(b.velocity, Vec2 { x: 0, y: 1000 });
}

#[test]
fn rally_alternates_sides() {
    // Light returns the serve; dark cannot touch the ball again until
    // light has, and then strikes it back.
    let mut b = make_ball(0, -1900, 0, -1000, Variant::Dark);
    let light = vec![make_bat(Variant::Light, Direction::Down, 0)];
    let ev = ball::update(&mut b, &light, 0);
    assert_eq!(ev.hit, Some(Variant::Light));
    assert_eq!(b.last_hit, Variant::Light);
    // A second light swing on the very next frame is refused.
    let ev = ball::update(&mut b, &light, 0);
    assert_eq!(ev.hit, None);
    // Once the ball is back at the dark row, dark's swing is accepted.
    b.position = Vec2 { x: 0, y: 1900 };
    let dark = vec![make_bat(Variant::Dark, Direction::Down, 0)];
    let ev = ball::update(&mut b, &dark, 0);
    assert_eq!(ev.hit, Some(Variant::Dark));
    assert_eq!(b.last_hit, Variant::Dark);
}

#[test]
fn clock_saturates_at_its_bound() {
    let mut s = State::default();
    s.game_state = GameState::Playing;
    s.game_time = bordtennis::consts::CLOCK_LIMIT;
    let mut ball = Ball::default();
    let mut bats = vec![Bat::new(Variant::Light), Bat::new(Variant::Dark)];
    state::update(&mut s, &mut ball, &mut bats, no_state_keys(), None, false, 10);
    assert_eq!(s.game_time, bordtennis::consts::CLOCK_LIMIT);
}

#[test]
fn game_over_helper_resets_clock_and_music() {
    let mut s = State {
        game_state: GameState::Playing,
        game_time: 900,
        music_state: Music::One,
        hits_with_velocity: 4,
    };
    s.game_over(GameState::NewGame);
    assert_eq!(s.game_state, GameState::NewGame);
    assert_eq!(s.game_time, 0);
    assert_eq!(s.music_state, Music::Zero);
    assert_eq!(s.hits_with_velocity, 4);
}
