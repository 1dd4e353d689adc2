//! The match state machine: game phase, clock, score, and the music phase,
//! with the pause / restart / game-over transitions that drive them.

use vstd::prelude::*;

use crate::audio;
use crate::audio::Music;
use crate::ball::Ball;
use crate::bat::{Bat, Variant};
use crate::consts;

verus! {

/// The phase of the match. Simulation advances only while `Playing`.
#[derive(Clone, Copy, Debug, PartialEq, Eq, Structural)]
pub enum GameState {
    Paused,
    NewGame,
    Playing,
    Winner(Variant),
}

impl GameState {
    /// The row of the menu sprite sheet that announces this phase. While
    /// `Playing` the menu is hidden and no sprite exists, so that phase is
    /// left out.
    pub fn sprite_index(&self) -> (idx: usize)
        requires
            !(*self is Playing),
        ensures
            *self is Paused ==> idx == 0,
            *self is NewGame ==> idx == 1,
            *self == GameState::Winner(Variant::Light) ==> idx == 2,
            *self == GameState::Winner(Variant::Dark) ==> idx == 3,
    {
        match self {
            GameState::Paused => 0,
            GameState::NewGame => 1,
            GameState::Winner(Variant::Light) => 2,
            GameState::Winner(Variant::Dark) => 3,
            GameState::Playing => {
                proof {
                    assert(false);
                }
                0
            },
        }
    }
}

/// The authority over phase, clock, score and music phase.
#[derive(Clone, Copy, Debug, PartialEq, Eq, Structural)]
pub struct State {
    /// The phase of the match.
    pub game_state: GameState,
    /// The match clock, in hundredths of a second. It runs only while
    /// `Playing` and saturates at `CLOCK_LIMIT`.
    pub game_time: i64,
    /// The ambient music phase, recomputed from the clock every frame.
    pub music_state: Music,
    /// How many strikes left the ball faster than `SCORE_SPEED`.
    pub hits_with_velocity: u64,
}

/// One frame's worth of the match-level key state, already mapped from
/// physical keys by the front end.
#[derive(Clone, Copy, Debug, PartialEq, Eq, Structural)]
pub struct StateInput {
    /// The pause key went down this frame.
    pub pause_just_pressed: bool,
    /// The restart key went down this frame.
    pub restart_just_pressed: bool,
}

impl State {
    /// The state machine's invariant: the clock reads a representable,
    /// non-negative time.
    pub open spec fn wf(self) -> bool {
        0 <= self.game_time <= consts::CLOCK_LIMIT
    }

    /// The state a match starts in: ready for a new game, clock at zero,
    /// no score, calm music.
    pub open spec fn initial_spec() -> State {
        State {
            game_state: GameState::NewGame,
            game_time: 0,
            music_state: Music::Zero,
            hits_with_velocity: 0,
        }
    }
}

impl Default for State {
    /// A match ready for a new game.
    fn default() -> (s: State)
        ensures
            s == State::initial_spec(),
            s.wf(),
    {
        State {
            game_state: GameState::NewGame,
            game_time: 0,
            music_state: Music::Zero,
            hits_with_velocity: 0,
        }
    }
}

impl State {
    /// End the current game: zero the clock, rest the music, and move to
    /// `pause_state`. The score is left alone; a restart clears it
    /// separately.
    pub fn game_over(&mut self, pause_state: GameState)
        ensures
            *final(self) == (State {
                game_state: pause_state,
                game_time: 0,
                music_state: Music::Zero,
                ..*old(self)
            }),
    {
        self.game_time = 0;
        self.music_state = Music::Zero;
        self.game_state = pause_state;
    }
}

/// The score grown by one when a strike scored, saturating at the
/// representable bound.
pub open spec fn bump_score(h: u64, scored: bool) -> u64 {
    if scored && h < u64::MAX {
        (h + 1) as u64
    } else {
        h
    }
}

/// The phase after the ball's report is applied: a winner reported while
/// `Playing` ends the game in that side's favour; in any other phase the
/// report is stale and ignored.
pub open spec fn apply_winner(g: GameState, winner: Option<Variant>) -> GameState {
    match winner {
        Some(v) => if g is Playing {
            GameState::Winner(v)
        } else {
            g
        },
        None => g,
    }
}

/// The state after the pause key: `Paused` and `Playing` swap; from
/// `NewGame` or a win the key starts play afresh, clearing the score (the
/// clock keeps running from where it stood; only a restart rewinds it).
pub open spec fn apply_pause(s: State, pressed: bool) -> State {
    if !pressed {
        s
    } else {
        match s.game_state {
            GameState::Paused => State { game_state: GameState::Playing, ..s },
            GameState::Playing => State { game_state: GameState::Paused, ..s },
            GameState::NewGame => State {
                game_state: GameState::Playing,
                hits_with_velocity: 0,
                ..s
            },
            GameState::Winner(_) => State {
                game_state: GameState::Playing,
                hits_with_velocity: 0,
                ..s
            },
        }
    }
}

/// The clock advanced by `dt`, saturating at `CLOCK_LIMIT`.
pub open spec fn tick_clock(t: int, dt: int) -> int {
    if t + dt > consts::CLOCK_LIMIT {
        consts::CLOCK_LIMIT as int
    } else {
        t + dt
    }
}

/// One frame of the state machine, as a function of the previous state,
/// the ball, the paddles, this frame's keys, the ball's report and the
/// elapsed time. In order: a scoring strike counts one point and the
/// winner report ends the game and puts the ball back on serve (both only
/// while playing); the pause key toggles or starts play; the restart key
/// forces everything — phase, clock, score, ball, paddles — back to a new
/// game; the clock ticks if the match is now running; and the music phase
/// is recomputed from the clock.
pub open spec fn state_step(
    s: State,
    b: Ball,
    bats: Seq<Bat>,
    input: StateInput,
    winner: Option<Variant>,
    scored: bool,
    dt: int,
) -> (State, Ball, Seq<Bat>) {
    let won = s.game_state is Playing && winner is Some;
    let s1 = State {
        game_state: apply_winner(s.game_state, winner),
        hits_with_velocity: bump_score(
            s.hits_with_velocity,
            s.game_state is Playing && scored,
        ),
        ..s
    };
    let b1 = if won {
        Ball::serve_spec()
    } else {
        b
    };
    let s2 = apply_pause(s1, input.pause_just_pressed);
    let s3 = if input.restart_just_pressed {
        State::initial_spec()
    } else {
        s2
    };
    let b2 = if input.restart_just_pressed {
        Ball::serve_spec()
    } else {
        b1
    };
    let bats2 = if input.restart_just_pressed {
        bats.map_values(|bt: Bat| bt.reset_spec())
    } else {
        bats
    };
    let t = if s3.game_state is Playing {
        tick_clock(s3.game_time as int, dt)
    } else {
        s3.game_time as int
    };
    let s4 = State { game_time: t as i64, music_state: audio::phase_spec(t), ..s3 };
    (s4, b2, bats2)
}

/// Law: the clock's discipline over one step of the state machine — a
/// restart rewinds it to zero; otherwise it ticks by `dt` (saturating)
/// exactly when the match ends up running and freezes exactly when it
/// does not; and the music phase is always the pure function of the new
/// clock reading.
pub proof fn lemma_clock_discipline(
    s: State,
    b: Ball,
    bats: Seq<Bat>,
    input: StateInput,
    winner: Option<Variant>,
    scored: bool,
    dt: int,
)
    requires
        s.wf(),
        0 <= dt,
    ensures
        ({
            let s2 = state_step(s, b, bats, input, winner, scored, dt).0;
            &&& input.restart_just_pressed ==> s2.game_time == 0
            &&& (!input.restart_just_pressed && s2.game_state is Playing) ==> s2.game_time
                == tick_clock(s.game_time as int, dt) && s2.game_time >= s.game_time
            &&& (!input.restart_just_pressed && !(s2.game_state is Playing)) ==> s2.game_time
                == s.game_time
            &&& s2.music_state == audio::phase_spec(s2.game_time as int)
        }),
{
}

/// Advance the match by one frame: apply the ball's report and this
/// frame's pause and restart keys, run the clock while playing, and pick
/// the music phase. The clock never runs backwards except by the restart
/// that rewinds it to zero.
pub fn update(
    state: &mut State,
    ball: &mut Ball,
    bats: &mut Vec<Bat>,
    input: StateInput,
    winner: Option<Variant>,
    scored: bool,
    dt: i64,
)
    requires
        old(state).wf(),
        0 <= dt <= consts::DT_LIMIT,
    ensures
        final(state).wf(),
        ({
            let stepped = state_step(
                *old(state),
                *old(ball),
                old(bats)@,
                input,
                winner,
                scored,
                dt as int,
            );
            &&& *final(state) == stepped.0
            &&& *final(ball) == stepped.1
            &&& final(bats)@ == stepped.2
        }),
        !input.restart_just_pressed ==> final(state).game_time >= old(state).game_time,
        input.restart_just_pressed ==> final(state).game_time == 0,
{
    if scored && state.game_state == GameState::Playing {
        if state.hits_with_velocity < u64::MAX {
            state.hits_with_velocity = state.hits_with_velocity + 1;
        }
    }
    match winner {
        Some(v) => {
            if state.game_state == GameState::Playing {
                state.game_state = GameState::Winner(v);
                *ball = Ball::default();
            }
        },
        None => {},
    }
    if input.pause_just_pressed {
        match state.game_state {
            GameState::Paused => {
                state.game_state = GameState::Playing;
            },
            GameState::Playing => {
                state.game_state = GameState::Paused;
            },
            GameState::NewGame => {
                state.hits_with_velocity = 0;
                state.game_state = GameState::Playing;
            },
            GameState::Winner(_) => {
                state.hits_with_velocity = 0;
                state.game_state = GameState::Playing;
            },
        }
    }
    if input.restart_just_pressed {
        *ball = Ball::default();
        let ghost bats_in: Seq<Bat> = bats@;
        let mut j: usize = 0;
        while j < bats.len()
            invariant
                0 <= j <= bats@.len(),
                bats@.len() == bats_in.len(),
                forall|k: int| 0 <= k < j ==> bats@[k] == (#[trigger] bats_in[k]).reset_spec(),
                forall|k: int| j <= k < bats_in.len() ==> bats@[k] == bats_in[k],
            decreases bats@.len() - j,
        {
            bats[j].reset();
            j = j + 1;
        }
        proof {
            assert(bats@ =~= bats_in.map_values(|bt: Bat| bt.reset_spec()));
        }
        state.hits_with_velocity = 0;
        state.game_over(GameState::NewGame);
    }
    if state.game_state == GameState::Playing {
        let t: i64 = state.game_time;
        state.game_time = if t + dt > consts::CLOCK_LIMIT {
            consts::CLOCK_LIMIT
        } else {
            t + dt
        };
    }
    state.music_state = audio::phase(state.game_time);
}

} // verus!
