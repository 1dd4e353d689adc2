//! A paddle: one player's horizontal position and swing cycle.

use vstd::prelude::*;

use crate::consts;
use crate::units;
use crate::units::{clamp_spec, scaled_mul};

verus! {

/// Which of the two players a paddle (or a point, or a win) belongs to.
/// The light paddle defends the row `-HOME_ROW`, the dark paddle the row
/// `HOME_ROW`; dark serves.
#[derive(Clone, Copy, Debug, PartialEq, Eq, Structural)]
pub enum Variant {
    Light,
    Dark,
}

impl Variant {
    /// The vertical line this paddle defends.
    pub open spec fn home_row(self) -> int {
        match self {
            Variant::Light => -consts::HOME_ROW as int,
            Variant::Dark => consts::HOME_ROW as int,
        }
    }

    /// The vertical line this paddle defends.
    pub fn default_y_position(&self) -> (y: i64)
        ensures
            y == self.home_row(),
    {
        match self {
            Variant::Light => -consts::HOME_ROW,
            Variant::Dark => consts::HOME_ROW,
        }
    }
}

/// Where a paddle stands in its swing cycle: resting, striking downward, or
/// recovering upward. Only the downward stroke can hit the ball.
#[derive(Clone, Copy, Debug, PartialEq, Eq, Structural)]
pub enum Direction {
    Up,
    Down,
    Idle,
}

/// One frame's worth of this paddle's key state, already mapped from
/// physical keys by the front end.
#[derive(Clone, Copy, Debug, PartialEq, Eq, Structural)]
pub struct BatInput {
    /// The swing key went down this frame.
    pub swing_just_pressed: bool,
    /// The move-left key is held.
    pub left_held: bool,
    /// The move-right key is held.
    pub right_held: bool,
    /// The run modifier is held.
    pub run_held: bool,
}

/// A paddle.
#[derive(Clone, Copy, Debug, PartialEq, Eq, Structural)]
pub struct Bat {
    /// Whose paddle this is; fixes its home row.
    pub variant: Variant,
    /// Where the paddle stands in its swing cycle.
    pub swinging: Direction,
    /// Time spent in the current half of the swing, in hundredths of a
    /// second; wraps at `SWING_COOLDOWN`.
    pub animation_timer: i64,
    /// Horizontal position, clamped to the playfield.
    pub position_x: i64,
}

impl Bat {
    /// The paddle's invariant: it stands on the playfield and its swing
    /// timer is inside one cooldown period.
    pub open spec fn wf(self) -> bool {
        &&& -consts::PLAYFIELD_HALF_WIDTH <= self.position_x <= consts::PLAYFIELD_HALF_WIDTH
        &&& 0 <= self.animation_timer < consts::SWING_COOLDOWN
    }

    /// The state a paddle of side `variant` starts the match in.
    pub open spec fn initial_spec(variant: Variant) -> Bat {
        Bat { variant, swinging: Direction::Idle, animation_timer: 0, position_x: 0 }
    }

    /// A paddle of side `variant`, resting at the centre of its home row.
    pub fn new(variant: Variant) -> (b: Bat)
        ensures
            b == Bat::initial_spec(variant),
            b.wf(),
    {
        Bat { variant, swinging: Direction::Idle, animation_timer: 0, position_x: 0 }
    }

    /// `self` as a restart leaves it: back at the centre, swing at rest.
    /// The swing timer keeps its phase; it only runs while a swing is on.
    pub open spec fn reset_spec(self) -> Bat {
        Bat { swinging: Direction::Idle, position_x: 0, ..self }
    }

    /// Put the paddle back at the centre of its row with its swing at rest,
    /// as a restart does.
    pub fn reset(&mut self)
        ensures
            *final(self) == old(self).reset_spec(),
    {
        self.swinging = Direction::Idle;
        self.position_x = 0;
    }
}

/// The paddle `b` after one frame with key state `input` and elapsed time
/// `dt`:
/// - at rest, a fresh swing press starts the downward stroke and the paddle
///   stands still; otherwise the held movement keys carry it at walking or
///   running speed, and it is clamped to the playfield;
/// - mid-swing, the timer advances by `dt`, and on completing a period the
///   stroke turns into the recovery, the recovery back into rest.
pub open spec fn bat_step(b: Bat, input: BatInput, dt: int) -> Bat
    recommends
        b.wf(),
        0 <= dt,
{
    match b.swinging {
        Direction::Idle => {
            if input.swing_just_pressed {
                Bat { swinging: Direction::Down, ..b }
            } else {
                let speed = if input.run_held {
                    consts::RUN_SPEED as int
                } else {
                    consts::MOVE_SPEED as int
                };
                let step = scaled_mul(speed, dt);
                let moved = b.position_x - (if input.left_held {
                    step
                } else {
                    0
                }) + (if input.right_held {
                    step
                } else {
                    0
                });
                let clamped = clamp_spec(
                    moved,
                    -consts::PLAYFIELD_HALF_WIDTH as int,
                    consts::PLAYFIELD_HALF_WIDTH as int,
                );
                Bat { position_x: clamped as i64, ..b }
            }
        },
        Direction::Down => {
            let ticked = b.animation_timer + dt;
            if ticked >= consts::SWING_COOLDOWN {
                Bat {
                    swinging: Direction::Up,
                    animation_timer: (ticked % (consts::SWING_COOLDOWN as int)) as i64,
                    ..b
                }
            } else {
                Bat { animation_timer: ticked as i64, ..b }
            }
        },
        Direction::Up => {
            let ticked = b.animation_timer + dt;
            if ticked >= consts::SWING_COOLDOWN {
                Bat {
                    swinging: Direction::Idle,
                    animation_timer: (ticked % (consts::SWING_COOLDOWN as int)) as i64,
                    ..b
                }
            } else {
                Bat { animation_timer: ticked as i64, ..b }
            }
        },
    }
}

/// Law: whatever the keys and the frame time, one step keeps a paddle on
/// the playfield and its swing timer inside one cooldown period.
pub proof fn lemma_bat_stays_clamped(b: Bat, input: BatInput, dt: int)
    requires
        b.wf(),
        0 <= dt,
    ensures
        bat_step(b, input, dt).wf(),
        -consts::PLAYFIELD_HALF_WIDTH <= bat_step(b, input, dt).position_x
            <= consts::PLAYFIELD_HALF_WIDTH,
        bat_step(b, input, dt).variant == b.variant,
{
}

/// Advance the paddle `bat` by one frame: read this frame's key state and
/// elapsed time, start or continue a swing, or move the paddle. To be
/// called only while the match is running; the paddle never leaves the
/// playfield.
pub fn update(bat: &mut Bat, input: BatInput, dt: i64)
    requires
        old(bat).wf(),
        0 <= dt <= consts::DT_LIMIT,
    ensures
        *final(bat) == bat_step(*old(bat), input, dt as int),
        final(bat).wf(),
        final(bat).variant == old(bat).variant,
{
    match bat.swinging {
        Direction::Idle => {
            if input.swing_just_pressed {
                bat.swinging = Direction::Down;
            } else {
                let speed: i64 = if input.run_held {
                    consts::RUN_SPEED
                } else {
                    consts::MOVE_SPEED
                };
                let step: i64 = units::mul_scaled(speed, dt);
                let mut moved: i64 = bat.position_x;
                if input.left_held {
                    moved = moved - step;
                }
                if input.right_held {
                    moved = moved + step;
                }
                bat.position_x = units::clamp_i64(
                    moved,
                    -consts::PLAYFIELD_HALF_WIDTH,
                    consts::PLAYFIELD_HALF_WIDTH,
                );
            }
        },
        Direction::Down => {
            let ticked: i64 = bat.animation_timer + dt;
            if ticked >= consts::SWING_COOLDOWN {
                bat.swinging = Direction::Up;
                bat.animation_timer = ticked % consts::SWING_COOLDOWN;
            } else {
                bat.animation_timer = ticked;
            }
        },
        Direction::Up => {
            let ticked: i64 = bat.animation_timer + dt;
            if ticked >= consts::SWING_COOLDOWN {
                bat.swinging = Direction::Idle;
                bat.animation_timer = ticked % consts::SWING_COOLDOWN;
            } else {
                bat.animation_timer = ticked;
            }
        },
    }
}

} // verus!
