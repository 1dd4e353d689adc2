//! Tuning constants of the simulation.
//!
//! Every length is counted in hundredths of a world unit and every duration
//! in hundredths of a second, so a value of `100` stands for one world unit
//! or one second.

use vstd::prelude::*;

verus! {

/// Fixed-point scale: how many counting steps make one world unit (for
/// lengths) or one second (for durations).
pub const SCALE: i64 = 100;

/// Half the width of the playfield: a paddle's horizontal position is
/// clamped to `[-PLAYFIELD_HALF_WIDTH, PLAYFIELD_HALF_WIDTH]`.
pub const PLAYFIELD_HALF_WIDTH: i64 = 1200;

/// Distance from the centre line to each paddle's home row: the light
/// paddle defends `-HOME_ROW`, the dark paddle `HOME_ROW`.
pub const HOME_ROW: i64 = 2000;

/// Square contact tolerance: a swing strikes the ball only when both the
/// horizontal and the vertical offset between paddle and ball are at most
/// this large (3.95 world units).
pub const CONTACT_TOLERANCE: i64 = 395;

/// Slack behind a home row within which the ball still counts as reachable
/// by that paddle (one world unit).
pub const REACH_MARGIN: i64 = 100;

/// A struck ball leaves with horizontal speed `REBOUND_X_FACTOR` times the
/// contact offset, towards the paddle's centre.
pub const REBOUND_X_FACTOR: i64 = 4;

/// Slope of the vertical rebound factor: the factor grows by this much
/// (in `SCALE`ths) per world unit of vertical contact offset.
pub const REBOUND_SLOPE: i64 = 40;

/// Least vertical rebound factor, in `SCALE`ths (0.90).
pub const REBOUND_MIN: i64 = 90;

/// Greatest vertical rebound factor, in `SCALE`ths (1.25).
pub const REBOUND_MAX: i64 = 125;

/// The ball's vertical speed is clamped to
/// `[-VELOCITY_LIMIT, VELOCITY_LIMIT]` after every strike (64 world units
/// per second).
pub const VELOCITY_LIMIT: i64 = 6400;

/// Walking speed of a paddle (8 world units per second).
pub const MOVE_SPEED: i64 = 800;

/// Running speed of a paddle (16 world units per second).
pub const RUN_SPEED: i64 = 1600;

/// Duration of each half of a swing, downward stroke and recovery alike
/// (a quarter of a second).
pub const SWING_COOLDOWN: i64 = 25;

/// A strike whose outgoing speed exceeds this threshold (24 world units per
/// second) counts one point.
pub const SCORE_SPEED: i64 = 2400;

/// Match clock reading above which the middle music phase plays (32 s).
pub const MUSIC_MID: i64 = 3200;

/// Match clock reading above which the late music phase plays (96 s).
pub const MUSIC_LATE: i64 = 9600;

/// Largest magnitude a ball coordinate may take; integration saturates
/// here, far outside any reachable play.
pub const COORD_LIMIT: i64 = 1_000_000_000;

/// Largest frame time a single update accepts (one million seconds); a
/// machine bound that keeps every intermediate product inside `i64`.
pub const DT_LIMIT: i64 = 100_000_000;

/// Largest value the match clock can count up to; it saturates there.
pub const CLOCK_LIMIT: i64 = 4_000_000_000_000_000_000;

} // verus!
