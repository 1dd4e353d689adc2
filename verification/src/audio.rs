//! The ambient music phase: a pure step function of the match clock.
//!
//! The front end is handed the phase together with whether the match is
//! running, and owns actual playback: it keeps the loop of the current
//! phase playing and the other two paused.

use vstd::prelude::*;

use crate::consts;

verus! {

/// One of the three ambient music loops, from the calm opening to the late
/// rush.
#[derive(Clone, Copy, Debug, PartialEq, Eq, Structural)]
pub enum Music {
    Zero,
    One,
    Two,
}

/// The height of a phase in the escalation order.
pub open spec fn phase_rank(m: Music) -> int {
    match m {
        Music::Zero => 0,
        Music::One => 1,
        Music::Two => 2,
    }
}

/// The phase that a match clock of `elapsed` selects: `Zero` up to
/// `MUSIC_MID`, `One` up to `MUSIC_LATE`, `Two` beyond.
pub open spec fn phase_spec(elapsed: int) -> Music {
    if elapsed > consts::MUSIC_LATE {
        Music::Two
    } else if elapsed > consts::MUSIC_MID {
        Music::One
    } else {
        Music::Zero
    }
}

/// The music phase for a match clock of `elapsed`.
pub fn phase(elapsed: i64) -> (m: Music)
    ensures
        m == phase_spec(elapsed as int),
{
    if elapsed > consts::MUSIC_LATE {
        Music::Two
    } else if elapsed > consts::MUSIC_MID {
        Music::One
    } else {
        Music::Zero
    }
}

/// Law: the music phase is an order-preserving step function of the clock —
/// as the clock grows, the phase never falls back.
pub proof fn lemma_phase_monotone(e1: int, e2: int)
    requires
        e1 <= e2,
    ensures
        phase_rank(phase_spec(e1)) <= phase_rank(phase_spec(e2)),
{
}

} // verus!
