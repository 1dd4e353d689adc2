//! One whole simulation frame, in the fixed order the match runs in:
//! paddles first, then the ball, then the state machine. While the match
//! is not running the simulation bodies stand still and only the state
//! machine reads the keys.

use vstd::prelude::*;

use crate::ball;
use crate::ball::{Ball, BallEvents};
use crate::bat;
use crate::bat::{Bat, BatInput};
use crate::consts;
use crate::state;
use crate::state::{GameState, State, StateInput};

verus! {

/// The paddles after their part of a frame: each stepped by its own key
/// state.
pub open spec fn bats_stepped(bats: Seq<Bat>, inputs: Seq<BatInput>, dt: int) -> Seq<Bat> {
    Seq::new(bats.len(), |k: int| bat::bat_step(bats[k], inputs[k], dt))
}

/// Advance the whole match by one frame. While the match is running, each
/// paddle reads its keys, the ball resolves collisions against the stepped
/// paddles and moves, and the state machine applies the ball's report and
/// the match-level keys; otherwise only the state machine runs. The ball's
/// report of the frame is returned for the front end (hit sound, score
/// display).
pub fn advance(
    state: &mut State,
    ball: &mut Ball,
    bats: &mut Vec<Bat>,
    inputs: &Vec<BatInput>,
    input: StateInput,
    dt: i64,
) -> (ev: BallEvents)
    requires
        old(state).wf(),
        old(ball).wf(),
        forall|k: int| 0 <= k < old(bats)@.len() ==> (#[trigger] old(bats)@[k]).wf(),
        inputs@.len() == old(bats)@.len(),
        0 <= dt <= consts::DT_LIMIT,
    ensures
        final(state).wf(),
        final(ball).wf(),
        forall|k: int| 0 <= k < final(bats)@.len() ==> (#[trigger] final(bats)@[k]).wf(),
        ({
            let playing = old(state).game_state is Playing;
            let bats1 = if playing {
                bats_stepped(old(bats)@, inputs@, dt as int)
            } else {
                old(bats)@
            };
            let rb = ball::resolve(*old(ball), bats1);
            let b1 = if playing {
                ball::integrate(rb.0, dt as int)
            } else {
                *old(ball)
            };
            let hit = if playing {
                rb.1
            } else {
                None::<crate::bat::Variant>
            };
            let scored = playing && hit is Some && ball::speed_exceeds(rb.0.velocity);
            let winner = if playing && ball::out_of_play(b1.position.y as int) {
                Some(b1.last_hit)
            } else {
                None::<crate::bat::Variant>
            };
            let stepped = state::state_step(
                *old(state),
                b1,
                bats1,
                input,
                winner,
                scored,
                dt as int,
            );
            &&& *final(state) == stepped.0
            &&& *final(ball) == stepped.1
            &&& final(bats)@ == stepped.2
            &&& ev.hit == hit
            &&& ev.scored == scored
            &&& ev.winner == winner
        }),
{
    let playing: bool = state.game_state == GameState::Playing;
    let ev: BallEvents;
    if playing {
        let ghost bats_in: Seq<Bat> = bats@;
        let mut j: usize = 0;
        while j < bats.len()
            invariant
                0 <= j <= bats@.len(),
                bats@.len() == bats_in.len(),
                inputs@.len() == bats_in.len(),
                forall|k: int| 0 <= k < bats_in.len() ==> (#[trigger] bats_in[k]).wf(),
                0 <= dt <= consts::DT_LIMIT,
                forall|k: int|
                    0 <= k < j ==> bats@[k] == bat::bat_step(
                        (#[trigger] bats_in[k]),
                        inputs@[k],
                        dt as int,
                    ),
                forall|k: int| j <= k < bats_in.len() ==> bats@[k] == bats_in[k],
                forall|k: int| 0 <= k < bats@.len() ==> (#[trigger] bats@[k]).wf(),
            decreases bats@.len() - j,
        {
            bat::update(&mut bats[j], inputs[j], dt);
            j = j + 1;
        }
        proof {
            assert(bats@ =~= bats_stepped(bats_in, inputs@, dt as int));
        }
        ev = ball::update(ball, bats, dt);
    } else {
        ev = BallEvents { hit: None, scored: false, winner: None };
    }
    state::update(state, ball, bats, input, ev.winner, ev.scored, dt);
    ev
}

} // verus!
