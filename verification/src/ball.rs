//! The ball: position, velocity, last legal toucher, and the per-frame
//! collision resolution against the paddles.

use vstd::prelude::*;

use crate::bat::{Bat, Direction, Variant};
use crate::consts;
use crate::units;
use crate::units::{abs_spec, clamp_spec, scaled_mul, Vec2};

verus! {

/// The ball.
#[derive(Clone, Copy, Debug, PartialEq, Eq, Structural)]
pub struct Ball {
    /// World-space position.
    pub position: Vec2,
    /// World-space velocity, per second.
    pub velocity: Vec2,
    /// Side of the paddle that last legally struck the ball. The serving
    /// side starts as the toucher, so only its opponent can return the
    /// serve.
    pub last_hit: Variant,
}

/// What one ball update reports back to the state machine.
#[derive(Clone, Copy, Debug)]
pub struct BallEvents {
    /// The side whose swing struck the ball this frame, if any; each strike
    /// also asks the front end for a hit sound.
    pub hit: Option<Variant>,
    /// The strike sent the ball off faster than `SCORE_SPEED`: the match
    /// score goes up by one. The ball does not own the score; the state
    /// machine applies this.
    pub scored: bool,
    /// The ball left the strip between the home rows: the rally is over and
    /// the last toucher has won it.
    pub winner: Option<Variant>,
}

impl Ball {
    /// The ball's invariant: coordinates and speeds stay representable.
    pub open spec fn wf(self) -> bool {
        &&& -consts::COORD_LIMIT <= self.position.x <= consts::COORD_LIMIT
        &&& -consts::COORD_LIMIT <= self.position.y <= consts::COORD_LIMIT
        &&& -consts::VELOCITY_LIMIT <= self.velocity.x <= consts::VELOCITY_LIMIT
        &&& -consts::VELOCITY_LIMIT <= self.velocity.y <= consts::VELOCITY_LIMIT
    }

    /// The serve: the ball sits on the dark home row and drifts toward the
    /// light side at half a home row per second; dark counts as the last
    /// toucher, so light must return first.
    pub open spec fn serve_spec() -> Ball {
        Ball {
            position: Vec2 { x: 0, y: consts::HOME_ROW },
            velocity: Vec2 { x: 0, y: (-(consts::HOME_ROW / 2)) as i64 },
            last_hit: Variant::Dark,
        }
    }
}

impl Default for Ball {
    /// A ball in the serve state.
    fn default() -> (b: Ball)
        ensures
            b == Ball::serve_spec(),
            b.wf(),
    {
        Ball {
            position: Vec2 { x: 0, y: consts::HOME_ROW },
            velocity: Vec2 { x: 0, y: -(consts::HOME_ROW / 2) },
            last_hit: Variant::Dark,
        }
    }
}

/// The ball has not yet passed `bat`'s defensive line: it is no deeper than
/// one world unit behind the paddle's home row.
pub open spec fn reaches(b: Ball, bat: Bat) -> bool {
    let home = bat.variant.home_row();
    !((home > 0 && b.position.y - consts::REACH_MARGIN > home) || (home < 0 && b.position.y
        + consts::REACH_MARGIN < home))
}

/// `bat` strikes the ball this frame: the ball is still in front of its
/// line, the other side touched last, the paddle is in its downward stroke,
/// and both contact offsets lie within the square tolerance.
pub open spec fn accepts(b: Ball, bat: Bat) -> bool {
    &&& reaches(b, bat)
    &&& b.last_hit != bat.variant
    &&& bat.swinging is Down
    &&& abs_spec(bat.variant.home_row() - b.position.y) <= consts::CONTACT_TOLERANCE
    &&& abs_spec(bat.position_x - b.position.x) <= consts::CONTACT_TOLERANCE
}

/// How strongly a strike at vertical offset `dy_abs` rescales the vertical
/// speed: `0.4 * dy_abs`, held to `[0.90, 1.25]`, in `SCALE`ths.
pub open spec fn rebound_factor(dy_abs: int) -> int {
    clamp_spec(
        scaled_mul(dy_abs, consts::REBOUND_SLOPE as int),
        consts::REBOUND_MIN as int,
        consts::REBOUND_MAX as int,
    )
}

/// The ball as `bat`'s strike leaves it: horizontal speed `-4 * dx`,
/// vertical speed reversed, rescaled by the rebound factor and held to
/// `[-VELOCITY_LIMIT, VELOCITY_LIMIT]`; `bat`'s side becomes the last
/// toucher. The position is untouched.
pub open spec fn struck(b: Ball, bat: Bat) -> Ball
    recommends
        accepts(b, bat),
{
    let dx = bat.position_x - b.position.x;
    let dy = bat.variant.home_row() - b.position.y;
    let factor = rebound_factor(abs_spec(dy));
    let bounced = scaled_mul(b.velocity.y as int, -factor);
    Ball {
        velocity: Vec2 {
            x: (-dx * consts::REBOUND_X_FACTOR) as i64,
            y: clamp_spec(
                bounced,
                -consts::VELOCITY_LIMIT as int,
                consts::VELOCITY_LIMIT as int,
            ) as i64,
        },
        last_hit: bat.variant,
        ..b
    }
}

/// The collision pass over the paddles, in iteration order: the first
/// paddle whose strike is accepted rewrites the ball and ends the pass, and
/// its side is reported; with no acceptance the ball is unchanged.
pub open spec fn resolve(b: Ball, bats: Seq<Bat>) -> (Ball, Option<Variant>)
    decreases bats.len(),
{
    if bats.len() == 0 {
        (b, None)
    } else if accepts(b, bats[0]) {
        (struck(b, bats[0]), Some(bats[0].variant))
    } else {
        resolve(b, bats.drop_first())
    }
}

/// The ball carried forward by `dt`: each coordinate moves by
/// `velocity * dt / SCALE` and saturates at the representable bound.
pub open spec fn integrate(b: Ball, dt: int) -> Ball {
    Ball {
        position: Vec2 {
            x: clamp_spec(
                b.position.x + scaled_mul(b.velocity.x as int, dt),
                -consts::COORD_LIMIT as int,
                consts::COORD_LIMIT as int,
            ) as i64,
            y: clamp_spec(
                b.position.y + scaled_mul(b.velocity.y as int, dt),
                -consts::COORD_LIMIT as int,
                consts::COORD_LIMIT as int,
            ) as i64,
        },
        ..b
    }
}

/// The rally is over: the ball's vertical position lies outside the open
/// strip between the two home rows.
pub open spec fn out_of_play(y: int) -> bool {
    y <= -consts::HOME_ROW || y >= consts::HOME_ROW as int
}

/// The squared speed of `v` exceeds the squared scoring threshold.
pub open spec fn speed_exceeds(v: Vec2) -> bool {
    v.x * v.x + v.y * v.y > consts::SCORE_SPEED * consts::SCORE_SPEED
}

/// `resolve` on the tail of a paddle sequence, unfolded one paddle at a
/// time.
proof fn lemma_resolve_skip(b: Ball, s: Seq<Bat>, i: int)
    requires
        0 <= i < s.len(),
    ensures
        resolve(b, s.skip(i)) == if accepts(b, s[i]) {
            (struck(b, s[i]), Some(s[i].variant))
        } else {
            resolve(b, s.skip(i + 1))
        },
{
    assert(s.skip(i)[0] == s[i]);
    assert(s.skip(i).drop_first() =~= s.skip(i + 1));
}

/// Law: with no paddle in its downward stroke the collision pass leaves
/// the ball untouched — a paddle that is resting or recovering never
/// changes the velocity or the last toucher.
pub proof fn lemma_swing_gate(b: Ball, bats: Seq<Bat>)
    requires
        forall|k: int| 0 <= k < bats.len() ==> !((#[trigger] bats[k]).swinging is Down),
    ensures
        resolve(b, bats).0 == b,
        resolve(b, bats).1 is None,
    decreases bats.len(),
{
    if bats.len() > 0 {
        assert(!accepts(b, bats[0]));
        assert forall|k: int| 0 <= k < bats.drop_first().len() implies !((#[trigger] bats.drop_first()[k]).swinging
            is Down) by {
            assert(bats.drop_first()[k] == bats[k + 1]);
        }
        lemma_swing_gate(b, bats.drop_first());
    }
}

/// Law: an accepted strike rewrites the velocity deterministically from
/// the contact offsets and the incoming vertical speed alone — the ball
/// leaves with horizontal speed `-4 * dx` and with its vertical speed
/// reversed, rescaled by `0.4 * |dy|` held to `[0.90, 1.25]`, and clamped
/// to the vertical speed limit; the striking side becomes the toucher and
/// the position does not move.
pub proof fn lemma_strike_velocity(b: Ball, bat: Bat)
    requires
        accepts(b, bat),
    ensures
        struck(b, bat).velocity.x == -(bat.position_x - b.position.x) * (
        consts::REBOUND_X_FACTOR as int),
        struck(b, bat).velocity.y == clamp_spec(
            scaled_mul(
                b.velocity.y as int,
                -rebound_factor(abs_spec(bat.variant.home_row() - b.position.y)),
            ),
            -consts::VELOCITY_LIMIT as int,
            consts::VELOCITY_LIMIT as int,
        ),
        -consts::VELOCITY_LIMIT <= struck(b, bat).velocity.y <= consts::VELOCITY_LIMIT,
        struck(b, bat).last_hit == bat.variant,
        struck(b, bat).position == b.position,
{
}

/// With no strike reported, the collision pass is the identity on the
/// ball.
pub proof fn lemma_no_hit_keeps_ball(b: Ball, bats: Seq<Bat>)
    requires
        resolve(b, bats).1 is None,
    ensures
        resolve(b, bats).0 == b,
    decreases bats.len(),
{
    if bats.len() > 0 && !accepts(b, bats[0]) {
        lemma_no_hit_keeps_ball(b, bats.drop_first());
    }
}

/// A strike hands the ball to the striking side — and that side cannot be
/// the one that already held it.
pub proof fn lemma_hit_changes_toucher(b: Ball, bats: Seq<Bat>, s: Variant)
    requires
        resolve(b, bats).1 == Some(s),
    ensures
        resolve(b, bats).0.last_hit == s,
        b.last_hit != s,
    decreases bats.len(),
{
    if bats.len() > 0 && !accepts(b, bats[0]) {
        lemma_hit_changes_toucher(b, bats.drop_first(), s);
    }
}

/// What one frame hands the ball while the match runs: the paddles it saw
/// and the elapsed time.
pub struct BallFrame {
    /// The paddles, in iteration order, as the ball saw them.
    pub bats: Seq<Bat>,
    /// The frame's elapsed time.
    pub dt: int,
}

/// The ball after one frame: the collision pass, then integration.
pub open spec fn ball_frame(b: Ball, f: BallFrame) -> Ball {
    integrate(resolve(b, f.bats).0, f.dt)
}

/// The side whose strike the frame accepted, if any.
pub open spec fn ball_frame_hit(b: Ball, f: BallFrame) -> Option<Variant> {
    resolve(b, f.bats).1
}

/// The ball after a run of frames.
pub open spec fn ball_run(b: Ball, fs: Seq<BallFrame>) -> Ball
    decreases fs.len(),
{
    if fs.len() == 0 {
        b
    } else {
        ball_run(ball_frame(b, fs[0]), fs.drop_first())
    }
}

/// A run over one more frame is the frame applied to the run.
proof fn lemma_run_push(b: Ball, fs: Seq<BallFrame>, f: BallFrame)
    ensures
        ball_run(b, fs.push(f)) == ball_frame(ball_run(b, fs), f),
    decreases fs.len(),
{
    assert(fs.push(f).len() == fs.len() + 1);
    if fs.len() == 0 {
        assert(fs.push(f)[0] == f);
        assert(fs.push(f).drop_first() =~= Seq::<BallFrame>::empty());
        assert(ball_run(b, fs.push(f)) == ball_run(ball_frame(b, f), Seq::<BallFrame>::empty()));
        assert(ball_run(b, fs) == b);
    } else {
        assert(fs.push(f)[0] == fs[0]);
        assert(fs.push(f).drop_first() =~= fs.drop_first().push(f));
        lemma_run_push(ball_frame(b, fs[0]), fs.drop_first(), f);
        assert(ball_run(b, fs.push(f)) == ball_run(ball_frame(b, fs[0]), fs.drop_first().push(f)));
        assert(ball_run(b, fs) == ball_run(ball_frame(b, fs[0]), fs.drop_first()));
    }
}

/// The toucher set by the strike in frame `i` still holds the ball after
/// frame `k - 1`, as long as no later frame up to there strikes.
proof fn lemma_toucher_persists(b: Ball, fs: Seq<BallFrame>, i: int, k: int, s: Variant)
    requires
        0 <= i < k <= fs.len(),
        ball_frame_hit(ball_run(b, fs.take(i)), fs[i]) == Some(s),
        forall|m: int| i < m < k ==> ball_frame_hit(ball_run(b, fs.take(m)), fs[m]) is None,
    ensures
        ball_run(b, fs.take(k)).last_hit == s,
    decreases k,
{
    if k == i + 1 {
        assert(fs.take(i + 1) =~= fs.take(i).push(fs[i]));
        lemma_run_push(b, fs.take(i), fs[i]);
        lemma_hit_changes_toucher(ball_run(b, fs.take(i)), fs[i].bats, s);
    } else {
        lemma_toucher_persists(b, fs, i, k - 1, s);
        assert(fs.take(k) =~= fs.take(k - 1).push(fs[k - 1]));
        lemma_run_push(b, fs.take(k - 1), fs[k - 1]);
        lemma_no_hit_keeps_ball(ball_run(b, fs.take(k - 1)), fs[k - 1].bats);
    }
}

/// Law: over any run of frames, a side never lands two accepted strikes in
/// a row — between two strikes by the same side there must be a strike by
/// the other one. Here frames `i` and `j` strike with nothing accepted in
/// between, so the two striking sides differ.
pub proof fn lemma_no_self_return(
    b: Ball,
    fs: Seq<BallFrame>,
    i: int,
    j: int,
    s: Variant,
    t: Variant,
)
    requires
        0 <= i < j < fs.len(),
        ball_frame_hit(ball_run(b, fs.take(i)), fs[i]) == Some(s),
        forall|m: int| i < m < j ==> ball_frame_hit(ball_run(b, fs.take(m)), fs[m]) is None,
        ball_frame_hit(ball_run(b, fs.take(j)), fs[j]) == Some(t),
    ensures
        t != s,
{
    lemma_toucher_persists(b, fs, i, j, s);
    lemma_hit_changes_toucher(ball_run(b, fs.take(j)), fs[j].bats, t);
}

/// Advance the ball by one frame: let the first accepting paddle strike it,
/// carry it forward by `dt`, and report the strike, whether it scored, and
/// the winner if the ball left the strip. To be called only while the match
/// is running. The ball is not reset here; the state machine owns resets.
pub fn update(ball: &mut Ball, bats: &Vec<Bat>, dt: i64) -> (ev: BallEvents)
    requires
        old(ball).wf(),
        forall|k: int| 0 <= k < bats@.len() ==> (#[trigger] bats@[k]).wf(),
        0 <= dt <= consts::DT_LIMIT,
    ensures
        final(ball).wf(),
        *final(ball) == integrate(resolve(*old(ball), bats@).0, dt as int),
        ev.hit == resolve(*old(ball), bats@).1,
        ev.scored == (ev.hit is Some && speed_exceeds(resolve(*old(ball), bats@).0.velocity)),
        ev.winner == if out_of_play(final(ball).position.y as int) {
            Some(final(ball).last_hit)
        } else {
            None::<Variant>
        },
{
    let ghost orig: Ball = *ball;
    proof {
        assert(bats@.skip(0) =~= bats@);
    }
    let mut hit: Option<Variant> = None;
    let mut i: usize = 0;
    while i < bats.len() && hit.is_none()
        invariant
            0 <= i <= bats@.len(),
            forall|k: int| 0 <= k < bats@.len() ==> (#[trigger] bats@[k]).wf(),
            ball.wf(),
            hit is None ==> *ball == orig && resolve(orig, bats@) == resolve(
                *ball,
                bats@.skip(i as int),
            ),
            hit matches Some(s) ==> resolve(orig, bats@) == (*ball, Some(s)),
        decreases bats@.len() - i,
    {
        let bat: Bat = bats[i];
        let home: i64 = bat.variant.default_y_position();
        let reachable: bool = !(home > 0 && ball.position.y - consts::REACH_MARGIN > home || home
            < 0 && ball.position.y + consts::REACH_MARGIN < home);
        if reachable && ball.last_hit != bat.variant && bat.swinging == Direction::Down {
            let dx: i64 = bat.position_x - ball.position.x;
            let dy: i64 = home - ball.position.y;
            if units::abs_i64(dy) <= consts::CONTACT_TOLERANCE && units::abs_i64(dx)
                <= consts::CONTACT_TOLERANCE {
                proof {
                    assert(accepts(*ball, bats@[i as int]));
                    lemma_resolve_skip(orig, bats@, i as int);
                }
                let factor: i64 = units::clamp_i64(
                    units::mul_scaled(units::abs_i64(dy), consts::REBOUND_SLOPE),
                    consts::REBOUND_MIN,
                    consts::REBOUND_MAX,
                );
                ball.velocity.x = -dx * consts::REBOUND_X_FACTOR;
                ball.velocity.y = units::clamp_i64(
                    units::mul_scaled(ball.velocity.y, -factor),
                    -consts::VELOCITY_LIMIT,
                    consts::VELOCITY_LIMIT,
                );
                ball.last_hit = bat.variant;
                hit = Some(bat.variant);
            } else {
                proof {
                    lemma_resolve_skip(orig, bats@, i as int);
                }
            }
        } else {
            proof {
                lemma_resolve_skip(orig, bats@, i as int);
            }
        }
        i = i + 1;
    }
    proof {
        if hit is None {
            assert(bats@.skip(i as int) =~= Seq::<Bat>::empty());
        }
    }
    let scored: bool = if hit.is_some() {
        let vx: i64 = ball.velocity.x;
        let vy: i64 = ball.velocity.y;
        proof {
            assert(vx * vx <= consts::VELOCITY_LIMIT * consts::VELOCITY_LIMIT && vx * vx >= 0)
                by (nonlinear_arith)
                requires
                    -consts::VELOCITY_LIMIT <= vx <= consts::VELOCITY_LIMIT,
            ;
            assert(vy * vy <= consts::VELOCITY_LIMIT * consts::VELOCITY_LIMIT && vy * vy >= 0)
                by (nonlinear_arith)
                requires
                    -consts::VELOCITY_LIMIT <= vy <= consts::VELOCITY_LIMIT,
            ;
        }
        vx * vx + vy * vy > consts::SCORE_SPEED * consts::SCORE_SPEED
    } else {
        false
    };
    let off_x: i64 = units::mul_scaled(ball.velocity.x, dt);
    let off_y: i64 = units::mul_scaled(ball.velocity.y, dt);
    ball.position.x = units::clamp_i64(
        ball.position.x + off_x,
        -consts::COORD_LIMIT,
        consts::COORD_LIMIT,
    );
    ball.position.y = units::clamp_i64(
        ball.position.y + off_y,
        -consts::COORD_LIMIT,
        consts::COORD_LIMIT,
    );
    let winner: Option<Variant> = if ball.position.y <= -consts::HOME_ROW || ball.position.y
        >= consts::HOME_ROW {
        Some(ball.last_hit)
    } else {
        None
    };
    BallEvents { hit, scored, winner }
}

} // verus!
