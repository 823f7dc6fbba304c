//! The machine-driven paddle: every tick it estimates, for each live ball,
//! how soon the ball reaches the top line, chases the most urgent one at a
//! fixed speed, and never crosses the side walls.

use vstd::prelude::*;

use crate::config::LEFT_WALL;
use crate::config::PADDLE_HALF_HEIGHT;
use crate::config::PADDLE_HALF_WIDTH;
use crate::config::PADDLE_SPEED;
use crate::config::PADDLE_START_Y;
use crate::config::RIGHT_WALL;
use crate::config::TOP_WALL;
use crate::magnitude;

verus! {

/// Positions and the vertical velocity of one live ball, as read back from
/// the physics step: position in milli-units, velocity in milli-units per
/// second.
#[derive(Clone, Copy, PartialEq, Eq, Debug)]
pub struct BallMotion {
    /// Horizontal position.
    pub x: i64,
    /// Vertical position.
    pub y: i64,
    /// Vertical velocity.
    pub vy: i64,
}

/// The paddle's mutable state: where it is and which way it faces.
#[derive(Clone, Copy, PartialEq, Eq, Debug)]
pub struct PaddleState {
    /// Horizontal position of the paddle's centre, in milli-units.
    pub x: i64,
    /// Whether the paddle faces left (toward smaller x).
    pub facing_left: bool,
}

/// The one failure the controller can meet: a time-to-arrival estimate that
/// is undefined because a considered ball has zero vertical velocity. This
/// means a velocity-tracking invariant was broken upstream, and it is
/// surfaced loudly rather than ordered arbitrarily.
#[derive(Clone, Copy, PartialEq, Eq, Debug)]
pub enum PaddleFault {
    /// A chased ball's vertical velocity was zero, so its time to the top
    /// line is undefined.
    UndefinedTimeToTop,
}

/// Penalty added to a wrong-signed arrival time, de-prioritising balls that
/// move away from the top line without discarding them. It is half the
/// arena height with seconds rescaled to microseconds — a deliberate
/// approximation that mixes a length into a time, not exact physics.
pub const WRONG_WAY_PENALTY_US: i64 = 300_000_000;

/// The magnitude a coordinate or velocity may reach before the controller's
/// fixed-point arithmetic could overflow.
pub const MOTION_BOUND: i64 = 1_000_000_000;

/// Whether one ball's numbers are small enough for the controller's
/// arithmetic.
pub open spec fn motion_bounded(b: BallMotion) -> bool {
    &&& -MOTION_BOUND <= b.x <= MOTION_BOUND
    &&& -MOTION_BOUND <= b.y <= MOTION_BOUND
    &&& -MOTION_BOUND <= b.vy <= MOTION_BOUND
}

/// A ball is chased only while it has not yet passed the paddle's resting
/// line — the underside of the paddle's lane; one beyond it cannot be
/// intercepted any more.
pub open spec fn relevant(b: BallMotion) -> bool {
    b.y < PADDLE_START_Y - PADDLE_HALF_HEIGHT
}

/// Estimated time until the ball reaches the top line, in microseconds,
/// truncated toward zero: the distance left divided by the vertical
/// velocity. Negative when the ball moves away from the top line; undefined
/// (by zero division) when the velocity is zero.
pub open spec fn spec_time_to_top(b: BallMotion) -> int
    recommends
        b.vy != 0,
{
    let diff = TOP_WALL - b.y;
    let mag = (magnitude(diff) * 1_000_000) / magnitude(b.vy as int);
    if diff == 0 {
        0
    } else if (diff > 0) == (b.vy > 0) {
        mag
    } else {
        -mag
    }
}

/// The urgency key the controller minimises: the direct arrival time when
/// it is nonnegative, and the penalised, sign-flipped time otherwise.
pub open spec fn spec_urgency(b: BallMotion) -> int
    recommends
        b.vy != 0,
{
    let t = spec_time_to_top(b);
    if t < 0 {
        -t + WRONG_WAY_PENALTY_US
    } else {
        t
    }
}

/// Compute the urgency key of one ball.
fn urgency_of(b: &BallMotion) -> (u: i64)
    requires
        motion_bounded(*b),
        b.vy != 0,
    ensures
        u == spec_urgency(*b),
        u >= 0,
{
    let diff: i64 = TOP_WALL - b.y;
    let ad: u64 = if diff < 0 {
        (-diff) as u64
    } else {
        diff as u64
    };
    let av: u64 = if b.vy < 0 {
        (-b.vy) as u64
    } else {
        b.vy as u64
    };
    let mag_u: u64 = (ad * 1_000_000) / av;
    proof {
        assert(ad * 1_000_000 <= 1_301_000_000_000_000);
        assert(mag_u <= ad * 1_000_000) by (nonlinear_arith)
            requires
                av >= 1,
                mag_u == (ad as int * 1_000_000) / (av as int),
        ;
    }
    let mag: i64 = mag_u as i64;
    let t: i64 = if diff == 0 {
        0
    } else if (diff > 0) == (b.vy > 0) {
        mag
    } else {
        -mag
    };
    if t < 0 {
        -t + WRONG_WAY_PENALTY_US
    } else {
        t
    }
}

/// Select the most urgent ball: among the balls still short of the resting
/// line, the one whose urgency key is smallest, ties going to the later
/// ball. No relevant ball means nothing is chased this tick; a relevant
/// ball with zero vertical velocity is a fault.
pub fn select_target(balls: &Vec<BallMotion>) -> (r: Result<Option<usize>, PaddleFault>)
    requires
        forall|i: int| 0 <= i < balls@.len() ==> motion_bounded(#[trigger] balls@[i]),
    ensures
        match r {
            Err(_) => exists|i: int|
                0 <= i < balls@.len() && relevant(#[trigger] balls@[i]) && balls@[i].vy == 0,
            Ok(sel) => {
                &&& forall|i: int|
                    0 <= i < balls@.len() && relevant(#[trigger] balls@[i]) ==> balls@[i].vy != 0
                &&& match sel {
                    None => forall|i: int| 0 <= i < balls@.len() ==> !relevant(#[trigger] balls@[i]),
                    Some(j) => {
                        &&& j < balls@.len()
                        &&& relevant(balls@[j as int])
                        &&& forall|i: int|
                            0 <= i < balls@.len() && relevant(#[trigger] balls@[i])
                                ==> spec_urgency(balls@[i]) >= spec_urgency(balls@[j as int])
                        &&& forall|i: int|
                            j < i < balls@.len() && relevant(#[trigger] balls@[i])
                                ==> spec_urgency(balls@[i]) > spec_urgency(balls@[j as int])
                    },
                }
            },
        },
{
    let n = balls.len();
    let mut best: Option<usize> = None;
    let mut best_u: i64 = 0;
    let mut i: usize = 0;
    while i < n
        invariant
            n == balls@.len(),
            i <= n,
            forall|k: int| 0 <= k < n ==> motion_bounded(#[trigger] balls@[k]),
            forall|k: int| 0 <= k < i && relevant(#[trigger] balls@[k]) ==> balls@[k].vy != 0,
            match best {
                None => forall|k: int| 0 <= k < i ==> !relevant(#[trigger] balls@[k]),
                Some(j) => {
                    &&& j < i
                    &&& relevant(balls@[j as int])
                    &&& balls@[j as int].vy != 0
                    &&& best_u == spec_urgency(balls@[j as int])
                    &&& forall|k: int|
                        0 <= k < i && relevant(#[trigger] balls@[k]) ==> spec_urgency(balls@[k])
                            >= best_u
                    &&& forall|k: int|
                        j < k < i && relevant(#[trigger] balls@[k]) ==> spec_urgency(balls@[k])
                            > best_u
                },
            },
        decreases n - i,
    {
        let b = balls[i];
        if b.y < PADDLE_START_Y - PADDLE_HALF_HEIGHT {
            if b.vy == 0 {
                return Err(PaddleFault::UndefinedTimeToTop);
            }
            let u = urgency_of(&b);
            match best {
                None => {
                    best = Some(i);
                    best_u = u;
                },
                Some(_) => {
                    if u <= best_u {
                        best = Some(i);
                        best_u = u;
                    }
                },
            }
        }
        i = i + 1;
    }
    Ok(best)
}

/// Where the paddle ends up after chasing toward `target_x` by `amount`
/// milli-units: it turns to face the target, and steps only while its
/// leading half has not yet reached the wall on that side. The wall test is
/// made before the step, not after it, so the last step taken may carry the
/// paddle a little past the line where the test would begin to fail.
pub open spec fn spec_drive(p: PaddleState, target_x: int, amount: int) -> PaddleState {
    let left = p.x > target_x;
    let x2 = if left {
        if p.x - PADDLE_HALF_WIDTH > LEFT_WALL {
            p.x - amount
        } else {
            p.x as int
        }
    } else {
        if p.x + PADDLE_HALF_WIDTH < RIGHT_WALL {
            p.x + amount
        } else {
            p.x as int
        }
    };
    PaddleState { x: x2 as i64, facing_left: left }
}

/// Move the paddle toward `target_x` at its fixed speed for `delta_ms`
/// milliseconds.
pub fn drive_paddle(p: &mut PaddleState, target_x: i64, delta_ms: u64)
    requires
        -MOTION_BOUND <= old(p).x <= MOTION_BOUND,
        delta_ms <= 1_000_000_000,
    ensures
        *final(p) == spec_drive(*old(p), target_x as int, PADDLE_SPEED * delta_ms / 1000),
{
    let amount_u: u64 = (PADDLE_SPEED as u64) * delta_ms / 1000;
    proof {
        assert((PADDLE_SPEED as u64) * delta_ms <= 200_000_000_000_000);
    }
    let amount: i64 = amount_u as i64;
    let left = p.x > target_x;
    p.facing_left = left;
    if left {
        if p.x - PADDLE_HALF_WIDTH > LEFT_WALL {
            p.x = p.x - amount;
        }
    } else {
        if p.x + PADDLE_HALF_WIDTH < RIGHT_WALL {
            p.x = p.x + amount;
        }
    }
}

/// One controller tick: pick the most urgent relevant ball and chase it; if
/// no ball is relevant, hold position and facing; if a relevant ball's
/// arrival time is undefined, fail without moving.
pub fn paddle_tick(p: &mut PaddleState, balls: &Vec<BallMotion>, delta_ms: u64) -> (r: Result<
    (),
    PaddleFault,
>)
    requires
        -MOTION_BOUND <= old(p).x <= MOTION_BOUND,
        delta_ms <= 1_000_000_000,
        forall|i: int| 0 <= i < balls@.len() ==> motion_bounded(#[trigger] balls@[i]),
    ensures
        match r {
            Err(_) => {
                &&& *final(p) == *old(p)
                &&& exists|i: int|
                    0 <= i < balls@.len() && relevant(#[trigger] balls@[i]) && balls@[i].vy == 0
            },
            Ok(_) => {
                &&& (forall|i: int|
                    0 <= i < balls@.len() && relevant(#[trigger] balls@[i]) ==> balls@[i].vy != 0)
                &&& if forall|i: int| 0 <= i < balls@.len() ==> !relevant(#[trigger] balls@[i]) {
                    *final(p) == *old(p)
                } else {
                    exists|j: int|
                        {
                            &&& 0 <= j < balls@.len()
                            &&& relevant(#[trigger] balls@[j])
                            &&& (forall|i: int|
                                0 <= i < balls@.len() && relevant(#[trigger] balls@[i])
                                    ==> spec_urgency(balls@[i]) >= spec_urgency(balls@[j]))
                            &&& (forall|i: int|
                                j < i < balls@.len() && relevant(#[trigger] balls@[i])
                                    ==> spec_urgency(balls@[i]) > spec_urgency(balls@[j]))
                            &&& *final(p) == spec_drive(
                                *old(p),
                                balls@[j].x as int,
                                PADDLE_SPEED * delta_ms / 1000,
                            )
                        }
                }
            },
        },
{
    match select_target(balls) {
        Err(f) => Err(f),
        Ok(None) => Ok(()),
        Ok(Some(j)) => {
            let target_x = balls[j].x;
            drive_paddle(p, target_x, delta_ms);
            Ok(())
        },
    }
}

} // verus!
