//! The ball spawn timer: a process-wide repeating countdown that, each time
//! it fills up, asks for one new ball below the paddle with a random launch
//! angle — unless no paddle is present, in which case the tick is skipped
//! without consuming the timer.

use vstd::prelude::*;

use crate::config::BALL_SPAWN_CONE_MILLIRAD;
use crate::config::BALL_SPAWN_DROP;
use crate::config::BALL_SPAWN_INTERVAL_MS;
use crate::rng::Randomizer;

verus! {

/// A repeating countdown: time accumulates every tick, and each time it
/// reaches the interval the timer fires and keeps the remainder.
#[derive(Clone, Copy, PartialEq, Eq, Debug)]
pub struct BallSpawnTimer {
    /// How much accumulated time makes the timer fire, in milliseconds.
    pub interval_ms: u64,
    /// Time accumulated toward the next firing, in milliseconds.
    pub accumulated_ms: u64,
}

impl BallSpawnTimer {
    /// The timer invariant: a positive interval, with strictly less than
    /// one interval accumulated.
    pub open spec fn wf(self) -> bool {
        &&& self.interval_ms >= 1
        &&& self.accumulated_ms < self.interval_ms
    }

    /// A fresh timer firing every `interval_ms` milliseconds.
    pub fn new(interval_ms: u64) -> (t: Self)
        requires
            interval_ms >= 1,
        ensures
            t == (BallSpawnTimer { interval_ms, accumulated_ms: 0 }),
            t.wf(),
    {
        BallSpawnTimer { interval_ms, accumulated_ms: 0 }
    }

    /// Advance the countdown by `delta_ms`, but only while a paddle exists:
    /// with no paddle the tick is skipped and the timer keeps its state.
    /// Returns whether the timer fired; a tick that spans several intervals
    /// still fires once, keeping the remainder.
    pub fn tick(&mut self, delta_ms: u64, paddle_present: bool) -> (fired: bool)
        requires
            old(self).wf(),
            old(self).accumulated_ms + delta_ms <= u64::MAX,
        ensures
            final(self).wf(),
            final(self).interval_ms == old(self).interval_ms,
            !paddle_present ==> *final(self) == *old(self) && !fired,
            paddle_present ==> {
                &&& fired == (old(self).accumulated_ms + delta_ms >= old(self).interval_ms)
                &&& final(self).accumulated_ms == (old(self).accumulated_ms + delta_ms) % (
                old(self).interval_ms as int)
            },
    {
        if !paddle_present {
            return false;
        }
        self.accumulated_ms = self.accumulated_ms + delta_ms;
        if self.accumulated_ms >= self.interval_ms {
            self.accumulated_ms = self.accumulated_ms % self.interval_ms;
            true
        } else {
            proof {
                assert((self.accumulated_ms as int) % (self.interval_ms as int)
                    == self.accumulated_ms as int) by (nonlinear_arith)
                    requires
                        0 <= self.accumulated_ms < self.interval_ms,
                ;
            }
            false
        }
    }
}

impl Default for BallSpawnTimer {
    /// The timer the game starts with: one ball every ten seconds.
    fn default() -> (t: Self)
        ensures
            t == (BallSpawnTimer { interval_ms: BALL_SPAWN_INTERVAL_MS, accumulated_ms: 0 }),
            t.wf(),
    {
        BallSpawnTimer { interval_ms: BALL_SPAWN_INTERVAL_MS, accumulated_ms: 0 }
    }
}

/// A request for one new ball: where it appears and the launch angle,
/// in milliradians away from straight down.
#[derive(Clone, Copy, PartialEq, Eq, Debug)]
pub struct BallSpawn {
    /// Horizontal position of the new ball.
    pub x: i64,
    /// Vertical position of the new ball.
    pub y: i64,
    /// Launch direction, measured from straight down; stays within the
    /// spawn cone.
    pub angle_millirad: i64,
}

/// Ask for one new ball just below the paddle: the spawn point follows the
/// paddle's position, and the launch direction is drawn from the spawn
/// cone. Which angle comes back is random; everything else is pinned. Used
/// both when the field is first laid out and whenever the spawn timer
/// fires.
pub fn spawn_request(paddle_x: i64, paddle_y: i64, rng: &mut Randomizer) -> (b: BallSpawn)
    requires
        -1_000_000_000 <= paddle_x <= 1_000_000_000,
        -1_000_000_000 <= paddle_y <= 1_000_000_000,
    ensures
        b.x == paddle_x,
        b.y == paddle_y - BALL_SPAWN_DROP,
        -BALL_SPAWN_CONE_MILLIRAD <= b.angle_millirad <= BALL_SPAWN_CONE_MILLIRAD,
{
    let angle = rng.gen_range_i64(-BALL_SPAWN_CONE_MILLIRAD, BALL_SPAWN_CONE_MILLIRAD + 1);
    BallSpawn { x: paddle_x, y: paddle_y - BALL_SPAWN_DROP, angle_millirad: angle }
}

/// One spawn-timer tick: advance the countdown while a paddle is present at
/// `paddle`, and when the timer fires, ask for a ball just below the
/// paddle, launched at an angle drawn from the spawn cone. Which angle
/// comes back is random; everything else is pinned.
pub fn ball_spawn_tick(
    timer: &mut BallSpawnTimer,
    paddle: Option<(i64, i64)>,
    rng: &mut Randomizer,
    delta_ms: u64,
) -> (spawn: Option<BallSpawn>)
    requires
        old(timer).wf(),
        old(timer).accumulated_ms + delta_ms <= u64::MAX,
        match paddle {
            Some((px, py)) => -1_000_000_000 <= px <= 1_000_000_000 && -1_000_000_000 <= py
                <= 1_000_000_000,
            None => true,
        },
    ensures
        final(timer).wf(),
        final(timer).interval_ms == old(timer).interval_ms,
        match paddle {
            None => *final(timer) == *old(timer) && spawn is None,
            Some((px, py)) => {
                &&& final(timer).accumulated_ms == (old(timer).accumulated_ms + delta_ms) % (
                old(timer).interval_ms as int)
                &&& match spawn {
                    None => old(timer).accumulated_ms + delta_ms < old(timer).interval_ms,
                    Some(b) => {
                        &&& old(timer).accumulated_ms + delta_ms >= old(timer).interval_ms
                        &&& b.x == px
                        &&& b.y == py - BALL_SPAWN_DROP
                        &&& -BALL_SPAWN_CONE_MILLIRAD <= b.angle_millirad
                            <= BALL_SPAWN_CONE_MILLIRAD
                    },
                }
            },
        },
{
    let fired = timer.tick(delta_ms, paddle.is_some());
    match paddle {
        Some((px, py)) if fired => Some(spawn_request(px, py, rng)),
        _ => None,
    }
}

} // verus!
