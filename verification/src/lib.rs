//! Core simulation logic for a small arcade game: a timer-driven sprite
//! animation player, a collision-event router, a predictive paddle
//! controller, a timed-lifetime effect scheduler, and a ball spawn timer.
//!
//! All quantities are fixed-point integers: positions, sizes and velocities
//! are measured in milli-units (thousandths of a world unit, with velocities
//! in milli-units per second), and time is measured in milliseconds. The
//! surrounding engine — rendering, audio output, input devices, and the
//! rigid-body physics step — stays outside; it feeds the core plain values
//! (tick deltas, contact events, positions and velocities) and consumes the
//! decisions the core returns.

use vstd::prelude::*;

pub mod anim;
pub mod arena;
pub mod config;
pub mod effects;
pub mod layout;
pub mod paddle;
pub mod player;
pub mod rng;
pub mod router;
pub mod spawn;

verus! {

/// Magnitude of an integer.
pub open spec fn magnitude(x: int) -> int {
    if x < 0 {
        -x
    } else {
        x
    }
}

} // verus!
