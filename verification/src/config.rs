//! World geometry and tuning constants. Positions, sizes and speeds are in
//! milli-units (thousandths of a world unit; speeds per second), durations
//! in milliseconds.

use vstd::prelude::*;

verus! {

/// Horizontal speed the player walks at, in milli-units per second.
pub const PLAYER_X_SPEED: i64 = 220_000;

/// Vertical speed a jump starts with, in milli-units per second.
pub const PLAYER_JUMP_SPEED: i64 = 400_000;

/// Where the paddle starts, horizontally.
pub const PADDLE_START_X: i64 = 0;

/// Where the paddle rests, vertically.
pub const PADDLE_START_Y: i64 = 270_000;

/// Paddle sprite height.
pub const PADDLE_HEIGHT: i64 = 50_000;

/// Half the paddle width; the paddle never crosses a side wall closer than
/// this.
pub const PADDLE_HALF_WIDTH: i64 = 32_000;

/// Half the paddle height; the paddle's resting line sits this far below
/// its centre.
pub const PADDLE_HALF_HEIGHT: i64 = 25_000;

/// Speed the paddle moves at, in milli-units per second.
pub const PADDLE_SPEED: i64 = 200_000;

/// The inner face of the left wall.
pub const LEFT_WALL: i64 = -400_000;

/// The inner face of the right wall.
pub const RIGHT_WALL: i64 = 400_000;

/// The inner face of the bottom wall.
pub const BOTTOM_WALL: i64 = -300_000;

/// The inner face of the top wall.
pub const TOP_WALL: i64 = 300_000;

/// How thick the walls are.
pub const WALL_THICKNESS: i64 = 50_000;

/// Rock sprite width.
pub const ROCK_WIDTH: i64 = 64_000;

/// Rock sprite height.
pub const ROCK_HEIGHT: i64 = 52_000;

/// Vertical gap kept between the paddle and the top wall when laying out
/// the field.
pub const GAP_BETWEEN_PADDLE_AND_TOP: i64 = 60_000;

/// Gap kept between neighbouring rocks.
pub const GAP_BETWEEN_ROCKS: i64 = 6_000;

/// Gap kept between the lowest rock row and the bottom wall.
pub const GAP_BETWEEN_ROCKS_AND_BOTTOM: i64 = 30_000;

/// Gap kept between the outer rock columns and the side walls.
pub const GAP_BETWEEN_ROCKS_AND_SIDES: i64 = 30_000;

/// Gap kept between the highest rock row and the paddle's lane.
pub const GAP_BETWEEN_ROCKS_AND_PADDLE: i64 = 200_000;

/// Speed a freshly spawned ball travels at, in milli-units per second.
pub const BALL_SPEED: i64 = 250_000;

/// How often a new ball is spawned, in milliseconds.
pub const BALL_SPAWN_INTERVAL_MS: u64 = 10_000;

/// Half-angle of the spawn cone around straight down, in milliradians.
pub const BALL_SPAWN_CONE_MILLIRAD: i64 = 785;

/// How far below the paddle's centre a new ball appears.
pub const BALL_SPAWN_DROP: i64 = 35_000;

/// The player falls out of the arena, and the run ends, below this height.
pub const PLAYER_DOOM_LINE: i64 = -270_000;

} // verus!
