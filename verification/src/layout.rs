//! Static field layout: where the four walls stand, which of them is
//! lethal, and the grid of rocks that fills the space between the bottom
//! wall and the paddle's lane.

use vstd::prelude::*;

use vstd::arithmetic::div_mod::lemma_fundamental_div_mod_converse_div;
use vstd::arithmetic::div_mod::lemma_fundamental_div_mod_converse_mod;

use crate::config::BOTTOM_WALL;
use crate::config::GAP_BETWEEN_ROCKS;
use crate::config::GAP_BETWEEN_ROCKS_AND_BOTTOM;
use crate::config::GAP_BETWEEN_ROCKS_AND_PADDLE;
use crate::config::GAP_BETWEEN_ROCKS_AND_SIDES;
use crate::config::GAP_BETWEEN_PADDLE_AND_TOP;
use crate::config::LEFT_WALL;
use crate::config::PADDLE_HEIGHT;
use crate::config::RIGHT_WALL;
use crate::config::ROCK_HEIGHT;
use crate::config::ROCK_WIDTH;
use crate::config::TOP_WALL;
use crate::config::WALL_THICKNESS;
use crate::rng::Randomizer;

verus! {

/// Which of the four arena walls an entity is.
#[derive(Clone, Copy, PartialEq, Eq, Debug)]
pub enum WallLocation {
    /// The left boundary.
    Left,
    /// The right boundary.
    Right,
    /// The floor.
    Bottom,
    /// The ceiling; balls die on it.
    Top,
}

/// Centre of each wall slab: half a thickness outside the playable face.
pub open spec fn spec_wall_position(loc: WallLocation) -> (int, int) {
    match loc {
        WallLocation::Left => (LEFT_WALL - WALL_THICKNESS / 2, 0),
        WallLocation::Right => (RIGHT_WALL + WALL_THICKNESS / 2, 0),
        WallLocation::Bottom => (0, BOTTOM_WALL - WALL_THICKNESS / 2),
        WallLocation::Top => (0, TOP_WALL + WALL_THICKNESS / 2),
    }
}

/// Size of each wall slab: one thickness across, and a full arena side plus
/// one thickness along, so the corners are covered.
pub open spec fn spec_wall_size(loc: WallLocation) -> (int, int) {
    match loc {
        WallLocation::Left | WallLocation::Right => (
            WALL_THICKNESS as int,
            TOP_WALL - BOTTOM_WALL + WALL_THICKNESS,
        ),
        WallLocation::Bottom | WallLocation::Top => (
            RIGHT_WALL - LEFT_WALL + WALL_THICKNESS,
            WALL_THICKNESS as int,
        ),
    }
}

impl WallLocation {
    /// Centre of this wall's slab, in milli-units.
    pub fn position(&self) -> (p: (i64, i64))
        ensures
            (p.0 as int, p.1 as int) == spec_wall_position(*self),
    {
        match self {
            WallLocation::Left => (-425_000, 0),
            WallLocation::Right => (425_000, 0),
            WallLocation::Bottom => (0, -325_000),
            WallLocation::Top => (0, 325_000),
        }
    }

    /// Size of this wall's slab, in milli-units.
    pub fn size(&self) -> (s: (i64, i64))
        ensures
            (s.0 as int, s.1 as int) == spec_wall_size(*self),
    {
        match self {
            WallLocation::Left | WallLocation::Right => (50_000, 650_000),
            WallLocation::Bottom | WallLocation::Top => (850_000, 50_000),
        }
    }

    /// Whether a ball touching this wall is destroyed: only the top wall is
    /// lethal.
    pub fn lethal(&self) -> (r: bool)
        ensures
            r == (*self == WallLocation::Top),
    {
        match self {
            WallLocation::Top => true,
            _ => false,
        }
    }
}

/// The height of the paddle's lane, used to bound the rock field: one gap
/// and one paddle height below the top wall.
pub fn paddle_lane_y() -> (y: i64)
    ensures
        y == TOP_WALL - GAP_BETWEEN_PADDLE_AND_TOP - PADDLE_HEIGHT,
{
    TOP_WALL - GAP_BETWEEN_PADDLE_AND_TOP - PADDLE_HEIGHT
}

/// How many rock columns fit between the side gaps.
pub open spec fn spec_rock_columns() -> int {
    ((RIGHT_WALL - LEFT_WALL) - 2 * GAP_BETWEEN_ROCKS_AND_SIDES) / (ROCK_WIDTH
        + GAP_BETWEEN_ROCKS)
}

/// How many rock rows fit between the bottom gap and the paddle's lane,
/// given where the paddle's lane sits.
pub open spec fn spec_rock_rows(paddle_y: int) -> int {
    ((paddle_y - GAP_BETWEEN_ROCKS_AND_PADDLE) - (BOTTOM_WALL + GAP_BETWEEN_ROCKS_AND_BOTTOM)) / (
    ROCK_HEIGHT + GAP_BETWEEN_ROCKS)
}

/// Centre of the leftmost rock column: the columns and their gaps are
/// centred in the arena, and a rock's position names its centre.
pub open spec fn spec_rock_offset_x() -> int {
    -((spec_rock_columns() * ROCK_WIDTH) / 2) - (((spec_rock_columns() - 1) * GAP_BETWEEN_ROCKS)
        / 2) + ROCK_WIDTH / 2
}

/// Centre of the lowest rock row.
pub open spec fn spec_rock_offset_y() -> int {
    BOTTOM_WALL + GAP_BETWEEN_ROCKS_AND_BOTTOM + ROCK_HEIGHT / 2
}

/// A rock to be spawned: where its centre goes and which of the two rock
/// sprites it shows.
#[derive(Clone, Copy, PartialEq, Eq, Debug)]
pub struct RockSpawn {
    /// Horizontal position of the rock's centre.
    pub x: i64,
    /// Vertical position of the rock's centre.
    pub y: i64,
    /// Which rock sprite to show; always `0` or `1`, drawn at random.
    pub image_index: u64,
}

/// Collision radius of a rock's capsule, which depends on which sprite it
/// shows: the flatter sprite gets the smaller radius.
pub fn rock_radius(image_index: u64) -> (r: i64)
    ensures
        r == if image_index == 1 {
            13_000int
        } else {
            15_000int
        },
{
    if image_index == 1 {
        13_000
    } else {
        15_000
    }
}

/// Lay out as many rocks as fit between the walls, the bottom gap, and the
/// paddle's lane at height `paddle_y`: a centred grid, row-major from the
/// bottom left, each rock's sprite drawn at random.
pub fn rock_grid(paddle_y: i64, rng: &mut Randomizer) -> (rocks: Vec<RockSpawn>)
    requires
        -70_000 < paddle_y <= 1_000_000_000,
    ensures
        rocks@.len() == spec_rock_rows(paddle_y as int) * spec_rock_columns(),
        forall|k: int|
            0 <= k < rocks@.len() ==> {
                &&& (#[trigger] rocks@[k]).x == spec_rock_offset_x() + (k % spec_rock_columns())
                    * (ROCK_WIDTH + GAP_BETWEEN_ROCKS)
                &&& rocks@[k].y == spec_rock_offset_y() + (k / spec_rock_columns()) * (ROCK_HEIGHT
                    + GAP_BETWEEN_ROCKS)
                &&& (rocks@[k].image_index == 0 || rocks@[k].image_index == 1)
            },
{
    let top_edge: i64 = paddle_y - GAP_BETWEEN_ROCKS_AND_PADDLE;
    let bottom_edge: i64 = BOTTOM_WALL + GAP_BETWEEN_ROCKS_AND_BOTTOM;
    let height: i64 = top_edge - bottom_edge;
    let total_width: i64 = (RIGHT_WALL - LEFT_WALL) - 2 * GAP_BETWEEN_ROCKS_AND_SIDES;
    let col_pitch: i64 = ROCK_WIDTH + GAP_BETWEEN_ROCKS;
    let row_pitch: i64 = ROCK_HEIGHT + GAP_BETWEEN_ROCKS;
    let n_cols: u64 = (total_width as u64) / (col_pitch as u64);
    let n_rows: u64 = (height as u64) / (row_pitch as u64);
    proof {
        assert(n_cols == spec_rock_columns());
        lemma_fundamental_div_mod_converse_div(740_000, 70_000, 10, 40_000);
        assert(n_cols == 10);
        assert(n_rows == spec_rock_rows(paddle_y as int));
        assert(n_rows * 58_000 <= height) by (nonlinear_arith)
            requires
                n_rows == height as int / 58_000,
                height >= 0,
        ;
    }
    let half_rocks: i64 = ((n_cols * (ROCK_WIDTH as u64)) / 2) as i64;
    let half_gaps: i64 = (((n_cols - 1) * (GAP_BETWEEN_ROCKS as u64)) / 2) as i64;
    let offset_x: i64 = 0 - half_rocks - half_gaps + ((ROCK_WIDTH as u64) / 2) as i64;
    let offset_y: i64 = bottom_edge + ((ROCK_HEIGHT as u64) / 2) as i64;
    proof {
        assert(offset_x == spec_rock_offset_x());
        assert(offset_y == spec_rock_offset_y());
    }

    let mut rocks: Vec<RockSpawn> = Vec::new();
    let mut row: u64 = 0;
    while row < n_rows
        invariant
            row <= n_rows,
            n_cols == 10,
            n_rows * 58_000 <= height <= 1_000_070_000,
            col_pitch == 70_000,
            row_pitch == 58_000,
            offset_x == spec_rock_offset_x(),
            offset_y == spec_rock_offset_y(),
            n_cols == spec_rock_columns(),
            n_rows == spec_rock_rows(paddle_y as int),
            rocks@.len() == row * 10,
            forall|k: int|
                0 <= k < rocks@.len() ==> {
                    &&& (#[trigger] rocks@[k]).x == spec_rock_offset_x() + (k % 10) * 70_000
                    &&& rocks@[k].y == spec_rock_offset_y() + (k / 10) * 58_000
                    &&& (rocks@[k].image_index == 0 || rocks@[k].image_index == 1)
                },
        decreases n_rows - row,
    {
        let mut col: u64 = 0;
        while col < n_cols
            invariant
                row < n_rows,
                col <= n_cols,
                n_cols == 10,
                n_rows * 58_000 <= height <= 1_000_070_000,
                col_pitch == 70_000,
                row_pitch == 58_000,
                offset_x == spec_rock_offset_x(),
                offset_y == spec_rock_offset_y(),
                -347_000 <= offset_x <= 0,
                -244_000 <= offset_y <= 0,
                rocks@.len() == row * 10 + col,
                forall|k: int|
                    0 <= k < rocks@.len() ==> {
                        &&& (#[trigger] rocks@[k]).x == spec_rock_offset_x() + (k % 10) * 70_000
                        &&& rocks@[k].y == spec_rock_offset_y() + (k / 10) * 58_000
                        &&& (rocks@[k].image_index == 0 || rocks@[k].image_index == 1)
                    },
            decreases n_cols - col,
        {
            proof {
                assert(row * 58_000 <= height);
                assert(row * 10 + col < (row + 1) * 10);
            }
            let x: i64 = offset_x + (col as i64) * 70_000;
            let y: i64 = offset_y + (row as i64) * 58_000;
            let image = rng.gen_range_i64(0, 2);
            rocks.push(RockSpawn { x, y, image_index: image as u64 });
            proof {
                let k = rocks@.len() - 1;
                lemma_fundamental_div_mod_converse_mod(k, 10, row as int, col as int);
                lemma_fundamental_div_mod_converse_div(k, 10, row as int, col as int);
            }
            col = col + 1;
        }
        row = row + 1;
    }
    proof {
        assert(rocks@.len() == spec_rock_rows(paddle_y as int) * spec_rock_columns());
    }
    rocks
}

} // verus!
