//! Tests of the static field layout: wall slabs, the lethal ceiling, and
//! the centred rock grid.

use rockfall::layout::WallLocation;
use rockfall::layout::paddle_lane_y;
use rockfall::layout::rock_grid;
use rockfall::layout::rock_radius;
use rockfall::rng::Randomizer;

#[test]
fn wall_slabs_sit_half_a_thickness_outside_the_faces() {
    assert_eq!(WallLocation::Left.position(), (-425_000, 0));
    assert_eq!(WallLocation::Right.position(), (425_000, 0));
    assert_eq!(WallLocation::Bottom.position(), (0, -325_000));
    assert_eq!(WallLocation::Top.position(), (0, 325_000));
    assert_eq!(WallLocation::Left.size(), (50_000, 650_000));
    assert_eq!(WallLocation::Right.size(), (50_000, 650_000));
    assert_eq!(WallLocation::Bottom.size(), (850_000, 50_000));
    assert_eq!(WallLocation::Top.size(), (850_000, 50_000));
}

#[test]
fn only_the_ceiling_is_lethal() {
    assert!(WallLocation::Top.lethal());
    assert!(!WallLocation::Left.lethal());
    assert!(!WallLocation::Right.lethal());
    assert!(!WallLocation::Bottom.lethal());
}

#[test]
fn rock_grid_fills_the_field_row_major() {
    let mut rng = Randomizer::default();
    let lane = paddle_lane_y();
    assert_eq!(lane, 190_000);
    let rocks = rock_grid(lane, &mut rng);
    // Ten columns fit across; four rows fit below the paddle's lane.
    assert_eq!(rocks.len(), 40);
    // Bottom-left rock.
    assert_eq!(rocks[0].x, -315_000);
    assert_eq!(rocks[0].y, -244_000);
    // Its right-hand neighbour, one column pitch over.
    assert_eq!(rocks[1].x, -245_000);
    assert_eq!(rocks[1].y, -244_000);
    // First rock of the second row, one row pitch up.
    assert_eq!(rocks[10].x, -315_000);
    assert_eq!(rocks[10].y, -186_000);
    // Top-right rock.
    assert_eq!(rocks[39].x, 315_000);
    assert_eq!(rocks[39].y, -70_000);
    for r in &rocks {
        assert!(r.image_index == 0 || r.image_index == 1);
    }
}

#[test]
fn a_lower_lane_fits_fewer_rows() {
    let mut rng = Randomizer::default();
    let rocks = rock_grid(110_000, &mut rng);
    // Height 180: three rows of ten.
    assert_eq!(rocks.len(), 30);
}

#[test]
fn rock_radius_follows_the_sprite() {
    assert_eq!(rock_radius(0), 15_000);
    assert_eq!(rock_radius(1), 13_000);
}
