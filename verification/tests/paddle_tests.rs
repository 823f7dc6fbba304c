//! Tests of the predictive paddle controller: ball selection by estimated
//! arrival time, the wrong-way penalty, the relevance filter, the
//! zero-velocity fault, and clamped movement.

use rockfall::paddle::BallMotion;
use rockfall::paddle::PaddleFault;
use rockfall::paddle::PaddleState;
use rockfall::paddle::drive_paddle;
use rockfall::paddle::paddle_tick;
use rockfall::paddle::select_target;

fn ball(x: i64, y: i64, vy: i64) -> BallMotion {
    BallMotion { x, y, vy }
}

#[test]
fn faster_ball_at_same_height_wins() {
    // Both balls sit below the resting line at the same height; the one
    // with vertical velocity -100 units per second arrives sooner than the
    // one with -50 and must be chased.
    let balls = vec![ball(-50_000, 100_000, -50_000), ball(80_000, 100_000, -100_000)];
    let sel = select_target(&balls).unwrap();
    assert_eq!(sel, Some(1));
    // The same selection, the other way around in the list.
    let balls = vec![ball(80_000, 100_000, -100_000), ball(-50_000, 100_000, -50_000)];
    let sel = select_target(&balls).unwrap();
    assert_eq!(sel, Some(0));
}

#[test]
fn directly_threatening_ball_beats_penalised_one() {
    // A ball whose arrival time comes out positive is preferred to one
    // whose time is negative and therefore penalised.
    let balls = vec![ball(0, 100_000, -100_000), ball(0, 100_000, 100_000)];
    let sel = select_target(&balls).unwrap();
    assert_eq!(sel, Some(1));
}

#[test]
fn no_balls_means_no_target() {
    let balls: Vec<BallMotion> = Vec::new();
    assert_eq!(select_target(&balls).unwrap(), None);
}

#[test]
fn balls_past_the_resting_line_are_ignored() {
    let balls = vec![ball(0, 245_000, -100_000), ball(0, 290_000, -100_000)];
    let sel = select_target(&balls).unwrap();
    assert_eq!(sel, None);
}

#[test]
fn zero_velocity_on_a_relevant_ball_is_a_fault() {
    let balls = vec![ball(0, 100_000, 0)];
    assert_eq!(select_target(&balls), Err(PaddleFault::UndefinedTimeToTop));
    // A zero-velocity ball beyond the resting line is never examined.
    let balls = vec![ball(0, 250_000, 0), ball(0, 100_000, -100_000)];
    assert_eq!(select_target(&balls).unwrap(), Some(1));
}

#[test]
fn ties_go_to_the_later_ball() {
    let balls = vec![ball(-10_000, 100_000, -100_000), ball(10_000, 100_000, -100_000)];
    let sel = select_target(&balls).unwrap();
    assert_eq!(sel, Some(1));
}

#[test]
fn paddle_steps_toward_target_and_turns() {
    let mut p = PaddleState { x: 0, facing_left: false };
    // 100 ms at 200 units per second is a 20-unit step.
    drive_paddle(&mut p, 150_000, 100);
    assert_eq!(p.x, 20_000);
    assert!(!p.facing_left);
    drive_paddle(&mut p, -150_000, 100);
    assert_eq!(p.x, 0);
    assert!(p.facing_left);
}

#[test]
fn paddle_stops_at_the_walls() {
    // With its half-width against the left wall, the paddle holds.
    let mut p = PaddleState { x: -368_000, facing_left: false };
    drive_paddle(&mut p, -390_000, 100);
    assert_eq!(p.x, -368_000);
    assert!(p.facing_left);
    // One milli-unit short of the wall, the test passes and the full step
    // is still taken: the wall test comes before the step, not after.
    let mut p = PaddleState { x: -367_999, facing_left: false };
    drive_paddle(&mut p, -390_000, 100);
    assert_eq!(p.x, -387_999);
    // Same on the right.
    let mut p = PaddleState { x: 368_000, facing_left: true };
    drive_paddle(&mut p, 390_000, 100);
    assert_eq!(p.x, 368_000);
    assert!(!p.facing_left);
}

#[test]
fn no_relevant_ball_holds_position_and_facing() {
    let mut p = PaddleState { x: 12_345, facing_left: true };
    let balls = vec![ball(0, 280_000, -100_000)];
    assert!(paddle_tick(&mut p, &balls, 16).is_ok());
    assert_eq!(p.x, 12_345);
    assert!(p.facing_left);
}

#[test]
fn paddle_tick_chases_the_selected_ball() {
    let mut p = PaddleState { x: 0, facing_left: true };
    let balls = vec![ball(-50_000, 100_000, -50_000), ball(80_000, 100_000, -100_000)];
    assert!(paddle_tick(&mut p, &balls, 100).is_ok());
    // The faster ball sits to the right: the paddle turned and stepped.
    assert_eq!(p.x, 20_000);
    assert!(!p.facing_left);
    // A faulty ball leaves the paddle untouched.
    let balls = vec![ball(0, 100_000, 0)];
    assert!(paddle_tick(&mut p, &balls, 100).is_err());
    assert_eq!(p.x, 20_000);
}
