//! Tests of the entity registry and the collision-event router: rock
//! destruction through hit sensors, lethal and bouncy walls, player and
//! paddle hits, and deferred batch removal.

use rockfall::arena::Arena;
use rockfall::arena::Entity;
use rockfall::arena::Role;
use rockfall::effects::Sound;
use rockfall::rng::Randomizer;
use rockfall::router::ContactEvent;
use rockfall::router::route_batch;
use rockfall::router::route_event;

const ROCK: u64 = 1;
const SENSOR: u64 = 2;
const BALL: u64 = 3;
const LETHAL_WALL: u64 = 4;
const BOUNCY_WALL: u64 = 5;
const PLAYER: u64 = 6;
const PADDLE: u64 = 7;

fn plain(id: u64, role: Role) -> Entity {
    Entity { id, parent: None, role: Some(role), rock_sensor: None }
}

fn game_arena() -> Arena {
    let mut a = Arena::new();
    assert!(a.spawn(plain(ROCK, Role::Rock)));
    assert!(a.spawn(Entity { id: SENSOR, parent: Some(ROCK), role: None, rock_sensor: Some(ROCK) }));
    assert!(a.spawn(plain(BALL, Role::Ball)));
    assert!(a.spawn(plain(LETHAL_WALL, Role::Wall { lethal: true })));
    assert!(a.spawn(plain(BOUNCY_WALL, Role::Wall { lethal: false })));
    assert!(a.spawn(plain(PLAYER, Role::Player)));
    assert!(a.spawn(plain(PADDLE, Role::Paddle)));
    a
}

#[test]
fn spawn_refuses_clashing_ids() {
    let mut a = game_arena();
    assert!(!a.spawn(plain(BALL, Role::Rock)));
    assert_eq!(a.len(), 7);
    assert_eq!(a.lookup(BALL).unwrap().role, Some(Role::Ball));
}

#[test]
fn lookup_answers_missing_ids_with_none() {
    let a = game_arena();
    assert!(a.lookup(99).is_none());
    assert!(!a.contains_id(99));
    assert!(a.contains_id(ROCK));
}

#[test]
fn rock_sensor_contact_destroys_rock_and_breaks_once() {
    let mut a = game_arena();
    let mut rng = Randomizer::default();
    let events = vec![ContactEvent { a: BALL, b: SENSOR }];
    let sounds = route_batch(&mut a, &events, &mut rng);
    // The referenced rock no longer exists, and its sensor went with it.
    assert!(!a.contains_id(ROCK));
    assert!(!a.contains_id(SENSOR));
    // The ball is untouched, and exactly one break sound was triggered.
    assert!(a.contains_id(BALL));
    assert_eq!(sounds, vec![Sound::RockBreak]);
}

#[test]
fn lethal_wall_contact_removes_ball_silently() {
    let mut a = game_arena();
    let mut rng = Randomizer::default();
    let events = vec![ContactEvent { a: LETHAL_WALL, b: BALL }];
    let sounds = route_batch(&mut a, &events, &mut rng);
    assert!(!a.contains_id(BALL));
    assert!(a.contains_id(LETHAL_WALL));
    assert_eq!(sounds, Vec::new());
}

#[test]
fn bouncy_wall_contact_keeps_ball_and_bounces_once() {
    let mut a = game_arena();
    let mut rng = Randomizer::default();
    let events = vec![ContactEvent { a: BALL, b: BOUNCY_WALL }];
    let sounds = route_batch(&mut a, &events, &mut rng);
    assert!(a.contains_id(BALL));
    assert!(a.contains_id(BOUNCY_WALL));
    assert_eq!(sounds, vec![Sound::WallBounce]);
}

#[test]
fn player_contact_plays_one_of_two_variants() {
    let a = game_arena();
    let e = ContactEvent { a: BALL, b: PLAYER };
    let heads = route_event(&a, &e, true);
    assert!(heads.destroys.is_empty());
    assert_eq!(heads.sounds, vec![Sound::BallHitA]);
    let tails = route_event(&a, &e, false);
    assert_eq!(tails.sounds, vec![Sound::BallHitB]);
}

#[test]
fn paddle_contact_plays_paddle_sound() {
    let a = game_arena();
    let e = ContactEvent { a: PADDLE, b: BALL };
    let out = route_event(&a, &e, false);
    assert!(out.destroys.is_empty());
    assert_eq!(out.sounds, vec![Sound::PaddleHit]);
}

#[test]
fn empty_batch_changes_nothing() {
    let mut a = game_arena();
    let mut rng = Randomizer::default();
    let sounds = route_batch(&mut a, &Vec::new(), &mut rng);
    assert_eq!(a.len(), 7);
    assert!(sounds.is_empty());
}

#[test]
fn event_without_ball_is_ignored() {
    let mut a = game_arena();
    let mut rng = Randomizer::default();
    let events = vec![ContactEvent { a: ROCK, b: PLAYER }];
    let sounds = route_batch(&mut a, &events, &mut rng);
    assert_eq!(a.len(), 7);
    assert!(sounds.is_empty());
}

#[test]
fn dangling_other_participant_is_skipped() {
    let mut a = game_arena();
    let mut rng = Randomizer::default();
    let events = vec![ContactEvent { a: BALL, b: 99 }];
    let sounds = route_batch(&mut a, &events, &mut rng);
    assert_eq!(a.len(), 7);
    assert!(sounds.is_empty());
}

#[test]
fn batch_decides_against_pre_batch_state_then_removes_once() {
    let mut a = game_arena();
    let mut rng = Randomizer::default();
    // The same rock sensor is hit twice in one batch, and the ball dies on
    // the lethal wall in between: every event is still classified against
    // the state the batch began with, and removal happens once, at the end.
    let events = vec![
        ContactEvent { a: BALL, b: SENSOR },
        ContactEvent { a: BALL, b: LETHAL_WALL },
        ContactEvent { a: SENSOR, b: BALL },
    ];
    let sounds = route_batch(&mut a, &events, &mut rng);
    assert!(!a.contains_id(ROCK));
    assert!(!a.contains_id(SENSOR));
    assert!(!a.contains_id(BALL));
    assert!(a.contains_id(PLAYER));
    assert_eq!(sounds, vec![Sound::RockBreak, Sound::RockBreak]);
    assert_eq!(a.len(), 4);
}
