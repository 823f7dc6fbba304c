//! Tests of the player systems: the shipped clip table, velocity-driven
//! clip selection, input integration with footstep alternation, and the
//! game-over check.

use rockfall::anim::AnimationState;
use rockfall::effects::EffectScheduler;
use rockfall::effects::Sound;
use rockfall::effects::SoundBank;
use rockfall::player::PlayerAnimationTable;
use rockfall::player::PlayerInput;
use rockfall::player::PlayerVelocity;
use rockfall::player::SurvivalClock;
use rockfall::player::WalkSoundStatus;
use rockfall::player::check_for_game_over;
use rockfall::player::player_animation_tick;
use rockfall::player::player_inputs;

fn bank() -> SoundBank {
    SoundBank {
        ball_sound: 100,
        ball2_sound: 101,
        break_sound: 102,
        explosion_sound: 103,
        jump_sound: 104,
        step1_sound: 105,
        step2_sound: 106,
        wall_sound: 107,
    }
}

fn still() -> PlayerInput {
    PlayerInput { move_pressed: false, move_axis_milli: 0, jump_just_pressed: false }
}

#[test]
fn shipped_table_has_distinct_first_frames() {
    let t = PlayerAnimationTable::default();
    assert_eq!(t.idle.first_frame, 0);
    assert_eq!(t.idle.last_frame, 0);
    assert!(t.idle.looping);
    assert_eq!(t.walk.first_frame, 1);
    assert_eq!(t.walk.last_frame, 2);
    assert!(t.walk.looping);
    assert_eq!(t.jump_up.first_frame, 4);
    assert_eq!(t.jump_up.last_frame, 5);
    assert!(!t.jump_up.looping);
    assert_eq!(t.jump_down.first_frame, 6);
    assert_eq!(t.jump_down.last_frame, 6);
    assert!(!t.jump_down.looping);
    assert_eq!(t.idle.frame_duration_ms, 30);
}

#[test]
fn jump_beats_walk_beats_idle() {
    let t = PlayerAnimationTable::default();
    let mut s = AnimationState::start(t.idle);
    let mut flip = false;
    // Rising fast while also walking: the jump clip wins.
    player_animation_tick(&mut s, &mut flip, &t, PlayerVelocity { vx: 300, vy: 300 });
    assert_eq!(s.clip, t.jump_up);
    // Falling: the fall clip.
    player_animation_tick(&mut s, &mut flip, &t, PlayerVelocity { vx: 0, vy: -300 });
    assert_eq!(s.clip, t.jump_down);
    // Grounded and walking: the walk clip, and the sprite faces movement.
    player_animation_tick(&mut s, &mut flip, &t, PlayerVelocity { vx: -300, vy: 0 });
    assert_eq!(s.clip, t.walk);
    assert!(flip);
    // Grounded and still: idle; facing holds.
    player_animation_tick(&mut s, &mut flip, &t, PlayerVelocity { vx: 0, vy: 0 });
    assert_eq!(s.clip, t.idle);
    assert!(flip);
}

#[test]
fn repeated_selection_of_the_same_clip_keeps_progress() {
    let t = PlayerAnimationTable::default();
    let mut s = AnimationState::start(t.walk);
    let mut flip = false;
    s.tick(40);
    let before = s;
    player_animation_tick(&mut s, &mut flip, &t, PlayerVelocity { vx: 250, vy: 0 });
    assert_eq!(s, before);
}

#[test]
fn held_axis_sets_horizontal_velocity() {
    let mut vel = PlayerVelocity { vx: 0, vy: 0 };
    let mut walk = WalkSoundStatus { last_sound: 2, time_since_sound_ms: 0 };
    let mut sched = EffectScheduler::new();
    let input = PlayerInput { move_pressed: true, move_axis_milli: 1000, jump_just_pressed: false };
    player_inputs(&mut vel, &mut walk, &input, &bank(), &mut sched, 16);
    assert_eq!(vel.vx, 220_000);
    let input = PlayerInput { move_pressed: true, move_axis_milli: -500, jump_just_pressed: false };
    player_inputs(&mut vel, &mut walk, &input, &bank(), &mut sched, 16);
    assert_eq!(vel.vx, -110_000);
}

#[test]
fn footsteps_alternate_after_enough_quiet_on_the_ground() {
    let mut vel = PlayerVelocity { vx: 0, vy: 0 };
    let mut walk = WalkSoundStatus { last_sound: 2, time_since_sound_ms: 300 };
    let mut sched = EffectScheduler::new();
    let input = PlayerInput { move_pressed: true, move_axis_milli: 1000, jump_just_pressed: false };
    // Enough quiet, grounded: the first variant plays (last was the second).
    let sounds = player_inputs(&mut vel, &mut walk, &input, &bank(), &mut sched, 16);
    assert_eq!(sounds, vec![Sound::StepOne]);
    assert_eq!(walk.last_sound, 1);
    assert_eq!(walk.time_since_sound_ms, 0);
    // Immediately after, it is too soon: no sound, time accumulates.
    let sounds = player_inputs(&mut vel, &mut walk, &input, &bank(), &mut sched, 100);
    assert!(sounds.is_empty());
    assert_eq!(walk.time_since_sound_ms, 100);
    // After enough further quiet, the other variant plays.
    walk.time_since_sound_ms = 251;
    let sounds = player_inputs(&mut vel, &mut walk, &input, &bank(), &mut sched, 16);
    assert_eq!(sounds, vec![Sound::StepTwo]);
    assert_eq!(walk.last_sound, 2);
}

#[test]
fn airborne_walking_makes_no_footsteps() {
    let mut vel = PlayerVelocity { vx: 0, vy: 300 };
    let mut walk = WalkSoundStatus { last_sound: 2, time_since_sound_ms: 300 };
    let mut sched = EffectScheduler::new();
    let input = PlayerInput { move_pressed: true, move_axis_milli: 1000, jump_just_pressed: false };
    let sounds = player_inputs(&mut vel, &mut walk, &input, &bank(), &mut sched, 16);
    assert!(sounds.is_empty());
    assert_eq!(walk.time_since_sound_ms, 316);
}

#[test]
fn grounded_jump_launches_and_sounds_once() {
    let mut vel = PlayerVelocity { vx: 0, vy: 0 };
    let mut walk = WalkSoundStatus { last_sound: 2, time_since_sound_ms: 0 };
    let mut sched = EffectScheduler::new();
    let input = PlayerInput { move_pressed: false, move_axis_milli: 0, jump_just_pressed: true };
    let sounds = player_inputs(&mut vel, &mut walk, &input, &bank(), &mut sched, 16);
    assert_eq!(vel.vy, 400_000);
    assert_eq!(sounds, vec![Sound::Jump]);
    assert_eq!(sched.len(), 1);
    assert_eq!(sched.at(0).handle, 104);
    assert_eq!(sched.at(0).remaining_ms, 234);
}

#[test]
fn airborne_jump_press_does_nothing() {
    let mut vel = PlayerVelocity { vx: 0, vy: 600 };
    let mut walk = WalkSoundStatus { last_sound: 2, time_since_sound_ms: 0 };
    let mut sched = EffectScheduler::new();
    let input = PlayerInput { move_pressed: false, move_axis_milli: 0, jump_just_pressed: true };
    let sounds = player_inputs(&mut vel, &mut walk, &input, &bank(), &mut sched, 16);
    assert_eq!(vel.vy, 600);
    assert!(sounds.is_empty());
    assert_eq!(sched.len(), 0);
}

#[test]
fn falling_below_the_doom_line_ends_the_run_with_an_explosion() {
    let mut sched = EffectScheduler::new();
    assert!(!check_for_game_over(Some(-270_000), &bank(), &mut sched));
    assert_eq!(sched.len(), 0);
    assert!(check_for_game_over(Some(-270_001), &bank(), &mut sched));
    assert_eq!(sched.len(), 1);
    assert_eq!(sched.at(0).handle, 103);
    assert_eq!(sched.at(0).remaining_ms, 1878);
    // No player means a transition is in progress: nothing happens.
    assert!(!check_for_game_over(None, &bank(), &mut sched));
    assert_eq!(sched.len(), 1);
}

#[test]
fn survival_clock_accumulates_ticks() {
    let mut c = SurvivalClock::new();
    c.tick(16);
    c.tick(17);
    assert_eq!(c.elapsed_ms, 33);
}
