//! Tests of the timed-lifetime scheduler and the sound table.

use rockfall::effects::EffectScheduler;
use rockfall::effects::Sound;
use rockfall::effects::SoundBank;
use rockfall::effects::sound_duration_ms;

fn bank() -> SoundBank {
    SoundBank {
        ball_sound: 100,
        ball2_sound: 101,
        break_sound: 102,
        explosion_sound: 103,
        jump_sound: 104,
        step1_sound: 105,
        step2_sound: 106,
        wall_sound: 107,
    }
}

#[test]
fn effect_lives_until_its_countdown_crosses_zero() {
    let mut sched = EffectScheduler::new();
    sched.trigger_effect(7, 417);
    // 400 ms in, the effect is still alive...
    sched.tick(400);
    assert!(sched.contains_handle(7));
    assert_eq!(sched.at(0).remaining_ms, 17);
    // ...and a further 20 ms, crossing 417 in total, removes it.
    sched.tick(20);
    assert!(!sched.contains_handle(7));
    assert_eq!(sched.len(), 0);
}

#[test]
fn countdown_reaching_exactly_zero_removes_the_effect() {
    let mut sched = EffectScheduler::new();
    sched.trigger_effect(1, 100);
    sched.trigger_effect(2, 300);
    sched.tick(100);
    assert!(!sched.contains_handle(1));
    assert!(sched.contains_handle(2));
    assert_eq!(sched.len(), 1);
    assert_eq!(sched.at(0).remaining_ms, 200);
}

#[test]
fn independent_effects_expire_independently() {
    let mut sched = EffectScheduler::new();
    sched.trigger_effect(1, 169);
    sched.tick(100);
    sched.trigger_effect(2, 169);
    sched.tick(69);
    assert!(!sched.contains_handle(1));
    assert!(sched.contains_handle(2));
    assert_eq!(sched.at(0).remaining_ms, 100);
}

#[test]
fn sound_durations_match_their_resources() {
    assert_eq!(sound_duration_ms(Sound::RockBreak), 417);
    assert_eq!(sound_duration_ms(Sound::WallBounce), 139);
    assert_eq!(sound_duration_ms(Sound::BallHitA), 169);
    assert_eq!(sound_duration_ms(Sound::BallHitB), 169);
    assert_eq!(sound_duration_ms(Sound::PaddleHit), 169);
    assert_eq!(sound_duration_ms(Sound::Jump), 234);
    assert_eq!(sound_duration_ms(Sound::StepOne), 225);
    assert_eq!(sound_duration_ms(Sound::StepTwo), 225);
    assert_eq!(sound_duration_ms(Sound::Explosion), 1878);
}

#[test]
fn playing_a_sound_schedules_its_handle_and_length() {
    let b = bank();
    let mut sched = EffectScheduler::new();
    b.play(&mut sched, Sound::RockBreak);
    assert_eq!(sched.len(), 1);
    assert_eq!(sched.at(0).handle, 102);
    assert_eq!(sched.at(0).remaining_ms, 417);
    b.play(&mut sched, Sound::PaddleHit);
    assert_eq!(sched.at(1).handle, 101);
    assert_eq!(sched.at(1).remaining_ms, 169);
}
