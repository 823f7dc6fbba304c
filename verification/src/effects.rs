//! Fire-and-forget timed effects: an effect entity is spawned with a
//! countdown matching its resource's real playback length and is destroyed,
//! releasing the resource, once the countdown runs out.

use vstd::prelude::*;

verus! {

/// The sound effects the simulation can trigger.
#[derive(Clone, Copy, PartialEq, Eq, Debug)]
pub enum Sound {
    /// A rock shattering.
    RockBreak,
    /// A ball bouncing off a non-lethal wall.
    WallBounce,
    /// First variant of the ball-hits-player sound.
    BallHitA,
    /// Second variant of the ball-hits-player sound.
    BallHitB,
    /// A ball striking the paddle.
    PaddleHit,
    /// The player jumping.
    Jump,
    /// First footstep variant.
    StepOne,
    /// Second footstep variant.
    StepTwo,
    /// The game-over explosion.
    Explosion,
}

/// Real playback length of each sound resource, in milliseconds; effect
/// lifetimes are matched to these so sound and lifetime stay in sync.
pub open spec fn spec_sound_duration_ms(s: Sound) -> u64 {
    match s {
        Sound::RockBreak => 417,
        Sound::WallBounce => 139,
        Sound::BallHitA => 169,
        Sound::BallHitB => 169,
        Sound::PaddleHit => 169,
        Sound::Jump => 234,
        Sound::StepOne => 225,
        Sound::StepTwo => 225,
        Sound::Explosion => 1878,
    }
}

/// Real playback length of each sound resource, in milliseconds.
pub fn sound_duration_ms(s: Sound) -> (d: u64)
    ensures
        d == spec_sound_duration_ms(s),
{
    match s {
        Sound::RockBreak => 417,
        Sound::WallBounce => 139,
        Sound::BallHitA => 169,
        Sound::BallHitB => 169,
        Sound::PaddleHit => 169,
        Sound::Jump => 234,
        Sound::StepOne => 225,
        Sound::StepTwo => 225,
        Sound::Explosion => 1878,
    }
}

/// One ephemeral effect entity: the resource it keeps alive and the time it
/// has left.
#[derive(Clone, Copy, PartialEq, Eq, Debug)]
pub struct TimedEffect {
    /// The resource handle bundled with this effect (an audio playback, say).
    pub handle: u64,
    /// Milliseconds left before the effect entity is destroyed.
    pub remaining_ms: u64,
}

/// The effects left after one tick of `delta` milliseconds: each countdown
/// shrinks by the delta, and an effect whose countdown would reach or cross
/// zero is destroyed.
pub open spec fn after_tick(s: Seq<TimedEffect>, delta: u64) -> Seq<TimedEffect>
    decreases s.len(),
{
    if s.len() == 0 {
        Seq::empty()
    } else {
        let rest = after_tick(s.drop_last(), delta);
        if s.last().remaining_ms <= delta {
            rest
        } else {
            rest.push(
                TimedEffect {
                    handle: s.last().handle,
                    remaining_ms: (s.last().remaining_ms - delta) as u64,
                },
            )
        }
    }
}

/// Some live effect holds this resource handle.
pub open spec fn has_handle(s: Seq<TimedEffect>, handle: u64) -> bool {
    exists|i: int| 0 <= i < s.len() && s[i].handle == handle
}

/// The live timed effects, ticked down together once per simulation step.
pub struct EffectScheduler {
    effects: Vec<TimedEffect>,
}

impl View for EffectScheduler {
    type V = Seq<TimedEffect>;

    closed spec fn view(&self) -> Seq<TimedEffect> {
        self.effects@
    }
}

impl EffectScheduler {
    /// A scheduler with no live effects.
    pub fn new() -> (s: Self)
        ensures
            s@ == Seq::<TimedEffect>::empty(),
    {
        EffectScheduler { effects: Vec::new() }
    }

    /// How many effects are live.
    pub fn len(&self) -> (n: usize)
        ensures
            n == self@.len(),
    {
        self.effects.len()
    }

    /// The effect at a position, for walking the live set.
    pub fn at(&self, i: usize) -> (e: TimedEffect)
        requires
            i < self@.len(),
        ensures
            e == self@[i as int],
    {
        self.effects[i]
    }

    /// Whether an effect holding this resource handle is still live.
    pub fn contains_handle(&self, handle: u64) -> (r: bool)
        ensures
            r == has_handle(self@, handle),
    {
        let n = self.effects.len();
        let mut i: usize = 0;
        while i < n
            invariant
                n == self@.len(),
                i <= n,
                forall|j: int| 0 <= j < i ==> self@[j].handle != handle,
            decreases n - i,
        {
            if self.effects[i].handle == handle {
                return true;
            }
            i = i + 1;
        }
        false
    }

    /// Spawn an effect entity bundling `handle` with a countdown of
    /// `duration_ms`; it will be destroyed once that much time has ticked by.
    pub fn trigger_effect(&mut self, handle: u64, duration_ms: u64)
        ensures
            final(self)@ == old(self)@.push(
                TimedEffect { handle, remaining_ms: duration_ms },
            ),
    {
        self.effects.push(TimedEffect { handle, remaining_ms: duration_ms });
    }

    /// Advance every countdown by `delta_ms` and destroy each effect whose
    /// countdown reaches or crosses zero.
    pub fn tick(&mut self, delta_ms: u64)
        ensures
            final(self)@ == after_tick(old(self)@, delta_ms),
    {
        let ghost s = self@;
        let n = self.effects.len();
        let mut kept: Vec<TimedEffect> = Vec::new();
        let mut i: usize = 0;
        while i < n
            invariant
                n == s.len(),
                i <= n,
                s == self@,
                kept@ == after_tick(s.subrange(0, i as int), delta_ms),
            decreases n - i,
        {
            let e = self.effects[i];
            proof {
                let pre = s.subrange(0, i as int);
                let cur = s.subrange(0, i as int + 1);
                assert(cur.drop_last() =~= pre);
                assert(cur.last() == s[i as int]);
            }
            if e.remaining_ms > delta_ms {
                kept.push(TimedEffect { handle: e.handle, remaining_ms: e.remaining_ms - delta_ms });
            }
            i = i + 1;
        }
        proof {
            assert(s.subrange(0, n as int) =~= s);
        }
        self.effects = kept;
    }
}

/// The audio resource handles resolved at load time, one per sound.
#[derive(Clone, Copy, PartialEq, Eq, Debug)]
pub struct SoundBank {
    /// Handle of the first ball-hits-player sound.
    pub ball_sound: u64,
    /// Handle of the second ball-hits-player sound, also used for the paddle.
    pub ball2_sound: u64,
    /// Handle of the rock-break sound.
    pub break_sound: u64,
    /// Handle of the game-over explosion sound.
    pub explosion_sound: u64,
    /// Handle of the jump sound.
    pub jump_sound: u64,
    /// Handle of the first footstep sound.
    pub step1_sound: u64,
    /// Handle of the second footstep sound.
    pub step2_sound: u64,
    /// Handle of the wall-bounce sound.
    pub wall_sound: u64,
}

impl SoundBank {
    /// Which loaded resource plays each sound.
    pub open spec fn spec_handle_of(self, s: Sound) -> u64 {
        match s {
            Sound::RockBreak => self.break_sound,
            Sound::WallBounce => self.wall_sound,
            Sound::BallHitA => self.ball_sound,
            Sound::BallHitB => self.ball2_sound,
            Sound::PaddleHit => self.ball2_sound,
            Sound::Jump => self.jump_sound,
            Sound::StepOne => self.step1_sound,
            Sound::StepTwo => self.step2_sound,
            Sound::Explosion => self.explosion_sound,
        }
    }

    /// Which loaded resource plays each sound.
    pub fn handle_of(&self, s: Sound) -> (h: u64)
        ensures
            h == self.spec_handle_of(s),
    {
        match s {
            Sound::RockBreak => self.break_sound,
            Sound::WallBounce => self.wall_sound,
            Sound::BallHitA => self.ball_sound,
            Sound::BallHitB => self.ball2_sound,
            Sound::PaddleHit => self.ball2_sound,
            Sound::Jump => self.jump_sound,
            Sound::StepOne => self.step1_sound,
            Sound::StepTwo => self.step2_sound,
            Sound::Explosion => self.explosion_sound,
        }
    }

    /// Start one sound playing: spawn a timed effect holding its resource
    /// handle for exactly the resource's playback length.
    pub fn play(&self, sched: &mut EffectScheduler, s: Sound)
        ensures
            final(sched)@ == old(sched)@.push(
                TimedEffect {
                    handle: self.spec_handle_of(s),
                    remaining_ms: spec_sound_duration_ms(s),
                },
            ),
    {
        let h = self.handle_of(s);
        let d = sound_duration_ms(s);
        sched.trigger_effect(h, d);
    }
}

} // verus!
