//! The player-controlled character: the static table of its animation
//! clips, the velocity-driven clip selection, and the integration of input
//! into velocity changes with the footstep/jump sounds they trigger.

use vstd::prelude::*;

use crate::anim::AnimationClip;
use crate::anim::AnimationState;
use crate::config::PLAYER_DOOM_LINE;
use crate::config::PLAYER_JUMP_SPEED;
use crate::config::PLAYER_X_SPEED;
use crate::effects::EffectScheduler;
use crate::effects::Sound;
use crate::effects::SoundBank;
use crate::effects::TimedEffect;
use crate::effects::spec_sound_duration_ms;
use crate::magnitude;

verus! {

/// Velocity of the player's body as the physics engine tracks it, in
/// milli-units per second.
#[derive(Clone, Copy, PartialEq, Eq, Debug)]
pub struct PlayerVelocity {
    /// Horizontal velocity.
    pub vx: i64,
    /// Vertical velocity.
    pub vy: i64,
}

impl PlayerVelocity {
    /// Velocities stay far below the fixed-point range's edge.
    pub open spec fn wf(self) -> bool {
        &&& -1_000_000_000 <= self.vx <= 1_000_000_000
        &&& -1_000_000_000 <= self.vy <= 1_000_000_000
    }
}

/// The player's animation clips, one per movement state, resolved once at
/// startup and shared by reference.
#[derive(Clone, Copy, PartialEq, Eq, Debug)]
pub struct PlayerAnimationTable {
    /// Standing still.
    pub idle: AnimationClip,
    /// Walking.
    pub walk: AnimationClip,
    /// Rising through the air.
    pub jump_up: AnimationClip,
    /// Falling.
    pub jump_down: AnimationClip,
}

/// The table the game ships with. Every clip starts on a distinct frame:
/// clip switching identifies clips by first frame alone, so the table must
/// keep first frames unique.
pub open spec fn spec_default_table() -> PlayerAnimationTable {
    PlayerAnimationTable {
        idle: AnimationClip { first_frame: 0, last_frame: 0, frame_duration_ms: 30, looping: true },
        walk: AnimationClip { first_frame: 1, last_frame: 2, frame_duration_ms: 30, looping: true },
        jump_up: AnimationClip {
            first_frame: 4,
            last_frame: 5,
            frame_duration_ms: 30,
            looping: false,
        },
        jump_down: AnimationClip {
            first_frame: 6,
            last_frame: 6,
            frame_duration_ms: 30,
            looping: false,
        },
    }
}

impl PlayerAnimationTable {
    /// Every clip of the table is well formed and starts on its own frame.
    pub open spec fn wf(self) -> bool {
        &&& self.idle.wf()
        &&& self.walk.wf()
        &&& self.jump_up.wf()
        &&& self.jump_down.wf()
        &&& self.idle.first_frame != self.walk.first_frame
        &&& self.idle.first_frame != self.jump_up.first_frame
        &&& self.idle.first_frame != self.jump_down.first_frame
        &&& self.walk.first_frame != self.jump_up.first_frame
        &&& self.walk.first_frame != self.jump_down.first_frame
        &&& self.jump_up.first_frame != self.jump_down.first_frame
    }
}

impl Default for PlayerAnimationTable {
    /// The table the game ships with.
    fn default() -> (t: Self)
        ensures
            t == spec_default_table(),
            t.wf(),
    {
        PlayerAnimationTable {
            idle: AnimationClip {
                first_frame: 0,
                last_frame: 0,
                frame_duration_ms: 30,
                looping: true,
            },
            walk: AnimationClip {
                first_frame: 1,
                last_frame: 2,
                frame_duration_ms: 30,
                looping: true,
            },
            jump_up: AnimationClip {
                first_frame: 4,
                last_frame: 5,
                frame_duration_ms: 30,
                looping: false,
            },
            jump_down: AnimationClip {
                first_frame: 6,
                last_frame: 6,
                frame_duration_ms: 30,
                looping: false,
            },
        }
    }
}

/// Which clip the player's post-physics velocity calls for: dealing with a
/// jump wins over walking, which wins over idling. The thresholds are in
/// milli-units per second.
pub open spec fn spec_selected_clip(t: PlayerAnimationTable, vx: int, vy: int) -> AnimationClip {
    if magnitude(vy) > 200 {
        if vy < 0 {
            t.jump_down
        } else {
            t.jump_up
        }
    } else if magnitude(vx) > 200 {
        t.walk
    } else {
        t.idle
    }
}

/// Re-select the player's clip from its current velocity, switching the
/// playback state only when the selection actually changes clip, and turn
/// the sprite to face the direction of horizontal movement.
pub fn player_animation_tick(
    state: &mut AnimationState,
    flip_x: &mut bool,
    table: &PlayerAnimationTable,
    vel: PlayerVelocity,
)
    requires
        old(state).wf(),
        table.wf(),
        vel.wf(),
    ensures
        *final(state) == old(state).switched(spec_selected_clip(*table, vel.vx as int, vel.vy as int)),
        final(state).wf(),
        *final(flip_x) == if magnitude(vel.vx as int) > 200 {
            vel.vx < 0
        } else {
            *old(flip_x)
        },
{
    let vy_mag = if vel.vy < 0 {
        -vel.vy
    } else {
        vel.vy
    };
    let vx_mag = if vel.vx < 0 {
        -vel.vx
    } else {
        vel.vx
    };
    if vy_mag > 200 {
        if vel.vy < 0 {
            state.maybe_change_clip(&table.jump_down);
        } else {
            state.maybe_change_clip(&table.jump_up);
        }
    } else if vx_mag > 200 {
        state.maybe_change_clip(&table.walk);
    } else {
        state.maybe_change_clip(&table.idle);
    }
    if vx_mag > 200 {
        *flip_x = vel.vx < 0;
    }
}

/// Alternating footstep bookkeeping: which footstep sound played last, and
/// how long ago.
#[derive(Clone, Copy, PartialEq, Eq, Debug)]
pub struct WalkSoundStatus {
    /// `1` after the first footstep variant, `2` after the second.
    pub last_sound: i8,
    /// Milliseconds since a footstep last played.
    pub time_since_sound_ms: u64,
}

/// What the input layer reports for one tick: whether the movement axis is
/// held and its value (scaled to thousandths of full deflection), and
/// whether jump was pressed this very tick.
#[derive(Clone, Copy, PartialEq, Eq, Debug)]
pub struct PlayerInput {
    /// Whether the movement axis is actuated at all.
    pub move_pressed: bool,
    /// The movement axis value, in thousandths, between -1000 and 1000.
    pub move_axis_milli: i64,
    /// Whether jump was pressed this tick (edge, not level).
    pub jump_just_pressed: bool,
}

impl PlayerInput {
    /// The axis value stays within full deflection.
    pub open spec fn wf(self) -> bool {
        -1000 <= self.move_axis_milli <= 1000
    }
}

/// The sounds one input tick starts: a footstep when walking on the ground
/// after enough quiet, alternating between the two variants, and the jump
/// sound when a grounded jump starts.
pub open spec fn spec_input_sounds(
    input: PlayerInput,
    walk: WalkSoundStatus,
    vel: PlayerVelocity,
) -> Seq<Sound> {
    let step: Seq<Sound> = if input.move_pressed && walk.time_since_sound_ms > 250 && magnitude(
        vel.vy as int,
    ) < 50 {
        if walk.last_sound == 1 {
            seq![Sound::StepTwo]
        } else {
            seq![Sound::StepOne]
        }
    } else {
        Seq::empty()
    };
    let jump: Seq<Sound> = if input.jump_just_pressed && magnitude(vel.vy as int) < 500 {
        seq![Sound::Jump]
    } else {
        Seq::empty()
    };
    step + jump
}

/// Integrate one tick of input into the player's velocity, before the
/// physics step consumes it: holding the movement axis sets the horizontal
/// velocity proportionally; a jump pressed while the body is not already
/// moving vertically sets the jump velocity. Footstep and jump sounds are
/// started on the scheduler, and the footstep bookkeeping advances.
pub fn player_inputs(
    vel: &mut PlayerVelocity,
    walk: &mut WalkSoundStatus,
    input: &PlayerInput,
    bank: &SoundBank,
    sched: &mut EffectScheduler,
    delta_ms: u64,
) -> (sounds: Vec<Sound>)
    requires
        input.wf(),
        old(vel).wf(),
        old(walk).time_since_sound_ms + delta_ms <= u64::MAX,
    ensures
        final(vel).vx == if input.move_pressed {
            input.move_axis_milli * PLAYER_X_SPEED / 1000
        } else {
            old(vel).vx as int
        },
        final(vel).vy == if input.jump_just_pressed && magnitude(old(vel).vy as int) < 500 {
            PLAYER_JUMP_SPEED as int
        } else {
            old(vel).vy as int
        },
        *final(walk) == if input.move_pressed {
            if old(walk).time_since_sound_ms > 250 && magnitude(old(vel).vy as int) < 50 {
                (WalkSoundStatus {
                    last_sound: if old(walk).last_sound == 1 {
                        2
                    } else {
                        1
                    },
                    time_since_sound_ms: 0,
                })
            } else {
                (WalkSoundStatus {
                    last_sound: old(walk).last_sound,
                    time_since_sound_ms: (old(walk).time_since_sound_ms + delta_ms) as u64,
                })
            }
        } else {
            *old(walk)
        },
        sounds@ == spec_input_sounds(*input, *old(walk), *old(vel)),
        final(sched)@ == old(sched)@ + sounds@.map_values(
            |s: Sound| TimedEffect {
                handle: bank.spec_handle_of(s),
                remaining_ms: spec_sound_duration_ms(s),
            },
        ),
{
    let mut sounds: Vec<Sound> = Vec::new();
    let ghost vy0 = vel.vy;
    if input.move_pressed {
        // The axis is in thousandths of full deflection, so the product
        // with the full walking speed is scaled back down by a thousand;
        // it divides exactly.
        vel.vx = input.move_axis_milli * 220;
        proof {
            let a = input.move_axis_milli as int;
            assert(a * 220_000 == (a * 220) * 1000) by (nonlinear_arith);
            vstd::arithmetic::div_mod::lemma_fundamental_div_mod_converse_div(
                a * 220_000,
                1000,
                a * 220,
                0,
            );
        }
        let vy_mag = if vel.vy < 0 {
            -vel.vy
        } else {
            vel.vy
        };
        if walk.time_since_sound_ms > 250 && vy_mag < 50 {
            walk.time_since_sound_ms = 0;
            if walk.last_sound == 1 {
                bank.play(sched, Sound::StepTwo);
                sounds.push(Sound::StepTwo);
                walk.last_sound = 2;
            } else {
                bank.play(sched, Sound::StepOne);
                sounds.push(Sound::StepOne);
                walk.last_sound = 1;
            }
        } else {
            walk.time_since_sound_ms = walk.time_since_sound_ms + delta_ms;
        }
    }
    if input.jump_just_pressed {
        let vy_mag = if vel.vy < 0 {
            -vel.vy
        } else {
            vel.vy
        };
        if vy_mag < 500 {
            vel.vy = PLAYER_JUMP_SPEED;
            bank.play(sched, Sound::Jump);
            sounds.push(Sound::Jump);
        }
    }
    proof {
        assert(sounds@ =~= spec_input_sounds(*input, *old(walk), *old(vel)));
        assert(final(sched)@ =~= old(sched)@ + sounds@.map_values(
            |s: Sound| TimedEffect {
                handle: bank.spec_handle_of(s),
                remaining_ms: spec_sound_duration_ms(s),
            },
        ));
    }
    sounds
}

/// Whether the player has fallen below the arena's doom line; crossing it
/// ends the run with the explosion sound. A missing player (`None`) means a
/// transition is in progress and the check is skipped.
pub fn check_for_game_over(
    player_y: Option<i64>,
    bank: &SoundBank,
    sched: &mut EffectScheduler,
) -> (over: bool)
    ensures
        over == match player_y {
            Some(y) => y < PLAYER_DOOM_LINE,
            None => false,
        },
        final(sched)@ == if over {
            old(sched)@.push(
                TimedEffect {
                    handle: bank.spec_handle_of(Sound::Explosion),
                    remaining_ms: spec_sound_duration_ms(Sound::Explosion),
                },
            )
        } else {
            old(sched)@
        },
{
    match player_y {
        Some(y) => {
            if y < PLAYER_DOOM_LINE {
                bank.play(sched, Sound::Explosion);
                true
            } else {
                false
            }
        },
        None => false,
    }
}

/// The running tally of time survived, shown by the scoreboard.
#[derive(Clone, Copy, PartialEq, Eq, Debug)]
pub struct SurvivalClock {
    /// Total simulated time survived so far, in milliseconds.
    pub elapsed_ms: u64,
}

impl SurvivalClock {
    /// A clock that has seen no time yet.
    pub fn new() -> (c: Self)
        ensures
            c.elapsed_ms == 0,
    {
        SurvivalClock { elapsed_ms: 0 }
    }

    /// Count one tick's delta toward the time survived.
    pub fn tick(&mut self, delta_ms: u64)
        requires
            old(self).elapsed_ms + delta_ms <= u64::MAX,
        ensures
            final(self).elapsed_ms == old(self).elapsed_ms + delta_ms,
    {
        self.elapsed_ms = self.elapsed_ms + delta_ms;
    }
}

} // verus!
