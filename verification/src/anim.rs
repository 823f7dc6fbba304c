//! Frame-driven sprite animation: clips, per-entity playback state, and the
//! tick that advances the current frame index.

use vstd::prelude::*;

verus! {

/// Static description of one animation clip: a contiguous frame range, the
/// time each frame is shown for, and whether playback wraps around or holds
/// on the last frame.
#[derive(Clone, Copy, PartialEq, Eq, Structural, Debug)]
pub struct AnimationClip {
    /// Index of the first frame of the clip in the sprite sheet.
    pub first_frame: u64,
    /// Index of the last frame of the clip (inclusive).
    pub last_frame: u64,
    /// How long each frame is shown, in milliseconds.
    pub frame_duration_ms: u64,
    /// `true`: wrap back to `first_frame` after the last frame;
    /// `false`: hold on `last_frame` forever.
    pub looping: bool,
}

impl AnimationClip {
    /// A clip is well formed when its frame range is non-empty and each frame
    /// lasts a positive amount of time.
    pub open spec fn wf(self) -> bool {
        self.first_frame <= self.last_frame && self.frame_duration_ms >= 1
    }
}

/// Per-entity playback state: the clip being played (copied, not shared),
/// the time accumulated toward the next frame step, and the frame currently
/// shown.
#[derive(Clone, Copy, PartialEq, Eq, Structural, Debug)]
pub struct AnimationState {
    /// The clip currently playing.
    pub clip: AnimationClip,
    /// Time accumulated since the last frame step, in milliseconds.
    pub elapsed_ms: u64,
    /// The frame currently shown; always within the clip's frame range.
    pub frame: u64,
}

/// The mathematical model of advancing playback: with `elapsed` milliseconds
/// accumulated, repeatedly consume one frame duration and step the frame
/// forward. Stepping past the last frame either wraps to the first frame
/// (counting one completed loop) or, for a non-looping clip, clamps to the
/// last frame and stops consuming time. Returns the final frame, the time
/// left over, and the number of completed loops.
pub open spec fn advance(clip: AnimationClip, frame: int, elapsed: int) -> (int, int, int)
    decreases elapsed,
{
    if elapsed < clip.frame_duration_ms || clip.frame_duration_ms <= 0 {
        (frame, elapsed, 0)
    } else {
        let e = elapsed - clip.frame_duration_ms;
        if frame >= clip.last_frame {
            if clip.looping {
                let r = advance(clip, clip.first_frame as int, e);
                (r.0, r.1, r.2 + 1)
            } else {
                (clip.last_frame as int, e, 0)
            }
        } else {
            advance(clip, frame + 1, e)
        }
    }
}

impl AnimationState {
    /// The playback invariant: the clip is well formed and the current frame
    /// lies inside the clip's frame range.
    pub open spec fn wf(self) -> bool {
        &&& self.clip.wf()
        &&& self.clip.first_frame <= self.frame <= self.clip.last_frame
    }

    /// Fresh playback of `clip`, on its first frame with no time accumulated.
    pub fn start(clip: AnimationClip) -> (s: Self)
        requires
            clip.wf(),
        ensures
            s == (AnimationState { clip, elapsed_ms: 0, frame: clip.first_frame }),
            s.wf(),
    {
        AnimationState { clip, elapsed_ms: 0, frame: clip.first_frame }
    }

    /// What switching to `candidate` does to a playback state: clips are
    /// considered the same exactly when they share a first frame, and only a
    /// genuinely different clip restarts playback.
    pub open spec fn switched(self, candidate: AnimationClip) -> AnimationState {
        if candidate.first_frame == self.clip.first_frame {
            self
        } else {
            AnimationState { clip: candidate, elapsed_ms: 0, frame: candidate.first_frame }
        }
    }

    /// Advance playback by `delta_ms` milliseconds, stepping the frame as
    /// many times as the accumulated time covers (a large delta may span
    /// several frames), and return how many times the clip wrapped around.
    /// One wrap is counted per completed loop, not per frame stepped.
    pub fn tick(&mut self, delta_ms: u64) -> (wraps: u64)
        requires
            old(self).wf(),
            old(self).elapsed_ms + delta_ms <= u64::MAX,
        ensures
            final(self).wf(),
            final(self).clip == old(self).clip,
            ({
                let r = advance(
                    old(self).clip,
                    old(self).frame as int,
                    old(self).elapsed_ms + delta_ms,
                );
                &&& final(self).frame == r.0
                &&& final(self).elapsed_ms == r.1
                &&& wraps == r.2
            }),
    {
        let ghost clip = self.clip;
        let ghost frame0 = self.frame as int;
        let ghost total = self.elapsed_ms + delta_ms as int;
        self.elapsed_ms = self.elapsed_ms + delta_ms;
        let mut wraps: u64 = 0;
        loop
            invariant_except_break
                self.clip == clip,
                self.clip.wf(),
                self.clip.first_frame <= self.frame <= self.clip.last_frame,
                wraps + self.elapsed_ms <= total,
                total <= u64::MAX,
                advance(clip, frame0, total) == ({
                    let r = advance(clip, self.frame as int, self.elapsed_ms as int);
                    (r.0, r.1, wraps + r.2)
                }),
            ensures
                self.clip == clip,
                self.clip.first_frame <= self.frame <= self.clip.last_frame,
                advance(clip, frame0, total) == (
                    self.frame as int,
                    self.elapsed_ms as int,
                    wraps as int,
                ),
            decreases self.elapsed_ms,
        {
            if self.elapsed_ms < self.clip.frame_duration_ms {
                break;
            }
            self.elapsed_ms = self.elapsed_ms - self.clip.frame_duration_ms;
            if self.frame >= self.clip.last_frame {
                if self.clip.looping {
                    self.frame = self.clip.first_frame;
                    wraps = wraps + 1;
                } else {
                    self.frame = self.clip.last_frame;
                    break;
                }
            } else {
                self.frame = self.frame + 1;
            }
        }
        wraps
    }

    /// Switch to `candidate` only if it starts on a different frame than the
    /// clip already playing. Clips are identified by their first frame alone
    /// (tables must give every clip a distinct first frame), so repeating the
    /// same candidate every tick never resets playback progress.
    pub fn maybe_change_clip(&mut self, candidate: &AnimationClip)
        requires
            old(self).wf(),
            candidate.wf(),
        ensures
            *final(self) == old(self).switched(*candidate),
            final(self).wf(),
    {
        if self.clip.first_frame != candidate.first_frame {
            self.clip = *candidate;
            self.elapsed_ms = 0;
            self.frame = candidate.first_frame;
        }
    }
}

/// Total playing time of one full pass through a clip's frame range, in
/// milliseconds.
pub open spec fn cycle_ms(clip: AnimationClip) -> int {
    (clip.last_frame - clip.first_frame + 1) * clip.frame_duration_ms
}

/// However much time is consumed, the frame index never leaves the clip's
/// frame range: advancing from any in-range frame lands on an in-range
/// frame, with a nonnegative time leftover.
pub proof fn lemma_advance_frame_bounds(clip: AnimationClip, frame: int, elapsed: int)
    requires
        clip.wf(),
        clip.first_frame <= frame <= clip.last_frame,
        0 <= elapsed,
    ensures
        clip.first_frame <= advance(clip, frame, elapsed).0 <= clip.last_frame,
        0 <= advance(clip, frame, elapsed).1,
    decreases elapsed,
{
    if elapsed >= clip.frame_duration_ms {
        let e = elapsed - clip.frame_duration_ms;
        if frame >= clip.last_frame {
            if clip.looping {
                lemma_advance_frame_bounds(clip, clip.first_frame as int, e);
            }
        } else {
            lemma_advance_frame_bounds(clip, frame + 1, e);
        }
    }
}

/// The playback position reached after a whole run of ticks, each adding
/// its delta of time and advancing as far as the accumulated time carries.
pub open spec fn playback_after(clip: AnimationClip, frame: int, elapsed: int, deltas: Seq<int>) -> (
    int,
    int,
)
    decreases deltas.len(),
{
    if deltas.len() == 0 {
        (frame, elapsed)
    } else {
        let prev = playback_after(clip, frame, elapsed, deltas.drop_last());
        let r = advance(clip, prev.0, prev.1 + deltas.last());
        (r.0, r.1)
    }
}

/// However many ticks run, and whatever their deltas, the frame index
/// stays within the clip's frame range.
pub proof fn lemma_frame_bounds_after_any_ticks(
    clip: AnimationClip,
    frame: int,
    elapsed: int,
    deltas: Seq<int>,
)
    requires
        clip.wf(),
        clip.first_frame <= frame <= clip.last_frame,
        0 <= elapsed,
        forall|i: int| 0 <= i < deltas.len() ==> 0 <= #[trigger] deltas[i],
    ensures
        clip.first_frame <= playback_after(clip, frame, elapsed, deltas).0 <= clip.last_frame,
        0 <= playback_after(clip, frame, elapsed, deltas).1,
    decreases deltas.len(),
{
    if deltas.len() > 0 {
        lemma_frame_bounds_after_any_ticks(clip, frame, elapsed, deltas.drop_last());
        let prev = playback_after(clip, frame, elapsed, deltas.drop_last());
        assert(deltas[deltas.len() - 1] >= 0);
        lemma_advance_frame_bounds(clip, prev.0, prev.1 + deltas.last());
    }
}

/// One full pass through a looping clip: consuming the frames from `frame`
/// up to the last frame and wrapping takes `(last_frame - frame + 1)` frame
/// durations, lands back on the first frame, and counts exactly one more
/// completed loop than whatever the leftover time goes on to produce.
proof fn lemma_looping_one_cycle(clip: AnimationClip, frame: int, extra: int)
    requires
        clip.wf(),
        clip.looping,
        clip.first_frame <= frame <= clip.last_frame,
        0 <= extra,
    ensures
        advance(clip, frame, (clip.last_frame - frame + 1) * clip.frame_duration_ms + extra)
            == ({
            let r = advance(clip, clip.first_frame as int, extra);
            (r.0, r.1, r.2 + 1)
        }),
    decreases clip.last_frame - frame,
{
    let dur = clip.frame_duration_ms as int;
    let span = clip.last_frame - frame + 1;
    assert(span * dur >= dur) by (nonlinear_arith)
        requires
            span >= 1,
            dur >= 1,
    ;
    if frame == clip.last_frame {
        assert(span * dur == dur) by (nonlinear_arith)
            requires
                span == 1,
        ;
    } else {
        assert(span * dur - dur == (span - 1) * dur) by (nonlinear_arith);
        lemma_looping_one_cycle(clip, frame + 1, extra);
    }
}

/// Looping clip law: starting fresh on the first frame, advancing by exactly
/// `k` full cycles lands back on the first frame with no time left over and
/// exactly `k` completed loops counted.
pub proof fn lemma_looping_full_cycles(clip: AnimationClip, k: int)
    requires
        clip.wf(),
        clip.looping,
        0 <= k,
    ensures
        advance(clip, clip.first_frame as int, k * cycle_ms(clip))
            == (clip.first_frame as int, 0int, k),
    decreases k,
{
    let cycle = cycle_ms(clip);
    assert(cycle >= 1) by (nonlinear_arith)
        requires
            clip.last_frame - clip.first_frame + 1 >= 1,
            clip.frame_duration_ms >= 1,
            cycle == (clip.last_frame - clip.first_frame + 1) * clip.frame_duration_ms,
    ;
    if k == 0 {
        assert(0int * cycle == 0) by (nonlinear_arith);
    } else {
        let rest = (k - 1) * cycle;
        assert(rest >= 0) by (nonlinear_arith)
            requires
                k - 1 >= 0,
                cycle >= 1,
                rest == (k - 1) * cycle,
        ;
        assert(k * cycle == cycle + rest) by (nonlinear_arith)
            requires
                rest == (k - 1) * cycle,
        ;
        lemma_looping_one_cycle(clip, clip.first_frame as int, rest);
        lemma_looping_full_cycles(clip, k - 1);
    }
}

/// Non-looping clip law, first half: once enough time has been consumed to
/// step from `frame` to the last frame, the clip shows its last frame.
pub proof fn lemma_once_reaches_last(clip: AnimationClip, frame: int, elapsed: int)
    requires
        clip.wf(),
        !clip.looping,
        clip.first_frame <= frame <= clip.last_frame,
        elapsed >= (clip.last_frame - frame) * clip.frame_duration_ms,
    ensures
        advance(clip, frame, elapsed).0 == clip.last_frame,
    decreases clip.last_frame - frame,
{
    let dur = clip.frame_duration_ms as int;
    let steps = clip.last_frame - frame;
    if frame == clip.last_frame {
        // Whether or not a frame duration is consumed, a held clip stays on
        // its last frame.
    } else {
        assert(steps * dur >= dur) by (nonlinear_arith)
            requires
                steps >= 1,
                dur >= 1,
        ;
        assert(steps * dur - dur == (steps - 1) * dur) by (nonlinear_arith);
        lemma_once_reaches_last(clip, frame + 1, elapsed - dur);
    }
}

/// Non-looping clip law, second half: from the last frame, a non-looping
/// clip never changes frame again, no matter how much more time passes.
pub proof fn lemma_once_holds_last(clip: AnimationClip, elapsed: int)
    requires
        clip.wf(),
        !clip.looping,
        0 <= elapsed,
    ensures
        advance(clip, clip.last_frame as int, elapsed).0 == clip.last_frame,
        advance(clip, clip.last_frame as int, elapsed).2 == 0,
{
}

/// One animated entity: its id and its playback state.
#[derive(Clone, Copy, PartialEq, Eq, Debug)]
pub struct AnimatedEntity {
    /// Identity of the animated entity.
    pub id: u64,
    /// Its playback state.
    pub state: AnimationState,
}

/// A loop-completion notification: an entity's clip wrapped around, with
/// one completion counted per wrap, never per frame.
#[derive(Clone, Copy, PartialEq, Eq, Debug)]
pub struct LoopNotice {
    /// The entity whose clip wrapped.
    pub entity: u64,
    /// How many times it wrapped within the tick; at least one.
    pub wraps: u64,
}

/// How many times an entity's clip wraps when ticked by `delta_ms`.
pub open spec fn wraps_of(st: AnimationState, delta_ms: u64) -> int {
    advance(st.clip, st.frame as int, st.elapsed_ms + delta_ms).2
}

/// The notifications one tick of `delta_ms` produces over a roster of
/// animated entities, in roster order, one notice per entity that wrapped.
pub open spec fn notices_of(s: Seq<AnimatedEntity>, delta_ms: u64) -> Seq<LoopNotice>
    decreases s.len(),
{
    if s.len() == 0 {
        Seq::empty()
    } else {
        let w = wraps_of(s.last().state, delta_ms);
        notices_of(s.drop_last(), delta_ms) + if w > 0 {
            seq![LoopNotice { entity: s.last().id, wraps: w as u64 }]
        } else {
            Seq::empty()
        }
    }
}

/// Advance every animated entity by one tick and collect the
/// loop-completion notifications, tagged with the entities' ids.
pub fn animate_all(ents: &mut Vec<AnimatedEntity>, delta_ms: u64) -> (notices: Vec<LoopNotice>)
    requires
        forall|i: int|
            0 <= i < old(ents)@.len() ==> {
                &&& (#[trigger] old(ents)@[i]).state.wf()
                &&& old(ents)@[i].state.elapsed_ms + delta_ms <= u64::MAX
            },
    ensures
        final(ents)@.len() == old(ents)@.len(),
        forall|i: int|
            0 <= i < old(ents)@.len() ==> {
                let r = advance(
                    old(ents)@[i].state.clip,
                    old(ents)@[i].state.frame as int,
                    old(ents)@[i].state.elapsed_ms + delta_ms,
                );
                &&& (#[trigger] final(ents)@[i]).id == old(ents)@[i].id
                &&& final(ents)@[i].state.clip == old(ents)@[i].state.clip
                &&& final(ents)@[i].state.frame == r.0
                &&& final(ents)@[i].state.elapsed_ms == r.1
                &&& final(ents)@[i].state.wf()
            },
        notices@ == notices_of(old(ents)@, delta_ms),
{
    let ghost s0 = ents@;
    let n = ents.len();
    let mut out: Vec<AnimatedEntity> = Vec::new();
    let mut notices: Vec<LoopNotice> = Vec::new();
    let mut i: usize = 0;
    while i < n
        invariant
            n == s0.len(),
            i <= n,
            ents@ == s0,
            forall|k: int|
                0 <= k < n ==> {
                    &&& (#[trigger] s0[k]).state.wf()
                    &&& s0[k].state.elapsed_ms + delta_ms <= u64::MAX
                },
            out@.len() == i,
            forall|k: int|
                0 <= k < i ==> {
                    let r = advance(
                        s0[k].state.clip,
                        s0[k].state.frame as int,
                        s0[k].state.elapsed_ms + delta_ms,
                    );
                    &&& (#[trigger] out@[k]).id == s0[k].id
                    &&& out@[k].state.clip == s0[k].state.clip
                    &&& out@[k].state.frame == r.0
                    &&& out@[k].state.elapsed_ms == r.1
                    &&& out@[k].state.wf()
                },
            notices@ == notices_of(s0.subrange(0, i as int), delta_ms),
        decreases n - i,
    {
        let mut e = ents[i];
        let w = e.state.tick(delta_ms);
        out.push(e);
        if w > 0 {
            notices.push(LoopNotice { entity: e.id, wraps: w });
        }
        proof {
            let pre = s0.subrange(0, i as int);
            let cur = s0.subrange(0, i as int + 1);
            assert(cur.drop_last() =~= pre);
            assert(cur.last() == s0[i as int]);
            assert(notices@ =~= notices_of(cur, delta_ms));
        }
        i = i + 1;
    }
    proof {
        assert(s0.subrange(0, n as int) =~= s0);
    }
    *ents = out;
    notices
}

/// Two successive switches toward candidates that share a first frame reset
/// playback on the first switch only: the second switch is a no-op, whatever
/// the starting state was.
pub proof fn lemma_clip_switch_debounce(s: AnimationState, c1: AnimationClip, c2: AnimationClip)
    requires
        c1.first_frame == c2.first_frame,
    ensures
        s.switched(c1).switched(c2) == s.switched(c1),
{
}

} // verus!
