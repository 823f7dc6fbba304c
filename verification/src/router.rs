//! Routing of physics contact events to gameplay consequences. Each event
//! names two participants; the one carrying the ball role picks the branch,
//! and the other participant's tags decide what happens: rocks shatter,
//! lethal walls destroy the ball, and hits trigger sounds. Destruction is
//! collected over the whole batch and applied at the end, so an id destroyed
//! mid-batch is never dereferenced.

use vstd::prelude::*;

use crate::arena::Arena;
use crate::arena::Entity;
use crate::arena::Role;
use crate::arena::distinct_ids;
use crate::arena::doomed;
use crate::arena::entity_of;
use crate::arena::has_id;
use crate::arena::index_of;
use crate::arena::role_of;
use crate::arena::sensor_target_of;
use crate::arena::surviving;
use crate::arena::lemma_surviving_empty_marks;
use crate::arena::lemma_surviving_keeps;
use crate::arena::lemma_surviving_removes_marked;
use crate::effects::Sound;
use crate::rng::Randomizer;

verus! {

/// A physics-engine notification that two entities began or ceased
/// overlapping, carrying the two participant ids.
#[derive(Clone, Copy, PartialEq, Eq, Debug)]
pub struct ContactEvent {
    /// One participant.
    pub a: u64,
    /// The other participant.
    pub b: u64,
}

/// The ball participating in a contact, if any: events without a ball are
/// ignored.
pub open spec fn event_ball(s: Seq<Entity>, e: ContactEvent) -> Option<u64> {
    if role_of(s, e.a) == Some(Role::Ball) {
        Some(e.a)
    } else if role_of(s, e.b) == Some(Role::Ball) {
        Some(e.b)
    } else {
        None
    }
}

/// The participant on the other side of the contact from the ball.
pub open spec fn event_other(e: ContactEvent, ball: u64) -> u64 {
    if ball == e.a {
        e.b
    } else {
        e.a
    }
}

/// The ids one contact event marks for destruction, in dispatch order: the
/// target of a rock hit sensor first, then the ball itself when the other
/// side is a lethal wall. An event without a ball, or whose other side is
/// already gone, destroys nothing.
pub open spec fn event_destroys(s: Seq<Entity>, e: ContactEvent) -> Seq<u64> {
    match event_ball(s, e) {
        None => Seq::empty(),
        Some(ball) => {
            let other = event_other(e, ball);
            let from_sensor: Seq<u64> = match sensor_target_of(s, other) {
                Some(target) => seq![target],
                None => Seq::empty(),
            };
            let from_wall: Seq<u64> = match role_of(s, other) {
                Some(Role::Wall { lethal }) => if lethal {
                    seq![ball]
                } else {
                    Seq::empty()
                },
                _ => Seq::empty(),
            };
            from_sensor + from_wall
        },
    }
}

/// The sounds one contact event triggers, in dispatch order; `coin` picks
/// between the two player-hit variants. Each applicable branch fires exactly
/// once per event.
pub open spec fn event_sounds(s: Seq<Entity>, e: ContactEvent, coin: bool) -> Seq<Sound> {
    match event_ball(s, e) {
        None => Seq::empty(),
        Some(ball) => {
            let other = event_other(e, ball);
            let from_sensor: Seq<Sound> = match sensor_target_of(s, other) {
                Some(_) => seq![Sound::RockBreak],
                None => Seq::empty(),
            };
            let from_wall: Seq<Sound> = match role_of(s, other) {
                Some(Role::Wall { lethal }) => if lethal {
                    Seq::empty()
                } else {
                    seq![Sound::WallBounce]
                },
                _ => Seq::empty(),
            };
            let from_player: Seq<Sound> = if role_of(s, other) == Some(Role::Player) {
                if coin {
                    seq![Sound::BallHitA]
                } else {
                    seq![Sound::BallHitB]
                }
            } else {
                Seq::empty()
            };
            let from_paddle: Seq<Sound> = if role_of(s, other) == Some(Role::Paddle) {
                seq![Sound::PaddleHit]
            } else {
                Seq::empty()
            };
            from_sensor + from_wall + from_player + from_paddle
        },
    }
}

/// All ids a batch of events marks for destruction, against the arena as it
/// stood when the batch began.
pub open spec fn batch_destroys(s: Seq<Entity>, events: Seq<ContactEvent>) -> Seq<u64>
    decreases events.len(),
{
    if events.len() == 0 {
        Seq::empty()
    } else {
        batch_destroys(s, events.drop_last()) + event_destroys(s, events.last())
    }
}

/// All sounds a batch of events triggers, one coin draw per event.
pub open spec fn batch_sounds(s: Seq<Entity>, events: Seq<ContactEvent>, coins: Seq<bool>) -> Seq<
    Sound,
>
    decreases events.len(),
{
    if events.len() == 0 {
        Seq::empty()
    } else {
        batch_sounds(s, events.drop_last(), coins.drop_last()) + event_sounds(
            s,
            events.last(),
            if coins.len() >= 1 {
                coins.last()
            } else {
                false
            },
        )
    }
}

/// What one routed event asks for: ids to destroy and sounds to start.
pub struct EventOutcome {
    /// Ids marked for destruction, in dispatch order.
    pub destroys: Vec<u64>,
    /// Sounds triggered, in dispatch order.
    pub sounds: Vec<Sound>,
}

/// Route one contact event against the current arena, deciding its
/// consequences without touching the arena; `coin` picks the player-hit
/// sound variant.
pub fn route_event(arena: &Arena, e: &ContactEvent, coin: bool) -> (out: EventOutcome)
    requires
        arena.wf(),
    ensures
        out.destroys@ == event_destroys(arena@, *e),
        out.sounds@ == event_sounds(arena@, *e, coin),
{
    let mut destroys: Vec<u64> = Vec::new();
    let mut sounds: Vec<Sound> = Vec::new();

    let a_is_ball = match arena.lookup(e.a) {
        Some(ent) => matches!(ent.role, Some(Role::Ball)),
        None => false,
    };
    let b_is_ball = match arena.lookup(e.b) {
        Some(ent) => matches!(ent.role, Some(Role::Ball)),
        None => false,
    };
    let ball_opt: Option<u64> = if a_is_ball {
        Some(e.a)
    } else if b_is_ball {
        Some(e.b)
    } else {
        None
    };
    proof {
        assert(ball_opt == event_ball(arena@, *e));
    }
    if let Some(ball) = ball_opt {
        let other = if ball == e.a {
            e.b
        } else {
            e.a
        };
        if let Some(oent) = arena.lookup(other) {
            if let Some(target) = oent.rock_sensor {
                destroys.push(target);
                sounds.push(Sound::RockBreak);
            }
            match oent.role {
                Some(Role::Wall { lethal }) => {
                    if lethal {
                        destroys.push(ball);
                    } else {
                        sounds.push(Sound::WallBounce);
                    }
                },
                _ => {},
            }
            if matches!(oent.role, Some(Role::Player)) {
                if coin {
                    sounds.push(Sound::BallHitA);
                } else {
                    sounds.push(Sound::BallHitB);
                }
            }
            if matches!(oent.role, Some(Role::Paddle)) {
                sounds.push(Sound::PaddleHit);
            }
        }
        proof {
            assert(destroys@ =~= event_destroys(arena@, *e));
            assert(sounds@ =~= event_sounds(arena@, *e, coin));
        }
    }
    EventOutcome { destroys, sounds }
}

/// Drain one batch of contact events: decide every event against the arena
/// as it stood at the start of the batch, then apply all destructions at
/// once. Returns the sounds to start; which player-hit variant plays is
/// drawn fresh per event, so the sound list is pinned up to those draws.
pub fn route_batch(arena: &mut Arena, events: &Vec<ContactEvent>, rng: &mut Randomizer) -> (sounds:
    Vec<Sound>)
    requires
        old(arena).wf(),
    ensures
        final(arena).wf(),
        final(arena)@ == surviving(old(arena)@, batch_destroys(old(arena)@, events@)),
        exists|coins: Seq<bool>|
            coins.len() == events@.len() && sounds@ == batch_sounds(old(arena)@, events@, coins),
{
    let ghost s0 = arena@;
    let mut destroys: Vec<u64> = Vec::new();
    let mut sounds: Vec<Sound> = Vec::new();
    let ghost mut coins: Seq<bool> = Seq::empty();
    let n = events.len();
    let mut i: usize = 0;
    while i < n
        invariant
            n == events@.len(),
            i <= n,
            arena@ == s0,
            arena.wf(),
            coins.len() == i,
            destroys@ == batch_destroys(s0, events@.subrange(0, i as int)),
            sounds@ == batch_sounds(s0, events@.subrange(0, i as int), coins),
        decreases n - i,
    {
        let ghost coins_pre = coins;
        let coin = rng.coin();
        proof {
            coins = coins.push(coin);
        }
        let mut out = route_event(arena, &events[i], coin);
        proof {
            let pre = events@.subrange(0, i as int);
            let cur = events@.subrange(0, i as int + 1);
            assert(cur.drop_last() =~= pre);
            assert(cur.last() == events@[i as int]);
            assert(coins.drop_last() =~= coins_pre);
            assert(coins.last() == coin);
        }
        destroys.append(&mut out.destroys);
        sounds.append(&mut out.sounds);
        i = i + 1;
    }
    proof {
        assert(events@.subrange(0, n as int) =~= events@);
    }
    arena.apply_removals(&destroys);
    sounds
}

/// A contact between a ball and a rock hit sensor naming target `t` marks
/// exactly `t` for destruction and triggers exactly one rock-break sound;
/// after the batch is applied, `t` is gone and the ball is still there,
/// whichever way the sound coin fell.
pub proof fn lemma_rock_sensor_contact(
    s: Seq<Entity>,
    e: ContactEvent,
    ball: u64,
    target: u64,
    coin: bool,
)
    requires
        distinct_ids(s),
        event_ball(s, e) == Some(ball),
        sensor_target_of(s, event_other(e, ball)) == Some(target),
        role_of(s, event_other(e, ball)) == None::<Role>,
        target != ball,
        entity_of(s, ball).parent == None::<u64>,
    ensures
        event_destroys(s, e) =~= seq![target],
        event_sounds(s, e, coin) =~= seq![Sound::RockBreak],
        !has_id(surviving(s, event_destroys(s, e)), target),
        has_id(surviving(s, event_destroys(s, e)), ball),
{
    assert(event_destroys(s, e) =~= seq![target]);
    assert(event_destroys(s, e).contains(target)) by {
        assert(event_destroys(s, e)[0] == target);
    }
    lemma_surviving_removes_marked(s, event_destroys(s, e), target);
    let marks = event_destroys(s, e);
    assert(has_id(s, ball));
    let i = index_of(s, ball);
    assert forall|m: u64| marks.contains(m) implies m == target by {
        let k = choose|k: int| 0 <= k < marks.len() && marks[k] == m;
        assert(marks[k] == target);
    }
    assert(!doomed(s[i], marks));
    lemma_surviving_keeps(s, marks, i);
    let sv = surviving(s, marks);
    let j = choose|j: int| 0 <= j < sv.len() && sv[j] == s[i];
    assert(sv[j].id == ball);
}

/// A contact between a ball and a lethal wall marks exactly the ball for
/// destruction and triggers no sound; after the batch is applied, the ball
/// is gone.
pub proof fn lemma_lethal_wall_contact(s: Seq<Entity>, e: ContactEvent, ball: u64, coin: bool)
    requires
        distinct_ids(s),
        event_ball(s, e) == Some(ball),
        role_of(s, event_other(e, ball)) == Some(Role::Wall { lethal: true }),
        sensor_target_of(s, event_other(e, ball)) == None::<u64>,
    ensures
        event_destroys(s, e) =~= seq![ball],
        event_sounds(s, e, coin) =~= Seq::<Sound>::empty(),
        !has_id(surviving(s, event_destroys(s, e)), ball),
{
    assert(event_destroys(s, e) =~= seq![ball]);
    assert(event_destroys(s, e).contains(ball)) by {
        assert(event_destroys(s, e)[0] == ball);
    }
    lemma_surviving_removes_marked(s, event_destroys(s, e), ball);
}

/// A contact between a ball and a non-lethal wall destroys nothing —
/// the ball, in particular, is still there afterward — and triggers exactly
/// one wall-bounce sound.
pub proof fn lemma_bouncy_wall_contact(s: Seq<Entity>, e: ContactEvent, ball: u64, coin: bool)
    requires
        distinct_ids(s),
        event_ball(s, e) == Some(ball),
        role_of(s, event_other(e, ball)) == Some(Role::Wall { lethal: false }),
        sensor_target_of(s, event_other(e, ball)) == None::<u64>,
    ensures
        event_destroys(s, e) =~= Seq::<u64>::empty(),
        event_sounds(s, e, coin) =~= seq![Sound::WallBounce],
        surviving(s, event_destroys(s, e)) == s,
        has_id(surviving(s, event_destroys(s, e)), ball),
{
    lemma_surviving_empty_marks(s, event_destroys(s, e));
    assert(has_id(s, ball));
}

} // verus!
