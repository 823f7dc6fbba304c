//! Registry of live entities and their role tags. Roles drive collision
//! dispatch; destruction is deferred, applied as one batch so that stale ids
//! inside a batch are looked up defensively rather than dereferenced.

use vstd::prelude::*;

verus! {

/// The gameplay category of an entity. An entity carries at most one role;
/// roles are fixed at spawn time.
#[derive(Clone, Copy, PartialEq, Eq, Debug)]
pub enum Role {
    /// A bouncing projectile.
    Ball,
    /// A destructible obstacle.
    Rock,
    /// An arena boundary; a lethal wall destroys balls that touch it.
    Wall { lethal: bool },
    /// The player-controlled character.
    Player,
    /// The machine-controlled paddle.
    Paddle,
}

/// One registered entity: its id, an optional parent (children are removed
/// together with their parent), an optional gameplay role, and an optional
/// hit-sensor sub-tag naming the entity this sensor reports contacts for.
#[derive(Clone, Copy, PartialEq, Eq, Debug)]
pub struct Entity {
    /// Identity, unique within one arena.
    pub id: u64,
    /// The entity this one is attached to, if any.
    pub parent: Option<u64>,
    /// Gameplay category, if any.
    pub role: Option<Role>,
    /// If set, this entity is a hit sensor whose contacts stand for the
    /// named target entity.
    pub rock_sensor: Option<u64>,
}

/// No two entities of the sequence share an id.
pub open spec fn distinct_ids(s: Seq<Entity>) -> bool {
    forall|i: int, j: int| 0 <= i < j < s.len() ==> s[i].id != s[j].id
}

/// Some entity of the sequence carries this id.
pub open spec fn has_id(s: Seq<Entity>, id: u64) -> bool {
    exists|i: int| 0 <= i < s.len() && s[i].id == id
}

/// The position of the entity carrying `id`; meaningful when `has_id` holds
/// and ids are distinct.
pub open spec fn index_of(s: Seq<Entity>, id: u64) -> int {
    choose|i: int| 0 <= i < s.len() && s[i].id == id
}

/// The entity carrying `id`; meaningful when `has_id` holds.
pub open spec fn entity_of(s: Seq<Entity>, id: u64) -> Entity {
    s[index_of(s, id)]
}

/// The role of the entity carrying `id`, or `None` when no such entity is
/// registered: a lookup of an id that is gone is answered, not an error.
pub open spec fn role_of(s: Seq<Entity>, id: u64) -> Option<Role> {
    if has_id(s, id) {
        entity_of(s, id).role
    } else {
        None
    }
}

/// The target named by the hit sensor carrying `id`, or `None` when the
/// entity is gone or is no sensor.
pub open spec fn sensor_target_of(s: Seq<Entity>, id: u64) -> Option<u64> {
    if has_id(s, id) {
        entity_of(s, id).rock_sensor
    } else {
        None
    }
}

/// Whether a removal batch takes this entity out: either it is marked
/// itself, or its parent is, so that a parent and its attachments go as one
/// unit.
pub open spec fn doomed(ent: Entity, marks: Seq<u64>) -> bool {
    ||| marks.contains(ent.id)
    ||| match ent.parent {
        Some(p) => marks.contains(p),
        None => false,
    }
}

/// The entities left after one removal batch, in their original order.
pub open spec fn surviving(s: Seq<Entity>, marks: Seq<u64>) -> Seq<Entity>
    decreases s.len(),
{
    if s.len() == 0 {
        Seq::empty()
    } else {
        let rest = surviving(s.drop_last(), marks);
        if doomed(s.last(), marks) {
            rest
        } else {
            rest.push(s.last())
        }
    }
}

/// Every id found among the survivors was already there before the batch.
pub proof fn lemma_surviving_has_id(s: Seq<Entity>, marks: Seq<u64>, id: u64)
    ensures
        has_id(surviving(s, marks), id) ==> has_id(s, id),
    decreases s.len(),
{
    if s.len() > 0 {
        lemma_surviving_has_id(s.drop_last(), marks, id);
        if has_id(surviving(s, marks), id) {
            let sv = surviving(s, marks);
            let i = choose|i: int| 0 <= i < sv.len() && sv[i].id == id;
            let rest = surviving(s.drop_last(), marks);
            if i < rest.len() {
                assert(has_id(rest, id));
                let j = index_of(s.drop_last(), id);
                assert(s[j] == s.drop_last()[j]);
            } else {
                assert(sv[i] == s.last());
                assert(s[s.len() - 1].id == id);
            }
        }
    }
}

/// A marked id is gone after the batch.
pub proof fn lemma_surviving_removes_marked(s: Seq<Entity>, marks: Seq<u64>, id: u64)
    requires
        marks.contains(id),
    ensures
        !has_id(surviving(s, marks), id),
    decreases s.len(),
{
    if s.len() > 0 {
        lemma_surviving_removes_marked(s.drop_last(), marks, id);
        let sv = surviving(s, marks);
        let rest = surviving(s.drop_last(), marks);
        if has_id(sv, id) {
            let i = choose|i: int| 0 <= i < sv.len() && sv[i].id == id;
            if !doomed(s.last(), marks) && i == sv.len() - 1 {
                assert(s.last().id == id);
                assert(doomed(s.last(), marks));
            } else {
                assert(0 <= i < rest.len() && rest[i].id == id);
                assert(has_id(rest, id));
            }
        }
    }
}

/// An unmarked entity whose parent is unmarked survives the batch.
pub proof fn lemma_surviving_keeps(s: Seq<Entity>, marks: Seq<u64>, i: int)
    requires
        0 <= i < s.len(),
        !doomed(s[i], marks),
    ensures
        surviving(s, marks).contains(s[i]),
    decreases s.len(),
{
    if i == s.len() - 1 {
        let sv = surviving(s, marks);
        assert(sv.last() == s[i]);
    } else {
        lemma_surviving_keeps(s.drop_last(), marks, i);
        let rest = surviving(s.drop_last(), marks);
        assert(s.drop_last()[i] == s[i]);
        let j = choose|j: int| 0 <= j < rest.len() && rest[j] == s[i];
        if !doomed(s.last(), marks) {
            assert(surviving(s, marks)[j] == s[i]);
        }
    }
}

/// With nothing marked, the batch removes nothing.
pub proof fn lemma_surviving_empty_marks(s: Seq<Entity>, marks: Seq<u64>)
    requires
        marks.len() == 0,
    ensures
        surviving(s, marks) == s,
    decreases s.len(),
{
    if s.len() > 0 {
        lemma_surviving_empty_marks(s.drop_last(), marks);
        assert(surviving(s, marks) =~= s);
    }
}

/// Removal keeps ids distinct: the survivors are a subsequence.
pub proof fn lemma_surviving_distinct(s: Seq<Entity>, marks: Seq<u64>)
    requires
        distinct_ids(s),
    ensures
        distinct_ids(surviving(s, marks)),
    decreases s.len(),
{
    if s.len() > 0 {
        assert(distinct_ids(s.drop_last())) by {
            assert(forall|i: int, j: int|
                0 <= i < j < s.drop_last().len() ==> s.drop_last()[i] == s[i]
                    && s.drop_last()[j] == s[j]);
        }
        lemma_surviving_distinct(s.drop_last(), marks);
        let rest = surviving(s.drop_last(), marks);
        if !doomed(s.last(), marks) {
            let sv = rest.push(s.last());
            assert forall|i: int, j: int| 0 <= i < j < sv.len() implies sv[i].id != sv[j].id by {
                if j == sv.len() - 1 {
                    if rest[i].id == s.last().id {
                        assert(has_id(rest, s.last().id));
                        lemma_surviving_has_id(s.drop_last(), marks, s.last().id);
                        let k = index_of(s.drop_last(), s.last().id);
                        assert(s[k].id == s[s.len() - 1].id);
                    }
                }
            }
        }
    }
}

/// The live entities of one simulation, looked up by id.
pub struct Arena {
    entities: Vec<Entity>,
}

impl View for Arena {
    type V = Seq<Entity>;

    closed spec fn view(&self) -> Seq<Entity> {
        self.entities@
    }
}

impl Arena {
    /// The registry invariant: every id names at most one entity.
    pub open spec fn wf(self) -> bool {
        distinct_ids(self@)
    }

    /// An empty arena.
    pub fn new() -> (a: Self)
        ensures
            a@ == Seq::<Entity>::empty(),
            a.wf(),
    {
        Arena { entities: Vec::new() }
    }

    /// How many entities are live.
    pub fn len(&self) -> (n: usize)
        ensures
            n == self@.len(),
    {
        self.entities.len()
    }

    /// The entity at a position, for walking the registry.
    pub fn at(&self, i: usize) -> (ent: Entity)
        requires
            i < self@.len(),
        ensures
            ent == self@[i as int],
    {
        self.entities[i]
    }

    /// Look an id up; an id that is not registered answers `None` rather
    /// than failing, so stale references are skipped, not dereferenced.
    pub fn lookup(&self, id: u64) -> (r: Option<Entity>)
        requires
            self.wf(),
        ensures
            match r {
                Some(ent) => has_id(self@, id) && ent == entity_of(self@, id),
                None => !has_id(self@, id),
            },
    {
        let ghost s = self@;
        let n = self.entities.len();
        let mut i: usize = 0;
        while i < n
            invariant
                n == s.len(),
                i <= n,
                s == self@,
                distinct_ids(s),
                forall|j: int| 0 <= j < i ==> s[j].id != id,
            decreases n - i,
        {
            if self.entities[i].id == id {
                proof {
                    assert(has_id(s, id));
                    let j = index_of(s, id);
                    if j < i as int {
                        assert(s[j].id != s[i as int].id);
                    } else if j > i as int {
                        assert(s[i as int].id != s[j].id);
                    }
                }
                return Some(self.entities[i]);
            }
            i = i + 1;
        }
        proof {
            if has_id(s, id) {
                let j = index_of(s, id);
                assert(s[j].id != id);
            }
        }
        None
    }

    /// Whether an entity with this id is live.
    pub fn contains_id(&self, id: u64) -> (r: bool)
        requires
            self.wf(),
        ensures
            r == has_id(self@, id),
    {
        match self.lookup(id) {
            Some(_) => true,
            None => false,
        }
    }

    /// Register a new entity. A clashing id is refused, which keeps ids
    /// unique; the caller learns whether the spawn took.
    pub fn spawn(&mut self, ent: Entity) -> (ok: bool)
        requires
            old(self).wf(),
        ensures
            final(self).wf(),
            ok == !has_id(old(self)@, ent.id),
            final(self)@ == if ok {
                old(self)@.push(ent)
            } else {
                old(self)@
            },
    {
        if self.contains_id(ent.id) {
            false
        } else {
            let ghost s = self@;
            self.entities.push(ent);
            proof {
                assert forall|i: int, j: int| 0 <= i < j < self@.len() implies self@[i].id
                    != self@[j].id by {
                    if j == self@.len() - 1 {
                        assert(has_id(s, self@[j].id) ==> false);
                    }
                }
            }
            true
        }
    }

    /// Apply one removal batch: every marked entity, and every entity whose
    /// parent is marked, is taken out at once; the rest keep their order.
    pub fn apply_removals(&mut self, marks: &Vec<u64>)
        requires
            old(self).wf(),
        ensures
            final(self)@ == surviving(old(self)@, marks@),
            final(self).wf(),
    {
        let ghost s = self@;
        let n = self.entities.len();
        let mut kept: Vec<Entity> = Vec::new();
        let mut i: usize = 0;
        while i < n
            invariant
                n == s.len(),
                i <= n,
                s == self@,
                kept@ == surviving(s.subrange(0, i as int), marks@),
            decreases n - i,
        {
            let ent = self.entities[i];
            let keep = !is_doomed(&ent, marks);
            proof {
                let pre = s.subrange(0, i as int);
                let cur = s.subrange(0, i as int + 1);
                assert(cur.drop_last() =~= pre);
                assert(cur.last() == s[i as int]);
            }
            if keep {
                kept.push(ent);
            }
            i = i + 1;
        }
        proof {
            assert(s.subrange(0, n as int) =~= s);
            lemma_surviving_distinct(s, marks@);
        }
        self.entities = kept;
    }
}

/// Whether the removal batch `marks` takes this entity out.
fn is_doomed(ent: &Entity, marks: &Vec<u64>) -> (r: bool)
    ensures
        r == doomed(*ent, marks@),
{
    if marks_contain(marks, ent.id) {
        return true;
    }
    match ent.parent {
        Some(p) => marks_contain(marks, p),
        None => false,
    }
}

/// Linear membership scan over a removal batch.
fn marks_contain(marks: &Vec<u64>, id: u64) -> (r: bool)
    ensures
        r == marks@.contains(id),
{
    let n = marks.len();
    let mut i: usize = 0;
    while i < n
        invariant
            n == marks@.len(),
            i <= n,
            forall|j: int| 0 <= j < i ==> marks@[j] != id,
        decreases n - i,
    {
        if marks[i] == id {
            return true;
        }
        i = i + 1;
    }
    false
}

} // verus!
