//! The entity store: an arena of entity data addressed by stable handles.
//!
//! A handle is the index of the slot that the entity was created in. Slots
//! are never reused, so a handle names one entity for as long as the store
//! lives. Removing an entity empties its slot.

use vstd::prelude::*;
use crate::components::{Body, Kind};
use crate::error::Error;

verus! {

/// The handle of an entity.
#[derive(Clone, Copy, Debug, PartialEq, Eq, Structural)]
pub struct Entity {
    pub index: usize,
}

/// The contents of a store: one slot per entity ever created, empty where
/// the entity was removed.
pub type Slots = Seq<Option<Body>>;

/// The handle names an entity that is alive.
pub open spec fn live(s: Slots, h: int) -> bool {
    0 <= h < s.len() && s[h] is Some
}

/// The handle names a live entity of this kind.
pub open spec fn has_kind(s: Slots, h: int, kind: Kind) -> bool {
    live(s, h) && s[h]->0.kind == kind
}

/// Some player is alive.
pub open spec fn has_player(s: Slots) -> bool {
    exists|h: int| has_kind(s, h, Kind::Player)
}

/// The handle of a live player, where there is one.
pub open spec fn player_handle(s: Slots) -> int {
    choose|h: int| has_kind(s, h, Kind::Player)
}

/// Every live entity is well formed and at most one player is alive.
pub open spec fn well_formed(s: Slots) -> bool {
    &&& forall|h: int| live(s, h) ==> (#[trigger] s[h])->0.wf()
    &&& forall|i: int, j: int|
        has_kind(s, i, Kind::Player) && has_kind(s, j, Kind::Player) ==> i == j
}

/// The contents after the entity with this handle is removed. A handle that
/// names no slot, or an empty one, changes nothing.
pub open spec fn removed(s: Slots, h: int) -> Slots {
    if 0 <= h < s.len() {
        s.update(h, None)
    } else {
        s
    }
}

/// The number of live entities of a kind.
pub open spec fn count_kind(s: Slots, kind: Kind) -> nat
    decreases s.len(),
{
    if s.len() == 0 {
        0
    } else {
        count_kind(s.drop_last(), kind) + if has_kind(s, s.len() - 1, kind) {
            1nat
        } else {
            0nat
        }
    }
}

/// `handles` lists the live entities of a kind: all of them, each once, in
/// the order of their creation.
pub open spec fn lists_kind(s: Slots, kind: Kind, handles: Seq<Entity>) -> bool {
    &&& forall|k: int| 0 <= k < handles.len() ==> has_kind(s, (#[trigger] handles[k]).index as int, kind)
    &&& forall|k1: int, k2: int|
        0 <= k1 < k2 < handles.len() ==> handles[k1].index < handles[k2].index
    &&& forall|h: int|
        has_kind(s, h, kind) ==> exists|k: int|
            0 <= k < handles.len() && (#[trigger] handles[k]).index == h
}

/// `handles` lists the live entities that a predicate accepts: all of
/// them, each once, in the order of their creation.
pub open spec fn lists_accepted<F: Fn(&Body) -> bool>(s: Slots, accept: F, handles: Seq<Entity>) -> bool {
    &&& forall|k: int|
        0 <= k < handles.len() ==> live(s, (#[trigger] handles[k]).index as int) && call_ensures(
            accept,
            (&s[handles[k].index as int]->0,),
            true,
        )
    &&& forall|k1: int, k2: int|
        0 <= k1 < k2 < handles.len() ==> handles[k1].index < handles[k2].index
    &&& forall|h: int|
        live(s, h) && !call_ensures(accept, (&s[h]->0,), false) ==> exists|k: int|
            0 <= k < handles.len() && (#[trigger] handles[k]).index == h
}

/// The entity store.
pub struct EntityStore {
    slots: Vec<Option<Body>>,
}

impl View for EntityStore {
    type V = Seq<Option<Body>>;

    closed spec fn view(&self) -> Seq<Option<Body>> {
        self.slots@
    }
}

impl EntityStore {
    /// The invariant of a store.
    pub open spec fn wf(&self) -> bool {
        well_formed(self@)
    }

    /// A store without entities.
    pub fn new() -> (store: EntityStore)
        ensures
            store@ == Seq::<Option<Body>>::empty(),
            store.wf(),
    {
        EntityStore { slots: Vec::new() }
    }

    /// The number of entities ever created in this store.
    pub fn len(&self) -> (n: usize)
        ensures
            n == self@.len(),
    {
        self.slots.len()
    }

    /// The data of an entity, where it is alive.
    pub fn get(&self, entity: Entity) -> (out: Option<Body>)
        ensures
            out == (if live(self@, entity.index as int) {
                self@[entity.index as int]
            } else {
                None
            }),
    {
        if entity.index < self.slots.len() {
            self.slots[entity.index]
        } else {
            None
        }
    }

    /// Whether an entity is alive.
    pub fn contains(&self, entity: Entity) -> (out: bool)
        ensures
            out == live(self@, entity.index as int),
    {
        self.get(entity).is_some()
    }

    /// The player, where one is alive.
    pub fn player(&self) -> (out: Option<Entity>)
        ensures
            out is Some <==> has_player(self@),
            out matches Some(e) ==> has_kind(self@, e.index as int, Kind::Player),
            self.wf() ==> (out matches Some(e) ==> e.index == player_handle(self@)),
    {
        let mut i: usize = 0;
        while i < self.slots.len()
            invariant
                i <= self.slots.len(),
                self@ == self.slots@,
                forall|j: int| 0 <= j < i ==> !has_kind(self@, j, Kind::Player),
            decreases self.slots.len() - i,
        {
            match self.slots[i] {
                Some(body) => {
                    if body.kind == Kind::Player {
                        assert(has_kind(self@, i as int, Kind::Player));
                        return Some(Entity { index: i });
                    }
                },
                None => {},
            }
            i += 1;
        }
        None
    }

    /// Adds an entity and returns its handle. A second player is refused
    /// while one is alive.
    pub fn create(&mut self, body: Body) -> (out: Result<Entity, Error>)
        requires
            old(self).wf(),
            body.wf(),
        ensures
            final(self).wf(),
            out is Err <==> (body.kind == Kind::Player && has_player(old(self)@)),
            out matches Err(e) ==> e == Error::PlayerExists && final(self)@ == old(self)@,
            out matches Ok(e) ==> e.index == old(self)@.len() && final(self)@ == old(self)@.push(
                Some(body),
            ),
    {
        if body.kind == Kind::Player && self.player().is_some() {
            return Err(Error::PlayerExists);
        }
        let index = self.slots.len();
        self.slots.push(Some(body));
        proof {
            let s0 = old(self)@;
            let s1 = self@;
            assert forall|i: int, j: int|
                has_kind(s1, i, Kind::Player) && has_kind(s1, j, Kind::Player) implies i == j by {
                if i < s0.len() {
                    assert(has_kind(s0, i, Kind::Player));
                }
                if j < s0.len() {
                    assert(has_kind(s0, j, Kind::Player));
                }
            }
        }
        Ok(Entity { index })
    }

    /// Removes an entity. Removing one that is not alive changes nothing.
    pub fn remove(&mut self, entity: Entity)
        ensures
            final(self)@ == removed(old(self)@, entity.index as int),
            !live(old(self)@, entity.index as int) ==> final(self)@ == old(self)@,
            old(self).wf() ==> final(self).wf(),
    {
        if entity.index < self.slots.len() {
            self.slots[entity.index] = None;
        }
        proof {
            let s0 = old(self)@;
            let s1 = self@;
            assert(s1 =~= removed(s0, entity.index as int));
            if !live(s0, entity.index as int) {
                assert(s1 =~= s0);
            }
            if well_formed(s0) {
                assert forall|i: int, j: int|
                    has_kind(s1, i, Kind::Player) && has_kind(s1, j, Kind::Player) implies i
                    == j by {
                    assert(has_kind(s0, i, Kind::Player));
                    assert(has_kind(s0, j, Kind::Player));
                }
            }
        }
    }

    /// The live entities of a kind, in the order of their creation.
    pub fn query(&self, kind: Kind) -> (out: Vec<Entity>)
        ensures
            lists_kind(self@, kind, out@),
            out@.len() == count_kind(self@, kind),
    {
        let mut out: Vec<Entity> = Vec::new();
        let mut i: usize = 0;
        while i < self.slots.len()
            invariant
                i <= self.slots.len(),
                self@ == self.slots@,
                lists_kind(self@.take(i as int), kind, out@),
                out@.len() == count_kind(self@.take(i as int), kind),
            decreases self.slots.len() - i,
        {
            let ghost before = self@.take(i as int);
            let ghost after = self@.take(i + 1);
            let ghost listed = out@;
            assert(after.drop_last() =~= before);
            let hit = match self.slots[i] {
                Some(body) => body.kind == kind,
                None => false,
            };
            assert(hit == has_kind(after, i as int, kind));
            if hit {
                out.push(Entity { index: i });
            }
            proof {
                assert forall|k: int| 0 <= k < out@.len() implies has_kind(
                    after,
                    (#[trigger] out@[k]).index as int,
                    kind,
                ) by {
                    if k < listed.len() {
                        assert(has_kind(before, listed[k].index as int, kind));
                    }
                }
                assert forall|k1: int, k2: int| 0 <= k1 < k2 < out@.len() implies out@[k1].index
                    < out@[k2].index by {
                    assert(has_kind(before, listed[k1].index as int, kind));
                }
                assert forall|h: int| has_kind(after, h, kind) implies exists|k: int|
                    0 <= k < out@.len() && (#[trigger] out@[k]).index == h by {
                    if h < i {
                        assert(has_kind(before, h, kind));
                        let k = choose|k: int|
                            0 <= k < listed.len() && (#[trigger] listed[k]).index == h;
                        assert(out@[k].index == h);
                    } else {
                        assert(out@[out@.len() - 1].index == h);
                    }
                }
            }
            i += 1;
        }
        assert(self@.take(i as int) =~= self@);
        out
    }

    /// The live entities whose data a predicate accepts, in the order of
    /// their creation. The list is a snapshot: what is removed later stays
    /// in it.
    pub fn select<F: Fn(&Body) -> bool>(&self, accept: F) -> (out: Vec<Entity>)
        requires
            forall|b: Body| call_requires(accept, (&b,)),
        ensures
            lists_accepted(self@, accept, out@),
    {
        let mut out: Vec<Entity> = Vec::new();
        let mut i: usize = 0;
        while i < self.slots.len()
            invariant
                i <= self.slots.len(),
                self@ == self.slots@,
                forall|b: Body| call_requires(accept, (&b,)),
                lists_accepted(self@.take(i as int), accept, out@),
            decreases self.slots.len() - i,
        {
            let ghost before = self@.take(i as int);
            let ghost after = self@.take(i + 1);
            let ghost listed = out@;
            let hit = match &self.slots[i] {
                Some(body) => accept(body),
                None => false,
            };
            if hit {
                out.push(Entity { index: i });
            }
            proof {
                assert forall|k: int| 0 <= k < out@.len() implies live(
                    after,
                    (#[trigger] out@[k]).index as int,
                ) && call_ensures(accept, (&after[out@[k].index as int]->0,), true) by {
                    if k < listed.len() {
                        assert(live(before, listed[k].index as int));
                    }
                }
                assert forall|k1: int, k2: int| 0 <= k1 < k2 < out@.len() implies out@[k1].index
                    < out@[k2].index by {
                    assert(live(before, listed[k1].index as int));
                }
                assert forall|h: int|
                    live(after, h) && !call_ensures(accept, (&after[h]->0,), false) implies exists|
                    k: int,
                | 0 <= k < out@.len() && (#[trigger] out@[k]).index == h by {
                    if h < i {
                        assert(live(before, h));
                        let k = choose|k: int|
                            0 <= k < listed.len() && (#[trigger] listed[k]).index == h;
                        assert(out@[k].index == h);
                    } else {
                        assert(out@[out@.len() - 1].index == h);
                    }
                }
            }
            i += 1;
        }
        assert(self@.take(i as int) =~= self@);
        out
    }

    /// The number of live entities of a kind.
    pub fn count(&self, kind: Kind) -> (n: usize)
        ensures
            n == count_kind(self@, kind),
    {
        self.query(kind).len()
    }

    /// The slot with this index.
    pub(crate) fn slot(&self, index: usize) -> (out: Option<Body>)
        requires
            index < self@.len(),
        ensures
            out == self@[index as int],
    {
        self.slots[index]
    }

    /// Replaces the data of a live entity by data of the same kind.
    pub(crate) fn put(&mut self, index: usize, body: Body)
        requires
            has_kind(old(self)@, index as int, body.kind),
        ensures
            final(self)@ == old(self)@.update(index as int, Some(body)),
            old(self).wf() && body.wf() ==> final(self).wf(),
    {
        self.slots[index] = Some(body);
        proof {
            let s0 = old(self)@;
            let s1 = self@;
            assert(s1 =~= s0.update(index as int, Some(body)));
            if well_formed(s0) && body.wf() {
                assert forall|i: int, j: int|
                    has_kind(s1, i, Kind::Player) && has_kind(s1, j, Kind::Player) implies i
                    == j by {
                    assert(has_kind(s0, i, Kind::Player));
                    assert(has_kind(s0, j, Kind::Player));
                }
            }
        }
    }
}

/// Removing an entity twice leaves what removing it once leaves.
pub proof fn lemma_remove_idempotent(s: Slots, h: int)
    ensures
        removed(removed(s, h), h) == removed(s, h),
        !live(s, h) ==> removed(s, h) == s,
{
    assert(removed(removed(s, h), h) =~= removed(s, h));
    assert(!live(s, h) ==> removed(s, h) =~= s);
}

/// A store holds at most one player.
pub proof fn lemma_at_most_one_player(s: Slots)
    requires
        well_formed(s),
    ensures
        count_kind(s, Kind::Player) <= 1,
        has_player(s) <==> count_kind(s, Kind::Player) == 1,
    decreases s.len(),
{
    if s.len() > 0 {
        let t = s.drop_last();
        assert forall|h: int| live(t, h) implies (#[trigger] t[h])->0.wf() by {
            assert(live(s, h));
        }
        assert forall|i: int, j: int|
            has_kind(t, i, Kind::Player) && has_kind(t, j, Kind::Player) implies i == j by {
            assert(has_kind(s, i, Kind::Player) && has_kind(s, j, Kind::Player));
        }
        lemma_at_most_one_player(t);
        if has_kind(s, s.len() - 1, Kind::Player) {
            if has_player(t) {
                let h = choose|h: int| has_kind(t, h, Kind::Player);
                assert(has_kind(s, h, Kind::Player));
            }
        } else {
            if has_player(s) {
                let h = choose|h: int| has_kind(s, h, Kind::Player);
                assert(has_kind(t, h, Kind::Player));
            }
            if has_player(t) {
                let h = choose|h: int| has_kind(t, h, Kind::Player);
                assert(has_kind(s, h, Kind::Player));
            }
        }
    } else {
        if has_player(s) {
            let h = choose|h: int| has_kind(s, h, Kind::Player);
        }
    }
}

} // verus!
