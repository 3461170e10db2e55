//! An arena of entities addressed by generation-checked handles.
//!
//! A handle names a slot and the generation of the entity placed there. A
//! removed entity's slot can be reused under a higher generation, so a
//! handle to something already removed never reaches its successor.

use vstd::prelude::*;
use crate::targeting::EntityId;

verus! {

/// One place in the arena.
pub struct Slot<T> {
    pub generation: u64,
    pub value: Option<T>,
}

/// How many slots of `s` hold an entity.
pub open spec fn occupied<T>(s: Seq<Slot<T>>) -> nat
    decreases s.len(),
{
    if s.len() == 0 {
        0
    } else {
        occupied(s.drop_last()) + if s.last().value is Some {
            1nat
        } else {
            0
        }
    }
}

proof fn lemma_occupied_update<T>(s: Seq<Slot<T>>, i: int, x: Slot<T>)
    requires
        0 <= i < s.len(),
    ensures
        occupied(s.update(i, x)) + (if s[i].value is Some {
            1int
        } else {
            0
        }) == occupied(s) + (if x.value is Some {
            1int
        } else {
            0
        }),
    decreases s.len(),
{
    let u = s.update(i, x);
    if i == s.len() - 1 {
        assert(u.drop_last() =~= s.drop_last());
    } else {
        lemma_occupied_update(s.drop_last(), i, x);
        assert(u.drop_last() =~= s.drop_last().update(i, x));
    }
}

/// Entities of type `T` under generation-checked handles.
pub struct Registry<T> {
    slots: Vec<Slot<T>>,
}

impl<T: Copy> Registry<T> {
    /// `id` names a live entity.
    pub closed spec fn live(&self, id: EntityId) -> bool {
        &&& id.index < self.slots.len()
        &&& self.slots@[id.index as int].generation == id.generation
        &&& self.slots@[id.index as int].value is Some
    }

    /// The live entities by handle.
    pub closed spec fn entities(&self) -> Map<EntityId, T> {
        Map::new(
            |id: EntityId| self.live(id),
            |id: EntityId| self.slots@[id.index as int].value->Some_0,
        )
    }

    /// How many slots have ever been used.
    pub closed spec fn slots_used(&self) -> nat {
        self.slots.len() as nat
    }

    /// How many entities are live.
    pub closed spec fn count(&self) -> nat {
        occupied(self.slots@)
    }

    /// An empty arena.
    pub fn new() -> (r: Self)
        ensures
            r.entities() == Map::<EntityId, T>::empty(),
            r.count() == 0,
    {
        let r = Registry { slots: Vec::new() };
        assert(r.entities() =~= Map::<EntityId, T>::empty());
        r
    }

    /// How many entities are live.
    pub fn len(&self) -> (r: usize)
        ensures
            r == self.count(),
    {
        let mut n: usize = 0;
        let mut i: usize = 0;
        while i < self.slots.len()
            invariant
                i <= self.slots.len(),
                n == occupied(self.slots@.subrange(0, i as int)),
                n <= i,
            decreases self.slots.len() - i,
        {
            assert(self.slots@.subrange(0, i + 1).drop_last() =~= self.slots@.subrange(
                0,
                i as int,
            ));
            if self.slots[i].value.is_some() {
                n = n + 1;
            }
            i = i + 1;
        }
        assert(self.slots@.subrange(0, self.slots.len() as int) =~= self.slots@);
        n
    }

    /// The entity under `id`, if it is live.
    pub fn get(&self, id: EntityId) -> (r: Option<T>)
        ensures
            r == (if self.entities().contains_key(id) {
                Some(self.entities()[id])
            } else {
                None
            }),
    {
        if id.index < self.slots.len() as u64 {
            let slot = &self.slots[id.index as usize];
            if slot.generation == id.generation {
                return slot.value;
            }
        }
        None
    }

    /// Replaces the live entity under `id`.
    pub fn set(&mut self, id: EntityId, value: T)
        requires
            old(self).entities().contains_key(id),
        ensures
            final(self).entities() == old(self).entities().insert(id, value),
            final(self).count() == old(self).count(),
    {
        let i = id.index as usize;
        let ghost s0 = self.slots@;
        let slot = Slot { generation: id.generation, value: Some(value) };
        self.slots.set(i, slot);
        proof {
            lemma_occupied_update(s0, i as int, slot);
        }
        assert(self.entities() =~= old(self).entities().insert(id, value));
    }

    /// Removes the entity under `id` and returns it, if it is live.
    pub fn remove(&mut self, id: EntityId) -> (r: Option<T>)
        ensures
            old(self).entities().contains_key(id) ==> r == Some(old(self).entities()[id])
                && final(self).entities() == old(self).entities().remove(id) && final(self).count()
                == old(self).count() - 1,
            !old(self).entities().contains_key(id) ==> r == None::<T> && final(self).entities()
                == old(self).entities() && final(self).count() == old(self).count(),
    {
        if id.index < self.slots.len() as u64 {
            let i = id.index as usize;
            let generation = self.slots[i].generation;
            let value = self.slots[i].value;
            if generation == id.generation && value.is_some() {
                let ghost s0 = self.slots@;
                let slot = Slot { generation, value: None };
                self.slots.set(i, slot);
                proof {
                    lemma_occupied_update(s0, i as int, slot);
                }
                assert(self.entities() =~= old(self).entities().remove(id));
                return value;
            }
        }
        None
    }

    /// Places a new entity and returns its handle, which no live entity has.
    pub fn insert(&mut self, value: T) -> (r: EntityId)
        requires
            old(self).slots_used() < u64::MAX,
        ensures
            final(self).slots_used() <= old(self).slots_used() + 1,
            !old(self).entities().contains_key(r),
            final(self).entities() == old(self).entities().insert(r, value),
            final(self).count() == old(self).count() + 1,
    {
        let ghost s0 = self.slots@;
        let free = self.free_slot();
        match free {
            Some(i) => {
                let generation = self.slots[i].generation + 1;
                let id = EntityId { index: i as u64, generation };
                let slot = Slot { generation, value: Some(value) };
                self.slots.set(i, slot);
                proof {
                    lemma_occupied_update(s0, i as int, slot);
                }
                assert(self.entities() =~= old(self).entities().insert(id, value));
                id
            },
            None => {
                let id = EntityId { index: self.slots.len() as u64, generation: 0 };
                self.slots.push(Slot { generation: 0, value: Some(value) });
                assert(self.slots@.drop_last() =~= s0);
                assert(self.entities() =~= old(self).entities().insert(id, value));
                id
            },
        }
    }

    /// The first empty slot whose generation can still rise.
    fn free_slot(&self) -> (r: Option<usize>)
        ensures
            match r {
                Some(i) => i < self.slots.len() && self.slots@[i as int].value is None
                    && self.slots@[i as int].generation < u64::MAX,
                None => true,
            },
    {
        let mut i: usize = 0;
        while i < self.slots.len()
            invariant
                i <= self.slots.len(),
            decreases self.slots.len() - i,
        {
            if self.slots[i].value.is_none() && self.slots[i].generation < u64::MAX {
                return Some(i);
            }
            i = i + 1;
        }
        None
    }

    /// The handles of all live entities, in slot order.
    pub fn ids(&self) -> (r: Vec<EntityId>)
        ensures
            forall|i: int| 0 <= i < r.len() ==> self.entities().contains_key(#[trigger] r@[i]),
            forall|id: EntityId| self.entities().contains_key(id) ==> r@.contains(id),
            forall|i: int, j: int| 0 <= i < j < r.len() ==> r@[i].index < r@[j].index,
    {
        let mut out: Vec<EntityId> = Vec::new();
        let mut i: usize = 0;
        while i < self.slots.len()
            invariant
                i <= self.slots.len(),
                forall|k: int| 0 <= k < out.len() ==> self.live(#[trigger] out@[k]),
                forall|k: int| 0 <= k < out.len() ==> (#[trigger] out@[k]).index < i,
                forall|id: EntityId| self.live(id) && id.index < i ==> out@.contains(id),
                forall|a: int, b: int| 0 <= a < b < out.len() ==> out@[a].index < out@[b].index,
            decreases self.slots.len() - i,
        {
            if self.slots[i].value.is_some() {
                let id = EntityId { index: i as u64, generation: self.slots[i].generation };
                let ghost prev = out@;
                out.push(id);
                assert(out@[out.len() - 1] == id);
                assert forall|x: EntityId| self.live(x) && x.index < i + 1 implies out@.contains(x) by {
                    if x.index == i {
                        assert(x == id);
                        assert(out@[out.len() - 1] == x);
                    } else {
                        assert(prev.contains(x));
                        let k = choose|k: int| 0 <= k < prev.len() && prev[k] == x;
                        assert(out@[k] == x);
                    }
                }
            }
            i = i + 1;
        }
        out
    }
}

} // verus!
