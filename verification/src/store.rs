//! The entity store: entities in the order in which they were spawned.

use vstd::prelude::*;
use crate::component::{Entity, Signature};

verus! {

/// The live entities of a run. Entities are only ever appended; the slot of
/// an entity is its position in spawn order.
#[derive(Debug)]
pub struct Store {
    pub entities: Vec<Entity>,
}

impl View for Store {
    type V = Seq<Entity>;

    open spec fn view(&self) -> Seq<Entity> {
        self.entities@
    }
}

/// The slots below `upto` whose entity carries all of `want`, ascending.
pub open spec fn matching(s: Seq<Entity>, want: Signature, upto: nat) -> Seq<usize>
    decreases upto,
{
    if upto == 0 {
        Seq::empty()
    } else {
        let before = matching(s, want, (upto - 1) as nat);
        if s[upto - 1].has_all(want) {
            before.push((upto - 1) as usize)
        } else {
            before
        }
    }
}

impl Store {
    /// Every scale has room for `ticks` scale passes.
    pub open spec fn scale_room(&self, ticks: int) -> bool {
        forall|i: int| 0 <= i < self@.len() ==> (#[trigger] self@[i]).scale_room(ticks)
    }

    /// Every position has room for `ticks` position passes.
    pub open spec fn position_room(&self, ticks: int) -> bool {
        forall|i: int| 0 <= i < self@.len() ==> (#[trigger] self@[i]).position_room(ticks)
    }

    /// The empty store.
    pub fn new() -> (s: Store)
        ensures
            s@ == Seq::<Entity>::empty(),
    {
        Store { entities: Vec::new() }
    }

    /// Number of entities.
    pub fn len(&self) -> (n: usize)
        ensures
            n == self@.len(),
    {
        self.entities.len()
    }

    /// Appends an entity; it takes the next slot.
    pub fn spawn(&mut self, entity: Entity)
        ensures
            final(self)@ == old(self)@.push(entity),
    {
        self.entities.push(entity);
    }

    /// The entity in `slot`, if there is one.
    pub fn get(&self, slot: usize) -> (e: Option<Entity>)
        ensures
            e == (if slot < self@.len() {
                Some(self@[slot as int])
            } else {
                None
            }),
    {
        if slot < self.entities.len() {
            Some(self.entities[slot])
        } else {
            None
        }
    }

    /// The slots of exactly the entities that carry every attribute type in
    /// `want`, in spawn order.
    pub fn select(&self, want: Signature) -> (slots: Vec<usize>)
        ensures
            slots@ == matching(self@, want, self@.len()),
    {
        let mut slots: Vec<usize> = Vec::new();
        let mut i: usize = 0;
        while i < self.entities.len()
            invariant
                i <= self.entities.len(),
                slots@ == matching(self@, want, i as nat),
            decreases self.entities.len() - i,
        {
            if self.entities[i].carries(want) {
                slots.push(i);
            }
            i += 1;
        }
        slots
    }

    /// Whether every scale has room for `ticks` scale passes.
    pub fn has_scale_room(&self, ticks: u32) -> (r: bool)
        ensures
            r == self.scale_room(ticks as int),
    {
        let mut i: usize = 0;
        while i < self.entities.len()
            invariant
                i <= self.entities.len(),
                forall|j: int| 0 <= j < i ==> (#[trigger] self@[j]).scale_room(ticks as int),
            decreases self.entities.len() - i,
        {
            if !self.entities[i].has_scale_room(ticks) {
                assert(!self@[i as int].scale_room(ticks as int));
                return false;
            }
            i += 1;
        }
        true
    }

    /// Whether every position has room for `ticks` position passes.
    pub fn has_position_room(&self, ticks: u32) -> (r: bool)
        ensures
            r == self.position_room(ticks as int),
    {
        let mut i: usize = 0;
        while i < self.entities.len()
            invariant
                i <= self.entities.len(),
                forall|j: int| 0 <= j < i ==> (#[trigger] self@[j]).position_room(ticks as int),
            decreases self.entities.len() - i,
        {
            if !self.entities[i].has_position_room(ticks) {
                assert(!self@[i as int].position_room(ticks as int));
                return false;
            }
            i += 1;
        }
        true
    }
}

/// What `matching` selects: ascending slots, each in range and carrying
/// `want`, and no qualifying slot left out.
pub proof fn lemma_matching_exact(s: Seq<Entity>, want: Signature, upto: nat)
    requires
        upto <= s.len(),
        upto <= usize::MAX,
    ensures
        forall|k: int|
            0 <= k < matching(s, want, upto).len() ==> {
                let slot = #[trigger] matching(s, want, upto)[k];
                slot < upto && s[slot as int].has_all(want)
            },
        forall|j: int, k: int|
            0 <= j < k < matching(s, want, upto).len() ==> matching(s, want, upto)[j]
                < matching(s, want, upto)[k],
        forall|i: int|
            0 <= i < upto && (#[trigger] s[i]).has_all(want) ==> matching(s, want, upto).contains(
                i as usize,
            ),
    decreases upto,
{
    if upto > 0 {
        let before = matching(s, want, (upto - 1) as nat);
        lemma_matching_exact(s, want, (upto - 1) as nat);
        let now = matching(s, want, upto);
        assert forall|i: int| 0 <= i < upto && (#[trigger] s[i]).has_all(want) implies now.contains(
            i as usize,
        ) by {
            if i < upto - 1 {
                assert(before.contains(i as usize));
                let k = choose|k: int| 0 <= k < before.len() && before[k] == i as usize;
                assert(now[k] == i as usize);
            } else {
                assert(now[now.len() - 1] == i as usize);
            }
        }
    }
}

} // verus!
