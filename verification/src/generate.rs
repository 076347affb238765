//! The population generator.

use vstd::prelude::*;
use crate::component::{
    Entity, Id, Parent, Position, Rotation, RotationalVelocity, Scale, TURN, UNIT,
};
use crate::passes::sample_range;
use crate::store::Store;

verus! {

/// A generated coordinate lies in `[0, POSITION_SPAN)`: 100 units.
pub const POSITION_SPAN: i64 = 100_000_000;

/// A generated scale lies in `[0, SCALE_SPAN)`: 2 units.
pub const SCALE_SPAN: i64 = 2_000_000;

/// The root: identifier 0 and no other attribute.
pub open spec fn root() -> Entity {
    Entity {
        id: Some(Id(0)),
        parent: None,
        position: None,
        scale: None,
        rotation: None,
        velocity: None,
    }
}

/// The entity generated as number `index`, counted from 0, from five samples:
/// its identifier is `index + 1`, its parent the entity generated before it,
/// or the root.
pub open spec fn generated(
    index: int,
    x: i64,
    y: i64,
    scale: i64,
    rotation: i64,
    velocity: i64,
) -> Entity {
    Entity {
        id: Some(Id((index + 1) as usize)),
        parent: Some(Parent(index as usize)),
        position: Some(Position { x, y }),
        scale: Some(Scale(scale)),
        rotation: Some(Rotation(rotation)),
        velocity: Some(RotationalVelocity(velocity)),
    }
}

/// `e` is a freshly generated entity for `slot`: all six attributes, the
/// identifier equal to the slot, the parent one below, and every value in its
/// generation range.
pub open spec fn fresh(e: Entity, slot: int) -> bool {
    exists|x: i64, y: i64, scale: i64, rotation: i64, velocity: i64|
        {
            &&& #[trigger] generated(slot - 1, x, y, scale, rotation, velocity) == e
            &&& 0 <= x < POSITION_SPAN
            &&& 0 <= y < POSITION_SPAN
            &&& 0 <= scale < SCALE_SPAN
            &&& 0 <= rotation < TURN
            &&& 0 <= velocity < UNIT
        }
}

/// The number of entities generated for a requested count: a negative count
/// generates none.
pub open spec fn generated_count(object_count: int) -> nat {
    if object_count > 0 {
        object_count as nat
    } else {
        0
    }
}

/// `s` is a freshly generated population: the root in slot 0, then one fresh
/// entity per slot up to the count.
pub open spec fn populated(s: Seq<Entity>, object_count: int) -> bool {
    &&& s.len() == generated_count(object_count) + 1
    &&& s[0] == root()
    &&& forall|k: int| 1 <= k < s.len() ==> fresh(#[trigger] s[k], k)
}

/// Builds the entity generated as number `index` from its five samples.
pub fn generated_entity(
    index: usize,
    x: i64,
    y: i64,
    scale: i64,
    rotation: i64,
    velocity: i64,
) -> (e: Entity)
    requires
        index < usize::MAX,
    ensures
        e == generated(index as int, x, y, scale, rotation, velocity),
{
    Entity {
        id: Some(Id(index + 1)),
        parent: Some(Parent(index)),
        position: Some(Position { x, y }),
        scale: Some(Scale(scale)),
        rotation: Some(Rotation(rotation)),
        velocity: Some(RotationalVelocity(velocity)),
    }
}

/// Generates the population: the root, then `object_count` entities with
/// sampled coordinates, scale, angle and velocity.
pub fn start(object_count: i32) -> (store: Store)
    ensures
        populated(store@, object_count as int),
{
    let mut store = Store::new();
    store.spawn(
        Entity {
            id: Some(Id(0)),
            parent: None,
            position: None,
            scale: None,
            rotation: None,
            velocity: None,
        },
    );
    let mut made: i32 = 0;
    while made < object_count
        invariant
            0 <= made,
            made <= object_count || made == 0,
            store@.len() == made + 1,
            store@[0] == root(),
            forall|k: int| 1 <= k < store@.len() ==> fresh(#[trigger] store@[k], k),
        decreases object_count - made,
    {
        let x = sample_range(0, POSITION_SPAN);
        let y = sample_range(0, POSITION_SPAN);
        let scale = sample_range(0, SCALE_SPAN);
        let rotation = sample_range(0, TURN);
        let velocity = sample_range(0, UNIT);
        let e = generated_entity(made as usize, x, y, scale, rotation, velocity);
        let ghost before = store@;
        store.spawn(e);
        made += 1;
        proof {
            assert(generated(made - 1, x, y, scale, rotation, velocity) == e);
            assert(fresh(e, made as int));
            assert forall|k: int| 1 <= k < store@.len() implies fresh(#[trigger] store@[k], k) by {
                if k < before.len() {
                    assert(store@[k] == before[k]);
                }
            }
        }
    }
    store
}

/// A freshly generated population has room for every budget of ticks: no
/// run from it can leave the 64-bit range.
pub proof fn lemma_populated_has_room(s: Seq<Entity>, object_count: int, ticks: int)
    requires
        populated(s, object_count),
        0 <= ticks <= i32::MAX,
    ensures
        forall|i: int| 0 <= i < s.len() ==> (#[trigger] s[i]).scale_room(ticks),
        forall|i: int| 0 <= i < s.len() ==> (#[trigger] s[i]).position_room(ticks),
{
    assert forall|i: int| 0 <= i < s.len() implies (#[trigger] s[i]).scale_room(ticks)
        && s[i].position_room(ticks) by {
        if i >= 1 {
            assert(fresh(s[i], i));
        }
    }
}

} // verus!
