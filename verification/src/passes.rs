//! The three mutation passes, and the per-entity rules they apply.

use vstd::prelude::*;
use rand::Rng;
use crate::component::{
    Entity, Position, Rotation, Scale, POSITION_JITTER, SCALE_JITTER, TURN,
};
use crate::mode::Mode;
use crate::store::Store;

verus! {

/// `sum` reduced by whole turns towards zero: the magnitude is taken modulo a
/// full turn and the sign of `sum` is kept, so a negative angle stays
/// negative.
pub open spec fn wrap_turn(sum: int) -> int {
    if sum >= 0 {
        sum % (TURN as int)
    } else {
        -((-sum) % (TURN as int))
    }
}

/// The entity after the rotation rule: with both an angle and a velocity, the
/// angle becomes their wrapped sum; otherwise nothing changes.
pub open spec fn rotated(e: Entity) -> Entity {
    if e.rotation is Some && e.velocity is Some {
        Entity {
            rotation: Some(
                Rotation(wrap_turn(e.rotation.unwrap().0 + e.velocity.unwrap().0) as i64),
            ),
            ..e
        }
    } else {
        e
    }
}

/// The entity after `ticks` applications of the rotation rule.
pub open spec fn rotated_times(e: Entity, ticks: nat) -> Entity
    decreases ticks,
{
    if ticks == 0 {
        e
    } else {
        rotated(rotated_times(e, (ticks - 1) as nat))
    }
}

/// The entity with `delta` added to its scale, if it has one.
pub open spec fn rescaled(e: Entity, delta: int) -> Entity {
    match e.scale {
        Some(s) => Entity { scale: Some(Scale((s.0 + delta) as i64)), ..e },
        None => e,
    }
}

/// The entity with `dx` and `dy` added to its coordinates, if it has them.
pub open spec fn translated(e: Entity, dx: int, dy: int) -> Entity {
    match e.position {
        Some(p) => Entity {
            position: Some(Position { x: (p.x + dx) as i64, y: (p.y + dy) as i64 }),
            ..e
        },
        None => e,
    }
}

/// One tick of `mode` on one entity, given what is sampled for it: `sample.0`
/// for the scale, `sample.1` and `sample.2` for the coordinates. The passes
/// that the mode enables are applied in the order rotation, scale, position.
pub open spec fn stepped(e: Entity, mode: Mode, sample: (int, int, int)) -> Entity {
    let r = if mode.rotates() {
        rotated(e)
    } else {
        e
    };
    let s = if mode.scales() {
        rescaled(r, sample.0)
    } else {
        r
    };
    if mode.translates() {
        translated(s, sample.1, sample.2)
    } else {
        s
    }
}

/// `after` is `before` with its scale, if it has one, moved by some amount in
/// `[-SCALE_JITTER, SCALE_JITTER)`.
pub open spec fn scale_stepped(before: Entity, after: Entity) -> bool {
    match before.scale {
        Some(s) => {
            &&& after.scale is Some
            &&& -SCALE_JITTER <= after.scale.unwrap().0 - s.0 < SCALE_JITTER
            &&& after == rescaled(before, after.scale.unwrap().0 - s.0)
        },
        None => after == before,
    }
}

/// `after` is `before` with each coordinate, if it has them, moved by some
/// amount in `[-POSITION_JITTER, POSITION_JITTER)`.
pub open spec fn position_stepped(before: Entity, after: Entity) -> bool {
    match before.position {
        Some(p) => {
            &&& after.position is Some
            &&& -POSITION_JITTER <= after.position.unwrap().x - p.x < POSITION_JITTER
            &&& -POSITION_JITTER <= after.position.unwrap().y - p.y < POSITION_JITTER
            &&& after == translated(
                before,
                after.position.unwrap().x - p.x,
                after.position.unwrap().y - p.y,
            )
        },
        None => after == before,
    }
}

/// Calls `rand::Rng::gen_range` on `rand::thread_rng()` with `i64` bounds.
/// Claimed of it: the sample lies in `[low, high)`. Which value it is depends
/// on the generator's state, so nothing more is said. The call panics where
/// `low >= high`, which the precondition leaves out.
#[verifier::external_body]
pub(crate) fn sample_range(low: i64, high: i64) -> (sample: i64)
    requires
        low < high,
    ensures
        low <= sample < high,
{
    rand::thread_rng().gen_range(low, high)
}

/// The wrapped sum of an angle and a velocity.
pub fn advance_rotation(rotation: i64, velocity: i64) -> (angle: i64)
    ensures
        angle == wrap_turn(rotation + velocity),
        -TURN < angle < TURN,
{
    let sum: i128 = rotation as i128 + velocity as i128;
    if sum >= 0 {
        let magnitude: u128 = sum as u128;
        let rest: u128 = magnitude % (TURN as u128);
        rest as i64
    } else {
        let magnitude: u128 = (-sum) as u128;
        let rest: u128 = magnitude % (TURN as u128);
        -(rest as i64)
    }
}

/// Applies the rotation rule to one entity.
pub fn rotate(e: Entity) -> (r: Entity)
    ensures
        r == rotated(e),
{
    match (e.rotation, e.velocity) {
        (Some(angle), Some(velocity)) => Entity {
            rotation: Some(Rotation(advance_rotation(angle.0, velocity.0))),
            ..e
        },
        _ => e,
    }
}

/// Adds `delta` to the scale of one entity, if it has one.
pub fn rescale(e: Entity, delta: i64) -> (r: Entity)
    requires
        e.scale is Some ==> i64::MIN <= e.scale.unwrap().0 + delta <= i64::MAX,
    ensures
        r == rescaled(e, delta as int),
{
    match e.scale {
        Some(s) => Entity { scale: Some(Scale(s.0 + delta)), ..e },
        None => e,
    }
}

/// Adds `dx` and `dy` to the coordinates of one entity, if it has them.
pub fn translate(e: Entity, dx: i64, dy: i64) -> (r: Entity)
    requires
        e.position is Some ==> {
            &&& i64::MIN <= e.position.unwrap().x + dx <= i64::MAX
            &&& i64::MIN <= e.position.unwrap().y + dy <= i64::MAX
        },
    ensures
        r == translated(e, dx as int, dy as int),
{
    match e.position {
        Some(p) => Entity { position: Some(Position { x: p.x + dx, y: p.y + dy }), ..e },
        None => e,
    }
}

/// One tick of `mode` on one entity, given what was sampled for it: `sample.0`
/// for the scale, `sample.1` and `sample.2` for the coordinates.
pub fn step(e: Entity, mode: Mode, sample: (i64, i64, i64)) -> (r: Entity)
    requires
        mode.scales() && e.scale is Some ==> i64::MIN <= e.scale.unwrap().0 + sample.0
            <= i64::MAX,
        mode.translates() && e.position is Some ==> {
            &&& i64::MIN <= e.position.unwrap().x + sample.1 <= i64::MAX
            &&& i64::MIN <= e.position.unwrap().y + sample.2 <= i64::MAX
        },
    ensures
        r == stepped(e, mode, (sample.0 as int, sample.1 as int, sample.2 as int)),
{
    let turned = if mode.rotates() {
        rotate(e)
    } else {
        e
    };
    let sized = if mode.scales() {
        rescale(turned, sample.0)
    } else {
        turned
    };
    if mode.translates() {
        translate(sized, sample.1, sample.2)
    } else {
        sized
    }
}

/// The rotation pass: every entity with both an angle and a velocity gets the
/// wrapped sum of the two as its angle. Nothing else changes.
pub fn apply_rotational_velocity(store: &mut Store)
    ensures
        final(store)@.len() == old(store)@.len(),
        forall|i: int|
            0 <= i < old(store)@.len() ==> #[trigger] final(store)@[i] == rotated(old(store)@[i]),
{
    let n = store.entities.len();
    let ghost before = store@;
    let mut i: usize = 0;
    while i < n
        invariant
            i <= n,
            n == before.len(),
            store@.len() == n,
            forall|j: int| 0 <= j < i ==> #[trigger] store@[j] == rotated(before[j]),
            forall|j: int| i <= j < n ==> #[trigger] store@[j] == before[j],
        decreases n - i,
    {
        let next = rotate(store.entities[i]);
        store.entities.set(i, next);
        i += 1;
    }
}

/// The scale pass: every entity with a scale gets a fresh sample from
/// `[-SCALE_JITTER, SCALE_JITTER)` added to it. Nothing else changes.
pub fn apply_scale_adjustment(store: &mut Store)
    requires
        old(store).scale_room(1),
    ensures
        final(store)@.len() == old(store)@.len(),
        forall|i: int|
            0 <= i < old(store)@.len() ==> scale_stepped(
                old(store)@[i],
                #[trigger] final(store)@[i],
            ),
{
    let n = store.entities.len();
    let ghost before = store@;
    let mut i: usize = 0;
    while i < n
        invariant
            i <= n,
            n == before.len(),
            store@.len() == n,
            forall|j: int| 0 <= j < n ==> (#[trigger] before[j]).scale_room(1),
            forall|j: int| 0 <= j < i ==> scale_stepped(before[j], #[trigger] store@[j]),
            forall|j: int| i <= j < n ==> #[trigger] store@[j] == before[j],
        decreases n - i,
    {
        let e = store.entities[i];
        assert(before[i as int].scale_room(1));
        if e.scale.is_some() {
            let delta = sample_range(-SCALE_JITTER, SCALE_JITTER);
            let next = rescale(e, delta);
            store.entities.set(i, next);
        }
        i += 1;
    }
}

/// The position pass: every entity with a position gets two fresh samples
/// from `[-POSITION_JITTER, POSITION_JITTER)` added, one to each coordinate.
/// Nothing else changes.
pub fn apply_translation_adjustment(store: &mut Store)
    requires
        old(store).position_room(1),
    ensures
        final(store)@.len() == old(store)@.len(),
        forall|i: int|
            0 <= i < old(store)@.len() ==> position_stepped(
                old(store)@[i],
                #[trigger] final(store)@[i],
            ),
{
    let n = store.entities.len();
    let ghost before = store@;
    let mut i: usize = 0;
    while i < n
        invariant
            i <= n,
            n == before.len(),
            store@.len() == n,
            forall|j: int| 0 <= j < n ==> (#[trigger] before[j]).position_room(1),
            forall|j: int| 0 <= j < i ==> position_stepped(before[j], #[trigger] store@[j]),
            forall|j: int| i <= j < n ==> #[trigger] store@[j] == before[j],
        decreases n - i,
    {
        let e = store.entities[i];
        assert(before[i as int].position_room(1));
        if e.position.is_some() {
            let dx = sample_range(-POSITION_JITTER, POSITION_JITTER);
            let dy = sample_range(-POSITION_JITTER, POSITION_JITTER);
            let next = translate(e, dx, dy);
            store.entities.set(i, next);
        }
        i += 1;
    }
}

} // verus!
