use smol_transform::component::{
    Entity, Position, Rotation, RotationalVelocity, Scale, POSITION_JITTER, SCALE_JITTER, TURN,
    UNIT,
};
use smol_transform::mode::Mode;
use smol_transform::passes::{
    advance_rotation, apply_rotational_velocity, apply_scale_adjustment,
    apply_translation_adjustment, rescale, rotate, step, translate,
};
use smol_transform::store::Store;

fn spinning(angle: i64, velocity: i64) -> Entity {
    let mut e = Entity::bare();
    e.rotation = Some(Rotation(angle));
    e.velocity = Some(RotationalVelocity(velocity));
    e
}

fn full(k: i64) -> Entity {
    let mut e = spinning(k * UNIT, UNIT / 2);
    e.scale = Some(Scale(k * UNIT));
    e.position = Some(Position { x: 10 * k * UNIT, y: -10 * k * UNIT });
    e
}

#[test]
fn rotation_wraps_past_a_full_turn() {
    assert_eq!(advance_rotation(359 * UNIT, 2 * UNIT), UNIT);
}

#[test]
fn rotation_keeps_a_negative_sign() {
    assert_eq!(advance_rotation(-UNIT, -UNIT), -2 * UNIT);
}

#[test]
fn rotation_boundaries() {
    assert_eq!(advance_rotation(359 * UNIT, UNIT), 0);
    assert_eq!(advance_rotation(-359 * UNIT, -UNIT), 0);
    assert_eq!(advance_rotation(-359 * UNIT, -2 * UNIT), -UNIT);
    assert_eq!(advance_rotation(0, 0), 0);
    assert_eq!(advance_rotation(10 * UNIT, -30 * UNIT), -20 * UNIT);
    assert_eq!(advance_rotation(-UNIT, 3 * UNIT), 2 * UNIT);
    assert_eq!(advance_rotation(TURN - 1, 0), TURN - 1);
    assert_eq!(advance_rotation(0, 725 * UNIT + 3), 5 * UNIT + 3);
}

#[test]
fn rotation_of_extreme_values_does_not_overflow() {
    let twice_max: i128 = 2 * (i64::MAX as i128);
    assert_eq!(advance_rotation(i64::MAX, i64::MAX) as i128, twice_max % (TURN as i128));
    let twice_min: i128 = 2 * (i64::MIN as i128);
    assert_eq!(advance_rotation(i64::MIN, i64::MIN) as i128, twice_min % (TURN as i128));
}

#[test]
fn rotate_needs_angle_and_velocity() {
    let e = rotate(spinning(359 * UNIT, 2 * UNIT));
    assert_eq!(e.rotation, Some(Rotation(UNIT)));
    assert_eq!(e.velocity, Some(RotationalVelocity(2 * UNIT)));

    let mut only_angle = Entity::bare();
    only_angle.rotation = Some(Rotation(400 * UNIT));
    assert_eq!(rotate(only_angle), only_angle);

    let mut only_velocity = Entity::bare();
    only_velocity.velocity = Some(RotationalVelocity(UNIT));
    assert_eq!(rotate(only_velocity), only_velocity);
}

#[test]
fn rescale_adds_the_sample() {
    let e = rescale(full(1), -SCALE_JITTER);
    assert_eq!(e.scale, Some(Scale(UNIT / 2)));
    assert_eq!(e.position, full(1).position);
    assert_eq!(e.rotation, full(1).rotation);
    let below_zero = rescale(rescale(e, -SCALE_JITTER), -SCALE_JITTER);
    assert_eq!(below_zero.scale, Some(Scale(-UNIT / 2)));
    assert_eq!(rescale(Entity::bare(), 17), Entity::bare());
}

#[test]
fn translate_adds_both_samples() {
    let e = translate(full(1), 3, -4);
    assert_eq!(e.position, Some(Position { x: 10 * UNIT + 3, y: -10 * UNIT - 4 }));
    assert_eq!(e.scale, full(1).scale);
    assert_eq!(translate(Entity::bare(), 1, 1), Entity::bare());
}

#[test]
fn rotation_pass_touches_only_angles() {
    let mut store = Store::new();
    store.spawn(spinning(359 * UNIT, 2 * UNIT));
    store.spawn(Entity::bare());
    store.spawn(full(3));
    apply_rotational_velocity(&mut store);
    assert_eq!(store.len(), 3);
    assert_eq!(store.get(0), Some(spinning(UNIT, 2 * UNIT)));
    assert_eq!(store.get(1), Some(Entity::bare()));
    let mut expected = full(3);
    expected.rotation = Some(Rotation(3 * UNIT + UNIT / 2));
    assert_eq!(store.get(2), Some(expected));
}

#[test]
fn scale_pass_stays_within_half_a_unit() {
    let mut store = Store::new();
    for k in 0..200 {
        store.spawn(full(k));
    }
    store.spawn(spinning(0, 0));
    apply_scale_adjustment(&mut store);
    assert_eq!(store.len(), 201);
    let mut moved = 0;
    for k in 0..200 {
        let after = store.get(k as usize).unwrap();
        let old = k * UNIT;
        let new = after.scale.unwrap().0;
        assert!(old - SCALE_JITTER <= new && new < old + SCALE_JITTER);
        if new != old {
            moved += 1;
        }
        let mut same = after;
        same.scale = Some(Scale(old));
        assert_eq!(same, full(k));
    }
    assert!(moved > 0);
    assert_eq!(store.get(200), Some(spinning(0, 0)));
}

#[test]
fn position_pass_stays_within_five_units() {
    let mut store = Store::new();
    for k in 0..200 {
        store.spawn(full(k));
    }
    store.spawn(spinning(0, 0));
    apply_translation_adjustment(&mut store);
    let mut distinct = 0;
    for k in 0..200 {
        let after = store.get(k as usize).unwrap();
        let old = full(k).position.unwrap();
        let new = after.position.unwrap();
        assert!(old.x - POSITION_JITTER <= new.x && new.x < old.x + POSITION_JITTER);
        assert!(old.y - POSITION_JITTER <= new.y && new.y < old.y + POSITION_JITTER);
        if new.x - old.x != new.y - old.y {
            distinct += 1;
        }
        let mut same = after;
        same.position = Some(old);
        assert_eq!(same, full(k));
    }
    assert!(distinct > 0);
    assert_eq!(store.get(200), Some(spinning(0, 0)));
}

#[test]
fn step_applies_the_enabled_passes_in_order() {
    let e = full(1);
    let all = step(e, Mode::All, (-SCALE_JITTER, 3, -4));
    assert_eq!(all.rotation, Some(Rotation(UNIT + UNIT / 2)));
    assert_eq!(all.scale, Some(Scale(UNIT / 2)));
    assert_eq!(all.position, Some(Position { x: 10 * UNIT + 3, y: -10 * UNIT - 4 }));
    assert_eq!(all.velocity, e.velocity);

    let mut turned = e;
    turned.rotation = all.rotation;
    assert_eq!(step(e, Mode::RotationOnly, (7, 8, 9)), turned);
    let mut sized = e;
    sized.scale = Some(Scale(UNIT + 7));
    assert_eq!(step(e, Mode::ScaleOnly, (7, 8, 9)), sized);
    let mut moved = e;
    moved.position = Some(Position { x: 10 * UNIT + 8, y: -10 * UNIT + 9 });
    assert_eq!(step(e, Mode::TranslationOnly, (7, 8, 9)), moved);
    assert_eq!(step(Entity::bare(), Mode::All, (7, 8, 9)), Entity::bare());
}

#[test]
fn one_sample_stream_gives_the_same_attribute_in_full_and_single_mode() {
    let samples: Vec<(i64, i64, i64)> = (0..500)
        .map(|k: i64| {
            (
                (k * 7919) % (2 * SCALE_JITTER) - SCALE_JITTER,
                (k * 104729) % (2 * POSITION_JITTER) - POSITION_JITTER,
                (k * 1299709) % (2 * POSITION_JITTER) - POSITION_JITTER,
            )
        })
        .collect();
    let (mut all, mut turn, mut size, mut shift) = (full(3), full(3), full(3), full(3));
    for sample in samples.iter() {
        all = step(all, Mode::All, *sample);
        turn = step(turn, Mode::RotationOnly, *sample);
        size = step(size, Mode::ScaleOnly, *sample);
        shift = step(shift, Mode::TranslationOnly, *sample);
    }
    assert_eq!(all.rotation, turn.rotation);
    assert_eq!(all.scale, size.scale);
    assert_eq!(all.position, shift.position);
    assert_eq!(all.rotation, Some(Rotation(253 * UNIT)));
    assert_eq!(turn.scale, full(3).scale);
    assert_eq!(size.position, full(3).position);
    assert_eq!(shift.rotation, full(3).rotation);
    assert!(all.scale != full(3).scale);
    assert!(all.position != full(3).position);
}
