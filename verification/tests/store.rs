use smol_transform::component::{
    stays_in_range, Entity, Id, Parent, Position, Rotation, RotationalVelocity, Scale,
    Signature, POSITION_JITTER, SCALE_JITTER,
};
use smol_transform::passes::apply_scale_adjustment;
use smol_transform::store::Store;

fn nothing() -> Signature {
    Signature {
        id: false,
        parent: false,
        position: false,
        scale: false,
        rotation: false,
        velocity: false,
    }
}

#[test]
fn new_store_is_empty() {
    let store = Store::new();
    assert_eq!(store.len(), 0);
    assert_eq!(store.get(0), None);
    assert_eq!(store.select(nothing()), Vec::<usize>::new());
}

#[test]
fn spawn_keeps_insertion_order() {
    let mut store = Store::new();
    let mut a = Entity::bare();
    a.id = Some(Id(7));
    let mut b = Entity::bare();
    b.parent = Some(Parent(7));
    store.spawn(a);
    store.spawn(b);
    assert_eq!(store.len(), 2);
    assert_eq!(store.get(0), Some(a));
    assert_eq!(store.get(1), Some(b));
    assert_eq!(store.get(2), None);
}

#[test]
fn select_gives_exactly_the_carriers() {
    let mut store = Store::new();
    let mut angle_only = Entity::bare();
    angle_only.rotation = Some(Rotation(1));
    let mut both = angle_only;
    both.velocity = Some(RotationalVelocity(2));
    let mut scaled = Entity::bare();
    scaled.scale = Some(Scale(3));
    store.spawn(angle_only);
    store.spawn(both);
    store.spawn(Entity::bare());
    store.spawn(scaled);
    store.spawn(both);

    let mut want = nothing();
    assert_eq!(store.select(want), vec![0, 1, 2, 3, 4]);
    want.rotation = true;
    assert_eq!(store.select(want), vec![0, 1, 4]);
    want.velocity = true;
    assert_eq!(store.select(want), vec![1, 4]);
    want.scale = true;
    assert_eq!(store.select(want), Vec::<usize>::new());
    let mut scale_only = nothing();
    scale_only.scale = true;
    assert_eq!(store.select(scale_only), vec![3]);
}

#[test]
fn carries_checks_each_attribute() {
    let mut e = Entity::bare();
    assert!(e.carries(nothing()));
    let mut want = nothing();
    want.id = true;
    assert!(!e.carries(want));
    e.id = Some(Id(0));
    assert!(e.carries(want));
    want.parent = true;
    assert!(!e.carries(want));
    e.parent = Some(Parent(0));
    want.position = true;
    assert!(!e.carries(want));
    e.position = Some(Position { x: 0, y: 0 });
    assert!(e.carries(want));
}

#[test]
fn range_check_is_exact_at_both_ends() {
    assert!(stays_in_range(0, 0, 1));
    assert!(stays_in_range(i64::MAX, 0, SCALE_JITTER));
    assert!(stays_in_range(i64::MIN, 0, SCALE_JITTER));
    assert!(stays_in_range(i64::MAX - (SCALE_JITTER - 1), 1, SCALE_JITTER));
    assert!(!stays_in_range(i64::MAX - (SCALE_JITTER - 1) + 1, 1, SCALE_JITTER));
    assert!(stays_in_range(i64::MIN + SCALE_JITTER, 1, SCALE_JITTER));
    assert!(!stays_in_range(i64::MIN + SCALE_JITTER - 1, 1, SCALE_JITTER));
    assert!(stays_in_range(i64::MAX - 3 * (POSITION_JITTER - 1), 3, POSITION_JITTER));
    assert!(!stays_in_range(i64::MAX - 3 * (POSITION_JITTER - 1) + 1, 3, POSITION_JITTER));
    assert!(stays_in_range(0, u32::MAX, POSITION_JITTER));
    assert!(stays_in_range(i64::MAX, u32::MAX, 1));
    assert!(!stays_in_range(i64::MIN, 1, 1));
}

#[test]
fn room_is_asked_of_each_attribute_alone() {
    let mut e = Entity::bare();
    assert!(e.has_scale_room(u32::MAX));
    assert!(e.has_position_room(u32::MAX));
    e.scale = Some(Scale(i64::MAX));
    assert!(e.has_scale_room(0));
    assert!(!e.has_scale_room(1));
    assert!(e.has_position_room(u32::MAX));
    e.scale = Some(Scale(0));
    e.position = Some(Position { x: 0, y: i64::MIN });
    assert!(e.has_scale_room(u32::MAX));
    assert!(e.has_position_room(0));
    assert!(!e.has_position_room(1));
    e.position = Some(Position { x: i64::MAX - POSITION_JITTER, y: 0 });
    assert!(e.has_position_room(1));
    assert!(!e.has_position_room(2));
    e.rotation = Some(Rotation(i64::MAX));
    assert!(e.has_scale_room(5));
}

#[test]
fn store_room_checks_every_entity() {
    let mut store = Store::new();
    assert!(store.has_scale_room(u32::MAX));
    assert!(store.has_position_room(u32::MAX));
    let mut e = Entity::bare();
    e.scale = Some(Scale(7));
    store.spawn(e);
    store.spawn(Entity::bare());
    assert!(store.has_scale_room(1000));
    e.scale = Some(Scale(i64::MIN));
    store.spawn(e);
    assert!(store.has_scale_room(0));
    assert!(!store.has_scale_room(1));
    assert!(store.has_position_room(1));
}

#[test]
fn scale_pass_ignores_far_coordinates() {
    let mut store = Store::new();
    let mut e = Entity::bare();
    e.scale = Some(Scale(0));
    e.position = Some(Position { x: i64::MAX, y: i64::MIN });
    store.spawn(e);
    assert!(store.has_scale_room(1));
    assert!(!store.has_position_room(1));
    apply_scale_adjustment(&mut store);
    let after = store.get(0).unwrap();
    assert_eq!(after.position, e.position);
    let s = after.scale.unwrap().0;
    assert!(-SCALE_JITTER <= s && s < SCALE_JITTER);
}
