use phoenix_engine::engine::ecs::{Active, Layer, Name, World};

#[test]
fn test_spawn_and_get() {
    let mut world = World::new();
    let id = world.spawn((Name::from("Test"), Layer(5)));

    assert!(world.get::<Name>(id).is_some());
    assert_eq!(world.get::<Layer>(id).unwrap().0, 5);
}

#[test]
fn test_named_entity() {
    let mut world = World::new();
    let id = world.spawn_named("player", (Name::from("Player"),));

    assert_eq!(world.get_named("player"), Some(id));
}

#[test]
fn despawn_forgets_id_and_names() {
    let mut world = World::new();
    let a = world.spawn_named("a", (Active::enabled(),));
    let b = world.spawn_named("b", (Layer(1),));
    world.spawn_named("alias", (Layer(2),));
    assert_eq!(world.entity_count(), 3);
    assert!(world.despawn(a));
    assert_eq!(world.entity_count(), 2);
    assert_eq!(world.get_named("a"), None);
    assert!(world.get_entity(a).is_none());
    assert!(world.get::<Active>(a).is_none());
    assert_eq!(world.get_named("b"), Some(b));
    assert!(!world.despawn(a));
}

#[test]
fn entity_round_trip_and_components() {
    let mut world = World::new();
    let id = world.spawn((Layer(3),));
    let entity = world.get_entity(id).unwrap();
    assert_eq!(world.get_id(entity), Some(id));
    assert!(world.add_component(id, Active::disabled()));
    assert!(!world.get::<Active>(id).unwrap().0);
    assert_eq!(world.remove_component::<Layer>(id).map(|l| l.0), Some(3));
    assert!(world.get::<Layer>(id).is_none());
    world.clear();
    assert_eq!(world.entity_count(), 0);
    assert!(world.get_entity(id).is_none());
}

#[test]
fn ids_round_trip_through_uuids() {
    let id = phoenix_engine::engine::ecs::EntityId::new();
    let other = phoenix_engine::engine::ecs::EntityId::default();
    assert_ne!(id, other);
    let again = phoenix_engine::engine::ecs::EntityId::from_uuid(id.uuid());
    assert_eq!(again, id);
    let u = uuid::Uuid::from_u128(0x1234);
    assert_eq!(phoenix_engine::engine::ecs::EntityId::from_uuid(u).uuid(), u);
    assert_eq!(phoenix_engine::engine::ecs::EntityId::from_uuid(u).uuid().as_u128(), 0x1234);
}

#[test]
fn iter_ids_lists_each_entity_once() {
    let mut world = World::new();
    assert!(world.iter_ids().is_empty());
    let a = world.spawn((Name::from("A"),));
    let b = world.spawn_named("b", (Layer(1),));
    let c = world.spawn((Active::enabled(),));
    let ids = world.iter_ids();
    assert_eq!(ids.len(), 3);
    for id in [a, b, c] {
        assert_eq!(ids.iter().filter(|x| **x == id).count(), 1);
    }
    assert!(world.despawn(b));
    let ids = world.iter_ids();
    assert_eq!(ids.len(), 2);
    assert!(!ids.contains(&b));
}

#[test]
fn new_ids_are_version_four() {
    let id = phoenix_engine::engine::ecs::EntityId::new();
    assert_eq!(id.uuid().get_version_num(), 4);
    let bits = id.uuid().as_u128();
    assert_eq!((bits >> 76) & 0xf, 4);
    assert_eq!((bits >> 62) & 0x3, 2);
}

#[test]
fn spawn_then_despawn_restores_the_world() {
    let mut world = World::new();
    let keep = world.spawn((Layer(1),));
    let gone = world.spawn((Layer(2),));
    assert!(world.despawn(gone));
    assert_eq!(world.entity_count(), 1);
    assert_eq!(world.iter_ids(), vec![keep]);
    assert!(!world.add_component(gone, Active::enabled()));
    assert!(world.add_component(keep, Active::enabled()));
    assert!(world.remove_component::<Layer>(gone).is_none());
}
