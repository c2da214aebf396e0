use p1::ecs::component::Component;
use p1::ecs::error::EcsError;
use p1::ecs::scene::Scene;
use std::any::TypeId;

#[derive(Debug, Clone, PartialEq)]
enum Value {
    Position(i32, i32),
    Velocity(i32, i32),
    Name(String),
}

struct Position;

impl Component for Position {
    fn get_entity_id(&self) -> usize {
        0
    }
}

struct Velocity;

impl Component for Velocity {
    fn get_entity_id(&self) -> usize {
        0
    }
}

struct Name;

impl Component for Name {
    fn get_entity_id(&self) -> usize {
        0
    }
}

fn position() -> TypeId {
    TypeId::of::<Position>()
}

fn velocity() -> TypeId {
    TypeId::of::<Velocity>()
}

#[test]
fn new_scene_has_no_entity() {
    let scene: Scene<Value> = Scene::new();
    assert_eq!(scene.mask_of(0), None);
    assert_eq!(scene.query(0), Vec::<usize>::new());
}

#[test]
fn entities_get_ascending_ids_and_empty_masks() {
    let mut scene: Scene<Value> = Scene::new();
    assert_eq!(scene.create_entity(), 0);
    assert_eq!(scene.create_entity(), 1);
    assert_eq!(scene.create_entity(), 2);
    assert_eq!(scene.mask_of(0), Some(0));
    assert_eq!(scene.mask_of(1), Some(0));
    assert_eq!(scene.mask_of(2), Some(0));
    assert_eq!(scene.mask_of(3), None);
}

#[test]
fn destroyed_id_is_reused_then_a_fresh_one_follows() {
    let mut scene: Scene<Value> = Scene::new();
    let a = scene.create_entity();
    assert_eq!(scene.remove_entity(a), Ok(()));
    assert_eq!(scene.mask_of(a), None);
    let b = scene.create_entity();
    assert_eq!(b, a);
    let c = scene.create_entity();
    assert_ne!(c, b);
    assert_eq!(c, 1);
}

#[test]
fn the_id_freed_last_is_reused_first() {
    let mut scene: Scene<Value> = Scene::new();
    for _ in 0..4 {
        scene.create_entity();
    }
    assert_eq!(scene.remove_entity(1), Ok(()));
    assert_eq!(scene.remove_entity(3), Ok(()));
    assert_eq!(scene.remove_entity(0), Ok(()));
    assert_eq!(scene.create_entity(), 0);
    assert_eq!(scene.create_entity(), 3);
    assert_eq!(scene.create_entity(), 1);
    assert_eq!(scene.create_entity(), 4);
}

#[test]
fn destroying_an_unknown_entity_is_refused() {
    let mut scene: Scene<Value> = Scene::new();
    assert_eq!(scene.remove_entity(0), Err(EcsError::UnknownEntity));
    let a = scene.create_entity();
    assert_eq!(scene.remove_entity(a), Ok(()));
    assert_eq!(scene.remove_entity(a), Err(EcsError::UnknownEntity));
    assert_eq!(scene.create_entity(), a);
    assert_eq!(scene.create_entity(), 1);
}

#[test]
fn added_component_is_read_back_and_its_bit_is_set() {
    let mut scene: Scene<Value> = Scene::new();
    let e = scene.create_entity();
    assert_eq!(scene.add_component_by_type(e, position(), Value::Position(3, 4)), Ok(()));
    assert_eq!(scene.get_component_by_type(e, position()), Some(&Value::Position(3, 4)));
    assert_eq!(scene.mask_of(e), Some(0b1));
    assert_eq!(scene.add_component_by_type(e, velocity(), Value::Velocity(1, 0)), Ok(()));
    assert_eq!(scene.get_component_by_type(e, velocity()), Some(&Value::Velocity(1, 0)));
    assert_eq!(scene.mask_of(e), Some(0b11));
}

#[test]
fn generic_add_and_get_agree_with_the_token_forms() {
    let mut scene: Scene<Value> = Scene::new();
    let e = scene.create_entity();
    assert_eq!(scene.add_component::<Position>(e, Value::Position(7, 8)), Ok(()));
    assert_eq!(scene.get_component::<Position>(e), Some(&Value::Position(7, 8)));
    assert_eq!(scene.get_component_by_type(e, position()), Some(&Value::Position(7, 8)));
    assert_eq!(scene.get_component::<Velocity>(e), None);
    assert_eq!(scene.add_component_by_type(e, velocity(), Value::Velocity(1, 1)), Ok(()));
    assert_eq!(scene.get_component::<Velocity>(e), Some(&Value::Velocity(1, 1)));
    assert_eq!(scene.remove_component::<Position>(e), Ok(()));
    assert_eq!(scene.get_component_by_type(e, position()), None);
    assert_eq!(scene.mask_of(e), Some(0b10));
}

#[test]
fn removed_component_is_absent_and_its_bit_is_clear() {
    let mut scene: Scene<Value> = Scene::new();
    let e = scene.create_entity();
    scene.add_component_by_type(e, position(), Value::Position(1, 2)).unwrap();
    scene.add_component_by_type(e, velocity(), Value::Velocity(5, 6)).unwrap();
    assert_eq!(scene.remove_component_by_type(e, position()), Ok(()));
    assert_eq!(scene.get_component_by_type(e, position()), None);
    assert_eq!(scene.mask_of(e), Some(0b10));
    assert_eq!(scene.get_component_by_type(e, velocity()), Some(&Value::Velocity(5, 6)));
}

#[test]
fn second_add_leaves_the_first_value() {
    let mut scene: Scene<Value> = Scene::new();
    let e = scene.create_entity();
    assert_eq!(scene.add_component_by_type(e, position(), Value::Position(1, 1)), Ok(()));
    assert_eq!(scene.add_component_by_type(e, position(), Value::Position(9, 9)), Ok(()));
    assert_eq!(scene.get_component_by_type(e, position()), Some(&Value::Position(1, 1)));
    assert_eq!(scene.mask_of(e), Some(0b1));
}

#[test]
fn removing_an_absent_component_changes_nothing() {
    let mut scene: Scene<Value> = Scene::new();
    let e = scene.create_entity();
    scene.add_component_by_type(e, position(), Value::Position(1, 1)).unwrap();
    assert_eq!(scene.remove_component_by_type(e, velocity()), Ok(()));
    assert_eq!(scene.mask_of(e), Some(0b1));
    assert_eq!(scene.get_component_by_type(e, position()), Some(&Value::Position(1, 1)));
    assert_eq!(scene.remove_component_by_type(e, position()), Ok(()));
    assert_eq!(scene.remove_component_by_type(e, position()), Ok(()));
    assert_eq!(scene.mask_of(e), Some(0));
}

#[test]
fn removal_registers_a_type_it_sees_first() {
    let mut scene: Scene<Value> = Scene::new();
    let e = scene.create_entity();
    assert_eq!(scene.remove_component_by_type(e, velocity()), Ok(()));
    assert_eq!(scene.type_index(velocity()), Ok(0));
    assert_eq!(scene.type_index(position()), Ok(1));
    scene.add_component_by_type(e, position(), Value::Position(0, 0)).unwrap();
    assert_eq!(scene.mask_of(e), Some(0b10));
}

#[test]
fn operations_on_an_unknown_entity_are_refused() {
    let mut scene: Scene<Value> = Scene::new();
    assert_eq!(
        scene.add_component_by_type(5, position(), Value::Position(0, 0)),
        Err(EcsError::UnknownEntity)
    );
    assert_eq!(scene.remove_component_by_type(5, position()), Err(EcsError::UnknownEntity));
    assert_eq!(scene.add_component::<Name>(5, Value::Name(String::from("x"))), Err(EcsError::UnknownEntity));
    assert_eq!(scene.remove_component::<Name>(5), Err(EcsError::UnknownEntity));
    assert_eq!(scene.get_component_by_type(5, position()), None);
    assert_eq!(scene.get_component_mut_by_type(5, position()), None);
    assert_eq!(scene.mask_of(5), None);
    assert_eq!(scene.create_entity(), 0);
    assert_eq!(scene.type_index(position()), Ok(0));
}

#[test]
fn operations_on_a_destroyed_entity_are_refused() {
    let mut scene: Scene<Value> = Scene::new();
    let e = scene.create_entity();
    scene.add_component_by_type(e, position(), Value::Position(1, 2)).unwrap();
    scene.remove_entity(e).unwrap();
    assert_eq!(
        scene.add_component_by_type(e, position(), Value::Position(0, 0)),
        Err(EcsError::UnknownEntity)
    );
    assert_eq!(scene.remove_component_by_type(e, position()), Err(EcsError::UnknownEntity));
    assert_eq!(scene.get_component_by_type(e, position()), None);
}

#[test]
fn destroying_an_entity_detaches_its_components() {
    let mut scene: Scene<Value> = Scene::new();
    let a = scene.create_entity();
    let b = scene.create_entity();
    scene.add_component_by_type(a, position(), Value::Position(1, 2)).unwrap();
    scene.add_component_by_type(a, velocity(), Value::Velocity(3, 4)).unwrap();
    scene.add_component_by_type(b, position(), Value::Position(5, 6)).unwrap();
    scene.remove_entity(a).unwrap();
    let again = scene.create_entity();
    assert_eq!(again, a);
    assert_eq!(scene.mask_of(again), Some(0));
    assert_eq!(scene.get_component_by_type(again, position()), None);
    assert_eq!(scene.get_component_by_type(again, velocity()), None);
    assert_eq!(scene.get_component_by_type(b, position()), Some(&Value::Position(5, 6)));
    assert_eq!(scene.add_component_by_type(again, position(), Value::Position(7, 7)), Ok(()));
    assert_eq!(scene.get_component_by_type(again, position()), Some(&Value::Position(7, 7)));
}

#[test]
fn component_changed_in_place_is_read_back() {
    let mut scene: Scene<Value> = Scene::new();
    let e = scene.create_entity();
    scene.add_component_by_type(e, position(), Value::Position(1, 2)).unwrap();
    match scene.get_component_mut_by_type(e, position()) {
        Some(value) => *value = Value::Position(10, 20),
        None => panic!("the component was attached"),
    }
    assert_eq!(scene.get_component_by_type(e, position()), Some(&Value::Position(10, 20)));
    assert_eq!(scene.mask_of(e), Some(0b1));
    if let Some(value) = scene.get_component_mut::<Position>(e) {
        *value = Value::Position(0, 0);
    }
    assert_eq!(scene.get_component::<Position>(e), Some(&Value::Position(0, 0)));
    assert_eq!(scene.get_component_mut_by_type(e, velocity()), None);
    assert_eq!(scene.get_component_mut::<Velocity>(e), None);
}

#[test]
fn components_of_distinct_entities_do_not_mix() {
    let mut scene: Scene<Value> = Scene::new();
    let a = scene.create_entity();
    let b = scene.create_entity();
    scene.add_component_by_type(a, position(), Value::Position(1, 1)).unwrap();
    scene.add_component_by_type(b, position(), Value::Position(2, 2)).unwrap();
    assert_eq!(scene.get_component_by_type(a, position()), Some(&Value::Position(1, 1)));
    assert_eq!(scene.get_component_by_type(b, position()), Some(&Value::Position(2, 2)));
    scene.remove_component_by_type(a, position()).unwrap();
    assert_eq!(scene.get_component_by_type(a, position()), None);
    assert_eq!(scene.get_component_by_type(b, position()), Some(&Value::Position(2, 2)));
}

#[test]
fn boxed_trait_objects_can_be_stored() {
    let mut scene: Scene<Box<dyn Component>> = Scene::new();
    let e = scene.create_entity();
    assert!(scene.add_component::<Velocity>(e, Box::new(Velocity)).is_ok());
    assert!(scene.add_component::<Position>(e, Box::new(Position)).is_ok());
    assert_eq!(scene.mask_of(e), Some(0b11));
    assert_eq!(scene.get_component::<Position>(e).map(|c| c.get_entity_id()), Some(0));
    assert!(scene.get_component::<Name>(e).is_none());
}
