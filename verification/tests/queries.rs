use p1::ecs::component::Component;
use p1::ecs::error::EcsError;
use p1::ecs::scene::Scene;
use p1::ecs::system::{match_types, System};
use std::any::TypeId;

struct Position;

impl Component for Position {
    fn get_entity_id(&self) -> usize {
        0
    }
}

struct Velocity;

impl Component for Velocity {
    fn get_entity_id(&self) -> usize {
        0
    }
}

struct Health;

impl Component for Health {
    fn get_entity_id(&self) -> usize {
        0
    }
}

struct Movers;

impl System<Position, Velocity> for Movers {}

struct Placed;

impl System<Position> for Placed {}

fn wide_types() -> Vec<TypeId> {
    vec![
        TypeId::of::<[u8; 0]>(), TypeId::of::<[u8; 1]>(), TypeId::of::<[u8; 2]>(), TypeId::of::<[u8; 3]>(),
        TypeId::of::<[u8; 4]>(), TypeId::of::<[u8; 5]>(), TypeId::of::<[u8; 6]>(), TypeId::of::<[u8; 7]>(),
        TypeId::of::<[u8; 8]>(), TypeId::of::<[u8; 9]>(), TypeId::of::<[u8; 10]>(), TypeId::of::<[u8; 11]>(),
        TypeId::of::<[u8; 12]>(), TypeId::of::<[u8; 13]>(), TypeId::of::<[u8; 14]>(), TypeId::of::<[u8; 15]>(),
        TypeId::of::<[u8; 16]>(), TypeId::of::<[u8; 17]>(), TypeId::of::<[u8; 18]>(), TypeId::of::<[u8; 19]>(),
        TypeId::of::<[u8; 20]>(), TypeId::of::<[u8; 21]>(), TypeId::of::<[u8; 22]>(), TypeId::of::<[u8; 23]>(),
        TypeId::of::<[u8; 24]>(), TypeId::of::<[u8; 25]>(), TypeId::of::<[u8; 26]>(), TypeId::of::<[u8; 27]>(),
        TypeId::of::<[u8; 28]>(), TypeId::of::<[u8; 29]>(), TypeId::of::<[u8; 30]>(), TypeId::of::<[u8; 31]>(),
        TypeId::of::<[u16; 0]>(), TypeId::of::<[u16; 1]>(), TypeId::of::<[u16; 2]>(), TypeId::of::<[u16; 3]>(),
        TypeId::of::<[u16; 4]>(), TypeId::of::<[u16; 5]>(), TypeId::of::<[u16; 6]>(), TypeId::of::<[u16; 7]>(),
        TypeId::of::<[u16; 8]>(), TypeId::of::<[u16; 9]>(), TypeId::of::<[u16; 10]>(), TypeId::of::<[u16; 11]>(),
        TypeId::of::<[u16; 12]>(), TypeId::of::<[u16; 13]>(), TypeId::of::<[u16; 14]>(), TypeId::of::<[u16; 15]>(),
        TypeId::of::<[u16; 16]>(), TypeId::of::<[u16; 17]>(), TypeId::of::<[u16; 18]>(), TypeId::of::<[u16; 19]>(),
        TypeId::of::<[u16; 20]>(), TypeId::of::<[u16; 21]>(), TypeId::of::<[u16; 22]>(), TypeId::of::<[u16; 23]>(),
        TypeId::of::<[u16; 24]>(), TypeId::of::<[u16; 25]>(), TypeId::of::<[u16; 26]>(), TypeId::of::<[u16; 27]>(),
        TypeId::of::<[u16; 28]>(), TypeId::of::<[u16; 29]>(), TypeId::of::<[u16; 30]>(), TypeId::of::<[u16; 31]>(),
    ]
}

#[test]
fn position_and_velocity_scenario() {
    let mut scene: Scene<u32> = Scene::new();
    let e0 = scene.create_entity();
    let e1 = scene.create_entity();
    let e2 = scene.create_entity();
    assert_eq!((e0, e1, e2), (0, 1, 2));
    scene.add_component::<Position>(e0, 10).unwrap();
    scene.add_component::<Position>(e2, 12).unwrap();
    scene.add_component::<Velocity>(e1, 21).unwrap();

    let position_only = scene.required_mask(&vec![TypeId::of::<Position>()]).unwrap();
    assert_eq!(scene.query(position_only), vec![0, 2]);

    let both = scene
        .required_mask(&vec![TypeId::of::<Position>(), TypeId::of::<Velocity>()])
        .unwrap();
    assert_eq!(scene.query(both), Vec::<usize>::new());
}

#[test]
fn query_for_two_of_three_types() {
    let mut scene: Scene<u32> = Scene::new();
    let e = scene.create_entity();
    let t1 = TypeId::of::<Position>();
    let t2 = TypeId::of::<Velocity>();
    let t3 = TypeId::of::<Health>();
    assert_eq!(scene.type_index(t1), Ok(0));
    assert_eq!(scene.type_index(t2), Ok(1));
    assert_eq!(scene.type_index(t3), Ok(2));
    scene.add_component_by_type(e, t1, 1).unwrap();
    scene.add_component_by_type(e, t3, 3).unwrap();
    let mask = scene.mask_of(e).unwrap();
    assert_eq!(mask, 0b101);
    assert_eq!(match_types(&mut scene, &vec![t1, t3], mask), Ok(true));
    assert_eq!(match_types(&mut scene, &vec![t1, t2], mask), Ok(false));
    assert_eq!(match_types(&mut scene, &vec![t3], mask), Ok(true));
    assert_eq!(match_types(&mut scene, &vec![t2], mask), Ok(false));
    assert_eq!(match_types(&mut scene, &Vec::new(), mask), Ok(true));
    assert_eq!(match_types(&mut scene, &Vec::new(), 0), Ok(true));
}

#[test]
fn required_mask_has_one_bit_per_type() {
    let mut scene: Scene<u32> = Scene::new();
    let t1 = TypeId::of::<Position>();
    let t2 = TypeId::of::<Velocity>();
    let t3 = TypeId::of::<Health>();
    assert_eq!(scene.required_mask(&Vec::new()), Ok(0));
    assert_eq!(scene.required_mask(&vec![t1]), Ok(0b1));
    assert_eq!(scene.required_mask(&vec![t3, t1]), Ok(0b11));
    assert_eq!(scene.required_mask(&vec![t2]), Ok(0b100));
    assert_eq!(scene.required_mask(&vec![t2, t2, t1, t2]), Ok(0b101));
    assert_eq!(scene.type_index(t3), Ok(1));
}

#[test]
fn empty_query_returns_every_live_entity() {
    let mut scene: Scene<u32> = Scene::new();
    for _ in 0..4 {
        scene.create_entity();
    }
    scene.add_component::<Position>(1, 5).unwrap();
    scene.remove_entity(2).unwrap();
    let none = scene.required_mask(&Vec::new()).unwrap();
    assert_eq!(none, 0);
    assert_eq!(scene.query(none), vec![0, 1, 3]);
}

#[test]
fn query_follows_adds_and_removes() {
    let mut scene: Scene<u32> = Scene::new();
    for _ in 0..3 {
        scene.create_entity();
    }
    let position = TypeId::of::<Position>();
    let required = scene.required_mask(&vec![position]).unwrap();
    assert_eq!(scene.query(required), Vec::<usize>::new());
    scene.add_component_by_type(2, position, 1).unwrap();
    scene.add_component_by_type(0, position, 1).unwrap();
    assert_eq!(scene.query(required), vec![0, 2]);
    scene.remove_component_by_type(0, position).unwrap();
    assert_eq!(scene.query(required), vec![2]);
    scene.remove_entity(2).unwrap();
    assert_eq!(scene.query(required), Vec::<usize>::new());
}

#[test]
fn system_with_one_type_asks_for_one_bit() {
    let mut scene: Scene<u32> = Scene::new();
    let e = scene.create_entity();
    scene.add_component::<Position>(e, 1).unwrap();
    let mask = scene.mask_of(e).unwrap();
    assert_eq!(Placed::match_entity(&mut scene, mask), Ok(true));
    assert_eq!(Placed::match_entity(&mut scene, 0), Ok(false));
    assert_eq!(scene.type_index(TypeId::of::<Velocity>()), Ok(1));
}

#[test]
fn system_with_two_types_asks_for_both() {
    let mut scene: Scene<u32> = Scene::new();
    let a = scene.create_entity();
    let b = scene.create_entity();
    scene.add_component::<Position>(a, 1).unwrap();
    scene.add_component::<Position>(b, 1).unwrap();
    scene.add_component::<Velocity>(b, 2).unwrap();
    let mask_a = scene.mask_of(a).unwrap();
    let mask_b = scene.mask_of(b).unwrap();
    assert_eq!(Movers::match_entity(&mut scene, mask_a), Ok(false));
    assert_eq!(Movers::match_entity(&mut scene, mask_b), Ok(true));
    assert_eq!(Placed::match_entity(&mut scene, mask_a), Ok(true));
    assert_eq!(Placed::match_entity(&mut scene, mask_b), Ok(true));
}

#[test]
fn query_registers_the_types_it_sees_first() {
    let mut scene: Scene<u32> = Scene::new();
    assert_eq!(Movers::match_entity(&mut scene, 0), Ok(false));
    assert_eq!(scene.type_index(TypeId::of::<Velocity>()), Ok(1));
    assert_eq!(scene.type_index(TypeId::of::<Position>()), Ok(0));
    assert_eq!(scene.type_index(TypeId::of::<Health>()), Ok(2));
}

#[test]
fn scene_refuses_a_type_beyond_the_mask_width() {
    let mut scene: Scene<u32> = Scene::new();
    let e = scene.create_entity();
    let width = usize::BITS as usize;
    let types = wide_types();
    for ty in types.iter().take(width) {
        assert_eq!(scene.add_component_by_type(e, *ty, 1), Ok(()));
    }
    assert_eq!(scene.mask_of(e), Some(usize::MAX));
    let extra = TypeId::of::<Health>();
    assert_eq!(scene.type_index(extra), Err(EcsError::TypeLimitExceeded));
    assert_eq!(scene.add_component_by_type(e, extra, 1), Err(EcsError::TypeLimitExceeded));
    assert_eq!(scene.remove_component_by_type(e, extra), Err(EcsError::TypeLimitExceeded));
    assert_eq!(scene.get_component_by_type(e, extra), None);
    assert_eq!(scene.required_mask(&vec![types[0], extra]), Err(EcsError::TypeLimitExceeded));
    assert_eq!(match_types(&mut scene, &vec![extra], usize::MAX), Err(EcsError::TypeLimitExceeded));
    assert_eq!(scene.mask_of(e), Some(usize::MAX));
    assert_eq!(scene.required_mask(&vec![types[0], types[2]]), Ok(0b101));
    assert_eq!(scene.remove_component_by_type(e, types[1]), Ok(()));
    assert_eq!(scene.mask_of(e), Some(usize::MAX - 2));
}
