use p1::math::vectors::{Vector2, Vector3};

fn pair<T: p1::math::vectors::Vectory>(v: Vector2<T>) -> (T, T) {
    (v.x, v.y)
}

fn triple<T: p1::math::vectors::Vectory>(v: Vector3<T>) -> (T, T, T) {
    (v.x, v.y, v.z)
}

#[test]
fn new_keeps_the_coordinates() {
    assert_eq!(pair(Vector2::new(3, -4)), (3, -4));
    assert_eq!(triple(Vector3::new(1u8, 2u8, 3u8)), (1, 2, 3));
    assert_eq!(pair(Vector2::new(0.5f64, 1.5f64)), (0.5, 1.5));
}

#[test]
fn vector2_arithmetic_is_by_coordinate() {
    let a = Vector2::new(1, 2);
    let b = Vector2::new(10, 20);
    assert_eq!(pair(a + b), (11, 22));
    assert_eq!(pair(b - a), (9, 18));
    assert_eq!(pair(a * b), (10, 40));
    assert_eq!(pair(a * 3), (3, 6));
}

#[test]
fn vector2_arithmetic_on_references() {
    let a = Vector2::new(5i64, 7i64);
    let b = Vector2::new(2i64, 3i64);
    assert_eq!(pair(&a + &b), (7, 10));
    assert_eq!(pair(&a + b), (7, 10));
    assert_eq!(pair(a + &b), (7, 10));
    assert_eq!(pair(&a - &b), (3, 4));
    assert_eq!(pair(&a - b), (3, 4));
    assert_eq!(pair(a - &b), (3, 4));
    assert_eq!(pair(&a * &b), (10, 21));
    assert_eq!(pair(&a * b), (10, 21));
    assert_eq!(pair(a * &b), (10, 21));
    assert_eq!(pair(&a * 2), (10, 14));
}

#[test]
fn vector3_arithmetic_is_by_coordinate() {
    let a = Vector3::new(1, 2, 3);
    let b = Vector3::new(4, 5, 6);
    assert_eq!(triple(a + b), (5, 7, 9));
    assert_eq!(triple(a - b), (-3, -3, -3));
    assert_eq!(triple(a * b), (4, 10, 18));
    assert_eq!(triple(a * 2), (2, 4, 6));
}

#[test]
fn vector3_arithmetic_on_references() {
    let a = Vector3::new(9u32, 8u32, 7u32);
    let b = Vector3::new(1u32, 2u32, 3u32);
    assert_eq!(triple(&a + &b), (10, 10, 10));
    assert_eq!(triple(&a + b), (10, 10, 10));
    assert_eq!(triple(a + &b), (10, 10, 10));
    assert_eq!(triple(&a - &b), (8, 6, 4));
    assert_eq!(triple(&a - b), (8, 6, 4));
    assert_eq!(triple(a - &b), (8, 6, 4));
    assert_eq!(triple(&a * &b), (9, 16, 21));
    assert_eq!(triple(&a * b), (9, 16, 21));
    assert_eq!(triple(a * &b), (9, 16, 21));
    assert_eq!(triple(&a * 3), (27, 24, 21));
}

#[test]
fn vectors_of_floats() {
    let a = Vector2::new(1.5f64, -2.0f64);
    let b = Vector2::new(0.5f64, 4.0f64);
    assert_eq!(pair(a + b), (2.0, 2.0));
    assert_eq!(pair(a - b), (1.0, -6.0));
    assert_eq!(pair(a * b), (0.75, -8.0));
    assert_eq!(pair(a * 2.0), (3.0, -4.0));
}
