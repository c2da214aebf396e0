//! Vectors of two and three coordinates, with arithmetic by coordinate.

use core::ops::{Add, Mul, Sub};
use vstd::prelude::*;
use vstd::std_specs::ops::{AddSpec, AddSpecImpl, MulSpec, MulSpecImpl, SubSpec, SubSpecImpl};

verus! {

/// What a coordinate must offer: it is copied freely and can be added,
/// subtracted and multiplied.
pub trait Vectory: Copy + Add<Output = Self> + Sub<Output = Self> + Mul<Output = Self> {

}

impl<T: Copy + Add<Output = T> + Sub<Output = T> + Mul<Output = T>> Vectory for T {

}

/// A vector of two coordinates.
#[derive(Clone, Copy)]
pub struct Vector2<T: Vectory> {
    pub x: T,
    pub y: T,
}

impl<T: Vectory> Vector2<T> {
    /// The vector with the coordinates `x` and `y`.
    pub fn new(x: T, y: T) -> (vector: Self)
        ensures
            vector == (Vector2 { x, y }),
    {
        Vector2 { x, y }
    }
}

/// A vector of three coordinates.
#[derive(Clone, Copy)]
pub struct Vector3<T: Vectory> {
    pub x: T,
    pub y: T,
    pub z: T,
}

impl<T: Vectory> Vector3<T> {
    /// The vector with the coordinates `x`, `y` and `z`.
    pub fn new(x: T, y: T, z: T) -> (vector: Self)
        ensures
            vector == (Vector3 { x, y, z }),
    {
        Vector3 { x, y, z }
    }
}

impl<T: Vectory> AddSpecImpl<Vector2<T>> for Vector2<T> {
    open spec fn obeys_add_spec() -> bool {
        T::obeys_add_spec()
    }

    open spec fn add_req(self, rhs: Vector2<T>) -> bool {
        self.x.add_req(rhs.x) && self.y.add_req(rhs.y)
    }

    open spec fn add_spec(self, rhs: Vector2<T>) -> Vector2<T> {
        Vector2 { x: self.x.add_spec(rhs.x), y: self.y.add_spec(rhs.y) }
    }
}

/// The sum of two vectors, coordinate by coordinate.
impl<T: Vectory> Add<Vector2<T>> for Vector2<T> {
    type Output = Vector2<T>;

    fn add(self, rhs: Vector2<T>) -> Vector2<T> {
        Vector2 { x: self.x + rhs.x, y: self.y + rhs.y }
    }
}

impl<'b, T: Vectory> AddSpecImpl<&'b Vector2<T>> for Vector2<T> {
    open spec fn obeys_add_spec() -> bool {
        T::obeys_add_spec()
    }

    open spec fn add_req(self, rhs: &'b Vector2<T>) -> bool {
        self.x.add_req(rhs.x) && self.y.add_req(rhs.y)
    }

    open spec fn add_spec(self, rhs: &'b Vector2<T>) -> Vector2<T> {
        Vector2 { x: self.x.add_spec(rhs.x), y: self.y.add_spec(rhs.y) }
    }
}

/// The sum of two vectors, coordinate by coordinate.
impl<'b, T: Vectory> Add<&'b Vector2<T>> for Vector2<T> {
    type Output = Vector2<T>;

    fn add(self, rhs: &'b Vector2<T>) -> Vector2<T> {
        Vector2 { x: self.x + rhs.x, y: self.y + rhs.y }
    }
}

impl<'a, T: Vectory> AddSpecImpl<Vector2<T>> for &'a Vector2<T> {
    open spec fn obeys_add_spec() -> bool {
        T::obeys_add_spec()
    }

    open spec fn add_req(self, rhs: Vector2<T>) -> bool {
        self.x.add_req(rhs.x) && self.y.add_req(rhs.y)
    }

    open spec fn add_spec(self, rhs: Vector2<T>) -> Vector2<T> {
        Vector2 { x: self.x.add_spec(rhs.x), y: self.y.add_spec(rhs.y) }
    }
}

/// The sum of two vectors, coordinate by coordinate.
impl<'a, T: Vectory> Add<Vector2<T>> for &'a Vector2<T> {
    type Output = Vector2<T>;

    fn add(self, rhs: Vector2<T>) -> Vector2<T> {
        Vector2 { x: self.x + rhs.x, y: self.y + rhs.y }
    }
}

impl<'a, 'b, T: Vectory> AddSpecImpl<&'b Vector2<T>> for &'a Vector2<T> {
    open spec fn obeys_add_spec() -> bool {
        T::obeys_add_spec()
    }

    open spec fn add_req(self, rhs: &'b Vector2<T>) -> bool {
        self.x.add_req(rhs.x) && self.y.add_req(rhs.y)
    }

    open spec fn add_spec(self, rhs: &'b Vector2<T>) -> Vector2<T> {
        Vector2 { x: self.x.add_spec(rhs.x), y: self.y.add_spec(rhs.y) }
    }
}

/// The sum of two vectors, coordinate by coordinate.
impl<'a, 'b, T: Vectory> Add<&'b Vector2<T>> for &'a Vector2<T> {
    type Output = Vector2<T>;

    fn add(self, rhs: &'b Vector2<T>) -> Vector2<T> {
        Vector2 { x: self.x + rhs.x, y: self.y + rhs.y }
    }
}

impl<T: Vectory> SubSpecImpl<Vector2<T>> for Vector2<T> {
    open spec fn obeys_sub_spec() -> bool {
        T::obeys_sub_spec()
    }

    open spec fn sub_req(self, rhs: Vector2<T>) -> bool {
        self.x.sub_req(rhs.x) && self.y.sub_req(rhs.y)
    }

    open spec fn sub_spec(self, rhs: Vector2<T>) -> Vector2<T> {
        Vector2 { x: self.x.sub_spec(rhs.x), y: self.y.sub_spec(rhs.y) }
    }
}

/// The difference of two vectors, coordinate by coordinate.
impl<T: Vectory> Sub<Vector2<T>> for Vector2<T> {
    type Output = Vector2<T>;

    fn sub(self, rhs: Vector2<T>) -> Vector2<T> {
        Vector2 { x: self.x - rhs.x, y: self.y - rhs.y }
    }
}

impl<'b, T: Vectory> SubSpecImpl<&'b Vector2<T>> for Vector2<T> {
    open spec fn obeys_sub_spec() -> bool {
        T::obeys_sub_spec()
    }

    open spec fn sub_req(self, rhs: &'b Vector2<T>) -> bool {
        self.x.sub_req(rhs.x) && self.y.sub_req(rhs.y)
    }

    open spec fn sub_spec(self, rhs: &'b Vector2<T>) -> Vector2<T> {
        Vector2 { x: self.x.sub_spec(rhs.x), y: self.y.sub_spec(rhs.y) }
    }
}

/// The difference of two vectors, coordinate by coordinate.
impl<'b, T: Vectory> Sub<&'b Vector2<T>> for Vector2<T> {
    type Output = Vector2<T>;

    fn sub(self, rhs: &'b Vector2<T>) -> Vector2<T> {
        Vector2 { x: self.x - rhs.x, y: self.y - rhs.y }
    }
}

impl<'a, T: Vectory> SubSpecImpl<Vector2<T>> for &'a Vector2<T> {
    open spec fn obeys_sub_spec() -> bool {
        T::obeys_sub_spec()
    }

    open spec fn sub_req(self, rhs: Vector2<T>) -> bool {
        self.x.sub_req(rhs.x) && self.y.sub_req(rhs.y)
    }

    open spec fn sub_spec(self, rhs: Vector2<T>) -> Vector2<T> {
        Vector2 { x: self.x.sub_spec(rhs.x), y: self.y.sub_spec(rhs.y) }
    }
}

/// The difference of two vectors, coordinate by coordinate.
impl<'a, T: Vectory> Sub<Vector2<T>> for &'a Vector2<T> {
    type Output = Vector2<T>;

    fn sub(self, rhs: Vector2<T>) -> Vector2<T> {
        Vector2 { x: self.x - rhs.x, y: self.y - rhs.y }
    }
}

impl<'a, 'b, T: Vectory> SubSpecImpl<&'b Vector2<T>> for &'a Vector2<T> {
    open spec fn obeys_sub_spec() -> bool {
        T::obeys_sub_spec()
    }

    open spec fn sub_req(self, rhs: &'b Vector2<T>) -> bool {
        self.x.sub_req(rhs.x) && self.y.sub_req(rhs.y)
    }

    open spec fn sub_spec(self, rhs: &'b Vector2<T>) -> Vector2<T> {
        Vector2 { x: self.x.sub_spec(rhs.x), y: self.y.sub_spec(rhs.y) }
    }
}

/// The difference of two vectors, coordinate by coordinate.
impl<'a, 'b, T: Vectory> Sub<&'b Vector2<T>> for &'a Vector2<T> {
    type Output = Vector2<T>;

    fn sub(self, rhs: &'b Vector2<T>) -> Vector2<T> {
        Vector2 { x: self.x - rhs.x, y: self.y - rhs.y }
    }
}

impl<T: Vectory> MulSpecImpl<Vector2<T>> for Vector2<T> {
    open spec fn obeys_mul_spec() -> bool {
        T::obeys_mul_spec()
    }

    open spec fn mul_req(self, rhs: Vector2<T>) -> bool {
        self.x.mul_req(rhs.x) && self.y.mul_req(rhs.y)
    }

    open spec fn mul_spec(self, rhs: Vector2<T>) -> Vector2<T> {
        Vector2 { x: self.x.mul_spec(rhs.x), y: self.y.mul_spec(rhs.y) }
    }
}

/// The product of two vectors, coordinate by coordinate.
impl<T: Vectory> Mul<Vector2<T>> for Vector2<T> {
    type Output = Vector2<T>;

    fn mul(self, rhs: Vector2<T>) -> Vector2<T> {
        Vector2 { x: self.x * rhs.x, y: self.y * rhs.y }
    }
}

impl<'b, T: Vectory> MulSpecImpl<&'b Vector2<T>> for Vector2<T> {
    open spec fn obeys_mul_spec() -> bool {
        T::obeys_mul_spec()
    }

    open spec fn mul_req(self, rhs: &'b Vector2<T>) -> bool {
        self.x.mul_req(rhs.x) && self.y.mul_req(rhs.y)
    }

    open spec fn mul_spec(self, rhs: &'b Vector2<T>) -> Vector2<T> {
        Vector2 { x: self.x.mul_spec(rhs.x), y: self.y.mul_spec(rhs.y) }
    }
}

/// The product of two vectors, coordinate by coordinate.
impl<'b, T: Vectory> Mul<&'b Vector2<T>> for Vector2<T> {
    type Output = Vector2<T>;

    fn mul(self, rhs: &'b Vector2<T>) -> Vector2<T> {
        Vector2 { x: self.x * rhs.x, y: self.y * rhs.y }
    }
}

impl<'a, T: Vectory> MulSpecImpl<Vector2<T>> for &'a Vector2<T> {
    open spec fn obeys_mul_spec() -> bool {
        T::obeys_mul_spec()
    }

    open spec fn mul_req(self, rhs: Vector2<T>) -> bool {
        self.x.mul_req(rhs.x) && self.y.mul_req(rhs.y)
    }

    open spec fn mul_spec(self, rhs: Vector2<T>) -> Vector2<T> {
        Vector2 { x: self.x.mul_spec(rhs.x), y: self.y.mul_spec(rhs.y) }
    }
}

/// The product of two vectors, coordinate by coordinate.
impl<'a, T: Vectory> Mul<Vector2<T>> for &'a Vector2<T> {
    type Output = Vector2<T>;

    fn mul(self, rhs: Vector2<T>) -> Vector2<T> {
        Vector2 { x: self.x * rhs.x, y: self.y * rhs.y }
    }
}

impl<'a, 'b, T: Vectory> MulSpecImpl<&'b Vector2<T>> for &'a Vector2<T> {
    open spec fn obeys_mul_spec() -> bool {
        T::obeys_mul_spec()
    }

    open spec fn mul_req(self, rhs: &'b Vector2<T>) -> bool {
        self.x.mul_req(rhs.x) && self.y.mul_req(rhs.y)
    }

    open spec fn mul_spec(self, rhs: &'b Vector2<T>) -> Vector2<T> {
        Vector2 { x: self.x.mul_spec(rhs.x), y: self.y.mul_spec(rhs.y) }
    }
}

/// The product of two vectors, coordinate by coordinate.
impl<'a, 'b, T: Vectory> Mul<&'b Vector2<T>> for &'a Vector2<T> {
    type Output = Vector2<T>;

    fn mul(self, rhs: &'b Vector2<T>) -> Vector2<T> {
        Vector2 { x: self.x * rhs.x, y: self.y * rhs.y }
    }
}

impl<T: Vectory> MulSpecImpl<T> for Vector2<T> {
    open spec fn obeys_mul_spec() -> bool {
        T::obeys_mul_spec()
    }

    open spec fn mul_req(self, rhs: T) -> bool {
        self.x.mul_req(rhs) && self.y.mul_req(rhs)
    }

    open spec fn mul_spec(self, rhs: T) -> Vector2<T> {
        Vector2 { x: self.x.mul_spec(rhs), y: self.y.mul_spec(rhs) }
    }
}

/// The vector with each coordinate multiplied with one number.
impl<T: Vectory> Mul<T> for Vector2<T> {
    type Output = Vector2<T>;

    fn mul(self, rhs: T) -> Vector2<T> {
        Vector2 { x: self.x * rhs, y: self.y * rhs }
    }
}

impl<'a, T: Vectory> MulSpecImpl<T> for &'a Vector2<T> {
    open spec fn obeys_mul_spec() -> bool {
        T::obeys_mul_spec()
    }

    open spec fn mul_req(self, rhs: T) -> bool {
        self.x.mul_req(rhs) && self.y.mul_req(rhs)
    }

    open spec fn mul_spec(self, rhs: T) -> Vector2<T> {
        Vector2 { x: self.x.mul_spec(rhs), y: self.y.mul_spec(rhs) }
    }
}

/// The vector with each coordinate multiplied with one number.
impl<'a, T: Vectory> Mul<T> for &'a Vector2<T> {
    type Output = Vector2<T>;

    fn mul(self, rhs: T) -> Vector2<T> {
        Vector2 { x: self.x * rhs, y: self.y * rhs }
    }
}

impl<T: Vectory> AddSpecImpl<Vector3<T>> for Vector3<T> {
    open spec fn obeys_add_spec() -> bool {
        T::obeys_add_spec()
    }

    open spec fn add_req(self, rhs: Vector3<T>) -> bool {
        self.x.add_req(rhs.x) && self.y.add_req(rhs.y) && self.z.add_req(rhs.z)
    }

    open spec fn add_spec(self, rhs: Vector3<T>) -> Vector3<T> {
        Vector3 { x: self.x.add_spec(rhs.x), y: self.y.add_spec(rhs.y), z: self.z.add_spec(rhs.z) }
    }
}

/// The sum of two vectors, coordinate by coordinate.
impl<T: Vectory> Add<Vector3<T>> for Vector3<T> {
    type Output = Vector3<T>;

    fn add(self, rhs: Vector3<T>) -> Vector3<T> {
        Vector3 { x: self.x + rhs.x, y: self.y + rhs.y, z: self.z + rhs.z }
    }
}

impl<'b, T: Vectory> AddSpecImpl<&'b Vector3<T>> for Vector3<T> {
    open spec fn obeys_add_spec() -> bool {
        T::obeys_add_spec()
    }

    open spec fn add_req(self, rhs: &'b Vector3<T>) -> bool {
        self.x.add_req(rhs.x) && self.y.add_req(rhs.y) && self.z.add_req(rhs.z)
    }

    open spec fn add_spec(self, rhs: &'b Vector3<T>) -> Vector3<T> {
        Vector3 { x: self.x.add_spec(rhs.x), y: self.y.add_spec(rhs.y), z: self.z.add_spec(rhs.z) }
    }
}

/// The sum of two vectors, coordinate by coordinate.
impl<'b, T: Vectory> Add<&'b Vector3<T>> for Vector3<T> {
    type Output = Vector3<T>;

    fn add(self, rhs: &'b Vector3<T>) -> Vector3<T> {
        Vector3 { x: self.x + rhs.x, y: self.y + rhs.y, z: self.z + rhs.z }
    }
}

impl<'a, T: Vectory> AddSpecImpl<Vector3<T>> for &'a Vector3<T> {
    open spec fn obeys_add_spec() -> bool {
        T::obeys_add_spec()
    }

    open spec fn add_req(self, rhs: Vector3<T>) -> bool {
        self.x.add_req(rhs.x) && self.y.add_req(rhs.y) && self.z.add_req(rhs.z)
    }

    open spec fn add_spec(self, rhs: Vector3<T>) -> Vector3<T> {
        Vector3 { x: self.x.add_spec(rhs.x), y: self.y.add_spec(rhs.y), z: self.z.add_spec(rhs.z) }
    }
}

/// The sum of two vectors, coordinate by coordinate.
impl<'a, T: Vectory> Add<Vector3<T>> for &'a Vector3<T> {
    type Output = Vector3<T>;

    fn add(self, rhs: Vector3<T>) -> Vector3<T> {
        Vector3 { x: self.x + rhs.x, y: self.y + rhs.y, z: self.z + rhs.z }
    }
}

impl<'a, 'b, T: Vectory> AddSpecImpl<&'b Vector3<T>> for &'a Vector3<T> {
    open spec fn obeys_add_spec() -> bool {
        T::obeys_add_spec()
    }

    open spec fn add_req(self, rhs: &'b Vector3<T>) -> bool {
        self.x.add_req(rhs.x) && self.y.add_req(rhs.y) && self.z.add_req(rhs.z)
    }

    open spec fn add_spec(self, rhs: &'b Vector3<T>) -> Vector3<T> {
        Vector3 { x: self.x.add_spec(rhs.x), y: self.y.add_spec(rhs.y), z: self.z.add_spec(rhs.z) }
    }
}

/// The sum of two vectors, coordinate by coordinate.
impl<'a, 'b, T: Vectory> Add<&'b Vector3<T>> for &'a Vector3<T> {
    type Output = Vector3<T>;

    fn add(self, rhs: &'b Vector3<T>) -> Vector3<T> {
        Vector3 { x: self.x + rhs.x, y: self.y + rhs.y, z: self.z + rhs.z }
    }
}

impl<T: Vectory> SubSpecImpl<Vector3<T>> for Vector3<T> {
    open spec fn obeys_sub_spec() -> bool {
        T::obeys_sub_spec()
    }

    open spec fn sub_req(self, rhs: Vector3<T>) -> bool {
        self.x.sub_req(rhs.x) && self.y.sub_req(rhs.y) && self.z.sub_req(rhs.z)
    }

    open spec fn sub_spec(self, rhs: Vector3<T>) -> Vector3<T> {
        Vector3 { x: self.x.sub_spec(rhs.x), y: self.y.sub_spec(rhs.y), z: self.z.sub_spec(rhs.z) }
    }
}

/// The difference of two vectors, coordinate by coordinate.
impl<T: Vectory> Sub<Vector3<T>> for Vector3<T> {
    type Output = Vector3<T>;

    fn sub(self, rhs: Vector3<T>) -> Vector3<T> {
        Vector3 { x: self.x - rhs.x, y: self.y - rhs.y, z: self.z - rhs.z }
    }
}

impl<'b, T: Vectory> SubSpecImpl<&'b Vector3<T>> for Vector3<T> {
    open spec fn obeys_sub_spec() -> bool {
        T::obeys_sub_spec()
    }

    open spec fn sub_req(self, rhs: &'b Vector3<T>) -> bool {
        self.x.sub_req(rhs.x) && self.y.sub_req(rhs.y) && self.z.sub_req(rhs.z)
    }

    open spec fn sub_spec(self, rhs: &'b Vector3<T>) -> Vector3<T> {
        Vector3 { x: self.x.sub_spec(rhs.x), y: self.y.sub_spec(rhs.y), z: self.z.sub_spec(rhs.z) }
    }
}

/// The difference of two vectors, coordinate by coordinate.
impl<'b, T: Vectory> Sub<&'b Vector3<T>> for Vector3<T> {
    type Output = Vector3<T>;

    fn sub(self, rhs: &'b Vector3<T>) -> Vector3<T> {
        Vector3 { x: self.x - rhs.x, y: self.y - rhs.y, z: self.z - rhs.z }
    }
}

impl<'a, T: Vectory> SubSpecImpl<Vector3<T>> for &'a Vector3<T> {
    open spec fn obeys_sub_spec() -> bool {
        T::obeys_sub_spec()
    }

    open spec fn sub_req(self, rhs: Vector3<T>) -> bool {
        self.x.sub_req(rhs.x) && self.y.sub_req(rhs.y) && self.z.sub_req(rhs.z)
    }

    open spec fn sub_spec(self, rhs: Vector3<T>) -> Vector3<T> {
        Vector3 { x: self.x.sub_spec(rhs.x), y: self.y.sub_spec(rhs.y), z: self.z.sub_spec(rhs.z) }
    }
}

/// The difference of two vectors, coordinate by coordinate.
impl<'a, T: Vectory> Sub<Vector3<T>> for &'a Vector3<T> {
    type Output = Vector3<T>;

    fn sub(self, rhs: Vector3<T>) -> Vector3<T> {
        Vector3 { x: self.x - rhs.x, y: self.y - rhs.y, z: self.z - rhs.z }
    }
}

impl<'a, 'b, T: Vectory> SubSpecImpl<&'b Vector3<T>> for &'a Vector3<T> {
    open spec fn obeys_sub_spec() -> bool {
        T::obeys_sub_spec()
    }

    open spec fn sub_req(self, rhs: &'b Vector3<T>) -> bool {
        self.x.sub_req(rhs.x) && self.y.sub_req(rhs.y) && self.z.sub_req(rhs.z)
    }

    open spec fn sub_spec(self, rhs: &'b Vector3<T>) -> Vector3<T> {
        Vector3 { x: self.x.sub_spec(rhs.x), y: self.y.sub_spec(rhs.y), z: self.z.sub_spec(rhs.z) }
    }
}

/// The difference of two vectors, coordinate by coordinate.
impl<'a, 'b, T: Vectory> Sub<&'b Vector3<T>> for &'a Vector3<T> {
    type Output = Vector3<T>;

    fn sub(self, rhs: &'b Vector3<T>) -> Vector3<T> {
        Vector3 { x: self.x - rhs.x, y: self.y - rhs.y, z: self.z - rhs.z }
    }
}

impl<T: Vectory> MulSpecImpl<Vector3<T>> for Vector3<T> {
    open spec fn obeys_mul_spec() -> bool {
        T::obeys_mul_spec()
    }

    open spec fn mul_req(self, rhs: Vector3<T>) -> bool {
        self.x.mul_req(rhs.x) && self.y.mul_req(rhs.y) && self.z.mul_req(rhs.z)
    }

    open spec fn mul_spec(self, rhs: Vector3<T>) -> Vector3<T> {
        Vector3 { x: self.x.mul_spec(rhs.x), y: self.y.mul_spec(rhs.y), z: self.z.mul_spec(rhs.z) }
    }
}

/// The product of two vectors, coordinate by coordinate.
impl<T: Vectory> Mul<Vector3<T>> for Vector3<T> {
    type Output = Vector3<T>;

    fn mul(self, rhs: Vector3<T>) -> Vector3<T> {
        Vector3 { x: self.x * rhs.x, y: self.y * rhs.y, z: self.z * rhs.z }
    }
}

impl<'b, T: Vectory> MulSpecImpl<&'b Vector3<T>> for Vector3<T> {
    open spec fn obeys_mul_spec() -> bool {
        T::obeys_mul_spec()
    }

    open spec fn mul_req(self, rhs: &'b Vector3<T>) -> bool {
        self.x.mul_req(rhs.x) && self.y.mul_req(rhs.y) && self.z.mul_req(rhs.z)
    }

    open spec fn mul_spec(self, rhs: &'b Vector3<T>) -> Vector3<T> {
        Vector3 { x: self.x.mul_spec(rhs.x), y: self.y.mul_spec(rhs.y), z: self.z.mul_spec(rhs.z) }
    }
}

/// The product of two vectors, coordinate by coordinate.
impl<'b, T: Vectory> Mul<&'b Vector3<T>> for Vector3<T> {
    type Output = Vector3<T>;

    fn mul(self, rhs: &'b Vector3<T>) -> Vector3<T> {
        Vector3 { x: self.x * rhs.x, y: self.y * rhs.y, z: self.z * rhs.z }
    }
}

impl<'a, T: Vectory> MulSpecImpl<Vector3<T>> for &'a Vector3<T> {
    open spec fn obeys_mul_spec() -> bool {
        T::obeys_mul_spec()
    }

    open spec fn mul_req(self, rhs: Vector3<T>) -> bool {
        self.x.mul_req(rhs.x) && self.y.mul_req(rhs.y) && self.z.mul_req(rhs.z)
    }

    open spec fn mul_spec(self, rhs: Vector3<T>) -> Vector3<T> {
        Vector3 { x: self.x.mul_spec(rhs.x), y: self.y.mul_spec(rhs.y), z: self.z.mul_spec(rhs.z) }
    }
}

/// The product of two vectors, coordinate by coordinate.
impl<'a, T: Vectory> Mul<Vector3<T>> for &'a Vector3<T> {
    type Output = Vector3<T>;

    fn mul(self, rhs: Vector3<T>) -> Vector3<T> {
        Vector3 { x: self.x * rhs.x, y: self.y * rhs.y, z: self.z * rhs.z }
    }
}

impl<'a, 'b, T: Vectory> MulSpecImpl<&'b Vector3<T>> for &'a Vector3<T> {
    open spec fn obeys_mul_spec() -> bool {
        T::obeys_mul_spec()
    }

    open spec fn mul_req(self, rhs: &'b Vector3<T>) -> bool {
        self.x.mul_req(rhs.x) && self.y.mul_req(rhs.y) && self.z.mul_req(rhs.z)
    }

    open spec fn mul_spec(self, rhs: &'b Vector3<T>) -> Vector3<T> {
        Vector3 { x: self.x.mul_spec(rhs.x), y: self.y.mul_spec(rhs.y), z: self.z.mul_spec(rhs.z) }
    }
}

/// The product of two vectors, coordinate by coordinate.
impl<'a, 'b, T: Vectory> Mul<&'b Vector3<T>> for &'a Vector3<T> {
    type Output = Vector3<T>;

    fn mul(self, rhs: &'b Vector3<T>) -> Vector3<T> {
        Vector3 { x: self.x * rhs.x, y: self.y * rhs.y, z: self.z * rhs.z }
    }
}

impl<T: Vectory> MulSpecImpl<T> for Vector3<T> {
    open spec fn obeys_mul_spec() -> bool {
        T::obeys_mul_spec()
    }

    open spec fn mul_req(self, rhs: T) -> bool {
        self.x.mul_req(rhs) && self.y.mul_req(rhs) && self.z.mul_req(rhs)
    }

    open spec fn mul_spec(self, rhs: T) -> Vector3<T> {
        Vector3 { x: self.x.mul_spec(rhs), y: self.y.mul_spec(rhs), z: self.z.mul_spec(rhs) }
    }
}

/// The vector with each coordinate multiplied with one number.
impl<T: Vectory> Mul<T> for Vector3<T> {
    type Output = Vector3<T>;

    fn mul(self, rhs: T) -> Vector3<T> {
        Vector3 { x: self.x * rhs, y: self.y * rhs, z: self.z * rhs }
    }
}

impl<'a, T: Vectory> MulSpecImpl<T> for &'a Vector3<T> {
    open spec fn obeys_mul_spec() -> bool {
        T::obeys_mul_spec()
    }

    open spec fn mul_req(self, rhs: T) -> bool {
        self.x.mul_req(rhs) && self.y.mul_req(rhs) && self.z.mul_req(rhs)
    }

    open spec fn mul_spec(self, rhs: T) -> Vector3<T> {
        Vector3 { x: self.x.mul_spec(rhs), y: self.y.mul_spec(rhs), z: self.z.mul_spec(rhs) }
    }
}

/// The vector with each coordinate multiplied with one number.
impl<'a, T: Vectory> Mul<T> for &'a Vector3<T> {
    type Output = Vector3<T>;

    fn mul(self, rhs: T) -> Vector3<T> {
        Vector3 { x: self.x * rhs, y: self.y * rhs, z: self.z * rhs }
    }
}

} // verus!
