//! Vectors of three components.

use crate::arith::Arith;
use crate::scalar::Scalar;
use vstd::prelude::*;

verus! {

/// A vector of three components: a position, a direction or a scale.
#[derive(Clone, Copy, Debug, PartialEq, Eq)]
pub struct Vector3<T> {
    pub x: T,
    pub y: T,
    pub z: T,
}

impl<T: Arith> Vector3<T> {
    /// The vector with every component zero.
    pub open spec fn origin() -> Self {
        Vector3 { x: T::zero(), y: T::zero(), z: T::zero() }
    }

    /// The vector with every component one.
    pub open spec fn ones() -> Self {
        Vector3 { x: T::one(), y: T::one(), z: T::one() }
    }

    /// The unit vector along x.
    pub open spec fn axis_x() -> Self {
        Vector3 { x: T::one(), y: T::zero(), z: T::zero() }
    }

    /// The unit vector along y.
    pub open spec fn axis_y() -> Self {
        Vector3 { x: T::zero(), y: T::one(), z: T::zero() }
    }

    /// The unit vector along z.
    pub open spec fn axis_z() -> Self {
        Vector3 { x: T::zero(), y: T::zero(), z: T::one() }
    }

    /// Component by component, `self + rhs`.
    pub open spec fn sum(self, rhs: Self) -> Self {
        Vector3 { x: self.x.plus(rhs.x), y: self.y.plus(rhs.y), z: self.z.plus(rhs.z) }
    }

    /// Component by component, `self - rhs`.
    pub open spec fn difference(self, rhs: Self) -> Self {
        Vector3 { x: self.x.minus(rhs.x), y: self.y.minus(rhs.y), z: self.z.minus(rhs.z) }
    }

    /// Every component times `k`.
    pub open spec fn scaled(self, k: T) -> Self {
        Vector3 { x: self.x.times(k), y: self.y.times(k), z: self.z.times(k) }
    }

    /// Every component divided by `k`.
    pub open spec fn unscaled(self, k: T) -> Self {
        Vector3 { x: self.x.over(k), y: self.y.over(k), z: self.z.over(k) }
    }

    /// Every component with the opposite sign.
    pub open spec fn negated(self) -> Self {
        Vector3 { x: self.x.opposite(), y: self.y.opposite(), z: self.z.opposite() }
    }

    /// Component by component, `self * rhs`.
    pub open spec fn hadamard(self, rhs: Self) -> Self {
        Vector3 { x: self.x.times(rhs.x), y: self.y.times(rhs.y), z: self.z.times(rhs.z) }
    }

    /// The cross product `self x rhs`.
    pub open spec fn cross(self, rhs: Self) -> Self {
        Vector3 {
            x: self.y.times(rhs.z).minus(self.z.times(rhs.y)),
            y: self.z.times(rhs.x).minus(self.x.times(rhs.z)),
            z: self.x.times(rhs.y).minus(self.y.times(rhs.x)),
        }
    }

    /// The dot product, summed from x to z.
    pub open spec fn dot(self, rhs: Self) -> T {
        self.x.times(rhs.x).plus(self.y.times(rhs.y)).plus(self.z.times(rhs.z))
    }

    /// The square of the length.
    pub open spec fn norm_squared(self) -> T {
        self.dot(self)
    }

    /// The length.
    pub open spec fn norm(self) -> T {
        self.norm_squared().root()
    }

    /// The vector divided by its length.
    pub open spec fn normalized(self) -> Self {
        self.unscaled(self.norm())
    }
}

impl Vector3<Scalar> {
    /// The vector with the given components.
    pub fn new(x: Scalar, y: Scalar, z: Scalar) -> (r: Self)
        ensures
            r == (Vector3 { x, y, z }),
    {
        Vector3 { x, y, z }
    }

    /// The vector with every component zero.
    pub fn zeros() -> (r: Self)
        ensures
            r == Self::origin(),
    {
        Vector3 { x: Scalar::new_zero(), y: Scalar::new_zero(), z: Scalar::new_zero() }
    }

    /// The vector with every component `value`.
    pub fn from_element(value: Scalar) -> (r: Self)
        ensures
            r == (Vector3 { x: value, y: value, z: value }),
    {
        Vector3 { x: value, y: value, z: value }
    }

    /// The unit vector along x.
    pub fn x_axis() -> (r: Self)
        ensures
            r == Self::axis_x(),
    {
        Vector3 { x: Scalar::new_one(), y: Scalar::new_zero(), z: Scalar::new_zero() }
    }

    /// The unit vector along y.
    pub fn y_axis() -> (r: Self)
        ensures
            r == Self::axis_y(),
    {
        Vector3 { x: Scalar::new_zero(), y: Scalar::new_one(), z: Scalar::new_zero() }
    }

    /// The unit vector along z.
    pub fn z_axis() -> (r: Self)
        ensures
            r == Self::axis_z(),
    {
        Vector3 { x: Scalar::new_zero(), y: Scalar::new_zero(), z: Scalar::new_one() }
    }

    /// Component by component, `self + rhs`.
    pub fn add(&self, rhs: &Self) -> (r: Self)
        ensures
            r == self.sum(*rhs),
    {
        Vector3 { x: self.x.add(rhs.x), y: self.y.add(rhs.y), z: self.z.add(rhs.z) }
    }

    /// Component by component, `self - rhs`.
    pub fn sub(&self, rhs: &Self) -> (r: Self)
        ensures
            r == self.difference(*rhs),
    {
        Vector3 { x: self.x.sub(rhs.x), y: self.y.sub(rhs.y), z: self.z.sub(rhs.z) }
    }

    /// Every component times `k`.
    pub fn scale(&self, k: Scalar) -> (r: Self)
        ensures
            r == self.scaled(k),
    {
        Vector3 { x: self.x.mul(k), y: self.y.mul(k), z: self.z.mul(k) }
    }

    /// Every component divided by `k`.
    pub fn unscale(&self, k: Scalar) -> (r: Self)
        ensures
            r == self.unscaled(k),
    {
        Vector3 { x: self.x.div(k), y: self.y.div(k), z: self.z.div(k) }
    }

    /// Every component with the opposite sign.
    pub fn neg(&self) -> (r: Self)
        ensures
            r == self.negated(),
    {
        Vector3 { x: self.x.neg(), y: self.y.neg(), z: self.z.neg() }
    }

    /// Component by component, `self * rhs`.
    pub fn component_mul(&self, rhs: &Self) -> (r: Self)
        ensures
            r == self.hadamard(*rhs),
    {
        Vector3 { x: self.x.mul(rhs.x), y: self.y.mul(rhs.y), z: self.z.mul(rhs.z) }
    }

    /// The cross product `self x rhs`.
    pub fn cross_product(&self, rhs: &Self) -> (r: Self)
        ensures
            r == self.cross(*rhs),
    {
        Vector3 {
            x: self.y.mul(rhs.z).sub(self.z.mul(rhs.y)),
            y: self.z.mul(rhs.x).sub(self.x.mul(rhs.z)),
            z: self.x.mul(rhs.y).sub(self.y.mul(rhs.x)),
        }
    }

    /// The dot product.
    pub fn dot_product(&self, rhs: &Self) -> (r: Scalar)
        ensures
            r == self.dot(*rhs),
    {
        self.x.mul(rhs.x).add(self.y.mul(rhs.y)).add(self.z.mul(rhs.z))
    }

    /// The length.
    pub fn length(&self) -> (r: Scalar)
        ensures
            r == self.norm(),
    {
        self.dot_product(self).sqrt()
    }

    /// The vector divided by its length. Of the zero vector every component
    /// comes out a NaN.
    pub fn normalize(&self) -> (r: Self)
        ensures
            r == self.normalized(),
    {
        self.unscale(self.length())
    }
}

} // verus!
