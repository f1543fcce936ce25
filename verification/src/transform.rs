//! The local transform of a scene-graph node.

use crate::arith::Arith;
use crate::isometry::Isometry;
use crate::matrix::Matrix4;
use crate::quaternion::Quaternion;
use crate::scalar::Scalar;
use crate::vector::Vector3;
use vstd::prelude::*;

verus! {

/// What a transform says of a node: scale first, then rotate, then
/// translate. This is a [`Transform`] without its cached matrix.
#[derive(Clone, Copy, Debug, PartialEq, Eq)]
pub struct Pose<T> {
    /// The rotation, a unit quaternion, and the translation after it.
    pub isometry: Isometry<T>,
    /// The factors by which the three axes are scaled before that.
    pub scale: Vector3<T>,
}

impl<T: Arith> Pose<T> {
    /// The pose that changes nothing: no translation, no rotation, scale 1.
    pub open spec fn identity() -> Self {
        Pose { isometry: Isometry::identity(), scale: Vector3::ones() }
    }

    /// The pose at `translation`, with identity rotation and scale 1.
    pub open spec fn at(translation: Vector3<T>) -> Self {
        Pose {
            isometry: Isometry { rotation: Quaternion::identity(), translation },
            scale: Vector3::ones(),
        }
    }

    /// This pose with another translation.
    pub open spec fn with_translation(self, translation: Vector3<T>) -> Self {
        Pose {
            isometry: Isometry { rotation: self.isometry.rotation, translation },
            scale: self.scale,
        }
    }

    /// This pose with another rotation.
    pub open spec fn with_rotation(self, rotation: Quaternion<T>) -> Self {
        Pose {
            isometry: Isometry { rotation, translation: self.isometry.translation },
            scale: self.scale,
        }
    }

    /// Moved by `v` along the axes of the parent: `v` is added as it is.
    pub open spec fn prepend_translation(self, v: Vector3<T>) -> Self {
        self.with_translation(self.isometry.translation.sum(v))
    }

    /// Moved by `v` along the node's own axes: `v` is turned by the current
    /// rotation, then added.
    pub open spec fn append_translation(self, v: Vector3<T>) -> Self {
        self.with_translation(self.isometry.translation.sum(self.isometry.rotation.rotated(v)))
    }

    /// Moved by `distance` along `direction`, taken in the parent's frame.
    pub open spec fn prepend_translation_along(self, direction: Vector3<T>, distance: T) -> Self {
        self.with_translation(self.isometry.translation.sum(direction.scaled(distance)))
    }

    /// Moved by `distance` along `direction`, taken in the node's own frame.
    pub open spec fn append_translation_along(self, direction: Vector3<T>, distance: T) -> Self {
        self.with_translation(
            self.isometry.translation.sum(
                self.isometry.rotation.rotated(direction).scaled(distance),
            ),
        )
    }

    /// Turned by `delta` in the parent's frame: `delta * rotation`.
    pub open spec fn prepend_rotation(self, delta: Quaternion<T>) -> Self {
        self.with_rotation(delta.product(self.isometry.rotation))
    }

    /// Turned by `delta` in the node's own frame: `rotation * delta`.
    pub open spec fn append_rotation(self, delta: Quaternion<T>) -> Self {
        self.with_rotation(self.isometry.rotation.product(delta))
    }

    /// Turned so that the local z axis points from `target` to the node's
    /// position, with `up` above it.
    pub open spec fn face_towards(self, target: Vector3<T>, up: Vector3<T>) -> Self {
        self.with_rotation(Quaternion::facing(self.isometry.translation.difference(target), up))
    }

    /// `other`, a child's pose in the frame of `self`, expressed in the frame
    /// that `self` is expressed in. The translation is computed from the
    /// rotation and the scale of `self` as they are before the step.
    pub open spec fn concat(self, other: Self) -> Self {
        Pose {
            isometry: Isometry {
                rotation: self.isometry.rotation.product(other.isometry.rotation),
                translation: self.isometry.translation.sum(
                    self.isometry.rotation.rotated(other.isometry.translation.hadamard(self.scale)),
                ),
            },
            scale: self.scale.hadamard(other.scale),
        }
    }

    /// The matrix `T R S`: the scaling, then the rotation, then the
    /// translation.
    pub open spec fn matrix(self) -> Matrix4<T> {
        self.isometry.homogeneous().columns_scaled(self.scale)
    }

    /// The reciprocals of the three scale factors.
    pub open spec fn inverse_scale(self) -> Vector3<T> {
        Vector3 {
            x: T::one().over(self.scale.x),
            y: T::one().over(self.scale.y),
            z: T::one().over(self.scale.z),
        }
    }

    /// The inverse of [`Pose::matrix`], from the inverse of the rigid motion
    /// and the reciprocals of the scale factors.
    pub open spec fn view_matrix(self) -> Matrix4<T> {
        self.isometry.inverse().homogeneous().rows_scaled(self.inverse_scale())
    }
}

impl Pose<Scalar> {
    /// Turned about `axis`, a unit vector of the parent's frame, by `angle`
    /// radians.
    pub open spec fn prepend_rotation_about(self, axis: Vector3<Scalar>, angle: Scalar) -> Self {
        self.prepend_rotation(Quaternion::axis_angle(axis, angle))
    }

    /// Turned about `axis`, a unit vector of the node's own frame, by `angle`
    /// radians.
    pub open spec fn append_rotation_about(self, axis: Vector3<Scalar>, angle: Scalar) -> Self {
        self.append_rotation(Quaternion::axis_angle(axis, angle))
    }

    /// With the rotation of the Euler angles `x`, `y`, `z`, in radians, applied
    /// in that order, in place of the current one.
    pub open spec fn set_rotation_euler(self, x: Scalar, y: Scalar, z: Scalar) -> Self {
        self.with_rotation(Quaternion::euler_angles(x, y, z))
    }
}

/// Local position, rotation and scale of a node, relative to its parent if
/// it has one, and a place for the world matrix that a traversal of the
/// scene graph computes for it.
///
/// The rotation is meant to be a unit quaternion. Nothing here restores the
/// norm: each operation hands on what it is given.
#[derive(Clone, Debug, PartialEq, Eq)]
pub struct Transform {
    /// Translation and rotation.
    pub isometry: Isometry<Scalar>,
    /// Scale, applied before the rotation.
    pub scale: Vector3<Scalar>,
    /// The world matrix of the node, as the last traversal left it. No
    /// operation of this type reads it but [`Transform::is_finite`], and none
    /// writes it.
    pub global_matrix: Matrix4<Scalar>,
}

impl View for Transform {
    type V = Pose<Scalar>;

    open spec fn view(&self) -> Pose<Scalar> {
        Pose { isometry: self.isometry, scale: self.scale }
    }
}

impl Transform {
    /// This transform with `pose` in place of its own, the cached matrix
    /// untouched.
    pub open spec fn with_pose(self, pose: Pose<Scalar>) -> Transform {
        Transform { isometry: pose.isometry, scale: pose.scale, global_matrix: self.global_matrix }
    }

    /// The transform with the given pose and the identity as its cached
    /// matrix.
    pub open spec fn fresh(pose: Pose<Scalar>) -> Transform {
        Transform {
            isometry: pose.isometry,
            scale: pose.scale,
            global_matrix: Matrix4::identity(),
        }
    }

    /// A transform from its parts. `rotation` is to be a unit quaternion; it
    /// is taken as it is.
    pub fn new(
        position: Vector3<Scalar>,
        rotation: Quaternion<Scalar>,
        scale: Vector3<Scalar>,
    ) -> (r: Self)
        ensures
            r == Self::fresh(
                Pose { isometry: Isometry { rotation, translation: position }, scale },
            ),
    {
        Transform {
            isometry: Isometry::from_parts(position, rotation),
            scale,
            global_matrix: Matrix4::one(),
        }
    }

    /// Turns the node so that it looks at `target`, with `up` saying where
    /// its top goes. If `up` is parallel to the direction of `target`, the
    /// rotation that comes out is no rotation.
    pub fn face_towards(&mut self, target: Vector3<Scalar>, up: Vector3<Scalar>) -> (ret: &mut Self)
        ensures
            *ret == old(self).with_pose(old(self)@.face_towards(target, up)),
            *final(self) == *final(ret),
    {
        self.isometry.rotation =
        Quaternion::face_towards(&self.isometry.translation.sub(&target), &up);
        self
    }

    /// The local matrix of the node: scale, then rotation, then translation.
    /// It is computed anew at each call.
    pub fn matrix(&self) -> (r: Matrix4<Scalar>)
        ensures
            r == self@.matrix(),
    {
        self.isometry.to_homogeneous().prepend_nonuniform_scaling(&self.scale)
    }

    /// The translation.
    pub fn translation(&self) -> (r: &Vector3<Scalar>)
        ensures
            *r == self.isometry.translation,
    {
        &self.isometry.translation
    }

    /// The translation, to be written.
    pub fn translation_mut(&mut self) -> (ret: &mut Vector3<Scalar>)
        ensures
            *ret == old(self).isometry.translation,
            *final(self) == old(self).with_pose(old(self)@.with_translation(*final(ret))),
    {
        &mut self.isometry.translation
    }

    /// The rotation.
    pub fn rotation(&self) -> (r: &Quaternion<Scalar>)
        ensures
            *r == self.isometry.rotation,
    {
        &self.isometry.rotation
    }

    /// The rotation, to be written. What is written is not normalized.
    pub fn rotation_mut(&mut self) -> (ret: &mut Quaternion<Scalar>)
        ensures
            *ret == old(self).isometry.rotation,
            *final(self) == old(self).with_pose(old(self)@.with_rotation(*final(ret))),
    {
        &mut self.isometry.rotation
    }

    /// The scale.
    pub fn scale(&self) -> (r: &Vector3<Scalar>)
        ensures
            *r == self.scale,
    {
        &self.scale
    }

    /// The scale, to be written.
    pub fn scale_mut(&mut self) -> (ret: &mut Vector3<Scalar>)
        ensures
            *ret == old(self).scale,
            *final(self) == (Transform { scale: *final(ret), ..*old(self) }),
    {
        &mut self.scale
    }

    /// Sets the scale.
    pub fn set_scale(&mut self, scale: Vector3<Scalar>) -> (ret: &mut Self)
        ensures
            *ret == (Transform { scale, ..*old(self) }),
            *final(self) == *final(ret),
    {
        self.scale = scale;
        self
    }

    /// Translation and rotation.
    pub fn isometry(&self) -> (r: &Isometry<Scalar>)
        ensures
            *r == self.isometry,
    {
        &self.isometry
    }

    /// Translation and rotation, to be written.
    pub fn isometry_mut(&mut self) -> (ret: &mut Isometry<Scalar>)
        ensures
            *ret == old(self).isometry,
            *final(self) == (Transform { isometry: *final(ret), ..*old(self) }),
    {
        &mut self.isometry
    }

    /// Sets translation and rotation.
    pub fn set_isometry(&mut self, isometry: Isometry<Scalar>) -> (ret: &mut Self)
        ensures
            *ret == (Transform { isometry, ..*old(self) }),
            *final(self) == *final(ret),
    {
        self.isometry = isometry;
        self
    }

    /// The cached world matrix.
    pub fn global_matrix(&self) -> (r: &Matrix4<Scalar>)
        ensures
            *r == self.global_matrix,
    {
        &self.global_matrix
    }

    /// Moves the node by `translation`, taken along the axes of its parent
    /// (of the world, if it has none), whatever its own rotation.
    pub fn prepend_translation(&mut self, translation: Vector3<Scalar>) -> (ret: &mut Self)
        ensures
            *ret == old(self).with_pose(old(self)@.prepend_translation(translation)),
            *final(self) == *final(ret),
    {
        self.isometry.translation = self.isometry.translation.add(&translation);
        self
    }

    /// Moves the node by `translation`, taken along its own axes: the vector
    /// is turned by the current rotation before it is added.
    pub fn append_translation(&mut self, translation: Vector3<Scalar>) -> (ret: &mut Self)
        ensures
            *ret == old(self).with_pose(old(self)@.append_translation(translation)),
            *final(self) == *final(ret),
    {
        self.isometry.translation = self.isometry.translation.add(
            &self.isometry.rotation.rotate(&translation),
        );
        self
    }

    /// Moves the node by `distance` along `direction`, a unit vector taken in
    /// the parent's frame.
    pub fn prepend_translation_along(
        &mut self,
        direction: Vector3<Scalar>,
        distance: Scalar,
    ) -> (ret: &mut Self)
        ensures
            *ret == old(self).with_pose(old(self)@.prepend_translation_along(direction, distance)),
            *final(self) == *final(ret),
    {
        self.isometry.translation = self.isometry.translation.add(&direction.scale(distance));
        self
    }

    /// Moves the node by `distance` along `direction`, a unit vector taken in
    /// the node's own frame.
    pub fn append_translation_along(
        &mut self,
        direction: Vector3<Scalar>,
        distance: Scalar,
    ) -> (ret: &mut Self)
        ensures
            *ret == old(self).with_pose(old(self)@.append_translation_along(direction, distance)),
            *final(self) == *final(ret),
    {
        self.isometry.translation = self.isometry.translation.add(
            &self.isometry.rotation.rotate(&direction).scale(distance),
        );
        self
    }

    /// Moves the node forward, that is along its own negative z axis.
    pub fn move_forward(&mut self, amount: Scalar) -> (ret: &mut Self)
        ensures
            *ret == old(self).with_pose(
                old(self)@.append_translation(
                    Vector3 { x: Scalar::zero(), y: Scalar::zero(), z: amount.opposite() },
                ),
            ),
            *final(self) == *final(ret),
    {
        self.append_translation(
            Vector3::new(Scalar::new_zero(), Scalar::new_zero(), amount.neg()),
        )
    }

    /// Moves the node backward, that is along its own positive z axis.
    pub fn move_backward(&mut self, amount: Scalar) -> (ret: &mut Self)
        ensures
            *ret == old(self).with_pose(
                old(self)@.append_translation(
                    Vector3 { x: Scalar::zero(), y: Scalar::zero(), z: amount },
                ),
            ),
            *final(self) == *final(ret),
    {
        self.append_translation(Vector3::new(Scalar::new_zero(), Scalar::new_zero(), amount))
    }

    /// Moves the node to its right, that is along its own positive x axis.
    pub fn move_right(&mut self, amount: Scalar) -> (ret: &mut Self)
        ensures
            *ret == old(self).with_pose(
                old(self)@.append_translation(
                    Vector3 { x: amount, y: Scalar::zero(), z: Scalar::zero() },
                ),
            ),
            *final(self) == *final(ret),
    {
        self.append_translation(Vector3::new(amount, Scalar::new_zero(), Scalar::new_zero()))
    }

    /// Moves the node to its left, that is along its own negative x axis.
    pub fn move_left(&mut self, amount: Scalar) -> (ret: &mut Self)
        ensures
            *ret == old(self).with_pose(
                old(self)@.append_translation(
                    Vector3 { x: amount.opposite(), y: Scalar::zero(), z: Scalar::zero() },
                ),
            ),
            *final(self) == *final(ret),
    {
        self.append_translation(
            Vector3::new(amount.neg(), Scalar::new_zero(), Scalar::new_zero()),
        )
    }

    /// Moves the node up, that is along its own positive y axis.
    pub fn move_up(&mut self, amount: Scalar) -> (ret: &mut Self)
        ensures
            *ret == old(self).with_pose(
                old(self)@.append_translation(
                    Vector3 { x: Scalar::zero(), y: amount, z: Scalar::zero() },
                ),
            ),
            *final(self) == *final(ret),
    {
        self.append_translation(Vector3::new(Scalar::new_zero(), amount, Scalar::new_zero()))
    }

    /// Moves the node down, that is along its own negative y axis.
    pub fn move_down(&mut self, amount: Scalar) -> (ret: &mut Self)
        ensures
            *ret == old(self).with_pose(
                old(self)@.append_translation(
                    Vector3 { x: Scalar::zero(), y: amount.opposite(), z: Scalar::zero() },
                ),
            ),
            *final(self) == *final(ret),
    {
        self.append_translation(
            Vector3::new(Scalar::new_zero(), amount.neg(), Scalar::new_zero()),
        )
    }

    /// Adds `amount` to the x component of the translation.
    pub fn prepend_translation_x(&mut self, amount: Scalar) -> (ret: &mut Self)
        ensures
            *ret == old(self).with_pose(
                old(self)@.with_translation(
                    Vector3 {
                        x: old(self).isometry.translation.x.plus(amount),
                        ..old(self).isometry.translation
                    },
                ),
            ),
            *final(self) == *final(ret),
    {
        self.isometry.translation.x = self.isometry.translation.x.add(amount);
        self
    }

    /// Adds `amount` to the y component of the translation.
    pub fn prepend_translation_y(&mut self, amount: Scalar) -> (ret: &mut Self)
        ensures
            *ret == old(self).with_pose(
                old(self)@.with_translation(
                    Vector3 {
                        y: old(self).isometry.translation.y.plus(amount),
                        ..old(self).isometry.translation
                    },
                ),
            ),
            *final(self) == *final(ret),
    {
        self.isometry.translation.y = self.isometry.translation.y.add(amount);
        self
    }

    /// Adds `amount` to the z component of the translation.
    pub fn prepend_translation_z(&mut self, amount: Scalar) -> (ret: &mut Self)
        ensures
            *ret == old(self).with_pose(
                old(self)@.with_translation(
                    Vector3 {
                        z: old(self).isometry.translation.z.plus(amount),
                        ..old(self).isometry.translation
                    },
                ),
            ),
            *final(self) == *final(ret),
    {
        self.isometry.translation.z = self.isometry.translation.z.add(amount);
        self
    }

    /// Sets the x component of the translation.
    pub fn set_translation_x(&mut self, value: Scalar) -> (ret: &mut Self)
        ensures
            *ret == old(self).with_pose(
                old(self)@.with_translation(
                    Vector3 { x: value, ..old(self).isometry.translation },
                ),
            ),
            *final(self) == *final(ret),
    {
        self.isometry.translation.x = value;
        self
    }

    /// Sets the y component of the translation.
    pub fn set_translation_y(&mut self, value: Scalar) -> (ret: &mut Self)
        ensures
            *ret == old(self).with_pose(
                old(self)@.with_translation(
                    Vector3 { y: value, ..old(self).isometry.translation },
                ),
            ),
            *final(self) == *final(ret),
    {
        self.isometry.translation.y = value;
        self
    }

    /// Sets the z component of the translation.
    pub fn set_translation_z(&mut self, value: Scalar) -> (ret: &mut Self)
        ensures
            *ret == old(self).with_pose(
                old(self)@.with_translation(
                    Vector3 { z: value, ..old(self).isometry.translation },
                ),
            ),
            *final(self) == *final(ret),
    {
        self.isometry.translation.z = value;
        self
    }

    /// Turns the node about the x axis of its parent by `delta_angle`
    /// radians.
    pub fn prepend_rotation_x_axis(&mut self, delta_angle: Scalar) -> (ret: &mut Self)
        ensures
            *ret == old(self).with_pose(
                old(self)@.prepend_rotation_about(Vector3::axis_x(), delta_angle),
            ),
            *final(self) == *final(ret),
    {
        self.prepend_rotation(Vector3::x_axis(), delta_angle)
    }

    /// Turns the node about its own x axis by `delta_angle` radians.
    pub fn append_rotation_x_axis(&mut self, delta_angle: Scalar) -> (ret: &mut Self)
        ensures
            *ret == old(self).with_pose(
                old(self)@.append_rotation_about(Vector3::axis_x(), delta_angle),
            ),
            *final(self) == *final(ret),
    {
        self.append_rotation(Vector3::x_axis(), delta_angle)
    }

    /// Sets the rotation to one about the x axis by `angle` radians. Whatever
    /// rotation the node had is lost.
    pub fn set_rotation_x_axis(&mut self, angle: Scalar) -> (ret: &mut Self)
        ensures
            *ret == old(self).with_pose(
                old(self)@.set_rotation_euler(angle, Scalar::zero(), Scalar::zero()),
            ),
            *final(self) == *final(ret),
    {
        self.set_rotation_euler(angle, Scalar::new_zero(), Scalar::new_zero())
    }

    /// Turns the node about the y axis of its parent by `delta_angle`
    /// radians.
    pub fn prepend_rotation_y_axis(&mut self, delta_angle: Scalar) -> (ret: &mut Self)
        ensures
            *ret == old(self).with_pose(
                old(self)@.prepend_rotation_about(Vector3::axis_y(), delta_angle),
            ),
            *final(self) == *final(ret),
    {
        self.prepend_rotation(Vector3::y_axis(), delta_angle)
    }

    /// Turns the node about its own y axis by `delta_angle` radians.
    pub fn append_rotation_y_axis(&mut self, delta_angle: Scalar) -> (ret: &mut Self)
        ensures
            *ret == old(self).with_pose(
                old(self)@.append_rotation_about(Vector3::axis_y(), delta_angle),
            ),
            *final(self) == *final(ret),
    {
        self.append_rotation(Vector3::y_axis(), delta_angle)
    }

    /// Sets the rotation to one about the y axis by `angle` radians. Whatever
    /// rotation the node had is lost.
    pub fn set_rotation_y_axis(&mut self, angle: Scalar) -> (ret: &mut Self)
        ensures
            *ret == old(self).with_pose(
                old(self)@.set_rotation_euler(Scalar::zero(), angle, Scalar::zero()),
            ),
            *final(self) == *final(ret),
    {
        self.set_rotation_euler(Scalar::new_zero(), angle, Scalar::new_zero())
    }

    /// Turns the node about the z axis of its parent by `delta_angle`
    /// radians: a quarter turn takes x to y.
    pub fn prepend_rotation_z_axis(&mut self, delta_angle: Scalar) -> (ret: &mut Self)
        ensures
            *ret == old(self).with_pose(
                old(self)@.prepend_rotation_about(Vector3::axis_z(), delta_angle),
            ),
            *final(self) == *final(ret),
    {
        self.prepend_rotation(Vector3::z_axis(), delta_angle)
    }

    /// Turns the node about its own z axis by `delta_angle` radians.
    pub fn append_rotation_z_axis(&mut self, delta_angle: Scalar) -> (ret: &mut Self)
        ensures
            *ret == old(self).with_pose(
                old(self)@.append_rotation_about(Vector3::axis_z(), delta_angle),
            ),
            *final(self) == *final(ret),
    {
        self.append_rotation(Vector3::z_axis(), delta_angle)
    }

    /// Sets the rotation to one about the z axis by `angle` radians. Whatever
    /// rotation the node had is lost.
    pub fn set_rotation_z_axis(&mut self, angle: Scalar) -> (ret: &mut Self)
        ensures
            *ret == old(self).with_pose(
                old(self)@.set_rotation_euler(Scalar::zero(), Scalar::zero(), angle),
            ),
            *final(self) == *final(ret),
    {
        self.set_rotation_euler(Scalar::new_zero(), Scalar::new_zero(), angle)
    }

    /// Turns the node in the plane of x and y, as a flat scene does: about
    /// the z axis of its parent, by `delta_angle` radians.
    pub fn rotate_2d(&mut self, delta_angle: Scalar) -> (ret: &mut Self)
        ensures
            *ret == old(self).with_pose(
                old(self)@.prepend_rotation_about(Vector3::axis_z(), delta_angle),
            ),
            *final(self) == *final(ret),
    {
        self.prepend_rotation_z_axis(delta_angle)
    }

    /// Sets the rotation in the plane of x and y to `angle` radians. Whatever
    /// rotation the node had is lost.
    pub fn set_rotation_2d(&mut self, angle: Scalar) -> (ret: &mut Self)
        ensures
            *ret == old(self).with_pose(
                old(self)@.set_rotation_euler(Scalar::zero(), Scalar::zero(), angle),
            ),
            *final(self) == *final(ret),
    {
        self.set_rotation_euler(Scalar::new_zero(), Scalar::new_zero(), angle)
    }

    /// Turns the node about `axis`, a unit vector of its parent's frame, by
    /// `angle` radians: the new rotation is the turn times the current one.
    pub fn prepend_rotation(&mut self, axis: Vector3<Scalar>, angle: Scalar) -> (ret: &mut Self)
        ensures
            *ret == old(self).with_pose(old(self)@.prepend_rotation_about(axis, angle)),
            *final(self) == *final(ret),
    {
        let q = Quaternion::from_axis_angle(&axis, angle);
        self.isometry.rotation = q.mul(&self.isometry.rotation);
        self
    }

    /// Turns the node about `axis`, a unit vector of its own frame, by
    /// `angle` radians: the new rotation is the current one times the turn.
    pub fn append_rotation(&mut self, axis: Vector3<Scalar>, angle: Scalar) -> (ret: &mut Self)
        ensures
            *ret == old(self).with_pose(old(self)@.append_rotation_about(axis, angle)),
            *final(self) == *final(ret),
    {
        let q = Quaternion::from_axis_angle(&axis, angle);
        self.isometry.rotation = self.isometry.rotation.mul(&q);
        self
    }

    /// Sets the position.
    pub fn set_translation(&mut self, position: Vector3<Scalar>) -> (ret: &mut Self)
        ensures
            *ret == old(self).with_pose(old(self)@.with_translation(position)),
            *final(self) == *final(ret),
    {
        self.isometry.translation = position;
        self
    }

    /// Moves the node by `(x, y, z)`, taken along its own axes.
    pub fn append_translation_xyz(&mut self, x: Scalar, y: Scalar, z: Scalar) -> (ret: &mut Self)
        ensures
            *ret == old(self).with_pose(old(self)@.append_translation(Vector3 { x, y, z })),
            *final(self) == *final(ret),
    {
        self.append_translation(Vector3::new(x, y, z))
    }

    /// Sets the position to `(x, y, z)`.
    pub fn set_translation_xyz(&mut self, x: Scalar, y: Scalar, z: Scalar) -> (ret: &mut Self)
        ensures
            *ret == old(self).with_pose(old(self)@.with_translation(Vector3 { x, y, z })),
            *final(self) == *final(ret),
    {
        self.set_translation(Vector3::new(x, y, z))
    }

    /// Sets the rotation. `rotation` is to be a unit quaternion; it is taken
    /// as it is.
    pub fn set_rotation(&mut self, rotation: Quaternion<Scalar>) -> (ret: &mut Self)
        ensures
            *ret == old(self).with_pose(old(self)@.with_rotation(rotation)),
            *final(self) == *final(ret),
    {
        self.isometry.rotation = rotation;
        self
    }

    /// Sets the rotation from three Euler angles in radians, about x, then
    /// y, then z. Whatever rotation the node had is lost. Any angle is taken,
    /// however large.
    pub fn set_rotation_euler(&mut self, x: Scalar, y: Scalar, z: Scalar) -> (ret: &mut Self)
        ensures
            *ret == old(self).with_pose(old(self)@.set_rotation_euler(x, y, z)),
            *final(self) == *final(ret),
    {
        self.isometry.rotation = Quaternion::from_euler_angles(x, y, z);
        self
    }

    /// Puts `other` after `self`: `other` is the transform of a child in the
    /// frame of this node, and the node takes the child's transform in the
    /// frame of its own parent. Where the scale of `self` is uniform this is
    /// the product of the two matrices.
    pub fn concat(&mut self, other: &Self) -> (ret: &mut Self)
        ensures
            *ret == old(self).with_pose(old(self)@.concat(other@)),
            *final(self) == *final(ret),
    {
        self.isometry.translation = self.isometry.translation.add(
            &self.isometry.rotation.rotate(&other.isometry.translation.component_mul(&self.scale)),
        );
        self.scale = self.scale.component_mul(&other.scale);
        self.isometry.rotation = self.isometry.rotation.mul(&other.isometry.rotation);
        self
    }

    /// Whether no entry of the cached world matrix is an infinity or a NaN.
    /// The pose is not looked at.
    pub fn is_finite(&self) -> (r: bool)
        ensures
            r == self.global_matrix.all_finite(),
    {
        self.global_matrix.is_finite()
    }

    /// The inverse of [`Transform::matrix`], from the inverse of the rigid
    /// motion and the reciprocals of the scale factors. A scale factor of
    /// zero is not refused: it puts infinities or NaN in the result.
    pub fn view_matrix(&self) -> (r: Matrix4<Scalar>)
        ensures
            r == self@.view_matrix(),
    {
        let one = Scalar::new_one();
        let inv_scale = Vector3::new(
            one.div(self.scale.x),
            one.div(self.scale.y),
            one.div(self.scale.z),
        );
        self.isometry.invert().to_homogeneous().append_nonuniform_scaling(&inv_scale)
    }
}

impl Default for Transform {
    /// The transform that changes nothing.
    fn default() -> (r: Self)
        ensures
            r == Transform::fresh(Pose::identity()),
    {
        Transform {
            isometry: Isometry::one(),
            scale: Vector3::from_element(Scalar::new_one()),
            global_matrix: Matrix4::one(),
        }
    }
}

impl From<Vector3<Scalar>> for Transform {
    /// The transform that only moves, by `translation`.
    fn from(translation: Vector3<Scalar>) -> (r: Self) {
        Transform {
            isometry: Isometry::from_parts(translation, Quaternion::one()),
            scale: Vector3::from_element(Scalar::new_one()),
            global_matrix: Matrix4::one(),
        }
    }
}

impl vstd::std_specs::convert::FromSpecImpl<Vector3<Scalar>> for Transform {
    open spec fn obeys_from_spec() -> bool {
        true
    }

    open spec fn from_spec(translation: Vector3<Scalar>) -> Transform {
        Transform::fresh(Pose::at(translation))
    }
}

} // verus!
