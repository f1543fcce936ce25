//! Rigid motions: a rotation followed by a translation.

use crate::arith::Arith;
use crate::matrix::Matrix4;
use crate::quaternion::Quaternion;
use crate::scalar::Scalar;
use crate::vector::Vector3;
use vstd::prelude::*;

verus! {

/// The rigid motion `v -> rotation(v) + translation`.
#[derive(Clone, Copy, Debug, PartialEq, Eq)]
pub struct Isometry<T> {
    pub rotation: Quaternion<T>,
    pub translation: Vector3<T>,
}

impl<T: Arith> Isometry<T> {
    /// The motion that moves nothing.
    pub open spec fn identity() -> Self {
        Isometry { rotation: Quaternion::identity(), translation: Vector3::origin() }
    }

    /// The inverse motion: the conjugate rotation, and the opposite
    /// translation turned by it.
    pub open spec fn inverse(self) -> Self {
        let rotation = self.rotation.conjugated();
        Isometry { rotation, translation: rotation.rotated(self.translation.negated()) }
    }

    /// The 4x4 homogeneous matrix of the motion.
    pub open spec fn homogeneous(self) -> Matrix4<T> {
        Matrix4::affine(self.rotation.rotation_matrix(), self.translation)
    }
}

impl Isometry<Scalar> {
    /// The motion with the given parts.
    pub fn from_parts(translation: Vector3<Scalar>, rotation: Quaternion<Scalar>) -> (r: Self)
        ensures
            r == (Isometry { rotation, translation }),
    {
        Isometry { rotation, translation }
    }

    /// The motion that moves nothing.
    pub fn one() -> (r: Self)
        ensures
            r == Self::identity(),
    {
        Isometry { rotation: Quaternion::one(), translation: Vector3::zeros() }
    }

    /// The inverse motion.
    pub fn invert(&self) -> (r: Self)
        ensures
            r == self.inverse(),
    {
        let rotation = self.rotation.conjugate();
        let translation = rotation.rotate(&self.translation.neg());
        Isometry { rotation, translation }
    }

    /// The 4x4 homogeneous matrix of the motion.
    pub fn to_homogeneous(&self) -> (r: Matrix4<Scalar>)
        ensures
            r == self.homogeneous(),
    {
        Matrix4::from_parts(&self.rotation.to_rotation_matrix(), &self.translation)
    }
}

} // verus!
