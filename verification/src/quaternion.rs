//! Quaternions, as rotations of space.

use crate::arith::Arith;
use crate::matrix::Matrix3;
use crate::scalar::Scalar;
use crate::vector::Vector3;
use vstd::prelude::*;

verus! {

/// A quaternion `w + x i + y j + z k`. One of norm 1 stands for a rotation;
/// no operation here checks the norm or restores it, except
/// [`Quaternion::normalize`].
#[derive(Clone, Copy, Debug, PartialEq, Eq)]
pub struct Quaternion<T> {
    pub x: T,
    pub y: T,
    pub z: T,
    /// The scalar part.
    pub w: T,
}

impl<T: Arith> Quaternion<T> {
    /// The quaternion 1: no rotation.
    pub open spec fn identity() -> Self {
        Quaternion { x: T::zero(), y: T::zero(), z: T::zero(), w: T::one() }
    }

    /// The vector part.
    pub open spec fn imag(self) -> Vector3<T> {
        Vector3 { x: self.x, y: self.y, z: self.z }
    }

    /// The Hamilton product `self * rhs`: as rotations, `rhs` first, then
    /// `self`.
    pub open spec fn product(self, rhs: Self) -> Self {
        Quaternion {
            x: self.w.times(rhs.x).plus(self.x.times(rhs.w)).plus(self.y.times(rhs.z)).minus(
                self.z.times(rhs.y),
            ),
            y: self.w.times(rhs.y).minus(self.x.times(rhs.z)).plus(self.y.times(rhs.w)).plus(
                self.z.times(rhs.x),
            ),
            z: self.w.times(rhs.z).plus(self.x.times(rhs.y)).minus(self.y.times(rhs.x)).plus(
                self.z.times(rhs.w),
            ),
            w: self.w.times(rhs.w).minus(self.x.times(rhs.x)).minus(self.y.times(rhs.y)).minus(
                self.z.times(rhs.z),
            ),
        }
    }

    /// The conjugate: of a unit quaternion, the inverse rotation.
    pub open spec fn conjugated(self) -> Self {
        Quaternion {
            x: self.x.opposite(),
            y: self.y.opposite(),
            z: self.z.opposite(),
            w: self.w,
        }
    }

    /// The square of the norm, summed as `(x^2 + z^2) + (y^2 + w^2)`.
    pub open spec fn norm_squared(self) -> T {
        self.x.times(self.x).plus(self.z.times(self.z)).plus(
            self.y.times(self.y).plus(self.w.times(self.w)),
        )
    }

    /// The quaternion divided by its norm.
    pub open spec fn normalized(self) -> Self {
        let n = self.norm_squared().root();
        Quaternion { x: self.x.over(n), y: self.y.over(n), z: self.z.over(n), w: self.w.over(n) }
    }

    /// `v` turned by the rotation that a unit quaternion stands for, computed
    /// as `v + w t + u x t` with `u` the vector part and `t = 2 (u x v)`.
    pub open spec fn rotated(self, v: Vector3<T>) -> Vector3<T> {
        let t = self.imag().cross(v).scaled(T::two());
        let c = self.imag().cross(t);
        t.scaled(self.w).sum(c).sum(v)
    }

    /// The matrix of the map `v -> q v q*`: for a unit quaternion, of its
    /// rotation.
    pub open spec fn rotation_matrix(self) -> Matrix3<T> {
        let ww = self.w.times(self.w);
        let ii = self.x.times(self.x);
        let jj = self.y.times(self.y);
        let kk = self.z.times(self.z);
        let ij = self.x.times(self.y).times(T::two());
        let wk = self.w.times(self.z).times(T::two());
        let wj = self.w.times(self.y).times(T::two());
        let ik = self.x.times(self.z).times(T::two());
        let jk = self.y.times(self.z).times(T::two());
        let wi = self.w.times(self.x).times(T::two());
        Matrix3 {
            m11: ww.plus(ii).minus(jj).minus(kk),
            m12: ij.minus(wk),
            m13: wj.plus(ik),
            m21: wk.plus(ij),
            m22: ww.minus(ii).plus(jj).minus(kk),
            m23: jk.minus(wi),
            m31: ik.minus(wj),
            m32: wi.plus(jk),
            m33: ww.minus(ii).minus(jj).plus(kk),
        }
    }

    /// The rotation about the unit vector `axis` by the angle whose half has
    /// sine `sin_half` and cosine `cos_half`.
    pub open spec fn about(axis: Vector3<T>, sin_half: T, cos_half: T) -> Self {
        Quaternion {
            x: axis.x.times(sin_half),
            y: axis.y.times(sin_half),
            z: axis.z.times(sin_half),
            w: cos_half,
        }
    }

    /// The rotation about x by a first angle, then about y by a second, then
    /// about z by a third, from the sines and cosines of the halves of the
    /// three: `sr`, `cr` of the first, `sp`, `cp` of the second, `sy`, `cy` of
    /// the third.
    pub open spec fn euler(sr: T, cr: T, sp: T, cp: T, sy: T, cy: T) -> Self {
        Quaternion {
            x: sr.times(cp).times(cy).minus(cr.times(sp).times(sy)),
            y: cr.times(sp).times(cy).plus(sr.times(cp).times(sy)),
            z: cr.times(cp).times(sy).minus(sr.times(sp).times(cy)),
            w: cr.times(cp).times(cy).plus(sr.times(sp).times(sy)),
        }
    }

    /// A quaternion of the rotation whose matrix is `m`. Of the four ways to
    /// solve for it, the one that divides by the largest quantity is taken:
    /// by the trace if it is positive, else by the largest diagonal entry.
    pub open spec fn of_rotation_matrix(m: Matrix3<T>) -> Self {
        let tr = m.m11.plus(m.m22).plus(m.m33);
        if tr.exceeds(T::zero()) {
            let denom = tr.plus(T::one()).root().times(T::two());
            Quaternion {
                x: m.m32.minus(m.m23).over(denom),
                y: m.m13.minus(m.m31).over(denom),
                z: m.m21.minus(m.m12).over(denom),
                w: T::quarter().times(denom),
            }
        } else if m.m11.exceeds(m.m22) && m.m11.exceeds(m.m33) {
            let denom = T::one().plus(m.m11).minus(m.m22).minus(m.m33).root().times(T::two());
            Quaternion {
                x: T::quarter().times(denom),
                y: m.m12.plus(m.m21).over(denom),
                z: m.m13.plus(m.m31).over(denom),
                w: m.m32.minus(m.m23).over(denom),
            }
        } else if m.m22.exceeds(m.m33) {
            let denom = T::one().plus(m.m22).minus(m.m11).minus(m.m33).root().times(T::two());
            Quaternion {
                x: m.m12.plus(m.m21).over(denom),
                y: T::quarter().times(denom),
                z: m.m23.plus(m.m32).over(denom),
                w: m.m13.minus(m.m31).over(denom),
            }
        } else {
            let denom = T::one().plus(m.m33).minus(m.m11).minus(m.m22).root().times(T::two());
            Quaternion {
                x: m.m13.plus(m.m31).over(denom),
                y: m.m23.plus(m.m32).over(denom),
                z: T::quarter().times(denom),
                w: m.m21.minus(m.m12).over(denom),
            }
        }
    }

    /// The rotation that turns the z axis towards `dir` with `up` above it.
    pub open spec fn facing(dir: Vector3<T>, up: Vector3<T>) -> Self {
        Self::of_rotation_matrix(Matrix3::facing(dir, up))
    }
}

impl Quaternion<Scalar> {
    /// The rotation about the unit vector `axis` by `angle` radians.
    pub open spec fn axis_angle(axis: Vector3<Scalar>, angle: Scalar) -> Self {
        let half = angle.over(Scalar::two());
        Self::about(axis, half.sine(), half.cosine())
    }

    /// The rotation about x by `roll` radians, then about y by `pitch`, then
    /// about z by `yaw`.
    pub open spec fn euler_angles(roll: Scalar, pitch: Scalar, yaw: Scalar) -> Self {
        let r = roll.times(Scalar::half());
        let p = pitch.times(Scalar::half());
        let y = yaw.times(Scalar::half());
        Self::euler(r.sine(), r.cosine(), p.sine(), p.cosine(), y.sine(), y.cosine())
    }

    /// The quaternion `w + x i + y j + z k`: the scalar part comes first.
    pub fn new(w: Scalar, x: Scalar, y: Scalar, z: Scalar) -> (r: Self)
        ensures
            r == (Quaternion { x, y, z, w }),
    {
        Quaternion { x, y, z, w }
    }

    /// The quaternion 1: no rotation.
    pub fn one() -> (r: Self)
        ensures
            r == Self::identity(),
    {
        Quaternion {
            x: Scalar::new_zero(),
            y: Scalar::new_zero(),
            z: Scalar::new_zero(),
            w: Scalar::new_one(),
        }
    }

    /// The Hamilton product `self * rhs`.
    pub fn mul(&self, rhs: &Self) -> (r: Self)
        ensures
            r == self.product(*rhs),
    {
        Quaternion {
            x: self.w.mul(rhs.x).add(self.x.mul(rhs.w)).add(self.y.mul(rhs.z)).sub(
                self.z.mul(rhs.y),
            ),
            y: self.w.mul(rhs.y).sub(self.x.mul(rhs.z)).add(self.y.mul(rhs.w)).add(
                self.z.mul(rhs.x),
            ),
            z: self.w.mul(rhs.z).add(self.x.mul(rhs.y)).sub(self.y.mul(rhs.x)).add(
                self.z.mul(rhs.w),
            ),
            w: self.w.mul(rhs.w).sub(self.x.mul(rhs.x)).sub(self.y.mul(rhs.y)).sub(
                self.z.mul(rhs.z),
            ),
        }
    }

    /// The conjugate.
    pub fn conjugate(&self) -> (r: Self)
        ensures
            r == self.conjugated(),
    {
        Quaternion { x: self.x.neg(), y: self.y.neg(), z: self.z.neg(), w: self.w }
    }

    /// The square of the norm.
    pub fn squared_norm(&self) -> (r: Scalar)
        ensures
            r == self.norm_squared(),
    {
        self.x.mul(self.x).add(self.z.mul(self.z)).add(self.y.mul(self.y).add(self.w.mul(self.w)))
    }

    /// The quaternion divided by its norm: the one way to restore a norm of
    /// 1. Of the zero quaternion every component comes out a NaN.
    pub fn normalize(&self) -> (r: Self)
        ensures
            r == self.normalized(),
    {
        let n = self.squared_norm().sqrt();
        Quaternion { x: self.x.div(n), y: self.y.div(n), z: self.z.div(n), w: self.w.div(n) }
    }

    /// `v` turned by this rotation.
    pub fn rotate(&self, v: &Vector3<Scalar>) -> (r: Vector3<Scalar>)
        ensures
            r == self.rotated(*v),
    {
        let u = Vector3 { x: self.x, y: self.y, z: self.z };
        let t = u.cross_product(v).scale(Scalar::new_two());
        let c = u.cross_product(&t);
        t.scale(self.w).add(&c).add(v)
    }

    /// The matrix of this rotation.
    pub fn to_rotation_matrix(&self) -> (r: Matrix3<Scalar>)
        ensures
            r == self.rotation_matrix(),
    {
        let two = Scalar::new_two();
        let ww = self.w.mul(self.w);
        let ii = self.x.mul(self.x);
        let jj = self.y.mul(self.y);
        let kk = self.z.mul(self.z);
        let ij = self.x.mul(self.y).mul(two);
        let wk = self.w.mul(self.z).mul(two);
        let wj = self.w.mul(self.y).mul(two);
        let ik = self.x.mul(self.z).mul(two);
        let jk = self.y.mul(self.z).mul(two);
        let wi = self.w.mul(self.x).mul(two);
        Matrix3 {
            m11: ww.add(ii).sub(jj).sub(kk),
            m12: ij.sub(wk),
            m13: wj.add(ik),
            m21: wk.add(ij),
            m22: ww.sub(ii).add(jj).sub(kk),
            m23: jk.sub(wi),
            m31: ik.sub(wj),
            m32: wi.add(jk),
            m33: ww.sub(ii).sub(jj).add(kk),
        }
    }

    /// The rotation about the unit vector `axis` by the angle whose half has
    /// sine `sin_half` and cosine `cos_half`. The two numbers are taken as
    /// they are.
    pub fn from_half_angle(axis: &Vector3<Scalar>, sin_half: Scalar, cos_half: Scalar) -> (r:
        Self)
        ensures
            r == Self::about(*axis, sin_half, cos_half),
    {
        Quaternion {
            x: axis.x.mul(sin_half),
            y: axis.y.mul(sin_half),
            z: axis.z.mul(sin_half),
            w: cos_half,
        }
    }

    /// The rotation about the unit vector `axis` by `angle` radians.
    pub fn from_axis_angle(axis: &Vector3<Scalar>, angle: Scalar) -> (r: Self)
        ensures
            r == Self::axis_angle(*axis, angle),
    {
        let half = angle.div(Scalar::new_two());
        Self::from_half_angle(axis, half.sin(), half.cos())
    }

    /// The rotation about x by a first angle, then about y by a second, then
    /// about z by a third, from the sines and cosines of the halves of the
    /// three: `sr`, `cr` of the first, `sp`, `cp` of the second, `sy`, `cy` of
    /// the third. The six numbers are taken as they are.
    pub fn from_half_angles(
        sr: Scalar,
        cr: Scalar,
        sp: Scalar,
        cp: Scalar,
        sy: Scalar,
        cy: Scalar,
    ) -> (r: Self)
        ensures
            r == Self::euler(sr, cr, sp, cp, sy, cy),
    {
        Quaternion {
            x: sr.mul(cp).mul(cy).sub(cr.mul(sp).mul(sy)),
            y: cr.mul(sp).mul(cy).add(sr.mul(cp).mul(sy)),
            z: cr.mul(cp).mul(sy).sub(sr.mul(sp).mul(cy)),
            w: cr.mul(cp).mul(cy).add(sr.mul(sp).mul(sy)),
        }
    }

    /// The rotation about x by `roll` radians, then about y by `pitch`, then
    /// about z by `yaw`.
    pub fn from_euler_angles(roll: Scalar, pitch: Scalar, yaw: Scalar) -> (r: Self)
        ensures
            r == Self::euler_angles(roll, pitch, yaw),
    {
        let half = Scalar::new_half();
        let r = roll.mul(half);
        let p = pitch.mul(half);
        let y = yaw.mul(half);
        Self::from_half_angles(r.sin(), r.cos(), p.sin(), p.cos(), y.sin(), y.cos())
    }

    /// A quaternion of the rotation whose matrix is `m`.
    pub fn from_rotation_matrix(m: &Matrix3<Scalar>) -> (r: Self)
        ensures
            r == Self::of_rotation_matrix(*m),
    {
        let zero = Scalar::new_zero();
        let one = Scalar::new_one();
        let two = Scalar::new_two();
        let quarter = Scalar::new_quarter();
        let tr = m.m11.add(m.m22).add(m.m33);
        if tr.gt(zero) {
            let denom = tr.add(one).sqrt().mul(two);
            Quaternion {
                x: m.m32.sub(m.m23).div(denom),
                y: m.m13.sub(m.m31).div(denom),
                z: m.m21.sub(m.m12).div(denom),
                w: quarter.mul(denom),
            }
        } else if m.m11.gt(m.m22) && m.m11.gt(m.m33) {
            let denom = one.add(m.m11).sub(m.m22).sub(m.m33).sqrt().mul(two);
            Quaternion {
                x: quarter.mul(denom),
                y: m.m12.add(m.m21).div(denom),
                z: m.m13.add(m.m31).div(denom),
                w: m.m32.sub(m.m23).div(denom),
            }
        } else if m.m22.gt(m.m33) {
            let denom = one.add(m.m22).sub(m.m11).sub(m.m33).sqrt().mul(two);
            Quaternion {
                x: m.m12.add(m.m21).div(denom),
                y: quarter.mul(denom),
                z: m.m23.add(m.m32).div(denom),
                w: m.m13.sub(m.m31).div(denom),
            }
        } else {
            let denom = one.add(m.m33).sub(m.m11).sub(m.m22).sqrt().mul(two);
            Quaternion {
                x: m.m13.add(m.m31).div(denom),
                y: m.m23.add(m.m32).div(denom),
                z: quarter.mul(denom),
                w: m.m21.sub(m.m12).div(denom),
            }
        }
    }

    /// The rotation that turns the z axis towards `dir` with `up` above it.
    /// Where `up` is parallel to `dir` the components come out NaN.
    pub fn face_towards(dir: &Vector3<Scalar>, up: &Vector3<Scalar>) -> (r: Self)
        ensures
            r == Self::facing(*dir, *up),
    {
        let m = Matrix3::face_towards(dir, up);
        Self::from_rotation_matrix(&m)
    }
}

} // verus!
