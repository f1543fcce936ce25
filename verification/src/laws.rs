//! What holds of the formulas of this crate.
//!
//! The laws of the algebra are stated of the formulas read over the reals,
//! where the operations are exact. Read over the doubles, where every step
//! rounds, the same formulas satisfy them only within a tolerance. The laws of
//! the cached matrix and of the written form are stated of the doubles
//! themselves.

use crate::arith::{is_root_of, Arith};
use crate::format::{Field, FormatError, Partial, TransformValues};
use crate::isometry::Isometry;
use crate::lemmas::{
    lemma_conjugate_is_inverse, lemma_euler_is_three_turns, lemma_identity_quaternion,
    lemma_last_row, lemma_norm_of_product, lemma_quotient_by_one, lemma_rotated_is_applied,
    lemma_rotation_matrix_of_product, lemma_scaled_entry, lemma_scaled_row, lemma_swap,
    lemma_translate_rotate_scale, lemma_turn, lemma_turn_about_axis, lemma_unit_factor,
    lemma_unit_scale, lemma_view_matrix_is_left_inverse, lemma_view_matrix_is_right_inverse,
};
use crate::matrix::{Matrix3, Matrix4};
use crate::quaternion::Quaternion;
use crate::scalar::Scalar;
use crate::transform::{Pose, Transform};
use crate::vector::Vector3;
use vstd::prelude::*;

verus! {

/// The matrix of the identity pose is the identity matrix.
pub proof fn identity_pose_has_identity_matrix()
    ensures
        Pose::<real>::identity().matrix() == Matrix4::<real>::identity(),
{
    let p = Pose::<real>::identity();
    lemma_identity_quaternion(p.isometry.rotation, p.isometry.translation);
    lemma_unit_scale(p.scale, p.isometry.homogeneous());
}

/// The homogeneous matrix of a rigid motion is the matrix of its translation
/// times the matrix of its rotation.
pub proof fn homogeneous_is_translate_rotate(p: Pose<real>)
    ensures
        p.isometry.homogeneous() == Matrix4::translation(p.isometry.translation).product(
            Matrix4::linear(p.isometry.rotation.rotation_matrix()),
        ),
{
    lemma_translate_rotate_scale(p);
}

/// The matrix of a pose is `T R S`: the matrix of the translation, times the
/// matrix of the rotation, times the matrix of the scaling.
pub proof fn matrix_is_translate_rotate_scale(p: Pose<real>)
    ensures
        p.matrix() == Matrix4::translation(p.isometry.translation).product(
            Matrix4::linear(p.isometry.rotation.rotation_matrix()),
        ).product(Matrix4::scaling(p.scale)),
{
    lemma_translate_rotate_scale(p);
}

/// A child put after the identity pose keeps its pose, and so its matrix.
pub proof fn concat_after_identity(x: Pose<real>)
    ensures
        Pose::<real>::identity().concat(x) == x,
        Pose::<real>::identity().concat(x).matrix() == x.matrix(),
{
    let t = x.isometry.translation;
    lemma_unit_scale(t, x.matrix());
    lemma_unit_scale(x.scale, x.matrix());
    lemma_identity_quaternion(x.isometry.rotation, t);
}

/// A pose with the identity put after it keeps its value, and so its matrix.
pub proof fn concat_before_identity(x: Pose<real>)
    ensures
        x.concat(Pose::<real>::identity()) == x,
        x.concat(Pose::<real>::identity()).matrix() == x.matrix(),
{
    lemma_unit_scale(x.scale, x.matrix());
    lemma_identity_quaternion(x.isometry.rotation, x.isometry.translation);
}

/// Where a pose has the identity rotation, a translation along its own axes
/// and the same translation along its parent's axes give the same pose: the
/// translation has grown by the vector as it is.
pub proof fn translations_agree_without_rotation(p: Pose<real>, v: Vector3<real>)
    requires
        p.isometry.rotation == Quaternion::<real>::identity(),
    ensures
        p.append_translation(v) == p.prepend_translation(v),
        p.append_translation(v).isometry.translation == p.isometry.translation.sum(v),
{
    lemma_identity_quaternion(p.isometry.rotation, v);
}

/// From the identity pose, a translation by `v` of either kind leads to `v`.
pub proof fn translations_from_identity(v: Vector3<real>)
    ensures
        Pose::<real>::identity().append_translation(v).isometry.translation == v,
        Pose::<real>::identity().prepend_translation(v).isometry.translation == v,
{
    lemma_identity_quaternion(Quaternion::<real>::identity(), v);
}

/// A translation along the node's own axes is the translation, along the
/// parent's axes, by the vector turned by the node's rotation.
pub proof fn append_is_prepend_of_the_turned_vector(p: Pose<real>, v: Vector3<real>)
    ensures
        p.append_translation(v) == p.prepend_translation(p.isometry.rotation.rotated(v)),
        p.append_translation_along(v, 1real) == p.append_translation(v),
        p.prepend_translation_along(v, 1real) == p.prepend_translation(v),
{
    let w = p.isometry.rotation.rotated(v);
    lemma_unit_factor(v.x, 1real, 0real);
    lemma_unit_factor(v.y, 1real, 0real);
    lemma_unit_factor(v.z, 1real, 0real);
    lemma_unit_factor(w.x, 1real, 0real);
    lemma_unit_factor(w.y, 1real, 0real);
    lemma_unit_factor(w.z, 1real, 0real);
}

/// A turn about an axis leaves the axis where it is.
pub proof fn turn_about_axis_fixes_the_axis(axis: Vector3<real>, sin_half: real, cos_half: real)
    ensures
        Quaternion::about(axis, sin_half, cos_half).rotated(axis) == axis,
{
    let q = Quaternion::about(axis, sin_half, cos_half);
    let o = Vector3::<real>::origin();
    let k = q.imag().cross(axis);
    lemma_turn(axis.x, sin_half, axis.y);
    lemma_turn(axis.y, sin_half, axis.x);
    lemma_turn(axis.x, sin_half, axis.z);
    lemma_turn(axis.z, sin_half, axis.x);
    lemma_turn(axis.y, sin_half, axis.z);
    lemma_turn(axis.z, sin_half, axis.y);
    assert(k == o);
    let t = k.scaled(2real);
    lemma_unit_factor(2real, 1real, k.x);
    lemma_unit_factor(2real, 1real, k.y);
    lemma_unit_factor(2real, 1real, k.z);
    assert(t == o);
    lemma_unit_factor(q.w, 1real, t.x);
    lemma_unit_factor(q.w, 1real, t.y);
    lemma_unit_factor(q.w, 1real, t.z);
    lemma_unit_factor(q.x, 1real, t.y);
    lemma_unit_factor(q.x, 1real, t.z);
    lemma_unit_factor(q.y, 1real, t.x);
    lemma_unit_factor(q.y, 1real, t.z);
    lemma_unit_factor(q.z, 1real, t.x);
    lemma_unit_factor(q.z, 1real, t.y);
}

/// Where the first of two poses has the same scale along every axis, the
/// matrix of their concatenation is the product of their matrices.
pub proof fn concat_is_matrix_product(a: Pose<real>, b: Pose<real>)
    requires
        a.isometry.rotation.norm_squared() == 1real,
        a.scale.x == a.scale.y,
        a.scale.y == a.scale.z,
    ensures
        a.concat(b).matrix() == a.matrix().product(b.matrix()),
{
    let qa = a.isometry.rotation;
    let qb = b.isometry.rotation;
    let ta = a.isometry.translation;
    let tb = b.isometry.translation;
    let ra = qa.rotation_matrix();
    let rb = qb.rotation_matrix();
    let rab = qa.product(qb).rotation_matrix();
    let s = a.scale.x;
    let sb = b.scale;
    let h = tb.hadamard(a.scale);
    lemma_rotation_matrix_of_product(qa, qb);
    lemma_rotated_is_applied(qa, h);
    lemma_scaled_entry(ra.m11, ra.m12, ra.m13, rb.m11, rb.m21, rb.m31, s, sb.x, ta.x, rab.m11);
    lemma_scaled_entry(ra.m11, ra.m12, ra.m13, rb.m12, rb.m22, rb.m32, s, sb.y, ta.x, rab.m12);
    lemma_scaled_entry(ra.m11, ra.m12, ra.m13, rb.m13, rb.m23, rb.m33, s, sb.z, ta.x, rab.m13);
    lemma_scaled_entry(ra.m21, ra.m22, ra.m23, rb.m11, rb.m21, rb.m31, s, sb.x, ta.y, rab.m21);
    lemma_scaled_entry(ra.m21, ra.m22, ra.m23, rb.m12, rb.m22, rb.m32, s, sb.y, ta.y, rab.m22);
    lemma_scaled_entry(ra.m21, ra.m22, ra.m23, rb.m13, rb.m23, rb.m33, s, sb.z, ta.y, rab.m23);
    lemma_scaled_entry(ra.m31, ra.m32, ra.m33, rb.m11, rb.m21, rb.m31, s, sb.x, ta.z, rab.m31);
    lemma_scaled_entry(ra.m31, ra.m32, ra.m33, rb.m12, rb.m22, rb.m32, s, sb.y, ta.z, rab.m32);
    lemma_scaled_entry(ra.m31, ra.m32, ra.m33, rb.m13, rb.m23, rb.m33, s, sb.z, ta.z, rab.m33);
    lemma_scaled_row(ra.m11, ra.m12, ra.m13, s, tb.x, tb.y, tb.z);
    lemma_scaled_row(ra.m21, ra.m22, ra.m23, s, tb.x, tb.y, tb.z);
    lemma_scaled_row(ra.m31, ra.m32, ra.m33, s, tb.x, tb.y, tb.z);
    let ma = a.matrix();
    let mb = b.matrix();
    lemma_last_row(ma.m41, ma.m42, ma.m43, ma.m44, mb.m11, mb.m21, mb.m31, mb.m41);
    lemma_last_row(ma.m41, ma.m42, ma.m43, ma.m44, mb.m12, mb.m22, mb.m32, mb.m42);
    lemma_last_row(ma.m41, ma.m42, ma.m43, ma.m44, mb.m13, mb.m23, mb.m33, mb.m43);
    lemma_last_row(ma.m41, ma.m42, ma.m43, ma.m44, mb.m14, mb.m24, mb.m34, mb.m44);
    let l = a.concat(b).matrix();
    let r = a.matrix().product(b.matrix());
    assert(l.m11 == r.m11);
    assert(l.m12 == r.m12);
    assert(l.m13 == r.m13);
    assert(l.m14 == r.m14);
    assert(l.m21 == r.m21);
    assert(l.m22 == r.m22);
    assert(l.m23 == r.m23);
    assert(l.m24 == r.m24);
    assert(l.m31 == r.m31);
    assert(l.m32 == r.m32);
    assert(l.m33 == r.m33);
    assert(l.m34 == r.m34);
    assert(l.m41 == r.m41);
    assert(l.m42 == r.m42);
    assert(l.m43 == r.m43);
    assert(l.m44 == r.m44);
}

/// The view matrix of a pose is the inverse of its matrix, where no scale
/// factor is zero.
pub proof fn view_matrix_is_inverse(t: Pose<real>)
    requires
        t.isometry.rotation.norm_squared() == 1real,
        t.scale.x != 0real,
        t.scale.y != 0real,
        t.scale.z != 0real,
    ensures
        t.view_matrix().product(t.matrix()) == Matrix4::<real>::identity(),
        t.matrix().product(t.view_matrix()) == Matrix4::<real>::identity(),
{
    lemma_view_matrix_is_left_inverse(t);
    lemma_view_matrix_is_right_inverse(t);
}

/// The product of two quaternions of norm 1 has norm 1.
pub proof fn product_of_units_is_unit(p: Quaternion<real>, q: Quaternion<real>)
    requires
        p.norm_squared() == 1real,
        q.norm_squared() == 1real,
    ensures
        p.product(q).norm_squared() == 1real,
{
    lemma_norm_of_product(p, q);
    lemma_unit_factor(q.norm_squared(), p.norm_squared(), 0real);
}

/// The conjugate of a quaternion of norm 1 has norm 1.
pub proof fn conjugate_of_unit_is_unit(q: Quaternion<real>)
    requires
        q.norm_squared() == 1real,
    ensures
        q.conjugated().norm_squared() == 1real,
{
    lemma_conjugate_is_inverse(q);
}

/// A concatenation, and a turn of either kind, of poses whose rotations
/// have norm 1 gives a pose whose rotation has norm 1.
pub proof fn composing_keeps_the_rotation_unit(a: Pose<real>, b: Pose<real>)
    requires
        a.isometry.rotation.norm_squared() == 1real,
        b.isometry.rotation.norm_squared() == 1real,
    ensures
        a.concat(b).isometry.rotation.norm_squared() == 1real,
        a.prepend_rotation(b.isometry.rotation).isometry.rotation.norm_squared() == 1real,
        a.append_rotation(b.isometry.rotation).isometry.rotation.norm_squared() == 1real,
{
    product_of_units_is_unit(a.isometry.rotation, b.isometry.rotation);
    product_of_units_is_unit(b.isometry.rotation, a.isometry.rotation);
}

/// The quaternion of a turn about a unit vector has norm 1, where the two
/// numbers given for the half angle are a sine and a cosine.
pub proof fn turn_about_axis_is_unit(axis: Vector3<real>, sin_half: real, cos_half: real)
    requires
        axis.norm_squared() == 1real,
        sin_half * sin_half + cos_half * cos_half == 1real,
    ensures
        Quaternion::about(axis, sin_half, cos_half).norm_squared() == 1real,
{
    let xx = axis.x * axis.x;
    let yy = axis.y * axis.y;
    let zz = axis.z * axis.z;
    let ss = sin_half * sin_half;
    let n = axis.norm_squared();
    lemma_swap(axis.x, sin_half, axis.x, sin_half);
    lemma_swap(axis.y, sin_half, axis.y, sin_half);
    lemma_swap(axis.z, sin_half, axis.z, sin_half);
    assert(n * ss == xx * ss + yy * ss + zz * ss) by (nonlinear_arith)
        requires
            n == xx + yy + zz,
    ;
    lemma_unit_factor(ss, n, 0real);
}

/// A turn about a unit vector `axis`, by the angle whose half has sine
/// `sin_half` and cosine `cos_half`, is the rotation about that axis by that
/// angle: it takes `v` to `cos v + sin (axis x v) + (1 - cos) (axis . v) axis`,
/// with `cos` and `sin` the cosine and the sine of the whole angle.
pub proof fn turn_about_axis_is_the_rotation(
    axis: Vector3<real>,
    sin_half: real,
    cos_half: real,
    v: Vector3<real>,
)
    requires
        axis.norm_squared() == 1real,
        sin_half * sin_half + cos_half * cos_half == 1real,
    ensures
        Quaternion::about(axis, sin_half, cos_half).rotated(v) == v.scaled(
            cos_half * cos_half - sin_half * sin_half,
        ).sum(axis.cross(v).scaled(2real * (sin_half * cos_half))).sum(
            axis.scaled(
                (1real - (cos_half * cos_half - sin_half * sin_half)) * axis.dot(v),
            ),
        ),
{
    lemma_turn_about_axis(axis, sin_half, cos_half, v);
}

/// The matrix that facing a direction builds takes the z axis to the
/// direction, divided by its length.
pub proof fn facing_matrix_takes_z_to_the_direction(dir: Vector3<real>, up: Vector3<real>)
    ensures
        Matrix3::facing(dir, up).apply(Vector3::<real>::axis_z()) == dir.normalized(),
{
    let m = Matrix3::facing(dir, up);
    let z = Vector3::<real>::axis_z();
    lemma_unit_factor(m.m11, z.z, z.x);
    lemma_unit_factor(m.m12, z.z, z.y);
    lemma_unit_factor(m.m13, z.z, z.x);
    lemma_unit_factor(m.m21, z.z, z.x);
    lemma_unit_factor(m.m22, z.z, z.y);
    lemma_unit_factor(m.m23, z.z, z.x);
    lemma_unit_factor(m.m31, z.z, z.x);
    lemma_unit_factor(m.m32, z.z, z.y);
    lemma_unit_factor(m.m33, z.z, z.x);
}

/// The quaternion of three Euler angles is the product of three turns about
/// the axes: as rotations, the turn about x comes first, then the turn about
/// y, then the turn about z.
pub proof fn euler_is_three_turns(sr: real, cr: real, sp: real, cp: real, sy: real, cy: real)
    ensures
        Quaternion::euler(sr, cr, sp, cp, sy, cy) == Quaternion::about(
            Vector3::<real>::axis_z(),
            sy,
            cy,
        ).product(
            Quaternion::about(Vector3::<real>::axis_y(), sp, cp).product(
                Quaternion::about(Vector3::<real>::axis_x(), sr, cr),
            ),
        ),
{
    lemma_euler_is_three_turns(sr, cr, sp, cp, sy, cy);
}

/// A turn about one of the three axes is the Euler turn with the two other
/// angles zero: the turns about an axis and the setters of the rotation
/// about that axis speak of the same rotation.
pub proof fn turns_about_the_axes_are_euler_turns(sin_half: real, cos_half: real)
    ensures
        Quaternion::about(Vector3::<real>::axis_x(), sin_half, cos_half) == Quaternion::euler(
            sin_half,
            cos_half,
            0real,
            1real,
            0real,
            1real,
        ),
        Quaternion::about(Vector3::<real>::axis_y(), sin_half, cos_half) == Quaternion::euler(
            0real,
            1real,
            sin_half,
            cos_half,
            0real,
            1real,
        ),
        Quaternion::about(Vector3::<real>::axis_z(), sin_half, cos_half) == Quaternion::euler(
            0real,
            1real,
            0real,
            1real,
            sin_half,
            cos_half,
        ),
{
    let s = sin_half;
    let c = cos_half;
    lemma_unit_factor(s, <real as Arith>::one(), <real as Arith>::zero());
    lemma_unit_factor(s, 1real, 0real);
    lemma_unit_factor(c, 1real, 0real);
    lemma_unit_factor(0real, 1real, 0real);
    lemma_unit_factor(1real, 1real, 0real);
    let ex = Quaternion::euler(s, c, 0real, 1real, 0real, 1real);
    assert(ex == Quaternion { x: s, y: 0real, z: 0real, w: c });
    let ey = Quaternion::euler(0real, 1real, s, c, 0real, 1real);
    assert(ey == Quaternion { x: 0real, y: s, z: 0real, w: c });
    let ez = Quaternion::euler(0real, 1real, 0real, 1real, s, c);
    assert(ez == Quaternion { x: 0real, y: 0real, z: s, w: c });
}

/// A quarter turn about the z axis takes the x axis to the y axis: `s` is
/// the sine, and the cosine, of an eighth of a full turn.
pub proof fn quarter_turn_about_z_takes_x_to_y(s: real)
    requires
        2real * (s * s) == 1real,
    ensures
        Quaternion::about(Vector3::<real>::axis_z(), s, s).rotated(Vector3::<real>::axis_x())
            == Vector3::<real>::axis_y(),
{
    let z = Vector3::<real>::axis_z();
    let x = Vector3::<real>::axis_x();
    let cos = s * s - s * s;
    let sin = 2real * (s * s);
    // the z axis has length 1
    lemma_unit_factor(z.x, z.z, z.x);
    lemma_unit_factor(z.y, z.z, z.y);
    lemma_unit_factor(z.z, z.z, z.x);
    assert(z.norm_squared() == 1real);
    lemma_turn_about_axis(z, s, s, x);
    // the part along x vanishes, the cosine of a quarter turn being 0
    lemma_unit_factor(x.x, 1real, cos);
    lemma_unit_factor(x.y, 1real, cos);
    lemma_unit_factor(x.z, 1real, cos);
    assert(x.scaled(cos) == Vector3::<real>::origin());
    // z x x = y, kept whole, the sine of a quarter turn being 1
    let k = z.cross(x);
    lemma_unit_factor(x.x, z.z, z.x);
    lemma_unit_factor(x.y, z.z, z.x);
    lemma_unit_factor(x.z, z.z, z.x);
    lemma_unit_factor(x.x, z.z, z.y);
    lemma_unit_factor(x.y, z.z, z.y);
    lemma_unit_factor(x.z, z.z, z.y);
    assert(k == Vector3::<real>::axis_y());
    lemma_unit_factor(k.x, sin, 0real);
    lemma_unit_factor(k.y, sin, 0real);
    lemma_unit_factor(k.z, sin, 0real);
    assert(k.scaled(sin) == Vector3::<real>::axis_y());
    // the part along z vanishes, x being at right angles to z
    let d = z.dot(x);
    assert(d == 0real);
    let e = (1real - cos) * d;
    lemma_unit_factor(1real - cos, 1real, d);
    lemma_unit_factor(z.x, 1real, e);
    lemma_unit_factor(z.y, 1real, e);
    lemma_unit_factor(z.z, 1real, e);
    assert(z.scaled(e) == Vector3::<real>::origin());
}

/// The quaternion of three Euler angles has norm 1, where the numbers given
/// for each half angle are a sine and a cosine.
pub proof fn euler_is_unit(sr: real, cr: real, sp: real, cp: real, sy: real, cy: real)
    requires
        sr * sr + cr * cr == 1real,
        sp * sp + cp * cp == 1real,
        sy * sy + cy * cy == 1real,
    ensures
        Quaternion::euler(sr, cr, sp, cp, sy, cy).norm_squared() == 1real,
{
    let qx = Quaternion::about(Vector3::<real>::axis_x(), sr, cr);
    let qy = Quaternion::about(Vector3::<real>::axis_y(), sp, cp);
    let qz = Quaternion::about(Vector3::<real>::axis_z(), sy, cy);
    euler_is_three_turns(sr, cr, sp, cp, sy, cy);
    turn_about_axis_is_unit(Vector3::<real>::axis_x(), sr, cr);
    turn_about_axis_is_unit(Vector3::<real>::axis_y(), sp, cp);
    turn_about_axis_is_unit(Vector3::<real>::axis_z(), sy, cy);
    product_of_units_is_unit(qy, qx);
    product_of_units_is_unit(qz, qy.product(qx));
}

/// A quaternion divided by its norm has norm 1, where the norm is a
/// positive number `r`.
pub proof fn normalized_is_unit(q: Quaternion<real>, r: real)
    requires
        r > 0real,
        r * r == q.norm_squared(),
    ensures
        q.normalized().norm_squared() == 1real,
{
    let n = q.norm_squared();
    let k = n.root();
    assert(is_root_of(r, n));
    assert(is_root_of(k, n));
    let kk = k * k;
    assert(r * r > 0real) by (nonlinear_arith)
        requires
            r > 0real,
    ;
    assert(k != 0real) by (nonlinear_arith)
        requires
            k * k > 0real,
    ;
    let u = q.normalized();
    assert((q.x / k) * k == q.x) by (nonlinear_arith)
        requires
            k != 0real,
    ;
    assert((q.y / k) * k == q.y) by (nonlinear_arith)
        requires
            k != 0real,
    ;
    assert((q.z / k) * k == q.z) by (nonlinear_arith)
        requires
            k != 0real,
    ;
    assert((q.w / k) * k == q.w) by (nonlinear_arith)
        requires
            k != 0real,
    ;
    lemma_swap(u.x, k, u.x, k);
    lemma_swap(u.y, k, u.y, k);
    lemma_swap(u.z, k, u.z, k);
    lemma_swap(u.w, k, u.w, k);
    let m = u.norm_squared();
    let xx = u.x * u.x;
    let yy = u.y * u.y;
    let zz = u.z * u.z;
    let ww = u.w * u.w;
    assert(m * kk == xx * kk + zz * kk + yy * kk + ww * kk) by (nonlinear_arith)
        requires
            m == xx + zz + (yy + ww),
    ;
    assert(m * kk == kk);
    assert(m == 1real) by (nonlinear_arith)
        requires
            m * kk == kk,
            kk > 0real,
    ;
}

/// A quaternion of norm 1 is its own normalization.
pub proof fn unit_quaternion_is_normalized(q: Quaternion<real>)
    requires
        q.norm_squared() == 1real,
    ensures
        q.normalized() == q,
{
    let n = q.norm_squared().root();
    assert(is_root_of(1real, 1real));
    assert(is_root_of(n, 1real));
    assert(n == 1real) by (nonlinear_arith)
        requires
            n >= 0real,
            n * n == 1real,
    ;
    lemma_quotient_by_one(q.x, n);
    lemma_quotient_by_one(q.y, n);
    lemma_quotient_by_one(q.z, n);
    lemma_quotient_by_one(q.w, n);
}

/// What is written for a transform reads back as the same translation, the
/// same scale and the normalized rotation, bit for bit.
pub proof fn written_form_reads_back(t: Transform, values: TransformValues)
    requires
        Transform::values_of(t@, values),
    ensures
        values.partial().pose() == (Pose {
            isometry: Isometry {
                rotation: t.isometry.rotation.normalized(),
                translation: t.isometry.translation,
            },
            scale: t.scale,
        }),
{
}

/// The three fields of a written form, read as a sequence or as a mapping
/// that names them in this order, give the transform that the written form
/// stands for.
pub proof fn written_fields_read_back(values: TransformValues)
    ensures
        Transform::read_sequence(seq![values.translation@, values.rotation@, values.scale@])
            == Ok::<Transform, FormatError>(Transform::fresh(values.partial().pose())),
        Transform::read_entries(
            seq![
                (Field::Translation, values.translation@),
                (Field::Rotation, values.rotation@),
                (Field::Scale, values.scale@),
            ],
        ) == Ok::<Transform, FormatError>(Transform::fresh(values.partial().pose())),
{
    let entries = seq![
        (Field::Translation, values.translation@),
        (Field::Rotation, values.rotation@),
        (Field::Scale, values.scale@),
    ];
    let read0 = Partial::empty();
    let read1 = read0.with(Field::Translation, values.translation@);
    let read2 = read1.with(Field::Rotation, values.rotation@);
    let read3 = read2.with(Field::Scale, values.scale@);
    assert(read3 == values.partial());
    reveal_with_fuel(Partial::after, 4);
    assert(Partial::after(entries, 0) == read0);
    assert(Partial::after(entries, 1) == read1);
    assert(Partial::after(entries, 2) == read2);
    assert(Partial::after(entries, 3) == read3);
    reveal_with_fuel(Transform::first_fault, 4);
    assert(Transform::first_fault(entries, 3) == 3);
    assert(Transform::first_fault(entries, 2) == 3);
    assert(Transform::first_fault(entries, 1) == 3);
    assert(Transform::first_fault(entries, 0) == 3);
}

/// A matrix with an entry that is an infinity or a NaN, wherever it stands,
/// is not finite.
pub proof fn bad_entry_is_detected(m: Matrix4<Scalar>, row: int, col: int, value: Scalar)
    requires
        0 <= row < 4,
        0 <= col < 4,
        !value.is_finite(),
    ensures
        !m.with_cell(row, col, value).all_finite(),
{
    assert(m.with_cell(row, col, value).cell(row, col) == value);
}

/// The cached matrix of a transform that was just made is finite.
pub proof fn fresh_transform_is_finite(pose: Pose<Scalar>)
    ensures
        Transform::fresh(pose).global_matrix.all_finite(),
{
    let m = Transform::fresh(pose).global_matrix;
    assert forall|row: int, col: int| 0 <= row < 4 && 0 <= col < 4 implies (#[trigger] m.cell(
        row,
        col,
    )).is_finite() by {
        assert(m.cell(row, col) == Scalar::zero() || m.cell(row, col) == Scalar::one());
    }
}

} // verus!
