use spatial_transform::{Isometry, Matrix4, Quaternion, Scalar, Transform, Vector3};

fn s(x: f64) -> Scalar {
    Scalar::from_bits(x.to_bits())
}

fn f(x: Scalar) -> f64 {
    f64::from_bits(x.to_bits())
}

fn v(x: f64, y: f64, z: f64) -> Vector3<Scalar> {
    Vector3::new(s(x), s(y), s(z))
}

fn at(t: &Transform) -> (f64, f64, f64) {
    let p = t.translation();
    (f(p.x), f(p.y), f(p.z))
}

fn close(a: (f64, f64, f64), b: (f64, f64, f64)) -> bool {
    (a.0 - b.0).abs() <= 1.0e-15 && (a.1 - b.1).abs() <= 1.0e-15 && (a.2 - b.2).abs() <= 1.0e-15
}

fn parts(q: &Quaternion<Scalar>) -> (f64, f64, f64, f64) {
    (f(q.x), f(q.y), f(q.z), f(q.w))
}

fn close4(a: (f64, f64, f64, f64), b: (f64, f64, f64, f64)) -> bool {
    (a.0 - b.0).abs() <= 1.0e-15
        && (a.1 - b.1).abs() <= 1.0e-15
        && (a.2 - b.2).abs() <= 1.0e-15
        && (a.3 - b.3).abs() <= 1.0e-15
}

const QUARTER_TURN: f64 = std::f64::consts::FRAC_PI_2;
const R: f64 = std::f64::consts::FRAC_1_SQRT_2;

#[test]
fn append_and_prepend_agree_from_the_identity() {
    let mut a = Transform::default();
    a.append_translation(v(1.5, -2.0, 3.25));
    let mut p = Transform::default();
    p.prepend_translation(v(1.5, -2.0, 3.25));
    assert_eq!(at(&a), (1.5, -2.0, 3.25));
    assert_eq!(at(&p), (1.5, -2.0, 3.25));
    assert_eq!(a, p);
}

#[test]
fn append_follows_the_rotation_and_prepend_does_not() {
    let forward = v(0.0, 0.0, -1.0);
    let mut a = Transform::default();
    a.set_rotation_y_axis(s(QUARTER_TURN));
    a.append_translation_along(forward, s(1.0));
    let mut p = Transform::default();
    p.set_rotation_y_axis(s(QUARTER_TURN));
    p.prepend_translation_along(forward, s(1.0));
    assert!(close(at(&a), (-1.0, 0.0, 0.0)));
    assert_eq!(at(&p), (0.0, 0.0, -1.0));
    assert_ne!(at(&a), at(&p));
}

#[test]
fn append_translation_turns_the_vector_first() {
    let mut t = Transform::from(v(10.0, 20.0, 30.0));
    t.set_rotation_y_axis(s(QUARTER_TURN));
    t.append_translation(v(0.0, 0.0, 2.0));
    assert!((at(&t).0 - 12.0).abs() <= 1.0e-14);
    assert!((at(&t).1 - 20.0).abs() <= 1.0e-14);
    assert!((at(&t).2 - 30.0).abs() <= 1.0e-14);
    t.prepend_translation(v(0.0, 0.0, 2.0));
    assert!((at(&t).2 - 32.0).abs() <= 1.0e-14);
}

#[test]
fn translations_along_a_direction() {
    let mut t = Transform::from(v(1.0, 1.0, 1.0));
    t.prepend_translation_along(v(0.0, 1.0, 0.0), s(2.5));
    assert_eq!(at(&t), (1.0, 3.5, 1.0));
    t.append_translation_along(v(1.0, 0.0, 0.0), s(-4.0));
    assert_eq!(at(&t), (-3.0, 3.5, 1.0));
}

#[test]
fn moves_along_the_own_axes() {
    let mut t = Transform::default();
    t.move_forward(s(1.0));
    assert_eq!(at(&t), (0.0, 0.0, -1.0));
    t.move_backward(s(3.0));
    assert_eq!(at(&t), (0.0, 0.0, 2.0));
    t.move_right(s(4.0));
    assert_eq!(at(&t), (4.0, 0.0, 2.0));
    t.move_left(s(1.0));
    assert_eq!(at(&t), (3.0, 0.0, 2.0));
    t.move_up(s(5.0));
    assert_eq!(at(&t), (3.0, 5.0, 2.0));
    t.move_down(s(7.0));
    assert_eq!(at(&t), (3.0, -2.0, 2.0));
}

#[test]
fn moves_follow_the_rotation() {
    let mut t = Transform::default();
    t.set_rotation_y_axis(s(QUARTER_TURN));
    t.move_forward(s(2.0));
    assert!(close(at(&t), (-2.0, 0.0, 0.0)));
    let mut t = Transform::default();
    t.set_rotation_z_axis(s(QUARTER_TURN));
    t.move_right(s(2.0));
    assert!(close(at(&t), (0.0, 2.0, 0.0)));
}

#[test]
fn translation_components() {
    let mut t = Transform::default();
    t.set_translation_x(s(1.0)).set_translation_y(s(2.0)).set_translation_z(s(3.0));
    assert_eq!(at(&t), (1.0, 2.0, 3.0));
    t.prepend_translation_x(s(0.5)).prepend_translation_y(s(-2.0)).prepend_translation_z(s(10.0));
    assert_eq!(at(&t), (1.5, 0.0, 13.0));
    t.set_translation(v(7.0, 8.0, 9.0));
    assert_eq!(at(&t), (7.0, 8.0, 9.0));
    t.set_translation_xyz(s(-1.0), s(-2.0), s(-3.0));
    assert_eq!(at(&t), (-1.0, -2.0, -3.0));
    t.append_translation_xyz(s(1.0), s(1.0), s(1.0));
    assert_eq!(at(&t), (0.0, -1.0, -2.0));
    *t.translation_mut() = v(4.0, 5.0, 6.0);
    assert_eq!(at(&t), (4.0, 5.0, 6.0));
}

#[test]
fn accessors_write_through() {
    let mut t = Transform::default();
    *t.scale_mut() = v(2.0, 3.0, 4.0);
    assert_eq!(*t.scale(), v(2.0, 3.0, 4.0));
    t.set_scale(v(1.0, 2.0, 1.0));
    assert_eq!(*t.scale(), v(1.0, 2.0, 1.0));
    let q = Quaternion::new(s(0.0), s(1.0), s(0.0), s(0.0));
    *t.rotation_mut() = q;
    assert_eq!(*t.rotation(), q);
    let iso = Isometry::from_parts(v(1.0, 2.0, 3.0), Quaternion::one());
    t.set_isometry(iso);
    assert_eq!(*t.isometry(), iso);
    t.isometry_mut().translation = v(0.0, 0.0, 9.0);
    assert_eq!(at(&t), (0.0, 0.0, 9.0));
    assert_eq!(*t.global_matrix(), Matrix4::one());
}

#[test]
fn a_rotation_written_directly_is_not_normalized() {
    let mut t = Transform::default();
    let q = Quaternion::new(s(2.0), s(0.0), s(0.0), s(0.0));
    t.set_rotation(q);
    assert_eq!(*t.rotation(), q);
    *t.rotation_mut() = Quaternion::new(s(0.0), s(0.0), s(3.0), s(0.0));
    assert_eq!(parts(t.rotation()), (0.0, 3.0, 0.0, 0.0));
}

#[test]
fn set_rotation_euler_replaces_the_rotation() {
    let mut t = Transform::default();
    t.set_rotation_euler(s(1.0), s(0.0), s(0.0));
    assert!(close4(parts(t.rotation()), ((0.5f64).sin(), 0.0, 0.0, (0.5f64).cos())));
    t.set_rotation_euler(s(0.0), s(QUARTER_TURN), s(0.0));
    assert!(close4(parts(t.rotation()), (0.0, R, 0.0, R)));
    t.set_rotation_x_axis(s(QUARTER_TURN));
    assert!(close4(parts(t.rotation()), (R, 0.0, 0.0, R)));
    t.set_rotation_y_axis(s(QUARTER_TURN));
    assert!(close4(parts(t.rotation()), (0.0, R, 0.0, R)));
    t.set_rotation_z_axis(s(QUARTER_TURN));
    assert!(close4(parts(t.rotation()), (0.0, 0.0, R, R)));
    t.set_rotation_2d(s(-QUARTER_TURN));
    assert!(close4(parts(t.rotation()), (0.0, 0.0, -R, R)));
}

#[test]
fn large_angles_wrap() {
    let mut t = Transform::default();
    t.set_rotation_z_axis(s(QUARTER_TURN + 200.0 * std::f64::consts::PI));
    let q = parts(t.rotation());
    assert!((q.2.abs() - R).abs() <= 1.0e-12);
    assert!((q.3.abs() - R).abs() <= 1.0e-12);
    assert!((q.2 * q.2 + q.3 * q.3 - 1.0).abs() <= 1.0e-15);
}

#[test]
fn prepend_rotation_multiplies_on_the_left() {
    let mut t = Transform::default();
    t.set_rotation_x_axis(s(QUARTER_TURN));
    let before = *t.rotation();
    t.prepend_rotation(v(0.0, 1.0, 0.0), s(QUARTER_TURN));
    let delta = Quaternion::from_axis_angle(&v(0.0, 1.0, 0.0), s(QUARTER_TURN));
    assert_eq!(*t.rotation(), delta.mul(&before));
    assert!(close4(parts(t.rotation()), (0.5, 0.5, -0.5, 0.5)));
}

#[test]
fn append_rotation_multiplies_on_the_right() {
    let mut t = Transform::default();
    t.set_rotation_x_axis(s(QUARTER_TURN));
    let before = *t.rotation();
    t.append_rotation(v(0.0, 1.0, 0.0), s(QUARTER_TURN));
    let delta = Quaternion::from_axis_angle(&v(0.0, 1.0, 0.0), s(QUARTER_TURN));
    assert_eq!(*t.rotation(), before.mul(&delta));
    assert!(close4(parts(t.rotation()), (0.5, 0.5, 0.5, 0.5)));
}

#[test]
fn rotations_about_the_axes() {
    let mut t = Transform::default();
    t.prepend_rotation_x_axis(s(QUARTER_TURN));
    assert!(close4(parts(t.rotation()), (R, 0.0, 0.0, R)));
    let mut t = Transform::default();
    t.append_rotation_x_axis(s(QUARTER_TURN));
    assert!(close4(parts(t.rotation()), (R, 0.0, 0.0, R)));
    let mut t = Transform::default();
    t.prepend_rotation_y_axis(s(QUARTER_TURN));
    assert!(close4(parts(t.rotation()), (0.0, R, 0.0, R)));
    let mut t = Transform::default();
    t.append_rotation_y_axis(s(QUARTER_TURN));
    assert!(close4(parts(t.rotation()), (0.0, R, 0.0, R)));
    let mut t = Transform::default();
    t.prepend_rotation_z_axis(s(QUARTER_TURN));
    assert!(close4(parts(t.rotation()), (0.0, 0.0, R, R)));
    let mut t = Transform::default();
    t.append_rotation_z_axis(s(QUARTER_TURN));
    assert!(close4(parts(t.rotation()), (0.0, 0.0, R, R)));
    let mut t = Transform::default();
    t.rotate_2d(s(QUARTER_TURN));
    assert!(close4(parts(t.rotation()), (0.0, 0.0, R, R)));
}

#[test]
fn movers_leave_the_cached_matrix_alone() {
    let mut t = Transform::default();
    let mut m = Matrix4::one();
    m.set(0, 3, s(42.0));
    t.global_matrix = m;
    t.set_translation_xyz(s(1.0), s(2.0), s(3.0))
        .set_scale(v(2.0, 2.0, 2.0))
        .prepend_rotation_y_axis(s(1.0))
        .append_translation(v(1.0, 0.0, 0.0))
        .move_up(s(3.0));
    let other = Transform::from(v(1.0, 1.0, 1.0));
    t.concat(&other);
    t.face_towards(v(0.0, 0.0, 0.0), v(0.0, 1.0, 0.0));
    assert_eq!(*t.global_matrix(), m);
}

#[test]
fn concat_uses_rotation_and_scale_as_they_were() {
    let mut parent = Transform::default();
    parent.set_translation_xyz(s(1.0), s(2.0), s(3.0));
    parent.set_scale(v(2.0, 3.0, 4.0));
    parent.set_rotation(Quaternion::new(s(0.0), s(0.0), s(0.0), s(1.0)));
    let mut child = Transform::default();
    child.set_translation_xyz(s(1.0), s(1.0), s(1.0));
    child.set_scale(v(5.0, 6.0, 7.0));
    child.set_rotation(Quaternion::new(s(0.0), s(1.0), s(0.0), s(0.0)));
    parent.concat(&child);
    // a half turn about z takes (2, 3, 4) to (-2, -3, 4)
    assert_eq!(at(&parent), (-1.0, -1.0, 7.0));
    assert_eq!(*parent.scale(), v(10.0, 18.0, 28.0));
    // k * i = j
    assert_eq!(parts(parent.rotation()), (0.0, 1.0, 0.0, 0.0));
}

#[test]
fn a_quarter_turn_about_z_takes_x_to_y() {
    let x = v(1.0, 0.0, 0.0);
    let mut set = Transform::default();
    set.set_rotation_z_axis(s(QUARTER_TURN));
    let mut prepended = Transform::default();
    prepended.prepend_rotation_z_axis(s(QUARTER_TURN));
    let mut appended = Transform::default();
    appended.append_rotation_z_axis(s(QUARTER_TURN));
    let mut flat = Transform::default();
    flat.rotate_2d(s(QUARTER_TURN));
    let mut flat_set = Transform::default();
    flat_set.set_rotation_2d(s(QUARTER_TURN));
    for t in [&set, &prepended, &appended, &flat, &flat_set] {
        let y = t.rotation().rotate(&x);
        assert!((f(y.x) - 0.0).abs() <= 1.0e-12);
        assert!((f(y.y) - 1.0).abs() <= 1.0e-12);
        assert!((f(y.z) - 0.0).abs() <= 1.0e-12);
        assert!(close4(parts(t.rotation()), parts(set.rotation())));
    }
    assert_eq!(prepended, flat);
}

#[test]
fn turns_about_x_and_y_agree_with_the_setters() {
    let mut set = Transform::default();
    set.set_rotation_x_axis(s(0.7));
    let mut turned = Transform::default();
    turned.prepend_rotation_x_axis(s(0.7));
    assert!(close4(parts(set.rotation()), parts(turned.rotation())));
    let mut set = Transform::default();
    set.set_rotation_y_axis(s(-1.3));
    let mut turned = Transform::default();
    turned.append_rotation_y_axis(s(-1.3));
    assert!(close4(parts(set.rotation()), parts(turned.rotation())));
}

#[test]
fn quaternions_from_half_angles() {
    let q = Quaternion::from_half_angle(&v(0.0, 0.6, 0.8), s(0.5), s(0.25));
    assert_eq!(parts(&q), (0.0, 0.3, 0.4, 0.25));
    let q = Quaternion::from_half_angles(s(0.0), s(1.0), s(0.0), s(1.0), s(0.5), s(0.25));
    assert_eq!(parts(&q), (0.0, 0.0, 0.5, 0.25));
    let q = Quaternion::from_half_angles(s(0.5), s(2.0), s(3.0), s(4.0), s(5.0), s(6.0));
    // x = sr cp cy - cr sp sy, y = cr sp cy + sr cp sy,
    // z = cr cp sy - sr sp cy, w = cr cp cy + sr sp sy
    assert_eq!(parts(&q), (12.0 - 30.0, 36.0 + 10.0, 40.0 - 9.0, 48.0 + 7.5));
}
