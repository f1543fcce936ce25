use spatial_transform::{Isometry, Matrix3, Matrix4, Quaternion, Scalar, Transform, Vector3};

fn s(x: f64) -> Scalar {
    Scalar::from_bits(x.to_bits())
}

fn f(x: Scalar) -> f64 {
    f64::from_bits(x.to_bits())
}

fn v(x: f64, y: f64, z: f64) -> Vector3<Scalar> {
    Vector3::new(s(x), s(y), s(z))
}

fn nv(a: &Vector3<Scalar>) -> nalgebra::Vector3<f64> {
    nalgebra::Vector3::new(f(a.x), f(a.y), f(a.z))
}

fn quat(q: &nalgebra::UnitQuaternion<f64>) -> Quaternion<Scalar> {
    Quaternion::new(s(q.w), s(q.i), s(q.j), s(q.k))
}

fn nq(q: &Quaternion<Scalar>) -> nalgebra::UnitQuaternion<f64> {
    nalgebra::UnitQuaternion::new_unchecked(nalgebra::Quaternion::new(
        f(q.w),
        f(q.x),
        f(q.y),
        f(q.z),
    ))
}

fn to_na(m: &Matrix4<Scalar>) -> nalgebra::Matrix4<f64> {
    nalgebra::Matrix4::from_fn(|row, col| f(m.get(row, col)))
}

fn rotations() -> Vec<nalgebra::UnitQuaternion<f64>> {
    vec![
        nalgebra::UnitQuaternion::identity(),
        nalgebra::UnitQuaternion::rotation_between(
            &nalgebra::Vector3::new(-1., 1., 2.),
            &nalgebra::Vector3::new(1., 0., 0.),
        )
        .unwrap(),
        nalgebra::UnitQuaternion::rotation_between(
            &nalgebra::Vector3::new(7., -1., 3.),
            &nalgebra::Vector3::new(2., 1., 1.),
        )
        .unwrap(),
        nalgebra::UnitQuaternion::from_euler_angles(0.4, 0.2, -1.3),
    ]
}

fn transform(
    t: (f64, f64, f64),
    q: &nalgebra::UnitQuaternion<f64>,
    k: (f64, f64, f64),
) -> Transform {
    Transform::new(v(t.0, t.1, t.2), quat(q), v(k.0, k.1, k.2))
}

fn same_bits(a: &nalgebra::Matrix4<f64>, b: &nalgebra::Matrix4<f64>) -> bool {
    a.iter().zip(b.iter()).all(|(x, y)| x.to_bits() == y.to_bits())
}

#[test]
fn matrix_of_a_scaled_translation() {
    let t = Transform::new(v(1.0, 2.0, 3.0), Quaternion::one(), v(2.0, 3.0, 4.0));
    let expected = nalgebra::Matrix4::new(
        2.0, 0.0, 0.0, 1.0, 0.0, 3.0, 0.0, 2.0, 0.0, 0.0, 4.0, 3.0, 0.0, 0.0, 0.0, 1.0,
    );
    assert_eq!(to_na(&t.matrix()), expected);
}

#[test]
fn view_matrix_of_a_scaled_translation() {
    let t = Transform::new(v(1.0, 2.0, 3.0), Quaternion::one(), v(2.0, 4.0, 8.0));
    let expected = nalgebra::Matrix4::new(
        0.5, 0.0, 0.0, -0.5, 0.0, 0.25, 0.0, -0.5, 0.0, 0.0, 0.125, -0.375, 0.0, 0.0, 0.0, 1.0,
    );
    assert_eq!(to_na(&t.view_matrix()), expected);
}

#[test]
fn matrix_is_translation_times_rotation_times_scale() {
    for q in rotations() {
        let t = transform((5.0, 70.1, 43.7), &q, (1.0, 5.0, 8.9));
        let expected = nalgebra::Translation3::new(5.0, 70.1, 43.7).to_homogeneous()
            * q.to_homogeneous()
            * nalgebra::Matrix4::new_nonuniform_scaling(&nalgebra::Vector3::new(1.0, 5.0, 8.9));
        let got = to_na(&t.matrix());
        assert!((got - expected).abs().max() <= 1.0e-13);
    }
}

#[test]
fn matrix_agrees_with_nalgebra_to_the_bit() {
    for q in rotations() {
        let t = transform((5.0, 70.1, 43.7), &q, (1.0, 5.0, 8.9));
        let iso = nalgebra::Isometry3::from_parts(nalgebra::Translation3::new(5.0, 70.1, 43.7), q);
        let scale = nalgebra::Vector3::new(1.0, 5.0, 8.9);
        let expected = iso.to_homogeneous().prepend_nonuniform_scaling(&scale);
        assert!(same_bits(&to_na(&t.matrix()), &expected));
        let inv_scale = nalgebra::Vector3::new(1.0 / 1.0, 1.0 / 5.0, 1.0 / 8.9);
        let expected = iso.inverse().to_homogeneous().append_nonuniform_scaling(&inv_scale);
        assert!(same_bits(&to_na(&t.view_matrix()), &expected));
    }
}

#[test]
fn view_matrix_times_matrix_is_the_identity() {
    for q in rotations() {
        let t = transform((-3.0, 0.25, 12.0), &q, (2.0, -0.5, 3.0));
        let p = to_na(&t.view_matrix()) * to_na(&t.matrix());
        assert!((p - nalgebra::Matrix4::identity()).abs().max() <= 1.0e-13);
        let p = to_na(&t.matrix()) * to_na(&t.view_matrix());
        assert!((p - nalgebra::Matrix4::identity()).abs().max() <= 1.0e-13);
    }
}

#[test]
fn view_matrix_with_a_zero_scale_is_not_finite() {
    let t = Transform::new(v(1.0, 2.0, 3.0), Quaternion::one(), v(0.0, 1.0, 1.0));
    let m = t.view_matrix();
    assert!(!m.is_finite());
    let mut u = Transform::default();
    u.global_matrix = m;
    assert!(!u.is_finite());
}

#[test]
fn concat_agrees_with_nalgebra_to_the_bit() {
    let qs = rotations();
    let mut first = transform((20.0, 10.0, -3.0), &qs[1], (2.0, 3.0, 0.5));
    let second = transform((2.0, 1.0, -3.0), &qs[2], (1.5, 1.0, 4.0));
    let translation = nalgebra::Vector3::new(20.0, 10.0, -3.0)
        + qs[1]
            * nalgebra::Vector3::new(2.0, 1.0, -3.0)
                .component_mul(&nalgebra::Vector3::new(2.0, 3.0, 0.5));
    let rotation = qs[1] * qs[2];
    first.concat(&second);
    assert_eq!(nv(first.translation()), translation);
    assert_eq!(nq(first.rotation()), rotation);
    assert_eq!(nv(first.scale()), nalgebra::Vector3::new(3.0, 3.0, 2.0));
    assert_eq!(to_na(first.global_matrix()), nalgebra::Matrix4::identity());
}

#[test]
fn concat_with_the_default_changes_nothing() {
    for q in rotations() {
        let x = transform((20.0, 10.0, -3.0), &q, (2.0, 3.0, 0.5));
        let mut left = Transform::default();
        left.concat(&x);
        assert!((to_na(&left.matrix()) - to_na(&x.matrix())).abs().max() <= 1.0e-14);
        let mut right = x.clone();
        right.concat(&Transform::default());
        assert!((to_na(&right.matrix()) - to_na(&x.matrix())).abs().max() <= 1.0e-14);
    }
}

#[test]
fn default_is_the_identity() {
    let t = Transform::default();
    assert_eq!(to_na(&t.matrix()), nalgebra::Matrix4::identity());
    assert_eq!(to_na(&t.view_matrix()), nalgebra::Matrix4::identity());
    assert_eq!(to_na(t.global_matrix()), nalgebra::Matrix4::identity());
    assert_eq!(nv(t.translation()), nalgebra::Vector3::zeros());
    assert_eq!(nv(t.scale()), nalgebra::Vector3::new(1.0, 1.0, 1.0));
    assert_eq!(*t.rotation(), Quaternion::one());
    assert_eq!(*t.isometry(), Isometry::one());
    assert!(t.is_finite());
}

#[test]
fn from_a_vector_only_translates() {
    let t = Transform::from(v(100.0, 200.0, 300.0));
    assert_eq!(f(t.translation().x), 100.0);
    assert_eq!(nv(t.translation()), nalgebra::Vector3::new(100.0, 200.0, 300.0));
    assert_eq!(*t.rotation(), Quaternion::one());
    assert_eq!(nv(t.scale()), nalgebra::Vector3::new(1.0, 1.0, 1.0));
    assert_eq!(to_na(t.global_matrix()), nalgebra::Matrix4::identity());
}

#[test]
fn new_keeps_its_parts() {
    let q = nalgebra::UnitQuaternion::from_euler_angles(0.4, 0.2, 0.0);
    let t = Transform::new(v(0.0, 2.0, 4.0), quat(&q), v(1.0, 1.0, 1.0));
    assert_eq!(f(t.translation().y), 2.0);
    assert_eq!(nq(t.rotation()), q);
    assert_eq!(to_na(t.global_matrix()), nalgebra::Matrix4::identity());
}

#[test]
fn rotating_a_vector_agrees_with_nalgebra_to_the_bit() {
    for q in rotations() {
        let a = nalgebra::Vector3::new(0.3, -2.0, 5.5);
        assert_eq!(nv(&quat(&q).rotate(&v(0.3, -2.0, 5.5))), q * a);
    }
}

#[test]
fn rotation_matrix_agrees_with_nalgebra_to_the_bit() {
    for q in rotations() {
        let m: Matrix3<Scalar> = quat(&q).to_rotation_matrix();
        let e = q.to_rotation_matrix();
        let e = e.matrix();
        let got = [
            [m.m11, m.m12, m.m13],
            [m.m21, m.m22, m.m23],
            [m.m31, m.m32, m.m33],
        ];
        for row in 0..3 {
            for col in 0..3 {
                assert_eq!(f(got[row][col]).to_bits(), e[(row, col)].to_bits());
            }
        }
    }
}

#[test]
fn isometry_inverse_agrees_with_nalgebra_to_the_bit() {
    for q in rotations() {
        let iso = Isometry::from_parts(v(5.0, 70.1, 43.7), quat(&q));
        let e = nalgebra::Isometry3::from_parts(nalgebra::Translation3::new(5.0, 70.1, 43.7), q)
            .inverse();
        let got = iso.invert();
        assert_eq!(nv(&got.translation), e.translation.vector);
        assert_eq!(nq(&got.rotation), e.rotation);
        assert!(same_bits(&to_na(&iso.to_homogeneous()), &e.inverse().to_homogeneous())
            || (to_na(&iso.to_homogeneous()) - e.inverse().to_homogeneous()).abs().max() <= 1e-13);
    }
}

#[test]
fn from_rotation_matrix_agrees_with_nalgebra_to_the_bit() {
    let mut all = rotations();
    all.push(nalgebra::UnitQuaternion::from_euler_angles(3.0, 0.1, 0.2));
    all.push(nalgebra::UnitQuaternion::from_euler_angles(0.1, 3.0, 0.2));
    all.push(nalgebra::UnitQuaternion::from_euler_angles(0.1, 0.2, 3.0));
    for q in all {
        let m = quat(&q).to_rotation_matrix();
        let got = Quaternion::from_rotation_matrix(&m);
        let e = nalgebra::UnitQuaternion::from_rotation_matrix(&q.to_rotation_matrix());
        assert_eq!(nq(&got), e);
    }
}

#[test]
fn face_towards_agrees_with_nalgebra_to_the_bit() {
    let dir = nalgebra::Vector3::new(1.0, 2.0, 3.0);
    let up = nalgebra::Vector3::y();
    let e = nalgebra::UnitQuaternion::face_towards(&dir, &up);
    let got = Quaternion::face_towards(&v(1.0, 2.0, 3.0), &v(0.0, 1.0, 0.0));
    assert_eq!(nq(&got), e);
    let m = Matrix3::face_towards(&v(1.0, 2.0, 3.0), &v(0.0, 1.0, 0.0));
    let r = nalgebra::Rotation3::face_towards(&dir, &up);
    assert_eq!(f(m.m13).to_bits(), r.matrix()[(0, 2)].to_bits());
    assert_eq!(f(m.m31).to_bits(), r.matrix()[(2, 0)].to_bits());
    assert_eq!(f(m.m22).to_bits(), r.matrix()[(1, 1)].to_bits());
}

#[test]
fn face_towards_then_forward_reaches_the_target() {
    let mut t = Transform::default();
    // No rotation by default
    assert_eq!(*t.rotation(), Quaternion::one());
    // look up with up pointing backwards
    t.face_towards(v(0.0, 1.0, 0.0), v(0.0, 0.0, 1.0));
    // our rotation should match the angle from straight ahead to straight up
    let rotation = nalgebra::UnitQuaternion::rotation_between(
        &nalgebra::Vector3::new(0.0, 1.0, 0.0),
        &nalgebra::Vector3::new(0.0, 0.0, 1.0),
    )
    .unwrap();
    assert_eq!(nq(t.rotation()), rotation);
    // now if we move forwards by 1.0, we'll end up at the point we are facing
    t.move_forward(s(1.0));
    assert!((nv(t.translation()) - nalgebra::Vector3::new(0.0, 1.0, 0.0)).magnitude() <= 0.0001);
}

#[test]
fn face_towards_with_up_along_the_view_is_no_failure() {
    let mut t = Transform::default();
    t.face_towards(v(0.0, 0.0, -5.0), v(0.0, 0.0, 1.0));
    let q = t.rotation();
    assert!(q.x.nan() || q.y.nan() || q.z.nan() || q.w.nan());
}

#[test]
fn from_axis_angle_is_close_to_nalgebra() {
    let axis = nalgebra::Unit::new_normalize(nalgebra::Vector3::new(1.0, 2.0, 3.0));
    for angle in [0.0, 1.78, -0.3, 3.141592653589793, 100.0] {
        let e = nalgebra::UnitQuaternion::from_axis_angle(&axis, angle);
        let got = Quaternion::from_axis_angle(&v(axis.x, axis.y, axis.z), s(angle));
        assert!((f(got.w) - e.w).abs() <= 1.0e-15);
        assert!((f(got.x) - e.i).abs() <= 1.0e-15);
        assert!((f(got.y) - e.j).abs() <= 1.0e-15);
        assert!((f(got.z) - e.k).abs() <= 1.0e-15);
    }
}

#[test]
fn from_euler_angles_is_close_to_nalgebra() {
    for (x, y, z) in [(1.0, 0.0, 0.0), (0.1, 0.2, 0.3), (-2.0, 7.5, 1.0e3)] {
        let e = nalgebra::UnitQuaternion::from_euler_angles(x, y, z);
        let got = Quaternion::from_euler_angles(s(x), s(y), s(z));
        assert!((f(got.w) - e.w).abs() <= 1.0e-15);
        assert!((f(got.x) - e.i).abs() <= 1.0e-15);
        assert!((f(got.y) - e.j).abs() <= 1.0e-15);
        assert!((f(got.z) - e.k).abs() <= 1.0e-15);
    }
}

fn norm_squared(q: &Quaternion<Scalar>) -> f64 {
    f(q.squared_norm())
}

#[test]
fn euler_angles_turn_about_x_then_y_then_z() {
    for (x, y, z) in [(0.3, -1.1, 2.0), (1.0, 0.0, 0.0), (-2.5, 0.7, 0.1)] {
        let qx = Quaternion::from_axis_angle(&Vector3::x_axis(), s(x));
        let qy = Quaternion::from_axis_angle(&Vector3::y_axis(), s(y));
        let qz = Quaternion::from_axis_angle(&Vector3::z_axis(), s(z));
        let expected = qz.mul(&qy.mul(&qx));
        let got = Quaternion::from_euler_angles(s(x), s(y), s(z));
        assert!((f(got.w) - f(expected.w)).abs() <= 1.0e-15);
        assert!((f(got.x) - f(expected.x)).abs() <= 1.0e-15);
        assert!((f(got.y) - f(expected.y)).abs() <= 1.0e-15);
        assert!((f(got.z) - f(expected.z)).abs() <= 1.0e-15);
    }
}

#[test]
fn rotations_keep_the_norm_close_to_one() {
    let mut t = Transform::default();
    t.set_rotation_euler(s(0.3), s(-1.1), s(2.0));
    assert!((norm_squared(t.rotation()) - 1.0).abs() <= 1.0e-15);
    t.prepend_rotation(v(0.0, 0.6, 0.8), s(1.25));
    t.append_rotation(v(1.0, 0.0, 0.0), s(-0.5));
    t.rotate_2d(s(3.0));
    let other = transform((1.0, 2.0, 3.0), &rotations()[1], (1.0, 1.0, 1.0));
    t.concat(&other);
    assert!((norm_squared(t.rotation()) - 1.0).abs() <= 1.0e-14);
    let n = t.rotation().normalize();
    assert!((norm_squared(&n) - 1.0).abs() <= 1.0e-15);
    let c = t.rotation().conjugate();
    assert_eq!(norm_squared(&c), norm_squared(t.rotation()));
}

#[test]
fn rotation_matrix_of_a_product_is_the_product_of_the_matrices() {
    let qs = rotations();
    let p = quat(&qs[1]);
    let q = quat(&qs[3]);
    let m = p.mul(&q).to_rotation_matrix();
    let e = qs[1].to_rotation_matrix() * qs[3].to_rotation_matrix();
    let got = [[m.m11, m.m12, m.m13], [m.m21, m.m22, m.m23], [m.m31, m.m32, m.m33]];
    for row in 0..3 {
        for col in 0..3 {
            assert!((f(got[row][col]) - e.matrix()[(row, col)]).abs() <= 1.0e-15);
        }
    }
}
