use approx::{RelativeEq, UlpsEq};
use spatial_transform::{Matrix4, Quaternion, Scalar, Transform, Vector3};

fn s(x: f64) -> Scalar {
    Scalar::from_bits(x.to_bits())
}

fn f(x: Scalar) -> f64 {
    f64::from_bits(x.to_bits())
}

fn v(x: f64, y: f64, z: f64) -> Vector3<Scalar> {
    Vector3::new(s(x), s(y), s(z))
}

fn quat(q: nalgebra::UnitQuaternion<f64>) -> Quaternion<Scalar> {
    Quaternion::new(s(q.w), s(q.i), s(q.j), s(q.k))
}

fn to_na(m: &Matrix4<Scalar>) -> nalgebra::Matrix4<f64> {
    nalgebra::Matrix4::from_fn(|row, col| f(m.get(row, col)))
}

fn rotation_between(
    a: nalgebra::Vector3<f64>,
    b: nalgebra::Vector3<f64>,
) -> Quaternion<Scalar> {
    quat(nalgebra::UnitQuaternion::rotation_between(&a, &b).unwrap())
}

/// Sanity test for concat operation
#[test]
fn test_mul() {
    // For the condition to hold both scales must be uniform
    let mut first = Transform::default();
    first.set_translation_xyz(s(20.), s(10.), s(-3.));
    first.set_scale(v(2., 2., 2.));
    first.set_rotation(rotation_between(
        nalgebra::Vector3::new(-1., 1., 2.),
        nalgebra::Vector3::new(1., 0., 0.),
    ));

    let mut second = Transform::default();
    second.set_translation_xyz(s(2.), s(1.), s(-3.));
    second.set_scale(v(1., 1., 1.));
    second.set_rotation(rotation_between(
        nalgebra::Vector3::new(7., -1., 3.),
        nalgebra::Vector3::new(2., 1., 1.),
    ));

    // check Mat(first * second) == Mat(first) * Mat(second)
    let product = to_na(&first.matrix()) * to_na(&second.matrix());
    let concat = to_na(&first.concat(&second).matrix());
    assert!(product.relative_eq(&concat, f64::EPSILON, 0.0000000000001));
    let product = to_na(&first.matrix()) * to_na(&second.matrix());
    let concat = to_na(&first.concat(&second).matrix());
    assert!(product.relative_eq(&concat, f64::EPSILON, 0.0000000000001));
}

#[test]
fn test_view_matrix() {
    let mut transform = Transform::default();
    transform.set_translation_xyz(s(5.0), s(70.1), s(43.7));
    transform.set_scale(v(1.0, 5.0, 8.9));
    transform.set_rotation(rotation_between(
        nalgebra::Vector3::new(-1., 1., 2.),
        nalgebra::Vector3::new(1., 0., 0.),
    ));

    assert!(to_na(&transform.matrix())
        .try_inverse()
        .unwrap()
        .ulps_eq(&to_na(&transform.view_matrix()), f64::EPSILON, 4));
}

#[test]
fn is_finite() {
    let mut transform = Transform::default();
    assert!(transform.is_finite());

    transform.global_matrix.fill_row(2, s(f64::NAN));
    assert!(!transform.is_finite());
}
