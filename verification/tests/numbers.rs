use spatial_transform::{Matrix4, Quaternion, Scalar, Vector3};

fn s(x: f64) -> Scalar {
    Scalar::from_bits(x.to_bits())
}

fn f(x: Scalar) -> f64 {
    f64::from_bits(x.to_bits())
}

fn samples() -> Vec<f64> {
    vec![
        0.0,
        -0.0,
        1.0,
        -1.0,
        0.5,
        2.0,
        3.0,
        -7.25,
        0.1,
        1.0e-310,
        -4.9e-324,
        1.0e300,
        -1.7976931348623157e308,
        6.02214076e23,
        std::f64::consts::PI,
        f64::INFINITY,
        f64::NEG_INFINITY,
        f64::NAN,
    ]
}

fn same(a: f64, b: f64) -> bool {
    (a.is_nan() && b.is_nan()) || a.to_bits() == b.to_bits()
}

#[test]
fn bits_round_trip() {
    for x in samples() {
        assert_eq!(s(x).to_bits(), x.to_bits());
    }
    assert_eq!(Scalar::new_zero().to_bits(), 0.0f64.to_bits());
    assert_eq!(Scalar::new_one().to_bits(), 1.0f64.to_bits());
    assert_eq!(Scalar::new_two().to_bits(), 2.0f64.to_bits());
    assert_eq!(Scalar::new_half().to_bits(), 0.5f64.to_bits());
    assert_eq!(Scalar::new_quarter().to_bits(), 0.25f64.to_bits());
}

#[test]
fn add_is_the_rounded_sum() {
    assert_eq!(f(s(1.0).add(s(2.0))), 3.0);
    assert_eq!(f(s(0.1).add(s(0.2))), 0.1 + 0.2);
    for a in samples() {
        for b in samples() {
            assert!(same(f(s(a).add(s(b))), a + b), "{a} + {b}");
        }
    }
}

#[test]
fn sub_is_the_rounded_difference() {
    assert_eq!(f(s(1.0).sub(s(3.0))), -2.0);
    for a in samples() {
        for b in samples() {
            assert!(same(f(s(a).sub(s(b))), a - b), "{a} - {b}");
        }
    }
}

#[test]
fn mul_is_the_rounded_product() {
    assert_eq!(f(s(2.0).mul(s(3.0))), 6.0);
    assert_eq!(f(s(0.1).mul(s(0.1))), 0.1 * 0.1);
    for a in samples() {
        for b in samples() {
            assert!(same(f(s(a).mul(s(b))), a * b), "{a} * {b}");
        }
    }
}

#[test]
fn div_is_the_rounded_quotient() {
    assert_eq!(f(s(6.0).div(s(3.0))), 2.0);
    assert_eq!(f(s(1.0).div(s(3.0))), 1.0 / 3.0);
    for a in samples() {
        for b in samples() {
            assert!(same(f(s(a).div(s(b))), a / b), "{a} / {b}");
        }
    }
}

#[test]
fn div_by_zero_is_not_refused() {
    assert_eq!(f(s(1.0).div(s(0.0))), f64::INFINITY);
    assert_eq!(f(s(-1.0).div(s(0.0))), f64::NEG_INFINITY);
    assert!(f(s(0.0).div(s(0.0))).is_nan());
    assert!(s(0.0).div(s(0.0)).nan());
}

#[test]
fn sqrt_is_the_rounded_root() {
    assert_eq!(f(s(9.0).sqrt()), 3.0);
    assert_eq!(f(s(2.0).sqrt()), 2.0f64.sqrt());
    for a in samples() {
        assert!(same(f(s(a).sqrt()), a.sqrt()), "sqrt {a}");
    }
}

#[test]
fn sqrt_of_subnormals_is_the_rounded_root() {
    let bits: [u64; 16] = [
        0x1,
        0x2,
        0x3ff,
        0x400,
        0x555,
        0x7ff,
        0x800,
        0x7fff_ffff,
        0x8000_0000,
        0xdead_beef,
        0xffff_ffff,
        0x1_0000_0000,
        0x0000_1234_5678_9abc,
        0x000f_ffff_ffff_ffff,
        0x0010_0000_0000_0000,
        0x0010_0000_0000_0001,
    ];
    for b in bits {
        let x = f64::from_bits(b);
        assert_eq!(Scalar::from_bits(b).sqrt().to_bits(), x.sqrt().to_bits(), "sqrt of {b:#x}");
    }
    // the negative doubles with the same bits but the sign have no root
    for b in bits {
        assert!(Scalar::from_bits(b | 0x8000_0000_0000_0000).sqrt().nan());
    }
    assert_eq!(f(s(4.0e-320).sqrt()), (4.0e-320f64).sqrt());
}

#[test]
fn length_of_a_vector_with_a_subnormal_squared_norm() {
    let v = Vector3::new(s(1.0e-157), s(-2.0e-157), s(0.5e-157));
    let squared = f(v.dot_product(&v));
    assert!(squared > 0.0 && squared < f64::MIN_POSITIVE);
    assert_eq!(f(v.length()), squared.sqrt());
    let n = v.normalize();
    assert_eq!(f(n.x), 1.0e-157 / squared.sqrt());
    assert_eq!(f(n.y), -2.0e-157 / squared.sqrt());
    assert_eq!(f(n.z), 0.5e-157 / squared.sqrt());
    let q = Quaternion::new(s(1.0e-160), s(0.0), s(3.0e-160), s(0.0));
    let sq = f(q.squared_norm());
    assert!(sq > 0.0 && sq < f64::MIN_POSITIVE);
    let u = q.normalize();
    assert_eq!(f(u.w), 1.0e-160 / sq.sqrt());
    assert_eq!(f(u.y), 3.0e-160 / sq.sqrt());
}

#[test]
fn sin_and_cos_are_close() {
    assert_eq!(f(s(0.0).sin()), 0.0);
    assert_eq!(f(s(0.0).cos()), 1.0);
    let angles = [
        0.5, -0.5, 1.0, 1.5707963267948966, 3.0, -3.141592653589793, 10.0, 1234.5, -98765.4321,
        1.0e10, 1.0e22, 1.0e300, 1.0e-9, 1.0e-300,
    ];
    for a in angles {
        assert!((f(s(a).sin()) - a.sin()).abs() <= 1.0e-15, "sin {a}");
        assert!((f(s(a).cos()) - a.cos()).abs() <= 1.0e-15, "cos {a}");
    }
    assert!(s(f64::INFINITY).sin().nan());
    assert!(s(f64::NAN).cos().nan());
}

#[test]
fn neg_flips_the_sign() {
    for a in samples() {
        assert_eq!(s(a).neg().to_bits(), (-a).to_bits());
    }
    assert_eq!(s(0.0).neg().to_bits(), (-0.0f64).to_bits());
}

#[test]
fn gt_orders_as_doubles_do() {
    assert!(s(2.0).gt(s(1.0)));
    assert!(!s(1.0).gt(s(2.0)));
    assert!(!s(0.0).gt(s(-0.0)));
    assert!(!s(f64::NAN).gt(s(0.0)));
    for a in samples() {
        for b in samples() {
            assert_eq!(s(a).gt(s(b)), a > b, "{a} > {b}");
        }
    }
}

#[test]
fn finite_and_nan() {
    for a in samples() {
        assert_eq!(s(a).finite(), a.is_finite(), "{a}");
        assert_eq!(s(a).nan(), a.is_nan(), "{a}");
    }
}

#[test]
fn vector_operations() {
    let a = Vector3::new(s(1.0), s(2.0), s(3.0));
    let b = Vector3::new(s(-4.0), s(0.5), s(6.0));
    assert_eq!(a.add(&b), Vector3::new(s(-3.0), s(2.5), s(9.0)));
    assert_eq!(a.sub(&b), Vector3::new(s(5.0), s(1.5), s(-3.0)));
    assert_eq!(a.scale(s(2.0)), Vector3::new(s(2.0), s(4.0), s(6.0)));
    assert_eq!(a.unscale(s(2.0)), Vector3::new(s(0.5), s(1.0), s(1.5)));
    assert_eq!(a.neg(), Vector3::new(s(-1.0), s(-2.0), s(-3.0)));
    assert_eq!(a.component_mul(&b), Vector3::new(s(-4.0), s(1.0), s(18.0)));
    assert_eq!(a.cross_product(&b), Vector3::new(s(10.5), s(-18.0), s(8.5)));
    assert_eq!(f(a.dot_product(&b)), 15.0);
    assert_eq!(f(Vector3::new(s(3.0), s(4.0), s(12.0)).length()), 13.0);
    assert_eq!(
        Vector3::new(s(0.0), s(3.0), s(4.0)).normalize(),
        Vector3::new(s(0.0), s(0.6), s(0.8))
    );
    assert_eq!(Vector3::zeros(), Vector3::new(s(0.0), s(0.0), s(0.0)));
    assert_eq!(Vector3::from_element(s(7.0)), Vector3::new(s(7.0), s(7.0), s(7.0)));
    assert_eq!(Vector3::x_axis(), Vector3::new(s(1.0), s(0.0), s(0.0)));
    assert_eq!(Vector3::y_axis(), Vector3::new(s(0.0), s(1.0), s(0.0)));
    assert_eq!(Vector3::z_axis(), Vector3::new(s(0.0), s(0.0), s(1.0)));
}

#[test]
fn normalizing_the_zero_vector_gives_nan() {
    let n = Vector3::zeros().normalize();
    assert!(n.x.nan() && n.y.nan() && n.z.nan());
}

#[test]
fn quaternion_new_takes_the_scalar_part_first() {
    let q = Quaternion::new(s(1.0), s(2.0), s(3.0), s(4.0));
    assert_eq!(f(q.w), 1.0);
    assert_eq!(f(q.x), 2.0);
    assert_eq!(f(q.y), 3.0);
    assert_eq!(f(q.z), 4.0);
}

#[test]
fn quaternion_product_of_the_units() {
    let i = Quaternion::new(s(0.0), s(1.0), s(0.0), s(0.0));
    let j = Quaternion::new(s(0.0), s(0.0), s(1.0), s(0.0));
    let k = Quaternion::new(s(0.0), s(0.0), s(0.0), s(1.0));
    let ij = i.mul(&j);
    assert_eq!((f(ij.w), f(ij.x), f(ij.y), f(ij.z)), (0.0, 0.0, 0.0, 1.0));
    let ji = j.mul(&i);
    assert_eq!((f(ji.w), f(ji.x), f(ji.y), f(ji.z)), (0.0, 0.0, 0.0, -1.0));
    let kk = k.mul(&k);
    assert_eq!((f(kk.w), f(kk.x), f(kk.y), f(kk.z)), (-1.0, 0.0, 0.0, 0.0));
    let one = Quaternion::one();
    assert_eq!(one.mul(&k), k);
}

#[test]
fn quaternion_normalize_divides_by_the_norm() {
    let q = Quaternion::new(s(2.0), s(0.0), s(0.0), s(0.0)).normalize();
    assert_eq!(q, Quaternion::one());
    let q = Quaternion::new(s(1.0), s(1.0), s(1.0), s(1.0));
    assert_eq!(f(q.squared_norm()), 4.0);
    let n = q.normalize();
    assert_eq!((f(n.w), f(n.x), f(n.y), f(n.z)), (0.5, 0.5, 0.5, 0.5));
    let c = q.conjugate();
    assert_eq!((f(c.w), f(c.x), f(c.y), f(c.z)), (1.0, -1.0, -1.0, -1.0));
}

#[test]
fn matrix_cells() {
    let mut m = Matrix4::one();
    for row in 0..4 {
        for col in 0..4 {
            assert_eq!(f(m.get(row, col)), if row == col { 1.0 } else { 0.0 });
        }
    }
    m.set(1, 3, s(5.0));
    assert_eq!(f(m.get(1, 3)), 5.0);
    assert_eq!(f(m.m24), 5.0);
    assert_eq!(f(m.get(3, 1)), 0.0);
    m.fill_row(0, s(9.0));
    for col in 0..4 {
        assert_eq!(f(m.get(0, col)), 9.0);
    }
    assert_eq!(f(m.get(1, 1)), 1.0);
    assert!(m.is_finite());
}

#[test]
fn matrix_scaling_of_columns_and_of_rows() {
    let mut m = Matrix4::one();
    for row in 0..4 {
        for col in 0..4 {
            m.set(row, col, s((row * 4 + col + 1) as f64));
        }
    }
    let k = Vector3::new(s(2.0), s(3.0), s(4.0));
    let c = m.prepend_nonuniform_scaling(&k);
    let r = m.append_nonuniform_scaling(&k);
    let factor = [2.0, 3.0, 4.0, 1.0];
    for row in 0..4 {
        for col in 0..4 {
            let e = (row * 4 + col + 1) as f64;
            assert_eq!(f(c.get(row, col)), e * factor[col]);
            assert_eq!(f(r.get(row, col)), e * factor[row]);
        }
    }
}

#[test]
fn every_bad_cell_is_detected() {
    for row in 0..4 {
        for col in 0..4 {
            for bad in [f64::NAN, f64::INFINITY, f64::NEG_INFINITY] {
                let mut m = Matrix4::one();
                m.set(row, col, s(bad));
                assert!(!m.is_finite());
            }
        }
    }
}
