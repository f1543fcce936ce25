use spatial_transform::format::{Entry, Partial};
use spatial_transform::{
    Field, FormatError, Matrix4, Quaternion, Scalar, Transform, TransformValues, Vector3,
};

fn s(x: f64) -> Scalar {
    Scalar::from_bits(x.to_bits())
}

fn f(x: Scalar) -> f64 {
    f64::from_bits(x.to_bits())
}

fn v(x: f64, y: f64, z: f64) -> Vector3<Scalar> {
    Vector3::new(s(x), s(y), s(z))
}

fn row(numbers: &[f64]) -> Vec<Scalar> {
    numbers.iter().map(|x| s(*x)).collect()
}

fn entry(field: Field, numbers: &[f64]) -> Entry {
    Entry { field, values: row(numbers) }
}

fn sample() -> Transform {
    let q = nalgebra::UnitQuaternion::rotation_between(
        &nalgebra::Vector3::new(-1., 1., 2.),
        &nalgebra::Vector3::new(1., 0., 0.),
    )
    .unwrap();
    let mut transform = Transform::default();
    transform.set_translation_xyz(s(1.0), s(2.0), s(3.0));
    transform.set_scale(v(4.0, 5.0, 6.0));
    transform.set_rotation(Quaternion::new(s(q.w), s(q.i), s(q.j), s(q.k)));
    transform
}

#[test]
fn ser_deser() {
    let transform = sample();
    let values = transform.to_values();
    let entries = vec![
        Entry { field: Field::Translation, values: values.translation.to_vec() },
        Entry { field: Field::Rotation, values: values.rotation.to_vec() },
        Entry { field: Field::Scale, values: values.scale.to_vec() },
    ];
    let transform2: Transform = Transform::from_entries(&entries).unwrap();

    assert_eq!(transform, transform2);
}

#[test]
fn values_round_trip() {
    let transform = sample();
    let values = transform.to_values();
    let transform2 = Transform::from_values(&values);
    assert_eq!(transform, transform2);
}

#[test]
fn values_keep_the_order_x_y_z_w() {
    let t = Transform::new(
        v(1.0, 2.0, 3.0),
        Quaternion::new(s(0.5), s(-0.5), s(0.25), s(0.75)),
        v(4.0, 5.0, 6.0),
    );
    let values = t.to_values();
    assert_eq!(values.translation.map(f), [1.0, 2.0, 3.0]);
    assert_eq!(values.rotation.map(f), [-0.5, 0.25, 0.75, 0.5]);
    assert_eq!(values.scale.map(f), [4.0, 5.0, 6.0]);
}

#[test]
fn reading_sets_the_cached_matrix_to_the_identity() {
    let mut t = sample();
    t.global_matrix.fill_row(1, s(3.0));
    let back = Transform::from_values(&t.to_values());
    assert_eq!(*back.global_matrix(), Matrix4::one());
    assert_eq!(back.translation(), t.translation());
    assert_eq!(back.scale(), t.scale());
    assert_eq!(back.rotation(), t.rotation());
}

#[test]
fn reading_normalizes_the_rotation() {
    let values = TransformValues {
        translation: [s(0.0), s(0.0), s(0.0)],
        rotation: [s(0.0), s(0.0), s(3.0), s(4.0)],
        scale: [s(1.0), s(1.0), s(1.0)],
    };
    let t = Transform::from_values(&values);
    let q = t.rotation();
    assert_eq!((f(q.x), f(q.y), f(q.z), f(q.w)), (0.0, 0.0, 0.6, 0.8));
}

#[test]
fn sequence_is_read_by_position() {
    let elements = vec![row(&[1.0, 2.0, 3.0]), row(&[0.0, 2.0, 0.0, 0.0]), row(&[4.0, 5.0, 6.0])];
    let t = Transform::from_sequence(&elements).unwrap();
    assert_eq!(*t.translation(), v(1.0, 2.0, 3.0));
    assert_eq!(*t.rotation(), Quaternion::new(s(0.0), s(0.0), s(1.0), s(0.0)));
    assert_eq!(*t.scale(), v(4.0, 5.0, 6.0));
    assert_eq!(*t.global_matrix(), Matrix4::one());
}

#[test]
fn sequence_of_a_written_transform_reads_back() {
    let transform = sample();
    let values = transform.to_values();
    let elements =
        vec![values.translation.to_vec(), values.rotation.to_vec(), values.scale.to_vec()];
    assert_eq!(Transform::from_sequence(&elements), Ok(transform));
}

#[test]
fn sequence_that_ends_early_is_refused() {
    let full = vec![row(&[1.0, 2.0, 3.0]), row(&[0.0, 0.0, 0.0, 1.0]), row(&[4.0, 5.0, 6.0])];
    assert_eq!(Transform::from_sequence(&full[..0].to_vec()), Err(FormatError::InvalidLength(0)));
    assert_eq!(Transform::from_sequence(&full[..1].to_vec()), Err(FormatError::InvalidLength(1)));
    assert_eq!(Transform::from_sequence(&full[..2].to_vec()), Err(FormatError::InvalidLength(2)));
    assert!(Transform::from_sequence(&full).is_ok());
}

#[test]
fn sequence_with_a_wrong_count_is_refused() {
    let elements = vec![row(&[1.0, 2.0]), row(&[0.0, 0.0, 0.0, 1.0]), row(&[4.0, 5.0, 6.0])];
    assert_eq!(
        Transform::from_sequence(&elements),
        Err(FormatError::WrongArity { field: Field::Translation, found: 2 })
    );
    let elements = vec![row(&[1.0, 2.0, 3.0]), row(&[0.0, 0.0, 1.0]), row(&[4.0, 5.0, 6.0])];
    assert_eq!(
        Transform::from_sequence(&elements),
        Err(FormatError::WrongArity { field: Field::Rotation, found: 3 })
    );
    let elements =
        vec![row(&[1.0, 2.0, 3.0]), row(&[0.0, 0.0, 0.0, 1.0]), row(&[4.0, 5.0, 6.0, 7.0])];
    assert_eq!(
        Transform::from_sequence(&elements),
        Err(FormatError::WrongArity { field: Field::Scale, found: 4 })
    );
}

#[test]
fn sequence_reports_the_first_fault() {
    let elements = vec![row(&[1.0]), row(&[0.0])];
    assert_eq!(
        Transform::from_sequence(&elements),
        Err(FormatError::WrongArity { field: Field::Translation, found: 1 })
    );
    let elements = vec![row(&[1.0, 2.0, 3.0]), row(&[0.0])];
    assert_eq!(
        Transform::from_sequence(&elements),
        Err(FormatError::WrongArity { field: Field::Rotation, found: 1 })
    );
}

#[test]
fn sequence_ignores_what_follows_the_third_field() {
    let elements = vec![
        row(&[1.0, 2.0, 3.0]),
        row(&[0.0, 0.0, 0.0, 1.0]),
        row(&[4.0, 5.0, 6.0]),
        row(&[9.0]),
    ];
    assert!(Transform::from_sequence(&elements).is_ok());
}

#[test]
fn mapping_is_read_in_any_order() {
    let entries = vec![
        entry(Field::Scale, &[4.0, 5.0, 6.0]),
        entry(Field::Translation, &[1.0, 2.0, 3.0]),
        entry(Field::Rotation, &[0.0, 0.0, 0.0, -2.0]),
    ];
    let t = Transform::from_entries(&entries).unwrap();
    assert_eq!(*t.translation(), v(1.0, 2.0, 3.0));
    assert_eq!(*t.rotation(), Quaternion::new(s(-1.0), s(0.0), s(0.0), s(0.0)));
    assert_eq!(*t.scale(), v(4.0, 5.0, 6.0));
}

#[test]
fn mapping_without_fields_takes_the_defaults() {
    let t = Transform::from_entries(&vec![]).unwrap();
    assert_eq!(t, Transform::default());
    assert_eq!(*t.translation(), v(0.0, 0.0, 0.0));
    assert_eq!(*t.rotation(), Quaternion::new(s(1.0), s(0.0), s(0.0), s(0.0)));
    assert_eq!(*t.scale(), v(1.0, 1.0, 1.0));
    let t = Transform::from_entries(&vec![entry(Field::Translation, &[7.0, 8.0, 9.0])]).unwrap();
    assert_eq!(t, Transform::from(v(7.0, 8.0, 9.0)));
}

#[test]
fn mapping_with_a_field_twice_is_refused() {
    for field in [Field::Translation, Field::Scale] {
        let entries = vec![entry(field, &[1.0, 2.0, 3.0]), entry(field, &[1.0, 2.0, 3.0])];
        assert_eq!(Transform::from_entries(&entries), Err(FormatError::DuplicateField(field)));
    }
    let entries = vec![
        entry(Field::Rotation, &[0.0, 0.0, 0.0, 1.0]),
        entry(Field::Scale, &[1.0, 2.0, 3.0]),
        entry(Field::Rotation, &[0.0, 0.0, 0.0, 1.0]),
    ];
    assert_eq!(
        Transform::from_entries(&entries),
        Err(FormatError::DuplicateField(Field::Rotation))
    );
}

#[test]
fn mapping_reports_the_first_fault() {
    let entries = vec![
        entry(Field::Scale, &[1.0, 2.0, 3.0]),
        entry(Field::Scale, &[1.0]),
        entry(Field::Rotation, &[1.0]),
    ];
    assert_eq!(Transform::from_entries(&entries), Err(FormatError::DuplicateField(Field::Scale)));
    let entries = vec![
        entry(Field::Rotation, &[1.0]),
        entry(Field::Scale, &[1.0, 2.0, 3.0]),
        entry(Field::Scale, &[1.0, 2.0, 3.0]),
    ];
    assert_eq!(
        Transform::from_entries(&entries),
        Err(FormatError::WrongArity { field: Field::Rotation, found: 1 })
    );
}

#[test]
fn partial_reads_field_by_field() {
    let mut partial = Partial::new();
    assert!(!partial.contains(Field::Scale));
    assert_eq!(partial.expect(Field::Scale), Ok(()));
    assert_eq!(partial.put(Field::Scale, &row(&[2.0, 2.0, 2.0])), Ok(()));
    assert!(partial.contains(Field::Scale));
    assert_eq!(partial.expect(Field::Scale), Err(FormatError::DuplicateField(Field::Scale)));
    let before = partial;
    assert_eq!(
        partial.put(Field::Scale, &row(&[3.0, 3.0, 3.0])),
        Err(FormatError::DuplicateField(Field::Scale))
    );
    assert_eq!(
        partial.put(Field::Translation, &row(&[3.0, 3.0])),
        Err(FormatError::WrongArity { field: Field::Translation, found: 2 })
    );
    assert_eq!(partial, before);
    let t = partial.finish();
    assert_eq!(*t.scale(), v(2.0, 2.0, 2.0));
    assert_eq!(*t.translation(), v(0.0, 0.0, 0.0));
    assert_eq!(*t.rotation(), Quaternion::one());
}

#[test]
fn fields_have_names_positions_and_counts() {
    assert_eq!(Field::Translation.name(), "translation");
    assert_eq!(Field::Rotation.name(), "rotation");
    assert_eq!(Field::Scale.name(), "scale");
    assert_eq!(Field::at_position(0), Field::Translation);
    assert_eq!(Field::at_position(1), Field::Rotation);
    assert_eq!(Field::at_position(2), Field::Scale);
    assert_eq!(Field::Translation.len(), 3);
    assert_eq!(Field::Rotation.len(), 4);
    assert_eq!(Field::Scale.len(), 3);
}
