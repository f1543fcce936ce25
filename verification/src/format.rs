//! The written form of a transform: three fields of numbers, read either by
//! position or by name.

use crate::arith::Arith;
use crate::isometry::Isometry;
use crate::quaternion::Quaternion;
use crate::scalar::Scalar;
use crate::transform::{Pose, Transform};
use crate::vector::Vector3;
use vstd::prelude::*;

verus! {

/// A field of the written form. By position they come in this order.
#[derive(Clone, Copy, Debug, PartialEq, Eq)]
pub enum Field {
    /// Three numbers: x, y, z.
    Translation,
    /// Four numbers: x, y, z, w, the scalar part last.
    Rotation,
    /// Three numbers: x, y, z.
    Scale,
}

/// Why a written form was refused.
#[derive(Clone, Copy, Debug, PartialEq, Eq)]
pub enum FormatError {
    /// A sequence holds only this many fields, fewer than three.
    InvalidLength(usize),
    /// A mapping names this field a second time.
    DuplicateField(Field),
    /// A field holds `found` numbers, which is not as many as it takes.
    WrongArity { field: Field, found: usize },
}

/// The numbers of the written form.
#[derive(Clone, Copy, Debug, PartialEq, Eq)]
pub struct TransformValues {
    pub translation: [Scalar; 3],
    /// In the order x, y, z, w.
    pub rotation: [Scalar; 4],
    pub scale: [Scalar; 3],
}

/// One field of a mapping, as it was read: its name and its numbers.
#[derive(Clone, Debug, PartialEq, Eq)]
pub struct Entry {
    pub field: Field,
    pub values: Vec<Scalar>,
}

impl View for Entry {
    type V = (Field, Seq<Scalar>);

    open spec fn view(&self) -> (Field, Seq<Scalar>) {
        (self.field, self.values@)
    }
}

/// The numbers of each element of a sequence.
pub open spec fn numbers(elements: Seq<Vec<Scalar>>) -> Seq<Seq<Scalar>> {
    elements.map_values(|e: Vec<Scalar>| e@)
}

/// The name and the numbers of each entry of a mapping.
pub open spec fn named_numbers(entries: Seq<Entry>) -> Seq<(Field, Seq<Scalar>)> {
    entries.map_values(|e: Entry| e@)
}

impl Field {
    /// How many numbers the field takes.
    pub open spec fn arity(self) -> nat {
        match self {
            Field::Translation => 3,
            Field::Rotation => 4,
            Field::Scale => 3,
        }
    }

    /// The field at `position` of a sequence.
    pub open spec fn at(position: int) -> Field {
        if position == 0 {
            Field::Translation
        } else if position == 1 {
            Field::Rotation
        } else {
            Field::Scale
        }
    }

    /// How many numbers the field takes.
    pub fn len(self) -> (r: usize)
        ensures
            r == self.arity(),
    {
        match self {
            Field::Translation => 3,
            Field::Rotation => 4,
            Field::Scale => 3,
        }
    }

    /// The field at `position` of a sequence.
    pub fn at_position(position: usize) -> (r: Field)
        requires
            position < 3,
        ensures
            r == Field::at(position as int),
    {
        if position == 0 {
            Field::Translation
        } else if position == 1 {
            Field::Rotation
        } else {
            Field::Scale
        }
    }

    /// The name of the field in a mapping.
    pub fn name(self) -> (r: &'static str)
        ensures
            r@ == match self {
                Field::Translation => "translation"@,
                Field::Rotation => "rotation"@,
                Field::Scale => "scale"@,
            },
    {
        match self {
            Field::Translation => "translation",
            Field::Rotation => "rotation",
            Field::Scale => "scale",
        }
    }
}

/// What has been read of a written form so far: for each field its numbers,
/// once it has come.
#[derive(Clone, Copy, Debug, PartialEq, Eq)]
pub struct Partial {
    pub translation: Option<Vector3<Scalar>>,
    pub rotation: Option<Quaternion<Scalar>>,
    pub scale: Option<Vector3<Scalar>>,
}

impl Partial {
    /// Nothing read yet.
    pub open spec fn empty() -> Partial {
        Partial { translation: None, rotation: None, scale: None }
    }

    /// Whether `field` has come.
    pub open spec fn has(self, field: Field) -> bool {
        match field {
            Field::Translation => self.translation is Some,
            Field::Rotation => self.rotation is Some,
            Field::Scale => self.scale is Some,
        }
    }

    /// Why `field` with `values` cannot be taken in after what has been read:
    /// because the field has come before, or else because the numbers are not
    /// as many as it takes; `None` if it can.
    pub open spec fn fault(self, field: Field, values: Seq<Scalar>) -> Option<FormatError> {
        if self.has(field) {
            Some(FormatError::DuplicateField(field))
        } else if values.len() != field.arity() {
            Some(FormatError::WrongArity { field, found: values.len() as usize })
        } else {
            None
        }
    }

    /// What has been read once `field` with `values` is taken in. The
    /// rotation is kept as written; [`Partial::pose`] normalizes it.
    pub open spec fn with(self, field: Field, values: Seq<Scalar>) -> Partial {
        match field {
            Field::Translation => Partial {
                translation: Some(Vector3 { x: values[0], y: values[1], z: values[2] }),
                ..self
            },
            Field::Rotation => Partial {
                rotation: Some(
                    Quaternion { x: values[0], y: values[1], z: values[2], w: values[3] },
                ),
                ..self
            },
            Field::Scale => Partial {
                scale: Some(Vector3 { x: values[0], y: values[1], z: values[2] }),
                ..self
            },
        }
    }

    /// The pose that the fields read give: a field that has not come counts
    /// as no translation, as the identity rotation, as scale 1; the rotation
    /// is divided by its norm, whatever it is.
    pub open spec fn pose(self) -> Pose<Scalar> {
        let translation = match self.translation {
            Some(t) => t,
            None => Vector3::origin(),
        };
        let rotation = match self.rotation {
            Some(q) => q,
            None => Quaternion::identity(),
        };
        let scale = match self.scale {
            Some(s) => s,
            None => Vector3::ones(),
        };
        Pose { isometry: Isometry { rotation: rotation.normalized(), translation }, scale }
    }

    /// What has been read after the first `n` entries of `entries`, if each of
    /// them could be taken in.
    pub open spec fn after(entries: Seq<(Field, Seq<Scalar>)>, n: int) -> Partial
        decreases n,
    {
        if n <= 0 {
            Partial::empty()
        } else {
            Partial::after(entries, n - 1).with(entries[n - 1].0, entries[n - 1].1)
        }
    }

    /// Whether each of the first `n` entries of `entries` can be taken in
    /// after those before it.
    pub open spec fn sound(entries: Seq<(Field, Seq<Scalar>)>, n: int) -> bool {
        forall|i: int|
            0 <= i < n ==> (#[trigger] Partial::after(entries, i)).fault(
                entries[i].0,
                entries[i].1,
            ) is None
    }

    /// Nothing read yet.
    pub fn new() -> (r: Partial)
        ensures
            r == Partial::empty(),
    {
        Partial { translation: None, rotation: None, scale: None }
    }

    /// Whether `field` has come.
    pub fn contains(&self, field: Field) -> (r: bool)
        ensures
            r == self.has(field),
    {
        match field {
            Field::Translation => self.translation.is_some(),
            Field::Rotation => self.rotation.is_some(),
            Field::Scale => self.scale.is_some(),
        }
    }

    /// Says whether a mapping may name `field` now: not if it has come
    /// before. A reader asks this when it meets the name, before it reads
    /// the numbers.
    pub fn expect(&self, field: Field) -> (r: Result<(), FormatError>)
        ensures
            r == if self.has(field) {
                Err::<(), FormatError>(FormatError::DuplicateField(field))
            } else {
                Ok(())
            },
    {
        if self.contains(field) {
            Err(FormatError::DuplicateField(field))
        } else {
            Ok(())
        }
    }

    /// Takes in `field` with `values`, or says why it cannot; then nothing
    /// has changed.
    pub fn put(&mut self, field: Field, values: &Vec<Scalar>) -> (r: Result<(), FormatError>)
        ensures
            match old(self).fault(field, values@) {
                Some(e) => r == Err::<(), FormatError>(e) && *final(self) == *old(self),
                None => r == Ok::<(), FormatError>(()) && *final(self) == old(self).with(
                    field,
                    values@,
                ),
            },
    {
        if self.contains(field) {
            return Err(FormatError::DuplicateField(field));
        }
        if values.len() != field.len() {
            return Err(FormatError::WrongArity { field, found: values.len() });
        }
        match field {
            Field::Translation => {
                self.translation = Some(Vector3::new(values[0], values[1], values[2]));
            },
            Field::Rotation => {
                self.rotation = Some(Quaternion::new(values[3], values[0], values[1], values[2]));
            },
            Field::Scale => {
                self.scale = Some(Vector3::new(values[0], values[1], values[2]));
            },
        }
        Ok(())
    }

    /// The transform that the fields read give, with defaults for those that
    /// have not come, the rotation normalized and the cached matrix the
    /// identity.
    pub fn finish(&self) -> (r: Transform)
        ensures
            r == Transform::fresh(self.pose()),
    {
        let translation = match self.translation {
            Some(t) => t,
            None => Vector3::zeros(),
        };
        let rotation = match self.rotation {
            Some(q) => q,
            None => Quaternion::one(),
        };
        let scale = match self.scale {
            Some(s) => s,
            None => Vector3::from_element(Scalar::new_one()),
        };
        Transform::new(translation, rotation.normalize(), scale)
    }
}

impl TransformValues {
    /// The three fields as they would be read back.
    pub open spec fn partial(self) -> Partial {
        Partial {
            translation: Some(
                Vector3 { x: self.translation[0], y: self.translation[1], z: self.translation[2] },
            ),
            rotation: Some(
                Quaternion {
                    x: self.rotation[0],
                    y: self.rotation[1],
                    z: self.rotation[2],
                    w: self.rotation[3],
                },
            ),
            scale: Some(Vector3 { x: self.scale[0], y: self.scale[1], z: self.scale[2] }),
        }
    }
}

impl Transform {
    /// The numbers to write for this pose.
    pub open spec fn values_of(pose: Pose<Scalar>, values: TransformValues) -> bool {
        &&& values.translation@ == seq![
            pose.isometry.translation.x,
            pose.isometry.translation.y,
            pose.isometry.translation.z,
        ]
        &&& values.rotation@ == seq![
            pose.isometry.rotation.x,
            pose.isometry.rotation.y,
            pose.isometry.rotation.z,
            pose.isometry.rotation.w,
        ]
        &&& values.scale@ == seq![pose.scale.x, pose.scale.y, pose.scale.z]
    }

    /// The numbers to write for this transform: translation, rotation and
    /// scale as they are. The cached matrix is not written.
    pub fn to_values(&self) -> (r: TransformValues)
        ensures
            Self::values_of(self@, r),
    {
        let t = &self.isometry.translation;
        let q = &self.isometry.rotation;
        let s = &self.scale;
        let r = TransformValues {
            translation: [t.x, t.y, t.z],
            rotation: [q.x, q.y, q.z, q.w],
            scale: [s.x, s.y, s.z],
        };
        assert(r.translation@ =~= seq![t.x, t.y, t.z]);
        assert(r.rotation@ =~= seq![q.x, q.y, q.z, q.w]);
        assert(r.scale@ =~= seq![s.x, s.y, s.z]);
        r
    }

    /// The transform that `values` stand for: the rotation is divided by its
    /// norm, whatever it is, and the cached matrix is the identity.
    pub fn from_values(values: &TransformValues) -> (r: Transform)
        ensures
            r == Transform::fresh(values.partial().pose()),
    {
        let t = &values.translation;
        let q = &values.rotation;
        let s = &values.scale;
        Transform::new(
            Vector3::new(t[0], t[1], t[2]),
            Quaternion::new(q[3], q[0], q[1], q[2]).normalize(),
            Vector3::new(s[0], s[1], s[2]),
        )
    }

    /// Why position `i` of a sequence cannot be read: the sequence ends before
    /// it, or it holds the wrong count of numbers; `None` if it can.
    pub open spec fn position_fault(elements: Seq<Seq<Scalar>>, i: int) -> Option<FormatError> {
        if i >= elements.len() {
            Some(FormatError::InvalidLength(i as usize))
        } else if elements[i].len() != Field::at(i).arity() {
            Some(FormatError::WrongArity { field: Field::at(i), found: elements[i].len() as usize })
        } else {
            None
        }
    }

    /// What reading a sequence gives: the fault of the first of its three
    /// positions that has one, else the transform of the three fields.
    pub open spec fn read_sequence(elements: Seq<Seq<Scalar>>) -> Result<Transform, FormatError> {
        if Self::position_fault(elements, 0) is Some {
            Err(Self::position_fault(elements, 0)->Some_0)
        } else if Self::position_fault(elements, 1) is Some {
            Err(Self::position_fault(elements, 1)->Some_0)
        } else if Self::position_fault(elements, 2) is Some {
            Err(Self::position_fault(elements, 2)->Some_0)
        } else {
            Ok(
                Transform::fresh(
                    Partial::empty().with(Field::Translation, elements[0]).with(
                        Field::Rotation,
                        elements[1],
                    ).with(Field::Scale, elements[2]).pose(),
                ),
            )
        }
    }

    /// Takes in position `position` of a sequence, or says why it cannot.
    fn take_position(partial: &mut Partial, elements: &Vec<Vec<Scalar>>, position: usize) -> (r:
        Result<(), FormatError>)
        requires
            position < 3,
            !old(partial).has(Field::at(position as int)),
        ensures
            match Self::position_fault(numbers(elements@), position as int) {
                Some(e) => r == Err::<(), FormatError>(e) && *final(partial) == *old(partial),
                None => r == Ok::<(), FormatError>(()) && *final(partial) == old(partial).with(
                    Field::at(position as int),
                    numbers(elements@)[position as int],
                ),
            },
    {
        if position >= elements.len() {
            return Err(FormatError::InvalidLength(position));
        }
        assert(numbers(elements@)[position as int] == elements[position as int]@);
        partial.put(Field::at_position(position), &elements[position])
    }

    /// Reads a transform written as a sequence: translation, rotation and
    /// scale, in this order. A sequence that ends early, or a field with the
    /// wrong count of numbers, is refused, whichever comes first; what
    /// follows the third field is not looked at.
    pub fn from_sequence(elements: &Vec<Vec<Scalar>>) -> (r: Result<Transform, FormatError>)
        ensures
            r == Self::read_sequence(numbers(elements@)),
    {
        let mut partial = Partial::new();
        match Self::take_position(&mut partial, elements, 0) {
            Ok(()) => {},
            Err(e) => {
                return Err(e);
            },
        }
        match Self::take_position(&mut partial, elements, 1) {
            Ok(()) => {},
            Err(e) => {
                return Err(e);
            },
        }
        match Self::take_position(&mut partial, elements, 2) {
            Ok(()) => {},
            Err(e) => {
                return Err(e);
            },
        }
        Ok(partial.finish())
    }

    /// Reads a transform written as a mapping from field names to numbers.
    /// The first entry that names a field again, or that holds the wrong
    /// count of numbers, has the mapping refused. A field that no entry names
    /// takes its default.
    pub fn from_entries(entries: &Vec<Entry>) -> (r: Result<Transform, FormatError>)
        ensures
            r == Self::read_entries(named_numbers(entries@)),
    {
        let mut partial = Partial::new();
        let mut i: usize = 0;
        while i < entries.len()
            invariant
                i <= entries.len(),
                Partial::sound(named_numbers(entries@), i as int),
                partial == Partial::after(named_numbers(entries@), i as int),
            decreases entries.len() - i,
        {
            assert(named_numbers(entries@)[i as int] == entries[i as int]@);
            match partial.put(entries[i].field, &entries[i].values) {
                Ok(()) => {},
                Err(e) => {
                    proof {
                        Self::lemma_first_fault(named_numbers(entries@), i as int);
                    }
                    return Err(e);
                },
            }
            i += 1;
        }
        proof {
            Self::lemma_no_fault(named_numbers(entries@));
        }
        Ok(partial.finish())
    }

    /// The place of the first entry that cannot be taken in, from `from` on;
    /// the length of `entries` if there is none.
    pub open spec fn first_fault(entries: Seq<(Field, Seq<Scalar>)>, from: int) -> int
        decreases entries.len() - from,
    {
        if from < 0 || from >= entries.len() {
            entries.len() as int
        } else if Partial::after(entries, from).fault(entries[from].0, entries[from].1) is Some {
            from
        } else {
            Self::first_fault(entries, from + 1)
        }
    }

    /// What reading a mapping gives.
    pub open spec fn read_entries(entries: Seq<(Field, Seq<Scalar>)>) -> Result<
        Transform,
        FormatError,
    > {
        let k = Self::first_fault(entries, 0);
        if k < entries.len() {
            Err(Partial::after(entries, k).fault(entries[k].0, entries[k].1)->Some_0)
        } else {
            Ok(Transform::fresh(Partial::after(entries, entries.len() as int).pose()))
        }
    }

    /// Where the entries before `k` are sound and entry `k` is not, the first
    /// fault from any place up to `k` is at `k`.
    proof fn lemma_first_fault_from(entries: Seq<(Field, Seq<Scalar>)>, from: int, k: int)
        requires
            0 <= from <= k < entries.len(),
            Partial::sound(entries, k),
            Partial::after(entries, k).fault(entries[k].0, entries[k].1) is Some,
        ensures
            Self::first_fault(entries, from) == k,
        decreases k - from,
    {
        if from < k {
            assert(Partial::after(entries, from).fault(entries[from].0, entries[from].1) is None);
            Self::lemma_first_fault_from(entries, from + 1, k);
        }
    }

    /// Where the entries before `k` are sound and entry `k` is not, the first
    /// fault is at `k`.
    proof fn lemma_first_fault(entries: Seq<(Field, Seq<Scalar>)>, k: int)
        requires
            0 <= k < entries.len(),
            Partial::sound(entries, k),
            Partial::after(entries, k).fault(entries[k].0, entries[k].1) is Some,
        ensures
            Self::first_fault(entries, 0) == k,
    {
        Self::lemma_first_fault_from(entries, 0, k);
    }

    /// Where every entry is sound, there is no first fault from any place.
    proof fn lemma_no_fault_from(entries: Seq<(Field, Seq<Scalar>)>, from: int)
        requires
            0 <= from <= entries.len(),
            Partial::sound(entries, entries.len() as int),
        ensures
            Self::first_fault(entries, from) == entries.len(),
        decreases entries.len() - from,
    {
        if from < entries.len() {
            assert(Partial::after(entries, from).fault(entries[from].0, entries[from].1) is None);
            Self::lemma_no_fault_from(entries, from + 1);
        }
    }

    /// Where every entry is sound, there is no first fault.
    proof fn lemma_no_fault(entries: Seq<(Field, Seq<Scalar>)>)
        requires
            Partial::sound(entries, entries.len() as int),
        ensures
            Self::first_fault(entries, 0) == entries.len(),
    {
        Self::lemma_no_fault_from(entries, 0);
    }
}

} // verus!
