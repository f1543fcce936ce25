//! Square matrices of three and of four rows, entry by entry.

use crate::arith::Arith;
use crate::scalar::Scalar;
use crate::vector::Vector3;
use vstd::prelude::*;

verus! {

/// A 3x3 matrix; `m12` is the entry of row 1, column 2.
#[derive(Clone, Copy, Debug, PartialEq, Eq)]
pub struct Matrix3<T> {
    pub m11: T,
    pub m12: T,
    pub m13: T,
    pub m21: T,
    pub m22: T,
    pub m23: T,
    pub m31: T,
    pub m32: T,
    pub m33: T,
}

/// A 4x4 matrix; `m12` is the entry of row 1, column 2.
#[derive(Clone, Copy, Debug, PartialEq, Eq)]
pub struct Matrix4<T> {
    pub m11: T,
    pub m12: T,
    pub m13: T,
    pub m14: T,
    pub m21: T,
    pub m22: T,
    pub m23: T,
    pub m24: T,
    pub m31: T,
    pub m32: T,
    pub m33: T,
    pub m34: T,
    pub m41: T,
    pub m42: T,
    pub m43: T,
    pub m44: T,
}

impl<T: Arith> Matrix3<T> {
    /// The identity matrix.
    pub open spec fn identity() -> Self {
        Matrix3 {
            m11: T::one(),
            m12: T::zero(),
            m13: T::zero(),
            m21: T::zero(),
            m22: T::one(),
            m23: T::zero(),
            m31: T::zero(),
            m32: T::zero(),
            m33: T::one(),
        }
    }

    /// The matrix product `self * rhs`, each entry summed from left to right.
    pub open spec fn product(self, rhs: Self) -> Self {
        Matrix3 {
            m11: self.m11.times(rhs.m11)
                .plus(self.m12.times(rhs.m21))
                .plus(self.m13.times(rhs.m31)),
            m12: self.m11.times(rhs.m12)
                .plus(self.m12.times(rhs.m22))
                .plus(self.m13.times(rhs.m32)),
            m13: self.m11.times(rhs.m13)
                .plus(self.m12.times(rhs.m23))
                .plus(self.m13.times(rhs.m33)),
            m21: self.m21.times(rhs.m11)
                .plus(self.m22.times(rhs.m21))
                .plus(self.m23.times(rhs.m31)),
            m22: self.m21.times(rhs.m12)
                .plus(self.m22.times(rhs.m22))
                .plus(self.m23.times(rhs.m32)),
            m23: self.m21.times(rhs.m13)
                .plus(self.m22.times(rhs.m23))
                .plus(self.m23.times(rhs.m33)),
            m31: self.m31.times(rhs.m11)
                .plus(self.m32.times(rhs.m21))
                .plus(self.m33.times(rhs.m31)),
            m32: self.m31.times(rhs.m12)
                .plus(self.m32.times(rhs.m22))
                .plus(self.m33.times(rhs.m32)),
            m33: self.m31.times(rhs.m13)
                .plus(self.m32.times(rhs.m23))
                .plus(self.m33.times(rhs.m33)),
        }
    }

    /// The matrix with the components of `d` on its diagonal and zero
    /// elsewhere.
    pub open spec fn diagonal(d: Vector3<T>) -> Self {
        Matrix3 {
            m11: d.x,
            m12: T::zero(),
            m13: T::zero(),
            m21: T::zero(),
            m22: d.y,
            m23: T::zero(),
            m31: T::zero(),
            m32: T::zero(),
            m33: d.z,
        }
    }

    /// The matrix applied to a column vector.
    pub open spec fn apply(self, v: Vector3<T>) -> Vector3<T> {
        Vector3 {
            x: self.m11.times(v.x).plus(self.m12.times(v.y)).plus(self.m13.times(v.z)),
            y: self.m21.times(v.x).plus(self.m22.times(v.y)).plus(self.m23.times(v.z)),
            z: self.m31.times(v.x).plus(self.m32.times(v.y)).plus(self.m33.times(v.z)),
        }
    }

    /// The matrix whose columns are `x`, `y` and `z`.
    pub open spec fn from_columns(x: Vector3<T>, y: Vector3<T>, z: Vector3<T>) -> Self {
        Matrix3 {
            m11: x.x,
            m12: y.x,
            m13: z.x,
            m21: x.y,
            m22: y.y,
            m23: z.y,
            m31: x.z,
            m32: y.z,
            m33: z.z,
        }
    }

    /// The rotation that turns the z axis towards `dir` with `up` above it:
    /// its columns are an orthonormal frame built from the two by the
    /// Gram-Schmidt process. Where `up` is parallel to `dir` the frame
    /// degenerates.
    pub open spec fn facing(dir: Vector3<T>, up: Vector3<T>) -> Self {
        let z = dir.normalized();
        let x = up.cross(z).normalized();
        let y = z.cross(x);
        Self::from_columns(x, y, z)
    }
}

impl<T: Arith> Matrix4<T> {
    /// The identity matrix.
    pub open spec fn identity() -> Self {
        Matrix4 {
            m11: T::one(),
            m12: T::zero(),
            m13: T::zero(),
            m14: T::zero(),
            m21: T::zero(),
            m22: T::one(),
            m23: T::zero(),
            m24: T::zero(),
            m31: T::zero(),
            m32: T::zero(),
            m33: T::one(),
            m34: T::zero(),
            m41: T::zero(),
            m42: T::zero(),
            m43: T::zero(),
            m44: T::one(),
        }
    }

    /// The matrix product `self * rhs`, each entry summed from left to right.
    pub open spec fn product(self, rhs: Self) -> Self {
        Matrix4 {
            m11: self.m11.times(rhs.m11)
                .plus(self.m12.times(rhs.m21))
                .plus(self.m13.times(rhs.m31))
                .plus(self.m14.times(rhs.m41)),
            m12: self.m11.times(rhs.m12)
                .plus(self.m12.times(rhs.m22))
                .plus(self.m13.times(rhs.m32))
                .plus(self.m14.times(rhs.m42)),
            m13: self.m11.times(rhs.m13)
                .plus(self.m12.times(rhs.m23))
                .plus(self.m13.times(rhs.m33))
                .plus(self.m14.times(rhs.m43)),
            m14: self.m11.times(rhs.m14)
                .plus(self.m12.times(rhs.m24))
                .plus(self.m13.times(rhs.m34))
                .plus(self.m14.times(rhs.m44)),
            m21: self.m21.times(rhs.m11)
                .plus(self.m22.times(rhs.m21))
                .plus(self.m23.times(rhs.m31))
                .plus(self.m24.times(rhs.m41)),
            m22: self.m21.times(rhs.m12)
                .plus(self.m22.times(rhs.m22))
                .plus(self.m23.times(rhs.m32))
                .plus(self.m24.times(rhs.m42)),
            m23: self.m21.times(rhs.m13)
                .plus(self.m22.times(rhs.m23))
                .plus(self.m23.times(rhs.m33))
                .plus(self.m24.times(rhs.m43)),
            m24: self.m21.times(rhs.m14)
                .plus(self.m22.times(rhs.m24))
                .plus(self.m23.times(rhs.m34))
                .plus(self.m24.times(rhs.m44)),
            m31: self.m31.times(rhs.m11)
                .plus(self.m32.times(rhs.m21))
                .plus(self.m33.times(rhs.m31))
                .plus(self.m34.times(rhs.m41)),
            m32: self.m31.times(rhs.m12)
                .plus(self.m32.times(rhs.m22))
                .plus(self.m33.times(rhs.m32))
                .plus(self.m34.times(rhs.m42)),
            m33: self.m31.times(rhs.m13)
                .plus(self.m32.times(rhs.m23))
                .plus(self.m33.times(rhs.m33))
                .plus(self.m34.times(rhs.m43)),
            m34: self.m31.times(rhs.m14)
                .plus(self.m32.times(rhs.m24))
                .plus(self.m33.times(rhs.m34))
                .plus(self.m34.times(rhs.m44)),
            m41: self.m41.times(rhs.m11)
                .plus(self.m42.times(rhs.m21))
                .plus(self.m43.times(rhs.m31))
                .plus(self.m44.times(rhs.m41)),
            m42: self.m41.times(rhs.m12)
                .plus(self.m42.times(rhs.m22))
                .plus(self.m43.times(rhs.m32))
                .plus(self.m44.times(rhs.m42)),
            m43: self.m41.times(rhs.m13)
                .plus(self.m42.times(rhs.m23))
                .plus(self.m43.times(rhs.m33))
                .plus(self.m44.times(rhs.m43)),
            m44: self.m41.times(rhs.m14)
                .plus(self.m42.times(rhs.m24))
                .plus(self.m43.times(rhs.m34))
                .plus(self.m44.times(rhs.m44)),
        }
    }

    /// The homogeneous matrix of a linear map followed by a translation:
    /// `linear` in the upper left, `translation` in the last column, and
    /// `0 0 0 1` in the last row.
    pub open spec fn affine(linear: Matrix3<T>, translation: Vector3<T>) -> Self {
        Matrix4 {
            m11: linear.m11,
            m12: linear.m12,
            m13: linear.m13,
            m14: translation.x,
            m21: linear.m21,
            m22: linear.m22,
            m23: linear.m23,
            m24: translation.y,
            m31: linear.m31,
            m32: linear.m32,
            m33: linear.m33,
            m34: translation.z,
            m41: T::zero(),
            m42: T::zero(),
            m43: T::zero(),
            m44: T::one(),
        }
    }

    /// The homogeneous matrix of the translation by `v`.
    pub open spec fn translation(v: Vector3<T>) -> Self {
        Self::affine(Matrix3::identity(), v)
    }

    /// The homogeneous matrix of a linear map.
    pub open spec fn linear(m: Matrix3<T>) -> Self {
        Self::affine(m, Vector3::origin())
    }

    /// The homogeneous matrix of the scaling by the components of `s` along
    /// the three axes.
    pub open spec fn scaling(s: Vector3<T>) -> Self {
        Self::linear(Matrix3::diagonal(s))
    }

    /// The first three columns multiplied by the components of `s`, the last
    /// row included: the matrix applied after a scaling by `s`.
    pub open spec fn columns_scaled(self, s: Vector3<T>) -> Self {
        Matrix4 {
            m11: self.m11.times(s.x),
            m12: self.m12.times(s.y),
            m13: self.m13.times(s.z),
            m14: self.m14,
            m21: self.m21.times(s.x),
            m22: self.m22.times(s.y),
            m23: self.m23.times(s.z),
            m24: self.m24,
            m31: self.m31.times(s.x),
            m32: self.m32.times(s.y),
            m33: self.m33.times(s.z),
            m34: self.m34,
            m41: self.m41.times(s.x),
            m42: self.m42.times(s.y),
            m43: self.m43.times(s.z),
            m44: self.m44,
        }
    }

    /// The first three rows multiplied by the components of `s`, the last
    /// column included: the matrix followed by a scaling by `s`.
    pub open spec fn rows_scaled(self, s: Vector3<T>) -> Self {
        Matrix4 {
            m11: self.m11.times(s.x),
            m12: self.m12.times(s.x),
            m13: self.m13.times(s.x),
            m14: self.m14.times(s.x),
            m21: self.m21.times(s.y),
            m22: self.m22.times(s.y),
            m23: self.m23.times(s.y),
            m24: self.m24.times(s.y),
            m31: self.m31.times(s.z),
            m32: self.m32.times(s.z),
            m33: self.m33.times(s.z),
            m34: self.m34.times(s.z),
            m41: self.m41,
            m42: self.m42,
            m43: self.m43,
            m44: self.m44,
        }
    }
}

impl<T> Matrix4<T> {
    /// The entry of row `row` and column `col`, both counted from 0.
    pub open spec fn cell(self, row: int, col: int) -> T
        recommends
            0 <= row < 4,
            0 <= col < 4,
    {
        if row == 0 && col == 0 {
            self.m11
        } else if row == 0 && col == 1 {
            self.m12
        } else if row == 0 && col == 2 {
            self.m13
        } else if row == 0 && col == 3 {
            self.m14
        } else if row == 1 && col == 0 {
            self.m21
        } else if row == 1 && col == 1 {
            self.m22
        } else if row == 1 && col == 2 {
            self.m23
        } else if row == 1 && col == 3 {
            self.m24
        } else if row == 2 && col == 0 {
            self.m31
        } else if row == 2 && col == 1 {
            self.m32
        } else if row == 2 && col == 2 {
            self.m33
        } else if row == 2 && col == 3 {
            self.m34
        } else if row == 3 && col == 0 {
            self.m41
        } else if row == 3 && col == 1 {
            self.m42
        } else if row == 3 && col == 2 {
            self.m43
        } else {
            self.m44
        }
    }

    /// The matrix with `value` in row `row` and column `col`, both counted from
    /// 0, and every other entry as in `self`.
    pub open spec fn with_cell(self, row: int, col: int, value: T) -> Self
        recommends
            0 <= row < 4,
            0 <= col < 4,
    {
        Matrix4 {
            m11: if row == 0 && col == 0 {
                value
            } else {
                self.m11
            },
            m12: if row == 0 && col == 1 {
                value
            } else {
                self.m12
            },
            m13: if row == 0 && col == 2 {
                value
            } else {
                self.m13
            },
            m14: if row == 0 && col == 3 {
                value
            } else {
                self.m14
            },
            m21: if row == 1 && col == 0 {
                value
            } else {
                self.m21
            },
            m22: if row == 1 && col == 1 {
                value
            } else {
                self.m22
            },
            m23: if row == 1 && col == 2 {
                value
            } else {
                self.m23
            },
            m24: if row == 1 && col == 3 {
                value
            } else {
                self.m24
            },
            m31: if row == 2 && col == 0 {
                value
            } else {
                self.m31
            },
            m32: if row == 2 && col == 1 {
                value
            } else {
                self.m32
            },
            m33: if row == 2 && col == 2 {
                value
            } else {
                self.m33
            },
            m34: if row == 2 && col == 3 {
                value
            } else {
                self.m34
            },
            m41: if row == 3 && col == 0 {
                value
            } else {
                self.m41
            },
            m42: if row == 3 && col == 1 {
                value
            } else {
                self.m42
            },
            m43: if row == 3 && col == 2 {
                value
            } else {
                self.m43
            },
            m44: if row == 3 && col == 3 {
                value
            } else {
                self.m44
            },
        }
    }

    /// The matrix with `value` in every entry of row `row`, counted from 0.
    pub open spec fn with_row(self, row: int, value: T) -> Self
        recommends
            0 <= row < 4,
    {
        self.with_cell(row, 0, value).with_cell(row, 1, value).with_cell(row, 2, value).with_cell(
            row,
            3,
            value,
        )
    }
}

impl Matrix3<Scalar> {
    /// The matrix whose columns are `x`, `y` and `z`.
    pub fn columns(x: &Vector3<Scalar>, y: &Vector3<Scalar>, z: &Vector3<Scalar>) -> (r: Self)
        ensures
            r == Self::from_columns(*x, *y, *z),
    {
        Matrix3 {
            m11: x.x,
            m12: y.x,
            m13: z.x,
            m21: x.y,
            m22: y.y,
            m23: z.y,
            m31: x.z,
            m32: y.z,
            m33: z.z,
        }
    }

    /// The rotation that turns the z axis towards `dir` with `up` above it.
    pub fn face_towards(dir: &Vector3<Scalar>, up: &Vector3<Scalar>) -> (r: Self)
        ensures
            r == Self::facing(*dir, *up),
    {
        let z = dir.normalize();
        let x = up.cross_product(&z).normalize();
        let y = z.cross_product(&x);
        Self::columns(&x, &y, &z)
    }
}

impl Matrix4<Scalar> {
    /// Whether no entry is an infinity or a NaN.
    pub open spec fn all_finite(self) -> bool {
        forall|row: int, col: int|
            0 <= row < 4 && 0 <= col < 4 ==> (#[trigger] self.cell(row, col)).is_finite()
    }

    /// The identity matrix.
    pub fn one() -> (r: Self)
        ensures
            r == Self::identity(),
    {
        let o = Scalar::new_zero();
        let i = Scalar::new_one();
        Matrix4 {
            m11: i,
            m12: o,
            m13: o,
            m14: o,
            m21: o,
            m22: i,
            m23: o,
            m24: o,
            m31: o,
            m32: o,
            m33: i,
            m34: o,
            m41: o,
            m42: o,
            m43: o,
            m44: i,
        }
    }

    /// The homogeneous matrix with `linear` in the upper left and
    /// `translation` in the last column.
    pub fn from_parts(linear: &Matrix3<Scalar>, translation: &Vector3<Scalar>) -> (r: Self)
        ensures
            r == Self::affine(*linear, *translation),
    {
        Matrix4 {
            m11: linear.m11,
            m12: linear.m12,
            m13: linear.m13,
            m14: translation.x,
            m21: linear.m21,
            m22: linear.m22,
            m23: linear.m23,
            m24: translation.y,
            m31: linear.m31,
            m32: linear.m32,
            m33: linear.m33,
            m34: translation.z,
            m41: Scalar::new_zero(),
            m42: Scalar::new_zero(),
            m43: Scalar::new_zero(),
            m44: Scalar::new_one(),
        }
    }

    /// The entry of row `row` and column `col`, both counted from 0.
    pub fn get(&self, row: usize, col: usize) -> (r: Scalar)
        requires
            row < 4,
            col < 4,
        ensures
            r == self.cell(row as int, col as int),
    {
        if row == 0 && col == 0 {
            self.m11
        } else if row == 0 && col == 1 {
            self.m12
        } else if row == 0 && col == 2 {
            self.m13
        } else if row == 0 && col == 3 {
            self.m14
        } else if row == 1 && col == 0 {
            self.m21
        } else if row == 1 && col == 1 {
            self.m22
        } else if row == 1 && col == 2 {
            self.m23
        } else if row == 1 && col == 3 {
            self.m24
        } else if row == 2 && col == 0 {
            self.m31
        } else if row == 2 && col == 1 {
            self.m32
        } else if row == 2 && col == 2 {
            self.m33
        } else if row == 2 && col == 3 {
            self.m34
        } else if row == 3 && col == 0 {
            self.m41
        } else if row == 3 && col == 1 {
            self.m42
        } else if row == 3 && col == 2 {
            self.m43
        } else {
            self.m44
        }
    }

    /// Writes `value` to row `row` and column `col`, both counted from 0.
    pub fn set(&mut self, row: usize, col: usize, value: Scalar)
        requires
            row < 4,
            col < 4,
        ensures
            *final(self) == old(self).with_cell(row as int, col as int, value),
    {
        if row == 0 && col == 0 {
            self.m11 = value;
        } else if row == 0 && col == 1 {
            self.m12 = value;
        } else if row == 0 && col == 2 {
            self.m13 = value;
        } else if row == 0 && col == 3 {
            self.m14 = value;
        } else if row == 1 && col == 0 {
            self.m21 = value;
        } else if row == 1 && col == 1 {
            self.m22 = value;
        } else if row == 1 && col == 2 {
            self.m23 = value;
        } else if row == 1 && col == 3 {
            self.m24 = value;
        } else if row == 2 && col == 0 {
            self.m31 = value;
        } else if row == 2 && col == 1 {
            self.m32 = value;
        } else if row == 2 && col == 2 {
            self.m33 = value;
        } else if row == 2 && col == 3 {
            self.m34 = value;
        } else if row == 3 && col == 0 {
            self.m41 = value;
        } else if row == 3 && col == 1 {
            self.m42 = value;
        } else if row == 3 && col == 2 {
            self.m43 = value;
        } else {
            self.m44 = value;
        }
    }

    /// Writes `value` to every entry of row `row`, counted from 0.
    pub fn fill_row(&mut self, row: usize, value: Scalar)
        requires
            row < 4,
        ensures
            *final(self) == old(self).with_row(row as int, value),
    {
        self.set(row, 0, value);
        self.set(row, 1, value);
        self.set(row, 2, value);
        self.set(row, 3, value);
    }

    /// The matrix applied after a scaling by `s`: the first three columns
    /// multiplied by its components.
    pub fn prepend_nonuniform_scaling(&self, s: &Vector3<Scalar>) -> (r: Self)
        ensures
            r == self.columns_scaled(*s),
    {
        Matrix4 {
            m11: self.m11.mul(s.x),
            m12: self.m12.mul(s.y),
            m13: self.m13.mul(s.z),
            m14: self.m14,
            m21: self.m21.mul(s.x),
            m22: self.m22.mul(s.y),
            m23: self.m23.mul(s.z),
            m24: self.m24,
            m31: self.m31.mul(s.x),
            m32: self.m32.mul(s.y),
            m33: self.m33.mul(s.z),
            m34: self.m34,
            m41: self.m41.mul(s.x),
            m42: self.m42.mul(s.y),
            m43: self.m43.mul(s.z),
            m44: self.m44,
        }
    }

    /// The matrix followed by a scaling by `s`: the first three rows
    /// multiplied by its components.
    pub fn append_nonuniform_scaling(&self, s: &Vector3<Scalar>) -> (r: Self)
        ensures
            r == self.rows_scaled(*s),
    {
        Matrix4 {
            m11: self.m11.mul(s.x),
            m12: self.m12.mul(s.x),
            m13: self.m13.mul(s.x),
            m14: self.m14.mul(s.x),
            m21: self.m21.mul(s.y),
            m22: self.m22.mul(s.y),
            m23: self.m23.mul(s.y),
            m24: self.m24.mul(s.y),
            m31: self.m31.mul(s.z),
            m32: self.m32.mul(s.z),
            m33: self.m33.mul(s.z),
            m34: self.m34.mul(s.z),
            m41: self.m41,
            m42: self.m42,
            m43: self.m43,
            m44: self.m44,
        }
    }

    /// Whether no entry is an infinity or a NaN.
    pub fn is_finite(&self) -> (r: bool)
        ensures
            r == self.all_finite(),
    {
        let mut row: usize = 0;
        while row < 4
            invariant
                row <= 4,
                forall|i: int, j: int|
                    0 <= i < row && 0 <= j < 4 ==> (#[trigger] self.cell(i, j)).is_finite(),
            decreases 4 - row,
        {
            let mut col: usize = 0;
            while col < 4
                invariant
                    row < 4,
                    col <= 4,
                    forall|i: int, j: int|
                        0 <= i < row && 0 <= j < 4 ==> (#[trigger] self.cell(i, j)).is_finite(),
                    forall|j: int|
                        0 <= j < col ==> (#[trigger] self.cell(row as int, j)).is_finite(),
                decreases 4 - col,
            {
                if !self.get(row, col).finite() {
                    return false;
                }
                col += 1;
            }
            row += 1;
        }
        true
    }
}

} // verus!
