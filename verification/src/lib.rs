//! Local spatial transforms for the nodes of a scene graph: a translation, a
//! rotation held as a unit quaternion, a scale applied before both, and the
//! algebra that composes them into 4x4 homogeneous matrices.
//!
//! Numbers are IEEE 754 doubles held by their bit patterns ([`Scalar`]); they
//! are added, multiplied and so on by the crate `const_soft_float`, in integer
//! arithmetic. Every formula is written once, over any [`Arith`], so that the
//! same text says what the machine computes and, read over the reals, what it
//! approximates. The module [`laws`] proves what holds of the formulas in the
//! second reading, where the operations are exact, and what holds of the
//! cached matrix and of the written form in the first.

pub mod arith;
pub mod format;
pub mod isometry;
pub mod laws;
pub mod lemmas;
pub mod matrix;
pub mod quaternion;
pub mod scalar;
pub mod transform;
pub mod vector;

pub use arith::Arith;
pub use format::{Entry, Field, FormatError, Partial, TransformValues};
pub use isometry::Isometry;
pub use matrix::{Matrix3, Matrix4};
pub use quaternion::Quaternion;
pub use scalar::Scalar;
pub use transform::{Pose, Transform};
pub use vector::Vector3;
