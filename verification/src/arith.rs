//! The arithmetic that the formulas of this crate are written over.

use vstd::prelude::*;

verus! {

/// A set of numbers with the four operations, a square root and an order.
///
/// Nothing is asked of the operations: the doubles of [`crate::Scalar`] round
/// after each step and satisfy few of the usual identities, the reals satisfy
/// all of them. A formula written over `Arith` can be read in both.
pub trait Arith: Sized {
    spec fn zero() -> Self;

    spec fn one() -> Self;

    spec fn two() -> Self;

    /// One divided by two.
    spec fn half() -> Self;

    /// One divided by four.
    spec fn quarter() -> Self;

    spec fn plus(self, rhs: Self) -> Self;

    spec fn minus(self, rhs: Self) -> Self;

    spec fn times(self, rhs: Self) -> Self;

    spec fn over(self, rhs: Self) -> Self;

    spec fn opposite(self) -> Self;

    /// The non-negative square root.
    spec fn root(self) -> Self;

    /// Whether `self` is strictly greater than `rhs`.
    spec fn exceeds(self, rhs: Self) -> bool;
}

/// Whether `r` is the non-negative square root of `x`.
pub open spec fn is_root_of(r: real, x: real) -> bool {
    r >= 0real && r * r == x
}

impl Arith for real {
    open spec fn zero() -> real {
        0real
    }

    open spec fn one() -> real {
        1real
    }

    open spec fn two() -> real {
        2real
    }

    open spec fn half() -> real {
        1real / 2real
    }

    open spec fn quarter() -> real {
        1real / 4real
    }

    open spec fn plus(self, rhs: real) -> real {
        self + rhs
    }

    open spec fn minus(self, rhs: real) -> real {
        self - rhs
    }

    open spec fn times(self, rhs: real) -> real {
        self * rhs
    }

    open spec fn over(self, rhs: real) -> real {
        self / rhs
    }

    open spec fn opposite(self) -> real {
        -self
    }

    open spec fn root(self) -> real {
        choose|r: real| is_root_of(r, self)
    }

    open spec fn exceeds(self, rhs: real) -> bool {
        self > rhs
    }
}

} // verus!
