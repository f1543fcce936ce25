//! Double-precision numbers held by their bit patterns.

use crate::arith::Arith;
use const_soft_float::soft_f64::SoftF64;
use vstd::prelude::*;

verus! {

/// The sign bit of a double.
pub const SIGN_BIT: u64 = 0x8000_0000_0000_0000;

/// Every bit of a double but the sign.
pub const MAGNITUDE_MASK: u64 = 0x7fff_ffff_ffff_ffff;

/// The bits of positive infinity: the exponent field full, the fraction empty.
pub const INFINITY_BITS: u64 = 0x7ff0_0000_0000_0000;

/// The bits of positive zero.
pub const ZERO_BITS: u64 = 0;

/// The bits of one.
pub const ONE_BITS: u64 = 0x3ff0_0000_0000_0000;

/// The bits of two.
pub const TWO_BITS: u64 = 0x4000_0000_0000_0000;

/// The bits of one half.
pub const HALF_BITS: u64 = 0x3fe0_0000_0000_0000;

/// The bits of one quarter.
pub const QUARTER_BITS: u64 = 0x3fd0_0000_0000_0000;

/// The bits of the least positive normal double, 2^-1022: the positive
/// doubles below it, with the exponent field empty, are the subnormal ones.
pub const MIN_NORMAL_BITS: u64 = 0x0010_0000_0000_0000;

/// The bits of 2^54, by which a subnormal double is brought into the normal
/// range.
pub const SCALE_UP_BITS: u64 = 0x4350_0000_0000_0000;

/// The bits of 2^-27, the reciprocal of the square root of 2^54.
pub const SCALE_DOWN_BITS: u64 = 0x3e40_0000_0000_0000;

/// The bits of a NaN.
pub const NAN_BITS: u64 = 0x7ff8_0000_0000_0000;

/// What `SoftF64::add` of `const_soft_float` returns for the doubles with
/// bits `a` and `b`, as bits: their sum, rounded.
pub uninterp spec fn sum_bits(a: u64, b: u64) -> u64;

/// What `SoftF64::mul` of `const_soft_float` returns for the doubles with
/// bits `a` and `b`, as bits: their product, rounded.
pub uninterp spec fn product_bits(a: u64, b: u64) -> u64;

/// What `SoftF64::div` of `const_soft_float` returns for the doubles with
/// bits `a` and `b`, as bits: the quotient of the first by the second,
/// rounded.
pub uninterp spec fn quotient_bits(a: u64, b: u64) -> u64;

/// What `SoftF64::sqrt` of `const_soft_float` returns for the double with
/// bits `a`, as bits: its square root, rounded. It is asked only of doubles
/// that are no positive subnormal.
pub uninterp spec fn root_bits(a: u64) -> u64;

/// What `SoftF64::sin` of `const_soft_float` returns for the double with
/// bits `a`, as bits: close to its sine.
pub uninterp spec fn sine_bits(a: u64) -> u64;

/// What `SoftF64::cos` of `const_soft_float` returns for the double with
/// bits `a`, as bits: close to its cosine.
pub uninterp spec fn cosine_bits(a: u64) -> u64;

/// `SoftF64::add` of `const_soft_float`, on bit patterns. The addition is
/// integer code on the two patterns alone, so that its result is a function
/// of them; nothing else is claimed of it.
#[verifier::external_body]
fn soft_add(a: u64, b: u64) -> (r: u64)
    ensures
        r == sum_bits(a, b),
{
    SoftF64::from_bits(a).add(SoftF64::from_bits(b)).to_bits()
}

/// `SoftF64::mul` of `const_soft_float`, on bit patterns: a function of the
/// two patterns alone; nothing else is claimed of it.
#[verifier::external_body]
fn soft_mul(a: u64, b: u64) -> (r: u64)
    ensures
        r == product_bits(a, b),
{
    SoftF64::from_bits(a).mul(SoftF64::from_bits(b)).to_bits()
}

/// `SoftF64::div` of `const_soft_float`, on bit patterns: a function of the
/// two patterns alone, defined for every divisor, zero included; nothing else
/// is claimed of it.
#[verifier::external_body]
fn soft_div(a: u64, b: u64) -> (r: u64)
    ensures
        r == quotient_bits(a, b),
{
    SoftF64::from_bits(a).div(SoftF64::from_bits(b)).to_bits()
}

/// `SoftF64::sqrt` of `const_soft_float`, on a bit pattern: a function of the
/// pattern alone; nothing else is claimed of it. The positive subnormal
/// doubles are left out: for some of them the outside code shifts a `usize`
/// by 32 places, which fails where a `usize` has 32 bits. Zeros, normal
/// doubles, infinities, NaN and every negative double are taken.
#[verifier::external_body]
fn soft_sqrt(a: u64) -> (r: u64)
    requires
        a == 0 || a >= MIN_NORMAL_BITS,
    ensures
        r == root_bits(a),
{
    SoftF64::from_bits(a).sqrt().to_bits()
}

/// `SoftF64::sin` of `const_soft_float`, on a bit pattern: a function of the
/// pattern alone; nothing is claimed of how close it comes to the sine.
#[verifier::external_body]
fn soft_sin(a: u64) -> (r: u64)
    ensures
        r == sine_bits(a),
{
    SoftF64::from_bits(a).sin().to_bits()
}

/// `SoftF64::cos` of `const_soft_float`, on a bit pattern: a function of the
/// pattern alone; nothing is claimed of how close it comes to the cosine.
#[verifier::external_body]
fn soft_cos(a: u64) -> (r: u64)
    ensures
        r == cosine_bits(a),
{
    SoftF64::from_bits(a).cos().to_bits()
}

/// An IEEE 754 double, held by its 64 bits: sign, eleven bits of exponent,
/// fifty-two of fraction. Two scalars are the same when their bits are, so
/// that a NaN is the same as itself and the two zeros differ. A floating-point
/// number `x` becomes a scalar by `Scalar::from_bits(x.to_bits())`.
#[derive(Clone, Copy, Debug, PartialEq, Eq)]
pub struct Scalar {
    pub bits: u64,
}

impl Scalar {
    /// The bits without the sign.
    pub open spec fn magnitude(self) -> u64 {
        if self.bits >= SIGN_BIT {
            (self.bits - SIGN_BIT) as u64
        } else {
            self.bits
        }
    }

    /// Whether the sign bit is set (of a zero, an infinity or a NaN too).
    pub open spec fn is_sign_negative(self) -> bool {
        self.bits >= SIGN_BIT
    }

    /// Not a number: the exponent field full and the fraction not empty.
    pub open spec fn is_nan(self) -> bool {
        self.magnitude() > INFINITY_BITS
    }

    /// Neither an infinity nor a NaN: the exponent field not full.
    pub open spec fn is_finite(self) -> bool {
        self.magnitude() < INFINITY_BITS
    }

    /// Positive, not zero, and below the least normal double.
    pub open spec fn is_positive_subnormal(self) -> bool {
        0 < self.bits < MIN_NORMAL_BITS
    }

    /// The place of a number that is no NaN in the order of the doubles: its
    /// magnitude, counted downwards for the negative ones. Both zeros have
    /// place 0.
    pub open spec fn rank(self) -> int {
        if self.bits >= SIGN_BIT {
            -(self.magnitude() as int)
        } else {
            self.magnitude() as int
        }
    }

    /// The sine of `self`, as `const_soft_float` computes it.
    pub open spec fn sine(self) -> Scalar {
        Scalar { bits: sine_bits(self.bits) }
    }

    /// The cosine of `self`, as `const_soft_float` computes it.
    pub open spec fn cosine(self) -> Scalar {
        Scalar { bits: cosine_bits(self.bits) }
    }
}

impl Arith for Scalar {
    open spec fn zero() -> Scalar {
        Scalar { bits: ZERO_BITS }
    }

    open spec fn one() -> Scalar {
        Scalar { bits: ONE_BITS }
    }

    open spec fn two() -> Scalar {
        Scalar { bits: TWO_BITS }
    }

    open spec fn half() -> Scalar {
        Scalar { bits: HALF_BITS }
    }

    open spec fn quarter() -> Scalar {
        Scalar { bits: QUARTER_BITS }
    }

    open spec fn plus(self, rhs: Scalar) -> Scalar {
        Scalar { bits: sum_bits(self.bits, rhs.bits) }
    }

    /// Subtracting is adding the opposite.
    open spec fn minus(self, rhs: Scalar) -> Scalar {
        self.plus(rhs.opposite())
    }

    open spec fn times(self, rhs: Scalar) -> Scalar {
        Scalar { bits: product_bits(self.bits, rhs.bits) }
    }

    open spec fn over(self, rhs: Scalar) -> Scalar {
        Scalar { bits: quotient_bits(self.bits, rhs.bits) }
    }

    /// The same number with the sign bit flipped.
    open spec fn opposite(self) -> Scalar {
        if self.bits >= SIGN_BIT {
            Scalar { bits: (self.bits - SIGN_BIT) as u64 }
        } else {
            Scalar { bits: (self.bits + SIGN_BIT) as u64 }
        }
    }

    /// The root of a positive subnormal double is taken of 2^54 times the
    /// double, and multiplied by 2^-27. Should the product still be a
    /// positive subnormal double, the result is a NaN.
    open spec fn root(self) -> Scalar {
        if self.is_positive_subnormal() {
            let scaled = product_bits(self.bits, SCALE_UP_BITS);
            if scaled == 0 || scaled >= MIN_NORMAL_BITS {
                Scalar { bits: product_bits(root_bits(scaled), SCALE_DOWN_BITS) }
            } else {
                Scalar { bits: NAN_BITS }
            }
        } else {
            Scalar { bits: root_bits(self.bits) }
        }
    }

    /// A NaN exceeds nothing and nothing exceeds it; the two zeros are equal.
    open spec fn exceeds(self, rhs: Scalar) -> bool {
        !self.is_nan() && !rhs.is_nan() && self.rank() > rhs.rank()
    }
}

impl Scalar {
    /// The double with the given bits.
    pub fn from_bits(bits: u64) -> (r: Scalar)
        ensures
            r.bits == bits,
    {
        Scalar { bits }
    }

    /// The bits of this double.
    pub fn to_bits(self) -> (r: u64)
        ensures
            r == self.bits,
    {
        self.bits
    }

    /// Positive zero.
    pub fn new_zero() -> (r: Scalar)
        ensures
            r == <Scalar as Arith>::zero(),
    {
        Scalar { bits: ZERO_BITS }
    }

    /// One.
    pub fn new_one() -> (r: Scalar)
        ensures
            r == <Scalar as Arith>::one(),
    {
        Scalar { bits: ONE_BITS }
    }

    /// Two.
    pub fn new_two() -> (r: Scalar)
        ensures
            r == <Scalar as Arith>::two(),
    {
        Scalar { bits: TWO_BITS }
    }

    /// One half.
    pub fn new_half() -> (r: Scalar)
        ensures
            r == <Scalar as Arith>::half(),
    {
        Scalar { bits: HALF_BITS }
    }

    /// One quarter.
    pub fn new_quarter() -> (r: Scalar)
        ensures
            r == <Scalar as Arith>::quarter(),
    {
        Scalar { bits: QUARTER_BITS }
    }

    /// The sum, rounded to the nearest double.
    pub fn add(self, rhs: Scalar) -> (r: Scalar)
        ensures
            r == self.plus(rhs),
    {
        Scalar { bits: soft_add(self.bits, rhs.bits) }
    }

    /// The difference, rounded to the nearest double.
    pub fn sub(self, rhs: Scalar) -> (r: Scalar)
        ensures
            r == self.minus(rhs),
    {
        self.add(rhs.neg())
    }

    /// The product, rounded to the nearest double.
    pub fn mul(self, rhs: Scalar) -> (r: Scalar)
        ensures
            r == self.times(rhs),
    {
        Scalar { bits: soft_mul(self.bits, rhs.bits) }
    }

    /// The quotient, rounded to the nearest double. Dividing by zero gives an
    /// infinity or a NaN, never a failure.
    pub fn div(self, rhs: Scalar) -> (r: Scalar)
        ensures
            r == self.over(rhs),
    {
        Scalar { bits: soft_div(self.bits, rhs.bits) }
    }

    /// The same number with the opposite sign.
    pub fn neg(self) -> (r: Scalar)
        ensures
            r == self.opposite(),
    {
        let bits: u64 = self.bits;
        assert(bits ^ 0x8000_0000_0000_0000 == if bits >= 0x8000_0000_0000_0000 {
            (bits - 0x8000_0000_0000_0000) as u64
        } else {
            (bits + 0x8000_0000_0000_0000) as u64
        }) by (bit_vector);
        Scalar { bits: bits ^ SIGN_BIT }
    }

    /// The square root, rounded to the nearest double; a NaN for a negative
    /// number. A positive subnormal double is first multiplied by 2^54, which
    /// makes it a normal one, and the root of that is multiplied by 2^-27.
    pub fn sqrt(self) -> (r: Scalar)
        ensures
            r == self.root(),
    {
        if self.bits == 0 || self.bits >= MIN_NORMAL_BITS {
            Scalar { bits: soft_sqrt(self.bits) }
        } else {
            let scaled: u64 = soft_mul(self.bits, SCALE_UP_BITS);
            if scaled == 0 || scaled >= MIN_NORMAL_BITS {
                Scalar { bits: soft_mul(soft_sqrt(scaled), SCALE_DOWN_BITS) }
            } else {
                Scalar { bits: NAN_BITS }
            }
        }
    }

    /// The sine of an angle in radians.
    pub fn sin(self) -> (r: Scalar)
        ensures
            r == self.sine(),
    {
        Scalar { bits: soft_sin(self.bits) }
    }

    /// The cosine of an angle in radians.
    pub fn cos(self) -> (r: Scalar)
        ensures
            r == self.cosine(),
    {
        Scalar { bits: soft_cos(self.bits) }
    }

    /// The bits without the sign.
    fn magnitude_bits(self) -> (r: u64)
        ensures
            r == self.magnitude(),
    {
        let bits: u64 = self.bits;
        assert(bits & 0x7fff_ffff_ffff_ffff == if bits >= 0x8000_0000_0000_0000 {
            (bits - 0x8000_0000_0000_0000) as u64
        } else {
            bits
        }) by (bit_vector);
        bits & MAGNITUDE_MASK
    }

    /// Whether this is neither an infinity nor a NaN.
    pub fn finite(self) -> (r: bool)
        ensures
            r == self.is_finite(),
    {
        self.magnitude_bits() < INFINITY_BITS
    }

    /// Whether this is a NaN.
    pub fn nan(self) -> (r: bool)
        ensures
            r == self.is_nan(),
    {
        self.magnitude_bits() > INFINITY_BITS
    }

    /// Whether `self` is strictly greater than `rhs`, as doubles: false
    /// whenever one of them is a NaN, and for the two zeros.
    pub fn gt(self, rhs: Scalar) -> (r: bool)
        ensures
            r == self.exceeds(rhs),
    {
        let a: u64 = self.magnitude_bits();
        let b: u64 = rhs.magnitude_bits();
        if a > INFINITY_BITS || b > INFINITY_BITS {
            false
        } else if self.bits >= SIGN_BIT {
            rhs.bits >= SIGN_BIT && a < b
        } else if rhs.bits >= SIGN_BIT {
            a > 0 || b > 0
        } else {
            a > b
        }
    }
}

} // verus!
