//! Single-precision floating-point values, held as their IEEE-754 binary32
//! encodings.
//!
//! An encoding is a `u32`: one sign bit, eight exponent bits, twenty-three
//! fraction bits. Everything here is integer arithmetic on those fields.

pub mod division;
pub mod rounding;

use vstd::prelude::*;
use vstd::arithmetic::power2::pow2;
use crate::binary32::division::divide_magnitudes;
use crate::binary32::rounding::{
    is_nearest, lemma_nearest_is_unique, nearest_to_integer, scaled, INFINITY_BITS,
};

verus! {

/// The sign bit.
pub const SIGN_BIT: u32 = 0x8000_0000;

/// The quiet not-a-number that operations of this library produce.
pub const NAN_BITS: u32 = 0x7fc0_0000;

/// An encoding without its sign bit.
pub open spec fn magnitude(bits: u32) -> u32 {
    (bits % SIGN_BIT) as u32
}

/// Whether the sign bit of an encoding is set.
pub open spec fn is_negative(bits: u32) -> bool {
    bits >= SIGN_BIT
}

/// Whether an encoding is not a number.
pub open spec fn is_nan(bits: u32) -> bool {
    magnitude(bits) > INFINITY_BITS
}

/// Whether an encoding is positive or negative infinity.
pub open spec fn is_infinite(bits: u32) -> bool {
    magnitude(bits) == INFINITY_BITS
}

/// Whether an encoding is a number of finite size.
pub open spec fn is_finite(bits: u32) -> bool {
    magnitude(bits) < INFINITY_BITS
}

/// Whether an encoding is positive or negative zero.
pub open spec fn is_zero(bits: u32) -> bool {
    magnitude(bits) == 0
}

/// Equality of the numbers that two encodings stand for: both zeros are
/// equal, and what is not a number equals nothing, itself included.
pub open spec fn same_number(a: u32, b: u32) -> bool {
    &&& !is_nan(a)
    &&& !is_nan(b)
    &&& (a == b || (is_zero(a) && is_zero(b)))
}

/// The size of a whole number, its sign aside.
pub open spec fn size_of_integer(value: i64) -> int {
    if value >= 0 {
        value as int
    } else {
        -value
    }
}

/// Whether a value is what the conversion of a whole number gives: the
/// number's sign, and the nearest size, the even one of two that are as near.
pub open spec fn is_conversion_of(converted: Single, value: i64) -> bool {
    &&& is_negative(converted.bits) == (value < 0)
    &&& is_nearest(magnitude(converted.bits), size_of_integer(value) * pow2(149), 1)
}

/// A whole number has one conversion.
pub proof fn lemma_conversion_is_unique(first: Single, second: Single, value: i64)
    requires
        is_conversion_of(first, value),
        is_conversion_of(second, value),
    ensures
        first == second,
{
    lemma_nearest_is_unique(
        magnitude(first.bits),
        magnitude(second.bits),
        size_of_integer(value) * pow2(149),
        1,
    );
}

/// Whether a quotient has no number for a result: an operand is not a
/// number, or zero is divided by zero, or infinity by infinity.
pub open spec fn is_invalid_division(dividend: u32, divisor: u32) -> bool {
    ||| is_nan(dividend)
    ||| is_nan(divisor)
    ||| (is_zero(dividend) && is_zero(divisor))
    ||| (is_infinite(dividend) && is_infinite(divisor))
}

/// Whether an encoding is the quotient of two others, as IEEE 754 defines
/// division with rounding to nearest, ties to even.
///
/// A division without a number for a result gives what is not a number.
/// Any other quotient is negative where one operand is and the other is
/// not. Its size is infinite where infinity is divided or the divisor is
/// zero, zero where zero is divided or the divisor is infinite, and else the
/// size nearest to the quotient of the sizes.
pub open spec fn is_quotient(quotient: u32, dividend: u32, divisor: u32) -> bool {
    if is_invalid_division(dividend, divisor) {
        is_nan(quotient)
    } else {
        &&& is_negative(quotient) == (is_negative(dividend) != is_negative(divisor))
        &&& if is_infinite(dividend) || is_zero(divisor) {
            is_infinite(quotient)
        } else if is_infinite(divisor) || is_zero(dividend) {
            is_zero(quotient)
        } else {
            is_nearest(
                magnitude(quotient),
                (scaled(magnitude(dividend)) * pow2(149)) as int,
                scaled(magnitude(divisor)) as int,
            )
        }
    }
}

/// A division that has a number for a result has one quotient.
pub proof fn lemma_quotient_is_unique(first: u32, second: u32, dividend: u32, divisor: u32)
    requires
        !is_invalid_division(dividend, divisor),
        is_quotient(first, dividend, divisor),
        is_quotient(second, dividend, divisor),
    ensures
        first == second,
{
    if !(is_infinite(dividend) || is_zero(divisor) || is_infinite(divisor) || is_zero(dividend)) {
        lemma_nonzero_size(magnitude(divisor));
        lemma_nearest_is_unique(
            magnitude(first),
            magnitude(second),
            (scaled(magnitude(dividend)) * pow2(149)) as int,
            scaled(magnitude(divisor)) as int,
        );
    }
}

/// A magnitude other than zero has a size other than zero.
pub proof fn lemma_nonzero_size(magnitude: u32)
    requires
        0 < magnitude <= INFINITY_BITS,
    ensures
        scaled(magnitude) > 0,
{
    crate::binary32::rounding::lemma_scaled_increases(0, magnitude);
}

/// A single-precision value.
#[derive(Debug, Clone, Copy)]
pub struct Single {
    pub bits: u32,
}

impl Single {
    /// Positive zero.
    pub fn zero() -> (value: Single)
        ensures
            value.bits == 0,
    {
        Single { bits: 0 }
    }

    /// The value with the given encoding.
    pub fn from_bits(bits: u32) -> (value: Single)
        ensures
            value.bits == bits,
    {
        Single { bits }
    }

    /// The encoding of the value.
    pub fn to_bits(&self) -> (bits: u32)
        ensures
            bits == self.bits,
    {
        self.bits
    }

    /// The conversion of a whole number.
    pub open spec fn of_integer(value: i64) -> Single {
        choose|converted: Single| is_conversion_of(converted, value)
    }

    /// The nearest single-precision value to a whole number, the even one
    /// of two that are as near: what a conversion of the integer gives.
    pub fn from_i64(value: i64) -> (converted: Single)
        ensures
            is_conversion_of(converted, value),
            converted == Single::of_integer(value),
            is_finite(converted.bits),
    {
        let converted = if value >= 0 {
            Single { bits: nearest_to_integer(value as u64) }
        } else if value == i64::MIN {
            Single { bits: SIGN_BIT + nearest_to_integer(0x8000_0000_0000_0000) }
        } else {
            Single { bits: SIGN_BIT + nearest_to_integer((-value) as u64) }
        };
        proof {
            assert(is_conversion_of(converted, value));
            lemma_conversion_is_unique(converted, Single::of_integer(value), value);
        }
        converted
    }

    /// The quotient of two values: the one encoding that is their quotient,
    /// and [`NAN_BITS`] where the division has no number for a result.
    pub open spec fn quotient(dividend: Single, divisor: Single) -> Single {
        if is_invalid_division(dividend.bits, divisor.bits) {
            Single { bits: NAN_BITS }
        } else {
            Single { bits: choose|bits: u32| is_quotient(bits, dividend.bits, divisor.bits) }
        }
    }

    /// The quotient of this value and a divisor. Where the division has no
    /// number for a result, the quotient is the quiet not-a-number
    /// [`NAN_BITS`], whatever the operands hold.
    pub fn div(self, divisor: Single) -> (quotient: Single)
        ensures
            is_quotient(quotient.bits, self.bits, divisor.bits),
            quotient == Single::quotient(self, divisor),
    {
        let quotient = self.divide(divisor);
        proof {
            if !is_invalid_division(self.bits, divisor.bits) {
                lemma_quotient_is_unique(
                    quotient.bits,
                    Single::quotient(self, divisor).bits,
                    self.bits,
                    divisor.bits,
                );
            }
        }
        quotient
    }

    /// The division itself.
    fn divide(self, divisor: Single) -> (quotient: Single)
        ensures
            is_quotient(quotient.bits, self.bits, divisor.bits),
            is_nan(quotient.bits) ==> quotient.bits == NAN_BITS,
    {
        let above = self.bits % SIGN_BIT;
        let below = divisor.bits % SIGN_BIT;
        if above > INFINITY_BITS || below > INFINITY_BITS {
            return Single { bits: NAN_BITS };
        }
        let negative = (self.bits >= SIGN_BIT) != (divisor.bits >= SIGN_BIT);
        let size = if above == INFINITY_BITS {
            if below == INFINITY_BITS {
                return Single { bits: NAN_BITS };
            }
            INFINITY_BITS
        } else if below == INFINITY_BITS {
            0
        } else if below == 0 {
            if above == 0 {
                return Single { bits: NAN_BITS };
            }
            INFINITY_BITS
        } else if above == 0 {
            0
        } else {
            divide_magnitudes(above, below)
        };
        if negative {
            Single { bits: SIGN_BIT + size }
        } else {
            Single { bits: size }
        }
    }

    /// Whether the value is not a number.
    pub fn is_nan(&self) -> (nan: bool)
        ensures
            nan == is_nan(self.bits),
    {
        self.bits % SIGN_BIT > INFINITY_BITS
    }

    /// Whether the value is a number of finite size.
    pub fn is_finite(&self) -> (finite: bool)
        ensures
            finite == is_finite(self.bits),
    {
        self.bits % SIGN_BIT < INFINITY_BITS
    }
}

impl Default for Single {
    fn default() -> (value: Self)
        ensures
            value.bits == 0,
    {
        Single { bits: 0 }
    }
}

impl PartialEq for Single {
    fn eq(&self, other: &Self) -> (same: bool) {
        let a = self.bits % SIGN_BIT;
        let b = other.bits % SIGN_BIT;
        a <= INFINITY_BITS && b <= INFINITY_BITS && (self.bits == other.bits || (a == 0 && b == 0))
    }
}

impl vstd::std_specs::cmp::PartialEqSpecImpl for Single {
    open spec fn obeys_eq_spec() -> bool {
        true
    }

    open spec fn eq_spec(&self, other: &Self) -> bool {
        same_number(self.bits, other.bits)
    }
}

} // verus!
