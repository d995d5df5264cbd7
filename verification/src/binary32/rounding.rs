//! Rounding to the nearest single-precision number, ties to the even one.
//!
//! Sizes are measured in units of 2^-149, the smallest positive
//! single-precision number, so that the size of every encoding is a natural
//! number. Infinity counts as 2^128, the size that follows the largest finite
//! one: a result that rounds to it has overflowed.

use vstd::prelude::*;
use vstd::arithmetic::power2::*;
use vstd::arithmetic::mul::*;

verus! {

/// The number of fractions: 2^23.
pub const FRACTIONS: u32 = 0x80_0000;

/// The encoding of positive infinity, and the largest magnitude with a size.
pub const INFINITY_BITS: u32 = 0x7f80_0000;

/// The size of the number that a magnitude encodes, in units of 2^-149.
pub open spec fn scaled(magnitude: u32) -> nat {
    let exponent = (magnitude / FRACTIONS) as nat;
    let fraction = (magnitude % FRACTIONS) as nat;
    if exponent == 0 {
        fraction
    } else {
        (FRACTIONS as nat + fraction) * pow2((exponent - 1) as nat)
    }
}

/// How far the number of a magnitude is from `numerator / denominator`
/// units, in units of `1 / denominator`.
pub open spec fn distance(magnitude: u32, numerator: int, denominator: int) -> int {
    let reached = scaled(magnitude) * denominator;
    if reached >= numerator {
        reached - numerator
    } else {
        numerator - reached
    }
}

/// Whether a magnitude encodes the single-precision number nearest to
/// `numerator / denominator` units: no other is nearer, and where another is
/// as near, this one has the even fraction.
pub open spec fn is_nearest(magnitude: u32, numerator: int, denominator: int) -> bool {
    &&& magnitude <= INFINITY_BITS
    &&& forall|other: u32|
        other <= INFINITY_BITS ==> distance(magnitude, numerator, denominator) <= #[trigger] distance(
            other,
            numerator,
            denominator,
        )
    &&& forall|other: u32|
        other <= INFINITY_BITS && other != magnitude && #[trigger] distance(other, numerator, denominator)
            == distance(magnitude, numerator, denominator) ==> magnitude % 2 == 0
}

/// The size of the magnitude with a given exponent field and significand.
/// A significand below 2^23 belongs to the smallest exponent only.
pub proof fn lemma_scaled_of_parts(exponent: nat, significand: nat)
    requires
        1 <= exponent <= 255,
        significand < 2 * FRACTIONS,
        exponent > 1 ==> significand >= FRACTIONS,
    ensures
        (exponent - 1) * FRACTIONS + significand <= u32::MAX,
        scaled(((exponent - 1) * FRACTIONS + significand) as u32) == significand * pow2((exponent - 1) as nat),
{
    lemma2_to64();
    let magnitude = ((exponent - 1) * FRACTIONS + significand) as u32;
    if significand >= FRACTIONS {
        assert(magnitude / FRACTIONS == exponent);
        assert(magnitude % FRACTIONS == significand - FRACTIONS);
    } else {
        assert(magnitude == significand);
        assert(significand * pow2(0) == significand);
    }
}

/// The next magnitude encodes a larger number.
pub proof fn lemma_scaled_step(magnitude: u32)
    requires
        magnitude < INFINITY_BITS,
    ensures
        scaled(magnitude) < scaled((magnitude + 1) as u32),
{
    lemma2_to64();
    let exponent = (magnitude / FRACTIONS) as nat;
    let fraction = (magnitude % FRACTIONS) as nat;
    let next = (magnitude + 1) as u32;
    if fraction + 1 < FRACTIONS {
        assert(next / FRACTIONS == exponent);
        assert(next % FRACTIONS == fraction + 1);
        if exponent > 0 {
            let unit = pow2((exponent - 1) as nat);
            lemma_pow2_pos((exponent - 1) as nat);
            lemma_mul_strict_inequality((FRACTIONS + fraction) as int, (FRACTIONS + fraction + 1) as int, unit as int);
        }
    } else {
        assert(next / FRACTIONS == exponent + 1);
        assert(next % FRACTIONS == 0);
        if exponent > 0 {
            let unit = pow2((exponent - 1) as nat);
            lemma_pow2_pos((exponent - 1) as nat);
            lemma_pow2_unfold(exponent);
            assert(scaled(next) == FRACTIONS * (2 * unit));
            assert(FRACTIONS * (2 * unit) == (2 * FRACTIONS) * unit) by (nonlinear_arith);
            lemma_mul_strict_inequality((FRACTIONS + fraction) as int, (2 * FRACTIONS) as int, unit as int);
        } else {
            assert(FRACTIONS * pow2(0) == FRACTIONS);
        }
    }
}

/// A larger magnitude encodes a larger number.
pub proof fn lemma_scaled_increases(smaller: u32, larger: u32)
    requires
        smaller <= larger <= INFINITY_BITS,
    ensures
        scaled(smaller) <= scaled(larger),
        smaller < larger ==> scaled(smaller) < scaled(larger),
    decreases larger - smaller,
{
    if smaller < larger {
        lemma_scaled_increases(smaller, (larger - 1) as u32);
        lemma_scaled_step((larger - 1) as u32);
    }
}

/// Where `numerator / denominator` lies between the numbers of a magnitude
/// and of the next, the nearer of the two is the nearest of all, and the
/// even one where both are as near.
pub proof fn lemma_round_between(magnitude: u32, numerator: int, denominator: int)
    requires
        magnitude < INFINITY_BITS,
        denominator > 0,
        scaled(magnitude) * denominator <= numerator <= scaled((magnitude + 1) as u32) * denominator,
    ensures
        ({
            let below = numerator - scaled(magnitude) * denominator;
            let above = scaled((magnitude + 1) as u32) * denominator - numerator;
            &&& below < above || (below == above && magnitude % 2 == 0) ==> is_nearest(
                magnitude,
                numerator,
                denominator,
            )
            &&& below > above || (below == above && magnitude % 2 == 1) ==> is_nearest(
                (magnitude + 1) as u32,
                numerator,
                denominator,
            )
        }),
{
    let next = (magnitude + 1) as u32;
    let below = numerator - scaled(magnitude) * denominator;
    let above = scaled(next) * denominator - numerator;
    lemma_scaled_step(magnitude);
    lemma_mul_strict_inequality(scaled(magnitude) as int, scaled(next) as int, denominator);
    assert(distance(magnitude, numerator, denominator) == below);
    assert(distance(next, numerator, denominator) == above);
    assert forall|other: u32| other <= INFINITY_BITS implies (other < magnitude ==> below < #[trigger] distance(
        other,
        numerator,
        denominator,
    )) && (other > next ==> above < distance(other, numerator, denominator)) by {
        if other < magnitude {
            lemma_scaled_increases(other, magnitude);
            lemma_mul_strict_inequality(scaled(other) as int, scaled(magnitude) as int, denominator);
        } else if other > next {
            lemma_scaled_increases(next, other);
            lemma_mul_strict_inequality(scaled(next) as int, scaled(other) as int, denominator);
        }
    }
}

/// What is at least as large as 2^128 rounds to infinity.
pub proof fn lemma_round_beyond(numerator: int, denominator: int)
    requires
        denominator > 0,
        numerator >= scaled(INFINITY_BITS) * denominator,
    ensures
        is_nearest(INFINITY_BITS, numerator, denominator),
{
    assert forall|other: u32| other <= INFINITY_BITS && other != INFINITY_BITS implies distance(
        INFINITY_BITS,
        numerator,
        denominator,
    ) < #[trigger] distance(other, numerator, denominator) by {
        lemma_scaled_increases(other, INFINITY_BITS);
        lemma_mul_strict_inequality(scaled(other) as int, scaled(INFINITY_BITS) as int, denominator);
    }
}

/// One magnitude at most is the nearest.
pub proof fn lemma_nearest_is_unique(first: u32, second: u32, numerator: int, denominator: int)
    requires
        denominator > 0,
        is_nearest(first, numerator, denominator),
        is_nearest(second, numerator, denominator),
    ensures
        first == second,
{
    if first != second {
        let low = if first < second { first } else { second };
        let high = if first < second { second } else { first };
        let far = distance(low, numerator, denominator);
        assert(distance(high, numerator, denominator) == far);
        assert(low % 2 == 0 && high % 2 == 0);
        let between = (low + 1) as u32;
        lemma_scaled_increases(low, between);
        lemma_scaled_increases(between, high);
        lemma_scaled_increases(low, high);
        lemma_mul_strict_inequality(scaled(low) as int, scaled(between) as int, denominator);
        lemma_mul_strict_inequality(scaled(between) as int, scaled(high) as int, denominator);
        lemma_mul_strict_inequality(scaled(low) as int, scaled(high) as int, denominator);
        assert(distance(between, numerator, denominator) >= far);
        assert(false);
    }
}

/// The nearest number depends on the ratio alone, not on the two numbers
/// that state it.
pub proof fn lemma_nearest_of_same_ratio(
    magnitude: u32,
    numerator: int,
    denominator: int,
    other_numerator: int,
    other_denominator: int,
)
    requires
        denominator > 0,
        other_denominator > 0,
        numerator * other_denominator == other_numerator * denominator,
        is_nearest(magnitude, numerator, denominator),
    ensures
        is_nearest(magnitude, other_numerator, other_denominator),
{
    assert forall|other: u32|
        distance(other, numerator, denominator) * other_denominator == #[trigger] distance(
            other,
            other_numerator,
            other_denominator,
        ) * denominator by {
        let size = scaled(other) as int;
        let n = numerator;
        let d = denominator;
        let on = other_numerator;
        let od = other_denominator;
        assert((size * d - n) * od == (size * od - on) * d) by (nonlinear_arith)
            requires
                n * od == on * d,
        ;
        assert((size * d >= n) == (size * od >= on)) by (nonlinear_arith)
            requires
                (size * d - n) * od == (size * od - on) * d,
                d > 0,
                od > 0,
        ;
        assert((n - size * d) * od == (on - size * od) * d) by (nonlinear_arith)
            requires
                (size * d - n) * od == (size * od - on) * d,
        ;
    }
    let here = distance(magnitude, numerator, denominator);
    let there = distance(magnitude, other_numerator, other_denominator);
    assert forall|other: u32| other <= INFINITY_BITS implies there <= #[trigger] distance(
        other,
        other_numerator,
        other_denominator,
    ) by {
        let far_here = distance(other, numerator, denominator);
        let far_there = distance(other, other_numerator, other_denominator);
        let d = denominator;
        let od = other_denominator;
        assert(there <= far_there) by (nonlinear_arith)
            requires
                here <= far_here,
                here * od == there * d,
                far_here * od == far_there * d,
                d > 0,
                od > 0,
        ;
    }
    assert forall|other: u32|
        other <= INFINITY_BITS && other != magnitude && #[trigger] distance(
            other,
            other_numerator,
            other_denominator,
        ) == there implies magnitude % 2 == 0 by {
        let far_here = distance(other, numerator, denominator);
        let d = denominator;
        let od = other_denominator;
        assert(far_here == here) by (nonlinear_arith)
            requires
                here * od == there * d,
                far_here * od == there * d,
                od > 0,
        ;
    }
}

/// The magnitude nearest to `numerator / denominator` units of
/// 2^(`exponent` - 1): the quotient, rounded, under the exponent field
/// `exponent`, into which a quotient that rounds up to 2^24 carries.
pub(crate) fn round_to_nearest(exponent: u32, numerator: u64, denominator: u64) -> (magnitude: u32)
    requires
        1 <= exponent <= 254,
        0 < denominator <= u64::MAX / 2,
        numerator / denominator < 2 * FRACTIONS,
        exponent > 1 ==> numerator / denominator >= FRACTIONS,
    ensures
        is_nearest(magnitude, numerator * pow2((exponent - 1) as nat), denominator as int),
        magnitude <= (exponent + 1) * FRACTIONS,
{
    let quotient = numerator / denominator;
    let remainder = numerator % denominator;
    let below: u32 = (exponent - 1) * FRACTIONS + (quotient as u32);
    let up = 2 * remainder > denominator || (2 * remainder == denominator && quotient % 2 == 1);
    proof {
        let unit = pow2((exponent - 1) as nat) as int;
        let q = quotient as int;
        let r = remainder as int;
        let d = denominator as int;
        let n = numerator as int;
        lemma_pow2_pos((exponent - 1) as nat);
        lemma_scaled_of_parts(exponent as nat, quotient as nat);
        if quotient + 1 < 2 * FRACTIONS {
            lemma_scaled_of_parts(exponent as nat, (quotient + 1) as nat);
        } else {
            lemma_scaled_of_parts((exponent + 1) as nat, FRACTIONS as nat);
            lemma_pow2_unfold(exponent as nat);
            assert(FRACTIONS * (2 * unit) == (q + 1) * unit) by (nonlinear_arith)
                requires
                    q + 1 == 2 * FRACTIONS,
            ;
        }
        assert(scaled(below) == q * unit);
        assert(scaled((below + 1) as u32) == (q + 1) * unit);
        assert(n == q * d + r && 0 <= r < d) by {
            vstd::arithmetic::div_mod::lemma_fundamental_div_mod(n, d);
        }
        assert((q * unit) * d + r * unit == n * unit) by (nonlinear_arith)
            requires
                n == q * d + r,
        ;
        assert(((q + 1) * unit) * d - (d - r) * unit == n * unit) by (nonlinear_arith)
            requires
                n == q * d + r,
        ;
        assert(r * unit >= 0 && (d - r) * unit > 0) by (nonlinear_arith)
            requires
                0 <= r < d,
                unit > 0,
        ;
        assert((r * unit < (d - r) * unit) == (2 * r < d) && (r * unit == (d - r) * unit) == (2 * r == d))
            by (nonlinear_arith)
            requires
                unit > 0,
        ;
        lemma_round_between(below, numerator * pow2((exponent - 1) as nat), denominator as int);
        assert(below % 2 == quotient % 2);
    }
    if up {
        below + 1
    } else {
        below
    }
}

/// Two to the power of `exponent`.
pub(crate) fn power_of_two(exponent: u32) -> (power: u64)
    requires
        exponent < 64,
    ensures
        power == pow2(exponent as nat),
{
    let mut power: u64 = 1;
    let mut done: u32 = 0;
    proof {
        lemma2_to64();
    }
    while done < exponent
        invariant
            done <= exponent < 64,
            power == pow2(done as nat),
        decreases exponent - done,
    {
        proof {
            lemma_pow2_unfold((done + 1) as nat);
            lemma_pow2_strictly_increases((done + 1) as nat, 64);
            lemma2_to64();
        }
        power = power * 2;
        done = done + 1;
    }
    power
}

/// The magnitude of the single-precision number nearest to a whole number.
pub(crate) fn nearest_to_integer(size: u64) -> (magnitude: u32)
    ensures
        is_nearest(magnitude, size * pow2(149), 1),
        magnitude < INFINITY_BITS,
{
    if size == 0 {
        proof {
            lemma2_to64();
        }
        let magnitude = round_to_nearest(1, 0, 1);
        assert(0 * pow2(0) == size * pow2(149)) by (nonlinear_arith)
            requires
                size == 0,
        ;
        return magnitude;
    }
    let mut place: u32 = 0;
    let mut top: u64 = 1;
    proof {
        lemma2_to64();
    }
    while size / 2 >= top
        invariant
            place < 64,
            top == pow2(place as nat),
            1 <= top <= size,
        decreases size - top,
    {
        proof {
            lemma_pow2_unfold((place + 1) as nat);
            if place + 1 >= 64 {
                lemma2_to64();
                if place + 1 > 64 {
                    lemma_pow2_strictly_increases(64, (place + 1) as nat);
                }
            }
        }
        top = top * 2;
        place = place + 1;
    }
    assert(top <= size < 2 * top);
    proof {
        lemma_pow2_unfold((place + 1) as nat);
    }
    if place <= 23 {
        let factor = power_of_two(23 - place);
        proof {
            lemma2_to64();
            lemma_pow2_adds(place as nat, (23 - place) as nat);
            lemma_pow2_adds((place + 1) as nat, (23 - place) as nat);
            lemma_pow2_pos((23 - place) as nat);
            lemma_mul_inequality(top as int, size as int, factor as int);
            lemma_mul_strict_inequality(size as int, 2 * top, factor as int);
            assert(size * factor < 0x100_0000);
            assert(size * factor >= 0x80_0000);
        }
        let magnitude = round_to_nearest(127 + place, size * factor, 1);
        proof {
            lemma_pow2_adds((23 - place) as nat, (126 + place) as nat);
            let unit = pow2((126 + place) as nat) as int;
            assert((size * factor) * unit == size * pow2(149)) by (nonlinear_arith)
                requires
                    factor * unit == pow2(149),
            ;
        }
        magnitude
    } else {
        let divisor = power_of_two(place - 23);
        proof {
            lemma2_to64();
            lemma_pow2_adds(23, (place - 23) as nat);
            lemma_pow2_adds(24, (place - 23) as nat);
            lemma_pow2_pos((place - 23) as nat);
            lemma_pow2_strictly_increases((place - 23) as nat, 63);
            let d = divisor as int;
            let q = (size / divisor) as int;
            vstd::arithmetic::div_mod::lemma_fundamental_div_mod(size as int, d);
            assert(q >= 0x80_0000) by (nonlinear_arith)
                requires
                    size >= 0x80_0000 * d,
                    size == d * q + (size % divisor),
                    0 <= (size % divisor) < d,
            ;
            assert(q < 0x100_0000) by (nonlinear_arith)
                requires
                    size < 0x100_0000 * d,
                    size == d * q + (size % divisor),
                    0 <= (size % divisor) < d,
            ;
        }
        let magnitude = round_to_nearest(127 + place, size, divisor);
        proof {
            lemma_pow2_adds(149, (place - 23) as nat);
            let unit = pow2((126 + place) as nat) as int;
            assert((size * unit) * 1 == (size * pow2(149)) * divisor) by (nonlinear_arith)
                requires
                    unit == pow2(149) * divisor,
            ;
            lemma_nearest_of_same_ratio(magnitude, size * unit, divisor as int, size * pow2(149), 1);
        }
        magnitude
    }
}

} // verus!
