//! Division of single-precision numbers, correctly rounded.

use vstd::prelude::*;
use vstd::arithmetic::power2::*;
use vstd::arithmetic::mul::*;
use crate::binary32::rounding::{
    is_nearest, lemma_nearest_of_same_ratio, lemma_round_between, lemma_round_beyond, power_of_two,
    round_to_nearest, scaled, FRACTIONS, INFINITY_BITS,
};

verus! {

/// A magnitude taken apart: its size times 2^`lift` is `significand` times
/// 2^`exponent`, with the significand brought up to 24 bits.
pub(crate) struct Parts {
    pub(crate) significand: u32,
    pub(crate) exponent: u32,
    pub(crate) lift: u32,
}

impl Parts {
    /// Whether these are the parts of a magnitude.
    pub(crate) open spec fn of(self, magnitude: u32) -> bool {
        &&& FRACTIONS <= self.significand < 2 * FRACTIONS
        &&& self.exponent <= 253
        &&& self.lift <= 23
        &&& scaled(magnitude) * pow2(self.lift as nat) == self.significand * pow2(self.exponent as nat)
    }
}

/// Takes a magnitude apart that is neither zero nor infinite.
pub(crate) fn take_apart(magnitude: u32) -> (parts: Parts)
    requires
        0 < magnitude < INFINITY_BITS,
    ensures
        parts.of(magnitude),
{
    let field = magnitude / FRACTIONS;
    let fraction = magnitude % FRACTIONS;
    proof {
        lemma2_to64();
    }
    if field > 0 {
        let parts = Parts { significand: FRACTIONS + fraction, exponent: field - 1, lift: 0 };
        assert(scaled(magnitude) * pow2(0) == scaled(magnitude)) by (nonlinear_arith)
            requires
                pow2(0) == 1,
        ;
        parts
    } else {
        let mut significand = fraction;
        let mut lift: u32 = 0;
        assert(fraction * pow2(0) == fraction) by (nonlinear_arith)
            requires
                pow2(0) == 1,
        ;
        while significand < FRACTIONS
            invariant
                0 < significand < 2 * FRACTIONS,
                significand == fraction * pow2(lift as nat),
                0 < fraction,
                lift <= 23,
            decreases 2 * FRACTIONS - significand,
        {
            proof {
                lemma_pow2_unfold((lift + 1) as nat);
                assert(fraction * (2 * pow2(lift as nat)) == 2 * (fraction * pow2(lift as nat)))
                    by (nonlinear_arith);
                if lift == 23 {
                    lemma2_to64();
                    assert(fraction * pow2(23) >= pow2(23)) by (nonlinear_arith)
                        requires
                            fraction >= 1,
                    ;
                }
            }
            significand = significand * 2;
            lift = lift + 1;
        }
        assert(significand * pow2(0) == significand) by (nonlinear_arith)
            requires
                pow2(0) == 1,
        ;
        Parts { significand, exponent: 0, lift }
    }
}

/// The quotient of two taken-apart numbers, stated with a power of two
/// above and one below, is their quotient in units: the powers make up for
/// the exponents.
pub(crate) proof fn lemma_ratio_of_parts(
    dividend: u32,
    divisor: u32,
    above: Parts,
    below: Parts,
    up: nat,
    down: nat,
)
    requires
        above.of(dividend),
        below.of(divisor),
        up + below.exponent + above.lift == above.exponent + 149 + below.lift + down,
    ensures
        (above.significand * pow2(up)) * scaled(divisor) == (scaled(dividend) * pow2(149)) * (below.significand
            * pow2(down)),
{
    let sa = scaled(dividend) as int;
    let sb = scaled(divisor) as int;
    let ga = above.significand as int;
    let gb = below.significand as int;
    let pza = pow2(above.lift as nat) as int;
    let pzb = pow2(below.lift as nat) as int;
    let pxa = pow2(above.exponent as nat) as int;
    let pxb = pow2(below.exponent as nat) as int;
    let pu = pow2(up) as int;
    let pd = pow2(down) as int;
    let p149 = pow2(149) as int;
    lemma_pow2_pos(above.lift as nat);
    lemma_pow2_pos(below.lift as nat);
    // Both sides of the equation of exponents, as one power of two.
    lemma_pow2_adds(up, below.exponent as nat);
    lemma_pow2_adds(up + below.exponent as nat, above.lift as nat);
    lemma_pow2_adds(above.exponent as nat, 149);
    lemma_pow2_adds(above.exponent as nat + 149, below.lift as nat);
    lemma_pow2_adds(above.exponent as nat + 149 + below.lift as nat, down);
    let whole = pow2(up + below.exponent as nat + above.lift as nat) as int;
    assert(whole == (pu * pxb) * pza);
    assert(whole == ((pxa * p149) * pzb) * pd);
    let left = (ga * pu) * sb;
    let right = (sa * p149) * (gb * pd);
    let lifted_dividend = sa * pza;
    let lifted_divisor = sb * pzb;
    let both = ga * gb;
    assert(left * (pza * pzb) == (ga * lifted_divisor) * (pu * pza)) by (nonlinear_arith)
        requires
            left == (ga * pu) * sb,
            lifted_divisor == sb * pzb,
    ;
    assert((ga * lifted_divisor) * (pu * pza) == both * ((pu * pxb) * pza)) by (nonlinear_arith)
        requires
            lifted_divisor == gb * pxb,
            both == ga * gb,
    ;
    assert(right * (pza * pzb) == (lifted_dividend * gb) * ((p149 * pzb) * pd)) by (nonlinear_arith)
        requires
            right == (sa * p149) * (gb * pd),
            lifted_dividend == sa * pza,
    ;
    assert((lifted_dividend * gb) * ((p149 * pzb) * pd) == both * (((pxa * p149) * pzb) * pd))
        by (nonlinear_arith)
        requires
            lifted_dividend == ga * pxa,
            both == ga * gb,
    ;
    assert(pza * pzb > 0) by (nonlinear_arith)
        requires
            pza > 0,
            pzb > 0,
    ;
    lemma_mul_equality_converse(pza * pzb, left, right);
}

/// The magnitude of the quotient of two magnitudes that are neither zero
/// nor infinite: the nearest to the quotient of their sizes, the even one
/// of two that are as near, and infinity where that overflows.
pub(crate) fn divide_magnitudes(dividend: u32, divisor: u32) -> (quotient: u32)
    requires
        0 < dividend < INFINITY_BITS,
        0 < divisor < INFINITY_BITS,
    ensures
        is_nearest(quotient, (scaled(dividend) * pow2(149)) as int, scaled(divisor) as int),
{
    let above = take_apart(dividend);
    let below = take_apart(divisor);
    let shift: u32 = if above.significand >= below.significand {
        23
    } else {
        24
    };
    proof {
        lemma2_to64();
    }
    let numerator: u64 = (above.significand as u64) * power_of_two(shift);
    let denominator: u64 = below.significand as u64;
    // The exponent field of the quotient, were there no limit to it.
    let raised: i32 = (above.exponent as i32) + (below.lift as i32) + 149 + 1;
    let lowered: i32 = (above.lift as i32) + (below.exponent as i32) + (shift as i32);
    let field: i32 = raised - lowered;
    let ghost ga = above.significand as int;
    let ghost gb = below.significand as int;
    let ghost sa = scaled(dividend) as int;
    let ghost sb = scaled(divisor) as int;
    proof {
        lemma2_to64();
        lemma_pow2_pos(below.exponent as nat);
        lemma_pow2_pos(below.lift as nat);
        assert(sb > 0) by (nonlinear_arith)
            requires
                sb * pow2(below.lift as nat) == gb * pow2(below.exponent as nat),
                gb > 0,
                pow2(below.exponent as nat) > 0,
                pow2(below.lift as nat) > 0,
                sb >= 0,
        ;
        assert(numerator == ga * pow2(shift as nat));
        // The quotient of the significands has 24 bits.
        assert(0x80_0000 * gb <= numerator < 0x100_0000 * gb) by {
            if shift == 23 {
                assert(ga * 0x80_0000 >= gb * 0x80_0000);
                assert(ga * 0x80_0000 < gb * 0x100_0000);
            } else {
                assert(ga * 0x100_0000 < gb * 0x100_0000);
                assert(ga * 0x100_0000 >= gb * 0x80_0000);
            }
        }
        vstd::arithmetic::div_mod::lemma_fundamental_div_mod(numerator as int, denominator as int);
        let q = (numerator / denominator) as int;
        let r = (numerator % denominator) as int;
        assert(0x80_0000 <= q < 0x100_0000) by (nonlinear_arith)
            requires
                0x80_0000 * gb <= numerator < 0x100_0000 * gb,
                numerator == gb * q + r,
                0 <= r < gb,
        ;
    }
    if field >= 255 {
        proof {
            let up = (shift + field - 1) as nat;
            lemma_ratio_of_parts(dividend, divisor, above, below, up, 0);
            lemma_pow2_adds(shift as nat, (field - 1) as nat);
            lemma_scaled_of_infinity();
            lemma_pow2_pos(254);
            lemma_pow2_pos(shift as nat);
            if field - 1 > 254 {
                lemma_pow2_strictly_increases(254, (field - 1) as nat);
            }
            let pk = pow2(shift as nat) as int;
            let pe = pow2((field - 1) as nat) as int;
            let p254 = pow2(254) as int;
            let p149 = pow2(149) as int;
            assert((sa * p149) * gb >= (0x80_0000 * p254 * sb) * gb) by (nonlinear_arith)
                requires
                    (ga * (pk * pe)) * sb == (sa * p149) * (gb * 1),
                    ga * pk >= 0x80_0000 * gb,
                    pe >= p254,
                    p254 > 0,
                    sb > 0,
                    gb > 0,
                    ga > 0,
                    pk > 0,
            ;
            lemma_mul_inequality_converse(0x80_0000 * p254 * sb, sa * p149, gb);
            assert(scaled(INFINITY_BITS) * sb == 0x80_0000 * p254 * sb) by (nonlinear_arith)
                requires
                    scaled(INFINITY_BITS) == 0x80_0000 * p254,
            ;
            lemma_round_beyond(sa * p149, sb);
        }
        INFINITY_BITS
    } else if field >= 1 {
        let quotient = round_to_nearest(field as u32, numerator, denominator);
        proof {
            let up = (shift + field - 1) as nat;
            lemma_ratio_of_parts(dividend, divisor, above, below, up, 0);
            lemma_pow2_adds(shift as nat, (field - 1) as nat);
            let pk = pow2(shift as nat) as int;
            let pe = pow2((field - 1) as nat) as int;
            let p149 = pow2(149) as int;
            assert((numerator * pe) * sb == (sa * p149) * denominator) by (nonlinear_arith)
                requires
                    (ga * (pk * pe)) * sb == (sa * p149) * (gb * 1),
                    numerator == ga * pk,
                    denominator == gb,
            ;
            lemma_nearest_of_same_ratio(quotient, numerator * pe, denominator as int, sa * p149, sb);
        }
        quotient
    } else if field >= -24 {
        // A quotient below the smallest exponent is counted in units.
        let drop: u32 = (1 - field) as u32;
        proof {
            lemma_pow2_strictly_increases(drop as nat, 26);
            lemma_pow2_pos(drop as nat);
            assert(gb * pow2(drop as nat) < 0x100_0000 * 0x400_0000) by (nonlinear_arith)
                requires
                    0 < gb < 0x100_0000,
                    0 < pow2(drop as nat) < 0x400_0000,
            ;
            assert(gb * pow2(drop as nat) > 0) by (nonlinear_arith)
                requires
                    0 < gb,
                    0 < pow2(drop as nat),
            ;
        }
        let lowered_denominator: u64 = denominator * power_of_two(drop);
        proof {
            let pd = pow2(drop as nat) as int;
            assert(lowered_denominator == gb * pd);
            let q = (numerator / lowered_denominator) as int;
            let r = (numerator % lowered_denominator) as int;
            vstd::arithmetic::div_mod::lemma_fundamental_div_mod(numerator as int, lowered_denominator as int);
            assert(q < 0x100_0000) by (nonlinear_arith)
                requires
                    numerator < 0x100_0000 * gb,
                    numerator == (gb * pd) * q + r,
                    0 <= r,
                    pd >= 1,
                    gb > 0,
                    q >= 0,
            ;
        }
        let quotient = round_to_nearest(1, numerator, lowered_denominator);
        proof {
            lemma_ratio_of_parts(dividend, divisor, above, below, shift as nat, drop as nat);
            let pk = pow2(shift as nat) as int;
            let pd = pow2(drop as nat) as int;
            let p149 = pow2(149) as int;
            assert((numerator * pow2(0)) * sb == (sa * p149) * lowered_denominator) by (nonlinear_arith)
                requires
                    (ga * pk) * sb == (sa * p149) * (gb * pd),
                    numerator == ga * pk,
                    lowered_denominator == gb * pd,
                    pow2(0) == 1,
            ;
            lemma_nearest_of_same_ratio(
                quotient,
                numerator * pow2(0),
                lowered_denominator as int,
                sa * p149,
                sb,
            );
        }
        quotient
    } else {
        // So far below the smallest exponent that it is nearer to zero than
        // to anything else.
        proof {
            let drop = (1 - field) as nat;
            lemma_ratio_of_parts(dividend, divisor, above, below, shift as nat, drop);
            if drop > 26 {
                lemma_pow2_strictly_increases(26, drop);
            }
            lemma_pow2_pos(149);
            let pk = pow2(shift as nat) as int;
            let pd = pow2(drop) as int;
            let p149 = pow2(149) as int;
            assert(2 * (sa * p149) < sb) by (nonlinear_arith)
                requires
                    (ga * pk) * sb == (sa * p149) * (gb * pd),
                    ga * pk < 0x100_0000 * gb,
                    pd >= 0x400_0000,
                    gb > 0,
                    sb > 0,
                    sa >= 0,
                    p149 > 0,
            ;
            lemma_scaled_of_one();
            assert(scaled(0) * sb == 0) by (nonlinear_arith)
                requires
                    scaled(0) == 0,
            ;
            assert(scaled(1) * sb == sb) by (nonlinear_arith)
                requires
                    scaled(1) == 1,
            ;
            assert(sa * p149 >= 0) by (nonlinear_arith)
                requires
                    sa >= 0,
                    p149 > 0,
            ;
            lemma_round_between(0, sa * p149, sb);
        }
        0
    }
}

/// The size of infinity: 2^128 in units of 2^-149.
pub(crate) proof fn lemma_scaled_of_infinity()
    ensures
        scaled(INFINITY_BITS) == 0x80_0000 * pow2(254),
{
}

/// The sizes of the two smallest magnitudes.
pub(crate) proof fn lemma_scaled_of_one()
    ensures
        scaled(0) == 0,
        scaled(1) == 1,
{
}

} // verus!
