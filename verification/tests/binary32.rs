use media_core::binary32::Single;

fn expected(value: i64) -> u32 {
    (value as f32).to_bits()
}

#[test]
fn small_integers_convert_exactly() {
    assert_eq!(Single::from_i64(0).to_bits(), 0);
    assert_eq!(Single::from_i64(1).to_bits(), 0x3f80_0000);
    assert_eq!(Single::from_i64(-1).to_bits(), 0xbf80_0000);
    assert_eq!(Single::from_i64(2).to_bits(), 0x4000_0000);
    assert_eq!(Single::from_i64(30).to_bits(), 0x41f0_0000);
    assert_eq!(Single::from_i64(1920).to_bits(), 0x44f0_0000);
    assert_eq!(Single::from_i64(1080).to_bits(), 0x4487_0000);
    assert_eq!(Single::from_i64(16_777_215).to_bits(), 0x4b7f_ffff);
    assert_eq!(Single::from_i64(16_777_216).to_bits(), 0x4b80_0000);
}

#[test]
fn conversion_agrees_with_the_machine_on_a_range() {
    let mut value: i64 = -70_000;
    while value <= 70_000 {
        assert_eq!(Single::from_i64(value).to_bits(), expected(value), "{}", value);
        value += 1;
    }
}

#[test]
fn conversion_rounds_ties_to_even() {
    // 2^24 + 1 lies halfway between 2^24 and 2^24 + 2: the even fraction wins.
    assert_eq!(Single::from_i64(16_777_217).to_bits(), 0x4b80_0000);
    // 2^24 + 3 lies halfway between 2^24 + 2 and 2^24 + 4.
    assert_eq!(Single::from_i64(16_777_219).to_bits(), 0x4b80_0002);
    assert_eq!(Single::from_i64(16_777_218).to_bits(), 0x4b80_0001);
    assert_eq!(Single::from_i64(-16_777_217).to_bits(), 0xcb80_0000);
}

#[test]
fn conversion_agrees_with_the_machine_near_powers_of_two() {
    let mut place = 0;
    while place < 63 {
        let power: i64 = 1 << place;
        let mut offset: i64 = -260;
        while offset <= 260 {
            let value = power.wrapping_add(offset);
            assert_eq!(Single::from_i64(value).to_bits(), expected(value), "{}", value);
            let value = power.wrapping_neg().wrapping_add(offset);
            assert_eq!(Single::from_i64(value).to_bits(), expected(value), "{}", value);
            let value = power.wrapping_mul(3).wrapping_add(offset);
            assert_eq!(Single::from_i64(value).to_bits(), expected(value), "{}", value);
            offset += 1;
        }
        place += 1;
    }
}

#[test]
fn conversion_agrees_with_the_machine_at_the_ends() {
    for value in [i64::MAX, i64::MAX - 1, i64::MIN, i64::MIN + 1, i64::MAX / 3, i64::MIN / 3] {
        assert_eq!(Single::from_i64(value).to_bits(), expected(value), "{}", value);
    }
    assert_eq!(Single::from_i64(i64::MAX).to_bits(), 0x5f00_0000);
    assert_eq!(Single::from_i64(i64::MIN).to_bits(), 0xdf00_0000);
}

#[test]
fn conversion_agrees_with_the_machine_on_scattered_values() {
    let mut state: u64 = 0x9e37_79b9_7f4a_7c15;
    let mut round = 0;
    while round < 200_000 {
        state ^= state << 13;
        state ^= state >> 7;
        state ^= state << 17;
        let value = (state as i64) >> (round % 64);
        assert_eq!(Single::from_i64(value).to_bits(), expected(value), "{}", value);
        round += 1;
    }
}

#[test]
fn equality_is_that_of_numbers() {
    let zero = Single::from_bits(0);
    let negative_zero = Single::from_bits(0x8000_0000);
    let one = Single::from_bits(0x3f80_0000);
    let nan = Single::from_bits(0x7fc0_0000);
    assert!(zero == negative_zero);
    assert!(one == one);
    assert!(one != zero);
    assert!(nan != nan);
    assert!(nan != one);
    assert_eq!(0.0f32 == -0.0f32, zero == negative_zero);
    assert_eq!(f32::NAN == f32::NAN, nan == nan);
}

#[test]
fn classification_follows_the_encoding() {
    assert!(Single::from_bits(0x7fc0_0000).is_nan());
    assert!(Single::from_bits(0xffc0_0001).is_nan());
    assert!(!Single::from_bits(0x7f80_0000).is_nan());
    assert!(!Single::from_bits(0x7f80_0000).is_finite());
    assert!(Single::from_bits(0x7f7f_ffff).is_finite());
    assert!(Single::zero().is_finite());
    assert_eq!(Single::default().to_bits(), 0);
}

fn machine_quotient(dividend: u32, divisor: u32) -> u32 {
    (f32::from_bits(dividend) / f32::from_bits(divisor)).to_bits()
}

fn assert_quotient_agrees(dividend: u32, divisor: u32) {
    let ours = Single::from_bits(dividend).div(Single::from_bits(divisor));
    let theirs = machine_quotient(dividend, divisor);
    if f32::from_bits(theirs).is_nan() {
        assert!(ours.is_nan(), "{:#x} / {:#x}", dividend, divisor);
        assert_eq!(ours.to_bits(), 0x7fc0_0000);
    } else {
        assert_eq!(ours.to_bits(), theirs, "{:#x} / {:#x}", dividend, divisor);
    }
}

#[test]
fn simple_quotients_are_exact() {
    let thirty = Single::from_i64(30);
    let one = Single::from_i64(1);
    assert_eq!(thirty.div(one).to_bits(), 30.0f32.to_bits());
    assert_eq!(Single::from_i64(1).div(Single::from_i64(2)).to_bits(), 0.5f32.to_bits());
    assert_eq!(Single::from_i64(-6).div(Single::from_i64(3)).to_bits(), (-2.0f32).to_bits());
    assert_eq!(Single::from_i64(6).div(Single::from_i64(-3)).to_bits(), (-2.0f32).to_bits());
    assert_eq!(Single::from_i64(-6).div(Single::from_i64(-3)).to_bits(), 2.0f32.to_bits());
}

#[test]
fn quotients_are_rounded_to_the_nearest() {
    assert_eq!(Single::from_i64(1).div(Single::from_i64(3)).to_bits(), 0x3eaa_aaab);
    assert_eq!(Single::from_i64(2).div(Single::from_i64(3)).to_bits(), 0x3f2a_aaab);
    assert_eq!(Single::from_i64(30000).div(Single::from_i64(1001)).to_bits(), (30000.0f32 / 1001.0f32).to_bits());
    assert_eq!(Single::from_i64(16).div(Single::from_i64(9)).to_bits(), (16.0f32 / 9.0f32).to_bits());
}

#[test]
fn division_by_zero_gives_infinity_and_zero_by_zero_no_number() {
    let zero = Single::from_bits(0);
    let negative_zero = Single::from_bits(0x8000_0000);
    let one = Single::from_i64(1);
    assert_eq!(one.div(zero).to_bits(), 0x7f80_0000);
    assert_eq!(one.div(negative_zero).to_bits(), 0xff80_0000);
    assert_eq!(Single::from_i64(-1).div(zero).to_bits(), 0xff80_0000);
    assert!(zero.div(zero).is_nan());
    assert!(zero.div(negative_zero).is_nan());
    assert_eq!(zero.div(one).to_bits(), 0);
    assert_eq!(negative_zero.div(one).to_bits(), 0x8000_0000);
}

#[test]
fn infinities_and_what_is_no_number_divide_as_the_standard_says() {
    let infinity = Single::from_bits(0x7f80_0000);
    let negative_infinity = Single::from_bits(0xff80_0000);
    let nan = Single::from_bits(0x7fc0_0000);
    let two = Single::from_i64(2);
    assert!(infinity.div(infinity).is_nan());
    assert!(infinity.div(negative_infinity).is_nan());
    assert_eq!(infinity.div(two).to_bits(), 0x7f80_0000);
    assert_eq!(negative_infinity.div(two).to_bits(), 0xff80_0000);
    assert_eq!(two.div(infinity).to_bits(), 0);
    assert_eq!(two.div(negative_infinity).to_bits(), 0x8000_0000);
    assert_eq!(infinity.div(Single::from_bits(0)).to_bits(), 0x7f80_0000);
    assert!(nan.div(two).is_nan());
    assert!(two.div(nan).is_nan());
    assert!(Single::from_bits(0x7f80_0001).div(two).is_nan());
    assert_eq!(Single::from_bits(0xffff_ffff).div(two).to_bits(), 0x7fc0_0000);
}

#[test]
fn quotients_overflow_to_infinity_and_underflow_to_zero() {
    let largest = Single::from_bits(0x7f7f_ffff);
    let smallest = Single::from_bits(0x0000_0001);
    let half = Single::from_bits(0x3f00_0000);
    assert_eq!(largest.div(half).to_bits(), 0x7f80_0000);
    assert_eq!(largest.div(smallest).to_bits(), 0x7f80_0000);
    assert_eq!(smallest.div(largest).to_bits(), 0);
    assert_eq!(smallest.div(Single::from_i64(2)).to_bits(), 0);
    assert_eq!(Single::from_bits(3).div(Single::from_i64(2)).to_bits(), 2);
    assert_eq!(smallest.div(half).to_bits(), 2);
    assert_eq!(smallest.div(smallest).to_bits(), 0x3f80_0000);
}

#[test]
fn division_agrees_with_the_machine_on_chosen_encodings() {
    let chosen: [u32; 40] = [
        0x0000_0000, 0x0000_0001, 0x0000_0002, 0x0000_0003, 0x0000_0100, 0x0040_0000, 0x007f_ffff,
        0x0080_0000, 0x0080_0001, 0x00ff_ffff, 0x0100_0000, 0x3400_0000, 0x3eaa_aaab, 0x3f00_0000,
        0x3f7f_ffff, 0x3f80_0000, 0x3f80_0001, 0x3fc0_0000, 0x3fff_ffff, 0x4000_0000, 0x4040_0000,
        0x4049_0fdb, 0x41f0_0000, 0x447a_4000, 0x4b7f_ffff, 0x4b80_0000, 0x5f00_0000, 0x7e80_0000,
        0x7f00_0000, 0x7f7f_fffe, 0x7f7f_ffff, 0x7f80_0000, 0x7f80_0001, 0x7fc0_0000, 0x7fff_ffff,
        0x0000_0007, 0x0012_3456, 0x3f2a_aaab, 0x4cbe_bc20, 0x0c00_0000,
    ];
    for dividend in chosen {
        for divisor in chosen {
            assert_quotient_agrees(dividend, divisor);
            assert_quotient_agrees(dividend | 0x8000_0000, divisor);
            assert_quotient_agrees(dividend, divisor | 0x8000_0000);
            assert_quotient_agrees(dividend | 0x8000_0000, divisor | 0x8000_0000);
        }
    }
}

#[test]
fn division_agrees_with_the_machine_on_scattered_encodings() {
    let mut state: u64 = 0x2545_f491_4f6c_dd1d;
    let mut round = 0;
    while round < 400_000 {
        state ^= state << 13;
        state ^= state >> 7;
        state ^= state << 17;
        let dividend = (state >> 32) as u32;
        let divisor = state as u32;
        assert_quotient_agrees(dividend, divisor);
        round += 1;
    }
}

#[test]
fn division_agrees_with_the_machine_near_the_smallest_numbers() {
    let mut state: u64 = 0x9e37_79b9_7f4a_7c15;
    let mut round = 0;
    while round < 200_000 {
        state ^= state << 13;
        state ^= state >> 7;
        state ^= state << 17;
        // A small dividend and a divisor near one: the quotient is subnormal.
        let dividend = ((state >> 40) as u32) & 0x01ff_ffff;
        let divisor = 0x3f00_0000 + ((state as u32) & 0x03ff_ffff);
        assert_quotient_agrees(dividend, divisor);
        // Two numbers of nearly one exponent: the quotient is near one.
        let near = 0x3f80_0000 + ((state as u32) & 0x00ff_ffff);
        let other = 0x3f80_0000 + (((state >> 24) as u32) & 0x00ff_ffff);
        assert_quotient_agrees(near, other);
        // Two subnormal numbers.
        assert_quotient_agrees(((state >> 8) as u32) & 0x007f_ffff, ((state >> 36) as u32) & 0x007f_ffff);
        round += 1;
    }
}

#[test]
fn division_agrees_with_the_machine_on_small_integers() {
    let mut number: i64 = -60;
    while number <= 60 {
        let mut denominator: i64 = -60;
        while denominator <= 60 {
            let ours = Single::from_i64(number).div(Single::from_i64(denominator));
            let theirs = (number as f32) / (denominator as f32);
            if theirs.is_nan() {
                assert!(ours.is_nan());
            } else {
                assert_eq!(ours.to_bits(), theirs.to_bits(), "{} / {}", number, denominator);
            }
            denominator += 1;
        }
        number += 1;
    }
}
