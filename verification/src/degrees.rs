//! Angles as a provider sends them, turned into millionths of a degree.
//!
//! A provider reports an angle as a binary64 number. Such a number is a
//! pattern of 64 bits: one bit of sign, eleven of exponent, fifty-two of
//! fraction. This module reads the pattern with integer arithmetic alone and
//! rounds the angle to the nearest millionth of a degree.

use vstd::prelude::*;
use vstd::arithmetic::power2::{
    lemma2_to64, lemma2_to64_rest, lemma_pow2_adds, lemma_pow2_pos, lemma_pow2_strictly_increases,
    lemma_pow2_unfold, pow2,
};
use crate::viewport::{
    lemma_div_between, lemma_div_monotone, LAT_LIMIT, LON_LIMIT, MICRO,
};

verus! {

/// Two to the power 52: one more than the largest fraction.
pub const FRACTION_SPAN: u64 = 0x10_0000_0000_0000;

/// Two to the power 63: the weight of the sign bit.
pub const SIGN_WEIGHT: u64 = 0x8000_0000_0000_0000;

/// The exponent field that marks an infinity or a value that is no number.
pub const EXPONENT_SPECIAL: u64 = 2047;

/// The sign bit is set.
pub open spec fn double_negative(bits: u64) -> bool {
    bits >= SIGN_WEIGHT
}

/// The exponent field, from 0 to 2047.
pub open spec fn double_exponent(bits: u64) -> int {
    (bits / FRACTION_SPAN) as int % 2048
}

/// The fraction field, below two to the power 52.
pub open spec fn double_fraction(bits: u64) -> int {
    bits as int % (FRACTION_SPAN as int)
}

/// The pattern stands for a number, not for an infinity or a failed result.
pub open spec fn double_finite(bits: u64) -> bool {
    double_exponent(bits) != EXPONENT_SPECIAL
}

/// The integer whose product with a power of two is the magnitude. An
/// exponent field of zero marks a number without the leading one.
pub open spec fn double_significand(bits: u64) -> int {
    if double_exponent(bits) == 0 {
        double_fraction(bits)
    } else {
        FRACTION_SPAN + double_fraction(bits)
    }
}

/// The power of two that the significand is multiplied by.
pub open spec fn double_power(bits: u64) -> int {
    if double_exponent(bits) == 0 {
        -1074
    } else {
        double_exponent(bits) - 1075
    }
}

/// A million times the magnitude of a finite number, rounded to the nearest
/// integer, a half rounded up.
pub open spec fn double_micro_magnitude(bits: u64) -> int {
    let scaled = double_significand(bits) * MICRO;
    let power = double_power(bits);
    if power >= 0 {
        scaled * pow2(power as nat)
    } else {
        (2 * scaled + pow2((-power) as nat)) / (2 * pow2((-power) as nat) as int)
    }
}

/// A million times a finite number, rounded to the nearest integer, a half
/// rounded away from zero.
pub open spec fn double_micro(bits: u64) -> int {
    if double_negative(bits) {
        -double_micro_magnitude(bits)
    } else {
        double_micro_magnitude(bits)
    }
}

/// The angle in millionths of a degree, where the pattern is a finite number
/// that rounds to at most `limit` either side of zero.
pub open spec fn degrees_within(bits: u64, limit: int) -> Option<i64> {
    if double_finite(bits) && double_micro_magnitude(bits) <= limit {
        Some(double_micro(bits) as i64)
    } else {
        None
    }
}

/// Two to the power `exponent`.
fn power_of_two(exponent: u64) -> (r: u128)
    requires
        exponent <= 100,
    ensures
        r == pow2(exponent as nat),
{
    let mut power: u128 = 1;
    let mut done: u64 = 0;
    proof {
        lemma2_to64();
        lemma_pow2_adds(64, 36);
        lemma2_to64_rest();
    }
    while done < exponent
        invariant
            done <= exponent <= 100,
            power == pow2(done as nat),
            pow2(100) == 0x10_0000_0000_0000_0000_0000_0000,
        decreases exponent - done,
    {
        proof {
            lemma_pow2_unfold((done + 1) as nat);
            if done + 1 < 100 {
                lemma_pow2_strictly_increases((done + 1) as nat, 100);
            }
        }
        power = power * 2;
        done = done + 1;
    }
    power
}

/// A number of 256 or more in magnitude is far beyond any angle.
proof fn lemma_large_exponent(bits: u64)
    requires
        1031 <= double_exponent(bits) < 2047,
    ensures
        double_micro_magnitude(bits) >= 256 * MICRO,
{
    let scaled = double_significand(bits) * MICRO;
    let power = double_power(bits);
    lemma2_to64_rest();
    assert(scaled >= 0x10_0000_0000_0000 * MICRO) by (nonlinear_arith)
        requires
            scaled == double_significand(bits) * MICRO,
            double_significand(bits) >= 0x10_0000_0000_0000,
    ;
    if power >= 0 {
        lemma_pow2_pos(power as nat);
        assert(scaled * pow2(power as nat) >= scaled) by (nonlinear_arith)
            requires
                scaled >= 0,
                pow2(power as nat) >= 1,
        ;
    } else {
        let k = (-power) as nat;
        assert(1 <= k <= 44);
        lemma_pow2_pos(k);
        if k < 44 {
            lemma_pow2_strictly_increases(k, 44);
        }
        let unit = pow2(k) as int;
        assert(256 * MICRO * (2 * unit) <= 2 * scaled + unit) by (nonlinear_arith)
            requires
                0 < unit <= 0x1000_0000_0000,
                scaled >= 0x10_0000_0000_0000 * MICRO,
                MICRO == 1_000_000,
        ;
        lemma_div_between(256 * MICRO * (2 * unit), 2 * unit, 256 * MICRO);
        lemma_div_monotone(256 * MICRO * (2 * unit), 2 * scaled + unit, 2 * unit);
    }
}

/// A number so small that it rounds to no millionth at all.
proof fn lemma_small_exponent(bits: u64, shift: nat)
    requires
        double_exponent(bits) <= 1030,
        shift == -double_power(bits),
        shift >= 75,
    ensures
        double_micro_magnitude(bits) == 0,
{
    let scaled = double_significand(bits) * MICRO;
    lemma2_to64();
    lemma_pow2_adds(64, 11);
    if shift > 75 {
        lemma_pow2_strictly_increases(75, shift);
    }
    let unit = pow2(shift) as int;
    assert(0 <= 2 * scaled + unit < 2 * unit) by (nonlinear_arith)
        requires
            scaled == double_significand(bits) * MICRO,
            0 <= double_significand(bits) < 0x20_0000_0000_0000,
            MICRO == 1_000_000,
            unit >= 0x10000000000000000 * 0x800,
    ;
    lemma_div_between(2 * scaled + unit, 2 * unit, 0);
}

/// The angle that `bits` stands for, in millionths of a degree, or nothing
/// where it lies beyond `limit` or is no number.
fn degrees_of(bits: u64, limit: i64) -> (r: Option<i64>)
    requires
        0 <= limit <= LON_LIMIT,
    ensures
        r == degrees_within(bits, limit as int),
        r matches Some(v) ==> -limit <= v <= limit && v == double_micro(bits),
{
    let negative: bool = bits >= SIGN_WEIGHT;
    let exponent: u64 = bits / FRACTION_SPAN % 2048;
    let fraction: u64 = bits % FRACTION_SPAN;
    if exponent >= 1031 {
        proof {
            if exponent < 2047 {
                lemma_large_exponent(bits);
            }
        }
        return None;
    }
    let significand: u64 = if exponent == 0 {
        fraction
    } else {
        FRACTION_SPAN + fraction
    };
    let shift: u64 = if exponent == 0 {
        1074
    } else {
        1075 - exponent
    };
    assert(0 <= significand * 1_000_000 < 0x200_0000_0000_0000_0000) by (nonlinear_arith)
        requires
            0 <= significand < 0x20_0000_0000_0000,
    ;
    let scaled: u128 = significand as u128 * 1_000_000;
    let magnitude: u128 = if shift >= 75 {
        proof {
            lemma_small_exponent(bits, shift as nat);
        }
        0
    } else {
        let unit: u128 = power_of_two(shift);
        proof {
            lemma2_to64();
            lemma2_to64_rest();
            lemma_pow2_adds(64, 10);
            if shift < 74 {
                lemma_pow2_strictly_increases(shift as nat, 74);
            }
            if shift > 45 {
                lemma_pow2_strictly_increases(45, shift as nat);
            }
            assert(0x2000_0000_0000 <= unit <= 0x400_0000_0000_0000_0000);
            let d = 2 * unit as int;
            let x = 2 * scaled as int + unit as int;
            assert(x < 0x2000_0000 * d) by (nonlinear_arith)
                requires
                    x == 2 * scaled + unit,
                    d == 2 * unit,
                    unit >= 0x2000_0000_0000,
                    scaled < 0x200_0000_0000_0000_0000,
            ;
            lemma_div_monotone(x, 0x2000_0000 * d, d);
            lemma_div_between(0x2000_0000 * d, d, 0x2000_0000);
            assert(x >= 0);
            lemma_div_monotone(0, x, d);
        }
        (2 * scaled + unit) / (2 * unit)
    };
    assert(magnitude == double_micro_magnitude(bits));
    if magnitude <= limit as u128 {
        let amount: i64 = magnitude as i64;
        if negative {
            Some(-amount)
        } else {
            Some(amount)
        }
    } else {
        None
    }
}

/// The latitude that `bits` stands for, in millionths of a degree: the
/// number times a million, rounded to the nearest integer. Nothing where the
/// rounded number lies more than 90 degrees from the equator, or where
/// `bits` is the pattern of an infinity or of a failed result.
pub fn latitude_of(bits: u64) -> (r: Option<i64>)
    ensures
        r == degrees_within(bits, LAT_LIMIT as int),
        r matches Some(v) ==> -LAT_LIMIT <= v <= LAT_LIMIT && v == double_micro(bits),
{
    degrees_of(bits, LAT_LIMIT)
}

/// The longitude that `bits` stands for, in millionths of a degree: the
/// number times a million, rounded to the nearest integer. Nothing where the
/// rounded number lies more than 180 degrees from the prime meridian, or
/// where `bits` is the pattern of an infinity or of a failed result.
pub fn longitude_of(bits: u64) -> (r: Option<i64>)
    ensures
        r == degrees_within(bits, LON_LIMIT as int),
        r matches Some(v) ==> -LON_LIMIT <= v <= LON_LIMIT && v == double_micro(bits),
{
    degrees_of(bits, LON_LIMIT)
}

} // verus!
