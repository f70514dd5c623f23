//! The IEEE 754 binary64 format, read from its 64-bit pattern.
//!
//! A pattern holds, from the top, one sign bit, eleven exponent bits and
//! fifty-two fraction bits. A finite pattern stands for the number
//! `significand * 2^scale`, negated where the sign bit is set; the spec
//! functions here say which patterns stand for whole numbers, and for which.

use vstd::arithmetic::div_mod::{
    lemma_fundamental_div_mod, lemma_fundamental_div_mod_converse, lemma_mod_multiples_basic,
};
use vstd::arithmetic::power2::{lemma_pow2_pos, pow2};
use vstd::prelude::*;

verus! {

/// The sign bit: patterns from here up are negative.
pub const SIGN_BIT: u64 = 0x8000_0000_0000_0000;

/// How many values the fraction field takes: two to the 52nd.
pub const FRACTION_SPAN: u64 = 0x10_0000_0000_0000;

/// How many values the exponent field takes: two to the 11th.
pub const EXPONENT_SPAN: u64 = 0x800;

/// The exponent field of the infinities and of the NaNs.
pub const EXPONENT_SPECIAL: u64 = 0x7ff;

/// The exponent field at which the significand counts ones: the format's
/// bias of 1023 and the 52 fraction bits.
pub const EXPONENT_ONES: u64 = 1075;

/// The sign bit is set.
pub open spec fn sign_negative(bits: u64) -> bool {
    bits >= SIGN_BIT
}

/// The eleven exponent bits, as a number.
pub open spec fn exponent_field(bits: u64) -> int {
    (bits as int / FRACTION_SPAN as int) % (EXPONENT_SPAN as int)
}

/// The fifty-two fraction bits, as a number.
pub open spec fn fraction_field(bits: u64) -> int {
    bits as int % (FRACTION_SPAN as int)
}

/// The pattern is a NaN.
pub open spec fn is_nan(bits: u64) -> bool {
    exponent_field(bits) == EXPONENT_SPECIAL && fraction_field(bits) != 0
}

/// The pattern is one of the two infinities.
pub open spec fn is_infinite(bits: u64) -> bool {
    exponent_field(bits) == EXPONENT_SPECIAL && fraction_field(bits) == 0
}

/// The pattern stands for a number: a zero, a subnormal or a normal one.
pub open spec fn is_finite(bits: u64) -> bool {
    exponent_field(bits) != EXPONENT_SPECIAL
}

/// The integer that a finite pattern scales: the fraction bits, below an
/// implicit leading one unless the exponent field is zero.
pub open spec fn significand(bits: u64) -> int {
    if exponent_field(bits) == 0 {
        fraction_field(bits)
    } else {
        FRACTION_SPAN + fraction_field(bits)
    }
}

/// The power of two by which a finite pattern scales its significand.
pub open spec fn scale(bits: u64) -> int {
    if exponent_field(bits) == 0 {
        1 - EXPONENT_ONES
    } else {
        exponent_field(bits) - EXPONENT_ONES
    }
}

/// How many steps of the significand make up the number one, for a pattern
/// whose scale is negative.
pub open spec fn steps_per_one(bits: u64) -> int
    recommends
        scale(bits) < 0,
{
    pow2((-scale(bits)) as nat) as int
}

/// The pattern stands for a whole number: it is finite, and
/// `significand * 2^scale` has no fractional part.
pub open spec fn is_whole(bits: u64) -> bool {
    is_finite(bits) && (scale(bits) >= 0 || significand(bits) % steps_per_one(bits) == 0)
}

/// The size of the whole number that the pattern stands for.
pub open spec fn whole_magnitude(bits: u64) -> int
    recommends
        is_whole(bits),
{
    if scale(bits) >= 0 {
        significand(bits) * pow2(scale(bits) as nat)
    } else {
        significand(bits) / steps_per_one(bits)
    }
}

/// The whole number that the pattern stands for; both zeros stand for 0.
pub open spec fn whole_value(bits: u64) -> int
    recommends
        is_whole(bits),
{
    if sign_negative(bits) {
        -whole_magnitude(bits)
    } else {
        whole_magnitude(bits)
    }
}

/// The size of a finite pattern's number after rounding to the nearest whole
/// number, a half going away from zero.
pub open spec fn rounded_magnitude(bits: u64) -> int
    recommends
        is_finite(bits),
{
    if scale(bits) >= 0 {
        significand(bits) * pow2(scale(bits) as nat)
    } else {
        (2 * significand(bits) + steps_per_one(bits)) / (2 * steps_per_one(bits))
    }
}

/// Rounding to the nearest whole number gives a value equal to the one that
/// went in. An infinity rounds to itself; a NaN equals nothing, itself
/// included.
pub open spec fn unchanged_by_rounding(bits: u64) -> bool {
    is_infinite(bits) || (is_finite(bits) && (scale(bits) >= 0 || rounded_magnitude(bits)
        * steps_per_one(bits) == significand(bits)))
}

/// Rounding leaves a value unchanged just where it is a whole number or an
/// infinity, so never where it is a NaN. The whole number is then the rounded
/// one, and it holds all of the significand: nothing was cut off to reach it.
pub proof fn rounding_keeps_whole_numbers(bits: u64)
    ensures
        unchanged_by_rounding(bits) <==> is_whole(bits) || is_infinite(bits),
        is_nan(bits) ==> !unchanged_by_rounding(bits),
        is_whole(bits) ==> rounded_magnitude(bits) == whole_magnitude(bits),
        is_whole(bits) && scale(bits) < 0 ==> whole_magnitude(bits) * steps_per_one(bits)
            == significand(bits),
{
    if is_finite(bits) && scale(bits) < 0 {
        let held = significand(bits);
        let steps = steps_per_one(bits);
        lemma_pow2_pos((-scale(bits)) as nat);
        lemma_fundamental_div_mod(held, steps);
        if held % steps == 0 {
            let whole = held / steps;
            assert(2 * held + steps == whole * (2 * steps) + steps) by (nonlinear_arith)
                requires
                    held == steps * whole,
            ;
            lemma_fundamental_div_mod_converse(2 * held + steps, 2 * steps, whole, steps);
            assert(whole * steps == held) by (nonlinear_arith)
                requires
                    held == steps * whole,
            ;
        }
        if rounded_magnitude(bits) * steps == held {
            lemma_mod_multiples_basic(rounded_magnitude(bits), steps);
        }
    }
}

} // verus!
