//! Checked narrowing of a binary64 value, given by its bit pattern, to `i32`.
//!
//! A value is narrowed only where rounding it to the nearest whole number
//! leaves it unchanged, which holds of the whole numbers and of the two
//! infinities. Anything with a fractional part, and every NaN, is refused
//! with a message instead of being cut short.

use crate::binary64::{
    is_finite, is_infinite, rounding_keeps_whole_numbers, sign_negative, significand,
    unchanged_by_rounding, whole_value, EXPONENT_ONES, EXPONENT_SPAN, EXPONENT_SPECIAL,
    FRACTION_SPAN, SIGN_BIT,
};
use vstd::arithmetic::div_mod::lemma_small_mod;
use vstd::arithmetic::power2::{
    lemma2_to64_rest, lemma_pow2_pos, lemma_pow2_strictly_increases, pow2,
};
use vstd::bits::{lemma_u64_pow2_no_overflow, lemma_u64_shl_is_mul};
use vstd::prelude::*;

verus! {

/// The `i32` nearest to a value that rounding leaves unchanged: the value
/// itself where it fits, else the bound on its side.
pub open spec fn narrowed(bits: u64) -> int
    recommends
        unchanged_by_rounding(bits),
{
    if is_infinite(bits) {
        if sign_negative(bits) {
            i32::MIN as int
        } else {
            i32::MAX as int
        }
    } else if whole_value(bits) < i32::MIN {
        i32::MIN as int
    } else if whole_value(bits) > i32::MAX {
        i32::MAX as int
    } else {
        whole_value(bits)
    }
}

/// The message that comes with a refusal.
pub open spec fn refusal() -> Seq<char> {
    "hey i'm an error"@
}

/// `res` is the outcome of narrowing `bits`.
pub open spec fn narrows_to(bits: u64, res: Result<i32, String>) -> bool {
    match res {
        Ok(n) => unchanged_by_rounding(bits) && n == narrowed(bits),
        Err(why) => !unchanged_by_rounding(bits) && why@ == refusal(),
    }
}

/// Conversion from a binary64 value, handed over as its bit pattern.
pub trait FromFloat {
    /// Narrows the value with the bit pattern `bits`.
    ///
    /// A whole number within the range of `i32` comes back as that number.
    /// A whole number beyond the range, or an infinity, comes back as the
    /// bound on its side. Every other value is refused with a message.
    #[allow(non_snake_case)]
    fn fromFloat(bits: u64) -> (res: Result<i32, String>)
        ensures
            narrows_to(bits, res),
            unchanged_by_rounding(bits) && is_finite(bits) && i32::MIN <= whole_value(
                bits,
            ) <= i32::MAX ==> (res matches Ok(n) && n == whole_value(bits)),
            !unchanged_by_rounding(bits) ==> (res matches Err(why) && why@.len() > 0),
    ;
}

/// The refusal, as an owned text.
fn refuse() -> (res: Result<i32, String>)
    ensures
        res matches Err(why) && why@ == refusal() && why@.len() > 0,
{
    proof {
        reveal_strlit("hey i'm an error");
    }
    Err(String::from_str("hey i'm an error"))
}

/// The bound of `i32` on the side of the sign.
fn bound(negative: bool) -> (n: i32)
    ensures
        n == if negative {
            i32::MIN
        } else {
            i32::MAX
        },
{
    if negative {
        i32::MIN
    } else {
        i32::MAX
    }
}

/// Narrowing depends on the bit pattern alone: two outcomes of narrowing one
/// pattern are two successes with one number, or two refusals with one
/// message.
pub proof fn narrowing_is_deterministic(
    bits: u64,
    first: Result<i32, String>,
    second: Result<i32, String>,
)
    requires
        narrows_to(bits, first),
        narrows_to(bits, second),
    ensures
        first is Ok <==> second is Ok,
        first is Ok ==> first->Ok_0 == second->Ok_0,
        first is Err ==> first->Err_0@ == second->Err_0@,
{
}

impl FromFloat for i32 {
    fn fromFloat(bits: u64) -> (res: Result<i32, String>) {
        proof {
            rounding_keeps_whole_numbers(bits);
        }
        let negative = bits >= SIGN_BIT;
        let exponent = (bits / FRACTION_SPAN) % EXPONENT_SPAN;
        let fraction = bits % FRACTION_SPAN;
        if exponent == EXPONENT_SPECIAL {
            // A NaN where any fraction bit is set, else an infinity.
            if fraction != 0 {
                return refuse();
            }
            return Ok(bound(negative));
        }
        if exponent >= EXPONENT_ONES {
            // At least two to the 52nd: whole, and beyond `i32` on its side.
            proof {
                let up = (exponent - EXPONENT_ONES) as nat;
                lemma_pow2_pos(up);
                assert(significand(bits) * pow2(up) >= FRACTION_SPAN) by (nonlinear_arith)
                    requires
                        significand(bits) >= FRACTION_SPAN,
                        pow2(up) >= 1,
                ;
            }
            return Ok(bound(negative));
        }
        // From here on the scale is negative: `held / 2^down` is the size.
        let down = if exponent == 0 {
            EXPONENT_ONES - 1
        } else {
            EXPONENT_ONES - exponent
        };
        let held = if exponent == 0 {
            fraction
        } else {
            FRACTION_SPAN + fraction
        };
        if down > 52 {
            // Below one, since `held` is below two to the 53rd: whole only as zero.
            proof {
                lemma2_to64_rest();
                if down > 53 {
                    lemma_pow2_strictly_increases(53, down as nat);
                }
                lemma_small_mod(held as nat, pow2(down as nat));
            }
            if held == 0 {
                return Ok(0);
            }
            return refuse();
        }
        proof {
            lemma_u64_pow2_no_overflow(down as nat);
            lemma_u64_shl_is_mul(1, down);
        }
        let unit = 1u64 << down;
        if held % unit != 0 {
            return refuse();
        }
        let magnitude = held / unit;
        if negative {
            if magnitude > 0x8000_0000 {
                Ok(i32::MIN)
            } else {
                Ok((-(magnitude as i64)) as i32)
            }
        } else {
            if magnitude > 0x7fff_ffff {
                Ok(i32::MAX)
            } else {
                Ok(magnitude as i32)
            }
        }
    }
}

} // verus!
