//! Floating-point values by their bit patterns.
//!
//! A guest's doubles arrive as 64-bit patterns and Vulkan's fields are single
//! precision. What is decided about them — whether a value is finite, which of
//! two is the larger, what a double narrows or converts to — is decided here on
//! the patterns, as integers.

use vstd::arithmetic::power2::{
    lemma2_to64, lemma2_to64_rest, lemma_pow2_pos, lemma_pow2_strictly_increases, pow2,
};
use vstd::prelude::*;

verus! {

/// Two to the power of 63: the weight of a double's sign bit.
pub const SIGN: u64 = 0x8000_0000_0000_0000;

/// Two to the power of 52: the weight of a double's lowest exponent bit.
pub const ULP_EXPONENT: u64 = 0x10_0000_0000_0000;

/// The weight of a single's sign bit.
pub const SINGLE_SIGN: u32 = 0x8000_0000;

/// A single's positive infinity. The patterns of finite magnitudes lie below
/// it, and those of NaNs above.
pub const SINGLE_INFINITY: u32 = 0x7f80_0000;

/// A single's one.
pub const SINGLE_ONE: u32 = 0x3f80_0000;

/// Whether a double's sign bit is set.
pub open spec fn negative(bits: u64) -> bool {
    bits >= SIGN
}

/// A double's pattern without its sign.
pub open spec fn magnitude(bits: u64) -> int {
    bits as int % SIGN as int
}

/// A double's exponent field.
pub open spec fn exponent(bits: u64) -> int {
    magnitude(bits) / ULP_EXPONENT as int
}

/// A double's fraction field.
pub open spec fn fraction(bits: u64) -> int {
    magnitude(bits) % ULP_EXPONENT as int
}

/// Whether a double is not a number.
pub open spec fn is_nan(bits: u64) -> bool {
    exponent(bits) == 2047 && fraction(bits) != 0
}

/// A finite double's significand as an integer.
pub open spec fn significand(bits: u64) -> int {
    if exponent(bits) == 0 {
        fraction(bits)
    } else {
        ULP_EXPONENT + fraction(bits)
    }
}

/// The integer nearest to `value / 2^places`, and of two equally near ones the
/// even one.
pub open spec fn rounded(value: int, places: nat) -> int {
    let whole = value / pow2(places) as int;
    let rest = value % pow2(places) as int;
    if 2 * rest < pow2(places) {
        whole
    } else if 2 * rest > pow2(places) {
        whole + 1
    } else {
        whole + whole % 2
    }
}

/// The pattern of the single nearest to a double's magnitude, ties to even. A
/// magnitude past the largest finite single becomes infinity, and a NaN becomes
/// a quiet NaN with the top of its payload.
pub open spec fn narrowed_magnitude(bits: u64) -> int {
    let e = exponent(bits);
    if is_nan(bits) {
        0x7fc0_0000 + (fraction(bits) / 0x2000_0000) % 0x40_0000
    } else if e > 1150 {
        SINGLE_INFINITY as int
    } else if e >= 897 {
        (e - 897) * 0x80_0000 + rounded(significand(bits), 29)
    } else {
        rounded(significand(bits), (926 - if e == 0 {
            1
        } else {
            e
        }) as nat)
    }
}

/// The pattern of the single a double narrows to.
pub open spec fn narrowed(bits: u64) -> int {
    narrowed_magnitude(bits) + if negative(bits) {
        SINGLE_SIGN as int
    } else {
        0
    }
}

/// A finite double's magnitude with the fraction dropped.
pub open spec fn whole_part(bits: u64) -> int {
    let scale = (if exponent(bits) == 0 {
        1
    } else {
        exponent(bits)
    }) - 1075;
    if scale >= 0 {
        significand(bits) * pow2(scale as nat)
    } else {
        significand(bits) / pow2((-scale) as nat) as int
    }
}

/// What a double converts to in an unsigned 32-bit field: the integer part,
/// saturating at both ends, and zero for a NaN.
pub open spec fn saturated_u32(bits: u64) -> int {
    if is_nan(bits) || negative(bits) {
        0
    } else if exponent(bits) == 2047 || whole_part(bits) > u32::MAX {
        u32::MAX as int
    } else {
        whole_part(bits)
    }
}

/// What a double converts to in a signed 32-bit field: the integer part,
/// saturating at both ends, and zero for a NaN.
pub open spec fn saturated_i32(bits: u64) -> int {
    if is_nan(bits) {
        0
    } else if negative(bits) {
        if exponent(bits) == 2047 || -whole_part(bits) < i32::MIN {
            i32::MIN as int
        } else {
            -whole_part(bits)
        }
    } else {
        if exponent(bits) == 2047 || whole_part(bits) > i32::MAX {
            i32::MAX as int
        } else {
            whole_part(bits)
        }
    }
}

/// Whether a single is finite.
pub open spec fn single_is_finite(bits: u32) -> bool {
    bits % SINGLE_SIGN < SINGLE_INFINITY
}

/// Whether a single is not a number.
pub open spec fn single_is_nan(bits: u32) -> bool {
    bits % SINGLE_SIGN > SINGLE_INFINITY
}

/// A single's place on the number line. Both zeros stand at the same place.
pub open spec fn place(bits: u32) -> int {
    if bits >= SINGLE_SIGN {
        SINGLE_SIGN - bits
    } else {
        bits as int
    }
}

/// Whether one single is at most another. Nothing is, of a NaN.
pub open spec fn single_at_most(a: u32, b: u32) -> bool {
    !single_is_nan(a) && !single_is_nan(b) && place(a) <= place(b)
}

/// Two to the power of `places`.
pub(crate) fn power(places: u64) -> (power: u64)
    requires
        places < 64,
    ensures
        power == pow2(places as nat),
        power > 0,
{
    proof {
        vstd::bits::lemma_u64_pow2_no_overflow(places as nat);
        vstd::bits::lemma_u64_shl_is_mul(1, places);
        lemma_pow2_pos(places as nat);
    }
    1u64 << places
}

/// Divide by a power of two, rounding half to even.
fn round(value: u64, places: u64) -> (quotient: u64)
    requires
        value < 0x20_0000_0000_0000,
        1 <= places < 64,
    ensures
        quotient == rounded(value as int, places as nat),
        quotient <= value,
{
    let unit: u64 = power(places);
    proof {
        lemma_pow2_strictly_increases(0, places as nat);
        lemma2_to64();
        vstd::arithmetic::div_mod::lemma_div_is_ordered_by_denominator(
            value as int,
            2,
            unit as int,
        );
    }
    let whole: u64 = value / unit;
    let rest: u64 = value % unit;
    let left: u64 = unit - rest;
    if rest < left {
        whole
    } else if rest > left {
        proof {
            vstd::arithmetic::div_mod::lemma_mod_decreases(value as nat, unit as nat);
        }
        whole + 1
    } else {
        whole + whole % 2
    }
}

/// A value below a power of two has no integer part over it.
proof fn lemma_small_over_power(value: int, places: nat)
    requires
        0 <= value < 0x20_0000_0000_0000,
        places >= 53,
    ensures
        pow2(places) >= 0x20_0000_0000_0000,
        value / pow2(places) as int == 0,
        value % pow2(places) as int == value,
{
    lemma2_to64_rest();
    if places > 53 {
        lemma_pow2_strictly_increases(53, places);
    }
    vstd::arithmetic::div_mod::lemma_small_mod(value as nat, pow2(places));
    vstd::arithmetic::div_mod::lemma_basic_div(value, pow2(places) as int);
}

/// The single a double narrows to.
pub fn narrow(bits: u64) -> (single: u32)
    ensures
        single == narrowed(bits),
        single_is_nan(single) <==> is_nan(bits),
        (single >= SINGLE_SIGN) <==> negative(bits),
{
    let signless: u64 = bits % SIGN;
    let e: u64 = signless / ULP_EXPONENT;
    let f: u64 = signless % ULP_EXPONENT;
    let sign: u32 = if bits >= SIGN {
        SINGLE_SIGN
    } else {
        0
    };
    let close: u32 = if e == 2047 {
        if f == 0 {
            SINGLE_INFINITY
        } else {
            0x7fc0_0000 + ((f / 0x2000_0000) % 0x40_0000) as u32
        }
    } else if e > 1150 {
        SINGLE_INFINITY
    } else if e >= 897 {
        proof {
            lemma2_to64();
            lemma2_to64_rest();
        }
        let quotient: u64 = round(ULP_EXPONENT + f, 29);
        assert(quotient <= 0x100_0000);
        ((e - 897) * 0x80_0000 + quotient) as u32
    } else if e > 872 {
        proof {
            lemma2_to64();
            lemma2_to64_rest();
            lemma_pow2_strictly_increases(29, (926 - e) as nat);
        }
        let unit: Ghost<nat> = Ghost(pow2((926 - e) as nat));
        let quotient: u64 = round(ULP_EXPONENT + f, 926 - e);
        assert(quotient <= 0x80_0000) by {
            let half: nat = pow2(30);
            if 926 - e > 30 {
                lemma_pow2_strictly_increases(30, (926 - e) as nat);
            }
            vstd::arithmetic::div_mod::lemma_div_is_ordered_by_denominator(
                ULP_EXPONENT + f,
                half as int,
                unit@ as int,
            );
        }
        quotient as u32
    } else {
        proof {
            let places = (926 - if e == 0 {
                1
            } else {
                e as int
            }) as nat;
            lemma_small_over_power(significand(bits), places);
            lemma2_to64_rest();
            if places > 54 {
                lemma_pow2_strictly_increases(54, places);
            }
        }
        0
    };
    close + sign
}

/// Whether a single is finite.
pub fn is_finite_single(bits: u32) -> (finite: bool)
    ensures
        finite == single_is_finite(bits),
{
    bits % SINGLE_SIGN < SINGLE_INFINITY
}

/// Whether one single is at most another.
pub fn at_most(a: u32, b: u32) -> (ordered: bool)
    ensures
        ordered == single_at_most(a, b),
{
    let comparable = a % SINGLE_SIGN <= SINGLE_INFINITY && b % SINGLE_SIGN <= SINGLE_INFINITY;
    let a_place: i64 = if a >= SINGLE_SIGN {
        SINGLE_SIGN as i64 - a as i64
    } else {
        a as i64
    };
    let b_place: i64 = if b >= SINGLE_SIGN {
        SINGLE_SIGN as i64 - b as i64
    } else {
        b as i64
    };
    comparable && a_place <= b_place
}

/// The integer part of a magnitude below two to the power of `limit`, or none
/// where it is not below.
fn whole(bits: u64, limit: u64) -> (part: Option<u64>)
    requires
        exponent(bits) < 2047,
        1 <= limit <= 52,
    ensures
        match part {
            Some(value) => value == whole_part(bits) && value < pow2(limit as nat),
            None => whole_part(bits) >= pow2(limit as nat),
        },
{
    let signless: u64 = bits % SIGN;
    let e: u64 = signless / ULP_EXPONENT;
    let f: u64 = signless % ULP_EXPONENT;
    proof {
        lemma2_to64();
        lemma2_to64_rest();
    }
    if e < 1023 {
        proof {
            let places = (1075 - if e == 0 {
                1
            } else {
                e as int
            }) as nat;
            lemma_small_over_power(significand(bits), places);
            lemma_pow2_pos(limit as nat);
        }
        Some(0)
    } else if e >= 1023 + limit {
        proof {
            lemma_large(bits, limit as nat);
        }
        None
    } else {
        let places: u64 = 1075 - e;
        let unit: u64 = power(places);
        let value: u64 = (ULP_EXPONENT + f) / unit;
        proof {
            // The significand is below 2^53, and 53 - places <= limit.
            vstd::arithmetic::power2::lemma_pow2_adds(places as nat, (53 - places) as nat);
            assert(pow2(53) == 0x20_0000_0000_0000);
            vstd::arithmetic::div_mod::lemma_multiply_divide_lt(
                ULP_EXPONENT + f,
                unit as int,
                pow2((53 - places) as nat) as int,
            );
            if 53 - places < limit {
                lemma_pow2_strictly_increases((53 - places) as nat, limit as nat);
            }
        }
        Some(value)
    }
}

/// An exponent at or past the limit means a magnitude at or past the power.
proof fn lemma_large(bits: u64, limit: nat)
    requires
        1 <= limit <= 52,
        1023 + limit <= exponent(bits) < 2047,
    ensures
        whole_part(bits) >= pow2(limit),
{
    lemma2_to64();
    lemma2_to64_rest();
    let e = exponent(bits);
    let s = significand(bits);
    if e >= 1075 {
        lemma_pow2_pos((e - 1075) as nat);
        assert(s * pow2((e - 1075) as nat) >= s) by (nonlinear_arith)
            requires
                s >= 0,
                pow2((e - 1075) as nat) >= 1,
        ;
        if limit < 52 {
            lemma_pow2_strictly_increases(limit, 52);
        }
    } else {
        let places = (1075 - e) as nat;
        lemma_pow2_pos(places);
        vstd::arithmetic::power2::lemma_pow2_adds(places, (52 - places) as nat);
        assert(pow2(52) == ULP_EXPONENT);
        // s >= 2^52 = 2^places * 2^(52 - places), so s / 2^places >= 2^(52 - places).
        vstd::arithmetic::div_mod::lemma_div_is_ordered(
            ULP_EXPONENT as int,
            s,
            pow2(places) as int,
        );
        vstd::arithmetic::div_mod::lemma_div_multiples_vanish(
            pow2((52 - places) as nat) as int,
            pow2(places) as int,
        );
        assert(ULP_EXPONENT as int == pow2(places) as int * pow2((52 - places) as nat) as int);
        if limit < 52 - places {
            lemma_pow2_strictly_increases(limit, (52 - places) as nat);
        }
    }
}

/// What a double converts to in an unsigned 32-bit field.
pub fn to_u32(bits: u64) -> (value: u32)
    ensures
        value == saturated_u32(bits),
{
    let signless: u64 = bits % SIGN;
    let e: u64 = signless / ULP_EXPONENT;
    let f: u64 = signless % ULP_EXPONENT;
    proof {
        lemma2_to64();
    }
    if e == 2047 {
        if f != 0 || bits >= SIGN {
            0
        } else {
            u32::MAX
        }
    } else if bits >= SIGN {
        0
    } else {
        match whole(bits, 32) {
            Some(value) => value as u32,
            None => u32::MAX,
        }
    }
}

/// What a double converts to in a signed 32-bit field.
pub fn to_i32(bits: u64) -> (value: i32)
    ensures
        value == saturated_i32(bits),
{
    let signless: u64 = bits % SIGN;
    let e: u64 = signless / ULP_EXPONENT;
    let f: u64 = signless % ULP_EXPONENT;
    proof {
        lemma2_to64();
    }
    if e == 2047 {
        if f != 0 {
            0
        } else if bits >= SIGN {
            i32::MIN
        } else {
            i32::MAX
        }
    } else {
        match whole(bits, 31) {
            Some(value) => if bits >= SIGN {
                -(value as i32)
            } else {
                value as i32
            },
            None => if bits >= SIGN {
                i32::MIN
            } else {
                i32::MAX
            },
        }
    }
}

/// Whether `whole` is the integer nearest to a value over a power of two, the
/// even one of two that are as near.
pub open spec fn is_nearest(whole: int, value: int, places: nat) -> bool {
    let unit = pow2(places) as int;
    let off = 2 * (value - whole * unit);
    &&& -unit <= off <= unit
    &&& off == unit || off == -unit ==> whole % 2 == 0
}

/// Rounding gives the nearest integer, and the even one of two.
pub proof fn law_rounding_is_to_the_nearest(value: int, places: nat)
    requires
        0 <= value,
    ensures
        is_nearest(rounded(value, places), value, places),
{
    lemma_pow2_pos(places);
    let unit = pow2(places) as int;
    let whole = value / unit;
    let rest = value % unit;
    vstd::arithmetic::div_mod::lemma_fundamental_div_mod(value, unit);
    assert(value == whole * unit + rest) by {
        assert(unit * whole == whole * unit) by (nonlinear_arith);
    }
    assert((whole + 1) * unit == whole * unit + unit) by (nonlinear_arith);
    assert(0 <= rest < unit) by {
        vstd::arithmetic::div_mod::lemma_mod_bound(value, unit);
    }
    if rounded(value, places) == whole + 1 {
        assert(rounded(value, places) * unit == whole * unit + unit);
    } else {
        assert(rounded(value, places) == whole);
    }
}

/// A pattern is its sign, its exponent and its fraction, each in its own place.
pub proof fn law_a_pattern_is_its_parts(bits: u64)
    ensures
        bits == (if negative(bits) {
            SIGN as int
        } else {
            0
        }) + exponent(bits) * 0x10_0000_0000_0000 + fraction(bits),
        0 <= exponent(bits) <= 2047,
        0 <= fraction(bits) < 0x10_0000_0000_0000,
{
}

/// Narrowing keeps the sign and rounds the value to the nearest single, to an
/// infinity where every single is too small, and a value that is no number to
/// one that is none.
pub proof fn law_narrowing_is_to_the_nearest_single(bits: u64, single: u32)
    requires
        call_ensures(narrow, (bits,), single),
    ensures
        single >= SINGLE_SIGN <==> bits >= SIGN,
        single_is_nan(single) <==> is_nan(bits),
        ({
            let e = exponent(bits);
            let size = single as int % 0x8000_0000;
            let sig = if e == 0 {
                fraction(bits)
            } else {
                0x10_0000_0000_0000 + fraction(bits)
            };
            &&& 897 <= e <= 1150 ==> is_nearest(size - (e - 897) * 0x80_0000, sig, 29)
            &&& 1 <= e < 897 ==> is_nearest(size, sig, (926 - e) as nat)
            &&& e == 0 ==> is_nearest(size, sig, 925)
            &&& e > 1150 && !is_nan(bits) ==> size == SINGLE_INFINITY
        }),
{
    let e = exponent(bits);
    law_rounding_is_to_the_nearest(significand(bits), 29);
    if e < 897 {
        law_rounding_is_to_the_nearest(
            significand(bits),
            (926 - if e == 0 {
                1
            } else {
                e
            }) as nat,
        );
    }
    assert(single as int == narrowed_magnitude(bits) + if negative(bits) {
        SINGLE_SIGN as int
    } else {
        0
    });
    assert(narrowed_magnitude(bits) >= 0) by {
        if !is_nan(bits) && e <= 1150 {
            if e >= 897 {
                lemma_rounded_is_positive(significand(bits), 29);
            } else {
                lemma_rounded_is_positive(
                    significand(bits),
                    (926 - if e == 0 {
                        1
                    } else {
                        e
                    }) as nat,
                );
            }
        }
    }
}

pub(crate) proof fn lemma_rounded_is_positive(value: int, places: nat)
    requires
        0 <= value,
    ensures
        rounded(value, places) >= 0,
{
    lemma_pow2_pos(places);
    vstd::arithmetic::div_mod::lemma_div_pos_is_pos(value, pow2(places) as int);
}

/// Converting to an integer drops what is past the point, and stops at the
/// integers there are: a whole part is as many units as the value has, and a
/// value beyond the largest or the smallest becomes that. A value that is no
/// number becomes zero, and so does a negative one where there is no sign.
pub proof fn law_converting_drops_the_fraction(bits: u64, unsigned: u32, signed: i32)
    requires
        call_ensures(to_u32, (bits,), unsigned),
        call_ensures(to_i32, (bits,), signed),
    ensures
        is_nan(bits) ==> unsigned == 0 && signed == 0,
        negative(bits) ==> unsigned == 0 && signed <= 0,
        !negative(bits) ==> signed >= 0,
        exponent(bits) == 2047 && !is_nan(bits) ==> (negative(bits) ==> signed == i32::MIN) && (
        !negative(bits) ==> signed == i32::MAX && unsigned == u32::MAX),
        exponent(bits) < 2047 ==> {
            let part = whole_part(bits);
            &&& !negative(bits) ==> unsigned == if part > u32::MAX {
                u32::MAX as int
            } else {
                part
            }
            &&& !negative(bits) ==> signed == if part > i32::MAX {
                i32::MAX as int
            } else {
                part
            }
            &&& negative(bits) ==> signed == if -part < i32::MIN {
                i32::MIN as int
            } else {
                -part
            }
        },
        ({
            let e = exponent(bits);
            let part = whole_part(bits);
            &&& e < 1023 ==> part == 0
            &&& 1023 <= e < 1075 ==> {
                let unit = pow2((1075 - e) as nat) as int;
                let sig = 0x10_0000_0000_0000 + fraction(bits);
                part * unit <= sig < part * unit + unit
            }
            &&& e >= 1075 ==> part == (0x10_0000_0000_0000 + fraction(bits)) * pow2(
                (e - 1075) as nat,
            )
        }),
{
    let e = exponent(bits);
    let sig = significand(bits);
    let down = (1075 - if e == 0 {
        1
    } else {
        e
    }) as nat;
    lemma_pow2_pos(down);
    if e < 1075 {
        let unit = pow2(down) as int;
        vstd::arithmetic::div_mod::lemma_fundamental_div_mod(sig, unit);
        vstd::arithmetic::div_mod::lemma_mod_bound(sig, unit);
        assert(unit * (sig / unit) == (sig / unit) * unit) by (nonlinear_arith);
        if e < 1023 {
            lemma_small_over_power(sig, down);
        }
    }
    if !is_nan(bits) && e < 2047 {
        assert(whole_part(bits) >= 0) by {
            if e < 1075 {
                vstd::arithmetic::div_mod::lemma_div_pos_is_pos(sig, pow2(down) as int);
            } else {
                lemma_pow2_pos((e - 1075) as nat);
                assert(sig * pow2((e - 1075) as nat) >= 0) by (nonlinear_arith)
                    requires
                        sig >= 0,
                        pow2((e - 1075) as nat) > 0,
                ;
            }
        }
    }
}

/// Singles are ordered as numbers are: by their patterns among those without a
/// sign, the other way among those with one, and those with a sign below those
/// without. The two zeros are equal, and what is no number has no place.
pub proof fn law_singles_are_ordered_as_numbers(a: u32, b: u32, ordered: bool)
    requires
        call_ensures(at_most, (a, b), ordered),
    ensures
        single_is_nan(a) || single_is_nan(b) ==> !ordered,
        !single_is_nan(a) && !single_is_nan(b) ==> {
            &&& a < SINGLE_SIGN && b < SINGLE_SIGN ==> (ordered <==> a <= b)
            &&& a >= SINGLE_SIGN && b >= SINGLE_SIGN ==> (ordered <==> a >= b)
            &&& a >= SINGLE_SIGN && b < SINGLE_SIGN ==> ordered
            &&& a < SINGLE_SIGN && b >= SINGLE_SIGN ==> (ordered <==> a == 0 && b == SINGLE_SIGN)
        },
{
}

} // verus!
