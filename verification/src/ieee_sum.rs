//! Adding two doubles by their bit patterns.
//!
//! Every finite double is a whole number of the smallest subnormal, so a sum is
//! exact as an integer and then rounded once, to nearest with ties to even.

use crate::ieee::{
    exponent, fraction, is_nan, is_nearest, law_rounding_is_to_the_nearest, negative, power, rounded,
    significand, SIGN, ULP_EXPONENT,
};
use vstd::arithmetic::power2::{
    lemma2_to64, lemma2_to64_rest, lemma_pow2_adds, lemma_pow2_pos, lemma_pow2_strictly_increases,
    lemma_pow2_unfold, pow2,
};
use vstd::prelude::*;

verus! {

/// The pattern of a double's infinity, without a sign.
pub const INFINITY: u64 = 0x7ff0_0000_0000_0000;

/// The bit that makes a NaN quiet.
pub const QUIET: u64 = 0x8_0000_0000_0000;

/// How many places a double's significand stands above the smallest subnormal.
pub open spec fn scale(bits: u64) -> nat {
    (if exponent(bits) == 0 {
        0
    } else {
        exponent(bits) - 1
    }) as nat
}

/// A finite double as a whole number of the smallest subnormal.
pub open spec fn units(bits: u64) -> int {
    let size = significand(bits) * pow2(scale(bits));
    if negative(bits) {
        -size
    } else {
        size
    }
}

/// How many low bits a number has beyond the 53 a significand holds.
pub open spec fn excess(value: nat) -> nat
    decreases value,
{
    if value < 0x20_0000_0000_0000 {
        0
    } else {
        1 + excess(value / 2)
    }
}

/// The pattern of the double nearest to a whole number of the smallest
/// subnormal, ties to even; past the largest finite double it is infinity.
pub open spec fn encoded(value: nat) -> int {
    let places = excess(value);
    let pattern = places * ULP_EXPONENT + rounded(value as int, places);
    if pattern > INFINITY {
        INFINITY as int
    } else {
        pattern
    }
}

/// Whether a double is an infinity.
pub open spec fn is_infinite(bits: u64) -> bool {
    exponent(bits) == 2047 && fraction(bits) == 0
}

/// The pattern of the sum of two doubles that are numbers. Opposite infinities
/// have none; a sum of nothing is negative only where both sides are.
pub open spec fn summed(a: u64, b: u64) -> int {
    if is_infinite(a) {
        a as int
    } else if is_infinite(b) {
        b as int
    } else {
        let exact = units(a) + units(b);
        if exact == 0 {
            if negative(a) && negative(b) {
                SIGN as int
            } else {
                0
            }
        } else if exact < 0 {
            SIGN + encoded((-exact) as nat)
        } else {
            encoded(exact as nat)
        }
    }
}

/// A NaN with its quiet bit set.
pub open spec fn quiet(bits: u64) -> int {
    if bits % ULP_EXPONENT >= QUIET {
        bits as int
    } else {
        bits + QUIET
    }
}

/// The pattern of the sum of any two doubles. A NaN operand comes back quiet,
/// and opposite infinities give the quiet NaN with no payload.
pub open spec fn sum_pattern(a: u64, b: u64) -> int {
    if is_nan(a) {
        quiet(a)
    } else if is_nan(b) {
        quiet(b)
    } else if !has_sum(a, b) {
        INFINITY + QUIET
    } else {
        summed(a, b)
    }
}

/// Whether the sum of two doubles is a number.
pub open spec fn has_sum(a: u64, b: u64) -> bool {
    !is_nan(a) && !is_nan(b) && !(is_infinite(a) && is_infinite(b) && negative(a) != negative(b))
}

/// A number between consecutive powers of two has as many excess bits as the
/// power says.
proof fn lemma_excess(value: nat, places: nat)
    requires
        0x10_0000_0000_0000 * pow2(places) <= value < 0x20_0000_0000_0000 * pow2(places),
    ensures
        excess(value) == places,
    decreases places,
{
    lemma2_to64();
    if places > 0 {
        lemma_pow2_unfold(places);
        lemma_pow2_pos((places - 1) as nat);
        assert(value >= 0x20_0000_0000_0000);
        lemma_excess(value / 2, (places - 1) as nat);
    }
}

/// Scaling a number and the unit it is rounded to leaves the rounding.
proof fn lemma_rounded_scales(value: nat, places: nat, by: nat)
    ensures
        rounded((value * pow2(by)) as int, places + by) == rounded(value as int, places),
{
    lemma_pow2_adds(places, by);
    lemma_pow2_pos(places);
    lemma_pow2_pos(by);
    let unit = pow2(places) as int;
    let factor = pow2(by) as int;
    let whole = value as int / unit;
    let rest = value as int % unit;
    vstd::arithmetic::div_mod::lemma_fundamental_div_mod(value as int, unit);
    assert(value * factor == (unit * factor) * whole + rest * factor) by (nonlinear_arith)
        requires
            value == unit * whole + rest,
    ;
    assert(0 <= rest * factor < unit * factor) by (nonlinear_arith)
        requires
            0 <= rest < unit,
            factor > 0,
    ;
    vstd::arithmetic::div_mod::lemma_fundamental_div_mod_converse(
        value * factor,
        unit * factor,
        whole,
        rest * factor,
    );
    assert(2 * (rest * factor) < unit * factor <==> 2 * rest < unit) by (nonlinear_arith)
        requires
            factor > 0,
    ;
    assert(2 * (rest * factor) > unit * factor <==> 2 * rest > unit) by (nonlinear_arith)
        requires
            factor > 0,
    ;
}

/// A number whose quotient and rest are known rounds by the rest alone.
proof fn lemma_rounded_by(value: int, places: nat, whole: int, rest: int)
    requires
        value == whole * pow2(places) + rest,
        0 <= rest < pow2(places),
    ensures
        rounded(value, places) == if 2 * rest < pow2(places) {
            whole
        } else if 2 * rest > pow2(places) {
            whole + 1
        } else {
            whole + whole % 2
        },
{
    lemma_pow2_pos(places);
    assert(value == pow2(places) as int * whole + rest) by (nonlinear_arith)
        requires
            value == whole * pow2(places) + rest,
    ;
    vstd::arithmetic::div_mod::lemma_fundamental_div_mod_converse(
        value,
        pow2(places) as int,
        whole,
        rest,
    );
}

/// A finite double's own pattern encodes its units.
proof fn lemma_encodes_itself(bits: u64)
    requires
        exponent(bits) < 2047,
    ensures
        encoded((significand(bits) * pow2(scale(bits))) as nat) == bits as int % SIGN as int,
        bits as int % SIGN as int == scale(bits) * ULP_EXPONENT + significand(bits),
{
    lemma2_to64();
    let s = scale(bits);
    let m = significand(bits);
    lemma_pow2_pos(s);
    if exponent(bits) != 0 {
        let n = (m * pow2(s)) as nat;
        assert(0x10_0000_0000_0000 * pow2(s) <= n < 0x20_0000_0000_0000 * pow2(s))
            by (nonlinear_arith)
            requires
                n == m * pow2(s),
                0x10_0000_0000_0000 <= m < 0x20_0000_0000_0000,
                pow2(s) > 0,
        ;
        lemma_excess(n, s);
        lemma_rounded_by(n as int, s, m, 0);
    } else {
        assert(m * 1 == m);
        lemma_rounded_by(m, 0, m, 0);
    }
}

/// Adding or taking away less than a thousandth of a significand's last place
/// rounds back to the significand.
proof fn lemma_absorbed(m: nat, s: nat, t: nat, value: nat)
    requires
        0x10_0000_0000_0000 <= m < 0x20_0000_0000_0000,
        s >= 11,
        t < pow2((s - 11) as nat),
        value == m * pow2(s) + t || value == m * pow2(s) - t,
        s * ULP_EXPONENT + m <= INFINITY,
    ensures
        encoded(value) == s * ULP_EXPONENT + m,
{
    lemma2_to64();
    lemma_pow2_adds((s - 11) as nat, 11);
    lemma_pow2_adds((s - 1) as nat, 1);
    lemma_pow2_pos((s - 11) as nat);
    let unit = pow2(s) as int;
    assert(2048 * t < unit);
    if value == m * pow2(s) + t {
        assert(0x10_0000_0000_0000 * unit <= value < 0x20_0000_0000_0000 * unit)
            by (nonlinear_arith)
            requires
                value == m * unit + t,
                0x10_0000_0000_0000 <= m < 0x20_0000_0000_0000,
                0 <= t < unit,
        ;
        lemma_excess(value, s);
        lemma_rounded_by(value as int, s, m as int, t as int);
    } else if t == 0 {
    } else if m > 0x10_0000_0000_0000 {
        assert(0x10_0000_0000_0000 * unit <= value < 0x20_0000_0000_0000 * unit && value == (m - 1)
            * unit + (unit - t)) by (nonlinear_arith)
            requires
                value == m * unit - t,
                0x10_0000_0000_0000 < m < 0x20_0000_0000_0000,
                0 < t < unit,
        ;
        lemma_excess(value, s);
        lemma_rounded_by(value as int, s, m - 1, unit - t);
    } else {
        let half = pow2((s - 1) as nat) as int;
        assert(unit == 2 * half);
        assert(0x10_0000_0000_0000 * half <= value < 0x20_0000_0000_0000 * half && value
            == 0x1f_ffff_ffff_ffff * half + (half - t)) by (nonlinear_arith)
            requires
                value == m * unit - t,
                m == 0x10_0000_0000_0000,
                unit == 2 * half,
                0 < 2048 * t < unit,
        ;
        lemma_excess(value, (s - 1) as nat);
        lemma_rounded_by(value as int, (s - 1) as nat, 0x1f_ffff_ffff_ffff, half - t);
    }
}

/// The pattern of `value` smallest subnormals scaled by `2^places`.
fn encode(value: u128, places: u64) -> (pattern: u64)
    requires
        0 < value < 0x100_0000_0000_0000_0000_0000_0000_0000,
        places < 2048,
    ensures
        pattern == encoded((value * pow2(places as nat)) as nat),
        pattern <= INFINITY,
{
    let ghost n: nat = (value * pow2(places as nat)) as nat;
    let mut m: u128 = value;
    let mut s: u64 = places;
    proof {
        lemma2_to64();
        lemma2_to64_rest();
    }
    while m < 0x10_0000_0000_0000 && s > 0
        invariant
            0 < m < 0x100_0000_0000_0000_0000_0000_0000_0000,
            s < 2048,
            n == m * pow2(s as nat),
        decreases s,
    {
        proof {
            lemma_pow2_unfold(s as nat);
            assert(m * pow2(s as nat) == (2 * m) * pow2((s - 1) as nat)) by (nonlinear_arith)
                requires
                    pow2(s as nat) == 2 * pow2((s - 1) as nat),
            ;
        }
        m = m * 2;
        s = s - 1;
    }
    if m < 0x20_0000_0000_0000 {
        proof {
            lemma_pow2_pos(s as nat);
            if m < 0x10_0000_0000_0000 {
                assert(m * 1 == m);
                lemma_rounded_by(n as int, 0, m as int, 0);
            } else {
                assert(0x10_0000_0000_0000 * pow2(s as nat) <= n < 0x20_0000_0000_0000 * pow2(
                    s as nat,
                )) by (nonlinear_arith)
                    requires
                        n == m * pow2(s as nat),
                        0x10_0000_0000_0000 <= m < 0x20_0000_0000_0000,
                        pow2(s as nat) > 0,
                ;
                lemma_excess(n, s as nat);
                lemma_rounded_by(n as int, s as nat, m as int, 0);
            }
        }
        return capped(s, m as u64);
    }
    // Halve until the significand fits, to learn how many places to drop.
    let mut k: u64 = 0;
    let mut top: u128 = m;
    let mut unit: u128 = 1;
    proof {
        assert(m * 1 == m);
    }
    while top >= 0x20_0000_0000_0000
        invariant
            m < 0x100_0000_0000_0000_0000_0000_0000_0000,
            k < 128,
            unit == pow2(k as nat),
            0 < unit,
            top * unit <= m < (top + 1) * unit,
            top >= 0x10_0000_0000_0000,
        decreases top,
    {
        proof {
            lemma_pow2_unfold((k + 1) as nat);
            assert(unit < 0x10_0000_0000_0000_0000) by (nonlinear_arith)
                requires
                    top * unit <= m,
                    top >= 0x20_0000_0000_0000,
                    m < 0x100_0000_0000_0000_0000_0000_0000_0000,
            ;
            let half = top as int / 2;
            let odd = top as int % 2;
            assert(half * (2 * unit) <= m < (half + 1) * (2 * unit)) by (nonlinear_arith)
                requires
                    top * unit <= m < (top + 1) * unit,
                    top == 2 * half + odd,
                    0 <= odd < 2,
                    unit > 0,
            ;
            if k >= 75 {
                lemma2_to64();
                lemma_pow2_adds(64, 11);
                assert(pow2(75) == 0x1_0000_0000_0000_0000 * 2048);
                if k > 75 {
                    lemma_pow2_strictly_increases(75, k as nat);
                }
            }
        }
        top = top / 2;
        unit = unit * 2;
        k = k + 1;
    }
    let rest: u128 = m % unit;
    let whole: u128 = m / unit;
    let left: u128 = unit - rest;
    proof {
        assert((top + 1) * unit == top * unit + unit) by (nonlinear_arith);
        vstd::arithmetic::div_mod::lemma_fundamental_div_mod_converse(
            m as int,
            unit as int,
            top as int,
            m - top * unit,
        );
        assert(0x10_0000_0000_0000 * pow2(k as nat) <= m < 0x20_0000_0000_0000 * pow2(k as nat))
            by (nonlinear_arith)
            requires
                top * unit <= m < (top + 1) * unit,
                0x10_0000_0000_0000 <= top < 0x20_0000_0000_0000,
                unit == pow2(k as nat),
        ;
        lemma_pow2_adds(k as nat, s as nat);
        lemma_pow2_pos(s as nat);
        let both = pow2((k + s) as nat);
        assert(0x10_0000_0000_0000 * both <= n < 0x20_0000_0000_0000 * both) by (nonlinear_arith)
            requires
                0x10_0000_0000_0000 * pow2(k as nat) <= m < 0x20_0000_0000_0000 * pow2(k as nat),
                n == m * pow2(s as nat),
                both == pow2(k as nat) * pow2(s as nat),
                pow2(s as nat) > 0,
        ;
        lemma_excess(n, (k + s) as nat);
        lemma_rounded_scales(m as nat, k as nat, s as nat);
    }
    let quotient: u64 = if rest < left {
        whole as u64
    } else if rest > left {
        whole as u64 + 1
    } else {
        whole as u64 + whole as u64 % 2
    };
    capped(s + k, quotient)
}

/// The pattern of a significand so many places up, or infinity.
fn capped(places: u64, significand: u64) -> (pattern: u64)
    requires
        places < 4096,
        significand <= 0x20_0000_0000_0000,
    ensures
        pattern == if places * ULP_EXPONENT + significand > INFINITY {
            INFINITY as int
        } else {
            places * ULP_EXPONENT + significand
        },
{
    if places >= 2047 {
        INFINITY
    } else {
        let pattern: u64 = places * ULP_EXPONENT + significand;
        if pattern > INFINITY {
            INFINITY
        } else {
            pattern
        }
    }
}

/// A double absorbs another that is sixty-four places or more below it.
proof fn lemma_far(a: u64, b: u64)
    requires
        exponent(a) < 2047,
        exponent(b) < 2047,
        scale(a) > scale(b) + 63,
    ensures
        summed(a, b) == a,
{
    lemma2_to64();
    lemma2_to64_rest();
    lemma_encodes_itself(a);
    let s = scale(a);
    let low = scale(b);
    let m = significand(a);
    lemma_pow2_pos(s);
    lemma_pow2_pos(low);
    let size = (m * pow2(s)) as nat;
    let t = (significand(b) * pow2(low)) as nat;
    // t < 2^53 * 2^(s - 64) = 2^(s - 11).
    lemma_pow2_adds(53, low);
    if s - low > 64 {
        lemma_pow2_strictly_increases((53 + low) as nat, (s - 11) as nat);
    }
    assert(t < pow2(53) * pow2(low)) by (nonlinear_arith)
        requires
            t == significand(b) * pow2(low),
            significand(b) < pow2(53),
            pow2(low) > 0,
    ;
    lemma_pow2_strictly_increases((s - 11) as nat, s);
    assert(size > t) by (nonlinear_arith)
        requires
            size == m * pow2(s),
            m >= 1,
            t < pow2((s - 11) as nat),
            pow2((s - 11) as nat) <= pow2(s),
    ;
    lemma_absorbed(
        m as nat,
        s,
        t,
        if negative(a) == negative(b) {
            size + t
        } else {
            (size - t) as nat
        },
    );
}

/// Two doubles in the smaller one's place, and what their sum is there.
proof fn lemma_near(a: u64, b: u64, wide: int, thin: int)
    requires
        exponent(a) < 2047,
        exponent(b) < 2047,
        scale(a) >= scale(b),
        wide == significand(a) * pow2((scale(a) - scale(b)) as nat),
        thin == significand(b),
    ensures
        ({
            let p = pow2(scale(b)) as int;
            let exact = units(a) + units(b);
            &&& wide >= 0
            &&& thin >= 0
            &&& negative(a) && negative(b) ==> -exact == (wide + thin) * p
            &&& !negative(a) && !negative(b) ==> exact == (wide + thin) * p
            &&& !negative(a) && negative(b) ==> exact == (wide - thin) * p && -exact == (thin
                - wide) * p
            &&& negative(a) && !negative(b) ==> -exact == (wide - thin) * p && exact == (thin
                - wide) * p
            &&& wide + thin > 0 ==> (wide + thin) * p > 0
            &&& wide > thin ==> (wide - thin) * p > 0
            &&& thin > wide ==> (thin - wide) * p > 0
        }),
{
    let p = pow2(scale(b)) as int;
    let apart = (scale(a) - scale(b)) as nat;
    lemma_pow2_pos(scale(b));
    lemma_pow2_pos(apart);
    lemma_pow2_adds(apart, scale(b));
    assert(significand(a) * pow2(scale(a)) == wide * p) by (nonlinear_arith)
        requires
            wide == significand(a) * pow2(apart),
            pow2(scale(a)) == pow2(apart) * p,
    ;
    assert(wide >= 0) by (nonlinear_arith)
        requires
            wide == significand(a) * pow2(apart),
            significand(a) >= 0,
            pow2(apart) > 0,
    ;
    assert((wide + thin) * p == wide * p + thin * p) by (nonlinear_arith);
    assert((wide - thin) * p == wide * p - thin * p) by (nonlinear_arith);
    assert((thin - wide) * p == thin * p - wide * p) by (nonlinear_arith);
    assert(wide + thin > 0 ==> (wide + thin) * p > 0) by (nonlinear_arith)
        requires
            p > 0,
    ;
    assert(wide > thin ==> (wide - thin) * p > 0) by (nonlinear_arith)
        requires
            p > 0,
    ;
    assert(thin > wide ==> (thin - wide) * p > 0) by (nonlinear_arith)
        requires
            p > 0,
    ;
}

/// A double's scale and significand.
fn parts(bits: u64) -> (parts: (u64, u64))
    requires
        exponent(bits) < 2047,
    ensures
        parts.0 == scale(bits),
        parts.0 < 2046,
        parts.1 == significand(bits),
        parts.1 < 0x20_0000_0000_0000,
{
    let signless: u64 = bits % SIGN;
    let e: u64 = signless / ULP_EXPONENT;
    let f: u64 = signless % ULP_EXPONENT;
    if e == 0 {
        (0, f)
    } else {
        (e - 1, ULP_EXPONENT + f)
    }
}

/// The sum of two finite doubles, the first at least as far up as the second.
fn plus_ordered(a: u64, b: u64) -> (sum: u64)
    requires
        exponent(a) < 2047,
        exponent(b) < 2047,
        scale(a) >= scale(b),
    ensures
        sum == summed(a, b),
        sum % SIGN <= INFINITY,
{
    let (a_scale, a_significand): (u64, u64) = parts(a);
    let (b_scale, b_significand): (u64, u64) = parts(b);
    let apart: u64 = a_scale - b_scale;
    if apart > 63 {
        proof {
            lemma_far(a, b);
        }
        return a;
    }
    let factor: u64 = power(apart);
    proof {
        assert(a_significand * factor < 0x20_0000_0000_0000_0000_0000_0000_0000)
            by (nonlinear_arith)
            requires
                a_significand < 0x20_0000_0000_0000,
                factor <= 0xffff_ffff_ffff_ffff,
        ;
    }
    let wide: u128 = a_significand as u128 * factor as u128;
    let thin: u128 = b_significand as u128;
    proof {
        lemma_near(a, b, wide as int, thin as int);
    }
    add_aligned(a, b, wide, thin, b_scale)
}

/// The sum of two finite doubles standing in the same place.
fn add_aligned(a: u64, b: u64, wide: u128, thin: u128, places: u64) -> (sum: u64)
    requires
        exponent(a) < 2047,
        exponent(b) < 2047,
        wide < 0x20_0000_0000_0000_0000_0000_0000_0000,
        thin < 0x20_0000_0000_0000,
        places < 2048,
        ({
            let p = pow2(places as nat) as int;
            let exact = units(a) + units(b);
            &&& negative(a) && negative(b) ==> -exact == (wide + thin) * p
            &&& !negative(a) && !negative(b) ==> exact == (wide + thin) * p
            &&& !negative(a) && negative(b) ==> exact == (wide - thin) * p && -exact == (thin
                - wide) * p
            &&& negative(a) && !negative(b) ==> -exact == (wide - thin) * p && exact == (thin
                - wide) * p
            &&& wide + thin > 0 ==> (wide + thin) * p > 0
            &&& wide > thin ==> (wide - thin) * p > 0
            &&& thin > wide ==> (thin - wide) * p > 0
        }),
    ensures
        sum == summed(a, b),
        sum % SIGN <= INFINITY,
{
    let a_sign: u64 = if a >= SIGN {
        SIGN
    } else {
        0
    };
    let b_sign: u64 = if b >= SIGN {
        SIGN
    } else {
        0
    };
    if a_sign == b_sign {
        if wide == 0 && thin == 0 {
            assert(0 * pow2(places as nat) == 0);
            a_sign
        } else {
            encode(wide + thin, places) + a_sign
        }
    } else if wide == thin {
        assert(0 * pow2(places as nat) == 0);
        0
    } else if wide > thin {
        encode(wide - thin, places) + a_sign
    } else {
        encode(thin - wide, places) + b_sign
    }
}

/// The sum of two doubles, as a pattern.
pub fn plus(a: u64, b: u64) -> (sum: u64)
    ensures
        sum == sum_pattern(a, b),
        is_nan(sum) <==> !has_sum(a, b),
{
    let a_signless: u64 = a % SIGN;
    let b_signless: u64 = b % SIGN;
    if a_signless > INFINITY {
        return quieted(a);
    }
    if b_signless > INFINITY {
        return quieted(b);
    }
    if a_signless == INFINITY {
        if b_signless == INFINITY && (a >= SIGN) != (b >= SIGN) {
            return INFINITY + QUIET;
        }
        return a;
    }
    if b_signless == INFINITY {
        return b;
    }
    if a_signless / ULP_EXPONENT >= b_signless / ULP_EXPONENT {
        plus_ordered(a, b)
    } else {
        plus_ordered(b, a)
    }
}

/// A NaN with its quiet bit set.
fn quieted(bits: u64) -> (pattern: u64)
    requires
        is_nan(bits),
    ensures
        pattern == quiet(bits),
        is_nan(pattern),
{
    if bits % ULP_EXPONENT >= QUIET {
        bits
    } else {
        bits + QUIET
    }
}

/// A pattern with its sign turned.
pub open spec fn negated(bits: u64) -> u64 {
    if bits >= SIGN {
        (bits - SIGN) as u64
    } else {
        (bits + SIGN) as u64
    }
}

/// Adding does not depend on the order: both sums are the same pattern, or
/// neither is a number.
pub proof fn law_sums_commute(a: u64, b: u64, of_a_and_b: u64, of_b_and_a: u64)
    requires
        call_ensures(plus, (a, b), of_a_and_b),
        call_ensures(plus, (b, a), of_b_and_a),
    ensures
        is_nan(of_a_and_b) <==> is_nan(of_b_and_a),
        !is_nan(of_a_and_b) ==> of_a_and_b == of_b_and_a,
{
}

/// Adding zero to a number gives it back, adding its opposite gives zero, and a
/// sum is no number exactly where a term is none or the terms are opposite
/// infinities.
pub proof fn law_zero_and_opposites_add_up(a: u64, with_zero: u64, with_opposite: u64)
    requires
        !is_nan(a),
        call_ensures(plus, (a, 0), with_zero),
        call_ensures(plus, (a, negated(a)), with_opposite),
    ensures
        a % SIGN != 0 ==> with_zero == a,
        exponent(a) < 2047 ==> with_opposite == 0,
        exponent(a) == 2047 ==> is_nan(with_opposite),
{
    assert(units(0) == 0) by {
        assert(0 * pow2(scale(0)) == 0);
    }
    assert(exponent(negated(a)) == exponent(a) && fraction(negated(a)) == fraction(a));
    if exponent(a) < 2047 {
        lemma_encodes_itself(a);
        let size = significand(a) * pow2(scale(a));
        assert(units(negated(a)) == -units(a));
        if a % SIGN != 0 {
            assert(significand(a) > 0);
            vstd::arithmetic::power2::lemma_pow2_pos(scale(a));
            assert(size > 0) by (nonlinear_arith)
                requires
                    significand(a) > 0,
                    pow2(scale(a)) > 0,
                    size == significand(a) * pow2(scale(a)),
            ;
        }
    }
}

/// The sum of two numbers is their exact sum rounded once: it is what any two
/// other numbers with the same exact sum add up to, and it turns its sign where
/// both of them do.
pub proof fn law_a_sum_depends_on_the_exact_sum_alone(
    a: u64,
    b: u64,
    c: u64,
    d: u64,
    first: u64,
    second: u64,
    turned: u64,
)
    requires
        exponent(a) < 2047,
        exponent(b) < 2047,
        exponent(c) < 2047,
        exponent(d) < 2047,
        units(a) + units(b) == units(c) + units(d),
        units(a) + units(b) != 0,
        call_ensures(plus, (a, b), first),
        call_ensures(plus, (c, d), second),
        call_ensures(plus, (negated(a), negated(b)), turned),
    ensures
        first == second,
        turned == negated(first),
        first >= SIGN <==> units(a) + units(b) < 0,
{
    lemma_negated(a);
    lemma_negated(b);
    lemma_summed_exactly(a, b);
    lemma_summed_exactly(c, d);
    lemma_summed_exactly(negated(a), negated(b));
}

proof fn lemma_negated(bits: u64)
    requires
        exponent(bits) < 2047,
    ensures
        exponent(negated(bits)) == exponent(bits),
        units(negated(bits)) == -units(bits),
{
    assert(exponent(negated(bits)) == exponent(bits) && fraction(negated(bits)) == fraction(bits));
}

proof fn lemma_summed_exactly(a: u64, b: u64)
    requires
        exponent(a) < 2047,
        exponent(b) < 2047,
        units(a) + units(b) != 0,
    ensures
        ({
            let exact = units(a) + units(b);
            let size = encoded((if exact < 0 {
                -exact
            } else {
                exact
            }) as nat);
            &&& 0 <= size <= INFINITY
            &&& sum_pattern(a, b) == if exact < 0 {
                SIGN + size
            } else {
                size
            }
        }),
{
    let exact = units(a) + units(b);
    let size = (if exact < 0 {
        -exact
    } else {
        exact
    }) as nat;
    crate::ieee::lemma_rounded_is_positive(size as int, excess(size));
    assert(excess(size) * ULP_EXPONENT >= 0);
}

/// A sum of two numbers is the double nearest to their exact sum, the even one
/// of two, or an infinity where the exact sum is past every double: the low bits
/// a significand has no room for are rounded away, and no others.
pub proof fn law_a_sum_is_to_the_nearest_double(a: u64, b: u64, sum: u64)
    requires
        exponent(a) < 2047,
        exponent(b) < 2047,
        units(a) + units(b) != 0,
        call_ensures(plus, (a, b), sum),
    ensures
        ({
            let exact = units(a) + units(b);
            let value = if exact < 0 {
                -exact
            } else {
                exact
            };
            let places = excess(value as nat);
            let size = sum as int % 0x8000_0000_0000_0000;
            &&& value < 0x20_0000_0000_0000 * pow2(places)
            &&& places > 0 ==> 0x10_0000_0000_0000 * pow2(places) <= value
            &&& size == INFINITY || is_nearest(size - places * 0x10_0000_0000_0000, value, places)
        }),
{
    let exact = units(a) + units(b);
    let value = (if exact < 0 {
        -exact
    } else {
        exact
    }) as nat;
    lemma_summed_exactly(a, b);
    lemma_excess_is_least(value);
    law_rounding_is_to_the_nearest(value as int, excess(value));
}

proof fn lemma_excess_is_least(value: nat)
    ensures
        value < 0x20_0000_0000_0000 * pow2(excess(value)),
        excess(value) > 0 ==> 0x10_0000_0000_0000 * pow2(excess(value)) <= value,
    decreases value,
{
    if value < 0x20_0000_0000_0000 {
        lemma2_to64();
    } else {
        lemma_excess_is_least(value / 2);
        let less = excess(value / 2);
        lemma_pow2_unfold(less + 1);
        if less == 0 {
            lemma2_to64();
        }
    }
}

} // verus!
