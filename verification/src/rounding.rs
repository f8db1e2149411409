//! The engine's rounding primitives.
//!
//! All monetary arithmetic in this crate is exact integer arithmetic over
//! scaled values; every division goes through one of the rounding rules in
//! this module, each of which is pinned down by a spec function.

use vstd::prelude::*;
use vstd::arithmetic::div_mod::{
    lemma_div_decreases, lemma_div_is_ordered, lemma_div_nonincreasing, lemma_div_of0,
    lemma_div_plus_one, lemma_div_pos_is_pos, lemma_fundamental_div_mod,
    lemma_fundamental_div_mod_converse, lemma_mod_division_less_than_divisor,
};

verus! {

/// The engine's rounding rule for schedule amounts: round the quotient
/// `num / den` half up to four decimal places, then take the floor.
/// As a single formula on reals this is `floor(num/den + 1/20000)`,
/// which the integer expression below computes exactly.
pub open spec fn spec_round_half_up(num: int, den: int) -> int
    recommends
        den > 0,
{
    (20000 * num + den) / (20000 * den)
}

/// Round the quotient `num / den` to the nearest integer, halves upward:
/// `floor(num/den + 1/2)`. Used when a monetary value that is an exact
/// rational is stored at a fixed scale.
pub open spec fn spec_div_half_up(num: int, den: int) -> int
    recommends
        den > 0,
{
    (2 * num + den) / (2 * den)
}

/// Micro-units (millionths of a currency unit) to hundredths, rounding
/// half away from zero: the display rule `round(x * 100) / 100` expressed
/// on the scaled integers.
pub open spec fn spec_display_cents(micro: int) -> int {
    if micro >= 0 {
        (micro + 5000) / 10000
    } else {
        -(((-micro) + 5000) / 10000)
    }
}

/// Floor division of a negative numerator, written with a non-negative
/// numerator: `(-m) / d == -((m + d - 1) / d)`.
proof fn lemma_neg_floor_div(m: int, d: int)
    requires
        m >= 1,
        d >= 1,
    ensures
        (-m) / d == -((m + d - 1) / d),
{
    let a = m / d;
    let r = m % d;
    lemma_fundamental_div_mod(m, d);
    lemma_mod_division_less_than_divisor(m, d);
    if r == 0 {
        assert(m + d - 1 == a * d + (d - 1)) by (nonlinear_arith)
            requires
                m == d * a,
        ;
        lemma_fundamental_div_mod_converse(m + d - 1, d, a, d - 1);
        assert(-m == (-a) * d + 0) by (nonlinear_arith)
            requires
                m == d * a,
        ;
        lemma_fundamental_div_mod_converse(-m, d, -a, 0);
    } else {
        assert(m + d - 1 == (a + 1) * d + (r - 1)) by (nonlinear_arith)
            requires
                m == d * a + r,
        ;
        lemma_fundamental_div_mod_converse(m + d - 1, d, a + 1, r - 1);
        assert(-m == (-(a + 1)) * d + (d - r)) by (nonlinear_arith)
            requires
                m == d * a + r,
        ;
        lemma_fundamental_div_mod_converse(-m, d, -(a + 1), d - r);
    }
}

/// Floor division on signed 128-bit integers (the built-in operator
/// truncates toward zero, which is not the quotient the specs use).
pub fn floor_div_i128(num: i128, den: i128) -> (r: i128)
    requires
        den > 0,
        num > i128::MIN,
    ensures
        r == num as int / den as int,
{
    if num >= 0 {
        let q: u128 = (num as u128) / (den as u128);
        proof {
            lemma_div_nonincreasing(num as int, den as int);
            lemma_div_pos_is_pos(num as int, den as int);
        }
        q as i128
    } else {
        let m: u128 = (-num) as u128;
        let d: u128 = den as u128;
        let q: u128 = (m + d - 1) / d;
        proof {
            lemma_neg_floor_div(m as int, d as int);
            lemma_div_pos_is_pos((m + d - 1) as int, d as int);
            // q == 1 + (m - 1) / d <= m, so the negation fits.
            lemma_div_plus_one((m - 1) as int, d as int);
            lemma_div_nonincreasing((m - 1) as int, d as int);
        }
        -(q as i128)
    }
}

/// `(c * num) / (c * den) == num / den` for any positive scale `c`.
proof fn lemma_scaled_div(num: int, den: int, c: int)
    requires
        den > 0,
        c > 0,
    ensures
        (c * num) / (c * den) == num / den,
{
    let a = num / den;
    let r = num % den;
    lemma_fundamental_div_mod(num, den);
    lemma_mod_division_less_than_divisor(num, den);
    assert(c * num == a * (c * den) + c * r) by (nonlinear_arith)
        requires
            num == den * a + r,
    ;
    assert(0 <= c * r < c * den) by (nonlinear_arith)
        requires
            0 <= r < den,
            c > 0,
    ;
    lemma_fundamental_div_mod_converse(c * num, c * den, a, c * r);
}

/// Both rounding rules land on the floor of the quotient or one above it:
/// `num/den <= (k*num + den)/(k*den) <= num/den + 1` for any `k >= 2`.
proof fn lemma_shifted_div_bounds(num: int, den: int, k: int)
    requires
        den > 0,
        k >= 2,
    ensures
        num / den <= (k * num + den) / (k * den) <= num / den + 1,
{
    lemma_scaled_div(num, den, k);
    assert(k * den > 0) by (nonlinear_arith)
        requires
            den > 0,
            k >= 2,
    ;
    lemma_div_is_ordered(k * num, k * num + den, k * den);
    assert(k * num + den <= k * (num + den)) by (nonlinear_arith)
        requires
            den > 0,
            k >= 2,
    ;
    lemma_div_is_ordered(k * num + den, k * (num + den), k * den);
    lemma_scaled_div(num + den, den, k);
    lemma_div_plus_one(num, den);
}

/// The rounding rule never moves a quotient by more than one unit.
pub proof fn lemma_round_half_up_bounds(num: int, den: int)
    requires
        den > 0,
    ensures
        num / den <= spec_round_half_up(num, den) <= num / den + 1,
{
    lemma_shifted_div_bounds(num, den, 20000);
}

/// Same bounds for half-up rounding to the nearest integer.
pub proof fn lemma_div_half_up_bounds(num: int, den: int)
    requires
        den > 0,
    ensures
        num / den <= spec_div_half_up(num, den) <= num / den + 1,
{
    lemma_shifted_div_bounds(num, den, 2);
}

/// On a value that is already an integer the rounding rule is the
/// identity: `spec_round_half_up(x, 1) == x`.
pub proof fn lemma_round_half_up_identity(x: int)
    ensures
        spec_round_half_up(x, 1) == x,
{
    lemma_fundamental_div_mod_converse(20000 * x + 1, 20000, x, 1);
}

/// The magnitude of a floor quotient never exceeds the numerator's.
proof fn lemma_div_magnitude(num: int, den: int)
    requires
        den >= 1,
    ensures
        num >= 0 ==> 0 <= num / den <= num,
        num < 0 ==> num <= num / den <= 0,
{
    if num >= 0 {
        lemma_div_nonincreasing(num, den);
        lemma_div_pos_is_pos(num, den);
    } else {
        let a = num / den;
        let r = num % den;
        lemma_fundamental_div_mod(num, den);
        lemma_mod_division_less_than_divisor(num, den);
        assert(num <= a <= 0) by (nonlinear_arith)
            requires
                num == den * a + r,
                0 <= r < den,
                num < 0,
                den >= 1,
        ;
    }
}

/// Executable form of the engine's rounding rule, on wide intermediates.
pub fn round_half_up_i128(num: i128, den: i128) -> (r: i128)
    requires
        1 <= den <= 0x1_0000_0000_0000_0000,
        -0x1000_0000_0000_0000_0000_0000_0000 <= num <= 0x1000_0000_0000_0000_0000_0000_0000,
    ensures
        r == spec_round_half_up(num as int, den as int),
        num as int / den as int <= r <= num as int / den as int + 1,
{
    proof {
        lemma_round_half_up_bounds(num as int, den as int);
    }
    floor_div_i128(20000 * num + den, 20000 * den)
}

/// Executable half-up rounding, on wide intermediates.
pub fn div_half_up_i128(num: i128, den: i128) -> (r: i128)
    requires
        1 <= den <= 0x1_0000_0000_0000_0000,
        -0x1000_0000_0000_0000_0000_0000_0000 <= num <= 0x1000_0000_0000_0000_0000_0000_0000,
    ensures
        r == spec_div_half_up(num as int, den as int),
        num as int / den as int <= r <= num as int / den as int + 1,
{
    proof {
        lemma_div_half_up_bounds(num as int, den as int);
    }
    floor_div_i128(2 * num + den, 2 * den)
}

/// The engine's rounding rule as a library entry point: round
/// `num / den` half up at the fourth decimal place, then floor.
pub fn round_half_up(num: i64, den: i64) -> (r: i64)
    requires
        den >= 1,
    ensures
        r == spec_round_half_up(num as int, den as int),
{
    proof {
        lemma_round_half_up_bounds(num as int, den as int);
        lemma_div_magnitude(num as int, den as int);
        if den == 1 {
            lemma_round_half_up_identity(num as int);
        } else if num > 0 {
            lemma_div_decreases(num as int, den as int);
        } else if num == 0 {
            lemma_div_of0(den as int);
        }
    }
    round_half_up_i128(num as i128, den as i128) as i64
}

/// Currency display rounding: micro-units to hundredths (cents), halves
/// away from zero, as the persisted table shows amounts.
pub fn display_cents(micro: i64) -> (r: i64)
    requires
        micro > i64::MIN,
    ensures
        r == spec_display_cents(micro as int),
{
    if micro >= 0 {
        let q: u64 = ((micro as u64) + 5000) / 10000;
        proof {
            lemma_div_nonincreasing((micro + 5000) as int, 10000);
            lemma_div_pos_is_pos((micro + 5000) as int, 10000);
        }
        q as i64
    } else {
        let m: u64 = (-micro) as u64;
        let q: u64 = (m + 5000) / 10000;
        proof {
            lemma_div_nonincreasing((m + 5000) as int, 10000);
            lemma_div_pos_is_pos((m + 5000) as int, 10000);
        }
        -(q as i64)
    }
}

} // verus!
