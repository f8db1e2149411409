//! The payment calculator: the level monthly payment of the standard
//! amortization annuity formula, computed in fixed-point integer
//! arithmetic.
//!
//! The annuity discount factor uses a fixed 360-month (30-year) exponent
//! regardless of the actual loan term; that decoupling is a deliberate,
//! named design constant of the engine (`DISCOUNT_EXPONENT_MONTHS`), not
//! derived from the caller's term. The monthly rate is represented in
//! whole parts per million (the annual rate divided by twelve, rounded
//! down); the compounding runs at a scale of a billion.

use vstd::prelude::*;
use vstd::arithmetic::div_mod::{lemma_div_is_ordered, lemma_div_multiples_vanish};
use vstd::arithmetic::mul::{
    lemma_mul_inequality, lemma_mul_is_commutative, lemma_mul_upper_bound,
};
use crate::terms::{LoanTerms, MortgageError, RoundingPolicy};

verus! {

/// Fixed-point scale of the compounding loop: one unit is a billionth.
pub const RATE_SCALE: u128 = 1_000_000_000;

/// Extra scale applied to the per-unit payment fraction before the final
/// division, so that its rounding cannot disturb the whole-unit payment.
pub const PAYMENT_FRACTION_SCALE: u128 = 1_000_000;

/// The fixed exponent of the discount factor: 360 months. The engine
/// evaluates the formula with this constant even when the loan's own term
/// differs; loan terms other than thirty years therefore get an internally
/// inconsistent discount factor, by design.
pub const DISCOUNT_EXPONENT_MONTHS: u32 = 360;

/// Cap on the compounded factor. A factor at this cap corresponds to a
/// monthly rate far beyond the representable 100% annual rate, so the cap
/// is never reached for meaningful inputs; it exists to bound the
/// arithmetic.
pub const POW_CAP: u128 = 10_000_000_000_000_000_000_000;

/// Cap on the scaled per-unit payment fraction.
pub const Q_CAP: u128 = 1_000_000_000_000_000;

/// The monthly rate at the compounding scale: the annual rate in parts
/// per million, divided by twelve and truncated to a whole part per
/// million, then widened to the scale of a billion.
pub open spec fn spec_monthly_rate_scaled(rate_ppm: int) -> int {
    (rate_ppm / 12) * 1000
}

/// The compounded factor after `k` months: `RATE_SCALE` times
/// `(1 + monthly rate)^k`, with the product floored back to the scale
/// after each step.
pub open spec fn spec_pow_acc(rm: int, k: nat) -> int
    decreases k,
{
    if k == 0 {
        RATE_SCALE as int
    } else {
        spec_pow_acc(rm, (k - 1) as nat) * (RATE_SCALE as int + rm) / (RATE_SCALE as int)
    }
}

/// Every intermediate compounded factor up to month `n` stays under the
/// cap.
pub open spec fn spec_pow_in_cap(rm: int, n: nat) -> bool {
    forall|k: nat| 1 <= k <= n ==> spec_pow_acc(rm, k) <= POW_CAP as int
}

/// The scaled payment per borrowed unit: with `p` the compounded factor,
/// the reciprocal discount factor `rm * p / (p - RATE_SCALE)`, widened by
/// `PAYMENT_FRACTION_SCALE`.
pub open spec fn spec_discount_q(rm: int) -> int {
    let p = spec_pow_acc(rm, DISCOUNT_EXPONENT_MONTHS as nat);
    rm * p * (PAYMENT_FRACTION_SCALE as int) / (p - RATE_SCALE as int)
}

/// The level monthly payment in whole currency units: the loan amount
/// times the per-unit fraction, rounded down or up by policy.
pub open spec fn spec_monthly_payment(loan: int, rate_ppm: int, policy: RoundingPolicy) -> int {
    let q = spec_discount_q(spec_monthly_rate_scaled(rate_ppm));
    let den = (RATE_SCALE * PAYMENT_FRACTION_SCALE) as int;
    match policy {
        RoundingPolicy::Floor => loan * q / den,
        RoundingPolicy::Ceil => (loan * q + den - 1) / den,
    }
}

/// When the calculator succeeds: a positive loan amount, a rate that is
/// positive and at least the resolution of one part per million per month,
/// and fixed-point intermediates inside their caps.
pub open spec fn spec_payment_ok(terms: LoanTerms) -> bool {
    let rm = spec_monthly_rate_scaled(terms.annual_rate_ppm as int);
    &&& terms.spec_loan_amount() > 0
    &&& terms.annual_rate_ppm > 0
    &&& rm >= 1000
    &&& spec_pow_in_cap(rm, DISCOUNT_EXPONENT_MONTHS as nat)
    &&& spec_discount_q(rm) <= Q_CAP as int
}

/// Which error the calculator reports, in order of precedence.
pub open spec fn spec_payment_error(terms: LoanTerms) -> MortgageError {
    if terms.spec_loan_amount() <= 0 {
        MortgageError::InvalidLoan
    } else if terms.annual_rate_ppm == 0 {
        MortgageError::InvalidRate
    } else {
        MortgageError::OutOfRange
    }
}

/// Compound the monthly rate over the fixed 360-month exponent, reporting
/// `None` if any intermediate leaves the cap.
fn discount_pow(rm: u64) -> (r: Option<u128>)
    requires
        1000 <= rm <= 83_333_000,
    ensures
        match r {
            Some(p) => {
                &&& spec_pow_in_cap(rm as int, DISCOUNT_EXPONENT_MONTHS as nat)
                &&& p == spec_pow_acc(rm as int, DISCOUNT_EXPONENT_MONTHS as nat)
                &&& RATE_SCALE + 1000 <= p <= POW_CAP
            },
            None => !spec_pow_in_cap(rm as int, DISCOUNT_EXPONENT_MONTHS as nat),
        },
{
    let base: u128 = RATE_SCALE + rm as u128;
    let mut acc: u128 = RATE_SCALE;
    let mut k: u32 = 0;
    while k < DISCOUNT_EXPONENT_MONTHS
        invariant
            1000 <= rm <= 83_333_000,
            base == RATE_SCALE + rm,
            k <= DISCOUNT_EXPONENT_MONTHS,
            acc == spec_pow_acc(rm as int, k as nat),
            RATE_SCALE <= acc <= POW_CAP,
            k >= 1 ==> acc >= RATE_SCALE + 1000,
            forall|j: nat| 1 <= j <= k ==> spec_pow_acc(rm as int, j) <= POW_CAP as int,
        decreases DISCOUNT_EXPONENT_MONTHS - k,
    {
        proof {
            lemma_mul_upper_bound(acc as int, POW_CAP as int, base as int, RATE_SCALE as int
                + 83_333_000);
        }
        let prod: u128 = acc * base;
        let next: u128 = prod / RATE_SCALE;
        proof {
            assert(spec_pow_acc(rm as int, (k + 1) as nat) == spec_pow_acc(rm as int, k as nat)
                * (RATE_SCALE as int + rm) / (RATE_SCALE as int));
            // `next` never shrinks: acc * base >= acc * RATE_SCALE, so the
            // floored quotient is at least acc.
            lemma_mul_inequality(RATE_SCALE as int, base as int, acc as int);
            lemma_mul_is_commutative(RATE_SCALE as int, acc as int);
            lemma_mul_is_commutative(acc as int, base as int);
            lemma_div_is_ordered((RATE_SCALE as int) * (acc as int), (acc as int) * (base as int),
                RATE_SCALE as int);
            lemma_div_multiples_vanish(acc as int, RATE_SCALE as int);
            assert(next >= acc);
        }
        if next > POW_CAP {
            proof {
                assert(spec_pow_acc(rm as int, (k + 1) as nat) > POW_CAP as int);
                assert(!spec_pow_in_cap(rm as int, DISCOUNT_EXPONENT_MONTHS as nat));
            }
            return None;
        }
        acc = next;
        k = k + 1;
    }
    Some(acc)
}

/// The monthly payment under an explicit rounding policy.
///
/// Succeeds exactly when `spec_payment_ok` holds, and then returns
/// `spec_monthly_payment` of the loan amount and rate. Fails with
/// `InvalidLoan` when the loan amount is not positive, with `InvalidRate`
/// when the rate is zero, and with `OutOfRange` when the rate or an
/// intermediate leaves the representable range.
pub fn compute_monthly_payment_with_policy(terms: &LoanTerms, policy: RoundingPolicy) -> (r:
    Result<u64, MortgageError>)
    requires
        terms.wf(),
    ensures
        match r {
            Ok(p) => spec_payment_ok(*terms) && p == spec_monthly_payment(
                terms.spec_loan_amount(), terms.annual_rate_ppm as int, policy)
                && p <= 1_000_000_000,
            Err(e) => !spec_payment_ok(*terms) && e == spec_payment_error(*terms),
        },
{
    if terms.down_payment >= terms.house_value {
        return Err(MortgageError::InvalidLoan);
    }
    let loan: u64 = terms.house_value - terms.down_payment;
    if terms.annual_rate_ppm == 0 {
        return Err(MortgageError::InvalidRate);
    }
    let rm: u64 = (terms.annual_rate_ppm / 12) * 1000;
    if rm == 0 {
        return Err(MortgageError::OutOfRange);
    }
    let p: u128 = match discount_pow(rm) {
        Some(p) => p,
        None => {
            return Err(MortgageError::OutOfRange);
        },
    };
    let denom: u128 = p - RATE_SCALE;
    proof {
        lemma_mul_upper_bound(rm as int, 83_333_000, p as int, POW_CAP as int);
    }
    let num1: u128 = (rm as u128) * p;
    let num2: u128 = num1 * PAYMENT_FRACTION_SCALE;
    let q: u128 = num2 / denom;
    if q > Q_CAP {
        return Err(MortgageError::OutOfRange);
    }
    proof {
        lemma_mul_upper_bound(loan as int, 1_000_000_000, q as int, Q_CAP as int);
    }
    let pay_num: u128 = (loan as u128) * q;
    let pden: u128 = RATE_SCALE * PAYMENT_FRACTION_SCALE;
    let pay: u128 = match policy {
        RoundingPolicy::Floor => pay_num / pden,
        RoundingPolicy::Ceil => (pay_num + pden - 1) / pden,
    };
    proof {
        lemma_div_is_ordered(pay_num as int, 1_000_000_000_000_000_000_000_000, pden as int);
        lemma_div_is_ordered((pay_num + pden - 1) as int,
            1_000_000_000_000_000_000_000_000 + pden - 1, pden as int);
    }
    Ok(pay as u64)
}

/// The monthly payment under the default policy, rounding down.
pub fn compute_monthly_payment(terms: &LoanTerms) -> (r: Result<u64, MortgageError>)
    requires
        terms.wf(),
    ensures
        match r {
            Ok(p) => spec_payment_ok(*terms) && p == spec_monthly_payment(
                terms.spec_loan_amount(), terms.annual_rate_ppm as int, RoundingPolicy::Floor)
                && p <= 1_000_000_000,
            Err(e) => !spec_payment_ok(*terms) && e == spec_payment_error(*terms),
        },
{
    compute_monthly_payment_with_policy(terms, RoundingPolicy::Floor)
}

/// Law: the payment calculator is deterministic. Two calls on identical
/// loan inputs are specified to return the identical payment, for either
/// rounding policy, and succeed or fail together.
pub proof fn lemma_payment_deterministic(a: LoanTerms, b: LoanTerms, policy: RoundingPolicy)
    requires
        a.house_value == b.house_value,
        a.down_payment == b.down_payment,
        a.annual_rate_ppm == b.annual_rate_ppm,
    ensures
        spec_monthly_payment(a.spec_loan_amount(), a.annual_rate_ppm as int, policy)
            == spec_monthly_payment(b.spec_loan_amount(), b.annual_rate_ppm as int, policy),
        spec_payment_ok(a) <==> spec_payment_ok(b),
{
}

} // verus!
