//! Input data for the engine: loan terms, recurring household costs, the
//! region code used for tax and insurance lookups, the payment rounding
//! policy, and the engine's error type.
//!
//! Monetary inputs are scaled integers: house value and down payment in
//! whole currency units, recurring bills in hundredths (cents), the annual
//! interest rate in parts per million (so a rate of 0.04 is 40_000).

use vstd::prelude::*;

verus! {

/// Largest house value (and down payment) the engine accepts, in whole
/// currency units. The bound keeps every intermediate of the fixed-point
/// arithmetic inside 128 bits.
pub const MAX_HOUSE_VALUE: u64 = 1_000_000_000;

/// Largest annual rate, in parts per million (1_000_000 is a rate of 1.0,
/// i.e. 100% per year).
pub const MAX_RATE_PPM: u64 = 1_000_000;

/// Largest recurring monthly bill, in cents.
pub const MAX_MONTHLY_BILL_CENTS: u64 = 10_000_000_000;

/// The terms of the loan. Immutable once constructed.
#[derive(Clone, Copy, Debug, PartialEq, Eq, Structural)]
pub struct LoanTerms {
    /// Value of the house, in whole currency units.
    pub house_value: u64,
    /// Down payment, in whole currency units.
    pub down_payment: u64,
    /// Nominal annual interest rate, in parts per million.
    pub annual_rate_ppm: u64,
    /// Term of the loan in months.
    pub term_months: u32,
}

impl LoanTerms {
    /// Range limits the fixed-point engine needs; semantic validation
    /// (positive loan amount, non-zero rate, non-zero term) is done by the
    /// engine itself and reported through `MortgageError`.
    pub open spec fn wf(&self) -> bool {
        &&& self.house_value <= MAX_HOUSE_VALUE
        &&& self.down_payment <= MAX_HOUSE_VALUE
        &&& self.annual_rate_ppm <= MAX_RATE_PPM
    }

    /// The amount borrowed: house value minus down payment. May be
    /// non-positive, in which case the engine reports `InvalidLoan`.
    pub open spec fn spec_loan_amount(&self) -> int {
        self.house_value - self.down_payment
    }

    /// Executable loan amount.
    pub fn loan_amount(&self) -> (r: i64)
        requires
            self.wf(),
        ensures
            r == self.spec_loan_amount(),
    {
        self.house_value as i64 - self.down_payment as i64
    }
}

/// Region code for the property-tax and home-insurance lookup table.
/// An unrecognized code falls back to `Other` (see `region_from_code`),
/// matching the engine's closed two-entry table.
#[derive(Clone, Copy, Debug, PartialEq, Eq, Structural)]
pub enum Region {
    /// The "N" bracket: annual home insurance 791, property tax 2.05% of
    /// the house value.
    N,
    /// Every other region: annual home insurance 1307, property tax 1.17%
    /// of the house value.
    Other,
}

/// Which region a one-character code selects: `'N'` or `'n'` selects the
/// `N` bracket; any other character falls back to `Other`.
pub open spec fn spec_region_from_code(code: char) -> Region {
    if code == 'N' || code == 'n' {
        Region::N
    } else {
        Region::Other
    }
}

/// Map a one-character region code to its bracket. Unrecognized codes
/// deliberately fall back to `Other` instead of failing.
pub fn region_from_code(code: char) -> (r: Region)
    ensures
        r == spec_region_from_code(code),
{
    if code == 'N' || code == 'n' {
        Region::N
    } else {
        Region::Other
    }
}

/// Fixed monthly household costs, in cents, plus the region code.
/// Immutable once constructed.
#[derive(Clone, Copy, Debug, PartialEq, Eq, Structural)]
pub struct RecurringCosts {
    pub utilities_cents: u64,
    pub car_insurance_cents: u64,
    pub internet_cents: u64,
    pub misc_bill_cents: u64,
    pub region: Region,
}

impl RecurringCosts {
    /// Range limits for the fixed-point arithmetic.
    pub open spec fn wf(&self) -> bool {
        &&& self.utilities_cents <= MAX_MONTHLY_BILL_CENTS
        &&& self.car_insurance_cents <= MAX_MONTHLY_BILL_CENTS
        &&& self.internet_cents <= MAX_MONTHLY_BILL_CENTS
        &&& self.misc_bill_cents <= MAX_MONTHLY_BILL_CENTS
    }
}

/// How the annuity payment is rounded to a whole currency unit.
#[derive(Clone, Copy, Debug, PartialEq, Eq, Structural)]
pub enum RoundingPolicy {
    /// Round the payment down (the default).
    Floor,
    /// Round the payment up.
    Ceil,
}

impl Default for RoundingPolicy {
    /// The default policy rounds the payment down.
    fn default() -> (r: Self)
        ensures
            r == RoundingPolicy::Floor,
    {
        RoundingPolicy::Floor
    }
}

/// The engine's failure modes. Validation happens before the first row of
/// a schedule is produced; a failing call emits nothing.
#[derive(Clone, Copy, Debug, PartialEq, Eq, Structural)]
pub enum MortgageError {
    /// The loan amount (house value minus down payment) is not positive.
    InvalidLoan,
    /// The annual rate is zero, which leaves the annuity formula undefined.
    InvalidRate,
    /// The term is zero months.
    InvalidTerm,
    /// An input or intermediate value left the range the fixed-point
    /// engine can represent: the rate is below its resolution of one part
    /// per million per month, or a balance or running total grew past the
    /// engine's caps.
    OutOfRange,
}

} // verus!
