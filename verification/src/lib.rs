//! A verified fixed-rate mortgage amortization engine.
//!
//! Given loan terms and recurring household costs, the library computes the
//! level monthly payment with the standard annuity formula and produces a
//! month-by-month schedule: the interest/principal split under the engine's
//! exact rounding rule, running totals, the remaining balance, a private
//! mortgage insurance (PMI) estimate range, region-based property tax and
//! home insurance figures, the total monthly outflow, and a minimum
//! qualifying income estimate. All amounts are scaled integers; every
//! public function's behaviour is pinned down by spec functions.

pub mod payment;
pub mod rounding;
pub mod schedule;
pub mod terms;

pub use payment::compute_monthly_payment;
pub use payment::compute_monthly_payment_with_policy;
pub use rounding::display_cents;
pub use rounding::round_half_up;
pub use schedule::generate_schedule;
pub use schedule::monthly_home_insurance_micro;
pub use schedule::monthly_property_tax_micro;
pub use schedule::pmi_high_micro;
pub use schedule::pmi_low_micro;
pub use schedule::AmortizationRow;
pub use terms::LoanTerms;
pub use terms::MortgageError;
pub use terms::RecurringCosts;
pub use terms::Region;
pub use terms::RoundingPolicy;
pub use terms::region_from_code;
