use mortgage_schedule::terms::{LoanTerms, MortgageError, RoundingPolicy};
use mortgage_schedule::{compute_monthly_payment, compute_monthly_payment_with_policy};

fn worked_terms() -> LoanTerms {
    LoanTerms {
        house_value: 300_000,
        down_payment: 30_000,
        annual_rate_ppm: 40_000,
        term_months: 12,
    }
}

#[test]
fn loan_amount_is_house_value_minus_down_payment() {
    assert_eq!(worked_terms().loan_amount(), 270_000);
}

#[test]
fn worked_example_payment() {
    // houseValue 300000, downPayment 30000, rate 4%: loan 270000, and the
    // fixed 360-month discount factor yields a floored payment of 1288.
    assert_eq!(compute_monthly_payment(&worked_terms()), Ok(1288));
}

#[test]
fn ceil_policy_rounds_up() {
    assert_eq!(
        compute_monthly_payment_with_policy(&worked_terms(), RoundingPolicy::Ceil),
        Ok(1289)
    );
}

#[test]
fn floor_policy_matches_default_entry_point() {
    assert_eq!(
        compute_monthly_payment_with_policy(&worked_terms(), RoundingPolicy::Floor),
        compute_monthly_payment(&worked_terms())
    );
}

#[test]
fn default_policy_is_floor() {
    assert_eq!(RoundingPolicy::default(), RoundingPolicy::Floor);
}

#[test]
fn payment_deterministic() {
    // Identical inputs give the identical payment across calls.
    let a = compute_monthly_payment(&worked_terms());
    let b = compute_monthly_payment(&worked_terms());
    assert_eq!(a, b);
    assert_eq!(a, Ok(1288));
}

#[test]
fn thirty_year_five_percent_loan() {
    let terms = LoanTerms {
        house_value: 100_000,
        down_payment: 0,
        annual_rate_ppm: 50_000,
        term_months: 360,
    };
    // The exact annuity value is about 536.82 per month; floored to 536.
    assert_eq!(compute_monthly_payment(&terms), Ok(536));
}

#[test]
fn zero_loan_amount_is_invalid() {
    let terms = LoanTerms {
        house_value: 200_000,
        down_payment: 200_000,
        annual_rate_ppm: 40_000,
        term_months: 360,
    };
    assert_eq!(compute_monthly_payment(&terms), Err(MortgageError::InvalidLoan));
}

#[test]
fn negative_loan_amount_is_invalid() {
    let terms = LoanTerms {
        house_value: 100_000,
        down_payment: 150_000,
        annual_rate_ppm: 40_000,
        term_months: 360,
    };
    assert_eq!(compute_monthly_payment(&terms), Err(MortgageError::InvalidLoan));
}

#[test]
fn zero_rate_is_invalid() {
    let terms = LoanTerms {
        house_value: 300_000,
        down_payment: 30_000,
        annual_rate_ppm: 0,
        term_months: 360,
    };
    assert_eq!(compute_monthly_payment(&terms), Err(MortgageError::InvalidRate));
}

#[test]
fn rate_below_resolution_is_out_of_range() {
    // A rate of five parts per million per year is below the calculator's
    // resolution of one part per million per month.
    let terms = LoanTerms {
        house_value: 300_000,
        down_payment: 30_000,
        annual_rate_ppm: 5,
        term_months: 360,
    };
    assert_eq!(compute_monthly_payment(&terms), Err(MortgageError::OutOfRange));
}

#[test]
fn invalid_loan_takes_precedence_over_invalid_rate() {
    let terms = LoanTerms {
        house_value: 100_000,
        down_payment: 100_000,
        annual_rate_ppm: 0,
        term_months: 360,
    };
    assert_eq!(compute_monthly_payment(&terms), Err(MortgageError::InvalidLoan));
}
