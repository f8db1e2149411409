use mortgage_schedule::generate_schedule;
use mortgage_schedule::terms::{LoanTerms, MortgageError, RecurringCosts, Region};

fn worked_terms(term_months: u32) -> LoanTerms {
    LoanTerms {
        house_value: 300_000,
        down_payment: 30_000,
        annual_rate_ppm: 40_000,
        term_months,
    }
}

fn no_bills(region: Region) -> RecurringCosts {
    RecurringCosts {
        utilities_cents: 0,
        car_insurance_cents: 0,
        internet_cents: 0,
        misc_bill_cents: 0,
        region,
    }
}

#[test]
fn worked_example_month_one() {
    // Worked example: loan 270000 at 4% for 12 months, region N.
    let rows = generate_schedule(&worked_terms(12), &no_bills(Region::N)).unwrap();
    let r = &rows[0];
    assert_eq!(r.month, 1);
    assert_eq!(r.payment, 1288);
    assert_eq!(r.interest, 900);
    assert_eq!(r.principal, 388);
    assert_eq!(r.balance, 269_612);
    assert_eq!(r.total_principal, 388);
    assert_eq!(r.total_interest, 900);
    // PMI applies: loan 270000 > 0.8 * 300000. high 562.5, low 49.5.
    assert_eq!(r.pmi_high_micro, 562_500_000);
    assert_eq!(r.pmi_low_micro, 49_500_000);
    // Region N lookups: tax 512.5, insurance 791/12.
    assert_eq!(r.property_tax_micro, 512_500_000);
    assert_eq!(r.home_insurance_micro, 65_916_667);
    // payment + PMI midpoint (306) + tax + insurance = 2172.416666...
    assert_eq!(r.month_total_micro, 2_172_416_667);
    // ((900 + 388 + 306 + 512.5 + 65.91666...) / 0.282) * 12
    assert_eq!(r.minimum_income_micro, 92_443_262_411);
    assert_eq!(r.totals, None);
    assert_eq!(r.utilities_cents, 0);
}

#[test]
fn emits_exactly_term_months_rows_with_sequential_months() {
    let rows = generate_schedule(&worked_terms(12), &no_bills(Region::N)).unwrap();
    assert_eq!(rows.len(), 12);
    for (i, row) in rows.iter().enumerate() {
        assert_eq!(row.month as usize, i + 1);
    }
}

#[test]
fn generator_is_idempotent() {
    // Two runs on identical inputs produce identical row sequences.
    let a = generate_schedule(&worked_terms(24), &no_bills(Region::N)).unwrap();
    let b = generate_schedule(&worked_terms(24), &no_bills(Region::N)).unwrap();
    assert_eq!(a, b);
}

#[test]
fn pmi_range_tracks_threshold() {
    // Over a full 360-month run, the PMI range is non-zero exactly while
    // cumulative principal stays below 22% of the house value.
    let terms = worked_terms(360);
    let rows = generate_schedule(&terms, &no_bills(Region::N)).unwrap();
    let hv: i64 = 300_000;
    for row in &rows {
        let below = 50 * row.total_principal < 11 * hv;
        assert_eq!(row.pmi_high_micro != 0, below);
        assert_eq!(row.pmi_low_micro != 0, below);
        if below {
            assert_eq!(row.pmi_high_micro, 562_500_000);
            assert_eq!(row.pmi_low_micro, 49_500_000);
        }
    }
    // The threshold (22% of 300000 = 66000) is crossed in month 135.
    assert_ne!(rows[133].pmi_high_micro, 0);
    assert_eq!(rows[134].pmi_high_micro, 0);
    assert_eq!(rows[134].total_principal, 66_101);
}

#[test]
fn pmi_zero_when_loan_to_value_is_low() {
    // Down payment of 30% keeps the loan-to-value ratio at 70%: PMI never
    // applies, from the first row on.
    let terms = LoanTerms {
        house_value: 100_000,
        down_payment: 30_000,
        annual_rate_ppm: 50_000,
        term_months: 24,
    };
    let rows = generate_schedule(&terms, &no_bills(Region::Other)).unwrap();
    for row in &rows {
        assert_eq!(row.pmi_high_micro, 0);
        assert_eq!(row.pmi_low_micro, 0);
    }
}

#[test]
fn principal_is_conserved_and_balance_nearly_cleared() {
    // Over the full 360-month term the cumulative principal approaches the
    // loan amount; the engine's rounding leaves a small residual balance,
    // and principal plus balance always equals the loan exactly.
    let rows = generate_schedule(&worked_terms(360), &no_bills(Region::N)).unwrap();
    for row in &rows {
        assert_eq!(row.total_principal + row.balance, 270_000);
    }
    let last = rows.last().unwrap();
    assert_eq!(last.month, 360);
    assert_eq!(last.total_principal, 269_645);
    assert_eq!(last.balance, 355);
    // The residual stays within one currency unit per scheduled month.
    assert!(last.balance.abs() <= 360);
}

#[test]
fn second_scenario_with_bills_and_fallback_region() {
    // Loan 70000 at 5% over 24 months, unrecognized region (falls back to
    // the "other" bracket), bills of 150, 120, 80 and 50 per month.
    let terms = LoanTerms {
        house_value: 100_000,
        down_payment: 30_000,
        annual_rate_ppm: 50_000,
        term_months: 24,
    };
    let costs = RecurringCosts {
        utilities_cents: 15_000,
        car_insurance_cents: 12_000,
        internet_cents: 8_000,
        misc_bill_cents: 5_000,
        region: mortgage_schedule::region_from_code('X'),
    };
    let rows = generate_schedule(&terms, &costs).unwrap();
    assert_eq!(rows.len(), 24);
    let first = &rows[0];
    assert_eq!(first.payment, 375);
    assert_eq!(first.interest, 291);
    assert_eq!(first.principal, 84);
    assert_eq!(first.balance, 69_916);
    assert_eq!(first.property_tax_micro, 97_500_000);
    assert_eq!(first.home_insurance_micro, 108_916_667);
    assert_eq!(first.month_total_micro, 981_416_667);
    assert_eq!(first.minimum_income_micro, 24_741_134_752);
    assert_eq!(first.utilities_cents, 15_000);
    assert_eq!(first.car_insurance_cents, 12_000);
    assert_eq!(first.internet_cents, 8_000);
    assert_eq!(first.misc_bill_cents, 5_000);
    let last = &rows[23];
    assert_eq!(last.month, 24);
    assert_eq!(last.interest, 283);
    assert_eq!(last.principal, 92);
    assert_eq!(last.total_principal, 2_111);
    assert_eq!(last.total_interest, 6_889);
    assert_eq!(last.balance, 67_889);
}

#[test]
fn zero_term_is_invalid() {
    let rows = generate_schedule(&worked_terms(0), &no_bills(Region::N));
    assert_eq!(rows, Err(MortgageError::InvalidTerm));
}

#[test]
fn zero_term_takes_precedence_over_bad_loan() {
    let terms = LoanTerms {
        house_value: 100_000,
        down_payment: 150_000,
        annual_rate_ppm: 40_000,
        term_months: 0,
    };
    assert_eq!(
        generate_schedule(&terms, &no_bills(Region::N)),
        Err(MortgageError::InvalidTerm)
    );
}

#[test]
fn generator_rejects_bad_loan_and_rate() {
    let bad_loan = LoanTerms {
        house_value: 100_000,
        down_payment: 100_000,
        annual_rate_ppm: 40_000,
        term_months: 12,
    };
    assert_eq!(
        generate_schedule(&bad_loan, &no_bills(Region::N)),
        Err(MortgageError::InvalidLoan)
    );
    let bad_rate = LoanTerms {
        house_value: 100_000,
        down_payment: 50_000,
        annual_rate_ppm: 0,
        term_months: 12,
    };
    assert_eq!(
        generate_schedule(&bad_rate, &no_bills(Region::N)),
        Err(MortgageError::InvalidRate)
    );
}

#[test]
fn totals_column_stays_empty() {
    let rows = generate_schedule(&worked_terms(12), &no_bills(Region::N)).unwrap();
    assert!(rows.iter().all(|row| row.totals.is_none()));
}
