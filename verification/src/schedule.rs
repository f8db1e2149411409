//! The amortization schedule generator: one row per month, produced by a
//! pure state machine over (balance, cumulative principal, cumulative
//! interest), plus the per-month cost model (PMI threshold logic,
//! region-based property tax and home insurance, total monthly outflow,
//! and a minimum qualifying income estimate).
//!
//! Monetary row values derived from exact rationals (PMI range, tax,
//! insurance, totals) are stored in micro-units (millionths of a currency
//! unit), rounded half up; the loop state itself is in whole currency
//! units, as the engine's rounding rule leaves it.

use vstd::prelude::*;
use crate::payment::{
    compute_monthly_payment, spec_monthly_payment, spec_payment_error, spec_payment_ok,
};
use crate::rounding::{
    div_half_up_i128, lemma_round_half_up_identity, round_half_up_i128, spec_div_half_up,
    spec_round_half_up,
};
use crate::terms::{
    LoanTerms, MortgageError, RecurringCosts, Region, RoundingPolicy, MAX_HOUSE_VALUE,
};

verus! {

/// Cap on the magnitude of the remaining balance, in whole currency
/// units. A balance can only grow past the initial loan amount through
/// sustained negative amortization, so the cap is three orders of
/// magnitude above the largest loan; the generator reports `OutOfRange`
/// rather than exceed it.
pub const BALANCE_CAP: i64 = 1_000_000_000_000;

/// Cap on the magnitude of the running totals, in whole currency units.
pub const TOTAL_CAP: i64 = 1_000_000_000_000_000;

/// The loop state the generator threads from month to month.
pub ghost struct LoanState {
    /// Remaining balance, in whole currency units.
    pub balance: int,
    /// Principal paid so far.
    pub total_principal: int,
    /// Interest paid so far.
    pub total_interest: int,
}

/// The interest charged for one month on `balance` at `rate_ppm` parts
/// per million per year: `balance * rate / 12`, under the engine's
/// rounding rule.
pub open spec fn spec_monthly_interest(balance: int, rate_ppm: int) -> int {
    spec_round_half_up(balance * rate_ppm, 12_000_000)
}

/// One month of the amortization state machine: charge interest on the
/// opening balance, put the rest of the payment toward principal, update
/// the running totals, and reduce the balance.
pub open spec fn spec_step(s: LoanState, rate_ppm: int, payment: int) -> LoanState {
    let interest = spec_monthly_interest(s.balance, rate_ppm);
    let principal = spec_round_half_up(payment - interest, 1);
    LoanState {
        balance: spec_round_half_up(s.balance - principal, 1),
        total_principal: s.total_principal + principal,
        total_interest: s.total_interest + interest,
    }
}

/// The state after `month` months; month 0 is the opening state.
pub open spec fn spec_state(loan: int, rate_ppm: int, payment: int, month: nat) -> LoanState
    decreases month,
{
    if month == 0 {
        LoanState { balance: loan, total_principal: 0, total_interest: 0 }
    } else {
        spec_step(spec_state(loan, rate_ppm, payment, (month - 1) as nat), rate_ppm, payment)
    }
}

/// PMI was enabled at origination: the loan-to-value ratio exceeds 80%,
/// i.e. `loan > 0.8 * house_value`, written over integers.
pub open spec fn spec_pmi_enabled(loan: int, house_value: int) -> bool {
    5 * loan > 4 * house_value
}

/// PMI applies in a given month: enabled at origination, and cumulative
/// principal paid is still below 22% of the house value.
pub open spec fn spec_pmi_applies(loan: int, house_value: int, total_principal: int) -> bool {
    spec_pmi_enabled(loan, house_value) && 50 * total_principal < 11 * house_value
}

/// High end of the PMI range, in micro-units: `0.025 * loan / 12`.
pub open spec fn spec_pmi_high_micro(loan: int) -> int {
    spec_div_half_up(25_000 * loan, 12)
}

/// Low end of the PMI range, in micro-units: `0.0022 * loan / 12`.
pub open spec fn spec_pmi_low_micro(loan: int) -> int {
    spec_div_half_up(2_200 * loan, 12)
}

/// Monthly property tax in micro-units: 2.05% of the house value per year
/// in the `N` bracket, 1.17% otherwise, divided by twelve.
pub open spec fn spec_property_tax_micro(region: Region, house_value: int) -> int {
    match region {
        Region::N => spec_div_half_up(20_500 * house_value, 12),
        Region::Other => spec_div_half_up(11_700 * house_value, 12),
    }
}

/// Monthly home insurance in micro-units: 791 per year in the `N`
/// bracket, 1307 otherwise, divided by twelve.
pub open spec fn spec_home_insurance_micro(region: Region) -> int {
    match region {
        Region::N => spec_div_half_up(791_000_000, 12),
        Region::Other => spec_div_half_up(1_307_000_000, 12),
    }
}

/// Monthly property tax as a numerator over 120000 currency units, the
/// common denominator under which the per-month cost terms (payment,
/// bills, PMI average, tax, insurance) are all exact rationals.
pub open spec fn spec_property_tax_num(region: Region, house_value: int) -> int {
    match region {
        Region::N => 205 * house_value,
        Region::Other => 117 * house_value,
    }
}

/// Monthly home insurance as a numerator over 120000 currency units.
pub open spec fn spec_home_insurance_num(region: Region) -> int {
    match region {
        Region::N => 7_910_000,
        Region::Other => 13_070_000,
    }
}

/// The midpoint of the PMI range as a numerator over 120000 currency
/// units: `(high + low) / 2 == 136 * loan / 120_000` exactly, or zero
/// when PMI does not apply this month.
pub open spec fn spec_pmi_average_num(loan: int, applies: bool) -> int {
    if applies {
        136 * loan
    } else {
        0
    }
}

/// One emitted row, as mathematical integers.
pub ghost struct RowModel {
    /// Month index, 1-based and sequential.
    pub month: int,
    /// The scheduled (level) monthly payment, in whole currency units.
    pub payment: int,
    /// Interest portion of the payment this month.
    pub interest: int,
    /// Principal portion of the payment this month.
    pub principal: int,
    /// Low end of the PMI range, micro-units; zero when PMI is off.
    pub pmi_low_micro: int,
    /// High end of the PMI range, micro-units; zero when PMI is off.
    pub pmi_high_micro: int,
    /// Monthly property tax, micro-units.
    pub property_tax_micro: int,
    /// Monthly home insurance, micro-units.
    pub home_insurance_micro: int,
    /// The four recurring bills, in cents, echoed into each row.
    pub utilities_cents: int,
    pub car_insurance_cents: int,
    pub misc_bill_cents: int,
    pub internet_cents: int,
    /// Reserved column of the persisted table; carried but never filled.
    pub totals: Option<int>,
    /// Remaining balance after this month's principal.
    pub balance: int,
    /// Principal paid so far, inclusive of this month.
    pub total_principal: int,
    /// Interest paid so far, inclusive of this month.
    pub total_interest: int,
    /// Total monthly outflow, micro-units: payment, bills, PMI midpoint,
    /// tax, insurance.
    pub month_total_micro: int,
    /// Minimum qualifying annual income, micro-units: housing costs are
    /// assumed not to exceed 28.2% of gross income.
    pub minimum_income_micro: int,
}

/// The row the generator emits for `month` (1-based).
pub open spec fn spec_row(terms: LoanTerms, costs: RecurringCosts, payment: int, month: nat)
    -> RowModel
    recommends
        month >= 1,
{
    let loan = terms.spec_loan_amount();
    let hv = terms.house_value as int;
    let rate = terms.annual_rate_ppm as int;
    let prev = spec_state(loan, rate, payment, (month - 1) as nat);
    let cur = spec_state(loan, rate, payment, month);
    let interest = spec_monthly_interest(prev.balance, rate);
    let principal = spec_round_half_up(payment - interest, 1);
    let applies = spec_pmi_applies(loan, hv, cur.total_principal);
    let bills = costs.utilities_cents + costs.car_insurance_cents + costs.misc_bill_cents
        + costs.internet_cents;
    let pmi_num = spec_pmi_average_num(loan, applies);
    let tax_num = spec_property_tax_num(costs.region, hv);
    let ins_num = spec_home_insurance_num(costs.region);
    // Both sums are exact rationals over the denominator 120000. For the
    // income estimate, dividing by 0.282 and multiplying by 12 folds with
    // that denominator into a single division by 2820.
    let mt_num = payment * 120_000 + 1_200 * bills + pmi_num + tax_num + ins_num;
    let inc_num = (interest + principal) * 120_000 + pmi_num + tax_num + ins_num;
    RowModel {
        month: month as int,
        payment: payment,
        interest: interest,
        principal: principal,
        pmi_low_micro: if applies {
            spec_pmi_low_micro(loan)
        } else {
            0
        },
        pmi_high_micro: if applies {
            spec_pmi_high_micro(loan)
        } else {
            0
        },
        property_tax_micro: spec_property_tax_micro(costs.region, hv),
        home_insurance_micro: spec_home_insurance_micro(costs.region),
        utilities_cents: costs.utilities_cents as int,
        car_insurance_cents: costs.car_insurance_cents as int,
        misc_bill_cents: costs.misc_bill_cents as int,
        internet_cents: costs.internet_cents as int,
        totals: Option::None,
        balance: cur.balance,
        total_principal: cur.total_principal,
        total_interest: cur.total_interest,
        month_total_micro: spec_div_half_up(mt_num * 1_000_000, 120_000),
        minimum_income_micro: spec_div_half_up(inc_num * 1_000_000, 2_820),
    }
}

/// One emitted row, as the executable struct the generator returns. All
/// fields mirror `RowModel`; see there for meanings and scales.
#[derive(Debug, PartialEq, Eq)]
pub struct AmortizationRow {
    pub month: u32,
    pub payment: u64,
    pub interest: i64,
    pub principal: i64,
    pub pmi_low_micro: i64,
    pub pmi_high_micro: i64,
    pub property_tax_micro: i64,
    pub home_insurance_micro: i64,
    pub utilities_cents: u64,
    pub car_insurance_cents: u64,
    pub misc_bill_cents: u64,
    pub internet_cents: u64,
    pub totals: Option<i64>,
    pub balance: i64,
    pub total_principal: i64,
    pub total_interest: i64,
    pub month_total_micro: i64,
    pub minimum_income_micro: i64,
}

impl View for AmortizationRow {
    type V = RowModel;

    open spec fn view(&self) -> RowModel {
        RowModel {
            month: self.month as int,
            payment: self.payment as int,
            interest: self.interest as int,
            principal: self.principal as int,
            pmi_low_micro: self.pmi_low_micro as int,
            pmi_high_micro: self.pmi_high_micro as int,
            property_tax_micro: self.property_tax_micro as int,
            home_insurance_micro: self.home_insurance_micro as int,
            utilities_cents: self.utilities_cents as int,
            car_insurance_cents: self.car_insurance_cents as int,
            misc_bill_cents: self.misc_bill_cents as int,
            internet_cents: self.internet_cents as int,
            totals: match self.totals {
                Option::Some(v) => Option::Some(v as int),
                Option::None => Option::None,
            },
            balance: self.balance as int,
            total_principal: self.total_principal as int,
            total_interest: self.total_interest as int,
            month_total_micro: self.month_total_micro as int,
            minimum_income_micro: self.minimum_income_micro as int,
        }
    }
}

/// The loop state is inside the engine's caps.
pub open spec fn spec_state_in_range(s: LoanState) -> bool {
    &&& -(BALANCE_CAP as int) <= s.balance <= BALANCE_CAP as int
    &&& -(TOTAL_CAP as int) <= s.total_principal <= TOTAL_CAP as int
    &&& -(TOTAL_CAP as int) <= s.total_interest <= TOTAL_CAP as int
}

/// Every state of the first `months` months is inside the caps.
pub open spec fn spec_states_in_range(loan: int, rate_ppm: int, payment: int, months: nat)
    -> bool {
    forall|m: nat| 1 <= m <= months ==> spec_state_in_range(
        #[trigger] spec_state(loan, rate_ppm, payment, m))
}

/// The payment the generator schedules: the calculator's result under the
/// default rounding policy.
pub open spec fn spec_sched_payment(terms: LoanTerms) -> int {
    spec_monthly_payment(terms.spec_loan_amount(), terms.annual_rate_ppm as int,
        RoundingPolicy::Floor)
}

/// When the generator succeeds: a term of at least one month, a payment
/// the calculator can produce, and every month's state inside the caps.
pub open spec fn spec_schedule_ok(terms: LoanTerms) -> bool {
    &&& terms.term_months >= 1
    &&& spec_payment_ok(terms)
    &&& spec_states_in_range(terms.spec_loan_amount(), terms.annual_rate_ppm as int,
        spec_sched_payment(terms), terms.term_months as nat)
}

/// Which error the generator reports, in order of precedence: a zero term
/// first, then the calculator's errors, then the range caps.
pub open spec fn spec_schedule_error(terms: LoanTerms) -> MortgageError {
    if terms.term_months == 0 {
        MortgageError::InvalidTerm
    } else {
        spec_payment_error(terms)
    }
}

/// The full schedule as a sequence of row models, one per month.
pub open spec fn spec_schedule_rows(terms: LoanTerms, costs: RecurringCosts) -> Seq<RowModel> {
    Seq::new(terms.term_months as nat, |i: int| spec_row(terms, costs, spec_sched_payment(terms),
        (i + 1) as nat))
}

/// Monthly property tax for a region, in micro-units.
pub fn monthly_property_tax_micro(region: Region, house_value: u64) -> (r: i64)
    requires
        house_value <= MAX_HOUSE_VALUE,
    ensures
        r == spec_property_tax_micro(region, house_value as int),
        0 <= r <= 2_000_000_000_000,
{
    let num: i128 = match region {
        Region::N => 20_500 * (house_value as i128),
        Region::Other => 11_700 * (house_value as i128),
    };
    div_half_up_i128(num, 12) as i64
}

/// Monthly home insurance for a region, in micro-units.
pub fn monthly_home_insurance_micro(region: Region) -> (r: i64)
    ensures
        r == spec_home_insurance_micro(region),
        0 <= r <= 200_000_000,
{
    let num: i128 = match region {
        Region::N => 791_000_000,
        Region::Other => 1_307_000_000,
    };
    div_half_up_i128(num, 12) as i64
}

/// High end of the monthly PMI range for a loan amount, in micro-units.
pub fn pmi_high_micro(loan_amount: i64) -> (r: i64)
    requires
        0 <= loan_amount <= MAX_HOUSE_VALUE,
    ensures
        r == spec_pmi_high_micro(loan_amount as int),
        0 <= r <= 3_000_000_000_000,
{
    div_half_up_i128(25_000 * (loan_amount as i128), 12) as i64
}

/// Low end of the monthly PMI range for a loan amount, in micro-units.
pub fn pmi_low_micro(loan_amount: i64) -> (r: i64)
    requires
        0 <= loan_amount <= MAX_HOUSE_VALUE,
    ensures
        r == spec_pmi_low_micro(loan_amount as int),
        0 <= r <= 300_000_000_000,
{
    div_half_up_i128(2_200 * (loan_amount as i128), 12) as i64
}

/// Generate the full amortization schedule: exactly `term_months` rows,
/// months numbered 1 up to the term with no gaps or repeats, each row
/// pinned to its `spec_row` model. Validation happens before the first
/// row: on failure nothing is emitted, and the error says why — a zero
/// term, a non-positive loan amount, a zero rate, or a value outside the
/// engine's fixed-point range.
#[verifier::rlimit(100)]
pub fn generate_schedule(terms: &LoanTerms, costs: &RecurringCosts) -> (r: Result<
    Vec<AmortizationRow>, MortgageError>)
    requires
        terms.wf(),
        costs.wf(),
    ensures
        match r {
            Ok(rows) => {
                &&& spec_schedule_ok(*terms)
                &&& rows@.len() == terms.term_months
                &&& (forall|i: int| 0 <= i < rows@.len() ==> #[trigger] rows@[i]@ == spec_row(
                    *terms, *costs, spec_sched_payment(*terms), (i + 1) as nat))
                &&& (forall|i: int| 0 <= i < rows@.len() ==> (#[trigger] rows@[i])@.month == i
                    + 1)
                &&& rows@.map_values(|row: AmortizationRow| row@) == spec_schedule_rows(*terms,
                    *costs)
            },
            Err(e) => !spec_schedule_ok(*terms) && e == spec_schedule_error(*terms),
        },
{
    let term: u32 = terms.term_months;
    if term == 0 {
        return Err(MortgageError::InvalidTerm);
    }
    let pay: u64 = match compute_monthly_payment(terms) {
        Ok(p) => p,
        Err(e) => {
            return Err(e);
        },
    };
    let hv: i64 = terms.house_value as i64;
    let rate: i64 = terms.annual_rate_ppm as i64;
    let loan: i64 = hv - terms.down_payment as i64;
    let pmi_on: bool = 5 * loan > 4 * hv;
    let tax_num: i64 = match costs.region {
        Region::N => 205 * hv,
        Region::Other => 117 * hv,
    };
    let ins_num: i64 = match costs.region {
        Region::N => 7_910_000,
        Region::Other => 13_070_000,
    };
    let tax_micro: i64 = monthly_property_tax_micro(costs.region, terms.house_value);
    let ins_micro: i64 = monthly_home_insurance_micro(costs.region);
    let pmi_hi: i64 = pmi_high_micro(loan);
    let pmi_lo: i64 = pmi_low_micro(loan);
    let bills: u64 = costs.utilities_cents + costs.car_insurance_cents + costs.misc_bill_cents
        + costs.internet_cents;
    let mut rows: Vec<AmortizationRow> = Vec::new();
    let mut balance: i64 = loan;
    let mut total_principal: i64 = 0;
    let mut total_interest: i64 = 0;
    let mut month: u32 = 0;
    while month < term
        invariant
            terms.wf(),
            costs.wf(),
            term == terms.term_months,
            1 <= term,
            rate == terms.annual_rate_ppm,
            hv == terms.house_value,
            loan == terms.spec_loan_amount(),
            1 <= loan <= MAX_HOUSE_VALUE,
            spec_payment_ok(*terms),
            pay as int == spec_sched_payment(*terms),
            pay <= 1_000_000_000,
            pmi_on == spec_pmi_enabled(loan as int, hv as int),
            tax_num == spec_property_tax_num(costs.region, hv as int),
            ins_num == spec_home_insurance_num(costs.region),
            0 <= tax_num <= 205_000_000_000,
            0 < ins_num <= 13_070_000,
            tax_micro == spec_property_tax_micro(costs.region, hv as int),
            ins_micro == spec_home_insurance_micro(costs.region),
            pmi_hi == spec_pmi_high_micro(loan as int),
            pmi_lo == spec_pmi_low_micro(loan as int),
            bills == costs.utilities_cents + costs.car_insurance_cents + costs.misc_bill_cents
                + costs.internet_cents,
            bills <= 40_000_000_000,
            month <= term,
            ({
                let s = spec_state(loan as int, rate as int, pay as int, month as nat);
                balance == s.balance && total_principal == s.total_principal && total_interest
                    == s.total_interest
            }),
            -BALANCE_CAP <= balance <= BALANCE_CAP,
            -TOTAL_CAP <= total_principal <= TOTAL_CAP,
            -TOTAL_CAP <= total_interest <= TOTAL_CAP,
            spec_states_in_range(loan as int, rate as int, pay as int, month as nat),
            rows@.len() == month,
            forall|i: int| 0 <= i < month ==> #[trigger] rows@[i]@ == spec_row(*terms, *costs,
                pay as int, (i + 1) as nat),
        decreases term - month,
    {
        proof {
            assert(-1_000_000_000_000_000_000 <= (balance as int) * (rate as int)
                <= 1_000_000_000_000_000_000) by (nonlinear_arith)
                requires
                    -1_000_000_000_000 <= balance <= 1_000_000_000_000,
                    0 <= rate <= 1_000_000,
            ;
        }
        let interest128: i128 = round_half_up_i128((balance as i128) * (rate as i128),
            12_000_000);
        let interest: i64 = interest128 as i64;
        let principal: i64 = pay as i64 - interest;
        let new_tp: i64 = total_principal + principal;
        let new_ti: i64 = total_interest + interest;
        let new_bal: i64 = balance - principal;
        proof {
            lemma_round_half_up_identity(pay as int - interest as int);
            lemma_round_half_up_identity(balance as int - principal as int);
            assert(spec_state(loan as int, rate as int, pay as int, (month + 1) as nat)
                == spec_step(spec_state(loan as int, rate as int, pay as int, month as nat),
                rate as int, pay as int));
        }
        if new_bal > BALANCE_CAP || new_bal < -BALANCE_CAP || new_tp > TOTAL_CAP || new_tp
            < -TOTAL_CAP || new_ti > TOTAL_CAP || new_ti < -TOTAL_CAP {
            proof {
                assert(!spec_state_in_range(spec_state(loan as int, rate as int, pay as int, (
                    month + 1) as nat)));
                assert(!spec_states_in_range(loan as int, rate as int, pay as int,
                    term as nat));
            }
            return Err(MortgageError::OutOfRange);
        }
        let applies: bool = pmi_on && 50 * new_tp < 11 * hv;
        let pmi_num: i64 = if applies {
            136 * loan
        } else {
            0
        };
        let mt_num: i128 = (pay as i128) * 120_000 + 1_200 * (bills as i128) + (pmi_num as i128)
            + (tax_num as i128) + (ins_num as i128);
        let month_total: i64 = div_half_up_i128(mt_num * 1_000_000, 120_000) as i64;
        let inc_num: i128 = ((interest as i128) + (principal as i128)) * 120_000 + (
            pmi_num as i128) + (tax_num as i128) + (ins_num as i128);
        let min_income: i64 = div_half_up_i128(inc_num * 1_000_000, 2_820) as i64;
        let row = AmortizationRow {
            month: month + 1,
            payment: pay,
            interest,
            principal,
            pmi_low_micro: if applies {
                pmi_lo
            } else {
                0
            },
            pmi_high_micro: if applies {
                pmi_hi
            } else {
                0
            },
            property_tax_micro: tax_micro,
            home_insurance_micro: ins_micro,
            utilities_cents: costs.utilities_cents,
            car_insurance_cents: costs.car_insurance_cents,
            misc_bill_cents: costs.misc_bill_cents,
            internet_cents: costs.internet_cents,
            totals: None,
            balance: new_bal,
            total_principal: new_tp,
            total_interest: new_ti,
            month_total_micro: month_total,
            minimum_income_micro: min_income,
        };
        rows.push(row);
        proof {
            assert(rows@[month as int]@ == spec_row(*terms, *costs, pay as int, (month
                + 1) as nat));
        }
        balance = new_bal;
        total_principal = new_tp;
        total_interest = new_ti;
        month = month + 1;
    }
    proof {
        assert(rows@.map_values(|row: AmortizationRow| row@) =~= spec_schedule_rows(*terms,
            *costs));
    }
    Ok(rows)
}

/// Law: principal is conserved. After any number of months, the principal
/// paid so far plus the remaining balance equals the original loan
/// amount, exactly — the engine's rounding moves value between interest
/// and principal but never loses it.
pub proof fn lemma_principal_balance_conservation(loan: int, rate_ppm: int, payment: int,
    month: nat)
    ensures
        spec_state(loan, rate_ppm, payment, month).total_principal + spec_state(loan, rate_ppm,
            payment, month).balance == loan,
    decreases month,
{
    if month > 0 {
        lemma_principal_balance_conservation(loan, rate_ppm, payment, (month - 1) as nat);
        let prev = spec_state(loan, rate_ppm, payment, (month - 1) as nat);
        let interest = spec_monthly_interest(prev.balance, rate_ppm);
        let principal = spec_round_half_up(payment - interest, 1);
        lemma_round_half_up_identity(payment - interest);
        lemma_round_half_up_identity(prev.balance - principal);
    }
}

/// Law: the PMI range of a row is non-zero exactly while the loan-to-value
/// ratio at origination exceeded 80% and cumulative principal paid is
/// still below 22% of the house value; otherwise both ends are zero.
pub proof fn lemma_pmi_range_iff(terms: LoanTerms, costs: RecurringCosts, payment: int,
    month: nat)
    requires
        month >= 1,
        terms.spec_loan_amount() >= 1,
    ensures
        ({
            let row = spec_row(terms, costs, payment, month);
            let loan = terms.spec_loan_amount();
            let hv = terms.house_value as int;
            let cum = spec_state(loan, terms.annual_rate_ppm as int, payment,
                month).total_principal;
            &&& (row.pmi_high_micro != 0 <==> spec_pmi_enabled(loan, hv) && 50 * cum < 11 * hv)
            &&& (row.pmi_low_micro != 0 <==> spec_pmi_enabled(loan, hv) && 50 * cum < 11 * hv)
        }),
{
    let loan = terms.spec_loan_amount();
    crate::rounding::lemma_div_half_up_bounds(25_000 * loan, 12);
    crate::rounding::lemma_div_half_up_bounds(2_200 * loan, 12);
    assert(25_000 * loan / 12 >= 1) by (nonlinear_arith)
        requires
            loan >= 1,
    ;
    assert(2_200 * loan / 12 >= 1) by (nonlinear_arith)
        requires
            loan >= 1,
    ;
}

/// Law: schedule generation is idempotent. The row sequence is a function
/// of the inputs alone, so two runs on identical terms and costs are
/// specified to produce identical rows.
pub proof fn lemma_schedule_idempotent(terms_a: LoanTerms, costs_a: RecurringCosts,
    terms_b: LoanTerms, costs_b: RecurringCosts)
    requires
        terms_a == terms_b,
        costs_a == costs_b,
    ensures
        spec_schedule_rows(terms_a, costs_a) == spec_schedule_rows(terms_b, costs_b),
{
}

} // verus!
