use mortgage_schedule::terms::Region;
use mortgage_schedule::{
    display_cents, monthly_home_insurance_micro, monthly_property_tax_micro, pmi_high_micro,
    pmi_low_micro, region_from_code, round_half_up,
};

#[test]
fn region_codes_map_to_brackets() {
    assert_eq!(region_from_code('N'), Region::N);
    assert_eq!(region_from_code('n'), Region::N);
    assert_eq!(region_from_code('M'), Region::Other);
    assert_eq!(region_from_code('X'), Region::Other);
    assert_eq!(region_from_code(' '), Region::Other);
}

#[test]
fn property_tax_lookup() {
    // Region N: 0.0205 * 300000 / 12 = 512.5 per month.
    assert_eq!(monthly_property_tax_micro(Region::N, 300_000), 512_500_000);
    // Fallback bracket: 0.0117 * 300000 / 12 = 292.5 per month.
    assert_eq!(monthly_property_tax_micro(Region::Other, 300_000), 292_500_000);
}

#[test]
fn home_insurance_lookup() {
    // 791 / 12 = 65.91666... per month.
    assert_eq!(monthly_home_insurance_micro(Region::N), 65_916_667);
    // 1307 / 12 = 108.91666... per month.
    assert_eq!(monthly_home_insurance_micro(Region::Other), 108_916_667);
}

#[test]
fn pmi_range_for_worked_loan() {
    // 0.025 * 270000 / 12 = 562.5 and 0.0022 * 270000 / 12 = 49.5.
    assert_eq!(pmi_high_micro(270_000), 562_500_000);
    assert_eq!(pmi_low_micro(270_000), 49_500_000);
}

#[test]
fn round_half_up_examples() {
    // 270000 * 0.04 / 12 = 900 exactly.
    assert_eq!(round_half_up(10_800_000_000, 12_000_000), 900);
    // An integer value passes through unchanged.
    assert_eq!(round_half_up(388, 1), 388);
    assert_eq!(round_half_up(-27, 1), -27);
    // 899.91 rounds half up at the fourth decimal, then floors to 899.
    assert_eq!(round_half_up(8_999_100, 10_000), 899);
    // The half-up nudge at the fourth decimal: 899.99995 lands on 900.
    assert_eq!(round_half_up(8_999_999_500, 10_000_000), 900);
    assert_eq!(round_half_up(8_999_999_499, 10_000_000), 899);
    // A negative quotient floors away from zero: -2.5 becomes -3.
    assert_eq!(round_half_up(-5, 2), -3);
}

#[test]
fn display_rounding_to_cents() {
    // 65.916667 displays as 65.92.
    assert_eq!(display_cents(65_916_667), 6_592);
    // Halves round away from zero in both directions.
    assert_eq!(display_cents(25_000), 3);
    assert_eq!(display_cents(-25_000), -3);
    assert_eq!(display_cents(24_999), 2);
    assert_eq!(display_cents(-15_000), -2);
    assert_eq!(display_cents(0), 0);
}
