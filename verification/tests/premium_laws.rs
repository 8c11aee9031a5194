use stellar_insure::premium::{calculate_premium, MIN_PREMIUM_STROOPS, SECONDS_PER_YEAR};
use stellar_insure::types::{Error, PolicyType};

const ONE_XLM: i128 = 10_000_000;
const ONE_YEAR: u64 = 365 * 24 * 3600;

#[test]
fn exact_premium_for_each_policy_type() {
    // 1 000 XLM for one year, tier 1: coverage * rate / 10_000.
    let coverage = ONE_XLM * 1_000;
    let cases = [
        (PolicyType::Weather, 350_000_000),
        (PolicyType::SmartContract, 300_000_000),
        (PolicyType::Flight, 200_000_000),
        (PolicyType::Health, 400_000_000),
        (PolicyType::Asset, 250_000_000),
    ];
    for (pt, expected) in cases {
        assert_eq!(calculate_premium(&pt, coverage, ONE_YEAR), Ok(expected));
    }
}

#[test]
fn exact_premium_with_partial_year_and_floor_division() {
    // annual = 123_456_789 * 300 / 10_000 = 3_703_703 (floor)
    // prorated = 3_703_703 * 2_592_000 / 31_536_000 = 304_413 (floor)
    let premium = calculate_premium(&PolicyType::SmartContract, 123_456_789, 2_592_000);
    assert_eq!(premium, Ok(304_413));
}

#[test]
fn exact_premium_in_medium_tier() {
    // 50 000 XLM, Flight, one year: 10_000_000_000 * 10_050 / 10_000
    let premium = calculate_premium(&PolicyType::Flight, ONE_XLM * 50_000, ONE_YEAR);
    assert_eq!(premium, Ok(10_050_000_000));
}

#[test]
fn exact_premium_in_large_tier() {
    // 500 000 XLM, Flight, one year: 100_000_000_000 * 10_100 / 10_000
    let premium = calculate_premium(&PolicyType::Flight, ONE_XLM * 500_000, ONE_YEAR);
    assert_eq!(premium, Ok(101_000_000_000));
}

#[test]
fn tier_thresholds_are_inclusive() {
    let below = calculate_premium(&PolicyType::Flight, 100_000_000_000 - 1, ONE_YEAR).unwrap();
    let at = calculate_premium(&PolicyType::Flight, 100_000_000_000, ONE_YEAR).unwrap();
    // (99_999_999_999 * 200 / 10_000) = 1_999_999_999, no surcharge
    assert_eq!(below, 1_999_999_999);
    // 2_000_000_000 * 10_050 / 10_000
    assert_eq!(at, 2_010_000_000);
    let at3 = calculate_premium(&PolicyType::Flight, 1_000_000_000_000, ONE_YEAR).unwrap();
    assert_eq!(at3, 20_200_000_000);
}

#[test]
fn overflow_is_reported_as_invalid_amount() {
    assert_eq!(
        calculate_premium(&PolicyType::Health, i128::MAX, ONE_YEAR),
        Err(Error::InvalidAmount)
    );
    // The first product fits but the pro-rating product does not.
    let coverage = i128::MAX / 400;
    assert_eq!(
        calculate_premium(&PolicyType::Health, coverage, u64::MAX),
        Err(Error::InvalidAmount)
    );
}

#[test]
fn zero_duration_is_checked_after_coverage() {
    assert_eq!(calculate_premium(&PolicyType::Asset, 0, 0), Err(Error::InvalidAmount));
    assert_eq!(calculate_premium(&PolicyType::Asset, 1, 0), Err(Error::InvalidDuration));
}

#[test]
fn premium_never_below_minimum() {
    for coverage in [1i128, 1_000, ONE_XLM, ONE_XLM * 100] {
        for duration in [1u64, 60, 3_600, 86_400] {
            let p = calculate_premium(&PolicyType::Weather, coverage, duration).unwrap();
            assert!(p >= MIN_PREMIUM_STROOPS);
        }
    }
}

#[test]
fn premium_monotone_in_rate_coverage_and_duration() {
    let low = calculate_premium(&PolicyType::Flight, ONE_XLM * 3_000, 1_000_000).unwrap();
    let high = calculate_premium(&PolicyType::Health, ONE_XLM * 30_000, 20_000_000).unwrap();
    assert!(low <= high);
    let mid = calculate_premium(&PolicyType::Asset, ONE_XLM * 3_000, 20_000_000).unwrap();
    assert!(low <= mid && mid <= high);
}

#[test]
fn one_year_tier1_premium_is_annual_base() {
    let coverage: i128 = 7_654_321_000;
    let premium = calculate_premium(&PolicyType::Weather, coverage, SECONDS_PER_YEAR as u64).unwrap();
    assert_eq!(premium, coverage * 350 / 10_000);
}

#[test]
fn rates_order_policy_types() {
    let coverage = ONE_XLM * 2_000;
    let order = [
        PolicyType::Flight,
        PolicyType::Asset,
        PolicyType::SmartContract,
        PolicyType::Weather,
        PolicyType::Health,
    ];
    for pair in order.windows(2) {
        let cheaper = calculate_premium(&pair[0], coverage, ONE_YEAR).unwrap();
        let dearer = calculate_premium(&pair[1], coverage, ONE_YEAR).unwrap();
        assert!(cheaper < dearer);
    }
}
