use stellar_insure::premium::calculate_premium;
use stellar_insure::types::PolicyType;

const ONE_XLM: i128 = 10_000_000;

fn next_u64(state: &mut u64) -> u64 {
    *state ^= *state << 13;
    *state ^= *state >> 7;
    *state ^= *state << 17;
    *state
}

fn rand_u64(state: &mut u64, min: u64, max: u64) -> u64 {
    assert!(min <= max);
    min + (next_u64(state) % (max - min + 1))
}

fn rand_i128(state: &mut u64, min: i128, max: i128) -> i128 {
    assert!(min <= max);
    let span = (max - min + 1) as u128;
    min + (next_u64(state) as u128 % span) as i128
}

fn random_policy_type(state: &mut u64) -> PolicyType {
    match next_u64(state) % 5 {
        0 => PolicyType::Weather,
        1 => PolicyType::SmartContract,
        2 => PolicyType::Flight,
        3 => PolicyType::Health,
        _ => PolicyType::Asset,
    }
}

#[test]
fn fuzz_premium_calculation_random_inputs() {
    let mut seed = 0xD00DFEED_12345678;

    for _ in 0..400 {
        let policy_type = random_policy_type(&mut seed);
        let coverage = rand_i128(&mut seed, ONE_XLM, ONE_XLM * 1_000_000);
        let duration = rand_u64(&mut seed, 1, 365 * 24 * 3600 * 5);

        let premium = calculate_premium(&policy_type, coverage, duration).unwrap();
        assert!(premium > 0, "premium must always be positive");

        let doubled = coverage.saturating_mul(2);
        let premium_doubled = calculate_premium(&policy_type, doubled, duration).unwrap();
        assert!(
            premium_doubled >= premium,
            "premium should be monotonic for larger coverage"
        );
    }
}
