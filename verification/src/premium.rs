//! Actuarial premium calculation.
//!
//! All monetary values are in stroops (1 XLM = 10_000_000 stroops) and all
//! arithmetic is integer fixed-point math:
//!
//! ```text
//! annual_base    = coverage_amount * base_rate_bps / 10_000
//! duration_adj   = annual_base * duration_seconds / SECONDS_PER_YEAR
//! coverage_adj   = duration_adj * (10_000 + coverage_factor_bps) / 10_000
//! premium        = max(coverage_adj, MIN_PREMIUM_STROOPS)
//! ```
//!
//! Every division is a floor division of a non-negative value.
use vstd::prelude::*;
use vstd::arithmetic::div_mod::{lemma_div_is_ordered, lemma_div_pos_is_pos, lemma_div_by_multiple};
use vstd::arithmetic::mul::{lemma_mul_inequality, lemma_mul_nonnegative};

use crate::types::{Error, PolicyType};

verus! {

/// Seconds in a 365-day year, used to annualise the duration factor.
pub const SECONDS_PER_YEAR: i128 = 31_536_000;

/// Minimum premium charged for any policy (0.01 XLM in stroops).
pub const MIN_PREMIUM_STROOPS: i128 = 100_000;

/// Precision denominator for basis-points arithmetic (1 bps = 0.01 %).
pub const BPS_DENOM: i128 = 10_000;

/// Coverage (in stroops) from which the medium-tier surcharge applies: 10 000 XLM.
pub const TIER2_THRESHOLD: i128 = 100_000_000_000;

/// Coverage (in stroops) from which the large-tier surcharge applies: 100 000 XLM.
pub const TIER3_THRESHOLD: i128 = 1_000_000_000_000;

/// Weather insurance carries higher systemic risk from correlated events (3.50 % p.a.).
pub const WEATHER_RATE_BPS: i128 = 350;

/// Smart-contract (DeFi) cover is volatile but self-contained (3.00 % p.a.).
pub const SMART_CONTRACT_RATE_BPS: i128 = 300;

/// Flight delay cover benefits from large, diversified pools (2.00 % p.a.).
pub const FLIGHT_RATE_BPS: i128 = 200;

/// Health insurance requires large reserves; priced conservatively (4.00 % p.a.).
pub const HEALTH_RATE_BPS: i128 = 400;

/// Asset protection sits between flight and weather in risk profile (2.50 % p.a.).
pub const ASSET_RATE_BPS: i128 = 250;

// ─── Mathematical model ──────────────────────────────────────────────────────

/// Annual base rate, in basis points, of a policy type.
pub open spec fn base_rate(policy_type: PolicyType) -> int {
    match policy_type {
        PolicyType::Weather => WEATHER_RATE_BPS as int,
        PolicyType::SmartContract => SMART_CONTRACT_RATE_BPS as int,
        PolicyType::Flight => FLIGHT_RATE_BPS as int,
        PolicyType::Health => HEALTH_RATE_BPS as int,
        PolicyType::Asset => ASSET_RATE_BPS as int,
    }
}

/// Concentration surcharge, in basis points, for a coverage amount:
/// +100 from the large tier on, +50 in the medium tier, none below it.
pub open spec fn coverage_factor(coverage: int) -> int {
    if coverage >= TIER3_THRESHOLD {
        100
    } else if coverage >= TIER2_THRESHOLD {
        50
    } else {
        0
    }
}

/// Step 1: the annualised base premium.
pub open spec fn annual_base(policy_type: PolicyType, coverage: int) -> int {
    coverage * base_rate(policy_type) / (BPS_DENOM as int)
}

/// Step 2: the annual base pro-rated to the policy's duration.
pub open spec fn duration_adjusted(policy_type: PolicyType, coverage: int, duration: int) -> int {
    annual_base(policy_type, coverage) * duration / (SECONDS_PER_YEAR as int)
}

/// Step 3: the pro-rated premium with the coverage-tier surcharge applied.
pub open spec fn coverage_adjusted(policy_type: PolicyType, coverage: int, duration: int) -> int {
    duration_adjusted(policy_type, coverage, duration) * ((BPS_DENOM as int) + coverage_factor(
        coverage,
    )) / (BPS_DENOM as int)
}

/// Step 4: the minimum-premium floor.
pub open spec fn with_floor(premium: int) -> int {
    if premium >= MIN_PREMIUM_STROOPS {
        premium
    } else {
        MIN_PREMIUM_STROOPS as int
    }
}

/// Every product formed on the way to the premium fits in an `i128`.
pub open spec fn fits_i128(policy_type: PolicyType, coverage: int, duration: int) -> bool {
    &&& coverage * base_rate(policy_type) <= i128::MAX
    &&& annual_base(policy_type, coverage) * duration <= i128::MAX
    &&& duration_adjusted(policy_type, coverage, duration) * ((BPS_DENOM as int) + coverage_factor(
        coverage,
    )) <= i128::MAX
}

/// What pricing a policy yields: an error for a non-positive coverage, a zero
/// duration or an intermediate product beyond `i128`, else the floored premium.
pub open spec fn premium_of(policy_type: PolicyType, coverage: int, duration: int) -> Result<
    i128,
    Error,
> {
    if coverage <= 0 {
        Err(Error::InvalidAmount)
    } else if duration == 0 {
        Err(Error::InvalidDuration)
    } else if !fits_i128(policy_type, coverage, duration) {
        Err(Error::InvalidAmount)
    } else {
        Ok(with_floor(coverage_adjusted(policy_type, coverage, duration)) as i128)
    }
}

// ─── Public API ──────────────────────────────────────────────────────────────

/// Calculate the premium for a new policy.
///
/// * `policy_type`      – determines the actuarial base rate
/// * `coverage_amount`  – maximum payout in stroops (must be > 0)
/// * `duration_seconds` – policy lifetime in seconds (must be > 0)
///
/// Returns the premium in stroops, always at least `MIN_PREMIUM_STROOPS`;
/// `Error::InvalidAmount` when the coverage is not positive or the arithmetic
/// would overflow, `Error::InvalidDuration` when the duration is zero.
pub fn calculate_premium(
    policy_type: &PolicyType,
    coverage_amount: i128,
    duration_seconds: u64,
) -> (result: Result<i128, Error>)
    ensures
        result == premium_of(*policy_type, coverage_amount as int, duration_seconds as int),
        coverage_amount <= 0 ==> result == Err::<i128, Error>(Error::InvalidAmount),
        coverage_amount > 0 && duration_seconds == 0 ==> result == Err::<i128, Error>(
            Error::InvalidDuration,
        ),
        coverage_amount > 0 && duration_seconds > 0 ==> (result is Ok <==> fits_i128(
            *policy_type,
            coverage_amount as int,
            duration_seconds as int,
        )),
        coverage_amount > 0 && duration_seconds > 0 && !fits_i128(
            *policy_type,
            coverage_amount as int,
            duration_seconds as int,
        ) ==> result == Err::<i128, Error>(Error::InvalidAmount),
        result matches Ok(premium) ==> premium == with_floor(
            coverage_adjusted(*policy_type, coverage_amount as int, duration_seconds as int),
        ),
        result matches Ok(premium) ==> premium >= MIN_PREMIUM_STROOPS,
        ({
            let c = coverage_amount as int;
            let d = duration_seconds as int;
            let r: int = match *policy_type {
                PolicyType::Weather => 350,
                PolicyType::SmartContract => 300,
                PolicyType::Flight => 200,
                PolicyType::Health => 400,
                PolicyType::Asset => 250,
            };
            let s: int = if c >= 1_000_000_000_000 {
                100
            } else if c >= 100_000_000_000 {
                50
            } else {
                0
            };
            let raw = ((c * r / 10_000) * d / 31_536_000) * (10_000 + s) / 10_000;
            result matches Ok(premium) ==> premium == (if raw >= 100_000 {
                raw
            } else {
                100_000
            })
        }),
{
    proof {
        premium_closed_form(*policy_type, coverage_amount as int, duration_seconds as int);
    }
    if coverage_amount <= 0 {
        return Err(Error::InvalidAmount);
    }
    if duration_seconds == 0 {
        return Err(Error::InvalidDuration);
    }
    let base_rate = base_rate_bps(policy_type);
    let duration = duration_seconds as i128;

    // Step 1 — annualised base premium
    let annual_base = match mul_div(coverage_amount, base_rate, BPS_DENOM) {
        Some(v) => v,
        None => return Err(Error::InvalidAmount),
    };

    // Step 2 — pro-rate for actual duration
    let duration_adj = match mul_div(annual_base, duration, SECONDS_PER_YEAR) {
        Some(v) => v,
        None => return Err(Error::InvalidAmount),
    };

    // Step 3 — coverage-concentration surcharge
    let coverage_factor = coverage_factor_bps(coverage_amount);
    let premium = match mul_div(duration_adj, BPS_DENOM + coverage_factor, BPS_DENOM) {
        Some(v) => v,
        None => return Err(Error::InvalidAmount),
    };

    // Step 4 — enforce minimum floor
    if premium >= MIN_PREMIUM_STROOPS {
        Ok(premium)
    } else {
        Ok(MIN_PREMIUM_STROOPS)
    }
}

// ─── Private helpers ─────────────────────────────────────────────────────────

/// Annual base rate in basis points, differentiated by policy type.
fn base_rate_bps(policy_type: &PolicyType) -> (rate: i128)
    ensures
        rate == base_rate(*policy_type),
{
    match policy_type {
        PolicyType::Weather => WEATHER_RATE_BPS,
        PolicyType::SmartContract => SMART_CONTRACT_RATE_BPS,
        PolicyType::Flight => FLIGHT_RATE_BPS,
        PolicyType::Health => HEALTH_RATE_BPS,
        PolicyType::Asset => ASSET_RATE_BPS,
    }
}

/// Additional basis points added to account for concentration risk when a
/// policy's coverage amount falls in a higher tier.
fn coverage_factor_bps(coverage_amount: i128) -> (factor: i128)
    ensures
        factor == coverage_factor(coverage_amount as int),
{
    if coverage_amount >= TIER3_THRESHOLD {
        100
    } else if coverage_amount >= TIER2_THRESHOLD {
        50
    } else {
        0
    }
}

/// `value * factor / denom` with a checked product: `None` when the product
/// leaves the `i128` range.
fn mul_div(value: i128, factor: i128, denom: i128) -> (result: Option<i128>)
    requires
        value >= 0,
        factor >= 0,
        denom > 0,
    ensures
        value * factor > i128::MAX ==> result is None,
        value * factor <= i128::MAX ==> result == Some((value * factor / (denom as int)) as i128),
        result matches Some(q) ==> q >= 0,
{
    proof {
        lemma_mul_nonnegative(value as int, factor as int);
    }
    match value.checked_mul(factor) {
        Some(product) => {
            proof {
                lemma_div_pos_is_pos(product as int, denom as int);
                lemma_div_is_ordered(product as int, i128::MAX as int, denom as int);
            }
            product.checked_div(denom)
        },
        None => None,
    }
}

// ─── Laws ────────────────────────────────────────────────────────────────────

/// `0 <= a <= c` and `0 <= b <= d` give `a * b <= c * d`.
proof fn lemma_mul_le_mul(a: int, b: int, c: int, d: int)
    requires
        0 <= a <= c,
        0 <= b <= d,
    ensures
        0 <= a * b <= c * d,
{
    lemma_mul_nonnegative(a, b);
    lemma_mul_inequality(a, c, b);
    lemma_mul_inequality(b, d, c);
    assert(b * c == c * b) by (nonlinear_arith);
    assert(d * c == c * d) by (nonlinear_arith);
}

/// The premium never decreases when the base rate, the coverage or the
/// duration grows: whenever the larger policy can be priced, so can the
/// smaller one, and its premium is no larger.
pub proof fn premium_is_monotone(
    low_type: PolicyType,
    high_type: PolicyType,
    low_coverage: int,
    high_coverage: int,
    low_duration: int,
    high_duration: int,
)
    requires
        base_rate(low_type) <= base_rate(high_type),
        0 < low_coverage <= high_coverage,
        0 < low_duration <= high_duration,
        premium_of(high_type, high_coverage, high_duration) is Ok,
    ensures
        premium_of(low_type, low_coverage, low_duration) is Ok,
        premium_of(low_type, low_coverage, low_duration)->Ok_0 <= premium_of(
            high_type,
            high_coverage,
            high_duration,
        )->Ok_0,
{
    let bps = BPS_DENOM as int;
    let year = SECONDS_PER_YEAR as int;
    let (lt, ht, lc, hc, ld, hd) = (
        low_type,
        high_type,
        low_coverage,
        high_coverage,
        low_duration,
        high_duration,
    );
    // Step 1
    lemma_mul_le_mul(lc, base_rate(lt), hc, base_rate(ht));
    lemma_div_is_ordered(lc * base_rate(lt), hc * base_rate(ht), bps);
    lemma_div_pos_is_pos(lc * base_rate(lt), bps);
    // Step 2
    lemma_mul_le_mul(annual_base(lt, lc), ld, annual_base(ht, hc), hd);
    lemma_div_is_ordered(annual_base(lt, lc) * ld, annual_base(ht, hc) * hd, year);
    lemma_div_pos_is_pos(annual_base(lt, lc) * ld, year);
    // Step 3
    lemma_mul_le_mul(
        duration_adjusted(lt, lc, ld),
        bps + coverage_factor(lc),
        duration_adjusted(ht, hc, hd),
        bps + coverage_factor(hc),
    );
    lemma_div_is_ordered(
        duration_adjusted(lt, lc, ld) * (bps + coverage_factor(lc)),
        duration_adjusted(ht, hc, hd) * (bps + coverage_factor(hc)),
        bps,
    );
}

/// A one-year policy below the medium coverage tier costs exactly its
/// annual base premium, `coverage * base_rate / 10_000`, subject to the floor.
pub proof fn one_year_premium_is_annual_base(policy_type: PolicyType, coverage: int)
    requires
        0 < coverage < TIER2_THRESHOLD,
    ensures
        premium_of(policy_type, coverage, SECONDS_PER_YEAR as int) == Ok::<i128, Error>(
            with_floor(annual_base(policy_type, coverage)) as i128,
        ),
{
    let bps = BPS_DENOM as int;
    let year = SECONDS_PER_YEAR as int;
    let rate = base_rate(policy_type);
    let annual = annual_base(policy_type, coverage);
    lemma_mul_le_mul(coverage, rate, TIER2_THRESHOLD as int, 400);
    lemma_div_pos_is_pos(coverage * rate, bps);
    lemma_div_is_ordered(coverage * rate, (TIER2_THRESHOLD as int) * 400, bps);
    lemma_mul_le_mul(annual, year, 4_000_000_000, year);
    lemma_div_by_multiple(annual, year);
    assert(duration_adjusted(policy_type, coverage, year) == annual);
    lemma_mul_le_mul(annual, bps, 4_000_000_000, bps);
    lemma_div_by_multiple(annual, bps);
}

/// Pricing in closed form, with the published rates and tiers written out:
/// a rate `r` of 350, 300, 200, 400 or 250 bps for weather, smart-contract,
/// flight, health and asset cover, a surcharge `s` of 100 bps from
/// 1_000_000_000_000 stroops of coverage and 50 bps from 100_000_000_000, and
/// for every positive coverage `c` and duration `d` that stays in `i128` the
/// premium `max(((c * r / 10_000) * d / 31_536_000) * (10_000 + s) / 10_000, 100_000)`.
/// The duration pro-rates linearly for every policy type and every duration.
pub proof fn premium_closed_form(policy_type: PolicyType, coverage: int, duration: int)
    ensures
        ({
            let r: int = match policy_type {
                PolicyType::Weather => 350,
                PolicyType::SmartContract => 300,
                PolicyType::Flight => 200,
                PolicyType::Health => 400,
                PolicyType::Asset => 250,
            };
            let s: int = if coverage >= 1_000_000_000_000 {
                100
            } else if coverage >= 100_000_000_000 {
                50
            } else {
                0
            };
            let annual = coverage * r / 10_000;
            let prorated = annual * duration / 31_536_000;
            let raw = prorated * (10_000 + s) / 10_000;
            premium_of(policy_type, coverage, duration) == if coverage <= 0 {
                Err::<i128, Error>(Error::InvalidAmount)
            } else if duration == 0 {
                Err::<i128, Error>(Error::InvalidDuration)
            } else if coverage * r > i128::MAX || annual * duration > i128::MAX || prorated * (
            10_000 + s) > i128::MAX {
                Err::<i128, Error>(Error::InvalidAmount)
            } else {
                Ok::<i128, Error>((if raw >= 100_000 {
                    raw
                } else {
                    100_000
                }) as i128)
            }
        }),
{
}

/// A policy running a whole number of years costs that many annual bases,
/// surcharged and floored: with `r` and `s` as in `premium_closed_form`, the
/// premium for `years * 31_536_000` seconds is
/// `max(years * (c * r / 10_000) * (10_000 + s) / 10_000, 100_000)`.
pub proof fn whole_years_scale_linearly(policy_type: PolicyType, coverage: int, years: int)
    requires
        coverage > 0,
        years >= 1,
        premium_of(policy_type, coverage, years * 31_536_000) is Ok,
    ensures
        ({
            let r: int = match policy_type {
                PolicyType::Weather => 350,
                PolicyType::SmartContract => 300,
                PolicyType::Flight => 200,
                PolicyType::Health => 400,
                PolicyType::Asset => 250,
            };
            let s: int = if coverage >= 1_000_000_000_000 {
                100
            } else if coverage >= 100_000_000_000 {
                50
            } else {
                0
            };
            let raw = years * (coverage * r / 10_000) * (10_000 + s) / 10_000;
            premium_of(policy_type, coverage, years * 31_536_000)->Ok_0 == (if raw >= 100_000 {
                raw
            } else {
                100_000
            })
        }),
{
    let annual = annual_base(policy_type, coverage);
    lemma_mul_nonnegative(coverage, base_rate(policy_type));
    lemma_div_pos_is_pos(coverage * base_rate(policy_type), BPS_DENOM as int);
    lemma_mul_nonnegative(annual, years);
    assert(annual * (years * 31_536_000) == (annual * years) * 31_536_000) by (nonlinear_arith);
    lemma_div_by_multiple(annual * years, 31_536_000);
    assert(annual * years == years * annual) by (nonlinear_arith);
    premium_closed_form(policy_type, coverage, years * 31_536_000);
}

} // verus!
