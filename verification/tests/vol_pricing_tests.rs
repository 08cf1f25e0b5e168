//! Tests of the volatility matcher's regime-adjusted pricing.

use matcher_core::common::compute_exec_price;
use matcher_core::vol::state::VolatilityRegime;

/// The pricing arm of the volatility match, on plain values.
fn calc_exec_price(
    base_spread: u32,
    vov_spread: u32,
    max_spread: u32,
    regime: VolatilityRegime,
    vol_mark: u64,
) -> u64 {
    let regime_multiplier = regime.spread_multiplier();
    let adjusted_vov = (vov_spread as u64) * regime_multiplier / 100;
    let total_spread = std::cmp::min(
        (base_spread as u64).saturating_add(adjusted_vov),
        max_spread as u64,
    );
    compute_exec_price(vol_mark, total_spread).unwrap()
}

#[test]
fn test_normal_regime_pricing() {
    // adjusted = 30; total = 50; price = 4_500_000_000 * 10050 / 10000
    let price = calc_exec_price(20, 30, 200, VolatilityRegime::Normal, 4_500_000_000);
    assert_eq!(price, 4_522_500_000);
}

#[test]
fn test_extreme_regime_pricing() {
    // adjusted = 30 * 250 / 100 = 75; total = 95
    let price = calc_exec_price(20, 30, 200, VolatilityRegime::Extreme, 4_500_000_000);
    assert_eq!(price, 4_542_750_000);
}

#[test]
fn test_very_low_regime_pricing() {
    // adjusted = 30 * 50 / 100 = 15; total = 35
    let price = calc_exec_price(20, 30, 200, VolatilityRegime::VeryLow, 4_500_000_000);
    assert_eq!(price, 4_515_750_000);
}

#[test]
fn vol_pricing_test_spread_capping() {
    // adjusted = 200 * 250 / 100 = 500; total = min(100 + 500, 150) = 150
    let price = calc_exec_price(100, 200, 150, VolatilityRegime::Extreme, 4_500_000_000);
    assert_eq!(price, 4_567_500_000);
}

#[test]
fn vol_pricing_test_regime_from_u8() {
    assert_eq!(VolatilityRegime::from_u8(0), VolatilityRegime::VeryLow);
    assert_eq!(VolatilityRegime::from_u8(1), VolatilityRegime::Low);
    assert_eq!(VolatilityRegime::from_u8(2), VolatilityRegime::Normal);
    assert_eq!(VolatilityRegime::from_u8(3), VolatilityRegime::High);
    assert_eq!(VolatilityRegime::from_u8(4), VolatilityRegime::Extreme);
    assert_eq!(VolatilityRegime::from_u8(5), VolatilityRegime::Normal);
}

#[test]
fn vol_pricing_test_regime_spread_multiplier() {
    assert_eq!(VolatilityRegime::VeryLow.spread_multiplier(), 50);
    assert_eq!(VolatilityRegime::Low.spread_multiplier(), 75);
    assert_eq!(VolatilityRegime::Normal.spread_multiplier(), 100);
    assert_eq!(VolatilityRegime::High.spread_multiplier(), 150);
    assert_eq!(VolatilityRegime::Extreme.spread_multiplier(), 250);
}
