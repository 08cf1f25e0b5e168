//! Tests of the macro matcher's regime-adjusted pricing.

use matcher_core::common::compute_exec_price;
use matcher_core::macro_matcher::state::{MacroRegime, compute_mark_price};

/// The pricing arm of the macro match, on plain values.
fn calc_exec_price(
    base_spread: u32,
    regime_spread: u32,
    max_spread: u32,
    regime: MacroRegime,
    mark_price: u64,
    signal_adj: u64,
) -> u64 {
    let regime_multiplier = regime.spread_multiplier();
    let adjusted_regime = (regime_spread as u64) * regime_multiplier / 100;
    let total_spread = std::cmp::min(
        (base_spread as u64)
            .saturating_add(adjusted_regime)
            .saturating_add(signal_adj),
        max_spread as u64,
    );
    compute_exec_price(mark_price, total_spread).unwrap()
}

fn calc_total_spread(
    base_spread: u32,
    regime_spread: u32,
    max_spread: u32,
    regime: MacroRegime,
    signal_adj: u64,
) -> u64 {
    let regime_multiplier = regime.spread_multiplier();
    let adjusted_regime = (regime_spread as u64) * regime_multiplier / 100;
    std::cmp::min(
        (base_spread as u64)
            .saturating_add(adjusted_regime)
            .saturating_add(signal_adj),
        max_spread as u64,
    )
}

#[test]
fn test_stagnation_regime_pricing() {
    // adjusted = 40 * 100 / 100 = 40; total = 60; price = 5_000_000 * 10060 / 10000
    let price = calc_exec_price(20, 40, 200, MacroRegime::Stagnation, 5_000_000, 0);
    assert_eq!(price, 5_030_000);
}

#[test]
fn test_crisis_regime_pricing() {
    // adjusted = 40 * 200 / 100 = 80; total = 100
    let price = calc_exec_price(20, 40, 200, MacroRegime::Crisis, 5_000_000, 0);
    assert_eq!(price, 5_050_000);
}

#[test]
fn test_expansion_regime_pricing() {
    // adjusted = 40 * 60 / 100 = 24; total = 44
    let price = calc_exec_price(20, 40, 200, MacroRegime::Expansion, 5_000_000, 0);
    assert_eq!(price, 5_022_000);
}

#[test]
fn test_recovery_regime_pricing() {
    // adjusted = 40 * 125 / 100 = 50; total = 70
    let price = calc_exec_price(20, 40, 200, MacroRegime::Recovery, 5_000_000, 0);
    assert_eq!(price, 5_035_000);
}

#[test]
fn pricing_test_spread_capping() {
    // adjusted = 200 * 200 / 100 = 400; total = min(100 + 400, 150) = 150
    let price = calc_exec_price(100, 200, 150, MacroRegime::Crisis, 5_000_000, 0);
    assert_eq!(price, 5_075_000);
}

#[test]
fn pricing_test_signal_adjustment() {
    // total = min(20 + 40 + 30, 200) = 90
    let price = calc_exec_price(20, 40, 200, MacroRegime::Stagnation, 5_000_000, 30);
    assert_eq!(price, 5_045_000);
}

#[test]
fn pricing_test_mark_price_positive_rate() {
    assert_eq!(compute_mark_price(200), 7_000_000);
}

#[test]
fn pricing_test_mark_price_zero_rate() {
    assert_eq!(compute_mark_price(0), 5_000_000);
}

#[test]
fn pricing_test_mark_price_negative_rate() {
    assert_eq!(compute_mark_price(-100), 4_000_000);
}

#[test]
fn test_regime_constants() {
    assert_eq!(MacroRegime::Expansion.spread_multiplier(), 60);
    assert_eq!(MacroRegime::Stagnation.spread_multiplier(), 100);
    assert_eq!(MacroRegime::Crisis.spread_multiplier(), 200);
    assert_eq!(MacroRegime::Recovery.spread_multiplier(), 125);
}

#[test]
fn pricing_test_regime_from_u8() {
    assert_eq!(MacroRegime::from_u8(0), MacroRegime::Expansion);
    assert_eq!(MacroRegime::from_u8(1), MacroRegime::Stagnation);
    assert_eq!(MacroRegime::from_u8(2), MacroRegime::Crisis);
    assert_eq!(MacroRegime::from_u8(3), MacroRegime::Recovery);
    assert_eq!(MacroRegime::from_u8(4), MacroRegime::Stagnation);
    assert_eq!(MacroRegime::from_u8(255), MacroRegime::Stagnation);
}

#[test]
fn test_total_spread_stagnation() {
    let spread = calc_total_spread(20, 40, 200, MacroRegime::Stagnation, 0);
    assert_eq!(spread, 60);
}

#[test]
fn test_total_spread_crisis_with_signal() {
    let spread = calc_total_spread(20, 40, 200, MacroRegime::Crisis, 50);
    assert_eq!(spread, 150);
}

#[test]
fn test_total_spread_capped() {
    let spread = calc_total_spread(100, 200, 150, MacroRegime::Crisis, 100);
    assert_eq!(spread, 150);
}
