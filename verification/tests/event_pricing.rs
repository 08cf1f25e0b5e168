//! Tests of the event matcher's edge-spread pricing.

use matcher_core::event::probability::compute_exec_price_edge;
use matcher_core::event::state::{
    MAX_PROBABILITY, SIGNAL_NONE, SIGNAL_LOW, SIGNAL_HIGH, SIGNAL_CRITICAL,
};

#[test]
fn test_50_percent_probability() {
    // denominator = 500_000 * 500_000 * 4 / 1e12 = 1; factor = 1_000_000
    // adjusted_edge = 30; total = min(20 + 30 + 0, 500) = 50
    // price = 500_000 * 10050 / 10000 = 502_500
    let (price, spread, factor) = compute_exec_price_edge(500_000, 20, 30, 500, 0);
    assert_eq!(factor, 1_000_000);
    assert_eq!(spread, 50);
    assert_eq!(price, 502_500);
}

#[test]
fn test_10_percent_probability() {
    // denominator = 100_000 * 900_000 * 4 / 1e12 = 0; factor = 10_000_000
    // adjusted_edge = 300; total = 320; price = 100_000 * 10320 / 10000
    let (price, spread, factor) = compute_exec_price_edge(100_000, 20, 30, 500, 0);
    assert_eq!(factor, 10_000_000);
    assert_eq!(spread, 320);
    assert_eq!(price, 103_200);
}

#[test]
fn test_90_percent_probability() {
    // Symmetric to 10%: factor saturates, total = 320.
    let (price, spread, factor) = compute_exec_price_edge(900_000, 20, 30, 500, 0);
    assert_eq!(factor, 10_000_000);
    assert_eq!(spread, 320);
    assert_eq!(price, 928_800);
}

#[test]
fn test_1_percent_probability() {
    let (price, spread, factor) = compute_exec_price_edge(10_000, 20, 30, 500, 0);
    assert_eq!(factor, 10_000_000);
    assert_eq!(spread, 320);
    assert_eq!(price, 10_320);
}

#[test]
fn test_99_percent_probability() {
    let (price, spread, factor) = compute_exec_price_edge(990_000, 20, 30, 500, 0);
    assert_eq!(factor, 10_000_000);
    assert_eq!(spread, 320);
    assert_eq!(price, 1_021_680);
}

#[test]
fn probability_test_signal_adjustment() {
    // At 50% the factor is 1x, so edge_spread 300 passes through whole:
    // total = min(20 + 300 + 50, 500) = 370; price = 500_000 * 10370 / 10000.
    let (price, spread, _) = compute_exec_price_edge(500_000, 20, 300, 500, 50);
    assert_eq!(spread, 370);
    assert_eq!(price, 518_500);
}

#[test]
fn test_max_spread_capping() {
    // total = min(20 + 1000 + 500, 500) = 500; price = 500_000 * 10500 / 10000.
    let (price, spread, _) = compute_exec_price_edge(500_000, 20, 1000, 500, 500);
    assert_eq!(spread, 500);
    assert_eq!(price, 525_000);

    // At a tail probability the factor saturates: 200 * 10 = 2000 of edge.
    let (price2, spread2, _) = compute_exec_price_edge(10_000, 100, 200, 500, 300);
    assert_eq!(spread2, 500);
    assert_eq!(price2, 10_000 * 10_500 / 10_000);
}

#[test]
fn test_max_probability_constant() {
    assert_eq!(MAX_PROBABILITY, 1_000_000);
}

#[test]
fn test_signal_severity_constants() {
    assert_eq!(SIGNAL_NONE, 0);
    assert_eq!(SIGNAL_LOW, 1);
    assert_eq!(SIGNAL_HIGH, 2);
    assert_eq!(SIGNAL_CRITICAL, 3);
}
