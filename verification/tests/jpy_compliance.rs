//! Tests of the compliance matcher's pricing and gate arithmetic.

use matcher_core::common::compute_exec_price;
use matcher_core::jpy::compliance::is_jurisdiction_blocked;
use matcher_core::jpy::state::{KYC_BASIC, KYC_STANDARD, KYC_ENHANCED, KYC_INSTITUTIONAL};

/// The pricing arm of the compliance match, on plain values.
fn calc_price(oracle_price: u64, base_spread: u32, discount: u32, max_spread: u32) -> u64 {
    let effective_spread = base_spread.saturating_sub(discount);
    let capped_spread = std::cmp::min(effective_spread, max_spread);
    compute_exec_price(oracle_price, capped_spread as u64)
        .expect("compute_exec_price should not overflow in test")
}

#[test]
fn test_normal_pricing_no_discount() {
    let oracle: u64 = 150_000_000;
    let price = calc_price(oracle, 30, 0, 100);
    // 150_000_000 * 10030 / 10000 = 150_450_000
    assert_eq!(price, 150_450_000);
}

#[test]
fn test_institutional_kyc_discount() {
    let oracle: u64 = 150_000_000;
    // base=30, discount=10 -> effective=20
    let price = calc_price(oracle, 30, 10, 100);
    assert_eq!(price, 150_300_000);
}

#[test]
fn compliance_test_spread_capping() {
    let oracle: u64 = 150_000_000;
    // base=200, discount=0, max=100 -> capped=100
    let price = calc_price(oracle, 200, 0, 100);
    assert_eq!(price, 151_500_000);
}

#[test]
fn test_full_discount_spread_zero() {
    let oracle: u64 = 150_000_000;
    // base=15, discount=20 -> effective saturates to 0 -> price == oracle
    let price = calc_price(oracle, 15, 20, 100);
    assert_eq!(price, oracle);
}

#[test]
fn test_jurisdiction_bitmask_blocked() {
    let blocked_mask: u8 = 0b0000_0001;
    let jurisdiction: u8 = 0;
    let is_blocked = is_jurisdiction_blocked(blocked_mask, jurisdiction);
    assert!(is_blocked, "Jurisdiction 0 should be blocked when bit 0 is set");
}

#[test]
fn test_jurisdiction_bitmask_not_blocked() {
    let blocked_mask: u8 = 0b0000_0001;
    let jurisdiction: u8 = 1;
    let is_blocked = is_jurisdiction_blocked(blocked_mask, jurisdiction);
    assert!(!is_blocked, "Jurisdiction 1 should NOT be blocked when only bit 0 is set");
}

#[test]
fn test_kyc_level_constants() {
    assert_eq!(KYC_BASIC, 0);
    assert_eq!(KYC_STANDARD, 1);
    assert_eq!(KYC_ENHANCED, 2);
    assert_eq!(KYC_INSTITUTIONAL, 3);
}
