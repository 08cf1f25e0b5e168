//! Tests of the solver-verified matcher's pricing and state helpers.

use matcher_core::common::{compute_exec_price, CTX_SIZE, MAGIC_OFFSET};
use matcher_core::privacy::state::{
    verify_magic, read_solver_pubkey, PRIVACY_MATCHER_MAGIC, SOLVER_PUBKEY_OFFSET,
};

#[test]
fn test_normal_pricing() {
    // total = min(15 + 10, 100) = 25; price = 100_000_000 * 10025 / 10000
    let oracle_price: u64 = 100_000_000;
    let base_spread: u32 = 15;
    let solver_fee: u32 = 10;
    let max_spread: u32 = 100;

    let total_spread = std::cmp::min(base_spread.saturating_add(solver_fee), max_spread);
    assert_eq!(total_spread, 25);

    let exec_price = compute_exec_price(oracle_price, total_spread as u64).unwrap();
    assert_eq!(exec_price, 100_250_000);
}

#[test]
fn match_engine_test_spread_capping() {
    // total = min(80 + 50, 100) = 100
    let oracle_price: u64 = 100_000_000;
    let base_spread: u32 = 80;
    let solver_fee: u32 = 50;
    let max_spread: u32 = 100;

    let total_spread = std::cmp::min(base_spread.saturating_add(solver_fee), max_spread);
    assert_eq!(total_spread, 100);

    let exec_price = compute_exec_price(oracle_price, total_spread as u64).unwrap();
    assert_eq!(exec_price, 101_000_000);
}

#[test]
fn test_zero_solver_fee() {
    let oracle_price: u64 = 100_000_000;
    let base_spread: u32 = 15;
    let solver_fee: u32 = 0;
    let max_spread: u32 = 100;

    let total_spread = std::cmp::min(base_spread.saturating_add(solver_fee), max_spread);
    assert_eq!(total_spread, 15);

    let exec_price = compute_exec_price(oracle_price, total_spread as u64).unwrap();
    assert_eq!(exec_price, 100_150_000);
}

#[test]
fn test_large_price_btc() {
    let oracle_price: u64 = 70_000_000_000;
    let base_spread: u32 = 15;
    let solver_fee: u32 = 10;
    let max_spread: u32 = 100;

    let total_spread = std::cmp::min(base_spread.saturating_add(solver_fee), max_spread);
    assert_eq!(total_spread, 25);

    let exec_price = compute_exec_price(oracle_price, total_spread as u64).unwrap();
    assert_eq!(exec_price, 70_175_000_000);
}

#[test]
fn match_engine_test_verify_magic() {
    let mut data = vec![0u8; CTX_SIZE];
    data[MAGIC_OFFSET..MAGIC_OFFSET + 8]
        .copy_from_slice(&PRIVACY_MATCHER_MAGIC.to_le_bytes());

    assert!(verify_magic(&data));
}

#[test]
fn test_verify_magic_wrong_value() {
    let mut data = vec![0u8; CTX_SIZE];
    data[MAGIC_OFFSET..MAGIC_OFFSET + 8]
        .copy_from_slice(&0xDEAD_BEEF_u64.to_le_bytes());

    assert!(!verify_magic(&data));
}

#[test]
fn test_verify_magic_empty_buffer() {
    let data = vec![0u8; CTX_SIZE];
    assert!(!verify_magic(&data));
}

#[test]
fn test_read_solver_pubkey() {
    let mut data = vec![0u8; CTX_SIZE];
    let expected_pubkey: Vec<u8> = (0u8..32).collect();
    data[SOLVER_PUBKEY_OFFSET..SOLVER_PUBKEY_OFFSET + 32].copy_from_slice(&expected_pubkey);

    let read_pubkey = read_solver_pubkey(&data);
    assert_eq!(read_pubkey, expected_pubkey);
}

#[test]
fn test_read_solver_pubkey_zeroed() {
    let data = vec![0u8; CTX_SIZE];
    let read_pubkey = read_solver_pubkey(&data);
    assert_eq!(read_pubkey, vec![0u8; 32]);
}
