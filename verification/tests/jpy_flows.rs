//! End-to-end flows of the compliance matcher's handlers.

use matcher_core::common::{ProtocolError, CTX_SIZE};
use matcher_core::jpy::compliance::process_match_with_compliance;
use matcher_core::jpy::pricing::{process_init, process_oracle_update};
use matcher_core::jpy::state::{
    CURRENT_DAY_VOLUME_OFFSET, DAY_RESET_TIMESTAMP_OFFSET, WHITELIST_KYC_LEVEL_OFFSET,
    WHITELIST_EXPIRY_OFFSET, WHITELIST_JURISDICTION_OFFSET,
};

fn lp_key() -> Vec<u8> {
    vec![7u8; 32]
}

fn init_data(min_kyc: u8, require_same: u8, blocked: u8, cap: u64) -> Vec<u8> {
    let mut d = vec![0u8; 93];
    d[0] = 0x02;
    d[1] = 0; // mode
    d[2] = min_kyc;
    d[3] = require_same;
    d[36..40].copy_from_slice(&30u32.to_le_bytes()); // base
    d[40..44].copy_from_slice(&10u32.to_le_bytes()); // discount
    d[44..48].copy_from_slice(&100u32.to_le_bytes()); // max
    d[48] = blocked;
    d[49..57].copy_from_slice(&cap.to_le_bytes());
    d
}

fn oracle_data(price: u64) -> Vec<u8> {
    let mut d = vec![0u8; 9];
    d[0] = 0x03;
    d[1..9].copy_from_slice(&price.to_le_bytes());
    d
}

fn whitelist(kyc: u8, expiry: i64, jurisdiction: u8) -> Vec<u8> {
    let mut w = vec![0u8; 64];
    w[WHITELIST_KYC_LEVEL_OFFSET] = kyc;
    w[WHITELIST_EXPIRY_OFFSET..WHITELIST_EXPIRY_OFFSET + 8]
        .copy_from_slice(&expiry.to_le_bytes());
    w[WHITELIST_JURISDICTION_OFFSET] = jurisdiction;
    w
}

fn trade(size: u64) -> Vec<u8> {
    let mut d = vec![0u8; 9];
    d[0] = 0x00;
    d[1..9].copy_from_slice(&size.to_le_bytes());
    d
}

fn price_of(ctx: &[u8]) -> u64 {
    u64::from_le_bytes(ctx[0..8].try_into().unwrap())
}

fn day_volume(ctx: &[u8]) -> u64 {
    u64::from_le_bytes(
        ctx[CURRENT_DAY_VOLUME_OFFSET..CURRENT_DAY_VOLUME_OFFSET + 8].try_into().unwrap(),
    )
}

fn day_reset(ctx: &[u8]) -> i64 {
    i64::from_le_bytes(
        ctx[DAY_RESET_TIMESTAMP_OFFSET..DAY_RESET_TIMESTAMP_OFFSET + 8].try_into().unwrap(),
    )
}

fn ready_ctx(min_kyc: u8, require_same: u8, blocked: u8, cap: u64) -> Vec<u8> {
    let mut ctx = vec![0u8; CTX_SIZE];
    assert_eq!(
        process_init(&lp_key(), true, &mut ctx, &init_data(min_kyc, require_same, blocked, cap)),
        Ok(())
    );
    assert_eq!(
        process_oracle_update(true, true, &mut ctx, &oracle_data(150_000_000)),
        Ok(())
    );
    ctx
}

#[test]
fn jpy_match_without_whitelist_needs_no_kyc_floor() {
    // With a zero KYC floor and no whitelist entry, pricing proceeds
    // without the discount.
    let mut ctx = ready_ctx(0, 0, 0, 0);
    assert_eq!(
        process_match_with_compliance(true, &lp_key(), &mut ctx, None, None, &trade(100), 1_000),
        Ok(())
    );
    assert_eq!(price_of(&ctx), 150_450_000);
}

#[test]
fn jpy_match_rejects_missing_whitelist_when_kyc_required() {
    let mut ctx = ready_ctx(1, 0, 0, 0);
    assert_eq!(
        process_match_with_compliance(true, &lp_key(), &mut ctx, None, None, &trade(100), 1_000),
        Err(ProtocolError::Custom(0x100))
    );
}

#[test]
fn jpy_match_rejects_unset_oracle() {
    let mut ctx = vec![0u8; CTX_SIZE];
    assert_eq!(process_init(&lp_key(), true, &mut ctx, &init_data(0, 0, 0, 0)), Ok(()));
    assert_eq!(
        process_match_with_compliance(true, &lp_key(), &mut ctx, None, None, &trade(100), 1_000),
        Err(ProtocolError::Custom(0x105))
    );
}

#[test]
fn jpy_institutional_discount_applies_at_top_tier_only() {
    let mut ctx = ready_ctx(1, 0, 0, 0);
    let wl = whitelist(3, 1_000_000, 1);
    assert_eq!(
        process_match_with_compliance(true, &lp_key(), &mut ctx, Some(&wl), None, &trade(100), 1_000),
        Ok(())
    );
    // base 30 - discount 10 = 20 bps over 150_000_000.
    assert_eq!(price_of(&ctx), 150_300_000);

    let wl_standard = whitelist(1, 1_000_000, 1);
    assert_eq!(
        process_match_with_compliance(
            true, &lp_key(), &mut ctx, Some(&wl_standard), None, &trade(100), 1_000,
        ),
        Ok(())
    );
    assert_eq!(price_of(&ctx), 150_450_000);
}

#[test]
fn jpy_match_rejects_low_kyc_expired_and_blocked() {
    let mut ctx = ready_ctx(2, 0, 0b0000_0001, 0);
    // KYC level below the floor.
    let wl_low = whitelist(1, 1_000_000, 1);
    assert_eq!(
        process_match_with_compliance(true, &lp_key(), &mut ctx, Some(&wl_low), None, &trade(1), 1_000),
        Err(ProtocolError::Custom(0x100))
    );
    // Expired entry.
    let wl_expired = whitelist(3, 500, 1);
    assert_eq!(
        process_match_with_compliance(
            true, &lp_key(), &mut ctx, Some(&wl_expired), None, &trade(1), 1_000,
        ),
        Err(ProtocolError::Custom(0x101))
    );
    // Blocked jurisdiction (bit 0 set, jurisdiction 0).
    let wl_blocked = whitelist(3, 1_000_000, 0);
    assert_eq!(
        process_match_with_compliance(
            true, &lp_key(), &mut ctx, Some(&wl_blocked), None, &trade(1), 1_000,
        ),
        Err(ProtocolError::Custom(0x102))
    );
    // A jurisdiction of 8 or above is never blocked, whatever the mask.
    let wl_high_jur = whitelist(3, 1_000_000, 8);
    assert_eq!(
        process_match_with_compliance(
            true, &lp_key(), &mut ctx, Some(&wl_high_jur), None, &trade(1), 1_000,
        ),
        Ok(())
    );
}

#[test]
fn jpy_daily_volume_accumulates_and_rolls_over() {
    let mut ctx = ready_ctx(0, 0, 0, 1_000);
    let wl = whitelist(1, i64::MAX, 1);

    assert_eq!(
        process_match_with_compliance(true, &lp_key(), &mut ctx, Some(&wl), None, &trade(100), 1_000),
        Ok(())
    );
    assert_eq!(day_volume(&ctx), 100);
    assert_eq!(day_reset(&ctx), 0);

    // Within the same window the counter accumulates; it never decreases.
    assert_eq!(
        process_match_with_compliance(true, &lp_key(), &mut ctx, Some(&wl), None, &trade(200), 2_000),
        Ok(())
    );
    assert_eq!(day_volume(&ctx), 300);

    // Over the cap the call is refused and nothing changes.
    assert_eq!(
        process_match_with_compliance(true, &lp_key(), &mut ctx, Some(&wl), None, &trade(800), 3_000),
        Err(ProtocolError::Custom(0x104))
    );
    assert_eq!(day_volume(&ctx), 300);

    // Exactly at the window's edge (now == reset + 86400) no rollover yet.
    assert_eq!(
        process_match_with_compliance(true, &lp_key(), &mut ctx, Some(&wl), None, &trade(100), 86_400),
        Ok(())
    );
    assert_eq!(day_volume(&ctx), 400);
    assert_eq!(day_reset(&ctx), 0);

    // One second past the window the counter restarts at the trade size.
    assert_eq!(
        process_match_with_compliance(true, &lp_key(), &mut ctx, Some(&wl), None, &trade(50), 86_401),
        Ok(())
    );
    assert_eq!(day_volume(&ctx), 50);
    assert_eq!(day_reset(&ctx), 86_401);
}

#[test]
fn jpy_same_jurisdiction_requirement() {
    let mut ctx = ready_ctx(0, 1, 0, 0);
    let user = whitelist(1, i64::MAX, 1);
    let lp_same = whitelist(1, i64::MAX, 1);
    let lp_other = whitelist(1, i64::MAX, 2);

    assert_eq!(
        process_match_with_compliance(
            true, &lp_key(), &mut ctx, Some(&user), Some(&lp_other), &trade(1), 1_000,
        ),
        Err(ProtocolError::Custom(0x103))
    );
    assert_eq!(
        process_match_with_compliance(
            true, &lp_key(), &mut ctx, Some(&user), Some(&lp_same), &trade(1), 1_000,
        ),
        Ok(())
    );
    // Without an LP entry the requirement cannot be checked and pricing
    // proceeds, as the protocol defines it.
    assert_eq!(
        process_match_with_compliance(true, &lp_key(), &mut ctx, Some(&user), None, &trade(1), 1_000),
        Ok(())
    );
}

#[test]
fn jpy_oracle_update_guards() {
    let mut ctx = vec![0u8; CTX_SIZE];
    assert_eq!(process_init(&lp_key(), true, &mut ctx, &init_data(0, 0, 0, 0)), Ok(()));
    assert_eq!(
        process_oracle_update(false, true, &mut ctx, &oracle_data(1)),
        Err(ProtocolError::MissingRequiredSignature)
    );
    assert_eq!(
        process_oracle_update(true, false, &mut ctx, &oracle_data(1)),
        Err(ProtocolError::InvalidAccountData)
    );
    assert_eq!(
        process_oracle_update(true, true, &mut ctx, &oracle_data(0)),
        Err(ProtocolError::Custom(0x105))
    );
    assert_eq!(process_oracle_update(true, true, &mut ctx, &oracle_data(42)), Ok(()));
}

#[test]
fn jpy_day_volume_saturates_without_wrapping() {
    // With no cap configured the volume check never refuses; the
    // accumulation itself still saturates at the counter's ceiling.
    let mut ctx = ready_ctx(0, 0, 0, 0);
    let wl = whitelist(1, i64::MAX, 1);
    ctx[CURRENT_DAY_VOLUME_OFFSET..CURRENT_DAY_VOLUME_OFFSET + 8]
        .copy_from_slice(&(u64::MAX - 10).to_le_bytes());
    assert_eq!(
        process_match_with_compliance(true, &lp_key(), &mut ctx, Some(&wl), None, &trade(100), 1_000),
        Ok(())
    );
    assert_eq!(day_volume(&ctx), u64::MAX);
}
