//! End-to-end flows of the event matcher's handlers.

use matcher_core::common::{ProtocolError, CTX_SIZE, MAGIC_OFFSET};
use matcher_core::event::probability::{
    process_init, process_match, process_probability_sync, process_resolve,
};
use matcher_core::event::state::{EVENT_MATCHER_MAGIC, IS_RESOLVED_OFFSET};

fn lp_key() -> Vec<u8> {
    vec![7u8; 32]
}

fn oracle_key() -> Vec<u8> {
    vec![9u8; 32]
}

fn init_data(probability: u64) -> Vec<u8> {
    let mut d = vec![0u8; 98];
    d[0] = 0x02;
    d[1] = 0; // mode
    d[2..6].copy_from_slice(&20u32.to_le_bytes()); // base
    d[6..10].copy_from_slice(&30u32.to_le_bytes()); // edge
    d[10..14].copy_from_slice(&500u32.to_le_bytes()); // max
    d[18..26].copy_from_slice(&probability.to_le_bytes());
    d[66..98].copy_from_slice(&oracle_key());
    d
}

fn sync_data(probability: u64, severity: u64, signal_spread: u64) -> Vec<u8> {
    let mut d = vec![0u8; 25];
    d[0] = 0x03;
    d[1..9].copy_from_slice(&probability.to_le_bytes());
    d[9..17].copy_from_slice(&severity.to_le_bytes());
    d[17..25].copy_from_slice(&signal_spread.to_le_bytes());
    d
}

fn price_of(ctx: &[u8]) -> u64 {
    u64::from_le_bytes(ctx[0..8].try_into().unwrap())
}

#[test]
fn event_init_then_match_prices_at_fifty_percent() {
    let mut ctx = vec![0u8; CTX_SIZE];
    assert_eq!(process_init(&lp_key(), true, &mut ctx, &init_data(500_000), 100), Ok(()));
    assert_eq!(process_match(true, &lp_key(), &mut ctx, 150), Ok(()));
    assert_eq!(price_of(&ctx), 502_500);
}

#[test]
fn event_match_rejects_stale_oracle() {
    let mut ctx = vec![0u8; CTX_SIZE];
    assert_eq!(process_init(&lp_key(), true, &mut ctx, &init_data(500_000), 100), Ok(()));
    assert_eq!(
        process_match(true, &lp_key(), &mut ctx, 301),
        Err(ProtocolError::Custom(0x203))
    );
    assert_eq!(process_match(true, &lp_key(), &mut ctx, 300), Ok(()));
}

#[test]
fn event_match_requires_signer_and_matching_key() {
    let mut ctx = vec![0u8; CTX_SIZE];
    assert_eq!(process_init(&lp_key(), true, &mut ctx, &init_data(500_000), 100), Ok(()));
    assert_eq!(
        process_match(false, &lp_key(), &mut ctx, 100),
        Err(ProtocolError::MissingRequiredSignature)
    );
    let wrong = vec![8u8; 32];
    assert_eq!(
        process_match(true, &wrong, &mut ctx, 100),
        Err(ProtocolError::InvalidAccountData)
    );
}

#[test]
fn event_short_record_fails_even_with_placed_magic() {
    let mut ctx = vec![0u8; 200];
    ctx[MAGIC_OFFSET..MAGIC_OFFSET + 8].copy_from_slice(&EVENT_MATCHER_MAGIC.to_le_bytes());
    assert_eq!(
        process_match(true, &lp_key(), &mut ctx, 100),
        Err(ProtocolError::UninitializedAccount)
    );
}

#[test]
fn event_init_rejects_out_of_range_probability() {
    let mut ctx = vec![0u8; CTX_SIZE];
    assert_eq!(
        process_init(&lp_key(), true, &mut ctx, &init_data(1_000_001), 100),
        Err(ProtocolError::Custom(0x201))
    );
    assert!(ctx.iter().all(|&b| b == 0));
}

#[test]
fn event_init_rejects_reinitialization() {
    let mut ctx = vec![0u8; CTX_SIZE];
    assert_eq!(process_init(&lp_key(), true, &mut ctx, &init_data(500_000), 100), Ok(()));
    assert_eq!(
        process_init(&lp_key(), true, &mut ctx, &init_data(500_000), 100),
        Err(ProtocolError::AccountAlreadyInitialized)
    );
}

#[test]
fn event_match_rejects_zero_probability() {
    let mut ctx = vec![0u8; CTX_SIZE];
    assert_eq!(process_init(&lp_key(), true, &mut ctx, &init_data(0), 100), Ok(()));
    assert_eq!(
        process_match(true, &lp_key(), &mut ctx, 100),
        Err(ProtocolError::Custom(0x202))
    );
}

#[test]
fn event_sync_updates_probability_and_rejects_bad_inputs() {
    let mut ctx = vec![0u8; CTX_SIZE];
    assert_eq!(process_init(&lp_key(), true, &mut ctx, &init_data(500_000), 100), Ok(()));

    // A mismatched oracle account is refused.
    let wrong = vec![1u8; 32];
    assert_eq!(
        process_probability_sync(true, &mut ctx, &wrong, &sync_data(100_000, 0, 0), 200),
        Err(ProtocolError::Custom(0x204))
    );
    // Probability over 100% is refused.
    assert_eq!(
        process_probability_sync(true, &mut ctx, &oracle_key(), &sync_data(1_000_001, 0, 0), 200),
        Err(ProtocolError::Custom(0x201))
    );
    // A signal severity over the defined range is refused.
    assert_eq!(
        process_probability_sync(true, &mut ctx, &oracle_key(), &sync_data(100_000, 4, 0), 200),
        Err(ProtocolError::Custom(0x206))
    );

    assert_eq!(
        process_probability_sync(true, &mut ctx, &oracle_key(), &sync_data(100_000, 0, 0), 200),
        Ok(())
    );
    assert_eq!(process_match(true, &lp_key(), &mut ctx, 250), Ok(()));
    assert_eq!(price_of(&ctx), 103_200);
}

#[test]
fn event_resolve_freezes_the_market() {
    let mut ctx = vec![0u8; CTX_SIZE];
    assert_eq!(process_init(&lp_key(), true, &mut ctx, &init_data(500_000), 100), Ok(()));

    let resolve_yes = vec![0x04u8, 1u8];
    // Outcome beyond {0, 1} is refused.
    assert_eq!(
        process_resolve(&mut ctx, true, &oracle_key(), &vec![0x04u8, 2u8]),
        Err(ProtocolError::Custom(0x205))
    );
    // The oracle must sign.
    assert_eq!(
        process_resolve(&mut ctx, false, &oracle_key(), &resolve_yes),
        Err(ProtocolError::MissingRequiredSignature)
    );

    assert_eq!(process_resolve(&mut ctx, true, &oracle_key(), &resolve_yes), Ok(()));
    assert_eq!(ctx[IS_RESOLVED_OFFSET], 1);
    assert_eq!(u64::from_le_bytes(ctx[128..136].try_into().unwrap()), 1_000_000);

    // Every later mutating call fails with MarketResolved.
    assert_eq!(
        process_match(true, &lp_key(), &mut ctx, 100),
        Err(ProtocolError::Custom(0x200))
    );
    assert_eq!(
        process_probability_sync(true, &mut ctx, &oracle_key(), &sync_data(1, 0, 0), 200),
        Err(ProtocolError::Custom(0x200))
    );
    assert_eq!(
        process_resolve(&mut ctx, true, &oracle_key(), &resolve_yes),
        Err(ProtocolError::Custom(0x200))
    );
}

#[test]
fn event_resolve_no_forces_zero_probability() {
    let mut ctx = vec![0u8; CTX_SIZE];
    assert_eq!(process_init(&lp_key(), true, &mut ctx, &init_data(500_000), 100), Ok(()));
    assert_eq!(process_resolve(&mut ctx, true, &oracle_key(), &vec![0x04u8, 0u8]), Ok(()));
    assert_eq!(u64::from_le_bytes(ctx[128..136].try_into().unwrap()), 0);
    assert_eq!(ctx[161], 0);
}

#[test]
fn event_init_guards_size_writability_and_payload() {
    // Payload shorter than the fixed Init layout.
    let mut ctx = vec![0u8; CTX_SIZE];
    assert_eq!(
        process_init(&lp_key(), true, &mut ctx, &vec![0x02u8; 97], 100),
        Err(ProtocolError::InvalidInstructionData)
    );
    // A read-only record cannot be initialized.
    assert_eq!(
        process_init(&lp_key(), false, &mut ctx, &init_data(500_000), 100),
        Err(ProtocolError::InvalidAccountData)
    );
    // An undersized record cannot be initialized.
    let mut short = vec![0u8; 200];
    assert_eq!(
        process_init(&lp_key(), true, &mut short, &init_data(500_000), 100),
        Err(ProtocolError::AccountDataTooSmall)
    );
}
