//! End-to-end flows of the volatility matcher's handlers.

use matcher_core::common::{ProtocolError, CTX_SIZE};
use matcher_core::vol::vol_pricing::{process_init, process_match, process_oracle_sync};

fn lp_key() -> Vec<u8> {
    vec![7u8; 32]
}

fn vt_key() -> Vec<u8> {
    vec![9u8; 32]
}

fn vi_key() -> Vec<u8> {
    vec![11u8; 32]
}

fn init_data() -> Vec<u8> {
    let mut d = vec![0u8; 114];
    d[0] = 0x02;
    d[1] = 0; // mode
    d[2..6].copy_from_slice(&20u32.to_le_bytes()); // base
    d[6..10].copy_from_slice(&30u32.to_le_bytes()); // vol-of-vol
    d[10..14].copy_from_slice(&200u32.to_le_bytes()); // max
    d[50..82].copy_from_slice(&vt_key());
    d[82..114].copy_from_slice(&vi_key());
    d
}

fn sync_data(vol: u64, mark: u64, regime: u8) -> Vec<u8> {
    let mut d = vec![0u8; 34];
    d[0] = 0x03;
    d[1..9].copy_from_slice(&vol.to_le_bytes());
    d[9..17].copy_from_slice(&mark.to_le_bytes());
    d[17] = regime;
    d
}

fn price_of(ctx: &[u8]) -> u64 {
    u64::from_le_bytes(ctx[0..8].try_into().unwrap())
}

#[test]
fn vol_match_needs_synced_mark() {
    let mut ctx = vec![0u8; CTX_SIZE];
    assert_eq!(process_init(&lp_key(), true, &mut ctx, &init_data()), Ok(()));
    assert_eq!(
        process_match(true, &lp_key(), &mut ctx, 10),
        Err(ProtocolError::Custom(0x20))
    );
}

#[test]
fn vol_extreme_regime_prices() {
    let mut ctx = vec![0u8; CTX_SIZE];
    assert_eq!(process_init(&lp_key(), true, &mut ctx, &init_data()), Ok(()));
    assert_eq!(
        process_oracle_sync(true, &mut ctx, &vt_key(), &vi_key(), &sync_data(800, 4_500_000_000, 4), 10),
        Ok(())
    );
    assert_eq!(process_match(true, &lp_key(), &mut ctx, 50), Ok(()));
    // Extreme (2.5x): adjusted = 75; total = 95.
    assert_eq!(price_of(&ctx), 4_542_750_000);
}

#[test]
fn vol_match_rejects_stale_oracle() {
    let mut ctx = vec![0u8; CTX_SIZE];
    assert_eq!(process_init(&lp_key(), true, &mut ctx, &init_data()), Ok(()));
    assert_eq!(
        process_oracle_sync(true, &mut ctx, &vt_key(), &vi_key(), &sync_data(800, 4_500_000_000, 2), 10),
        Ok(())
    );
    assert_eq!(
        process_match(true, &lp_key(), &mut ctx, 111),
        Err(ProtocolError::Custom(0x21))
    );
    assert_eq!(process_match(true, &lp_key(), &mut ctx, 110), Ok(()));
}

#[test]
fn vol_sync_guards() {
    let mut ctx = vec![0u8; CTX_SIZE];
    assert_eq!(process_init(&lp_key(), true, &mut ctx, &init_data()), Ok(()));

    let wrong = vec![1u8; 32];
    assert_eq!(
        process_oracle_sync(true, &mut ctx, &wrong, &vi_key(), &sync_data(1, 1, 0), 10),
        Err(ProtocolError::Custom(0x22))
    );
    assert_eq!(
        process_oracle_sync(true, &mut ctx, &vt_key(), &wrong, &sync_data(1, 1, 0), 10),
        Err(ProtocolError::Custom(0x22))
    );
    assert_eq!(
        process_oracle_sync(true, &mut ctx, &vt_key(), &vi_key(), &sync_data(1, 1, 5), 10),
        Err(ProtocolError::Custom(0x23))
    );
    assert_eq!(
        process_oracle_sync(false, &mut ctx, &vt_key(), &vi_key(), &sync_data(1, 1, 0), 10),
        Err(ProtocolError::InvalidAccountData)
    );
}
