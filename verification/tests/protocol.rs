//! Tests of the shared context-record protocol.

use matcher_core::common::{
    read_magic, read_lp_pda, verify_magic, write_header, write_exec_price, compute_exec_price,
    ProtocolError, CTX_SIZE, MAGIC_OFFSET, RETURN_DATA_OFFSET, RETURN_DATA_SIZE,
};

fn key(fill: u8) -> Vec<u8> {
    let mut k = vec![fill; 32];
    k[0] = k[0].wrapping_add(1);
    k
}

#[test]
fn lib_test_verify_magic() {
    let mut data = vec![0u8; 320];
    let magic = 0x5052_4956_4d41_5443u64;
    data[64..72].copy_from_slice(&magic.to_le_bytes());
    assert!(verify_magic(&data, magic));
    assert!(!verify_magic(&data, 0x1234));
}

#[test]
fn test_verify_magic_short_buffer() {
    let data = vec![0u8; 100];
    assert!(!verify_magic(&data, 0x1234));
}

#[test]
fn test_compute_exec_price() {
    // 100_000_000 * (10000 + 50) / 10000 = 100_500_000
    assert_eq!(compute_exec_price(100_000_000, 50).unwrap(), 100_500_000);
}

#[test]
fn test_compute_exec_price_zero_spread() {
    assert_eq!(compute_exec_price(100_000_000, 0).unwrap(), 100_000_000);
}

#[test]
fn test_write_header() {
    let mut data = vec![0u8; 320];
    let magic = 0x5052_4956_4d41_5443u64;
    let lp = key(3);
    write_header(&mut data, magic, 0, &lp);

    assert_eq!(u64::from_le_bytes(data[64..72].try_into().unwrap()), magic);
    assert_eq!(u32::from_le_bytes(data[72..76].try_into().unwrap()), 1);
    assert_eq!(data[76], 0);
    assert_eq!(&data[80..112], &lp[..]);
}

#[test]
fn test_write_exec_price() {
    let mut data = vec![0u8; 320];
    write_exec_price(&mut data, 12345678);
    assert_eq!(u64::from_le_bytes(data[0..8].try_into().unwrap()), 12345678);
}

#[test]
fn test_cpi_contract_header_roundtrip() {
    // write_header must create a record that passes every caller-side check.
    let mut data = vec![0u8; CTX_SIZE];
    let magic = 0x4556_4e54_4d41_5443u64;
    let lp = key(5);

    write_header(&mut data, magic, 1, &lp);

    assert!(verify_magic(&data, magic));
    assert_eq!(read_lp_pda(&data), lp);
    assert_eq!(u32::from_le_bytes(data[72..76].try_into().unwrap()), 1);
    assert_eq!(data[76], 1);
    assert!(data[RETURN_DATA_OFFSET..RETURN_DATA_OFFSET + RETURN_DATA_SIZE]
        .iter()
        .all(|&b| b == 0));
}

#[test]
fn test_cpi_contract_exec_price_location() {
    // The price lands at bytes 0..8 and corrupts no other field.
    let mut data = vec![0u8; CTX_SIZE];
    let magic = 0x564F_4c4d_4154_4348u64;
    let lp = key(9);

    write_header(&mut data, magic, 0, &lp);
    write_exec_price(&mut data, 42_000_000);

    assert_eq!(
        u64::from_le_bytes(data[0..8].try_into().unwrap()),
        42_000_000
    );
    assert!(verify_magic(&data, magic));
    assert_eq!(read_lp_pda(&data), lp);
}

#[test]
fn test_cpi_contract_magic_mismatch_rejected() {
    let mut data = vec![0u8; CTX_SIZE];
    let privacy_magic = 0x5052_4956_4d41_5443u64;
    let vol_magic = 0x564F_4c4d_4154_4348u64;

    write_header(&mut data, privacy_magic, 0, &key(1));

    assert!(verify_magic(&data, privacy_magic));
    assert!(!verify_magic(&data, vol_magic));
}

#[test]
fn test_cpi_contract_lp_pda_mismatch_detected() {
    let mut data = vec![0u8; CTX_SIZE];
    let lp_a = key(10);
    let lp_b = key(20);

    write_header(&mut data, 0x1234_5678_9ABC_DEF0, 0, &lp_a);

    assert_eq!(read_lp_pda(&data), lp_a);
    assert_ne!(read_lp_pda(&data), lp_b);
}

#[test]
fn test_cpi_contract_uninitialized_context_rejected() {
    let data = vec![0u8; CTX_SIZE];
    let any_magic = 0x5052_4956_4d41_5443u64;

    assert!(!verify_magic(&data, any_magic));
}

#[test]
fn test_cpi_contract_undersized_context_rejected() {
    let mut data = vec![0u8; 200]; // < 320
    let magic = 0x5052_4956_4d41_5443u64;
    // Even with the magic at the right offset, the size check must fail.
    if data.len() > MAGIC_OFFSET + 8 {
        data[MAGIC_OFFSET..MAGIC_OFFSET + 8].copy_from_slice(&magic.to_le_bytes());
    }
    assert!(!verify_magic(&data, magic));
}

#[test]
fn test_cpi_contract_all_four_magics_unique() {
    let privacy = 0x5052_4956_4d41_5443u64; // "PRIVMATC"
    let vol = 0x564F_4c4d_4154_4348u64; // "VOLMATCH"
    let jpy = 0x4A50_594D_4154_4348u64; // "JPYMATCH"
    let event = 0x4556_4e54_4d41_5443u64; // "EVNTMATC"

    let magics = [privacy, vol, jpy, event];
    for i in 0..magics.len() {
        for j in (i + 1)..magics.len() {
            assert_ne!(magics[i], magics[j], "Magic values must be unique");
        }
    }

    let mut data = vec![0u8; CTX_SIZE];
    for &magic in &magics {
        data[MAGIC_OFFSET..MAGIC_OFFSET + 8].copy_from_slice(&magic.to_le_bytes());
        assert!(verify_magic(&data, magic));
        for &other in &magics {
            if other != magic {
                assert!(!verify_magic(&data, other));
            }
        }
    }
}

#[test]
fn test_cpi_contract_exec_price_overwrite() {
    let mut data = vec![0u8; CTX_SIZE];
    write_exec_price(&mut data, 100_000_000);
    assert_eq!(u64::from_le_bytes(data[0..8].try_into().unwrap()), 100_000_000);

    write_exec_price(&mut data, 200_000_000);
    assert_eq!(u64::from_le_bytes(data[0..8].try_into().unwrap()), 200_000_000);
}

#[test]
fn test_cpi_contract_read_magic_short_data() {
    let data = vec![0u8; 50];
    assert_eq!(read_magic(&data), 0);
}

#[test]
fn test_compute_exec_price_overflow_surfaces() {
    // A price that does not fit 64 bits fails rather than being silently
    // reduced: u64::MAX * 20000 / 10000 = 2 * u64::MAX does not fit.
    assert_eq!(
        compute_exec_price(u64::MAX, 10_000),
        Err(ProtocolError::ArithmeticOverflow)
    );
    // With zero spread even the largest price passes through unchanged.
    assert_eq!(compute_exec_price(u64::MAX, 0).unwrap(), u64::MAX);
}
