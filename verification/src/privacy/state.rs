//! State layout of the solver-verified matcher's context record.

use vstd::prelude::*;

use crate::codec::{u32_le_at, u64_le_at, u128_le_at, read_bytes};
use crate::common::magic_matches;

verus! {

/// Type magic of the solver-verified matcher ("PRIVMATC" read
/// little-endian).
pub const PRIVACY_MATCHER_MAGIC: u64 = 0x5052_4956_4d41_5443;

pub const VERSION_OFFSET: usize = 72;

pub const MODE_OFFSET: usize = 76;

pub const SOLVER_PUBKEY_OFFSET: usize = 112;

pub const BASE_SPREAD_OFFSET: usize = 144;

pub const MAX_SPREAD_OFFSET: usize = 148;

pub const SOLVER_FEE_OFFSET: usize = 152;

pub const ORACLE_PRICE_OFFSET: usize = 156;

pub const LAST_EXEC_PRICE_OFFSET: usize = 164;

pub const TOTAL_VOLUME_OFFSET: usize = 172;

pub const TOTAL_ORDERS_OFFSET: usize = 188;

pub const SOLVER_ENCRYPTION_KEY_OFFSET: usize = 196;

// Spec views of the record's fields.

pub open spec fn pv_solver_key(s: Seq<u8>) -> Seq<u8> {
    s.subrange(SOLVER_PUBKEY_OFFSET as int, SOLVER_PUBKEY_OFFSET + 32)
}

pub open spec fn pv_base_spread(s: Seq<u8>) -> u32 {
    u32_le_at(s, BASE_SPREAD_OFFSET as int)
}

pub open spec fn pv_max_spread(s: Seq<u8>) -> u32 {
    u32_le_at(s, MAX_SPREAD_OFFSET as int)
}

pub open spec fn pv_solver_fee(s: Seq<u8>) -> u32 {
    u32_le_at(s, SOLVER_FEE_OFFSET as int)
}

pub open spec fn pv_oracle_price(s: Seq<u8>) -> u64 {
    u64_le_at(s, ORACLE_PRICE_OFFSET as int)
}

pub open spec fn pv_total_volume(s: Seq<u8>) -> u128 {
    u128_le_at(s, TOTAL_VOLUME_OFFSET as int)
}

pub open spec fn pv_total_orders(s: Seq<u8>) -> u64 {
    u64_le_at(s, TOTAL_ORDERS_OFFSET as int)
}

/// Magic check specialized to the solver-verified matcher.
pub fn verify_magic(ctx_data: &Vec<u8>) -> (r: bool)
    ensures
        r == magic_matches(ctx_data@, PRIVACY_MATCHER_MAGIC),
{
    crate::common::verify_magic(ctx_data, PRIVACY_MATCHER_MAGIC)
}

/// The solver key bound to the record for oracle updates.
pub fn read_solver_pubkey(ctx_data: &Vec<u8>) -> (r: Vec<u8>)
    requires
        ctx_data.len() >= SOLVER_PUBKEY_OFFSET + 32,
    ensures
        r@ == pv_solver_key(ctx_data@),
{
    read_bytes(ctx_data, SOLVER_PUBKEY_OFFSET, 32)
}

} // verus!
