//! State layout of the KYC-compliance matcher's context record, and the
//! whitelist-entry fields it reads.

use vstd::prelude::*;

use crate::codec::{u32_le_at, u64_le_at, i64_le_at};
use crate::common::magic_matches;

verus! {

/// Type magic of the compliance matcher ("JPYMATCH" read little-endian).
pub const JPY_MATCHER_MAGIC: u64 = 0x4A50_594D_4154_4348;

pub const VERSION_OFFSET: usize = 72;

pub const MODE_OFFSET: usize = 76;

pub const MIN_KYC_LEVEL_OFFSET: usize = 77;

pub const REQUIRE_SAME_JURISDICTION_OFFSET: usize = 78;

pub const KYC_REGISTRY_OFFSET: usize = 112;

pub const BASE_SPREAD_OFFSET: usize = 144;

pub const KYC_DISCOUNT_OFFSET: usize = 148;

pub const MAX_SPREAD_OFFSET: usize = 152;

pub const BLOCKED_JURISDICTIONS_OFFSET: usize = 156;

pub const ORACLE_PRICE_OFFSET: usize = 164;

pub const DAILY_VOLUME_CAP_OFFSET: usize = 172;

pub const CURRENT_DAY_VOLUME_OFFSET: usize = 180;

pub const DAY_RESET_TIMESTAMP_OFFSET: usize = 188;

pub const IMPACT_K_OFFSET: usize = 196;

pub const LIQUIDITY_OFFSET: usize = 200;

pub const MAX_FILL_OFFSET: usize = 216;

/// Whitelist-entry field offsets, owned by the external KYC registry.
pub const WHITELIST_KYC_LEVEL_OFFSET: usize = 40;

pub const WHITELIST_EXPIRY_OFFSET: usize = 48;

pub const WHITELIST_JURISDICTION_OFFSET: usize = 56;

/// KYC levels, lowest to highest.
pub const KYC_BASIC: u8 = 0;

pub const KYC_STANDARD: u8 = 1;

pub const KYC_ENHANCED: u8 = 2;

pub const KYC_INSTITUTIONAL: u8 = 3;

/// Length of the daily-volume window, in seconds.
pub const DAY_WINDOW_SECONDS: i64 = 86400;

// Spec views of the record's fields.

pub open spec fn jp_min_kyc(s: Seq<u8>) -> u8 {
    s[MIN_KYC_LEVEL_OFFSET as int]
}

pub open spec fn jp_require_same_jurisdiction(s: Seq<u8>) -> u8 {
    s[REQUIRE_SAME_JURISDICTION_OFFSET as int]
}

pub open spec fn jp_base_spread(s: Seq<u8>) -> u32 {
    u32_le_at(s, BASE_SPREAD_OFFSET as int)
}

pub open spec fn jp_kyc_discount(s: Seq<u8>) -> u32 {
    u32_le_at(s, KYC_DISCOUNT_OFFSET as int)
}

pub open spec fn jp_max_spread(s: Seq<u8>) -> u32 {
    u32_le_at(s, MAX_SPREAD_OFFSET as int)
}

pub open spec fn jp_blocked_jurisdictions(s: Seq<u8>) -> u8 {
    s[BLOCKED_JURISDICTIONS_OFFSET as int]
}

pub open spec fn jp_oracle_price(s: Seq<u8>) -> u64 {
    u64_le_at(s, ORACLE_PRICE_OFFSET as int)
}

pub open spec fn jp_daily_cap(s: Seq<u8>) -> u64 {
    u64_le_at(s, DAILY_VOLUME_CAP_OFFSET as int)
}

pub open spec fn jp_day_volume(s: Seq<u8>) -> u64 {
    u64_le_at(s, CURRENT_DAY_VOLUME_OFFSET as int)
}

pub open spec fn jp_day_reset(s: Seq<u8>) -> i64 {
    i64_le_at(s, DAY_RESET_TIMESTAMP_OFFSET as int)
}

// Spec views of a whitelist entry.

pub open spec fn wl_kyc_level(w: Seq<u8>) -> u8 {
    w[WHITELIST_KYC_LEVEL_OFFSET as int]
}

pub open spec fn wl_expiry(w: Seq<u8>) -> i64 {
    i64_le_at(w, WHITELIST_EXPIRY_OFFSET as int)
}

pub open spec fn wl_jurisdiction(w: Seq<u8>) -> u8 {
    w[WHITELIST_JURISDICTION_OFFSET as int]
}

/// Magic check specialized to the compliance matcher.
pub fn verify_magic(ctx_data: &Vec<u8>) -> (r: bool)
    ensures
        r == magic_matches(ctx_data@, JPY_MATCHER_MAGIC),
{
    crate::common::verify_magic(ctx_data, JPY_MATCHER_MAGIC)
}

} // verus!
