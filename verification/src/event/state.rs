//! State layout of the event-probability matcher's context record.

use vstd::prelude::*;

use crate::codec::{u32_le_at, u64_le_at, i64_le_at, read_bytes};
use crate::common::magic_matches;

verus! {

/// Type magic of the event matcher ("EVNTMATC" read little-endian).
pub const EVENT_MATCHER_MAGIC: u64 = 0x4556_4e54_4d41_5443;

pub const VERSION_OFFSET: usize = 72;

pub const MODE_OFFSET: usize = 76;

pub const BASE_SPREAD_OFFSET: usize = 112;

pub const EDGE_SPREAD_OFFSET: usize = 116;

pub const MAX_SPREAD_OFFSET: usize = 120;

pub const IMPACT_K_OFFSET: usize = 124;

pub const CURRENT_PROBABILITY_OFFSET: usize = 128;

pub const PROBABILITY_MARK_OFFSET: usize = 136;

pub const LAST_UPDATE_SLOT_OFFSET: usize = 144;

pub const RESOLUTION_TIMESTAMP_OFFSET: usize = 152;

pub const IS_RESOLVED_OFFSET: usize = 160;

pub const RESOLUTION_OUTCOME_OFFSET: usize = 161;

pub const SIGNAL_SEVERITY_OFFSET: usize = 168;

pub const SIGNAL_ADJUSTED_SPREAD_OFFSET: usize = 176;

pub const LIQUIDITY_OFFSET: usize = 184;

pub const MAX_FILL_OFFSET: usize = 200;

pub const EVENT_ORACLE_OFFSET: usize = 216;

/// Maximum probability value (100% in fixed point, 1e6 = 100%).
pub const MAX_PROBABILITY: u64 = 1_000_000;

pub const SIGNAL_NONE: u64 = 0;

pub const SIGNAL_LOW: u64 = 1;

pub const SIGNAL_HIGH: u64 = 2;

pub const SIGNAL_CRITICAL: u64 = 3;

// Spec views of the record's fields.

pub open spec fn ev_base_spread(s: Seq<u8>) -> u32 {
    u32_le_at(s, BASE_SPREAD_OFFSET as int)
}

pub open spec fn ev_edge_spread(s: Seq<u8>) -> u32 {
    u32_le_at(s, EDGE_SPREAD_OFFSET as int)
}

pub open spec fn ev_max_spread(s: Seq<u8>) -> u32 {
    u32_le_at(s, MAX_SPREAD_OFFSET as int)
}

pub open spec fn ev_probability(s: Seq<u8>) -> u64 {
    u64_le_at(s, CURRENT_PROBABILITY_OFFSET as int)
}

pub open spec fn ev_mark(s: Seq<u8>) -> u64 {
    u64_le_at(s, PROBABILITY_MARK_OFFSET as int)
}

pub open spec fn ev_last_update_slot(s: Seq<u8>) -> u64 {
    u64_le_at(s, LAST_UPDATE_SLOT_OFFSET as int)
}

pub open spec fn ev_resolution_timestamp(s: Seq<u8>) -> i64 {
    i64_le_at(s, RESOLUTION_TIMESTAMP_OFFSET as int)
}

pub open spec fn ev_is_resolved(s: Seq<u8>) -> bool {
    s[IS_RESOLVED_OFFSET as int] == 1
}

pub open spec fn ev_signal_severity(s: Seq<u8>) -> u64 {
    u64_le_at(s, SIGNAL_SEVERITY_OFFSET as int)
}

pub open spec fn ev_signal_adjustment(s: Seq<u8>) -> u64 {
    u64_le_at(s, SIGNAL_ADJUSTED_SPREAD_OFFSET as int)
}

pub open spec fn ev_oracle_key(s: Seq<u8>) -> Seq<u8> {
    s.subrange(EVENT_ORACLE_OFFSET as int, EVENT_ORACLE_OFFSET + 32)
}

/// Magic check specialized to the event matcher.
pub fn verify_magic(ctx_data: &Vec<u8>) -> (r: bool)
    ensures
        r == magic_matches(ctx_data@, EVENT_MATCHER_MAGIC),
{
    crate::common::verify_magic(ctx_data, EVENT_MATCHER_MAGIC)
}

/// The event-oracle key bound to the record.
pub fn read_event_oracle(ctx_data: &Vec<u8>) -> (r: Vec<u8>)
    requires
        ctx_data.len() >= EVENT_ORACLE_OFFSET + 32,
    ensures
        r@ == ev_oracle_key(ctx_data@),
{
    read_bytes(ctx_data, EVENT_ORACLE_OFFSET, 32)
}

} // verus!
