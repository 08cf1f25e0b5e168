//! State layout of the macro-regime matcher's context record.

use vstd::prelude::*;

use crate::codec::{u32_le_at, u64_le_at, read_bytes};
use crate::common::magic_matches;

verus! {

/// Type magic of the macro matcher ("MACOMATC" read little-endian).
pub const MACRO_MATCHER_MAGIC: u64 = 0x4d41_434f_4d41_5443;

pub const VERSION_OFFSET: usize = 72;

pub const MODE_OFFSET: usize = 76;

pub const BASE_SPREAD_OFFSET: usize = 112;

pub const REGIME_SPREAD_OFFSET: usize = 116;

pub const MAX_SPREAD_OFFSET: usize = 120;

pub const IMPACT_K_OFFSET: usize = 124;

pub const CURRENT_INDEX_OFFSET: usize = 128;

pub const INDEX_COMPONENTS_PACKED_OFFSET: usize = 136;

pub const LAST_UPDATE_SLOT_OFFSET: usize = 144;

pub const REGIME_OFFSET: usize = 152;

pub const SIGNAL_SEVERITY_OFFSET: usize = 160;

pub const SIGNAL_ADJUSTED_SPREAD_OFFSET: usize = 168;

pub const LIQUIDITY_OFFSET: usize = 176;

pub const MAX_FILL_OFFSET: usize = 192;

pub const MACRO_ORACLE_OFFSET: usize = 208;

pub const TOTAL_VOLUME_OFFSET: usize = 240;

pub const TOTAL_TRADES_OFFSET: usize = 256;

/// Rate offset in bps (+5.00%) that keeps the mark price positive for
/// realistic rate ranges.
pub const RATE_OFFSET: i64 = 500;

pub const SIGNAL_NONE: u64 = 0;

pub const SIGNAL_LOW: u64 = 1;

pub const SIGNAL_HIGH: u64 = 2;

pub const SIGNAL_CRITICAL: u64 = 3;

/// Maximum oracle age before a pricing call is refused (in slots).
pub const MAX_STALENESS_SLOTS: u64 = 150;

/// The macroeconomic regime stored in the record's regime byte.
#[derive(Debug, Clone, Copy, PartialEq, Eq, Structural)]
pub enum MacroRegime {
    Expansion,
    Stagnation,
    Crisis,
    Recovery,
}

/// The regime a stored byte decodes to; out-of-range bytes fall back to
/// the `Stagnation` baseline.
pub open spec fn regime_from_u8_spec(v: u8) -> MacroRegime {
    if v == 0 {
        MacroRegime::Expansion
    } else if v == 1 {
        MacroRegime::Stagnation
    } else if v == 2 {
        MacroRegime::Crisis
    } else if v == 3 {
        MacroRegime::Recovery
    } else {
        MacroRegime::Stagnation
    }
}

/// The percent multiplier a regime applies to the regime spread.
pub open spec fn regime_multiplier_spec(r: MacroRegime) -> u64 {
    match r {
        MacroRegime::Expansion => 60,
        MacroRegime::Stagnation => 100,
        MacroRegime::Crisis => 200,
        MacroRegime::Recovery => 125,
    }
}

impl MacroRegime {
    pub fn from_u8(v: u8) -> (r: Self)
        ensures
            r == regime_from_u8_spec(v),
    {
        match v {
            0 => MacroRegime::Expansion,
            1 => MacroRegime::Stagnation,
            2 => MacroRegime::Crisis,
            3 => MacroRegime::Recovery,
            _ => MacroRegime::Stagnation,
        }
    }

    /// Spread multiplier as a percent scalar (60 = 0.60x, 200 = 2.00x).
    pub fn spread_multiplier(&self) -> (r: u64)
        ensures
            r == regime_multiplier_spec(*self),
    {
        match self {
            MacroRegime::Expansion => 60,
            MacroRegime::Stagnation => 100,
            MacroRegime::Crisis => 200,
            MacroRegime::Recovery => 125,
        }
    }
}

// Spec views of the record's fields.

pub open spec fn mc_base_spread(s: Seq<u8>) -> u32 {
    u32_le_at(s, BASE_SPREAD_OFFSET as int)
}

pub open spec fn mc_regime_spread(s: Seq<u8>) -> u32 {
    u32_le_at(s, REGIME_SPREAD_OFFSET as int)
}

pub open spec fn mc_max_spread(s: Seq<u8>) -> u32 {
    u32_le_at(s, MAX_SPREAD_OFFSET as int)
}

pub open spec fn mc_index(s: Seq<u8>) -> u64 {
    u64_le_at(s, CURRENT_INDEX_OFFSET as int)
}

pub open spec fn mc_last_update_slot(s: Seq<u8>) -> u64 {
    u64_le_at(s, LAST_UPDATE_SLOT_OFFSET as int)
}

pub open spec fn mc_regime(s: Seq<u8>) -> MacroRegime {
    regime_from_u8_spec(s[REGIME_OFFSET as int])
}

pub open spec fn mc_signal_adjustment(s: Seq<u8>) -> u64 {
    u64_le_at(s, SIGNAL_ADJUSTED_SPREAD_OFFSET as int)
}

pub open spec fn mc_total_trades(s: Seq<u8>) -> u64 {
    u64_le_at(s, TOTAL_TRADES_OFFSET as int)
}

pub open spec fn mc_oracle_key(s: Seq<u8>) -> Seq<u8> {
    s.subrange(MACRO_ORACLE_OFFSET as int, MACRO_ORACLE_OFFSET + 32)
}

/// The mark price derived from a real rate in bps:
/// `max(0, (real_rate_bps + 500) * 10000)`.
pub open spec fn mark_price_spec(real_rate_bps: i64) -> int {
    if real_rate_bps + RATE_OFFSET <= 0 {
        0
    } else {
        (real_rate_bps + RATE_OFFSET) * 10000
    }
}

/// Compute the rate-index mark price, floored at zero rather than erring
/// on deeply negative rates.
pub fn compute_mark_price(real_rate_bps: i64) -> (r: u64)
    requires
        real_rate_bps + RATE_OFFSET <= 1_844_674_407_370_955,
    ensures
        r == mark_price_spec(real_rate_bps),
{
    let shifted = real_rate_bps + RATE_OFFSET;
    if shifted <= 0 {
        return 0;
    }
    (shifted as u64) * 10_000
}

/// Magic check specialized to the macro matcher.
pub fn verify_magic(ctx_data: &Vec<u8>) -> (r: bool)
    ensures
        r == magic_matches(ctx_data@, MACRO_MATCHER_MAGIC),
{
    crate::common::verify_magic(ctx_data, MACRO_MATCHER_MAGIC)
}

/// The macro-oracle key bound to the record.
pub fn read_macro_oracle(ctx_data: &Vec<u8>) -> (r: Vec<u8>)
    requires
        ctx_data.len() >= MACRO_ORACLE_OFFSET + 32,
    ensures
        r@ == mc_oracle_key(ctx_data@),
{
    read_bytes(ctx_data, MACRO_ORACLE_OFFSET, 32)
}

} // verus!
