//! State layout of the volatility-regime matcher's context record.

use vstd::prelude::*;

use crate::codec::{u32_le_at, u64_le_at};
use crate::common::magic_matches;

verus! {

/// Type magic of the volatility matcher ("VOLMATCH" read little-endian).
pub const VOL_MATCHER_MAGIC: u64 = 0x564F_4c4d_4154_4348;

pub const VERSION_OFFSET: usize = 72;

pub const MODE_OFFSET: usize = 76;

pub const BASE_SPREAD_OFFSET: usize = 112;

pub const VOV_SPREAD_OFFSET: usize = 116;

pub const MAX_SPREAD_OFFSET: usize = 120;

pub const IMPACT_K_OFFSET: usize = 124;

pub const CURRENT_VOL_OFFSET: usize = 128;

pub const VOL_MARK_PRICE_OFFSET: usize = 136;

pub const LAST_UPDATE_SLOT_OFFSET: usize = 144;

pub const REGIME_OFFSET: usize = 152;

pub const VOL_7D_AVG_OFFSET: usize = 160;

pub const VOL_30D_AVG_OFFSET: usize = 168;

pub const LIQUIDITY_OFFSET: usize = 176;

pub const MAX_FILL_OFFSET: usize = 192;

pub const VARIANCE_TRACKER_OFFSET: usize = 208;

pub const VOL_INDEX_OFFSET: usize = 240;

/// Maximum oracle age before a pricing call is refused (in slots).
pub const VOL_STALENESS_SLOTS: u64 = 100;

/// The volatility regime stored in the record's regime byte.
#[derive(Debug, Clone, Copy, PartialEq, Eq, Structural)]
pub enum VolatilityRegime {
    VeryLow,
    Low,
    Normal,
    High,
    Extreme,
}

/// The regime a stored byte decodes to; out-of-range bytes fall back to
/// the `Normal` baseline.
pub open spec fn vol_regime_from_u8_spec(v: u8) -> VolatilityRegime {
    if v == 0 {
        VolatilityRegime::VeryLow
    } else if v == 1 {
        VolatilityRegime::Low
    } else if v == 2 {
        VolatilityRegime::Normal
    } else if v == 3 {
        VolatilityRegime::High
    } else if v == 4 {
        VolatilityRegime::Extreme
    } else {
        VolatilityRegime::Normal
    }
}

/// The percent multiplier a regime applies to the vol-of-vol spread.
pub open spec fn vol_regime_multiplier_spec(r: VolatilityRegime) -> u64 {
    match r {
        VolatilityRegime::VeryLow => 50,
        VolatilityRegime::Low => 75,
        VolatilityRegime::Normal => 100,
        VolatilityRegime::High => 150,
        VolatilityRegime::Extreme => 250,
    }
}

impl VolatilityRegime {
    pub fn from_u8(v: u8) -> (r: Self)
        ensures
            r == vol_regime_from_u8_spec(v),
    {
        match v {
            0 => VolatilityRegime::VeryLow,
            1 => VolatilityRegime::Low,
            2 => VolatilityRegime::Normal,
            3 => VolatilityRegime::High,
            4 => VolatilityRegime::Extreme,
            _ => VolatilityRegime::Normal,
        }
    }

    /// Spread multiplier as a percent scalar (50 = 0.5x, 250 = 2.5x).
    pub fn spread_multiplier(&self) -> (r: u64)
        ensures
            r == vol_regime_multiplier_spec(*self),
    {
        match self {
            VolatilityRegime::VeryLow => 50,
            VolatilityRegime::Low => 75,
            VolatilityRegime::Normal => 100,
            VolatilityRegime::High => 150,
            VolatilityRegime::Extreme => 250,
        }
    }
}

// Spec views of the record's fields.

pub open spec fn vl_base_spread(s: Seq<u8>) -> u32 {
    u32_le_at(s, BASE_SPREAD_OFFSET as int)
}

pub open spec fn vl_vov_spread(s: Seq<u8>) -> u32 {
    u32_le_at(s, VOV_SPREAD_OFFSET as int)
}

pub open spec fn vl_max_spread(s: Seq<u8>) -> u32 {
    u32_le_at(s, MAX_SPREAD_OFFSET as int)
}

pub open spec fn vl_mark(s: Seq<u8>) -> u64 {
    u64_le_at(s, VOL_MARK_PRICE_OFFSET as int)
}

pub open spec fn vl_last_update_slot(s: Seq<u8>) -> u64 {
    u64_le_at(s, LAST_UPDATE_SLOT_OFFSET as int)
}

pub open spec fn vl_regime(s: Seq<u8>) -> VolatilityRegime {
    vol_regime_from_u8_spec(s[REGIME_OFFSET as int])
}

pub open spec fn vl_variance_tracker(s: Seq<u8>) -> Seq<u8> {
    s.subrange(VARIANCE_TRACKER_OFFSET as int, VARIANCE_TRACKER_OFFSET + 32)
}

pub open spec fn vl_vol_index(s: Seq<u8>) -> Seq<u8> {
    s.subrange(VOL_INDEX_OFFSET as int, VOL_INDEX_OFFSET + 32)
}

/// Magic check specialized to the volatility matcher.
pub fn verify_magic(ctx_data: &Vec<u8>) -> (r: bool)
    ensures
        r == magic_matches(ctx_data@, VOL_MATCHER_MAGIC),
{
    crate::common::verify_magic(ctx_data, VOL_MATCHER_MAGIC)
}

} // verus!
