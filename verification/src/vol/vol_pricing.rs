//! Handlers of the volatility-regime matcher: initialization,
//! regime-adjusted pricing, and the two-oracle keeper sync.

use vstd::prelude::*;

use crate::codec::{
    read_u32_le, read_u64_le, write_u32_le, write_u64_le, u32_le_at, u64_le_at, copy_into,
    fill_zero, range_equals,
};
use crate::common::{
    lp_pda_check, init_precheck, magic_matches, slots_elapsed, verify_lp_pda,
    verify_init_preconditions, write_header, write_exec_price, compute_exec_price,
    exec_price_full, ProtocolError, CTX_SIZE,
};
use crate::vol::errors::VolMatcherError;
use crate::vol::state::{
    VOL_MATCHER_MAGIC, BASE_SPREAD_OFFSET, VOV_SPREAD_OFFSET, MAX_SPREAD_OFFSET, IMPACT_K_OFFSET,
    CURRENT_VOL_OFFSET, VOL_MARK_PRICE_OFFSET, LAST_UPDATE_SLOT_OFFSET, REGIME_OFFSET,
    VOL_7D_AVG_OFFSET, VOL_30D_AVG_OFFSET, LIQUIDITY_OFFSET, MAX_FILL_OFFSET,
    VARIANCE_TRACKER_OFFSET, VOL_INDEX_OFFSET, VOL_STALENESS_SLOTS, VolatilityRegime,
    vol_regime_multiplier_spec, vl_base_spread, vl_vov_spread, vl_max_spread, vl_mark,
    vl_last_update_slot, vl_regime, vl_variance_tracker, vl_vol_index,
};

verus! {

// ---------------------------------------------------------------------------
// Spec: the regime-adjusted spread.
// ---------------------------------------------------------------------------

/// Total spread: base + regime-scaled vol-of-vol component, capped at
/// `max_spread`.
pub open spec fn vol_total_spread_spec(
    base_spread: u32,
    vov_spread: u32,
    max_spread: u32,
    regime: VolatilityRegime,
) -> u64 {
    let adjusted = (vov_spread * vol_regime_multiplier_spec(regime)) / 100;
    let sum = base_spread + adjusted;
    if sum > max_spread {
        max_spread as u64
    } else {
        sum as u64
    }
}

/// The exact execution price of a pricing call: the volatility mark
/// scaled by the total spread. A successful call writes it; one on which
/// it does not fit 64 bits fails with `ArithmeticOverflow` instead.
pub open spec fn vol_match_price(ctx: Seq<u8>) -> int {
    exec_price_full(
        vl_mark(ctx),
        vol_total_spread_spec(
            vl_base_spread(ctx),
            vl_vov_spread(ctx),
            vl_max_spread(ctx),
            vl_regime(ctx),
        ),
    )
}

// ---------------------------------------------------------------------------
// Spec: outcomes and state changes of each handler.
// ---------------------------------------------------------------------------

/// Decision of `process_init`.
pub open spec fn vol_init_outcome(
    ctx_is_writable: bool,
    ctx: Seq<u8>,
    data: Seq<u8>,
) -> Result<(), ProtocolError> {
    if data.len() < 114 {
        Err(ProtocolError::InvalidInstructionData)
    } else {
        init_precheck(ctx_is_writable, ctx, VOL_MATCHER_MAGIC)
    }
}

/// The record a successful `process_init` leaves behind.
pub open spec fn vol_init_written(
    old_s: Seq<u8>,
    new_s: Seq<u8>,
    data: Seq<u8>,
    lp_pda: Seq<u8>,
) -> bool {
    &&& new_s.len() == old_s.len()
    &&& forall|j: int| 0 <= j < 64 ==> new_s[j] == 0
    &&& u64_le_at(new_s, 64) == VOL_MATCHER_MAGIC
    &&& u32_le_at(new_s, 72) == 1
    &&& new_s[76] == data[1]
    &&& forall|j: int| 77 <= j < 80 ==> new_s[j] == 0
    &&& new_s.subrange(80, 112) == lp_pda
    &&& u32_le_at(new_s, BASE_SPREAD_OFFSET as int) == u32_le_at(data, 2)
    &&& u32_le_at(new_s, VOV_SPREAD_OFFSET as int) == u32_le_at(data, 6)
    &&& u32_le_at(new_s, MAX_SPREAD_OFFSET as int) == u32_le_at(data, 10)
    &&& u32_le_at(new_s, IMPACT_K_OFFSET as int) == u32_le_at(data, 14)
    &&& u64_le_at(new_s, CURRENT_VOL_OFFSET as int) == 0
    &&& u64_le_at(new_s, VOL_MARK_PRICE_OFFSET as int) == 0
    &&& u64_le_at(new_s, LAST_UPDATE_SLOT_OFFSET as int) == 0
    &&& new_s[REGIME_OFFSET as int] == 2
    &&& forall|j: int| REGIME_OFFSET + 1 <= j < REGIME_OFFSET + 8 ==> new_s[j] == 0
    &&& u64_le_at(new_s, VOL_7D_AVG_OFFSET as int) == 0
    &&& u64_le_at(new_s, VOL_30D_AVG_OFFSET as int) == 0
    &&& new_s.subrange(LIQUIDITY_OFFSET as int, LIQUIDITY_OFFSET + 16) == data.subrange(18, 34)
    &&& new_s.subrange(MAX_FILL_OFFSET as int, MAX_FILL_OFFSET + 16) == data.subrange(34, 50)
    &&& new_s.subrange(VARIANCE_TRACKER_OFFSET as int, VARIANCE_TRACKER_OFFSET + 32)
        == data.subrange(50, 82)
    &&& new_s.subrange(VOL_INDEX_OFFSET as int, VOL_INDEX_OFFSET + 32) == data.subrange(82, 114)
    &&& forall|j: int| 272 <= j < CTX_SIZE ==> new_s[j] == 0
    &&& forall|j: int| CTX_SIZE <= j < new_s.len() ==> new_s[j] == old_s[j]
}

/// Decision of `process_match`: authority check, synced guard, staleness
/// guard.
pub open spec fn vol_match_outcome(
    lp_is_signer: bool,
    lp_key: Seq<u8>,
    ctx: Seq<u8>,
    current_slot: u64,
) -> Result<(), ProtocolError> {
    match lp_pda_check(lp_is_signer, lp_key, ctx, VOL_MATCHER_MAGIC) {
        Err(e) => Err(e),
        Ok(()) => if vl_mark(ctx) == 0 {
            Err(VolMatcherError::OracleNotSynced.as_protocol())
        } else if slots_elapsed(current_slot, vl_last_update_slot(ctx)) > VOL_STALENESS_SLOTS {
            Err(VolMatcherError::OracleStale.as_protocol())
        } else if vol_match_price(ctx) > u64::MAX {
            Err(ProtocolError::ArithmeticOverflow)
        } else {
            Ok(())
        },
    }
}

/// Decision of `process_oracle_sync`: both supplied oracle accounts must
/// match the two bound at initialization, and the regime must be in range.
pub open spec fn vol_sync_outcome(
    ctx_is_writable: bool,
    ctx: Seq<u8>,
    variance_tracker_key: Seq<u8>,
    vol_index_key: Seq<u8>,
    data: Seq<u8>,
) -> Result<(), ProtocolError> {
    if data.len() < 34 {
        Err(ProtocolError::InvalidInstructionData)
    } else if !ctx_is_writable {
        Err(ProtocolError::InvalidAccountData)
    } else if !magic_matches(ctx, VOL_MATCHER_MAGIC) {
        Err(ProtocolError::UninitializedAccount)
    } else if variance_tracker_key != vl_variance_tracker(ctx) {
        Err(VolMatcherError::OracleAccountMismatch.as_protocol())
    } else if vol_index_key != vl_vol_index(ctx) {
        Err(VolMatcherError::OracleAccountMismatch.as_protocol())
    } else if data[17] > 4 {
        Err(VolMatcherError::InvalidRegime.as_protocol())
    } else {
        Ok(())
    }
}

/// The record a successful `process_oracle_sync` leaves behind.
pub open spec fn vol_sync_written(
    old_s: Seq<u8>,
    new_s: Seq<u8>,
    data: Seq<u8>,
    current_slot: u64,
) -> bool {
    &&& new_s.len() == old_s.len()
    &&& u64_le_at(new_s, CURRENT_VOL_OFFSET as int) == u64_le_at(data, 1)
    &&& u64_le_at(new_s, VOL_MARK_PRICE_OFFSET as int) == u64_le_at(data, 9)
    &&& u64_le_at(new_s, LAST_UPDATE_SLOT_OFFSET as int) == current_slot
    &&& new_s[REGIME_OFFSET as int] == data[17]
    &&& u64_le_at(new_s, VOL_7D_AVG_OFFSET as int) == u64_le_at(data, 18)
    &&& u64_le_at(new_s, VOL_30D_AVG_OFFSET as int) == u64_le_at(data, 26)
    &&& forall|j: int|
        0 <= j < new_s.len() && !(CURRENT_VOL_OFFSET <= j < LAST_UPDATE_SLOT_OFFSET + 8) && j
            != REGIME_OFFSET && !(VOL_7D_AVG_OFFSET <= j < VOL_30D_AVG_OFFSET + 8) ==> new_s[j]
            == old_s[j]
}

// ---------------------------------------------------------------------------
// Laws of the volatility matcher.
// ---------------------------------------------------------------------------

/// The total spread never exceeds the configured maximum.
pub proof fn lemma_vol_spread_capped(
    base_spread: u32,
    vov_spread: u32,
    max_spread: u32,
    regime: VolatilityRegime,
)
    ensures
        vol_total_spread_spec(base_spread, vov_spread, max_spread, regime) <= max_spread,
{
    assert(0 <= vov_spread * vol_regime_multiplier_spec(regime)) by (nonlinear_arith);
}

/// Once initialized, the keeper sync never touches the record's magic or
/// its authority-binding key.
pub proof fn lemma_vol_sync_preserves_binding(
    old_s: Seq<u8>,
    new_s: Seq<u8>,
    data: Seq<u8>,
    current_slot: u64,
)
    requires
        old_s.len() >= CTX_SIZE,
    ensures
        vol_sync_written(old_s, new_s, data, current_slot)
            ==> crate::common::header_binding_preserved(old_s, new_s),
{
    if vol_sync_written(old_s, new_s, data, current_slot) {
        assert(crate::common::spec_lp_pda(new_s) =~= crate::common::spec_lp_pda(old_s));
    }
}

// ---------------------------------------------------------------------------
// Exec: the handlers.
// ---------------------------------------------------------------------------

/// Initialize a volatility-matcher context record.
pub fn process_init(
    lp_key: &Vec<u8>,
    ctx_is_writable: bool,
    ctx_data: &mut Vec<u8>,
    data: &Vec<u8>,
) -> (r: Result<(), ProtocolError>)
    requires
        lp_key.len() == 32,
    ensures
        r == vol_init_outcome(ctx_is_writable, old(ctx_data)@, data@),
        r is Err ==> final(ctx_data)@ == old(ctx_data)@,
        r is Ok ==> vol_init_written(old(ctx_data)@, final(ctx_data)@, data@, lp_key@),
{
    if data.len() < 114 {
        return Err(ProtocolError::InvalidInstructionData);
    }
    match verify_init_preconditions(ctx_is_writable, ctx_data, VOL_MATCHER_MAGIC) {
        Err(e) => {
            return Err(e);
        },
        Ok(()) => {},
    }

    write_header(ctx_data, VOL_MATCHER_MAGIC, data[1], lp_key);
    proof {
        let s = ctx_data@;
        assert forall|k: int| 0 <= k < 32 implies s[80 + k] == lp_key@[k] by {
            assert(s.subrange(80, 112)[k] == lp_key@[k]);
        }
    }

    write_u32_le(ctx_data, BASE_SPREAD_OFFSET, read_u32_le(data, 2));
    write_u32_le(ctx_data, VOV_SPREAD_OFFSET, read_u32_le(data, 6));
    write_u32_le(ctx_data, MAX_SPREAD_OFFSET, read_u32_le(data, 10));
    write_u32_le(ctx_data, IMPACT_K_OFFSET, read_u32_le(data, 14));

    write_u64_le(ctx_data, CURRENT_VOL_OFFSET, 0);
    write_u64_le(ctx_data, VOL_MARK_PRICE_OFFSET, 0);
    write_u64_le(ctx_data, LAST_UPDATE_SLOT_OFFSET, 0);
    ctx_data[REGIME_OFFSET] = 2;
    fill_zero(ctx_data, REGIME_OFFSET + 1, 7);
    write_u64_le(ctx_data, VOL_7D_AVG_OFFSET, 0);
    write_u64_le(ctx_data, VOL_30D_AVG_OFFSET, 0);

    copy_into(ctx_data, LIQUIDITY_OFFSET, data, 18, 16);
    proof {
        let s = ctx_data@;
        assert forall|k: int| 0 <= k < 16 implies #[trigger] s[LIQUIDITY_OFFSET + k] == data@[18
            + k] by {
            assert(s.subrange(LIQUIDITY_OFFSET as int, LIQUIDITY_OFFSET + 16)[k] == data@.subrange(
                18,
                34,
            )[k]);
        }
    }
    copy_into(ctx_data, MAX_FILL_OFFSET, data, 34, 16);
    proof {
        let s = ctx_data@;
        assert forall|k: int| 0 <= k < 16 implies #[trigger] s[MAX_FILL_OFFSET + k] == data@[34
            + k] by {
            assert(s.subrange(MAX_FILL_OFFSET as int, MAX_FILL_OFFSET + 16)[k] == data@.subrange(
                34,
                50,
            )[k]);
        }
    }
    copy_into(ctx_data, VARIANCE_TRACKER_OFFSET, data, 50, 32);
    proof {
        let s = ctx_data@;
        assert forall|k: int| 0 <= k < 32 implies #[trigger] s[VARIANCE_TRACKER_OFFSET + k]
            == data@[50 + k] by {
            assert(s.subrange(VARIANCE_TRACKER_OFFSET as int, VARIANCE_TRACKER_OFFSET + 32)[k]
                == data@.subrange(50, 82)[k]);
        }
    }
    copy_into(ctx_data, VOL_INDEX_OFFSET, data, 82, 32);
    proof {
        let s = ctx_data@;
        assert forall|k: int| 0 <= k < 32 implies #[trigger] s[VOL_INDEX_OFFSET + k] == data@[82
            + k] by {
            assert(s.subrange(VOL_INDEX_OFFSET as int, VOL_INDEX_OFFSET + 32)[k] == data@.subrange(
                82,
                114,
            )[k]);
        }
    }

    fill_zero(ctx_data, 272, CTX_SIZE - 272);

    proof {
        assert(ctx_data@.subrange(80, 112) =~= lp_key@);
        assert(ctx_data@.subrange(LIQUIDITY_OFFSET as int, LIQUIDITY_OFFSET + 16) =~= data@.subrange(
            18,
            34,
        ));
        assert(ctx_data@.subrange(MAX_FILL_OFFSET as int, MAX_FILL_OFFSET + 16) =~= data@.subrange(
            34,
            50,
        ));
        assert(ctx_data@.subrange(VARIANCE_TRACKER_OFFSET as int, VARIANCE_TRACKER_OFFSET + 32)
            =~= data@.subrange(50, 82));
        assert(ctx_data@.subrange(VOL_INDEX_OFFSET as int, VOL_INDEX_OFFSET + 32) =~= data@.subrange(
            82,
            114,
        ));
    }

    Ok(())
}

/// Execute a pricing call: verify the authority, guard mark presence and
/// staleness, and write the regime-adjusted price to the return channel.
pub fn process_match(
    lp_is_signer: bool,
    lp_key: &Vec<u8>,
    ctx_data: &mut Vec<u8>,
    current_slot: u64,
) -> (r: Result<(), ProtocolError>)
    requires
        lp_key.len() == 32,
    ensures
        r == vol_match_outcome(lp_is_signer, lp_key@, old(ctx_data)@, current_slot),
        r is Err ==> final(ctx_data)@ == old(ctx_data)@,
        r is Ok ==> {
            &&& final(ctx_data)@.len() == old(ctx_data)@.len()
            &&& u64_le_at(final(ctx_data)@, 0) == vol_match_price(old(ctx_data)@)
            &&& forall|j: int|
                8 <= j < final(ctx_data)@.len() ==> final(ctx_data)@[j] == old(ctx_data)@[j]
        },
{
    match verify_lp_pda(lp_is_signer, lp_key, ctx_data, VOL_MATCHER_MAGIC) {
        Err(e) => {
            return Err(e);
        },
        Ok(()) => {},
    }

    let base_spread = read_u32_le(ctx_data, BASE_SPREAD_OFFSET);
    let vov_spread = read_u32_le(ctx_data, VOV_SPREAD_OFFSET);
    let max_spread = read_u32_le(ctx_data, MAX_SPREAD_OFFSET);
    let vol_mark = read_u64_le(ctx_data, VOL_MARK_PRICE_OFFSET);
    let regime = VolatilityRegime::from_u8(ctx_data[REGIME_OFFSET]);

    if vol_mark == 0 {
        return Err(VolMatcherError::OracleNotSynced.into_protocol());
    }

    let last_update = read_u64_le(ctx_data, LAST_UPDATE_SLOT_OFFSET);
    if current_slot.saturating_sub(last_update) > VOL_STALENESS_SLOTS {
        return Err(VolMatcherError::OracleStale.into_protocol());
    }

    let regime_multiplier = regime.spread_multiplier();
    proof {
        assert((vov_spread as u64) * regime_multiplier <= 0xffff_ffffu64 * 250)
            by (nonlinear_arith)
            requires
                vov_spread <= 0xffff_ffffu32,
                regime_multiplier <= 250,
        ;
    }
    let adjusted_vov = match (vov_spread as u64).checked_mul(regime_multiplier) {
        Some(x) => x / 100,
        None => {
            return Err(VolMatcherError::ArithmeticOverflow.into_protocol());
        },
    };

    let spread_sum = (base_spread as u64).saturating_add(adjusted_vov);
    let total_spread = if spread_sum < (max_spread as u64) {
        spread_sum
    } else {
        max_spread as u64
    };

    let exec_price = match compute_exec_price(vol_mark, total_spread) {
        Ok(p) => p,
        Err(e) => {
            return Err(e);
        },
    };

    write_exec_price(ctx_data, exec_price);
    Ok(())
}

/// Keeper sync: both supplied oracle accounts must match the ones bound
/// at initialization; updates the volatility state and refreshes the
/// staleness timestamp.
pub fn process_oracle_sync(
    ctx_is_writable: bool,
    ctx_data: &mut Vec<u8>,
    variance_tracker_key: &Vec<u8>,
    vol_index_key: &Vec<u8>,
    data: &Vec<u8>,
    current_slot: u64,
) -> (r: Result<(), ProtocolError>)
    requires
        variance_tracker_key.len() == 32,
        vol_index_key.len() == 32,
    ensures
        r == vol_sync_outcome(
            ctx_is_writable,
            old(ctx_data)@,
            variance_tracker_key@,
            vol_index_key@,
            data@,
        ),
        r is Err ==> final(ctx_data)@ == old(ctx_data)@,
        r is Ok ==> vol_sync_written(old(ctx_data)@, final(ctx_data)@, data@, current_slot),
{
    if data.len() < 34 {
        return Err(ProtocolError::InvalidInstructionData);
    }
    if !ctx_is_writable {
        return Err(ProtocolError::InvalidAccountData);
    }
    if !crate::vol::state::verify_magic(ctx_data) {
        return Err(ProtocolError::UninitializedAccount);
    }
    if !range_equals(ctx_data, VARIANCE_TRACKER_OFFSET, variance_tracker_key) {
        return Err(VolMatcherError::OracleAccountMismatch.into_protocol());
    }
    if !range_equals(ctx_data, VOL_INDEX_OFFSET, vol_index_key) {
        return Err(VolMatcherError::OracleAccountMismatch.into_protocol());
    }

    let current_vol = read_u64_le(data, 1);
    let vol_mark = read_u64_le(data, 9);
    let regime = data[17];
    let vol_7d = read_u64_le(data, 18);
    let vol_30d = read_u64_le(data, 26);

    if regime > 4 {
        return Err(VolMatcherError::InvalidRegime.into_protocol());
    }

    write_u64_le(ctx_data, CURRENT_VOL_OFFSET, current_vol);
    write_u64_le(ctx_data, VOL_MARK_PRICE_OFFSET, vol_mark);
    write_u64_le(ctx_data, LAST_UPDATE_SLOT_OFFSET, current_slot);
    ctx_data[REGIME_OFFSET] = regime;
    write_u64_le(ctx_data, VOL_7D_AVG_OFFSET, vol_7d);
    write_u64_le(ctx_data, VOL_30D_AVG_OFFSET, vol_30d);

    Ok(())
}

} // verus!
