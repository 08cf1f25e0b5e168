//! Handlers of the macro-regime matcher: initialization, regime-adjusted
//! pricing, keeper index sync, and regime updates.

use vstd::prelude::*;

use crate::codec::{
    read_u32_le, read_u64_le, write_u32_le, write_u64_le, write_u128_le, u32_le_at, u64_le_at,
    u128_le_at, copy_into, fill_zero, range_equals,
};
use crate::common::{
    lp_pda_check, init_precheck, magic_matches, slots_elapsed, verify_lp_pda,
    verify_init_preconditions, write_header, write_exec_price, compute_exec_price,
    exec_price_full, ProtocolError, CTX_SIZE,
};
use crate::macro_matcher::errors::MacroMatcherError;
use crate::macro_matcher::state::{
    MACRO_MATCHER_MAGIC, BASE_SPREAD_OFFSET, REGIME_SPREAD_OFFSET, MAX_SPREAD_OFFSET,
    IMPACT_K_OFFSET, CURRENT_INDEX_OFFSET, INDEX_COMPONENTS_PACKED_OFFSET,
    LAST_UPDATE_SLOT_OFFSET, REGIME_OFFSET, SIGNAL_SEVERITY_OFFSET,
    SIGNAL_ADJUSTED_SPREAD_OFFSET, LIQUIDITY_OFFSET, MAX_FILL_OFFSET, MACRO_ORACLE_OFFSET,
    TOTAL_VOLUME_OFFSET, TOTAL_TRADES_OFFSET, SIGNAL_CRITICAL, MAX_STALENESS_SLOTS, MacroRegime,
    regime_multiplier_spec, mc_base_spread, mc_regime_spread, mc_max_spread, mc_index,
    mc_last_update_slot, mc_regime, mc_signal_adjustment, mc_total_trades, mc_oracle_key,
};

verus! {

// ---------------------------------------------------------------------------
// Spec: the regime-adjusted spread.
// ---------------------------------------------------------------------------

/// Total spread: base + regime-scaled component + signal adjustment,
/// capped at `max_spread`.
pub open spec fn macro_total_spread_spec(
    base_spread: u32,
    regime_spread: u32,
    max_spread: u32,
    regime: MacroRegime,
    signal_adj: u64,
) -> u64 {
    let adjusted = (regime_spread * regime_multiplier_spec(regime)) / 100;
    let sum = base_spread + adjusted + signal_adj;
    if sum > max_spread {
        max_spread as u64
    } else {
        sum as u64
    }
}

/// The exact execution price of a pricing call: the rate index scaled by
/// the total spread. A successful call writes it; one on which it does
/// not fit 64 bits fails with `ArithmeticOverflow` instead.
pub open spec fn macro_match_price(ctx: Seq<u8>) -> int {
    exec_price_full(
        mc_index(ctx),
        macro_total_spread_spec(
            mc_base_spread(ctx),
            mc_regime_spread(ctx),
            mc_max_spread(ctx),
            mc_regime(ctx),
            mc_signal_adjustment(ctx),
        ),
    )
}

// ---------------------------------------------------------------------------
// Spec: outcomes and state changes of each handler.
// ---------------------------------------------------------------------------

/// Decision of `process_init`.
pub open spec fn macro_init_outcome(
    ctx_is_writable: bool,
    ctx: Seq<u8>,
    data: Seq<u8>,
) -> Result<(), ProtocolError> {
    if data.len() < 82 {
        Err(ProtocolError::InvalidInstructionData)
    } else {
        init_precheck(ctx_is_writable, ctx, MACRO_MATCHER_MAGIC)
    }
}

/// The record a successful `process_init` leaves behind.
pub open spec fn macro_init_written(
    old_s: Seq<u8>,
    new_s: Seq<u8>,
    data: Seq<u8>,
    lp_pda: Seq<u8>,
) -> bool {
    &&& new_s.len() == old_s.len()
    &&& forall|j: int| 0 <= j < 64 ==> new_s[j] == 0
    &&& u64_le_at(new_s, 64) == MACRO_MATCHER_MAGIC
    &&& u32_le_at(new_s, 72) == 1
    &&& new_s[76] == data[1]
    &&& forall|j: int| 77 <= j < 80 ==> new_s[j] == 0
    &&& new_s.subrange(80, 112) == lp_pda
    &&& u32_le_at(new_s, BASE_SPREAD_OFFSET as int) == u32_le_at(data, 2)
    &&& u32_le_at(new_s, REGIME_SPREAD_OFFSET as int) == u32_le_at(data, 6)
    &&& u32_le_at(new_s, MAX_SPREAD_OFFSET as int) == u32_le_at(data, 10)
    &&& u32_le_at(new_s, IMPACT_K_OFFSET as int) == u32_le_at(data, 14)
    &&& u64_le_at(new_s, CURRENT_INDEX_OFFSET as int) == 0
    &&& u64_le_at(new_s, INDEX_COMPONENTS_PACKED_OFFSET as int) == 0
    &&& u64_le_at(new_s, LAST_UPDATE_SLOT_OFFSET as int) == 0
    &&& new_s[REGIME_OFFSET as int] == 1
    &&& forall|j: int| REGIME_OFFSET + 1 <= j < REGIME_OFFSET + 8 ==> new_s[j] == 0
    &&& u64_le_at(new_s, SIGNAL_SEVERITY_OFFSET as int) == 0
    &&& u64_le_at(new_s, SIGNAL_ADJUSTED_SPREAD_OFFSET as int) == 0
    &&& new_s.subrange(LIQUIDITY_OFFSET as int, LIQUIDITY_OFFSET + 16) == data.subrange(18, 34)
    &&& new_s.subrange(MAX_FILL_OFFSET as int, MAX_FILL_OFFSET + 16) == data.subrange(34, 50)
    &&& new_s.subrange(MACRO_ORACLE_OFFSET as int, MACRO_ORACLE_OFFSET + 32) == data.subrange(
        50,
        82,
    )
    &&& u128_le_at(new_s, TOTAL_VOLUME_OFFSET as int) == 0
    &&& u64_le_at(new_s, TOTAL_TRADES_OFFSET as int) == 0
    &&& forall|j: int| 264 <= j < CTX_SIZE ==> new_s[j] == 0
    &&& forall|j: int| CTX_SIZE <= j < new_s.len() ==> new_s[j] == old_s[j]
}

/// Decision of `process_match`: authority check, index-synced guard,
/// staleness guard.
pub open spec fn macro_match_outcome(
    lp_is_signer: bool,
    lp_key: Seq<u8>,
    ctx: Seq<u8>,
    current_slot: u64,
) -> Result<(), ProtocolError> {
    match lp_pda_check(lp_is_signer, lp_key, ctx, MACRO_MATCHER_MAGIC) {
        Err(e) => Err(e),
        Ok(()) => if mc_index(ctx) == 0 {
            Err(MacroMatcherError::IndexNotSynced.as_protocol())
        } else if slots_elapsed(current_slot, mc_last_update_slot(ctx)) > MAX_STALENESS_SLOTS {
            Err(MacroMatcherError::OracleStale.as_protocol())
        } else if macro_match_price(ctx) > u64::MAX {
            Err(ProtocolError::ArithmeticOverflow)
        } else {
            Ok(())
        },
    }
}

/// The record a successful `process_match` leaves behind: the price in
/// the return channel and the trade counter bumped (saturating).
pub open spec fn macro_match_written(old_s: Seq<u8>, new_s: Seq<u8>) -> bool {
    &&& new_s.len() == old_s.len()
    &&& u64_le_at(new_s, 0) == macro_match_price(old_s)
    &&& u64_le_at(new_s, TOTAL_TRADES_OFFSET as int) == (if mc_total_trades(old_s) == u64::MAX {
        u64::MAX
    } else {
        (mc_total_trades(old_s) + 1) as u64
    })
    &&& forall|j: int|
        0 <= j < new_s.len() && !(0 <= j < 8) && !(TOTAL_TRADES_OFFSET <= j < TOTAL_TRADES_OFFSET
            + 8) ==> new_s[j] == old_s[j]
}

/// Decision of `process_index_sync`.
pub open spec fn macro_sync_outcome(
    ctx_is_writable: bool,
    ctx: Seq<u8>,
    oracle_key: Seq<u8>,
    data: Seq<u8>,
) -> Result<(), ProtocolError> {
    if data.len() < 33 {
        Err(ProtocolError::InvalidInstructionData)
    } else if !ctx_is_writable {
        Err(ProtocolError::InvalidAccountData)
    } else if !magic_matches(ctx, MACRO_MATCHER_MAGIC) {
        Err(ProtocolError::UninitializedAccount)
    } else if oracle_key != mc_oracle_key(ctx) {
        Err(MacroMatcherError::OracleMismatch.as_protocol())
    } else if u64_le_at(data, 17) > SIGNAL_CRITICAL {
        Err(MacroMatcherError::InvalidSignalSeverity.as_protocol())
    } else {
        Ok(())
    }
}

/// The record a successful `process_index_sync` leaves behind.
pub open spec fn macro_sync_written(
    old_s: Seq<u8>,
    new_s: Seq<u8>,
    data: Seq<u8>,
    current_slot: u64,
) -> bool {
    &&& new_s.len() == old_s.len()
    &&& u64_le_at(new_s, CURRENT_INDEX_OFFSET as int) == u64_le_at(data, 1)
    &&& u64_le_at(new_s, INDEX_COMPONENTS_PACKED_OFFSET as int) == u64_le_at(data, 9)
    &&& u64_le_at(new_s, LAST_UPDATE_SLOT_OFFSET as int) == current_slot
    &&& u64_le_at(new_s, SIGNAL_SEVERITY_OFFSET as int) == u64_le_at(data, 17)
    &&& u64_le_at(new_s, SIGNAL_ADJUSTED_SPREAD_OFFSET as int) == u64_le_at(data, 25)
    &&& forall|j: int|
        0 <= j < new_s.len() && !(CURRENT_INDEX_OFFSET <= j < LAST_UPDATE_SLOT_OFFSET + 8) && !(
        SIGNAL_SEVERITY_OFFSET <= j < SIGNAL_ADJUSTED_SPREAD_OFFSET + 8) ==> new_s[j] == old_s[j]
}

/// Decision of `process_regime_update`.
pub open spec fn macro_regime_update_outcome(
    ctx_is_writable: bool,
    ctx: Seq<u8>,
    oracle_is_signer: bool,
    oracle_key: Seq<u8>,
    data: Seq<u8>,
) -> Result<(), ProtocolError> {
    if data.len() < 2 {
        Err(ProtocolError::InvalidInstructionData)
    } else if !oracle_is_signer {
        Err(ProtocolError::MissingRequiredSignature)
    } else if !ctx_is_writable {
        Err(ProtocolError::InvalidAccountData)
    } else if !magic_matches(ctx, MACRO_MATCHER_MAGIC) {
        Err(ProtocolError::UninitializedAccount)
    } else if oracle_key != mc_oracle_key(ctx) {
        Err(MacroMatcherError::OracleMismatch.as_protocol())
    } else if data[1] > 3 {
        Err(MacroMatcherError::InvalidRegime.as_protocol())
    } else {
        Ok(())
    }
}

// ---------------------------------------------------------------------------
// Laws of the macro matcher.
// ---------------------------------------------------------------------------

/// The total spread never exceeds the configured maximum.
pub proof fn lemma_macro_spread_capped(
    base_spread: u32,
    regime_spread: u32,
    max_spread: u32,
    regime: MacroRegime,
    signal_adj: u64,
)
    ensures
        macro_total_spread_spec(base_spread, regime_spread, max_spread, regime, signal_adj)
            <= max_spread,
{
    assert(0 <= regime_spread * regime_multiplier_spec(regime)) by (nonlinear_arith);
}

/// Once initialized, the macro handlers never touch the record's magic
/// or its authority-binding key: the pricing, sync and regime-update
/// transitions preserve the header binding.
pub proof fn lemma_macro_writes_preserve_binding(
    old_s: Seq<u8>,
    new_s: Seq<u8>,
    data: Seq<u8>,
    current_slot: u64,
    new_regime: u8,
)
    requires
        old_s.len() >= CTX_SIZE,
    ensures
        macro_match_written(old_s, new_s) ==> crate::common::header_binding_preserved(
            old_s,
            new_s,
        ),
        macro_sync_written(old_s, new_s, data, current_slot)
            ==> crate::common::header_binding_preserved(old_s, new_s),
        new_s == old_s.update(REGIME_OFFSET as int, new_regime)
            ==> crate::common::header_binding_preserved(old_s, new_s),
{
    if macro_match_written(old_s, new_s) {
        assert(crate::common::spec_lp_pda(new_s) =~= crate::common::spec_lp_pda(old_s));
    }
    if macro_sync_written(old_s, new_s, data, current_slot) {
        assert(crate::common::spec_lp_pda(new_s) =~= crate::common::spec_lp_pda(old_s));
    }
    if new_s == old_s.update(REGIME_OFFSET as int, new_regime) {
        assert(crate::common::spec_lp_pda(new_s) =~= crate::common::spec_lp_pda(old_s));
    }
}

// ---------------------------------------------------------------------------
// Exec: the handlers.
// ---------------------------------------------------------------------------

/// Initialize a macro-matcher context record.
pub fn process_init(
    lp_key: &Vec<u8>,
    ctx_is_writable: bool,
    ctx_data: &mut Vec<u8>,
    data: &Vec<u8>,
) -> (r: Result<(), ProtocolError>)
    requires
        lp_key.len() == 32,
    ensures
        r == macro_init_outcome(ctx_is_writable, old(ctx_data)@, data@),
        r is Err ==> final(ctx_data)@ == old(ctx_data)@,
        r is Ok ==> macro_init_written(old(ctx_data)@, final(ctx_data)@, data@, lp_key@),
{
    if data.len() < 82 {
        return Err(ProtocolError::InvalidInstructionData);
    }
    match verify_init_preconditions(ctx_is_writable, ctx_data, MACRO_MATCHER_MAGIC) {
        Err(e) => {
            return Err(e);
        },
        Ok(()) => {},
    }

    write_header(ctx_data, MACRO_MATCHER_MAGIC, data[1], lp_key);
    proof {
        let s = ctx_data@;
        assert forall|k: int| 0 <= k < 32 implies s[80 + k] == lp_key@[k] by {
            assert(s.subrange(80, 112)[k] == lp_key@[k]);
        }
    }

    write_u32_le(ctx_data, BASE_SPREAD_OFFSET, read_u32_le(data, 2));
    write_u32_le(ctx_data, REGIME_SPREAD_OFFSET, read_u32_le(data, 6));
    write_u32_le(ctx_data, MAX_SPREAD_OFFSET, read_u32_le(data, 10));
    write_u32_le(ctx_data, IMPACT_K_OFFSET, read_u32_le(data, 14));

    write_u64_le(ctx_data, CURRENT_INDEX_OFFSET, 0);
    write_u64_le(ctx_data, INDEX_COMPONENTS_PACKED_OFFSET, 0);
    write_u64_le(ctx_data, LAST_UPDATE_SLOT_OFFSET, 0);
    ctx_data[REGIME_OFFSET] = 1;
    fill_zero(ctx_data, REGIME_OFFSET + 1, 7);

    write_u64_le(ctx_data, SIGNAL_SEVERITY_OFFSET, 0);
    write_u64_le(ctx_data, SIGNAL_ADJUSTED_SPREAD_OFFSET, 0);

    copy_into(ctx_data, LIQUIDITY_OFFSET, data, 18, 16);
    proof {
        let s = ctx_data@;
        assert forall|k: int| 0 <= k < 16 implies #[trigger] s[LIQUIDITY_OFFSET + k] == data@[18
            + k] by {
            assert(s.subrange(LIQUIDITY_OFFSET as int, LIQUIDITY_OFFSET + 16)[k] == data@.subrange(
                18,
                34,
            )[k]);
        }
    }
    copy_into(ctx_data, MAX_FILL_OFFSET, data, 34, 16);
    proof {
        let s = ctx_data@;
        assert forall|k: int| 0 <= k < 16 implies #[trigger] s[MAX_FILL_OFFSET + k] == data@[34
            + k] by {
            assert(s.subrange(MAX_FILL_OFFSET as int, MAX_FILL_OFFSET + 16)[k] == data@.subrange(
                34,
                50,
            )[k]);
        }
    }
    copy_into(ctx_data, MACRO_ORACLE_OFFSET, data, 50, 32);
    proof {
        let s = ctx_data@;
        assert forall|k: int| 0 <= k < 32 implies #[trigger] s[MACRO_ORACLE_OFFSET + k] == data@[50
            + k] by {
            assert(s.subrange(MACRO_ORACLE_OFFSET as int, MACRO_ORACLE_OFFSET + 32)[k]
                == data@.subrange(50, 82)[k]);
        }
    }

    write_u128_le(ctx_data, TOTAL_VOLUME_OFFSET, 0);
    write_u64_le(ctx_data, TOTAL_TRADES_OFFSET, 0);

    fill_zero(ctx_data, 264, CTX_SIZE - 264);

    proof {
        assert(ctx_data@.subrange(80, 112) =~= lp_key@);
        assert(ctx_data@.subrange(LIQUIDITY_OFFSET as int, LIQUIDITY_OFFSET + 16) =~= data@.subrange(
            18,
            34,
        ));
        assert(ctx_data@.subrange(MAX_FILL_OFFSET as int, MAX_FILL_OFFSET + 16) =~= data@.subrange(
            34,
            50,
        ));
        assert(ctx_data@.subrange(MACRO_ORACLE_OFFSET as int, MACRO_ORACLE_OFFSET + 32)
            =~= data@.subrange(50, 82));
    }

    Ok(())
}

/// Execute a pricing call: verify the authority, guard index presence and
/// staleness, write the regime-adjusted price to the return channel, and
/// bump the trade counter.
pub fn process_match(
    lp_is_signer: bool,
    lp_key: &Vec<u8>,
    ctx_data: &mut Vec<u8>,
    current_slot: u64,
) -> (r: Result<(), ProtocolError>)
    requires
        lp_key.len() == 32,
    ensures
        r == macro_match_outcome(lp_is_signer, lp_key@, old(ctx_data)@, current_slot),
        r is Err ==> final(ctx_data)@ == old(ctx_data)@,
        r is Ok ==> macro_match_written(old(ctx_data)@, final(ctx_data)@),
{
    match verify_lp_pda(lp_is_signer, lp_key, ctx_data, MACRO_MATCHER_MAGIC) {
        Err(e) => {
            return Err(e);
        },
        Ok(()) => {},
    }

    let base_spread = read_u32_le(ctx_data, BASE_SPREAD_OFFSET);
    let regime_spread = read_u32_le(ctx_data, REGIME_SPREAD_OFFSET);
    let max_spread = read_u32_le(ctx_data, MAX_SPREAD_OFFSET);
    let mark_price = read_u64_le(ctx_data, CURRENT_INDEX_OFFSET);
    let regime = MacroRegime::from_u8(ctx_data[REGIME_OFFSET]);
    let signal_adj = read_u64_le(ctx_data, SIGNAL_ADJUSTED_SPREAD_OFFSET);

    if mark_price == 0 {
        return Err(MacroMatcherError::IndexNotSynced.into_protocol());
    }

    let last_update = read_u64_le(ctx_data, LAST_UPDATE_SLOT_OFFSET);
    if current_slot.saturating_sub(last_update) > MAX_STALENESS_SLOTS {
        return Err(MacroMatcherError::OracleStale.into_protocol());
    }

    let regime_multiplier = regime.spread_multiplier();
    proof {
        assert((regime_spread as u64) * regime_multiplier <= 0xffff_ffffu64 * 200)
            by (nonlinear_arith)
            requires
                regime_spread <= 0xffff_ffffu32,
                regime_multiplier <= 200,
        ;
    }
    let adjusted_regime = match (regime_spread as u64).checked_mul(regime_multiplier) {
        Some(x) => x / 100,
        None => {
            return Err(MacroMatcherError::ArithmeticOverflow.into_protocol());
        },
    };

    let spread_sum = (base_spread as u64).saturating_add(adjusted_regime).saturating_add(
        signal_adj,
    );
    let total_spread = if spread_sum < (max_spread as u64) {
        spread_sum
    } else {
        max_spread as u64
    };

    let exec_price = match compute_exec_price(mark_price, total_spread) {
        Ok(p) => p,
        Err(e) => {
            return Err(e);
        },
    };

    write_exec_price(ctx_data, exec_price);

    let old_trades = read_u64_le(ctx_data, TOTAL_TRADES_OFFSET);
    write_u64_le(ctx_data, TOTAL_TRADES_OFFSET, old_trades.saturating_add(1));

    Ok(())
}

/// Keeper sync: update the rate index, its packed components, the signal
/// fields, and refresh the staleness timestamp.
pub fn process_index_sync(
    ctx_is_writable: bool,
    ctx_data: &mut Vec<u8>,
    oracle_key: &Vec<u8>,
    data: &Vec<u8>,
    current_slot: u64,
) -> (r: Result<(), ProtocolError>)
    requires
        oracle_key.len() == 32,
    ensures
        r == macro_sync_outcome(ctx_is_writable, old(ctx_data)@, oracle_key@, data@),
        r is Err ==> final(ctx_data)@ == old(ctx_data)@,
        r is Ok ==> macro_sync_written(old(ctx_data)@, final(ctx_data)@, data@, current_slot),
{
    if data.len() < 33 {
        return Err(ProtocolError::InvalidInstructionData);
    }
    if !ctx_is_writable {
        return Err(ProtocolError::InvalidAccountData);
    }
    if !crate::macro_matcher::state::verify_magic(ctx_data) {
        return Err(ProtocolError::UninitializedAccount);
    }
    if !range_equals(ctx_data, MACRO_ORACLE_OFFSET, oracle_key) {
        return Err(MacroMatcherError::OracleMismatch.into_protocol());
    }

    let new_index = read_u64_le(data, 1);
    let components_packed = read_u64_le(data, 9);
    let signal_severity = read_u64_le(data, 17);
    let signal_spread = read_u64_le(data, 25);

    if signal_severity > SIGNAL_CRITICAL {
        return Err(MacroMatcherError::InvalidSignalSeverity.into_protocol());
    }

    write_u64_le(ctx_data, CURRENT_INDEX_OFFSET, new_index);
    write_u64_le(ctx_data, INDEX_COMPONENTS_PACKED_OFFSET, components_packed);
    write_u64_le(ctx_data, LAST_UPDATE_SLOT_OFFSET, current_slot);
    write_u64_le(ctx_data, SIGNAL_SEVERITY_OFFSET, signal_severity);
    write_u64_le(ctx_data, SIGNAL_ADJUSTED_SPREAD_OFFSET, signal_spread);

    Ok(())
}

/// Change the macro regime; only the bound oracle, signing, may do so.
pub fn process_regime_update(
    ctx_is_writable: bool,
    ctx_data: &mut Vec<u8>,
    oracle_is_signer: bool,
    oracle_key: &Vec<u8>,
    data: &Vec<u8>,
) -> (r: Result<(), ProtocolError>)
    requires
        oracle_key.len() == 32,
    ensures
        r == macro_regime_update_outcome(
            ctx_is_writable,
            old(ctx_data)@,
            oracle_is_signer,
            oracle_key@,
            data@,
        ),
        r is Err ==> final(ctx_data)@ == old(ctx_data)@,
        r is Ok ==> {
            &&& final(ctx_data)@ == old(ctx_data)@.update(REGIME_OFFSET as int, data@[1])
        },
{
    if data.len() < 2 {
        return Err(ProtocolError::InvalidInstructionData);
    }
    if !oracle_is_signer {
        return Err(ProtocolError::MissingRequiredSignature);
    }
    if !ctx_is_writable {
        return Err(ProtocolError::InvalidAccountData);
    }
    if !crate::macro_matcher::state::verify_magic(ctx_data) {
        return Err(ProtocolError::UninitializedAccount);
    }
    if !range_equals(ctx_data, MACRO_ORACLE_OFFSET, oracle_key) {
        return Err(MacroMatcherError::OracleMismatch.into_protocol());
    }

    let new_regime = data[1];
    if new_regime > 3 {
        return Err(MacroMatcherError::InvalidRegime.into_protocol());
    }

    ctx_data[REGIME_OFFSET] = new_regime;

    Ok(())
}

} // verus!
