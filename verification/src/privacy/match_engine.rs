//! Handlers of the solver-verified matcher: initialization, pricing, and
//! solver-gated oracle updates.

use vstd::prelude::*;

use crate::codec::{
    read_u32_le, read_u64_le, read_u128_le, write_u32_le, write_u64_le, write_u128_le, u32_le_at,
    u64_le_at, u128_le_at, copy_into, fill_zero, range_equals,
};
use crate::common::{
    lp_pda_check, init_precheck, magic_matches, verify_lp_pda, verify_init_preconditions,
    write_header, write_exec_price, compute_exec_price, exec_price_full, ProtocolError,
    CTX_SIZE,
};
use crate::privacy::errors::PrivacyMatcherError;
use crate::privacy::state::{
    PRIVACY_MATCHER_MAGIC, SOLVER_PUBKEY_OFFSET, BASE_SPREAD_OFFSET, MAX_SPREAD_OFFSET,
    SOLVER_FEE_OFFSET, ORACLE_PRICE_OFFSET, LAST_EXEC_PRICE_OFFSET, TOTAL_VOLUME_OFFSET,
    TOTAL_ORDERS_OFFSET, SOLVER_ENCRYPTION_KEY_OFFSET, pv_solver_key, pv_base_spread,
    pv_max_spread, pv_solver_fee, pv_oracle_price, pv_total_volume, pv_total_orders,
};

verus! {

// ---------------------------------------------------------------------------
// Spec: the solver-fee spread.
// ---------------------------------------------------------------------------

/// Total spread: base plus solver fee (saturating), capped at
/// `max_spread`.
pub open spec fn privacy_total_spread_spec(base_spread: u32, solver_fee: u32, max_spread: u32) -> u32 {
    let sum = if base_spread + solver_fee > u32::MAX {
        u32::MAX
    } else {
        (base_spread + solver_fee) as u32
    };
    if sum < max_spread {
        sum
    } else {
        max_spread
    }
}

/// The exact execution price of a pricing call: the oracle price scaled
/// by the total spread. A successful call writes it; one on which it
/// does not fit 64 bits fails with `ArithmeticOverflow` instead.
pub open spec fn privacy_match_price(ctx: Seq<u8>) -> int {
    exec_price_full(
        pv_oracle_price(ctx),
        privacy_total_spread_spec(pv_base_spread(ctx), pv_solver_fee(ctx), pv_max_spread(ctx)) as u64,
    )
}

// ---------------------------------------------------------------------------
// Spec: outcomes and state changes of each handler.
// ---------------------------------------------------------------------------

/// Decision of `process_init`: payload size, the shared initialization
/// guard, then the spread-configuration check — all before any write.
pub open spec fn privacy_init_outcome(
    ctx_is_writable: bool,
    ctx: Seq<u8>,
    data: Seq<u8>,
) -> Result<(), ProtocolError> {
    if data.len() < 45 {
        Err(ProtocolError::InvalidInstructionData)
    } else {
        match init_precheck(ctx_is_writable, ctx, PRIVACY_MATCHER_MAGIC) {
            Err(e) => Err(e),
            Ok(()) => if u32_le_at(data, 1) > u32_le_at(data, 5) {
                Err(PrivacyMatcherError::InvalidSpreadConfig.as_protocol())
            } else {
                Ok(())
            },
        }
    }
}

/// The record a successful `process_init` leaves behind.
pub open spec fn privacy_init_written(
    old_s: Seq<u8>,
    new_s: Seq<u8>,
    data: Seq<u8>,
    lp_pda: Seq<u8>,
    solver_key: Seq<u8>,
) -> bool {
    &&& new_s.len() == old_s.len()
    &&& forall|j: int| 0 <= j < 64 ==> new_s[j] == 0
    &&& u64_le_at(new_s, 64) == PRIVACY_MATCHER_MAGIC
    &&& u32_le_at(new_s, 72) == 1
    &&& new_s[76] == 0
    &&& forall|j: int| 77 <= j < 80 ==> new_s[j] == 0
    &&& new_s.subrange(80, 112) == lp_pda
    &&& new_s.subrange(SOLVER_PUBKEY_OFFSET as int, SOLVER_PUBKEY_OFFSET + 32) == solver_key
    &&& u32_le_at(new_s, BASE_SPREAD_OFFSET as int) == u32_le_at(data, 1)
    &&& u32_le_at(new_s, MAX_SPREAD_OFFSET as int) == u32_le_at(data, 5)
    &&& u32_le_at(new_s, SOLVER_FEE_OFFSET as int) == u32_le_at(data, 9)
    &&& u64_le_at(new_s, ORACLE_PRICE_OFFSET as int) == 0
    &&& u64_le_at(new_s, LAST_EXEC_PRICE_OFFSET as int) == 0
    &&& u128_le_at(new_s, TOTAL_VOLUME_OFFSET as int) == 0
    &&& u64_le_at(new_s, TOTAL_ORDERS_OFFSET as int) == 0
    &&& new_s.subrange(SOLVER_ENCRYPTION_KEY_OFFSET as int, SOLVER_ENCRYPTION_KEY_OFFSET + 32)
        == data.subrange(13, 45)
    &&& forall|j: int| 228 <= j < CTX_SIZE ==> new_s[j] == 0
    &&& forall|j: int| CTX_SIZE <= j < new_s.len() ==> new_s[j] == old_s[j]
}

/// Decision of `process_match`: authority check, then the oracle price
/// must be set.
pub open spec fn privacy_match_outcome(
    lp_is_signer: bool,
    lp_key: Seq<u8>,
    ctx: Seq<u8>,
) -> Result<(), ProtocolError> {
    match lp_pda_check(lp_is_signer, lp_key, ctx, PRIVACY_MATCHER_MAGIC) {
        Err(e) => Err(e),
        Ok(()) => if pv_oracle_price(ctx) == 0 {
            Err(PrivacyMatcherError::OraclePriceNotSet.as_protocol())
        } else if privacy_match_price(ctx) > u64::MAX {
            Err(ProtocolError::ArithmeticOverflow)
        } else {
            Ok(())
        },
    }
}

/// The trade size a pricing payload carries: bytes 1..9 when present.
pub open spec fn privacy_trade_size(data: Seq<u8>) -> u64 {
    if data.len() >= 9 {
        u64_le_at(data, 1)
    } else {
        0
    }
}

/// The record a successful `process_match` leaves behind: the price in
/// the return channel and in the last-execution field, the order counter
/// bumped, and the cumulative volume accumulated (both saturating).
pub open spec fn privacy_match_written(old_s: Seq<u8>, new_s: Seq<u8>, data: Seq<u8>) -> bool {
    &&& new_s.len() == old_s.len()
    &&& u64_le_at(new_s, 0) == privacy_match_price(old_s)
    &&& u64_le_at(new_s, LAST_EXEC_PRICE_OFFSET as int) == privacy_match_price(old_s)
    &&& u64_le_at(new_s, TOTAL_ORDERS_OFFSET as int) == (if pv_total_orders(old_s) == u64::MAX {
        u64::MAX
    } else {
        (pv_total_orders(old_s) + 1) as u64
    })
    &&& data.len() >= 9 ==> u128_le_at(new_s, TOTAL_VOLUME_OFFSET as int) == (if pv_total_volume(
        old_s,
    ) + privacy_trade_size(data) > u128::MAX {
        u128::MAX
    } else {
        (pv_total_volume(old_s) + privacy_trade_size(data)) as u128
    })
    &&& data.len() < 9 ==> u128_le_at(new_s, TOTAL_VOLUME_OFFSET as int) == pv_total_volume(old_s)
    &&& forall|j: int|
        0 <= j < new_s.len() && !(0 <= j < 8) && !(LAST_EXEC_PRICE_OFFSET <= j
            < LAST_EXEC_PRICE_OFFSET + 8) && !(TOTAL_VOLUME_OFFSET <= j < TOTAL_ORDERS_OFFSET + 8)
            ==> new_s[j] == old_s[j]
}

/// Decision of `process_oracle_update`: solver signature, initialized
/// record, the bound solver key, and a nonzero price.
pub open spec fn privacy_oracle_update_outcome(
    solver_is_signer: bool,
    solver_key: Seq<u8>,
    ctx: Seq<u8>,
    data: Seq<u8>,
) -> Result<(), ProtocolError> {
    if data.len() < 9 {
        Err(ProtocolError::InvalidInstructionData)
    } else if !solver_is_signer {
        Err(ProtocolError::MissingRequiredSignature)
    } else if !magic_matches(ctx, PRIVACY_MATCHER_MAGIC) {
        Err(ProtocolError::UninitializedAccount)
    } else if solver_key != pv_solver_key(ctx) {
        Err(PrivacyMatcherError::UnauthorizedSolver.as_protocol())
    } else if u64_le_at(data, 1) == 0 {
        Err(PrivacyMatcherError::OraclePriceNotSet.as_protocol())
    } else {
        Ok(())
    }
}

// ---------------------------------------------------------------------------
// Laws of the solver-verified matcher.
// ---------------------------------------------------------------------------

/// The total spread never exceeds the configured maximum.
pub proof fn lemma_privacy_spread_capped(base_spread: u32, solver_fee: u32, max_spread: u32)
    ensures
        privacy_total_spread_spec(base_spread, solver_fee, max_spread) <= max_spread,
{
}

/// Once initialized, the pricing call never touches the record's magic,
/// its authority-binding key, or the bound solver key.
pub proof fn lemma_privacy_match_preserves_binding(old_s: Seq<u8>, new_s: Seq<u8>, data: Seq<u8>)
    requires
        old_s.len() >= CTX_SIZE,
    ensures
        privacy_match_written(old_s, new_s, data) ==> crate::common::header_binding_preserved(
            old_s,
            new_s,
        ) && pv_solver_key(new_s) == pv_solver_key(old_s),
{
    if privacy_match_written(old_s, new_s, data) {
        assert(crate::common::spec_lp_pda(new_s) =~= crate::common::spec_lp_pda(old_s));
        assert(pv_solver_key(new_s) =~= pv_solver_key(old_s));
    }
}

// ---------------------------------------------------------------------------
// Exec: the handlers.
// ---------------------------------------------------------------------------

/// Initialize a solver-verified matcher context record. Rejects a base
/// spread above the maximum before writing anything.
pub fn process_init(
    lp_key: &Vec<u8>,
    ctx_is_writable: bool,
    ctx_data: &mut Vec<u8>,
    solver_key: &Vec<u8>,
    data: &Vec<u8>,
) -> (r: Result<(), ProtocolError>)
    requires
        lp_key.len() == 32,
        solver_key.len() == 32,
    ensures
        r == privacy_init_outcome(ctx_is_writable, old(ctx_data)@, data@),
        r is Err ==> final(ctx_data)@ == old(ctx_data)@,
        r is Ok ==> privacy_init_written(
            old(ctx_data)@,
            final(ctx_data)@,
            data@,
            lp_key@,
            solver_key@,
        ),
{
    if data.len() < 45 {
        return Err(ProtocolError::InvalidInstructionData);
    }
    match verify_init_preconditions(ctx_is_writable, ctx_data, PRIVACY_MATCHER_MAGIC) {
        Err(e) => {
            return Err(e);
        },
        Ok(()) => {},
    }

    let base_spread = read_u32_le(data, 1);
    let max_spread = read_u32_le(data, 5);
    let solver_fee = read_u32_le(data, 9);

    if base_spread > max_spread {
        return Err(PrivacyMatcherError::InvalidSpreadConfig.into_protocol());
    }

    write_header(ctx_data, PRIVACY_MATCHER_MAGIC, 0, lp_key);
    proof {
        let s = ctx_data@;
        assert forall|k: int| 0 <= k < 32 implies s[80 + k] == lp_key@[k] by {
            assert(s.subrange(80, 112)[k] == lp_key@[k]);
        }
    }

    copy_into(ctx_data, SOLVER_PUBKEY_OFFSET, solver_key, 0, 32);
    proof {
        let s = ctx_data@;
        assert forall|k: int| 0 <= k < 32 implies #[trigger] s[SOLVER_PUBKEY_OFFSET + k]
            == solver_key@[k] by {
            assert(s.subrange(SOLVER_PUBKEY_OFFSET as int, SOLVER_PUBKEY_OFFSET + 32)[k]
                == solver_key@.subrange(0, 32)[k]);
        }
    }

    write_u32_le(ctx_data, BASE_SPREAD_OFFSET, base_spread);
    write_u32_le(ctx_data, MAX_SPREAD_OFFSET, max_spread);
    write_u32_le(ctx_data, SOLVER_FEE_OFFSET, solver_fee);

    write_u64_le(ctx_data, ORACLE_PRICE_OFFSET, 0);
    write_u64_le(ctx_data, LAST_EXEC_PRICE_OFFSET, 0);
    write_u128_le(ctx_data, TOTAL_VOLUME_OFFSET, 0);
    write_u64_le(ctx_data, TOTAL_ORDERS_OFFSET, 0);

    copy_into(ctx_data, SOLVER_ENCRYPTION_KEY_OFFSET, data, 13, 32);
    proof {
        let s = ctx_data@;
        assert forall|k: int| 0 <= k < 32 implies #[trigger] s[SOLVER_ENCRYPTION_KEY_OFFSET + k]
            == data@[13 + k] by {
            assert(s.subrange(
                SOLVER_ENCRYPTION_KEY_OFFSET as int,
                SOLVER_ENCRYPTION_KEY_OFFSET + 32,
            )[k] == data@.subrange(13, 45)[k]);
        }
    }

    fill_zero(ctx_data, 228, CTX_SIZE - 228);

    proof {
        assert(ctx_data@.subrange(80, 112) =~= lp_key@);
        assert forall|k: int| 0 <= k < 32 implies #[trigger] ctx_data@.subrange(
            SOLVER_PUBKEY_OFFSET as int,
            SOLVER_PUBKEY_OFFSET + 32,
        )[k] == solver_key@[k] by {
            assert(ctx_data@[SOLVER_PUBKEY_OFFSET + k] == solver_key@[k]);
        }
        assert(ctx_data@.subrange(SOLVER_PUBKEY_OFFSET as int, SOLVER_PUBKEY_OFFSET + 32)
            =~= solver_key@);
        assert(ctx_data@.subrange(
            SOLVER_ENCRYPTION_KEY_OFFSET as int,
            SOLVER_ENCRYPTION_KEY_OFFSET + 32,
        ) =~= data@.subrange(13, 45));
    }

    Ok(())
}

/// Execute a pricing call: verify the authority, require a set oracle
/// price, write the fee-adjusted price to the return channel, and update
/// the execution statistics.
pub fn process_match(
    lp_is_signer: bool,
    lp_key: &Vec<u8>,
    ctx_data: &mut Vec<u8>,
    data: &Vec<u8>,
) -> (r: Result<(), ProtocolError>)
    requires
        lp_key.len() == 32,
    ensures
        r == privacy_match_outcome(lp_is_signer, lp_key@, old(ctx_data)@),
        r is Err ==> final(ctx_data)@ == old(ctx_data)@,
        r is Ok ==> privacy_match_written(old(ctx_data)@, final(ctx_data)@, data@),
{
    match verify_lp_pda(lp_is_signer, lp_key, ctx_data, PRIVACY_MATCHER_MAGIC) {
        Err(e) => {
            return Err(e);
        },
        Ok(()) => {},
    }

    let base_spread = read_u32_le(ctx_data, BASE_SPREAD_OFFSET);
    let max_spread = read_u32_le(ctx_data, MAX_SPREAD_OFFSET);
    let solver_fee = read_u32_le(ctx_data, SOLVER_FEE_OFFSET);
    let oracle_price = read_u64_le(ctx_data, ORACLE_PRICE_OFFSET);

    if oracle_price == 0 {
        return Err(PrivacyMatcherError::OraclePriceNotSet.into_protocol());
    }

    let spread_sum = base_spread.saturating_add(solver_fee);
    let total_spread = if spread_sum < max_spread {
        spread_sum
    } else {
        max_spread
    };

    let exec_price = match compute_exec_price(oracle_price, total_spread as u64) {
        Ok(p) => p,
        Err(e) => {
            return Err(e);
        },
    };

    write_exec_price(ctx_data, exec_price);
    write_u64_le(ctx_data, LAST_EXEC_PRICE_OFFSET, exec_price);

    let count = read_u64_le(ctx_data, TOTAL_ORDERS_OFFSET);
    write_u64_le(ctx_data, TOTAL_ORDERS_OFFSET, count.saturating_add(1));

    if data.len() >= 9 {
        let trade_size = read_u64_le(data, 1);
        let current_volume = read_u128_le(ctx_data, TOTAL_VOLUME_OFFSET);
        let new_volume = current_volume.saturating_add(trade_size as u128);
        write_u128_le(ctx_data, TOTAL_VOLUME_OFFSET, new_volume);
    }

    Ok(())
}

/// Update the oracle price; only the solver key bound at initialization,
/// signing, may do so, and a zero price is refused.
pub fn process_oracle_update(
    solver_is_signer: bool,
    solver_key: &Vec<u8>,
    ctx_data: &mut Vec<u8>,
    data: &Vec<u8>,
) -> (r: Result<(), ProtocolError>)
    requires
        solver_key.len() == 32,
    ensures
        r == privacy_oracle_update_outcome(solver_is_signer, solver_key@, old(ctx_data)@, data@),
        r is Err ==> final(ctx_data)@ == old(ctx_data)@,
        r is Ok ==> {
            &&& final(ctx_data)@.len() == old(ctx_data)@.len()
            &&& u64_le_at(final(ctx_data)@, ORACLE_PRICE_OFFSET as int) == u64_le_at(data@, 1)
            &&& forall|j: int|
                0 <= j < final(ctx_data)@.len() && !(ORACLE_PRICE_OFFSET <= j < ORACLE_PRICE_OFFSET
                    + 8) ==> final(ctx_data)@[j] == old(ctx_data)@[j]
        },
{
    if data.len() < 9 {
        return Err(ProtocolError::InvalidInstructionData);
    }
    if !solver_is_signer {
        return Err(ProtocolError::MissingRequiredSignature);
    }
    if !crate::privacy::state::verify_magic(ctx_data) {
        return Err(ProtocolError::UninitializedAccount);
    }
    if !range_equals(ctx_data, SOLVER_PUBKEY_OFFSET, solver_key) {
        return Err(PrivacyMatcherError::UnauthorizedSolver.into_protocol());
    }

    let new_price = read_u64_le(data, 1);
    if new_price == 0 {
        return Err(PrivacyMatcherError::OraclePriceNotSet.into_protocol());
    }

    write_u64_le(ctx_data, ORACLE_PRICE_OFFSET, new_price);

    Ok(())
}

} // verus!
