//! Handlers of the event-probability matcher: initialization,
//! edge-spread pricing, oracle probability sync, and terminal resolution.

use vstd::prelude::*;

use crate::codec::{
    read_u32_le, read_u64_le, read_i64_le, write_u32_le, write_u64_le, write_i64_le, u32_le_at,
    u64_le_at, i64_le_at, copy_into, fill_zero, range_equals,
};
use crate::common::{
    lp_pda_check, init_precheck, magic_matches, slots_elapsed, verify_lp_pda,
    verify_init_preconditions, write_header, write_exec_price, ProtocolError,
    CTX_SIZE,
};
use crate::event::errors::EventMatcherError;
use crate::event::state::{
    EVENT_MATCHER_MAGIC, MAX_PROBABILITY, BASE_SPREAD_OFFSET, EDGE_SPREAD_OFFSET,
    MAX_SPREAD_OFFSET, IMPACT_K_OFFSET, CURRENT_PROBABILITY_OFFSET, PROBABILITY_MARK_OFFSET,
    LAST_UPDATE_SLOT_OFFSET, RESOLUTION_TIMESTAMP_OFFSET, IS_RESOLVED_OFFSET,
    RESOLUTION_OUTCOME_OFFSET, SIGNAL_SEVERITY_OFFSET, SIGNAL_ADJUSTED_SPREAD_OFFSET,
    LIQUIDITY_OFFSET, MAX_FILL_OFFSET, EVENT_ORACLE_OFFSET, SIGNAL_CRITICAL, ev_base_spread,
    ev_edge_spread, ev_max_spread, ev_probability, ev_last_update_slot, ev_is_resolved,
    ev_signal_adjustment, ev_oracle_key,
};

verus! {

/// The event matcher rejects pricing once the oracle is more than this
/// many slots behind.
pub const EVENT_STALENESS_SLOTS: u64 = 200;

// ---------------------------------------------------------------------------
// Spec: the edge-spread algorithm.
// ---------------------------------------------------------------------------

/// `floor(p * (1e6 - p) * 4 / 1e12)`: 1 at p = 500_000, 0 toward either
/// extreme.
pub open spec fn edge_denominator_spec(p: u64) -> int
    recommends
        p <= MAX_PROBABILITY,
{
    (p * (MAX_PROBABILITY - p) * 4) / 1_000_000_000_000
}

/// The spread multiplier in millionths: `min(1e6 / denominator, 1e7)`, or
/// the 10x cap when the denominator floors to zero.
pub open spec fn edge_factor_spec(p: u64) -> int
    recommends
        p <= MAX_PROBABILITY,
{
    let d = edge_denominator_spec(p);
    if d > 0 {
        if 1_000_000int / d < 10_000_000 {
            1_000_000int / d
        } else {
            10_000_000int
        }
    } else {
        10_000_000int
    }
}

/// The edge-spread component: `floor(edge_spread * factor / 1e6)`.
pub open spec fn adjusted_edge_spec(edge_spread: u32, p: u64) -> int
    recommends
        p <= MAX_PROBABILITY,
{
    (edge_spread * edge_factor_spec(p)) / 1_000_000
}

/// Total spread: base + edge component + signal adjustment, capped at
/// `max_spread`.
pub open spec fn event_total_spread_spec(
    base_spread: u32,
    edge_spread: u32,
    max_spread: u32,
    p: u64,
    signal_adj: u64,
) -> u64
    recommends
        p <= MAX_PROBABILITY,
{
    let sum = base_spread + adjusted_edge_spec(edge_spread, p) + signal_adj;
    if sum > max_spread {
        max_spread as u64
    } else {
        sum as u64
    }
}

/// Execution price: the probability itself is the mark, scaled by the
/// total spread in basis points.
pub open spec fn event_exec_price_spec(
    p: u64,
    base_spread: u32,
    edge_spread: u32,
    max_spread: u32,
    signal_adj: u64,
) -> int
    recommends
        p <= MAX_PROBABILITY,
{
    (p * (10000 + event_total_spread_spec(base_spread, edge_spread, max_spread, p, signal_adj)))
        / 10000
}

// ---------------------------------------------------------------------------
// Exec: the edge-spread pricing computation.
// ---------------------------------------------------------------------------

/// Compute `(execution price, total spread, edge factor)` for a
/// probability and the record's spread configuration.
pub fn compute_exec_price_edge(
    probability_e6: u64,
    base_spread: u32,
    edge_spread: u32,
    max_spread: u32,
    signal_adj: u64,
) -> (r: (u64, u64, u128))
    requires
        probability_e6 <= MAX_PROBABILITY,
    ensures
        r.2 == edge_factor_spec(probability_e6),
        r.1 == event_total_spread_spec(
            base_spread,
            edge_spread,
            max_spread,
            probability_e6,
            signal_adj,
        ),
        r.0 == event_exec_price_spec(
            probability_e6,
            base_spread,
            edge_spread,
            max_spread,
            signal_adj,
        ),
{
    let p = probability_e6 as u128;
    let one_minus_p = (MAX_PROBABILITY as u128) - p;

    proof {
        assert(p * one_minus_p <= 1_000_000u128 * 1_000_000u128) by (nonlinear_arith)
            requires
                p <= 1_000_000,
                one_minus_p <= 1_000_000,
        ;
    }
    let pq = match p.checked_mul(one_minus_p) {
        Some(x) => x,
        None => 0u128,
    };
    let pq4 = match pq.checked_mul(4) {
        Some(x) => x,
        None => 0u128,
    };
    let edge_denominator = pq4 / 1_000_000_000_000u128;

    let edge_factor: u128 = if edge_denominator > 0 {
        let f = 1_000_000u128 / edge_denominator;
        if f < 10_000_000u128 {
            f
        } else {
            10_000_000u128
        }
    } else {
        10_000_000u128
    };

    proof {
        assert((edge_spread as u128) * edge_factor <= 0xffff_ffffu128 * 10_000_000u128)
            by (nonlinear_arith)
            requires
                edge_spread <= 0xffff_ffffu32,
                edge_factor <= 10_000_000u128,
        ;
    }
    let adjusted_edge_wide = match (edge_spread as u128).checked_mul(edge_factor) {
        Some(x) => x,
        None => 0u128,
    };
    let adjusted_edge = (adjusted_edge_wide / 1_000_000u128) as u64;

    let spread_sum = (base_spread as u64).saturating_add(adjusted_edge).saturating_add(
        signal_adj,
    );
    let total_spread = if spread_sum < (max_spread as u64) {
        spread_sum
    } else {
        max_spread as u64
    };

    let spread_mult = 10_000u64.saturating_add(total_spread);
    proof {
        assert((probability_e6 as u128) * (spread_mult as u128) <= 1_000_000u128
            * 0x1_0000_3000u128) by (nonlinear_arith)
            requires
                probability_e6 <= 1_000_000,
                spread_mult <= 0x1_0000_3000u64,
        ;
    }
    let prod = match (probability_e6 as u128).checked_mul(spread_mult as u128) {
        Some(x) => x,
        None => 0u128,
    };
    let exec_price = (prod / 10_000u128) as u64;

    (exec_price, total_spread, edge_factor)
}

// ---------------------------------------------------------------------------
// Spec: outcomes and state changes of each handler.
// ---------------------------------------------------------------------------

/// Decision of `process_init`: payload size, then the shared
/// initialization guard, then the probability range check.
pub open spec fn event_init_outcome(
    ctx_is_writable: bool,
    ctx: Seq<u8>,
    data: Seq<u8>,
) -> Result<(), ProtocolError> {
    if data.len() < 98 {
        Err(ProtocolError::InvalidInstructionData)
    } else {
        match init_precheck(ctx_is_writable, ctx, EVENT_MATCHER_MAGIC) {
            Err(e) => Err(e),
            Ok(()) => if u64_le_at(data, 18) > MAX_PROBABILITY {
                Err(EventMatcherError::InvalidProbability.as_protocol())
            } else {
                Ok(())
            },
        }
    }
}

/// The record a successful `process_init` leaves behind, field by field.
pub open spec fn event_init_written(
    old_s: Seq<u8>,
    new_s: Seq<u8>,
    data: Seq<u8>,
    lp_pda: Seq<u8>,
    current_slot: u64,
) -> bool {
    &&& new_s.len() == old_s.len()
    &&& forall|j: int| 0 <= j < 64 ==> new_s[j] == 0
    &&& u64_le_at(new_s, 64) == EVENT_MATCHER_MAGIC
    &&& u32_le_at(new_s, 72) == 1
    &&& new_s[76] == data[1]
    &&& forall|j: int| 77 <= j < 80 ==> new_s[j] == 0
    &&& new_s.subrange(80, 112) == lp_pda
    &&& u32_le_at(new_s, BASE_SPREAD_OFFSET as int) == u32_le_at(data, 2)
    &&& u32_le_at(new_s, EDGE_SPREAD_OFFSET as int) == u32_le_at(data, 6)
    &&& u32_le_at(new_s, MAX_SPREAD_OFFSET as int) == u32_le_at(data, 10)
    &&& u32_le_at(new_s, IMPACT_K_OFFSET as int) == u32_le_at(data, 14)
    &&& u64_le_at(new_s, CURRENT_PROBABILITY_OFFSET as int) == u64_le_at(data, 18)
    &&& u64_le_at(new_s, PROBABILITY_MARK_OFFSET as int) == u64_le_at(data, 18)
    &&& u64_le_at(new_s, LAST_UPDATE_SLOT_OFFSET as int) == current_slot
    &&& i64_le_at(new_s, RESOLUTION_TIMESTAMP_OFFSET as int) == i64_le_at(data, 26)
    &&& new_s[IS_RESOLVED_OFFSET as int] == 0
    &&& new_s[RESOLUTION_OUTCOME_OFFSET as int] == 0
    &&& u64_le_at(new_s, SIGNAL_SEVERITY_OFFSET as int) == 0
    &&& u64_le_at(new_s, SIGNAL_ADJUSTED_SPREAD_OFFSET as int) == 0
    &&& new_s.subrange(LIQUIDITY_OFFSET as int, LIQUIDITY_OFFSET + 16) == data.subrange(34, 50)
    &&& new_s.subrange(MAX_FILL_OFFSET as int, MAX_FILL_OFFSET + 16) == data.subrange(50, 66)
    &&& new_s.subrange(EVENT_ORACLE_OFFSET as int, EVENT_ORACLE_OFFSET + 32) == data.subrange(
        66,
        98,
    )
    &&& forall|j: int| 248 <= j < CTX_SIZE ==> new_s[j] == 0
    &&& forall|j: int| CTX_SIZE <= j < new_s.len() ==> new_s[j] == old_s[j]
}

/// Decision of `process_match`: authority check, resolution guard,
/// probability-set guard, staleness guard.
pub open spec fn event_match_outcome(
    lp_is_signer: bool,
    lp_key: Seq<u8>,
    ctx: Seq<u8>,
    current_slot: u64,
) -> Result<(), ProtocolError> {
    match lp_pda_check(lp_is_signer, lp_key, ctx, EVENT_MATCHER_MAGIC) {
        Err(e) => Err(e),
        Ok(()) => if ev_is_resolved(ctx) {
            Err(EventMatcherError::MarketResolved.as_protocol())
        } else if ev_probability(ctx) == 0 {
            Err(EventMatcherError::ProbabilityNotSet.as_protocol())
        } else if slots_elapsed(current_slot, ev_last_update_slot(ctx)) > EVENT_STALENESS_SLOTS {
            Err(EventMatcherError::OracleStale.as_protocol())
        } else {
            Ok(())
        },
    }
}

/// The price a successful `process_match` writes to the return channel.
pub open spec fn event_match_price(ctx: Seq<u8>) -> int {
    event_exec_price_spec(
        ev_probability(ctx),
        ev_base_spread(ctx),
        ev_edge_spread(ctx),
        ev_max_spread(ctx),
        ev_signal_adjustment(ctx),
    )
}

/// Decision of `process_probability_sync`.
pub open spec fn event_sync_outcome(
    ctx_is_writable: bool,
    ctx: Seq<u8>,
    oracle_key: Seq<u8>,
    data: Seq<u8>,
) -> Result<(), ProtocolError> {
    if data.len() < 25 {
        Err(ProtocolError::InvalidInstructionData)
    } else if !ctx_is_writable {
        Err(ProtocolError::InvalidAccountData)
    } else if !magic_matches(ctx, EVENT_MATCHER_MAGIC) {
        Err(ProtocolError::UninitializedAccount)
    } else if ev_is_resolved(ctx) {
        Err(EventMatcherError::MarketResolved.as_protocol())
    } else if oracle_key != ev_oracle_key(ctx) {
        Err(EventMatcherError::OracleMismatch.as_protocol())
    } else if u64_le_at(data, 1) > MAX_PROBABILITY {
        Err(EventMatcherError::InvalidProbability.as_protocol())
    } else if u64_le_at(data, 9) > SIGNAL_CRITICAL {
        Err(EventMatcherError::InvalidSignalSeverity.as_protocol())
    } else {
        Ok(())
    }
}

/// The record a successful `process_probability_sync` leaves behind.
pub open spec fn event_sync_written(
    old_s: Seq<u8>,
    new_s: Seq<u8>,
    data: Seq<u8>,
    current_slot: u64,
) -> bool {
    &&& new_s.len() == old_s.len()
    &&& u64_le_at(new_s, CURRENT_PROBABILITY_OFFSET as int) == u64_le_at(data, 1)
    &&& u64_le_at(new_s, PROBABILITY_MARK_OFFSET as int) == u64_le_at(data, 1)
    &&& u64_le_at(new_s, LAST_UPDATE_SLOT_OFFSET as int) == current_slot
    &&& u64_le_at(new_s, SIGNAL_SEVERITY_OFFSET as int) == u64_le_at(data, 9)
    &&& u64_le_at(new_s, SIGNAL_ADJUSTED_SPREAD_OFFSET as int) == u64_le_at(data, 17)
    &&& forall|j: int|
        0 <= j < new_s.len() && !(CURRENT_PROBABILITY_OFFSET <= j < LAST_UPDATE_SLOT_OFFSET + 8)
            && !(SIGNAL_SEVERITY_OFFSET <= j < SIGNAL_ADJUSTED_SPREAD_OFFSET + 8) ==> new_s[j]
            == old_s[j]
}

/// Decision of `process_resolve`.
pub open spec fn event_resolve_outcome(
    ctx: Seq<u8>,
    oracle_is_signer: bool,
    oracle_key: Seq<u8>,
    data: Seq<u8>,
) -> Result<(), ProtocolError> {
    if data.len() < 2 {
        Err(ProtocolError::InvalidInstructionData)
    } else if !oracle_is_signer {
        Err(ProtocolError::MissingRequiredSignature)
    } else if !magic_matches(ctx, EVENT_MATCHER_MAGIC) {
        Err(ProtocolError::UninitializedAccount)
    } else if ev_is_resolved(ctx) {
        Err(EventMatcherError::MarketResolved.as_protocol())
    } else if oracle_key != ev_oracle_key(ctx) {
        Err(EventMatcherError::OracleMismatch.as_protocol())
    } else if data[1] > 1 {
        Err(EventMatcherError::InvalidOutcome.as_protocol())
    } else {
        Ok(())
    }
}

/// The final probability a resolution locks in: 0 for NO, 1e6 for YES.
pub open spec fn resolved_probability(outcome: u8) -> u64 {
    if outcome == 1 {
        MAX_PROBABILITY
    } else {
        0u64
    }
}

/// The record a successful `process_resolve` leaves behind: resolved flag
/// and outcome set, probability and mark forced to the final value.
pub open spec fn event_resolve_written(old_s: Seq<u8>, new_s: Seq<u8>, outcome: u8) -> bool {
    &&& new_s.len() == old_s.len()
    &&& new_s[IS_RESOLVED_OFFSET as int] == 1
    &&& new_s[RESOLUTION_OUTCOME_OFFSET as int] == outcome
    &&& u64_le_at(new_s, CURRENT_PROBABILITY_OFFSET as int) == resolved_probability(outcome)
    &&& u64_le_at(new_s, PROBABILITY_MARK_OFFSET as int) == resolved_probability(outcome)
    &&& forall|j: int|
        0 <= j < new_s.len() && !(CURRENT_PROBABILITY_OFFSET <= j < PROBABILITY_MARK_OFFSET + 8)
            && j != IS_RESOLVED_OFFSET && j != RESOLUTION_OUTCOME_OFFSET ==> new_s[j] == old_s[j]
}

// ---------------------------------------------------------------------------
// Exec: the handlers.
// ---------------------------------------------------------------------------

/// Initialize an event-matcher context record.
pub fn process_init(
    lp_key: &Vec<u8>,
    ctx_is_writable: bool,
    ctx_data: &mut Vec<u8>,
    data: &Vec<u8>,
    current_slot: u64,
) -> (r: Result<(), ProtocolError>)
    requires
        lp_key.len() == 32,
    ensures
        r == event_init_outcome(ctx_is_writable, old(ctx_data)@, data@),
        r is Err ==> final(ctx_data)@ == old(ctx_data)@,
        r is Ok ==> event_init_written(
            old(ctx_data)@,
            final(ctx_data)@,
            data@,
            lp_key@,
            current_slot,
        ),
{
    if data.len() < 98 {
        return Err(ProtocolError::InvalidInstructionData);
    }
    match verify_init_preconditions(ctx_is_writable, ctx_data, EVENT_MATCHER_MAGIC) {
        Err(e) => {
            return Err(e);
        },
        Ok(()) => {},
    }

    let initial_probability = read_u64_le(data, 18);
    if initial_probability > MAX_PROBABILITY {
        return Err(EventMatcherError::InvalidProbability.into_protocol());
    }

    write_header(ctx_data, EVENT_MATCHER_MAGIC, data[1], lp_key);
    proof {
        let s = ctx_data@;
        assert forall|k: int| 0 <= k < 32 implies s[80 + k] == lp_key@[k] by {
            assert(s.subrange(80, 112)[k] == lp_key@[k]);
        }
    }

    write_u32_le(ctx_data, BASE_SPREAD_OFFSET, read_u32_le(data, 2));
    write_u32_le(ctx_data, EDGE_SPREAD_OFFSET, read_u32_le(data, 6));
    write_u32_le(ctx_data, MAX_SPREAD_OFFSET, read_u32_le(data, 10));
    write_u32_le(ctx_data, IMPACT_K_OFFSET, read_u32_le(data, 14));

    write_u64_le(ctx_data, CURRENT_PROBABILITY_OFFSET, initial_probability);
    write_u64_le(ctx_data, PROBABILITY_MARK_OFFSET, initial_probability);
    write_u64_le(ctx_data, LAST_UPDATE_SLOT_OFFSET, current_slot);

    write_i64_le(ctx_data, RESOLUTION_TIMESTAMP_OFFSET, read_i64_le(data, 26));
    ctx_data[IS_RESOLVED_OFFSET] = 0;
    ctx_data[RESOLUTION_OUTCOME_OFFSET] = 0;
    fill_zero(ctx_data, 162, 6);

    write_u64_le(ctx_data, SIGNAL_SEVERITY_OFFSET, 0);
    write_u64_le(ctx_data, SIGNAL_ADJUSTED_SPREAD_OFFSET, 0);

    copy_into(ctx_data, LIQUIDITY_OFFSET, data, 34, 16);
    proof {
        let s = ctx_data@;
        assert forall|k: int| 0 <= k < 16 implies #[trigger] s[LIQUIDITY_OFFSET + k] == data@[34 + k] by {
            assert(s.subrange(LIQUIDITY_OFFSET as int, LIQUIDITY_OFFSET + 16)[k] == data@.subrange(
                34,
                50,
            )[k]);
        }
    }
    copy_into(ctx_data, MAX_FILL_OFFSET, data, 50, 16);
    proof {
        let s = ctx_data@;
        assert forall|k: int| 0 <= k < 16 implies #[trigger] s[MAX_FILL_OFFSET + k] == data@[50 + k] by {
            assert(s.subrange(MAX_FILL_OFFSET as int, MAX_FILL_OFFSET + 16)[k] == data@.subrange(
                50,
                66,
            )[k]);
        }
    }
    copy_into(ctx_data, EVENT_ORACLE_OFFSET, data, 66, 32);
    proof {
        let s = ctx_data@;
        assert forall|k: int| 0 <= k < 32 implies #[trigger] s[EVENT_ORACLE_OFFSET + k] == data@[66 + k] by {
            assert(s.subrange(EVENT_ORACLE_OFFSET as int, EVENT_ORACLE_OFFSET + 32)[k]
                == data@.subrange(66, 98)[k]);
        }
    }

    fill_zero(ctx_data, 248, CTX_SIZE - 248);

    proof {
        assert(ctx_data@.subrange(80, 112) =~= lp_key@);
        assert(ctx_data@.subrange(LIQUIDITY_OFFSET as int, LIQUIDITY_OFFSET + 16) =~= data@.subrange(
            34,
            50,
        ));
        assert(ctx_data@.subrange(MAX_FILL_OFFSET as int, MAX_FILL_OFFSET + 16) =~= data@.subrange(
            50,
            66,
        ));
        assert(ctx_data@.subrange(EVENT_ORACLE_OFFSET as int, EVENT_ORACLE_OFFSET + 32)
            =~= data@.subrange(66, 98));
    }

    Ok(())
}

/// Execute a pricing call: verify the authority, guard resolution,
/// probability presence and staleness, and write the edge-spread price to
/// the return channel.
pub fn process_match(
    lp_is_signer: bool,
    lp_key: &Vec<u8>,
    ctx_data: &mut Vec<u8>,
    current_slot: u64,
) -> (r: Result<(), ProtocolError>)
    requires
        lp_key.len() == 32,
        magic_matches(old(ctx_data)@, EVENT_MATCHER_MAGIC) ==> ev_probability(old(ctx_data)@)
            <= MAX_PROBABILITY,
    ensures
        r == event_match_outcome(lp_is_signer, lp_key@, old(ctx_data)@, current_slot),
        r is Err ==> final(ctx_data)@ == old(ctx_data)@,
        r is Ok ==> {
            &&& final(ctx_data)@.len() == old(ctx_data)@.len()
            &&& u64_le_at(final(ctx_data)@, 0) == event_match_price(old(ctx_data)@)
            &&& forall|j: int|
                8 <= j < final(ctx_data)@.len() ==> final(ctx_data)@[j] == old(ctx_data)@[j]
        },
{
    match verify_lp_pda(lp_is_signer, lp_key, ctx_data, EVENT_MATCHER_MAGIC) {
        Err(e) => {
            return Err(e);
        },
        Ok(()) => {},
    }

    if ctx_data[IS_RESOLVED_OFFSET] == 1 {
        return Err(EventMatcherError::MarketResolved.into_protocol());
    }

    let base_spread = read_u32_le(ctx_data, BASE_SPREAD_OFFSET);
    let edge_spread = read_u32_le(ctx_data, EDGE_SPREAD_OFFSET);
    let max_spread = read_u32_le(ctx_data, MAX_SPREAD_OFFSET);
    let probability_e6 = read_u64_le(ctx_data, CURRENT_PROBABILITY_OFFSET);
    let signal_adj = read_u64_le(ctx_data, SIGNAL_ADJUSTED_SPREAD_OFFSET);

    if probability_e6 == 0 {
        return Err(EventMatcherError::ProbabilityNotSet.into_protocol());
    }

    let last_update = read_u64_le(ctx_data, LAST_UPDATE_SLOT_OFFSET);
    if current_slot.saturating_sub(last_update) > EVENT_STALENESS_SLOTS {
        return Err(EventMatcherError::OracleStale.into_protocol());
    }

    let (exec_price, _total_spread, _edge_factor) = compute_exec_price_edge(
        probability_e6,
        base_spread,
        edge_spread,
        max_spread,
        signal_adj,
    );

    write_exec_price(ctx_data, exec_price);
    Ok(())
}

/// Sync the probability and signal fields from the bound event oracle.
pub fn process_probability_sync(
    ctx_is_writable: bool,
    ctx_data: &mut Vec<u8>,
    oracle_key: &Vec<u8>,
    data: &Vec<u8>,
    current_slot: u64,
) -> (r: Result<(), ProtocolError>)
    requires
        oracle_key.len() == 32,
    ensures
        r == event_sync_outcome(ctx_is_writable, old(ctx_data)@, oracle_key@, data@),
        r is Err ==> final(ctx_data)@ == old(ctx_data)@,
        r is Ok ==> event_sync_written(old(ctx_data)@, final(ctx_data)@, data@, current_slot),
{
    if data.len() < 25 {
        return Err(ProtocolError::InvalidInstructionData);
    }
    if !ctx_is_writable {
        return Err(ProtocolError::InvalidAccountData);
    }
    if !crate::event::state::verify_magic(ctx_data) {
        return Err(ProtocolError::UninitializedAccount);
    }
    if ctx_data[IS_RESOLVED_OFFSET] == 1 {
        return Err(EventMatcherError::MarketResolved.into_protocol());
    }
    if !range_equals(ctx_data, EVENT_ORACLE_OFFSET, oracle_key) {
        return Err(EventMatcherError::OracleMismatch.into_protocol());
    }

    let new_probability = read_u64_le(data, 1);
    if new_probability > MAX_PROBABILITY {
        return Err(EventMatcherError::InvalidProbability.into_protocol());
    }
    let signal_severity = read_u64_le(data, 9);
    if signal_severity > SIGNAL_CRITICAL {
        return Err(EventMatcherError::InvalidSignalSeverity.into_protocol());
    }
    let signal_spread = read_u64_le(data, 17);

    write_u64_le(ctx_data, CURRENT_PROBABILITY_OFFSET, new_probability);
    write_u64_le(ctx_data, PROBABILITY_MARK_OFFSET, new_probability);
    write_u64_le(ctx_data, LAST_UPDATE_SLOT_OFFSET, current_slot);
    write_u64_le(ctx_data, SIGNAL_SEVERITY_OFFSET, signal_severity);
    write_u64_le(ctx_data, SIGNAL_ADJUSTED_SPREAD_OFFSET, signal_spread);

    Ok(())
}

/// Resolve the event. The resolved flag is permanent: every later
/// mutating call on this record fails with `MarketResolved`.
pub fn process_resolve(
    ctx_data: &mut Vec<u8>,
    oracle_is_signer: bool,
    oracle_key: &Vec<u8>,
    data: &Vec<u8>,
) -> (r: Result<(), ProtocolError>)
    requires
        oracle_key.len() == 32,
    ensures
        r == event_resolve_outcome(old(ctx_data)@, oracle_is_signer, oracle_key@, data@),
        r is Err ==> final(ctx_data)@ == old(ctx_data)@,
        r is Ok ==> event_resolve_written(old(ctx_data)@, final(ctx_data)@, data@[1]),
{
    if data.len() < 2 {
        return Err(ProtocolError::InvalidInstructionData);
    }
    if !oracle_is_signer {
        return Err(ProtocolError::MissingRequiredSignature);
    }
    if !crate::event::state::verify_magic(ctx_data) {
        return Err(ProtocolError::UninitializedAccount);
    }
    if ctx_data[IS_RESOLVED_OFFSET] == 1 {
        return Err(EventMatcherError::MarketResolved.into_protocol());
    }
    if !range_equals(ctx_data, EVENT_ORACLE_OFFSET, oracle_key) {
        return Err(EventMatcherError::OracleMismatch.into_protocol());
    }

    let outcome = data[1];
    if outcome > 1 {
        return Err(EventMatcherError::InvalidOutcome.into_protocol());
    }

    let final_probability = if outcome == 1 {
        MAX_PROBABILITY
    } else {
        0u64
    };

    ctx_data[IS_RESOLVED_OFFSET] = 1;
    ctx_data[RESOLUTION_OUTCOME_OFFSET] = outcome;
    write_u64_le(ctx_data, CURRENT_PROBABILITY_OFFSET, final_probability);
    write_u64_le(ctx_data, PROBABILITY_MARK_OFFSET, final_probability);

    Ok(())
}

// ---------------------------------------------------------------------------
// Laws of the event matcher.
// ---------------------------------------------------------------------------

/// The total spread never exceeds the configured maximum.
pub proof fn lemma_event_spread_capped(
    base_spread: u32,
    edge_spread: u32,
    max_spread: u32,
    p: u64,
    signal_adj: u64,
)
    requires
        p <= MAX_PROBABILITY,
    ensures
        event_total_spread_spec(base_spread, edge_spread, max_spread, p, signal_adj)
            <= max_spread,
{
    assert(0 <= edge_spread * edge_factor_spec(p)) by (nonlinear_arith)
        requires
            edge_factor_spec(p) >= 0,
    ;
}

/// Once initialized, the event handlers never touch the record's magic
/// or its authority-binding key: the sync and resolve transitions
/// preserve the header binding.
pub proof fn lemma_event_writes_preserve_binding(
    old_s: Seq<u8>,
    new_s: Seq<u8>,
    data: Seq<u8>,
    current_slot: u64,
    outcome: u8,
)
    requires
        old_s.len() >= CTX_SIZE,
    ensures
        event_sync_written(old_s, new_s, data, current_slot) ==> crate::common::header_binding_preserved(
            old_s,
            new_s,
        ),
        event_resolve_written(old_s, new_s, outcome) ==> crate::common::header_binding_preserved(
            old_s,
            new_s,
        ),
{
    if event_sync_written(old_s, new_s, data, current_slot) {
        assert(crate::common::spec_lp_pda(new_s) =~= crate::common::spec_lp_pda(old_s));
    }
    if event_resolve_written(old_s, new_s, outcome) {
        assert(crate::common::spec_lp_pda(new_s) =~= crate::common::spec_lp_pda(old_s));
    }
}

// ---------------------------------------------------------------------------
// Laws of the edge factor.
// ---------------------------------------------------------------------------

/// The edge factor is exactly 1_000_000 (a 1.0 multiplier) at probability
/// 500_000; it saturates to 10_000_000 (the 10x cap) exactly on the
/// probabilities whose product `p * (1e6 - p) * 4` floors below 1e12; and
/// it is symmetric around 500_000.
pub proof fn lemma_edge_factor(p: u64)
    requires
        p <= MAX_PROBABILITY,
    ensures
        edge_factor_spec(500_000) == 1_000_000,
        p * (MAX_PROBABILITY - p) * 4 < 1_000_000_000_000 ==> edge_factor_spec(p) == 10_000_000,
        edge_factor_spec(p) == edge_factor_spec((MAX_PROBABILITY - p) as u64),
{
    assert(500_000 * (MAX_PROBABILITY - 500_000) * 4 == 1_000_000_000_000) by (nonlinear_arith);
    assert(edge_denominator_spec(500_000) == 1);
    let q = (MAX_PROBABILITY - p) as u64;
    assert(p * (MAX_PROBABILITY - p) == q * (MAX_PROBABILITY - q)) by (nonlinear_arith)
        requires
            q == MAX_PROBABILITY - p,
    ;
    if p * (MAX_PROBABILITY - p) * 4 < 1_000_000_000_000 {
        assert(0 <= p * (MAX_PROBABILITY - p) * 4) by (nonlinear_arith)
            requires
                p <= MAX_PROBABILITY,
        ;
        assert(edge_denominator_spec(p) == 0);
    }
}

} // verus!
