//! The compliance-gated pricing call of the KYC matcher: KYC level,
//! expiry, jurisdiction, daily-volume and same-jurisdiction checks, then
//! a discount-adjusted spread over the oracle price.

use vstd::prelude::*;

use crate::codec::{read_u32_le, read_u64_le, read_i64_le, write_u64_le, write_i64_le, u64_le_at};
use crate::common::{
    lp_pda_check, verify_lp_pda, write_exec_price, compute_exec_price, exec_price_full,
    magic_matches, ProtocolError,
};
use crate::jpy::errors::JpyMatcherError;
use crate::jpy::state::{
    JPY_MATCHER_MAGIC, MIN_KYC_LEVEL_OFFSET, REQUIRE_SAME_JURISDICTION_OFFSET,
    BASE_SPREAD_OFFSET, KYC_DISCOUNT_OFFSET, MAX_SPREAD_OFFSET, BLOCKED_JURISDICTIONS_OFFSET,
    ORACLE_PRICE_OFFSET, DAILY_VOLUME_CAP_OFFSET, CURRENT_DAY_VOLUME_OFFSET,
    DAY_RESET_TIMESTAMP_OFFSET, WHITELIST_KYC_LEVEL_OFFSET, WHITELIST_EXPIRY_OFFSET,
    WHITELIST_JURISDICTION_OFFSET, KYC_INSTITUTIONAL, DAY_WINDOW_SECONDS, jp_min_kyc,
    jp_require_same_jurisdiction, jp_base_spread, jp_kyc_discount, jp_max_spread,
    jp_blocked_jurisdictions, jp_oracle_price, jp_daily_cap, jp_day_volume, jp_day_reset,
    wl_kyc_level, wl_expiry, wl_jurisdiction,
};

verus! {

/// Saturating 64-bit addition, as the volume accounting uses it.
pub open spec fn sat_add_u64(a: u64, b: u64) -> u64 {
    if a + b > u64::MAX {
        u64::MAX
    } else {
        (a + b) as u64
    }
}

/// The byte view of an optional whitelist account.
pub open spec fn view_opt(o: Option<&Vec<u8>>) -> Option<Seq<u8>> {
    match o {
        Some(v) => Some(v@),
        None => None,
    }
}

/// A jurisdiction is blocked when its bit is set in the mask;
/// jurisdiction IDs of 8 and above are never blocked.
pub open spec fn jurisdiction_blocked_spec(mask: u8, jurisdiction: u8) -> bool {
    jurisdiction < 8 && (mask >> jurisdiction) & 1 == 1
}

/// Test a jurisdiction against the blocked bitmask.
pub fn is_jurisdiction_blocked(mask: u8, jurisdiction: u8) -> (r: bool)
    ensures
        r == jurisdiction_blocked_spec(mask, jurisdiction),
{
    jurisdiction < 8 && (mask >> jurisdiction) & 1 == 1
}

/// The trade size a pricing payload carries: bytes 1..9 when present.
pub open spec fn jpy_trade_size(data: Seq<u8>) -> u64 {
    if data.len() >= 9 {
        u64_le_at(data, 1)
    } else {
        0
    }
}

/// The running daily volume a check sees: zero once the day window has
/// elapsed, the stored counter otherwise.
pub open spec fn effective_day_volume(ctx: Seq<u8>, now: i64) -> u64 {
    if now > jp_day_reset(ctx) + DAY_WINDOW_SECONDS {
        0u64
    } else {
        jp_day_volume(ctx)
    }
}

/// How a completed trade updates the `(day volume, day reset)` pair:
/// after the day window has elapsed the counter restarts at the trade
/// size and the window restarts at `now`; otherwise the counter
/// accumulates, saturating, and the window stands.
pub open spec fn updated_day_volume(old_vol: u64, trade: u64, now: i64, day_reset: i64) -> (
    u64,
    i64,
) {
    if now > day_reset + DAY_WINDOW_SECONDS {
        (trade, now)
    } else {
        (sat_add_u64(old_vol, trade), day_reset)
    }
}

/// The ordered compliance gate, as run when a user whitelist entry is
/// supplied: KYC level, expiry, jurisdiction, daily cap, then
/// same-jurisdiction. With no entry supplied, a nonzero KYC floor
/// rejects outright: there is no compliance bypass.
pub open spec fn compliance_gate(
    ctx: Seq<u8>,
    user_wl: Option<Seq<u8>>,
    lp_wl: Option<Seq<u8>>,
    trade_size: u64,
    now: i64,
) -> Result<(), ProtocolError> {
    match user_wl {
        Some(w) => {
            if wl_kyc_level(w) < jp_min_kyc(ctx) {
                Err(JpyMatcherError::InsufficientKycLevel.as_protocol())
            } else if now > wl_expiry(w) {
                Err(JpyMatcherError::KycExpired.as_protocol())
            } else if jurisdiction_blocked_spec(jp_blocked_jurisdictions(ctx), wl_jurisdiction(w)) {
                Err(JpyMatcherError::JurisdictionBlocked.as_protocol())
            } else if jp_daily_cap(ctx) > 0 && sat_add_u64(effective_day_volume(ctx, now), trade_size)
                > jp_daily_cap(ctx) {
                Err(JpyMatcherError::DailyVolumeLimitExceeded.as_protocol())
            } else if jp_require_same_jurisdiction(ctx) == 1 && lp_wl is Some && wl_jurisdiction(w)
                != wl_jurisdiction(lp_wl->Some_0) {
                Err(JpyMatcherError::JurisdictionMismatch.as_protocol())
            } else {
                Ok(())
            }
        },
        None => if jp_min_kyc(ctx) > 0 {
            Err(JpyMatcherError::InsufficientKycLevel.as_protocol())
        } else {
            Ok(())
        },
    }
}

/// The KYC level the pricing step sees: the entry's level, or zero
/// without an entry.
pub open spec fn effective_kyc_level(user_wl: Option<Seq<u8>>) -> u8 {
    match user_wl {
        Some(w) => wl_kyc_level(w),
        None => 0,
    }
}

/// The capped spread: the discount applies only at the top KYC tier,
/// the base spread absorbs it saturating at zero, and the maximum spread
/// caps the result.
pub open spec fn jpy_capped_spread(ctx: Seq<u8>, user_kyc: u8) -> u32 {
    let discount = if user_kyc >= KYC_INSTITUTIONAL {
        jp_kyc_discount(ctx)
    } else {
        0u32
    };
    let effective = if jp_base_spread(ctx) < discount {
        0u32
    } else {
        (jp_base_spread(ctx) - discount) as u32
    };
    if effective < jp_max_spread(ctx) {
        effective
    } else {
        jp_max_spread(ctx)
    }
}

/// The exact execution price of a compliance match: the oracle price
/// scaled by the capped spread. A successful call writes it; one on
/// which it does not fit 64 bits fails with `ArithmeticOverflow`
/// instead.
pub open spec fn jpy_match_price(ctx: Seq<u8>, user_wl: Option<Seq<u8>>) -> int {
    exec_price_full(
        jp_oracle_price(ctx),
        jpy_capped_spread(ctx, effective_kyc_level(user_wl)) as u64,
    )
}

/// Decision of `process_match_with_compliance`: authority check, oracle
/// presence, then the compliance gate.
pub open spec fn jpy_match_outcome(
    lp_is_signer: bool,
    lp_key: Seq<u8>,
    ctx: Seq<u8>,
    user_wl: Option<Seq<u8>>,
    lp_wl: Option<Seq<u8>>,
    data: Seq<u8>,
    now: i64,
) -> Result<(), ProtocolError> {
    match lp_pda_check(lp_is_signer, lp_key, ctx, JPY_MATCHER_MAGIC) {
        Err(e) => Err(e),
        Ok(()) => if jp_oracle_price(ctx) == 0 {
            Err(JpyMatcherError::OraclePriceNotSet.as_protocol())
        } else {
            match compliance_gate(ctx, user_wl, lp_wl, jpy_trade_size(data), now) {
                Err(e) => Err(e),
                Ok(()) => if jpy_match_price(ctx, user_wl) > u64::MAX {
                    Err(ProtocolError::ArithmeticOverflow)
                } else {
                    Ok(())
                },
            }
        },
    }
}

/// The record a successful `process_match_with_compliance` leaves
/// behind: the price in the return channel, and — when the payload
/// carries a trade size — the daily-volume pair updated by the
/// rollover rule.
pub open spec fn jpy_match_written(
    old_s: Seq<u8>,
    new_s: Seq<u8>,
    user_wl: Option<Seq<u8>>,
    data: Seq<u8>,
    now: i64,
) -> bool {
    let updated = updated_day_volume(
        jp_day_volume(old_s),
        jpy_trade_size(data),
        now,
        jp_day_reset(old_s),
    );
    &&& new_s.len() == old_s.len()
    &&& u64_le_at(new_s, 0) == jpy_match_price(old_s, user_wl)
    &&& data.len() >= 9 ==> jp_day_volume(new_s) == updated.0 && jp_day_reset(new_s) == updated.1
    &&& data.len() < 9 ==> jp_day_volume(new_s) == jp_day_volume(old_s) && jp_day_reset(new_s)
        == jp_day_reset(old_s)
    &&& forall|j: int|
        0 <= j < new_s.len() && !(0 <= j < 8) && !(CURRENT_DAY_VOLUME_OFFSET <= j
            < DAY_RESET_TIMESTAMP_OFFSET + 8) ==> new_s[j] == old_s[j]
}

/// Execute a compliance-gated pricing call.
///
/// `now` is the wall-clock time the host supplies for this invocation;
/// the expiry, cap and rollover decisions all read this one value, so
/// the accounting is idempotent with respect to the stored reset
/// timestamp.
pub fn process_match_with_compliance(
    lp_is_signer: bool,
    lp_key: &Vec<u8>,
    ctx_data: &mut Vec<u8>,
    user_whitelist: Option<&Vec<u8>>,
    lp_whitelist: Option<&Vec<u8>>,
    data: &Vec<u8>,
    now: i64,
) -> (r: Result<(), ProtocolError>)
    requires
        lp_key.len() == 32,
        user_whitelist matches Some(w) ==> w.len() >= 57,
        lp_whitelist matches Some(w) ==> w.len() >= 57,
        magic_matches(old(ctx_data)@, JPY_MATCHER_MAGIC) ==> jp_day_reset(old(ctx_data)@)
            <= i64::MAX - DAY_WINDOW_SECONDS,
    ensures
        r == jpy_match_outcome(
            lp_is_signer,
            lp_key@,
            old(ctx_data)@,
            view_opt(user_whitelist),
            view_opt(lp_whitelist),
            data@,
            now,
        ),
        r is Err ==> final(ctx_data)@ == old(ctx_data)@,
        r is Ok ==> jpy_match_written(
            old(ctx_data)@,
            final(ctx_data)@,
            view_opt(user_whitelist),
            data@,
            now,
        ),
{
    match verify_lp_pda(lp_is_signer, lp_key, ctx_data, JPY_MATCHER_MAGIC) {
        Err(e) => {
            return Err(e);
        },
        Ok(()) => {},
    }

    let min_kyc = ctx_data[MIN_KYC_LEVEL_OFFSET];
    let blocked_jurisdictions = ctx_data[BLOCKED_JURISDICTIONS_OFFSET];
    let oracle_price = read_u64_le(ctx_data, ORACLE_PRICE_OFFSET);

    if oracle_price == 0 {
        return Err(JpyMatcherError::OraclePriceNotSet.into_protocol());
    }

    let trade_size: u64 = if data.len() >= 9 {
        read_u64_le(data, 1)
    } else {
        0
    };

    let mut user_kyc_level: u8 = 0;

    match user_whitelist {
        Some(user_wl_data) => {
            user_kyc_level = user_wl_data[WHITELIST_KYC_LEVEL_OFFSET];
            if user_kyc_level < min_kyc {
                return Err(JpyMatcherError::InsufficientKycLevel.into_protocol());
            }

            let user_expiry = read_i64_le(user_wl_data, WHITELIST_EXPIRY_OFFSET);
            if now > user_expiry {
                return Err(JpyMatcherError::KycExpired.into_protocol());
            }

            let user_jurisdiction = user_wl_data[WHITELIST_JURISDICTION_OFFSET];
            if is_jurisdiction_blocked(blocked_jurisdictions, user_jurisdiction) {
                return Err(JpyMatcherError::JurisdictionBlocked.into_protocol());
            }

            let daily_cap = read_u64_le(ctx_data, DAILY_VOLUME_CAP_OFFSET);
            if daily_cap > 0 {
                let current_volume = read_u64_le(ctx_data, CURRENT_DAY_VOLUME_OFFSET);
                let day_reset = read_i64_le(ctx_data, DAY_RESET_TIMESTAMP_OFFSET);

                let effective_volume: u64 = if now > day_reset + DAY_WINDOW_SECONDS {
                    0
                } else {
                    current_volume
                };

                if effective_volume.saturating_add(trade_size) > daily_cap {
                    return Err(JpyMatcherError::DailyVolumeLimitExceeded.into_protocol());
                }
            }

            let require_same = ctx_data[REQUIRE_SAME_JURISDICTION_OFFSET];
            if require_same == 1 {
                match lp_whitelist {
                    Some(lp_wl_data) => {
                        let lp_jurisdiction = lp_wl_data[WHITELIST_JURISDICTION_OFFSET];
                        if user_jurisdiction != lp_jurisdiction {
                            return Err(JpyMatcherError::JurisdictionMismatch.into_protocol());
                        }
                    },
                    None => {},
                }
            }
        },
        None => {
            if min_kyc > 0 {
                return Err(JpyMatcherError::InsufficientKycLevel.into_protocol());
            }
        },
    }

    let base_spread = read_u32_le(ctx_data, BASE_SPREAD_OFFSET);
    let discount: u32 = if user_kyc_level >= KYC_INSTITUTIONAL {
        read_u32_le(ctx_data, KYC_DISCOUNT_OFFSET)
    } else {
        0
    };

    let effective_spread = base_spread.saturating_sub(discount);
    let max_spread = read_u32_le(ctx_data, MAX_SPREAD_OFFSET);
    let capped_spread = if effective_spread < max_spread {
        effective_spread
    } else {
        max_spread
    };

    let exec_price = match compute_exec_price(oracle_price, capped_spread as u64) {
        Ok(p) => p,
        Err(e) => {
            return Err(e);
        },
    };

    write_exec_price(ctx_data, exec_price);

    if data.len() >= 9 {
        let current_volume = read_u64_le(ctx_data, CURRENT_DAY_VOLUME_OFFSET);
        let day_reset = read_i64_le(ctx_data, DAY_RESET_TIMESTAMP_OFFSET);

        if now > day_reset + DAY_WINDOW_SECONDS {
            write_u64_le(ctx_data, CURRENT_DAY_VOLUME_OFFSET, trade_size);
            write_i64_le(ctx_data, DAY_RESET_TIMESTAMP_OFFSET, now);
        } else {
            let new_volume = current_volume.saturating_add(trade_size);
            write_u64_le(ctx_data, CURRENT_DAY_VOLUME_OFFSET, new_volume);
        }
    }

    Ok(())
}

/// The capped spread never exceeds the configured maximum.
pub proof fn lemma_jpy_spread_capped(ctx: Seq<u8>, user_kyc: u8)
    ensures
        jpy_capped_spread(ctx, user_kyc) <= jp_max_spread(ctx),
{
}

/// Once initialized, the compliance match never touches the record's
/// magic, its authority-binding key, or its compliance configuration.
pub proof fn lemma_jpy_match_preserves_binding(
    old_s: Seq<u8>,
    new_s: Seq<u8>,
    user_wl: Option<Seq<u8>>,
    data: Seq<u8>,
    now: i64,
)
    requires
        old_s.len() >= crate::common::CTX_SIZE,
    ensures
        jpy_match_written(old_s, new_s, user_wl, data, now)
            ==> crate::common::header_binding_preserved(old_s, new_s) && jp_min_kyc(new_s)
            == jp_min_kyc(old_s) && jp_blocked_jurisdictions(new_s) == jp_blocked_jurisdictions(
            old_s,
        ) && jp_daily_cap(new_s) == jp_daily_cap(old_s),
{
    if jpy_match_written(old_s, new_s, user_wl, data, now) {
        assert(crate::common::spec_lp_pda(new_s) =~= crate::common::spec_lp_pda(old_s));
    }
}

/// Daily-volume counters never decrease except via the day rollover:
/// within the window the updated counter is at least the old one and the
/// window stands; the rollover, which restarts the counter at the trade
/// size, triggers exactly when `now > day_reset + 86400`.
pub proof fn lemma_daily_volume_monotone(old_vol: u64, trade: u64, now: i64, day_reset: i64)
    ensures
        !(now > day_reset + DAY_WINDOW_SECONDS) ==> updated_day_volume(
            old_vol,
            trade,
            now,
            day_reset,
        ).0 >= old_vol && updated_day_volume(old_vol, trade, now, day_reset).1 == day_reset,
        now > day_reset + DAY_WINDOW_SECONDS ==> updated_day_volume(old_vol, trade, now, day_reset)
            == (trade, now),
{
}

} // verus!
