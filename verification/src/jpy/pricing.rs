//! Initialization and oracle updates of the KYC-compliance matcher.

use vstd::prelude::*;

use crate::codec::{
    read_u32_le, read_u64_le, write_u32_le, write_u64_le, write_i64_le, u32_le_at, u64_le_at,
    i64_le_at, copy_into, fill_zero,
};
use crate::common::{
    init_precheck, magic_matches, verify_init_preconditions, write_header, ProtocolError,
    CTX_SIZE,
};
use crate::jpy::errors::JpyMatcherError;
use crate::jpy::state::{
    JPY_MATCHER_MAGIC, MIN_KYC_LEVEL_OFFSET, REQUIRE_SAME_JURISDICTION_OFFSET,
    KYC_REGISTRY_OFFSET, BASE_SPREAD_OFFSET, KYC_DISCOUNT_OFFSET, MAX_SPREAD_OFFSET,
    BLOCKED_JURISDICTIONS_OFFSET, ORACLE_PRICE_OFFSET, DAILY_VOLUME_CAP_OFFSET,
    CURRENT_DAY_VOLUME_OFFSET, DAY_RESET_TIMESTAMP_OFFSET, IMPACT_K_OFFSET, LIQUIDITY_OFFSET,
    MAX_FILL_OFFSET,
};

verus! {

// ---------------------------------------------------------------------------
// Spec: outcomes and state changes.
// ---------------------------------------------------------------------------

/// Decision of `process_init`.
pub open spec fn jpy_init_outcome(
    ctx_is_writable: bool,
    ctx: Seq<u8>,
    data: Seq<u8>,
) -> Result<(), ProtocolError> {
    if data.len() < 93 {
        Err(ProtocolError::InvalidInstructionData)
    } else {
        init_precheck(ctx_is_writable, ctx, JPY_MATCHER_MAGIC)
    }
}

/// The record a successful `process_init` leaves behind.
pub open spec fn jpy_init_written(
    old_s: Seq<u8>,
    new_s: Seq<u8>,
    data: Seq<u8>,
    lp_pda: Seq<u8>,
) -> bool {
    &&& new_s.len() == old_s.len()
    &&& forall|j: int| 0 <= j < 64 ==> new_s[j] == 0
    &&& u64_le_at(new_s, 64) == JPY_MATCHER_MAGIC
    &&& u32_le_at(new_s, 72) == 1
    &&& new_s[76] == data[1]
    &&& new_s[MIN_KYC_LEVEL_OFFSET as int] == data[2]
    &&& new_s[REQUIRE_SAME_JURISDICTION_OFFSET as int] == data[3]
    &&& new_s[79] == 0
    &&& new_s.subrange(80, 112) == lp_pda
    &&& new_s.subrange(KYC_REGISTRY_OFFSET as int, KYC_REGISTRY_OFFSET + 32) == data.subrange(
        4,
        36,
    )
    &&& u32_le_at(new_s, BASE_SPREAD_OFFSET as int) == u32_le_at(data, 36)
    &&& u32_le_at(new_s, KYC_DISCOUNT_OFFSET as int) == u32_le_at(data, 40)
    &&& u32_le_at(new_s, MAX_SPREAD_OFFSET as int) == u32_le_at(data, 44)
    &&& new_s[BLOCKED_JURISDICTIONS_OFFSET as int] == data[48]
    &&& forall|j: int| 157 <= j < 164 ==> new_s[j] == 0
    &&& u64_le_at(new_s, ORACLE_PRICE_OFFSET as int) == 0
    &&& u64_le_at(new_s, DAILY_VOLUME_CAP_OFFSET as int) == u64_le_at(data, 49)
    &&& u64_le_at(new_s, CURRENT_DAY_VOLUME_OFFSET as int) == 0
    &&& i64_le_at(new_s, DAY_RESET_TIMESTAMP_OFFSET as int) == 0
    &&& u32_le_at(new_s, IMPACT_K_OFFSET as int) == u32_le_at(data, 57)
    &&& new_s.subrange(LIQUIDITY_OFFSET as int, LIQUIDITY_OFFSET + 16) == data.subrange(61, 77)
    &&& new_s.subrange(MAX_FILL_OFFSET as int, MAX_FILL_OFFSET + 16) == data.subrange(77, 93)
    &&& forall|j: int| 232 <= j < CTX_SIZE ==> new_s[j] == 0
    &&& forall|j: int| CTX_SIZE <= j < new_s.len() ==> new_s[j] == old_s[j]
}

/// Decision of `process_oracle_update`: any signed authority may update,
/// on an initialized, writable record, and a zero price is refused.
pub open spec fn jpy_oracle_update_outcome(
    authority_is_signer: bool,
    ctx_is_writable: bool,
    ctx: Seq<u8>,
    data: Seq<u8>,
) -> Result<(), ProtocolError> {
    if data.len() < 9 {
        Err(ProtocolError::InvalidInstructionData)
    } else if !authority_is_signer {
        Err(ProtocolError::MissingRequiredSignature)
    } else if !ctx_is_writable {
        Err(ProtocolError::InvalidAccountData)
    } else if !magic_matches(ctx, JPY_MATCHER_MAGIC) {
        Err(ProtocolError::UninitializedAccount)
    } else if u64_le_at(data, 1) == 0 {
        Err(JpyMatcherError::OraclePriceNotSet.as_protocol())
    } else {
        Ok(())
    }
}

// ---------------------------------------------------------------------------
// Exec: the handlers.
// ---------------------------------------------------------------------------

/// Initialize a compliance-matcher context record.
pub fn process_init(
    lp_key: &Vec<u8>,
    ctx_is_writable: bool,
    ctx_data: &mut Vec<u8>,
    data: &Vec<u8>,
) -> (r: Result<(), ProtocolError>)
    requires
        lp_key.len() == 32,
    ensures
        r == jpy_init_outcome(ctx_is_writable, old(ctx_data)@, data@),
        r is Err ==> final(ctx_data)@ == old(ctx_data)@,
        r is Ok ==> jpy_init_written(old(ctx_data)@, final(ctx_data)@, data@, lp_key@),
{
    if data.len() < 93 {
        return Err(ProtocolError::InvalidInstructionData);
    }
    match verify_init_preconditions(ctx_is_writable, ctx_data, JPY_MATCHER_MAGIC) {
        Err(e) => {
            return Err(e);
        },
        Ok(()) => {},
    }

    write_header(ctx_data, JPY_MATCHER_MAGIC, data[1], lp_key);
    proof {
        let s = ctx_data@;
        assert forall|k: int| 0 <= k < 32 implies s[80 + k] == lp_key@[k] by {
            assert(s.subrange(80, 112)[k] == lp_key@[k]);
        }
    }

    ctx_data[MIN_KYC_LEVEL_OFFSET] = data[2];
    ctx_data[REQUIRE_SAME_JURISDICTION_OFFSET] = data[3];

    copy_into(ctx_data, KYC_REGISTRY_OFFSET, data, 4, 32);
    proof {
        let s = ctx_data@;
        assert forall|k: int| 0 <= k < 32 implies #[trigger] s[KYC_REGISTRY_OFFSET + k] == data@[4
            + k] by {
            assert(s.subrange(KYC_REGISTRY_OFFSET as int, KYC_REGISTRY_OFFSET + 32)[k]
                == data@.subrange(4, 36)[k]);
        }
    }

    write_u32_le(ctx_data, BASE_SPREAD_OFFSET, read_u32_le(data, 36));
    write_u32_le(ctx_data, KYC_DISCOUNT_OFFSET, read_u32_le(data, 40));
    write_u32_le(ctx_data, MAX_SPREAD_OFFSET, read_u32_le(data, 44));

    ctx_data[BLOCKED_JURISDICTIONS_OFFSET] = data[48];
    fill_zero(ctx_data, 157, 7);

    write_u64_le(ctx_data, ORACLE_PRICE_OFFSET, 0);
    write_u64_le(ctx_data, DAILY_VOLUME_CAP_OFFSET, read_u64_le(data, 49));
    write_u64_le(ctx_data, CURRENT_DAY_VOLUME_OFFSET, 0);
    write_i64_le(ctx_data, DAY_RESET_TIMESTAMP_OFFSET, 0);

    write_u32_le(ctx_data, IMPACT_K_OFFSET, read_u32_le(data, 57));

    copy_into(ctx_data, LIQUIDITY_OFFSET, data, 61, 16);
    proof {
        let s = ctx_data@;
        assert forall|k: int| 0 <= k < 16 implies #[trigger] s[LIQUIDITY_OFFSET + k] == data@[61
            + k] by {
            assert(s.subrange(LIQUIDITY_OFFSET as int, LIQUIDITY_OFFSET + 16)[k] == data@.subrange(
                61,
                77,
            )[k]);
        }
    }
    copy_into(ctx_data, MAX_FILL_OFFSET, data, 77, 16);
    proof {
        let s = ctx_data@;
        assert forall|k: int| 0 <= k < 16 implies #[trigger] s[MAX_FILL_OFFSET + k] == data@[77
            + k] by {
            assert(s.subrange(MAX_FILL_OFFSET as int, MAX_FILL_OFFSET + 16)[k] == data@.subrange(
                77,
                93,
            )[k]);
        }
    }

    fill_zero(ctx_data, 232, CTX_SIZE - 232);

    proof {
        assert(ctx_data@.subrange(80, 112) =~= lp_key@);
        assert(ctx_data@.subrange(KYC_REGISTRY_OFFSET as int, KYC_REGISTRY_OFFSET + 32)
            =~= data@.subrange(4, 36));
        assert(ctx_data@.subrange(LIQUIDITY_OFFSET as int, LIQUIDITY_OFFSET + 16) =~= data@.subrange(
            61,
            77,
        ));
        assert(ctx_data@.subrange(MAX_FILL_OFFSET as int, MAX_FILL_OFFSET + 16) =~= data@.subrange(
            77,
            93,
        ));
    }

    Ok(())
}

/// Update the oracle price (JPY/USD). Any signed authority may; a zero
/// price is refused.
pub fn process_oracle_update(
    authority_is_signer: bool,
    ctx_is_writable: bool,
    ctx_data: &mut Vec<u8>,
    data: &Vec<u8>,
) -> (r: Result<(), ProtocolError>)
    ensures
        r == jpy_oracle_update_outcome(
            authority_is_signer,
            ctx_is_writable,
            old(ctx_data)@,
            data@,
        ),
        r is Err ==> final(ctx_data)@ == old(ctx_data)@,
        r is Ok ==> {
            &&& final(ctx_data)@.len() == old(ctx_data)@.len()
            &&& u64_le_at(final(ctx_data)@, ORACLE_PRICE_OFFSET as int) == u64_le_at(data@, 1)
            &&& forall|j: int|
                0 <= j < final(ctx_data)@.len() && !(ORACLE_PRICE_OFFSET <= j < ORACLE_PRICE_OFFSET
                    + 8) ==> final(ctx_data)@[j] == old(ctx_data)@[j]
        },
{
    if data.len() < 9 {
        return Err(ProtocolError::InvalidInstructionData);
    }
    if !authority_is_signer {
        return Err(ProtocolError::MissingRequiredSignature);
    }
    if !ctx_is_writable {
        return Err(ProtocolError::InvalidAccountData);
    }
    if !crate::jpy::state::verify_magic(ctx_data) {
        return Err(ProtocolError::UninitializedAccount);
    }

    let new_price = read_u64_le(data, 1);
    if new_price == 0 {
        return Err(JpyMatcherError::OraclePriceNotSet.into_protocol());
    }

    write_u64_le(ctx_data, ORACLE_PRICE_OFFSET, new_price);

    Ok(())
}

} // verus!
