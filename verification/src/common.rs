//! Shared context-record protocol: layout constants, verification
//! primitives, header and return-data writers, and spread pricing.

use vstd::prelude::*;

use crate::codec::{
    read_u64_le, u32_le_at, u64_le_at, write_u64_le, fill_zero, copy_into, read_bytes,
    range_equals,
};

verus! {

/// Size of every matcher context record, in bytes.
pub const CTX_SIZE: usize = 320;

/// Start of the return-data region (execution-price channel).
pub const RETURN_DATA_OFFSET: usize = 0;

/// Size of the return-data region.
pub const RETURN_DATA_SIZE: usize = 64;

/// Offset of the record's type magic.
pub const MAGIC_OFFSET: usize = 64;

/// Offset of the authority-binding ("LP PDA") key.
pub const LP_PDA_OFFSET: usize = 80;

/// Outcome of a protocol operation, mirroring the host error vocabulary.
/// `Custom` carries a variant-specific error code.
#[derive(Clone, Copy, Debug, PartialEq, Eq, Structural)]
pub enum ProtocolError {
    MissingRequiredSignature,
    UninitializedAccount,
    InvalidAccountData,
    AccountDataTooSmall,
    AccountAlreadyInitialized,
    NotEnoughAccountKeys,
    InvalidInstructionData,
    ArithmeticOverflow,
    Custom(u32),
}

// ---------------------------------------------------------------------------
// Spec: what the shared header means.
// ---------------------------------------------------------------------------

/// The magic stored in a record, or zero for one too short to hold it.
pub open spec fn spec_read_magic(s: Seq<u8>) -> u64 {
    if s.len() < MAGIC_OFFSET + 8 {
        0
    } else {
        u64_le_at(s, MAGIC_OFFSET as int)
    }
}

/// A record is typed `magic` exactly when it is full-sized and its stored
/// magic matches. Anything shorter than `CTX_SIZE` never matches.
pub open spec fn magic_matches(s: Seq<u8>, magic: u64) -> bool {
    s.len() >= CTX_SIZE && u64_le_at(s, MAGIC_OFFSET as int) == magic
}

/// The authority key bound to the record at initialization.
pub open spec fn spec_lp_pda(s: Seq<u8>) -> Seq<u8> {
    s.subrange(LP_PDA_OFFSET as int, LP_PDA_OFFSET + 32)
}

/// The mandatory ordered authority check for pricing calls:
/// signer, then initialization, then identity.
pub open spec fn lp_pda_check(
    lp_is_signer: bool,
    lp_key: Seq<u8>,
    ctx: Seq<u8>,
    expected_magic: u64,
) -> Result<(), ProtocolError> {
    if !lp_is_signer {
        Err(ProtocolError::MissingRequiredSignature)
    } else if !magic_matches(ctx, expected_magic) {
        Err(ProtocolError::UninitializedAccount)
    } else if lp_key != spec_lp_pda(ctx) {
        Err(ProtocolError::InvalidAccountData)
    } else {
        Ok(())
    }
}

/// The ordered initialization precondition check:
/// writability, then size, then no prior initialization.
pub open spec fn init_precheck(
    ctx_is_writable: bool,
    ctx: Seq<u8>,
    expected_magic: u64,
) -> Result<(), ProtocolError> {
    if !ctx_is_writable {
        Err(ProtocolError::InvalidAccountData)
    } else if ctx.len() < CTX_SIZE {
        Err(ProtocolError::AccountDataTooSmall)
    } else if magic_matches(ctx, expected_magic) {
        Err(ProtocolError::AccountAlreadyInitialized)
    } else {
        Ok(())
    }
}

/// Everything `write_header` promises of the record it produced:
/// return data zeroed, magic and version and mode set, padding zeroed,
/// authority key bound, and all bytes from offset 112 on untouched.
pub open spec fn header_written(
    old_s: Seq<u8>,
    new_s: Seq<u8>,
    magic: u64,
    mode: u8,
    lp_pda: Seq<u8>,
) -> bool {
    &&& new_s.len() == old_s.len()
    &&& forall|j: int| 0 <= j < 64 ==> new_s[j] == 0
    &&& u64_le_at(new_s, 64) == magic
    &&& u32_le_at(new_s, 72) == 1
    &&& new_s[76] == mode
    &&& forall|j: int| 77 <= j < 80 ==> new_s[j] == 0
    &&& new_s.subrange(80, 112) == lp_pda
    &&& forall|j: int| 112 <= j < new_s.len() ==> new_s[j] == old_s[j]
}

/// Slots elapsed since an oracle update, as the staleness checks compute
/// it: a saturating difference, so a stored slot in the future reads as
/// zero elapsed.
pub open spec fn slots_elapsed(current_slot: u64, last_update: u64) -> int {
    if current_slot >= last_update {
        current_slot - last_update
    } else {
        0
    }
}

// ---------------------------------------------------------------------------
// Spec: spread pricing.
// ---------------------------------------------------------------------------

/// The basis-point multiplier for a spread: `10000 + spread`, saturating.
pub open spec fn spread_mult(spread_bps: u64) -> u64 {
    if spread_bps + 10000 > u64::MAX {
        u64::MAX
    } else {
        (spread_bps + 10000) as u64
    }
}

/// The exact execution price `floor(price * (10000 + spread) / 10000)`,
/// before the representability check.
pub open spec fn exec_price_full(price: u64, spread_bps: u64) -> int {
    (price * spread_mult(spread_bps)) / 10000
}

/// What a pricing computation returns: the exact price when it is
/// representable in 64 bits, and `ArithmeticOverflow` otherwise — a
/// non-representable price surfaces rather than being silently reduced,
/// since a wrapped price would misprice the trade it settles.
pub open spec fn exec_price_checked(price: u64, spread_bps: u64) -> Result<u64, ProtocolError> {
    if exec_price_full(price, spread_bps) > u64::MAX {
        Err(ProtocolError::ArithmeticOverflow)
    } else {
        Ok(exec_price_full(price, spread_bps) as u64)
    }
}

// ---------------------------------------------------------------------------
// Exec: the protocol primitives.
// ---------------------------------------------------------------------------

/// Read the record's type magic; zero for a record too short to hold one.
pub fn read_magic(ctx_data: &Vec<u8>) -> (r: u64)
    ensures
        r == spec_read_magic(ctx_data@),
{
    if ctx_data.len() < MAGIC_OFFSET + 8 {
        return 0;
    }
    read_u64_le(ctx_data, MAGIC_OFFSET)
}

/// Read the authority-binding key stored in the record.
pub fn read_lp_pda(ctx_data: &Vec<u8>) -> (r: Vec<u8>)
    requires
        ctx_data.len() >= LP_PDA_OFFSET + 32,
    ensures
        r@ == spec_lp_pda(ctx_data@),
{
    read_bytes(ctx_data, LP_PDA_OFFSET, 32)
}

/// True exactly when the record is full-sized and typed `expected_magic`.
pub fn verify_magic(ctx_data: &Vec<u8>, expected_magic: u64) -> (r: bool)
    ensures
        r == magic_matches(ctx_data@, expected_magic),
{
    if ctx_data.len() < CTX_SIZE {
        return false;
    }
    read_magic(ctx_data) == expected_magic
}

/// The critical pricing-call authority check: the authority must have
/// signed, the record must be initialized with `expected_magic`, and the
/// authority's key must equal the one bound at initialization — in that
/// order, so an unsigned call learns nothing beyond "missing signature".
pub fn verify_lp_pda(
    lp_is_signer: bool,
    lp_key: &Vec<u8>,
    ctx_data: &Vec<u8>,
    expected_magic: u64,
) -> (r: Result<(), ProtocolError>)
    requires
        lp_key.len() == 32,
    ensures
        r == lp_pda_check(lp_is_signer, lp_key@, ctx_data@, expected_magic),
{
    if !lp_is_signer {
        return Err(ProtocolError::MissingRequiredSignature);
    }
    if !verify_magic(ctx_data, expected_magic) {
        return Err(ProtocolError::UninitializedAccount);
    }
    if !range_equals(ctx_data, LP_PDA_OFFSET, lp_key) {
        return Err(ProtocolError::InvalidAccountData);
    }
    Ok(())
}

/// The initialization guard: the record must be writable, full-sized, and
/// not already carry `expected_magic`.
pub fn verify_init_preconditions(
    ctx_is_writable: bool,
    ctx_data: &Vec<u8>,
    expected_magic: u64,
) -> (r: Result<(), ProtocolError>)
    ensures
        r == init_precheck(ctx_is_writable, ctx_data@, expected_magic),
{
    if !ctx_is_writable {
        return Err(ProtocolError::InvalidAccountData);
    }
    if ctx_data.len() < CTX_SIZE {
        return Err(ProtocolError::AccountDataTooSmall);
    }
    if verify_magic(ctx_data, expected_magic) {
        return Err(ProtocolError::AccountAlreadyInitialized);
    }
    Ok(())
}

/// Write the shared header: zero the return-data region, set magic,
/// version 1, mode, padding, and the authority-binding key. The only way a
/// record becomes initialized.
pub fn write_header(ctx_data: &mut Vec<u8>, magic: u64, mode: u8, lp_pda: &Vec<u8>)
    requires
        old(ctx_data).len() >= 112,
        lp_pda.len() == 32,
    ensures
        final(ctx_data).len() == old(ctx_data).len(),
        header_written(old(ctx_data)@, final(ctx_data)@, magic, mode, lp_pda@),
{
    fill_zero(ctx_data, RETURN_DATA_OFFSET, RETURN_DATA_SIZE);
    write_u64_le(ctx_data, MAGIC_OFFSET, magic);
    let one: u32 = 1;
    crate::codec::write_u32_le(ctx_data, 72, one);
    ctx_data[76] = mode;
    fill_zero(ctx_data, 77, 3);
    copy_into(ctx_data, LP_PDA_OFFSET, lp_pda, 0, 32);
    proof {
        assert(final(ctx_data)@.subrange(80, 112) == lp_pda@);
    }
}

/// Write the execution price into the return-data channel (bytes 0..8).
pub fn write_exec_price(ctx_data: &mut Vec<u8>, price: u64)
    requires
        old(ctx_data).len() >= 8,
    ensures
        final(ctx_data).len() == old(ctx_data).len(),
        u64_le_at(final(ctx_data)@, 0) == price,
        forall|j: int| 8 <= j < final(ctx_data)@.len() ==> final(ctx_data)@[j] == old(
            ctx_data,
        )@[j],
{
    write_u64_le(ctx_data, 0, price);
}

/// Execution price for a mark price and a spread in basis points:
/// `price * (10000 + spread_bps) / 10000` at 128-bit intermediate width.
/// Additive spread composition saturates; the multiplicative scaling is
/// checked: a price that does not fit 64 bits fails with
/// `ArithmeticOverflow` rather than being silently reduced.
pub fn compute_exec_price(price: u64, spread_bps: u64) -> (r: Result<u64, ProtocolError>)
    ensures
        r == exec_price_checked(price, spread_bps),
        exec_price_full(price, spread_bps) <= u64::MAX ==> r == Ok::<u64, ProtocolError>(
            exec_price_full(price, spread_bps) as u64,
        ),
        exec_price_full(price, spread_bps) > u64::MAX ==> r == Err::<u64, ProtocolError>(
            ProtocolError::ArithmeticOverflow,
        ),
{
    let multiplier: u64 = 10_000u64.saturating_add(spread_bps);
    proof {
        assert((price as u128) * (multiplier as u128) <= u128::MAX) by (nonlinear_arith)
            requires
                price <= u64::MAX,
                multiplier <= u64::MAX,
        ;
    }
    let prod = match (price as u128).checked_mul(multiplier as u128) {
        Some(p) => p,
        None => {
            return Err(ProtocolError::ArithmeticOverflow);
        },
    };
    let q: u128 = prod / 10_000u128;
    if q > u64::MAX as u128 {
        return Err(ProtocolError::ArithmeticOverflow);
    }
    Ok(q as u64)
}

/// What every mutating call after initialization must leave intact: the
/// record's size, its type magic, and its authority-binding key.
pub open spec fn header_binding_preserved(old_s: Seq<u8>, new_s: Seq<u8>) -> bool {
    &&& new_s.len() == old_s.len()
    &&& u64_le_at(new_s, MAGIC_OFFSET as int) == u64_le_at(old_s, MAGIC_OFFSET as int)
    &&& spec_lp_pda(new_s) == spec_lp_pda(old_s)
}

// ---------------------------------------------------------------------------
// Laws of the shared protocol.
// ---------------------------------------------------------------------------

/// Writing a header with `magic` yields a record that passes the magic
/// check for `magic` and fails it for every other value.
pub proof fn lemma_header_then_magic(
    old_s: Seq<u8>,
    new_s: Seq<u8>,
    magic: u64,
    mode: u8,
    lp_pda: Seq<u8>,
    other: u64,
)
    requires
        old_s.len() >= CTX_SIZE,
        header_written(old_s, new_s, magic, mode, lp_pda),
    ensures
        magic_matches(new_s, magic),
        other != magic ==> !magic_matches(new_s, other),
{
}

/// A record shorter than `CTX_SIZE` fails every verification path, whatever
/// bytes it holds: the magic check, the pricing-call authority check, and
/// the initialization guard all reject it.
pub proof fn lemma_short_record_rejected(s: Seq<u8>, magic: u64)
    requires
        s.len() < CTX_SIZE,
    ensures
        !magic_matches(s, magic),
        forall|b: bool, k: Seq<u8>| lp_pda_check(b, k, s, magic) is Err,
        forall|w: bool| init_precheck(w, s, magic) is Err,
{
}

/// The execution price is monotonically non-decreasing in the spread:
/// whenever the wider spread still prices successfully, the narrower one
/// does too, and at or below its price.
pub proof fn lemma_exec_price_monotone(price: u64, s1: u64, s2: u64)
    requires
        s1 <= s2,
        exec_price_checked(price, s2) is Ok,
    ensures
        exec_price_full(price, s1) <= exec_price_full(price, s2),
        exec_price_checked(price, s1) == Ok::<u64, ProtocolError>(
            exec_price_full(price, s1) as u64,
        ),
{
    assert(spread_mult(s1) <= spread_mult(s2));
    assert(price * spread_mult(s1) <= price * spread_mult(s2)) by (nonlinear_arith)
        requires
            spread_mult(s1) <= spread_mult(s2),
    ;
    assert(exec_price_full(price, s1) <= exec_price_full(price, s2)) by {
        vstd::arithmetic::div_mod::lemma_div_is_ordered(
            (price * spread_mult(s1)) as int,
            (price * spread_mult(s2)) as int,
            10000,
        );
    }
    assert(0 <= exec_price_full(price, s1)) by (nonlinear_arith);
}

/// A zero spread prices at exactly the mark: `compute_exec_price(p, 0) == Ok(p)`.
pub proof fn lemma_exec_price_zero_spread(price: u64)
    ensures
        exec_price_checked(price, 0) == Ok::<u64, ProtocolError>(price),
        exec_price_full(price, 0) == price,
{
    assert(spread_mult(0) == 10000);
    assert((price * 10000) / 10000 == price) by (nonlinear_arith);
}

} // verus!
