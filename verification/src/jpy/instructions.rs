//! Instruction surface of the KYC-compliance matcher, for client
//! metadata.

use vstd::prelude::*;

verus! {

/// The compliance matcher's opcodes. `Match` is 0x00, `Init` 0x02 and
/// `OracleUpdate` 0x03 on the wire.
pub enum JpyMatcherInstruction {
    /// Execute match with KYC, jurisdiction and volume verification.
    /// Accounts: LP PDA (signer), the matcher context (writable), then
    /// optionally the user's and the LP owner's whitelist entries.
    Match,
    /// Initialize the matcher context.
    /// Accounts: LP PDA to store, then the matcher context (writable).
    Init,
    /// Update the oracle price; any signed authority may.
    /// Accounts: authority (signer), then the matcher context (writable).
    OracleUpdate,
}

} // verus!
