//! Instruction surface of the solver-verified matcher, for client
//! metadata.

use vstd::prelude::*;

verus! {

/// The solver-verified matcher's opcodes. `Match` is 0x00, `Init` 0x02
/// and `OracleUpdate` 0x03 on the wire.
pub enum PrivacyMatcherInstruction {
    /// Execute match: oracle price plus base spread and solver fee.
    /// Accounts: LP PDA (signer), then the matcher context (writable).
    Match,
    /// Initialize the matcher context.
    /// Accounts: LP PDA to store, the matcher context (writable), then
    /// the solver wallet whose key is bound for oracle updates.
    Init,
    /// Update the oracle price; only the bound solver, signing, may.
    /// Accounts: solver wallet (signer), then the matcher context
    /// (writable).
    OracleUpdate,
}

} // verus!
