//! Instruction surface of the volatility matcher, for client metadata.

use vstd::prelude::*;

verus! {

/// The volatility matcher's opcodes. `Match` is 0x00, `Init` 0x02 and
/// `OracleSync` 0x03 on the wire.
pub enum VolMatcherInstruction {
    /// Execute match: volatility-regime-adjusted pricing.
    /// Accounts: LP PDA (signer), then the matcher context (writable).
    Match,
    /// Initialize the matcher context.
    /// Accounts: LP PDA to store, then the matcher context (writable).
    Init,
    /// Keeper sync of the volatility state from the two bound oracles.
    /// Accounts: matcher context (writable), then the variance tracker,
    /// then the volatility index.
    OracleSync,
}

} // verus!
