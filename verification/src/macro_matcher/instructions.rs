//! Instruction surface of the macro matcher, for client metadata.

use vstd::prelude::*;

verus! {

/// The macro matcher's opcodes. `Match` is 0x00, `Init` 0x02,
/// `IndexSync` 0x03 and `RegimeUpdate` 0x04 on the wire.
pub enum MacroMatcherInstruction {
    /// Execute match: regime-adjusted pricing over the rate index.
    /// Accounts: LP PDA (signer), then the matcher context (writable).
    Match,
    /// Initialize the matcher context.
    /// Accounts: LP PDA to store, then the matcher context (writable).
    Init,
    /// Keeper sync of the rate index, its components, and the signal.
    /// Accounts: matcher context (writable), then the macro oracle.
    IndexSync,
    /// Change the macro regime.
    /// Accounts: matcher context (writable), then the macro oracle (signer).
    RegimeUpdate,
}

} // verus!
