//! Instruction surface of the event matcher, for client metadata.

use vstd::prelude::*;

verus! {

/// The event matcher's opcodes. `Match` is 0x00, `Init` 0x02,
/// `ProbabilitySync` 0x03 and `Resolve` 0x04 on the wire.
pub enum EventMatcherInstruction {
    /// Execute match: probability-based pricing with edge spread.
    /// Accounts: LP PDA (signer), then the matcher context (writable).
    Match,
    /// Initialize the matcher context.
    /// Accounts: LP PDA to store, then the matcher context (writable).
    Init,
    /// Sync probability from the bound event oracle.
    /// Accounts: matcher context (writable), then the event oracle.
    ProbabilitySync,
    /// Resolve the event: set the final probability permanently.
    /// Accounts: matcher context (writable), then the event oracle (signer).
    Resolve,
}

} // verus!
