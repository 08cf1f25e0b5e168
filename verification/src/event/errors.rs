//! Errors of the event-probability matcher.

use vstd::prelude::*;

use crate::common::ProtocolError;

verus! {

#[derive(Debug, Clone, Copy, PartialEq, Eq, Structural)]
pub enum EventMatcherError {
    MarketResolved,
    InvalidProbability,
    ProbabilityNotSet,
    OracleStale,
    OracleMismatch,
    InvalidOutcome,
    InvalidSignalSeverity,
    ArithmeticOverflow,
}

impl EventMatcherError {
    /// The stable error code this variant reports to the host.
    pub open spec fn code_spec(self) -> u32 {
        match self {
            EventMatcherError::MarketResolved => 0x200,
            EventMatcherError::InvalidProbability => 0x201,
            EventMatcherError::ProbabilityNotSet => 0x202,
            EventMatcherError::OracleStale => 0x203,
            EventMatcherError::OracleMismatch => 0x204,
            EventMatcherError::InvalidOutcome => 0x205,
            EventMatcherError::InvalidSignalSeverity => 0x206,
            EventMatcherError::ArithmeticOverflow => 0x207,
        }
    }

    pub open spec fn as_protocol(self) -> ProtocolError {
        ProtocolError::Custom(self.code_spec())
    }

    pub fn code(self) -> (r: u32)
        ensures
            r == self.code_spec(),
    {
        match self {
            EventMatcherError::MarketResolved => 0x200,
            EventMatcherError::InvalidProbability => 0x201,
            EventMatcherError::ProbabilityNotSet => 0x202,
            EventMatcherError::OracleStale => 0x203,
            EventMatcherError::OracleMismatch => 0x204,
            EventMatcherError::InvalidOutcome => 0x205,
            EventMatcherError::InvalidSignalSeverity => 0x206,
            EventMatcherError::ArithmeticOverflow => 0x207,
        }
    }

    pub fn into_protocol(self) -> (r: ProtocolError)
        ensures
            r == self.as_protocol(),
    {
        ProtocolError::Custom(self.code())
    }
}

} // verus!
