//! Errors of the volatility-regime matcher.

use vstd::prelude::*;

use crate::common::ProtocolError;

verus! {

#[derive(Debug, Clone, Copy, PartialEq, Eq, Structural)]
pub enum VolMatcherError {
    OracleNotSynced,
    OracleStale,
    OracleAccountMismatch,
    InvalidRegime,
    ArithmeticOverflow,
}

impl VolMatcherError {
    /// The stable error code this variant reports to the host.
    pub open spec fn code_spec(self) -> u32 {
        match self {
            VolMatcherError::OracleNotSynced => 0x20,
            VolMatcherError::OracleStale => 0x21,
            VolMatcherError::OracleAccountMismatch => 0x22,
            VolMatcherError::InvalidRegime => 0x23,
            VolMatcherError::ArithmeticOverflow => 0x24,
        }
    }

    pub open spec fn as_protocol(self) -> ProtocolError {
        ProtocolError::Custom(self.code_spec())
    }

    pub fn code(self) -> (r: u32)
        ensures
            r == self.code_spec(),
    {
        match self {
            VolMatcherError::OracleNotSynced => 0x20,
            VolMatcherError::OracleStale => 0x21,
            VolMatcherError::OracleAccountMismatch => 0x22,
            VolMatcherError::InvalidRegime => 0x23,
            VolMatcherError::ArithmeticOverflow => 0x24,
        }
    }

    pub fn into_protocol(self) -> (r: ProtocolError)
        ensures
            r == self.as_protocol(),
    {
        ProtocolError::Custom(self.code())
    }
}

} // verus!
