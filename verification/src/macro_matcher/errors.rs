//! Errors of the macro-regime matcher.

use vstd::prelude::*;

use crate::common::ProtocolError;

verus! {

#[derive(Debug, Clone, Copy, PartialEq, Eq, Structural)]
pub enum MacroMatcherError {
    IndexNotSynced,
    OracleStale,
    OracleMismatch,
    InvalidRegime,
    InvalidSignalSeverity,
    ArithmeticOverflow,
    InvalidIndexValue,
}

impl MacroMatcherError {
    /// The stable error code this variant reports to the host.
    pub open spec fn code_spec(self) -> u32 {
        match self {
            MacroMatcherError::IndexNotSynced => 0x300,
            MacroMatcherError::OracleStale => 0x301,
            MacroMatcherError::OracleMismatch => 0x302,
            MacroMatcherError::InvalidRegime => 0x303,
            MacroMatcherError::InvalidSignalSeverity => 0x304,
            MacroMatcherError::ArithmeticOverflow => 0x305,
            MacroMatcherError::InvalidIndexValue => 0x306,
        }
    }

    pub open spec fn as_protocol(self) -> ProtocolError {
        ProtocolError::Custom(self.code_spec())
    }

    pub fn code(self) -> (r: u32)
        ensures
            r == self.code_spec(),
    {
        match self {
            MacroMatcherError::IndexNotSynced => 0x300,
            MacroMatcherError::OracleStale => 0x301,
            MacroMatcherError::OracleMismatch => 0x302,
            MacroMatcherError::InvalidRegime => 0x303,
            MacroMatcherError::InvalidSignalSeverity => 0x304,
            MacroMatcherError::ArithmeticOverflow => 0x305,
            MacroMatcherError::InvalidIndexValue => 0x306,
        }
    }

    pub fn into_protocol(self) -> (r: ProtocolError)
        ensures
            r == self.as_protocol(),
    {
        ProtocolError::Custom(self.code())
    }
}

} // verus!
