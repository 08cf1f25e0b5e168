//! Errors of the solver-verified matcher.

use vstd::prelude::*;

use crate::common::ProtocolError;

verus! {

#[derive(Debug, Clone, Copy, PartialEq, Eq, Structural)]
pub enum PrivacyMatcherError {
    InvalidSpreadConfig,
    UnauthorizedSolver,
    OraclePriceNotSet,
    ArithmeticOverflow,
}

impl PrivacyMatcherError {
    /// The stable error code this variant reports to the host.
    pub open spec fn code_spec(self) -> u32 {
        match self {
            PrivacyMatcherError::InvalidSpreadConfig => 0x10,
            PrivacyMatcherError::UnauthorizedSolver => 0x11,
            PrivacyMatcherError::OraclePriceNotSet => 0x12,
            PrivacyMatcherError::ArithmeticOverflow => 0x13,
        }
    }

    pub open spec fn as_protocol(self) -> ProtocolError {
        ProtocolError::Custom(self.code_spec())
    }

    pub fn code(self) -> (r: u32)
        ensures
            r == self.code_spec(),
    {
        match self {
            PrivacyMatcherError::InvalidSpreadConfig => 0x10,
            PrivacyMatcherError::UnauthorizedSolver => 0x11,
            PrivacyMatcherError::OraclePriceNotSet => 0x12,
            PrivacyMatcherError::ArithmeticOverflow => 0x13,
        }
    }

    pub fn into_protocol(self) -> (r: ProtocolError)
        ensures
            r == self.as_protocol(),
    {
        ProtocolError::Custom(self.code())
    }
}

} // verus!
