//! Errors of the KYC-compliance matcher.

use vstd::prelude::*;

use crate::common::ProtocolError;

verus! {

#[derive(Debug, Clone, Copy, PartialEq, Eq, Structural)]
pub enum JpyMatcherError {
    InsufficientKycLevel,
    KycExpired,
    JurisdictionBlocked,
    JurisdictionMismatch,
    DailyVolumeLimitExceeded,
    OraclePriceNotSet,
    ArithmeticOverflow,
    InvalidComplianceData,
}

impl JpyMatcherError {
    /// The stable error code this variant reports to the host.
    pub open spec fn code_spec(self) -> u32 {
        match self {
            JpyMatcherError::InsufficientKycLevel => 0x100,
            JpyMatcherError::KycExpired => 0x101,
            JpyMatcherError::JurisdictionBlocked => 0x102,
            JpyMatcherError::JurisdictionMismatch => 0x103,
            JpyMatcherError::DailyVolumeLimitExceeded => 0x104,
            JpyMatcherError::OraclePriceNotSet => 0x105,
            JpyMatcherError::ArithmeticOverflow => 0x106,
            JpyMatcherError::InvalidComplianceData => 0x107,
        }
    }

    pub open spec fn as_protocol(self) -> ProtocolError {
        ProtocolError::Custom(self.code_spec())
    }

    pub fn code(self) -> (r: u32)
        ensures
            r == self.code_spec(),
    {
        match self {
            JpyMatcherError::InsufficientKycLevel => 0x100,
            JpyMatcherError::KycExpired => 0x101,
            JpyMatcherError::JurisdictionBlocked => 0x102,
            JpyMatcherError::JurisdictionMismatch => 0x103,
            JpyMatcherError::DailyVolumeLimitExceeded => 0x104,
            JpyMatcherError::OraclePriceNotSet => 0x105,
            JpyMatcherError::ArithmeticOverflow => 0x106,
            JpyMatcherError::InvalidComplianceData => 0x107,
        }
    }

    pub fn into_protocol(self) -> (r: ProtocolError)
        ensures
            r == self.as_protocol(),
    {
        ProtocolError::Custom(self.code())
    }
}

} // verus!
