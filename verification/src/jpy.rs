//! KYC-compliance matcher (JPY): layers a KYC, jurisdiction and
//! daily-volume compliance gate over a discount-adjusted spread.

pub mod compliance;
pub mod errors;
pub mod instructions;
pub mod pricing;
pub mod state;
