//! Volatility-regime matcher: prices a volatility mark, scaling the
//! vol-of-vol spread by a discrete volatility regime multiplier, with a
//! keeper sync gated on two bound oracle accounts.

pub mod errors;
pub mod instructions;
pub mod state;
pub mod vol_pricing;
