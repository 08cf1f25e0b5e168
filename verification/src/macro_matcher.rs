//! Macro-regime matcher: prices a rate index, scaling the spread by a
//! discrete macroeconomic regime multiplier, with keeper-driven index
//! sync and oracle-signed regime updates.

pub mod errors;
pub mod instructions;
pub mod pricing;
pub mod state;
