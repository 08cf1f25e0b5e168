//! Event-probability matcher: prices against a prediction-market
//! probability, widening the spread as the probability nears 0% or 100%,
//! with a terminal resolve step that freezes the market.

pub mod errors;
pub mod instructions;
pub mod probability;
pub mod state;
