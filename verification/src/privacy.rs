//! Solver-verified matcher: prices an oracle price plus a fixed solver
//! fee; oracle updates are restricted to one designated solver key.

pub mod errors;
pub mod instructions;
pub mod match_engine;
pub mod state;
