//! Pluggable pricing engines ("matchers") for a settlement protocol.
//!
//! Every matcher instance owns a fixed 320-byte context record holding a
//! shared header (type magic, version, mode, authority key) and a variant
//! body. Pricing calls authenticate the caller, read the variant's market
//! state, apply a spread-adjustment algorithm, and write the execution
//! price into the record's return-data region (its first eight bytes).
//!
//! The `common` module holds the shared record protocol; each variant
//! module holds its state layout, errors, and instruction handlers.

pub mod codec;
pub mod common;
pub mod event;
pub mod jpy;
pub mod macro_matcher;
pub mod privacy;
pub mod registry;
pub mod vol;
