//! Byte-conversion helpers for a proof-verification bridge.
//!
//! The crate offers two conversions: trimming the public-input words off a
//! proof buffer and returning the remainder as a lowercase hex string, and
//! re-encoding the Solidity-byte form of a verification key (or the parse
//! error reported for it) as a host-visible string.

pub mod convert;
pub mod encoding;
