//! A trustless two-party asset swap that releases a deposited asset only
//! after verifying, byte for byte, that the counterparty's payment — a
//! separate instruction bundled in the same atomic transaction — has exactly
//! the expected shape: origin program, opcode, amount and destination.

pub mod controller;
pub mod error;
pub mod introspect;
pub mod keys;
pub mod record;
pub mod settlement;
pub mod verification;
