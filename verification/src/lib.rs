//! A verified decoder for the Bitcoin legacy block wire format.
//!
//! The crate turns a flat byte buffer into typed records: block header,
//! variable-length integers, transactions with their inputs, outputs and
//! scripts. Every decoder is a pure function from a buffer and a position to
//! a value and the position just past it, specified against a mathematical
//! model of the wire format. A hex codec converts between the textual
//! transport encoding and raw bytes.

pub mod errors;
pub mod hex;
pub mod prims;
pub mod records;
pub mod script;
