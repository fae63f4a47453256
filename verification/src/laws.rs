//! What holds of the grammar as a whole, proved from its definition.

pub mod decoding;
pub mod forward;
pub mod integers;
pub mod opcodes;
pub mod truncation;
