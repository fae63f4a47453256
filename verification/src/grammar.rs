//! The grammar of the binary format, as specification functions from a byte
//! sequence and a position to the value that stands there.

pub mod assembly;
pub mod instructions;
pub mod integers;
pub mod sections;
pub mod types;
