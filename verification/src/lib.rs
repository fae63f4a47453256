//! Decoder for the binary encoding of version-1 WebAssembly modules.
//!
//! The grammar of the format is written down as specification functions over
//! byte sequences; the executable decoder is proved to compute exactly what
//! that grammar prescribes, failures and their byte offsets included.
//!
//! - [`cursor`]: the forward-only reader that every decoder works on.
//! - [`decoder`]: the decoder itself; [`decoder::Decoder::decode`] takes a
//!   whole module.
//! - [`vector`]: the one combinator under every repeated structure.
//! - [`module`]: what a module is decoded to.
//! - [`error`]: what a failed decoding returns.
//! - [`grammar`]: what the bytes mean.
//! - [`laws`]: what follows from the grammar.
//! - [`codes`]: the bytes with a meaning of their own.
//! - [`config`]: the command line of the program around the decoder.

pub mod codes;
pub mod config;
pub mod cursor;
pub mod decoder;
pub mod error;
pub mod grammar;
pub mod laws;
pub mod module;
pub mod vector;
