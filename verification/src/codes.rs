//! The bytes that the binary format gives a meaning.

use vstd::prelude::*;

pub mod im_export_desc;
pub mod instr;
pub mod section;
pub mod types;

verus! {

/// The four bytes every module begins with: a zero byte and `asm`.
pub const MAGIC: [u8; 4] = [0x00, 0x61, 0x73, 0x6d];

/// The one version of the format that is decoded.
pub const VERSION: u32 = 1;

} // verus!
