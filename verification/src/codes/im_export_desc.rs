//! Tags of import and export descriptors.

use vstd::prelude::*;

verus! {

/// A function, given by a type index.
pub const TYPE: u8 = 0x00;

/// A table, given by its type.
pub const TABLE: u8 = 0x01;

/// A memory, given by its type.
pub const MEM: u8 = 0x02;

/// A global, given by its type.
pub const GLOBAL: u8 = 0x03;

} // verus!
