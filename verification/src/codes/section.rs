//! Section codes: the byte that a section begins with.

use vstd::prelude::*;

verus! {

/// A custom section. It is not decoded.
pub const CUSTOM: u8 = 0;

/// The type section: function types.
pub const TYPE: u8 = 1;

/// The import section.
pub const IMPORT: u8 = 2;

/// The function section: the type index of each function.
pub const FUNCTION: u8 = 3;

/// The table section.
pub const TABLE: u8 = 4;

/// The memory section.
pub const MEMORY: u8 = 5;

/// The global section.
pub const GLOBAL: u8 = 6;

/// The export section.
pub const EXPORT: u8 = 7;

/// The start section.
pub const START: u8 = 8;

/// The element section.
pub const ELEMENT: u8 = 9;

/// The code section: the locals and the body of each function.
pub const CODE: u8 = 10;

/// The data section.
pub const DATA: u8 = 11;

} // verus!
