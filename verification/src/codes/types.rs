//! Tags of types and of their parts.

use vstd::prelude::*;

verus! {

/// The value type of 32-bit integers.
pub const I32: u8 = 0x7F;

/// The value type of 64-bit integers.
pub const I64: u8 = 0x7E;

/// The value type of 32-bit floats.
pub const F32: u8 = 0x7D;

/// The value type of 64-bit floats.
pub const F64: u8 = 0x7C;

/// The element type of a table: a function reference.
pub const FUNCREF: u8 = 0x70;

/// The marker in front of a function type.
pub const FUNCTION: u8 = 0x60;

/// The block type of a block that leaves nothing on the stack.
pub const RESULT: u8 = 0x40;

/// The mutability of a global that is never assigned to.
pub const CONST: u8 = 0x00;

/// The mutability of a global that can be assigned to.
pub const VAR: u8 = 0x01;

/// The flag of limits with a minimum only.
pub const LIMIT_NO_MAX: u8 = 0x00;

/// The flag of limits with a minimum and a maximum.
pub const LIMIT_MAX: u8 = 0x01;

} // verus!
