//! The opcodes that decide how an instruction is decoded: those with a shape
//! of their own, and the first and the last of each run of opcodes that share
//! one. The opcode of every single instruction is in
//! [`crate::module::instr_view`].

use vstd::prelude::*;

verus! {

/// `unreachable`
pub const UNREACHABLE: u8 = 0x00;

/// `nop`
pub const NOP: u8 = 0x01;

/// `block`
pub const BLOCK: u8 = 0x02;

/// `loop`
pub const LOOP: u8 = 0x03;

/// `if`
pub const IF: u8 = 0x04;

/// The marker between the two bodies of an `if`.
pub const ELSE: u8 = 0x05;

/// The marker that closes a block, a loop, an `if` and an expression.
pub const END: u8 = 0x0B;

/// `br`
pub const BR: u8 = 0x0C;

/// `br_if`
pub const BR_IF: u8 = 0x0D;

/// `br_table`
pub const BR_TABLE: u8 = 0x0E;

/// `return`
pub const RETURN: u8 = 0x0F;

/// `call`
pub const CALL: u8 = 0x10;

/// `call_indirect`
pub const CALL_INDIRECT: u8 = 0x11;

/// `drop`
pub const DROP: u8 = 0x1A;

/// `select`
pub const SELECT: u8 = 0x1B;

/// `local.get`, the first of the instructions on locals and globals.
pub const LOCAL_GET: u8 = 0x20;

/// `global.set`, the last of the instructions on locals and globals.
pub const GLOBAL_SET: u8 = 0x24;

/// `i32.load`, the first of the loads and stores.
pub const I32_LOAD: u8 = 0x28;

/// `i64.store32`, the last of the loads and stores.
pub const I64_STORE32: u8 = 0x3E;

/// `memory.size`
pub const MEMORY_SIZE: u8 = 0x3F;

/// `memory.grow`
pub const MEMORY_GROW: u8 = 0x40;

/// `i32.const`
pub const I32_CONST: u8 = 0x41;

/// `i64.const`
pub const I64_CONST: u8 = 0x42;

/// `f32.const`
pub const F32_CONST: u8 = 0x43;

/// `f64.const`
pub const F64_CONST: u8 = 0x44;

/// `i32.eqz`, the first of the numeric instructions without immediates.
pub const I32_EQZ: u8 = 0x45;

/// `f64.reinterpret_i64`, the last of the numeric instructions without
/// immediates.
pub const F64_REINTERPRET_I64: u8 = 0xBF;

} // verus!
