//! Instructions and expressions.

use vstd::prelude::*;
use crate::codes::instr::{
    BLOCK, BR, BR_IF, BR_TABLE, CALL, CALL_INDIRECT, DROP, ELSE, END, F32_CONST, F64_CONST,
    F64_REINTERPRET_I64, GLOBAL_SET, I32_CONST, I32_EQZ, I32_LOAD, I64_CONST, I64_STORE32, IF,
    LOCAL_GET, LOOP, MEMORY_GROW, MEMORY_SIZE, NOP, RETURN, SELECT, UNREACHABLE,
};
use crate::cursor::{spec_byte, spec_le, Halt, Parsed};
use crate::error::ErrorKind;
use crate::grammar::integers::{spec_i32, spec_i64, spec_u32};
use crate::grammar::types::spec_block_type;
use crate::module::{InstrView, LabelIdx, MemArg};
use crate::vector::spec_vector;

verus! {

/// How many blocks, loops and ifs may be open at once. An instruction that
/// would open one more is refused.
pub const MAX_NESTING_DEPTH: usize = 1024;

/// How many bytes are left from `pos` on.
pub open spec fn left(s: Seq<u8>, pos: nat) -> nat {
    if pos <= s.len() {
        (s.len() - pos) as nat
    } else {
        0
    }
}

/// The opcodes of the instructions without immediates.
pub open spec fn is_plain(opcode: u8) -> bool {
    ||| opcode == UNREACHABLE
    ||| opcode == NOP
    ||| opcode == RETURN
    ||| opcode == DROP
    ||| opcode == SELECT
    ||| opcode == MEMORY_SIZE
    ||| opcode == MEMORY_GROW
    ||| I32_EQZ <= opcode <= F64_REINTERPRET_I64
}

/// The opcodes of the instructions with one index as their immediate.
pub open spec fn is_indexed(opcode: u8) -> bool {
    ||| opcode == BR
    ||| opcode == BR_IF
    ||| opcode == CALL
    ||| opcode == CALL_INDIRECT
    ||| LOCAL_GET <= opcode <= GLOBAL_SET
}

/// The opcodes of the loads and stores.
pub open spec fn is_memory(opcode: u8) -> bool {
    I32_LOAD <= opcode <= I64_STORE32
}

/// The opcodes of the instruction set: the closed table.
pub open spec fn is_opcode(opcode: u8) -> bool {
    ||| is_plain(opcode)
    ||| is_indexed(opcode)
    ||| is_memory(opcode)
    ||| opcode == I32_CONST
    ||| opcode == I64_CONST
    ||| opcode == F32_CONST
    ||| opcode == F64_CONST
    ||| opcode == BR_TABLE
    ||| opcode == BLOCK
    ||| opcode == LOOP
    ||| opcode == IF
}

/// Whether an instruction is refused for its opcode alone, before any of its
/// immediates is read: the opcode is not in the table, or it opens a block
/// where `depth` blocks are open and no more may be. Only such a failure
/// points at the opcode byte itself.
pub open spec fn refused_at_opcode(opcode: u8, depth: nat) -> bool {
    ||| !is_opcode(opcode)
    ||| ((opcode == BLOCK || opcode == LOOP || opcode == IF) && depth >= MAX_NESTING_DEPTH)
}

/// The immediate of a load or a store: the alignment exponent, then the offset.
pub open spec fn spec_mem_arg(s: Seq<u8>, pos: nat) -> Parsed<MemArg> {
    match spec_u32(s, pos) {
        Err(h) => Err(h),
        Ok((align, next)) => match spec_u32(s, next) {
            Err(h) => Err(h),
            Ok((offset, end)) => Ok((MemArg { offset, align }, end)),
        },
    }
}

/// The immediates of a branch table: a vector of labels, then the default label.
pub open spec fn spec_br_table(s: Seq<u8>, pos: nat) -> Parsed<InstrView> {
    match spec_vector::<LabelIdx>(s, pos) {
        Err(h) => Err(h),
        Ok((labels, next)) => match spec_u32(s, next) {
            Err(h) => Err(h),
            Ok((default, end)) => Ok(
                (InstrView::BrTable { labels, default: LabelIdx(default) }, end),
            ),
        },
    }
}

/// The instruction with the given opcode whose immediates stand at `pos`, with
/// `depth` blocks open around it. Where the instruction is refused for its
/// opcode alone ([`refused_at_opcode`]), the failure points at the byte before
/// `pos`, which is where the opcode stands.
///
/// A block and a loop hold a block type and a body that runs to its end marker.
/// An `if` holds a block type and a body that runs to an else marker or to an
/// end marker; after an else marker a second body runs to its end marker, and
/// without one the second body is empty.
pub open spec fn spec_instr(s: Seq<u8>, pos: nat, opcode: u8, depth: nat) -> Parsed<InstrView>
    decreases MAX_NESTING_DEPTH - depth, left(s, pos), 0nat,
{
    if is_plain(opcode) {
        Ok((InstrView::Plain { opcode }, pos))
    } else if is_indexed(opcode) {
        match spec_u32(s, pos) {
            Err(h) => Err(h),
            Ok((index, end)) => Ok((InstrView::Indexed { opcode, index }, end)),
        }
    } else if is_memory(opcode) {
        match spec_mem_arg(s, pos) {
            Err(h) => Err(h),
            Ok((arg, end)) => Ok((InstrView::Memory { opcode, arg }, end)),
        }
    } else if opcode == I32_CONST {
        match spec_i32(s, pos) {
            Err(h) => Err(h),
            Ok((value, end)) => Ok((InstrView::I32Const(value), end)),
        }
    } else if opcode == I64_CONST {
        match spec_i64(s, pos) {
            Err(h) => Err(h),
            Ok((value, end)) => Ok((InstrView::I64Const(value), end)),
        }
    } else if opcode == F32_CONST {
        match spec_le(s, pos, 4) {
            Err(h) => Err(h),
            Ok((bits, end)) => Ok((InstrView::F32Const(bits as u32), end)),
        }
    } else if opcode == F64_CONST {
        match spec_le(s, pos, 8) {
            Err(h) => Err(h),
            Ok((bits, end)) => Ok((InstrView::F64Const(bits as u64), end)),
        }
    } else if opcode == BR_TABLE {
        spec_br_table(s, pos)
    } else if opcode == BLOCK || opcode == LOOP || opcode == IF {
        if depth >= MAX_NESTING_DEPTH {
            Err(Halt::rejected(ErrorKind::NestingTooDeep, pos))
        } else {
            match spec_block_type(s, pos) {
                Err(h) => Err(h),
                Ok((result, next)) => match spec_instrs(s, next, depth + 1, opcode == IF) {
                    Err(h) => Err(h),
                    Ok(((body, at_else), mid)) => if opcode == BLOCK {
                        Ok((InstrView::Block { result, body }, mid))
                    } else if opcode == LOOP {
                        Ok((InstrView::Loop { result, body }, mid))
                    } else if !at_else {
                        Ok(
                            (
                                InstrView::If { result, then_body: body, else_body: Seq::empty() },
                                mid,
                            ),
                        )
                    } else {
                        match spec_instrs(s, mid, depth + 1, false) {
                            Err(h) => Err(h),
                            Ok(((else_body, _), end)) => Ok(
                                (InstrView::If { result, then_body: body, else_body }, end),
                            ),
                        }
                    },
                },
            }
        }
    } else {
        Err(Halt::rejected(ErrorKind::InvalidOpcode(opcode), pos))
    }
}

/// The instructions from `pos` up to the marker that closes them, with `depth`
/// blocks open around them, and whether that marker was an else marker. An end
/// marker always closes; an else marker closes only where `else_closes` says so.
///
/// Each instruction is an opcode byte followed by its immediates. No
/// instruction ends before its immediates begin, so the test for that never
/// fails ([`crate::laws::forward::lemma_instrs_step`] states the definition
/// without it); it is there to show that the recursion comes to an end.
pub open spec fn spec_instrs(s: Seq<u8>, pos: nat, depth: nat, else_closes: bool) -> Parsed<
    (Seq<InstrView>, bool),
>
    decreases MAX_NESTING_DEPTH - depth, left(s, pos), 1nat,
{
    match spec_byte(s, pos) {
        Err(h) => Err(h),
        Ok((opcode, next)) => if opcode == END {
            Ok(((Seq::empty(), false), next))
        } else if else_closes && opcode == ELSE {
            Ok(((Seq::empty(), true), next))
        } else {
            match spec_instr(s, next, opcode, depth) {
                Err(h) => Err(h),
                Ok((first, mid)) => if mid <= pos {
                    Err(Halt::starved(pos))
                } else {
                    match spec_instrs(s, mid, depth, else_closes) {
                        Err(h) => Err(h),
                        Ok(((rest, at_else), end)) => Ok(((seq![first] + rest, at_else), end)),
                    }
                },
            }
        },
    }
}

/// An expression: instructions up to an end marker, with no block open around
/// them.
pub open spec fn spec_expression(s: Seq<u8>, pos: nat) -> Parsed<Seq<InstrView>> {
    match spec_instrs(s, pos, 0, false) {
        Err(h) => Err(h),
        Ok(((body, _), end)) => Ok((body, end)),
    }
}

} // verus!
