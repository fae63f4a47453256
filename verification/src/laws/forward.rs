//! The grammar reads forward: no part of it ends before it begins, and a
//! failure never leaves the cursor before the place the part began at.

use vstd::prelude::*;
use crate::codes::instr::{
    BLOCK, BR_TABLE, ELSE, END, F32_CONST, F64_CONST, I32_CONST, I64_CONST, IF, LOOP,
};
use crate::cursor::{forward, spec_byte};
use crate::grammar::assembly::{spec_section, spec_sections, DraftView};
use crate::grammar::instructions::{
    is_indexed, is_memory, is_plain, left, spec_expression, spec_instr, spec_instrs,
    MAX_NESTING_DEPTH,
};
use crate::grammar::integers::{lemma_int_bounds, lemma_uint_bounds, spec_u32, spec_uint};
use crate::grammar::sections::{spec_code, spec_code_entry, spec_data, spec_elem, spec_global};
use crate::grammar::types::{
    spec_export, spec_func_type, spec_imp_export_description, spec_import, spec_limits,
    spec_mem_type, spec_string, spec_table_type,
};
use crate::module::{
    Data, Elem, Export, Expr, FuncIdx, FuncType, Global, Import, LabelIdx, Mem, Table, TypeIdx,
    ValType,
};
use crate::vector::{lemma_vector_forward, spec_vector};

verus! {

/// Limits never go backward.
pub proof fn lemma_limits_forward(s: Seq<u8>, pos: nat)
    ensures
        forward(spec_limits(s, pos), pos),
        forward(spec_mem_type(s, pos), pos),
{
    lemma_uint_bounds(s, pos + 1, 32);
    match spec_u32(s, pos + 1) {
        Ok((_, mid)) => lemma_uint_bounds(s, mid, 32),
        Err(_) => {},
    }
}

/// A table type never goes backward.
pub proof fn lemma_table_type_forward(s: Seq<u8>, pos: nat)
    ensures
        forward(spec_table_type(s, pos), pos),
{
    lemma_limits_forward(s, pos + 1);
}

/// A descriptor never goes backward.
pub proof fn lemma_description_forward(s: Seq<u8>, pos: nat)
    ensures
        forward(spec_imp_export_description(s, pos), pos),
{
    lemma_uint_bounds(s, pos + 1, 32);
    lemma_table_type_forward(s, pos + 1);
    lemma_limits_forward(s, pos + 1);
}

/// A name never goes backward.
pub proof fn lemma_string_forward(s: Seq<u8>, pos: nat)
    ensures
        forward(spec_string(s, pos), pos),
{
    lemma_uint_bounds(s, pos, 32);
}

/// A function type never goes backward.
pub proof fn lemma_func_type_forward(s: Seq<u8>, pos: nat)
    ensures
        forward(spec_func_type(s, pos), pos),
{
    lemma_vector_forward::<ValType>(s, pos + 1);
    match spec_vector::<ValType>(s, pos + 1) {
        Ok((_, mid)) => lemma_vector_forward::<ValType>(s, mid),
        Err(_) => {},
    }
}

/// An import never goes backward.
pub proof fn lemma_import_forward(s: Seq<u8>, pos: nat)
    ensures
        forward(spec_import(s, pos), pos),
{
    lemma_string_forward(s, pos);
    match spec_string(s, pos) {
        Ok((_, next)) => {
            lemma_export_forward(s, next);
        },
        Err(_) => {},
    }
}

/// An export never goes backward.
pub proof fn lemma_export_forward(s: Seq<u8>, pos: nat)
    ensures
        forward(spec_export(s, pos), pos),
{
    lemma_string_forward(s, pos);
    match spec_string(s, pos) {
        Ok((_, next)) => lemma_description_forward(s, next),
        Err(_) => {},
    }
}

/// An instruction never goes backward, and a run of instructions ends behind
/// where it begins: at the least, its closing marker was read.
pub proof fn lemma_instr_advances(s: Seq<u8>, pos: nat, opcode: u8, depth: nat)
    ensures
        forward(spec_instr(s, pos, opcode, depth), pos),
    decreases MAX_NESTING_DEPTH - depth, left(s, pos), 0nat,
{
    if is_plain(opcode) {
    } else if is_indexed(opcode) {
        lemma_uint_bounds(s, pos, 32);
    } else if is_memory(opcode) {
        lemma_uint_bounds(s, pos, 32);
        match spec_u32(s, pos) {
            Ok((_, next)) => lemma_uint_bounds(s, next, 32),
            Err(_) => {},
        }
    } else if opcode == I32_CONST {
        lemma_int_bounds(s, pos, 32);
    } else if opcode == I64_CONST {
        lemma_int_bounds(s, pos, 64);
    } else if opcode == F32_CONST {
    } else if opcode == F64_CONST {
    } else if opcode == BR_TABLE {
        lemma_vector_forward::<LabelIdx>(s, pos);
        match spec_vector::<LabelIdx>(s, pos) {
            Ok((_, next)) => lemma_uint_bounds(s, next, 32),
            Err(_) => {},
        }
    } else if opcode == BLOCK || opcode == LOOP || opcode == IF {
        if depth < MAX_NESTING_DEPTH {
            lemma_instrs_advance(s, pos + 1, depth + 1, opcode == IF);
            match spec_instrs(s, pos + 1, depth + 1, opcode == IF) {
                Ok((_, mid)) => lemma_instrs_advance(s, mid, depth + 1, false),
                Err(_) => {},
            }
        }
    }
}

/// A run of instructions ends behind where it begins: at the least, its closing
/// marker was read.
pub proof fn lemma_instrs_advance(s: Seq<u8>, pos: nat, depth: nat, else_closes: bool)
    ensures
        forward(spec_instrs(s, pos, depth, else_closes), pos),
        spec_instrs(s, pos, depth, else_closes) matches Ok((_, end)) ==> pos < end,
    decreases MAX_NESTING_DEPTH - depth, left(s, pos), 1nat,
{
    match spec_byte(s, pos) {
        Err(_) => {},
        Ok((opcode, next)) => {
            lemma_instr_advances(s, next, opcode, depth);
            match spec_instr(s, next, opcode, depth) {
                Ok((_, mid)) => {
                    if mid > pos {
                        lemma_instrs_advance(s, mid, depth, else_closes);
                    }
                },
                Err(_) => {},
            }
        },
    }
}

/// A run of instructions, one step at a time: the definition of
/// [`spec_instrs`] without its test for an instruction that goes backward.
pub proof fn lemma_instrs_step(s: Seq<u8>, pos: nat, depth: nat, else_closes: bool)
    ensures
        spec_instrs(s, pos, depth, else_closes) == match spec_byte(s, pos) {
            Err(h) => Err(h),
            Ok((opcode, next)) => if opcode == END {
                Ok(((Seq::empty(), false), next))
            } else if else_closes && opcode == ELSE {
                Ok(((Seq::empty(), true), next))
            } else {
                match spec_instr(s, next, opcode, depth) {
                    Err(h) => Err(h),
                    Ok((first, mid)) => match spec_instrs(s, mid, depth, else_closes) {
                        Err(h) => Err(h),
                        Ok(((rest, at_else), end)) => Ok(((seq![first] + rest, at_else), end)),
                    },
                }
            },
        },
{
    match spec_byte(s, pos) {
        Err(_) => {},
        Ok((opcode, next)) => lemma_instr_advances(s, next, opcode, depth),
    }
}

/// An expression ends behind where it begins.
pub proof fn lemma_expression_forward(s: Seq<u8>, pos: nat)
    ensures
        forward(spec_expression(s, pos), pos),
{
    lemma_instrs_advance(s, pos, 0, false);
}

/// A global never goes backward.
pub proof fn lemma_global_forward(s: Seq<u8>, pos: nat)
    ensures
        forward(spec_global(s, pos), pos),
{
    lemma_expression_forward(s, pos);
}

/// An element segment never goes backward.
pub proof fn lemma_elem_forward(s: Seq<u8>, pos: nat)
    ensures
        forward(spec_elem(s, pos), pos),
{
    lemma_uint_bounds(s, pos, 32);
    match spec_u32(s, pos) {
        Ok((_, next)) => {
            lemma_expression_forward(s, next);
            match spec_expression(s, next) {
                Ok((_, mid)) => lemma_vector_forward::<FuncIdx>(s, mid),
                Err(_) => {},
            }
        },
        Err(_) => {},
    }
}

/// A data segment never goes backward.
pub proof fn lemma_data_forward(s: Seq<u8>, pos: nat)
    ensures
        forward(spec_data(s, pos), pos),
{
    lemma_uint_bounds(s, pos, 32);
    match spec_u32(s, pos) {
        Ok((_, next)) => {
            lemma_expression_forward(s, next);
            match spec_expression(s, next) {
                Ok((_, mid)) => lemma_vector_forward::<u8>(s, mid),
                Err(_) => {},
            }
        },
        Err(_) => {},
    }
}

/// The code of a function never goes backward.
pub proof fn lemma_code_forward(s: Seq<u8>, pos: nat)
    ensures
        forward(spec_code(s, pos), pos),
{
    lemma_vector_forward::<Vec<ValType>>(s, pos);
    match spec_vector::<Vec<ValType>>(s, pos) {
        Ok((_, next)) => lemma_expression_forward(s, next),
        Err(_) => {},
    }
}

/// An entry of the code section never goes backward.
pub proof fn lemma_code_entry_forward(s: Seq<u8>, pos: nat)
    ensures
        forward(spec_code_entry(s, pos), pos),
{
    lemma_uint_bounds(s, pos, 32);
    match spec_u32(s, pos) {
        Ok((_, next)) => lemma_code_forward(s, next),
        Err(_) => {},
    }
}

/// The payload of a section never goes backward.
pub proof fn lemma_payload_forward(s: Seq<u8>, pos: nat, code: u8, so_far: DraftView)
    ensures
        forward(spec_section(s, pos, code, so_far), pos),
{
    reveal(spec_section);
    lemma_vector_forward::<FuncType>(s, pos);
    lemma_vector_forward::<Import>(s, pos);
    lemma_vector_forward::<TypeIdx>(s, pos);
    lemma_vector_forward::<Table>(s, pos);
    lemma_vector_forward::<Mem>(s, pos);
    lemma_vector_forward::<Global>(s, pos);
    lemma_vector_forward::<Export>(s, pos);
    lemma_uint_bounds(s, pos, 32);
    lemma_vector_forward::<Elem>(s, pos);
    lemma_vector_forward::<(Vec<ValType>, Expr)>(s, pos);
    lemma_vector_forward::<Data>(s, pos);
}

/// The sections of a module, one step at a time: the definition of
/// [`spec_sections`] without its test for a section that goes backward.
pub proof fn lemma_sections_step(s: Seq<u8>, pos: nat, so_far: DraftView)
    ensures
        spec_sections(s, pos, so_far) == match spec_byte(s, pos) {
            Err(_) => Ok(so_far),
            Ok((code, next)) => match spec_uint(s, next, 32) {
                Err(h) => Err(h.error),
                Ok((_, payload)) => match spec_section(s, payload, code, so_far) {
                    Err(h) => Err(h.error),
                    Ok((grown, end)) => spec_sections(s, end, grown),
                },
            },
        },
{
    match spec_byte(s, pos) {
        Ok((code, next)) => {
            lemma_uint_bounds(s, next, 32);
            match spec_uint(s, next, 32) {
                Ok((_, payload)) => lemma_payload_forward(s, payload, code, so_far),
                Err(_) => {},
            }
        },
        Err(_) => {},
    }
}

} // verus!
