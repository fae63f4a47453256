//! What becomes of instructions when the input ends too early: a body that is
//! decoded was closed by its marker inside the input, and one whose input is
//! cut off before that marker fails as a malformed stream.

use vstd::prelude::*;
use crate::codes::instr::{
    BLOCK, BR_TABLE, ELSE, END, F32_CONST, F64_CONST, I32_CONST, I64_CONST, IF, LOOP,
};
use crate::cursor::{spec_byte, spec_le, Parsed};
use crate::error::ErrorKind;
use crate::grammar::instructions::{
    is_indexed, is_memory, is_plain, left, spec_br_table, spec_expression, spec_instr,
    spec_instrs, spec_mem_arg, MAX_NESTING_DEPTH,
};
use crate::grammar::integers::{
    lemma_int_bounds, lemma_uint_bounds, spec_i32, spec_i64, spec_int, spec_u32, spec_uint,
};
use crate::laws::forward::{lemma_instr_advances, lemma_instrs_advance};
use crate::module::LabelIdx;
use crate::vector::{lemma_elements_forward, spec_elements};

verus! {

/// How the outcome on a whole input and the outcome on that input cut off at
/// `cut` go together, where the first is a value and begins at or before the
/// cut: if the value ends at or before the cut, the cut changes nothing; if it
/// ends behind the cut, the cut input fails as a malformed stream.
pub open spec fn cut_short<T>(whole: Parsed<T>, part: Parsed<T>, cut: nat) -> bool {
    match whole {
        Ok((_, end)) => if end <= cut {
            part == whole
        } else {
            part matches Err(h) && h.error.kind == ErrorKind::MalformedStream
        },
        Err(_) => true,
    }
}

/// One byte, with the input cut off.
pub proof fn lemma_byte_cut(s: Seq<u8>, pos: nat, cut: nat)
    requires
        pos <= cut <= s.len(),
    ensures
        cut_short(spec_byte(s, pos), spec_byte(s.take(cut as int), pos), cut),
{
}

/// A fixed-width number, with the input cut off.
pub proof fn lemma_le_cut(s: Seq<u8>, pos: nat, n: nat, cut: nat)
    requires
        pos <= cut <= s.len(),
    ensures
        cut_short(spec_le(s, pos, n), spec_le(s.take(cut as int), pos, n), cut),
{
    if pos + n <= cut {
        assert(s.take(cut as int).subrange(pos as int, (pos + n) as int) =~= s.subrange(
            pos as int,
            (pos + n) as int,
        ));
    }
}

/// An unsigned integer, with the input cut off.
pub proof fn lemma_uint_cut(s: Seq<u8>, pos: nat, width: nat, cut: nat)
    requires
        pos <= cut <= s.len(),
    ensures
        cut_short(spec_uint(s, pos, width), spec_uint(s.take(cut as int), pos, width), cut),
    decreases width,
{
    lemma_uint_bounds(s, pos, width);
    if pos < cut && s[pos as int] >= 128 && width > 7 {
        lemma_uint_cut(s, pos + 1, (width - 7) as nat, cut);
    }
}

/// An unsigned 32-bit integer, with the input cut off.
pub proof fn lemma_u32_cut(s: Seq<u8>, pos: nat, cut: nat)
    requires
        pos <= cut <= s.len(),
    ensures
        cut_short(spec_u32(s, pos), spec_u32(s.take(cut as int), pos), cut),
{
    lemma_uint_cut(s, pos, 32, cut);
}

/// A signed integer, with the input cut off.
pub proof fn lemma_int_cut(s: Seq<u8>, pos: nat, width: nat, cut: nat)
    requires
        pos <= cut <= s.len(),
        width >= 1,
    ensures
        cut_short(spec_int(s, pos, width), spec_int(s.take(cut as int), pos, width), cut),
        width == 32 ==> cut_short(spec_i32(s, pos), spec_i32(s.take(cut as int), pos), cut),
        width == 64 ==> cut_short(spec_i64(s, pos), spec_i64(s.take(cut as int), pos), cut),
    decreases width,
{
    lemma_int_bounds(s, pos, width);
    if pos < cut && s[pos as int] >= 128 && width > 7 {
        lemma_int_cut(s, pos + 1, (width - 7) as nat, cut);
    }
}

/// The immediate of a load or a store, with the input cut off.
pub proof fn lemma_mem_arg_cut(s: Seq<u8>, pos: nat, cut: nat)
    requires
        pos <= cut <= s.len(),
    ensures
        cut_short(spec_mem_arg(s, pos), spec_mem_arg(s.take(cut as int), pos), cut),
{
    lemma_u32_cut(s, pos, cut);
    match spec_u32(s, pos) {
        Ok((_, next)) => {
            lemma_uint_bounds(s, next, 32);
            if next <= cut {
                lemma_u32_cut(s, next, cut);
            }
        },
        Err(_) => {},
    }
}

/// Labels in a row, with the input cut off.
pub proof fn lemma_labels_cut(s: Seq<u8>, pos: nat, n: nat, cut: nat)
    requires
        pos <= cut <= s.len(),
    ensures
        cut_short(
            spec_elements::<LabelIdx>(s, pos, n),
            spec_elements::<LabelIdx>(s.take(cut as int), pos, n),
            cut,
        ),
    decreases n,
{
    if n > 0 {
        lemma_u32_cut(s, pos, cut);
        match spec_u32(s, pos) {
            Ok((_, next)) => {
                lemma_elements_forward::<LabelIdx>(s, next, (n - 1) as nat);
                if next <= cut {
                    lemma_labels_cut(s, next, (n - 1) as nat, cut);
                }
            },
            Err(_) => {},
        }
    }
}

/// The immediates of a branch table, with the input cut off.
pub proof fn lemma_br_table_cut(s: Seq<u8>, pos: nat, cut: nat)
    requires
        pos <= cut <= s.len(),
    ensures
        cut_short(spec_br_table(s, pos), spec_br_table(s.take(cut as int), pos), cut),
{
    lemma_u32_cut(s, pos, cut);
    match spec_u32(s, pos) {
        Ok((n, next)) => {
            lemma_elements_forward::<LabelIdx>(s, next, n as nat);
            match spec_elements::<LabelIdx>(s, next, n as nat) {
                Ok((_, mid)) => {
                    lemma_uint_bounds(s, mid, 32);
                    if mid <= cut {
                        lemma_u32_cut(s, mid, cut);
                    }
                },
                Err(_) => {},
            }
            if next <= cut {
                lemma_labels_cut(s, next, n as nat, cut);
            }
        },
        Err(_) => {},
    }
}

/// An instruction, with the input cut off.
pub proof fn lemma_instr_cut(s: Seq<u8>, pos: nat, opcode: u8, depth: nat, cut: nat)
    requires
        pos <= cut <= s.len(),
    ensures
        cut_short(
            spec_instr(s, pos, opcode, depth),
            spec_instr(s.take(cut as int), pos, opcode, depth),
            cut,
        ),
    decreases MAX_NESTING_DEPTH - depth, left(s, pos), 0nat,
{
    if is_plain(opcode) {
    } else if is_indexed(opcode) {
        lemma_u32_cut(s, pos, cut);
    } else if is_memory(opcode) {
        lemma_mem_arg_cut(s, pos, cut);
    } else if opcode == I32_CONST {
        lemma_int_cut(s, pos, 32, cut);
    } else if opcode == I64_CONST {
        lemma_int_cut(s, pos, 64, cut);
    } else if opcode == F32_CONST {
        lemma_le_cut(s, pos, 4, cut);
    } else if opcode == F64_CONST {
        lemma_le_cut(s, pos, 8, cut);
    } else if opcode == BR_TABLE {
        lemma_br_table_cut(s, pos, cut);
    } else if opcode == BLOCK || opcode == LOOP || opcode == IF {
        if depth < MAX_NESTING_DEPTH {
            lemma_instrs_advance(s, pos + 1, depth + 1, opcode == IF);
            match spec_instrs(s, pos + 1, depth + 1, opcode == IF) {
                Ok((_, mid)) => {
                    lemma_instrs_advance(s, mid, depth + 1, false);
                    if mid <= cut {
                        lemma_instrs_cut(s, mid, depth + 1, false, cut);
                    }
                },
                Err(_) => {},
            }
            if pos < cut {
                lemma_instrs_cut(s, pos + 1, depth + 1, opcode == IF, cut);
            }
        }
    }
}

/// A run of instructions, with the input cut off.
pub proof fn lemma_instrs_cut(s: Seq<u8>, pos: nat, depth: nat, else_closes: bool, cut: nat)
    requires
        pos <= cut <= s.len(),
    ensures
        cut_short(
            spec_instrs(s, pos, depth, else_closes),
            spec_instrs(s.take(cut as int), pos, depth, else_closes),
            cut,
        ),
    decreases MAX_NESTING_DEPTH - depth, left(s, pos), 1nat,
{
    match spec_byte(s, pos) {
        Err(_) => {},
        Ok((opcode, next)) => {
            if opcode == END || (else_closes && opcode == ELSE) {
            } else {
                lemma_instr_advances(s, next, opcode, depth);
                match spec_instr(s, next, opcode, depth) {
                    Ok((_, mid)) => {
                        lemma_instrs_advance(s, mid, depth, else_closes);
                        if mid <= cut {
                            lemma_instrs_cut(s, mid, depth, else_closes, cut);
                        }
                    },
                    Err(_) => {},
                }
                if next <= cut {
                    lemma_instr_cut(s, next, opcode, depth, cut);
                }
            }
        },
    }
}

/// A body that is decoded was closed: it ends inside the input, and the byte
/// it ends with is the end marker, or the else marker where the outcome says
/// so.
pub proof fn lemma_body_is_closed(s: Seq<u8>, pos: nat, depth: nat, else_closes: bool)
    ensures
        spec_instrs(s, pos, depth, else_closes) matches Ok(((_, at_else), end)) ==> {
            &&& pos < end <= s.len()
            &&& s[end - 1] == if at_else {
                ELSE
            } else {
                END
            }
            &&& at_else ==> else_closes
        },
    decreases MAX_NESTING_DEPTH - depth, left(s, pos), 1nat,
{
    match spec_byte(s, pos) {
        Err(_) => {},
        Ok((opcode, next)) => {
            if opcode == END || (else_closes && opcode == ELSE) {
            } else {
                match spec_instr(s, next, opcode, depth) {
                    Ok((_, mid)) => {
                        if mid > pos {
                            lemma_body_is_closed(s, mid, depth, else_closes);
                        }
                    },
                    Err(_) => {},
                }
            }
        },
    }
}

/// A body that is not closed before the input ends is a malformed stream.
/// Take an input on which a body is decoded, and cut it off anywhere within
/// the body, before the end of the marker that closes it: on what is left the
/// body fails, and it fails as a malformed stream.
pub proof fn lemma_unclosed_body_is_malformed(
    s: Seq<u8>,
    pos: nat,
    depth: nat,
    else_closes: bool,
    cut: nat,
)
    requires
        spec_instrs(s, pos, depth, else_closes) matches Ok((_, end)) && pos <= cut < end,
    ensures
        spec_instrs(s.take(cut as int), pos, depth, else_closes) matches Err(h) && h.error.kind
            == ErrorKind::MalformedStream,
{
    lemma_body_is_closed(s, pos, depth, else_closes);
    lemma_instrs_cut(s, pos, depth, else_closes, cut);
}

/// A block, a loop or an `if` that is not closed before the input ends is a
/// malformed stream. Take an input on which such an instruction is decoded,
/// and cut it off anywhere behind its opcode and before its end: on what is
/// left the instruction fails, and it fails as a malformed stream.
pub proof fn lemma_unclosed_block_is_malformed(
    s: Seq<u8>,
    pos: nat,
    opcode: u8,
    depth: nat,
    cut: nat,
)
    requires
        opcode == BLOCK || opcode == LOOP || opcode == IF,
        spec_instr(s, pos, opcode, depth) matches Ok((_, end)) && pos <= cut < end,
    ensures
        spec_instr(s.take(cut as int), pos, opcode, depth) matches Err(h) && h.error.kind
            == ErrorKind::MalformedStream,
{
    if depth < MAX_NESTING_DEPTH {
        lemma_body_is_closed(s, pos + 1, depth + 1, opcode == IF);
        match spec_instrs(s, pos + 1, depth + 1, opcode == IF) {
            Ok((_, mid)) => lemma_body_is_closed(s, mid, depth + 1, false),
            Err(_) => {},
        }
        lemma_instr_cut(s, pos, opcode, depth, cut);
    }
}

/// An expression that is not closed before the input ends is a malformed
/// stream.
pub proof fn lemma_unclosed_expression_is_malformed(s: Seq<u8>, pos: nat, cut: nat)
    requires
        spec_expression(s, pos) matches Ok((_, end)) && pos <= cut < end,
    ensures
        spec_expression(s.take(cut as int), pos) matches Err(h) && h.error.kind
            == ErrorKind::MalformedStream,
{
    lemma_unclosed_body_is_malformed(s, pos, 0, false, cut);
}

} // verus!
