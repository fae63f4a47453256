//! Decoding instructions and expressions.

use vstd::prelude::*;
use crate::codes::instr::{
    BLOCK, BR, BR_IF, BR_TABLE, CALL, CALL_INDIRECT, ELSE, END, F32_CONST, F64_CONST, GLOBAL_SET,
    I32_CONST, I32_LOAD, I64_CONST, I64_STORE32, IF, LOCAL_GET, LOOP,
};
use crate::cursor::{obeys, Cursor, Halt, Parsed};
use crate::decoder::Decoder;
use crate::error::{DecodeError, ErrorKind};
use crate::grammar::instructions::{
    is_indexed, is_memory, is_plain, refused_at_opcode, spec_br_table, spec_expression, spec_instr, spec_instrs,
    spec_mem_arg, MAX_NESTING_DEPTH,
};
use crate::module::{
    instr_view, instrs_view, lemma_instrs_view, Else, End, Expr, FuncIdx, GlobalIdx, Instr,
    InstrView, LabelIdx, LocalIdx, MemArg, TypeIdx,
};

verus! {

broadcast use crate::cursor::lemma_cursor_in_bounds;

/// The instructions of a body, without the note on which marker closed it.
pub open spec fn spec_body(s: Seq<u8>, pos: nat, depth: nat) -> Parsed<Seq<InstrView>> {
    match spec_instrs(s, pos, depth, false) {
        Err(h) => Err(h),
        Ok(((body, _), end)) => Ok((body, end)),
    }
}

impl Decoder {
    /// The instruction without immediates that has the given opcode, if there
    /// is one.
    pub fn plain_instruction(opcode: u8) -> (r: Option<Instr>)
        ensures
            match r {
                Some(instr) => is_plain(opcode) && instr_view(instr) == (InstrView::Plain {
                    opcode,
                }),
                None => !is_plain(opcode),
            },
    {
        match opcode {
            0x00 => Some(Instr::Unreachable),
            0x01 => Some(Instr::Nop),
            0x0F => Some(Instr::Return),
            0x1A => Some(Instr::Drop),
            0x1B => Some(Instr::Select),
            0x3F => Some(Instr::MemorySize),
            0x40 => Some(Instr::MemoryGrow),
            0x45 => Some(Instr::I32Eqz),
            0x46 => Some(Instr::I32Eq),
            0x47 => Some(Instr::I32Ne),
            0x48 => Some(Instr::I32LtS),
            0x49 => Some(Instr::I32LtU),
            0x4A => Some(Instr::I32GtS),
            0x4B => Some(Instr::I32GtU),
            0x4C => Some(Instr::I32LeS),
            0x4D => Some(Instr::I32LeU),
            0x4E => Some(Instr::I32GeS),
            0x4F => Some(Instr::I32GeU),
            0x50 => Some(Instr::I64Eqz),
            0x51 => Some(Instr::I64Eq),
            0x52 => Some(Instr::I64Ne),
            0x53 => Some(Instr::I64LtS),
            0x54 => Some(Instr::I64LtU),
            0x55 => Some(Instr::I64GtS),
            0x56 => Some(Instr::I64GtU),
            0x57 => Some(Instr::I64LeS),
            0x58 => Some(Instr::I64LeU),
            0x59 => Some(Instr::I64GeS),
            0x5A => Some(Instr::I64GeU),
            0x5B => Some(Instr::F32Eq),
            0x5C => Some(Instr::F32Ne),
            0x5D => Some(Instr::F32Lt),
            0x5E => Some(Instr::F32Gt),
            0x5F => Some(Instr::F32Le),
            0x60 => Some(Instr::F32Ge),
            0x61 => Some(Instr::F64Eq),
            0x62 => Some(Instr::F64Ne),
            0x63 => Some(Instr::F64Lt),
            0x64 => Some(Instr::F64Gt),
            0x65 => Some(Instr::F64Le),
            0x66 => Some(Instr::F64Ge),
            0x67 => Some(Instr::I32Clz),
            0x68 => Some(Instr::I32Ctz),
            0x69 => Some(Instr::I32Popcnt),
            0x6A => Some(Instr::I32Add),
            0x6B => Some(Instr::I32Sub),
            0x6C => Some(Instr::I32Mul),
            0x6D => Some(Instr::I32DivS),
            0x6E => Some(Instr::I32DivU),
            0x6F => Some(Instr::I32RemS),
            0x70 => Some(Instr::I32RemU),
            0x71 => Some(Instr::I32And),
            0x72 => Some(Instr::I32Or),
            0x73 => Some(Instr::I32Xor),
            0x74 => Some(Instr::I32Shl),
            0x75 => Some(Instr::I32ShrS),
            0x76 => Some(Instr::I32ShrU),
            0x77 => Some(Instr::I32Rotl),
            0x78 => Some(Instr::I32Rotr),
            0x79 => Some(Instr::I64Clz),
            0x7A => Some(Instr::I64Ctz),
            0x7B => Some(Instr::I64Popcnt),
            0x7C => Some(Instr::I64Add),
            0x7D => Some(Instr::I64Sub),
            0x7E => Some(Instr::I64Mul),
            0x7F => Some(Instr::I64DivS),
            0x80 => Some(Instr::I64DivU),
            0x81 => Some(Instr::I64RemS),
            0x82 => Some(Instr::I64RemU),
            0x83 => Some(Instr::I64And),
            0x84 => Some(Instr::I64Or),
            0x85 => Some(Instr::I64Xor),
            0x86 => Some(Instr::I64Shl),
            0x87 => Some(Instr::I64ShrS),
            0x88 => Some(Instr::I64ShrU),
            0x89 => Some(Instr::I64Rotl),
            0x8A => Some(Instr::I64Rotr),
            0x8B => Some(Instr::F32Abs),
            0x8C => Some(Instr::F32Neg),
            0x8D => Some(Instr::F32Ceil),
            0x8E => Some(Instr::F32Floor),
            0x8F => Some(Instr::F32Trunc),
            0x90 => Some(Instr::F32Nearest),
            0x91 => Some(Instr::F32Sqrt),
            0x92 => Some(Instr::F32Add),
            0x93 => Some(Instr::F32Sub),
            0x94 => Some(Instr::F32Mul),
            0x95 => Some(Instr::F32Div),
            0x96 => Some(Instr::F32Min),
            0x97 => Some(Instr::F32Max),
            0x98 => Some(Instr::F32Copysign),
            0x99 => Some(Instr::F64Abs),
            0x9A => Some(Instr::F64Neg),
            0x9B => Some(Instr::F64Ceil),
            0x9C => Some(Instr::F64Floor),
            0x9D => Some(Instr::F64Trunc),
            0x9E => Some(Instr::F64Nearest),
            0x9F => Some(Instr::F64Sqrt),
            0xA0 => Some(Instr::F64Add),
            0xA1 => Some(Instr::F64Sub),
            0xA2 => Some(Instr::F64Mul),
            0xA3 => Some(Instr::F64Div),
            0xA4 => Some(Instr::F64Min),
            0xA5 => Some(Instr::F64Max),
            0xA6 => Some(Instr::F64Copysign),
            0xA7 => Some(Instr::I32WrapI64),
            0xA8 => Some(Instr::I32TruncF32S),
            0xA9 => Some(Instr::I32TruncF32U),
            0xAA => Some(Instr::I32TruncF64S),
            0xAB => Some(Instr::I32TruncF64U),
            0xAC => Some(Instr::I64ExtendI32S),
            0xAD => Some(Instr::I64ExtendI32U),
            0xAE => Some(Instr::I64TruncF32S),
            0xAF => Some(Instr::I64TruncF32U),
            0xB0 => Some(Instr::I64TruncF64S),
            0xB1 => Some(Instr::I64TruncF64U),
            0xB2 => Some(Instr::F32ConvertI32S),
            0xB3 => Some(Instr::F32ConvertI32U),
            0xB4 => Some(Instr::F32ConvertI64S),
            0xB5 => Some(Instr::F32ConvertI64U),
            0xB6 => Some(Instr::F32DemoteF64),
            0xB7 => Some(Instr::F64ConvertI32S),
            0xB8 => Some(Instr::F64ConvertI32U),
            0xB9 => Some(Instr::F64ConvertI64S),
            0xBA => Some(Instr::F64ConvertI64U),
            0xBB => Some(Instr::F64PromoteF32),
            0xBC => Some(Instr::I32ReinterpretF32),
            0xBD => Some(Instr::I64ReinterpretF64),
            0xBE => Some(Instr::F32ReinterpretI32),
            0xBF => Some(Instr::F64ReinterpretI64),
            _ => None,
        }
    }

    /// The instruction with the given opcode and the given index as its
    /// immediate, if there is one.
    pub fn indexed_instruction(opcode: u8, index: u32) -> (r: Option<Instr>)
        ensures
            match r {
                Some(instr) => is_indexed(opcode) && instr_view(instr) == (InstrView::Indexed {
                    opcode,
                    index,
                }),
                None => !is_indexed(opcode),
            },
    {
        match opcode {
            0x0C => Some(Instr::Br(LabelIdx(index))),
            0x0D => Some(Instr::BrIf(LabelIdx(index))),
            0x10 => Some(Instr::Call(FuncIdx(index))),
            0x11 => Some(Instr::CallIndirect(TypeIdx(index))),
            0x20 => Some(Instr::LocalGet(LocalIdx(index))),
            0x21 => Some(Instr::LocalSet(LocalIdx(index))),
            0x22 => Some(Instr::LocalTee(LocalIdx(index))),
            0x23 => Some(Instr::GlobalGet(GlobalIdx(index))),
            0x24 => Some(Instr::GlobalSet(GlobalIdx(index))),
            _ => None,
        }
    }

    /// The load or store with the given opcode and the given immediate, if
    /// there is one.
    pub fn memory_instruction(opcode: u8, arg: MemArg) -> (r: Option<Instr>)
        ensures
            match r {
                Some(instr) => is_memory(opcode) && instr_view(instr) == (InstrView::Memory {
                    opcode,
                    arg,
                }),
                None => !is_memory(opcode),
            },
    {
        match opcode {
            0x28 => Some(Instr::I32Load(arg)),
            0x29 => Some(Instr::I64Load(arg)),
            0x2A => Some(Instr::F32Load(arg)),
            0x2B => Some(Instr::F64Load(arg)),
            0x2C => Some(Instr::I32Load8S(arg)),
            0x2D => Some(Instr::I32Load8U(arg)),
            0x2E => Some(Instr::I32Load16S(arg)),
            0x2F => Some(Instr::I32Load16U(arg)),
            0x30 => Some(Instr::I64Load8S(arg)),
            0x31 => Some(Instr::I64Load8U(arg)),
            0x32 => Some(Instr::I64Load16S(arg)),
            0x33 => Some(Instr::I64Load16U(arg)),
            0x34 => Some(Instr::I64Load32S(arg)),
            0x35 => Some(Instr::I64Load32U(arg)),
            0x36 => Some(Instr::I32Store(arg)),
            0x37 => Some(Instr::I64Store(arg)),
            0x38 => Some(Instr::F32Store(arg)),
            0x39 => Some(Instr::F64Store(arg)),
            0x3A => Some(Instr::I32Store8(arg)),
            0x3B => Some(Instr::I32Store16(arg)),
            0x3C => Some(Instr::I64Store8(arg)),
            0x3D => Some(Instr::I64Store16(arg)),
            0x3E => Some(Instr::I64Store32(arg)),
            _ => None,
        }
    }

    /// Decodes the immediate of a load or a store.
    pub fn decode_mem_arg(cursor: &mut Cursor) -> (r: Result<MemArg, DecodeError>)
        ensures
            obeys(
                r,
                *old(cursor),
                *final(cursor),
                spec_mem_arg(old(cursor).bytes(), old(cursor).pos()),
            ),
    {
        let align = Self::decode_u32(cursor)?;
        let offset = Self::decode_u32(cursor)?;
        Ok(MemArg { offset, align })
    }

    /// Decodes the immediates of a branch table.
    pub fn decode_br_table(cursor: &mut Cursor) -> (r: Result<Instr, DecodeError>)
        ensures
            obeys(
                r,
                *old(cursor),
                *final(cursor),
                spec_br_table(old(cursor).bytes(), old(cursor).pos()),
            ),
    {
        let labels = Self::process_vector::<LabelIdx>(cursor)?;
        let default = LabelIdx(Self::decode_u32(cursor)?);
        assert(labels.deep_view() =~= labels@);
        Ok(Instr::BrTable(labels, default))
    }

    /// Decodes an expression: instructions up to the end marker.
    pub fn decode_expression(cursor: &mut Cursor) -> (r: Result<Expr, DecodeError>)
        ensures
            obeys(
                r,
                *old(cursor),
                *final(cursor),
                spec_expression(old(cursor).bytes(), old(cursor).pos()),
            ),
    {
        broadcast use lemma_instrs_view;

        Ok(Expr(Self::decode_instr_until_end(cursor, 0)?, End))
    }

    /// Decodes instructions up to the end marker, with `depth` blocks open
    /// around them.
    pub fn decode_instr_until_end(cursor: &mut Cursor, depth: usize) -> (r: Result<
        Vec<Instr>,
        DecodeError,
    >)
        ensures
            obeys(
                r,
                *old(cursor),
                *final(cursor),
                spec_body(old(cursor).bytes(), old(cursor).pos(), depth as nat),
            ),
        decreases MAX_NESTING_DEPTH - depth, 3nat,
    {
        let (instructions, _) = Self::decode_instrs(cursor, depth, false)?;
        Ok(instructions)
    }

    /// Decodes instructions up to an else marker or an end marker, whichever
    /// comes first, with `depth` blocks open around them. The flag says whether
    /// it was an else marker.
    pub fn decode_instr_until_else(cursor: &mut Cursor, depth: usize) -> (r: Result<
        (Vec<Instr>, bool),
        DecodeError,
    >)
        ensures
            obeys(
                r,
                *old(cursor),
                *final(cursor),
                spec_instrs(old(cursor).bytes(), old(cursor).pos(), depth as nat, true),
            ),
        decreases MAX_NESTING_DEPTH - depth, 3nat,
    {
        Self::decode_instrs(cursor, depth, true)
    }

    /// Decodes instructions up to the marker that closes them.
    fn decode_instrs(cursor: &mut Cursor, depth: usize, else_closes: bool) -> (r: Result<
        (Vec<Instr>, bool),
        DecodeError,
    >)
        ensures
            obeys(
                r,
                *old(cursor),
                *final(cursor),
                spec_instrs(old(cursor).bytes(), old(cursor).pos(), depth as nat, else_closes),
            ),
        decreases MAX_NESTING_DEPTH - depth, 2nat,
    {
        broadcast use lemma_instrs_view;

        let ghost s = cursor.bytes();
        let ghost start = cursor.pos();
        let mut instructions: Vec<Instr> = Vec::new();
        assert(instrs_view(instructions@) + Seq::empty() =~= Seq::empty());
        loop
            invariant
                old(cursor).bytes() == s,
                old(cursor).pos() == start,
                cursor.bytes() == s,
                start <= cursor.pos(),
                match spec_instrs(s, cursor.pos(), depth as nat, else_closes) {
                    Ok(((rest, at_else), end)) => spec_instrs(s, start, depth as nat, else_closes)
                        == Ok::<_, Halt>(((instrs_view(instructions@) + rest, at_else), end)),
                    Err(h) => spec_instrs(s, start, depth as nat, else_closes) == Err::<
                        ((Seq<InstrView>, bool), nat),
                        _,
                    >(h),
                },
            decreases s.len() - cursor.pos(),
        {
            let ghost done = instrs_view(instructions@);
            let opcode = cursor.read_byte()?;
            if opcode == END || (else_closes && opcode == ELSE) {
                assert(done + Seq::empty() =~= done);
                assert(instructions.deep_view() == done);
                return Ok((instructions, opcode == ELSE));
            }
            let instr = Self::decode_instruction(cursor, opcode, depth)?;
            instructions.push(instr);
            proof {
                assert(instrs_view(instructions@) =~= done + seq![instr_view(instr)]);
                match spec_instrs(s, cursor.pos(), depth as nat, else_closes) {
                    Ok(((rest, at_else), end)) => {
                        assert((done + seq![instr_view(instr)]) + rest =~= done + (
                        seq![instr_view(instr)] + rest));
                    },
                    Err(h) => {},
                }
            }
        }
    }

    /// Decodes what a block, a loop or an `if` holds behind its opcode, with
    /// `depth` blocks open around it.
    fn decode_nested(cursor: &mut Cursor, opcode: u8, depth: usize) -> (r: Result<
        Instr,
        DecodeError,
    >)
        requires
            opcode == BLOCK || opcode == LOOP || opcode == IF,
            old(cursor).pos() >= 1 || !refused_at_opcode(opcode, depth as nat),
        ensures
            obeys(
                r,
                *old(cursor),
                *final(cursor),
                spec_instr(old(cursor).bytes(), old(cursor).pos(), opcode, depth as nat),
            ),
        decreases MAX_NESTING_DEPTH - depth, 0nat,
    {
        broadcast use lemma_instrs_view;

        if depth >= MAX_NESTING_DEPTH {
            return Err(Self::error_at(cursor, ErrorKind::NestingTooDeep));
        }
        let result = Self::decode_block_type(cursor)?;
        if opcode == BLOCK {
            let body = Self::decode_instr_until_end(cursor, depth + 1)?;
            Ok(Instr::Block(result, body, End))
        } else if opcode == LOOP {
            let body = Self::decode_instr_until_end(cursor, depth + 1)?;
            Ok(Instr::Loop(result, body, End))
        } else {
            let (then_body, at_else) = Self::decode_instr_until_else(cursor, depth + 1)?;
            let else_body = if at_else {
                Self::decode_instr_until_end(cursor, depth + 1)?
            } else {
                let nothing: Vec<Instr> = Vec::new();
                assert(instrs_view(nothing@) =~= Seq::empty());
                nothing
            };
            Ok(Instr::If(result, then_body, Else, else_body, End))
        }
    }

    /// Decodes the instruction with the given opcode, whose immediates are what
    /// the cursor reads next, with `depth` blocks open around it.
    ///
    /// The cursor may stand anywhere, at the start of a buffer that holds only
    /// the immediates too. Only where the instruction is refused for its opcode
    /// alone, so that the failure points at the opcode byte, must the cursor
    /// stand behind that byte.
    pub fn decode_instruction(cursor: &mut Cursor, opcode: u8, depth: usize) -> (r: Result<
        Instr,
        DecodeError,
    >)
        requires
            old(cursor).pos() >= 1 || !refused_at_opcode(opcode, depth as nat),
        ensures
            obeys(
                r,
                *old(cursor),
                *final(cursor),
                spec_instr(old(cursor).bytes(), old(cursor).pos(), opcode, depth as nat),
            ),
        decreases MAX_NESTING_DEPTH - depth, 1nat,
    {
        let known = if let Some(instr) = Self::plain_instruction(opcode) {
            Some(instr)
        } else if opcode == BR || opcode == BR_IF || opcode == CALL || opcode == CALL_INDIRECT || (
        LOCAL_GET <= opcode && opcode <= GLOBAL_SET) {
            let index = Self::decode_u32(cursor)?;
            Self::indexed_instruction(opcode, index)
        } else if I32_LOAD <= opcode && opcode <= I64_STORE32 {
            let arg = Self::decode_mem_arg(cursor)?;
            Self::memory_instruction(opcode, arg)
        } else if opcode == I32_CONST {
            Some(Instr::I32Const(Self::decode_i32(cursor)?))
        } else if opcode == I64_CONST {
            Some(Instr::I64Const(Self::decode_i64(cursor)?))
        } else if opcode == F32_CONST {
            Some(Instr::F32Const(cursor.read_le_f32()?))
        } else if opcode == F64_CONST {
            Some(Instr::F64Const(cursor.read_le_f64()?))
        } else if opcode == BR_TABLE {
            Some(Self::decode_br_table(cursor)?)
        } else if opcode == BLOCK || opcode == LOOP || opcode == IF {
            Some(Self::decode_nested(cursor, opcode, depth)?)
        } else {
            None
        };
        match known {
            Some(instr) => Ok(instr),
            None => Err(Self::error_at(cursor, ErrorKind::InvalidOpcode(opcode))),
        }
    }
}

} // verus!
