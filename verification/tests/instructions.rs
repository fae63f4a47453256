use wasm_interpreter::cursor::Cursor;
use wasm_interpreter::decoder::Decoder;
use wasm_interpreter::error::{DecodeError, ErrorKind};
use wasm_interpreter::grammar::instructions::MAX_NESTING_DEPTH;
use wasm_interpreter::module::{
    Else, End, Expr, FuncIdx, GlobalIdx, Instr, LabelIdx, LocalIdx, MemArg, ResultType, TypeIdx,
    ValType,
};

fn fail(kind: ErrorKind, offset: usize) -> DecodeError {
    DecodeError { kind, offset, context: Vec::new() }
}

/// Decodes the instruction whose opcode is the first byte.
fn one(bytes: &[u8]) -> (Result<Instr, DecodeError>, usize) {
    let mut cursor = Cursor::new(bytes);
    let opcode = cursor.read_byte().unwrap();
    let result = Decoder::decode_instruction(&mut cursor, opcode, 0);
    (result, cursor.position())
}

fn expression(bytes: &[u8]) -> (Result<Expr, DecodeError>, usize) {
    let mut cursor = Cursor::new(bytes);
    let result = Decoder::decode_expression(&mut cursor);
    (result, cursor.position())
}

#[test]
fn plain_instructions_take_no_bytes() {
    for (opcode, expected) in [
        (0x00u8, Instr::Unreachable),
        (0x01, Instr::Nop),
        (0x0F, Instr::Return),
        (0x1A, Instr::Drop),
        (0x1B, Instr::Select),
        (0x3F, Instr::MemorySize),
        (0x40, Instr::MemoryGrow),
        (0x45, Instr::I32Eqz),
        (0x4F, Instr::I32GeU),
        (0x50, Instr::I64Eqz),
        (0x5A, Instr::I64GeU),
        (0x5B, Instr::F32Eq),
        (0x60, Instr::F32Ge),
        (0x61, Instr::F64Eq),
        (0x66, Instr::F64Ge),
        (0x67, Instr::I32Clz),
        (0x6A, Instr::I32Add),
        (0x78, Instr::I32Rotr),
        (0x79, Instr::I64Clz),
        (0x7C, Instr::I64Add),
        (0x8A, Instr::I64Rotr),
        (0x8B, Instr::F32Abs),
        (0x98, Instr::F32Copysign),
        (0x99, Instr::F64Abs),
        (0xA6, Instr::F64Copysign),
        (0xA7, Instr::I32WrapI64),
        (0xAC, Instr::I64ExtendI32S),
        (0xB2, Instr::F32ConvertI32S),
        (0xB6, Instr::F32DemoteF64),
        (0xB7, Instr::F64ConvertI32S),
        (0xBB, Instr::F64PromoteF32),
        (0xBC, Instr::I32ReinterpretF32),
        (0xBD, Instr::I64ReinterpretF64),
        (0xBE, Instr::F32ReinterpretI32),
        (0xBF, Instr::F64ReinterpretI64),
    ] {
        assert_eq!(one(&[opcode, 0xFF]), (Ok(expected), 1));
    }
}

#[test]
fn every_opcode_is_in_exactly_one_table_or_none() {
    let arg = MemArg { offset: 0, align: 0 };
    let mut plain = 0;
    let mut indexed = 0;
    let mut memory = 0;
    for opcode in 0u8..=255 {
        let tables = [
            Decoder::plain_instruction(opcode).is_some(),
            Decoder::indexed_instruction(opcode, 0).is_some(),
            Decoder::memory_instruction(opcode, arg).is_some(),
        ];
        assert!(tables.iter().filter(|t| **t).count() <= 1);
        plain += tables[0] as usize;
        indexed += tables[1] as usize;
        memory += tables[2] as usize;
    }
    assert_eq!((plain, indexed, memory), (130, 9, 23));
}

#[test]
fn no_two_opcodes_give_the_same_instruction() {
    let arg = MemArg { offset: 3, align: 2 };
    let mut seen: Vec<Instr> = Vec::new();
    for opcode in 0u8..=255 {
        let found = Decoder::plain_instruction(opcode)
            .or(Decoder::indexed_instruction(opcode, 9))
            .or(Decoder::memory_instruction(opcode, arg));
        if let Some(instr) = found {
            assert!(!seen.contains(&instr));
            seen.push(instr);
        }
    }
    assert_eq!(seen.len(), 162);
}

#[test]
fn indexed_instructions_take_one_index() {
    for (opcode, expected) in [
        (0x0Cu8, Instr::Br(LabelIdx(300))),
        (0x0D, Instr::BrIf(LabelIdx(300))),
        (0x10, Instr::Call(FuncIdx(300))),
        (0x11, Instr::CallIndirect(TypeIdx(300))),
        (0x20, Instr::LocalGet(LocalIdx(300))),
        (0x21, Instr::LocalSet(LocalIdx(300))),
        (0x22, Instr::LocalTee(LocalIdx(300))),
        (0x23, Instr::GlobalGet(GlobalIdx(300))),
        (0x24, Instr::GlobalSet(GlobalIdx(300))),
    ] {
        assert_eq!(one(&[opcode, 0xAC, 0x02, 0xFF]), (Ok(expected), 3));
    }
}

#[test]
fn indexed_instruction_cut_short() {
    assert_eq!(one(&[0x20]), (Err(fail(ErrorKind::MalformedStream, 1)), 1));
    assert_eq!(one(&[0x10, 0x80]), (Err(fail(ErrorKind::MalformedStream, 2)), 2));
}

#[test]
fn memory_instructions_take_alignment_then_offset() {
    let arg = MemArg { offset: 16, align: 2 };
    for (opcode, expected) in [
        (0x28u8, Instr::I32Load(arg)),
        (0x29, Instr::I64Load(arg)),
        (0x2A, Instr::F32Load(arg)),
        (0x2B, Instr::F64Load(arg)),
        (0x2C, Instr::I32Load8S(arg)),
        (0x2D, Instr::I32Load8U(arg)),
        (0x2E, Instr::I32Load16S(arg)),
        (0x2F, Instr::I32Load16U(arg)),
        (0x30, Instr::I64Load8S(arg)),
        (0x31, Instr::I64Load8U(arg)),
        (0x32, Instr::I64Load16S(arg)),
        (0x33, Instr::I64Load16U(arg)),
        (0x34, Instr::I64Load32S(arg)),
        (0x35, Instr::I64Load32U(arg)),
        (0x36, Instr::I32Store(arg)),
        (0x37, Instr::I64Store(arg)),
        (0x38, Instr::F32Store(arg)),
        (0x39, Instr::F64Store(arg)),
        (0x3A, Instr::I32Store8(arg)),
        (0x3B, Instr::I32Store16(arg)),
        (0x3C, Instr::I64Store8(arg)),
        (0x3D, Instr::I64Store16(arg)),
        (0x3E, Instr::I64Store32(arg)),
    ] {
        assert_eq!(one(&[opcode, 0x02, 0x10]), (Ok(expected), 3));
    }
}

#[test]
fn mem_arg_reads_alignment_first() {
    let bytes = [0x03u8, 0x80, 0x01];
    let mut cursor = Cursor::new(&bytes);
    assert_eq!(Decoder::decode_mem_arg(&mut cursor), Ok(MemArg { offset: 128, align: 3 }));
    assert_eq!(cursor.position(), 3);
}

#[test]
fn integer_constants_are_signed() {
    assert_eq!(one(&[0x41, 0x7F]), (Ok(Instr::I32Const(-1)), 2));
    assert_eq!(one(&[0x41, 0x2A]), (Ok(Instr::I32Const(42)), 2));
    assert_eq!(one(&[0x41, 0x80, 0x80, 0x80, 0x80, 0x78]), (Ok(Instr::I32Const(i32::MIN)), 6));
    assert_eq!(one(&[0x42, 0xC0, 0xBB, 0x78]), (Ok(Instr::I64Const(-123456)), 4));
    assert_eq!(
        one(&[0x42, 0xFF, 0xFF, 0xFF, 0xFF, 0xFF, 0xFF, 0xFF, 0xFF, 0xFF, 0x00]),
        (Ok(Instr::I64Const(i64::MAX)), 11)
    );
}

#[test]
fn integer_constant_beyond_its_width() {
    assert_eq!(
        one(&[0x41, 0x80, 0x80, 0x80, 0x80, 0x08]),
        (Err(fail(ErrorKind::IntegerOverflow, 5)), 6)
    );
}

#[test]
fn float_constants_keep_their_bits() {
    let mut bytes = vec![0x43u8];
    bytes.extend_from_slice(&1.0f32.to_le_bytes());
    assert_eq!(one(&bytes), (Ok(Instr::F32Const(0x3F80_0000)), 5));
    let mut bytes = vec![0x44u8];
    bytes.extend_from_slice(&(-0.5f64).to_le_bytes());
    assert_eq!(one(&bytes), (Ok(Instr::F64Const((-0.5f64).to_bits())), 9));
    let nan = [0x43u8, 0x01, 0x00, 0xC0, 0x7F];
    assert_eq!(one(&nan), (Ok(Instr::F32Const(0x7FC0_0001)), 5));
}

#[test]
fn float_constant_cut_short() {
    assert_eq!(one(&[0x43, 0x00, 0x00, 0x80]), (Err(fail(ErrorKind::MalformedStream, 1)), 1));
    assert_eq!(one(&[0x44, 0, 0, 0, 0, 0, 0, 0]), (Err(fail(ErrorKind::MalformedStream, 1)), 1));
}

#[test]
fn branch_table_has_labels_and_a_default() {
    assert_eq!(
        one(&[0x0E, 0x03, 0x00, 0x01, 0x02, 0x05]),
        (Ok(Instr::BrTable(vec![LabelIdx(0), LabelIdx(1), LabelIdx(2)], LabelIdx(5))), 6)
    );
    assert_eq!(one(&[0x0E, 0x00, 0x07]), (Ok(Instr::BrTable(vec![], LabelIdx(7))), 3));
}

#[test]
fn branch_table_cut_short_names_its_vector() {
    assert_eq!(
        one(&[0x0E, 0x03, 0x00, 0x01]),
        (Err(DecodeError { kind: ErrorKind::MalformedStream, offset: 4, context: vec![3] }), 4)
    );
    assert_eq!(one(&[0x0E, 0x01, 0x00]), (Err(fail(ErrorKind::MalformedStream, 3)), 3));
}

#[test]
fn block_and_loop_own_their_bodies() {
    assert_eq!(
        one(&[0x02, 0x40, 0x01, 0x0B, 0x01]),
        (Ok(Instr::Block(ResultType(None), vec![Instr::Nop], End)), 4)
    );
    assert_eq!(
        one(&[0x03, 0x7F, 0x41, 0x01, 0x0C, 0x00, 0x0B]),
        (
            Ok(Instr::Loop(
                ResultType(Some(ValType::I32)),
                vec![Instr::I32Const(1), Instr::Br(LabelIdx(0))],
                End
            )),
            7
        )
    );
    assert_eq!(one(&[0x02, 0x40, 0x0B]), (Ok(Instr::Block(ResultType(None), vec![], End)), 3));
}

#[test]
fn blocks_nest() {
    assert_eq!(
        one(&[0x02, 0x40, 0x03, 0x40, 0x02, 0x40, 0x00, 0x0B, 0x0B, 0x1A, 0x0B]),
        (
            Ok(Instr::Block(
                ResultType(None),
                vec![
                    Instr::Loop(
                        ResultType(None),
                        vec![Instr::Block(ResultType(None), vec![Instr::Unreachable], End)],
                        End
                    ),
                    Instr::Drop,
                ],
                End
            )),
            11
        )
    );
}

#[test]
fn if_without_else_has_an_empty_else_body() {
    assert_eq!(
        one(&[0x04, 0x40, 0x01, 0x0B]),
        (Ok(Instr::If(ResultType(None), vec![Instr::Nop], Else, vec![], End)), 4)
    );
    assert_eq!(
        one(&[0x04, 0x7F, 0x41, 0x07, 0x1A, 0x0B, 0x00]),
        (
            Ok(Instr::If(
                ResultType(Some(ValType::I32)),
                vec![Instr::I32Const(7), Instr::Drop],
                Else,
                vec![],
                End
            )),
            6
        )
    );
}

#[test]
fn if_with_else_has_both_bodies() {
    assert_eq!(
        one(&[0x04, 0x7F, 0x41, 0x01, 0x05, 0x41, 0x02, 0x0B]),
        (
            Ok(Instr::If(
                ResultType(Some(ValType::I32)),
                vec![Instr::I32Const(1)],
                Else,
                vec![Instr::I32Const(2)],
                End
            )),
            8
        )
    );
    assert_eq!(
        one(&[0x04, 0x40, 0x05, 0x0B]),
        (Ok(Instr::If(ResultType(None), vec![], Else, vec![], End)), 4)
    );
}

#[test]
fn else_belongs_to_the_innermost_if() {
    assert_eq!(
        one(&[0x04, 0x40, 0x04, 0x40, 0x01, 0x05, 0x00, 0x0B, 0x05, 0x1A, 0x0B]),
        (
            Ok(Instr::If(
                ResultType(None),
                vec![Instr::If(
                    ResultType(None),
                    vec![Instr::Nop],
                    Else,
                    vec![Instr::Unreachable],
                    End
                )],
                Else,
                vec![Instr::Drop],
                End
            )),
            11
        )
    );
}

#[test]
fn a_second_else_is_no_instruction() {
    assert_eq!(
        one(&[0x04, 0x40, 0x05, 0x05, 0x0B]),
        (Err(fail(ErrorKind::InvalidOpcode(0x05), 3)), 4)
    );
}

#[test]
fn else_outside_an_if_is_no_instruction() {
    assert_eq!(
        one(&[0x02, 0x40, 0x05, 0x0B]),
        (Err(fail(ErrorKind::InvalidOpcode(0x05), 2)), 3)
    );
    assert_eq!(expression(&[0x01, 0x05, 0x0B]), (Err(fail(ErrorKind::InvalidOpcode(0x05), 1)), 2));
}

#[test]
fn unclosed_bodies_are_malformed_streams() {
    assert_eq!(one(&[0x02, 0x40, 0x01, 0x01]), (Err(fail(ErrorKind::MalformedStream, 4)), 4));
    assert_eq!(one(&[0x03, 0x40]), (Err(fail(ErrorKind::MalformedStream, 2)), 2));
    assert_eq!(one(&[0x04, 0x40, 0x01]), (Err(fail(ErrorKind::MalformedStream, 3)), 3));
    assert_eq!(
        one(&[0x04, 0x40, 0x01, 0x05, 0x01]),
        (Err(fail(ErrorKind::MalformedStream, 5)), 5)
    );
    assert_eq!(
        one(&[0x02, 0x40, 0x02, 0x40, 0x0B]),
        (Err(fail(ErrorKind::MalformedStream, 5)), 5)
    );
    assert_eq!(one(&[0x02]), (Err(fail(ErrorKind::MalformedStream, 1)), 1));
    assert_eq!(expression(&[0x01, 0x01]), (Err(fail(ErrorKind::MalformedStream, 2)), 2));
    assert_eq!(expression(&[]), (Err(fail(ErrorKind::MalformedStream, 0)), 0));
}

#[test]
fn block_with_a_bad_block_type() {
    assert_eq!(one(&[0x02, 0x00, 0x0B]), (Err(fail(ErrorKind::InvalidBlockType(0x00), 1)), 2));
}

#[test]
fn bytes_that_are_no_opcode() {
    for opcode in [0x05u8, 0x06, 0x0A, 0x0B, 0x12, 0x19, 0x1C, 0x1F, 0x25, 0x27, 0xC0, 0xFC, 0xFF] {
        assert_eq!(one(&[opcode, 0x00]), (Err(fail(ErrorKind::InvalidOpcode(opcode), 0)), 1));
    }
}

#[test]
fn expression_runs_to_the_end_marker() {
    assert_eq!(
        expression(&[0x20, 0x00, 0x20, 0x01, 0x6A, 0x0B, 0x0B]),
        (
            Ok(Expr(
                vec![Instr::LocalGet(LocalIdx(0)), Instr::LocalGet(LocalIdx(1)), Instr::I32Add],
                End
            )),
            6
        )
    );
    assert_eq!(expression(&[0x0B]), (Ok(Expr(vec![], End)), 1));
}

#[test]
fn until_else_tells_the_marker() {
    let bytes = [0x01u8, 0x05, 0x01, 0x0B];
    let mut cursor = Cursor::new(&bytes);
    assert_eq!(Decoder::decode_instr_until_else(&mut cursor, 0), Ok((vec![Instr::Nop], true)));
    assert_eq!(cursor.position(), 2);
    assert_eq!(Decoder::decode_instr_until_else(&mut cursor, 0), Ok((vec![Instr::Nop], false)));
    assert_eq!(cursor.position(), 4);
}

#[test]
fn until_end_passes_no_else() {
    let bytes = [0x01u8, 0x05, 0x01, 0x0B];
    let mut cursor = Cursor::new(&bytes);
    assert_eq!(
        Decoder::decode_instr_until_end(&mut cursor, 0),
        Err(fail(ErrorKind::InvalidOpcode(0x05), 1))
    );
}

fn nested_blocks(depth: usize) -> Vec<u8> {
    let mut bytes = Vec::new();
    for _ in 0..depth {
        bytes.push(0x02);
        bytes.push(0x40);
    }
    for _ in 0..depth {
        bytes.push(0x0B);
    }
    bytes.push(0x0B);
    bytes
}

#[test]
fn nesting_up_to_the_limit_is_decoded() {
    let bytes = nested_blocks(MAX_NESTING_DEPTH);
    let (result, position) = expression(&bytes);
    assert_eq!(position, bytes.len());
    let mut depth = 0;
    let Expr(mut level, End) = result.unwrap();
    while let Some(Instr::Block(_, inner, _)) = level.pop() {
        depth += 1;
        level = inner;
    }
    assert_eq!(depth, MAX_NESTING_DEPTH);
}

#[test]
fn nesting_beyond_the_limit_is_refused() {
    let bytes = nested_blocks(MAX_NESTING_DEPTH + 1);
    let (result, position) = expression(&bytes);
    assert_eq!(result, Err(fail(ErrorKind::NestingTooDeep, 2 * MAX_NESTING_DEPTH)));
    assert_eq!(position, 2 * MAX_NESTING_DEPTH + 1);
}

#[test]
fn nesting_counts_from_the_given_depth() {
    let bytes = [0x02u8, 0x40, 0x02, 0x40, 0x0B, 0x0B];
    let mut cursor = Cursor::new(&bytes);
    cursor.read_byte().unwrap();
    assert_eq!(
        Decoder::decode_instruction(&mut cursor, 0x02, MAX_NESTING_DEPTH),
        Err(fail(ErrorKind::NestingTooDeep, 0))
    );
    let mut cursor = Cursor::new(&bytes);
    cursor.read_byte().unwrap();
    assert_eq!(
        Decoder::decode_instruction(&mut cursor, 0x02, MAX_NESTING_DEPTH - 1),
        Err(fail(ErrorKind::NestingTooDeep, 2))
    );
    let mut cursor = Cursor::new(&bytes);
    cursor.read_byte().unwrap();
    assert_eq!(
        Decoder::decode_instruction(&mut cursor, 0x01, MAX_NESTING_DEPTH),
        Ok(Instr::Nop)
    );
}

/// A body that uses every shape of instruction, closed by its end marker.
fn rich_body() -> Vec<u8> {
    let mut bytes = vec![
        0x02, 0x7F, // block (result i32)
        0x20, 0x80, 0x01, // local.get 128
        0x04, 0x40, // if
        0x41, 0xFF, 0xFF, 0x03, // i32.const 65535
        0x36, 0x02, 0x90, 0x01, // i32.store align 2 offset 144
        0x05, // else
        0x03, 0x40, // loop
        0x0E, 0x02, 0x00, 0x81, 0x01, 0x02, // br_table [0, 129] 2
        0x0B, // end of the loop
        0x0B, // end of the if
        0x42, 0x80, 0x80, 0x80, 0x80, 0x80, 0x80, 0x80, 0x80, 0x80, 0x7F, // i64.const min
        0x1A, // drop
    ];
    bytes.push(0x43);
    bytes.extend_from_slice(&2.5f32.to_le_bytes());
    bytes.push(0x44);
    bytes.extend_from_slice(&(-1.0e300f64).to_le_bytes());
    bytes.extend_from_slice(&[0x1A, 0x1A, 0x04, 0x40, 0x00, 0x0B, 0x0B, 0x0B]);
    bytes
}

#[test]
fn rich_body_is_decoded() {
    let bytes = rich_body();
    let (result, position) = expression(&bytes);
    assert_eq!(position, bytes.len());
    assert_eq!(
        result,
        Ok(Expr(
            vec![Instr::Block(
                ResultType(Some(ValType::I32)),
                vec![
                    Instr::LocalGet(LocalIdx(128)),
                    Instr::If(
                        ResultType(None),
                        vec![
                            Instr::I32Const(65535),
                            Instr::I32Store(MemArg { offset: 144, align: 2 }),
                        ],
                        Else,
                        vec![Instr::Loop(
                            ResultType(None),
                            vec![Instr::BrTable(vec![LabelIdx(0), LabelIdx(129)], LabelIdx(2))],
                            End
                        )],
                        End
                    ),
                    Instr::I64Const(i64::MIN),
                    Instr::Drop,
                    Instr::F32Const(2.5f32.to_bits()),
                    Instr::F64Const((-1.0e300f64).to_bits()),
                    Instr::Drop,
                    Instr::Drop,
                    Instr::If(ResultType(None), vec![Instr::Unreachable], Else, vec![], End),
                ],
                End
            )],
            End
        ))
    );
}

#[test]
fn every_cut_of_a_closed_body_is_a_malformed_stream() {
    let bytes = rich_body();
    for cut in 0..bytes.len() {
        let (result, position) = expression(&bytes[..cut]);
        let error = result.unwrap_err();
        assert_eq!(error.kind, ErrorKind::MalformedStream);
        assert!(error.offset <= cut && position <= cut);
    }
}

#[test]
fn every_cut_of_a_closed_block_is_a_malformed_stream() {
    let bytes = rich_body();
    for cut in 1..bytes.len() - 1 {
        let (result, _) = one(&bytes[..cut]);
        assert_eq!(result.unwrap_err().kind, ErrorKind::MalformedStream);
    }
    let (result, position) = one(&bytes[..bytes.len() - 1]);
    assert!(result.is_ok());
    assert_eq!(position, bytes.len() - 1);
}

#[test]
fn bytes_behind_a_closed_body_are_left_alone() {
    let mut bytes = rich_body();
    let closed = bytes.len();
    bytes.extend_from_slice(&[0xFF, 0x00, 0x0B]);
    let (result, position) = expression(&bytes);
    assert!(result.is_ok());
    assert_eq!(position, closed);
}

/// Decodes the instruction with the given opcode from a buffer that holds
/// only its immediates.
fn immediates(opcode: u8, bytes: &[u8]) -> (Result<Instr, DecodeError>, usize) {
    let mut cursor = Cursor::new(bytes);
    let result = Decoder::decode_instruction(&mut cursor, opcode, 0);
    (result, cursor.position())
}

#[test]
fn load_from_its_immediates_alone() {
    assert_eq!(
        immediates(0x28, &[0x02, 0x10]),
        (Ok(Instr::I32Load(MemArg { offset: 16, align: 2 })), 2)
    );
}

#[test]
fn if_from_its_immediates_alone() {
    assert_eq!(
        immediates(0x04, &[0x40, 0x01, 0x0B]),
        (Ok(Instr::If(ResultType(None), vec![Instr::Nop], Else, vec![], End)), 3)
    );
    assert_eq!(
        immediates(0x04, &[0x7F, 0x01, 0x05, 0x00, 0x0B]),
        (
            Ok(Instr::If(
                ResultType(Some(ValType::I32)),
                vec![Instr::Nop],
                Else,
                vec![Instr::Unreachable],
                End
            )),
            5
        )
    );
}

#[test]
fn if_closed_by_end_keeps_every_instruction_of_its_body() {
    for k in 1..20usize {
        let mut bytes = vec![0x40u8];
        for i in 0..k {
            bytes.extend_from_slice(&[0x41, i as u8]);
        }
        bytes.push(0x0B);
        bytes.push(0x01);
        let (result, position) = immediates(0x04, &bytes);
        assert_eq!(position, bytes.len() - 1);
        match result {
            Ok(Instr::If(_, then_body, _, else_body, _)) => {
                let expected: Vec<Instr> = (0..k).map(|i| Instr::I32Const(i as i32)).collect();
                assert_eq!(then_body, expected);
                assert!(else_body.is_empty());
            }
            _ => panic!(),
        }
    }
}

#[test]
fn unclosed_bodies_from_their_immediates_alone() {
    assert_eq!(immediates(0x02, &[0x40, 0x01]), (Err(fail(ErrorKind::MalformedStream, 2)), 2));
    assert_eq!(immediates(0x03, &[0x40, 0x01]), (Err(fail(ErrorKind::MalformedStream, 2)), 2));
    assert_eq!(
        immediates(0x04, &[0x40, 0x01, 0x05, 0x01]),
        (Err(fail(ErrorKind::MalformedStream, 4)), 4)
    );
}

#[test]
fn plain_instruction_on_a_fresh_cursor_reads_nothing() {
    assert_eq!(immediates(0x6A, &[0x0B]), (Ok(Instr::I32Add), 0));
    assert_eq!(immediates(0x6A, &[]), (Ok(Instr::I32Add), 0));
}

#[test]
fn branch_table_from_its_immediates_alone() {
    assert_eq!(
        immediates(0x0E, &[0x02, 0x00, 0x01, 0x02]),
        (Ok(Instr::BrTable(vec![LabelIdx(0), LabelIdx(1)], LabelIdx(2))), 4)
    );
}

#[test]
fn constants_from_their_immediates_alone() {
    assert_eq!(immediates(0x41, &[0x7F]), (Ok(Instr::I32Const(-1)), 1));
    assert_eq!(immediates(0x42, &[0x7F]), (Ok(Instr::I64Const(-1)), 1));
    let (result, position) = immediates(0x43, &[0x00, 0x00, 0x80, 0x3F]);
    assert_eq!(result, Ok(Instr::F32Const(0x3F80_0000)));
    assert_eq!(f32::from_bits(0x3F80_0000), 1.0f32);
    assert_eq!(position, 4);
    let (result, position) = immediates(0x44, &1.0f64.to_le_bytes());
    assert_eq!(result, Ok(Instr::F64Const(1.0f64.to_bits())));
    assert_eq!(position, 8);
}

#[test]
fn indexed_instruction_from_its_immediate_alone() {
    assert_eq!(immediates(0x20, &[0x05]), (Ok(Instr::LocalGet(LocalIdx(5))), 1));
    assert_eq!(immediates(0x10, &[]), (Err(fail(ErrorKind::MalformedStream, 0)), 0));
}

#[test]
fn nested_block_from_its_immediates_alone_up_to_the_limit() {
    let bytes = [0x40u8, 0x0B];
    let mut cursor = Cursor::new(&bytes);
    assert_eq!(
        Decoder::decode_instruction(&mut cursor, 0x02, MAX_NESTING_DEPTH - 1),
        Ok(Instr::Block(ResultType(None), vec![], End))
    );
    assert_eq!(cursor.position(), 2);
}
