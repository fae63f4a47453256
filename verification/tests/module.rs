use wasm_interpreter::cursor::Cursor;
use wasm_interpreter::decoder::Decoder;
use wasm_interpreter::error::{DecodeError, ErrorKind};
use wasm_interpreter::module::{
    Data, Elem, ElemType, Else, End, Export, Expr, FuncIdx, FuncType, Function, Global,
    GlobalType, ImpExportDesc, Import, Instr, Limits, LocalIdx, Mem, MemArg, MemIdx, MemType,
    Module, Mut, ResultType, Start, Table, TableIdx, TableType, TypeIdx, ValType,
};

const HEADER: [u8; 8] = [0x00, 0x61, 0x73, 0x6D, 0x01, 0x00, 0x00, 0x00];

fn fail(kind: ErrorKind, offset: usize) -> DecodeError {
    DecodeError { kind, offset, context: Vec::new() }
}

/// A module made of the header and the given sections, each with its true size.
fn module_of(sections: &[(u8, &[u8])]) -> Vec<u8> {
    let mut bytes = HEADER.to_vec();
    for (code, payload) in sections {
        assert!(payload.len() < 128);
        bytes.push(*code);
        bytes.push(payload.len() as u8);
        bytes.extend_from_slice(payload);
    }
    bytes
}

fn empty_module() -> Module {
    Module {
        types: vec![],
        funcs: vec![],
        table: vec![],
        memory: vec![],
        globals: vec![],
        elem: vec![],
        data: vec![],
        start: None,
        imports: vec![],
        exports: vec![],
    }
}

#[test]
fn default_module_is_empty() {
    assert_eq!(Module::default(), empty_module());
}

#[test]
fn header_alone_is_the_empty_module() {
    let module = Decoder::decode(&HEADER).unwrap();
    assert_eq!(module, empty_module());
    assert!(module.types.is_empty() && module.funcs.is_empty() && module.table.is_empty());
    assert!(module.memory.is_empty() && module.globals.is_empty() && module.elem.is_empty());
    assert!(module.data.is_empty() && module.imports.is_empty() && module.exports.is_empty());
    assert_eq!(module.start, None);
}

#[test]
fn wrong_magic_points_at_the_start() {
    for bytes in [
        [0x00u8, 0x61, 0x73, 0x6E, 0x01, 0x00, 0x00, 0x00],
        [0x01, 0x61, 0x73, 0x6D, 0x01, 0x00, 0x00, 0x00],
        [0x00, 0x00, 0x73, 0x6D, 0x01, 0x00, 0x00, 0x00],
        [0x00, 0x61, 0x00, 0x6D, 0x01, 0x00, 0x00, 0x00],
        [0x6D, 0x73, 0x61, 0x00, 0x01, 0x00, 0x00, 0x00],
        [0xFF; 8],
    ] {
        assert_eq!(Decoder::decode(&bytes), Err(fail(ErrorKind::InvalidMagic, 0)));
    }
    assert_eq!(Decoder::decode(&[0x7F, b'E', b'L', b'F']), Err(fail(ErrorKind::InvalidMagic, 0)));
}

#[test]
fn magic_read_elsewhere_points_where_it_began() {
    let bytes = [0xAAu8, 0xBB, 0x00, 0x61, 0x73, 0x6D, 0x00, 0x61, 0x73, 0x00];
    let mut cursor = Cursor::new(&bytes);
    cursor.read_bytes(2).unwrap();
    assert_eq!(Decoder::check_magic_number(&mut cursor), Ok(()));
    assert_eq!(cursor.position(), 6);
    assert_eq!(Decoder::check_magic_number(&mut cursor), Err(fail(ErrorKind::InvalidMagic, 6)));
    assert_eq!(cursor.position(), 10);
}

#[test]
fn input_shorter_than_the_magic_is_malformed() {
    assert_eq!(Decoder::decode(&[]), Err(fail(ErrorKind::MalformedStream, 0)));
    assert_eq!(Decoder::decode(&[0x00, 0x61, 0x73]), Err(fail(ErrorKind::MalformedStream, 0)));
}

#[test]
fn input_shorter_than_the_version_is_malformed() {
    assert_eq!(
        Decoder::decode(&[0x00, 0x61, 0x73, 0x6D]),
        Err(fail(ErrorKind::MalformedStream, 4))
    );
    assert_eq!(
        Decoder::decode(&[0x00, 0x61, 0x73, 0x6D, 0x01, 0x00, 0x00]),
        Err(fail(ErrorKind::MalformedStream, 4))
    );
}

#[test]
fn other_versions_are_refused() {
    for version in [0u32, 2, 13, 0x0100_0000, 0x0000_0101, u32::MAX] {
        let mut bytes = vec![0x00u8, 0x61, 0x73, 0x6D];
        bytes.extend_from_slice(&version.to_le_bytes());
        assert_eq!(Decoder::decode(&bytes), Err(fail(ErrorKind::UnsupportedVersion(version), 7)));
    }
}

#[test]
fn version_one_is_returned() {
    let mut cursor = Cursor::new(&HEADER);
    cursor.read_bytes(4).unwrap();
    assert_eq!(Decoder::get_version(&mut cursor), Ok(1));
    assert_eq!(cursor.position(), 8);
}

#[test]
fn function_that_adds_its_parameters() {
    let bytes = module_of(&[
        (1, &[0x01, 0x60, 0x02, 0x7F, 0x7F, 0x01, 0x7F]),
        (3, &[0x01, 0x00]),
        (10, &[0x01, 0x07, 0x00, 0x20, 0x00, 0x20, 0x01, 0x6A, 0x0B]),
    ]);
    let module = Decoder::decode(&bytes).unwrap();
    assert_eq!(
        module.types,
        vec![FuncType { params: vec![ValType::I32, ValType::I32], results: vec![ValType::I32] }]
    );
    assert_eq!(module.funcs.len(), 1);
    assert_eq!(module.funcs[0].typ, TypeIdx(0));
    assert_eq!(module.funcs[0].locals, vec![]);
    assert_eq!(
        module.funcs[0].body,
        Expr(
            vec![Instr::LocalGet(LocalIdx(0)), Instr::LocalGet(LocalIdx(1)), Instr::I32Add],
            End
        )
    );
    assert_eq!(
        module,
        Module {
            types: vec![FuncType {
                params: vec![ValType::I32, ValType::I32],
                results: vec![ValType::I32],
            }],
            funcs: vec![Function {
                typ: TypeIdx(0),
                locals: vec![],
                body: Expr(
                    vec![Instr::LocalGet(LocalIdx(0)), Instr::LocalGet(LocalIdx(1)), Instr::I32Add],
                    End
                ),
            }],
            ..empty_module()
        }
    );
}

#[test]
fn code_may_come_before_the_function_section() {
    let bytes = module_of(&[(10, &[0x01, 0x02, 0x00, 0x0B]), (3, &[0x01, 0x05])]);
    let module = Decoder::decode(&bytes).unwrap();
    assert_eq!(
        module.funcs,
        vec![Function { typ: TypeIdx(5), locals: vec![], body: Expr(vec![], End) }]
    );
}

#[test]
fn two_tables_are_refused() {
    let bytes = module_of(&[(4, &[0x02, 0x70, 0x00, 0x01, 0x70, 0x00, 0x01])]);
    assert_eq!(Decoder::decode(&bytes), Err(fail(ErrorKind::MultipleTables, 16)));
}

#[test]
fn two_memories_are_refused() {
    let bytes = module_of(&[(5, &[0x02, 0x00, 0x01, 0x00, 0x01])]);
    assert_eq!(Decoder::decode(&bytes), Err(fail(ErrorKind::MultipleMemories, 14)));
}

#[test]
fn one_table_and_one_memory_are_kept() {
    let bytes = module_of(&[(4, &[0x01, 0x70, 0x00, 0x0A]), (5, &[0x01, 0x01, 0x01, 0x02])]);
    let module = Decoder::decode(&bytes).unwrap();
    assert_eq!(
        module.table,
        vec![Table { typ: TableType(Limits { min: 10, max: None }, ElemType::FuncRef) }]
    );
    assert_eq!(module.memory, vec![Mem { typ: MemType(Limits { min: 1, max: Some(2) }) }]);
}

#[test]
fn unclosed_block_in_a_body_is_malformed() {
    let bytes = module_of(&[(10, &[0x01, 0x05, 0x00, 0x02, 0x40, 0x01, 0x0B])]);
    assert_eq!(
        Decoder::decode(&bytes),
        Err(DecodeError { kind: ErrorKind::MalformedStream, offset: 17, context: vec![16] })
    );
}

#[test]
fn unclosed_loop_and_if_in_a_body_are_malformed() {
    for opcode in [0x03u8, 0x04] {
        let bytes = module_of(&[(10, &[0x01, 0x04, 0x00, opcode, 0x40, 0x01])]);
        assert_eq!(
            Decoder::decode(&bytes),
            Err(DecodeError { kind: ErrorKind::MalformedStream, offset: 16, context: vec![15] })
        );
    }
}

#[test]
fn if_without_else_in_a_body() {
    let bytes = module_of(&[
        (3, &[0x01, 0x00]),
        (10, &[0x01, 0x08, 0x00, 0x20, 0x00, 0x04, 0x40, 0x01, 0x0B, 0x0B]),
    ]);
    let module = Decoder::decode(&bytes).unwrap();
    assert_eq!(
        module.funcs[0].body,
        Expr(
            vec![
                Instr::LocalGet(LocalIdx(0)),
                Instr::If(ResultType(None), vec![Instr::Nop], Else, vec![], End),
            ],
            End
        )
    );
}

#[test]
fn custom_section_is_refused() {
    let bytes = module_of(&[(0, &[0x01, b'x'])]);
    assert_eq!(Decoder::decode(&bytes), Err(fail(ErrorKind::UnsupportedSection(0), 9)));
}

#[test]
fn unknown_section_is_refused() {
    let bytes = module_of(&[(1, &[0x00]), (12, &[0x00])]);
    assert_eq!(Decoder::decode(&bytes), Err(fail(ErrorKind::UnsupportedSection(12), 12)));
}

#[test]
fn section_code_without_a_length_is_malformed() {
    let mut bytes = HEADER.to_vec();
    bytes.push(0x01);
    assert_eq!(Decoder::decode(&bytes), Err(fail(ErrorKind::MalformedStream, 9)));
}

#[test]
fn section_length_beyond_32_bits_is_refused() {
    let mut bytes = HEADER.to_vec();
    bytes.extend_from_slice(&[0x01, 0xFF, 0xFF, 0xFF, 0xFF, 0x7F, 0x00]);
    assert_eq!(Decoder::decode(&bytes), Err(fail(ErrorKind::IntegerOverflow, 13)));
}

#[test]
fn section_length_is_not_enforced() {
    let mut bytes = HEADER.to_vec();
    bytes.extend_from_slice(&[0x08, 0x63, 0x05]);
    bytes.extend_from_slice(&[0x05, 0x00, 0x01, 0x00, 0x01]);
    let module = Decoder::decode(&bytes).unwrap();
    assert_eq!(module.start, Some(Start { func: FuncIdx(5) }));
    assert_eq!(module.memory, vec![Mem { typ: MemType(Limits { min: 1, max: None }) }]);
}

#[test]
fn function_and_code_sections_of_different_lengths_are_refused() {
    let bytes = module_of(&[(3, &[0x02, 0x00, 0x00]), (10, &[0x01, 0x02, 0x00, 0x0B])]);
    assert_eq!(
        Decoder::decode(&bytes),
        Err(fail(ErrorKind::FunctionCodeMismatch, bytes.len() - 1))
    );
}

#[test]
fn function_section_alone_gives_no_functions() {
    let bytes = module_of(&[(3, &[0x02, 0x00, 0x00])]);
    assert_eq!(Decoder::decode(&bytes), Ok(empty_module()));
    let bytes = module_of(&[(10, &[0x01, 0x02, 0x00, 0x0B])]);
    assert_eq!(Decoder::decode(&bytes), Ok(empty_module()));
}

#[test]
fn a_section_that_comes_again_replaces_the_first() {
    let bytes = module_of(&[(8, &[0x01]), (7, &[0x00]), (8, &[0x02])]);
    let module = Decoder::decode(&bytes).unwrap();
    assert_eq!(module.start, Some(Start { func: FuncIdx(2) }));
}

#[test]
fn sections_in_any_order() {
    let bytes = module_of(&[
        (7, &[0x01, 0x01, b'f', 0x00, 0x00]),
        (8, &[0x00]),
        (1, &[0x01, 0x60, 0x00, 0x00]),
    ]);
    let module = Decoder::decode(&bytes).unwrap();
    assert_eq!(module.types, vec![FuncType { params: vec![], results: vec![] }]);
    assert_eq!(
        module.exports,
        vec![Export { name: String::from("f"), desc: ImpExportDesc::Func(TypeIdx(0)) }]
    );
    assert_eq!(module.start, Some(Start { func: FuncIdx(0) }));
}

#[test]
fn failure_in_a_section_ends_the_decoding() {
    let bytes = module_of(&[(1, &[0x01, 0x61]), (8, &[0x00])]);
    assert_eq!(
        Decoder::decode(&bytes),
        Err(DecodeError { kind: ErrorKind::InvalidTypeMarker(0x61), offset: 11, context: vec![11] })
    );
}

#[test]
fn name_with_broken_utf8_in_an_import() {
    let bytes = module_of(&[(2, &[0x01, 0x02, 0xC3, 0x28, 0x00, 0x00, 0x00])]);
    assert_eq!(
        Decoder::decode(&bytes),
        Err(DecodeError { kind: ErrorKind::InvalidUtf8, offset: 13, context: vec![13] })
    );
}

#[test]
fn module_with_every_section() {
    let bytes = module_of(&[
        (1, &[0x02, 0x60, 0x01, 0x7F, 0x01, 0x7F, 0x60, 0x00, 0x00]),
        (2, &[0x01, 0x03, b'e', b'n', b'v', 0x05, b'p', b'r', b'i', b'n', b't', 0x00, 0x00]),
        (3, &[0x02, 0x00, 0x01]),
        (4, &[0x01, 0x70, 0x01, 0x02, 0x10]),
        (5, &[0x01, 0x00, 0x01]),
        (6, &[0x01, 0x41, 0x2A, 0x0B, 0x7F, 0x01]),
        (7, &[0x01, 0x04, b'm', b'a', b'i', b'n', 0x00, 0x01]),
        (8, &[0x02]),
        (9, &[0x01, 0x00, 0x41, 0x00, 0x0B, 0x02, 0x01, 0x02]),
        (
            10,
            &[
                0x02, // two bodies
                0x09, 0x01, 0x02, 0x7E, // two locals of type i64
                0x20, 0x00, 0x28, 0x02, 0x08, 0x0B, // local.get 0; i32.load align 2 offset 8
                0x02, 0x00, 0x0B, // no locals, empty body
            ],
        ),
        (11, &[0x01, 0x00, 0x41, 0x08, 0x0B, 0x02, b'h', b'i']),
    ]);
    let module = Decoder::decode(&bytes).unwrap();
    assert_eq!(
        module,
        Module {
            types: vec![
                FuncType { params: vec![ValType::I32], results: vec![ValType::I32] },
                FuncType { params: vec![], results: vec![] },
            ],
            funcs: vec![
                Function {
                    typ: TypeIdx(0),
                    locals: vec![ValType::I64, ValType::I64],
                    body: Expr(
                        vec![
                            Instr::LocalGet(LocalIdx(0)),
                            Instr::I32Load(MemArg { offset: 8, align: 2 }),
                        ],
                        End
                    ),
                },
                Function { typ: TypeIdx(1), locals: vec![], body: Expr(vec![], End) },
            ],
            table: vec![Table {
                typ: TableType(Limits { min: 2, max: Some(16) }, ElemType::FuncRef),
            }],
            memory: vec![Mem { typ: MemType(Limits { min: 1, max: None }) }],
            globals: vec![Global {
                typ: GlobalType(Mut::Var, ValType::I32),
                init: Expr(vec![Instr::I32Const(42)], End),
            }],
            elem: vec![Elem {
                table: TableIdx(0),
                offset: Expr(vec![Instr::I32Const(0)], End),
                init: vec![FuncIdx(1), FuncIdx(2)],
            }],
            data: vec![Data {
                data: MemIdx(0),
                offset: Expr(vec![Instr::I32Const(8)], End),
                init: vec![b'h', b'i'],
            }],
            start: Some(Start { func: FuncIdx(2) }),
            imports: vec![Import {
                module: String::from("env"),
                name: String::from("print"),
                desc: ImpExportDesc::Func(TypeIdx(0)),
            }],
            exports: vec![Export {
                name: String::from("main"),
                desc: ImpExportDesc::Func(TypeIdx(1)),
            }],
        }
    );
}

#[test]
fn every_cut_of_a_module_fails_or_ends_between_sections() {
    let bytes = module_of(&[
        (1, &[0x01, 0x60, 0x00, 0x00]),
        (3, &[0x01, 0x00]),
        (10, &[0x01, 0x06, 0x00, 0x02, 0x40, 0x01, 0x0B, 0x0B]),
    ]);
    assert!(Decoder::decode(&bytes).is_ok());
    let between_sections = [8usize, 14, 18];
    for cut in 0..bytes.len() {
        let result = Decoder::decode(&bytes[..cut]);
        if between_sections.contains(&cut) {
            assert!(result.is_ok());
        } else {
            assert_eq!(result.unwrap_err().kind, ErrorKind::MalformedStream);
        }
    }
}
