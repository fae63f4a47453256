//! The executable decoder. Every function reads from a [`Cursor`] and is proved
//! to return what the grammar in [`crate::grammar`] prescribes for the bytes at
//! the cursor, and to leave the cursor where the grammar says.

use vstd::prelude::*;
use crate::codes;
use crate::cursor::{obeys, Cursor};
use crate::decoder::sections::{CodeSection, FunctionSection};
use crate::error::{DecodeError, ErrorKind, Failure};
use crate::grammar::assembly::{
    is_section, magic, spec_assemble, spec_functions, spec_magic, spec_module, spec_section,
    spec_sections, spec_version, DraftView,
};
use crate::module::{Function, FuncsComponent, Module};

pub mod elements;
pub mod instructions;
pub mod integers;
pub mod sections;
pub mod types;

verus! {

broadcast use crate::cursor::lemma_cursor_in_bounds;

/// What has been gathered of a module while its sections are read.
pub struct Draft {
    /// The module so far; its functions are put in at the very end.
    pub module: Module,
    /// The function section, once it has been read.
    pub function_section: Option<FunctionSection>,
    /// The code section, once it has been read.
    pub code_section: Option<CodeSection>,
}

impl DeepView for Draft {
    type V = DraftView;

    open spec fn deep_view(&self) -> DraftView {
        DraftView {
            module: self.module.deep_view(),
            functions: self.function_section.deep_view(),
            codes: self.code_section.deep_view(),
        }
    }
}

/// The decoder of the binary format. It has no state of its own: what is
/// decoded, and how far, is held by the cursor.
pub struct Decoder;

impl Decoder {
    /// Decodes a module from its binary encoding: the preamble, then section
    /// after section until the input is used up. The first failure ends the
    /// decoding.
    pub fn decode(byte_code: &[u8]) -> (r: Result<Module, DecodeError>)
        ensures
            match spec_module(byte_code@) {
                Ok(module) => r matches Ok(decoded) && decoded.deep_view() == module,
                Err(failure) => r matches Err(e) && e@ == failure,
            },
    {
        let ghost s = byte_code@;
        let mut cursor = Cursor::new(byte_code);
        Self::check_magic_number(&mut cursor)?;
        Self::get_version(&mut cursor)?;
        let ghost at_sections = cursor.pos();
        let mut draft = Draft {
            module: Module::default(),
            function_section: None,
            code_section: None,
        };
        loop
            invariant
                byte_code@ == s,
                cursor.bytes() == s,
                cursor.pos() >= 1,
                spec_module(s) == match spec_sections(s, at_sections, DraftView::empty()) {
                    Err(failure) => Err(failure),
                    Ok(all) => spec_assemble(all, (s.len() - 1) as nat),
                },
                spec_sections(s, cursor.pos(), draft.deep_view()) == spec_sections(
                    s,
                    at_sections,
                    DraftView::empty(),
                ),
            decreases s.len() - cursor.pos(),
        {
            let section_code = match cursor.read_byte() {
                Ok(code) => code,
                Err(_) => {
                    return Self::assemble(draft, cursor.position() - 1);
                },
            };
            let _section_size = Self::decode_uint(&mut cursor, 32)?;
            draft = Self::decode_section(&mut cursor, section_code, draft)?;
        }
    }

    /// Decodes the payload of the section with the given code and adds it to
    /// what has been gathered. A custom section, and a code that stands for no
    /// section, are refused.
    ///
    /// The cursor may stand anywhere, at the start of a buffer that holds only
    /// the payload too. Only for a code that is refused, where the failure
    /// points at the byte read last, must a byte have been read.
    pub fn decode_section(cursor: &mut Cursor, section_code: u8, so_far: Draft) -> (r: Result<
        Draft,
        DecodeError,
    >)
        requires
            old(cursor).pos() >= 1 || is_section(section_code),
        ensures
            obeys(
                r,
                *old(cursor),
                *final(cursor),
                spec_section(
                    old(cursor).bytes(),
                    old(cursor).pos(),
                    section_code,
                    so_far.deep_view(),
                ),
            ),
    {
        reveal(spec_section);
        let mut draft = so_far;
        if section_code == codes::section::TYPE {
            draft.module.types = Self::decode_type_section(cursor)?;
        } else if section_code == codes::section::IMPORT {
            draft.module.imports = Self::decode_import_section(cursor)?;
        } else if section_code == codes::section::FUNCTION {
            draft.function_section = Some(Self::decode_function_section(cursor)?);
        } else if section_code == codes::section::TABLE {
            draft.module.table = Self::decode_table_section(cursor)?;
        } else if section_code == codes::section::MEMORY {
            draft.module.memory = Self::decode_memory_section(cursor)?;
        } else if section_code == codes::section::GLOBAL {
            draft.module.globals = Self::decode_global_section(cursor)?;
        } else if section_code == codes::section::EXPORT {
            draft.module.exports = Self::decode_export_section(cursor)?;
        } else if section_code == codes::section::START {
            draft.module.start = Self::decode_start_section(cursor)?;
        } else if section_code == codes::section::ELEMENT {
            draft.module.elem = Self::decode_elem_section(cursor)?;
        } else if section_code == codes::section::CODE {
            draft.code_section = Some(Self::decode_code_section(cursor)?);
        } else if section_code == codes::section::DATA {
            draft.module.data = Self::decode_data_section(cursor)?;
        } else {
            return Err(Self::error_at(cursor, ErrorKind::UnsupportedSection(section_code)));
        }
        Ok(draft)
    }

    /// Completes a module once its sections are read: where both the function
    /// section and the code section were among them, they give the functions.
    /// If they do not go together, the failure points at `offset`.
    pub fn assemble(draft: Draft, offset: usize) -> (r: Result<Module, DecodeError>)
        ensures
            match spec_assemble(draft.deep_view(), offset as nat) {
                Ok(whole) => r matches Ok(decoded) && decoded.deep_view() == whole,
                Err(failure) => r matches Err(e) && e@ == failure,
            },
    {
        let mut module = draft.module;
        match (draft.function_section, draft.code_section) {
            (Some(functions), Some(codes)) => {
                assert(functions.deep_view() =~= functions@);
                module.funcs = Self::build_functions_component(functions, codes, offset)?;
            },
            _ => {},
        }
        Ok(module)
    }

    /// A failure of the given kind that points at the byte read last.
    pub fn error_at(cursor: &Cursor, kind: ErrorKind) -> (e: DecodeError)
        requires
            cursor.pos() >= 1,
        ensures
            e@ == Failure::at(kind, (cursor.pos() - 1) as nat),
    {
        DecodeError::new(kind, cursor.position() - 1)
    }

    /// Reads four bytes and checks that they are the magic bytes.
    pub fn check_magic_number(cursor: &mut Cursor) -> (r: Result<(), DecodeError>)
        ensures
            obeys(
                r,
                *old(cursor),
                *final(cursor),
                spec_magic(old(cursor).bytes(), old(cursor).pos()),
            ),
    {
        let start = cursor.position();
        let found = cursor.read_bytes(4)?;
        if found[0] == codes::MAGIC[0] && found[1] == codes::MAGIC[1] && found[2] == codes::MAGIC[2]
            && found[3] == codes::MAGIC[3] {
            assert(found@ =~= magic());
            Ok(())
        } else {
            Err(DecodeError::new(ErrorKind::InvalidMagic, start))
        }
    }

    /// Reads the version field and checks that it holds 1.
    pub fn get_version(cursor: &mut Cursor) -> (r: Result<u32, DecodeError>)
        ensures
            obeys(
                r,
                *old(cursor),
                *final(cursor),
                spec_version(old(cursor).bytes(), old(cursor).pos()),
            ),
    {
        let version = cursor.read_le_u32()?;
        if version != codes::VERSION {
            return Err(Self::error_at(cursor, ErrorKind::UnsupportedVersion(version)));
        }
        Ok(version)
    }

    /// Puts the functions of a module together: each type index of the
    /// function section with the code at the same place of the code section.
    /// Sections of different lengths are refused, with a failure that points
    /// at `offset`.
    pub fn build_functions_component(
        function_section: FunctionSection,
        code_section: CodeSection,
        offset: usize,
    ) -> (r: Result<FuncsComponent, DecodeError>)
        ensures
            match r {
                Ok(funcs) => function_section.len() == code_section.len() && funcs.deep_view()
                    == spec_functions(function_section@, code_section.deep_view()),
                Err(e) => function_section.len() != code_section.len() && e@ == Failure::at(
                    ErrorKind::FunctionCodeMismatch,
                    offset as nat,
                ),
            },
    {
        if function_section.len() != code_section.len() {
            return Err(DecodeError::new(ErrorKind::FunctionCodeMismatch, offset));
        }
        let ghost codes = code_section.deep_view();
        let ghost raw = code_section@;
        let mut funcs: Vec<Function> = Vec::new();
        for code in it: code_section
            invariant
                it.seq() == raw,
                raw.len() == function_section.len(),
                raw.len() == codes.len(),
                funcs.len() == it.index(),
                forall|k: int| 0 <= k < raw.len() ==> #[trigger] raw[k].deep_view() == codes[k],
                forall|k: int|
                    0 <= k < funcs.len() ==> #[trigger] funcs[k].deep_view() == spec_functions(
                        function_section@,
                        codes,
                    )[k],
        {
            let ghost k = funcs.len() as int;
            let ghost done = funcs@;
            assert(code == raw[k]);
            assert(code.0.deep_view() =~= code.0@);
            let typ = function_section[funcs.len()];
            assert(raw[k].deep_view() == codes[k]);
            assert(codes[k] == (code.0@, code.1.deep_view()));
            let function = Function { typ, locals: code.0, body: code.1 };
            assert(function.deep_view() == spec_functions(function_section@, codes)[k]);
            funcs.push(function);
            assert(forall|j: int| 0 <= j < k ==> funcs[j] == done[j]);
        }
        assert(funcs.deep_view() =~= spec_functions(function_section@, codes));
        Ok(funcs)
    }
}

} // verus!
