//! A whole module: the preamble, the sections in the order of the input, and
//! the functions put together from the function section and the code section.

use vstd::prelude::*;
use crate::codes;
use crate::cursor::{spec_byte, spec_bytes, spec_le, Halt, Parsed};
use crate::error::{ErrorKind, Failure};
use crate::grammar::instructions::left;
use crate::grammar::integers::spec_uint;
use crate::grammar::sections::{
    spec_code_section, spec_data_section, spec_elem_section, spec_export_section,
    spec_function_section, spec_global_section, spec_import_section, spec_memory_section,
    spec_start_section, spec_table_section, spec_type_section, CodeView,
};
use crate::module::{FunctionView, ModuleView, TypeIdx};

verus! {

/// The magic bytes as a sequence.
pub open spec fn magic() -> Seq<u8> {
    seq![0x00u8, 0x61u8, 0x73u8, 0x6du8]
}

/// The magic: four bytes that must be the magic bytes. Other bytes are a
/// failure that points at the first of the four.
pub open spec fn spec_magic(s: Seq<u8>, pos: nat) -> Parsed<()> {
    match spec_bytes(s, pos, 4) {
        Err(h) => Err(h),
        Ok((found, next)) => if found == magic() {
            Ok(((), next))
        } else {
            Err(Halt { error: Failure::at(ErrorKind::InvalidMagic, pos), at: next })
        },
    }
}

/// The version: four bytes, little-endian, that must spell 1.
pub open spec fn spec_version(s: Seq<u8>, pos: nat) -> Parsed<u32> {
    match spec_le(s, pos, 4) {
        Err(h) => Err(h),
        Ok((version, next)) => if version == codes::VERSION {
            Ok((codes::VERSION, next))
        } else {
            Err(Halt::rejected(ErrorKind::UnsupportedVersion(version as u32), next))
        },
    }
}

/// The content of a [`crate::decoder::Draft`]: what has been gathered of a
/// module while its sections are read. It holds the module so far, and the
/// function section and the code section, each once it has been read.
pub struct DraftView {
    pub module: ModuleView,
    pub functions: Option<Seq<TypeIdx>>,
    pub codes: Option<Seq<CodeView>>,
}

impl DraftView {
    /// Nothing gathered yet.
    pub open spec fn empty() -> DraftView {
        DraftView { module: ModuleView::empty(), functions: None, codes: None }
    }
}

/// The codes of the sections that are decoded.
pub open spec fn is_section(code: u8) -> bool {
    codes::section::TYPE <= code <= codes::section::DATA
}

/// The payload at `pos` of a section with the given code, added to what has
/// been gathered. A section that comes a second time replaces the first. A
/// code that is custom or stands for no section is a failure that points at
/// the byte before `pos`, the last of the section's length.
///
/// The definition is opaque, so that its many cases are unfolded only in the
/// proofs that ask for them with `reveal`.
#[verifier::opaque]
pub open spec fn spec_section(s: Seq<u8>, pos: nat, code: u8, so_far: DraftView) -> Parsed<
    DraftView,
> {
    if code == codes::section::TYPE {
        match spec_type_section(s, pos) {
            Err(h) => Err(h),
            Ok((types, end)) => Ok(
                (DraftView { module: ModuleView { types, ..so_far.module }, ..so_far }, end),
            ),
        }
    } else if code == codes::section::IMPORT {
        match spec_import_section(s, pos) {
            Err(h) => Err(h),
            Ok((imports, end)) => Ok(
                (DraftView { module: ModuleView { imports, ..so_far.module }, ..so_far }, end),
            ),
        }
    } else if code == codes::section::FUNCTION {
        match spec_function_section(s, pos) {
            Err(h) => Err(h),
            Ok((functions, end)) => Ok((DraftView { functions: Some(functions), ..so_far }, end)),
        }
    } else if code == codes::section::TABLE {
        match spec_table_section(s, pos) {
            Err(h) => Err(h),
            Ok((table, end)) => Ok(
                (DraftView { module: ModuleView { table, ..so_far.module }, ..so_far }, end),
            ),
        }
    } else if code == codes::section::MEMORY {
        match spec_memory_section(s, pos) {
            Err(h) => Err(h),
            Ok((memory, end)) => Ok(
                (DraftView { module: ModuleView { memory, ..so_far.module }, ..so_far }, end),
            ),
        }
    } else if code == codes::section::GLOBAL {
        match spec_global_section(s, pos) {
            Err(h) => Err(h),
            Ok((globals, end)) => Ok(
                (DraftView { module: ModuleView { globals, ..so_far.module }, ..so_far }, end),
            ),
        }
    } else if code == codes::section::EXPORT {
        match spec_export_section(s, pos) {
            Err(h) => Err(h),
            Ok((exports, end)) => Ok(
                (DraftView { module: ModuleView { exports, ..so_far.module }, ..so_far }, end),
            ),
        }
    } else if code == codes::section::START {
        match spec_start_section(s, pos) {
            Err(h) => Err(h),
            Ok((start, end)) => Ok(
                (DraftView { module: ModuleView { start, ..so_far.module }, ..so_far }, end),
            ),
        }
    } else if code == codes::section::ELEMENT {
        match spec_elem_section(s, pos) {
            Err(h) => Err(h),
            Ok((elem, end)) => Ok(
                (DraftView { module: ModuleView { elem, ..so_far.module }, ..so_far }, end),
            ),
        }
    } else if code == codes::section::CODE {
        match spec_code_section(s, pos) {
            Err(h) => Err(h),
            Ok((codes, end)) => Ok((DraftView { codes: Some(codes), ..so_far }, end)),
        }
    } else if code == codes::section::DATA {
        match spec_data_section(s, pos) {
            Err(h) => Err(h),
            Ok((data, end)) => Ok(
                (DraftView { module: ModuleView { data, ..so_far.module }, ..so_far }, end),
            ),
        }
    } else {
        Err(Halt::rejected(ErrorKind::UnsupportedSection(code), pos))
    }
}

/// The sections from `pos` to the end of the input, added one after another to
/// what has been gathered.
///
/// A section is its code, its length in bytes and its payload. The length is
/// read and not used: where a section ends is decided by its payload alone.
/// That no byte is left where a section code is due is the regular end.
///
/// No section ends before its payload begins, so the test for that never
/// fails ([`crate::laws::forward::lemma_sections_step`] states the definition
/// without it); it is there to show that the recursion comes to an end.
pub open spec fn spec_sections(s: Seq<u8>, pos: nat, so_far: DraftView) -> Result<
    DraftView,
    Failure,
>
    decreases left(s, pos),
{
    match spec_byte(s, pos) {
        Err(_) => Ok(so_far),
        Ok((code, next)) => match spec_uint(s, next, 32) {
            Err(h) => Err(h.error),
            Ok((_, payload)) => match spec_section(s, payload, code, so_far) {
                Err(h) => Err(h.error),
                Ok((grown, end)) => if end <= pos {
                    Err(Failure::at(ErrorKind::MalformedStream, pos))
                } else {
                    spec_sections(s, end, grown)
                },
            },
        },
    }
}

/// The functions of a module: each type index of the function section with the
/// locals and the body of the code entry at the same place.
pub open spec fn spec_functions(functions: Seq<TypeIdx>, codes: Seq<CodeView>) -> Seq<
    FunctionView,
> {
    Seq::new(
        functions.len(),
        |i: int| FunctionView { typ: functions[i], locals: codes[i].0, body: codes[i].1 },
    )
}

/// The module that has been gathered. Where both the function section and the
/// code section were read, they must be of one length and give the functions;
/// a difference in length is a failure that points at `offset`. Where either
/// is missing, the module has no functions.
pub open spec fn spec_assemble(gathered: DraftView, offset: nat) -> Result<ModuleView, Failure> {
    match (gathered.functions, gathered.codes) {
        (Some(functions), Some(codes)) => if functions.len() == codes.len() {
            Ok(ModuleView { funcs: spec_functions(functions, codes), ..gathered.module })
        } else {
            Err(Failure::at(ErrorKind::FunctionCodeMismatch, offset))
        },
        _ => Ok(gathered.module),
    }
}

/// The module that the bytes `s` encode: the magic, the version, the sections
/// up to the end of the input, and the functions put together. A function
/// section and a code section that do not go together are a failure that
/// points at the last byte of the input.
pub open spec fn spec_module(s: Seq<u8>) -> Result<ModuleView, Failure> {
    match spec_magic(s, 0) {
        Err(h) => Err(h.error),
        Ok((_, at_version)) => match spec_version(s, at_version) {
            Err(h) => Err(h.error),
            Ok((_, at_sections)) => match spec_sections(s, at_sections, DraftView::empty()) {
                Err(failure) => Err(failure),
                Ok(gathered) => spec_assemble(gathered, (s.len() - 1) as nat),
            },
        },
    }
}

} // verus!
