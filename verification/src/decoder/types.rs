//! Decoding types, limits, descriptors and names.

use vstd::prelude::*;
use vstd::utf8::{decode_utf8, valid_utf8};
use crate::codes;
use crate::cursor::{obeys, Cursor};
use crate::decoder::Decoder;
use crate::error::{DecodeError, ErrorKind};
use crate::grammar::integers::lemma_uint_bounds;
use crate::grammar::types::{
    spec_block_type, spec_export, spec_func_type, spec_global_type, spec_imp_export_description,
    spec_import, spec_limits, spec_local, spec_mem_type, spec_string, spec_table_type,
    spec_val_type,
};
use crate::module::{
    ElemType, Export, FuncType, GlobalType, ImpExportDesc, Import, Limits, MemType, Mut,
    ResultType, TableType, TypeIdx, ValType,
};

verus! {

broadcast use crate::cursor::lemma_cursor_in_bounds;

/// `String::from_utf8`, which gives the string that the bytes spell in UTF-8,
/// and fails exactly when they are not valid UTF-8; the failure is turned into
/// `None`.
#[verifier::external_body]
fn string_from_utf8(bytes: Vec<u8>) -> (r: Option<String>)
    ensures
        match r {
            Some(text) => valid_utf8(bytes@) && text@ == decode_utf8(bytes@),
            None => !valid_utf8(bytes@),
        },
{
    String::from_utf8(bytes).ok()
}

impl Decoder {
    /// Decodes a value type.
    pub fn decode_val_type(cursor: &mut Cursor) -> (r: Result<ValType, DecodeError>)
        ensures
            obeys(
                r,
                *old(cursor),
                *final(cursor),
                spec_val_type(old(cursor).bytes(), old(cursor).pos()),
            ),
    {
        let tag = cursor.read_byte()?;
        if tag == codes::types::I32 {
            Ok(ValType::I32)
        } else if tag == codes::types::I64 {
            Ok(ValType::I64)
        } else if tag == codes::types::F32 {
            Ok(ValType::F32)
        } else if tag == codes::types::F64 {
            Ok(ValType::F64)
        } else {
            Err(Self::error_at(cursor, ErrorKind::InvalidValueType(tag)))
        }
    }

    /// Decodes the result type of a block.
    pub fn decode_block_type(cursor: &mut Cursor) -> (r: Result<ResultType, DecodeError>)
        ensures
            obeys(
                r,
                *old(cursor),
                *final(cursor),
                spec_block_type(old(cursor).bytes(), old(cursor).pos()),
            ),
    {
        let tag = cursor.read_byte()?;
        if tag == codes::types::RESULT {
            Ok(ResultType(None))
        } else if tag == codes::types::I32 {
            Ok(ResultType(Some(ValType::I32)))
        } else if tag == codes::types::I64 {
            Ok(ResultType(Some(ValType::I64)))
        } else if tag == codes::types::F32 {
            Ok(ResultType(Some(ValType::F32)))
        } else if tag == codes::types::F64 {
            Ok(ResultType(Some(ValType::F64)))
        } else {
            Err(Self::error_at(cursor, ErrorKind::InvalidBlockType(tag)))
        }
    }

    /// Decodes the limits of a table or a memory.
    pub fn decode_limits(cursor: &mut Cursor) -> (r: Result<Limits, DecodeError>)
        ensures
            obeys(
                r,
                *old(cursor),
                *final(cursor),
                spec_limits(old(cursor).bytes(), old(cursor).pos()),
            ),
    {
        let flag = cursor.read_byte()?;
        if flag == codes::types::LIMIT_NO_MAX {
            let min = Self::decode_u32(cursor)?;
            Ok(Limits { min, max: None })
        } else if flag == codes::types::LIMIT_MAX {
            let min = Self::decode_u32(cursor)?;
            let max = Self::decode_u32(cursor)?;
            Ok(Limits { min, max: Some(max) })
        } else {
            Err(Self::error_at(cursor, ErrorKind::InvalidLimitsFlag(flag)))
        }
    }

    /// Decodes a table type.
    pub fn decode_table_type(cursor: &mut Cursor) -> (r: Result<TableType, DecodeError>)
        ensures
            obeys(
                r,
                *old(cursor),
                *final(cursor),
                spec_table_type(old(cursor).bytes(), old(cursor).pos()),
            ),
    {
        let tag = cursor.read_byte()?;
        if tag != codes::types::FUNCREF {
            return Err(Self::error_at(cursor, ErrorKind::InvalidElementType(tag)));
        }
        let limits = Self::decode_limits(cursor)?;
        Ok(TableType(limits, ElemType::FuncRef))
    }

    /// Decodes a memory type.
    pub fn decode_mem_type(cursor: &mut Cursor) -> (r: Result<MemType, DecodeError>)
        ensures
            obeys(
                r,
                *old(cursor),
                *final(cursor),
                spec_mem_type(old(cursor).bytes(), old(cursor).pos()),
            ),
    {
        Ok(MemType(Self::decode_limits(cursor)?))
    }

    /// Decodes a global type.
    pub fn decode_global_type(cursor: &mut Cursor) -> (r: Result<GlobalType, DecodeError>)
        ensures
            obeys(
                r,
                *old(cursor),
                *final(cursor),
                spec_global_type(old(cursor).bytes(), old(cursor).pos()),
            ),
    {
        let val_type = Self::decode_val_type(cursor)?;
        let flag = cursor.read_byte()?;
        if flag == codes::types::CONST {
            Ok(GlobalType(Mut::Const, val_type))
        } else if flag == codes::types::VAR {
            Ok(GlobalType(Mut::Var, val_type))
        } else {
            Err(Self::error_at(cursor, ErrorKind::InvalidMutability(flag)))
        }
    }

    /// Decodes the descriptor of an import or an export.
    pub fn decode_imp_export_description(cursor: &mut Cursor) -> (r: Result<
        ImpExportDesc,
        DecodeError,
    >)
        ensures
            obeys(
                r,
                *old(cursor),
                *final(cursor),
                spec_imp_export_description(old(cursor).bytes(), old(cursor).pos()),
            ),
    {
        let tag = cursor.read_byte()?;
        if tag == codes::im_export_desc::TYPE {
            Ok(ImpExportDesc::Func(TypeIdx(Self::decode_u32(cursor)?)))
        } else if tag == codes::im_export_desc::TABLE {
            Ok(ImpExportDesc::Table(Self::decode_table_type(cursor)?))
        } else if tag == codes::im_export_desc::MEM {
            Ok(ImpExportDesc::Mem(Self::decode_mem_type(cursor)?))
        } else if tag == codes::im_export_desc::GLOBAL {
            Ok(ImpExportDesc::Global(Self::decode_global_type(cursor)?))
        } else {
            Err(Self::error_at(cursor, ErrorKind::InvalidDescriptor(tag)))
        }
    }

    /// Decodes a name and checks that it is valid UTF-8.
    pub fn decode_string(cursor: &mut Cursor) -> (r: Result<String, DecodeError>)
        ensures
            obeys(
                r,
                *old(cursor),
                *final(cursor),
                spec_string(old(cursor).bytes(), old(cursor).pos()),
            ),
    {
        proof {
            lemma_uint_bounds(cursor.bytes(), cursor.pos(), 32);
        }
        let length = Self::decode_u32(cursor)?;
        let payload = cursor.read_bytes(length as usize)?;
        match string_from_utf8(payload) {
            Some(name) => Ok(name),
            None => Err(Self::error_at(cursor, ErrorKind::InvalidUtf8)),
        }
    }

    /// Decodes a function type.
    pub fn decode_func_type(cursor: &mut Cursor) -> (r: Result<FuncType, DecodeError>)
        ensures
            obeys(
                r,
                *old(cursor),
                *final(cursor),
                spec_func_type(old(cursor).bytes(), old(cursor).pos()),
            ),
    {
        let marker = cursor.read_byte()?;
        if marker != codes::types::FUNCTION {
            return Err(Self::error_at(cursor, ErrorKind::InvalidTypeMarker(marker)));
        }
        let params = Self::process_vector::<ValType>(cursor)?;
        let results = Self::process_vector::<ValType>(cursor)?;
        proof {
            assert(params.deep_view() =~= params@);
            assert(results.deep_view() =~= results@);
        }
        Ok(FuncType { params, results })
    }

    /// Decodes an import.
    pub fn decode_import(cursor: &mut Cursor) -> (r: Result<Import, DecodeError>)
        ensures
            obeys(
                r,
                *old(cursor),
                *final(cursor),
                spec_import(old(cursor).bytes(), old(cursor).pos()),
            ),
    {
        let module = Self::decode_string(cursor)?;
        let name = Self::decode_string(cursor)?;
        let desc = Self::decode_imp_export_description(cursor)?;
        Ok(Import { module, name, desc })
    }

    /// Decodes an export.
    pub fn decode_export(cursor: &mut Cursor) -> (r: Result<Export, DecodeError>)
        ensures
            obeys(
                r,
                *old(cursor),
                *final(cursor),
                spec_export(old(cursor).bytes(), old(cursor).pos()),
            ),
    {
        let name = Self::decode_string(cursor)?;
        let desc = Self::decode_imp_export_description(cursor)?;
        Ok(Export { name, desc })
    }

    /// Decodes one group of locals and writes it out: as many copies of the
    /// group's value type as its count says.
    pub fn decode_local(cursor: &mut Cursor) -> (r: Result<Vec<ValType>, DecodeError>)
        ensures
            obeys(
                r,
                *old(cursor),
                *final(cursor),
                spec_local(old(cursor).bytes(), old(cursor).pos()),
            ),
    {
        let n = Self::decode_u32(cursor)?;
        let mut locals: Vec<ValType> = Vec::new();
        if n > 0 {
            let val_type = Self::decode_val_type(cursor)?;
            let mut i: u32 = 0;
            while i < n
                invariant
                    i <= n,
                    locals@ =~= Seq::new(i as nat, |k: int| val_type),
                decreases n - i,
            {
                locals.push(val_type);
                i = i + 1;
            }
        }
        proof {
            assert(locals.deep_view() =~= locals@);
        }
        Ok(locals)
    }
}

} // verus!
