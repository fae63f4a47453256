//! What can stand in a vector, and how each is decoded.

use vstd::prelude::*;
use crate::cursor::{spec_byte, Cursor, Parsed};
use crate::decoder::Decoder;
use crate::error::DecodeError;
use crate::grammar::integers::{lemma_uint_bounds, spec_u32};
use crate::grammar::sections::{spec_code_entry, spec_data, spec_elem, spec_global, CodeView};
use crate::grammar::types::{
    spec_export, spec_func_type, spec_import, spec_local, spec_mem_type, spec_table_type,
    spec_val_type,
};
use crate::laws::forward::{
    lemma_code_entry_forward, lemma_data_forward, lemma_elem_forward, lemma_export_forward,
    lemma_func_type_forward, lemma_global_forward, lemma_import_forward, lemma_limits_forward,
    lemma_table_type_forward,
};
use crate::module::{
    Data, DataView, Elem, ElemView, Export, ExportView, Expr, FuncIdx, FuncType, FuncTypeView,
    Global, GlobalView, Import, ImportView, LabelIdx, Mem, Table, TypeIdx, ValType,
};
use crate::vector::Element;

verus! {

broadcast use crate::cursor::lemma_cursor_in_bounds;

impl Element for ValType {
    open spec fn spec_decode(s: Seq<u8>, pos: nat) -> Parsed<ValType> {
        spec_val_type(s, pos)
    }

    proof fn lemma_forward(s: Seq<u8>, pos: nat) {
    }

    fn decode(cursor: &mut Cursor) -> (r: Result<Self, DecodeError>) {
        Decoder::decode_val_type(cursor)
    }
}

impl Element for u8 {
    open spec fn spec_decode(s: Seq<u8>, pos: nat) -> Parsed<u8> {
        spec_byte(s, pos)
    }

    proof fn lemma_forward(s: Seq<u8>, pos: nat) {
    }

    fn decode(cursor: &mut Cursor) -> (r: Result<Self, DecodeError>) {
        cursor.read_byte()
    }
}

impl Element for TypeIdx {
    open spec fn spec_decode(s: Seq<u8>, pos: nat) -> Parsed<TypeIdx> {
        match spec_u32(s, pos) {
            Err(h) => Err(h),
            Ok((index, end)) => Ok((TypeIdx(index), end)),
        }
    }

    proof fn lemma_forward(s: Seq<u8>, pos: nat) {
        lemma_uint_bounds(s, pos, 32);
    }

    fn decode(cursor: &mut Cursor) -> (r: Result<Self, DecodeError>) {
        Ok(TypeIdx(Decoder::decode_u32(cursor)?))
    }
}

impl Element for FuncIdx {
    open spec fn spec_decode(s: Seq<u8>, pos: nat) -> Parsed<FuncIdx> {
        match spec_u32(s, pos) {
            Err(h) => Err(h),
            Ok((index, end)) => Ok((FuncIdx(index), end)),
        }
    }

    proof fn lemma_forward(s: Seq<u8>, pos: nat) {
        lemma_uint_bounds(s, pos, 32);
    }

    fn decode(cursor: &mut Cursor) -> (r: Result<Self, DecodeError>) {
        Ok(FuncIdx(Decoder::decode_u32(cursor)?))
    }
}

impl Element for LabelIdx {
    open spec fn spec_decode(s: Seq<u8>, pos: nat) -> Parsed<LabelIdx> {
        match spec_u32(s, pos) {
            Err(h) => Err(h),
            Ok((index, end)) => Ok((LabelIdx(index), end)),
        }
    }

    proof fn lemma_forward(s: Seq<u8>, pos: nat) {
        lemma_uint_bounds(s, pos, 32);
    }

    fn decode(cursor: &mut Cursor) -> (r: Result<Self, DecodeError>) {
        Ok(LabelIdx(Decoder::decode_u32(cursor)?))
    }
}

impl Element for Table {
    open spec fn spec_decode(s: Seq<u8>, pos: nat) -> Parsed<Table> {
        match spec_table_type(s, pos) {
            Err(h) => Err(h),
            Ok((typ, end)) => Ok((Table { typ }, end)),
        }
    }

    proof fn lemma_forward(s: Seq<u8>, pos: nat) {
        lemma_table_type_forward(s, pos);
    }

    fn decode(cursor: &mut Cursor) -> (r: Result<Self, DecodeError>) {
        Ok(Table { typ: Decoder::decode_table_type(cursor)? })
    }
}

impl Element for Mem {
    open spec fn spec_decode(s: Seq<u8>, pos: nat) -> Parsed<Mem> {
        match spec_mem_type(s, pos) {
            Err(h) => Err(h),
            Ok((typ, end)) => Ok((Mem { typ }, end)),
        }
    }

    proof fn lemma_forward(s: Seq<u8>, pos: nat) {
        lemma_limits_forward(s, pos);
    }

    fn decode(cursor: &mut Cursor) -> (r: Result<Self, DecodeError>) {
        Ok(Mem { typ: Decoder::decode_mem_type(cursor)? })
    }
}

impl Element for FuncType {
    open spec fn spec_decode(s: Seq<u8>, pos: nat) -> Parsed<FuncTypeView> {
        spec_func_type(s, pos)
    }

    proof fn lemma_forward(s: Seq<u8>, pos: nat) {
        lemma_func_type_forward(s, pos);
    }

    fn decode(cursor: &mut Cursor) -> (r: Result<Self, DecodeError>) {
        Decoder::decode_func_type(cursor)
    }
}

impl Element for Import {
    open spec fn spec_decode(s: Seq<u8>, pos: nat) -> Parsed<ImportView> {
        spec_import(s, pos)
    }

    proof fn lemma_forward(s: Seq<u8>, pos: nat) {
        lemma_import_forward(s, pos);
    }

    fn decode(cursor: &mut Cursor) -> (r: Result<Self, DecodeError>) {
        Decoder::decode_import(cursor)
    }
}

impl Element for Export {
    open spec fn spec_decode(s: Seq<u8>, pos: nat) -> Parsed<ExportView> {
        spec_export(s, pos)
    }

    proof fn lemma_forward(s: Seq<u8>, pos: nat) {
        lemma_export_forward(s, pos);
    }

    fn decode(cursor: &mut Cursor) -> (r: Result<Self, DecodeError>) {
        Decoder::decode_export(cursor)
    }
}

impl Element for Vec<ValType> {
    open spec fn spec_decode(s: Seq<u8>, pos: nat) -> Parsed<Seq<ValType>> {
        spec_local(s, pos)
    }

    proof fn lemma_forward(s: Seq<u8>, pos: nat) {
        lemma_uint_bounds(s, pos, 32);
    }

    fn decode(cursor: &mut Cursor) -> (r: Result<Self, DecodeError>) {
        Decoder::decode_local(cursor)
    }
}

impl Element for Global {
    open spec fn spec_decode(s: Seq<u8>, pos: nat) -> Parsed<GlobalView> {
        spec_global(s, pos)
    }

    proof fn lemma_forward(s: Seq<u8>, pos: nat) {
        lemma_global_forward(s, pos);
    }

    fn decode(cursor: &mut Cursor) -> (r: Result<Self, DecodeError>) {
        Decoder::decode_global(cursor)
    }
}

impl Element for Elem {
    open spec fn spec_decode(s: Seq<u8>, pos: nat) -> Parsed<ElemView> {
        spec_elem(s, pos)
    }

    proof fn lemma_forward(s: Seq<u8>, pos: nat) {
        lemma_elem_forward(s, pos);
    }

    fn decode(cursor: &mut Cursor) -> (r: Result<Self, DecodeError>) {
        Decoder::decode_elem(cursor)
    }
}

impl Element for Data {
    open spec fn spec_decode(s: Seq<u8>, pos: nat) -> Parsed<DataView> {
        spec_data(s, pos)
    }

    proof fn lemma_forward(s: Seq<u8>, pos: nat) {
        lemma_data_forward(s, pos);
    }

    fn decode(cursor: &mut Cursor) -> (r: Result<Self, DecodeError>) {
        Decoder::decode_data(cursor)
    }
}

impl Element for (Vec<ValType>, Expr) {
    open spec fn spec_decode(s: Seq<u8>, pos: nat) -> Parsed<CodeView> {
        spec_code_entry(s, pos)
    }

    proof fn lemma_forward(s: Seq<u8>, pos: nat) {
        lemma_code_entry_forward(s, pos);
    }

    fn decode(cursor: &mut Cursor) -> (r: Result<Self, DecodeError>) {
        Decoder::decode_code_entry(cursor)
    }
}

} // verus!
