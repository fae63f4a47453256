//! The sections of a module and their entries.

use vstd::prelude::*;
use crate::cursor::{Halt, Parsed};
use crate::error::ErrorKind;
use crate::grammar::instructions::spec_expression;
use crate::grammar::integers::spec_u32;
use crate::grammar::types::spec_global_type;
use crate::module::{
    Data, DataView, Elem, ElemView, Export, ExportView, FuncIdx, FuncType, FuncTypeView, Global,
    GlobalView, Import, ImportView, InstrView, Mem, MemIdx, Start, Table, TableIdx, TypeIdx,
    ValType,
};
use crate::vector::spec_vector;

verus! {

/// The content of an entry of the code section: the locals, one type for each,
/// and the body.
pub type CodeView = (Seq<ValType>, Seq<InstrView>);

/// A global: the expression that gives its first value, then its type.
pub open spec fn spec_global(s: Seq<u8>, pos: nat) -> Parsed<GlobalView> {
    match spec_expression(s, pos) {
        Err(h) => Err(h),
        Ok((init, next)) => match spec_global_type(s, next) {
            Err(h) => Err(h),
            Ok((typ, end)) => Ok((GlobalView { typ, init }, end)),
        },
    }
}

/// An element segment: a table index, an offset expression, a vector of
/// function indices.
pub open spec fn spec_elem(s: Seq<u8>, pos: nat) -> Parsed<ElemView> {
    match spec_u32(s, pos) {
        Err(h) => Err(h),
        Ok((table, next)) => match spec_expression(s, next) {
            Err(h) => Err(h),
            Ok((offset, mid)) => match spec_vector::<FuncIdx>(s, mid) {
                Err(h) => Err(h),
                Ok((init, end)) => Ok((ElemView { table: TableIdx(table), offset, init }, end)),
            },
        },
    }
}

/// A data segment: a memory index, an offset expression, a vector of bytes.
pub open spec fn spec_data(s: Seq<u8>, pos: nat) -> Parsed<DataView> {
    match spec_u32(s, pos) {
        Err(h) => Err(h),
        Ok((data, next)) => match spec_expression(s, next) {
            Err(h) => Err(h),
            Ok((offset, mid)) => match spec_vector::<u8>(s, mid) {
                Err(h) => Err(h),
                Ok((init, end)) => Ok((DataView { data: MemIdx(data), offset, init }, end)),
            },
        },
    }
}

/// The code of a function: a vector of groups of locals, written out one after
/// another, then the body.
pub open spec fn spec_code(s: Seq<u8>, pos: nat) -> Parsed<CodeView> {
    match spec_vector::<Vec<ValType>>(s, pos) {
        Err(h) => Err(h),
        Ok((groups, next)) => match spec_expression(s, next) {
            Err(h) => Err(h),
            Ok((body, end)) => Ok(((groups.flatten(), body), end)),
        },
    }
}

/// An entry of the code section: its size in bytes, which is read and not
/// used, then the code.
pub open spec fn spec_code_entry(s: Seq<u8>, pos: nat) -> Parsed<CodeView> {
    match spec_u32(s, pos) {
        Err(h) => Err(h),
        Ok((_, next)) => spec_code(s, next),
    }
}

/// The type section: a vector of function types.
pub open spec fn spec_type_section(s: Seq<u8>, pos: nat) -> Parsed<Seq<FuncTypeView>> {
    spec_vector::<FuncType>(s, pos)
}

/// The import section: a vector of imports.
pub open spec fn spec_import_section(s: Seq<u8>, pos: nat) -> Parsed<Seq<ImportView>> {
    spec_vector::<Import>(s, pos)
}

/// The function section: a vector of type indices, one for each function.
pub open spec fn spec_function_section(s: Seq<u8>, pos: nat) -> Parsed<Seq<TypeIdx>> {
    spec_vector::<TypeIdx>(s, pos)
}

/// The table section: a vector of tables, of which there may be one at most.
pub open spec fn spec_table_section(s: Seq<u8>, pos: nat) -> Parsed<Seq<Table>> {
    match spec_vector::<Table>(s, pos) {
        Err(h) => Err(h),
        Ok((tables, end)) => if tables.len() > 1 {
            Err(Halt::rejected(ErrorKind::MultipleTables, end))
        } else {
            Ok((tables, end))
        },
    }
}

/// The memory section: a vector of memories, of which there may be one at most.
pub open spec fn spec_memory_section(s: Seq<u8>, pos: nat) -> Parsed<Seq<Mem>> {
    match spec_vector::<Mem>(s, pos) {
        Err(h) => Err(h),
        Ok((memories, end)) => if memories.len() > 1 {
            Err(Halt::rejected(ErrorKind::MultipleMemories, end))
        } else {
            Ok((memories, end))
        },
    }
}

/// The global section: a vector of globals.
pub open spec fn spec_global_section(s: Seq<u8>, pos: nat) -> Parsed<Seq<GlobalView>> {
    spec_vector::<Global>(s, pos)
}

/// The export section: a vector of exports.
pub open spec fn spec_export_section(s: Seq<u8>, pos: nat) -> Parsed<Seq<ExportView>> {
    spec_vector::<Export>(s, pos)
}

/// The start section: the index of the start function.
pub open spec fn spec_start_section(s: Seq<u8>, pos: nat) -> Parsed<Option<Start>> {
    match spec_u32(s, pos) {
        Err(h) => Err(h),
        Ok((func, end)) => Ok((Some(Start { func: FuncIdx(func) }), end)),
    }
}

/// The element section: a vector of element segments.
pub open spec fn spec_elem_section(s: Seq<u8>, pos: nat) -> Parsed<Seq<ElemView>> {
    spec_vector::<Elem>(s, pos)
}

/// The code section: a vector of entries, one for each function.
pub open spec fn spec_code_section(s: Seq<u8>, pos: nat) -> Parsed<Seq<CodeView>> {
    spec_vector::<(Vec<ValType>, crate::module::Expr)>(s, pos)
}

/// The data section: a vector of data segments.
pub open spec fn spec_data_section(s: Seq<u8>, pos: nat) -> Parsed<Seq<DataView>> {
    spec_vector::<Data>(s, pos)
}

} // verus!
