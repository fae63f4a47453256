//! Decoding the sections of a module and their entries.

use vstd::prelude::*;
use crate::cursor::{obeys, Cursor};
use crate::decoder::Decoder;
use crate::error::{DecodeError, ErrorKind};
use crate::grammar::integers::lemma_uint_bounds;
use crate::grammar::sections::{
    spec_code, spec_code_entry, spec_code_section, spec_data, spec_data_section, spec_elem,
    spec_elem_section, spec_export_section, spec_function_section, spec_global,
    spec_global_section, spec_import_section, spec_memory_section, spec_start_section,
    spec_table_section, spec_type_section,
};
use crate::module::{
    Data, DataComponent, Elem, ElemComponent, Export, ExportsComponent, Expr,
    FuncIdx, FuncType, Global, GlobalsComponent, Import, ImportsComponent, Mem, MemIdx,
    MemoryComponent, Start, StartComponent, Table, TableComponent, TableIdx, TypeIdx,
    TypesComponent, ValType,
};

verus! {

broadcast use crate::cursor::lemma_cursor_in_bounds;

/// The function section: the type index of each function.
pub type FunctionSection = Vec<TypeIdx>;

/// An entry of the code section: the locals of a function, one type for each,
/// and its body.
pub type Code = (Vec<ValType>, Expr);

/// The code section: the code of each function.
pub type CodeSection = Vec<Code>;

impl Decoder {
    /// Decodes the type section.
    pub fn decode_type_section(cursor: &mut Cursor) -> (r: Result<TypesComponent, DecodeError>)
        ensures
            obeys(
                r,
                *old(cursor),
                *final(cursor),
                spec_type_section(old(cursor).bytes(), old(cursor).pos()),
            ),
    {
        Self::process_vector::<FuncType>(cursor)
    }

    /// Decodes the import section.
    pub fn decode_import_section(cursor: &mut Cursor) -> (r: Result<ImportsComponent, DecodeError>)
        ensures
            obeys(
                r,
                *old(cursor),
                *final(cursor),
                spec_import_section(old(cursor).bytes(), old(cursor).pos()),
            ),
    {
        Self::process_vector::<Import>(cursor)
    }

    /// Decodes the function section.
    pub fn decode_function_section(cursor: &mut Cursor) -> (r: Result<
        FunctionSection,
        DecodeError,
    >)
        ensures
            obeys(
                r,
                *old(cursor),
                *final(cursor),
                spec_function_section(old(cursor).bytes(), old(cursor).pos()),
            ),
    {
        Self::process_vector::<TypeIdx>(cursor)
    }

    /// Decodes the table section, and refuses more than one table.
    pub fn decode_table_section(cursor: &mut Cursor) -> (r: Result<TableComponent, DecodeError>)
        ensures
            obeys(
                r,
                *old(cursor),
                *final(cursor),
                spec_table_section(old(cursor).bytes(), old(cursor).pos()),
            ),
    {
        proof {
            lemma_uint_bounds(cursor.bytes(), cursor.pos(), 32);
        }
        let table_component = Self::process_vector::<Table>(cursor)?;
        if table_component.len() > 1 {
            return Err(Self::error_at(cursor, ErrorKind::MultipleTables));
        }
        Ok(table_component)
    }

    /// Decodes the memory section, and refuses more than one memory.
    pub fn decode_memory_section(cursor: &mut Cursor) -> (r: Result<MemoryComponent, DecodeError>)
        ensures
            obeys(
                r,
                *old(cursor),
                *final(cursor),
                spec_memory_section(old(cursor).bytes(), old(cursor).pos()),
            ),
    {
        proof {
            lemma_uint_bounds(cursor.bytes(), cursor.pos(), 32);
        }
        let memory_component = Self::process_vector::<Mem>(cursor)?;
        if memory_component.len() > 1 {
            return Err(Self::error_at(cursor, ErrorKind::MultipleMemories));
        }
        Ok(memory_component)
    }

    /// Decodes a global.
    pub fn decode_global(cursor: &mut Cursor) -> (r: Result<Global, DecodeError>)
        ensures
            obeys(
                r,
                *old(cursor),
                *final(cursor),
                spec_global(old(cursor).bytes(), old(cursor).pos()),
            ),
    {
        let init = Self::decode_expression(cursor)?;
        let typ = Self::decode_global_type(cursor)?;
        Ok(Global { typ, init })
    }

    /// Decodes the global section.
    pub fn decode_global_section(cursor: &mut Cursor) -> (r: Result<GlobalsComponent, DecodeError>)
        ensures
            obeys(
                r,
                *old(cursor),
                *final(cursor),
                spec_global_section(old(cursor).bytes(), old(cursor).pos()),
            ),
    {
        Self::process_vector::<Global>(cursor)
    }

    /// Decodes the export section.
    pub fn decode_export_section(cursor: &mut Cursor) -> (r: Result<ExportsComponent, DecodeError>)
        ensures
            obeys(
                r,
                *old(cursor),
                *final(cursor),
                spec_export_section(old(cursor).bytes(), old(cursor).pos()),
            ),
    {
        Self::process_vector::<Export>(cursor)
    }

    /// Decodes the start section.
    pub fn decode_start_section(cursor: &mut Cursor) -> (r: Result<StartComponent, DecodeError>)
        ensures
            obeys(
                r,
                *old(cursor),
                *final(cursor),
                spec_start_section(old(cursor).bytes(), old(cursor).pos()),
            ),
    {
        Ok(Some(Start { func: FuncIdx(Self::decode_u32(cursor)?) }))
    }

    /// Decodes an element segment.
    pub fn decode_elem(cursor: &mut Cursor) -> (r: Result<Elem, DecodeError>)
        ensures
            obeys(
                r,
                *old(cursor),
                *final(cursor),
                spec_elem(old(cursor).bytes(), old(cursor).pos()),
            ),
    {
        let table = TableIdx(Self::decode_u32(cursor)?);
        let offset = Self::decode_expression(cursor)?;
        let init = Self::process_vector::<FuncIdx>(cursor)?;
        assert(init.deep_view() =~= init@);
        Ok(Elem { table, offset, init })
    }

    /// Decodes the element section.
    pub fn decode_elem_section(cursor: &mut Cursor) -> (r: Result<ElemComponent, DecodeError>)
        ensures
            obeys(
                r,
                *old(cursor),
                *final(cursor),
                spec_elem_section(old(cursor).bytes(), old(cursor).pos()),
            ),
    {
        Self::process_vector::<Elem>(cursor)
    }

    /// Decodes a data segment.
    pub fn decode_data(cursor: &mut Cursor) -> (r: Result<Data, DecodeError>)
        ensures
            obeys(
                r,
                *old(cursor),
                *final(cursor),
                spec_data(old(cursor).bytes(), old(cursor).pos()),
            ),
    {
        let data = MemIdx(Self::decode_u32(cursor)?);
        let offset = Self::decode_expression(cursor)?;
        let init = Self::process_vector::<u8>(cursor)?;
        assert(init.deep_view() =~= init@);
        Ok(Data { data, offset, init })
    }

    /// Decodes the data section.
    pub fn decode_data_section(cursor: &mut Cursor) -> (r: Result<DataComponent, DecodeError>)
        ensures
            obeys(
                r,
                *old(cursor),
                *final(cursor),
                spec_data_section(old(cursor).bytes(), old(cursor).pos()),
            ),
    {
        Self::process_vector::<Data>(cursor)
    }

    /// Decodes the code of a function: its locals, written out from their
    /// groups, and its body.
    pub fn decode_code(cursor: &mut Cursor) -> (r: Result<Code, DecodeError>)
        ensures
            obeys(
                r,
                *old(cursor),
                *final(cursor),
                spec_code(old(cursor).bytes(), old(cursor).pos()),
            ),
    {
        let groups = Self::process_vector::<Vec<ValType>>(cursor)?;
        let ghost parsed = groups.deep_view();
        let mut locals: Vec<ValType> = Vec::new();
        let mut i: usize = 0;
        assert(parsed.take(0) =~= Seq::empty());
        while i < groups.len()
            invariant
                i <= groups.len(),
                parsed == groups.deep_view(),
                locals@ == parsed.take(i as int).flatten(),
            decreases groups.len() - i,
        {
            let group = &groups[i];
            let ghost before = locals@;
            let mut j: usize = 0;
            while j < group.len()
                invariant
                    j <= group.len(),
                    locals@ == before + group@.take(j as int),
                decreases group.len() - j,
            {
                locals.push(group[j]);
                assert(group@.take(j + 1) =~= group@.take(j as int).push(group@[j as int]));
                j = j + 1;
            }
            proof {
                assert(group@.take(group.len() as int) =~= group@);
                assert(parsed[i as int] =~= group@);
                assert(parsed.take(i + 1) =~= parsed.take(i as int).push(parsed[i as int]));
                parsed.take(i as int).lemma_flatten_push(parsed[i as int]);
            }
            i = i + 1;
        }
        assert(parsed.take(groups.len() as int) =~= parsed);
        let body = Self::decode_expression(cursor)?;
        assert(locals.deep_view() =~= locals@);
        Ok((locals, body))
    }

    /// Decodes an entry of the code section: a size, which is not used, and
    /// the code.
    pub fn decode_code_entry(cursor: &mut Cursor) -> (r: Result<Code, DecodeError>)
        ensures
            obeys(
                r,
                *old(cursor),
                *final(cursor),
                spec_code_entry(old(cursor).bytes(), old(cursor).pos()),
            ),
    {
        let _size = Self::decode_u32(cursor)?;
        Self::decode_code(cursor)
    }

    /// Decodes the code section.
    pub fn decode_code_section(cursor: &mut Cursor) -> (r: Result<CodeSection, DecodeError>)
        ensures
            obeys(
                r,
                *old(cursor),
                *final(cursor),
                spec_code_section(old(cursor).bytes(), old(cursor).pos()),
            ),
    {
        Self::process_vector::<Code>(cursor)
    }
}

} // verus!
