//! What decoding gives on inputs of a few plain shapes.

use vstd::prelude::*;
use crate::codes;
use crate::codes::instr::{END, IF};
use crate::cursor::{le_value, lemma_le_value_4, spec_byte, Halt};
use crate::error::{ErrorKind, Failure};
use crate::grammar::assembly::{magic, spec_module, spec_section, spec_sections, DraftView};
use crate::grammar::instructions::{spec_instr, spec_instrs, MAX_NESTING_DEPTH};
use crate::grammar::integers::{spec_u32, spec_uint};
use crate::grammar::sections::{spec_memory_section, spec_table_section};
use crate::grammar::types::spec_block_type;
use crate::laws::truncation::lemma_body_is_closed;
use crate::module::{InstrView, Mem, ModuleView, Table};
use crate::vector::{lemma_vector_length, spec_vector};

verus! {

/// The preamble alone is the empty module. An input that is the magic
/// followed by version 1 and nothing else decodes, and what it decodes to has
/// every component empty and no start function.
pub proof fn lemma_preamble_alone_is_empty(s: Seq<u8>)
    requires
        s.len() == 8,
        s.subrange(0, 4) == magic(),
        s.subrange(4, 8) == seq![1u8, 0u8, 0u8, 0u8],
    ensures
        spec_module(s) == Ok::<ModuleView, Failure>(ModuleView::empty()),
{
    let version = s.subrange(4, 8);
    lemma_le_value_4(version);
    assert(version[0] == 1 && version[1] == 0 && version[2] == 0 && version[3] == 0);
    assert(le_value(version) == 1);
}

/// Other bytes in place of the magic are an invalid magic at offset 0,
/// whatever follows them.
pub proof fn lemma_wrong_magic(s: Seq<u8>)
    requires
        s.len() >= 4,
        s.subrange(0, 4) != magic(),
    ensures
        spec_module(s) == Err::<ModuleView, Failure>(Failure::at(ErrorKind::InvalidMagic, 0)),
{
}

/// An input too short to hold the magic is a malformed stream at offset 0.
pub proof fn lemma_missing_magic(s: Seq<u8>)
    requires
        s.len() < 4,
    ensures
        spec_module(s) == Err::<ModuleView, Failure>(Failure::at(ErrorKind::MalformedStream, 0)),
{
}

/// A table section with two entries, or more, is refused. Where the entries
/// of a table section all decode and there is more than one of them, the
/// section fails with the multiple-tables failure, which points at the last
/// byte of the last entry.
pub proof fn lemma_second_table_is_refused(s: Seq<u8>, pos: nat)
    requires
        spec_vector::<Table>(s, pos) matches Ok((tables, _)) && tables.len() >= 2,
    ensures
        spec_vector::<Table>(s, pos) matches Ok((_, end)) && spec_table_section(s, pos) == Err::<
            (Seq<Table>, nat),
            Halt,
        >(Halt::rejected(ErrorKind::MultipleTables, end)),
        spec_u32(s, pos) matches Ok((count, _)) && count >= 2,
{
    lemma_vector_length::<Table>(s, pos);
}

/// A memory section with two entries, or more, is refused in the same way.
pub proof fn lemma_second_memory_is_refused(s: Seq<u8>, pos: nat)
    requires
        spec_vector::<Mem>(s, pos) matches Ok((memories, _)) && memories.len() >= 2,
    ensures
        spec_vector::<Mem>(s, pos) matches Ok((_, end)) && spec_memory_section(s, pos) == Err::<
            (Seq<Mem>, nat),
            Halt,
        >(Halt::rejected(ErrorKind::MultipleMemories, end)),
        spec_u32(s, pos) matches Ok((count, _)) && count >= 2,
{
    lemma_vector_length::<Mem>(s, pos);
}

/// Whether a table section with more than one entry stands at `pos`: the
/// code of the table section, a length, and a vector of two tables or more
/// that all decode.
pub open spec fn crowded_table_section(s: Seq<u8>, pos: nat) -> bool {
    &&& spec_byte(s, pos) matches Ok((code, at_length))
    &&& code == codes::section::TABLE
    &&& spec_uint(s, at_length, 32) matches Ok((_, payload))
    &&& spec_vector::<Table>(s, payload) matches Ok((tables, _))
    &&& tables.len() >= 2
}

/// Where the tables of the table section at `pos` end.
pub open spec fn end_of_tables(s: Seq<u8>, pos: nat) -> nat
    recommends
        crowded_table_section(s, pos),
{
    let payload = spec_uint(s, pos + 1, 32)->Ok_0.1;
    spec_vector::<Table>(s, payload)->Ok_0.1
}

/// Decoding does not get past a table section with two entries. Where such a
/// section stands at `pos`, reading the sections from `pos` on fails with the
/// multiple-tables failure, which points at the last byte of the last table,
/// whatever was gathered before and whatever follows.
pub proof fn lemma_sections_stop_at_second_table(s: Seq<u8>, pos: nat, so_far: DraftView)
    requires
        crowded_table_section(s, pos),
    ensures
        spec_sections(s, pos, so_far) == Err::<DraftView, Failure>(
            Failure::at(ErrorKind::MultipleTables, (end_of_tables(s, pos) - 1) as nat),
        ),
{
    reveal(spec_section);
    let payload = spec_uint(s, pos + 1, 32)->Ok_0.1;
    lemma_second_table_is_refused(s, payload);
}

/// Whether an `if` without an else arm stands at `pos`, behind its opcode: a
/// block type and a body that runs to an end marker, not to an else marker.
pub open spec fn if_closed_by_end(s: Seq<u8>, pos: nat, depth: nat) -> bool {
    &&& spec_block_type(s, pos) matches Ok((_, at_body))
    &&& spec_instrs(s, at_body, depth + 1, true) matches Ok(((_, at_else), _))
    &&& !at_else
}

/// An `if` whose first body is closed by an end marker has an empty second
/// body. Such an `if` is decoded with the body that stands there as its first
/// and nothing as its second, and it ends with that end marker.
pub proof fn lemma_if_without_else(s: Seq<u8>, pos: nat, depth: nat)
    requires
        depth < MAX_NESTING_DEPTH,
        if_closed_by_end(s, pos, depth),
    ensures
        ({
            &&& spec_block_type(s, pos) matches Ok((result, at_body))
            &&& spec_instrs(s, at_body, depth + 1, true) matches Ok(((body, _), end))
            &&& spec_instr(s, pos, IF, depth) == Ok::<(InstrView, nat), Halt>(
                (InstrView::If { result, then_body: body, else_body: Seq::empty() }, end),
            )
            &&& s[end - 1] == END
        }),
{
    let at_body = spec_block_type(s, pos)->Ok_0.1;
    lemma_body_is_closed(s, at_body, depth + 1, true);
}

} // verus!
