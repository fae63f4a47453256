//! The opcode table is one-to-one: an opcode and its immediates leave no
//! choice of instruction.

use vstd::prelude::*;
use crate::module::{instr_view, Instr};

verus! {

/// Two instructions without nested bodies and without a vector of labels that
/// have the same content are the same instruction.
pub proof fn lemma_content_names_the_instruction(a: Instr, b: Instr)
    requires
        instr_view(a) == instr_view(b),
        !(instr_view(a) is Block) && !(instr_view(a) is Loop) && !(instr_view(a) is If) && !(
        instr_view(a) is BrTable),
    ensures
        a == b,
{
}

} // verus!
