//! The 32-bit decode entry point.

use vstd::prelude::*;

use crate::engine::decode_inst;
use crate::inst::InstLen;
use crate::model::total_spec;

verus! {

/// Returns the length of the instruction at the start of `opcode` in 32-bit
/// mode, or `0` when the input is truncated or not a valid instruction.
pub fn lde_int(opcode: &[u8]) -> (r: u32)
    ensures
        r == total_spec(opcode@, false),
{
    let il: InstLen = decode_inst(opcode, false);
    il.total_len as u32
}

} // verus!
