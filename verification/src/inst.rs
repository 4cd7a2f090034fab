//! The instruction length breakdown and the instruction view.

use vstd::prelude::*;
use vstd::slice::slice_subrange;

use crate::Isa;

verus! {

/// Instruction length in bytes, split into its parts.
///
/// A `total_len` of `0` is the failure sentinel: the input was either
/// truncated mid-instruction or not recognized as a valid instruction; the
/// two causes are deliberately not distinguished. On success the parts
/// satisfy `prefix_len + op_len + arg_len == total_len`.
#[derive(Copy, Clone, Debug, Eq, PartialEq, Hash, Structural)]
pub struct InstLen {
    /// Total length of the instruction.
    pub total_len: u8,
    /// Length of the operation code.
    pub op_len: u8,
    /// Number of argument bytes (addressing bytes, displacement, immediate).
    pub arg_len: u8,
    /// Number of prefix bytes.
    pub prefix_len: u8,
}

impl InstLen {
    /// The failure sentinel: all counts zero.
    pub open spec fn empty_spec() -> InstLen {
        InstLen { total_len: 0, op_len: 0, arg_len: 0, prefix_len: 0 }
    }

    /// Returns the failure sentinel.
    pub fn empty() -> (r: InstLen)
        ensures
            r == InstLen::empty_spec(),
    {
        InstLen { total_len: 0, op_len: 0, arg_len: 0, prefix_len: 0 }
    }

    /// The parts sum up to the total.
    pub open spec fn wf(self) -> bool {
        self.prefix_len + self.op_len + self.arg_len == self.total_len
    }
}

/// One decoded instruction: a borrowed view of exactly the bytes the decode
/// engine consumed, together with the instruction's virtual address and its
/// length breakdown.
#[derive(Copy)]
pub struct Inst<'a, X: Isa> {
    bytes: &'a [u8],
    va: X::Va,
    len: InstLen,
}

impl<'a, X: Isa> Inst<'a, X> {
    /// The view holds exactly the decoded bytes, so the breakdown parts
    /// address into it.
    #[verifier::type_invariant]
    pub closed spec fn inv(self) -> bool {
        self.len.total_len == self.bytes@.len() && self.len.wf()
    }

    /// The instruction's virtual address.
    pub closed spec fn spec_va(self) -> X::Va {
        self.va
    }

    /// The instruction's length breakdown.
    pub closed spec fn spec_len(self) -> InstLen {
        self.len
    }

    pub(crate) fn new(bytes: &'a [u8], va: X::Va, len: InstLen) -> (r: Inst<'a, X>)
        requires
            len.total_len == bytes@.len(),
            len.wf(),
        ensures
            r@ == bytes@,
            r.spec_va() == va,
            r.spec_len() == len,
    {
        Inst { bytes, va, len }
    }

    /// Gets the instruction bytes.
    pub fn bytes(&self) -> (r: &'a [u8])
        ensures
            r@ == self@,
    {
        self.bytes
    }

    /// Gets the length breakdown of the instruction.
    pub fn inst_len(&self) -> (r: InstLen)
        ensures
            r == self.spec_len(),
            r.wf(),
            r.total_len == self@.len(),
    {
        proof {
            use_type_invariant(self);
        }
        self.len
    }

    /// Gets the prefix bytes of the instruction (if any).
    pub fn prefix_bytes(&self) -> (r: &'a [u8])
        ensures
            r@ == self@.take(self.spec_len().prefix_len as int),
    {
        proof {
            use_type_invariant(self);
        }
        let end: usize = self.len.prefix_len as usize;
        slice_subrange(self.bytes, 0, end)
    }

    /// Gets the opcode bytes of the instruction.
    pub fn op_bytes(&self) -> (r: &'a [u8])
        ensures
            r@ == self@.subrange(
                self.spec_len().prefix_len as int,
                self.spec_len().prefix_len as int + self.spec_len().op_len as int,
            ),
    {
        proof {
            use_type_invariant(self);
        }
        let start: usize = self.len.prefix_len as usize;
        let end: usize = start + self.len.op_len as usize;
        slice_subrange(self.bytes, start, end)
    }

    /// Gets the argument bytes of the instruction: the addressing bytes,
    /// the displacement and the immediate.
    pub fn arg_bytes(&self) -> (r: &'a [u8])
        ensures
            r@ == self@.skip(self@.len() - self.spec_len().arg_len as int),
    {
        proof {
            use_type_invariant(self);
        }
        let end: usize = self.len.total_len as usize;
        let start: usize = end - self.len.arg_len as usize;
        slice_subrange(self.bytes, start, end)
    }

    /// Gets the virtual address of the instruction.
    pub fn va(&self) -> (r: X::Va)
        ensures
            r == self.spec_va(),
    {
        self.va
    }
}

impl<'a, X: Isa> Clone for Inst<'a, X> {
    fn clone(&self) -> (r: Self)
        ensures
            r == *self,
    {
        proof {
            use_type_invariant(self);
        }
        Inst { bytes: self.bytes, va: self.va, len: self.len }
    }
}

impl<'a, X: Isa> View for Inst<'a, X> {
    type V = Seq<u8>;

    closed spec fn view(&self) -> Seq<u8> {
        self.bytes@
    }
}

} // verus!
