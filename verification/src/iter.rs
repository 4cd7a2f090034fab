//! The length disassembler iterator.

use vstd::prelude::*;
use vstd::slice::slice_subrange;

use crate::inst::{Inst, InstLen};
use crate::model::{decode_spec, decode_trace, lemma_decode_len_bound, total_spec};
use crate::{Isa, Va};

verus! {

/// Length disassembler iterator.
///
/// Holds the remaining bytes and the current virtual address. Each pull
/// decodes one instruction, slices it off, advances the address by its
/// length, and yields the instruction view; pulling stops at the first
/// position where decoding fails, even if bytes remain.
///
/// Instances are created by [`Isa::iter`](crate::Isa::iter).
#[derive(Copy)]
pub struct Iter<'a, X: Isa> {
    /// The remaining bytes to length-disassemble.
    pub bytes: &'a [u8],
    /// The current virtual address.
    pub va: X::Va,
}

impl<'a, X: Isa> Clone for Iter<'a, X> {
    fn clone(&self) -> (r: Self)
        ensures
            r == *self,
    {
        Iter { bytes: self.bytes, va: self.va }
    }
}

impl<'a, X: Isa> Iter<'a, X> {
    /// The current address plus the remaining length stays representable,
    /// so advancing within the buffer never overflows the address.
    pub open spec fn wf(self) -> bool {
        self.va.value() + self.bytes@.len() <= <X::Va as Va>::max_value()
    }

    /// Decodes the next instruction: yields its view and its address and
    /// advances past it, or yields nothing once decoding fails — even if
    /// bytes remain. Pulling repeatedly walks [`decode_trace`] exactly.
    pub fn next(&mut self) -> (r: Option<Inst<'a, X>>)
        requires
            old(self).wf(),
        ensures
            final(self).wf(),
            total_spec(old(self).bytes@, X::long_mode()) == 0 ==> r is None && *final(self)
                == *old(self),
            total_spec(old(self).bytes@, X::long_mode()) > 0 ==> ({
                let l = total_spec(old(self).bytes@, X::long_mode());
                &&& r matches Some(inst)
                &&& inst@ == old(self).bytes@.take(l)
                &&& inst.spec_va() == old(self).va
                &&& inst.spec_len() == decode_spec(old(self).bytes@, X::long_mode())
                &&& final(self).bytes@ == old(self).bytes@.skip(l)
                &&& final(self).va.value() == old(self).va.value() + l
                &&& decode_trace(old(self).bytes@, old(self).va.value(), X::long_mode())
                    == seq![(inst@, inst.spec_va().value())].add(
                    decode_trace(final(self).bytes@, final(self).va.value(), X::long_mode()),
                )
            }),
    {
        let il: InstLen = X::inst_len(self.bytes);
        proof {
            lemma_decode_len_bound(self.bytes@, X::long_mode());
        }
        if il.total_len > 0 {
            let l: usize = il.total_len as usize;
            let head: &'a [u8] = slice_subrange(self.bytes, 0, l);
            let inst: Inst<'a, X> = Inst::new(head, self.va, il);
            self.bytes = slice_subrange(self.bytes, l, self.bytes.len());
            self.va = self.va.add_len(l);
            Some(inst)
        } else {
            None
        }
    }

    /// Consumes a number of bytes from the input, clamped to the remaining
    /// length, advancing the address by as much. Lets a caller skip bytes
    /// it already knows about without running the decode engine.
    pub fn consume(&mut self, n: usize)
        requires
            old(self).wf(),
        ensures
            final(self).wf(),
            final(self).bytes@ == old(self).bytes@.skip(
                vstd::math::min(n as int, old(self).bytes@.len() as int),
            ),
            final(self).va.value() == old(self).va.value() + vstd::math::min(
                n as int,
                old(self).bytes@.len() as int,
            ),
    {
        let m: usize = if n <= self.bytes.len() {
            n
        } else {
            self.bytes.len()
        };
        self.bytes = slice_subrange(self.bytes, m, self.bytes.len());
        self.va = self.va.add_len(m);
    }
}

} // verus!
