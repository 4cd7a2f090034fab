//! The mutable length disassembler iterator.

use vstd::prelude::*;
use vstd::slice::slice_subrange;

use crate::inst::InstLen;
use crate::ints::Int;
use crate::iter::Iter;
use crate::model::{decode_spec, lemma_decode_len_bound, total_spec};
use crate::{Isa, Va};

verus! {

/// Length disassembler over an owned, patchable byte buffer.
///
/// Owns its buffer and walks it instruction by instruction; typed writes
/// patch immediates and displacements in place, and the buffer can be
/// taken back out when done.
pub struct IterMut<X: Isa> {
    bytes: Vec<u8>,
    pos: usize,
    va: X::Va,
}

impl<X: Isa> IterMut<X> {
    /// The position lies within the buffer, and the current address plus
    /// the remaining length stays representable.
    pub open spec fn wf(self) -> bool {
        self.spec_pos() <= self@.len() && self.spec_va().value() + (self@.len()
            - self.spec_pos()) <= <X::Va as Va>::max_value()
    }

    /// The whole buffer.
    pub closed spec fn spec_bytes(self) -> Seq<u8> {
        self.bytes@
    }

    /// The position of the next instruction in the buffer.
    pub closed spec fn spec_pos(self) -> int {
        self.pos as int
    }

    /// The current virtual address.
    pub closed spec fn spec_va(self) -> X::Va {
        self.va
    }

    /// The bytes not yet walked.
    pub open spec fn remaining(self) -> Seq<u8> {
        self@.skip(self.spec_pos())
    }

    /// Starts a mutable walk of `bytes` from address `va`.
    pub fn new(bytes: Vec<u8>, va: X::Va) -> (r: IterMut<X>)
        requires
            va.value() + bytes@.len() <= <X::Va as Va>::max_value(),
        ensures
            r@ == bytes@,
            r.spec_pos() == 0,
            r.spec_va() == va,
            r.wf(),
    {
        proof {
            va.lemma_in_range();
        }
        IterMut { bytes, pos: 0, va }
    }

    /// Views the rest of the buffer through a borrowing iterator.
    pub fn as_iter<'s>(&'s self) -> (r: Iter<'s, X>)
        requires
            self.wf(),
        ensures
            r.bytes@ == self.remaining(),
            r.va == self.spec_va(),
            r.wf(),
    {
        let n: usize = self.bytes.len();
        Iter { bytes: slice_subrange(self.bytes.as_slice(), self.pos, n), va: self.va }
    }

    /// Decodes the next instruction of the buffer: yields its start
    /// offset, its length breakdown and its address, and advances past it;
    /// yields nothing once decoding fails.
    pub fn next(&mut self) -> (r: Option<(usize, InstLen, X::Va)>)
        requires
            old(self).wf(),
        ensures
            final(self).wf(),
            final(self)@ == old(self)@,
            total_spec(old(self).remaining(), X::long_mode()) == 0 ==> r is None
                && final(self).spec_pos() == old(self).spec_pos()
                && final(self).spec_va() == old(self).spec_va(),
            total_spec(old(self).remaining(), X::long_mode()) > 0 ==> ({
                let l = total_spec(old(self).remaining(), X::long_mode());
                &&& r matches Some(t)
                &&& t.0 == old(self).spec_pos()
                &&& t.1 == decode_spec(old(self).remaining(), X::long_mode())
                &&& t.2 == old(self).spec_va()
                &&& final(self).spec_pos() == old(self).spec_pos() + l
                &&& final(self).spec_va().value() == old(self).spec_va().value() + l
            }),
    {
        let n: usize = self.bytes.len();
        let rest: &[u8] = slice_subrange(self.bytes.as_slice(), self.pos, n);
        let il: InstLen = X::inst_len(rest);
        proof {
            lemma_decode_len_bound(rest@, X::long_mode());
        }
        if il.total_len > 0 {
            let l: usize = il.total_len as usize;
            let start: usize = self.pos;
            let va0: X::Va = self.va;
            self.pos = self.pos + l;
            self.va = self.va.add_len(l);
            Some((start, il, va0))
        } else {
            None
        }
    }

    /// Consumes a number of bytes, clamped to the remaining length,
    /// advancing the address by as much.
    pub fn consume(&mut self, n: usize)
        requires
            old(self).wf(),
        ensures
            final(self).wf(),
            final(self)@ == old(self)@,
            final(self).spec_pos() == old(self).spec_pos() + vstd::math::min(
                n as int,
                old(self).remaining().len() as int,
            ),
            final(self).spec_va().value() == old(self).spec_va().value() + vstd::math::min(
                n as int,
                old(self).remaining().len() as int,
            ),
    {
        let left: usize = self.bytes.len() - self.pos;
        let m: usize = if n <= left {
            n
        } else {
            left
        };
        self.pos = self.pos + m;
        self.va = self.va.add_len(m);
    }

    /// Reads the value of type `T` encoded little-endian at buffer offset
    /// `offset`.
    pub fn read<T: Int>(&self, offset: usize) -> (r: T)
        requires
            offset + T::width() <= self@.len(),
        ensures
            r == T::from_le_spec(self@.subrange(offset as int, offset + T::width())),
    {
        T::read_le(self.bytes.as_slice(), offset)
    }

    /// Patches the buffer: encodes `val` little-endian at buffer offset
    /// `offset`, leaving the other bytes unchanged.
    pub fn write<T: Int>(&mut self, offset: usize, val: T)
        requires
            old(self).wf(),
            offset + T::width() <= old(self)@.len(),
        ensures
            final(self).wf(),
            final(self).spec_pos() == old(self).spec_pos(),
            final(self).spec_va() == old(self).spec_va(),
            final(self)@ == old(self)@.subrange(0, offset as int).add(val.to_le_spec()).add(
                old(self)@.subrange(offset + T::width(), old(self)@.len() as int),
            ),
    {
        proof {
            val.lemma_le_round_trip();
        }
        val.write_le(&mut self.bytes, offset)
    }

    /// Takes the buffer back out.
    pub fn into_bytes(self) -> (r: Vec<u8>)
        ensures
            r@ == self@,
    {
        self.bytes
    }
}

impl<X: Isa> View for IterMut<X> {
    type V = Seq<u8>;

    closed spec fn view(&self) -> Seq<u8> {
        self.bytes@
    }
}

} // verus!
