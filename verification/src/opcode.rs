//! The opcode byte string with typed accessors.

use vstd::prelude::*;

use crate::ints::Int;

verus! {

/// A byte string holding an opcode, with bounds-checked typed reads and
/// writes of immediates and displacements at caller-given offsets.
/// Equality and hashing go over the raw bytes.
#[derive(Eq, Hash)]
pub struct OpCode {
    bytes: Vec<u8>,
}

impl PartialEq for OpCode {
    fn eq(&self, other: &OpCode) -> (r: bool) {
        let n: usize = self.bytes.len();
        if n != other.bytes.len() {
            return false;
        }
        let mut i: usize = 0;
        while i < n
            invariant
                n == self@.len(),
                n == other@.len(),
                i <= n,
                forall|k: int| 0 <= k < i ==> self@[k] == other@[k],
            decreases n - i,
        {
            if self.bytes[i] != other.bytes[i] {
                return false;
            }
            i = i + 1;
        }
        proof {
            assert(self@ =~= other@);
        }
        true
    }
}

impl vstd::std_specs::cmp::PartialEqSpecImpl for OpCode {
    open spec fn obeys_eq_spec() -> bool {
        true
    }

    open spec fn eq_spec(&self, other: &OpCode) -> bool {
        self@ == other@
    }
}

impl OpCode {
    /// Wraps a byte buffer as an opcode.
    pub fn new(bytes: Vec<u8>) -> (r: OpCode)
        ensures
            r@ == bytes@,
    {
        OpCode { bytes }
    }

    /// Copies a byte slice into a new opcode.
    pub fn from_bytes(bytes: &[u8]) -> (r: OpCode)
        ensures
            r@ == bytes@,
    {
        OpCode { bytes: vstd::slice::slice_to_vec(bytes) }
    }

    /// The number of bytes.
    pub fn len(&self) -> (r: usize)
        ensures
            r == self@.len(),
    {
        self.bytes.len()
    }

    /// The opcode bytes.
    pub fn as_bytes(&self) -> (r: &[u8])
        ensures
            r@ == self@,
    {
        self.bytes.as_slice()
    }

    /// Takes the byte buffer back out.
    pub fn into_bytes(self) -> (r: Vec<u8>)
        ensures
            r@ == self@,
    {
        self.bytes
    }

    /// Helps reading immediates and displacements: the value of type `T`
    /// encoded little-endian at `offset`.
    pub fn read<T: Int>(&self, offset: usize) -> (r: T)
        requires
            offset + T::width() <= self@.len(),
        ensures
            r == T::from_le_spec(self@.subrange(offset as int, offset + T::width())),
    {
        T::read_le(self.bytes.as_slice(), offset)
    }

    /// Helps writing immediates and displacements: encodes `val`
    /// little-endian at `offset`, leaving the other bytes unchanged.
    pub fn write<T: Int>(&mut self, offset: usize, val: T)
        requires
            offset + T::width() <= old(self)@.len(),
        ensures
            final(self)@ == old(self)@.subrange(0, offset as int).add(val.to_le_spec()).add(
                old(self)@.subrange(offset + T::width(), old(self)@.len() as int),
            ),
    {
        val.write_le(&mut self.bytes, offset)
    }
}

impl View for OpCode {
    type V = Seq<u8>;

    closed spec fn view(&self) -> Seq<u8> {
        self.bytes@
    }
}

} // verus!
