//! The opcode builder.

use vstd::prelude::*;
use vstd::slice::{slice_subrange, slice_to_vec};

use crate::ints::Int;
use crate::opcode::OpCode;

verus! {

/// Opcode builder.
///
/// Conveniently write new opcodes by their byte representation: start from
/// zeroes or from a template, then write typed values at offsets. The
/// length is clamped to 15 bytes, the longest possible instruction.
pub struct OcBuilder {
    code: OpCode,
}

impl OcBuilder {
    /// Creates a new opcode of the given length, clamped to 15.
    ///
    /// The opcode is initialized to all zeroes.
    pub fn new(len: usize) -> (r: OcBuilder)
        ensures
            r@.len() == vstd::math::min(len as int, 15),
            forall|i: int| 0 <= i < r@.len() ==> r@[i] == 0u8,
    {
        let m: usize = if len <= 15 {
            len
        } else {
            15
        };
        let mut v: Vec<u8> = Vec::new();
        let mut j: usize = 0;
        while j < m
            invariant
                j <= m,
                v@.len() == j,
                forall|i: int| 0 <= i < j ==> v@[i] == 0u8,
            decreases m - j,
        {
            v.push(0);
            j = j + 1;
        }
        OcBuilder { code: OpCode::new(v) }
    }

    /// Converts a template byte slice to an opcode builder.
    ///
    /// The input length is clamped to 15 bytes.
    pub fn from_bytes(bytes: &[u8]) -> (r: OcBuilder)
        ensures
            r@ == bytes@.take(vstd::math::min(bytes@.len() as int, 15)),
    {
        let n: usize = bytes.len();
        let m: usize = if n <= 15 {
            n
        } else {
            15
        };
        let head: &[u8] = slice_subrange(bytes, 0, m);
        OcBuilder { code: OpCode::new(slice_to_vec(head)) }
    }

    /// Helps writing immediate and displacement values: encodes `val`
    /// little-endian at `offset` and hands the builder back.
    pub fn write<T: Int>(self, offset: usize, val: T) -> (r: OcBuilder)
        requires
            offset + T::width() <= self@.len(),
        ensures
            r@ == self@.subrange(0, offset as int).add(val.to_le_spec()).add(
                self@.subrange(offset + T::width(), self@.len() as int),
            ),
    {
        let mut b = self;
        b.code.write(offset, val);
        b
    }

    /// The built opcode bytes.
    pub fn bytes(&self) -> (r: &[u8])
        ensures
            r@ == self@,
    {
        self.code.as_bytes()
    }

    /// The built opcode.
    pub fn opcode(&self) -> (r: &OpCode)
        ensures
            r@ == self@,
    {
        &self.code
    }

    /// Takes the built opcode out of the builder.
    pub fn into_opcode(self) -> (r: OpCode)
        ensures
            r@ == self@,
    {
        self.code
    }
}

impl View for OcBuilder {
    type V = Seq<u8>;

    closed spec fn view(&self) -> Seq<u8> {
        self.code@
    }
}

} // verus!
