//! A plainer helper to construct opcodes from bytes.

use vstd::prelude::*;
use vstd::slice::slice_subrange;

use crate::ints::Int;

verus! {

/// Helper to construct opcodes from bytes.
///
/// Holds a buffer of the maximum instruction length (15 bytes); writes land
/// anywhere in that buffer, while only the declared length is handed out.
pub struct OpCodeBuilder {
    len: u8,
    buf: Vec<u8>,
}

impl OpCodeBuilder {
    /// The backing buffer spans the full 15 bytes.
    pub closed spec fn wf(self) -> bool {
        self.buf@.len() == 15
    }

    /// The declared opcode length.
    pub closed spec fn spec_len(self) -> u8 {
        self.len
    }

    /// Creates a new opcode of the given length, at most 15.
    pub fn new(len: u8) -> (r: OpCodeBuilder)
        ensures
            r.wf(),
            r.spec_len() == len,
            r@.len() == 15,
            forall|i: int| 0 <= i < 15 ==> r@[i] == 0u8,
    {
        let mut v: Vec<u8> = Vec::new();
        let mut j: usize = 0;
        while j < 15
            invariant
                j <= 15,
                v@.len() == j,
                forall|i: int| 0 <= i < j ==> v@[i] == 0u8,
            decreases 15 - j,
        {
            v.push(0);
            j = j + 1;
        }
        OpCodeBuilder { len, buf: v }
    }

    /// Writes a value to the opcode buffer at the given offset and hands
    /// the builder back.
    pub fn write<T: Int>(self, offset: usize, val: T) -> (r: OpCodeBuilder)
        requires
            self.wf(),
            offset + T::width() <= 15,
        ensures
            r.wf(),
            r.spec_len() == self.spec_len(),
            r@ == self@.subrange(0, offset as int).add(val.to_le_spec()).add(
                self@.subrange(offset + T::width(), 15),
            ),
    {
        proof {
            val.lemma_le_round_trip();
        }
        let mut b = self;
        val.write_le(&mut b.buf, offset);
        b
    }

    /// The bytes of the opcode: the first `len` bytes of the buffer.
    pub fn bytes(&self) -> (r: &[u8])
        requires
            self.wf(),
            self.spec_len() <= 15,
        ensures
            r@ == self@.take(self.spec_len() as int),
    {
        slice_subrange(self.buf.as_slice(), 0, self.len as usize)
    }
}

impl View for OpCodeBuilder {
    type V = Seq<u8>;

    closed spec fn view(&self) -> Seq<u8> {
        self.buf@
    }
}

} // verus!
