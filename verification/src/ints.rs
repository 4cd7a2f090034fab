//! Typed little-endian reads and writes of immediates and displacements.

use vstd::prelude::*;
use vstd::bytes::{
    lemma_auto_spec_u16_to_from_le_bytes, lemma_auto_spec_u32_to_from_le_bytes,
    lemma_auto_spec_u64_to_from_le_bytes, spec_u16_from_le_bytes, spec_u16_to_le_bytes,
    spec_u32_from_le_bytes, spec_u32_to_le_bytes, spec_u64_from_le_bytes, spec_u64_to_le_bytes,
    u16_from_le_bytes, u16_to_le_bytes, u32_from_le_bytes, u32_to_le_bytes, u64_from_le_bytes,
    u64_to_le_bytes,
};
use vstd::slice::{slice_index_get, slice_subrange};

verus! {

/// A fixed-width integer that can be read from and written to a byte buffer
/// in its little-endian encoding. Used for reading and patching immediates
/// and displacements.
pub trait Int: Copy + Sized {
    /// The width of the encoding in bytes.
    spec fn width() -> nat;

    /// The value a little-endian byte sequence of that width encodes.
    spec fn from_le_spec(s: Seq<u8>) -> Self;

    /// The little-endian encoding of this value.
    spec fn to_le_spec(self) -> Seq<u8>;

    /// The encoding has the declared width and decodes back to the value.
    proof fn lemma_le_round_trip(self)
        ensures
            self.to_le_spec().len() == Self::width(),
            Self::from_le_spec(self.to_le_spec()) == self,
    ;

    /// Every byte sequence of the declared width is the encoding of the
    /// value it decodes to.
    proof fn lemma_le_bytes_round_trip(s: Seq<u8>)
        requires
            s.len() == Self::width(),
        ensures
            Self::from_le_spec(s).to_le_spec() == s,
    ;

    /// The width of the encoding, as a run-time value.
    fn width_ex() -> (r: usize)
        ensures
            r == Self::width(),
    ;

    /// Reads a value of this type from `bytes` at `offset`.
    fn read_le(bytes: &[u8], offset: usize) -> (r: Self)
        requires
            offset + Self::width() <= bytes@.len(),
        ensures
            r == Self::from_le_spec(bytes@.subrange(offset as int, offset + Self::width())),
    ;

    /// Writes this value into `buf` at `offset`, leaving the rest unchanged.
    fn write_le(self, buf: &mut Vec<u8>, offset: usize)
        requires
            offset + Self::width() <= old(buf)@.len(),
        ensures
            final(buf)@ == old(buf)@.subrange(0, offset as int).add(self.to_le_spec()).add(
                old(buf)@.subrange(offset + Self::width(), old(buf)@.len() as int),
            ),
    ;
}

/// Copies `src` into `buf` at `offset`, leaving the rest unchanged.
fn splice_bytes(buf: &mut Vec<u8>, offset: usize, src: &Vec<u8>)
    requires
        offset + src@.len() <= old(buf)@.len(),
    ensures
        final(buf)@ == old(buf)@.subrange(0, offset as int).add(src@).add(
            old(buf)@.subrange(offset + src@.len(), old(buf)@.len() as int),
        ),
{
    let n: usize = buf.len();
    let w: usize = src.len();
    let mut j: usize = 0;
    while j < w
        invariant
            w == src@.len(),
            j <= w,
            n == buf@.len(),
            offset + w <= buf@.len(),
            buf@.len() == old(buf)@.len(),
            forall|i: int| 0 <= i < offset ==> buf@[i] == old(buf)@[i],
            forall|i: int| offset <= i < offset + j ==> buf@[i] == src@[i - offset],
            forall|i: int| offset + j <= i < buf@.len() ==> buf@[i] == old(buf)@[i],
        decreases w - j,
    {
        let v: u8 = src[j];
        buf.set(offset + j, v);
        j = j + 1;
    }
    proof {
        assert(buf@ =~= old(buf)@.subrange(0, offset as int).add(src@).add(
            old(buf)@.subrange(offset + src@.len(), old(buf)@.len() as int),
        ));
    }
}

impl Int for u8 {
    open spec fn width() -> nat {
        1
    }

    open spec fn from_le_spec(s: Seq<u8>) -> u8 {
        s[0]
    }

    open spec fn to_le_spec(self) -> Seq<u8> {
        seq![self]
    }

    proof fn lemma_le_round_trip(self) {
    }

    proof fn lemma_le_bytes_round_trip(s: Seq<u8>) {
        assert(s =~= seq![s[0]]);
    }

    fn width_ex() -> (r: usize) {
        1
    }

    fn read_le(bytes: &[u8], offset: usize) -> (r: Self) {
        let r: u8 = *slice_index_get(bytes, offset);
        proof {
            assert(bytes@.subrange(offset as int, offset + 1)[0] == bytes@[offset as int]);
        }
        r
    }

    fn write_le(self, buf: &mut Vec<u8>, offset: usize) {
        buf.set(offset, self);
        proof {
            assert(buf@ =~= old(buf)@.subrange(0, offset as int).add(seq![self]).add(
                old(buf)@.subrange(offset + 1, old(buf)@.len() as int),
            ));
        }
    }
}

impl Int for u16 {
    open spec fn width() -> nat {
        2
    }

    open spec fn from_le_spec(s: Seq<u8>) -> u16 {
        spec_u16_from_le_bytes(s)
    }

    open spec fn to_le_spec(self) -> Seq<u8> {
        spec_u16_to_le_bytes(self)
    }

    proof fn lemma_le_round_trip(self) {
        lemma_auto_spec_u16_to_from_le_bytes();
        assert(spec_u16_to_le_bytes(self).len() == 2);
    }

    proof fn lemma_le_bytes_round_trip(s: Seq<u8>) {
        lemma_auto_spec_u16_to_from_le_bytes();
    }

    fn width_ex() -> (r: usize) {
        2
    }

    fn read_le(bytes: &[u8], offset: usize) -> (r: Self) {
        let _n: usize = bytes.len();
        u16_from_le_bytes(slice_subrange(bytes, offset, offset + 2))
    }

    fn write_le(self, buf: &mut Vec<u8>, offset: usize) {
        let le: Vec<u8> = u16_to_le_bytes(self);
        splice_bytes(buf, offset, &le);
    }
}

impl Int for u32 {
    open spec fn width() -> nat {
        4
    }

    open spec fn from_le_spec(s: Seq<u8>) -> u32 {
        spec_u32_from_le_bytes(s)
    }

    open spec fn to_le_spec(self) -> Seq<u8> {
        spec_u32_to_le_bytes(self)
    }

    proof fn lemma_le_round_trip(self) {
        lemma_auto_spec_u32_to_from_le_bytes();
        assert(spec_u32_to_le_bytes(self).len() == 4);
    }

    proof fn lemma_le_bytes_round_trip(s: Seq<u8>) {
        lemma_auto_spec_u32_to_from_le_bytes();
    }

    fn width_ex() -> (r: usize) {
        4
    }

    fn read_le(bytes: &[u8], offset: usize) -> (r: Self) {
        let _n: usize = bytes.len();
        u32_from_le_bytes(slice_subrange(bytes, offset, offset + 4))
    }

    fn write_le(self, buf: &mut Vec<u8>, offset: usize) {
        let le: Vec<u8> = u32_to_le_bytes(self);
        splice_bytes(buf, offset, &le);
    }
}

impl Int for u64 {
    open spec fn width() -> nat {
        8
    }

    open spec fn from_le_spec(s: Seq<u8>) -> u64 {
        spec_u64_from_le_bytes(s)
    }

    open spec fn to_le_spec(self) -> Seq<u8> {
        spec_u64_to_le_bytes(self)
    }

    proof fn lemma_le_round_trip(self) {
        lemma_auto_spec_u64_to_from_le_bytes();
        assert(spec_u64_to_le_bytes(self).len() == 8);
    }

    proof fn lemma_le_bytes_round_trip(s: Seq<u8>) {
        lemma_auto_spec_u64_to_from_le_bytes();
    }

    fn width_ex() -> (r: usize) {
        8
    }

    fn read_le(bytes: &[u8], offset: usize) -> (r: Self) {
        let _n: usize = bytes.len();
        u64_from_le_bytes(slice_subrange(bytes, offset, offset + 8))
    }

    fn write_le(self, buf: &mut Vec<u8>, offset: usize) {
        let le: Vec<u8> = u64_to_le_bytes(self);
        splice_bytes(buf, offset, &le);
    }
}

impl Int for i8 {
    open spec fn width() -> nat {
        1
    }

    open spec fn from_le_spec(s: Seq<u8>) -> i8 {
        if s[0] < 0x80 {
            s[0] as i8
        } else {
            (s[0] - 0x100) as i8
        }
    }

    open spec fn to_le_spec(self) -> Seq<u8> {
        seq![
            (if self >= 0 {
                self as int
            } else {
                self + 0x100
            }) as u8,
        ]
    }

    proof fn lemma_le_round_trip(self) {
    }

    proof fn lemma_le_bytes_round_trip(s: Seq<u8>) {
        assert(s =~= seq![s[0]]);
    }

    fn width_ex() -> (r: usize) {
        1
    }

    fn read_le(bytes: &[u8], offset: usize) -> (r: Self) {
        let b: u8 = *slice_index_get(bytes, offset);
        proof {
            assert(bytes@.subrange(offset as int, offset + 1)[0] == bytes@[offset as int]);
        }
        let v: i16 = b as i16;
        if v < 0x80 {
            v as i8
        } else {
            (v - 0x100) as i8
        }
    }

    fn write_le(self, buf: &mut Vec<u8>, offset: usize) {
        let u: u8 = if self >= 0 {
            self as u8
        } else {
            ((self as i16) + 0x100) as u8
        };
        buf.set(offset, u);
        proof {
            assert(buf@ =~= old(buf)@.subrange(0, offset as int).add(self.to_le_spec()).add(
                old(buf)@.subrange(offset + 1, old(buf)@.len() as int),
            ));
        }
    }
}

impl Int for i16 {
    open spec fn width() -> nat {
        2
    }

    open spec fn from_le_spec(s: Seq<u8>) -> i16 {
        let u = spec_u16_from_le_bytes(s);
        if u < 0x8000 {
            u as i16
        } else {
            (u - 0x10000) as i16
        }
    }

    open spec fn to_le_spec(self) -> Seq<u8> {
        spec_u16_to_le_bytes(
            (if self >= 0 {
                self as int
            } else {
                self + 0x10000
            }) as u16,
        )
    }

    proof fn lemma_le_round_trip(self) {
        let u = (if self >= 0 {
            self as int
        } else {
            self + 0x10000
        }) as u16;
        lemma_auto_spec_u16_to_from_le_bytes();
        assert(spec_u16_to_le_bytes(u).len() == 2);
    }

    proof fn lemma_le_bytes_round_trip(s: Seq<u8>) {
        let u = spec_u16_from_le_bytes(s);
        lemma_auto_spec_u16_to_from_le_bytes();
        assert(spec_u16_to_le_bytes(u).len() == 2);
    }

    fn width_ex() -> (r: usize) {
        2
    }

    fn read_le(bytes: &[u8], offset: usize) -> (r: Self) {
        let _n: usize = bytes.len();
        let u: u16 = u16_from_le_bytes(slice_subrange(bytes, offset, offset + 2));
        let w: i32 = u as i32;
        if w < 0x8000 {
            w as i16
        } else {
            (w - 0x10000) as i16
        }
    }

    fn write_le(self, buf: &mut Vec<u8>, offset: usize) {
        let u: u16 = if self >= 0 {
            self as u16
        } else {
            ((self as i32) + 0x10000) as u16
        };
        let le: Vec<u8> = u16_to_le_bytes(u);
        splice_bytes(buf, offset, &le);
    }
}

impl Int for i32 {
    open spec fn width() -> nat {
        4
    }

    open spec fn from_le_spec(s: Seq<u8>) -> i32 {
        let u = spec_u32_from_le_bytes(s);
        if u < 0x8000_0000 {
            u as i32
        } else {
            (u - 0x1_0000_0000) as i32
        }
    }

    open spec fn to_le_spec(self) -> Seq<u8> {
        spec_u32_to_le_bytes(
            (if self >= 0 {
                self as int
            } else {
                self + 0x1_0000_0000
            }) as u32,
        )
    }

    proof fn lemma_le_round_trip(self) {
        let u = (if self >= 0 {
            self as int
        } else {
            self + 0x1_0000_0000
        }) as u32;
        lemma_auto_spec_u32_to_from_le_bytes();
        assert(spec_u32_to_le_bytes(u).len() == 4);
    }

    proof fn lemma_le_bytes_round_trip(s: Seq<u8>) {
        let u = spec_u32_from_le_bytes(s);
        lemma_auto_spec_u32_to_from_le_bytes();
        assert(spec_u32_to_le_bytes(u).len() == 4);
    }

    fn width_ex() -> (r: usize) {
        4
    }

    fn read_le(bytes: &[u8], offset: usize) -> (r: Self) {
        let _n: usize = bytes.len();
        let u: u32 = u32_from_le_bytes(slice_subrange(bytes, offset, offset + 4));
        let w: i64 = u as i64;
        if w < 0x8000_0000 {
            w as i32
        } else {
            (w - 0x1_0000_0000) as i32
        }
    }

    fn write_le(self, buf: &mut Vec<u8>, offset: usize) {
        let u: u32 = if self >= 0 {
            self as u32
        } else {
            ((self as i64) + 0x1_0000_0000) as u32
        };
        let le: Vec<u8> = u32_to_le_bytes(u);
        splice_bytes(buf, offset, &le);
    }
}

impl Int for i64 {
    open spec fn width() -> nat {
        8
    }

    open spec fn from_le_spec(s: Seq<u8>) -> i64 {
        let u = spec_u64_from_le_bytes(s);
        if u < 0x8000_0000_0000_0000 {
            u as i64
        } else {
            (u - 0x1_0000_0000_0000_0000) as i64
        }
    }

    open spec fn to_le_spec(self) -> Seq<u8> {
        spec_u64_to_le_bytes(
            (if self >= 0 {
                self as int
            } else {
                self + 0x1_0000_0000_0000_0000
            }) as u64,
        )
    }

    proof fn lemma_le_round_trip(self) {
        let u = (if self >= 0 {
            self as int
        } else {
            self + 0x1_0000_0000_0000_0000
        }) as u64;
        lemma_auto_spec_u64_to_from_le_bytes();
        assert(spec_u64_to_le_bytes(u).len() == 8);
    }

    proof fn lemma_le_bytes_round_trip(s: Seq<u8>) {
        let u = spec_u64_from_le_bytes(s);
        lemma_auto_spec_u64_to_from_le_bytes();
        assert(spec_u64_to_le_bytes(u).len() == 8);
    }

    fn width_ex() -> (r: usize) {
        8
    }

    fn read_le(bytes: &[u8], offset: usize) -> (r: Self) {
        let _n: usize = bytes.len();
        let u: u64 = u64_from_le_bytes(slice_subrange(bytes, offset, offset + 8));
        if u < 0x8000_0000_0000_0000 {
            u as i64
        } else {
            (((u as i128) - 0x1_0000_0000_0000_0000i128) as i64)
        }
    }

    fn write_le(self, buf: &mut Vec<u8>, offset: usize) {
        let u: u64 = if self >= 0 {
            self as u64
        } else {
            (((self as i128) + 0x1_0000_0000_0000_0000i128) as u64)
        };
        let le: Vec<u8> = u64_to_le_bytes(u);
        splice_bytes(buf, offset, &le);
    }
}

} // verus!
