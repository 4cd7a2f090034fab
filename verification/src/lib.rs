//! Length disassembler for the x86 and x86_64 instruction sets.
//!
//! Computes the exact byte length of the machine instruction at the start of
//! a byte slice, without decoding its mnemonic or operands. The result is
//! either a positive length (with a breakdown into prefix, opcode and
//! argument bytes) or the sentinel `0`, which covers both truncated input and
//! byte patterns that are not recognized as a valid instruction.
//!
//! The decoding rules themselves are stated once, as specification functions
//! over byte sequences (see [`model`]), and the executable engine is proved
//! to return exactly what those rules say.

use vstd::prelude::*;

pub mod builder;
pub mod engine;
pub mod ext;
pub mod inst;
pub mod ints;
pub mod iter;
pub mod iter_mut;
pub mod model;
pub mod opcode;
pub mod tables;
pub mod x64;
pub mod x86;

pub use builder::OcBuilder;
pub use ext::OpCodeBuilder;
pub use inst::Inst;
pub use inst::InstLen;
pub use ints::Int;
pub use iter::Iter;
pub use iter_mut::IterMut;
pub use opcode::OpCode;
pub use x64::is_prefix;
pub use x64::LenClass;
pub use x64::RawPrefix;
pub use x86::lde_int;

use crate::model::{decode_spec, total_spec};

verus! {

/// Helps reading immediate and displacement values: the value of type `T`
/// encoded little-endian at `offset` of `bytes`.
pub fn read<T: Int>(bytes: &[u8], offset: usize) -> (r: T)
    requires
        offset + T::width() <= bytes@.len(),
    ensures
        r == T::from_le_spec(bytes@.subrange(offset as int, offset + T::width())),
{
    T::read_le(bytes, offset)
}

/// Helps writing immediate and displacement values: encodes `val`
/// little-endian at `offset` of `bytes`, leaving the rest unchanged.
pub fn write<T: Int>(bytes: &mut Vec<u8>, offset: usize, val: T)
    requires
        offset + T::width() <= old(bytes)@.len(),
    ensures
        final(bytes)@ == old(bytes)@.subrange(0, offset as int).add(val.to_le_spec()).add(
            old(bytes)@.subrange(offset + T::width(), old(bytes)@.len() as int),
        ),
{
    val.write_le(bytes, offset)
}

/// Virtual address type: an address-sized unsigned integer, advanced by the
/// number of bytes each decoded instruction consumes.
pub trait Va: Copy + Sized {
    /// The address as a mathematical integer.
    spec fn value(self) -> int;

    /// The largest representable address.
    spec fn max_value() -> int;

    /// Addresses are in range.
    proof fn lemma_in_range(self)
        ensures
            0 <= self.value() <= Self::max_value(),
    ;

    /// Advances the address by a byte count.
    fn add_len(self, n: usize) -> (r: Self)
        requires
            self.value() + n <= Self::max_value(),
        ensures
            r.value() == self.value() + n,
    ;
}

impl Va for u32 {
    open spec fn value(self) -> int {
        self as int
    }

    open spec fn max_value() -> int {
        u32::MAX as int
    }

    proof fn lemma_in_range(self) {
    }

    fn add_len(self, n: usize) -> (r: Self) {
        self + (n as u32)
    }
}

impl Va for u64 {
    open spec fn value(self) -> int {
        self as int
    }

    open spec fn max_value() -> int {
        u64::MAX as int
    }

    proof fn lemma_in_range(self) {
    }

    fn add_len(self, n: usize) -> (r: Self) {
        self + (n as u64)
    }
}

/// Instruction set architecture.
///
/// Defines the entry points of the length disassembler: the decode-length
/// operations and the factory for the instruction iterator.
pub trait Isa: Sized {
    /// Virtual address type.
    type Va: Va;

    /// Whether this architecture decodes in 64-bit (long) mode.
    spec fn long_mode() -> bool;

    /// Returns the number of prefix, opcode, argument and total bytes of the
    /// first instruction of `bytes`.
    ///
    /// When length disassembling fails — the byte slice does not hold a
    /// complete and valid instruction — the return value is the all-zero
    /// sentinel.
    fn inst_len(bytes: &[u8]) -> (r: InstLen)
        ensures
            r == decode_spec(bytes@, Self::long_mode()),
    ;

    /// Returns the length of the first instruction of `bytes`, `0` when
    /// length disassembling fails.
    fn ld(bytes: &[u8]) -> (r: u32)
        ensures
            r == total_spec(bytes@, Self::long_mode()),
    ;

    /// Returns an iterator over the instructions of `bytes`, tracking the
    /// instruction pointer from the given starting address.
    fn iter<'a>(bytes: &'a [u8], va: Self::Va) -> (r: Iter<'a, Self>)
        requires
            va.value() + bytes@.len() <= <Self::Va as Va>::max_value(),
        ensures
            r.bytes@ == bytes@,
            r.va == va,
    ;

    /// Converts a byte count into an address increment.
    fn as_va(len: usize) -> (r: Self::Va)
        requires
            len <= <Self::Va as Va>::max_value(),
        ensures
            r.value() == len,
    ;
}

/// Length disassembler for the `x86` instruction set architecture.
#[derive(Clone, Copy)]
pub struct X86;

impl Isa for X86 {
    type Va = u32;

    open spec fn long_mode() -> bool {
        false
    }

    fn inst_len(bytes: &[u8]) -> (r: InstLen) {
        crate::engine::decode_inst(bytes, false)
    }

    fn ld(bytes: &[u8]) -> (r: u32) {
        crate::x86::lde_int(bytes)
    }

    fn iter<'a>(bytes: &'a [u8], va: u32) -> (r: Iter<'a, X86>) {
        Iter { bytes, va }
    }

    fn as_va(len: usize) -> (r: u32) {
        len as u32
    }
}

/// Length disassembler for the `x86_64` instruction set architecture.
#[derive(Clone, Copy)]
pub struct X64;

impl Isa for X64 {
    type Va = u64;

    open spec fn long_mode() -> bool {
        true
    }

    fn inst_len(bytes: &[u8]) -> (r: InstLen) {
        crate::engine::decode_inst(bytes, true)
    }

    fn ld(bytes: &[u8]) -> (r: u32) {
        let il: InstLen = crate::engine::decode_inst(bytes, true);
        il.total_len as u32
    }

    fn iter<'a>(bytes: &'a [u8], va: u64) -> (r: Iter<'a, X64>) {
        Iter { bytes, va }
    }

    fn as_va(len: usize) -> (r: u64) {
        len as u64
    }
}

} // verus!
