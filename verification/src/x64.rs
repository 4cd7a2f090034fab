//! 64-bit prefix utilities: the prefix test, the parsed-prefix flag set,
//! and the length classification vocabulary.

use vstd::prelude::*;
use vstd::slice::{slice_index_get, slice_subrange};

use crate::tables::{is_prefix_byte, is_prefix_byte_ex};

verus! {

/// Returns whether the byte is an instruction prefix in 64-bit mode, the
/// REX prefixes included.
pub fn is_prefix(byte: u8) -> (r: bool)
    ensures
        r == is_prefix_byte(byte, true),
{
    is_prefix_byte_ex(byte, true)
}

/// Length classification of an opcode byte value.
#[derive(Copy, Clone, Debug, PartialEq, Eq)]
pub enum LenClass {
    /// Invalid opcode.
    Invalid,
    /// Invalid opcode; the byte is a prefix.
    Prefix,
    /// The two-byte opcode escape.
    TwoByte,
    /// Valid opcode: no addressing byte, no immediate.
    Valid,
    /// Valid opcode with an absolute memory argument.
    VAbs,
    /// Valid opcode with an 8-bit immediate.
    VImm8,
    /// Valid opcode with a 16-bit immediate.
    VImm16,
    /// Valid opcode with a default-width immediate.
    VImm32,
    /// Valid opcode with an addressing byte.
    VModRM,
    /// Valid opcode with an addressing byte and an 8-bit immediate.
    VModRMImm8,
    /// Valid opcode with an addressing byte and a default-width immediate.
    VModRMImm32,
}

/// The flag bit a byte contributes when the prefix parser consumes it,
/// `0` for a byte the parser stops at. The four low groups are the segment
/// overrides, `FWAIT`/`LOCK`, the size overrides and the repeat prefixes;
/// the REX prefixes `40`-`4F` set the REX marker bits.
pub open spec fn prefix_flag(b: u8) -> u32 {
    if b == 0x26 {
        0x0001
    } else if b == 0x2E {
        0x0002
    } else if b == 0x36 {
        0x0004
    } else if b == 0x3E {
        0x0008
    } else if b == 0x64 {
        0x0010
    } else if b == 0x65 {
        0x0020
    } else if b == 0x9B {
        0x0040
    } else if b == 0xF0 {
        0x0080
    } else if b == 0x66 {
        0x0100
    } else if b == 0x67 {
        0x0200
    } else if b == 0xF2 {
        0x0400
    } else if b == 0xF3 {
        0x0800
    } else if 0x40 <= b && b <= 0x4F {
        0x50000
    } else {
        0
    }
}

/// Executable twin of [`prefix_flag`].
pub fn prefix_flag_ex(b: u8) -> (r: u32)
    ensures
        r == prefix_flag(b),
{
    if b == 0x26 {
        0x0001
    } else if b == 0x2E {
        0x0002
    } else if b == 0x36 {
        0x0004
    } else if b == 0x3E {
        0x0008
    } else if b == 0x64 {
        0x0010
    } else if b == 0x65 {
        0x0020
    } else if b == 0x9B {
        0x0040
    } else if b == 0xF0 {
        0x0080
    } else if b == 0x66 {
        0x0100
    } else if b == 0x67 {
        0x0200
    } else if b == 0xF2 {
        0x0400
    } else if b == 0xF3 {
        0x0800
    } else if 0x40 <= b && b <= 0x4F {
        0x50000
    } else {
        0
    }
}

/// Whether the prefix parser consumes the byte.
pub open spec fn parse_consumes(b: u8) -> bool {
    prefix_flag(b) != 0
}

/// The number of leading bytes the prefix parser consumes.
pub open spec fn parse_count(b: Seq<u8>) -> int
    decreases b.len(),
{
    if b.len() > 0 && parse_consumes(b[0]) {
        1 + parse_count(b.skip(1))
    } else {
        0
    }
}

/// The combined flags of the consumed prefix run.
pub open spec fn raw_prefix_of(b: Seq<u8>) -> u32
    decreases b.len(),
{
    if b.len() > 0 && parse_consumes(b[0]) {
        prefix_flag(b[0]) | raw_prefix_of(b.skip(1))
    } else {
        0
    }
}

/// The parse count is the index where the consumed run stops.
proof fn lemma_parse_count_is(b: Seq<u8>, i: int)
    requires
        0 <= i <= b.len(),
        forall|k: int| 0 <= k < i ==> parse_consumes(b[k]),
        i == b.len() || !parse_consumes(b[i]),
    ensures
        parse_count(b) == i,
    decreases i,
{
    if i > 0 {
        assert(parse_consumes(b[0]));
        let t = b.skip(1);
        assert forall|k: int| 0 <= k < i - 1 implies parse_consumes(t[k]) by {
            assert(t[k] == b[k + 1]);
        }
        if i - 1 < t.len() {
            assert(t[i - 1] == b[i]);
        }
        lemma_parse_count_is(t, i - 1);
    }
}

/// Parsed instruction prefixes, as a bit set of prefix flags.
#[derive(Copy, Clone, Debug, PartialEq, Eq, Structural)]
pub struct RawPrefix(pub u32);

impl RawPrefix {
    /// Parses the run of prefixes at the start of the input, advances the
    /// input past them, and returns their combined flags.
    pub fn parse(iter: &mut &[u8]) -> (r: RawPrefix)
        ensures
            r.0 == raw_prefix_of(old(iter)@),
            final(iter)@ == old(iter)@.skip(parse_count(old(iter)@)),
    {
        let bytes: &[u8] = *iter;
        let n: usize = bytes.len();
        // find where the prefix run stops
        let mut c: usize = 0;
        while c < n && prefix_flag_ex(*slice_index_get(bytes, c)) != 0
            invariant
                n == bytes@.len(),
                c <= n,
                forall|k: int| 0 <= k < c ==> parse_consumes(bytes@[k]),
            decreases n - c,
        {
            c = c + 1;
        }
        proof {
            lemma_parse_count_is(bytes@, c as int);
        }
        // fold the flags, from the last prefix to the first
        let mut acc: u32 = 0;
        let mut j: usize = c;
        while j > 0
            invariant
                j <= c <= n,
                n == bytes@.len(),
                forall|k: int| 0 <= k < c ==> parse_consumes(bytes@[k]),
                acc == raw_prefix_of(bytes@.skip(j as int)),
            decreases j,
        {
            j = j - 1;
            let f: u32 = prefix_flag_ex(*slice_index_get(bytes, j));
            proof {
                assert(bytes@.skip(j as int)[0] == bytes@[j as int]);
                assert(bytes@.skip(j as int).skip(1) =~= bytes@.skip(j as int + 1));
            }
            acc = f | acc;
        }
        proof {
            assert(bytes@.skip(0) =~= bytes@);
        }
        *iter = slice_subrange(bytes, c, n);
        RawPrefix(acc)
    }
}

} // verus!
