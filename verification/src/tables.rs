//! Classification of opcode byte values.
//!
//! One predicate per classification axis, written over explicit byte values
//! and ranges: whether a byte is an instruction prefix, whether a one-byte
//! or two-byte opcode takes an addressing (ModRM) byte, which immediate
//! widths an opcode implies, and which escaped opcode values are invalid.
//! Each predicate exists twice: as a `spec` function, which the decode model
//! is written over, and as an executable twin proved to agree with it.

use vstd::prelude::*;

verus! {

/// Legacy instruction prefixes: the segment overrides (`26 2E 36 3E 64 65`),
/// the operand-size and address-size overrides (`66 67`), `FWAIT` (`9B`),
/// `LOCK` (`F0`) and the repeat prefixes (`F2 F3`).
pub open spec fn is_legacy_prefix(b: u8) -> bool {
    b == 0x26 || b == 0x2E || b == 0x36 || b == 0x3E || b == 0x64 || b == 0x65 || b == 0x66
        || b == 0x67 || b == 0x9B || b == 0xF0 || b == 0xF2 || b == 0xF3
}

/// A prefix byte for the given mode: the legacy prefixes and, in 64-bit
/// (long) mode, the REX prefixes `40`-`4F`.
pub open spec fn is_prefix_byte(b: u8, long: bool) -> bool {
    is_legacy_prefix(b) || (long && 0x40 <= b && b <= 0x4F)
}

/// Executable twin of [`is_prefix_byte`].
pub fn is_prefix_byte_ex(b: u8, long: bool) -> (r: bool)
    ensures
        r == is_prefix_byte(b, long),
{
    b == 0x26 || b == 0x2E || b == 0x36 || b == 0x3E || b == 0x64 || b == 0x65 || b == 0x66
        || b == 0x67 || b == 0x9B || b == 0xF0 || b == 0xF2 || b == 0xF3
        || (long && 0x40 <= b && b <= 0x4F)
}

/// One-byte opcodes followed by an addressing (ModRM) byte: the eight
/// arithmetic groups (`00`-`3B`, low half of each row), `BOUND`/`ARPL`
/// (`62 63`), `IMUL` (`69 6B`), the `MOV`/`TEST`/`XCHG`/`LEA` block
/// (`80`-`8F`), the shift and `MOV` groups (`C0 C1 C4`-`C7 D0`-`D3`), the
/// FPU escapes (`D8`-`DF`) and the `TEST`/`INC`/`DEC` groups (`F6 F7 FE FF`).
pub open spec fn one_has_modrm(b: u8) -> bool {
    (b <= 0x03) || (0x08 <= b && b <= 0x0B) || (0x10 <= b && b <= 0x13) || (0x18 <= b && b
        <= 0x1B) || (0x20 <= b && b <= 0x23) || (0x28 <= b && b <= 0x2B) || (0x30 <= b && b
        <= 0x33) || (0x38 <= b && b <= 0x3B) || b == 0x62 || b == 0x63 || b == 0x69 || b == 0x6B
        || (0x80 <= b && b <= 0x8F) || b == 0xC0 || b == 0xC1 || (0xC4 <= b && b <= 0xC7) || (0xD0
        <= b && b <= 0xD3) || (0xD8 <= b && b <= 0xDF) || b == 0xF6 || b == 0xF7 || b == 0xFE
        || b == 0xFF
}

/// Executable twin of [`one_has_modrm`].
pub fn one_has_modrm_ex(b: u8) -> (r: bool)
    ensures
        r == one_has_modrm(b),
{
    (b <= 0x03) || (0x08 <= b && b <= 0x0B) || (0x10 <= b && b <= 0x13) || (0x18 <= b && b
        <= 0x1B) || (0x20 <= b && b <= 0x23) || (0x28 <= b && b <= 0x2B) || (0x30 <= b && b
        <= 0x33) || (0x38 <= b && b <= 0x3B) || b == 0x62 || b == 0x63 || b == 0x69 || b == 0x6B
        || (0x80 <= b && b <= 0x8F) || b == 0xC0 || b == 0xC1 || (0xC4 <= b && b <= 0xC7) || (0xD0
        <= b && b <= 0xD3) || (0xD8 <= b && b <= 0xDF) || b == 0xF6 || b == 0xF7 || b == 0xFE
        || b == 0xFF
}

/// One-byte opcodes carrying an 8-bit immediate: the accumulator forms of the
/// arithmetic groups (`04 0C 14 1C 24 2C 34 3C`), `PUSH`/`IMUL` (`6A 6B`),
/// the short conditional jumps (`70`-`7F`), the byte-immediate groups
/// (`80 82 83`), `TEST AL` (`A8`), the byte register moves (`B0`-`B7`), the
/// shift groups and `MOV`/`ENTER`/`INT` (`C0 C1 C6 C8 CD`), `AAM`/`AAD`
/// (`D4 D5`), the short loops and I/O (`E0`-`E7`) and `JMP` short (`EB`).
pub open spec fn one_has_imm8(b: u8) -> bool {
    b == 0x04 || b == 0x0C || b == 0x14 || b == 0x1C || b == 0x24 || b == 0x2C || b == 0x34
        || b == 0x3C || b == 0x6A || b == 0x6B || (0x70 <= b && b <= 0x7F) || b == 0x80
        || b == 0x82 || b == 0x83 || b == 0xA8 || (0xB0 <= b && b <= 0xB7) || b == 0xC0
        || b == 0xC1 || b == 0xC6 || b == 0xC8 || b == 0xCD || b == 0xD4 || b == 0xD5 || (0xE0
        <= b && b <= 0xE7) || b == 0xEB
}

/// Executable twin of [`one_has_imm8`].
pub fn one_has_imm8_ex(b: u8) -> (r: bool)
    ensures
        r == one_has_imm8(b),
{
    b == 0x04 || b == 0x0C || b == 0x14 || b == 0x1C || b == 0x24 || b == 0x2C || b == 0x34
        || b == 0x3C || b == 0x6A || b == 0x6B || (0x70 <= b && b <= 0x7F) || b == 0x80
        || b == 0x82 || b == 0x83 || b == 0xA8 || (0xB0 <= b && b <= 0xB7) || b == 0xC0
        || b == 0xC1 || b == 0xC6 || b == 0xC8 || b == 0xCD || b == 0xD4 || b == 0xD5 || (0xE0
        <= b && b <= 0xE7) || b == 0xEB
}

/// One-byte opcodes carrying an immediate of the default operand width
/// (4 bytes, or 2 under the operand-size override): the accumulator forms
/// (`05 0D 15 1D 25 2D 35 3D`), `PUSH`/`IMUL` (`68 69`), the word-immediate
/// group (`81`), `CALLF` (`9A`), `TEST eAX` (`A9`), the register moves
/// (`B8`-`BF`), `MOV Ev` (`C7`) and `CALL`/`JMP`/`JMPF` (`E8 E9 EA`).
pub open spec fn one_has_immz(b: u8) -> bool {
    b == 0x05 || b == 0x0D || b == 0x15 || b == 0x1D || b == 0x25 || b == 0x2D || b == 0x35
        || b == 0x3D || b == 0x68 || b == 0x69 || b == 0x81 || b == 0x9A || b == 0xA9 || (0xB8
        <= b && b <= 0xBF) || b == 0xC7 || b == 0xE8 || b == 0xE9 || b == 0xEA
}

/// Executable twin of [`one_has_immz`].
pub fn one_has_immz_ex(b: u8) -> (r: bool)
    ensures
        r == one_has_immz(b),
{
    b == 0x05 || b == 0x0D || b == 0x15 || b == 0x1D || b == 0x25 || b == 0x2D || b == 0x35
        || b == 0x3D || b == 0x68 || b == 0x69 || b == 0x81 || b == 0x9A || b == 0xA9 || (0xB8
        <= b && b <= 0xBF) || b == 0xC7 || b == 0xE8 || b == 0xE9 || b == 0xEA
}

/// One-byte opcodes carrying a fixed 16-bit immediate, regardless of the
/// operand-size override: `CALLF Ap` (`9A`), `RETN Iw` (`C2`),
/// `ENTER Iw Ib` (`C8`), `RETF Iw` (`CA`) and `JMPF Ap` (`EA`).
pub open spec fn one_has_imm16(b: u8) -> bool {
    b == 0x9A || b == 0xC2 || b == 0xC8 || b == 0xCA || b == 0xEA
}

/// Executable twin of [`one_has_imm16`].
pub fn one_has_imm16_ex(b: u8) -> (r: bool)
    ensures
        r == one_has_imm16(b),
{
    b == 0x9A || b == 0xC2 || b == 0xC8 || b == 0xCA || b == 0xEA
}

/// The absolute-addressing moves `MOV AL/eAX, Ob/Ov` and back (`A0`-`A3`),
/// whose extra bytes are sized by the address-size default.
pub open spec fn one_is_movabs(b: u8) -> bool {
    0xA0 <= b && b <= 0xA3
}

/// Executable twin of [`one_is_movabs`].
pub fn one_is_movabs_ex(b: u8) -> (r: bool)
    ensures
        r == one_is_movabs(b),
{
    0xA0 <= b && b <= 0xA3
}

/// Two-byte (`0F`-escaped) opcode values that are invalid.
pub open spec fn two_invalid(b: u8) -> bool {
    b == 0x04 || b == 0x0A || b == 0x0C || b == 0x0F || b == 0x25 || b == 0x27 || b == 0x36
        || (0x38 <= b && b <= 0x3F) || b == 0x7A || b == 0x7B || b == 0xA6 || b == 0xA7
        || b == 0xFF
}

/// Executable twin of [`two_invalid`].
pub fn two_invalid_ex(b: u8) -> (r: bool)
    ensures
        r == two_invalid(b),
{
    b == 0x04 || b == 0x0A || b == 0x0C || b == 0x0F || b == 0x25 || b == 0x27 || b == 0x36
        || (0x38 <= b && b <= 0x3F) || b == 0x7A || b == 0x7B || b == 0xA6 || b == 0xA7
        || b == 0xFF
}

/// Two-byte opcodes followed by an addressing (ModRM) byte.
pub open spec fn two_has_modrm(b: u8) -> bool {
    (b <= 0x03) || b == 0x0D || (0x10 <= b && b <= 0x1F) || (0x28 <= b && b <= 0x2F) || (0x40
        <= b && b <= 0x6F) || b == 0x70 || (0x74 <= b && b <= 0x76) || (0x78 <= b && b <= 0x7F)
        || (0x90 <= b && b <= 0x9F) || (0xA3 <= b && b <= 0xA5) || (0xAB <= b && b <= 0xB8)
        || (0xBA <= b && b <= 0xC7) || (0xD0 <= b && b <= 0xDF) || (0xE0 <= b)
}

/// Executable twin of [`two_has_modrm`].
pub fn two_has_modrm_ex(b: u8) -> (r: bool)
    ensures
        r == two_has_modrm(b),
{
    (b <= 0x03) || b == 0x0D || (0x10 <= b && b <= 0x1F) || (0x28 <= b && b <= 0x2F) || (0x40
        <= b && b <= 0x6F) || b == 0x70 || (0x74 <= b && b <= 0x76) || (0x78 <= b && b <= 0x7F)
        || (0x90 <= b && b <= 0x9F) || (0xA3 <= b && b <= 0xA5) || (0xAB <= b && b <= 0xB8)
        || (0xBA <= b && b <= 0xC7) || (0xD0 <= b && b <= 0xDF) || (0xE0 <= b)
}

/// Two-byte opcodes carrying an 8-bit immediate: the SSE shuffle/compare and
/// insert/extract forms (`70`-`73` treated as `70 71 72 73`, `C2`,
/// `C4`-`C6`), `SHLD`/`SHRD Ib` (`A4 AC`) and the bit-test group (`BA`).
pub open spec fn two_has_imm8(b: u8) -> bool {
    (0x70 <= b && b <= 0x73) || b == 0xA4 || b == 0xAC || b == 0xBA || b == 0xC2 || (0xC4 <= b
        && b <= 0xC6)
}

/// Executable twin of [`two_has_imm8`].
pub fn two_has_imm8_ex(b: u8) -> (r: bool)
    ensures
        r == two_has_imm8(b),
{
    (0x70 <= b && b <= 0x73) || b == 0xA4 || b == 0xAC || b == 0xBA || b == 0xC2 || (0xC4 <= b
        && b <= 0xC6)
}

/// Two-byte opcodes carrying an immediate of the default operand width: the
/// long conditional jumps (`80`-`8F`).
pub open spec fn two_has_immz(b: u8) -> bool {
    0x80 <= b && b <= 0x8F
}

/// Executable twin of [`two_has_immz`].
pub fn two_has_immz_ex(b: u8) -> (r: bool)
    ensures
        r == two_has_immz(b),
{
    0x80 <= b && b <= 0x8F
}

/// Two-byte opcodes that add a fixed two extra bytes: `FEMMS` (`0E`) and the
/// `C9`-`CE` block.
pub open spec fn two_has_extra2(b: u8) -> bool {
    b == 0x0E || (0xC9 <= b && b <= 0xCE)
}

/// Executable twin of [`two_has_extra2`].
pub fn two_has_extra2_ex(b: u8) -> (r: bool)
    ensures
        r == two_has_extra2(b),
{
    b == 0x0E || (0xC9 <= b && b <= 0xCE)
}

/// Valid three-byte opcode values behind the `0F 38` escape.
pub open spec fn three_38_valid(b: u8) -> bool {
    if b < 0x40 {
        !((0x0C <= b && b <= 0x0F) || (0x11 <= b && b <= 0x13) || b == 0x16 || (0x18 <= b && b
            <= 0x1B) || b == 0x1F || b == 0x26 || b == 0x27 || (0x2C <= b && b <= 0x2F)
            || b == 0x36)
    } else {
        b == 0x40 || b == 0x41 || b == 0x80 || b == 0x81 || b == 0xF0 || b == 0xF1
    }
}

/// Executable twin of [`three_38_valid`].
pub fn three_38_valid_ex(b: u8) -> (r: bool)
    ensures
        r == three_38_valid(b),
{
    if b < 0x40 {
        !((0x0C <= b && b <= 0x0F) || (0x11 <= b && b <= 0x13) || b == 0x16 || (0x18 <= b && b
            <= 0x1B) || b == 0x1F || b == 0x26 || b == 0x27 || (0x2C <= b && b <= 0x2F)
            || b == 0x36)
    } else {
        b == 0x40 || b == 0x41 || b == 0x80 || b == 0x81 || b == 0xF0 || b == 0xF1
    }
}

/// Valid three-byte opcode values behind the `0F 3A` escape.
pub open spec fn three_3a_valid(b: u8) -> bool {
    (0x08 <= b && b <= 0x0F) || (0x14 <= b && b <= 0x17) || (0x20 <= b && b <= 0x22) || (0x40
        <= b && b <= 0x42) || (0x60 <= b && b <= 0x63)
}

/// Executable twin of [`three_3a_valid`].
pub fn three_3a_valid_ex(b: u8) -> (r: bool)
    ensures
        r == three_3a_valid(b),
{
    (0x08 <= b && b <= 0x0F) || (0x14 <= b && b <= 0x17) || (0x20 <= b && b <= 0x22) || (0x40
        <= b && b <= 0x42) || (0x60 <= b && b <= 0x63)
}

} // verus!
