use lde::{lde_int, Isa, X64, X86};

#[test]
fn length_never_exceeds_input() {
    let buffers: &[&[u8]] = &[
        b"",
        b"\x40",
        b"\xB8\x01\x01\x01\x01",
        b"\xB8\x01",
        b"\x66\x67\xF0",
        b"\x0F",
        b"\x0F\x38",
        b"\xDD\x84\x00\x2A\x2A\x2A\x2A",
        b"\xFF\xFF\xFF\xFF",
        b"\x00",
    ];
    for b in buffers {
        assert!(lde_int(b) as usize <= b.len());
        assert!(X64::ld(b) as usize <= b.len());
    }
}

#[test]
fn empty_input_fails() {
    assert_eq!(lde_int(b""), 0);
    assert_eq!(X86::ld(b""), 0);
    assert_eq!(X64::ld(b""), 0);
    assert_eq!(X86::inst_len(b""), X64::inst_len(b""));
    assert_eq!(X86::inst_len(b"").total_len, 0);
}

#[test]
fn decoding_is_deterministic() {
    let buffers: &[&[u8]] = &[b"\x40", b"\xB8\x01\x01\x01\x01", b"\x0F\xAE\x38", b"\xFF"];
    for b in buffers {
        assert_eq!(lde_int(b), lde_int(b));
        assert_eq!(X64::ld(b), X64::ld(b));
        assert_eq!(X86::inst_len(b), X86::inst_len(b));
    }
}

#[test]
fn truncation_to_length_is_self_contained() {
    let buffers: &[&[u8]] = &[
        b"\xB8\x01\x01\x01\x01\xFF\xFF\xFF",
        b"\x89\x5D\x2A\xC3",
        b"\x66\x0F\x0D\x80\x2A\x2A\x2A\x2A\x90\x90",
        b"\x67\xA1\x2A\x2A\x55",
    ];
    for b in buffers {
        let l = lde_int(b) as usize;
        assert!(l > 0);
        assert_eq!(lde_int(&b[..l]) as usize, l);
    }
}

#[test]
fn x86_scenarios() {
    assert_eq!(lde_int(b"\x40"), 1);
    assert_eq!(lde_int(b"\xB8\x01\x01\x01\x01"), 5);
    assert_eq!(lde_int(b"\x04\x2A"), 2);
    assert_eq!(lde_int(b"\x89\x5D\x2A"), 3);
    assert_eq!(lde_int(b"\x84\xC0"), 2);
    assert_eq!(lde_int(b"\xDD\x84\x00\x2A\x2A\x2A\x2A"), 7);
    assert_eq!(lde_int(b"\x67\xA1\x2A\x2A"), 4);
    assert_eq!(lde_int(b"\xC3"), 1);
}

#[test]
fn sentinel_on_truncated_input() {
    // opcode with a four-byte immediate, but only one byte of it present
    assert_eq!(lde_int(b"\xB8\x01"), 0);
    // addressing byte missing
    assert_eq!(lde_int(b"\x89"), 0);
    // scaled-index extension byte missing
    assert_eq!(lde_int(b"\xDD\x84"), 0);
    // second opcode byte missing
    assert_eq!(lde_int(b"\x0F"), 0);
    // third opcode byte missing
    assert_eq!(lde_int(b"\x0F\x38"), 0);
    // prefixes only
    assert_eq!(lde_int(b"\x66\x67"), 0);
    // immediate of the test group missing
    assert_eq!(lde_int(b"\xF6\xC0"), 0);
}

#[test]
fn sentinel_on_invalid_opcode() {
    // invalid two-byte opcodes
    assert_eq!(lde_int(b"\x0F\x04\x2A\x2A"), 0);
    assert_eq!(lde_int(b"\x0F\xFF\x2A\x2A"), 0);
    assert_eq!(lde_int(b"\x0F\xA6\x2A\x2A"), 0);
    // invalid three-byte opcodes
    assert_eq!(lde_int(b"\x0F\x38\x0C\xC0"), 0);
    assert_eq!(lde_int(b"\x0F\x38\x42\xC0"), 0);
    assert_eq!(lde_int(b"\x0F\x3A\x00\xC0\x2A"), 0);
}

#[test]
fn three_byte_opcodes() {
    // pshufb xmm0, xmm0 (0F 38 00, addressing byte, no immediate)
    assert_eq!(lde_int(b"\x0F\x38\x00\xC0"), 4);
    // palignr xmm0, xmm0, 1 (0F 3A 0F, addressing byte, one immediate byte)
    assert_eq!(lde_int(b"\x0F\x3A\x0F\xC0\x01"), 5);
}

#[test]
fn test_group_immediates() {
    // test r/m8, imm8: reg field zero pulls in the immediate
    assert_eq!(lde_int(b"\xF6\xC0\x01"), 3);
    // neg r/m8: reg field three, no immediate
    assert_eq!(lde_int(b"\xF6\xD8"), 2);
    // test r/m32, imm32
    assert_eq!(lde_int(b"\xF7\xC0\x01\x02\x03\x04"), 6);
    // operand-size override shrinks the immediate to two bytes
    assert_eq!(lde_int(b"\x66\xF7\xC0\x01\x02"), 5);
}

#[test]
fn x64_absolute_and_displacement_widths() {
    // mov eax, moffs: the absolute address is eight bytes in 64-bit mode
    assert_eq!(X64::ld(b"\xA1\x2A\x2A\x2A\x2A\x2A\x2A\x2A\x2A"), 9);
    // and four under the address-size override
    assert_eq!(X64::ld(b"\x67\xA1\x2A\x2A\x2A\x2A"), 6);
    // a mode-2 displacement stays four bytes in 64-bit mode
    assert_eq!(X64::ld(b"\x67\x8B\x80\x2A\x2A\x2A\x2A"), 7);
    // REX prefixes are consumed as prefixes
    assert_eq!(X64::ld(b"\x48\x83\xEC\x2A"), 4);
    assert_eq!(X64::ld(b"\x40\x55"), 2);
    // in 32-bit mode the same bytes are two one-byte instructions
    assert_eq!(X86::ld(b"\x40\x55"), 1);
}

#[test]
fn ld_matches_lde_int() {
    let buffers: &[&[u8]] = &[b"", b"\x40", b"\xB8\x01\x01\x01\x01", b"\x0F", b"\x0F\xAE\x38"];
    for b in buffers {
        assert_eq!(X86::ld(b), lde_int(b));
    }
    assert_eq!(X86::as_va(9), 9u32);
    assert_eq!(X64::as_va(9), 9u64);
}
