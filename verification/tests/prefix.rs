use lde::{is_prefix, RawPrefix};

#[test]
fn prefix_bytes_x64() {
    // legacy prefixes
    for b in [0x26u8, 0x2E, 0x36, 0x3E, 0x64, 0x65, 0x66, 0x67, 0x9B, 0xF0, 0xF2, 0xF3] {
        assert!(is_prefix(b));
    }
    // REX prefixes
    for b in 0x40u8..=0x4F {
        assert!(is_prefix(b));
    }
    // ordinary opcode bytes
    for b in [0x00u8, 0x50, 0x90, 0xB8, 0xC3, 0xFF] {
        assert!(!is_prefix(b));
    }
}

#[test]
fn raw_prefix_parse_consumes_run() {
    let mut bytes: &[u8] = b"\x66\x48\x90\x90";
    let r = RawPrefix::parse(&mut bytes);
    // operand-size override plus a REX prefix
    assert_eq!(r.0, 0x0100 | 0x50000);
    assert_eq!(bytes, b"\x90\x90");
}

#[test]
fn raw_prefix_parse_stops_at_opcode() {
    let mut bytes: &[u8] = b"\xB8\x2A\x2A\x2A\x2A";
    let r = RawPrefix::parse(&mut bytes);
    assert_eq!(r.0, 0);
    assert_eq!(bytes, b"\xB8\x2A\x2A\x2A\x2A");
}

#[test]
fn raw_prefix_parse_empty() {
    let mut bytes: &[u8] = b"";
    let r = RawPrefix::parse(&mut bytes);
    assert_eq!(r.0, 0);
    assert_eq!(bytes.len(), 0);
}

#[test]
fn raw_prefix_parse_segment_and_repeat() {
    let mut bytes: &[u8] = b"\xF0\x3E\xF3\x01\xC0";
    let r = RawPrefix::parse(&mut bytes);
    assert_eq!(r.0, 0x0080 | 0x0008 | 0x0800);
    assert_eq!(bytes, b"\x01\xC0");
}

#[test]
fn raw_prefix_parse_stops_at_push() {
    // 0x50 is the one-byte PUSH opcode, not a prefix: the REX run ends at 0x4F
    let mut bytes: &[u8] = b"\x48\x50\x55";
    let r = RawPrefix::parse(&mut bytes);
    assert_eq!(r.0, 0x50000);
    assert_eq!(bytes, b"\x50\x55");

    let mut bytes: &[u8] = b"\x50\x55";
    let r = RawPrefix::parse(&mut bytes);
    assert_eq!(r.0, 0);
    assert_eq!(bytes, b"\x50\x55");
}
