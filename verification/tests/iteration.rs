use lde::{Isa, X64, X86};

#[test]
fn iter_x64_yields_two_then_stops() {
    let code = b"\x40\x55\x48\x83\xEC\x2A\x00\x80";
    let mut it = X64::iter(code, 0x1000);
    let first = it.next().expect("first instruction");
    assert_eq!(first.bytes(), &code[0..2]);
    assert_eq!(first.va(), 0x1000);
    let second = it.next().expect("second instruction");
    assert_eq!(second.bytes(), &code[2..6]);
    assert_eq!(second.va(), 0x1002);
    // the remaining two bytes are not decodable: iteration stops
    assert!(it.next().is_none());
    assert_eq!(it.bytes, &code[6..]);
}

#[test]
fn iter_x86_sums_lengths() {
    let code = b"\x56\x33\xF6\x57\xBF\xA0\x10\x40\x00\x85\xD2\x74\x10\x8B\xF2\x8B\xFA";
    // find how many leading bytes cover at least 5 bytes of instructions
    let mut count = 0usize;
    let mut it = X86::iter(code, 0x1000);
    while count < 5 {
        let inst = it.next().expect("decodable instruction");
        count += inst.bytes().len();
    }
    assert_eq!(count, 9);
}

#[test]
fn iter_addresses_track_lengths() {
    let code = b"\x56\x33\xF6\x57\xBF\xA0\x10\x40\x00\x85\xD2\x74\x10\x8B\xF2\x8B\xFA";
    let mut it = X86::iter(code, 0x1000);
    let mut expected_va = 0x1000u32;
    let mut total = 0usize;
    while let Some(inst) = it.next() {
        assert_eq!(inst.va(), expected_va);
        expected_va += inst.bytes().len() as u32;
        total += inst.bytes().len();
    }
    // the whole fixture decodes, and lengths never exceed the buffer
    assert!(total <= code.len());
    assert_eq!(total, code.len());
}

#[test]
fn iter_consume_skips_known_bytes() {
    let code = b"\x2A\x2A\x40\x55";
    let mut it = X86::iter(code, 0x2000);
    it.consume(2);
    assert_eq!(it.va, 0x2002);
    let inst = it.next().expect("inc eax");
    assert_eq!(inst.bytes(), b"\x40");
    // consuming past the end clamps to the remaining length
    it.consume(100);
    assert_eq!(it.bytes.len(), 0);
    assert_eq!(it.va, 0x2004);
}

#[test]
fn inst_len_breakdown() {
    let il = X86::inst_len(b"\x66\x0F\x0D\x80\x2A\x2A\x2A\x2A");
    assert_eq!(il.total_len, 8);
    assert_eq!(il.prefix_len, 1);
    assert_eq!(il.op_len, 2);
    assert_eq!(il.arg_len, 5);
    let inst = X86::iter(b"\x66\x0F\x0D\x80\x2A\x2A\x2A\x2A", 0).next().unwrap();
    assert_eq!(inst.prefix_bytes(), b"\x66");
    assert_eq!(inst.op_bytes(), b"\x0F\x0D");
    assert_eq!(inst.arg_bytes(), b"\x80\x2A\x2A\x2A\x2A");
    assert_eq!(inst.inst_len(), il);
}
