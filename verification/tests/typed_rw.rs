use lde::{read, OpCode};

#[test]
fn read_immediate() {
    // mov eax, 0x01010101
    let opcode = b"\xB8\x01\x01\x01\x01";
    let result: u32 = read(opcode, 1);
    assert_eq!(result, 0x01010101);
}

#[test]
fn write_immediate() {
    // mov al, 1: change the immediate to 0xff
    let mut opcode = vec![0xb0u8, 0x01];
    lde::write(&mut opcode, 1, 0xff_u8);
    assert_eq!(opcode, [0xb0, 0xff]);
}

#[test]
fn read_le_all_widths() {
    let bytes = b"\x01\x02\x03\x04\x05\x06\x07\x08\xFF";
    assert_eq!(read::<u8>(bytes, 0), 0x01);
    assert_eq!(read::<u16>(bytes, 0), 0x0201);
    assert_eq!(read::<u32>(bytes, 0), 0x04030201);
    assert_eq!(read::<u64>(bytes, 0), 0x0807060504030201);
    assert_eq!(read::<u8>(bytes, 8), 0xFF);
    assert_eq!(read::<i8>(bytes, 8), -1);
    assert_eq!(read::<i16>(bytes, 7), -248);  // 0xFF08 as i16
    assert_eq!(read::<i32>(b"\xFE\xFF\xFF\xFF", 0), -2);
    assert_eq!(read::<i64>(b"\xFF\xFF\xFF\xFF\xFF\xFF\xFF\xFF", 0), -1);
}

#[test]
fn write_then_read_round_trip() {
    let mut buf = vec![0u8; 16];
    lde::write(&mut buf, 0, 0xAABBu16);
    assert_eq!(read::<u16>(&buf, 0), 0xAABB);
    lde::write(&mut buf, 2, -12345i16);
    assert_eq!(read::<i16>(&buf, 2), -12345);
    lde::write(&mut buf, 4, 0xDEADBEEFu32);
    assert_eq!(read::<u32>(&buf, 4), 0xDEADBEEF);
    lde::write(&mut buf, 8, -123456789i32);
    assert_eq!(read::<i32>(&buf, 8), -123456789);
    lde::write(&mut buf, 8, 0x1122334455667788u64);
    assert_eq!(read::<u64>(&buf, 8), 0x1122334455667788);
    lde::write(&mut buf, 8, -98765432101234i64);
    assert_eq!(read::<i64>(&buf, 8), -98765432101234);
    lde::write(&mut buf, 15, -128i8);
    assert_eq!(read::<i8>(&buf, 15), -128);
}

#[test]
fn write_is_little_endian_and_local() {
    let mut buf = vec![0xCCu8; 8];
    lde::write(&mut buf, 2, 0x0102u16);
    assert_eq!(buf, [0xCC, 0xCC, 0x02, 0x01, 0xCC, 0xCC, 0xCC, 0xCC]);
}

#[test]
fn opcode_read_write() {
    let mut oc = OpCode::from_bytes(b"\xE8\x2A\x2A\x2A\x2A");
    assert_eq!(oc.len(), 5);
    oc.write(1, 0x01010101u32);
    assert_eq!(oc.as_bytes(), b"\xE8\x01\x01\x01\x01");
    assert_eq!(oc.read::<u32>(1), 0x01010101);
    assert_eq!(oc.into_bytes(), b"\xE8\x01\x01\x01\x01");
}

#[test]
fn opcode_equality_over_bytes() {
    let a = OpCode::from_bytes(b"\x40\x55");
    let b = OpCode::from_bytes(b"\x40\x55");
    let c = OpCode::from_bytes(b"\x40\x56");
    let d = OpCode::from_bytes(b"\x40");
    assert!(a == b);
    assert!(a != c);
    assert!(a != d);
}
