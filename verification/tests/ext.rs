use lde::OpCodeBuilder;

#[test]
fn ext_ocbuilder() {
    let b = OpCodeBuilder::new(2).write(0, 0x40u8).write(1, 0x55u8);
    assert_eq!(b.bytes(), b"\x40\x55");
    let b = OpCodeBuilder::new(5).write(0, 0xB8u8).write(1, 42);
    assert_eq!(b.bytes(), b"\xB8\x2A\x00\x00\x00");
}
