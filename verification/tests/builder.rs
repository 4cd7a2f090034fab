use lde::OcBuilder;

#[test]
fn builder_ocbuilder() {
    let b = OcBuilder::new(2).write(0, 0x40u8).write(1, 0x55u8);
    assert_eq!(b.bytes(), b"\x40\x55");
    let b = OcBuilder::new(5).write(0, 0xB8u8).write(1, 42);
    assert_eq!(b.bytes(), b"\xB8\x2A\x00\x00\x00");
}

#[test]
fn builder_from_bytes_template() {
    let b = OcBuilder::from_bytes(b"\xE8****").write(1, 0x01010101_u32);
    assert_eq!(b.bytes(), b"\xE8\x01\x01\x01\x01");
}

#[test]
fn builder_clamps_to_fifteen() {
    let b = OcBuilder::new(32);
    assert_eq!(b.bytes().len(), 15);
    let b = OcBuilder::from_bytes(&[0xCCu8; 20]);
    assert_eq!(b.bytes(), &[0xCCu8; 15][..]);
}
