use lde::{IterMut, X86};

#[test]
fn iter_mut_walks_and_patches() {
    // mov eax, 42; retn
    let code = b"\xB8\x2A\x00\x00\x00\xC3".to_vec();
    let mut it: IterMut<X86> = IterMut::new(code, 0x1000);

    let (start, il, va) = it.next().expect("mov eax, imm32");
    assert_eq!(start, 0);
    assert_eq!(il.total_len, 5);
    assert_eq!(va, 0x1000);
    // patch the immediate in place
    it.write(start + 1, 0xDEADBEEFu32);
    assert_eq!(it.read::<u32>(start + 1), 0xDEADBEEF);

    let (start, il, va) = it.next().expect("retn");
    assert_eq!(start, 5);
    assert_eq!(il.total_len, 1);
    assert_eq!(va, 0x1005);

    assert!(it.next().is_none());
    assert_eq!(it.into_bytes(), b"\xB8\xEF\xBE\xAD\xDE\xC3");
}

#[test]
fn iter_mut_as_iter_views_remaining() {
    let code = b"\x40\x55\x90".to_vec();
    let mut it: IterMut<X86> = IterMut::new(code, 0);
    it.next().expect("inc eax");
    let mut view = it.as_iter();
    assert_eq!(view.bytes, b"\x55\x90");
    assert_eq!(view.va, 1);
    let inst = view.next().expect("push ebp");
    assert_eq!(inst.bytes(), b"\x55");
}

#[test]
fn iter_mut_consume_clamps() {
    let code = b"\x90\x90".to_vec();
    let mut it: IterMut<X86> = IterMut::new(code, 0x10);
    it.consume(5);
    assert!(it.next().is_none());
    assert_eq!(it.into_bytes(), b"\x90\x90");
}
