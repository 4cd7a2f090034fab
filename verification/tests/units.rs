use lde::lde_int;

#[test]
fn units() {
    // add al, *
    assert_eq!(lde_int(b"\x04*"), 2);
    // mov DWORD PTR [ebp+*]
    assert_eq!(lde_int(b"\x89\x5D*"), 3);
    // test al, al
    assert_eq!(lde_int(b"\x84\xC0"), 2);
    // fld QWORD PTR [eax+eax*4+****]
    assert_eq!(lde_int(b"\xDD\x84\x00****"), 7);
    // mov esi, ****
    assert_eq!(lde_int(b"\xBE****"), 5);
    // mov eax, fs:****
    assert_eq!(lde_int(b"\x64\xA1****"), 6);
    // add DWORD PTR ds:****, eax
    assert_eq!(lde_int(b"\x01\x05****"), 6);
    // addr16 mov eax, dx:**
    assert_eq!(lde_int(b"\x67\xA1**"), 4);
    // add BYTE PTR [bx+si+**], al
    assert_eq!(lde_int(b"\x67\x00\x80**"), 5);
    // inc eax
    assert_eq!(lde_int(b"\x40"), 1);
    // retn
    assert_eq!(lde_int(b"\xC3"), 1);
    // nop dword ptr [rax+*]
    assert_eq!(lde_int(b"\x0F\x1F\x40\x00"), 4);
    // nop dword ptr [rax+****]
    assert_eq!(lde_int(b"\x66\x0F\x0D\x80****"), 8);
    // clflush byte ptr [rax]
    assert_eq!(lde_int(b"\x0F\xAE\x38"), 3);
}
