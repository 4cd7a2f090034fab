//! The executable decode engine, proved against the model.
//!
//! Each stage of the model has an executable counterpart with a contract
//! tying it to the corresponding specification function: the prefix scan,
//! the opcode classification, the addressing-byte read, and the final
//! length computation in [`decode_inst`].

use vstd::prelude::*;
use vstd::slice::slice_index_get;

use crate::inst::InstLen;
use crate::model::{
    adef_of, ddef_of, ddisp_of, decode_spec, lemma_prefix_count_is, modrm_scan, op_scan,
    prefix_count, prefix_run_has,
};
use crate::tables::{
    is_prefix_byte, is_prefix_byte_ex, one_has_imm16_ex, one_has_imm8_ex, one_has_immz_ex,
    one_has_modrm_ex, one_is_movabs_ex, three_38_valid_ex, three_3a_valid_ex, two_has_extra2_ex,
    two_has_imm8_ex, two_has_immz_ex, two_has_modrm_ex, two_invalid_ex,
};

verus! {

/// Reads one byte of a slice.
fn byte_at(bytes: &[u8], i: usize) -> (r: u8)
    requires
        i < bytes@.len(),
    ensures
        r == bytes@[i as int],
{
    *slice_index_get(bytes, i)
}

/// Scans the prefix run: returns its length and whether it contains the
/// operand-size (`66`) and address-size (`67`) override prefixes.
fn scan_prefixes(bytes: &[u8], long: bool) -> (r: (usize, bool, bool))
    ensures
        r.0 == prefix_count(bytes@, long),
        r.0 <= bytes@.len(),
        r.1 == prefix_run_has(bytes@, long, 0x66),
        r.2 == prefix_run_has(bytes@, long, 0x67),
{
    let n: usize = bytes.len();
    let mut p: usize = 0;
    let mut saw66 = false;
    let mut saw67 = false;
    while p < n && is_prefix_byte_ex(byte_at(bytes, p), long)
        invariant
            n == bytes@.len(),
            p <= n,
            forall|k: int| 0 <= k < p ==> is_prefix_byte(bytes@[k], long),
            saw66 <==> (exists|k: int| 0 <= k < p && bytes@[k] == 0x66),
            saw67 <==> (exists|k: int| 0 <= k < p && bytes@[k] == 0x67),
        decreases n - p,
    {
        let x: u8 = byte_at(bytes, p);
        if x == 0x66 {
            saw66 = true;
        }
        if x == 0x67 {
            saw67 = true;
        }
        proof {
            if x == 0x66 {
                assert(bytes@[p as int] == 0x66);
            }
            if x == 0x67 {
                assert(bytes@[p as int] == 0x67);
            }
        }
        p = p + 1;
    }
    proof {
        lemma_prefix_count_is(bytes@, long, p as int);
    }
    (p, saw66, saw67)
}

/// Executable counterpart of [`crate::model::OpScan`].
struct OpParts {
    ok: bool,
    op_len: usize,
    modrm: bool,
    imm: usize,
    abs: usize,
}

/// Classifies the opcode starting at index `p`, as [`op_scan`] states it.
fn scan_op(bytes: &[u8], p: usize, ddef: usize, adef: usize) -> (r: OpParts)
    requires
        p < bytes@.len(),
        ddef <= 4,
        adef <= 8,
    ensures
        ({
            let os = op_scan(bytes@, p as int, ddef as int, adef as int);
            r.ok == os.ok && (os.ok ==> r.op_len == os.op_len && r.modrm == os.modrm && r.imm
                == os.imm && r.abs == os.abs)
        }),
        r.op_len <= 3,
        r.imm <= 10,
        r.abs <= 8,
        r.ok ==> p + r.op_len <= bytes@.len(),
{
    let n: usize = bytes.len();
    let fail = OpParts { ok: false, op_len: 0, modrm: false, imm: 0, abs: 0 };
    let op: u8 = byte_at(bytes, p);
    if op == 0x0F {
        if n - p < 2 {
            return fail;
        }
        let op2: u8 = byte_at(bytes, p + 1);
        if op2 == 0x38 {
            // Three-byte opcodes behind 0F 38
            if n - p < 3 {
                return fail;
            }
            let op3: u8 = byte_at(bytes, p + 2);
            if !three_38_valid_ex(op3) {
                return fail;
            }
            OpParts { ok: true, op_len: 3, modrm: true, imm: 0, abs: 0 }
        } else if op2 == 0x3A {
            // Three-byte opcodes behind 0F 3A, with one extra immediate byte
            if n - p < 3 {
                return fail;
            }
            let op3: u8 = byte_at(bytes, p + 2);
            if !three_3a_valid_ex(op3) {
                return fail;
            }
            OpParts { ok: true, op_len: 3, modrm: true, imm: 1, abs: 0 }
        } else {
            // Two-byte opcodes
            if two_invalid_ex(op2) {
                return fail;
            }
            let mut imm: usize = 0;
            if two_has_imm8_ex(op2) {
                imm = imm + 1;
            }
            if two_has_immz_ex(op2) {
                imm = imm + ddef;
            }
            if two_has_extra2_ex(op2) {
                imm = imm + 2;
            }
            OpParts { ok: true, op_len: 2, modrm: two_has_modrm_ex(op2), imm, abs: 0 }
        }
    } else {
        // One-byte opcodes
        let mut imm: usize = 0;
        if op == 0xF6 || op == 0xF7 {
            // The immediate of the test group depends on the reg field of
            // the addressing byte, which must be peeked without consuming.
            if n - p < 2 {
                return fail;
            }
            let peek: u8 = byte_at(bytes, p + 1);
            if peek & 0x38 == 0 {
                imm = imm + (if op == 0xF7 {
                    ddef
                } else {
                    1
                });
            }
        }
        if one_has_imm8_ex(op) {
            imm = imm + 1;
        }
        if one_has_imm16_ex(op) {
            imm = imm + 2;
        }
        if one_has_immz_ex(op) {
            imm = imm + ddef;
        }
        let abs: usize = if one_is_movabs_ex(op) {
            adef
        } else {
            0
        };
        OpParts { ok: true, op_len: 1, modrm: one_has_modrm_ex(op), imm, abs }
    }
}

/// Executable counterpart of [`crate::model::ModrmScan`].
struct ModrmParts {
    ok: bool,
    size: usize,
    disp: usize,
}

/// Reads the addressing byte at index `i`, as [`modrm_scan`] states it.
fn scan_modrm(bytes: &[u8], i: usize, ddisp: usize) -> (r: ModrmParts)
    requires
        ddisp <= 4,
    ensures
        ({
            let ms = modrm_scan(bytes@, i as int, ddisp as int);
            r.ok == ms.ok && (ms.ok ==> r.size == ms.size && r.disp == ms.disp)
        }),
        r.size <= 2,
        r.disp <= 8,
        r.ok ==> i + r.size <= bytes@.len(),
{
    let n: usize = bytes.len();
    if i >= n {
        return ModrmParts { ok: false, size: 0, disp: 0 };
    }
    let m: u8 = byte_at(bytes, i);
    if m >= 0xC0 {
        // Register-direct: no displacement
        ModrmParts { ok: true, size: 1, disp: 0 }
    } else {
        let mode_disp: usize = if m < 0x40 {
            0
        } else if m < 0x80 {
            1
        } else {
            ddisp
        };
        if m % 8 == 4 {
            // Scaled-index extension byte
            if n - i < 2 {
                return ModrmParts { ok: false, size: 0, disp: 0 };
            }
            let sib: u8 = byte_at(bytes, i + 1);
            let disp: usize = mode_disp + (if m < 0x40 && sib % 8 == 5 {
                4
            } else {
                0
            });
            ModrmParts { ok: true, size: 2, disp }
        } else {
            let disp: usize = mode_disp + (if m < 0x40 && m % 8 == 5 {
                4
            } else {
                0
            });
            ModrmParts { ok: true, size: 1, disp }
        }
    }
}

/// Computes the instruction length at the start of `bytes`, exactly as the
/// model states it.
pub(crate) fn decode_inst(bytes: &[u8], long: bool) -> (r: InstLen)
    ensures
        r == decode_spec(bytes@, long),
{
    let n: usize = bytes.len();
    let (p, saw66, saw67): (usize, bool, bool) = scan_prefixes(bytes, long);
    if p == n {
        return InstLen::empty();
    }
    let ddef: usize = if saw66 {
        2
    } else {
        4
    };
    let adef: usize = if long {
        if saw67 {
            4
        } else {
            8
        }
    } else {
        if saw67 {
            2
        } else {
            4
        }
    };
    let ddisp: usize = if long {
        4
    } else {
        if saw67 {
            2
        } else {
            4
        }
    };
    proof {
        assert(ddef == ddef_of(bytes@, long));
        assert(adef == adef_of(bytes@, long));
        assert(ddisp == ddisp_of(bytes@, long));
    }
    let ops = scan_op(bytes, p, ddef, adef);
    if !ops.ok {
        return InstLen::empty();
    }
    let mods = if ops.modrm {
        scan_modrm(bytes, p + ops.op_len, ddisp)
    } else {
        ModrmParts { ok: true, size: 0, disp: 0 }
    };
    if !mods.ok {
        return InstLen::empty();
    }
    // Total length and bounds check
    let consumed: usize = p + ops.op_len + mods.size;
    assert(consumed <= n);
    let extra: usize = mods.disp + ops.imm + ops.abs;
    if extra > n - consumed {
        return InstLen::empty();
    }
    let total: usize = consumed + extra;
    if total > 255 {
        return InstLen::empty();
    }
    InstLen {
        total_len: total as u8,
        op_len: ops.op_len as u8,
        arg_len: (mods.size + extra) as u8,
        prefix_len: p as u8,
    }
}

} // verus!
