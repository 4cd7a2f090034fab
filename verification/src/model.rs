//! The decode rules, stated over byte sequences.
//!
//! [`decode_spec`] is the authoritative statement of how an instruction's
//! length is computed: a run of prefixes, then one, two or three opcode
//! bytes, then an optional addressing byte that can pull in a further
//! addressing-extension byte and a displacement, plus the immediate width
//! the opcode implies. The executable engine is proved to return exactly
//! this value. The lemmas at the end state the global guarantees: the
//! reported length never exceeds the input, empty input fails, decoding is
//! deterministic, and an instruction is self-contained in its own bytes.

use vstd::prelude::*;

use crate::inst::InstLen;
use crate::tables::{
    is_prefix_byte, one_has_imm16, one_has_imm8, one_has_immz, one_has_modrm, one_is_movabs,
    three_38_valid, three_3a_valid, two_has_extra2, two_has_imm8, two_has_immz, two_has_modrm,
    two_invalid,
};

verus! {

/// The number of leading prefix bytes of `b` in the given mode.
pub open spec fn prefix_count(b: Seq<u8>, long: bool) -> int
    decreases b.len(),
{
    if b.len() > 0 && is_prefix_byte(b[0], long) {
        1 + prefix_count(b.skip(1), long)
    } else {
        0
    }
}

/// Whether the prefix run of `b` contains the given byte value.
pub open spec fn prefix_run_has(b: Seq<u8>, long: bool, v: u8) -> bool {
    exists|k: int| 0 <= k < prefix_count(b, long) && b[k] == v
}

/// Outcome of classifying the opcode byte(s): how many opcode bytes there
/// are, whether an addressing byte follows, and how many immediate and
/// absolute-address bytes the opcode implies.
pub struct OpScan {
    /// The opcode was recognized and enough bytes were present.
    pub ok: bool,
    /// Number of opcode bytes (1, 2 or 3).
    pub op_len: int,
    /// An addressing (ModRM) byte follows.
    pub modrm: bool,
    /// Immediate bytes implied by the opcode.
    pub imm: int,
    /// Absolute-address bytes implied by the opcode (the `A0`-`A3` moves).
    pub abs: int,
}

/// A failed opcode classification.
pub open spec fn op_scan_fail() -> OpScan {
    OpScan { ok: false, op_len: 0, modrm: false, imm: 0, abs: 0 }
}

/// Classifies the opcode starting at index `p` of `b`.
///
/// `ddef` is the default immediate width (4, or 2 under the operand-size
/// override) and `adef` the width of an absolute address operand.
pub open spec fn op_scan(b: Seq<u8>, p: int, ddef: int, adef: int) -> OpScan {
    let op = b[p];
    if op == 0x0F {
        if p + 1 >= b.len() {
            op_scan_fail()
        } else {
            let op2 = b[p + 1];
            if op2 == 0x38 {
                if p + 2 >= b.len() {
                    op_scan_fail()
                } else if !three_38_valid(b[p + 2]) {
                    op_scan_fail()
                } else {
                    OpScan { ok: true, op_len: 3, modrm: true, imm: 0, abs: 0 }
                }
            } else if op2 == 0x3A {
                if p + 2 >= b.len() {
                    op_scan_fail()
                } else if !three_3a_valid(b[p + 2]) {
                    op_scan_fail()
                } else {
                    OpScan { ok: true, op_len: 3, modrm: true, imm: 1, abs: 0 }
                }
            } else {
                if two_invalid(op2) {
                    op_scan_fail()
                } else {
                    OpScan {
                        ok: true,
                        op_len: 2,
                        modrm: two_has_modrm(op2),
                        imm: (if two_has_imm8(op2) {
                            1int
                        } else {
                            0int
                        }) + (if two_has_immz(op2) {
                            ddef
                        } else {
                            0int
                        }) + (if two_has_extra2(op2) {
                            2int
                        } else {
                            0int
                        }),
                        abs: 0,
                    }
                }
            }
        }
    } else {
        if (op == 0xF6 || op == 0xF7) && p + 1 >= b.len() {
            op_scan_fail()
        } else {
            let test_imm: int = if (op == 0xF6 || op == 0xF7) && b[p + 1] & 0x38 == 0 {
                if op == 0xF7 {
                    ddef
                } else {
                    1
                }
            } else {
                0
            };
            OpScan {
                ok: true,
                op_len: 1,
                modrm: one_has_modrm(op),
                imm: test_imm + (if one_has_imm8(op) {
                    1int
                } else {
                    0int
                }) + (if one_has_imm16(op) {
                    2int
                } else {
                    0int
                }) + (if one_has_immz(op) {
                    ddef
                } else {
                    0int
                }),
                abs: if one_is_movabs(op) {
                    adef
                } else {
                    0
                },
            }
        }
    }
}

/// Outcome of reading the addressing byte(s): how many addressing bytes
/// there are (ModRM, plus the scaled-index extension when present) and how
/// wide the displacement is.
pub struct ModrmScan {
    /// Enough bytes were present.
    pub ok: bool,
    /// Number of addressing bytes (1 or 2).
    pub size: int,
    /// Displacement bytes implied by the addressing mode.
    pub disp: int,
}

/// A failed addressing-byte read.
pub open spec fn modrm_scan_fail() -> ModrmScan {
    ModrmScan { ok: false, size: 0, disp: 0 }
}

/// Reads the addressing byte at index `i` of `b`.
///
/// The top two bits select the mode: register-direct (`C0` and up) has no
/// displacement; mode 1 a one-byte displacement; mode 2 a displacement of
/// `ddisp` bytes. A base/index field of 4 pulls in the scaled-index
/// extension byte; the no-displacement mode with a base field of 5 (in
/// either byte) adds a four-byte displacement.
pub open spec fn modrm_scan(b: Seq<u8>, i: int, ddisp: int) -> ModrmScan {
    if i >= b.len() {
        modrm_scan_fail()
    } else {
        let m = b[i];
        if m >= 0xC0 {
            ModrmScan { ok: true, size: 1, disp: 0 }
        } else {
            let mode_disp: int = if m < 0x40 {
                0
            } else if m < 0x80 {
                1
            } else {
                ddisp
            };
            if m % 8 == 4 {
                if i + 1 >= b.len() {
                    modrm_scan_fail()
                } else {
                    ModrmScan {
                        ok: true,
                        size: 2,
                        disp: mode_disp + (if m < 0x40 && b[i + 1] % 8 == 5 {
                            4int
                        } else {
                            0int
                        }),
                    }
                }
            } else {
                ModrmScan {
                    ok: true,
                    size: 1,
                    disp: mode_disp + (if m < 0x40 && m % 8 == 5 {
                        4int
                    } else {
                        0int
                    }),
                }
            }
        }
    }
}

/// The default immediate width: 4 bytes, or 2 under the operand-size
/// override prefix (`66`).
pub open spec fn ddef_of(b: Seq<u8>, long: bool) -> int {
    if prefix_run_has(b, long, 0x66) {
        2
    } else {
        4
    }
}

/// The width of an absolute address operand: sized by the address-size
/// default (4 bytes in 32-bit mode, 8 in 64-bit mode), halved by the
/// address-size override prefix (`67`).
pub open spec fn adef_of(b: Seq<u8>, long: bool) -> int {
    if long {
        if prefix_run_has(b, long, 0x67) {
            4
        } else {
            8
        }
    } else {
        if prefix_run_has(b, long, 0x67) {
            2
        } else {
            4
        }
    }
}

/// The default-width displacement of addressing mode 2: 4 bytes, shrunk to
/// 2 by the address-size override in 32-bit mode; always 4 in 64-bit mode.
pub open spec fn ddisp_of(b: Seq<u8>, long: bool) -> int {
    if long {
        4
    } else {
        if prefix_run_has(b, long, 0x67) {
            2
        } else {
            4
        }
    }
}

/// The length of the instruction at the start of `b`, with its breakdown
/// into prefix, opcode and argument bytes.
///
/// Returns the all-zero sentinel when the input is truncated
/// mid-instruction, when a byte is classified invalid for its position, or
/// when the computed total does not fit the byte-sized breakdown.
pub open spec fn decode_spec(b: Seq<u8>, long: bool) -> InstLen {
    let p = prefix_count(b, long);
    if p >= b.len() {
        InstLen::empty_spec()
    } else {
        let os = op_scan(b, p, ddef_of(b, long), adef_of(b, long));
        if !os.ok {
            InstLen::empty_spec()
        } else {
            let ms = if os.modrm {
                modrm_scan(b, p + os.op_len, ddisp_of(b, long))
            } else {
                ModrmScan { ok: true, size: 0, disp: 0 }
            };
            if !ms.ok {
                InstLen::empty_spec()
            } else {
                let arg = ms.size + ms.disp + os.imm + os.abs;
                let total = p + os.op_len + arg;
                if total <= b.len() && total <= 255 {
                    InstLen {
                        total_len: total as u8,
                        op_len: os.op_len as u8,
                        arg_len: arg as u8,
                        prefix_len: p as u8,
                    }
                } else {
                    InstLen::empty_spec()
                }
            }
        }
    }
}

/// The reported total length, as a plain integer.
pub open spec fn total_spec(b: Seq<u8>, long: bool) -> int {
    decode_spec(b, long).total_len as int
}

/// The prefix run never extends past the input.
pub proof fn lemma_prefix_count_bounds(b: Seq<u8>, long: bool)
    ensures
        0 <= prefix_count(b, long) <= b.len(),
    decreases b.len(),
{
    if b.len() > 0 && is_prefix_byte(b[0], long) {
        lemma_prefix_count_bounds(b.skip(1), long);
    }
}

/// The prefix count is the index where the prefix run stops.
pub proof fn lemma_prefix_count_is(b: Seq<u8>, long: bool, i: int)
    requires
        0 <= i <= b.len(),
        forall|k: int| 0 <= k < i ==> is_prefix_byte(b[k], long),
        i == b.len() || !is_prefix_byte(b[i], long),
    ensures
        prefix_count(b, long) == i,
    decreases i,
{
    if i > 0 {
        assert(is_prefix_byte(b[0], long));
        let t = b.skip(1);
        assert forall|k: int| 0 <= k < i - 1 implies is_prefix_byte(t[k], long) by {
            assert(t[k] == b[k + 1]);
        }
        if i - 1 < t.len() {
            assert(t[i - 1] == b[i]);
        }
        lemma_prefix_count_is(t, long, i - 1);
    }
}

/// Every byte of the prefix run is a prefix, and the byte after it (if
/// any) is not.
pub proof fn lemma_prefix_count_stops(b: Seq<u8>, long: bool)
    ensures
        0 <= prefix_count(b, long) <= b.len(),
        forall|k: int| 0 <= k < prefix_count(b, long) ==> is_prefix_byte(b[k], long),
        prefix_count(b, long) < b.len() ==> !is_prefix_byte(b[prefix_count(b, long)], long),
    decreases b.len(),
{
    if b.len() > 0 && is_prefix_byte(b[0], long) {
        let t = b.skip(1);
        lemma_prefix_count_stops(t, long);
        let pc = prefix_count(b, long);
        assert(pc == 1 + prefix_count(t, long));
        assert forall|k: int| 0 <= k < pc implies is_prefix_byte(b[k], long) by {
            if k > 0 {
                assert(t[k - 1] == b[k]);
            }
        }
        if pc < b.len() {
            assert(t[pc - 1] == b[pc]);
        }
    }
}

/// The reported length never exceeds the input, and the breakdown parts
/// sum to the total.
pub proof fn lemma_decode_len_bound(b: Seq<u8>, long: bool)
    ensures
        0 <= total_spec(b, long) <= b.len(),
        decode_spec(b, long).wf(),
{
    lemma_prefix_count_bounds(b, long);
}

/// Decoding an empty input yields the failure sentinel.
pub proof fn lemma_decode_empty(long: bool)
    ensures
        decode_spec(Seq::<u8>::empty(), long) == InstLen::empty_spec(),
{
}

/// Decoding is deterministic: the outcome depends on the bytes alone, so
/// equal inputs decode equally.
pub proof fn lemma_decode_deterministic(b1: Seq<u8>, b2: Seq<u8>, long: bool)
    requires
        b1 == b2,
    ensures
        decode_spec(b1, long) == decode_spec(b2, long),
{
}

/// An instruction is self-contained: when decoding reports a positive
/// length, truncating the input to exactly that length decodes to the same
/// outcome — the engine never depends on bytes beyond the instruction it
/// reports.
pub proof fn lemma_decode_self_contained(b: Seq<u8>, long: bool)
    requires
        total_spec(b, long) > 0,
    ensures
        decode_spec(b.take(total_spec(b, long)), long) == decode_spec(b, long),
{
    lemma_decode_len_bound(b, long);
    lemma_prefix_count_stops(b, long);
    let l = total_spec(b, long);
    let t = b.take(l);
    assert(t.len() == l);
    assert(forall|i: int| 0 <= i < l ==> t[i] == b[i]);
    let p = prefix_count(b, long);
    // decoding succeeded, so the run of prefixes stops before the end
    assert(p < b.len());
    let dd = ddef_of(b, long);
    let ad = adef_of(b, long);
    let di = ddisp_of(b, long);
    let os = op_scan(b, p, dd, ad);
    let ms = if os.modrm {
        modrm_scan(b, p + os.op_len, di)
    } else {
        ModrmScan { ok: true, size: 0, disp: 0 }
    };
    assert(os.ok && ms.ok);
    assert(l == p + os.op_len + ms.size + ms.disp + os.imm + os.abs);
    // the header — prefixes, opcode bytes and addressing bytes — lies
    // within the reported length, so the truncation keeps every byte the
    // decode reads
    assert(1 <= os.op_len <= 3);
    assert(os.imm >= 0 && os.abs >= 0 && ms.disp >= 0 && ms.size >= 0);
    assert(p + os.op_len + ms.size <= l);
    assert(p < l);
    // the truncation has the same prefix run
    assert(forall|k: int| 0 <= k < p ==> is_prefix_byte(t[k], long));
    assert(t[p] == b[p]);
    lemma_prefix_count_is(t, long, p);
    assert(prefix_count(t, long) == p);
    // and the same override prefixes
    assert(prefix_run_has(t, long, 0x66) == prefix_run_has(b, long, 0x66)) by {
        if prefix_run_has(b, long, 0x66) {
            let k = choose|k: int| 0 <= k < prefix_count(b, long) && b[k] == 0x66;
            assert(t[k] == 0x66);
        }
        if prefix_run_has(t, long, 0x66) {
            let k = choose|k: int| 0 <= k < prefix_count(t, long) && t[k] == 0x66;
            assert(b[k] == 0x66);
        }
    }
    assert(prefix_run_has(t, long, 0x67) == prefix_run_has(b, long, 0x67)) by {
        if prefix_run_has(b, long, 0x67) {
            let k = choose|k: int| 0 <= k < prefix_count(b, long) && b[k] == 0x67;
            assert(t[k] == 0x67);
        }
        if prefix_run_has(t, long, 0x67) {
            let k = choose|k: int| 0 <= k < prefix_count(t, long) && t[k] == 0x67;
            assert(b[k] == 0x67);
        }
    }
    assert(ddef_of(t, long) == dd && adef_of(t, long) == ad && ddisp_of(t, long) == di);
    // the opcode bytes and the addressing bytes agree
    assert(p + 1 < l ==> t[p + 1] == b[p + 1]);
    assert(p + 2 < l ==> t[p + 2] == b[p + 2]);
    if os.modrm {
        assert(ms.size >= 1);
        let mi = p + os.op_len;
        assert(mi < l && t[mi] == b[mi]);
        assert(mi + 1 < l ==> t[mi + 1] == b[mi + 1]);
        assert(modrm_scan(t, mi, di) == ms);
    }
    assert(op_scan(t, p, dd, ad) == os);
    assert(decode_spec(t, long) == decode_spec(b, long));
}

/// The lengths of the instructions decoded one after another from the
/// start of `b`, stopping at the first failure.
pub open spec fn inst_lens(b: Seq<u8>, long: bool) -> Seq<int>
    decreases b.len(),
{
    let l = total_spec(b, long);
    if 1 <= l <= b.len() {
        seq![l].add(inst_lens(b.skip(l), long))
    } else {
        Seq::empty()
    }
}

/// The sum of a sequence of integers.
pub open spec fn sum_lens(s: Seq<int>) -> int
    decreases s.len(),
{
    if s.len() == 0 {
        0
    } else {
        s[0] + sum_lens(s.skip(1))
    }
}

/// The instructions decoded one after another from the start of `b`, with
/// the virtual address of each: exactly what the iterator yields from
/// starting address `va`.
pub open spec fn decode_trace(b: Seq<u8>, va: int, long: bool) -> Seq<(Seq<u8>, int)>
    decreases b.len(),
{
    let l = total_spec(b, long);
    if 1 <= l <= b.len() {
        seq![(b.take(l), va)].add(decode_trace(b.skip(l), va + l, long))
    } else {
        Seq::empty()
    }
}

/// The lengths decoded one after another sum to no more than the input
/// length: iteration never claims more bytes than the buffer holds.
pub proof fn lemma_inst_lens_sum(b: Seq<u8>, long: bool)
    ensures
        0 <= sum_lens(inst_lens(b, long)) <= b.len(),
    decreases b.len(),
{
    let l = total_spec(b, long);
    if 1 <= l <= b.len() {
        lemma_inst_lens_sum(b.skip(l), long);
        let s = seq![l].add(inst_lens(b.skip(l), long));
        assert(s.skip(1) =~= inst_lens(b.skip(l), long));
        assert(sum_lens(s) == l + sum_lens(inst_lens(b.skip(l), long)));
    }
}

/// The trace and the decoded lengths walk in step.
pub proof fn lemma_trace_len(b: Seq<u8>, va: int, long: bool)
    ensures
        decode_trace(b, va, long).len() == inst_lens(b, long).len(),
    decreases b.len(),
{
    let l = total_spec(b, long);
    if 1 <= l <= b.len() {
        lemma_trace_len(b.skip(l), va + l, long);
    }
}

/// Iterator soundness: the bytes of the nth decoded instruction span
/// exactly the nth decoded length, and its address is the starting address
/// plus the sum of all lengths decoded before it.
pub proof fn lemma_trace_addresses(b: Seq<u8>, va: int, long: bool, n: int)
    requires
        0 <= n < decode_trace(b, va, long).len(),
    ensures
        decode_trace(b, va, long)[n].0.len() == inst_lens(b, long)[n],
        decode_trace(b, va, long)[n].1 == va + sum_lens(inst_lens(b, long).take(n)),
    decreases n,
{
    lemma_trace_len(b, va, long);
    let l = total_spec(b, long);
    assert(1 <= l <= b.len());
    let rest = b.skip(l);
    let lens = inst_lens(b, long);
    let lens_rest = inst_lens(rest, long);
    assert(lens == seq![l].add(lens_rest));
    if n == 0 {
        assert(lens.take(0) =~= Seq::<int>::empty());
    } else {
        lemma_trace_addresses(rest, va + l, long, n - 1);
        assert(decode_trace(b, va, long)[n] == decode_trace(rest, va + l, long)[n - 1]);
        assert(lens[n] == lens_rest[n - 1]);
        let hd = lens.take(n);
        assert(hd.skip(1) =~= lens_rest.take(n - 1));
        assert(hd[0] == l);
        assert(sum_lens(hd) == l + sum_lens(lens_rest.take(n - 1)));
    }
}

} // verus!

