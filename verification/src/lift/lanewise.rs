//! What packed integer instructions emit, by their names.
use crate::insn::{Insn, Operand};
use crate::ir::{IrOp, PackedBinOp, VLogicOp, Val};
use crate::lift::emit::Emission;
use crate::lift::table::PackedForm;
use crate::lift::{dispatch, operand, table, vector, vpacked, CpuMode};
use crate::mnemonic as mn;
use crate::op_kind;
use vstd::prelude::*;

verus! {

broadcast use operand::group_failed;

// --- bitwise operations ---

/// The destination and the source go through `op`, and the result stays in the destination.
#[verifier::opaque]
pub open spec fn combines(insn: &Insn, s: Emission, s1: Emission, op: VLogicOp) -> bool {
    match vector::xmm(insn.op0) {
        None => !s1.ok,
        Some(d) => vector::by_source(
            insn,
            insn.op1,
            vector::xmm(insn.op1),
            s,
            s1,
            |b: u8| seq![IrOp::VLogic { dst: d, a: d, b, op }],
            |addr: Val| seq![IrOp::VLogicM { dst: d, addr, op }],
        ),
    }
}

/// The two sources go through `op`, 256 bits or 128; then the bits above are cleared.
#[verifier::opaque]
pub open spec fn combines_apart(insn: &Insn, s: Emission, s1: Emission, op: VLogicOp) -> bool {
    match vector::ymm(insn.op0) {
        Some(d) => match vector::ymm(insn.op1) {
            Some(a) => vector::by_source(
                insn,
                insn.op2,
                vector::ymm(insn.op2),
                s,
                s1,
                |b: u8| seq![IrOp::VLogic256 { dst: d, a, b, op }],
                |addr: Val| seq![IrOp::VLogic256M { dst: d, a, addr, op }],
            ),
            None => !s1.ok,
        },
        None => match (vector::xmm(insn.op0), vector::xmm(insn.op1)) {
            (Some(d), Some(a)) => vector::by_source(
                insn,
                insn.op2,
                vector::xmm(insn.op2),
                s,
                s1,
                |b: u8| seq![
                    IrOp::VLogic { dst: d, a, b, op },
                    IrOp::VZeroUpper { reg: d },
                ],
                |addr: Val| vector::in_place(d, a, IrOp::VLogicM { dst: d, addr, op }),
            ),
            _ => !s1.ok,
        },
    }
}

/// The two sources go through `op` at any width; under a write mask only the chosen elements
/// of `elem` bytes do, and the sources are registers.
#[verifier::opaque]
pub open spec fn combines_masked(
    insn: &Insn,
    s: Emission,
    s1: Emission,
    op: VLogicOp,
    elem: u8,
) -> bool {
    let bytes = vector::wide(insn.op0);
    match (vector::vector(insn.op0), vector::vector(insn.op1)) {
        (Some(dst), Some(a)) => match vector::write_mask(insn) {
            Some(k) => match vector::vector(insn.op2) {
                Some(b) => vector::extends(
                    s,
                    s1,
                    seq![
                        IrOp::VMaskedLogic {
                            dst,
                            a,
                            b,
                            op,
                            k,
                            elem,
                            zeroing: insn.zeroing,
                            bytes,
                        },
                    ],
                ),
                None => !s1.ok,
            },
            None => vector::by_source(
                insn,
                insn.op2,
                vector::vector(insn.op2),
                s,
                s1,
                |b: u8| seq![IrOp::VLogicWide { dst, a, b, op, bytes }],
                |addr: Val| seq![IrOp::VLogicWideM { dst, a, addr, op, bytes }],
            ),
        },
        _ => !s1.ok,
    }
}

proof fn lemma_combines(insn: &Insn, op: VLogicOp, elem: u8, s: Emission)
    ensures
        combines(insn, s, vpacked::vlogic(insn, op, s), op),
        combines_apart(insn, s, vpacked::vlogic_avx(insn, op, s), op),
        combines_masked(insn, s, vpacked::evex_vlogic(insn, op, elem, s), op, elem),
{
    reveal(combines);
    reveal(combines_apart);
    reveal(combines_masked);
    reveal(vpacked::vlogic);
    reveal(vpacked::vlogic_vex);
    reveal(vpacked::vlogic_avx);
    reveal(vpacked::evex_vlogic);
}

// --- arithmetic and comparisons by lane ---

/// The lanes of destination and source go through `op`, and the result stays in the
/// destination.
#[verifier::opaque]
pub open spec fn computes(
    insn: &Insn,
    s: Emission,
    s1: Emission,
    lane: u8,
    op: PackedBinOp,
) -> bool {
    match vector::xmm(insn.op0) {
        None => !s1.ok,
        Some(d) => vector::by_source(
            insn,
            insn.op1,
            vector::xmm(insn.op1),
            s,
            s1,
            |b: u8| seq![IrOp::VPackedBin { dst: d, a: d, b, lane, op }],
            |addr: Val| seq![IrOp::VPackedBinM { dst: d, addr, lane, op }],
        ),
    }
}

/// 128 bits of the two sources, lane by lane; the bits above are cleared.
pub open spec fn computes_short(
    insn: &Insn,
    s: Emission,
    s1: Emission,
    lane: u8,
    op: PackedBinOp,
) -> bool {
    match (vector::xmm(insn.op0), vector::xmm(insn.op1)) {
        (Some(d), Some(a)) => vector::by_source(
            insn,
            insn.op2,
            vector::xmm(insn.op2),
            s,
            s1,
            |b: u8| seq![
                IrOp::VPackedBin { dst: d, a, b, lane, op },
                IrOp::VZeroUpper { reg: d },
            ],
            |addr: Val| vector::in_place(d, a, IrOp::VPackedBinM { dst: d, addr, lane, op }),
        ),
        _ => !s1.ok,
    }
}

/// The lanes of the two sources go through `op`, at any width; under a write mask only the
/// chosen lanes do, and the sources are registers.
#[verifier::opaque]
pub open spec fn computes_apart(
    insn: &Insn,
    s: Emission,
    s1: Emission,
    lane: u8,
    op: PackedBinOp,
) -> bool {
    match vector::write_mask(insn) {
        Some(k) => match (
            vector::vector(insn.op0),
            vector::vector(insn.op1),
            vector::vector(insn.op2),
        ) {
            (Some(dst), Some(a), Some(b)) => vector::extends(
                s,
                s1,
                seq![
                    IrOp::VMaskedPacked {
                        dst,
                        a,
                        b,
                        op,
                        k,
                        elem: lane,
                        zeroing: insn.zeroing,
                        bytes: vector::wide(insn.op0),
                    },
                ],
            ),
            _ => !s1.ok,
        },
        None => match (vector::zmm(insn.op0), vector::ymm(insn.op0)) {
            (Some(dst), _) => match vector::zmm(insn.op1) {
                Some(a) => if vector::masked(insn) {
                    !s1.ok
                } else {
                    vector::by_source(
                        insn,
                        insn.op2,
                        vector::zmm(insn.op2),
                        s,
                        s1,
                        |b: u8| seq![IrOp::VPackedWide { dst, a, b, lane, op, bytes: 64 }],
                        |addr: Val| seq![
                            IrOp::VPackedWideM { dst, a, addr, lane, op, bytes: 64 },
                        ],
                    )
                },
                None => !s1.ok,
            },
            (None, Some(dst)) => match vector::ymm(insn.op1) {
                Some(a) => vector::by_source(
                    insn,
                    insn.op2,
                    vector::ymm(insn.op2),
                    s,
                    s1,
                    |b: u8| seq![IrOp::VPackedBin256 { dst, a, b, lane, op }],
                    |addr: Val| seq![IrOp::VPackedBin256M { dst, a, addr, lane, op }],
                ),
                None => !s1.ok,
            },
            (None, None) => computes_short(insn, s, s1, lane, op),
        },
    }
}

/// Only 128 bits without a mask are supported.
#[verifier::opaque]
pub open spec fn computes_128(
    insn: &Insn,
    s: Emission,
    s1: Emission,
    lane: u8,
    op: PackedBinOp,
) -> bool {
    if vector::masked(insn) || vector::ymm(insn.op0) is Some || vector::zmm(insn.op0) is Some {
        !s1.ok
    } else {
        computes_short(insn, s, s1, lane, op)
    }
}

pub proof fn lemma_computes(insn: &Insn, lane: u8, op: PackedBinOp, s: Emission)
    ensures
        computes(insn, s, vpacked::vpacked_bin(insn, lane, op, s), lane, op),
        computes_apart(insn, s, vpacked::vpacked_bin_avx(insn, lane, op, s), lane, op),
        computes_128(insn, s, vpacked::evex_packed_bin_128(insn, lane, op, s), lane, op),
{
    reveal(computes);
    reveal(computes_apart);
    reveal(computes_128);
    reveal(vpacked::vpacked_bin);
    reveal(vpacked::vpacked_bin_vex);
    reveal(vpacked::vpacked_bin_avx);
    reveal(vpacked::evex_packed_bin_128);
}

// --- shifts ---

pub open spec fn immediate(o: Operand) -> bool {
    op_kind::IMMEDIATE8 <= o.kind && o.kind <= op_kind::IMMEDIATE32TO64
}

/// Each lane of the destination is shifted by the immediate; another count is refused.
#[verifier::opaque]
pub open spec fn shifts(
    insn: &Insn,
    s: Emission,
    s1: Emission,
    lane: u8,
    right: bool,
    arith: bool,
) -> bool {
    match vector::xmm(insn.op0) {
        Some(d) => if immediate(insn.op1) {
            let imm = vector::byte(insn.op1);
            vector::extends(
                s,
                s1,
                seq![IrOp::VPackedShift { dst: d, a: d, imm, lane, right, arith }],
            )
        } else {
            !s1.ok
        },
        None => !s1.ok,
    }
}

/// Each lane of the source, shifted by the immediate, goes into the destination.
#[verifier::opaque]
pub open spec fn shifts_apart(
    insn: &Insn,
    s: Emission,
    s1: Emission,
    lane: u8,
    right: bool,
    arith: bool,
) -> bool {
    let imm = vector::byte(insn.op2);
    let short = vector::xmm(insn.op1) is Some || vector::ymm(insn.op1) is Some;
    match (vector::xmm(insn.op0), vector::ymm(insn.op0)) {
        (Some(dst), _) => if short && immediate(insn.op2) {
            let a = vector::vector(insn.op1)->0;
            vector::extends(
                s,
                s1,
                seq![
                    IrOp::VPackedShift { dst, a, imm, lane, right, arith },
                    IrOp::VZeroUpper { reg: dst },
                ],
            )
        } else {
            !s1.ok
        },
        (None, Some(dst)) => if short && immediate(insn.op2) {
            let a = vector::vector(insn.op1)->0;
            vector::extends(
                s,
                s1,
                seq![IrOp::VPackedShift256 { dst, a, imm, lane, right, arith }],
            )
        } else {
            !s1.ok
        },
        (None, None) => !s1.ok,
    }
}

/// The whole destination is shifted by bytes.
#[verifier::opaque]
pub open spec fn shifts_bytes(insn: &Insn, s: Emission, s1: Emission, right: bool) -> bool {
    let bytes = vector::byte(insn.op1);
    match vector::xmm(insn.op0) {
        Some(d) => vector::extends(s, s1, seq![IrOp::VByteShift { dst: d, a: d, bytes, right }]),
        None => !s1.ok,
    }
}

/// The whole source, shifted by bytes, goes into the destination.
#[verifier::opaque]
pub open spec fn shifts_bytes_apart(
    insn: &Insn,
    s: Emission,
    s1: Emission,
    right: bool,
) -> bool {
    let bytes = vector::byte(insn.op2);
    match (vector::xmm(insn.op0), vector::xmm(insn.op1)) {
        (Some(dst), Some(a)) => vector::extends(
            s,
            s1,
            seq![IrOp::VByteShift { dst, a, bytes, right }, IrOp::VZeroUpper { reg: dst }],
        ),
        _ => !s1.ok,
    }
}

proof fn lemma_shifts(insn: &Insn, lane: u8, right: bool, arith: bool, s: Emission)
    ensures
        shifts(
            insn,
            s,
            vpacked::vpacked_shift(insn, lane, right, arith, s),
            lane,
            right,
            arith,
        ),
        shifts_apart(
            insn,
            s,
            vpacked::vpacked_shift_avx(insn, lane, right, arith, s),
            lane,
            right,
            arith,
        ),
        shifts_bytes(insn, s, vpacked::byteshift(insn, right, s), right),
        shifts_bytes_apart(insn, s, vpacked::byteshift_avx(insn, right, s), right),
{
    reveal(shifts);
    reveal(shifts_apart);
    reveal(shifts_bytes);
    reveal(shifts_bytes_apart);
    reveal(vpacked::vpacked_shift);
    reveal(vpacked::vpacked_shift_avx);
    reveal(vpacked::byteshift);
    reveal(vpacked::byteshift_avx);
}

// --- the rest ---

/// Each lane of the destination is kept, negated or cleared by the sign of the source's.
#[verifier::opaque]
pub open spec fn signs(insn: &Insn, s: Emission, s1: Emission, lane: u8) -> bool {
    match vector::xmm(insn.op0) {
        None => !s1.ok,
        Some(d) => vector::by_source(
            insn,
            insn.op1,
            vector::xmm(insn.op1),
            s,
            s1,
            |b: u8| seq![IrOp::VPsign { dst: d, a: d, b, lane }],
            |addr: Val| seq![IrOp::VPsignM { dst: d, a: d, addr, lane }],
        ),
    }
}

/// Each lane of the first source is kept, negated or cleared by the sign of the second's.
#[verifier::opaque]
pub open spec fn signs_apart(insn: &Insn, s: Emission, s1: Emission, lane: u8) -> bool {
    match (vector::xmm(insn.op0), vector::xmm(insn.op1)) {
        (Some(d), Some(a)) => vector::by_source(
            insn,
            insn.op2,
            vector::xmm(insn.op2),
            s,
            s1,
            |b: u8| seq![IrOp::VPsign { dst: d, a, b, lane }, IrOp::VZeroUpper { reg: d }],
            |addr: Val| seq![
                IrOp::VPsignM { dst: d, a, addr, lane },
                IrOp::VZeroUpper { reg: d },
            ],
        ),
        _ => !s1.ok,
    }
}

/// The magnitude of each lane.
#[verifier::opaque]
pub open spec fn magnitudes(insn: &Insn, s: Emission, s1: Emission, elem: u8) -> bool {
    match (vector::vector(insn.op0), vector::vector(insn.op1)) {
        (Some(dst), Some(src)) => vector::extends(
            s,
            s1,
            seq![
                IrOp::VPAbs {
                    dst,
                    src,
                    elem,
                    dst_width: vector::wide(insn.op0),
                    writemask: vector::write_mask(insn),
                    zeroing: insn.zeroing,
                },
            ],
        ),
        _ => !s1.ok,
    }
}

/// The number of ones in each lane.
#[verifier::opaque]
pub open spec fn counts(insn: &Insn, s: Emission, s1: Emission, lane: u8) -> bool {
    let bytes = vector::wide(insn.op0);
    if vector::masked(insn) {
        !s1.ok
    } else {
        match vector::vector(insn.op0) {
            None => !s1.ok,
            Some(dst) => vector::by_source(
                insn,
                insn.op1,
                vector::vector(insn.op1),
                s,
                s1,
                |a: u8| seq![IrOp::VPopcnt { dst, a, lane, bytes }],
                |addr: Val| seq![IrOp::VPopcntM { dst, addr, lane, bytes }],
            ),
        }
    }
}

/// Each bit by a table of eight entries, from the bits of destination, first and second source.
#[verifier::opaque]
pub open spec fn looks_up(insn: &Insn, s: Emission, s1: Emission) -> bool {
    let bytes = vector::wide(insn.op0);
    let imm = vector::byte(insn.op3);
    if vector::masked(insn) {
        !s1.ok
    } else {
        match (vector::vector(insn.op0), vector::vector(insn.op1)) {
            (Some(dst), Some(b)) => vector::by_source(
                insn,
                insn.op2,
                vector::vector(insn.op2),
                s,
                s1,
                |c: u8| seq![IrOp::VPTernlog { dst, b, c, imm, bytes }],
                |addr: Val| seq![IrOp::VPTernlogM { dst, b, addr, imm, bytes }],
            ),
            _ => !s1.ok,
        }
    }
}

/// The flags tell what two registers have in common.
#[verifier::opaque]
pub open spec fn tests(insn: &Insn, s: Emission, s1: Emission) -> bool {
    match (
        vector::ymm(insn.op0),
        vector::ymm(insn.op1),
        vector::xmm(insn.op0),
        vector::xmm(insn.op1),
    ) {
        (Some(a), Some(b), _, _) => vector::extends(
            s,
            s1,
            seq![IrOp::VPtest { a, b, w256: true }],
        ),
        (None, _, Some(a), Some(b)) => vector::extends(
            s,
            s1,
            seq![IrOp::VPtest { a, b, w256: false }],
        ),
        _ => !s1.ok,
    }
}

/// The index of a match in two strings of bytes or words, of explicit or implicit length.
#[verifier::opaque]
pub open spec fn searches(insn: &Insn, s: Emission, s1: Emission, explicit: bool) -> bool {
    let imm = vector::byte(insn.op2);
    match (vector::xmm(insn.op0), vector::xmm(insn.op1)) {
        (Some(a), Some(b)) => vector::extends(
            s,
            s1,
            seq![IrOp::VPcmpStr { a, b, imm, explicit }],
        ),
        (Some(a), None) => {
            let (s2, addr) = operand::address(insn, s);
            vector::extends(s2, s1, seq![IrOp::VPcmpStrM { a, addr, imm, explicit }])
        },
        _ => !s1.ok,
    }
}

proof fn lemma_signs(insn: &Insn, lane: u8, s: Emission)
    ensures
        signs(insn, s, vpacked::psign(insn, lane, s), lane),
        signs_apart(insn, s, vpacked::vpsign(insn, lane, s), lane),
        magnitudes(insn, s, vpacked::vpabs(insn, lane, s), lane),
        counts(insn, s, vpacked::vpopcnt(insn, lane, s), lane),
{
    reveal(signs);
    reveal(signs_apart);
    reveal(magnitudes);
    reveal(counts);
    reveal(vpacked::psign);
    reveal(vpacked::vpsign);
    reveal(vpacked::vpabs);
    reveal(vpacked::vpopcnt);
}

proof fn lemma_tests(insn: &Insn, explicit: bool, s: Emission)
    ensures
        looks_up(insn, s, vpacked::vpternlog(insn, s)),
        tests(insn, s, vpacked::ptest(insn, s)),
        searches(insn, s, vpacked::pcmpstr_idx(insn, explicit, s), explicit),
{
    reveal(looks_up);
    reveal(tests);
    reveal(searches);
    reveal(vpacked::vpternlog);
    reveal(vpacked::ptest);
    reveal(vpacked::pcmpstr_idx);
}

// --- by name ---

/// The form of an instruction says what is emitted.
#[verifier::opaque]
spec fn formed(form: PackedForm, insn: &Insn, s: Emission, s1: Emission) -> bool {
    match form {
        PackedForm::Logic(op) => combines(insn, s, s1, op),
        PackedForm::LogicAvx(op) => combines_apart(insn, s, s1, op),
        PackedForm::LogicEvex(op, elem) => combines_masked(insn, s, s1, op, elem),
        PackedForm::Bin(lane, op) => computes(insn, s, s1, lane, op),
        PackedForm::BinAvx(lane, op) => computes_apart(insn, s, s1, lane, op),
        PackedForm::BinEvex128(lane, op) => computes_128(insn, s, s1, lane, op),
        PackedForm::Shift(lane, right, arith) => shifts(insn, s, s1, lane, right, arith),
        PackedForm::ShiftAvx(lane, right, arith) => shifts_apart(
            insn,
            s,
            s1,
            lane,
            right,
            arith,
        ),
        PackedForm::ByteShift(right) => shifts_bytes(insn, s, s1, right),
        PackedForm::ByteShiftAvx(right) => shifts_bytes_apart(insn, s, s1, right),
        PackedForm::Sign(lane) => signs(insn, s, s1, lane),
        PackedForm::SignVex(lane) => signs_apart(insn, s, s1, lane),
        PackedForm::Abs(lane) => magnitudes(insn, s, s1, lane),
        PackedForm::Popcnt(lane) => counts(insn, s, s1, lane),
        PackedForm::Ternlog => looks_up(insn, s, s1),
        PackedForm::Ptest => tests(insn, s, s1),
        PackedForm::StringIndex(explicit) => searches(insn, s, s1, explicit),
    }
}

proof fn lemma_formed(insn: &Insn, mode: CpuMode, s: Emission)
    ensures
        table::packed_form(insn.mnemonic) is Some ==> formed(
            table::packed_form(insn.mnemonic)->0,
            insn,
            s,
            dispatch::insn_ir(insn, mode, s).0,
        ),
{
    reveal(formed);
    match table::packed_form(insn.mnemonic) {
        Some(form) => {
            vector::lemma_packed(insn, mode, s, form);
            match form {
                PackedForm::Logic(op) => lemma_combines(insn, op, 0, s),
                PackedForm::LogicAvx(op) => lemma_combines(insn, op, 0, s),
                PackedForm::LogicEvex(op, elem) => lemma_combines(insn, op, elem, s),
                PackedForm::Bin(lane, op) => lemma_computes(insn, lane, op, s),
                PackedForm::BinAvx(lane, op) => lemma_computes(insn, lane, op, s),
                PackedForm::BinEvex128(lane, op) => lemma_computes(insn, lane, op, s),
                PackedForm::Shift(lane, right, arith) => lemma_shifts(insn, lane, right, arith, s),
                PackedForm::ShiftAvx(lane, right, arith) => lemma_shifts(
                    insn,
                    lane,
                    right,
                    arith,
                    s,
                ),
                PackedForm::ByteShift(right) => lemma_shifts(insn, 0, right, false, s),
                PackedForm::ByteShiftAvx(right) => lemma_shifts(insn, 0, right, false, s),
                PackedForm::Sign(lane) => lemma_signs(insn, lane, s),
                PackedForm::SignVex(lane) => lemma_signs(insn, lane, s),
                PackedForm::Abs(lane) => lemma_signs(insn, lane, s),
                PackedForm::Popcnt(lane) => lemma_signs(insn, lane, s),
                PackedForm::Ternlog => lemma_tests(insn, false, s),
                PackedForm::Ptest => lemma_tests(insn, false, s),
                PackedForm::StringIndex(explicit) => lemma_tests(insn, explicit, s),
            }
        },
        None => {},
    }
}

/// Exclusive or, and, or, and-not of whole vectors; the masked forms choose elements by the
/// last letter of the name.
#[verifier::rlimit(50)]
pub proof fn law_packed_logic(insn: &Insn, mode: CpuMode, s: Emission)
    ensures
        ({
            let s1 = dispatch::insn_ir(insn, mode, s).0;
            let name = insn.mnemonic;
            &&& name == mn::PXOR ==> combines(insn, s, s1, VLogicOp::Xor)
            &&& name == mn::XORPS ==> combines(insn, s, s1, VLogicOp::Xor)
            &&& name == mn::XORPD ==> combines(insn, s, s1, VLogicOp::Xor)
            &&& name == mn::PAND ==> combines(insn, s, s1, VLogicOp::And)
            &&& name == mn::ANDPS ==> combines(insn, s, s1, VLogicOp::And)
            &&& name == mn::ANDPD ==> combines(insn, s, s1, VLogicOp::And)
            &&& name == mn::POR ==> combines(insn, s, s1, VLogicOp::Or)
            &&& name == mn::ORPS ==> combines(insn, s, s1, VLogicOp::Or)
            &&& name == mn::ORPD ==> combines(insn, s, s1, VLogicOp::Or)
            &&& name == mn::PANDN ==> combines(insn, s, s1, VLogicOp::Andn)
            &&& name == mn::ANDNPS ==> combines(insn, s, s1, VLogicOp::Andn)
            &&& name == mn::ANDNPD ==> combines(insn, s, s1, VLogicOp::Andn)
            &&& name == mn::VPXOR ==> combines_apart(insn, s, s1, VLogicOp::Xor)
            &&& name == mn::VXORPS ==> combines_apart(insn, s, s1, VLogicOp::Xor)
            &&& name == mn::VXORPD ==> combines_apart(insn, s, s1, VLogicOp::Xor)
            &&& name == mn::VPAND ==> combines_apart(insn, s, s1, VLogicOp::And)
            &&& name == mn::VANDPS ==> combines_apart(insn, s, s1, VLogicOp::And)
            &&& name == mn::VANDPD ==> combines_apart(insn, s, s1, VLogicOp::And)
            &&& name == mn::VPOR ==> combines_apart(insn, s, s1, VLogicOp::Or)
            &&& name == mn::VORPS ==> combines_apart(insn, s, s1, VLogicOp::Or)
            &&& name == mn::VORPD ==> combines_apart(insn, s, s1, VLogicOp::Or)
            &&& name == mn::VPANDN ==> combines_apart(insn, s, s1, VLogicOp::Andn)
            &&& name == mn::VANDNPS ==> combines_apart(insn, s, s1, VLogicOp::Andn)
            &&& name == mn::VANDNPD ==> combines_apart(insn, s, s1, VLogicOp::Andn)
            &&& name == mn::VPXORD ==> combines_masked(insn, s, s1, VLogicOp::Xor, 4)
            &&& name == mn::VPXORQ ==> combines_masked(insn, s, s1, VLogicOp::Xor, 8)
            &&& name == mn::VPANDD ==> combines_masked(insn, s, s1, VLogicOp::And, 4)
            &&& name == mn::VPANDQ ==> combines_masked(insn, s, s1, VLogicOp::And, 8)
            &&& name == mn::VPORD ==> combines_masked(insn, s, s1, VLogicOp::Or, 4)
            &&& name == mn::VPORQ ==> combines_masked(insn, s, s1, VLogicOp::Or, 8)
            &&& name == mn::VPANDND ==> combines_masked(insn, s, s1, VLogicOp::Andn, 4)
            &&& name == mn::VPANDNQ ==> combines_masked(insn, s, s1, VLogicOp::Andn, 8)
        }),
{
    lemma_formed(insn, mode, s);
    reveal(formed);
}

/// Lane-wise sums and differences, saturated with `s` or `us` before the lane, and averages.
/// The last letter is the lane: a byte, word, doubleword or quadword.
#[verifier::rlimit(50)]
pub proof fn law_packed_sums(insn: &Insn, mode: CpuMode, s: Emission)
    ensures
        ({
            let s1 = dispatch::insn_ir(insn, mode, s).0;
            let name = insn.mnemonic;
            &&& name == mn::PADDB ==> computes(insn, s, s1, 1, PackedBinOp::Add)
            &&& name == mn::PADDW ==> computes(insn, s, s1, 2, PackedBinOp::Add)
            &&& name == mn::PADDD ==> computes(insn, s, s1, 4, PackedBinOp::Add)
            &&& name == mn::PADDQ ==> computes(insn, s, s1, 8, PackedBinOp::Add)
            &&& name == mn::PSUBB ==> computes(insn, s, s1, 1, PackedBinOp::Sub)
            &&& name == mn::PSUBW ==> computes(insn, s, s1, 2, PackedBinOp::Sub)
            &&& name == mn::PSUBD ==> computes(insn, s, s1, 4, PackedBinOp::Sub)
            &&& name == mn::PSUBQ ==> computes(insn, s, s1, 8, PackedBinOp::Sub)
            &&& name == mn::PADDSB ==> computes(insn, s, s1, 1, PackedBinOp::AddSatS)
            &&& name == mn::PADDSW ==> computes(insn, s, s1, 2, PackedBinOp::AddSatS)
            &&& name == mn::PADDUSB ==> computes(insn, s, s1, 1, PackedBinOp::AddSatU)
            &&& name == mn::PADDUSW ==> computes(insn, s, s1, 2, PackedBinOp::AddSatU)
            &&& name == mn::PSUBSB ==> computes(insn, s, s1, 1, PackedBinOp::SubSatS)
            &&& name == mn::PSUBSW ==> computes(insn, s, s1, 2, PackedBinOp::SubSatS)
            &&& name == mn::PSUBUSB ==> computes(insn, s, s1, 1, PackedBinOp::SubSatU)
            &&& name == mn::PSUBUSW ==> computes(insn, s, s1, 2, PackedBinOp::SubSatU)
            &&& name == mn::PAVGB ==> computes(insn, s, s1, 1, PackedBinOp::AvgU)
            &&& name == mn::PAVGW ==> computes(insn, s, s1, 2, PackedBinOp::AvgU)
            &&& name == mn::VPADDB ==> computes_apart(insn, s, s1, 1, PackedBinOp::Add)
            &&& name == mn::VPADDW ==> computes_apart(insn, s, s1, 2, PackedBinOp::Add)
            &&& name == mn::VPADDD ==> computes_apart(insn, s, s1, 4, PackedBinOp::Add)
            &&& name == mn::VPADDQ ==> computes_apart(insn, s, s1, 8, PackedBinOp::Add)
            &&& name == mn::VPSUBB ==> computes_apart(insn, s, s1, 1, PackedBinOp::Sub)
            &&& name == mn::VPSUBW ==> computes_apart(insn, s, s1, 2, PackedBinOp::Sub)
            &&& name == mn::VPSUBD ==> computes_apart(insn, s, s1, 4, PackedBinOp::Sub)
            &&& name == mn::VPSUBQ ==> computes_apart(insn, s, s1, 8, PackedBinOp::Sub)
            &&& name == mn::VPADDSB ==> computes_apart(insn, s, s1, 1, PackedBinOp::AddSatS)
            &&& name == mn::VPADDSW ==> computes_apart(insn, s, s1, 2, PackedBinOp::AddSatS)
            &&& name == mn::VPADDUSB ==> computes_apart(insn, s, s1, 1, PackedBinOp::AddSatU)
            &&& name == mn::VPADDUSW ==> computes_apart(insn, s, s1, 2, PackedBinOp::AddSatU)
            &&& name == mn::VPSUBSB ==> computes_apart(insn, s, s1, 1, PackedBinOp::SubSatS)
            &&& name == mn::VPSUBSW ==> computes_apart(insn, s, s1, 2, PackedBinOp::SubSatS)
            &&& name == mn::VPSUBUSB ==> computes_apart(insn, s, s1, 1, PackedBinOp::SubSatU)
            &&& name == mn::VPSUBUSW ==> computes_apart(insn, s, s1, 2, PackedBinOp::SubSatU)
            &&& name == mn::VPAVGB ==> computes_apart(insn, s, s1, 1, PackedBinOp::AvgU)
            &&& name == mn::VPAVGW ==> computes_apart(insn, s, s1, 2, PackedBinOp::AvgU)
        }),
{
    lemma_formed(insn, mode, s);
    reveal(formed);
}

/// Lane-wise equality and signed order, and the less and the greater, signed or not.
#[verifier::rlimit(50)]
pub proof fn law_packed_comparisons(insn: &Insn, mode: CpuMode, s: Emission)
    ensures
        ({
            let s1 = dispatch::insn_ir(insn, mode, s).0;
            let name = insn.mnemonic;
            &&& name == mn::PCMPEQB ==> computes(insn, s, s1, 1, PackedBinOp::CmpEq)
            &&& name == mn::PCMPEQW ==> computes(insn, s, s1, 2, PackedBinOp::CmpEq)
            &&& name == mn::PCMPEQD ==> computes(insn, s, s1, 4, PackedBinOp::CmpEq)
            &&& name == mn::PCMPGTB ==> computes(insn, s, s1, 1, PackedBinOp::CmpGt)
            &&& name == mn::PCMPGTW ==> computes(insn, s, s1, 2, PackedBinOp::CmpGt)
            &&& name == mn::PCMPGTD ==> computes(insn, s, s1, 4, PackedBinOp::CmpGt)
            &&& name == mn::PCMPGTQ ==> computes(insn, s, s1, 8, PackedBinOp::CmpGt)
            &&& name == mn::PCMPEQQ ==> computes(insn, s, s1, 8, PackedBinOp::CmpEq)
            &&& name == mn::PMINUB ==> computes(insn, s, s1, 1, PackedBinOp::MinU)
            &&& name == mn::PMAXUB ==> computes(insn, s, s1, 1, PackedBinOp::MaxU)
            &&& name == mn::PMINSW ==> computes(insn, s, s1, 2, PackedBinOp::MinS)
            &&& name == mn::PMAXSW ==> computes(insn, s, s1, 2, PackedBinOp::MaxS)
            &&& name == mn::PMINSD ==> computes(insn, s, s1, 4, PackedBinOp::MinS)
            &&& name == mn::PMAXSD ==> computes(insn, s, s1, 4, PackedBinOp::MaxS)
            &&& name == mn::PMINUD ==> computes(insn, s, s1, 4, PackedBinOp::MinU)
            &&& name == mn::PMAXUD ==> computes(insn, s, s1, 4, PackedBinOp::MaxU)
            &&& name == mn::VPMINUB ==> computes_apart(insn, s, s1, 1, PackedBinOp::MinU)
            &&& name == mn::VPMAXUB ==> computes_apart(insn, s, s1, 1, PackedBinOp::MaxU)
            &&& name == mn::VPMINUD ==> computes_apart(insn, s, s1, 4, PackedBinOp::MinU)
            &&& name == mn::VPMAXUD ==> computes_apart(insn, s, s1, 4, PackedBinOp::MaxU)
            &&& name == mn::VPMINSD ==> computes_apart(insn, s, s1, 4, PackedBinOp::MinS)
            &&& name == mn::VPMAXSD ==> computes_apart(insn, s, s1, 4, PackedBinOp::MaxS)
            &&& name == mn::VPMAXSB ==> computes_apart(insn, s, s1, 1, PackedBinOp::MaxS)
            &&& name == mn::VPMAXSW ==> computes_apart(insn, s, s1, 2, PackedBinOp::MaxS)
            &&& name == mn::VPMAXUW ==> computes_apart(insn, s, s1, 2, PackedBinOp::MaxU)
            &&& name == mn::VPMINSB ==> computes_apart(insn, s, s1, 1, PackedBinOp::MinS)
            &&& name == mn::VPMINSW ==> computes_apart(insn, s, s1, 2, PackedBinOp::MinS)
            &&& name == mn::VPMINUW ==> computes_apart(insn, s, s1, 2, PackedBinOp::MinU)
            &&& name == mn::VPMAXUQ ==> computes_128(insn, s, s1, 8, PackedBinOp::MaxU)
            &&& name == mn::VPMINUQ ==> computes_128(insn, s, s1, 8, PackedBinOp::MinU)
            &&& name == mn::VPMAXSQ ==> computes_128(insn, s, s1, 8, PackedBinOp::MaxS)
            &&& name == mn::VPMINSQ ==> computes_128(insn, s, s1, 8, PackedBinOp::MinS)
        }),
{
    lemma_formed(insn, mode, s);
    reveal(formed);
}

/// Low and high halves of the products of words, low halves of wider lanes, and products of
/// every other doubleword.
#[verifier::rlimit(50)]
pub proof fn law_packed_products(insn: &Insn, mode: CpuMode, s: Emission)
    ensures
        ({
            let s1 = dispatch::insn_ir(insn, mode, s).0;
            let name = insn.mnemonic;
            &&& name == mn::PMULLW ==> computes(insn, s, s1, 2, PackedBinOp::MulLo16)
            &&& name == mn::VPMULLW ==> computes_apart(insn, s, s1, 2, PackedBinOp::MulLo16)
            &&& name == mn::PMULHUW ==> computes(insn, s, s1, 2, PackedBinOp::MulHiU16)
            &&& name == mn::VPMULHUW ==> computes_apart(insn, s, s1, 2, PackedBinOp::MulHiU16)
            &&& name == mn::PMULHW ==> computes(insn, s, s1, 2, PackedBinOp::MulHiS16)
            &&& name == mn::VPMULHW ==> computes_apart(insn, s, s1, 2, PackedBinOp::MulHiS16)
            &&& name == mn::PMULLD ==> computes(insn, s, s1, 4, PackedBinOp::MulLo32)
            &&& name == mn::VPMULLD ==> computes_apart(insn, s, s1, 4, PackedBinOp::MulLo32)
            &&& name == mn::PMULUDQ ==> computes(insn, s, s1, 8, PackedBinOp::MulU32)
            &&& name == mn::VPMULUDQ ==> computes_apart(insn, s, s1, 8, PackedBinOp::MulU32)
            &&& name == mn::PMULDQ ==> computes(insn, s, s1, 8, PackedBinOp::MulS32)
            &&& name == mn::VPMULDQ ==> computes_apart(insn, s, s1, 8, PackedBinOp::MulS32)
            &&& name == mn::PMULHRSW ==> computes(insn, s, s1, 2, PackedBinOp::MulHiRoundedS16)
            &&& name == mn::VPMULHRSW ==> computes_apart(
                insn,
                s,
                s1,
                2,
                PackedBinOp::MulHiRoundedS16,
            )
            &&& name == mn::VPMULLQ ==> computes_apart(insn, s, s1, 8, PackedBinOp::MulLo64)
        }),
{
    lemma_formed(insn, mode, s);
    reveal(formed);
}

/// Shifts of lanes to the left and right, zeros or signs coming in, and of whole registers by
/// bytes.
#[verifier::rlimit(50)]
pub proof fn law_packed_shifts(insn: &Insn, mode: CpuMode, s: Emission)
    ensures
        ({
            let s1 = dispatch::insn_ir(insn, mode, s).0;
            let name = insn.mnemonic;
            &&& name == mn::PSLLW ==> shifts(insn, s, s1, 2, false, false)
            &&& name == mn::PSLLD ==> shifts(insn, s, s1, 4, false, false)
            &&& name == mn::PSLLQ ==> shifts(insn, s, s1, 8, false, false)
            &&& name == mn::PSRLW ==> shifts(insn, s, s1, 2, true, false)
            &&& name == mn::PSRLD ==> shifts(insn, s, s1, 4, true, false)
            &&& name == mn::PSRLQ ==> shifts(insn, s, s1, 8, true, false)
            &&& name == mn::PSRAW ==> shifts(insn, s, s1, 2, true, true)
            &&& name == mn::PSRAD ==> shifts(insn, s, s1, 4, true, true)
            &&& name == mn::PSRLDQ ==> shifts_bytes(insn, s, s1, true)
            &&& name == mn::PSLLDQ ==> shifts_bytes(insn, s, s1, false)
            &&& name == mn::VPSRLDQ ==> shifts_bytes_apart(insn, s, s1, true)
            &&& name == mn::VPSLLDQ ==> shifts_bytes_apart(insn, s, s1, false)
            &&& name == mn::VPSLLW ==> shifts_apart(insn, s, s1, 2, false, false)
            &&& name == mn::VPSLLD ==> shifts_apart(insn, s, s1, 4, false, false)
            &&& name == mn::VPSLLQ ==> shifts_apart(insn, s, s1, 8, false, false)
            &&& name == mn::VPSRLW ==> shifts_apart(insn, s, s1, 2, true, false)
            &&& name == mn::VPSRLD ==> shifts_apart(insn, s, s1, 4, true, false)
            &&& name == mn::VPSRLQ ==> shifts_apart(insn, s, s1, 8, true, false)
            &&& name == mn::VPSRAW ==> shifts_apart(insn, s, s1, 2, true, true)
            &&& name == mn::VPSRAD ==> shifts_apart(insn, s, s1, 4, true, true)
            &&& name == mn::VPSRAQ ==> shifts_apart(insn, s, s1, 8, true, true)
        }),
{
    lemma_formed(insn, mode, s);
    reveal(formed);
}

/// Signs, magnitudes, counts of ones, bitwise tables, tests and string searches.
#[verifier::rlimit(50)]
pub proof fn law_packed_others(insn: &Insn, mode: CpuMode, s: Emission)
    ensures
        ({
            let s1 = dispatch::insn_ir(insn, mode, s).0;
            let name = insn.mnemonic;
            &&& name == mn::PSIGNB ==> signs(insn, s, s1, 1)
            &&& name == mn::PSIGNW ==> signs(insn, s, s1, 2)
            &&& name == mn::PSIGND ==> signs(insn, s, s1, 4)
            &&& name == mn::VPSIGNB ==> signs_apart(insn, s, s1, 1)
            &&& name == mn::VPSIGNW ==> signs_apart(insn, s, s1, 2)
            &&& name == mn::VPSIGND ==> signs_apart(insn, s, s1, 4)
            &&& name == mn::VPTERNLOGD ==> looks_up(insn, s, s1)
            &&& name == mn::VPTERNLOGQ ==> looks_up(insn, s, s1)
            &&& name == mn::VPOPCNTD ==> counts(insn, s, s1, 4)
            &&& name == mn::VPOPCNTQ ==> counts(insn, s, s1, 8)
            &&& name == mn::PCMPISTRI ==> searches(insn, s, s1, false)
            &&& name == mn::VPCMPISTRI ==> searches(insn, s, s1, false)
            &&& name == mn::PCMPESTRI ==> searches(insn, s, s1, true)
            &&& name == mn::VPCMPESTRI ==> searches(insn, s, s1, true)
            &&& name == mn::VPABSB ==> magnitudes(insn, s, s1, 1)
            &&& name == mn::VPABSW ==> magnitudes(insn, s, s1, 2)
            &&& name == mn::VPABSD ==> magnitudes(insn, s, s1, 4)
            &&& name == mn::VPABSQ ==> magnitudes(insn, s, s1, 8)
            &&& name == mn::PTEST ==> tests(insn, s, s1)
            &&& name == mn::VPTEST ==> tests(insn, s, s1)
        }),
{
    lemma_formed(insn, mode, s);
    reveal(formed);
}

} // verus!
