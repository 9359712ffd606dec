//! What opmask instructions and those of AES, SHA and Galois fields emit, by their names.
use crate::insn::Insn;
use crate::ir::{AesOp, GfniOp, IrOp, PackedBinOp, ShaOp, VKLogicOp, Val};
use crate::lift::emit::Emission;
use crate::lift::table::{CryptoForm, MaskForm};
use crate::lift::{dispatch, lanewise, operand, table, vcrypto, vector, vmask, CpuMode};
use crate::mnemonic as mn;
use vstd::prelude::*;

verus! {

broadcast use operand::group_failed;

// --- opmask registers ---

/// Halves of `half` bits of the two sources: the first's is the high one.
#[verifier::opaque]
pub open spec fn joins(insn: &Insn, s: Emission, s1: Emission, half: u8) -> bool {
    match (vector::opmask(insn.op0), vector::opmask(insn.op1), vector::opmask(insn.op2)) {
        (Some(dst), Some(a), Some(b)) => vector::extends(
            s,
            s1,
            seq![IrOp::VKUnpack { dst, a, b, half }],
        ),
        _ => !s1.ok,
    }
}

/// The low `width` bits of the two sources go through `op`.
#[verifier::opaque]
pub open spec fn combines(
    insn: &Insn,
    s: Emission,
    s1: Emission,
    op: VKLogicOp,
    width: u8,
) -> bool {
    match (vector::opmask(insn.op0), vector::opmask(insn.op1), vector::opmask(insn.op2)) {
        (Some(dst), Some(a), Some(b)) => vector::extends(
            s,
            s1,
            seq![IrOp::VKBinOp { dst, a, b, op, width }],
        ),
        _ => !s1.ok,
    }
}

/// The complement of the low `width` bits.
#[verifier::opaque]
pub open spec fn inverts(insn: &Insn, s: Emission, s1: Emission, width: u8) -> bool {
    match (vector::opmask(insn.op0), vector::opmask(insn.op1)) {
        (Some(dst), Some(a)) => vector::extends(s, s1, seq![IrOp::VKNot { dst, a, width }]),
        _ => !s1.ok,
    }
}

/// The low `width` bits, shifted by the immediate.
#[verifier::opaque]
pub open spec fn shifts(
    insn: &Insn,
    s: Emission,
    s1: Emission,
    width: u8,
    left: bool,
) -> bool {
    let amount = vector::byte(insn.op2);
    match (vector::opmask(insn.op0), vector::opmask(insn.op1)) {
        (Some(dst), Some(a)) => vector::extends(
            s,
            s1,
            seq![IrOp::VKShift { dst, a, amount, width, left }],
        ),
        _ => !s1.ok,
    }
}

/// `width` bits between opmask registers, or to or from a general register or memory.
#[verifier::opaque]
pub open spec fn moves(insn: &Insn, s: Emission, s1: Emission, width: u8) -> bool {
    match (vector::opmask(insn.op0), vector::opmask(insn.op1)) {
        (Some(dst), Some(src)) => vector::extends(
            s,
            s1,
            seq![IrOp::VKMovKK { dst, src, width }],
        ),
        (Some(k), None) => {
            let (s2, src) = operand::read(insn, 1, s);
            vector::extends(s2, s1, seq![IrOp::VKFromGpr { k, src, width }])
        },
        (None, Some(k)) => s1 == operand::store(
            insn,
            0,
            Val::Temp(s.next),
            s.def(IrOp::VKToGpr { dst: s.next, k, width }),
        ),
        (None, None) => !s1.ok,
    }
}

/// The flags tell of the union of the low `width` bits.
#[verifier::opaque]
pub open spec fn or_tests(insn: &Insn, s: Emission, s1: Emission, width: u8) -> bool {
    match (vector::opmask(insn.op0), vector::opmask(insn.op1)) {
        (Some(a), Some(b)) => vector::extends(s, s1, seq![IrOp::VKOrTest { a, b, width }]),
        _ => !s1.ok,
    }
}

/// A bit for each element: whether the two have a one in common, or have none.
#[verifier::opaque]
pub open spec fn tests(insn: &Insn, s: Emission, s1: Emission, elem: u8, neg: bool) -> bool {
    let width = vector::wide(insn.op1);
    let writemask = vector::write_mask(insn);
    match (vector::opmask(insn.op0), vector::vector(insn.op1)) {
        (Some(k), Some(a)) => vector::by_source(
            insn,
            insn.op2,
            vector::vector(insn.op2),
            s,
            s1,
            |b: u8| seq![IrOp::VPTestToMask { k, a, b, elem, width, neg, writemask }],
            |addr: Val| seq![IrOp::VPTestToMaskM { k, a, addr, elem, width, neg, writemask }],
        ),
        _ => !s1.ok,
    }
}

/// A bit for each element: whether the predicate of that number holds of the two.
pub open spec fn compares_by(
    insn: &Insn,
    s: Emission,
    s1: Emission,
    elem: u8,
    pred: u8,
    signed: bool,
) -> bool {
    let width = vector::wide(insn.op1);
    let writemask = vector::write_mask(insn);
    match (vector::opmask(insn.op0), vector::vector(insn.op1)) {
        (Some(k), Some(a)) => vector::by_source(
            insn,
            insn.op2,
            vector::vector(insn.op2),
            s,
            s1,
            |b: u8| seq![IrOp::VPCmpToMask { k, a, b, elem, width, pred, signed, writemask }],
            |addr: Val| seq![
                IrOp::VPCmpToMaskM { k, a, addr, elem, width, pred, signed, writemask },
            ],
        ),
        _ => !s1.ok,
    }
}

/// The immediate numbers the predicate.
#[verifier::opaque]
pub open spec fn compares(
    insn: &Insn,
    s: Emission,
    s1: Emission,
    elem: u8,
    signed: bool,
) -> bool {
    compares_by(insn, s, s1, elem, vector::byte(insn.op3), signed)
}

/// Into an opmask register the predicate `pred` is used; into a vector register lanes of ones
/// and zeros go.
#[verifier::opaque]
pub open spec fn compares_either(
    insn: &Insn,
    s: Emission,
    s1: Emission,
    elem: u8,
    packed: PackedBinOp,
    pred: u8,
    signed: bool,
) -> bool {
    if vector::opmask(insn.op0) is Some {
        compares_by(insn, s, s1, elem, pred, signed)
    } else {
        lanewise::computes_apart(insn, s, s1, elem, packed)
    }
}

proof fn lemma_opmasks(insn: &Insn, op: VKLogicOp, width: u8, left: bool, s: Emission)
    ensures
        joins(insn, s, vmask::kunpck(insn, width, s), width),
        combines(insn, s, vmask::kbinop(insn, op, width, s), op, width),
        inverts(insn, s, vmask::knot(insn, width, s), width),
        shifts(insn, s, vmask::kshift(insn, width, left, s), width, left),
        moves(insn, s, vmask::kmov(insn, width, s), width),
        or_tests(insn, s, vmask::kortest(insn, width, s), width),
{
    reveal(joins);
    reveal(combines);
    reveal(inverts);
    reveal(shifts);
    reveal(moves);
    reveal(or_tests);
    reveal(vmask::kunpck);
    reveal(vmask::kbinop);
    reveal(vmask::knot);
    reveal(vmask::kshift);
    reveal(vmask::kmov);
    reveal(vmask::kortest);
}

proof fn lemma_compares(
    insn: &Insn,
    elem: u8,
    packed: PackedBinOp,
    pred: u8,
    signed: bool,
    s: Emission,
)
    ensures
        tests(insn, s, vmask::vptest(insn, elem, signed, s), elem, signed),
        compares(insn, s, vmask::vpcmp(insn, elem, signed, s), elem, signed),
        compares_either(
            insn,
            s,
            vmask::vpcmp_fixed_or_packed(insn, elem, packed, pred, signed, s),
            elem,
            packed,
            pred,
            signed,
        ),
{
    reveal(tests);
    reveal(compares);
    reveal(compares_either);
    reveal(vmask::vptest);
    reveal(vmask::vpcmp);
    reveal(vmask::vpcmp_pred);
    reveal(vmask::vpcmp_fixed_or_packed);
    lanewise::lemma_computes(insn, elem, packed, s);
}

/// The form of an instruction says what is emitted.
#[verifier::opaque]
spec fn formed(form: MaskForm, insn: &Insn, s: Emission, s1: Emission) -> bool {
    match form {
        MaskForm::Unpack(half) => joins(insn, s, s1, half),
        MaskForm::Bin(op, width) => combines(insn, s, s1, op, width),
        MaskForm::Not(width) => inverts(insn, s, s1, width),
        MaskForm::Shift(width, left) => shifts(insn, s, s1, width, left),
        MaskForm::Mov(width) => moves(insn, s, s1, width),
        MaskForm::OrTest(width) => or_tests(insn, s, s1, width),
        MaskForm::Test(elem, neg) => tests(insn, s, s1, elem, neg),
        MaskForm::Compare(elem, signed) => compares(insn, s, s1, elem, signed),
        MaskForm::CompareFixed(elem, packed, pred, signed) => compares_either(
            insn,
            s,
            s1,
            elem,
            packed,
            pred,
            signed,
        ),
    }
}

proof fn lemma_formed(insn: &Insn, mode: CpuMode, s: Emission)
    ensures
        table::mask_form(insn.mnemonic) is Some ==> formed(
            table::mask_form(insn.mnemonic)->0,
            insn,
            s,
            dispatch::insn_ir(insn, mode, s).0,
        ),
{
    reveal(formed);
    match table::mask_form(insn.mnemonic) {
        Some(form) => {
            vector::lemma_mask(insn, mode, s, form);
            match form {
                MaskForm::Unpack(half) => lemma_opmasks(insn, VKLogicOp::Or, half, true, s),
                MaskForm::Bin(op, width) => lemma_opmasks(insn, op, width, true, s),
                MaskForm::Not(width) => lemma_opmasks(insn, VKLogicOp::Or, width, true, s),
                MaskForm::Shift(width, left) => lemma_opmasks(
                    insn,
                    VKLogicOp::Or,
                    width,
                    left,
                    s,
                ),
                MaskForm::Mov(width) => lemma_opmasks(insn, VKLogicOp::Or, width, true, s),
                MaskForm::OrTest(width) => lemma_opmasks(insn, VKLogicOp::Or, width, true, s),
                MaskForm::Test(elem, neg) => lemma_compares(
                    insn,
                    elem,
                    PackedBinOp::CmpEq,
                    0,
                    neg,
                    s,
                ),
                MaskForm::Compare(elem, signed) => lemma_compares(
                    insn,
                    elem,
                    PackedBinOp::CmpEq,
                    0,
                    signed,
                    s,
                ),
                MaskForm::CompareFixed(elem, packed, pred, signed) => lemma_compares(
                    insn,
                    elem,
                    packed,
                    pred,
                    signed,
                    s,
                ),
            }
        },
        None => {},
    }
}

/// Logic, shifts, moves and tests of opmask registers. The last letter is the number of bits:
/// 8, 16, 32 or 64.
#[verifier::rlimit(50)]
pub proof fn law_opmasks(insn: &Insn, mode: CpuMode, s: Emission)
    ensures
        ({
            let s1 = dispatch::insn_ir(insn, mode, s).0;
            let name = insn.mnemonic;
            &&& name == mn::KUNPCKBW ==> joins(insn, s, s1, 8)
            &&& name == mn::KUNPCKWD ==> joins(insn, s, s1, 16)
            &&& name == mn::KUNPCKDQ ==> joins(insn, s, s1, 32)
            &&& name == mn::KORB ==> combines(insn, s, s1, VKLogicOp::Or, 8)
            &&& name == mn::KORW ==> combines(insn, s, s1, VKLogicOp::Or, 16)
            &&& name == mn::KORD ==> combines(insn, s, s1, VKLogicOp::Or, 32)
            &&& name == mn::KORQ ==> combines(insn, s, s1, VKLogicOp::Or, 64)
            &&& name == mn::KANDB ==> combines(insn, s, s1, VKLogicOp::And, 8)
            &&& name == mn::KANDW ==> combines(insn, s, s1, VKLogicOp::And, 16)
            &&& name == mn::KANDD ==> combines(insn, s, s1, VKLogicOp::And, 32)
            &&& name == mn::KANDQ ==> combines(insn, s, s1, VKLogicOp::And, 64)
            &&& name == mn::KANDNB ==> combines(insn, s, s1, VKLogicOp::Andn, 8)
            &&& name == mn::KANDNW ==> combines(insn, s, s1, VKLogicOp::Andn, 16)
            &&& name == mn::KANDND ==> combines(insn, s, s1, VKLogicOp::Andn, 32)
            &&& name == mn::KANDNQ ==> combines(insn, s, s1, VKLogicOp::Andn, 64)
            &&& name == mn::KXORB ==> combines(insn, s, s1, VKLogicOp::Xor, 8)
            &&& name == mn::KXORW ==> combines(insn, s, s1, VKLogicOp::Xor, 16)
            &&& name == mn::KXORD ==> combines(insn, s, s1, VKLogicOp::Xor, 32)
            &&& name == mn::KXORQ ==> combines(insn, s, s1, VKLogicOp::Xor, 64)
            &&& name == mn::KXNORB ==> combines(insn, s, s1, VKLogicOp::Xnor, 8)
            &&& name == mn::KXNORW ==> combines(insn, s, s1, VKLogicOp::Xnor, 16)
            &&& name == mn::KXNORD ==> combines(insn, s, s1, VKLogicOp::Xnor, 32)
            &&& name == mn::KXNORQ ==> combines(insn, s, s1, VKLogicOp::Xnor, 64)
            &&& name == mn::KNOTB ==> inverts(insn, s, s1, 8)
            &&& name == mn::KNOTW ==> inverts(insn, s, s1, 16)
            &&& name == mn::KNOTD ==> inverts(insn, s, s1, 32)
            &&& name == mn::KNOTQ ==> inverts(insn, s, s1, 64)
            &&& name == mn::KSHIFTLB ==> shifts(insn, s, s1, 8, true)
            &&& name == mn::KSHIFTLW ==> shifts(insn, s, s1, 16, true)
            &&& name == mn::KSHIFTLD ==> shifts(insn, s, s1, 32, true)
            &&& name == mn::KSHIFTLQ ==> shifts(insn, s, s1, 64, true)
            &&& name == mn::KSHIFTRB ==> shifts(insn, s, s1, 8, false)
            &&& name == mn::KSHIFTRW ==> shifts(insn, s, s1, 16, false)
            &&& name == mn::KSHIFTRD ==> shifts(insn, s, s1, 32, false)
            &&& name == mn::KSHIFTRQ ==> shifts(insn, s, s1, 64, false)
            &&& name == mn::KORTESTB ==> or_tests(insn, s, s1, 8)
            &&& name == mn::KORTESTW ==> or_tests(insn, s, s1, 16)
            &&& name == mn::KORTESTD ==> or_tests(insn, s, s1, 32)
            &&& name == mn::KORTESTQ ==> or_tests(insn, s, s1, 64)
            &&& name == mn::KMOVB ==> moves(insn, s, s1, 8)
            &&& name == mn::KMOVW ==> moves(insn, s, s1, 16)
            &&& name == mn::KMOVD ==> moves(insn, s, s1, 32)
            &&& name == mn::KMOVQ ==> moves(insn, s, s1, 64)
        }),
{
    lemma_formed(insn, mode, s);
    reveal(formed);
}

/// Tests and comparisons of elements into an opmask register. `eq` is predicate 0, `gt` is
/// predicate 6 of signed numbers; a `u` compares unsigned.
#[verifier::rlimit(50)]
pub proof fn law_comparisons_to_masks(insn: &Insn, mode: CpuMode, s: Emission)
    ensures
        ({
            let s1 = dispatch::insn_ir(insn, mode, s).0;
            let name = insn.mnemonic;
            &&& name == mn::VPCMPEQB ==> compares_either(
                insn,
                s,
                s1,
                1,
                PackedBinOp::CmpEq,
                0,
                false,
            )
            &&& name == mn::VPCMPEQW ==> compares_either(
                insn,
                s,
                s1,
                2,
                PackedBinOp::CmpEq,
                0,
                false,
            )
            &&& name == mn::VPCMPEQD ==> compares_either(
                insn,
                s,
                s1,
                4,
                PackedBinOp::CmpEq,
                0,
                false,
            )
            &&& name == mn::VPCMPEQQ ==> compares_either(
                insn,
                s,
                s1,
                8,
                PackedBinOp::CmpEq,
                0,
                false,
            )
            &&& name == mn::VPCMPGTB ==> compares_either(
                insn,
                s,
                s1,
                1,
                PackedBinOp::CmpGt,
                6,
                true,
            )
            &&& name == mn::VPCMPGTW ==> compares_either(
                insn,
                s,
                s1,
                2,
                PackedBinOp::CmpGt,
                6,
                true,
            )
            &&& name == mn::VPCMPGTD ==> compares_either(
                insn,
                s,
                s1,
                4,
                PackedBinOp::CmpGt,
                6,
                true,
            )
            &&& name == mn::VPCMPGTQ ==> compares_either(
                insn,
                s,
                s1,
                8,
                PackedBinOp::CmpGt,
                6,
                true,
            )
            &&& name == mn::VPTESTMB ==> tests(insn, s, s1, 1, false)
            &&& name == mn::VPTESTMW ==> tests(insn, s, s1, 2, false)
            &&& name == mn::VPTESTMD ==> tests(insn, s, s1, 4, false)
            &&& name == mn::VPTESTMQ ==> tests(insn, s, s1, 8, false)
            &&& name == mn::VPTESTNMB ==> tests(insn, s, s1, 1, true)
            &&& name == mn::VPTESTNMW ==> tests(insn, s, s1, 2, true)
            &&& name == mn::VPTESTNMD ==> tests(insn, s, s1, 4, true)
            &&& name == mn::VPTESTNMQ ==> tests(insn, s, s1, 8, true)
            &&& name == mn::VPCMPB ==> compares(insn, s, s1, 1, true)
            &&& name == mn::VPCMPW ==> compares(insn, s, s1, 2, true)
            &&& name == mn::VPCMPD ==> compares(insn, s, s1, 4, true)
            &&& name == mn::VPCMPQ ==> compares(insn, s, s1, 8, true)
            &&& name == mn::VPCMPUB ==> compares(insn, s, s1, 1, false)
            &&& name == mn::VPCMPUW ==> compares(insn, s, s1, 2, false)
            &&& name == mn::VPCMPUD ==> compares(insn, s, s1, 4, false)
            &&& name == mn::VPCMPUQ ==> compares(insn, s, s1, 8, false)
        }),
{
    lemma_formed(insn, mode, s);
    reveal(formed);
}

// --- AES, SHA and Galois fields ---

/// One round on the destination, with the source as its key.
#[verifier::opaque]
pub open spec fn rounds(insn: &Insn, s: Emission, s1: Emission, op: AesOp) -> bool {
    match vector::xmm(insn.op0) {
        None => !s1.ok,
        Some(d) => vector::by_source(
            insn,
            insn.op1,
            vector::xmm(insn.op1),
            s,
            s1,
            |b: u8| seq![IrOp::VAes { dst: d, a: d, b, op }],
            |addr: Val| seq![IrOp::VAesM { dst: d, a: d, addr, op }],
        ),
    }
}

/// One round on the first source, with the second as its key.
#[verifier::opaque]
pub open spec fn rounds_apart(insn: &Insn, s: Emission, s1: Emission, op: AesOp) -> bool {
    match (vector::xmm(insn.op0), vector::xmm(insn.op1)) {
        (Some(d), Some(a)) => vector::by_source(
            insn,
            insn.op2,
            vector::xmm(insn.op2),
            s,
            s1,
            |b: u8| seq![IrOp::VAes { dst: d, a, b, op }, IrOp::VZeroUpper { reg: d }],
            |addr: Val| seq![
                IrOp::VAesM { dst: d, a, addr, op },
                IrOp::VZeroUpper { reg: d },
            ],
        ),
        _ => !s1.ok,
    }
}

/// Columns mixed back; with `vex` the bits above 128 are cleared.
#[verifier::opaque]
pub open spec fn mixes(insn: &Insn, s: Emission, s1: Emission, vex: bool) -> bool {
    match vector::xmm(insn.op0) {
        None => !s1.ok,
        Some(dst) => vector::by_source(
            insn,
            insn.op1,
            vector::xmm(insn.op1),
            s,
            s1,
            |src: u8| if vex {
                seq![IrOp::VAesImc { dst, src }, IrOp::VZeroUpper { reg: dst }]
            } else {
                seq![IrOp::VAesImc { dst, src }]
            },
            |addr: Val| if vex {
                seq![IrOp::VAesImcM { dst, addr }, IrOp::VZeroUpper { reg: dst }]
            } else {
                seq![IrOp::VAesImcM { dst, addr }]
            },
        ),
    }
}

/// A step of a key schedule, with the immediate as its constant.
#[verifier::opaque]
pub open spec fn schedules(insn: &Insn, s: Emission, s1: Emission, vex: bool) -> bool {
    let imm = vector::byte(insn.op2);
    match vector::xmm(insn.op0) {
        None => !s1.ok,
        Some(dst) => vector::by_source(
            insn,
            insn.op1,
            vector::xmm(insn.op1),
            s,
            s1,
            |src: u8| if vex {
                seq![IrOp::VAesKeygen { dst, src, imm }, IrOp::VZeroUpper { reg: dst }]
            } else {
                seq![IrOp::VAesKeygen { dst, src, imm }]
            },
            |addr: Val| if vex {
                seq![IrOp::VAesKeygenM { dst, addr, imm }, IrOp::VZeroUpper { reg: dst }]
            } else {
                seq![IrOp::VAesKeygenM { dst, addr, imm }]
            },
        ),
    }
}

/// A step of SHA on destination and source; only the rounds of SHA-1 have an immediate.
#[verifier::opaque]
pub open spec fn hashes(insn: &Insn, s: Emission, s1: Emission, op: ShaOp) -> bool {
    let imm = if op == ShaOp::Sha1Rnds4 {
        vector::byte(insn.op2)
    } else {
        0
    };
    match vector::xmm(insn.op0) {
        None => !s1.ok,
        Some(d) => vector::by_source(
            insn,
            insn.op1,
            vector::xmm(insn.op1),
            s,
            s1,
            |b: u8| seq![IrOp::VSha { dst: d, a: d, b, imm, op }],
            |addr: Val| seq![IrOp::VShaM { dst: d, a: d, addr, imm, op }],
        ),
    }
}

/// Products, or affine maps with the immediate as constant, in the field of 256 elements.
#[verifier::opaque]
pub open spec fn transforms(insn: &Insn, s: Emission, s1: Emission, op: GfniOp) -> bool {
    let imm = if op == GfniOp::Mulb {
        0
    } else {
        vector::byte(insn.op2)
    };
    match vector::xmm(insn.op0) {
        None => !s1.ok,
        Some(d) => vector::by_source(
            insn,
            insn.op1,
            vector::xmm(insn.op1),
            s,
            s1,
            |b: u8| seq![IrOp::VGfni { dst: d, a: d, b, imm, op }],
            |addr: Val| seq![IrOp::VGfniM { dst: d, a: d, addr, imm, op }],
        ),
    }
}

/// As above, of the two sources.
#[verifier::opaque]
pub open spec fn transforms_apart(insn: &Insn, s: Emission, s1: Emission, op: GfniOp) -> bool {
    let imm = if op == GfniOp::Mulb {
        0
    } else {
        vector::byte(insn.op3)
    };
    match (vector::xmm(insn.op0), vector::xmm(insn.op1)) {
        (Some(d), Some(a)) => vector::by_source(
            insn,
            insn.op2,
            vector::xmm(insn.op2),
            s,
            s1,
            |b: u8| seq![IrOp::VGfni { dst: d, a, b, imm, op }, IrOp::VZeroUpper { reg: d }],
            |addr: Val| seq![
                IrOp::VGfniM { dst: d, a, addr, imm, op },
                IrOp::VZeroUpper { reg: d },
            ],
        ),
        _ => !s1.ok,
    }
}

proof fn lemma_aes(insn: &Insn, op: AesOp, vex: bool, s: Emission)
    ensures
        rounds(insn, s, vcrypto::aes(insn, op, s), op),
        rounds_apart(insn, s, vcrypto::vaes(insn, op, s), op),
        mixes(insn, s, vcrypto::aes_imc(insn, vex, s), vex),
        schedules(insn, s, vcrypto::aes_keygen(insn, vex, s), vex),
{
    reveal(rounds);
    reveal(rounds_apart);
    reveal(mixes);
    reveal(schedules);
    reveal(vcrypto::aes);
    reveal(vcrypto::vaes);
    reveal(vcrypto::aes_imc);
    reveal(vcrypto::aes_keygen);
}

proof fn lemma_hashes(insn: &Insn, op: ShaOp, s: Emission)
    ensures
        hashes(insn, s, vcrypto::sha(insn, op, s), op),
{
    reveal(hashes);
    reveal(vcrypto::sha);
}

proof fn lemma_transforms(insn: &Insn, op: GfniOp, s: Emission)
    ensures
        transforms(insn, s, vcrypto::gfni(insn, op, s), op),
        transforms_apart(insn, s, vcrypto::vgfni(insn, op, s), op),
{
    reveal(transforms);
    reveal(transforms_apart);
    reveal(vcrypto::gfni);
    reveal(vcrypto::vgfni);
}

/// The rounds and key schedules of AES, the steps of SHA-1 and SHA-256, and the maps of the
/// field of 256 elements.
pub proof fn law_ciphers(insn: &Insn, mode: CpuMode, s: Emission)
    ensures
        ({
            let s1 = dispatch::insn_ir(insn, mode, s).0;
            let name = insn.mnemonic;
            &&& name == mn::AESENC ==> rounds(insn, s, s1, AesOp::Enc)
            &&& name == mn::AESDEC ==> rounds(insn, s, s1, AesOp::Dec)
            &&& name == mn::AESENCLAST ==> rounds(insn, s, s1, AesOp::EncLast)
            &&& name == mn::AESDECLAST ==> rounds(insn, s, s1, AesOp::DecLast)
            &&& name == mn::VAESENC ==> rounds_apart(insn, s, s1, AesOp::Enc)
            &&& name == mn::VAESDEC ==> rounds_apart(insn, s, s1, AesOp::Dec)
            &&& name == mn::VAESENCLAST ==> rounds_apart(insn, s, s1, AesOp::EncLast)
            &&& name == mn::VAESDECLAST ==> rounds_apart(insn, s, s1, AesOp::DecLast)
            &&& name == mn::AESIMC ==> mixes(insn, s, s1, false)
            &&& name == mn::VAESIMC ==> mixes(insn, s, s1, true)
            &&& name == mn::AESKEYGENASSIST ==> schedules(insn, s, s1, false)
            &&& name == mn::VAESKEYGENASSIST ==> schedules(insn, s, s1, true)
            &&& name == mn::SHA256RNDS2 ==> hashes(insn, s, s1, ShaOp::Sha256Rnds2)
            &&& name == mn::SHA256MSG1 ==> hashes(insn, s, s1, ShaOp::Sha256Msg1)
            &&& name == mn::SHA256MSG2 ==> hashes(insn, s, s1, ShaOp::Sha256Msg2)
            &&& name == mn::SHA1RNDS4 ==> hashes(insn, s, s1, ShaOp::Sha1Rnds4)
            &&& name == mn::SHA1NEXTE ==> hashes(insn, s, s1, ShaOp::Sha1NextE)
            &&& name == mn::SHA1MSG1 ==> hashes(insn, s, s1, ShaOp::Sha1Msg1)
            &&& name == mn::SHA1MSG2 ==> hashes(insn, s, s1, ShaOp::Sha1Msg2)
            &&& name == mn::GF2P8MULB ==> transforms(insn, s, s1, GfniOp::Mulb)
            &&& name == mn::GF2P8AFFINEQB ==> transforms(insn, s, s1, GfniOp::AffineQb)
            &&& name == mn::GF2P8AFFINEINVQB ==> transforms(insn, s, s1, GfniOp::AffineInvQb)
            &&& name == mn::VGF2P8MULB ==> transforms_apart(insn, s, s1, GfniOp::Mulb)
            &&& name == mn::VGF2P8AFFINEQB ==> transforms_apart(insn, s, s1, GfniOp::AffineQb)
            &&& name == mn::VGF2P8AFFINEINVQB ==> transforms_apart(insn, s, s1, GfniOp::AffineInvQb)
        }),
{
    match table::crypto_form(insn.mnemonic) {
        Some(form) => {
            vector::lemma_crypto(insn, mode, s, form);
            match form {
                CryptoForm::Aes(op) => lemma_aes(insn, op, true, s),
                CryptoForm::AesVex(op) => lemma_aes(insn, op, true, s),
                CryptoForm::AesImc(vex) => lemma_aes(insn, AesOp::Enc, vex, s),
                CryptoForm::AesKeygen(vex) => lemma_aes(insn, AesOp::Enc, vex, s),
                CryptoForm::Sha(op) => lemma_hashes(insn, op, s),
                CryptoForm::Gfni(op) => lemma_transforms(insn, op, s),
                CryptoForm::GfniVex(op) => lemma_transforms(insn, op, s),
            }
        },
        None => {},
    }
}

} // verus!
