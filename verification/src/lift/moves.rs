//! What vector moves emit, by their names.
use crate::insn::Insn;
use crate::ir::{IrOp, Val};
use crate::lift::emit::Emission;
use crate::lift::table::MoveForm;
use crate::lift::{dispatch, operand, table, vector, vmove, CpuMode};
use crate::mnemonic as mn;
use crate::op_kind;
use vstd::prelude::*;

verus! {

broadcast use operand::group_failed;

/// `size` bytes from memory or a register into a vector register, with zeros above them, or
/// from a vector register to memory or a general register.
pub open spec fn moves_bytes(insn: &Insn, s: Emission, s1: Emission, size: u8) -> bool {
    let (s2, addr) = operand::address(insn, s);
    match (vector::xmm(insn.op0), vector::xmm(insn.op1)) {
        (Some(dst), Some(src)) => if size == 16 {
            vector::extends(s, s1, seq![IrOp::VMov { dst, src }])
        } else {
            vector::extends(
                s.def(IrOp::VToGpr { dst: s.next, src, size }),
                s1,
                seq![IrOp::VFromGpr { dst, src: Val::Temp(s.next), size }],
            )
        },
        (Some(dst), None) => if vector::memory(insn.op1) {
            vector::extends(s2, s1, seq![IrOp::VLoad { dst, addr, size }])
        } else if insn.op1.kind == op_kind::REGISTER {
            let (s3, src) = operand::read(insn, 1, s);
            vector::extends(s3, s1, seq![IrOp::VFromGpr { dst, src, size }])
        } else {
            !s1.ok
        },
        (None, Some(src)) => if vector::memory(insn.op0) {
            vector::extends(s2, s1, seq![IrOp::VStore { addr, src, size }])
        } else if insn.op0.kind == op_kind::REGISTER {
            s1 == operand::store(
                insn,
                0,
                Val::Temp(s.next),
                s.def(IrOp::VToGpr { dst: s.next, src, size }),
            )
        } else {
            !s1.ok
        },
        (None, None) => !s1.ok,
    }
}

/// A move of `size` bytes, as above.
#[verifier::opaque]
pub open spec fn moves(insn: &Insn, s: Emission, s1: Emission, size: u8) -> bool {
    moves_bytes(insn, s, s1, size)
}

/// A move of `size` bytes that clears a vector register's bits above 128.
pub open spec fn clears(insn: &Insn, s: Emission, s1: Emission, size: u8) -> bool {
    exists|s2: Emission|
        #![trigger moves_bytes(insn, s, s2, size)]
        moves_bytes(insn, s, s2, size) && (match vector::xmm(insn.op0) {
            Some(reg) => vector::extends(s2, s1, seq![IrOp::VZeroUpper { reg }]),
            None => s1 == s2,
        })
}

/// As above.
#[verifier::opaque]
pub open spec fn moves_clearing(insn: &Insn, s: Emission, s1: Emission, size: u8) -> bool {
    clears(insn, s, s1, size)
}

/// All of a register of `bytes` bytes, to or from a register or memory.
pub open spec fn moves_all(
    insn: &Insn,
    first: Option<u8>,
    second: Option<u8>,
    bytes: u16,
    s: Emission,
    s1: Emission,
) -> bool {
    let (s2, addr) = operand::address(insn, s);
    match (first, second) {
        (Some(dst), Some(src)) => if vector::memory(insn.op1) {
            vector::extends(s2, s1, seq![IrOp::VLoadWide { dst, addr, bytes }])
        } else {
            vector::extends(s, s1, seq![IrOp::VMovWide { dst, src, bytes }])
        },
        (Some(dst), None) => if vector::memory(insn.op1) {
            vector::extends(s2, s1, seq![IrOp::VLoadWide { dst, addr, bytes }])
        } else {
            !s1.ok
        },
        (None, Some(src)) => if vector::memory(insn.op0) {
            vector::extends(s2, s1, seq![IrOp::VStoreWide { addr, src, bytes }])
        } else {
            !s1.ok
        },
        (None, None) => !s1.ok,
    }
}

/// A move at the width of its registers. Under a write mask only the chosen elements of `elem`
/// bytes move.
#[verifier::opaque]
pub open spec fn moves_wide(insn: &Insn, s: Emission, s1: Emission, elem: u8) -> bool {
    let zeroing = insn.zeroing;
    let (s2, addr) = operand::address(insn, s);
    if vector::masked(insn) {
        match vector::write_mask(insn) {
            None => !s1.ok,
            Some(k) => match (vector::vector(insn.op0), vector::vector(insn.op1)) {
                (Some(dst), Some(src)) => vector::extends(
                    s,
                    s1,
                    seq![
                        IrOp::VMaskMov {
                            dst,
                            src,
                            k,
                            elem,
                            zeroing,
                            bytes: vector::wide(insn.op0),
                        },
                    ],
                ),
                (Some(dst), None) => if vector::memory(insn.op1) {
                    vector::extends(
                        s2,
                        s1,
                        seq![
                            IrOp::VMaskLoadMem {
                                dst,
                                addr,
                                k,
                                elem,
                                zeroing,
                                bytes: vector::wide(insn.op0),
                            },
                        ],
                    )
                } else {
                    !s1.ok
                },
                (None, Some(src)) => if vector::memory(insn.op0) {
                    vector::extends(
                        s2,
                        s1,
                        seq![
                            IrOp::VMaskStoreMem {
                                src,
                                addr,
                                k,
                                elem,
                                bytes: vector::wide(insn.op1),
                            },
                        ],
                    )
                } else {
                    !s1.ok
                },
                (None, None) => !s1.ok,
            },
        }
    } else if vector::zmm(insn.op0) is Some || vector::zmm(insn.op1) is Some {
        moves_all(insn, vector::zmm(insn.op0), vector::zmm(insn.op1), 64, s, s1)
    } else if vector::ymm(insn.op0) is Some || vector::ymm(insn.op1) is Some {
        moves_all(insn, vector::ymm(insn.op0), vector::ymm(insn.op1), 32, s, s1)
    } else {
        clears(insn, s, s1, 16)
    }
}

/// One half of a register goes into one half of another.
#[verifier::opaque]
pub open spec fn moves_half(
    insn: &Insn,
    s: Emission,
    s1: Emission,
    dst_high: bool,
    src_high: bool,
) -> bool {
    match (vector::xmm(insn.op0), vector::xmm(insn.op1)) {
        (Some(dst), Some(src)) => vector::extends(
            s,
            s1,
            seq![IrOp::VMoveHalf { dst, src, dst_high, src_high }],
        ),
        _ => !s1.ok,
    }
}

/// Eight bytes between memory and one half of a register.
pub open spec fn half(insn: &Insn, s: Emission, s1: Emission, high: bool) -> bool {
    let (s2, addr) = operand::address(insn, s);
    if vector::xmm(insn.op0) is Some && vector::memory(insn.op1) {
        vector::extends(
            s2,
            s1,
            seq![IrOp::VLoadHalf { dst: vector::xmm(insn.op0)->0, addr, high }],
        )
    } else if vector::xmm(insn.op1) is Some && vector::memory(insn.op0) {
        vector::extends(
            s2,
            s1,
            seq![IrOp::VStoreHalf { addr, src: vector::xmm(insn.op1)->0, high }],
        )
    } else {
        !s1.ok
    }
}

/// As above.
#[verifier::opaque]
pub open spec fn moves_half_memory(insn: &Insn, s: Emission, s1: Emission, high: bool) -> bool {
    half(insn, s, s1, high)
}

/// A load takes the other half from the first source.
#[verifier::opaque]
pub open spec fn moves_half_memory_apart(
    insn: &Insn,
    s: Emission,
    s1: Emission,
    high: bool,
) -> bool {
    if vector::memory(insn.op0) {
        half(insn, s, s1, high)
    } else {
        match (vector::xmm(insn.op0), vector::xmm(insn.op1)) {
            (Some(dst), Some(a)) => if vector::memory(insn.op2) {
                let (s2, addr) = operand::address(insn, s);
                vector::extends(
                    s2,
                    s1,
                    vector::in_place(dst, a, IrOp::VLoadHalf { dst, addr, high }),
                )
            } else {
                !s1.ok
            },
            _ => !s1.ok,
        }
    }
}

/// From an MMX register to a vector register.
#[verifier::opaque]
pub open spec fn moves_from_mmx(insn: &Insn, s: Emission, s1: Emission) -> bool {
    match (vector::xmm(insn.op0), vector::mmx(insn.op1)) {
        (Some(dst), Some(src_mm)) => vector::extends(
            s,
            s1,
            seq![IrOp::Movq2dq { dst, src_mm }],
        ),
        _ => !s1.ok,
    }
}

/// From a vector register to an MMX register.
#[verifier::opaque]
pub open spec fn moves_to_mmx(insn: &Insn, s: Emission, s1: Emission) -> bool {
    match (vector::mmx(insn.op0), vector::xmm(insn.op1)) {
        (Some(dst_mm), Some(src_xmm)) => vector::extends(
            s,
            s1,
            seq![IrOp::Movdq2q { dst_mm, src_xmm }],
        ),
        _ => !s1.ok,
    }
}

/// `op` leaves a number in a fresh temporary, and operand 0 takes it.
pub open spec fn gathered(insn: &Insn, s: Emission, s1: Emission, op: IrOp) -> bool {
    s1 == operand::store(insn, 0, Val::Temp(s.next), s.def(op))
}

/// The top bits of the bytes.
#[verifier::opaque]
pub open spec fn gathers_bytes(insn: &Insn, s: Emission, s1: Emission) -> bool {
    match vector::xmm(insn.op1) {
        Some(src) => gathered(insn, s, s1, IrOp::VMoveMaskB { dst: s.next, src }),
        None => !s1.ok,
    }
}

/// The top bits of the bytes, of 256 bits or 128.
#[verifier::opaque]
pub open spec fn gathers_bytes_wide(insn: &Insn, s: Emission, s1: Emission) -> bool {
    match (vector::ymm(insn.op1), vector::xmm(insn.op1)) {
        (Some(src), _) => gathered(insn, s, s1, IrOp::VMoveMaskB256 { dst: s.next, src }),
        (None, Some(src)) => gathered(insn, s, s1, IrOp::VMoveMaskB { dst: s.next, src }),
        (None, None) => !s1.ok,
    }
}

/// The signs of floats of `elem` bytes.
#[verifier::opaque]
pub open spec fn gathers_signs(insn: &Insn, s: Emission, s1: Emission, elem: u8) -> bool {
    match vector::xmm(insn.op1) {
        Some(src) => gathered(insn, s, s1, IrOp::VMoveMaskFp { dst: s.next, src, elem }),
        None => !s1.ok,
    }
}

/// The word that the immediate numbers is replaced.
#[verifier::opaque]
pub open spec fn puts_word(insn: &Insn, s: Emission, s1: Emission) -> bool {
    match vector::xmm(insn.op0) {
        Some(dst) => {
            let (s2, src) = operand::read(insn, 1, s);
            vector::extends(
                s2,
                s1,
                seq![IrOp::VInsertW { dst, src, index: vector::byte(insn.op2) }],
            )
        },
        None => !s1.ok,
    }
}

/// The lane that the immediate numbers is replaced: of the destination, or with four operands
/// of the first source.
#[verifier::opaque]
pub open spec fn puts_lane(insn: &Insn, s: Emission, s1: Emission, size: u8) -> bool {
    match vector::xmm(insn.op0) {
        None => !s1.ok,
        Some(dst) => if insn.op_count == 4 {
            match vector::xmm(insn.op1) {
                Some(base) => {
                    let (s2, src) = operand::read(insn, 2, s);
                    let index = vector::byte(insn.op3);
                    vector::extends(
                        s2,
                        s1,
                        seq![
                            IrOp::VInsertLane { dst, base, src, index, size },
                            IrOp::VZeroUpper { reg: dst },
                        ],
                    )
                },
                None => !s1.ok,
            }
        } else {
            let (s2, src) = operand::read(insn, 1, s);
            let index = vector::byte(insn.op2);
            vector::extends(
                s2,
                s1,
                seq![IrOp::VInsertLane { dst, base: dst, src, index, size }],
            )
        },
    }
}

/// The word that the immediate numbers goes to operand 0.
#[verifier::opaque]
pub open spec fn takes_word(insn: &Insn, s: Emission, s1: Emission) -> bool {
    match vector::xmm(insn.op1) {
        Some(src) => gathered(
            insn,
            s,
            s1,
            IrOp::VExtractW { dst: s.next, src, index: vector::byte(insn.op2) },
        ),
        None => !s1.ok,
    }
}

/// The lane of `size` bytes that the immediate numbers goes to operand 0.
#[verifier::opaque]
pub open spec fn takes_lane(insn: &Insn, s: Emission, s1: Emission, size: u8) -> bool {
    match vector::xmm(insn.op1) {
        Some(src) => gathered(
            insn,
            s,
            s1,
            IrOp::VExtractLane { dst: s.next, src, index: vector::byte(insn.op2), size },
        ),
        None => !s1.ok,
    }
}

/// All vector registers lose their bits above 128, or all bits.
#[verifier::opaque]
pub open spec fn zeroes(insn: &Insn, s: Emission, s1: Emission, clear_low: bool) -> bool {
    vector::extends(s, s1, seq![IrOp::VZeroUpperAll { clear_low }])
}

proof fn lemma_moves(insn: &Insn, size: u8, s: Emission)
    ensures
        moves_bytes(insn, s, vmove::vmov(insn, size, s), size),
        moves(insn, s, vmove::vmov(insn, size, s), size),
        clears(insn, s, vmove::vmov_vex(insn, size, s), size),
        moves_clearing(insn, s, vmove::vmov_vex(insn, size, s), size),
{
    reveal(moves);
    reveal(moves_clearing);
    reveal(vmove::vmov);
    assert(moves_bytes(insn, s, vmove::vmov(insn, size, s), size));
    reveal(vmove::vmov_vex);
}

proof fn lemma_moves_wide(insn: &Insn, elem: u8, s: Emission)
    ensures
        moves_wide(insn, s, vmove::vmov_avx(insn, elem, s), elem),
{
    lemma_moves(insn, 16, s);
    reveal(moves_wide);
    reveal(vmove::vmov_wide);
    reveal(vmove::vmov_avx);
}

proof fn lemma_halves(insn: &Insn, dst_high: bool, src_high: bool, s: Emission)
    ensures
        moves_half(insn, s, vmove::move_half(insn, dst_high, src_high, s), dst_high, src_high),
        moves_half_memory(insn, s, vmove::half_mem(insn, dst_high, s), dst_high),
        moves_half_memory_apart(insn, s, vmove::vhalf_mem(insn, dst_high, s), dst_high),
{
    reveal(moves_half);
    reveal(moves_half_memory);
    reveal(moves_half_memory_apart);
    reveal(vmove::move_half);
    reveal(vmove::half_mem);
    reveal(vmove::vhalf_mem);
}

proof fn lemma_gathers(insn: &Insn, elem: u8, s: Emission)
    ensures
        moves_from_mmx(insn, s, vmove::movq2dq(insn, s)),
        moves_to_mmx(insn, s, vmove::movdq2q(insn, s)),
        gathers_bytes(insn, s, vmove::pmovmskb(insn, s)),
        gathers_bytes_wide(insn, s, vmove::vpmovmskb(insn, s)),
        gathers_signs(insn, s, vmove::movmskfp(insn, elem, s), elem),
{
    reveal(moves_from_mmx);
    reveal(moves_to_mmx);
    reveal(gathers_bytes);
    reveal(gathers_bytes_wide);
    reveal(gathers_signs);
    reveal(vmove::movq2dq);
    reveal(vmove::movdq2q);
    reveal(vmove::pmovmskb);
    reveal(vmove::vpmovmskb);
    reveal(vmove::movmskfp);
}

proof fn lemma_puts(insn: &Insn, size: u8, s: Emission)
    ensures
        puts_word(insn, s, vmove::pinsrw(insn, s)),
        puts_lane(insn, s, vmove::pinsr(insn, size, s), size),
        takes_word(insn, s, vmove::pextrw(insn, s)),
        takes_lane(insn, s, vmove::pextr(insn, size, s), size),
{
    reveal(puts_word);
    reveal(puts_lane);
    reveal(takes_word);
    reveal(takes_lane);
    reveal(vmove::pinsrw);
    reveal(vmove::pinsr);
    reveal(vmove::pextrw);
    reveal(vmove::pextr);
}

// --- by name ---

/// The form of an instruction says what is emitted.
#[verifier::opaque]
spec fn formed(form: MoveForm, insn: &Insn, s: Emission, s1: Emission) -> bool {
    match form {
        MoveForm::Mov(size) => moves(insn, s, s1, size),
        MoveForm::MovVex(size) => moves_clearing(insn, s, s1, size),
        MoveForm::MovAvx(elem) => moves_wide(insn, s, s1, elem),
        MoveForm::MoveHalf(dst_high, src_high) => moves_half(insn, s, s1, dst_high, src_high),
        MoveForm::HalfMem(high) => moves_half_memory(insn, s, s1, high),
        MoveForm::HalfMemVex(high) => moves_half_memory_apart(insn, s, s1, high),
        MoveForm::Movq2dq => moves_from_mmx(insn, s, s1),
        MoveForm::Movdq2q => moves_to_mmx(insn, s, s1),
        MoveForm::MoveMask => gathers_bytes(insn, s, s1),
        MoveForm::MoveMaskVex => gathers_bytes_wide(insn, s, s1),
        MoveForm::MoveMaskFloat(elem) => gathers_signs(insn, s, s1, elem),
        MoveForm::Pinsrw => puts_word(insn, s, s1),
        MoveForm::Pinsr(size) => puts_lane(insn, s, s1, size),
        MoveForm::Pextrw => takes_word(insn, s, s1),
        MoveForm::Pextr(size) => takes_lane(insn, s, s1, size),
        MoveForm::ZeroUpper(clear_low) => zeroes(insn, s, s1, clear_low),
    }
}

proof fn lemma_formed(insn: &Insn, mode: CpuMode, s: Emission)
    ensures
        table::move_form(insn.mnemonic) is Some ==> formed(
            table::move_form(insn.mnemonic)->0,
            insn,
            s,
            dispatch::insn_ir(insn, mode, s).0,
        ),
{
    reveal(formed);
    match table::move_form(insn.mnemonic) {
        Some(form) => {
            vector::lemma_move(insn, mode, s, form);
            match form {
                MoveForm::Mov(size) => lemma_moves(insn, size, s),
                MoveForm::MovVex(size) => lemma_moves(insn, size, s),
                MoveForm::MovAvx(elem) => lemma_moves_wide(insn, elem, s),
                MoveForm::MoveHalf(dst_high, src_high) => lemma_halves(
                    insn,
                    dst_high,
                    src_high,
                    s,
                ),
                MoveForm::HalfMem(high) => lemma_halves(insn, high, high, s),
                MoveForm::HalfMemVex(high) => lemma_halves(insn, high, high, s),
                MoveForm::MoveMaskFloat(elem) => lemma_gathers(insn, elem, s),
                MoveForm::Movq2dq | MoveForm::Movdq2q => lemma_gathers(insn, 0, s),
                MoveForm::MoveMask | MoveForm::MoveMaskVex => lemma_gathers(insn, 0, s),
                MoveForm::Pinsrw | MoveForm::Pextrw => lemma_puts(insn, 2, s),
                MoveForm::Pinsr(size) => lemma_puts(insn, size, s),
                MoveForm::Pextr(size) => lemma_puts(insn, size, s),
                MoveForm::ZeroUpper(clear_low) => {
                    reveal(zeroes);
                },
            }
        },
        None => {},
    }
}

/// Moves of whole registers, aligned or not, and of doublewords and quadwords.
#[verifier::rlimit(50)]
pub proof fn law_vector_moves(insn: &Insn, mode: CpuMode, s: Emission)
    ensures
        ({
            let s1 = dispatch::insn_ir(insn, mode, s).0;
            let name = insn.mnemonic;
            &&& name == mn::MOVDQA ==> moves(insn, s, s1, 16)
            &&& name == mn::MOVDQU ==> moves(insn, s, s1, 16)
            &&& name == mn::MOVAPS ==> moves(insn, s, s1, 16)
            &&& name == mn::MOVUPS ==> moves(insn, s, s1, 16)
            &&& name == mn::MOVAPD ==> moves(insn, s, s1, 16)
            &&& name == mn::MOVUPD ==> moves(insn, s, s1, 16)
            &&& name == mn::MOVNTDQ ==> moves(insn, s, s1, 16)
            &&& name == mn::MOVNTPS ==> moves(insn, s, s1, 16)
            &&& name == mn::MOVNTPD ==> moves(insn, s, s1, 16)
            &&& name == mn::MOVNTDQA ==> moves(insn, s, s1, 16)
            &&& name == mn::MOVQ ==> moves(insn, s, s1, 8)
            &&& name == mn::MOVD ==> moves(insn, s, s1, 4)
            &&& name == mn::VMOVDQA ==> moves_wide(insn, s, s1, 4)
            &&& name == mn::VMOVDQU ==> moves_wide(insn, s, s1, 4)
            &&& name == mn::VMOVAPS ==> moves_wide(insn, s, s1, 4)
            &&& name == mn::VMOVUPS ==> moves_wide(insn, s, s1, 4)
            &&& name == mn::VMOVAPD ==> moves_wide(insn, s, s1, 4)
            &&& name == mn::VMOVUPD ==> moves_wide(insn, s, s1, 4)
            &&& name == mn::VMOVNTDQ ==> moves_wide(insn, s, s1, 4)
            &&& name == mn::VMOVNTPS ==> moves_wide(insn, s, s1, 4)
            &&& name == mn::VMOVNTPD ==> moves_wide(insn, s, s1, 4)
            &&& name == mn::VMOVNTDQA ==> moves_wide(insn, s, s1, 4)
            &&& name == mn::VMOVDQU8 ==> moves_wide(insn, s, s1, 1)
            &&& name == mn::VMOVDQU16 ==> moves_wide(insn, s, s1, 2)
            &&& name == mn::VMOVDQU32 ==> moves_wide(insn, s, s1, 4)
            &&& name == mn::VMOVDQA32 ==> moves_wide(insn, s, s1, 4)
            &&& name == mn::VMOVDQU64 ==> moves_wide(insn, s, s1, 8)
            &&& name == mn::VMOVDQA64 ==> moves_wide(insn, s, s1, 8)
            &&& name == mn::VMOVQ ==> moves_clearing(insn, s, s1, 8)
            &&& name == mn::VMOVD ==> moves_clearing(insn, s, s1, 4)
        }),
{
    lemma_formed(insn, mode, s);
    reveal(formed);
}

/// Moves of halves, to and from MMX, and of the top bits.
#[verifier::rlimit(50)]
pub proof fn law_half_moves(insn: &Insn, mode: CpuMode, s: Emission)
    ensures
        ({
            let s1 = dispatch::insn_ir(insn, mode, s).0;
            let name = insn.mnemonic;
            &&& name == mn::MOVLHPS ==> moves_half(insn, s, s1, true, false)
            &&& name == mn::MOVHLPS ==> moves_half(insn, s, s1, false, true)
            &&& name == mn::MOVHPS ==> moves_half_memory(insn, s, s1, true)
            &&& name == mn::MOVHPD ==> moves_half_memory(insn, s, s1, true)
            &&& name == mn::MOVLPS ==> moves_half_memory(insn, s, s1, false)
            &&& name == mn::MOVLPD ==> moves_half_memory(insn, s, s1, false)
            &&& name == mn::VMOVHPS ==> moves_half_memory_apart(insn, s, s1, true)
            &&& name == mn::VMOVHPD ==> moves_half_memory_apart(insn, s, s1, true)
            &&& name == mn::VMOVLPS ==> moves_half_memory_apart(insn, s, s1, false)
            &&& name == mn::VMOVLPD ==> moves_half_memory_apart(insn, s, s1, false)
            &&& name == mn::MOVQ2DQ ==> moves_from_mmx(insn, s, s1)
            &&& name == mn::MOVDQ2Q ==> moves_to_mmx(insn, s, s1)
            &&& name == mn::PMOVMSKB ==> gathers_bytes(insn, s, s1)
            &&& name == mn::VPMOVMSKB ==> gathers_bytes_wide(insn, s, s1)
            &&& name == mn::MOVMSKPS ==> gathers_signs(insn, s, s1, 4)
            &&& name == mn::VMOVMSKPS ==> gathers_signs(insn, s, s1, 4)
            &&& name == mn::MOVMSKPD ==> gathers_signs(insn, s, s1, 8)
            &&& name == mn::VMOVMSKPD ==> gathers_signs(insn, s, s1, 8)
        }),
{
    lemma_formed(insn, mode, s);
    reveal(formed);
}

/// Lanes put in and taken out, and registers cleared.
#[verifier::rlimit(50)]
pub proof fn law_lane_moves(insn: &Insn, mode: CpuMode, s: Emission)
    ensures
        ({
            let s1 = dispatch::insn_ir(insn, mode, s).0;
            let name = insn.mnemonic;
            &&& name == mn::PINSRW ==> puts_word(insn, s, s1)
            &&& name == mn::PEXTRW ==> takes_word(insn, s, s1)
            &&& name == mn::VPEXTRW ==> takes_word(insn, s, s1)
            &&& name == mn::PEXTRB ==> takes_lane(insn, s, s1, 1)
            &&& name == mn::VPEXTRB ==> takes_lane(insn, s, s1, 1)
            &&& name == mn::PEXTRD ==> takes_lane(insn, s, s1, 4)
            &&& name == mn::VPEXTRD ==> takes_lane(insn, s, s1, 4)
            &&& name == mn::VEXTRACTPS ==> takes_lane(insn, s, s1, 4)
            &&& name == mn::PEXTRQ ==> takes_lane(insn, s, s1, 8)
            &&& name == mn::VPEXTRQ ==> takes_lane(insn, s, s1, 8)
            &&& name == mn::PINSRB ==> puts_lane(insn, s, s1, 1)
            &&& name == mn::VPINSRB ==> puts_lane(insn, s, s1, 1)
            &&& name == mn::VPINSRW ==> puts_lane(insn, s, s1, 2)
            &&& name == mn::PINSRD ==> puts_lane(insn, s, s1, 4)
            &&& name == mn::VPINSRD ==> puts_lane(insn, s, s1, 4)
            &&& name == mn::PINSRQ ==> puts_lane(insn, s, s1, 8)
            &&& name == mn::VPINSRQ ==> puts_lane(insn, s, s1, 8)
            &&& name == mn::VZEROUPPER ==> zeroes(insn, s, s1, false)
            &&& name == mn::VZEROALL ==> zeroes(insn, s, s1, true)
        }),
{
    lemma_formed(insn, mode, s);
    reveal(formed);
}

} // verus!
