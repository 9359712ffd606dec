//! Packed integer arithmetic, logic and shifts.
use crate::insn::Insn;
use crate::ir::{IrOp, PackedBinOp, VLogicOp};
use crate::lift::emit::{Emission, Emitter};
use crate::lift::operand::{
    effective_address, evex_is_masked, evex_writemask, reg_vec, reg_xmm, reg_ymm, reg_zmm,
    source, unsupported_insn, vec_operand, vec_operand_reg, Source,
};
use crate::lift::{emit, operand, LiftError};
use crate::op_kind;
use vstd::prelude::*;

verus! {

broadcast use operand::group_failed;

#[verifier::opaque]
pub open spec fn vlogic(insn: &Insn, op: VLogicOp, s: Emission) -> Emission {
    if reg_xmm(insn, 0) is None {
        s.fail()
    } else {
        let d = reg_xmm(insn, 0)->0;
        match source(reg_xmm(insn, 1), insn, 1) {
            Source::Reg(b) => {
                s.push(IrOp::VLogic { dst: d, a: d, b, op })
            },
            Source::Mem => {
                let (s1, addr) = operand::address(insn, s);
                s1.push(IrOp::VLogicM { dst: d, addr, op })
            },
            Source::Neither => s.fail(),
        }
    }
}

/// `pxor`/`pand`/`por`/`pandn` and the float aliases: `dst = op(dst, src)`.
pub fn lift_vlogic(insn: &Insn, em: &mut Emitter, op: VLogicOp) -> (r: Result<(), LiftError>)
    requires
        old(em)@.ready(64),
    ensures
        emit::lifted(old(em)@, final(em)@, vlogic(insn, op, old(em)@), insn, r),
{
    reveal(vlogic);
    let d = match reg_xmm(insn, 0) {
        Some(d) => d,
        None => {
            return Err(unsupported_insn(insn));
        },
    };
    match source(reg_xmm(insn, 1), insn, 1) {
        Source::Reg(b) => {
            em.push(IrOp::VLogic { dst: d, a: d, b, op });
        },
        Source::Mem => {
            let addr = match effective_address(insn, em) {
                Ok(addr) => addr,
                Err(e) => {
                    return Err(e);
                },
            };
            em.push(IrOp::VLogicM { dst: d, addr, op });
        },
        Source::Neither => {
            return Err(unsupported_insn(insn));
        },
    }
    Ok(())
}

#[verifier::opaque]
pub open spec fn vpacked_bin(insn: &Insn, lane: u8, op: PackedBinOp, s: Emission) -> Emission {
    if reg_xmm(insn, 0) is None {
        s.fail()
    } else {
        let d = reg_xmm(insn, 0)->0;
        match source(reg_xmm(insn, 1), insn, 1) {
            Source::Reg(b) => {
                s.push(IrOp::VPackedBin { dst: d, a: d, b, lane, op })
            },
            Source::Mem => {
                let (s1, addr) = operand::address(insn, s);
                s1.push(IrOp::VPackedBinM { dst: d, addr, lane, op })
            },
            Source::Neither => s.fail(),
        }
    }
}

/// Packed integer arithmetic `dst = op(dst, src)` per `lane` bytes.
pub fn lift_vpacked_bin(
    insn: &Insn,
    em: &mut Emitter,
    lane: u8,
    op: PackedBinOp,
) -> (r: Result<(), LiftError>)
    requires
        old(em)@.ready(64),
    ensures
        emit::lifted(old(em)@, final(em)@, vpacked_bin(insn, lane, op, old(em)@), insn, r),
{
    reveal(vpacked_bin);
    let d = match reg_xmm(insn, 0) {
        Some(d) => d,
        None => {
            return Err(unsupported_insn(insn));
        },
    };
    match source(reg_xmm(insn, 1), insn, 1) {
        Source::Reg(b) => {
            em.push(IrOp::VPackedBin { dst: d, a: d, b, lane, op });
        },
        Source::Mem => {
            let addr = match effective_address(insn, em) {
                Ok(addr) => addr,
                Err(e) => {
                    return Err(e);
                },
            };
            em.push(IrOp::VPackedBinM { dst: d, addr, lane, op });
        },
        Source::Neither => {
            return Err(unsupported_insn(insn));
        },
    }
    Ok(())
}

/// The memory form works on the destination, which takes op1 first where they differ. The
/// upper bits are cleared.
#[verifier::opaque]
pub open spec fn vlogic_vex(insn: &Insn, op: VLogicOp, s: Emission) -> Emission {
    if reg_xmm(insn, 0) is None || reg_xmm(insn, 1) is None {
        s.fail()
    } else {
        let d = reg_xmm(insn, 0)->0;
        let a = reg_xmm(insn, 1)->0;
        let s3 = match source(reg_xmm(insn, 2), insn, 2) {
            Source::Reg(b) => {
                s.push(IrOp::VLogic { dst: d, a, b, op })
            },
            Source::Mem => {
                let (s1, addr) = operand::address(insn, s);
                let s2 = if d != a {
                    s1.push(IrOp::VMov { dst: d, src: a })
                } else {
                    s1
                };
                s2.push(IrOp::VLogicM { dst: d, addr, op })
            },
            Source::Neither => s.fail(),
        };
        s3.push(IrOp::VZeroUpper { reg: d })
    }
}

/// VEX.128 three-operand bitwise logic.
pub fn lift_vlogic_vex(insn: &Insn, em: &mut Emitter, op: VLogicOp) -> (r: Result<(), LiftError>)
    requires
        old(em)@.ready(64),
    ensures
        emit::lifted(old(em)@, final(em)@, vlogic_vex(insn, op, old(em)@), insn, r),
{
    reveal(vlogic_vex);
    let d = match reg_xmm(insn, 0) {
        Some(d) => d,
        None => {
            return Err(unsupported_insn(insn));
        },
    };
    let a = match reg_xmm(insn, 1) {
        Some(a) => a,
        None => {
            return Err(unsupported_insn(insn));
        },
    };
    match source(reg_xmm(insn, 2), insn, 2) {
        Source::Reg(b) => {
            em.push(IrOp::VLogic { dst: d, a, b, op });
        },
        Source::Mem => {
            let addr = match effective_address(insn, em) {
                Ok(addr) => addr,
                Err(e) => {
                    return Err(e);
                },
            };
            if d != a {
                em.push(IrOp::VMov { dst: d, src: a });
            }
            em.push(IrOp::VLogicM { dst: d, addr, op });
        },
        Source::Neither => {
            return Err(unsupported_insn(insn));
        },
    }
    em.push(IrOp::VZeroUpper { reg: d });
    Ok(())
}

#[verifier::opaque]
pub open spec fn vlogic_avx(insn: &Insn, op: VLogicOp, s: Emission) -> Emission {
    match (reg_ymm(insn, 0), reg_ymm(insn, 1)) {
        (None, _) => vlogic_vex(insn, op, s),
        (Some(d), Some(a)) => match source(reg_ymm(insn, 2), insn, 2) {
            Source::Reg(b) => s.push(IrOp::VLogic256 { dst: d, a, b, op }),
            Source::Mem => {
                let (s1, addr) = operand::address(insn, s);
                s1.push(IrOp::VLogic256M { dst: d, a, addr, op })
            },
            Source::Neither => s.fail(),
        },
        (Some(_), None) => s.fail(),
    }
}

/// VEX bitwise logic of 256 or 128 bits.
pub fn lift_vlogic_avx(insn: &Insn, em: &mut Emitter, op: VLogicOp) -> (r: Result<(), LiftError>)
    requires
        old(em)@.ready(64),
    ensures
        emit::lifted(old(em)@, final(em)@, vlogic_avx(insn, op, old(em)@), insn, r),
{
    reveal(vlogic_avx);
    match (reg_ymm(insn, 0), reg_ymm(insn, 1)) {
        (None, _) => lift_vlogic_vex(insn, em, op),
        (Some(d), Some(a)) => match source(reg_ymm(insn, 2), insn, 2) {
            Source::Reg(b) => {
                em.push(IrOp::VLogic256 { dst: d, a, b, op });
                Ok(())
            },
            Source::Mem => match effective_address(insn, em) {
                Ok(addr) => {
                    em.push(IrOp::VLogic256M { dst: d, a, addr, op });
                    Ok(())
                },
                Err(e) => Err(e),
            },
            Source::Neither => Err(unsupported_insn(insn)),
        },
        (Some(_), None) => Err(unsupported_insn(insn)),
    }
}

/// The memory form works on the destination, which takes op1 first where they differ. The
/// upper bits are cleared.
#[verifier::opaque]
pub open spec fn vpacked_bin_vex(
    insn: &Insn,
    lane: u8,
    op: PackedBinOp,
    s: Emission,
) -> Emission {
    if reg_xmm(insn, 0) is None || reg_xmm(insn, 1) is None {
        s.fail()
    } else {
        let d = reg_xmm(insn, 0)->0;
        let a = reg_xmm(insn, 1)->0;
        let s3 = match source(reg_xmm(insn, 2), insn, 2) {
            Source::Reg(b) => {
                s.push(IrOp::VPackedBin { dst: d, a, b, lane, op })
            },
            Source::Mem => {
                let (s1, addr) = operand::address(insn, s);
                let s2 = if d != a {
                    s1.push(IrOp::VMov { dst: d, src: a })
                } else {
                    s1
                };
                s2.push(IrOp::VPackedBinM { dst: d, addr, lane, op })
            },
            Source::Neither => s.fail(),
        };
        s3.push(IrOp::VZeroUpper { reg: d })
    }
}

/// VEX.128 three-operand packed integer arithmetic.
pub fn lift_vpacked_bin_vex(
    insn: &Insn,
    em: &mut Emitter,
    lane: u8,
    op: PackedBinOp,
) -> (r: Result<(), LiftError>)
    requires
        old(em)@.ready(64),
    ensures
        emit::lifted(old(em)@, final(em)@, vpacked_bin_vex(insn, lane, op, old(em)@), insn, r),
{
    reveal(vpacked_bin_vex);
    let d = match reg_xmm(insn, 0) {
        Some(d) => d,
        None => {
            return Err(unsupported_insn(insn));
        },
    };
    let a = match reg_xmm(insn, 1) {
        Some(a) => a,
        None => {
            return Err(unsupported_insn(insn));
        },
    };
    match source(reg_xmm(insn, 2), insn, 2) {
        Source::Reg(b) => {
            em.push(IrOp::VPackedBin { dst: d, a, b, lane, op });
        },
        Source::Mem => {
            let addr = match effective_address(insn, em) {
                Ok(addr) => addr,
                Err(e) => {
                    return Err(e);
                },
            };
            if d != a {
                em.push(IrOp::VMov { dst: d, src: a });
            }
            em.push(IrOp::VPackedBinM { dst: d, addr, lane, op });
        },
        Source::Neither => {
            return Err(unsupported_insn(insn));
        },
    }
    em.push(IrOp::VZeroUpper { reg: d });
    Ok(())
}

/// A write mask calls for register sources; zeroing without a mask is not supported at 512
/// bits.
#[verifier::opaque]
pub open spec fn vpacked_bin_avx(
    insn: &Insn,
    lane: u8,
    op: PackedBinOp,
    s: Emission,
) -> Emission {
    if let Some(k) = evex_writemask(insn) {
        match (vec_operand(insn, 0), vec_operand_reg(insn, 1), vec_operand_reg(insn, 2)) {
            (Some((dst, bytes)), Some(a), Some(b)) => s.push(
                IrOp::VMaskedPacked { dst, a, b, op, k, elem: lane, zeroing: insn.zeroing, bytes },
            ),
            _ => s.fail(),
        }
    } else if let Some(d) = reg_zmm(insn, 0) {
        if evex_is_masked(insn) || reg_zmm(insn, 1) is None {
            s.fail()
        } else {
            let a = reg_zmm(insn, 1)->0;
            match source(reg_zmm(insn, 2), insn, 2) {
                Source::Reg(b) => s.push(
                    IrOp::VPackedWide { dst: d, a, b, lane, op, bytes: 64 },
                ),
                Source::Mem => {
                    let (s1, addr) = operand::address(insn, s);
                    s1.push(IrOp::VPackedWideM { dst: d, a, addr, lane, op, bytes: 64 })
                },
                Source::Neither => s.fail(),
            }
        }
    } else if let Some(d) = reg_ymm(insn, 0) {
        if reg_ymm(insn, 1) is None {
            s.fail()
        } else {
            let a = reg_ymm(insn, 1)->0;
            match source(reg_ymm(insn, 2), insn, 2) {
                Source::Reg(b) => s.push(IrOp::VPackedBin256 { dst: d, a, b, lane, op }),
                Source::Mem => {
                    let (s1, addr) = operand::address(insn, s);
                    s1.push(IrOp::VPackedBin256M { dst: d, a, addr, lane, op })
                },
                Source::Neither => s.fail(),
            }
        }
    } else {
        vpacked_bin_vex(insn, lane, op, s)
    }
}

/// VEX and EVEX packed integer arithmetic of any width.
pub fn lift_vpacked_bin_avx(
    insn: &Insn,
    em: &mut Emitter,
    lane: u8,
    op: PackedBinOp,
) -> (r: Result<(), LiftError>)
    requires
        old(em)@.ready(64),
    ensures
        emit::lifted(old(em)@, final(em)@, vpacked_bin_avx(insn, lane, op, old(em)@), insn, r),
{
    reveal(vpacked_bin_avx);
    if let Some(k) = evex_writemask(insn) {
        match (vec_operand(insn, 0), vec_operand_reg(insn, 1), vec_operand_reg(insn, 2)) {
            (Some((dst, bytes)), Some(a), Some(b)) => {
                em.push(
                    IrOp::VMaskedPacked {
                        dst,
                        a,
                        b,
                        op,
                        k,
                        elem: lane,
                        zeroing: insn.zeroing,
                        bytes,
                    },
                );
                Ok(())
            },
            _ => Err(unsupported_insn(insn)),
        }
    } else if let Some(d) = reg_zmm(insn, 0) {
        if evex_is_masked(insn) {
            return Err(unsupported_insn(insn));
        }
        let a = match reg_zmm(insn, 1) {
            Some(a) => a,
            None => {
                return Err(unsupported_insn(insn));
            },
        };
        match source(reg_zmm(insn, 2), insn, 2) {
            Source::Reg(b) => {
                em.push(IrOp::VPackedWide { dst: d, a, b, lane, op, bytes: 64 });
                Ok(())
            },
            Source::Mem => match effective_address(insn, em) {
                Ok(addr) => {
                    em.push(IrOp::VPackedWideM { dst: d, a, addr, lane, op, bytes: 64 });
                    Ok(())
                },
                Err(e) => Err(e),
            },
            Source::Neither => Err(unsupported_insn(insn)),
        }
    } else if let Some(d) = reg_ymm(insn, 0) {
        let a = match reg_ymm(insn, 1) {
            Some(a) => a,
            None => {
                return Err(unsupported_insn(insn));
            },
        };
        match source(reg_ymm(insn, 2), insn, 2) {
            Source::Reg(b) => {
                em.push(IrOp::VPackedBin256 { dst: d, a, b, lane, op });
                Ok(())
            },
            Source::Mem => match effective_address(insn, em) {
                Ok(addr) => {
                    em.push(IrOp::VPackedBin256M { dst: d, a, addr, lane, op });
                    Ok(())
                },
                Err(e) => Err(e),
            },
            Source::Neither => Err(unsupported_insn(insn)),
        }
    } else {
        lift_vpacked_bin_vex(insn, em, lane, op)
    }
}

#[verifier::opaque]
pub open spec fn evex_packed_bin_128(
    insn: &Insn,
    lane: u8,
    op: PackedBinOp,
    s: Emission,
) -> Emission {
    if evex_is_masked(insn) || reg_ymm(insn, 0).is_some() || reg_zmm(insn, 0).is_some() {
        s.fail()
    } else {
        vpacked_bin_vex(insn, lane, op, s)
    }
}

/// EVEX packed integer arithmetic that is supported at 128 bits without a mask only.
pub fn lift_evex_packed_bin_128(
    insn: &Insn,
    em: &mut Emitter,
    lane: u8,
    op: PackedBinOp,
) -> (r: Result<(), LiftError>)
    requires
        old(em)@.ready(64),
    ensures
        emit::lifted(
            old(em)@,
            final(em)@,
            evex_packed_bin_128(insn, lane, op, old(em)@),
            insn,
            r,
        ),
{
    reveal(evex_packed_bin_128);
    if evex_is_masked(insn) || reg_ymm(insn, 0).is_some() || reg_zmm(insn, 0).is_some() {
        return Err(unsupported_insn(insn));
    }
    lift_vpacked_bin_vex(insn, em, lane, op)
}

#[verifier::opaque]
pub open spec fn vpacked_shift(
    insn: &Insn,
    lane: u8,
    right: bool,
    arith: bool,
    s: Emission,
) -> Emission {
    if reg_xmm(insn, 0) is None {
        s.fail()
    } else {
        let d = reg_xmm(insn, 0)->0;
        if !op_kind::is_immediate(insn.op(1).kind) {
            s.fail()
        } else {
            s.push(IrOp::VPackedShift { dst: d, a: d, imm: insn.imm8(1), lane, right, arith })
        }
    }
}

/// Packed shift by an immediate; a register count is not supported.
pub fn lift_vpacked_shift(
    insn: &Insn,
    em: &mut Emitter,
    lane: u8,
    right: bool,
    arith: bool,
) -> (r: Result<(), LiftError>)
    requires
        old(em)@.ready(64),
    ensures
        emit::lifted(
            old(em)@,
            final(em)@,
            vpacked_shift(insn, lane, right, arith, old(em)@),
            insn,
            r,
        ),
{
    reveal(vpacked_shift);
    let d = match reg_xmm(insn, 0) {
        Some(d) => d,
        None => {
            return Err(unsupported_insn(insn));
        },
    };
    if !op_kind::is_immediate(insn.op(1).kind) {
        return Err(unsupported_insn(insn));
    }
    em.push(IrOp::VPackedShift { dst: d, a: d, imm: insn.imm8(1), lane, right, arith });
    Ok(())
}

#[verifier::opaque]
pub open spec fn vpacked_shift_avx(
    insn: &Insn,
    lane: u8,
    right: bool,
    arith: bool,
    s: Emission,
) -> Emission {
    if reg_vec(insn, 0) is None || reg_vec(insn, 1) is None {
        s.fail()
    } else {
        let d = reg_vec(insn, 0)->0;
        let a = reg_vec(insn, 1)->0;
        if !op_kind::is_immediate(insn.op(2).kind) {
            s.fail()
        } else {
            let imm: u8 = insn.imm8(2);
            if reg_ymm(insn, 0).is_some() {
                s.push(IrOp::VPackedShift256 { dst: d, a, imm, lane, right, arith })
            } else {
                let s1 = s.push(IrOp::VPackedShift { dst: d, a, imm, lane, right, arith });
                s1.push(IrOp::VZeroUpper { reg: d })
            }
        }
    }
}

/// VEX packed shift by an immediate, of 256 or 128 bits.
pub fn lift_vpacked_shift_avx(
    insn: &Insn,
    em: &mut Emitter,
    lane: u8,
    right: bool,
    arith: bool,
) -> (r: Result<(), LiftError>)
    requires
        old(em)@.ready(64),
    ensures
        emit::lifted(
            old(em)@,
            final(em)@,
            vpacked_shift_avx(insn, lane, right, arith, old(em)@),
            insn,
            r,
        ),
{
    reveal(vpacked_shift_avx);
    let d = match reg_vec(insn, 0) {
        Some(d) => d,
        None => {
            return Err(unsupported_insn(insn));
        },
    };
    let a = match reg_vec(insn, 1) {
        Some(a) => a,
        None => {
            return Err(unsupported_insn(insn));
        },
    };
    if !op_kind::is_immediate(insn.op(2).kind) {
        return Err(unsupported_insn(insn));
    }
    let imm: u8 = insn.imm8(2);
    if reg_ymm(insn, 0).is_some() {
        em.push(IrOp::VPackedShift256 { dst: d, a, imm, lane, right, arith });
        return Ok(());
    }
    em.push(IrOp::VPackedShift { dst: d, a, imm, lane, right, arith });
    em.push(IrOp::VZeroUpper { reg: d });
    Ok(())
}

#[verifier::opaque]
pub open spec fn byteshift(insn: &Insn, right: bool, s: Emission) -> Emission {
    if reg_xmm(insn, 0) is None {
        s.fail()
    } else {
        let d = reg_xmm(insn, 0)->0;
        s.push(IrOp::VByteShift { dst: d, a: d, bytes: insn.imm8(1), right })
    }
}

/// `psrldq`/`pslldq`: shifts the whole register by an immediate number of bytes.
pub fn lift_byteshift(insn: &Insn, em: &mut Emitter, right: bool) -> (r: Result<(), LiftError>)
    requires
        old(em)@.ready(64),
    ensures
        emit::lifted(old(em)@, final(em)@, byteshift(insn, right, old(em)@), insn, r),
{
    reveal(byteshift);
    let d = match reg_xmm(insn, 0) {
        Some(d) => d,
        None => {
            return Err(unsupported_insn(insn));
        },
    };
    em.push(IrOp::VByteShift { dst: d, a: d, bytes: insn.imm8(1), right });
    Ok(())
}

#[verifier::opaque]
pub open spec fn byteshift_avx(insn: &Insn, right: bool, s: Emission) -> Emission {
    if reg_xmm(insn, 0) is None || reg_xmm(insn, 1) is None {
        s.fail()
    } else {
        let d = reg_xmm(insn, 0)->0;
        let a = reg_xmm(insn, 1)->0;
        let s1 = s.push(IrOp::VByteShift { dst: d, a, bytes: insn.imm8(2), right });
        s1.push(IrOp::VZeroUpper { reg: d })
    }
}

/// VEX.128 `vpsrldq`/`vpslldq`.
pub fn lift_byteshift_avx(
    insn: &Insn,
    em: &mut Emitter,
    right: bool,
) -> (r: Result<(), LiftError>)
    requires
        old(em)@.ready(64),
    ensures
        emit::lifted(old(em)@, final(em)@, byteshift_avx(insn, right, old(em)@), insn, r),
{
    reveal(byteshift_avx);
    let d = match reg_xmm(insn, 0) {
        Some(d) => d,
        None => {
            return Err(unsupported_insn(insn));
        },
    };
    let a = match reg_xmm(insn, 1) {
        Some(a) => a,
        None => {
            return Err(unsupported_insn(insn));
        },
    };
    em.push(IrOp::VByteShift { dst: d, a, bytes: insn.imm8(2), right });
    em.push(IrOp::VZeroUpper { reg: d });
    Ok(())
}

#[verifier::opaque]
pub open spec fn psign(insn: &Insn, lane: u8, s: Emission) -> Emission {
    if reg_xmm(insn, 0) is None {
        s.fail()
    } else {
        let d = reg_xmm(insn, 0)->0;
        match source(reg_xmm(insn, 1), insn, 1) {
            Source::Reg(b) => {
                s.push(IrOp::VPsign { dst: d, a: d, b, lane })
            },
            Source::Mem => {
                let (s1, addr) = operand::address(insn, s);
                s1.push(IrOp::VPsignM { dst: d, a: d, addr, lane })
            },
            Source::Neither => s.fail(),
        }
    }
}

/// `psign{b,w,d}`: applies the signs of op1 to the lanes of op0.
pub fn lift_psign(insn: &Insn, em: &mut Emitter, lane: u8) -> (r: Result<(), LiftError>)
    requires
        old(em)@.ready(64),
    ensures
        emit::lifted(old(em)@, final(em)@, psign(insn, lane, old(em)@), insn, r),
{
    reveal(psign);
    let d = match reg_xmm(insn, 0) {
        Some(d) => d,
        None => {
            return Err(unsupported_insn(insn));
        },
    };
    match source(reg_xmm(insn, 1), insn, 1) {
        Source::Reg(b) => {
            em.push(IrOp::VPsign { dst: d, a: d, b, lane });
        },
        Source::Mem => {
            let addr = match effective_address(insn, em) {
                Ok(addr) => addr,
                Err(e) => {
                    return Err(e);
                },
            };
            em.push(IrOp::VPsignM { dst: d, a: d, addr, lane });
        },
        Source::Neither => {
            return Err(unsupported_insn(insn));
        },
    }
    Ok(())
}

#[verifier::opaque]
pub open spec fn vpsign(insn: &Insn, lane: u8, s: Emission) -> Emission {
    if reg_xmm(insn, 0) is None || reg_xmm(insn, 1) is None {
        s.fail()
    } else {
        let d = reg_xmm(insn, 0)->0;
        let a = reg_xmm(insn, 1)->0;
        let s2 = match source(reg_xmm(insn, 2), insn, 2) {
            Source::Reg(b) => {
                s.push(IrOp::VPsign { dst: d, a, b, lane })
            },
            Source::Mem => {
                let (s1, addr) = operand::address(insn, s);
                s1.push(IrOp::VPsignM { dst: d, a, addr, lane })
            },
            Source::Neither => s.fail(),
        };
        s2.push(IrOp::VZeroUpper { reg: d })
    }
}

/// VEX.128 `vpsign{b,w,d}`.
pub fn lift_vpsign(insn: &Insn, em: &mut Emitter, lane: u8) -> (r: Result<(), LiftError>)
    requires
        old(em)@.ready(64),
    ensures
        emit::lifted(old(em)@, final(em)@, vpsign(insn, lane, old(em)@), insn, r),
{
    reveal(vpsign);
    let d = match reg_xmm(insn, 0) {
        Some(d) => d,
        None => {
            return Err(unsupported_insn(insn));
        },
    };
    let a = match reg_xmm(insn, 1) {
        Some(a) => a,
        None => {
            return Err(unsupported_insn(insn));
        },
    };
    match source(reg_xmm(insn, 2), insn, 2) {
        Source::Reg(b) => {
            em.push(IrOp::VPsign { dst: d, a, b, lane });
        },
        Source::Mem => {
            let addr = match effective_address(insn, em) {
                Ok(addr) => addr,
                Err(e) => {
                    return Err(e);
                },
            };
            em.push(IrOp::VPsignM { dst: d, a, addr, lane });
        },
        Source::Neither => {
            return Err(unsupported_insn(insn));
        },
    }
    em.push(IrOp::VZeroUpper { reg: d });
    Ok(())
}

#[verifier::opaque]
pub open spec fn vpabs(insn: &Insn, elem: u8, s: Emission) -> Emission {
    if vec_operand(insn, 0) is None || vec_operand_reg(insn, 1) is None {
        s.fail()
    } else {
        let (dst, dst_width) = vec_operand(insn, 0)->0;
        let src = vec_operand_reg(insn, 1)->0;
        s.push(IrOp::VPAbs {
            dst,
            src,
            elem,
            dst_width,
            writemask: evex_writemask(insn),
            zeroing: insn.zeroing,
        })
    }
}

/// `vpabs{b,w,d,q}` of any width, with or without a mask.
pub fn lift_vpabs(insn: &Insn, em: &mut Emitter, elem: u8) -> (r: Result<(), LiftError>)
    requires
        old(em)@.ready(64),
    ensures
        emit::lifted(old(em)@, final(em)@, vpabs(insn, elem, old(em)@), insn, r),
{
    reveal(vpabs);
    let (dst, dst_width) = match vec_operand(insn, 0) {
        Some(v) => v,
        None => {
            return Err(unsupported_insn(insn));
        },
    };
    let src = match vec_operand_reg(insn, 1) {
        Some(src) => src,
        None => {
            return Err(unsupported_insn(insn));
        },
    };
    em.push(IrOp::VPAbs {
        dst,
        src,
        elem,
        dst_width,
        writemask: evex_writemask(insn),
        zeroing: insn.zeroing,
    });
    Ok(())
}

#[verifier::opaque]
pub open spec fn vpopcnt(insn: &Insn, lane: u8, s: Emission) -> Emission {
    if evex_is_masked(insn) {
        s.fail()
    } else {
        if vec_operand(insn, 0) is None {
            s.fail()
        } else {
            let (dst, bytes) = vec_operand(insn, 0)->0;
            match source(vec_operand_reg(insn, 1), insn, 1) {
                Source::Reg(a) => {
                    s.push(IrOp::VPopcnt { dst, a, lane, bytes })
                },
                Source::Mem => {
                    let (s1, addr) = operand::address(insn, s);
                    s1.push(IrOp::VPopcntM { dst, addr, lane, bytes })
                },
                Source::Neither => s.fail(),
            }
        }
    }
}

/// `vpopcnt{d,q}` without a mask.
pub fn lift_vpopcnt(insn: &Insn, em: &mut Emitter, lane: u8) -> (r: Result<(), LiftError>)
    requires
        old(em)@.ready(64),
    ensures
        emit::lifted(old(em)@, final(em)@, vpopcnt(insn, lane, old(em)@), insn, r),
{
    reveal(vpopcnt);
    if evex_is_masked(insn) {
        return Err(unsupported_insn(insn));
    }
    let (dst, bytes) = match vec_operand(insn, 0) {
        Some(v) => v,
        None => {
            return Err(unsupported_insn(insn));
        },
    };
    match source(vec_operand_reg(insn, 1), insn, 1) {
        Source::Reg(a) => {
            em.push(IrOp::VPopcnt { dst, a, lane, bytes });
        },
        Source::Mem => {
            let addr = match effective_address(insn, em) {
                Ok(addr) => addr,
                Err(e) => {
                    return Err(e);
                },
            };
            em.push(IrOp::VPopcntM { dst, addr, lane, bytes });
        },
        Source::Neither => {
            return Err(unsupported_insn(insn));
        },
    }
    Ok(())
}

/// A write mask calls for register sources.
#[verifier::opaque]
pub open spec fn evex_vlogic(insn: &Insn, op: VLogicOp, elem: u8, s: Emission) -> Emission {
    if vec_operand(insn, 0) is None || vec_operand_reg(insn, 1) is None {
        s.fail()
    } else {
        let (dst, bytes) = vec_operand(insn, 0)->0;
        let a = vec_operand_reg(insn, 1)->0;
        if evex_writemask(insn) is Some {
            let k = evex_writemask(insn)->0;
            if vec_operand_reg(insn, 2) is None {
                s.fail()
            } else {
                let b = vec_operand_reg(insn, 2)->0;
                s.push(
                    IrOp::VMaskedLogic { dst, a, b, op, k, elem, zeroing: insn.zeroing, bytes },
                )
            }
        } else {
            match source(vec_operand_reg(insn, 2), insn, 2) {
                Source::Reg(b) => {
                    s.push(IrOp::VLogicWide { dst, a, b, op, bytes })
                },
                Source::Mem => {
                    let (s1, addr) = operand::address(insn, s);
                    s1.push(IrOp::VLogicWideM { dst, a, addr, op, bytes })
                },
                Source::Neither => s.fail(),
            }
        }
    }
}

/// EVEX bitwise logic of any width; `elem` is the granularity of the mask.
pub fn lift_evex_vlogic(
    insn: &Insn,
    em: &mut Emitter,
    op: VLogicOp,
    elem: u8,
) -> (r: Result<(), LiftError>)
    requires
        old(em)@.ready(64),
    ensures
        emit::lifted(old(em)@, final(em)@, evex_vlogic(insn, op, elem, old(em)@), insn, r),
{
    reveal(evex_vlogic);
    let (dst, bytes) = match vec_operand(insn, 0) {
        Some(v) => v,
        None => {
            return Err(unsupported_insn(insn));
        },
    };
    let a = match vec_operand_reg(insn, 1) {
        Some(a) => a,
        None => {
            return Err(unsupported_insn(insn));
        },
    };
    if let Some(k) = evex_writemask(insn) {
        let b = match vec_operand_reg(insn, 2) {
            Some(b) => b,
            None => {
                return Err(unsupported_insn(insn));
            },
        };
        em.push(IrOp::VMaskedLogic { dst, a, b, op, k, elem, zeroing: insn.zeroing, bytes });
        return Ok(());
    }
    match source(vec_operand_reg(insn, 2), insn, 2) {
        Source::Reg(b) => {
            em.push(IrOp::VLogicWide { dst, a, b, op, bytes });
        },
        Source::Mem => {
            let addr = match effective_address(insn, em) {
                Ok(addr) => addr,
                Err(e) => {
                    return Err(e);
                },
            };
            em.push(IrOp::VLogicWideM { dst, a, addr, op, bytes });
        },
        Source::Neither => {
            return Err(unsupported_insn(insn));
        },
    }
    Ok(())
}

#[verifier::opaque]
pub open spec fn vpternlog(insn: &Insn, s: Emission) -> Emission {
    if evex_is_masked(insn) {
        s.fail()
    } else {
        if vec_operand(insn, 0) is None || vec_operand_reg(insn, 1) is None {
            s.fail()
        } else {
            let (dst, bytes) = vec_operand(insn, 0)->0;
            let b = vec_operand_reg(insn, 1)->0;
            let imm: u8 = insn.imm8(3);
            match source(vec_operand_reg(insn, 2), insn, 2) {
                Source::Reg(c) => {
                    s.push(IrOp::VPTernlog { dst, b, c, imm, bytes })
                },
                Source::Mem => {
                    let (s1, addr) = operand::address(insn, s);
                    s1.push(IrOp::VPTernlogM { dst, b, addr, imm, bytes })
                },
                Source::Neither => s.fail(),
            }
        }
    }
}

/// `vpternlog{d,q}` without a mask: three-input logic by a truth table.
pub fn lift_vpternlog(insn: &Insn, em: &mut Emitter) -> (r: Result<(), LiftError>)
    requires
        old(em)@.ready(64),
    ensures
        emit::lifted(old(em)@, final(em)@, vpternlog(insn, old(em)@), insn, r),
{
    reveal(vpternlog);
    if evex_is_masked(insn) {
        return Err(unsupported_insn(insn));
    }
    let (dst, bytes) = match vec_operand(insn, 0) {
        Some(v) => v,
        None => {
            return Err(unsupported_insn(insn));
        },
    };
    let b = match vec_operand_reg(insn, 1) {
        Some(b) => b,
        None => {
            return Err(unsupported_insn(insn));
        },
    };
    let imm: u8 = insn.imm8(3);
    match source(vec_operand_reg(insn, 2), insn, 2) {
        Source::Reg(c) => {
            em.push(IrOp::VPTernlog { dst, b, c, imm, bytes });
        },
        Source::Mem => {
            let addr = match effective_address(insn, em) {
                Ok(addr) => addr,
                Err(e) => {
                    return Err(e);
                },
            };
            em.push(IrOp::VPTernlogM { dst, b, addr, imm, bytes });
        },
        Source::Neither => {
            return Err(unsupported_insn(insn));
        },
    }
    Ok(())
}

#[verifier::opaque]
pub open spec fn ptest(insn: &Insn, s: Emission) -> Emission {
    if reg_ymm(insn, 0) is Some {
        let a = reg_ymm(insn, 0)->0;
        if reg_ymm(insn, 1) is None {
            s.fail()
        } else {
            let b = reg_ymm(insn, 1)->0;
            s.push(IrOp::VPtest { a, b, w256: true })
        }
    } else {
        if reg_xmm(insn, 0) is None || reg_xmm(insn, 1) is None {
            s.fail()
        } else {
            let a = reg_xmm(insn, 0)->0;
            let b = reg_xmm(insn, 1)->0;
            s.push(IrOp::VPtest { a, b, w256: false })
        }
    }
}

/// `ptest`/`vptest`: sets flags from two registers of one width.
pub fn lift_ptest(insn: &Insn, em: &mut Emitter) -> (r: Result<(), LiftError>)
    requires
        old(em)@.ready(64),
    ensures
        emit::lifted(old(em)@, final(em)@, ptest(insn, old(em)@), insn, r),
{
    reveal(ptest);
    if let Some(a) = reg_ymm(insn, 0) {
        let b = match reg_ymm(insn, 1) {
            Some(b) => b,
            None => {
                return Err(unsupported_insn(insn));
            },
        };
        em.push(IrOp::VPtest { a, b, w256: true });
        return Ok(());
    }
    let a = match reg_xmm(insn, 0) {
        Some(a) => a,
        None => {
            return Err(unsupported_insn(insn));
        },
    };
    let b = match reg_xmm(insn, 1) {
        Some(b) => b,
        None => {
            return Err(unsupported_insn(insn));
        },
    };
    em.push(IrOp::VPtest { a, b, w256: false });
    Ok(())
}

/// A second operand that is no vector register is taken as memory.
#[verifier::opaque]
pub open spec fn pcmpstr_idx(insn: &Insn, explicit: bool, s: Emission) -> Emission {
    if reg_xmm(insn, 0) is None {
        s.fail()
    } else {
        let a = reg_xmm(insn, 0)->0;
        let imm: u8 = insn.imm8(2);
        if reg_xmm(insn, 1) is Some {
            let b = reg_xmm(insn, 1)->0;
            s.push(IrOp::VPcmpStr { a, b, imm, explicit })
        } else {
            let (s1, addr) = operand::address(insn, s);
            s1.push(IrOp::VPcmpStrM { a, addr, imm, explicit })
        }
    }
}

/// `pcmpistri`/`pcmpestri`: string comparison with an index result.
pub fn lift_pcmpstr_idx(
    insn: &Insn,
    em: &mut Emitter,
    explicit: bool,
) -> (r: Result<(), LiftError>)
    requires
        old(em)@.ready(64),
    ensures
        emit::lifted(old(em)@, final(em)@, pcmpstr_idx(insn, explicit, old(em)@), insn, r),
{
    reveal(pcmpstr_idx);
    let a = match reg_xmm(insn, 0) {
        Some(a) => a,
        None => {
            return Err(unsupported_insn(insn));
        },
    };
    let imm: u8 = insn.imm8(2);
    if let Some(b) = reg_xmm(insn, 1) {
        em.push(IrOp::VPcmpStr { a, b, imm, explicit });
        return Ok(());
    }
    let addr = match effective_address(insn, em) {
        Ok(addr) => addr,
        Err(e) => {
            return Err(e);
        },
    };
    em.push(IrOp::VPcmpStrM { a, addr, imm, explicit });
    Ok(())
}

} // verus!
