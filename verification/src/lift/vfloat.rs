//! Floating-point vector instructions.
use crate::insn::Insn;
use crate::ir::{FPrec, FloatBinOp, FloatUnOp, IrOp, Temp, Val};
use crate::lift::emit::{Emission, Emitter};
use crate::lift::operand::{
    effective_address, evex_is_masked, lower_read, operand_size, reg_xmm, source,
    unsupported_insn, vec_operand, vec_operand_reg, write_operand, Source,
};
use crate::lift::{emit, operand, LiftError};
use vstd::prelude::*;

verus! {

broadcast use operand::group_failed;

/// The raw bits of a scalar float: the low lane of a vector register, or memory.
pub open spec fn scalar_float(insn: &Insn, i: u32, prec: FPrec, s: Emission) -> (Emission, Val) {
    match source(reg_xmm(insn, i), insn, i) {
        Source::Reg(src) => (
            s.def(IrOp::VToGpr { dst: s.next, src, size: prec.bytes() }),
            Val::Temp(s.next),
        ),
        Source::Mem => {
            let (s1, addr) = operand::address(insn, s);
            (s1.def(IrOp::Load { dst: s1.next, addr, size: prec.bytes() }), Val::Temp(s1.next))
        },
        Source::Neither => (s.fail(), Val::Imm(0)),
    }
}

/// Reads a scalar float operand as its raw bits.
pub fn read_scalar_float(insn: &Insn, i: u32, prec: FPrec, em: &mut Emitter) -> (r: Result<
    Val,
    LiftError,
>)
    requires
        old(em)@.ready(9),
    ensures
        emit::lowered(old(em)@, final(em)@, scalar_float(insn, i, prec, old(em)@), insn, r, 9),
{
    match source(reg_xmm(insn, i), insn, i) {
        Source::Reg(src) => {
            let t: Temp = em.peek();
            em.def(t, IrOp::VToGpr { dst: t, src, size: prec.bytes() });
            Ok(Val::Temp(t))
        },
        Source::Mem => {
            let addr = match effective_address(insn, em) {
                Ok(addr) => addr,
                Err(e) => {
                    return Err(e);
                },
            };
            let t: Temp = em.peek();
            em.def(t, IrOp::Load { dst: t, addr, size: prec.bytes() });
            Ok(Val::Temp(t))
        },
        Source::Neither => Err(unsupported_insn(insn)),
    }
}

#[verifier::opaque]
pub open spec fn scalar_fmove(insn: &Insn, prec: FPrec, s: Emission) -> Emission {
    let size: u8 = prec.bytes();
    if reg_xmm(insn, 0) is Some {
        let d = reg_xmm(insn, 0)->0;
        if reg_xmm(insn, 1) is Some {
            let src = reg_xmm(insn, 1)->0;
            s.push(IrOp::VFloatMov { dst: d, a: d, src, prec })
        } else {
            if !insn.is_mem(1) {
                s.fail()
            } else {
                let (s1, addr) = operand::address(insn, s);
                s1.push(IrOp::VLoad { dst: d, addr, size })
            }
        }
    } else {
        if reg_xmm(insn, 1) is None {
            s.fail()
        } else {
            let src = reg_xmm(insn, 1)->0;
            if !insn.is_mem(0) {
                s.fail()
            } else {
                let (s2, addr) = operand::address(insn, s);
                s2.push(IrOp::VStore { addr, src, size })
            }
        }
    }
}

/// `movss`/`movsd` on vector registers: a register source is merged into the low lane, a
/// load zero-extends, a store writes the low lane.
pub fn lift_scalar_fmove(insn: &Insn, em: &mut Emitter, prec: FPrec) -> (r: Result<(), LiftError>)
    requires
        old(em)@.ready(64),
    ensures
        emit::lifted(old(em)@, final(em)@, scalar_fmove(insn, prec, old(em)@), insn, r),
{
    reveal(scalar_fmove);
    let size: u8 = prec.bytes();
    if let Some(d) = reg_xmm(insn, 0) {
        if let Some(src) = reg_xmm(insn, 1) {
            em.push(IrOp::VFloatMov { dst: d, a: d, src, prec });
            return Ok(());
        }
        if !insn.is_mem(1) {
            return Err(unsupported_insn(insn));
        }
        let addr = match effective_address(insn, em) {
            Ok(addr) => addr,
            Err(e) => {
                return Err(e);
            },
        };
        em.push(IrOp::VLoad { dst: d, addr, size });
        return Ok(());
    }
    let src = match reg_xmm(insn, 1) {
        Some(src) => src,
        None => {
            return Err(unsupported_insn(insn));
        },
    };
    if !insn.is_mem(0) {
        return Err(unsupported_insn(insn));
    }
    let addr = match effective_address(insn, em) {
        Ok(addr) => addr,
        Err(e) => {
            return Err(e);
        },
    };
    em.push(IrOp::VStore { addr, src, size });
    Ok(())
}

#[verifier::opaque]
pub open spec fn vscalar_fmove(insn: &Insn, prec: FPrec, s: Emission) -> Emission {
    let size: u8 = prec.bytes();
    if insn.is_mem(0) {
        if reg_xmm(insn, 1) is None {
            s.fail()
        } else {
            let src = reg_xmm(insn, 1)->0;
            let (s1, addr) = operand::address(insn, s);
            s1.push(IrOp::VStore { addr, src, size })
        }
    } else {
        if reg_xmm(insn, 0) is None {
            s.fail()
        } else {
            let d = reg_xmm(insn, 0)->0;
            if insn.is_mem(1) {
                let (s2, addr) = operand::address(insn, s);
                let s3 = s2.push(IrOp::VLoad { dst: d, addr, size });
                s3.push(IrOp::VZeroUpper { reg: d })
            } else {
                if reg_xmm(insn, 1) is None || reg_xmm(insn, 2) is None {
                    s.fail()
                } else {
                    let a = reg_xmm(insn, 1)->0;
                    let src = reg_xmm(insn, 2)->0;
                    let s4 = s.push(IrOp::VFloatMov { dst: d, a, src, prec });
                    s4.push(IrOp::VZeroUpper { reg: d })
                }
            }
        }
    }
}

/// VEX `vmovss`/`vmovsd`: a store, a load that clears all upper bits, or a merge of op2
/// into op1.
pub fn lift_vscalar_fmove(
    insn: &Insn,
    em: &mut Emitter,
    prec: FPrec,
) -> (r: Result<(), LiftError>)
    requires
        old(em)@.ready(64),
    ensures
        emit::lifted(old(em)@, final(em)@, vscalar_fmove(insn, prec, old(em)@), insn, r),
{
    reveal(vscalar_fmove);
    let size: u8 = prec.bytes();
    if insn.is_mem(0) {
        let src = match reg_xmm(insn, 1) {
            Some(src) => src,
            None => {
                return Err(unsupported_insn(insn));
            },
        };
        let addr = match effective_address(insn, em) {
            Ok(addr) => addr,
            Err(e) => {
                return Err(e);
            },
        };
        em.push(IrOp::VStore { addr, src, size });
        return Ok(());
    }
    let d = match reg_xmm(insn, 0) {
        Some(d) => d,
        None => {
            return Err(unsupported_insn(insn));
        },
    };
    if insn.is_mem(1) {
        let addr = match effective_address(insn, em) {
            Ok(addr) => addr,
            Err(e) => {
                return Err(e);
            },
        };
        em.push(IrOp::VLoad { dst: d, addr, size });
        em.push(IrOp::VZeroUpper { reg: d });
        return Ok(());
    }
    let a = match reg_xmm(insn, 1) {
        Some(a) => a,
        None => {
            return Err(unsupported_insn(insn));
        },
    };
    let src = match reg_xmm(insn, 2) {
        Some(src) => src,
        None => {
            return Err(unsupported_insn(insn));
        },
    };
    em.push(IrOp::VFloatMov { dst: d, a, src, prec });
    em.push(IrOp::VZeroUpper { reg: d });
    Ok(())
}

#[verifier::opaque]
pub open spec fn float_bin(
    insn: &Insn,
    op: FloatBinOp,
    prec: FPrec,
    scalar: bool,
    s: Emission,
) -> Emission {
    if reg_xmm(insn, 0) is None {
        s.fail()
    } else {
        let d = reg_xmm(insn, 0)->0;
        match source(reg_xmm(insn, 1), insn, 1) {
            Source::Reg(b) => {
                s.push(IrOp::VFloatBin { dst: d, a: d, b, op, prec, scalar })
            },
            Source::Mem => {
                let (s1, addr) = operand::address(insn, s);
                s1.push(IrOp::VFloatBinM { dst: d, addr, op, prec, scalar })
            },
            Source::Neither => s.fail(),
        }
    }
}

/// Float arithmetic `dst = op(dst, src)`, of the low lane or of all.
pub fn lift_float_bin(
    insn: &Insn,
    em: &mut Emitter,
    op: FloatBinOp,
    prec: FPrec,
    scalar: bool,
) -> (r: Result<(), LiftError>)
    requires
        old(em)@.ready(64),
    ensures
        emit::lifted(old(em)@, final(em)@, float_bin(insn, op, prec, scalar, old(em)@), insn, r),
{
    reveal(float_bin);
    let d = match reg_xmm(insn, 0) {
        Some(d) => d,
        None => {
            return Err(unsupported_insn(insn));
        },
    };
    match source(reg_xmm(insn, 1), insn, 1) {
        Source::Reg(b) => {
            em.push(IrOp::VFloatBin { dst: d, a: d, b, op, prec, scalar });
        },
        Source::Mem => {
            let addr = match effective_address(insn, em) {
                Ok(addr) => addr,
                Err(e) => {
                    return Err(e);
                },
            };
            em.push(IrOp::VFloatBinM { dst: d, addr, op, prec, scalar });
        },
        Source::Neither => {
            return Err(unsupported_insn(insn));
        },
    }
    Ok(())
}

/// The memory form works on the destination, which takes op1 first where they differ. The
/// upper bits are cleared.
#[verifier::opaque]
pub open spec fn vfloat_bin(
    insn: &Insn,
    op: FloatBinOp,
    prec: FPrec,
    scalar: bool,
    s: Emission,
) -> Emission {
    if reg_xmm(insn, 0) is None || reg_xmm(insn, 1) is None {
        s.fail()
    } else {
        let d = reg_xmm(insn, 0)->0;
        let a = reg_xmm(insn, 1)->0;
        let s3 = match source(reg_xmm(insn, 2), insn, 2) {
            Source::Reg(b) => {
                s.push(IrOp::VFloatBin { dst: d, a, b, op, prec, scalar })
            },
            Source::Mem => {
                let (s1, addr) = operand::address(insn, s);
                let s2 = if d != a {
                    s1.push(IrOp::VMov { dst: d, src: a })
                } else {
                    s1
                };
                s2.push(IrOp::VFloatBinM { dst: d, addr, op, prec, scalar })
            },
            Source::Neither => s.fail(),
        };
        s3.push(IrOp::VZeroUpper { reg: d })
    }
}

/// VEX.128 float arithmetic `dst = op(op1, op2)`.
pub fn lift_vfloat_bin(
    insn: &Insn,
    em: &mut Emitter,
    op: FloatBinOp,
    prec: FPrec,
    scalar: bool,
) -> (r: Result<(), LiftError>)
    requires
        old(em)@.ready(64),
    ensures
        emit::lifted(old(em)@, final(em)@, vfloat_bin(insn, op, prec, scalar, old(em)@), insn, r),
{
    reveal(vfloat_bin);
    let d = match reg_xmm(insn, 0) {
        Some(d) => d,
        None => {
            return Err(unsupported_insn(insn));
        },
    };
    let a = match reg_xmm(insn, 1) {
        Some(a) => a,
        None => {
            return Err(unsupported_insn(insn));
        },
    };
    match source(reg_xmm(insn, 2), insn, 2) {
        Source::Reg(b) => {
            em.push(IrOp::VFloatBin { dst: d, a, b, op, prec, scalar });
        },
        Source::Mem => {
            let addr = match effective_address(insn, em) {
                Ok(addr) => addr,
                Err(e) => {
                    return Err(e);
                },
            };
            if d != a {
                em.push(IrOp::VMov { dst: d, src: a });
            }
            em.push(IrOp::VFloatBinM { dst: d, addr, op, prec, scalar });
        },
        Source::Neither => {
            return Err(unsupported_insn(insn));
        },
    }
    em.push(IrOp::VZeroUpper { reg: d });
    Ok(())
}

#[verifier::opaque]
pub open spec fn float_cmp(insn: &Insn, prec: FPrec, s: Emission) -> Emission {
    let (s1, a) = scalar_float(insn, 0, prec, s);
    let (s2, b) = scalar_float(insn, 1, prec, s1);
    s2.push(IrOp::VFloatCmp { a, b, prec })
}

/// `ucomis*`/`comis*`: compares the low lanes and sets the flags.
pub fn lift_float_cmp(insn: &Insn, em: &mut Emitter, prec: FPrec) -> (r: Result<(), LiftError>)
    requires
        old(em)@.ready(64),
    ensures
        emit::lifted(old(em)@, final(em)@, float_cmp(insn, prec, old(em)@), insn, r),
{
    reveal(float_cmp);
    let a = match read_scalar_float(insn, 0, prec, em) {
        Ok(a) => a,
        Err(e) => {
            return Err(e);
        },
    };
    let b = match read_scalar_float(insn, 1, prec, em) {
        Ok(b) => b,
        Err(e) => {
            return Err(e);
        },
    };
    em.push(IrOp::VFloatCmp { a, b, prec });
    Ok(())
}

#[verifier::opaque]
pub open spec fn float_cmp_mask(
    insn: &Insn,
    prec: FPrec,
    scalar: bool,
    s: Emission,
) -> Emission {
    if reg_xmm(insn, 0) is None || reg_xmm(insn, 1) is None {
        s.fail()
    } else {
        let d = reg_xmm(insn, 0)->0;
        let b = reg_xmm(insn, 1)->0;
        s.push(IrOp::VFloatCmpMask { dst: d, a: d, b, prec, scalar, pred: insn.imm8(2) })
    }
}

/// `cmp{ss,sd,ps,pd}`: a lane mask by the predicate in the immediate.
pub fn lift_float_cmp_mask(
    insn: &Insn,
    em: &mut Emitter,
    prec: FPrec,
    scalar: bool,
) -> (r: Result<(), LiftError>)
    requires
        old(em)@.ready(64),
    ensures
        emit::lifted(old(em)@, final(em)@, float_cmp_mask(insn, prec, scalar, old(em)@), insn, r),
{
    reveal(float_cmp_mask);
    let d = match reg_xmm(insn, 0) {
        Some(d) => d,
        None => {
            return Err(unsupported_insn(insn));
        },
    };
    let b = match reg_xmm(insn, 1) {
        Some(b) => b,
        None => {
            return Err(unsupported_insn(insn));
        },
    };
    em.push(IrOp::VFloatCmpMask { dst: d, a: d, b, prec, scalar, pred: insn.imm8(2) });
    Ok(())
}

#[verifier::opaque]
pub open spec fn cvt_from_int(insn: &Insn, prec: FPrec, s: Emission) -> Emission {
    if reg_xmm(insn, 0) is None {
        s.fail()
    } else {
        let d = reg_xmm(insn, 0)->0;
        let (s1, src) = operand::read(insn, 1, s);
        s1.push(IrOp::VCvtFromInt {
            dst: d,
            src,
            int_size: operand_size(insn, 1),
            prec,
            signed: true,
        })
    }
}

/// `cvtsi2s*`: an integer to a float in the low lane.
pub fn lift_cvt_from_int(insn: &Insn, em: &mut Emitter, prec: FPrec) -> (r: Result<(), LiftError>)
    requires
        old(em)@.ready(64),
    ensures
        emit::lifted(old(em)@, final(em)@, cvt_from_int(insn, prec, old(em)@), insn, r),
{
    reveal(cvt_from_int);
    let d = match reg_xmm(insn, 0) {
        Some(d) => d,
        None => {
            return Err(unsupported_insn(insn));
        },
    };
    let src = match lower_read(insn, 1, em) {
        Ok(src) => src,
        Err(e) => {
            return Err(e);
        },
    };
    em.push(
        IrOp::VCvtFromInt { dst: d, src, int_size: operand_size(insn, 1), prec, signed: true },
    );
    Ok(())
}

#[verifier::opaque]
pub open spec fn vcvt_from_int(
    insn: &Insn,
    prec: FPrec,
    signed: bool,
    s: Emission,
) -> Emission {
    if reg_xmm(insn, 0) is None || reg_xmm(insn, 1) is None {
        s.fail()
    } else {
        let d = reg_xmm(insn, 0)->0;
        let a = reg_xmm(insn, 1)->0;
        let (s1, src) = operand::read(insn, 2, s);
        let s2 = if d != a {
            s1.push(IrOp::VMov { dst: d, src: a })
        } else {
            s1
        };
        let s3 = s2.push(
            IrOp::VCvtFromInt { dst: d, src, int_size: operand_size(insn, 2), prec, signed },
        );
        s3.push(IrOp::VZeroUpper { reg: d })
    }
}

/// `vcvt{,u}si2s*`: the other lanes are those of op1, the upper bits are cleared.
pub fn lift_vcvt_from_int(
    insn: &Insn,
    em: &mut Emitter,
    prec: FPrec,
    signed: bool,
) -> (r: Result<(), LiftError>)
    requires
        old(em)@.ready(64),
    ensures
        emit::lifted(old(em)@, final(em)@, vcvt_from_int(insn, prec, signed, old(em)@), insn, r),
{
    reveal(vcvt_from_int);
    let d = match reg_xmm(insn, 0) {
        Some(d) => d,
        None => {
            return Err(unsupported_insn(insn));
        },
    };
    let a = match reg_xmm(insn, 1) {
        Some(a) => a,
        None => {
            return Err(unsupported_insn(insn));
        },
    };
    let src = match lower_read(insn, 2, em) {
        Ok(src) => src,
        Err(e) => {
            return Err(e);
        },
    };
    if d != a {
        em.push(IrOp::VMov { dst: d, src: a });
    }
    em.push(IrOp::VCvtFromInt { dst: d, src, int_size: operand_size(insn, 2), prec, signed });
    em.push(IrOp::VZeroUpper { reg: d });
    Ok(())
}

#[verifier::opaque]
pub open spec fn cvt_to_int_signed(
    insn: &Insn,
    prec: FPrec,
    trunc: bool,
    signed: bool,
    s: Emission,
) -> Emission {
    let (s1, src) = scalar_float(insn, 1, prec, s);
    let s2 = s1.def(IrOp::VCvtToInt {
        dst: s1.next,
        src,
        int_size: operand_size(insn, 0),
        prec,
        trunc,
        signed,
    });
    let res = Val::Temp(s1.next);
    operand::store(insn, 0, res, s2)
}

/// `cvt(t)s*2si` and, unsigned, `cvt(t)s*2usi`: a float to an integer in a general
/// register.
pub fn lift_cvt_to_int_signed(
    insn: &Insn,
    em: &mut Emitter,
    prec: FPrec,
    trunc: bool,
    signed: bool,
) -> (r: Result<(), LiftError>)
    requires
        old(em)@.ready(64),
    ensures
        emit::lifted(
            old(em)@,
            final(em)@,
            cvt_to_int_signed(insn, prec, trunc, signed, old(em)@),
            insn,
            r,
        ),
{
    reveal(cvt_to_int_signed);
    let src = match read_scalar_float(insn, 1, prec, em) {
        Ok(src) => src,
        Err(e) => {
            return Err(e);
        },
    };
    let t: Temp = em.peek();
    em.def(t, IrOp::VCvtToInt {
        dst: t,
        src,
        int_size: operand_size(insn, 0),
        prec,
        trunc,
        signed,
    });
    let res = Val::Temp(t);
    write_operand(insn, 0, res, em)
}

#[verifier::opaque]
pub open spec fn float_unary(
    insn: &Insn,
    op: FloatUnOp,
    prec: FPrec,
    scalar: bool,
    s: Emission,
) -> Emission {
    if reg_xmm(insn, 0) is None || reg_xmm(insn, 1) is None {
        s.fail()
    } else {
        let d = reg_xmm(insn, 0)->0;
        let src = reg_xmm(insn, 1)->0;
        s.push(IrOp::VFloatUnary { dst: d, a: d, src, op, prec, scalar })
    }
}

/// `sqrts*`/`sqrtp*` of a register.
pub fn lift_float_unary(
    insn: &Insn,
    em: &mut Emitter,
    op: FloatUnOp,
    prec: FPrec,
    scalar: bool,
) -> (r: Result<(), LiftError>)
    requires
        old(em)@.ready(64),
    ensures
        emit::lifted(
            old(em)@,
            final(em)@,
            float_unary(insn, op, prec, scalar, old(em)@),
            insn,
            r,
        ),
{
    reveal(float_unary);
    let d = match reg_xmm(insn, 0) {
        Some(d) => d,
        None => {
            return Err(unsupported_insn(insn));
        },
    };
    let src = match reg_xmm(insn, 1) {
        Some(src) => src,
        None => {
            return Err(unsupported_insn(insn));
        },
    };
    em.push(IrOp::VFloatUnary { dst: d, a: d, src, op, prec, scalar });
    Ok(())
}

#[verifier::opaque]
pub open spec fn vfloat_unary_scalar(
    insn: &Insn,
    op: FloatUnOp,
    prec: FPrec,
    s: Emission,
) -> Emission {
    if reg_xmm(insn, 0) is None || reg_xmm(insn, 1) is None || reg_xmm(insn, 2) is None {
        s.fail()
    } else {
        let d = reg_xmm(insn, 0)->0;
        let a = reg_xmm(insn, 1)->0;
        let src = reg_xmm(insn, 2)->0;
        let s1 = s.push(IrOp::VFloatUnary { dst: d, a, src, op, prec, scalar: true });
        s1.push(IrOp::VZeroUpper { reg: d })
    }
}

/// VEX scalar unary: the other lanes are those of op1, the upper bits are cleared.
pub fn lift_vfloat_unary_scalar(
    insn: &Insn,
    em: &mut Emitter,
    op: FloatUnOp,
    prec: FPrec,
) -> (r: Result<(), LiftError>)
    requires
        old(em)@.ready(64),
    ensures
        emit::lifted(
            old(em)@,
            final(em)@,
            vfloat_unary_scalar(insn, op, prec, old(em)@),
            insn,
            r,
        ),
{
    reveal(vfloat_unary_scalar);
    let d = match reg_xmm(insn, 0) {
        Some(d) => d,
        None => {
            return Err(unsupported_insn(insn));
        },
    };
    let a = match reg_xmm(insn, 1) {
        Some(a) => a,
        None => {
            return Err(unsupported_insn(insn));
        },
    };
    let src = match reg_xmm(insn, 2) {
        Some(src) => src,
        None => {
            return Err(unsupported_insn(insn));
        },
    };
    em.push(IrOp::VFloatUnary { dst: d, a, src, op, prec, scalar: true });
    em.push(IrOp::VZeroUpper { reg: d });
    Ok(())
}

#[verifier::opaque]
pub open spec fn cvt_float(insn: &Insn, from: FPrec, to: FPrec, s: Emission) -> Emission {
    if reg_xmm(insn, 0) is None {
        s.fail()
    } else {
        let d = reg_xmm(insn, 0)->0;
        let (s1, src) = scalar_float(insn, 1, from, s);
        s1.push(IrOp::VCvtFloat { dst: d, src, from, to })
    }
}

/// `cvtss2sd`/`cvtsd2ss`.
pub fn lift_cvt_float(
    insn: &Insn,
    em: &mut Emitter,
    from: FPrec,
    to: FPrec,
) -> (r: Result<(), LiftError>)
    requires
        old(em)@.ready(64),
    ensures
        emit::lifted(old(em)@, final(em)@, cvt_float(insn, from, to, old(em)@), insn, r),
{
    reveal(cvt_float);
    let d = match reg_xmm(insn, 0) {
        Some(d) => d,
        None => {
            return Err(unsupported_insn(insn));
        },
    };
    let src = match read_scalar_float(insn, 1, from, em) {
        Ok(src) => src,
        Err(e) => {
            return Err(e);
        },
    };
    em.push(IrOp::VCvtFloat { dst: d, src, from, to });
    Ok(())
}

#[verifier::opaque]
pub open spec fn vcvt_scalar(insn: &Insn, from: FPrec, to: FPrec, s: Emission) -> Emission {
    if reg_xmm(insn, 0) is None || reg_xmm(insn, 1) is None {
        s.fail()
    } else {
        let d = reg_xmm(insn, 0)->0;
        let a = reg_xmm(insn, 1)->0;
        let (s1, src) = scalar_float(insn, 2, from, s);
        let s2 = if d != a {
            s1.push(IrOp::VMov { dst: d, src: a })
        } else {
            s1
        };
        let s3 = s2.push(IrOp::VCvtFloat { dst: d, src, from, to });
        s3.push(IrOp::VZeroUpper { reg: d })
    }
}

/// `vcvtss2sd`/`vcvtsd2ss`: the other lanes are those of op1, the upper bits are cleared.
pub fn lift_vcvt_scalar(
    insn: &Insn,
    em: &mut Emitter,
    from: FPrec,
    to: FPrec,
) -> (r: Result<(), LiftError>)
    requires
        old(em)@.ready(64),
    ensures
        emit::lifted(old(em)@, final(em)@, vcvt_scalar(insn, from, to, old(em)@), insn, r),
{
    reveal(vcvt_scalar);
    let d = match reg_xmm(insn, 0) {
        Some(d) => d,
        None => {
            return Err(unsupported_insn(insn));
        },
    };
    let a = match reg_xmm(insn, 1) {
        Some(a) => a,
        None => {
            return Err(unsupported_insn(insn));
        },
    };
    let src = match read_scalar_float(insn, 2, from, em) {
        Ok(src) => src,
        Err(e) => {
            return Err(e);
        },
    };
    if d != a {
        em.push(IrOp::VMov { dst: d, src: a });
    }
    em.push(IrOp::VCvtFloat { dst: d, src, from, to });
    em.push(IrOp::VZeroUpper { reg: d });
    Ok(())
}

#[verifier::opaque]
pub open spec fn round(insn: &Insn, prec: FPrec, scalar: bool, s: Emission) -> Emission {
    if reg_xmm(insn, 0) is None {
        s.fail()
    } else {
        let dst = reg_xmm(insn, 0)->0;
        let mode: u8 = insn.imm8(2);
        match source(reg_xmm(insn, 1), insn, 1) {
            Source::Reg(src) => {
                s.push(IrOp::VPRound { dst, a: dst, src, prec, mode, scalar })
            },
            Source::Mem => {
                let (s1, addr) = operand::address(insn, s);
                s1.push(IrOp::VPRoundM { dst, addr, prec, mode, scalar })
            },
            Source::Neither => s.fail(),
        }
    }
}

/// `round{ps,pd,ss,sd}` with the rounding mode in the immediate.
pub fn lift_round(
    insn: &Insn,
    em: &mut Emitter,
    prec: FPrec,
    scalar: bool,
) -> (r: Result<(), LiftError>)
    requires
        old(em)@.ready(64),
    ensures
        emit::lifted(old(em)@, final(em)@, round(insn, prec, scalar, old(em)@), insn, r),
{
    reveal(round);
    let dst = match reg_xmm(insn, 0) {
        Some(dst) => dst,
        None => {
            return Err(unsupported_insn(insn));
        },
    };
    let mode: u8 = insn.imm8(2);
    match source(reg_xmm(insn, 1), insn, 1) {
        Source::Reg(src) => {
            em.push(IrOp::VPRound { dst, a: dst, src, prec, mode, scalar });
        },
        Source::Mem => {
            let addr = match effective_address(insn, em) {
                Ok(addr) => addr,
                Err(e) => {
                    return Err(e);
                },
            };
            em.push(IrOp::VPRoundM { dst, addr, prec, mode, scalar });
        },
        Source::Neither => {
            return Err(unsupported_insn(insn));
        },
    }
    Ok(())
}

#[verifier::opaque]
pub open spec fn vrndscale(insn: &Insn, prec: FPrec, s: Emission) -> Emission {
    if evex_is_masked(insn) {
        s.fail()
    } else {
        let imm: u8 = insn.imm8(3);
        if imm >> 4 != 0 {
            s.fail()
        } else {
            if reg_xmm(insn, 0) is None || reg_xmm(insn, 1) is None {
                s.fail()
            } else {
                let dst = reg_xmm(insn, 0)->0;
                let a = reg_xmm(insn, 1)->0;
                let mode: u8 = imm & 0x0f;
                let s3 = match source(reg_xmm(insn, 2), insn, 2) {
                    Source::Reg(src) => {
                        s.push(IrOp::VPRound { dst, a, src, prec, mode, scalar: true })
                    },
                    Source::Mem => {
                        let (s1, addr) = operand::address(insn, s);
                        let s2 = if dst != a {
                            s1.push(IrOp::VMov { dst, src: a })
                        } else {
                            s1
                        };
                        s2.push(IrOp::VPRoundM { dst, addr, prec, mode, scalar: true })
                    },
                    Source::Neither => s.fail(),
                };
                s3.push(IrOp::VZeroUpper { reg: dst })
            }
        }
    }
}

/// EVEX `vrndscale{ss,sd}` with scale factor 0 and no mask: a three-operand rounding.
pub fn lift_vrndscale(insn: &Insn, em: &mut Emitter, prec: FPrec) -> (r: Result<(), LiftError>)
    requires
        old(em)@.ready(64),
    ensures
        emit::lifted(old(em)@, final(em)@, vrndscale(insn, prec, old(em)@), insn, r),
{
    reveal(vrndscale);
    if evex_is_masked(insn) {
        return Err(unsupported_insn(insn));
    }
    let imm: u8 = insn.imm8(3);
    if imm >> 4 != 0 {
        return Err(unsupported_insn(insn));
    }
    let dst = match reg_xmm(insn, 0) {
        Some(dst) => dst,
        None => {
            return Err(unsupported_insn(insn));
        },
    };
    let a = match reg_xmm(insn, 1) {
        Some(a) => a,
        None => {
            return Err(unsupported_insn(insn));
        },
    };
    let mode: u8 = imm & 0x0f;
    match source(reg_xmm(insn, 2), insn, 2) {
        Source::Reg(src) => {
            em.push(IrOp::VPRound { dst, a, src, prec, mode, scalar: true });
        },
        Source::Mem => {
            let addr = match effective_address(insn, em) {
                Ok(addr) => addr,
                Err(e) => {
                    return Err(e);
                },
            };
            if dst != a {
                em.push(IrOp::VMov { dst, src: a });
            }
            em.push(IrOp::VPRoundM { dst, addr, prec, mode, scalar: true });
        },
        Source::Neither => {
            return Err(unsupported_insn(insn));
        },
    }
    em.push(IrOp::VZeroUpper { reg: dst });
    Ok(())
}

/// `x * y + z`; a memory operand stands for the one that `mem_role` names (1 for `y`, 2 for
/// `z`), which is 0 here.
#[verifier::opaque]
pub open spec fn fma(
    insn: &Insn,
    order: u16,
    prec: FPrec,
    scalar: bool,
    neg_prod: bool,
    neg_add: bool,
    s: Emission,
) -> Emission {
    if evex_is_masked(insn) {
        s.fail()
    } else {
        if vec_operand(insn, 0) is None || vec_operand_reg(insn, 1) is None {
            s.fail()
        } else {
            let (dst, bytes) = vec_operand(insn, 0)->0;
            let op1 = vec_operand_reg(insn, 1)->0;
            let writemask: Option<u8> = None;
            let zeroing: bool = false;
            if insn.is_mem(2) {
                let x: u8 = if order == 132 { dst } else { op1 };
                let y: u8 = if order == 213 { dst } else { 0 };
                let z: u8 = if order == 132 { op1 } else if order == 213 { 0 } else { dst };
                let mem_role: u8 = if order == 213 { 2 } else { 1 };
                let (s1, addr) = operand::address(insn, s);
                s1.push(IrOp::VFmaM {
                    dst,
                    x,
                    y,
                    z,
                    addr,
                    mem_role,
                    prec,
                    scalar,
                    neg_prod,
                    neg_add,
                    bytes,
                    writemask,
                    zeroing,
                })
            } else {
                if vec_operand_reg(insn, 2) is None {
                    s.fail()
                } else {
                    let op2 = vec_operand_reg(insn, 2)->0;
                    let x: u8 = if order == 132 { dst } else { op1 };
                    let y: u8 = if order == 213 { dst } else { op2 };
                    let z: u8 = if order == 132 { op1 } else if order == 213 { op2 } else { dst };
                    s.push(IrOp::VFma {
                        dst,
                        x,
                        y,
                        z,
                        prec,
                        scalar,
                        neg_prod,
                        neg_add,
                        bytes,
                        writemask,
                        zeroing,
                    })
                }
            }
        }
    }
}

/// FMA3: the digits of `order` (132, 213 or 231) name the operands that are multiplied and
/// added; masked forms are not supported.
pub fn lift_fma(
    insn: &Insn,
    em: &mut Emitter,
    order: u16,
    prec: FPrec,
    scalar: bool,
    neg_prod: bool,
    neg_add: bool,
) -> (r: Result<(), LiftError>)
    requires
        old(em)@.ready(64),
    ensures
        emit::lifted(
            old(em)@,
            final(em)@,
            fma(insn, order, prec, scalar, neg_prod, neg_add, old(em)@),
            insn,
            r,
        ),
{
    reveal(fma);
    if evex_is_masked(insn) {
        return Err(unsupported_insn(insn));
    }
    let (dst, bytes) = match vec_operand(insn, 0) {
        Some(v) => v,
        None => {
            return Err(unsupported_insn(insn));
        },
    };
    let op1 = match vec_operand_reg(insn, 1) {
        Some(op1) => op1,
        None => {
            return Err(unsupported_insn(insn));
        },
    };
    let writemask: Option<u8> = None;
    let zeroing: bool = false;
    if insn.is_mem(2) {
        let x: u8 = if order == 132 { dst } else { op1 };
        let y: u8 = if order == 213 { dst } else { 0 };
        let z: u8 = if order == 132 { op1 } else if order == 213 { 0 } else { dst };
        let mem_role: u8 = if order == 213 { 2 } else { 1 };
        let addr = match effective_address(insn, em) {
            Ok(addr) => addr,
            Err(e) => {
                return Err(e);
            },
        };
        em.push(IrOp::VFmaM {
            dst,
            x,
            y,
            z,
            addr,
            mem_role,
            prec,
            scalar,
            neg_prod,
            neg_add,
            bytes,
            writemask,
            zeroing,
        });
        return Ok(());
    }
    let op2 = match vec_operand_reg(insn, 2) {
        Some(op2) => op2,
        None => {
            return Err(unsupported_insn(insn));
        },
    };
    let x: u8 = if order == 132 { dst } else { op1 };
    let y: u8 = if order == 213 { dst } else { op2 };
    let z: u8 = if order == 132 { op1 } else if order == 213 { op2 } else { dst };
    em.push(
        IrOp::VFma { dst, x, y, z, prec, scalar, neg_prod, neg_add, bytes, writemask, zeroing },
    );
    Ok(())
}

} // verus!
