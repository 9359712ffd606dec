//! Opmasks, and comparisons whose result is one.
use crate::insn::Insn;
use crate::ir::{IrOp, PackedBinOp, Temp, VKLogicOp, Val};
use crate::lift::emit::{Emission, Emitter};
use crate::lift::operand::{
    effective_address, evex_writemask, lower_read, reg_kmask, source, unsupported_insn,
    vec_operand, vec_operand_reg, write_operand, Source,
};
use crate::lift::vpacked::lift_vpacked_bin_avx;
use crate::lift::{emit, operand, vpacked, LiftError};
use vstd::prelude::*;

verus! {

broadcast use operand::group_failed;

#[verifier::opaque]
pub open spec fn kunpck(insn: &Insn, half: u8, s: Emission) -> Emission {
    if reg_kmask(insn, 0) is None || reg_kmask(insn, 1) is None || reg_kmask(insn, 2) is None {
        s.fail()
    } else {
        let dst = reg_kmask(insn, 0)->0;
        let a = reg_kmask(insn, 1)->0;
        let b = reg_kmask(insn, 2)->0;
        s.push(IrOp::VKUnpack { dst, a, b, half })
    }
}

/// `kunpck{bw,wd,dq}`: joins the low `half` bits of two opmasks.
pub fn lift_kunpck(insn: &Insn, em: &mut Emitter, half: u8) -> (r: Result<(), LiftError>)
    requires
        old(em)@.ready(64),
    ensures
        emit::lifted(old(em)@, final(em)@, kunpck(insn, half, old(em)@), insn, r),
{
    reveal(kunpck);
    let dst = match reg_kmask(insn, 0) {
        Some(dst) => dst,
        None => {
            return Err(unsupported_insn(insn));
        },
    };
    let a = match reg_kmask(insn, 1) {
        Some(a) => a,
        None => {
            return Err(unsupported_insn(insn));
        },
    };
    let b = match reg_kmask(insn, 2) {
        Some(b) => b,
        None => {
            return Err(unsupported_insn(insn));
        },
    };
    em.push(IrOp::VKUnpack { dst, a, b, half });
    Ok(())
}

#[verifier::opaque]
pub open spec fn kbinop(insn: &Insn, op: VKLogicOp, width: u8, s: Emission) -> Emission {
    if reg_kmask(insn, 0) is None || reg_kmask(insn, 1) is None || reg_kmask(insn, 2) is None {
        s.fail()
    } else {
        let dst = reg_kmask(insn, 0)->0;
        let a = reg_kmask(insn, 1)->0;
        let b = reg_kmask(insn, 2)->0;
        s.push(IrOp::VKBinOp { dst, a, b, op, width })
    }
}

/// Opmask logic on `width` bits.
pub fn lift_kbinop(
    insn: &Insn,
    em: &mut Emitter,
    op: VKLogicOp,
    width: u8,
) -> (r: Result<(), LiftError>)
    requires
        old(em)@.ready(64),
    ensures
        emit::lifted(old(em)@, final(em)@, kbinop(insn, op, width, old(em)@), insn, r),
{
    reveal(kbinop);
    let dst = match reg_kmask(insn, 0) {
        Some(dst) => dst,
        None => {
            return Err(unsupported_insn(insn));
        },
    };
    let a = match reg_kmask(insn, 1) {
        Some(a) => a,
        None => {
            return Err(unsupported_insn(insn));
        },
    };
    let b = match reg_kmask(insn, 2) {
        Some(b) => b,
        None => {
            return Err(unsupported_insn(insn));
        },
    };
    em.push(IrOp::VKBinOp { dst, a, b, op, width });
    Ok(())
}

#[verifier::opaque]
pub open spec fn knot(insn: &Insn, width: u8, s: Emission) -> Emission {
    if reg_kmask(insn, 0) is None || reg_kmask(insn, 1) is None {
        s.fail()
    } else {
        let dst = reg_kmask(insn, 0)->0;
        let a = reg_kmask(insn, 1)->0;
        s.push(IrOp::VKNot { dst, a, width })
    }
}

/// `knot`: complement of `width` bits.
pub fn lift_knot(insn: &Insn, em: &mut Emitter, width: u8) -> (r: Result<(), LiftError>)
    requires
        old(em)@.ready(64),
    ensures
        emit::lifted(old(em)@, final(em)@, knot(insn, width, old(em)@), insn, r),
{
    reveal(knot);
    let dst = match reg_kmask(insn, 0) {
        Some(dst) => dst,
        None => {
            return Err(unsupported_insn(insn));
        },
    };
    let a = match reg_kmask(insn, 1) {
        Some(a) => a,
        None => {
            return Err(unsupported_insn(insn));
        },
    };
    em.push(IrOp::VKNot { dst, a, width });
    Ok(())
}

#[verifier::opaque]
pub open spec fn kshift(insn: &Insn, width: u8, left: bool, s: Emission) -> Emission {
    if reg_kmask(insn, 0) is None || reg_kmask(insn, 1) is None {
        s.fail()
    } else {
        let dst = reg_kmask(insn, 0)->0;
        let a = reg_kmask(insn, 1)->0;
        s.push(IrOp::VKShift { dst, a, amount: insn.imm8(2), width, left })
    }
}

/// `kshift{l,r}`: shift by an immediate within `width` bits.
pub fn lift_kshift(
    insn: &Insn,
    em: &mut Emitter,
    width: u8,
    left: bool,
) -> (r: Result<(), LiftError>)
    requires
        old(em)@.ready(64),
    ensures
        emit::lifted(old(em)@, final(em)@, kshift(insn, width, left, old(em)@), insn, r),
{
    reveal(kshift);
    let dst = match reg_kmask(insn, 0) {
        Some(dst) => dst,
        None => {
            return Err(unsupported_insn(insn));
        },
    };
    let a = match reg_kmask(insn, 1) {
        Some(a) => a,
        None => {
            return Err(unsupported_insn(insn));
        },
    };
    em.push(IrOp::VKShift { dst, a, amount: insn.imm8(2), width, left });
    Ok(())
}

#[verifier::opaque]
pub open spec fn kmov(insn: &Insn, width: u8, s: Emission) -> Emission {
    if reg_kmask(insn, 0) is Some {
        let k = reg_kmask(insn, 0)->0;
        if reg_kmask(insn, 1) is Some {
            let src = reg_kmask(insn, 1)->0;
            s.push(IrOp::VKMovKK { dst: k, src, width })
        } else {
            let (s1, src) = operand::read(insn, 1, s);
            s1.push(IrOp::VKFromGpr { k, src, width })
        }
    } else {
        if reg_kmask(insn, 1) is None {
            s.fail()
        } else {
            let k = reg_kmask(insn, 1)->0;
            let s2 = s.def(IrOp::VKToGpr { dst: s.next, k, width });
            let bits = Val::Temp(s.next);
            operand::store(insn, 0, bits, s2)
        }
    }
}

/// `kmov` between opmasks, general registers and memory.
pub fn lift_kmov(insn: &Insn, em: &mut Emitter, width: u8) -> (r: Result<(), LiftError>)
    requires
        old(em)@.ready(64),
    ensures
        emit::lifted(old(em)@, final(em)@, kmov(insn, width, old(em)@), insn, r),
{
    reveal(kmov);
    if let Some(k) = reg_kmask(insn, 0) {
        if let Some(src) = reg_kmask(insn, 1) {
            em.push(IrOp::VKMovKK { dst: k, src, width });
            return Ok(());
        }
        let src = match lower_read(insn, 1, em) {
            Ok(src) => src,
            Err(e) => {
                return Err(e);
            },
        };
        em.push(IrOp::VKFromGpr { k, src, width });
        return Ok(());
    }
    let k = match reg_kmask(insn, 1) {
        Some(k) => k,
        None => {
            return Err(unsupported_insn(insn));
        },
    };
    let t: Temp = em.peek();
    em.def(t, IrOp::VKToGpr { dst: t, k, width });
    let bits = Val::Temp(t);
    write_operand(insn, 0, bits, em)
}

#[verifier::opaque]
pub open spec fn kortest(insn: &Insn, width: u8, s: Emission) -> Emission {
    if reg_kmask(insn, 0) is None || reg_kmask(insn, 1) is None {
        s.fail()
    } else {
        let a = reg_kmask(insn, 0)->0;
        let b = reg_kmask(insn, 1)->0;
        s.push(IrOp::VKOrTest { a, b, width })
    }
}

/// `kortest`: flags of the union of two opmasks.
pub fn lift_kortest(insn: &Insn, em: &mut Emitter, width: u8) -> (r: Result<(), LiftError>)
    requires
        old(em)@.ready(64),
    ensures
        emit::lifted(old(em)@, final(em)@, kortest(insn, width, old(em)@), insn, r),
{
    reveal(kortest);
    let a = match reg_kmask(insn, 0) {
        Some(a) => a,
        None => {
            return Err(unsupported_insn(insn));
        },
    };
    let b = match reg_kmask(insn, 1) {
        Some(b) => b,
        None => {
            return Err(unsupported_insn(insn));
        },
    };
    em.push(IrOp::VKOrTest { a, b, width });
    Ok(())
}

#[verifier::opaque]
pub open spec fn vptest(insn: &Insn, elem: u8, neg: bool, s: Emission) -> Emission {
    if reg_kmask(insn, 0) is None || vec_operand(insn, 1) is None {
        s.fail()
    } else {
        let k = reg_kmask(insn, 0)->0;
        let (a, width) = vec_operand(insn, 1)->0;
        let writemask: Option<u8> = evex_writemask(insn);
        match source(vec_operand_reg(insn, 2), insn, 2) {
            Source::Reg(b) => {
                s.push(IrOp::VPTestToMask { k, a, b, elem, width, neg, writemask })
            },
            Source::Mem => {
                let (s1, addr) = operand::address(insn, s);
                s1.push(IrOp::VPTestToMaskM { k, a, addr, elem, width, neg, writemask })
            },
            Source::Neither => s.fail(),
        }
    }
}

/// EVEX `vptestm*`/`vptestnm*` to an opmask.
pub fn lift_vptest(
    insn: &Insn,
    em: &mut Emitter,
    elem: u8,
    neg: bool,
) -> (r: Result<(), LiftError>)
    requires
        old(em)@.ready(64),
    ensures
        emit::lifted(old(em)@, final(em)@, vptest(insn, elem, neg, old(em)@), insn, r),
{
    reveal(vptest);
    let k = match reg_kmask(insn, 0) {
        Some(k) => k,
        None => {
            return Err(unsupported_insn(insn));
        },
    };
    let (a, width) = match vec_operand(insn, 1) {
        Some(v) => v,
        None => {
            return Err(unsupported_insn(insn));
        },
    };
    let writemask: Option<u8> = evex_writemask(insn);
    match source(vec_operand_reg(insn, 2), insn, 2) {
        Source::Reg(b) => {
            em.push(IrOp::VPTestToMask { k, a, b, elem, width, neg, writemask });
        },
        Source::Mem => {
            let addr = match effective_address(insn, em) {
                Ok(addr) => addr,
                Err(e) => {
                    return Err(e);
                },
            };
            em.push(IrOp::VPTestToMaskM { k, a, addr, elem, width, neg, writemask });
        },
        Source::Neither => {
            return Err(unsupported_insn(insn));
        },
    }
    Ok(())
}

#[verifier::opaque]
pub open spec fn vpcmp_pred(
    insn: &Insn,
    elem: u8,
    pred: u8,
    signed: bool,
    s: Emission,
) -> Emission {
    if reg_kmask(insn, 0) is None || vec_operand(insn, 1) is None {
        s.fail()
    } else {
        let k = reg_kmask(insn, 0)->0;
        let (a, width) = vec_operand(insn, 1)->0;
        let writemask: Option<u8> = evex_writemask(insn);
        match source(vec_operand_reg(insn, 2), insn, 2) {
            Source::Reg(b) => {
                s.push(IrOp::VPCmpToMask { k, a, b, elem, width, pred, signed, writemask })
            },
            Source::Mem => {
                let (s1, addr) = operand::address(insn, s);
                s1.push(IrOp::VPCmpToMaskM { k, a, addr, elem, width, pred, signed, writemask })
            },
            Source::Neither => s.fail(),
        }
    }
}

/// EVEX comparison to an opmask with predicate `pred`.
pub fn lift_vpcmp_pred(
    insn: &Insn,
    em: &mut Emitter,
    elem: u8,
    pred: u8,
    signed: bool,
) -> (r: Result<(), LiftError>)
    requires
        old(em)@.ready(64),
    ensures
        emit::lifted(
            old(em)@,
            final(em)@,
            vpcmp_pred(insn, elem, pred, signed, old(em)@),
            insn,
            r,
        ),
{
    reveal(vpcmp_pred);
    let k = match reg_kmask(insn, 0) {
        Some(k) => k,
        None => {
            return Err(unsupported_insn(insn));
        },
    };
    let (a, width) = match vec_operand(insn, 1) {
        Some(v) => v,
        None => {
            return Err(unsupported_insn(insn));
        },
    };
    let writemask: Option<u8> = evex_writemask(insn);
    match source(vec_operand_reg(insn, 2), insn, 2) {
        Source::Reg(b) => {
            em.push(IrOp::VPCmpToMask { k, a, b, elem, width, pred, signed, writemask });
        },
        Source::Mem => {
            let addr = match effective_address(insn, em) {
                Ok(addr) => addr,
                Err(e) => {
                    return Err(e);
                },
            };
            em.push(IrOp::VPCmpToMaskM { k, a, addr, elem, width, pred, signed, writemask });
        },
        Source::Neither => {
            return Err(unsupported_insn(insn));
        },
    }
    Ok(())
}

#[verifier::opaque]
pub open spec fn vpcmp(insn: &Insn, elem: u8, signed: bool, s: Emission) -> Emission {
    vpcmp_pred(insn, elem, insn.imm8(3), signed, s)
}

/// EVEX `vpcmp{,u}{b,w,d,q}`: the immediate is the predicate.
pub fn lift_vpcmp(
    insn: &Insn,
    em: &mut Emitter,
    elem: u8,
    signed: bool,
) -> (r: Result<(), LiftError>)
    requires
        old(em)@.ready(64),
    ensures
        emit::lifted(old(em)@, final(em)@, vpcmp(insn, elem, signed, old(em)@), insn, r),
{
    reveal(vpcmp);
    lift_vpcmp_pred(insn, em, elem, insn.imm8(3), signed)
}

#[verifier::opaque]
pub open spec fn vpcmp_fixed_or_packed(
    insn: &Insn,
    elem: u8,
    packed: PackedBinOp,
    pred: u8,
    signed: bool,
    s: Emission,
) -> Emission {
    if reg_kmask(insn, 0).is_none() {
        vpacked::vpacked_bin_avx(insn, elem, packed, s)
    } else {
        vpcmp_pred(insn, elem, pred, signed, s)
    }
}

/// `vpcmpeq*`/`vpcmpgt*`: to an opmask with the fixed predicate, or the packed form where
/// the destination is a vector.
pub fn lift_vpcmp_fixed_or_packed(
    insn: &Insn,
    em: &mut Emitter,
    elem: u8,
    packed: PackedBinOp,
    pred: u8,
    signed: bool,
) -> (r: Result<(), LiftError>)
    requires
        old(em)@.ready(64),
    ensures
        emit::lifted(
            old(em)@,
            final(em)@,
            vpcmp_fixed_or_packed(insn, elem, packed, pred, signed, old(em)@),
            insn,
            r,
        ),
{
    reveal(vpcmp_fixed_or_packed);
    if reg_kmask(insn, 0).is_none() {
        return lift_vpacked_bin_avx(insn, em, elem, packed);
    }
    lift_vpcmp_pred(insn, em, elem, pred, signed)
}

} // verus!
