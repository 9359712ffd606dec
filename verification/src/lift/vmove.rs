//! Vector moves: loads, stores, halves, lanes and masks to and from general registers.
use crate::insn::Insn;
use crate::ir::{IrOp, Temp, Val};
use crate::lift::emit::{Emission, Emitter};
use crate::lift::operand::{
    effective_address, evex_is_masked, evex_writemask, lower_read, reg_mmx, reg_xmm, reg_ymm,
    reg_zmm, source, unsupported_insn, vec_operand, vec_operand_reg, write_operand,
};
use crate::lift::{emit, operand, LiftError};
use crate::op_kind;
use vstd::prelude::*;

verus! {

broadcast use operand::group_failed;

/// The short register forms move the low `size` bytes through a temporary, which zeroes the
/// rest of the destination.
#[verifier::opaque]
pub open spec fn vmov(insn: &Insn, size: u8, s: Emission) -> Emission {
    if reg_xmm(insn, 0) is Some {
        let d = reg_xmm(insn, 0)->0;
        if insn.is_mem(1) {
            let (s1, addr) = operand::address(insn, s);
            s1.push(IrOp::VLoad { dst: d, addr, size })
        } else {
            if reg_xmm(insn, 1) is Some {
                let src = reg_xmm(insn, 1)->0;
                if size == 16 {
                    s.push(IrOp::VMov { dst: d, src })
                } else {
                    let s2 = s.def(IrOp::VToGpr { dst: s.next, src, size });
                    let low = Val::Temp(s.next);
                    s2.push(IrOp::VFromGpr { dst: d, src: low, size })
                }
            } else {
                if insn.op(1).kind == op_kind::REGISTER {
                    let (s3, src) = operand::read(insn, 1, s);
                    s3.push(IrOp::VFromGpr { dst: d, src, size })
                } else {
                    s.fail()
                }
            }
        }
    } else {
        if reg_xmm(insn, 1) is Some {
            let src = reg_xmm(insn, 1)->0;
            if insn.is_mem(0) {
                let (s4, addr) = operand::address(insn, s);
                s4.push(IrOp::VStore { addr, src, size })
            } else {
                if insn.op(0).kind == op_kind::REGISTER {
                    let s5 = s.def(IrOp::VToGpr { dst: s.next, src, size });
                    let low = Val::Temp(s.next);
                    operand::store(insn, 0, low, s5)
                } else {
                    s.fail()
                }
            }
        } else {
            s.fail()
        }
    }
}

/// `movdqa`/`movdqu`/`movaps`/`movups` (16 bytes), `movq` (8) and `movd` (4) between vector
/// registers, general registers and memory.
pub fn lift_vmov(insn: &Insn, em: &mut Emitter, size: u8) -> (r: Result<(), LiftError>)
    requires
        old(em)@.ready(64),
    ensures
        emit::lifted(old(em)@, final(em)@, vmov(insn, size, old(em)@), insn, r),
{
    reveal(vmov);
    if let Some(d) = reg_xmm(insn, 0) {
        if insn.is_mem(1) {
            let addr = match effective_address(insn, em) {
                Ok(addr) => addr,
                Err(e) => {
                    return Err(e);
                },
            };
            em.push(IrOp::VLoad { dst: d, addr, size });
            return Ok(());
        }
        if let Some(src) = reg_xmm(insn, 1) {
            if size == 16 {
                em.push(IrOp::VMov { dst: d, src });
                return Ok(());
            }
            let t: Temp = em.peek();
            em.def(t, IrOp::VToGpr { dst: t, src, size });
            let low = Val::Temp(t);
            em.push(IrOp::VFromGpr { dst: d, src: low, size });
            return Ok(());
        }
        if insn.op(1).kind == op_kind::REGISTER {
            let src = match lower_read(insn, 1, em) {
                Ok(src) => src,
                Err(e) => {
                    return Err(e);
                },
            };
            em.push(IrOp::VFromGpr { dst: d, src, size });
            return Ok(());
        }
        return Err(unsupported_insn(insn));
    }
    if let Some(src) = reg_xmm(insn, 1) {
        if insn.is_mem(0) {
            let addr = match effective_address(insn, em) {
                Ok(addr) => addr,
                Err(e) => {
                    return Err(e);
                },
            };
            em.push(IrOp::VStore { addr, src, size });
            return Ok(());
        }
        if insn.op(0).kind == op_kind::REGISTER {
            let t: Temp = em.peek();
            em.def(t, IrOp::VToGpr { dst: t, src, size });
            let low = Val::Temp(t);
            return write_operand(insn, 0, low, em);
        }
        return Err(unsupported_insn(insn));
    }
    Err(unsupported_insn(insn))
}

#[verifier::opaque]
pub open spec fn vmov_vex(insn: &Insn, size: u8, s: Emission) -> Emission {
    let s1 = vmov(insn, size, s);
    if reg_xmm(insn, 0) is Some {
        let reg = reg_xmm(insn, 0)->0;
        s1.push(IrOp::VZeroUpper { reg })
    } else {
        s1
    }
}

/// VEX.128 move: as `lift_vmov`, and a register destination has its upper bits cleared.
pub fn lift_vmov_vex(insn: &Insn, em: &mut Emitter, size: u8) -> (r: Result<(), LiftError>)
    requires
        old(em)@.ready(64),
    ensures
        emit::lifted(old(em)@, final(em)@, vmov_vex(insn, size, old(em)@), insn, r),
{
    reveal(vmov_vex);
    match lift_vmov(insn, em, size) {
        Ok(_) => {},
        Err(e) => {
            return Err(e);
        },
    }
    if let Some(reg) = reg_xmm(insn, 0) {
        em.push(IrOp::VZeroUpper { reg });
        return Ok(());
    }
    return Ok(());
}

/// `first` and `second` are the registers of the two operands; the other one is memory.
#[verifier::opaque]
pub open spec fn vmov_wide(
    insn: &Insn,
    first: Option<u8>,
    second: Option<u8>,
    bytes: u16,
    s: Emission,
) -> Emission {
    if first is Some {
        let dst = first->0;
        if insn.is_mem(1) {
            let (s1, addr) = operand::address(insn, s);
            s1.push(IrOp::VLoadWide { dst, addr, bytes })
        } else {
            if second is None {
                s.fail()
            } else {
                let src = second->0;
                s.push(IrOp::VMovWide { dst, src, bytes })
            }
        }
    } else {
        if second is None {
            s.fail()
        } else {
            let src = second->0;
            if !insn.is_mem(0) {
                s.fail()
            } else {
                let (s2, addr) = operand::address(insn, s);
                s2.push(IrOp::VStoreWide { addr, src, bytes })
            }
        }
    }
}

/// A move of `bytes` bytes where at least one operand is a vector register of that width.
pub fn lift_vmov_wide(
    insn: &Insn,
    em: &mut Emitter,
    first: Option<u8>,
    second: Option<u8>,
    bytes: u16,
) -> (r: Result<(), LiftError>)
    requires
        old(em)@.ready(64),
    ensures
        emit::lifted(
            old(em)@,
            final(em)@,
            vmov_wide(insn, first, second, bytes, old(em)@),
            insn,
            r,
        ),
{
    reveal(vmov_wide);
    if let Some(dst) = first {
        if insn.is_mem(1) {
            let addr = match effective_address(insn, em) {
                Ok(addr) => addr,
                Err(e) => {
                    return Err(e);
                },
            };
            em.push(IrOp::VLoadWide { dst, addr, bytes });
            return Ok(());
        }
        let src = match second {
            Some(src) => src,
            None => {
                return Err(unsupported_insn(insn));
            },
        };
        em.push(IrOp::VMovWide { dst, src, bytes });
        return Ok(());
    }
    let src = match second {
        Some(src) => src,
        None => {
            return Err(unsupported_insn(insn));
        },
    };
    if !insn.is_mem(0) {
        return Err(unsupported_insn(insn));
    }
    let addr = match effective_address(insn, em) {
        Ok(addr) => addr,
        Err(e) => {
            return Err(e);
        },
    };
    em.push(IrOp::VStoreWide { addr, src, bytes });
    Ok(())
}

/// Masked forms move `elem`-byte elements under the mask, between registers or to and from
/// memory; the others go by width.
#[verifier::opaque]
pub open spec fn vmov_avx(insn: &Insn, elem: u8, s: Emission) -> Emission {
    if evex_is_masked(insn) {
        if evex_writemask(insn) is None {
            s.fail()
        } else {
            let k = evex_writemask(insn)->0;
            if vec_operand(insn, 0) is Some {
                let (dst, bytes) = vec_operand(insn, 0)->0;
                if vec_operand_reg(insn, 1) is Some {
                    let src = vec_operand_reg(insn, 1)->0;
                    s.push(IrOp::VMaskMov { dst, src, k, elem, zeroing: insn.zeroing, bytes })
                } else {
                    if !insn.is_mem(1) {
                        s.fail()
                    } else {
                        let (s1, addr) = operand::address(insn, s);
                        s1.push(IrOp::VMaskLoadMem {
                            dst,
                            addr,
                            k,
                            elem,
                            zeroing: insn.zeroing,
                            bytes,
                        })
                    }
                }
            } else {
                if vec_operand(insn, 1) is None {
                    s.fail()
                } else {
                    let (src, bytes) = vec_operand(insn, 1)->0;
                    if !insn.is_mem(0) {
                        s.fail()
                    } else {
                        let (s2, addr) = operand::address(insn, s);
                        s2.push(IrOp::VMaskStoreMem { src, addr, k, elem, bytes })
                    }
                }
            }
        }
    } else {
        if reg_zmm(insn, 0).is_some() || reg_zmm(insn, 1).is_some() {
            vmov_wide(insn, reg_zmm(insn, 0), reg_zmm(insn, 1), 64, s)
        } else {
            if reg_ymm(insn, 0).is_some() || reg_ymm(insn, 1).is_some() {
                vmov_wide(insn, reg_ymm(insn, 0), reg_ymm(insn, 1), 32, s)
            } else {
                vmov_vex(insn, 16, s)
            }
        }
    }
}

/// `vmovdqu`, `vmovdqa`, `vmovups` and `vmovaps` of any width.
pub fn lift_vmov_avx(insn: &Insn, em: &mut Emitter, elem: u8) -> (r: Result<(), LiftError>)
    requires
        old(em)@.ready(64),
    ensures
        emit::lifted(old(em)@, final(em)@, vmov_avx(insn, elem, old(em)@), insn, r),
{
    reveal(vmov_avx);
    if evex_is_masked(insn) {
        let k = match evex_writemask(insn) {
            Some(k) => k,
            None => {
                return Err(unsupported_insn(insn));
            },
        };
        if let Some((dst, bytes)) = vec_operand(insn, 0) {
            if let Some(src) = vec_operand_reg(insn, 1) {
                em.push(IrOp::VMaskMov { dst, src, k, elem, zeroing: insn.zeroing, bytes });
                return Ok(());
            }
            if !insn.is_mem(1) {
                return Err(unsupported_insn(insn));
            }
            let addr = match effective_address(insn, em) {
                Ok(addr) => addr,
                Err(e) => {
                    return Err(e);
                },
            };
            em.push(IrOp::VMaskLoadMem { dst, addr, k, elem, zeroing: insn.zeroing, bytes });
            return Ok(());
        }
        let (src, bytes) = match vec_operand(insn, 1) {
            Some(v) => v,
            None => {
                return Err(unsupported_insn(insn));
            },
        };
        if !insn.is_mem(0) {
            return Err(unsupported_insn(insn));
        }
        let addr = match effective_address(insn, em) {
            Ok(addr) => addr,
            Err(e) => {
                return Err(e);
            },
        };
        em.push(IrOp::VMaskStoreMem { src, addr, k, elem, bytes });
        return Ok(());
    }
    if reg_zmm(insn, 0).is_some() || reg_zmm(insn, 1).is_some() {
        return lift_vmov_wide(insn, em, reg_zmm(insn, 0), reg_zmm(insn, 1), 64);
    }
    if reg_ymm(insn, 0).is_some() || reg_ymm(insn, 1).is_some() {
        return lift_vmov_wide(insn, em, reg_ymm(insn, 0), reg_ymm(insn, 1), 32);
    }
    lift_vmov_vex(insn, em, 16)
}

#[verifier::opaque]
pub open spec fn move_half(
    insn: &Insn,
    dst_high: bool,
    src_high: bool,
    s: Emission,
) -> Emission {
    if reg_xmm(insn, 0) is None || reg_xmm(insn, 1) is None {
        s.fail()
    } else {
        let d = reg_xmm(insn, 0)->0;
        let src = reg_xmm(insn, 1)->0;
        s.push(IrOp::VMoveHalf { dst: d, src, dst_high, src_high })
    }
}

/// `movlhps`/`movhlps`: copies a 64-bit half between two vector registers.
pub fn lift_move_half(
    insn: &Insn,
    em: &mut Emitter,
    dst_high: bool,
    src_high: bool,
) -> (r: Result<(), LiftError>)
    requires
        old(em)@.ready(64),
    ensures
        emit::lifted(
            old(em)@,
            final(em)@,
            move_half(insn, dst_high, src_high, old(em)@),
            insn,
            r,
        ),
{
    reveal(move_half);
    let d = match reg_xmm(insn, 0) {
        Some(d) => d,
        None => {
            return Err(unsupported_insn(insn));
        },
    };
    let src = match reg_xmm(insn, 1) {
        Some(src) => src,
        None => {
            return Err(unsupported_insn(insn));
        },
    };
    em.push(IrOp::VMoveHalf { dst: d, src, dst_high, src_high });
    Ok(())
}

#[verifier::opaque]
pub open spec fn half_mem(insn: &Insn, high: bool, s: Emission) -> Emission {
    if reg_xmm(insn, 0) is Some && insn.is_mem(1) {
        let dst = reg_xmm(insn, 0)->0;
        let (s1, addr) = operand::address(insn, s);
        s1.push(IrOp::VLoadHalf { dst, addr, high })
    } else {
        if reg_xmm(insn, 1) is None {
            s.fail()
        } else {
            let src = reg_xmm(insn, 1)->0;
            if !insn.is_mem(0) {
                s.fail()
            } else {
                let (s2, addr) = operand::address(insn, s);
                s2.push(IrOp::VStoreHalf { addr, src, high })
            }
        }
    }
}

/// `movhps`/`movlps`: loads a 64-bit half from memory or stores it; `high` selects the
/// upper quadword.
pub fn lift_half_mem(insn: &Insn, em: &mut Emitter, high: bool) -> (r: Result<(), LiftError>)
    requires
        old(em)@.ready(64),
    ensures
        emit::lifted(old(em)@, final(em)@, half_mem(insn, high, old(em)@), insn, r),
{
    reveal(half_mem);
    if let Some(dst) = reg_xmm(insn, 0) {
        if insn.is_mem(1) {
            let addr = match effective_address(insn, em) {
                Ok(addr) => addr,
                Err(e) => {
                    return Err(e);
                },
            };
            em.push(IrOp::VLoadHalf { dst, addr, high });
            return Ok(());
        }
    }
    let src = match reg_xmm(insn, 1) {
        Some(src) => src,
        None => {
            return Err(unsupported_insn(insn));
        },
    };
    if !insn.is_mem(0) {
        return Err(unsupported_insn(insn));
    }
    let addr = match effective_address(insn, em) {
        Ok(addr) => addr,
        Err(e) => {
            return Err(e);
        },
    };
    em.push(IrOp::VStoreHalf { addr, src, high });
    Ok(())
}

#[verifier::opaque]
pub open spec fn vhalf_mem(insn: &Insn, high: bool, s: Emission) -> Emission {
    if insn.is_mem(0) {
        half_mem(insn, high, s)
    } else {
        if reg_xmm(insn, 0) is None || reg_xmm(insn, 1) is None {
            s.fail()
        } else {
            let d = reg_xmm(insn, 0)->0;
            let a = reg_xmm(insn, 1)->0;
            if !insn.is_mem(2) {
                s.fail()
            } else {
                let (s1, addr) = operand::address(insn, s);
                let s2 = if d != a {
                    s1.push(IrOp::VMov { dst: d, src: a })
                } else {
                    s1
                };
                let s3 = s2.push(IrOp::VLoadHalf { dst: d, addr, high });
                s3.push(IrOp::VZeroUpper { reg: d })
            }
        }
    }
}

/// VEX `vmov{l,h}p{s,d}`: the store, or the three-operand load, which takes the other half
/// from op1 and clears the upper bits.
pub fn lift_vhalf_mem(insn: &Insn, em: &mut Emitter, high: bool) -> (r: Result<(), LiftError>)
    requires
        old(em)@.ready(64),
    ensures
        emit::lifted(old(em)@, final(em)@, vhalf_mem(insn, high, old(em)@), insn, r),
{
    reveal(vhalf_mem);
    if insn.is_mem(0) {
        return lift_half_mem(insn, em, high);
    }
    let d = match reg_xmm(insn, 0) {
        Some(d) => d,
        None => {
            return Err(unsupported_insn(insn));
        },
    };
    let a = match reg_xmm(insn, 1) {
        Some(a) => a,
        None => {
            return Err(unsupported_insn(insn));
        },
    };
    if !insn.is_mem(2) {
        return Err(unsupported_insn(insn));
    }
    let addr = match effective_address(insn, em) {
        Ok(addr) => addr,
        Err(e) => {
            return Err(e);
        },
    };
    if d != a {
        em.push(IrOp::VMov { dst: d, src: a });
    }
    em.push(IrOp::VLoadHalf { dst: d, addr, high });
    em.push(IrOp::VZeroUpper { reg: d });
    Ok(())
}

#[verifier::opaque]
pub open spec fn movq2dq(insn: &Insn, s: Emission) -> Emission {
    if reg_xmm(insn, 0) is None || reg_mmx(insn, 1) is None {
        s.fail()
    } else {
        let dst = reg_xmm(insn, 0)->0;
        let src_mm = reg_mmx(insn, 1)->0;
        s.push(IrOp::Movq2dq { dst, src_mm })
    }
}

/// `movq2dq xmm, mm`.
pub fn lift_movq2dq(insn: &Insn, em: &mut Emitter) -> (r: Result<(), LiftError>)
    requires
        old(em)@.ready(64),
    ensures
        emit::lifted(old(em)@, final(em)@, movq2dq(insn, old(em)@), insn, r),
{
    reveal(movq2dq);
    let dst = match reg_xmm(insn, 0) {
        Some(dst) => dst,
        None => {
            return Err(unsupported_insn(insn));
        },
    };
    let src_mm = match reg_mmx(insn, 1) {
        Some(src_mm) => src_mm,
        None => {
            return Err(unsupported_insn(insn));
        },
    };
    em.push(IrOp::Movq2dq { dst, src_mm });
    Ok(())
}

#[verifier::opaque]
pub open spec fn movdq2q(insn: &Insn, s: Emission) -> Emission {
    if reg_mmx(insn, 0) is None || reg_xmm(insn, 1) is None {
        s.fail()
    } else {
        let dst_mm = reg_mmx(insn, 0)->0;
        let src_xmm = reg_xmm(insn, 1)->0;
        s.push(IrOp::Movdq2q { dst_mm, src_xmm })
    }
}

/// `movdq2q mm, xmm`.
pub fn lift_movdq2q(insn: &Insn, em: &mut Emitter) -> (r: Result<(), LiftError>)
    requires
        old(em)@.ready(64),
    ensures
        emit::lifted(old(em)@, final(em)@, movdq2q(insn, old(em)@), insn, r),
{
    reveal(movdq2q);
    let dst_mm = match reg_mmx(insn, 0) {
        Some(dst_mm) => dst_mm,
        None => {
            return Err(unsupported_insn(insn));
        },
    };
    let src_xmm = match reg_xmm(insn, 1) {
        Some(src_xmm) => src_xmm,
        None => {
            return Err(unsupported_insn(insn));
        },
    };
    em.push(IrOp::Movdq2q { dst_mm, src_xmm });
    Ok(())
}

#[verifier::opaque]
pub open spec fn pmovmskb(insn: &Insn, s: Emission) -> Emission {
    if reg_xmm(insn, 1) is None {
        s.fail()
    } else {
        let src = reg_xmm(insn, 1)->0;
        let s1 = s.def(IrOp::VMoveMaskB { dst: s.next, src });
        let mask = Val::Temp(s.next);
        operand::store(insn, 0, mask, s1)
    }
}

/// `pmovmskb`: the sign bits of the bytes.
pub fn lift_pmovmskb(insn: &Insn, em: &mut Emitter) -> (r: Result<(), LiftError>)
    requires
        old(em)@.ready(64),
    ensures
        emit::lifted(old(em)@, final(em)@, pmovmskb(insn, old(em)@), insn, r),
{
    reveal(pmovmskb);
    let src = match reg_xmm(insn, 1) {
        Some(src) => src,
        None => {
            return Err(unsupported_insn(insn));
        },
    };
    let t: Temp = em.peek();
    em.def(t, IrOp::VMoveMaskB { dst: t, src });
    let mask = Val::Temp(t);
    write_operand(insn, 0, mask, em)
}

#[verifier::opaque]
pub open spec fn vpmovmskb(insn: &Insn, s: Emission) -> Emission {
    if reg_ymm(insn, 1) is Some {
        let src = reg_ymm(insn, 1)->0;
        let s1 = s.def(IrOp::VMoveMaskB256 { dst: s.next, src });
        let mask = Val::Temp(s.next);
        operand::store(insn, 0, mask, s1)
    } else {
        if reg_xmm(insn, 1) is None {
            s.fail()
        } else {
            let src = reg_xmm(insn, 1)->0;
            let s2 = s.def(IrOp::VMoveMaskB { dst: s.next, src });
            let mask = Val::Temp(s.next);
            operand::store(insn, 0, mask, s2)
        }
    }
}

/// `vpmovmskb`: as `pmovmskb`, of 16 or 32 bytes.
pub fn lift_vpmovmskb(insn: &Insn, em: &mut Emitter) -> (r: Result<(), LiftError>)
    requires
        old(em)@.ready(64),
    ensures
        emit::lifted(old(em)@, final(em)@, vpmovmskb(insn, old(em)@), insn, r),
{
    reveal(vpmovmskb);
    if let Some(src) = reg_ymm(insn, 1) {
        let t: Temp = em.peek();
        em.def(t, IrOp::VMoveMaskB256 { dst: t, src });
        let mask = Val::Temp(t);
        return write_operand(insn, 0, mask, em);
    }
    let src = match reg_xmm(insn, 1) {
        Some(src) => src,
        None => {
            return Err(unsupported_insn(insn));
        },
    };
    let t: Temp = em.peek();
    em.def(t, IrOp::VMoveMaskB { dst: t, src });
    let mask = Val::Temp(t);
    write_operand(insn, 0, mask, em)
}

#[verifier::opaque]
pub open spec fn movmskfp(insn: &Insn, elem: u8, s: Emission) -> Emission {
    if reg_xmm(insn, 1) is None {
        s.fail()
    } else {
        let src = reg_xmm(insn, 1)->0;
        let s1 = s.def(IrOp::VMoveMaskFp { dst: s.next, src, elem });
        let mask = Val::Temp(s.next);
        operand::store(insn, 0, mask, s1)
    }
}

/// `movmskps`/`movmskpd`: the sign bits of the `elem`-byte lanes.
pub fn lift_movmskfp(insn: &Insn, em: &mut Emitter, elem: u8) -> (r: Result<(), LiftError>)
    requires
        old(em)@.ready(64),
    ensures
        emit::lifted(old(em)@, final(em)@, movmskfp(insn, elem, old(em)@), insn, r),
{
    reveal(movmskfp);
    let src = match reg_xmm(insn, 1) {
        Some(src) => src,
        None => {
            return Err(unsupported_insn(insn));
        },
    };
    let t: Temp = em.peek();
    em.def(t, IrOp::VMoveMaskFp { dst: t, src, elem });
    let mask = Val::Temp(t);
    write_operand(insn, 0, mask, em)
}

#[verifier::opaque]
pub open spec fn pinsrw(insn: &Insn, s: Emission) -> Emission {
    if reg_xmm(insn, 0) is None {
        s.fail()
    } else {
        let d = reg_xmm(insn, 0)->0;
        let (s1, src) = operand::read(insn, 1, s);
        s1.push(IrOp::VInsertW { dst: d, src, index: insn.imm8(2) })
    }
}

/// `pinsrw`: inserts the low 16 bits of a general register or memory into a word lane.
pub fn lift_pinsrw(insn: &Insn, em: &mut Emitter) -> (r: Result<(), LiftError>)
    requires
        old(em)@.ready(64),
    ensures
        emit::lifted(old(em)@, final(em)@, pinsrw(insn, old(em)@), insn, r),
{
    reveal(pinsrw);
    let d = match reg_xmm(insn, 0) {
        Some(d) => d,
        None => {
            return Err(unsupported_insn(insn));
        },
    };
    let src = match lower_read(insn, 1, em) {
        Ok(src) => src,
        Err(e) => {
            return Err(e);
        },
    };
    em.push(IrOp::VInsertW { dst: d, src, index: insn.imm8(2) });
    Ok(())
}

#[verifier::opaque]
pub open spec fn pinsr(insn: &Insn, size: u8, s: Emission) -> Emission {
    if reg_xmm(insn, 0) is None {
        s.fail()
    } else {
        let d = reg_xmm(insn, 0)->0;
        if insn.op_count == 4 {
            if reg_xmm(insn, 1) is None {
                s.fail()
            } else {
                let base = reg_xmm(insn, 1)->0;
                let (s1, src) = operand::read(insn, 2, s);
                let s2 = s1.push(
                    IrOp::VInsertLane { dst: d, base, src, index: insn.imm8(3), size },
                );
                s2.push(IrOp::VZeroUpper { reg: d })
            }
        } else {
            let (s3, src) = operand::read(insn, 1, s);
            s3.push(IrOp::VInsertLane { dst: d, base: d, src, index: insn.imm8(2), size })
        }
    }
}

/// `pinsr{b,d,q}` and their VEX forms: inserts the low `size` bytes of a source into a
/// lane. The VEX form has the base in op1 and clears the upper bits.
pub fn lift_pinsr(insn: &Insn, em: &mut Emitter, size: u8) -> (r: Result<(), LiftError>)
    requires
        old(em)@.ready(64),
    ensures
        emit::lifted(old(em)@, final(em)@, pinsr(insn, size, old(em)@), insn, r),
{
    reveal(pinsr);
    let d = match reg_xmm(insn, 0) {
        Some(d) => d,
        None => {
            return Err(unsupported_insn(insn));
        },
    };
    if insn.op_count == 4 {
        let base = match reg_xmm(insn, 1) {
            Some(base) => base,
            None => {
                return Err(unsupported_insn(insn));
            },
        };
        let src = match lower_read(insn, 2, em) {
            Ok(src) => src,
            Err(e) => {
                return Err(e);
            },
        };
        em.push(IrOp::VInsertLane { dst: d, base, src, index: insn.imm8(3), size });
        em.push(IrOp::VZeroUpper { reg: d });
        return Ok(());
    }
    let src = match lower_read(insn, 1, em) {
        Ok(src) => src,
        Err(e) => {
            return Err(e);
        },
    };
    em.push(IrOp::VInsertLane { dst: d, base: d, src, index: insn.imm8(2), size });
    Ok(())
}

#[verifier::opaque]
pub open spec fn pextrw(insn: &Insn, s: Emission) -> Emission {
    if reg_xmm(insn, 1) is None {
        s.fail()
    } else {
        let src = reg_xmm(insn, 1)->0;
        let s1 = s.def(IrOp::VExtractW { dst: s.next, src, index: insn.imm8(2) });
        let lane = Val::Temp(s.next);
        operand::store(insn, 0, lane, s1)
    }
}

/// `pextrw`: extracts a word lane, zero-extended.
pub fn lift_pextrw(insn: &Insn, em: &mut Emitter) -> (r: Result<(), LiftError>)
    requires
        old(em)@.ready(64),
    ensures
        emit::lifted(old(em)@, final(em)@, pextrw(insn, old(em)@), insn, r),
{
    reveal(pextrw);
    let src = match reg_xmm(insn, 1) {
        Some(src) => src,
        None => {
            return Err(unsupported_insn(insn));
        },
    };
    let t: Temp = em.peek();
    em.def(t, IrOp::VExtractW { dst: t, src, index: insn.imm8(2) });
    let lane = Val::Temp(t);
    write_operand(insn, 0, lane, em)
}

#[verifier::opaque]
pub open spec fn pextr(insn: &Insn, size: u8, s: Emission) -> Emission {
    if reg_xmm(insn, 1) is None {
        s.fail()
    } else {
        let src = reg_xmm(insn, 1)->0;
        let s1 = s.def(IrOp::VExtractLane { dst: s.next, src, index: insn.imm8(2), size });
        let lane = Val::Temp(s.next);
        operand::store(insn, 0, lane, s1)
    }
}

/// `pextr{b,d,q}`: extracts a `size`-byte lane into a general register or memory.
pub fn lift_pextr(insn: &Insn, em: &mut Emitter, size: u8) -> (r: Result<(), LiftError>)
    requires
        old(em)@.ready(64),
    ensures
        emit::lifted(old(em)@, final(em)@, pextr(insn, size, old(em)@), insn, r),
{
    reveal(pextr);
    let src = match reg_xmm(insn, 1) {
        Some(src) => src,
        None => {
            return Err(unsupported_insn(insn));
        },
    };
    let t: Temp = em.peek();
    em.def(t, IrOp::VExtractLane { dst: t, src, index: insn.imm8(2), size });
    let lane = Val::Temp(t);
    write_operand(insn, 0, lane, em)
}

} // verus!
