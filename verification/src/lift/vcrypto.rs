//! AES, SHA and Galois-field instructions.
use crate::insn::Insn;
use crate::ir::{AesOp, GfniOp, IrOp, ShaOp};
use crate::lift::emit::{Emission, Emitter};
use crate::lift::operand::{effective_address, reg_xmm, source, unsupported_insn, Source};
use crate::lift::{emit, operand, LiftError};
use vstd::prelude::*;

verus! {

broadcast use operand::group_failed;

#[verifier::opaque]
pub open spec fn aes(insn: &Insn, op: AesOp, s: Emission) -> Emission {
    if reg_xmm(insn, 0) is None {
        s.fail()
    } else {
        let d = reg_xmm(insn, 0)->0;
        match source(reg_xmm(insn, 1), insn, 1) {
            Source::Reg(b) => {
                s.push(IrOp::VAes { dst: d, a: d, b, op })
            },
            Source::Mem => {
                let (s1, addr) = operand::address(insn, s);
                s1.push(IrOp::VAesM { dst: d, a: d, addr, op })
            },
            Source::Neither => s.fail(),
        }
    }
}

/// AES round: `dst = f(dst, src)`.
pub fn lift_aes(insn: &Insn, em: &mut Emitter, op: AesOp) -> (r: Result<(), LiftError>)
    requires
        old(em)@.ready(64),
    ensures
        emit::lifted(old(em)@, final(em)@, aes(insn, op, old(em)@), insn, r),
{
    reveal(aes);
    let d = match reg_xmm(insn, 0) {
        Some(d) => d,
        None => {
            return Err(unsupported_insn(insn));
        },
    };
    match source(reg_xmm(insn, 1), insn, 1) {
        Source::Reg(b) => {
            em.push(IrOp::VAes { dst: d, a: d, b, op });
        },
        Source::Mem => {
            let addr = match effective_address(insn, em) {
                Ok(addr) => addr,
                Err(e) => {
                    return Err(e);
                },
            };
            em.push(IrOp::VAesM { dst: d, a: d, addr, op });
        },
        Source::Neither => {
            return Err(unsupported_insn(insn));
        },
    }
    Ok(())
}

#[verifier::opaque]
pub open spec fn vaes(insn: &Insn, op: AesOp, s: Emission) -> Emission {
    if reg_xmm(insn, 0) is None || reg_xmm(insn, 1) is None {
        s.fail()
    } else {
        let d = reg_xmm(insn, 0)->0;
        let a = reg_xmm(insn, 1)->0;
        let s2 = match source(reg_xmm(insn, 2), insn, 2) {
            Source::Reg(b) => {
                s.push(IrOp::VAes { dst: d, a, b, op })
            },
            Source::Mem => {
                let (s1, addr) = operand::address(insn, s);
                s1.push(IrOp::VAesM { dst: d, a, addr, op })
            },
            Source::Neither => s.fail(),
        };
        s2.push(IrOp::VZeroUpper { reg: d })
    }
}

/// VEX.128 AES round: `dst = f(op1, op2)`, upper bits cleared.
pub fn lift_vaes(insn: &Insn, em: &mut Emitter, op: AesOp) -> (r: Result<(), LiftError>)
    requires
        old(em)@.ready(64),
    ensures
        emit::lifted(old(em)@, final(em)@, vaes(insn, op, old(em)@), insn, r),
{
    reveal(vaes);
    let d = match reg_xmm(insn, 0) {
        Some(d) => d,
        None => {
            return Err(unsupported_insn(insn));
        },
    };
    let a = match reg_xmm(insn, 1) {
        Some(a) => a,
        None => {
            return Err(unsupported_insn(insn));
        },
    };
    match source(reg_xmm(insn, 2), insn, 2) {
        Source::Reg(b) => {
            em.push(IrOp::VAes { dst: d, a, b, op });
        },
        Source::Mem => {
            let addr = match effective_address(insn, em) {
                Ok(addr) => addr,
                Err(e) => {
                    return Err(e);
                },
            };
            em.push(IrOp::VAesM { dst: d, a, addr, op });
        },
        Source::Neither => {
            return Err(unsupported_insn(insn));
        },
    }
    em.push(IrOp::VZeroUpper { reg: d });
    Ok(())
}

#[verifier::opaque]
pub open spec fn aes_imc(insn: &Insn, vex: bool, s: Emission) -> Emission {
    if reg_xmm(insn, 0) is None {
        s.fail()
    } else {
        let d = reg_xmm(insn, 0)->0;
        let s2 = match source(reg_xmm(insn, 1), insn, 1) {
            Source::Reg(src) => {
                s.push(IrOp::VAesImc { dst: d, src })
            },
            Source::Mem => {
                let (s1, addr) = operand::address(insn, s);
                s1.push(IrOp::VAesImcM { dst: d, addr })
            },
            Source::Neither => s.fail(),
        };
        if vex {
            s2.push(IrOp::VZeroUpper { reg: d })
        } else {
            s2
        }
    }
}

/// `aesimc`/`vaesimc`.
pub fn lift_aes_imc(insn: &Insn, em: &mut Emitter, vex: bool) -> (r: Result<(), LiftError>)
    requires
        old(em)@.ready(64),
    ensures
        emit::lifted(old(em)@, final(em)@, aes_imc(insn, vex, old(em)@), insn, r),
{
    reveal(aes_imc);
    let d = match reg_xmm(insn, 0) {
        Some(d) => d,
        None => {
            return Err(unsupported_insn(insn));
        },
    };
    match source(reg_xmm(insn, 1), insn, 1) {
        Source::Reg(src) => {
            em.push(IrOp::VAesImc { dst: d, src });
        },
        Source::Mem => {
            let addr = match effective_address(insn, em) {
                Ok(addr) => addr,
                Err(e) => {
                    return Err(e);
                },
            };
            em.push(IrOp::VAesImcM { dst: d, addr });
        },
        Source::Neither => {
            return Err(unsupported_insn(insn));
        },
    }
    if vex {
        em.push(IrOp::VZeroUpper { reg: d });
    }
    Ok(())
}

#[verifier::opaque]
pub open spec fn aes_keygen(insn: &Insn, vex: bool, s: Emission) -> Emission {
    if reg_xmm(insn, 0) is None {
        s.fail()
    } else {
        let d = reg_xmm(insn, 0)->0;
        let imm: u8 = insn.imm8(2);
        let s2 = match source(reg_xmm(insn, 1), insn, 1) {
            Source::Reg(src) => {
                s.push(IrOp::VAesKeygen { dst: d, src, imm })
            },
            Source::Mem => {
                let (s1, addr) = operand::address(insn, s);
                s1.push(IrOp::VAesKeygenM { dst: d, addr, imm })
            },
            Source::Neither => s.fail(),
        };
        if vex {
            s2.push(IrOp::VZeroUpper { reg: d })
        } else {
            s2
        }
    }
}

/// `aeskeygenassist`/`vaeskeygenassist`.
pub fn lift_aes_keygen(insn: &Insn, em: &mut Emitter, vex: bool) -> (r: Result<(), LiftError>)
    requires
        old(em)@.ready(64),
    ensures
        emit::lifted(old(em)@, final(em)@, aes_keygen(insn, vex, old(em)@), insn, r),
{
    reveal(aes_keygen);
    let d = match reg_xmm(insn, 0) {
        Some(d) => d,
        None => {
            return Err(unsupported_insn(insn));
        },
    };
    let imm: u8 = insn.imm8(2);
    match source(reg_xmm(insn, 1), insn, 1) {
        Source::Reg(src) => {
            em.push(IrOp::VAesKeygen { dst: d, src, imm });
        },
        Source::Mem => {
            let addr = match effective_address(insn, em) {
                Ok(addr) => addr,
                Err(e) => {
                    return Err(e);
                },
            };
            em.push(IrOp::VAesKeygenM { dst: d, addr, imm });
        },
        Source::Neither => {
            return Err(unsupported_insn(insn));
        },
    }
    if vex {
        em.push(IrOp::VZeroUpper { reg: d });
    }
    Ok(())
}

#[verifier::opaque]
pub open spec fn sha(insn: &Insn, op: ShaOp, s: Emission) -> Emission {
    if reg_xmm(insn, 0) is None {
        s.fail()
    } else {
        let d = reg_xmm(insn, 0)->0;
        let imm: u8 = if matches!(op, ShaOp::Sha1Rnds4) { insn.imm8(2) } else { 0 };
        match source(reg_xmm(insn, 1), insn, 1) {
            Source::Reg(b) => {
                s.push(IrOp::VSha { dst: d, a: d, b, imm, op })
            },
            Source::Mem => {
                let (s1, addr) = operand::address(insn, s);
                s1.push(IrOp::VShaM { dst: d, a: d, addr, imm, op })
            },
            Source::Neither => s.fail(),
        }
    }
}

/// SHA extensions; `sha1rnds4` alone has an immediate.
pub fn lift_sha(insn: &Insn, em: &mut Emitter, op: ShaOp) -> (r: Result<(), LiftError>)
    requires
        old(em)@.ready(64),
    ensures
        emit::lifted(old(em)@, final(em)@, sha(insn, op, old(em)@), insn, r),
{
    reveal(sha);
    let d = match reg_xmm(insn, 0) {
        Some(d) => d,
        None => {
            return Err(unsupported_insn(insn));
        },
    };
    let imm: u8 = if matches!(op, ShaOp::Sha1Rnds4) { insn.imm8(2) } else { 0 };
    match source(reg_xmm(insn, 1), insn, 1) {
        Source::Reg(b) => {
            em.push(IrOp::VSha { dst: d, a: d, b, imm, op });
        },
        Source::Mem => {
            let addr = match effective_address(insn, em) {
                Ok(addr) => addr,
                Err(e) => {
                    return Err(e);
                },
            };
            em.push(IrOp::VShaM { dst: d, a: d, addr, imm, op });
        },
        Source::Neither => {
            return Err(unsupported_insn(insn));
        },
    }
    Ok(())
}

#[verifier::opaque]
pub open spec fn gfni(insn: &Insn, op: GfniOp, s: Emission) -> Emission {
    if reg_xmm(insn, 0) is None {
        s.fail()
    } else {
        let d = reg_xmm(insn, 0)->0;
        let imm: u8 = if matches!(op, GfniOp::Mulb) { 0 } else { insn.imm8(2) };
        match source(reg_xmm(insn, 1), insn, 1) {
            Source::Reg(b) => {
                s.push(IrOp::VGfni { dst: d, a: d, b, imm, op })
            },
            Source::Mem => {
                let (s1, addr) = operand::address(insn, s);
                s1.push(IrOp::VGfniM { dst: d, a: d, addr, imm, op })
            },
            Source::Neither => s.fail(),
        }
    }
}

/// Galois-field instructions; the multiplication has no immediate.
pub fn lift_gfni(insn: &Insn, em: &mut Emitter, op: GfniOp) -> (r: Result<(), LiftError>)
    requires
        old(em)@.ready(64),
    ensures
        emit::lifted(old(em)@, final(em)@, gfni(insn, op, old(em)@), insn, r),
{
    reveal(gfni);
    let d = match reg_xmm(insn, 0) {
        Some(d) => d,
        None => {
            return Err(unsupported_insn(insn));
        },
    };
    let imm: u8 = if matches!(op, GfniOp::Mulb) { 0 } else { insn.imm8(2) };
    match source(reg_xmm(insn, 1), insn, 1) {
        Source::Reg(b) => {
            em.push(IrOp::VGfni { dst: d, a: d, b, imm, op });
        },
        Source::Mem => {
            let addr = match effective_address(insn, em) {
                Ok(addr) => addr,
                Err(e) => {
                    return Err(e);
                },
            };
            em.push(IrOp::VGfniM { dst: d, a: d, addr, imm, op });
        },
        Source::Neither => {
            return Err(unsupported_insn(insn));
        },
    }
    Ok(())
}

#[verifier::opaque]
pub open spec fn vgfni(insn: &Insn, op: GfniOp, s: Emission) -> Emission {
    if reg_xmm(insn, 0) is None || reg_xmm(insn, 1) is None {
        s.fail()
    } else {
        let d = reg_xmm(insn, 0)->0;
        let a = reg_xmm(insn, 1)->0;
        let imm: u8 = if matches!(op, GfniOp::Mulb) { 0 } else { insn.imm8(3) };
        let s2 = match source(reg_xmm(insn, 2), insn, 2) {
            Source::Reg(b) => {
                s.push(IrOp::VGfni { dst: d, a, b, imm, op })
            },
            Source::Mem => {
                let (s1, addr) = operand::address(insn, s);
                s1.push(IrOp::VGfniM { dst: d, a, addr, imm, op })
            },
            Source::Neither => s.fail(),
        };
        s2.push(IrOp::VZeroUpper { reg: d })
    }
}

/// VEX.128 Galois-field instructions.
pub fn lift_vgfni(insn: &Insn, em: &mut Emitter, op: GfniOp) -> (r: Result<(), LiftError>)
    requires
        old(em)@.ready(64),
    ensures
        emit::lifted(old(em)@, final(em)@, vgfni(insn, op, old(em)@), insn, r),
{
    reveal(vgfni);
    let d = match reg_xmm(insn, 0) {
        Some(d) => d,
        None => {
            return Err(unsupported_insn(insn));
        },
    };
    let a = match reg_xmm(insn, 1) {
        Some(a) => a,
        None => {
            return Err(unsupported_insn(insn));
        },
    };
    let imm: u8 = if matches!(op, GfniOp::Mulb) { 0 } else { insn.imm8(3) };
    match source(reg_xmm(insn, 2), insn, 2) {
        Source::Reg(b) => {
            em.push(IrOp::VGfni { dst: d, a, b, imm, op });
        },
        Source::Mem => {
            let addr = match effective_address(insn, em) {
                Ok(addr) => addr,
                Err(e) => {
                    return Err(e);
                },
            };
            em.push(IrOp::VGfniM { dst: d, a, addr, imm, op });
        },
        Source::Neither => {
            return Err(unsupported_insn(insn));
        },
    }
    em.push(IrOp::VZeroUpper { reg: d });
    Ok(())
}

} // verus!
