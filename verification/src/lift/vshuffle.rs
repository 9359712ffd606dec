//! Shuffles, permutes, packs, extensions, broadcasts and lane moves.
use crate::insn::Insn;
use crate::ir::{IrOp, Temp, Val};
use crate::lift::emit::{Emission, Emitter};
use crate::lift::operand::{
    effective_address, evex_is_masked, evex_writemask, lower_read, reg_xmm, reg_ymm, reg_zmm,
    source, unsupported_insn, vec_operand, vec_operand_reg, Source,
};
use crate::lift::{emit, operand, LiftError};
use crate::op_kind;
use vstd::prelude::*;

verus! {

broadcast use operand::group_failed;

pub open spec fn spec_low_bit(imm: u8) -> bool {
    imm & 1 != 0
}

/// Bit 0 of an immediate.
#[verifier::when_used_as_spec(spec_low_bit)]
pub fn low_bit(imm: u8) -> (r: bool)
    ensures
        r == spec_low_bit(imm),
{
    imm & 1 != 0
}

pub open spec fn spec_lane_slot(imm: u8, bytes: u16, lanes: u8) -> u8 {
    imm & (((bytes as int / 16) / (lanes as int)) as u8).wrapping_sub(1)
}

/// The place among the groups of `lanes` 128-bit lanes in `bytes` bytes that an immediate
/// selects.
#[verifier::when_used_as_spec(spec_lane_slot)]
pub fn lane_slot(imm: u8, bytes: u16, lanes: u8) -> (r: u8)
    requires
        bytes <= 64,
        0 < lanes,
    ensures
        r == spec_lane_slot(imm, bytes, lanes),
{
    let slots: u8 = (bytes / 16) as u8 / lanes;
    imm & slots.wrapping_sub(1)
}

pub open spec fn spec_shufpd_selector(imm: u8) -> u8 {
    ((if imm & 1 != 0 { 0x0eint } else { 0x04int }) + (if imm & 2 != 0 { 0xe0int } else { 0x40int })) as u8
}

/// The 32-bit lane selector of a `shufpd` immediate: each 64-bit lane stands for its two
/// 32-bit lanes, 0 and 1 or 2 and 3.
#[verifier::when_used_as_spec(spec_shufpd_selector)]
pub fn shufpd_selector(imm: u8) -> (r: u8)
    ensures
        r == spec_shufpd_selector(imm),
{
    let lo: u8 = if imm & 1 != 0 {
        0x0e
    } else {
        0x04
    };
    let hi: u8 = if imm & 2 != 0 {
        0xe0
    } else {
        0x40
    };
    lo + hi
}

#[verifier::opaque]
pub open spec fn pshufd(insn: &Insn, s: Emission) -> Emission {
    if reg_xmm(insn, 0) is None {
        s.fail()
    } else {
        let d = reg_xmm(insn, 0)->0;
        let imm: u8 = insn.imm8(2);
        match source(reg_xmm(insn, 1), insn, 1) {
            Source::Reg(a) => {
                s.push(IrOp::VShuffle32 { dst: d, a, imm })
            },
            Source::Mem => {
                let (s1, addr) = operand::address(insn, s);
                let s2 = s1.push(IrOp::VLoad { dst: d, addr, size: 16 });
                s2.push(IrOp::VShuffle32 { dst: d, a: d, imm })
            },
            Source::Neither => s.fail(),
        }
    }
}

/// `pshufd`: permutes the four 32-bit lanes. A memory source is loaded into the destination
/// first.
pub fn lift_pshufd(insn: &Insn, em: &mut Emitter) -> (r: Result<(), LiftError>)
    requires
        old(em)@.ready(64),
    ensures
        emit::lifted(old(em)@, final(em)@, pshufd(insn, old(em)@), insn, r),
{
    reveal(pshufd);
    let d = match reg_xmm(insn, 0) {
        Some(d) => d,
        None => {
            return Err(unsupported_insn(insn));
        },
    };
    let imm: u8 = insn.imm8(2);
    match source(reg_xmm(insn, 1), insn, 1) {
        Source::Reg(a) => {
            em.push(IrOp::VShuffle32 { dst: d, a, imm });
        },
        Source::Mem => {
            let addr = match effective_address(insn, em) {
                Ok(addr) => addr,
                Err(e) => {
                    return Err(e);
                },
            };
            em.push(IrOp::VLoad { dst: d, addr, size: 16 });
            em.push(IrOp::VShuffle32 { dst: d, a: d, imm });
        },
        Source::Neither => {
            return Err(unsupported_insn(insn));
        },
    }
    Ok(())
}

/// Wider or masked forms take a register source.
#[verifier::opaque]
pub open spec fn vpshufd(insn: &Insn, s: Emission) -> Emission {
    if vec_operand(insn, 0) is None {
        s.fail()
    } else {
        let (dst, bytes) = vec_operand(insn, 0)->0;
        if bytes > 16 || evex_is_masked(insn) {
            if vec_operand_reg(insn, 1) is None {
                s.fail()
            } else {
                let a = vec_operand_reg(insn, 1)->0;
                s.push(IrOp::VShuffle32Wide {
                    dst,
                    a,
                    imm: insn.imm8(2),
                    bytes,
                    writemask: evex_writemask(insn),
                    zeroing: insn.zeroing,
                })
            }
        } else {
            let s1 = pshufd(insn, s);
            s1.push(IrOp::VZeroUpper { reg: dst })
        }
    }
}

/// VEX and EVEX `vpshufd`.
pub fn lift_vpshufd(insn: &Insn, em: &mut Emitter) -> (r: Result<(), LiftError>)
    requires
        old(em)@.ready(64),
    ensures
        emit::lifted(old(em)@, final(em)@, vpshufd(insn, old(em)@), insn, r),
{
    reveal(vpshufd);
    let (dst, bytes) = match vec_operand(insn, 0) {
        Some(v) => v,
        None => {
            return Err(unsupported_insn(insn));
        },
    };
    if bytes > 16 || evex_is_masked(insn) {
        let a = match vec_operand_reg(insn, 1) {
            Some(a) => a,
            None => {
                return Err(unsupported_insn(insn));
            },
        };
        em.push(IrOp::VShuffle32Wide {
            dst,
            a,
            imm: insn.imm8(2),
            bytes,
            writemask: evex_writemask(insn),
            zeroing: insn.zeroing,
        });
        return Ok(());
    }
    match lift_pshufd(insn, em) {
        Ok(_) => {},
        Err(e) => {
            return Err(e);
        },
    }
    em.push(IrOp::VZeroUpper { reg: dst });
    Ok(())
}

#[verifier::opaque]
pub open spec fn pshufw(insn: &Insn, high: bool, s: Emission) -> Emission {
    if reg_xmm(insn, 0) is None || reg_xmm(insn, 1) is None {
        s.fail()
    } else {
        let d = reg_xmm(insn, 0)->0;
        let a = reg_xmm(insn, 1)->0;
        s.push(IrOp::VShuffle16 { dst: d, a, imm: insn.imm8(2), high })
    }
}

/// `pshuflw`/`pshufhw`: permutes the words of one half.
pub fn lift_pshufw(insn: &Insn, em: &mut Emitter, high: bool) -> (r: Result<(), LiftError>)
    requires
        old(em)@.ready(64),
    ensures
        emit::lifted(old(em)@, final(em)@, pshufw(insn, high, old(em)@), insn, r),
{
    reveal(pshufw);
    let d = match reg_xmm(insn, 0) {
        Some(d) => d,
        None => {
            return Err(unsupported_insn(insn));
        },
    };
    let a = match reg_xmm(insn, 1) {
        Some(a) => a,
        None => {
            return Err(unsupported_insn(insn));
        },
    };
    em.push(IrOp::VShuffle16 { dst: d, a, imm: insn.imm8(2), high });
    Ok(())
}

#[verifier::opaque]
pub open spec fn shufps(insn: &Insn, imm: u8, s: Emission) -> Emission {
    if reg_xmm(insn, 0) is None || reg_xmm(insn, 1) is None {
        s.fail()
    } else {
        let d = reg_xmm(insn, 0)->0;
        let b = reg_xmm(insn, 1)->0;
        s.push(IrOp::VShufps { dst: d, a: d, b, imm })
    }
}

/// `shufps`/`shufpd` with the 32-bit lane selector `imm`: two lanes of the destination,
/// then two of the source.
pub fn lift_shufps(insn: &Insn, em: &mut Emitter, imm: u8) -> (r: Result<(), LiftError>)
    requires
        old(em)@.ready(64),
    ensures
        emit::lifted(old(em)@, final(em)@, shufps(insn, imm, old(em)@), insn, r),
{
    reveal(shufps);
    let d = match reg_xmm(insn, 0) {
        Some(d) => d,
        None => {
            return Err(unsupported_insn(insn));
        },
    };
    let b = match reg_xmm(insn, 1) {
        Some(b) => b,
        None => {
            return Err(unsupported_insn(insn));
        },
    };
    em.push(IrOp::VShufps { dst: d, a: d, b, imm });
    Ok(())
}

#[verifier::opaque]
pub open spec fn pshufb(insn: &Insn, s: Emission) -> Emission {
    if reg_xmm(insn, 0) is None {
        s.fail()
    } else {
        let d = reg_xmm(insn, 0)->0;
        match source(reg_xmm(insn, 1), insn, 1) {
            Source::Reg(idx) => {
                s.push(IrOp::VPshufb { dst: d, a: d, idx })
            },
            Source::Mem => {
                let (s1, addr) = operand::address(insn, s);
                s1.push(IrOp::VPshufbM { dst: d, addr })
            },
            Source::Neither => s.fail(),
        }
    }
}

/// `pshufb`: byte shuffle of the destination by an index vector.
pub fn lift_pshufb(insn: &Insn, em: &mut Emitter) -> (r: Result<(), LiftError>)
    requires
        old(em)@.ready(64),
    ensures
        emit::lifted(old(em)@, final(em)@, pshufb(insn, old(em)@), insn, r),
{
    reveal(pshufb);
    let d = match reg_xmm(insn, 0) {
        Some(d) => d,
        None => {
            return Err(unsupported_insn(insn));
        },
    };
    match source(reg_xmm(insn, 1), insn, 1) {
        Source::Reg(idx) => {
            em.push(IrOp::VPshufb { dst: d, a: d, idx });
        },
        Source::Mem => {
            let addr = match effective_address(insn, em) {
                Ok(addr) => addr,
                Err(e) => {
                    return Err(e);
                },
            };
            em.push(IrOp::VPshufbM { dst: d, addr });
        },
        Source::Neither => {
            return Err(unsupported_insn(insn));
        },
    }
    Ok(())
}

/// Masked and 512-bit forms take register sources.
#[verifier::opaque]
pub open spec fn vpshufb(insn: &Insn, s: Emission) -> Emission {
    if reg_zmm(insn, 0).is_some() || evex_is_masked(insn) {
        if vec_operand(insn, 0) is None
            || vec_operand_reg(insn, 1) is None
            || vec_operand_reg(insn, 2) is None {
            s.fail()
        } else {
            let (dst, bytes) = vec_operand(insn, 0)->0;
            let a = vec_operand_reg(insn, 1)->0;
            let idx = vec_operand_reg(insn, 2)->0;
            s.push(IrOp::VPshufbWide {
                dst,
                a,
                idx,
                bytes,
                writemask: evex_writemask(insn),
                zeroing: insn.zeroing,
            })
        }
    } else {
        if reg_ymm(insn, 0) is Some {
            let d = reg_ymm(insn, 0)->0;
            if reg_ymm(insn, 1) is None {
                s.fail()
            } else {
                let a = reg_ymm(insn, 1)->0;
                let s2 = match source(reg_ymm(insn, 2), insn, 2) {
                    Source::Reg(idx) => {
                        s.push(IrOp::VPshufb256 { dst: d, a, idx })
                    },
                    Source::Mem => {
                        let (s1, addr) = operand::address(insn, s);
                        s1.push(IrOp::VPshufb256M { dst: d, a, addr })
                    },
                    Source::Neither => s.fail(),
                };
                s2
            }
        } else {
            if reg_xmm(insn, 0) is None || reg_xmm(insn, 1) is None {
                s.fail()
            } else {
                let d = reg_xmm(insn, 0)->0;
                let a = reg_xmm(insn, 1)->0;
                let s5 = match source(reg_xmm(insn, 2), insn, 2) {
                    Source::Reg(idx) => {
                        s.push(IrOp::VPshufb { dst: d, a, idx })
                    },
                    Source::Mem => {
                        let (s3, addr) = operand::address(insn, s);
                        let s4 = if d != a {
                            s3.push(IrOp::VMov { dst: d, src: a })
                        } else {
                            s3
                        };
                        s4.push(IrOp::VPshufbM { dst: d, addr })
                    },
                    Source::Neither => s.fail(),
                };
                s5.push(IrOp::VZeroUpper { reg: d })
            }
        }
    }
}

/// VEX and EVEX `vpshufb`.
pub fn lift_vpshufb(insn: &Insn, em: &mut Emitter) -> (r: Result<(), LiftError>)
    requires
        old(em)@.ready(64),
    ensures
        emit::lifted(old(em)@, final(em)@, vpshufb(insn, old(em)@), insn, r),
{
    reveal(vpshufb);
    if reg_zmm(insn, 0).is_some() || evex_is_masked(insn) {
        let (dst, bytes) = match vec_operand(insn, 0) {
            Some(v) => v,
            None => {
                return Err(unsupported_insn(insn));
            },
        };
        let a = match vec_operand_reg(insn, 1) {
            Some(a) => a,
            None => {
                return Err(unsupported_insn(insn));
            },
        };
        let idx = match vec_operand_reg(insn, 2) {
            Some(idx) => idx,
            None => {
                return Err(unsupported_insn(insn));
            },
        };
        em.push(IrOp::VPshufbWide {
            dst,
            a,
            idx,
            bytes,
            writemask: evex_writemask(insn),
            zeroing: insn.zeroing,
        });
        return Ok(());
    }
    if let Some(d) = reg_ymm(insn, 0) {
        let a = match reg_ymm(insn, 1) {
            Some(a) => a,
            None => {
                return Err(unsupported_insn(insn));
            },
        };
        match source(reg_ymm(insn, 2), insn, 2) {
            Source::Reg(idx) => {
                em.push(IrOp::VPshufb256 { dst: d, a, idx });
            },
            Source::Mem => {
                let addr = match effective_address(insn, em) {
                    Ok(addr) => addr,
                    Err(e) => {
                        return Err(e);
                    },
                };
                em.push(IrOp::VPshufb256M { dst: d, a, addr });
            },
            Source::Neither => {
                return Err(unsupported_insn(insn));
            },
        }
        return Ok(());
    }
    let d = match reg_xmm(insn, 0) {
        Some(d) => d,
        None => {
            return Err(unsupported_insn(insn));
        },
    };
    let a = match reg_xmm(insn, 1) {
        Some(a) => a,
        None => {
            return Err(unsupported_insn(insn));
        },
    };
    match source(reg_xmm(insn, 2), insn, 2) {
        Source::Reg(idx) => {
            em.push(IrOp::VPshufb { dst: d, a, idx });
        },
        Source::Mem => {
            let addr = match effective_address(insn, em) {
                Ok(addr) => addr,
                Err(e) => {
                    return Err(e);
                },
            };
            if d != a {
                em.push(IrOp::VMov { dst: d, src: a });
            }
            em.push(IrOp::VPshufbM { dst: d, addr });
        },
        Source::Neither => {
            return Err(unsupported_insn(insn));
        },
    }
    em.push(IrOp::VZeroUpper { reg: d });
    Ok(())
}

#[verifier::opaque]
pub open spec fn palignr(insn: &Insn, s: Emission) -> Emission {
    if reg_xmm(insn, 0) is None {
        s.fail()
    } else {
        let d = reg_xmm(insn, 0)->0;
        let imm: u8 = insn.imm8(2);
        match source(reg_xmm(insn, 1), insn, 1) {
            Source::Reg(src) => {
                s.push(IrOp::VAlignr { dst: d, a: d, src, imm })
            },
            Source::Mem => {
                let (s1, addr) = operand::address(insn, s);
                s1.push(IrOp::VAlignrM { dst: d, addr, imm })
            },
            Source::Neither => s.fail(),
        }
    }
}

/// `palignr`: extracts from the concatenation of destination and source.
pub fn lift_palignr(insn: &Insn, em: &mut Emitter) -> (r: Result<(), LiftError>)
    requires
        old(em)@.ready(64),
    ensures
        emit::lifted(old(em)@, final(em)@, palignr(insn, old(em)@), insn, r),
{
    reveal(palignr);
    let d = match reg_xmm(insn, 0) {
        Some(d) => d,
        None => {
            return Err(unsupported_insn(insn));
        },
    };
    let imm: u8 = insn.imm8(2);
    match source(reg_xmm(insn, 1), insn, 1) {
        Source::Reg(src) => {
            em.push(IrOp::VAlignr { dst: d, a: d, src, imm });
        },
        Source::Mem => {
            let addr = match effective_address(insn, em) {
                Ok(addr) => addr,
                Err(e) => {
                    return Err(e);
                },
            };
            em.push(IrOp::VAlignrM { dst: d, addr, imm });
        },
        Source::Neither => {
            return Err(unsupported_insn(insn));
        },
    }
    Ok(())
}

#[verifier::opaque]
pub open spec fn vpalignr(insn: &Insn, s: Emission) -> Emission {
    let imm: u8 = insn.imm8(3);
    if reg_ymm(insn, 0) is Some {
        let dst = reg_ymm(insn, 0)->0;
        if reg_ymm(insn, 1) is None || reg_ymm(insn, 2) is None {
            s.fail()
        } else {
            let a = reg_ymm(insn, 1)->0;
            let b = reg_ymm(insn, 2)->0;
            s.push(IrOp::VPalignr256 { dst, a, b, imm })
        }
    } else {
        if reg_xmm(insn, 0) is None || reg_xmm(insn, 1) is None || reg_xmm(insn, 2) is None {
            s.fail()
        } else {
            let d = reg_xmm(insn, 0)->0;
            let a = reg_xmm(insn, 1)->0;
            let src = reg_xmm(insn, 2)->0;
            let s1 = s.push(IrOp::VAlignr { dst: d, a, src, imm });
            s1.push(IrOp::VZeroUpper { reg: d })
        }
    }
}

/// VEX `vpalignr` with register sources.
pub fn lift_vpalignr(insn: &Insn, em: &mut Emitter) -> (r: Result<(), LiftError>)
    requires
        old(em)@.ready(64),
    ensures
        emit::lifted(old(em)@, final(em)@, vpalignr(insn, old(em)@), insn, r),
{
    reveal(vpalignr);
    let imm: u8 = insn.imm8(3);
    if let Some(dst) = reg_ymm(insn, 0) {
        let a = match reg_ymm(insn, 1) {
            Some(a) => a,
            None => {
                return Err(unsupported_insn(insn));
            },
        };
        let b = match reg_ymm(insn, 2) {
            Some(b) => b,
            None => {
                return Err(unsupported_insn(insn));
            },
        };
        em.push(IrOp::VPalignr256 { dst, a, b, imm });
        return Ok(());
    }
    let d = match reg_xmm(insn, 0) {
        Some(d) => d,
        None => {
            return Err(unsupported_insn(insn));
        },
    };
    let a = match reg_xmm(insn, 1) {
        Some(a) => a,
        None => {
            return Err(unsupported_insn(insn));
        },
    };
    let src = match reg_xmm(insn, 2) {
        Some(src) => src,
        None => {
            return Err(unsupported_insn(insn));
        },
    };
    em.push(IrOp::VAlignr { dst: d, a, src, imm });
    em.push(IrOp::VZeroUpper { reg: d });
    Ok(())
}

#[verifier::opaque]
pub open spec fn vunpack(insn: &Insn, lane: u8, high: bool, s: Emission) -> Emission {
    if reg_xmm(insn, 0) is None || reg_xmm(insn, 1) is None {
        s.fail()
    } else {
        let d = reg_xmm(insn, 0)->0;
        let b = reg_xmm(insn, 1)->0;
        s.push(IrOp::VUnpackLow { dst: d, a: d, b, lane, high })
    }
}

/// `punpckl*`/`punpckh*`: interleaves `lane`-byte elements of one half.
pub fn lift_vunpack(
    insn: &Insn,
    em: &mut Emitter,
    lane: u8,
    high: bool,
) -> (r: Result<(), LiftError>)
    requires
        old(em)@.ready(64),
    ensures
        emit::lifted(old(em)@, final(em)@, vunpack(insn, lane, high, old(em)@), insn, r),
{
    reveal(vunpack);
    let d = match reg_xmm(insn, 0) {
        Some(d) => d,
        None => {
            return Err(unsupported_insn(insn));
        },
    };
    let b = match reg_xmm(insn, 1) {
        Some(b) => b,
        None => {
            return Err(unsupported_insn(insn));
        },
    };
    em.push(IrOp::VUnpackLow { dst: d, a: d, b, lane, high });
    Ok(())
}

#[verifier::opaque]
pub open spec fn vunpack_avx(insn: &Insn, lane: u8, high: bool, s: Emission) -> Emission {
    if reg_xmm(insn, 0) is None || reg_xmm(insn, 1) is None || reg_xmm(insn, 2) is None {
        s.fail()
    } else {
        let d = reg_xmm(insn, 0)->0;
        let a = reg_xmm(insn, 1)->0;
        let b = reg_xmm(insn, 2)->0;
        let s1 = s.push(IrOp::VUnpackLow { dst: d, a, b, lane, high });
        s1.push(IrOp::VZeroUpper { reg: d })
    }
}

/// VEX.128 `vpunpck*`.
pub fn lift_vunpack_avx(
    insn: &Insn,
    em: &mut Emitter,
    lane: u8,
    high: bool,
) -> (r: Result<(), LiftError>)
    requires
        old(em)@.ready(64),
    ensures
        emit::lifted(old(em)@, final(em)@, vunpack_avx(insn, lane, high, old(em)@), insn, r),
{
    reveal(vunpack_avx);
    let d = match reg_xmm(insn, 0) {
        Some(d) => d,
        None => {
            return Err(unsupported_insn(insn));
        },
    };
    let a = match reg_xmm(insn, 1) {
        Some(a) => a,
        None => {
            return Err(unsupported_insn(insn));
        },
    };
    let b = match reg_xmm(insn, 2) {
        Some(b) => b,
        None => {
            return Err(unsupported_insn(insn));
        },
    };
    em.push(IrOp::VUnpackLow { dst: d, a, b, lane, high });
    em.push(IrOp::VZeroUpper { reg: d });
    Ok(())
}

#[verifier::opaque]
pub open spec fn packuswb(insn: &Insn, s: Emission) -> Emission {
    if reg_xmm(insn, 0) is None || reg_xmm(insn, 1) is None {
        s.fail()
    } else {
        let d = reg_xmm(insn, 0)->0;
        let b = reg_xmm(insn, 1)->0;
        s.push(IrOp::VPackUsWB { dst: d, a: d, b })
    }
}

/// `packuswb`: packs words to unsigned saturated bytes.
pub fn lift_packuswb(insn: &Insn, em: &mut Emitter) -> (r: Result<(), LiftError>)
    requires
        old(em)@.ready(64),
    ensures
        emit::lifted(old(em)@, final(em)@, packuswb(insn, old(em)@), insn, r),
{
    reveal(packuswb);
    let d = match reg_xmm(insn, 0) {
        Some(d) => d,
        None => {
            return Err(unsupported_insn(insn));
        },
    };
    let b = match reg_xmm(insn, 1) {
        Some(b) => b,
        None => {
            return Err(unsupported_insn(insn));
        },
    };
    em.push(IrOp::VPackUsWB { dst: d, a: d, b });
    Ok(())
}

#[verifier::opaque]
pub open spec fn vpack(insn: &Insn, from_elem: u8, signed: bool, s: Emission) -> Emission {
    if vec_operand(insn, 0) is None
        || vec_operand_reg(insn, 1) is None
        || vec_operand_reg(insn, 2) is None {
        s.fail()
    } else {
        let (dst, bytes) = vec_operand(insn, 0)->0;
        let a = vec_operand_reg(insn, 1)->0;
        let b = vec_operand_reg(insn, 2)->0;
        s.push(IrOp::VPackWide { dst, a, b, from_elem, signed, bytes })
    }
}

/// VEX and EVEX saturating pack of register sources.
pub fn lift_vpack(
    insn: &Insn,
    em: &mut Emitter,
    from_elem: u8,
    signed: bool,
) -> (r: Result<(), LiftError>)
    requires
        old(em)@.ready(64),
    ensures
        emit::lifted(old(em)@, final(em)@, vpack(insn, from_elem, signed, old(em)@), insn, r),
{
    reveal(vpack);
    let (dst, bytes) = match vec_operand(insn, 0) {
        Some(v) => v,
        None => {
            return Err(unsupported_insn(insn));
        },
    };
    let a = match vec_operand_reg(insn, 1) {
        Some(a) => a,
        None => {
            return Err(unsupported_insn(insn));
        },
    };
    let b = match vec_operand_reg(insn, 2) {
        Some(b) => b,
        None => {
            return Err(unsupported_insn(insn));
        },
    };
    em.push(IrOp::VPackWide { dst, a, b, from_elem, signed, bytes });
    Ok(())
}

#[verifier::opaque]
pub open spec fn pblendw(insn: &Insn, s: Emission) -> Emission {
    if reg_xmm(insn, 0) is None || reg_xmm(insn, 1) is None {
        s.fail()
    } else {
        let dst = reg_xmm(insn, 0)->0;
        let b = reg_xmm(insn, 1)->0;
        s.push(IrOp::VBlendW { dst, a: dst, b, imm: insn.imm8(2) })
    }
}

/// `pblendw`: blends words by an immediate.
pub fn lift_pblendw(insn: &Insn, em: &mut Emitter) -> (r: Result<(), LiftError>)
    requires
        old(em)@.ready(64),
    ensures
        emit::lifted(old(em)@, final(em)@, pblendw(insn, old(em)@), insn, r),
{
    reveal(pblendw);
    let dst = match reg_xmm(insn, 0) {
        Some(dst) => dst,
        None => {
            return Err(unsupported_insn(insn));
        },
    };
    let b = match reg_xmm(insn, 1) {
        Some(b) => b,
        None => {
            return Err(unsupported_insn(insn));
        },
    };
    em.push(IrOp::VBlendW { dst, a: dst, b, imm: insn.imm8(2) });
    Ok(())
}

#[verifier::opaque]
pub open spec fn vpblendw(insn: &Insn, s: Emission) -> Emission {
    if reg_xmm(insn, 0) is None || reg_xmm(insn, 1) is None || reg_xmm(insn, 2) is None {
        s.fail()
    } else {
        let dst = reg_xmm(insn, 0)->0;
        let a = reg_xmm(insn, 1)->0;
        let b = reg_xmm(insn, 2)->0;
        let s1 = s.push(IrOp::VBlendW { dst, a, b, imm: insn.imm8(3) });
        s1.push(IrOp::VZeroUpper { reg: dst })
    }
}

/// VEX.128 `vpblendw`.
pub fn lift_vpblendw(insn: &Insn, em: &mut Emitter) -> (r: Result<(), LiftError>)
    requires
        old(em)@.ready(64),
    ensures
        emit::lifted(old(em)@, final(em)@, vpblendw(insn, old(em)@), insn, r),
{
    reveal(vpblendw);
    let dst = match reg_xmm(insn, 0) {
        Some(dst) => dst,
        None => {
            return Err(unsupported_insn(insn));
        },
    };
    let a = match reg_xmm(insn, 1) {
        Some(a) => a,
        None => {
            return Err(unsupported_insn(insn));
        },
    };
    let b = match reg_xmm(insn, 2) {
        Some(b) => b,
        None => {
            return Err(unsupported_insn(insn));
        },
    };
    em.push(IrOp::VBlendW { dst, a, b, imm: insn.imm8(3) });
    em.push(IrOp::VZeroUpper { reg: dst });
    Ok(())
}

#[verifier::opaque]
pub open spec fn blendv(insn: &Insn, lane: u8, s: Emission) -> Emission {
    if reg_xmm(insn, 0) is None {
        s.fail()
    } else {
        let dst = reg_xmm(insn, 0)->0;
        match source(reg_xmm(insn, 1), insn, 1) {
            Source::Reg(src) => {
                s.push(IrOp::VPBlendV { dst, src, lane })
            },
            Source::Mem => {
                let (s1, addr) = operand::address(insn, s);
                s1.push(IrOp::VPBlendVM { dst, addr, lane })
            },
            Source::Neither => s.fail(),
        }
    }
}

/// `blendvps`/`blendvpd`/`pblendvb`: blends `lane`-byte elements by the signs in XMM0.
pub fn lift_blendv(insn: &Insn, em: &mut Emitter, lane: u8) -> (r: Result<(), LiftError>)
    requires
        old(em)@.ready(64),
    ensures
        emit::lifted(old(em)@, final(em)@, blendv(insn, lane, old(em)@), insn, r),
{
    reveal(blendv);
    let dst = match reg_xmm(insn, 0) {
        Some(dst) => dst,
        None => {
            return Err(unsupported_insn(insn));
        },
    };
    match source(reg_xmm(insn, 1), insn, 1) {
        Source::Reg(src) => {
            em.push(IrOp::VPBlendV { dst, src, lane });
        },
        Source::Mem => {
            let addr = match effective_address(insn, em) {
                Ok(addr) => addr,
                Err(e) => {
                    return Err(e);
                },
            };
            em.push(IrOp::VPBlendVM { dst, addr, lane });
        },
        Source::Neither => {
            return Err(unsupported_insn(insn));
        },
    }
    Ok(())
}

#[verifier::opaque]
pub open spec fn pmovx(insn: &Insn, from: u8, to: u8, signed: bool, s: Emission) -> Emission {
    if reg_xmm(insn, 0) is None {
        s.fail()
    } else {
        let dst = reg_xmm(insn, 0)->0;
        match source(reg_xmm(insn, 1), insn, 1) {
            Source::Reg(src) => {
                s.push(IrOp::VPMovExtend { dst, src, from, to, signed })
            },
            Source::Mem => {
                let (s1, addr) = operand::address(insn, s);
                s1.push(IrOp::VPMovExtendM { dst, addr, from, to, signed })
            },
            Source::Neither => s.fail(),
        }
    }
}

/// `pmovzx`/`pmovsx`: extends the low `from`-byte elements to `to` bytes.
pub fn lift_pmovx(
    insn: &Insn,
    em: &mut Emitter,
    from: u8,
    to: u8,
    signed: bool,
) -> (r: Result<(), LiftError>)
    requires
        old(em)@.ready(64),
    ensures
        emit::lifted(old(em)@, final(em)@, pmovx(insn, from, to, signed, old(em)@), insn, r),
{
    reveal(pmovx);
    let dst = match reg_xmm(insn, 0) {
        Some(dst) => dst,
        None => {
            return Err(unsupported_insn(insn));
        },
    };
    match source(reg_xmm(insn, 1), insn, 1) {
        Source::Reg(src) => {
            em.push(IrOp::VPMovExtend { dst, src, from, to, signed });
        },
        Source::Mem => {
            let addr = match effective_address(insn, em) {
                Ok(addr) => addr,
                Err(e) => {
                    return Err(e);
                },
            };
            em.push(IrOp::VPMovExtendM { dst, addr, from, to, signed });
        },
        Source::Neither => {
            return Err(unsupported_insn(insn));
        },
    }
    Ok(())
}

/// Wider or masked forms take a register source.
#[verifier::opaque]
pub open spec fn vpmovx(insn: &Insn, from: u8, to: u8, signed: bool, s: Emission) -> Emission {
    if vec_operand(insn, 0) is None {
        s.fail()
    } else {
        let (dst, dst_width) = vec_operand(insn, 0)->0;
        if dst_width > 16 || evex_is_masked(insn) {
            if vec_operand_reg(insn, 1) is None {
                s.fail()
            } else {
                let src = vec_operand_reg(insn, 1)->0;
                s.push(IrOp::VPMovExtendWide {
                    dst,
                    src,
                    from,
                    to,
                    signed,
                    dst_width,
                    writemask: evex_writemask(insn),
                    zeroing: insn.zeroing,
                })
            }
        } else {
            let s1 = pmovx(insn, from, to, signed, s);
            s1.push(IrOp::VZeroUpper { reg: dst })
        }
    }
}

/// VEX and EVEX `vpmovzx`/`vpmovsx`.
pub fn lift_vpmovx(
    insn: &Insn,
    em: &mut Emitter,
    from: u8,
    to: u8,
    signed: bool,
) -> (r: Result<(), LiftError>)
    requires
        old(em)@.ready(64),
    ensures
        emit::lifted(old(em)@, final(em)@, vpmovx(insn, from, to, signed, old(em)@), insn, r),
{
    reveal(vpmovx);
    let (dst, dst_width) = match vec_operand(insn, 0) {
        Some(v) => v,
        None => {
            return Err(unsupported_insn(insn));
        },
    };
    if dst_width > 16 || evex_is_masked(insn) {
        let src = match vec_operand_reg(insn, 1) {
            Some(src) => src,
            None => {
                return Err(unsupported_insn(insn));
            },
        };
        em.push(IrOp::VPMovExtendWide {
            dst,
            src,
            from,
            to,
            signed,
            dst_width,
            writemask: evex_writemask(insn),
            zeroing: insn.zeroing,
        });
        return Ok(());
    }
    match lift_pmovx(insn, em, from, to, signed) {
        Ok(_) => {},
        Err(e) => {
            return Err(e);
        },
    }
    em.push(IrOp::VZeroUpper { reg: dst });
    Ok(())
}

/// A memory destination has no mask.
#[verifier::opaque]
pub open spec fn vpmov_narrow(insn: &Insn, from: u8, to: u8, s: Emission) -> Emission {
    if vec_operand(insn, 1) is None {
        s.fail()
    } else {
        let (src, src_width) = vec_operand(insn, 1)->0;
        if insn.is_mem(0) {
            if evex_is_masked(insn) {
                s.fail()
            } else {
                let (s1, addr) = operand::address(insn, s);
                s1.push(IrOp::VPmovNarrowMem { src, addr, from, to, src_width })
            }
        } else {
            if vec_operand_reg(insn, 0) is None {
                s.fail()
            } else {
                let dst = vec_operand_reg(insn, 0)->0;
                s.push(IrOp::VPmovNarrow {
                    dst,
                    src,
                    from,
                    to,
                    src_width,
                    writemask: evex_writemask(insn),
                    zeroing: insn.zeroing,
                })
            }
        }
    }
}

/// EVEX `vpmov{q,d,w}{d,w,b}`: truncates each `from`-byte lane to `to` bytes.
pub fn lift_vpmov_narrow(
    insn: &Insn,
    em: &mut Emitter,
    from: u8,
    to: u8,
) -> (r: Result<(), LiftError>)
    requires
        old(em)@.ready(64),
    ensures
        emit::lifted(old(em)@, final(em)@, vpmov_narrow(insn, from, to, old(em)@), insn, r),
{
    reveal(vpmov_narrow);
    let (src, src_width) = match vec_operand(insn, 1) {
        Some(v) => v,
        None => {
            return Err(unsupported_insn(insn));
        },
    };
    if insn.is_mem(0) {
        if evex_is_masked(insn) {
            return Err(unsupported_insn(insn));
        }
        let addr = match effective_address(insn, em) {
            Ok(addr) => addr,
            Err(e) => {
                return Err(e);
            },
        };
        em.push(IrOp::VPmovNarrowMem { src, addr, from, to, src_width });
        return Ok(());
    }
    let dst = match vec_operand_reg(insn, 0) {
        Some(dst) => dst,
        None => {
            return Err(unsupported_insn(insn));
        },
    };
    em.push(IrOp::VPmovNarrow {
        dst,
        src,
        from,
        to,
        src_width,
        writemask: evex_writemask(insn),
        zeroing: insn.zeroing,
    });
    Ok(())
}

/// A general register goes to any width; 512 bits take memory through a temporary; masked
/// forms are not supported.
#[verifier::opaque]
pub open spec fn broadcast(insn: &Insn, elem: u8, s: Emission) -> Emission {
    if vec_operand(insn, 0) is None {
        s.fail()
    } else {
        let (dst, width) = vec_operand(insn, 0)->0;
        if insn.op(1).kind == op_kind::REGISTER && reg_xmm(insn, 1).is_none() {
            if evex_is_masked(insn) {
                s.fail()
            } else {
                let (s1, src) = operand::read(insn, 1, s);
                s1.push(IrOp::VBroadcastGpr { dst, src, elem, width })
            }
        } else {
            if evex_is_masked(insn) {
                s.fail()
            } else {
                if width == 64 {
                    if !insn.is_mem(1) {
                        s.fail()
                    } else {
                        let (s2, addr) = operand::address(insn, s);
                        let s3 = s2.def(IrOp::Load { dst: s2.next, addr, size: elem });
                        let src = Val::Temp(s2.next);
                        s3.push(IrOp::VBroadcastGpr { dst, src, elem, width })
                    }
                } else {
                    match source(reg_xmm(insn, 1), insn, 1) {
                        Source::Reg(src) => {
                            s.push(IrOp::VBroadcast { dst, src, elem, w256: width == 32 })
                        },
                        Source::Mem => {
                            let (s4, addr) = operand::address(insn, s);
                            s4.push(IrOp::VBroadcastM { dst, addr, elem, w256: width == 32 })
                        },
                        Source::Neither => s.fail(),
                    }
                }
            }
        }
    }
}

/// `vpbroadcast{b,w,d,q}`: replicates the low `elem`-byte element of a register or memory.
pub fn lift_broadcast(insn: &Insn, em: &mut Emitter, elem: u8) -> (r: Result<(), LiftError>)
    requires
        old(em)@.ready(64),
    ensures
        emit::lifted(old(em)@, final(em)@, broadcast(insn, elem, old(em)@), insn, r),
{
    reveal(broadcast);
    let (dst, width) = match vec_operand(insn, 0) {
        Some(v) => v,
        None => {
            return Err(unsupported_insn(insn));
        },
    };
    if insn.op(1).kind == op_kind::REGISTER && reg_xmm(insn, 1).is_none() {
        if evex_is_masked(insn) {
            return Err(unsupported_insn(insn));
        }
        let src = match lower_read(insn, 1, em) {
            Ok(src) => src,
            Err(e) => {
                return Err(e);
            },
        };
        em.push(IrOp::VBroadcastGpr { dst, src, elem, width });
        return Ok(());
    }
    if evex_is_masked(insn) {
        return Err(unsupported_insn(insn));
    }
    if width == 64 {
        if !insn.is_mem(1) {
            return Err(unsupported_insn(insn));
        }
        let addr = match effective_address(insn, em) {
            Ok(addr) => addr,
            Err(e) => {
                return Err(e);
            },
        };
        let t: Temp = em.peek();
        em.def(t, IrOp::Load { dst: t, addr, size: elem });
        let src = Val::Temp(t);
        em.push(IrOp::VBroadcastGpr { dst, src, elem, width });
        return Ok(());
    }
    match source(reg_xmm(insn, 1), insn, 1) {
        Source::Reg(src) => {
            em.push(IrOp::VBroadcast { dst, src, elem, w256: width == 32 });
        },
        Source::Mem => {
            let addr = match effective_address(insn, em) {
                Ok(addr) => addr,
                Err(e) => {
                    return Err(e);
                },
            };
            em.push(IrOp::VBroadcastM { dst, addr, elem, w256: width == 32 });
        },
        Source::Neither => {
            return Err(unsupported_insn(insn));
        },
    }
    Ok(())
}

#[verifier::opaque]
pub open spec fn vinsert128(insn: &Insn, s: Emission) -> Emission {
    if reg_ymm(insn, 0) is None || reg_ymm(insn, 1) is None {
        s.fail()
    } else {
        let dst = reg_ymm(insn, 0)->0;
        let src = reg_ymm(insn, 1)->0;
        let hi: bool = low_bit(insn.imm8(3));
        if insn.is_mem(2) {
            let (s1, addr) = operand::address(insn, s);
            s1.push(IrOp::VInsert128M { dst, src, addr, hi })
        } else {
            if reg_xmm(insn, 2) is None {
                s.fail()
            } else {
                let ins = reg_xmm(insn, 2)->0;
                s.push(IrOp::VInsert128 { dst, src, ins, hi })
            }
        }
    }
}

/// `vinserti128`/`vinsertf128`.
pub fn lift_vinsert128(insn: &Insn, em: &mut Emitter) -> (r: Result<(), LiftError>)
    requires
        old(em)@.ready(64),
    ensures
        emit::lifted(old(em)@, final(em)@, vinsert128(insn, old(em)@), insn, r),
{
    reveal(vinsert128);
    let dst = match reg_ymm(insn, 0) {
        Some(dst) => dst,
        None => {
            return Err(unsupported_insn(insn));
        },
    };
    let src = match reg_ymm(insn, 1) {
        Some(src) => src,
        None => {
            return Err(unsupported_insn(insn));
        },
    };
    let hi: bool = low_bit(insn.imm8(3));
    if insn.is_mem(2) {
        let addr = match effective_address(insn, em) {
            Ok(addr) => addr,
            Err(e) => {
                return Err(e);
            },
        };
        em.push(IrOp::VInsert128M { dst, src, addr, hi });
        return Ok(());
    }
    let ins = match reg_xmm(insn, 2) {
        Some(ins) => ins,
        None => {
            return Err(unsupported_insn(insn));
        },
    };
    em.push(IrOp::VInsert128 { dst, src, ins, hi });
    Ok(())
}

#[verifier::opaque]
pub open spec fn vextract128(insn: &Insn, s: Emission) -> Emission {
    if reg_xmm(insn, 0) is None || reg_ymm(insn, 1) is None {
        s.fail()
    } else {
        let dst = reg_xmm(insn, 0)->0;
        let src = reg_ymm(insn, 1)->0;
        s.push(IrOp::VExtract128 { dst, src, hi: low_bit(insn.imm8(2)) })
    }
}

/// `vextracti128`/`vextractf128` to a register.
pub fn lift_vextract128(insn: &Insn, em: &mut Emitter) -> (r: Result<(), LiftError>)
    requires
        old(em)@.ready(64),
    ensures
        emit::lifted(old(em)@, final(em)@, vextract128(insn, old(em)@), insn, r),
{
    reveal(vextract128);
    let dst = match reg_xmm(insn, 0) {
        Some(dst) => dst,
        None => {
            return Err(unsupported_insn(insn));
        },
    };
    let src = match reg_ymm(insn, 1) {
        Some(src) => src,
        None => {
            return Err(unsupported_insn(insn));
        },
    };
    em.push(IrOp::VExtract128 { dst, src, hi: low_bit(insn.imm8(2)) });
    Ok(())
}

#[verifier::opaque]
pub open spec fn vinsert_wide(insn: &Insn, insert_lanes: u8, s: Emission) -> Emission {
    if evex_is_masked(insn) {
        s.fail()
    } else {
        if vec_operand(insn, 0) is None
            || vec_operand_reg(insn, 1) is None
            || vec_operand_reg(insn, 2) is None {
            s.fail()
        } else {
            let (dst, bytes) = vec_operand(insn, 0)->0;
            let src = vec_operand_reg(insn, 1)->0;
            let ins = vec_operand_reg(insn, 2)->0;
            let idx: u8 = lane_slot(insn.imm8(3), bytes, insert_lanes);
            s.push(IrOp::VInsertLaneWide { dst, src, ins, idx, num_lanes: insert_lanes, bytes })
        }
    }
}

/// EVEX lane insert: `insert_lanes` 128-bit lanes of op2 go into op1 at the place that the
/// immediate selects.
pub fn lift_vinsert_wide(
    insn: &Insn,
    em: &mut Emitter,
    insert_lanes: u8,
) -> (r: Result<(), LiftError>)
    requires
        old(em)@.ready(64),
        0 < insert_lanes,
    ensures
        emit::lifted(old(em)@, final(em)@, vinsert_wide(insn, insert_lanes, old(em)@), insn, r),
{
    reveal(vinsert_wide);
    if evex_is_masked(insn) {
        return Err(unsupported_insn(insn));
    }
    let (dst, bytes) = match vec_operand(insn, 0) {
        Some(v) => v,
        None => {
            return Err(unsupported_insn(insn));
        },
    };
    let src = match vec_operand_reg(insn, 1) {
        Some(src) => src,
        None => {
            return Err(unsupported_insn(insn));
        },
    };
    let ins = match vec_operand_reg(insn, 2) {
        Some(ins) => ins,
        None => {
            return Err(unsupported_insn(insn));
        },
    };
    let idx: u8 = lane_slot(insn.imm8(3), bytes, insert_lanes);
    em.push(IrOp::VInsertLaneWide { dst, src, ins, idx, num_lanes: insert_lanes, bytes });
    Ok(())
}

#[verifier::opaque]
pub open spec fn vextract_wide(insn: &Insn, extract_lanes: u8, s: Emission) -> Emission {
    if evex_is_masked(insn) {
        s.fail()
    } else {
        if vec_operand_reg(insn, 0) is None || vec_operand(insn, 1) is None {
            s.fail()
        } else {
            let dst = vec_operand_reg(insn, 0)->0;
            let (src, bytes) = vec_operand(insn, 1)->0;
            let idx: u8 = lane_slot(insn.imm8(2), bytes, extract_lanes);
            s.push(IrOp::VExtractLaneWide { dst, src, idx, num_lanes: extract_lanes })
        }
    }
}

/// EVEX lane extract to a register.
pub fn lift_vextract_wide(
    insn: &Insn,
    em: &mut Emitter,
    extract_lanes: u8,
) -> (r: Result<(), LiftError>)
    requires
        old(em)@.ready(64),
        0 < extract_lanes,
    ensures
        emit::lifted(old(em)@, final(em)@, vextract_wide(insn, extract_lanes, old(em)@), insn, r),
{
    reveal(vextract_wide);
    if evex_is_masked(insn) {
        return Err(unsupported_insn(insn));
    }
    let dst = match vec_operand_reg(insn, 0) {
        Some(dst) => dst,
        None => {
            return Err(unsupported_insn(insn));
        },
    };
    let (src, bytes) = match vec_operand(insn, 1) {
        Some(v) => v,
        None => {
            return Err(unsupported_insn(insn));
        },
    };
    let idx: u8 = lane_slot(insn.imm8(2), bytes, extract_lanes);
    em.push(IrOp::VExtractLaneWide { dst, src, idx, num_lanes: extract_lanes });
    Ok(())
}

#[verifier::opaque]
pub open spec fn valign(insn: &Insn, elem: u8, s: Emission) -> Emission {
    if evex_is_masked(insn) {
        s.fail()
    } else {
        if vec_operand(insn, 0) is None
            || vec_operand_reg(insn, 1) is None
            || vec_operand_reg(insn, 2) is None {
            s.fail()
        } else {
            let (dst, bytes) = vec_operand(insn, 0)->0;
            let a = vec_operand_reg(insn, 1)->0;
            let b = vec_operand_reg(insn, 2)->0;
            s.push(IrOp::VAlign { dst, a, b, shift: insn.imm8(3), elem, bytes })
        }
    }
}

/// EVEX `valign{d,q}` without a mask.
pub fn lift_valign(insn: &Insn, em: &mut Emitter, elem: u8) -> (r: Result<(), LiftError>)
    requires
        old(em)@.ready(64),
    ensures
        emit::lifted(old(em)@, final(em)@, valign(insn, elem, old(em)@), insn, r),
{
    reveal(valign);
    if evex_is_masked(insn) {
        return Err(unsupported_insn(insn));
    }
    let (dst, bytes) = match vec_operand(insn, 0) {
        Some(v) => v,
        None => {
            return Err(unsupported_insn(insn));
        },
    };
    let a = match vec_operand_reg(insn, 1) {
        Some(a) => a,
        None => {
            return Err(unsupported_insn(insn));
        },
    };
    let b = match vec_operand_reg(insn, 2) {
        Some(b) => b,
        None => {
            return Err(unsupported_insn(insn));
        },
    };
    em.push(IrOp::VAlign { dst, a, b, shift: insn.imm8(3), elem, bytes });
    Ok(())
}

#[verifier::opaque]
pub open spec fn vperm2(insn: &Insn, elem: u8, imode: bool, s: Emission) -> Emission {
    if vec_operand(insn, 0) is None || vec_operand_reg(insn, 1) is None {
        s.fail()
    } else {
        let (dst, bytes) = vec_operand(insn, 0)->0;
        let idx = vec_operand_reg(insn, 1)->0;
        let writemask: Option<u8> = evex_writemask(insn);
        let zeroing: bool = insn.zeroing;
        if insn.is_mem(2) {
            let (s1, addr) = operand::address(insn, s);
            s1.push(IrOp::VPermT2M { dst, idx, addr, elem, writemask, zeroing, bytes, imode })
        } else {
            if vec_operand_reg(insn, 2) is None {
                s.fail()
            } else {
                let tbl = vec_operand_reg(insn, 2)->0;
                s.push(IrOp::VPermT2 { dst, idx, tbl, elem, writemask, zeroing, bytes, imode })
            }
        }
    }
}

/// `vpermt2*` and, with `imode`, `vpermi2*`: a permute of two tables.
pub fn lift_vperm2(
    insn: &Insn,
    em: &mut Emitter,
    elem: u8,
    imode: bool,
) -> (r: Result<(), LiftError>)
    requires
        old(em)@.ready(64),
    ensures
        emit::lifted(old(em)@, final(em)@, vperm2(insn, elem, imode, old(em)@), insn, r),
{
    reveal(vperm2);
    let (dst, bytes) = match vec_operand(insn, 0) {
        Some(v) => v,
        None => {
            return Err(unsupported_insn(insn));
        },
    };
    let idx = match vec_operand_reg(insn, 1) {
        Some(idx) => idx,
        None => {
            return Err(unsupported_insn(insn));
        },
    };
    let writemask: Option<u8> = evex_writemask(insn);
    let zeroing: bool = insn.zeroing;
    if insn.is_mem(2) {
        let addr = match effective_address(insn, em) {
            Ok(addr) => addr,
            Err(e) => {
                return Err(e);
            },
        };
        em.push(IrOp::VPermT2M { dst, idx, addr, elem, writemask, zeroing, bytes, imode });
        return Ok(());
    }
    let tbl = match vec_operand_reg(insn, 2) {
        Some(tbl) => tbl,
        None => {
            return Err(unsupported_insn(insn));
        },
    };
    em.push(IrOp::VPermT2 { dst, idx, tbl, elem, writemask, zeroing, bytes, imode });
    Ok(())
}

#[verifier::opaque]
pub open spec fn vperm1(insn: &Insn, elem: u8, s: Emission) -> Emission {
    if vec_operand(insn, 0) is None
        || vec_operand_reg(insn, 1) is None
        || vec_operand_reg(insn, 2) is None {
        s.fail()
    } else {
        let (dst, bytes) = vec_operand(insn, 0)->0;
        let idx = vec_operand_reg(insn, 1)->0;
        let src = vec_operand_reg(insn, 2)->0;
        s.push(IrOp::VPerm1 {
            dst,
            idx,
            src,
            elem,
            bytes,
            writemask: evex_writemask(insn),
            zeroing: insn.zeroing,
        })
    }
}

/// `vperm{d,q}` by a vector of indices.
pub fn lift_vperm1(insn: &Insn, em: &mut Emitter, elem: u8) -> (r: Result<(), LiftError>)
    requires
        old(em)@.ready(64),
    ensures
        emit::lifted(old(em)@, final(em)@, vperm1(insn, elem, old(em)@), insn, r),
{
    reveal(vperm1);
    let (dst, bytes) = match vec_operand(insn, 0) {
        Some(v) => v,
        None => {
            return Err(unsupported_insn(insn));
        },
    };
    let idx = match vec_operand_reg(insn, 1) {
        Some(idx) => idx,
        None => {
            return Err(unsupported_insn(insn));
        },
    };
    let src = match vec_operand_reg(insn, 2) {
        Some(src) => src,
        None => {
            return Err(unsupported_insn(insn));
        },
    };
    em.push(IrOp::VPerm1 {
        dst,
        idx,
        src,
        elem,
        bytes,
        writemask: evex_writemask(insn),
        zeroing: insn.zeroing,
    });
    Ok(())
}

#[verifier::opaque]
pub open spec fn vpermq_imm(insn: &Insn, s: Emission) -> Emission {
    if reg_ymm(insn, 0) is None {
        s.fail()
    } else {
        let dst = reg_ymm(insn, 0)->0;
        let imm: u8 = insn.imm8(2);
        match source(reg_ymm(insn, 1), insn, 1) {
            Source::Reg(src) => {
                s.push(IrOp::VPermq { dst, src, imm })
            },
            Source::Mem => {
                let (s1, addr) = operand::address(insn, s);
                let s2 = s1.push(IrOp::VLoadWide { dst, addr, bytes: 32 });
                s2.push(IrOp::VPermq { dst, src: dst, imm })
            },
            Source::Neither => s.fail(),
        }
    }
}

/// `vpermq`/`vpermpd` by an immediate. A memory source is loaded into the destination
/// first.
pub fn lift_vpermq_imm(insn: &Insn, em: &mut Emitter) -> (r: Result<(), LiftError>)
    requires
        old(em)@.ready(64),
    ensures
        emit::lifted(old(em)@, final(em)@, vpermq_imm(insn, old(em)@), insn, r),
{
    reveal(vpermq_imm);
    let dst = match reg_ymm(insn, 0) {
        Some(dst) => dst,
        None => {
            return Err(unsupported_insn(insn));
        },
    };
    let imm: u8 = insn.imm8(2);
    match source(reg_ymm(insn, 1), insn, 1) {
        Source::Reg(src) => {
            em.push(IrOp::VPermq { dst, src, imm });
        },
        Source::Mem => {
            let addr = match effective_address(insn, em) {
                Ok(addr) => addr,
                Err(e) => {
                    return Err(e);
                },
            };
            em.push(IrOp::VLoadWide { dst, addr, bytes: 32 });
            em.push(IrOp::VPermq { dst, src: dst, imm });
        },
        Source::Neither => {
            return Err(unsupported_insn(insn));
        },
    }
    Ok(())
}

#[verifier::opaque]
pub open spec fn vpermd(insn: &Insn, s: Emission) -> Emission {
    if reg_zmm(insn, 0).is_some() || evex_is_masked(insn) {
        vperm1(insn, 4, s)
    } else {
        if reg_ymm(insn, 0) is None || reg_ymm(insn, 1) is None || reg_ymm(insn, 2) is None {
            s.fail()
        } else {
            let dst = reg_ymm(insn, 0)->0;
            let ctrl = reg_ymm(insn, 1)->0;
            let src = reg_ymm(insn, 2)->0;
            s.push(IrOp::VPermd { dst, ctrl, src })
        }
    }
}

/// `vpermd`: the 256-bit form, or the general one where it is masked or wider.
pub fn lift_vpermd(insn: &Insn, em: &mut Emitter) -> (r: Result<(), LiftError>)
    requires
        old(em)@.ready(64),
    ensures
        emit::lifted(old(em)@, final(em)@, vpermd(insn, old(em)@), insn, r),
{
    reveal(vpermd);
    if reg_zmm(insn, 0).is_some() || evex_is_masked(insn) {
        return lift_vperm1(insn, em, 4);
    }
    let dst = match reg_ymm(insn, 0) {
        Some(dst) => dst,
        None => {
            return Err(unsupported_insn(insn));
        },
    };
    let ctrl = match reg_ymm(insn, 1) {
        Some(ctrl) => ctrl,
        None => {
            return Err(unsupported_insn(insn));
        },
    };
    let src = match reg_ymm(insn, 2) {
        Some(src) => src,
        None => {
            return Err(unsupported_insn(insn));
        },
    };
    em.push(IrOp::VPermd { dst, ctrl, src });
    Ok(())
}

#[verifier::opaque]
pub open spec fn vperm2i128(insn: &Insn, s: Emission) -> Emission {
    if reg_ymm(insn, 0) is None || reg_ymm(insn, 1) is None || reg_ymm(insn, 2) is None {
        s.fail()
    } else {
        let dst = reg_ymm(insn, 0)->0;
        let a = reg_ymm(insn, 1)->0;
        let b = reg_ymm(insn, 2)->0;
        s.push(IrOp::VPerm2i128 { dst, a, b, imm: insn.imm8(3) })
    }
}

/// `vperm2i128`/`vperm2f128`.
pub fn lift_vperm2i128(insn: &Insn, em: &mut Emitter) -> (r: Result<(), LiftError>)
    requires
        old(em)@.ready(64),
    ensures
        emit::lifted(old(em)@, final(em)@, vperm2i128(insn, old(em)@), insn, r),
{
    reveal(vperm2i128);
    let dst = match reg_ymm(insn, 0) {
        Some(dst) => dst,
        None => {
            return Err(unsupported_insn(insn));
        },
    };
    let a = match reg_ymm(insn, 1) {
        Some(a) => a,
        None => {
            return Err(unsupported_insn(insn));
        },
    };
    let b = match reg_ymm(insn, 2) {
        Some(b) => b,
        None => {
            return Err(unsupported_insn(insn));
        },
    };
    em.push(IrOp::VPerm2i128 { dst, a, b, imm: insn.imm8(3) });
    Ok(())
}

} // verus!
