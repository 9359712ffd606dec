//! What shuffles, permutes and lane moves emit, by their names.
use crate::insn::Insn;
use crate::ir::{IrOp, Val};
use crate::lift::emit::Emission;
use crate::lift::table::ShuffleForm;
use crate::lift::{dispatch, operand, table, vector, vshuffle, CpuMode};
use crate::mnemonic as mn;
use crate::op_kind;
use vstd::prelude::*;

verus! {

broadcast use operand::group_failed;

// --- shuffles ---

/// Each doubleword is the one of the source that two bits of the immediate number.
#[verifier::opaque]
pub open spec fn shuffles_words(insn: &Insn, s: Emission, s1: Emission) -> bool {
    let imm = vector::byte(insn.op2);
    match vector::xmm(insn.op0) {
        None => !s1.ok,
        Some(dst) => vector::by_source(
            insn,
            insn.op1,
            vector::xmm(insn.op1),
            s,
            s1,
            |a: u8| seq![IrOp::VShuffle32 { dst, a, imm }],
            |addr: Val| seq![
                IrOp::VLoad { dst, addr, size: 16 },
                IrOp::VShuffle32 { dst, a: dst, imm },
            ],
        ),
    }
}

/// As above; the bits above 128 are cleared. Wider and masked forms go by register.
#[verifier::opaque]
pub open spec fn shuffles_words_wide(insn: &Insn, s: Emission, s1: Emission) -> bool {
    let imm = vector::byte(insn.op2);
    let bytes = vector::wide(insn.op0);
    match vector::vector(insn.op0) {
        None => !s1.ok,
        Some(dst) => if bytes > 16 || vector::masked(insn) {
            match vector::vector(insn.op1) {
                Some(a) => vector::extends(
                    s,
                    s1,
                    seq![
                        IrOp::VShuffle32Wide {
                            dst,
                            a,
                            imm,
                            bytes,
                            writemask: vector::write_mask(insn),
                            zeroing: insn.zeroing,
                        },
                    ],
                ),
                None => !s1.ok,
            }
        } else {
            vector::by_source(
                insn,
                insn.op1,
                vector::xmm(insn.op1),
                s,
                s1,
                |a: u8| seq![IrOp::VShuffle32 { dst, a, imm }, IrOp::VZeroUpper { reg: dst }],
                |addr: Val| seq![
                    IrOp::VLoad { dst, addr, size: 16 },
                    IrOp::VShuffle32 { dst, a: dst, imm },
                    IrOp::VZeroUpper { reg: dst },
                ],
            )
        },
    }
}

/// The words of one half, by the immediate; the other half is copied.
#[verifier::opaque]
pub open spec fn shuffles_half(insn: &Insn, s: Emission, s1: Emission, high: bool) -> bool {
    match (vector::xmm(insn.op0), vector::xmm(insn.op1)) {
        (Some(dst), Some(a)) => vector::extends(
            s,
            s1,
            seq![IrOp::VShuffle16 { dst, a, imm: vector::byte(insn.op2), high }],
        ),
        _ => !s1.ok,
    }
}

/// Two doublewords of the destination and two of the source, by a selector.
pub open spec fn selects(insn: &Insn, s: Emission, s1: Emission, imm: u8) -> bool {
    match (vector::xmm(insn.op0), vector::xmm(insn.op1)) {
        (Some(d), Some(b)) => vector::extends(
            s,
            s1,
            seq![IrOp::VShufps { dst: d, a: d, b, imm }],
        ),
        _ => !s1.ok,
    }
}

/// Two doublewords by the immediate.
#[verifier::opaque]
pub open spec fn selects_words(insn: &Insn, s: Emission, s1: Emission) -> bool {
    selects(insn, s, s1, vector::byte(insn.op2))
}

/// The two doublewords of a quadword: 0 and 1 of the low one, 2 and 3 of the high one.
pub open spec fn pair(high: bool) -> int {
    if high {
        2int + 4int * 3int
    } else {
        0int + 4int * 1int
    }
}

/// One quadword of the destination by bit 0 of the immediate, one of the source by bit 1.
#[verifier::opaque]
pub open spec fn selects_quads(insn: &Insn, s: Emission, s1: Emission) -> bool {
    let imm = vector::byte(insn.op2);
    selects(insn, s, s1, (pair(imm & 1 != 0) + 16 * pair(imm & 2 != 0)) as u8)
}

/// Each byte is the one of the destination that the source's byte numbers.
#[verifier::opaque]
pub open spec fn shuffles_bytes(insn: &Insn, s: Emission, s1: Emission) -> bool {
    match vector::xmm(insn.op0) {
        None => !s1.ok,
        Some(d) => vector::by_source(
            insn,
            insn.op1,
            vector::xmm(insn.op1),
            s,
            s1,
            |idx: u8| seq![IrOp::VPshufb { dst: d, a: d, idx }],
            |addr: Val| seq![IrOp::VPshufbM { dst: d, addr }],
        ),
    }
}

/// Each byte is the one of the first source that the second's byte numbers, at any width.
#[verifier::opaque]
pub open spec fn shuffles_bytes_apart(insn: &Insn, s: Emission, s1: Emission) -> bool {
    if vector::zmm(insn.op0) is Some || vector::masked(insn) {
        match (vector::vector(insn.op0), vector::vector(insn.op1), vector::vector(insn.op2)) {
            (Some(dst), Some(a), Some(idx)) => vector::extends(
                s,
                s1,
                seq![
                    IrOp::VPshufbWide {
                        dst,
                        a,
                        idx,
                        bytes: vector::wide(insn.op0),
                        writemask: vector::write_mask(insn),
                        zeroing: insn.zeroing,
                    },
                ],
            ),
            _ => !s1.ok,
        }
    } else {
        match vector::ymm(insn.op0) {
            Some(d) => match vector::ymm(insn.op1) {
                Some(a) => vector::by_source(
                    insn,
                    insn.op2,
                    vector::ymm(insn.op2),
                    s,
                    s1,
                    |idx: u8| seq![IrOp::VPshufb256 { dst: d, a, idx }],
                    |addr: Val| seq![IrOp::VPshufb256M { dst: d, a, addr }],
                ),
                None => !s1.ok,
            },
            None => match (vector::xmm(insn.op0), vector::xmm(insn.op1)) {
                (Some(d), Some(a)) => vector::by_source(
                    insn,
                    insn.op2,
                    vector::xmm(insn.op2),
                    s,
                    s1,
                    |idx: u8| seq![
                        IrOp::VPshufb { dst: d, a, idx },
                        IrOp::VZeroUpper { reg: d },
                    ],
                    |addr: Val| vector::in_place(d, a, IrOp::VPshufbM { dst: d, addr }),
                ),
                _ => !s1.ok,
            },
        }
    }
}

/// Destination and source as one row of bytes, from the immediate on.
#[verifier::opaque]
pub open spec fn aligns_bytes(insn: &Insn, s: Emission, s1: Emission) -> bool {
    let imm = vector::byte(insn.op2);
    match vector::xmm(insn.op0) {
        None => !s1.ok,
        Some(d) => vector::by_source(
            insn,
            insn.op1,
            vector::xmm(insn.op1),
            s,
            s1,
            |src: u8| seq![IrOp::VAlignr { dst: d, a: d, src, imm }],
            |addr: Val| seq![IrOp::VAlignrM { dst: d, addr, imm }],
        ),
    }
}

/// The two sources as one row of bytes in each 128 bits, from the immediate on.
#[verifier::opaque]
pub open spec fn aligns_bytes_apart(insn: &Insn, s: Emission, s1: Emission) -> bool {
    let imm = vector::byte(insn.op3);
    match vector::ymm(insn.op0) {
        Some(dst) => match (vector::ymm(insn.op1), vector::ymm(insn.op2)) {
            (Some(a), Some(b)) => vector::extends(
                s,
                s1,
                seq![IrOp::VPalignr256 { dst, a, b, imm }],
            ),
            _ => !s1.ok,
        },
        None => match (vector::xmm(insn.op0), vector::xmm(insn.op1), vector::xmm(insn.op2)) {
            (Some(dst), Some(a), Some(src)) => vector::extends(
                s,
                s1,
                seq![IrOp::VAlignr { dst, a, src, imm }, IrOp::VZeroUpper { reg: dst }],
            ),
            _ => !s1.ok,
        },
    }
}

/// Elements of the two sources as one row, from the immediate on.
#[verifier::opaque]
pub open spec fn aligns(insn: &Insn, s: Emission, s1: Emission, elem: u8) -> bool {
    if vector::masked(insn) {
        !s1.ok
    } else {
        match (vector::vector(insn.op0), vector::vector(insn.op1), vector::vector(insn.op2)) {
            (Some(dst), Some(a), Some(b)) => vector::extends(
                s,
                s1,
                seq![
                    IrOp::VAlign {
                        dst,
                        a,
                        b,
                        shift: vector::byte(insn.op3),
                        elem,
                        bytes: vector::wide(insn.op0),
                    },
                ],
            ),
            _ => !s1.ok,
        }
    }
}

proof fn lemma_shuffles(insn: &Insn, high: bool, s: Emission)
    ensures
        shuffles_words(insn, s, vshuffle::pshufd(insn, s)),
        shuffles_words_wide(insn, s, vshuffle::vpshufd(insn, s)),
        shuffles_half(insn, s, vshuffle::pshufw(insn, high, s), high),
{
    reveal(shuffles_words);
    reveal(shuffles_words_wide);
    reveal(shuffles_half);
    reveal(vshuffle::pshufd);
    reveal(vshuffle::vpshufd);
    reveal(vshuffle::pshufw);
}

proof fn lemma_selects(insn: &Insn, s: Emission)
    ensures
        selects_words(insn, s, vshuffle::shufps(insn, insn.imm8(2), s)),
        selects_quads(
            insn,
            s,
            vshuffle::shufps(insn, vshuffle::shufpd_selector(insn.imm8(2)), s),
        ),
{
    reveal(selects_words);
    reveal(selects_quads);
    reveal(vshuffle::shufps);
}

proof fn lemma_shuffles_bytes(insn: &Insn, s: Emission)
    ensures
        shuffles_bytes(insn, s, vshuffle::pshufb(insn, s)),
        shuffles_bytes_apart(insn, s, vshuffle::vpshufb(insn, s)),
{
    reveal(shuffles_bytes);
    reveal(shuffles_bytes_apart);
    reveal(vshuffle::pshufb);
    reveal(vshuffle::vpshufb);
}

proof fn lemma_aligns(insn: &Insn, elem: u8, s: Emission)
    ensures
        aligns_bytes(insn, s, vshuffle::palignr(insn, s)),
        aligns_bytes_apart(insn, s, vshuffle::vpalignr(insn, s)),
        aligns(insn, s, vshuffle::valign(insn, elem, s), elem),
{
    reveal(aligns_bytes);
    reveal(aligns_bytes_apart);
    reveal(aligns);
    reveal(vshuffle::palignr);
    reveal(vshuffle::vpalignr);
    reveal(vshuffle::valign);
}

// --- interleaving, packing, blending ---

/// Lanes of one half of destination and source, in turn.
#[verifier::opaque]
pub open spec fn interleaves(
    insn: &Insn,
    s: Emission,
    s1: Emission,
    lane: u8,
    high: bool,
) -> bool {
    match (vector::xmm(insn.op0), vector::xmm(insn.op1)) {
        (Some(d), Some(b)) => vector::extends(
            s,
            s1,
            seq![IrOp::VUnpackLow { dst: d, a: d, b, lane, high }],
        ),
        _ => !s1.ok,
    }
}

/// Lanes of one half of the two sources, in turn.
#[verifier::opaque]
pub open spec fn interleaves_apart(
    insn: &Insn,
    s: Emission,
    s1: Emission,
    lane: u8,
    high: bool,
) -> bool {
    match (vector::xmm(insn.op0), vector::xmm(insn.op1), vector::xmm(insn.op2)) {
        (Some(dst), Some(a), Some(b)) => vector::extends(
            s,
            s1,
            seq![IrOp::VUnpackLow { dst, a, b, lane, high }, IrOp::VZeroUpper { reg: dst }],
        ),
        _ => !s1.ok,
    }
}

/// Words of destination and source, saturated to unsigned bytes.
#[verifier::opaque]
pub open spec fn packs(insn: &Insn, s: Emission, s1: Emission) -> bool {
    match (vector::xmm(insn.op0), vector::xmm(insn.op1)) {
        (Some(d), Some(b)) => vector::extends(
            s,
            s1,
            seq![IrOp::VPackUsWB { dst: d, a: d, b }],
        ),
        _ => !s1.ok,
    }
}

/// Elements of `from_elem` bytes of the two sources, saturated to half their width.
#[verifier::opaque]
pub open spec fn packs_apart(
    insn: &Insn,
    s: Emission,
    s1: Emission,
    from_elem: u8,
    signed: bool,
) -> bool {
    match (vector::vector(insn.op0), vector::vector(insn.op1), vector::vector(insn.op2)) {
        (Some(dst), Some(a), Some(b)) => vector::extends(
            s,
            s1,
            seq![
                IrOp::VPackWide {
                    dst,
                    a,
                    b,
                    from_elem,
                    signed,
                    bytes: vector::wide(insn.op0),
                },
            ],
        ),
        _ => !s1.ok,
    }
}

/// Words of destination or source, by a bit of the immediate each.
#[verifier::opaque]
pub open spec fn blends(insn: &Insn, s: Emission, s1: Emission) -> bool {
    match (vector::xmm(insn.op0), vector::xmm(insn.op1)) {
        (Some(d), Some(b)) => vector::extends(
            s,
            s1,
            seq![IrOp::VBlendW { dst: d, a: d, b, imm: vector::byte(insn.op2) }],
        ),
        _ => !s1.ok,
    }
}

/// Words of the first or the second source, by a bit of the immediate each.
#[verifier::opaque]
pub open spec fn blends_apart(insn: &Insn, s: Emission, s1: Emission) -> bool {
    match (vector::xmm(insn.op0), vector::xmm(insn.op1), vector::xmm(insn.op2)) {
        (Some(dst), Some(a), Some(b)) => vector::extends(
            s,
            s1,
            seq![
                IrOp::VBlendW { dst, a, b, imm: vector::byte(insn.op3) },
                IrOp::VZeroUpper { reg: dst },
            ],
        ),
        _ => !s1.ok,
    }
}

/// Lanes of destination or source, by the sign of the mask in register 0.
#[verifier::opaque]
pub open spec fn blends_by_sign(insn: &Insn, s: Emission, s1: Emission, lane: u8) -> bool {
    match vector::xmm(insn.op0) {
        None => !s1.ok,
        Some(dst) => vector::by_source(
            insn,
            insn.op1,
            vector::xmm(insn.op1),
            s,
            s1,
            |src: u8| seq![IrOp::VPBlendV { dst, src, lane }],
            |addr: Val| seq![IrOp::VPBlendVM { dst, addr, lane }],
        ),
    }
}

proof fn lemma_interleaves(insn: &Insn, lane: u8, high: bool, s: Emission)
    ensures
        interleaves(insn, s, vshuffle::vunpack(insn, lane, high, s), lane, high),
        interleaves_apart(insn, s, vshuffle::vunpack_avx(insn, lane, high, s), lane, high),
        packs(insn, s, vshuffle::packuswb(insn, s)),
        packs_apart(insn, s, vshuffle::vpack(insn, lane, high, s), lane, high),
{
    reveal(interleaves);
    reveal(interleaves_apart);
    reveal(packs);
    reveal(packs_apart);
    reveal(vshuffle::vunpack);
    reveal(vshuffle::vunpack_avx);
    reveal(vshuffle::packuswb);
    reveal(vshuffle::vpack);
}

proof fn lemma_blends(insn: &Insn, lane: u8, s: Emission)
    ensures
        blends(insn, s, vshuffle::pblendw(insn, s)),
        blends_apart(insn, s, vshuffle::vpblendw(insn, s)),
        blends_by_sign(insn, s, vshuffle::blendv(insn, lane, s), lane),
{
    reveal(blends);
    reveal(blends_apart);
    reveal(blends_by_sign);
    reveal(vshuffle::pblendw);
    reveal(vshuffle::vpblendw);
    reveal(vshuffle::blendv);
}

// --- widening, narrowing, broadcasting ---

/// Elements of `from` bytes become elements of `to` bytes, by their sign or with zeros.
#[verifier::opaque]
pub open spec fn widens(
    insn: &Insn,
    s: Emission,
    s1: Emission,
    from: u8,
    to: u8,
    signed: bool,
) -> bool {
    match vector::xmm(insn.op0) {
        None => !s1.ok,
        Some(dst) => vector::by_source(
            insn,
            insn.op1,
            vector::xmm(insn.op1),
            s,
            s1,
            |src: u8| seq![IrOp::VPMovExtend { dst, src, from, to, signed }],
            |addr: Val| seq![IrOp::VPMovExtendM { dst, addr, from, to, signed }],
        ),
    }
}

/// As above at any width; wider and masked forms go by register.
#[verifier::opaque]
pub open spec fn widens_wide(
    insn: &Insn,
    s: Emission,
    s1: Emission,
    from: u8,
    to: u8,
    signed: bool,
) -> bool {
    let dst_width = vector::wide(insn.op0);
    match vector::vector(insn.op0) {
        None => !s1.ok,
        Some(dst) => if dst_width > 16 || vector::masked(insn) {
            match vector::vector(insn.op1) {
                Some(src) => vector::extends(
                    s,
                    s1,
                    seq![
                        IrOp::VPMovExtendWide {
                            dst,
                            src,
                            from,
                            to,
                            signed,
                            dst_width,
                            writemask: vector::write_mask(insn),
                            zeroing: insn.zeroing,
                        },
                    ],
                ),
                None => !s1.ok,
            }
        } else {
            vector::by_source(
                insn,
                insn.op1,
                vector::xmm(insn.op1),
                s,
                s1,
                |src: u8| seq![
                    IrOp::VPMovExtend { dst, src, from, to, signed },
                    IrOp::VZeroUpper { reg: dst },
                ],
                |addr: Val| seq![
                    IrOp::VPMovExtendM { dst, addr, from, to, signed },
                    IrOp::VZeroUpper { reg: dst },
                ],
            )
        },
    }
}

/// Elements of `from` bytes are cut to `to` bytes, into a register or, without a mask, memory.
#[verifier::opaque]
pub open spec fn narrows(insn: &Insn, s: Emission, s1: Emission, from: u8, to: u8) -> bool {
    let src_width = vector::wide(insn.op1);
    match vector::vector(insn.op1) {
        None => !s1.ok,
        Some(src) => if vector::memory(insn.op0) {
            let (s2, addr) = operand::address(insn, s);
            if vector::masked(insn) {
                !s1.ok
            } else {
                vector::extends(
                    s2,
                    s1,
                    seq![IrOp::VPmovNarrowMem { src, addr, from, to, src_width }],
                )
            }
        } else {
            match vector::vector(insn.op0) {
                Some(dst) => vector::extends(
                    s,
                    s1,
                    seq![
                        IrOp::VPmovNarrow {
                            dst,
                            src,
                            from,
                            to,
                            src_width,
                            writemask: vector::write_mask(insn),
                            zeroing: insn.zeroing,
                        },
                    ],
                ),
                None => !s1.ok,
            }
        },
    }
}

/// One element goes to all: from a general register, from a vector register's low lane, or
/// from memory. 512 bits take no vector register.
#[verifier::opaque]
pub open spec fn spreads(insn: &Insn, s: Emission, s1: Emission, elem: u8) -> bool {
    let width = vector::wide(insn.op0);
    let from_register = insn.op1.kind == op_kind::REGISTER;
    match vector::vector(insn.op0) {
        None => !s1.ok,
        Some(dst) => if vector::masked(insn) {
            !s1.ok
        } else if from_register && vector::xmm(insn.op1) is None {
            let (s2, src) = operand::read(insn, 1, s);
            vector::extends(s2, s1, seq![IrOp::VBroadcastGpr { dst, src, elem, width }])
        } else if width == 64 {
            if vector::memory(insn.op1) {
                let (s2, addr) = operand::address(insn, s);
                let src = Val::Temp(s2.next);
                vector::extends(
                    s2.def(IrOp::Load { dst: s2.next, addr, size: elem }),
                    s1,
                    seq![IrOp::VBroadcastGpr { dst, src, elem, width }],
                )
            } else {
                !s1.ok
            }
        } else {
            let w256 = width == 32;
            vector::by_source(
                insn,
                insn.op1,
                vector::xmm(insn.op1),
                s,
                s1,
                |src: u8| seq![IrOp::VBroadcast { dst, src, elem, w256 }],
                |addr: Val| seq![IrOp::VBroadcastM { dst, addr, elem, w256 }],
            )
        },
    }
}

proof fn lemma_widens(insn: &Insn, from: u8, to: u8, signed: bool, s: Emission)
    ensures
        widens(insn, s, vshuffle::pmovx(insn, from, to, signed, s), from, to, signed),
        widens_wide(insn, s, vshuffle::vpmovx(insn, from, to, signed, s), from, to, signed),
        narrows(insn, s, vshuffle::vpmov_narrow(insn, from, to, s), from, to),
        spreads(insn, s, vshuffle::broadcast(insn, from, s), from),
{
    reveal(widens);
    reveal(widens_wide);
    reveal(narrows);
    reveal(spreads);
    reveal(vshuffle::pmovx);
    reveal(vshuffle::vpmovx);
    reveal(vshuffle::vpmov_narrow);
    reveal(vshuffle::broadcast);
}

// --- lanes of 128 bits and permutes ---

/// The source with 128 bits of it replaced: the high ones where bit 0 of the immediate is set.
#[verifier::opaque]
pub open spec fn inserts(insn: &Insn, s: Emission, s1: Emission) -> bool {
    let hi = vector::byte(insn.op3) & 1 != 0;
    match (vector::ymm(insn.op0), vector::ymm(insn.op1)) {
        (Some(dst), Some(src)) => if vector::memory(insn.op2) {
            let (s2, addr) = operand::address(insn, s);
            vector::extends(s2, s1, seq![IrOp::VInsert128M { dst, src, addr, hi }])
        } else {
            match vector::xmm(insn.op2) {
                Some(ins) => vector::extends(
                    s,
                    s1,
                    seq![IrOp::VInsert128 { dst, src, ins, hi }],
                ),
                None => !s1.ok,
            }
        },
        _ => !s1.ok,
    }
}

/// 128 bits of the source: the high ones where bit 0 of the immediate is set.
#[verifier::opaque]
pub open spec fn extracts(insn: &Insn, s: Emission, s1: Emission) -> bool {
    match (vector::xmm(insn.op0), vector::ymm(insn.op1)) {
        (Some(dst), Some(src)) => vector::extends(
            s,
            s1,
            seq![IrOp::VExtract128 { dst, src, hi: vector::byte(insn.op2) & 1 != 0 }],
        ),
        _ => !s1.ok,
    }
}

/// How many slots of `lanes` times 128 bits a register of `bytes` has, less one: the bits of
/// an immediate that number one.
pub open spec fn slots(bytes: u16, lanes: u8) -> u8 {
    if lanes == 1 {
        if bytes == 64 {
            3
        } else if bytes == 32 {
            1
        } else {
            0
        }
    } else if bytes == 64 {
        1
    } else if bytes == 32 {
        0
    } else {
        0xff
    }
}

/// The source with `num_lanes` times 128 bits of it replaced, at the slot that the immediate
/// numbers.
#[verifier::opaque]
pub open spec fn inserts_wide(
    insn: &Insn,
    s: Emission,
    s1: Emission,
    num_lanes: u8,
) -> bool {
    let bytes = vector::wide(insn.op0);
    let idx = vector::byte(insn.op3) & slots(bytes, num_lanes);
    if vector::masked(insn) {
        !s1.ok
    } else {
        match (vector::vector(insn.op0), vector::vector(insn.op1), vector::vector(insn.op2)) {
            (Some(dst), Some(src), Some(ins)) => vector::extends(
                s,
                s1,
                seq![IrOp::VInsertLaneWide { dst, src, ins, idx, num_lanes, bytes }],
            ),
            _ => !s1.ok,
        }
    }
}

/// `num_lanes` times 128 bits of the source, from the slot that the immediate numbers.
#[verifier::opaque]
pub open spec fn extracts_wide(
    insn: &Insn,
    s: Emission,
    s1: Emission,
    num_lanes: u8,
) -> bool {
    let idx = vector::byte(insn.op2) & slots(vector::wide(insn.op1), num_lanes);
    if vector::masked(insn) {
        !s1.ok
    } else {
        match (vector::vector(insn.op0), vector::vector(insn.op1)) {
            (Some(dst), Some(src)) => vector::extends(
                s,
                s1,
                seq![IrOp::VExtractLaneWide { dst, src, idx, num_lanes }],
            ),
            _ => !s1.ok,
        }
    }
}

/// Elements of a table of two registers, by an index each. In index mode the destination holds
/// the indices, else it is the first half of the table.
#[verifier::opaque]
pub open spec fn permutes_two(
    insn: &Insn,
    s: Emission,
    s1: Emission,
    elem: u8,
    imode: bool,
) -> bool {
    let bytes = vector::wide(insn.op0);
    let writemask = vector::write_mask(insn);
    let zeroing = insn.zeroing;
    match (vector::vector(insn.op0), vector::vector(insn.op1)) {
        (Some(dst), Some(idx)) => if vector::memory(insn.op2) {
            let (s2, addr) = operand::address(insn, s);
            vector::extends(
                s2,
                s1,
                seq![IrOp::VPermT2M { dst, idx, addr, elem, writemask, zeroing, bytes, imode }],
            )
        } else {
            match vector::vector(insn.op2) {
                Some(tbl) => vector::extends(
                    s,
                    s1,
                    seq![
                        IrOp::VPermT2 { dst, idx, tbl, elem, writemask, zeroing, bytes, imode },
                    ],
                ),
                None => !s1.ok,
            }
        },
        _ => !s1.ok,
    }
}

/// Elements of the second source, by the indices in the first, at any width.
pub open spec fn permutes(insn: &Insn, s: Emission, s1: Emission, elem: u8) -> bool {
    match (vector::vector(insn.op0), vector::vector(insn.op1), vector::vector(insn.op2)) {
        (Some(dst), Some(idx), Some(src)) => vector::extends(
            s,
            s1,
            seq![
                IrOp::VPerm1 {
                    dst,
                    idx,
                    src,
                    elem,
                    bytes: vector::wide(insn.op0),
                    writemask: vector::write_mask(insn),
                    zeroing: insn.zeroing,
                },
            ],
        ),
        _ => !s1.ok,
    }
}

/// Quadwords of 256 bits, by the immediate.
pub open spec fn permutes_quads(insn: &Insn, s: Emission, s1: Emission) -> bool {
    let imm = vector::byte(insn.op2);
    match vector::ymm(insn.op0) {
        None => !s1.ok,
        Some(dst) => vector::by_source(
            insn,
            insn.op1,
            vector::ymm(insn.op1),
            s,
            s1,
            |src: u8| seq![IrOp::VPermq { dst, src, imm }],
            |addr: Val| seq![
                IrOp::VLoadWide { dst, addr, bytes: 32 },
                IrOp::VPermq { dst, src: dst, imm },
            ],
        ),
    }
}

/// `vpermq`: by an immediate, or by indices.
#[verifier::opaque]
pub open spec fn permutes_vpermq(insn: &Insn, s: Emission, s1: Emission) -> bool {
    if insn.op2.kind == op_kind::IMMEDIATE8 {
        permutes_quads(insn, s, s1)
    } else {
        permutes(insn, s, s1, 8)
    }
}

/// `vpermpd`: by an immediate only.
#[verifier::opaque]
pub open spec fn permutes_vpermpd(insn: &Insn, s: Emission, s1: Emission) -> bool {
    if insn.op2.kind == op_kind::IMMEDIATE8 {
        permutes_quads(insn, s, s1)
    } else {
        !s1.ok
    }
}

/// `vpermd`: doublewords by indices.
#[verifier::opaque]
pub open spec fn permutes_vpermd(insn: &Insn, s: Emission, s1: Emission) -> bool {
    if vector::zmm(insn.op0) is Some || vector::masked(insn) {
        permutes(insn, s, s1, 4)
    } else {
        match (vector::ymm(insn.op0), vector::ymm(insn.op1), vector::ymm(insn.op2)) {
            (Some(dst), Some(ctrl), Some(src)) => vector::extends(
                s,
                s1,
                seq![IrOp::VPermd { dst, ctrl, src }],
            ),
            _ => !s1.ok,
        }
    }
}

/// Lanes of 128 bits of the two sources, by the immediate.
#[verifier::opaque]
pub open spec fn permutes_lanes(insn: &Insn, s: Emission, s1: Emission) -> bool {
    match (vector::ymm(insn.op0), vector::ymm(insn.op1), vector::ymm(insn.op2)) {
        (Some(dst), Some(a), Some(b)) => vector::extends(
            s,
            s1,
            seq![IrOp::VPerm2i128 { dst, a, b, imm: vector::byte(insn.op3) }],
        ),
        _ => !s1.ok,
    }
}

proof fn lemma_inserts(insn: &Insn, s: Emission)
    ensures
        inserts(insn, s, vshuffle::vinsert128(insn, s)),
        extracts(insn, s, vshuffle::vextract128(insn, s)),
        inserts_wide(insn, s, vshuffle::vinsert_wide(insn, 1, s), 1),
        inserts_wide(insn, s, vshuffle::vinsert_wide(insn, 2, s), 2),
        extracts_wide(insn, s, vshuffle::vextract_wide(insn, 1, s), 1),
        extracts_wide(insn, s, vshuffle::vextract_wide(insn, 2, s), 2),
{
    reveal(inserts);
    reveal(extracts);
    reveal(inserts_wide);
    reveal(extracts_wide);
    reveal(vshuffle::vinsert128);
    reveal(vshuffle::vextract128);
    reveal(vshuffle::vinsert_wide);
    reveal(vshuffle::vextract_wide);
}

proof fn lemma_permutes(insn: &Insn, elem: u8, imode: bool, s: Emission)
    ensures
        permutes_two(insn, s, vshuffle::vperm2(insn, elem, imode, s), elem, imode),
        permutes(insn, s, vshuffle::vperm1(insn, elem, s), elem),
        permutes_quads(insn, s, vshuffle::vpermq_imm(insn, s)),
        permutes_lanes(insn, s, vshuffle::vperm2i128(insn, s)),
{
    reveal(permutes_two);
    reveal(permutes_lanes);
    reveal(vshuffle::vperm2);
    reveal(vshuffle::vperm1);
    reveal(vshuffle::vpermq_imm);
    reveal(vshuffle::vperm2i128);
}

proof fn lemma_permutes_vpermd(insn: &Insn, s: Emission)
    ensures
        permutes_vpermd(insn, s, vshuffle::vpermd(insn, s)),
{
    reveal(permutes_vpermd);
    reveal(vshuffle::vpermd);
    lemma_permutes(insn, 4, false, s);
}

// --- by name ---

/// The form of an instruction says what is emitted.
#[verifier::opaque]
spec fn formed(form: ShuffleForm, insn: &Insn, s: Emission, s1: Emission) -> bool {
    match form {
        ShuffleForm::Pshufd => shuffles_words(insn, s, s1),
        ShuffleForm::PshufdVex => shuffles_words_wide(insn, s, s1),
        ShuffleForm::Pshufw(high) => shuffles_half(insn, s, s1, high),
        ShuffleForm::Pshufb => shuffles_bytes(insn, s, s1),
        ShuffleForm::PshufbVex => shuffles_bytes_apart(insn, s, s1),
        ShuffleForm::Palignr => aligns_bytes(insn, s, s1),
        ShuffleForm::PalignrVex => aligns_bytes_apart(insn, s, s1),
        ShuffleForm::Unpack(lane, high) => interleaves(insn, s, s1, lane, high),
        ShuffleForm::UnpackVex(lane, high) => interleaves_apart(insn, s, s1, lane, high),
        ShuffleForm::Packuswb => packs(insn, s, s1),
        ShuffleForm::PackVex(from, signed) => packs_apart(insn, s, s1, from, signed),
        ShuffleForm::Pblendw => blends(insn, s, s1),
        ShuffleForm::PblendwVex => blends_apart(insn, s, s1),
        ShuffleForm::Blendv(lane) => blends_by_sign(insn, s, s1, lane),
        ShuffleForm::Extend(from, to, signed) => widens(insn, s, s1, from, to, signed),
        ShuffleForm::ExtendVex(from, to, signed) => widens_wide(insn, s, s1, from, to, signed),
        ShuffleForm::Narrow(from, to) => narrows(insn, s, s1, from, to),
        ShuffleForm::Broadcast(elem) => spreads(insn, s, s1, elem),
        ShuffleForm::Insert128 => inserts(insn, s, s1),
        ShuffleForm::Extract128 => extracts(insn, s, s1),
        ShuffleForm::Align(elem) => aligns(insn, s, s1, elem),
        ShuffleForm::Permute2(elem, imode) => permutes_two(insn, s, s1, elem, imode),
        ShuffleForm::Vpermd => permutes_vpermd(insn, s, s1),
        ShuffleForm::Perm2i128 => permutes_lanes(insn, s, s1),
        ShuffleForm::Shufps => selects_words(insn, s, s1),
        ShuffleForm::Shufpd => selects_quads(insn, s, s1),
        ShuffleForm::InsertWide(two) => if two {
            inserts_wide(insn, s, s1, 2)
        } else {
            inserts_wide(insn, s, s1, 1)
        },
        ShuffleForm::ExtractWide(two) => if two {
            extracts_wide(insn, s, s1, 2)
        } else {
            extracts_wide(insn, s, s1, 1)
        },
        ShuffleForm::Vpermq => permutes_vpermq(insn, s, s1),
        ShuffleForm::Vpermpd => permutes_vpermpd(insn, s, s1),
    }
}

proof fn lemma_formed(insn: &Insn, mode: CpuMode, s: Emission)
    ensures
        table::shuffle_form(insn.mnemonic) is Some ==> formed(
            table::shuffle_form(insn.mnemonic)->0,
            insn,
            s,
            dispatch::insn_ir(insn, mode, s).0,
        ),
{
    reveal(formed);
    match table::shuffle_form(insn.mnemonic) {
        Some(form) => {
            vector::lemma_shuffle(insn, mode, s, form);
            match form {
                ShuffleForm::Pshufd | ShuffleForm::PshufdVex => lemma_shuffles(insn, true, s),
                ShuffleForm::Pshufw(high) => lemma_shuffles(insn, high, s),
                ShuffleForm::Pshufb | ShuffleForm::PshufbVex => lemma_shuffles_bytes(insn, s),
                ShuffleForm::Palignr | ShuffleForm::PalignrVex => lemma_aligns(insn, 0, s),
                ShuffleForm::Align(elem) => lemma_aligns(insn, elem, s),
                ShuffleForm::Unpack(lane, high) => lemma_interleaves(insn, lane, high, s),
                ShuffleForm::UnpackVex(lane, high) => lemma_interleaves(insn, lane, high, s),
                ShuffleForm::Packuswb => lemma_interleaves(insn, 0, true, s),
                ShuffleForm::PackVex(from, signed) => lemma_interleaves(insn, from, signed, s),
                ShuffleForm::Pblendw | ShuffleForm::PblendwVex => lemma_blends(insn, 0, s),
                ShuffleForm::Blendv(lane) => lemma_blends(insn, lane, s),
                ShuffleForm::Extend(from, to, signed) => lemma_widens(insn, from, to, signed, s),
                ShuffleForm::ExtendVex(from, to, signed) => lemma_widens(
                    insn,
                    from,
                    to,
                    signed,
                    s,
                ),
                ShuffleForm::Narrow(from, to) => lemma_widens(insn, from, to, true, s),
                ShuffleForm::Broadcast(elem) => lemma_widens(insn, elem, 0, true, s),
                ShuffleForm::Shufps | ShuffleForm::Shufpd => lemma_selects(insn, s),
                ShuffleForm::Insert128 | ShuffleForm::Extract128 => lemma_inserts(insn, s),
                ShuffleForm::InsertWide(two) => lemma_inserts(insn, s),
                ShuffleForm::ExtractWide(two) => lemma_inserts(insn, s),
                ShuffleForm::Permute2(elem, imode) => lemma_permutes(insn, elem, imode, s),
                ShuffleForm::Vpermd => lemma_permutes_vpermd(insn, s),
                ShuffleForm::Perm2i128 => lemma_permutes(insn, 0, true, s),
                ShuffleForm::Vpermq => {
                    reveal(permutes_vpermq);
                    lemma_permutes(insn, 8, true, s);
                },
                ShuffleForm::Vpermpd => {
                    reveal(permutes_vpermpd);
                    lemma_permutes(insn, 8, true, s);
                },
            }
        },
        None => {},
    }
}

/// Shuffles by an immediate or by indices, and rows of bytes or elements.
#[verifier::rlimit(50)]
pub proof fn law_shuffles(insn: &Insn, mode: CpuMode, s: Emission)
    ensures
        ({
            let s1 = dispatch::insn_ir(insn, mode, s).0;
            let name = insn.mnemonic;
            &&& name == mn::PSHUFD ==> shuffles_words(insn, s, s1)
            &&& name == mn::VPSHUFD ==> shuffles_words_wide(insn, s, s1)
            &&& name == mn::PSHUFLW ==> shuffles_half(insn, s, s1, false)
            &&& name == mn::PSHUFHW ==> shuffles_half(insn, s, s1, true)
            &&& name == mn::SHUFPS ==> selects_words(insn, s, s1)
            &&& name == mn::SHUFPD ==> selects_quads(insn, s, s1)
            &&& name == mn::VALIGND ==> aligns(insn, s, s1, 4)
            &&& name == mn::VALIGNQ ==> aligns(insn, s, s1, 8)
            &&& name == mn::PSHUFB ==> shuffles_bytes(insn, s, s1)
            &&& name == mn::VPSHUFB ==> shuffles_bytes_apart(insn, s, s1)
            &&& name == mn::PALIGNR ==> aligns_bytes(insn, s, s1)
            &&& name == mn::VPALIGNR ==> aligns_bytes_apart(insn, s, s1)
        }),
{
    lemma_formed(insn, mode, s);
    reveal(formed);
}

/// Interleaving of the low or high halves, packing with saturation, and blending.
#[verifier::rlimit(50)]
pub proof fn law_interleaving(insn: &Insn, mode: CpuMode, s: Emission)
    ensures
        ({
            let s1 = dispatch::insn_ir(insn, mode, s).0;
            let name = insn.mnemonic;
            &&& name == mn::PUNPCKLBW ==> interleaves(insn, s, s1, 1, false)
            &&& name == mn::PUNPCKLWD ==> interleaves(insn, s, s1, 2, false)
            &&& name == mn::PUNPCKLDQ ==> interleaves(insn, s, s1, 4, false)
            &&& name == mn::PUNPCKLQDQ ==> interleaves(insn, s, s1, 8, false)
            &&& name == mn::PUNPCKHBW ==> interleaves(insn, s, s1, 1, true)
            &&& name == mn::PUNPCKHWD ==> interleaves(insn, s, s1, 2, true)
            &&& name == mn::PUNPCKHDQ ==> interleaves(insn, s, s1, 4, true)
            &&& name == mn::PUNPCKHQDQ ==> interleaves(insn, s, s1, 8, true)
            &&& name == mn::UNPCKLPS ==> interleaves(insn, s, s1, 4, false)
            &&& name == mn::UNPCKHPS ==> interleaves(insn, s, s1, 4, true)
            &&& name == mn::UNPCKLPD ==> interleaves(insn, s, s1, 8, false)
            &&& name == mn::UNPCKHPD ==> interleaves(insn, s, s1, 8, true)
            &&& name == mn::VPUNPCKLBW ==> interleaves_apart(insn, s, s1, 1, false)
            &&& name == mn::VPUNPCKLWD ==> interleaves_apart(insn, s, s1, 2, false)
            &&& name == mn::VPUNPCKLDQ ==> interleaves_apart(insn, s, s1, 4, false)
            &&& name == mn::VPUNPCKLQDQ ==> interleaves_apart(insn, s, s1, 8, false)
            &&& name == mn::VPUNPCKHBW ==> interleaves_apart(insn, s, s1, 1, true)
            &&& name == mn::VPUNPCKHWD ==> interleaves_apart(insn, s, s1, 2, true)
            &&& name == mn::VPUNPCKHDQ ==> interleaves_apart(insn, s, s1, 4, true)
            &&& name == mn::VPUNPCKHQDQ ==> interleaves_apart(insn, s, s1, 8, true)
            &&& name == mn::VUNPCKLPS ==> interleaves_apart(insn, s, s1, 4, false)
            &&& name == mn::VUNPCKHPS ==> interleaves_apart(insn, s, s1, 4, true)
            &&& name == mn::VUNPCKLPD ==> interleaves_apart(insn, s, s1, 8, false)
            &&& name == mn::VUNPCKHPD ==> interleaves_apart(insn, s, s1, 8, true)
            &&& name == mn::PACKUSWB ==> packs(insn, s, s1)
            &&& name == mn::VPACKSSWB ==> packs_apart(insn, s, s1, 2, true)
            &&& name == mn::VPACKUSWB ==> packs_apart(insn, s, s1, 2, false)
            &&& name == mn::VPACKSSDW ==> packs_apart(insn, s, s1, 4, true)
            &&& name == mn::VPACKUSDW ==> packs_apart(insn, s, s1, 4, false)
            &&& name == mn::BLENDVPS ==> blends_by_sign(insn, s, s1, 4)
            &&& name == mn::BLENDVPD ==> blends_by_sign(insn, s, s1, 8)
            &&& name == mn::PBLENDVB ==> blends_by_sign(insn, s, s1, 1)
            &&& name == mn::VPBLENDW ==> blends_apart(insn, s, s1)
            &&& name == mn::PBLENDW ==> blends(insn, s, s1)
        }),
{
    lemma_formed(insn, mode, s);
    reveal(formed);
}

/// Elements made wider by sign or zeros, cut, or spread. The letters of the name are the
/// elements: before and after.
#[verifier::rlimit(50)]
pub proof fn law_element_widths(insn: &Insn, mode: CpuMode, s: Emission)
    ensures
        ({
            let s1 = dispatch::insn_ir(insn, mode, s).0;
            let name = insn.mnemonic;
            &&& name == mn::PMOVZXBW ==> widens(insn, s, s1, 1, 2, false)
            &&& name == mn::PMOVZXBD ==> widens(insn, s, s1, 1, 4, false)
            &&& name == mn::PMOVZXBQ ==> widens(insn, s, s1, 1, 8, false)
            &&& name == mn::PMOVZXWD ==> widens(insn, s, s1, 2, 4, false)
            &&& name == mn::PMOVZXWQ ==> widens(insn, s, s1, 2, 8, false)
            &&& name == mn::PMOVZXDQ ==> widens(insn, s, s1, 4, 8, false)
            &&& name == mn::PMOVSXBW ==> widens(insn, s, s1, 1, 2, true)
            &&& name == mn::PMOVSXBD ==> widens(insn, s, s1, 1, 4, true)
            &&& name == mn::PMOVSXBQ ==> widens(insn, s, s1, 1, 8, true)
            &&& name == mn::PMOVSXWD ==> widens(insn, s, s1, 2, 4, true)
            &&& name == mn::PMOVSXWQ ==> widens(insn, s, s1, 2, 8, true)
            &&& name == mn::PMOVSXDQ ==> widens(insn, s, s1, 4, 8, true)
            &&& name == mn::VPMOVZXBW ==> widens_wide(insn, s, s1, 1, 2, false)
            &&& name == mn::VPMOVZXBD ==> widens_wide(insn, s, s1, 1, 4, false)
            &&& name == mn::VPMOVZXBQ ==> widens_wide(insn, s, s1, 1, 8, false)
            &&& name == mn::VPMOVZXWD ==> widens_wide(insn, s, s1, 2, 4, false)
            &&& name == mn::VPMOVZXWQ ==> widens_wide(insn, s, s1, 2, 8, false)
            &&& name == mn::VPMOVZXDQ ==> widens_wide(insn, s, s1, 4, 8, false)
            &&& name == mn::VPMOVSXBW ==> widens_wide(insn, s, s1, 1, 2, true)
            &&& name == mn::VPMOVSXBD ==> widens_wide(insn, s, s1, 1, 4, true)
            &&& name == mn::VPMOVSXBQ ==> widens_wide(insn, s, s1, 1, 8, true)
            &&& name == mn::VPMOVSXWD ==> widens_wide(insn, s, s1, 2, 4, true)
            &&& name == mn::VPMOVSXWQ ==> widens_wide(insn, s, s1, 2, 8, true)
            &&& name == mn::VPMOVSXDQ ==> widens_wide(insn, s, s1, 4, 8, true)
            &&& name == mn::VPMOVQD ==> narrows(insn, s, s1, 8, 4)
            &&& name == mn::VPMOVQW ==> narrows(insn, s, s1, 8, 2)
            &&& name == mn::VPMOVQB ==> narrows(insn, s, s1, 8, 1)
            &&& name == mn::VPMOVDW ==> narrows(insn, s, s1, 4, 2)
            &&& name == mn::VPMOVDB ==> narrows(insn, s, s1, 4, 1)
            &&& name == mn::VPMOVWB ==> narrows(insn, s, s1, 2, 1)
            &&& name == mn::VPBROADCASTB ==> spreads(insn, s, s1, 1)
            &&& name == mn::VPBROADCASTW ==> spreads(insn, s, s1, 2)
            &&& name == mn::VPBROADCASTD ==> spreads(insn, s, s1, 4)
            &&& name == mn::VPBROADCASTQ ==> spreads(insn, s, s1, 8)
            &&& name == mn::VBROADCASTSS ==> spreads(insn, s, s1, 4)
            &&& name == mn::VBROADCASTSD ==> spreads(insn, s, s1, 8)
        }),
{
    lemma_formed(insn, mode, s);
    reveal(formed);
}

/// Lanes of 128 bits put in and taken out, and permutes.
#[verifier::rlimit(50)]
pub proof fn law_permutes(insn: &Insn, mode: CpuMode, s: Emission)
    ensures
        ({
            let s1 = dispatch::insn_ir(insn, mode, s).0;
            let name = insn.mnemonic;
            &&& name == mn::VPERMT2B ==> permutes_two(insn, s, s1, 1, false)
            &&& name == mn::VPERMT2W ==> permutes_two(insn, s, s1, 2, false)
            &&& name == mn::VPERMT2D ==> permutes_two(insn, s, s1, 4, false)
            &&& name == mn::VPERMT2Q ==> permutes_two(insn, s, s1, 8, false)
            &&& name == mn::VPERMI2B ==> permutes_two(insn, s, s1, 1, true)
            &&& name == mn::VPERMI2W ==> permutes_two(insn, s, s1, 2, true)
            &&& name == mn::VPERMI2D ==> permutes_two(insn, s, s1, 4, true)
            &&& name == mn::VPERMI2Q ==> permutes_two(insn, s, s1, 8, true)
            &&& name == mn::VINSERTI32X4 ==> inserts_wide(insn, s, s1, 1)
            &&& name == mn::VINSERTF32X4 ==> inserts_wide(insn, s, s1, 1)
            &&& name == mn::VINSERTI64X2 ==> inserts_wide(insn, s, s1, 1)
            &&& name == mn::VINSERTF64X2 ==> inserts_wide(insn, s, s1, 1)
            &&& name == mn::VINSERTI64X4 ==> inserts_wide(insn, s, s1, 2)
            &&& name == mn::VINSERTF64X4 ==> inserts_wide(insn, s, s1, 2)
            &&& name == mn::VINSERTI32X8 ==> inserts_wide(insn, s, s1, 2)
            &&& name == mn::VINSERTF32X8 ==> inserts_wide(insn, s, s1, 2)
            &&& name == mn::VEXTRACTI32X4 ==> extracts_wide(insn, s, s1, 1)
            &&& name == mn::VEXTRACTF32X4 ==> extracts_wide(insn, s, s1, 1)
            &&& name == mn::VEXTRACTI64X2 ==> extracts_wide(insn, s, s1, 1)
            &&& name == mn::VEXTRACTF64X2 ==> extracts_wide(insn, s, s1, 1)
            &&& name == mn::VEXTRACTI64X4 ==> extracts_wide(insn, s, s1, 2)
            &&& name == mn::VEXTRACTF64X4 ==> extracts_wide(insn, s, s1, 2)
            &&& name == mn::VEXTRACTI32X8 ==> extracts_wide(insn, s, s1, 2)
            &&& name == mn::VEXTRACTF32X8 ==> extracts_wide(insn, s, s1, 2)
            &&& name == mn::VPERMQ ==> permutes_vpermq(insn, s, s1)
            &&& name == mn::VINSERTI128 ==> inserts(insn, s, s1)
            &&& name == mn::VINSERTF128 ==> inserts(insn, s, s1)
            &&& name == mn::VEXTRACTI128 ==> extracts(insn, s, s1)
            &&& name == mn::VEXTRACTF128 ==> extracts(insn, s, s1)
            &&& name == mn::VPERMPD ==> permutes_vpermpd(insn, s, s1)
            &&& name == mn::VPERMD ==> permutes_vpermd(insn, s, s1)
            &&& name == mn::VPERM2I128 ==> permutes_lanes(insn, s, s1)
            &&& name == mn::VPERM2F128 ==> permutes_lanes(insn, s, s1)
        }),
{
    lemma_formed(insn, mode, s);
    reveal(formed);
}

} // verus!
