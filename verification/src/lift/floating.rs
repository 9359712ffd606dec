//! What floating-point vector instructions emit, by their names.
use crate::insn::{Insn, Operand};
use crate::ir::{FPrec, FloatBinOp, FloatUnOp, IrOp, Val};
use crate::lift::emit::Emission;
use crate::lift::table::{ConvertForm, FloatForm};
use crate::lift::{dispatch, operand, table, vector, vfloat, CpuMode};
use crate::mnemonic as mn;
use vstd::prelude::*;

verus! {

broadcast use operand::group_failed;

// --- arithmetic ---

/// The destination and the source go through `op`, and the result stays in the destination.
#[verifier::opaque]
pub open spec fn computes(
    insn: &Insn,
    s: Emission,
    s1: Emission,
    op: FloatBinOp,
    prec: FPrec,
    scalar: bool,
) -> bool {
    match vector::xmm(insn.op0) {
        None => !s1.ok,
        Some(d) => vector::by_source(
            insn,
            insn.op1,
            vector::xmm(insn.op1),
            s,
            s1,
            |b: u8| seq![IrOp::VFloatBin { dst: d, a: d, b, op, prec, scalar }],
            |addr: Val| seq![IrOp::VFloatBinM { dst: d, addr, op, prec, scalar }],
        ),
    }
}

/// The two sources go through `op`, and the destination takes the result; the bits above 128
/// are cleared.
#[verifier::opaque]
pub open spec fn computes_apart(
    insn: &Insn,
    s: Emission,
    s1: Emission,
    op: FloatBinOp,
    prec: FPrec,
    scalar: bool,
) -> bool {
    match (vector::xmm(insn.op0), vector::xmm(insn.op1)) {
        (Some(d), Some(a)) => vector::by_source(
            insn,
            insn.op2,
            vector::xmm(insn.op2),
            s,
            s1,
            |b: u8| seq![
                IrOp::VFloatBin { dst: d, a, b, op, prec, scalar },
                IrOp::VZeroUpper { reg: d },
            ],
            |addr: Val| vector::in_place(
                d,
                a,
                IrOp::VFloatBinM { dst: d, addr, op, prec, scalar },
            ),
        ),
        _ => !s1.ok,
    }
}

proof fn lemma_computes(insn: &Insn, op: FloatBinOp, prec: FPrec, scalar: bool, s: Emission)
    ensures
        computes(insn, s, vfloat::float_bin(insn, op, prec, scalar, s), op, prec, scalar),
        computes_apart(insn, s, vfloat::vfloat_bin(insn, op, prec, scalar, s), op, prec, scalar),
{
    reveal(computes);
    reveal(computes_apart);
    reveal(vfloat::float_bin);
    reveal(vfloat::vfloat_bin);
}

/// What the table says of an arithmetic instruction is what it emits.
proof fn lemma_arithmetic(insn: &Insn, mode: CpuMode, s: Emission)
    ensures
        ({
            let s1 = dispatch::insn_ir(insn, mode, s).0;
            match table::float_form(insn.mnemonic) {
                Some(FloatForm::Bin(op, prec, scalar)) => computes(insn, s, s1, op, prec, scalar),
                Some(FloatForm::BinVex(op, prec, scalar)) => computes_apart(
                    insn,
                    s,
                    s1,
                    op,
                    prec,
                    scalar,
                ),
                _ => true,
            }
        }),
{
    match table::float_form(insn.mnemonic) {
        Some(form) => {
            vector::lemma_float(insn, mode, s, form);
            match form {
                FloatForm::Bin(op, prec, scalar) => lemma_computes(insn, op, prec, scalar, s),
                FloatForm::BinVex(op, prec, scalar) => lemma_computes(insn, op, prec, scalar, s),
                _ => {},
            }
        },
        None => {},
    }
}

/// The eight additions add: singles for `s` and doubles for `d` at the end of the name, in one
/// lane for `s` before it and in all for `p`. Those with a `v` keep their sources apart from
/// the destination.
pub proof fn law_additions(insn: &Insn, mode: CpuMode, s: Emission)
    ensures
        ({
            let s1 = dispatch::insn_ir(insn, mode, s).0;
            let name = insn.mnemonic;
            &&& name == mn::ADDSS ==> computes(insn, s, s1, FloatBinOp::Add, FPrec::F32, true)
            &&& name == mn::ADDSD ==> computes(insn, s, s1, FloatBinOp::Add, FPrec::F64, true)
            &&& name == mn::ADDPS ==> computes(insn, s, s1, FloatBinOp::Add, FPrec::F32, false)
            &&& name == mn::ADDPD ==> computes(insn, s, s1, FloatBinOp::Add, FPrec::F64, false)
            &&& name == mn::VADDSS ==> computes_apart(
                insn,
                s,
                s1,
                FloatBinOp::Add,
                FPrec::F32,
                true,
            )
            &&& name == mn::VADDSD ==> computes_apart(
                insn,
                s,
                s1,
                FloatBinOp::Add,
                FPrec::F64,
                true,
            )
            &&& name == mn::VADDPS ==> computes_apart(
                insn,
                s,
                s1,
                FloatBinOp::Add,
                FPrec::F32,
                false,
            )
            &&& name == mn::VADDPD ==> computes_apart(
                insn,
                s,
                s1,
                FloatBinOp::Add,
                FPrec::F64,
                false,
            )
        }),
{
    lemma_arithmetic(insn, mode, s);
}

/// The eight subtractions subtract: singles for `s` and doubles for `d` at the end of the name, in one
/// lane for `s` before it and in all for `p`. Those with a `v` keep their sources apart from
/// the destination.
pub proof fn law_subtractions(insn: &Insn, mode: CpuMode, s: Emission)
    ensures
        ({
            let s1 = dispatch::insn_ir(insn, mode, s).0;
            let name = insn.mnemonic;
            &&& name == mn::SUBSS ==> computes(insn, s, s1, FloatBinOp::Sub, FPrec::F32, true)
            &&& name == mn::SUBSD ==> computes(insn, s, s1, FloatBinOp::Sub, FPrec::F64, true)
            &&& name == mn::SUBPS ==> computes(insn, s, s1, FloatBinOp::Sub, FPrec::F32, false)
            &&& name == mn::SUBPD ==> computes(insn, s, s1, FloatBinOp::Sub, FPrec::F64, false)
            &&& name == mn::VSUBSS ==> computes_apart(
                insn,
                s,
                s1,
                FloatBinOp::Sub,
                FPrec::F32,
                true,
            )
            &&& name == mn::VSUBSD ==> computes_apart(
                insn,
                s,
                s1,
                FloatBinOp::Sub,
                FPrec::F64,
                true,
            )
            &&& name == mn::VSUBPS ==> computes_apart(
                insn,
                s,
                s1,
                FloatBinOp::Sub,
                FPrec::F32,
                false,
            )
            &&& name == mn::VSUBPD ==> computes_apart(
                insn,
                s,
                s1,
                FloatBinOp::Sub,
                FPrec::F64,
                false,
            )
        }),
{
    lemma_arithmetic(insn, mode, s);
}

/// The eight multiplications multiply: singles for `s` and doubles for `d` at the end of the name, in one
/// lane for `s` before it and in all for `p`. Those with a `v` keep their sources apart from
/// the destination.
pub proof fn law_multiplications(insn: &Insn, mode: CpuMode, s: Emission)
    ensures
        ({
            let s1 = dispatch::insn_ir(insn, mode, s).0;
            let name = insn.mnemonic;
            &&& name == mn::MULSS ==> computes(insn, s, s1, FloatBinOp::Mul, FPrec::F32, true)
            &&& name == mn::MULSD ==> computes(insn, s, s1, FloatBinOp::Mul, FPrec::F64, true)
            &&& name == mn::MULPS ==> computes(insn, s, s1, FloatBinOp::Mul, FPrec::F32, false)
            &&& name == mn::MULPD ==> computes(insn, s, s1, FloatBinOp::Mul, FPrec::F64, false)
            &&& name == mn::VMULSS ==> computes_apart(
                insn,
                s,
                s1,
                FloatBinOp::Mul,
                FPrec::F32,
                true,
            )
            &&& name == mn::VMULSD ==> computes_apart(
                insn,
                s,
                s1,
                FloatBinOp::Mul,
                FPrec::F64,
                true,
            )
            &&& name == mn::VMULPS ==> computes_apart(
                insn,
                s,
                s1,
                FloatBinOp::Mul,
                FPrec::F32,
                false,
            )
            &&& name == mn::VMULPD ==> computes_apart(
                insn,
                s,
                s1,
                FloatBinOp::Mul,
                FPrec::F64,
                false,
            )
        }),
{
    lemma_arithmetic(insn, mode, s);
}

/// The eight divisions divide: singles for `s` and doubles for `d` at the end of the name, in one
/// lane for `s` before it and in all for `p`. Those with a `v` keep their sources apart from
/// the destination.
pub proof fn law_divisions(insn: &Insn, mode: CpuMode, s: Emission)
    ensures
        ({
            let s1 = dispatch::insn_ir(insn, mode, s).0;
            let name = insn.mnemonic;
            &&& name == mn::DIVSS ==> computes(insn, s, s1, FloatBinOp::Div, FPrec::F32, true)
            &&& name == mn::DIVSD ==> computes(insn, s, s1, FloatBinOp::Div, FPrec::F64, true)
            &&& name == mn::DIVPS ==> computes(insn, s, s1, FloatBinOp::Div, FPrec::F32, false)
            &&& name == mn::DIVPD ==> computes(insn, s, s1, FloatBinOp::Div, FPrec::F64, false)
            &&& name == mn::VDIVSS ==> computes_apart(
                insn,
                s,
                s1,
                FloatBinOp::Div,
                FPrec::F32,
                true,
            )
            &&& name == mn::VDIVSD ==> computes_apart(
                insn,
                s,
                s1,
                FloatBinOp::Div,
                FPrec::F64,
                true,
            )
            &&& name == mn::VDIVPS ==> computes_apart(
                insn,
                s,
                s1,
                FloatBinOp::Div,
                FPrec::F32,
                false,
            )
            &&& name == mn::VDIVPD ==> computes_apart(
                insn,
                s,
                s1,
                FloatBinOp::Div,
                FPrec::F64,
                false,
            )
        }),
{
    lemma_arithmetic(insn, mode, s);
}

/// The eight minima take the less: singles for `s` and doubles for `d` at the end of the name, in one
/// lane for `s` before it and in all for `p`. Those with a `v` keep their sources apart from
/// the destination.
pub proof fn law_minima(insn: &Insn, mode: CpuMode, s: Emission)
    ensures
        ({
            let s1 = dispatch::insn_ir(insn, mode, s).0;
            let name = insn.mnemonic;
            &&& name == mn::MINSS ==> computes(insn, s, s1, FloatBinOp::Min, FPrec::F32, true)
            &&& name == mn::MINSD ==> computes(insn, s, s1, FloatBinOp::Min, FPrec::F64, true)
            &&& name == mn::MINPS ==> computes(insn, s, s1, FloatBinOp::Min, FPrec::F32, false)
            &&& name == mn::MINPD ==> computes(insn, s, s1, FloatBinOp::Min, FPrec::F64, false)
            &&& name == mn::VMINSS ==> computes_apart(
                insn,
                s,
                s1,
                FloatBinOp::Min,
                FPrec::F32,
                true,
            )
            &&& name == mn::VMINSD ==> computes_apart(
                insn,
                s,
                s1,
                FloatBinOp::Min,
                FPrec::F64,
                true,
            )
            &&& name == mn::VMINPS ==> computes_apart(
                insn,
                s,
                s1,
                FloatBinOp::Min,
                FPrec::F32,
                false,
            )
            &&& name == mn::VMINPD ==> computes_apart(
                insn,
                s,
                s1,
                FloatBinOp::Min,
                FPrec::F64,
                false,
            )
        }),
{
    lemma_arithmetic(insn, mode, s);
}

/// The eight maxima take the greater: singles for `s` and doubles for `d` at the end of the name, in one
/// lane for `s` before it and in all for `p`. Those with a `v` keep their sources apart from
/// the destination.
pub proof fn law_maxima(insn: &Insn, mode: CpuMode, s: Emission)
    ensures
        ({
            let s1 = dispatch::insn_ir(insn, mode, s).0;
            let name = insn.mnemonic;
            &&& name == mn::MAXSS ==> computes(insn, s, s1, FloatBinOp::Max, FPrec::F32, true)
            &&& name == mn::MAXSD ==> computes(insn, s, s1, FloatBinOp::Max, FPrec::F64, true)
            &&& name == mn::MAXPS ==> computes(insn, s, s1, FloatBinOp::Max, FPrec::F32, false)
            &&& name == mn::MAXPD ==> computes(insn, s, s1, FloatBinOp::Max, FPrec::F64, false)
            &&& name == mn::VMAXSS ==> computes_apart(
                insn,
                s,
                s1,
                FloatBinOp::Max,
                FPrec::F32,
                true,
            )
            &&& name == mn::VMAXSD ==> computes_apart(
                insn,
                s,
                s1,
                FloatBinOp::Max,
                FPrec::F64,
                true,
            )
            &&& name == mn::VMAXPS ==> computes_apart(
                insn,
                s,
                s1,
                FloatBinOp::Max,
                FPrec::F32,
                false,
            )
            &&& name == mn::VMAXPD ==> computes_apart(
                insn,
                s,
                s1,
                FloatBinOp::Max,
                FPrec::F64,
                false,
            )
        }),
{
    lemma_arithmetic(insn, mode, s);
}

/// The arithmetic that an instruction is named for.
pub open spec fn arithmetic_of(name: u16) -> Option<FloatBinOp> {
    if name == mn::ADDSS || name == mn::ADDSD || name == mn::ADDPS || name == mn::ADDPD || name == mn::VADDSS || name == mn::VADDSD || name == mn::VADDPS || name == mn::VADDPD {
        Some(FloatBinOp::Add)
    } else if name == mn::SUBSS || name == mn::SUBSD || name == mn::SUBPS || name == mn::SUBPD || name == mn::VSUBSS || name == mn::VSUBSD || name == mn::VSUBPS || name == mn::VSUBPD {
        Some(FloatBinOp::Sub)
    } else if name == mn::MULSS || name == mn::MULSD || name == mn::MULPS || name == mn::MULPD || name == mn::VMULSS || name == mn::VMULSD || name == mn::VMULPS || name == mn::VMULPD {
        Some(FloatBinOp::Mul)
    } else if name == mn::DIVSS || name == mn::DIVSD || name == mn::DIVPS || name == mn::DIVPD || name == mn::VDIVSS || name == mn::VDIVSD || name == mn::VDIVPS || name == mn::VDIVPD {
        Some(FloatBinOp::Div)
    } else if name == mn::MINSS || name == mn::MINSD || name == mn::MINPS || name == mn::MINPD || name == mn::VMINSS || name == mn::VMINSD || name == mn::VMINPS || name == mn::VMINPD {
        Some(FloatBinOp::Min)
    } else if name == mn::MAXSS || name == mn::MAXSD || name == mn::MAXPS || name == mn::MAXPD || name == mn::VMAXSS || name == mn::VMAXSD || name == mn::VMAXPS || name == mn::VMAXPD {
        Some(FloatBinOp::Max)
    } else {
        None
    }
}

/// Instructions of different arithmetic, on the same operands, never emit the same.
pub proof fn law_arithmetic_differs(
    one: &Insn,
    other: &Insn,
    mode: CpuMode,
    s: Emission,
)
    requires
        s.ok,
        arithmetic_of(one.mnemonic) is Some,
        arithmetic_of(other.mnemonic) is Some,
        arithmetic_of(one.mnemonic) != arithmetic_of(other.mnemonic),
        dispatch::insn_ir(one, mode, s).0.ok,
        dispatch::insn_ir(other, mode, s).0.ok,
        vector::xmm(one.op0) is Some,
        vector::xmm(one.op1) is Some,
        vector::xmm(one.op2) is Some,
        one.op0 == other.op0,
        one.op1 == other.op1,
        one.op2 == other.op2,
    ensures
        dispatch::insn_ir(one, mode, s).0.ops != dispatch::insn_ir(other, mode, s).0.ops,
{
    let a = dispatch::insn_ir(one, mode, s).0.ops;
    let b = dispatch::insn_ir(other, mode, s).0.ops;
    lemma_first_operation(one, mode, s);
    lemma_first_operation(other, mode, s);
    assert(a[s.ops.len() as int] != b[s.ops.len() as int]);
}

/// With registers the first operation is the arithmetic that the name says.
proof fn lemma_first_operation(insn: &Insn, mode: CpuMode, s: Emission)
    requires
        s.ok,
        arithmetic_of(insn.mnemonic) is Some,
        vector::xmm(insn.op0) is Some,
        vector::xmm(insn.op1) is Some,
        vector::xmm(insn.op2) is Some,
    ensures
        ({
            let ops = dispatch::insn_ir(insn, mode, s).0.ops;
            &&& ops.len() > s.ops.len()
            &&& ops[s.ops.len() as int] matches IrOp::VFloatBin { op, .. }
            &&& Some(op) == arithmetic_of(insn.mnemonic)
        }),
{
    reveal(computes);
    reveal(computes_apart);
    law_additions(insn, mode, s);
    law_subtractions(insn, mode, s);
    law_multiplications(insn, mode, s);
    law_divisions(insn, mode, s);
    law_minima(insn, mode, s);
    law_maxima(insn, mode, s);
}

// --- roots and reciprocals ---

/// `op` of the source goes into the destination, whose other lanes stay where one lane is meant.
#[verifier::opaque]
pub open spec fn maps(
    insn: &Insn,
    s: Emission,
    s1: Emission,
    op: FloatUnOp,
    prec: FPrec,
    scalar: bool,
) -> bool {
    match (vector::xmm(insn.op0), vector::xmm(insn.op1)) {
        (Some(d), Some(src)) => vector::extends(
            s,
            s1,
            seq![IrOp::VFloatUnary { dst: d, a: d, src, op, prec, scalar }],
        ),
        _ => !s1.ok,
    }
}

/// `op` of the low lane of the second source; the other lanes are those of the first.
#[verifier::opaque]
pub open spec fn maps_apart(
    insn: &Insn,
    s: Emission,
    s1: Emission,
    op: FloatUnOp,
    prec: FPrec,
) -> bool {
    match (vector::xmm(insn.op0), vector::xmm(insn.op1), vector::xmm(insn.op2)) {
        (Some(d), Some(a), Some(src)) => vector::extends(
            s,
            s1,
            seq![
                IrOp::VFloatUnary { dst: d, a, src, op, prec, scalar: true },
                IrOp::VZeroUpper { reg: d },
            ],
        ),
        _ => !s1.ok,
    }
}

proof fn lemma_maps(insn: &Insn, op: FloatUnOp, prec: FPrec, scalar: bool, s: Emission)
    ensures
        maps(insn, s, vfloat::float_unary(insn, op, prec, scalar, s), op, prec, scalar),
        maps_apart(insn, s, vfloat::vfloat_unary_scalar(insn, op, prec, s), op, prec),
{
    reveal(maps);
    reveal(maps_apart);
    reveal(vfloat::float_unary);
    reveal(vfloat::vfloat_unary_scalar);
}

/// Square roots, and the approximate reciprocals of a root and of a number.
pub proof fn law_roots(insn: &Insn, mode: CpuMode, s: Emission)
    ensures
        ({
            let s1 = dispatch::insn_ir(insn, mode, s).0;
            let name = insn.mnemonic;
            &&& name == mn::SQRTSS ==> maps(insn, s, s1, FloatUnOp::Sqrt, FPrec::F32, true)
            &&& name == mn::SQRTSD ==> maps(insn, s, s1, FloatUnOp::Sqrt, FPrec::F64, true)
            &&& name == mn::SQRTPS ==> maps(insn, s, s1, FloatUnOp::Sqrt, FPrec::F32, false)
            &&& name == mn::SQRTPD ==> maps(insn, s, s1, FloatUnOp::Sqrt, FPrec::F64, false)
            &&& name == mn::VSQRTSS ==> maps_apart(insn, s, s1, FloatUnOp::Sqrt, FPrec::F32)
            &&& name == mn::VSQRTSD ==> maps_apart(insn, s, s1, FloatUnOp::Sqrt, FPrec::F64)
            &&& name == mn::VRSQRTSS ==> maps_apart(insn, s, s1, FloatUnOp::Rsqrt, FPrec::F32)
            &&& name == mn::VRCPSS ==> maps_apart(insn, s, s1, FloatUnOp::Rcp, FPrec::F32)
        }),
{
    match table::float_form(insn.mnemonic) {
        Some(form) => {
            vector::lemma_float(insn, mode, s, form);
            match form {
                FloatForm::Unary(op, prec, scalar) => lemma_maps(insn, op, prec, scalar, s),
                FloatForm::UnaryVex(op, prec) => lemma_maps(insn, op, prec, true, s),
                _ => {},
            }
        },
        None => {},
    }
}

// --- fused multiplication and addition ---

/// One of the three operands, counted from 1.
pub open spec fn nth(n: int, first: u8, second: u8, third: u8) -> u8 {
    if n == 1 {
        first
    } else if n == 2 {
        second
    } else {
        third
    }
}

/// Operand `x` times operand `y`, plus operand `z`, into the first operand; operands are
/// counted from 1. The product or the addend changes its sign where the name says so. Memory
/// can only stand third; its place among the factors is marked.
#[verifier::opaque]
pub open spec fn fuses(
    insn: &Insn,
    s: Emission,
    s1: Emission,
    x: int,
    y: int,
    z: int,
    prec: FPrec,
    scalar: bool,
    neg_prod: bool,
    neg_add: bool,
) -> bool {
    let bytes = vector::wide(insn.op0);
    if vector::masked(insn) {
        !s1.ok
    } else {
        match (vector::vector(insn.op0), vector::vector(insn.op1)) {
            (Some(d), Some(a)) => if vector::memory(insn.op2) {
                let (s2, addr) = operand::address(insn, s);
                vector::extends(
                    s2,
                    s1,
                    seq![
                        IrOp::VFmaM {
                            dst: d,
                            x: nth(x, d, a, 0),
                            y: nth(y, d, a, 0),
                            z: nth(z, d, a, 0),
                            addr,
                            mem_role: if y == 3 {
                                1
                            } else {
                                2
                            },
                            prec,
                            scalar,
                            neg_prod,
                            neg_add,
                            bytes,
                            writemask: None,
                            zeroing: false,
                        },
                    ],
                )
            } else {
                match vector::vector(insn.op2) {
                    Some(b) => vector::extends(
                        s,
                        s1,
                        seq![
                            IrOp::VFma {
                                dst: d,
                                x: nth(x, d, a, b),
                                y: nth(y, d, a, b),
                                z: nth(z, d, a, b),
                                prec,
                                scalar,
                                neg_prod,
                                neg_add,
                                bytes,
                                writemask: None,
                                zeroing: false,
                            },
                        ],
                    ),
                    None => !s1.ok,
                }
            },
            _ => !s1.ok,
        }
    }
}

proof fn lemma_fuses(
    insn: &Insn,
    prec: FPrec,
    scalar: bool,
    neg_prod: bool,
    neg_add: bool,
    s: Emission,
)
    ensures
        fuses(
            insn,
            s,
            vfloat::fma(insn, 132, prec, scalar, neg_prod, neg_add, s),
            1,
            3,
            2,
            prec,
            scalar,
            neg_prod,
            neg_add,
        ),
        fuses(
            insn,
            s,
            vfloat::fma(insn, 213, prec, scalar, neg_prod, neg_add, s),
            2,
            1,
            3,
            prec,
            scalar,
            neg_prod,
            neg_add,
        ),
        fuses(
            insn,
            s,
            vfloat::fma(insn, 231, prec, scalar, neg_prod, neg_add, s),
            2,
            3,
            1,
            prec,
            scalar,
            neg_prod,
            neg_add,
        ),
{
    reveal(fuses);
    reveal(vfloat::fma);
}

proof fn lemma_fused(insn: &Insn, mode: CpuMode, s: Emission)
    ensures
        ({
            let s1 = dispatch::insn_ir(insn, mode, s).0;
            match table::float_form(insn.mnemonic) {
                Some(FloatForm::Fma(order, prec, scalar, neg_prod, neg_add)) => {
                    &&& order == 132 ==> fuses(
                        insn, s, s1, 1, 3, 2, prec, scalar, neg_prod, neg_add,
                    )
                    &&& order == 213 ==> fuses(
                        insn, s, s1, 2, 1, 3, prec, scalar, neg_prod, neg_add,
                    )
                    &&& order == 231 ==> fuses(
                        insn, s, s1, 2, 3, 1, prec, scalar, neg_prod, neg_add,
                    )
                },
                _ => true,
            }
        }),
{
    match table::float_form(insn.mnemonic) {
        Some(form) => {
            vector::lemma_float(insn, mode, s, form);
            if let FloatForm::Fma(order, prec, scalar, neg_prod, neg_add) = form {
                lemma_fuses(insn, prec, scalar, neg_prod, neg_add, s);
            }
        },
        None => {},
    }
}

/// The product and the addend are added: the first two digits of the name are the factors, the third is
/// the addend.
pub proof fn law_fmadd(insn: &Insn, mode: CpuMode, s: Emission)
    ensures
        ({
            let s1 = dispatch::insn_ir(insn, mode, s).0;
            let name = insn.mnemonic;
            &&& name == mn::VFMADD132SS ==> fuses(
                insn, s, s1, 1, 3, 2, FPrec::F32, true, false, false,
            )
            &&& name == mn::VFMADD132SD ==> fuses(
                insn, s, s1, 1, 3, 2, FPrec::F64, true, false, false,
            )
            &&& name == mn::VFMADD132PS ==> fuses(
                insn, s, s1, 1, 3, 2, FPrec::F32, false, false, false,
            )
            &&& name == mn::VFMADD132PD ==> fuses(
                insn, s, s1, 1, 3, 2, FPrec::F64, false, false, false,
            )
            &&& name == mn::VFMADD213SS ==> fuses(
                insn, s, s1, 2, 1, 3, FPrec::F32, true, false, false,
            )
            &&& name == mn::VFMADD213SD ==> fuses(
                insn, s, s1, 2, 1, 3, FPrec::F64, true, false, false,
            )
            &&& name == mn::VFMADD213PS ==> fuses(
                insn, s, s1, 2, 1, 3, FPrec::F32, false, false, false,
            )
            &&& name == mn::VFMADD213PD ==> fuses(
                insn, s, s1, 2, 1, 3, FPrec::F64, false, false, false,
            )
            &&& name == mn::VFMADD231SS ==> fuses(
                insn, s, s1, 2, 3, 1, FPrec::F32, true, false, false,
            )
            &&& name == mn::VFMADD231SD ==> fuses(
                insn, s, s1, 2, 3, 1, FPrec::F64, true, false, false,
            )
            &&& name == mn::VFMADD231PS ==> fuses(
                insn, s, s1, 2, 3, 1, FPrec::F32, false, false, false,
            )
            &&& name == mn::VFMADD231PD ==> fuses(
                insn, s, s1, 2, 3, 1, FPrec::F64, false, false, false,
            )
        }),
{
    lemma_fused(insn, mode, s);
}

/// The addend is taken from the product: the first two digits of the name are the factors, the third is
/// the addend.
pub proof fn law_fmsub(insn: &Insn, mode: CpuMode, s: Emission)
    ensures
        ({
            let s1 = dispatch::insn_ir(insn, mode, s).0;
            let name = insn.mnemonic;
            &&& name == mn::VFMSUB132SS ==> fuses(
                insn, s, s1, 1, 3, 2, FPrec::F32, true, false, true,
            )
            &&& name == mn::VFMSUB132SD ==> fuses(
                insn, s, s1, 1, 3, 2, FPrec::F64, true, false, true,
            )
            &&& name == mn::VFMSUB132PS ==> fuses(
                insn, s, s1, 1, 3, 2, FPrec::F32, false, false, true,
            )
            &&& name == mn::VFMSUB132PD ==> fuses(
                insn, s, s1, 1, 3, 2, FPrec::F64, false, false, true,
            )
            &&& name == mn::VFMSUB213SS ==> fuses(
                insn, s, s1, 2, 1, 3, FPrec::F32, true, false, true,
            )
            &&& name == mn::VFMSUB213SD ==> fuses(
                insn, s, s1, 2, 1, 3, FPrec::F64, true, false, true,
            )
            &&& name == mn::VFMSUB213PS ==> fuses(
                insn, s, s1, 2, 1, 3, FPrec::F32, false, false, true,
            )
            &&& name == mn::VFMSUB213PD ==> fuses(
                insn, s, s1, 2, 1, 3, FPrec::F64, false, false, true,
            )
            &&& name == mn::VFMSUB231SS ==> fuses(
                insn, s, s1, 2, 3, 1, FPrec::F32, true, false, true,
            )
            &&& name == mn::VFMSUB231SD ==> fuses(
                insn, s, s1, 2, 3, 1, FPrec::F64, true, false, true,
            )
            &&& name == mn::VFMSUB231PS ==> fuses(
                insn, s, s1, 2, 3, 1, FPrec::F32, false, false, true,
            )
            &&& name == mn::VFMSUB231PD ==> fuses(
                insn, s, s1, 2, 3, 1, FPrec::F64, false, false, true,
            )
        }),
{
    lemma_fused(insn, mode, s);
}

/// The product is taken from the addend: the first two digits of the name are the factors, the third is
/// the addend.
pub proof fn law_fnmadd(insn: &Insn, mode: CpuMode, s: Emission)
    ensures
        ({
            let s1 = dispatch::insn_ir(insn, mode, s).0;
            let name = insn.mnemonic;
            &&& name == mn::VFNMADD132SS ==> fuses(
                insn, s, s1, 1, 3, 2, FPrec::F32, true, true, false,
            )
            &&& name == mn::VFNMADD132SD ==> fuses(
                insn, s, s1, 1, 3, 2, FPrec::F64, true, true, false,
            )
            &&& name == mn::VFNMADD132PS ==> fuses(
                insn, s, s1, 1, 3, 2, FPrec::F32, false, true, false,
            )
            &&& name == mn::VFNMADD132PD ==> fuses(
                insn, s, s1, 1, 3, 2, FPrec::F64, false, true, false,
            )
            &&& name == mn::VFNMADD213SS ==> fuses(
                insn, s, s1, 2, 1, 3, FPrec::F32, true, true, false,
            )
            &&& name == mn::VFNMADD213SD ==> fuses(
                insn, s, s1, 2, 1, 3, FPrec::F64, true, true, false,
            )
            &&& name == mn::VFNMADD213PS ==> fuses(
                insn, s, s1, 2, 1, 3, FPrec::F32, false, true, false,
            )
            &&& name == mn::VFNMADD213PD ==> fuses(
                insn, s, s1, 2, 1, 3, FPrec::F64, false, true, false,
            )
            &&& name == mn::VFNMADD231SS ==> fuses(
                insn, s, s1, 2, 3, 1, FPrec::F32, true, true, false,
            )
            &&& name == mn::VFNMADD231SD ==> fuses(
                insn, s, s1, 2, 3, 1, FPrec::F64, true, true, false,
            )
            &&& name == mn::VFNMADD231PS ==> fuses(
                insn, s, s1, 2, 3, 1, FPrec::F32, false, true, false,
            )
            &&& name == mn::VFNMADD231PD ==> fuses(
                insn, s, s1, 2, 3, 1, FPrec::F64, false, true, false,
            )
        }),
{
    lemma_fused(insn, mode, s);
}

/// Both the product and the addend are negated: the first two digits of the name are the factors, the third is
/// the addend.
pub proof fn law_fnmsub(insn: &Insn, mode: CpuMode, s: Emission)
    ensures
        ({
            let s1 = dispatch::insn_ir(insn, mode, s).0;
            let name = insn.mnemonic;
            &&& name == mn::VFNMSUB132SS ==> fuses(
                insn, s, s1, 1, 3, 2, FPrec::F32, true, true, true,
            )
            &&& name == mn::VFNMSUB132SD ==> fuses(
                insn, s, s1, 1, 3, 2, FPrec::F64, true, true, true,
            )
            &&& name == mn::VFNMSUB132PS ==> fuses(
                insn, s, s1, 1, 3, 2, FPrec::F32, false, true, true,
            )
            &&& name == mn::VFNMSUB132PD ==> fuses(
                insn, s, s1, 1, 3, 2, FPrec::F64, false, true, true,
            )
            &&& name == mn::VFNMSUB213SS ==> fuses(
                insn, s, s1, 2, 1, 3, FPrec::F32, true, true, true,
            )
            &&& name == mn::VFNMSUB213SD ==> fuses(
                insn, s, s1, 2, 1, 3, FPrec::F64, true, true, true,
            )
            &&& name == mn::VFNMSUB213PS ==> fuses(
                insn, s, s1, 2, 1, 3, FPrec::F32, false, true, true,
            )
            &&& name == mn::VFNMSUB213PD ==> fuses(
                insn, s, s1, 2, 1, 3, FPrec::F64, false, true, true,
            )
            &&& name == mn::VFNMSUB231SS ==> fuses(
                insn, s, s1, 2, 3, 1, FPrec::F32, true, true, true,
            )
            &&& name == mn::VFNMSUB231SD ==> fuses(
                insn, s, s1, 2, 3, 1, FPrec::F64, true, true, true,
            )
            &&& name == mn::VFNMSUB231PS ==> fuses(
                insn, s, s1, 2, 3, 1, FPrec::F32, false, true, true,
            )
            &&& name == mn::VFNMSUB231PD ==> fuses(
                insn, s, s1, 2, 3, 1, FPrec::F64, false, true, true,
            )
        }),
{
    lemma_fused(insn, mode, s);
}

// --- moves and comparisons ---

/// The low lane of a vector register or what memory holds, as a number.
pub open spec fn lane(insn: &Insn, o: Operand, prec: FPrec, s: Emission) -> (Emission, Val) {
    match vector::xmm(o) {
        Some(src) => (
            s.def(IrOp::VToGpr { dst: s.next, src, size: vector::width(prec) }),
            Val::Temp(s.next),
        ),
        None => if vector::memory(o) {
            let (s1, addr) = operand::address(insn, s);
            (
                s1.def(IrOp::Load { dst: s1.next, addr, size: vector::width(prec) }),
                Val::Temp(s1.next),
            )
        } else {
            (s.fail(), Val::Imm(0))
        },
    }
}

proof fn lemma_lane(insn: &Insn, i: u32, prec: FPrec, s: Emission)
    ensures
        i == 0 ==> vfloat::scalar_float(insn, i, prec, s) == lane(insn, insn.op0, prec, s),
        i == 1 ==> vfloat::scalar_float(insn, i, prec, s) == lane(insn, insn.op1, prec, s),
        i == 2 ==> vfloat::scalar_float(insn, i, prec, s) == lane(insn, insn.op2, prec, s),
{
}

/// The first operand's low lane is compared with the second's, and the flags tell.
#[verifier::opaque]
pub open spec fn compares(insn: &Insn, s: Emission, s1: Emission, prec: FPrec) -> bool {
    let (s2, a) = lane(insn, insn.op0, prec, s);
    let (s3, b) = lane(insn, insn.op1, prec, s2);
    vector::extends(s3, s1, seq![IrOp::VFloatCmp { a, b, prec }])
}

/// Lanes of ones where the predicate that the immediate numbers holds of destination and
/// source, of zeros where it does not.
#[verifier::opaque]
pub open spec fn marks(
    insn: &Insn,
    s: Emission,
    s1: Emission,
    prec: FPrec,
    scalar: bool,
) -> bool {
    match (vector::xmm(insn.op0), vector::xmm(insn.op1)) {
        (Some(d), Some(b)) => vector::extends(
            s,
            s1,
            seq![
                IrOp::VFloatCmpMask {
                    dst: d,
                    a: d,
                    b,
                    prec,
                    scalar,
                    pred: vector::byte(insn.op2),
                },
            ],
        ),
        _ => !s1.ok,
    }
}

/// Between registers the low lane alone moves; from memory it is loaded and the rest cleared;
/// to memory it is stored.
#[verifier::opaque]
pub open spec fn moves(insn: &Insn, s: Emission, s1: Emission, prec: FPrec) -> bool {
    let size = vector::width(prec);
    match (vector::xmm(insn.op0), vector::xmm(insn.op1)) {
        (Some(d), Some(src)) => vector::extends(
            s,
            s1,
            seq![IrOp::VFloatMov { dst: d, a: d, src, prec }],
        ),
        (Some(d), None) => if vector::memory(insn.op1) {
            let (s2, addr) = operand::address(insn, s);
            vector::extends(s2, s1, seq![IrOp::VLoad { dst: d, addr, size }])
        } else {
            !s1.ok
        },
        (None, Some(src)) => if vector::memory(insn.op0) {
            let (s2, addr) = operand::address(insn, s);
            vector::extends(s2, s1, seq![IrOp::VStore { addr, src, size }])
        } else {
            !s1.ok
        },
        (None, None) => !s1.ok,
    }
}

/// Between registers the low lane is that of the second source and the rest that of the first;
/// the bits above 128 are cleared in a register.
#[verifier::opaque]
pub open spec fn moves_apart(insn: &Insn, s: Emission, s1: Emission, prec: FPrec) -> bool {
    let size = vector::width(prec);
    let (s2, addr) = operand::address(insn, s);
    if vector::memory(insn.op0) {
        match vector::xmm(insn.op1) {
            Some(src) => vector::extends(s2, s1, seq![IrOp::VStore { addr, src, size }]),
            None => !s1.ok,
        }
    } else {
        match vector::xmm(insn.op0) {
            None => !s1.ok,
            Some(d) => if vector::memory(insn.op1) {
                vector::extends(
                    s2,
                    s1,
                    seq![IrOp::VLoad { dst: d, addr, size }, IrOp::VZeroUpper { reg: d }],
                )
            } else {
                match (vector::xmm(insn.op1), vector::xmm(insn.op2)) {
                    (Some(a), Some(src)) => vector::extends(
                        s,
                        s1,
                        seq![
                            IrOp::VFloatMov { dst: d, a, src, prec },
                            IrOp::VZeroUpper { reg: d },
                        ],
                    ),
                    _ => !s1.ok,
                }
            },
        }
    }
}

proof fn lemma_compares(insn: &Insn, prec: FPrec, scalar: bool, s: Emission)
    ensures
        compares(insn, s, vfloat::float_cmp(insn, prec, s), prec),
        marks(insn, s, vfloat::float_cmp_mask(insn, prec, scalar, s), prec, scalar),
{
    reveal(compares);
    reveal(marks);
    reveal(vfloat::float_cmp);
    reveal(vfloat::float_cmp_mask);
    lemma_lane(insn, 0, prec, s);
    lemma_lane(insn, 1, prec, lane(insn, insn.op0, prec, s).0);
}

proof fn lemma_moves(insn: &Insn, prec: FPrec, s: Emission)
    ensures
        moves(insn, s, vfloat::scalar_fmove(insn, prec, s), prec),
        moves_apart(insn, s, vfloat::vscalar_fmove(insn, prec, s), prec),
{
    reveal(moves);
    reveal(moves_apart);
    reveal(vfloat::scalar_fmove);
    reveal(vfloat::vscalar_fmove);
}

/// Moves and comparisons of floats. `movsd` and `cmpsd` with a vector register are those of
/// doubles.
pub proof fn law_float_moves(insn: &Insn, mode: CpuMode, s: Emission)
    ensures
        ({
            let s1 = dispatch::insn_ir(insn, mode, s).0;
            let name = insn.mnemonic;
            let on_vectors = vector::xmm(insn.op0) is Some || vector::xmm(insn.op1) is Some;
            &&& name == mn::MOVSS ==> moves(insn, s, s1, FPrec::F32)
            &&& name == mn::MOVSD && on_vectors ==> moves(insn, s, s1, FPrec::F64)
            &&& name == mn::VMOVSS ==> moves_apart(insn, s, s1, FPrec::F32)
            &&& name == mn::VMOVSD ==> moves_apart(insn, s, s1, FPrec::F64)
            &&& name == mn::UCOMISS || name == mn::COMISS || name == mn::VUCOMISS || name
                == mn::VCOMISS ==> compares(insn, s, s1, FPrec::F32)
            &&& name == mn::UCOMISD || name == mn::COMISD || name == mn::VUCOMISD || name
                == mn::VCOMISD ==> compares(insn, s, s1, FPrec::F64)
            &&& name == mn::CMPSS ==> marks(insn, s, s1, FPrec::F32, true)
            &&& name == mn::CMPSD && on_vectors ==> marks(insn, s, s1, FPrec::F64, true)
            &&& name == mn::CMPPS ==> marks(insn, s, s1, FPrec::F32, false)
            &&& name == mn::CMPPD ==> marks(insn, s, s1, FPrec::F64, false)
        }),
{
    match table::float_form(insn.mnemonic) {
        Some(form) => {
            vector::lemma_float(insn, mode, s, form);
            reveal(dispatch::movsd);
            reveal(dispatch::cmpsd);
            match form {
                FloatForm::Move(prec) => lemma_moves(insn, prec, s),
                FloatForm::MoveVex(prec) => lemma_moves(insn, prec, s),
                FloatForm::Compare(prec) => lemma_compares(insn, prec, true, s),
                FloatForm::CompareMask(prec, scalar) => lemma_compares(insn, prec, scalar, s),
                FloatForm::MovsdOrString => lemma_moves(insn, FPrec::F64, s),
                FloatForm::CmpsdOrString => lemma_compares(insn, FPrec::F64, true, s),
                _ => {},
            }
        },
        None => {},
    }
}

// --- conversions and roundings ---

/// An integer, as wide as its operand, becomes a float in the low lane.
#[verifier::opaque]
pub open spec fn from_integer(insn: &Insn, s: Emission, s1: Emission, prec: FPrec) -> bool {
    match vector::xmm(insn.op0) {
        None => !s1.ok,
        Some(dst) => {
            let (s2, src) = operand::read(insn, 1, s);
            let int_size = vector::extent(insn, insn.op1);
            vector::extends(
                s2,
                s1,
                seq![IrOp::VCvtFromInt { dst, src, int_size, prec, signed: true }],
            )
        },
    }
}

/// As above, with the other lanes from the first source.
#[verifier::opaque]
pub open spec fn from_integer_apart(
    insn: &Insn,
    s: Emission,
    s1: Emission,
    prec: FPrec,
    signed: bool,
) -> bool {
    match (vector::xmm(insn.op0), vector::xmm(insn.op1)) {
        (Some(dst), Some(a)) => {
            let (s2, src) = operand::read(insn, 2, s);
            let int_size = vector::extent(insn, insn.op2);
            vector::extends(
                s2,
                s1,
                vector::in_place(dst, a, IrOp::VCvtFromInt { dst, src, int_size, prec, signed }),
            )
        },
        _ => !s1.ok,
    }
}

/// The float becomes an integer as wide as the destination, cut off or rounded.
#[verifier::opaque]
pub open spec fn to_integer(
    insn: &Insn,
    s: Emission,
    s1: Emission,
    prec: FPrec,
    trunc: bool,
    signed: bool,
) -> bool {
    let (s2, src) = lane(insn, insn.op1, prec, s);
    let int_size = vector::extent(insn, insn.op0);
    s1 == operand::store(
        insn,
        0,
        Val::Temp(s2.next),
        s2.def(IrOp::VCvtToInt { dst: s2.next, src, int_size, prec, trunc, signed }),
    )
}

/// The low lane changes its precision.
#[verifier::opaque]
pub open spec fn converts(
    insn: &Insn,
    s: Emission,
    s1: Emission,
    from: FPrec,
    to: FPrec,
) -> bool {
    match vector::xmm(insn.op0) {
        None => !s1.ok,
        Some(dst) => {
            let (s2, src) = lane(insn, insn.op1, from, s);
            vector::extends(s2, s1, seq![IrOp::VCvtFloat { dst, src, from, to }])
        },
    }
}

/// As above, with the other lanes from the first source.
#[verifier::opaque]
pub open spec fn converts_apart(
    insn: &Insn,
    s: Emission,
    s1: Emission,
    from: FPrec,
    to: FPrec,
) -> bool {
    match (vector::xmm(insn.op0), vector::xmm(insn.op1)) {
        (Some(dst), Some(a)) => {
            let (s2, src) = lane(insn, insn.op2, from, s);
            vector::extends(
                s2,
                s1,
                vector::in_place(dst, a, IrOp::VCvtFloat { dst, src, from, to }),
            )
        },
        _ => !s1.ok,
    }
}

/// Lanes are rounded to integral values in the mode that the immediate says.
#[verifier::opaque]
pub open spec fn rounds(
    insn: &Insn,
    s: Emission,
    s1: Emission,
    prec: FPrec,
    scalar: bool,
) -> bool {
    let mode = vector::byte(insn.op2);
    match vector::xmm(insn.op0) {
        None => !s1.ok,
        Some(dst) => vector::by_source(
            insn,
            insn.op1,
            vector::xmm(insn.op1),
            s,
            s1,
            |src: u8| seq![IrOp::VPRound { dst, a: dst, src, prec, mode, scalar }],
            |addr: Val| seq![IrOp::VPRoundM { dst, addr, prec, mode, scalar }],
        ),
    }
}

/// Rounding to a scale of 0, without a mask: the mode is the immediate's low half, and the
/// other lanes come from the first source. Another scale is refused.
#[verifier::opaque]
pub open spec fn rounds_apart(insn: &Insn, s: Emission, s1: Emission, prec: FPrec) -> bool {
    let imm = vector::byte(insn.op3);
    let mode = imm & 0x0f;
    if vector::masked(insn) || imm >> 4 != 0 {
        !s1.ok
    } else {
        match (vector::xmm(insn.op0), vector::xmm(insn.op1)) {
            (Some(dst), Some(a)) => vector::by_source(
                insn,
                insn.op2,
                vector::xmm(insn.op2),
                s,
                s1,
                |src: u8| seq![
                    IrOp::VPRound { dst, a, src, prec, mode, scalar: true },
                    IrOp::VZeroUpper { reg: dst },
                ],
                |addr: Val| vector::in_place(
                    dst,
                    a,
                    IrOp::VPRoundM { dst, addr, prec, mode, scalar: true },
                ),
            ),
            _ => !s1.ok,
        }
    }
}

proof fn lemma_from_integer(insn: &Insn, prec: FPrec, signed: bool, s: Emission)
    ensures
        from_integer(insn, s, vfloat::cvt_from_int(insn, prec, s), prec),
        from_integer_apart(insn, s, vfloat::vcvt_from_int(insn, prec, signed, s), prec, signed),
{
    reveal(from_integer);
    reveal(from_integer_apart);
    reveal(vfloat::cvt_from_int);
    reveal(vfloat::vcvt_from_int);
}

proof fn lemma_to_integer(insn: &Insn, prec: FPrec, trunc: bool, signed: bool, s: Emission)
    ensures
        to_integer(
            insn,
            s,
            vfloat::cvt_to_int_signed(insn, prec, trunc, signed, s),
            prec,
            trunc,
            signed,
        ),
{
    reveal(to_integer);
    reveal(vfloat::cvt_to_int_signed);
    lemma_lane(insn, 1, prec, s);
}

proof fn lemma_converts(insn: &Insn, from: FPrec, to: FPrec, s: Emission)
    ensures
        converts(insn, s, vfloat::cvt_float(insn, from, to, s), from, to),
        converts_apart(insn, s, vfloat::vcvt_scalar(insn, from, to, s), from, to),
{
    reveal(converts);
    reveal(converts_apart);
    reveal(vfloat::cvt_float);
    reveal(vfloat::vcvt_scalar);
    lemma_lane(insn, 1, from, s);
    lemma_lane(insn, 2, from, s);
}

proof fn lemma_rounds(insn: &Insn, prec: FPrec, scalar: bool, s: Emission)
    ensures
        rounds(insn, s, vfloat::round(insn, prec, scalar, s), prec, scalar),
        rounds_apart(insn, s, vfloat::vrndscale(insn, prec, s), prec),
{
    reveal(rounds);
    reveal(rounds_apart);
    reveal(vfloat::round);
    reveal(vfloat::vrndscale);
}

/// Conversions between integers, singles and doubles, and roundings. A `t` in the name cuts
/// off; a `u` before `si` takes the integer as unsigned.
pub proof fn law_conversions(insn: &Insn, mode: CpuMode, s: Emission)
    ensures
        ({
            let s1 = dispatch::insn_ir(insn, mode, s).0;
            let name = insn.mnemonic;
            &&& name == mn::CVTSI2SS ==> from_integer(insn, s, s1, FPrec::F32)
            &&& name == mn::CVTSI2SD ==> from_integer(insn, s, s1, FPrec::F64)
            &&& name == mn::VCVTSI2SS ==> from_integer_apart(insn, s, s1, FPrec::F32, true)
            &&& name == mn::VCVTSI2SD ==> from_integer_apart(insn, s, s1, FPrec::F64, true)
            &&& name == mn::VCVTUSI2SS ==> from_integer_apart(insn, s, s1, FPrec::F32, false)
            &&& name == mn::VCVTUSI2SD ==> from_integer_apart(insn, s, s1, FPrec::F64, false)
            &&& name == mn::CVTTSS2SI || name == mn::VCVTTSS2SI ==> to_integer(
                insn,
                s,
                s1,
                FPrec::F32,
                true,
                true,
            )
            &&& name == mn::CVTSS2SI || name == mn::VCVTSS2SI ==> to_integer(
                insn,
                s,
                s1,
                FPrec::F32,
                false,
                true,
            )
            &&& name == mn::CVTTSD2SI || name == mn::VCVTTSD2SI ==> to_integer(
                insn,
                s,
                s1,
                FPrec::F64,
                true,
                true,
            )
            &&& name == mn::CVTSD2SI || name == mn::VCVTSD2SI ==> to_integer(
                insn,
                s,
                s1,
                FPrec::F64,
                false,
                true,
            )
            &&& name == mn::VCVTTSS2USI ==> to_integer(
                insn,
                s,
                s1,
                FPrec::F32,
                true,
                false,
            )
            &&& name == mn::VCVTSS2USI ==> to_integer(
                insn,
                s,
                s1,
                FPrec::F32,
                false,
                false,
            )
            &&& name == mn::VCVTTSD2USI ==> to_integer(
                insn,
                s,
                s1,
                FPrec::F64,
                true,
                false,
            )
            &&& name == mn::VCVTSD2USI ==> to_integer(
                insn,
                s,
                s1,
                FPrec::F64,
                false,
                false,
            )
            &&& name == mn::CVTSS2SD ==> converts(insn, s, s1, FPrec::F32, FPrec::F64)
            &&& name == mn::CVTSD2SS ==> converts(insn, s, s1, FPrec::F64, FPrec::F32)
            &&& name == mn::VCVTSS2SD ==> converts_apart(insn, s, s1, FPrec::F32, FPrec::F64)
            &&& name == mn::VCVTSD2SS ==> converts_apart(insn, s, s1, FPrec::F64, FPrec::F32)
            &&& name == mn::ROUNDSS ==> rounds(insn, s, s1, FPrec::F32, true)
            &&& name == mn::ROUNDSD ==> rounds(insn, s, s1, FPrec::F64, true)
            &&& name == mn::ROUNDPS ==> rounds(insn, s, s1, FPrec::F32, false)
            &&& name == mn::ROUNDPD ==> rounds(insn, s, s1, FPrec::F64, false)
            &&& name == mn::VRNDSCALESS ==> rounds_apart(insn, s, s1, FPrec::F32)
            &&& name == mn::VRNDSCALESD ==> rounds_apart(insn, s, s1, FPrec::F64)
        }),
{
    match table::convert_form(insn.mnemonic) {
        Some(form) => {
            vector::lemma_convert(insn, mode, s, form);
            match form {
                ConvertForm::FromInt(prec) => lemma_from_integer(insn, prec, true, s),
                ConvertForm::FromIntVex(prec, signed) => lemma_from_integer(
                    insn,
                    prec,
                    signed,
                    s,
                ),
                ConvertForm::ToInt(prec, trunc, signed) => lemma_to_integer(
                    insn,
                    prec,
                    trunc,
                    signed,
                    s,
                ),
                ConvertForm::Float(from, to) => lemma_converts(insn, from, to, s),
                ConvertForm::FloatVex(from, to) => lemma_converts(insn, from, to, s),
                ConvertForm::Round(prec, scalar) => lemma_rounds(insn, prec, scalar, s),
                ConvertForm::RoundScale(prec) => lemma_rounds(insn, prec, true, s),
            }
        },
        None => {},
    }
}

} // verus!
