//! What x87 instructions emit, by their names.
use crate::insn::{Insn, Operand};
use crate::ir::{IrOp, Val};
use crate::lift::emit::Emission;
use crate::lift::{control, dispatch, flow, operand, table, vector, CpuMode};
use crate::mnemonic as mn;
use crate::register;
use crate::x87::FpuKind;
use vstd::prelude::*;

verus! {

broadcast use operand::group_failed;

/// The number of a register of the x87 stack.
pub open spec fn stack_register(o: Operand) -> Option<u8> {
    if register::ST0 <= o.reg && o.reg < register::ST0 + 8 {
        Some((o.reg - register::ST0) as u8)
    } else {
        None
    }
}

/// The stack register that takes part besides the top: the deeper of two, the one that is
/// named, or the one below the top where none is.
pub open spec fn partner(insn: &Insn) -> u8 {
    let a = if insn.op_count > 0 {
        stack_register(insn.op0)
    } else {
        None
    };
    let b = if insn.op_count > 1 {
        stack_register(insn.op1)
    } else {
        None
    };
    match (a, b) {
        (None, None) => 1,
        (Some(i), None) => i,
        (None, Some(j)) => j,
        (Some(i), Some(j)) => if i > j {
            i
        } else {
            j
        },
    }
}

/// The one operand is memory.
pub open spec fn on_memory(insn: &Insn) -> bool {
    insn.op_count == 1 && vector::memory(insn.op0)
}

/// There are at most two operands, and none is memory.
pub open spec fn on_stack(insn: &Insn) -> bool {
    &&& insn.op_count <= 2
    &&& insn.op_count > 0 ==> !vector::memory(insn.op0)
    &&& insn.op_count > 1 ==> !vector::memory(insn.op1)
}

/// One operation of this kind, on memory of `size` bytes.
#[verifier::opaque]
pub open spec fn from_memory(
    insn: &Insn,
    s: Emission,
    s1: Emission,
    size: u64,
    kind: FpuKind,
) -> bool {
    on_memory(insn) && insn.mem_size == size ==> {
        let (s2, addr) = operand::address(insn, s);
        vector::extends(s2, s1, seq![IrOp::X87 { kind, addr, sti: partner(insn) }])
    }
}

/// One operation of this kind, on registers of the stack.
#[verifier::opaque]
pub open spec fn from_stack(insn: &Insn, s: Emission, s1: Emission, kind: FpuKind) -> bool {
    on_stack(insn) ==> vector::extends(
        s,
        s1,
        seq![IrOp::X87 { kind, addr: Val::Imm(0), sti: partner(insn) }],
    )
}

/// One operation: on the top where that is the destination, else on the other register.
#[verifier::opaque]
pub open spec fn into_either(
    insn: &Insn,
    s: Emission,
    s1: Emission,
    into_top: FpuKind,
    into_other: FpuKind,
) -> bool {
    let kind = if insn.op0.reg == register::ST0 {
        into_top
    } else {
        into_other
    };
    on_stack(insn) ==> vector::extends(
        s,
        s1,
        seq![IrOp::X87 { kind, addr: Val::Imm(0), sti: partner(insn) }],
    )
}

/// What is emitted for a kind, by where the operands are.
proof fn lemma_x87(insn: &Insn, mode: CpuMode, s: Emission, kind: FpuKind)
    requires
        table::control_form(insn.mnemonic) == Some(table::ControlForm::X87),
        table::int_form(insn.mnemonic) is None,
        control::x87_kind(insn) == Some(kind),
        kind != FpuKind::Fnstsw,
    ensures
        ({
            let s1 = dispatch::insn_ir(insn, mode, s).0;
            let (s2, addr) = operand::address(insn, s);
            &&& on_memory(insn) ==> control::spec_has_mem(insn) && vector::extends(
                s2,
                s1,
                seq![IrOp::X87 { kind, addr, sti: partner(insn) }],
            )
            &&& on_stack(insn) ==> !control::spec_has_mem(insn) && vector::extends(
                s,
                s1,
                seq![IrOp::X87 { kind, addr: Val::Imm(0), sti: partner(insn) }],
            )
        }),
{
    flow::lemma_control(insn, mode, s);
    reveal_with_fuel(control::highest_st, 3);
}

/// Arithmetic with memory of 4 or 8 bytes, or between the top of the stack and another
/// register; with a `p` the stack is popped. An `r` takes the operands the other way round.
#[verifier::rlimit(50)]
pub proof fn law_x87_arithmetic(insn: &Insn, mode: CpuMode, s: Emission)
    ensures
        ({
            let s1 = dispatch::insn_ir(insn, mode, s).0;
            let name = insn.mnemonic;
            &&& name == mn::FADD ==> from_memory(insn, s, s1, 4, FpuKind::FaddMemF32)
            &&& name == mn::FADD ==> from_memory(insn, s, s1, 8, FpuKind::FaddMemF64)
            &&& name == mn::FADD ==> into_either(insn, s, s1, FpuKind::FaddSti, FpuKind::FaddToSti)
            &&& name == mn::FADDP ==> from_stack(insn, s, s1, FpuKind::FaddP)
            &&& name == mn::FSUB ==> from_memory(insn, s, s1, 4, FpuKind::FsubMemF32)
            &&& name == mn::FSUB ==> from_memory(insn, s, s1, 8, FpuKind::FsubMemF64)
            &&& name == mn::FSUB ==> into_either(insn, s, s1, FpuKind::FsubSti, FpuKind::FsubToSti)
            &&& name == mn::FSUBP ==> from_stack(insn, s, s1, FpuKind::FsubP)
            &&& name == mn::FSUBR ==> from_memory(insn, s, s1, 4, FpuKind::FsubrMemF32)
            &&& name == mn::FSUBR ==> from_memory(insn, s, s1, 8, FpuKind::FsubrMemF64)
            &&& name == mn::FSUBR ==> into_either(
                insn,
                s,
                s1,
                FpuKind::FsubrSti,
                FpuKind::FsubrToSti,
            )
            &&& name == mn::FSUBRP ==> from_stack(insn, s, s1, FpuKind::FsubrP)
            &&& name == mn::FMUL ==> from_memory(insn, s, s1, 4, FpuKind::FmulMemF32)
            &&& name == mn::FMUL ==> from_memory(insn, s, s1, 8, FpuKind::FmulMemF64)
            &&& name == mn::FMUL ==> into_either(insn, s, s1, FpuKind::FmulSti, FpuKind::FmulToSti)
            &&& name == mn::FMULP ==> from_stack(insn, s, s1, FpuKind::FmulP)
            &&& name == mn::FDIV ==> from_memory(insn, s, s1, 4, FpuKind::FdivMemF32)
            &&& name == mn::FDIV ==> from_memory(insn, s, s1, 8, FpuKind::FdivMemF64)
            &&& name == mn::FDIV ==> into_either(insn, s, s1, FpuKind::FdivSti, FpuKind::FdivToSti)
            &&& name == mn::FDIVP ==> from_stack(insn, s, s1, FpuKind::FdivP)
            &&& name == mn::FDIVR ==> from_memory(insn, s, s1, 4, FpuKind::FdivrMemF32)
            &&& name == mn::FDIVR ==> from_memory(insn, s, s1, 8, FpuKind::FdivrMemF64)
            &&& name == mn::FDIVR ==> into_either(
                insn,
                s,
                s1,
                FpuKind::FdivrSti,
                FpuKind::FdivrToSti,
            )
            &&& name == mn::FDIVRP ==> from_stack(insn, s, s1, FpuKind::FdivrP)
        }),
{
    reveal(from_memory);
    reveal(from_stack);
    reveal(into_either);
    let name = insn.mnemonic;
    if name == mn::FADD || name == mn::FADDP || name == mn::FSUB || name == mn::FSUBP ||
        name == mn::FSUBR || name == mn::FSUBRP || name == mn::FMUL || name == mn::FMULP ||
        name == mn::FDIV || name == mn::FDIVP || name == mn::FDIVR || name == mn::FDIVRP {
        lemma_x87(insn, mode, s, control::x87_kind(insn)->0);
    }
}

/// Loads and stores of floats and integers, by the bytes of memory, and between registers.
#[verifier::rlimit(50)]
pub proof fn law_x87_moves(insn: &Insn, mode: CpuMode, s: Emission)
    ensures
        ({
            let s1 = dispatch::insn_ir(insn, mode, s).0;
            let name = insn.mnemonic;
            &&& name == mn::FLD ==> from_memory(insn, s, s1, 4, FpuKind::FldF32)
            &&& name == mn::FLD ==> from_memory(insn, s, s1, 8, FpuKind::FldF64)
            &&& name == mn::FLD ==> from_memory(insn, s, s1, 10, FpuKind::FldF80)
            &&& name == mn::FLD ==> from_stack(insn, s, s1, FpuKind::FldSti)
            &&& name == mn::FST ==> from_memory(insn, s, s1, 4, FpuKind::FstF32)
            &&& name == mn::FST ==> from_memory(insn, s, s1, 8, FpuKind::FstF64)
            &&& name == mn::FST ==> from_stack(insn, s, s1, FpuKind::FstSti)
            &&& name == mn::FSTP ==> from_memory(insn, s, s1, 4, FpuKind::FstpF32)
            &&& name == mn::FSTP ==> from_memory(insn, s, s1, 8, FpuKind::FstpF64)
            &&& name == mn::FSTP ==> from_memory(insn, s, s1, 10, FpuKind::FstpF80)
            &&& name == mn::FSTP ==> from_stack(insn, s, s1, FpuKind::FstpSti)
            &&& name == mn::FILD ==> from_memory(insn, s, s1, 2, FpuKind::FildI16)
            &&& name == mn::FILD ==> from_memory(insn, s, s1, 4, FpuKind::FildI32)
            &&& name == mn::FILD ==> from_memory(insn, s, s1, 8, FpuKind::FildI64)
            &&& name == mn::FISTP ==> from_memory(insn, s, s1, 2, FpuKind::FistpI16)
            &&& name == mn::FISTP ==> from_memory(insn, s, s1, 4, FpuKind::FistpI32)
            &&& name == mn::FISTP ==> from_memory(insn, s, s1, 8, FpuKind::FistpI64)
            &&& name == mn::FISTTP ==> from_memory(insn, s, s1, 2, FpuKind::FisttpI16)
            &&& name == mn::FISTTP ==> from_memory(insn, s, s1, 4, FpuKind::FisttpI32)
            &&& name == mn::FISTTP ==> from_memory(insn, s, s1, 8, FpuKind::FisttpI64)
        }),
{
    reveal(from_memory);
    reveal(from_stack);
    reveal(into_either);
    let name = insn.mnemonic;
    if name == mn::FLD || name == mn::FST || name == mn::FSTP || name == mn::FILD ||
        name == mn::FISTP || name == mn::FISTTP {
        lemma_x87(insn, mode, s, control::x87_kind(insn)->0);
    }
}

/// Constants, signs, exchanges, comparisons, functions, and the control word.
#[verifier::rlimit(50)]
pub proof fn law_x87_functions(insn: &Insn, mode: CpuMode, s: Emission)
    ensures
        ({
            let s1 = dispatch::insn_ir(insn, mode, s).0;
            let name = insn.mnemonic;
            &&& name == mn::FLD1 ==> from_stack(insn, s, s1, FpuKind::Fld1)
            &&& name == mn::FLDZ ==> from_stack(insn, s, s1, FpuKind::Fldz)
            &&& name == mn::FABS ==> from_stack(insn, s, s1, FpuKind::Fabs)
            &&& name == mn::FCHS ==> from_stack(insn, s, s1, FpuKind::Fchs)
            &&& name == mn::FXCH ==> from_stack(insn, s, s1, FpuKind::Fxch)
            &&& name == mn::FUCOMI ==> from_stack(insn, s, s1, FpuKind::Fucomi)
            &&& name == mn::FUCOMIP ==> from_stack(insn, s, s1, FpuKind::Fucomip)
            &&& name == mn::FCOMI ==> from_stack(insn, s, s1, FpuKind::Fcomi)
            &&& name == mn::FCOMIP ==> from_stack(insn, s, s1, FpuKind::Fcomip)
            &&& name == mn::FPREM ==> from_stack(insn, s, s1, FpuKind::Fprem)
            &&& name == mn::FSIN ==> from_stack(insn, s, s1, FpuKind::Fsin)
            &&& name == mn::FCOS ==> from_stack(insn, s, s1, FpuKind::Fcos)
            &&& name == mn::FPTAN ==> from_stack(insn, s, s1, FpuKind::Fptan)
            &&& name == mn::FPATAN ==> from_stack(insn, s, s1, FpuKind::Fpatan)
            &&& name == mn::F2XM1 ==> from_stack(insn, s, s1, FpuKind::F2xm1)
            &&& name == mn::FYL2X ==> from_stack(insn, s, s1, FpuKind::Fyl2x)
            &&& name == mn::FYL2XP1 ==> from_stack(insn, s, s1, FpuKind::Fyl2xp1)
            &&& name == mn::FSINCOS ==> from_stack(insn, s, s1, FpuKind::Fsincos)
            &&& name == mn::FLDCW ==> from_memory(insn, s, s1, 2, FpuKind::Fldcw)
            &&& name == mn::FNSTCW ==> from_memory(insn, s, s1, 2, FpuKind::Fnstcw)
        }),
{
    reveal(from_memory);
    reveal(from_stack);
    reveal(into_either);
    let name = insn.mnemonic;
    if name == mn::FLD1 || name == mn::FLDZ || name == mn::FABS || name == mn::FCHS ||
        name == mn::FXCH || name == mn::FUCOMI || name == mn::FUCOMIP || name == mn::FCOMI ||
        name == mn::FCOMIP || name == mn::FPREM || name == mn::FSIN || name == mn::FCOS ||
        name == mn::FPTAN || name == mn::FPATAN || name == mn::F2XM1 || name == mn::FYL2X ||
        name == mn::FYL2XP1 || name == mn::FSINCOS || name == mn::FLDCW || name == mn::FNSTCW {
        lemma_x87(insn, mode, s, control::x87_kind(insn)->0);
    }
}

/// The status word goes to memory, or to the accumulator without any operand of the stack.
pub proof fn law_x87_status(insn: &Insn, mode: CpuMode, s: Emission)
    requires
        insn.mnemonic == mn::FNSTSW,
    ensures
        ({
            let s1 = dispatch::insn_ir(insn, mode, s).0;
            &&& from_memory(insn, s, s1, insn.mem_size, FpuKind::FnstswMem)
            &&& on_stack(insn) ==> vector::extends(
                s,
                s1,
                seq![IrOp::X87 { kind: FpuKind::Fnstsw, addr: Val::Imm(0), sti: 0 }],
            )
        }),
{
    reveal(from_memory);
    flow::lemma_control(insn, mode, s);
    if on_memory(insn) {
        lemma_x87(insn, mode, s, FpuKind::FnstswMem);
    }
}

} // verus!
