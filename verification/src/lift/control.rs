//! Control flow, the stack, port access, string operations and the x87 unit.
use crate::insn::Insn;
use crate::ir::{
    Cond, FlagMask, IrOp, MemOrder, RepKind, StrOp, Temp, Val,
};
use crate::lift::emit::{Emission, Emitter};
use crate::lift::operand::{
    alu_none, effective_address, emit_write, lower_read, lower_write_target, mask_pc,
    operand_size, push_pop_size, read_reg, stack_slot, unsupported_insn, Alu,
};
use crate::lift::{emit, operand, CpuMode, LiftError, WriteTarget};
use crate::state::Reg;
use crate::x87::FpuKind;
use crate::{code, mnemonic, op_kind, register};
use vstd::prelude::*;

verus! {

broadcast use operand::group_failed;

// --- branches ---

pub open spec fn spec_indirect_mask(insn: &Insn, mode: CpuMode) -> Option<u64> {
    if operand_size(insn, 0) == 2 {
        Some(0xFFFF)
    } else if mode.wraps_32() {
        Some(0xFFFF_FFFF)
    } else {
        None
    }
}

/// The width that an indirect target is truncated to: 16 bits for a 16-bit operand, 32
/// bits in `Compat32`.
#[verifier::when_used_as_spec(spec_indirect_mask)]
pub fn indirect_mask(insn: &Insn, mode: CpuMode) -> (r: Option<u64>)
    ensures
        r == spec_indirect_mask(insn, mode),
{
    if operand_size(insn, 0) == 2 {
        Some(0xFFFF)
    } else if mode.wraps_32() {
        Some(0xFFFF_FFFF)
    } else {
        None
    }
}

/// The target of a jump or call: a constant for a direct near branch, else the value of
/// the operand, truncated.
pub open spec fn branch(insn: &Insn, mode: CpuMode, s: Emission) -> (Emission, Val) {
    if op_kind::is_near_branch(insn.op(0).kind) {
        (s, Val::Imm(mask_pc(insn.branch_target, mode)))
    } else {
        let (s1, target) = operand::read(insn, 0, s);
        match indirect_mask(insn, mode) {
            Some(m) => operand::alu(Alu::And, target, Val::Imm(m), s1),
            None => (s1, target),
        }
    }
}

/// Emits what computes the target of a jump or call.
pub fn branch_target(insn: &Insn, em: &mut Emitter, mode: CpuMode) -> (r: Result<Val, LiftError>)
    requires
        old(em)@.ready(10),
    ensures
        emit::lowered(old(em)@, final(em)@, branch(insn, mode, old(em)@), insn, r, 10),
{
    if op_kind::is_near_branch(insn.op(0).kind) {
        return Ok(Val::Imm(mask_pc(insn.branch_target, mode)));
    }
    match lower_read(insn, 0, em) {
        Ok(target) => match indirect_mask(insn, mode) {
            Some(m) => Ok(alu_none(Alu::And, target, Val::Imm(m), em)),
            None => Ok(target),
        },
        Err(e) => Err(e),
    }
}

pub open spec fn jmp(insn: &Insn, mode: CpuMode, s: Emission) -> Emission {
    let (s1, target) = branch(insn, mode, s);
    s1.push(IrOp::Jump { target })
}

/// `jmp`.
pub fn lift_jmp(insn: &Insn, em: &mut Emitter, mode: CpuMode) -> (r: Result<bool, LiftError>)
    requires
        old(em)@.ready(64),
    ensures
        emit::dispatched(old(em)@, final(em)@, (jmp(insn, mode, old(em)@), true), insn, r),
{
    match branch_target(insn, em, mode) {
        Ok(target) => {
            em.end(IrOp::Jump { target });
            Ok(true)
        },
        Err(e) => Err(e),
    }
}

pub open spec fn jcc(insn: &Insn, cond: Cond, mode: CpuMode, s: Emission) -> Emission {
    s.push(
        IrOp::Branch {
            cond,
            taken: mask_pc(insn.branch_target, mode),
            fallthrough: mask_pc(insn.next_ip(), mode),
        },
    )
}

/// `jcc`: both targets are known.
pub fn lift_jcc(insn: &Insn, em: &mut Emitter, cond: Cond, mode: CpuMode) -> (r: Result<
    bool,
    LiftError,
>)
    requires
        old(em)@.ready(64),
    ensures
        emit::dispatched(old(em)@, final(em)@, (jcc(insn, cond, mode, old(em)@), true), insn, r),
{
    em.end(
        IrOp::Branch {
            cond,
            taken: mask_pc(insn.branch_target, mode),
            fallthrough: mask_pc(insn.next_ip(), mode),
        },
    );
    Ok(true)
}

pub open spec fn spec_is_16bit_flow(insn: &Insn) -> bool {
    insn.code == code::CALL_REL16 || insn.code == code::CALL_RM16 || insn.code == code::RETNW
        || insn.code == code::RETNW_IMM16
}

/// A near call or return with a 16-bit operand size, which would truncate the
/// instruction pointer to 16 bits. It is not supported.
#[verifier::when_used_as_spec(spec_is_16bit_flow)]
pub fn is_16bit_flow(insn: &Insn) -> (r: bool)
    ensures
        r == spec_is_16bit_flow(insn),
{
    insn.code == code::CALL_REL16 || insn.code == code::CALL_RM16 || insn.code == code::RETNW
        || insn.code == code::RETNW_IMM16
}

/// The target is computed before the return address is pushed.
pub open spec fn call(insn: &Insn, mode: CpuMode, s: Emission) -> Emission {
    if is_16bit_flow(insn) {
        s.fail()
    } else {
        let (s1, target) = branch(insn, mode, s);
        s1.push(
            IrOp::Call {
                target,
                return_addr: mask_pc(insn.next_ip(), mode),
                slot: stack_slot(mode),
                wrap_sp: mode.wraps_32(),
            },
        )
    }
}

/// Near `call`.
pub fn lift_call(insn: &Insn, em: &mut Emitter, mode: CpuMode) -> (r: Result<bool, LiftError>)
    requires
        old(em)@.ready(64),
    ensures
        emit::dispatched(old(em)@, final(em)@, (call(insn, mode, old(em)@), true), insn, r),
{
    if is_16bit_flow(insn) {
        return Err(unsupported_insn(insn));
    }
    match branch_target(insn, em, mode) {
        Ok(target) => {
            em.end(
                IrOp::Call {
                    target,
                    return_addr: mask_pc(insn.next_ip(), mode),
                    slot: stack_slot(mode),
                    wrap_sp: mode.wraps_32(),
                },
            );
            Ok(true)
        },
        Err(e) => Err(e),
    }
}

/// `ret imm16` releases that many bytes more.
pub open spec fn ret(insn: &Insn, mode: CpuMode, s: Emission) -> Emission {
    if is_16bit_flow(insn) {
        s.fail()
    } else {
        s.push(
            IrOp::Ret {
                slot: stack_slot(mode),
                pop_extra: if insn.op_count > 0 {
                    insn.op0.imm as u16
                } else {
                    0
                },
                wrap_sp: mode.wraps_32(),
            },
        )
    }
}

/// Near `ret`.
pub fn lift_ret(insn: &Insn, em: &mut Emitter, mode: CpuMode) -> (r: Result<bool, LiftError>)
    requires
        old(em)@.ready(64),
    ensures
        emit::dispatched(old(em)@, final(em)@, (ret(insn, mode, old(em)@), true), insn, r),
{
    if is_16bit_flow(insn) {
        return Err(unsupported_insn(insn));
    }
    let pop_extra: u16 = if insn.op_count > 0 {
        insn.op0.imm as u16
    } else {
        0
    };
    em.end(IrOp::Ret { slot: stack_slot(mode), pop_extra, wrap_sp: mode.wraps_32() });
    Ok(true)
}

/// Control flow that keeps to the mode: calls and returns have the frames of the mode, and
/// wrap the stack pointer in `Compat32` only; and there every address that is known is one of
/// 32 bits.
pub open spec fn keeps_to(op: IrOp, mode: CpuMode) -> bool {
    match op {
        IrOp::Jump { target } => fits(target, mode),
        IrOp::Branch { taken, fallthrough, .. } => fits(Val::Imm(taken), mode) && fits(
            Val::Imm(fallthrough),
            mode,
        ),
        IrOp::Call { target, return_addr, slot, wrap_sp } => fits(target, mode) && fits(
            Val::Imm(return_addr),
            mode,
        ) && slot == stack_slot(mode) && wrap_sp == mode.wraps_32(),
        IrOp::Ret { slot, wrap_sp, .. } => slot == stack_slot(mode) && wrap_sp == mode.wraps_32(),
        _ => true,
    }
}

/// A code address that is known is no wider than the pointers of the mode.
pub open spec fn fits(v: Val, mode: CpuMode) -> bool {
    v matches Val::Imm(a) ==> mode.wraps_32() ==> a <= 0xFFFF_FFFF
}

/// A masked address fits the mode.
proof fn lemma_mask_fits(addr: u64, mode: CpuMode)
    ensures
        fits(Val::Imm(mask_pc(addr, mode)), mode),
{
    assert(addr & 0xFFFF_FFFF <= 0xFFFF_FFFF) by (bit_vector);
}

/// Jumps, branches, calls and returns keep to the mode.
pub proof fn law_flow_keeps_to_mode(insn: &Insn, mode: CpuMode, s: Emission)
    ensures
        jmp(insn, mode, s).ok ==> keeps_to(jmp(insn, mode, s).ops.last(), mode),
        forall|cond: Cond|
            s.ok ==> keeps_to((#[trigger] jcc(insn, cond, mode, s)).ops.last(), mode),
        call(insn, mode, s).ok ==> keeps_to(call(insn, mode, s).ops.last(), mode),
        ret(insn, mode, s).ok ==> keeps_to(ret(insn, mode, s).ops.last(), mode),
{
    lemma_mask_fits(insn.branch_target, mode);
    lemma_mask_fits(insn.next_ip(), mode);
}

/// `int 0x80` is the 32-bit system-call gate; any other `int n` is a trap to that vector.
pub open spec fn int_n(insn: &Insn, s: Emission) -> Emission {
    if insn.imm8(0) == 0x80 {
        s.push(IrOp::Syscall { is_amd64: false })
    } else {
        s.push(IrOp::Trap { vector: insn.imm8(0), advance: insn.len })
    }
}

/// `int n`.
pub fn lift_int(insn: &Insn, em: &mut Emitter) -> (r: Result<bool, LiftError>)
    requires
        old(em)@.ready(64),
    ensures
        emit::dispatched(old(em)@, final(em)@, (int_n(insn, old(em)@), true), insn, r),
{
    if insn.imm8(0) == 0x80 {
        em.end(IrOp::Syscall { is_amd64: false });
    } else {
        em.end(IrOp::Trap { vector: insn.imm8(0), advance: insn.len });
    }
    Ok(true)
}

/// The port is an immediate or the low 16 bits of `dx`; `out` carries the accumulator.
pub open spec fn port_io(insn: &Insn, dir_out: bool, s: Emission) -> Emission {
    let acc: u32 = if dir_out { 1 } else { 0 };
    let at: u32 = if dir_out { 0 } else { 1 };
    let size = operand_size(insn, acc);
    if !(size == 1 || size == 2 || size == 4) {
        s.fail()
    } else {
        let (s1, port) = if insn.op(at).kind == op_kind::IMMEDIATE8 {
            (s, Val::Imm(insn.op(at).imm & 0xffff))
        } else if insn.op(at).kind == op_kind::REGISTER {
            let (s1, dx) = operand::reg_read(Reg::Rdx, s);
            operand::alu(Alu::And, dx, Val::Imm(0xffff), s1)
        } else {
            (s.fail(), Val::Imm(0))
        };
        let (s2, value) = if dir_out {
            operand::reg_read(Reg::Rax, s1)
        } else {
            (s1, Val::Imm(0))
        };
        s2.push(IrOp::PortIo { port, value, size, dir_out })
    }
}

/// `in` and `out`: `in acc, port` or `out port, acc`. The access is 1, 2 or 4 bytes wide,
/// as the accumulator operand is.
pub fn lift_port_io(insn: &Insn, em: &mut Emitter, dir_out: bool) -> (r: Result<bool, LiftError>)
    requires
        old(em)@.ready(64),
    ensures
        emit::dispatched(old(em)@, final(em)@, (port_io(insn, dir_out, old(em)@), true), insn, r),
{
    let acc: u32 = if dir_out {
        1
    } else {
        0
    };
    let at: u32 = if dir_out {
        0
    } else {
        1
    };
    let size: u8 = operand_size(insn, acc);
    if !(size == 1 || size == 2 || size == 4) {
        return Err(unsupported_insn(insn));
    }
    let port = if insn.op(at).kind == op_kind::IMMEDIATE8 {
        Val::Imm(insn.op(at).imm & 0xffff)
    } else if insn.op(at).kind == op_kind::REGISTER {
        let dx = read_reg(Reg::Rdx, em);
        alu_none(Alu::And, dx, Val::Imm(0xffff), em)
    } else {
        return Err(unsupported_insn(insn));
    };
    let value = if dir_out {
        read_reg(Reg::Rax, em)
    } else {
        Val::Imm(0)
    };
    em.end(IrOp::PortIo { port, value, size, dir_out });
    Ok(true)
}

// --- the stack ---

/// Wraps the stack pointer in temporary `sp` where the mode has 32 bits.
pub open spec fn sp_wrap(sp: Temp, mode: CpuMode, s: Emission) -> Emission {
    if mode.wraps_32() {
        s.push(operand::alu_op(Alu::And, sp, Val::Temp(sp), Val::Imm(0xFFFF_FFFF)))
    } else {
        s
    }
}

/// Emits the wrap of a stack pointer that is about to be used as an address.
pub fn emit_sp_wrap(em: &mut Emitter, sp: Temp, mode: CpuMode)
    requires
        old(em)@.ready(0),
        IrOp::known(old(em)@.ops, sp),
        sp < old(em)@.next,
    ensures
        final(em)@ == sp_wrap(sp, mode, old(em)@),
        final(em)@.inv(),
        final(em)@.open(),
        emit::starts(final(em)@.ops) == emit::starts(old(em)@.ops),
        forall|t: Temp| #[trigger]
            IrOp::known(final(em)@.ops, t) <==> IrOp::known(old(em)@.ops, t),
{
    if mode.wraps_32() {
        em.push(
            IrOp::And {
                dst: sp,
                a: Val::Temp(sp),
                b: Val::Imm(0xFFFF_FFFF),
                size: 8,
                set_flags: FlagMask::none(),
            },
        );
    }
}

/// The store comes before the stack pointer is written, so that a store that traps leaves
/// the pointer for a retry.
#[verifier::opaque]
pub open spec fn push(insn: &Insn, mode: CpuMode, s: Emission) -> Emission {
    let size = push_pop_size(insn, mode);
    let (s1, src) = operand::read(insn, 0, s);
    let (s2, rsp) = operand::reg_read(Reg::Rsp, s1);
    let (s3, new_rsp) = operand::alu(Alu::Sub, rsp, Val::Imm(size as u64), s2);
    let s4 = sp_wrap(s2.next, mode, s3);
    let s5 = s4.push(IrOp::Store { addr: new_rsp, src, size, order: MemOrder::Plain });
    s5.push(IrOp::WriteReg { reg: Reg::Rsp, src: new_rsp, size: stack_slot(mode) })
}

/// `push src`.
pub fn lift_push(insn: &Insn, em: &mut Emitter, mode: CpuMode) -> (r: Result<(), LiftError>)
    requires
        old(em)@.ready(64),
    ensures
        emit::lifted(old(em)@, final(em)@, push(insn, mode, old(em)@), insn, r),
{
    reveal(push);
    let size: u8 = push_pop_size(insn, mode);
    let src = match lower_read(insn, 0, em) {
        Ok(src) => src,
        Err(e) => {
            return Err(e);
        },
    };
    let rsp = read_reg(Reg::Rsp, em);
    let sp: Temp = em.peek();
    let new_rsp = alu_none(Alu::Sub, rsp, Val::Imm(size as u64), em);
    emit_sp_wrap(em, sp, mode);
    em.push(IrOp::Store { addr: new_rsp, src, size, order: MemOrder::Plain });
    em.push(IrOp::WriteReg { reg: Reg::Rsp, src: new_rsp, size: stack_slot(mode) });
    Ok(())
}

pub open spec fn spec_addresses_by_rsp(insn: &Insn) -> bool {
    insn.mem_base == register::RSP || insn.mem_index == register::RSP
}

/// Whether the address of the memory operand is relative to `rsp`.
#[verifier::when_used_as_spec(spec_addresses_by_rsp)]
pub fn addresses_by_rsp(insn: &Insn) -> (r: bool)
    ensures
        r == spec_addresses_by_rsp(insn),
{
    insn.mem_base == register::RSP || insn.mem_index == register::RSP
}

/// The load comes first. A memory destination, whose store may trap, is written before
/// the stack pointer; a register destination after it, so that `pop rsp` keeps what was
/// popped. A memory destination relative to `rsp` goes by the pointer after the pop, and is
/// not supported.
#[verifier::opaque]
pub open spec fn pop(insn: &Insn, mode: CpuMode, s: Emission) -> Emission {
    let size = push_pop_size(insn, mode);
    let (s1, rsp) = operand::reg_read(Reg::Rsp, s);
    let val = Val::Temp(s1.next);
    let s2 = s1.def(IrOp::Load { dst: s1.next, addr: rsp, size });
    let (s3, new_rsp) = operand::alu(Alu::Add, rsp, Val::Imm(size as u64), s2);
    let back = IrOp::WriteReg { reg: Reg::Rsp, src: new_rsp, size: stack_slot(mode) };
    let (s4, dst) = operand::target(insn, 0, s3);
    if dst is Mem {
        if s4.ok && addresses_by_rsp(insn) {
            s4.fail()
        } else {
            operand::write(dst, val, s4).push(back)
        }
    } else {
        operand::write(dst, val, s4.push(back))
    }
}

/// `pop dst`.
pub fn lift_pop(insn: &Insn, em: &mut Emitter, mode: CpuMode) -> (r: Result<(), LiftError>)
    requires
        old(em)@.ready(64),
    ensures
        emit::lifted(old(em)@, final(em)@, pop(insn, mode, old(em)@), insn, r),
{
    reveal(pop);
    let size: u8 = push_pop_size(insn, mode);
    let rsp = read_reg(Reg::Rsp, em);
    let val: Temp = em.peek();
    em.def(val, IrOp::Load { dst: val, addr: rsp, size });
    let new_rsp = alu_none(Alu::Add, rsp, Val::Imm(size as u64), em);
    let dst = match lower_write_target(insn, 0, em) {
        Ok(dst) => dst,
        Err(e) => {
            return Err(e);
        },
    };
    match dst {
        WriteTarget::Mem { .. } => {
            if addresses_by_rsp(insn) {
                return Err(unsupported_insn(insn));
            }
            emit_write(em, dst, Val::Temp(val));
            em.push(IrOp::WriteReg { reg: Reg::Rsp, src: new_rsp, size: stack_slot(mode) });
        },
        _ => {
            em.push(IrOp::WriteReg { reg: Reg::Rsp, src: new_rsp, size: stack_slot(mode) });
            emit_write(em, dst, Val::Temp(val));
        },
    }
    Ok(())
}

/// The frame pointer becomes the stack pointer, and the old frame pointer is popped.
pub open spec fn leave(insn: &Insn, mode: CpuMode, s: Emission) -> Emission {
    let size: u8 = if insn.code == code::LEAVEW { 2 } else { stack_slot(mode) };
    let (s1, rbp) = operand::reg_read(Reg::Rbp, s);
    let s2 = s1.def(IrOp::Load { dst: s1.next, addr: rbp, size });
    let (s3, new_rsp) = operand::alu(Alu::Add, rbp, Val::Imm(size as u64), s2);
    let s4 = s3.push(IrOp::WriteReg { reg: Reg::Rbp, src: Val::Temp(s1.next), size });
    s4.push(IrOp::WriteReg { reg: Reg::Rsp, src: new_rsp, size: stack_slot(mode) })
}

/// `leave`.
pub fn lift_leave(insn: &Insn, em: &mut Emitter, mode: CpuMode) -> (r: Result<(), LiftError>)
    requires
        old(em)@.ready(64),
    ensures
        emit::lifted(old(em)@, final(em)@, leave(insn, mode, old(em)@), insn, r),
{
    let size: u8 = if insn.code == code::LEAVEW {
        2
    } else {
        stack_slot(mode)
    };
    let rbp = read_reg(Reg::Rbp, em);
    let val: Temp = em.peek();
    em.def(val, IrOp::Load { dst: val, addr: rbp, size });
    let new_rsp = alu_none(Alu::Add, rbp, Val::Imm(size as u64), em);
    em.push(IrOp::WriteReg { reg: Reg::Rbp, src: Val::Temp(val), size });
    em.push(IrOp::WriteReg { reg: Reg::Rsp, src: new_rsp, size: stack_slot(mode) });
    Ok(())
}

// --- strings ---

pub open spec fn spec_rep_kind(insn: &Insn, op: StrOp) -> RepKind {
    if op is Scas || op is Cmps {
        if insn.repne {
            RepKind::Repne
        } else if insn.rep {
            RepKind::Repe
        } else {
            RepKind::Once
        }
    } else if insn.rep {
        RepKind::Rep
    } else {
        RepKind::Once
    }
}

/// The repetition that the prefixes ask for: the comparing operations tell `repe` from
/// `repne`, the others know `rep` only.
#[verifier::when_used_as_spec(spec_rep_kind)]
pub fn rep_kind(insn: &Insn, op: StrOp) -> (r: RepKind)
    ensures
        r == spec_rep_kind(insn, op),
{
    match op {
        StrOp::Scas | StrOp::Cmps => if insn.repne {
            RepKind::Repne
        } else if insn.rep {
            RepKind::Repe
        } else {
            RepKind::Once
        },
        _ => if insn.rep {
            RepKind::Rep
        } else {
            RepKind::Once
        },
    }
}

pub open spec fn spec_string_bits(kind: u8) -> Option<u8> {
    if kind == op_kind::MEMORY_SEG_SI || kind == op_kind::MEMORY_SEG_DI || kind
        == op_kind::MEMORY_ES_DI {
        Some(16)
    } else if kind == op_kind::MEMORY_SEG_ESI || kind == op_kind::MEMORY_SEG_EDI || kind
        == op_kind::MEMORY_ES_EDI {
        Some(32)
    } else {
        None
    }
}

/// The pointer width of a string operand, where it is less than 64 bits.
#[verifier::when_used_as_spec(spec_string_bits)]
fn string_bits(kind: u8) -> (r: Option<u8>)
    ensures
        r == spec_string_bits(kind),
{
    if kind == op_kind::MEMORY_SEG_SI || kind == op_kind::MEMORY_SEG_DI || kind
        == op_kind::MEMORY_ES_DI {
        Some(16)
    } else if kind == op_kind::MEMORY_SEG_ESI || kind == op_kind::MEMORY_SEG_EDI || kind
        == op_kind::MEMORY_ES_EDI {
        Some(32)
    } else {
        None
    }
}

pub open spec fn spec_string_addr_bits(insn: &Insn) -> u8 {
    match spec_string_bits(insn.op0.kind) {
        Some(b) => b,
        None => match spec_string_bits(insn.op1.kind) {
            Some(b) => b,
            None => 64,
        },
    }
}

/// Address size of a string operation: the width of the implicit pointer registers, SI/DI
/// (16), ESI/EDI (32) or RSI/RDI (64).
#[verifier::when_used_as_spec(spec_string_addr_bits)]
pub fn string_addr_bits(insn: &Insn) -> (r: u8)
    ensures
        r == spec_string_addr_bits(insn),
{
    match string_bits(insn.op0.kind) {
        Some(b) => b,
        None => match string_bits(insn.op1.kind) {
            Some(b) => b,
            None => 64,
        },
    }
}

/// Only the source at DS can have another segment; the destination at ES never has.
#[verifier::opaque]
pub open spec fn string(insn: &Insn, op: StrOp, elem: u8, s: Emission) -> Emission {
    let (s1, seg_base) = if op is Stos || op is Scas {
        (s, Val::Imm(0))
    } else if insn.segment == register::FS {
        operand::reg_read(Reg::FsBase, s)
    } else if insn.segment == register::GS {
        operand::reg_read(Reg::GsBase, s)
    } else {
        (s, Val::Imm(0))
    };
    s1.push(
        IrOp::RepString {
            op,
            elem,
            rep: rep_kind(insn, op),
            addr_bits: string_addr_bits(insn),
            seg_base,
        },
    )
}

/// A string operation with its repeat prefix.
pub fn lift_string(insn: &Insn, em: &mut Emitter, op: StrOp, elem: u8) -> (r: Result<
    (),
    LiftError,
>)
    requires
        old(em)@.ready(64),
    ensures
        emit::lifted(old(em)@, final(em)@, string(insn, op, elem, old(em)@), insn, r),
{
    reveal(string);
    let seg_base = if matches!(op, StrOp::Stos | StrOp::Scas) {
        Val::Imm(0)
    } else if insn.segment == register::FS {
        read_reg(Reg::FsBase, em)
    } else if insn.segment == register::GS {
        read_reg(Reg::GsBase, em)
    } else {
        Val::Imm(0)
    };
    em.push(
        IrOp::RepString {
            op,
            elem,
            rep: rep_kind(insn, op),
            addr_bits: string_addr_bits(insn),
            seg_base,
        },
    );
    Ok(())
}

// --- x87 ---

/// The highest ST register among the first `n` operands.
pub open spec fn highest_st(insn: &Insn, n: nat) -> Option<u8>
    decreases n,
{
    if n == 0 {
        None
    } else {
        let before = highest_st(insn, (n - 1) as nat);
        match register::index_in(insn.op((n - 1) as u32).reg, register::ST0, 8) {
            None => before,
            Some(i) => match before {
                Some(j) => Some(if i > j { i } else { j }),
                None => Some(i),
            },
        }
    }
}

/// The ST(i) that an instruction refers to: the highest among its operands (ST(0) is 0,
/// so that a partner wins), or 1 for the forms with an implicit ST(1).
pub fn st_index(insn: &Insn) -> (r: u8)
    ensures
        r == (match highest_st(insn, insn.op_count as nat) {
            Some(i) => i,
            None => 1,
        }),
{
    let mut found: Option<u8> = None;
    let mut n: u8 = 0;
    while n < insn.op_count
        invariant
            n <= insn.op_count,
            found == highest_st(insn, n as nat),
        decreases insn.op_count - n,
    {
        if let Some(i) = register::index_in(insn.op(n as u32).reg, register::ST0, 8) {
            found = match found {
                Some(j) => Some(
                    if i > j {
                        i
                    } else {
                        j
                    },
                ),
                None => Some(i),
            };
        }
        n = n + 1;
    }
    match found {
        Some(i) => i,
        None => 1,
    }
}

pub open spec fn spec_has_mem(insn: &Insn) -> bool {
    ||| insn.op_count > 0 && insn.is_mem(0)
    ||| insn.op_count > 1 && insn.is_mem(1)
    ||| insn.op_count > 2 && insn.is_mem(2)
    ||| insn.op_count > 3 && insn.is_mem(3)
    ||| insn.op_count > 4 && insn.is_mem(4)
}

/// Whether any operand is memory.
#[verifier::when_used_as_spec(spec_has_mem)]
fn has_mem(insn: &Insn) -> (r: bool)
    ensures
        r == spec_has_mem(insn),
{
    insn.op_count > 0 && insn.is_mem(0) || insn.op_count > 1 && insn.is_mem(1) || insn.op_count > 2
        && insn.is_mem(2) || insn.op_count > 3 && insn.is_mem(3) || insn.op_count > 4
        && insn.is_mem(4)
}

/// What an x87 instruction does: its mnemonic, whether and how wide it accesses memory,
/// and for register forms whether ST(0) is the destination.
pub open spec fn x87_kind(insn: &Insn) -> Option<FpuKind> {
    let mem = spec_has_mem(insn);
    let msz = insn.mem_size;
    let st0 = insn.op0.reg == register::ST0;
    match insn.mnemonic {
        mnemonic::FLD => Some(
            if !mem {
                FpuKind::FldSti
            } else if msz == 4 {
                FpuKind::FldF32
            } else if msz == 10 {
                FpuKind::FldF80
            } else {
                FpuKind::FldF64
            },
        ),
        mnemonic::FILD => Some(
            if msz == 2 {
                FpuKind::FildI16
            } else if msz == 8 {
                FpuKind::FildI64
            } else {
                FpuKind::FildI32
            },
        ),
        mnemonic::FST => Some(
            if !mem {
                FpuKind::FstSti
            } else if msz == 4 {
                FpuKind::FstF32
            } else {
                FpuKind::FstF64
            },
        ),
        mnemonic::FSTP => Some(
            if !mem {
                FpuKind::FstpSti
            } else if msz == 4 {
                FpuKind::FstpF32
            } else if msz == 10 {
                FpuKind::FstpF80
            } else {
                FpuKind::FstpF64
            },
        ),
        mnemonic::FISTP => Some(
            if msz == 2 {
                FpuKind::FistpI16
            } else if msz == 8 {
                FpuKind::FistpI64
            } else {
                FpuKind::FistpI32
            },
        ),
        mnemonic::FISTTP => Some(
            if msz == 2 {
                FpuKind::FisttpI16
            } else if msz == 8 {
                FpuKind::FisttpI64
            } else {
                FpuKind::FisttpI32
            },
        ),
        mnemonic::FADD => Some(
            if mem {
                if msz == 4 {
                    FpuKind::FaddMemF32
                } else {
                    FpuKind::FaddMemF64
                }
            } else if st0 {
                FpuKind::FaddSti
            } else {
                FpuKind::FaddToSti
            },
        ),
        mnemonic::FADDP => Some(FpuKind::FaddP),
        mnemonic::FSUB => Some(
            if mem {
                if msz == 4 {
                    FpuKind::FsubMemF32
                } else {
                    FpuKind::FsubMemF64
                }
            } else if st0 {
                FpuKind::FsubSti
            } else {
                FpuKind::FsubToSti
            },
        ),
        mnemonic::FSUBP => Some(FpuKind::FsubP),
        mnemonic::FSUBR => Some(
            if mem {
                if msz == 4 {
                    FpuKind::FsubrMemF32
                } else {
                    FpuKind::FsubrMemF64
                }
            } else if st0 {
                FpuKind::FsubrSti
            } else {
                FpuKind::FsubrToSti
            },
        ),
        mnemonic::FSUBRP => Some(FpuKind::FsubrP),
        mnemonic::FMUL => Some(
            if mem {
                if msz == 4 {
                    FpuKind::FmulMemF32
                } else {
                    FpuKind::FmulMemF64
                }
            } else if st0 {
                FpuKind::FmulSti
            } else {
                FpuKind::FmulToSti
            },
        ),
        mnemonic::FMULP => Some(FpuKind::FmulP),
        mnemonic::FDIV => Some(
            if mem {
                if msz == 4 {
                    FpuKind::FdivMemF32
                } else {
                    FpuKind::FdivMemF64
                }
            } else if st0 {
                FpuKind::FdivSti
            } else {
                FpuKind::FdivToSti
            },
        ),
        mnemonic::FDIVP => Some(FpuKind::FdivP),
        mnemonic::FDIVR => Some(
            if mem {
                if msz == 4 {
                    FpuKind::FdivrMemF32
                } else {
                    FpuKind::FdivrMemF64
                }
            } else if st0 {
                FpuKind::FdivrSti
            } else {
                FpuKind::FdivrToSti
            },
        ),
        mnemonic::FDIVRP => Some(FpuKind::FdivrP),
        mnemonic::FLD1 => Some(FpuKind::Fld1),
        mnemonic::FLDZ => Some(FpuKind::Fldz),
        mnemonic::FABS => Some(FpuKind::Fabs),
        mnemonic::FCHS => Some(FpuKind::Fchs),
        mnemonic::FXCH => Some(FpuKind::Fxch),
        mnemonic::FUCOMI => Some(FpuKind::Fucomi),
        mnemonic::FUCOMIP => Some(FpuKind::Fucomip),
        mnemonic::FCOMI => Some(FpuKind::Fcomi),
        mnemonic::FCOMIP => Some(FpuKind::Fcomip),
        mnemonic::FLDCW => Some(FpuKind::Fldcw),
        mnemonic::FNSTCW => Some(FpuKind::Fnstcw),
        mnemonic::FNSTSW => Some(
            if mem {
                FpuKind::FnstswMem
            } else {
                FpuKind::Fnstsw
            },
        ),
        mnemonic::FPREM => Some(FpuKind::Fprem),
        mnemonic::FSIN => Some(FpuKind::Fsin),
        mnemonic::FCOS => Some(FpuKind::Fcos),
        mnemonic::FPTAN => Some(FpuKind::Fptan),
        mnemonic::FPATAN => Some(FpuKind::Fpatan),
        mnemonic::F2XM1 => Some(FpuKind::F2xm1),
        mnemonic::FYL2X => Some(FpuKind::Fyl2x),
        mnemonic::FYL2XP1 => Some(FpuKind::Fyl2xp1),
        mnemonic::FSINCOS => Some(FpuKind::Fsincos),
        _ => None,
    }
}

fn fpu_kind(insn: &Insn) -> (r: Option<FpuKind>)
    ensures
        r == x87_kind(insn),
{
    let mem: bool = has_mem(insn);
    let msz: u64 = insn.mem_size;
    let st0: bool = insn.op0.reg == register::ST0;
    match insn.mnemonic {
        mnemonic::FLD => Some(
            if !mem {
                FpuKind::FldSti
            } else if msz == 4 {
                FpuKind::FldF32
            } else if msz == 10 {
                FpuKind::FldF80
            } else {
                FpuKind::FldF64
            },
        ),
        mnemonic::FILD => Some(
            if msz == 2 {
                FpuKind::FildI16
            } else if msz == 8 {
                FpuKind::FildI64
            } else {
                FpuKind::FildI32
            },
        ),
        mnemonic::FST => Some(
            if !mem {
                FpuKind::FstSti
            } else if msz == 4 {
                FpuKind::FstF32
            } else {
                FpuKind::FstF64
            },
        ),
        mnemonic::FSTP => Some(
            if !mem {
                FpuKind::FstpSti
            } else if msz == 4 {
                FpuKind::FstpF32
            } else if msz == 10 {
                FpuKind::FstpF80
            } else {
                FpuKind::FstpF64
            },
        ),
        mnemonic::FISTP => Some(
            if msz == 2 {
                FpuKind::FistpI16
            } else if msz == 8 {
                FpuKind::FistpI64
            } else {
                FpuKind::FistpI32
            },
        ),
        mnemonic::FISTTP => Some(
            if msz == 2 {
                FpuKind::FisttpI16
            } else if msz == 8 {
                FpuKind::FisttpI64
            } else {
                FpuKind::FisttpI32
            },
        ),
        mnemonic::FADD => Some(
            if mem {
                if msz == 4 {
                    FpuKind::FaddMemF32
                } else {
                    FpuKind::FaddMemF64
                }
            } else if st0 {
                FpuKind::FaddSti
            } else {
                FpuKind::FaddToSti
            },
        ),
        mnemonic::FADDP => Some(FpuKind::FaddP),
        mnemonic::FSUB => Some(
            if mem {
                if msz == 4 {
                    FpuKind::FsubMemF32
                } else {
                    FpuKind::FsubMemF64
                }
            } else if st0 {
                FpuKind::FsubSti
            } else {
                FpuKind::FsubToSti
            },
        ),
        mnemonic::FSUBP => Some(FpuKind::FsubP),
        mnemonic::FSUBR => Some(
            if mem {
                if msz == 4 {
                    FpuKind::FsubrMemF32
                } else {
                    FpuKind::FsubrMemF64
                }
            } else if st0 {
                FpuKind::FsubrSti
            } else {
                FpuKind::FsubrToSti
            },
        ),
        mnemonic::FSUBRP => Some(FpuKind::FsubrP),
        mnemonic::FMUL => Some(
            if mem {
                if msz == 4 {
                    FpuKind::FmulMemF32
                } else {
                    FpuKind::FmulMemF64
                }
            } else if st0 {
                FpuKind::FmulSti
            } else {
                FpuKind::FmulToSti
            },
        ),
        mnemonic::FMULP => Some(FpuKind::FmulP),
        mnemonic::FDIV => Some(
            if mem {
                if msz == 4 {
                    FpuKind::FdivMemF32
                } else {
                    FpuKind::FdivMemF64
                }
            } else if st0 {
                FpuKind::FdivSti
            } else {
                FpuKind::FdivToSti
            },
        ),
        mnemonic::FDIVP => Some(FpuKind::FdivP),
        mnemonic::FDIVR => Some(
            if mem {
                if msz == 4 {
                    FpuKind::FdivrMemF32
                } else {
                    FpuKind::FdivrMemF64
                }
            } else if st0 {
                FpuKind::FdivrSti
            } else {
                FpuKind::FdivrToSti
            },
        ),
        mnemonic::FDIVRP => Some(FpuKind::FdivrP),
        mnemonic::FLD1 => Some(FpuKind::Fld1),
        mnemonic::FLDZ => Some(FpuKind::Fldz),
        mnemonic::FABS => Some(FpuKind::Fabs),
        mnemonic::FCHS => Some(FpuKind::Fchs),
        mnemonic::FXCH => Some(FpuKind::Fxch),
        mnemonic::FUCOMI => Some(FpuKind::Fucomi),
        mnemonic::FUCOMIP => Some(FpuKind::Fucomip),
        mnemonic::FCOMI => Some(FpuKind::Fcomi),
        mnemonic::FCOMIP => Some(FpuKind::Fcomip),
        mnemonic::FLDCW => Some(FpuKind::Fldcw),
        mnemonic::FNSTCW => Some(FpuKind::Fnstcw),
        mnemonic::FNSTSW => Some(
            if mem {
                FpuKind::FnstswMem
            } else {
                FpuKind::Fnstsw
            },
        ),
        mnemonic::FPREM => Some(FpuKind::Fprem),
        mnemonic::FSIN => Some(FpuKind::Fsin),
        mnemonic::FCOS => Some(FpuKind::Fcos),
        mnemonic::FPTAN => Some(FpuKind::Fptan),
        mnemonic::FPATAN => Some(FpuKind::Fpatan),
        mnemonic::F2XM1 => Some(FpuKind::F2xm1),
        mnemonic::FYL2X => Some(FpuKind::Fyl2x),
        mnemonic::FYL2XP1 => Some(FpuKind::Fyl2xp1),
        mnemonic::FSINCOS => Some(FpuKind::Fsincos),
        _ => None,
    }
}

/// A memory operand is reduced to its address; register forms carry the ST index.
/// `fnstsw ax` carries neither.
pub open spec fn x87(insn: &Insn, s: Emission) -> Emission {
    let sti: u8 = match highest_st(insn, insn.op_count as nat) {
        Some(i) => i,
        None => 1,
    };
    match x87_kind(insn) {
        None => s.fail(),
        Some(FpuKind::Fnstsw) => s.push(
            IrOp::X87 { kind: FpuKind::Fnstsw, addr: Val::Imm(0), sti: 0 },
        ),
        Some(kind) => {
            let (s1, addr) = if spec_has_mem(insn) {
                operand::address(insn, s)
            } else {
                (s, Val::Imm(0))
            };
            s1.push(IrOp::X87 { kind, addr, sti })
        },
    }
}

/// One x87 instruction.
pub fn lift_x87(insn: &Insn, em: &mut Emitter) -> (r: Result<(), LiftError>)
    requires
        old(em)@.ready(64),
    ensures
        emit::lifted(old(em)@, final(em)@, x87(insn, old(em)@), insn, r),
{
    let kind = match fpu_kind(insn) {
        Some(kind) => kind,
        None => {
            return Err(unsupported_insn(insn));
        },
    };
    if matches!(kind, FpuKind::Fnstsw) {
        em.push(IrOp::X87 { kind, addr: Val::Imm(0), sti: 0 });
        return Ok(());
    }
    let sti: u8 = st_index(insn);
    let addr = if has_mem(insn) {
        match effective_address(insn, em) {
            Ok(addr) => addr,
            Err(e) => {
                return Err(e);
            },
        }
    } else {
        Val::Imm(0)
    };
    em.push(IrOp::X87 { kind, addr, sti });
    Ok(())
}

} // verus!
