//! What control flow, the stack, string operations and system instructions do, by their names.
use crate::insn::Insn;
use crate::ir::{IrOp, MemOrder, RepKind, StrOp, Temp, Val};
use crate::lift::emit::Emission;
use crate::lift::meaning::Machine;
use crate::lift::operand::Alu;
use crate::lift::{control, dispatch, meaning, named, operand, table, vector, CpuMode};
use crate::mnemonic as mn;
use crate::state::Reg;
use crate::{code, op_kind, register};
use vstd::prelude::*;

verus! {

broadcast use operand::group_failed;

/// Exactly this operation is emitted.
pub open spec fn appends(s: Emission, s1: Emission, op: IrOp) -> bool {
    s1.ok && s1.next == s.next && s1.ops == s.ops.push(op)
}

/// An instruction of this group is lifted by its form.
pub proof fn lemma_control(insn: &Insn, mode: CpuMode, s: Emission)
    requires
        table::int_form(insn.mnemonic) is None,
        table::control_form(insn.mnemonic) is Some,
    ensures
        dispatch::insn_ir(insn, mode, s) == dispatch::control_ir(
            table::control_form(insn.mnemonic)->0,
            insn,
            mode,
            s,
        ),
{
    reveal(dispatch::insn_ir);
    reveal(table::form_of);
}

// --- jumps, calls and returns ---

/// Where a jump or call goes: a near branch to its target, any other to what operand 0 holds;
/// a 16-bit operand is cut to 16 bits, and in `Compat32` the target to 32.
pub open spec fn destination(insn: &Insn, mode: CpuMode, m: Machine) -> int {
    let x = named::value_of(insn, 0, m);
    if op_kind::is_near_branch(insn.op0.kind) {
        insn.branch_target as int % meaning::stack_space(mode)
    } else if operand::operand_size(insn, 0) == 2 {
        x as int % 0x1_0000
    } else {
        x as int % meaning::stack_space(mode)
    }
}

proof fn lemma_branch(insn: &Insn, mode: CpuMode, s: Emission, m: Machine)
    requires
        insn.wf(),
        s.ok,
        s.next + 64 <= u32::MAX,
        control::branch(insn, mode, s).0.ok,
    ensures
        ({
            let (s1, v) = control::branch(insn, mode, s);
            &&& meaning::run(s1.ops, m).value(v) == destination(
                insn,
                mode,
                meaning::run(s.ops, m),
            )
            &&& meaning::quiet(s, s1, m)
        }),
{
    if op_kind::is_near_branch(insn.op0.kind) {
        meaning::law_direct_target(insn, mode, s);
    } else {
        broadcast use meaning::group_run;

        let (s1, target) = operand::read(insn, 0, s);
        named::lemma_read(insn, 0, s, m);
        let x = named::value_of(insn, 0, meaning::run(s.ops, m));
        meaning::lemma_mask(x);
        assert(x as int % meaning::full() == x);
    }
}

/// `jmp` goes to its destination. `call` does too, and leaves the address behind it in a frame
/// of 8 bytes, or of 4 in `Compat32`; `ret` takes a frame of that width off the stack, and as
/// many bytes more as its operand says. The 16-bit forms of the last two are not supported.
/// Each ends the block, and only the destination is computed before that.
pub proof fn law_jumps(insn: &Insn, mode: CpuMode, s: Emission, m: Machine)
    requires
        insn.wf(),
        s.ok,
        s.next + 64 <= u32::MAX,
    ensures
        ({
            let (s1, ends) = dispatch::insn_ir(insn, mode, s);
            let before = meaning::run(s.ops, m);
            let at = meaning::run(s1.ops.drop_last(), m);
            let last = s1.ops.last();
            let name = insn.mnemonic;
            let slot: u8 = if mode == CpuMode::Compat32 {
                4
            } else {
                8
            };
            let behind = (insn.ip + insn.len) % meaning::stack_space(mode);
            let narrow = insn.code == code::CALL_REL16 || insn.code == code::CALL_RM16 || insn.code
                == code::RETNW || insn.code == code::RETNW_IMM16;
            &&& name == mn::JMP ==> ends && (s1.ok ==> {
                &&& last matches IrOp::Jump { target }
                &&& at.value(target) == destination(insn, mode, before)
                &&& at.same_guest(before)
                &&& op_kind::is_near_branch(insn.op0.kind) ==> target is Imm
            })
            &&& name == mn::CALL ==> ends && (narrow ==> !s1.ok) && (s1.ok ==> {
                &&& last matches IrOp::Call { target, return_addr, slot: n, wrap_sp }
                &&& at.value(target) == destination(insn, mode, before)
                &&& at.same_guest(before)
                &&& return_addr == behind
                &&& n == slot
                &&& wrap_sp == (mode == CpuMode::Compat32)
            })
            &&& name == mn::RET ==> ends && (narrow <==> !s1.ok) && (s1.ok ==> appends(
                s,
                s1,
                IrOp::Ret {
                    slot,
                    pop_extra: if insn.op_count > 0 {
                        insn.op0.imm as u16
                    } else {
                        0
                    },
                    wrap_sp: mode == CpuMode::Compat32,
                },
            ))
        }),
{
    let name = insn.mnemonic;
    if name == mn::JMP || name == mn::CALL {
        lemma_control(insn, mode, s);
        let (s1, target) = control::branch(insn, mode, s);
        if dispatch::insn_ir(insn, mode, s).0.ok {
            lemma_branch(insn, mode, s, m);
            assert(dispatch::insn_ir(insn, mode, s).0.ops.drop_last() =~= s1.ops);
        }
        meaning::lemma_mask(insn.next_ip());
        meaning::lemma_narrower(insn.ip + insn.len);
    } else if name == mn::RET {
        lemma_control(insn, mode, s);
    }
}

// --- the stack ---

/// The width of a push or pop: that of its operand; for a constant 2 where the instruction has
/// a 16-bit operand size, and else that of a frame.
pub open spec fn stack_width(insn: &Insn, mode: CpuMode) -> u8 {
    if operand::operand_size(insn, 0) != 0 {
        operand::operand_size(insn, 0)
    } else if insn.code == code::PUSH_IMM16 || insn.code == code::PUSHW_IMM8 {
        2
    } else if mode == CpuMode::Compat32 {
        4
    } else {
        8
    }
}

/// `push` moves the stack pointer down and writes there what operand 0 held before; `leave`
/// makes the frame pointer the stack pointer and pops the frame pointer. The stack pointer
/// wraps at 32 bits in `Compat32`.
pub proof fn law_push_and_leave(insn: &Insn, mode: CpuMode, s: Emission, m: Machine)
    requires
        insn.wf(),
        s.ok,
        s.next + 64 <= u32::MAX,
        dispatch::insn_ir(insn, mode, s).0.ok,
    ensures
        ({
            let before = meaning::run(s.ops, m);
            let after = meaning::run(dispatch::insn_ir(insn, mode, s).0.ops, m);
            let wrap = meaning::stack_space(mode);
            &&& insn.mnemonic == mn::PUSH ==> {
                let size = stack_width(insn, mode);
                let sp = ((before.regs[Reg::Rsp] - size) % wrap) as u64;
                after.same_guest(
                    Machine {
                        regs: before.regs.insert(Reg::Rsp, sp),
                        mem: meaning::stored(
                            before.mem,
                            sp,
                            named::value_of(insn, 0, before) as int,
                            size as nat,
                        ),
                        ..before
                    },
                )
            }
            &&& insn.mnemonic == mn::LEAVE ==> {
                let size: u8 = if insn.code == code::LEAVEW {
                    2
                } else if mode == CpuMode::Compat32 {
                    4
                } else {
                    8
                };
                let rbp = before.regs[Reg::Rbp];
                let v = meaning::load(before.mem, rbp, size as nat) as u64;
                after.same_guest(
                    Machine {
                        regs: before.regs.insert(
                            Reg::Rbp,
                            meaning::written(rbp, v, size),
                        ).insert(Reg::Rsp, ((rbp + size) % wrap) as u64),
                        ..before
                    },
                )
            }
        }),
{
    if insn.mnemonic == mn::PUSH {
        lemma_control(insn, mode, s);
        lemma_push(insn, mode, s, m);
    } else if insn.mnemonic == mn::LEAVE {
        broadcast use meaning::group_run;

        lemma_control(insn, mode, s);
        let before = meaning::run(s.ops, m);
        let size: u8 = if insn.code == code::LEAVEW {
            2
        } else {
            operand::stack_slot(mode)
        };
        meaning::lemma_narrower(before.regs[Reg::Rbp] + size);
    }
}

proof fn lemma_push(insn: &Insn, mode: CpuMode, s: Emission, m: Machine)
    requires
        insn.wf(),
        s.ok,
        s.next + 64 <= u32::MAX,
        control::push(insn, mode, s).ok,
    ensures
        ({
            let before = meaning::run(s.ops, m);
            let after = meaning::run(control::push(insn, mode, s).ops, m);
            let size = stack_width(insn, mode);
            let sp = ((before.regs[Reg::Rsp] - size) % meaning::stack_space(mode)) as u64;
            after.same_guest(
                Machine {
                    regs: before.regs.insert(Reg::Rsp, sp),
                    mem: meaning::stored(
                        before.mem,
                        sp,
                        named::value_of(insn, 0, before) as int,
                        size as nat,
                    ),
                    ..before
                },
            )
        }),
{
    broadcast use meaning::group_run;

    reveal(control::push);
    let before = meaning::run(s.ops, m);
    let size = operand::push_pop_size(insn, mode);
    let (s1, src) = operand::read(insn, 0, s);
    if s1.ok {
        named::lemma_read(insn, 0, s, m);
        let down = before.regs[Reg::Rsp] - size;
        meaning::lemma_narrower(down);
        meaning::lemma_mask((down % meaning::full()) as u64);
    }
}

/// `pop` reads where the stack pointer points and moves it up. A register is written after
/// that, so that `pop rsp` leaves what was popped; memory before that.
pub proof fn law_pop(insn: &Insn, mode: CpuMode, s: Emission, m: Machine)
    requires
        insn.wf(),
        s.ok,
        s.next + 64 <= u32::MAX,
        insn.mnemonic == mn::POP,
        dispatch::insn_ir(insn, mode, s).0.ok,
    ensures
        ({
            let before = meaning::run(s.ops, m);
            let after = meaning::run(dispatch::insn_ir(insn, mode, s).0.ops, m);
            let size = stack_width(insn, mode);
            let rsp = before.regs[Reg::Rsp];
            let sp = ((rsp + size) % meaning::stack_space(mode)) as u64;
            let v = meaning::load(before.mem, rsp, size as nat) as u64;
            if insn.is_mem(0) {
                let p = named::put(insn, 0, before, v);
                after.same_guest(Machine { regs: p.regs.insert(Reg::Rsp, sp), ..p })
            } else {
                after.same_guest(
                    named::put(
                        insn,
                        0,
                        Machine { regs: before.regs.insert(Reg::Rsp, sp), ..before },
                        v,
                    ),
                )
            }
        }),
{
    broadcast use meaning::group_run;

    lemma_control(insn, mode, s);
    reveal(control::pop);
    reveal(operand::target);
    let before = meaning::run(s.ops, m);
    let size = operand::push_pop_size(insn, mode);
    let rsp_value = before.regs[Reg::Rsp];
    meaning::lemma_narrower(rsp_value + size);
    let (s1, rsp) = operand::reg_read(Reg::Rsp, s);
    let s2 = s1.def(IrOp::Load { dst: s1.next, addr: rsp, size });
    let (s3, up) = operand::alu(Alu::Add, rsp, Val::Imm(size as u64), s2);
    let popped = Val::Temp(s1.next);
    let back = IrOp::WriteReg { reg: Reg::Rsp, src: up, size: operand::stack_slot(mode) };
    if insn.is_mem(0) {
        let s5 = operand::store(insn, 0, popped, s3);
        assert(control::pop(insn, mode, s) == s5.push(back)) by {
            reveal(operand::store);
        }
        named::lemma_store(insn, 0, popped, s3, m);
        named::lemma_same_guest(insn, 0, before, meaning::run(s3.ops, m));
        named::lemma_put_keeps_registers(insn, before);
    } else {
        let s4 = s3.push(back);
        assert(control::pop(insn, mode, s) == operand::store(insn, 0, popped, s4)) by {
            reveal(operand::store);
        }
        named::lemma_store(insn, 0, popped, s4, m);
        let sp = ((rsp_value + size) % meaning::stack_space(mode)) as u64;
        let moved = Machine { regs: before.regs.insert(Reg::Rsp, sp), ..before };
        assert(meaning::run(s4.ops, m).same_guest(moved));
        named::lemma_same_guest(insn, 0, moved, meaning::run(s4.ops, m));
    }
}

// --- strings ---

/// The string operation that the name stands for, and the bytes of its element.
pub open spec fn string_named(name: u16) -> Option<(StrOp, u8)> {
    if name == mn::MOVSB {
        Some((StrOp::Movs, 1))
    } else if name == mn::MOVSW {
        Some((StrOp::Movs, 2))
    } else if name == mn::MOVSQ {
        Some((StrOp::Movs, 8))
    } else if name == mn::STOSB {
        Some((StrOp::Stos, 1))
    } else if name == mn::STOSW {
        Some((StrOp::Stos, 2))
    } else if name == mn::STOSD {
        Some((StrOp::Stos, 4))
    } else if name == mn::STOSQ {
        Some((StrOp::Stos, 8))
    } else if name == mn::LODSB {
        Some((StrOp::Lods, 1))
    } else if name == mn::LODSW {
        Some((StrOp::Lods, 2))
    } else if name == mn::LODSD {
        Some((StrOp::Lods, 4))
    } else if name == mn::LODSQ {
        Some((StrOp::Lods, 8))
    } else if name == mn::SCASB {
        Some((StrOp::Scas, 1))
    } else if name == mn::SCASW {
        Some((StrOp::Scas, 2))
    } else if name == mn::SCASD {
        Some((StrOp::Scas, 4))
    } else if name == mn::SCASQ {
        Some((StrOp::Scas, 8))
    } else if name == mn::CMPSB {
        Some((StrOp::Cmps, 1))
    } else if name == mn::CMPSW {
        Some((StrOp::Cmps, 2))
    } else if name == mn::CMPSQ {
        Some((StrOp::Cmps, 8))
    } else {
        None
    }
}

/// A string instruction emits one string operation: the one of its name, with the element of
/// its name. `repne` and `repe` are told apart for the comparing ones only, and a segment
/// prefix counts for those that read through the source pointer.
pub proof fn law_strings(insn: &Insn, mode: CpuMode, s: Emission, m: Machine)
    requires
        s.ok,
        s.next + 64 <= u32::MAX,
        string_named(insn.mnemonic) is Some,
    ensures
        ({
            let (s1, ends) = dispatch::insn_ir(insn, mode, s);
            let before = meaning::run(s.ops, m);
            let at = meaning::run(s1.ops.drop_last(), m);
            let (want, bytes) = string_named(insn.mnemonic)->0;
            let compares = want is Scas || want is Cmps;
            let from_source = want is Movs || want is Lods || want is Cmps;
            &&& !ends
            &&& s1.ok
            &&& at.same_guest(before)
            &&& s1.ops.last() matches IrOp::RepString { op, elem, rep, addr_bits, seg_base }
            &&& op == want
            &&& elem == bytes
            &&& rep == if compares && insn.repne {
                RepKind::Repne
            } else if compares && insn.rep {
                RepKind::Repe
            } else if insn.rep {
                RepKind::Rep
            } else {
                RepKind::Once
            }
            &&& addr_bits == control::string_addr_bits(insn)
            &&& at.value(seg_base) == if from_source {
                meaning::segment_base(insn, before)
            } else {
                0
            }
        }),
{
    broadcast use meaning::group_run;

    lemma_control(insn, mode, s);
    let (op, elem) = string_named(insn.mnemonic)->0;
    lemma_string(insn, op, elem, s, m);
}

/// `movsd` and `cmpsd` without a vector register are the string instructions on doublewords.
pub proof fn law_string_doublewords(insn: &Insn, mode: CpuMode, s: Emission, m: Machine)
    requires
        s.ok,
        s.next + 64 <= u32::MAX,
        insn.mnemonic == mn::MOVSD || insn.mnemonic == mn::CMPSD,
        vector::xmm(insn.op0) is None,
        vector::xmm(insn.op1) is None,
    ensures
        ({
            let (s1, ends) = dispatch::insn_ir(insn, mode, s);
            let before = meaning::run(s.ops, m);
            let at = meaning::run(s1.ops.drop_last(), m);
            &&& !ends
            &&& s1.ok
            &&& at.same_guest(before)
            &&& s1.ops.last() matches IrOp::RepString { op, elem, rep, addr_bits, seg_base }
            &&& insn.mnemonic == mn::MOVSD ==> op is Movs && rep == if insn.rep {
                RepKind::Rep
            } else {
                RepKind::Once
            }
            &&& insn.mnemonic == mn::CMPSD ==> op is Cmps && rep == if insn.repne {
                RepKind::Repne
            } else if insn.rep {
                RepKind::Repe
            } else {
                RepKind::Once
            }
            &&& elem == 4
            &&& addr_bits == control::string_addr_bits(insn)
            &&& at.value(seg_base) == meaning::segment_base(insn, before)
        }),
{
    broadcast use meaning::group_run;

    vector::lemma_float(insn, mode, s, table::float_form(insn.mnemonic)->0);
    reveal(dispatch::movsd);
    reveal(dispatch::cmpsd);
    lemma_string(insn, StrOp::Movs, 4, s, m);
    lemma_string(insn, StrOp::Cmps, 4, s, m);
}

proof fn lemma_string(insn: &Insn, op: StrOp, elem: u8, s: Emission, m: Machine)
    requires
        s.ok,
        s.next + 64 <= u32::MAX,
    ensures
        ({
            let s1 = control::string(insn, op, elem, s);
            let before = meaning::run(s.ops, m);
            let at = meaning::run(s1.ops.drop_last(), m);
            &&& s1.ok
            &&& at.same_guest(before)
            &&& s1.ops.last() matches IrOp::RepString { op: o, elem: e, rep, addr_bits, seg_base }
            &&& o == op
            &&& e == elem
            &&& rep == control::rep_kind(insn, op)
            &&& addr_bits == control::string_addr_bits(insn)
            &&& at.value(seg_base) == if op is Stos || op is Scas {
                0
            } else {
                meaning::segment_base(insn, before)
            }
        }),
{
    broadcast use meaning::group_run;

    reveal(control::string);
    let s1 = control::string(insn, op, elem, s);
    let read = if op is Stos || op is Scas {
        s
    } else if insn.segment == register::FS {
        operand::reg_read(Reg::FsBase, s).0
    } else if insn.segment == register::GS {
        operand::reg_read(Reg::GsBase, s).0
    } else {
        s
    };
    assert(s1.ops.drop_last() =~= read.ops);
}

/// The operand goes through a 16-bit pointer.
pub open spec fn through_16(kind: u8) -> bool {
    kind == op_kind::MEMORY_SEG_SI || kind == op_kind::MEMORY_SEG_DI || kind
        == op_kind::MEMORY_ES_DI
}

/// The operand goes through a 32-bit pointer.
pub open spec fn through_32(kind: u8) -> bool {
    kind == op_kind::MEMORY_SEG_ESI || kind == op_kind::MEMORY_SEG_EDI || kind
        == op_kind::MEMORY_ES_EDI
}

/// The width of the pointers of a string instruction is that of the registers that its
/// operands go through.
pub proof fn law_string_pointers(insn: &Insn)
    ensures
        ({
            let a = insn.op0.kind;
            let b = insn.op1.kind;
            let bits = control::string_addr_bits(insn);
            &&& through_16(a) ==> bits == 16
            &&& through_32(a) ==> bits == 32
            &&& !through_16(a) && !through_32(a) && through_16(b) ==> bits == 16
            &&& !through_16(a) && !through_32(a) && through_32(b) ==> bits == 32
            &&& !through_16(a) && !through_32(a) && !through_16(b) && !through_32(b) ==> bits == 64
        }),
{
}

// --- the system ---

/// System instructions by their names: what each emits, and whether it ends the block.
pub proof fn law_system(insn: &Insn, mode: CpuMode, s: Emission)
    requires
        s.ok,
    ensures
        ({
            let (s1, ends) = dispatch::insn_ir(insn, mode, s);
            let name = insn.mnemonic;
            &&& name == mn::SYSCALL ==> ends && appends(s, s1, IrOp::Syscall { is_amd64: true })
            &&& name == mn::HLT ==> ends && appends(s, s1, IrOp::Hlt)
            &&& name == mn::INT && (insn.op0.imm as u8) == 0x80 ==> ends && appends(
                s,
                s1,
                IrOp::Syscall { is_amd64: false },
            )
            &&& name == mn::INT && (insn.op0.imm as u8) != 0x80 ==> ends && appends(
                s,
                s1,
                IrOp::Trap { vector: insn.op0.imm as u8, advance: insn.len },
            )
            &&& name == mn::UD2 ==> ends && appends(s, s1, IrOp::Trap { vector: 6, advance: 0 })
            &&& name == mn::INT3 ==> ends && appends(
                s,
                s1,
                IrOp::Trap { vector: 3, advance: insn.len },
            )
            &&& name == mn::INT1 ==> ends && appends(
                s,
                s1,
                IrOp::Trap { vector: 1, advance: insn.len },
            )
            &&& name == mn::CPUID ==> !ends && appends(s, s1, IrOp::Cpuid)
            &&& name == mn::XGETBV ==> !ends && appends(s, s1, IrOp::Xgetbv)
            &&& name == mn::RDTSC ==> !ends && s1.ok && s1.next == s.next && s1.ops == s.ops.push(
                IrOp::WriteReg { reg: Reg::Rax, src: Val::Imm(0x1234_5678), size: 4 },
            ).push(IrOp::WriteReg { reg: Reg::Rdx, src: Val::Imm(0), size: 4 })
            &&& name == mn::STD ==> !ends && appends(s, s1, IrOp::SetDf { value: true })
            &&& name == mn::CLD ==> !ends && appends(s, s1, IrOp::SetDf { value: false })
            &&& name == mn::FXSAVE || name == mn::FXSAVE64 ==> !ends && {
                let (s2, addr) = operand::address(insn, s);
                s2.ok ==> appends(s2, s1, IrOp::FxState { addr, restore: false })
            }
            &&& name == mn::FXRSTOR || name == mn::FXRSTOR64 ==> !ends && {
                let (s2, addr) = operand::address(insn, s);
                s2.ok ==> appends(s2, s1, IrOp::FxState { addr, restore: true })
            }
            &&& name == mn::STMXCSR || name == mn::VSTMXCSR ==> !ends && {
                let (s2, addr) = operand::address(insn, s);
                s2.ok ==> appends(
                    s2,
                    s1,
                    IrOp::Store {
                        addr,
                        src: Val::Imm(0x1F80),
                        size: 4,
                        order: MemOrder::Plain,
                    },
                )
            }
            &&& name == mn::IN || name == mn::OUT ==> ends && (s1.ok ==> {
                &&& s1.ops.last() matches IrOp::PortIo { port, value, size, dir_out }
                &&& dir_out == (name == mn::OUT)
                &&& size == if dir_out {
                    operand::operand_size(insn, 1)
                } else {
                    operand::operand_size(insn, 0)
                }
                &&& size == 1 || size == 2 || size == 4
                &&& !dir_out ==> value == Val::Imm(0)
            })
        }),
{
    let name = insn.mnemonic;
    if name == mn::SYSCALL || name == mn::HLT || name == mn::INT || name == mn::UD2 || name
        == mn::INT3 || name == mn::INT1 || name == mn::CPUID || name == mn::XGETBV || name
        == mn::RDTSC || name == mn::STD || name == mn::CLD || name == mn::FXSAVE || name == mn::FXSAVE64 || name
        == mn::FXRSTOR || name == mn::FXRSTOR64 || name == mn::STMXCSR || name == mn::VSTMXCSR
        || name == mn::IN || name == mn::OUT {
        lemma_control(insn, mode, s);
    }
}

/// The port and the value of an access: a constant port or the low 16 bits of the data
/// register, and for `out` the accumulator.
pub proof fn law_ports(insn: &Insn, mode: CpuMode, s: Emission, m: Machine)
    requires
        s.ok,
        s.next + 64 <= u32::MAX,
        insn.mnemonic == mn::IN || insn.mnemonic == mn::OUT,
        dispatch::insn_ir(insn, mode, s).0.ok,
    ensures
        ({
            let (s1, _) = dispatch::insn_ir(insn, mode, s);
            let before = meaning::run(s.ops, m);
            let at = meaning::run(s1.ops.drop_last(), m);
            let from = if insn.mnemonic == mn::OUT {
                insn.op0
            } else {
                insn.op1
            };
            &&& at.same_guest(before)
            &&& s1.ops.last() matches IrOp::PortIo { port, value, .. }
            &&& from.kind == op_kind::IMMEDIATE8 ==> at.value(port) == from.imm as int % 0x1_0000
            &&& from.kind == op_kind::REGISTER ==> at.value(port) == before.regs[Reg::Rdx] as int
                % 0x1_0000
            &&& insn.mnemonic == mn::OUT ==> at.value(value) == before.regs[Reg::Rax]
        }),
{
    broadcast use meaning::group_run;

    lemma_control(insn, mode, s);
    let dir_out = insn.mnemonic == mn::OUT;
    let before = meaning::run(s.ops, m);
    let at: u32 = if dir_out {
        0
    } else {
        1
    };
    meaning::lemma_mask(insn.op(at).imm);
    meaning::lemma_mask(before.regs[Reg::Rdx]);
    let (s1, port) = if insn.op(at).kind == op_kind::IMMEDIATE8 {
        (s, Val::Imm(insn.op(at).imm & 0xffff))
    } else {
        let (s1, dx) = operand::reg_read(Reg::Rdx, s);
        operand::alu(Alu::And, dx, Val::Imm(0xffff), s1)
    };
    let (s2, value) = if dir_out {
        operand::reg_read(Reg::Rax, s1)
    } else {
        (s1, Val::Imm(0))
    };
    assert(dispatch::insn_ir(insn, mode, s).0.ops.drop_last() =~= s2.ops);
}

} // verus!
