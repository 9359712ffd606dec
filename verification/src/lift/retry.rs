//! Restarting an instruction that trapped: within one instruction every operation that can
//! trap comes before the registers are written, so that the instruction can be run again from
//! its start.
use crate::insn::Insn;
use crate::ir::{FlagMask, IrOp, RmwOp, Val};
use crate::lift::emit::Emission;
use crate::lift::integer::{BinOp, UnaryOp};
use crate::lift::{control, integer, operand, CpuMode, WriteTarget};
use crate::state::Reg;
use vstd::prelude::*;

verus! {

/// The operation can trap: it accesses memory, or divides.
pub open spec fn may_trap(op: IrOp) -> bool {
    op is Load || op is Store || op is AtomicRmw || op is AtomicCas || op is Div
}

/// The operation writes a register.
pub open spec fn commits(op: IrOp) -> bool {
    op is WriteReg
}

/// The index of the first operation of an instruction that is lifted in `s`.
pub open spec fn start(s: Emission) -> int {
    s.ops.len() as int
}

/// From index `from` on nothing writes a register.
pub open spec fn untouched(ops: Seq<IrOp>, from: int) -> bool {
    from >= 0 && forall|i: int| from <= i < ops.len() ==> !commits(#[trigger] ops[i])
}

/// From index `from` on nothing can trap once a register has been written.
pub open spec fn restartable(ops: Seq<IrOp>, from: int) -> bool {
    forall|i: int, j: int|
        from <= i < j < ops.len() && commits(#[trigger] ops[i]) ==> !may_trap(#[trigger] ops[j])
}

broadcast proof fn lemma_untouched_push(ops: Seq<IrOp>, op: IrOp, from: int)
    requires
        untouched(ops, from),
        !commits(op),
    ensures
        #[trigger] untouched(ops.push(op), from),
{
    assert forall|i: int| from <= i < ops.push(op).len() implies !commits(
        #[trigger] ops.push(op)[i],
    ) by {
        if i < ops.len() {
            assert(!commits(ops[i]));
        }
    }
}

broadcast proof fn lemma_restartable_push(ops: Seq<IrOp>, op: IrOp, from: int)
    requires
        from >= 0,
        untouched(ops, from) || (restartable(ops, from) && !may_trap(op)),
    ensures
        #[trigger] restartable(ops.push(op), from),
{
    let next = ops.push(op);
    assert forall|i: int, j: int|
        from <= i < j < next.len() && commits(#[trigger] next[i]) implies !may_trap(
        #[trigger] next[j],
    ) by {
        assert(next[i] == ops[i]);
        if j < ops.len() {
            assert(next[j] == ops[j]);
        }
    }
}

broadcast proof fn lemma_untouched_is_restartable(ops: Seq<IrOp>, from: int)
    requires
        untouched(ops, from),
    ensures
        #[trigger] restartable(ops, from),
{
}

broadcast group group_retry {
    lemma_untouched_push,
    lemma_restartable_push,
    lemma_untouched_is_restartable,
}

proof fn lemma_address(insn: &Insn, s: Emission, from: int)
    requires
        untouched(s.ops, from),
    ensures
        untouched(operand::address(insn, s).0.ops, from),
{
    broadcast use group_retry;

    reveal(operand::address);
    reveal(operand::offset);
}

proof fn lemma_read(insn: &Insn, i: u32, s: Emission, from: int)
    requires
        untouched(s.ops, from),
    ensures
        untouched(operand::read(insn, i, s).0.ops, from),
{
    broadcast use group_retry;

    reveal(operand::read);
    lemma_address(insn, s, from);
}

proof fn lemma_target(insn: &Insn, i: u32, s: Emission, from: int)
    requires
        untouched(s.ops, from),
    ensures
        untouched(operand::target(insn, i, s).0.ops, from),
{
    broadcast use group_retry;

    reveal(operand::target);
    lemma_address(insn, s, from);
}

/// Writing an operand is the last that an instruction does: a store, or registers.
proof fn lemma_store(insn: &Insn, i: u32, value: Val, s: Emission, from: int)
    requires
        untouched(s.ops, from),
    ensures
        restartable(operand::store(insn, i, value, s).ops, from),
{
    broadcast use group_retry;

    reveal(operand::store);
    lemma_target(insn, i, s, from);
    lemma_write(operand::target(insn, i, s).1, value, operand::target(insn, i, s).0, from);
}

proof fn lemma_write(target: WriteTarget, value: Val, s: Emission, from: int)
    requires
        untouched(s.ops, from),
    ensures
        restartable(operand::write(target, value, s).ops, from),
{
    broadcast use group_retry;

    reveal(operand::write);
}

/// Writing a register once more cannot trap.
proof fn lemma_write_register(target: WriteTarget, value: Val, s: Emission, from: int)
    requires
        from >= 0,
        restartable(s.ops, from),
        !(target is Mem),
    ensures
        restartable(operand::write(target, value, s).ops, from),
{
    broadcast use group_retry;

    reveal(operand::write);
}

/// Storing to an operand in a register cannot trap.
proof fn lemma_store_register(insn: &Insn, i: u32, value: Val, s: Emission, from: int)
    requires
        from >= 0,
        restartable(s.ops, from),
        !insn.is_mem(i),
    ensures
        restartable(operand::store(insn, i, value, s).ops, from),
{
    broadcast use group_retry;

    reveal(operand::store);
    reveal(operand::target);
    let (s1, w) = operand::target(insn, i, s);
    if s1.ok {
        lemma_write_register(w, value, s1, from);
    } else {
        reveal(operand::write);
    }
}

/// `push` stores before it moves the stack pointer.
pub proof fn law_push_restarts(insn: &Insn, mode: CpuMode, s: Emission)
    ensures
        restartable(control::push(insn, mode, s).ops, start(s)),
{
    broadcast use group_retry;

    reveal(control::push);
    lemma_read(insn, 0, s, start(s));
}

/// `pop` loads, and stores to a memory destination, before it moves the stack pointer.
pub proof fn law_pop_restarts(insn: &Insn, mode: CpuMode, s: Emission)
    ensures
        restartable(control::pop(insn, mode, s).ops, start(s)),
{
    broadcast use group_retry;

    reveal(control::pop);
    let from = start(s);
    let size = operand::push_pop_size(insn, mode);
    let (s1, rsp) = operand::reg_read(Reg::Rsp, s);
    let s2 = s1.def(IrOp::Load { dst: s1.next, addr: rsp, size });
    let (s3, new_rsp) = operand::alu(operand::Alu::Add, rsp, Val::Imm(size as u64), s2);
    let back = IrOp::WriteReg { reg: Reg::Rsp, src: new_rsp, size: operand::stack_slot(mode) };
    let (s4, dst) = operand::target(insn, 0, s3);
    lemma_target(insn, 0, s3, from);
    lemma_write(dst, Val::Temp(s1.next), s4, from);
    if !(dst is Mem) {
        lemma_write_register(dst, Val::Temp(s1.next), s4.push(back), from);
    }
}

/// `leave` loads before it writes the frame and stack pointers.
pub proof fn law_leave_restarts(insn: &Insn, mode: CpuMode, s: Emission)
    ensures
        restartable(control::leave(insn, mode, s).ops, start(s)),
{
    broadcast use group_retry;

}

/// `mov` reads before it writes.
pub proof fn law_mov_restarts(insn: &Insn, s: Emission)
    ensures
        restartable(integer::mov(insn, s).ops, start(s)),
{
    broadcast use group_retry;

    let from = start(s);
    lemma_read(insn, 1, s, from);
    let (s1, src) = operand::read(insn, 1, s);
    lemma_store(insn, 0, src, s1, from);
}

/// Arithmetic on two operands accesses memory before it writes its result.
pub proof fn law_binop_restarts(
    insn: &Insn,
    op: BinOp,
    flags: FlagMask,
    write_back: bool,
    s: Emission,
)
    ensures
        restartable(integer::binop(insn, op, flags, write_back, s).ops, start(s)),
{
    broadcast use group_retry;

    let from = start(s);
    let size = operand::operation_size(insn);
    if insn.is_mem(0) {
        lemma_address(insn, s, from);
        let (s1, addr) = operand::address(insn, s);
        lemma_read(insn, 1, s1, from);
        let (s2, a) = integer::load(addr, size, s1);
        lemma_read(insn, 1, s2, from);
    } else {
        lemma_read(insn, 0, s, from);
        let (s1, a) = operand::read(insn, 0, s);
        lemma_read(insn, 1, s1, from);
        let (s2, b) = operand::read(insn, 1, s1);
        let (s3, res) = integer::bin(op, a, b, size, flags, s2);
        lemma_store(insn, 0, res, s3, from);
    }
}

/// Arithmetic on one operand accesses memory before it writes its result.
pub proof fn law_unary_restarts(insn: &Insn, op: UnaryOp, s: Emission)
    ensures
        restartable(integer::unary_op0(insn, op, s).ops, start(s)),
{
    broadcast use group_retry;

    let from = start(s);
    if insn.is_mem(0) {
        lemma_address(insn, s, from);
    } else {
        lemma_read(insn, 0, s, from);
        let (s1, a) = operand::read(insn, 0, s);
        let (s2, res) = integer::unary(op, a, operand::operand_size(insn, 0), s1);
        lemma_store(insn, 0, res, s2, from);
    }
}

/// A division that traps leaves its registers as they were.
pub proof fn law_div_restarts(insn: &Insn, signed: bool, s: Emission)
    ensures
        restartable(integer::div(insn, signed, s).ops, start(s)),
{
    broadcast use group_retry;

    let from = start(s);
    if operand::operand_size(insn, 0) == 1 {
        let (s1, rax) = operand::reg_read(Reg::Rax, s);
        let (s2, hi) = operand::alu(operand::Alu::Shr, rax, Val::Imm(8), s1);
        lemma_read(insn, 0, s2, from);
        let (s3, divisor) = operand::read(insn, 0, s2);
        let (s4, quot, rem) = integer::division(hi, rax, divisor, 1, signed, s3);
        let s5 = s4.push(IrOp::WriteReg { reg: Reg::Rax, src: quot, size: 1 });
        lemma_write_register(WriteTarget::HighByte { parent: Reg::Rax }, rem, s5, from);
    } else {
        let (s1, hi) = operand::reg_read(Reg::Rdx, s);
        let (s2, lo) = operand::reg_read(Reg::Rax, s1);
        lemma_read(insn, 0, s2, from);
    }
}

/// The widening multiplications read their operand before they write a register.
pub proof fn law_widening_mul_restarts(insn: &Insn, signed: bool, s: Emission)
    ensures
        restartable(integer::widening_mul(insn, signed, s).ops, start(s)),
{
    broadcast use group_retry;

    let (s1, a) = operand::reg_read(Reg::Rax, s);
    lemma_read(insn, 0, s1, start(s));
}

/// `shld` and `shrd` access memory before they write their result.
pub proof fn law_double_shift_restarts(insn: &Insn, left: bool, s: Emission)
    ensures
        restartable(integer::double_shift(insn, left, s).ops, start(s)),
{
    broadcast use group_retry;

    let from = start(s);
    lemma_read(insn, 1, s, from);
    let (s1, b) = operand::read(insn, 1, s);
    lemma_read(insn, 2, s1, from);
    let (s2, count) = operand::read(insn, 2, s1);
    let s3 = s2.fresh();
    if insn.is_mem(0) {
        lemma_address(insn, s3, from);
    } else {
        lemma_read(insn, 0, s3, from);
        let (s4, a) = operand::read(insn, 0, s3);
        let s5 = s4.push(
            IrOp::DoubleShift {
                dst: s2.next,
                a,
                b,
                count,
                size: operand::operand_size(insn, 0),
                left,
                set_flags: FlagMask::shift(),
            },
        );
        lemma_store(insn, 0, Val::Temp(s2.next), s5, from);
    }
}

/// `cmpxchg` exchanges in memory before it writes the accumulator.
pub proof fn law_cmpxchg_restarts(insn: &Insn, s: Emission)
    ensures
        restartable(integer::cmpxchg(insn, s).ops, start(s)),
{
    broadcast use group_retry;

    let from = start(s);
    lemma_address(insn, s, from);
    let (s1, addr) = operand::address(insn, s);
    lemma_read(insn, 1, s1, from);
}

/// `xadd` adds in memory before it writes a register. Its source is a register.
pub proof fn law_xadd_restarts(insn: &Insn, s: Emission)
    requires
        !insn.is_mem(1),
    ensures
        restartable(integer::xadd(insn, s).ops, start(s)),
{
    broadcast use group_retry;

    let from = start(s);
    let size = operand::operand_size(insn, 0);
    lemma_read(insn, 1, s, from);
    let (s1, src) = operand::read(insn, 1, s);
    if insn.is_mem(0) {
        lemma_address(insn, s1, from);
        let (s2, addr) = operand::address(insn, s1);
        let (s3, before) = integer::rmw(addr, src, size, RmwOp::Add, s2);
        let (s4, _) = integer::bin(BinOp::Add, before, src, size, FlagMask::all(), s3);
        lemma_store(insn, 1, before, s4, from);
    } else {
        lemma_read(insn, 0, s1, from);
        let (s2, before) = operand::read(insn, 0, s1);
        let (s3, res) = integer::bin(BinOp::Add, before, src, size, FlagMask::all(), s2);
        lemma_store(insn, 1, before, s3, from);
        lemma_store_register(insn, 0, res, operand::store(insn, 1, before, s3), from);
    }
}

/// `xchg` exchanges in memory before it writes a register.
pub proof fn law_xchg_restarts(insn: &Insn, s: Emission)
    ensures
        restartable(integer::xchg(insn, s).ops, start(s)),
{
    broadcast use group_retry;

    let from = start(s);
    if insn.is_mem(0) || insn.is_mem(1) {
        let reg: u32 = if insn.is_mem(0) { 1 } else { 0 };
        let size = operand::operand_size(insn, reg);
        lemma_address(insn, s, from);
        let (s1, addr) = operand::address(insn, s);
        lemma_read(insn, reg, s1, from);
        let (s2, value) = operand::read(insn, reg, s1);
        let (s3, before) = integer::rmw(addr, value, size, RmwOp::Xchg, s2);
        lemma_store(insn, reg, before, s3, from);
    } else {
        lemma_read(insn, 0, s, from);
        let (s1, a) = operand::read(insn, 0, s);
        lemma_read(insn, 1, s1, from);
        let (s2, b) = operand::read(insn, 1, s1);
        lemma_target(insn, 0, s2, from);
        let (s3, w0) = operand::target(insn, 0, s2);
        lemma_target(insn, 1, s3, from);
        let (s4, w1) = operand::target(insn, 1, s3);
        lemma_write(w0, b, s4, from);
        reveal(operand::target);
        let s5 = operand::write(w0, b, s4);
        if s4.ok {
            lemma_write_register(w1, a, s5, from);
        } else {
            reveal(operand::write);
        }
    }
}

} // verus!
