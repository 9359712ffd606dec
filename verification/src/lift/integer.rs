//! Integer instructions.
use crate::insn::Insn;
use crate::ir::{
    BitScanOp, BmiOp, BtOp, Cond, FlagMask, IrOp, MemOrder, RmwOp, Temp, Val,
};
use crate::lift::emit::{Emission, Emitter};
use crate::lift::operand::{
    alu_none, effective_address, effective_address_no_segment, emit_write, lower_read,
    lower_write_target, operand_size, operation_size, read_reg, size_mask, unsupported_insn,
    write_operand, Alu,
};
use crate::lift::{emit, operand, LiftError, WriteTarget};
use crate::op_kind;
use crate::state::Reg;
use vstd::prelude::*;

verus! {

broadcast use operand::group_failed;

/// Two-operand arithmetic and logic.
#[derive(Copy, Clone, Debug)]
pub enum BinOp {
    Add,
    Adc,
    Sub,
    Sbb,
    And,
    Or,
    Xor,
    Shl,
    Shr,
    Sar,
    Rol,
    Ror,
    Rcl,
    Rcr,
}

pub open spec fn spec_rmw_of_binop(op: BinOp) -> Option<RmwOp> {
    match op {
        BinOp::Add => Some(RmwOp::Add),
        BinOp::Sub => Some(RmwOp::Sub),
        BinOp::And => Some(RmwOp::And),
        BinOp::Or => Some(RmwOp::Or),
        BinOp::Xor => Some(RmwOp::Xor),
        _ => None,
    }
}

/// The atomic read-modify-write that a lock-prefixed operation maps to, if any. `adc`,
/// `sbb` (carry-dependent), shifts and rotates have no atomic form and fall back to
/// load, operation and store.
#[verifier::when_used_as_spec(spec_rmw_of_binop)]
pub fn rmw_of_binop(op: BinOp) -> (r: Option<RmwOp>)
    ensures
        r == spec_rmw_of_binop(op),
{
    match op {
        BinOp::Add => Some(RmwOp::Add),
        BinOp::Sub => Some(RmwOp::Sub),
        BinOp::And => Some(RmwOp::And),
        BinOp::Or => Some(RmwOp::Or),
        BinOp::Xor => Some(RmwOp::Xor),
        _ => None,
    }
}

pub open spec fn spec_mk_binop(
    op: BinOp,
    dst: Temp,
    a: Val,
    b: Val,
    size: u8,
    set_flags: FlagMask,
) -> IrOp {
    match op {
        BinOp::Add => IrOp::Add { dst, a, b, size, set_flags },
        BinOp::Adc => IrOp::Adc { dst, a, b, size, set_flags },
        BinOp::Sub => IrOp::Sub { dst, a, b, size, set_flags },
        BinOp::Sbb => IrOp::Sbb { dst, a, b, size, set_flags },
        BinOp::And => IrOp::And { dst, a, b, size, set_flags },
        BinOp::Or => IrOp::Or { dst, a, b, size, set_flags },
        BinOp::Xor => IrOp::Xor { dst, a, b, size, set_flags },
        BinOp::Shl => IrOp::Shl { dst, a, b, size, set_flags },
        BinOp::Shr => IrOp::Shr { dst, a, b, size, set_flags },
        BinOp::Sar => IrOp::Sar { dst, a, b, size, set_flags },
        BinOp::Rol => IrOp::Rol { dst, a, b, size, set_flags },
        BinOp::Ror => IrOp::Ror { dst, a, b, size, set_flags },
        BinOp::Rcl => IrOp::Rcl { dst, a, b, size, set_flags },
        BinOp::Rcr => IrOp::Rcr { dst, a, b, size, set_flags },
    }
}

/// The IR operation of the same name.
#[verifier::when_used_as_spec(spec_mk_binop)]
pub fn mk_binop(op: BinOp, dst: Temp, a: Val, b: Val, size: u8, set_flags: FlagMask) -> (r: IrOp)
    ensures
        r == spec_mk_binop(op, dst, a, b, size, set_flags),
{
    match op {
        BinOp::Add => IrOp::Add { dst, a, b, size, set_flags },
        BinOp::Adc => IrOp::Adc { dst, a, b, size, set_flags },
        BinOp::Sub => IrOp::Sub { dst, a, b, size, set_flags },
        BinOp::Sbb => IrOp::Sbb { dst, a, b, size, set_flags },
        BinOp::And => IrOp::And { dst, a, b, size, set_flags },
        BinOp::Or => IrOp::Or { dst, a, b, size, set_flags },
        BinOp::Xor => IrOp::Xor { dst, a, b, size, set_flags },
        BinOp::Shl => IrOp::Shl { dst, a, b, size, set_flags },
        BinOp::Shr => IrOp::Shr { dst, a, b, size, set_flags },
        BinOp::Sar => IrOp::Sar { dst, a, b, size, set_flags },
        BinOp::Rol => IrOp::Rol { dst, a, b, size, set_flags },
        BinOp::Ror => IrOp::Ror { dst, a, b, size, set_flags },
        BinOp::Rcl => IrOp::Rcl { dst, a, b, size, set_flags },
        BinOp::Rcr => IrOp::Rcr { dst, a, b, size, set_flags },
    }
}

// --- mov, lea ---

pub open spec fn mov(insn: &Insn, s: Emission) -> Emission {
    let (s1, src) = operand::read(insn, 1, s);
    operand::store(insn, 0, src, s1)
}

/// `mov dst, src`.
pub fn lift_mov(insn: &Insn, em: &mut Emitter) -> (r: Result<(), LiftError>)
    requires
        old(em)@.ready(64),
    ensures
        emit::lifted(old(em)@, final(em)@, mov(insn, old(em)@), insn, r),
{
    match lower_read(insn, 1, em) {
        Ok(src) => write_operand(insn, 0, src, em),
        Err(e) => Err(e),
    }
}

pub open spec fn lea(insn: &Insn, s: Emission) -> Emission {
    let (s1, addr) = operand::offset(insn, s);
    operand::store(insn, 0, addr, s1)
}

/// `lea dst, [mem]`: the offset, whatever segment the instruction names.
pub fn lift_lea(insn: &Insn, em: &mut Emitter) -> (r: Result<(), LiftError>)
    requires
        old(em)@.ready(64),
    ensures
        emit::lifted(old(em)@, final(em)@, lea(insn, old(em)@), insn, r),
{
    match effective_address_no_segment(insn, em) {
        Ok(addr) => write_operand(insn, 0, addr, em),
        Err(e) => Err(e),
    }
}

// --- two operands ---

/// Loads `size` bytes from an address.
pub open spec fn load(addr: Val, size: u8, s: Emission) -> (Emission, Val) {
    (s.def(IrOp::Load { dst: s.next, addr, size }), Val::Temp(s.next))
}

fn emit_load(addr: Val, size: u8, em: &mut Emitter) -> (v: Val)
    requires
        old(em)@.ready(1),
        addr.in_scope(old(em)@.ops),
    ensures
        final(em)@ == load(addr, size, old(em)@).0,
        v == load(addr, size, old(em)@).1,
        v.in_scope(final(em)@.ops),
        old(em)@.grown(final(em)@, 1),
        final(em)@.open(),
{
    let t: Temp = em.peek();
    em.def(t, IrOp::Load { dst: t, addr, size });
    Val::Temp(t)
}

/// A plain store.
pub open spec fn save(addr: Val, src: Val, size: u8, s: Emission) -> Emission {
    s.push(IrOp::Store { addr, src, size, order: MemOrder::Plain })
}

/// An atomic update of memory; the value is what memory held before.
pub open spec fn rmw(addr: Val, src: Val, size: u8, op: RmwOp, s: Emission) -> (Emission, Val) {
    (s.def(IrOp::AtomicRmw { old: s.next, addr, src, size, op }), Val::Temp(s.next))
}

fn emit_rmw(addr: Val, src: Val, size: u8, op: RmwOp, em: &mut Emitter) -> (v: Val)
    requires
        old(em)@.ready(1),
        addr.in_scope(old(em)@.ops),
        src.in_scope(old(em)@.ops),
    ensures
        final(em)@ == rmw(addr, src, size, op, old(em)@).0,
        v == rmw(addr, src, size, op, old(em)@).1,
        v.in_scope(final(em)@.ops),
        old(em)@.grown(final(em)@, 1),
        final(em)@.open(),
{
    let old_value: Temp = em.peek();
    em.def(old_value, IrOp::AtomicRmw { old: old_value, addr, src, size, op });
    Val::Temp(old_value)
}

/// The result of an operation in a new temporary.
pub open spec fn bin(
    op: BinOp,
    a: Val,
    b: Val,
    size: u8,
    flags: FlagMask,
    s: Emission,
) -> (Emission, Val) {
    (s.def(mk_binop(op, s.next, a, b, size, flags)), Val::Temp(s.next))
}

fn emit_bin(op: BinOp, a: Val, b: Val, size: u8, flags: FlagMask, em: &mut Emitter) -> (v: Val)
    requires
        old(em)@.ready(1),
        a.in_scope(old(em)@.ops),
        b.in_scope(old(em)@.ops),
    ensures
        final(em)@ == bin(op, a, b, size, flags, old(em)@).0,
        v == bin(op, a, b, size, flags, old(em)@).1,
        v.in_scope(final(em)@.ops),
        old(em)@.grown(final(em)@, 1),
        final(em)@.open(),
{
    let res: Temp = em.peek();
    em.def(res, mk_binop(op, res, a, b, size, flags));
    Val::Temp(res)
}

/// A memory destination is addressed once, for the load and the store; with a lock prefix
/// the update is one atomic operation, and the flags are computed from what it read. Any
/// other destination is read, and written back unless only the flags are wanted.
pub open spec fn binop(
    insn: &Insn,
    op: BinOp,
    flags: FlagMask,
    write_back: bool,
    s: Emission,
) -> Emission {
    let size = operation_size(insn);
    if insn.is_mem(0) {
        let (s1, addr) = operand::address(insn, s);
        if write_back && insn.lock && rmw_of_binop(op) is Some {
            let (s2, b) = operand::read(insn, 1, s1);
            let (s3, before) = rmw(addr, b, size, rmw_of_binop(op)->0, s2);
            bin(op, before, b, size, flags, s3).0
        } else {
            let (s2, a) = load(addr, size, s1);
            let (s3, b) = operand::read(insn, 1, s2);
            let (s4, res) = bin(op, a, b, size, flags, s3);
            if write_back {
                save(addr, res, size, s4)
            } else {
                s4
            }
        }
    } else {
        let (s1, a) = operand::read(insn, 0, s);
        let (s2, b) = operand::read(insn, 1, s1);
        let (s3, res) = bin(op, a, b, size, flags, s2);
        if write_back {
            operand::store(insn, 0, res, s3)
        } else {
            s3
        }
    }
}

/// Two-operand arithmetic: `op0 = op0 op op1`, or only the flags of it.
pub fn lift_binop(
    insn: &Insn,
    em: &mut Emitter,
    op: BinOp,
    flags: FlagMask,
    write_back: bool,
) -> (r: Result<(), LiftError>)
    requires
        old(em)@.ready(64),
    ensures
        emit::lifted(
            old(em)@,
            final(em)@,
            binop(insn, op, flags, write_back, old(em)@),
            insn,
            r,
        ),
{
    let size: u8 = operation_size(insn);
    if insn.is_mem(0) {
        let addr = match effective_address(insn, em) {
            Ok(addr) => addr,
            Err(e) => {
                return Err(e);
            },
        };
        if write_back && insn.lock {
            if let Some(rop) = rmw_of_binop(op) {
                let b = match lower_read(insn, 1, em) {
                    Ok(b) => b,
                    Err(e) => {
                        return Err(e);
                    },
                };
                let before = emit_rmw(addr, b, size, rop, em);
                let _ = emit_bin(op, before, b, size, flags, em);
                return Ok(());
            }
        }
        let a = emit_load(addr, size, em);
        let b = match lower_read(insn, 1, em) {
            Ok(b) => b,
            Err(e) => {
                return Err(e);
            },
        };
        let res = emit_bin(op, a, b, size, flags, em);
        if write_back {
            em.push(IrOp::Store { addr, src: res, size, order: MemOrder::Plain });
        }
        return Ok(());
    }
    let a = match lower_read(insn, 0, em) {
        Ok(a) => a,
        Err(e) => {
            return Err(e);
        },
    };
    let b = match lower_read(insn, 1, em) {
        Ok(b) => b,
        Err(e) => {
            return Err(e);
        },
    };
    let res = emit_bin(op, a, b, size, flags, em);
    if write_back {
        return write_operand(insn, 0, res, em);
    }
    Ok(())
}

// --- one operand ---

/// The instructions with one operand that is read and written.
#[derive(Copy, Clone, Debug)]
pub enum UnaryOp {
    Inc,
    Dec,
    Neg,
    Not,
}

/// The operation on value `a`: `inc` and `dec` keep the carry, `neg` sets the flags of a
/// subtraction from zero, `not` sets none.
pub open spec fn unary_op(op: UnaryOp, dst: Temp, a: Val, size: u8) -> IrOp {
    match op {
        UnaryOp::Inc => IrOp::Add {
            dst,
            a,
            b: Val::Imm(1),
            size,
            set_flags: FlagMask::all_but_cf(),
        },
        UnaryOp::Dec => IrOp::Sub {
            dst,
            a,
            b: Val::Imm(1),
            size,
            set_flags: FlagMask::all_but_cf(),
        },
        UnaryOp::Neg => IrOp::Sub { dst, a: Val::Imm(0), b: a, size, set_flags: FlagMask::all() },
        UnaryOp::Not => IrOp::Xor {
            dst,
            a,
            b: Val::Imm(u64::MAX),
            size,
            set_flags: FlagMask::none(),
        },
    }
}

pub open spec fn unary(op: UnaryOp, a: Val, size: u8, s: Emission) -> (Emission, Val) {
    (s.def(unary_op(op, s.next, a, size)), Val::Temp(s.next))
}

fn emit_unary(op: UnaryOp, a: Val, size: u8, em: &mut Emitter) -> (v: Val)
    requires
        old(em)@.ready(1),
        a.in_scope(old(em)@.ops),
    ensures
        final(em)@ == unary(op, a, size, old(em)@).0,
        v == unary(op, a, size, old(em)@).1,
        v.in_scope(final(em)@.ops),
        old(em)@.grown(final(em)@, 1),
        final(em)@.open(),
{
    let dst: Temp = em.peek();
    let ir = match op {
        UnaryOp::Inc => IrOp::Add {
            dst,
            a,
            b: Val::Imm(1),
            size,
            set_flags: FlagMask::all_but_cf(),
        },
        UnaryOp::Dec => IrOp::Sub {
            dst,
            a,
            b: Val::Imm(1),
            size,
            set_flags: FlagMask::all_but_cf(),
        },
        UnaryOp::Neg => IrOp::Sub { dst, a: Val::Imm(0), b: a, size, set_flags: FlagMask::all() },
        UnaryOp::Not => IrOp::Xor {
            dst,
            a,
            b: Val::Imm(u64::MAX),
            size,
            set_flags: FlagMask::none(),
        },
    };
    em.def(dst, ir);
    Val::Temp(dst)
}

pub open spec fn spec_unary_rmw(op: UnaryOp) -> (RmwOp, Val) {
    match op {
        UnaryOp::Inc => (RmwOp::Add, Val::Imm(1)),
        UnaryOp::Dec => (RmwOp::Sub, Val::Imm(1)),
        UnaryOp::Neg => (RmwOp::Rsub, Val::Imm(0)),
        UnaryOp::Not => (RmwOp::Xor, Val::Imm(u64::MAX)),
    }
}

/// The atomic form.
#[verifier::when_used_as_spec(spec_unary_rmw)]
fn unary_rmw(op: UnaryOp) -> (r: (RmwOp, Val))
    ensures
        r == spec_unary_rmw(op),
{
    match op {
        UnaryOp::Inc => (RmwOp::Add, Val::Imm(1)),
        UnaryOp::Dec => (RmwOp::Sub, Val::Imm(1)),
        UnaryOp::Neg => (RmwOp::Rsub, Val::Imm(0)),
        UnaryOp::Not => (RmwOp::Xor, Val::Imm(u64::MAX)),
    }
}

/// `lock` makes a memory update one atomic operation, after which the flags, where the
/// instruction has any, are computed from what was read; plain memory is loaded,
/// computed and stored; a register is read, computed and written.
pub open spec fn unary_op0(insn: &Insn, op: UnaryOp, s: Emission) -> Emission {
    let size = operand_size(insn, 0);
    if insn.is_mem(0) {
        let (s1, addr) = operand::address(insn, s);
        if insn.lock {
            let (s2, before) = rmw(addr, spec_unary_rmw(op).1, size, spec_unary_rmw(op).0, s1);
            if op is Not {
                s2
            } else {
                unary(op, before, size, s2).0
            }
        } else {
            let (s2, a) = load(addr, size, s1);
            let (s3, res) = unary(op, a, size, s2);
            save(addr, res, size, s3)
        }
    } else {
        let (s1, a) = operand::read(insn, 0, s);
        let (s2, res) = unary(op, a, size, s1);
        operand::store(insn, 0, res, s2)
    }
}

/// `inc`, `dec`, `neg` and `not`.
pub fn lift_unary_op0(insn: &Insn, em: &mut Emitter, op: UnaryOp) -> (r: Result<(), LiftError>)
    requires
        old(em)@.ready(64),
    ensures
        emit::lifted(old(em)@, final(em)@, unary_op0(insn, op, old(em)@), insn, r),
{
    let size: u8 = operand_size(insn, 0);
    if insn.is_mem(0) {
        let addr = match effective_address(insn, em) {
            Ok(addr) => addr,
            Err(e) => {
                return Err(e);
            },
        };
        if insn.lock {
            let (rmw_op, rmw_src) = unary_rmw(op);
            let before = emit_rmw(addr, rmw_src, size, rmw_op, em);
            if !matches!(op, UnaryOp::Not) {
                let _ = emit_unary(op, before, size, em);
            }
            return Ok(());
        }
        let a = emit_load(addr, size, em);
        let res = emit_unary(op, a, size, em);
        em.push(IrOp::Store { addr, src: res, size, order: MemOrder::Plain });
        return Ok(());
    }
    let a = match lower_read(insn, 0, em) {
        Ok(a) => a,
        Err(e) => {
            return Err(e);
        },
    };
    let res = emit_unary(op, a, size, em);
    write_operand(insn, 0, res, em)
}

/// Fill bits and count are read before the destination, whose result temporary is
/// taken in between.
pub open spec fn double_shift(insn: &Insn, left: bool, s: Emission) -> Emission {
    let size = operand_size(insn, 0);
    let (s1, b) = operand::read(insn, 1, s);
    let (s2, count) = operand::read(insn, 2, s1);
    let res = s2.next;
    let s3 = s2.fresh();
    let set_flags = FlagMask::shift();
    if insn.is_mem(0) {
        let (s4, addr) = operand::address(insn, s3);
        let (s5, a) = load(addr, size, s4);
        let s6 = s5.push(IrOp::DoubleShift { dst: res, a, b, count, size, left, set_flags });
        save(addr, Val::Temp(res), size, s6)
    } else {
        let (s4, a) = operand::read(insn, 0, s3);
        let s5 = s4.push(IrOp::DoubleShift { dst: res, a, b, count, size, left, set_flags });
        operand::store(insn, 0, Val::Temp(res), s5)
    }
}

/// `shld`/`shrd`: op0 is the destination and first source, op1 supplies the fill bits,
/// op2 (imm8 or CL) is the count.
pub fn lift_double_shift(insn: &Insn, em: &mut Emitter, left: bool) -> (r: Result<(), LiftError>)
    requires
        old(em)@.ready(64),
    ensures
        emit::lifted(old(em)@, final(em)@, double_shift(insn, left, old(em)@), insn, r),
{
    let size: u8 = operand_size(insn, 0);
    let b = match lower_read(insn, 1, em) {
        Ok(b) => b,
        Err(e) => {
            return Err(e);
        },
    };
    let count = match lower_read(insn, 2, em) {
        Ok(count) => count,
        Err(e) => {
            return Err(e);
        },
    };
    let res: Temp = em.fresh();
    let set_flags = FlagMask::shift();
    if insn.is_mem(0) {
        let addr = match effective_address(insn, em) {
            Ok(addr) => addr,
            Err(e) => {
                return Err(e);
            },
        };
        let a = emit_load(addr, size, em);
        em.push(IrOp::DoubleShift { dst: res, a, b, count, size, left, set_flags });
        em.push(IrOp::Store { addr, src: Val::Temp(res), size, order: MemOrder::Plain });
        Ok(())
    } else {
        let a = match lower_read(insn, 0, em) {
            Ok(a) => a,
            Err(e) => {
                return Err(e);
            },
        };
        em.push(IrOp::DoubleShift { dst: res, a, b, count, size, left, set_flags });
        write_operand(insn, 0, Val::Temp(res), em)
    }
}

// --- multiplication and division ---

/// A product in two new temporaries, the low half first.
pub open spec fn product(
    a: Val,
    b: Val,
    size: u8,
    signed: bool,
    set_flags: FlagMask,
    s: Emission,
) -> (Emission, Val, Val) {
    let lo = s.next;
    let hi = s.fresh().next;
    (
        s.fresh().fresh().push(IrOp::Mul { lo, hi, a, b, size, signed, set_flags }),
        Val::Temp(lo),
        Val::Temp(hi),
    )
}

fn emit_mul(
    a: Val,
    b: Val,
    size: u8,
    signed: bool,
    set_flags: FlagMask,
    em: &mut Emitter,
) -> (r: (Val, Val))
    requires
        old(em)@.ready(2),
        a.in_scope(old(em)@.ops),
        b.in_scope(old(em)@.ops),
    ensures
        final(em)@ == product(a, b, size, signed, set_flags, old(em)@).0,
        r.0 == product(a, b, size, signed, set_flags, old(em)@).1,
        r.1 == product(a, b, size, signed, set_flags, old(em)@).2,
        r.0.in_scope(final(em)@.ops),
        r.1.in_scope(final(em)@.ops),
        old(em)@.grown(final(em)@, 2),
        final(em)@.open(),
{
    let lo: Temp = em.fresh();
    let hi: Temp = em.fresh();
    em.push(IrOp::Mul { lo, hi, a, b, size, signed, set_flags });
    (Val::Temp(lo), Val::Temp(hi))
}

/// `RDX:RAX = RAX * op0`. In the 8-bit form the product is 16 bits and goes to AX, with
/// the high half shifted up beside the low one.
pub open spec fn widening_mul(insn: &Insn, signed: bool, s: Emission) -> Emission {
    let size = operand_size(insn, 0);
    let (s1, a) = operand::reg_read(Reg::Rax, s);
    let (s2, b) = operand::read(insn, 0, s1);
    let (s3, lo, hi) = product(a, b, size, signed, FlagMask::cf_of(), s2);
    if size == 1 {
        let (s4, hi_sh) = bin(BinOp::Shl, hi, Val::Imm(8), 2, FlagMask::none(), s3);
        let (s5, ax) = bin(BinOp::Or, lo, hi_sh, 2, FlagMask::none(), s4);
        s5.push(IrOp::WriteReg { reg: Reg::Rax, src: ax, size: 2 })
    } else {
        s3.push(IrOp::WriteReg { reg: Reg::Rax, src: lo, size }).push(
            IrOp::WriteReg { reg: Reg::Rdx, src: hi, size },
        )
    }
}

/// One-operand `mul` and `imul`.
pub fn lift_widening_mul(insn: &Insn, em: &mut Emitter, signed: bool) -> (r: Result<(), LiftError>)
    requires
        old(em)@.ready(64),
    ensures
        emit::lifted(old(em)@, final(em)@, widening_mul(insn, signed, old(em)@), insn, r),
{
    let size: u8 = operand_size(insn, 0);
    let a = read_reg(Reg::Rax, em);
    let b = match lower_read(insn, 0, em) {
        Ok(b) => b,
        Err(e) => {
            return Err(e);
        },
    };
    let (lo, hi) = emit_mul(a, b, size, signed, FlagMask::cf_of(), em);
    if size == 1 {
        let hi_sh = emit_bin(BinOp::Shl, hi, Val::Imm(8), 2, FlagMask::none(), em);
        let ax = emit_bin(BinOp::Or, lo, hi_sh, 2, FlagMask::none(), em);
        em.push(IrOp::WriteReg { reg: Reg::Rax, src: ax, size: 2 });
    } else {
        em.push(IrOp::WriteReg { reg: Reg::Rax, src: lo, size });
        em.push(IrOp::WriteReg { reg: Reg::Rdx, src: hi, size });
    }
    Ok(())
}

/// One operand: the widening product. Two or three: the low half goes to op0, and CF/OF
/// tell whether the full product fits it.
pub open spec fn imul(insn: &Insn, s: Emission) -> Emission {
    if insn.op_count == 1 {
        widening_mul(insn, true, s)
    } else if insn.op_count == 2 || insn.op_count == 3 {
        let size = operand_size(insn, 0);
        let first: u32 = if insn.op_count == 2 { 0 } else { 1 };
        let (s1, a) = operand::read(insn, first, s);
        let (s2, b) = operand::read(insn, (first + 1) as u32, s1);
        let (s3, lo, _) = product(a, b, size, true, FlagMask::cf_of(), s2);
        operand::store(insn, 0, lo, s3)
    } else {
        s.fail()
    }
}

/// `imul`: one-operand (`RDX:RAX`), two-operand (`dst *= src`), or three-operand
/// (`dst = src * imm`).
pub fn lift_imul(insn: &Insn, em: &mut Emitter) -> (r: Result<(), LiftError>)
    requires
        old(em)@.ready(64),
    ensures
        emit::lifted(old(em)@, final(em)@, imul(insn, old(em)@), insn, r),
{
    if insn.op_count == 1 {
        return lift_widening_mul(insn, em, true);
    }
    if insn.op_count != 2 && insn.op_count != 3 {
        return Err(unsupported_insn(insn));
    }
    let size: u8 = operand_size(insn, 0);
    let first: u32 = if insn.op_count == 2 {
        0
    } else {
        1
    };
    let a = match lower_read(insn, first, em) {
        Ok(a) => a,
        Err(e) => {
            return Err(e);
        },
    };
    let b = match lower_read(insn, first + 1, em) {
        Ok(b) => b,
        Err(e) => {
            return Err(e);
        },
    };
    let (lo, _) = emit_mul(a, b, size, true, FlagMask::cf_of(), em);
    write_operand(insn, 0, lo, em)
}

/// A division in two new temporaries: quotient and remainder.
pub open spec fn division(
    hi: Val,
    lo: Val,
    divisor: Val,
    size: u8,
    signed: bool,
    s: Emission,
) -> (Emission, Val, Val) {
    let quot = s.next;
    let rem = s.fresh().next;
    (
        s.fresh().fresh().push(IrOp::Div { quot, rem, hi, lo, divisor, size, signed }),
        Val::Temp(quot),
        Val::Temp(rem),
    )
}

fn emit_division(
    hi: Val,
    lo: Val,
    divisor: Val,
    size: u8,
    signed: bool,
    em: &mut Emitter,
) -> (r: (Val, Val))
    requires
        old(em)@.ready(2),
        hi.in_scope(old(em)@.ops),
        lo.in_scope(old(em)@.ops),
        divisor.in_scope(old(em)@.ops),
    ensures
        final(em)@ == division(hi, lo, divisor, size, signed, old(em)@).0,
        r.0 == division(hi, lo, divisor, size, signed, old(em)@).1,
        r.1 == division(hi, lo, divisor, size, signed, old(em)@).2,
        r.0.in_scope(final(em)@.ops),
        r.1.in_scope(final(em)@.ops),
        old(em)@.grown(final(em)@, 2),
        final(em)@.open(),
{
    let quot: Temp = em.fresh();
    let rem: Temp = em.fresh();
    em.push(IrOp::Div { quot, rem, hi, lo, divisor, size, signed });
    (Val::Temp(quot), Val::Temp(rem))
}

/// `RDX:RAX / op0`: quotient to RAX, remainder to RDX, both after the division, which
/// may trap. The 8-bit form divides AX, with the quotient to AL and the remainder to AH.
pub open spec fn div(insn: &Insn, signed: bool, s: Emission) -> Emission {
    let size = operand_size(insn, 0);
    if size == 1 {
        let (s1, rax) = operand::reg_read(Reg::Rax, s);
        let (s2, hi) = operand::alu(Alu::Shr, rax, Val::Imm(8), s1);
        let (s3, divisor) = operand::read(insn, 0, s2);
        let (s4, quot, rem) = division(hi, rax, divisor, 1, signed, s3);
        operand::write(
            WriteTarget::HighByte { parent: Reg::Rax },
            rem,
            s4.push(IrOp::WriteReg { reg: Reg::Rax, src: quot, size: 1 }),
        )
    } else {
        let (s1, hi) = operand::reg_read(Reg::Rdx, s);
        let (s2, lo) = operand::reg_read(Reg::Rax, s1);
        let (s3, divisor) = operand::read(insn, 0, s2);
        let (s4, quot, rem) = division(hi, lo, divisor, size, signed, s3);
        s4.push(IrOp::WriteReg { reg: Reg::Rax, src: quot, size }).push(
            IrOp::WriteReg { reg: Reg::Rdx, src: rem, size },
        )
    }
}

/// `div` and `idiv`.
pub fn lift_div(insn: &Insn, em: &mut Emitter, signed: bool) -> (r: Result<(), LiftError>)
    requires
        old(em)@.ready(64),
    ensures
        emit::lifted(old(em)@, final(em)@, div(insn, signed, old(em)@), insn, r),
{
    let size: u8 = operand_size(insn, 0);
    if size == 1 {
        let rax = read_reg(Reg::Rax, em);
        let hi = alu_none(Alu::Shr, rax, Val::Imm(8), em);
        let divisor = match lower_read(insn, 0, em) {
            Ok(divisor) => divisor,
            Err(e) => {
                return Err(e);
            },
        };
        let (quot, rem) = emit_division(hi, rax, divisor, 1, signed, em);
        em.push(IrOp::WriteReg { reg: Reg::Rax, src: quot, size: 1 });
        emit_write(em, WriteTarget::HighByte { parent: Reg::Rax }, rem);
        return Ok(());
    }
    let hi = read_reg(Reg::Rdx, em);
    let lo = read_reg(Reg::Rax, em);
    let divisor = match lower_read(insn, 0, em) {
        Ok(divisor) => divisor,
        Err(e) => {
            return Err(e);
        },
    };
    let (quot, rem) = emit_division(hi, lo, divisor, size, signed, em);
    em.push(IrOp::WriteReg { reg: Reg::Rax, src: quot, size });
    em.push(IrOp::WriteReg { reg: Reg::Rdx, src: rem, size });
    Ok(())
}

/// `(hi:lo) = RDX * op2`, unsigned, no flags. The low half is written first, so that the
/// high half stays where both destinations are one register.
pub open spec fn mulx(insn: &Insn, s: Emission) -> Emission {
    let size = operand_size(insn, 0);
    let (s1, rdx) = operand::reg_read(Reg::Rdx, s);
    let (s2, src) = operand::read(insn, 2, s1);
    let (s3, lo, hi) = product(rdx, src, size, false, FlagMask::none(), s2);
    operand::store(insn, 0, hi, operand::store(insn, 1, lo, s3))
}

/// `mulx dst_hi, dst_lo, src`.
pub fn lift_mulx(insn: &Insn, em: &mut Emitter) -> (r: Result<(), LiftError>)
    requires
        old(em)@.ready(64),
    ensures
        emit::lifted(old(em)@, final(em)@, mulx(insn, old(em)@), insn, r),
{
    let size: u8 = operand_size(insn, 0);
    let rdx = read_reg(Reg::Rdx, em);
    let src = match lower_read(insn, 2, em) {
        Ok(src) => src,
        Err(e) => {
            return Err(e);
        },
    };
    let (lo, hi) = emit_mul(rdx, src, size, false, FlagMask::none(), em);
    match write_operand(insn, 1, lo, em) {
        Ok(_) => write_operand(insn, 0, hi, em),
        Err(e) => Err(e),
    }
}

// --- exchange ---

/// The destination gets the sum, the source the old destination, with the flags of the
/// addition. A memory destination is updated atomically.
pub open spec fn xadd(insn: &Insn, s: Emission) -> Emission {
    let size = operand_size(insn, 0);
    let (s1, src) = operand::read(insn, 1, s);
    if insn.is_mem(0) {
        let (s2, addr) = operand::address(insn, s1);
        let (s3, before) = rmw(addr, src, size, RmwOp::Add, s2);
        let (s4, _) = bin(BinOp::Add, before, src, size, FlagMask::all(), s3);
        operand::store(insn, 1, before, s4)
    } else {
        let (s2, before) = operand::read(insn, 0, s1);
        let (s3, res) = bin(BinOp::Add, before, src, size, FlagMask::all(), s2);
        operand::store(insn, 0, res, operand::store(insn, 1, before, s3))
    }
}

/// `xadd dst, src`.
pub fn lift_xadd(insn: &Insn, em: &mut Emitter) -> (r: Result<(), LiftError>)
    requires
        old(em)@.ready(64),
    ensures
        emit::lifted(old(em)@, final(em)@, xadd(insn, old(em)@), insn, r),
{
    let size: u8 = operand_size(insn, 0);
    let src = match lower_read(insn, 1, em) {
        Ok(src) => src,
        Err(e) => {
            return Err(e);
        },
    };
    if insn.is_mem(0) {
        let addr = match effective_address(insn, em) {
            Ok(addr) => addr,
            Err(e) => {
                return Err(e);
            },
        };
        let before = emit_rmw(addr, src, size, RmwOp::Add, em);
        let _ = emit_bin(BinOp::Add, before, src, size, FlagMask::all(), em);
        return write_operand(insn, 1, before, em);
    }
    let before = match lower_read(insn, 0, em) {
        Ok(before) => before,
        Err(e) => {
            return Err(e);
        },
    };
    let res = emit_bin(BinOp::Add, before, src, size, FlagMask::all(), em);
    match write_operand(insn, 1, before, em) {
        Ok(_) => write_operand(insn, 0, res, em),
        Err(e) => Err(e),
    }
}

/// One atomic compare-and-swap against the accumulator, the flags of comparing the two,
/// and the accumulator loaded with what memory held.
pub open spec fn cmpxchg(insn: &Insn, s: Emission) -> Emission {
    if !insn.is_mem(0) {
        s.fail()
    } else {
        let size = operand_size(insn, 0);
        let (s1, addr) = operand::address(insn, s);
        let (s2, src) = operand::read(insn, 1, s1);
        let (s3, acc) = operand::reg_read(Reg::Rax, s2);
        let (s4, expected) = operand::alu(Alu::And, acc, Val::Imm(size_mask(size)), s3);
        let before = Val::Temp(s4.next);
        let s5 = s4.def(IrOp::AtomicCas { old: s4.next, addr, expected, src, size });
        let (s6, _) = bin(BinOp::Sub, expected, before, size, FlagMask::all(), s5);
        s6.push(IrOp::WriteReg { reg: Reg::Rax, src: before, size })
    }
}

/// `cmpxchg dst, src`: where the accumulator equals `dst`, `dst = src`, else the
/// accumulator takes `dst`. The form with a register destination is not supported.
pub fn lift_cmpxchg(insn: &Insn, em: &mut Emitter) -> (r: Result<(), LiftError>)
    requires
        old(em)@.ready(64),
    ensures
        emit::lifted(old(em)@, final(em)@, cmpxchg(insn, old(em)@), insn, r),
{
    if !insn.is_mem(0) {
        return Err(unsupported_insn(insn));
    }
    let size: u8 = operand_size(insn, 0);
    let addr = match effective_address(insn, em) {
        Ok(addr) => addr,
        Err(e) => {
            return Err(e);
        },
    };
    let src = match lower_read(insn, 1, em) {
        Ok(src) => src,
        Err(e) => {
            return Err(e);
        },
    };
    let acc = read_reg(Reg::Rax, em);
    let expected = alu_none(Alu::And, acc, Val::Imm(size_mask(size)), em);
    let before: Temp = em.peek();
    em.def(before, IrOp::AtomicCas { old: before, addr, expected, src, size });
    let _ = emit_bin(BinOp::Sub, expected, Val::Temp(before), size, FlagMask::all(), em);
    em.push(IrOp::WriteReg { reg: Reg::Rax, src: Val::Temp(before), size });
    Ok(())
}

/// A memory operand makes the swap one atomic exchange; registers are read both and
/// written both.
pub open spec fn xchg(insn: &Insn, s: Emission) -> Emission {
    if insn.is_mem(0) || insn.is_mem(1) {
        let reg: u32 = if insn.is_mem(0) { 1 } else { 0 };
        let size = operand_size(insn, reg);
        let (s1, addr) = operand::address(insn, s);
        let (s2, value) = operand::read(insn, reg, s1);
        let (s3, before) = rmw(addr, value, size, RmwOp::Xchg, s2);
        operand::store(insn, reg, before, s3)
    } else {
        let (s1, a) = operand::read(insn, 0, s);
        let (s2, b) = operand::read(insn, 1, s1);
        let (s3, w0) = operand::target(insn, 0, s2);
        let (s4, w1) = operand::target(insn, 1, s3);
        operand::write(w1, a, operand::write(w0, b, s4))
    }
}

/// `xchg dst, src`.
pub fn lift_xchg(insn: &Insn, em: &mut Emitter) -> (r: Result<(), LiftError>)
    requires
        old(em)@.ready(64),
    ensures
        emit::lifted(old(em)@, final(em)@, xchg(insn, old(em)@), insn, r),
{
    if insn.is_mem(0) || insn.is_mem(1) {
        let reg: u32 = if insn.is_mem(0) {
            1
        } else {
            0
        };
        let size: u8 = operand_size(insn, reg);
        let addr = match effective_address(insn, em) {
            Ok(addr) => addr,
            Err(e) => {
                return Err(e);
            },
        };
        let value = match lower_read(insn, reg, em) {
            Ok(value) => value,
            Err(e) => {
                return Err(e);
            },
        };
        let before = emit_rmw(addr, value, size, RmwOp::Xchg, em);
        return write_operand(insn, reg, before, em);
    }
    let a = match lower_read(insn, 0, em) {
        Ok(a) => a,
        Err(e) => {
            return Err(e);
        },
    };
    let b = match lower_read(insn, 1, em) {
        Ok(b) => b,
        Err(e) => {
            return Err(e);
        },
    };
    let w0 = match lower_write_target(insn, 0, em) {
        Ok(w) => w,
        Err(e) => {
            return Err(e);
        },
    };
    let w1 = match lower_write_target(insn, 1, em) {
        Ok(w) => w,
        Err(e) => {
            return Err(e);
        },
    };
    emit_write(em, w0, b);
    emit_write(em, w1, a);
    Ok(())
}

// --- bits ---

/// The scan of op1, with the old op0 for the forms that keep it on a zero source.
pub open spec fn bitscan(insn: &Insn, op: BitScanOp, s: Emission) -> Emission {
    let size = operand_size(insn, 0);
    let (s1, src) = operand::read(insn, 1, s);
    let (s2, before) = operand::read(insn, 0, s1);
    let s3 = s2.def(IrOp::BitScan { dst: s2.next, src, old: before, size, op });
    operand::store(insn, 0, Val::Temp(s2.next), s3)
}

/// `bsf`, `bsr`, `tzcnt` and `lzcnt`.
pub fn lift_bitscan(insn: &Insn, em: &mut Emitter, op: BitScanOp) -> (r: Result<(), LiftError>)
    requires
        old(em)@.ready(64),
    ensures
        emit::lifted(old(em)@, final(em)@, bitscan(insn, op, old(em)@), insn, r),
{
    let size: u8 = operand_size(insn, 0);
    let src = match lower_read(insn, 1, em) {
        Ok(src) => src,
        Err(e) => {
            return Err(e);
        },
    };
    let before = match lower_read(insn, 0, em) {
        Ok(before) => before,
        Err(e) => {
            return Err(e);
        },
    };
    let t: Temp = em.peek();
    em.def(t, IrOp::BitScan { dst: t, src, old: before, size, op });
    write_operand(insn, 0, Val::Temp(t), em)
}

/// A locked set, reset or complement is an atomic update with the mask of the bit, and a
/// test of what memory held; anything else loads, tests, and stores what changed.
pub open spec fn mem_bt(
    ea: Val,
    esize: u8,
    bit: Val,
    op: BtOp,
    locked: bool,
    s: Emission,
) -> Emission {
    if locked && !(op is Test) {
        let none = FlagMask::none();
        let (s1, shift) = bin(BinOp::And, bit, Val::Imm(bit_index_mask(esize)), esize, none, s);
        let (s2, mask) = bin(BinOp::Shl, Val::Imm(1), shift, esize, none, s1);
        let (s3, src) = if op is Reset {
            bin(BinOp::Xor, mask, Val::Imm(size_mask(esize)), esize, none, s2)
        } else {
            (s2, mask)
        };
        let rmw_op = match op {
            BtOp::SetBit => RmwOp::Or,
            BtOp::Reset => RmwOp::And,
            _ => RmwOp::Xor,
        };
        let (s4, before) = rmw(ea, src, esize, rmw_op, s3);
        s4.def(IrOp::Bt { result: s4.next, a: before, bit, size: esize, op: BtOp::Test })
    } else {
        let (s1, a) = load(ea, esize, s);
        let s2 = s1.def(IrOp::Bt { result: s1.next, a, bit, size: esize, op });
        if op is Test {
            s2
        } else {
            save(ea, Val::Temp(s1.next), esize, s2)
        }
    }
}

pub open spec fn spec_bit_index_mask(size: u8) -> u64 {
    ((size * 8) as u64).wrapping_sub(1)
}

/// The number of the highest bit in an operand of `size` bytes, which is also the mask of
/// a bit index into it.
#[verifier::when_used_as_spec(spec_bit_index_mask)]
pub fn bit_index_mask(size: u8) -> (r: u64)
    ensures
        r == spec_bit_index_mask(size),
{
    (size as u64 * 8).wrapping_sub(1)
}

/// The memory side of `bt`, `bts`, `btr` and `btc` at address `ea`, width `esize`.
pub fn emit_mem_bt(em: &mut Emitter, ea: Val, esize: u8, bit: Val, op: BtOp, locked: bool)
    requires
        old(em)@.ready(8),
        ea.in_scope(old(em)@.ops),
        bit.in_scope(old(em)@.ops),
    ensures
        final(em)@ == mem_bt(ea, esize, bit, op, locked, old(em)@),
        old(em)@.grown(final(em)@, 8),
        final(em)@.open(),
{
    if locked && !matches!(op, BtOp::Test) {
        let none = FlagMask::none();
        let shift = emit_bin(BinOp::And, bit, Val::Imm(bit_index_mask(esize)), esize, none, em);
        let mask = emit_bin(BinOp::Shl, Val::Imm(1), shift, esize, none, em);
        let (rmw_op, src) = match op {
            BtOp::SetBit => (RmwOp::Or, mask),
            BtOp::Reset => (
                RmwOp::And,
                emit_bin(BinOp::Xor, mask, Val::Imm(size_mask(esize)), esize, none, em),
            ),
            _ => (RmwOp::Xor, mask),
        };
        let before = emit_rmw(ea, src, esize, rmw_op, em);
        let cf: Temp = em.peek();
        em.def(cf, IrOp::Bt { result: cf, a: before, bit, size: esize, op: BtOp::Test });
        return;
    }
    let a = emit_load(ea, esize, em);
    let result: Temp = em.peek();
    em.def(result, IrOp::Bt { result, a, bit, size: esize, op });
    if !matches!(op, BtOp::Test) {
        em.push(
            IrOp::Store { addr: ea, src: Val::Temp(result), size: esize, order: MemOrder::Plain },
        );
    }
}

/// The bit index is taken modulo the operand width, except for a register index into
/// memory: that is a signed offset into a bit string, so the byte at
/// `address + (index >> 3)` is accessed, one byte wide.
pub open spec fn bt(insn: &Insn, op: BtOp, s: Emission) -> Emission {
    let size = operand_size(insn, 0);
    let (s1, bit) = operand::read(insn, 1, s);
    if insn.is_mem(0) {
        let (s2, addr) = operand::address(insn, s1);
        if insn.op(1).kind == op_kind::REGISTER {
            let sext = s2.next;
            let s3 = s2.def(IrOp::Sext { dst: sext, a: bit, from: operand_size(insn, 1) });
            let (s4, off) = bin(
                BinOp::Sar,
                Val::Temp(sext),
                Val::Imm(3),
                8,
                FlagMask::none(),
                s3,
            );
            let (s5, ea) = operand::alu(Alu::Add, addr, off, s4);
            mem_bt(ea, 1, bit, op, insn.lock, s5)
        } else {
            mem_bt(addr, size, bit, op, insn.lock, s2)
        }
    } else {
        let (s2, a) = operand::read(insn, 0, s1);
        let s3 = s2.def(IrOp::Bt { result: s2.next, a, bit, size, op });
        if op is Test {
            s3
        } else {
            operand::store(insn, 0, Val::Temp(s2.next), s3)
        }
    }
}

/// `bt`, `bts`, `btr` and `btc`: CF is the addressed bit; all but `bt` write the changed
/// operand back.
pub fn lift_bt(insn: &Insn, em: &mut Emitter, op: BtOp) -> (r: Result<(), LiftError>)
    requires
        old(em)@.ready(64),
    ensures
        emit::lifted(old(em)@, final(em)@, bt(insn, op, old(em)@), insn, r),
{
    let size: u8 = operand_size(insn, 0);
    let bit = match lower_read(insn, 1, em) {
        Ok(bit) => bit,
        Err(e) => {
            return Err(e);
        },
    };
    if insn.is_mem(0) {
        let addr = match effective_address(insn, em) {
            Ok(addr) => addr,
            Err(e) => {
                return Err(e);
            },
        };
        if insn.op(1).kind == op_kind::REGISTER {
            let sext: Temp = em.peek();
            em.def(sext, IrOp::Sext { dst: sext, a: bit, from: operand_size(insn, 1) });
            let off = emit_bin(
                BinOp::Sar,
                Val::Temp(sext),
                Val::Imm(3),
                8,
                FlagMask::none(),
                em,
            );
            let ea = alu_none(Alu::Add, addr, off, em);
            emit_mem_bt(em, ea, 1, bit, op, insn.lock);
        } else {
            emit_mem_bt(em, addr, size, bit, op, insn.lock);
        }
        return Ok(());
    }
    let a = match lower_read(insn, 0, em) {
        Ok(a) => a,
        Err(e) => {
            return Err(e);
        },
    };
    let result: Temp = em.peek();
    em.def(result, IrOp::Bt { result, a, bit, size, op });
    if !matches!(op, BtOp::Test) {
        return write_operand(insn, 0, Val::Temp(result), em);
    }
    Ok(())
}

pub open spec fn popcnt(insn: &Insn, s: Emission) -> Emission {
    let (s1, src) = operand::read(insn, 1, s);
    let s2 = s1.def(IrOp::Popcnt { dst: s1.next, src, size: operand_size(insn, 0) });
    operand::store(insn, 0, Val::Temp(s1.next), s2)
}

/// `popcnt dst, src`.
pub fn lift_popcnt(insn: &Insn, em: &mut Emitter) -> (r: Result<(), LiftError>)
    requires
        old(em)@.ready(64),
    ensures
        emit::lifted(old(em)@, final(em)@, popcnt(insn, old(em)@), insn, r),
{
    let size: u8 = operand_size(insn, 0);
    let src = match lower_read(insn, 1, em) {
        Ok(src) => src,
        Err(e) => {
            return Err(e);
        },
    };
    let t: Temp = em.peek();
    em.def(t, IrOp::Popcnt { dst: t, src, size });
    write_operand(insn, 0, Val::Temp(t), em)
}

pub open spec fn crc32(insn: &Insn, s: Emission) -> Emission {
    let (s1, crc) = operand::read(insn, 0, s);
    let (s2, src) = operand::read(insn, 1, s1);
    let s3 = s2.def(IrOp::Crc32 { dst: s2.next, crc, src, bytes: operand_size(insn, 1) });
    operand::store(insn, 0, Val::Temp(s2.next), s3)
}

/// `crc32 dst, src`: the width is that of the source.
pub fn lift_crc32(insn: &Insn, em: &mut Emitter) -> (r: Result<(), LiftError>)
    requires
        old(em)@.ready(64),
    ensures
        emit::lifted(old(em)@, final(em)@, crc32(insn, old(em)@), insn, r),
{
    let crc = match lower_read(insn, 0, em) {
        Ok(crc) => crc,
        Err(e) => {
            return Err(e);
        },
    };
    let src = match lower_read(insn, 1, em) {
        Ok(src) => src,
        Err(e) => {
            return Err(e);
        },
    };
    let bytes: u8 = operand_size(insn, 1);
    let t: Temp = em.peek();
    em.def(t, IrOp::Crc32 { dst: t, crc, src, bytes });
    write_operand(insn, 0, Val::Temp(t), em)
}

pub open spec fn bswap(insn: &Insn, s: Emission) -> Emission {
    let (s1, a) = operand::read(insn, 0, s);
    let s2 = s1.def(IrOp::Bswap { dst: s1.next, a, size: operand_size(insn, 0) });
    operand::store(insn, 0, Val::Temp(s1.next), s2)
}

/// `bswap`: reverses the byte order of a register. No flags.
pub fn lift_bswap(insn: &Insn, em: &mut Emitter) -> (r: Result<(), LiftError>)
    requires
        old(em)@.ready(64),
    ensures
        emit::lifted(old(em)@, final(em)@, bswap(insn, old(em)@), insn, r),
{
    let size: u8 = operand_size(insn, 0);
    let a = match lower_read(insn, 0, em) {
        Ok(a) => a,
        Err(e) => {
            return Err(e);
        },
    };
    let t: Temp = em.peek();
    em.def(t, IrOp::Bswap { dst: t, a, size });
    write_operand(insn, 0, Val::Temp(t), em)
}

/// `op0 = op(op1, op2)`; the forms with two operands have 0 for the second source.
pub open spec fn bmi(insn: &Insn, op: BmiOp, s: Emission) -> Emission {
    let (s1, a) = operand::read(insn, 1, s);
    let (s2, b) = if insn.op_count >= 3 {
        operand::read(insn, 2, s1)
    } else {
        (s1, Val::Imm(0))
    };
    let s3 = s2.def(IrOp::Bmi { dst: s2.next, a, b, size: operand_size(insn, 0), op });
    operand::store(insn, 0, Val::Temp(s2.next), s3)
}

/// Bit operations of BMI1 and BMI2 with one destination.
pub fn lift_bmi(insn: &Insn, em: &mut Emitter, op: BmiOp) -> (r: Result<(), LiftError>)
    requires
        old(em)@.ready(64),
    ensures
        emit::lifted(old(em)@, final(em)@, bmi(insn, op, old(em)@), insn, r),
{
    let size: u8 = operand_size(insn, 0);
    let a = match lower_read(insn, 1, em) {
        Ok(a) => a,
        Err(e) => {
            return Err(e);
        },
    };
    let b = if insn.op_count >= 3 {
        match lower_read(insn, 2, em) {
            Ok(b) => b,
            Err(e) => {
                return Err(e);
            },
        }
    } else {
        Val::Imm(0)
    };
    let t: Temp = em.peek();
    em.def(t, IrOp::Bmi { dst: t, a, b, size, op });
    write_operand(insn, 0, Val::Temp(t), em)
}

/// `op0 = op1 op op2` without flags.
pub open spec fn bmi_shift(insn: &Insn, op: BinOp, s: Emission) -> Emission {
    let (s1, a) = operand::read(insn, 1, s);
    let (s2, b) = operand::read(insn, 2, s1);
    let (s3, v) = bin(op, a, b, operand_size(insn, 0), FlagMask::none(), s2);
    operand::store(insn, 0, v, s3)
}

/// `shlx`, `shrx`, `sarx` and `rorx`.
pub fn lift_bmi_shift(insn: &Insn, em: &mut Emitter, op: BinOp) -> (r: Result<(), LiftError>)
    requires
        old(em)@.ready(64),
    ensures
        emit::lifted(old(em)@, final(em)@, bmi_shift(insn, op, old(em)@), insn, r),
{
    let size: u8 = operand_size(insn, 0);
    let a = match lower_read(insn, 1, em) {
        Ok(a) => a,
        Err(e) => {
            return Err(e);
        },
    };
    let b = match lower_read(insn, 2, em) {
        Ok(b) => b,
        Err(e) => {
            return Err(e);
        },
    };
    let v = emit_bin(op, a, b, size, FlagMask::none(), em);
    write_operand(insn, 0, v, em)
}

/// Load, swap and write a register, or swap a register and store it.
pub open spec fn movbe(insn: &Insn, s: Emission) -> Emission {
    let size = operand_size(insn, 0);
    let (s1, addr) = operand::address(insn, s);
    if insn.is_mem(1) {
        let (s2, a) = load(addr, size, s1);
        let s3 = s2.def(IrOp::Bswap { dst: s2.next, a, size });
        operand::store(insn, 0, Val::Temp(s2.next), s3)
    } else {
        let (s2, a) = operand::read(insn, 1, s1);
        let s3 = s2.def(IrOp::Bswap { dst: s2.next, a, size });
        save(addr, Val::Temp(s2.next), size, s3)
    }
}

/// `movbe`: a move with byte swap between a register and memory. No flags.
pub fn lift_movbe(insn: &Insn, em: &mut Emitter) -> (r: Result<(), LiftError>)
    requires
        old(em)@.ready(64),
    ensures
        emit::lifted(old(em)@, final(em)@, movbe(insn, old(em)@), insn, r),
{
    let size: u8 = operand_size(insn, 0);
    let addr = match effective_address(insn, em) {
        Ok(addr) => addr,
        Err(e) => {
            return Err(e);
        },
    };
    if insn.is_mem(1) {
        let a = emit_load(addr, size, em);
        let swapped: Temp = em.peek();
        em.def(swapped, IrOp::Bswap { dst: swapped, a, size });
        write_operand(insn, 0, Val::Temp(swapped), em)
    } else {
        let a = match lower_read(insn, 1, em) {
            Ok(a) => a,
            Err(e) => {
                return Err(e);
            },
        };
        let swapped: Temp = em.peek();
        em.def(swapped, IrOp::Bswap { dst: swapped, a, size });
        em.push(IrOp::Store { addr, src: Val::Temp(swapped), size, order: MemOrder::Plain });
        Ok(())
    }
}

// --- extension and conditions ---

/// The source masked to its width.
pub open spec fn movzx(insn: &Insn, s: Emission) -> Emission {
    let (s1, v) = operand::read(insn, 1, s);
    let (s2, z) = operand::alu(Alu::And, v, Val::Imm(size_mask(operand_size(insn, 1))), s1);
    operand::store(insn, 0, z, s2)
}

/// `movzx dst, src`.
pub fn lift_movzx(insn: &Insn, em: &mut Emitter) -> (r: Result<(), LiftError>)
    requires
        old(em)@.ready(64),
    ensures
        emit::lifted(old(em)@, final(em)@, movzx(insn, old(em)@), insn, r),
{
    let src_size: u8 = operand_size(insn, 1);
    let v = match lower_read(insn, 1, em) {
        Ok(v) => v,
        Err(e) => {
            return Err(e);
        },
    };
    let z = alu_none(Alu::And, v, Val::Imm(size_mask(src_size)), em);
    write_operand(insn, 0, z, em)
}

/// The source sign-extended from its width.
pub open spec fn movsx(insn: &Insn, s: Emission) -> Emission {
    let (s1, a) = operand::read(insn, 1, s);
    let s2 = s1.def(IrOp::Sext { dst: s1.next, a, from: operand_size(insn, 1) });
    operand::store(insn, 0, Val::Temp(s1.next), s2)
}

/// `movsx` and `movsxd`.
pub fn lift_movsx(insn: &Insn, em: &mut Emitter) -> (r: Result<(), LiftError>)
    requires
        old(em)@.ready(64),
    ensures
        emit::lifted(old(em)@, final(em)@, movsx(insn, old(em)@), insn, r),
{
    let from: u8 = operand_size(insn, 1);
    let a = match lower_read(insn, 1, em) {
        Ok(a) => a,
        Err(e) => {
            return Err(e);
        },
    };
    let t: Temp = em.peek();
    em.def(t, IrOp::Sext { dst: t, a, from });
    write_operand(insn, 0, Val::Temp(t), em)
}

pub open spec fn cbw_family(from: u8, to: u8, s: Emission) -> Emission {
    let (s1, rax) = operand::reg_read(Reg::Rax, s);
    s1.def(IrOp::Sext { dst: s1.next, a: rax, from }).push(
        IrOp::WriteReg { reg: Reg::Rax, src: Val::Temp(s1.next), size: to },
    )
}

/// `cbw`, `cwde` and `cdqe`: sign-extend the accumulator in place from `from` to `to`
/// bytes.
pub fn lift_cbw_family(em: &mut Emitter, from: u8, to: u8)
    requires
        old(em)@.ready(64),
    ensures
        final(em)@ == cbw_family(from, to, old(em)@),
        old(em)@.grown(final(em)@, 64),
        final(em)@.open(),
{
    let rax = read_reg(Reg::Rax, em);
    let t: Temp = em.peek();
    em.def(t, IrOp::Sext { dst: t, a: rax, from });
    em.push(IrOp::WriteReg { reg: Reg::Rax, src: Val::Temp(t), size: to });
}

/// The accumulator shifted by its width less one, so that only its sign is left.
pub open spec fn sign_into_dx(size: u8, s: Emission) -> Emission {
    let (s1, rax) = operand::reg_read(Reg::Rax, s);
    let (s2, v) = bin(
        BinOp::Sar,
        rax,
        Val::Imm(bit_index_mask(size)),
        size,
        FlagMask::none(),
        s1,
    );
    s2.push(IrOp::WriteReg { reg: Reg::Rdx, src: v, size })
}

/// `cwd`, `cdq` and `cqo`: fill the data register with the sign of the accumulator.
pub fn lift_sign_into_dx(em: &mut Emitter, size: u8)
    requires
        old(em)@.ready(64),
    ensures
        final(em)@ == sign_into_dx(size, old(em)@),
        old(em)@.grown(final(em)@, 64),
        final(em)@.open(),
{
    let rax = read_reg(Reg::Rax, em);
    let v = emit_bin(
        BinOp::Sar,
        rax,
        Val::Imm(bit_index_mask(size)),
        size,
        FlagMask::none(),
        em,
    );
    em.push(IrOp::WriteReg { reg: Reg::Rdx, src: v, size });
}

pub open spec fn setcc(insn: &Insn, cond: Cond, s: Emission) -> Emission {
    operand::store(
        insn,
        0,
        Val::Temp(s.next),
        s.def(IrOp::GetCond { dst: s.next, cond }),
    )
}

/// `setcc r/m8`: the condition as 0 or 1.
pub fn lift_setcc(insn: &Insn, em: &mut Emitter, cond: Cond) -> (r: Result<(), LiftError>)
    requires
        old(em)@.ready(64),
    ensures
        emit::lifted(old(em)@, final(em)@, setcc(insn, cond, old(em)@), insn, r),
{
    let c: Temp = em.peek();
    em.def(c, IrOp::GetCond { dst: c, cond });
    write_operand(insn, 0, Val::Temp(c), em)
}

/// `dst ^ ((dst ^ src) & mask)`, where `mask` is the condition (0 or 1) negated.
pub open spec fn select(cond: Cond, dst: Val, src: Val, s: Emission) -> (Emission, Val) {
    let c = Val::Temp(s.next);
    let s1 = s.def(IrOp::GetCond { dst: s.next, cond });
    let (s2, mask) = operand::alu(Alu::Sub, Val::Imm(0), c, s1);
    let (s3, diff) = operand::alu(Alu::Xor, dst, src, s2);
    let (s4, sel) = operand::alu(Alu::And, diff, mask, s3);
    operand::alu(Alu::Xor, dst, sel, s4)
}

/// The register is written whether or not the condition holds, so a 32-bit move
/// zero-extends either way.
pub open spec fn cmovcc(insn: &Insn, cond: Cond, s: Emission) -> Emission {
    let (s1, src) = operand::read(insn, 1, s);
    let (s2, dst) = operand::read(insn, 0, s1);
    let (s3, res) = select(cond, dst, src, s2);
    operand::store(insn, 0, res, s3)
}

/// `cmovcc dst, src`: a conditional move without a branch.
pub fn lift_cmovcc(insn: &Insn, em: &mut Emitter, cond: Cond) -> (r: Result<(), LiftError>)
    requires
        old(em)@.ready(64),
    ensures
        emit::lifted(old(em)@, final(em)@, cmovcc(insn, cond, old(em)@), insn, r),
{
    let src = match lower_read(insn, 1, em) {
        Ok(src) => src,
        Err(e) => {
            return Err(e);
        },
    };
    let dst = match lower_read(insn, 0, em) {
        Ok(dst) => dst,
        Err(e) => {
            return Err(e);
        },
    };
    let c: Temp = em.peek();
    em.def(c, IrOp::GetCond { dst: c, cond });
    let mask = alu_none(Alu::Sub, Val::Imm(0), Val::Temp(c), em);
    let diff = alu_none(Alu::Xor, dst, src, em);
    let sel = alu_none(Alu::And, diff, mask, em);
    let res = alu_none(Alu::Xor, dst, sel, em);
    write_operand(insn, 0, res, em)
}

} // verus!
