//! Operand lowering: registers, immediates and memory references of an instruction
//! become IR values; effective addresses are computed here and nowhere else.
use crate::insn::Insn;
use crate::ir::{FlagMask, IrOp, MemOrder, Temp, Val};
use crate::lift::emit::{Emission, Emitter};
use crate::lift::{emit, CpuMode, LiftError, WriteTarget};
use crate::state::Reg;
use crate::{code, op_kind, register};
#[allow(unused_imports)]
use vstd::arithmetic::power2::pow2;
use vstd::prelude::*;

verus! {

// --- what an instruction says of its operands ---

/// The error for an instruction that the lift does not handle.
pub fn unsupported_insn(insn: &Insn) -> (e: LiftError)
    ensures
        e.is_unsupported(insn),
{
    let bytes: [u8; 15] = [0u8;15];
    assert(bytes@ =~= Seq::new(15, |i: int| 0u8));
    LiftError::Unsupported { addr: insn.ip, bytes, len: insn.len }
}

pub open spec fn spec_reg_of(insn: &Insn, i: u32, first: u8, count: u8) -> Option<u8> {
    if insn.op(i).kind == op_kind::REGISTER {
        register::index_in(insn.op(i).reg, first, count)
    } else {
        None
    }
}

/// The place of register operand `i` in the class of `count` registers from `first` on.
#[verifier::when_used_as_spec(spec_reg_of)]
pub fn reg_of(insn: &Insn, i: u32, first: u8, count: u8) -> (r: Option<u8>)
    ensures
        r == spec_reg_of(insn, i, first, count),
{
    if insn.op(i).kind == op_kind::REGISTER {
        register::index_in(insn.op(i).reg, first, count)
    } else {
        None
    }
}

/// XMM register index (0-31) for an operand, or `None` if it is no XMM register.
#[verifier::allow_in_spec]
pub fn reg_xmm(insn: &Insn, i: u32) -> Option<u8>
    returns
        reg_of(insn, i, register::XMM0, 32),
{
    reg_of(insn, i, register::XMM0, 32)
}

/// YMM register index (0-31) for an operand.
#[verifier::allow_in_spec]
pub fn reg_ymm(insn: &Insn, i: u32) -> Option<u8>
    returns
        reg_of(insn, i, register::YMM0, 32),
{
    reg_of(insn, i, register::YMM0, 32)
}

/// ZMM register index (0-31) for an operand.
#[verifier::allow_in_spec]
pub fn reg_zmm(insn: &Insn, i: u32) -> Option<u8>
    returns
        reg_of(insn, i, register::ZMM0, 32),
{
    reg_of(insn, i, register::ZMM0, 32)
}

/// Opmask register index (k0-k7) for an operand.
#[verifier::allow_in_spec]
pub fn reg_kmask(insn: &Insn, i: u32) -> Option<u8>
    returns
        reg_of(insn, i, register::K0, 8),
{
    reg_of(insn, i, register::K0, 8)
}

/// MMX register index (mm0-mm7) for an operand.
#[verifier::allow_in_spec]
pub fn reg_mmx(insn: &Insn, i: u32) -> Option<u8>
    returns
        reg_of(insn, i, register::MM0, 8),
{
    reg_of(insn, i, register::MM0, 8)
}

pub open spec fn spec_vec_operand(insn: &Insn, i: u32) -> Option<(u8, u16)> {
    if reg_zmm(insn, i) is Some {
        Some((reg_zmm(insn, i)->0, 64))
    } else if reg_ymm(insn, i) is Some {
        Some((reg_ymm(insn, i)->0, 32))
    } else if reg_xmm(insn, i) is Some {
        Some((reg_xmm(insn, i)->0, 16))
    } else {
        None
    }
}

/// A vector operand's register index and byte width: XMM=16, YMM=32, ZMM=64.
#[verifier::when_used_as_spec(spec_vec_operand)]
pub fn vec_operand(insn: &Insn, i: u32) -> (r: Option<(u8, u16)>)
    ensures
        r == spec_vec_operand(insn, i),
{
    if let Some(z) = reg_zmm(insn, i) {
        Some((z, 64))
    } else if let Some(y) = reg_ymm(insn, i) {
        Some((y, 32))
    } else if let Some(x) = reg_xmm(insn, i) {
        Some((x, 16))
    } else {
        None
    }
}

pub open spec fn spec_reg_vec(insn: &Insn, i: u32) -> Option<u8> {
    if reg_xmm(insn, i) is Some {
        reg_xmm(insn, i)
    } else {
        reg_ymm(insn, i)
    }
}

/// Vector register index for an XMM or YMM operand (they share one file).
#[verifier::when_used_as_spec(spec_reg_vec)]
pub fn reg_vec(insn: &Insn, i: u32) -> (r: Option<u8>)
    ensures
        r == spec_reg_vec(insn, i),
{
    match reg_xmm(insn, i) {
        Some(x) => Some(x),
        None => reg_ymm(insn, i),
    }
}

pub open spec fn spec_vec_operand_reg(insn: &Insn, i: u32) -> Option<u8> {
    match vec_operand(insn, i) {
        Some(v) => Some(v.0),
        None => None,
    }
}

/// Register index of a vector operand of any width.
#[verifier::when_used_as_spec(spec_vec_operand_reg)]
pub fn vec_operand_reg(insn: &Insn, i: u32) -> (r: Option<u8>)
    ensures
        r == spec_vec_operand_reg(insn, i),
{
    match vec_operand(insn, i) {
        Some(v) => Some(v.0),
        None => None,
    }
}

/// A source that may be a vector register or memory.
#[derive(Copy, Clone, Debug)]
pub enum Source {
    Reg(u8),
    Mem,
    Neither,
}

pub open spec fn spec_source(reg: Option<u8>, insn: &Insn, i: u32) -> Source {
    match reg {
        Some(r) => Source::Reg(r),
        None => if insn.is_mem(i) {
            Source::Mem
        } else {
            Source::Neither
        },
    }
}

/// What operand `i` is, given the register it is of the class that is asked for.
#[verifier::when_used_as_spec(spec_source)]
pub fn source(reg: Option<u8>, insn: &Insn, i: u32) -> (r: Source)
    ensures
        r == spec_source(reg, insn, i),
{
    match reg {
        Some(r) => Source::Reg(r),
        None => if insn.is_mem(i) {
            Source::Mem
        } else {
            Source::Neither
        },
    }
}

pub open spec fn spec_evex_is_masked(insn: &Insn) -> bool {
    insn.op_mask != register::NONE || insn.zeroing
}

/// Whether an EVEX instruction carries a write mask (k1-k7) or zeroing.
#[verifier::when_used_as_spec(spec_evex_is_masked)]
pub fn evex_is_masked(insn: &Insn) -> (r: bool)
    ensures
        r == spec_evex_is_masked(insn),
{
    insn.op_mask != register::NONE || insn.zeroing
}

pub open spec fn spec_evex_writemask(insn: &Insn) -> Option<u8> {
    if insn.op_mask <= register::K0 {
        None
    } else {
        Some((insn.op_mask - register::K0) as u8)
    }
}

/// The EVEX write-mask register index (k1-k7), or `None` for unmasked (k0 or none).
#[verifier::when_used_as_spec(spec_evex_writemask)]
pub fn evex_writemask(insn: &Insn) -> (r: Option<u8>)
    ensures
        r == spec_evex_writemask(insn),
{
    if insn.op_mask <= register::K0 {
        None
    } else {
        Some(insn.op_mask - register::K0)
    }
}

pub open spec fn spec_operand_size(insn: &Insn, i: u32) -> u8 {
    if insn.op(i).kind == op_kind::REGISTER {
        insn.op(i).reg_size
    } else if insn.is_mem(i) {
        insn.mem_size as u8
    } else {
        0
    }
}

/// Size in bytes of one operand (register width or memory-access width).
#[verifier::when_used_as_spec(spec_operand_size)]
pub fn operand_size(insn: &Insn, i: u32) -> (r: u8)
    ensures
        r == spec_operand_size(insn, i),
{
    if insn.op(i).kind == op_kind::REGISTER {
        insn.op(i).reg_size
    } else if insn.is_mem(i) {
        insn.mem_size as u8
    } else {
        0
    }
}

pub open spec fn spec_operation_size(insn: &Insn) -> u8 {
    if operand_size(insn, 0) != 0 {
        operand_size(insn, 0)
    } else {
        operand_size(insn, 1)
    }
}

/// Width of a binary operation: the size of operand 0 (the destination), or of operand 1
/// for the rare form with no width in the first.
#[verifier::when_used_as_spec(spec_operation_size)]
pub fn operation_size(insn: &Insn) -> (r: u8)
    ensures
        r == spec_operation_size(insn),
{
    let s: u8 = operand_size(insn, 0);
    if s != 0 {
        s
    } else {
        operand_size(insn, 1)
    }
}

pub open spec fn spec_is_scalar_size(size: u8) -> bool {
    size == 1 || size == 2 || size == 4 || size == 8
}

/// A width that an integer load or store can have.
#[verifier::when_used_as_spec(spec_is_scalar_size)]
pub fn is_scalar_size(size: u8) -> (r: bool)
    ensures
        r == spec_is_scalar_size(size),
{
    size == 1 || size == 2 || size == 4 || size == 8
}

pub open spec fn spec_high_byte_parent(r: u8) -> Option<Reg> {
    if r == register::AH {
        Some(Reg::Rax)
    } else if r == register::BH {
        Some(Reg::Rbx)
    } else if r == register::CH {
        Some(Reg::Rcx)
    } else if r == register::DH {
        Some(Reg::Rdx)
    } else {
        None
    }
}

/// The general register whose bits 8-15 a high-byte register names, or `None`.
#[verifier::when_used_as_spec(spec_high_byte_parent)]
pub fn high_byte_parent(r: u8) -> (p: Option<Reg>)
    ensures
        p == spec_high_byte_parent(r),
{
    if r == register::AH {
        Some(Reg::Rax)
    } else if r == register::BH {
        Some(Reg::Rbx)
    } else if r == register::CH {
        Some(Reg::Rcx)
    } else if r == register::DH {
        Some(Reg::Rdx)
    } else {
        None
    }
}

pub open spec fn spec_iced_to_reg(r: u8) -> Option<Reg> {
    if register::AH <= r <= register::BH {
        None
    } else {
        match register::gpr_index(r) {
            Some(n) => Some(Reg::gpr(n as int)),
            None => None,
        }
    }
}

/// The `Reg` of a decoder register (a general register of any width). `None` for the
/// high-byte registers, which the 64-bit `Reg` cannot express, and for other classes.
#[verifier::when_used_as_spec(spec_iced_to_reg)]
pub fn iced_to_reg(r: u8) -> (p: Option<Reg>)
    ensures
        p == spec_iced_to_reg(r),
        p matches Some(reg) ==> reg.is_general(),
{
    if register::AH <= r && r <= register::BH {
        return None;
    }
    match register::gpr_index(r) {
        Some(n) => Some(Reg::from_gpr_index(n)),
        None => None,
    }
}

pub open spec fn spec_stack_slot(mode: CpuMode) -> u8 {
    if mode.wraps_32() {
        4
    } else {
        8
    }
}

/// Default stack-frame width of the mode: 8 in long mode, 4 in `Compat32`. Also the
/// width of a full stack-pointer write, which in `Compat32` zero-extends and so wraps.
#[verifier::when_used_as_spec(spec_stack_slot)]
pub fn stack_slot(mode: CpuMode) -> (r: u8)
    ensures
        r == spec_stack_slot(mode),
{
    if mode.wraps_32() {
        4
    } else {
        8
    }
}

pub open spec fn spec_push_pop_size(insn: &Insn, mode: CpuMode) -> u8 {
    if operand_size(insn, 0) != 0 {
        operand_size(insn, 0)
    } else if insn.code == code::PUSH_IMM16 || insn.code == code::PUSHW_IMM8 {
        2
    } else {
        stack_slot(mode)
    }
}

/// push/pop transfer size: the operand width where there is one; an immediate has none,
/// and is 2 bytes in its 16-bit forms, else the default of the mode.
#[verifier::when_used_as_spec(spec_push_pop_size)]
pub fn push_pop_size(insn: &Insn, mode: CpuMode) -> (r: u8)
    ensures
        r == spec_push_pop_size(insn, mode),
{
    let s: u8 = operand_size(insn, 0);
    if s != 0 {
        return s;
    }
    if insn.code == code::PUSH_IMM16 || insn.code == code::PUSHW_IMM8 {
        return 2;
    }
    stack_slot(mode)
}

pub open spec fn spec_mask_pc(addr: u64, mode: CpuMode) -> u64 {
    if mode.wraps_32() {
        addr & 0xFFFF_FFFF
    } else {
        addr
    }
}

/// Truncates a code address to the pointer width of the mode.
#[verifier::when_used_as_spec(spec_mask_pc)]
pub fn mask_pc(addr: u64, mode: CpuMode) -> (r: u64)
    ensures
        r == spec_mask_pc(addr, mode),
{
    if mode.wraps_32() {
        addr & 0xFFFF_FFFF
    } else {
        addr
    }
}

pub open spec fn spec_size_mask(size: u8) -> u64 {
    if size >= 8 {
        u64::MAX
    } else {
        (pow2(8 * size as nat) - 1) as u64
    }
}

/// Mask covering the low `size` bytes.
#[verifier::when_used_as_spec(spec_size_mask)]
pub fn size_mask(size: u8) -> (r: u64)
    ensures
        r == spec_size_mask(size),
{
    if size >= 8 {
        u64::MAX
    } else {
        proof {
            vstd::arithmetic::power2::lemma_pow2_strictly_increases((size * 8) as nat, 64);
            vstd::arithmetic::power2::lemma_pow2_pos((size * 8) as nat);
            vstd::arithmetic::power2::lemma2_to64();
            vstd::arithmetic::power2::lemma2_to64_rest();
            vstd::bits::lemma_u64_shl_is_mul(1, (size * 8) as u64);
        }
        (1u64 << (size as u64 * 8)) - 1
    }
}

// --- values ---

/// Reads a register into a temporary.
pub open spec fn reg_read(reg: Reg, s: Emission) -> (Emission, Val) {
    (s.def(IrOp::ReadReg { dst: s.next, reg }), Val::Temp(s.next))
}

/// Emits a `ReadReg` and returns the temporary that holds the value.
pub fn read_reg(reg: Reg, em: &mut Emitter) -> (v: Val)
    requires
        old(em)@.ready(1),
        reg != Reg::Rip,
    ensures
        final(em)@ == reg_read(reg, old(em)@).0,
        v == reg_read(reg, old(em)@).1,
        v.in_scope(final(em)@.ops),
        old(em)@.grown(final(em)@, 1),
        final(em)@.open(),
{
    let t: Temp = em.peek();
    em.def(t, IrOp::ReadReg { dst: t, reg });
    Val::Temp(t)
}

/// A 64-bit operation without flags on two values.
pub open spec fn alu(op: Alu, a: Val, b: Val, s: Emission) -> (Emission, Val) {
    (s.def(alu_op(op, s.next, a, b)), Val::Temp(s.next))
}

/// The operations that address arithmetic and merging are made of.
#[derive(Copy, Clone, Debug)]
pub enum Alu {
    Add,
    Sub,
    And,
    Or,
    Xor,
    Shl,
    Shr,
}

pub open spec fn alu_op(op: Alu, dst: Temp, a: Val, b: Val) -> IrOp {
    let size = 8u8;
    let set_flags = FlagMask::none();
    match op {
        Alu::Add => IrOp::Add { dst, a, b, size, set_flags },
        Alu::Sub => IrOp::Sub { dst, a, b, size, set_flags },
        Alu::And => IrOp::And { dst, a, b, size, set_flags },
        Alu::Or => IrOp::Or { dst, a, b, size, set_flags },
        Alu::Xor => IrOp::Xor { dst, a, b, size, set_flags },
        Alu::Shl => IrOp::Shl { dst, a, b, size, set_flags },
        Alu::Shr => IrOp::Shr { dst, a, b, size, set_flags },
    }
}

/// Emits a flag-free 64-bit operation that produces a new temporary.
pub fn alu_none(op: Alu, a: Val, b: Val, em: &mut Emitter) -> (v: Val)
    requires
        old(em)@.ready(1),
        a.in_scope(old(em)@.ops),
        b.in_scope(old(em)@.ops),
    ensures
        final(em)@ == alu(op, a, b, old(em)@).0,
        v == alu(op, a, b, old(em)@).1,
        v.in_scope(final(em)@.ops),
        old(em)@.grown(final(em)@, 1),
        final(em)@.open(),
{
    let dst: Temp = em.peek();
    let size: u8 = 8;
    let set_flags = FlagMask::none();
    let ir = match op {
        Alu::Add => IrOp::Add { dst, a, b, size, set_flags },
        Alu::Sub => IrOp::Sub { dst, a, b, size, set_flags },
        Alu::And => IrOp::And { dst, a, b, size, set_flags },
        Alu::Or => IrOp::Or { dst, a, b, size, set_flags },
        Alu::Xor => IrOp::Xor { dst, a, b, size, set_flags },
        Alu::Shl => IrOp::Shl { dst, a, b, size, set_flags },
        Alu::Shr => IrOp::Shr { dst, a, b, size, set_flags },
    };
    em.def(dst, ir);
    Val::Temp(dst)
}

// --- effective addresses ---

/// The scaled index of a memory operand.
pub open spec fn scaled_index(insn: &Insn, reg: Reg, s: Emission) -> (Emission, Val) {
    let (s1, idx) = reg_read(reg, s);
    if insn.mem_scale <= 1 {
        (s1, idx)
    } else {
        alu(Alu::Shl, idx, Val::Imm(scale_shift(insn.mem_scale)), s1)
    }
}

pub open spec fn spec_scale_shift(scale: u8) -> u64 {
    if scale == 2 {
        1
    } else if scale == 4 {
        2
    } else {
        3
    }
}

/// The shift that multiplies by an index factor above 1.
#[verifier::when_used_as_spec(spec_scale_shift)]
pub fn scale_shift(scale: u8) -> (r: u64)
    ensures
        r == spec_scale_shift(scale),
{
    if scale == 2 {
        1
    } else if scale == 4 {
        2
    } else {
        3
    }
}

/// Base and scaled index, added where there are both.
pub open spec fn base_and_index(insn: &Insn, s: Emission) -> (Emission, Option<Val>) {
    let base = iced_to_reg(insn.mem_base);
    let index = iced_to_reg(insn.mem_index);
    if insn.mem_base != register::NONE && base is None {
        (s.fail(), None)
    } else if insn.mem_base == register::NONE && insn.mem_index == register::NONE {
        (s, None)
    } else if insn.mem_index == register::NONE {
        let (s1, b) = reg_read(base->0, s);
        (s1, Some(b))
    } else if insn.mem_base == register::NONE {
        if index is None {
            (s.fail(), None)
        } else {
            let (s1, i) = scaled_index(insn, index->0, s);
            (s1, Some(i))
        }
    } else {
        let (s1, b) = reg_read(base->0, s);
        if index is None {
            (s1.fail(), None)
        } else {
            let (s2, i) = scaled_index(insn, index->0, s1);
            let (s3, v) = alu(Alu::Add, b, i, s2);
            (s3, Some(v))
        }
    }
}

fn lower_base_and_index(insn: &Insn, em: &mut Emitter) -> (r: Result<Option<Val>, LiftError>)
    requires
        old(em)@.ready(4),
    ensures
        final(em)@ == base_and_index(insn, old(em)@).0.settled(),
        r is Ok <==> base_and_index(insn, old(em)@).0.ok,
        r matches Ok(v) ==> v == base_and_index(insn, old(em)@).1,
        r matches Ok(Some(v)) ==> v.in_scope(final(em)@.ops),
        r matches Err(e) ==> e.is_unsupported(insn),
        old(em)@.grown(final(em)@, 4),
        final(em)@.open(),
{
    let mut acc: Option<Val> = None;
    if insn.mem_base != register::NONE {
        match iced_to_reg(insn.mem_base) {
            Some(reg) => {
                acc = Some(read_reg(reg, em));
            },
            None => {
                return Err(unsupported_insn(insn));
            },
        }
    }
    if insn.mem_index != register::NONE {
        let reg = match iced_to_reg(insn.mem_index) {
            Some(reg) => reg,
            None => {
                return Err(unsupported_insn(insn));
            },
        };
        let idx = read_reg(reg, em);
        let scaled = if insn.mem_scale <= 1 {
            idx
        } else {
            alu_none(Alu::Shl, idx, Val::Imm(scale_shift(insn.mem_scale)), em)
        };
        acc = match acc {
            None => Some(scaled),
            Some(a) => Some(alu_none(Alu::Add, a, scaled, em)),
        };
    }
    Ok(acc)
}

pub open spec fn spec_addr_mask(insn: &Insn) -> Option<u64> {
    if insn.mem_base_size == 2 || insn.mem_index_size == 2 {
        Some(0xFFFF)
    } else if insn.mem_base_size == 4 || insn.mem_index_size == 4 {
        Some(0xFFFF_FFFF)
    } else {
        None
    }
}

/// Address-size truncation. An address wraps at the addressing width, which is that of
/// the base and index registers: 4-byte registers wrap at 2^32, 2-byte ones at 2^16,
/// 8-byte ones do not. A displacement alone needs no mask: the decoder hands it out in
/// the width of the decode.
#[verifier::when_used_as_spec(spec_addr_mask)]
pub fn addr_mask(insn: &Insn) -> (r: Option<u64>)
    ensures
        r == spec_addr_mask(insn),
{
    if insn.mem_base_size == 2 || insn.mem_index_size == 2 {
        Some(0xFFFF)
    } else if insn.mem_base_size == 4 || insn.mem_index_size == 4 {
        Some(0xFFFF_FFFF)
    } else {
        None
    }
}

/// The displacement added to what base and index give.
pub open spec fn displaced(disp: u64, s: Emission, acc: Option<Val>) -> (Emission, Val) {
    match acc {
        None => (s, Val::Imm(disp)),
        Some(a) => if disp == 0 {
            (s, a)
        } else {
            alu(Alu::Add, a, Val::Imm(disp), s)
        },
    }
}

/// An address wrapped at the addressing width.
pub open spec fn wrapped(insn: &Insn, s: Emission, addr: Val) -> (Emission, Val) {
    match addr_mask(insn) {
        None => (s, addr),
        Some(mask) => match addr {
            Val::Imm(v) => (s, Val::Imm(v & mask)),
            a => alu(Alu::And, a, Val::Imm(mask), s),
        },
    }
}

/// `base + index*scale + disp`, wrapped at the addressing width, without any segment.
#[verifier::opaque]
pub open spec fn offset(insn: &Insn, s: Emission) -> (Emission, Val) {
    let disp = insn.mem_disp;
    if insn.mem_base == register::RIP {
        (s, Val::Imm(disp))
    } else if insn.mem_base == register::EIP {
        (s, Val::Imm(disp & 0xFFFF_FFFF))
    } else {
        let (s1, acc) = base_and_index(insn, s);
        let (s2, addr) = displaced(disp, s1, acc);
        wrapped(insn, s2, addr)
    }
}

/// The address arithmetic without the segment base. `lea` computes the offset and
/// ignores the segment; every memory access goes through [`effective_address`].
pub fn effective_address_no_segment(insn: &Insn, em: &mut Emitter) -> (r: Result<Val, LiftError>)
    requires
        old(em)@.ready(6),
    ensures
        emit::lowered(old(em)@, final(em)@, offset(insn, old(em)@), insn, r, 6),
{
    reveal(offset);
    let disp: u64 = insn.mem_disp;
    // RIP-relative addressing exists in 64-bit mode only, and the decoder has folded the
    // instruction pointer into the displacement.
    if insn.mem_base == register::RIP {
        return Ok(Val::Imm(disp));
    }
    // With a 32-bit address-size override it reports EIP and folds the same way.
    if insn.mem_base == register::EIP {
        return Ok(Val::Imm(disp & 0xFFFF_FFFF));
    }
    let acc = match lower_base_and_index(insn, em) {
        Ok(acc) => acc,
        Err(e) => {
            return Err(e);
        },
    };
    let addr = match acc {
        None => Val::Imm(disp),
        Some(a) => if disp == 0 {
            a
        } else {
            alu_none(Alu::Add, a, Val::Imm(disp), em)
        },
    };
    match addr_mask(insn) {
        None => Ok(addr),
        Some(mask) => match addr {
            Val::Imm(v) => Ok(Val::Imm(v & mask)),
            Val::Temp(_) => Ok(alu_none(Alu::And, addr, Val::Imm(mask), em)),
        },
    }
}

/// Adds the FS or GS base where the instruction carries that prefix.
pub open spec fn segmented(insn: &Insn, addr: Val, s: Emission) -> (Emission, Val) {
    if insn.segment == register::FS {
        let (s1, base) = reg_read(Reg::FsBase, s);
        alu(Alu::Add, addr, base, s1)
    } else if insn.segment == register::GS {
        let (s1, base) = reg_read(Reg::GsBase, s);
        alu(Alu::Add, addr, base, s1)
    } else {
        (s, addr)
    }
}

pub fn with_segment(insn: &Insn, addr: Val, em: &mut Emitter) -> (v: Val)
    requires
        old(em)@.ready(2),
        addr.in_scope(old(em)@.ops),
    ensures
        final(em)@ == segmented(insn, addr, old(em)@).0,
        v == segmented(insn, addr, old(em)@).1,
        v.in_scope(final(em)@.ops),
        old(em)@.grown(final(em)@, 2),
        final(em)@.open(),
{
    let seg = if insn.segment == register::FS {
        Reg::FsBase
    } else if insn.segment == register::GS {
        Reg::GsBase
    } else {
        return addr;
    };
    let base = read_reg(seg, em);
    alu_none(Alu::Add, addr, base, em)
}

/// The address of a memory operand.
#[verifier::opaque]
pub open spec fn address(insn: &Insn, s: Emission) -> (Emission, Val) {
    let (s1, off) = offset(insn, s);
    if s1.ok {
        segmented(insn, off, s1)
    } else {
        (s1, off)
    }
}

/// Emits `base + index*scale + disp` with the segment base, and returns the address.
pub fn effective_address(insn: &Insn, em: &mut Emitter) -> (r: Result<Val, LiftError>)
    requires
        old(em)@.ready(8),
    ensures
        emit::lowered(old(em)@, final(em)@, address(insn, old(em)@), insn, r, 8),
{
    reveal(address);
    match effective_address_no_segment(insn, em) {
        Ok(addr) => Ok(with_segment(insn, addr, em)),
        Err(e) => Err(e),
    }
}

// --- operands ---

/// The value of operand `i`: a register (a high byte shifted down), an immediate, or what
/// a memory operand holds.
#[verifier::opaque]
pub open spec fn read(insn: &Insn, i: u32, s: Emission) -> (Emission, Val) {
    let op = insn.op(i);
    if op.kind == op_kind::REGISTER {
        match high_byte_parent(op.reg) {
            Some(parent) => {
                let (s1, p) = reg_read(parent, s);
                let (s2, sh) = alu(Alu::Shr, p, Val::Imm(8), s1);
                alu(Alu::And, sh, Val::Imm(0xff), s2)
            },
            None => match iced_to_reg(op.reg) {
                Some(reg) => reg_read(reg, s),
                None => (s.fail(), Val::Imm(0)),
            },
        }
    } else if op.kind == op_kind::MEMORY {
        let (s1, addr) = address(insn, s);
        let size = operand_size(insn, i);
        if is_scalar_size(size) {
            (s1.def(IrOp::Load { dst: s1.next, addr, size }), Val::Temp(s1.next))
        } else {
            (s1.fail(), Val::Imm(0))
        }
    } else if op_kind::is_immediate(op.kind) {
        (s, Val::Imm(op.imm))
    } else {
        (s.fail(), Val::Imm(0))
    }
}

/// Reduces a source operand to a `Val`. A memory operand must have a width that a scalar
/// load can have.
pub fn lower_read(insn: &Insn, i: u32, em: &mut Emitter) -> (r: Result<Val, LiftError>)
    requires
        old(em)@.ready(9),
    ensures
        emit::lowered(old(em)@, final(em)@, read(insn, i, old(em)@), insn, r, 9),
{
    reveal(read);
    let op = insn.op(i);
    if op.kind == op_kind::REGISTER {
        match high_byte_parent(op.reg) {
            Some(parent) => {
                let p = read_reg(parent, em);
                let sh = alu_none(Alu::Shr, p, Val::Imm(8), em);
                Ok(alu_none(Alu::And, sh, Val::Imm(0xff), em))
            },
            None => match iced_to_reg(op.reg) {
                Some(reg) => Ok(read_reg(reg, em)),
                None => Err(unsupported_insn(insn)),
            },
        }
    } else if op.kind == op_kind::MEMORY {
        let addr = match effective_address(insn, em) {
            Ok(addr) => addr,
            Err(e) => {
                return Err(e);
            },
        };
        let size: u8 = operand_size(insn, i);
        if !is_scalar_size(size) {
            return Err(unsupported_insn(insn));
        }
        let t: Temp = em.peek();
        em.def(t, IrOp::Load { dst: t, addr, size });
        Ok(Val::Temp(t))
    } else if op_kind::is_immediate(op.kind) {
        Ok(Val::Imm(op.imm))
    } else {
        Err(unsupported_insn(insn))
    }
}

/// Where operand `i` is written.
#[verifier::opaque]
pub open spec fn target(insn: &Insn, i: u32, s: Emission) -> (Emission, WriteTarget) {
    let op = insn.op(i);
    if op.kind == op_kind::REGISTER {
        match high_byte_parent(op.reg) {
            Some(parent) => (s, WriteTarget::HighByte { parent }),
            None => match iced_to_reg(op.reg) {
                Some(reg) => (s, WriteTarget::Reg { reg, size: operand_size(insn, i) }),
                None => (s.fail(), arbitrary()),
            },
        }
    } else if op.kind == op_kind::MEMORY {
        let (s1, addr) = address(insn, s);
        let size = operand_size(insn, i);
        if is_scalar_size(size) {
            (s1, WriteTarget::Mem { addr, size })
        } else {
            (s1.fail(), arbitrary())
        }
    } else {
        (s.fail(), arbitrary())
    }
}

impl WriteTarget {
    /// Everything needed to write the target has been emitted.
    pub open spec fn in_scope(self, ops: Seq<IrOp>) -> bool {
        match self {
            WriteTarget::Mem { addr, .. } => addr.in_scope(ops),
            WriteTarget::HighByte { parent } => parent != Reg::Rip,
            WriteTarget::Reg { reg, .. } => reg.is_general(),
        }
    }
}

/// Reduces a destination operand to a write handle.
pub fn lower_write_target(insn: &Insn, i: u32, em: &mut Emitter) -> (r: Result<
    WriteTarget,
    LiftError,
>)
    requires
        old(em)@.ready(8),
    ensures
        final(em)@ == target(insn, i, old(em)@).0.settled(),
        r is Ok <==> target(insn, i, old(em)@).0.ok,
        r matches Ok(w) ==> w == target(insn, i, old(em)@).1 && w.in_scope(final(em)@.ops),
        r matches Err(e) ==> e.is_unsupported(insn),
        old(em)@.grown(final(em)@, 8),
        final(em)@.open(),
{
    reveal(target);
    let op = insn.op(i);
    if op.kind == op_kind::REGISTER {
        match high_byte_parent(op.reg) {
            Some(parent) => Ok(WriteTarget::HighByte { parent }),
            None => match iced_to_reg(op.reg) {
                Some(reg) => Ok(WriteTarget::Reg { reg, size: operand_size(insn, i) }),
                None => Err(unsupported_insn(insn)),
            },
        }
    } else if op.kind == op_kind::MEMORY {
        let addr = match effective_address(insn, em) {
            Ok(addr) => addr,
            Err(e) => {
                return Err(e);
            },
        };
        let size: u8 = operand_size(insn, i);
        if is_scalar_size(size) {
            Ok(WriteTarget::Mem { addr, size })
        } else {
            Err(unsupported_insn(insn))
        }
    } else {
        Err(unsupported_insn(insn))
    }
}

/// Writes a value to a target. A high byte is merged into its parent:
/// `parent = (parent & ~0xff00) | ((value & 0xff) << 8)`.
#[verifier::opaque]
pub open spec fn write(target: WriteTarget, value: Val, s: Emission) -> Emission {
    match target {
        WriteTarget::Reg { reg, size } => s.push(IrOp::WriteReg { reg, src: value, size }),
        WriteTarget::Mem { addr, size } => s.push(
            IrOp::Store { addr, src: value, size, order: MemOrder::Plain },
        ),
        WriteTarget::HighByte { parent } => {
            let (s1, cur) = reg_read(parent, s);
            let (s2, clear) = alu(Alu::And, cur, Val::Imm(0xffff_ffff_ffff_00ff), s1);
            let (s3, byte) = alu(Alu::And, value, Val::Imm(0xff), s2);
            let (s4, shifted) = alu(Alu::Shl, byte, Val::Imm(8), s3);
            let (s5, merged) = alu(Alu::Or, clear, shifted, s4);
            s5.push(IrOp::WriteReg { reg: parent, src: merged, size: 8 })
        },
    }
}

pub fn emit_write(em: &mut Emitter, target: WriteTarget, value: Val)
    requires
        old(em)@.ready(5),
        target.in_scope(old(em)@.ops),
        value.in_scope(old(em)@.ops),
    ensures
        final(em)@ == write(target, value, old(em)@),
        old(em)@.grown(final(em)@, 5),
        final(em)@.open(),
{
    reveal(write);
    match target {
        WriteTarget::Reg { reg, size } => em.push(IrOp::WriteReg { reg, src: value, size }),
        WriteTarget::Mem { addr, size } => em.push(
            IrOp::Store { addr, src: value, size, order: MemOrder::Plain },
        ),
        WriteTarget::HighByte { parent } => {
            let cur = read_reg(parent, em);
            let clear = alu_none(Alu::And, cur, Val::Imm(0xffff_ffff_ffff_00ff), em);
            let byte = alu_none(Alu::And, value, Val::Imm(0xff), em);
            let shifted = alu_none(Alu::Shl, byte, Val::Imm(8), em);
            let merged = alu_none(Alu::Or, clear, shifted, em);
            em.push(IrOp::WriteReg { reg: parent, src: merged, size: 8 });
        },
    }
}

/// Writes a value to operand `i`.
#[verifier::opaque]
pub open spec fn store(insn: &Insn, i: u32, value: Val, s: Emission) -> Emission {
    let (s1, w) = target(insn, i, s);
    write(w, value, s1)
}

pub fn write_operand(insn: &Insn, i: u32, value: Val, em: &mut Emitter) -> (r: Result<
    (),
    LiftError,
>)
    requires
        old(em)@.ready(13),
        value.in_scope(old(em)@.ops),
    ensures
        final(em)@ == store(insn, i, value, old(em)@).settled(),
        r is Ok <==> store(insn, i, value, old(em)@).ok,
        r matches Err(e) ==> e.is_unsupported(insn),
        old(em)@.grown(final(em)@, 13),
        final(em)@.open(),
{
    reveal(store);
    reveal(write);
    match lower_write_target(insn, i, em) {
        Ok(w) => {
            emit_write(em, w, value);
            Ok(())
        },
        Err(e) => Err(e),
    }
}

// --- nothing is emitted after a failure ---

pub broadcast proof fn lemma_failed_address(insn: &Insn, s: Emission)
    requires
        !s.ok,
    ensures
        (#[trigger] address(insn, s)).0 == s,
{
    reveal(address);
    reveal(offset);
}

pub broadcast proof fn lemma_failed_read(insn: &Insn, i: u32, s: Emission)
    requires
        !s.ok,
    ensures
        (#[trigger] read(insn, i, s)).0 == s,
{
    reveal(read);
    lemma_failed_address(insn, s);
}

pub broadcast proof fn lemma_failed_target(insn: &Insn, i: u32, s: Emission)
    requires
        !s.ok,
    ensures
        (#[trigger] target(insn, i, s)).0 == s,
{
    reveal(target);
    lemma_failed_address(insn, s);
}

pub broadcast proof fn lemma_failed_write(target: WriteTarget, value: Val, s: Emission)
    ensures
        !s.ok ==> #[trigger] write(target, value, s) == s,
        s.ok ==> write(target, value, s).ok,
{
    reveal(write);
}

pub broadcast proof fn lemma_failed_store(insn: &Insn, i: u32, value: Val, s: Emission)
    requires
        !s.ok,
    ensures
        #[trigger] store(insn, i, value, s) == s,
{
    reveal(store);
    lemma_failed_target(insn, i, s);
    lemma_failed_write(target(insn, i, s).1, value, s);
}

pub broadcast group group_failed {
    lemma_failed_address,
    lemma_failed_read,
    lemma_failed_target,
    lemma_failed_write,
    lemma_failed_store,
}

} // verus!
