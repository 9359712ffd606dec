//! Dispatch of a decoded instruction to its lift.
use crate::insn::Insn;
use crate::ir::{FPrec, IrOp, MemOrder, StrOp, Val};
use crate::lift::emit::{Emission, Emitter};
use crate::lift::operand::{effective_address, reg_xmm, unsupported_insn};
use crate::lift::table::{
    classify, ControlForm, ConvertForm, CryptoForm, FloatForm, Form, IntForm, MaskForm, MoveForm,
    PackedForm, ShuffleForm,
};
use crate::lift::{
    control, emit, integer, operand, table, vcrypto, vfloat, vmask, vmove, vpacked, vshuffle, CpuMode,
    LiftError,
};
use crate::op_kind;
use crate::state::Reg;
use vstd::prelude::*;

verus! {

broadcast use operand::group_failed;

/// A fixed timestamp: guests see time that does not pass.
pub open spec fn rdtsc(s: Emission) -> Emission {
    s.push(IrOp::WriteReg { reg: Reg::Rax, src: Val::Imm(0x1234_5678), size: 4 }).push(
        IrOp::WriteReg { reg: Reg::Rdx, src: Val::Imm(0), size: 4 },
    )
}

/// The default value of the control and status register.
pub open spec fn stmxcsr(insn: &Insn, s: Emission) -> Emission {
    let (s1, addr) = operand::address(insn, s);
    s1.push(IrOp::Store { addr, src: Val::Imm(0x1F80), size: 4, order: MemOrder::Plain })
}

/// `stmxcsr`.
pub fn lift_stmxcsr(insn: &Insn, em: &mut Emitter) -> (r: Result<(), LiftError>)
    requires
        old(em)@.ready(64),
    ensures
        emit::lifted(old(em)@, final(em)@, stmxcsr(insn, old(em)@), insn, r),
{
    match effective_address(insn, em) {
        Ok(addr) => {
            em.push(
                IrOp::Store { addr, src: Val::Imm(0x1F80), size: 4, order: MemOrder::Plain },
            );
            Ok(())
        },
        Err(e) => Err(e),
    }
}

pub open spec fn fxstate(insn: &Insn, restore: bool, s: Emission) -> Emission {
    let (s1, addr) = operand::address(insn, s);
    s1.push(IrOp::FxState { addr, restore })
}

/// `fxsave` and `fxrstor`.
pub fn lift_fxstate(insn: &Insn, em: &mut Emitter, restore: bool) -> (r: Result<(), LiftError>)
    requires
        old(em)@.ready(64),
    ensures
        emit::lifted(old(em)@, final(em)@, fxstate(insn, restore, old(em)@), insn, r),
{
    match effective_address(insn, em) {
        Ok(addr) => {
            em.push(IrOp::FxState { addr, restore });
            Ok(())
        },
        Err(e) => Err(e),
    }
}

/// Without a vector register this is the string move of 4 bytes.
#[verifier::opaque]
pub open spec fn movsd(insn: &Insn, s: Emission) -> Emission {
    if reg_xmm(insn, 0) is None && reg_xmm(insn, 1) is None {
        control::string(insn, StrOp::Movs, 4, s)
    } else {
        vfloat::scalar_fmove(insn, FPrec::F64, s)
    }
}

/// `movsd`, the move of a double or of a string.
pub fn lift_movsd(insn: &Insn, em: &mut Emitter) -> (r: Result<(), LiftError>)
    requires
        old(em)@.ready(64),
    ensures
        emit::lifted(old(em)@, final(em)@, movsd(insn, old(em)@), insn, r),
{
    reveal(movsd);
    if reg_xmm(insn, 0).is_none() && reg_xmm(insn, 1).is_none() {
        control::lift_string(insn, em, StrOp::Movs, 4)
    } else {
        vfloat::lift_scalar_fmove(insn, em, FPrec::F64)
    }
}

/// Without a vector register this is the string comparison of 4 bytes.
#[verifier::opaque]
pub open spec fn cmpsd(insn: &Insn, s: Emission) -> Emission {
    if reg_xmm(insn, 0) is None && reg_xmm(insn, 1) is None {
        control::string(insn, StrOp::Cmps, 4, s)
    } else {
        vfloat::float_cmp_mask(insn, FPrec::F64, true, s)
    }
}

/// `cmpsd`, the comparison of doubles or of strings.
pub fn lift_cmpsd(insn: &Insn, em: &mut Emitter) -> (r: Result<(), LiftError>)
    requires
        old(em)@.ready(64),
    ensures
        emit::lifted(old(em)@, final(em)@, cmpsd(insn, old(em)@), insn, r),
{
    reveal(cmpsd);
    if reg_xmm(insn, 0).is_none() && reg_xmm(insn, 1).is_none() {
        control::lift_string(insn, em, StrOp::Cmps, 4)
    } else {
        vfloat::lift_float_cmp_mask(insn, em, FPrec::F64, true)
    }
}

/// Integer instructions: what they emit.
pub open spec fn int_ir(form: IntForm, insn: &Insn, s: Emission) -> Emission {
    match form {
        IntForm::Nop => s,
        IntForm::Mov => integer::mov(insn, s),
        IntForm::Lea => integer::lea(insn, s),
        IntForm::Bin(a, b, c) => integer::binop(insn, a, b, c, s),
        IntForm::DoubleShift(a) => integer::double_shift(insn, a, s),
        IntForm::Unary(a) => integer::unary_op0(insn, a, s),
        IntForm::Mul => integer::widening_mul(insn, false, s),
        IntForm::Imul => integer::imul(insn, s),
        IntForm::Div(a) => integer::div(insn, a, s),
        IntForm::Mulx => integer::mulx(insn, s),
        IntForm::Bswap => integer::bswap(insn, s),
        IntForm::Movbe => integer::movbe(insn, s),
        IntForm::Xchg => integer::xchg(insn, s),
        IntForm::Xadd => integer::xadd(insn, s),
        IntForm::Cmpxchg => integer::cmpxchg(insn, s),
        IntForm::Popcnt => integer::popcnt(insn, s),
        IntForm::Crc32 => integer::crc32(insn, s),
        IntForm::Movzx => integer::movzx(insn, s),
        IntForm::Movsx => integer::movsx(insn, s),
        IntForm::Bmi(a) => integer::bmi(insn, a, s),
        IntForm::BmiShift(a) => integer::bmi_shift(insn, a, s),
        IntForm::BitScan(a) => integer::bitscan(insn, a, s),
        IntForm::Bt(a) => integer::bt(insn, a, s),
        IntForm::Extend(a, b) => integer::cbw_family(a, b, s),
        IntForm::SignIntoDx(a) => integer::sign_into_dx(a, s),
        IntForm::Setcc(a) => integer::setcc(insn, a, s),
        IntForm::Cmovcc(a) => integer::cmovcc(insn, a, s),
    }
}

fn lift_int(form: IntForm, insn: &Insn, em: &mut Emitter) -> (r: Result<(), LiftError>)
    requires
        old(em)@.ready(64),
    ensures
        emit::lifted(old(em)@, final(em)@, int_ir(form, insn, old(em)@), insn, r),
{
    match form {
        IntForm::Nop => Ok(()),
        IntForm::Mov => integer::lift_mov(insn, em),
        IntForm::Lea => integer::lift_lea(insn, em),
        IntForm::Bin(a, b, c) => integer::lift_binop(insn, em, a, b, c),
        IntForm::DoubleShift(a) => integer::lift_double_shift(insn, em, a),
        IntForm::Unary(a) => integer::lift_unary_op0(insn, em, a),
        IntForm::Mul => integer::lift_widening_mul(insn, em, false),
        IntForm::Imul => integer::lift_imul(insn, em),
        IntForm::Div(a) => integer::lift_div(insn, em, a),
        IntForm::Mulx => integer::lift_mulx(insn, em),
        IntForm::Bswap => integer::lift_bswap(insn, em),
        IntForm::Movbe => integer::lift_movbe(insn, em),
        IntForm::Xchg => integer::lift_xchg(insn, em),
        IntForm::Xadd => integer::lift_xadd(insn, em),
        IntForm::Cmpxchg => integer::lift_cmpxchg(insn, em),
        IntForm::Popcnt => integer::lift_popcnt(insn, em),
        IntForm::Crc32 => integer::lift_crc32(insn, em),
        IntForm::Movzx => integer::lift_movzx(insn, em),
        IntForm::Movsx => integer::lift_movsx(insn, em),
        IntForm::Bmi(a) => integer::lift_bmi(insn, em, a),
        IntForm::BmiShift(a) => integer::lift_bmi_shift(insn, em, a),
        IntForm::BitScan(a) => integer::lift_bitscan(insn, em, a),
        IntForm::Bt(a) => integer::lift_bt(insn, em, a),
        IntForm::Extend(a, b) => {
            integer::lift_cbw_family(em, a, b);
            Ok(())
        },
        IntForm::SignIntoDx(a) => {
            integer::lift_sign_into_dx(em, a);
            Ok(())
        },
        IntForm::Setcc(a) => integer::lift_setcc(insn, em, a),
        IntForm::Cmovcc(a) => integer::lift_cmovcc(insn, em, a),
    }
}

/// What a control instruction emits, and whether it ends the block.
pub open spec fn control_ir(form: ControlForm, insn: &Insn, mode: CpuMode, s: Emission) -> (Emission, bool) {
    match form {
        ControlForm::Cpuid => (s.push(IrOp::Cpuid), false),
        ControlForm::Xgetbv => (s.push(IrOp::Xgetbv), false),
        ControlForm::Rdtsc => (rdtsc(s), false),
        ControlForm::X87 => (control::x87(insn, s), false),
        ControlForm::Stmxcsr => (stmxcsr(insn, s), false),
        ControlForm::FxState(a) => (fxstate(insn, a, s), false),
        ControlForm::SetDf(a) => (s.push(IrOp::SetDf { value: a }), false),
        ControlForm::Str(a, b) => (control::string(insn, a, b, s), false),
        ControlForm::Push => (control::push(insn, mode, s), false),
        ControlForm::Pop => (control::pop(insn, mode, s), false),
        ControlForm::Leave => (control::leave(insn, mode, s), false),
        ControlForm::Jmp => (control::jmp(insn, mode, s), true),
        ControlForm::Jcc(a) => (control::jcc(insn, a, mode, s), true),
        ControlForm::Call => (control::call(insn, mode, s), true),
        ControlForm::Ret => (control::ret(insn, mode, s), true),
        ControlForm::Syscall => (s.push(IrOp::Syscall { is_amd64: true }), true),
        ControlForm::Hlt => (s.push(IrOp::Hlt), true),
        ControlForm::PortIo(a) => (control::port_io(insn, a, s), true),
        ControlForm::Trap(a, b) => (s.push(IrOp::Trap { vector: a, advance: if b { insn.len } else { 0 } }), true),
        ControlForm::Int => (control::int_n(insn, s), true),
    }
}

fn lift_control(form: ControlForm, insn: &Insn, em: &mut Emitter, mode: CpuMode) -> (r: Result<
    bool,
    LiftError,
>)
    requires
        old(em)@.ready(64),
    ensures
        emit::dispatched(old(em)@, final(em)@, control_ir(form, insn, mode, old(em)@), insn, r),
{
    match form {
        ControlForm::Cpuid => {
            em.push(IrOp::Cpuid);
            Ok(false)
        },
        ControlForm::Xgetbv => {
            em.push(IrOp::Xgetbv);
            Ok(false)
        },
        ControlForm::Rdtsc => {
            em.push(IrOp::WriteReg { reg: Reg::Rax, src: Val::Imm(0x1234_5678), size: 4 });
            em.push(IrOp::WriteReg { reg: Reg::Rdx, src: Val::Imm(0), size: 4 });
            Ok(false)
        },
        ControlForm::X87 => {
            match control::lift_x87(insn, em) {
                Ok(_) => Ok(false),
                Err(e) => Err(e),
            }
        },
        ControlForm::Stmxcsr => {
            match lift_stmxcsr(insn, em) {
                Ok(_) => Ok(false),
                Err(e) => Err(e),
            }
        },
        ControlForm::FxState(a) => {
            match lift_fxstate(insn, em, a) {
                Ok(_) => Ok(false),
                Err(e) => Err(e),
            }
        },
        ControlForm::SetDf(a) => {
            em.push(IrOp::SetDf { value: a });
            Ok(false)
        },
        ControlForm::Str(a, b) => {
            match control::lift_string(insn, em, a, b) {
                Ok(_) => Ok(false),
                Err(e) => Err(e),
            }
        },
        ControlForm::Push => {
            match control::lift_push(insn, em, mode) {
                Ok(_) => Ok(false),
                Err(e) => Err(e),
            }
        },
        ControlForm::Pop => {
            match control::lift_pop(insn, em, mode) {
                Ok(_) => Ok(false),
                Err(e) => Err(e),
            }
        },
        ControlForm::Leave => {
            match control::lift_leave(insn, em, mode) {
                Ok(_) => Ok(false),
                Err(e) => Err(e),
            }
        },
        ControlForm::Jmp => control::lift_jmp(insn, em, mode),
        ControlForm::Jcc(a) => control::lift_jcc(insn, em, a, mode),
        ControlForm::Call => control::lift_call(insn, em, mode),
        ControlForm::Ret => control::lift_ret(insn, em, mode),
        ControlForm::Syscall => {
            em.end(IrOp::Syscall { is_amd64: true });
            Ok(true)
        },
        ControlForm::Hlt => {
            em.end(IrOp::Hlt);
            Ok(true)
        },
        ControlForm::PortIo(a) => control::lift_port_io(insn, em, a),
        ControlForm::Trap(a, b) => {
            let advance: u8 = if b {
                insn.len
            } else {
                0
            };
            em.end(IrOp::Trap { vector: a, advance });
            Ok(true)
        },
        ControlForm::Int => control::lift_int(insn, em),
    }
}

/// Vector moves: what they emit.
pub open spec fn move_ir(form: MoveForm, insn: &Insn, s: Emission) -> Emission {
    match form {
        MoveForm::Mov(a) => vmove::vmov(insn, a, s),
        MoveForm::MovVex(a) => vmove::vmov_vex(insn, a, s),
        MoveForm::MovAvx(a) => vmove::vmov_avx(insn, a, s),
        MoveForm::MoveHalf(a, b) => vmove::move_half(insn, a, b, s),
        MoveForm::HalfMem(a) => vmove::half_mem(insn, a, s),
        MoveForm::HalfMemVex(a) => vmove::vhalf_mem(insn, a, s),
        MoveForm::Movq2dq => vmove::movq2dq(insn, s),
        MoveForm::Movdq2q => vmove::movdq2q(insn, s),
        MoveForm::MoveMask => vmove::pmovmskb(insn, s),
        MoveForm::MoveMaskVex => vmove::vpmovmskb(insn, s),
        MoveForm::MoveMaskFloat(a) => vmove::movmskfp(insn, a, s),
        MoveForm::Pinsrw => vmove::pinsrw(insn, s),
        MoveForm::Pinsr(a) => vmove::pinsr(insn, a, s),
        MoveForm::Pextrw => vmove::pextrw(insn, s),
        MoveForm::Pextr(a) => vmove::pextr(insn, a, s),
        MoveForm::ZeroUpper(a) => s.push(IrOp::VZeroUpperAll { clear_low: a }),
    }
}

fn lift_move(form: MoveForm, insn: &Insn, em: &mut Emitter) -> (r: Result<(), LiftError>)
    requires
        old(em)@.ready(64),
    ensures
        emit::lifted(old(em)@, final(em)@, move_ir(form, insn, old(em)@), insn, r),
{
    match form {
        MoveForm::Mov(a) => vmove::lift_vmov(insn, em, a),
        MoveForm::MovVex(a) => vmove::lift_vmov_vex(insn, em, a),
        MoveForm::MovAvx(a) => vmove::lift_vmov_avx(insn, em, a),
        MoveForm::MoveHalf(a, b) => vmove::lift_move_half(insn, em, a, b),
        MoveForm::HalfMem(a) => vmove::lift_half_mem(insn, em, a),
        MoveForm::HalfMemVex(a) => vmove::lift_vhalf_mem(insn, em, a),
        MoveForm::Movq2dq => vmove::lift_movq2dq(insn, em),
        MoveForm::Movdq2q => vmove::lift_movdq2q(insn, em),
        MoveForm::MoveMask => vmove::lift_pmovmskb(insn, em),
        MoveForm::MoveMaskVex => vmove::lift_vpmovmskb(insn, em),
        MoveForm::MoveMaskFloat(a) => vmove::lift_movmskfp(insn, em, a),
        MoveForm::Pinsrw => vmove::lift_pinsrw(insn, em),
        MoveForm::Pinsr(a) => vmove::lift_pinsr(insn, em, a),
        MoveForm::Pextrw => vmove::lift_pextrw(insn, em),
        MoveForm::Pextr(a) => vmove::lift_pextr(insn, em, a),
        MoveForm::ZeroUpper(a) => {
            em.push(IrOp::VZeroUpperAll { clear_low: a });
            Ok(())
        },
    }
}

/// Packed integer instructions: what they emit.
pub open spec fn packed_ir(form: PackedForm, insn: &Insn, s: Emission) -> Emission {
    match form {
        PackedForm::Logic(a) => vpacked::vlogic(insn, a, s),
        PackedForm::LogicAvx(a) => vpacked::vlogic_avx(insn, a, s),
        PackedForm::LogicEvex(a, b) => vpacked::evex_vlogic(insn, a, b, s),
        PackedForm::Bin(a, b) => vpacked::vpacked_bin(insn, a, b, s),
        PackedForm::BinAvx(a, b) => vpacked::vpacked_bin_avx(insn, a, b, s),
        PackedForm::BinEvex128(a, b) => vpacked::evex_packed_bin_128(insn, a, b, s),
        PackedForm::Shift(a, b, c) => vpacked::vpacked_shift(insn, a, b, c, s),
        PackedForm::ShiftAvx(a, b, c) => vpacked::vpacked_shift_avx(insn, a, b, c, s),
        PackedForm::ByteShift(a) => vpacked::byteshift(insn, a, s),
        PackedForm::ByteShiftAvx(a) => vpacked::byteshift_avx(insn, a, s),
        PackedForm::Sign(a) => vpacked::psign(insn, a, s),
        PackedForm::SignVex(a) => vpacked::vpsign(insn, a, s),
        PackedForm::Abs(a) => vpacked::vpabs(insn, a, s),
        PackedForm::Popcnt(a) => vpacked::vpopcnt(insn, a, s),
        PackedForm::Ternlog => vpacked::vpternlog(insn, s),
        PackedForm::Ptest => vpacked::ptest(insn, s),
        PackedForm::StringIndex(a) => vpacked::pcmpstr_idx(insn, a, s),
    }
}

fn lift_packed(form: PackedForm, insn: &Insn, em: &mut Emitter) -> (r: Result<(), LiftError>)
    requires
        old(em)@.ready(64),
    ensures
        emit::lifted(old(em)@, final(em)@, packed_ir(form, insn, old(em)@), insn, r),
{
    match form {
        PackedForm::Logic(a) => vpacked::lift_vlogic(insn, em, a),
        PackedForm::LogicAvx(a) => vpacked::lift_vlogic_avx(insn, em, a),
        PackedForm::LogicEvex(a, b) => vpacked::lift_evex_vlogic(insn, em, a, b),
        PackedForm::Bin(a, b) => vpacked::lift_vpacked_bin(insn, em, a, b),
        PackedForm::BinAvx(a, b) => vpacked::lift_vpacked_bin_avx(insn, em, a, b),
        PackedForm::BinEvex128(a, b) => vpacked::lift_evex_packed_bin_128(insn, em, a, b),
        PackedForm::Shift(a, b, c) => vpacked::lift_vpacked_shift(insn, em, a, b, c),
        PackedForm::ShiftAvx(a, b, c) => vpacked::lift_vpacked_shift_avx(insn, em, a, b, c),
        PackedForm::ByteShift(a) => vpacked::lift_byteshift(insn, em, a),
        PackedForm::ByteShiftAvx(a) => vpacked::lift_byteshift_avx(insn, em, a),
        PackedForm::Sign(a) => vpacked::lift_psign(insn, em, a),
        PackedForm::SignVex(a) => vpacked::lift_vpsign(insn, em, a),
        PackedForm::Abs(a) => vpacked::lift_vpabs(insn, em, a),
        PackedForm::Popcnt(a) => vpacked::lift_vpopcnt(insn, em, a),
        PackedForm::Ternlog => vpacked::lift_vpternlog(insn, em),
        PackedForm::Ptest => vpacked::lift_ptest(insn, em),
        PackedForm::StringIndex(a) => vpacked::lift_pcmpstr_idx(insn, em, a),
    }
}

/// Shuffles, permutes and lane moves: what they emit.
pub open spec fn shuffle_ir(form: ShuffleForm, insn: &Insn, s: Emission) -> Emission {
    match form {
        ShuffleForm::Pshufd => vshuffle::pshufd(insn, s),
        ShuffleForm::PshufdVex => vshuffle::vpshufd(insn, s),
        ShuffleForm::Pshufw(a) => vshuffle::pshufw(insn, a, s),
        ShuffleForm::Pshufb => vshuffle::pshufb(insn, s),
        ShuffleForm::PshufbVex => vshuffle::vpshufb(insn, s),
        ShuffleForm::Palignr => vshuffle::palignr(insn, s),
        ShuffleForm::PalignrVex => vshuffle::vpalignr(insn, s),
        ShuffleForm::Unpack(a, b) => vshuffle::vunpack(insn, a, b, s),
        ShuffleForm::UnpackVex(a, b) => vshuffle::vunpack_avx(insn, a, b, s),
        ShuffleForm::Packuswb => vshuffle::packuswb(insn, s),
        ShuffleForm::PackVex(a, b) => vshuffle::vpack(insn, a, b, s),
        ShuffleForm::Pblendw => vshuffle::pblendw(insn, s),
        ShuffleForm::PblendwVex => vshuffle::vpblendw(insn, s),
        ShuffleForm::Blendv(a) => vshuffle::blendv(insn, a, s),
        ShuffleForm::Extend(a, b, c) => vshuffle::pmovx(insn, a, b, c, s),
        ShuffleForm::ExtendVex(a, b, c) => vshuffle::vpmovx(insn, a, b, c, s),
        ShuffleForm::Narrow(a, b) => vshuffle::vpmov_narrow(insn, a, b, s),
        ShuffleForm::Broadcast(a) => vshuffle::broadcast(insn, a, s),
        ShuffleForm::Insert128 => vshuffle::vinsert128(insn, s),
        ShuffleForm::Extract128 => vshuffle::vextract128(insn, s),
        ShuffleForm::Align(a) => vshuffle::valign(insn, a, s),
        ShuffleForm::Permute2(a, b) => vshuffle::vperm2(insn, a, b, s),
        ShuffleForm::Vpermd => vshuffle::vpermd(insn, s),
        ShuffleForm::Perm2i128 => vshuffle::vperm2i128(insn, s),
        ShuffleForm::Shufps => vshuffle::shufps(insn, insn.imm8(2), s),
        ShuffleForm::Shufpd => vshuffle::shufps(insn, vshuffle::shufpd_selector(insn.imm8(2)), s),
        ShuffleForm::InsertWide(a) => vshuffle::vinsert_wide(insn, if a { 2 } else { 1 }, s),
        ShuffleForm::ExtractWide(a) => vshuffle::vextract_wide(insn, if a { 2 } else { 1 }, s),
        ShuffleForm::Vpermq => if insn.op2.kind == op_kind::IMMEDIATE8 {
            vshuffle::vpermq_imm(insn, s)
        } else {
            vshuffle::vperm1(insn, 8, s)
        },
        ShuffleForm::Vpermpd => if insn.op2.kind == op_kind::IMMEDIATE8 {
            vshuffle::vpermq_imm(insn, s)
        } else {
            s.fail()
        },
    }
}

fn lift_shuffle(form: ShuffleForm, insn: &Insn, em: &mut Emitter) -> (r: Result<(), LiftError>)
    requires
        old(em)@.ready(64),
    ensures
        emit::lifted(old(em)@, final(em)@, shuffle_ir(form, insn, old(em)@), insn, r),
{
    match form {
        ShuffleForm::Pshufd => vshuffle::lift_pshufd(insn, em),
        ShuffleForm::PshufdVex => vshuffle::lift_vpshufd(insn, em),
        ShuffleForm::Pshufw(a) => vshuffle::lift_pshufw(insn, em, a),
        ShuffleForm::Pshufb => vshuffle::lift_pshufb(insn, em),
        ShuffleForm::PshufbVex => vshuffle::lift_vpshufb(insn, em),
        ShuffleForm::Palignr => vshuffle::lift_palignr(insn, em),
        ShuffleForm::PalignrVex => vshuffle::lift_vpalignr(insn, em),
        ShuffleForm::Unpack(a, b) => vshuffle::lift_vunpack(insn, em, a, b),
        ShuffleForm::UnpackVex(a, b) => vshuffle::lift_vunpack_avx(insn, em, a, b),
        ShuffleForm::Packuswb => vshuffle::lift_packuswb(insn, em),
        ShuffleForm::PackVex(a, b) => vshuffle::lift_vpack(insn, em, a, b),
        ShuffleForm::Pblendw => vshuffle::lift_pblendw(insn, em),
        ShuffleForm::PblendwVex => vshuffle::lift_vpblendw(insn, em),
        ShuffleForm::Blendv(a) => vshuffle::lift_blendv(insn, em, a),
        ShuffleForm::Extend(a, b, c) => vshuffle::lift_pmovx(insn, em, a, b, c),
        ShuffleForm::ExtendVex(a, b, c) => vshuffle::lift_vpmovx(insn, em, a, b, c),
        ShuffleForm::Narrow(a, b) => vshuffle::lift_vpmov_narrow(insn, em, a, b),
        ShuffleForm::Broadcast(a) => vshuffle::lift_broadcast(insn, em, a),
        ShuffleForm::Insert128 => vshuffle::lift_vinsert128(insn, em),
        ShuffleForm::Extract128 => vshuffle::lift_vextract128(insn, em),
        ShuffleForm::Align(a) => vshuffle::lift_valign(insn, em, a),
        ShuffleForm::Permute2(a, b) => vshuffle::lift_vperm2(insn, em, a, b),
        ShuffleForm::Vpermd => vshuffle::lift_vpermd(insn, em),
        ShuffleForm::Perm2i128 => vshuffle::lift_vperm2i128(insn, em),
        ShuffleForm::Shufps => vshuffle::lift_shufps(insn, em, insn.imm8(2)),
        ShuffleForm::Shufpd => vshuffle::lift_shufps(insn, em, vshuffle::shufpd_selector(insn.imm8(2))),
        ShuffleForm::InsertWide(a) => vshuffle::lift_vinsert_wide(insn, em, if a { 2 } else { 1 }),
        ShuffleForm::ExtractWide(a) => vshuffle::lift_vextract_wide(insn, em, if a { 2 } else { 1 }),
        ShuffleForm::Vpermq => if insn.op2.kind == op_kind::IMMEDIATE8 {
            vshuffle::lift_vpermq_imm(insn, em)
        } else {
            vshuffle::lift_vperm1(insn, em, 8)
        },
        ShuffleForm::Vpermpd => if insn.op2.kind == op_kind::IMMEDIATE8 {
            vshuffle::lift_vpermq_imm(insn, em)
        } else {
            Err(unsupported_insn(insn))
        },
    }
}

/// Opmask instructions: what they emit.
pub open spec fn mask_ir(form: MaskForm, insn: &Insn, s: Emission) -> Emission {
    match form {
        MaskForm::Unpack(a) => vmask::kunpck(insn, a, s),
        MaskForm::Bin(a, b) => vmask::kbinop(insn, a, b, s),
        MaskForm::Not(a) => vmask::knot(insn, a, s),
        MaskForm::Shift(a, b) => vmask::kshift(insn, a, b, s),
        MaskForm::Mov(a) => vmask::kmov(insn, a, s),
        MaskForm::OrTest(a) => vmask::kortest(insn, a, s),
        MaskForm::Test(a, b) => vmask::vptest(insn, a, b, s),
        MaskForm::Compare(a, b) => vmask::vpcmp(insn, a, b, s),
        MaskForm::CompareFixed(a, b, c, d) => vmask::vpcmp_fixed_or_packed(insn, a, b, c, d, s),
    }
}

fn lift_mask(form: MaskForm, insn: &Insn, em: &mut Emitter) -> (r: Result<(), LiftError>)
    requires
        old(em)@.ready(64),
    ensures
        emit::lifted(old(em)@, final(em)@, mask_ir(form, insn, old(em)@), insn, r),
{
    match form {
        MaskForm::Unpack(a) => vmask::lift_kunpck(insn, em, a),
        MaskForm::Bin(a, b) => vmask::lift_kbinop(insn, em, a, b),
        MaskForm::Not(a) => vmask::lift_knot(insn, em, a),
        MaskForm::Shift(a, b) => vmask::lift_kshift(insn, em, a, b),
        MaskForm::Mov(a) => vmask::lift_kmov(insn, em, a),
        MaskForm::OrTest(a) => vmask::lift_kortest(insn, em, a),
        MaskForm::Test(a, b) => vmask::lift_vptest(insn, em, a, b),
        MaskForm::Compare(a, b) => vmask::lift_vpcmp(insn, em, a, b),
        MaskForm::CompareFixed(a, b, c, d) => vmask::lift_vpcmp_fixed_or_packed(insn, em, a, b, c, d),
    }
}

/// AES, SHA and Galois-field instructions: what they emit.
pub open spec fn crypto_ir(form: CryptoForm, insn: &Insn, s: Emission) -> Emission {
    match form {
        CryptoForm::Aes(a) => vcrypto::aes(insn, a, s),
        CryptoForm::AesVex(a) => vcrypto::vaes(insn, a, s),
        CryptoForm::AesImc(a) => vcrypto::aes_imc(insn, a, s),
        CryptoForm::AesKeygen(a) => vcrypto::aes_keygen(insn, a, s),
        CryptoForm::Sha(a) => vcrypto::sha(insn, a, s),
        CryptoForm::Gfni(a) => vcrypto::gfni(insn, a, s),
        CryptoForm::GfniVex(a) => vcrypto::vgfni(insn, a, s),
    }
}

fn lift_crypto(form: CryptoForm, insn: &Insn, em: &mut Emitter) -> (r: Result<(), LiftError>)
    requires
        old(em)@.ready(64),
    ensures
        emit::lifted(old(em)@, final(em)@, crypto_ir(form, insn, old(em)@), insn, r),
{
    match form {
        CryptoForm::Aes(a) => vcrypto::lift_aes(insn, em, a),
        CryptoForm::AesVex(a) => vcrypto::lift_vaes(insn, em, a),
        CryptoForm::AesImc(a) => vcrypto::lift_aes_imc(insn, em, a),
        CryptoForm::AesKeygen(a) => vcrypto::lift_aes_keygen(insn, em, a),
        CryptoForm::Sha(a) => vcrypto::lift_sha(insn, em, a),
        CryptoForm::Gfni(a) => vcrypto::lift_gfni(insn, em, a),
        CryptoForm::GfniVex(a) => vcrypto::lift_vgfni(insn, em, a),
    }
}

/// Floating-point vector instructions: what they emit.
pub open spec fn float_ir(form: FloatForm, insn: &Insn, s: Emission) -> Emission {
    match form {
        FloatForm::Move(a) => vfloat::scalar_fmove(insn, a, s),
        FloatForm::MoveVex(a) => vfloat::vscalar_fmove(insn, a, s),
        FloatForm::Bin(a, b, c) => vfloat::float_bin(insn, a, b, c, s),
        FloatForm::BinVex(a, b, c) => vfloat::vfloat_bin(insn, a, b, c, s),
        FloatForm::Compare(a) => vfloat::float_cmp(insn, a, s),
        FloatForm::CompareMask(a, b) => vfloat::float_cmp_mask(insn, a, b, s),
        FloatForm::Unary(a, b, c) => vfloat::float_unary(insn, a, b, c, s),
        FloatForm::UnaryVex(a, b) => vfloat::vfloat_unary_scalar(insn, a, b, s),
        FloatForm::Fma(a, b, c, d, e) => vfloat::fma(insn, a, b, c, d, e, s),
        FloatForm::MovsdOrString => movsd(insn, s),
        FloatForm::CmpsdOrString => cmpsd(insn, s),
    }
}

fn lift_float(form: FloatForm, insn: &Insn, em: &mut Emitter) -> (r: Result<(), LiftError>)
    requires
        old(em)@.ready(64),
    ensures
        emit::lifted(old(em)@, final(em)@, float_ir(form, insn, old(em)@), insn, r),
{
    match form {
        FloatForm::Move(a) => vfloat::lift_scalar_fmove(insn, em, a),
        FloatForm::MoveVex(a) => vfloat::lift_vscalar_fmove(insn, em, a),
        FloatForm::Bin(a, b, c) => vfloat::lift_float_bin(insn, em, a, b, c),
        FloatForm::BinVex(a, b, c) => vfloat::lift_vfloat_bin(insn, em, a, b, c),
        FloatForm::Compare(a) => vfloat::lift_float_cmp(insn, em, a),
        FloatForm::CompareMask(a, b) => vfloat::lift_float_cmp_mask(insn, em, a, b),
        FloatForm::Unary(a, b, c) => vfloat::lift_float_unary(insn, em, a, b, c),
        FloatForm::UnaryVex(a, b) => vfloat::lift_vfloat_unary_scalar(insn, em, a, b),
        FloatForm::Fma(a, b, c, d, e) => vfloat::lift_fma(insn, em, a, b, c, d, e),
        FloatForm::MovsdOrString => lift_movsd(insn, em),
        FloatForm::CmpsdOrString => lift_cmpsd(insn, em),
    }
}

/// Conversions and roundings of floats: what they emit.
pub open spec fn convert_ir(form: ConvertForm, insn: &Insn, s: Emission) -> Emission {
    match form {
        ConvertForm::FromInt(a) => vfloat::cvt_from_int(insn, a, s),
        ConvertForm::FromIntVex(a, b) => vfloat::vcvt_from_int(insn, a, b, s),
        ConvertForm::ToInt(a, b, c) => vfloat::cvt_to_int_signed(insn, a, b, c, s),
        ConvertForm::Float(a, b) => vfloat::cvt_float(insn, a, b, s),
        ConvertForm::FloatVex(a, b) => vfloat::vcvt_scalar(insn, a, b, s),
        ConvertForm::Round(a, b) => vfloat::round(insn, a, b, s),
        ConvertForm::RoundScale(a) => vfloat::vrndscale(insn, a, s),
    }
}

fn lift_convert(form: ConvertForm, insn: &Insn, em: &mut Emitter) -> (r: Result<(), LiftError>)
    requires
        old(em)@.ready(64),
    ensures
        emit::lifted(old(em)@, final(em)@, convert_ir(form, insn, old(em)@), insn, r),
{
    match form {
        ConvertForm::FromInt(a) => vfloat::lift_cvt_from_int(insn, em, a),
        ConvertForm::FromIntVex(a, b) => vfloat::lift_vcvt_from_int(insn, em, a, b),
        ConvertForm::ToInt(a, b, c) => vfloat::lift_cvt_to_int_signed(insn, em, a, b, c),
        ConvertForm::Float(a, b) => vfloat::lift_cvt_float(insn, em, a, b),
        ConvertForm::FloatVex(a, b) => vfloat::lift_vcvt_scalar(insn, em, a, b),
        ConvertForm::Round(a, b) => vfloat::lift_round(insn, em, a, b),
        ConvertForm::RoundScale(a) => vfloat::lift_vrndscale(insn, em, a),
    }
}

/// What one instruction emits, and whether it ends the block.
#[verifier::opaque]
pub open spec fn insn_ir(insn: &Insn, mode: CpuMode, s: Emission) -> (Emission, bool) {
    match table::form_of(insn.mnemonic) {
        None => (s.fail(), false),
        Some(Form::Int(f)) => (int_ir(f, insn, s), false),
        Some(Form::Control(f)) => control_ir(f, insn, mode, s),
        Some(Form::Move(f)) => (move_ir(f, insn, s), false),
        Some(Form::Packed(f)) => (packed_ir(f, insn, s), false),
        Some(Form::Shuffle(f)) => (shuffle_ir(f, insn, s), false),
        Some(Form::Mask(f)) => (mask_ir(f, insn, s), false),
        Some(Form::Crypto(f)) => (crypto_ir(f, insn, s), false),
        Some(Form::Float(f)) => (float_ir(f, insn, s), false),
        Some(Form::Convert(f)) => (convert_ir(f, insn, s), false),
    }
}

/// An instruction that ends the block does so by control flow that keeps to the mode.
pub proof fn law_end_keeps_to_mode(insn: &Insn, mode: CpuMode, s: Emission)
    ensures
        ({
            let (s1, ends) = insn_ir(insn, mode, s);
            s1.ok && ends ==> control::keeps_to(s1.ops.last(), mode)
        }),
{
    reveal(insn_ir);
    control::law_flow_keeps_to_mode(insn, mode, s);
}

/// Lifts one instruction; the result says whether it ends the block.
pub fn lift_insn(insn: &Insn, em: &mut Emitter, mode: CpuMode) -> (r: Result<bool, LiftError>)
    requires
        old(em)@.ready(64),
    ensures
        emit::dispatched(old(em)@, final(em)@, insn_ir(insn, mode, old(em)@), insn, r),
{
    reveal(insn_ir);
    let form = match classify(insn.mnemonic) {
        Some(form) => form,
        None => {
            return Err(unsupported_insn(insn));
        },
    };
    let r = match form {
        Form::Control(f) => {
            return lift_control(f, insn, em, mode);
        },
        Form::Int(f) => lift_int(f, insn, em),
        Form::Move(f) => lift_move(f, insn, em),
        Form::Packed(f) => lift_packed(f, insn, em),
        Form::Shuffle(f) => lift_shuffle(f, insn, em),
        Form::Mask(f) => lift_mask(f, insn, em),
        Form::Crypto(f) => lift_crypto(f, insn, em),
        Form::Float(f) => lift_float(f, insn, em),
        Form::Convert(f) => lift_convert(f, insn, em),
    };
    match r {
        Ok(_) => Ok(false),
        Err(e) => Err(e),
    }
}

} // verus!
