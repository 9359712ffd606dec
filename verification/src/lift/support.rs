//! Which operands exist by their numbers, and which instructions are owed a lift.
use crate::insn::Insn;
use crate::ir::Val;
use crate::lift::emit::Emission;
use crate::lift::{control, dispatch, flow, named, operand, table, CpuMode};
use crate::mnemonic as mn;
use crate::state::Reg;
use crate::{code, op_kind, register};
use vstd::prelude::*;

verus! {

broadcast use operand::group_failed;

// --- what the numbers mean ---

/// The general registers in the order of their encoding.
pub open spec fn in_order() -> Seq<Reg> {
    seq![
        Reg::Rax,
        Reg::Rcx,
        Reg::Rdx,
        Reg::Rbx,
        Reg::Rsp,
        Reg::Rbp,
        Reg::Rsi,
        Reg::Rdi,
        Reg::R8,
        Reg::R9,
        Reg::R10,
        Reg::R11,
        Reg::R12,
        Reg::R13,
        Reg::R14,
        Reg::R15,
    ]
}

/// A register of 2, 4 or 8 bytes is the whole register of its place in the encoding order, and
/// one of a single byte is too, but for `ah`, `ch`, `dh` and `bh`: these stand between the
/// first four and the others, and are second bytes. Nothing else is a general register.
pub proof fn law_registers(r: u8, n: int)
    requires
        0 <= n < 16,
    ensures
        r == register::RAX + n ==> operand::iced_to_reg(r) == Some(in_order()[n]),
        r == register::EAX + n ==> operand::iced_to_reg(r) == Some(in_order()[n]),
        r == register::AX + n ==> operand::iced_to_reg(r) == Some(in_order()[n]),
        n < 4 && r == register::AL + n ==> operand::iced_to_reg(r) == Some(in_order()[n]),
        n >= 4 && r == register::AL + n + 4 ==> operand::iced_to_reg(r) == Some(in_order()[n]),
        n < 4 && r == register::AL + n + 4 ==> operand::iced_to_reg(r) is None
            && operand::high_byte_parent(r) == Some(in_order()[n]),
        !(register::AL + 4 <= r < register::AL + 8) ==> operand::high_byte_parent(r) is None,
        r < register::AL || r >= register::RAX + 16 ==> operand::iced_to_reg(r) is None,
        register::AL + 20 == register::AX,
        register::AX + 16 == register::EAX,
        register::EAX + 16 == register::RAX,
{
}

/// Operands are numbered in their order. One is as wide as its register or as the memory that
/// is accessed; a constant has no width. A byte of a constant is its lowest. Widths of numbers
/// are 1, 2, 4 and 8 bytes.
pub proof fn law_operands(insn: &Insn, i: u32, size: u8)
    requires
        insn.wf(),
    ensures
        insn.op(0) == insn.op0,
        insn.op(1) == insn.op1,
        insn.op(2) == insn.op2,
        insn.op(3) == insn.op3,
        insn.op(4) == insn.op4,
        insn.is_mem(i) == (insn.op(i).kind == op_kind::MEMORY),
        insn.imm8(i) == insn.op(i).imm as u8,
        insn.op(i).kind == op_kind::REGISTER ==> operand::operand_size(insn, i) == insn.op(
            i,
        ).reg_size,
        insn.is_mem(i) && insn.mem_size < 0x100 ==> operand::operand_size(insn, i)
            == insn.mem_size,
        insn.op(i).kind != op_kind::REGISTER && !insn.is_mem(i) ==> operand::operand_size(insn, i)
            == 0,
        operand::is_scalar_size(size) <==> size == 1 || size == 2 || size == 4 || size == 8,
        insn.ip + insn.len <= u64::MAX ==> insn.next_ip() == insn.ip + insn.len,
        insn.ip + insn.len > u64::MAX ==> insn.next_ip() == insn.ip + insn.len - u64::MAX - 1,
{
}

// --- which operands are supported ---

/// A general register, not a second byte of one.
pub open spec fn whole(r: u8) -> bool {
    (register::AL <= r && r < register::AL + 4) || (register::AL + 8 <= r && r < register::RAX
        + 16)
}

/// Base and index of the memory operand are general registers or absent, or the base is the
/// instruction pointer.
pub open spec fn addressable(insn: &Insn) -> bool {
    ||| insn.mem_base == register::RIP
    ||| insn.mem_base == register::EIP
    ||| (insn.mem_base == register::NONE || whole(insn.mem_base)) && (insn.mem_index
        == register::NONE || whole(insn.mem_index))
}

/// Operand `i` can be written: a general register, or memory of a number's width.
pub open spec fn writable(insn: &Insn, i: u32) -> bool {
    let o = insn.op(i);
    if o.kind == op_kind::REGISTER {
        register::AL <= o.reg && o.reg < register::RAX + 16
    } else {
        o.kind == op_kind::MEMORY && addressable(insn) && operand::is_scalar_size(
            operand::operand_size(insn, i),
        )
    }
}

/// Operand `i` can be read: as above, or a constant.
pub open spec fn readable(insn: &Insn, i: u32) -> bool {
    let o = insn.op(i);
    writable(insn, i) || (op_kind::IMMEDIATE8 <= o.kind && o.kind <= op_kind::IMMEDIATE32TO64)
}

/// Addresses, reads and writes succeed with these operands, and with no others.
pub proof fn law_supported_operands(insn: &Insn, i: u32, v: Val, s: Emission)
    requires
        insn.wf(),
        s.ok,
    ensures
        operand::address(insn, s).0.ok <==> addressable(insn),
        operand::offset(insn, s).0.ok <==> addressable(insn),
        operand::read(insn, i, s).0.ok <==> readable(insn, i),
        operand::target(insn, i, s).0.ok <==> writable(insn, i),
        operand::store(insn, i, v, s).ok <==> writable(insn, i),
{
    reveal(operand::offset);
    reveal(operand::address);
    reveal(operand::read);
    reveal(operand::target);
    reveal(operand::write);
    reveal(operand::store);
}

proof fn lemma_supported(insn: &Insn)
    requires
        insn.wf(),
    ensures
        forall|s: Emission| s.ok && addressable(insn) ==> (#[trigger] operand::address(insn, s)).0.ok,
        forall|s: Emission| s.ok && addressable(insn) ==> (#[trigger] operand::offset(insn, s)).0.ok,
        forall|i: u32, s: Emission|
            s.ok && readable(insn, i) ==> (#[trigger] operand::read(insn, i, s)).0.ok,
        forall|i: u32, s: Emission|
            s.ok && writable(insn, i) ==> (#[trigger] operand::target(insn, i, s)).0.ok,
        forall|i: u32, v: Val, s: Emission|
            s.ok && writable(insn, i) ==> (#[trigger] operand::store(insn, i, v, s)).ok,
{
    assert forall|s: Emission| s.ok && addressable(insn) implies (#[trigger] operand::address(
        insn,
        s,
    )).0.ok by {
        law_supported_operands(insn, 0, Val::Imm(0), s);
    }
    assert forall|s: Emission| s.ok && addressable(insn) implies (#[trigger] operand::offset(
        insn,
        s,
    )).0.ok by {
        law_supported_operands(insn, 0, Val::Imm(0), s);
    }
    assert forall|i: u32, s: Emission| s.ok && readable(insn, i) implies (#[trigger] operand::read(
        insn,
        i,
        s,
    )).0.ok by {
        law_supported_operands(insn, i, Val::Imm(0), s);
    }
    assert forall|i: u32, s: Emission|
        s.ok && writable(insn, i) implies (#[trigger] operand::target(insn, i, s)).0.ok by {
        law_supported_operands(insn, i, Val::Imm(0), s);
    }
    assert forall|i: u32, v: Val, s: Emission|
        s.ok && writable(insn, i) implies (#[trigger] operand::store(insn, i, v, s)).ok by {
        law_supported_operands(insn, i, v, s);
    }
}

// --- which instructions are supported ---

/// Arithmetic, logic, shifts and moves with a destination and a source.
pub open spec fn of_two(name: u16) -> bool {
    ||| name == mn::ADD || name == mn::ADC || name == mn::SUB || name == mn::SBB
    ||| name == mn::AND || name == mn::OR || name == mn::XOR || name == mn::CMP
    ||| name == mn::TEST || name == mn::SHL || name == mn::SAL || name == mn::SHR
    ||| name == mn::SAR || name == mn::ROL || name == mn::ROR || name == mn::RCL
    ||| name == mn::RCR || name == mn::MOV || name == mn::MOVNTI || name == mn::MOVZX
    ||| name == mn::MOVSX || name == mn::MOVSXD
}

/// Counts, scans and tests of bits.
pub open spec fn of_bits(name: u16) -> bool {
    ||| name == mn::BSF || name == mn::BSR || name == mn::TZCNT || name == mn::LZCNT
    ||| name == mn::POPCNT || name == mn::CRC32 || name == mn::BT || name == mn::BTS
    ||| name == mn::BTR || name == mn::BTC
}

/// What has one operand, read and written, or read.
pub open spec fn of_one(name: u16) -> bool {
    ||| name == mn::INC || name == mn::DEC || name == mn::NEG || name == mn::NOT
    ||| name == mn::BSWAP || name == mn::MUL || name == mn::DIV || name == mn::IDIV
}

/// What has no operand but the accumulator.
pub open spec fn of_none(name: u16) -> bool {
    ||| name == mn::CBW || name == mn::CWDE || name == mn::CDQE || name == mn::CWD
    ||| name == mn::CDQ || name == mn::CQO
}

/// What emits nothing at all.
pub open spec fn of_nothing(name: u16) -> bool {
    ||| name == mn::NOP || name == mn::ENDBR64 || name == mn::ENDBR32 || name == mn::PAUSE
    ||| name == mn::WAIT || name == mn::RDSSPD || name == mn::RDSSPQ || name == mn::PREFETCHNTA
    ||| name == mn::PREFETCHT0 || name == mn::PREFETCHT1 || name == mn::PREFETCHT2
    ||| name == mn::PREFETCHW || name == mn::PREFETCHWT1 || name == mn::LDMXCSR
    ||| name == mn::VLDMXCSR || name == mn::MFENCE || name == mn::LFENCE || name == mn::SFENCE
    ||| name == mn::EMMS || name == mn::FEMMS
}

/// Of an integer instruction with supported operands a lift is owed.
pub proof fn law_supported_arithmetic(insn: &Insn, mode: CpuMode, s: Emission)
    requires
        insn.wf(),
        s.ok,
    ensures
        ({
            let s1 = dispatch::insn_ir(insn, mode, s).0;
            let name = insn.mnemonic;
            &&& of_two(name) && writable(insn, 0) && readable(insn, 1) ==> s1.ok
            &&& of_bits(name) && writable(insn, 0) && readable(insn, 1) ==> s1.ok
            &&& of_one(name) && writable(insn, 0) ==> s1.ok
            &&& of_none(name) ==> s1.ok
            &&& of_nothing(name) ==> s1 == s
        }),
{
    lemma_supported(insn);
    reveal(operand::write);
    let name = insn.mnemonic;
    if of_two(name) || of_bits(name) || of_one(name) || of_none(name) || of_nothing(name) {
        named::lemma_int(insn, mode, s);
    }
}

/// As above, of what has more operands or other demands on them.
pub proof fn law_supported_others(insn: &Insn, mode: CpuMode, s: Emission)
    requires
        insn.wf(),
        s.ok,
    ensures
        ({
            let s1 = dispatch::insn_ir(insn, mode, s).0;
            let name = insn.mnemonic;
            let both = writable(insn, 0) && writable(insn, 1);
            let three = writable(insn, 0) && readable(insn, 1) && readable(insn, 2);
            &&& name == mn::LEA && writable(insn, 0) && addressable(insn) ==> s1.ok
            &&& name == mn::IMUL && insn.op_count == 1 && writable(insn, 0) ==> s1.ok
            &&& name == mn::IMUL && insn.op_count == 2 && writable(insn, 0) && readable(insn, 1)
                ==> s1.ok
            &&& name == mn::IMUL && insn.op_count == 3 && three ==> s1.ok
            &&& name == mn::XCHG && both ==> s1.ok
            &&& name == mn::XADD && both ==> s1.ok
            &&& name == mn::CMPXCHG && both ==> (s1.ok <==> insn.is_mem(0))
            &&& name == mn::MULX && both && readable(insn, 2) ==> s1.ok
            &&& name == mn::SHLD || name == mn::SHRD ==> (three ==> s1.ok)
            &&& name == mn::SHLX || name == mn::SHRX || name == mn::SARX || name == mn::RORX ==> (
            three ==> s1.ok)
            &&& name == mn::ANDN || name == mn::BEXTR || name == mn::BZHI || name == mn::PDEP
                || name == mn::PEXT ==> (three ==> s1.ok)
            &&& name == mn::BLSI || name == mn::BLSR || name == mn::BLSMSK ==> (insn.op_count < 3
                && writable(insn, 0) && readable(insn, 1) ==> s1.ok)
            &&& name == mn::MOVBE && both && addressable(insn) ==> s1.ok
        }),
{
    lemma_supported(insn);
    reveal(operand::write);
    let name = insn.mnemonic;
    if table::int_form(name) is Some {
        named::lemma_int(insn, mode, s);
    }
}

/// As above, of what depends on a condition.
pub proof fn law_supported_conditions(insn: &Insn, mode: CpuMode, s: Emission)
    requires
        insn.wf(),
        s.ok,
    ensures
        ({
            let s1 = dispatch::insn_ir(insn, mode, s).0;
            let name = insn.mnemonic;
            &&& named::sets_on_condition(name) && writable(insn, 0) ==> s1.ok
            &&& named::moves_on_condition(name) && writable(insn, 0) && readable(insn, 1)
                ==> s1.ok
        }),
{
    lemma_supported(insn);
    let name = insn.mnemonic;
    if named::sets_on_condition(name) || named::moves_on_condition(name) {
        named::lemma_int(insn, mode, s);
    }
}

/// As above, of jumps, calls and the stack. The 16-bit forms of `call` are not supported, nor is
/// a `pop` into memory that is addressed through the stack pointer.
pub proof fn law_supported_flow(insn: &Insn, mode: CpuMode, s: Emission)
    requires
        insn.wf(),
        s.ok,
    ensures
        ({
            let s1 = dispatch::insn_ir(insn, mode, s).0;
            let name = insn.mnemonic;
            let kind = insn.op0.kind;
            let direct = kind == op_kind::NEAR_BRANCH16 || kind == op_kind::NEAR_BRANCH32 || kind
                == op_kind::NEAR_BRANCH64;
            let narrow = insn.code == code::CALL_REL16 || insn.code == code::CALL_RM16;
            let through_stack = insn.is_mem(0) && (insn.mem_base == register::RSP || insn.mem_index
                == register::RSP);
            &&& name == mn::JMP && (direct || readable(insn, 0)) ==> s1.ok
            &&& name == mn::CALL && (direct || readable(insn, 0)) && insn.code != code::RETNW
                && insn.code != code::RETNW_IMM16 ==> (s1.ok <==> !narrow)
            &&& name == mn::PUSH && readable(insn, 0) ==> s1.ok
            &&& name == mn::POP && writable(insn, 0) ==> (s1.ok <==> !through_stack)
            &&& name == mn::LEAVE ==> s1.ok
        }),
{
    lemma_supported(insn);
    reveal(operand::target);
    reveal(operand::write);
    reveal(control::push);
    reveal(control::pop);
    reveal(control::leave);
    let name = insn.mnemonic;
    if name == mn::JMP || name == mn::CALL || name == mn::PUSH || name == mn::POP || name
        == mn::LEAVE {
        flow::lemma_control(insn, mode, s);
    }
}

} // verus!
