//! What emitted operations mean for the guest, for the operations that addresses, register
//! parts and the stack are made of; and what the lift promises in these terms.
use crate::insn::Insn;
use crate::ir::{BmiOp, BtOp, Cond, FlagMask, IrOp, MemOrder, Temp, Val};
use crate::lift::condition::Status;
use crate::lift::emit::Emission;
use crate::lift::integer::BinOp;
use crate::lift::operand::Alu;
use crate::lift::{arithmetic, condition, control, integer, operand, CpuMode, WriteTarget};
use crate::state::Reg;
use crate::{op_kind, register};
use vstd::arithmetic::power2::pow2;
use vstd::prelude::*;

verus! {

/// 2 to the power 64.
pub open spec fn full() -> int {
    0x1_0000_0000_0000_0000
}

/// Registers, temporaries, memory and flags of the guest.
#[verifier::ext_equal]
pub struct Machine {
    pub regs: Map<Reg, u64>,
    pub temps: Map<Temp, u64>,
    pub mem: Map<u64, u8>,
    pub flags: Status,
}

impl Machine {
    /// What an operand of an operation is worth.
    pub open spec fn value(self, v: Val) -> u64 {
        match v {
            Val::Imm(c) => c,
            Val::Temp(t) => self.temps[t],
        }
    }

    pub open spec fn define(self, t: Temp, v: u64) -> Machine {
        Machine { temps: self.temps.insert(t, v), ..self }
    }

    /// Two machines that differ in temporaries only.
    pub open spec fn same_guest(self, other: Machine) -> bool {
        self.regs == other.regs && self.mem == other.mem && self.flags == other.flags
    }
}

/// The address `i` bytes behind `addr`, round the end of the address space.
pub open spec fn behind(addr: u64, i: int) -> u64 {
    ((addr + i) % full()) as u64
}

/// `size` bytes of memory as a number, the lowest byte first.
pub open spec fn load(mem: Map<u64, u8>, addr: u64, size: nat) -> int
    decreases size,
{
    if size == 0 {
        0
    } else {
        mem[addr] + 256 * load(mem, behind(addr, 1), (size - 1) as nat)
    }
}

/// Memory with the low `size` bytes of a number written to it.
pub open spec fn stored(mem: Map<u64, u8>, addr: u64, v: int, size: nat) -> Map<u64, u8>
    decreases size,
{
    if size == 0 {
        mem
    } else {
        stored(mem, behind(addr, 1), v / 256, (size - 1) as nat).insert(addr, (v % 256) as u8)
    }
}

/// A register of which the low `size` bytes are written: the rest stays, except that a write
/// of four bytes clears it.
pub open spec fn written(old: u64, v: u64, size: u8) -> u64 {
    if size == 1 {
        (old - old % 0x100 + v % 0x100) as u64
    } else if size == 2 {
        (old - old % 0x1_0000 + v % 0x1_0000) as u64
    } else if size == 4 {
        (v % 0x1_0000_0000) as u64
    } else {
        v
    }
}

/// The 64-bit operation on two values. A shift count is taken modulo 64.
pub open spec fn computed(op: Alu, a: u64, b: u64) -> u64 {
    match op {
        Alu::Add => ((a + b) % full()) as u64,
        Alu::Sub => ((a - b) % full()) as u64,
        Alu::And => a & b,
        Alu::Or => a | b,
        Alu::Xor => a ^ b,
        Alu::Shl => a << (b % 64),
        Alu::Shr => a >> (b % 64),
    }
}

/// The machine with a result, and with those of its flags that the mask names.
pub open spec fn concluded(
    m: Machine,
    dst: Temp,
    r: u64,
    flags: Status,
    set_flags: FlagMask,
) -> Machine {
    if set_flags == FlagMask::none() {
        m.define(dst, r)
    } else {
        Machine { flags: arithmetic::merged(m.flags, flags, set_flags), ..m.define(dst, r) }
    }
}

/// The machine after an operation on two values.
pub open spec fn calculate(
    m: Machine,
    op: BinOp,
    dst: Temp,
    a: Val,
    b: Val,
    size: u8,
    set_flags: FlagMask,
) -> Machine {
    let (r, f) = arithmetic::binary(op, m.value(a), m.value(b), m.flags, size);
    concluded(m, dst, r, f, set_flags)
}

/// The machine after a shift of two values.
pub open spec fn shift_double(
    m: Machine,
    dst: Temp,
    a: u64,
    b: u64,
    count: u64,
    size: u8,
    left: bool,
    set_flags: FlagMask,
) -> Machine {
    let n = arithmetic::amount(count, size);
    if n == 0 {
        m.define(dst, a)
    } else if n > arithmetic::width(size) {
        arbitrary()
    } else {
        let r = arithmetic::double_shifted(a, b, n as int, size, left);
        let cf = if left {
            arithmetic::top(a << (n - 1) as u64, size)
        } else {
            arithmetic::low(a, size) as u64 >> (n - 1) as u64 & 1 == 1
        };
        concluded(
            m,
            dst,
            r as u64,
            arithmetic::status(r, size, cf, arbitrary(), arbitrary()),
            set_flags,
        )
    }
}

/// The machine after a division. Nothing is said of one that traps, nor of the flags.
pub open spec fn divide(
    m: Machine,
    quot: Temp,
    rem: Temp,
    hi: u64,
    lo: u64,
    d: u64,
    size: u8,
    signed: bool,
) -> Machine {
    let n = arithmetic::dividend(hi, lo, size, signed);
    let by = arithmetic::divisor(d, size, signed);
    if arithmetic::divides(n, by, size, signed) {
        let q = arithmetic::quotient(n, by);
        Machine {
            flags: arbitrary(),
            ..m.define(quot, (q % arithmetic::modulus(size)) as u64).define(
                rem,
                ((n - q * by) % arithmetic::modulus(size)) as u64,
            )
        }
    } else {
        arbitrary()
    }
}

/// The machine after a bit was tested and, but for a mere test, changed.
pub open spec fn test_bit(m: Machine, result: Temp, a: u64, bit: u64, size: u8, op: BtOp) -> Machine {
    let i = bit as int % arithmetic::width(size);
    let one = pow2(i as nat) as int;
    let v = arithmetic::low(a, size);
    let set = v / one % 2 == 1;
    let r = match op {
        BtOp::Test => v,
        BtOp::SetBit => if set {
            v
        } else {
            v + one
        },
        BtOp::Reset => if set {
            v - one
        } else {
            v
        },
        BtOp::Complement => if set {
            v - one
        } else {
            v + one
        },
    };
    Machine { flags: Status { cf: set, ..m.flags }, ..m.define(result, r as u64) }
}

/// The machine after one operation. Nothing is said of the operations that are not here.
#[verifier::opaque]
pub open spec fn step(op: IrOp, m: Machine) -> Machine {
    match op {
        IrOp::InsnStart { .. } => m,
        IrOp::ReadReg { dst, reg } => m.define(dst, m.regs[reg]),
        IrOp::WriteReg { reg, src, size } => Machine {
            regs: m.regs.insert(reg, written(m.regs[reg], m.value(src), size)),
            ..m
        },
        IrOp::GetCond { dst, cond } => m.define(
            dst,
            if condition::holds(cond, m.flags) {
                1
            } else {
                0
            },
        ),
        IrOp::Load { dst, addr, size } => m.define(
            dst,
            load(m.mem, m.value(addr), size as nat) as u64,
        ),
        IrOp::Store { addr, src, size, .. } => Machine {
            mem: stored(m.mem, m.value(addr), m.value(src) as int, size as nat),
            ..m
        },
        IrOp::Add { dst, a, b, size, set_flags } => calculate(
            m,
            BinOp::Add,
            dst,
            a,
            b,
            size,
            set_flags,
        ),
        IrOp::Adc { dst, a, b, size, set_flags } => calculate(
            m,
            BinOp::Adc,
            dst,
            a,
            b,
            size,
            set_flags,
        ),
        IrOp::Sub { dst, a, b, size, set_flags } => calculate(
            m,
            BinOp::Sub,
            dst,
            a,
            b,
            size,
            set_flags,
        ),
        IrOp::Sbb { dst, a, b, size, set_flags } => calculate(
            m,
            BinOp::Sbb,
            dst,
            a,
            b,
            size,
            set_flags,
        ),
        IrOp::And { dst, a, b, size, set_flags } => calculate(
            m,
            BinOp::And,
            dst,
            a,
            b,
            size,
            set_flags,
        ),
        IrOp::Or { dst, a, b, size, set_flags } => calculate(
            m,
            BinOp::Or,
            dst,
            a,
            b,
            size,
            set_flags,
        ),
        IrOp::Xor { dst, a, b, size, set_flags } => calculate(
            m,
            BinOp::Xor,
            dst,
            a,
            b,
            size,
            set_flags,
        ),
        IrOp::Shl { dst, a, b, size, set_flags } => calculate(
            m,
            BinOp::Shl,
            dst,
            a,
            b,
            size,
            set_flags,
        ),
        IrOp::Shr { dst, a, b, size, set_flags } => calculate(
            m,
            BinOp::Shr,
            dst,
            a,
            b,
            size,
            set_flags,
        ),
        IrOp::Sar { dst, a, b, size, set_flags } => calculate(
            m,
            BinOp::Sar,
            dst,
            a,
            b,
            size,
            set_flags,
        ),
        IrOp::Rol { dst, a, b, size, set_flags } => calculate(
            m,
            BinOp::Rol,
            dst,
            a,
            b,
            size,
            set_flags,
        ),
        IrOp::Ror { dst, a, b, size, set_flags } => calculate(
            m,
            BinOp::Ror,
            dst,
            a,
            b,
            size,
            set_flags,
        ),
        IrOp::Rcl { dst, a, b, size, set_flags } => calculate(
            m,
            BinOp::Rcl,
            dst,
            a,
            b,
            size,
            set_flags,
        ),
        IrOp::Rcr { dst, a, b, size, set_flags } => calculate(
            m,
            BinOp::Rcr,
            dst,
            a,
            b,
            size,
            set_flags,
        ),
        IrOp::DoubleShift { dst, a, b, count, size, left, set_flags } => shift_double(
            m,
            dst,
            m.value(a),
            m.value(b),
            m.value(count),
            size,
            left,
            set_flags,
        ),
        IrOp::Sext { dst, a, from } => m.define(
            dst,
            (arithmetic::signed(m.value(a), from) % full()) as u64,
        ),
        IrOp::Bswap { dst, a, size } => m.define(
            dst,
            arithmetic::swapped(m.value(a) as int, size as nat) as u64,
        ),
        IrOp::Mul { lo, hi, a, b, size, signed, set_flags } => {
            let p = arithmetic::product(m.value(a), m.value(b), size, signed);
            let over = if signed {
                !arithmetic::fits(p, size)
            } else {
                p >= arithmetic::modulus(size)
            };
            concluded(
                m.define(lo, (p % arithmetic::modulus(size)) as u64),
                hi,
                (p / arithmetic::modulus(size) % arithmetic::modulus(size)) as u64,
                Status { cf: over, of: over, ..arbitrary() },
                set_flags,
            )
        },
        IrOp::Div { quot, rem, hi, lo, divisor, size, signed } => divide(
            m,
            quot,
            rem,
            m.value(hi),
            m.value(lo),
            m.value(divisor),
            size,
            signed,
        ),
        IrOp::Bt { result, a, bit, size, op } => test_bit(
            m,
            result,
            m.value(a),
            m.value(bit),
            size,
            op,
        ),
        IrOp::Popcnt { dst, src, size } => {
            let v = arithmetic::low(m.value(src), size);
            Machine {
                flags: Status {
                    cf: false,
                    pf: false,
                    af: false,
                    zf: v == 0,
                    sf: false,
                    of: false,
                },
                ..m.define(dst, arithmetic::ones(v) as u64)
            }
        },
        IrOp::Crc32 { dst, crc, src, bytes } => m.define(
            dst,
            arithmetic::checked(
                arithmetic::low(m.value(crc), 4) as u32,
                m.value(src) as int,
                (8 * bytes) as nat,
            ) as u64,
        ),
        IrOp::BitScan { dst, src, old, size, op } => {
            let v = arithmetic::low(m.value(src), size);
            let r = arithmetic::scanned(op, m.value(src), m.value(old), size);
            Machine {
                flags: if op is Bsf || op is Bsr {
                    Status { zf: v == 0, ..arbitrary() }
                } else {
                    Status { zf: r == 0, cf: v == 0, ..arbitrary() }
                },
                ..m.define(dst, r)
            }
        },
        IrOp::Bmi { dst, a, b, size, op } => {
            let r = arithmetic::manipulated(op, m.value(a), m.value(b), size);
            let next = m.define(dst, r as u64);
            if op is Pdep || op is Pext {
                next
            } else {
                Machine {
                    flags: Status {
                        zf: r == 0,
                        cf: match op {
                            BmiOp::Blsi => arithmetic::low(m.value(a), size) != 0,
                            BmiOp::Blsr | BmiOp::Blsmsk => arithmetic::low(m.value(a), size) == 0,
                            BmiOp::Bzhi => m.value(b) as int % 256 >= arithmetic::width(size),
                            _ => false,
                        },
                        of: false,
                        ..arbitrary()
                    },
                    ..next
                }
            }
        },
        IrOp::AtomicRmw { old, addr, src, size, op } => {
            let before = load(m.mem, m.value(addr), size as nat) as u64;
            Machine {
                mem: stored(
                    m.mem,
                    m.value(addr),
                    arithmetic::updated(op, before, m.value(src), size) as int,
                    size as nat,
                ),
                ..m.define(old, before)
            }
        },
        IrOp::AtomicCas { old, addr, expected, src, size } => {
            let before = load(m.mem, m.value(addr), size as nat) as u64;
            Machine {
                mem: if before == m.value(expected) {
                    stored(m.mem, m.value(addr), m.value(src) as int, size as nat)
                } else {
                    m.mem
                },
                ..m.define(old, before)
            }
        },
        _ => arbitrary(),
    }
}

/// The machine after all operations in turn.
pub open spec fn run(ops: Seq<IrOp>, m: Machine) -> Machine
    decreases ops.len(),
{
    if ops.len() == 0 {
        m
    } else {
        step(ops.last(), run(ops.drop_last(), m))
    }
}

pub broadcast proof fn lemma_run_push(ops: Seq<IrOp>, op: IrOp, m: Machine)
    ensures
        #[trigger] run(ops.push(op), m) == step(op, run(ops, m)),
{
    assert(ops.push(op).drop_last() =~= ops);
}

pub broadcast proof fn lemma_step_alu(op: Alu, dst: Temp, a: Val, b: Val, m: Machine)
    ensures
        #[trigger] step(operand::alu_op(op, dst, a, b), m) == m.define(
            dst,
            computed(op, m.value(a), m.value(b)),
        ),
{
    reveal(arithmetic::binary);
    reveal(step);
}

pub broadcast proof fn lemma_step_bin(
    op: BinOp,
    dst: Temp,
    a: Val,
    b: Val,
    size: u8,
    set_flags: FlagMask,
    m: Machine,
)
    ensures
        #[trigger] step(integer::mk_binop(op, dst, a, b, size, set_flags), m) == calculate(
            m,
            op,
            dst,
            a,
            b,
            size,
            set_flags,
        ),
{
    reveal(step);
}

pub broadcast proof fn lemma_step_read(dst: Temp, reg: Reg, m: Machine)
    ensures
        #[trigger] step(IrOp::ReadReg { dst, reg }, m) == m.define(dst, m.regs[reg]),
{
    reveal(step);
}

pub broadcast proof fn lemma_step_write(reg: Reg, src: Val, size: u8, m: Machine)
    ensures
        #[trigger] step(IrOp::WriteReg { reg, src, size }, m) == (Machine {
            regs: m.regs.insert(reg, written(m.regs[reg], m.value(src), size)),
            ..m
        }),
{
    reveal(step);
}

pub broadcast proof fn lemma_step_load(dst: Temp, addr: Val, size: u8, m: Machine)
    ensures
        #[trigger] step(IrOp::Load { dst, addr, size }, m) == m.define(
            dst,
            load(m.mem, m.value(addr), size as nat) as u64,
        ),
{
    reveal(step);
}

pub broadcast proof fn lemma_step_store(
    addr: Val,
    src: Val,
    size: u8,
    order: MemOrder,
    m: Machine,
)
    ensures
        #[trigger] step(IrOp::Store { addr, src, size, order }, m) == (Machine {
            mem: stored(m.mem, m.value(addr), m.value(src) as int, size as nat),
            ..m
        }),
{
    reveal(step);
}

pub broadcast proof fn lemma_step_cond(dst: Temp, cond: Cond, m: Machine)
    ensures
        #[trigger] step(IrOp::GetCond { dst, cond }, m) == m.define(
            dst,
            if condition::holds(cond, m.flags) {
                1
            } else {
                0
            },
        ),
{
    reveal(step);
}

pub broadcast proof fn lemma_step_start(guest_addr: u64, m: Machine)
    ensures
        #[trigger] step(IrOp::InsnStart { guest_addr }, m) == m,
{
    reveal(step);
}

pub broadcast group group_run {
    lemma_run_push,
    lemma_step_alu,
    lemma_step_bin,
    lemma_step_read,
    lemma_step_write,
    lemma_step_load,
    lemma_step_store,
    lemma_step_cond,
    lemma_step_start,
}

// --- addresses ---

/// What a base or index register adds to an address; nothing where there is none.
pub open spec fn part(m: Machine, reg: u8) -> int {
    if reg == register::NONE {
        0
    } else {
        m.regs[operand::iced_to_reg(reg)->0] as int
    }
}

/// Where the addresses of a memory operand wrap: at the width of its registers.
pub open spec fn address_space(insn: &Insn) -> int {
    if insn.mem_base_size == 2 || insn.mem_index_size == 2 {
        0x1_0000
    } else if insn.mem_base_size == 4 || insn.mem_index_size == 4 {
        0x1_0000_0000
    } else {
        full()
    }
}

/// The offset that a memory operand stands for. With the instruction pointer as its base the
/// displacement is absolute.
pub open spec fn offset_value(insn: &Insn, m: Machine) -> int {
    if insn.mem_base == register::RIP {
        insn.mem_disp as int
    } else if insn.mem_base == register::EIP {
        insn.mem_disp as int % 0x1_0000_0000
    } else {
        (part(m, insn.mem_base) + part(m, insn.mem_index) * insn.mem_scale + insn.mem_disp)
            % address_space(insn)
    }
}

/// The base of the segment that a prefix names; that of any other segment is 0.
pub open spec fn segment_base(insn: &Insn, m: Machine) -> int {
    if insn.segment == register::FS {
        m.regs[Reg::FsBase] as int
    } else if insn.segment == register::GS {
        m.regs[Reg::GsBase] as int
    } else {
        0
    }
}

proof fn lemma_shl(x: u64)
    ensures
        x << 1u64 == (x * 2) % full(),
        x << 2u64 == (x * 4) % full(),
        x << 3u64 == (x * 8) % full(),
{
    assert(x << 1u64 == (x * 2) % 0x1_0000_0000_0000_0000 && x << 2u64 == (x * 4)
        % 0x1_0000_0000_0000_0000 && x << 3u64 == (x * 8) % 0x1_0000_0000_0000_0000)
        by (bit_vector);
}

/// What is left of a number in a narrower space does not depend on the wider one.
pub proof fn lemma_narrower(x: int)
    ensures
        (x % full()) % 0x1_0000 == x % 0x1_0000,
        (x % full()) % 0x1_0000_0000 == x % 0x1_0000_0000,
        (x % full()) % full() == x % full(),
{
    assert(0x1_0000 * 0x1_0000_0000_0000 == full()) by (nonlinear_arith);
    assert(0x1_0000_0000 * 0x1_0000_0000 == full()) by (nonlinear_arith);
    vstd::arithmetic::div_mod::lemma_mod_mod(x, 0x1_0000, 0x1_0000_0000_0000);
    vstd::arithmetic::div_mod::lemma_mod_mod(x, 0x1_0000_0000, 0x1_0000_0000);
}

pub proof fn lemma_mask(x: u64)
    ensures
        x & 0xFFFF == x % 0x1_0000,
        x & 0xFFFF_FFFF == x % 0x1_0000_0000,
        x & 0xff == x % 0x100,
        x >> 8u64 == x / 0x100,
        x & 0xffff_ffff_ffff_ffff == x,
        x ^ 0xffff_ffff_ffff_ffff == 0xffff_ffff_ffff_ffff - x,
{
    assert(x & 0xFFFF == x % 0x1_0000 && x & 0xFFFF_FFFF == x % 0x1_0000_0000 && x & 0xff == x
        % 0x100 && x >> 8u64 == x / 0x100 && x & 0xffff_ffff_ffff_ffff == x && x
        ^ 0xffff_ffff_ffff_ffff == 0xffff_ffff_ffff_ffff - x) by (bit_vector);
}

/// Emitted operations leave the guest and the temporaries before them as they were.
pub open spec fn quiet(s: Emission, s1: Emission, m: Machine) -> bool {
    let a = run(s.ops, m);
    let b = run(s1.ops, m);
    &&& a.same_guest(b)
    &&& s.next <= s1.next
    &&& forall|t: Temp| t < s.next ==> #[trigger] b.temps[t] == a.temps[t]
}

proof fn lemma_base_and_index(insn: &Insn, s: Emission, m: Machine)
    requires
        insn.wf(),
        s.ok,
        s.next + 4 <= u32::MAX,
        operand::base_and_index(insn, s).0.ok,
    ensures
        ({
            let (s1, acc) = operand::base_and_index(insn, s);
            let sum = part(run(s.ops, m), insn.mem_base) + part(run(s.ops, m), insn.mem_index)
                * insn.mem_scale;
            &&& quiet(s, s1, m)
            &&& s1.next <= s.next + 4
            &&& match acc {
                None => sum == 0,
                Some(v) => run(s1.ops, m).value(v) == sum % full(),
            }
            &&& acc matches Some(Val::Temp(t)) ==> s.next <= t < s1.next
        }),
{
    broadcast use group_run;

    let before = run(s.ops, m);
    let i = part(before, insn.mem_index);
    lemma_shl(i as u64);
    let scale = insn.mem_scale as int;
    let x = i * scale;
    assert(x == if scale == 1 {
        i
    } else if scale == 2 {
        i * 2
    } else if scale == 4 {
        i * 4
    } else {
        i * 8
    }) by (nonlinear_arith)
        requires
            x == i * scale,
            scale == 1 || scale == 2 || scale == 4 || scale == 8,
    ;
    assert(i % full() == i);
    let (s1, acc) = operand::base_and_index(insn, s);
    if insn.mem_index != register::NONE {
        let (s2, v) = operand::scaled_index(
            insn,
            operand::iced_to_reg(insn.mem_index)->0,
            if insn.mem_base == register::NONE {
                s
            } else {
                operand::reg_read(operand::iced_to_reg(insn.mem_base)->0, s).0
            },
        );
        assert(run(s2.ops, m).value(v) == x % full());
    }
    if insn.mem_base != register::NONE && insn.mem_index != register::NONE {
        let b = part(before, insn.mem_base);
        assert((b + x % full()) % full() == (b + x) % full()) by {
            vstd::arithmetic::div_mod::lemma_add_mod_noop_right(b, x, full());
        }
    }
}

/// Adding the displacement to what base and index give.
proof fn lemma_displaced(
    disp: u64,
    s: Emission,
    s1: Emission,
    acc: Option<Val>,
    sum: int,
    m: Machine,
)
    requires
        s1.ok,
        s1.next + 1 <= u32::MAX,
        quiet(s, s1, m),
        acc matches Some(Val::Temp(t)) ==> s.next <= t < s1.next,
        match acc {
            None => sum == 0,
            Some(v) => run(s1.ops, m).value(v) == sum % full(),
        },
    ensures
        ({
            let (s2, v) = operand::displaced(disp, s1, acc);
            &&& run(s2.ops, m).value(v) == (sum + disp) % full()
            &&& quiet(s, s2, m)
            &&& s2.ok
            &&& s1.next <= s2.next <= s1.next + 1
            &&& v matches Val::Temp(t) ==> s.next <= t < s2.next
        }),
{
    broadcast use group_run;

    assert((sum % full() + disp) % full() == (sum + disp) % full()) by {
        vstd::arithmetic::div_mod::lemma_add_mod_noop_right(disp as int, sum, full());
    }
}

/// Wrapping an address at the width of the registers.
proof fn lemma_wrapped(insn: &Insn, s: Emission, s1: Emission, v: Val, total: int, m: Machine)
    requires
        s1.ok,
        s1.next + 1 <= u32::MAX,
        quiet(s, s1, m),
        v matches Val::Temp(t) ==> s.next <= t < s1.next,
        run(s1.ops, m).value(v) == total % full(),
    ensures
        ({
            let (s2, w) = operand::wrapped(insn, s1, v);
            &&& run(s2.ops, m).value(w) == total % address_space(insn)
            &&& quiet(s, s2, m)
            &&& s1.next <= s2.next <= s1.next + 1
            &&& w matches Val::Temp(t) ==> s.next <= t < s2.next
        }),
{
    broadcast use group_run;

    lemma_mask((total % full()) as u64);
    lemma_narrower(total);
}

/// The operations of an address compute it: base, scaled index and displacement added up,
/// wrapped at the width of the registers. They change nothing but temporaries.
pub proof fn law_offset(insn: &Insn, s: Emission, m: Machine)
    requires
        insn.wf(),
        s.ok,
        s.next + 6 <= u32::MAX,
        operand::offset(insn, s).0.ok,
    ensures
        ({
            let (s1, v) = operand::offset(insn, s);
            &&& run(s1.ops, m).value(v) == offset_value(insn, run(s.ops, m))
            &&& quiet(s, s1, m)
            &&& s1.next <= s.next + 6
            &&& v matches Val::Temp(t) ==> s.next <= t < s1.next
        }),
{
    reveal(operand::offset);
    let before = run(s.ops, m);
    lemma_mask(insn.mem_disp);
    if insn.mem_base != register::RIP && insn.mem_base != register::EIP {
        let sum = part(before, insn.mem_base) + part(before, insn.mem_index) * insn.mem_scale;
        let (s1, acc) = operand::base_and_index(insn, s);
        let (s2, addr) = operand::displaced(insn.mem_disp, s1, acc);
        if s1.ok {
            lemma_base_and_index(insn, s, m);
            lemma_displaced(insn.mem_disp, s, s1, acc, sum, m);
            lemma_wrapped(insn, s, s2, addr, sum + insn.mem_disp, m);
        }
    }
}

/// The address of an access is that offset with the base of the segment added.
pub proof fn law_effective_address(insn: &Insn, s: Emission, m: Machine)
    requires
        insn.wf(),
        s.ok,
        s.next + 8 <= u32::MAX,
        operand::address(insn, s).0.ok,
    ensures
        ({
            let (s1, v) = operand::address(insn, s);
            let before = run(s.ops, m);
            &&& run(s1.ops, m).value(v) == (offset_value(insn, before) + segment_base(
                insn,
                before,
            )) % full()
            &&& quiet(s, s1, m)
            &&& s1.next <= s.next + 8
            &&& v matches Val::Temp(t) ==> s.next <= t < s1.next
        }),
{
    broadcast use group_run;

    reveal(operand::address);
    law_offset(insn, s, m);
}

// --- registers and their parts ---

/// Operand `i` is the general register `reg`, or the low part of it.
pub open spec fn names_at(insn: &Insn, i: u32, reg: Reg) -> bool {
    &&& insn.op(i).kind == op_kind::REGISTER
    &&& operand::high_byte_parent(insn.op(i).reg) is None
    &&& operand::iced_to_reg(insn.op(i).reg) == Some(reg)
}

/// Operand 0 is the general register `reg`, or the low part of it.
pub open spec fn names(insn: &Insn, reg: Reg) -> bool {
    names_at(insn, 0, reg)
}

/// `mov` between registers writes the low bytes of one to the other, as wide as the
/// destination is.
pub proof fn law_mov(insn: &Insn, dst: Reg, src: Reg, s: Emission, m: Machine)
    requires
        s.ok,
        s.next + 64 <= u32::MAX,
        names_at(insn, 0, dst),
        names_at(insn, 1, src),
    ensures
        ({
            let s1 = integer::mov(insn, s);
            let before = run(s.ops, m);
            &&& s1.ok
            &&& run(s1.ops, m).regs =~= before.regs.insert(
                dst,
                written(before.regs[dst], before.regs[src], operand::operand_size(insn, 0)),
            )
            &&& run(s1.ops, m).mem == before.mem
        }),
{
    broadcast use group_run;

    reveal(operand::read);
    reveal(operand::store);
    reveal(operand::target);
    reveal(operand::write);
}

/// `xchg` of two registers gives each what the other held.
pub proof fn law_xchg(insn: &Insn, a: Reg, b: Reg, s: Emission, m: Machine)
    requires
        s.ok,
        s.next + 64 <= u32::MAX,
        names_at(insn, 0, a),
        names_at(insn, 1, b),
        a != b,
        operand::operand_size(insn, 0) == operand::operand_size(insn, 1),
    ensures
        ({
            let s1 = integer::xchg(insn, s);
            let before = run(s.ops, m);
            let size = operand::operand_size(insn, 0);
            &&& s1.ok
            &&& run(s1.ops, m).regs =~= before.regs.insert(
                a,
                written(before.regs[a], before.regs[b], size),
            ).insert(b, written(before.regs[b], before.regs[a], size))
            &&& run(s1.ops, m).mem == before.mem
        }),
{
    broadcast use group_run;

    reveal(operand::read);
    reveal(operand::target);
    reveal(operand::write);
}

/// The branch-free choice between two values: the second where the condition holds, and the
/// first where it does not.
pub proof fn law_select(cond: Cond, dst: Val, src: Val, s: Emission, m: Machine)
    requires
        s.ok,
        s.next + 5 <= u32::MAX,
        dst matches Val::Temp(t) ==> t < s.next,
        src matches Val::Temp(t) ==> t < s.next,
    ensures
        ({
            let (s1, v) = integer::select(cond, dst, src, s);
            let before = run(s.ops, m);
            &&& s1.ok
            &&& run(s1.ops, m).value(v) == if condition::holds(cond, before.flags) {
                before.value(src)
            } else {
                before.value(dst)
            }
            &&& quiet(s, s1, m)
            &&& s1.next == s.next + 5
            &&& v matches Val::Temp(t) && t < s1.next
        }),
{
    broadcast use group_run;

    let before = run(s.ops, m);
    let x = before.value(dst);
    let y = before.value(src);
    assert(x ^ ((x ^ y) & 0xffff_ffff_ffff_ffff) == y) by (bit_vector);
    assert(x ^ ((x ^ y) & 0) == x) by (bit_vector);
    assert((0 - 1) % full() == 0xffff_ffff_ffff_ffff);
}

/// `cmovcc` writes its register in either case: with the source where the condition holds,
/// and with what it held where not. So the 32-bit form clears the upper half even where
/// nothing is moved.
pub proof fn law_cmov(insn: &Insn, cond: Cond, dst: Reg, src: Reg, s: Emission, m: Machine)
    requires
        s.ok,
        s.next + 64 <= u32::MAX,
        names_at(insn, 0, dst),
        names_at(insn, 1, src),
    ensures
        ({
            let s1 = integer::cmovcc(insn, cond, s);
            let before = run(s.ops, m);
            let v = if condition::holds(cond, before.flags) {
                before.regs[src]
            } else {
                before.regs[dst]
            };
            &&& s1.ok
            &&& run(s1.ops, m).regs =~= before.regs.insert(
                dst,
                written(before.regs[dst], v, operand::operand_size(insn, 0)),
            )
            &&& run(s1.ops, m).mem == before.mem
        }),
{
    broadcast use group_run;

    reveal(operand::read);
    reveal(operand::store);
    reveal(operand::target);
    reveal(operand::write);
    let (s1, a) = operand::read(insn, 1, s);
    let (s2, b) = operand::read(insn, 0, s1);
    law_select(cond, b, a, s2, m);
}

/// A read of `ah`, `bh`, `ch` or `dh` gives bits 8 to 15 of its register.
pub proof fn law_high_byte_read(insn: &Insn, i: u32, s: Emission, m: Machine)
    requires
        s.ok,
        s.next + 3 <= u32::MAX,
        insn.op(i).kind == op_kind::REGISTER,
        operand::high_byte_parent(insn.op(i).reg) is Some,
    ensures
        ({
            let (s1, v) = operand::read(insn, i, s);
            let parent = run(s.ops, m).regs[operand::high_byte_parent(insn.op(i).reg)->0];
            &&& s1.ok
            &&& run(s1.ops, m).value(v) == parent / 0x100 % 0x100
            &&& quiet(s, s1, m)
        }),
{
    broadcast use group_run;

    reveal(operand::read);
    let parent = run(s.ops, m).regs[operand::high_byte_parent(insn.op(i).reg)->0];
    assert((parent >> 8u64) & 0xff == parent / 0x100 % 0x100) by (bit_vector);
}

/// A write of `ah`, `bh`, `ch` or `dh` changes bits 8 to 15 of its register, and nothing
/// else of the guest.
pub proof fn law_high_byte_write(parent: Reg, value: Val, s: Emission, m: Machine)
    requires
        s.ok,
        s.next + 5 <= u32::MAX,
        value matches Val::Temp(t) ==> t < s.next,
    ensures
        ({
            let s1 = operand::write(WriteTarget::HighByte { parent }, value, s);
            let before = run(s.ops, m);
            let old = before.regs[parent];
            let v = before.value(value);
            let new = (old - old / 0x100 % 0x100 * 0x100 + v % 0x100 * 0x100) as u64;
            &&& s1.ok
            &&& run(s1.ops, m).regs =~= before.regs.insert(parent, new)
            &&& run(s1.ops, m).mem == before.mem
        }),
{
    broadcast use group_run;

    reveal(operand::write);
    let before = run(s.ops, m);
    let old = before.regs[parent];
    let v = before.value(value);
    assert((old & 0xffff_ffff_ffff_00ff) | ((v & 0xff) << 8u64) == old - old / 0x100 % 0x100 * 0x100
        + v % 0x100 * 0x100) by (bit_vector);
}

/// `lea` puts the offset into the low bytes of its register, as any write of that width
/// does. No segment counts, and no memory is touched.
pub proof fn law_lea(insn: &Insn, s: Emission, m: Machine)
    requires
        insn.wf(),
        s.ok,
        s.next + 64 <= u32::MAX,
        integer::lea(insn, s).ok,
        insn.op0.kind == op_kind::REGISTER,
        operand::high_byte_parent(insn.op0.reg) is None,
    ensures
        ({
            let s1 = integer::lea(insn, s);
            let before = run(s.ops, m);
            let dst = operand::iced_to_reg(insn.op0.reg)->0;
            &&& run(s1.ops, m).regs =~= before.regs.insert(
                dst,
                written(
                    before.regs[dst],
                    offset_value(insn, before) as u64,
                    operand::operand_size(insn, 0),
                ),
            )
            &&& run(s1.ops, m).mem == before.mem
        }),
{
    broadcast use group_run;
    broadcast use operand::group_failed;

    reveal(operand::store);
    reveal(operand::target);
    reveal(operand::write);
    law_offset(insn, s, m);
}

// --- branches ---

/// A direct branch goes to its target, round the end of the mode's code addresses: with 32
/// bits, below 2 to the power 32.
pub proof fn law_direct_target(insn: &Insn, mode: CpuMode, s: Emission)
    requires
        op_kind::is_near_branch(insn.op0.kind),
    ensures
        control::branch(insn, mode, s).0 == s,
        control::branch(insn, mode, s).1 == Val::Imm(
            (insn.branch_target as int % stack_space(mode)) as u64,
        ),
{
    let x = insn.branch_target;
    lemma_mask(x);
    assert(x as int % full() == x);
}

/// A branch through a register goes to what the register holds, cut to 16 bits for a 16-bit
/// operand and to the width of the mode otherwise.
pub proof fn law_indirect_target(insn: &Insn, reg: Reg, mode: CpuMode, s: Emission, m: Machine)
    requires
        s.ok,
        s.next + 10 <= u32::MAX,
        names(insn, reg),
    ensures
        ({
            let (s1, v) = control::branch(insn, mode, s);
            let before = run(s.ops, m);
            &&& s1.ok
            &&& run(s1.ops, m).value(v) == before.regs[reg] as int % if operand::operand_size(
                insn,
                0,
            ) == 2 {
                0x1_0000
            } else {
                stack_space(mode)
            }
            &&& quiet(s, s1, m)
        }),
{
    broadcast use group_run;

    reveal(operand::read);
    let x = run(s.ops, m).regs[reg];
    lemma_mask(x);
    let (s1, v) = operand::read(insn, 0, s);
    assert(run(s1.ops, m).value(v) == x);
    assert(quiet(s, s1, m));
    assert(x as int % full() == x);
}

// --- the stack ---

/// Where the stack pointer and the instruction pointer wrap.
pub open spec fn stack_space(mode: CpuMode) -> int {
    if mode.wraps_32() {
        0x1_0000_0000
    } else {
        full()
    }
}

/// `push` moves the stack pointer down by the width of its operand, round the end of the
/// stack's space, and writes there what the register held before: `push rsp` the old
/// pointer.
pub proof fn law_push(insn: &Insn, reg: Reg, mode: CpuMode, s: Emission, m: Machine)
    requires
        s.ok,
        s.next + 64 <= u32::MAX,
        names(insn, reg),
    ensures
        ({
            let s1 = control::push(insn, mode, s);
            let before = run(s.ops, m);
            let after = run(s1.ops, m);
            let size = operand::push_pop_size(insn, mode);
            let sp = ((before.regs[Reg::Rsp] - size) % stack_space(mode)) as u64;
            &&& s1.ok
            &&& after.regs =~= before.regs.insert(Reg::Rsp, sp)
            &&& after.mem == stored(before.mem, sp, before.regs[reg] as int, size as nat)
            &&& s1.next <= s.next + 64
        }),
{
    broadcast use group_run;

    reveal(operand::read);
    reveal(control::push);
    let before = run(s.ops, m);
    let size = operand::push_pop_size(insn, mode);
    let down = before.regs[Reg::Rsp] - size;
    lemma_narrower(down);
    lemma_mask((down % full()) as u64);
}

/// `pop` into a register reads where the stack pointer points, moves the pointer up, and
/// then writes the register: `pop rsp` leaves what was popped.
pub proof fn law_pop(insn: &Insn, reg: Reg, mode: CpuMode, s: Emission, m: Machine)
    requires
        s.ok,
        s.next + 64 <= u32::MAX,
        names(insn, reg),
        operand::operand_size(insn, 0) != 0,
    ensures
        ({
            let s1 = control::pop(insn, mode, s);
            let before = run(s.ops, m);
            let after = run(s1.ops, m);
            let size = operand::push_pop_size(insn, mode);
            let rsp = before.regs[Reg::Rsp];
            let up = before.regs.insert(Reg::Rsp, ((rsp + size) % stack_space(mode)) as u64);
            let v = load(before.mem, rsp, size as nat) as u64;
            &&& s1.ok
            &&& after.regs =~= up.insert(reg, written(up[reg], v, size))
            &&& after.mem == before.mem
        }),
{
    broadcast use group_run;

    reveal(operand::target);
    reveal(control::pop);
    reveal(operand::write);
    let before = run(s.ops, m);
    let size = operand::push_pop_size(insn, mode);
    lemma_narrower(before.regs[Reg::Rsp] + size);
}

/// 256 to the power `n`.
pub open spec fn space(n: nat) -> int
    decreases n,
{
    if n == 0 {
        1
    } else {
        256 * space((n - 1) as nat)
    }
}

proof fn lemma_load_elsewhere(mem: Map<u64, u8>, at: u64, b: u8, addr: u64, n: nat)
    requires
        n <= 8,
        forall|i: int| 0 <= i < n ==> #[trigger] behind(addr, i) != at,
    ensures
        load(mem.insert(at, b), addr, n) == load(mem, addr, n),
    decreases n,
{
    if n > 0 {
        assert(behind(addr, 0) == addr);
        assert forall|i: int| 0 <= i < n - 1 implies #[trigger] behind(behind(addr, 1), i) != at by {
            assert(behind(addr, i + 1) != at);
        }
        lemma_load_elsewhere(mem, at, b, behind(addr, 1), (n - 1) as nat);
    }
}

/// A load gives back what a store of the same width wrote.
pub proof fn law_load_after_store(mem: Map<u64, u8>, addr: u64, v: int, n: nat)
    requires
        n <= 8,
        v >= 0,
    ensures
        load(stored(mem, addr, v, n), addr, n) == v % space(n),
    decreases n,
{
    if n > 0 {
        let next = behind(addr, 1);
        let k = (n - 1) as nat;
        law_load_after_store(mem, next, v / 256, k);
        let inner = stored(mem, next, v / 256, k);
        assert forall|i: int| 0 <= i < k implies #[trigger] behind(next, i) != addr by {}
        lemma_load_elsewhere(inner, addr, (v % 256) as u8, next, k);
        lemma_space(k);
        assert(v % (256 * space(k)) == v % 256 + 256 * ((v / 256) % space(k))) by {
            vstd::arithmetic::div_mod::lemma_mod_breakdown(v, 256, space(k));
        }
    }
}

proof fn lemma_space(n: nat)
    ensures
        space(n) > 0,
    decreases n,
{
    if n > 0 {
        lemma_space((n - 1) as nat);
    }
}

proof fn lemma_spaces()
    ensures
        space(2) == 0x1_0000,
        space(4) == 0x1_0000_0000,
        space(8) == full(),
{
    reveal_with_fuel(space, 9);
}

/// A register takes from a load what it would take from the value that was stored.
proof fn lemma_written_back(old: u64, v: u64, mem: Map<u64, u8>, addr: u64, size: u8)
    requires
        size == 2 || size == 4 || size == 8,
    ensures
        written(
            old,
            load(stored(mem, addr, v as int, size as nat), addr, size as nat) as u64,
            size,
        ) == written(old, v, size),
{
    lemma_spaces();
    law_load_after_store(mem, addr, v as int, size as nat);
}

/// A register that is pushed and popped again comes back, in another register or the same,
/// and the stack pointer is where it was.
pub proof fn law_push_then_pop(
    p: &Insn,
    a: Reg,
    q: &Insn,
    b: Reg,
    mode: CpuMode,
    s: Emission,
    m: Machine,
)
    requires
        s.ok,
        s.next + 128 <= u32::MAX,
        names(p, a),
        names(q, b),
        operand::operand_size(p, 0) == operand::operand_size(q, 0),
        operand::operand_size(q, 0) == 2 || operand::operand_size(q, 0) == 4
            || operand::operand_size(q, 0) == 8,
        b != Reg::Rsp,
        mode.wraps_32() ==> run(s.ops, m).regs[Reg::Rsp] < 0x1_0000_0000,
    ensures
        ({
            let s1 = control::pop(q, mode, control::push(p, mode, s));
            let before = run(s.ops, m);
            &&& s1.ok
            &&& forall|r: Reg| #[trigger]
                run(s1.ops, m).regs[r] == if r == b {
                    written(before.regs[b], before.regs[a], operand::operand_size(q, 0))
                } else {
                    before.regs[r]
                }
        }),
{
    let s1 = control::push(p, mode, s);
    law_push(p, a, mode, s, m);
    law_pop(q, b, mode, s1, m);
    let before = run(s.ops, m);
    let size = operand::operand_size(q, 0);
    let rsp = before.regs[Reg::Rsp];
    let sp = ((rsp - size) % stack_space(mode)) as u64;
    lemma_written_back(before.regs[b], before.regs[a], before.mem, sp, size);
    assert((size + sp) % stack_space(mode) == rsp) by {
        vstd::arithmetic::div_mod::lemma_add_mod_noop_right(
            size as int,
            rsp - size,
            stack_space(mode),
        );
        vstd::arithmetic::div_mod::lemma_small_mod(rsp as nat, stack_space(mode) as nat);
    }
}

} // verus!
