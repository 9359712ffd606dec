//! What the integer instructions do to the guest, by their names.
use crate::insn::Insn;
use crate::ir::{FlagMask, IrOp, RmwOp, Temp, Val};
use crate::lift::condition::Status;
use crate::lift::emit::Emission;
use crate::lift::integer::{BinOp, UnaryOp};
use crate::lift::meaning::Machine;
use crate::lift::operand::Alu;
use crate::lift::{arithmetic, condition, dispatch, integer, meaning, operand, table, CpuMode};
use crate::mnemonic as mn;
use crate::op_kind;
use vstd::arithmetic::power2::pow2;
use vstd::prelude::*;

verus! {

broadcast use operand::group_failed;

// --- operands ---

/// The address of the memory operand.
#[verifier::opaque]
pub open spec fn address_of(insn: &Insn, m: Machine) -> u64 {
    ((meaning::offset_value(insn, m) + meaning::segment_base(insn, m)) % meaning::full()) as u64
}

/// What operand `i` holds: a register, of which a narrower operand is the low part; the second
/// byte of one; what memory holds; or a constant.
#[verifier::opaque]
pub open spec fn value_of(insn: &Insn, i: u32, m: Machine) -> u64 {
    let op = insn.op(i);
    if op.kind == op_kind::REGISTER {
        match operand::high_byte_parent(op.reg) {
            Some(parent) => (m.regs[parent] as int / 0x100 % 0x100) as u64,
            None => m.regs[operand::iced_to_reg(op.reg)->0],
        }
    } else if op.kind == op_kind::MEMORY {
        meaning::load(m.mem, address_of(insn, m), operand::operand_size(insn, i) as nat) as u64
    } else {
        op.imm
    }
}

/// The guest with a value written to operand `i`.
#[verifier::opaque]
pub open spec fn put(insn: &Insn, i: u32, m: Machine, v: u64) -> Machine {
    let op = insn.op(i);
    let size = operand::operand_size(insn, i);
    if op.kind == op_kind::REGISTER {
        match operand::high_byte_parent(op.reg) {
            Some(parent) => {
                let old = m.regs[parent];
                Machine {
                    regs: m.regs.insert(
                        parent,
                        (old - old as int / 0x100 % 0x100 * 0x100 + v % 0x100 * 0x100) as u64,
                    ),
                    ..m
                }
            },
            None => {
                let reg = operand::iced_to_reg(op.reg)->0;
                Machine { regs: m.regs.insert(reg, meaning::written(m.regs[reg], v, size)), ..m }
            },
        }
    } else {
        Machine {
            mem: meaning::stored(m.mem, address_of(insn, m), v as int, size as nat),
            ..m
        }
    }
}

pub proof fn lemma_address(insn: &Insn, s: Emission, m: Machine)
    requires
        insn.wf(),
        s.ok,
        s.next + 16 <= u32::MAX,
        operand::address(insn, s).0.ok,
    ensures
        ({
            let (s1, v) = operand::address(insn, s);
            &&& meaning::run(s1.ops, m).value(v) == address_of(insn, meaning::run(s.ops, m))
            &&& meaning::quiet(s, s1, m)
            &&& s1.next <= s.next + 8
            &&& v matches Val::Temp(t) ==> s.next <= t < s1.next
        }),
{
    reveal(address_of);
    meaning::law_effective_address(insn, s, m);
}

pub proof fn lemma_read(insn: &Insn, i: u32, s: Emission, m: Machine)
    requires
        insn.wf(),
        s.ok,
        s.next + 16 <= u32::MAX,
        operand::read(insn, i, s).0.ok,
    ensures
        ({
            let (s1, v) = operand::read(insn, i, s);
            &&& meaning::run(s1.ops, m).value(v) == value_of(insn, i, meaning::run(s.ops, m))
            &&& meaning::quiet(s, s1, m)
            &&& s1.next <= s.next + 9
            &&& v matches Val::Temp(t) ==> t < s1.next
        }),
{
    reveal(value_of);
    broadcast use meaning::group_run;

    reveal(operand::read);
    let op = insn.op(i);
    if op.kind == op_kind::REGISTER {
        if operand::high_byte_parent(op.reg) is Some {
            meaning::law_high_byte_read(insn, i, s, m);
        }
    } else if op.kind == op_kind::MEMORY {
        lemma_address(insn, s, m);
    }
}

/// Writing an operand changes the guest in that operand alone.
pub proof fn lemma_store(insn: &Insn, i: u32, v: Val, s: Emission, m: Machine)
    requires
        insn.wf(),
        s.ok,
        s.next + 16 <= u32::MAX,
        v matches Val::Temp(t) ==> t < s.next,
        operand::store(insn, i, v, s).ok,
    ensures
        ({
            let s1 = operand::store(insn, i, v, s);
            let before = meaning::run(s.ops, m);
            let after = meaning::run(s1.ops, m);
            &&& after.same_guest(put(insn, i, before, before.value(v)))
            &&& after.flags == before.flags
            &&& s.next <= s1.next <= s.next + 13
            &&& forall|t: Temp| t < s.next ==> #[trigger] after.temps[t] == before.temps[t]
        }),
{
    reveal(put);
    broadcast use meaning::group_run;

    reveal(operand::store);
    reveal(operand::target);
    reveal(operand::write);
    let op = insn.op(i);
    let before = meaning::run(s.ops, m);
    if op.kind == op_kind::REGISTER {
        match operand::high_byte_parent(op.reg) {
            Some(parent) => meaning::law_high_byte_write(parent, v, s, m),
            None => {},
        }
    } else if op.kind == op_kind::MEMORY {
        lemma_address(insn, s, m);
    }
}

/// What operands hold depends on the guest alone.
pub proof fn lemma_same_guest(insn: &Insn, i: u32, a: Machine, b: Machine)
    requires
        a.same_guest(b),
    ensures
        value_of(insn, i, a) == value_of(insn, i, b),
        address_of(insn, a) == address_of(insn, b),
        forall|v: u64| (#[trigger] put(insn, i, a, v)).same_guest(put(insn, i, b, v)),
        forall|v: u64| (#[trigger] put(insn, i, a, v)).flags == a.flags,
{
    reveal(address_of);
    reveal(value_of);
    reveal(put);
}

/// Writing an operand does not depend on the flags, and keeps them.
pub proof fn lemma_put_flags(insn: &Insn, i: u32, a: Machine, b: Machine)
    requires
        a.regs == b.regs,
        a.mem == b.mem,
    ensures
        forall|v: u64|
            (#[trigger] put(insn, i, a, v)).regs == put(insn, i, b, v).regs && put(
                insn,
                i,
                a,
                v,
            ).mem == put(insn, i, b, v).mem && put(insn, i, a, v).flags == a.flags,
        forall|v: u64| (#[trigger] put(insn, i, b, v)).flags == b.flags,
        value_of(insn, i, a) == value_of(insn, i, b),
{
    reveal(address_of);
    reveal(value_of);
    reveal(put);
}

/// A write to memory keeps the registers.
pub proof fn lemma_put_keeps_registers(insn: &Insn, m: Machine)
    requires
        insn.is_mem(0),
    ensures
        forall|v: u64| (#[trigger] put(insn, 0, m, v)).regs == m.regs,
{
    reveal(put);
}

/// An integer instruction is lifted by its form.
pub proof fn lemma_int(insn: &Insn, mode: CpuMode, s: Emission)
    requires
        table::int_form(insn.mnemonic) is Some,
    ensures
        dispatch::insn_ir(insn, mode, s) == (
            dispatch::int_ir(table::int_form(insn.mnemonic)->0, insn, s),
            false,
        ),
{
    reveal(dispatch::insn_ir);
    reveal(table::form_of);
}

// --- arithmetic and logic ---

/// The guest, but for its temporaries, with the value `r` written to operand 0 and the flags
/// `f`.
pub open spec fn gives(insn: &Insn, before: Machine, after: Machine, r: int, f: Status) -> bool {
    after.same_guest(Machine { flags: f, ..put(insn, 0, before, r as u64) })
}

/// The guest with the flags `f`, and nothing else changed.
pub open spec fn compares(before: Machine, after: Machine, f: Status) -> bool {
    after.same_guest(Machine { flags: f, ..before })
}

pub proof fn lemma_bin(
    op: BinOp,
    a: Val,
    b: Val,
    size: u8,
    flags: FlagMask,
    s: Emission,
    m: Machine,
)
    requires
        s.ok,
        s.next + 1 <= u32::MAX,
    ensures
        ({
            let (s1, v) = integer::bin(op, a, b, size, flags, s);
            let before = meaning::run(s.ops, m);
            let after = meaning::run(s1.ops, m);
            let (r, f) = arithmetic::binary(
                op,
                before.value(a),
                before.value(b),
                before.flags,
                size,
            );
            &&& after.value(v) == r
            &&& after.regs == before.regs
            &&& after.mem == before.mem
            &&& after.flags == if flags == FlagMask::none() {
                before.flags
            } else {
                arithmetic::merged(before.flags, f, flags)
            }
            &&& s1.ok
            &&& s1.next == s.next + 1
            &&& v == Val::Temp(s.next)
            &&& forall|t: Temp| t < s.next ==> #[trigger] after.temps[t] == before.temps[t]
        }),
{
    broadcast use meaning::group_run;

}

/// An atomic update computes what the plain one does.
pub proof fn lemma_atomic(op: BinOp, x: u64, y: u64, f: Status, size: u8)
    requires
        integer::rmw_of_binop(op) is Some,
    ensures
        arithmetic::updated(integer::rmw_of_binop(op)->0, x, y, size) == arithmetic::binary(
            op,
            x,
            y,
            f,
            size,
        ).0,
{
    reveal(arithmetic::binary);
}

/// Arithmetic on two operands: operand 0 gets the result, where it is wanted, and the flags in
/// the mask those of the result.
pub proof fn lemma_binop(
    insn: &Insn,
    op: BinOp,
    flags: FlagMask,
    write_back: bool,
    s: Emission,
    m: Machine,
)
    requires
        insn.wf(),
        s.ok,
        s.next + 64 <= u32::MAX,
        operand::is_scalar_size(operand::operand_size(insn, 0)),
        integer::binop(insn, op, flags, write_back, s).ok,
        flags != FlagMask::none(),
    ensures
        ({
            let before = meaning::run(s.ops, m);
            let after = meaning::run(integer::binop(insn, op, flags, write_back, s).ops, m);
            let (r, f) = arithmetic::binary(
                op,
                value_of(insn, 0, before),
                value_of(insn, 1, before),
                before.flags,
                operand::operand_size(insn, 0),
            );
            let f1 = arithmetic::merged(before.flags, f, flags);
            if write_back {
                gives(insn, before, after, r as int, f1)
            } else {
                compares(before, after, f1)
            }
        }),
{
    reveal(value_of);
    reveal(put);
    let size = operand::operand_size(insn, 0);
    let before = meaning::run(s.ops, m);
    if insn.is_mem(0) {
        let (s1, addr) = operand::address(insn, s);
        lemma_address(insn, s, m);
        if write_back && insn.lock && integer::rmw_of_binop(op) is Some {
            let (s2, b) = operand::read(insn, 1, s1);
            lemma_read(insn, 1, s1, m);
            lemma_same_guest(insn, 1, before, meaning::run(s1.ops, m));
            lemma_rmw(addr, b, size, integer::rmw_of_binop(op)->0, s2, m);
            let (s3, old) = integer::rmw(addr, b, size, integer::rmw_of_binop(op)->0, s2);
            lemma_bin(op, old, b, size, flags, s3, m);
            lemma_atomic(op, value_of(insn, 0, before), value_of(insn, 1, before), before.flags, size);
        } else {
            let (s2, a) = integer::load(addr, size, s1);
            lemma_load(addr, size, s1, m);
            let (s3, b) = operand::read(insn, 1, s2);
            lemma_read(insn, 1, s2, m);
            lemma_same_guest(insn, 1, before, meaning::run(s2.ops, m));
            let (s4, res) = integer::bin(op, a, b, size, flags, s3);
            lemma_bin(op, a, b, size, flags, s3, m);
            if write_back {
                lemma_save(addr, res, size, s4, m);
            }
        }
    } else {
        let (s1, a) = operand::read(insn, 0, s);
        lemma_read(insn, 0, s, m);
        let (s2, b) = operand::read(insn, 1, s1);
        lemma_read(insn, 1, s1, m);
        lemma_same_guest(insn, 1, before, meaning::run(s1.ops, m));
        let (s3, res) = integer::bin(op, a, b, size, flags, s2);
        lemma_bin(op, a, b, size, flags, s2, m);
        if write_back {
            lemma_store(insn, 0, res, s3, m);
        }
    }
}

pub proof fn lemma_load(addr: Val, size: u8, s: Emission, m: Machine)
    requires
        s.ok,
        s.next + 1 <= u32::MAX,
    ensures
        ({
            let (s1, v) = integer::load(addr, size, s);
            let before = meaning::run(s.ops, m);
            &&& meaning::run(s1.ops, m).value(v) == meaning::load(
                before.mem,
                before.value(addr),
                size as nat,
            ) as u64
            &&& meaning::quiet(s, s1, m)
            &&& s1.ok
            &&& s1.next == s.next + 1
            &&& v == Val::Temp(s.next)
        }),
{
    broadcast use meaning::group_run;

}

pub proof fn lemma_save(addr: Val, v: Val, size: u8, s: Emission, m: Machine)
    requires
        s.ok,
    ensures
        ({
            let s1 = integer::save(addr, v, size, s);
            let before = meaning::run(s.ops, m);
            meaning::run(s1.ops, m) == (Machine {
                mem: meaning::stored(
                    before.mem,
                    before.value(addr),
                    before.value(v) as int,
                    size as nat,
                ),
                ..before
            })
        }),
{
    broadcast use meaning::group_run;

}

pub proof fn lemma_rmw(
    addr: Val,
    src: Val,
    size: u8,
    op: RmwOp,
    s: Emission,
    m: Machine,
)
    requires
        s.ok,
        s.next + 1 <= u32::MAX,
    ensures
        ({
            let (s1, v) = integer::rmw(addr, src, size, op, s);
            let before = meaning::run(s.ops, m);
            let after = meaning::run(s1.ops, m);
            let old = meaning::load(before.mem, before.value(addr), size as nat) as u64;
            &&& after.value(v) == old
            &&& after.regs == before.regs
            &&& after.flags == before.flags
            &&& after.mem == meaning::stored(
                before.mem,
                before.value(addr),
                arithmetic::updated(op, old, before.value(src), size) as int,
                size as nat,
            )
            &&& s1.ok
            &&& s1.next == s.next + 1
            &&& v == Val::Temp(s.next)
            &&& forall|t: Temp| t < s.next ==> #[trigger] after.temps[t] == before.temps[t]
        }),
{
    broadcast use meaning::group_run;

    reveal(meaning::step);
}

/// A sum or difference of 64 bits cut down to a size is that of the size.
pub proof fn lemma_cut(a: int, size: u8)
    requires
        operand::is_scalar_size(size),
    ensures
        arithmetic::fit((a % meaning::full()) as u64, size) == a % arithmetic::modulus(size),
{
    meaning::lemma_narrower(a);
    assert(0x100 * 0x100_0000_0000_0000 == meaning::full()) by (nonlinear_arith);
    vstd::arithmetic::div_mod::lemma_mod_mod(a, 0x100, 0x100_0000_0000_0000);
}

pub proof fn lemma_fit(v: u64, size: u8)
    requires
        operand::is_scalar_size(size),
    ensures
        arithmetic::fit(v, size) == v as int % arithmetic::modulus(size),
{
}

/// Addition, subtraction, comparison and bitwise logic by the names of the instructions:
/// what operand 0 gets, from what operands 0 and 1 hold, and which flags are set.
pub proof fn law_arithmetic(insn: &Insn, mode: CpuMode, s: Emission, m: Machine)
    requires
        insn.wf(),
        s.ok,
        s.next + 64 <= u32::MAX,
        operand::is_scalar_size(operand::operand_size(insn, 0)),
        dispatch::insn_ir(insn, mode, s).0.ok,
    ensures
        ({
            let before = meaning::run(s.ops, m);
            let after = meaning::run(dispatch::insn_ir(insn, mode, s).0.ops, m);
            let x = value_of(insn, 0, before);
            let y = value_of(insn, 1, before);
            let c: int = if before.flags.cf {
                1
            } else {
                0
            };
            let size = operand::operand_size(insn, 0);
            let w = arithmetic::modulus(size);
            let af = after.flags.af;
            let n = insn.mnemonic;
            &&& n == mn::ADD ==> gives(
                insn,
                before,
                after,
                (x + y) % w,
                arithmetic::sum_status(x, y, 0, size),
            )
            &&& n == mn::ADC ==> gives(
                insn,
                before,
                after,
                (x + y + c) % w,
                arithmetic::sum_status(x, y, c, size),
            )
            &&& n == mn::SUB ==> gives(
                insn,
                before,
                after,
                (x - y) % w,
                arithmetic::difference_status(x, y, 0, size),
            )
            &&& n == mn::SBB ==> gives(
                insn,
                before,
                after,
                (x - y - c) % w,
                arithmetic::difference_status(x, y, c, size),
            )
            &&& n == mn::CMP ==> compares(
                before,
                after,
                arithmetic::difference_status(x, y, 0, size),
            )
            &&& n == mn::AND ==> gives(
                insn,
                before,
                after,
                (x & y) as int % w,
                arithmetic::status((x & y) as int % w, size, false, af, false),
            )
            &&& n == mn::OR ==> gives(
                insn,
                before,
                after,
                (x | y) as int % w,
                arithmetic::status((x | y) as int % w, size, false, af, false),
            )
            &&& n == mn::XOR ==> gives(
                insn,
                before,
                after,
                (x ^ y) as int % w,
                arithmetic::status((x ^ y) as int % w, size, false, af, false),
            )
            &&& n == mn::TEST ==> compares(
                before,
                after,
                arithmetic::status((x & y) as int % w, size, false, af, false),
            )
        }),
{
    reveal(arithmetic::binary);
    let n = insn.mnemonic;
    if n == mn::ADD || n == mn::ADC || n == mn::SUB || n == mn::SBB || n == mn::CMP || n == mn::AND
        || n == mn::OR || n == mn::XOR || n == mn::TEST {
        let before = meaning::run(s.ops, m);
        let x = value_of(insn, 0, before);
        let y = value_of(insn, 1, before);
        let size = operand::operand_size(insn, 0);
        lemma_int(insn, mode, s);
        lemma_cut(x + y, size);
        lemma_cut(x - y, size);
        lemma_fit(x & y, size);
        lemma_fit(x | y, size);
        lemma_fit(x ^ y, size);
        match table::int_form(n) {
            Some(table::IntForm::Bin(op, flags, write_back)) => {
                lemma_binop(insn, op, flags, write_back, s, m);
            },
            _ => {},
        }
    }
}

/// What a shift by `n` does to the flags: by nothing it keeps them all. Else the result sets
/// them, but for the adjust flag; the carry is `cf`, unless more than the whole operand is
/// shifted out, and a shift by one sets the overflow flag to `of`.
pub open spec fn shift_flags(
    before: Status,
    after: Status,
    r: int,
    n: u64,
    size: u8,
    cf: bool,
    of: bool,
) -> bool {
    if n == 0 {
        after == before
    } else {
        &&& after.zf == (r == 0)
        &&& after.sf == (r >= arithmetic::modulus(size) / 2)
        &&& after.pf == arithmetic::even(r)
        &&& after.af == before.af
        &&& n <= arithmetic::width(size) ==> after.cf == cf
        &&& n == 1 ==> after.of == of
    }
}

/// What a rotation by `n` does to the flags: it sets the carry, and by one the overflow flag,
/// and keeps the others.
pub open spec fn rotate_flags(before: Status, after: Status, n: int, cf: bool, of: bool) -> bool {
    if n == 0 {
        after == before
    } else {
        &&& after == Status { cf, of: after.of, ..before }
        &&& n == 1 ==> after.of == of
    }
}

pub proof fn lemma_shr(x: u64, y: u64, f: Status, size: u8)
    ensures
        arithmetic::binary(BinOp::Shr, x, y, f, size).0 == ((x as int % arithmetic::modulus(
            size,
        )) as u64 >> arithmetic::amount(y, size)),
{
    reveal(arithmetic::binary);
    assert(x as int % meaning::full() == x);
    if size != 8 {
        let v = (x as int % arithmetic::modulus(size)) as u64;
        let n = arithmetic::amount(y, size);
        assert(v >> n <= v) by (bit_vector);
    }
}

/// Shifts by the names of the instructions. The count is taken modulo 64 for 64-bit operands
/// and modulo 32 for others.
pub proof fn law_shifts(insn: &Insn, mode: CpuMode, s: Emission, m: Machine)
    requires
        insn.wf(),
        s.ok,
        s.next + 64 <= u32::MAX,
        operand::is_scalar_size(operand::operand_size(insn, 0)),
        dispatch::insn_ir(insn, mode, s).0.ok,
    ensures
        ({
            let before = meaning::run(s.ops, m);
            let after = meaning::run(dispatch::insn_ir(insn, mode, s).0.ops, m);
            let x = value_of(insn, 0, before);
            let y = value_of(insn, 1, before);
            let size = operand::operand_size(insn, 0);
            let w = arithmetic::modulus(size);
            let n: u64 = if size == 8 {
                y % 64
            } else {
                y % 32
            };
            let less = (n - 1) as u64;
            let name = insn.mnemonic;
            let (f, g) = (before.flags, after.flags);
            &&& name == mn::SHL || name == mn::SAL ==> {
                let r = (x << n) as int % w;
                &&& gives(insn, before, after, r, g)
                &&& shift_flags(
                    f,
                    g,
                    r,
                    n,
                    size,
                    arithmetic::top(x << less, size),
                    arithmetic::top(x << n, size) != arithmetic::top(x << less, size),
                )
            }
            &&& name == mn::SHR ==> {
                let r = ((x as int % w) as u64 >> n) as int;
                &&& gives(insn, before, after, r, g)
                &&& shift_flags(
                    f,
                    g,
                    r,
                    n,
                    size,
                    (x as int % w) as u64 >> less & 1 == 1,
                    arithmetic::top(x, size),
                )
            }
            &&& name == mn::SAR ==> {
                let r = (arithmetic::signed(x, size) / pow2(n as nat) as int) % w;
                &&& gives(insn, before, after, r, g)
                &&& shift_flags(
                    f,
                    g,
                    r,
                    n,
                    size,
                    arithmetic::signed(x, size) / pow2(less as nat) as int % 2 == 1,
                    false,
                )
            }
        }),
{
    reveal(arithmetic::binary);
    let name = insn.mnemonic;
    if name == mn::SHL || name == mn::SAL || name == mn::SHR || name == mn::SAR {
        lemma_int(insn, mode, s);
        let before = meaning::run(s.ops, m);
        let size = operand::operand_size(insn, 0);
        let x = value_of(insn, 0, before);
        let y = value_of(insn, 1, before);
        lemma_fit(x << arithmetic::amount(y, size), size);
        lemma_shr(x, y, before.flags, size);
        match table::int_form(name) {
            Some(table::IntForm::Bin(op, flags, write_back)) => {
                lemma_binop(insn, op, flags, write_back, s, m);
            },
            _ => {},
        }
    }
}

/// Rotations by the names of the instructions, without and with the carry as one more bit.
pub proof fn law_rotations(insn: &Insn, mode: CpuMode, s: Emission, m: Machine)
    requires
        insn.wf(),
        s.ok,
        s.next + 64 <= u32::MAX,
        operand::is_scalar_size(operand::operand_size(insn, 0)),
        dispatch::insn_ir(insn, mode, s).0.ok,
    ensures
        ({
            let before = meaning::run(s.ops, m);
            let after = meaning::run(dispatch::insn_ir(insn, mode, s).0.ops, m);
            let x = value_of(insn, 0, before);
            let y = value_of(insn, 1, before);
            let size = operand::operand_size(insn, 0);
            let w = arithmetic::modulus(size);
            let bits = arithmetic::width(size);
            let n: u64 = if size == 8 {
                y % 64
            } else {
                y % 32
            };
            let name = insn.mnemonic;
            let (f, g) = (before.flags, after.flags);
            &&& name == mn::ROL ==> {
                let r = arithmetic::rotated(x as int % w, n as int % bits, bits);
                &&& gives(insn, before, after, r, g)
                &&& rotate_flags(
                    f,
                    g,
                    n as int,
                    r % 2 == 1,
                    (r % 2 == 1) != arithmetic::top(r as u64, size),
                )
            }
            &&& name == mn::ROR ==> {
                let r = arithmetic::rotated(x as int % w, -(n as int) % bits, bits);
                &&& gives(insn, before, after, r, g)
                &&& rotate_flags(
                    f,
                    g,
                    n as int,
                    arithmetic::top(r as u64, size),
                    arithmetic::top(r as u64, size) != (r % (w / 2) >= w / 4),
                )
            }
            &&& name == mn::RCL ==> {
                let k = n as int % (bits + 1);
                let r = arithmetic::rotated(
                    x as int % w + if f.cf {
                        w
                    } else {
                        0
                    },
                    k,
                    bits + 1,
                );
                &&& gives(insn, before, after, r % w, g)
                &&& rotate_flags(
                    f,
                    g,
                    k,
                    r >= w,
                    (r >= w) != arithmetic::top((r % w) as u64, size),
                )
            }
            &&& name == mn::RCR ==> {
                let k = n as int % (bits + 1);
                let r = arithmetic::rotated(
                    x as int % w + if f.cf {
                        w
                    } else {
                        0
                    },
                    -k % (bits + 1),
                    bits + 1,
                );
                &&& gives(insn, before, after, r % w, g)
                &&& rotate_flags(f, g, k, r >= w, arithmetic::top(x, size) != f.cf)
            }
        }),
{
    reveal(arithmetic::binary);
    let name = insn.mnemonic;
    if name == mn::ROL || name == mn::ROR || name == mn::RCL || name == mn::RCR {
        lemma_int(insn, mode, s);
        match table::int_form(name) {
            Some(table::IntForm::Bin(op, flags, write_back)) => {
                lemma_binop(insn, op, flags, write_back, s, m);
            },
            _ => {},
        }
    }
}

/// The shifts and the rotation without flags: operand 0 gets operand 1 shifted by operand 2,
/// and nothing else changes.
pub proof fn law_shifts_without_flags(insn: &Insn, mode: CpuMode, s: Emission, m: Machine)
    requires
        insn.wf(),
        s.ok,
        s.next + 64 <= u32::MAX,
        operand::is_scalar_size(operand::operand_size(insn, 0)),
        dispatch::insn_ir(insn, mode, s).0.ok,
    ensures
        ({
            let before = meaning::run(s.ops, m);
            let after = meaning::run(dispatch::insn_ir(insn, mode, s).0.ops, m);
            let x = value_of(insn, 1, before);
            let y = value_of(insn, 2, before);
            let size = operand::operand_size(insn, 0);
            let w = arithmetic::modulus(size);
            let bits = arithmetic::width(size);
            let n: u64 = if size == 8 {
                y % 64
            } else {
                y % 32
            };
            let name = insn.mnemonic;
            let f = before.flags;
            &&& name == mn::SHLX ==> gives(insn, before, after, (x << n) as int % w, f)
            &&& name == mn::SHRX ==> gives(
                insn,
                before,
                after,
                ((x as int % w) as u64 >> n) as int,
                f,
            )
            &&& name == mn::SARX ==> gives(
                insn,
                before,
                after,
                (arithmetic::signed(x, size) / pow2(n as nat) as int) % w,
                f,
            )
            &&& name == mn::RORX ==> gives(
                insn,
                before,
                after,
                arithmetic::rotated(x as int % w, -(n as int) % bits, bits),
                f,
            )
        }),
{
    reveal(arithmetic::binary);
    let name = insn.mnemonic;
    if name == mn::SHLX || name == mn::SHRX || name == mn::SARX || name == mn::RORX {
        let before = meaning::run(s.ops, m);
        let x = value_of(insn, 1, before);
        let y = value_of(insn, 2, before);
        let size = operand::operand_size(insn, 0);
        lemma_int(insn, mode, s);
        lemma_shr(x, y, before.flags, size);
        lemma_fit(x << arithmetic::amount(y, size), size);
        match table::int_form(name) {
            Some(table::IntForm::BmiShift(op)) => {
                let (s1, a) = operand::read(insn, 1, s);
                lemma_read(insn, 1, s, m);
                let (s2, b) = operand::read(insn, 2, s1);
                lemma_read(insn, 2, s1, m);
                lemma_same_guest(insn, 2, before, meaning::run(s1.ops, m));
                let (s3, v) = integer::bin(op, a, b, size, FlagMask::none(), s2);
                lemma_bin(op, a, b, size, FlagMask::none(), s2, m);
                lemma_store(insn, 0, v, s3, m);
                lemma_same_guest(insn, 0, before, meaning::run(s3.ops, m));
            },
            _ => {},
        }
    }
}

pub proof fn lemma_unary(op: UnaryOp, a: Val, size: u8, s: Emission, m: Machine)
    requires
        s.ok,
        s.next + 1 <= u32::MAX,
    ensures
        ({
            let (s1, v) = integer::unary(op, a, size, s);
            let before = meaning::run(s.ops, m);
            let after = meaning::run(s1.ops, m);
            let x = before.value(a);
            &&& after.value(v) == complemented(op, x, size)
            &&& after.regs == before.regs
            &&& after.mem == before.mem
            &&& after.flags == unary_flags(op, before.flags, x, size)
            &&& s1.ok
            &&& s1.next == s.next + 1
            &&& v == Val::Temp(s.next)
            &&& forall|t: Temp| t < s.next ==> #[trigger] after.temps[t] == before.temps[t]
        }),
{
    let (bin_op, x, y, mask) = match op {
        UnaryOp::Inc => (BinOp::Add, a, Val::Imm(1), FlagMask::all_but_cf()),
        UnaryOp::Dec => (BinOp::Sub, a, Val::Imm(1), FlagMask::all_but_cf()),
        UnaryOp::Neg => (BinOp::Sub, Val::Imm(0), a, FlagMask::all()),
        UnaryOp::Not => (BinOp::Xor, a, Val::Imm(u64::MAX), FlagMask::none()),
    };
    lemma_bin(bin_op, x, y, size, mask, s, m);
    assert(integer::unary(op, a, size, s) == integer::bin(bin_op, x, y, size, mask, s));
    let before = meaning::run(s.ops, m);
    lemma_unary_values(op, before.value(a), before.flags, size);
}

proof fn lemma_unary_values(op: UnaryOp, x: u64, f: Status, size: u8)
    ensures
        ({
            let (r, g) = match op {
                UnaryOp::Inc => arithmetic::binary(BinOp::Add, x, 1, f, size),
                UnaryOp::Dec => arithmetic::binary(BinOp::Sub, x, 1, f, size),
                UnaryOp::Neg => arithmetic::binary(BinOp::Sub, 0, x, f, size),
                UnaryOp::Not => arithmetic::binary(BinOp::Xor, x, u64::MAX, f, size),
            };
            &&& r == complemented(op, x, size)
            &&& op is Inc || op is Dec ==> arithmetic::merged(f, g, FlagMask::all_but_cf())
                == unary_flags(op, f, x, size)
            &&& op is Neg ==> arithmetic::merged(f, g, FlagMask::all()) == unary_flags(
                op,
                f,
                x,
                size,
            )
        }),
{
    reveal(arithmetic::binary);
}

/// What the instructions with one operand compute.
pub open spec fn complemented(op: UnaryOp, x: u64, size: u8) -> u64 {
    arithmetic::fit(
        match op {
            UnaryOp::Inc => ((x + 1) % meaning::full()) as u64,
            UnaryOp::Dec => ((x - 1) % meaning::full()) as u64,
            UnaryOp::Neg => ((0 - x) % meaning::full()) as u64,
            UnaryOp::Not => x ^ 0xffff_ffff_ffff_ffff,
        },
        size,
    )
}

/// The flags of the instructions with one operand.
pub open spec fn unary_flags(op: UnaryOp, f: Status, x: u64, size: u8) -> Status {
    match op {
        UnaryOp::Inc => Status { cf: f.cf, ..arithmetic::sum_status(x, 1, 0, size) },
        UnaryOp::Dec => Status { cf: f.cf, ..arithmetic::difference_status(x, 1, 0, size) },
        UnaryOp::Neg => arithmetic::difference_status(0, x, 0, size),
        UnaryOp::Not => f,
    }
}

pub proof fn lemma_unary_op0(insn: &Insn, op: UnaryOp, s: Emission, m: Machine)
    requires
        insn.wf(),
        s.ok,
        s.next + 64 <= u32::MAX,
        operand::is_scalar_size(operand::operand_size(insn, 0)),
        integer::unary_op0(insn, op, s).ok,
    ensures
        ({
            let before = meaning::run(s.ops, m);
            let after = meaning::run(integer::unary_op0(insn, op, s).ops, m);
            let x = value_of(insn, 0, before);
            let size = operand::operand_size(insn, 0);
            gives(
                insn,
                before,
                after,
                complemented(op, x, size) as int,
                unary_flags(op, before.flags, x, size),
            )
        }),
{
    reveal(value_of);
    reveal(put);
    let size = operand::operand_size(insn, 0);
    let before = meaning::run(s.ops, m);
    if insn.is_mem(0) {
        let (s1, addr) = operand::address(insn, s);
        lemma_address(insn, s, m);
        if insn.lock {
            let (rmw_op, src) = integer::spec_unary_rmw(op);
            lemma_rmw(addr, src, size, rmw_op, s1, m);
            let (s2, old) = integer::rmw(addr, src, size, rmw_op, s1);
            if !(op is Not) {
                lemma_unary(op, old, size, s2, m);
            }
        } else {
            let (s2, a) = integer::load(addr, size, s1);
            lemma_load(addr, size, s1, m);
            let (s3, res) = integer::unary(op, a, size, s2);
            lemma_unary(op, a, size, s2, m);
            lemma_save(addr, res, size, s3, m);
        }
    } else {
        let (s1, a) = operand::read(insn, 0, s);
        lemma_read(insn, 0, s, m);
        let (s2, res) = integer::unary(op, a, size, s1);
        lemma_unary(op, a, size, s1, m);
        lemma_store(insn, 0, res, s2, m);
    }
}

/// `inc` and `dec` add and subtract one and keep the carry; `neg` subtracts from zero; `not`
/// turns every bit and keeps all flags.
pub proof fn law_one_operand(insn: &Insn, mode: CpuMode, s: Emission, m: Machine)
    requires
        insn.wf(),
        s.ok,
        s.next + 64 <= u32::MAX,
        operand::is_scalar_size(operand::operand_size(insn, 0)),
        dispatch::insn_ir(insn, mode, s).0.ok,
    ensures
        ({
            let before = meaning::run(s.ops, m);
            let after = meaning::run(dispatch::insn_ir(insn, mode, s).0.ops, m);
            let x = value_of(insn, 0, before);
            let size = operand::operand_size(insn, 0);
            let w = arithmetic::modulus(size);
            let cf = before.flags.cf;
            let name = insn.mnemonic;
            &&& name == mn::INC ==> gives(
                insn,
                before,
                after,
                (x + 1) % w,
                (Status { cf, ..arithmetic::sum_status(x, 1, 0, size) }),
            )
            &&& name == mn::DEC ==> gives(
                insn,
                before,
                after,
                (x - 1) % w,
                (Status { cf, ..arithmetic::difference_status(x, 1, 0, size) }),
            )
            &&& name == mn::NEG ==> gives(
                insn,
                before,
                after,
                -x % w,
                arithmetic::difference_status(0, x, 0, size),
            )
            &&& name == mn::NOT ==> gives(insn, before, after, (u64::MAX - x) % w, before.flags)
        }),
{
    let name = insn.mnemonic;
    if name == mn::INC || name == mn::DEC || name == mn::NEG || name == mn::NOT {
        let before = meaning::run(s.ops, m);
        let x = value_of(insn, 0, before);
        let size = operand::operand_size(insn, 0);
        lemma_int(insn, mode, s);
        lemma_cut(x + 1, size);
        lemma_cut(x - 1, size);
        lemma_cut(0 - x, size);
        lemma_fit(x ^ 0xffff_ffff_ffff_ffff, size);
        meaning::lemma_mask(x);
        match table::int_form(name) {
            Some(table::IntForm::Unary(op)) => lemma_unary_op0(insn, op, s, m),
            _ => {},
        }
    }
}

// --- moves, extensions and conditions ---

/// A value that is computed from what operands hold, and written to operand 0.
pub proof fn lemma_write_back(insn: &Insn, v: Val, s: Emission, s1: Emission, m: Machine)
    requires
        insn.wf(),
        s1.ok,
        s1.next + 16 <= u32::MAX,
        meaning::quiet(s, s1, m),
        v matches Val::Temp(t) ==> t < s1.next,
        operand::store(insn, 0, v, s1).ok,
    ensures
        ({
            let before = meaning::run(s.ops, m);
            let after = meaning::run(operand::store(insn, 0, v, s1).ops, m);
            let r = meaning::run(s1.ops, m).value(v);
            gives(insn, before, after, r as int, before.flags)
        }),
{
    lemma_store(insn, 0, v, s1, m);
    lemma_same_guest(insn, 0, meaning::run(s.ops, m), meaning::run(s1.ops, m));
}

/// `mov` copies, `movzx` and `movsx` extend without and with the sign, `bswap` turns the bytes
/// round; none of them touches a flag.
pub proof fn law_moves(insn: &Insn, mode: CpuMode, s: Emission, m: Machine)
    requires
        insn.wf(),
        s.ok,
        s.next + 64 <= u32::MAX,
        dispatch::insn_ir(insn, mode, s).0.ok,
    ensures
        ({
            let before = meaning::run(s.ops, m);
            let after = meaning::run(dispatch::insn_ir(insn, mode, s).0.ops, m);
            let x = value_of(insn, 0, before);
            let y = value_of(insn, 1, before);
            let size = operand::operand_size(insn, 0);
            let from = operand::operand_size(insn, 1);
            let f = before.flags;
            let name = insn.mnemonic;
            &&& name == mn::MOV || name == mn::MOVNTI ==> gives(insn, before, after, y as int, f)
            &&& name == mn::MOVZX && operand::is_scalar_size(from) ==> gives(
                insn,
                before,
                after,
                y as int % arithmetic::modulus(from),
                f,
            )
            &&& name == mn::MOVSX || name == mn::MOVSXD ==> gives(
                insn,
                before,
                after,
                arithmetic::signed(y, from) % meaning::full(),
                f,
            )
            &&& name == mn::BSWAP ==> gives(
                insn,
                before,
                after,
                arithmetic::swapped(x as int, size as nat) as u64 as int,
                f,
            )
            &&& name == mn::NOP || name == mn::ENDBR64 || name == mn::ENDBR32 || name == mn::PAUSE
                || name == mn::MFENCE || name == mn::LFENCE || name == mn::SFENCE || name
                == mn::PREFETCHT0 || name == mn::PREFETCHNTA ==> after == before
        }),
{
    broadcast use meaning::group_run;

    let name = insn.mnemonic;
    let before = meaning::run(s.ops, m);
    if name == mn::MOV || name == mn::MOVNTI || name == mn::MOVZX || name == mn::MOVSX || name
        == mn::MOVSXD {
        lemma_int(insn, mode, s);
        let (s1, v) = operand::read(insn, 1, s);
        lemma_read(insn, 1, s, m);
        let y = value_of(insn, 1, before);
        let from = operand::operand_size(insn, 1);
        if name == mn::MOV || name == mn::MOVNTI {
            lemma_write_back(insn, v, s, s1, m);
        } else if name == mn::MOVZX {
            let (s2, z) = operand::alu(Alu::And, v, Val::Imm(operand::size_mask(from)), s1);
            lemma_write_back(insn, z, s, s2, m);
            if operand::is_scalar_size(from) {
                lemma_size_mask(y, from);
            }
        } else {
            reveal(meaning::step);
            let s2 = s1.def(IrOp::Sext { dst: s1.next, a: v, from });
            lemma_write_back(insn, Val::Temp(s1.next), s, s2, m);
        }
    } else if name == mn::BSWAP {
        lemma_int(insn, mode, s);
        reveal(meaning::step);
        let (s1, v) = operand::read(insn, 0, s);
        lemma_read(insn, 0, s, m);
        let s2 = s1.def(IrOp::Bswap { dst: s1.next, a: v, size: operand::operand_size(insn, 0) });
        lemma_write_back(insn, Val::Temp(s1.next), s, s2, m);
    } else if name == mn::NOP || name == mn::ENDBR64 || name == mn::ENDBR32 || name == mn::PAUSE
        || name == mn::MFENCE || name == mn::LFENCE || name == mn::SFENCE || name == mn::PREFETCHT0
        || name == mn::PREFETCHNTA {
        lemma_int(insn, mode, s);
    }
}

pub proof fn lemma_size_mask(y: u64, size: u8)
    requires
        operand::is_scalar_size(size),
    ensures
        y & operand::size_mask(size) == y as int % arithmetic::modulus(size),
{
    vstd::arithmetic::power2::lemma2_to64();
    meaning::lemma_mask(y);
}

/// The condition that the name of an instruction gives.
pub open spec fn condition_of(name: u16, f: Status) -> bool {
    if name == mn::JE || name == mn::SETE || name == mn::CMOVE {
        f.zf
    } else if name == mn::JNE || name == mn::SETNE || name == mn::CMOVNE {
        !f.zf
    } else if name == mn::JB || name == mn::SETB || name == mn::CMOVB {
        f.cf
    } else if name == mn::JAE || name == mn::SETAE || name == mn::CMOVAE {
        !f.cf
    } else if name == mn::JBE || name == mn::SETBE || name == mn::CMOVBE {
        f.cf || f.zf
    } else if name == mn::JA || name == mn::SETA || name == mn::CMOVA {
        !(f.cf || f.zf)
    } else if name == mn::JL || name == mn::SETL || name == mn::CMOVL {
        f.sf != f.of
    } else if name == mn::JGE || name == mn::SETGE || name == mn::CMOVGE {
        f.sf == f.of
    } else if name == mn::JLE || name == mn::SETLE || name == mn::CMOVLE {
        f.zf || f.sf != f.of
    } else if name == mn::JG || name == mn::SETG || name == mn::CMOVG {
        !f.zf && f.sf == f.of
    } else if name == mn::JS || name == mn::SETS || name == mn::CMOVS {
        f.sf
    } else if name == mn::JNS || name == mn::SETNS || name == mn::CMOVNS {
        !f.sf
    } else if name == mn::JO || name == mn::SETO || name == mn::CMOVO {
        f.of
    } else if name == mn::JNO || name == mn::SETNO || name == mn::CMOVNO {
        !f.of
    } else if name == mn::JP || name == mn::SETP || name == mn::CMOVP {
        f.pf
    } else {
        !f.pf
    }
}

/// The conditional jumps.
pub open spec fn jumps_on_condition(name: u16) -> bool {
    name == mn::JE || name == mn::JNE || name == mn::JB || name == mn::JAE || name == mn::JBE
        || name == mn::JA || name == mn::JL || name == mn::JGE || name == mn::JLE || name == mn::JG
        || name == mn::JS || name == mn::JNS || name == mn::JO || name == mn::JNO || name == mn::JP
        || name == mn::JNP
}

/// The instructions that set a byte by a condition.
pub open spec fn sets_on_condition(name: u16) -> bool {
    name == mn::SETE || name == mn::SETNE || name == mn::SETB || name == mn::SETAE || name
        == mn::SETBE || name == mn::SETA || name == mn::SETL || name == mn::SETGE || name
        == mn::SETLE || name == mn::SETG || name == mn::SETS || name == mn::SETNS || name
        == mn::SETO || name == mn::SETNO || name == mn::SETP || name == mn::SETNP
}

/// The conditional moves.
pub open spec fn moves_on_condition(name: u16) -> bool {
    name == mn::CMOVE || name == mn::CMOVNE || name == mn::CMOVB || name == mn::CMOVAE || name
        == mn::CMOVBE || name == mn::CMOVA || name == mn::CMOVL || name == mn::CMOVGE || name
        == mn::CMOVLE || name == mn::CMOVG || name == mn::CMOVS || name == mn::CMOVNS || name
        == mn::CMOVO || name == mn::CMOVNO || name == mn::CMOVP || name == mn::CMOVNP
}

/// A conditional jump goes to its target exactly where the flags meet the condition that its
/// name gives, and else behind itself. It ends the block, and does nothing else.
pub proof fn law_jumps_on_condition(insn: &Insn, mode: CpuMode, s: Emission)
    requires
        s.ok,
        jumps_on_condition(insn.mnemonic),
    ensures
        ({
            let (s1, ends) = dispatch::insn_ir(insn, mode, s);
            &&& s1.ok
            &&& ends
            &&& s1.ops.len() == s.ops.len() + 1
            &&& s1.ops.drop_last() == s.ops
            &&& s1.ops.last() matches IrOp::Branch { cond, taken, fallthrough }
            &&& forall|f: Status| #[trigger]
                condition::holds(cond, f) == condition_of(insn.mnemonic, f)
            &&& mode == CpuMode::Long64 ==> taken == insn.branch_target && fallthrough == (insn.ip
                + insn.len) % meaning::full()
            &&& mode == CpuMode::Compat32 ==> taken == insn.branch_target as int % 0x1_0000_0000
                && fallthrough == (insn.ip + insn.len) % 0x1_0000_0000
        }),
{
    reveal(dispatch::insn_ir);
    reveal(table::form_of);
    let (s1, ends) = dispatch::insn_ir(insn, mode, s);
    meaning::lemma_mask(insn.branch_target);
    meaning::lemma_mask(insn.next_ip());
    meaning::lemma_narrower(insn.ip + insn.len);
    assert(s1.ops.drop_last() =~= s.ops);
}

/// `setcc` writes one where the flags meet the condition that its name gives, and else zero;
/// it keeps the flags.
pub proof fn law_sets_on_condition(insn: &Insn, mode: CpuMode, s: Emission, m: Machine)
    requires
        insn.wf(),
        s.ok,
        s.next + 64 <= u32::MAX,
        sets_on_condition(insn.mnemonic),
        dispatch::insn_ir(insn, mode, s).0.ok,
    ensures
        ({
            let before = meaning::run(s.ops, m);
            let after = meaning::run(dispatch::insn_ir(insn, mode, s).0.ops, m);
            gives(
                insn,
                before,
                after,
                if condition_of(insn.mnemonic, before.flags) {
                    1
                } else {
                    0
                },
                before.flags,
            )
        }),
{
    broadcast use meaning::group_run;

    lemma_int(insn, mode, s);
    match table::int_form(insn.mnemonic) {
        Some(table::IntForm::Setcc(cond)) => {
            let s1 = s.def(IrOp::GetCond { dst: s.next, cond });
            lemma_write_back(insn, Val::Temp(s.next), s, s1, m);
        },
        _ => {},
    }
}

/// `cmovcc` writes operand 1 to operand 0 where the flags meet the condition that its name
/// gives, and else what operand 0 held; it keeps the flags.
pub proof fn law_moves_on_condition(insn: &Insn, mode: CpuMode, s: Emission, m: Machine)
    requires
        insn.wf(),
        s.ok,
        s.next + 64 <= u32::MAX,
        moves_on_condition(insn.mnemonic),
        dispatch::insn_ir(insn, mode, s).0.ok,
    ensures
        ({
            let before = meaning::run(s.ops, m);
            let after = meaning::run(dispatch::insn_ir(insn, mode, s).0.ops, m);
            gives(
                insn,
                before,
                after,
                if condition_of(insn.mnemonic, before.flags) {
                    value_of(insn, 1, before) as int
                } else {
                    value_of(insn, 0, before) as int
                },
                before.flags,
            )
        }),
{
    lemma_int(insn, mode, s);
    match table::int_form(insn.mnemonic) {
        Some(table::IntForm::Cmovcc(cond)) => {
            let before = meaning::run(s.ops, m);
            let (s1, src) = operand::read(insn, 1, s);
            lemma_read(insn, 1, s, m);
            let (s2, dst) = operand::read(insn, 0, s1);
            lemma_read(insn, 0, s1, m);
            lemma_same_guest(insn, 0, before, meaning::run(s1.ops, m));
            meaning::law_select(cond, dst, src, s2, m);
            let (s3, res) = integer::select(cond, dst, src, s2);
            lemma_write_back(insn, res, s, s3, m);
        },
        _ => {},
    }
}

} // verus!
