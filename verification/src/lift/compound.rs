//! What the integer instructions with implied registers, with two results or on single bits do
//! to the guest, by their names.
use crate::insn::Insn;
use crate::ir::{FlagMask, IrOp, Temp, Val};
use crate::lift::condition::Status;
use crate::lift::emit::Emission;
use crate::lift::integer::BinOp;
use crate::lift::meaning::Machine;
use crate::lift::operand::Alu;
use crate::lift::{arithmetic, dispatch, integer, meaning, named, operand, CpuMode};
use crate::mnemonic as mn;
use crate::state::Reg;
use vstd::prelude::*;

verus! {

broadcast use operand::group_failed;

/// The guest with the low bytes of one register written, and the flags `f`.
pub open spec fn writes(
    before: Machine,
    after: Machine,
    reg: Reg,
    v: int,
    size: u8,
    f: Status,
) -> bool {
    after.same_guest(
        Machine {
            regs: before.regs.insert(reg, meaning::written(before.regs[reg], v as u64, size)),
            flags: f,
            ..before
        },
    )
}

/// The guest with the low bytes of the accumulator and of the data register written, and the
/// flags `f`.
pub open spec fn writes_both(
    before: Machine,
    after: Machine,
    lo: int,
    hi: int,
    size: u8,
    f: Status,
) -> bool {
    after.same_guest(
        Machine {
            regs: before.regs.insert(
                Reg::Rax,
                meaning::written(before.regs[Reg::Rax], lo as u64, size),
            ).insert(Reg::Rdx, meaning::written(before.regs[Reg::Rdx], hi as u64, size)),
            flags: f,
            ..before
        },
    )
}

// --- products ---

/// The flags of a product: carry and overflow tell whether it needs the high half.
pub open spec fn product_flags(f: Status, over: bool) -> Status {
    Status { cf: over, of: over, ..f }
}

proof fn lemma_product(
    a: Val,
    b: Val,
    size: u8,
    signed: bool,
    set_flags: FlagMask,
    s: Emission,
    m: Machine,
)
    requires
        s.ok,
        s.next + 2 <= u32::MAX,
        set_flags == FlagMask::none() || set_flags == FlagMask::cf_of(),
    ensures
        ({
            let (s1, lo, hi) = integer::product(a, b, size, signed, set_flags, s);
            let before = meaning::run(s.ops, m);
            let after = meaning::run(s1.ops, m);
            let p = arithmetic::product(before.value(a), before.value(b), size, signed);
            let w = arithmetic::modulus(size);
            let over = if signed {
                !arithmetic::fits(p, size)
            } else {
                p >= w
            };
            &&& s1.ok
            &&& s1.next == s.next + 2
            &&& lo == Val::Temp(s.next)
            &&& hi == Val::Temp((s.next + 1) as u32)
            &&& after.value(lo) == (p % w) as u64
            &&& after.value(hi) == (p / w % w) as u64
            &&& after.regs == before.regs
            &&& after.mem == before.mem
            &&& after.flags == if set_flags == FlagMask::none() {
                before.flags
            } else {
                product_flags(before.flags, over)
            }
            &&& forall|t: Temp| t < s.next ==> #[trigger] after.temps[t] == before.temps[t]
        }),
{
    broadcast use meaning::group_run;

    reveal(meaning::step);
}

proof fn lemma_widening_mul(insn: &Insn, signed: bool, s: Emission, m: Machine)
    requires
        insn.wf(),
        s.ok,
        s.next + 64 <= u32::MAX,
        operand::is_scalar_size(operand::operand_size(insn, 0)),
        integer::widening_mul(insn, signed, s).ok,
    ensures
        ({
            let before = meaning::run(s.ops, m);
            let after = meaning::run(integer::widening_mul(insn, signed, s).ops, m);
            let size = operand::operand_size(insn, 0);
            let w = arithmetic::modulus(size);
            let p = arithmetic::product(
                before.regs[Reg::Rax],
                named::value_of(insn, 0, before),
                size,
                signed,
            );
            let f = product_flags(
                before.flags,
                if signed {
                    !arithmetic::fits(p, size)
                } else {
                    p >= w
                },
            );
            if size == 1 {
                writes(before, after, Reg::Rax, p % 0x1_0000, 2, f)
            } else {
                writes_both(before, after, p % w, p / w % w, size, f)
            }
        }),
{
    broadcast use meaning::group_run;

    let before = meaning::run(s.ops, m);
    let size = operand::operand_size(insn, 0);
    let (s1, a) = operand::reg_read(Reg::Rax, s);
    let (s2, b) = operand::read(insn, 0, s1);
    named::lemma_read(insn, 0, s1, m);
    named::lemma_same_guest(insn, 0, before, meaning::run(s1.ops, m));
    lemma_product(a, b, size, signed, FlagMask::cf_of(), s2, m);
    let (s3, lo, hi) = integer::product(a, b, size, signed, FlagMask::cf_of(), s2);
    if size == 1 {
        let p = arithmetic::product(
            before.regs[Reg::Rax],
            named::value_of(insn, 0, before),
            size,
            signed,
        );
        lemma_joined(lo, hi, p, s3, m);
    }
}

proof fn lemma_halves(p: int)
    ensures
        p % 0x100 + p / 0x100 % 0x100 * 0x100 == p % 0x1_0000,
{
}

proof fn lemma_join(l: u64, h: u64, f: Status)
    requires
        l < 256,
        h < 256,
    ensures
        ({
            let sh = arithmetic::binary(BinOp::Shl, h, 8, f, 2).0;
            arithmetic::binary(BinOp::Or, l, sh, f, 2).0 == l + h * 256
        }),
{
    reveal(arithmetic::binary);
    assert(h << 8u64 == h * 256 && l | (h << 8u64) == l + h * 256) by (bit_vector)
        requires
            l < 256,
            h < 256,
    ;
    assert(arithmetic::amount(8, 2) == 8);
}

/// The halves of a product of bytes side by side in the accumulator.
proof fn lemma_joined(lo: Val, hi: Val, p: int, s: Emission, m: Machine)
    requires
        s.ok,
        s.next + 3 <= u32::MAX,
        lo matches Val::Temp(t) && t < s.next,
        hi matches Val::Temp(t) && t < s.next,
        meaning::run(s.ops, m).value(lo) == (p % 0x100) as u64,
        meaning::run(s.ops, m).value(hi) == (p / 0x100 % 0x100) as u64,
    ensures
        ({
            let (s1, sh) = integer::bin(BinOp::Shl, hi, Val::Imm(8), 2, FlagMask::none(), s);
            let (s2, ax) = integer::bin(BinOp::Or, lo, sh, 2, FlagMask::none(), s1);
            let s3 = s2.push(IrOp::WriteReg { reg: Reg::Rax, src: ax, size: 2 });
            let before = meaning::run(s.ops, m);
            writes(before, meaning::run(s3.ops, m), Reg::Rax, p % 0x1_0000, 2, before.flags)
        }),
{
    let l = (p % 0x100) as u64;
    let h = (p / 0x100 % 0x100) as u64;
    named::lemma_bin(BinOp::Shl, hi, Val::Imm(8), 2, FlagMask::none(), s, m);
    let (s1, sh) = integer::bin(BinOp::Shl, hi, Val::Imm(8), 2, FlagMask::none(), s);
    named::lemma_bin(BinOp::Or, lo, sh, 2, FlagMask::none(), s1, m);
    let (s2, ax) = integer::bin(BinOp::Or, lo, sh, 2, FlagMask::none(), s1);
    lemma_join(l, h, meaning::run(s.ops, m).flags);
    lemma_halves(p);
    assert(meaning::run(s2.ops, m).value(ax) == p % 0x1_0000);
    meaning::lemma_run_push(s2.ops, IrOp::WriteReg { reg: Reg::Rax, src: ax, size: 2 }, m);
    meaning::lemma_step_write(Reg::Rax, ax, 2, meaning::run(s2.ops, m));
}

/// `mul` and `imul` by the names of the instructions: with one operand the whole product goes
/// to the accumulator and the data register, of bytes to the low half of the accumulator; with
/// more, its low half goes to operand 0. `mulx` puts the low half of the product with the data
/// register in operand 1 and then the high half in operand 0, and keeps the flags.
pub proof fn law_products(insn: &Insn, mode: CpuMode, s: Emission, m: Machine)
    requires
        insn.wf(),
        s.ok,
        s.next + 64 <= u32::MAX,
        operand::is_scalar_size(operand::operand_size(insn, 0)),
        dispatch::insn_ir(insn, mode, s).0.ok,
    ensures
        ({
            let before = meaning::run(s.ops, m);
            let after = meaning::run(dispatch::insn_ir(insn, mode, s).0.ops, m);
            let size = operand::operand_size(insn, 0);
            let w = arithmetic::modulus(size);
            let rax = before.regs[Reg::Rax];
            let rdx = before.regs[Reg::Rdx];
            let x = named::value_of(insn, 0, before);
            let y = named::value_of(insn, 1, before);
            let z = named::value_of(insn, 2, before);
            let f = before.flags;
            let name = insn.mnemonic;
            &&& name == mn::MUL ==> {
                let p = (rax as int % w) * (x as int % w);
                if size == 1 {
                    writes(before, after, Reg::Rax, p % 0x1_0000, 2, product_flags(f, p >= w))
                } else {
                    writes_both(before, after, p % w, p / w % w, size, product_flags(f, p >= w))
                }
            }
            &&& name == mn::IMUL && insn.op_count == 1 ==> {
                let p = arithmetic::signed(rax, size) * arithmetic::signed(x, size);
                let f1 = product_flags(f, !arithmetic::fits(p, size));
                if size == 1 {
                    writes(before, after, Reg::Rax, p % 0x1_0000, 2, f1)
                } else {
                    writes_both(before, after, p % w, p / w % w, size, f1)
                }
            }
            &&& name == mn::IMUL && insn.op_count == 2 ==> {
                let p = arithmetic::signed(x, size) * arithmetic::signed(y, size);
                named::gives(
                    insn,
                    before,
                    after,
                    p % w,
                    product_flags(f, !arithmetic::fits(p, size)),
                )
            }
            &&& name == mn::IMUL && insn.op_count == 3 ==> {
                let p = arithmetic::signed(y, size) * arithmetic::signed(z, size);
                named::gives(
                    insn,
                    before,
                    after,
                    p % w,
                    product_flags(f, !arithmetic::fits(p, size)),
                )
            }
            &&& name == mn::MULX && !insn.is_mem(0) ==> {
                let p = (rdx as int % w) * (z as int % w);
                after.same_guest(
                    named::put(
                        insn,
                        0,
                        named::put(insn, 1, before, (p % w) as u64),
                        (p / w % w) as u64,
                    ),
                )
            }
        }),
{
    reveal(arithmetic::product);
    let name = insn.mnemonic;
    let before = meaning::run(s.ops, m);
    let size = operand::operand_size(insn, 0);
    if name == mn::MUL {
        named::lemma_int(insn, mode, s);
        lemma_widening_mul(insn, false, s, m);
    } else if name == mn::IMUL {
        named::lemma_int(insn, mode, s);
        if insn.op_count == 1 {
            lemma_widening_mul(insn, true, s, m);
        } else {
            let first: u32 = if insn.op_count == 2 {
                0
            } else {
                1
            };
            let (s1, a) = operand::read(insn, first, s);
            named::lemma_read(insn, first, s, m);
            let (s2, b) = operand::read(insn, (first + 1) as u32, s1);
            named::lemma_read(insn, (first + 1) as u32, s1, m);
            named::lemma_same_guest(insn, (first + 1) as u32, before, meaning::run(s1.ops, m));
            lemma_product(a, b, size, true, FlagMask::cf_of(), s2, m);
            let (s3, lo, hi) = integer::product(a, b, size, true, FlagMask::cf_of(), s2);
            named::lemma_store(insn, 0, lo, s3, m);
            named::lemma_put_flags(insn, 0, before, meaning::run(s3.ops, m));
        }
    } else if name == mn::MULX {
        broadcast use meaning::group_run;

        named::lemma_int(insn, mode, s);
        let (s1, rdx) = operand::reg_read(Reg::Rdx, s);
        let (s2, src) = operand::read(insn, 2, s1);
        named::lemma_read(insn, 2, s1, m);
        named::lemma_same_guest(insn, 2, before, meaning::run(s1.ops, m));
        lemma_product(rdx, src, size, false, FlagMask::none(), s2, m);
        let (s3, lo, hi) = integer::product(rdx, src, size, false, FlagMask::none(), s2);
        named::lemma_store(insn, 1, lo, s3, m);
        let s4 = operand::store(insn, 1, lo, s3);
        named::lemma_store(insn, 0, hi, s4, m);
        named::lemma_same_guest(insn, 1, before, meaning::run(s3.ops, m));
        let p = arithmetic::product(
            before.regs[Reg::Rdx],
            named::value_of(insn, 2, before),
            size,
            false,
        );
        named::lemma_same_guest(
            insn,
            0,
            meaning::run(s4.ops, m),
            named::put(insn, 1, before, (p % arithmetic::modulus(size)) as u64),
        );
    }
}

// --- quotients ---

/// `div` and `idiv` by the names of the instructions, where they do not trap: the quotient,
/// rounded towards zero, goes to the accumulator and the remainder to the data register; the
/// division of the low half of the accumulator by a byte leaves them in its two low bytes.
pub proof fn law_quotients(insn: &Insn, mode: CpuMode, s: Emission, m: Machine)
    requires
        insn.wf(),
        s.ok,
        s.next + 64 <= u32::MAX,
        operand::is_scalar_size(operand::operand_size(insn, 0)),
        dispatch::insn_ir(insn, mode, s).0.ok,
        insn.mnemonic == mn::DIV || insn.mnemonic == mn::IDIV,
    ensures
        ({
            let before = meaning::run(s.ops, m);
            let after = meaning::run(dispatch::insn_ir(insn, mode, s).0.ops, m);
            let size = operand::operand_size(insn, 0);
            let w = arithmetic::modulus(size);
            let signed = insn.mnemonic == mn::IDIV;
            let rax = before.regs[Reg::Rax];
            let rdx = before.regs[Reg::Rdx];
            let hi = if size == 1 {
                (rax / 0x100) as u64
            } else {
                rdx
            };
            let n = if signed {
                arithmetic::signed(hi, size) * w + rax as int % w
            } else {
                (hi as int % w) * w + rax as int % w
            };
            let x = named::value_of(insn, 0, before);
            let d = if signed {
                arithmetic::signed(x, size)
            } else {
                x as int % w
            };
            let q = arithmetic::quotient(n, d);
            arithmetic::divides(n, d, size, signed) ==> {
                &&& after.mem == before.mem
                &&& size == 1 ==> after.regs =~= before.regs.insert(
                    Reg::Rax,
                    (rax - rax as int % 0x1_0000 + q % 0x100 + (n - q * d) % 0x100 * 0x100) as u64,
                )
                &&& size != 1 ==> writes_both(
                    before,
                    after,
                    q % w,
                    (n - q * d) % w,
                    size,
                    after.flags,
                )
            }
        }),
{
    reveal(arithmetic::dividend);
    reveal(arithmetic::divisor);
    named::lemma_int(insn, mode, s);
    let size = operand::operand_size(insn, 0);
    let signed = insn.mnemonic == mn::IDIV;
    if size == 1 {
        lemma_div_byte(insn, signed, s, m);
    } else {
        lemma_div_wide(insn, signed, s, m);
    }
}

proof fn lemma_div_byte(insn: &Insn, signed: bool, s: Emission, m: Machine)
    requires
        insn.wf(),
        s.ok,
        s.next + 64 <= u32::MAX,
        operand::operand_size(insn, 0) == 1,
        integer::div(insn, signed, s).ok,
    ensures
        ({
            let before = meaning::run(s.ops, m);
            let after = meaning::run(integer::div(insn, signed, s).ops, m);
            let rax = before.regs[Reg::Rax];
            let n = arithmetic::dividend((rax / 0x100) as u64, rax, 1, signed);
            let d = arithmetic::divisor(named::value_of(insn, 0, before), 1, signed);
            let q = arithmetic::quotient(n, d);
            arithmetic::divides(n, d, 1, signed) ==> {
                &&& after.mem == before.mem
                &&& after.regs =~= before.regs.insert(
                    Reg::Rax,
                    (rax - rax as int % 0x1_0000 + q % 0x100 + (n - q * d) % 0x100 * 0x100) as u64,
                )
            }
        }),
{
    broadcast use meaning::group_run;

    let before = meaning::run(s.ops, m);
    let rax = before.regs[Reg::Rax];
    let (s1, acc) = operand::reg_read(Reg::Rax, s);
    let (s2, hi) = operand::alu(Alu::Shr, acc, Val::Imm(8), s1);
    meaning::lemma_mask(rax);
    let (s3, divisor) = operand::read(insn, 0, s2);
    named::lemma_read(insn, 0, s2, m);
    named::lemma_same_guest(insn, 0, before, meaning::run(s2.ops, m));
    lemma_division(hi, acc, divisor, 1, signed, s3, m);
    let (s4, quot, rem) = integer::division(hi, acc, divisor, 1, signed, s3);
    let s5 = s4.push(IrOp::WriteReg { reg: Reg::Rax, src: quot, size: 1 });
    meaning::law_high_byte_write(Reg::Rax, rem, s5, m);
    let n = arithmetic::dividend((rax / 0x100) as u64, rax, 1, signed);
    let d = arithmetic::divisor(named::value_of(insn, 0, before), 1, signed);
    let q = arithmetic::quotient(n, d);
    lemma_two_bytes(rax as int, q % 0x100, (n - q * d) % 0x100);
}

proof fn lemma_two_bytes(a: int, q: int, r: int)
    requires
        0 <= a < meaning::full(),
        0 <= q < 0x100,
        0 <= r < 0x100,
    ensures
        ({
            let b = a - a % 0x100 + q;
            &&& 0 <= b < meaning::full()
            &&& b - b / 0x100 % 0x100 * 0x100 + r * 0x100 == a - a % 0x1_0000 + q + r * 0x100
        }),
{
}

proof fn lemma_div_wide(insn: &Insn, signed: bool, s: Emission, m: Machine)
    requires
        insn.wf(),
        s.ok,
        s.next + 64 <= u32::MAX,
        operand::operand_size(insn, 0) != 1,
        integer::div(insn, signed, s).ok,
    ensures
        ({
            let before = meaning::run(s.ops, m);
            let after = meaning::run(integer::div(insn, signed, s).ops, m);
            let size = operand::operand_size(insn, 0);
            let w = arithmetic::modulus(size);
            let n = arithmetic::dividend(
                before.regs[Reg::Rdx],
                before.regs[Reg::Rax],
                size,
                signed,
            );
            let d = arithmetic::divisor(named::value_of(insn, 0, before), size, signed);
            let q = arithmetic::quotient(n, d);
            arithmetic::divides(n, d, size, signed) ==> writes_both(
                before,
                after,
                q % w,
                (n - q * d) % w,
                size,
                after.flags,
            )
        }),
{
    broadcast use meaning::group_run;

    let before = meaning::run(s.ops, m);
    let size = operand::operand_size(insn, 0);
    let (s1, hi) = operand::reg_read(Reg::Rdx, s);
    let (s2, lo) = operand::reg_read(Reg::Rax, s1);
    let (s3, divisor) = operand::read(insn, 0, s2);
    named::lemma_read(insn, 0, s2, m);
    named::lemma_same_guest(insn, 0, before, meaning::run(s2.ops, m));
    lemma_division(hi, lo, divisor, size, signed, s3, m);
}

proof fn lemma_division(
    hi: Val,
    lo: Val,
    divisor: Val,
    size: u8,
    signed: bool,
    s: Emission,
    m: Machine,
)
    requires
        s.ok,
        s.next + 2 <= u32::MAX,
    ensures
        ({
            let (s1, quot, rem) = integer::division(hi, lo, divisor, size, signed, s);
            let before = meaning::run(s.ops, m);
            let after = meaning::run(s1.ops, m);
            let n = arithmetic::dividend(before.value(hi), before.value(lo), size, signed);
            let d = arithmetic::divisor(before.value(divisor), size, signed);
            let q = arithmetic::quotient(n, d);
            let w = arithmetic::modulus(size);
            &&& s1.ok
            &&& s1.next == s.next + 2
            &&& quot == Val::Temp(s.next)
            &&& rem == Val::Temp((s.next + 1) as u32)
            &&& arithmetic::divides(n, d, size, signed) ==> {
                &&& after.value(quot) == (q % w) as u64
                &&& after.value(rem) == ((n - q * d) % w) as u64
                &&& after.regs == before.regs
                &&& after.mem == before.mem
            }
        }),
{
    broadcast use meaning::group_run;

    reveal(meaning::step);
}

} // verus!
