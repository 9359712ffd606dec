//! What the integer instructions that extend, exchange, scan and pick bits do to the guest, by
//! their names.
use crate::insn::Insn;
use crate::ir::{BitScanOp, BmiOp, BtOp, FlagMask, IrOp, RmwOp, Temp, Val};
use crate::lift::condition::Status;
use crate::lift::emit::Emission;
use crate::lift::integer::BinOp;
use crate::lift::meaning::Machine;
use crate::lift::operand::Alu;
use crate::lift::{
    arithmetic, compound, dispatch, integer, meaning, named, operand, table, CpuMode,
};
use crate::mnemonic as mn;
use crate::op_kind;
use crate::state::Reg;
use vstd::arithmetic::power2::pow2;
use vstd::prelude::*;

verus! {

broadcast use operand::group_failed;

// --- the accumulator ---

proof fn lemma_sign(x: u64, size: u8, f: Status)
    requires
        size == 2 || size == 4 || size == 8,
    ensures
        arithmetic::binary(BinOp::Sar, x, integer::bit_index_mask(size), f, size).0 == if arithmetic::top(
            x,
            size,
        ) {
            arithmetic::modulus(size) - 1
        } else {
            0
        },
{
    reveal(arithmetic::binary);
    vstd::arithmetic::power2::lemma2_to64();
    vstd::arithmetic::power2::lemma2_to64_rest();
    let n = arithmetic::amount(integer::bit_index_mask(size), size);
    assert(n == arithmetic::width(size) - 1);
    assert(2 * pow2(n as nat) == arithmetic::modulus(size));
}

/// `cbw`, `cwde` and `cdqe` extend the accumulator with its sign to twice its width; `cwd`,
/// `cdq` and `cqo` fill the data register with the sign of the accumulator.
pub proof fn law_accumulator_extended(insn: &Insn, mode: CpuMode, s: Emission, m: Machine)
    requires
        s.ok,
        s.next + 64 <= u32::MAX,
    ensures
        ({
            let before = meaning::run(s.ops, m);
            let after = meaning::run(dispatch::insn_ir(insn, mode, s).0.ops, m);
            let rax = before.regs[Reg::Rax];
            let f = before.flags;
            let name = insn.mnemonic;
            &&& name == mn::CBW ==> compound::writes(
                before,
                after,
                Reg::Rax,
                arithmetic::signed(rax, 1) % meaning::full(),
                2,
                f,
            )
            &&& name == mn::CWDE ==> compound::writes(
                before,
                after,
                Reg::Rax,
                arithmetic::signed(rax, 2) % meaning::full(),
                4,
                f,
            )
            &&& name == mn::CDQE ==> compound::writes(
                before,
                after,
                Reg::Rax,
                arithmetic::signed(rax, 4) % meaning::full(),
                8,
                f,
            )
            &&& name == mn::CWD ==> compound::writes(
                before,
                after,
                Reg::Rdx,
                if rax as int % 0x1_0000 >= 0x8000 {
                    0xffff
                } else {
                    0
                },
                2,
                f,
            )
            &&& name == mn::CDQ ==> compound::writes(
                before,
                after,
                Reg::Rdx,
                if rax as int % 0x1_0000_0000 >= 0x8000_0000 {
                    0xffff_ffff
                } else {
                    0
                },
                4,
                f,
            )
            &&& name == mn::CQO ==> compound::writes(
                before,
                after,
                Reg::Rdx,
                if rax >= 0x8000_0000_0000_0000 {
                    0xffff_ffff_ffff_ffff
                } else {
                    0
                },
                8,
                f,
            )
        }),
{
    let name = insn.mnemonic;
    if name == mn::CBW || name == mn::CWDE || name == mn::CDQE {
        named::lemma_int(insn, mode, s);
        lemma_extend(1, 2, s, m);
        lemma_extend(2, 4, s, m);
        lemma_extend(4, 8, s, m);
    } else if name == mn::CWD || name == mn::CDQ || name == mn::CQO {
        named::lemma_int(insn, mode, s);
        lemma_spread(2, s, m);
        lemma_spread(4, s, m);
        lemma_spread(8, s, m);
        let rax = meaning::run(s.ops, m).regs[Reg::Rax];
        assert(rax as int % meaning::full() == rax);
    }
}

proof fn lemma_extend(from: u8, to: u8, s: Emission, m: Machine)
    requires
        s.ok,
        s.next + 64 <= u32::MAX,
    ensures
        ({
            let before = meaning::run(s.ops, m);
            compound::writes(
                before,
                meaning::run(integer::cbw_family(from, to, s).ops, m),
                Reg::Rax,
                arithmetic::signed(before.regs[Reg::Rax], from) % meaning::full(),
                to,
                before.flags,
            )
        }),
{
    broadcast use meaning::group_run;

    let (s1, acc) = operand::reg_read(Reg::Rax, s);
    lemma_sext(acc, from, s1, m);
}

proof fn lemma_spread(size: u8, s: Emission, m: Machine)
    requires
        s.ok,
        s.next + 64 <= u32::MAX,
        size == 2 || size == 4 || size == 8,
    ensures
        ({
            let before = meaning::run(s.ops, m);
            compound::writes(
                before,
                meaning::run(integer::sign_into_dx(size, s).ops, m),
                Reg::Rdx,
                if arithmetic::top(before.regs[Reg::Rax], size) {
                    arithmetic::modulus(size) - 1
                } else {
                    0
                },
                size,
                before.flags,
            )
        }),
{
    broadcast use meaning::group_run;

    let before = meaning::run(s.ops, m);
    lemma_sign(before.regs[Reg::Rax], size, before.flags);
    let (s1, acc) = operand::reg_read(Reg::Rax, s);
    let n = Val::Imm(integer::bit_index_mask(size));
    named::lemma_bin(BinOp::Sar, acc, n, size, FlagMask::none(), s1, m);
}

proof fn lemma_sext(a: Val, from: u8, s: Emission, m: Machine)
    requires
        s.ok,
        s.next + 1 <= u32::MAX,
    ensures
        ({
            let s1 = s.def(IrOp::Sext { dst: s.next, a, from });
            let before = meaning::run(s.ops, m);
            &&& meaning::quiet(s, s1, m)
            &&& s1.next == s.next + 1
            &&& s1.ok
            &&& meaning::run(s1.ops, m).temps[s.next] == arithmetic::signed(
                before.value(a),
                from,
            ) % meaning::full()
        }),
{
    broadcast use meaning::group_run;

    reveal(meaning::step);
}

// --- exchanges ---

/// What `cmpxchg` emits.
pub open spec fn compare_exchange(insn: &Insn, s: Emission) -> Emission {
    integer::cmpxchg(insn, s)
}

/// `xchg` gives each operand what the other held, `xadd` the sum to operand 0 and what that
/// held to operand 1. `cmpxchg` compares the accumulator with what memory holds: where they
/// are equal memory gets operand 1; the accumulator gets what memory held.
pub proof fn law_exchanges(insn: &Insn, mode: CpuMode, s: Emission, m: Machine)
    requires
        insn.wf(),
        s.ok,
        s.next + 64 <= u32::MAX,
        operand::is_scalar_size(operand::operand_size(insn, 0)),
        operand::operand_size(insn, 1) == operand::operand_size(insn, 0),
        dispatch::insn_ir(insn, mode, s).0.ok,
    ensures
        ({
            let before = meaning::run(s.ops, m);
            let after = meaning::run(dispatch::insn_ir(insn, mode, s).0.ops, m);
            let x = named::value_of(insn, 0, before);
            let y = named::value_of(insn, 1, before);
            let size = operand::operand_size(insn, 0);
            let w = arithmetic::modulus(size);
            let name = insn.mnemonic;
            &&& name == mn::XCHG && !insn.is_mem(1) ==> after.same_guest(
                named::put(insn, 1, named::put(insn, 0, before, y), x),
            )
            &&& name == mn::XCHG && insn.is_mem(1) && !insn.is_mem(0) ==> after.same_guest(
                named::put(insn, 0, named::put(insn, 1, before, x), y),
            )
            &&& name == mn::XADD && !insn.is_mem(1) && !insn.is_mem(0) ==> after.same_guest(
                Machine {
                    flags: arithmetic::sum_status(x, y, 0, size),
                    ..named::put(
                        insn,
                        0,
                        named::put(insn, 1, before, x),
                        ((x + y) % w) as u64,
                    )
                },
            )
            &&& name == mn::XADD && !insn.is_mem(1) && insn.is_mem(0) ==> after.same_guest(
                Machine {
                    flags: arithmetic::sum_status(x, y, 0, size),
                    ..named::put(
                        insn,
                        1,
                        named::put(insn, 0, before, ((x + y) % w) as u64),
                        x,
                    )
                },
            )
            &&& name == mn::CMPXCHG ==> {
                let acc = before.regs[Reg::Rax] as int % w;
                &&& insn.is_mem(0)
                &&& after.mem == if acc == x {
                    named::put(insn, 0, before, y).mem
                } else {
                    before.mem
                }
                &&& after.regs == before.regs.insert(
                    Reg::Rax,
                    meaning::written(before.regs[Reg::Rax], x, size),
                )
                &&& after.flags == arithmetic::difference_status(acc as u64, x, 0, size)
            }
        }),
{
    let name = insn.mnemonic;
    if name == mn::XCHG {
        named::lemma_int(insn, mode, s);
        lemma_xchg(insn, s, m);
    } else if name == mn::XADD {
        named::lemma_int(insn, mode, s);
        if !insn.is_mem(1) {
            lemma_xadd(insn, s, m);
        }
    } else if name == mn::CMPXCHG {
        named::lemma_int(insn, mode, s);
        lemma_compare_exchange(insn, s, m);
    }
}

proof fn lemma_xchg(insn: &Insn, s: Emission, m: Machine)
    requires
        insn.wf(),
        s.ok,
        s.next + 64 <= u32::MAX,
        operand::is_scalar_size(operand::operand_size(insn, 0)),
        operand::operand_size(insn, 1) == operand::operand_size(insn, 0),
        integer::xchg(insn, s).ok,
    ensures
        ({
            let before = meaning::run(s.ops, m);
            let after = meaning::run(integer::xchg(insn, s).ops, m);
            let x = named::value_of(insn, 0, before);
            let y = named::value_of(insn, 1, before);
            &&& !insn.is_mem(1) ==> after.same_guest(
                named::put(insn, 1, named::put(insn, 0, before, y), x),
            )
            &&& insn.is_mem(1) && !insn.is_mem(0) ==> after.same_guest(
                named::put(insn, 0, named::put(insn, 1, before, x), y),
            )
        }),
{
    let before = meaning::run(s.ops, m);
    let x = named::value_of(insn, 0, before);
    let y = named::value_of(insn, 1, before);
    if insn.is_mem(0) || insn.is_mem(1) {
        let reg: u32 = if insn.is_mem(0) {
            1
        } else {
            0
        };
        let at: u32 = if insn.is_mem(0) {
            0
        } else {
            1
        };
        let size = operand::operand_size(insn, reg);
        let (s1, addr) = operand::address(insn, s);
        named::lemma_address(insn, s, m);
        let (s2, value) = operand::read(insn, reg, s1);
        named::lemma_read(insn, reg, s1, m);
        named::lemma_same_guest(insn, reg, before, meaning::run(s1.ops, m));
        named::lemma_rmw(addr, value, size, RmwOp::Xchg, s2, m);
        let (s3, old) = integer::rmw(addr, value, size, RmwOp::Xchg, s2);
        named::lemma_store(insn, reg, old, s3, m);
        let mid = named::put(insn, at, before, named::value_of(insn, reg, before));
        assert(meaning::run(s3.ops, m).same_guest(mid)) by {
            reveal(named::put);
        }
        assert(meaning::run(s3.ops, m).value(old) == named::value_of(insn, at, before)) by {
            reveal(named::value_of);
        }
        named::lemma_same_guest(insn, reg, meaning::run(s3.ops, m), mid);
    } else {
        let (s1, a) = operand::read(insn, 0, s);
        named::lemma_read(insn, 0, s, m);
        let (s2, b) = operand::read(insn, 1, s1);
        named::lemma_read(insn, 1, s1, m);
        named::lemma_same_guest(insn, 1, before, meaning::run(s1.ops, m));
        let s5 = operand::store(insn, 0, b, s2);
        assert(integer::xchg(insn, s) == operand::store(insn, 1, a, s5)) by {
            reveal(operand::store);
            reveal(operand::target);
        }
        named::lemma_store(insn, 0, b, s2, m);
        named::lemma_store(insn, 1, a, s5, m);
        named::lemma_same_guest(insn, 0, before, meaning::run(s2.ops, m));
        named::lemma_same_guest(
            insn,
            1,
            meaning::run(s5.ops, m),
            named::put(insn, 0, before, y),
        );
    }
}

proof fn lemma_xadd(insn: &Insn, s: Emission, m: Machine)
    requires
        insn.wf(),
        s.ok,
        s.next + 64 <= u32::MAX,
        operand::is_scalar_size(operand::operand_size(insn, 0)),
        !insn.is_mem(1),
        integer::xadd(insn, s).ok,
    ensures
        ({
            let before = meaning::run(s.ops, m);
            let after = meaning::run(integer::xadd(insn, s).ops, m);
            let x = named::value_of(insn, 0, before);
            let y = named::value_of(insn, 1, before);
            let size = operand::operand_size(insn, 0);
            let sum = ((x + y) % arithmetic::modulus(size)) as u64;
            &&& after.flags == arithmetic::sum_status(x, y, 0, size)
            &&& !insn.is_mem(0) ==> {
                let want = named::put(insn, 0, named::put(insn, 1, before, x), sum);
                after.regs == want.regs && after.mem == want.mem
            }
            &&& insn.is_mem(0) ==> {
                let want = named::put(insn, 1, named::put(insn, 0, before, sum), x);
                after.regs == want.regs && after.mem == want.mem
            }
        }),
{
    let before = meaning::run(s.ops, m);
    let size = operand::operand_size(insn, 0);
    let x = named::value_of(insn, 0, before);
    let y = named::value_of(insn, 1, before);
    let sum = ((x + y) % arithmetic::modulus(size)) as u64;
    named::lemma_cut(x + y, size);
    assert({
        let (r, f) = arithmetic::binary(BinOp::Add, x, y, before.flags, size);
        r == sum && arithmetic::merged(before.flags, f, FlagMask::all())
            == arithmetic::sum_status(x, y, 0, size)
    }) by {
        reveal(arithmetic::binary);
    }
    let (s1, src) = operand::read(insn, 1, s);
    named::lemma_read(insn, 1, s, m);
    if insn.is_mem(0) {
        let (s2, addr) = operand::address(insn, s1);
        named::lemma_address(insn, s1, m);
        named::lemma_same_guest(insn, 0, before, meaning::run(s1.ops, m));
        named::lemma_rmw(addr, src, size, RmwOp::Add, s2, m);
        let (s3, old) = integer::rmw(addr, src, size, RmwOp::Add, s2);
        named::lemma_bin(BinOp::Add, old, src, size, FlagMask::all(), s3, m);
        let (s4, res) = integer::bin(BinOp::Add, old, src, size, FlagMask::all(), s3);
        named::lemma_store(insn, 1, old, s4, m);
        let mid = named::put(insn, 0, before, sum);
        assert(meaning::run(s4.ops, m).regs == mid.regs && meaning::run(s4.ops, m).mem == mid.mem
            && meaning::run(s4.ops, m).value(old) == x) by {
            reveal(named::put);
            reveal(named::value_of);
        }
        named::lemma_put_flags(insn, 1, meaning::run(s4.ops, m), mid);
    } else {
        let (s2, old) = operand::read(insn, 0, s1);
        named::lemma_read(insn, 0, s1, m);
        named::lemma_same_guest(insn, 0, before, meaning::run(s1.ops, m));
        named::lemma_bin(BinOp::Add, old, src, size, FlagMask::all(), s2, m);
        let (s3, res) = integer::bin(BinOp::Add, old, src, size, FlagMask::all(), s2);
        named::lemma_store(insn, 1, old, s3, m);
        let s4 = operand::store(insn, 1, old, s3);
        named::lemma_store(insn, 0, res, s4, m);
        named::lemma_put_flags(insn, 1, before, meaning::run(s3.ops, m));
        named::lemma_put_flags(
            insn,
            0,
            meaning::run(s4.ops, m),
            named::put(insn, 1, before, x),
        );
    }
}

proof fn lemma_compare_exchange(insn: &Insn, s: Emission, m: Machine)
    requires
        insn.wf(),
        s.ok,
        s.next + 64 <= u32::MAX,
        operand::is_scalar_size(operand::operand_size(insn, 0)),
        compare_exchange(insn, s).ok,
    ensures
        ({
            let before = meaning::run(s.ops, m);
            let after = meaning::run(compare_exchange(insn, s).ops, m);
            let x = named::value_of(insn, 0, before);
            let y = named::value_of(insn, 1, before);
            let size = operand::operand_size(insn, 0);
            let acc = before.regs[Reg::Rax] as int % arithmetic::modulus(size);
            &&& insn.is_mem(0)
            &&& after.mem == if acc == x {
                named::put(insn, 0, before, y).mem
            } else {
                before.mem
            }
            &&& after.regs == before.regs.insert(
                Reg::Rax,
                meaning::written(before.regs[Reg::Rax], x, size),
            )
            &&& after.flags == arithmetic::difference_status(acc as u64, x, 0, size)
        }),
{
    broadcast use meaning::group_run;

    let before = meaning::run(s.ops, m);
    let size = operand::operand_size(insn, 0);
    let x = named::value_of(insn, 0, before);
    let rax = before.regs[Reg::Rax];
    let (s1, addr) = operand::address(insn, s);
    named::lemma_address(insn, s, m);
    let (s2, src) = operand::read(insn, 1, s1);
    named::lemma_read(insn, 1, s1, m);
    named::lemma_same_guest(insn, 1, before, meaning::run(s1.ops, m));
    let (s3, acc) = operand::reg_read(Reg::Rax, s2);
    let (s4, expected) = operand::alu(Alu::And, acc, Val::Imm(operand::size_mask(size)), s3);
    named::lemma_size_mask(rax, size);
    lemma_cas(addr, expected, src, size, s4, m);
    let s5 = s4.def(IrOp::AtomicCas { old: s4.next, addr, expected, src, size });
    let old = Val::Temp(s4.next);
    named::lemma_bin(BinOp::Sub, expected, old, size, FlagMask::all(), s5, m);
    reveal(named::put);
    reveal(named::value_of);
    reveal(arithmetic::binary);
}

proof fn lemma_cas(addr: Val, expected: Val, src: Val, size: u8, s: Emission, m: Machine)
    requires
        s.ok,
        s.next + 1 <= u32::MAX,
    ensures
        ({
            let s1 = s.def(IrOp::AtomicCas { old: s.next, addr, expected, src, size });
            let before = meaning::run(s.ops, m);
            let after = meaning::run(s1.ops, m);
            let x = meaning::load(before.mem, before.value(addr), size as nat) as u64;
            &&& s1.ok
            &&& s1.next == s.next + 1
            &&& after.temps[s.next] == x
            &&& after.regs == before.regs
            &&& after.flags == before.flags
            &&& after.mem == if x == before.value(expected) {
                meaning::stored(
                    before.mem,
                    before.value(addr),
                    before.value(src) as int,
                    size as nat,
                )
            } else {
                before.mem
            }
            &&& forall|t: Temp| t < s.next ==> #[trigger] after.temps[t] == before.temps[t]
        }),
{
    broadcast use meaning::group_run;

    reveal(meaning::step);
}

// --- bits ---

proof fn lemma_popcnt(src: Val, size: u8, s: Emission, m: Machine)
    requires
        s.ok,
        s.next + 1 <= u32::MAX,
    ensures
        ({
            let s1 = s.def(IrOp::Popcnt { dst: s.next, src, size });
            let before = meaning::run(s.ops, m);
            let after = meaning::run(s1.ops, m);
            let v = arithmetic::low(before.value(src), size);
            &&& s1.ok
            &&& s1.next == s.next + 1
            &&& after.temps[s.next] == arithmetic::ones(v) as u64
            &&& after.regs == before.regs
            &&& after.mem == before.mem
            &&& after.flags == (Status {
                cf: false,
                pf: false,
                af: false,
                zf: v == 0,
                sf: false,
                of: false,
            })
        }),
{
    broadcast use meaning::group_run;

    reveal(meaning::step);
}

proof fn lemma_crc(crc: Val, src: Val, bytes: u8, s: Emission, m: Machine)
    requires
        s.ok,
        s.next + 1 <= u32::MAX,
    ensures
        ({
            let s1 = s.def(IrOp::Crc32 { dst: s.next, crc, src, bytes });
            let before = meaning::run(s.ops, m);
            &&& s1.ok
            &&& s1.next == s.next + 1
            &&& meaning::quiet(s, s1, m)
            &&& meaning::run(s1.ops, m).temps[s.next] == arithmetic::checked(
                arithmetic::low(before.value(crc), 4) as u32,
                before.value(src) as int,
                (8 * bytes) as nat,
            ) as u64
        }),
{
    broadcast use meaning::group_run;

    reveal(meaning::step);
}

proof fn lemma_scan(op: BitScanOp, src: Val, old: Val, size: u8, s: Emission, m: Machine)
    requires
        s.ok,
        s.next + 1 <= u32::MAX,
    ensures
        ({
            let s1 = s.def(IrOp::BitScan { dst: s.next, src, old, size, op });
            let before = meaning::run(s.ops, m);
            let after = meaning::run(s1.ops, m);
            let v = arithmetic::low(before.value(src), size);
            let r = arithmetic::scanned(op, before.value(src), before.value(old), size);
            &&& s1.ok
            &&& s1.next == s.next + 1
            &&& after.temps[s.next] == r
            &&& after.regs == before.regs
            &&& after.mem == before.mem
            &&& op is Bsf || op is Bsr ==> after.flags.zf == (v == 0)
            &&& op is Tzcnt || op is Lzcnt ==> after.flags.zf == (r == 0) && after.flags.cf == (v
                == 0)
        }),
{
    broadcast use meaning::group_run;

    reveal(meaning::step);
}

/// `popcnt` counts the bits that are set; `crc32` goes on with the checksum in operand 0 by the
/// bytes of operand 1; `bsf` and `tzcnt` find the lowest bit that is set, `bsr` the highest, and
/// `lzcnt` counts the bits above that. Where there is none `bsf` and `bsr` keep operand 0, and
/// the others give the width.
pub proof fn law_counts(insn: &Insn, mode: CpuMode, s: Emission, m: Machine)
    requires
        insn.wf(),
        s.ok,
        s.next + 64 <= u32::MAX,
        operand::is_scalar_size(operand::operand_size(insn, 0)),
        dispatch::insn_ir(insn, mode, s).0.ok,
    ensures
        ({
            let before = meaning::run(s.ops, m);
            let after = meaning::run(dispatch::insn_ir(insn, mode, s).0.ops, m);
            let x = named::value_of(insn, 0, before);
            let size = operand::operand_size(insn, 0);
            let y = named::value_of(insn, 1, before);
            let v = y as int % arithmetic::modulus(size);
            let bits = arithmetic::width(size);
            let g = after.flags;
            let name = insn.mnemonic;
            &&& name == mn::POPCNT ==> named::gives(
                insn,
                before,
                after,
                arithmetic::ones(v) as u64 as int,
                (Status { cf: false, pf: false, af: false, zf: v == 0, sf: false, of: false }),
            )
            &&& name == mn::CRC32 ==> named::gives(
                insn,
                before,
                after,
                arithmetic::checked(
                    (x as int % 0x1_0000_0000) as u32,
                    y as int,
                    (8 * operand::operand_size(insn, 1)) as nat,
                ) as int,
                before.flags,
            )
            &&& name == mn::BSF ==> named::gives(
                insn,
                before,
                after,
                if v == 0 {
                    x as int
                } else {
                    arithmetic::lowest(v) as u64 as int
                },
                g,
            ) && g.zf == (v == 0)
            &&& name == mn::BSR ==> named::gives(
                insn,
                before,
                after,
                if v == 0 {
                    x as int
                } else {
                    arithmetic::highest(v) as u64 as int
                },
                g,
            ) && g.zf == (v == 0)
            &&& name == mn::TZCNT ==> {
                let r = if v == 0 {
                    bits
                } else {
                    arithmetic::lowest(v) as u64 as int
                };
                named::gives(insn, before, after, r, g) && g.cf == (v == 0) && g.zf == (r == 0)
            }
            &&& name == mn::LZCNT ==> {
                let r = if v == 0 {
                    bits
                } else {
                    (bits - 1 - arithmetic::highest(v)) as u64 as int
                };
                named::gives(insn, before, after, r, g) && g.cf == (v == 0) && g.zf == (r == 0)
            }
        }),
{
    let name = insn.mnemonic;
    let before = meaning::run(s.ops, m);
    let size = operand::operand_size(insn, 0);
    if name == mn::POPCNT {
        named::lemma_int(insn, mode, s);
        let (s1, src) = operand::read(insn, 1, s);
        named::lemma_read(insn, 1, s, m);
        lemma_popcnt(src, size, s1, m);
        let s2 = s1.def(IrOp::Popcnt { dst: s1.next, src, size });
        named::lemma_store(insn, 0, Val::Temp(s1.next), s2, m);
        named::lemma_put_flags(insn, 0, before, meaning::run(s2.ops, m));
    } else if name == mn::CRC32 {
        named::lemma_int(insn, mode, s);
        let (s1, crc) = operand::read(insn, 0, s);
        named::lemma_read(insn, 0, s, m);
        let (s2, src) = operand::read(insn, 1, s1);
        named::lemma_read(insn, 1, s1, m);
        named::lemma_same_guest(insn, 1, before, meaning::run(s1.ops, m));
        let bytes = operand::operand_size(insn, 1);
        lemma_crc(crc, src, bytes, s2, m);
        let s3 = s2.def(IrOp::Crc32 { dst: s2.next, crc, src, bytes });
        named::lemma_write_back(insn, Val::Temp(s2.next), s, s3, m);
    } else if name == mn::BSF || name == mn::BSR || name == mn::TZCNT || name == mn::LZCNT {
        named::lemma_int(insn, mode, s);
        let (s1, src) = operand::read(insn, 1, s);
        named::lemma_read(insn, 1, s, m);
        let (s2, old) = operand::read(insn, 0, s1);
        named::lemma_read(insn, 0, s1, m);
        named::lemma_same_guest(insn, 0, before, meaning::run(s1.ops, m));
        match table::int_form(name) {
            Some(table::IntForm::BitScan(op)) => {
                lemma_scan(op, src, old, size, s2, m);
                let s3 = s2.def(IrOp::BitScan { dst: s2.next, src, old, size, op });
                named::lemma_store(insn, 0, Val::Temp(s2.next), s3, m);
                named::lemma_put_flags(insn, 0, before, meaning::run(s3.ops, m));
            },
            _ => {},
        }
    }
}

proof fn lemma_bmi(op: BmiOp, a: Val, b: Val, size: u8, s: Emission, m: Machine)
    requires
        s.ok,
        s.next + 1 <= u32::MAX,
    ensures
        ({
            let s1 = s.def(IrOp::Bmi { dst: s.next, a, b, size, op });
            let before = meaning::run(s.ops, m);
            let after = meaning::run(s1.ops, m);
            let r = arithmetic::manipulated(op, before.value(a), before.value(b), size);
            let v = arithmetic::low(before.value(a), size);
            &&& s1.ok
            &&& s1.next == s.next + 1
            &&& after.temps[s.next] == r as u64
            &&& after.regs == before.regs
            &&& after.mem == before.mem
            &&& op is Pdep || op is Pext ==> after.flags == before.flags
            &&& !(op is Pdep || op is Pext) ==> after.flags.zf == (r == 0) && !after.flags.of
            &&& op is Blsi ==> after.flags.cf == (v != 0)
            &&& op is Blsr || op is Blsmsk ==> after.flags.cf == (v == 0)
            &&& op is Bzhi ==> after.flags.cf == (before.value(b) as int % 256
                >= arithmetic::width(size))
            &&& op is Andn || op is Bextr ==> !after.flags.cf
        }),
{
    broadcast use meaning::group_run;

    reveal(meaning::step);
}

/// The bit-manipulation instructions by their names, on operand 1 and, where they have it,
/// operand 2.
pub proof fn law_manipulations(insn: &Insn, mode: CpuMode, s: Emission, m: Machine)
    requires
        insn.wf(),
        s.ok,
        s.next + 64 <= u32::MAX,
        operand::is_scalar_size(operand::operand_size(insn, 0)),
        dispatch::insn_ir(insn, mode, s).0.ok,
    ensures
        ({
            let before = meaning::run(s.ops, m);
            let after = meaning::run(dispatch::insn_ir(insn, mode, s).0.ops, m);
            let x = named::value_of(insn, 1, before);
            let y = named::value_of(insn, 2, before);
            let size = operand::operand_size(insn, 0);
            let w = arithmetic::modulus(size);
            let v = x as int % w;
            let bits = arithmetic::width(size);
            let less = ((x - 1) % meaning::full()) as u64;
            let g = after.flags;
            let name = insn.mnemonic;
            let three = insn.op_count >= 3;
            &&& name == mn::ANDN && three ==> {
                let r = (!x & y) as int % w;
                named::gives(insn, before, after, r, g) && g.zf == (r == 0) && !g.cf && !g.of
            }
            &&& name == mn::BLSI ==> {
                let r = (x & (-x % meaning::full()) as u64) as int % w;
                named::gives(insn, before, after, r, g) && g.zf == (r == 0) && g.cf == (v != 0)
            }
            &&& name == mn::BLSR ==> {
                let r = (x & less) as int % w;
                named::gives(insn, before, after, r, g) && g.zf == (r == 0) && g.cf == (v == 0)
            }
            &&& name == mn::BLSMSK ==> {
                let r = (x ^ less) as int % w;
                named::gives(insn, before, after, r, g) && g.cf == (v == 0)
            }
            &&& name == mn::BEXTR && three ==> {
                let r = v / pow2((y as int % 256) as nat) as int % pow2(
                    (y as int / 256 % 256) as nat,
                ) as int;
                named::gives(insn, before, after, r, g) && g.zf == (r == 0)
            }
            &&& name == mn::BZHI && three ==> {
                let i = y as int % 256;
                let r = if i < bits {
                    v % pow2(i as nat) as int
                } else {
                    v
                };
                named::gives(insn, before, after, r, g) && g.zf == (r == 0) && g.cf == (i >= bits)
            }
            &&& name == mn::PDEP && three ==> named::gives(
                insn,
                before,
                after,
                arithmetic::deposited(v, y as int % w),
                before.flags,
            )
            &&& name == mn::PEXT && three ==> named::gives(
                insn,
                before,
                after,
                arithmetic::extracted(v, y as int % w),
                before.flags,
            )
        }),
{
    let name = insn.mnemonic;
    if name == mn::ANDN || name == mn::BLSI || name == mn::BLSR || name == mn::BLSMSK || name
        == mn::BEXTR || name == mn::BZHI || name == mn::PDEP || name == mn::PEXT {
        named::lemma_int(insn, mode, s);
        let before = meaning::run(s.ops, m);
        let size = operand::operand_size(insn, 0);
        let (s1, a) = operand::read(insn, 1, s);
        named::lemma_read(insn, 1, s, m);
        let (s2, b) = if insn.op_count >= 3 {
            operand::read(insn, 2, s1)
        } else {
            (s1, Val::Imm(0))
        };
        if insn.op_count >= 3 {
            named::lemma_read(insn, 2, s1, m);
            named::lemma_same_guest(insn, 2, before, meaning::run(s1.ops, m));
        }
        match table::int_form(name) {
            Some(table::IntForm::Bmi(op)) => {
                lemma_bmi(op, a, b, size, s2, m);
                let s3 = s2.def(IrOp::Bmi { dst: s2.next, a, b, size, op });
                named::lemma_store(insn, 0, Val::Temp(s2.next), s3, m);
                named::lemma_put_flags(insn, 0, before, meaning::run(s3.ops, m));
            },
            _ => {},
        }
    }
}

/// A value with bit `i` set, cleared or turned, by the name of the instruction.
pub open spec fn bit_changed(name: u16, v: int, i: int) -> int {
    let one = pow2(i as nat) as int;
    let set = v / one % 2 == 1;
    if name == mn::BTS && !set || name == mn::BTC && !set {
        v + one
    } else if name == mn::BTR && set || name == mn::BTC && set {
        v - one
    } else {
        v
    }
}

proof fn lemma_bt(op: BtOp, a: Val, bit: Val, size: u8, s: Emission, m: Machine)
    requires
        s.ok,
        s.next + 1 <= u32::MAX,
    ensures
        ({
            let s1 = s.def(IrOp::Bt { result: s.next, a, bit, size, op });
            let before = meaning::run(s.ops, m);
            &&& s1.ok
            &&& s1.next == s.next + 1
            &&& meaning::run(s1.ops, m) == meaning::test_bit(
                before,
                s.next,
                before.value(a),
                before.value(bit),
                size,
                op,
            )
        }),
{
    broadcast use meaning::group_run;

    reveal(meaning::step);
}

/// `bt` copies a bit to the carry; `bts`, `btr` and `btc` set, clear and turn it as well. The
/// index is taken modulo the width, but a register index into memory is one into a string of
/// bits: it picks the byte behind or before the address. Nothing else changes, with a lock
/// prefix or without.
pub proof fn law_bit_tests(insn: &Insn, mode: CpuMode, s: Emission, m: Machine)
    requires
        insn.wf(),
        s.ok,
        s.next + 64 <= u32::MAX,
        operand::is_scalar_size(operand::operand_size(insn, 0)),
        dispatch::insn_ir(insn, mode, s).0.ok,
        insn.mnemonic == mn::BT || insn.mnemonic == mn::BTS || insn.mnemonic == mn::BTR
            || insn.mnemonic == mn::BTC,
    ensures
        ({
            let before = meaning::run(s.ops, m);
            let after = meaning::run(dispatch::insn_ir(insn, mode, s).0.ops, m);
            let x = named::value_of(insn, 0, before);
            let y = named::value_of(insn, 1, before);
            let size = operand::operand_size(insn, 0);
            let name = insn.mnemonic;
            if insn.is_mem(0) && insn.op(1).kind == op_kind::REGISTER {
                let away = arithmetic::signed(y, operand::operand_size(insn, 1)) / 8;
                let at = ((named::address_of(insn, before) + away) % meaning::full()) as u64;
                let v = before.mem[at] as int;
                let i = y as int % 8;
                let f = Status { cf: v / pow2(i as nat) as int % 2 == 1, ..before.flags };
                &&& name == mn::BT ==> named::compares(before, after, f)
                &&& name != mn::BT ==> after.same_guest(
                    Machine {
                        flags: f,
                        mem: before.mem.insert(at, bit_changed(name, v, i) as u8),
                        ..before
                    },
                )
            } else {
                let i = y as int % arithmetic::width(size);
                let v = x as int % arithmetic::modulus(size);
                let f = Status { cf: v / pow2(i as nat) as int % 2 == 1, ..before.flags };
                &&& name == mn::BT ==> named::compares(before, after, f)
                &&& name != mn::BT ==> named::gives(
                    insn,
                    before,
                    after,
                    bit_changed(name, v, i) as u64 as int,
                    f,
                )
            }
        }),
{
    named::lemma_int(insn, mode, s);
    let name = insn.mnemonic;
    let before = meaning::run(s.ops, m);
    let size = operand::operand_size(insn, 0);
    let op = match table::int_form(name) {
        Some(table::IntForm::Bt(op)) => op,
        _ => BtOp::Test,
    };
    let (s1, bit) = operand::read(insn, 1, s);
    named::lemma_read(insn, 1, s, m);
    if insn.is_mem(0) {
        let (s2, addr) = operand::address(insn, s1);
        named::lemma_address(insn, s1, m);
        named::lemma_same_guest(insn, 0, before, meaning::run(s1.ops, m));
        if insn.op(1).kind == op_kind::REGISTER {
            lemma_bit_string(insn, addr, bit, op, s2, m);
            let y = named::value_of(insn, 1, before);
            let away = arithmetic::signed(y, operand::operand_size(insn, 1)) / 8;
            let at = ((named::address_of(insn, before) + away) % meaning::full()) as u64;
            let v = before.mem[at] as int;
            lemma_bit_bounds(name, v, y as int % 8);
            assert(arithmetic::low(before.mem[at] as u64, 1) == v);
        } else {
            lemma_mem_bt(addr, size, bit, op, insn.lock, s2, m);
            reveal(named::value_of);
            reveal(named::put);
        }
    } else {
        let (s2, a) = operand::read(insn, 0, s1);
        named::lemma_read(insn, 0, s1, m);
        named::lemma_same_guest(insn, 0, before, meaning::run(s1.ops, m));
        lemma_bt(op, a, bit, size, s2, m);
        let s3 = s2.def(IrOp::Bt { result: s2.next, a, bit, size, op });
        if !(op is Test) {
            named::lemma_store(insn, 0, Val::Temp(s2.next), s3, m);
            named::lemma_put_flags(insn, 0, before, meaning::run(s3.ops, m));
        }
    }
}

/// What memory holds fits the bytes that are read.
proof fn lemma_load_bound(mem: Map<u64, u8>, at: u64, size: u8)
    requires
        operand::is_scalar_size(size),
    ensures
        0 <= meaning::load(mem, at, size as nat) < arithmetic::modulus(size),
{
    reveal_with_fuel(meaning::load, 9);
}

/// An index is reduced to the width by a mask.
proof fn lemma_bit_index(y: u64, size: u8)
    requires
        operand::is_scalar_size(size),
    ensures
        y & integer::bit_index_mask(size) == y as int % arithmetic::width(size),
{
    assert(y & 7 == y % 8 && y & 15 == y % 16 && y & 31 == y % 32 && y & 63 == y % 64)
        by (bit_vector);
}

/// Or with one bit sets it, exclusive or turns it, and with all others clears it.
proof fn lemma_one_bit(a: u64, i: u64, size: u8)
    requires
        operand::is_scalar_size(size),
        a < arithmetic::modulus(size),
        i < arithmetic::width(size),
    ensures
        ({
            let one = pow2(i as nat) as int;
            let mask = 1u64 << i;
            let others = arithmetic::fit(mask ^ operand::size_mask(size), size);
            let set = a as int / one % 2 == 1;
            &&& mask == one
            &&& arithmetic::fit(mask, size) == mask
            &&& arithmetic::fit(a | mask, size) == if set {
                a as int
            } else {
                a + one
            }
            &&& arithmetic::fit(a ^ mask, size) == if set {
                a - one
            } else {
                a + one
            }
            &&& arithmetic::fit(a & others, size) == if set {
                a - one
            } else {
                a as int
            }
        }),
{
    vstd::arithmetic::power2::lemma2_to64();
    vstd::arithmetic::power2::lemma2_to64_rest();
    vstd::arithmetic::power2::lemma_pow2_strictly_increases(i as nat, 64);
    vstd::bits::lemma_u64_shl_is_mul(1, i);
    vstd::bits::lemma_u64_shr_is_div(a, i);
    let mask = 1u64 << i;
    let full = u64::MAX;
    assert((a >> i) & 1 == (a >> i) % 2) by (bit_vector);
    assert({
        &&& (a >> i) & 1 == 1 ==> (a | mask) == a && (a ^ mask) == a - mask && (a & !mask) == a
            - mask
        &&& (a >> i) & 1 == 0 ==> (a | mask) == a + mask && (a ^ mask) == a + mask && (a & !mask)
            == a
        &&& a < 0x100 && i < 8 ==> (a | mask) < 0x100 && (a ^ mask) < 0x100 && mask < 0x100
            && (mask ^ 0xff) < 0x100 && (a & (mask ^ 0xff)) == (a & !mask)
        &&& a < 0x1_0000 && i < 16 ==> (a | mask) < 0x1_0000 && (a ^ mask) < 0x1_0000 && mask
            < 0x1_0000 && (mask ^ 0xffff) < 0x1_0000 && (a & (mask ^ 0xffff)) == (a & !mask)
        &&& a < 0x1_0000_0000 && i < 32 ==> (a | mask) < 0x1_0000_0000 && (a ^ mask)
            < 0x1_0000_0000 && mask < 0x1_0000_0000 && (mask ^ 0xffff_ffff) < 0x1_0000_0000 && (a
            & (mask ^ 0xffff_ffff)) == (a & !mask)
        &&& (a & (mask ^ full)) == (a & !mask)
        &&& (a & !mask) <= a
    }) by (bit_vector)
        requires
            i < 64,
            mask == 1u64 << i,
            full == 0xffff_ffff_ffff_ffffu64,
    ;
}

/// The mask of one bit, and that of all others, as they are computed.
#[verifier::spinoff_prover]
proof fn lemma_bit_masks(y: u64, size: u8, f: Status)
    requires
        operand::is_scalar_size(size),
    ensures
        ({
            let i = (y as int % arithmetic::width(size)) as u64;
            let k = integer::bit_index_mask(size);
            let sm = operand::size_mask(size);
            &&& i < arithmetic::width(size)
            &&& arithmetic::binary(BinOp::And, y, k, f, size).0 == i
            &&& arithmetic::binary(BinOp::Shl, 1, i, f, size).0 == 1u64 << i
            &&& arithmetic::binary(BinOp::Xor, 1u64 << i, sm, f, size).0 == arithmetic::fit(
                (1u64 << i) ^ sm,
                size,
            )
        }),
{
    let i = (y as int % arithmetic::width(size)) as u64;
    let k = integer::bit_index_mask(size);
    let sm = operand::size_mask(size);
    lemma_bit_index(y, size);
    lemma_one_bit(0, i, size);
    assert(i < arithmetic::width(size) && arithmetic::width(size) < arithmetic::modulus(size));
    vstd::arithmetic::div_mod::lemma_small_mod(i as nat, arithmetic::modulus(size) as nat);
    assert(arithmetic::amount(i, size) == i) by {
        if size == 8 {
            vstd::arithmetic::div_mod::lemma_small_mod(i as nat, 64);
        } else {
            vstd::arithmetic::div_mod::lemma_small_mod(i as nat, 32);
        }
    }
    assert(y & k == i);
    assert(arithmetic::fit(i, size) == i);
    assert(arithmetic::binary(BinOp::And, y, k, f, size).0 == i) by {
        reveal(arithmetic::binary);
    }
    assert(arithmetic::binary(BinOp::Shl, 1, i, f, size).0 == 1u64 << i) by {
        reveal(arithmetic::binary);
    }
    assert(arithmetic::binary(BinOp::Xor, 1u64 << i, sm, f, size).0 == arithmetic::fit(
        (1u64 << i) ^ sm,
        size,
    )) by {
        reveal(arithmetic::binary);
    }
}

/// A locked update of one bit of memory, and its test.
#[verifier::spinoff_prover]
proof fn lemma_locked_bt(addr: Val, size: u8, bit: Val, op: BtOp, s: Emission, m: Machine)
    requires
        s.ok,
        s.next + 8 <= u32::MAX,
        operand::is_scalar_size(size),
        addr matches Val::Temp(t) ==> t < s.next,
        bit matches Val::Temp(t) ==> t < s.next,
        !(op is Test),
    ensures
        ({
            let before = meaning::run(s.ops, m);
            let after = meaning::run(integer::mem_bt(addr, size, bit, op, true, s).ops, m);
            let at = before.value(addr);
            let a = meaning::load(before.mem, at, size as nat) as u64;
            let t = meaning::test_bit(before, 0, a, before.value(bit), size, op);
            &&& after.regs == before.regs
            &&& after.flags == t.flags
            &&& after.mem == meaning::stored(before.mem, at, t.temps[0] as int, size as nat)
        }),
{
    let none = FlagMask::none();
    let before = meaning::run(s.ops, m);
    let y = before.value(bit);
    let at = before.value(addr);
    let a = meaning::load(before.mem, at, size as nat) as u64;
    let k = Val::Imm(integer::bit_index_mask(size));
    lemma_bit_masks(y, size, before.flags);
    let i = (y as int % arithmetic::width(size)) as u64;
    named::lemma_bin(BinOp::And, bit, k, size, none, s, m);
    let (s1, shift) = integer::bin(BinOp::And, bit, k, size, none, s);
    assert(meaning::run(s1.ops, m).value(shift) == i);
    named::lemma_bin(BinOp::Shl, Val::Imm(1), shift, size, none, s1, m);
    let (s2, mask) = integer::bin(BinOp::Shl, Val::Imm(1), shift, size, none, s1);
    lemma_load_bound(before.mem, at, size);
    lemma_one_bit(a, i, size);
    assert(meaning::run(s2.ops, m).value(mask) == 1u64 << i);
    let sm = Val::Imm(operand::size_mask(size));
    named::lemma_bin(BinOp::Xor, mask, sm, size, none, s2, m);
    let (s3, src) = if op is Reset {
        integer::bin(BinOp::Xor, mask, sm, size, none, s2)
    } else {
        (s2, mask)
    };
    let rmw_op = match op {
        BtOp::SetBit => RmwOp::Or,
        BtOp::Reset => RmwOp::And,
        _ => RmwOp::Xor,
    };
    named::lemma_rmw(addr, src, size, rmw_op, s3, m);
    let (s4, old) = integer::rmw(addr, src, size, rmw_op, s3);
    let at4 = meaning::run(s4.ops, m);
    assert(at4.value(old) == a);
    assert(at4.value(bit) == y);
    assert(meaning::run(s3.ops, m).value(addr) == at);
    lemma_bt(BtOp::Test, old, bit, size, s4, m);
    vstd::arithmetic::div_mod::lemma_small_mod(a as nat, arithmetic::modulus(size) as nat);
    let t = meaning::test_bit(before, 0, a, y, size, op);
    assert(arithmetic::updated(rmw_op, a, meaning::run(s3.ops, m).value(src), size)
        == t.temps[0]);
    let s5 = s4.def(IrOp::Bt { result: s4.next, a: old, bit, size, op: BtOp::Test });
    assert(integer::mem_bt(addr, size, bit, op, true, s) == s5);
    assert(at4.flags == before.flags);
}

/// A bit of memory is tested in place.
proof fn lemma_mem_bt(
    addr: Val,
    size: u8,
    bit: Val,
    op: BtOp,
    locked: bool,
    s: Emission,
    m: Machine,
)
    requires
        s.ok,
        s.next + 8 <= u32::MAX,
        operand::is_scalar_size(size),
        addr matches Val::Temp(t) ==> t < s.next,
        bit matches Val::Temp(t) ==> t < s.next,
    ensures
        ({
            let before = meaning::run(s.ops, m);
            let after = meaning::run(integer::mem_bt(addr, size, bit, op, locked, s).ops, m);
            let at = before.value(addr);
            let a = meaning::load(before.mem, at, size as nat) as u64;
            let t = meaning::test_bit(before, 0, a, before.value(bit), size, op);
            &&& after.regs == before.regs
            &&& after.flags == t.flags
            &&& after.mem == if op is Test {
                before.mem
            } else {
                meaning::stored(before.mem, at, t.temps[0] as int, size as nat)
            }
        }),
{
    if locked && !(op is Test) {
        lemma_locked_bt(addr, size, bit, op, s, m);
    } else {
        named::lemma_load(addr, size, s, m);
        let (s1, a) = integer::load(addr, size, s);
        lemma_bt(op, a, bit, size, s1, m);
        let s2 = s1.def(IrOp::Bt { result: s1.next, a, bit, size, op });
        if !(op is Test) {
            named::lemma_save(addr, Val::Temp(s1.next), size, s2, m);
        }
    }
}

proof fn lemma_signed_back(y: u64, from: u8)
    ensures
        arithmetic::signed((arithmetic::signed(y, from) % meaning::full()) as u64, 8)
            == arithmetic::signed(y, from),
{
    let v = arithmetic::signed(y, from);
    if from == 1 {
        assert(-0x80 <= v < 0x80);
    } else if from == 2 {
        assert(-0x8000 <= v < 0x8000);
    } else if from == 4 {
        assert(-0x8000_0000 <= v < 0x8000_0000);
    } else {
        assert(-0x8000_0000_0000_0000 <= v < 0x8000_0000_0000_0000);
    }
    let f = meaning::full();
    vstd::arithmetic::div_mod::lemma_mod_multiples_vanish(1, v, f);
    if v < 0 {
        vstd::arithmetic::div_mod::lemma_small_mod((v + f) as nat, f as nat);
    } else {
        vstd::arithmetic::div_mod::lemma_small_mod(v as nat, f as nat);
    }
}

proof fn lemma_bit_bounds(name: u16, v: int, i: int)
    requires
        0 <= v < 256,
        0 <= i < 8,
    ensures
        0 <= bit_changed(name, v, i) < 256,
{
    vstd::arithmetic::power2::lemma2_to64();
    if i == 0 {
        assert(pow2(i as nat) == 1);
        assert((v / 1 % 2 == 1 ==> v >= 1) && (v / 1 % 2 == 0 ==> v + 1 < 256));
    } else if i == 1 {
        assert(pow2(i as nat) == 2);
        assert((v / 2 % 2 == 1 ==> v >= 2) && (v / 2 % 2 == 0 ==> v + 2 < 256));
    } else if i == 2 {
        assert(pow2(i as nat) == 4);
        assert((v / 4 % 2 == 1 ==> v >= 4) && (v / 4 % 2 == 0 ==> v + 4 < 256));
    } else if i == 3 {
        assert(pow2(i as nat) == 8);
        assert((v / 8 % 2 == 1 ==> v >= 8) && (v / 8 % 2 == 0 ==> v + 8 < 256));
    } else if i == 4 {
        assert(pow2(i as nat) == 16);
        assert((v / 16 % 2 == 1 ==> v >= 16) && (v / 16 % 2 == 0 ==> v + 16 < 256));
    } else if i == 5 {
        assert(pow2(i as nat) == 32);
        assert((v / 32 % 2 == 1 ==> v >= 32) && (v / 32 % 2 == 0 ==> v + 32 < 256));
    } else if i == 6 {
        assert(pow2(i as nat) == 64);
        assert((v / 64 % 2 == 1 ==> v >= 64) && (v / 64 % 2 == 0 ==> v + 64 < 256));
    } else if i == 7 {
        assert(pow2(i as nat) == 128);
        assert((v / 128 % 2 == 1 ==> v >= 128) && (v / 128 % 2 == 0 ==> v + 128 < 256));
    }
}

proof fn lemma_eighth(x: u64, f: Status)
    ensures
        arithmetic::binary(BinOp::Sar, x, 3, f, 8).0 == (arithmetic::signed(x, 8) / 8)
            % meaning::full(),
{
    reveal(arithmetic::binary);
    vstd::arithmetic::power2::lemma2_to64();
}

proof fn lemma_bit_string(insn: &Insn, addr: Val, bit: Val, op: BtOp, s: Emission, m: Machine)
    requires
        s.ok,
        s.next + 16 <= u32::MAX,
        addr matches Val::Temp(t) ==> t < s.next,
        bit matches Val::Temp(t) ==> t < s.next,
    ensures
        ({
            let sext = s.next;
            let from = operand::operand_size(insn, 1);
            let s3 = s.def(IrOp::Sext { dst: sext, a: bit, from });
            let (s4, off) = integer::bin(
                BinOp::Sar,
                Val::Temp(sext),
                Val::Imm(3),
                8,
                FlagMask::none(),
                s3,
            );
            let (s5, ea) = operand::alu(Alu::Add, addr, off, s4);
            let before = meaning::run(s.ops, m);
            let after = meaning::run(integer::mem_bt(ea, 1, bit, op, insn.lock, s5).ops, m);
            let away = arithmetic::signed(before.value(bit), from) / 8;
            let at = ((before.value(addr) + away) % meaning::full()) as u64;
            let t = meaning::test_bit(
                before,
                0,
                before.mem[at] as u64,
                before.value(bit),
                1,
                op,
            );
            &&& after.regs == before.regs
            &&& after.flags == t.flags
            &&& after.mem =~= if op is Test {
                before.mem
            } else {
                before.mem.insert(at, (t.temps[0] as int % 256) as u8)
            }
        }),
{
    broadcast use meaning::group_run;

    let before = meaning::run(s.ops, m);
    let from = operand::operand_size(insn, 1);
    lemma_sext(bit, from, s, m);
    let sext = s.next;
    let s3 = s.def(IrOp::Sext { dst: sext, a: bit, from });
    named::lemma_bin(BinOp::Sar, Val::Temp(sext), Val::Imm(3), 8, FlagMask::none(), s3, m);
    let (s4, off) = integer::bin(
        BinOp::Sar,
        Val::Temp(sext),
        Val::Imm(3),
        8,
        FlagMask::none(),
        s3,
    );
    let v = arithmetic::signed(before.value(bit), from);
    let x = (v % meaning::full()) as u64;
    lemma_eighth(x, before.flags);
    lemma_signed_back(before.value(bit), from);
    let (s5, ea) = operand::alu(Alu::Add, addr, off, s4);
    lemma_mem_bt(ea, 1, bit, op, insn.lock, s5, m);
    let at = ((before.value(addr) + v / 8) % meaning::full()) as u64;
    vstd::arithmetic::div_mod::lemma_add_mod_noop_right(
        before.value(addr) as int,
        v / 8,
        meaning::full(),
    );
    reveal_with_fuel(meaning::load, 2);
    reveal_with_fuel(meaning::stored, 2);
    assert(meaning::load(before.mem, at, 1) == before.mem[at]);
}

// --- double shifts, addresses and turned bytes ---

proof fn lemma_double_shift_op(
    dst: Temp,
    a: Val,
    b: Val,
    count: Val,
    size: u8,
    left: bool,
    s: Emission,
    m: Machine,
)
    requires
        s.ok,
        dst < s.next,
    ensures
        ({
            let set_flags = FlagMask::shift();
            let s1 = s.push(IrOp::DoubleShift { dst, a, b, count, size, left, set_flags });
            let before = meaning::run(s.ops, m);
            let after = meaning::run(s1.ops, m);
            let x = before.value(a);
            let n = arithmetic::amount(before.value(count), size);
            &&& s1.ok
            &&& s1.next == s.next
            &&& n <= arithmetic::width(size) ==> {
                &&& after.regs == before.regs
                &&& after.mem == before.mem
                &&& n == 0 ==> after.temps[dst] == x && after.flags == before.flags
                &&& n != 0 ==> {
                    let r = arithmetic::double_shifted(x, before.value(b), n as int, size, left);
                    &&& after.temps[dst] == r as u64
                    &&& after.flags.zf == (r == 0)
                    &&& after.flags.sf == (r >= arithmetic::modulus(size) / 2)
                    &&& after.flags.pf == arithmetic::even(r)
                    &&& after.flags.af == before.flags.af
                    &&& after.flags.cf == if left {
                        arithmetic::top(x << (n - 1) as u64, size)
                    } else {
                        arithmetic::low(x, size) as u64 >> (n - 1) as u64 & 1 == 1
                    }
                }
                &&& forall|t: Temp| t != dst ==> #[trigger] after.temps[t] == before.temps[t]
            }
        }),
{
    broadcast use meaning::group_run;

    reveal(meaning::step);
}

/// `shld` shifts operand 0 left and fills it from the high bits of operand 1, `shrd` shifts it
/// right and fills it from the low bits; by nothing they keep the flags. Nothing is said of a
/// count above the width.
pub proof fn law_double_shifts(insn: &Insn, mode: CpuMode, s: Emission, m: Machine)
    requires
        insn.wf(),
        s.ok,
        s.next + 64 <= u32::MAX,
        operand::is_scalar_size(operand::operand_size(insn, 0)),
        dispatch::insn_ir(insn, mode, s).0.ok,
        insn.mnemonic == mn::SHLD || insn.mnemonic == mn::SHRD,
    ensures
        ({
            let before = meaning::run(s.ops, m);
            let after = meaning::run(dispatch::insn_ir(insn, mode, s).0.ops, m);
            let x = named::value_of(insn, 0, before);
            let y = named::value_of(insn, 1, before);
            let size = operand::operand_size(insn, 0);
            let w = arithmetic::modulus(size);
            let bits = arithmetic::width(size);
            let c = named::value_of(insn, 2, before);
            let n: u64 = if size == 8 {
                c % 64
            } else {
                c % 32
            };
            let left = insn.mnemonic == mn::SHLD;
            let r = arithmetic::double_shifted(x, y, n as int, size, left);
            &&& n == 0 ==> named::gives(insn, before, after, x as int, before.flags)
            &&& 0 < n <= bits ==> {
                &&& named::gives(insn, before, after, r as u64 as int, after.flags)
                &&& after.flags.zf == (r == 0)
                &&& after.flags.sf == (r >= w / 2)
                &&& after.flags.pf == arithmetic::even(r)
                &&& after.flags.af == before.flags.af
                &&& insn.mnemonic == mn::SHLD ==> after.flags.cf == arithmetic::top(
                    x << (n - 1) as u64,
                    size,
                )
                &&& insn.mnemonic == mn::SHRD ==> after.flags.cf == ((x as int % w) as u64 >> (n
                    - 1) as u64 & 1 == 1)
            }
        }),
{
    named::lemma_int(insn, mode, s);
    let left = insn.mnemonic == mn::SHLD;
    let before = meaning::run(s.ops, m);
    let size = operand::operand_size(insn, 0);
    assert(arithmetic::amount(named::value_of(insn, 2, before), size) == if size == 8 {
        named::value_of(insn, 2, before) % 64
    } else {
        named::value_of(insn, 2, before) % 32
    });
    let (s1, b) = operand::read(insn, 1, s);
    named::lemma_read(insn, 1, s, m);
    let (s2, count) = operand::read(insn, 2, s1);
    named::lemma_read(insn, 2, s1, m);
    named::lemma_same_guest(insn, 2, before, meaning::run(s1.ops, m));
    let res = s2.next;
    let s3 = s2.fresh();
    let set_flags = FlagMask::shift();
    named::lemma_same_guest(insn, 0, before, meaning::run(s3.ops, m));
    if insn.is_mem(0) {
        let (s4, addr) = operand::address(insn, s3);
        named::lemma_address(insn, s3, m);
        let (s5, a) = integer::load(addr, size, s4);
        named::lemma_load(addr, size, s4, m);
        lemma_double_shift_op(res, a, b, count, size, left, s5, m);
        let s6 = s5.push(IrOp::DoubleShift { dst: res, a, b, count, size, left, set_flags });
        named::lemma_save(addr, Val::Temp(res), size, s6, m);
        reveal(named::put);
        reveal(named::value_of);
    } else {
        let (s4, a) = operand::read(insn, 0, s3);
        named::lemma_read(insn, 0, s3, m);
        lemma_double_shift_op(res, a, b, count, size, left, s4, m);
        let s5 = s4.push(IrOp::DoubleShift { dst: res, a, b, count, size, left, set_flags });
        named::lemma_store(insn, 0, Val::Temp(res), s5, m);
        let n = arithmetic::amount(named::value_of(insn, 2, before), size);
        if n <= arithmetic::width(size) {
            named::lemma_put_flags(insn, 0, before, meaning::run(s5.ops, m));
        }
    }
}

/// `lea` writes the offset of its memory operand; `movbe` moves with the bytes turned round.
/// Neither touches a flag.
pub proof fn law_lea_and_movbe(insn: &Insn, mode: CpuMode, s: Emission, m: Machine)
    requires
        insn.wf(),
        s.ok,
        s.next + 64 <= u32::MAX,
        dispatch::insn_ir(insn, mode, s).0.ok,
    ensures
        ({
            let before = meaning::run(s.ops, m);
            let after = meaning::run(dispatch::insn_ir(insn, mode, s).0.ops, m);
            let size = operand::operand_size(insn, 0);
            let y = named::value_of(insn, 1, before);
            &&& insn.mnemonic == mn::LEA ==> named::gives(
                insn,
                before,
                after,
                meaning::offset_value(insn, before) as u64 as int,
                before.flags,
            )
            &&& insn.mnemonic == mn::MOVBE && insn.is_mem(1) && !insn.is_mem(0)
                && operand::operand_size(insn, 1) == size ==> named::gives(
                insn,
                before,
                after,
                arithmetic::swapped(y as int, size as nat) as u64 as int,
                before.flags,
            )
            &&& insn.mnemonic == mn::MOVBE && insn.is_mem(0) && !insn.is_mem(1) ==> named::gives(
                insn,
                before,
                after,
                arithmetic::swapped(y as int, size as nat) as u64 as int,
                before.flags,
            )
        }),
{
    let before = meaning::run(s.ops, m);
    let size = operand::operand_size(insn, 0);
    if insn.mnemonic == mn::LEA {
        named::lemma_int(insn, mode, s);
        let (s1, addr) = operand::offset(insn, s);
        lemma_failed_offset(insn, s);
        meaning::law_offset(insn, s, m);
        named::lemma_write_back(insn, addr, s, s1, m);
    } else if insn.mnemonic == mn::MOVBE {
        named::lemma_int(insn, mode, s);
        let (s1, addr) = operand::address(insn, s);
        if s1.ok {
            named::lemma_address(insn, s, m);
            named::lemma_same_guest(insn, 1, before, meaning::run(s1.ops, m));
            if insn.is_mem(1) {
                let (s2, a) = integer::load(addr, size, s1);
                named::lemma_load(addr, size, s1, m);
                lemma_bswap(a, size, s2, m);
                let s3 = s2.def(IrOp::Bswap { dst: s2.next, a, size });
                named::lemma_write_back(insn, Val::Temp(s2.next), s, s3, m);
                reveal(named::value_of);
            } else {
                let (s2, a) = operand::read(insn, 1, s1);
                named::lemma_read(insn, 1, s1, m);
                lemma_bswap(a, size, s2, m);
                let s3 = s2.def(IrOp::Bswap { dst: s2.next, a, size });
                named::lemma_save(addr, Val::Temp(s2.next), size, s3, m);
                reveal(named::put);
            }
        }
    }
}

proof fn lemma_failed_offset(insn: &Insn, s: Emission)
    requires
        integer::lea(insn, s).ok,
    ensures
        operand::offset(insn, s).0.ok,
{
}

proof fn lemma_bswap(a: Val, size: u8, s: Emission, m: Machine)
    requires
        s.ok,
        s.next + 1 <= u32::MAX,
    ensures
        ({
            let s1 = s.def(IrOp::Bswap { dst: s.next, a, size });
            &&& s1.ok
            &&& s1.next == s.next + 1
            &&& meaning::quiet(s, s1, m)
            &&& meaning::run(s1.ops, m).temps[s.next] == arithmetic::swapped(
                meaning::run(s.ops, m).value(a) as int,
                size as nat,
            ) as u64
        }),
{
    broadcast use meaning::group_run;

    reveal(meaning::step);
}

} // verus!
