//! What the integer operations compute, and which flags they give.
use crate::ir::{BitScanOp, BmiOp, FlagMask, RmwOp};
use crate::lift::condition::Status;
use crate::lift::integer::BinOp;
use crate::lift::meaning;
use crate::lift::operand::Alu;
use vstd::arithmetic::power2::pow2;
use vstd::prelude::*;

verus! {

/// The bits of an operand of `size` bytes.
pub open spec fn width(size: u8) -> int {
    if size == 1 {
        8
    } else if size == 2 {
        16
    } else if size == 4 {
        32
    } else {
        64
    }
}

/// How many values an operand of `size` bytes has.
pub open spec fn modulus(size: u8) -> int {
    if size == 1 {
        0x100
    } else if size == 2 {
        0x1_0000
    } else if size == 4 {
        0x1_0000_0000
    } else {
        meaning::full()
    }
}

/// The low `size` bytes.
pub open spec fn low(x: u64, size: u8) -> int {
    x as int % modulus(size)
}

/// The low `size` bytes, with their highest bit as the sign.
pub open spec fn signed(x: u64, size: u8) -> int {
    if low(x, size) >= modulus(size) / 2 {
        low(x, size) - modulus(size)
    } else {
        low(x, size)
    }
}

/// The number can be told from the low `size` bytes with a sign.
pub open spec fn fits(x: int, size: u8) -> bool {
    -(modulus(size) / 2) <= x < modulus(size) / 2
}

/// The highest bit of the low `size` bytes.
pub open spec fn top(x: u64, size: u8) -> bool {
    low(x, size) >= modulus(size) / 2
}

/// An even number of bits of the low byte are set.
pub open spec fn even(r: int) -> bool {
    let b = r % 256;
    (b + b / 2 + b / 4 + b / 8 + b / 16 + b / 32 + b / 64 + b / 128) % 2 == 0
}

/// The flags of a result of `size` bytes.
pub open spec fn status(r: int, size: u8, cf: bool, af: bool, of: bool) -> Status {
    Status { cf, pf: even(r), af, zf: r == 0, sf: r >= modulus(size) / 2, of }
}

/// The mask names the flag.
pub open spec fn named(mask: FlagMask, bit: int) -> bool {
    (mask.0 as int / bit) % 2 == 1
}

/// The flags in the mask from `new`, and the others from `old`.
pub open spec fn merged(old: Status, new: Status, mask: FlagMask) -> Status {
    Status {
        cf: if named(mask, 1) {
            new.cf
        } else {
            old.cf
        },
        pf: if named(mask, 2) {
            new.pf
        } else {
            old.pf
        },
        af: if named(mask, 4) {
            new.af
        } else {
            old.af
        },
        zf: if named(mask, 8) {
            new.zf
        } else {
            old.zf
        },
        sf: if named(mask, 16) {
            new.sf
        } else {
            old.sf
        },
        of: if named(mask, 32) {
            new.of
        } else {
            old.of
        },
    }
}

pub open spec fn carried(f: Status) -> int {
    if f.cf {
        1
    } else {
        0
    }
}

/// The flags of a sum with a carry `c` in.
pub open spec fn sum_status(x: u64, y: u64, c: int, size: u8) -> Status {
    status(
        (x + y + c) % modulus(size),
        size,
        low(x, size) + low(y, size) + c >= modulus(size),
        x as int % 16 + y as int % 16 + c >= 16,
        !fits(signed(x, size) + signed(y, size) + c, size),
    )
}

/// The flags of a difference with a borrow `c` in.
pub open spec fn difference_status(x: u64, y: u64, c: int, size: u8) -> Status {
    status(
        (x - y - c) % modulus(size),
        size,
        low(x, size) < low(y, size) + c,
        (x as int % 16) < y as int % 16 + c,
        !fits(signed(x, size) - signed(y, size) - c, size),
    )
}

/// The flags of a bitwise operation: no carry and no overflow. Nothing is said of the
/// adjust flag.
pub open spec fn logic_status(r: u64, size: u8) -> Status {
    status(low(r, size), size, false, arbitrary(), false)
}

/// A shift count, as the width of the operand reduces it.
pub open spec fn amount(y: u64, size: u8) -> u64 {
    if size == 8 {
        y % 64
    } else {
        y % 32
    }
}

/// The left shift of the low `size` bytes.
pub open spec fn shifted_left(x: u64, y: u64, size: u8) -> int {
    low(x << amount(y, size), size)
}

/// The right shift of the low `size` bytes.
pub open spec fn shifted_right(x: u64, y: u64, size: u8) -> int {
    (low(x, size) as u64 >> amount(y, size)) as int
}

/// The right shift of the low `size` bytes that keeps the sign.
pub open spec fn shifted_signed(x: u64, y: u64, size: u8) -> int {
    (signed(x, size) / pow2(amount(y, size) as nat) as int) % modulus(size)
}

/// `r` is the result of a shift: by nothing it changes no flag. Else `cf` is the bit that was
/// shifted out last, which a left or right shift by more than the width leaves open, as it does
/// the overflow flag by more than one.
pub open spec fn shift_status(old: Status, r: int, n: u64, size: u8, cf: bool, of: bool) -> Status {
    if n == 0 {
        old
    } else {
        status(
            r,
            size,
            if n <= width(size) {
                cf
            } else {
                arbitrary()
            },
            old.af,
            if n == 1 {
                of
            } else {
                arbitrary()
            },
        )
    }
}

/// The number of `bits` bits rotated left by `k`.
pub open spec fn rotated(v: int, k: int, bits: int) -> int {
    (v * pow2(k as nat) as int) % pow2(bits as nat) as int + v / pow2((bits - k) as nat) as int
}

/// The flags of a rotation: the carry, and the overflow flag for a rotation by one.
pub open spec fn rotate_status(old: Status, n: u64, cf: bool, of: bool) -> Status {
    if n == 0 {
        old
    } else {
        Status {
            cf,
            of: if n == 1 {
                of
            } else {
                arbitrary()
            },
            ..old
        }
    }
}

/// The low `size` bytes with the carry above them.
pub open spec fn with_carry(x: u64, f: Status, size: u8) -> int {
    low(x, size) + carried(f) * modulus(size)
}

/// By how much a rotation through the carry turns.
pub open spec fn through(y: u64, size: u8) -> int {
    amount(y, size) as int % (width(size) + 1)
}

/// The low bytes of `x` shifted left with the high bits of `y` behind them, or right with the
/// low bits of `y` before them.
#[verifier::opaque]
pub open spec fn double_shifted(x: u64, y: u64, n: int, size: u8, left: bool) -> int {
    if left {
        (low(x, size) * pow2(n as nat) as int + low(y, size) / pow2(
            (width(size) - n) as nat,
        ) as int) % modulus(size)
    } else {
        (low(x, size) / pow2(n as nat) as int + low(y, size) * pow2(
            (width(size) - n) as nat,
        ) as int) % modulus(size)
    }
}

/// The product of the low bytes, with or without their signs.
#[verifier::opaque]
pub open spec fn product(x: u64, y: u64, size: u8, is_signed: bool) -> int {
    if is_signed {
        signed(x, size) * signed(y, size)
    } else {
        low(x, size) * low(y, size)
    }
}

/// The quotient, rounded towards zero.
#[verifier::opaque]
pub open spec fn quotient(n: int, d: int) -> int {
    if n >= 0 && d > 0 {
        n / d
    } else if n >= 0 {
        -(n / -d)
    } else if d > 0 {
        -(-n / d)
    } else {
        -n / -d
    }
}

/// The dividend in two halves.
#[verifier::opaque]
pub open spec fn dividend(hi: u64, lo: u64, size: u8, is_signed: bool) -> int {
    if is_signed {
        signed(hi, size) * modulus(size) + low(lo, size)
    } else {
        low(hi, size) * modulus(size) + low(lo, size)
    }
}

/// The divisor.
#[verifier::opaque]
pub open spec fn divisor(d: u64, size: u8, is_signed: bool) -> int {
    if is_signed {
        signed(d, size)
    } else {
        low(d, size)
    }
}

/// The division does not trap.
#[verifier::opaque]
pub open spec fn divides(n: int, d: int, size: u8, is_signed: bool) -> bool {
    &&& d != 0
    &&& if is_signed {
        fits(quotient(n, d), size)
    } else {
        quotient(n, d) < modulus(size)
    }
}

/// The low `n` bytes in the opposite order.
pub open spec fn swapped(x: int, n: nat) -> int
    decreases n,
{
    if n == 0 {
        0
    } else {
        (x % 256) * pow2((8 * (n - 1)) as nat) as int + swapped(x / 256, (n - 1) as nat)
    }
}

/// How many of the bits of a number are set.
pub open spec fn ones(x: int) -> int
    decreases x,
{
    if x <= 0 {
        0
    } else {
        x % 2 + ones(x / 2)
    }
}

/// The place of the lowest bit that is set.
pub open spec fn lowest(x: int) -> int
    decreases x,
{
    if x <= 0 || x % 2 == 1 {
        0
    } else {
        1 + lowest(x / 2)
    }
}

/// The place of the highest bit that is set.
pub open spec fn highest(x: int) -> int
    decreases x,
{
    if x <= 1 {
        0
    } else {
        1 + highest(x / 2)
    }
}

/// The scan of the low `size` bytes of `x`; where they are zero the older scans keep `old`.
pub open spec fn scanned(op: BitScanOp, x: u64, old: u64, size: u8) -> u64 {
    let v = low(x, size);
    match op {
        BitScanOp::Bsf => if v == 0 {
            old
        } else {
            lowest(v) as u64
        },
        BitScanOp::Bsr => if v == 0 {
            old
        } else {
            highest(v) as u64
        },
        BitScanOp::Tzcnt => if v == 0 {
            width(size) as u64
        } else {
            lowest(v) as u64
        },
        BitScanOp::Lzcnt => if v == 0 {
            width(size) as u64
        } else {
            (width(size) - 1 - highest(v)) as u64
        },
    }
}

/// The low bits of `x`, put where `mask` has bits.
pub open spec fn deposited(x: int, mask: int) -> int
    decreases mask,
{
    if mask <= 0 {
        0
    } else if mask % 2 == 1 {
        x % 2 + 2 * deposited(x / 2, mask / 2)
    } else {
        2 * deposited(x, mask / 2)
    }
}

/// The bits of `x` where `mask` has bits, put side by side.
pub open spec fn extracted(x: int, mask: int) -> int
    decreases mask,
{
    if mask <= 0 {
        0
    } else if mask % 2 == 1 {
        x % 2 + 2 * extracted(x / 2, mask / 2)
    } else {
        extracted(x / 2, mask / 2)
    }
}

/// What the bit-manipulation instructions compute.
pub open spec fn manipulated(op: BmiOp, x: u64, y: u64, size: u8) -> int {
    let a = low(x, size);
    let b = low(y, size);
    match op {
        BmiOp::Andn => low(!x & y, size),
        BmiOp::Blsi => low(x & ((0 - x) % meaning::full()) as u64, size),
        BmiOp::Blsr => low(x & ((x - 1) % meaning::full()) as u64, size),
        BmiOp::Blsmsk => low(x ^ ((x - 1) % meaning::full()) as u64, size),
        BmiOp::Bextr => a / pow2((y as int % 256) as nat) as int % pow2(
            (y as int / 256 % 256) as nat,
        ) as int,
        BmiOp::Bzhi => if y as int % 256 < width(size) {
            a % pow2((y as int % 256) as nat) as int
        } else {
            a
        },
        BmiOp::Pdep => deposited(a, b),
        BmiOp::Pext => extracted(a, b),
    }
}

/// The checksum of `n` more bits: CRC-32C, the lowest bit first.
pub open spec fn checked(crc: u32, v: int, n: nat) -> u32
    decreases n,
{
    if n == 0 {
        crc
    } else {
        let low_bit = (crc as int + v) % 2 == 1;
        let half = (crc / 2) as u32;
        checked(
            if low_bit {
                half ^ 0x82F6_3B78
            } else {
                half
            },
            v / 2,
            (n - 1) as nat,
        )
    }
}

/// What an atomic update of `size` bytes leaves in memory.
pub open spec fn updated(op: RmwOp, old: u64, src: u64, size: u8) -> u64 {
    match op {
        RmwOp::Add => fit(((old + src) % meaning::full()) as u64, size),
        RmwOp::Sub => fit(((old - src) % meaning::full()) as u64, size),
        RmwOp::Rsub => fit(((src - old) % meaning::full()) as u64, size),
        RmwOp::And => fit(old & src, size),
        RmwOp::Or => fit(old | src, size),
        RmwOp::Xor => fit(old ^ src, size),
        RmwOp::Xchg => src,
    }
}

/// A 64-bit result cut down to the size of the operation.
pub open spec fn fit(r: u64, size: u8) -> u64 {
    if size == 8 {
        r
    } else {
        low(r, size) as u64
    }
}

/// The result of an operation on two values, and the flags that go with it.
#[verifier::opaque]
pub open spec fn binary(op: BinOp, x: u64, y: u64, f: Status, size: u8) -> (u64, Status) {
    let n = amount(y, size);
    match op {
        BinOp::Add => (
            fit(meaning::computed(Alu::Add, x, y), size),
            sum_status(x, y, 0, size),
        ),
        BinOp::Sub => (
            fit(meaning::computed(Alu::Sub, x, y), size),
            difference_status(x, y, 0, size),
        ),
        BinOp::Adc => (
            ((x + y + carried(f)) % modulus(size)) as u64,
            sum_status(x, y, carried(f), size),
        ),
        BinOp::Sbb => (
            ((x - y - carried(f)) % modulus(size)) as u64,
            difference_status(x, y, carried(f), size),
        ),
        BinOp::And => (fit(meaning::computed(Alu::And, x, y), size), logic_status(x & y, size)),
        BinOp::Or => (fit(meaning::computed(Alu::Or, x, y), size), logic_status(x | y, size)),
        BinOp::Xor => (fit(meaning::computed(Alu::Xor, x, y), size), logic_status(x ^ y, size)),
        BinOp::Shl => (
            fit(x << n, size),
            shift_status(
                f,
                shifted_left(x, y, size),
                n,
                size,
                top(x << (n - 1) as u64, size),
                top(x << n, size) != top(x << (n - 1) as u64, size),
            ),
        ),
        BinOp::Shr => (
            if size == 8 {
                x >> n
            } else {
                shifted_right(x, y, size) as u64
            },
            shift_status(
                f,
                shifted_right(x, y, size),
                n,
                size,
                low(x, size) as u64 >> (n - 1) as u64 & 1 == 1,
                top(x, size),
            ),
        ),
        BinOp::Sar => (
            shifted_signed(x, y, size) as u64,
            shift_status(
                f,
                shifted_signed(x, y, size),
                n,
                size,
                signed(x, size) / pow2((n - 1) as nat) as int % 2 == 1,
                false,
            ),
        ),
        BinOp::Rol => {
            let r = rotated(low(x, size), n as int % width(size), width(size));
            (r as u64, rotate_status(f, n, r % 2 == 1, (r % 2 == 1) != top(r as u64, size)))
        },
        BinOp::Ror => {
            let r = rotated(low(x, size), -(n as int) % width(size), width(size));
            (
                r as u64,
                rotate_status(
                    f,
                    n,
                    top(r as u64, size),
                    top(r as u64, size) != (r % (modulus(size) / 2) >= modulus(size) / 4),
                ),
            )
        },
        BinOp::Rcl => {
            let v = with_carry(x, f, size);
            let r = rotated(v, through(y, size), width(size) + 1);
            (
                (r % modulus(size)) as u64,
                rotate_status(
                    f,
                    through(y, size) as u64,
                    r >= modulus(size),
                    (r >= modulus(size)) != top((r % modulus(size)) as u64, size),
                ),
            )
        },
        BinOp::Rcr => {
            let v = with_carry(x, f, size);
            let r = rotated(v, -through(y, size) % (width(size) + 1), width(size) + 1);
            (
                (r % modulus(size)) as u64,
                rotate_status(
                    f,
                    through(y, size) as u64,
                    r >= modulus(size),
                    top(x, size) != f.cf,
                ),
            )
        },
    }
}

} // verus!
