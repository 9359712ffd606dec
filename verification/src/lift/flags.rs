//! Dead-flag elimination: an operation need not compute a flag that is overwritten before
//! anything reads it.
use crate::ir::{Cond, FlagMask, IrOp, Val};
use vstd::prelude::*;

verus! {

pub const F_CF: u8 = 1;
pub const F_PF: u8 = 2;
pub const F_ZF: u8 = 8;
pub const F_SF: u8 = 16;
pub const F_OF: u8 = 32;

/// Every flag.
pub const F_ALL: u8 = 0b11_1111;

pub open spec fn spec_cond_reads(cond: Cond) -> u8 {
    match cond {
        Cond::Eq | Cond::Ne => F_ZF,
        Cond::Below | Cond::AboveEq => F_CF,
        Cond::BelowEq | Cond::Above => F_CF | F_ZF,
        Cond::Less | Cond::GreaterEq => F_SF | F_OF,
        Cond::LessEq | Cond::Greater => F_SF | F_OF | F_ZF,
        Cond::Sign | Cond::NoSign => F_SF,
        Cond::Overflow | Cond::NoOverflow => F_OF,
        Cond::Parity | Cond::NoParity => F_PF,
    }
}

/// Which flags a condition code inspects.
#[verifier::when_used_as_spec(spec_cond_reads)]
pub fn cond_reads(cond: Cond) -> (r: u8)
    ensures
        r == spec_cond_reads(cond),
{
    match cond {
        Cond::Eq | Cond::Ne => F_ZF,
        Cond::Below | Cond::AboveEq => F_CF,
        Cond::BelowEq | Cond::Above => F_CF | F_ZF,
        Cond::Less | Cond::GreaterEq => F_SF | F_OF,
        Cond::LessEq | Cond::Greater => F_SF | F_OF | F_ZF,
        Cond::Sign | Cond::NoSign => F_SF,
        Cond::Overflow | Cond::NoOverflow => F_OF,
        Cond::Parity | Cond::NoParity => F_PF,
    }
}

pub open spec fn spec_op_reads(op: &IrOp) -> u8 {
    match *op {
        IrOp::Branch { cond, .. } | IrOp::GetCond { cond, .. } => cond_reads(cond),
        IrOp::Adc { .. } | IrOp::Sbb { .. } | IrOp::Rcl { .. } | IrOp::Rcr { .. } => F_CF,
        _ => 0,
    }
}

/// Flags an operation reads: condition codes, and the carry-in of `adc`, `sbb` and the
/// rotates through carry. Nothing else in the IR reads a flag.
#[verifier::when_used_as_spec(spec_op_reads)]
pub fn op_reads(op: &IrOp) -> (r: u8)
    ensures
        r == spec_op_reads(op),
{
    match op {
        IrOp::Branch { cond, .. } | IrOp::GetCond { cond, .. } => cond_reads(*cond),
        IrOp::Adc { .. } | IrOp::Sbb { .. } | IrOp::Rcl { .. } | IrOp::Rcr { .. } => F_CF,
        _ => 0,
    }
}

/// The count of a shift or rotate, its width, and whether it goes through the carry.
pub open spec fn shift_count(op: IrOp) -> Option<(Val, u8, bool)> {
    match op {
        IrOp::Shl { b, size, .. }
        | IrOp::Shr { b, size, .. }
        | IrOp::Sar { b, size, .. }
        | IrOp::Rol { b, size, .. }
        | IrOp::Ror { b, size, .. } => Some((b, size, false)),
        IrOp::Rcl { b, size, .. } | IrOp::Rcr { b, size, .. } => Some((b, size, true)),
        IrOp::DoubleShift { count, size, .. } => Some((count, size, false)),
        _ => None,
    }
}

/// The part of an immediate count that has an effect: it is masked to 6 bits for 64-bit
/// operands and to 5 otherwise, and a rotate through carry then has a period of its width
/// plus one.
pub open spec fn effective_count(n: u64, size: u8, through_carry: bool) -> int {
    let masked = n & (if size == 8 { 0x3fu64 } else { 0x1fu64 });
    if through_carry {
        masked as int % (size as int * 8 + 1)
    } else {
        masked as int
    }
}

pub open spec fn spec_shift_flags_may_skip(op: &IrOp) -> bool {
    match shift_count(*op) {
        None => false,
        Some((Val::Temp(_), _, _)) => true,
        Some((Val::Imm(n), size, through_carry)) => effective_count(n, size, through_carry) == 0,
    }
}

/// Whether an operation may leave the flags as they are: a shift or rotate by a count that
/// is 0, or that is known at run time only.
#[verifier::when_used_as_spec(spec_shift_flags_may_skip)]
pub fn shift_flags_may_skip(op: &IrOp) -> (r: bool)
    ensures
        r == spec_shift_flags_may_skip(op),
{
    let (count, size, through_carry) = match op {
        IrOp::Shl { b, size, .. }
        | IrOp::Shr { b, size, .. }
        | IrOp::Sar { b, size, .. }
        | IrOp::Rol { b, size, .. }
        | IrOp::Ror { b, size, .. } => (*b, *size, false),
        IrOp::Rcl { b, size, .. } | IrOp::Rcr { b, size, .. } => (*b, *size, true),
        IrOp::DoubleShift { count, size, .. } => (*count, *size, false),
        _ => {
            return false;
        },
    };
    let cmask: u64 = if size == 8 {
        0x3f
    } else {
        0x1f
    };
    match count {
        Val::Imm(n) => {
            let masked: u64 = n & cmask;
            let eff: u64 = if through_carry {
                masked % (size as u64 * 8 + 1)
            } else {
                masked
            };
            eff == 0
        },
        Val::Temp(_) => true,
    }
}

/// The flags that an operation writes, where it carries a mask of them.
pub open spec fn flag_mask(op: IrOp) -> Option<u8> {
    match op {
        IrOp::Add { set_flags, .. }
        | IrOp::Adc { set_flags, .. }
        | IrOp::Sub { set_flags, .. }
        | IrOp::Sbb { set_flags, .. }
        | IrOp::And { set_flags, .. }
        | IrOp::Or { set_flags, .. }
        | IrOp::Xor { set_flags, .. }
        | IrOp::Shl { set_flags, .. }
        | IrOp::Shr { set_flags, .. }
        | IrOp::Sar { set_flags, .. }
        | IrOp::Rol { set_flags, .. }
        | IrOp::Ror { set_flags, .. }
        | IrOp::Rcl { set_flags, .. }
        | IrOp::Rcr { set_flags, .. }
        | IrOp::DoubleShift { set_flags, .. }
        | IrOp::Mul { set_flags, .. } => Some(set_flags.0),
        _ => None,
    }
}

/// The operation with only those flags in its mask that are in `live`.
pub open spec fn narrowed(op: IrOp, live: u8) -> IrOp {
    match op {
        IrOp::Add { dst, a, b, size, set_flags } => IrOp::Add {
            dst,
            a,
            b,
            size,
            set_flags: FlagMask(set_flags.0 & live),
        },
        IrOp::Adc { dst, a, b, size, set_flags } => IrOp::Adc {
            dst,
            a,
            b,
            size,
            set_flags: FlagMask(set_flags.0 & live),
        },
        IrOp::Sub { dst, a, b, size, set_flags } => IrOp::Sub {
            dst,
            a,
            b,
            size,
            set_flags: FlagMask(set_flags.0 & live),
        },
        IrOp::Sbb { dst, a, b, size, set_flags } => IrOp::Sbb {
            dst,
            a,
            b,
            size,
            set_flags: FlagMask(set_flags.0 & live),
        },
        IrOp::And { dst, a, b, size, set_flags } => IrOp::And {
            dst,
            a,
            b,
            size,
            set_flags: FlagMask(set_flags.0 & live),
        },
        IrOp::Or { dst, a, b, size, set_flags } => IrOp::Or {
            dst,
            a,
            b,
            size,
            set_flags: FlagMask(set_flags.0 & live),
        },
        IrOp::Xor { dst, a, b, size, set_flags } => IrOp::Xor {
            dst,
            a,
            b,
            size,
            set_flags: FlagMask(set_flags.0 & live),
        },
        IrOp::Shl { dst, a, b, size, set_flags } => IrOp::Shl {
            dst,
            a,
            b,
            size,
            set_flags: FlagMask(set_flags.0 & live),
        },
        IrOp::Shr { dst, a, b, size, set_flags } => IrOp::Shr {
            dst,
            a,
            b,
            size,
            set_flags: FlagMask(set_flags.0 & live),
        },
        IrOp::Sar { dst, a, b, size, set_flags } => IrOp::Sar {
            dst,
            a,
            b,
            size,
            set_flags: FlagMask(set_flags.0 & live),
        },
        IrOp::Rol { dst, a, b, size, set_flags } => IrOp::Rol {
            dst,
            a,
            b,
            size,
            set_flags: FlagMask(set_flags.0 & live),
        },
        IrOp::Ror { dst, a, b, size, set_flags } => IrOp::Ror {
            dst,
            a,
            b,
            size,
            set_flags: FlagMask(set_flags.0 & live),
        },
        IrOp::Rcl { dst, a, b, size, set_flags } => IrOp::Rcl {
            dst,
            a,
            b,
            size,
            set_flags: FlagMask(set_flags.0 & live),
        },
        IrOp::Rcr { dst, a, b, size, set_flags } => IrOp::Rcr {
            dst,
            a,
            b,
            size,
            set_flags: FlagMask(set_flags.0 & live),
        },
        IrOp::DoubleShift { dst, a, b, count, size, left, set_flags } => IrOp::DoubleShift {
            dst,
            a,
            b,
            count,
            size,
            left,
            set_flags: FlagMask(set_flags.0 & live),
        },
        IrOp::Mul { lo, hi, a, b, size, signed, set_flags } => IrOp::Mul {
            lo,
            hi,
            a,
            b,
            size,
            signed,
            set_flags: FlagMask(set_flags.0 & live),
        },
        _ => op,
    }
}

/// Narrows the mask of an operation to `live`, and returns it where there is one.
pub fn narrow(op: &mut IrOp, live: u8) -> (r: Option<u8>)
    ensures
        *final(op) == narrowed(*old(op), live),
        r == flag_mask(*final(op)),
{
    match op {
        IrOp::Add { set_flags, .. } => {
            set_flags.0 = set_flags.0 & live;
            Some(set_flags.0)
        },
        IrOp::Adc { set_flags, .. } => {
            set_flags.0 = set_flags.0 & live;
            Some(set_flags.0)
        },
        IrOp::Sub { set_flags, .. } => {
            set_flags.0 = set_flags.0 & live;
            Some(set_flags.0)
        },
        IrOp::Sbb { set_flags, .. } => {
            set_flags.0 = set_flags.0 & live;
            Some(set_flags.0)
        },
        IrOp::And { set_flags, .. } => {
            set_flags.0 = set_flags.0 & live;
            Some(set_flags.0)
        },
        IrOp::Or { set_flags, .. } => {
            set_flags.0 = set_flags.0 & live;
            Some(set_flags.0)
        },
        IrOp::Xor { set_flags, .. } => {
            set_flags.0 = set_flags.0 & live;
            Some(set_flags.0)
        },
        IrOp::Shl { set_flags, .. } => {
            set_flags.0 = set_flags.0 & live;
            Some(set_flags.0)
        },
        IrOp::Shr { set_flags, .. } => {
            set_flags.0 = set_flags.0 & live;
            Some(set_flags.0)
        },
        IrOp::Sar { set_flags, .. } => {
            set_flags.0 = set_flags.0 & live;
            Some(set_flags.0)
        },
        IrOp::Rol { set_flags, .. } => {
            set_flags.0 = set_flags.0 & live;
            Some(set_flags.0)
        },
        IrOp::Ror { set_flags, .. } => {
            set_flags.0 = set_flags.0 & live;
            Some(set_flags.0)
        },
        IrOp::Rcl { set_flags, .. } => {
            set_flags.0 = set_flags.0 & live;
            Some(set_flags.0)
        },
        IrOp::Rcr { set_flags, .. } => {
            set_flags.0 = set_flags.0 & live;
            Some(set_flags.0)
        },
        IrOp::DoubleShift { set_flags, .. } => {
            set_flags.0 = set_flags.0 & live;
            Some(set_flags.0)
        },
        IrOp::Mul { set_flags, .. } => {
            set_flags.0 = set_flags.0 & live;
            Some(set_flags.0)
        },
        _ => None,
    }
}

/// The flags that are live before an operation, given those that are live after it. A
/// write that may be skipped ends no liveness.
pub open spec fn live_before(op: IrOp, live: u8) -> u8 {
    match flag_mask(op) {
        Some(mask) => {
            let kills = if shift_flags_may_skip(&op) {
                0u8
            } else {
                mask & live
            };
            (live & !kills) | op_reads(&op)
        },
        None => live | op_reads(&op),
    }
}

/// The flags that are live before operation `i`: one that is read later, or may be seen
/// behind the block, before it is overwritten. Every flag is live at the end.
pub open spec fn live_at(ops: Seq<IrOp>, i: int) -> u8
    decreases ops.len() - i,
{
    if 0 <= i < ops.len() {
        live_before(ops[i], live_at(ops, i + 1))
    } else {
        F_ALL
    }
}

/// Every operation with the mask of the flags that are live after it.
pub open spec fn elided(ops: Seq<IrOp>) -> Seq<IrOp> {
    Seq::new(ops.len(), |i: int| narrowed(ops[i], live_at(ops, i + 1)))
}

/// Narrows the mask of each operation to the flags that are still live behind it. The
/// last writer of each flag stays, so that what can be seen at the end of the block does
/// not change.
pub fn elide_dead_flags(ops: &mut Vec<IrOp>)
    ensures
        final(ops)@ == elided(old(ops)@),
{
    let ghost before = ops@;
    let mut live: u8 = F_ALL;
    let mut i: usize = ops.len();
    while i > 0
        invariant
            i <= ops@.len(),
            ops@.len() == before.len(),
            live == live_at(before, i as int),
            forall|j: int| 0 <= j < i ==> #[trigger] ops@[j] == before[j],
            forall|j: int|
                i <= j < ops@.len() ==> #[trigger] ops@[j] == narrowed(
                    before[j],
                    live_at(before, j + 1),
                ),
        decreases i,
    {
        i = i - 1;
        let reads: u8 = op_reads(&ops[i]);
        let may_skip: bool = shift_flags_may_skip(&ops[i]);
        let mask = narrow(&mut ops[i], live);
        proof {
            lemma_narrowed(before[i as int], live);
        }
        match mask {
            Some(kept) => {
                let kills: u8 = if may_skip {
                    0
                } else {
                    kept
                };
                live = (live & !kills) | reads;
            },
            None => {
                live = live | reads;
            },
        }
    }
    assert(ops@ =~= elided(before));
}

/// What narrowing keeps and changes.
pub proof fn lemma_narrowed(op: IrOp, live: u8)
    ensures
        flag_mask(narrowed(op, live)) == (match flag_mask(op) {
            Some(m) => Some(m & live),
            None => None,
        }),
        op_reads(&narrowed(op, live)) == op_reads(&op),
        shift_flags_may_skip(&narrowed(op, live)) == shift_flags_may_skip(&op),
{
}

// --- laws ---

/// One of the six flags.
pub open spec fn is_flag(f: u8) -> bool {
    f == 1 || f == 2 || f == 4 || f == 8 || f == 16 || f == 32
}

/// Which operation gave flag `f` the value it has before operation `i`, or `None` where it
/// still has the value from before the block. `skips` tells which of the operations that
/// may skip their flags do so in this run, and `others` which flags the operations without
/// a mask write.
pub open spec fn producer(
    ops: Seq<IrOp>,
    skips: spec_fn(int) -> bool,
    others: spec_fn(IrOp) -> u8,
    f: u8,
    i: int,
) -> Option<int>
    decreases i,
{
    if i <= 0 {
        None
    } else {
        let op = ops[i - 1];
        let mask = match flag_mask(op) {
            Some(m) => m,
            None => others(op),
        };
        if mask & f != 0 && !(shift_flags_may_skip(&op) && skips(i - 1)) {
            Some(i - 1)
        } else {
            producer(ops, skips, others, f, i - 1)
        }
    }
}

pub proof fn lemma_flag_bits(a: u8, b: u8, c: u8, f: u8)
    by (bit_vector)
    requires
        f == 1 || f == 2 || f == 4 || f == 8 || f == 16 || f == 32,
    ensures
        (a & b) & f != 0 <==> a & f != 0 && b & f != 0,
        (a & !b) & f != 0 <==> a & f != 0 && b & f == 0,
        (a | c) & f != 0 <==> a & f != 0 || c & f != 0,
        0u8 & f == 0,
        0b11_1111u8 & f != 0,
        1u8 & 1 != 0,
        a & 0 == 0,
        (a & b) & 0 == a & 0,
{
}

proof fn lemma_live_flag_has_same_producer(
    ops: Seq<IrOp>,
    skips: spec_fn(int) -> bool,
    others: spec_fn(IrOp) -> u8,
    f: u8,
    i: int,
)
    requires
        is_flag(f),
        0 <= i <= ops.len(),
        live_at(ops, i) & f != 0,
    ensures
        producer(elided(ops), skips, others, f, i) == producer(ops, skips, others, f, i),
    decreases i,
{
    if i > 0 {
        let op = ops[i - 1];
        let live = live_at(ops, i);
        lemma_narrowed(op, live);
        let mask = match flag_mask(op) {
            Some(m) => m,
            None => 0,
        };
        let kills = if shift_flags_may_skip(&op) {
            0u8
        } else {
            mask & live
        };
        lemma_flag_bits(mask, live, 0, f);
        lemma_flag_bits(live, kills, 0, f);
        lemma_flag_bits(live & !kills, 0, op_reads(&op), f);
        lemma_flag_bits(live, 0, op_reads(&op), f);
        if mask & f == 0 || (shift_flags_may_skip(&op) && skips(i - 1)) {
            lemma_live_flag_has_same_producer(ops, skips, others, f, i - 1);
        }
    }
}

/// Dead-flag elimination does not change what is observed of a flag. In every run, an
/// operation that reads a flag reads the value that the same operation produced as before
/// the elimination, and so does whatever looks at the flag at the end of the block.
pub proof fn law_observed_flags_keep_their_producer(
    ops: Seq<IrOp>,
    skips: spec_fn(int) -> bool,
    others: spec_fn(IrOp) -> u8,
    f: u8,
    i: int,
)
    requires
        is_flag(f),
        0 <= i <= ops.len(),
        i < ops.len() ==> op_reads(&ops[i]) & f != 0,
    ensures
        producer(elided(ops), skips, others, f, i) == producer(ops, skips, others, f, i),
{
    let live = live_at(ops, i + 1);
    lemma_flag_bits(F_ALL, 0, 0, f);
    if i < ops.len() {
        let op = ops[i];
        let mask = match flag_mask(op) {
            Some(m) => m,
            None => 0,
        };
        let kills = if shift_flags_may_skip(&op) {
            0u8
        } else {
            mask & live
        };
        lemma_flag_bits(live & !kills, 0, op_reads(&op), f);
        lemma_flag_bits(live, 0, op_reads(&op), f);
    }
    lemma_live_flag_has_same_producer(ops, skips, others, f, i);
}

proof fn lemma_masks_shrink(a: u8, b: u8)
    by (bit_vector)
    ensures
        (a & b) & b == a & b,
        (a & b) & !a == 0u8,
{
}

proof fn lemma_elided_has_same_liveness(ops: Seq<IrOp>, i: int)
    requires
        0 <= i <= ops.len(),
    ensures
        live_at(elided(ops), i) == live_at(ops, i),
    decreases ops.len() - i,
{
    if i < ops.len() {
        lemma_elided_has_same_liveness(ops, i + 1);
        let live = live_at(ops, i + 1);
        lemma_narrowed(ops[i], live);
        if flag_mask(ops[i]) is Some {
            lemma_masks_shrink(flag_mask(ops[i])->0, live);
        }
    }
}

/// A second elimination finds nothing more to drop.
pub proof fn law_elision_is_idempotent(ops: Seq<IrOp>)
    ensures
        elided(elided(ops)) == elided(ops),
{
    let once = elided(ops);
    assert forall|i: int| 0 <= i < ops.len() implies narrowed(once[i], live_at(once, i + 1))
        == once[i] by {
        let live = live_at(ops, i + 1);
        lemma_elided_has_same_liveness(ops, i + 1);
        lemma_narrowed(ops[i], live);
        if flag_mask(ops[i]) is Some {
            lemma_masks_shrink(flag_mask(ops[i])->0, live);
        }
    }
    assert(elided(once) =~= once);
}

/// The elimination changes nothing of an operation but its mask, and only drops flags from
/// that.
pub proof fn law_elision_only_drops_flags(ops: Seq<IrOp>, i: int)
    requires
        0 <= i < ops.len(),
    ensures
        elided(ops).len() == ops.len(),
        narrowed(elided(ops)[i], 0) == narrowed(ops[i], 0),
        flag_mask(elided(ops)[i]) matches Some(m) ==> flag_mask(ops[i]) is Some && m & !(flag_mask(
            ops[i],
        )->0) == 0,
        flag_mask(elided(ops)[i]) is None ==> elided(ops)[i] == ops[i],
{
    let live = live_at(ops, i + 1);
    lemma_narrowed(ops[i], live);
    if flag_mask(ops[i]) is Some {
        let mask = flag_mask(ops[i])->0;
        lemma_masks_shrink(mask, live);
        assert((mask & live) & 0 == mask & 0) by (bit_vector);
    }
}

} // verus!
