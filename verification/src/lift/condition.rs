//! What the conditions say of the flags, and that nothing that a condition looks at is lost
//! when flags are dropped.
use crate::ir::{Cond, FlagMask, IrOp, Temp, Val};
use crate::lift::flags;
use vstd::prelude::*;

verus! {

/// The six flags of the guest.
pub struct Status {
    pub cf: bool,
    pub pf: bool,
    pub af: bool,
    pub zf: bool,
    pub sf: bool,
    pub of: bool,
}

/// The condition is met.
pub open spec fn holds(cond: Cond, f: Status) -> bool {
    match cond {
        Cond::Eq => f.zf,
        Cond::Ne => !f.zf,
        Cond::Below => f.cf,
        Cond::AboveEq => !f.cf,
        Cond::BelowEq => f.cf || f.zf,
        Cond::Above => !f.cf && !f.zf,
        Cond::Less => f.sf != f.of,
        Cond::GreaterEq => f.sf == f.of,
        Cond::LessEq => f.zf || f.sf != f.of,
        Cond::Greater => !f.zf && f.sf == f.of,
        Cond::Sign => f.sf,
        Cond::NoSign => !f.sf,
        Cond::Overflow => f.of,
        Cond::NoOverflow => !f.of,
        Cond::Parity => f.pf,
        Cond::NoParity => !f.pf,
    }
}

/// The flag that a bit of a mask stands for.
pub open spec fn flag(f: Status, bit: u8) -> bool {
    if bit == 1 {
        f.cf
    } else if bit == 2 {
        f.pf
    } else if bit == 4 {
        f.af
    } else if bit == 8 {
        f.zf
    } else if bit == 16 {
        f.sf
    } else {
        f.of
    }
}

/// The flags with one of them turned.
pub open spec fn turned(f: Status, bit: u8) -> Status {
    Status {
        cf: f.cf != (bit == 1),
        pf: f.pf != (bit == 2),
        af: f.af != (bit == 4),
        zf: f.zf != (bit == 8),
        sf: f.sf != (bit == 16),
        of: f.of != (bit == 32),
    }
}

/// Turning the flag decides the condition in some state.
pub open spec fn decides(cond: Cond, bit: u8, f: Status) -> bool {
    holds(cond, f) != holds(cond, turned(f, bit))
}

proof fn lemma_bits()
    by (bit_vector)
    ensures
        1u8 & 1 != 0,
        2u8 & 2 != 0,
        8u8 & 8 != 0,
        16u8 & 16 != 0,
        32u8 & 32 != 0,
        (1u8 | 8) & 1 != 0,
        (1u8 | 8) & 8 != 0,
        (16u8 | 32) & 16 != 0,
        (16u8 | 32) & 32 != 0,
        (16u8 | 32 | 8) & 8 != 0,
        (16u8 | 32 | 8) & 16 != 0,
        (16u8 | 32 | 8) & 32 != 0,
        forall|b: u8|
            (b == 2 || b == 4 || b == 8 || b == 16 || b == 32) ==> #[trigger] (1u8 & b) == 0,
        forall|b: u8|
            (b == 1 || b == 4 || b == 8 || b == 16 || b == 32) ==> #[trigger] (2u8 & b) == 0,
        forall|b: u8|
            (b == 1 || b == 2 || b == 4 || b == 16 || b == 32) ==> #[trigger] (8u8 & b) == 0,
        forall|b: u8|
            (b == 1 || b == 2 || b == 4 || b == 8 || b == 32) ==> #[trigger] (16u8 & b) == 0,
        forall|b: u8|
            (b == 1 || b == 2 || b == 4 || b == 8 || b == 16) ==> #[trigger] (32u8 & b) == 0,
        forall|b: u8|
            (b == 2 || b == 4 || b == 16 || b == 32) ==> #[trigger] ((1u8 | 8) & b) == 0,
        forall|b: u8|
            (b == 1 || b == 2 || b == 4 || b == 8) ==> #[trigger] ((16u8 | 32) & b) == 0,
        forall|b: u8| (b == 1 || b == 2 || b == 4) ==> #[trigger] ((16u8 | 32 | 8) & b) == 0,
{
}

/// The flags that a condition is said to read are enough: where two states agree on them, the
/// condition is met in both or in neither.
pub proof fn law_read_flags_suffice(cond: Cond, f: Status, g: Status)
    requires
        forall|bit: u8| #[trigger]
            flags::is_flag(bit) && flags::cond_reads(cond) & bit != 0 ==> flag(f, bit) == flag(
                g,
                bit,
            ),
    ensures
        holds(cond, f) == holds(cond, g),
{
    lemma_bits();
    assert(flags::is_flag(1) && flags::is_flag(2) && flags::is_flag(8) && flags::is_flag(16)
        && flags::is_flag(32));
}

/// A condition reads a flag exactly where that flag can decide it.
pub proof fn law_read_flags_decide(cond: Cond, bit: u8)
    requires
        flags::is_flag(bit),
    ensures
        flags::cond_reads(cond) & bit != 0 <==> exists|f: Status| decides(cond, bit, f),
{
    lemma_bits();
    let clear = Status { cf: false, pf: false, af: false, zf: false, sf: false, of: false };
    assert(flags::cond_reads(cond) & bit != 0 ==> decides(cond, bit, clear));
}

/// The condition of the opposite name.
pub open spec fn opposite(cond: Cond) -> Cond {
    match cond {
        Cond::Eq => Cond::Ne,
        Cond::Ne => Cond::Eq,
        Cond::Below => Cond::AboveEq,
        Cond::AboveEq => Cond::Below,
        Cond::BelowEq => Cond::Above,
        Cond::Above => Cond::BelowEq,
        Cond::Less => Cond::GreaterEq,
        Cond::GreaterEq => Cond::Less,
        Cond::LessEq => Cond::Greater,
        Cond::Greater => Cond::LessEq,
        Cond::Sign => Cond::NoSign,
        Cond::NoSign => Cond::Sign,
        Cond::Overflow => Cond::NoOverflow,
        Cond::NoOverflow => Cond::Overflow,
        Cond::Parity => Cond::NoParity,
        Cond::NoParity => Cond::Parity,
    }
}

/// Of a condition and its opposite exactly one is met, and both look at the same flags.
pub proof fn law_opposites(cond: Cond, f: Status)
    ensures
        holds(opposite(cond), f) == !holds(cond, f),
        flags::cond_reads(opposite(cond)) == flags::cond_reads(cond),
{
}

// --- a run of a block ---

/// The guest in a run: its flags, and everything else.
pub struct Run<R> {
    pub flags: Status,
    pub rest: R,
}

/// What one operation computes, from what it sees of the flags.
pub struct Computed<R> {
    pub rest: R,
    /// The flags of its result.
    pub flags: Status,
    /// The flags that an operation without a mask writes.
    pub writes: u8,
}

/// How the operations of a run compute: `calc` gives what an operation without its mask
/// computes, from everything but the flags, from the carry, where it is one that takes the
/// carry in, and from whether its condition is met, where it has one. `count` gives the value
/// of a temporary.
#[verifier::reject_recursive_types(R)]
pub struct Backend<R> {
    pub calc: spec_fn(IrOp, R, bool, bool) -> Computed<R>,
    pub count: spec_fn(R, Temp) -> u64,
}

/// The operation takes the carry in.
pub open spec fn takes_carry(op: IrOp) -> bool {
    op is Adc || op is Sbb || op is Rcl || op is Rcr
}

/// The operation's condition is met.
pub open spec fn outcome(op: IrOp, f: Status) -> bool {
    match op {
        IrOp::GetCond { cond, .. } => holds(cond, f),
        IrOp::Branch { cond, .. } => holds(cond, f),
        _ => false,
    }
}

/// By how much an operation shifts or rotates, if it does: by the count modulo 64 for 64-bit
/// operands and modulo 32 for others, and through the carry modulo the width with the carry.
pub open spec fn shifts_by(op: IrOp, count: spec_fn(Temp) -> u64) -> Option<int> {
    match op {
        IrOp::Shl { b, size, .. }
        | IrOp::Shr { b, size, .. }
        | IrOp::Sar { b, size, .. }
        | IrOp::Rol { b, size, .. }
        | IrOp::Ror { b, size, .. }
        | IrOp::DoubleShift { count: b, size, .. } => Some(amount(b, size, count)),
        IrOp::Rcl { b, size, .. } | IrOp::Rcr { b, size, .. } => Some(
            amount(b, size, count) % (8 * size + 1),
        ),
        _ => None,
    }
}

/// The count of a shift, reduced by the width of its operand.
pub open spec fn amount(b: Val, size: u8, count: spec_fn(Temp) -> u64) -> int {
    let n = match b {
        Val::Imm(c) => c,
        Val::Temp(t) => count(t),
    };
    n as int % (if size == 8 {
        64int
    } else {
        32int
    })
}

/// The mask of an operation names the flag.
pub open spec fn masks(op: IrOp, bit: u8) -> bool {
    match op {
        IrOp::Add { set_flags, .. }
        | IrOp::Adc { set_flags, .. }
        | IrOp::Sub { set_flags, .. }
        | IrOp::Sbb { set_flags, .. }
        | IrOp::And { set_flags, .. }
        | IrOp::Or { set_flags, .. }
        | IrOp::Xor { set_flags, .. }
        | IrOp::Shl { set_flags, .. }
        | IrOp::Shr { set_flags, .. }
        | IrOp::Sar { set_flags, .. }
        | IrOp::Rol { set_flags, .. }
        | IrOp::Ror { set_flags, .. }
        | IrOp::Rcl { set_flags, .. }
        | IrOp::Rcr { set_flags, .. }
        | IrOp::DoubleShift { set_flags, .. }
        | IrOp::Mul { set_flags, .. } => set_flags.0 & bit != 0,
        _ => false,
    }
}

/// The operation has a mask.
pub open spec fn has_mask(op: IrOp) -> bool {
    op is Add || op is Adc || op is Sub || op is Sbb || op is And || op is Or || op is Xor
        || op is Shl || op is Shr || op is Sar || op is Rol || op is Ror || op is Rcl || op is Rcr
        || op is DoubleShift || op is Mul
}

/// The operation with an empty mask.
pub open spec fn bare(op: IrOp) -> IrOp {
    let set_flags = FlagMask::none();
    match op {
        IrOp::Add { dst, a, b, size, .. } => IrOp::Add { dst, a, b, size, set_flags },
        IrOp::Adc { dst, a, b, size, .. } => IrOp::Adc { dst, a, b, size, set_flags },
        IrOp::Sub { dst, a, b, size, .. } => IrOp::Sub { dst, a, b, size, set_flags },
        IrOp::Sbb { dst, a, b, size, .. } => IrOp::Sbb { dst, a, b, size, set_flags },
        IrOp::And { dst, a, b, size, .. } => IrOp::And { dst, a, b, size, set_flags },
        IrOp::Or { dst, a, b, size, .. } => IrOp::Or { dst, a, b, size, set_flags },
        IrOp::Xor { dst, a, b, size, .. } => IrOp::Xor { dst, a, b, size, set_flags },
        IrOp::Shl { dst, a, b, size, .. } => IrOp::Shl { dst, a, b, size, set_flags },
        IrOp::Shr { dst, a, b, size, .. } => IrOp::Shr { dst, a, b, size, set_flags },
        IrOp::Sar { dst, a, b, size, .. } => IrOp::Sar { dst, a, b, size, set_flags },
        IrOp::Rol { dst, a, b, size, .. } => IrOp::Rol { dst, a, b, size, set_flags },
        IrOp::Ror { dst, a, b, size, .. } => IrOp::Ror { dst, a, b, size, set_flags },
        IrOp::Rcl { dst, a, b, size, .. } => IrOp::Rcl { dst, a, b, size, set_flags },
        IrOp::Rcr { dst, a, b, size, .. } => IrOp::Rcr { dst, a, b, size, set_flags },
        IrOp::DoubleShift { dst, a, b, count, size, left, .. } => IrOp::DoubleShift {
            dst,
            a,
            b,
            count,
            size,
            left,
            set_flags,
        },
        IrOp::Mul { lo, hi, a, b, size, signed, .. } => IrOp::Mul {
            lo,
            hi,
            a,
            b,
            size,
            signed,
            set_flags,
        },
        _ => op,
    }
}

/// Whether the operation writes the flag in this state: its mask names it, unless it shifts by
/// nothing; an operation without a mask writes what it is said to write.
pub open spec fn writes_flag<R>(op: IrOp, b: Backend<R>, r: Run<R>, bit: u8) -> bool {
    if has_mask(op) {
        masks(op, bit) && shifts_by(op, |t: Temp| (b.count)(r.rest, t)) != Some(0int)
    } else {
        computed(op, b, r).writes & bit != 0
    }
}

/// What the operation computes in this state.
pub open spec fn computed<R>(op: IrOp, b: Backend<R>, r: Run<R>) -> Computed<R> {
    (b.calc)(bare(op), r.rest, takes_carry(op) && r.flags.cf, outcome(op, r.flags))
}

/// The flag after the operation.
pub open spec fn flag_after<R>(op: IrOp, b: Backend<R>, r: Run<R>, bit: u8) -> bool {
    if writes_flag(op, b, r, bit) {
        flag(computed(op, b, r).flags, bit)
    } else {
        flag(r.flags, bit)
    }
}

/// The guest after one operation.
pub open spec fn after<R>(op: IrOp, b: Backend<R>, r: Run<R>) -> Run<R> {
    Run {
        flags: Status {
            cf: flag_after(op, b, r, 1),
            pf: flag_after(op, b, r, 2),
            af: flag_after(op, b, r, 4),
            zf: flag_after(op, b, r, 8),
            sf: flag_after(op, b, r, 16),
            of: flag_after(op, b, r, 32),
        },
        rest: computed(op, b, r).rest,
    }
}

/// The guest before operation `i` of a block.
pub open spec fn reached<R>(ops: Seq<IrOp>, b: Backend<R>, r: Run<R>, i: int) -> Run<R>
    decreases i,
{
    if i <= 0 {
        r
    } else {
        after(ops[i - 1], b, reached(ops, b, r, i - 1))
    }
}

/// The states agree on everything but flags, and on the flags that `live` names.
pub open spec fn agree<R>(x: Run<R>, y: Run<R>, live: u8) -> bool {
    &&& x.rest == y.rest
    &&& forall|bit: u8| #[trigger]
        flags::is_flag(bit) && live & bit != 0 ==> flag(x.flags, bit) == flag(y.flags, bit)
}

proof fn lemma_counts(n: u64)
    by (bit_vector)
    ensures
        n & 0x3f == n % 64,
        n & 0x1f == n % 32,
{
}

/// A shift that is by nothing in some state is one that may skip its flags.
proof fn lemma_may_skip(op: IrOp, count: spec_fn(Temp) -> u64)
    ensures
        shifts_by(op, count) == Some(0int) ==> flags::shift_flags_may_skip(&op),
        flags::flag_mask(op) is Some <==> has_mask(op),
        forall|bit: u8| #[trigger] masks(op, bit) <==> has_mask(op) && flags::flag_mask(op)->0 & bit
            != 0,
{
    if let Some((Val::Imm(n), size, c)) = flags::shift_count(op) {
        lemma_counts(n);
    }
}

/// Narrowing a mask to what is live changes nothing that an operation computes.
proof fn lemma_narrowed_bare(op: IrOp, live: u8)
    ensures
        bare(flags::narrowed(op, live)) == bare(op),
        takes_carry(flags::narrowed(op, live)) == takes_carry(op),
        has_mask(flags::narrowed(op, live)) == has_mask(op),
        forall|f: Status| #[trigger] outcome(flags::narrowed(op, live), f) == outcome(op, f),
        forall|count: spec_fn(Temp) -> u64| #[trigger]
            shifts_by(flags::narrowed(op, live), count) == shifts_by(op, count),
        forall|bit: u8| #[trigger]
            flags::is_flag(bit) ==> (masks(flags::narrowed(op, live), bit) <==> masks(op, bit)
                && live & bit != 0),
{
    if flags::flag_mask(op) is Some {
        let m = flags::flag_mask(op)->0;
        flags::lemma_flag_bits(m, live, 0, 1);
        assert forall|bit: u8| #[trigger] flags::is_flag(bit) implies ((m & live) & bit != 0 <==> m
            & bit != 0 && live & bit != 0) by {
            flags::lemma_flag_bits(m, live, 0, bit);
        }
    }
}

/// One operation with its mask narrowed to what is live behind it does the same to what is
/// live.
proof fn lemma_after<R>(op: IrOp, live: u8, b: Backend<R>, x: Run<R>, y: Run<R>)
    requires
        agree(x, y, flags::live_before(op, live)),
    ensures
        agree(after(flags::narrowed(op, live), b, x), after(op, b, y), live),
        outcome(op, x.flags) == outcome(op, y.flags),
{
    let small = flags::narrowed(op, live);
    let before = flags::live_before(op, live);
    let reads = flags::op_reads(&op);
    let mask = match flags::flag_mask(op) {
        Some(m) => m,
        None => 0,
    };
    let kills = if flags::shift_flags_may_skip(&op) {
        0u8
    } else {
        mask & live
    };
    assert forall|bit: u8| #[trigger] flags::is_flag(bit) implies {
        &&& reads & bit != 0 ==> before & bit != 0
        &&& live & bit != 0 && (flags::flag_mask(op) is None || kills & bit == 0) ==> before & bit
            != 0
        &&& kills & bit != 0 ==> mask & bit != 0 && !flags::shift_flags_may_skip(&op)
    } by {
        flags::lemma_flag_bits(live, kills, reads, bit);
        flags::lemma_flag_bits(live & !kills, 0, reads, bit);
        flags::lemma_flag_bits(live, 0, reads, bit);
        flags::lemma_flag_bits(mask, live, 0, bit);
    }
    match op {
        IrOp::GetCond { cond, .. } => law_read_flags_suffice(cond, x.flags, y.flags),
        IrOp::Branch { cond, .. } => law_read_flags_suffice(cond, x.flags, y.flags),
        _ => {},
    }
    if takes_carry(op) {
        lemma_bits();
        assert(flags::is_flag(1));
        assert(x.flags.cf == y.flags.cf);
    }
    lemma_narrowed_bare(op, live);
    lemma_may_skip(op, |t: Temp| (b.count)(x.rest, t));
    assert(computed(small, b, x) == computed(op, b, y));
    assert forall|bit: u8| #[trigger] flags::is_flag(bit) && live & bit != 0 implies flag_after(
        small,
        b,
        x,
        bit,
    ) == flag_after(op, b, y, bit) by {
        assert(masks(small, bit) <==> masks(op, bit));
        assert(masks(op, bit) <==> has_mask(op) && mask & bit != 0);
        flags::lemma_flag_bits(mask, live, 0, bit);
    }
    let x1 = after(small, b, x);
    let y1 = after(op, b, y);
    assert forall|bit: u8| #[trigger] flags::is_flag(bit) && live & bit != 0 implies flag(
        x1.flags,
        bit,
    ) == flag(y1.flags, bit) by {
        assert(flag(x1.flags, bit) == flag_after(small, b, x, bit));
        assert(flag(y1.flags, bit) == flag_after(op, b, y, bit));
    }
}

proof fn lemma_reached<R>(ops: Seq<IrOp>, b: Backend<R>, r: Run<R>, i: int)
    requires
        0 <= i <= ops.len(),
    ensures
        agree(reached(flags::elided(ops), b, r, i), reached(ops, b, r, i), flags::live_at(ops, i)),
    decreases i,
{
    if i > 0 {
        lemma_reached(ops, b, r, i - 1);
        lemma_after(
            ops[i - 1],
            flags::live_at(ops, i),
            b,
            reached(flags::elided(ops), b, r, i - 1),
            reached(ops, b, r, i - 1),
        );
    }
}

/// Dropping dead flags does not change what a block does. However its operations compute, and
/// whatever state it starts in, before each operation everything but the flags is as it would
/// be with all flags computed; each condition that is materialised or branched on is met or not
/// as it would be; and at the end all flags are as they would be.
pub proof fn law_elision_keeps_behaviour<R>(ops: Seq<IrOp>, b: Backend<R>, r: Run<R>, i: int)
    requires
        0 <= i <= ops.len(),
    ensures
        reached(flags::elided(ops), b, r, i).rest == reached(ops, b, r, i).rest,
        i < ops.len() ==> outcome(flags::elided(ops)[i], reached(flags::elided(ops), b, r, i).flags)
            == outcome(ops[i], reached(ops, b, r, i).flags),
        reached(flags::elided(ops), b, r, ops.len() as int) == reached(
            ops,
            b,
            r,
            ops.len() as int,
        ),
{
    lemma_reached(ops, b, r, i);
    let e = reached(flags::elided(ops), b, r, i);
    let p = reached(ops, b, r, i);
    if i < ops.len() {
        lemma_after(ops[i], flags::live_at(ops, i + 1), b, e, p);
        lemma_narrowed_bare(ops[i], flags::live_at(ops, i + 1));
    }
    let n = ops.len() as int;
    lemma_reached(ops, b, r, n);
    let e1 = reached(flags::elided(ops), b, r, n);
    let p1 = reached(ops, b, r, n);
    assert forall|bit: u8| #[trigger] flags::is_flag(bit) implies flag(e1.flags, bit) == flag(
        p1.flags,
        bit,
    ) by {
        flags::lemma_flag_bits(flags::F_ALL, 0, 0, bit);
    }
    assert(flags::is_flag(1) && flags::is_flag(2) && flags::is_flag(4) && flags::is_flag(8)
        && flags::is_flag(16) && flags::is_flag(32));
    assert(flag(e1.flags, 1) == flag(p1.flags, 1) && flag(e1.flags, 2) == flag(p1.flags, 2)
        && flag(e1.flags, 4) == flag(p1.flags, 4) && flag(e1.flags, 8) == flag(p1.flags, 8)
        && flag(e1.flags, 16) == flag(p1.flags, 16) && flag(e1.flags, 32) == flag(p1.flags, 32));
}

/// The operation may look at the flag: it takes the carry in, or its condition can turn on it.
pub open spec fn may_look_at(op: IrOp, bit: u8) -> bool {
    ||| takes_carry(op) && bit == 1
    ||| exists|f: Status| outcome(op, f) != outcome(op, turned(f, bit))
}

/// The operation writes the flag for certain: its mask names it, and it does not shift, or by
/// a constant that is not nothing.
pub open spec fn surely_writes(op: IrOp, bit: u8) -> bool {
    &&& masks(op, bit)
    &&& forall|count: spec_fn(Temp) -> u64| #[trigger] shifts_by(op, count) != Some(0int)
}

proof fn lemma_reads_are_looks(op: IrOp, bit: u8)
    requires
        flags::is_flag(bit),
    ensures
        flags::op_reads(&op) & bit != 0 <==> may_look_at(op, bit),
{
    lemma_bits();
    flags::lemma_flag_bits(0, 0, 0, bit);
    match op {
        IrOp::GetCond { cond, .. } => {
            law_read_flags_decide(cond, bit);
            if flags::cond_reads(cond) & bit != 0 {
                let f = choose|f: Status| decides(cond, bit, f);
                assert(outcome(op, f) != outcome(op, turned(f, bit)));
            }
            if may_look_at(op, bit) {
                let f = choose|f: Status| outcome(op, f) != outcome(op, turned(f, bit));
                assert(decides(cond, bit, f));
            }
        },
        IrOp::Branch { cond, .. } => {
            law_read_flags_decide(cond, bit);
            if flags::cond_reads(cond) & bit != 0 {
                let f = choose|f: Status| decides(cond, bit, f);
                assert(outcome(op, f) != outcome(op, turned(f, bit)));
            }
            if may_look_at(op, bit) {
                let f = choose|f: Status| outcome(op, f) != outcome(op, turned(f, bit));
                assert(decides(cond, bit, f));
            }
        },
        _ => {},
    }
}

proof fn lemma_dead_until(ops: Seq<IrOp>, bit: u8, i: int, j: int)
    requires
        flags::is_flag(bit),
        0 <= i <= j < ops.len(),
        surely_writes(ops[j], bit),
        forall|k: int| i <= k <= j ==> !may_look_at(#[trigger] ops[k], bit),
    ensures
        flags::live_at(ops, i) & bit == 0,
    decreases j - i,
{
    let op = ops[i];
    let live = flags::live_at(ops, i + 1);
    let reads = flags::op_reads(&op);
    lemma_reads_are_looks(op, bit);
    let mask = match flags::flag_mask(op) {
        Some(m) => m,
        None => 0,
    };
    let kills = if flags::shift_flags_may_skip(&op) {
        0u8
    } else {
        mask & live
    };
    flags::lemma_flag_bits(live, kills, reads, bit);
    flags::lemma_flag_bits(live & !kills, 0, reads, bit);
    flags::lemma_flag_bits(live, 0, reads, bit);
    flags::lemma_flag_bits(mask, live, 0, bit);
    if i < j {
        lemma_dead_until(ops, bit, i + 1, j);
    } else {
        let zero = |t: Temp| 0u64;
        lemma_may_skip(op, zero);
        assert(shifts_by(op, zero) != Some(0int));
        match flags::shift_count(op) {
            Some((Val::Imm(n), size, c)) => lemma_counts(n),
            Some((Val::Temp(t), size, c)) => {
                vstd::arithmetic::div_mod::lemma_small_mod(0, (8 * size + 1) as nat);
            },
            None => {},
        }
        assert(!flags::shift_flags_may_skip(&op));
        assert(mask & bit != 0);
    }
}

/// A flag that is written again before anything looks at it is dropped.
pub proof fn law_dead_flags_are_dropped(ops: Seq<IrOp>, bit: u8, i: int, j: int)
    requires
        flags::is_flag(bit),
        0 <= i < j < ops.len(),
        surely_writes(ops[j], bit),
        forall|k: int| i < k <= j ==> !may_look_at(#[trigger] ops[k], bit),
    ensures
        !masks(flags::elided(ops)[i], bit),
{
    lemma_dead_until(ops, bit, i + 1, j);
    lemma_narrowed_bare(ops[i], flags::live_at(ops, i + 1));
}

} // verus!
