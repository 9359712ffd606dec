//! Emission of IR: the operations of a block under construction and its temporaries.
use crate::insn::Insn;
use crate::ir::{IrOp, Temp, TempGen, Val};
use crate::lift::LiftError;
use crate::state::Reg;
use vstd::prelude::*;

verus! {

/// What has been emitted so far: the operations, the next temporary, and whether the
/// instruction could be lifted up to here. Once `ok` is lost nothing more is emitted.
pub struct Emission {
    pub ops: Seq<IrOp>,
    pub next: u32,
    pub ok: bool,
}

/// The address of the instruction that an operation marks the start of.
pub open spec fn start_of(op: IrOp) -> Option<u64> {
    match op {
        IrOp::InsnStart { guest_addr } => Some(guest_addr),
        _ => None,
    }
}

/// The addresses of the instructions that `ops` comes from, in their order.
pub open spec fn starts(ops: Seq<IrOp>) -> Seq<u64>
    decreases ops.len(),
{
    if ops.len() == 0 {
        Seq::empty()
    } else {
        match start_of(ops.last()) {
            Some(addr) => starts(ops.drop_last()).push(addr),
            None => starts(ops.drop_last()),
        }
    }
}

/// The rules for operations: none that is reserved is emitted; the instruction pointer is never
/// read, for it is stale within a block; and neither it nor a segment base is written in part.
pub open spec fn obeys_rules(op: IrOp) -> bool {
    match op {
        IrOp::ReadReg { reg, .. } => reg != Reg::Rip,
        IrOp::WriteReg { reg, size, .. } => size == 8 || reg.is_general(),
        _ => !op.reserved(),
    }
}

impl Emission {
    /// One more operation.
    pub open spec fn push(self, op: IrOp) -> Emission {
        if self.ok {
            Emission { ops: self.ops.push(op), ..self }
        } else {
            self
        }
    }

    /// One more temporary; it is the one that `next` named before.
    pub open spec fn fresh(self) -> Emission {
        if self.ok {
            Emission { next: (self.next + 1) as u32, ..self }
        } else {
            self
        }
    }

    /// An operation that produces temporary `next`.
    pub open spec fn def(self, op: IrOp) -> Emission {
        self.fresh().push(op)
    }

    /// The instruction cannot be lifted.
    pub open spec fn fail(self) -> Emission {
        Emission { ok: false, ..self }
    }

    /// The same operations, with no failure recorded.
    pub open spec fn settled(self) -> Emission {
        Emission { ok: true, ..self }
    }

    /// Every operation reads constants and temporaries written before it, temporaries
    /// stay below `next`, and the rules for operations are kept.
    pub open spec fn inv(self) -> bool {
        &&& forall|i: int|
            0 <= i < self.ops.len() ==> (#[trigger] self.ops[i]).reads_from(self.ops.take(i))
        &&& forall|i: int, t: Temp|
            0 <= i < self.ops.len() && #[trigger] self.ops[i].writes(t) ==> t < self.next
        &&& forall|i: int|
            0 <= i < self.ops.len() ==> obeys_rules(#[trigger] self.ops[i])
    }

    /// No operation ends the block yet.
    pub open spec fn open(self) -> bool {
        forall|i: int| 0 <= i < self.ops.len() ==> !(#[trigger] self.ops[i]).ends_block()
    }

    /// The last operation, and no other, ends the block.
    pub open spec fn closed(self) -> bool {
        &&& self.ops.len() > 0
        &&& self.ops.last().ends_block()
        &&& forall|i: int| 0 <= i < self.ops.len() - 1 ==> !(#[trigger] self.ops[i]).ends_block()
    }

    /// Emission can go on, with at least `n` temporaries left.
    pub open spec fn ready(self, n: int) -> bool {
        &&& self.ok
        &&& self.inv()
        &&& self.open()
        &&& self.next + n <= u32::MAX
    }

    /// `post` goes on from `self` within one instruction: its operations begin with those of
    /// `self`, it has at most `n` temporaries more, what it adds writes none but these, and it
    /// knows every temporary that `self` knows.
    pub open spec fn grown(self, post: Emission, n: int) -> bool {
        &&& post.inv()
        &&& self.next <= post.next <= self.next + n
        &&& self.ops.len() <= post.ops.len()
        &&& forall|i: int| 0 <= i < self.ops.len() ==> #[trigger] post.ops[i] == self.ops[i]
        &&& forall|i: int, t: Temp|
            self.ops.len() <= i < post.ops.len() && #[trigger] post.ops[i].writes(t) ==> self.next
                <= t < post.next
        &&& forall|t: Temp| IrOp::known(self.ops, t) ==> #[trigger] IrOp::known(post.ops, t)
        &&& starts(post.ops) == starts(self.ops)
    }
}

/// Operations and temporaries of a block under construction.
pub struct Emitter {
    pub ops: Vec<IrOp>,
    pub temps: TempGen,
}

impl View for Emitter {
    type V = Emission;

    open spec fn view(&self) -> Emission {
        Emission { ops: self.ops@, next: self.temps.count(), ok: true }
    }
}

/// The outcome of reducing an operand of `insn` to a value, where `want` is what has to
/// be emitted and the value it gives: at most `n` temporaries are used.
pub open spec fn lowered(
    pre: Emission,
    post: Emission,
    want: (Emission, Val),
    insn: &Insn,
    r: Result<Val, LiftError>,
    n: int,
) -> bool {
    &&& post == want.0.settled()
    &&& r is Ok <==> want.0.ok
    &&& r matches Ok(v) ==> v == want.1 && v.in_scope(post.ops)
    &&& r matches Err(e) ==> e.is_unsupported(insn)
    &&& pre.grown(post, n)
    &&& post.open()
}

/// The outcome of lifting `insn` from `pre`, where `want` is what has to be emitted:
/// exactly that is emitted, and the result is an error if and only if `want` failed.
pub open spec fn lifted(
    pre: Emission,
    post: Emission,
    want: Emission,
    insn: &Insn,
    r: Result<(), LiftError>,
) -> bool {
    &&& post == want.settled()
    &&& r is Ok <==> want.ok
    &&& r matches Err(e) ==> e.is_unsupported(insn)
    &&& pre.grown(post, 64)
    &&& post.open()
}

/// The outcome of lifting `insn` from `pre` where `want` is what has to be emitted and
/// whether that ends the block.
pub open spec fn dispatched(
    pre: Emission,
    post: Emission,
    want: (Emission, bool),
    insn: &Insn,
    r: Result<bool, LiftError>,
) -> bool {
    &&& post == want.0.settled()
    &&& r is Ok <==> want.0.ok
    &&& r matches Ok(ends) ==> ends == want.1
    &&& r matches Err(e) ==> e.is_unsupported(insn)
    &&& pre.grown(post, 64)
    &&& if r == Ok::<bool, LiftError>(true) {
        post.closed()
    } else {
        post.open()
    }
}

pub proof fn lemma_known_push(ops: Seq<IrOp>, op: IrOp, t: Temp)
    ensures
        IrOp::known(ops.push(op), t) <==> (IrOp::known(ops, t) || op.writes(t)),
{
    let next = ops.push(op);
    if IrOp::known(ops, t) {
        let i = choose|i: int| 0 <= i < ops.len() && (#[trigger] ops[i]).writes(t);
        assert(next[i].writes(t));
    }
    if op.writes(t) {
        assert(next[ops.len() as int].writes(t));
    }
    if IrOp::known(next, t) {
        let i = choose|i: int| 0 <= i < next.len() && (#[trigger] next[i]).writes(t);
        if i < ops.len() {
            assert(ops[i].writes(t));
        }
    }
}

impl Emitter {
    pub fn new() -> (r: Emitter)
        ensures
            r@ == (Emission { ops: Seq::empty(), next: 0, ok: true }),
            r@.inv(),
            r@.open(),
    {
        Emitter { ops: Vec::new(), temps: TempGen::new() }
    }

    /// The next temporary.
    pub fn fresh(&mut self) -> (t: Temp)
        requires
            old(self)@.ready(1),
        ensures
            t == old(self)@.next,
            final(self)@ == old(self)@.fresh(),
            final(self)@.inv(),
            final(self)@.open(),
    {
        self.temps.fresh()
    }

    /// Appends an operation that does not end the block.
    pub fn push(&mut self, op: IrOp)
        requires
            old(self)@.ready(0),
            op.reads_from(old(self)@.ops),
            forall|t: Temp| #[trigger] op.writes(t) ==> t < old(self)@.next,
            !op.ends_block(),
            obeys_rules(op),
        ensures
            final(self)@ == old(self)@.push(op),
            final(self)@.inv(),
            final(self)@.open(),
            !(op is InsnStart) ==> starts(final(self)@.ops) == starts(old(self)@.ops),
            op matches IrOp::InsnStart { guest_addr } ==> starts(final(self)@.ops) == starts(
                old(self)@.ops,
            ).push(guest_addr),
            forall|t: Temp| #[trigger]
                IrOp::known(final(self)@.ops, t) <==> (IrOp::known(old(self)@.ops, t) || op.writes(t)),
    {
        let ghost pre = self@.ops;
        self.ops.push(op);
        proof {
            assert(self@.ops.drop_last() =~= pre);
            assert forall|i: int| 0 <= i < self@.ops.len() implies (
            #[trigger] self@.ops[i]).reads_from(self@.ops.take(i)) by {
                assert(self@.ops.take(i) =~= pre.take(i));
                if i < pre.len() {
                    assert(pre[i].reads_from(pre.take(i)));
                } else {
                    assert(pre.take(i) =~= pre);
                }
            }
            assert forall|t: Temp| #[trigger]
                IrOp::known(self@.ops, t) <==> (IrOp::known(pre, t) || op.writes(t)) by {
                lemma_known_push(pre, op, t);
            }
        }
    }

    /// Appends an operation that produces the temporary `t` that was asked for just now.
    pub fn def(&mut self, t: Temp, op: IrOp)
        requires
            old(self)@.ready(1),
            t == old(self)@.next,
            op.reads_from(old(self)@.ops),
            forall|u: Temp| #[trigger] op.writes(u) ==> u <= t,
            !op.ends_block(),
            !(op is InsnStart),
            obeys_rules(op),
        ensures
            final(self)@ == old(self)@.def(op),
            final(self)@.inv(),
            final(self)@.open(),
            starts(final(self)@.ops) == starts(old(self)@.ops),
            forall|u: Temp| #[trigger]
                IrOp::known(final(self)@.ops, u) <==> (IrOp::known(old(self)@.ops, u) || op.writes(u)),
    {
        let _ = self.fresh();
        self.push(op);
    }

    /// The temporary that the next operation will produce.
    pub fn peek(&self) -> (t: Temp)
        ensures
            t == self@.next,
    {
        self.temps.count()
    }

    /// Appends the operation that ends the block.
    pub fn end(&mut self, op: IrOp)
        requires
            old(self)@.ready(0),
            op.reads_from(old(self)@.ops),
            op.ends_block(),
        ensures
            final(self)@ == old(self)@.push(op),
            final(self)@.inv(),
            final(self)@.closed(),
            old(self)@.grown(final(self)@, 0),
    {
        let ghost pre = self@.ops;
        self.ops.push(op);
        proof {
            assert(self@.ops.drop_last() =~= pre);
            assert forall|i: int| 0 <= i < self@.ops.len() implies (
            #[trigger] self@.ops[i]).reads_from(self@.ops.take(i)) by {
                assert(self@.ops.take(i) =~= pre.take(i));
                if i < pre.len() {
                    assert(pre[i].reads_from(pre.take(i)));
                } else {
                    assert(pre.take(i) =~= pre);
                }
            }
            assert forall|t: Temp| IrOp::known(pre, t) implies #[trigger] IrOp::known(
                self@.ops,
                t,
            ) by {
                lemma_known_push(pre, op, t);
            }
        }
    }
}

} // verus!
