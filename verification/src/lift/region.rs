//! Regions: the blocks that static control flow reaches from an entry.
use crate::ir::{IrBlock, IrOp, IrRegion, RegionCaps, Val};
use crate::lift::block::{lift_block_with, BlockView, BLOCK_FETCH_WINDOW};
use crate::lift::{block, CpuMode, LiftError};
use crate::memory::Memory;
use std::collections::HashMap;
use vstd::prelude::*;

verus! {

broadcast use vstd::std_specs::hash::group_hash_axioms;

/// How the blocks of a region are lifted: for which mode, and whether flags that nothing
/// observes are dropped.
#[derive(Copy, Clone, Debug)]
pub struct Lifting {
    pub mode: CpuMode,
    pub elide: bool,
}

/// The block at `start`, where one can be lifted.
pub open spec fn block_at(mem: &Memory, start: u64, how: Lifting) -> Option<BlockView> {
    block::block_of(
        block::block_scan(mem.code_at(start, BLOCK_FETCH_WINDOW as nat), start, how.mode),
        start,
        how.elide,
    )
}

/// The addresses to which control flow goes statically: the target of an unconditional
/// jump to a constant, or the two arms of a conditional branch.
pub open spec fn succs(ops: Seq<IrOp>) -> Seq<u64> {
    if ops.len() == 0 {
        seq![]
    } else {
        match ops.last() {
            IrOp::Jump { target: Val::Imm(t) } => seq![t],
            IrOp::Branch { taken, fallthrough, .. } => seq![taken, fallthrough],
            _ => seq![],
        }
    }
}

/// The operation can set the instruction pointer to the constant `t`.
pub open spec fn goes_to(op: IrOp, t: u64) -> bool {
    match op {
        IrOp::Jump { target } => target == Val::Imm(t),
        IrOp::Branch { taken, fallthrough, .. } => t == taken || t == fallthrough,
        _ => false,
    }
}

/// The static edge from a block with these operations to the address `t`.
pub open spec fn leads_to(ops: Seq<IrOp>, t: u64) -> bool {
    ops.len() > 0 && goes_to(ops[ops.len() - 1], t)
}

/// The static successors of a block are exactly the constants that its last operation can set
/// the instruction pointer to, whichever they are; of a branch the taken arm comes first.
pub proof fn law_successors(ops: Seq<IrOp>)
    ensures
        forall|t: u64| #[trigger] succs(ops).contains(t) <==> leads_to(ops, t),
        ops.len() > 0 && ops.last() is Branch ==> succs(ops).len() == 2 && succs(ops)[0]
            == ops.last()->taken && succs(ops)[1] == ops.last()->fallthrough,
        succs(ops).len() <= 2,
{
    assert forall|t: u64| #[trigger] succs(ops).contains(t) <==> leads_to(ops, t) by {
        let v = succs(ops);
        if leads_to(ops, t) {
            assert(v[0] == t || (v.len() == 2 && v[1] == t));
        }
        if v.contains(t) {
            let i = choose|i: int| 0 <= i < v.len() && v[i] == t;
            assert(i == 0 || i == 1);
        }
    }
}

/// The static successors of a block: the constants that its last operation can set the
/// instruction pointer to.
pub fn static_succs(block: &IrBlock) -> (r: Vec<u64>)
    ensures
        r@ == succs(block.ops@),
        forall|t: u64| #[trigger] r@.contains(t) <==> leads_to(block.ops@, t),
{
    proof {
        law_successors(block.ops@);
    }
    let n: usize = block.ops.len();
    if n == 0 {
        return Vec::new();
    }
    match &block.ops[n - 1] {
        IrOp::Jump { target: Val::Imm(t) } => vec![*t],
        IrOp::Branch { taken, fallthrough, .. } => vec![*taken, *fallthrough],
        _ => Vec::new(),
    }
}

/// How far a depth-first walk has come.
#[verifier::ext_equal]
pub struct Walk {
    /// The blocks in the region.
    pub seen: Set<u64>,
    /// Those whose successors have all been walked, in that order.
    pub post: Seq<u64>,
    /// The instructions in the region.
    pub icount: nat,
}

impl Walk {
    /// No further block fits in the region.
    pub open spec fn full(self, caps: RegionCaps) -> bool {
        self.seen.len() >= caps.max_blocks || self.icount >= caps.max_icount
    }

    /// The region with the block at `addr` added.
    pub open spec fn enter(self, addr: u64, b: BlockView) -> Walk {
        Walk { seen: self.seen.insert(addr), icount: self.icount + b.icount, ..self }
    }
}

/// Walks on from the block at `addr`, which is in the region. `depth` bounds how deep the
/// walk goes; no walk is deeper than the number of blocks.
pub open spec fn visit(
    mem: &Memory,
    caps: RegionCaps,
    how: Lifting,
    depth: nat,
    addr: u64,
    w: Walk,
) -> Walk
    decreases depth, 0nat,
{
    if depth == 0 {
        w
    } else {
        let targets = succs(block_at(mem, addr, how)->0.ops);
        let w1 = edges(mem, caps, how, (depth - 1) as nat, targets, w);
        Walk { post: w1.post.push(addr), ..w1 }
    }
}

/// Walks along each of the edges in turn. An edge to a block that is in the region already,
/// that cannot be lifted, or that no longer fits, is left to leave the region.
pub open spec fn edges(
    mem: &Memory,
    caps: RegionCaps,
    how: Lifting,
    depth: nat,
    targets: Seq<u64>,
    w: Walk,
) -> Walk
    decreases depth, targets.len(),
{
    if targets.len() == 0 {
        w
    } else {
        let w1 = edges(mem, caps, how, depth, targets.drop_last(), w);
        let t = targets.last();
        if w1.seen.contains(t) || w1.full(caps) {
            w1
        } else {
            match block_at(mem, t, how) {
                None => w1,
                Some(b) => visit(mem, caps, how, depth, t, w1.enter(t, b)),
            }
        }
    }
}

/// The whole walk from `entry`.
pub open spec fn region_walk(mem: &Memory, entry: u64, caps: RegionCaps, how: Lifting) -> Walk {
    let start = Walk { seen: Set::empty(), post: Seq::empty(), icount: 0 };
    visit(
        mem,
        caps,
        how,
        caps.max_blocks as nat + 1,
        entry,
        start.enter(entry, block_at(mem, entry, how)->0),
    )
}

/// The blocks of the region at `entry` in reverse post-order.
pub open spec fn region_order(
    mem: &Memory,
    entry: u64,
    caps: RegionCaps,
    how: Lifting,
) -> Seq<u64> {
    region_walk(mem, entry, caps, how).post.reverse()
}

/// A static edge of the region at index `i` leads to a block that is not behind it.
pub open spec fn back_edge(blocks: Seq<IrBlock>, i: int, k: int, j: int) -> bool {
    &&& 0 <= j <= i < blocks.len()
    &&& 0 <= k < succs(blocks[i].ops@).len()
    &&& blocks[j].guest_start == succs(blocks[i].ops@)[k]
}

/// Some static edge leads back.
pub open spec fn loops(blocks: Seq<IrBlock>) -> bool {
    exists|i: int, k: int, j: int| back_edge(blocks, i, k, j)
}

/// What holds of a walk: a block is finished once, after it was entered, and can be lifted.
pub open spec fn walk_inv(mem: &Memory, how: Lifting, w: Walk) -> bool {
    &&& w.seen.finite()
    &&& w.post.no_duplicates()
    &&& forall|i: int| 0 <= i < w.post.len() ==> w.seen.contains(#[trigger] w.post[i])
    &&& forall|a: u64| #[trigger] w.seen.contains(a) ==> block_at(mem, a, how) is Some
}

/// The edge from the block at `a` to `t` is within the region, or leads to no block, or the
/// region is full.
pub open spec fn settled(mem: &Memory, caps: RegionCaps, how: Lifting, w: Walk, t: u64) -> bool {
    w.seen.contains(t) || block_at(mem, t, how) is None || w.full(caps)
}

/// Every edge of the block that was finished at index `i` is settled.
pub open spec fn explored(
    mem: &Memory,
    caps: RegionCaps,
    how: Lifting,
    w: Walk,
    i: int,
) -> bool {
    forall|t: u64| #[trigger]
        succs(block_at(mem, w.post[i], how)->0.ops).contains(t) ==> settled(mem, caps, how, w, t)
}

/// The block that was finished at index `i` is a successor of one that was finished later.
pub open spec fn has_parent(mem: &Memory, how: Lifting, post: Seq<u64>, i: int, p: int) -> bool {
    &&& i < p < post.len()
    &&& succs(block_at(mem, post[p], how)->0.ops).contains(post[i])
}

/// Some block that was finished later has the one at index `i` as a successor.
pub open spec fn parented(mem: &Memory, how: Lifting, post: Seq<u64>, i: int) -> bool {
    exists|p: int| has_parent(mem, how, post, i, p)
}

/// What part of a walk does: it only adds, and finishes every block that it enters.
pub open spec fn progress(
    mem: &Memory,
    caps: RegionCaps,
    how: Lifting,
    w: Walk,
    w1: Walk,
) -> bool {
    &&& walk_inv(mem, how, w1)
    &&& w.seen.subset_of(w1.seen)
    &&& w.icount <= w1.icount
    &&& w.post.len() <= w1.post.len()
    &&& w1.post.take(w.post.len() as int) == w.post
    &&& forall|a: u64| #[trigger]
        w1.seen.contains(a) && !w.seen.contains(a) ==> w1.post.contains(a)
    &&& forall|i: int|
        w.post.len() <= i < w1.post.len() ==> #[trigger] explored(mem, caps, how, w1, i)
    &&& w1.seen.len() <= w.seen.len() || w1.seen.len() <= caps.max_blocks
}

/// What the walk from the block at `addr` does: that block is finished last, and each other
/// that it finishes is a successor of one that it finishes later.
pub open spec fn visited(
    mem: &Memory,
    caps: RegionCaps,
    how: Lifting,
    addr: u64,
    w: Walk,
    w1: Walk,
) -> bool {
    &&& progress(mem, caps, how, w, w1)
    &&& w1.post.len() > w.post.len()
    &&& w1.post.last() == addr
    &&& forall|i: int|
        w.post.len() <= i < w1.post.len() - 1 ==> !w.seen.contains(#[trigger] w1.post[i])
    &&& forall|i: int|
        w.post.len() <= i < w1.post.len() - 1 ==> #[trigger] parented(mem, how, w1.post, i)
}

proof fn lemma_explored_stays(
    mem: &Memory,
    caps: RegionCaps,
    how: Lifting,
    w: Walk,
    w1: Walk,
    i: int,
)
    requires
        explored(mem, caps, how, w, i),
        0 <= i < w.post.len() <= w1.post.len(),
        w.post[i] == w1.post[i],
        w.seen.subset_of(w1.seen),
        w1.seen.finite(),
        w.icount <= w1.icount,
    ensures
        explored(mem, caps, how, w1, i),
{
    vstd::set_lib::lemma_len_subset(w.seen, w1.seen);
    assert forall|t: u64| #[trigger]
        succs(block_at(mem, w1.post[i], how)->0.ops).contains(t) implies settled(
        mem,
        caps,
        how,
        w1,
        t,
    ) by {
        assert(settled(mem, caps, how, w, t));
    }
}

proof fn lemma_visit(
    mem: &Memory,
    caps: RegionCaps,
    how: Lifting,
    depth: nat,
    addr: u64,
    w: Walk,
)
    requires
        walk_inv(mem, how, w),
        w.seen.contains(addr),
        !w.post.contains(addr),
        depth > 0,
        depth + w.seen.len() > caps.max_blocks,
    ensures
        visited(mem, caps, how, addr, w, visit(mem, caps, how, depth, addr, w)),
    decreases depth, 0nat,
{
    let targets = succs(block_at(mem, addr, how)->0.ops);
    let d = (depth - 1) as nat;
    let w1 = edges(mem, caps, how, d, targets, w);
    let w2 = visit(mem, caps, how, depth, addr, w);
    lemma_edges(mem, caps, how, d, targets, w);
    let n = w1.post.len() as int;
    assert(w2.post[n] == addr);
    assert forall|i: int| 0 <= i < n implies w2.post[i] == w1.post[i] by {}
    assert(!w1.post.contains(addr)) by {
        if w1.post.contains(addr) {
            let i = choose|i: int| 0 <= i < n && w1.post[i] == addr;
            if i < w.post.len() {
                assert(w1.post.take(w.post.len() as int)[i] == addr);
                assert(w.post[i] == addr);
            }
        }
    }
    assert(walk_inv(mem, how, w2)) by {
        assert(w.seen.contains(addr));
        assert forall|i: int, j: int|
            0 <= i < w2.post.len() && 0 <= j < w2.post.len() && i != j implies w2.post[i]
            != w2.post[j] by {
            if i < n && j < n {
                assert(w1.post[i] != w1.post[j]);
            } else if i < n {
                assert(w1.post.contains(w1.post[i]));
            } else {
                assert(w1.post.contains(w1.post[j]));
            }
        }
    }
    assert(w2.post.take(w.post.len() as int) =~= w.post) by {
        assert forall|i: int| 0 <= i < w.post.len() implies w2.post[i] == w.post[i] by {
            assert(w1.post.take(w.post.len() as int)[i] == w1.post[i]);
        }
    }
    assert forall|a: u64| #[trigger]
        w2.seen.contains(a) && !w.seen.contains(a) implies w2.post.contains(a) by {
        assert(w1.post.contains(a));
        let i = choose|i: int| 0 <= i < n && w1.post[i] == a;
        assert(w2.post[i] == a);
    }
    assert forall|i: int|
        w.post.len() <= i < w2.post.len() implies #[trigger] explored(mem, caps, how, w2, i) by {
        if i < n {
            assert(explored(mem, caps, how, w1, i));
            lemma_explored_stays(mem, caps, how, w1, w2, i);
        } else {
            assert forall|t: u64| #[trigger] targets.contains(t) implies settled(
                mem,
                caps,
                how,
                w2,
                t,
            ) by {
                assert(settled(mem, caps, how, w1, t));
            }
        }
    }
    assert forall|i: int| w.post.len() <= i < w2.post.len() - 1 implies !w.seen.contains(
        #[trigger] w2.post[i],
    ) by {
        assert(w2.post[i] == w1.post[i]);
    }
    assert forall|i: int| w.post.len() <= i < w2.post.len() - 1 implies #[trigger] parented(
        mem,
        how,
        w2.post,
        i,
    ) by {
        assert(w2.post[i] == w1.post[i]);
        if targets.contains(w1.post[i]) {
            assert(has_parent(mem, how, w2.post, i, n));
        } else {
            let p = choose|p: int| has_parent(mem, how, w1.post, i, p);
            assert(has_parent(mem, how, w2.post, i, p));
        }
    }
}

proof fn lemma_edges(
    mem: &Memory,
    caps: RegionCaps,
    how: Lifting,
    depth: nat,
    targets: Seq<u64>,
    w: Walk,
)
    requires
        walk_inv(mem, how, w),
        depth + w.seen.len() >= caps.max_blocks,
    ensures
        ({
            let w1 = edges(mem, caps, how, depth, targets, w);
            &&& progress(mem, caps, how, w, w1)
            &&& forall|t: u64| #[trigger]
                targets.contains(t) ==> settled(mem, caps, how, w1, t)
            &&& forall|i: int|
                w.post.len() <= i < w1.post.len() ==> !w.seen.contains(#[trigger] w1.post[i]) && (
                targets.contains(w1.post[i]) || parented(mem, how, w1.post, i))
        }),
    decreases depth, targets.len(),
{
    if targets.len() == 0 {
        assert(w.post.take(w.post.len() as int) =~= w.post);
    } else {
        let before = targets.drop_last();
        let w1 = edges(mem, caps, how, depth, before, w);
        lemma_edges(mem, caps, how, depth, before, w);
        let t = targets.last();
        let w2 = edges(mem, caps, how, depth, targets, w);
        assert(targets == before.push(t));
        assert forall|x: u64| #[trigger] targets.contains(x) implies before.contains(x) || x == t by {
            let i = choose|i: int| 0 <= i < targets.len() && targets[i] == x;
            if i < before.len() {
                assert(before[i] == x);
            }
        }
        assert forall|x: u64| #[trigger] before.contains(x) implies targets.contains(x) by {
            let i = choose|i: int| 0 <= i < before.len() && before[i] == x;
            assert(targets[i] == x);
        }
        assert(targets.contains(t)) by {
            assert(targets[targets.len() - 1] == t);
        }
        vstd::set_lib::lemma_len_subset(w.seen, w1.seen);
        if w1.seen.contains(t) || w1.full(caps) || block_at(mem, t, how) is None {
            assert(settled(mem, caps, how, w1, t));
        } else {
            let b = block_at(mem, t, how)->0;
            let e = w1.enter(t, b);
            assert(walk_inv(mem, how, e));
            assert(!e.post.contains(t));
            lemma_visit(mem, caps, how, depth, t, e);
            vstd::set_lib::lemma_len_subset(w1.seen, w2.seen);
            let n = w1.post.len() as int;
            assert forall|i: int| 0 <= i < n implies w2.post[i] == w1.post[i] by {
                assert(w2.post.take(n)[i] == e.post[i]);
            }
            assert(w2.post.take(w.post.len() as int) =~= w.post) by {
                assert forall|i: int| 0 <= i < w.post.len() implies w2.post[i] == w.post[i] by {
                    assert(w1.post.take(w.post.len() as int)[i] == w1.post[i]);
                }
            }
            assert forall|a: u64| #[trigger]
                w2.seen.contains(a) && !w.seen.contains(a) implies w2.post.contains(a) by {
                if w1.seen.contains(a) {
                    let i = choose|i: int| 0 <= i < n && w1.post[i] == a;
                    assert(w2.post[i] == a);
                } else if a == t {
                    assert(w2.post[w2.post.len() - 1] == t);
                }
            }
            assert forall|i: int|
                w.post.len() <= i < w2.post.len() implies #[trigger] explored(
                mem,
                caps,
                how,
                w2,
                i,
            ) by {
                if i < n {
                    assert(explored(mem, caps, how, w1, i));
                    lemma_explored_stays(mem, caps, how, w1, w2, i);
                }
            }
            assert forall|x: u64| #[trigger] targets.contains(x) implies settled(
                mem,
                caps,
                how,
                w2,
                x,
            ) by {
                if before.contains(x) {
                    assert(settled(mem, caps, how, w1, x));
                }
            }
            assert forall|i: int| w.post.len() <= i < w2.post.len() implies !w.seen.contains(
                #[trigger] w2.post[i],
            ) && (targets.contains(w2.post[i]) || parented(mem, how, w2.post, i)) by {
                if i < n {
                    assert(w2.post[i] == w1.post[i]);
                    if !before.contains(w1.post[i]) {
                        let p = choose|p: int| has_parent(mem, how, w1.post, i, p);
                        assert(has_parent(mem, how, w2.post, i, p));
                    }
                }
            }
        }
    }
}

/// The map holds the blocks of the region.
pub open spec fn holds(mem: &Memory, how: Lifting, blocks: Map<u64, IrBlock>, w: Walk) -> bool {
    &&& blocks.dom() == w.seen
    &&& forall|a: u64| #[trigger]
        blocks.contains_key(a) ==> Some(blocks[a]@) == block_at(mem, a, how) && blocks[a].wf()
            && blocks[a].keeps_to(how.mode)
}

/// The count is `n`, or as much of it as can be counted, which no cap exceeds.
pub open spec fn counts(icount: u32, n: nat) -> bool {
    icount == if n < u32::MAX {
        n
    } else {
        u32::MAX as nat
    }
}

/// Walks on from the block at `addr`: lifts each block once and notes down the order in
/// which they are finished.
fn dfs(
    mem: &Memory,
    addr: u64,
    caps: RegionCaps,
    how: Lifting,
    blocks: &mut HashMap<u64, IrBlock>,
    post: &mut Vec<u64>,
    icount: &mut u32,
    Ghost(depth): Ghost<nat>,
    Ghost(start): Ghost<Walk>,
)
    requires
        mem.wf(),
        start.seen.contains(addr),
        !start.post.contains(addr),
        holds(mem, how, old(blocks)@, start),
        old(post)@ == start.post,
        counts(*old(icount), start.icount),
        walk_inv(mem, how, start),
        depth > 0,
        depth + start.seen.len() > caps.max_blocks,
    ensures
        holds(mem, how, final(blocks)@, visit(mem, caps, how, depth, addr, start)),
        final(post)@ == visit(mem, caps, how, depth, addr, start).post,
        counts(*final(icount), visit(mem, caps, how, depth, addr, start).icount),
    decreases depth,
{
    let targets: Vec<u64> = match blocks.get(&addr) {
        Some(b) => static_succs(b),
        None => Vec::new(),
    };
    let ghost d = (depth - 1) as nat;
    let mut i: usize = 0;
    assert(targets@.take(0) =~= seq![]);
    while i < targets.len()
        invariant
            mem.wf(),
            i <= targets.len(),
            walk_inv(mem, how, start),
            d + start.seen.len() >= caps.max_blocks,
            d < depth,
            holds(mem, how, blocks@, edges(mem, caps, how, d, targets@.take(i as int), start)),
            post@ == edges(mem, caps, how, d, targets@.take(i as int), start).post,
            counts(*icount, edges(mem, caps, how, d, targets@.take(i as int), start).icount),
        decreases targets.len() - i,
    {
        let t: u64 = targets[i];
        let ghost done = targets@.take(i as int);
        let ghost w = edges(mem, caps, how, d, done, start);
        let ghost next = targets@.take(i + 1);
        proof {
            lemma_edges(mem, caps, how, d, done, start);
            vstd::set_lib::lemma_len_subset(start.seen, w.seen);
            assert(next.drop_last() =~= done);
        }
        i = i + 1;
        if blocks.contains_key(&t) {
            continue;
        }
        if blocks.len() >= caps.max_blocks || *icount >= caps.max_icount {
            continue;
        }
        match lift_block_with(mem, t, how.mode, how.elide) {
            Ok(b) => {
                *icount = icount.saturating_add(b.icount);
                let ghost entered = w.enter(t, b@);
                blocks.insert(t, b);
                assert(blocks@.dom() == entered.seen);
                dfs(mem, t, caps, how, blocks, post, icount, Ghost(d), Ghost(entered));
            },
            Err(_) => {},
        }
    }
    assert(targets@.take(i as int) =~= targets@);
    post.push(addr);
}

/// What lifting the region at `entry` gives: its blocks in their order, or the error that its
/// first block gives.
pub open spec fn lifts_region(
    mem: &Memory,
    entry: u64,
    caps: RegionCaps,
    how: Lifting,
    r: Result<IrRegion, LiftError>,
) -> bool {
    match r {
        Ok(region) => {
            let order = region_order(mem, entry, caps, how);
            &&& block_at(mem, entry, how) is Some
            &&& region.entry == entry
            &&& region.blocks@.len() == order.len()
            &&& forall|i: int|
                0 <= i < order.len() ==> Some((#[trigger] region.blocks@[i])@) == block_at(
                    mem,
                    order[i],
                    how,
                ) && region.blocks@[i].wf() && region.blocks@[i].keeps_to(how.mode)
            &&& region.has_loop == loops(region.blocks@)
        },
        Err(_) => {
            let code = mem.code_at(entry, BLOCK_FETCH_WINDOW as nat);
            &&& block_at(mem, entry, how) is None
            &&& r matches Err(e)
            &&& block::delivers(
                block::block_scan(code, entry, how.mode),
                code,
                entry,
                how.elide,
                Err(e),
            )
        },
    }
}

/// Lifts the region at `entry`: its block and all blocks that static control flow reaches
/// from it, up to the caps, in reverse post-order. A block that cannot be lifted ends the
/// region there, unless it is the entry itself.
pub fn lift_region_with(mem: &Memory, entry: u64, caps: RegionCaps, how: Lifting) -> (r: Result<
    IrRegion,
    LiftError,
>)
    requires
        mem.wf(),
    ensures
        lifts_region(mem, entry, caps, how, r),
{
    let first = match lift_block_with(mem, entry, how.mode, how.elide) {
        Ok(first) => first,
        Err(e) => {
            return Err(e);
        },
    };
    let mut icount: u32 = first.icount;
    let mut blocks: HashMap<u64, IrBlock> = HashMap::new();
    blocks.insert(entry, first);
    let mut post: Vec<u64> = Vec::new();
    let ghost nothing = Walk { seen: Set::empty(), post: Seq::empty(), icount: 0 };
    let ghost start = nothing.enter(entry, block_at(mem, entry, how)->0);
    assert(blocks@.dom() =~= start.seen);
    dfs(
        mem,
        entry,
        caps,
        how,
        &mut blocks,
        &mut post,
        &mut icount,
        Ghost(caps.max_blocks as nat + 1),
        Ghost(start),
    );
    let ghost walk = region_walk(mem, entry, caps, how);
    let ghost order = region_order(mem, entry, caps, how);
    proof {
        lemma_visit(mem, caps, how, caps.max_blocks as nat + 1, entry, start);
    }
    let mut ordered: Vec<IrBlock> = Vec::new();
    let mut left: usize = post.len();
    while left > 0
        invariant
            left <= post@.len(),
            post@ == walk.post,
            order == walk.post.reverse(),
            walk_inv(mem, how, walk),
            ordered@.len() == post@.len() - left,
            forall|i: int|
                0 <= i < ordered@.len() ==> Some((#[trigger] ordered@[i])@) == block_at(
                    mem,
                    order[i],
                    how,
                ) && ordered@[i].wf() && ordered@[i].keeps_to(how.mode),
            forall|k: int|
                0 <= k < left ==> blocks@.contains_key(#[trigger] post@[k]) && Some(
                    blocks@[post@[k]]@,
                ) == block_at(mem, post@[k], how) && blocks@[post@[k]].wf()
                    && blocks@[post@[k]].keeps_to(how.mode),
        decreases left,
    {
        left = left - 1;
        let a: u64 = post[left];
        match blocks.remove(&a) {
            Some(b) => {
                ordered.push(b);
            },
            None => {},
        }
    }
    let has_loop = find_loop(&ordered);
    Ok(IrRegion { entry, blocks: ordered, has_loop })
}

/// Lifts the region at `entry` for the mode, dropping flags that nothing observes.
pub fn lift_region(mem: &Memory, entry: u64, caps: RegionCaps, mode: CpuMode) -> (r: Result<
    IrRegion,
    LiftError,
>)
    requires
        mem.wf(),
    ensures
        lifts_region(mem, entry, caps, (Lifting { mode, elide: true }), r),
{
    lift_region_with(mem, entry, caps, Lifting { mode, elide: true })
}

/// Whether some static edge leads back: to its own block or to an earlier one.
pub fn find_loop(blocks: &Vec<IrBlock>) -> (r: bool)
    requires
        forall|i: int, j: int|
            0 <= i < j < blocks@.len() ==> blocks@[i].guest_start != blocks@[j].guest_start,
    ensures
        r == loops(blocks@),
{
    let mut index: HashMap<u64, usize> = HashMap::new();
    let mut n: usize = 0;
    while n < blocks.len()
        invariant
            n <= blocks.len(),
            forall|i: int, j: int|
                0 <= i < j < blocks@.len() ==> blocks@[i].guest_start != blocks@[j].guest_start,
            forall|a: u64| #[trigger]
                index@.contains_key(a) ==> index@[a] < n && blocks@[index@[a] as int].guest_start
                    == a,
            forall|j: int|
                0 <= j < n ==> index@.contains_key((#[trigger] blocks@[j]).guest_start)
                    && index@[blocks@[j].guest_start] == j,
        decreases blocks.len() - n,
    {
        index.insert(blocks[n].guest_start, n);
        n = n + 1;
    }
    let mut i: usize = 0;
    while i < blocks.len()
        invariant
            i <= blocks.len(),
            forall|a: u64| #[trigger]
                index@.contains_key(a) ==> index@[a] < blocks@.len()
                    && blocks@[index@[a] as int].guest_start == a,
            forall|j: int|
                0 <= j < blocks@.len() ==> index@.contains_key((#[trigger] blocks@[j]).guest_start)
                    && index@[blocks@[j].guest_start] == j,
            forall|i0: int, k: int, j: int| i0 < i ==> !#[trigger] back_edge(blocks@, i0, k, j),
        decreases blocks.len() - i,
    {
        let targets = static_succs(&blocks[i]);
        let mut k: usize = 0;
        while k < targets.len()
            invariant
                i < blocks.len(),
                k <= targets.len(),
                targets@ == succs(blocks@[i as int].ops@),
                forall|a: u64| #[trigger]
                    index@.contains_key(a) ==> index@[a] < blocks@.len()
                        && blocks@[index@[a] as int].guest_start == a,
                forall|j: int|
                    0 <= j < blocks@.len() ==> index@.contains_key(
                        (#[trigger] blocks@[j]).guest_start,
                    ) && index@[blocks@[j].guest_start] == j,
                forall|i0: int, k0: int, j: int|
                    i0 < i || (i0 == i && k0 < k) ==> !#[trigger] back_edge(blocks@, i0, k0, j),
            decreases targets.len() - k,
        {
            match index.get(&targets[k]) {
                Some(j) => {
                    if *j <= i {
                        assert(back_edge(blocks@, i as int, k as int, *j as int));
                        return true;
                    }
                },
                None => {},
            }
            k = k + 1;
        }
        i = i + 1;
    }
    false
}

// --- what regions promise ---

/// The instructions in these blocks.
pub open spec fn icounts(blocks: Seq<IrBlock>) -> nat
    decreases blocks.len(),
{
    if blocks.len() == 0 {
        0
    } else {
        icounts(blocks.drop_last()) + blocks.last().icount as nat
    }
}

/// Two errors say the same.
pub open spec fn same_error(a: LiftError, b: LiftError) -> bool {
    match (a, b) {
        (
            LiftError::Unsupported { addr, bytes, len },
            LiftError::Unsupported { addr: addr1, bytes: bytes1, len: len1 },
        ) => addr == addr1 && bytes@ == bytes1@ && len == len1,
        (LiftError::DecodeFault { addr }, LiftError::DecodeFault { addr: addr1 }) => addr == addr1,
        _ => false,
    }
}

/// A region fails exactly where its entry block does, and with the same error: `r` is what
/// lifting the region gives, and `b` what lifting the block gives.
pub proof fn law_fails_as_entry(
    mem: &Memory,
    entry: u64,
    caps: RegionCaps,
    how: Lifting,
    r: Result<IrRegion, LiftError>,
    b: Result<IrBlock, LiftError>,
)
    requires
        lifts_region(mem, entry, caps, how, r),
        block::delivers(
            block::block_scan(mem.code_at(entry, BLOCK_FETCH_WINDOW as nat), entry, how.mode),
            mem.code_at(entry, BLOCK_FETCH_WINDOW as nat),
            entry,
            how.elide,
            b,
        ),
    ensures
        r is Err <==> b is Err,
        r is Err ==> same_error(r->Err_0, b->Err_0),
{
}

/// The entry comes first in a region.
pub proof fn law_entry_first(
    mem: &Memory,
    entry: u64,
    caps: RegionCaps,
    how: Lifting,
    r: IrRegion,
)
    requires
        lifts_region(mem, entry, caps, how, Ok(r)),
    ensures
        r.blocks@.len() > 0,
        r.entry == entry,
        r.blocks@[0].guest_start == entry,
{
    lemma_result(mem, entry, caps, how, r);
}

/// Every block of a region is what lifting at its start gives, and no two start at the same
/// address.
pub proof fn law_blocks_distinct(
    mem: &Memory,
    entry: u64,
    caps: RegionCaps,
    how: Lifting,
    r: IrRegion,
)
    requires
        lifts_region(mem, entry, caps, how, Ok(r)),
    ensures
        forall|i: int|
            0 <= i < r.blocks@.len() ==> Some((#[trigger] r.blocks@[i])@) == block_at(
                mem,
                r.blocks@[i].guest_start,
                how,
            ),
        forall|i: int, j: int|
            0 <= i < j < r.blocks@.len() ==> r.blocks@[i].guest_start != r.blocks@[j].guest_start,
{
    lemma_result(mem, entry, caps, how, r);
    let post = region_walk(mem, entry, caps, how).post;
    assert forall|i: int, j: int| 0 <= i < j < r.blocks@.len() implies r.blocks@[i].guest_start
        != r.blocks@[j].guest_start by {
        assert(post[post.len() - 1 - i] != post[post.len() - 1 - j]);
    }
}

/// A region has no more blocks than the cap allows; the entry is there even if the cap
/// allows none.
pub proof fn law_blocks_capped(
    mem: &Memory,
    entry: u64,
    caps: RegionCaps,
    how: Lifting,
    r: IrRegion,
)
    requires
        lifts_region(mem, entry, caps, how, Ok(r)),
    ensures
        1 <= r.blocks@.len() <= if caps.max_blocks > 1 {
            caps.max_blocks as nat
        } else {
            1
        },
{
    lemma_result(mem, entry, caps, how, r);
}

/// Every block of a region but the entry is a static successor of one that comes before
/// it: the region is what static control flow reaches, and the order runs along it.
pub proof fn law_reached_from_earlier(
    mem: &Memory,
    entry: u64,
    caps: RegionCaps,
    how: Lifting,
    r: IrRegion,
    i: int,
)
    requires
        lifts_region(mem, entry, caps, how, Ok(r)),
        0 < i < r.blocks@.len(),
    ensures
        exists|j: int|
            0 <= j < i && leads_to((#[trigger] r.blocks@[j]).ops@, r.blocks@[i].guest_start),
{
    lemma_result(mem, entry, caps, how, r);
    let post = region_walk(mem, entry, caps, how).post;
    let n = post.len() as int;
    let c = n - 1 - i;
    assert(parented(mem, how, post, c));
    let p = choose|p: int| has_parent(mem, how, post, c, p);
    let j = n - 1 - p;
    assert(r.blocks@[j].guest_start == post[p]);
    assert(r.blocks@[i].guest_start == post[c]);
    law_successors(r.blocks@[j].ops@);
}

/// A region that has not reached a cap has every block that static control flow reaches:
/// each static successor of a block of it is in it too, or cannot be lifted.
pub proof fn law_closed_below_caps(
    mem: &Memory,
    entry: u64,
    caps: RegionCaps,
    how: Lifting,
    r: IrRegion,
    i: int,
    t: u64,
)
    requires
        lifts_region(mem, entry, caps, how, Ok(r)),
        r.blocks@.len() < caps.max_blocks,
        icounts(r.blocks@) < caps.max_icount,
        0 <= i < r.blocks@.len(),
        leads_to(r.blocks@[i].ops@, t),
    ensures
        block_at(mem, t, how) is None || exists|j: int|
            0 <= j < r.blocks@.len() && (#[trigger] r.blocks@[j]).guest_start == t,
{
    lemma_result(mem, entry, caps, how, r);
    law_successors(r.blocks@[i].ops@);
    assert(succs(r.blocks@[i].ops@).contains(t));
    let w = region_walk(mem, entry, caps, how);
    let n = w.post.len() as int;
    assert(r.blocks@[i].guest_start == w.post[n - 1 - i]);
    assert(explored(mem, caps, how, w, n - 1 - i));
    assert(block_at(mem, w.post[n - 1 - i], how)->0.ops == r.blocks@[i].ops@);
    assert(settled(mem, caps, how, w, t));
    if block_at(mem, t, how) is Some {
        let k = choose|k: int| 0 <= k < n && w.post[k] == t;
        assert(r.blocks@[n - 1 - k].guest_start == t);
    }
}

/// A region of more than one block has fewer instructions than the cap allows, but for one
/// block, which is not the entry: the one that was lifted last. The entry alone has fewer too.
pub proof fn law_only_last_block_overshoots(
    mem: &Memory,
    entry: u64,
    caps: RegionCaps,
    how: Lifting,
    r: IrRegion,
)
    requires
        lifts_region(mem, entry, caps, how, Ok(r)),
        r.blocks@.len() > 1,
    ensures
        r.blocks@[0].icount < caps.max_icount,
        exists|k: int|
            0 < k < r.blocks@.len() && icounts(r.blocks@) - (#[trigger] r.blocks@[k]).icount
                < caps.max_icount,
{
    lemma_result(mem, entry, caps, how, r);
    let nothing = Walk { seen: Set::empty(), post: Seq::empty(), icount: 0 };
    let start = nothing.enter(entry, block_at(mem, entry, how)->0);
    let w = region_walk(mem, entry, caps, how);
    lemma_visit_overshoots(mem, caps, how, caps.max_blocks as nat + 1, entry, start);
    assert(w.seen != start.seen) by {
        assert(w.post[0] != w.post[w.post.len() - 1]);
        assert(w.seen.contains(w.post[0]));
    }
    let t = choose|t: u64| entered_last(mem, caps, how, start, w, t);
    let k = choose|k: int| 0 <= k < w.post.len() && w.post[k] == t;
    let i = w.post.len() - 1 - k;
    assert(r.blocks@[i].guest_start == t);
}

/// The instructions of a region exceed their cap by no more than a fetch window.
pub proof fn law_instructions_capped(
    mem: &Memory,
    entry: u64,
    caps: RegionCaps,
    how: Lifting,
    r: IrRegion,
)
    requires
        mem.wf(),
        lifts_region(mem, entry, caps, how, Ok(r)),
    ensures
        icounts(r.blocks@) <= caps.max_icount + BLOCK_FETCH_WINDOW,
{
    lemma_result(mem, entry, caps, how, r);
    if r.blocks@.len() > 1 {
        law_only_last_block_overshoots(mem, entry, caps, how, r);
        let k = choose|k: int|
            0 < k < r.blocks@.len() && icounts(r.blocks@) - (#[trigger] r.blocks@[k]).icount
                < caps.max_icount;
        lemma_block_size(mem, r.blocks@[k].guest_start, how);
    } else {
        lemma_block_size(mem, entry, how);
        assert(icounts(r.blocks@.drop_last()) == 0);
    }
}

proof fn lemma_block_size(mem: &Memory, start: u64, how: Lifting)
    requires
        mem.wf(),
        block_at(mem, start, how) is Some,
    ensures
        block_at(mem, start, how)->0.icount <= BLOCK_FETCH_WINDOW,
{
    let code = mem.code_at(start, BLOCK_FETCH_WINDOW as nat);
    block::law_insns_within_code(code->0, start, how.mode);
}

/// A region has a loop exactly where some block of it can set the instruction pointer to the
/// start of itself or of a block before it. An edge that leaves the region makes no loop.
pub proof fn law_loop_is_an_edge_back(
    mem: &Memory,
    entry: u64,
    caps: RegionCaps,
    how: Lifting,
    r: IrRegion,
)
    requires
        lifts_region(mem, entry, caps, how, Ok(r)),
    ensures
        r.has_loop <==> exists|i: int, j: int|
            0 <= j <= i < r.blocks@.len() && leads_to(
                (#[trigger] r.blocks@[i]).ops@,
                (#[trigger] r.blocks@[j]).guest_start,
            ),
{
    if r.has_loop {
        let (i, k, j) = choose|i: int, k: int, j: int| back_edge(r.blocks@, i, k, j);
        law_successors(r.blocks@[i].ops@);
        assert(succs(r.blocks@[i].ops@).contains(r.blocks@[j].guest_start));
        assert(leads_to(r.blocks@[i].ops@, r.blocks@[j].guest_start));
    }
    if exists|i: int, j: int|
        0 <= j <= i < r.blocks@.len() && leads_to(
            (#[trigger] r.blocks@[i]).ops@,
            (#[trigger] r.blocks@[j]).guest_start,
        ) {
        let (i, j) = choose|i: int, j: int|
            0 <= j <= i < r.blocks@.len() && leads_to(
                (#[trigger] r.blocks@[i]).ops@,
                (#[trigger] r.blocks@[j]).guest_start,
            );
        law_successors(r.blocks@[i].ops@);
        let v = succs(r.blocks@[i].ops@);
        assert(v.contains(r.blocks@[j].guest_start));
        let k = choose|k: int| 0 <= k < v.len() && v[k] == r.blocks@[j].guest_start;
        assert(back_edge(r.blocks@, i, k, j));
    }
}

/// A region without a loop is in topological order: each static edge within it leads
/// forward.
pub proof fn law_no_loop_runs_forward(blocks: Seq<IrBlock>, i: int, j: int)
    requires
        !loops(blocks),
        0 <= i < blocks.len(),
        0 <= j < blocks.len(),
        leads_to(blocks[i].ops@, blocks[j].guest_start),
    ensures
        i < j,
{
    law_successors(blocks[i].ops@);
    assert(succs(blocks[i].ops@).contains(blocks[j].guest_start));
    let k = choose|k: int|
        0 <= k < succs(blocks[i].ops@).len() && succs(blocks[i].ops@)[k] == blocks[j].guest_start;
    assert(j <= i ==> back_edge(blocks, i, k, j));
}

/// `t` was entered between `w` and `w1`, and without it the cap is not reached.
pub open spec fn entered_last(
    mem: &Memory,
    caps: RegionCaps,
    how: Lifting,
    w: Walk,
    w1: Walk,
    t: u64,
) -> bool {
    &&& w1.seen.contains(t)
    &&& !w.seen.contains(t)
    &&& w1.icount - block_at(mem, t, how)->0.icount < caps.max_icount
}

/// Part of a walk adds no block, or starts below the cap and passes it with one block only.
pub open spec fn overshoots_once(
    mem: &Memory,
    caps: RegionCaps,
    how: Lifting,
    w: Walk,
    w1: Walk,
) -> bool {
    &&& w.seen.subset_of(w1.seen)
    &&& w.icount <= w1.icount
    &&& (w1.seen == w.seen && w1.icount == w.icount) || (w.icount < caps.max_icount && exists|
        t: u64,
    | entered_last(mem, caps, how, w, w1, t))
}

proof fn lemma_visit_overshoots(
    mem: &Memory,
    caps: RegionCaps,
    how: Lifting,
    depth: nat,
    addr: u64,
    w: Walk,
)
    ensures
        overshoots_once(mem, caps, how, w, visit(mem, caps, how, depth, addr, w)),
    decreases depth, 0nat,
{
    if depth > 0 {
        let targets = succs(block_at(mem, addr, how)->0.ops);
        let d = (depth - 1) as nat;
        let w1 = edges(mem, caps, how, d, targets, w);
        let w2 = visit(mem, caps, how, depth, addr, w);
        lemma_edges_overshoot(mem, caps, how, d, targets, w);
        if w1.seen != w.seen || w1.icount != w.icount {
            let t = choose|t: u64| entered_last(mem, caps, how, w, w1, t);
            assert(entered_last(mem, caps, how, w, w2, t));
        }
    }
}

proof fn lemma_edges_overshoot(
    mem: &Memory,
    caps: RegionCaps,
    how: Lifting,
    depth: nat,
    targets: Seq<u64>,
    w: Walk,
)
    ensures
        overshoots_once(mem, caps, how, w, edges(mem, caps, how, depth, targets, w)),
    decreases depth, targets.len(),
{
    if targets.len() > 0 {
        let before = targets.drop_last();
        let w1 = edges(mem, caps, how, depth, before, w);
        lemma_edges_overshoot(mem, caps, how, depth, before, w);
        let t = targets.last();
        if !w1.seen.contains(t) && !w1.full(caps) && block_at(mem, t, how) is Some {
            let e = w1.enter(t, block_at(mem, t, how)->0);
            let w2 = visit(mem, caps, how, depth, t, e);
            lemma_visit_overshoots(mem, caps, how, depth, t, e);
            assert(e.seen.contains(t));
            if w2.seen == e.seen && w2.icount == e.icount {
                assert(entered_last(mem, caps, how, w, w2, t));
            } else {
                let u = choose|u: u64| entered_last(mem, caps, how, e, w2, u);
                assert(entered_last(mem, caps, how, w, w2, u));
            }
        }
    }
}

/// The instructions in the blocks at these addresses.
pub open spec fn total(mem: &Memory, how: Lifting, addrs: Seq<u64>) -> nat
    decreases addrs.len(),
{
    if addrs.len() == 0 {
        0
    } else {
        total(mem, how, addrs.drop_last()) + block_at(mem, addrs.last(), how)->0.icount
    }
}

proof fn lemma_total_front(mem: &Memory, how: Lifting, a: u64, addrs: Seq<u64>)
    ensures
        total(mem, how, seq![a] + addrs) == block_at(mem, a, how)->0.icount + total(
            mem,
            how,
            addrs,
        ),
    decreases addrs.len(),
{
    let all = seq![a] + addrs;
    if addrs.len() == 0 {
        reveal_with_fuel(total, 2);
        assert(all =~= seq![a]);
    } else {
        assert(all.drop_last() =~= seq![a] + addrs.drop_last());
        lemma_total_front(mem, how, a, addrs.drop_last());
    }
}

proof fn lemma_total_reversed(mem: &Memory, how: Lifting, addrs: Seq<u64>)
    ensures
        total(mem, how, addrs.reverse()) == total(mem, how, addrs),
    decreases addrs.len(),
{
    if addrs.len() > 0 {
        let rest = addrs.drop_last();
        assert(addrs.reverse() =~= seq![addrs.last()] + rest.reverse());
        lemma_total_front(mem, how, addrs.last(), rest.reverse());
        lemma_total_reversed(mem, how, rest);
    }
}

proof fn lemma_icounts(mem: &Memory, how: Lifting, blocks: Seq<IrBlock>, addrs: Seq<u64>)
    requires
        blocks.len() == addrs.len(),
        forall|i: int|
            0 <= i < addrs.len() ==> Some((#[trigger] blocks[i])@) == block_at(mem, addrs[i], how),
    ensures
        icounts(blocks) == total(mem, how, addrs),
    decreases blocks.len(),
{
    if blocks.len() > 0 {
        let last = blocks.len() - 1;
        assert(Some(blocks[last]@) == block_at(mem, addrs[last], how));
        assert forall|i: int| 0 <= i < last implies Some((#[trigger] blocks.drop_last()[i])@)
            == block_at(mem, addrs.drop_last()[i], how) by {
            assert(Some(blocks[i]@) == block_at(mem, addrs[i], how));
        }
        lemma_icounts(mem, how, blocks.drop_last(), addrs.drop_last());
    }
}

proof fn lemma_visit_counts(
    mem: &Memory,
    caps: RegionCaps,
    how: Lifting,
    depth: nat,
    addr: u64,
    w: Walk,
)
    requires
        walk_inv(mem, how, w),
        w.seen.contains(addr),
        !w.post.contains(addr),
        depth > 0,
        depth + w.seen.len() > caps.max_blocks,
    ensures
        ({
            let w1 = visit(mem, caps, how, depth, addr, w);
            w1.icount - total(mem, how, w1.post) == w.icount - total(mem, how, w.post)
                - block_at(mem, addr, how)->0.icount
        }),
    decreases depth, 0nat,
{
    let targets = succs(block_at(mem, addr, how)->0.ops);
    let d = (depth - 1) as nat;
    let w1 = edges(mem, caps, how, d, targets, w);
    lemma_edges_count(mem, caps, how, d, targets, w);
    assert(w1.post.push(addr).drop_last() =~= w1.post);
}

proof fn lemma_edges_count(
    mem: &Memory,
    caps: RegionCaps,
    how: Lifting,
    depth: nat,
    targets: Seq<u64>,
    w: Walk,
)
    requires
        walk_inv(mem, how, w),
        depth + w.seen.len() >= caps.max_blocks,
    ensures
        ({
            let w1 = edges(mem, caps, how, depth, targets, w);
            w1.icount - total(mem, how, w1.post) == w.icount - total(mem, how, w.post)
        }),
    decreases depth, targets.len(),
{
    if targets.len() > 0 {
        let before = targets.drop_last();
        let w1 = edges(mem, caps, how, depth, before, w);
        lemma_edges(mem, caps, how, depth, before, w);
        lemma_edges_count(mem, caps, how, depth, before, w);
        vstd::set_lib::lemma_len_subset(w.seen, w1.seen);
        let t = targets.last();
        if !w1.seen.contains(t) && !w1.full(caps) && block_at(mem, t, how) is Some {
            let e = w1.enter(t, block_at(mem, t, how)->0);
            assert(walk_inv(mem, how, e));
            assert(!e.post.contains(t));
            lemma_visit_counts(mem, caps, how, depth, t, e);
        }
    }
}

proof fn lemma_region(mem: &Memory, entry: u64, caps: RegionCaps, how: Lifting)
    requires
        block_at(mem, entry, how) is Some,
    ensures
        ({
            let w = region_walk(mem, entry, caps, how);
            &&& walk_inv(mem, how, w)
            &&& w.post.len() > 0
            &&& w.post.last() == entry
            &&& w.seen.len() <= 1 || w.seen.len() <= caps.max_blocks
            &&& forall|a: u64| #[trigger] w.seen.contains(a) ==> w.post.contains(a)
            &&& forall|i: int|
                0 <= i < w.post.len() ==> #[trigger] explored(mem, caps, how, w, i)
            &&& forall|i: int|
                0 <= i < w.post.len() - 1 ==> #[trigger] parented(mem, how, w.post, i)
        }),
{
    let nothing = Walk { seen: Set::empty(), post: Seq::empty(), icount: 0 };
    let start = nothing.enter(entry, block_at(mem, entry, how)->0);
    lemma_visit(mem, caps, how, caps.max_blocks as nat + 1, entry, start);
    let w = region_walk(mem, entry, caps, how);
    assert(w.post[w.post.len() - 1] == entry);
}

/// A region's blocks are those of its walk, in reverse.
proof fn lemma_result(mem: &Memory, entry: u64, caps: RegionCaps, how: Lifting, r: IrRegion)
    requires
        lifts_region(mem, entry, caps, how, Ok(r)),
    ensures
        ({
            let w = region_walk(mem, entry, caps, how);
            let n = w.post.len() as int;
            &&& walk_inv(mem, how, w)
            &&& n > 0
            &&& w.post.last() == entry
            &&& r.entry == entry
            &&& r.blocks@.len() == n
            &&& r.blocks@[0].guest_start == entry
            &&& w.seen.len() == n
            &&& n <= 1 || n <= caps.max_blocks
            &&& w.icount == icounts(r.blocks@)
            &&& forall|i: int|
                0 <= i < n ==> (#[trigger] r.blocks@[i]).guest_start == w.post[n - 1 - i]
            &&& forall|i: int|
                0 <= i < n ==> Some((#[trigger] r.blocks@[i])@) == block_at(
                    mem,
                    w.post[n - 1 - i],
                    how,
                )
            &&& forall|a: u64| #[trigger] w.seen.contains(a) ==> w.post.contains(a)
            &&& forall|i: int| 0 <= i < n ==> #[trigger] explored(mem, caps, how, w, i)
            &&& forall|i: int| 0 <= i < n - 1 ==> #[trigger] parented(mem, how, w.post, i)
        }),
{
    lemma_region(mem, entry, caps, how);
    let w = region_walk(mem, entry, caps, how);
    let n = w.post.len() as int;
    let order = region_order(mem, entry, caps, how);
    w.post.unique_seq_to_set();
    assert(w.post.to_set() =~= w.seen) by {
        assert forall|a: u64| #[trigger] w.post.to_set().contains(a) implies w.seen.contains(a) by {
            let i = choose|i: int| 0 <= i < w.post.len() && w.post[i] == a;
            assert(w.seen.contains(w.post[i]));
        }
    }
    assert forall|i: int| 0 <= i < n implies Some((#[trigger] r.blocks@[i])@) == block_at(
        mem,
        w.post[n - 1 - i],
        how,
    ) by {
        assert(order[i] == w.post[n - 1 - i]);
    }
    assert(Some(r.blocks@[0]@) == block_at(mem, w.post[n - 1], how));
    let nothing = Walk { seen: Set::empty(), post: Seq::empty(), icount: 0 };
    let start = nothing.enter(entry, block_at(mem, entry, how)->0);
    lemma_visit_counts(mem, caps, how, caps.max_blocks as nat + 1, entry, start);
    lemma_total_reversed(mem, how, w.post);
    lemma_icounts(mem, how, r.blocks@, order);
}

} // verus!
