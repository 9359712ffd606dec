//! Lifting of basic blocks and single instructions.
use crate::decode::{decode, Decoded};
use crate::decode;
use crate::insn::Insn;
use crate::ir::{IrBlock, IrOp, Temp};
use crate::lift::dispatch::lift_insn;
use crate::lift::emit::{Emission, Emitter};
use crate::lift::flags::elide_dead_flags;
use crate::lift::{control, dispatch, emit, flags, CpuMode, LiftError};
use crate::memory::Memory;
use vstd::prelude::*;

verus! {

/// Bytes fetched for one block. A block ends at its first control-flow instruction, so this
/// bounds a stretch without branches only: a longer one is cut behind its last complete
/// instruction, and falls through to a continuation block.
pub const BLOCK_FETCH_WINDOW: usize = 4096;

/// Temporaries that one instruction may take.
pub const TEMPS_PER_INSN: u32 = 64;

/// What a block holds, as plain values.
#[verifier::ext_equal]
pub struct BlockView {
    pub guest_start: u64,
    pub ops: Seq<IrOp>,
    pub temp_count: u32,
    pub guest_len: nat,
    pub icount: nat,
}

impl View for IrBlock {
    type V = BlockView;

    open spec fn view(&self) -> BlockView {
        BlockView {
            guest_start: self.guest_start,
            ops: self.ops@,
            temp_count: self.temp_count,
            guest_len: self.guest_len as nat,
            icount: self.icount as nat,
        }
    }
}

/// The addresses rise, from `lo` to below `hi`.
pub open spec fn rising(addrs: Seq<u64>, lo: int, hi: int) -> bool {
    &&& forall|i: int| 0 <= i < addrs.len() ==> lo <= #[trigger] addrs[i] < hi
    &&& forall|i: int, j: int| 0 <= i < j < addrs.len() ==> addrs[i] < addrs[j]
}

impl IrBlock {
    /// What holds of every lifted block. Each operation reads constants and temporaries
    /// that an earlier one wrote; temporaries stay below `temp_count`; only the last
    /// operation ends the block; the rules for operations are kept; and
    /// there is a start mark for each of the `icount` instructions, the first of them at
    /// `guest_start`, and each within the block's bytes and behind the one before.
    pub open spec fn wf(self) -> bool {
        let ops = self.ops@;
        &&& forall|i: int| 0 <= i < ops.len() ==> (#[trigger] ops[i]).reads_from(ops.take(i))
        &&& forall|i: int, t: Temp|
            0 <= i < ops.len() && #[trigger] ops[i].writes(t) ==> t < self.temp_count
        &&& forall|i: int| 0 <= i < ops.len() - 1 ==> !(#[trigger] ops[i]).ends_block()
        &&& forall|i: int|
            0 <= i < ops.len() ==> emit::obeys_rules(#[trigger] ops[i])
        &&& emit::starts(ops).len() == self.icount
        &&& rising(
            emit::starts(ops),
            self.guest_start as int,
            self.guest_start + self.guest_len,
        )
        &&& self.icount > 0 ==> ops.len() > 0 && ops[0] == (IrOp::InsnStart {
            guest_addr: self.guest_start,
        })
    }

    /// The block holds the one instruction at `start`, and nothing else.
    pub open spec fn holds_one(self, start: u64) -> bool {
        &&& self.guest_start == start
        &&& self.icount == 1
        &&& 1 <= self.guest_len <= 15
        &&& self.ops@.len() > 0
        &&& self.ops@[0] == (IrOp::InsnStart { guest_addr: start })
        &&& emit::starts(self.ops@) == seq![start]
    }

    /// The control flow of the block keeps to the mode.
    pub open spec fn keeps_to(self, mode: CpuMode) -> bool {
        forall|i: int|
            0 <= i < self.ops@.len() ==> control::keeps_to(#[trigger] self.ops@[i], mode)
    }
}

// --- the bytes of an error ---

/// The bytes of an instruction that is not supported, padded with zeros.
pub open spec fn insn_bytes(code: Seq<u8>, off: int, len: int) -> Seq<u8> {
    Seq::new(15, |k: int| if k < len { code[off + k] } else { 0u8 })
}

/// Fills the bytes of the instruction in, where they are all in `code`, which starts at
/// address `block_start`. Other errors stay as they are.
pub fn refill_unsupported_bytes(err: LiftError, code: &[u8], block_start: u64) -> (r: LiftError)
    requires
        err matches LiftError::Unsupported { addr, len, .. } ==> block_start <= addr && (addr
            - block_start + len <= code@.len() ==> len <= 15),
    ensures
        match err {
            LiftError::Unsupported { addr, bytes, len } => {
                &&& r matches LiftError::Unsupported { addr: a, bytes: b, len: n }
                &&& a == addr
                &&& n == len
                &&& b@ == Seq::new(
                    15,
                    |k: int|
                        if k < len && addr - block_start + len <= code@.len() {
                            code@[addr - block_start + k]
                        } else {
                            bytes@[k]
                        },
                )
            },
            LiftError::DecodeFault { addr } => r == (LiftError::DecodeFault { addr }),
        },
{
    match err {
        LiftError::Unsupported { addr, bytes, len } => {
            let mut bytes: [u8; 15] = bytes;
            let ghost before = bytes@;
            let away: u64 = addr - block_start;
            let size: u64 = code.len() as u64;
            if away <= size && len as u64 <= size - away {
                let off: usize = away as usize;
                let n: usize = len as usize;
                let mut k: usize = 0;
                while k < n
                    invariant
                        k <= n,
                        n <= 15,
                        off + n <= code.len(),
                        bytes@.len() == 15,
                        bytes@ == Seq::new(
                            15,
                            |j: int|
                                if j < k {
                                    code@[off + j]
                                } else {
                                    before[j]
                                },
                        ),
                    decreases n - k,
                {
                    bytes[k] = code[off + k];
                    k = k + 1;
                    assert(bytes@ =~= Seq::new(
                        15,
                        |j: int|
                            if j < k {
                                code@[off + j]
                            } else {
                                before[j]
                            },
                    ));
                }
            }
            assert(bytes@ =~= Seq::new(
                15,
                |k: int|
                    if k < len && addr - block_start + len <= code@.len() {
                        code@[addr - block_start + k]
                    } else {
                        before[k]
                    },
            ));
            LiftError::Unsupported { addr, bytes, len }
        },
        LiftError::DecodeFault { addr } => LiftError::DecodeFault { addr },
    }
}

// --- one block ---

/// What becomes of a stretch of code.
pub enum Scan {
    /// A block of `icount` instructions in `len` bytes.
    Block { s: Emission, icount: nat, len: nat },
    /// The bytes at `addr` are no instruction.
    Fault { addr: u64 },
    /// The instruction at offset `off` is not supported.
    Unsupported { off: nat, insn_len: u8 },
}

/// Decodes and lifts from offset `pos` on, until an instruction ends the block or the bytes
/// do. A full window that ends within an instruction ends the block before that one.
pub open spec fn scan(
    code: Seq<u8>,
    start: u64,
    mode: CpuMode,
    pos: nat,
    s: Emission,
    icount: nat,
) -> Scan
    decreases code.len() - pos,
{
    if pos >= code.len() {
        Scan::Block { s, icount, len: pos }
    } else {
        let ip = (start + pos) as u64;
        match decode::decoded(mode.bits(), code.skip(pos as int), ip) {
            Decoded::Invalid { truncated } => if truncated && code.len() == BLOCK_FETCH_WINDOW
                && pos > 0 {
                Scan::Block { s, icount, len: pos }
            } else {
                Scan::Fault { addr: ip }
            },
            Decoded::Insn(insn) => {
                let (s1, ends) = dispatch::insn_ir(
                    &insn,
                    mode,
                    s.push(IrOp::InsnStart { guest_addr: ip }),
                );
                if !s1.ok {
                    Scan::Unsupported { off: pos, insn_len: insn.len }
                } else if ends || insn.len == 0 || pos + insn.len >= code.len() {
                    Scan::Block { s: s1, icount: icount + 1, len: pos + insn.len as nat }
                } else {
                    scan(code, start, mode, pos + insn.len as nat, s1, icount + 1)
                }
            },
        }
    }
}

/// Nothing emitted yet.
pub open spec fn empty() -> Emission {
    Emission { ops: Seq::empty(), next: 0, ok: true }
}

/// The outcome of lifting the block at `start`; no code there is a fault.
pub open spec fn block_scan(code: Option<Seq<u8>>, start: u64, mode: CpuMode) -> Scan {
    match code {
        None => Scan::Fault { addr: start },
        Some(c) => scan(c, start, mode, 0, empty(), 0),
    }
}

/// The block that a successful scan gives; where `elide` is set, flags that nothing observes
/// are dropped.
pub open spec fn block_of(want: Scan, start: u64, elide: bool) -> Option<BlockView> {
    match want {
        Scan::Block { s, icount, len } => Some(
            BlockView {
                guest_start: start,
                ops: if elide {
                    flags::elided(s.ops)
                } else {
                    s.ops
                },
                temp_count: s.next,
                guest_len: len,
                icount,
            },
        ),
        _ => None,
    }
}

/// The result is the block, or the error, that `want` calls for. A block is well-formed, and
/// no longer than the fetch window; its instructions have 1 to 15 bytes each.
pub open spec fn delivers(
    want: Scan,
    code: Option<Seq<u8>>,
    start: u64,
    elide: bool,
    r: Result<IrBlock, LiftError>,
) -> bool {
    match want {
        Scan::Block { .. } => {
            &&& r matches Ok(b)
            &&& Some(b@) == block_of(want, start, elide)
            &&& b.icount <= b.guest_len <= BLOCK_FETCH_WINDOW
            &&& b.guest_len <= 15 * b.icount
            &&& b.wf()
        },
        Scan::Fault { addr } => r == Err::<IrBlock, LiftError>(LiftError::DecodeFault { addr }),
        Scan::Unsupported { off, insn_len } => {
            &&& r matches Err(LiftError::Unsupported { addr, bytes, len: n })
            &&& addr == start + off
            &&& n == insn_len
            &&& code is Some
            &&& bytes@ == insn_bytes(code->0, off as int, insn_len as int)
        },
    }
}

/// The operations of the instruction at `start` begin those of the block there.
pub open spec fn one_begins_block(code: Option<Seq<u8>>, start: u64, mode: CpuMode) -> bool {
    match (one_scan(code, start, mode), block_scan(code, start, mode)) {
        (Scan::Block { s: one, .. }, Scan::Block { s: all, .. }) => {
            &&& one.ops.len() <= all.ops.len()
            &&& forall|i: int| 0 <= i < one.ops.len() ==> #[trigger] all.ops[i] == one.ops[i]
        },
        _ => true,
    }
}

pub proof fn lemma_same_starts(a: Seq<IrOp>, b: Seq<IrOp>)
    requires
        a.len() == b.len(),
        forall|i: int| 0 <= i < a.len() ==> emit::start_of(#[trigger] a[i]) == emit::start_of(b[i]),
    ensures
        emit::starts(a) == emit::starts(b),
    decreases a.len(),
{
    if a.len() > 0 {
        assert(emit::start_of(a[a.len() - 1]) == emit::start_of(b[b.len() - 1]));
        lemma_same_starts(a.drop_last(), b.drop_last());
    }
}

/// Narrowing keeps what an operation reads and writes, and whether it ends a block.
proof fn lemma_narrowed_shape(op: IrOp, live: u8)
    ensures
        forall|ops: Seq<IrOp>| #[trigger]
            flags::narrowed(op, live).reads_from(ops) == op.reads_from(ops),
        forall|t: Temp| #[trigger] flags::narrowed(op, live).writes(t) == op.writes(t),
        flags::narrowed(op, live).ends_block() == op.ends_block(),
        emit::start_of(flags::narrowed(op, live)) == emit::start_of(op),
        (op is InsnStart || op is ReadReg || op.ends_block()) ==> flags::narrowed(op, live) == op,
        flags::narrowed(op, live) is ReadReg ==> op is ReadReg,
        flags::narrowed(op, live).reserved() == op.reserved(),
{
}

/// Whether the operand is in scope depends on which temporaries were written only.
proof fn lemma_reads_from_known(op: IrOp, a: Seq<IrOp>, b: Seq<IrOp>)
    requires
        forall|t: Temp| #[trigger] IrOp::known(a, t) ==> IrOp::known(b, t),
        op.reads_from(a),
    ensures
        op.reads_from(b),
{
}

/// The elimination of dead flags keeps a block well-formed.
proof fn lemma_elided_wf(b: IrBlock, e: IrBlock)
    requires
        b.wf(),
        e.ops@ == flags::elided(b.ops@),
        e.temp_count == b.temp_count,
        e.icount == b.icount,
        e.guest_start == b.guest_start,
        e.guest_len == b.guest_len,
    ensures
        e.wf(),
        emit::starts(e.ops@) == emit::starts(b.ops@),
{
    let ops = b.ops@;
    let out = e.ops@;
    assert forall|i: int| 0 <= i < ops.len() implies {
        &&& emit::start_of(#[trigger] out[i]) == emit::start_of(ops[i])
        &&& out[i].ends_block() == ops[i].ends_block()
        &&& (ops[i] is InsnStart || ops[i] is ReadReg) ==> out[i] == ops[i]
        &&& out[i] is ReadReg ==> ops[i] is ReadReg
        &&& out[i].reserved() == ops[i].reserved()
    } by {
        lemma_narrowed_shape(ops[i], flags::live_at(ops, i + 1));
    }
    assert forall|i: int, t: Temp| 0 <= i < ops.len() && #[trigger] out[i].writes(t) implies t
        < e.temp_count by {
        lemma_narrowed_shape(ops[i], flags::live_at(ops, i + 1));
        assert(ops[i].writes(t));
    }
    assert forall|i: int| 0 <= i < out.len() implies (#[trigger] out[i]).reads_from(out.take(i)) by {
        lemma_narrowed_shape(ops[i], flags::live_at(ops, i + 1));
        assert(ops[i].reads_from(ops.take(i)));
        assert forall|t: Temp| #[trigger] IrOp::known(ops.take(i), t) implies IrOp::known(
            out.take(i),
            t,
        ) by {
            let j = choose|j: int|
                0 <= j < ops.take(i).len() && (#[trigger] ops.take(i)[j]).writes(t);
            lemma_narrowed_shape(ops[j], flags::live_at(ops, j + 1));
            assert(out.take(i)[j].writes(t));
        }
        lemma_reads_from_known(out[i], ops.take(i), out.take(i));
    }
    lemma_same_starts(out, ops);
}

/// Finishes a block: `em` holds its operations.
fn finish(
    em: Emitter,
    start: u64,
    guest_len: u32,
    icount: u32,
    elide: bool,
    Ghost(mode): Ghost<CpuMode>,
) -> (b: IrBlock)
    requires
        em@.inv(),
        em@.open() || (em@.closed() && control::keeps_to(em@.ops.last(), mode)),
        emit::starts(em@.ops).len() == icount,
        rising(emit::starts(em@.ops), start as int, start + guest_len),
        icount > 0 ==> em@.ops.len() > 0 && em@.ops[0] == (IrOp::InsnStart { guest_addr: start }),
    ensures
        b@ == (BlockView {
            guest_start: start,
            ops: if elide {
                flags::elided(em@.ops)
            } else {
                em@.ops
            },
            temp_count: em@.next,
            guest_len: guest_len as nat,
            icount: icount as nat,
        }),
        b.wf(),
        b.keeps_to(mode),
        emit::starts(b.ops@) == emit::starts(em@.ops),
{
    let temp_count: u32 = em.temps.count();
    let mut ops = em.ops;
    let ghost plain = IrBlock { guest_start: start, ops, temp_count, guest_len, icount };
    assert(plain.wf());
    if elide {
        elide_dead_flags(&mut ops);
    }
    let b = IrBlock { guest_start: start, ops, temp_count, guest_len, icount };
    proof {
        assert forall|i: int| 0 <= i < b.ops@.len() implies control::keeps_to(
            #[trigger] b.ops@[i],
            mode,
        ) by {
            let op = plain.ops@[i];
            assert(op.ends_block() ==> control::keeps_to(op, mode));
            if elide {
                lemma_narrowed_shape(op, flags::live_at(plain.ops@, i + 1));
            }
        }
        if elide {
            lemma_elided_wf(plain, b);
        }
    }
    b
}

/// The error of an instruction at offset `pos`, with its bytes.
fn unsupported_at(e: LiftError, code: &[u8], start: u64, insn: &Insn, pos: usize) -> (r: LiftError)
    requires
        e.is_unsupported(insn),
        insn.ip == start + pos,
        insn.len <= 15,
        pos + insn.len <= code@.len() <= BLOCK_FETCH_WINDOW,
    ensures
        r matches LiftError::Unsupported { addr, bytes, len } && addr == insn.ip && len == insn.len
            && bytes@ == insn_bytes(code@, pos as int, insn.len as int),
{
    let r = refill_unsupported_bytes(e, code, start);
    proof {
        let bytes = r->bytes;
        assert(bytes@ =~= insn_bytes(code@, pos as int, insn.len as int));
    }
    r
}

/// Lifts the block at guest address `start`, with or without the elimination of dead
/// flags. The block ends at the first control-flow instruction or where the mapped code
/// ends.
pub fn lift_block_with(mem: &Memory, start: u64, mode: CpuMode, elide: bool) -> (r: Result<
    IrBlock,
    LiftError,
>)
    requires
        mem.wf(),
    ensures
        delivers(
            block_scan(mem.code_at(start, BLOCK_FETCH_WINDOW as nat), start, mode),
            mem.code_at(start, BLOCK_FETCH_WINDOW as nat),
            start,
            elide,
            r,
        ),
        r matches Ok(b) ==> b.keeps_to(mode),
        one_begins_block(mem.code_at(start, BLOCK_FETCH_WINDOW as nat), start, mode),
{
    let code: &[u8] = match mem.code_slice(start, BLOCK_FETCH_WINDOW) {
        Ok(code) => code,
        Err(_) => {
            return Err(LiftError::DecodeFault { addr: start });
        },
    };
    let ghost want = scan(code@, start, mode, 0, empty(), 0);
    let ghost one = one_scan(Some(code@), start, mode);
    let mut em = Emitter::new();
    let mut icount: u32 = 0;
    let mut pos: usize = 0;
    assert(em@ == empty());
    while pos < code.len()
        invariant
            code@.len() <= BLOCK_FETCH_WINDOW,
            start + code@.len() <= u64::MAX,
            mem.code_at(start, BLOCK_FETCH_WINDOW as nat) == Some(code@),
            want == block_scan(Some(code@), start, mode),
            pos <= code@.len(),
            icount <= pos <= 15 * icount,
            em@.next <= icount * TEMPS_PER_INSN,
            em@.ok,
            em@.inv(),
            em@.open(),
            emit::starts(em@.ops).len() == icount,
            rising(emit::starts(em@.ops), start as int, start + pos),
            icount > 0 ==> em@.ops.len() > 0 && em@.ops[0] == (IrOp::InsnStart {
                guest_addr: start,
            }),
            icount == 0 ==> em@ == empty() && pos == 0,
            want == scan(code@, start, mode, pos as nat, em@, icount as nat),
            one == one_scan(Some(code@), start, mode),
            icount > 0 ==> one is Block && one->s.ops.len() <= em@.ops.len() && forall|i: int|
                0 <= i < one->s.ops.len() ==> #[trigger] em@.ops[i] == one->s.ops[i],
        decreases code.len() - pos,
    {
        let ghost s = em@;
        let ip: u64 = start + pos as u64;
        let insn = match decode(mode.bits(), code, pos, ip) {
            Decoded::Invalid { truncated } => {
                if truncated && code.len() == BLOCK_FETCH_WINDOW && pos > 0 {
                    return Ok(finish(em, start, pos as u32, icount, elide, Ghost(mode)));
                }
                return Err(LiftError::DecodeFault { addr: ip });
            },
            Decoded::Insn(insn) => insn,
        };
        em.push(IrOp::InsnStart { guest_addr: ip });
        let ghost marked = em@;
        let ends = match lift_insn(&insn, &mut em, mode) {
            Ok(ends) => ends,
            Err(e) => {
                return Err(unsupported_at(e, code, start, &insn, pos));
            },
        };
        assert(em@.ops[0] == marked.ops[0]);
        proof {
            if icount == 0 {
                assert(code@.skip(0) =~= code@);
                assert(one->s == em@);
            } else {
                assert forall|i: int| 0 <= i < one->s.ops.len() implies #[trigger] em@.ops[i]
                    == one->s.ops[i] by {
                    assert(s.ops[i] == one->s.ops[i]);
                    assert(marked.ops[i] == s.ops[i]);
                }
            }
        }
        icount = icount + 1;
        pos = pos + insn.len as usize;
        proof {
            dispatch::law_end_keeps_to_mode(&insn, mode, marked);
        }
        if ends {
            return Ok(finish(em, start, pos as u32, icount, elide, Ghost(mode)));
        }
    }
    Ok(finish(em, start, pos as u32, icount, elide, Ghost(mode)))
}

/// Lifts the block at guest address `start`, dropping flags that nothing observes.
pub fn lift_block(mem: &Memory, start: u64, mode: CpuMode) -> (r: Result<IrBlock, LiftError>)
    requires
        mem.wf(),
    ensures
        delivers(
            block_scan(mem.code_at(start, BLOCK_FETCH_WINDOW as nat), start, mode),
            mem.code_at(start, BLOCK_FETCH_WINDOW as nat),
            start,
            true,
            r,
        ),
        r matches Ok(b) ==> b.keeps_to(mode),
        one_begins_block(mem.code_at(start, BLOCK_FETCH_WINDOW as nat), start, mode),
{
    lift_block_with(mem, start, mode, true)
}

// --- one instruction ---

/// The outcome of lifting the one instruction at `start`.
pub open spec fn one_scan(code: Option<Seq<u8>>, start: u64, mode: CpuMode) -> Scan {
    match code {
        None => Scan::Fault { addr: start },
        Some(c) => if c.len() == 0 {
            Scan::Fault { addr: start }
        } else {
            match decode::decoded(mode.bits(), c, start) {
                Decoded::Invalid { .. } => Scan::Fault { addr: start },
                Decoded::Insn(insn) => {
                    let (s, _) = dispatch::insn_ir(
                        &insn,
                        mode,
                        empty().push(IrOp::InsnStart { guest_addr: start }),
                    );
                    if s.ok {
                        Scan::Block { s, icount: 1, len: insn.len as nat }
                    } else {
                        Scan::Unsupported { off: 0, insn_len: insn.len }
                    }
                },
            }
        },
    }
}

/// Lifts exactly one instruction into a block of its own, with or without the elimination
/// of dead flags.
pub fn lift_one_with(mem: &Memory, start: u64, mode: CpuMode, elide: bool) -> (r: Result<
    IrBlock,
    LiftError,
>)
    requires
        mem.wf(),
    ensures
        delivers(
            one_scan(mem.code_at(start, BLOCK_FETCH_WINDOW as nat), start, mode),
            mem.code_at(start, BLOCK_FETCH_WINDOW as nat),
            start,
            elide,
            r,
        ),
        r matches Ok(b) ==> b.holds_one(start) && b.keeps_to(mode),
{
    let code: &[u8] = match mem.code_slice(start, BLOCK_FETCH_WINDOW) {
        Ok(code) => code,
        Err(_) => {
            return Err(LiftError::DecodeFault { addr: start });
        },
    };
    if code.len() == 0 {
        return Err(LiftError::DecodeFault { addr: start });
    }
    assert(code@.skip(0) =~= code@);
    let insn = match decode(mode.bits(), code, 0, start) {
        Decoded::Invalid { .. } => {
            return Err(LiftError::DecodeFault { addr: start });
        },
        Decoded::Insn(insn) => insn,
    };
    let mut em = Emitter::new();
    em.push(IrOp::InsnStart { guest_addr: start });
    let ghost marked = em@;
    match lift_insn(&insn, &mut em, mode) {
        Ok(_) => {},
        Err(e) => {
            return Err(unsupported_at(e, code, start, &insn, 0));
        },
    }
    assert(em@.ops[0] == marked.ops[0]);
    proof {
        dispatch::law_end_keeps_to_mode(&insn, mode, marked);
    }
    assert(emit::starts(em@.ops) =~= seq![start]);
    Ok(finish(em, start, insn.len as u32, 1, elide, Ghost(mode)))
}

/// Lifts exactly one instruction into a block of its own, so that it can be stepped over.
pub fn lift_one(mem: &Memory, start: u64, mode: CpuMode) -> (r: Result<IrBlock, LiftError>)
    requires
        mem.wf(),
    ensures
        delivers(
            one_scan(mem.code_at(start, BLOCK_FETCH_WINDOW as nat), start, mode),
            mem.code_at(start, BLOCK_FETCH_WINDOW as nat),
            start,
            true,
            r,
        ),
        r matches Ok(b) ==> b.holds_one(start) && b.keeps_to(mode),
{
    lift_one_with(mem, start, mode, true)
}

// --- what blocks promise ---

/// An instruction that cannot be lifted alone cannot begin a block, and fails in the same
/// way there.
pub proof fn law_one_fails_as_block(code: Option<Seq<u8>>, start: u64, mode: CpuMode)
    requires
        code matches Some(c) ==> c.len() > 0,
        !(one_scan(code, start, mode) is Block),
    ensures
        block_scan(code, start, mode) == one_scan(code, start, mode),
{
    if code is Some {
        assert(code->0.skip(0) =~= code->0);
    }
}

/// Where a block can be lifted, so can its first instruction alone, in no more bytes; and a
/// block of one instruction is what that instruction gives alone.
pub proof fn law_one_of_block(code: Option<Seq<u8>>, start: u64, mode: CpuMode, elide: bool)
    requires
        block_scan(code, start, mode) matches Scan::Block { icount, .. } && icount >= 1,
    ensures
        one_scan(code, start, mode) is Block,
        one_scan(code, start, mode)->icount == 1,
        one_scan(code, start, mode)->len <= block_scan(code, start, mode)->len,
        block_scan(code, start, mode)->icount == 1 ==> block_of(
            one_scan(code, start, mode),
            start,
            elide,
        ) == block_of(block_scan(code, start, mode), start, elide),
{
    let c = code->0;
    assert(c.skip(0) =~= c);
    if let Decoded::Insn(insn) = decode::decoded(mode.bits(), c, start) {
        let (s, ends) = dispatch::insn_ir(
            &insn,
            mode,
            empty().push(IrOp::InsnStart { guest_addr: start }),
        );
        lemma_scan_goes_on(c, start, mode, insn.len as nat, s, 1);
    }
}

proof fn lemma_scan_goes_on(
    code: Seq<u8>,
    start: u64,
    mode: CpuMode,
    pos: nat,
    s: Emission,
    icount: nat,
)
    ensures
        scan(code, start, mode, pos, s, icount) matches Scan::Block { s: s1, icount: n, len } ==> {
            &&& pos <= len
            &&& icount <= n
            &&& n == icount ==> s1 == s && len == pos
        },
    decreases code.len() - pos,
{
    if pos < code.len() {
        let ip = (start + pos) as u64;
        if let Decoded::Insn(insn) = decode::decoded(mode.bits(), code.skip(pos as int), ip) {
            let (s1, ends) = dispatch::insn_ir(
                &insn,
                mode,
                s.push(IrOp::InsnStart { guest_addr: ip }),
            );
            if insn.len > 0 && pos + insn.len < code.len() {
                lemma_scan_goes_on(code, start, mode, pos + insn.len as nat, s1, icount + 1);
            }
        }
    }
}

/// Where instruction `i` of several begins: behind the ones before it.
pub open spec fn offset_of(insns: Seq<Insn>, i: nat) -> nat
    decreases i,
{
    if i == 0 {
        0
    } else {
        offset_of(insns, (i - 1) as nat) + insns[i - 1].len as nat
    }
}

/// What instruction `i` of several emits behind `s`: a mark with its address, and what it
/// does; and whether it ends the block.
pub open spec fn next_insn(
    insns: Seq<Insn>,
    start: u64,
    mode: CpuMode,
    i: nat,
    s: Emission,
) -> (Emission, bool) {
    let guest_addr = (start + offset_of(insns, i)) as u64;
    dispatch::insn_ir(&insns[i as int], mode, s.push(IrOp::InsnStart { guest_addr }))
}

/// What the first `n` of several instructions emit.
pub open spec fn emitted(insns: Seq<Insn>, start: u64, mode: CpuMode, n: nat) -> Emission
    decreases n,
{
    if n == 0 {
        empty()
    } else {
        let i = (n - 1) as nat;
        next_insn(insns, start, mode, i, emitted(insns, start, mode, i)).0
    }
}

/// What is decoded from the bytes at an offset: 64-bit code, or 32-bit code in `Compat32`.
pub open spec fn decoded_at(code: Seq<u8>, start: u64, mode: CpuMode, off: nat) -> Decoded {
    decode::decoded(
        if mode == CpuMode::Compat32 {
            32
        } else {
            64
        },
        code.skip(off as int),
        (start + off) as u64,
    )
}

/// Instruction `i` stands in the bytes behind the one before it, and is supported.
pub open spec fn stands(
    code: Seq<u8>,
    start: u64,
    mode: CpuMode,
    insns: Seq<Insn>,
    i: nat,
) -> bool {
    let off = offset_of(insns, i);
    let s = emitted(insns, start, mode, i);
    &&& off < code.len()
    &&& decoded_at(code, start, mode, off) == Decoded::Insn(insns[i as int])
    &&& next_insn(insns, start, mode, i, s).0.ok
}

/// Instruction `i` does not end the block.
pub open spec fn goes_on(start: u64, mode: CpuMode, insns: Seq<Insn>, i: nat) -> bool {
    let s = emitted(insns, start, mode, i);
    !next_insn(insns, start, mode, i, s).1 && insns[i as int].len > 0
}

/// The instructions stand in the bytes one behind the other, and none but the last ends the
/// block.
pub open spec fn chain(code: Seq<u8>, start: u64, mode: CpuMode, insns: Seq<Insn>) -> bool {
    &&& forall|i: nat| i < insns.len() ==> #[trigger] stands(code, start, mode, insns, i)
    &&& forall|i: nat| i + 1 < insns.len() ==> #[trigger] goes_on(start, mode, insns, i)
}

/// The bytes go on where the last instruction ends, and so does the block.
pub open spec fn open_end(code: Seq<u8>, start: u64, mode: CpuMode, insns: Seq<Insn>) -> bool {
    &&& offset_of(insns, insns.len()) < code.len()
    &&& insns.len() > 0 ==> goes_on(start, mode, insns, (insns.len() - 1) as nat)
}

/// Nothing stands behind the chain that belongs to the block: its last instruction ends it, the
/// bytes do, or a full window cuts the next instruction.
pub open spec fn closed_end(
    code: Seq<u8>,
    start: u64,
    mode: CpuMode,
    insns: Seq<Insn>,
) -> bool {
    let off = offset_of(insns, insns.len());
    ||| off >= code.len()
    ||| insns.len() > 0 && !goes_on(start, mode, insns, (insns.len() - 1) as nat)
    ||| off > 0 && code.len() == 4096 && decoded_at(code, start, mode, off)
        == (Decoded::Invalid { truncated: true })
}

/// A block is what the instructions of a chain emit. Its bytes are theirs, and it counts them.
pub open spec fn is_block(
    code: Seq<u8>,
    start: u64,
    mode: CpuMode,
    insns: Seq<Insn>,
    want: Scan,
) -> bool {
    &&& chain(code, start, mode, insns)
    &&& closed_end(code, start, mode, insns)
    &&& want == (Scan::Block {
        s: emitted(insns, start, mode, insns.len()),
        icount: insns.len(),
        len: offset_of(insns, insns.len()),
    })
}

/// A fault is where no instruction can be decoded behind a chain.
pub open spec fn is_fault(
    code: Seq<u8>,
    start: u64,
    mode: CpuMode,
    insns: Seq<Insn>,
    want: Scan,
) -> bool {
    let off = offset_of(insns, insns.len());
    &&& chain(code, start, mode, insns)
    &&& open_end(code, start, mode, insns)
    &&& !closed_end(code, start, mode, insns)
    &&& decoded_at(code, start, mode, off) is Invalid
    &&& want == (Scan::Fault { addr: (start + off) as u64 })
}

/// What is not supported is an instruction behind a chain.
pub open spec fn is_unsupported(
    code: Seq<u8>,
    start: u64,
    mode: CpuMode,
    insns: Seq<Insn>,
    want: Scan,
) -> bool {
    let n = insns.len();
    let off = offset_of(insns, n);
    let s = emitted(insns, start, mode, n);
    &&& chain(code, start, mode, insns)
    &&& open_end(code, start, mode, insns)
    &&& decoded_at(code, start, mode, off) matches Decoded::Insn(insn)
    &&& !next_insn(insns.push(insn), start, mode, n, s).0.ok
    &&& want == (Scan::Unsupported { off, insn_len: insn.len })
}

/// The outcome of a scan is about a chain.
pub open spec fn about_a_chain(code: Seq<u8>, start: u64, mode: CpuMode, want: Scan) -> bool {
    ||| exists|insns: Seq<Insn>| #[trigger] is_block(code, start, mode, insns, want)
    ||| exists|insns: Seq<Insn>| #[trigger] is_fault(code, start, mode, insns, want)
    ||| exists|insns: Seq<Insn>| #[trigger] is_unsupported(code, start, mode, insns, want)
}

/// The instructions of a block are those that stand in its bytes, one behind the other from its
/// start on, up to the first that ends it; an error is about the first bytes behind such
/// instructions that are none or are not supported.
pub proof fn law_block_is_its_instructions(code: Seq<u8>, start: u64, mode: CpuMode)
    ensures
        about_a_chain(code, start, mode, block_scan(Some(code), start, mode)),
{
    let none = Seq::<Insn>::empty();
    if code.len() == 0 {
        assert(is_block(code, start, mode, none, block_scan(Some(code), start, mode)));
    } else {
        lemma_scan_chain(code, start, mode, none);
    }
}

/// A single instruction is lifted as a chain of one: what is decoded at the start, where it is
/// supported; else the bytes there are a fault, or name it.
pub proof fn law_one_is_its_instruction(code: Seq<u8>, start: u64, mode: CpuMode)
    requires
        code.len() > 0,
    ensures
        ({
            let want = one_scan(Some(code), start, mode);
            match decoded_at(code, start, mode, 0) {
                Decoded::Invalid { .. } => want == (Scan::Fault { addr: start }),
                Decoded::Insn(insn) => {
                    let s = emitted(seq![insn], start, mode, 1);
                    &&& s.ok ==> want == (Scan::Block { s, icount: 1, len: insn.len as nat })
                    &&& !s.ok ==> want == (Scan::Unsupported { off: 0, insn_len: insn.len })
                },
            }
        }),
{
    assert(code.skip(0) =~= code);
    reveal_with_fuel(emitted, 2);
}

/// One more instruction changes nothing about those before it.
proof fn lemma_chain_grows(
    start: u64,
    mode: CpuMode,
    insns: Seq<Insn>,
    insn: Insn,
    i: nat,
)
    requires
        i <= insns.len(),
    ensures
        offset_of(insns.push(insn), i) == offset_of(insns, i),
        emitted(insns.push(insn), start, mode, i) == emitted(insns, start, mode, i),
        i < insns.len() ==> insns.push(insn)[i as int] == insns[i as int],
    decreases i,
{
    if i > 0 {
        lemma_chain_grows(start, mode, insns, insn, (i - 1) as nat);
    }
}

/// A chain goes on with a supported instruction behind it.
proof fn lemma_chain_goes_on(
    code: Seq<u8>,
    start: u64,
    mode: CpuMode,
    insns: Seq<Insn>,
    insn: Insn,
)
    requires
        chain(code, start, mode, insns),
        open_end(code, start, mode, insns),
        decoded_at(code, start, mode, offset_of(insns, insns.len())) == Decoded::Insn(insn),
        next_insn(
            insns.push(insn),
            start,
            mode,
            insns.len(),
            emitted(insns, start, mode, insns.len()),
        ).0.ok,
    ensures
        chain(code, start, mode, insns.push(insn)),
{
    let more = insns.push(insn);
    let n = insns.len();
    assert forall|i: nat| i < more.len() implies #[trigger] stands(code, start, mode, more, i) by {
        lemma_chain_grows(start, mode, insns, insn, i);
        if i < n {
            assert(stands(code, start, mode, insns, i));
        }
    }
    assert forall|i: nat| i + 1 < more.len() implies #[trigger] goes_on(start, mode, more, i) by {
        lemma_chain_grows(start, mode, insns, insn, i);
        assert(goes_on(start, mode, insns, i));
    }
}

/// A scan behind a chain: what it gives at once, or that it goes on.
proof fn lemma_scan_step(code: Seq<u8>, start: u64, mode: CpuMode, insns: Seq<Insn>)
    requires
        offset_of(insns, insns.len()) < code.len(),
    ensures
        ({
            let n = insns.len();
            let off = offset_of(insns, n);
            let s = emitted(insns, start, mode, n);
            let want = scan(code, start, mode, off, s, n);
            match decoded_at(code, start, mode, off) {
                Decoded::Invalid { truncated } => want == if truncated && code.len() == 4096
                    && off > 0 {
                    Scan::Block { s, icount: n, len: off }
                } else {
                    Scan::Fault { addr: (start + off) as u64 }
                },
                Decoded::Insn(insn) => {
                    let more = insns.push(insn);
                    let (s1, ends) = next_insn(more, start, mode, n, s);
                    let end = offset_of(more, n + 1);
                    &&& emitted(more, start, mode, n + 1) == s1
                    &&& end == off + insn.len
                    &&& want == if !s1.ok {
                        Scan::Unsupported { off, insn_len: insn.len }
                    } else if ends || insn.len == 0 || end >= code.len() {
                        Scan::Block { s: s1, icount: n + 1, len: end }
                    } else {
                        scan(code, start, mode, end, s1, n + 1)
                    }
                },
            }
        }),
{
    let n = insns.len();
    let off = offset_of(insns, n);
    if let Decoded::Insn(insn) = decoded_at(code, start, mode, off) {
        lemma_chain_grows(start, mode, insns, insn, n);
    }
}

proof fn lemma_scan_chain(code: Seq<u8>, start: u64, mode: CpuMode, insns: Seq<Insn>)
    requires
        chain(code, start, mode, insns),
        open_end(code, start, mode, insns),
    ensures
        about_a_chain(
            code,
            start,
            mode,
            scan(
                code,
                start,
                mode,
                offset_of(insns, insns.len()),
                emitted(insns, start, mode, insns.len()),
                insns.len(),
            ),
        ),
    decreases code.len() - offset_of(insns, insns.len()),
{
    let n = insns.len();
    let off = offset_of(insns, n);
    let s = emitted(insns, start, mode, n);
    let want = scan(code, start, mode, off, s, n);
    lemma_scan_step(code, start, mode, insns);
    match decoded_at(code, start, mode, off) {
        Decoded::Invalid { truncated } => {
            if truncated && code.len() == 4096 && off > 0 {
                assert(is_block(code, start, mode, insns, want));
            } else {
                assert(is_fault(code, start, mode, insns, want));
            }
        },
        Decoded::Insn(insn) => {
            let more = insns.push(insn);
            let (s1, ends) = next_insn(more, start, mode, n, s);
            if !s1.ok {
                assert(is_unsupported(code, start, mode, insns, want));
            } else {
                lemma_chain_goes_on(code, start, mode, insns, insn);
                lemma_chain_grows(start, mode, insns, insn, n);
                if ends || insn.len == 0 || offset_of(more, n + 1) >= code.len() {
                    assert(is_block(code, start, mode, more, want));
                } else {
                    lemma_scan_chain(code, start, mode, more);
                }
            }
        },
    }
}

/// A block has no more instructions than bytes to decode them from.
pub proof fn law_insns_within_code(code: Seq<u8>, start: u64, mode: CpuMode)
    ensures
        block_scan(Some(code), start, mode) matches Scan::Block { icount, .. } ==> icount
            <= code.len(),
{
    lemma_scan_counts(code, start, mode, 0, empty(), 0);
}

proof fn lemma_scan_counts(
    code: Seq<u8>,
    start: u64,
    mode: CpuMode,
    pos: nat,
    s: Emission,
    icount: nat,
)
    requires
        icount <= pos <= code.len(),
    ensures
        scan(code, start, mode, pos, s, icount) matches Scan::Block { icount: n, .. } ==> n
            <= code.len(),
    decreases code.len() - pos,
{
    if pos < code.len() {
        let ip = (start + pos) as u64;
        if let Decoded::Insn(insn) = decode::decoded(mode.bits(), code.skip(pos as int), ip) {
            let (s1, ends) = dispatch::insn_ir(
                &insn,
                mode,
                s.push(IrOp::InsnStart { guest_addr: ip }),
            );
            if insn.len > 0 && pos + insn.len < code.len() {
                lemma_scan_counts(code, start, mode, pos + insn.len as nat, s1, icount + 1);
            }
        }
    }
}

} // verus!
