//! The contract between compiled blocks and the dispatcher that runs them.
//!
//! A compiled block takes the address of the guest's registers and of a [`MemCtx`], and
//! returns one of the `RET_*` codes. It finds guest registers at the offsets in
//! [`CpuOffsets`], the words of the context at the `MEMCTX_*` offsets, and the shadow return
//! stack at the `RETSTACK_*` offsets. It always writes the instruction pointer.
use crate::exit::{AccessKind, Exit, StepResult};
use crate::memory::Memory;
use vstd::prelude::*;

verus! {

pub const RET_CONTINUE: u64 = 0;

pub const RET_SYSCALL: u64 = 1;

pub const RET_HLT: u64 = 2;

/// An access to memory that is not mapped; the `fault_*` fields say which.
pub const RET_UNMAPPED: u64 = 3;

/// The block found its successor in a link slot; `next_entry` holds it.
pub const RET_CHAIN: u64 = 4;

/// A direct edge whose link slot is still empty; `link_slot` holds the slot's address.
pub const RET_LINK: u64 = 5;

/// A guest exception at the instruction pointer. The only one is the divide error.
pub const RET_EXCEPTION: u64 = 6;

/// An indirect branch whose cached target did not match; `link_slot` holds the address of
/// the slot.
pub const RET_IBTC_MISS: u64 = 7;

/// An access to a trapping region: nothing of the instruction at the instruction pointer
/// has been done, and it is to be stepped over singly.
pub const RET_MMIO_DEFER: u64 = 8;

/// What compiled code knows of guest memory, and what it reports back.
#[derive(Copy, Clone, PartialEq, Eq, Structural, Debug)]
pub struct MemCtx {
    /// Where the guest's buffer lies in this process.
    pub base: u64,
    /// The size of the buffer; an access beyond it faults.
    pub size: u64,
    /// Out: the guest address of a faulting access.
    pub fault_addr: u64,
    /// Out: its width in bytes.
    pub fault_size: u64,
    /// Out: 0 for a read, 1 for a write.
    pub fault_access: u64,
    /// Out: the entry of the next block.
    pub next_entry: u64,
    /// Out: the link slot to fill.
    pub link_slot: u64,
    /// In and out: how many blocks may still be entered in this call.
    pub fuel: u64,
    /// In: the address of the shadow return stack.
    pub ret_stack: u64,
    /// The guest address of the buffer's first byte.
    pub guest_base: u64,
}

pub const MEMCTX_BASE: i32 = 0;

pub const MEMCTX_SIZE: i32 = 8;

pub const MEMCTX_FAULT_ADDR: i32 = 16;

pub const MEMCTX_FAULT_SIZE: i32 = 24;

pub const MEMCTX_FAULT_ACCESS: i32 = 32;

pub const MEMCTX_NEXT_ENTRY: i32 = 40;

pub const MEMCTX_LINK_SLOT: i32 = 48;

pub const MEMCTX_FUEL: i32 = 56;

pub const MEMCTX_RET_STACK: i32 = 64;

pub const MEMCTX_GUEST_BASE: i32 = 72;

/// The word at a byte offset.
pub open spec fn word_at(words: Seq<u64>, offset: i32) -> u64 {
    words[offset as int / 8]
}

impl MemCtx {
    /// The ten words hold the fields, each at its `MEMCTX_*` offset.
    pub open spec fn laid_out(self, words: Seq<u64>) -> bool {
        &&& words.len() == 10
        &&& word_at(words, MEMCTX_BASE) == self.base
        &&& word_at(words, MEMCTX_SIZE) == self.size
        &&& word_at(words, MEMCTX_FAULT_ADDR) == self.fault_addr
        &&& word_at(words, MEMCTX_FAULT_SIZE) == self.fault_size
        &&& word_at(words, MEMCTX_FAULT_ACCESS) == self.fault_access
        &&& word_at(words, MEMCTX_NEXT_ENTRY) == self.next_entry
        &&& word_at(words, MEMCTX_LINK_SLOT) == self.link_slot
        &&& word_at(words, MEMCTX_FUEL) == self.fuel
        &&& word_at(words, MEMCTX_RET_STACK) == self.ret_stack
        &&& word_at(words, MEMCTX_GUEST_BASE) == self.guest_base
    }

    /// The context as compiled code reads it.
    pub fn to_words(&self) -> (r: [u64; 10])
        ensures
            self.laid_out(r@),
    {
        [
            self.base,
            self.size,
            self.fault_addr,
            self.fault_size,
            self.fault_access,
            self.next_entry,
            self.link_slot,
            self.fuel,
            self.ret_stack,
            self.guest_base,
        ]
    }

    /// The context that compiled code left.
    pub fn from_words(words: &[u64; 10]) -> (r: MemCtx)
        ensures
            r.laid_out(words@),
    {
        MemCtx {
            base: words[0],
            size: words[1],
            fault_addr: words[2],
            fault_size: words[3],
            fault_access: words[4],
            next_entry: words[5],
            link_slot: words[6],
            fuel: words[7],
            ret_stack: words[8],
            guest_base: words[9],
        }
    }

    /// A fresh context for a buffer: nothing reported, and no limit on blocks.
    pub open spec fn fresh(base: u64, size: u64, guest_base: u64) -> MemCtx {
        MemCtx {
            base,
            size,
            fault_addr: 0,
            fault_size: 0,
            fault_access: 0,
            next_entry: 0,
            link_slot: 0,
            fuel: u64::MAX,
            ret_stack: 0,
            guest_base,
        }
    }

    /// The context for a buffer that lies at `base` in this process.
    pub fn for_buffer(base: u64, size: u64, guest_base: u64) -> (r: MemCtx)
        ensures
            r == MemCtx::fresh(base, size, guest_base),
    {
        MemCtx {
            base,
            size,
            fault_addr: 0,
            fault_size: 0,
            fault_access: 0,
            next_entry: 0,
            link_slot: 0,
            fuel: u64::MAX,
            ret_stack: 0,
            guest_base,
        }
    }

    /// The context for a run on `mem`. Where the buffer lies is up to the allocator.
    pub fn for_memory(mem: &Memory) -> (r: MemCtx)
        ensures
            r == MemCtx::fresh(r.base, mem.bytes().len() as u64, mem.guest_base()),
    {
        MemCtx::for_buffer(mem.host_base(), mem.size(), mem.guest_base())
    }

    /// The exit for a fault on memory that is not mapped.
    pub fn unmapped_exit(&self) -> (r: Exit)
        ensures
            r == (Exit::UnmappedMemory {
                addr: self.fault_addr,
                access: if self.fault_access == 0 {
                    AccessKind::Read
                } else {
                    AccessKind::Write
                },
            }),
    {
        Exit::UnmappedMemory {
            addr: self.fault_addr,
            access: if self.fault_access == 0 {
                AccessKind::Read
            } else {
                AccessKind::Write
            },
        }
    }
}

/// What the dispatcher does after a block.
#[derive(Copy, Clone, PartialEq, Eq, Structural, Debug)]
pub enum AfterBlock {
    /// The step is over.
    Done(StepResult),
    /// The instruction at the instruction pointer is to be stepped over singly.
    StepOne,
}

/// What a return code stands for. Chaining is not followed here: the instruction pointer is
/// set, so the next block can be found by it.
pub open spec fn after_block(code: u64, ctx: MemCtx, rip: u64) -> Option<AfterBlock> {
    if code == RET_CONTINUE || code == RET_CHAIN || code == RET_LINK || code == RET_IBTC_MISS {
        Some(AfterBlock::Done(StepResult::Continue))
    } else if code == RET_SYSCALL {
        Some(AfterBlock::Done(StepResult::Exit(Exit::Syscall)))
    } else if code == RET_HLT {
        Some(AfterBlock::Done(StepResult::Exit(Exit::Hlt)))
    } else if code == RET_UNMAPPED {
        let access = if ctx.fault_access == 0 {
            AccessKind::Read
        } else {
            AccessKind::Write
        };
        Some(
            AfterBlock::Done(
                StepResult::Exit(Exit::UnmappedMemory { addr: ctx.fault_addr, access }),
            ),
        )
    } else if code == RET_EXCEPTION {
        Some(AfterBlock::Done(StepResult::Exit(Exit::Exception { addr: rip, vector: 0 })))
    } else if code == RET_MMIO_DEFER {
        Some(AfterBlock::StepOne)
    } else {
        None
    }
}

/// Decodes the code that a block returned, with the context it left and the instruction
/// pointer it set; `None` for a code that no block returns.
pub fn decode_ret(code: u64, ctx: &MemCtx, rip: u64) -> (r: Option<AfterBlock>)
    ensures
        r == after_block(code, *ctx, rip),
{
    match code {
        RET_CONTINUE | RET_CHAIN | RET_LINK | RET_IBTC_MISS => Some(
            AfterBlock::Done(StepResult::Continue),
        ),
        RET_SYSCALL => Some(AfterBlock::Done(StepResult::Exit(Exit::Syscall))),
        RET_HLT => Some(AfterBlock::Done(StepResult::Exit(Exit::Hlt))),
        RET_UNMAPPED => Some(AfterBlock::Done(StepResult::Exit(ctx.unmapped_exit()))),
        RET_MMIO_DEFER => Some(AfterBlock::StepOne),
        RET_EXCEPTION => Some(
            AfterBlock::Done(StepResult::Exit(Exit::Exception { addr: rip, vector: 0 })),
        ),
        _ => None,
    }
}

// --- the shadow return stack ---

/// Frames in the shadow return stack, a power of two.
pub const RET_STACK_LEN: usize = 64;

pub const RETSTACK_SP: i32 = 0;

pub const RETSTACK_ENTRIES: i32 = 8;

/// Bytes from one frame to the next.
pub const RETSTACK_STRIDE: i32 = 16;

/// A shadow return stack: a push count, and a ring of frames. Each frame holds a predicted
/// return address and the address of the slot to continue at. The ring only suggests where
/// a return goes: a lost or stale frame costs a misprediction and no more.
pub struct RetStack {
    /// The push count, then the two words of each frame in turn.
    pub words: [u64; 129],
}

impl RetStack {
    /// How many frames have been pushed.
    pub open spec fn spec_sp(&self) -> u64 {
        word_at(self.words@, RETSTACK_SP)
    }

    /// Frame `i`: its predicted return address and its slot.
    pub open spec fn spec_entry(&self, i: usize) -> (u64, u64) {
        let at = (RETSTACK_ENTRIES + i * RETSTACK_STRIDE) / 8;
        (self.words@[at], self.words@[at + 1])
    }

    /// An empty stack.
    pub fn new() -> (r: Self)
        ensures
            r.sp() == 0,
            forall|i: usize| i < RET_STACK_LEN ==> #[trigger] r.entry(i) == (0u64, 0u64),
    {
        RetStack { words: [0;129] }
    }

    /// How many frames have been pushed; the next goes to this number modulo the length.
    #[verifier::when_used_as_spec(spec_sp)]
    pub fn sp(&self) -> (r: u64)
        ensures
            r == self.spec_sp(),
    {
        self.words[0]
    }

    /// Frame `i` of the ring.
    #[verifier::when_used_as_spec(spec_entry)]
    pub fn entry(&self, i: usize) -> (r: (u64, u64))
        requires
            i < RET_STACK_LEN,
        ensures
            r == self.spec_entry(i),
    {
        (self.words[1 + 2 * i], self.words[2 + 2 * i])
    }
}

impl Default for RetStack {
    fn default() -> (r: Self)
        ensures
            r.sp() == 0,
            forall|i: usize| i < RET_STACK_LEN ==> #[trigger] r.entry(i) == (0u64, 0u64),
    {
        RetStack::new()
    }
}

// --- where compiled code finds guest registers ---

/// Byte offsets from the start of the guest's register file.
#[derive(Copy, Clone, PartialEq, Eq, Structural, Debug)]
pub struct CpuOffsets {
    pub gpr: i32,
    pub rip: i32,
    pub fs_base: i32,
    pub gs_base: i32,
    pub cf: i32,
    pub pf: i32,
    pub af: i32,
    pub zf: i32,
    pub sf: i32,
    pub of: i32,
    pub df: i32,
    pub xmm: i32,
    pub ymm_hi: i32,
    pub zmm_hi: i32,
    pub kmask: i32,
}

impl CpuOffsets {
    /// General register `index`, in encoding order.
    pub fn gpr(&self, index: usize) -> (r: i32)
        requires
            index * 8 <= i32::MAX,
            self.gpr + index * 8 <= i32::MAX,
        ensures
            r == self.gpr + index * 8,
    {
        self.gpr + (index as i32) * 8
    }

    /// The low 128 bits of vector register `index`.
    pub fn xmm(&self, index: usize) -> (r: i32)
        requires
            index * 16 <= i32::MAX,
            self.xmm + index * 16 <= i32::MAX,
        ensures
            r == self.xmm + index * 16,
    {
        self.xmm + (index as i32) * 16
    }

    /// Bits 128 to 255 of vector register `index`.
    pub fn ymm_hi(&self, index: usize) -> (r: i32)
        requires
            index * 16 <= i32::MAX,
            self.ymm_hi + index * 16 <= i32::MAX,
        ensures
            r == self.ymm_hi + index * 16,
    {
        self.ymm_hi + (index as i32) * 16
    }

    /// Bits 256 to 383 of vector register `index` (`half` 0), or 384 to 511 (`half` 1).
    pub fn zmm_hi(&self, index: usize, half: usize) -> (r: i32)
        requires
            index * 32 <= i32::MAX,
            half * 16 <= i32::MAX,
            self.zmm_hi + index * 32 <= i32::MAX,
            self.zmm_hi + index * 32 + half * 16 <= i32::MAX,
        ensures
            r == self.zmm_hi + index * 32 + half * 16,
    {
        self.zmm_hi + (index as i32) * 32 + (half as i32) * 16
    }

    /// Mask register `index`.
    pub fn kmask(&self, index: usize) -> (r: i32)
        requires
            index * 8 <= i32::MAX,
            self.kmask + index * 8 <= i32::MAX,
        ensures
            r == self.kmask + index * 8,
    {
        self.kmask + (index as i32) * 8
    }
}

/// Addresses measured on a live register file: of the whole, and of its parts.
#[derive(Copy, Clone, PartialEq, Eq, Structural, Debug)]
pub struct CpuAddresses {
    pub base: usize,
    pub gpr: usize,
    pub rip: usize,
    pub fs_base: usize,
    pub gs_base: usize,
    pub cf: usize,
    pub pf: usize,
    pub af: usize,
    pub zf: usize,
    pub sf: usize,
    pub of: usize,
    pub df: usize,
    pub xmm: usize,
    pub ymm_hi: usize,
    pub zmm_hi: usize,
    pub kmask: usize,
}

impl CpuAddresses {
    /// The part at address `p` lies in the register file.
    pub open spec fn holds(self, p: usize) -> bool {
        self.base <= p && p - self.base <= i32::MAX
    }

    /// Every part lies in the register file.
    pub open spec fn wf(self) -> bool {
        &&& self.holds(self.gpr)
        &&& self.holds(self.rip)
        &&& self.holds(self.fs_base)
        &&& self.holds(self.gs_base)
        &&& self.holds(self.cf)
        &&& self.holds(self.pf)
        &&& self.holds(self.af)
        &&& self.holds(self.zf)
        &&& self.holds(self.sf)
        &&& self.holds(self.of)
        &&& self.holds(self.df)
        &&& self.holds(self.xmm)
        &&& self.holds(self.ymm_hi)
        &&& self.holds(self.zmm_hi)
        &&& self.holds(self.kmask)
    }

    /// How far behind the start of the register file `p` lies.
    fn off(&self, p: usize) -> (r: i32)
        requires
            self.holds(p),
        ensures
            r == p - self.base,
    {
        (p - self.base) as i32
    }
}

/// The offsets of the parts of the register file that was measured.
pub fn cpu_offsets(at: &CpuAddresses) -> (r: CpuOffsets)
    requires
        at.wf(),
    ensures
        r.gpr == at.gpr - at.base,
        r.rip == at.rip - at.base,
        r.fs_base == at.fs_base - at.base,
        r.gs_base == at.gs_base - at.base,
        r.cf == at.cf - at.base,
        r.pf == at.pf - at.base,
        r.af == at.af - at.base,
        r.zf == at.zf - at.base,
        r.sf == at.sf - at.base,
        r.of == at.of - at.base,
        r.df == at.df - at.base,
        r.xmm == at.xmm - at.base,
        r.ymm_hi == at.ymm_hi - at.base,
        r.zmm_hi == at.zmm_hi - at.base,
        r.kmask == at.kmask - at.base,
{
    CpuOffsets {
        gpr: at.off(at.gpr),
        rip: at.off(at.rip),
        fs_base: at.off(at.fs_base),
        gs_base: at.off(at.gs_base),
        cf: at.off(at.cf),
        pf: at.off(at.pf),
        af: at.off(at.af),
        zf: at.off(at.zf),
        sf: at.off(at.sf),
        of: at.off(at.of),
        df: at.off(at.df),
        xmm: at.off(at.xmm),
        ymm_hi: at.off(at.ymm_hi),
        zmm_hi: at.off(at.zmm_hi),
        kmask: at.off(at.kmask),
    }
}

// --- what the layout promises ---

/// A context survives the way to compiled code and back.
pub proof fn law_words_determine_context(a: MemCtx, b: MemCtx, words: Seq<u64>)
    requires
        a.laid_out(words),
        b.laid_out(words),
    ensures
        a == b,
{
}

/// What each code that a block returns stands for, by its number: 0, 4, 5 and 7 go on, 1 is a
/// system call, 2 a halt, 3 the reported access to memory that is not mapped, 6 the divide error
/// where the instruction pointer is, and 8 a single step. No other number is a code.
pub proof fn law_return_codes(code: u64, ctx: MemCtx, rip: u64)
    ensures
        ({
            let r = after_block(code, ctx, rip);
            &&& code == 0 || code == 4 || code == 5 || code == 7 <==> r == Some(
                AfterBlock::Done(StepResult::Continue),
            )
            &&& code == 1 <==> r == Some(AfterBlock::Done(StepResult::Exit(Exit::Syscall)))
            &&& code == 2 <==> r == Some(AfterBlock::Done(StepResult::Exit(Exit::Hlt)))
            &&& code == 3 && ctx.fault_access == 0 ==> r == Some(
                AfterBlock::Done(
                    StepResult::Exit(
                        Exit::UnmappedMemory { addr: ctx.fault_addr, access: AccessKind::Read },
                    ),
                ),
            )
            &&& code == 3 && ctx.fault_access == 1 ==> r == Some(
                AfterBlock::Done(
                    StepResult::Exit(
                        Exit::UnmappedMemory { addr: ctx.fault_addr, access: AccessKind::Write },
                    ),
                ),
            )
            &&& code == 6 <==> r == Some(
                AfterBlock::Done(StepResult::Exit(Exit::Exception { addr: rip, vector: 0 })),
            )
            &&& code == 8 <==> r == Some(AfterBlock::StepOne)
            &&& code > 8 <==> r is None
        }),
{
}

/// The fields of a context follow each other in words of 8 bytes.
pub proof fn law_context_words(ctx: MemCtx, words: Seq<u64>)
    requires
        words.len() == 10,
    ensures
        ctx.laid_out(words) <==> words =~= seq![
            ctx.base,
            ctx.size,
            ctx.fault_addr,
            ctx.fault_size,
            ctx.fault_access,
            ctx.next_entry,
            ctx.link_slot,
            ctx.fuel,
            ctx.ret_stack,
            ctx.guest_base,
        ],
{
}

/// A fresh context reports nothing, allows any number of blocks, and describes its buffer.
pub proof fn law_fresh_context(base: u64, size: u64, guest_base: u64)
    ensures
        ({
            let c = MemCtx::fresh(base, size, guest_base);
            &&& c.base == base && c.size == size && c.guest_base == guest_base
            &&& c.fault_addr == 0 && c.fault_size == 0 && c.fault_access == 0
            &&& c.next_entry == 0 && c.link_slot == 0 && c.ret_stack == 0
            &&& c.fuel == u64::MAX
        }),
{
}

/// The push count is the first word, and the frames follow it in pairs of words.
pub proof fn law_stack_words(stack: &RetStack, i: usize)
    requires
        i < 64,
    ensures
        stack.sp() == stack.words@[0],
        stack.entry(i) == (stack.words@[1 + 2 * i], stack.words@[2 + 2 * i]),
{
}

/// No two parts of the shadow return stack share a word, and none lies outside it.
pub proof fn law_frames_are_apart(i: int, j: int)
    requires
        0 <= i < j < RET_STACK_LEN,
    ensures
        RETSTACK_SP + 8 <= RETSTACK_ENTRIES + i * RETSTACK_STRIDE,
        RETSTACK_ENTRIES + i * RETSTACK_STRIDE + 16 <= RETSTACK_ENTRIES + j * RETSTACK_STRIDE,
        RETSTACK_ENTRIES + j * RETSTACK_STRIDE + 16 <= 129 * 8,
{
}

} // verus!
