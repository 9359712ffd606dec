//! Decoding of guest bytes. The decoder is `iced_x86`; its answers are taken over as plain
//! values and assembled to an [`Insn`].
use crate::insn::{Insn, Operand};
use iced_x86::{Decoder, DecoderOptions};
use vstd::prelude::*;

verus! {

/// The code number of bytes that are no instruction.
pub const INVALID: u16 = 0;

/// The error number for bytes that end within an instruction.
pub const NO_MORE_BYTES: u8 = 2;

/// What an instruction is, apart from its operands.
#[derive(Copy, Clone, Debug)]
pub struct Head {
    pub error: u8,
    pub mnemonic: u16,
    pub code: u16,
    pub len: u8,
    pub op_count: u8,
    pub branch_target: u64,
    pub segment: u8,
    pub op_mask: u8,
    pub zeroing: bool,
    pub lock: bool,
    pub rep: bool,
    pub repne: bool,
}

/// The memory operand of an instruction, if it has one.
#[derive(Copy, Clone, Debug)]
pub struct MemRef {
    pub base: u8,
    pub base_size: u8,
    pub index: u8,
    pub index_size: u8,
    pub scale: u8,
    pub disp: u64,
    pub size: u64,
}

/// The head of the instruction at the front of `bytes`, decoded with `bits` as bitness and
/// `ip` as its address.
pub uninterp spec fn decoded_head(bits: u32, bytes: Seq<u8>, ip: u64) -> Head;

/// The five operand slots of that instruction.
pub uninterp spec fn decoded_operands(bits: u32, bytes: Seq<u8>, ip: u64) -> Seq<Operand>;

/// Its memory operand.
pub uninterp spec fn decoded_memory(bits: u32, bytes: Seq<u8>, ip: u64) -> MemRef;

/// `iced_x86::Decoder::with_ip` and `decode` on the bytes from `pos` on, with no options,
/// and the parts of the resulting `Instruction` that make up a [`Head`], enums as their
/// numbers. What they are depends on the arguments alone. Where there is a byte left, the
/// instruction has 1 to 15 bytes, all of them among those given, invalid ones included; no
/// instruction has more than five operands. What the numbers are for given bytes is left
/// to the decoder. `with_ip` panics for a bitness that is not 16, 32 or 64.
#[verifier::external_body]
fn decode_head(bits: u32, code: &[u8], pos: usize, ip: u64) -> (r: Head)
    requires
        bits == 32 || bits == 64,
        pos < code@.len(),
    ensures
        r == decoded_head(bits, code@.skip(pos as int), ip),
        1 <= r.len <= 15,
        r.len <= code@.len() - pos,
        r.op_count <= 5,
{
    let mut d = Decoder::with_ip(bits, &code[pos..], ip, DecoderOptions::NONE);
    let i = d.decode();
    Head {
        error: d.last_error() as u8, mnemonic: i.mnemonic() as u16, code: i.code() as u16,
        len: i.len() as u8, op_count: i.op_count() as u8, branch_target: i.near_branch_target(),
        segment: i.segment_prefix() as u8, op_mask: i.op_mask() as u8,
        zeroing: i.zeroing_masking(), lock: i.has_lock_prefix(), rep: i.has_rep_prefix(),
        repne: i.has_repne_prefix(),
    }
}

/// The same decoding, with `op_kind`, `op_register` and its `size`, and `try_immediate` of
/// the five operand slots (0 for a slot that is no immediate). What they are depends on
/// the arguments alone.
#[verifier::external_body]
fn decode_operands(bits: u32, code: &[u8], pos: usize, ip: u64) -> (r: Vec<Operand>)
    requires
        bits == 32 || bits == 64,
        pos < code@.len(),
    ensures
        r@ == decoded_operands(bits, code@.skip(pos as int), ip),
        r@.len() == 5,
{
    let i = Decoder::with_ip(bits, &code[pos..], ip, DecoderOptions::NONE).decode();
    let slot = |n: u32| Operand {
        kind: i.op_kind(n) as u8,
        reg: i.op_register(n) as u8,
        reg_size: i.op_register(n).size() as u8,
        imm: i.try_immediate(n).unwrap_or(0),
    };
    vec![slot(0), slot(1), slot(2), slot(3), slot(4)]
}

/// The same decoding, with `memory_base`, `memory_index` and their `size`,
/// `memory_index_scale`, `memory_displacement64` and `memory_size`. What they are depends
/// on the arguments alone; the scale is a power of two up to 8.
#[verifier::external_body]
fn decode_memory(bits: u32, code: &[u8], pos: usize, ip: u64) -> (r: MemRef)
    requires
        bits == 32 || bits == 64,
        pos < code@.len(),
    ensures
        r == decoded_memory(bits, code@.skip(pos as int), ip),
        r.scale == 1 || r.scale == 2 || r.scale == 4 || r.scale == 8,
{
    let i = Decoder::with_ip(bits, &code[pos..], ip, DecoderOptions::NONE).decode();
    MemRef {
        base: i.memory_base() as u8,
        base_size: i.memory_base().size() as u8,
        index: i.memory_index() as u8,
        index_size: i.memory_index().size() as u8,
        scale: i.memory_index_scale() as u8,
        disp: i.memory_displacement64(),
        size: i.memory_size().size() as u64,
    }
}

/// The outcome of decoding.
#[derive(Copy, Clone, Debug)]
pub enum Decoded {
    Insn(Insn),
    /// No instruction; `truncated` where the bytes may go on to one.
    Invalid { truncated: bool },
}

pub open spec fn assembled(head: Head, ops: Seq<Operand>, mem: MemRef, ip: u64) -> Decoded {
    if head.code == INVALID {
        Decoded::Invalid { truncated: head.error == NO_MORE_BYTES }
    } else {
        Decoded::Insn(
            Insn {
                mnemonic: head.mnemonic,
                code: head.code,
                ip,
                len: head.len,
                op_count: head.op_count,
                op0: ops[0],
                op1: ops[1],
                op2: ops[2],
                op3: ops[3],
                op4: ops[4],
                mem_base: mem.base,
                mem_base_size: mem.base_size,
                mem_index: mem.index,
                mem_index_size: mem.index_size,
                mem_scale: mem.scale,
                mem_disp: mem.disp,
                mem_size: mem.size,
                segment: head.segment,
                branch_target: head.branch_target,
                op_mask: head.op_mask,
                zeroing: head.zeroing,
                lock: head.lock,
                rep: head.rep,
                repne: head.repne,
            },
        )
    }
}

/// Puts the parts of an instruction together.
pub fn assemble(head: &Head, ops: &Vec<Operand>, mem: &MemRef, ip: u64) -> (r: Decoded)
    requires
        ops@.len() == 5,
    ensures
        r == assembled(*head, ops@, *mem, ip),
{
    if head.code == INVALID {
        return Decoded::Invalid { truncated: head.error == NO_MORE_BYTES };
    }
    Decoded::Insn(
        Insn {
            mnemonic: head.mnemonic,
            code: head.code,
            ip,
            len: head.len,
            op_count: head.op_count,
            op0: ops[0],
            op1: ops[1],
            op2: ops[2],
            op3: ops[3],
            op4: ops[4],
            mem_base: mem.base,
            mem_base_size: mem.base_size,
            mem_index: mem.index,
            mem_index_size: mem.index_size,
            mem_scale: mem.scale,
            mem_disp: mem.disp,
            mem_size: mem.size,
            segment: head.segment,
            branch_target: head.branch_target,
            op_mask: head.op_mask,
            zeroing: head.zeroing,
            lock: head.lock,
            rep: head.rep,
            repne: head.repne,
        },
    )
}

/// The instruction at the front of `bytes`.
pub open spec fn decoded(bits: u32, bytes: Seq<u8>, ip: u64) -> Decoded {
    assembled(
        decoded_head(bits, bytes, ip),
        decoded_operands(bits, bytes, ip),
        decoded_memory(bits, bytes, ip),
        ip,
    )
}

/// Decodes the instruction at offset `pos` of `code`, whose address is `ip`. An instruction
/// lies wholly within the bytes that are there.
pub fn decode(bits: u32, code: &[u8], pos: usize, ip: u64) -> (r: Decoded)
    requires
        bits == 32 || bits == 64,
        pos < code@.len(),
    ensures
        r == decoded(bits, code@.skip(pos as int), ip),
        r matches Decoded::Insn(insn) ==> insn.wf() && insn.ip == ip && insn.len <= code@.len()
            - pos,
{
    let head = decode_head(bits, code, pos, ip);
    let ops = decode_operands(bits, code, pos, ip);
    let mem = decode_memory(bits, code, pos, ip);
    assemble(&head, &ops, &mem, ip)
}

/// An instruction says what its parts say, each in its own place; the code number 0 is none, and
/// error 2 tells that bytes were missing.
pub proof fn law_parts_are_kept(head: Head, ops: Seq<Operand>, mem: MemRef, ip: u64)
    ensures
        head.code == 0 && head.error == 2 ==> assembled(head, ops, mem, ip) == (Decoded::Invalid {
            truncated: true,
        }),
        head.code == 0 && head.error != 2 ==> assembled(head, ops, mem, ip) == (Decoded::Invalid {
            truncated: false,
        }),
        head.code != 0 ==> {
            &&& assembled(head, ops, mem, ip) matches Decoded::Insn(insn)
            &&& insn.ip == ip
            &&& insn.mnemonic == head.mnemonic && insn.code == head.code && insn.len == head.len
            &&& insn.op_count == head.op_count && insn.branch_target == head.branch_target
            &&& insn.segment == head.segment && insn.op_mask == head.op_mask
            &&& insn.zeroing == head.zeroing && insn.lock == head.lock
            &&& insn.rep == head.rep && insn.repne == head.repne
            &&& insn.op0 == ops[0] && insn.op1 == ops[1] && insn.op2 == ops[2]
            &&& insn.op3 == ops[3] && insn.op4 == ops[4]
            &&& insn.mem_base == mem.base && insn.mem_base_size == mem.base_size
            &&& insn.mem_index == mem.index && insn.mem_index_size == mem.index_size
            &&& insn.mem_scale == mem.scale && insn.mem_disp == mem.disp
            &&& insn.mem_size == mem.size
        },
{
}

} // verus!
