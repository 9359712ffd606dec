//! A decoded instruction as plain values.
use crate::op_kind;
use vstd::prelude::*;

verus! {

/// One operand. `reg` and `reg_size` are meaningful for a register, `imm` for an
/// immediate; a memory operand is described by the instruction's own fields.
#[derive(Copy, Clone, Debug)]
pub struct Operand {
    pub kind: u8,
    pub reg: u8,
    /// Width of `reg` in bytes.
    pub reg_size: u8,
    /// The immediate, extended to 64 bits as its kind says; 0 for other kinds.
    pub imm: u64,
}

/// A decoded instruction: what the lift reads of it.
#[derive(Copy, Clone, Debug)]
pub struct Insn {
    pub mnemonic: u16,
    pub code: u16,
    pub ip: u64,
    pub len: u8,
    pub op_count: u8,
    pub op0: Operand,
    pub op1: Operand,
    pub op2: Operand,
    pub op3: Operand,
    pub op4: Operand,
    /// Base and index register of the memory operand, with their widths in bytes
    /// (0 where there is none), and the factor of the index.
    pub mem_base: u8,
    pub mem_base_size: u8,
    pub mem_index: u8,
    pub mem_index_size: u8,
    pub mem_scale: u8,
    /// Displacement of the memory operand; an absolute address where the base is the
    /// instruction pointer.
    pub mem_disp: u64,
    /// Bytes the memory operand covers.
    pub mem_size: u64,
    /// The segment register of a segment prefix.
    pub segment: u8,
    pub branch_target: u64,
    /// EVEX write mask register and zeroing.
    pub op_mask: u8,
    pub zeroing: bool,
    pub lock: bool,
    pub rep: bool,
    pub repne: bool,
}

impl Insn {
    /// What holds of every decoded instruction.
    pub open spec fn wf(&self) -> bool {
        &&& 1 <= self.len <= 15
        &&& self.op_count <= 5
        &&& self.mem_scale == 1 || self.mem_scale == 2 || self.mem_scale == 4 || self.mem_scale
            == 8
    }

    pub open spec fn spec_op(&self, i: u32) -> Operand {
        if i == 0 {
            self.op0
        } else if i == 1 {
            self.op1
        } else if i == 2 {
            self.op2
        } else if i == 3 {
            self.op3
        } else {
            self.op4
        }
    }

    /// Operand `i`; an instruction has at most five.
    #[verifier::when_used_as_spec(spec_op)]
    pub fn op(&self, i: u32) -> (r: Operand)
        ensures
            r == self.spec_op(i),
    {
        if i == 0 {
            self.op0
        } else if i == 1 {
            self.op1
        } else if i == 2 {
            self.op2
        } else if i == 3 {
            self.op3
        } else {
            self.op4
        }
    }

    pub open spec fn spec_next_ip(&self) -> u64 {
        self.ip.wrapping_add(self.len as u64)
    }

    /// The address behind the instruction.
    #[verifier::when_used_as_spec(spec_next_ip)]
    pub fn next_ip(&self) -> (r: u64)
        ensures
            r == self.spec_next_ip(),
    {
        self.ip.wrapping_add(self.len as u64)
    }

    pub open spec fn spec_is_mem(&self, i: u32) -> bool {
        self.spec_op(i).kind == op_kind::MEMORY
    }

    /// Whether operand `i` is a memory reference.
    #[verifier::when_used_as_spec(spec_is_mem)]
    pub fn is_mem(&self, i: u32) -> (r: bool)
        ensures
            r == self.spec_is_mem(i),
    {
        self.op(i).kind == op_kind::MEMORY
    }

    pub open spec fn spec_imm8(&self, i: u32) -> u8 {
        self.spec_op(i).imm as u8
    }

    /// The low byte of the immediate in operand `i`.
    #[verifier::when_used_as_spec(spec_imm8)]
    pub fn imm8(&self, i: u32) -> (r: u8)
        ensures
            r == self.spec_imm8(i),
    {
        self.op(i).imm as u8
    }
}

} // verus!
