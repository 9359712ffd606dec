//! Lift: x86 -> IR.
//!
//! Two levels: an operand-lowering layer beneath the per-mnemonic lift. Every operand is
//! reduced to a `Val` before an operation is emitted; memory operands expand to
//! effective-address arithmetic plus `Load`/`Store`.
use crate::insn::Insn;
use crate::ir::Val;
use crate::state::Reg;
use vstd::prelude::*;

pub mod arithmetic;
pub mod bitwise;
pub mod block;
pub mod compound;
pub mod condition;
pub mod control;
pub mod dispatch;
pub mod emit;
pub mod flags;
pub mod floating;
pub mod flow;
pub mod fpu;
pub mod integer;
pub mod lanewise;
pub mod meaning;
pub mod moves;
pub mod named;
pub mod operand;
pub mod opmasks;
pub mod region;
pub mod retry;
pub mod shuffles;
pub mod support;
pub mod table;
pub mod vcrypto;
pub mod vector;
pub mod vfloat;
pub mod vmask;
pub mod vmove;
pub mod vpacked;
pub mod vshuffle;

pub use block::{lift_block, lift_one};
pub use region::lift_region;

verus! {

/// Guest decode and lift context: the default operand and address size that a block of
/// bytes decodes and lifts under. `Compat32` (32-bit protected mode, flat segments) has
/// 32-bit control flow and stack: the instruction pointer is truncated on
/// jmp/jcc/call/ret, frames have 4 bytes (2 under a 66h prefix), and the stack pointer
/// wraps at 2^32.
#[derive(Copy, Clone, PartialEq, Eq, Structural, Hash, Debug)]
pub enum CpuMode {
    Long64,
    Compat32,
}

impl CpuMode {
    pub open spec fn spec_bits(self) -> u32 {
        match self {
            CpuMode::Long64 => 64,
            CpuMode::Compat32 => 32,
        }
    }

    /// Decoder bitness.
    #[verifier::when_used_as_spec(spec_bits)]
    pub fn bits(self) -> (r: u32)
        ensures
            r == self.spec_bits(),
    {
        match self {
            CpuMode::Long64 => 64,
            CpuMode::Compat32 => 32,
        }
    }

    pub open spec fn spec_wraps_32(self) -> bool {
        self == CpuMode::Compat32
    }

    /// Whether the instruction pointer and the stack pointer wrap at 2^32.
    #[verifier::when_used_as_spec(spec_wraps_32)]
    pub fn wraps_32(self) -> (r: bool)
        ensures
            r == self.spec_wraps_32(),
    {
        matches!(self, CpuMode::Compat32)
    }
}

/// A destination a result can be written to.
#[derive(Copy, Clone, Debug)]
pub enum WriteTarget {
    Reg { reg: Reg, size: u8 },
    Mem { addr: Val, size: u8 },
    /// A high-byte register (AH/BH/CH/DH, bits 8-15 of a general register). Written by a
    /// read-mask-merge sequence on the parent; not expressible as a `Reg`.
    HighByte { parent: Reg },
}

/// Why a block could not be lifted.
#[derive(Debug)]
pub enum LiftError {
    /// Decoded, but the lift does not handle it.
    Unsupported { addr: u64, bytes: [u8; 15], len: u8 },
    /// Could not even decode (garbage, or bytes outside mapped memory).
    DecodeFault { addr: u64 },
}

impl LiftError {
    /// The instruction is not supported; its bytes are not filled in.
    pub open spec fn is_unsupported(self, insn: &Insn) -> bool {
        self matches LiftError::Unsupported { addr, bytes, len } && addr == insn.ip && len
            == insn.len && bytes@ == Seq::new(15, |i: int| 0u8)
    }
}

} // verus!
