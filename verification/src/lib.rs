//! Core of an x86 recompiler: decoding guest code and lifting it to an
//! intermediate representation.
pub mod aes;
pub mod code;
pub mod decode;
pub mod exit;
pub mod gf;
pub mod gfni;
pub mod insn;
pub mod ir;
pub mod jit_abi;
pub mod lanes;
pub mod lift;
pub mod memory;
pub mod mnemonic;
pub mod op_kind;
pub mod register;
pub mod sha;
pub mod state;
pub mod x87;

pub use exit::{AccessKind, Exit, StepResult};
pub use ir::{
    AesOp, BitScanOp, BtOp, Cond, FPrec, FlagMask, FloatBinOp, FloatUnOp, GfniOp, IrBlock, IrOp,
    IrRegion, MemOrder, PackedBinOp, RegionCaps, RepKind, RmwOp, ShaOp, StrOp, Temp, TempGen,
    VKLogicOp, VLogicOp, Val, VpUnaryOp,
};
pub use lift::CpuMode;
pub use memory::{MemError, Memory, MemoryModel, Prot, RegionKind};
pub use state::Reg;
pub use x87::FpuKind;
