//! Why execution of guest code stops.
use vstd::prelude::*;

verus! {

/// The direction of a memory access.
#[derive(Copy, Clone, PartialEq, Eq, Structural, Debug)]
pub enum AccessKind {
    Read,
    Write,
}

/// An event that the embedder handles.
#[derive(Copy, Clone, PartialEq, Eq, Structural, Debug)]
pub enum Exit {
    UnmappedMemory { addr: u64, access: AccessKind },
    Syscall,
    Hlt,
    Exception { addr: u64, vector: u8 },
}

/// The outcome of running one block.
#[derive(Copy, Clone, PartialEq, Eq, Structural, Debug)]
pub enum StepResult {
    Continue,
    Exit(Exit),
}

} // verus!
