//! Guest registers as the IR names them.
use vstd::prelude::*;

verus! {

/// A 64-bit guest register the IR reads or writes as a whole: the general registers in
/// encoding order, the instruction pointer and the two segment bases.
#[derive(Copy, Clone, PartialEq, Eq, Structural, Debug)]
pub enum Reg {
    Rax,
    Rcx,
    Rdx,
    Rbx,
    Rsp,
    Rbp,
    Rsi,
    Rdi,
    R8,
    R9,
    R10,
    R11,
    R12,
    R13,
    R14,
    R15,
    Rip,
    FsBase,
    GsBase,
}

impl Reg {
    /// One of the sixteen general registers.
    pub open spec fn is_general(self) -> bool {
        !(self is Rip || self is FsBase || self is GsBase)
    }

    /// The general register with encoding number `i`.
    pub open spec fn gpr(i: int) -> Reg {
        if i == 0 {
            Reg::Rax
        } else if i == 1 {
            Reg::Rcx
        } else if i == 2 {
            Reg::Rdx
        } else if i == 3 {
            Reg::Rbx
        } else if i == 4 {
            Reg::Rsp
        } else if i == 5 {
            Reg::Rbp
        } else if i == 6 {
            Reg::Rsi
        } else if i == 7 {
            Reg::Rdi
        } else if i == 8 {
            Reg::R8
        } else if i == 9 {
            Reg::R9
        } else if i == 10 {
            Reg::R10
        } else if i == 11 {
            Reg::R11
        } else if i == 12 {
            Reg::R12
        } else if i == 13 {
            Reg::R13
        } else if i == 14 {
            Reg::R14
        } else {
            Reg::R15
        }
    }

    pub fn from_gpr_index(i: u8) -> (r: Reg)
        requires
            i < 16,
        ensures
            r == Reg::gpr(i as int),
    {
        match i {
            0 => Reg::Rax,
            1 => Reg::Rcx,
            2 => Reg::Rdx,
            3 => Reg::Rbx,
            4 => Reg::Rsp,
            5 => Reg::Rbp,
            6 => Reg::Rsi,
            7 => Reg::Rdi,
            8 => Reg::R8,
            9 => Reg::R9,
            10 => Reg::R10,
            11 => Reg::R11,
            12 => Reg::R12,
            13 => Reg::R13,
            14 => Reg::R14,
            _ => Reg::R15,
        }
    }
}

} // verus!
