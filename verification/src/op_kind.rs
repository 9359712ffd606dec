//! Operand kinds of a decoded instruction, as the decoder numbers them.
use vstd::prelude::*;

verus! {

pub const REGISTER: u8 = 0;
pub const NEAR_BRANCH16: u8 = 1;
pub const NEAR_BRANCH32: u8 = 2;
pub const NEAR_BRANCH64: u8 = 3;
pub const IMMEDIATE8: u8 = 6;
pub const IMMEDIATE32TO64: u8 = 14;
/// String operands at `ds:si`, `ds:esi`, `ds:rsi`, `ds:di`, `ds:edi`, `ds:rdi`.
pub const MEMORY_SEG_SI: u8 = 15;
pub const MEMORY_SEG_ESI: u8 = 16;
pub const MEMORY_SEG_DI: u8 = 18;
pub const MEMORY_SEG_EDI: u8 = 19;
/// String operands at `es:di`, `es:edi`, `es:rdi`.
pub const MEMORY_ES_DI: u8 = 21;
pub const MEMORY_ES_EDI: u8 = 22;
pub const MEMORY: u8 = 24;

/// Immediates, sign-extended ones included, have the numbers in between.
pub open spec fn spec_is_immediate(kind: u8) -> bool {
    IMMEDIATE8 <= kind <= IMMEDIATE32TO64
}

#[verifier::when_used_as_spec(spec_is_immediate)]
pub fn is_immediate(kind: u8) -> (r: bool)
    ensures
        r == spec_is_immediate(kind),
{
    IMMEDIATE8 <= kind && kind <= IMMEDIATE32TO64
}

/// A direct near branch of any width.
pub open spec fn spec_is_near_branch(kind: u8) -> bool {
    NEAR_BRANCH16 <= kind <= NEAR_BRANCH64
}

#[verifier::when_used_as_spec(spec_is_near_branch)]
pub fn is_near_branch(kind: u8) -> (r: bool)
    ensures
        r == spec_is_near_branch(kind),
{
    NEAR_BRANCH16 <= kind && kind <= NEAR_BRANCH64
}

} // verus!
