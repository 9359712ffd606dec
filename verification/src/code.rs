//! Encodings of a decoded instruction that the lift tells apart, as the decoder numbers
//! them: the forms with a 16-bit operand size.
use vstd::prelude::*;

verus! {

pub const PUSH_IMM16: u16 = 141;
pub const PUSHW_IMM8: u16 = 147;
pub const RETNW_IMM16: u16 = 391;
pub const RETNW: u16 = 394;
pub const LEAVEW: u16 = 411;
pub const CALL_REL16: u16 = 691;
pub const CALL_RM16: u16 = 757;

} // verus!
