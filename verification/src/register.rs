//! Register numbers of a decoded instruction, as the decoder counts them. The registers
//! of one class have consecutive numbers.
use vstd::prelude::*;

verus! {

pub const NONE: u8 = 0;
/// `al`, the first of the 20 byte registers; the four high-byte ones follow `bl`.
pub const AL: u8 = 1;
pub const AH: u8 = 5;
pub const CH: u8 = 6;
pub const DH: u8 = 7;
pub const BH: u8 = 8;
pub const SPL: u8 = 9;
pub const AX: u8 = 21;
pub const EAX: u8 = 37;
pub const RAX: u8 = 53;
pub const RSP: u8 = 57;
pub const EIP: u8 = 69;
pub const RIP: u8 = 70;
pub const FS: u8 = 75;
pub const GS: u8 = 76;
pub const XMM0: u8 = 77;
pub const YMM0: u8 = 109;
pub const ZMM0: u8 = 141;
pub const K0: u8 = 173;
pub const ST0: u8 = 217;
pub const MM0: u8 = 225;

/// The encoding number of a general register of any width; a high-byte register counts
/// as the general register it is a part of.
pub open spec fn spec_gpr_index(r: u8) -> Option<u8> {
    if AL <= r < AH {
        Some((r - AL) as u8)
    } else if AH <= r < SPL {
        Some((r - AH) as u8)
    } else if SPL <= r < AX {
        Some((r - SPL + 4) as u8)
    } else if AX <= r < EAX {
        Some((r - AX) as u8)
    } else if EAX <= r < RAX {
        Some((r - EAX) as u8)
    } else if RAX <= r < EIP {
        Some((r - RAX) as u8)
    } else {
        None
    }
}

#[verifier::when_used_as_spec(spec_gpr_index)]
pub fn gpr_index(r: u8) -> (i: Option<u8>)
    ensures
        i == spec_gpr_index(r),
        i matches Some(n) ==> n < 16,
{
    if AL <= r && r < AH {
        Some(r - AL)
    } else if AH <= r && r < SPL {
        Some(r - AH)
    } else if SPL <= r && r < AX {
        Some(r - SPL + 4)
    } else if AX <= r && r < EAX {
        Some(r - AX)
    } else if EAX <= r && r < RAX {
        Some(r - EAX)
    } else if RAX <= r && r < EIP {
        Some(r - RAX)
    } else {
        None
    }
}

/// The place of `r` in the class of `count` registers that starts at `first`.
pub open spec fn spec_index_in(r: u8, first: u8, count: u8) -> Option<u8> {
    if first <= r < first + count {
        Some((r - first) as u8)
    } else {
        None
    }
}

#[verifier::when_used_as_spec(spec_index_in)]
pub fn index_in(r: u8, first: u8, count: u8) -> (i: Option<u8>)
    ensures
        i == spec_index_in(r, first, count),
{
    if first <= r && r - first < count {
        Some(r - first)
    } else {
        None
    }
}

} // verus!
