//! x87 operation kinds.
use vstd::prelude::*;

verus! {

/// What one x87 instruction does. `*Sti` kinds take ST(i) with ST(0) as destination,
/// `*ToSti` kinds have ST(i) as destination, `*P` kinds pop afterwards.
#[derive(Copy, Clone, PartialEq, Eq, Structural, Debug)]
pub enum FpuKind {
    FldF32,
    FldF80,
    FldF64,
    FldSti,
    FildI16,
    FildI64,
    FildI32,
    FstSti,
    FstF32,
    FstF64,
    FstpSti,
    FstpF32,
    FstpF80,
    FstpF64,
    FistpI16,
    FistpI64,
    FistpI32,
    FisttpI16,
    FisttpI64,
    FisttpI32,
    FaddSti,
    FaddToSti,
    FaddMemF32,
    FaddMemF64,
    FaddP,
    FsubSti,
    FsubToSti,
    FsubMemF32,
    FsubMemF64,
    FsubP,
    FsubrSti,
    FsubrToSti,
    FsubrMemF32,
    FsubrMemF64,
    FsubrP,
    FmulSti,
    FmulToSti,
    FmulMemF32,
    FmulMemF64,
    FmulP,
    FdivSti,
    FdivToSti,
    FdivMemF32,
    FdivMemF64,
    FdivP,
    FdivrSti,
    FdivrToSti,
    FdivrMemF32,
    FdivrMemF64,
    FdivrP,
    Fld1,
    Fldz,
    Fabs,
    Fchs,
    Fxch,
    Fucomi,
    Fucomip,
    Fcomi,
    Fcomip,
    Fldcw,
    Fnstcw,
    FnstswMem,
    Fnstsw,
    Fprem,
    Fsin,
    Fcos,
    Fptan,
    Fpatan,
    F2xm1,
    Fyl2x,
    Fyl2xp1,
    Fsincos,
}

} // verus!
