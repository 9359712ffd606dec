//! How vector instructions are dispatched, and what their operands are.
use crate::insn::{Insn, Operand};
use crate::ir::{FPrec, IrOp, Val};
use crate::lift::emit::Emission;
use crate::lift::table::{
    ConvertForm, CryptoForm, FloatForm, Form, MaskForm, MoveForm, PackedForm, ShuffleForm,
};
use crate::lift::{dispatch, operand, table, CpuMode};
use crate::{op_kind, register};
use vstd::prelude::*;

verus! {

// --- operands ---

/// The number of a register of the 32 that start at `first`.
pub open spec fn numbered(o: Operand, first: u8) -> Option<u8> {
    if o.kind == op_kind::REGISTER && first <= o.reg && o.reg < first + 32 {
        Some((o.reg - first) as u8)
    } else {
        None
    }
}

/// The number of an XMM register.
pub open spec fn xmm(o: Operand) -> Option<u8> {
    numbered(o, register::XMM0)
}

/// The number of a YMM register.
pub open spec fn ymm(o: Operand) -> Option<u8> {
    numbered(o, register::YMM0)
}

/// The number of a ZMM register.
pub open spec fn zmm(o: Operand) -> Option<u8> {
    numbered(o, register::ZMM0)
}

/// The number of one of the eight registers that start at `first`: the opmask registers, or
/// those of MMX.
pub open spec fn one_of_eight(o: Operand, first: u8) -> Option<u8> {
    if o.kind == op_kind::REGISTER && first <= o.reg && o.reg < first + 8 {
        Some((o.reg - first) as u8)
    } else {
        None
    }
}

/// The number of an opmask register.
pub open spec fn opmask(o: Operand) -> Option<u8> {
    one_of_eight(o, register::K0)
}

/// The number of an MMX register.
pub open spec fn mmx(o: Operand) -> Option<u8> {
    one_of_eight(o, register::MM0)
}

/// The number of a vector register of any width.
pub open spec fn vector(o: Operand) -> Option<u8> {
    if xmm(o) is Some {
        xmm(o)
    } else if ymm(o) is Some {
        ymm(o)
    } else {
        zmm(o)
    }
}

/// The bytes of a vector register.
pub open spec fn wide(o: Operand) -> u16 {
    if xmm(o) is Some {
        16
    } else if ymm(o) is Some {
        32
    } else {
        64
    }
}

pub open spec fn memory(o: Operand) -> bool {
    o.kind == op_kind::MEMORY
}

/// The low byte of an immediate.
pub open spec fn byte(o: Operand) -> u8 {
    o.imm as u8
}

/// The bytes of a general register, or of the memory operand.
pub open spec fn extent(insn: &Insn, o: Operand) -> u8 {
    if o.kind == op_kind::REGISTER {
        o.reg_size
    } else if o.kind == op_kind::MEMORY {
        insn.mem_size as u8
    } else {
        0
    }
}

/// The bytes of a float.
pub open spec fn width(prec: FPrec) -> u8 {
    match prec {
        FPrec::F32 => 4,
        FPrec::F64 => 8,
    }
}

/// A write mask or zeroing stands in the instruction.
pub open spec fn masked(insn: &Insn) -> bool {
    insn.op_mask != register::NONE || insn.zeroing
}

/// The write mask, `k1` to `k7`.
pub open spec fn write_mask(insn: &Insn) -> Option<u8> {
    if insn.op_mask > register::K0 {
        Some((insn.op_mask - register::K0) as u8)
    } else {
        None
    }
}

// --- what is emitted ---

/// Just these operations come behind what stood there; a failure before stays one.
pub open spec fn extends(s: Emission, s1: Emission, ops: Seq<IrOp>) -> bool {
    if s.ok {
        s1.ok && s1.next == s.next && s1.ops =~= s.ops + ops
    } else {
        !s1.ok
    }
}

/// The operations for a source `o` by whether it is the register `reg` or memory; another
/// operand is refused.
pub open spec fn by_source(
    insn: &Insn,
    o: Operand,
    reg: Option<u8>,
    s: Emission,
    s1: Emission,
    with_register: spec_fn(u8) -> Seq<IrOp>,
    with_memory: spec_fn(Val) -> Seq<IrOp>,
) -> bool {
    if reg is Some {
        extends(s, s1, with_register(reg->0))
    } else if memory(o) {
        let (s2, addr) = operand::address(insn, s);
        extends(s2, s1, with_memory(addr))
    } else {
        !s1.ok
    }
}

/// `dst` takes `a` first, where it is another register; then comes `op`, and the bits above
/// 128 are cleared.
pub open spec fn in_place(dst: u8, a: u8, op: IrOp) -> Seq<IrOp> {
    if dst == a {
        seq![op, IrOp::VZeroUpper { reg: dst }]
    } else {
        seq![IrOp::VMov { dst, src: a }, op, IrOp::VZeroUpper { reg: dst }]
    }
}

// --- dispatch ---

/// An instruction of this table is lifted by its form there, and the block goes on.
#[verifier::rlimit(100)]
pub proof fn lemma_move(insn: &Insn, mode: CpuMode, s: Emission, form: MoveForm)
    requires
        table::move_form(insn.mnemonic) == Some(form),
    ensures
        dispatch::insn_ir(insn, mode, s) == (dispatch::move_ir(form, insn, s), false),
{
    reveal(dispatch::insn_ir);
    reveal(table::form_of);
    assert(table::form_of(insn.mnemonic) == Some(Form::Move(form)));
}

/// An instruction of this table is lifted by its form there, and the block goes on.
#[verifier::rlimit(100)]
pub proof fn lemma_packed(insn: &Insn, mode: CpuMode, s: Emission, form: PackedForm)
    requires
        table::packed_form(insn.mnemonic) == Some(form),
    ensures
        dispatch::insn_ir(insn, mode, s) == (dispatch::packed_ir(form, insn, s), false),
{
    reveal(dispatch::insn_ir);
    reveal(table::form_of);
    assert(table::form_of(insn.mnemonic) == Some(Form::Packed(form)));
}

/// An instruction of this table is lifted by its form there, and the block goes on.
#[verifier::rlimit(100)]
pub proof fn lemma_shuffle(insn: &Insn, mode: CpuMode, s: Emission, form: ShuffleForm)
    requires
        table::shuffle_form(insn.mnemonic) == Some(form),
    ensures
        dispatch::insn_ir(insn, mode, s) == (dispatch::shuffle_ir(form, insn, s), false),
{
    reveal(dispatch::insn_ir);
    reveal(table::form_of);
    assert(table::form_of(insn.mnemonic) == Some(Form::Shuffle(form)));
}

/// An instruction of this table is lifted by its form there, and the block goes on.
#[verifier::rlimit(100)]
pub proof fn lemma_mask(insn: &Insn, mode: CpuMode, s: Emission, form: MaskForm)
    requires
        table::mask_form(insn.mnemonic) == Some(form),
    ensures
        dispatch::insn_ir(insn, mode, s) == (dispatch::mask_ir(form, insn, s), false),
{
    reveal(dispatch::insn_ir);
    reveal(table::form_of);
    assert(table::form_of(insn.mnemonic) == Some(Form::Mask(form)));
}

/// An instruction of this table is lifted by its form there, and the block goes on.
#[verifier::rlimit(100)]
pub proof fn lemma_crypto(insn: &Insn, mode: CpuMode, s: Emission, form: CryptoForm)
    requires
        table::crypto_form(insn.mnemonic) == Some(form),
    ensures
        dispatch::insn_ir(insn, mode, s) == (dispatch::crypto_ir(form, insn, s), false),
{
    reveal(dispatch::insn_ir);
    reveal(table::form_of);
    assert(table::form_of(insn.mnemonic) == Some(Form::Crypto(form)));
}

/// An instruction of this table is lifted by its form there, and the block goes on.
#[verifier::rlimit(100)]
pub proof fn lemma_float(insn: &Insn, mode: CpuMode, s: Emission, form: FloatForm)
    requires
        table::float_form(insn.mnemonic) == Some(form),
    ensures
        dispatch::insn_ir(insn, mode, s) == (dispatch::float_ir(form, insn, s), false),
{
    reveal(dispatch::insn_ir);
    reveal(table::form_of);
    assert(table::form_of(insn.mnemonic) == Some(Form::Float(form)));
}

/// An instruction of this table is lifted by its form there, and the block goes on.
#[verifier::rlimit(100)]
pub proof fn lemma_convert(insn: &Insn, mode: CpuMode, s: Emission, form: ConvertForm)
    requires
        table::convert_form(insn.mnemonic) == Some(form),
    ensures
        dispatch::insn_ir(insn, mode, s) == (dispatch::convert_ir(form, insn, s), false),
{
    reveal(dispatch::insn_ir);
    reveal(table::form_of);
    assert(table::form_of(insn.mnemonic) == Some(Form::Convert(form)));
}

} // verus!
