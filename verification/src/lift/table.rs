//! Which form of lift each mnemonic takes.
use crate::ir::{
    AesOp, BitScanOp, BmiOp, BtOp, Cond, FPrec, FlagMask, FloatBinOp, FloatUnOp, GfniOp,
    PackedBinOp, ShaOp, StrOp, VKLogicOp, VLogicOp,
};
use crate::lift::integer::{BinOp, UnaryOp};
use crate::mnemonic as mn;
use vstd::prelude::*;

verus! {

/// Integer instructions.
#[derive(Copy, Clone, Debug)]
pub enum IntForm {
    /// Nothing to do: hints, fences and state that is not modelled.
    Nop,
    Mov,
    Lea,
    /// Operation, flags, and whether the result is written.
    Bin(BinOp, FlagMask, bool),
    /// Left or right.
    DoubleShift(bool),
    Unary(UnaryOp),
    Mul,
    Imul,
    /// Signed or not.
    Div(bool),
    Mulx,
    Bswap,
    Movbe,
    Xchg,
    Xadd,
    Cmpxchg,
    Popcnt,
    Crc32,
    Movzx,
    Movsx,
    Bmi(BmiOp),
    BmiShift(BinOp),
    BitScan(BitScanOp),
    Bt(BtOp),
    /// The accumulator, from and to a width.
    Extend(u8, u8),
    /// The sign of the accumulator of a width.
    SignIntoDx(u8),
    Setcc(Cond),
    Cmovcc(Cond),
}

/// Control flow, the stack, strings, x87 and system instructions.
#[derive(Copy, Clone, Debug)]
pub enum ControlForm {
    Cpuid,
    Xgetbv,
    Rdtsc,
    X87,
    Stmxcsr,
    /// Restore or save.
    FxState(bool),
    SetDf(bool),
    /// Operation and element.
    Str(StrOp, u8),
    Push,
    Pop,
    Leave,
    Jmp,
    Jcc(Cond),
    Call,
    Ret,
    Syscall,
    Hlt,
    /// Output or input.
    PortIo(bool),
    /// Vector, and whether the instruction is behind on return.
    Trap(u8, bool),
    Int,
}

/// Vector moves.
#[derive(Copy, Clone, Debug)]
pub enum MoveForm {
    /// Bytes.
    Mov(u8),
    /// Bytes.
    MovVex(u8),
    /// Element of the mask.
    MovAvx(u8),
    /// Into the high half, from the high half.
    MoveHalf(bool, bool),
    /// The high half.
    HalfMem(bool),
    /// The high half.
    HalfMemVex(bool),
    Movq2dq,
    Movdq2q,
    MoveMask,
    MoveMaskVex,
    /// Lane.
    MoveMaskFloat(u8),
    Pinsrw,
    /// Lane.
    Pinsr(u8),
    Pextrw,
    /// Lane.
    Pextr(u8),
    /// `vzeroall` clears the low halves too.
    ZeroUpper(bool),
}

/// Packed integer instructions.
#[derive(Copy, Clone, Debug)]
pub enum PackedForm {
    Logic(VLogicOp),
    LogicAvx(VLogicOp),
    /// Operation and element of the mask.
    LogicEvex(VLogicOp, u8),
    /// Lane and operation.
    Bin(u8, PackedBinOp),
    /// Lane and operation.
    BinAvx(u8, PackedBinOp),
    /// Lane and operation.
    BinEvex128(u8, PackedBinOp),
    /// Lane, right, arithmetic.
    Shift(u8, bool, bool),
    /// Lane, right, arithmetic.
    ShiftAvx(u8, bool, bool),
    /// Right.
    ByteShift(bool),
    /// Right.
    ByteShiftAvx(bool),
    /// Lane.
    Sign(u8),
    /// Lane.
    SignVex(u8),
    /// Lane.
    Abs(u8),
    /// Lane.
    Popcnt(u8),
    Ternlog,
    Ptest,
    /// Explicit lengths.
    StringIndex(bool),
}

/// Shuffles, permutes and lane moves.
#[derive(Copy, Clone, Debug)]
pub enum ShuffleForm {
    Pshufd,
    PshufdVex,
    /// The high half.
    Pshufw(bool),
    Pshufb,
    PshufbVex,
    Palignr,
    PalignrVex,
    /// Lane, of the high half.
    Unpack(u8, bool),
    /// Lane, of the high half.
    UnpackVex(u8, bool),
    Packuswb,
    /// Source lane, signed.
    PackVex(u8, bool),
    Pblendw,
    PblendwVex,
    /// Lane.
    Blendv(u8),
    /// From, to, signed.
    Extend(u8, u8, bool),
    /// From, to, signed.
    ExtendVex(u8, u8, bool),
    /// From, to.
    Narrow(u8, u8),
    /// Element.
    Broadcast(u8),
    Insert128,
    Extract128,
    /// Element.
    Align(u8),
    /// Element, index mode.
    Permute2(u8, bool),
    Vpermd,
    Perm2i128,
    Shufps,
    Shufpd,
    /// Two lanes of 128 bits, or one.
    InsertWide(bool),
    /// Two lanes of 128 bits, or one.
    ExtractWide(bool),
    Vpermq,
    /// The form by an immediate.
    Vpermpd,
}

/// Opmask instructions.
#[derive(Copy, Clone, Debug)]
pub enum MaskForm {
    /// Bits of a half.
    Unpack(u8),
    /// Operation and bits.
    Bin(VKLogicOp, u8),
    /// Bits.
    Not(u8),
    /// Bits, left.
    Shift(u8, bool),
    /// Bits.
    Mov(u8),
    /// Bits.
    OrTest(u8),
    /// Lane, negated.
    Test(u8, bool),
    /// Lane, signed.
    Compare(u8, bool),
    /// Lane, packed operation, predicate, signed.
    CompareFixed(u8, PackedBinOp, u8, bool),
}

/// AES, SHA and Galois-field instructions.
#[derive(Copy, Clone, Debug)]
pub enum CryptoForm {
    Aes(AesOp),
    AesVex(AesOp),
    /// VEX form.
    AesImc(bool),
    /// VEX form.
    AesKeygen(bool),
    Sha(ShaOp),
    Gfni(GfniOp),
    GfniVex(GfniOp),
}

/// Floating-point vector instructions.
#[derive(Copy, Clone, Debug)]
pub enum FloatForm {
    Move(FPrec),
    MoveVex(FPrec),
    /// Operation, precision, scalar.
    Bin(FloatBinOp, FPrec, bool),
    /// Operation, precision, scalar.
    BinVex(FloatBinOp, FPrec, bool),
    Compare(FPrec),
    /// Precision, scalar.
    CompareMask(FPrec, bool),
    /// Operation, precision, scalar.
    Unary(FloatUnOp, FPrec, bool),
    UnaryVex(FloatUnOp, FPrec),
    /// Operand order, precision, scalar, negated product, negated addend.
    Fma(u16, FPrec, bool, bool, bool),
    /// `movsd` of a double, or the string operation of that name.
    MovsdOrString,
    /// `cmpsd` of doubles, or the string operation of that name.
    CmpsdOrString,
}

/// Conversions and roundings of floats.
#[derive(Copy, Clone, Debug)]
pub enum ConvertForm {
    FromInt(FPrec),
    /// Precision, signed.
    FromIntVex(FPrec, bool),
    /// Precision, truncating, signed.
    ToInt(FPrec, bool, bool),
    /// From, to.
    Float(FPrec, FPrec),
    /// From, to.
    FloatVex(FPrec, FPrec),
    /// Precision, scalar.
    Round(FPrec, bool),
    RoundScale(FPrec),
}

/// How an instruction is lifted.
#[derive(Copy, Clone, Debug)]
pub enum Form {
    Int(IntForm),
    Control(ControlForm),
    Move(MoveForm),
    Packed(PackedForm),
    Shuffle(ShuffleForm),
    Mask(MaskForm),
    Crypto(CryptoForm),
    Float(FloatForm),
    Convert(ConvertForm),
}

pub open spec fn spec_int_form(m: u16) -> Option<IntForm> {
    match m {
        mn::ADD => Some(IntForm::Bin(BinOp::Add, FlagMask::all(), true)),
        mn::ADC => Some(IntForm::Bin(BinOp::Adc, FlagMask::all(), true)),
        mn::SUB => Some(IntForm::Bin(BinOp::Sub, FlagMask::all(), true)),
        mn::SBB => Some(IntForm::Bin(BinOp::Sbb, FlagMask::all(), true)),
        mn::AND => Some(IntForm::Bin(BinOp::And, FlagMask::all(), true)),
        mn::OR => Some(IntForm::Bin(BinOp::Or, FlagMask::all(), true)),
        mn::XOR => Some(IntForm::Bin(BinOp::Xor, FlagMask::all(), true)),
        mn::CMP => Some(IntForm::Bin(BinOp::Sub, FlagMask::all(), false)),
        mn::TEST => Some(IntForm::Bin(BinOp::And, FlagMask::all(), false)),
        mn::SHL | mn::SAL => Some(IntForm::Bin(BinOp::Shl, FlagMask::shift(), true)),
        mn::SHR => Some(IntForm::Bin(BinOp::Shr, FlagMask::shift(), true)),
        mn::SAR => Some(IntForm::Bin(BinOp::Sar, FlagMask::shift(), true)),
        mn::ROL => Some(IntForm::Bin(BinOp::Rol, FlagMask::cf_of(), true)),
        mn::ROR => Some(IntForm::Bin(BinOp::Ror, FlagMask::cf_of(), true)),
        mn::RCL => Some(IntForm::Bin(BinOp::Rcl, FlagMask::cf_of(), true)),
        mn::RCR => Some(IntForm::Bin(BinOp::Rcr, FlagMask::cf_of(), true)),
        mn::SHLD => Some(IntForm::DoubleShift(true)),
        mn::SHRD => Some(IntForm::DoubleShift(false)),
        mn::INC => Some(IntForm::Unary(UnaryOp::Inc)),
        mn::DEC => Some(IntForm::Unary(UnaryOp::Dec)),
        mn::NEG => Some(IntForm::Unary(UnaryOp::Neg)),
        mn::NOT => Some(IntForm::Unary(UnaryOp::Not)),
        mn::MUL => Some(IntForm::Mul),
        mn::IMUL => Some(IntForm::Imul),
        mn::DIV => Some(IntForm::Div(false)),
        mn::IDIV => Some(IntForm::Div(true)),
        mn::BSWAP => Some(IntForm::Bswap),
        mn::MOVBE => Some(IntForm::Movbe),
        mn::ANDN => Some(IntForm::Bmi(BmiOp::Andn)),
        mn::BLSI => Some(IntForm::Bmi(BmiOp::Blsi)),
        mn::BLSR => Some(IntForm::Bmi(BmiOp::Blsr)),
        mn::BLSMSK => Some(IntForm::Bmi(BmiOp::Blsmsk)),
        mn::BEXTR => Some(IntForm::Bmi(BmiOp::Bextr)),
        mn::BZHI => Some(IntForm::Bmi(BmiOp::Bzhi)),
        mn::PDEP => Some(IntForm::Bmi(BmiOp::Pdep)),
        mn::PEXT => Some(IntForm::Bmi(BmiOp::Pext)),
        mn::MULX => Some(IntForm::Mulx),
        mn::XCHG => Some(IntForm::Xchg),
        mn::XADD => Some(IntForm::Xadd),
        mn::CMPXCHG => Some(IntForm::Cmpxchg),
        mn::BSF => Some(IntForm::BitScan(BitScanOp::Bsf)),
        mn::BSR => Some(IntForm::BitScan(BitScanOp::Bsr)),
        mn::TZCNT => Some(IntForm::BitScan(BitScanOp::Tzcnt)),
        mn::LZCNT => Some(IntForm::BitScan(BitScanOp::Lzcnt)),
        mn::BT => Some(IntForm::Bt(BtOp::Test)),
        mn::BTS => Some(IntForm::Bt(BtOp::SetBit)),
        mn::BTR => Some(IntForm::Bt(BtOp::Reset)),
        mn::BTC => Some(IntForm::Bt(BtOp::Complement)),
        mn::MOVZX => Some(IntForm::Movzx),
        mn::MOVSX | mn::MOVSXD => Some(IntForm::Movsx),
        mn::CBW => Some(IntForm::Extend(1, 2)),
        mn::CWDE => Some(IntForm::Extend(2, 4)),
        mn::CDQE => Some(IntForm::Extend(4, 8)),
        mn::CWD => Some(IntForm::SignIntoDx(2)),
        mn::CDQ => Some(IntForm::SignIntoDx(4)),
        mn::CQO => Some(IntForm::SignIntoDx(8)),
        mn::NOP | mn::ENDBR64 | mn::ENDBR32 | mn::PAUSE | mn::WAIT | mn::RDSSPD | mn::RDSSPQ
        | mn::PREFETCHNTA | mn::PREFETCHT0 | mn::PREFETCHT1 | mn::PREFETCHT2 | mn::PREFETCHW
        | mn::PREFETCHWT1 | mn::LDMXCSR | mn::VLDMXCSR | mn::MFENCE | mn::LFENCE | mn::SFENCE
        | mn::EMMS | mn::FEMMS => Some(IntForm::Nop),
        mn::MOV | mn::MOVNTI => Some(IntForm::Mov),
        mn::LEA => Some(IntForm::Lea),
        mn::SHLX => Some(IntForm::BmiShift(BinOp::Shl)),
        mn::SHRX => Some(IntForm::BmiShift(BinOp::Shr)),
        mn::SARX => Some(IntForm::BmiShift(BinOp::Sar)),
        mn::RORX => Some(IntForm::BmiShift(BinOp::Ror)),
        mn::POPCNT => Some(IntForm::Popcnt),
        mn::CRC32 => Some(IntForm::Crc32),
        mn::SETE => Some(IntForm::Setcc(Cond::Eq)),
        mn::SETNE => Some(IntForm::Setcc(Cond::Ne)),
        mn::SETB => Some(IntForm::Setcc(Cond::Below)),
        mn::SETAE => Some(IntForm::Setcc(Cond::AboveEq)),
        mn::SETBE => Some(IntForm::Setcc(Cond::BelowEq)),
        mn::SETA => Some(IntForm::Setcc(Cond::Above)),
        mn::SETL => Some(IntForm::Setcc(Cond::Less)),
        mn::SETGE => Some(IntForm::Setcc(Cond::GreaterEq)),
        mn::SETLE => Some(IntForm::Setcc(Cond::LessEq)),
        mn::SETG => Some(IntForm::Setcc(Cond::Greater)),
        mn::SETS => Some(IntForm::Setcc(Cond::Sign)),
        mn::SETNS => Some(IntForm::Setcc(Cond::NoSign)),
        mn::SETO => Some(IntForm::Setcc(Cond::Overflow)),
        mn::SETNO => Some(IntForm::Setcc(Cond::NoOverflow)),
        mn::SETP => Some(IntForm::Setcc(Cond::Parity)),
        mn::SETNP => Some(IntForm::Setcc(Cond::NoParity)),
        mn::CMOVE => Some(IntForm::Cmovcc(Cond::Eq)),
        mn::CMOVNE => Some(IntForm::Cmovcc(Cond::Ne)),
        mn::CMOVB => Some(IntForm::Cmovcc(Cond::Below)),
        mn::CMOVAE => Some(IntForm::Cmovcc(Cond::AboveEq)),
        mn::CMOVBE => Some(IntForm::Cmovcc(Cond::BelowEq)),
        mn::CMOVA => Some(IntForm::Cmovcc(Cond::Above)),
        mn::CMOVL => Some(IntForm::Cmovcc(Cond::Less)),
        mn::CMOVGE => Some(IntForm::Cmovcc(Cond::GreaterEq)),
        mn::CMOVLE => Some(IntForm::Cmovcc(Cond::LessEq)),
        mn::CMOVG => Some(IntForm::Cmovcc(Cond::Greater)),
        mn::CMOVS => Some(IntForm::Cmovcc(Cond::Sign)),
        mn::CMOVNS => Some(IntForm::Cmovcc(Cond::NoSign)),
        mn::CMOVO => Some(IntForm::Cmovcc(Cond::Overflow)),
        mn::CMOVNO => Some(IntForm::Cmovcc(Cond::NoOverflow)),
        mn::CMOVP => Some(IntForm::Cmovcc(Cond::Parity)),
        mn::CMOVNP => Some(IntForm::Cmovcc(Cond::NoParity)),
        _ => None,
    }
}

/// Integer instructions.
#[verifier::when_used_as_spec(spec_int_form)]
pub fn int_form(m: u16) -> (r: Option<IntForm>)
    ensures
        r == spec_int_form(m),
{
    match m {
        mn::ADD => Some(IntForm::Bin(BinOp::Add, FlagMask::all(), true)),
        mn::ADC => Some(IntForm::Bin(BinOp::Adc, FlagMask::all(), true)),
        mn::SUB => Some(IntForm::Bin(BinOp::Sub, FlagMask::all(), true)),
        mn::SBB => Some(IntForm::Bin(BinOp::Sbb, FlagMask::all(), true)),
        mn::AND => Some(IntForm::Bin(BinOp::And, FlagMask::all(), true)),
        mn::OR => Some(IntForm::Bin(BinOp::Or, FlagMask::all(), true)),
        mn::XOR => Some(IntForm::Bin(BinOp::Xor, FlagMask::all(), true)),
        mn::CMP => Some(IntForm::Bin(BinOp::Sub, FlagMask::all(), false)),
        mn::TEST => Some(IntForm::Bin(BinOp::And, FlagMask::all(), false)),
        mn::SHL | mn::SAL => Some(IntForm::Bin(BinOp::Shl, FlagMask::shift(), true)),
        mn::SHR => Some(IntForm::Bin(BinOp::Shr, FlagMask::shift(), true)),
        mn::SAR => Some(IntForm::Bin(BinOp::Sar, FlagMask::shift(), true)),
        mn::ROL => Some(IntForm::Bin(BinOp::Rol, FlagMask::cf_of(), true)),
        mn::ROR => Some(IntForm::Bin(BinOp::Ror, FlagMask::cf_of(), true)),
        mn::RCL => Some(IntForm::Bin(BinOp::Rcl, FlagMask::cf_of(), true)),
        mn::RCR => Some(IntForm::Bin(BinOp::Rcr, FlagMask::cf_of(), true)),
        mn::SHLD => Some(IntForm::DoubleShift(true)),
        mn::SHRD => Some(IntForm::DoubleShift(false)),
        mn::INC => Some(IntForm::Unary(UnaryOp::Inc)),
        mn::DEC => Some(IntForm::Unary(UnaryOp::Dec)),
        mn::NEG => Some(IntForm::Unary(UnaryOp::Neg)),
        mn::NOT => Some(IntForm::Unary(UnaryOp::Not)),
        mn::MUL => Some(IntForm::Mul),
        mn::IMUL => Some(IntForm::Imul),
        mn::DIV => Some(IntForm::Div(false)),
        mn::IDIV => Some(IntForm::Div(true)),
        mn::BSWAP => Some(IntForm::Bswap),
        mn::MOVBE => Some(IntForm::Movbe),
        mn::ANDN => Some(IntForm::Bmi(BmiOp::Andn)),
        mn::BLSI => Some(IntForm::Bmi(BmiOp::Blsi)),
        mn::BLSR => Some(IntForm::Bmi(BmiOp::Blsr)),
        mn::BLSMSK => Some(IntForm::Bmi(BmiOp::Blsmsk)),
        mn::BEXTR => Some(IntForm::Bmi(BmiOp::Bextr)),
        mn::BZHI => Some(IntForm::Bmi(BmiOp::Bzhi)),
        mn::PDEP => Some(IntForm::Bmi(BmiOp::Pdep)),
        mn::PEXT => Some(IntForm::Bmi(BmiOp::Pext)),
        mn::MULX => Some(IntForm::Mulx),
        mn::XCHG => Some(IntForm::Xchg),
        mn::XADD => Some(IntForm::Xadd),
        mn::CMPXCHG => Some(IntForm::Cmpxchg),
        mn::BSF => Some(IntForm::BitScan(BitScanOp::Bsf)),
        mn::BSR => Some(IntForm::BitScan(BitScanOp::Bsr)),
        mn::TZCNT => Some(IntForm::BitScan(BitScanOp::Tzcnt)),
        mn::LZCNT => Some(IntForm::BitScan(BitScanOp::Lzcnt)),
        mn::BT => Some(IntForm::Bt(BtOp::Test)),
        mn::BTS => Some(IntForm::Bt(BtOp::SetBit)),
        mn::BTR => Some(IntForm::Bt(BtOp::Reset)),
        mn::BTC => Some(IntForm::Bt(BtOp::Complement)),
        mn::MOVZX => Some(IntForm::Movzx),
        mn::MOVSX | mn::MOVSXD => Some(IntForm::Movsx),
        mn::CBW => Some(IntForm::Extend(1, 2)),
        mn::CWDE => Some(IntForm::Extend(2, 4)),
        mn::CDQE => Some(IntForm::Extend(4, 8)),
        mn::CWD => Some(IntForm::SignIntoDx(2)),
        mn::CDQ => Some(IntForm::SignIntoDx(4)),
        mn::CQO => Some(IntForm::SignIntoDx(8)),
        mn::NOP | mn::ENDBR64 | mn::ENDBR32 | mn::PAUSE | mn::WAIT | mn::RDSSPD | mn::RDSSPQ
        | mn::PREFETCHNTA | mn::PREFETCHT0 | mn::PREFETCHT1 | mn::PREFETCHT2 | mn::PREFETCHW
        | mn::PREFETCHWT1 | mn::LDMXCSR | mn::VLDMXCSR | mn::MFENCE | mn::LFENCE | mn::SFENCE
        | mn::EMMS | mn::FEMMS => Some(IntForm::Nop),
        mn::MOV | mn::MOVNTI => Some(IntForm::Mov),
        mn::LEA => Some(IntForm::Lea),
        mn::SHLX => Some(IntForm::BmiShift(BinOp::Shl)),
        mn::SHRX => Some(IntForm::BmiShift(BinOp::Shr)),
        mn::SARX => Some(IntForm::BmiShift(BinOp::Sar)),
        mn::RORX => Some(IntForm::BmiShift(BinOp::Ror)),
        mn::POPCNT => Some(IntForm::Popcnt),
        mn::CRC32 => Some(IntForm::Crc32),
        mn::SETE => Some(IntForm::Setcc(Cond::Eq)),
        mn::SETNE => Some(IntForm::Setcc(Cond::Ne)),
        mn::SETB => Some(IntForm::Setcc(Cond::Below)),
        mn::SETAE => Some(IntForm::Setcc(Cond::AboveEq)),
        mn::SETBE => Some(IntForm::Setcc(Cond::BelowEq)),
        mn::SETA => Some(IntForm::Setcc(Cond::Above)),
        mn::SETL => Some(IntForm::Setcc(Cond::Less)),
        mn::SETGE => Some(IntForm::Setcc(Cond::GreaterEq)),
        mn::SETLE => Some(IntForm::Setcc(Cond::LessEq)),
        mn::SETG => Some(IntForm::Setcc(Cond::Greater)),
        mn::SETS => Some(IntForm::Setcc(Cond::Sign)),
        mn::SETNS => Some(IntForm::Setcc(Cond::NoSign)),
        mn::SETO => Some(IntForm::Setcc(Cond::Overflow)),
        mn::SETNO => Some(IntForm::Setcc(Cond::NoOverflow)),
        mn::SETP => Some(IntForm::Setcc(Cond::Parity)),
        mn::SETNP => Some(IntForm::Setcc(Cond::NoParity)),
        mn::CMOVE => Some(IntForm::Cmovcc(Cond::Eq)),
        mn::CMOVNE => Some(IntForm::Cmovcc(Cond::Ne)),
        mn::CMOVB => Some(IntForm::Cmovcc(Cond::Below)),
        mn::CMOVAE => Some(IntForm::Cmovcc(Cond::AboveEq)),
        mn::CMOVBE => Some(IntForm::Cmovcc(Cond::BelowEq)),
        mn::CMOVA => Some(IntForm::Cmovcc(Cond::Above)),
        mn::CMOVL => Some(IntForm::Cmovcc(Cond::Less)),
        mn::CMOVGE => Some(IntForm::Cmovcc(Cond::GreaterEq)),
        mn::CMOVLE => Some(IntForm::Cmovcc(Cond::LessEq)),
        mn::CMOVG => Some(IntForm::Cmovcc(Cond::Greater)),
        mn::CMOVS => Some(IntForm::Cmovcc(Cond::Sign)),
        mn::CMOVNS => Some(IntForm::Cmovcc(Cond::NoSign)),
        mn::CMOVO => Some(IntForm::Cmovcc(Cond::Overflow)),
        mn::CMOVNO => Some(IntForm::Cmovcc(Cond::NoOverflow)),
        mn::CMOVP => Some(IntForm::Cmovcc(Cond::Parity)),
        mn::CMOVNP => Some(IntForm::Cmovcc(Cond::NoParity)),
        _ => None,
    }
}

pub open spec fn spec_control_form(m: u16) -> Option<ControlForm> {
    match m {
        mn::FLD | mn::FST | mn::FSTP | mn::FILD | mn::FISTP | mn::FISTTP | mn::FADD | mn::FADDP
        | mn::FSUB | mn::FSUBP | mn::FSUBR | mn::FSUBRP | mn::FMUL | mn::FMULP | mn::FDIV
        | mn::FDIVP | mn::FDIVR | mn::FDIVRP | mn::FLD1 | mn::FLDZ | mn::FABS | mn::FCHS
        | mn::FXCH | mn::FUCOMI | mn::FUCOMIP | mn::FCOMI | mn::FCOMIP | mn::FLDCW | mn::FNSTCW
        | mn::FNSTSW | mn::FPREM | mn::FSIN | mn::FCOS | mn::FPTAN | mn::FPATAN | mn::F2XM1
        | mn::FYL2X | mn::FYL2XP1 | mn::FSINCOS => Some(ControlForm::X87),
        mn::MOVSB => Some(ControlForm::Str(StrOp::Movs, 1)),
        mn::MOVSW => Some(ControlForm::Str(StrOp::Movs, 2)),
        mn::MOVSQ => Some(ControlForm::Str(StrOp::Movs, 8)),
        mn::STOSB => Some(ControlForm::Str(StrOp::Stos, 1)),
        mn::STOSW => Some(ControlForm::Str(StrOp::Stos, 2)),
        mn::STOSD => Some(ControlForm::Str(StrOp::Stos, 4)),
        mn::STOSQ => Some(ControlForm::Str(StrOp::Stos, 8)),
        mn::LODSB => Some(ControlForm::Str(StrOp::Lods, 1)),
        mn::LODSW => Some(ControlForm::Str(StrOp::Lods, 2)),
        mn::LODSD => Some(ControlForm::Str(StrOp::Lods, 4)),
        mn::LODSQ => Some(ControlForm::Str(StrOp::Lods, 8)),
        mn::SCASB => Some(ControlForm::Str(StrOp::Scas, 1)),
        mn::SCASW => Some(ControlForm::Str(StrOp::Scas, 2)),
        mn::SCASD => Some(ControlForm::Str(StrOp::Scas, 4)),
        mn::SCASQ => Some(ControlForm::Str(StrOp::Scas, 8)),
        mn::CMPSB => Some(ControlForm::Str(StrOp::Cmps, 1)),
        mn::CMPSW => Some(ControlForm::Str(StrOp::Cmps, 2)),
        mn::CMPSQ => Some(ControlForm::Str(StrOp::Cmps, 8)),
        mn::PUSH => Some(ControlForm::Push),
        mn::POP => Some(ControlForm::Pop),
        mn::IN => Some(ControlForm::PortIo(false)),
        mn::OUT => Some(ControlForm::PortIo(true)),
        mn::CPUID => Some(ControlForm::Cpuid),
        mn::XGETBV => Some(ControlForm::Xgetbv),
        mn::RDTSC => Some(ControlForm::Rdtsc),
        mn::JMP => Some(ControlForm::Jmp),
        mn::CALL => Some(ControlForm::Call),
        mn::RET => Some(ControlForm::Ret),
        mn::LEAVE => Some(ControlForm::Leave),
        mn::SYSCALL => Some(ControlForm::Syscall),
        mn::HLT => Some(ControlForm::Hlt),
        mn::INT => Some(ControlForm::Int),
        mn::STMXCSR | mn::VSTMXCSR => Some(ControlForm::Stmxcsr),
        mn::FXSAVE | mn::FXSAVE64 => Some(ControlForm::FxState(false)),
        mn::FXRSTOR | mn::FXRSTOR64 => Some(ControlForm::FxState(true)),
        mn::STD => Some(ControlForm::SetDf(true)),
        mn::CLD => Some(ControlForm::SetDf(false)),
        mn::UD2 => Some(ControlForm::Trap(6, false)),
        mn::INT3 => Some(ControlForm::Trap(3, true)),
        mn::INT1 => Some(ControlForm::Trap(1, true)),
        mn::JE => Some(ControlForm::Jcc(Cond::Eq)),
        mn::JNE => Some(ControlForm::Jcc(Cond::Ne)),
        mn::JB => Some(ControlForm::Jcc(Cond::Below)),
        mn::JAE => Some(ControlForm::Jcc(Cond::AboveEq)),
        mn::JBE => Some(ControlForm::Jcc(Cond::BelowEq)),
        mn::JA => Some(ControlForm::Jcc(Cond::Above)),
        mn::JL => Some(ControlForm::Jcc(Cond::Less)),
        mn::JGE => Some(ControlForm::Jcc(Cond::GreaterEq)),
        mn::JLE => Some(ControlForm::Jcc(Cond::LessEq)),
        mn::JG => Some(ControlForm::Jcc(Cond::Greater)),
        mn::JS => Some(ControlForm::Jcc(Cond::Sign)),
        mn::JNS => Some(ControlForm::Jcc(Cond::NoSign)),
        mn::JO => Some(ControlForm::Jcc(Cond::Overflow)),
        mn::JNO => Some(ControlForm::Jcc(Cond::NoOverflow)),
        mn::JP => Some(ControlForm::Jcc(Cond::Parity)),
        mn::JNP => Some(ControlForm::Jcc(Cond::NoParity)),
        _ => None,
    }
}

/// Control flow, the stack, strings, x87 and system instructions.
#[verifier::when_used_as_spec(spec_control_form)]
pub fn control_form(m: u16) -> (r: Option<ControlForm>)
    ensures
        r == spec_control_form(m),
{
    match m {
        mn::FLD | mn::FST | mn::FSTP | mn::FILD | mn::FISTP | mn::FISTTP | mn::FADD | mn::FADDP
        | mn::FSUB | mn::FSUBP | mn::FSUBR | mn::FSUBRP | mn::FMUL | mn::FMULP | mn::FDIV
        | mn::FDIVP | mn::FDIVR | mn::FDIVRP | mn::FLD1 | mn::FLDZ | mn::FABS | mn::FCHS
        | mn::FXCH | mn::FUCOMI | mn::FUCOMIP | mn::FCOMI | mn::FCOMIP | mn::FLDCW | mn::FNSTCW
        | mn::FNSTSW | mn::FPREM | mn::FSIN | mn::FCOS | mn::FPTAN | mn::FPATAN | mn::F2XM1
        | mn::FYL2X | mn::FYL2XP1 | mn::FSINCOS => Some(ControlForm::X87),
        mn::MOVSB => Some(ControlForm::Str(StrOp::Movs, 1)),
        mn::MOVSW => Some(ControlForm::Str(StrOp::Movs, 2)),
        mn::MOVSQ => Some(ControlForm::Str(StrOp::Movs, 8)),
        mn::STOSB => Some(ControlForm::Str(StrOp::Stos, 1)),
        mn::STOSW => Some(ControlForm::Str(StrOp::Stos, 2)),
        mn::STOSD => Some(ControlForm::Str(StrOp::Stos, 4)),
        mn::STOSQ => Some(ControlForm::Str(StrOp::Stos, 8)),
        mn::LODSB => Some(ControlForm::Str(StrOp::Lods, 1)),
        mn::LODSW => Some(ControlForm::Str(StrOp::Lods, 2)),
        mn::LODSD => Some(ControlForm::Str(StrOp::Lods, 4)),
        mn::LODSQ => Some(ControlForm::Str(StrOp::Lods, 8)),
        mn::SCASB => Some(ControlForm::Str(StrOp::Scas, 1)),
        mn::SCASW => Some(ControlForm::Str(StrOp::Scas, 2)),
        mn::SCASD => Some(ControlForm::Str(StrOp::Scas, 4)),
        mn::SCASQ => Some(ControlForm::Str(StrOp::Scas, 8)),
        mn::CMPSB => Some(ControlForm::Str(StrOp::Cmps, 1)),
        mn::CMPSW => Some(ControlForm::Str(StrOp::Cmps, 2)),
        mn::CMPSQ => Some(ControlForm::Str(StrOp::Cmps, 8)),
        mn::PUSH => Some(ControlForm::Push),
        mn::POP => Some(ControlForm::Pop),
        mn::IN => Some(ControlForm::PortIo(false)),
        mn::OUT => Some(ControlForm::PortIo(true)),
        mn::CPUID => Some(ControlForm::Cpuid),
        mn::XGETBV => Some(ControlForm::Xgetbv),
        mn::RDTSC => Some(ControlForm::Rdtsc),
        mn::JMP => Some(ControlForm::Jmp),
        mn::CALL => Some(ControlForm::Call),
        mn::RET => Some(ControlForm::Ret),
        mn::LEAVE => Some(ControlForm::Leave),
        mn::SYSCALL => Some(ControlForm::Syscall),
        mn::HLT => Some(ControlForm::Hlt),
        mn::INT => Some(ControlForm::Int),
        mn::STMXCSR | mn::VSTMXCSR => Some(ControlForm::Stmxcsr),
        mn::FXSAVE | mn::FXSAVE64 => Some(ControlForm::FxState(false)),
        mn::FXRSTOR | mn::FXRSTOR64 => Some(ControlForm::FxState(true)),
        mn::STD => Some(ControlForm::SetDf(true)),
        mn::CLD => Some(ControlForm::SetDf(false)),
        mn::UD2 => Some(ControlForm::Trap(6, false)),
        mn::INT3 => Some(ControlForm::Trap(3, true)),
        mn::INT1 => Some(ControlForm::Trap(1, true)),
        mn::JE => Some(ControlForm::Jcc(Cond::Eq)),
        mn::JNE => Some(ControlForm::Jcc(Cond::Ne)),
        mn::JB => Some(ControlForm::Jcc(Cond::Below)),
        mn::JAE => Some(ControlForm::Jcc(Cond::AboveEq)),
        mn::JBE => Some(ControlForm::Jcc(Cond::BelowEq)),
        mn::JA => Some(ControlForm::Jcc(Cond::Above)),
        mn::JL => Some(ControlForm::Jcc(Cond::Less)),
        mn::JGE => Some(ControlForm::Jcc(Cond::GreaterEq)),
        mn::JLE => Some(ControlForm::Jcc(Cond::LessEq)),
        mn::JG => Some(ControlForm::Jcc(Cond::Greater)),
        mn::JS => Some(ControlForm::Jcc(Cond::Sign)),
        mn::JNS => Some(ControlForm::Jcc(Cond::NoSign)),
        mn::JO => Some(ControlForm::Jcc(Cond::Overflow)),
        mn::JNO => Some(ControlForm::Jcc(Cond::NoOverflow)),
        mn::JP => Some(ControlForm::Jcc(Cond::Parity)),
        mn::JNP => Some(ControlForm::Jcc(Cond::NoParity)),
        _ => None,
    }
}

pub open spec fn spec_move_form(m: u16) -> Option<MoveForm> {
    match m {
        mn::MOVDQA | mn::MOVDQU | mn::MOVAPS | mn::MOVUPS | mn::MOVAPD | mn::MOVUPD
        | mn::MOVNTDQ | mn::MOVNTPS | mn::MOVNTPD | mn::MOVNTDQA => Some(MoveForm::Mov(16)),
        mn::MOVQ => Some(MoveForm::Mov(8)),
        mn::MOVD => Some(MoveForm::Mov(4)),
        mn::MOVLHPS => Some(MoveForm::MoveHalf(true, false)),
        mn::MOVHLPS => Some(MoveForm::MoveHalf(false, true)),
        mn::MOVHPS | mn::MOVHPD => Some(MoveForm::HalfMem(true)),
        mn::MOVLPS | mn::MOVLPD => Some(MoveForm::HalfMem(false)),
        mn::VMOVHPS | mn::VMOVHPD => Some(MoveForm::HalfMemVex(true)),
        mn::VMOVLPS | mn::VMOVLPD => Some(MoveForm::HalfMemVex(false)),
        mn::PINSRW => Some(MoveForm::Pinsrw),
        mn::PEXTRW | mn::VPEXTRW => Some(MoveForm::Pextrw),
        mn::PEXTRB | mn::VPEXTRB => Some(MoveForm::Pextr(1)),
        mn::PEXTRD | mn::VPEXTRD | mn::VEXTRACTPS => Some(MoveForm::Pextr(4)),
        mn::PEXTRQ | mn::VPEXTRQ => Some(MoveForm::Pextr(8)),
        mn::PINSRB | mn::VPINSRB => Some(MoveForm::Pinsr(1)),
        mn::VPINSRW => Some(MoveForm::Pinsr(2)),
        mn::PINSRD | mn::VPINSRD => Some(MoveForm::Pinsr(4)),
        mn::PINSRQ | mn::VPINSRQ => Some(MoveForm::Pinsr(8)),
        mn::VMOVDQA | mn::VMOVDQU | mn::VMOVAPS | mn::VMOVUPS | mn::VMOVAPD | mn::VMOVUPD
        | mn::VMOVNTDQ | mn::VMOVNTPS | mn::VMOVNTPD | mn::VMOVNTDQA => Some(
            MoveForm::MovAvx(4),
        ),
        mn::VMOVDQU8 => Some(MoveForm::MovAvx(1)),
        mn::VMOVDQU16 => Some(MoveForm::MovAvx(2)),
        mn::VMOVDQU32 | mn::VMOVDQA32 => Some(MoveForm::MovAvx(4)),
        mn::VMOVDQU64 | mn::VMOVDQA64 => Some(MoveForm::MovAvx(8)),
        mn::VMOVQ => Some(MoveForm::MovVex(8)),
        mn::VMOVD => Some(MoveForm::MovVex(4)),
        mn::MOVQ2DQ => Some(MoveForm::Movq2dq),
        mn::MOVDQ2Q => Some(MoveForm::Movdq2q),
        mn::PMOVMSKB => Some(MoveForm::MoveMask),
        mn::VPMOVMSKB => Some(MoveForm::MoveMaskVex),
        mn::MOVMSKPS | mn::VMOVMSKPS => Some(MoveForm::MoveMaskFloat(4)),
        mn::MOVMSKPD | mn::VMOVMSKPD => Some(MoveForm::MoveMaskFloat(8)),
        mn::VZEROUPPER => Some(MoveForm::ZeroUpper(false)),
        mn::VZEROALL => Some(MoveForm::ZeroUpper(true)),
        _ => None,
    }
}

/// Vector moves.
#[verifier::when_used_as_spec(spec_move_form)]
pub fn move_form(m: u16) -> (r: Option<MoveForm>)
    ensures
        r == spec_move_form(m),
{
    match m {
        mn::MOVDQA | mn::MOVDQU | mn::MOVAPS | mn::MOVUPS | mn::MOVAPD | mn::MOVUPD
        | mn::MOVNTDQ | mn::MOVNTPS | mn::MOVNTPD | mn::MOVNTDQA => Some(MoveForm::Mov(16)),
        mn::MOVQ => Some(MoveForm::Mov(8)),
        mn::MOVD => Some(MoveForm::Mov(4)),
        mn::MOVLHPS => Some(MoveForm::MoveHalf(true, false)),
        mn::MOVHLPS => Some(MoveForm::MoveHalf(false, true)),
        mn::MOVHPS | mn::MOVHPD => Some(MoveForm::HalfMem(true)),
        mn::MOVLPS | mn::MOVLPD => Some(MoveForm::HalfMem(false)),
        mn::VMOVHPS | mn::VMOVHPD => Some(MoveForm::HalfMemVex(true)),
        mn::VMOVLPS | mn::VMOVLPD => Some(MoveForm::HalfMemVex(false)),
        mn::PINSRW => Some(MoveForm::Pinsrw),
        mn::PEXTRW | mn::VPEXTRW => Some(MoveForm::Pextrw),
        mn::PEXTRB | mn::VPEXTRB => Some(MoveForm::Pextr(1)),
        mn::PEXTRD | mn::VPEXTRD | mn::VEXTRACTPS => Some(MoveForm::Pextr(4)),
        mn::PEXTRQ | mn::VPEXTRQ => Some(MoveForm::Pextr(8)),
        mn::PINSRB | mn::VPINSRB => Some(MoveForm::Pinsr(1)),
        mn::VPINSRW => Some(MoveForm::Pinsr(2)),
        mn::PINSRD | mn::VPINSRD => Some(MoveForm::Pinsr(4)),
        mn::PINSRQ | mn::VPINSRQ => Some(MoveForm::Pinsr(8)),
        mn::VMOVDQA | mn::VMOVDQU | mn::VMOVAPS | mn::VMOVUPS | mn::VMOVAPD | mn::VMOVUPD
        | mn::VMOVNTDQ | mn::VMOVNTPS | mn::VMOVNTPD | mn::VMOVNTDQA => Some(
            MoveForm::MovAvx(4),
        ),
        mn::VMOVDQU8 => Some(MoveForm::MovAvx(1)),
        mn::VMOVDQU16 => Some(MoveForm::MovAvx(2)),
        mn::VMOVDQU32 | mn::VMOVDQA32 => Some(MoveForm::MovAvx(4)),
        mn::VMOVDQU64 | mn::VMOVDQA64 => Some(MoveForm::MovAvx(8)),
        mn::VMOVQ => Some(MoveForm::MovVex(8)),
        mn::VMOVD => Some(MoveForm::MovVex(4)),
        mn::MOVQ2DQ => Some(MoveForm::Movq2dq),
        mn::MOVDQ2Q => Some(MoveForm::Movdq2q),
        mn::PMOVMSKB => Some(MoveForm::MoveMask),
        mn::VPMOVMSKB => Some(MoveForm::MoveMaskVex),
        mn::MOVMSKPS | mn::VMOVMSKPS => Some(MoveForm::MoveMaskFloat(4)),
        mn::MOVMSKPD | mn::VMOVMSKPD => Some(MoveForm::MoveMaskFloat(8)),
        mn::VZEROUPPER => Some(MoveForm::ZeroUpper(false)),
        mn::VZEROALL => Some(MoveForm::ZeroUpper(true)),
        _ => None,
    }
}

pub open spec fn spec_packed_form(m: u16) -> Option<PackedForm> {
    match m {
        mn::PXOR | mn::XORPS | mn::XORPD => Some(PackedForm::Logic(VLogicOp::Xor)),
        mn::PAND | mn::ANDPS | mn::ANDPD => Some(PackedForm::Logic(VLogicOp::And)),
        mn::POR | mn::ORPS | mn::ORPD => Some(PackedForm::Logic(VLogicOp::Or)),
        mn::PANDN | mn::ANDNPS | mn::ANDNPD => Some(PackedForm::Logic(VLogicOp::Andn)),
        mn::PADDB => Some(PackedForm::Bin(1, PackedBinOp::Add)),
        mn::PADDW => Some(PackedForm::Bin(2, PackedBinOp::Add)),
        mn::PADDD => Some(PackedForm::Bin(4, PackedBinOp::Add)),
        mn::PADDQ => Some(PackedForm::Bin(8, PackedBinOp::Add)),
        mn::PSUBB => Some(PackedForm::Bin(1, PackedBinOp::Sub)),
        mn::PSUBW => Some(PackedForm::Bin(2, PackedBinOp::Sub)),
        mn::PSUBD => Some(PackedForm::Bin(4, PackedBinOp::Sub)),
        mn::PSUBQ => Some(PackedForm::Bin(8, PackedBinOp::Sub)),
        mn::PCMPEQB => Some(PackedForm::Bin(1, PackedBinOp::CmpEq)),
        mn::PCMPEQW => Some(PackedForm::Bin(2, PackedBinOp::CmpEq)),
        mn::PCMPEQD => Some(PackedForm::Bin(4, PackedBinOp::CmpEq)),
        mn::PCMPGTB => Some(PackedForm::Bin(1, PackedBinOp::CmpGt)),
        mn::PCMPGTW => Some(PackedForm::Bin(2, PackedBinOp::CmpGt)),
        mn::PCMPGTD => Some(PackedForm::Bin(4, PackedBinOp::CmpGt)),
        mn::PCMPGTQ => Some(PackedForm::Bin(8, PackedBinOp::CmpGt)),
        mn::PCMPEQQ => Some(PackedForm::Bin(8, PackedBinOp::CmpEq)),
        mn::PMINUB => Some(PackedForm::Bin(1, PackedBinOp::MinU)),
        mn::PMAXUB => Some(PackedForm::Bin(1, PackedBinOp::MaxU)),
        mn::PMINSW => Some(PackedForm::Bin(2, PackedBinOp::MinS)),
        mn::PMAXSW => Some(PackedForm::Bin(2, PackedBinOp::MaxS)),
        mn::PADDSB => Some(PackedForm::Bin(1, PackedBinOp::AddSatS)),
        mn::PADDSW => Some(PackedForm::Bin(2, PackedBinOp::AddSatS)),
        mn::PADDUSB => Some(PackedForm::Bin(1, PackedBinOp::AddSatU)),
        mn::PADDUSW => Some(PackedForm::Bin(2, PackedBinOp::AddSatU)),
        mn::PSUBSB => Some(PackedForm::Bin(1, PackedBinOp::SubSatS)),
        mn::PSUBSW => Some(PackedForm::Bin(2, PackedBinOp::SubSatS)),
        mn::PSUBUSB => Some(PackedForm::Bin(1, PackedBinOp::SubSatU)),
        mn::PSUBUSW => Some(PackedForm::Bin(2, PackedBinOp::SubSatU)),
        mn::PAVGB => Some(PackedForm::Bin(1, PackedBinOp::AvgU)),
        mn::PAVGW => Some(PackedForm::Bin(2, PackedBinOp::AvgU)),
        mn::PSLLW => Some(PackedForm::Shift(2, false, false)),
        mn::PSLLD => Some(PackedForm::Shift(4, false, false)),
        mn::PSLLQ => Some(PackedForm::Shift(8, false, false)),
        mn::PSRLW => Some(PackedForm::Shift(2, true, false)),
        mn::PSRLD => Some(PackedForm::Shift(4, true, false)),
        mn::PSRLQ => Some(PackedForm::Shift(8, true, false)),
        mn::PSRAW => Some(PackedForm::Shift(2, true, true)),
        mn::PSRAD => Some(PackedForm::Shift(4, true, true)),
        mn::PSRLDQ => Some(PackedForm::ByteShift(true)),
        mn::PSLLDQ => Some(PackedForm::ByteShift(false)),
        mn::VPSRLDQ => Some(PackedForm::ByteShiftAvx(true)),
        mn::VPSLLDQ => Some(PackedForm::ByteShiftAvx(false)),
        mn::PSIGNB => Some(PackedForm::Sign(1)),
        mn::PSIGNW => Some(PackedForm::Sign(2)),
        mn::PSIGND => Some(PackedForm::Sign(4)),
        mn::VPSIGNB => Some(PackedForm::SignVex(1)),
        mn::VPSIGNW => Some(PackedForm::SignVex(2)),
        mn::VPSIGND => Some(PackedForm::SignVex(4)),
        mn::VPXOR | mn::VXORPS | mn::VXORPD => Some(PackedForm::LogicAvx(VLogicOp::Xor)),
        mn::VPAND | mn::VANDPS | mn::VANDPD => Some(PackedForm::LogicAvx(VLogicOp::And)),
        mn::VPOR | mn::VORPS | mn::VORPD => Some(PackedForm::LogicAvx(VLogicOp::Or)),
        mn::VPANDN | mn::VANDNPS | mn::VANDNPD => Some(PackedForm::LogicAvx(VLogicOp::Andn)),
        mn::VPXORD => Some(PackedForm::LogicEvex(VLogicOp::Xor, 4)),
        mn::VPXORQ => Some(PackedForm::LogicEvex(VLogicOp::Xor, 8)),
        mn::VPANDD => Some(PackedForm::LogicEvex(VLogicOp::And, 4)),
        mn::VPANDQ => Some(PackedForm::LogicEvex(VLogicOp::And, 8)),
        mn::VPORD => Some(PackedForm::LogicEvex(VLogicOp::Or, 4)),
        mn::VPORQ => Some(PackedForm::LogicEvex(VLogicOp::Or, 8)),
        mn::VPANDND => Some(PackedForm::LogicEvex(VLogicOp::Andn, 4)),
        mn::VPANDNQ => Some(PackedForm::LogicEvex(VLogicOp::Andn, 8)),
        mn::VPTERNLOGD | mn::VPTERNLOGQ => Some(PackedForm::Ternlog),
        mn::VPOPCNTD => Some(PackedForm::Popcnt(4)),
        mn::VPOPCNTQ => Some(PackedForm::Popcnt(8)),
        mn::PMULLW => Some(PackedForm::Bin(2, PackedBinOp::MulLo16)),
        mn::VPMULLW => Some(PackedForm::BinAvx(2, PackedBinOp::MulLo16)),
        mn::PMULHUW => Some(PackedForm::Bin(2, PackedBinOp::MulHiU16)),
        mn::VPMULHUW => Some(PackedForm::BinAvx(2, PackedBinOp::MulHiU16)),
        mn::PMULHW => Some(PackedForm::Bin(2, PackedBinOp::MulHiS16)),
        mn::VPMULHW => Some(PackedForm::BinAvx(2, PackedBinOp::MulHiS16)),
        mn::PMULLD => Some(PackedForm::Bin(4, PackedBinOp::MulLo32)),
        mn::VPMULLD => Some(PackedForm::BinAvx(4, PackedBinOp::MulLo32)),
        mn::PMULUDQ => Some(PackedForm::Bin(8, PackedBinOp::MulU32)),
        mn::VPMULUDQ => Some(PackedForm::BinAvx(8, PackedBinOp::MulU32)),
        mn::PMULDQ => Some(PackedForm::Bin(8, PackedBinOp::MulS32)),
        mn::VPMULDQ => Some(PackedForm::BinAvx(8, PackedBinOp::MulS32)),
        mn::PMINSD => Some(PackedForm::Bin(4, PackedBinOp::MinS)),
        mn::PMAXSD => Some(PackedForm::Bin(4, PackedBinOp::MaxS)),
        mn::PMINUD => Some(PackedForm::Bin(4, PackedBinOp::MinU)),
        mn::PMAXUD => Some(PackedForm::Bin(4, PackedBinOp::MaxU)),
        mn::PCMPISTRI | mn::VPCMPISTRI => Some(PackedForm::StringIndex(false)),
        mn::PCMPESTRI | mn::VPCMPESTRI => Some(PackedForm::StringIndex(true)),
        mn::VPADDB => Some(PackedForm::BinAvx(1, PackedBinOp::Add)),
        mn::VPADDW => Some(PackedForm::BinAvx(2, PackedBinOp::Add)),
        mn::VPADDD => Some(PackedForm::BinAvx(4, PackedBinOp::Add)),
        mn::VPADDQ => Some(PackedForm::BinAvx(8, PackedBinOp::Add)),
        mn::VPSUBB => Some(PackedForm::BinAvx(1, PackedBinOp::Sub)),
        mn::VPSUBW => Some(PackedForm::BinAvx(2, PackedBinOp::Sub)),
        mn::VPSUBD => Some(PackedForm::BinAvx(4, PackedBinOp::Sub)),
        mn::VPSUBQ => Some(PackedForm::BinAvx(8, PackedBinOp::Sub)),
        mn::VPMINUB => Some(PackedForm::BinAvx(1, PackedBinOp::MinU)),
        mn::VPMAXUB => Some(PackedForm::BinAvx(1, PackedBinOp::MaxU)),
        mn::VPMINUD => Some(PackedForm::BinAvx(4, PackedBinOp::MinU)),
        mn::VPMAXUD => Some(PackedForm::BinAvx(4, PackedBinOp::MaxU)),
        mn::VPMINSD => Some(PackedForm::BinAvx(4, PackedBinOp::MinS)),
        mn::VPMAXSD => Some(PackedForm::BinAvx(4, PackedBinOp::MaxS)),
        mn::VPADDSB => Some(PackedForm::BinAvx(1, PackedBinOp::AddSatS)),
        mn::VPADDSW => Some(PackedForm::BinAvx(2, PackedBinOp::AddSatS)),
        mn::VPADDUSB => Some(PackedForm::BinAvx(1, PackedBinOp::AddSatU)),
        mn::VPADDUSW => Some(PackedForm::BinAvx(2, PackedBinOp::AddSatU)),
        mn::VPSUBSB => Some(PackedForm::BinAvx(1, PackedBinOp::SubSatS)),
        mn::VPSUBSW => Some(PackedForm::BinAvx(2, PackedBinOp::SubSatS)),
        mn::VPSUBUSB => Some(PackedForm::BinAvx(1, PackedBinOp::SubSatU)),
        mn::VPSUBUSW => Some(PackedForm::BinAvx(2, PackedBinOp::SubSatU)),
        mn::VPAVGB => Some(PackedForm::BinAvx(1, PackedBinOp::AvgU)),
        mn::VPAVGW => Some(PackedForm::BinAvx(2, PackedBinOp::AvgU)),
        mn::VPMAXSB => Some(PackedForm::BinAvx(1, PackedBinOp::MaxS)),
        mn::VPMAXSW => Some(PackedForm::BinAvx(2, PackedBinOp::MaxS)),
        mn::VPMAXUW => Some(PackedForm::BinAvx(2, PackedBinOp::MaxU)),
        mn::VPMINSB => Some(PackedForm::BinAvx(1, PackedBinOp::MinS)),
        mn::VPMINSW => Some(PackedForm::BinAvx(2, PackedBinOp::MinS)),
        mn::VPMINUW => Some(PackedForm::BinAvx(2, PackedBinOp::MinU)),
        mn::PMULHRSW => Some(PackedForm::Bin(2, PackedBinOp::MulHiRoundedS16)),
        mn::VPMULHRSW => Some(PackedForm::BinAvx(2, PackedBinOp::MulHiRoundedS16)),
        mn::VPABSB => Some(PackedForm::Abs(1)),
        mn::VPABSW => Some(PackedForm::Abs(2)),
        mn::VPABSD => Some(PackedForm::Abs(4)),
        mn::VPABSQ => Some(PackedForm::Abs(8)),
        mn::VPMAXUQ => Some(PackedForm::BinEvex128(8, PackedBinOp::MaxU)),
        mn::VPMINUQ => Some(PackedForm::BinEvex128(8, PackedBinOp::MinU)),
        mn::VPMAXSQ => Some(PackedForm::BinEvex128(8, PackedBinOp::MaxS)),
        mn::VPMINSQ => Some(PackedForm::BinEvex128(8, PackedBinOp::MinS)),
        mn::VPMULLQ => Some(PackedForm::BinAvx(8, PackedBinOp::MulLo64)),
        mn::VPSLLW => Some(PackedForm::ShiftAvx(2, false, false)),
        mn::VPSLLD => Some(PackedForm::ShiftAvx(4, false, false)),
        mn::VPSLLQ => Some(PackedForm::ShiftAvx(8, false, false)),
        mn::VPSRLW => Some(PackedForm::ShiftAvx(2, true, false)),
        mn::VPSRLD => Some(PackedForm::ShiftAvx(4, true, false)),
        mn::VPSRLQ => Some(PackedForm::ShiftAvx(8, true, false)),
        mn::VPSRAW => Some(PackedForm::ShiftAvx(2, true, true)),
        mn::VPSRAD => Some(PackedForm::ShiftAvx(4, true, true)),
        mn::VPSRAQ => Some(PackedForm::ShiftAvx(8, true, true)),
        mn::PTEST | mn::VPTEST => Some(PackedForm::Ptest),
        _ => None,
    }
}

/// Packed integer instructions.
#[verifier::when_used_as_spec(spec_packed_form)]
pub fn packed_form(m: u16) -> (r: Option<PackedForm>)
    ensures
        r == spec_packed_form(m),
{
    match m {
        mn::PXOR | mn::XORPS | mn::XORPD => Some(PackedForm::Logic(VLogicOp::Xor)),
        mn::PAND | mn::ANDPS | mn::ANDPD => Some(PackedForm::Logic(VLogicOp::And)),
        mn::POR | mn::ORPS | mn::ORPD => Some(PackedForm::Logic(VLogicOp::Or)),
        mn::PANDN | mn::ANDNPS | mn::ANDNPD => Some(PackedForm::Logic(VLogicOp::Andn)),
        mn::PADDB => Some(PackedForm::Bin(1, PackedBinOp::Add)),
        mn::PADDW => Some(PackedForm::Bin(2, PackedBinOp::Add)),
        mn::PADDD => Some(PackedForm::Bin(4, PackedBinOp::Add)),
        mn::PADDQ => Some(PackedForm::Bin(8, PackedBinOp::Add)),
        mn::PSUBB => Some(PackedForm::Bin(1, PackedBinOp::Sub)),
        mn::PSUBW => Some(PackedForm::Bin(2, PackedBinOp::Sub)),
        mn::PSUBD => Some(PackedForm::Bin(4, PackedBinOp::Sub)),
        mn::PSUBQ => Some(PackedForm::Bin(8, PackedBinOp::Sub)),
        mn::PCMPEQB => Some(PackedForm::Bin(1, PackedBinOp::CmpEq)),
        mn::PCMPEQW => Some(PackedForm::Bin(2, PackedBinOp::CmpEq)),
        mn::PCMPEQD => Some(PackedForm::Bin(4, PackedBinOp::CmpEq)),
        mn::PCMPGTB => Some(PackedForm::Bin(1, PackedBinOp::CmpGt)),
        mn::PCMPGTW => Some(PackedForm::Bin(2, PackedBinOp::CmpGt)),
        mn::PCMPGTD => Some(PackedForm::Bin(4, PackedBinOp::CmpGt)),
        mn::PCMPGTQ => Some(PackedForm::Bin(8, PackedBinOp::CmpGt)),
        mn::PCMPEQQ => Some(PackedForm::Bin(8, PackedBinOp::CmpEq)),
        mn::PMINUB => Some(PackedForm::Bin(1, PackedBinOp::MinU)),
        mn::PMAXUB => Some(PackedForm::Bin(1, PackedBinOp::MaxU)),
        mn::PMINSW => Some(PackedForm::Bin(2, PackedBinOp::MinS)),
        mn::PMAXSW => Some(PackedForm::Bin(2, PackedBinOp::MaxS)),
        mn::PADDSB => Some(PackedForm::Bin(1, PackedBinOp::AddSatS)),
        mn::PADDSW => Some(PackedForm::Bin(2, PackedBinOp::AddSatS)),
        mn::PADDUSB => Some(PackedForm::Bin(1, PackedBinOp::AddSatU)),
        mn::PADDUSW => Some(PackedForm::Bin(2, PackedBinOp::AddSatU)),
        mn::PSUBSB => Some(PackedForm::Bin(1, PackedBinOp::SubSatS)),
        mn::PSUBSW => Some(PackedForm::Bin(2, PackedBinOp::SubSatS)),
        mn::PSUBUSB => Some(PackedForm::Bin(1, PackedBinOp::SubSatU)),
        mn::PSUBUSW => Some(PackedForm::Bin(2, PackedBinOp::SubSatU)),
        mn::PAVGB => Some(PackedForm::Bin(1, PackedBinOp::AvgU)),
        mn::PAVGW => Some(PackedForm::Bin(2, PackedBinOp::AvgU)),
        mn::PSLLW => Some(PackedForm::Shift(2, false, false)),
        mn::PSLLD => Some(PackedForm::Shift(4, false, false)),
        mn::PSLLQ => Some(PackedForm::Shift(8, false, false)),
        mn::PSRLW => Some(PackedForm::Shift(2, true, false)),
        mn::PSRLD => Some(PackedForm::Shift(4, true, false)),
        mn::PSRLQ => Some(PackedForm::Shift(8, true, false)),
        mn::PSRAW => Some(PackedForm::Shift(2, true, true)),
        mn::PSRAD => Some(PackedForm::Shift(4, true, true)),
        mn::PSRLDQ => Some(PackedForm::ByteShift(true)),
        mn::PSLLDQ => Some(PackedForm::ByteShift(false)),
        mn::VPSRLDQ => Some(PackedForm::ByteShiftAvx(true)),
        mn::VPSLLDQ => Some(PackedForm::ByteShiftAvx(false)),
        mn::PSIGNB => Some(PackedForm::Sign(1)),
        mn::PSIGNW => Some(PackedForm::Sign(2)),
        mn::PSIGND => Some(PackedForm::Sign(4)),
        mn::VPSIGNB => Some(PackedForm::SignVex(1)),
        mn::VPSIGNW => Some(PackedForm::SignVex(2)),
        mn::VPSIGND => Some(PackedForm::SignVex(4)),
        mn::VPXOR | mn::VXORPS | mn::VXORPD => Some(PackedForm::LogicAvx(VLogicOp::Xor)),
        mn::VPAND | mn::VANDPS | mn::VANDPD => Some(PackedForm::LogicAvx(VLogicOp::And)),
        mn::VPOR | mn::VORPS | mn::VORPD => Some(PackedForm::LogicAvx(VLogicOp::Or)),
        mn::VPANDN | mn::VANDNPS | mn::VANDNPD => Some(PackedForm::LogicAvx(VLogicOp::Andn)),
        mn::VPXORD => Some(PackedForm::LogicEvex(VLogicOp::Xor, 4)),
        mn::VPXORQ => Some(PackedForm::LogicEvex(VLogicOp::Xor, 8)),
        mn::VPANDD => Some(PackedForm::LogicEvex(VLogicOp::And, 4)),
        mn::VPANDQ => Some(PackedForm::LogicEvex(VLogicOp::And, 8)),
        mn::VPORD => Some(PackedForm::LogicEvex(VLogicOp::Or, 4)),
        mn::VPORQ => Some(PackedForm::LogicEvex(VLogicOp::Or, 8)),
        mn::VPANDND => Some(PackedForm::LogicEvex(VLogicOp::Andn, 4)),
        mn::VPANDNQ => Some(PackedForm::LogicEvex(VLogicOp::Andn, 8)),
        mn::VPTERNLOGD | mn::VPTERNLOGQ => Some(PackedForm::Ternlog),
        mn::VPOPCNTD => Some(PackedForm::Popcnt(4)),
        mn::VPOPCNTQ => Some(PackedForm::Popcnt(8)),
        mn::PMULLW => Some(PackedForm::Bin(2, PackedBinOp::MulLo16)),
        mn::VPMULLW => Some(PackedForm::BinAvx(2, PackedBinOp::MulLo16)),
        mn::PMULHUW => Some(PackedForm::Bin(2, PackedBinOp::MulHiU16)),
        mn::VPMULHUW => Some(PackedForm::BinAvx(2, PackedBinOp::MulHiU16)),
        mn::PMULHW => Some(PackedForm::Bin(2, PackedBinOp::MulHiS16)),
        mn::VPMULHW => Some(PackedForm::BinAvx(2, PackedBinOp::MulHiS16)),
        mn::PMULLD => Some(PackedForm::Bin(4, PackedBinOp::MulLo32)),
        mn::VPMULLD => Some(PackedForm::BinAvx(4, PackedBinOp::MulLo32)),
        mn::PMULUDQ => Some(PackedForm::Bin(8, PackedBinOp::MulU32)),
        mn::VPMULUDQ => Some(PackedForm::BinAvx(8, PackedBinOp::MulU32)),
        mn::PMULDQ => Some(PackedForm::Bin(8, PackedBinOp::MulS32)),
        mn::VPMULDQ => Some(PackedForm::BinAvx(8, PackedBinOp::MulS32)),
        mn::PMINSD => Some(PackedForm::Bin(4, PackedBinOp::MinS)),
        mn::PMAXSD => Some(PackedForm::Bin(4, PackedBinOp::MaxS)),
        mn::PMINUD => Some(PackedForm::Bin(4, PackedBinOp::MinU)),
        mn::PMAXUD => Some(PackedForm::Bin(4, PackedBinOp::MaxU)),
        mn::PCMPISTRI | mn::VPCMPISTRI => Some(PackedForm::StringIndex(false)),
        mn::PCMPESTRI | mn::VPCMPESTRI => Some(PackedForm::StringIndex(true)),
        mn::VPADDB => Some(PackedForm::BinAvx(1, PackedBinOp::Add)),
        mn::VPADDW => Some(PackedForm::BinAvx(2, PackedBinOp::Add)),
        mn::VPADDD => Some(PackedForm::BinAvx(4, PackedBinOp::Add)),
        mn::VPADDQ => Some(PackedForm::BinAvx(8, PackedBinOp::Add)),
        mn::VPSUBB => Some(PackedForm::BinAvx(1, PackedBinOp::Sub)),
        mn::VPSUBW => Some(PackedForm::BinAvx(2, PackedBinOp::Sub)),
        mn::VPSUBD => Some(PackedForm::BinAvx(4, PackedBinOp::Sub)),
        mn::VPSUBQ => Some(PackedForm::BinAvx(8, PackedBinOp::Sub)),
        mn::VPMINUB => Some(PackedForm::BinAvx(1, PackedBinOp::MinU)),
        mn::VPMAXUB => Some(PackedForm::BinAvx(1, PackedBinOp::MaxU)),
        mn::VPMINUD => Some(PackedForm::BinAvx(4, PackedBinOp::MinU)),
        mn::VPMAXUD => Some(PackedForm::BinAvx(4, PackedBinOp::MaxU)),
        mn::VPMINSD => Some(PackedForm::BinAvx(4, PackedBinOp::MinS)),
        mn::VPMAXSD => Some(PackedForm::BinAvx(4, PackedBinOp::MaxS)),
        mn::VPADDSB => Some(PackedForm::BinAvx(1, PackedBinOp::AddSatS)),
        mn::VPADDSW => Some(PackedForm::BinAvx(2, PackedBinOp::AddSatS)),
        mn::VPADDUSB => Some(PackedForm::BinAvx(1, PackedBinOp::AddSatU)),
        mn::VPADDUSW => Some(PackedForm::BinAvx(2, PackedBinOp::AddSatU)),
        mn::VPSUBSB => Some(PackedForm::BinAvx(1, PackedBinOp::SubSatS)),
        mn::VPSUBSW => Some(PackedForm::BinAvx(2, PackedBinOp::SubSatS)),
        mn::VPSUBUSB => Some(PackedForm::BinAvx(1, PackedBinOp::SubSatU)),
        mn::VPSUBUSW => Some(PackedForm::BinAvx(2, PackedBinOp::SubSatU)),
        mn::VPAVGB => Some(PackedForm::BinAvx(1, PackedBinOp::AvgU)),
        mn::VPAVGW => Some(PackedForm::BinAvx(2, PackedBinOp::AvgU)),
        mn::VPMAXSB => Some(PackedForm::BinAvx(1, PackedBinOp::MaxS)),
        mn::VPMAXSW => Some(PackedForm::BinAvx(2, PackedBinOp::MaxS)),
        mn::VPMAXUW => Some(PackedForm::BinAvx(2, PackedBinOp::MaxU)),
        mn::VPMINSB => Some(PackedForm::BinAvx(1, PackedBinOp::MinS)),
        mn::VPMINSW => Some(PackedForm::BinAvx(2, PackedBinOp::MinS)),
        mn::VPMINUW => Some(PackedForm::BinAvx(2, PackedBinOp::MinU)),
        mn::PMULHRSW => Some(PackedForm::Bin(2, PackedBinOp::MulHiRoundedS16)),
        mn::VPMULHRSW => Some(PackedForm::BinAvx(2, PackedBinOp::MulHiRoundedS16)),
        mn::VPABSB => Some(PackedForm::Abs(1)),
        mn::VPABSW => Some(PackedForm::Abs(2)),
        mn::VPABSD => Some(PackedForm::Abs(4)),
        mn::VPABSQ => Some(PackedForm::Abs(8)),
        mn::VPMAXUQ => Some(PackedForm::BinEvex128(8, PackedBinOp::MaxU)),
        mn::VPMINUQ => Some(PackedForm::BinEvex128(8, PackedBinOp::MinU)),
        mn::VPMAXSQ => Some(PackedForm::BinEvex128(8, PackedBinOp::MaxS)),
        mn::VPMINSQ => Some(PackedForm::BinEvex128(8, PackedBinOp::MinS)),
        mn::VPMULLQ => Some(PackedForm::BinAvx(8, PackedBinOp::MulLo64)),
        mn::VPSLLW => Some(PackedForm::ShiftAvx(2, false, false)),
        mn::VPSLLD => Some(PackedForm::ShiftAvx(4, false, false)),
        mn::VPSLLQ => Some(PackedForm::ShiftAvx(8, false, false)),
        mn::VPSRLW => Some(PackedForm::ShiftAvx(2, true, false)),
        mn::VPSRLD => Some(PackedForm::ShiftAvx(4, true, false)),
        mn::VPSRLQ => Some(PackedForm::ShiftAvx(8, true, false)),
        mn::VPSRAW => Some(PackedForm::ShiftAvx(2, true, true)),
        mn::VPSRAD => Some(PackedForm::ShiftAvx(4, true, true)),
        mn::VPSRAQ => Some(PackedForm::ShiftAvx(8, true, true)),
        mn::PTEST | mn::VPTEST => Some(PackedForm::Ptest),
        _ => None,
    }
}

pub open spec fn spec_shuffle_form(m: u16) -> Option<ShuffleForm> {
    match m {
        mn::PSHUFD => Some(ShuffleForm::Pshufd),
        mn::VPSHUFD => Some(ShuffleForm::PshufdVex),
        mn::PSHUFLW => Some(ShuffleForm::Pshufw(false)),
        mn::PSHUFHW => Some(ShuffleForm::Pshufw(true)),
        mn::SHUFPS => Some(ShuffleForm::Shufps),
        mn::SHUFPD => Some(ShuffleForm::Shufpd),
        mn::PUNPCKLBW => Some(ShuffleForm::Unpack(1, false)),
        mn::PUNPCKLWD => Some(ShuffleForm::Unpack(2, false)),
        mn::PUNPCKLDQ => Some(ShuffleForm::Unpack(4, false)),
        mn::PUNPCKLQDQ => Some(ShuffleForm::Unpack(8, false)),
        mn::PUNPCKHBW => Some(ShuffleForm::Unpack(1, true)),
        mn::PUNPCKHWD => Some(ShuffleForm::Unpack(2, true)),
        mn::PUNPCKHDQ => Some(ShuffleForm::Unpack(4, true)),
        mn::PUNPCKHQDQ => Some(ShuffleForm::Unpack(8, true)),
        mn::UNPCKLPS => Some(ShuffleForm::Unpack(4, false)),
        mn::UNPCKHPS => Some(ShuffleForm::Unpack(4, true)),
        mn::UNPCKLPD => Some(ShuffleForm::Unpack(8, false)),
        mn::UNPCKHPD => Some(ShuffleForm::Unpack(8, true)),
        mn::VPUNPCKLBW => Some(ShuffleForm::UnpackVex(1, false)),
        mn::VPUNPCKLWD => Some(ShuffleForm::UnpackVex(2, false)),
        mn::VPUNPCKLDQ => Some(ShuffleForm::UnpackVex(4, false)),
        mn::VPUNPCKLQDQ => Some(ShuffleForm::UnpackVex(8, false)),
        mn::VPUNPCKHBW => Some(ShuffleForm::UnpackVex(1, true)),
        mn::VPUNPCKHWD => Some(ShuffleForm::UnpackVex(2, true)),
        mn::VPUNPCKHDQ => Some(ShuffleForm::UnpackVex(4, true)),
        mn::VPUNPCKHQDQ => Some(ShuffleForm::UnpackVex(8, true)),
        mn::VUNPCKLPS => Some(ShuffleForm::UnpackVex(4, false)),
        mn::VUNPCKHPS => Some(ShuffleForm::UnpackVex(4, true)),
        mn::VUNPCKLPD => Some(ShuffleForm::UnpackVex(8, false)),
        mn::VUNPCKHPD => Some(ShuffleForm::UnpackVex(8, true)),
        mn::PACKUSWB => Some(ShuffleForm::Packuswb),
        mn::VPACKSSWB => Some(ShuffleForm::PackVex(2, true)),
        mn::VPACKUSWB => Some(ShuffleForm::PackVex(2, false)),
        mn::VPACKSSDW => Some(ShuffleForm::PackVex(4, true)),
        mn::VPACKUSDW => Some(ShuffleForm::PackVex(4, false)),
        mn::VPERMT2B => Some(ShuffleForm::Permute2(1, false)),
        mn::VPERMT2W => Some(ShuffleForm::Permute2(2, false)),
        mn::VPERMT2D => Some(ShuffleForm::Permute2(4, false)),
        mn::VPERMT2Q => Some(ShuffleForm::Permute2(8, false)),
        mn::VPERMI2B => Some(ShuffleForm::Permute2(1, true)),
        mn::VPERMI2W => Some(ShuffleForm::Permute2(2, true)),
        mn::VPERMI2D => Some(ShuffleForm::Permute2(4, true)),
        mn::VPERMI2Q => Some(ShuffleForm::Permute2(8, true)),
        mn::PMOVZXBW => Some(ShuffleForm::Extend(1, 2, false)),
        mn::PMOVZXBD => Some(ShuffleForm::Extend(1, 4, false)),
        mn::PMOVZXBQ => Some(ShuffleForm::Extend(1, 8, false)),
        mn::PMOVZXWD => Some(ShuffleForm::Extend(2, 4, false)),
        mn::PMOVZXWQ => Some(ShuffleForm::Extend(2, 8, false)),
        mn::PMOVZXDQ => Some(ShuffleForm::Extend(4, 8, false)),
        mn::PMOVSXBW => Some(ShuffleForm::Extend(1, 2, true)),
        mn::PMOVSXBD => Some(ShuffleForm::Extend(1, 4, true)),
        mn::PMOVSXBQ => Some(ShuffleForm::Extend(1, 8, true)),
        mn::PMOVSXWD => Some(ShuffleForm::Extend(2, 4, true)),
        mn::PMOVSXWQ => Some(ShuffleForm::Extend(2, 8, true)),
        mn::PMOVSXDQ => Some(ShuffleForm::Extend(4, 8, true)),
        mn::VPMOVZXBW => Some(ShuffleForm::ExtendVex(1, 2, false)),
        mn::VPMOVZXBD => Some(ShuffleForm::ExtendVex(1, 4, false)),
        mn::VPMOVZXBQ => Some(ShuffleForm::ExtendVex(1, 8, false)),
        mn::VPMOVZXWD => Some(ShuffleForm::ExtendVex(2, 4, false)),
        mn::VPMOVZXWQ => Some(ShuffleForm::ExtendVex(2, 8, false)),
        mn::VPMOVZXDQ => Some(ShuffleForm::ExtendVex(4, 8, false)),
        mn::VPMOVSXBW => Some(ShuffleForm::ExtendVex(1, 2, true)),
        mn::VPMOVSXBD => Some(ShuffleForm::ExtendVex(1, 4, true)),
        mn::VPMOVSXBQ => Some(ShuffleForm::ExtendVex(1, 8, true)),
        mn::VPMOVSXWD => Some(ShuffleForm::ExtendVex(2, 4, true)),
        mn::VPMOVSXWQ => Some(ShuffleForm::ExtendVex(2, 8, true)),
        mn::VPMOVSXDQ => Some(ShuffleForm::ExtendVex(4, 8, true)),
        mn::VPMOVQD => Some(ShuffleForm::Narrow(8, 4)),
        mn::VPMOVQW => Some(ShuffleForm::Narrow(8, 2)),
        mn::VPMOVQB => Some(ShuffleForm::Narrow(8, 1)),
        mn::VPMOVDW => Some(ShuffleForm::Narrow(4, 2)),
        mn::VPMOVDB => Some(ShuffleForm::Narrow(4, 1)),
        mn::VPMOVWB => Some(ShuffleForm::Narrow(2, 1)),
        mn::BLENDVPS => Some(ShuffleForm::Blendv(4)),
        mn::BLENDVPD => Some(ShuffleForm::Blendv(8)),
        mn::PBLENDVB => Some(ShuffleForm::Blendv(1)),
        mn::VPBLENDW => Some(ShuffleForm::PblendwVex),
        mn::VPBROADCASTB => Some(ShuffleForm::Broadcast(1)),
        mn::VPBROADCASTW => Some(ShuffleForm::Broadcast(2)),
        mn::VPBROADCASTD => Some(ShuffleForm::Broadcast(4)),
        mn::VPBROADCASTQ => Some(ShuffleForm::Broadcast(8)),
        mn::VBROADCASTSS => Some(ShuffleForm::Broadcast(4)),
        mn::VBROADCASTSD => Some(ShuffleForm::Broadcast(8)),
        mn::VINSERTI32X4 | mn::VINSERTF32X4 | mn::VINSERTI64X2 | mn::VINSERTF64X2 => Some(
            ShuffleForm::InsertWide(false),
        ),
        mn::VINSERTI64X4 | mn::VINSERTF64X4 | mn::VINSERTI32X8 | mn::VINSERTF32X8 => Some(
            ShuffleForm::InsertWide(true),
        ),
        mn::VEXTRACTI32X4 | mn::VEXTRACTF32X4 | mn::VEXTRACTI64X2 | mn::VEXTRACTF64X2 => Some(
            ShuffleForm::ExtractWide(false),
        ),
        mn::VEXTRACTI64X4 | mn::VEXTRACTF64X4 | mn::VEXTRACTI32X8 | mn::VEXTRACTF32X8 => Some(
            ShuffleForm::ExtractWide(true),
        ),
        mn::VALIGND => Some(ShuffleForm::Align(4)),
        mn::VALIGNQ => Some(ShuffleForm::Align(8)),
        mn::VPERMQ => Some(ShuffleForm::Vpermq),
        mn::PSHUFB => Some(ShuffleForm::Pshufb),
        mn::VPSHUFB => Some(ShuffleForm::PshufbVex),
        mn::PALIGNR => Some(ShuffleForm::Palignr),
        mn::VPALIGNR => Some(ShuffleForm::PalignrVex),
        mn::PBLENDW => Some(ShuffleForm::Pblendw),
        mn::VINSERTI128 | mn::VINSERTF128 => Some(ShuffleForm::Insert128),
        mn::VEXTRACTI128 | mn::VEXTRACTF128 => Some(ShuffleForm::Extract128),
        mn::VPERMPD => Some(ShuffleForm::Vpermpd),
        mn::VPERMD => Some(ShuffleForm::Vpermd),
        mn::VPERM2I128 | mn::VPERM2F128 => Some(ShuffleForm::Perm2i128),
        _ => None,
    }
}

/// Shuffles, permutes and lane moves.
#[verifier::when_used_as_spec(spec_shuffle_form)]
pub fn shuffle_form(m: u16) -> (r: Option<ShuffleForm>)
    ensures
        r == spec_shuffle_form(m),
{
    match m {
        mn::PSHUFD => Some(ShuffleForm::Pshufd),
        mn::VPSHUFD => Some(ShuffleForm::PshufdVex),
        mn::PSHUFLW => Some(ShuffleForm::Pshufw(false)),
        mn::PSHUFHW => Some(ShuffleForm::Pshufw(true)),
        mn::SHUFPS => Some(ShuffleForm::Shufps),
        mn::SHUFPD => Some(ShuffleForm::Shufpd),
        mn::PUNPCKLBW => Some(ShuffleForm::Unpack(1, false)),
        mn::PUNPCKLWD => Some(ShuffleForm::Unpack(2, false)),
        mn::PUNPCKLDQ => Some(ShuffleForm::Unpack(4, false)),
        mn::PUNPCKLQDQ => Some(ShuffleForm::Unpack(8, false)),
        mn::PUNPCKHBW => Some(ShuffleForm::Unpack(1, true)),
        mn::PUNPCKHWD => Some(ShuffleForm::Unpack(2, true)),
        mn::PUNPCKHDQ => Some(ShuffleForm::Unpack(4, true)),
        mn::PUNPCKHQDQ => Some(ShuffleForm::Unpack(8, true)),
        mn::UNPCKLPS => Some(ShuffleForm::Unpack(4, false)),
        mn::UNPCKHPS => Some(ShuffleForm::Unpack(4, true)),
        mn::UNPCKLPD => Some(ShuffleForm::Unpack(8, false)),
        mn::UNPCKHPD => Some(ShuffleForm::Unpack(8, true)),
        mn::VPUNPCKLBW => Some(ShuffleForm::UnpackVex(1, false)),
        mn::VPUNPCKLWD => Some(ShuffleForm::UnpackVex(2, false)),
        mn::VPUNPCKLDQ => Some(ShuffleForm::UnpackVex(4, false)),
        mn::VPUNPCKLQDQ => Some(ShuffleForm::UnpackVex(8, false)),
        mn::VPUNPCKHBW => Some(ShuffleForm::UnpackVex(1, true)),
        mn::VPUNPCKHWD => Some(ShuffleForm::UnpackVex(2, true)),
        mn::VPUNPCKHDQ => Some(ShuffleForm::UnpackVex(4, true)),
        mn::VPUNPCKHQDQ => Some(ShuffleForm::UnpackVex(8, true)),
        mn::VUNPCKLPS => Some(ShuffleForm::UnpackVex(4, false)),
        mn::VUNPCKHPS => Some(ShuffleForm::UnpackVex(4, true)),
        mn::VUNPCKLPD => Some(ShuffleForm::UnpackVex(8, false)),
        mn::VUNPCKHPD => Some(ShuffleForm::UnpackVex(8, true)),
        mn::PACKUSWB => Some(ShuffleForm::Packuswb),
        mn::VPACKSSWB => Some(ShuffleForm::PackVex(2, true)),
        mn::VPACKUSWB => Some(ShuffleForm::PackVex(2, false)),
        mn::VPACKSSDW => Some(ShuffleForm::PackVex(4, true)),
        mn::VPACKUSDW => Some(ShuffleForm::PackVex(4, false)),
        mn::VPERMT2B => Some(ShuffleForm::Permute2(1, false)),
        mn::VPERMT2W => Some(ShuffleForm::Permute2(2, false)),
        mn::VPERMT2D => Some(ShuffleForm::Permute2(4, false)),
        mn::VPERMT2Q => Some(ShuffleForm::Permute2(8, false)),
        mn::VPERMI2B => Some(ShuffleForm::Permute2(1, true)),
        mn::VPERMI2W => Some(ShuffleForm::Permute2(2, true)),
        mn::VPERMI2D => Some(ShuffleForm::Permute2(4, true)),
        mn::VPERMI2Q => Some(ShuffleForm::Permute2(8, true)),
        mn::PMOVZXBW => Some(ShuffleForm::Extend(1, 2, false)),
        mn::PMOVZXBD => Some(ShuffleForm::Extend(1, 4, false)),
        mn::PMOVZXBQ => Some(ShuffleForm::Extend(1, 8, false)),
        mn::PMOVZXWD => Some(ShuffleForm::Extend(2, 4, false)),
        mn::PMOVZXWQ => Some(ShuffleForm::Extend(2, 8, false)),
        mn::PMOVZXDQ => Some(ShuffleForm::Extend(4, 8, false)),
        mn::PMOVSXBW => Some(ShuffleForm::Extend(1, 2, true)),
        mn::PMOVSXBD => Some(ShuffleForm::Extend(1, 4, true)),
        mn::PMOVSXBQ => Some(ShuffleForm::Extend(1, 8, true)),
        mn::PMOVSXWD => Some(ShuffleForm::Extend(2, 4, true)),
        mn::PMOVSXWQ => Some(ShuffleForm::Extend(2, 8, true)),
        mn::PMOVSXDQ => Some(ShuffleForm::Extend(4, 8, true)),
        mn::VPMOVZXBW => Some(ShuffleForm::ExtendVex(1, 2, false)),
        mn::VPMOVZXBD => Some(ShuffleForm::ExtendVex(1, 4, false)),
        mn::VPMOVZXBQ => Some(ShuffleForm::ExtendVex(1, 8, false)),
        mn::VPMOVZXWD => Some(ShuffleForm::ExtendVex(2, 4, false)),
        mn::VPMOVZXWQ => Some(ShuffleForm::ExtendVex(2, 8, false)),
        mn::VPMOVZXDQ => Some(ShuffleForm::ExtendVex(4, 8, false)),
        mn::VPMOVSXBW => Some(ShuffleForm::ExtendVex(1, 2, true)),
        mn::VPMOVSXBD => Some(ShuffleForm::ExtendVex(1, 4, true)),
        mn::VPMOVSXBQ => Some(ShuffleForm::ExtendVex(1, 8, true)),
        mn::VPMOVSXWD => Some(ShuffleForm::ExtendVex(2, 4, true)),
        mn::VPMOVSXWQ => Some(ShuffleForm::ExtendVex(2, 8, true)),
        mn::VPMOVSXDQ => Some(ShuffleForm::ExtendVex(4, 8, true)),
        mn::VPMOVQD => Some(ShuffleForm::Narrow(8, 4)),
        mn::VPMOVQW => Some(ShuffleForm::Narrow(8, 2)),
        mn::VPMOVQB => Some(ShuffleForm::Narrow(8, 1)),
        mn::VPMOVDW => Some(ShuffleForm::Narrow(4, 2)),
        mn::VPMOVDB => Some(ShuffleForm::Narrow(4, 1)),
        mn::VPMOVWB => Some(ShuffleForm::Narrow(2, 1)),
        mn::BLENDVPS => Some(ShuffleForm::Blendv(4)),
        mn::BLENDVPD => Some(ShuffleForm::Blendv(8)),
        mn::PBLENDVB => Some(ShuffleForm::Blendv(1)),
        mn::VPBLENDW => Some(ShuffleForm::PblendwVex),
        mn::VPBROADCASTB => Some(ShuffleForm::Broadcast(1)),
        mn::VPBROADCASTW => Some(ShuffleForm::Broadcast(2)),
        mn::VPBROADCASTD => Some(ShuffleForm::Broadcast(4)),
        mn::VPBROADCASTQ => Some(ShuffleForm::Broadcast(8)),
        mn::VBROADCASTSS => Some(ShuffleForm::Broadcast(4)),
        mn::VBROADCASTSD => Some(ShuffleForm::Broadcast(8)),
        mn::VINSERTI32X4 | mn::VINSERTF32X4 | mn::VINSERTI64X2 | mn::VINSERTF64X2 => Some(
            ShuffleForm::InsertWide(false),
        ),
        mn::VINSERTI64X4 | mn::VINSERTF64X4 | mn::VINSERTI32X8 | mn::VINSERTF32X8 => Some(
            ShuffleForm::InsertWide(true),
        ),
        mn::VEXTRACTI32X4 | mn::VEXTRACTF32X4 | mn::VEXTRACTI64X2 | mn::VEXTRACTF64X2 => Some(
            ShuffleForm::ExtractWide(false),
        ),
        mn::VEXTRACTI64X4 | mn::VEXTRACTF64X4 | mn::VEXTRACTI32X8 | mn::VEXTRACTF32X8 => Some(
            ShuffleForm::ExtractWide(true),
        ),
        mn::VALIGND => Some(ShuffleForm::Align(4)),
        mn::VALIGNQ => Some(ShuffleForm::Align(8)),
        mn::VPERMQ => Some(ShuffleForm::Vpermq),
        mn::PSHUFB => Some(ShuffleForm::Pshufb),
        mn::VPSHUFB => Some(ShuffleForm::PshufbVex),
        mn::PALIGNR => Some(ShuffleForm::Palignr),
        mn::VPALIGNR => Some(ShuffleForm::PalignrVex),
        mn::PBLENDW => Some(ShuffleForm::Pblendw),
        mn::VINSERTI128 | mn::VINSERTF128 => Some(ShuffleForm::Insert128),
        mn::VEXTRACTI128 | mn::VEXTRACTF128 => Some(ShuffleForm::Extract128),
        mn::VPERMPD => Some(ShuffleForm::Vpermpd),
        mn::VPERMD => Some(ShuffleForm::Vpermd),
        mn::VPERM2I128 | mn::VPERM2F128 => Some(ShuffleForm::Perm2i128),
        _ => None,
    }
}

pub open spec fn spec_mask_form(m: u16) -> Option<MaskForm> {
    match m {
        mn::KUNPCKBW => Some(MaskForm::Unpack(8)),
        mn::KUNPCKWD => Some(MaskForm::Unpack(16)),
        mn::KUNPCKDQ => Some(MaskForm::Unpack(32)),
        mn::KORB => Some(MaskForm::Bin(VKLogicOp::Or, 8)),
        mn::KORW => Some(MaskForm::Bin(VKLogicOp::Or, 16)),
        mn::KORD => Some(MaskForm::Bin(VKLogicOp::Or, 32)),
        mn::KORQ => Some(MaskForm::Bin(VKLogicOp::Or, 64)),
        mn::KANDB => Some(MaskForm::Bin(VKLogicOp::And, 8)),
        mn::KANDW => Some(MaskForm::Bin(VKLogicOp::And, 16)),
        mn::KANDD => Some(MaskForm::Bin(VKLogicOp::And, 32)),
        mn::KANDQ => Some(MaskForm::Bin(VKLogicOp::And, 64)),
        mn::KANDNB => Some(MaskForm::Bin(VKLogicOp::Andn, 8)),
        mn::KANDNW => Some(MaskForm::Bin(VKLogicOp::Andn, 16)),
        mn::KANDND => Some(MaskForm::Bin(VKLogicOp::Andn, 32)),
        mn::KANDNQ => Some(MaskForm::Bin(VKLogicOp::Andn, 64)),
        mn::KXORB => Some(MaskForm::Bin(VKLogicOp::Xor, 8)),
        mn::KXORW => Some(MaskForm::Bin(VKLogicOp::Xor, 16)),
        mn::KXORD => Some(MaskForm::Bin(VKLogicOp::Xor, 32)),
        mn::KXORQ => Some(MaskForm::Bin(VKLogicOp::Xor, 64)),
        mn::KXNORB => Some(MaskForm::Bin(VKLogicOp::Xnor, 8)),
        mn::KXNORW => Some(MaskForm::Bin(VKLogicOp::Xnor, 16)),
        mn::KXNORD => Some(MaskForm::Bin(VKLogicOp::Xnor, 32)),
        mn::KXNORQ => Some(MaskForm::Bin(VKLogicOp::Xnor, 64)),
        mn::KNOTB => Some(MaskForm::Not(8)),
        mn::KNOTW => Some(MaskForm::Not(16)),
        mn::KNOTD => Some(MaskForm::Not(32)),
        mn::KNOTQ => Some(MaskForm::Not(64)),
        mn::KSHIFTLB => Some(MaskForm::Shift(8, true)),
        mn::KSHIFTLW => Some(MaskForm::Shift(16, true)),
        mn::KSHIFTLD => Some(MaskForm::Shift(32, true)),
        mn::KSHIFTLQ => Some(MaskForm::Shift(64, true)),
        mn::KSHIFTRB => Some(MaskForm::Shift(8, false)),
        mn::KSHIFTRW => Some(MaskForm::Shift(16, false)),
        mn::KSHIFTRD => Some(MaskForm::Shift(32, false)),
        mn::KSHIFTRQ => Some(MaskForm::Shift(64, false)),
        mn::VPCMPEQB => Some(MaskForm::CompareFixed(1, PackedBinOp::CmpEq, 0, false)),
        mn::VPCMPEQW => Some(MaskForm::CompareFixed(2, PackedBinOp::CmpEq, 0, false)),
        mn::VPCMPEQD => Some(MaskForm::CompareFixed(4, PackedBinOp::CmpEq, 0, false)),
        mn::VPCMPEQQ => Some(MaskForm::CompareFixed(8, PackedBinOp::CmpEq, 0, false)),
        mn::VPCMPGTB => Some(MaskForm::CompareFixed(1, PackedBinOp::CmpGt, 6, true)),
        mn::VPCMPGTW => Some(MaskForm::CompareFixed(2, PackedBinOp::CmpGt, 6, true)),
        mn::VPCMPGTD => Some(MaskForm::CompareFixed(4, PackedBinOp::CmpGt, 6, true)),
        mn::VPCMPGTQ => Some(MaskForm::CompareFixed(8, PackedBinOp::CmpGt, 6, true)),
        mn::VPTESTMB => Some(MaskForm::Test(1, false)),
        mn::VPTESTMW => Some(MaskForm::Test(2, false)),
        mn::VPTESTMD => Some(MaskForm::Test(4, false)),
        mn::VPTESTMQ => Some(MaskForm::Test(8, false)),
        mn::VPTESTNMB => Some(MaskForm::Test(1, true)),
        mn::VPTESTNMW => Some(MaskForm::Test(2, true)),
        mn::VPTESTNMD => Some(MaskForm::Test(4, true)),
        mn::VPTESTNMQ => Some(MaskForm::Test(8, true)),
        mn::VPCMPB => Some(MaskForm::Compare(1, true)),
        mn::VPCMPW => Some(MaskForm::Compare(2, true)),
        mn::VPCMPD => Some(MaskForm::Compare(4, true)),
        mn::VPCMPQ => Some(MaskForm::Compare(8, true)),
        mn::VPCMPUB => Some(MaskForm::Compare(1, false)),
        mn::VPCMPUW => Some(MaskForm::Compare(2, false)),
        mn::VPCMPUD => Some(MaskForm::Compare(4, false)),
        mn::VPCMPUQ => Some(MaskForm::Compare(8, false)),
        mn::KORTESTB => Some(MaskForm::OrTest(8)),
        mn::KORTESTW => Some(MaskForm::OrTest(16)),
        mn::KORTESTD => Some(MaskForm::OrTest(32)),
        mn::KORTESTQ => Some(MaskForm::OrTest(64)),
        mn::KMOVB => Some(MaskForm::Mov(8)),
        mn::KMOVW => Some(MaskForm::Mov(16)),
        mn::KMOVD => Some(MaskForm::Mov(32)),
        mn::KMOVQ => Some(MaskForm::Mov(64)),
        _ => None,
    }
}

/// Opmask instructions.
#[verifier::when_used_as_spec(spec_mask_form)]
pub fn mask_form(m: u16) -> (r: Option<MaskForm>)
    ensures
        r == spec_mask_form(m),
{
    match m {
        mn::KUNPCKBW => Some(MaskForm::Unpack(8)),
        mn::KUNPCKWD => Some(MaskForm::Unpack(16)),
        mn::KUNPCKDQ => Some(MaskForm::Unpack(32)),
        mn::KORB => Some(MaskForm::Bin(VKLogicOp::Or, 8)),
        mn::KORW => Some(MaskForm::Bin(VKLogicOp::Or, 16)),
        mn::KORD => Some(MaskForm::Bin(VKLogicOp::Or, 32)),
        mn::KORQ => Some(MaskForm::Bin(VKLogicOp::Or, 64)),
        mn::KANDB => Some(MaskForm::Bin(VKLogicOp::And, 8)),
        mn::KANDW => Some(MaskForm::Bin(VKLogicOp::And, 16)),
        mn::KANDD => Some(MaskForm::Bin(VKLogicOp::And, 32)),
        mn::KANDQ => Some(MaskForm::Bin(VKLogicOp::And, 64)),
        mn::KANDNB => Some(MaskForm::Bin(VKLogicOp::Andn, 8)),
        mn::KANDNW => Some(MaskForm::Bin(VKLogicOp::Andn, 16)),
        mn::KANDND => Some(MaskForm::Bin(VKLogicOp::Andn, 32)),
        mn::KANDNQ => Some(MaskForm::Bin(VKLogicOp::Andn, 64)),
        mn::KXORB => Some(MaskForm::Bin(VKLogicOp::Xor, 8)),
        mn::KXORW => Some(MaskForm::Bin(VKLogicOp::Xor, 16)),
        mn::KXORD => Some(MaskForm::Bin(VKLogicOp::Xor, 32)),
        mn::KXORQ => Some(MaskForm::Bin(VKLogicOp::Xor, 64)),
        mn::KXNORB => Some(MaskForm::Bin(VKLogicOp::Xnor, 8)),
        mn::KXNORW => Some(MaskForm::Bin(VKLogicOp::Xnor, 16)),
        mn::KXNORD => Some(MaskForm::Bin(VKLogicOp::Xnor, 32)),
        mn::KXNORQ => Some(MaskForm::Bin(VKLogicOp::Xnor, 64)),
        mn::KNOTB => Some(MaskForm::Not(8)),
        mn::KNOTW => Some(MaskForm::Not(16)),
        mn::KNOTD => Some(MaskForm::Not(32)),
        mn::KNOTQ => Some(MaskForm::Not(64)),
        mn::KSHIFTLB => Some(MaskForm::Shift(8, true)),
        mn::KSHIFTLW => Some(MaskForm::Shift(16, true)),
        mn::KSHIFTLD => Some(MaskForm::Shift(32, true)),
        mn::KSHIFTLQ => Some(MaskForm::Shift(64, true)),
        mn::KSHIFTRB => Some(MaskForm::Shift(8, false)),
        mn::KSHIFTRW => Some(MaskForm::Shift(16, false)),
        mn::KSHIFTRD => Some(MaskForm::Shift(32, false)),
        mn::KSHIFTRQ => Some(MaskForm::Shift(64, false)),
        mn::VPCMPEQB => Some(MaskForm::CompareFixed(1, PackedBinOp::CmpEq, 0, false)),
        mn::VPCMPEQW => Some(MaskForm::CompareFixed(2, PackedBinOp::CmpEq, 0, false)),
        mn::VPCMPEQD => Some(MaskForm::CompareFixed(4, PackedBinOp::CmpEq, 0, false)),
        mn::VPCMPEQQ => Some(MaskForm::CompareFixed(8, PackedBinOp::CmpEq, 0, false)),
        mn::VPCMPGTB => Some(MaskForm::CompareFixed(1, PackedBinOp::CmpGt, 6, true)),
        mn::VPCMPGTW => Some(MaskForm::CompareFixed(2, PackedBinOp::CmpGt, 6, true)),
        mn::VPCMPGTD => Some(MaskForm::CompareFixed(4, PackedBinOp::CmpGt, 6, true)),
        mn::VPCMPGTQ => Some(MaskForm::CompareFixed(8, PackedBinOp::CmpGt, 6, true)),
        mn::VPTESTMB => Some(MaskForm::Test(1, false)),
        mn::VPTESTMW => Some(MaskForm::Test(2, false)),
        mn::VPTESTMD => Some(MaskForm::Test(4, false)),
        mn::VPTESTMQ => Some(MaskForm::Test(8, false)),
        mn::VPTESTNMB => Some(MaskForm::Test(1, true)),
        mn::VPTESTNMW => Some(MaskForm::Test(2, true)),
        mn::VPTESTNMD => Some(MaskForm::Test(4, true)),
        mn::VPTESTNMQ => Some(MaskForm::Test(8, true)),
        mn::VPCMPB => Some(MaskForm::Compare(1, true)),
        mn::VPCMPW => Some(MaskForm::Compare(2, true)),
        mn::VPCMPD => Some(MaskForm::Compare(4, true)),
        mn::VPCMPQ => Some(MaskForm::Compare(8, true)),
        mn::VPCMPUB => Some(MaskForm::Compare(1, false)),
        mn::VPCMPUW => Some(MaskForm::Compare(2, false)),
        mn::VPCMPUD => Some(MaskForm::Compare(4, false)),
        mn::VPCMPUQ => Some(MaskForm::Compare(8, false)),
        mn::KORTESTB => Some(MaskForm::OrTest(8)),
        mn::KORTESTW => Some(MaskForm::OrTest(16)),
        mn::KORTESTD => Some(MaskForm::OrTest(32)),
        mn::KORTESTQ => Some(MaskForm::OrTest(64)),
        mn::KMOVB => Some(MaskForm::Mov(8)),
        mn::KMOVW => Some(MaskForm::Mov(16)),
        mn::KMOVD => Some(MaskForm::Mov(32)),
        mn::KMOVQ => Some(MaskForm::Mov(64)),
        _ => None,
    }
}

pub open spec fn spec_crypto_form(m: u16) -> Option<CryptoForm> {
    match m {
        mn::AESENC => Some(CryptoForm::Aes(AesOp::Enc)),
        mn::AESDEC => Some(CryptoForm::Aes(AesOp::Dec)),
        mn::AESENCLAST => Some(CryptoForm::Aes(AesOp::EncLast)),
        mn::AESDECLAST => Some(CryptoForm::Aes(AesOp::DecLast)),
        mn::VAESENC => Some(CryptoForm::AesVex(AesOp::Enc)),
        mn::VAESDEC => Some(CryptoForm::AesVex(AesOp::Dec)),
        mn::VAESENCLAST => Some(CryptoForm::AesVex(AesOp::EncLast)),
        mn::VAESDECLAST => Some(CryptoForm::AesVex(AesOp::DecLast)),
        mn::AESIMC => Some(CryptoForm::AesImc(false)),
        mn::VAESIMC => Some(CryptoForm::AesImc(true)),
        mn::AESKEYGENASSIST => Some(CryptoForm::AesKeygen(false)),
        mn::VAESKEYGENASSIST => Some(CryptoForm::AesKeygen(true)),
        mn::SHA256RNDS2 => Some(CryptoForm::Sha(ShaOp::Sha256Rnds2)),
        mn::SHA256MSG1 => Some(CryptoForm::Sha(ShaOp::Sha256Msg1)),
        mn::SHA256MSG2 => Some(CryptoForm::Sha(ShaOp::Sha256Msg2)),
        mn::SHA1RNDS4 => Some(CryptoForm::Sha(ShaOp::Sha1Rnds4)),
        mn::SHA1NEXTE => Some(CryptoForm::Sha(ShaOp::Sha1NextE)),
        mn::SHA1MSG1 => Some(CryptoForm::Sha(ShaOp::Sha1Msg1)),
        mn::SHA1MSG2 => Some(CryptoForm::Sha(ShaOp::Sha1Msg2)),
        mn::GF2P8MULB => Some(CryptoForm::Gfni(GfniOp::Mulb)),
        mn::GF2P8AFFINEQB => Some(CryptoForm::Gfni(GfniOp::AffineQb)),
        mn::GF2P8AFFINEINVQB => Some(CryptoForm::Gfni(GfniOp::AffineInvQb)),
        mn::VGF2P8MULB => Some(CryptoForm::GfniVex(GfniOp::Mulb)),
        mn::VGF2P8AFFINEQB => Some(CryptoForm::GfniVex(GfniOp::AffineQb)),
        mn::VGF2P8AFFINEINVQB => Some(CryptoForm::GfniVex(GfniOp::AffineInvQb)),
        _ => None,
    }
}

/// AES, SHA and Galois-field instructions.
#[verifier::when_used_as_spec(spec_crypto_form)]
pub fn crypto_form(m: u16) -> (r: Option<CryptoForm>)
    ensures
        r == spec_crypto_form(m),
{
    match m {
        mn::AESENC => Some(CryptoForm::Aes(AesOp::Enc)),
        mn::AESDEC => Some(CryptoForm::Aes(AesOp::Dec)),
        mn::AESENCLAST => Some(CryptoForm::Aes(AesOp::EncLast)),
        mn::AESDECLAST => Some(CryptoForm::Aes(AesOp::DecLast)),
        mn::VAESENC => Some(CryptoForm::AesVex(AesOp::Enc)),
        mn::VAESDEC => Some(CryptoForm::AesVex(AesOp::Dec)),
        mn::VAESENCLAST => Some(CryptoForm::AesVex(AesOp::EncLast)),
        mn::VAESDECLAST => Some(CryptoForm::AesVex(AesOp::DecLast)),
        mn::AESIMC => Some(CryptoForm::AesImc(false)),
        mn::VAESIMC => Some(CryptoForm::AesImc(true)),
        mn::AESKEYGENASSIST => Some(CryptoForm::AesKeygen(false)),
        mn::VAESKEYGENASSIST => Some(CryptoForm::AesKeygen(true)),
        mn::SHA256RNDS2 => Some(CryptoForm::Sha(ShaOp::Sha256Rnds2)),
        mn::SHA256MSG1 => Some(CryptoForm::Sha(ShaOp::Sha256Msg1)),
        mn::SHA256MSG2 => Some(CryptoForm::Sha(ShaOp::Sha256Msg2)),
        mn::SHA1RNDS4 => Some(CryptoForm::Sha(ShaOp::Sha1Rnds4)),
        mn::SHA1NEXTE => Some(CryptoForm::Sha(ShaOp::Sha1NextE)),
        mn::SHA1MSG1 => Some(CryptoForm::Sha(ShaOp::Sha1Msg1)),
        mn::SHA1MSG2 => Some(CryptoForm::Sha(ShaOp::Sha1Msg2)),
        mn::GF2P8MULB => Some(CryptoForm::Gfni(GfniOp::Mulb)),
        mn::GF2P8AFFINEQB => Some(CryptoForm::Gfni(GfniOp::AffineQb)),
        mn::GF2P8AFFINEINVQB => Some(CryptoForm::Gfni(GfniOp::AffineInvQb)),
        mn::VGF2P8MULB => Some(CryptoForm::GfniVex(GfniOp::Mulb)),
        mn::VGF2P8AFFINEQB => Some(CryptoForm::GfniVex(GfniOp::AffineQb)),
        mn::VGF2P8AFFINEINVQB => Some(CryptoForm::GfniVex(GfniOp::AffineInvQb)),
        _ => None,
    }
}

pub open spec fn spec_float_form(m: u16) -> Option<FloatForm> {
    match m {
        mn::CMPSD => Some(FloatForm::CmpsdOrString),
        mn::MOVSS => Some(FloatForm::Move(FPrec::F32)),
        mn::MOVSD => Some(FloatForm::MovsdOrString),
        mn::VMOVSS => Some(FloatForm::MoveVex(FPrec::F32)),
        mn::VMOVSD => Some(FloatForm::MoveVex(FPrec::F64)),
        mn::ADDSS => Some(FloatForm::Bin(FloatBinOp::Add, FPrec::F32, true)),
        mn::ADDSD => Some(FloatForm::Bin(FloatBinOp::Add, FPrec::F64, true)),
        mn::ADDPS => Some(FloatForm::Bin(FloatBinOp::Add, FPrec::F32, false)),
        mn::ADDPD => Some(FloatForm::Bin(FloatBinOp::Add, FPrec::F64, false)),
        mn::SUBSS => Some(FloatForm::Bin(FloatBinOp::Sub, FPrec::F32, true)),
        mn::SUBSD => Some(FloatForm::Bin(FloatBinOp::Sub, FPrec::F64, true)),
        mn::SUBPS => Some(FloatForm::Bin(FloatBinOp::Sub, FPrec::F32, false)),
        mn::SUBPD => Some(FloatForm::Bin(FloatBinOp::Sub, FPrec::F64, false)),
        mn::MULSS => Some(FloatForm::Bin(FloatBinOp::Mul, FPrec::F32, true)),
        mn::MULSD => Some(FloatForm::Bin(FloatBinOp::Mul, FPrec::F64, true)),
        mn::MULPS => Some(FloatForm::Bin(FloatBinOp::Mul, FPrec::F32, false)),
        mn::MULPD => Some(FloatForm::Bin(FloatBinOp::Mul, FPrec::F64, false)),
        mn::DIVSS => Some(FloatForm::Bin(FloatBinOp::Div, FPrec::F32, true)),
        mn::DIVSD => Some(FloatForm::Bin(FloatBinOp::Div, FPrec::F64, true)),
        mn::DIVPS => Some(FloatForm::Bin(FloatBinOp::Div, FPrec::F32, false)),
        mn::DIVPD => Some(FloatForm::Bin(FloatBinOp::Div, FPrec::F64, false)),
        mn::UCOMISS | mn::COMISS | mn::VUCOMISS | mn::VCOMISS => Some(
            FloatForm::Compare(FPrec::F32),
        ),
        mn::UCOMISD | mn::COMISD | mn::VUCOMISD | mn::VCOMISD => Some(
            FloatForm::Compare(FPrec::F64),
        ),
        mn::CMPSS => Some(FloatForm::CompareMask(FPrec::F32, true)),
        mn::CMPPD => Some(FloatForm::CompareMask(FPrec::F64, false)),
        mn::CMPPS => Some(FloatForm::CompareMask(FPrec::F32, false)),
        mn::MINSS => Some(FloatForm::Bin(FloatBinOp::Min, FPrec::F32, true)),
        mn::MINSD => Some(FloatForm::Bin(FloatBinOp::Min, FPrec::F64, true)),
        mn::MINPS => Some(FloatForm::Bin(FloatBinOp::Min, FPrec::F32, false)),
        mn::MINPD => Some(FloatForm::Bin(FloatBinOp::Min, FPrec::F64, false)),
        mn::MAXSS => Some(FloatForm::Bin(FloatBinOp::Max, FPrec::F32, true)),
        mn::MAXSD => Some(FloatForm::Bin(FloatBinOp::Max, FPrec::F64, true)),
        mn::MAXPS => Some(FloatForm::Bin(FloatBinOp::Max, FPrec::F32, false)),
        mn::MAXPD => Some(FloatForm::Bin(FloatBinOp::Max, FPrec::F64, false)),
        mn::VADDSS => Some(FloatForm::BinVex(FloatBinOp::Add, FPrec::F32, true)),
        mn::VADDSD => Some(FloatForm::BinVex(FloatBinOp::Add, FPrec::F64, true)),
        mn::VADDPS => Some(FloatForm::BinVex(FloatBinOp::Add, FPrec::F32, false)),
        mn::VADDPD => Some(FloatForm::BinVex(FloatBinOp::Add, FPrec::F64, false)),
        mn::VSUBSS => Some(FloatForm::BinVex(FloatBinOp::Sub, FPrec::F32, true)),
        mn::VSUBSD => Some(FloatForm::BinVex(FloatBinOp::Sub, FPrec::F64, true)),
        mn::VSUBPS => Some(FloatForm::BinVex(FloatBinOp::Sub, FPrec::F32, false)),
        mn::VSUBPD => Some(FloatForm::BinVex(FloatBinOp::Sub, FPrec::F64, false)),
        mn::VMULSS => Some(FloatForm::BinVex(FloatBinOp::Mul, FPrec::F32, true)),
        mn::VMULSD => Some(FloatForm::BinVex(FloatBinOp::Mul, FPrec::F64, true)),
        mn::VMULPS => Some(FloatForm::BinVex(FloatBinOp::Mul, FPrec::F32, false)),
        mn::VMULPD => Some(FloatForm::BinVex(FloatBinOp::Mul, FPrec::F64, false)),
        mn::VDIVSS => Some(FloatForm::BinVex(FloatBinOp::Div, FPrec::F32, true)),
        mn::VDIVSD => Some(FloatForm::BinVex(FloatBinOp::Div, FPrec::F64, true)),
        mn::VDIVPS => Some(FloatForm::BinVex(FloatBinOp::Div, FPrec::F32, false)),
        mn::VDIVPD => Some(FloatForm::BinVex(FloatBinOp::Div, FPrec::F64, false)),
        mn::VMINSS => Some(FloatForm::BinVex(FloatBinOp::Min, FPrec::F32, true)),
        mn::VMINSD => Some(FloatForm::BinVex(FloatBinOp::Min, FPrec::F64, true)),
        mn::VMINPS => Some(FloatForm::BinVex(FloatBinOp::Min, FPrec::F32, false)),
        mn::VMINPD => Some(FloatForm::BinVex(FloatBinOp::Min, FPrec::F64, false)),
        mn::VMAXSS => Some(FloatForm::BinVex(FloatBinOp::Max, FPrec::F32, true)),
        mn::VMAXSD => Some(FloatForm::BinVex(FloatBinOp::Max, FPrec::F64, true)),
        mn::VMAXPS => Some(FloatForm::BinVex(FloatBinOp::Max, FPrec::F32, false)),
        mn::VMAXPD => Some(FloatForm::BinVex(FloatBinOp::Max, FPrec::F64, false)),
        mn::SQRTSS => Some(FloatForm::Unary(FloatUnOp::Sqrt, FPrec::F32, true)),
        mn::SQRTSD => Some(FloatForm::Unary(FloatUnOp::Sqrt, FPrec::F64, true)),
        mn::VSQRTSS => Some(FloatForm::UnaryVex(FloatUnOp::Sqrt, FPrec::F32)),
        mn::VSQRTSD => Some(FloatForm::UnaryVex(FloatUnOp::Sqrt, FPrec::F64)),
        mn::VRSQRTSS => Some(FloatForm::UnaryVex(FloatUnOp::Rsqrt, FPrec::F32)),
        mn::VRCPSS => Some(FloatForm::UnaryVex(FloatUnOp::Rcp, FPrec::F32)),
        mn::VFMADD132SS => Some(FloatForm::Fma(132, FPrec::F32, true, false, false)),
        mn::VFMADD132SD => Some(FloatForm::Fma(132, FPrec::F64, true, false, false)),
        mn::VFMADD132PS => Some(FloatForm::Fma(132, FPrec::F32, false, false, false)),
        mn::VFMADD132PD => Some(FloatForm::Fma(132, FPrec::F64, false, false, false)),
        mn::VFMADD213SS => Some(FloatForm::Fma(213, FPrec::F32, true, false, false)),
        mn::VFMADD213SD => Some(FloatForm::Fma(213, FPrec::F64, true, false, false)),
        mn::VFMADD213PS => Some(FloatForm::Fma(213, FPrec::F32, false, false, false)),
        mn::VFMADD213PD => Some(FloatForm::Fma(213, FPrec::F64, false, false, false)),
        mn::VFMADD231SS => Some(FloatForm::Fma(231, FPrec::F32, true, false, false)),
        mn::VFMADD231SD => Some(FloatForm::Fma(231, FPrec::F64, true, false, false)),
        mn::VFMADD231PS => Some(FloatForm::Fma(231, FPrec::F32, false, false, false)),
        mn::VFMADD231PD => Some(FloatForm::Fma(231, FPrec::F64, false, false, false)),
        mn::VFMSUB132SS => Some(FloatForm::Fma(132, FPrec::F32, true, false, true)),
        mn::VFMSUB132SD => Some(FloatForm::Fma(132, FPrec::F64, true, false, true)),
        mn::VFMSUB132PS => Some(FloatForm::Fma(132, FPrec::F32, false, false, true)),
        mn::VFMSUB132PD => Some(FloatForm::Fma(132, FPrec::F64, false, false, true)),
        mn::VFMSUB213SS => Some(FloatForm::Fma(213, FPrec::F32, true, false, true)),
        mn::VFMSUB213SD => Some(FloatForm::Fma(213, FPrec::F64, true, false, true)),
        mn::VFMSUB213PS => Some(FloatForm::Fma(213, FPrec::F32, false, false, true)),
        mn::VFMSUB213PD => Some(FloatForm::Fma(213, FPrec::F64, false, false, true)),
        mn::VFMSUB231SS => Some(FloatForm::Fma(231, FPrec::F32, true, false, true)),
        mn::VFMSUB231SD => Some(FloatForm::Fma(231, FPrec::F64, true, false, true)),
        mn::VFMSUB231PS => Some(FloatForm::Fma(231, FPrec::F32, false, false, true)),
        mn::VFMSUB231PD => Some(FloatForm::Fma(231, FPrec::F64, false, false, true)),
        mn::VFNMADD132SS => Some(FloatForm::Fma(132, FPrec::F32, true, true, false)),
        mn::VFNMADD132SD => Some(FloatForm::Fma(132, FPrec::F64, true, true, false)),
        mn::VFNMADD132PS => Some(FloatForm::Fma(132, FPrec::F32, false, true, false)),
        mn::VFNMADD132PD => Some(FloatForm::Fma(132, FPrec::F64, false, true, false)),
        mn::VFNMADD213SS => Some(FloatForm::Fma(213, FPrec::F32, true, true, false)),
        mn::VFNMADD213SD => Some(FloatForm::Fma(213, FPrec::F64, true, true, false)),
        mn::VFNMADD213PS => Some(FloatForm::Fma(213, FPrec::F32, false, true, false)),
        mn::VFNMADD213PD => Some(FloatForm::Fma(213, FPrec::F64, false, true, false)),
        mn::VFNMADD231SS => Some(FloatForm::Fma(231, FPrec::F32, true, true, false)),
        mn::VFNMADD231SD => Some(FloatForm::Fma(231, FPrec::F64, true, true, false)),
        mn::VFNMADD231PS => Some(FloatForm::Fma(231, FPrec::F32, false, true, false)),
        mn::VFNMADD231PD => Some(FloatForm::Fma(231, FPrec::F64, false, true, false)),
        mn::VFNMSUB132SS => Some(FloatForm::Fma(132, FPrec::F32, true, true, true)),
        mn::VFNMSUB132SD => Some(FloatForm::Fma(132, FPrec::F64, true, true, true)),
        mn::VFNMSUB132PS => Some(FloatForm::Fma(132, FPrec::F32, false, true, true)),
        mn::VFNMSUB132PD => Some(FloatForm::Fma(132, FPrec::F64, false, true, true)),
        mn::VFNMSUB213SS => Some(FloatForm::Fma(213, FPrec::F32, true, true, true)),
        mn::VFNMSUB213SD => Some(FloatForm::Fma(213, FPrec::F64, true, true, true)),
        mn::VFNMSUB213PS => Some(FloatForm::Fma(213, FPrec::F32, false, true, true)),
        mn::VFNMSUB213PD => Some(FloatForm::Fma(213, FPrec::F64, false, true, true)),
        mn::VFNMSUB231SS => Some(FloatForm::Fma(231, FPrec::F32, true, true, true)),
        mn::VFNMSUB231SD => Some(FloatForm::Fma(231, FPrec::F64, true, true, true)),
        mn::VFNMSUB231PS => Some(FloatForm::Fma(231, FPrec::F32, false, true, true)),
        mn::VFNMSUB231PD => Some(FloatForm::Fma(231, FPrec::F64, false, true, true)),
        mn::SQRTPS => Some(FloatForm::Unary(FloatUnOp::Sqrt, FPrec::F32, false)),
        mn::SQRTPD => Some(FloatForm::Unary(FloatUnOp::Sqrt, FPrec::F64, false)),
        _ => None,
    }
}

/// Floating-point vector instructions.
#[verifier::when_used_as_spec(spec_float_form)]
pub fn float_form(m: u16) -> (r: Option<FloatForm>)
    ensures
        r == spec_float_form(m),
{
    match m {
        mn::CMPSD => Some(FloatForm::CmpsdOrString),
        mn::MOVSS => Some(FloatForm::Move(FPrec::F32)),
        mn::MOVSD => Some(FloatForm::MovsdOrString),
        mn::VMOVSS => Some(FloatForm::MoveVex(FPrec::F32)),
        mn::VMOVSD => Some(FloatForm::MoveVex(FPrec::F64)),
        mn::ADDSS => Some(FloatForm::Bin(FloatBinOp::Add, FPrec::F32, true)),
        mn::ADDSD => Some(FloatForm::Bin(FloatBinOp::Add, FPrec::F64, true)),
        mn::ADDPS => Some(FloatForm::Bin(FloatBinOp::Add, FPrec::F32, false)),
        mn::ADDPD => Some(FloatForm::Bin(FloatBinOp::Add, FPrec::F64, false)),
        mn::SUBSS => Some(FloatForm::Bin(FloatBinOp::Sub, FPrec::F32, true)),
        mn::SUBSD => Some(FloatForm::Bin(FloatBinOp::Sub, FPrec::F64, true)),
        mn::SUBPS => Some(FloatForm::Bin(FloatBinOp::Sub, FPrec::F32, false)),
        mn::SUBPD => Some(FloatForm::Bin(FloatBinOp::Sub, FPrec::F64, false)),
        mn::MULSS => Some(FloatForm::Bin(FloatBinOp::Mul, FPrec::F32, true)),
        mn::MULSD => Some(FloatForm::Bin(FloatBinOp::Mul, FPrec::F64, true)),
        mn::MULPS => Some(FloatForm::Bin(FloatBinOp::Mul, FPrec::F32, false)),
        mn::MULPD => Some(FloatForm::Bin(FloatBinOp::Mul, FPrec::F64, false)),
        mn::DIVSS => Some(FloatForm::Bin(FloatBinOp::Div, FPrec::F32, true)),
        mn::DIVSD => Some(FloatForm::Bin(FloatBinOp::Div, FPrec::F64, true)),
        mn::DIVPS => Some(FloatForm::Bin(FloatBinOp::Div, FPrec::F32, false)),
        mn::DIVPD => Some(FloatForm::Bin(FloatBinOp::Div, FPrec::F64, false)),
        mn::UCOMISS | mn::COMISS | mn::VUCOMISS | mn::VCOMISS => Some(
            FloatForm::Compare(FPrec::F32),
        ),
        mn::UCOMISD | mn::COMISD | mn::VUCOMISD | mn::VCOMISD => Some(
            FloatForm::Compare(FPrec::F64),
        ),
        mn::CMPSS => Some(FloatForm::CompareMask(FPrec::F32, true)),
        mn::CMPPD => Some(FloatForm::CompareMask(FPrec::F64, false)),
        mn::CMPPS => Some(FloatForm::CompareMask(FPrec::F32, false)),
        mn::MINSS => Some(FloatForm::Bin(FloatBinOp::Min, FPrec::F32, true)),
        mn::MINSD => Some(FloatForm::Bin(FloatBinOp::Min, FPrec::F64, true)),
        mn::MINPS => Some(FloatForm::Bin(FloatBinOp::Min, FPrec::F32, false)),
        mn::MINPD => Some(FloatForm::Bin(FloatBinOp::Min, FPrec::F64, false)),
        mn::MAXSS => Some(FloatForm::Bin(FloatBinOp::Max, FPrec::F32, true)),
        mn::MAXSD => Some(FloatForm::Bin(FloatBinOp::Max, FPrec::F64, true)),
        mn::MAXPS => Some(FloatForm::Bin(FloatBinOp::Max, FPrec::F32, false)),
        mn::MAXPD => Some(FloatForm::Bin(FloatBinOp::Max, FPrec::F64, false)),
        mn::VADDSS => Some(FloatForm::BinVex(FloatBinOp::Add, FPrec::F32, true)),
        mn::VADDSD => Some(FloatForm::BinVex(FloatBinOp::Add, FPrec::F64, true)),
        mn::VADDPS => Some(FloatForm::BinVex(FloatBinOp::Add, FPrec::F32, false)),
        mn::VADDPD => Some(FloatForm::BinVex(FloatBinOp::Add, FPrec::F64, false)),
        mn::VSUBSS => Some(FloatForm::BinVex(FloatBinOp::Sub, FPrec::F32, true)),
        mn::VSUBSD => Some(FloatForm::BinVex(FloatBinOp::Sub, FPrec::F64, true)),
        mn::VSUBPS => Some(FloatForm::BinVex(FloatBinOp::Sub, FPrec::F32, false)),
        mn::VSUBPD => Some(FloatForm::BinVex(FloatBinOp::Sub, FPrec::F64, false)),
        mn::VMULSS => Some(FloatForm::BinVex(FloatBinOp::Mul, FPrec::F32, true)),
        mn::VMULSD => Some(FloatForm::BinVex(FloatBinOp::Mul, FPrec::F64, true)),
        mn::VMULPS => Some(FloatForm::BinVex(FloatBinOp::Mul, FPrec::F32, false)),
        mn::VMULPD => Some(FloatForm::BinVex(FloatBinOp::Mul, FPrec::F64, false)),
        mn::VDIVSS => Some(FloatForm::BinVex(FloatBinOp::Div, FPrec::F32, true)),
        mn::VDIVSD => Some(FloatForm::BinVex(FloatBinOp::Div, FPrec::F64, true)),
        mn::VDIVPS => Some(FloatForm::BinVex(FloatBinOp::Div, FPrec::F32, false)),
        mn::VDIVPD => Some(FloatForm::BinVex(FloatBinOp::Div, FPrec::F64, false)),
        mn::VMINSS => Some(FloatForm::BinVex(FloatBinOp::Min, FPrec::F32, true)),
        mn::VMINSD => Some(FloatForm::BinVex(FloatBinOp::Min, FPrec::F64, true)),
        mn::VMINPS => Some(FloatForm::BinVex(FloatBinOp::Min, FPrec::F32, false)),
        mn::VMINPD => Some(FloatForm::BinVex(FloatBinOp::Min, FPrec::F64, false)),
        mn::VMAXSS => Some(FloatForm::BinVex(FloatBinOp::Max, FPrec::F32, true)),
        mn::VMAXSD => Some(FloatForm::BinVex(FloatBinOp::Max, FPrec::F64, true)),
        mn::VMAXPS => Some(FloatForm::BinVex(FloatBinOp::Max, FPrec::F32, false)),
        mn::VMAXPD => Some(FloatForm::BinVex(FloatBinOp::Max, FPrec::F64, false)),
        mn::SQRTSS => Some(FloatForm::Unary(FloatUnOp::Sqrt, FPrec::F32, true)),
        mn::SQRTSD => Some(FloatForm::Unary(FloatUnOp::Sqrt, FPrec::F64, true)),
        mn::VSQRTSS => Some(FloatForm::UnaryVex(FloatUnOp::Sqrt, FPrec::F32)),
        mn::VSQRTSD => Some(FloatForm::UnaryVex(FloatUnOp::Sqrt, FPrec::F64)),
        mn::VRSQRTSS => Some(FloatForm::UnaryVex(FloatUnOp::Rsqrt, FPrec::F32)),
        mn::VRCPSS => Some(FloatForm::UnaryVex(FloatUnOp::Rcp, FPrec::F32)),
        mn::VFMADD132SS => Some(FloatForm::Fma(132, FPrec::F32, true, false, false)),
        mn::VFMADD132SD => Some(FloatForm::Fma(132, FPrec::F64, true, false, false)),
        mn::VFMADD132PS => Some(FloatForm::Fma(132, FPrec::F32, false, false, false)),
        mn::VFMADD132PD => Some(FloatForm::Fma(132, FPrec::F64, false, false, false)),
        mn::VFMADD213SS => Some(FloatForm::Fma(213, FPrec::F32, true, false, false)),
        mn::VFMADD213SD => Some(FloatForm::Fma(213, FPrec::F64, true, false, false)),
        mn::VFMADD213PS => Some(FloatForm::Fma(213, FPrec::F32, false, false, false)),
        mn::VFMADD213PD => Some(FloatForm::Fma(213, FPrec::F64, false, false, false)),
        mn::VFMADD231SS => Some(FloatForm::Fma(231, FPrec::F32, true, false, false)),
        mn::VFMADD231SD => Some(FloatForm::Fma(231, FPrec::F64, true, false, false)),
        mn::VFMADD231PS => Some(FloatForm::Fma(231, FPrec::F32, false, false, false)),
        mn::VFMADD231PD => Some(FloatForm::Fma(231, FPrec::F64, false, false, false)),
        mn::VFMSUB132SS => Some(FloatForm::Fma(132, FPrec::F32, true, false, true)),
        mn::VFMSUB132SD => Some(FloatForm::Fma(132, FPrec::F64, true, false, true)),
        mn::VFMSUB132PS => Some(FloatForm::Fma(132, FPrec::F32, false, false, true)),
        mn::VFMSUB132PD => Some(FloatForm::Fma(132, FPrec::F64, false, false, true)),
        mn::VFMSUB213SS => Some(FloatForm::Fma(213, FPrec::F32, true, false, true)),
        mn::VFMSUB213SD => Some(FloatForm::Fma(213, FPrec::F64, true, false, true)),
        mn::VFMSUB213PS => Some(FloatForm::Fma(213, FPrec::F32, false, false, true)),
        mn::VFMSUB213PD => Some(FloatForm::Fma(213, FPrec::F64, false, false, true)),
        mn::VFMSUB231SS => Some(FloatForm::Fma(231, FPrec::F32, true, false, true)),
        mn::VFMSUB231SD => Some(FloatForm::Fma(231, FPrec::F64, true, false, true)),
        mn::VFMSUB231PS => Some(FloatForm::Fma(231, FPrec::F32, false, false, true)),
        mn::VFMSUB231PD => Some(FloatForm::Fma(231, FPrec::F64, false, false, true)),
        mn::VFNMADD132SS => Some(FloatForm::Fma(132, FPrec::F32, true, true, false)),
        mn::VFNMADD132SD => Some(FloatForm::Fma(132, FPrec::F64, true, true, false)),
        mn::VFNMADD132PS => Some(FloatForm::Fma(132, FPrec::F32, false, true, false)),
        mn::VFNMADD132PD => Some(FloatForm::Fma(132, FPrec::F64, false, true, false)),
        mn::VFNMADD213SS => Some(FloatForm::Fma(213, FPrec::F32, true, true, false)),
        mn::VFNMADD213SD => Some(FloatForm::Fma(213, FPrec::F64, true, true, false)),
        mn::VFNMADD213PS => Some(FloatForm::Fma(213, FPrec::F32, false, true, false)),
        mn::VFNMADD213PD => Some(FloatForm::Fma(213, FPrec::F64, false, true, false)),
        mn::VFNMADD231SS => Some(FloatForm::Fma(231, FPrec::F32, true, true, false)),
        mn::VFNMADD231SD => Some(FloatForm::Fma(231, FPrec::F64, true, true, false)),
        mn::VFNMADD231PS => Some(FloatForm::Fma(231, FPrec::F32, false, true, false)),
        mn::VFNMADD231PD => Some(FloatForm::Fma(231, FPrec::F64, false, true, false)),
        mn::VFNMSUB132SS => Some(FloatForm::Fma(132, FPrec::F32, true, true, true)),
        mn::VFNMSUB132SD => Some(FloatForm::Fma(132, FPrec::F64, true, true, true)),
        mn::VFNMSUB132PS => Some(FloatForm::Fma(132, FPrec::F32, false, true, true)),
        mn::VFNMSUB132PD => Some(FloatForm::Fma(132, FPrec::F64, false, true, true)),
        mn::VFNMSUB213SS => Some(FloatForm::Fma(213, FPrec::F32, true, true, true)),
        mn::VFNMSUB213SD => Some(FloatForm::Fma(213, FPrec::F64, true, true, true)),
        mn::VFNMSUB213PS => Some(FloatForm::Fma(213, FPrec::F32, false, true, true)),
        mn::VFNMSUB213PD => Some(FloatForm::Fma(213, FPrec::F64, false, true, true)),
        mn::VFNMSUB231SS => Some(FloatForm::Fma(231, FPrec::F32, true, true, true)),
        mn::VFNMSUB231SD => Some(FloatForm::Fma(231, FPrec::F64, true, true, true)),
        mn::VFNMSUB231PS => Some(FloatForm::Fma(231, FPrec::F32, false, true, true)),
        mn::VFNMSUB231PD => Some(FloatForm::Fma(231, FPrec::F64, false, true, true)),
        mn::SQRTPS => Some(FloatForm::Unary(FloatUnOp::Sqrt, FPrec::F32, false)),
        mn::SQRTPD => Some(FloatForm::Unary(FloatUnOp::Sqrt, FPrec::F64, false)),
        _ => None,
    }
}

pub open spec fn spec_convert_form(m: u16) -> Option<ConvertForm> {
    match m {
        mn::ROUNDPS => Some(ConvertForm::Round(FPrec::F32, false)),
        mn::ROUNDPD => Some(ConvertForm::Round(FPrec::F64, false)),
        mn::ROUNDSS => Some(ConvertForm::Round(FPrec::F32, true)),
        mn::ROUNDSD => Some(ConvertForm::Round(FPrec::F64, true)),
        mn::VRNDSCALESS => Some(ConvertForm::RoundScale(FPrec::F32)),
        mn::VRNDSCALESD => Some(ConvertForm::RoundScale(FPrec::F64)),
        mn::CVTSI2SS => Some(ConvertForm::FromInt(FPrec::F32)),
        mn::CVTSI2SD => Some(ConvertForm::FromInt(FPrec::F64)),
        mn::VCVTSI2SS => Some(ConvertForm::FromIntVex(FPrec::F32, true)),
        mn::VCVTSI2SD => Some(ConvertForm::FromIntVex(FPrec::F64, true)),
        mn::VCVTUSI2SS => Some(ConvertForm::FromIntVex(FPrec::F32, false)),
        mn::VCVTUSI2SD => Some(ConvertForm::FromIntVex(FPrec::F64, false)),
        mn::CVTTSS2SI | mn::VCVTTSS2SI => Some(ConvertForm::ToInt(FPrec::F32, true, true)),
        mn::CVTSS2SI | mn::VCVTSS2SI => Some(ConvertForm::ToInt(FPrec::F32, false, true)),
        mn::CVTTSD2SI | mn::VCVTTSD2SI => Some(ConvertForm::ToInt(FPrec::F64, true, true)),
        mn::CVTSD2SI | mn::VCVTSD2SI => Some(ConvertForm::ToInt(FPrec::F64, false, true)),
        mn::VCVTTSS2USI => Some(ConvertForm::ToInt(FPrec::F32, true, false)),
        mn::VCVTSS2USI => Some(ConvertForm::ToInt(FPrec::F32, false, false)),
        mn::VCVTTSD2USI => Some(ConvertForm::ToInt(FPrec::F64, true, false)),
        mn::VCVTSD2USI => Some(ConvertForm::ToInt(FPrec::F64, false, false)),
        mn::CVTSS2SD => Some(ConvertForm::Float(FPrec::F32, FPrec::F64)),
        mn::CVTSD2SS => Some(ConvertForm::Float(FPrec::F64, FPrec::F32)),
        mn::VCVTSS2SD => Some(ConvertForm::FloatVex(FPrec::F32, FPrec::F64)),
        mn::VCVTSD2SS => Some(ConvertForm::FloatVex(FPrec::F64, FPrec::F32)),
        _ => None,
    }
}

/// Conversions and roundings of floats.
#[verifier::when_used_as_spec(spec_convert_form)]
pub fn convert_form(m: u16) -> (r: Option<ConvertForm>)
    ensures
        r == spec_convert_form(m),
{
    match m {
        mn::ROUNDPS => Some(ConvertForm::Round(FPrec::F32, false)),
        mn::ROUNDPD => Some(ConvertForm::Round(FPrec::F64, false)),
        mn::ROUNDSS => Some(ConvertForm::Round(FPrec::F32, true)),
        mn::ROUNDSD => Some(ConvertForm::Round(FPrec::F64, true)),
        mn::VRNDSCALESS => Some(ConvertForm::RoundScale(FPrec::F32)),
        mn::VRNDSCALESD => Some(ConvertForm::RoundScale(FPrec::F64)),
        mn::CVTSI2SS => Some(ConvertForm::FromInt(FPrec::F32)),
        mn::CVTSI2SD => Some(ConvertForm::FromInt(FPrec::F64)),
        mn::VCVTSI2SS => Some(ConvertForm::FromIntVex(FPrec::F32, true)),
        mn::VCVTSI2SD => Some(ConvertForm::FromIntVex(FPrec::F64, true)),
        mn::VCVTUSI2SS => Some(ConvertForm::FromIntVex(FPrec::F32, false)),
        mn::VCVTUSI2SD => Some(ConvertForm::FromIntVex(FPrec::F64, false)),
        mn::CVTTSS2SI | mn::VCVTTSS2SI => Some(ConvertForm::ToInt(FPrec::F32, true, true)),
        mn::CVTSS2SI | mn::VCVTSS2SI => Some(ConvertForm::ToInt(FPrec::F32, false, true)),
        mn::CVTTSD2SI | mn::VCVTTSD2SI => Some(ConvertForm::ToInt(FPrec::F64, true, true)),
        mn::CVTSD2SI | mn::VCVTSD2SI => Some(ConvertForm::ToInt(FPrec::F64, false, true)),
        mn::VCVTTSS2USI => Some(ConvertForm::ToInt(FPrec::F32, true, false)),
        mn::VCVTSS2USI => Some(ConvertForm::ToInt(FPrec::F32, false, false)),
        mn::VCVTTSD2USI => Some(ConvertForm::ToInt(FPrec::F64, true, false)),
        mn::VCVTSD2USI => Some(ConvertForm::ToInt(FPrec::F64, false, false)),
        mn::CVTSS2SD => Some(ConvertForm::Float(FPrec::F32, FPrec::F64)),
        mn::CVTSD2SS => Some(ConvertForm::Float(FPrec::F64, FPrec::F32)),
        mn::VCVTSS2SD => Some(ConvertForm::FloatVex(FPrec::F32, FPrec::F64)),
        mn::VCVTSD2SS => Some(ConvertForm::FloatVex(FPrec::F64, FPrec::F32)),
        _ => None,
    }
}

/// The form of a mnemonic, where the lift handles it. Any other instruction is refused as not
/// supported, also where the intermediate representation has an operation that could stand for
/// it. Of the vector extensions these are among the refused:
///
/// * horizontal and alternating arithmetic: `addsubpd`, `addsubps`, `haddpd`, `haddps`,
///   `hsubpd`, `hsubps`, `phaddd`, `phaddsw`, `phaddw`, `phsubd`, `phsubsw`, `phsubw`,
///   `vaddsubpd`, `vaddsubps`, `vhaddpd`, `vhaddps`, `vhsubpd`, `vhsubps`, `vphaddd`,
///   `vphaddsw`, `vphaddw`, `vphsubd`, `vphsubsw`, `vphsubw`
/// * sums of products, of differences and dot products: `dppd`, `dpps`, `pmaddubsw`,
///   `pmaddwd`, `psadbw`, `vdppd`, `vdpps`, `vpmaddubsw`, `vpmaddwd`, `vpsadbw`
/// * blends, inserts, doubled elements and halves: `blendpd`, `blendps`, `insertps`,
///   `movddup`, `movshdup`, `movsldup`, `vblendpd`, `vblendps`, `vblendvpd`, `vblendvps`,
///   `vinsertps`, `vmovddup`, `vmovhlps`, `vmovlhps`, `vmovshdup`, `vmovsldup`, `vpblendd`,
///   `vpblendmd`, `vpblendmq`, `vpblendvb`
/// * signed packs: `packssdw`, `packsswb`
/// * carry-less products: `pclmulqdq`, `vpclmulqdq`
/// * string comparisons to a mask: `pcmpestrm`, `pcmpistrm`, `vpcmpestrm`, `vpcmpistrm`
/// * packed conversions: `cvtdq2pd`, `cvtdq2ps`, `cvtpd2dq`, `cvtpd2ps`, `cvtps2dq`,
///   `cvtps2pd`, `cvttpd2dq`, `cvttps2dq`, `vcvtdq2pd`, `vcvtdq2ps`, `vcvtpd2dq`,
///   `vcvtpd2ps`, `vcvtps2dq`, `vcvtps2pd`, `vcvttpd2dq`, `vcvttps2dq`
/// * comparisons, roots, approximations and rounding of floats by VEX or EVEX: `vcmppd`,
///   `vcmpps`, `vcmpsd`, `vcmpss`, `vrcpps`, `vroundpd`, `vroundps`, `vroundsd`, `vroundss`,
///   `vrsqrtps`, `vsqrtpd`, `vsqrtps`
/// * fused multiplications that add and subtract in turn: `vfmaddsub132pd`, `vfmaddsub132ps`,
///   `vfmaddsub213pd`, `vfmaddsub213ps`, `vfmaddsub231pd`, `vfmaddsub231ps`,
///   `vfmsubadd132pd`, `vfmsubadd132ps`, `vfmsubadd213pd`, `vfmsubadd213ps`,
///   `vfmsubadd231pd`, `vfmsubadd231ps`
/// * broadcasts of more than one element: `vbroadcastf128`, `vbroadcastf32x2`,
///   `vbroadcastf32x4`, `vbroadcastf32x8`, `vbroadcastf64x2`, `vbroadcastf64x4`,
///   `vbroadcasti128`, `vbroadcasti32x2`, `vbroadcasti32x4`, `vbroadcasti32x8`,
///   `vbroadcasti64x2`, `vbroadcasti64x4`
/// * masked moves: `vmaskmovpd`, `vmaskmovps`
/// * shuffles and permutations: `vpermilpd`, `vpermilps`, `vshuff32x4`, `vshuff64x2`,
///   `vshufpd`, `vshufps`
/// * shifts and rotations by a count per element, and of bytes: `vpmultishiftqb`, `vprold`,
///   `vprolq`, `vpsllvd`, `vpsllvq`, `vpsllvw`, `vpsravd`, `vpsravq`, `vpsravw`, `vpsrlvd`,
///   `vpsrlvq`, `vpsrlvw`
/// * counts and conflicts per element: `vpconflictd`, `vpconflictq`, `vplzcntd`, `vplzcntq`
#[verifier::opaque]
pub open spec fn form_of(m: u16) -> Option<Form> {
    if int_form(m) is Some {
        Some(Form::Int(int_form(m)->0))
    } else if control_form(m) is Some {
        Some(Form::Control(control_form(m)->0))
    } else if move_form(m) is Some {
        Some(Form::Move(move_form(m)->0))
    } else if packed_form(m) is Some {
        Some(Form::Packed(packed_form(m)->0))
    } else if shuffle_form(m) is Some {
        Some(Form::Shuffle(shuffle_form(m)->0))
    } else if mask_form(m) is Some {
        Some(Form::Mask(mask_form(m)->0))
    } else if crypto_form(m) is Some {
        Some(Form::Crypto(crypto_form(m)->0))
    } else if float_form(m) is Some {
        Some(Form::Float(float_form(m)->0))
    } else if convert_form(m) is Some {
        Some(Form::Convert(convert_form(m)->0))
    } else {
        None
    }
}

/// Looks a mnemonic up.
pub fn classify(m: u16) -> (r: Option<Form>)
    ensures
        r == form_of(m),
{
    reveal(form_of);
    if let Some(f) = int_form(m) {
        return Some(Form::Int(f));
    }
    if let Some(f) = control_form(m) {
        return Some(Form::Control(f));
    }
    if let Some(f) = move_form(m) {
        return Some(Form::Move(f));
    }
    if let Some(f) = packed_form(m) {
        return Some(Form::Packed(f));
    }
    if let Some(f) = shuffle_form(m) {
        return Some(Form::Shuffle(f));
    }
    if let Some(f) = mask_form(m) {
        return Some(Form::Mask(f));
    }
    if let Some(f) = crypto_form(m) {
        return Some(Form::Crypto(f));
    }
    if let Some(f) = float_form(m) {
        return Some(Form::Float(f));
    }
    if let Some(f) = convert_form(m) {
        return Some(Form::Convert(f));
    }
    None
}

} // verus!
