//! The numbers of mnemonics, encodings, operand kinds and registers are the decoder's own.
use iced_x86::{Code, Mnemonic, OpKind, Register};
use x86jit_core::lift::table::classify;
use x86jit_core::{code, mnemonic, op_kind, register};

#[test]
fn mnemonic_numbers() {
    let table = [
        (mnemonic::ADC, Mnemonic::Adc),
        (mnemonic::ADD, Mnemonic::Add),
        (mnemonic::ADDPD, Mnemonic::Addpd),
        (mnemonic::ADDPS, Mnemonic::Addps),
        (mnemonic::ADDSD, Mnemonic::Addsd),
        (mnemonic::ADDSS, Mnemonic::Addss),
        (mnemonic::AESDEC, Mnemonic::Aesdec),
        (mnemonic::AESDECLAST, Mnemonic::Aesdeclast),
        (mnemonic::AESENC, Mnemonic::Aesenc),
        (mnemonic::AESENCLAST, Mnemonic::Aesenclast),
        (mnemonic::AESIMC, Mnemonic::Aesimc),
        (mnemonic::AESKEYGENASSIST, Mnemonic::Aeskeygenassist),
        (mnemonic::AND, Mnemonic::And),
        (mnemonic::ANDN, Mnemonic::Andn),
        (mnemonic::ANDNPD, Mnemonic::Andnpd),
        (mnemonic::ANDNPS, Mnemonic::Andnps),
        (mnemonic::ANDPD, Mnemonic::Andpd),
        (mnemonic::ANDPS, Mnemonic::Andps),
        (mnemonic::BEXTR, Mnemonic::Bextr),
        (mnemonic::BLENDVPD, Mnemonic::Blendvpd),
        (mnemonic::BLENDVPS, Mnemonic::Blendvps),
        (mnemonic::BLSI, Mnemonic::Blsi),
        (mnemonic::BLSMSK, Mnemonic::Blsmsk),
        (mnemonic::BLSR, Mnemonic::Blsr),
        (mnemonic::BSF, Mnemonic::Bsf),
        (mnemonic::BSR, Mnemonic::Bsr),
        (mnemonic::BSWAP, Mnemonic::Bswap),
        (mnemonic::BT, Mnemonic::Bt),
        (mnemonic::BTC, Mnemonic::Btc),
        (mnemonic::BTR, Mnemonic::Btr),
        (mnemonic::BTS, Mnemonic::Bts),
        (mnemonic::BZHI, Mnemonic::Bzhi),
        (mnemonic::CALL, Mnemonic::Call),
        (mnemonic::CBW, Mnemonic::Cbw),
        (mnemonic::CDQ, Mnemonic::Cdq),
        (mnemonic::CDQE, Mnemonic::Cdqe),
        (mnemonic::CLD, Mnemonic::Cld),
        (mnemonic::CMOVA, Mnemonic::Cmova),
        (mnemonic::CMOVAE, Mnemonic::Cmovae),
        (mnemonic::CMOVB, Mnemonic::Cmovb),
        (mnemonic::CMOVBE, Mnemonic::Cmovbe),
        (mnemonic::CMOVE, Mnemonic::Cmove),
        (mnemonic::CMOVG, Mnemonic::Cmovg),
        (mnemonic::CMOVGE, Mnemonic::Cmovge),
        (mnemonic::CMOVL, Mnemonic::Cmovl),
        (mnemonic::CMOVLE, Mnemonic::Cmovle),
        (mnemonic::CMOVNE, Mnemonic::Cmovne),
        (mnemonic::CMOVNO, Mnemonic::Cmovno),
        (mnemonic::CMOVNP, Mnemonic::Cmovnp),
        (mnemonic::CMOVNS, Mnemonic::Cmovns),
        (mnemonic::CMOVO, Mnemonic::Cmovo),
        (mnemonic::CMOVP, Mnemonic::Cmovp),
        (mnemonic::CMOVS, Mnemonic::Cmovs),
        (mnemonic::CMP, Mnemonic::Cmp),
        (mnemonic::CMPPD, Mnemonic::Cmppd),
        (mnemonic::CMPPS, Mnemonic::Cmpps),
        (mnemonic::CMPSB, Mnemonic::Cmpsb),
        (mnemonic::CMPSD, Mnemonic::Cmpsd),
        (mnemonic::CMPSQ, Mnemonic::Cmpsq),
        (mnemonic::CMPSS, Mnemonic::Cmpss),
        (mnemonic::CMPSW, Mnemonic::Cmpsw),
        (mnemonic::CMPXCHG, Mnemonic::Cmpxchg),
        (mnemonic::COMISD, Mnemonic::Comisd),
        (mnemonic::COMISS, Mnemonic::Comiss),
        (mnemonic::CPUID, Mnemonic::Cpuid),
        (mnemonic::CQO, Mnemonic::Cqo),
        (mnemonic::CRC32, Mnemonic::Crc32),
        (mnemonic::CVTSD2SI, Mnemonic::Cvtsd2si),
        (mnemonic::CVTSD2SS, Mnemonic::Cvtsd2ss),
        (mnemonic::CVTSI2SD, Mnemonic::Cvtsi2sd),
        (mnemonic::CVTSI2SS, Mnemonic::Cvtsi2ss),
        (mnemonic::CVTSS2SD, Mnemonic::Cvtss2sd),
        (mnemonic::CVTSS2SI, Mnemonic::Cvtss2si),
        (mnemonic::CVTTSD2SI, Mnemonic::Cvttsd2si),
        (mnemonic::CVTTSS2SI, Mnemonic::Cvttss2si),
        (mnemonic::CWD, Mnemonic::Cwd),
        (mnemonic::CWDE, Mnemonic::Cwde),
        (mnemonic::DEC, Mnemonic::Dec),
        (mnemonic::DIV, Mnemonic::Div),
        (mnemonic::DIVPD, Mnemonic::Divpd),
        (mnemonic::DIVPS, Mnemonic::Divps),
        (mnemonic::DIVSD, Mnemonic::Divsd),
        (mnemonic::DIVSS, Mnemonic::Divss),
        (mnemonic::EMMS, Mnemonic::Emms),
        (mnemonic::ENDBR32, Mnemonic::Endbr32),
        (mnemonic::ENDBR64, Mnemonic::Endbr64),
        (mnemonic::F2XM1, Mnemonic::F2xm1),
        (mnemonic::FABS, Mnemonic::Fabs),
        (mnemonic::FADD, Mnemonic::Fadd),
        (mnemonic::FADDP, Mnemonic::Faddp),
        (mnemonic::FCHS, Mnemonic::Fchs),
        (mnemonic::FCOMI, Mnemonic::Fcomi),
        (mnemonic::FCOMIP, Mnemonic::Fcomip),
        (mnemonic::FCOS, Mnemonic::Fcos),
        (mnemonic::FDIV, Mnemonic::Fdiv),
        (mnemonic::FDIVP, Mnemonic::Fdivp),
        (mnemonic::FDIVR, Mnemonic::Fdivr),
        (mnemonic::FDIVRP, Mnemonic::Fdivrp),
        (mnemonic::FEMMS, Mnemonic::Femms),
        (mnemonic::FILD, Mnemonic::Fild),
        (mnemonic::FISTP, Mnemonic::Fistp),
        (mnemonic::FISTTP, Mnemonic::Fisttp),
        (mnemonic::FLD, Mnemonic::Fld),
        (mnemonic::FLD1, Mnemonic::Fld1),
        (mnemonic::FLDCW, Mnemonic::Fldcw),
        (mnemonic::FLDZ, Mnemonic::Fldz),
        (mnemonic::FMUL, Mnemonic::Fmul),
        (mnemonic::FMULP, Mnemonic::Fmulp),
        (mnemonic::FNSTCW, Mnemonic::Fnstcw),
        (mnemonic::FNSTSW, Mnemonic::Fnstsw),
        (mnemonic::FPATAN, Mnemonic::Fpatan),
        (mnemonic::FPREM, Mnemonic::Fprem),
        (mnemonic::FPTAN, Mnemonic::Fptan),
        (mnemonic::FSIN, Mnemonic::Fsin),
        (mnemonic::FSINCOS, Mnemonic::Fsincos),
        (mnemonic::FST, Mnemonic::Fst),
        (mnemonic::FSTP, Mnemonic::Fstp),
        (mnemonic::FSUB, Mnemonic::Fsub),
        (mnemonic::FSUBP, Mnemonic::Fsubp),
        (mnemonic::FSUBR, Mnemonic::Fsubr),
        (mnemonic::FSUBRP, Mnemonic::Fsubrp),
        (mnemonic::FUCOMI, Mnemonic::Fucomi),
        (mnemonic::FUCOMIP, Mnemonic::Fucomip),
        (mnemonic::FXCH, Mnemonic::Fxch),
        (mnemonic::FXRSTOR, Mnemonic::Fxrstor),
        (mnemonic::FXRSTOR64, Mnemonic::Fxrstor64),
        (mnemonic::FXSAVE, Mnemonic::Fxsave),
        (mnemonic::FXSAVE64, Mnemonic::Fxsave64),
        (mnemonic::FYL2X, Mnemonic::Fyl2x),
        (mnemonic::FYL2XP1, Mnemonic::Fyl2xp1),
        (mnemonic::GF2P8AFFINEINVQB, Mnemonic::Gf2p8affineinvqb),
        (mnemonic::GF2P8AFFINEQB, Mnemonic::Gf2p8affineqb),
        (mnemonic::GF2P8MULB, Mnemonic::Gf2p8mulb),
        (mnemonic::HLT, Mnemonic::Hlt),
        (mnemonic::IDIV, Mnemonic::Idiv),
        (mnemonic::IMUL, Mnemonic::Imul),
        (mnemonic::IN, Mnemonic::In),
        (mnemonic::INC, Mnemonic::Inc),
        (mnemonic::INT, Mnemonic::Int),
        (mnemonic::INT1, Mnemonic::Int1),
        (mnemonic::JA, Mnemonic::Ja),
        (mnemonic::JAE, Mnemonic::Jae),
        (mnemonic::JB, Mnemonic::Jb),
        (mnemonic::JBE, Mnemonic::Jbe),
        (mnemonic::JE, Mnemonic::Je),
        (mnemonic::JG, Mnemonic::Jg),
        (mnemonic::JGE, Mnemonic::Jge),
        (mnemonic::JL, Mnemonic::Jl),
        (mnemonic::JLE, Mnemonic::Jle),
        (mnemonic::JMP, Mnemonic::Jmp),
        (mnemonic::JNE, Mnemonic::Jne),
        (mnemonic::JNO, Mnemonic::Jno),
        (mnemonic::JNP, Mnemonic::Jnp),
        (mnemonic::JNS, Mnemonic::Jns),
        (mnemonic::JO, Mnemonic::Jo),
        (mnemonic::JP, Mnemonic::Jp),
        (mnemonic::JS, Mnemonic::Js),
        (mnemonic::KANDB, Mnemonic::Kandb),
        (mnemonic::KANDD, Mnemonic::Kandd),
        (mnemonic::KANDNB, Mnemonic::Kandnb),
        (mnemonic::KANDND, Mnemonic::Kandnd),
        (mnemonic::KANDNQ, Mnemonic::Kandnq),
        (mnemonic::KANDNW, Mnemonic::Kandnw),
        (mnemonic::KANDQ, Mnemonic::Kandq),
        (mnemonic::KANDW, Mnemonic::Kandw),
        (mnemonic::KMOVB, Mnemonic::Kmovb),
        (mnemonic::KMOVD, Mnemonic::Kmovd),
        (mnemonic::KMOVQ, Mnemonic::Kmovq),
        (mnemonic::KMOVW, Mnemonic::Kmovw),
        (mnemonic::KNOTB, Mnemonic::Knotb),
        (mnemonic::KNOTD, Mnemonic::Knotd),
        (mnemonic::KNOTQ, Mnemonic::Knotq),
        (mnemonic::KNOTW, Mnemonic::Knotw),
        (mnemonic::KORB, Mnemonic::Korb),
        (mnemonic::KORD, Mnemonic::Kord),
        (mnemonic::KORQ, Mnemonic::Korq),
        (mnemonic::KORTESTB, Mnemonic::Kortestb),
        (mnemonic::KORTESTD, Mnemonic::Kortestd),
        (mnemonic::KORTESTQ, Mnemonic::Kortestq),
        (mnemonic::KORTESTW, Mnemonic::Kortestw),
        (mnemonic::KORW, Mnemonic::Korw),
        (mnemonic::KSHIFTLB, Mnemonic::Kshiftlb),
        (mnemonic::KSHIFTLD, Mnemonic::Kshiftld),
        (mnemonic::KSHIFTLQ, Mnemonic::Kshiftlq),
        (mnemonic::KSHIFTLW, Mnemonic::Kshiftlw),
        (mnemonic::KSHIFTRB, Mnemonic::Kshiftrb),
        (mnemonic::KSHIFTRD, Mnemonic::Kshiftrd),
        (mnemonic::KSHIFTRQ, Mnemonic::Kshiftrq),
        (mnemonic::KSHIFTRW, Mnemonic::Kshiftrw),
        (mnemonic::KUNPCKBW, Mnemonic::Kunpckbw),
        (mnemonic::KUNPCKDQ, Mnemonic::Kunpckdq),
        (mnemonic::KUNPCKWD, Mnemonic::Kunpckwd),
        (mnemonic::KXNORB, Mnemonic::Kxnorb),
        (mnemonic::KXNORD, Mnemonic::Kxnord),
        (mnemonic::KXNORQ, Mnemonic::Kxnorq),
        (mnemonic::KXNORW, Mnemonic::Kxnorw),
        (mnemonic::KXORB, Mnemonic::Kxorb),
        (mnemonic::KXORD, Mnemonic::Kxord),
        (mnemonic::KXORQ, Mnemonic::Kxorq),
        (mnemonic::KXORW, Mnemonic::Kxorw),
        (mnemonic::LDMXCSR, Mnemonic::Ldmxcsr),
        (mnemonic::LEA, Mnemonic::Lea),
        (mnemonic::LEAVE, Mnemonic::Leave),
        (mnemonic::LFENCE, Mnemonic::Lfence),
        (mnemonic::LODSB, Mnemonic::Lodsb),
        (mnemonic::LODSD, Mnemonic::Lodsd),
        (mnemonic::LODSQ, Mnemonic::Lodsq),
        (mnemonic::LODSW, Mnemonic::Lodsw),
        (mnemonic::LZCNT, Mnemonic::Lzcnt),
        (mnemonic::MAXPD, Mnemonic::Maxpd),
        (mnemonic::MAXPS, Mnemonic::Maxps),
        (mnemonic::MAXSD, Mnemonic::Maxsd),
        (mnemonic::MAXSS, Mnemonic::Maxss),
        (mnemonic::MFENCE, Mnemonic::Mfence),
        (mnemonic::MINPD, Mnemonic::Minpd),
        (mnemonic::MINPS, Mnemonic::Minps),
        (mnemonic::MINSD, Mnemonic::Minsd),
        (mnemonic::MINSS, Mnemonic::Minss),
        (mnemonic::MOV, Mnemonic::Mov),
        (mnemonic::MOVAPD, Mnemonic::Movapd),
        (mnemonic::MOVAPS, Mnemonic::Movaps),
        (mnemonic::MOVBE, Mnemonic::Movbe),
        (mnemonic::MOVD, Mnemonic::Movd),
        (mnemonic::MOVDQ2Q, Mnemonic::Movdq2q),
        (mnemonic::MOVDQA, Mnemonic::Movdqa),
        (mnemonic::MOVDQU, Mnemonic::Movdqu),
        (mnemonic::MOVHLPS, Mnemonic::Movhlps),
        (mnemonic::MOVHPD, Mnemonic::Movhpd),
        (mnemonic::MOVHPS, Mnemonic::Movhps),
        (mnemonic::MOVLHPS, Mnemonic::Movlhps),
        (mnemonic::MOVLPD, Mnemonic::Movlpd),
        (mnemonic::MOVLPS, Mnemonic::Movlps),
        (mnemonic::MOVMSKPD, Mnemonic::Movmskpd),
        (mnemonic::MOVMSKPS, Mnemonic::Movmskps),
        (mnemonic::MOVNTDQ, Mnemonic::Movntdq),
        (mnemonic::MOVNTDQA, Mnemonic::Movntdqa),
        (mnemonic::MOVNTI, Mnemonic::Movnti),
        (mnemonic::MOVNTPD, Mnemonic::Movntpd),
        (mnemonic::MOVNTPS, Mnemonic::Movntps),
        (mnemonic::MOVQ, Mnemonic::Movq),
        (mnemonic::MOVQ2DQ, Mnemonic::Movq2dq),
        (mnemonic::MOVSB, Mnemonic::Movsb),
        (mnemonic::MOVSD, Mnemonic::Movsd),
        (mnemonic::MOVSQ, Mnemonic::Movsq),
        (mnemonic::MOVSS, Mnemonic::Movss),
        (mnemonic::MOVSW, Mnemonic::Movsw),
        (mnemonic::MOVSX, Mnemonic::Movsx),
        (mnemonic::MOVSXD, Mnemonic::Movsxd),
        (mnemonic::MOVUPD, Mnemonic::Movupd),
        (mnemonic::MOVUPS, Mnemonic::Movups),
        (mnemonic::MOVZX, Mnemonic::Movzx),
        (mnemonic::MUL, Mnemonic::Mul),
        (mnemonic::MULPD, Mnemonic::Mulpd),
        (mnemonic::MULPS, Mnemonic::Mulps),
        (mnemonic::MULSD, Mnemonic::Mulsd),
        (mnemonic::MULSS, Mnemonic::Mulss),
        (mnemonic::MULX, Mnemonic::Mulx),
        (mnemonic::NEG, Mnemonic::Neg),
        (mnemonic::NOP, Mnemonic::Nop),
        (mnemonic::NOT, Mnemonic::Not),
        (mnemonic::OR, Mnemonic::Or),
        (mnemonic::ORPD, Mnemonic::Orpd),
        (mnemonic::ORPS, Mnemonic::Orps),
        (mnemonic::OUT, Mnemonic::Out),
        (mnemonic::PACKUSWB, Mnemonic::Packuswb),
        (mnemonic::PADDB, Mnemonic::Paddb),
        (mnemonic::PADDD, Mnemonic::Paddd),
        (mnemonic::PADDQ, Mnemonic::Paddq),
        (mnemonic::PADDSB, Mnemonic::Paddsb),
        (mnemonic::PADDSW, Mnemonic::Paddsw),
        (mnemonic::PADDUSB, Mnemonic::Paddusb),
        (mnemonic::PADDUSW, Mnemonic::Paddusw),
        (mnemonic::PADDW, Mnemonic::Paddw),
        (mnemonic::PALIGNR, Mnemonic::Palignr),
        (mnemonic::PAND, Mnemonic::Pand),
        (mnemonic::PANDN, Mnemonic::Pandn),
        (mnemonic::PAUSE, Mnemonic::Pause),
        (mnemonic::PAVGB, Mnemonic::Pavgb),
        (mnemonic::PAVGW, Mnemonic::Pavgw),
        (mnemonic::PBLENDVB, Mnemonic::Pblendvb),
        (mnemonic::PBLENDW, Mnemonic::Pblendw),
        (mnemonic::PCMPEQB, Mnemonic::Pcmpeqb),
        (mnemonic::PCMPEQD, Mnemonic::Pcmpeqd),
        (mnemonic::PCMPEQQ, Mnemonic::Pcmpeqq),
        (mnemonic::PCMPEQW, Mnemonic::Pcmpeqw),
        (mnemonic::PCMPESTRI, Mnemonic::Pcmpestri),
        (mnemonic::PCMPGTB, Mnemonic::Pcmpgtb),
        (mnemonic::PCMPGTD, Mnemonic::Pcmpgtd),
        (mnemonic::PCMPGTQ, Mnemonic::Pcmpgtq),
        (mnemonic::PCMPGTW, Mnemonic::Pcmpgtw),
        (mnemonic::PCMPISTRI, Mnemonic::Pcmpistri),
        (mnemonic::PDEP, Mnemonic::Pdep),
        (mnemonic::PEXT, Mnemonic::Pext),
        (mnemonic::PEXTRB, Mnemonic::Pextrb),
        (mnemonic::PEXTRD, Mnemonic::Pextrd),
        (mnemonic::PEXTRQ, Mnemonic::Pextrq),
        (mnemonic::PEXTRW, Mnemonic::Pextrw),
        (mnemonic::PINSRB, Mnemonic::Pinsrb),
        (mnemonic::PINSRD, Mnemonic::Pinsrd),
        (mnemonic::PINSRQ, Mnemonic::Pinsrq),
        (mnemonic::PINSRW, Mnemonic::Pinsrw),
        (mnemonic::PMAXSD, Mnemonic::Pmaxsd),
        (mnemonic::PMAXSW, Mnemonic::Pmaxsw),
        (mnemonic::PMAXUB, Mnemonic::Pmaxub),
        (mnemonic::PMAXUD, Mnemonic::Pmaxud),
        (mnemonic::PMINSD, Mnemonic::Pminsd),
        (mnemonic::PMINSW, Mnemonic::Pminsw),
        (mnemonic::PMINUB, Mnemonic::Pminub),
        (mnemonic::PMINUD, Mnemonic::Pminud),
        (mnemonic::PMOVMSKB, Mnemonic::Pmovmskb),
        (mnemonic::PMOVSXBD, Mnemonic::Pmovsxbd),
        (mnemonic::PMOVSXBQ, Mnemonic::Pmovsxbq),
        (mnemonic::PMOVSXBW, Mnemonic::Pmovsxbw),
        (mnemonic::PMOVSXDQ, Mnemonic::Pmovsxdq),
        (mnemonic::PMOVSXWD, Mnemonic::Pmovsxwd),
        (mnemonic::PMOVSXWQ, Mnemonic::Pmovsxwq),
        (mnemonic::PMOVZXBD, Mnemonic::Pmovzxbd),
        (mnemonic::PMOVZXBQ, Mnemonic::Pmovzxbq),
        (mnemonic::PMOVZXBW, Mnemonic::Pmovzxbw),
        (mnemonic::PMOVZXDQ, Mnemonic::Pmovzxdq),
        (mnemonic::PMOVZXWD, Mnemonic::Pmovzxwd),
        (mnemonic::PMOVZXWQ, Mnemonic::Pmovzxwq),
        (mnemonic::PMULDQ, Mnemonic::Pmuldq),
        (mnemonic::PMULHRSW, Mnemonic::Pmulhrsw),
        (mnemonic::PMULHUW, Mnemonic::Pmulhuw),
        (mnemonic::PMULHW, Mnemonic::Pmulhw),
        (mnemonic::PMULLD, Mnemonic::Pmulld),
        (mnemonic::PMULLW, Mnemonic::Pmullw),
        (mnemonic::PMULUDQ, Mnemonic::Pmuludq),
        (mnemonic::POP, Mnemonic::Pop),
        (mnemonic::POPCNT, Mnemonic::Popcnt),
        (mnemonic::POR, Mnemonic::Por),
        (mnemonic::PREFETCHNTA, Mnemonic::Prefetchnta),
        (mnemonic::PREFETCHT0, Mnemonic::Prefetcht0),
        (mnemonic::PREFETCHT1, Mnemonic::Prefetcht1),
        (mnemonic::PREFETCHT2, Mnemonic::Prefetcht2),
        (mnemonic::PREFETCHW, Mnemonic::Prefetchw),
        (mnemonic::PREFETCHWT1, Mnemonic::Prefetchwt1),
        (mnemonic::PSHUFB, Mnemonic::Pshufb),
        (mnemonic::PSHUFD, Mnemonic::Pshufd),
        (mnemonic::PSHUFHW, Mnemonic::Pshufhw),
        (mnemonic::PSHUFLW, Mnemonic::Pshuflw),
        (mnemonic::PSIGNB, Mnemonic::Psignb),
        (mnemonic::PSIGND, Mnemonic::Psignd),
        (mnemonic::PSIGNW, Mnemonic::Psignw),
        (mnemonic::PSLLD, Mnemonic::Pslld),
        (mnemonic::PSLLDQ, Mnemonic::Pslldq),
        (mnemonic::PSLLQ, Mnemonic::Psllq),
        (mnemonic::PSLLW, Mnemonic::Psllw),
        (mnemonic::PSRAD, Mnemonic::Psrad),
        (mnemonic::PSRAW, Mnemonic::Psraw),
        (mnemonic::PSRLD, Mnemonic::Psrld),
        (mnemonic::PSRLDQ, Mnemonic::Psrldq),
        (mnemonic::PSRLQ, Mnemonic::Psrlq),
        (mnemonic::PSRLW, Mnemonic::Psrlw),
        (mnemonic::PSUBB, Mnemonic::Psubb),
        (mnemonic::PSUBD, Mnemonic::Psubd),
        (mnemonic::PSUBQ, Mnemonic::Psubq),
        (mnemonic::PSUBSB, Mnemonic::Psubsb),
        (mnemonic::PSUBSW, Mnemonic::Psubsw),
        (mnemonic::PSUBUSB, Mnemonic::Psubusb),
        (mnemonic::PSUBUSW, Mnemonic::Psubusw),
        (mnemonic::PSUBW, Mnemonic::Psubw),
        (mnemonic::PTEST, Mnemonic::Ptest),
        (mnemonic::PUNPCKHBW, Mnemonic::Punpckhbw),
        (mnemonic::PUNPCKHDQ, Mnemonic::Punpckhdq),
        (mnemonic::PUNPCKHQDQ, Mnemonic::Punpckhqdq),
        (mnemonic::PUNPCKHWD, Mnemonic::Punpckhwd),
        (mnemonic::PUNPCKLBW, Mnemonic::Punpcklbw),
        (mnemonic::PUNPCKLDQ, Mnemonic::Punpckldq),
        (mnemonic::PUNPCKLQDQ, Mnemonic::Punpcklqdq),
        (mnemonic::PUNPCKLWD, Mnemonic::Punpcklwd),
        (mnemonic::PUSH, Mnemonic::Push),
        (mnemonic::PXOR, Mnemonic::Pxor),
        (mnemonic::RCL, Mnemonic::Rcl),
        (mnemonic::RCR, Mnemonic::Rcr),
        (mnemonic::RDSSPD, Mnemonic::Rdsspd),
        (mnemonic::RDSSPQ, Mnemonic::Rdsspq),
        (mnemonic::RDTSC, Mnemonic::Rdtsc),
        (mnemonic::RET, Mnemonic::Ret),
        (mnemonic::ROL, Mnemonic::Rol),
        (mnemonic::ROR, Mnemonic::Ror),
        (mnemonic::RORX, Mnemonic::Rorx),
        (mnemonic::ROUNDPD, Mnemonic::Roundpd),
        (mnemonic::ROUNDPS, Mnemonic::Roundps),
        (mnemonic::ROUNDSD, Mnemonic::Roundsd),
        (mnemonic::ROUNDSS, Mnemonic::Roundss),
        (mnemonic::SAL, Mnemonic::Sal),
        (mnemonic::SAR, Mnemonic::Sar),
        (mnemonic::SARX, Mnemonic::Sarx),
        (mnemonic::SBB, Mnemonic::Sbb),
        (mnemonic::SCASB, Mnemonic::Scasb),
        (mnemonic::SCASD, Mnemonic::Scasd),
        (mnemonic::SCASQ, Mnemonic::Scasq),
        (mnemonic::SCASW, Mnemonic::Scasw),
        (mnemonic::SETA, Mnemonic::Seta),
        (mnemonic::SETAE, Mnemonic::Setae),
        (mnemonic::SETB, Mnemonic::Setb),
        (mnemonic::SETBE, Mnemonic::Setbe),
        (mnemonic::SETE, Mnemonic::Sete),
        (mnemonic::SETG, Mnemonic::Setg),
        (mnemonic::SETGE, Mnemonic::Setge),
        (mnemonic::SETL, Mnemonic::Setl),
        (mnemonic::SETLE, Mnemonic::Setle),
        (mnemonic::SETNE, Mnemonic::Setne),
        (mnemonic::SETNO, Mnemonic::Setno),
        (mnemonic::SETNP, Mnemonic::Setnp),
        (mnemonic::SETNS, Mnemonic::Setns),
        (mnemonic::SETO, Mnemonic::Seto),
        (mnemonic::SETP, Mnemonic::Setp),
        (mnemonic::SETS, Mnemonic::Sets),
        (mnemonic::SFENCE, Mnemonic::Sfence),
        (mnemonic::SHA1MSG1, Mnemonic::Sha1msg1),
        (mnemonic::SHA1MSG2, Mnemonic::Sha1msg2),
        (mnemonic::SHA1NEXTE, Mnemonic::Sha1nexte),
        (mnemonic::SHA1RNDS4, Mnemonic::Sha1rnds4),
        (mnemonic::SHA256MSG1, Mnemonic::Sha256msg1),
        (mnemonic::SHA256MSG2, Mnemonic::Sha256msg2),
        (mnemonic::SHA256RNDS2, Mnemonic::Sha256rnds2),
        (mnemonic::SHL, Mnemonic::Shl),
        (mnemonic::SHLD, Mnemonic::Shld),
        (mnemonic::SHLX, Mnemonic::Shlx),
        (mnemonic::SHR, Mnemonic::Shr),
        (mnemonic::SHRD, Mnemonic::Shrd),
        (mnemonic::SHRX, Mnemonic::Shrx),
        (mnemonic::SHUFPD, Mnemonic::Shufpd),
        (mnemonic::SHUFPS, Mnemonic::Shufps),
        (mnemonic::SQRTPD, Mnemonic::Sqrtpd),
        (mnemonic::SQRTPS, Mnemonic::Sqrtps),
        (mnemonic::SQRTSD, Mnemonic::Sqrtsd),
        (mnemonic::SQRTSS, Mnemonic::Sqrtss),
        (mnemonic::STD, Mnemonic::Std),
        (mnemonic::STMXCSR, Mnemonic::Stmxcsr),
        (mnemonic::STOSB, Mnemonic::Stosb),
        (mnemonic::STOSD, Mnemonic::Stosd),
        (mnemonic::STOSQ, Mnemonic::Stosq),
        (mnemonic::STOSW, Mnemonic::Stosw),
        (mnemonic::SUB, Mnemonic::Sub),
        (mnemonic::SUBPD, Mnemonic::Subpd),
        (mnemonic::SUBPS, Mnemonic::Subps),
        (mnemonic::SUBSD, Mnemonic::Subsd),
        (mnemonic::SUBSS, Mnemonic::Subss),
        (mnemonic::SYSCALL, Mnemonic::Syscall),
        (mnemonic::TEST, Mnemonic::Test),
        (mnemonic::TZCNT, Mnemonic::Tzcnt),
        (mnemonic::UCOMISD, Mnemonic::Ucomisd),
        (mnemonic::UCOMISS, Mnemonic::Ucomiss),
        (mnemonic::UD2, Mnemonic::Ud2),
        (mnemonic::UNPCKHPD, Mnemonic::Unpckhpd),
        (mnemonic::UNPCKHPS, Mnemonic::Unpckhps),
        (mnemonic::UNPCKLPD, Mnemonic::Unpcklpd),
        (mnemonic::UNPCKLPS, Mnemonic::Unpcklps),
        (mnemonic::VADDPD, Mnemonic::Vaddpd),
        (mnemonic::VADDPS, Mnemonic::Vaddps),
        (mnemonic::VADDSD, Mnemonic::Vaddsd),
        (mnemonic::VADDSS, Mnemonic::Vaddss),
        (mnemonic::VAESDEC, Mnemonic::Vaesdec),
        (mnemonic::VAESDECLAST, Mnemonic::Vaesdeclast),
        (mnemonic::VAESENC, Mnemonic::Vaesenc),
        (mnemonic::VAESENCLAST, Mnemonic::Vaesenclast),
        (mnemonic::VAESIMC, Mnemonic::Vaesimc),
        (mnemonic::VAESKEYGENASSIST, Mnemonic::Vaeskeygenassist),
        (mnemonic::VALIGND, Mnemonic::Valignd),
        (mnemonic::VALIGNQ, Mnemonic::Valignq),
        (mnemonic::VANDNPD, Mnemonic::Vandnpd),
        (mnemonic::VANDNPS, Mnemonic::Vandnps),
        (mnemonic::VANDPD, Mnemonic::Vandpd),
        (mnemonic::VANDPS, Mnemonic::Vandps),
        (mnemonic::VBROADCASTSD, Mnemonic::Vbroadcastsd),
        (mnemonic::VBROADCASTSS, Mnemonic::Vbroadcastss),
        (mnemonic::VCOMISD, Mnemonic::Vcomisd),
        (mnemonic::VCOMISS, Mnemonic::Vcomiss),
        (mnemonic::VCVTSD2SI, Mnemonic::Vcvtsd2si),
        (mnemonic::VCVTSD2SS, Mnemonic::Vcvtsd2ss),
        (mnemonic::VCVTSD2USI, Mnemonic::Vcvtsd2usi),
        (mnemonic::VCVTSI2SD, Mnemonic::Vcvtsi2sd),
        (mnemonic::VCVTSI2SS, Mnemonic::Vcvtsi2ss),
        (mnemonic::VCVTSS2SD, Mnemonic::Vcvtss2sd),
        (mnemonic::VCVTSS2SI, Mnemonic::Vcvtss2si),
        (mnemonic::VCVTSS2USI, Mnemonic::Vcvtss2usi),
        (mnemonic::VCVTTSD2SI, Mnemonic::Vcvttsd2si),
        (mnemonic::VCVTTSD2USI, Mnemonic::Vcvttsd2usi),
        (mnemonic::VCVTTSS2SI, Mnemonic::Vcvttss2si),
        (mnemonic::VCVTTSS2USI, Mnemonic::Vcvttss2usi),
        (mnemonic::VCVTUSI2SD, Mnemonic::Vcvtusi2sd),
        (mnemonic::VCVTUSI2SS, Mnemonic::Vcvtusi2ss),
        (mnemonic::VDIVPD, Mnemonic::Vdivpd),
        (mnemonic::VDIVPS, Mnemonic::Vdivps),
        (mnemonic::VDIVSD, Mnemonic::Vdivsd),
        (mnemonic::VDIVSS, Mnemonic::Vdivss),
        (mnemonic::VEXTRACTF128, Mnemonic::Vextractf128),
        (mnemonic::VEXTRACTF32X4, Mnemonic::Vextractf32x4),
        (mnemonic::VEXTRACTF32X8, Mnemonic::Vextractf32x8),
        (mnemonic::VEXTRACTF64X2, Mnemonic::Vextractf64x2),
        (mnemonic::VEXTRACTF64X4, Mnemonic::Vextractf64x4),
        (mnemonic::VEXTRACTI128, Mnemonic::Vextracti128),
        (mnemonic::VEXTRACTI32X4, Mnemonic::Vextracti32x4),
        (mnemonic::VEXTRACTI32X8, Mnemonic::Vextracti32x8),
        (mnemonic::VEXTRACTI64X2, Mnemonic::Vextracti64x2),
        (mnemonic::VEXTRACTI64X4, Mnemonic::Vextracti64x4),
        (mnemonic::VEXTRACTPS, Mnemonic::Vextractps),
        (mnemonic::VFMADD132PD, Mnemonic::Vfmadd132pd),
        (mnemonic::VFMADD132PS, Mnemonic::Vfmadd132ps),
        (mnemonic::VFMADD132SD, Mnemonic::Vfmadd132sd),
        (mnemonic::VFMADD132SS, Mnemonic::Vfmadd132ss),
        (mnemonic::VFMADD213PD, Mnemonic::Vfmadd213pd),
        (mnemonic::VFMADD213PS, Mnemonic::Vfmadd213ps),
        (mnemonic::VFMADD213SD, Mnemonic::Vfmadd213sd),
        (mnemonic::VFMADD213SS, Mnemonic::Vfmadd213ss),
        (mnemonic::VFMADD231PD, Mnemonic::Vfmadd231pd),
        (mnemonic::VFMADD231PS, Mnemonic::Vfmadd231ps),
        (mnemonic::VFMADD231SD, Mnemonic::Vfmadd231sd),
        (mnemonic::VFMADD231SS, Mnemonic::Vfmadd231ss),
        (mnemonic::VFMSUB132PD, Mnemonic::Vfmsub132pd),
        (mnemonic::VFMSUB132PS, Mnemonic::Vfmsub132ps),
        (mnemonic::VFMSUB132SD, Mnemonic::Vfmsub132sd),
        (mnemonic::VFMSUB132SS, Mnemonic::Vfmsub132ss),
        (mnemonic::VFMSUB213PD, Mnemonic::Vfmsub213pd),
        (mnemonic::VFMSUB213PS, Mnemonic::Vfmsub213ps),
        (mnemonic::VFMSUB213SD, Mnemonic::Vfmsub213sd),
        (mnemonic::VFMSUB213SS, Mnemonic::Vfmsub213ss),
        (mnemonic::VFMSUB231PD, Mnemonic::Vfmsub231pd),
        (mnemonic::VFMSUB231PS, Mnemonic::Vfmsub231ps),
        (mnemonic::VFMSUB231SD, Mnemonic::Vfmsub231sd),
        (mnemonic::VFMSUB231SS, Mnemonic::Vfmsub231ss),
        (mnemonic::VFNMADD132PD, Mnemonic::Vfnmadd132pd),
        (mnemonic::VFNMADD132PS, Mnemonic::Vfnmadd132ps),
        (mnemonic::VFNMADD132SD, Mnemonic::Vfnmadd132sd),
        (mnemonic::VFNMADD132SS, Mnemonic::Vfnmadd132ss),
        (mnemonic::VFNMADD213PD, Mnemonic::Vfnmadd213pd),
        (mnemonic::VFNMADD213PS, Mnemonic::Vfnmadd213ps),
        (mnemonic::VFNMADD213SD, Mnemonic::Vfnmadd213sd),
        (mnemonic::VFNMADD213SS, Mnemonic::Vfnmadd213ss),
        (mnemonic::VFNMADD231PD, Mnemonic::Vfnmadd231pd),
        (mnemonic::VFNMADD231PS, Mnemonic::Vfnmadd231ps),
        (mnemonic::VFNMADD231SD, Mnemonic::Vfnmadd231sd),
        (mnemonic::VFNMADD231SS, Mnemonic::Vfnmadd231ss),
        (mnemonic::VFNMSUB132PD, Mnemonic::Vfnmsub132pd),
        (mnemonic::VFNMSUB132PS, Mnemonic::Vfnmsub132ps),
        (mnemonic::VFNMSUB132SD, Mnemonic::Vfnmsub132sd),
        (mnemonic::VFNMSUB132SS, Mnemonic::Vfnmsub132ss),
        (mnemonic::VFNMSUB213PD, Mnemonic::Vfnmsub213pd),
        (mnemonic::VFNMSUB213PS, Mnemonic::Vfnmsub213ps),
        (mnemonic::VFNMSUB213SD, Mnemonic::Vfnmsub213sd),
        (mnemonic::VFNMSUB213SS, Mnemonic::Vfnmsub213ss),
        (mnemonic::VFNMSUB231PD, Mnemonic::Vfnmsub231pd),
        (mnemonic::VFNMSUB231PS, Mnemonic::Vfnmsub231ps),
        (mnemonic::VFNMSUB231SD, Mnemonic::Vfnmsub231sd),
        (mnemonic::VFNMSUB231SS, Mnemonic::Vfnmsub231ss),
        (mnemonic::VGF2P8AFFINEINVQB, Mnemonic::Vgf2p8affineinvqb),
        (mnemonic::VGF2P8AFFINEQB, Mnemonic::Vgf2p8affineqb),
        (mnemonic::VGF2P8MULB, Mnemonic::Vgf2p8mulb),
        (mnemonic::VINSERTF128, Mnemonic::Vinsertf128),
        (mnemonic::VINSERTF32X4, Mnemonic::Vinsertf32x4),
        (mnemonic::VINSERTF32X8, Mnemonic::Vinsertf32x8),
        (mnemonic::VINSERTF64X2, Mnemonic::Vinsertf64x2),
        (mnemonic::VINSERTF64X4, Mnemonic::Vinsertf64x4),
        (mnemonic::VINSERTI128, Mnemonic::Vinserti128),
        (mnemonic::VINSERTI32X4, Mnemonic::Vinserti32x4),
        (mnemonic::VINSERTI32X8, Mnemonic::Vinserti32x8),
        (mnemonic::VINSERTI64X2, Mnemonic::Vinserti64x2),
        (mnemonic::VINSERTI64X4, Mnemonic::Vinserti64x4),
        (mnemonic::VLDMXCSR, Mnemonic::Vldmxcsr),
        (mnemonic::VMAXPD, Mnemonic::Vmaxpd),
        (mnemonic::VMAXPS, Mnemonic::Vmaxps),
        (mnemonic::VMAXSD, Mnemonic::Vmaxsd),
        (mnemonic::VMAXSS, Mnemonic::Vmaxss),
        (mnemonic::VMINPD, Mnemonic::Vminpd),
        (mnemonic::VMINPS, Mnemonic::Vminps),
        (mnemonic::VMINSD, Mnemonic::Vminsd),
        (mnemonic::VMINSS, Mnemonic::Vminss),
        (mnemonic::VMOVAPD, Mnemonic::Vmovapd),
        (mnemonic::VMOVAPS, Mnemonic::Vmovaps),
        (mnemonic::VMOVD, Mnemonic::Vmovd),
        (mnemonic::VMOVDQA, Mnemonic::Vmovdqa),
        (mnemonic::VMOVDQA32, Mnemonic::Vmovdqa32),
        (mnemonic::VMOVDQA64, Mnemonic::Vmovdqa64),
        (mnemonic::VMOVDQU, Mnemonic::Vmovdqu),
        (mnemonic::VMOVDQU16, Mnemonic::Vmovdqu16),
        (mnemonic::VMOVDQU32, Mnemonic::Vmovdqu32),
        (mnemonic::VMOVDQU64, Mnemonic::Vmovdqu64),
        (mnemonic::VMOVDQU8, Mnemonic::Vmovdqu8),
        (mnemonic::VMOVHPD, Mnemonic::Vmovhpd),
        (mnemonic::VMOVHPS, Mnemonic::Vmovhps),
        (mnemonic::VMOVLPD, Mnemonic::Vmovlpd),
        (mnemonic::VMOVLPS, Mnemonic::Vmovlps),
        (mnemonic::VMOVMSKPD, Mnemonic::Vmovmskpd),
        (mnemonic::VMOVMSKPS, Mnemonic::Vmovmskps),
        (mnemonic::VMOVNTDQ, Mnemonic::Vmovntdq),
        (mnemonic::VMOVNTDQA, Mnemonic::Vmovntdqa),
        (mnemonic::VMOVNTPD, Mnemonic::Vmovntpd),
        (mnemonic::VMOVNTPS, Mnemonic::Vmovntps),
        (mnemonic::VMOVQ, Mnemonic::Vmovq),
        (mnemonic::VMOVSD, Mnemonic::Vmovsd),
        (mnemonic::VMOVSS, Mnemonic::Vmovss),
        (mnemonic::VMOVUPD, Mnemonic::Vmovupd),
        (mnemonic::VMOVUPS, Mnemonic::Vmovups),
        (mnemonic::VMULPD, Mnemonic::Vmulpd),
        (mnemonic::VMULPS, Mnemonic::Vmulps),
        (mnemonic::VMULSD, Mnemonic::Vmulsd),
        (mnemonic::VMULSS, Mnemonic::Vmulss),
        (mnemonic::VORPD, Mnemonic::Vorpd),
        (mnemonic::VORPS, Mnemonic::Vorps),
        (mnemonic::VPABSB, Mnemonic::Vpabsb),
        (mnemonic::VPABSD, Mnemonic::Vpabsd),
        (mnemonic::VPABSQ, Mnemonic::Vpabsq),
        (mnemonic::VPABSW, Mnemonic::Vpabsw),
        (mnemonic::VPACKSSDW, Mnemonic::Vpackssdw),
        (mnemonic::VPACKSSWB, Mnemonic::Vpacksswb),
        (mnemonic::VPACKUSDW, Mnemonic::Vpackusdw),
        (mnemonic::VPACKUSWB, Mnemonic::Vpackuswb),
        (mnemonic::VPADDB, Mnemonic::Vpaddb),
        (mnemonic::VPADDD, Mnemonic::Vpaddd),
        (mnemonic::VPADDQ, Mnemonic::Vpaddq),
        (mnemonic::VPADDSB, Mnemonic::Vpaddsb),
        (mnemonic::VPADDSW, Mnemonic::Vpaddsw),
        (mnemonic::VPADDUSB, Mnemonic::Vpaddusb),
        (mnemonic::VPADDUSW, Mnemonic::Vpaddusw),
        (mnemonic::VPADDW, Mnemonic::Vpaddw),
        (mnemonic::VPALIGNR, Mnemonic::Vpalignr),
        (mnemonic::VPAND, Mnemonic::Vpand),
        (mnemonic::VPANDD, Mnemonic::Vpandd),
        (mnemonic::VPANDN, Mnemonic::Vpandn),
        (mnemonic::VPANDND, Mnemonic::Vpandnd),
        (mnemonic::VPANDNQ, Mnemonic::Vpandnq),
        (mnemonic::VPANDQ, Mnemonic::Vpandq),
        (mnemonic::VPAVGB, Mnemonic::Vpavgb),
        (mnemonic::VPAVGW, Mnemonic::Vpavgw),
        (mnemonic::VPBLENDW, Mnemonic::Vpblendw),
        (mnemonic::VPBROADCASTB, Mnemonic::Vpbroadcastb),
        (mnemonic::VPBROADCASTD, Mnemonic::Vpbroadcastd),
        (mnemonic::VPBROADCASTQ, Mnemonic::Vpbroadcastq),
        (mnemonic::VPBROADCASTW, Mnemonic::Vpbroadcastw),
        (mnemonic::VPCMPB, Mnemonic::Vpcmpb),
        (mnemonic::VPCMPD, Mnemonic::Vpcmpd),
        (mnemonic::VPCMPEQB, Mnemonic::Vpcmpeqb),
        (mnemonic::VPCMPEQD, Mnemonic::Vpcmpeqd),
        (mnemonic::VPCMPEQQ, Mnemonic::Vpcmpeqq),
        (mnemonic::VPCMPEQW, Mnemonic::Vpcmpeqw),
        (mnemonic::VPCMPESTRI, Mnemonic::Vpcmpestri),
        (mnemonic::VPCMPGTB, Mnemonic::Vpcmpgtb),
        (mnemonic::VPCMPGTD, Mnemonic::Vpcmpgtd),
        (mnemonic::VPCMPGTQ, Mnemonic::Vpcmpgtq),
        (mnemonic::VPCMPGTW, Mnemonic::Vpcmpgtw),
        (mnemonic::VPCMPISTRI, Mnemonic::Vpcmpistri),
        (mnemonic::VPCMPQ, Mnemonic::Vpcmpq),
        (mnemonic::VPCMPUB, Mnemonic::Vpcmpub),
        (mnemonic::VPCMPUD, Mnemonic::Vpcmpud),
        (mnemonic::VPCMPUQ, Mnemonic::Vpcmpuq),
        (mnemonic::VPCMPUW, Mnemonic::Vpcmpuw),
        (mnemonic::VPCMPW, Mnemonic::Vpcmpw),
        (mnemonic::VPERM2F128, Mnemonic::Vperm2f128),
        (mnemonic::VPERM2I128, Mnemonic::Vperm2i128),
        (mnemonic::VPERMD, Mnemonic::Vpermd),
        (mnemonic::VPERMI2B, Mnemonic::Vpermi2b),
        (mnemonic::VPERMI2D, Mnemonic::Vpermi2d),
        (mnemonic::VPERMI2Q, Mnemonic::Vpermi2q),
        (mnemonic::VPERMI2W, Mnemonic::Vpermi2w),
        (mnemonic::VPERMPD, Mnemonic::Vpermpd),
        (mnemonic::VPERMQ, Mnemonic::Vpermq),
        (mnemonic::VPERMT2B, Mnemonic::Vpermt2b),
        (mnemonic::VPERMT2D, Mnemonic::Vpermt2d),
        (mnemonic::VPERMT2Q, Mnemonic::Vpermt2q),
        (mnemonic::VPERMT2W, Mnemonic::Vpermt2w),
        (mnemonic::VPEXTRB, Mnemonic::Vpextrb),
        (mnemonic::VPEXTRD, Mnemonic::Vpextrd),
        (mnemonic::VPEXTRQ, Mnemonic::Vpextrq),
        (mnemonic::VPEXTRW, Mnemonic::Vpextrw),
        (mnemonic::VPINSRB, Mnemonic::Vpinsrb),
        (mnemonic::VPINSRD, Mnemonic::Vpinsrd),
        (mnemonic::VPINSRQ, Mnemonic::Vpinsrq),
        (mnemonic::VPINSRW, Mnemonic::Vpinsrw),
        (mnemonic::VPMAXSB, Mnemonic::Vpmaxsb),
        (mnemonic::VPMAXSD, Mnemonic::Vpmaxsd),
        (mnemonic::VPMAXSQ, Mnemonic::Vpmaxsq),
        (mnemonic::VPMAXSW, Mnemonic::Vpmaxsw),
        (mnemonic::VPMAXUB, Mnemonic::Vpmaxub),
        (mnemonic::VPMAXUD, Mnemonic::Vpmaxud),
        (mnemonic::VPMAXUQ, Mnemonic::Vpmaxuq),
        (mnemonic::VPMAXUW, Mnemonic::Vpmaxuw),
        (mnemonic::VPMINSB, Mnemonic::Vpminsb),
        (mnemonic::VPMINSD, Mnemonic::Vpminsd),
        (mnemonic::VPMINSQ, Mnemonic::Vpminsq),
        (mnemonic::VPMINSW, Mnemonic::Vpminsw),
        (mnemonic::VPMINUB, Mnemonic::Vpminub),
        (mnemonic::VPMINUD, Mnemonic::Vpminud),
        (mnemonic::VPMINUQ, Mnemonic::Vpminuq),
        (mnemonic::VPMINUW, Mnemonic::Vpminuw),
        (mnemonic::VPMOVDB, Mnemonic::Vpmovdb),
        (mnemonic::VPMOVDW, Mnemonic::Vpmovdw),
        (mnemonic::VPMOVMSKB, Mnemonic::Vpmovmskb),
        (mnemonic::VPMOVQB, Mnemonic::Vpmovqb),
        (mnemonic::VPMOVQD, Mnemonic::Vpmovqd),
        (mnemonic::VPMOVQW, Mnemonic::Vpmovqw),
        (mnemonic::VPMOVSXBD, Mnemonic::Vpmovsxbd),
        (mnemonic::VPMOVSXBQ, Mnemonic::Vpmovsxbq),
        (mnemonic::VPMOVSXBW, Mnemonic::Vpmovsxbw),
        (mnemonic::VPMOVSXDQ, Mnemonic::Vpmovsxdq),
        (mnemonic::VPMOVSXWD, Mnemonic::Vpmovsxwd),
        (mnemonic::VPMOVSXWQ, Mnemonic::Vpmovsxwq),
        (mnemonic::VPMOVWB, Mnemonic::Vpmovwb),
        (mnemonic::VPMOVZXBD, Mnemonic::Vpmovzxbd),
        (mnemonic::VPMOVZXBQ, Mnemonic::Vpmovzxbq),
        (mnemonic::VPMOVZXBW, Mnemonic::Vpmovzxbw),
        (mnemonic::VPMOVZXDQ, Mnemonic::Vpmovzxdq),
        (mnemonic::VPMOVZXWD, Mnemonic::Vpmovzxwd),
        (mnemonic::VPMOVZXWQ, Mnemonic::Vpmovzxwq),
        (mnemonic::VPMULDQ, Mnemonic::Vpmuldq),
        (mnemonic::VPMULHRSW, Mnemonic::Vpmulhrsw),
        (mnemonic::VPMULHUW, Mnemonic::Vpmulhuw),
        (mnemonic::VPMULHW, Mnemonic::Vpmulhw),
        (mnemonic::VPMULLD, Mnemonic::Vpmulld),
        (mnemonic::VPMULLQ, Mnemonic::Vpmullq),
        (mnemonic::VPMULLW, Mnemonic::Vpmullw),
        (mnemonic::VPMULUDQ, Mnemonic::Vpmuludq),
        (mnemonic::VPOPCNTD, Mnemonic::Vpopcntd),
        (mnemonic::VPOPCNTQ, Mnemonic::Vpopcntq),
        (mnemonic::VPOR, Mnemonic::Vpor),
        (mnemonic::VPORD, Mnemonic::Vpord),
        (mnemonic::VPORQ, Mnemonic::Vporq),
        (mnemonic::VPSHUFB, Mnemonic::Vpshufb),
        (mnemonic::VPSHUFD, Mnemonic::Vpshufd),
        (mnemonic::VPSIGNB, Mnemonic::Vpsignb),
        (mnemonic::VPSIGND, Mnemonic::Vpsignd),
        (mnemonic::VPSIGNW, Mnemonic::Vpsignw),
        (mnemonic::VPSLLD, Mnemonic::Vpslld),
        (mnemonic::VPSLLDQ, Mnemonic::Vpslldq),
        (mnemonic::VPSLLQ, Mnemonic::Vpsllq),
        (mnemonic::VPSLLW, Mnemonic::Vpsllw),
        (mnemonic::VPSRAD, Mnemonic::Vpsrad),
        (mnemonic::VPSRAQ, Mnemonic::Vpsraq),
        (mnemonic::VPSRAW, Mnemonic::Vpsraw),
        (mnemonic::VPSRLD, Mnemonic::Vpsrld),
        (mnemonic::VPSRLDQ, Mnemonic::Vpsrldq),
        (mnemonic::VPSRLQ, Mnemonic::Vpsrlq),
        (mnemonic::VPSRLW, Mnemonic::Vpsrlw),
        (mnemonic::VPSUBB, Mnemonic::Vpsubb),
        (mnemonic::VPSUBD, Mnemonic::Vpsubd),
        (mnemonic::VPSUBQ, Mnemonic::Vpsubq),
        (mnemonic::VPSUBSB, Mnemonic::Vpsubsb),
        (mnemonic::VPSUBSW, Mnemonic::Vpsubsw),
        (mnemonic::VPSUBUSB, Mnemonic::Vpsubusb),
        (mnemonic::VPSUBUSW, Mnemonic::Vpsubusw),
        (mnemonic::VPSUBW, Mnemonic::Vpsubw),
        (mnemonic::VPTERNLOGD, Mnemonic::Vpternlogd),
        (mnemonic::VPTERNLOGQ, Mnemonic::Vpternlogq),
        (mnemonic::VPTEST, Mnemonic::Vptest),
        (mnemonic::VPTESTMB, Mnemonic::Vptestmb),
        (mnemonic::VPTESTMD, Mnemonic::Vptestmd),
        (mnemonic::VPTESTMQ, Mnemonic::Vptestmq),
        (mnemonic::VPTESTMW, Mnemonic::Vptestmw),
        (mnemonic::VPTESTNMB, Mnemonic::Vptestnmb),
        (mnemonic::VPTESTNMD, Mnemonic::Vptestnmd),
        (mnemonic::VPTESTNMQ, Mnemonic::Vptestnmq),
        (mnemonic::VPTESTNMW, Mnemonic::Vptestnmw),
        (mnemonic::VPUNPCKHBW, Mnemonic::Vpunpckhbw),
        (mnemonic::VPUNPCKHDQ, Mnemonic::Vpunpckhdq),
        (mnemonic::VPUNPCKHQDQ, Mnemonic::Vpunpckhqdq),
        (mnemonic::VPUNPCKHWD, Mnemonic::Vpunpckhwd),
        (mnemonic::VPUNPCKLBW, Mnemonic::Vpunpcklbw),
        (mnemonic::VPUNPCKLDQ, Mnemonic::Vpunpckldq),
        (mnemonic::VPUNPCKLQDQ, Mnemonic::Vpunpcklqdq),
        (mnemonic::VPUNPCKLWD, Mnemonic::Vpunpcklwd),
        (mnemonic::VPXOR, Mnemonic::Vpxor),
        (mnemonic::VPXORD, Mnemonic::Vpxord),
        (mnemonic::VPXORQ, Mnemonic::Vpxorq),
        (mnemonic::VRCPSS, Mnemonic::Vrcpss),
        (mnemonic::VRNDSCALESD, Mnemonic::Vrndscalesd),
        (mnemonic::VRNDSCALESS, Mnemonic::Vrndscaless),
        (mnemonic::VRSQRTSS, Mnemonic::Vrsqrtss),
        (mnemonic::VSQRTSD, Mnemonic::Vsqrtsd),
        (mnemonic::VSQRTSS, Mnemonic::Vsqrtss),
        (mnemonic::VSTMXCSR, Mnemonic::Vstmxcsr),
        (mnemonic::VSUBPD, Mnemonic::Vsubpd),
        (mnemonic::VSUBPS, Mnemonic::Vsubps),
        (mnemonic::VSUBSD, Mnemonic::Vsubsd),
        (mnemonic::VSUBSS, Mnemonic::Vsubss),
        (mnemonic::VUCOMISD, Mnemonic::Vucomisd),
        (mnemonic::VUCOMISS, Mnemonic::Vucomiss),
        (mnemonic::VUNPCKHPD, Mnemonic::Vunpckhpd),
        (mnemonic::VUNPCKHPS, Mnemonic::Vunpckhps),
        (mnemonic::VUNPCKLPD, Mnemonic::Vunpcklpd),
        (mnemonic::VUNPCKLPS, Mnemonic::Vunpcklps),
        (mnemonic::VXORPD, Mnemonic::Vxorpd),
        (mnemonic::VXORPS, Mnemonic::Vxorps),
        (mnemonic::VZEROALL, Mnemonic::Vzeroall),
        (mnemonic::VZEROUPPER, Mnemonic::Vzeroupper),
        (mnemonic::WAIT, Mnemonic::Wait),
        (mnemonic::XADD, Mnemonic::Xadd),
        (mnemonic::XCHG, Mnemonic::Xchg),
        (mnemonic::XGETBV, Mnemonic::Xgetbv),
        (mnemonic::XOR, Mnemonic::Xor),
        (mnemonic::XORPD, Mnemonic::Xorpd),
        (mnemonic::XORPS, Mnemonic::Xorps),
        (mnemonic::INT3, Mnemonic::Int3),
    ];
    for (number, name) in table {
        assert_eq!(number, name as u16, "{:?}", name);
    }
}

#[test]
fn encoding_numbers() {
    let table = [
        (code::PUSH_IMM16, Code::Push_imm16),
        (code::PUSHW_IMM8, Code::Pushw_imm8),
        (code::RETNW_IMM16, Code::Retnw_imm16),
        (code::RETNW, Code::Retnw),
        (code::LEAVEW, Code::Leavew),
        (code::CALL_REL16, Code::Call_rel16),
        (code::CALL_RM16, Code::Call_rm16),
    ];
    for (number, name) in table {
        assert_eq!(number, name as u16, "{:?}", name);
    }
}

#[test]
fn operand_kind_numbers() {
    let table = [
        (op_kind::REGISTER, OpKind::Register),
        (op_kind::NEAR_BRANCH16, OpKind::NearBranch16),
        (op_kind::NEAR_BRANCH32, OpKind::NearBranch32),
        (op_kind::NEAR_BRANCH64, OpKind::NearBranch64),
        (op_kind::IMMEDIATE8, OpKind::Immediate8),
        (op_kind::IMMEDIATE32TO64, OpKind::Immediate32to64),
        (op_kind::MEMORY_SEG_SI, OpKind::MemorySegSI),
        (op_kind::MEMORY_SEG_ESI, OpKind::MemorySegESI),
        (op_kind::MEMORY_SEG_DI, OpKind::MemorySegDI),
        (op_kind::MEMORY_SEG_EDI, OpKind::MemorySegEDI),
        (op_kind::MEMORY_ES_DI, OpKind::MemoryESDI),
        (op_kind::MEMORY_ES_EDI, OpKind::MemoryESEDI),
        (op_kind::MEMORY, OpKind::Memory),
    ];
    for (number, name) in table {
        assert_eq!(number, name as u8, "{:?}", name);
    }
    let immediates = [
        OpKind::Immediate8,
        OpKind::Immediate8_2nd,
        OpKind::Immediate16,
        OpKind::Immediate32,
        OpKind::Immediate64,
        OpKind::Immediate8to16,
        OpKind::Immediate8to32,
        OpKind::Immediate8to64,
        OpKind::Immediate32to64,
    ];
    for kind in OpKind::values() {
        assert_eq!(op_kind::is_immediate(kind as u8), immediates.contains(&kind), "{:?}", kind);
        let near = [OpKind::NearBranch16, OpKind::NearBranch32, OpKind::NearBranch64];
        assert_eq!(op_kind::is_near_branch(kind as u8), near.contains(&kind), "{:?}", kind);
    }
}

#[test]
fn register_numbers() {
    let table = [
        (register::NONE, Register::None),
        (register::AL, Register::AL),
        (register::AH, Register::AH),
        (register::CH, Register::CH),
        (register::DH, Register::DH),
        (register::BH, Register::BH),
        (register::SPL, Register::SPL),
        (register::AX, Register::AX),
        (register::EAX, Register::EAX),
        (register::RAX, Register::RAX),
        (register::RSP, Register::RSP),
        (register::EIP, Register::EIP),
        (register::RIP, Register::RIP),
        (register::FS, Register::FS),
        (register::GS, Register::GS),
        (register::XMM0, Register::XMM0),
        (register::YMM0, Register::YMM0),
        (register::ZMM0, Register::ZMM0),
        (register::K0, Register::K0),
        (register::ST0, Register::ST0),
        (register::MM0, Register::MM0),
    ];
    for (number, name) in table {
        assert_eq!(number, name as u8, "{:?}", name);
    }
}

/// General registers of every width, in encoding order; a high byte counts as its register.
#[test]
fn general_register_numbers() {
    for reg in Register::values() {
        let want = if reg.is_gpr() {
            let high = [Register::AH, Register::CH, Register::DH, Register::BH];
            let number = if high.contains(&reg) {
                reg as usize - Register::AH as usize
            } else {
                reg.full_register() as usize - Register::RAX as usize
            };
            Some(number as u8)
        } else {
            None
        };
        assert_eq!(register::gpr_index(reg as u8), want, "{:?}", reg);
    }
    assert_eq!(register::index_in(Register::XMM5 as u8, register::XMM0, 32), Some(5));
    assert_eq!(register::index_in(Register::YMM0 as u8, register::XMM0, 32), None);
}

#[test]
fn refused_mnemonics() {
    let refused = [
        Mnemonic::Addsubpd,
        Mnemonic::Addsubps,
        Mnemonic::Blendpd,
        Mnemonic::Blendps,
        Mnemonic::Cvtdq2pd,
        Mnemonic::Cvtdq2ps,
        Mnemonic::Cvtpd2dq,
        Mnemonic::Cvtpd2ps,
        Mnemonic::Cvtps2dq,
        Mnemonic::Cvtps2pd,
        Mnemonic::Cvttpd2dq,
        Mnemonic::Cvttps2dq,
        Mnemonic::Dppd,
        Mnemonic::Dpps,
        Mnemonic::Haddpd,
        Mnemonic::Haddps,
        Mnemonic::Hsubpd,
        Mnemonic::Hsubps,
        Mnemonic::Insertps,
        Mnemonic::Movddup,
        Mnemonic::Movshdup,
        Mnemonic::Movsldup,
        Mnemonic::Packssdw,
        Mnemonic::Packsswb,
        Mnemonic::Pclmulqdq,
        Mnemonic::Pcmpestrm,
        Mnemonic::Pcmpistrm,
        Mnemonic::Phaddd,
        Mnemonic::Phaddsw,
        Mnemonic::Phaddw,
        Mnemonic::Phsubd,
        Mnemonic::Phsubsw,
        Mnemonic::Phsubw,
        Mnemonic::Pmaddubsw,
        Mnemonic::Pmaddwd,
        Mnemonic::Psadbw,
        Mnemonic::Vaddsubpd,
        Mnemonic::Vaddsubps,
        Mnemonic::Vblendpd,
        Mnemonic::Vblendps,
        Mnemonic::Vblendvpd,
        Mnemonic::Vblendvps,
        Mnemonic::Vbroadcastf128,
        Mnemonic::Vbroadcastf32x2,
        Mnemonic::Vbroadcastf32x4,
        Mnemonic::Vbroadcastf32x8,
        Mnemonic::Vbroadcastf64x2,
        Mnemonic::Vbroadcastf64x4,
        Mnemonic::Vbroadcasti128,
        Mnemonic::Vbroadcasti32x2,
        Mnemonic::Vbroadcasti32x4,
        Mnemonic::Vbroadcasti32x8,
        Mnemonic::Vbroadcasti64x2,
        Mnemonic::Vbroadcasti64x4,
        Mnemonic::Vcmppd,
        Mnemonic::Vcmpps,
        Mnemonic::Vcmpsd,
        Mnemonic::Vcmpss,
        Mnemonic::Vcvtdq2pd,
        Mnemonic::Vcvtdq2ps,
        Mnemonic::Vcvtpd2dq,
        Mnemonic::Vcvtpd2ps,
        Mnemonic::Vcvtps2dq,
        Mnemonic::Vcvtps2pd,
        Mnemonic::Vcvttpd2dq,
        Mnemonic::Vcvttps2dq,
        Mnemonic::Vdppd,
        Mnemonic::Vdpps,
        Mnemonic::Vfmaddsub132pd,
        Mnemonic::Vfmaddsub132ps,
        Mnemonic::Vfmaddsub213pd,
        Mnemonic::Vfmaddsub213ps,
        Mnemonic::Vfmaddsub231pd,
        Mnemonic::Vfmaddsub231ps,
        Mnemonic::Vfmsubadd132pd,
        Mnemonic::Vfmsubadd132ps,
        Mnemonic::Vfmsubadd213pd,
        Mnemonic::Vfmsubadd213ps,
        Mnemonic::Vfmsubadd231pd,
        Mnemonic::Vfmsubadd231ps,
        Mnemonic::Vhaddpd,
        Mnemonic::Vhaddps,
        Mnemonic::Vhsubpd,
        Mnemonic::Vhsubps,
        Mnemonic::Vinsertps,
        Mnemonic::Vmaskmovpd,
        Mnemonic::Vmaskmovps,
        Mnemonic::Vmovddup,
        Mnemonic::Vmovhlps,
        Mnemonic::Vmovlhps,
        Mnemonic::Vmovshdup,
        Mnemonic::Vmovsldup,
        Mnemonic::Vpblendd,
        Mnemonic::Vpblendmd,
        Mnemonic::Vpblendmq,
        Mnemonic::Vpblendvb,
        Mnemonic::Vpclmulqdq,
        Mnemonic::Vpcmpestrm,
        Mnemonic::Vpcmpistrm,
        Mnemonic::Vpconflictd,
        Mnemonic::Vpconflictq,
        Mnemonic::Vpermilpd,
        Mnemonic::Vpermilps,
        Mnemonic::Vphaddd,
        Mnemonic::Vphaddsw,
        Mnemonic::Vphaddw,
        Mnemonic::Vphsubd,
        Mnemonic::Vphsubsw,
        Mnemonic::Vphsubw,
        Mnemonic::Vplzcntd,
        Mnemonic::Vplzcntq,
        Mnemonic::Vpmaddubsw,
        Mnemonic::Vpmaddwd,
        Mnemonic::Vpmultishiftqb,
        Mnemonic::Vprold,
        Mnemonic::Vprolq,
        Mnemonic::Vpsadbw,
        Mnemonic::Vpsllvd,
        Mnemonic::Vpsllvq,
        Mnemonic::Vpsllvw,
        Mnemonic::Vpsravd,
        Mnemonic::Vpsravq,
        Mnemonic::Vpsravw,
        Mnemonic::Vpsrlvd,
        Mnemonic::Vpsrlvq,
        Mnemonic::Vpsrlvw,
        Mnemonic::Vrcpps,
        Mnemonic::Vroundpd,
        Mnemonic::Vroundps,
        Mnemonic::Vroundsd,
        Mnemonic::Vroundss,
        Mnemonic::Vrsqrtps,
        Mnemonic::Vshuff32x4,
        Mnemonic::Vshuff64x2,
        Mnemonic::Vshufpd,
        Mnemonic::Vshufps,
        Mnemonic::Vsqrtpd,
        Mnemonic::Vsqrtps,
    ];
    for m in refused {
        assert!(classify(m as u16).is_none(), "{:?}", m);
    }
    assert!(classify(Mnemonic::Pmullw as u16).is_some());
}
