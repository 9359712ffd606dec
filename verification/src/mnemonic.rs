//! Mnemonics that the lift knows, as the decoder numbers them.
use vstd::prelude::*;

verus! {

pub const ADC: u16 = 5;
pub const ADD: u16 = 7;
pub const ADDPD: u16 = 8;
pub const ADDPS: u16 = 9;
pub const ADDSD: u16 = 10;
pub const ADDSS: u16 = 11;
pub const AESDEC: u16 = 15;
pub const AESDECLAST: u16 = 16;
pub const AESENC: u16 = 17;
pub const AESENCLAST: u16 = 18;
pub const AESIMC: u16 = 19;
pub const AESKEYGENASSIST: u16 = 20;
pub const AND: u16 = 21;
pub const ANDN: u16 = 22;
pub const ANDNPD: u16 = 23;
pub const ANDNPS: u16 = 24;
pub const ANDPD: u16 = 25;
pub const ANDPS: u16 = 26;
pub const BEXTR: u16 = 28;
pub const BLENDVPD: u16 = 36;
pub const BLENDVPS: u16 = 37;
pub const BLSI: u16 = 39;
pub const BLSMSK: u16 = 41;
pub const BLSR: u16 = 42;
pub const BSF: u16 = 51;
pub const BSR: u16 = 52;
pub const BSWAP: u16 = 53;
pub const BT: u16 = 54;
pub const BTC: u16 = 55;
pub const BTR: u16 = 56;
pub const BTS: u16 = 57;
pub const BZHI: u16 = 58;
pub const CALL: u16 = 59;
pub const CBW: u16 = 60;
pub const CDQ: u16 = 61;
pub const CDQE: u16 = 62;
pub const CLD: u16 = 66;
pub const CMOVA: u16 = 77;
pub const CMOVAE: u16 = 78;
pub const CMOVB: u16 = 79;
pub const CMOVBE: u16 = 80;
pub const CMOVE: u16 = 81;
pub const CMOVG: u16 = 82;
pub const CMOVGE: u16 = 83;
pub const CMOVL: u16 = 84;
pub const CMOVLE: u16 = 85;
pub const CMOVNE: u16 = 86;
pub const CMOVNO: u16 = 87;
pub const CMOVNP: u16 = 88;
pub const CMOVNS: u16 = 89;
pub const CMOVO: u16 = 90;
pub const CMOVP: u16 = 91;
pub const CMOVS: u16 = 92;
pub const CMP: u16 = 93;
pub const CMPPD: u16 = 94;
pub const CMPPS: u16 = 95;
pub const CMPSB: u16 = 96;
pub const CMPSD: u16 = 97;
pub const CMPSQ: u16 = 98;
pub const CMPSS: u16 = 99;
pub const CMPSW: u16 = 100;
pub const CMPXCHG: u16 = 101;
pub const COMISD: u16 = 104;
pub const COMISS: u16 = 105;
pub const CPUID: u16 = 106;
pub const CQO: u16 = 107;
pub const CRC32: u16 = 108;
pub const CVTSD2SI: u16 = 119;
pub const CVTSD2SS: u16 = 120;
pub const CVTSI2SD: u16 = 121;
pub const CVTSI2SS: u16 = 122;
pub const CVTSS2SD: u16 = 123;
pub const CVTSS2SI: u16 = 124;
pub const CVTTSD2SI: u16 = 129;
pub const CVTTSS2SI: u16 = 130;
pub const CWD: u16 = 131;
pub const CWDE: u16 = 132;
pub const DEC: u16 = 137;
pub const DIV: u16 = 138;
pub const DIVPD: u16 = 139;
pub const DIVPS: u16 = 140;
pub const DIVSD: u16 = 141;
pub const DIVSS: u16 = 142;
pub const EMMS: u16 = 147;
pub const ENDBR32: u16 = 151;
pub const ENDBR64: u16 = 152;
pub const F2XM1: u16 = 158;
pub const FABS: u16 = 159;
pub const FADD: u16 = 160;
pub const FADDP: u16 = 161;
pub const FCHS: u16 = 164;
pub const FCOMI: u16 = 175;
pub const FCOMIP: u16 = 176;
pub const FCOS: u16 = 179;
pub const FDIV: u16 = 182;
pub const FDIVP: u16 = 183;
pub const FDIVR: u16 = 184;
pub const FDIVRP: u16 = 185;
pub const FEMMS: u16 = 186;
pub const FILD: u16 = 195;
pub const FISTP: u16 = 200;
pub const FISTTP: u16 = 201;
pub const FLD: u16 = 204;
pub const FLD1: u16 = 205;
pub const FLDCW: u16 = 206;
pub const FLDZ: u16 = 213;
pub const FMUL: u16 = 214;
pub const FMULP: u16 = 215;
pub const FNSTCW: u16 = 223;
pub const FNSTSW: u16 = 225;
pub const FPATAN: u16 = 226;
pub const FPREM: u16 = 227;
pub const FPTAN: u16 = 229;
pub const FSIN: u16 = 236;
pub const FSINCOS: u16 = 237;
pub const FST: u16 = 239;
pub const FSTP: u16 = 243;
pub const FSUB: u16 = 247;
pub const FSUBP: u16 = 248;
pub const FSUBR: u16 = 249;
pub const FSUBRP: u16 = 250;
pub const FUCOMI: u16 = 253;
pub const FUCOMIP: u16 = 254;
pub const FXCH: u16 = 258;
pub const FXRSTOR: u16 = 259;
pub const FXRSTOR64: u16 = 260;
pub const FXSAVE: u16 = 261;
pub const FXSAVE64: u16 = 262;
pub const FYL2X: u16 = 264;
pub const FYL2XP1: u16 = 265;
pub const GF2P8AFFINEINVQB: u16 = 267;
pub const GF2P8AFFINEQB: u16 = 268;
pub const GF2P8MULB: u16 = 269;
pub const HLT: u16 = 272;
pub const IDIV: u16 = 276;
pub const IMUL: u16 = 277;
pub const IN: u16 = 278;
pub const INC: u16 = 279;
pub const INT: u16 = 287;
pub const INT1: u16 = 288;
pub const JA: u16 = 297;
pub const JAE: u16 = 298;
pub const JB: u16 = 299;
pub const JBE: u16 = 300;
pub const JE: u16 = 302;
pub const JG: u16 = 304;
pub const JGE: u16 = 305;
pub const JL: u16 = 306;
pub const JLE: u16 = 307;
pub const JMP: u16 = 308;
pub const JNE: u16 = 310;
pub const JNO: u16 = 311;
pub const JNP: u16 = 312;
pub const JNS: u16 = 313;
pub const JO: u16 = 314;
pub const JP: u16 = 315;
pub const JS: u16 = 317;
pub const KANDB: u16 = 322;
pub const KANDD: u16 = 323;
pub const KANDNB: u16 = 324;
pub const KANDND: u16 = 325;
pub const KANDNQ: u16 = 326;
pub const KANDNW: u16 = 327;
pub const KANDQ: u16 = 328;
pub const KANDW: u16 = 329;
pub const KMOVB: u16 = 330;
pub const KMOVD: u16 = 331;
pub const KMOVQ: u16 = 332;
pub const KMOVW: u16 = 333;
pub const KNOTB: u16 = 334;
pub const KNOTD: u16 = 335;
pub const KNOTQ: u16 = 336;
pub const KNOTW: u16 = 337;
pub const KORB: u16 = 338;
pub const KORD: u16 = 339;
pub const KORQ: u16 = 340;
pub const KORTESTB: u16 = 341;
pub const KORTESTD: u16 = 342;
pub const KORTESTQ: u16 = 343;
pub const KORTESTW: u16 = 344;
pub const KORW: u16 = 345;
pub const KSHIFTLB: u16 = 346;
pub const KSHIFTLD: u16 = 347;
pub const KSHIFTLQ: u16 = 348;
pub const KSHIFTLW: u16 = 349;
pub const KSHIFTRB: u16 = 350;
pub const KSHIFTRD: u16 = 351;
pub const KSHIFTRQ: u16 = 352;
pub const KSHIFTRW: u16 = 353;
pub const KUNPCKBW: u16 = 358;
pub const KUNPCKDQ: u16 = 359;
pub const KUNPCKWD: u16 = 360;
pub const KXNORB: u16 = 361;
pub const KXNORD: u16 = 362;
pub const KXNORQ: u16 = 363;
pub const KXNORW: u16 = 364;
pub const KXORB: u16 = 365;
pub const KXORD: u16 = 366;
pub const KXORQ: u16 = 367;
pub const KXORW: u16 = 368;
pub const LDMXCSR: u16 = 372;
pub const LEA: u16 = 374;
pub const LEAVE: u16 = 375;
pub const LFENCE: u16 = 377;
pub const LODSB: u16 = 386;
pub const LODSD: u16 = 387;
pub const LODSQ: u16 = 388;
pub const LODSW: u16 = 389;
pub const LZCNT: u16 = 398;
pub const MAXPD: u16 = 401;
pub const MAXPS: u16 = 402;
pub const MAXSD: u16 = 403;
pub const MAXSS: u16 = 404;
pub const MFENCE: u16 = 406;
pub const MINPD: u16 = 407;
pub const MINPS: u16 = 408;
pub const MINSD: u16 = 409;
pub const MINSS: u16 = 410;
pub const MOV: u16 = 414;
pub const MOVAPD: u16 = 415;
pub const MOVAPS: u16 = 416;
pub const MOVBE: u16 = 417;
pub const MOVD: u16 = 418;
pub const MOVDQ2Q: u16 = 422;
pub const MOVDQA: u16 = 423;
pub const MOVDQU: u16 = 424;
pub const MOVHLPS: u16 = 425;
pub const MOVHPD: u16 = 426;
pub const MOVHPS: u16 = 427;
pub const MOVLHPS: u16 = 428;
pub const MOVLPD: u16 = 429;
pub const MOVLPS: u16 = 430;
pub const MOVMSKPD: u16 = 431;
pub const MOVMSKPS: u16 = 432;
pub const MOVNTDQ: u16 = 433;
pub const MOVNTDQA: u16 = 434;
pub const MOVNTI: u16 = 435;
pub const MOVNTPD: u16 = 436;
pub const MOVNTPS: u16 = 437;
pub const MOVQ: u16 = 441;
pub const MOVQ2DQ: u16 = 442;
pub const MOVSB: u16 = 443;
pub const MOVSD: u16 = 444;
pub const MOVSQ: u16 = 447;
pub const MOVSS: u16 = 448;
pub const MOVSW: u16 = 449;
pub const MOVSX: u16 = 450;
pub const MOVSXD: u16 = 451;
pub const MOVUPD: u16 = 452;
pub const MOVUPS: u16 = 453;
pub const MOVZX: u16 = 454;
pub const MUL: u16 = 456;
pub const MULPD: u16 = 457;
pub const MULPS: u16 = 458;
pub const MULSD: u16 = 459;
pub const MULSS: u16 = 460;
pub const MULX: u16 = 461;
pub const NEG: u16 = 464;
pub const NOP: u16 = 465;
pub const NOT: u16 = 466;
pub const OR: u16 = 467;
pub const ORPD: u16 = 468;
pub const ORPS: u16 = 469;
pub const OUT: u16 = 470;
pub const PACKUSWB: u16 = 480;
pub const PADDB: u16 = 481;
pub const PADDD: u16 = 482;
pub const PADDQ: u16 = 483;
pub const PADDSB: u16 = 484;
pub const PADDSW: u16 = 485;
pub const PADDUSB: u16 = 486;
pub const PADDUSW: u16 = 487;
pub const PADDW: u16 = 488;
pub const PALIGNR: u16 = 489;
pub const PAND: u16 = 490;
pub const PANDN: u16 = 491;
pub const PAUSE: u16 = 492;
pub const PAVGB: u16 = 493;
pub const PAVGW: u16 = 495;
pub const PBLENDVB: u16 = 496;
pub const PBLENDW: u16 = 497;
pub const PCMPEQB: u16 = 499;
pub const PCMPEQD: u16 = 500;
pub const PCMPEQQ: u16 = 501;
pub const PCMPEQW: u16 = 502;
pub const PCMPESTRI: u16 = 503;
pub const PCMPGTB: u16 = 507;
pub const PCMPGTD: u16 = 508;
pub const PCMPGTQ: u16 = 509;
pub const PCMPGTW: u16 = 510;
pub const PCMPISTRI: u16 = 511;
pub const PDEP: u16 = 515;
pub const PEXT: u16 = 516;
pub const PEXTRB: u16 = 517;
pub const PEXTRD: u16 = 518;
pub const PEXTRQ: u16 = 519;
pub const PEXTRW: u16 = 520;
pub const PINSRB: u16 = 551;
pub const PINSRD: u16 = 552;
pub const PINSRQ: u16 = 553;
pub const PINSRW: u16 = 554;
pub const PMAXSD: u16 = 558;
pub const PMAXSW: u16 = 559;
pub const PMAXUB: u16 = 560;
pub const PMAXUD: u16 = 561;
pub const PMINSD: u16 = 564;
pub const PMINSW: u16 = 565;
pub const PMINUB: u16 = 566;
pub const PMINUD: u16 = 567;
pub const PMOVMSKB: u16 = 569;
pub const PMOVSXBD: u16 = 570;
pub const PMOVSXBQ: u16 = 571;
pub const PMOVSXBW: u16 = 572;
pub const PMOVSXDQ: u16 = 573;
pub const PMOVSXWD: u16 = 574;
pub const PMOVSXWQ: u16 = 575;
pub const PMOVZXBD: u16 = 576;
pub const PMOVZXBQ: u16 = 577;
pub const PMOVZXBW: u16 = 578;
pub const PMOVZXDQ: u16 = 579;
pub const PMOVZXWD: u16 = 580;
pub const PMOVZXWQ: u16 = 581;
pub const PMULDQ: u16 = 582;
pub const PMULHRSW: u16 = 583;
pub const PMULHUW: u16 = 585;
pub const PMULHW: u16 = 586;
pub const PMULLD: u16 = 587;
pub const PMULLW: u16 = 588;
pub const PMULUDQ: u16 = 589;
pub const POP: u16 = 590;
pub const POPCNT: u16 = 592;
pub const POR: u16 = 594;
pub const PREFETCHNTA: u16 = 596;
pub const PREFETCHT0: u16 = 597;
pub const PREFETCHT1: u16 = 598;
pub const PREFETCHT2: u16 = 599;
pub const PREFETCHW: u16 = 600;
pub const PREFETCHWT1: u16 = 601;
pub const PSHUFB: u16 = 603;
pub const PSHUFD: u16 = 604;
pub const PSHUFHW: u16 = 605;
pub const PSHUFLW: u16 = 606;
pub const PSIGNB: u16 = 608;
pub const PSIGND: u16 = 609;
pub const PSIGNW: u16 = 610;
pub const PSLLD: u16 = 611;
pub const PSLLDQ: u16 = 612;
pub const PSLLQ: u16 = 613;
pub const PSLLW: u16 = 614;
pub const PSRAD: u16 = 615;
pub const PSRAW: u16 = 616;
pub const PSRLD: u16 = 617;
pub const PSRLDQ: u16 = 618;
pub const PSRLQ: u16 = 619;
pub const PSRLW: u16 = 620;
pub const PSUBB: u16 = 621;
pub const PSUBD: u16 = 622;
pub const PSUBQ: u16 = 623;
pub const PSUBSB: u16 = 624;
pub const PSUBSW: u16 = 625;
pub const PSUBUSB: u16 = 626;
pub const PSUBUSW: u16 = 627;
pub const PSUBW: u16 = 628;
pub const PTEST: u16 = 630;
pub const PUNPCKHBW: u16 = 632;
pub const PUNPCKHDQ: u16 = 633;
pub const PUNPCKHQDQ: u16 = 634;
pub const PUNPCKHWD: u16 = 635;
pub const PUNPCKLBW: u16 = 636;
pub const PUNPCKLDQ: u16 = 637;
pub const PUNPCKLQDQ: u16 = 638;
pub const PUNPCKLWD: u16 = 639;
pub const PUSH: u16 = 640;
pub const PXOR: u16 = 643;
pub const RCL: u16 = 644;
pub const RCR: u16 = 647;
pub const RDSSPD: u16 = 657;
pub const RDSSPQ: u16 = 658;
pub const RDTSC: u16 = 659;
pub const RET: u16 = 662;
pub const ROL: u16 = 664;
pub const ROR: u16 = 665;
pub const RORX: u16 = 666;
pub const ROUNDPD: u16 = 667;
pub const ROUNDPS: u16 = 668;
pub const ROUNDSD: u16 = 669;
pub const ROUNDSS: u16 = 670;
pub const SAL: u16 = 676;
pub const SAR: u16 = 678;
pub const SARX: u16 = 679;
pub const SBB: u16 = 681;
pub const SCASB: u16 = 682;
pub const SCASD: u16 = 683;
pub const SCASQ: u16 = 684;
pub const SCASW: u16 = 685;
pub const SETA: u16 = 686;
pub const SETAE: u16 = 687;
pub const SETB: u16 = 688;
pub const SETBE: u16 = 689;
pub const SETE: u16 = 690;
pub const SETG: u16 = 691;
pub const SETGE: u16 = 692;
pub const SETL: u16 = 693;
pub const SETLE: u16 = 694;
pub const SETNE: u16 = 695;
pub const SETNO: u16 = 696;
pub const SETNP: u16 = 697;
pub const SETNS: u16 = 698;
pub const SETO: u16 = 699;
pub const SETP: u16 = 700;
pub const SETS: u16 = 701;
pub const SFENCE: u16 = 703;
pub const SHA1MSG1: u16 = 705;
pub const SHA1MSG2: u16 = 706;
pub const SHA1NEXTE: u16 = 707;
pub const SHA1RNDS4: u16 = 708;
pub const SHA256MSG1: u16 = 709;
pub const SHA256MSG2: u16 = 710;
pub const SHA256RNDS2: u16 = 711;
pub const SHL: u16 = 712;
pub const SHLD: u16 = 713;
pub const SHLX: u16 = 714;
pub const SHR: u16 = 715;
pub const SHRD: u16 = 716;
pub const SHRX: u16 = 717;
pub const SHUFPD: u16 = 718;
pub const SHUFPS: u16 = 719;
pub const SQRTPD: u16 = 725;
pub const SQRTPS: u16 = 726;
pub const SQRTSD: u16 = 727;
pub const SQRTSS: u16 = 728;
pub const STD: u16 = 731;
pub const STMXCSR: u16 = 734;
pub const STOSB: u16 = 735;
pub const STOSD: u16 = 736;
pub const STOSQ: u16 = 737;
pub const STOSW: u16 = 738;
pub const SUB: u16 = 740;
pub const SUBPD: u16 = 741;
pub const SUBPS: u16 = 742;
pub const SUBSD: u16 = 743;
pub const SUBSS: u16 = 744;
pub const SYSCALL: u16 = 746;
pub const TEST: u16 = 751;
pub const TZCNT: u16 = 753;
pub const UCOMISD: u16 = 755;
pub const UCOMISS: u16 = 756;
pub const UD2: u16 = 759;
pub const UNPCKHPD: u16 = 763;
pub const UNPCKHPS: u16 = 764;
pub const UNPCKLPD: u16 = 765;
pub const UNPCKLPS: u16 = 766;
pub const VADDPD: u16 = 771;
pub const VADDPS: u16 = 772;
pub const VADDSD: u16 = 773;
pub const VADDSS: u16 = 774;
pub const VAESDEC: u16 = 777;
pub const VAESDECLAST: u16 = 778;
pub const VAESENC: u16 = 779;
pub const VAESENCLAST: u16 = 780;
pub const VAESIMC: u16 = 781;
pub const VAESKEYGENASSIST: u16 = 782;
pub const VALIGND: u16 = 783;
pub const VALIGNQ: u16 = 784;
pub const VANDNPD: u16 = 785;
pub const VANDNPS: u16 = 786;
pub const VANDPD: u16 = 787;
pub const VANDPS: u16 = 788;
pub const VBROADCASTSD: u16 = 807;
pub const VBROADCASTSS: u16 = 808;
pub const VCOMISD: u16 = 813;
pub const VCOMISS: u16 = 814;
pub const VCVTSD2SI: u16 = 835;
pub const VCVTSD2SS: u16 = 836;
pub const VCVTSD2USI: u16 = 837;
pub const VCVTSI2SD: u16 = 838;
pub const VCVTSI2SS: u16 = 839;
pub const VCVTSS2SD: u16 = 840;
pub const VCVTSS2SI: u16 = 841;
pub const VCVTSS2USI: u16 = 842;
pub const VCVTTSD2SI: u16 = 851;
pub const VCVTTSD2USI: u16 = 852;
pub const VCVTTSS2SI: u16 = 853;
pub const VCVTTSS2USI: u16 = 854;
pub const VCVTUSI2SD: u16 = 859;
pub const VCVTUSI2SS: u16 = 860;
pub const VDIVPD: u16 = 862;
pub const VDIVPS: u16 = 863;
pub const VDIVSD: u16 = 864;
pub const VDIVSS: u16 = 865;
pub const VEXTRACTF128: u16 = 875;
pub const VEXTRACTF32X4: u16 = 876;
pub const VEXTRACTF32X8: u16 = 877;
pub const VEXTRACTF64X2: u16 = 878;
pub const VEXTRACTF64X4: u16 = 879;
pub const VEXTRACTI128: u16 = 880;
pub const VEXTRACTI32X4: u16 = 881;
pub const VEXTRACTI32X8: u16 = 882;
pub const VEXTRACTI64X2: u16 = 883;
pub const VEXTRACTI64X4: u16 = 884;
pub const VEXTRACTPS: u16 = 885;
pub const VFMADD132PD: u16 = 890;
pub const VFMADD132PS: u16 = 891;
pub const VFMADD132SD: u16 = 892;
pub const VFMADD132SS: u16 = 893;
pub const VFMADD213PD: u16 = 894;
pub const VFMADD213PS: u16 = 895;
pub const VFMADD213SD: u16 = 896;
pub const VFMADD213SS: u16 = 897;
pub const VFMADD231PD: u16 = 898;
pub const VFMADD231PS: u16 = 899;
pub const VFMADD231SD: u16 = 900;
pub const VFMADD231SS: u16 = 901;
pub const VFMSUB132PD: u16 = 914;
pub const VFMSUB132PS: u16 = 915;
pub const VFMSUB132SD: u16 = 916;
pub const VFMSUB132SS: u16 = 917;
pub const VFMSUB213PD: u16 = 918;
pub const VFMSUB213PS: u16 = 919;
pub const VFMSUB213SD: u16 = 920;
pub const VFMSUB213SS: u16 = 921;
pub const VFMSUB231PD: u16 = 922;
pub const VFMSUB231PS: u16 = 923;
pub const VFMSUB231SD: u16 = 924;
pub const VFMSUB231SS: u16 = 925;
pub const VFNMADD132PD: u16 = 938;
pub const VFNMADD132PS: u16 = 939;
pub const VFNMADD132SD: u16 = 940;
pub const VFNMADD132SS: u16 = 941;
pub const VFNMADD213PD: u16 = 942;
pub const VFNMADD213PS: u16 = 943;
pub const VFNMADD213SD: u16 = 944;
pub const VFNMADD213SS: u16 = 945;
pub const VFNMADD231PD: u16 = 946;
pub const VFNMADD231PS: u16 = 947;
pub const VFNMADD231SD: u16 = 948;
pub const VFNMADD231SS: u16 = 949;
pub const VFNMSUB132PD: u16 = 954;
pub const VFNMSUB132PS: u16 = 955;
pub const VFNMSUB132SD: u16 = 956;
pub const VFNMSUB132SS: u16 = 957;
pub const VFNMSUB213PD: u16 = 958;
pub const VFNMSUB213PS: u16 = 959;
pub const VFNMSUB213SD: u16 = 960;
pub const VFNMSUB213SS: u16 = 961;
pub const VFNMSUB231PD: u16 = 962;
pub const VFNMSUB231PS: u16 = 963;
pub const VFNMSUB231SD: u16 = 964;
pub const VFNMSUB231SS: u16 = 965;
pub const VGF2P8AFFINEINVQB: u16 = 998;
pub const VGF2P8AFFINEQB: u16 = 999;
pub const VGF2P8MULB: u16 = 1000;
pub const VINSERTF128: u16 = 1005;
pub const VINSERTF32X4: u16 = 1006;
pub const VINSERTF32X8: u16 = 1007;
pub const VINSERTF64X2: u16 = 1008;
pub const VINSERTF64X4: u16 = 1009;
pub const VINSERTI128: u16 = 1010;
pub const VINSERTI32X4: u16 = 1011;
pub const VINSERTI32X8: u16 = 1012;
pub const VINSERTI64X2: u16 = 1013;
pub const VINSERTI64X4: u16 = 1014;
pub const VLDMXCSR: u16 = 1017;
pub const VMAXPD: u16 = 1021;
pub const VMAXPS: u16 = 1022;
pub const VMAXSD: u16 = 1023;
pub const VMAXSS: u16 = 1024;
pub const VMINPD: u16 = 1028;
pub const VMINPS: u16 = 1029;
pub const VMINSD: u16 = 1030;
pub const VMINSS: u16 = 1031;
pub const VMOVAPD: u16 = 1035;
pub const VMOVAPS: u16 = 1036;
pub const VMOVD: u16 = 1037;
pub const VMOVDQA: u16 = 1039;
pub const VMOVDQA32: u16 = 1040;
pub const VMOVDQA64: u16 = 1041;
pub const VMOVDQU: u16 = 1042;
pub const VMOVDQU16: u16 = 1043;
pub const VMOVDQU32: u16 = 1044;
pub const VMOVDQU64: u16 = 1045;
pub const VMOVDQU8: u16 = 1046;
pub const VMOVHPD: u16 = 1048;
pub const VMOVHPS: u16 = 1049;
pub const VMOVLPD: u16 = 1051;
pub const VMOVLPS: u16 = 1052;
pub const VMOVMSKPD: u16 = 1053;
pub const VMOVMSKPS: u16 = 1054;
pub const VMOVNTDQ: u16 = 1055;
pub const VMOVNTDQA: u16 = 1056;
pub const VMOVNTPD: u16 = 1057;
pub const VMOVNTPS: u16 = 1058;
pub const VMOVQ: u16 = 1059;
pub const VMOVSD: u16 = 1060;
pub const VMOVSS: u16 = 1063;
pub const VMOVUPD: u16 = 1064;
pub const VMOVUPS: u16 = 1065;
pub const VMULPD: u16 = 1073;
pub const VMULPS: u16 = 1074;
pub const VMULSD: u16 = 1075;
pub const VMULSS: u16 = 1076;
pub const VORPD: u16 = 1080;
pub const VORPS: u16 = 1081;
pub const VPABSB: u16 = 1086;
pub const VPABSD: u16 = 1087;
pub const VPABSQ: u16 = 1088;
pub const VPABSW: u16 = 1089;
pub const VPACKSSDW: u16 = 1090;
pub const VPACKSSWB: u16 = 1091;
pub const VPACKUSDW: u16 = 1092;
pub const VPACKUSWB: u16 = 1093;
pub const VPADDB: u16 = 1094;
pub const VPADDD: u16 = 1095;
pub const VPADDQ: u16 = 1096;
pub const VPADDSB: u16 = 1097;
pub const VPADDSW: u16 = 1098;
pub const VPADDUSB: u16 = 1099;
pub const VPADDUSW: u16 = 1100;
pub const VPADDW: u16 = 1101;
pub const VPALIGNR: u16 = 1102;
pub const VPAND: u16 = 1103;
pub const VPANDD: u16 = 1104;
pub const VPANDN: u16 = 1105;
pub const VPANDND: u16 = 1106;
pub const VPANDNQ: u16 = 1107;
pub const VPANDQ: u16 = 1108;
pub const VPAVGB: u16 = 1109;
pub const VPAVGW: u16 = 1110;
pub const VPBLENDW: u16 = 1117;
pub const VPBROADCASTB: u16 = 1118;
pub const VPBROADCASTD: u16 = 1119;
pub const VPBROADCASTQ: u16 = 1122;
pub const VPBROADCASTW: u16 = 1123;
pub const VPCMPB: u16 = 1126;
pub const VPCMPD: u16 = 1127;
pub const VPCMPEQB: u16 = 1128;
pub const VPCMPEQD: u16 = 1129;
pub const VPCMPEQQ: u16 = 1130;
pub const VPCMPEQW: u16 = 1131;
pub const VPCMPESTRI: u16 = 1132;
pub const VPCMPGTB: u16 = 1136;
pub const VPCMPGTD: u16 = 1137;
pub const VPCMPGTQ: u16 = 1138;
pub const VPCMPGTW: u16 = 1139;
pub const VPCMPISTRI: u16 = 1140;
pub const VPCMPQ: u16 = 1142;
pub const VPCMPUB: u16 = 1143;
pub const VPCMPUD: u16 = 1144;
pub const VPCMPUQ: u16 = 1145;
pub const VPCMPUW: u16 = 1146;
pub const VPCMPW: u16 = 1147;
pub const VPERM2F128: u16 = 1166;
pub const VPERM2I128: u16 = 1167;
pub const VPERMD: u16 = 1169;
pub const VPERMI2B: u16 = 1170;
pub const VPERMI2D: u16 = 1171;
pub const VPERMI2Q: u16 = 1174;
pub const VPERMI2W: u16 = 1175;
pub const VPERMPD: u16 = 1180;
pub const VPERMQ: u16 = 1182;
pub const VPERMT2B: u16 = 1183;
pub const VPERMT2D: u16 = 1184;
pub const VPERMT2Q: u16 = 1187;
pub const VPERMT2W: u16 = 1188;
pub const VPEXTRB: u16 = 1194;
pub const VPEXTRD: u16 = 1195;
pub const VPEXTRQ: u16 = 1196;
pub const VPEXTRW: u16 = 1197;
pub const VPINSRB: u16 = 1224;
pub const VPINSRD: u16 = 1225;
pub const VPINSRQ: u16 = 1226;
pub const VPINSRW: u16 = 1227;
pub const VPMAXSB: u16 = 1248;
pub const VPMAXSD: u16 = 1249;
pub const VPMAXSQ: u16 = 1250;
pub const VPMAXSW: u16 = 1251;
pub const VPMAXUB: u16 = 1252;
pub const VPMAXUD: u16 = 1253;
pub const VPMAXUQ: u16 = 1254;
pub const VPMAXUW: u16 = 1255;
pub const VPMINSB: u16 = 1256;
pub const VPMINSD: u16 = 1257;
pub const VPMINSQ: u16 = 1258;
pub const VPMINSW: u16 = 1259;
pub const VPMINUB: u16 = 1260;
pub const VPMINUD: u16 = 1261;
pub const VPMINUQ: u16 = 1262;
pub const VPMINUW: u16 = 1263;
pub const VPMOVDB: u16 = 1266;
pub const VPMOVDW: u16 = 1267;
pub const VPMOVMSKB: u16 = 1272;
pub const VPMOVQB: u16 = 1274;
pub const VPMOVQD: u16 = 1275;
pub const VPMOVQW: u16 = 1276;
pub const VPMOVSXBD: u16 = 1283;
pub const VPMOVSXBQ: u16 = 1284;
pub const VPMOVSXBW: u16 = 1285;
pub const VPMOVSXDQ: u16 = 1286;
pub const VPMOVSXWD: u16 = 1287;
pub const VPMOVSXWQ: u16 = 1288;
pub const VPMOVWB: u16 = 1296;
pub const VPMOVZXBD: u16 = 1297;
pub const VPMOVZXBQ: u16 = 1298;
pub const VPMOVZXBW: u16 = 1299;
pub const VPMOVZXDQ: u16 = 1300;
pub const VPMOVZXWD: u16 = 1301;
pub const VPMOVZXWQ: u16 = 1302;
pub const VPMULDQ: u16 = 1303;
pub const VPMULHRSW: u16 = 1304;
pub const VPMULHUW: u16 = 1305;
pub const VPMULHW: u16 = 1306;
pub const VPMULLD: u16 = 1307;
pub const VPMULLQ: u16 = 1308;
pub const VPMULLW: u16 = 1309;
pub const VPMULUDQ: u16 = 1311;
pub const VPOPCNTD: u16 = 1313;
pub const VPOPCNTQ: u16 = 1314;
pub const VPOR: u16 = 1316;
pub const VPORD: u16 = 1317;
pub const VPORQ: u16 = 1318;
pub const VPSHUFB: u16 = 1357;
pub const VPSHUFD: u16 = 1359;
pub const VPSIGNB: u16 = 1362;
pub const VPSIGND: u16 = 1363;
pub const VPSIGNW: u16 = 1364;
pub const VPSLLD: u16 = 1365;
pub const VPSLLDQ: u16 = 1366;
pub const VPSLLQ: u16 = 1367;
pub const VPSLLW: u16 = 1371;
pub const VPSRAD: u16 = 1372;
pub const VPSRAQ: u16 = 1373;
pub const VPSRAW: u16 = 1377;
pub const VPSRLD: u16 = 1378;
pub const VPSRLDQ: u16 = 1379;
pub const VPSRLQ: u16 = 1380;
pub const VPSRLW: u16 = 1384;
pub const VPSUBB: u16 = 1385;
pub const VPSUBD: u16 = 1386;
pub const VPSUBQ: u16 = 1387;
pub const VPSUBSB: u16 = 1388;
pub const VPSUBSW: u16 = 1389;
pub const VPSUBUSB: u16 = 1390;
pub const VPSUBUSW: u16 = 1391;
pub const VPSUBW: u16 = 1392;
pub const VPTERNLOGD: u16 = 1393;
pub const VPTERNLOGQ: u16 = 1394;
pub const VPTEST: u16 = 1395;
pub const VPTESTMB: u16 = 1396;
pub const VPTESTMD: u16 = 1397;
pub const VPTESTMQ: u16 = 1398;
pub const VPTESTMW: u16 = 1399;
pub const VPTESTNMB: u16 = 1400;
pub const VPTESTNMD: u16 = 1401;
pub const VPTESTNMQ: u16 = 1402;
pub const VPTESTNMW: u16 = 1403;
pub const VPUNPCKHBW: u16 = 1404;
pub const VPUNPCKHDQ: u16 = 1405;
pub const VPUNPCKHQDQ: u16 = 1406;
pub const VPUNPCKHWD: u16 = 1407;
pub const VPUNPCKLBW: u16 = 1408;
pub const VPUNPCKLDQ: u16 = 1409;
pub const VPUNPCKLQDQ: u16 = 1410;
pub const VPUNPCKLWD: u16 = 1411;
pub const VPXOR: u16 = 1412;
pub const VPXORD: u16 = 1413;
pub const VPXORQ: u16 = 1414;
pub const VRCPSS: u16 = 1428;
pub const VRNDSCALESD: u16 = 1435;
pub const VRNDSCALESS: u16 = 1436;
pub const VRSQRTSS: u16 = 1450;
pub const VSQRTSD: u16 = 1475;
pub const VSQRTSS: u16 = 1476;
pub const VSTMXCSR: u16 = 1477;
pub const VSUBPD: u16 = 1478;
pub const VSUBPS: u16 = 1479;
pub const VSUBSD: u16 = 1480;
pub const VSUBSS: u16 = 1481;
pub const VUCOMISD: u16 = 1484;
pub const VUCOMISS: u16 = 1485;
pub const VUNPCKHPD: u16 = 1486;
pub const VUNPCKHPS: u16 = 1487;
pub const VUNPCKLPD: u16 = 1488;
pub const VUNPCKLPS: u16 = 1489;
pub const VXORPD: u16 = 1490;
pub const VXORPS: u16 = 1491;
pub const VZEROALL: u16 = 1492;
pub const VZEROUPPER: u16 = 1493;
pub const WAIT: u16 = 1494;
pub const XADD: u16 = 1506;
pub const XCHG: u16 = 1509;
pub const XGETBV: u16 = 1516;
pub const XOR: u16 = 1518;
pub const XORPD: u16 = 1519;
pub const XORPS: u16 = 1520;
pub const INT3: u16 = 1620;

} // verus!
