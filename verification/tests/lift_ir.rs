//! What single instructions are lifted to.
//!
//! An operation is written as its debug form, shortened: `t0` is a temporary and `#5` a
//! constant, `=1` the destination, `s8` a size in bytes and `f63` a mask of flags.
use x86jit_core::lift::block::lift_block_with;
use x86jit_core::lift::{CpuMode, LiftError};
use x86jit_core::memory::{Memory, MemoryModel, Prot, RegionKind};

const BASE: u64 = 0x1000;

fn brief(op: &str) -> String {
    let mut out = op.to_string();
    for (long, short) in [
        ("set_flags: FlagMask(", "f"),
        ("Temp(", "t"),
        ("Imm(", "#"),
        ("Some(", ""),
        (")", ""),
        ("size: ", "s"),
        ("int_s", "int_size:"),
        ("dst: ", "="),
        (" { ", "{"),
        (" }", "}"),
        (", ", ","),
        (": ", ":"),
        ("18446744073709551615", "MAX"),
    ] {
        out = out.replace(long, short);
    }
    out
}

fn bytes_of(hex: &str) -> Vec<u8> {
    (0..hex.len() / 2)
        .map(|i| u8::from_str_radix(&hex[2 * i..2 * i + 2], 16).unwrap())
        .collect()
}

/// The operations of the one instruction, without the mark of its start.
fn lifted(hex: &str, mode: CpuMode) -> String {
    let bytes = bytes_of(hex);
    let mut m = Memory::new(MemoryModel::Flat { size: 0x4000 });
    m.map(BASE, bytes.len() as u64, Prot::RX, RegionKind::Ram).unwrap();
    m.write_bytes(BASE, &bytes).unwrap();
    match lift_block_with(&m, BASE, mode, false) {
        Ok(b) => {
            assert_eq!((b.icount, b.guest_len as usize), (1, bytes.len()), "{}", hex);
            assert_eq!(brief(&format!("{:?}", b.ops[0])), "InsnStart{guest_addr:4096}");
            let ops: Vec<String> =
                b.ops.iter().skip(1).map(|op| brief(&format!("{:?}", op))).collect();
            ops.join(" ")
        }
        Err(LiftError::Unsupported { addr, bytes: found, len }) => {
            assert_eq!((addr, len as usize), (BASE, bytes.len()), "{}", hex);
            assert_eq!(&found[..bytes.len()], &bytes[..], "{}", hex);
            "ERR".to_string()
        }
        Err(LiftError::DecodeFault { .. }) => "FAULT".to_string(),
    }
}

fn long(hex: &str, want: &str) {
    let got = lifted(hex, CpuMode::Long64);
    assert_eq!(got, want, "{}", hex);
}

fn compat(hex: &str, want: &str) {
    let got = lifted(hex, CpuMode::Compat32);
    assert_eq!(got, want, "{}", hex);
}

#[test]
fn two_operand_arithmetic() {
    long(
        "4801d8",
        "ReadReg{=0,reg:Rax} ReadReg{=1,reg:Rbx} Add{=2,a:t0,b:t1,s8,f63} \
         WriteReg{reg:Rax,src:t2,s8}",
    );
    long(
        "02e1",
        "ReadReg{=0,reg:Rax} Shr{=1,a:t0,b:#8,s8,f0} And{=2,a:t1,b:#255,s8,f0} \
         ReadReg{=3,reg:Rcx} Add{=4,a:t2,b:t3,s1,f63} ReadReg{=5,reg:Rax} \
         And{=6,a:t5,b:#18446744073709486335,s8,f0} And{=7,a:t4,b:#255,s8,f0} \
         Shl{=8,a:t7,b:#8,s8,f0} Or{=9,a:t6,b:t8,s8,f0} WriteReg{reg:Rax,src:t9,s8}",
    );
    long(
        "01442408",
        "ReadReg{=0,reg:Rsp} Add{=1,a:t0,b:#8,s8,f0} Load{=2,addr:t1,s4} ReadReg{=3,reg:Rax} \
         Add{=4,a:t2,b:t3,s4,f63} Store{addr:t1,src:t4,s4,order:Plain}",
    );
    long(
        "034308",
        "ReadReg{=0,reg:Rax} ReadReg{=1,reg:Rbx} Add{=2,a:t1,b:#8,s8,f0} Load{=3,addr:t2,s4} \
         Add{=4,a:t0,b:t3,s4,f63} WriteReg{reg:Rax,src:t4,s4}",
    );
    long(
        "4829d8",
        "ReadReg{=0,reg:Rax} ReadReg{=1,reg:Rbx} Sub{=2,a:t0,b:t1,s8,f63} \
         WriteReg{reg:Rax,src:t2,s8}",
    );
    long("4839d8", "ReadReg{=0,reg:Rax} ReadReg{=1,reg:Rbx} Sub{=2,a:t0,b:t1,s8,f63}");
    long("4885d8", "ReadReg{=0,reg:Rax} ReadReg{=1,reg:Rbx} And{=2,a:t0,b:t1,s8,f63}");
    long("6683c0ff", "ReadReg{=0,reg:Rax} Add{=1,a:t0,b:#MAX,s2,f63} WriteReg{reg:Rax,src:t1,s2}");
    long(
        "4811d8",
        "ReadReg{=0,reg:Rax} ReadReg{=1,reg:Rbx} Adc{=2,a:t0,b:t1,s8,f63} \
         WriteReg{reg:Rax,src:t2,s8}",
    );
    long(
        "19d8",
        "ReadReg{=0,reg:Rax} ReadReg{=1,reg:Rbx} Sbb{=2,a:t0,b:t1,s4,f63} \
         WriteReg{reg:Rax,src:t2,s4}",
    );
    long(
        "3b03",
        "ReadReg{=0,reg:Rax} ReadReg{=1,reg:Rbx} Load{=2,addr:t1,s4} Sub{=3,a:t0,b:t2,s4,f63}",
    );
}

#[test]
fn locked_arithmetic_is_atomic() {
    long(
        "f00103",
        "ReadReg{=0,reg:Rbx} ReadReg{=1,reg:Rax} AtomicRmw{old:2,addr:t0,src:t1,s4,op:Add} \
         Add{=3,a:t2,b:t1,s4,f63}",
    );
    long(
        "f0810b10000000",
        "ReadReg{=0,reg:Rbx} AtomicRmw{old:1,addr:t0,src:#16,s4,op:Or} Or{=2,a:t1,b:#16,s4,f63}",
    );
    long(
        "f0ff03",
        "ReadReg{=0,reg:Rbx} AtomicRmw{old:1,addr:t0,src:#1,s4,op:Add} Add{=2,a:t1,b:#1,s4,f62}",
    );
    long(
        "f0ff0b",
        "ReadReg{=0,reg:Rbx} AtomicRmw{old:1,addr:t0,src:#1,s4,op:Sub} Sub{=2,a:t1,b:#1,s4,f62}",
    );
    long(
        "f0f71b",
        "ReadReg{=0,reg:Rbx} AtomicRmw{old:1,addr:t0,src:#0,s4,op:Rsub} Sub{=2,a:#0,b:t1,s4,f63}",
    );
    long("f0f713", "ReadReg{=0,reg:Rbx} AtomicRmw{old:1,addr:t0,src:#MAX,s4,op:Xor}");
    long(
        "f00fc103",
        "ReadReg{=0,reg:Rax} ReadReg{=1,reg:Rbx} AtomicRmw{old:2,addr:t1,src:t0,s4,op:Add} \
         Add{=3,a:t2,b:t0,s4,f63} WriteReg{reg:Rax,src:t2,s4}",
    );
    long(
        "8703",
        "ReadReg{=0,reg:Rbx} ReadReg{=1,reg:Rax} AtomicRmw{old:2,addr:t0,src:t1,s4,op:Xchg} \
         WriteReg{reg:Rax,src:t2,s4}",
    );
    long(
        "f00fb10b",
        "ReadReg{=0,reg:Rbx} ReadReg{=1,reg:Rcx} ReadReg{=2,reg:Rax} \
         And{=3,a:t2,b:#4294967295,s8,f0} AtomicCas{old:4,addr:t0,expected:t3,src:t1,s4} \
         Sub{=5,a:t3,b:t4,s4,f63} WriteReg{reg:Rax,src:t4,s4}",
    );
    long(
        "f00fab33",
        "ReadReg{=0,reg:Rsi} ReadReg{=1,reg:Rbx} Sext{=2,a:t0,from:4} \
         Sar{=3,a:t2,b:#3,s8,f0} Add{=4,a:t1,b:t3,s8,f0} And{=5,a:t0,b:#7,s1,f0} \
         Shl{=6,a:#1,b:t5,s1,f0} AtomicRmw{old:7,addr:t4,src:t6,s1,op:Or} \
         Bt{result:8,a:t7,bit:t0,s1,op:Test}",
    );
    long(
        "f00fb333",
        "ReadReg{=0,reg:Rsi} ReadReg{=1,reg:Rbx} Sext{=2,a:t0,from:4} \
         Sar{=3,a:t2,b:#3,s8,f0} Add{=4,a:t1,b:t3,s8,f0} And{=5,a:t0,b:#7,s1,f0} \
         Shl{=6,a:#1,b:t5,s1,f0} Xor{=7,a:t6,b:#255,s1,f0} \
         AtomicRmw{old:8,addr:t4,src:t7,s1,op:And} Bt{result:9,a:t8,bit:t0,s1,op:Test}",
    );
    long(
        "f00fba3b05",
        "ReadReg{=0,reg:Rbx} And{=1,a:#5,b:#31,s4,f0} Shl{=2,a:#1,b:t1,s4,f0} \
         AtomicRmw{old:3,addr:t0,src:t2,s4,op:Xor} Bt{result:4,a:t3,bit:#5,s4,op:Test}",
    );
}

#[test]
fn one_operand_arithmetic() {
    long("48ffc0", "ReadReg{=0,reg:Rax} Add{=1,a:t0,b:#1,s8,f62} WriteReg{reg:Rax,src:t1,s8}");
    long("66ffc8", "ReadReg{=0,reg:Rax} Sub{=1,a:t0,b:#1,s2,f62} WriteReg{reg:Rax,src:t1,s2}");
    long(
        "ff03",
        "ReadReg{=0,reg:Rbx} Load{=1,addr:t0,s4} Add{=2,a:t1,b:#1,s4,f62} \
         Store{addr:t0,src:t2,s4,order:Plain}",
    );
    long("48f7d8", "ReadReg{=0,reg:Rax} Sub{=1,a:#0,b:t0,s8,f63} WriteReg{reg:Rax,src:t1,s8}");
    long("f7d0", "ReadReg{=0,reg:Rax} Xor{=1,a:t0,b:#MAX,s4,f0} WriteReg{reg:Rax,src:t1,s4}");
    long("0fc8", "ReadReg{=0,reg:Rax} Bswap{=1,a:t0,s4} WriteReg{reg:Rax,src:t1,s4}");
}

#[test]
fn shifts() {
    long("48c1e005", "ReadReg{=0,reg:Rax} Shl{=1,a:t0,b:#5,s8,f59} WriteReg{reg:Rax,src:t1,s8}");
    long(
        "48d3e8",
        "ReadReg{=0,reg:Rax} ReadReg{=1,reg:Rcx} Shr{=2,a:t0,b:t1,s8,f59} \
         WriteReg{reg:Rax,src:t2,s8}",
    );
    long("d1f8", "ReadReg{=0,reg:Rax} Sar{=1,a:t0,b:#1,s4,f59} WriteReg{reg:Rax,src:t1,s4}");
    long(
        "d3c0",
        "ReadReg{=0,reg:Rax} ReadReg{=1,reg:Rcx} Rol{=2,a:t0,b:t1,s4,f33} \
         WriteReg{reg:Rax,src:t2,s4}",
    );
    long("48d1d8", "ReadReg{=0,reg:Rax} Rcr{=1,a:t0,b:#1,s8,f33} WriteReg{reg:Rax,src:t1,s8}");
    long(
        "d00b",
        "ReadReg{=0,reg:Rbx} Load{=1,addr:t0,s1} Ror{=2,a:t1,b:#1,s1,f33} \
         Store{addr:t0,src:t2,s1,order:Plain}",
    );
    long(
        "480fa4d805",
        "ReadReg{=0,reg:Rbx} ReadReg{=2,reg:Rax} \
         DoubleShift{=1,a:t2,b:t0,count:#5,s8,left:true,f59} WriteReg{reg:Rax,src:t1,s8}",
    );
    long(
        "0fad03",
        "ReadReg{=0,reg:Rax} ReadReg{=1,reg:Rcx} ReadReg{=3,reg:Rbx} Load{=4,addr:t3,s4} \
         DoubleShift{=2,a:t4,b:t0,count:t1,s4,left:false,f59} \
         Store{addr:t3,src:t2,s4,order:Plain}",
    );
}

#[test]
fn multiplication_and_division() {
    long(
        "48f7e3",
        "ReadReg{=0,reg:Rax} ReadReg{=1,reg:Rbx} \
         Mul{lo:2,hi:3,a:t0,b:t1,s8,signed:false,f33} WriteReg{reg:Rax,src:t2,s8} \
         WriteReg{reg:Rdx,src:t3,s8}",
    );
    long(
        "f6e3",
        "ReadReg{=0,reg:Rax} ReadReg{=1,reg:Rbx} \
         Mul{lo:2,hi:3,a:t0,b:t1,s1,signed:false,f33} Shl{=4,a:t3,b:#8,s2,f0} \
         Or{=5,a:t2,b:t4,s2,f0} WriteReg{reg:Rax,src:t5,s2}",
    );
    long(
        "f6eb",
        "ReadReg{=0,reg:Rax} ReadReg{=1,reg:Rbx} Mul{lo:2,hi:3,a:t0,b:t1,s1,signed:true,f33} \
         Shl{=4,a:t3,b:#8,s2,f0} Or{=5,a:t2,b:t4,s2,f0} WriteReg{reg:Rax,src:t5,s2}",
    );
    long(
        "480fafc3",
        "ReadReg{=0,reg:Rax} ReadReg{=1,reg:Rbx} Mul{lo:2,hi:3,a:t0,b:t1,s8,signed:true,f33} \
         WriteReg{reg:Rax,src:t2,s8}",
    );
    long(
        "486bc307",
        "ReadReg{=0,reg:Rbx} Mul{lo:1,hi:2,a:t0,b:#7,s8,signed:true,f33} \
         WriteReg{reg:Rax,src:t1,s8}",
    );
    long(
        "f7f3",
        "ReadReg{=0,reg:Rdx} ReadReg{=1,reg:Rax} ReadReg{=2,reg:Rbx} \
         Div{quot:3,rem:4,hi:t0,lo:t1,divisor:t2,s4,signed:false} \
         WriteReg{reg:Rax,src:t3,s4} WriteReg{reg:Rdx,src:t4,s4}",
    );
    long(
        "f6fb",
        "ReadReg{=0,reg:Rax} Shr{=1,a:t0,b:#8,s8,f0} ReadReg{=2,reg:Rbx} \
         Div{quot:3,rem:4,hi:t1,lo:t0,divisor:t2,s1,signed:true} WriteReg{reg:Rax,src:t3,s1} \
         ReadReg{=5,reg:Rax} And{=6,a:t5,b:#18446744073709486335,s8,f0} \
         And{=7,a:t4,b:#255,s8,f0} Shl{=8,a:t7,b:#8,s8,f0} Or{=9,a:t6,b:t8,s8,f0} \
         WriteReg{reg:Rax,src:t9,s8}",
    );
    long(
        "c4e273f6c3",
        "ReadReg{=0,reg:Rdx} ReadReg{=1,reg:Rbx} Mul{lo:2,hi:3,a:t0,b:t1,s4,signed:false,f0} \
         WriteReg{reg:Rcx,src:t2,s4} WriteReg{reg:Rax,src:t3,s4}",
    );
}

#[test]
fn bit_instructions() {
    long(
        "0fbcc3",
        "ReadReg{=0,reg:Rbx} ReadReg{=1,reg:Rax} BitScan{=2,src:t0,old:t1,s4,op:Bsf} \
         WriteReg{reg:Rax,src:t2,s4}",
    );
    long(
        "f3480fbdc3",
        "ReadReg{=0,reg:Rbx} ReadReg{=1,reg:Rax} BitScan{=2,src:t0,old:t1,s8,op:Lzcnt} \
         WriteReg{reg:Rax,src:t2,s8}",
    );
    long("0fa3d8", "ReadReg{=0,reg:Rbx} ReadReg{=1,reg:Rax} Bt{result:2,a:t1,bit:t0,s4,op:Test}");
    long(
        "0fbae805",
        "ReadReg{=0,reg:Rax} Bt{result:1,a:t0,bit:#5,s4,op:SetBit} WriteReg{reg:Rax,src:t1,s4}",
    );
    long(
        "480fab03",
        "ReadReg{=0,reg:Rax} ReadReg{=1,reg:Rbx} Sext{=2,a:t0,from:8} \
         Sar{=3,a:t2,b:#3,s8,f0} Add{=4,a:t1,b:t3,s8,f0} Load{=5,addr:t4,s1} \
         Bt{result:6,a:t5,bit:t0,s1,op:SetBit} Store{addr:t4,src:t6,s1,order:Plain}",
    );
    long(
        "0fba3305",
        "ReadReg{=0,reg:Rbx} Load{=1,addr:t0,s4} Bt{result:2,a:t1,bit:#5,s4,op:Reset} \
         Store{addr:t0,src:t2,s4,order:Plain}",
    );
    long(
        "0fa303",
        "ReadReg{=0,reg:Rax} ReadReg{=1,reg:Rbx} Sext{=2,a:t0,from:4} \
         Sar{=3,a:t2,b:#3,s8,f0} Add{=4,a:t1,b:t3,s8,f0} Load{=5,addr:t4,s1} \
         Bt{result:6,a:t5,bit:t0,s1,op:Test}",
    );
    long(
        "c4e270f2c3",
        "ReadReg{=0,reg:Rcx} ReadReg{=1,reg:Rbx} Bmi{=2,a:t0,b:t1,s4,op:Andn} \
         WriteReg{reg:Rax,src:t2,s4}",
    );
    long(
        "c4e278f3cb",
        "ReadReg{=0,reg:Rbx} Bmi{=1,a:t0,b:#0,s4,op:Blsr} WriteReg{reg:Rax,src:t1,s4}",
    );
    long(
        "c4e271f7c3",
        "ReadReg{=0,reg:Rbx} ReadReg{=1,reg:Rcx} Shl{=2,a:t0,b:t1,s4,f0} \
         WriteReg{reg:Rax,src:t2,s4}",
    );
    long(
        "c4e37bf0c305",
        "ReadReg{=0,reg:Rbx} Ror{=1,a:t0,b:#5,s4,f0} WriteReg{reg:Rax,src:t1,s4}",
    );
}

#[test]
fn data_movement() {
    long("4889d8", "ReadReg{=0,reg:Rbx} WriteReg{reg:Rax,src:t0,s8}");
    long(
        "88e0",
        "ReadReg{=0,reg:Rax} Shr{=1,a:t0,b:#8,s8,f0} And{=2,a:t1,b:#255,s8,f0} \
         WriteReg{reg:Rax,src:t2,s1}",
    );
    long("c70305000000", "ReadReg{=0,reg:Rbx} Store{addr:t0,src:#5,s4,order:Plain}");
    long("48c7c0feffffff", "WriteReg{reg:Rax,src:#18446744073709551614,s8}");
    long(
        "8b4424f8",
        "ReadReg{=0,reg:Rsp} Add{=1,a:t0,b:#18446744073709551608,s8,f0} Load{=2,addr:t1,s4} \
         WriteReg{reg:Rax,src:t2,s4}",
    );
    long(
        "64488b042528000000",
        "ReadReg{=0,reg:FsBase} Add{=1,a:#40,b:t0,s8,f0} Load{=2,addr:t1,s8} \
         WriteReg{reg:Rax,src:t2,s8}",
    );
    long("488b0510000000", "Load{=0,addr:#4119,s8} WriteReg{reg:Rax,src:t0,s8}");
    long(
        "678b03",
        "ReadReg{=0,reg:Rbx} And{=1,a:t0,b:#4294967295,s8,f0} Load{=2,addr:t1,s4} \
         WriteReg{reg:Rax,src:t2,s4}",
    );
    long(
        "488d449810",
        "ReadReg{=0,reg:Rax} ReadReg{=1,reg:Rbx} Shl{=2,a:t1,b:#2,s8,f0} \
         Add{=3,a:t0,b:t2,s8,f0} Add{=4,a:t3,b:#16,s8,f0} WriteReg{reg:Rax,src:t4,s8}",
    );
    long("658d4308", "ReadReg{=0,reg:Rbx} Add{=1,a:t0,b:#8,s8,f0} WriteReg{reg:Rax,src:t1,s4}");
    long(
        "4887d8",
        "ReadReg{=0,reg:Rax} ReadReg{=1,reg:Rbx} WriteReg{reg:Rax,src:t1,s8} \
         WriteReg{reg:Rbx,src:t0,s8}",
    );
    long(
        "0fc1d8",
        "ReadReg{=0,reg:Rbx} ReadReg{=1,reg:Rax} Add{=2,a:t1,b:t0,s4,f63} \
         WriteReg{reg:Rbx,src:t1,s4} WriteReg{reg:Rax,src:t2,s4}",
    );
    long("0fb6c3", "ReadReg{=0,reg:Rbx} And{=1,a:t0,b:#255,s8,f0} WriteReg{reg:Rax,src:t1,s4}");
    long(
        "0fb6c7",
        "ReadReg{=0,reg:Rbx} Shr{=1,a:t0,b:#8,s8,f0} And{=2,a:t1,b:#255,s8,f0} \
         And{=3,a:t2,b:#255,s8,f0} WriteReg{reg:Rax,src:t3,s4}",
    );
    long("480fbec3", "ReadReg{=0,reg:Rbx} Sext{=1,a:t0,from:1} WriteReg{reg:Rax,src:t1,s8}");
    long("4863c3", "ReadReg{=0,reg:Rbx} Sext{=1,a:t0,from:4} WriteReg{reg:Rax,src:t1,s8}");
    long("98", "ReadReg{=0,reg:Rax} Sext{=1,a:t0,from:2} WriteReg{reg:Rax,src:t1,s4}");
    long("6698", "ReadReg{=0,reg:Rax} Sext{=1,a:t0,from:1} WriteReg{reg:Rax,src:t1,s2}");
    long("99", "ReadReg{=0,reg:Rax} Sar{=1,a:t0,b:#31,s4,f0} WriteReg{reg:Rdx,src:t1,s4}");
    long("4899", "ReadReg{=0,reg:Rax} Sar{=1,a:t0,b:#63,s8,f0} WriteReg{reg:Rdx,src:t1,s8}");
    long(
        "0f38f003",
        "ReadReg{=0,reg:Rbx} Load{=1,addr:t0,s4} Bswap{=2,a:t1,s4} WriteReg{reg:Rax,src:t2,s4}",
    );
    long(
        "0f38f103",
        "ReadReg{=0,reg:Rbx} ReadReg{=1,reg:Rax} Bswap{=2,a:t1,s4} \
         Store{addr:t0,src:t2,s4,order:Plain}",
    );
}

#[test]
fn conditions() {
    long("0f94c0", "GetCond{=0,cond:Eq} WriteReg{reg:Rax,src:t0,s1}");
    long(
        "0f9c03",
        "GetCond{=0,cond:Less} ReadReg{=1,reg:Rbx} Store{addr:t1,src:t0,s1,order:Plain}",
    );
    long(
        "480f44c3",
        "ReadReg{=0,reg:Rbx} ReadReg{=1,reg:Rax} GetCond{=2,cond:Eq} Sub{=3,a:#0,b:t2,s8,f0} \
         Xor{=4,a:t1,b:t0,s8,f0} And{=5,a:t4,b:t3,s8,f0} Xor{=6,a:t1,b:t5,s8,f0} \
         WriteReg{reg:Rax,src:t6,s8}",
    );
    long(
        "0f4303",
        "ReadReg{=0,reg:Rbx} Load{=1,addr:t0,s4} ReadReg{=2,reg:Rax} \
         GetCond{=3,cond:AboveEq} Sub{=4,a:#0,b:t3,s8,f0} Xor{=5,a:t2,b:t1,s8,f0} \
         And{=6,a:t5,b:t4,s8,f0} Xor{=7,a:t2,b:t6,s8,f0} WriteReg{reg:Rax,src:t7,s4}",
    );
}

#[test]
fn branches_and_calls() {
    long("eb10", "Jump{target:#4114}");
    long("ffe0", "ReadReg{=0,reg:Rax} Jump{target:t0}");
    long("ff23", "ReadReg{=0,reg:Rbx} Load{=1,addr:t0,s8} Jump{target:t1}");
    long("7405", "Branch{cond:Eq,taken:4103,fallthrough:4098}");
    long("e805000000", "Call{target:#4106,return_addr:4101,slot:8,wrap_sp:false}");
    long("ffd0", "ReadReg{=0,reg:Rax} Call{target:t0,return_addr:4098,slot:8,wrap_sp:false}");
    long("c3", "Ret{slot:8,pop_extra:0,wrap_sp:false}");
    long("c20800", "Ret{slot:8,pop_extra:8,wrap_sp:false}");
    compat("e805000000", "Call{target:#4106,return_addr:4101,slot:4,wrap_sp:true}");
    compat("c3", "Ret{slot:4,pop_extra:0,wrap_sp:true}");
    compat(
        "ff20",
        "ReadReg{=0,reg:Rax} And{=1,a:t0,b:#4294967295,s8,f0} Load{=2,addr:t1,s4} \
         And{=3,a:t2,b:#4294967295,s8,f0} Jump{target:t3}",
    );
    compat("66ffe0", "ReadReg{=0,reg:Rax} And{=1,a:t0,b:#65535,s8,f0} Jump{target:t1}");
    long("ebfe", "Jump{target:#4096}");
}

#[test]
fn stack() {
    long(
        "50",
        "ReadReg{=0,reg:Rax} ReadReg{=1,reg:Rsp} Sub{=2,a:t1,b:#8,s8,f0} \
         Store{addr:t2,src:t0,s8,order:Plain} WriteReg{reg:Rsp,src:t2,s8}",
    );
    long(
        "54",
        "ReadReg{=0,reg:Rsp} ReadReg{=1,reg:Rsp} Sub{=2,a:t1,b:#8,s8,f0} \
         Store{addr:t2,src:t0,s8,order:Plain} WriteReg{reg:Rsp,src:t2,s8}",
    );
    long(
        "6aff",
        "ReadReg{=0,reg:Rsp} Sub{=1,a:t0,b:#8,s8,f0} Store{addr:t1,src:#MAX,s8,order:Plain} \
         WriteReg{reg:Rsp,src:t1,s8}",
    );
    long(
        "666a05",
        "ReadReg{=0,reg:Rsp} Sub{=1,a:t0,b:#2,s8,f0} Store{addr:t1,src:#5,s2,order:Plain} \
         WriteReg{reg:Rsp,src:t1,s8}",
    );
    long(
        "58",
        "ReadReg{=0,reg:Rsp} Load{=1,addr:t0,s8} Add{=2,a:t0,b:#8,s8,f0} \
         WriteReg{reg:Rsp,src:t2,s8} WriteReg{reg:Rax,src:t1,s8}",
    );
    long(
        "5c",
        "ReadReg{=0,reg:Rsp} Load{=1,addr:t0,s8} Add{=2,a:t0,b:#8,s8,f0} \
         WriteReg{reg:Rsp,src:t2,s8} WriteReg{reg:Rsp,src:t1,s8}",
    );
    long(
        "8f03",
        "ReadReg{=0,reg:Rsp} Load{=1,addr:t0,s8} Add{=2,a:t0,b:#8,s8,f0} ReadReg{=3,reg:Rbx} \
         Store{addr:t3,src:t1,s8,order:Plain} WriteReg{reg:Rsp,src:t2,s8}",
    );
    long(
        "ff33",
        "ReadReg{=0,reg:Rbx} Load{=1,addr:t0,s8} ReadReg{=2,reg:Rsp} Sub{=3,a:t2,b:#8,s8,f0} \
         Store{addr:t3,src:t1,s8,order:Plain} WriteReg{reg:Rsp,src:t3,s8}",
    );
    long(
        "c9",
        "ReadReg{=0,reg:Rbp} Load{=1,addr:t0,s8} Add{=2,a:t0,b:#8,s8,f0} \
         WriteReg{reg:Rbp,src:t1,s8} WriteReg{reg:Rsp,src:t2,s8}",
    );
    long(
        "66c9",
        "ReadReg{=0,reg:Rbp} Load{=1,addr:t0,s2} Add{=2,a:t0,b:#2,s8,f0} \
         WriteReg{reg:Rbp,src:t1,s2} WriteReg{reg:Rsp,src:t2,s8}",
    );
    compat(
        "50",
        "ReadReg{=0,reg:Rax} ReadReg{=1,reg:Rsp} Sub{=2,a:t1,b:#4,s8,f0} \
         And{=2,a:t2,b:#4294967295,s8,f0} Store{addr:t2,src:t0,s4,order:Plain} \
         WriteReg{reg:Rsp,src:t2,s4}",
    );
    compat(
        "58",
        "ReadReg{=0,reg:Rsp} Load{=1,addr:t0,s4} Add{=2,a:t0,b:#4,s8,f0} \
         WriteReg{reg:Rsp,src:t2,s4} WriteReg{reg:Rax,src:t1,s4}",
    );
}

#[test]
fn vector_moves() {
    long("660f6fca", "VMov{=1,src:2}");
    long("f30f6f0b", "ReadReg{=0,reg:Rbx} VLoad{=1,addr:t0,s16}");
    long("f30f7f0b", "ReadReg{=0,reg:Rbx} VStore{addr:t0,src:1,s16}");
    long("f30f7eca", "VToGpr{=0,src:2,s8} VFromGpr{=1,src:t0,s8}");
    long("660f7ec8", "VToGpr{=0,src:1,s4} WriteReg{reg:Rax,src:t0,s4}");
    long("66480f6ec8", "ReadReg{=0,reg:Rax} VFromGpr{=1,src:t0,s8}");
    long("c5fa6f0b", "ReadReg{=0,reg:Rbx} VLoad{=1,addr:t0,s16} VZeroUpper{reg:1}");
    long("c5fe6f0b", "ReadReg{=0,reg:Rbx} VLoadWide{=1,addr:t0,bytes:32}");
    long("c5fe6fca", "VMovWide{=1,src:2,bytes:32}");
    long("c5fe7f0b", "ReadReg{=0,reg:Rbx} VStoreWide{addr:t0,src:1,bytes:32}");
    long("62f17e486f0b", "ReadReg{=0,reg:Rbx} VLoadWide{=1,addr:t0,bytes:64}");
    long("62f17e4a6fcb", "VMaskMov{=1,src:3,k:2,elem:4,zeroing:false,bytes:64}");
    long("62f17eca6fcb", "VMaskMov{=1,src:3,k:2,elem:4,zeroing:true,bytes:64}");
    long(
        "62f17e4a6f0b",
        "ReadReg{=0,reg:Rbx} VMaskLoadMem{=1,addr:t0,k:2,elem:4,zeroing:false,bytes:64}",
    );
    long("62f17e4a7f0b", "ReadReg{=0,reg:Rbx} VMaskStoreMem{src:1,addr:t0,k:2,elem:4,bytes:64}");
    long("0f16ca", "VMoveHalf{=1,src:2,dst_high:true,src_high:false}");
    long("0f160b", "ReadReg{=0,reg:Rbx} VLoadHalf{=1,addr:t0,high:true}");
    long("0f130b", "ReadReg{=0,reg:Rbx} VStoreHalf{addr:t0,src:1,high:false}");
    long(
        "c5e8160b",
        "ReadReg{=0,reg:Rbx} VMov{=1,src:2} VLoadHalf{=1,addr:t0,high:true} VZeroUpper{reg:1}",
    );
    long("660fc4c803", "ReadReg{=0,reg:Rax} VInsertW{=1,src:t0,index:3}");
    long("660f3a22c802", "ReadReg{=0,reg:Rax} VInsertLane{=1,base:1,src:t0,index:2,s4}");
    long(
        "c4e3e922c801",
        "ReadReg{=0,reg:Rax} VInsertLane{=1,base:2,src:t0,index:1,s8} VZeroUpper{reg:1}",
    );
    long("660fc5c103", "VExtractW{=0,src:1,index:3} WriteReg{reg:Rax,src:t0,s4}");
    long(
        "660f3a160b02",
        "VExtractLane{=0,src:1,index:2,s4} ReadReg{=1,reg:Rbx} \
         Store{addr:t1,src:t0,s4,order:Plain}",
    );
}

#[test]
fn vector_logic_and_arithmetic() {
    long("660fefca", "VLogic{=1,a:1,b:2,op:Xor}");
    long("660fef0b", "ReadReg{=0,reg:Rbx} VLogicM{=1,addr:t0,op:Xor}");
    long("c5e9efcb", "VLogic{=1,a:2,b:3,op:Xor} VZeroUpper{reg:1}");
    long(
        "c5e9ef0b",
        "ReadReg{=0,reg:Rbx} VMov{=1,src:2} VLogicM{=1,addr:t0,op:Xor} VZeroUpper{reg:1}",
    );
    long("c5f1ef0b", "ReadReg{=0,reg:Rbx} VLogicM{=1,addr:t0,op:Xor} VZeroUpper{reg:1}");
    long("c5edefcb", "VLogic256{=1,a:2,b:3,op:Xor}");
    long("c5edef0b", "ReadReg{=0,reg:Rbx} VLogic256M{=1,a:2,addr:t0,op:Xor}");
    long("62f16d48dbcb", "VLogicWide{=1,a:2,b:3,op:And,bytes:64}");
    long("62f16d48db0b", "ReadReg{=0,reg:Rbx} VLogicWideM{=1,a:2,addr:t0,op:And,bytes:64}");
    long("62f16d4adbcb", "VMaskedLogic{=1,a:2,b:3,op:And,k:2,elem:4,zeroing:false,bytes:64}");
    long("62f36d4825cb96", "VPTernlog{=1,b:2,c:3,imm:150,bytes:64}");
    long("660ffeca", "VPackedBin{=1,a:1,b:2,lane:4,op:Add}");
    long("c5e9fecb", "VPackedBin{=1,a:2,b:3,lane:4,op:Add} VZeroUpper{reg:1}");
    long("c5edfecb", "VPackedBin256{=1,a:2,b:3,lane:4,op:Add}");
    long("62f16d48fecb", "VPackedWide{=1,a:2,b:3,lane:4,op:Add,bytes:64}");
    long(
        "62f16d48fe0b",
        "ReadReg{=0,reg:Rbx} VPackedWideM{=1,a:2,addr:t0,lane:4,op:Add,bytes:64}",
    );
    long("62f16d4afecb", "VMaskedPacked{=1,a:2,b:3,op:Add,k:2,elem:4,zeroing:false,bytes:64}");
    long("c4e27d1eca", "VPAbs{=1,src:2,elem:4,dst_width:32,writemask:None,zeroing:false}");
    long("62f27d4855ca", "VPopcnt{=1,a:2,lane:4,bytes:64}");
    long("660f3808ca", "VPsign{=1,a:1,b:2,lane:1}");
    long("660f67ca", "VPackUsWB{=1,a:1,b:2}");
    long("c5ed6bcb", "VPackWide{=1,a:2,b:3,from_elem:4,signed:true,bytes:32}");
    long("660f72f105", "VPackedShift{=1,a:1,imm:5,lane:4,right:false,arith:false}");
    long("660ff2ca", "ERR");
    long(
        "c5f172f205",
        "VPackedShift{=1,a:2,imm:5,lane:4,right:false,arith:false} VZeroUpper{reg:1}",
    );
    long("c5f572e205", "VPackedShift256{=1,a:2,imm:5,lane:4,right:true,arith:true}");
    long("660f73f903", "VByteShift{=1,a:1,bytes:3,right:false}");
    long("c5f173da03", "VByteShift{=1,a:2,bytes:3,right:true} VZeroUpper{reg:1}");
}

#[test]
fn vector_shuffles() {
    long("c4e27958ca", "VBroadcast{=1,src:2,elem:4,w256:false}");
    long("c4e27d580b", "ReadReg{=0,reg:Rbx} VBroadcastM{=1,addr:t0,elem:4,w256:true}");
    long("62f27d487cc8", "ReadReg{=0,reg:Rax} VBroadcastGpr{=1,src:t0,elem:4,width:64}");
    long(
        "62f27d48580b",
        "ReadReg{=0,reg:Rbx} Load{=1,addr:t0,s4} VBroadcastGpr{=1,src:t1,elem:4,width:64}",
    );
    long("62f27d4858ca", "ERR");
    long("62f37d483bd101", "VExtractLaneWide{=1,src:2,idx:1,num_lanes:2}");
    long("62f37d483bd103", "VExtractLaneWide{=1,src:2,idx:1,num_lanes:2}");
    long("62f3ed483acb01", "VInsertLaneWide{=1,src:2,ins:3,idx:1,num_lanes:2,bytes:64}");
    long("62f3ed4803cb03", "VAlign{=1,a:2,b:3,shift:3,elem:8,bytes:64}");
    long("660f3810ca", "VPBlendV{=1,src:2,lane:1}");
    long(
        "62f27d4825ca",
        "\
         VPMovExtendWide{=1,src:2,from:4,to:8,signed:true,dst_width:64,writemask:None,zeroing:false}",
    );
    long("660f3830ca", "VPMovExtend{=1,src:2,from:1,to:2,signed:false}");
    long("660f38300b", "ReadReg{=0,reg:Rbx} VPMovExtendM{=1,addr:t0,from:1,to:2,signed:false}");
    long("c4e27930ca", "VPMovExtend{=1,src:2,from:1,to:2,signed:false} VZeroUpper{reg:1}");
    long(
        "62f26d487ecb",
        "VPermT2{=1,idx:2,tbl:3,elem:4,writemask:None,zeroing:false,bytes:64,imode:false}",
    );
    long(
        "62f26d4a76cb",
        "VPermT2{=1,idx:2,tbl:3,elem:4,writemask:2,zeroing:false,bytes:64,imode:true}",
    );
    long(
        "62f26d487e0b",
        "ReadReg{=0,reg:Rbx} \
         VPermT2M{=1,idx:2,addr:t0,elem:4,writemask:None,zeroing:false,bytes:64,imode:false}",
    );
    long(
        "62f27e4835d1",
        "VPmovNarrow{=1,src:2,from:8,to:4,src_width:64,writemask:None,zeroing:false}",
    );
    long(
        "62f27e483513",
        "ReadReg{=0,reg:Rbx} VPmovNarrowMem{src:2,addr:t0,from:8,to:4,src_width:64}",
    );
    long("660f70ca1b", "VShuffle32{=1,a:2,imm:27}");
    long("660f700b1b", "ReadReg{=0,reg:Rbx} VLoad{=1,addr:t0,s16} VShuffle32{=1,a:1,imm:27}");
    long("c5fd70ca1b", "VShuffle32Wide{=1,a:2,imm:27,bytes:32,writemask:None,zeroing:false}");
    long("c4e26d36cb", "VPermd{=1,ctrl:2,src:3}");
    long("62f26d4836cb", "VPerm1{=1,idx:2,src:3,elem:4,bytes:64,writemask:None,zeroing:false}");
    long("c4e3690ecb05", "VBlendW{=1,a:2,b:3,imm:5} VZeroUpper{reg:1}");
    long("0fc6ca1b", "VShufps{=1,a:1,b:2,imm:27}");
    long("660fc6ca01", "VShufps{=1,a:1,b:2,imm:78}");
    long("660fc6ca02", "VShufps{=1,a:1,b:2,imm:228}");
    long("f20f70ca1b", "VShuffle16{=1,a:2,imm:27,high:false}");
    long("660f60ca", "VUnpackLow{=1,a:1,b:2,lane:1,high:false}");
    long("c5e96acb", "VUnpackLow{=1,a:2,b:3,lane:4,high:true} VZeroUpper{reg:1}");
    long("660f3a0cca05", "ERR");
}

#[test]
fn masks() {
    long("c5ed4bcb", "VKUnpack{=1,a:2,b:3,half:8}");
    long("c5ec41cb", "VKBinOp{=1,a:2,b:3,op:And,width:16}");
    long("c5f844ca", "VKNot{=1,a:2,width:16}");
    long("c4e3f932ca03", "VKShift{=1,a:2,amount:3,width:16,left:true}");
    long("c5f890ca", "VKMovKK{=1,src:2,width:16}");
    long("c5fb92c8", "ReadReg{=0,reg:Rax} VKFromGpr{k:1,src:t0,width:32}");
    long("c5fb93c1", "VKToGpr{=0,k:1,width:32} WriteReg{reg:Rax,src:t0,s4}");
    long("c5f8900b", "ReadReg{=0,reg:Rbx} Load{=1,addr:t0,s2} VKFromGpr{k:1,src:t1,width:16}");
    long("c5f898ca", "VKOrTest{a:1,b:2,width:16}");
    long("62f26d4827cb", "VPTestToMask{k:1,a:2,b:3,elem:4,width:64,neg:false,writemask:None}");
    long("62f26e4a27cb", "VPTestToMask{k:1,a:2,b:3,elem:4,width:64,neg:true,writemask:2}");
    long(
        "62f36d481fcb01",
        "VPCmpToMask{k:1,a:2,b:3,elem:4,width:64,pred:1,signed:true,writemask:None}",
    );
    long(
        "62f16d4876cb",
        "VPCmpToMask{k:1,a:2,b:3,elem:4,width:64,pred:0,signed:false,writemask:None}",
    );
    long(
        "62f16d4866cb",
        "VPCmpToMask{k:1,a:2,b:3,elem:4,width:64,pred:6,signed:true,writemask:None}",
    );
    long("c5ed76cb", "VPackedBin256{=1,a:2,b:3,lane:4,op:CmpEq}");
}

#[test]
fn vector_crypto() {
    long("660f38dcca", "VAes{=1,a:1,b:2,op:Enc}");
    long("c4e269de0b", "ReadReg{=0,reg:Rbx} VAesM{=1,a:2,addr:t0,op:Dec} VZeroUpper{reg:1}");
    long("660f38dbca", "VAesImc{=1,src:2}");
    long("c4e379dfca01", "VAesKeygen{=1,src:2,imm:1} VZeroUpper{reg:1}");
    long("0f3accca03", "VSha{=1,a:1,b:2,imm:3,op:Sha1Rnds4}");
    long("0f38ccca", "VSha{=1,a:1,b:2,imm:0,op:Sha256Msg1}");
    long("660f38cfca", "VGfni{=1,a:1,b:2,imm:0,op:Mulb}");
    long("c4e3e9cecb63", "VGfni{=1,a:2,b:3,imm:99,op:AffineQb} VZeroUpper{reg:1}");
}

#[test]
fn vector_float() {
    long("f30f10ca", "VFloatMov{=1,a:1,src:2,prec:F32}");
    long("f20f100b", "ReadReg{=0,reg:Rbx} VLoad{=1,addr:t0,s8}");
    long("f20f110b", "ReadReg{=0,reg:Rbx} VStore{addr:t0,src:1,s8}");
    long("c5eb10cb", "VFloatMov{=1,a:2,src:3,prec:F64} VZeroUpper{reg:1}");
    long("c5fb100b", "ReadReg{=0,reg:Rbx} VLoad{=1,addr:t0,s8} VZeroUpper{reg:1}");
    long("f20f58ca", "VFloatBin{=1,a:1,b:2,op:Add,prec:F64,scalar:true}");
    long("0f590b", "ReadReg{=0,reg:Rbx} VFloatBinM{=1,addr:t0,op:Mul,prec:F32,scalar:false}");
    long("c5f358c0", "VFloatBin{=0,a:1,b:0,op:Add,prec:F64,scalar:true} VZeroUpper{reg:0}");
    long(
        "c5eb580b",
        "ReadReg{=0,reg:Rbx} VMov{=1,src:2} \
         VFloatBinM{=1,addr:t0,op:Add,prec:F64,scalar:true} VZeroUpper{reg:1}",
    );
    long("660f2eca", "VToGpr{=0,src:1,s8} VToGpr{=1,src:2,s8} VFloatCmp{a:t0,b:t1,prec:F64}");
    long("f20fc2ca01", "VFloatCmpMask{=1,a:1,b:2,prec:F64,scalar:true,pred:1}");
    long(
        "f2480f2ac8",
        "ReadReg{=0,reg:Rax} VCvtFromInt{=1,src:t0,int_size:8,prec:F64,signed:true}",
    );
    long(
        "c5eb2ac8",
        "ReadReg{=0,reg:Rax} VMov{=1,src:2} \
         VCvtFromInt{=1,src:t0,int_size:4,prec:F64,signed:true} VZeroUpper{reg:1}",
    );
    long(
        "f2480f2cc1",
        "VToGpr{=0,src:1,s8} VCvtToInt{=1,src:t0,int_size:8,prec:F64,trunc:true,signed:true} \
         WriteReg{reg:Rax,src:t1,s8}",
    );
    long(
        "f30f2d03",
        "ReadReg{=0,reg:Rbx} Load{=1,addr:t0,s4} \
         VCvtToInt{=2,src:t1,int_size:4,prec:F32,trunc:false,signed:true} \
         WriteReg{reg:Rax,src:t2,s4}",
    );
    long("f20f51ca", "VFloatUnary{=1,a:1,src:2,op:Sqrt,prec:F64,scalar:true}");
    long("c5eb51cb", "VFloatUnary{=1,a:2,src:3,op:Sqrt,prec:F64,scalar:true} VZeroUpper{reg:1}");
    long(
        "c4e2e9b9cb",
        "\
         VFma{=1,x:2,y:3,z:1,prec:F64,scalar:true,neg_prod:false,neg_add:false,bytes:16,writemask:None,zeroing:false}",
    );
    long(
        "c4e26da80b",
        "ReadReg{=0,reg:Rbx} \
         VFmaM{=1,x:2,y:1,z:0,addr:t0,mem_role:2,prec:F32,scalar:false,neg_prod:false,neg_add:false,bytes:32,writemask:None,zeroing:false}",
    );
    long(
        "c4e2e99dcb",
        "\
         VFma{=1,x:1,y:3,z:2,prec:F64,scalar:true,neg_prod:true,neg_add:false,bytes:16,writemask:None,zeroing:false}",
    );
    long("f30f5aca", "VToGpr{=0,src:2,s4} VCvtFloat{=1,src:t0,from:F32,to:F64}");
    long(
        "c5eb5acb",
        "VToGpr{=0,src:3,s8} VMov{=1,src:2} VCvtFloat{=1,src:t0,from:F64,to:F32} VZeroUpper{reg:1}",
    );
    long("660f3a0bca03", "VPRound{=1,a:1,src:2,prec:F64,mode:3,scalar:true}");
    long("660f3a080b01", "ReadReg{=0,reg:Rbx} VPRoundM{=1,addr:t0,prec:F32,mode:1,scalar:false}");
    long("62f3ed080bcb01", "VPRound{=1,a:2,src:3,prec:F64,mode:1,scalar:true} VZeroUpper{reg:1}");
    long("62f3ed080bcb11", "ERR");
    long("660f3a63ca0c", "VPcmpStr{a:1,b:2,imm:12,explicit:false}");
    long("660f3a610b0c", "ReadReg{=0,reg:Rbx} VPcmpStrM{a:1,addr:t0,imm:12,explicit:true}");
}

#[test]
fn strings_and_ports() {
    long("a4", "RepString{op:Movs,elem:1,rep:Once,addr_bits:64,seg_base:#0}");
    long("f3a4", "RepString{op:Movs,elem:1,rep:Rep,addr_bits:64,seg_base:#0}");
    long("f348ab", "RepString{op:Stos,elem:8,rep:Rep,addr_bits:64,seg_base:#0}");
    long("f2ae", "RepString{op:Scas,elem:1,rep:Repne,addr_bits:64,seg_base:#0}");
    long("f3a6", "RepString{op:Cmps,elem:1,rep:Repe,addr_bits:64,seg_base:#0}");
    long("f2a4", "RepString{op:Movs,elem:1,rep:Once,addr_bits:64,seg_base:#0}");
    long("67a4", "RepString{op:Movs,elem:1,rep:Once,addr_bits:32,seg_base:#0}");
    long(
        "64a4",
        "ReadReg{=0,reg:FsBase} RepString{op:Movs,elem:1,rep:Once,addr_bits:64,seg_base:t0}",
    );
    long("64aa", "RepString{op:Stos,elem:1,rep:Once,addr_bits:64,seg_base:#0}");
    long("a5", "RepString{op:Movs,elem:4,rep:Once,addr_bits:64,seg_base:#0}");
    long("a7", "RepString{op:Cmps,elem:4,rep:Once,addr_bits:64,seg_base:#0}");
    compat("a4", "RepString{op:Movs,elem:1,rep:Once,addr_bits:32,seg_base:#0}");
    compat("67ac", "RepString{op:Lods,elem:1,rep:Once,addr_bits:16,seg_base:#0}");
    long("67aa", "RepString{op:Stos,elem:1,rep:Once,addr_bits:32,seg_base:#0}");
    long("e410", "PortIo{port:#16,value:#0,s1,dir_out:false}");
    long(
        "ed",
        "ReadReg{=0,reg:Rdx} And{=1,a:t0,b:#65535,s8,f0} PortIo{port:t1,value:#0,s4,dir_out:false}",
    );
    long("e710", "ReadReg{=0,reg:Rax} PortIo{port:#16,value:t0,s4,dir_out:true}");
    long(
        "ee",
        "ReadReg{=0,reg:Rdx} And{=1,a:t0,b:#65535,s8,f0} ReadReg{=2,reg:Rax} \
         PortIo{port:t1,value:t2,s1,dir_out:true}",
    );
}

#[test]
fn traps_and_system() {
    long("cd80", "Syscall{is_amd64:false}");
    long("0f05", "Syscall{is_amd64:true}");
    long("f4", "Hlt");
    long("cc", "Trap{vector:3,advance:1}");
    long("f1", "Trap{vector:1,advance:1}");
    long("0f0b", "Trap{vector:6,advance:0}");
    long("90", "");
    long("f390", "");
    long("0faef0", "");
    long("0f180b", "");
    long("0fae13", "");
    long("fc", "SetDf{value:false}");
    long("fd", "SetDf{value:true}");
    long("0fa2", "Cpuid");
    long("0f01d0", "Xgetbv");
    long("0f31", "WriteReg{reg:Rax,src:#305419896,s4} WriteReg{reg:Rdx,src:#0,s4}");
    long("f30fb8c3", "ReadReg{=0,reg:Rbx} Popcnt{=1,src:t0,s4} WriteReg{reg:Rax,src:t1,s4}");
    long(
        "f20f38f1c3",
        "ReadReg{=0,reg:Rax} ReadReg{=1,reg:Rbx} Crc32{=2,crc:t0,src:t1,bytes:4} \
         WriteReg{reg:Rax,src:t2,s4}",
    );
    long("0fae1b", "ReadReg{=0,reg:Rbx} Store{addr:t0,src:#8064,s4,order:Plain}");
    long("0fae03", "ReadReg{=0,reg:Rbx} FxState{addr:t0,restore:false}");
    long("0fae0b", "ReadReg{=0,reg:Rbx} FxState{addr:t0,restore:true}");
}

#[test]
fn x87() {
    long("d903", "ReadReg{=0,reg:Rbx} X87{kind:FldF32,addr:t0,sti:1}");
    long("dd03", "ReadReg{=0,reg:Rbx} X87{kind:FldF64,addr:t0,sti:1}");
    long("db2b", "ReadReg{=0,reg:Rbx} X87{kind:FldF80,addr:t0,sti:1}");
    long("d9c2", "X87{kind:FldSti,addr:#0,sti:2}");
    long("df03", "ReadReg{=0,reg:Rbx} X87{kind:FildI16,addr:t0,sti:1}");
    long("df2b", "ReadReg{=0,reg:Rbx} X87{kind:FildI64,addr:t0,sti:1}");
    long("dddb", "X87{kind:FstpSti,addr:#0,sti:3}");
    long("df3b", "ReadReg{=0,reg:Rbx} X87{kind:FistpI64,addr:t0,sti:1}");
    long("d8c3", "X87{kind:FaddSti,addr:#0,sti:3}");
    long("dcc3", "X87{kind:FaddToSti,addr:#0,sti:3}");
    long("d80b", "ReadReg{=0,reg:Rbx} X87{kind:FmulMemF32,addr:t0,sti:1}");
    long("dec1", "X87{kind:FaddP,addr:#0,sti:1}");
    long("d9c9", "X87{kind:Fxch,addr:#0,sti:1}");
    long("d9fe", "X87{kind:Fsin,addr:#0,sti:1}");
    long("d9e8", "X87{kind:Fld1,addr:#0,sti:1}");
    long("dfe0", "X87{kind:Fnstsw,addr:#0,sti:0}");
    long("dd3b", "ReadReg{=0,reg:Rbx} X87{kind:FnstswMem,addr:t0,sti:1}");
    long("d92b", "ReadReg{=0,reg:Rbx} X87{kind:Fldcw,addr:t0,sti:1}");
    long("dff1", "X87{kind:Fcomip,addr:#0,sti:1}");
}

#[test]
fn not_lifted() {
    long("9c", "ERR");
    long("9d", "ERR");
    long("9f", "ERR");
    long("f8", "ERR");
    long("d7", "ERR");
    long("e2fe", "ERR");
    long("e305", "ERR");
    long("0fc70b", "ERR");
    long("0fb1d9", "ERR");
    long("0fc7f0", "ERR");
    long("8f4424f8", "ERR");
    long("0f01f9", "ERR");
    compat("66c3", "ERR");
    compat("60", "ERR");
    compat("66e80500", "ERR");
}
