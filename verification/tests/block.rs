//! Blocks: where they begin and end, what errors say, and which flags stay.
use x86jit_core::ir::IrOp;
use x86jit_core::lift::block::{
    lift_block, lift_block_with, lift_one, lift_one_with, refill_unsupported_bytes,
    BLOCK_FETCH_WINDOW,
};
use x86jit_core::lift::{CpuMode, LiftError};
use x86jit_core::memory::{Memory, MemoryModel, Prot, RegionKind};

const BASE: u64 = 0x1000;

fn mem_with(bytes: &[u8]) -> Memory {
    let mut m = Memory::new(MemoryModel::Flat { size: 0x4000 });
    m.map(BASE, bytes.len() as u64, Prot::RX, RegionKind::Ram).unwrap();
    m.write_bytes(BASE, bytes).unwrap();
    m
}

fn starts(ops: &[IrOp]) -> Vec<u64> {
    let mut out = Vec::new();
    for op in ops {
        if let IrOp::InsnStart { guest_addr } = op {
            out.push(*guest_addr);
        }
    }
    out
}

fn flags(ops: &[IrOp]) -> Vec<u8> {
    let mut out = Vec::new();
    for op in ops {
        match op {
            IrOp::Add { set_flags, .. }
            | IrOp::Sub { set_flags, .. }
            | IrOp::And { set_flags, .. }
            | IrOp::Shl { set_flags, .. }
            | IrOp::Adc { set_flags, .. } => out.push(set_flags.0),
            _ => {}
        }
    }
    out
}

fn fault(r: Result<x86jit_core::ir::IrBlock, LiftError>) -> Option<u64> {
    match r {
        Err(LiftError::DecodeFault { addr }) => Some(addr),
        _ => None,
    }
}

#[test]
fn block_ends_at_control_flow() {
    // add rax, rbx; inc rax; ret; nop
    let mem = mem_with(&[0x48, 0x01, 0xd8, 0x48, 0xff, 0xc0, 0xc3, 0x90]);
    let b = lift_block(&mem, BASE, CpuMode::Long64).unwrap();
    assert_eq!((b.guest_start, b.guest_len, b.icount), (BASE, 7, 3));
    assert_eq!(starts(&b.ops), [BASE, BASE + 3, BASE + 6]);
    assert!(matches!(b.ops.last(), Some(IrOp::Ret { .. })));
    assert_eq!(b.temp_count, 5);
}

#[test]
fn block_ends_where_code_ends() {
    let mem = mem_with(&[0x90, 0x90]);
    let b = lift_block(&mem, BASE, CpuMode::Long64).unwrap();
    assert_eq!((b.guest_len, b.icount), (2, 2));
    assert!(matches!(b.ops.last(), Some(IrOp::InsnStart { guest_addr: 0x1001 })));
}

#[test]
fn one_instruction_only() {
    let mem = mem_with(&[0x48, 0x01, 0xd8, 0x48, 0xff, 0xc0, 0xc3]);
    let b = lift_one(&mem, BASE + 3, CpuMode::Long64).unwrap();
    assert_eq!((b.guest_start, b.guest_len, b.icount), (BASE + 3, 3, 1));
    assert_eq!(starts(&b.ops), [BASE + 3]);
    assert_eq!(flags(&b.ops), [0b11_1110]);
    let kept = lift_one_with(&mem, BASE, CpuMode::Long64, false).unwrap();
    assert_eq!(flags(&kept.ops), [0b11_1111]);
}

#[test]
fn faults_name_their_address() {
    let mem = mem_with(&[0x90, 0x06]);
    assert_eq!(fault(lift_block(&mem, 0x3000, CpuMode::Long64)), Some(0x3000));
    assert_eq!(fault(lift_one(&mem, 0x3000, CpuMode::Long64)), Some(0x3000));
    // An opcode that does not exist in this mode.
    assert_eq!(fault(lift_block(&mem, BASE, CpuMode::Long64)), Some(BASE + 1));
    assert_eq!(fault(lift_one(&mem, BASE + 1, CpuMode::Long64)), Some(BASE + 1));
    // An instruction that the end of the code cuts off.
    let cut = mem_with(&[0x90, 0x48]);
    assert_eq!(fault(lift_block(&cut, BASE, CpuMode::Long64)), Some(BASE + 1));
    // A region that is no RAM holds no code.
    let mut m = Memory::new(MemoryModel::Flat { size: 0x4000 });
    m.map(BASE, 0x1000, Prot::RX, RegionKind::Trap).unwrap();
    assert_eq!(fault(lift_block(&m, BASE, CpuMode::Long64)), Some(BASE));
}

#[test]
fn unsupported_carries_its_bytes() {
    // nop; pushf
    let mem = mem_with(&[0x90, 0x9c]);
    match lift_block(&mem, BASE, CpuMode::Long64) {
        Err(LiftError::Unsupported { addr, bytes, len }) => {
            assert_eq!((addr, len), (BASE + 1, 1));
            assert_eq!(bytes[0], 0x9c);
            assert_eq!(&bytes[1..], &[0u8; 14]);
        }
        _ => panic!("pushf must not lift"),
    }
    match lift_one(&mem, BASE + 1, CpuMode::Long64) {
        Err(LiftError::Unsupported { addr, bytes, len }) => {
            assert_eq!((addr, bytes[0], len), (BASE + 1, 0x9c, 1));
        }
        _ => panic!("pushf must not lift"),
    }
}

#[test]
fn bytes_are_filled_in_where_they_are_known() {
    let code = [1u8, 2, 3, 4, 5];
    let err = |addr: u64, len: u8| LiftError::Unsupported { addr, bytes: [7; 15], len };
    match refill_unsupported_bytes(err(102, 3), &code, 100) {
        LiftError::Unsupported { addr, bytes, len } => {
            assert_eq!((addr, len), (102, 3));
            assert_eq!(bytes, [3, 4, 5, 7, 7, 7, 7, 7, 7, 7, 7, 7, 7, 7, 7]);
        }
        _ => panic!("the kind of error stays"),
    }
    match refill_unsupported_bytes(err(103, 3), &code, 100) {
        LiftError::Unsupported { bytes, .. } => assert_eq!(bytes, [7; 15]),
        _ => panic!("the kind of error stays"),
    }
    match refill_unsupported_bytes(LiftError::DecodeFault { addr: 9 }, &code, 100) {
        LiftError::DecodeFault { addr } => assert_eq!(addr, 9),
        _ => panic!("the kind of error stays"),
    }
}

/// Code without branches that is longer than the window is cut behind the last complete
/// instruction.
#[test]
fn long_stretch_is_cut() {
    let mut m = Memory::new(MemoryModel::Flat { size: 0x4000 });
    m.map(BASE, 0x2000, Prot::RX, RegionKind::Ram).unwrap();
    let inc: Vec<u8> = (0..0x2000).map(|i| [0x48, 0xff, 0xc0][i % 3]).collect();
    m.write_bytes(BASE, &inc).unwrap();
    let b = lift_block(&m, BASE, CpuMode::Long64).unwrap();
    assert_eq!(BLOCK_FETCH_WINDOW, 4096);
    assert_eq!((b.guest_len, b.icount), (4095, 1365));
    assert_eq!(starts(&b.ops).len(), 1365);
    // Instructions that fill the window leave nothing out.
    let nops = vec![0x90u8; 0x2000];
    m.write_bytes(BASE, &nops).unwrap();
    let b = lift_block(&m, BASE, CpuMode::Long64).unwrap();
    assert_eq!((b.guest_len, b.icount), (4096, 4096));
}

#[test]
fn dead_flags_are_dropped() {
    // add rax, rbx; add rax, rbx; ret
    let mem = mem_with(&[0x48, 0x01, 0xd8, 0x48, 0x01, 0xd8, 0xc3]);
    let b = lift_block(&mem, BASE, CpuMode::Long64).unwrap();
    assert_eq!(flags(&b.ops), [0, 0b11_1111]);
    let kept = lift_block_with(&mem, BASE, CpuMode::Long64, false).unwrap();
    assert_eq!(flags(&kept.ops), [0b11_1111, 0b11_1111]);
}

#[test]
fn observed_flags_stay() {
    // add rax, rbx; adc rax, rbx; ret: the carry is read.
    let mem = mem_with(&[0x48, 0x01, 0xd8, 0x48, 0x11, 0xd8, 0xc3]);
    let b = lift_block(&mem, BASE, CpuMode::Long64).unwrap();
    assert_eq!(flags(&b.ops), [1, 0b11_1111]);
    // add rax, rbx; inc rax; ret: inc keeps the carry.
    let mem = mem_with(&[0x48, 0x01, 0xd8, 0x48, 0xff, 0xc0, 0xc3]);
    let b = lift_block(&mem, BASE, CpuMode::Long64).unwrap();
    assert_eq!(flags(&b.ops), [1, 0b11_1110]);
    // add rax, rbx; shl rax, cl; ret: a shift by zero leaves the flags.
    let mem = mem_with(&[0x48, 0x01, 0xd8, 0x48, 0xd3, 0xe0, 0xc3]);
    let b = lift_block(&mem, BASE, CpuMode::Long64).unwrap();
    assert_eq!(flags(&b.ops), [0b11_1111, 0b11_1011]);
    // add rax, rbx; shl rax, 1; ret: this shift is never by zero, and leaves AF.
    let mem = mem_with(&[0x48, 0x01, 0xd8, 0x48, 0xd1, 0xe0, 0xc3]);
    let b = lift_block(&mem, BASE, CpuMode::Long64).unwrap();
    assert_eq!(flags(&b.ops), [0b00_0100, 0b11_1011]);
}

#[test]
fn first_instruction_begins_the_block() {
    // add rax, rbx; inc rax; ret
    let mem = mem_with(&[0x48, 0x01, 0xd8, 0x48, 0xff, 0xc0, 0xc3]);
    let one = lift_one_with(&mem, BASE, CpuMode::Long64, false).unwrap();
    let all = lift_block_with(&mem, BASE, CpuMode::Long64, false).unwrap();
    let n = one.ops.len();
    assert!(0 < n && n < all.ops.len());
    assert_eq!(format!("{:?}", one.ops), format!("{:?}", &all.ops[..n]));
}

#[test]
fn first_instruction_fails_as_the_block_does() {
    // A byte that is no instruction in this mode, then ret.
    let mem = mem_with(&[0x06, 0xc3]);
    assert_eq!(fault(lift_one(&mem, BASE, CpuMode::Long64)), Some(BASE));
    assert_eq!(fault(lift_block(&mem, BASE, CpuMode::Long64)), Some(BASE));
}

#[test]
fn block_of_one_instruction_is_that_instruction() {
    // ret
    let mem = mem_with(&[0xc3]);
    let one = lift_one(&mem, BASE, CpuMode::Long64).unwrap();
    let all = lift_block(&mem, BASE, CpuMode::Long64).unwrap();
    assert_eq!((all.icount, all.guest_len), (1, 1));
    assert_eq!(format!("{:?}", one), format!("{:?}", all));
}

#[test]
fn instructions_have_at_most_fifteen_bytes() {
    // mov rax, [rax], under prefixes that make it as long as can be; ret
    let mut code = vec![0x3e; 12];
    code.extend([0x48, 0x8b, 0x00, 0xc3]);
    let mem = mem_with(&code);
    let b = lift_block(&mem, BASE, CpuMode::Long64).unwrap();
    assert_eq!((b.icount, b.guest_len), (2, 16));
    assert_eq!(lift_one(&mem, BASE, CpuMode::Long64).unwrap().guest_len, 15);
}

#[test]
fn control_flow_keeps_to_32_bits() {
    // The last operation of the block.
    let last = |code: &[u8]| {
        let mem = mem_with(code);
        lift_block(&mem, BASE, CpuMode::Compat32).unwrap().ops.pop().unwrap()
    };
    // jmp, je and call to an address below zero, which wraps; ret
    match last(&[0xe9, 0xfb, 0xdf, 0xff, 0xff]) {
        IrOp::Jump { target } => assert_eq!(format!("{:?}", target), "Imm(4294963200)"),
        op => panic!("{:?}", op),
    }
    match last(&[0x0f, 0x84, 0xfa, 0xdf, 0xff, 0xff]) {
        IrOp::Branch { taken, fallthrough, .. } => {
            assert_eq!((taken, fallthrough), (0xffff_f000, BASE + 6))
        }
        op => panic!("{:?}", op),
    }
    match last(&[0xe8, 0xfb, 0xdf, 0xff, 0xff]) {
        IrOp::Call { target, return_addr, slot, wrap_sp } => {
            assert_eq!(format!("{:?}", target), "Imm(4294963200)");
            assert_eq!((return_addr, slot, wrap_sp), (BASE + 5, 4, true));
        }
        op => panic!("{:?}", op),
    }
    match last(&[0xc3]) {
        IrOp::Ret { slot, wrap_sp, .. } => assert_eq!((slot, wrap_sp), (4, true)),
        op => panic!("{:?}", op),
    }
}
