//! Lifting of code in guest memory.
use x86jit_core::lift::{lift_block, lift_one};
use x86jit_core::{CpuMode, IrOp, Memory, MemoryModel, Prot, RegionKind};

const BASE: u64 = 0x1000;

fn mem_with(bytes: &[u8]) -> Memory {
    let mut m = Memory::new(MemoryModel::Flat { size: 0x4000 });
    m.map(BASE, 0x1000, Prot::RX, RegionKind::Ram).unwrap();
    m.write_bytes(BASE, bytes).unwrap();
    m
}

fn check_bitness() {
    let bytes = &[0x48, 0xFF, 0xC0, 0xC3];
    let mem = mem_with(bytes);

    let long = lift_block(&mem, BASE, CpuMode::Long64).expect("lift long");
    let compat = lift_block(&mem, BASE, CpuMode::Compat32).expect("lift compat");
    assert!(
        compat.icount > long.icount,
        "32-bit decode splits the REX.W prefix into more instructions (long={}, compat={})",
        long.icount,
        compat.icount,
    );

    let one_long = lift_one(&mem, BASE, CpuMode::Long64).expect("one long");
    let one_compat = lift_one(&mem, BASE, CpuMode::Compat32).expect("one compat");
    assert_eq!(one_long.guest_len, 3);
    assert_eq!(one_compat.guest_len, 1);
}

fn check_int() {
    let syscall_gate = mem_with(&[0xCD, 0x80]);
    let blk = lift_one(&syscall_gate, BASE, CpuMode::Compat32).expect("lift int 0x80");
    assert!(
        matches!(blk.ops.last(), Some(IrOp::Syscall { is_amd64: false })),
        "int 0x80 must lift to Syscall (i386, no RCX/R11 latch), got {:?}",
        blk.ops.last()
    );

    let other = mem_with(&[0xCD, 0x2A]);
    let blk = lift_one(&other, BASE, CpuMode::Compat32).expect("lift int 0x2a");
    assert!(
        matches!(blk.ops.last(), Some(IrOp::Trap { vector: 0x2a, advance: 2 })),
        "int 0x2a must trap to vector 0x2a, got {:?}",
        blk.ops.last()
    );
}

/// The mode alone decides how bytes decode: `48` is a prefix in long mode and an instruction
/// in 32-bit mode.
#[test]
fn lift_lift_bitness_comes_from_mode_argument() {
    check_bitness();
}

#[test]
fn mod_lift_bitness_comes_from_mode_argument() {
    check_bitness();
}

/// `int 0x80` is the i386 system call gate; any other software interrupt traps to its vector.
#[test]
fn lift_int_0x80_is_syscall_other_int_is_trap() {
    check_int();
}

#[test]
fn mod_int_0x80_is_syscall_other_int_is_trap() {
    check_int();
}
