//! Regions: which blocks they hold, in which order, and whether they loop.
use x86jit_core::ir::{IrRegion, RegionCaps};
use x86jit_core::lift::region::{find_loop, lift_region, static_succs};
use x86jit_core::lift::{CpuMode, LiftError};
use x86jit_core::memory::{Memory, MemoryModel, Prot, RegionKind};

const BASE: u64 = 0x1000;

fn mem_with(bytes: &[u8]) -> Memory {
    let mut m = Memory::new(MemoryModel::Flat { size: 0x4000 });
    m.map(BASE, bytes.len() as u64, Prot::RX, RegionKind::Ram).unwrap();
    m.write_bytes(BASE, bytes).unwrap();
    m
}

fn region(bytes: &[u8], max_blocks: usize, max_icount: u32) -> IrRegion {
    let caps = RegionCaps { max_blocks, max_icount };
    lift_region(&mem_with(bytes), BASE, caps, CpuMode::Long64).unwrap()
}

fn order(r: &IrRegion) -> Vec<u64> {
    r.blocks.iter().map(|b| b.guest_start - BASE).collect()
}

// dec rax; jnz back to the start; ret
const LOOP: [u8; 6] = [0x48, 0xff, 0xc8, 0x75, 0xfb, 0xc3];

// je over; nop; jmp to ret; ret
const DIAMOND: [u8; 6] = [0x74, 0x03, 0x90, 0xeb, 0x00, 0xc3];

#[test]
fn loop_is_found() {
    let r = region(&LOOP, 8, 100);
    assert_eq!(r.entry, BASE);
    assert_eq!(order(&r), [0, 5]);
    assert!(r.has_loop);
    assert_eq!(static_succs(&r.blocks[0]), [BASE, BASE + 5]);
    assert!(static_succs(&r.blocks[1]).is_empty());
    assert_eq!(r.spans(), [(BASE, 5), (BASE + 5, 1)]);
}

#[test]
fn diamond_is_in_topological_order() {
    let r = region(&DIAMOND, 8, 100);
    assert_eq!(order(&r), [0, 2, 5]);
    assert!(!r.has_loop);
    assert_eq!(static_succs(&r.blocks[1]), [BASE + 5]);
    assert!(!find_loop(&r.blocks));
}

#[test]
fn caps_hold() {
    assert_eq!(order(&region(&DIAMOND, 0, 100)), [0]);
    assert_eq!(order(&region(&DIAMOND, 1, 100)), [0]);
    assert_eq!(order(&region(&DIAMOND, 2, 100)), [0, 5]);
    assert_eq!(order(&region(&DIAMOND, 8, 1)), [0]);
    assert_eq!(order(&region(&DIAMOND, 8, 2)), [0, 5]);
    // The loop edge needs no further block.
    assert!(region(&LOOP, 1, 100).has_loop);
}

#[test]
fn unliftable_successor_is_an_exit() {
    // je to pushf; ret; pushf
    let r = region(&[0x74, 0x01, 0xc3, 0x9c], 8, 100);
    assert_eq!(order(&r), [0, 2]);
}

#[test]
fn unliftable_entry_is_an_error() {
    let caps = RegionCaps { max_blocks: 8, max_icount: 100 };
    match lift_region(&mem_with(&[0x9c]), BASE, caps, CpuMode::Long64) {
        Err(LiftError::Unsupported { addr, bytes, len }) => {
            assert_eq!((addr, bytes[0], len), (BASE, 0x9c, 1));
        }
        _ => panic!("pushf must not lift"),
    }
    match lift_region(&mem_with(&[0x9c]), 0, caps, CpuMode::Long64) {
        Err(LiftError::DecodeFault { addr }) => assert_eq!(addr, 0),
        _ => panic!("nothing is mapped there"),
    }
}

/// Calls, returns and indirect jumps have no static successor.
#[test]
fn other_control_flow_leaves() {
    for code in [&[0xe8u8, 0, 0, 0, 0, 0xc3][..], &[0xff, 0xe0, 0xc3][..], &[0xf4, 0xc3][..]] {
        let r = region(code, 8, 100);
        assert_eq!(order(&r), [0]);
        assert!(static_succs(&r.blocks[0]).is_empty());
    }
    // A jump that only falls out of the window of code ends its block without one.
    assert_eq!(order(&region(&[0x90], 8, 100)), [0]);
}

#[test]
fn one_block_may_pass_the_instruction_cap() {
    // jmp on; nop; nop; ret
    let code = [0xeb, 0x00, 0x90, 0x90, 0xc3];
    let r = region(&code, 8, 2);
    assert_eq!(order(&r), [0, 2]);
    let total: u32 = r.blocks.iter().map(|b| b.icount).sum();
    assert_eq!(total, 4);
    assert_eq!(order(&region(&code, 8, 1)), [0]);
}

#[test]
fn any_cap_is_accepted() {
    let r = region(&DIAMOND, 8, u32::MAX);
    assert_eq!(order(&r), [0, 2, 5]);
    assert_eq!(order(&region(&DIAMOND, usize::MAX, u32::MAX)), [0, 2, 5]);
    assert_eq!(order(&region(&DIAMOND, 8, 0)), [0]);
}
