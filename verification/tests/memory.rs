//! Guest memory.
use x86jit_core::memory::{MemError, Memory, MemoryModel, Prot, RegionKind};

fn memory() -> Memory {
    Memory::new(MemoryModel::Flat { size: 0x1000 })
}

#[test]
fn fresh_memory_maps_nothing() {
    let m = memory();
    assert_eq!((m.size(), m.guest_base()), (0x1000, 0));
    assert_eq!(m.code_slice(0, 16), Err(MemError::Unmapped));
}

#[test]
fn mapping_errors() {
    let mut m = memory();
    assert_eq!(m.map(0, 0, Prot::RW, RegionKind::Ram), Err(MemError::OutOfRange));
    assert_eq!(m.map(0x800, 0x801, Prot::RW, RegionKind::Ram), Err(MemError::OutOfRange));
    assert_eq!(m.map(u64::MAX, 2, Prot::RW, RegionKind::Ram), Err(MemError::OutOfRange));
    assert_eq!(m.map(0x100, 0x100, Prot::RW, RegionKind::Ram), Ok(()));
    assert_eq!(m.map(0x1ff, 1, Prot::RW, RegionKind::Ram), Err(MemError::Overlap));
    assert_eq!(m.map(0x80, 0x81, Prot::RW, RegionKind::Ram), Err(MemError::Overlap));
    assert_eq!(m.map(0x80, 0x80, Prot::RW, RegionKind::Ram), Ok(()));
    assert_eq!(m.map(0x200, 0xe00, Prot::RW, RegionKind::Trap), Ok(()));
}

#[test]
fn writes_need_one_region_of_ram() {
    let mut m = memory();
    m.map(0x100, 0x100, Prot::R, RegionKind::Ram).unwrap();
    m.map(0x200, 0x100, Prot::RW, RegionKind::Ram).unwrap();
    m.map(0x300, 0x100, Prot::RW, RegionKind::Trap).unwrap();
    assert_eq!(m.write_bytes(0x1fe, &[1, 2]), Ok(()));
    assert_eq!(m.write_bytes(0x1ff, &[1, 2]), Err(MemError::Unmapped));
    assert_eq!(m.write_bytes(0x300, &[1]), Err(MemError::Unmapped));
    assert_eq!(m.write_bytes(0xff, &[1]), Err(MemError::Unmapped));
    assert_eq!(m.code_slice(0x1fd, 16), Ok(&[0u8, 1, 2][..]));
}

#[test]
fn code_stops_at_the_end_of_its_region() {
    let mut m = memory();
    m.map(0x100, 0x10, Prot::RX, RegionKind::Ram).unwrap();
    m.map(0x110, 0x10, Prot::RX, RegionKind::Ram).unwrap();
    m.write_bytes(0x108, &[1, 2, 3, 4, 5, 6, 7, 8]).unwrap();
    assert_eq!(m.code_slice(0x10c, 2), Ok(&[5u8, 6][..]));
    assert_eq!(m.code_slice(0x10c, 100), Ok(&[5u8, 6, 7, 8][..]));
    assert_eq!(m.code_slice(0x120, 1), Err(MemError::Unmapped));
}
