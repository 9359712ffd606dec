//! The layout that compiled code relies on.
use x86jit_core::exit::{AccessKind, Exit, StepResult};
use x86jit_core::jit_abi::{
    cpu_offsets, decode_ret, AfterBlock, CpuAddresses, MemCtx, RetStack, MEMCTX_BASE,
    MEMCTX_FAULT_ACCESS, MEMCTX_FAULT_ADDR, MEMCTX_FAULT_SIZE, MEMCTX_FUEL, MEMCTX_GUEST_BASE,
    MEMCTX_LINK_SLOT, MEMCTX_NEXT_ENTRY, MEMCTX_RET_STACK, MEMCTX_SIZE, RETSTACK_ENTRIES,
    RETSTACK_SP, RETSTACK_STRIDE, RET_CHAIN, RET_CONTINUE, RET_EXCEPTION, RET_HLT, RET_IBTC_MISS,
    RET_LINK, RET_MMIO_DEFER, RET_STACK_LEN, RET_SYSCALL, RET_UNMAPPED,
};
use x86jit_core::memory::{Memory, MemoryModel};

fn addr(x: &u64) -> usize {
    std::slice::from_ref(x).as_ptr() as usize
}

/// The fields of the context lie at their offsets, in the value itself and in its words.
#[test]
fn memctx_offsets_match_layout() {
    let m = MemCtx::for_memory(&Memory::new(MemoryModel::Flat { size: 0x1000 }));
    let base = std::slice::from_ref(&m).as_ptr() as usize;
    let off = |p: &u64| (addr(p) - base) as i32;
    assert_eq!(off(&m.base), MEMCTX_BASE);
    assert_eq!(off(&m.size), MEMCTX_SIZE);
    assert_eq!(off(&m.fault_addr), MEMCTX_FAULT_ADDR);
    assert_eq!(off(&m.fault_size), MEMCTX_FAULT_SIZE);
    assert_eq!(off(&m.fault_access), MEMCTX_FAULT_ACCESS);
    assert_eq!(off(&m.next_entry), MEMCTX_NEXT_ENTRY);
    assert_eq!(off(&m.link_slot), MEMCTX_LINK_SLOT);
    assert_eq!(off(&m.fuel), MEMCTX_FUEL);
    assert_eq!(MEMCTX_FUEL, 56);
    assert_eq!(off(&m.ret_stack), MEMCTX_RET_STACK);
    assert_eq!(MEMCTX_RET_STACK, 64);
    assert_eq!(off(&m.guest_base), MEMCTX_GUEST_BASE);
    assert_eq!(MEMCTX_GUEST_BASE, 72);
}

/// The push count, the ring and its frames lie at their offsets.
#[test]
fn retstack_offsets_match_layout() {
    let rs = RetStack::new();
    let base = std::slice::from_ref(&rs).as_ptr() as usize;
    let sp = &rs.words[0];
    let first = &rs.words[1];
    let second = &rs.words[3];
    assert_eq!(addr(sp) - base, RETSTACK_SP as usize);
    assert_eq!(addr(first) - base, RETSTACK_ENTRIES as usize);
    assert_eq!(addr(second) - addr(first), RETSTACK_STRIDE as usize);
}

#[test]
fn context_goes_through_words() {
    let m = MemCtx {
        base: 10,
        size: 11,
        fault_addr: 12,
        fault_size: 13,
        fault_access: 14,
        next_entry: 15,
        link_slot: 16,
        fuel: 17,
        ret_stack: 18,
        guest_base: 19,
    };
    let w = m.to_words();
    assert_eq!(w, [10, 11, 12, 13, 14, 15, 16, 17, 18, 19]);
    assert_eq!(w[MEMCTX_FUEL as usize / 8], 17);
    assert_eq!(MemCtx::from_words(&w), m);
}

#[test]
fn context_for_memory() {
    let mem = Memory::new(MemoryModel::Flat { size: 0x1000 });
    let m = MemCtx::for_memory(&mem);
    assert_ne!(m.base, 0);
    assert_eq!(m, MemCtx::for_buffer(m.base, 0x1000, 0));
    assert_eq!(m.fuel, u64::MAX);
    assert_eq!((m.fault_addr, m.fault_size, m.fault_access), (0, 0, 0));
    assert_eq!((m.next_entry, m.link_slot, m.ret_stack), (0, 0, 0));
    let other = Memory::new(MemoryModel::Flat { size: 0x1000 });
    assert_ne!(MemCtx::for_memory(&other).base, m.base);
}

#[test]
fn unmapped_exit_names_the_access() {
    let mut m = MemCtx::for_buffer(0, 16, 0);
    m.fault_addr = 0x77;
    assert_eq!(
        m.unmapped_exit(),
        Exit::UnmappedMemory { addr: 0x77, access: AccessKind::Read }
    );
    m.fault_access = 1;
    assert_eq!(
        m.unmapped_exit(),
        Exit::UnmappedMemory { addr: 0x77, access: AccessKind::Write }
    );
}

#[test]
fn return_codes_decode() {
    let mut m = MemCtx::for_buffer(0, 16, 0);
    m.fault_addr = 5;
    let go = Some(AfterBlock::Done(StepResult::Continue));
    let exit = |e: Exit| Some(AfterBlock::Done(StepResult::Exit(e)));
    assert_eq!(decode_ret(RET_CONTINUE, &m, 9), go);
    assert_eq!(decode_ret(RET_CHAIN, &m, 9), go);
    assert_eq!(decode_ret(RET_LINK, &m, 9), go);
    assert_eq!(decode_ret(RET_IBTC_MISS, &m, 9), go);
    assert_eq!(decode_ret(RET_SYSCALL, &m, 9), exit(Exit::Syscall));
    assert_eq!(decode_ret(RET_HLT, &m, 9), exit(Exit::Hlt));
    assert_eq!(
        decode_ret(RET_UNMAPPED, &m, 9),
        exit(Exit::UnmappedMemory { addr: 5, access: AccessKind::Read })
    );
    assert_eq!(
        decode_ret(RET_EXCEPTION, &m, 9),
        exit(Exit::Exception { addr: 9, vector: 0 })
    );
    assert_eq!(decode_ret(RET_MMIO_DEFER, &m, 9), Some(AfterBlock::StepOne));
    assert_eq!(decode_ret(9, &m, 9), None);
    assert_eq!(
        [RET_CONTINUE, RET_SYSCALL, RET_HLT, RET_UNMAPPED, RET_CHAIN],
        [0, 1, 2, 3, 4]
    );
    assert_eq!([RET_LINK, RET_EXCEPTION, RET_IBTC_MISS, RET_MMIO_DEFER], [5, 6, 7, 8]);
}

#[test]
fn fresh_return_stack_is_empty() {
    let rs = RetStack::default();
    assert_eq!(RET_STACK_LEN, 64);
    assert_eq!(rs.sp(), 0);
    for i in 0..RET_STACK_LEN {
        assert_eq!(rs.entry(i), (0, 0));
    }
    let mut rs = RetStack::new();
    rs.words[0] = 3;
    rs.words[1 + 2 * 5] = 40;
    rs.words[2 + 2 * 5] = 41;
    assert_eq!(rs.sp(), 3);
    assert_eq!(rs.entry(5), (40, 41));
}

#[test]
fn offsets_of_registers() {
    let at = CpuAddresses {
        base: 1000,
        gpr: 1000,
        rip: 1128,
        fs_base: 1136,
        gs_base: 1144,
        cf: 1152,
        pf: 1153,
        af: 1154,
        zf: 1155,
        sf: 1156,
        of: 1157,
        df: 1158,
        xmm: 1168,
        ymm_hi: 1424,
        zmm_hi: 1680,
        kmask: 2192,
    };
    let o = cpu_offsets(&at);
    assert_eq!((o.gpr, o.rip, o.fs_base, o.gs_base), (0, 128, 136, 144));
    assert_eq!((o.cf, o.pf, o.af, o.zf), (152, 153, 154, 155));
    assert_eq!((o.sf, o.of, o.df), (156, 157, 158));
    assert_eq!(o.gpr(15), 120);
    assert_eq!(o.xmm(3), 168 + 48);
    assert_eq!(o.ymm_hi(15), 424 + 240);
    assert_eq!(o.zmm_hi(2, 0), 680 + 64);
    assert_eq!(o.zmm_hi(2, 1), 680 + 80);
    assert_eq!(o.kmask(7), 1192 + 56);
}
