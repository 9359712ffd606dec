//! Small facts of the intermediate representation.
use x86jit_core::ir::{BmiOp, FPrec, FlagMask, IrBlock, IrRegion, PackedCvtKind, TempGen};
use x86jit_core::lift::CpuMode;
use x86jit_core::state::Reg;

#[test]
fn flag_masks() {
    assert!(FlagMask::none().is_none());
    assert!(!FlagMask::cf_of().is_none());
    assert_eq!(FlagMask::all().0, 0b11_1111);
    assert_eq!(FlagMask::all_but_cf().0, 0b11_1110);
    assert_eq!(FlagMask::shift().0, 0b11_1011);
    assert_eq!(FlagMask::cf_of().0, 0b10_0001);
}

#[test]
fn temporaries_count_up() {
    let mut g = TempGen::new();
    assert_eq!((g.fresh(), g.fresh(), g.count()), (0, 1, 2));
    assert_eq!(TempGen::default().count(), 0);
}

#[test]
fn widths() {
    assert_eq!((FPrec::F32.bytes(), FPrec::F64.bytes()), (4, 8));
    assert_eq!(PackedCvtKind::Dq2Pd.mem_bytes(), 8);
    assert_eq!(PackedCvtKind::Ps2Pd.mem_bytes(), 8);
    assert_eq!(PackedCvtKind::Pd2Ps.mem_bytes(), 16);
    assert_eq!((CpuMode::Long64.bits(), CpuMode::Compat32.bits()), (64, 32));
    assert!(CpuMode::Compat32.wraps_32() && !CpuMode::Long64.wraps_32());
}

#[test]
fn which_bit_operations_write_flags() {
    assert!(BmiOp::Andn.writes_flags() && BmiOp::Bzhi.writes_flags());
    assert!(!BmiOp::Pdep.writes_flags() && !BmiOp::Pext.writes_flags());
}

#[test]
fn general_registers_in_encoding_order() {
    assert_eq!(Reg::from_gpr_index(0), Reg::Rax);
    assert_eq!(Reg::from_gpr_index(4), Reg::Rsp);
    assert_eq!(Reg::from_gpr_index(15), Reg::R15);
}

#[test]
fn spans_of_a_region() {
    let block = |guest_start: u64, guest_len: u32| IrBlock {
        guest_start,
        ops: Vec::new(),
        temp_count: 0,
        guest_len,
        icount: 0,
    };
    let r = IrRegion { entry: 5, blocks: vec![block(5, 2), block(20, 7)], has_loop: false };
    assert_eq!(r.spans(), [(5, 2), (20, 7)]);
}
