//! Concrete end-to-end scenarios: reference decodes, NaN boxing,
//! rounding-mode plumbing, CSR plumbing, ALU edge values, memory and
//! atomics, and the decoded-op cache.

use rvcore::decode::cache::UopCache;
use rvcore::decode::common::Isa;
use rvcore::fpu::{Fpu, FpOp, CANONICAL_NAN_32, CANONICAL_NAN_64};
use rvcore::hart::Hart;
use rvcore::mem::Mem;
use rvcore::uop::{
    BinaryOp, Exception, FenceMode, FpBinaryOp, FpCmpCond, Instr, MemOrder, MiscMemOp, RoundMode,
};
use rvcore::uop::Precision;
use rvcore::xlen::Xlen;

/// A host bundle that echoes its first operand and records the rounding
/// mode it was called with; flags stay clear.
struct Recording {
    last_rm: Option<RoundMode>,
}

impl FpOp for Recording {
    fn arith32(&mut self, _op: FpBinaryOp, rm: RoundMode, a: u32, _b: u32) -> (u32, u8) {
        self.last_rm = Some(rm);
        (a, 0)
    }
    fn arith64(&mut self, _op: FpBinaryOp, rm: RoundMode, a: u64, _b: u64) -> (u64, u8) {
        self.last_rm = Some(rm);
        (a, 0)
    }
    fn fma32(&mut self, rm: RoundMode, a: u32, _b: u32, _c: u32) -> (u32, u8) {
        self.last_rm = Some(rm);
        (a, 0)
    }
    fn fma64(&mut self, rm: RoundMode, a: u64, _b: u64, _c: u64) -> (u64, u8) {
        self.last_rm = Some(rm);
        (a, 0)
    }
    fn sqrt32(&mut self, rm: RoundMode, a: u32) -> (u32, u8) {
        self.last_rm = Some(rm);
        (a, 0)
    }
    fn sqrt64(&mut self, rm: RoundMode, a: u64) -> (u64, u8) {
        self.last_rm = Some(rm);
        (a, 0)
    }
    fn f32_to_i32(&mut self, _rm: RoundMode, _a: u32) -> (i32, u8) {
        (0, 0)
    }
    fn f32_to_u32(&mut self, _rm: RoundMode, _a: u32) -> (u32, u8) {
        (0, 0)
    }
    fn f32_to_i64(&mut self, _rm: RoundMode, _a: u32) -> (i64, u8) {
        (0, 0)
    }
    fn f32_to_u64(&mut self, _rm: RoundMode, _a: u32) -> (u64, u8) {
        (0, 0)
    }
    fn f64_to_i32(&mut self, _rm: RoundMode, _a: u64) -> (i32, u8) {
        (0, 0)
    }
    fn f64_to_u32(&mut self, _rm: RoundMode, _a: u64) -> (u32, u8) {
        (0, 0)
    }
    fn f64_to_i64(&mut self, _rm: RoundMode, _a: u64) -> (i64, u8) {
        (0, 0)
    }
    fn f64_to_u64(&mut self, _rm: RoundMode, _a: u64) -> (u64, u8) {
        (0, 0)
    }
    fn i32_to_f32(&mut self, _rm: RoundMode, _v: i32) -> (u32, u8) {
        (0, 0)
    }
    fn u32_to_f32(&mut self, _rm: RoundMode, _v: u32) -> (u32, u8) {
        (0, 0)
    }
    fn i64_to_f32(&mut self, _rm: RoundMode, _v: i64) -> (u32, u8) {
        (0, 0)
    }
    fn u64_to_f32(&mut self, _rm: RoundMode, _v: u64) -> (u32, u8) {
        (0, 0)
    }
    fn i32_to_f64(&mut self, _rm: RoundMode, _v: i32) -> (u64, u8) {
        (0, 0)
    }
    fn u32_to_f64(&mut self, _rm: RoundMode, _v: u32) -> (u64, u8) {
        (0, 0)
    }
    fn i64_to_f64(&mut self, _rm: RoundMode, _v: i64) -> (u64, u8) {
        (0, 0)
    }
    fn u64_to_f64(&mut self, _rm: RoundMode, _v: u64) -> (u64, u8) {
        (0, 0)
    }
    fn f32_to_f64(&mut self, _a: u32) -> (u64, u8) {
        (0, 0)
    }
    fn f64_to_f32(&mut self, _rm: RoundMode, _a: u64) -> (u32, u8) {
        (0, 0)
    }
}

#[test]
fn ret_decodes_to_jalr() {
    let isa = Isa::bare(Xlen::X32);
    assert_eq!(isa.dec32(0x00008067), Instr::Jalr(0, 1, 0));
}

#[test]
fn ebreak_decodes_to_trap() {
    let isa = Isa::bare(Xlen::X32);
    assert_eq!(isa.dec32(0x00100073), Instr::Trap(Exception::Ebreak));
}

#[test]
fn fence_i_gated_on_zifencei() {
    let mut isa = Isa::bare(Xlen::X32);
    assert_eq!(isa.dec32(0x0000100f), Instr::Trap(Exception::IllegalInstr));
    isa.zifencei = true;
    assert_eq!(isa.dec32(0x0000100f), Instr::MiscMem(MiscMemOp::FenceI));
}

#[test]
fn tso_fence_decodes() {
    let isa = Isa::bare(Xlen::X32);
    assert_eq!(
        isa.dec32(0x8330000f),
        Instr::MiscMem(MiscMemOp::Fence(3, 3, FenceMode::Tso))
    );
}

#[test]
fn nan_boxing() {
    let mut fpu = Fpu::new();
    let mut host = Recording { last_rm: None };
    // A single-precision 1.0 moved in is boxed under high ones; read back
    // through a double-precision arithmetic operation it is a NaN and the
    // result canonicalizes.
    fpu.u32_mv_f32(3, 0x3f80_0000);
    assert_eq!(fpu.f64_mv_u64(3), 0xffff_ffff_3f80_0000);
    fpu.u64_mv_f64(4, 0);
    fpu.binary_op(&mut host, 5, 3, 4, Precision::D, FpBinaryOp::Add);
    assert_eq!(fpu.f64_mv_u64(5), CANONICAL_NAN_64);
    // A double written directly, with its high half properly boxed, reads
    // back at single precision as exactly its low half.
    fpu.u64_mv_f64(6, 0xffff_ffff_4048_f5c3);
    assert_eq!(fpu.f32_mv_u32(6), 0x4048_f5c3);
    // Without the box, the single-precision read canonicalizes.
    fpu.u64_mv_f64(7, 0x4000_0000_4048_f5c3);
    assert_eq!(fpu.f32_mv_u32(7), CANONICAL_NAN_32);
}

#[test]
fn rounding_mode_plumbing() {
    let isa = Isa::full(Xlen::X32);
    let mut host = Recording { last_rm: None };

    // A dynamic-mode operation with the dynamic register unset raises the
    // illegal-instruction trap.
    let mut hart = Hart::new(isa);
    let _ = hart.csr_wr(2, 7);  // an invalid frm encoding unsets the register
    let i = Instr::FpOp2(0, 1, 2, RoundMode::Dyn, Precision::S, FpBinaryOp::Add);
    i.exec(&mut hart, &mut host);
    assert!(hart.stopped());
    assert_eq!(hart.priv_ctrl.trap, Some(Exception::IllegalInstr));

    // After the frm register selects round-toward-zero, a dynamic-mode
    // operation reaches the host under that mode.
    let mut hart = Hart::new(isa);
    let _ = hart.csr_wr(2, 1);
    i.exec(&mut hart, &mut host);
    assert!(!hart.stopped());
    assert_eq!(host.last_rm, Some(RoundMode::Rtz));

    // An explicitly encoded mode reaches the host as encoded.
    host.last_rm = None;
    let i = Instr::FpOp2(0, 1, 2, RoundMode::Rup, Precision::S, FpBinaryOp::Add);
    i.exec(&mut hart, &mut host);
    assert_eq!(host.last_rm, Some(RoundMode::Rup));
}

#[test]
fn csr_plumbing() {
    let mut hart = Hart::new(Isa::full(Xlen::X32));
    // fflags accumulate, read back, and clear on write.
    hart.fpu.set_fpe(rvcore::fpu::FpExcept { nv: true, dz: false, of: false, uf: false, nx: true });
    assert_eq!(hart.csr_wr(1, 0), Ok(17));
    assert_eq!(hart.csr_wr(1, 0), Ok(0));
    // frm holds the dynamic rounding mode; fcsr packs both.
    assert_eq!(hart.csr_wr(2, 1), Ok(0));
    assert_eq!(hart.csr_set(3, 5), Ok(32));
    assert_eq!(hart.csr_clr(1, 4), Ok(5));
    // Any other CSR is illegal under this crate's privilege model.
    assert_eq!(hart.csr_wr(0x305, 0), Err(Exception::IllegalInstr));
}

#[test]
fn alu_edge_values() {
    let w = Xlen::X32;
    // Division by zero yields all ones and the dividend as remainder.
    assert_eq!(w.div(7, 0), 0xffff_ffff);
    assert_eq!(w.rem(7, 0), 7);
    // The overflowing signed division wraps back to the minimum.
    assert_eq!(w.div(0x8000_0000, 0xffff_ffff), 0x8000_0000);
    assert_eq!(w.rem(0x8000_0000, 0xffff_ffff), 0);
    // Ordinary signed division truncates toward zero.
    assert_eq!(w.div(0xffff_fff9, 2), 0xffff_fffd);  // -7 / 2 == -3
    assert_eq!(w.rem(0xffff_fff9, 2), 0xffff_ffff);  // -7 rem 2 == -1
    // Shifts mask their amount to the width.
    assert_eq!(BinaryOp::Sll.exec(w, 1, 33), 2);
    assert_eq!(BinaryOp::Srl.exec(w, 0x8000_0000, 31), 1);
    assert_eq!(BinaryOp::Sra.exec(w, 0x8000_0000, 31), 0xffff_ffff);
    assert_eq!(BinaryOp::Sra.exec(w, 0x7fff_ffff, 31), 0);
    // Signed and unsigned comparison and min/max.
    assert_eq!(BinaryOp::Slt.exec(w, 0xffff_ffff, 0), 1);
    assert_eq!(BinaryOp::SltU.exec(w, 0xffff_ffff, 0), 0);
    assert_eq!(BinaryOp::Min.exec(w, 0xffff_ffff, 1), 0xffff_ffff);
    assert_eq!(BinaryOp::MinU.exec(w, 0xffff_ffff, 1), 1);
    assert_eq!(BinaryOp::Second.exec(w, 5, 9), 9);
    // Word-width operations sign-extend their 32-bit result at 64 bits.
    let w = Xlen::X64;
    assert_eq!(BinaryOp::AddW.exec(w, 0x7fff_ffff, 1), 0xffff_ffff_8000_0000);
    assert_eq!(BinaryOp::SubW.exec(w, 0, 1), 0xffff_ffff_ffff_ffff);
}

#[test]
fn memory_and_atomics() {
    let mut mem = Mem::with_region(vec![0u8; 64]);
    assert_eq!(mem.wr_mem32(4, 0x1234_5678), Ok(()));
    assert_eq!(mem.rd_mem32(4), Ok(0x1234_5678));
    assert_eq!(mem.rd_mem8(4), Ok(0x78));
    assert_eq!(mem.rd_mem16(6), Ok(0x1234));
    assert_eq!(mem.rd_mem32(61), Err(Exception::AccessFault(rvcore::uop::MemProtect::R)));
    // Load-reserved then store-conditional succeeds once.
    assert_eq!(mem.load_rsrv32(4, MemOrder::Acquire), Ok(0x1234_5678));
    assert_eq!(mem.store_cond32(4, MemOrder::Release, 0xdead_beef), Ok(0));
    assert_eq!(mem.rd_mem32(4), Ok(0xdead_beef));
    // A second store-conditional finds its reservation consumed.
    assert_eq!(mem.store_cond32(4, MemOrder::Release, 1), Ok(1));
    assert_eq!(mem.rd_mem32(4), Ok(0xdead_beef));
    // An atomic add returns the old word and stores the sum.
    assert_eq!(mem.amo32(4, MemOrder::AcqRel, 1, BinaryOp::Add), Ok(0xdead_beef));
    assert_eq!(mem.rd_mem32(4), Ok(0xdead_bef0));
}

#[test]
fn uop_cache_semantics() {
    let mut cache = UopCache::new();
    assert_eq!(cache.read(8), None);
    cache.insert(8, Instr::Nop);
    assert_eq!(cache.read(8), Some(Instr::Nop));
    // A colliding program counter evicts.
    cache.insert(8 + 512, Instr::Jal(0, 8));
    assert_eq!(cache.read(8), None);
    assert_eq!(cache.read(8 + 512), Some(Instr::Jal(0, 8)));
    // A page flush clears only the page's entries.
    cache.insert(8, Instr::Nop);
    cache.insert(8192 + 16, Instr::Nop);
    cache.flush_page(10);
    assert_eq!(cache.read(8), None);
    assert_eq!(cache.read(8192 + 16), Some(Instr::Nop));
    cache.flush();
    assert_eq!(cache.read(8192 + 16), None);
}

#[test]
fn fp_compare_and_classify() {
    let mut fpu = Fpu::new();
    let one = 0x3f80_0000u32;  // 1.0
    let neg_zero = 0x8000_0000u32;
    let qnan = 0x7fc0_0000u32;
    let snan = 0x7f80_0001u32;
    fpu.u32_mv_f32(0, one);
    fpu.u32_mv_f32(1, neg_zero);
    fpu.u32_mv_f32(2, 0);
    fpu.u32_mv_f32(3, qnan);
    fpu.u32_mv_f32(4, snan);
    // Both zeroes compare equal; a quiet NaN compares false without a flag
    // on EQ, and any NaN raises the invalid flag on LT.
    assert_eq!(fpu.fp_cmp(1, 2, Precision::S, FpCmpCond::Eq), 1);
    assert_eq!(fpu.get_fpe().as_u8(), 0);
    assert_eq!(fpu.fp_cmp(3, 0, Precision::S, FpCmpCond::Eq), 0);
    assert_eq!(fpu.get_fpe().as_u8(), 0);
    assert_eq!(fpu.fp_cmp(4, 0, Precision::S, FpCmpCond::Eq), 0);
    assert_eq!(fpu.get_fpe().as_u8(), 16);
    fpu.clr_all_fpe();
    assert_eq!(fpu.fp_cmp(3, 0, Precision::S, FpCmpCond::Lt), 0);
    assert_eq!(fpu.get_fpe().as_u8(), 16);
    fpu.clr_all_fpe();
    assert_eq!(fpu.fp_cmp(1, 2, Precision::S, FpCmpCond::Lt), 0);
    assert_eq!(fpu.fp_cmp(2, 0, Precision::S, FpCmpCond::Le), 1);
    // Min and max prefer the negative zero respectively the positive one,
    // and a lone quiet NaN yields the other operand.
    let mut host = Recording { last_rm: None };
    fpu.binary_op(&mut host, 5, 1, 2, Precision::S, FpBinaryOp::Min);
    assert_eq!(fpu.f32_mv_u32(5), neg_zero);
    fpu.binary_op(&mut host, 5, 1, 2, Precision::S, FpBinaryOp::Max);
    assert_eq!(fpu.f32_mv_u32(5), 0);
    fpu.binary_op(&mut host, 5, 3, 0, Precision::S, FpBinaryOp::Min);
    assert_eq!(fpu.f32_mv_u32(5), one);
    assert_eq!(fpu.get_fpe().as_u8(), 0);
    fpu.binary_op(&mut host, 5, 4, 0, Precision::S, FpBinaryOp::Min);
    assert_eq!(fpu.f32_mv_u32(5), qnan);
    assert_eq!(fpu.get_fpe().as_u8(), 16);
    // Classification masks.
    let mut h2 = Hart::new(Isa::full(Xlen::X32));
    h2.fpu.u32_mv_f32(0, 0xff80_0000);  // negative infinity
    h2.fpu.u32_mv_f32(1, 0x0000_0001);  // positive subnormal
    let mut host = Recording { last_rm: None };
    let v = h2.fpu.fp_cvt_gp(&mut host, 0, Precision::S, rvcore::uop::FpGpOp::Class, Xlen::X32);
    assert_eq!(v, 1);
    let v = h2.fpu.fp_cvt_gp(&mut host, 1, Precision::S, rvcore::uop::FpGpOp::Class, Xlen::X32);
    assert_eq!(v, 32);
    // Sign injection composes sign and magnitude bit-exactly.
    fpu.u32_mv_f32(6, 0x4048_f5c3);
    fpu.u32_mv_f32(7, 0x8000_0000);
    fpu.binary_op(&mut host, 8, 6, 7, Precision::S, FpBinaryOp::SgnJ);
    assert_eq!(fpu.f32_mv_u32(8), 0xc048_f5c3);
    fpu.binary_op(&mut host, 8, 6, 7, Precision::S, FpBinaryOp::SgnJN);
    assert_eq!(fpu.f32_mv_u32(8), 0x4048_f5c3);
    fpu.binary_op(&mut host, 8, 6, 6, Precision::S, FpBinaryOp::SgnJX);
    assert_eq!(fpu.f32_mv_u32(8), 0x4048_f5c3);
}

#[test]
fn compressed_execution_steps_by_two() {
    // c.addi x10, 1 is 0x0505; two of them then an ebreak.
    let mut hart = Hart::new(Isa::full(Xlen::X32));
    let mut region = vec![0u8; 64];
    region[0] = 0x05;
    region[1] = 0x05;
    region[2] = 0x05;
    region[3] = 0x05;
    region[4] = 0x02;
    region[5] = 0x90;  // c.ebreak is 0x9002
    hart.mem = Mem::with_region(region);
    let mut host = Recording { last_rm: None };
    hart.run(&mut host, 100);
    assert!(hart.stopped());
    assert_eq!(hart.priv_ctrl.trap, Some(Exception::Ebreak));
    assert_eq!(hart.rd_gpr(10), 2);
    assert_eq!(hart.get_pc(), 4);
}
