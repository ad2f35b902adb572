//! End-to-end execution: a Fibonacci program in RV32 machine code runs to
//! its breakpoint and leaves the expected result in register a0.

use rvcore::decode::common::Isa;
use rvcore::fpu::FpOp;
use rvcore::hart::Hart;
use rvcore::uop::{Exception, FpBinaryOp, RoundMode};
use rvcore::xlen::Xlen;

/// A host bundle for integer-only programs; no floating-point instruction
/// reaches it.
struct NoFloat;

impl FpOp for NoFloat {
    fn arith32(&mut self, _op: FpBinaryOp, _rm: RoundMode, _a: u32, _b: u32) -> (u32, u8) {
        (0, 0)
    }
    fn arith64(&mut self, _op: FpBinaryOp, _rm: RoundMode, _a: u64, _b: u64) -> (u64, u8) {
        (0, 0)
    }
    fn fma32(&mut self, _rm: RoundMode, _a: u32, _b: u32, _c: u32) -> (u32, u8) {
        (0, 0)
    }
    fn fma64(&mut self, _rm: RoundMode, _a: u64, _b: u64, _c: u64) -> (u64, u8) {
        (0, 0)
    }
    fn sqrt32(&mut self, _rm: RoundMode, _a: u32) -> (u32, u8) {
        (0, 0)
    }
    fn sqrt64(&mut self, _rm: RoundMode, _a: u64) -> (u64, u8) {
        (0, 0)
    }
    fn f32_to_i32(&mut self, _rm: RoundMode, _a: u32) -> (i32, u8) {
        (0, 0)
    }
    fn f32_to_u32(&mut self, _rm: RoundMode, _a: u32) -> (u32, u8) {
        (0, 0)
    }
    fn f32_to_i64(&mut self, _rm: RoundMode, _a: u32) -> (i64, u8) {
        (0, 0)
    }
    fn f32_to_u64(&mut self, _rm: RoundMode, _a: u32) -> (u64, u8) {
        (0, 0)
    }
    fn f64_to_i32(&mut self, _rm: RoundMode, _a: u64) -> (i32, u8) {
        (0, 0)
    }
    fn f64_to_u32(&mut self, _rm: RoundMode, _a: u64) -> (u32, u8) {
        (0, 0)
    }
    fn f64_to_i64(&mut self, _rm: RoundMode, _a: u64) -> (i64, u8) {
        (0, 0)
    }
    fn f64_to_u64(&mut self, _rm: RoundMode, _a: u64) -> (u64, u8) {
        (0, 0)
    }
    fn i32_to_f32(&mut self, _rm: RoundMode, _v: i32) -> (u32, u8) {
        (0, 0)
    }
    fn u32_to_f32(&mut self, _rm: RoundMode, _v: u32) -> (u32, u8) {
        (0, 0)
    }
    fn i64_to_f32(&mut self, _rm: RoundMode, _v: i64) -> (u32, u8) {
        (0, 0)
    }
    fn u64_to_f32(&mut self, _rm: RoundMode, _v: u64) -> (u32, u8) {
        (0, 0)
    }
    fn i32_to_f64(&mut self, _rm: RoundMode, _v: i32) -> (u64, u8) {
        (0, 0)
    }
    fn u32_to_f64(&mut self, _rm: RoundMode, _v: u32) -> (u64, u8) {
        (0, 0)
    }
    fn i64_to_f64(&mut self, _rm: RoundMode, _v: i64) -> (u64, u8) {
        (0, 0)
    }
    fn u64_to_f64(&mut self, _rm: RoundMode, _v: u64) -> (u64, u8) {
        (0, 0)
    }
    fn f32_to_f64(&mut self, _a: u32) -> (u64, u8) {
        (0, 0)
    }
    fn f64_to_f32(&mut self, _rm: RoundMode, _a: u64) -> (u32, u8) {
        (0, 0)
    }
}

#[test]
fn mod_sanity() {
    let mut hart = Hart::new(Isa::full(Xlen::X32));
    // fib(20)
    let prog: [u8; 104] = [
        19, 5, 64, 1, 239, 0, 128, 0, 115, 0, 16, 0, 19, 1, 1, 255, 35, 38, 17, 0, 35, 36, 129, 0,
        35, 34, 145, 0, 35, 32, 33, 1, 19, 4, 5, 0, 147, 5, 32, 0, 19, 5, 16, 0, 99, 98, 180, 2,
        147, 4, 0, 0, 19, 9, 16, 0, 19, 5, 244, 255, 239, 240, 31, 253, 19, 4, 228, 255, 179, 4,
        149, 0, 227, 104, 137, 254, 19, 133, 20, 0, 131, 32, 193, 0, 3, 36, 129, 0, 131, 36, 65,
        0, 3, 41, 1, 0, 19, 1, 1, 1, 103, 128, 0, 0,
    ];
    let mut region = vec![0u8; 16384];
    region[..104].copy_from_slice(&prog);
    hart.mem = rvcore::mem::Mem::with_region(region);
    hart.wr_gpr(2, 16384);
    let mut host = NoFloat;
    hart.run(&mut host, 1_000_000);
    assert!(hart.stopped());
    assert_eq!(hart.priv_ctrl.trap, Some(Exception::Ebreak));
    assert_eq!(hart.rd_gpr(10), 10946);
}
