//! The single-precision binary operations against a reference table of
//! results and sticky flags, driven through a host bundle backed by the
//! machine's floating-point arithmetic with exactly computed IEEE flags.

use rvcore::fpu::{Fpu, FpOp};
use rvcore::uop::{FpBinaryOp, Precision, RoundMode};

const NV: u8 = 16;
const DZ: u8 = 8;
const OF: u8 = 4;
const NX: u8 = 1;
const UF: u8 = 2;

fn is_snan32(v: u32) -> bool {
    let f = f32::from_bits(v);
    f.is_nan() && (v & 0x40_0000) == 0
}

/// The flag for a quotient or product that is tiny after rounding with an
/// unbounded exponent: rescale into the normal range and compare.
fn tiny32(exact: f64) -> bool {
    let scaled = (exact * (2.0f64).powi(100)).abs() as f32;
    scaled < (2.0f32).powi(-26)
}

fn add32(a: f32, b: f32) -> (f32, u8) {
    let r = a + b;
    if a.is_nan() || b.is_nan() {
        let fl = if is_snan32(a.to_bits()) || is_snan32(b.to_bits()) { NV } else { 0 };
        return (r, fl);
    }
    if a.is_infinite() && b.is_infinite() {
        let fl = if a.is_sign_positive() != b.is_sign_positive() { NV } else { 0 };
        return (r, fl);
    }
    if a.is_infinite() || b.is_infinite() {
        return (r, 0);
    }
    if r.is_infinite() {
        return (r, OF | NX);
    }
    // The rounding error of an addition is computable exactly.
    let bv = r - a;
    let av = r - bv;
    let err = (a - av) + (b - bv);
    (r, if err != 0.0 { NX } else { 0 })
}

fn mul32(a: f32, b: f32) -> (f32, u8) {
    let r = a * b;
    if a.is_nan() || b.is_nan() {
        let fl = if is_snan32(a.to_bits()) || is_snan32(b.to_bits()) { NV } else { 0 };
        return (r, fl);
    }
    if (a == 0.0 && b.is_infinite()) || (b == 0.0 && a.is_infinite()) {
        return (r, NV);
    }
    if a.is_infinite() || b.is_infinite() {
        return (r, 0);
    }
    if r.is_infinite() {
        return (r, OF | NX);
    }
    // The product of two singles is exact at double precision.
    let exact = (a as f64) * (b as f64);
    let mut fl = 0;
    if (r as f64) != exact {
        fl |= NX;
        if tiny32(exact) {
            fl |= UF;
        }
    }
    (r, fl)
}

fn div32(a: f32, b: f32) -> (f32, u8) {
    let r = a / b;
    if a.is_nan() || b.is_nan() {
        let fl = if is_snan32(a.to_bits()) || is_snan32(b.to_bits()) { NV } else { 0 };
        return (r, fl);
    }
    if (a == 0.0 && b == 0.0) || (a.is_infinite() && b.is_infinite()) {
        return (r, NV);
    }
    if a.is_infinite() || b.is_infinite() {
        return (r, 0);
    }
    if b == 0.0 {
        return (r, DZ);
    }
    if r.is_infinite() {
        return (r, OF | NX);
    }
    // The quotient is exact precisely when multiplying back recovers the
    // dividend, which the doubles decide exactly.
    let mut fl = 0;
    if (r as f64) * (b as f64) != (a as f64) {
        fl |= NX;
        if tiny32((a as f64) / (b as f64)) {
            fl |= UF;
        }
    }
    (r, fl)
}

/// The machine's floating-point arithmetic with exactly computed flags for
/// the operations this suite exercises; the rest are unreached here.
struct HostArith;

impl FpOp for HostArith {
    fn arith32(&mut self, op: FpBinaryOp, _rm: RoundMode, a: u32, b: u32) -> (u32, u8) {
        let fa = f32::from_bits(a);
        let fb = f32::from_bits(b);
        let (r, fl) = match op {
            FpBinaryOp::Add => add32(fa, fb),
            FpBinaryOp::Sub => add32(fa, -fb),
            FpBinaryOp::Mul => mul32(fa, fb),
            FpBinaryOp::Div => div32(fa, fb),
            _ => (0.0, 0),
        };
        (r.to_bits(), fl)
    }
    fn arith64(&mut self, _op: FpBinaryOp, _rm: RoundMode, _a: u64, _b: u64) -> (u64, u8) {
        (0, 0)
    }
    fn fma32(&mut self, _rm: RoundMode, _a: u32, _b: u32, _c: u32) -> (u32, u8) {
        (0, 0)
    }
    fn fma64(&mut self, _rm: RoundMode, _a: u64, _b: u64, _c: u64) -> (u64, u8) {
        (0, 0)
    }
    fn sqrt32(&mut self, _rm: RoundMode, _a: u32) -> (u32, u8) {
        (0, 0)
    }
    fn sqrt64(&mut self, _rm: RoundMode, _a: u64) -> (u64, u8) {
        (0, 0)
    }
    fn f32_to_i32(&mut self, _rm: RoundMode, _a: u32) -> (i32, u8) {
        (0, 0)
    }
    fn f32_to_u32(&mut self, _rm: RoundMode, _a: u32) -> (u32, u8) {
        (0, 0)
    }
    fn f32_to_i64(&mut self, _rm: RoundMode, _a: u32) -> (i64, u8) {
        (0, 0)
    }
    fn f32_to_u64(&mut self, _rm: RoundMode, _a: u32) -> (u64, u8) {
        (0, 0)
    }
    fn f64_to_i32(&mut self, _rm: RoundMode, _a: u64) -> (i32, u8) {
        (0, 0)
    }
    fn f64_to_u32(&mut self, _rm: RoundMode, _a: u64) -> (u32, u8) {
        (0, 0)
    }
    fn f64_to_i64(&mut self, _rm: RoundMode, _a: u64) -> (i64, u8) {
        (0, 0)
    }
    fn f64_to_u64(&mut self, _rm: RoundMode, _a: u64) -> (u64, u8) {
        (0, 0)
    }
    fn i32_to_f32(&mut self, _rm: RoundMode, _v: i32) -> (u32, u8) {
        (0, 0)
    }
    fn u32_to_f32(&mut self, _rm: RoundMode, _v: u32) -> (u32, u8) {
        (0, 0)
    }
    fn i64_to_f32(&mut self, _rm: RoundMode, _v: i64) -> (u32, u8) {
        (0, 0)
    }
    fn u64_to_f32(&mut self, _rm: RoundMode, _v: u64) -> (u32, u8) {
        (0, 0)
    }
    fn i32_to_f64(&mut self, _rm: RoundMode, _v: i32) -> (u64, u8) {
        (0, 0)
    }
    fn u32_to_f64(&mut self, _rm: RoundMode, _v: u32) -> (u64, u8) {
        (0, 0)
    }
    fn i64_to_f64(&mut self, _rm: RoundMode, _v: i64) -> (u64, u8) {
        (0, 0)
    }
    fn u64_to_f64(&mut self, _rm: RoundMode, _v: u64) -> (u64, u8) {
        (0, 0)
    }
    fn f32_to_f64(&mut self, _a: u32) -> (u64, u8) {
        (0, 0)
    }
    fn f64_to_f32(&mut self, _rm: RoundMode, _a: u64) -> (u32, u8) {
        (0, 0)
    }
}

fn f32_op2_check(vals: &[u32], exp: &[(u32, u8)], op: FpBinaryOp) {
    let mut fpu = Fpu::new();
    let mut host = HostArith;
    let mut idx = 0usize;
    for &v1 in vals {
        for &v2 in vals {
            fpu.u32_mv_f32(0, v1);
            fpu.u32_mv_f32(1, v2);
            fpu.clr_all_fpe();
            fpu.binary_op(&mut host, 0, 0, 1, Precision::S, op);
            if exp[idx] != (fpu.f32_mv_u32(0), fpu.get_fpe().as_u8()) {
                println!(
                    "op: {:?}\nv1: {}\nv2: {}\nexp_val: {}\nexp_fpe: {}\nres_val: {}\nres_fpe: {}",
                    op,
                    v1,
                    v2,
                    exp[idx].0,
                    exp[idx].1,
                    fpu.f32_mv_u32(0),
                    fpu.get_fpe().as_u8()
                );
                panic!("f32_op2_check failed")
            }
            idx += 1;
        }
    }
}

#[test]
fn tests_sanity() {
    let vals: [u32; 14] = [0xffc00000, 0xff800001, 0xff800000, 0xff7fffff, 0xbf800000, 0x80000001, 0x80000000,
        0x00000000, 0x00000001, 0x3f800000, 0x7f7fffff, 0x7f800000, 0x7f800001, 0x7fc00000,];

    // add
    let exp: [(u32, u8); 196] = [(0x7fc00000, 0x0),
        (0x7fc00000, 0x10),
        (0x7fc00000, 0x0),
        (0x7fc00000, 0x0),
        (0x7fc00000, 0x0),
        (0x7fc00000, 0x0),
        (0x7fc00000, 0x0),
        (0x7fc00000, 0x0),
        (0x7fc00000, 0x0),
        (0x7fc00000, 0x0),
        (0x7fc00000, 0x0),
        (0x7fc00000, 0x0),
        (0x7fc00000, 0x10),
        (0x7fc00000, 0x0),
        (0x7fc00000, 0x10),
        (0x7fc00000, 0x10),
        (0x7fc00000, 0x10),
        (0x7fc00000, 0x10),
        (0x7fc00000, 0x10),
        (0x7fc00000, 0x10),
        (0x7fc00000, 0x10),
        (0x7fc00000, 0x10),
        (0x7fc00000, 0x10),
        (0x7fc00000, 0x10),
        (0x7fc00000, 0x10),
        (0x7fc00000, 0x10),
        (0x7fc00000, 0x10),
        (0x7fc00000, 0x10),
        (0x7fc00000, 0x0),
        (0x7fc00000, 0x10),
        (0xff800000, 0x0),
        (0xff800000, 0x0),
        (0xff800000, 0x0),
        (0xff800000, 0x0),
        (0xff800000, 0x0),
        (0xff800000, 0x0),
        (0xff800000, 0x0),
        (0xff800000, 0x0),
        (0xff800000, 0x0),
        (0x7fc00000, 0x10),
        (0x7fc00000, 0x10),
        (0x7fc00000, 0x0),
        (0x7fc00000, 0x0),
        (0x7fc00000, 0x10),
        (0xff800000, 0x0),
        (0xff800000, 0x5),
        (0xff7fffff, 0x1),
        (0xff7fffff, 0x1),
        (0xff7fffff, 0x0),
        (0xff7fffff, 0x0),
        (0xff7fffff, 0x1),
        (0xff7fffff, 0x1),
        (0x0, 0x0),
        (0x7f800000, 0x0),
        (0x7fc00000, 0x10),
        (0x7fc00000, 0x0),
        (0x7fc00000, 0x0),
        (0x7fc00000, 0x10),
        (0xff800000, 0x0),
        (0xff7fffff, 0x1),
        (0xc0000000, 0x0),
        (0xbf800000, 0x1),
        (0xbf800000, 0x0),
        (0xbf800000, 0x0),
        (0xbf800000, 0x1),
        (0x0, 0x0),
        (0x7f7fffff, 0x1),
        (0x7f800000, 0x0),
        (0x7fc00000, 0x10),
        (0x7fc00000, 0x0),
        (0x7fc00000, 0x0),
        (0x7fc00000, 0x10),
        (0xff800000, 0x0),
        (0xff7fffff, 0x1),
        (0xbf800000, 0x1),
        (0x80000002, 0x0),
        (0x80000001, 0x0),
        (0x80000001, 0x0),
        (0x0, 0x0),
        (0x3f800000, 0x1),
        (0x7f7fffff, 0x1),
        (0x7f800000, 0x0),
        (0x7fc00000, 0x10),
        (0x7fc00000, 0x0),
        (0x7fc00000, 0x0),
        (0x7fc00000, 0x10),
        (0xff800000, 0x0),
        (0xff7fffff, 0x0),
        (0xbf800000, 0x0),
        (0x80000001, 0x0),
        (0x80000000, 0x0),
        (0x0, 0x0),
        (0x1, 0x0),
        (0x3f800000, 0x0),
        (0x7f7fffff, 0x0),
        (0x7f800000, 0x0),
        (0x7fc00000, 0x10),
        (0x7fc00000, 0x0),
        (0x7fc00000, 0x0),
        (0x7fc00000, 0x10),
        (0xff800000, 0x0),
        (0xff7fffff, 0x0),
        (0xbf800000, 0x0),
        (0x80000001, 0x0),
        (0x0, 0x0),
        (0x0, 0x0),
        (0x1, 0x0),
        (0x3f800000, 0x0),
        (0x7f7fffff, 0x0),
        (0x7f800000, 0x0),
        (0x7fc00000, 0x10),
        (0x7fc00000, 0x0),
        (0x7fc00000, 0x0),
        (0x7fc00000, 0x10),
        (0xff800000, 0x0),
        (0xff7fffff, 0x1),
        (0xbf800000, 0x1),
        (0x0, 0x0),
        (0x1, 0x0),
        (0x1, 0x0),
        (0x2, 0x0),
        (0x3f800000, 0x1),
        (0x7f7fffff, 0x1),
        (0x7f800000, 0x0),
        (0x7fc00000, 0x10),
        (0x7fc00000, 0x0),
        (0x7fc00000, 0x0),
        (0x7fc00000, 0x10),
        (0xff800000, 0x0),
        (0xff7fffff, 0x1),
        (0x0, 0x0),
        (0x3f800000, 0x1),
        (0x3f800000, 0x0),
        (0x3f800000, 0x0),
        (0x3f800000, 0x1),
        (0x40000000, 0x0),
        (0x7f7fffff, 0x1),
        (0x7f800000, 0x0),
        (0x7fc00000, 0x10),
        (0x7fc00000, 0x0),
        (0x7fc00000, 0x0),
        (0x7fc00000, 0x10),
        (0xff800000, 0x0),
        (0x0, 0x0),
        (0x7f7fffff, 0x1),
        (0x7f7fffff, 0x1),
        (0x7f7fffff, 0x0),
        (0x7f7fffff, 0x0),
        (0x7f7fffff, 0x1),
        (0x7f7fffff, 0x1),
        (0x7f800000, 0x5),
        (0x7f800000, 0x0),
        (0x7fc00000, 0x10),
        (0x7fc00000, 0x0),
        (0x7fc00000, 0x0),
        (0x7fc00000, 0x10),
        (0x7fc00000, 0x10),
        (0x7f800000, 0x0),
        (0x7f800000, 0x0),
        (0x7f800000, 0x0),
        (0x7f800000, 0x0),
        (0x7f800000, 0x0),
        (0x7f800000, 0x0),
        (0x7f800000, 0x0),
        (0x7f800000, 0x0),
        (0x7f800000, 0x0),
        (0x7fc00000, 0x10),
        (0x7fc00000, 0x0),
        (0x7fc00000, 0x10),
        (0x7fc00000, 0x10),
        (0x7fc00000, 0x10),
        (0x7fc00000, 0x10),
        (0x7fc00000, 0x10),
        (0x7fc00000, 0x10),
        (0x7fc00000, 0x10),
        (0x7fc00000, 0x10),
        (0x7fc00000, 0x10),
        (0x7fc00000, 0x10),
        (0x7fc00000, 0x10),
        (0x7fc00000, 0x10),
        (0x7fc00000, 0x10),
        (0x7fc00000, 0x10),
        (0x7fc00000, 0x0),
        (0x7fc00000, 0x10),
        (0x7fc00000, 0x0),
        (0x7fc00000, 0x0),
        (0x7fc00000, 0x0),
        (0x7fc00000, 0x0),
        (0x7fc00000, 0x0),
        (0x7fc00000, 0x0),
        (0x7fc00000, 0x0),
        (0x7fc00000, 0x0),
        (0x7fc00000, 0x0),
        (0x7fc00000, 0x0),
        (0x7fc00000, 0x10),
        (0x7fc00000, 0x0),];
    f32_op2_check(&vals, &exp, FpBinaryOp::Add);

    // mul
    let exp: [(u32, u8); 196] = [(0x7fc00000, 0x0),
        (0x7fc00000, 0x10),
        (0x7fc00000, 0x0),
        (0x7fc00000, 0x0),
        (0x7fc00000, 0x0),
        (0x7fc00000, 0x0),
        (0x7fc00000, 0x0),
        (0x7fc00000, 0x0),
        (0x7fc00000, 0x0),
        (0x7fc00000, 0x0),
        (0x7fc00000, 0x0),
        (0x7fc00000, 0x0),
        (0x7fc00000, 0x10),
        (0x7fc00000, 0x0),
        (0x7fc00000, 0x10),
        (0x7fc00000, 0x10),
        (0x7fc00000, 0x10),
        (0x7fc00000, 0x10),
        (0x7fc00000, 0x10),
        (0x7fc00000, 0x10),
        (0x7fc00000, 0x10),
        (0x7fc00000, 0x10),
        (0x7fc00000, 0x10),
        (0x7fc00000, 0x10),
        (0x7fc00000, 0x10),
        (0x7fc00000, 0x10),
        (0x7fc00000, 0x10),
        (0x7fc00000, 0x10),
        (0x7fc00000, 0x0),
        (0x7fc00000, 0x10),
        (0x7f800000, 0x0),
        (0x7f800000, 0x0),
        (0x7f800000, 0x0),
        (0x7f800000, 0x0),
        (0x7fc00000, 0x10),
        (0x7fc00000, 0x10),
        (0xff800000, 0x0),
        (0xff800000, 0x0),
        (0xff800000, 0x0),
        (0xff800000, 0x0),
        (0x7fc00000, 0x10),
        (0x7fc00000, 0x0),
        (0x7fc00000, 0x0),
        (0x7fc00000, 0x10),
        (0x7f800000, 0x0),
        (0x7f800000, 0x5),
        (0x7f7fffff, 0x0),
        (0x34ffffff, 0x0),
        (0x0, 0x0),
        (0x80000000, 0x0),
        (0xb4ffffff, 0x0),
        (0xff7fffff, 0x0),
        (0xff800000, 0x5),
        (0xff800000, 0x0),
        (0x7fc00000, 0x10),
        (0x7fc00000, 0x0),
        (0x7fc00000, 0x0),
        (0x7fc00000, 0x10),
        (0x7f800000, 0x0),
        (0x7f7fffff, 0x0),
        (0x3f800000, 0x0),
        (0x1, 0x0),
        (0x0, 0x0),
        (0x80000000, 0x0),
        (0x80000001, 0x0),
        (0xbf800000, 0x0),
        (0xff7fffff, 0x0),
        (0xff800000, 0x0),
        (0x7fc00000, 0x10),
        (0x7fc00000, 0x0),
        (0x7fc00000, 0x0),
        (0x7fc00000, 0x10),
        (0x7f800000, 0x0),
        (0x34ffffff, 0x0),
        (0x1, 0x0),
        (0x0, 0x3),
        (0x0, 0x0),
        (0x80000000, 0x0),
        (0x80000000, 0x3),
        (0x80000001, 0x0),
        (0xb4ffffff, 0x0),
        (0xff800000, 0x0),
        (0x7fc00000, 0x10),
        (0x7fc00000, 0x0),
        (0x7fc00000, 0x0),
        (0x7fc00000, 0x10),
        (0x7fc00000, 0x10),
        (0x0, 0x0),
        (0x0, 0x0),
        (0x0, 0x0),
        (0x0, 0x0),
        (0x80000000, 0x0),
        (0x80000000, 0x0),
        (0x80000000, 0x0),
        (0x80000000, 0x0),
        (0x7fc00000, 0x10),
        (0x7fc00000, 0x10),
        (0x7fc00000, 0x0),
        (0x7fc00000, 0x0),
        (0x7fc00000, 0x10),
        (0x7fc00000, 0x10),
        (0x80000000, 0x0),
        (0x80000000, 0x0),
        (0x80000000, 0x0),
        (0x80000000, 0x0),
        (0x0, 0x0),
        (0x0, 0x0),
        (0x0, 0x0),
        (0x0, 0x0),
        (0x7fc00000, 0x10),
        (0x7fc00000, 0x10),
        (0x7fc00000, 0x0),
        (0x7fc00000, 0x0),
        (0x7fc00000, 0x10),
        (0xff800000, 0x0),
        (0xb4ffffff, 0x0),
        (0x80000001, 0x0),
        (0x80000000, 0x3),
        (0x80000000, 0x0),
        (0x0, 0x0),
        (0x0, 0x3),
        (0x1, 0x0),
        (0x34ffffff, 0x0),
        (0x7f800000, 0x0),
        (0x7fc00000, 0x10),
        (0x7fc00000, 0x0),
        (0x7fc00000, 0x0),
        (0x7fc00000, 0x10),
        (0xff800000, 0x0),
        (0xff7fffff, 0x0),
        (0xbf800000, 0x0),
        (0x80000001, 0x0),
        (0x80000000, 0x0),
        (0x0, 0x0),
        (0x1, 0x0),
        (0x3f800000, 0x0),
        (0x7f7fffff, 0x0),
        (0x7f800000, 0x0),
        (0x7fc00000, 0x10),
        (0x7fc00000, 0x0),
        (0x7fc00000, 0x0),
        (0x7fc00000, 0x10),
        (0xff800000, 0x0),
        (0xff800000, 0x5),
        (0xff7fffff, 0x0),
        (0xb4ffffff, 0x0),
        (0x80000000, 0x0),
        (0x0, 0x0),
        (0x34ffffff, 0x0),
        (0x7f7fffff, 0x0),
        (0x7f800000, 0x5),
        (0x7f800000, 0x0),
        (0x7fc00000, 0x10),
        (0x7fc00000, 0x0),
        (0x7fc00000, 0x0),
        (0x7fc00000, 0x10),
        (0xff800000, 0x0),
        (0xff800000, 0x0),
        (0xff800000, 0x0),
        (0xff800000, 0x0),
        (0x7fc00000, 0x10),
        (0x7fc00000, 0x10),
        (0x7f800000, 0x0),
        (0x7f800000, 0x0),
        (0x7f800000, 0x0),
        (0x7f800000, 0x0),
        (0x7fc00000, 0x10),
        (0x7fc00000, 0x0),
        (0x7fc00000, 0x10),
        (0x7fc00000, 0x10),
        (0x7fc00000, 0x10),
        (0x7fc00000, 0x10),
        (0x7fc00000, 0x10),
        (0x7fc00000, 0x10),
        (0x7fc00000, 0x10),
        (0x7fc00000, 0x10),
        (0x7fc00000, 0x10),
        (0x7fc00000, 0x10),
        (0x7fc00000, 0x10),
        (0x7fc00000, 0x10),
        (0x7fc00000, 0x10),
        (0x7fc00000, 0x10),
        (0x7fc00000, 0x0),
        (0x7fc00000, 0x10),
        (0x7fc00000, 0x0),
        (0x7fc00000, 0x0),
        (0x7fc00000, 0x0),
        (0x7fc00000, 0x0),
        (0x7fc00000, 0x0),
        (0x7fc00000, 0x0),
        (0x7fc00000, 0x0),
        (0x7fc00000, 0x0),
        (0x7fc00000, 0x0),
        (0x7fc00000, 0x0),
        (0x7fc00000, 0x10),
        (0x7fc00000, 0x0),];
    f32_op2_check(&vals, &exp, FpBinaryOp::Mul);

    // div
    let exp: [(u32, u8); 196] = [(0x7fc00000, 0x0),
        (0x7fc00000, 0x10),
        (0x7fc00000, 0x0),
        (0x7fc00000, 0x0),
        (0x7fc00000, 0x0),
        (0x7fc00000, 0x0),
        (0x7fc00000, 0x0),
        (0x7fc00000, 0x0),
        (0x7fc00000, 0x0),
        (0x7fc00000, 0x0),
        (0x7fc00000, 0x0),
        (0x7fc00000, 0x0),
        (0x7fc00000, 0x10),
        (0x7fc00000, 0x0),
        (0x7fc00000, 0x10),
        (0x7fc00000, 0x10),
        (0x7fc00000, 0x10),
        (0x7fc00000, 0x10),
        (0x7fc00000, 0x10),
        (0x7fc00000, 0x10),
        (0x7fc00000, 0x10),
        (0x7fc00000, 0x10),
        (0x7fc00000, 0x10),
        (0x7fc00000, 0x10),
        (0x7fc00000, 0x10),
        (0x7fc00000, 0x10),
        (0x7fc00000, 0x10),
        (0x7fc00000, 0x10),
        (0x7fc00000, 0x0),
        (0x7fc00000, 0x10),
        (0x7fc00000, 0x10),
        (0x7f800000, 0x0),
        (0x7f800000, 0x0),
        (0x7f800000, 0x0),
        (0x7f800000, 0x0),
        (0xff800000, 0x0),
        (0xff800000, 0x0),
        (0xff800000, 0x0),
        (0xff800000, 0x0),
        (0x7fc00000, 0x10),
        (0x7fc00000, 0x10),
        (0x7fc00000, 0x0),
        (0x7fc00000, 0x0),
        (0x7fc00000, 0x10),
        (0x0, 0x0),
        (0x3f800000, 0x0),
        (0x7f7fffff, 0x0),
        (0x7f800000, 0x5),
        (0x7f800000, 0x8),
        (0xff800000, 0x8),
        (0xff800000, 0x5),
        (0xff7fffff, 0x0),
        (0xbf800000, 0x0),
        (0x80000000, 0x0),
        (0x7fc00000, 0x10),
        (0x7fc00000, 0x0),
        (0x7fc00000, 0x0),
        (0x7fc00000, 0x10),
        (0x0, 0x0),
        (0x200000, 0x3),
        (0x3f800000, 0x0),
        (0x7f800000, 0x5),
        (0x7f800000, 0x8),
        (0xff800000, 0x8),
        (0xff800000, 0x5),
        (0xbf800000, 0x0),
        (0x80200000, 0x3),
        (0x80000000, 0x0),
        (0x7fc00000, 0x10),
        (0x7fc00000, 0x0),
        (0x7fc00000, 0x0),
        (0x7fc00000, 0x10),
        (0x0, 0x0),
        (0x0, 0x3),
        (0x1, 0x0),
        (0x3f800000, 0x0),
        (0x7f800000, 0x8),
        (0xff800000, 0x8),
        (0xbf800000, 0x0),
        (0x80000001, 0x0),
        (0x80000000, 0x3),
        (0x80000000, 0x0),
        (0x7fc00000, 0x10),
        (0x7fc00000, 0x0),
        (0x7fc00000, 0x0),
        (0x7fc00000, 0x10),
        (0x0, 0x0),
        (0x0, 0x0),
        (0x0, 0x0),
        (0x0, 0x0),
        (0x7fc00000, 0x10),
        (0x7fc00000, 0x10),
        (0x80000000, 0x0),
        (0x80000000, 0x0),
        (0x80000000, 0x0),
        (0x80000000, 0x0),
        (0x7fc00000, 0x10),
        (0x7fc00000, 0x0),
        (0x7fc00000, 0x0),
        (0x7fc00000, 0x10),
        (0x80000000, 0x0),
        (0x80000000, 0x0),
        (0x80000000, 0x0),
        (0x80000000, 0x0),
        (0x7fc00000, 0x10),
        (0x7fc00000, 0x10),
        (0x0, 0x0),
        (0x0, 0x0),
        (0x0, 0x0),
        (0x0, 0x0),
        (0x7fc00000, 0x10),
        (0x7fc00000, 0x0),
        (0x7fc00000, 0x0),
        (0x7fc00000, 0x10),
        (0x80000000, 0x0),
        (0x80000000, 0x3),
        (0x80000001, 0x0),
        (0xbf800000, 0x0),
        (0xff800000, 0x8),
        (0x7f800000, 0x8),
        (0x3f800000, 0x0),
        (0x1, 0x0),
        (0x0, 0x3),
        (0x0, 0x0),
        (0x7fc00000, 0x10),
        (0x7fc00000, 0x0),
        (0x7fc00000, 0x0),
        (0x7fc00000, 0x10),
        (0x80000000, 0x0),
        (0x80200000, 0x3),
        (0xbf800000, 0x0),
        (0xff800000, 0x5),
        (0xff800000, 0x8),
        (0x7f800000, 0x8),
        (0x7f800000, 0x5),
        (0x3f800000, 0x0),
        (0x200000, 0x3),
        (0x0, 0x0),
        (0x7fc00000, 0x10),
        (0x7fc00000, 0x0),
        (0x7fc00000, 0x0),
        (0x7fc00000, 0x10),
        (0x80000000, 0x0),
        (0xbf800000, 0x0),
        (0xff7fffff, 0x0),
        (0xff800000, 0x5),
        (0xff800000, 0x8),
        (0x7f800000, 0x8),
        (0x7f800000, 0x5),
        (0x7f7fffff, 0x0),
        (0x3f800000, 0x0),
        (0x0, 0x0),
        (0x7fc00000, 0x10),
        (0x7fc00000, 0x0),
        (0x7fc00000, 0x0),
        (0x7fc00000, 0x10),
        (0x7fc00000, 0x10),
        (0xff800000, 0x0),
        (0xff800000, 0x0),
        (0xff800000, 0x0),
        (0xff800000, 0x0),
        (0x7f800000, 0x0),
        (0x7f800000, 0x0),
        (0x7f800000, 0x0),
        (0x7f800000, 0x0),
        (0x7fc00000, 0x10),
        (0x7fc00000, 0x10),
        (0x7fc00000, 0x0),
        (0x7fc00000, 0x10),
        (0x7fc00000, 0x10),
        (0x7fc00000, 0x10),
        (0x7fc00000, 0x10),
        (0x7fc00000, 0x10),
        (0x7fc00000, 0x10),
        (0x7fc00000, 0x10),
        (0x7fc00000, 0x10),
        (0x7fc00000, 0x10),
        (0x7fc00000, 0x10),
        (0x7fc00000, 0x10),
        (0x7fc00000, 0x10),
        (0x7fc00000, 0x10),
        (0x7fc00000, 0x10),
        (0x7fc00000, 0x0),
        (0x7fc00000, 0x10),
        (0x7fc00000, 0x0),
        (0x7fc00000, 0x0),
        (0x7fc00000, 0x0),
        (0x7fc00000, 0x0),
        (0x7fc00000, 0x0),
        (0x7fc00000, 0x0),
        (0x7fc00000, 0x0),
        (0x7fc00000, 0x0),
        (0x7fc00000, 0x0),
        (0x7fc00000, 0x0),
        (0x7fc00000, 0x10),
        (0x7fc00000, 0x0),];
    f32_op2_check(&vals, &exp, FpBinaryOp::Div);

    // sgnj
    let exp: [(u32, u8); 196] = [(0xffc00000, 0x0),
        (0xffc00000, 0x0),
        (0xffc00000, 0x0),
        (0xffc00000, 0x0),
        (0xffc00000, 0x0),
        (0xffc00000, 0x0),
        (0xffc00000, 0x0),
        (0x7fc00000, 0x0),
        (0x7fc00000, 0x0),
        (0x7fc00000, 0x0),
        (0x7fc00000, 0x0),
        (0x7fc00000, 0x0),
        (0x7fc00000, 0x0),
        (0x7fc00000, 0x0),
        (0xff800001, 0x0),
        (0xff800001, 0x0),
        (0xff800001, 0x0),
        (0xff800001, 0x0),
        (0xff800001, 0x0),
        (0xff800001, 0x0),
        (0xff800001, 0x0),
        (0x7f800001, 0x0),
        (0x7f800001, 0x0),
        (0x7f800001, 0x0),
        (0x7f800001, 0x0),
        (0x7f800001, 0x0),
        (0x7f800001, 0x0),
        (0x7f800001, 0x0),
        (0xff800000, 0x0),
        (0xff800000, 0x0),
        (0xff800000, 0x0),
        (0xff800000, 0x0),
        (0xff800000, 0x0),
        (0xff800000, 0x0),
        (0xff800000, 0x0),
        (0x7f800000, 0x0),
        (0x7f800000, 0x0),
        (0x7f800000, 0x0),
        (0x7f800000, 0x0),
        (0x7f800000, 0x0),
        (0x7f800000, 0x0),
        (0x7f800000, 0x0),
        (0xff7fffff, 0x0),
        (0xff7fffff, 0x0),
        (0xff7fffff, 0x0),
        (0xff7fffff, 0x0),
        (0xff7fffff, 0x0),
        (0xff7fffff, 0x0),
        (0xff7fffff, 0x0),
        (0x7f7fffff, 0x0),
        (0x7f7fffff, 0x0),
        (0x7f7fffff, 0x0),
        (0x7f7fffff, 0x0),
        (0x7f7fffff, 0x0),
        (0x7f7fffff, 0x0),
        (0x7f7fffff, 0x0),
        (0xbf800000, 0x0),
        (0xbf800000, 0x0),
        (0xbf800000, 0x0),
        (0xbf800000, 0x0),
        (0xbf800000, 0x0),
        (0xbf800000, 0x0),
        (0xbf800000, 0x0),
        (0x3f800000, 0x0),
        (0x3f800000, 0x0),
        (0x3f800000, 0x0),
        (0x3f800000, 0x0),
        (0x3f800000, 0x0),
        (0x3f800000, 0x0),
        (0x3f800000, 0x0),
        (0x80000001, 0x0),
        (0x80000001, 0x0),
        (0x80000001, 0x0),
        (0x80000001, 0x0),
        (0x80000001, 0x0),
        (0x80000001, 0x0),
        (0x80000001, 0x0),
        (0x1, 0x0),
        (0x1, 0x0),
        (0x1, 0x0),
        (0x1, 0x0),
        (0x1, 0x0),
        (0x1, 0x0),
        (0x1, 0x0),
        (0x80000000, 0x0),
        (0x80000000, 0x0),
        (0x80000000, 0x0),
        (0x80000000, 0x0),
        (0x80000000, 0x0),
        (0x80000000, 0x0),
        (0x80000000, 0x0),
        (0x0, 0x0),
        (0x0, 0x0),
        (0x0, 0x0),
        (0x0, 0x0),
        (0x0, 0x0),
        (0x0, 0x0),
        (0x0, 0x0),
        (0x80000000, 0x0),
        (0x80000000, 0x0),
        (0x80000000, 0x0),
        (0x80000000, 0x0),
        (0x80000000, 0x0),
        (0x80000000, 0x0),
        (0x80000000, 0x0),
        (0x0, 0x0),
        (0x0, 0x0),
        (0x0, 0x0),
        (0x0, 0x0),
        (0x0, 0x0),
        (0x0, 0x0),
        (0x0, 0x0),
        (0x80000001, 0x0),
        (0x80000001, 0x0),
        (0x80000001, 0x0),
        (0x80000001, 0x0),
        (0x80000001, 0x0),
        (0x80000001, 0x0),
        (0x80000001, 0x0),
        (0x1, 0x0),
        (0x1, 0x0),
        (0x1, 0x0),
        (0x1, 0x0),
        (0x1, 0x0),
        (0x1, 0x0),
        (0x1, 0x0),
        (0xbf800000, 0x0),
        (0xbf800000, 0x0),
        (0xbf800000, 0x0),
        (0xbf800000, 0x0),
        (0xbf800000, 0x0),
        (0xbf800000, 0x0),
        (0xbf800000, 0x0),
        (0x3f800000, 0x0),
        (0x3f800000, 0x0),
        (0x3f800000, 0x0),
        (0x3f800000, 0x0),
        (0x3f800000, 0x0),
        (0x3f800000, 0x0),
        (0x3f800000, 0x0),
        (0xff7fffff, 0x0),
        (0xff7fffff, 0x0),
        (0xff7fffff, 0x0),
        (0xff7fffff, 0x0),
        (0xff7fffff, 0x0),
        (0xff7fffff, 0x0),
        (0xff7fffff, 0x0),
        (0x7f7fffff, 0x0),
        (0x7f7fffff, 0x0),
        (0x7f7fffff, 0x0),
        (0x7f7fffff, 0x0),
        (0x7f7fffff, 0x0),
        (0x7f7fffff, 0x0),
        (0x7f7fffff, 0x0),
        (0xff800000, 0x0),
        (0xff800000, 0x0),
        (0xff800000, 0x0),
        (0xff800000, 0x0),
        (0xff800000, 0x0),
        (0xff800000, 0x0),
        (0xff800000, 0x0),
        (0x7f800000, 0x0),
        (0x7f800000, 0x0),
        (0x7f800000, 0x0),
        (0x7f800000, 0x0),
        (0x7f800000, 0x0),
        (0x7f800000, 0x0),
        (0x7f800000, 0x0),
        (0xff800001, 0x0),
        (0xff800001, 0x0),
        (0xff800001, 0x0),
        (0xff800001, 0x0),
        (0xff800001, 0x0),
        (0xff800001, 0x0),
        (0xff800001, 0x0),
        (0x7f800001, 0x0),
        (0x7f800001, 0x0),
        (0x7f800001, 0x0),
        (0x7f800001, 0x0),
        (0x7f800001, 0x0),
        (0x7f800001, 0x0),
        (0x7f800001, 0x0),
        (0xffc00000, 0x0),
        (0xffc00000, 0x0),
        (0xffc00000, 0x0),
        (0xffc00000, 0x0),
        (0xffc00000, 0x0),
        (0xffc00000, 0x0),
        (0xffc00000, 0x0),
        (0x7fc00000, 0x0),
        (0x7fc00000, 0x0),
        (0x7fc00000, 0x0),
        (0x7fc00000, 0x0),
        (0x7fc00000, 0x0),
        (0x7fc00000, 0x0),
        (0x7fc00000, 0x0),];
    f32_op2_check(&vals, &exp, FpBinaryOp::SgnJ);

    // sgnjn
    let exp: [(u32, u8); 196] = [(0x7fc00000, 0x0),
        (0x7fc00000, 0x0),
        (0x7fc00000, 0x0),
        (0x7fc00000, 0x0),
        (0x7fc00000, 0x0),
        (0x7fc00000, 0x0),
        (0x7fc00000, 0x0),
        (0xffc00000, 0x0),
        (0xffc00000, 0x0),
        (0xffc00000, 0x0),
        (0xffc00000, 0x0),
        (0xffc00000, 0x0),
        (0xffc00000, 0x0),
        (0xffc00000, 0x0),
        (0x7f800001, 0x0),
        (0x7f800001, 0x0),
        (0x7f800001, 0x0),
        (0x7f800001, 0x0),
        (0x7f800001, 0x0),
        (0x7f800001, 0x0),
        (0x7f800001, 0x0),
        (0xff800001, 0x0),
        (0xff800001, 0x0),
        (0xff800001, 0x0),
        (0xff800001, 0x0),
        (0xff800001, 0x0),
        (0xff800001, 0x0),
        (0xff800001, 0x0),
        (0x7f800000, 0x0),
        (0x7f800000, 0x0),
        (0x7f800000, 0x0),
        (0x7f800000, 0x0),
        (0x7f800000, 0x0),
        (0x7f800000, 0x0),
        (0x7f800000, 0x0),
        (0xff800000, 0x0),
        (0xff800000, 0x0),
        (0xff800000, 0x0),
        (0xff800000, 0x0),
        (0xff800000, 0x0),
        (0xff800000, 0x0),
        (0xff800000, 0x0),
        (0x7f7fffff, 0x0),
        (0x7f7fffff, 0x0),
        (0x7f7fffff, 0x0),
        (0x7f7fffff, 0x0),
        (0x7f7fffff, 0x0),
        (0x7f7fffff, 0x0),
        (0x7f7fffff, 0x0),
        (0xff7fffff, 0x0),
        (0xff7fffff, 0x0),
        (0xff7fffff, 0x0),
        (0xff7fffff, 0x0),
        (0xff7fffff, 0x0),
        (0xff7fffff, 0x0),
        (0xff7fffff, 0x0),
        (0x3f800000, 0x0),
        (0x3f800000, 0x0),
        (0x3f800000, 0x0),
        (0x3f800000, 0x0),
        (0x3f800000, 0x0),
        (0x3f800000, 0x0),
        (0x3f800000, 0x0),
        (0xbf800000, 0x0),
        (0xbf800000, 0x0),
        (0xbf800000, 0x0),
        (0xbf800000, 0x0),
        (0xbf800000, 0x0),
        (0xbf800000, 0x0),
        (0xbf800000, 0x0),
        (0x1, 0x0),
        (0x1, 0x0),
        (0x1, 0x0),
        (0x1, 0x0),
        (0x1, 0x0),
        (0x1, 0x0),
        (0x1, 0x0),
        (0x80000001, 0x0),
        (0x80000001, 0x0),
        (0x80000001, 0x0),
        (0x80000001, 0x0),
        (0x80000001, 0x0),
        (0x80000001, 0x0),
        (0x80000001, 0x0),
        (0x0, 0x0),
        (0x0, 0x0),
        (0x0, 0x0),
        (0x0, 0x0),
        (0x0, 0x0),
        (0x0, 0x0),
        (0x0, 0x0),
        (0x80000000, 0x0),
        (0x80000000, 0x0),
        (0x80000000, 0x0),
        (0x80000000, 0x0),
        (0x80000000, 0x0),
        (0x80000000, 0x0),
        (0x80000000, 0x0),
        (0x0, 0x0),
        (0x0, 0x0),
        (0x0, 0x0),
        (0x0, 0x0),
        (0x0, 0x0),
        (0x0, 0x0),
        (0x0, 0x0),
        (0x80000000, 0x0),
        (0x80000000, 0x0),
        (0x80000000, 0x0),
        (0x80000000, 0x0),
        (0x80000000, 0x0),
        (0x80000000, 0x0),
        (0x80000000, 0x0),
        (0x1, 0x0),
        (0x1, 0x0),
        (0x1, 0x0),
        (0x1, 0x0),
        (0x1, 0x0),
        (0x1, 0x0),
        (0x1, 0x0),
        (0x80000001, 0x0),
        (0x80000001, 0x0),
        (0x80000001, 0x0),
        (0x80000001, 0x0),
        (0x80000001, 0x0),
        (0x80000001, 0x0),
        (0x80000001, 0x0),
        (0x3f800000, 0x0),
        (0x3f800000, 0x0),
        (0x3f800000, 0x0),
        (0x3f800000, 0x0),
        (0x3f800000, 0x0),
        (0x3f800000, 0x0),
        (0x3f800000, 0x0),
        (0xbf800000, 0x0),
        (0xbf800000, 0x0),
        (0xbf800000, 0x0),
        (0xbf800000, 0x0),
        (0xbf800000, 0x0),
        (0xbf800000, 0x0),
        (0xbf800000, 0x0),
        (0x7f7fffff, 0x0),
        (0x7f7fffff, 0x0),
        (0x7f7fffff, 0x0),
        (0x7f7fffff, 0x0),
        (0x7f7fffff, 0x0),
        (0x7f7fffff, 0x0),
        (0x7f7fffff, 0x0),
        (0xff7fffff, 0x0),
        (0xff7fffff, 0x0),
        (0xff7fffff, 0x0),
        (0xff7fffff, 0x0),
        (0xff7fffff, 0x0),
        (0xff7fffff, 0x0),
        (0xff7fffff, 0x0),
        (0x7f800000, 0x0),
        (0x7f800000, 0x0),
        (0x7f800000, 0x0),
        (0x7f800000, 0x0),
        (0x7f800000, 0x0),
        (0x7f800000, 0x0),
        (0x7f800000, 0x0),
        (0xff800000, 0x0),
        (0xff800000, 0x0),
        (0xff800000, 0x0),
        (0xff800000, 0x0),
        (0xff800000, 0x0),
        (0xff800000, 0x0),
        (0xff800000, 0x0),
        (0x7f800001, 0x0),
        (0x7f800001, 0x0),
        (0x7f800001, 0x0),
        (0x7f800001, 0x0),
        (0x7f800001, 0x0),
        (0x7f800001, 0x0),
        (0x7f800001, 0x0),
        (0xff800001, 0x0),
        (0xff800001, 0x0),
        (0xff800001, 0x0),
        (0xff800001, 0x0),
        (0xff800001, 0x0),
        (0xff800001, 0x0),
        (0xff800001, 0x0),
        (0x7fc00000, 0x0),
        (0x7fc00000, 0x0),
        (0x7fc00000, 0x0),
        (0x7fc00000, 0x0),
        (0x7fc00000, 0x0),
        (0x7fc00000, 0x0),
        (0x7fc00000, 0x0),
        (0xffc00000, 0x0),
        (0xffc00000, 0x0),
        (0xffc00000, 0x0),
        (0xffc00000, 0x0),
        (0xffc00000, 0x0),
        (0xffc00000, 0x0),
        (0xffc00000, 0x0),];
    f32_op2_check(&vals, &exp, FpBinaryOp::SgnJN);

    // sgnjx
    let exp: [(u32, u8); 196] = [(0x7fc00000, 0x0),
        (0x7fc00000, 0x0),
        (0x7fc00000, 0x0),
        (0x7fc00000, 0x0),
        (0x7fc00000, 0x0),
        (0x7fc00000, 0x0),
        (0x7fc00000, 0x0),
        (0xffc00000, 0x0),
        (0xffc00000, 0x0),
        (0xffc00000, 0x0),
        (0xffc00000, 0x0),
        (0xffc00000, 0x0),
        (0xffc00000, 0x0),
        (0xffc00000, 0x0),
        (0x7f800001, 0x0),
        (0x7f800001, 0x0),
        (0x7f800001, 0x0),
        (0x7f800001, 0x0),
        (0x7f800001, 0x0),
        (0x7f800001, 0x0),
        (0x7f800001, 0x0),
        (0xff800001, 0x0),
        (0xff800001, 0x0),
        (0xff800001, 0x0),
        (0xff800001, 0x0),
        (0xff800001, 0x0),
        (0xff800001, 0x0),
        (0xff800001, 0x0),
        (0x7f800000, 0x0),
        (0x7f800000, 0x0),
        (0x7f800000, 0x0),
        (0x7f800000, 0x0),
        (0x7f800000, 0x0),
        (0x7f800000, 0x0),
        (0x7f800000, 0x0),
        (0xff800000, 0x0),
        (0xff800000, 0x0),
        (0xff800000, 0x0),
        (0xff800000, 0x0),
        (0xff800000, 0x0),
        (0xff800000, 0x0),
        (0xff800000, 0x0),
        (0x7f7fffff, 0x0),
        (0x7f7fffff, 0x0),
        (0x7f7fffff, 0x0),
        (0x7f7fffff, 0x0),
        (0x7f7fffff, 0x0),
        (0x7f7fffff, 0x0),
        (0x7f7fffff, 0x0),
        (0xff7fffff, 0x0),
        (0xff7fffff, 0x0),
        (0xff7fffff, 0x0),
        (0xff7fffff, 0x0),
        (0xff7fffff, 0x0),
        (0xff7fffff, 0x0),
        (0xff7fffff, 0x0),
        (0x3f800000, 0x0),
        (0x3f800000, 0x0),
        (0x3f800000, 0x0),
        (0x3f800000, 0x0),
        (0x3f800000, 0x0),
        (0x3f800000, 0x0),
        (0x3f800000, 0x0),
        (0xbf800000, 0x0),
        (0xbf800000, 0x0),
        (0xbf800000, 0x0),
        (0xbf800000, 0x0),
        (0xbf800000, 0x0),
        (0xbf800000, 0x0),
        (0xbf800000, 0x0),
        (0x1, 0x0),
        (0x1, 0x0),
        (0x1, 0x0),
        (0x1, 0x0),
        (0x1, 0x0),
        (0x1, 0x0),
        (0x1, 0x0),
        (0x80000001, 0x0),
        (0x80000001, 0x0),
        (0x80000001, 0x0),
        (0x80000001, 0x0),
        (0x80000001, 0x0),
        (0x80000001, 0x0),
        (0x80000001, 0x0),
        (0x0, 0x0),
        (0x0, 0x0),
        (0x0, 0x0),
        (0x0, 0x0),
        (0x0, 0x0),
        (0x0, 0x0),
        (0x0, 0x0),
        (0x80000000, 0x0),
        (0x80000000, 0x0),
        (0x80000000, 0x0),
        (0x80000000, 0x0),
        (0x80000000, 0x0),
        (0x80000000, 0x0),
        (0x80000000, 0x0),
        (0x80000000, 0x0),
        (0x80000000, 0x0),
        (0x80000000, 0x0),
        (0x80000000, 0x0),
        (0x80000000, 0x0),
        (0x80000000, 0x0),
        (0x80000000, 0x0),
        (0x0, 0x0),
        (0x0, 0x0),
        (0x0, 0x0),
        (0x0, 0x0),
        (0x0, 0x0),
        (0x0, 0x0),
        (0x0, 0x0),
        (0x80000001, 0x0),
        (0x80000001, 0x0),
        (0x80000001, 0x0),
        (0x80000001, 0x0),
        (0x80000001, 0x0),
        (0x80000001, 0x0),
        (0x80000001, 0x0),
        (0x1, 0x0),
        (0x1, 0x0),
        (0x1, 0x0),
        (0x1, 0x0),
        (0x1, 0x0),
        (0x1, 0x0),
        (0x1, 0x0),
        (0xbf800000, 0x0),
        (0xbf800000, 0x0),
        (0xbf800000, 0x0),
        (0xbf800000, 0x0),
        (0xbf800000, 0x0),
        (0xbf800000, 0x0),
        (0xbf800000, 0x0),
        (0x3f800000, 0x0),
        (0x3f800000, 0x0),
        (0x3f800000, 0x0),
        (0x3f800000, 0x0),
        (0x3f800000, 0x0),
        (0x3f800000, 0x0),
        (0x3f800000, 0x0),
        (0xff7fffff, 0x0),
        (0xff7fffff, 0x0),
        (0xff7fffff, 0x0),
        (0xff7fffff, 0x0),
        (0xff7fffff, 0x0),
        (0xff7fffff, 0x0),
        (0xff7fffff, 0x0),
        (0x7f7fffff, 0x0),
        (0x7f7fffff, 0x0),
        (0x7f7fffff, 0x0),
        (0x7f7fffff, 0x0),
        (0x7f7fffff, 0x0),
        (0x7f7fffff, 0x0),
        (0x7f7fffff, 0x0),
        (0xff800000, 0x0),
        (0xff800000, 0x0),
        (0xff800000, 0x0),
        (0xff800000, 0x0),
        (0xff800000, 0x0),
        (0xff800000, 0x0),
        (0xff800000, 0x0),
        (0x7f800000, 0x0),
        (0x7f800000, 0x0),
        (0x7f800000, 0x0),
        (0x7f800000, 0x0),
        (0x7f800000, 0x0),
        (0x7f800000, 0x0),
        (0x7f800000, 0x0),
        (0xff800001, 0x0),
        (0xff800001, 0x0),
        (0xff800001, 0x0),
        (0xff800001, 0x0),
        (0xff800001, 0x0),
        (0xff800001, 0x0),
        (0xff800001, 0x0),
        (0x7f800001, 0x0),
        (0x7f800001, 0x0),
        (0x7f800001, 0x0),
        (0x7f800001, 0x0),
        (0x7f800001, 0x0),
        (0x7f800001, 0x0),
        (0x7f800001, 0x0),
        (0xffc00000, 0x0),
        (0xffc00000, 0x0),
        (0xffc00000, 0x0),
        (0xffc00000, 0x0),
        (0xffc00000, 0x0),
        (0xffc00000, 0x0),
        (0xffc00000, 0x0),
        (0x7fc00000, 0x0),
        (0x7fc00000, 0x0),
        (0x7fc00000, 0x0),
        (0x7fc00000, 0x0),
        (0x7fc00000, 0x0),
        (0x7fc00000, 0x0),
        (0x7fc00000, 0x0),];
    f32_op2_check(&vals, &exp, FpBinaryOp::SgnJX);

}
