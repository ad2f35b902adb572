//! The floating-point engine's control surface.
//!
//! The register file holds 32 entries of 64 bits, kept as plain bit
//! patterns.  NaN-boxing of single-precision values, canonical-NaN
//! production, sign injection, min/max and comparison rules, classification,
//! rounding-mode staging and sticky-flag accumulation are all implemented
//! here on those patterns and verified exactly.  Reads follow the ISA's
//! NaN-boxing discipline: a single-precision read checks that the high half
//! of the register is all ones and yields the canonical NaN otherwise, while
//! a double-precision read takes the full 64-bit pattern as it stands.
//! Only the host arithmetic
//! itself — addition through division, fused multiply-add, square root and
//! the conversions between integers and floats — is delegated to an
//! implementation of the [`FpOp`] bundle, of whose results nothing is
//! assumed beyond the flags the caller accumulates.

use crate::uop::{FpBinaryOp, FpCmpCond, FpGpOp, FpTernaryOp, Precision, RoundMode};
use vstd::prelude::*;

verus! {

/// The canonical single-precision quiet NaN.
pub const CANONICAL_NAN_32: u32 = 0x7fc0_0000;

/// The canonical double-precision quiet NaN.
pub const CANONICAL_NAN_64: u64 = 0x7ff8_0000_0000_0000;

// ---------------------------------------------------------------------------
// Bit-level readings of IEEE-754 values.
// ---------------------------------------------------------------------------
/// The sign bit of a single-precision pattern.
pub open spec fn f32_neg(v: u32) -> bool {
    v >= 0x8000_0000
}

/// The exponent field of a single-precision pattern.
pub open spec fn f32_exp(v: u32) -> int {
    (v as int / 0x80_0000) % 0x100
}

/// The significand field of a single-precision pattern.
pub open spec fn f32_man(v: u32) -> int {
    v as int % 0x80_0000
}

/// Whether a single-precision pattern is a NaN.
pub open spec fn f32_is_nan(v: u32) -> bool {
    f32_exp(v) == 0xff && f32_man(v) != 0
}

/// Whether a single-precision NaN is quiet (its top significand bit set).
pub open spec fn f32_is_quiet(v: u32) -> bool {
    (v as int / 0x40_0000) % 2 == 1
}

/// Whether a single-precision pattern is a signaling NaN.
pub open spec fn f32_is_snan(v: u32) -> bool {
    f32_is_nan(v) && !f32_is_quiet(v)
}

/// The magnitude bits of a single-precision pattern.
pub open spec fn f32_mag(v: u32) -> int {
    v as int % 0x8000_0000
}

/// The ordering key of a non-NaN single-precision pattern: its magnitude
/// carried on its sign.  For such patterns the key orders exactly as the
/// represented values do, with both zeroes collapsing to key zero.
pub open spec fn f32_key(v: u32) -> int {
    if f32_neg(v) {
        -f32_mag(v)
    } else {
        f32_mag(v)
    }
}

/// The sign bit of a double-precision pattern.
pub open spec fn f64_neg(v: u64) -> bool {
    v >= 0x8000_0000_0000_0000
}

/// The exponent field of a double-precision pattern.
pub open spec fn f64_exp(v: u64) -> int {
    (v as int / 0x10_0000_0000_0000) % 0x800
}

/// The significand field of a double-precision pattern.
pub open spec fn f64_man(v: u64) -> int {
    v as int % 0x10_0000_0000_0000
}

/// Whether a double-precision pattern is a NaN.
pub open spec fn f64_is_nan(v: u64) -> bool {
    f64_exp(v) == 0x7ff && f64_man(v) != 0
}

/// Whether a double-precision NaN is quiet.
pub open spec fn f64_is_quiet(v: u64) -> bool {
    (v as int / 0x8_0000_0000_0000) % 2 == 1
}

/// Whether a double-precision pattern is a signaling NaN.
pub open spec fn f64_is_snan(v: u64) -> bool {
    f64_is_nan(v) && !f64_is_quiet(v)
}

/// The magnitude bits of a double-precision pattern.
pub open spec fn f64_mag(v: u64) -> int {
    v as int % 0x8000_0000_0000_0000
}

/// The ordering key of a non-NaN double-precision pattern.
pub open spec fn f64_key(v: u64) -> int {
    if f64_neg(v) {
        -f64_mag(v)
    } else {
        f64_mag(v)
    }
}

// ---------------------------------------------------------------------------
// Sticky exception flags.
// ---------------------------------------------------------------------------
/// The five IEEE-754 sticky exception flags.
#[derive(Debug, Clone, Copy, PartialEq, Eq, Structural)]
pub struct FpExcept {
    /// Invalid operation.
    pub nv: bool,
    /// Divide by zero.
    pub dz: bool,
    /// Overflow.
    pub of: bool,
    /// Underflow.
    pub uf: bool,
    /// Inexact.
    pub nx: bool,
}

impl FpExcept {
    /// The all-clear flag set.
    pub open spec fn spec_none() -> FpExcept {
        FpExcept { nv: false, dz: false, of: false, uf: false, nx: false }
    }

    /// The flags as the `fflags` CSR bit layout: `NV|DZ|OF|UF|NX` from bit 4
    /// down to bit 0.
    pub open spec fn spec_as_u8(self) -> u8 {
        ((if self.nx {
            1int
        } else {
            0int
        }) + (if self.uf {
            2int
        } else {
            0int
        }) + (if self.of {
            4int
        } else {
            0int
        }) + (if self.dz {
            8int
        } else {
            0int
        }) + (if self.nv {
            16int
        } else {
            0int
        })) as u8
    }

    /// Packs the flags into the `fflags` CSR bit layout.
    #[verifier::when_used_as_spec(spec_as_u8)]
    pub fn as_u8(self) -> (r: u8)
        ensures
            r == self.spec_as_u8(),
    {
        let mut e: u8 = 0;
        if self.nx {
            e = e + 1;
        }
        if self.uf {
            e = e + 2;
        }
        if self.of {
            e = e + 4;
        }
        if self.dz {
            e = e + 8;
        }
        if self.nv {
            e = e + 16;
        }
        e
    }

    /// The flag set encoded by the low five bits of a CSR value.
    pub open spec fn spec_from_bits(bits: int) -> FpExcept {
        FpExcept {
            nx: bits % 2 == 1,
            uf: (bits / 2) % 2 == 1,
            of: (bits / 4) % 2 == 1,
            dz: (bits / 8) % 2 == 1,
            nv: (bits / 16) % 2 == 1,
        }
    }

    /// Unpacks the low five bits of a CSR value into a flag set.
    pub fn from_bits(bits: u8) -> (r: FpExcept)
        ensures
            r == FpExcept::spec_from_bits(bits as int),
    {
        FpExcept {
            nx: bits % 2 == 1,
            uf: (bits / 2) % 2 == 1,
            of: (bits / 4) % 2 == 1,
            dz: (bits / 8) % 2 == 1,
            nv: (bits / 16) % 2 == 1,
        }
    }

    /// The union of two flag sets.
    pub open spec fn spec_union(self, o: FpExcept) -> FpExcept {
        FpExcept {
            nv: self.nv || o.nv,
            dz: self.dz || o.dz,
            of: self.of || o.of,
            uf: self.uf || o.uf,
            nx: self.nx || o.nx,
        }
    }

    /// Joins another flag set into this one.
    pub fn union(self, o: FpExcept) -> (r: FpExcept)
        ensures
            r == self.spec_union(o),
    {
        FpExcept {
            nv: self.nv || o.nv,
            dz: self.dz || o.dz,
            of: self.of || o.of,
            uf: self.uf || o.uf,
            nx: self.nx || o.nx,
        }
    }

    /// Removes another flag set from this one.
    pub open spec fn spec_minus(self, o: FpExcept) -> FpExcept {
        FpExcept {
            nv: self.nv && !o.nv,
            dz: self.dz && !o.dz,
            of: self.of && !o.of,
            uf: self.uf && !o.uf,
            nx: self.nx && !o.nx,
        }
    }

    /// Whether every flag of this set is also in the other.
    pub open spec fn le(self, o: FpExcept) -> bool {
        (self.nv ==> o.nv) && (self.dz ==> o.dz) && (self.of ==> o.of) && (self.uf ==> o.uf) && (
        self.nx ==> o.nx)
    }
}

// ---------------------------------------------------------------------------
// The host arithmetic bundle.
// ---------------------------------------------------------------------------
/// The floating-point arithmetic operations the engine is parameterized
/// over.  Every method takes and returns plain IEEE-754 bit patterns plus
/// the exception flags of the operation in the `fflags` layout; the engine
/// assumes nothing about the returned values and canonicalizes, boxes and
/// accumulates around them.
pub trait FpOp {
    /// One of add, subtract, multiply or divide at single precision.
    fn arith32(&mut self, op: FpBinaryOp, rm: RoundMode, a: u32, b: u32) -> (u32, u8);

    /// One of add, subtract, multiply or divide at double precision.
    fn arith64(&mut self, op: FpBinaryOp, rm: RoundMode, a: u64, b: u64) -> (u64, u8);

    /// Fused multiply-add `a*b + c` at single precision.
    fn fma32(&mut self, rm: RoundMode, a: u32, b: u32, c: u32) -> (u32, u8);

    /// Fused multiply-add `a*b + c` at double precision.
    fn fma64(&mut self, rm: RoundMode, a: u64, b: u64, c: u64) -> (u64, u8);

    /// Square root at single precision.
    fn sqrt32(&mut self, rm: RoundMode, a: u32) -> (u32, u8);

    /// Square root at double precision.
    fn sqrt64(&mut self, rm: RoundMode, a: u64) -> (u64, u8);

    /// Single-precision float to signed 32-bit integer, saturating.
    fn f32_to_i32(&mut self, rm: RoundMode, a: u32) -> (i32, u8);

    /// Single-precision float to unsigned 32-bit integer, saturating.
    fn f32_to_u32(&mut self, rm: RoundMode, a: u32) -> (u32, u8);

    /// Single-precision float to signed 64-bit integer, saturating.
    fn f32_to_i64(&mut self, rm: RoundMode, a: u32) -> (i64, u8);

    /// Single-precision float to unsigned 64-bit integer, saturating.
    fn f32_to_u64(&mut self, rm: RoundMode, a: u32) -> (u64, u8);

    /// Double-precision float to signed 32-bit integer, saturating.
    fn f64_to_i32(&mut self, rm: RoundMode, a: u64) -> (i32, u8);

    /// Double-precision float to unsigned 32-bit integer, saturating.
    fn f64_to_u32(&mut self, rm: RoundMode, a: u64) -> (u32, u8);

    /// Double-precision float to signed 64-bit integer, saturating.
    fn f64_to_i64(&mut self, rm: RoundMode, a: u64) -> (i64, u8);

    /// Double-precision float to unsigned 64-bit integer, saturating.
    fn f64_to_u64(&mut self, rm: RoundMode, a: u64) -> (u64, u8);

    /// Signed 32-bit integer to single-precision float.
    fn i32_to_f32(&mut self, rm: RoundMode, v: i32) -> (u32, u8);

    /// Unsigned 32-bit integer to single-precision float.
    fn u32_to_f32(&mut self, rm: RoundMode, v: u32) -> (u32, u8);

    /// Signed 64-bit integer to single-precision float.
    fn i64_to_f32(&mut self, rm: RoundMode, v: i64) -> (u32, u8);

    /// Unsigned 64-bit integer to single-precision float.
    fn u64_to_f32(&mut self, rm: RoundMode, v: u64) -> (u32, u8);

    /// Signed 32-bit integer to double-precision float.
    fn i32_to_f64(&mut self, rm: RoundMode, v: i32) -> (u64, u8);

    /// Unsigned 32-bit integer to double-precision float.
    fn u32_to_f64(&mut self, rm: RoundMode, v: u32) -> (u64, u8);

    /// Signed 64-bit integer to double-precision float.
    fn i64_to_f64(&mut self, rm: RoundMode, v: i64) -> (u64, u8);

    /// Unsigned 64-bit integer to double-precision float.
    fn u64_to_f64(&mut self, rm: RoundMode, v: u64) -> (u64, u8);

    /// Widening conversion, single to double precision.
    fn f32_to_f64(&mut self, a: u32) -> (u64, u8);

    /// Narrowing conversion, double to single precision.
    fn f64_to_f32(&mut self, rm: RoundMode, a: u64) -> (u32, u8);
}

// ---------------------------------------------------------------------------
// Verified bit-exact operations.
// ---------------------------------------------------------------------------
/// Sign injection: the magnitude of `a`, carrying the sign `op` derives from
/// `b` (and, for the xor form, from `a` as well).
pub open spec fn spec_sgnj32(op: FpBinaryOp, a: u32, b: u32) -> u32 {
    let neg = if op == FpBinaryOp::SgnJ {
        f32_neg(b)
    } else if op == FpBinaryOp::SgnJN {
        !f32_neg(b)
    } else {
        f32_neg(a) != f32_neg(b)
    };
    (f32_mag(a) + if neg {
        0x8000_0000int
    } else {
        0int
    }) as u32
}

/// Sign injection at double precision.
pub open spec fn spec_sgnj64(op: FpBinaryOp, a: u64, b: u64) -> u64 {
    let neg = if op == FpBinaryOp::SgnJ {
        f64_neg(b)
    } else if op == FpBinaryOp::SgnJN {
        !f64_neg(b)
    } else {
        f64_neg(a) != f64_neg(b)
    };
    (f64_mag(a) + if neg {
        0x8000_0000_0000_0000int
    } else {
        0int
    }) as u64
}

/// Min/max with the ISA's NaN and zero-sign rules: a signaling NaN raises
/// the invalid flag and yields the canonical NaN, two NaNs yield the
/// canonical NaN, one quiet NaN yields the other operand; among equal
/// ordering keys the minimum prefers the negative zero and the maximum the
/// positive one.  The second component is the invalid flag.
pub open spec fn spec_minmax32(op: FpBinaryOp, a: u32, b: u32) -> (u32, bool) {
    if f32_is_snan(a) || f32_is_snan(b) {
        (CANONICAL_NAN_32, true)
    } else if f32_is_nan(a) && f32_is_nan(b) {
        (CANONICAL_NAN_32, false)
    } else if f32_is_nan(a) {
        (b, false)
    } else if f32_is_nan(b) {
        (a, false)
    } else if f32_key(a) == f32_key(b) {
        if op == FpBinaryOp::Min {
            (if f32_neg(a) {
                a
            } else {
                b
            }, false)
        } else {
            (if f32_neg(a) {
                b
            } else {
                a
            }, false)
        }
    } else if (f32_key(a) < f32_key(b)) == (op == FpBinaryOp::Min) {
        (a, false)
    } else {
        (b, false)
    }
}

/// Min/max at double precision.
pub open spec fn spec_minmax64(op: FpBinaryOp, a: u64, b: u64) -> (u64, bool) {
    if f64_is_snan(a) || f64_is_snan(b) {
        (CANONICAL_NAN_64, true)
    } else if f64_is_nan(a) && f64_is_nan(b) {
        (CANONICAL_NAN_64, false)
    } else if f64_is_nan(a) {
        (b, false)
    } else if f64_is_nan(b) {
        (a, false)
    } else if f64_key(a) == f64_key(b) {
        if op == FpBinaryOp::Min {
            (if f64_neg(a) {
                a
            } else {
                b
            }, false)
        } else {
            (if f64_neg(a) {
                b
            } else {
                a
            }, false)
        }
    } else if (f64_key(a) < f64_key(b)) == (op == FpBinaryOp::Min) {
        (a, false)
    } else {
        (b, false)
    }
}

/// Ordered comparison: `EQ` is quiet (only a signaling NaN raises the
/// invalid flag), `LT` and `LE` are signaling (any NaN raises it); a NaN
/// compares false.  The second component is the invalid flag.
pub open spec fn spec_cmp32(cond: FpCmpCond, a: u32, b: u32) -> (bool, bool) {
    if f32_is_nan(a) || f32_is_nan(b) {
        if cond == FpCmpCond::Eq {
            (false, f32_is_snan(a) || f32_is_snan(b))
        } else {
            (false, true)
        }
    } else {
        let r = if cond == FpCmpCond::Eq {
            f32_key(a) == f32_key(b)
        } else if cond == FpCmpCond::Lt {
            f32_key(a) < f32_key(b)
        } else {
            f32_key(a) <= f32_key(b)
        };
        (r, false)
    }
}

/// Ordered comparison at double precision.
pub open spec fn spec_cmp64(cond: FpCmpCond, a: u64, b: u64) -> (bool, bool) {
    if f64_is_nan(a) || f64_is_nan(b) {
        if cond == FpCmpCond::Eq {
            (false, f64_is_snan(a) || f64_is_snan(b))
        } else {
            (false, true)
        }
    } else {
        let r = if cond == FpCmpCond::Eq {
            f64_key(a) == f64_key(b)
        } else if cond == FpCmpCond::Lt {
            f64_key(a) < f64_key(b)
        } else {
            f64_key(a) <= f64_key(b)
        };
        (r, false)
    }
}

/// The ten-entry one-hot classification mask of a single-precision pattern.
pub open spec fn spec_class32(v: u32) -> u32 {
    if f32_is_nan(v) {
        if f32_is_quiet(v) {
            512
        } else {
            256
        }
    } else if f32_neg(v) {
        if f32_exp(v) == 0xff {
            1
        } else if f32_exp(v) == 0 && f32_man(v) == 0 {
            8
        } else if f32_exp(v) == 0 {
            4
        } else {
            2
        }
    } else {
        if f32_exp(v) == 0xff {
            128
        } else if f32_exp(v) == 0 && f32_man(v) == 0 {
            16
        } else if f32_exp(v) == 0 {
            32
        } else {
            64
        }
    }
}

/// The classification mask of a double-precision pattern.
pub open spec fn spec_class64(v: u64) -> u32 {
    if f64_is_nan(v) {
        if f64_is_quiet(v) {
            512
        } else {
            256
        }
    } else if f64_neg(v) {
        if f64_exp(v) == 0x7ff {
            1
        } else if f64_exp(v) == 0 && f64_man(v) == 0 {
            8
        } else if f64_exp(v) == 0 {
            4
        } else {
            2
        }
    } else {
        if f64_exp(v) == 0x7ff {
            128
        } else if f64_exp(v) == 0 && f64_man(v) == 0 {
            16
        } else if f64_exp(v) == 0 {
            32
        } else {
            64
        }
    }
}

/// A NaN result of an arithmetic operation is replaced by the canonical
/// NaN.
pub open spec fn spec_canon32(v: u32) -> u32 {
    if f32_is_nan(v) {
        CANONICAL_NAN_32
    } else {
        v
    }
}

/// Canonicalization at double precision.
pub open spec fn spec_canon64(v: u64) -> u64 {
    if f64_is_nan(v) {
        CANONICAL_NAN_64
    } else {
        v
    }
}

/// The pattern with its sign bit flipped.
pub open spec fn spec_fneg32(v: u32) -> u32 {
    if f32_neg(v) {
        (v - 0x8000_0000) as u32
    } else {
        (v + 0x8000_0000) as u32
    }
}

/// Sign flip at double precision.
pub open spec fn spec_fneg64(v: u64) -> u64 {
    if f64_neg(v) {
        (v - 0x8000_0000_0000_0000) as u64
    } else {
        (v + 0x8000_0000_0000_0000) as u64
    }
}

/// Whether a fused multiply-add of these factors is the `0 * inf` invalid
/// case that must raise the invalid flag and produce the canonical NaN even
/// when the host would not.
pub open spec fn spec_fma_invalid32(a: u32, b: u32) -> bool {
    (f32_exp(a) == 0 && f32_man(a) == 0 && f32_exp(b) == 0xff && f32_man(b) == 0) || (f32_exp(b)
        == 0 && f32_man(b) == 0 && f32_exp(a) == 0xff && f32_man(a) == 0)
}

/// The `0 * inf` test at double precision.
pub open spec fn spec_fma_invalid64(a: u64, b: u64) -> bool {
    (f64_exp(a) == 0 && f64_man(a) == 0 && f64_exp(b) == 0x7ff && f64_man(b) == 0) || (f64_exp(b)
        == 0 && f64_man(b) == 0 && f64_exp(a) == 0x7ff && f64_man(a) == 0)
}

/// A single-precision pattern boxed into a 64-bit register: the high half
/// is all ones.
pub open spec fn spec_box32(v: u32) -> u64 {
    (0xffff_ffff_0000_0000 + v) as u64
}

/// A register value that is a properly boxed single-precision pattern
/// whose payload, if a NaN, is the canonical NaN: the shape every
/// single-precision arithmetic result is written in, whatever the host
/// bundle returned.
pub open spec fn boxed_canonical32(v: u64) -> bool {
    v as int / 0x1_0000_0000 == 0xffff_ffff && (f32_is_nan((v as int % 0x1_0000_0000) as u32)
        ==> v as int % 0x1_0000_0000 == CANONICAL_NAN_32)
}

/// A register value whose double-precision reading, if a NaN, is the
/// canonical NaN: the shape every double-precision arithmetic result is
/// written in.
pub open spec fn canonical64(v: u64) -> bool {
    f64_is_nan(v) ==> v == CANONICAL_NAN_64
}

/// The two halves of a boxed single-precision pattern.
pub proof fn lemma_box32_fields(x: u32)
    ensures
        spec_box32(x) as int / 0x1_0000_0000 == 0xffff_ffff,
        spec_box32(x) as int % 0x1_0000_0000 == x,
{
    vstd::arithmetic::div_mod::lemma_div_multiples_vanish_fancy(
        0xffff_ffff,
        x as int,
        0x1_0000_0000,
    );
    vstd::arithmetic::div_mod::lemma_mod_multiples_vanish(0xffff_ffff, x as int, 0x1_0000_0000);
    vstd::arithmetic::div_mod::lemma_small_mod(x as nat, 0x1_0000_0000);
}

// ---------------------------------------------------------------------------
// Executable twins of the bit-exact operations.
// ---------------------------------------------------------------------------
fn is_nan32(v: u32) -> (r: bool)
    ensures
        r == f32_is_nan(v),
{
    (v / 0x80_0000) % 0x100 == 0xff && v % 0x80_0000 != 0
}

fn is_snan32(v: u32) -> (r: bool)
    ensures
        r == f32_is_snan(v),
{
    is_nan32(v) && (v / 0x40_0000) % 2 != 1
}

fn is_nan64(v: u64) -> (r: bool)
    ensures
        r == f64_is_nan(v),
{
    (v / 0x10_0000_0000_0000) % 0x800 == 0x7ff && v % 0x10_0000_0000_0000 != 0
}

fn is_snan64(v: u64) -> (r: bool)
    ensures
        r == f64_is_snan(v),
{
    is_nan64(v) && (v / 0x8_0000_0000_0000) % 2 != 1
}

/// The ordering key as a signed 64-bit value (single precision).
fn key32(v: u32) -> (r: i64)
    ensures
        r as int == f32_key(v),
{
    let mag = (v % 0x8000_0000) as i64;
    if v >= 0x8000_0000 {
        -mag
    } else {
        mag
    }
}

/// The ordering key as a signed 128-bit value (double precision).
fn key64(v: u64) -> (r: i128)
    ensures
        r as int == f64_key(v),
{
    let mag = (v % 0x8000_0000_0000_0000) as i128;
    if v >= 0x8000_0000_0000_0000 {
        -mag
    } else {
        mag
    }
}

fn canon32(v: u32) -> (r: u32)
    ensures
        r == spec_canon32(v),
{
    if is_nan32(v) {
        CANONICAL_NAN_32
    } else {
        v
    }
}

fn canon64(v: u64) -> (r: u64)
    ensures
        r == spec_canon64(v),
{
    if is_nan64(v) {
        CANONICAL_NAN_64
    } else {
        v
    }
}

fn fneg32(v: u32) -> (r: u32)
    ensures
        r == spec_fneg32(v),
{
    if v >= 0x8000_0000 {
        v - 0x8000_0000
    } else {
        v + 0x8000_0000
    }
}

fn fneg64(v: u64) -> (r: u64)
    ensures
        r == spec_fneg64(v),
{
    if v >= 0x8000_0000_0000_0000 {
        v - 0x8000_0000_0000_0000
    } else {
        v + 0x8000_0000_0000_0000
    }
}

fn sgnj32(op: FpBinaryOp, a: u32, b: u32) -> (r: u32)
    ensures
        r == spec_sgnj32(op, a, b),
{
    let neg = if op == FpBinaryOp::SgnJ {
        b >= 0x8000_0000
    } else if op == FpBinaryOp::SgnJN {
        !(b >= 0x8000_0000)
    } else {
        (a >= 0x8000_0000) != (b >= 0x8000_0000)
    };
    a % 0x8000_0000 + if neg {
        0x8000_0000
    } else {
        0
    }
}

fn sgnj64(op: FpBinaryOp, a: u64, b: u64) -> (r: u64)
    ensures
        r == spec_sgnj64(op, a, b),
{
    let neg = if op == FpBinaryOp::SgnJ {
        b >= 0x8000_0000_0000_0000
    } else if op == FpBinaryOp::SgnJN {
        !(b >= 0x8000_0000_0000_0000)
    } else {
        (a >= 0x8000_0000_0000_0000) != (b >= 0x8000_0000_0000_0000)
    };
    a % 0x8000_0000_0000_0000 + if neg {
        0x8000_0000_0000_0000
    } else {
        0
    }
}

fn minmax32(op: FpBinaryOp, a: u32, b: u32) -> (r: (u32, bool))
    ensures
        r == spec_minmax32(op, a, b),
{
    if is_snan32(a) || is_snan32(b) {
        (CANONICAL_NAN_32, true)
    } else if is_nan32(a) && is_nan32(b) {
        (CANONICAL_NAN_32, false)
    } else if is_nan32(a) {
        (b, false)
    } else if is_nan32(b) {
        (a, false)
    } else {
        let ka = key32(a);
        let kb = key32(b);
        if ka == kb {
            if op == FpBinaryOp::Min {
                (if a >= 0x8000_0000 {
                    a
                } else {
                    b
                }, false)
            } else {
                (if a >= 0x8000_0000 {
                    b
                } else {
                    a
                }, false)
            }
        } else if (ka < kb) == (op == FpBinaryOp::Min) {
            (a, false)
        } else {
            (b, false)
        }
    }
}

fn minmax64(op: FpBinaryOp, a: u64, b: u64) -> (r: (u64, bool))
    ensures
        r == spec_minmax64(op, a, b),
{
    if is_snan64(a) || is_snan64(b) {
        (CANONICAL_NAN_64, true)
    } else if is_nan64(a) && is_nan64(b) {
        (CANONICAL_NAN_64, false)
    } else if is_nan64(a) {
        (b, false)
    } else if is_nan64(b) {
        (a, false)
    } else {
        let ka = key64(a);
        let kb = key64(b);
        if ka == kb {
            if op == FpBinaryOp::Min {
                (if a >= 0x8000_0000_0000_0000 {
                    a
                } else {
                    b
                }, false)
            } else {
                (if a >= 0x8000_0000_0000_0000 {
                    b
                } else {
                    a
                }, false)
            }
        } else if (ka < kb) == (op == FpBinaryOp::Min) {
            (a, false)
        } else {
            (b, false)
        }
    }
}

fn cmp32(cond: FpCmpCond, a: u32, b: u32) -> (r: (bool, bool))
    ensures
        r == spec_cmp32(cond, a, b),
{
    if is_nan32(a) || is_nan32(b) {
        if cond == FpCmpCond::Eq {
            (false, is_snan32(a) || is_snan32(b))
        } else {
            (false, true)
        }
    } else {
        let ka = key32(a);
        let kb = key32(b);
        let r = if cond == FpCmpCond::Eq {
            ka == kb
        } else if cond == FpCmpCond::Lt {
            ka < kb
        } else {
            ka <= kb
        };
        (r, false)
    }
}

fn cmp64(cond: FpCmpCond, a: u64, b: u64) -> (r: (bool, bool))
    ensures
        r == spec_cmp64(cond, a, b),
{
    if is_nan64(a) || is_nan64(b) {
        if cond == FpCmpCond::Eq {
            (false, is_snan64(a) || is_snan64(b))
        } else {
            (false, true)
        }
    } else {
        let ka = key64(a);
        let kb = key64(b);
        let r = if cond == FpCmpCond::Eq {
            ka == kb
        } else if cond == FpCmpCond::Lt {
            ka < kb
        } else {
            ka <= kb
        };
        (r, false)
    }
}

fn class32(v: u32) -> (r: u32)
    ensures
        r == spec_class32(v),
{
    let exp = (v / 0x80_0000) % 0x100;
    let man = v % 0x80_0000;
    let neg = v >= 0x8000_0000;
    if is_nan32(v) {
        if (v / 0x40_0000) % 2 == 1 {
            512
        } else {
            256
        }
    } else if neg {
        if exp == 0xff {
            1
        } else if exp == 0 && man == 0 {
            8
        } else if exp == 0 {
            4
        } else {
            2
        }
    } else {
        if exp == 0xff {
            128
        } else if exp == 0 && man == 0 {
            16
        } else if exp == 0 {
            32
        } else {
            64
        }
    }
}

fn class64(v: u64) -> (r: u32)
    ensures
        r == spec_class64(v),
{
    let exp = (v / 0x10_0000_0000_0000) % 0x800;
    let man = v % 0x10_0000_0000_0000;
    let neg = v >= 0x8000_0000_0000_0000;
    if is_nan64(v) {
        if (v / 0x8_0000_0000_0000) % 2 == 1 {
            512
        } else {
            256
        }
    } else if neg {
        if exp == 0x7ff {
            1
        } else if exp == 0 && man == 0 {
            8
        } else if exp == 0 {
            4
        } else {
            2
        }
    } else {
        if exp == 0x7ff {
            128
        } else if exp == 0 && man == 0 {
            16
        } else if exp == 0 {
            32
        } else {
            64
        }
    }
}

fn fma_invalid32(a: u32, b: u32) -> (r: bool)
    ensures
        r == spec_fma_invalid32(a, b),
{
    let za = (a / 0x80_0000) % 0x100 == 0 && a % 0x80_0000 == 0;
    let ia = (a / 0x80_0000) % 0x100 == 0xff && a % 0x80_0000 == 0;
    let zb = (b / 0x80_0000) % 0x100 == 0 && b % 0x80_0000 == 0;
    let ib = (b / 0x80_0000) % 0x100 == 0xff && b % 0x80_0000 == 0;
    (za && ib) || (zb && ia)
}

fn fma_invalid64(a: u64, b: u64) -> (r: bool)
    ensures
        r == spec_fma_invalid64(a, b),
{
    let za = (a / 0x10_0000_0000_0000) % 0x800 == 0 && a % 0x10_0000_0000_0000 == 0;
    let ia = (a / 0x10_0000_0000_0000) % 0x800 == 0x7ff && a % 0x10_0000_0000_0000 == 0;
    let zb = (b / 0x10_0000_0000_0000) % 0x800 == 0 && b % 0x10_0000_0000_0000 == 0;
    let ib = (b / 0x10_0000_0000_0000) % 0x800 == 0x7ff && b % 0x10_0000_0000_0000 == 0;
    (za && ib) || (zb && ia)
}


// ---------------------------------------------------------------------------
// The floating-point register file and its operations.
// ---------------------------------------------------------------------------
/// The floating-point state of a hart: 32 NaN-boxed 64-bit registers, the
/// sticky exception flags, the dynamic rounding-mode register and the
/// staged effective rounding mode.
#[derive(Debug, Clone)]
pub struct Fpu {
    fprs: Vec<u64>,
    fpe: FpExcept,
    dyn_rm: RoundMode,
    rm: RoundMode,
}

impl Fpu {
    /// The register file as a sequence of raw 64-bit patterns.
    pub closed spec fn regs(self) -> Seq<u64> {
        self.fprs@
    }

    /// The sticky exception flags.
    pub closed spec fn flags(self) -> FpExcept {
        self.fpe
    }

    /// The dynamic rounding-mode register, `NoRm` when unset or invalid.
    pub closed spec fn dyn_mode(self) -> RoundMode {
        self.dyn_rm
    }

    /// The staged effective rounding mode.
    pub closed spec fn eff_mode(self) -> RoundMode {
        self.rm
    }

    /// The register file always holds exactly 32 entries.
    pub closed spec fn wf(self) -> bool {
        self.fprs.len() == 32
    }

    /// Reading a register as single precision: the low half when the value
    /// is properly NaN-boxed, the canonical NaN otherwise.
    pub open spec fn spec_rd32(self, r: int) -> u32 {
        let v = self.regs()[r];
        if v as int / 0x1_0000_0000 == 0xffff_ffff {
            (v as int % 0x1_0000_0000) as u32
        } else {
            CANONICAL_NAN_32
        }
    }

    /// Reading a register as double precision: the raw pattern.
    pub open spec fn spec_rd64(self, r: int) -> u64 {
        self.regs()[r]
    }

    /// Everything except the register file and the flags is unchanged, and
    /// at most register `rd` differs.
    pub open spec fn frame(self, prev: Fpu, rd: int) -> bool {
        &&& self.wf()
        &&& self.regs() == prev.regs().update(rd, self.regs()[rd])
        &&& self.dyn_mode() == prev.dyn_mode()
        &&& self.eff_mode() == prev.eff_mode()
        &&& prev.flags().le(self.flags())
    }

    /// A fresh floating-point unit: zeroed registers, clear flags, dynamic
    /// rounding mode round-to-nearest-even, no staged mode.
    pub fn new() -> (r: Fpu)
        ensures
            r.wf(),
            r.regs() =~= Seq::new(32, |i: int| 0u64),
            r.flags() == FpExcept::spec_none(),
            r.dyn_mode() == RoundMode::Rne,
            r.eff_mode() == RoundMode::NoRm,
    {
        let mut fprs: Vec<u64> = Vec::new();
        let mut i: usize = 0;
        while i < 32
            invariant
                i <= 32,
                fprs@.len() == i,
                forall|j: int| 0 <= j < i ==> fprs@[j] == 0u64,
            decreases 32 - i,
    {
            fprs.push(0);
            i = i + 1;
        }
        Fpu {
            fprs,
            fpe: FpExcept { nv: false, dz: false, of: false, uf: false, nx: false },
            dyn_rm: RoundMode::Rne,
            rm: RoundMode::NoRm,
        }
    }

    fn rd32(&self, r: u8) -> (v: u32)
        requires
            self.wf(),
            r < 32,
        ensures
            v == self.spec_rd32(r as int),
    {
        let raw = self.fprs[r as usize];
        if raw / 0x1_0000_0000 == 0xffff_ffff {
            (raw % 0x1_0000_0000) as u32
        } else {
            CANONICAL_NAN_32
        }
    }

    fn rd64(&self, r: u8) -> (v: u64)
        requires
            self.wf(),
            r < 32,
        ensures
            v == self.spec_rd64(r as int),
    {
        self.fprs[r as usize]
    }

    fn wr32(&mut self, r: u8, v: u32)
        requires
            old(self).wf(),
            r < 32,
        ensures
            final(self).regs() == old(self).regs().update(r as int, spec_box32(v)),
            final(self).regs()[r as int] as int / 0x1_0000_0000 == 0xffff_ffff,
            final(self).regs()[r as int] as int % 0x1_0000_0000 == v,
            final(self).flags() == old(self).flags(),
            final(self).dyn_mode() == old(self).dyn_mode(),
            final(self).eff_mode() == old(self).eff_mode(),
            final(self).wf(),
    {
        proof {
            lemma_box32_fields(v);
        }
        self.fprs.set(r as usize, 0xffff_ffff_0000_0000u64 + v as u64);
    }

    fn wr64(&mut self, r: u8, v: u64)
        requires
            old(self).wf(),
            r < 32,
        ensures
            final(self).regs() == old(self).regs().update(r as int, v),
            final(self).flags() == old(self).flags(),
            final(self).dyn_mode() == old(self).dyn_mode(),
            final(self).eff_mode() == old(self).eff_mode(),
            final(self).wf(),
    {
        self.fprs.set(r as usize, v);
    }

    /// Joins host flag bits into the sticky flags.
    fn acc_flags(&mut self, bits: u8)
        requires
            old(self).wf(),
        ensures
            final(self).flags() == old(self).flags().spec_union(FpExcept::spec_from_bits(bits as int)),
            final(self).regs() == old(self).regs(),
            final(self).dyn_mode() == old(self).dyn_mode(),
            final(self).eff_mode() == old(self).eff_mode(),
            final(self).wf(),
    {
        self.fpe = self.fpe.union(FpExcept::from_bits(bits));
    }

    /// A raw bit move into the low single-precision half of a register; the
    /// high half is NaN-boxed to all ones.
    pub fn u32_mv_f32(&mut self, rd: u8, val: u32)
        requires
            old(self).wf(),
            rd < 32,
        ensures
            final(self).frame(*old(self), rd as int),
            final(self).regs()[rd as int] == spec_box32(val),
            final(self).flags() == old(self).flags(),
    {
        self.wr32(rd, val);
    }

    /// A raw bit move out of the low single-precision half of a register,
    /// honoring the NaN-boxing check.
    pub fn f32_mv_u32(&self, rs1: u8) -> (r: u32)
        requires
            self.wf(),
            rs1 < 32,
        ensures
            r == self.spec_rd32(rs1 as int),
    {
        self.rd32(rs1)
    }

    /// A raw 64-bit move into a register.
    pub fn u64_mv_f64(&mut self, rd: u8, val: u64)
        requires
            old(self).wf(),
            rd < 32,
        ensures
            final(self).frame(*old(self), rd as int),
            final(self).regs()[rd as int] == val,
            final(self).flags() == old(self).flags(),
    {
        self.wr64(rd, val);
    }

    /// A raw 64-bit move out of a register.
    pub fn f64_mv_u64(&self, rs1: u8) -> (r: u64)
        requires
            self.wf(),
            rs1 < 32,
        ensures
            r == self.spec_rd64(rs1 as int),
    {
        self.rd64(rs1)
    }

    /// Reads the dynamic rounding-mode register.
    pub fn get_dyn_rm(&self) -> (r: RoundMode)
        ensures
            r == self.dyn_mode(),
    {
        self.dyn_rm
    }

    /// Sets the dynamic rounding-mode register.
    pub fn set_dyn_rm(&mut self, rm: RoundMode)
        requires
            old(self).wf(),
        ensures
            final(self).wf(),
            final(self).dyn_mode() == rm,
            final(self).regs() == old(self).regs(),
            final(self).flags() == old(self).flags(),
            final(self).eff_mode() == old(self).eff_mode(),
    {
        self.dyn_rm = rm;
    }

    /// Reads the sticky exception flags.
    pub fn get_fpe(&self) -> (r: FpExcept)
        ensures
            r == self.flags(),
    {
        self.fpe
    }

    /// Joins a flag set into the sticky flags.
    pub fn set_fpe(&mut self, mask: FpExcept)
        requires
            old(self).wf(),
        ensures
            final(self).wf(),
            final(self).flags() == old(self).flags().spec_union(mask),
            final(self).regs() == old(self).regs(),
            final(self).dyn_mode() == old(self).dyn_mode(),
            final(self).eff_mode() == old(self).eff_mode(),
    {
        self.fpe = self.fpe.union(mask);
    }

    /// Clears the given flags.
    pub fn clr_fpe(&mut self, mask: FpExcept)
        requires
            old(self).wf(),
        ensures
            final(self).wf(),
            final(self).flags() == old(self).flags().spec_minus(mask),
            final(self).regs() == old(self).regs(),
            final(self).dyn_mode() == old(self).dyn_mode(),
            final(self).eff_mode() == old(self).eff_mode(),
    {
        self.fpe = FpExcept {
            nv: self.fpe.nv && !mask.nv,
            dz: self.fpe.dz && !mask.dz,
            of: self.fpe.of && !mask.of,
            uf: self.fpe.uf && !mask.uf,
            nx: self.fpe.nx && !mask.nx,
        };
    }

    /// Clears every sticky flag.
    pub fn clr_all_fpe(&mut self)
        requires
            old(self).wf(),
        ensures
            final(self).wf(),
            final(self).flags() == FpExcept::spec_none(),
            final(self).regs() == old(self).regs(),
            final(self).dyn_mode() == old(self).dyn_mode(),
            final(self).eff_mode() == old(self).eff_mode(),
    {
        self.fpe = FpExcept { nv: false, dz: false, of: false, uf: false, nx: false };
    }

    /// Stages the effective rounding mode for an operation whose encoded
    /// mode is `rm`.  A dynamic mode resolves through the dynamic register;
    /// an unset or invalid dynamic register is an error.  Bit-manipulation
    /// operations (`NoRm`) change nothing.
    pub fn resolve_rm(&mut self, rm: RoundMode) -> (r: Result<(), ()>)
        requires
            old(self).wf(),
        ensures
            final(self).wf(),
            final(self).regs() == old(self).regs(),
            final(self).flags() == old(self).flags(),
            final(self).dyn_mode() == old(self).dyn_mode(),
            r is Ok <==> !(rm == RoundMode::Dyn && old(self).dyn_mode() == RoundMode::NoRm),
            r is Err ==> *final(self) == *old(self),
            final(self).eff_mode() == if rm == RoundMode::Dyn {
                if old(self).dyn_mode() == RoundMode::NoRm {
                    old(self).eff_mode()
                } else {
                    old(self).dyn_mode()
                }
            } else if rm == RoundMode::NoRm {
                old(self).eff_mode()
            } else {
                rm
            },
    {
        match rm {
            RoundMode::Dyn => {
                if self.dyn_rm == RoundMode::NoRm {
                    Err(())
                } else {
                    self.rm = self.dyn_rm;
                    Ok(())
                }
            },
            RoundMode::NoRm => Ok(()),
            _ => {
                self.rm = rm;
                Ok(())
            },
        }
    }
}


impl Fpu {
    /// Executes a fused multiply-add family operation: the second and third
    /// operands are pre-negated per the variant, the `0 * inf` invalid case
    /// raises the invalid flag and produces the canonical NaN, and any other
    /// NaN result is canonicalized before being boxed into `rd`.
    pub fn ternary_op<F: FpOp>(
        &mut self,
        host: &mut F,
        rd: u8,
        rs1: u8,
        rs2: u8,
        rs3: u8,
        pr: Precision,
        op: FpTernaryOp,
    )
        requires
            old(self).wf(),
            rd < 32,
            rs1 < 32,
            rs2 < 32,
            rs3 < 32,
        ensures
            final(self).frame(*old(self), rd as int),
            pr == Precision::S && spec_fma_invalid32(
                old(self).spec_rd32(rs1 as int),
                old(self).spec_rd32(rs2 as int),
            ) ==> final(self).regs()[rd as int] == spec_box32(CANONICAL_NAN_32) && final(self).flags() == old(self).flags().spec_union(
                FpExcept { nv: true, dz: false, of: false, uf: false, nx: false },
            ),
            pr == Precision::D && spec_fma_invalid64(
                old(self).spec_rd64(rs1 as int),
                old(self).spec_rd64(rs2 as int),
            ) ==> final(self).regs()[rd as int] == CANONICAL_NAN_64 && final(self).flags() == old(self).flags().spec_union(FpExcept { nv: true, dz: false, of: false, uf: false, nx: false }),
            pr == Precision::S ==> boxed_canonical32(final(self).regs()[rd as int]),
            pr == Precision::D ==> canonical64(final(self).regs()[rd as int]),
    {
        match pr {
            Precision::S => {
                let a = self.rd32(rs1);
                let b = self.rd32(rs2);
                let c = self.rd32(rs3);
                let b2 = if op == FpTernaryOp::NMSub || op == FpTernaryOp::NMAdd {
                    fneg32(b)
                } else {
                    b
                };
                let c2 = if op == FpTernaryOp::MSub || op == FpTernaryOp::NMAdd {
                    fneg32(c)
                } else {
                    c
                };
                if fma_invalid32(a, b) {
                    self.set_fpe(FpExcept { nv: true, dz: false, of: false, uf: false, nx: false });
                    self.wr32(rd, CANONICAL_NAN_32);
                } else {
                    let rm = self.rm;
                    let (v, fl) = host.fma32(rm, a, b2, c2);
                    self.acc_flags(fl);
                    self.wr32(rd, canon32(v));
                }
            },
            Precision::D => {
                let a = self.rd64(rs1);
                let b = self.rd64(rs2);
                let c = self.rd64(rs3);
                let b2 = if op == FpTernaryOp::NMSub || op == FpTernaryOp::NMAdd {
                    fneg64(b)
                } else {
                    b
                };
                let c2 = if op == FpTernaryOp::MSub || op == FpTernaryOp::NMAdd {
                    fneg64(c)
                } else {
                    c
                };
                if fma_invalid64(a, b) {
                    self.set_fpe(FpExcept { nv: true, dz: false, of: false, uf: false, nx: false });
                    self.wr64(rd, CANONICAL_NAN_64);
                } else {
                    let rm = self.rm;
                    let (v, fl) = host.fma64(rm, a, b2, c2);
                    self.acc_flags(fl);
                    self.wr64(rd, canon64(v));
                }
            },
        }
    }

    /// Executes a binary floating-point operation.  Sign injection and
    /// min/max are bit-exact here; add, subtract, multiply and divide go to
    /// the host bundle and their NaN results are canonicalized.
    pub fn binary_op<F: FpOp>(
        &mut self,
        host: &mut F,
        rd: u8,
        rs1: u8,
        rs2: u8,
        pr: Precision,
        op: FpBinaryOp,
    )
        requires
            old(self).wf(),
            rd < 32,
            rs1 < 32,
            rs2 < 32,
        ensures
            final(self).frame(*old(self), rd as int),
            pr == Precision::S && (op == FpBinaryOp::SgnJ || op == FpBinaryOp::SgnJN || op
                == FpBinaryOp::SgnJX) ==> final(self).regs()[rd as int] == spec_box32(
                spec_sgnj32(op, old(self).spec_rd32(rs1 as int), old(self).spec_rd32(rs2 as int)),
            ) && final(self).flags() == old(self).flags(),
            pr == Precision::D && (op == FpBinaryOp::SgnJ || op == FpBinaryOp::SgnJN || op
                == FpBinaryOp::SgnJX) ==> final(self).regs()[rd as int] == spec_sgnj64(
                op,
                old(self).spec_rd64(rs1 as int),
                old(self).spec_rd64(rs2 as int),
            ) && final(self).flags() == old(self).flags(),
            pr == Precision::S && (op == FpBinaryOp::Min || op == FpBinaryOp::Max) ==> final(self).regs()[rd as int] == spec_box32(
                spec_minmax32(op, old(self).spec_rd32(rs1 as int), old(self).spec_rd32(rs2 as int)).0,
            ) && final(self).flags() == old(self).flags().spec_union(
                FpExcept {
                    nv: spec_minmax32(
                        op,
                        old(self).spec_rd32(rs1 as int),
                        old(self).spec_rd32(rs2 as int),
                    ).1,
                    dz: false,
                    of: false,
                    uf: false,
                    nx: false,
                },
            ),
            pr == Precision::D && (op == FpBinaryOp::Min || op == FpBinaryOp::Max) ==> final(self).regs()[rd as int] == spec_minmax64(
                op,
                old(self).spec_rd64(rs1 as int),
                old(self).spec_rd64(rs2 as int),
            ).0 && final(self).flags() == old(self).flags().spec_union(
                FpExcept {
                    nv: spec_minmax64(
                        op,
                        old(self).spec_rd64(rs1 as int),
                        old(self).spec_rd64(rs2 as int),
                    ).1,
                    dz: false,
                    of: false,
                    uf: false,
                    nx: false,
                },
            ),
            pr == Precision::S && !(op == FpBinaryOp::SgnJ || op == FpBinaryOp::SgnJN || op
                == FpBinaryOp::SgnJX) ==> boxed_canonical32(final(self).regs()[rd as int]),
            pr == Precision::D && !(op == FpBinaryOp::SgnJ || op == FpBinaryOp::SgnJN || op
                == FpBinaryOp::SgnJX) ==> canonical64(final(self).regs()[rd as int]),
    {
        match pr {
            Precision::S => {
                let a = self.rd32(rs1);
                let b = self.rd32(rs2);
                match op {
                    FpBinaryOp::SgnJ | FpBinaryOp::SgnJN | FpBinaryOp::SgnJX => {
                        let v = sgnj32(op, a, b);
                        self.wr32(rd, v);
                    },
                    FpBinaryOp::Min | FpBinaryOp::Max => {
                        let (v, nv) = minmax32(op, a, b);
                        if nv {
                            self.set_fpe(
                                FpExcept { nv: true, dz: false, of: false, uf: false, nx: false },
                            );
                        }
                        self.wr32(rd, v);
                    },
                    _ => {
                        let rm = self.rm;
                        let (v, fl) = host.arith32(op, rm, a, b);
                        self.acc_flags(fl);
                        self.wr32(rd, canon32(v));
                    },
                }
            },
            Precision::D => {
                let a = self.rd64(rs1);
                let b = self.rd64(rs2);
                match op {
                    FpBinaryOp::SgnJ | FpBinaryOp::SgnJN | FpBinaryOp::SgnJX => {
                        let v = sgnj64(op, a, b);
                        self.wr64(rd, v);
                    },
                    FpBinaryOp::Min | FpBinaryOp::Max => {
                        let (v, nv) = minmax64(op, a, b);
                        if nv {
                            self.set_fpe(
                                FpExcept { nv: true, dz: false, of: false, uf: false, nx: false },
                            );
                        }
                        self.wr64(rd, v);
                    },
                    _ => {
                        let rm = self.rm;
                        let (v, fl) = host.arith64(op, rm, a, b);
                        self.acc_flags(fl);
                        self.wr64(rd, canon64(v));
                    },
                }
            },
        }
    }

    /// Executes a unary floating-point operation (square root), through the
    /// host bundle, canonicalizing a NaN result.
    pub fn unary_op<F: FpOp>(&mut self, host: &mut F, rd: u8, rs1: u8, pr: Precision)
        requires
            old(self).wf(),
            rd < 32,
            rs1 < 32,
        ensures
            final(self).frame(*old(self), rd as int),
            pr == Precision::S ==> boxed_canonical32(final(self).regs()[rd as int]),
            pr == Precision::D ==> canonical64(final(self).regs()[rd as int]),
    {
        match pr {
            Precision::S => {
                let a = self.rd32(rs1);
                let rm = self.rm;
                let (v, fl) = host.sqrt32(rm, a);
                self.acc_flags(fl);
                self.wr32(rd, canon32(v));
            },
            Precision::D => {
                let a = self.rd64(rs1);
                let rm = self.rm;
                let (v, fl) = host.sqrt64(rm, a);
                self.acc_flags(fl);
                self.wr64(rd, canon64(v));
            },
        }
    }

    /// Executes an ordered comparison, bit-exact: the result is 1 or 0, and
    /// the invalid flag is raised exactly per the quiet/signaling rules.
    pub fn fp_cmp(&mut self, rs1: u8, rs2: u8, pr: Precision, cond: FpCmpCond) -> (r: u32)
        requires
            old(self).wf(),
            rs1 < 32,
            rs2 < 32,
        ensures
            final(self).wf(),
            final(self).regs() == old(self).regs(),
            final(self).dyn_mode() == old(self).dyn_mode(),
            final(self).eff_mode() == old(self).eff_mode(),
            pr == Precision::S ==> ({
                let c = spec_cmp32(cond, old(self).spec_rd32(rs1 as int), old(self).spec_rd32(rs2 as int));
                r == (if c.0 { 1int } else { 0int }) && final(self).flags() == old(self).flags().spec_union(
                    FpExcept { nv: c.1, dz: false, of: false, uf: false, nx: false },
                )
            }),
            pr == Precision::D ==> ({
                let c = spec_cmp64(cond, old(self).spec_rd64(rs1 as int), old(self).spec_rd64(rs2 as int));
                r == (if c.0 { 1int } else { 0int }) && final(self).flags() == old(self).flags().spec_union(
                    FpExcept { nv: c.1, dz: false, of: false, uf: false, nx: false },
                )
            }),
    {
        let (res, nv) = match pr {
            Precision::S => cmp32(cond, self.rd32(rs1), self.rd32(rs2)),
            Precision::D => cmp64(cond, self.rd64(rs1), self.rd64(rs2)),
        };
        if nv {
            self.set_fpe(FpExcept { nv: true, dz: false, of: false, uf: false, nx: false });
        }
        if res {
            1
        } else {
            0
        }
    }

    /// Converts a floating-point register to a general-purpose value: the
    /// integer conversions saturate in the host bundle, the bit move and the
    /// classification mask are bit-exact here.
    pub fn fp_cvt_gp<F: FpOp>(
        &mut self,
        host: &mut F,
        rs1: u8,
        pr: Precision,
        op: FpGpOp,
        w: crate::xlen::Xlen,
    ) -> (r: u128)
        requires
            old(self).wf(),
            rs1 < 32,
            (op == FpGpOp::L || op == FpGpOp::LU) ==> w.spec_bits() >= 64,
            (op == FpGpOp::MV && pr == Precision::D) ==> w.spec_bits() >= 64,
        ensures
            final(self).wf(),
            final(self).regs() == old(self).regs(),
            final(self).dyn_mode() == old(self).dyn_mode(),
            final(self).eff_mode() == old(self).eff_mode(),
            old(self).flags().le(final(self).flags()),
            crate::xlen::wf(w, r),
            op == FpGpOp::Class ==> final(self).flags() == old(self).flags() && r == (match pr {
                Precision::S => spec_class32(old(self).spec_rd32(rs1 as int)),
                Precision::D => spec_class64(old(self).spec_rd64(rs1 as int)),
            }),
            op == FpGpOp::MV ==> final(self).flags() == old(self).flags() && r == (match pr {
                Precision::S => old(self).spec_rd32(rs1 as int) as u128,
                Precision::D => old(self).spec_rd64(rs1 as int) as u128,
            }),
    {
        let rm = self.rm;
        match op {
            FpGpOp::W => {
                let (v, fl) = match pr {
                    Precision::S => host.f32_to_i32(rm, self.rd32(rs1)),
                    Precision::D => host.f64_to_i32(rm, self.rd64(rs1)),
                };
                self.acc_flags(fl);
                w.from_i32(v)
            },
            FpGpOp::WU => {
                let (v, fl) = match pr {
                    Precision::S => host.f32_to_u32(rm, self.rd32(rs1)),
                    Precision::D => host.f64_to_u32(rm, self.rd64(rs1)),
                };
                self.acc_flags(fl);
                crate::xlen::from_u32(v)
            },
            FpGpOp::L => {
                let (v, fl) = match pr {
                    Precision::S => host.f32_to_i64(rm, self.rd32(rs1)),
                    Precision::D => host.f64_to_i64(rm, self.rd64(rs1)),
                };
                self.acc_flags(fl);
                w.from_i64(v)
            },
            FpGpOp::LU => {
                let (v, fl) = match pr {
                    Precision::S => host.f32_to_u64(rm, self.rd32(rs1)),
                    Precision::D => host.f64_to_u64(rm, self.rd64(rs1)),
                };
                self.acc_flags(fl);
                crate::xlen::from_u64(v)
            },
            FpGpOp::MV => match pr {
                Precision::S => crate::xlen::from_u32(self.rd32(rs1)),
                Precision::D => crate::xlen::from_u64(self.rd64(rs1)),
            },
            FpGpOp::Class => match pr {
                Precision::S => crate::xlen::from_u32(class32(self.rd32(rs1))),
                Precision::D => crate::xlen::from_u32(class64(self.rd64(rs1))),
            },
        }
    }

    /// Converts a general-purpose value into a floating-point register: the
    /// integer conversions round in the host bundle, the bit move is
    /// bit-exact here and NaN-boxes a single-precision pattern.
    pub fn gp_cvt_fp<F: FpOp>(
        &mut self,
        host: &mut F,
        rd: u8,
        val: u128,
        pr: Precision,
        op: crate::uop::GpFpOp,
    )
        requires
            old(self).wf(),
            rd < 32,
        ensures
            final(self).frame(*old(self), rd as int),
            op == crate::uop::GpFpOp::MV ==> final(self).flags() == old(self).flags() && final(self).regs()[rd as int] == (match pr {
                Precision::S => spec_box32((val as int % 0x1_0000_0000) as u32),
                Precision::D => (val as int % 0x1_0000_0000_0000_0000) as u64,
            }),
            op != crate::uop::GpFpOp::MV && pr == Precision::S ==> boxed_canonical32(
                final(self).regs()[rd as int],
            ),
            op != crate::uop::GpFpOp::MV && pr == Precision::D ==> canonical64(
                final(self).regs()[rd as int],
            ),
    {
        let rm = self.rm;
        match op {
            crate::uop::GpFpOp::W => {
                let v = to_i32_rep(val);
                let (bits, fl) = match pr {
                    Precision::S => host.i32_to_f32(rm, v),
                    Precision::D => {
                        let (b, f) = host.i32_to_f64(rm, v);
                        self.wr64(rd, canon64(b));
                        self.acc_flags(f);
                        return ;
                    },
                };
                self.acc_flags(fl);
                self.wr32(rd, canon32(bits));
            },
            crate::uop::GpFpOp::WU => {
                let v = crate::xlen::to_u32(val);
                match pr {
                    Precision::S => {
                        let (bits, fl) = host.u32_to_f32(rm, v);
                        self.acc_flags(fl);
                        self.wr32(rd, canon32(bits));
                    },
                    Precision::D => {
                        let (bits, fl) = host.u32_to_f64(rm, v);
                        self.acc_flags(fl);
                        self.wr64(rd, canon64(bits));
                    },
                }
            },
            crate::uop::GpFpOp::L => {
                let v = to_i64_rep(val);
                match pr {
                    Precision::S => {
                        let (bits, fl) = host.i64_to_f32(rm, v);
                        self.acc_flags(fl);
                        self.wr32(rd, canon32(bits));
                    },
                    Precision::D => {
                        let (bits, fl) = host.i64_to_f64(rm, v);
                        self.acc_flags(fl);
                        self.wr64(rd, canon64(bits));
                    },
                }
            },
            crate::uop::GpFpOp::LU => {
                let v = crate::xlen::to_u64(val);
                match pr {
                    Precision::S => {
                        let (bits, fl) = host.u64_to_f32(rm, v);
                        self.acc_flags(fl);
                        self.wr32(rd, canon32(bits));
                    },
                    Precision::D => {
                        let (bits, fl) = host.u64_to_f64(rm, v);
                        self.acc_flags(fl);
                        self.wr64(rd, canon64(bits));
                    },
                }
            },
            crate::uop::GpFpOp::MV => match pr {
                Precision::S => {
                    let v = crate::xlen::to_u32(val);
                    self.wr32(rd, v);
                },
                Precision::D => {
                    let v = crate::xlen::to_u64(val);
                    self.wr64(rd, v);
                },
            },
        }
    }

    /// Converts between the two precisions through the host bundle:
    /// widening is exact, narrowing rounds under the staged mode; a NaN
    /// result is canonicalized and the single-precision result is boxed.
    pub fn fp_cvt_fp<F: FpOp>(
        &mut self,
        host: &mut F,
        rd: u8,
        rs1: u8,
        from: Precision,
        to: Precision,
    )
        requires
            old(self).wf(),
            rd < 32,
            rs1 < 32,
            from != to,
        ensures
            final(self).frame(*old(self), rd as int),
            to == Precision::S ==> boxed_canonical32(final(self).regs()[rd as int]),
            to == Precision::D ==> canonical64(final(self).regs()[rd as int]),
    {
        match (from, to) {
            (Precision::S, Precision::D) => {
                let a = self.rd32(rs1);
                let (v, fl) = host.f32_to_f64(a);
                self.acc_flags(fl);
                self.wr64(rd, canon64(v));
            },
            (Precision::D, Precision::S) => {
                let rm = self.rm;
                let a = self.rd64(rs1);
                let (v, fl) = host.f64_to_f32(rm, a);
                self.acc_flags(fl);
                self.wr32(rd, canon32(v));
            },
            _ => {
                proof {
                    assert(false);
                }
            },
        }
    }
}

/// The low 32 bits of a word read as a two's-complement value.
fn to_i32_rep(v: u128) -> (r: i32)
    ensures
        r as int == crate::xlen::s32((v as int) % 0x1_0000_0000),
{
    let low = crate::xlen::to_u32(v);
    if low >= 0x8000_0000 {
        (low as i64 - 0x1_0000_0000i64) as i32
    } else {
        low as i32
    }
}

/// The low 64 bits of a word read as a two's-complement value.
fn to_i64_rep(v: u128) -> (r: i64)
    ensures
        r as int == crate::xlen::s64((v as int) % 0x1_0000_0000_0000_0000),
{
    let low = crate::xlen::to_u64(v);
    if low >= 0x8000_0000_0000_0000 {
        (low as i128 - 0x1_0000_0000_0000_0000i128) as i64
    } else {
        low as i64
    }
}

} // verus!
