//! Shared decoding helpers: the ISA configuration record, bit-field
//! selection and sign extension of immediates.
//!
//! Field extraction is specified arithmetically — the bits `[hi:lo]` of a
//! word are its quotient by `2^lo`, reduced modulo `2^(hi-lo+1)` — so that
//! every immediate is a plain scaled sum of fields.

use crate::xlen::Xlen;
use vstd::arithmetic::div_mod::*;
use vstd::arithmetic::power2::*;
use vstd::prelude::*;

verus! {

/// The index of the hard-wired zero register.
pub const GP_ZERO: u8 = 0;

/// The index of the return-address register used by compressed jumps.
pub const GP_RA: u8 = 1;

/// The index of the stack-pointer register used by compressed loads and
/// stores.
pub const GP_SP: u8 = 2;

/// The configuration a hart decodes under: its register width, the enabled
/// standard extensions, and whether the reduced register file (16 registers
/// instead of 32) is selected.
#[derive(Debug, Clone, Copy, PartialEq, Eq, Structural)]
pub struct Isa {
    /// Register width.
    pub xlen: Xlen,
    /// Atomic extension.
    pub a: bool,
    /// Compressed instructions.
    pub c: bool,
    /// Double-precision floating-point.
    pub d: bool,
    /// Single-precision floating-point.
    pub f: bool,
    /// Integer multiply/divide.
    pub m: bool,
    /// CSR instructions.
    pub zicsr: bool,
    /// Instruction-fetch fence.
    pub zifencei: bool,
    /// Reduced register file.
    pub e: bool,
}

impl Isa {
    /// A bare configuration: the base integer ISA at the given width, with
    /// no extensions.
    pub fn bare(xlen: Xlen) -> (r: Isa)
        ensures
            r == (Isa {
                xlen,
                a: false,
                c: false,
                d: false,
                f: false,
                m: false,
                zicsr: false,
                zifencei: false,
                e: false,
            }),
    {
        Isa { xlen, a: false, c: false, d: false, f: false, m: false, zicsr: false, zifencei: false, e: false }
    }

    /// A full configuration: every extension this crate models is enabled.
    pub fn full(xlen: Xlen) -> (r: Isa)
        ensures
            r == (Isa {
                xlen,
                a: true,
                c: true,
                d: true,
                f: true,
                m: true,
                zicsr: true,
                zifencei: true,
                e: false,
            }),
    {
        Isa { xlen, a: true, c: true, d: true, f: true, m: true, zicsr: true, zifencei: true, e: false }
    }

    /// Whether a general-purpose register index may be referenced: under the
    /// reduced register file only indices below 16 are legal.
    pub open spec fn spec_reg_ok(self, r: int) -> bool {
        !self.e || r < 16
    }

    /// Tests the reduced-register-file rule for one register index.
    pub fn reg_ok(self, r: u8) -> (ok: bool)
        ensures
            ok == self.spec_reg_ok(r as int),
    {
        !self.e || r < 16
    }
}

/// `2^e` as a `u32`.
pub fn pw32(e: u32) -> (r: u32)
    requires
        e < 32,
    ensures
        r == pow2(e as nat),
{
    let p = crate::xlen::pow2x(e);
    proof {
        lemma2_to64();
        if e < 31 {
            lemma_pow2_strictly_increases(e as nat, 31);
        }
    }
    p as u32
}

/// The bits `[hi:lo]` of `x`, arithmetically: `(x / 2^lo) mod 2^(hi-lo+1)`.
pub open spec fn spec_sel(x: u32, hi: u32, lo: u32) -> int {
    (x as int / pow2(lo as nat) as int) % pow2((hi - lo + 1) as nat) as int
}

/// Extracts the bit field `[hi:lo]` of an instruction word.
pub fn select_bits(x: u32, hi: u32, lo: u32) -> (r: u32)
    requires
        lo <= hi < 32,
        hi - lo < 31,
    ensures
        r == spec_sel(x, hi, lo),
        r < pow2((hi - lo + 1) as nat),
{
    let p = pw32(lo);
    let m = pw32(hi - lo + 1);
    proof {
        lemma_pow2_pos(lo as nat);
        lemma_pow2_pos((hi - lo + 1) as nat);
        lemma_div_is_ordered(0, x as int, p as int);
        lemma_div_pos_is_pos(x as int, p as int);
        lemma_mod_bound((x / p) as int, m as int);
    }
    (x / p) % m
}

/// Whether bit `b` of `x` is set.
pub open spec fn spec_bit(x: u32, b: u32) -> bool {
    (x as int / pow2(b as nat) as int) % 2 == 1
}

/// Tests one bit of an instruction word.
pub fn test_bit(x: u32, b: u32) -> (r: bool)
    requires
        b < 32,
    ensures
        r == spec_bit(x, b),
{
    let p = pw32(b);
    proof {
        lemma_pow2_pos(b as nat);
        lemma_div_pos_is_pos(x as int, p as int);
    }
    (x / p) % 2 == 1
}

/// Sign extension from bit `sb`: a value below `2^(sb+1)` read as a
/// two's-complement quantity of `sb+1` bits.
pub open spec fn spec_sext(v: int, sb: u32) -> int {
    if v >= pow2(sb as nat) {
        v - 2 * pow2(sb as nat)
    } else {
        v
    }
}

/// Sign-extends an immediate whose architectural sign bit is `sb`,
/// ignoring any bits above it.
pub fn sext(imm: u32, sb: u32) -> (r: i32)
    requires
        sb < 32,
    ensures
        r as int == spec_sext((imm as int) % ((2 * pow2(sb as nat)) as int), sb),
        imm < 2 * pow2(sb as nat) ==> r as int == spec_sext(imm as int, sb),
{
    let p = pw32(sb);
    proof {
        lemma2_to64();
        if sb < 31 {
            lemma_pow2_strictly_increases(sb as nat, 31);
        }
        lemma_pow2_pos(sb as nat);
        lemma_mod_bound(imm as int, (2 * pow2(sb as nat)) as int);
        if imm < 2 * pow2(sb as nat) {
            lemma_small_mod(imm as nat, (2 * pow2(sb as nat)) as nat);
        }
    }
    let low = ((imm as u64) % (2 * p as u64)) as u32;
    if low >= p {
        let v = low as i64 - 2 * (p as i64);
        v as i32
    } else {
        low as i32
    }
}

} // verus!
