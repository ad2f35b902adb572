//! The XLEN abstraction: width-generic machine words.
//!
//! A machine word is held as a `u128` whose value is below the modulus of the
//! selected width, and every operation is specified by ordinary integer
//! arithmetic modulo that size.  The same emulator logic thereby runs
//! unchanged on RV32, RV64 and RV128; the width is a run-time value of
//! [`Xlen`], as a constant-folded runtime check costs nothing here.
//!
//! Signed semantics go through [`sint`], the two's-complement reading of a
//! word; division and remainder follow the ISA rules (division by zero gives
//! all ones respectively the dividend, and the overflowing `MIN / -1` gives
//! `MIN` and remainder zero).

use vstd::arithmetic::div_mod::*;
use vstd::arithmetic::mul::*;
use vstd::arithmetic::power2::*;
use vstd::prelude::*;

verus! {

/// The register width a hart was built with.
#[derive(Debug, Clone, Copy, PartialEq, Eq, Structural)]
pub enum Xlen {
    X32,
    X64,
    X128,
}

impl Xlen {
    /// The number of bits in a machine word.
    pub open spec fn spec_bits(self) -> u32 {
        match self {
            Xlen::X32 => 32,
            Xlen::X64 => 64,
            Xlen::X128 => 128,
        }
    }

    #[verifier::when_used_as_spec(spec_bits)]
    pub fn bits(self) -> (r: u32)
        ensures
            r == self.spec_bits(),
    {
        match self {
            Xlen::X32 => 32,
            Xlen::X64 => 64,
            Xlen::X128 => 128,
        }
    }

    /// The all-ones word: `2^bits - 1`.
    pub open spec fn spec_mask(self) -> u128 {
        match self {
            Xlen::X32 => 0xffff_ffff,
            Xlen::X64 => 0xffff_ffff_ffff_ffff,
            Xlen::X128 => 0xffff_ffff_ffff_ffff_ffff_ffff_ffff_ffff,
        }
    }

    #[verifier::when_used_as_spec(spec_mask)]
    pub fn mask(self) -> (r: u128)
        ensures
            r == self.spec_mask(),
    {
        match self {
            Xlen::X32 => 0xffff_ffff,
            Xlen::X64 => 0xffff_ffff_ffff_ffff,
            Xlen::X128 => 0xffff_ffff_ffff_ffff_ffff_ffff_ffff_ffff,
        }
    }

    /// The modulus of a machine word: `2^bits`.
    pub open spec fn size(self) -> int {
        self.spec_mask() + 1
    }

    /// The weight of the sign bit: `2^(bits-1)`.
    pub open spec fn spec_half(self) -> u128 {
        match self {
            Xlen::X32 => 0x8000_0000,
            Xlen::X64 => 0x8000_0000_0000_0000,
            Xlen::X128 => 0x8000_0000_0000_0000_0000_0000_0000_0000,
        }
    }

    #[verifier::when_used_as_spec(spec_half)]
    pub fn half(self) -> (r: u128)
        ensures
            r == self.spec_half(),
    {
        match self {
            Xlen::X32 => 0x8000_0000,
            Xlen::X64 => 0x8000_0000_0000_0000,
            Xlen::X128 => 0x8000_0000_0000_0000_0000_0000_0000_0000,
        }
    }

    /// The size of a word really is two to its bit count.
    pub proof fn lemma_size_pow2(self)
        ensures
            self.size() == pow2(self.spec_bits() as nat),
            self.spec_half() == pow2((self.spec_bits() - 1) as nat),
    {
        lemma2_to64();
        lemma2_to64_rest();
        lemma_pow2_adds(64, 63);
        lemma_pow2_adds(64, 64);
    }
}

/// A word is well formed when it fits its width.
pub open spec fn wf(w: Xlen, x: u128) -> bool {
    x <= w.spec_mask()
}

/// The two's-complement signed reading of a word.
pub open spec fn sint(w: Xlen, x: u128) -> int {
    if x >= w.spec_half() {
        x - w.size()
    } else {
        x as int
    }
}

/// Truncating division, rounding the quotient toward zero, as the ISA's
/// signed divide demands (spec-level `/` on `int` rounds toward minus
/// infinity instead).
pub open spec fn tdiv(a: int, b: int) -> int {
    if (a < 0) == (b < 0) {
        abs_of(a) / abs_of(b)
    } else {
        -(abs_of(a) / abs_of(b))
    }
}

/// The remainder matching [`tdiv`]: it carries the dividend's sign.
pub open spec fn trem(a: int, b: int) -> int {
    a - b * tdiv(a, b)
}

/// The absolute value of an integer.
pub open spec fn abs_of(a: int) -> int {
    if a < 0 {
        -a
    } else {
        a
    }
}

/// `2^sh` as a word, for shift amounts below 128.
pub fn pow2x(sh: u32) -> (r: u128)
    requires
        sh < 128,
    ensures
        r == pow2(sh as nat),
{
    let mut r: u128 = 1;
    let mut i: u32 = 0;
    proof {
        lemma2_to64();
    }
    while i < sh
        invariant
            i <= sh < 128,
            r == pow2(i as nat),
        decreases sh - i,
    {
        proof {
            lemma_pow2_unfold((i + 1) as nat);
            lemma_pow2_strictly_increases((i + 1) as nat, 128);
            lemma2_to64();
            lemma2_to64_rest();
            lemma_pow2_adds(64, 64);
        }
        r = r * 2;
        i = i + 1;
    }
    r
}

/// Widens a `u32` to a word.
pub fn from_u32(v: u32) -> (r: u128)
    ensures
        r == v,
{
    v as u128
}

/// Widens a `u64` to a word.
pub fn from_u64(v: u64) -> (r: u128)
    ensures
        r == v,
{
    v as u128
}

/// The low byte of a word.
pub fn to_u8(x: u128) -> (r: u8)
    ensures
        r == x % 0x100,
{
    (x % 0x100) as u8
}

/// The low 16 bits of a word.
pub fn to_u16(x: u128) -> (r: u16)
    ensures
        r == x % 0x1_0000,
{
    (x % 0x1_0000) as u16
}

/// The low 32 bits of a word.
pub fn to_u32(x: u128) -> (r: u32)
    ensures
        r == x % 0x1_0000_0000,
{
    (x % 0x1_0000_0000) as u32
}

/// The low 64 bits of a word.
pub fn to_u64(x: u128) -> (r: u64)
    ensures
        r == x % 0x1_0000_0000_0000_0000,
{
    (x % 0x1_0000_0000_0000_0000) as u64
}

impl Xlen {
    /// Embeds a signed 32-bit value in a word of width `w`, two's complement.
    pub fn from_i32(self, v: i32) -> (r: u128)
        ensures
            r == (v as int) % self.size(),
            wf(self, r),
    {
        proof {
            lemma_mod_bound(v as int, self.size());
            if v >= 0 {
                lemma_small_mod(v as nat, self.size() as nat);
            } else {
                lemma_mod_add_multiples_vanish(v as int, self.size());
                lemma_small_mod((v + self.size()) as nat, self.size() as nat);
            }
        }
        if v >= 0 {
            v as u128
        } else {
            let m: u128 = (-(v as i64)) as u128;
            self.mask() - m + 1
        }
    }

    /// Embeds a signed 64-bit value in a word of width `w`, two's complement.
    pub fn from_i64(self, v: i64) -> (r: u128)
        requires
            self.spec_bits() >= 64,
        ensures
            r == (v as int) % self.size(),
            wf(self, r),
    {
        proof {
            lemma_mod_bound(v as int, self.size());
            if v >= 0 {
                lemma_small_mod(v as nat, self.size() as nat);
            } else {
                lemma_mod_add_multiples_vanish(v as int, self.size());
                lemma_small_mod((v + self.size()) as nat, self.size() as nat);
            }
        }
        if v >= 0 {
            v as u128
        } else {
            let m: u128 = (-(v as i128)) as u128;
            self.mask() - m + 1
        }
    }

    /// Wrapping addition of two words.
    pub fn add(self, a: u128, b: u128) -> (r: u128)
        requires
            wf(self, a),
            wf(self, b),
        ensures
            r == (a + b) % self.size(),
            wf(self, r),
    {
        proof {
            lemma_mod_bound((a + b) as int, self.size());
        }
        match self {
            Xlen::X32 => (a + b) % 0x1_0000_0000,
            Xlen::X64 => (a + b) % 0x1_0000_0000_0000_0000,
            Xlen::X128 => {
                proof {
                    if a + b <= u128::MAX {
                        lemma_small_mod((a + b) as nat, self.size() as nat);
                    } else {
                        lemma_mod_sub_multiples_vanish((a + b) as int, self.size());
                        lemma_small_mod((a + b - self.size()) as nat, self.size() as nat);
                    }
                }
                a.wrapping_add(b)
            },
        }
    }

    /// Wrapping addition of a word and a sign-extended 32-bit immediate.
    pub fn add_i32(self, a: u128, imm: i32) -> (r: u128)
        requires
            wf(self, a),
        ensures
            r == (a + imm) % self.size(),
            wf(self, r),
    {
        let b = self.from_i32(imm);
        let r = self.add(a, b);
        proof {
            lemma_add_mod_noop(a as int, imm as int, self.size());
            lemma_small_mod(a as nat, self.size() as nat);
        }
        r
    }

    /// Wrapping subtraction of two words.
    pub fn sub(self, a: u128, b: u128) -> (r: u128)
        requires
            wf(self, a),
            wf(self, b),
        ensures
            r == (a - b) % self.size(),
            wf(self, r),
    {
        proof {
            if a >= b {
                lemma_small_mod((a - b) as nat, self.size() as nat);
            } else {
                lemma_mod_add_multiples_vanish((a - b) as int, self.size());
                lemma_small_mod((a - b + self.size()) as nat, self.size() as nat);
            }
        }
        if a >= b {
            a - b
        } else {
            self.mask() - b + a + 1
        }
    }

    /// Bitwise conjunction; well-formedness follows because the result never
    /// exceeds either operand's bits.
    pub fn and(self, a: u128, b: u128) -> (r: u128)
        requires
            wf(self, a),
            wf(self, b),
        ensures
            r == (a & b),
            wf(self, r),
    {
        proof {
            lemma_bitops_bounded(a, b);
        }
        a & b
    }

    /// Bitwise disjunction.
    pub fn or(self, a: u128, b: u128) -> (r: u128)
        requires
            wf(self, a),
            wf(self, b),
        ensures
            r == (a | b),
            wf(self, r),
    {
        proof {
            lemma_bitops_bounded(a, b);
        }
        a | b
    }

    /// Bitwise exclusive or.
    pub fn xor(self, a: u128, b: u128) -> (r: u128)
        requires
            wf(self, a),
            wf(self, b),
        ensures
            r == (a ^ b),
            wf(self, r),
    {
        proof {
            lemma_bitops_bounded(a, b);
        }
        a ^ b
    }

    /// Signed comparison of two words: both words carry the same sign exactly
    /// when their unsigned order agrees with their signed order.
    pub fn lts(self, a: u128, b: u128) -> (r: bool)
        requires
            wf(self, a),
            wf(self, b),
        ensures
            r == (sint(self, a) < sint(self, b)),
    {
        let a_neg = a >= self.half();
        let b_neg = b >= self.half();
        if a_neg == b_neg {
            a < b
        } else {
            a_neg
        }
    }

    /// Logical left shift: multiplication by `2^sh`, truncated to the width.
    pub fn sll(self, a: u128, sh: u32) -> (r: u128)
        requires
            wf(self, a),
            sh < self.spec_bits(),
        ensures
            r == (a * pow2(sh as nat)) % self.size(),
            wf(self, r),
    {
        let p = pow2x(sh);
        proof {
            self.lemma_size_pow2();
            lemma_pow2_strictly_increases(sh as nat, self.spec_bits() as nat);
            lemma_mul_upper_bound(a as int, self.spec_mask() as int, p as int, self.size());
            lemma_mod_bound((a * p) as int, self.size());
        }
        match self {
            Xlen::X32 => (a * p) % 0x1_0000_0000,
            Xlen::X64 => (a * p) % 0x1_0000_0000_0000_0000,
            Xlen::X128 => {
                proof {
                    lemma2_to64();
                    lemma2_to64_rest();
                    lemma_pow2_adds(64, 64);
                }
                a.wrapping_mul(p)
            },
        }
    }

    /// Logical right shift: division by `2^sh`.
    pub fn srl(self, a: u128, sh: u32) -> (r: u128)
        requires
            wf(self, a),
            sh < self.spec_bits(),
        ensures
            r == a as int / pow2(sh as nat) as int,
            wf(self, r),
    {
        let p = pow2x(sh);
        proof {
            lemma_pow2_pos(sh as nat);
            lemma_div_is_ordered(0, a as int, p as int);
            lemma_div_nonincreasing(a as int, p as int);
        }
        a / p
    }

    /// Arithmetic right shift: flooring division of the signed reading by
    /// `2^sh`, re-embedded as a word.
    pub fn sra(self, a: u128, sh: u32) -> (r: u128)
        requires
            wf(self, a),
            sh < self.spec_bits(),
        ensures
            sint(self, r) == sint(self, a) / pow2(sh as nat) as int,
            wf(self, r),
    {
        if sh == 0 {
            proof {
                lemma2_to64();
                lemma_div_basics_1(sint(self, a));
            }
            return a;
        }
        let p = pow2x(sh);
        proof {
            lemma_pow2_pos(sh as nat);
            lemma_div_is_ordered(a as int, self.spec_mask() as int, p as int);
        }
        let q = a / p;
        if a >= self.half() {
            // The word is negative: fill the vacated high bits with ones.
            let ghost b = self.spec_bits() as nat;
            let ghost s = sh as nat;
            let ghost ph = pow2((b - s) as nat) as int;
            proof {
                self.lemma_size_pow2();
                lemma_pow2_adds((b - s) as nat, s);
                lemma_pow2_pos((b - s) as nat);
                // mask == p * (2^(bits-sh) - 1) + (p - 1), so mask / p == 2^(bits-sh) - 1.
                assert(self.spec_mask() as int == (p as int) * (ph - 1) + (p - 1)) by {
                    lemma_mul_is_distributive_sub(p as int, ph, 1);
                    lemma_mul_is_commutative(ph, p as int);
                }
                lemma_div_multiples_vanish_fancy(ph - 1, (p - 1) as int, p as int);
                // (a - size) / p == a / p - 2^(bits-sh), because size == 2^(bits-sh) * p.
                assert(self.size() == ph * p) by {
                    lemma_mul_is_commutative(ph, p as int);
                }
                lemma_hoist_over_denominator((a - self.size()) as int, ph, p as nat);
                // The result stays in the negative range: q >= half / p and the
                // fill reaches down to the old sign position.
                lemma_div_is_ordered(self.spec_half() as int, a as int, p as int);
                lemma_pow2_adds((b - 1 - s) as nat, s);
                lemma_div_by_multiple(pow2((b - 1 - s) as nat) as int, p as int);
                lemma_mul_is_commutative(pow2((b - 1 - s) as nat) as int, p as int);
                if b - s < b - 1 {
                    lemma_pow2_strictly_increases((b - s) as nat, (b - 1) as nat);
                }
            }
            let fill = self.mask() - self.mask() / p;
            q + fill
        } else {
            proof {
                lemma_div_is_ordered(0, a as int, p as int);
                lemma_div_is_ordered(a as int, (self.spec_half() - 1) as int, p as int);
                lemma_div_nonincreasing((self.spec_half() - 1) as int, p as int);
            }
            q
        }
    }

    /// Fills the word with copies of its sign bit: all ones when negative, zero
    /// otherwise.
    pub fn sign_blast(self, x: u128) -> (r: u128)
        requires
            wf(self, x),
        ensures
            r == if sint(self, x) < 0 {
                self.spec_mask()
            } else {
                0
            },
            wf(self, r),
    {
        if x >= self.half() {
            self.mask()
        } else {
            0
        }
    }

    /// Truncation to the low 32 bits, zero-extended.
    pub fn trunc32(self, x: u128) -> (r: u128)
        requires
            wf(self, x),
            self.spec_bits() >= 64,
        ensures
            r == x % 0x1_0000_0000,
            wf(self, r),
    {
        x % 0x1_0000_0000
    }

    /// Sign-extension from the low 32 bits to the full width.
    pub fn sext32(self, x: u128) -> (r: u128)
        requires
            wf(self, x),
            self.spec_bits() >= 64,
        ensures
            sint(self, r) == s32((x % 0x1_0000_0000) as int),
            r % 0x1_0000_0000 == x % 0x1_0000_0000,
            wf(self, r),
    {
        let low = x % 0x1_0000_0000;
        proof {
            lemma_small_mod(low as nat, 0x1_0000_0000);
        }
        if low >= 0x8000_0000 {
            let r = low + (self.mask() - 0xffff_ffff);
            proof {
                match self {
                    Xlen::X64 => lemma_mod_multiples_vanish(0xffff_ffff, low as int, 0x1_0000_0000),
                    _ => lemma_mod_multiples_vanish(
                        0xffff_ffff_ffff_ffff_ffff_ffff,
                        low as int,
                        0x1_0000_0000,
                    ),
                }
            }
            r
        } else {
            low
        }
    }

    /// Truncation to the low 64 bits, zero-extended.
    pub fn trunc64(self, x: u128) -> (r: u128)
        requires
            wf(self, x),
            self.spec_bits() == 128,
        ensures
            r == x % 0x1_0000_0000_0000_0000,
            wf(self, r),
    {
        x % 0x1_0000_0000_0000_0000
    }

    /// Sign-extension from the low 64 bits to the full width.
    pub fn sext64(self, x: u128) -> (r: u128)
        requires
            wf(self, x),
            self.spec_bits() == 128,
        ensures
            sint(self, r) == s64((x % 0x1_0000_0000_0000_0000) as int),
            r % 0x1_0000_0000_0000_0000 == x % 0x1_0000_0000_0000_0000,
            wf(self, r),
    {
        let low = x % 0x1_0000_0000_0000_0000;
        proof {
            lemma_small_mod(low as nat, 0x1_0000_0000_0000_0000);
        }
        if low >= 0x8000_0000_0000_0000 {
            let r = low + (self.mask() - 0xffff_ffff_ffff_ffff);
            proof {
                lemma_mod_multiples_vanish(
                    0xffff_ffff_ffff_ffff,
                    low as int,
                    0x1_0000_0000_0000_0000,
                );
            }
            r
        } else {
            low
        }
    }

    /// Wrapping multiplication: the low word of the full product.
    pub fn mul(self, a: u128, b: u128) -> (r: u128)
        requires
            wf(self, a),
            wf(self, b),
        ensures
            r == (a * b) % self.size(),
            wf(self, r),
    {
        proof {
            lemma_mod_bound((a * b) as int, self.size());
        }
        match self {
            Xlen::X32 => {
                proof {
                    lemma_mul_upper_bound(a as int, 0xffff_ffff, b as int, 0xffff_ffff);
                }
                (a * b) % 0x1_0000_0000
            },
            Xlen::X64 => {
                proof {
                    lemma_mul_upper_bound(
                        a as int,
                        0xffff_ffff_ffff_ffff,
                        b as int,
                        0xffff_ffff_ffff_ffff,
                    );
                }
                (a * b) % 0x1_0000_0000_0000_0000
            },
            Xlen::X128 => a.wrapping_mul(b),
        }
    }

    /// The high word of the full double-width product, both operands
    /// unsigned.  For widths below 128 bits the product fits a `u128`; at
    /// 128 bits the product is assembled from four 64-bit limbs.
    pub fn mulhu(self, a: u128, b: u128) -> (r: u128)
        requires
            wf(self, a),
            wf(self, b),
        ensures
            r == (a * b) / self.size(),
            wf(self, r),
    {
        match self {
            Xlen::X32 => {
                proof {
                    lemma_mul_upper_bound(a as int, 0xffff_ffff, b as int, 0xffff_ffff);
                    lemma_div_is_ordered(
                        (a * b) as int,
                        0xffff_ffffint * 0xffff_ffff,
                        0x1_0000_0000,
                    );
                    lemma_div_pos_is_pos((a * b) as int, 0x1_0000_0000);
                }
                (a * b) / 0x1_0000_0000
            },
            Xlen::X64 => {
                proof {
                    lemma_mul_upper_bound(
                        a as int,
                        0xffff_ffff_ffff_ffff,
                        b as int,
                        0xffff_ffff_ffff_ffff,
                    );
                    lemma_div_is_ordered(
                        (a * b) as int,
                        0xffff_ffff_ffff_ffffint * 0xffff_ffff_ffff_ffff,
                        0x1_0000_0000_0000_0000,
                    );
                    lemma_div_pos_is_pos((a * b) as int, 0x1_0000_0000_0000_0000);
                }
                (a * b) / 0x1_0000_0000_0000_0000
            },
            Xlen::X128 => {
                let kk: u128 = 0x1_0000_0000_0000_0000;
                let al = a % kk;
                let ah = a / kk;
                let bl = b % kk;
                let bh = b / kk;
                proof {
                    lemma_div_is_ordered(a as int, u128::MAX as int, kk as int);
                    lemma_div_is_ordered(b as int, u128::MAX as int, kk as int);
                    lemma_div_pos_is_pos(a as int, kk as int);
                    lemma_div_pos_is_pos(b as int, kk as int);
                    lemma_mul_upper_bound(
                        al as int,
                        0xffff_ffff_ffff_ffff,
                        bl as int,
                        0xffff_ffff_ffff_ffff,
                    );
                    lemma_mul_upper_bound(
                        ah as int,
                        0xffff_ffff_ffff_ffff,
                        bl as int,
                        0xffff_ffff_ffff_ffff,
                    );
                    lemma_mul_upper_bound(
                        al as int,
                        0xffff_ffff_ffff_ffff,
                        bh as int,
                        0xffff_ffff_ffff_ffff,
                    );
                    lemma_mul_upper_bound(
                        ah as int,
                        0xffff_ffff_ffff_ffff,
                        bh as int,
                        0xffff_ffff_ffff_ffff,
                    );
                }
                let t = al * bl;
                proof {
                    lemma_div_is_ordered(
                        t as int,
                        0xffff_ffff_ffff_ffffint * 0xffff_ffff_ffff_ffff,
                        kk as int,
                    );
                    lemma_div_pos_is_pos(t as int, kk as int);
                }
                let u = ah * bl + t / kk;
                proof {
                    lemma_div_is_ordered(u as int, u128::MAX as int, kk as int);
                    lemma_div_pos_is_pos(u as int, kk as int);
                }
                let v = al * bh + u % kk;
                proof {
                    lemma_div_is_ordered(v as int, u128::MAX as int, kk as int);
                    lemma_div_pos_is_pos(v as int, kk as int);
                }
                let high = ah * bh + u / kk + v / kk;
                proof {
                    lemma_mulhu_limbs(
                        a as int,
                        b as int,
                        t as int,
                        u as int,
                        v as int,
                        high as int,
                    );
                }
                high
            },
        }
    }

    /// The high word of the signed-times-signed double-width product,
    /// assembled from the unsigned high product by sign-blast correction.
    pub fn mulh(self, a: u128, b: u128) -> (r: u128)
        requires
            wf(self, a),
            wf(self, b),
        ensures
            r == (sint(self, a) * sint(self, b) / self.size()) % self.size(),
            wf(self, r),
    {
        let hi = self.mulhu(a, b);
        let c1 = self.mul(self.sign_blast(a), b);
        let c2 = self.mul(a, self.sign_blast(b));
        let r = self.add(self.add(hi, c1), c2);
        proof {
            lemma_mulh_compose(
                self,
                a as int,
                b as int,
                if a >= self.spec_half() {
                    1int
                } else {
                    0int
                },
                if b >= self.spec_half() {
                    1int
                } else {
                    0int
                },
            );
        }
        r
    }

    /// The high word of the signed-times-unsigned double-width product.
    pub fn mulhsu(self, a: u128, b: u128) -> (r: u128)
        requires
            wf(self, a),
            wf(self, b),
        ensures
            r == (sint(self, a) * b / self.size()) % self.size(),
            wf(self, r),
    {
        let hi = self.mulhu(a, b);
        let c1 = self.mul(self.sign_blast(a), b);
        let r = self.add(hi, c1);
        proof {
            lemma_mulh_compose(
                self,
                a as int,
                b as int,
                if a >= self.spec_half() {
                    1int
                } else {
                    0int
                },
                0int,
            );
            // With no sign correction on the right, the second correction
            // term of the composition is zero.
            lemma_mul_by_zero_is_zero(self.size() - 1);
            lemma_mul_by_zero_is_zero(a as int);
            lemma_mul_by_zero_is_zero(b as int);
            lemma_small_mod(0nat, self.size() as nat);
            lemma_mod_twice((hi + c1) as int, self.size());
        }
        r
    }

    /// Signed division per the ISA: division by zero yields the all-ones
    /// word, and the only overflowing case, `MIN / -1`, wraps back to `MIN`
    /// through the modulus.
    pub fn div(self, a: u128, b: u128) -> (r: u128)
        requires
            wf(self, a),
            wf(self, b),
        ensures
            r == if b == 0 {
                self.spec_mask() as int
            } else {
                tdiv(sint(self, a), sint(self, b)) % self.size()
            },
            wf(self, r),
    {
        if b == 0 {
            return self.mask();
        }
        let na = a >= self.half();
        let nb = b >= self.half();
        let ma = if na {
            self.mask() - a + 1
        } else {
            a
        };
        let mb = if nb {
            self.mask() - b + 1
        } else {
            b
        };
        let q = ma / mb;
        proof {
            lemma_div_is_ordered(ma as int, self.spec_half() as int, mb as int);
            lemma_div_nonincreasing(self.spec_half() as int, mb as int);
            lemma_div_pos_is_pos(ma as int, mb as int);
            if na == nb {
                lemma_small_mod(q as nat, self.size() as nat);
            } else {
                if q != 0 {
                    lemma_mod_add_multiples_vanish(-(q as int), self.size());
                    lemma_small_mod((self.size() - q) as nat, self.size() as nat);
                } else {
                    lemma_small_mod(0nat, self.size() as nat);
                }
            }
        }
        if na != nb {
            if q == 0 {
                0
            } else {
                self.mask() - q + 1
            }
        } else {
            q
        }
    }

    /// Signed remainder per the ISA: it carries the dividend's sign, and a
    /// zero divisor yields the dividend.
    pub fn rem(self, a: u128, b: u128) -> (r: u128)
        requires
            wf(self, a),
            wf(self, b),
        ensures
            r == if b == 0 {
                a as int
            } else {
                trem(sint(self, a), sint(self, b)) % self.size()
            },
            wf(self, r),
    {
        if b == 0 {
            return a;
        }
        let na = a >= self.half();
        let nb = b >= self.half();
        let ma = if na {
            self.mask() - a + 1
        } else {
            a
        };
        let mb = if nb {
            self.mask() - b + 1
        } else {
            b
        };
        let m = ma % mb;
        proof {
            lemma_trem_abs(sint(self, a), sint(self, b));
            lemma_mod_bound(ma as int, mb as int);
            if na && m != 0 {
                lemma_mod_add_multiples_vanish(-(m as int), self.size());
                lemma_small_mod((self.size() - m) as nat, self.size() as nat);
            } else {
                lemma_small_mod(m as nat, self.size() as nat);
            }
        }
        if na && m > 0 {
            self.mask() - m + 1
        } else {
            m
        }
    }

    /// Unsigned division: a zero divisor yields the all-ones word.
    pub fn divu(self, a: u128, b: u128) -> (r: u128)
        requires
            wf(self, a),
            wf(self, b),
        ensures
            r == if b == 0 {
                self.spec_mask() as int
            } else {
                a as int / b as int
            },
            wf(self, r),
    {
        if b == 0 {
            self.mask()
        } else {
            proof {
                lemma_div_nonincreasing(a as int, b as int);
                lemma_div_pos_is_pos(a as int, b as int);
            }
            a / b
        }
    }

    /// Unsigned remainder: a zero divisor yields the dividend.
    pub fn remu(self, a: u128, b: u128) -> (r: u128)
        requires
            wf(self, a),
            wf(self, b),
        ensures
            r == if b == 0 {
                a as int
            } else {
                a as int % b as int
            },
            wf(self, r),
    {
        if b == 0 {
            a
        } else {
            proof {
                lemma_mod_bound(a as int, b as int);
            }
            a % b
        }
    }
}

/// A well-formed word is the canonical representative of its signed
/// reading, modulo the word size.
pub proof fn lemma_sint_rep(w: Xlen, x: u128)
    requires
        wf(w, x),
    ensures
        sint(w, x) % w.size() == x,
{
    if x >= w.spec_half() {
        lemma_mod_add_multiples_vanish((x - w.size()) as int, w.size());
    }
    lemma_small_mod(x as nat, w.size() as nat);
}

/// Reducing modulo the word size keeps the low 32 bits, since the 32-bit
/// modulus divides every word size of at least 64 bits.
pub proof fn lemma_mod_low32(w: Xlen, x: int)
    requires
        w.spec_bits() >= 64,
    ensures
        (x % w.size()) % 0x1_0000_0000 == x % 0x1_0000_0000,
{
    match w {
        Xlen::X32 => {},
        Xlen::X64 => {
            lemma_mod_mod(x, 0x1_0000_0000, 0x1_0000_0000);
        },
        Xlen::X128 => {
            lemma_mod_mod(x, 0x1_0000_0000, 0x1_0000_0000_0000_0000_0000_0000);
        },
    }
}

/// The truncating remainder is the remainder of the magnitudes, carried on
/// the dividend's sign.
proof fn lemma_trem_abs(sa: int, sb: int)
    requires
        sb != 0,
    ensures
        trem(sa, sb) == if sa < 0 {
            -(abs_of(sa) % abs_of(sb))
        } else {
            abs_of(sa) % abs_of(sb)
        },
{
    let asa = abs_of(sa);
    let asb = abs_of(sb);
    let q = asa / asb;
    lemma_fundamental_div_mod(asa, asb);
    lemma_div_pos_is_pos(asa, asb);
    if (sa < 0) == (sb < 0) {
        if sb < 0 {
            assert(sb * q == -(asb * q)) by (nonlinear_arith)
                requires
                    sb == -asb,
            {}
        }
    } else {
        if sb < 0 {
            assert(sb * (-q) == asb * q) by (nonlinear_arith)
                requires
                    sb == -asb,
            {}
        } else {
            assert(sb * (-q) == -(asb * q)) by (nonlinear_arith)
                requires
                    sb == asb,
            {}
        }
    }
}

/// The four-limb schoolbook assembly really computes the high 128 bits of
/// the 256-bit product.
#[verifier::rlimit(60)]
proof fn lemma_mulhu_limbs(a: int, b: int, t: int, u: int, v: int, high: int)
    requires
        0 <= a < 0x1_0000_0000_0000_0000_0000_0000_0000_0000int,
        0 <= b < 0x1_0000_0000_0000_0000_0000_0000_0000_0000int,
        t == (a % 0x1_0000_0000_0000_0000) * (b % 0x1_0000_0000_0000_0000),
        u == (a / 0x1_0000_0000_0000_0000) * (b % 0x1_0000_0000_0000_0000) + t
            / 0x1_0000_0000_0000_0000,
        v == (a % 0x1_0000_0000_0000_0000) * (b / 0x1_0000_0000_0000_0000) + u
            % 0x1_0000_0000_0000_0000,
        high == (a / 0x1_0000_0000_0000_0000) * (b / 0x1_0000_0000_0000_0000) + u
            / 0x1_0000_0000_0000_0000 + v / 0x1_0000_0000_0000_0000,
    ensures
        high == (a * b) / 0x1_0000_0000_0000_0000_0000_0000_0000_0000int,
{
    let kk = 0x1_0000_0000_0000_0000int;
    let k2 = 0x1_0000_0000_0000_0000_0000_0000_0000_0000int;
    let ah = a / kk;
    let al = a % kk;
    let bh = b / kk;
    let bl = b % kk;
    lemma_fundamental_div_mod(a, kk);
    lemma_fundamental_div_mod(b, kk);
    lemma_mod_bound(a, kk);
    lemma_mod_bound(b, kk);
    lemma_div_pos_is_pos(a, kk);
    lemma_div_pos_is_pos(b, kk);
    lemma_mul_nonnegative(al, bl);
    lemma_mul_nonnegative(ah, bl);
    lemma_mul_nonnegative(al, bh);
    lemma_mul_nonnegative(ah, bh);
    lemma_fundamental_div_mod(t, kk);
    lemma_mod_bound(t, kk);
    lemma_div_pos_is_pos(t, kk);
    let s = ah * bl + al * bh + t / kk;
    lemma_fundamental_div_mod(u, kk);
    lemma_mod_bound(u, kk);
    lemma_div_pos_is_pos(u, kk);
    assert(s == v + (u / kk) * kk);
    lemma_hoist_over_denominator(v, u / kk, kk as nat);
    assert(s / kk == u / kk + v / kk);
    assert(a * b == k2 * (ah * bh) + 0x1_0000_0000_0000_0000 * (ah * bl) + 0x1_0000_0000_0000_0000
        * (al * bh) + al * bl) by (nonlinear_arith)
        requires
            a == 0x1_0000_0000_0000_0000 * ah + al,
            b == 0x1_0000_0000_0000_0000 * bh + bl,
            k2 == 0x1_0000_0000_0000_0000int * 0x1_0000_0000_0000_0000,
    {}
    assert(a * b == (ah * bh) * k2 + s * kk + t % kk);
    lemma_fundamental_div_mod(s, kk);
    lemma_mod_bound(s, kk);
    lemma_div_pos_is_pos(s, kk);
    assert(s * kk + t % kk == k2 * (s / kk) + ((s % kk) * kk + t % kk)) by (nonlinear_arith)
        requires
            s == kk * (s / kk) + s % kk,
            k2 == kk * kk,
    {}
    assert((s % kk) * kk <= (kk - 1) * kk) by {
        lemma_mul_inequality(s % kk, kk - 1, kk);
    }
    lemma_mul_nonnegative(s % kk, kk);
    lemma_div_multiples_vanish_fancy(s / kk, (s % kk) * kk + t % kk, k2);
    lemma_hoist_over_denominator(s * kk + t % kk, ah * bh, k2 as nat);
    assert((s * kk + t % kk) + (ah * bh) * k2 == a * b);
    assert((a * b) / k2 == (s * kk + t % kk) / k2 + ah * bh);
    assert((s * kk + t % kk) / k2 == s / kk);
}

/// The signed high product arises from the unsigned one by subtracting, for
/// each negative operand, the other operand from the high word; the
/// sign-blast correction terms do exactly that, modulo the word size.
#[verifier::rlimit(60)]
proof fn lemma_mulh_compose(w: Xlen, a: int, b: int, na: int, nb: int)
    requires
        0 <= a < w.size(),
        0 <= b < w.size(),
        0 <= na <= 1,
        0 <= nb <= 1,
    ensures
        ({
            let s = w.size();
            let hi = (a * b) / s;
            let c1 = ((na * (s - 1)) * b) % s;
            let c2 = (a * (nb * (s - 1))) % s;
            ((hi + c1) % s + c2) % s == ((a - na * s) * (b - nb * s) / s) % s
        }),
{
    let s = w.size();
    let x = a * b;
    let hi = x / s;
    let p = (a - na * s) * (b - nb * s);
    let d1 = -(na * b);
    let d2 = -(nb * a);
    let raw1 = (na * (s - 1)) * b;
    let raw2 = a * (nb * (s - 1));
    let c1 = raw1 % s;
    let c2 = raw2 % s;
    lemma_mul_nonnegative(a, b);
    lemma_div_pos_is_pos(x, s);
    // The signed product expands around the unsigned one.
    assert(p == x + (d1 + d2 + na * nb * s) * s) by (nonlinear_arith)
        requires
            p == (a - na * s) * (b - nb * s),
            x == a * b,
            d1 == -(na * b),
            d2 == -(nb * a),
    {}
    lemma_hoist_over_denominator(x, d1 + d2 + na * nb * s, s as nat);
    assert(p / s == hi + d1 + d2 + na * nb * s);
    assert((p / s) % s == (hi + d1 + d2) % s) by {
        lemma_mod_multiples_vanish(na * nb, hi + d1 + d2, s);
    }
    // Each correction term is the negated cross term, modulo the size.
    assert(raw1 == s * (na * b) + d1) by (nonlinear_arith)
        requires
            raw1 == (na * (s - 1)) * b,
            d1 == -(na * b),
    {}
    assert(raw2 == s * (nb * a) + d2) by (nonlinear_arith)
        requires
            raw2 == a * (nb * (s - 1)),
            d2 == -(nb * a),
    {}
    lemma_add_mod_noop(hi + c1, raw2, s);
    assert(((hi + c1) % s + c2) % s == (hi + c1 + raw2) % s);
    lemma_add_mod_noop_right(hi + raw2, raw1, s);
    assert((hi + c1 + raw2) % s == (hi + raw1 + raw2) % s);
    assert(hi + raw1 + raw2 == s * (na * b + nb * a) + (hi + d1 + d2)) by {
        lemma_mul_is_distributive_add(s, na * b, nb * a);
    }
    lemma_mod_multiples_vanish(na * b + nb * a, hi + d1 + d2, s);
}


/// Bitwise operations stay within the span of their operands' set bits.
pub proof fn lemma_bitops_bounded(a: u128, b: u128)
    by (bit_vector)
    ensures
        a <= 0xffff_ffff && b <= 0xffff_ffff ==> (a & b) <= 0xffff_ffff && (a | b) <= 0xffff_ffff
            && (a ^ b) <= 0xffff_ffff,
        a <= 0xffff_ffff_ffff_ffff && b <= 0xffff_ffff_ffff_ffff ==> (a & b)
            <= 0xffff_ffff_ffff_ffff && (a | b) <= 0xffff_ffff_ffff_ffff && (a ^ b)
            <= 0xffff_ffff_ffff_ffff,
{
}


/// The signed reading of a 32-bit quantity.
pub open spec fn s32(v: int) -> int {
    if v >= 0x8000_0000 {
        v - 0x1_0000_0000
    } else {
        v as int
    }
}

/// The signed reading of a 64-bit quantity.
pub open spec fn s64(v: int) -> int {
    if v >= 0x8000_0000_0000_0000 {
        v - 0x1_0000_0000_0000_0000
    } else {
        v as int
    }
}

} // verus!
