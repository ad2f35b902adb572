//! The integer ALU: executes a [`BinaryOp`] on two machine words, and a
//! [`CmpCond`] branch comparison.
//!
//! The XLEN-wide variants use the full words; the `W`-suffixed variants
//! truncate both operands to 32 bits, perform the operation at 32 bits, and
//! sign-extend the result back to the full width.  Shift amounts are masked
//! to the operation's width before shifting.

use crate::uop::{BinaryOp, CmpCond};
use crate::xlen::{lemma_mod_low32, lemma_sint_rep, s32, sint, tdiv, trem, wf, Xlen};
use vstd::arithmetic::div_mod::*;
use vstd::arithmetic::power2::*;
use vstd::prelude::*;

verus! {

/// The effective shift amount: the right operand reduced to the width.
pub open spec fn shamt(w: Xlen, b: u128) -> nat {
    (b % (w.spec_bits() as u128)) as nat
}

/// The effective shift amount of a 32-bit word operation.
pub open spec fn shamt32(b: u128) -> nat {
    (b % 32) as nat
}

impl BinaryOp {
    /// Whether this operation exists at width `w`: the `W`-suffixed word
    /// variants demand XLEN of at least 64 bits.
    pub open spec fn ok_for(self, w: Xlen) -> bool {
        match self {
            BinaryOp::AddW | BinaryOp::SllW | BinaryOp::SrlW | BinaryOp::SubW | BinaryOp::SraW
                | BinaryOp::MulW | BinaryOp::DivW | BinaryOp::DivUW | BinaryOp::RemW
                | BinaryOp::RemUW => w.spec_bits() >= 64,
            _ => true,
        }
    }

    /// The value this operation computes, as the well-formed word it leaves
    /// in the destination register.
    pub open spec fn value(self, w: Xlen, a: u128, b: u128) -> int {
        match self {
            BinaryOp::Add => (a + b) % w.size(),
            BinaryOp::Sll => (a * pow2(shamt(w, b))) % w.size(),
            BinaryOp::Slt => if sint(w, a) < sint(w, b) {
                1int
            } else {
                0int
            },
            BinaryOp::SltU => if a < b {
                1int
            } else {
                0int
            },
            BinaryOp::Xor => (a ^ b) as int,
            BinaryOp::Srl => a as int / pow2(shamt(w, b)) as int,
            BinaryOp::Or => (a | b) as int,
            BinaryOp::And => (a & b) as int,
            BinaryOp::Sub => (a - b) % w.size(),
            BinaryOp::Sra => (sint(w, a) / pow2(shamt(w, b)) as int) % w.size(),
            BinaryOp::AddW => s32((a + b) % 0x1_0000_0000) % w.size(),
            BinaryOp::SllW => s32(((a % 0x1_0000_0000) * pow2(shamt32(b))) % 0x1_0000_0000)
                % w.size(),
            BinaryOp::SrlW => s32((a % 0x1_0000_0000) as int / pow2(shamt32(b)) as int)
                % w.size(),
            BinaryOp::SubW => s32((a - b) % 0x1_0000_0000) % w.size(),
            BinaryOp::SraW => (s32((a % 0x1_0000_0000) as int) / pow2(shamt32(b)) as int) % w.size(),
            BinaryOp::Mul => (a * b) % w.size(),
            BinaryOp::Mulh => (sint(w, a) * sint(w, b) / w.size()) % w.size(),
            BinaryOp::MulhU => (a * b) / w.size(),
            BinaryOp::MulhSU => (sint(w, a) * b / w.size()) % w.size(),
            BinaryOp::Div => if b == 0 {
                w.spec_mask() as int
            } else {
                tdiv(sint(w, a), sint(w, b)) % w.size()
            },
            BinaryOp::DivU => if b == 0 {
                w.spec_mask() as int
            } else {
                a as int / b as int
            },
            BinaryOp::Rem => if b == 0 {
                a as int
            } else {
                trem(sint(w, a), sint(w, b)) % w.size()
            },
            BinaryOp::RemU => if b == 0 {
                a as int
            } else {
                a as int % b as int
            },
            BinaryOp::MulW => s32(((a % 0x1_0000_0000) * (b % 0x1_0000_0000)) % 0x1_0000_0000)
                % w.size(),
            BinaryOp::DivW => if b % 0x1_0000_0000 == 0 {
                s32(0xffff_ffff) % w.size()
            } else {
                s32(tdiv(s32((a % 0x1_0000_0000) as int), s32((b % 0x1_0000_0000) as int)) % 0x1_0000_0000)
                    % w.size()
            },
            BinaryOp::DivUW => if b % 0x1_0000_0000 == 0 {
                s32(0xffff_ffff) % w.size()
            } else {
                s32((a % 0x1_0000_0000) as int / (b % 0x1_0000_0000) as int) % w.size()
            },
            BinaryOp::RemW => if b % 0x1_0000_0000 == 0 {
                s32((a % 0x1_0000_0000) as int) % w.size()
            } else {
                s32(trem(s32((a % 0x1_0000_0000) as int), s32((b % 0x1_0000_0000) as int)) % 0x1_0000_0000)
                    % w.size()
            },
            BinaryOp::RemUW => if b % 0x1_0000_0000 == 0 {
                s32((a % 0x1_0000_0000) as int) % w.size()
            } else {
                s32((a % 0x1_0000_0000) as int % (b % 0x1_0000_0000) as int) % w.size()
            },
            BinaryOp::Second => b as int,
            BinaryOp::Max => if sint(w, a) > sint(w, b) {
                a as int
            } else {
                b as int
            },
            BinaryOp::MaxU => if a > b {
                a as int
            } else {
                b as int
            },
            BinaryOp::Min => if sint(w, a) < sint(w, b) {
                a as int
            } else {
                b as int
            },
            BinaryOp::MinU => if a < b {
                a as int
            } else {
                b as int
            },
        }
    }

    /// Executes the operation on two machine words.
    pub fn exec(self, w: Xlen, lhs: u128, rhs: u128) -> (r: u128)
        requires
            wf(w, lhs),
            wf(w, rhs),
            self.ok_for(w),
        ensures
            r == self.value(w, lhs, rhs),
            wf(w, r),
    {
        match self {
            BinaryOp::Add => w.add(lhs, rhs),
            BinaryOp::Sll => w.sll(lhs, full_shamt(w, rhs)),
            BinaryOp::Slt => if w.lts(lhs, rhs) {
                1
            } else {
                0
            },
            BinaryOp::SltU => if lhs < rhs {
                1
            } else {
                0
            },
            BinaryOp::Xor => w.xor(lhs, rhs),
            BinaryOp::Srl => w.srl(lhs, full_shamt(w, rhs)),
            BinaryOp::Or => w.or(lhs, rhs),
            BinaryOp::And => w.and(lhs, rhs),
            BinaryOp::Sub => w.sub(lhs, rhs),
            BinaryOp::Sra => {
                let r = w.sra(lhs, full_shamt(w, rhs));
                proof {
                    lemma_sint_rep(w, r);
                }
                r
            },
            BinaryOp::AddW => {
                let t = w.add(lhs, rhs);
                let r = w.sext32(t);
                proof {
                    lemma_mod_low32(w, lhs + rhs);
                    lemma_sint_rep(w, r);
                }
                r
            },
            BinaryOp::SllW => {
                let t = Xlen::X32.sll(lhs % 0x1_0000_0000, word_shamt(rhs));
                let r = w.sext32(t);
                proof {
                    lemma_small_mod(t as nat, 0x1_0000_0000);
                    lemma_sint_rep(w, r);
                }
                r
            },
            BinaryOp::SrlW => {
                let t = Xlen::X32.srl(lhs % 0x1_0000_0000, word_shamt(rhs));
                let r = w.sext32(t);
                proof {
                    lemma_small_mod(t as nat, 0x1_0000_0000);
                    lemma_sint_rep(w, r);
                }
                r
            },
            BinaryOp::SubW => {
                let t = w.sub(lhs, rhs);
                let r = w.sext32(t);
                proof {
                    lemma_mod_low32(w, lhs - rhs);
                    lemma_sint_rep(w, r);
                }
                r
            },
            BinaryOp::SraW => {
                let t = Xlen::X32.sra(lhs % 0x1_0000_0000, word_shamt(rhs));
                let r = w.sext32(t);
                proof {
                    lemma_small_mod(t as nat, 0x1_0000_0000);
                    lemma_sint_rep(w, r);
                }
                r
            },
            BinaryOp::Mul => w.mul(lhs, rhs),
            BinaryOp::Mulh => w.mulh(lhs, rhs),
            BinaryOp::MulhU => w.mulhu(lhs, rhs),
            BinaryOp::MulhSU => w.mulhsu(lhs, rhs),
            BinaryOp::Div => w.div(lhs, rhs),
            BinaryOp::DivU => w.divu(lhs, rhs),
            BinaryOp::Rem => w.rem(lhs, rhs),
            BinaryOp::RemU => w.remu(lhs, rhs),
            BinaryOp::MulW => {
                let t = Xlen::X32.mul(lhs % 0x1_0000_0000, rhs % 0x1_0000_0000);
                let r = w.sext32(t);
                proof {
                    lemma_small_mod(t as nat, 0x1_0000_0000);
                    lemma_sint_rep(w, r);
                }
                r
            },
            BinaryOp::DivW => {
                let t = Xlen::X32.div(lhs % 0x1_0000_0000, rhs % 0x1_0000_0000);
                let r = w.sext32(t);
                proof {
                    lemma_small_mod(t as nat, 0x1_0000_0000);
                    lemma_sint_rep(w, r);
                }
                r
            },
            BinaryOp::DivUW => {
                let t = Xlen::X32.divu(lhs % 0x1_0000_0000, rhs % 0x1_0000_0000);
                let r = w.sext32(t);
                proof {
                    lemma_small_mod(t as nat, 0x1_0000_0000);
                    lemma_sint_rep(w, r);
                }
                r
            },
            BinaryOp::RemW => {
                let t = Xlen::X32.rem(lhs % 0x1_0000_0000, rhs % 0x1_0000_0000);
                let r = w.sext32(t);
                proof {
                    lemma_small_mod(t as nat, 0x1_0000_0000);
                    lemma_sint_rep(w, r);
                }
                r
            },
            BinaryOp::RemUW => {
                let t = Xlen::X32.remu(lhs % 0x1_0000_0000, rhs % 0x1_0000_0000);
                let r = w.sext32(t);
                proof {
                    lemma_small_mod(t as nat, 0x1_0000_0000);
                    lemma_sint_rep(w, r);
                }
                r
            },
            BinaryOp::Second => rhs,
            BinaryOp::Max => if w.lts(rhs, lhs) {
                lhs
            } else {
                rhs
            },
            BinaryOp::MaxU => if rhs < lhs {
                lhs
            } else {
                rhs
            },
            BinaryOp::Min => if w.lts(lhs, rhs) {
                lhs
            } else {
                rhs
            },
            BinaryOp::MinU => if lhs < rhs {
                lhs
            } else {
                rhs
            },
        }
    }
}

/// The shift amount for a full-width shift: the right operand modulo XLEN.
fn full_shamt(w: Xlen, b: u128) -> (r: u32)
    ensures
        r == shamt(w, b),
        r < w.spec_bits(),
{
    proof {
        lemma_mod_bound(b as int, w.spec_bits() as int);
    }
    (b % (w.bits() as u128)) as u32
}

/// The shift amount for a 32-bit word shift: the right operand modulo 32.
fn word_shamt(b: u128) -> (r: u32)
    ensures
        r == shamt32(b),
        r < 32,
{
    proof {
        lemma_mod_bound(b as int, 32);
    }
    (b % 32) as u32
}

impl CmpCond {
    /// The branch condition as a predicate over the two source words.
    pub open spec fn holds(self, w: Xlen, a: u128, b: u128) -> bool {
        match self {
            CmpCond::Eq => a == b,
            CmpCond::Ne => a != b,
            CmpCond::Lt => sint(w, a) < sint(w, b),
            CmpCond::Ge => sint(w, a) >= sint(w, b),
            CmpCond::LtU => a < b,
            CmpCond::GeU => a >= b,
        }
    }

    /// Tests the branch condition on two machine words.
    pub fn test(self, w: Xlen, lhs: u128, rhs: u128) -> (r: bool)
        requires
            wf(w, lhs),
            wf(w, rhs),
        ensures
            r == self.holds(w, lhs, rhs),
    {
        match self {
            CmpCond::Eq => lhs == rhs,
            CmpCond::Ne => lhs != rhs,
            CmpCond::Lt => w.lts(lhs, rhs),
            CmpCond::Ge => !w.lts(lhs, rhs),
            CmpCond::LtU => lhs < rhs,
            CmpCond::GeU => lhs >= rhs,
        }
    }
}

} // verus!
