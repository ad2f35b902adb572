//! The general laws the library states about itself, proved once and for
//! all inputs: extension and width gating of the decoder, the reduced
//! register file, the ALU's algebraic identities, and the NaN-boxing
//! discipline.

use crate::decode::common::{spec_sel, Isa};
use crate::decode::dec32::spec_dec32;
use crate::execute::alu::shamt;
use crate::uop::BinaryOp;
use crate::fpu::{f64_is_nan, spec_box32};
use crate::uop::{Exception, Instr};
use crate::xlen::{sint, tdiv, trem, wf, Xlen};
use vstd::arithmetic::div_mod::*;
use vstd::arithmetic::mul::*;
use vstd::arithmetic::power2::*;
use vstd::prelude::*;

verus! {

/// With the M extension disabled, every OP-group encoding whose `funct7`
/// selects the multiply/divide block decodes to the illegal-instruction
/// trap; with it enabled, the same encodings decode to a multiply or divide
/// operation.
pub proof fn lemma_m_gating(isa: Isa, ins: u32)
    requires
        spec_sel(ins, 6, 2) == 0x0c || spec_sel(ins, 6, 2) == 0x0e,
        spec_sel(ins, 31, 25) == 1,
        !isa.m,
    ensures
        spec_dec32(isa, ins) == Instr::Trap(Exception::IllegalInstr),
{
}

/// With the A extension disabled, every AMO-group encoding decodes to the
/// illegal-instruction trap.
pub proof fn lemma_a_gating(isa: Isa, ins: u32)
    requires
        spec_sel(ins, 6, 2) == 0x0b,
        !isa.a,
    ensures
        spec_dec32(isa, ins) == Instr::Trap(Exception::IllegalInstr),
{
}

/// With the F extension disabled, every floating-point opcode group — the
/// loads and stores, the fused multiply-adds, and the whole OP-FP block —
/// decodes to the illegal-instruction trap.
pub proof fn lemma_f_gating(isa: Isa, ins: u32)
    requires
        spec_sel(ins, 6, 2) == 0x01 || spec_sel(ins, 6, 2) == 0x09 || (0x10 <= spec_sel(ins, 6, 2)
            <= 0x14),
        !isa.f,
    ensures
        spec_dec32(isa, ins) == Instr::Trap(Exception::IllegalInstr),
{
}

/// With Zicsr disabled, every SYSTEM-group encoding other than the exact
/// ECALL and EBREAK patterns decodes to the illegal-instruction trap.
pub proof fn lemma_zicsr_gating(isa: Isa, ins: u32)
    requires
        spec_sel(ins, 6, 2) == 0x1c,
        spec_sel(ins, 14, 12) != 0,
        !isa.zicsr,
    ensures
        spec_dec32(isa, ins) == Instr::Trap(Exception::IllegalInstr),
{
}

/// With Zifencei disabled, the `fence.i` slot of MISC-MEM decodes to the
/// illegal-instruction trap; with it enabled, it decodes to the
/// instruction-fetch fence.
pub proof fn lemma_zifencei_gating(isa: Isa, ins: u32)
    requires
        spec_sel(ins, 6, 2) == 0x03,
        spec_sel(ins, 14, 12) == 1,
    ensures
        spec_dec32(isa, ins) == if isa.zifencei {
            Instr::MiscMem(crate::uop::MiscMemOp::FenceI)
        } else {
            Instr::Trap(Exception::IllegalInstr)
        },
{
}

/// At 32 bits, every OP-32 and OP-IMM-32 encoding is illegal.
pub proof fn lemma_width_gating_op32(isa: Isa, ins: u32)
    requires
        spec_sel(ins, 6, 2) == 0x06 || spec_sel(ins, 6, 2) == 0x0e,
        isa.xlen == Xlen::X32,
    ensures
        spec_dec32(isa, ins) == Instr::Trap(Exception::IllegalInstr),
{
}

/// At 32 bits, the double-word and unsigned-word loads, the double-word
/// store, and every double-word atomic are illegal.
pub proof fn lemma_width_gating_mem(isa: Isa, ins: u32)
    requires
        isa.xlen == Xlen::X32,
        (spec_sel(ins, 6, 2) == 0x00 && (spec_sel(ins, 14, 12) == 3 || spec_sel(ins, 14, 12) == 6))
            || (spec_sel(ins, 6, 2) == 0x08 && spec_sel(ins, 14, 12) == 3) || (spec_sel(ins, 6, 2)
            == 0x0b && spec_sel(ins, 14, 12) == 3),
    ensures
        spec_dec32(isa, ins) == Instr::Trap(Exception::IllegalInstr),
{
}

/// Under the reduced register file, an integer-computational,
/// load/store, branch or jump encoding that references a general-purpose
/// register of index 16 or above decodes to the illegal-instruction trap.
#[verifier::rlimit(60)]
pub proof fn lemma_reduced_register_file(isa: Isa, ins: u32)
    requires
        isa.e,
        spec_sel(ins, 6, 2) == 0x00 || spec_sel(ins, 6, 2) == 0x04 || spec_sel(ins, 6, 2) == 0x05
            || spec_sel(ins, 6, 2) == 0x06 || spec_sel(ins, 6, 2) == 0x08 || spec_sel(ins, 6, 2)
            == 0x0b || spec_sel(ins, 6, 2) == 0x0c || spec_sel(ins, 6, 2) == 0x0d || spec_sel(
            ins,
            6,
            2,
        ) == 0x0e || spec_sel(ins, 6, 2) == 0x18 || spec_sel(ins, 6, 2) == 0x19 || spec_sel(
            ins,
            6,
            2,
        ) == 0x1b,
        ({
            // The fields the group actually references: stores and branches
            // read rs1 and rs2; jumps and the upper-immediate forms write
            // only rd; everything else touches rd and rs1, and the
            // register-register groups rs2 as well.
            let grp = spec_sel(ins, 6, 2);
            let rd = spec_sel(ins, 11, 7);
            let rs1 = spec_sel(ins, 19, 15);
            let rs2 = spec_sel(ins, 24, 20);
            if grp == 0x05 || grp == 0x0d || grp == 0x1b {
                rd >= 16
            } else if grp == 0x18 || grp == 0x08 {
                rs1 >= 16 || rs2 >= 16
            } else if grp == 0x0b || grp == 0x0c || grp == 0x0e {
                rd >= 16 || rs1 >= 16 || rs2 >= 16
            } else {
                rd >= 16 || rs1 >= 16
            }
        }),
    ensures
        spec_dec32(isa, ins) == Instr::Trap(Exception::IllegalInstr),
{
}

/// Adding a word to its own two's complement yields zero: the ALU negation
/// identity.
pub proof fn lemma_add_neg(w: Xlen, a: u128)
    requires
        wf(w, a),
    ensures
        BinaryOp::Add.value(w, a, (BinaryOp::Sub.value(w, 0, a)) as u128) == 0,
{
    let neg = BinaryOp::Sub.value(w, 0, a);
    lemma_mod_bound(0 - a, w.size());
    if a == 0 {
        lemma_small_mod(0nat, w.size() as nat);
    } else {
        lemma_mod_add_multiples_vanish(0 - a, w.size());
        lemma_small_mod((w.size() - a) as nat, w.size() as nat);
        assert(neg == w.size() - a);
        lemma_mod_self_0(w.size());
    }
}

/// Subtraction is addition of the bitwise complement plus one: the ALU
/// two's-complement identity.
pub proof fn lemma_sub_is_add_not(w: Xlen, a: u128, b: u128)
    requires
        wf(w, a),
        wf(w, b),
    ensures
        BinaryOp::Sub.value(w, a, b) == BinaryOp::Add.value(
            w,
            a,
            (BinaryOp::Add.value(w, (BinaryOp::Xor.value(w, b, w.spec_mask())) as u128, 1)) as u128,
        ),
{
    lemma_xor_mask_is_complement(b);
    assert((b ^ w.spec_mask()) == w.spec_mask() - b) by {
        match w {
            Xlen::X32 => {},
            Xlen::X64 => {},
            Xlen::X128 => {},
        }
    }
    let nb = (w.spec_mask() - b) as u128;
    // (a - b) and (a + (mask - b) + 1) differ by exactly the word size.
    lemma_mod_bound(a - b, w.size());
    lemma_mod_bound(nb + 1, w.size());
    lemma_add_mod_noop(a as int, (nb + 1) % w.size(), w.size());
    lemma_mod_twice(nb + 1, w.size());
    lemma_add_mod_noop(a as int, nb + 1, w.size());
    lemma_small_mod(a as nat, w.size() as nat);
    assert(a + (nb + 1) == (a - b) + w.size());
    lemma_mod_sub_multiples_vanish(a + nb + 1, w.size());
}

/// Complementing against the all-ones mask is subtraction from it.
proof fn lemma_xor_mask_is_complement(b: u128)
    by (bit_vector)
    ensures
        b <= 0xffff_ffff ==> (b ^ 0xffff_ffffu128) == 0xffff_ffffu128 - b,
        b <= 0xffff_ffff_ffff_ffff ==> (b ^ 0xffff_ffff_ffff_ffffu128) == 0xffff_ffff_ffff_ffffu128
            - b,
        (b ^ 0xffff_ffff_ffff_ffff_ffff_ffff_ffff_ffffu128)
            == 0xffff_ffff_ffff_ffff_ffff_ffff_ffff_ffffu128 - b,
{
}

/// A left shift is multiplication by two to the shift amount, modulo the
/// word size.
pub proof fn lemma_sll_is_mul_pow2(w: Xlen, a: u128, s: u128)
    requires
        wf(w, a),
        wf(w, s),
    ensures
        BinaryOp::Sll.value(w, a, s) == (a * pow2(((s as int) % (w.spec_bits() as int)) as nat))
            % w.size(),
{
}

/// An arithmetic right shift by XLEN minus one leaves zero for a
/// nonnegative word and the all-ones word for a negative one.
pub proof fn lemma_sra_sign_fill(w: Xlen, a: u128)
    requires
        wf(w, a),
    ensures
        BinaryOp::Sra.value(w, a, (w.spec_bits() - 1) as u128) == if sint(w, a) >= 0 {
            0int
        } else {
            w.spec_mask() as int
        },
{
    let s = (w.spec_bits() - 1) as u128;
    assert(shamt(w, s) == w.spec_bits() - 1) by {
        lemma_small_mod(s as nat, w.spec_bits() as nat);
    }
    w.lemma_size_pow2();
    lemma_pow2_pos((w.spec_bits() - 1) as nat);
    if sint(w, a) >= 0 {
        lemma_basic_div(sint(w, a), pow2((w.spec_bits() - 1) as nat) as int);
        lemma_small_mod(0nat, w.size() as nat);
    } else {
        // The signed reading lies in [-half, 0), so the flooring quotient is
        // exactly -1, whose word representative is the mask.
        let h = pow2((w.spec_bits() - 1) as nat) as int;
        lemma_div_is_ordered(0 - h, sint(w, a), h);
        lemma_div_is_ordered(sint(w, a), -1, h);
        assert((0 - h) / h == -1) by {
            lemma_div_by_self_negative(h);
        }
        assert((-1int) / h == -1) by {
            lemma_div_basics_1(h);
            lemma_small_div_converse_helper(h);
        }
        assert(sint(w, a) / h == -1);
        lemma_mod_add_multiples_vanish(-1, w.size());
        lemma_small_mod((w.size() - 1) as nat, w.size() as nat);
    }
}

/// A negated numerator over itself divides to minus one.
proof fn lemma_div_by_self_negative(h: int)
    requires
        0 < h,
    ensures
        (0 - h) / h == -1,
{
    lemma_fundamental_div_mod_converse(0 - h, h, -1, 0);
}

/// Minus one over any larger positive divisor is minus one.
proof fn lemma_small_div_converse_helper(h: int)
    requires
        0 < h,
    ensures
        (-1int) / h == -1,
{
    lemma_fundamental_div_mod_converse(-1, h, -1, h - 1);
}

/// Signed division by zero yields the all-ones word and leaves the
/// dividend as remainder.
pub proof fn lemma_div_by_zero(w: Xlen, a: u128)
    requires
        wf(w, a),
    ensures
        BinaryOp::Div.value(w, a, 0) == w.spec_mask(),
        BinaryOp::Rem.value(w, a, 0) == a,
{
}

/// The one overflowing signed division, the minimum word over minus one,
/// yields the minimum word back with remainder zero.
pub proof fn lemma_div_overflow(w: Xlen)
    ensures
        BinaryOp::Div.value(w, w.spec_half(), w.spec_mask()) == w.spec_half(),
        BinaryOp::Rem.value(w, w.spec_half(), w.spec_mask()) == 0,
{
    let h = w.spec_half() as int;
    assert(sint(w, w.spec_half()) == 0 - h);
    assert(sint(w, w.spec_mask()) == -1);
    assert(tdiv(0 - h, -1) == h) by {
        lemma_div_basics_1(h);
    }
    assert(trem(0 - h, -1) == (0 - h) - (-1) * h) by {
        lemma_mul_basics_3(h);
    }
    assert((-1) * h == 0 - h) by {
        lemma_mul_unary_negation(1, h);
        lemma_mul_basics_2(h);
    }
    lemma_mod_self_0(w.size());
    assert(h % w.size() == h) by {
        lemma_small_mod(h as nat, w.size() as nat);
    }
    lemma_small_mod(0nat, w.size() as nat);
}

/// The unsigned high multiply is the upper half of the exact double-width
/// product, and the signed variants are the upper halves of the products of
/// the signed readings.
pub proof fn lemma_mulh_reference(w: Xlen, a: u128, b: u128)
    requires
        wf(w, a),
        wf(w, b),
    ensures
        BinaryOp::MulhU.value(w, a, b) == (a * b) / w.size(),
        BinaryOp::Mulh.value(w, a, b) == (sint(w, a) * sint(w, b) / w.size()) % w.size(),
        BinaryOp::MulhSU.value(w, a, b) == (sint(w, a) * b / w.size()) % w.size(),
{
}

/// A NaN-boxed single-precision pattern reads as a NaN at double
/// precision: its exponent field is saturated by the box's high ones.
pub proof fn lemma_boxed_single_is_double_nan(v: u32)
    ensures
        f64_is_nan(spec_box32(v)),
{
    let x = spec_box32(v) as int;
    assert(x / 0x10_0000_0000_0000 == 0xfff) by {
        lemma_div_is_ordered(0xffff_ffff_0000_0000, x, 0x10_0000_0000_0000);
        lemma_div_is_ordered(x, 0xffff_ffff_ffff_ffff, 0x10_0000_0000_0000);
    }
    assert(x % 0x10_0000_0000_0000 != 0) by {
        lemma_fundamental_div_mod(x, 0x10_0000_0000_0000);
    }
}

} // verus!
