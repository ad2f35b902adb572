//! The 16-bit (compressed) instruction decoder.
//!
//! Bits `[1:0]` select the quadrant and bits `[15:13]` the instruction.
//! Compressed encodings expand to the same micro-op families as the 32-bit
//! decoder, under the `C`-prefixed variants so that dispatch advances the
//! program counter by 2.  The all-zero canonical illegal encoding, and every
//! reserved or width-inapplicable slot, decodes to `Trap(IllegalInstr)`.
//! The 128-bit-only quad-word loads and stores are not modelled; their slots
//! are illegal at that width.

use crate::decode::common::{select_bits, sext, spec_sel, spec_sext, Isa, GP_RA, GP_SP, GP_ZERO};
use crate::uop::{BinaryOp, CmpCond, Exception, Instr, MemWidth, Precision};
use vstd::arithmetic::power2::*;
use vstd::prelude::*;

verus! {

// ---------------------------------------------------------------------------
// Register fields and immediate forms.
// ---------------------------------------------------------------------------
/// The full five-bit register field at bits `[11:7]`.
pub open spec fn spec_rhigh(x: u32) -> int {
    spec_sel(x, 11, 7)
}

/// The compressed three-bit register field at bits `[9:7]`, biased by 8.
pub open spec fn spec_crhigh(x: u32) -> int {
    spec_sel(x, 9, 7) + 8
}

/// The full five-bit register field at bits `[6:2]`.
pub open spec fn spec_rlow(x: u32) -> int {
    spec_sel(x, 6, 2)
}

/// The compressed three-bit register field at bits `[4:2]`, biased by 8.
pub open spec fn spec_crlow(x: u32) -> int {
    spec_sel(x, 4, 2) + 8
}

/// The compressed jump offset, sign-extended from bit 11.
pub open spec fn spec_cj_imm(x: u32) -> int {
    spec_sext(
        spec_sel(x, 5, 3) * 2 + spec_sel(x, 11, 11) * 16 + spec_sel(x, 2, 2) * 32 + spec_sel(
            x,
            7,
            7,
        ) * 64 + spec_sel(x, 6, 6) * 128 + spec_sel(x, 10, 9) * 256 + spec_sel(x, 8, 8) * 1024
            + spec_sel(x, 12, 12) * 2048,
        11,
    )
}

fn cj_imm(x: u32) -> (r: i32)
    ensures
        r == spec_cj_imm(x),
{
    proof {
        lemma2_to64();
    }
    sext(
        select_bits(x, 5, 3) * 2 + select_bits(x, 11, 11) * 16 + select_bits(x, 2, 2) * 32
            + select_bits(x, 7, 7) * 64 + select_bits(x, 6, 6) * 128 + select_bits(x, 10, 9) * 256
            + select_bits(x, 8, 8) * 1024 + select_bits(x, 12, 12) * 2048,
        11,
    )
}

/// The unsigned word-sized load/store offset of the register forms.
pub open spec fn spec_ls4b_uimm(x: u32) -> int {
    spec_sel(x, 6, 6) * 4 + spec_sel(x, 12, 10) * 8 + spec_sel(x, 5, 5) * 64
}

fn ls4b_uimm(x: u32) -> (r: i32)
    ensures
        r == spec_ls4b_uimm(x),
        0 <= r < 0x80,
{
    proof {
        lemma2_to64();
    }
    (select_bits(x, 6, 6) * 4 + select_bits(x, 12, 10) * 8 + select_bits(x, 5, 5) * 64) as i32
}

/// The unsigned double-word load/store offset of the register forms.
pub open spec fn spec_ls8b_uimm(x: u32) -> int {
    spec_sel(x, 12, 10) * 8 + spec_sel(x, 6, 5) * 64
}

fn ls8b_uimm(x: u32) -> (r: i32)
    ensures
        r == spec_ls8b_uimm(x),
        0 <= r < 0x100,
{
    proof {
        lemma2_to64();
    }
    (select_bits(x, 12, 10) * 8 + select_bits(x, 6, 5) * 64) as i32
}

/// The six-bit signed immediate of the `addi`/`li`/`andi` forms.
pub open spec fn spec_op_imm6(x: u32) -> int {
    spec_sext(spec_sel(x, 6, 2) + spec_sel(x, 12, 12) * 32, 5)
}

fn op_imm6(x: u32) -> (r: i32)
    ensures
        r == spec_op_imm6(x),
{
    proof {
        lemma2_to64();
    }
    sext(select_bits(x, 6, 2) + select_bits(x, 12, 12) * 32, 5)
}

/// The stack-pointer-relative word load offset.
pub open spec fn spec_lsp4b_uimm(x: u32) -> int {
    spec_sel(x, 6, 4) * 4 + spec_sel(x, 12, 12) * 32 + spec_sel(x, 3, 2) * 64
}

fn lsp4b_uimm(x: u32) -> (r: i32)
    ensures
        r == spec_lsp4b_uimm(x),
{
    proof {
        lemma2_to64();
    }
    (select_bits(x, 6, 4) * 4 + select_bits(x, 12, 12) * 32 + select_bits(x, 3, 2) * 64) as i32
}

/// The stack-pointer-relative double-word load offset.
pub open spec fn spec_lsp8b_uimm(x: u32) -> int {
    spec_sel(x, 6, 5) * 8 + spec_sel(x, 12, 12) * 32 + spec_sel(x, 4, 2) * 64
}

fn lsp8b_uimm(x: u32) -> (r: i32)
    ensures
        r == spec_lsp8b_uimm(x),
{
    proof {
        lemma2_to64();
    }
    (select_bits(x, 6, 5) * 8 + select_bits(x, 12, 12) * 32 + select_bits(x, 4, 2) * 64) as i32
}

/// The stack-pointer-relative word store offset.
pub open spec fn spec_ssp4b_uimm(x: u32) -> int {
    spec_sel(x, 12, 9) * 4 + spec_sel(x, 8, 7) * 64
}

fn ssp4b_uimm(x: u32) -> (r: i32)
    ensures
        r == spec_ssp4b_uimm(x),
{
    proof {
        lemma2_to64();
    }
    (select_bits(x, 12, 9) * 4 + select_bits(x, 8, 7) * 64) as i32
}

/// The stack-pointer-relative double-word store offset.
pub open spec fn spec_ssp8b_uimm(x: u32) -> int {
    spec_sel(x, 12, 10) * 8 + spec_sel(x, 9, 7) * 64
}

fn ssp8b_uimm(x: u32) -> (r: i32)
    ensures
        r == spec_ssp8b_uimm(x),
{
    proof {
        lemma2_to64();
    }
    (select_bits(x, 12, 10) * 8 + select_bits(x, 9, 7) * 64) as i32
}

/// The compressed branch offset, sign-extended from bit 8.
pub open spec fn spec_cb_imm(x: u32) -> int {
    spec_sext(
        spec_sel(x, 4, 3) * 2 + spec_sel(x, 11, 10) * 8 + spec_sel(x, 2, 2) * 32 + spec_sel(
            x,
            6,
            5,
        ) * 64 + spec_sel(x, 12, 12) * 256,
        8,
    )
}

fn cb_imm(x: u32) -> (r: i32)
    ensures
        r == spec_cb_imm(x),
{
    proof {
        lemma2_to64();
    }
    sext(
        select_bits(x, 4, 3) * 2 + select_bits(x, 11, 10) * 8 + select_bits(x, 2, 2) * 32
            + select_bits(x, 6, 5) * 64 + select_bits(x, 12, 12) * 256,
        8,
    )
}

// ---------------------------------------------------------------------------
// Shift amounts.
// ---------------------------------------------------------------------------
/// The compressed shift amount.  At 32 bits an amount of 32 or more is
/// illegal; at 64 bits all six bits are legal; at 128 bits the zero encoding
/// means 64 and the top bit adds 64, so the amounts 1 to 127 plus 64 itself
/// are expressible.
pub open spec fn spec_c_shamt(isa: Isa, x: u32) -> Option<int> {
    let imm = spec_sel(x, 6, 2) + spec_sel(x, 12, 12) * 32;
    match isa.xlen {
        crate::xlen::Xlen::X32 => if imm >= 32 {
            None
        } else {
            Some(imm)
        },
        crate::xlen::Xlen::X64 => Some(imm),
        crate::xlen::Xlen::X128 => Some(
            if imm == 0 {
                64int
            } else if imm >= 32 {
                imm + 64
            } else {
                imm
            },
        ),
    }
}

fn c_shamt(isa: &Isa, x: u32) -> (r: Option<i32>)
    ensures
        r == match spec_c_shamt(*isa, x) {
            Some(v) => Some(v as i32),
            None => None::<i32>,
        },
{
    proof {
        lemma2_to64();
    }
    let imm = (select_bits(x, 6, 2) + select_bits(x, 12, 12) * 32) as i32;
    match isa.xlen {
        crate::xlen::Xlen::X32 => if imm >= 32 {
            None
        } else {
            Some(imm)
        },
        crate::xlen::Xlen::X64 => Some(imm),
        crate::xlen::Xlen::X128 => Some(
            if imm == 0 {
                64
            } else if imm >= 32 {
                imm + 64
            } else {
                imm
            },
        ),
    }
}

// ---------------------------------------------------------------------------
// Quadrant C0.
// ---------------------------------------------------------------------------
/// `c.addi4spn`: a scaled stack offset added to the stack pointer; the
/// all-zero immediate marks the canonical illegal encoding.
pub open spec fn spec_dec16_addi4spn(x: u32) -> Option<Instr> {
    let rd = spec_crlow(x);
    let imm = spec_sel(x, 6, 6) * 4 + spec_sel(x, 5, 5) * 8 + spec_sel(x, 12, 11) * 16 + spec_sel(
        x,
        10,
        7,
    ) * 64;
    if imm == 0 {
        None
    } else {
        Some(Instr::COpImm(rd as u8, GP_SP, imm as i32, BinaryOp::Add))
    }
}

/// Quadrant C0: loads and stores of the compressed register block.
pub open spec fn spec_dec16_c0(isa: Isa, x: u32) -> Option<Instr> {
    let fn3 = spec_sel(x, 15, 13);
    let crl = spec_crlow(x);
    let crh = spec_crhigh(x);
    if fn3 == 0 {
        spec_dec16_addi4spn(x)
    } else if fn3 == 1 {
        // The quad-word slot at 128 bits is not modelled; otherwise `c.fld`.
        if isa.xlen.spec_bits() == 128 {
            None
        } else if isa.d {
            Some(Instr::CLoadFp(crl as u8, crh as u8, spec_ls8b_uimm(x) as i32, Precision::D))
        } else {
            None
        }
    } else if fn3 == 2 {
        Some(Instr::CLoad(crl as u8, crh as u8, spec_ls4b_uimm(x) as i32, MemWidth::W))
    } else if fn3 == 3 {
        if isa.xlen.spec_bits() >= 64 {
            Some(Instr::CLoad(crl as u8, crh as u8, spec_ls8b_uimm(x) as i32, MemWidth::D))
        } else if isa.f {
            Some(Instr::CLoadFp(crl as u8, crh as u8, spec_ls4b_uimm(x) as i32, Precision::S))
        } else {
            None
        }
    } else if fn3 == 5 {
        if isa.xlen.spec_bits() == 128 {
            None
        } else if isa.d {
            Some(Instr::CStoreFp(crh as u8, crl as u8, spec_ls8b_uimm(x) as i32, Precision::D))
        } else {
            None
        }
    } else if fn3 == 6 {
        Some(Instr::CStore(crh as u8, crl as u8, spec_ls4b_uimm(x) as i32, MemWidth::W))
    } else if fn3 == 7 {
        if isa.xlen.spec_bits() >= 64 {
            Some(Instr::CStore(crh as u8, crl as u8, spec_ls8b_uimm(x) as i32, MemWidth::D))
        } else if isa.f {
            Some(Instr::CStoreFp(crh as u8, crl as u8, spec_ls4b_uimm(x) as i32, Precision::S))
        } else {
            None
        }
    } else {
        None
    }
}

// ---------------------------------------------------------------------------
// Quadrant C1.
// ---------------------------------------------------------------------------
/// `c.addi16sp` (destination is the stack pointer) or `c.lui`; a zero
/// immediate is reserved in both forms.
pub open spec fn spec_dec16_addi16sp_lui(isa: Isa, x: u32) -> Option<Instr> {
    let rd = spec_rhigh(x);
    if rd == 2 {
        let imm = spec_sext(
            spec_sel(x, 6, 6) * 16 + spec_sel(x, 2, 2) * 32 + spec_sel(x, 5, 5) * 64 + spec_sel(
                x,
                4,
                3,
            ) * 128 + spec_sel(x, 12, 12) * 512,
            9,
        );
        if imm == 0 {
            None
        } else {
            Some(Instr::COpImm(GP_SP, GP_SP, imm as i32, BinaryOp::Add))
        }
    } else {
        let imm = spec_sext(spec_sel(x, 6, 2) * 0x1000 + spec_sel(x, 12, 12) * 0x2_0000, 17);
        if imm == 0 {
            None
        } else if !isa.spec_reg_ok(rd) {
            None
        } else {
            Some(Instr::COpImm(rd as u8, GP_ZERO, imm as i32, BinaryOp::Add))
        }
    }
}

/// The register-register arithmetic block of quadrant C1.
pub open spec fn spec_dec16_op(isa: Isa, x: u32) -> Option<Instr> {
    let rd_rs1 = spec_crhigh(x);
    let rs2 = spec_crlow(x);
    let hi = spec_sel(x, 12, 12);
    let lo = spec_sel(x, 6, 5);
    let op = if hi == 0 {
        if lo == 0 {
            Some(BinaryOp::Sub)
        } else if lo == 1 {
            Some(BinaryOp::Xor)
        } else if lo == 2 {
            Some(BinaryOp::Or)
        } else {
            Some(BinaryOp::And)
        }
    } else {
        if lo == 0 && isa.xlen.spec_bits() >= 64 {
            Some(BinaryOp::SubW)
        } else if lo == 1 && isa.xlen.spec_bits() >= 64 {
            Some(BinaryOp::AddW)
        } else {
            None
        }
    };
    match op {
        Some(op) => Some(Instr::COp(rd_rs1 as u8, rs2 as u8, op)),
        None => None,
    }
}

/// The shift/mask/arithmetic block of quadrant C1.
pub open spec fn spec_dec16_misc_alu(isa: Isa, x: u32) -> Option<Instr> {
    let rd_rs1 = spec_crhigh(x);
    let sub = spec_sel(x, 11, 10);
    if sub == 0 {
        match spec_c_shamt(isa, x) {
            Some(sh) => Some(Instr::COpImm(rd_rs1 as u8, rd_rs1 as u8, sh as i32, BinaryOp::Srl)),
            None => None,
        }
    } else if sub == 1 {
        match spec_c_shamt(isa, x) {
            Some(sh) => Some(Instr::COpImm(rd_rs1 as u8, rd_rs1 as u8, sh as i32, BinaryOp::Sra)),
            None => None,
        }
    } else if sub == 2 {
        Some(Instr::COpImm(rd_rs1 as u8, rd_rs1 as u8, spec_op_imm6(x) as i32, BinaryOp::And))
    } else {
        spec_dec16_op(isa, x)
    }
}

/// Quadrant C1: immediate arithmetic, jumps and branches.
pub open spec fn spec_dec16_c1(isa: Isa, x: u32) -> Option<Instr> {
    let fn3 = spec_sel(x, 15, 13);
    let rd_rs1 = spec_rhigh(x);
    if fn3 == 0 {
        if !isa.spec_reg_ok(rd_rs1) {
            None
        } else {
            Some(Instr::COpImm(rd_rs1 as u8, rd_rs1 as u8, spec_op_imm6(x) as i32, BinaryOp::Add))
        }
    } else if fn3 == 1 {
        // `c.addiw` at 64 bits and above; `c.jal` at 32 bits.
        if isa.xlen.spec_bits() >= 64 {
            if rd_rs1 == 0 || !isa.spec_reg_ok(rd_rs1) {
                None
            } else {
                Some(
                    Instr::COpImm(rd_rs1 as u8, rd_rs1 as u8, spec_op_imm6(x) as i32, BinaryOp::AddW),
                )
            }
        } else {
            Some(Instr::CJal(GP_RA, spec_cj_imm(x) as i32))
        }
    } else if fn3 == 2 {
        if !isa.spec_reg_ok(rd_rs1) {
            None
        } else {
            Some(Instr::COpImm(rd_rs1 as u8, GP_ZERO, spec_op_imm6(x) as i32, BinaryOp::Add))
        }
    } else if fn3 == 3 {
        spec_dec16_addi16sp_lui(isa, x)
    } else if fn3 == 4 {
        spec_dec16_misc_alu(isa, x)
    } else if fn3 == 5 {
        Some(Instr::CJal(GP_ZERO, spec_cj_imm(x) as i32))
    } else if fn3 == 6 {
        Some(Instr::CBranch(spec_crhigh(x) as u8, spec_cb_imm(x) as i32, CmpCond::Eq))
    } else {
        Some(Instr::CBranch(spec_crhigh(x) as u8, spec_cb_imm(x) as i32, CmpCond::Ne))
    }
}

// ---------------------------------------------------------------------------
// Quadrant C2.
// ---------------------------------------------------------------------------
/// The jump/move/add block of quadrant C2.
pub open spec fn spec_dec16_misc(isa: Isa, x: u32) -> Option<Instr> {
    let rs1 = spec_rhigh(x);
    let rs2 = spec_rlow(x);
    if !isa.spec_reg_ok(rs1) || !isa.spec_reg_ok(rs2) {
        None
    } else if !spec_bit12(x) {
        if rs1 == 0 && rs2 == 0 {
            None
        } else if rs2 == 0 {
            Some(Instr::CJalr(GP_ZERO, rs1 as u8))
        } else {
            Some(Instr::COpImm(rs1 as u8, rs2 as u8, 0, BinaryOp::Add))
        }
    } else {
        if rs1 == 0 && rs2 == 0 {
            Some(Instr::Trap(Exception::Ebreak))
        } else if rs2 == 0 {
            Some(Instr::CJalr(GP_RA, rs1 as u8))
        } else {
            Some(Instr::COp(rs1 as u8, rs2 as u8, BinaryOp::Add))
        }
    }
}

/// Bit 12 of the halfword.
pub open spec fn spec_bit12(x: u32) -> bool {
    spec_sel(x, 12, 12) == 1
}

/// Quadrant C2: shifts and stack-pointer-relative loads and stores.
pub open spec fn spec_dec16_c2(isa: Isa, x: u32) -> Option<Instr> {
    let fn3 = spec_sel(x, 15, 13);
    let rd = spec_rhigh(x);
    let rs2 = spec_rlow(x);
    if fn3 == 0 {
        if !isa.spec_reg_ok(rd) {
            None
        } else {
            match spec_c_shamt(isa, x) {
                Some(sh) => Some(Instr::COpImm(rd as u8, rd as u8, sh as i32, BinaryOp::Sll)),
                None => None,
            }
        }
    } else if fn3 == 1 {
        if isa.xlen.spec_bits() == 128 {
            None
        } else if isa.d {
            Some(Instr::CLoadFp(rd as u8, GP_SP, spec_lsp8b_uimm(x) as i32, Precision::D))
        } else {
            None
        }
    } else if fn3 == 2 {
        if rd == 0 || !isa.spec_reg_ok(rd) {
            None
        } else {
            Some(Instr::CLoad(rd as u8, GP_SP, spec_lsp4b_uimm(x) as i32, MemWidth::W))
        }
    } else if fn3 == 3 {
        if isa.xlen.spec_bits() >= 64 {
            if rd == 0 || !isa.spec_reg_ok(rd) {
                None
            } else {
                Some(Instr::CLoad(rd as u8, GP_SP, spec_lsp8b_uimm(x) as i32, MemWidth::D))
            }
        } else if isa.f {
            Some(Instr::CLoadFp(rd as u8, GP_SP, spec_lsp4b_uimm(x) as i32, Precision::S))
        } else {
            None
        }
    } else if fn3 == 4 {
        spec_dec16_misc(isa, x)
    } else if fn3 == 5 {
        if isa.xlen.spec_bits() == 128 {
            None
        } else if isa.d {
            Some(Instr::CStoreFp(GP_SP, rs2 as u8, spec_ssp8b_uimm(x) as i32, Precision::D))
        } else {
            None
        }
    } else if fn3 == 6 {
        if !isa.spec_reg_ok(rs2) {
            None
        } else {
            Some(Instr::CStore(GP_SP, rs2 as u8, spec_ssp4b_uimm(x) as i32, MemWidth::W))
        }
    } else {
        if isa.xlen.spec_bits() >= 64 {
            if !isa.spec_reg_ok(rs2) {
                None
            } else {
                Some(Instr::CStore(GP_SP, rs2 as u8, spec_ssp8b_uimm(x) as i32, MemWidth::D))
            }
        } else if isa.f {
            Some(Instr::CStoreFp(GP_SP, rs2 as u8, spec_ssp4b_uimm(x) as i32, Precision::S))
        } else {
            None
        }
    }
}

impl Isa {
    fn dec16_addi4spn(&self, x: u32) -> (r: Option<Instr>)
        ensures
            r == spec_dec16_addi4spn(x),
    {
        proof {
            lemma2_to64();
        }
        let rd = (select_bits(x, 4, 2) + 8) as u8;
        let imm = (select_bits(x, 6, 6) * 4 + select_bits(x, 5, 5) * 8 + select_bits(x, 12, 11)
            * 16 + select_bits(x, 10, 7) * 64) as i32;
        if imm == 0 {
            None
        } else {
            Some(Instr::COpImm(rd, GP_SP, imm, BinaryOp::Add))
        }
    }

    fn dec16_c0(&self, x: u32) -> (r: Option<Instr>)
        ensures
            r == spec_dec16_c0(*self, x),
    {
        proof {
            lemma2_to64();
        }
        let fn3 = select_bits(x, 15, 13);
        let crl = (select_bits(x, 4, 2) + 8) as u8;
        let crh = (select_bits(x, 9, 7) + 8) as u8;
        match fn3 {
            0 => self.dec16_addi4spn(x),
            1 => {
                if self.xlen.bits() == 128 {
                    None
                } else if self.d {
                    Some(Instr::CLoadFp(crl, crh, ls8b_uimm(x), Precision::D))
                } else {
                    None
                }
            },
            2 => Some(Instr::CLoad(crl, crh, ls4b_uimm(x), MemWidth::W)),
            3 => {
                if self.xlen.bits() >= 64 {
                    Some(Instr::CLoad(crl, crh, ls8b_uimm(x), MemWidth::D))
                } else if self.f {
                    Some(Instr::CLoadFp(crl, crh, ls4b_uimm(x), Precision::S))
                } else {
                    None
                }
            },
            5 => {
                if self.xlen.bits() == 128 {
                    None
                } else if self.d {
                    Some(Instr::CStoreFp(crh, crl, ls8b_uimm(x), Precision::D))
                } else {
                    None
                }
            },
            6 => Some(Instr::CStore(crh, crl, ls4b_uimm(x), MemWidth::W)),
            7 => {
                if self.xlen.bits() >= 64 {
                    Some(Instr::CStore(crh, crl, ls8b_uimm(x), MemWidth::D))
                } else if self.f {
                    Some(Instr::CStoreFp(crh, crl, ls4b_uimm(x), Precision::S))
                } else {
                    None
                }
            },
            _ => None,
        }
    }

    fn dec16_addi16sp_lui(&self, x: u32) -> (r: Option<Instr>)
        ensures
            r == spec_dec16_addi16sp_lui(*self, x),
    {
        proof {
            lemma2_to64();
        }
        let rd = select_bits(x, 11, 7) as u8;
        if rd == 2 {
            let imm = sext(
                select_bits(x, 6, 6) * 16 + select_bits(x, 2, 2) * 32 + select_bits(x, 5, 5) * 64
                    + select_bits(x, 4, 3) * 128 + select_bits(x, 12, 12) * 512,
                9,
            );
            if imm == 0 {
                None
            } else {
                Some(Instr::COpImm(GP_SP, GP_SP, imm, BinaryOp::Add))
            }
        } else {
            let imm = sext(select_bits(x, 6, 2) * 0x1000 + select_bits(x, 12, 12) * 0x2_0000, 17);
            if imm == 0 {
                None
            } else if !self.reg_ok(rd) {
                None
            } else {
                Some(Instr::COpImm(rd, GP_ZERO, imm, BinaryOp::Add))
            }
        }
    }

    fn dec16_op(&self, x: u32) -> (r: Option<Instr>)
        ensures
            r == spec_dec16_op(*self, x),
    {
        proof {
            lemma2_to64();
        }
        let rd_rs1 = (select_bits(x, 9, 7) + 8) as u8;
        let rs2 = (select_bits(x, 4, 2) + 8) as u8;
        let hi = select_bits(x, 12, 12);
        let lo = select_bits(x, 6, 5);
        let op = if hi == 0 {
            match lo {
                0 => Some(BinaryOp::Sub),
                1 => Some(BinaryOp::Xor),
                2 => Some(BinaryOp::Or),
                _ => Some(BinaryOp::And),
            }
        } else {
            if lo == 0 && self.xlen.bits() >= 64 {
                Some(BinaryOp::SubW)
            } else if lo == 1 && self.xlen.bits() >= 64 {
                Some(BinaryOp::AddW)
            } else {
                None
            }
        };
        match op {
            Some(op) => Some(Instr::COp(rd_rs1, rs2, op)),
            None => None,
        }
    }

    fn dec16_misc_alu(&self, x: u32) -> (r: Option<Instr>)
        ensures
            r == spec_dec16_misc_alu(*self, x),
    {
        proof {
            lemma2_to64();
        }
        let rd_rs1 = (select_bits(x, 9, 7) + 8) as u8;
        let sub = select_bits(x, 11, 10);
        match sub {
            0 => match c_shamt(self, x) {
                Some(sh) => Some(Instr::COpImm(rd_rs1, rd_rs1, sh, BinaryOp::Srl)),
                None => None,
            },
            1 => match c_shamt(self, x) {
                Some(sh) => Some(Instr::COpImm(rd_rs1, rd_rs1, sh, BinaryOp::Sra)),
                None => None,
            },
            2 => Some(Instr::COpImm(rd_rs1, rd_rs1, op_imm6(x), BinaryOp::And)),
            _ => self.dec16_op(x),
        }
    }

    fn dec16_c1(&self, x: u32) -> (r: Option<Instr>)
        ensures
            r == spec_dec16_c1(*self, x),
    {
        proof {
            lemma2_to64();
        }
        let fn3 = select_bits(x, 15, 13);
        let rd_rs1 = select_bits(x, 11, 7) as u8;
        match fn3 {
            0 => {
                if !self.reg_ok(rd_rs1) {
                    None
                } else {
                    Some(Instr::COpImm(rd_rs1, rd_rs1, op_imm6(x), BinaryOp::Add))
                }
            },
            1 => {
                if self.xlen.bits() >= 64 {
                    if rd_rs1 == 0 || !self.reg_ok(rd_rs1) {
                        None
                    } else {
                        Some(Instr::COpImm(rd_rs1, rd_rs1, op_imm6(x), BinaryOp::AddW))
                    }
                } else {
                    Some(Instr::CJal(GP_RA, cj_imm(x)))
                }
            },
            2 => {
                if !self.reg_ok(rd_rs1) {
                    None
                } else {
                    Some(Instr::COpImm(rd_rs1, GP_ZERO, op_imm6(x), BinaryOp::Add))
                }
            },
            3 => self.dec16_addi16sp_lui(x),
            4 => self.dec16_misc_alu(x),
            5 => Some(Instr::CJal(GP_ZERO, cj_imm(x))),
            6 => Some(Instr::CBranch((select_bits(x, 9, 7) + 8) as u8, cb_imm(x), CmpCond::Eq)),
            _ => Some(Instr::CBranch((select_bits(x, 9, 7) + 8) as u8, cb_imm(x), CmpCond::Ne)),
        }
    }

    fn dec16_misc(&self, x: u32) -> (r: Option<Instr>)
        ensures
            r == spec_dec16_misc(*self, x),
    {
        proof {
            lemma2_to64();
        }
        let rs1 = select_bits(x, 11, 7) as u8;
        let rs2 = select_bits(x, 6, 2) as u8;
        if !self.reg_ok(rs1) || !self.reg_ok(rs2) {
            None
        } else if !test_bit12(x) {
            if rs1 == 0 && rs2 == 0 {
                None
            } else if rs2 == 0 {
                Some(Instr::CJalr(GP_ZERO, rs1))
            } else {
                Some(Instr::COpImm(rs1, rs2, 0, BinaryOp::Add))
            }
        } else {
            if rs1 == 0 && rs2 == 0 {
                Some(Instr::Trap(Exception::Ebreak))
            } else if rs2 == 0 {
                Some(Instr::CJalr(GP_RA, rs1))
            } else {
                Some(Instr::COp(rs1, rs2, BinaryOp::Add))
            }
        }
    }

    fn dec16_c2(&self, x: u32) -> (r: Option<Instr>)
        ensures
            r == spec_dec16_c2(*self, x),
    {
        proof {
            lemma2_to64();
        }
        let fn3 = select_bits(x, 15, 13);
        let rd = select_bits(x, 11, 7) as u8;
        let rs2 = select_bits(x, 6, 2) as u8;
        match fn3 {
            0 => {
                if !self.reg_ok(rd) {
                    None
                } else {
                    match c_shamt(self, x) {
                        Some(sh) => Some(Instr::COpImm(rd, rd, sh, BinaryOp::Sll)),
                        None => None,
                    }
                }
            },
            1 => {
                if self.xlen.bits() == 128 {
                    None
                } else if self.d {
                    Some(Instr::CLoadFp(rd, GP_SP, lsp8b_uimm(x), Precision::D))
                } else {
                    None
                }
            },
            2 => {
                if rd == 0 || !self.reg_ok(rd) {
                    None
                } else {
                    Some(Instr::CLoad(rd, GP_SP, lsp4b_uimm(x), MemWidth::W))
                }
            },
            3 => {
                if self.xlen.bits() >= 64 {
                    if rd == 0 || !self.reg_ok(rd) {
                        None
                    } else {
                        Some(Instr::CLoad(rd, GP_SP, lsp8b_uimm(x), MemWidth::D))
                    }
                } else if self.f {
                    Some(Instr::CLoadFp(rd, GP_SP, lsp4b_uimm(x), Precision::S))
                } else {
                    None
                }
            },
            4 => self.dec16_misc(x),
            5 => {
                if self.xlen.bits() == 128 {
                    None
                } else if self.d {
                    Some(Instr::CStoreFp(GP_SP, rs2, ssp8b_uimm(x), Precision::D))
                } else {
                    None
                }
            },
            6 => {
                if !self.reg_ok(rs2) {
                    None
                } else {
                    Some(Instr::CStore(GP_SP, rs2, ssp4b_uimm(x), MemWidth::W))
                }
            },
            _ => {
                if self.xlen.bits() >= 64 {
                    if !self.reg_ok(rs2) {
                        None
                    } else {
                        Some(Instr::CStore(GP_SP, rs2, ssp8b_uimm(x), MemWidth::D))
                    }
                } else if self.f {
                    Some(Instr::CStoreFp(GP_SP, rs2, ssp4b_uimm(x), Precision::S))
                } else {
                    None
                }
            },
        }
    }

    /// Decodes a compressed halfword under this configuration.  Every
    /// reserved or width-inapplicable encoding yields `Trap(IllegalInstr)`.
    pub fn dec16(&self, ins: u16) -> (r: Instr)
        ensures
            r == spec_dec16(*self, ins),
    {
        proof {
            lemma2_to64();
        }
        let x = ins as u32;
        let quad = select_bits(x, 1, 0);
        let dec = match quad {
            0 => self.dec16_c0(x),
            1 => self.dec16_c1(x),
            2 => self.dec16_c2(x),
            _ => None,
        };
        match dec {
            Some(i) => i,
            None => Instr::Trap(Exception::IllegalInstr),
        }
    }
}

fn test_bit12(x: u32) -> (r: bool)
    ensures
        r == spec_bit12(x),
{
    select_bits(x, 12, 12) == 1
}

/// What a compressed halfword decodes to: its quadrant's table entry, or the
/// illegal-instruction trap.
pub open spec fn spec_dec16(isa: Isa, ins: u16) -> Instr {
    let x = ins as u32;
    let quad = spec_sel(x, 1, 0);
    let dec = if quad == 0 {
        spec_dec16_c0(isa, x)
    } else if quad == 1 {
        spec_dec16_c1(isa, x)
    } else if quad == 2 {
        spec_dec16_c2(isa, x)
    } else {
        None
    };
    match dec {
        Some(i) => i,
        None => Instr::Trap(Exception::IllegalInstr),
    }
}

} // verus!
