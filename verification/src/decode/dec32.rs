//! The 32-bit instruction decoder.
//!
//! Bits `[6:2]` (after the `11` low bits that mark a full-width encoding)
//! select the major opcode group; each group's decode table is stated as a
//! spec function and mirrored by the executable decoder.  Every reserved or
//! disallowed encoding decodes to `Trap(IllegalInstr)`.

use crate::decode::common::{spec_sel, spec_sext, select_bits, sext, Isa};
use crate::uop::{
    FenceMode,
    BinaryOp, CmpCond, CsrOp, Exception, FpBinaryOp, FpCmpCond, FpGpOp, FpTernaryOp, FpUnaryOp,
    GpFpOp, Instr, MemOrder, MemWidth, MiscMemOp, Precision, RoundMode,
};
use crate::xlen::Xlen;
use vstd::arithmetic::power2::*;
use vstd::prelude::*;

verus! {

// ---------------------------------------------------------------------------
// Immediate forms.
// ---------------------------------------------------------------------------
/// The I-type immediate: bits `[31:20]`, sign-extended from bit 11.
pub open spec fn spec_i_imm(ins: u32) -> int {
    spec_sext(spec_sel(ins, 31, 20), 11)
}

fn i_imm(ins: u32) -> (r: i32)
    ensures
        r == spec_i_imm(ins),
        -0x800 <= r < 0x800,
{
    proof {
        lemma2_to64();
    }
    sext(select_bits(ins, 31, 20), 11)
}

/// The S-type immediate: bits `[11:7]` and `[31:25]`, sign-extended.
pub open spec fn spec_s_imm(ins: u32) -> int {
    spec_sext(spec_sel(ins, 11, 7) + spec_sel(ins, 31, 25) * 32, 11)
}

fn s_imm(ins: u32) -> (r: i32)
    ensures
        r == spec_s_imm(ins),
{
    proof {
        lemma2_to64();
    }
    sext(select_bits(ins, 11, 7) + select_bits(ins, 31, 25) * 32, 11)
}

/// The B-type immediate: a branch offset in multiples of two, sign-extended
/// from bit 12.
pub open spec fn spec_b_imm(ins: u32) -> int {
    spec_sext(
        spec_sel(ins, 11, 8) * 2 + spec_sel(ins, 30, 25) * 32 + spec_sel(ins, 7, 7) * 0x800
            + spec_sel(ins, 31, 31) * 0x1000,
        12,
    )
}

fn b_imm(ins: u32) -> (r: i32)
    ensures
        r == spec_b_imm(ins),
{
    proof {
        lemma2_to64();
    }
    sext(
        select_bits(ins, 11, 8) * 2 + select_bits(ins, 30, 25) * 32 + select_bits(ins, 7, 7)
            * 0x800 + select_bits(ins, 31, 31) * 0x1000,
        12,
    )
}

/// The U-type immediate: bits `[31:12]` shifted left by 12, read as a signed
/// 32-bit value.
pub open spec fn spec_u_imm(ins: u32) -> int {
    crate::xlen::s32(spec_sel(ins, 31, 12) * 0x1000)
}

fn u_imm(ins: u32) -> (r: i32)
    ensures
        r == spec_u_imm(ins),
{
    proof {
        lemma2_to64();
    }
    let v = select_bits(ins, 31, 12) * 0x1000;
    if v >= 0x8000_0000 {
        (v as i64 - 0x1_0000_0000i64) as i32
    } else {
        v as i32
    }
}

/// The J-type immediate: a jump offset in multiples of two, sign-extended
/// from bit 20.
pub open spec fn spec_j_imm(ins: u32) -> int {
    spec_sext(
        spec_sel(ins, 30, 21) * 2 + spec_sel(ins, 20, 20) * 0x800 + spec_sel(ins, 19, 12) * 0x1000
            + spec_sel(ins, 31, 31) * 0x10_0000,
        20,
    )
}

fn j_imm(ins: u32) -> (r: i32)
    ensures
        r == spec_j_imm(ins),
{
    proof {
        lemma2_to64();
    }
    sext(
        select_bits(ins, 30, 21) * 2 + select_bits(ins, 20, 20) * 0x800 + select_bits(ins, 19, 12)
            * 0x1000 + select_bits(ins, 31, 31) * 0x10_0000,
        20,
    )
}

// ---------------------------------------------------------------------------
// Shift-amount legality.
// ---------------------------------------------------------------------------
/// A left-shift immediate is legal when it lies below the operation width.
pub open spec fn spec_sl_imm(imm: int, width: int) -> Option<BinaryOp> {
    if 0 <= imm < width {
        Some(BinaryOp::Sll)
    } else {
        None
    }
}

/// A right-shift immediate carries the arithmetic-shift marker in bit 10;
/// the remaining bits must lie below the operation width.  The returned
/// immediate has the marker stripped.
pub open spec fn spec_sr_imm(imm: int, width: int) -> Option<(BinaryOp, int)> {
    if imm < 0 {
        None
    } else {
        let shamt = imm % 0x400;
        let marker = imm / 0x400;
        if marker != 0 && marker != 1 {
            None
        } else if shamt >= width {
            None
        } else if marker == 1 {
            Some((BinaryOp::Sra, shamt))
        } else {
            Some((BinaryOp::Srl, shamt))
        }
    }
}

fn sr_imm(imm: i32, width: u32) -> (r: Option<(BinaryOp, i32)>)
    requires
        -0x800 <= imm < 0x800,
        32 <= width <= 128,
    ensures
        r == match spec_sr_imm(imm as int, width as int) {
            Some((op, sh)) => Some((op, sh as i32)),
            None => None::<(BinaryOp, i32)>,
        },
{
    if imm < 0 {
        return None;
    }
    let shamt = imm % 0x400;
    let marker = imm / 0x400;
    if shamt >= width as i32 {
        None
    } else if marker == 1 {
        Some((BinaryOp::Sra, shamt))
    } else {
        Some((BinaryOp::Srl, shamt))
    }
}

// ---------------------------------------------------------------------------
// Rounding-mode field.
// ---------------------------------------------------------------------------
/// The rounding-mode field `funct3`: five explicit modes, the dynamic mode,
/// and two reserved encodings.
pub open spec fn spec_round_mode(fn3: int) -> Option<RoundMode> {
    if fn3 == 0 {
        Some(RoundMode::Rne)
    } else if fn3 == 1 {
        Some(RoundMode::Rtz)
    } else if fn3 == 2 {
        Some(RoundMode::Rdn)
    } else if fn3 == 3 {
        Some(RoundMode::Rup)
    } else if fn3 == 4 {
        Some(RoundMode::Rmm)
    } else if fn3 == 7 {
        Some(RoundMode::Dyn)
    } else {
        None
    }
}

fn round_mode(fn3: u32) -> (r: Option<RoundMode>)
    ensures
        r == spec_round_mode(fn3 as int),
{
    match fn3 {
        0 => Some(RoundMode::Rne),
        1 => Some(RoundMode::Rtz),
        2 => Some(RoundMode::Rdn),
        3 => Some(RoundMode::Rup),
        4 => Some(RoundMode::Rmm),
        7 => Some(RoundMode::Dyn),
        _ => None,
    }
}

// ---------------------------------------------------------------------------
// Decode tables, one spec function and one executable decoder per group.
// ---------------------------------------------------------------------------
/// LOAD: `funct3` selects the width; `D` and `WU` demand XLEN of 64 or more.
pub open spec fn spec_dec32_load(isa: Isa, ins: u32) -> Option<Instr> {
    let rd = spec_sel(ins, 11, 7);
    let rs1 = spec_sel(ins, 19, 15);
    let fn3 = spec_sel(ins, 14, 12);
    let imm = spec_i_imm(ins);
    if !isa.spec_reg_ok(rd) || !isa.spec_reg_ok(rs1) {
        None
    } else {
        let wd = if fn3 == 0 {
            Some(MemWidth::B)
        } else if fn3 == 1 {
            Some(MemWidth::H)
        } else if fn3 == 2 {
            Some(MemWidth::W)
        } else if fn3 == 3 && isa.xlen.spec_bits() >= 64 {
            Some(MemWidth::D)
        } else if fn3 == 4 {
            Some(MemWidth::BU)
        } else if fn3 == 5 {
            Some(MemWidth::HU)
        } else if fn3 == 6 && isa.xlen.spec_bits() >= 64 {
            Some(MemWidth::WU)
        } else {
            None
        };
        match wd {
            Some(width) => Some(Instr::Load(rd as u8, rs1 as u8, imm as i32, width)),
            None => None,
        }
    }
}

/// STORE: widths `B`/`H`/`W`, and `D` on XLEN of 64 or more; no unsigned
/// store widths exist.
pub open spec fn spec_dec32_store(isa: Isa, ins: u32) -> Option<Instr> {
    let rs1 = spec_sel(ins, 19, 15);
    let rs2 = spec_sel(ins, 24, 20);
    let fn3 = spec_sel(ins, 14, 12);
    let imm = spec_s_imm(ins);
    if !isa.spec_reg_ok(rs1) || !isa.spec_reg_ok(rs2) {
        None
    } else {
        let wd = if fn3 == 0 {
            Some(MemWidth::B)
        } else if fn3 == 1 {
            Some(MemWidth::H)
        } else if fn3 == 2 {
            Some(MemWidth::W)
        } else if fn3 == 3 && isa.xlen.spec_bits() >= 64 {
            Some(MemWidth::D)
        } else {
            None
        };
        match wd {
            Some(width) => Some(Instr::Store(rs1 as u8, rs2 as u8, imm as i32, width)),
            None => None,
        }
    }
}

/// MISC-MEM: `funct3` 0 is a fence whose `fm` nibble selects TSO only in the
/// exact `1000`/`RW`/`RW` pattern (all other reserved patterns fall back to a
/// normal fence); `funct3` 1 is `fence.i`, gated on Zifencei.
pub open spec fn spec_dec32_misc_mem(isa: Isa, ins: u32) -> Option<Instr> {
    let fn3 = spec_sel(ins, 14, 12);
    if fn3 == 0 {
        let pred = spec_sel(ins, 27, 24);
        let succ = spec_sel(ins, 23, 20);
        let fm = spec_sel(ins, 31, 28);
        let mode = if fm == 8 && pred == 3 && succ == 3 {
            FenceMode::Tso
        } else {
            FenceMode::Normal
        };
        Some(Instr::MiscMem(MiscMemOp::Fence(pred as u8, succ as u8, mode)))
    } else if fn3 == 1 && isa.zifencei {
        Some(Instr::MiscMem(MiscMemOp::FenceI))
    } else {
        None
    }
}

/// OP-IMM: `funct3` selects the operation; the shift forms validate their
/// shift amount against XLEN.
pub open spec fn spec_dec32_op_imm(isa: Isa, ins: u32) -> Option<Instr> {
    let rd = spec_sel(ins, 11, 7);
    let rs1 = spec_sel(ins, 19, 15);
    let fn3 = spec_sel(ins, 14, 12);
    let imm = spec_i_imm(ins);
    if !isa.spec_reg_ok(rd) || !isa.spec_reg_ok(rs1) {
        None
    } else if fn3 == 0 {
        Some(Instr::OpImm(rd as u8, rs1 as u8, imm as i32, BinaryOp::Add))
    } else if fn3 == 1 {
        match spec_sl_imm(imm, isa.xlen.spec_bits() as int) {
            Some(op) => Some(Instr::OpImm(rd as u8, rs1 as u8, imm as i32, op)),
            None => None,
        }
    } else if fn3 == 2 {
        Some(Instr::OpImm(rd as u8, rs1 as u8, imm as i32, BinaryOp::Slt))
    } else if fn3 == 3 {
        Some(Instr::OpImm(rd as u8, rs1 as u8, imm as i32, BinaryOp::SltU))
    } else if fn3 == 4 {
        Some(Instr::OpImm(rd as u8, rs1 as u8, imm as i32, BinaryOp::Xor))
    } else if fn3 == 5 {
        match spec_sr_imm(imm, isa.xlen.spec_bits() as int) {
            Some((op, sh)) => Some(Instr::OpImm(rd as u8, rs1 as u8, sh as i32, op)),
            None => None,
        }
    } else if fn3 == 6 {
        Some(Instr::OpImm(rd as u8, rs1 as u8, imm as i32, BinaryOp::Or))
    } else {
        Some(Instr::OpImm(rd as u8, rs1 as u8, imm as i32, BinaryOp::And))
    }
}

/// OP-IMM-32: word operations on XLEN of 64 or more; the shift amounts are
/// 5-bit and validated against 32.
pub open spec fn spec_dec32_op_imm_32(isa: Isa, ins: u32) -> Option<Instr> {
    let rd = spec_sel(ins, 11, 7);
    let rs1 = spec_sel(ins, 19, 15);
    let fn3 = spec_sel(ins, 14, 12);
    let imm = spec_i_imm(ins);
    if isa.xlen.spec_bits() < 64 {
        None
    } else if !isa.spec_reg_ok(rd) || !isa.spec_reg_ok(rs1) {
        None
    } else if fn3 == 0 {
        Some(Instr::OpImm(rd as u8, rs1 as u8, imm as i32, BinaryOp::AddW))
    } else if fn3 == 1 {
        match spec_sl_imm(imm, 32) {
            Some(_) => Some(Instr::OpImm(rd as u8, rs1 as u8, imm as i32, BinaryOp::SllW)),
            None => None,
        }
    } else if fn3 == 5 {
        match spec_sr_imm(imm, 32) {
            Some((op, sh)) => {
                let wop = if op == BinaryOp::Srl {
                    BinaryOp::SrlW
                } else {
                    BinaryOp::SraW
                };
                Some(Instr::OpImm(rd as u8, rs1 as u8, sh as i32, wop))
            },
            None => None,
        }
    } else {
        None
    }
}

/// AUIPC.
pub open spec fn spec_dec32_auipc(isa: Isa, ins: u32) -> Option<Instr> {
    let rd = spec_sel(ins, 11, 7);
    if !isa.spec_reg_ok(rd) {
        None
    } else {
        Some(Instr::Auipc(rd as u8, spec_u_imm(ins) as i32))
    }
}

/// LUI decodes to an `OpImm` that adds its immediate to the zero register.
pub open spec fn spec_dec32_lui(isa: Isa, ins: u32) -> Option<Instr> {
    let rd = spec_sel(ins, 11, 7);
    if !isa.spec_reg_ok(rd) {
        None
    } else {
        Some(Instr::OpImm(rd as u8, 0, spec_u_imm(ins) as i32, BinaryOp::Add))
    }
}

/// OP: `funct7` selects base arithmetic, the sub/sra subgroup, or the M
/// extension's multiply/divide block.
pub open spec fn spec_dec32_op(isa: Isa, ins: u32) -> Option<Instr> {
    let rd = spec_sel(ins, 11, 7);
    let rs1 = spec_sel(ins, 19, 15);
    let rs2 = spec_sel(ins, 24, 20);
    let fn3 = spec_sel(ins, 14, 12);
    let fn7 = spec_sel(ins, 31, 25);
    if !isa.spec_reg_ok(rd) || !isa.spec_reg_ok(rs1) || !isa.spec_reg_ok(rs2) {
        None
    } else {
        let op = if fn7 == 0 {
            if fn3 == 0 {
                Some(BinaryOp::Add)
            } else if fn3 == 1 {
                Some(BinaryOp::Sll)
            } else if fn3 == 2 {
                Some(BinaryOp::Slt)
            } else if fn3 == 3 {
                Some(BinaryOp::SltU)
            } else if fn3 == 4 {
                Some(BinaryOp::Xor)
            } else if fn3 == 5 {
                Some(BinaryOp::Srl)
            } else if fn3 == 6 {
                Some(BinaryOp::Or)
            } else {
                Some(BinaryOp::And)
            }
        } else if fn7 == 0x20 {
            if fn3 == 0 {
                Some(BinaryOp::Sub)
            } else if fn3 == 5 {
                Some(BinaryOp::Sra)
            } else {
                None
            }
        } else if fn7 == 1 && isa.m {
            if fn3 == 0 {
                Some(BinaryOp::Mul)
            } else if fn3 == 1 {
                Some(BinaryOp::Mulh)
            } else if fn3 == 2 {
                Some(BinaryOp::MulhSU)
            } else if fn3 == 3 {
                Some(BinaryOp::MulhU)
            } else if fn3 == 4 {
                Some(BinaryOp::Div)
            } else if fn3 == 5 {
                Some(BinaryOp::DivU)
            } else if fn3 == 6 {
                Some(BinaryOp::Rem)
            } else {
                Some(BinaryOp::RemU)
            }
        } else {
            None
        };
        match op {
            Some(op) => Some(Instr::Op(rd as u8, rs1 as u8, rs2 as u8, op)),
            None => None,
        }
    }
}

/// OP-32: word operations on XLEN of 64 or more.
pub open spec fn spec_dec32_op_32(isa: Isa, ins: u32) -> Option<Instr> {
    let rd = spec_sel(ins, 11, 7);
    let rs1 = spec_sel(ins, 19, 15);
    let rs2 = spec_sel(ins, 24, 20);
    let fn3 = spec_sel(ins, 14, 12);
    let fn7 = spec_sel(ins, 31, 25);
    if isa.xlen.spec_bits() < 64 {
        None
    } else if !isa.spec_reg_ok(rd) || !isa.spec_reg_ok(rs1) || !isa.spec_reg_ok(rs2) {
        None
    } else {
        let op = if fn7 == 0 {
            if fn3 == 0 {
                Some(BinaryOp::AddW)
            } else if fn3 == 1 {
                Some(BinaryOp::SllW)
            } else if fn3 == 5 {
                Some(BinaryOp::SrlW)
            } else {
                None
            }
        } else if fn7 == 0x20 {
            if fn3 == 0 {
                Some(BinaryOp::SubW)
            } else if fn3 == 5 {
                Some(BinaryOp::SraW)
            } else {
                None
            }
        } else if fn7 == 1 && isa.m {
            if fn3 == 0 {
                Some(BinaryOp::MulW)
            } else if fn3 == 4 {
                Some(BinaryOp::DivW)
            } else if fn3 == 5 {
                Some(BinaryOp::DivUW)
            } else if fn3 == 6 {
                Some(BinaryOp::RemW)
            } else if fn3 == 7 {
                Some(BinaryOp::RemUW)
            } else {
                None
            }
        } else {
            None
        };
        match op {
            Some(op) => Some(Instr::Op(rd as u8, rs1 as u8, rs2 as u8, op)),
            None => None,
        }
    }
}

/// AMO: gated on A; `funct3` selects the width, bits `[26:25]` the ordering,
/// and bits `[31:27]` the operation.  LR demands a zero `rs2` field.
pub open spec fn spec_dec32_amo(isa: Isa, ins: u32) -> Option<Instr> {
    let rd = spec_sel(ins, 11, 7);
    let rs1 = spec_sel(ins, 19, 15);
    let rs2 = spec_sel(ins, 24, 20);
    let fn3 = spec_sel(ins, 14, 12);
    let ord = spec_sel(ins, 26, 25);
    let fn5 = spec_sel(ins, 31, 27);
    if !isa.a {
        None
    } else if !isa.spec_reg_ok(rd) || !isa.spec_reg_ok(rs1) || !isa.spec_reg_ok(rs2) {
        None
    } else {
        let wd = if fn3 == 2 {
            Some(MemWidth::W)
        } else if fn3 == 3 && isa.xlen.spec_bits() >= 64 {
            Some(MemWidth::D)
        } else {
            None
        };
        let order = if ord == 0 {
            MemOrder::Relaxed
        } else if ord == 1 {
            MemOrder::Release
        } else if ord == 2 {
            MemOrder::Acquire
        } else {
            MemOrder::AcqRel
        };
        match wd {
            Some(width) => {
                if fn5 == 2 {
                    if rs2 != 0 {
                        None
                    } else {
                        Some(Instr::LoadReserved(rd as u8, rs1 as u8, order, width))
                    }
                } else if fn5 == 3 {
                    Some(Instr::StoreConditional(rd as u8, rs1 as u8, rs2 as u8, order, width))
                } else {
                    let op = if fn5 == 0 {
                        Some(BinaryOp::Add)
                    } else if fn5 == 1 {
                        Some(BinaryOp::Second)
                    } else if fn5 == 4 {
                        Some(BinaryOp::Xor)
                    } else if fn5 == 8 {
                        Some(BinaryOp::Or)
                    } else if fn5 == 12 {
                        Some(BinaryOp::And)
                    } else if fn5 == 16 {
                        Some(BinaryOp::Min)
                    } else if fn5 == 20 {
                        Some(BinaryOp::Max)
                    } else if fn5 == 24 {
                        Some(BinaryOp::MinU)
                    } else if fn5 == 28 {
                        Some(BinaryOp::MaxU)
                    } else {
                        None
                    };
                    match op {
                        Some(op) => Some(
                            Instr::Amo(rd as u8, rs1 as u8, rs2 as u8, order, width, op),
                        ),
                        None => None,
                    }
                }
            },
            None => None,
        }
    }
}

/// BRANCH: `funct3` selects the comparison; slots 2 and 3 are reserved.
pub open spec fn spec_dec32_branch(isa: Isa, ins: u32) -> Option<Instr> {
    let rs1 = spec_sel(ins, 19, 15);
    let rs2 = spec_sel(ins, 24, 20);
    let fn3 = spec_sel(ins, 14, 12);
    let imm = spec_b_imm(ins);
    if !isa.spec_reg_ok(rs1) || !isa.spec_reg_ok(rs2) {
        None
    } else {
        let cond = if fn3 == 0 {
            Some(CmpCond::Eq)
        } else if fn3 == 1 {
            Some(CmpCond::Ne)
        } else if fn3 == 4 {
            Some(CmpCond::Lt)
        } else if fn3 == 5 {
            Some(CmpCond::Ge)
        } else if fn3 == 6 {
            Some(CmpCond::LtU)
        } else if fn3 == 7 {
            Some(CmpCond::GeU)
        } else {
            None
        };
        match cond {
            Some(cond) => Some(Instr::Branch(rs1 as u8, rs2 as u8, imm as i32, cond)),
            None => None,
        }
    }
}

/// JALR: `funct3` must be zero.
pub open spec fn spec_dec32_jalr(isa: Isa, ins: u32) -> Option<Instr> {
    let rd = spec_sel(ins, 11, 7);
    let rs1 = spec_sel(ins, 19, 15);
    let fn3 = spec_sel(ins, 14, 12);
    if !isa.spec_reg_ok(rd) || !isa.spec_reg_ok(rs1) || fn3 != 0 {
        None
    } else {
        Some(Instr::Jalr(rd as u8, rs1 as u8, spec_i_imm(ins) as i32))
    }
}

/// JAL.
pub open spec fn spec_dec32_jal(isa: Isa, ins: u32) -> Option<Instr> {
    let rd = spec_sel(ins, 11, 7);
    if !isa.spec_reg_ok(rd) {
        None
    } else {
        Some(Instr::Jal(rd as u8, spec_j_imm(ins) as i32))
    }
}

/// SYSTEM with `funct3` nonzero: a CSR access, gated on Zicsr.  The
/// register-source forms validate `rs1`; the immediate forms treat the field
/// as a 5-bit literal.
pub open spec fn spec_dec32_csr(isa: Isa, ins: u32) -> Option<Instr> {
    let rd = spec_sel(ins, 11, 7);
    let rs1 = spec_sel(ins, 19, 15);
    let fn3 = spec_sel(ins, 14, 12);
    let addr = spec_sel(ins, 31, 20);
    let op = if fn3 == 1 {
        Some(CsrOp::Rw)
    } else if fn3 == 2 {
        Some(CsrOp::Rs)
    } else if fn3 == 3 {
        Some(CsrOp::Rc)
    } else if fn3 == 5 {
        Some(CsrOp::Rwi)
    } else if fn3 == 6 {
        Some(CsrOp::Rsi)
    } else if fn3 == 7 {
        Some(CsrOp::Rci)
    } else {
        None
    };
    match op {
        Some(op) => {
            if fn3 < 4 && !isa.spec_reg_ok(rs1) {
                None
            } else if !isa.spec_reg_ok(rd) {
                None
            } else {
                Some(Instr::Csr(rd as u8, rs1 as u8, addr as u16, op))
            }
        },
        None => None,
    }
}

/// SYSTEM with `funct3` zero: only the exact ECALL and EBREAK patterns are
/// legal.
pub open spec fn spec_dec32_system(isa: Isa, ins: u32) -> Option<Instr> {
    let fn3 = spec_sel(ins, 14, 12);
    if fn3 == 0 {
        let upper = spec_sel(ins, 31, 7);
        if upper == 0 {
            Some(Instr::Trap(Exception::Ecall))
        } else if upper == 0x2000 {
            Some(Instr::Trap(Exception::Ebreak))
        } else {
            None
        }
    } else if isa.zicsr {
        spec_dec32_csr(isa, ins)
    } else {
        None
    }
}

/// The two-bit precision field of an OP-FP encoding: `S`, or `D` when the D
/// extension is enabled.
pub open spec fn spec_fp_pr(isa: Isa, fmt: int) -> Option<Precision> {
    if fmt == 0 {
        Some(Precision::S)
    } else if fmt == 1 && isa.d {
        Some(Precision::D)
    } else {
        None
    }
}

/// The three-bit width field of a floating-point load or store.
pub open spec fn spec_ls_pr(isa: Isa, fmt: int) -> Option<Precision> {
    if fmt == 2 {
        Some(Precision::S)
    } else if fmt == 3 && isa.d {
        Some(Precision::D)
    } else {
        None
    }
}

/// LOAD-FP: gated on F; `rs1` is a general-purpose register.
pub open spec fn spec_dec32_load_fp(isa: Isa, ins: u32) -> Option<Instr> {
    let rd = spec_sel(ins, 11, 7);
    let rs1 = spec_sel(ins, 19, 15);
    let fn3 = spec_sel(ins, 14, 12);
    if !isa.f || !isa.spec_reg_ok(rs1) {
        None
    } else {
        match spec_ls_pr(isa, fn3) {
            Some(pr) => Some(Instr::LoadFp(rd as u8, rs1 as u8, spec_i_imm(ins) as i32, pr)),
            None => None,
        }
    }
}

/// STORE-FP: gated on F; `rs1` is a general-purpose register.
pub open spec fn spec_dec32_store_fp(isa: Isa, ins: u32) -> Option<Instr> {
    let rs1 = spec_sel(ins, 19, 15);
    let rs2 = spec_sel(ins, 24, 20);
    let fn3 = spec_sel(ins, 14, 12);
    if !isa.f || !isa.spec_reg_ok(rs1) {
        None
    } else {
        match spec_ls_pr(isa, fn3) {
            Some(pr) => Some(Instr::StoreFp(rs1 as u8, rs2 as u8, spec_s_imm(ins) as i32, pr)),
            None => None,
        }
    }
}

/// The fused multiply-add family (R4-type): gated on F; all four source and
/// destination registers are floating-point.
pub open spec fn spec_dec32_fp_op3(isa: Isa, ins: u32, op: FpTernaryOp) -> Option<Instr> {
    let rd = spec_sel(ins, 11, 7);
    let rs1 = spec_sel(ins, 19, 15);
    let rs2 = spec_sel(ins, 24, 20);
    let fn3 = spec_sel(ins, 14, 12);
    let fn2 = spec_sel(ins, 26, 25);
    let rs3 = spec_sel(ins, 31, 27);
    if !isa.f {
        None
    } else {
        match (spec_round_mode(fn3), spec_fp_pr(isa, fn2)) {
            (Some(rm), Some(pr)) => Some(
                Instr::FpOp3(rd as u8, rs1 as u8, rs2 as u8, rs3 as u8, rm, pr, op),
            ),
            _ => None,
        }
    }
}

/// OP-FP: bits `[31:27]` select the family inside the floating-point opcode
/// group.
pub open spec fn spec_dec32_op_fp(isa: Isa, ins: u32) -> Option<Instr> {
    let rd = spec_sel(ins, 11, 7);
    let rs1 = spec_sel(ins, 19, 15);
    let rs2 = spec_sel(ins, 24, 20);
    let fn3 = spec_sel(ins, 14, 12);
    let fn2 = spec_sel(ins, 26, 25);
    let fn5 = spec_sel(ins, 31, 27);
    if !isa.f {
        None
    } else {
        match spec_fp_pr(isa, fn2) {
            Some(pr) => {
                if fn5 == 0 || fn5 == 1 || fn5 == 2 || fn5 == 3 {
                    let op = if fn5 == 0 {
                        FpBinaryOp::Add
                    } else if fn5 == 1 {
                        FpBinaryOp::Sub
                    } else if fn5 == 2 {
                        FpBinaryOp::Mul
                    } else {
                        FpBinaryOp::Div
                    };
                    match spec_round_mode(fn3) {
                        Some(rm) => Some(Instr::FpOp2(rd as u8, rs1 as u8, rs2 as u8, rm, pr, op)),
                        None => None,
                    }
                } else if fn5 == 4 {
                    // Sign injection carries no rounding mode.
                    let op = if fn3 == 0 {
                        Some(FpBinaryOp::SgnJ)
                    } else if fn3 == 1 {
                        Some(FpBinaryOp::SgnJN)
                    } else if fn3 == 2 {
                        Some(FpBinaryOp::SgnJX)
                    } else {
                        None
                    };
                    match op {
                        Some(op) => Some(
                            Instr::FpOp2(rd as u8, rs1 as u8, rs2 as u8, RoundMode::NoRm, pr, op),
                        ),
                        None => None,
                    }
                } else if fn5 == 5 {
                    let op = if fn3 == 0 {
                        Some(FpBinaryOp::Min)
                    } else if fn3 == 1 {
                        Some(FpBinaryOp::Max)
                    } else {
                        None
                    };
                    match op {
                        Some(op) => Some(
                            Instr::FpOp2(rd as u8, rs1 as u8, rs2 as u8, RoundMode::NoRm, pr, op),
                        ),
                        None => None,
                    }
                } else if fn5 == 8 {
                    // Conversion between the two precisions, gated on D; the
                    // same-precision encodings are reserved.
                    if !isa.d {
                        None
                    } else {
                        match (spec_round_mode(fn3), spec_fp_pr(isa, rs2)) {
                            (Some(rm), Some(from_pr)) => if from_pr == pr {
                                None
                            } else {
                                Some(Instr::FpCvtFp(rd as u8, rs1 as u8, rm, from_pr, pr))
                            },
                            _ => None,
                        }
                    }
                } else if fn5 == 11 {
                    if rs2 != 0 {
                        None
                    } else {
                        match spec_round_mode(fn3) {
                            Some(rm) => Some(
                                Instr::FpOp(rd as u8, rs1 as u8, rm, pr, FpUnaryOp::Sqrt),
                            ),
                            None => None,
                        }
                    }
                } else if fn5 == 20 {
                    // Comparison writes a general-purpose register.
                    let cond = if fn3 == 0 {
                        Some(FpCmpCond::Le)
                    } else if fn3 == 1 {
                        Some(FpCmpCond::Lt)
                    } else if fn3 == 2 {
                        Some(FpCmpCond::Eq)
                    } else {
                        None
                    };
                    if !isa.spec_reg_ok(rd) {
                        None
                    } else {
                        match cond {
                            Some(cond) => Some(
                                Instr::FpCmp(rd as u8, rs1 as u8, rs2 as u8, pr, cond),
                            ),
                            None => None,
                        }
                    }
                } else if fn5 == 24 {
                    // Float to integer register.
                    let op = if rs2 == 0 {
                        Some(FpGpOp::W)
                    } else if rs2 == 1 {
                        Some(FpGpOp::WU)
                    } else if rs2 == 2 && isa.xlen.spec_bits() >= 64 {
                        Some(FpGpOp::L)
                    } else if rs2 == 3 && isa.xlen.spec_bits() >= 64 {
                        Some(FpGpOp::LU)
                    } else {
                        None
                    };
                    if !isa.spec_reg_ok(rd) {
                        None
                    } else {
                        match (spec_round_mode(fn3), op) {
                            (Some(rm), Some(op)) => Some(
                                Instr::FpCvtGp(rd as u8, rs1 as u8, rm, pr, op),
                            ),
                            _ => None,
                        }
                    }
                } else if fn5 == 26 {
                    // Integer register to float.
                    let op = if rs2 == 0 {
                        Some(GpFpOp::W)
                    } else if rs2 == 1 {
                        Some(GpFpOp::WU)
                    } else if rs2 == 2 && isa.xlen.spec_bits() >= 64 {
                        Some(GpFpOp::L)
                    } else if rs2 == 3 && isa.xlen.spec_bits() >= 64 {
                        Some(GpFpOp::LU)
                    } else {
                        None
                    };
                    if !isa.spec_reg_ok(rs1) {
                        None
                    } else {
                        match (spec_round_mode(fn3), op) {
                            (Some(rm), Some(op)) => Some(
                                Instr::GpCvtFp(rd as u8, rs1 as u8, rm, pr, op),
                            ),
                            _ => None,
                        }
                    }
                } else if fn5 == 28 {
                    // Bit move to the integer file, or classification.
                    if !isa.spec_reg_ok(rd) || rs2 != 0 {
                        None
                    } else if fn3 == 0 {
                        if spec_fp_mv_ok(isa, pr) {
                            Some(Instr::FpCvtGp(rd as u8, rs1 as u8, RoundMode::NoRm, pr, FpGpOp::MV))
                        } else {
                            None
                        }
                    } else if fn3 == 1 {
                        Some(Instr::FpCvtGp(rd as u8, rs1 as u8, RoundMode::NoRm, pr, FpGpOp::Class))
                    } else {
                        None
                    }
                } else if fn5 == 30 {
                    // Bit move from the integer file.
                    if !isa.spec_reg_ok(rs1) || rs2 != 0 || fn3 != 0 {
                        None
                    } else if spec_fp_mv_ok(isa, pr) {
                        Some(Instr::GpCvtFp(rd as u8, rs1 as u8, RoundMode::NoRm, pr, GpFpOp::MV))
                    } else {
                        None
                    }
                } else {
                    None
                }
            },
            None => None,
        }
    }
}

/// A raw bit move of a `D` value needs a 64-bit integer register file.
pub open spec fn spec_fp_mv_ok(isa: Isa, pr: Precision) -> bool {
    match pr {
        Precision::S => true,
        Precision::D => isa.xlen.spec_bits() >= 64,
    }
}

/// The whole 32-bit decode table: the major opcode group from bits `[6:2]`,
/// or an illegal encoding.
pub open spec fn spec_dec32_opt(isa: Isa, ins: u32) -> Option<Instr> {
    let grp = spec_sel(ins, 6, 2);
    if grp == 0x00 {
        spec_dec32_load(isa, ins)
    } else if grp == 0x01 {
        spec_dec32_load_fp(isa, ins)
    } else if grp == 0x03 {
        spec_dec32_misc_mem(isa, ins)
    } else if grp == 0x04 {
        spec_dec32_op_imm(isa, ins)
    } else if grp == 0x05 {
        spec_dec32_auipc(isa, ins)
    } else if grp == 0x06 {
        spec_dec32_op_imm_32(isa, ins)
    } else if grp == 0x08 {
        spec_dec32_store(isa, ins)
    } else if grp == 0x09 {
        spec_dec32_store_fp(isa, ins)
    } else if grp == 0x0b {
        spec_dec32_amo(isa, ins)
    } else if grp == 0x0c {
        spec_dec32_op(isa, ins)
    } else if grp == 0x0d {
        spec_dec32_lui(isa, ins)
    } else if grp == 0x0e {
        spec_dec32_op_32(isa, ins)
    } else if grp == 0x10 {
        spec_dec32_fp_op3(isa, ins, FpTernaryOp::MAdd)
    } else if grp == 0x11 {
        spec_dec32_fp_op3(isa, ins, FpTernaryOp::MSub)
    } else if grp == 0x12 {
        spec_dec32_fp_op3(isa, ins, FpTernaryOp::NMSub)
    } else if grp == 0x13 {
        spec_dec32_fp_op3(isa, ins, FpTernaryOp::NMAdd)
    } else if grp == 0x14 {
        spec_dec32_op_fp(isa, ins)
    } else if grp == 0x18 {
        spec_dec32_branch(isa, ins)
    } else if grp == 0x19 {
        spec_dec32_jalr(isa, ins)
    } else if grp == 0x1b {
        spec_dec32_jal(isa, ins)
    } else if grp == 0x1c {
        spec_dec32_system(isa, ins)
    } else {
        None
    }
}

/// What a 32-bit instruction word decodes to: the decode table's entry, or
/// the illegal-instruction trap.
pub open spec fn spec_dec32(isa: Isa, ins: u32) -> Instr {
    match spec_dec32_opt(isa, ins) {
        Some(i) => i,
        None => Instr::Trap(Exception::IllegalInstr),
    }
}

impl Isa {
    fn dec32_load(&self, ins: u32) -> (r: Option<Instr>)
        ensures
            r == spec_dec32_load(*self, ins),
    {
        proof {
            lemma2_to64();
        }
        let rd = select_bits(ins, 11, 7) as u8;
        let rs1 = select_bits(ins, 19, 15) as u8;
        let fn3 = select_bits(ins, 14, 12);
        let imm = i_imm(ins);
        if !self.reg_ok(rd) || !self.reg_ok(rs1) {
            return None;
        }
        let wd = match fn3 {
            0 => Some(MemWidth::B),
            1 => Some(MemWidth::H),
            2 => Some(MemWidth::W),
            3 => if self.xlen.bits() >= 64 {
                Some(MemWidth::D)
            } else {
                None
            },
            4 => Some(MemWidth::BU),
            5 => Some(MemWidth::HU),
            6 => if self.xlen.bits() >= 64 {
                Some(MemWidth::WU)
            } else {
                None
            },
            _ => None,
        };
        match wd {
            Some(width) => Some(Instr::Load(rd, rs1, imm, width)),
            None => None,
        }
    }

    fn dec32_store(&self, ins: u32) -> (r: Option<Instr>)
        ensures
            r == spec_dec32_store(*self, ins),
    {
        proof {
            lemma2_to64();
        }
        let rs1 = select_bits(ins, 19, 15) as u8;
        let rs2 = select_bits(ins, 24, 20) as u8;
        let fn3 = select_bits(ins, 14, 12);
        let imm = s_imm(ins);
        if !self.reg_ok(rs1) || !self.reg_ok(rs2) {
            return None;
        }
        let wd = match fn3 {
            0 => Some(MemWidth::B),
            1 => Some(MemWidth::H),
            2 => Some(MemWidth::W),
            3 => if self.xlen.bits() >= 64 {
                Some(MemWidth::D)
            } else {
                None
            },
            _ => None,
        };
        match wd {
            Some(width) => Some(Instr::Store(rs1, rs2, imm, width)),
            None => None,
        }
    }

    fn dec32_misc_mem(&self, ins: u32) -> (r: Option<Instr>)
        ensures
            r == spec_dec32_misc_mem(*self, ins),
    {
        proof {
            lemma2_to64();
        }
        let fn3 = select_bits(ins, 14, 12);
        if fn3 == 0 {
            let pred = select_bits(ins, 27, 24) as u8;
            let succ = select_bits(ins, 23, 20) as u8;
            let fm = select_bits(ins, 31, 28);
            let mode = if fm == 8 && pred == 3 && succ == 3 {
                FenceMode::Tso
            } else {
                FenceMode::Normal
            };
            Some(Instr::MiscMem(MiscMemOp::Fence(pred, succ, mode)))
        } else if fn3 == 1 && self.zifencei {
            Some(Instr::MiscMem(MiscMemOp::FenceI))
        } else {
            None
        }
    }

    fn dec32_op_imm(&self, ins: u32) -> (r: Option<Instr>)
        ensures
            r == spec_dec32_op_imm(*self, ins),
    {
        proof {
            lemma2_to64();
        }
        let rd = select_bits(ins, 11, 7) as u8;
        let rs1 = select_bits(ins, 19, 15) as u8;
        let fn3 = select_bits(ins, 14, 12);
        let imm = i_imm(ins);
        if !self.reg_ok(rd) || !self.reg_ok(rs1) {
            return None;
        }
        match fn3 {
            0 => Some(Instr::OpImm(rd, rs1, imm, BinaryOp::Add)),
            1 => if imm >= 0 && imm < self.xlen.bits() as i32 {
                Some(Instr::OpImm(rd, rs1, imm, BinaryOp::Sll))
            } else {
                None
            },
            2 => Some(Instr::OpImm(rd, rs1, imm, BinaryOp::Slt)),
            3 => Some(Instr::OpImm(rd, rs1, imm, BinaryOp::SltU)),
            4 => Some(Instr::OpImm(rd, rs1, imm, BinaryOp::Xor)),
            5 => match sr_imm(imm, self.xlen.bits()) {
                Some((op, sh)) => Some(Instr::OpImm(rd, rs1, sh, op)),
                None => None,
            },
            6 => Some(Instr::OpImm(rd, rs1, imm, BinaryOp::Or)),
            _ => Some(Instr::OpImm(rd, rs1, imm, BinaryOp::And)),
        }
    }

    fn dec32_op_imm_32(&self, ins: u32) -> (r: Option<Instr>)
        ensures
            r == spec_dec32_op_imm_32(*self, ins),
    {
        proof {
            lemma2_to64();
        }
        if self.xlen.bits() < 64 {
            return None;
        }
        let rd = select_bits(ins, 11, 7) as u8;
        let rs1 = select_bits(ins, 19, 15) as u8;
        let fn3 = select_bits(ins, 14, 12);
        let imm = i_imm(ins);
        if !self.reg_ok(rd) || !self.reg_ok(rs1) {
            return None;
        }
        match fn3 {
            0 => Some(Instr::OpImm(rd, rs1, imm, BinaryOp::AddW)),
            1 => if imm >= 0 && imm < 32 {
                Some(Instr::OpImm(rd, rs1, imm, BinaryOp::SllW))
            } else {
                None
            },
            5 => match sr_imm(imm, 32) {
                Some((op, sh)) => {
                    let wop = if op == BinaryOp::Srl {
                        BinaryOp::SrlW
                    } else {
                        BinaryOp::SraW
                    };
                    Some(Instr::OpImm(rd, rs1, sh, wop))
                },
                None => None,
            },
            _ => None,
        }
    }

    fn dec32_auipc(&self, ins: u32) -> (r: Option<Instr>)
        ensures
            r == spec_dec32_auipc(*self, ins),
    {
        proof {
            lemma2_to64();
        }
        let rd = select_bits(ins, 11, 7) as u8;
        if !self.reg_ok(rd) {
            None
        } else {
            Some(Instr::Auipc(rd, u_imm(ins)))
        }
    }

    fn dec32_lui(&self, ins: u32) -> (r: Option<Instr>)
        ensures
            r == spec_dec32_lui(*self, ins),
    {
        proof {
            lemma2_to64();
        }
        let rd = select_bits(ins, 11, 7) as u8;
        if !self.reg_ok(rd) {
            None
        } else {
            Some(Instr::OpImm(rd, 0, u_imm(ins), BinaryOp::Add))
        }
    }

    fn dec32_op(&self, ins: u32) -> (r: Option<Instr>)
        ensures
            r == spec_dec32_op(*self, ins),
    {
        proof {
            lemma2_to64();
        }
        let rd = select_bits(ins, 11, 7) as u8;
        let rs1 = select_bits(ins, 19, 15) as u8;
        let rs2 = select_bits(ins, 24, 20) as u8;
        let fn3 = select_bits(ins, 14, 12);
        let fn7 = select_bits(ins, 31, 25);
        if !self.reg_ok(rd) || !self.reg_ok(rs1) || !self.reg_ok(rs2) {
            return None;
        }
        let op = if fn7 == 0 {
            match fn3 {
                0 => Some(BinaryOp::Add),
                1 => Some(BinaryOp::Sll),
                2 => Some(BinaryOp::Slt),
                3 => Some(BinaryOp::SltU),
                4 => Some(BinaryOp::Xor),
                5 => Some(BinaryOp::Srl),
                6 => Some(BinaryOp::Or),
                _ => Some(BinaryOp::And),
            }
        } else if fn7 == 0x20 {
            match fn3 {
                0 => Some(BinaryOp::Sub),
                5 => Some(BinaryOp::Sra),
                _ => None,
            }
        } else if fn7 == 1 && self.m {
            match fn3 {
                0 => Some(BinaryOp::Mul),
                1 => Some(BinaryOp::Mulh),
                2 => Some(BinaryOp::MulhSU),
                3 => Some(BinaryOp::MulhU),
                4 => Some(BinaryOp::Div),
                5 => Some(BinaryOp::DivU),
                6 => Some(BinaryOp::Rem),
                _ => Some(BinaryOp::RemU),
            }
        } else {
            None
        };
        match op {
            Some(op) => Some(Instr::Op(rd, rs1, rs2, op)),
            None => None,
        }
    }

    fn dec32_op_32(&self, ins: u32) -> (r: Option<Instr>)
        ensures
            r == spec_dec32_op_32(*self, ins),
    {
        proof {
            lemma2_to64();
        }
        if self.xlen.bits() < 64 {
            return None;
        }
        let rd = select_bits(ins, 11, 7) as u8;
        let rs1 = select_bits(ins, 19, 15) as u8;
        let rs2 = select_bits(ins, 24, 20) as u8;
        let fn3 = select_bits(ins, 14, 12);
        let fn7 = select_bits(ins, 31, 25);
        if !self.reg_ok(rd) || !self.reg_ok(rs1) || !self.reg_ok(rs2) {
            return None;
        }
        let op = if fn7 == 0 {
            match fn3 {
                0 => Some(BinaryOp::AddW),
                1 => Some(BinaryOp::SllW),
                5 => Some(BinaryOp::SrlW),
                _ => None,
            }
        } else if fn7 == 0x20 {
            match fn3 {
                0 => Some(BinaryOp::SubW),
                5 => Some(BinaryOp::SraW),
                _ => None,
            }
        } else if fn7 == 1 && self.m {
            match fn3 {
                0 => Some(BinaryOp::MulW),
                4 => Some(BinaryOp::DivW),
                5 => Some(BinaryOp::DivUW),
                6 => Some(BinaryOp::RemW),
                7 => Some(BinaryOp::RemUW),
                _ => None,
            }
        } else {
            None
        };
        match op {
            Some(op) => Some(Instr::Op(rd, rs1, rs2, op)),
            None => None,
        }
    }

    fn dec32_amo(&self, ins: u32) -> (r: Option<Instr>)
        ensures
            r == spec_dec32_amo(*self, ins),
    {
        proof {
            lemma2_to64();
        }
        if !self.a {
            return None;
        }
        let rd = select_bits(ins, 11, 7) as u8;
        let rs1 = select_bits(ins, 19, 15) as u8;
        let rs2 = select_bits(ins, 24, 20) as u8;
        let fn3 = select_bits(ins, 14, 12);
        let ord = select_bits(ins, 26, 25);
        let fn5 = select_bits(ins, 31, 27);
        if !self.reg_ok(rd) || !self.reg_ok(rs1) || !self.reg_ok(rs2) {
            return None;
        }
        let wd = match fn3 {
            2 => Some(MemWidth::W),
            3 => if self.xlen.bits() >= 64 {
                Some(MemWidth::D)
            } else {
                None
            },
            _ => None,
        };
        let order = match ord {
            0 => MemOrder::Relaxed,
            1 => MemOrder::Release,
            2 => MemOrder::Acquire,
            _ => MemOrder::AcqRel,
        };
        match wd {
            Some(width) => {
                if fn5 == 2 {
                    if rs2 != 0 {
                        None
                    } else {
                        Some(Instr::LoadReserved(rd, rs1, order, width))
                    }
                } else if fn5 == 3 {
                    Some(Instr::StoreConditional(rd, rs1, rs2, order, width))
                } else {
                    let op = match fn5 {
                        0 => Some(BinaryOp::Add),
                        1 => Some(BinaryOp::Second),
                        4 => Some(BinaryOp::Xor),
                        8 => Some(BinaryOp::Or),
                        12 => Some(BinaryOp::And),
                        16 => Some(BinaryOp::Min),
                        20 => Some(BinaryOp::Max),
                        24 => Some(BinaryOp::MinU),
                        28 => Some(BinaryOp::MaxU),
                        _ => None,
                    };
                    match op {
                        Some(op) => Some(Instr::Amo(rd, rs1, rs2, order, width, op)),
                        None => None,
                    }
                }
            },
            None => None,
        }
    }

    fn dec32_branch(&self, ins: u32) -> (r: Option<Instr>)
        ensures
            r == spec_dec32_branch(*self, ins),
    {
        proof {
            lemma2_to64();
        }
        let rs1 = select_bits(ins, 19, 15) as u8;
        let rs2 = select_bits(ins, 24, 20) as u8;
        let fn3 = select_bits(ins, 14, 12);
        let imm = b_imm(ins);
        if !self.reg_ok(rs1) || !self.reg_ok(rs2) {
            return None;
        }
        let cond = match fn3 {
            0 => Some(CmpCond::Eq),
            1 => Some(CmpCond::Ne),
            4 => Some(CmpCond::Lt),
            5 => Some(CmpCond::Ge),
            6 => Some(CmpCond::LtU),
            7 => Some(CmpCond::GeU),
            _ => None,
        };
        match cond {
            Some(cond) => Some(Instr::Branch(rs1, rs2, imm, cond)),
            None => None,
        }
    }

    fn dec32_jalr(&self, ins: u32) -> (r: Option<Instr>)
        ensures
            r == spec_dec32_jalr(*self, ins),
    {
        proof {
            lemma2_to64();
        }
        let rd = select_bits(ins, 11, 7) as u8;
        let rs1 = select_bits(ins, 19, 15) as u8;
        let fn3 = select_bits(ins, 14, 12);
        if !self.reg_ok(rd) || !self.reg_ok(rs1) || fn3 != 0 {
            None
        } else {
            Some(Instr::Jalr(rd, rs1, i_imm(ins)))
        }
    }

    fn dec32_jal(&self, ins: u32) -> (r: Option<Instr>)
        ensures
            r == spec_dec32_jal(*self, ins),
    {
        proof {
            lemma2_to64();
        }
        let rd = select_bits(ins, 11, 7) as u8;
        if !self.reg_ok(rd) {
            None
        } else {
            Some(Instr::Jal(rd, j_imm(ins)))
        }
    }

    fn dec32_csr(&self, ins: u32) -> (r: Option<Instr>)
        ensures
            r == spec_dec32_csr(*self, ins),
    {
        proof {
            lemma2_to64();
        }
        let rd = select_bits(ins, 11, 7) as u8;
        let rs1 = select_bits(ins, 19, 15) as u8;
        let fn3 = select_bits(ins, 14, 12);
        let addr = select_bits(ins, 31, 20) as u16;
        let op = match fn3 {
            1 => Some(CsrOp::Rw),
            2 => Some(CsrOp::Rs),
            3 => Some(CsrOp::Rc),
            5 => Some(CsrOp::Rwi),
            6 => Some(CsrOp::Rsi),
            7 => Some(CsrOp::Rci),
            _ => None,
        };
        match op {
            Some(op) => {
                if fn3 < 4 && !self.reg_ok(rs1) {
                    None
                } else if !self.reg_ok(rd) {
                    None
                } else {
                    Some(Instr::Csr(rd, rs1, addr, op))
                }
            },
            None => None,
        }
    }

    fn dec32_system(&self, ins: u32) -> (r: Option<Instr>)
        ensures
            r == spec_dec32_system(*self, ins),
    {
        proof {
            lemma2_to64();
        }
        let fn3 = select_bits(ins, 14, 12);
        if fn3 == 0 {
            let upper = select_bits(ins, 31, 7);
            if upper == 0 {
                Some(Instr::Trap(Exception::Ecall))
            } else if upper == 0x2000 {
                Some(Instr::Trap(Exception::Ebreak))
            } else {
                None
            }
        } else if self.zicsr {
            self.dec32_csr(ins)
        } else {
            None
        }
    }

    fn dec32_fp_pr(&self, fmt: u32) -> (r: Option<Precision>)
        ensures
            r == spec_fp_pr(*self, fmt as int),
    {
        if fmt == 0 {
            Some(Precision::S)
        } else if fmt == 1 && self.d {
            Some(Precision::D)
        } else {
            None
        }
    }

    fn dec32_ls_pr(&self, fmt: u32) -> (r: Option<Precision>)
        ensures
            r == spec_ls_pr(*self, fmt as int),
    {
        if fmt == 2 {
            Some(Precision::S)
        } else if fmt == 3 && self.d {
            Some(Precision::D)
        } else {
            None
        }
    }

    fn dec32_load_fp(&self, ins: u32) -> (r: Option<Instr>)
        ensures
            r == spec_dec32_load_fp(*self, ins),
    {
        proof {
            lemma2_to64();
        }
        let rd = select_bits(ins, 11, 7) as u8;
        let rs1 = select_bits(ins, 19, 15) as u8;
        let fn3 = select_bits(ins, 14, 12);
        if !self.f || !self.reg_ok(rs1) {
            return None;
        }
        match self.dec32_ls_pr(fn3) {
            Some(pr) => Some(Instr::LoadFp(rd, rs1, i_imm(ins), pr)),
            None => None,
        }
    }

    fn dec32_store_fp(&self, ins: u32) -> (r: Option<Instr>)
        ensures
            r == spec_dec32_store_fp(*self, ins),
    {
        proof {
            lemma2_to64();
        }
        let rs1 = select_bits(ins, 19, 15) as u8;
        let rs2 = select_bits(ins, 24, 20) as u8;
        let fn3 = select_bits(ins, 14, 12);
        if !self.f || !self.reg_ok(rs1) {
            return None;
        }
        match self.dec32_ls_pr(fn3) {
            Some(pr) => Some(Instr::StoreFp(rs1, rs2, s_imm(ins), pr)),
            None => None,
        }
    }

    fn dec32_fp_op3(&self, ins: u32, op: FpTernaryOp) -> (r: Option<Instr>)
        ensures
            r == spec_dec32_fp_op3(*self, ins, op),
    {
        proof {
            lemma2_to64();
        }
        let rd = select_bits(ins, 11, 7) as u8;
        let rs1 = select_bits(ins, 19, 15) as u8;
        let rs2 = select_bits(ins, 24, 20) as u8;
        let fn3 = select_bits(ins, 14, 12);
        let fn2 = select_bits(ins, 26, 25);
        let rs3 = select_bits(ins, 31, 27) as u8;
        if !self.f {
            return None;
        }
        match (round_mode(fn3), self.dec32_fp_pr(fn2)) {
            (Some(rm), Some(pr)) => Some(Instr::FpOp3(rd, rs1, rs2, rs3, rm, pr, op)),
            _ => None,
        }
    }

    fn dec32_fp_mv_ok(&self, pr: Precision) -> (r: bool)
        ensures
            r == spec_fp_mv_ok(*self, pr),
    {
        match pr {
            Precision::S => true,
            Precision::D => self.xlen.bits() >= 64,
        }
    }

    #[verifier::rlimit(30)]
    fn dec32_op_fp(&self, ins: u32) -> (r: Option<Instr>)
        ensures
            r == spec_dec32_op_fp(*self, ins),
    {
        proof {
            lemma2_to64();
        }
        let rd = select_bits(ins, 11, 7) as u8;
        let rs1 = select_bits(ins, 19, 15) as u8;
        let rs2 = select_bits(ins, 24, 20) as u8;
        let fn3 = select_bits(ins, 14, 12);
        let fn2 = select_bits(ins, 26, 25);
        let fn5 = select_bits(ins, 31, 27);
        if !self.f {
            return None;
        }
        let pr = match self.dec32_fp_pr(fn2) {
            Some(pr) => pr,
            None => {
                return None;
            },
        };
        if fn5 <= 3 {
            let op = match fn5 {
                0 => FpBinaryOp::Add,
                1 => FpBinaryOp::Sub,
                2 => FpBinaryOp::Mul,
                _ => FpBinaryOp::Div,
            };
            match round_mode(fn3) {
                Some(rm) => Some(Instr::FpOp2(rd, rs1, rs2, rm, pr, op)),
                None => None,
            }
        } else if fn5 == 4 {
            let op = match fn3 {
                0 => Some(FpBinaryOp::SgnJ),
                1 => Some(FpBinaryOp::SgnJN),
                2 => Some(FpBinaryOp::SgnJX),
                _ => None,
            };
            match op {
                Some(op) => Some(Instr::FpOp2(rd, rs1, rs2, RoundMode::NoRm, pr, op)),
                None => None,
            }
        } else if fn5 == 5 {
            let op = match fn3 {
                0 => Some(FpBinaryOp::Min),
                1 => Some(FpBinaryOp::Max),
                _ => None,
            };
            match op {
                Some(op) => Some(Instr::FpOp2(rd, rs1, rs2, RoundMode::NoRm, pr, op)),
                None => None,
            }
        } else if fn5 == 8 {
            if !self.d {
                return None;
            }
            match (round_mode(fn3), self.dec32_fp_pr(rs2 as u32)) {
                (Some(rm), Some(from_pr)) => if from_pr == pr {
                    None
                } else {
                    Some(Instr::FpCvtFp(rd, rs1, rm, from_pr, pr))
                },
                _ => None,
            }
        } else if fn5 == 11 {
            if rs2 != 0 {
                return None;
            }
            match round_mode(fn3) {
                Some(rm) => Some(Instr::FpOp(rd, rs1, rm, pr, FpUnaryOp::Sqrt)),
                None => None,
            }
        } else if fn5 == 20 {
            let cond = match fn3 {
                0 => Some(FpCmpCond::Le),
                1 => Some(FpCmpCond::Lt),
                2 => Some(FpCmpCond::Eq),
                _ => None,
            };
            if !self.reg_ok(rd) {
                return None;
            }
            match cond {
                Some(cond) => Some(Instr::FpCmp(rd, rs1, rs2, pr, cond)),
                None => None,
            }
        } else if fn5 == 24 {
            let op = match rs2 {
                0 => Some(FpGpOp::W),
                1 => Some(FpGpOp::WU),
                2 => if self.xlen.bits() >= 64 {
                    Some(FpGpOp::L)
                } else {
                    None
                },
                3 => if self.xlen.bits() >= 64 {
                    Some(FpGpOp::LU)
                } else {
                    None
                },
                _ => None,
            };
            if !self.reg_ok(rd) {
                return None;
            }
            match (round_mode(fn3), op) {
                (Some(rm), Some(op)) => Some(Instr::FpCvtGp(rd, rs1, rm, pr, op)),
                _ => None,
            }
        } else if fn5 == 26 {
            let op = match rs2 {
                0 => Some(GpFpOp::W),
                1 => Some(GpFpOp::WU),
                2 => if self.xlen.bits() >= 64 {
                    Some(GpFpOp::L)
                } else {
                    None
                },
                3 => if self.xlen.bits() >= 64 {
                    Some(GpFpOp::LU)
                } else {
                    None
                },
                _ => None,
            };
            if !self.reg_ok(rs1) {
                return None;
            }
            match (round_mode(fn3), op) {
                (Some(rm), Some(op)) => Some(Instr::GpCvtFp(rd, rs1, rm, pr, op)),
                _ => None,
            }
        } else if fn5 == 28 {
            if !self.reg_ok(rd) || rs2 != 0 {
                None
            } else if fn3 == 0 {
                if self.dec32_fp_mv_ok(pr) {
                    Some(Instr::FpCvtGp(rd, rs1, RoundMode::NoRm, pr, FpGpOp::MV))
                } else {
                    None
                }
            } else if fn3 == 1 {
                Some(Instr::FpCvtGp(rd, rs1, RoundMode::NoRm, pr, FpGpOp::Class))
            } else {
                None
            }
        } else if fn5 == 30 {
            if !self.reg_ok(rs1) || rs2 != 0 || fn3 != 0 {
                None
            } else if self.dec32_fp_mv_ok(pr) {
                Some(Instr::GpCvtFp(rd, rs1, RoundMode::NoRm, pr, GpFpOp::MV))
            } else {
                None
            }
        } else {
            None
        }
    }

    /// Decodes a full-width 32-bit instruction word under this
    /// configuration.  Every reserved or disallowed encoding yields
    /// `Trap(IllegalInstr)`.
    pub fn dec32(&self, ins: u32) -> (r: Instr)
        ensures
            r == spec_dec32(*self, ins),
    {
        proof {
            lemma2_to64();
        }
        let grp = select_bits(ins, 6, 2);
        let dec = match grp {
            0x00 => self.dec32_load(ins),
            0x01 => self.dec32_load_fp(ins),
            0x03 => self.dec32_misc_mem(ins),
            0x04 => self.dec32_op_imm(ins),
            0x05 => self.dec32_auipc(ins),
            0x06 => self.dec32_op_imm_32(ins),
            0x08 => self.dec32_store(ins),
            0x09 => self.dec32_store_fp(ins),
            0x0b => self.dec32_amo(ins),
            0x0c => self.dec32_op(ins),
            0x0d => self.dec32_lui(ins),
            0x0e => self.dec32_op_32(ins),
            0x10 => self.dec32_fp_op3(ins, FpTernaryOp::MAdd),
            0x11 => self.dec32_fp_op3(ins, FpTernaryOp::MSub),
            0x12 => self.dec32_fp_op3(ins, FpTernaryOp::NMSub),
            0x13 => self.dec32_fp_op3(ins, FpTernaryOp::NMAdd),
            0x14 => self.dec32_op_fp(ins),
            0x18 => self.dec32_branch(ins),
            0x19 => self.dec32_jalr(ins),
            0x1b => self.dec32_jal(ins),
            0x1c => self.dec32_system(ins),
            _ => None,
        };
        match dec {
            Some(i) => i,
            None => Instr::Trap(Exception::IllegalInstr),
        }
    }
}

} // verus!
