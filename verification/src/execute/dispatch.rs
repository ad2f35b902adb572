//! Execution of one decoded micro-op against the hart.
//!
//! Every arithmetic, branch, memory and CSR effect is specified exactly;
//! the floating-point arms additionally stage the rounding mode (a dynamic
//! mode with an unset dynamic register is an illegal instruction) and are
//! pinned down through the contracts of the floating-point engine.  Control
//! flow leaves each instruction as sequential, redirected, or halted — under
//! this crate's trap model every raised exception halts the hart.

use crate::fpu::{spec_box32, FpOp};
use crate::hart::Hart;
use crate::mem::{le_stored, le_word};
use crate::uop::{
    BinaryOp, CmpCond, CsrOp, Exception, Flow, FpCmpCond, FpGpOp, Instr, MemOrder, MemProtect,
    MemWidth, MiscMemOp, Precision, RoundMode,
};
use crate::xlen::{wf, Xlen};
use vstd::arithmetic::div_mod::*;
use vstd::prelude::*;

verus! {

/// The register file with `v` written to register `r`; a write to register
/// 0 is discarded.
pub open spec fn upd_reg(s: Seq<u128>, r: int, v: u128) -> Seq<u128> {
    if r == 0 {
        s
    } else {
        s.update(r, v)
    }
}

/// A 32-bit immediate as a machine word, sign-extended two's complement.
pub open spec fn imm_w(w: Xlen, imm: i32) -> int {
    (imm as int) % w.size()
}

/// The byte count of a memory access width.
pub open spec fn width_bytes(width: MemWidth) -> int {
    match width {
        MemWidth::B | MemWidth::BU => 1,
        MemWidth::H | MemWidth::HU => 2,
        MemWidth::W | MemWidth::WU => 4,
        MemWidth::D => 8,
    }
}

/// A loaded value extended to the register width: the signed widths
/// sign-extend, the unsigned ones zero-extend.
pub open spec fn ext_rep(w: Xlen, width: MemWidth, v: int) -> int {
    (match width {
        MemWidth::B => crate::decode::common::spec_sext(v, 7),
        MemWidth::H => crate::decode::common::spec_sext(v, 15),
        MemWidth::W => crate::decode::common::spec_sext(v, 31),
        MemWidth::D => crate::decode::common::spec_sext(v, 63),
        MemWidth::BU | MemWidth::HU | MemWidth::WU => v,
    }) % w.size()
}

impl Hart {
    /// Everything but the register file and the program counter is
    /// unchanged.
    pub open spec fn frame_exec(self, prev: Hart) -> bool {
        &&& self.spec_isa() == prev.spec_isa()
        &&& self.cache() == prev.cache()
        &&& self.mem == prev.mem
        &&& self.fpu == prev.fpu
        &&& self.priv_ctrl == prev.priv_ctrl
        &&& self.spec_stopped() == prev.spec_stopped()
    }

    /// The program counter advanced by `k`, modulo the register width.
    pub open spec fn pc_step(self, k: int) -> u128 {
        ((self.spec_pc() + k) % self.w().size()) as u128
    }

    /// Advances the program counter sequentially.
    fn advance_pc(&mut self, step: u32) -> (f: Flow)
        requires
            old(self).wf(),
        ensures
            final(self).wf(),
            final(self).frame_exec(*old(self)),
            final(self).regs() == old(self).regs(),
            final(self).spec_pc() == old(self).pc_step(step as int),
            f == Flow::Sequential,
    {
        let w = self.fe.isa.xlen;
        let npc = w.add(self.pc, crate::xlen::from_u32(step));
        self.pc = npc;
        Flow::Sequential
    }

    /// Redirects the program counter by a signed offset.
    fn rel_jump(&mut self, offset: i32) -> (f: Flow)
        requires
            old(self).wf(),
        ensures
            final(self).wf(),
            final(self).frame_exec(*old(self)),
            final(self).regs() == old(self).regs(),
            final(self).spec_pc() == old(self).pc_step(offset as int),
            f == Flow::Redirected,
    {
        let w = self.fe.isa.xlen;
        let npc = w.add_i32(self.pc, offset);
        self.pc = npc;
        Flow::Redirected
    }

    /// Stages the rounding mode for a floating-point operation; a dynamic
    /// mode with an unset dynamic register raises the illegal-instruction
    /// trap.
    pub fn set_rt_rm(&mut self, rm: RoundMode) -> (r: Result<(), Flow>)
        requires
            old(self).wf(),
        ensures
            final(self).wf(),
            final(self).regs() == old(self).regs(),
            r is Ok <==> !(rm == RoundMode::Dyn && old(self).fpu.dyn_mode() == RoundMode::NoRm),
            r is Ok ==> final(self).spec_pc() == old(self).spec_pc() && final(self).spec_isa()
                == old(self).spec_isa() && final(self).cache() == old(self).cache() && final(self).mem == old(self).mem && final(self).priv_ctrl == old(self).priv_ctrl && final(self).spec_stopped() == old(self).spec_stopped() && final(self).fpu.regs() == old(self).fpu.regs() && final(self).fpu.flags() == old(self).fpu.flags() && final(self).fpu.dyn_mode() == old(self).fpu.dyn_mode(),
            r is Ok ==> final(self).fpu.eff_mode() == (if rm == RoundMode::Dyn {
                old(self).fpu.dyn_mode()
            } else if rm == RoundMode::NoRm {
                old(self).fpu.eff_mode()
            } else {
                rm
            }),
            r is Err ==> r->Err_0 == Flow::Halted && final(self).trapped(
                *old(self),
                Exception::IllegalInstr,
            ),
    {
        match self.fpu.resolve_rm(rm) {
            Ok(_) => Ok(()),
            Err(_) => Err(self.raise(Exception::IllegalInstr)),
        }
    }
}


impl Instr {
    /// Whether this micro-op is well formed for a hart of width `w`: every
    /// register index fits the file, the width-conditional forms demand the
    /// widths the decoder gates them on, and an undecoded marker never
    /// reaches execution.
    pub open spec fn ok_for(self, w: Xlen) -> bool {
        match self {
            Instr::Undecoded => false,
            Instr::Nop => true,
            Instr::Trap(_) => true,
            Instr::CTrap(_) => true,
            Instr::OpImm(rd, rs1, _, op) => rd < 32 && rs1 < 32 && op.ok_for(w),
            Instr::COpImm(rd, rs1, _, op) => rd < 32 && rs1 < 32 && op.ok_for(w),
            Instr::Op(rd, rs1, rs2, op) => rd < 32 && rs1 < 32 && rs2 < 32 && op.ok_for(w),
            Instr::COp(rd_rs1, rs2, op) => rd_rs1 < 32 && rs2 < 32 && op.ok_for(w),
            Instr::Auipc(rd, _) => rd < 32,
            Instr::Load(rd, rs1, _, width) => rd < 32 && rs1 < 32 && width_ok(width, w),
            Instr::CLoad(rd, rs1, _, width) => rd < 32 && rs1 < 32 && width_ok(width, w),
            Instr::Store(rs1, rs2, _, width) => rs1 < 32 && rs2 < 32 && width_ok(width, w),
            Instr::CStore(rs1, rs2, _, width) => rs1 < 32 && rs2 < 32 && width_ok(width, w),
            Instr::MiscMem(_) => true,
            Instr::Branch(rs1, rs2, _, _) => rs1 < 32 && rs2 < 32,
            Instr::CBranch(rs1, _, _) => rs1 < 32,
            Instr::Jal(rd, _) => rd < 32,
            Instr::CJal(rd, _) => rd < 32,
            Instr::Jalr(rd, rs1, _) => rd < 32 && rs1 < 32,
            Instr::CJalr(rd, rs1) => rd < 32 && rs1 < 32,
            Instr::Csr(rd, rs1, _, _) => rd < 32 && rs1 < 32,
            Instr::LoadReserved(rd, rs1, _, width) => rd < 32 && rs1 < 32 && (width
                == MemWidth::W || (width == MemWidth::D && w.spec_bits() >= 64)),
            Instr::StoreConditional(rd, rs1, rs2, _, width) => rd < 32 && rs1 < 32 && rs2 < 32 && (
            width == MemWidth::W || (width == MemWidth::D && w.spec_bits() >= 64)),
            Instr::Amo(rd, rs1, rs2, _, width, op) => rd < 32 && rs1 < 32 && rs2 < 32 && (width
                == MemWidth::W || (width == MemWidth::D && w.spec_bits() >= 64)) && op.ok_for(
                Xlen::X32,
            ) && op.ok_for(Xlen::X64),
            Instr::LoadFp(rd, rs1, _, _) => rd < 32 && rs1 < 32,
            Instr::CLoadFp(rd, rs1, _, _) => rd < 32 && rs1 < 32,
            Instr::StoreFp(rs1, rs2, _, _) => rs1 < 32 && rs2 < 32,
            Instr::CStoreFp(rs1, rs2, _, _) => rs1 < 32 && rs2 < 32,
            Instr::FpOp3(rd, rs1, rs2, rs3, _, _, _) => rd < 32 && rs1 < 32 && rs2 < 32 && rs3
                < 32,
            Instr::FpOp2(rd, rs1, rs2, _, _, _) => rd < 32 && rs1 < 32 && rs2 < 32,
            Instr::FpOp(rd, rs1, _, _, _) => rd < 32 && rs1 < 32,
            Instr::FpCvtGp(rd, rs1, _, pr, op) => rd < 32 && rs1 < 32 && ((op == FpGpOp::L || op
                == FpGpOp::LU) ==> w.spec_bits() >= 64) && ((op == FpGpOp::MV && pr
                == Precision::D) ==> w.spec_bits() >= 64),
            Instr::GpCvtFp(rd, rs1, _, _, _) => rd < 32 && rs1 < 32,
            Instr::FpCmp(rd, rs1, rs2, _, _) => rd < 32 && rs1 < 32 && rs2 < 32,
            Instr::FpCvtFp(rd, rs1, _, from, to) => rd < 32 && rs1 < 32 && from != to,
        }
    }
}

/// Whether a load/store width exists at register width `w`.
pub open spec fn width_ok(width: MemWidth, w: Xlen) -> bool {
    match width {
        MemWidth::D | MemWidth::WU => w.spec_bits() >= 64,
        _ => true,
    }
}

/// The value of a floating-point CSR: `fflags` at address 1, `frm` at 2,
/// `fcsr` at 3.
pub open spec fn csr_val(h: Hart, addr: int) -> int {
    if addr == 1 {
        h.fpu.flags().spec_as_u8() as int
    } else if addr == 2 {
        crate::privilege::spec_rm_bits(h.fpu.dyn_mode())
    } else {
        h.fpu.flags().spec_as_u8() + crate::privilege::spec_rm_bits(h.fpu.dyn_mode()) * 32
    }
}

impl Hart {
    /// Everything except the floating-point unit and the program counter is
    /// unchanged, and the floating-point change is confined to register
    /// `rd`, growing flags, and the staged rounding mode.
    pub open spec fn fp_write_frame(self, prev: Hart, rd: int) -> bool {
        &&& self.spec_isa() == prev.spec_isa()
        &&& self.cache() == prev.cache()
        &&& self.mem == prev.mem
        &&& self.priv_ctrl == prev.priv_ctrl
        &&& self.spec_stopped() == prev.spec_stopped()
        &&& self.regs() == prev.regs()
        &&& self.fpu.wf()
        &&& self.fpu.regs() == prev.fpu.regs().update(rd, self.fpu.regs()[rd])
        &&& prev.fpu.flags().le(self.fpu.flags())
        &&& self.fpu.dyn_mode() == prev.fpu.dyn_mode()
    }

    /// Everything except one general-purpose register, the floating-point
    /// flags and staged mode, and the program counter is unchanged.
    pub open spec fn fp_read_frame(self, prev: Hart, rd: int, v: u128) -> bool {
        &&& self.spec_isa() == prev.spec_isa()
        &&& self.cache() == prev.cache()
        &&& self.mem == prev.mem
        &&& self.priv_ctrl == prev.priv_ctrl
        &&& self.spec_stopped() == prev.spec_stopped()
        &&& self.regs() == upd_reg(prev.regs(), rd, v)
        &&& self.fpu.wf()
        &&& self.fpu.regs() == prev.fpu.regs()
        &&& prev.fpu.flags().le(self.fpu.flags())
        &&& self.fpu.dyn_mode() == prev.fpu.dyn_mode()
    }

    /// The staged rounding mode fails to resolve: the operation's mode is
    /// dynamic while the dynamic register is unset.
    pub open spec fn rm_fails(self, rm: RoundMode) -> bool {
        rm == RoundMode::Dyn && self.fpu.dyn_mode() == RoundMode::NoRm
    }
}

/// What executing micro-op `i` did to the hart: the exact relation between
/// the state before (`prev`) and after (`cur`), and the control-flow signal
/// `f` returned.  The floating-point arithmetic results themselves are
/// pinned down by the floating-point engine's own contracts; here their
/// frames, rounding-mode staging, and the bit-exact conversions are stated.
pub open spec fn exec_post(i: Instr, prev: Hart, cur: Hart, f: Flow) -> bool {
    let w = prev.w();
    match i {
        Instr::Undecoded => false,
        Instr::Nop => cur.frame_exec(prev) && cur.regs() == prev.regs() && cur.spec_pc()
            == prev.pc_step(4) && f == Flow::Sequential,
        Instr::Trap(e) => cur.trapped(prev, e) && f == Flow::Halted,
        Instr::CTrap(e) => cur.trapped(prev, e) && f == Flow::Halted,
        Instr::OpImm(rd, rs1, imm, op) => alu_post(prev, cur, rd as int, prev.regs()[rs1 as int],
            (imm_w(w, imm)) as u128, op, 4, f),
        Instr::COpImm(rd, rs1, imm, op) => alu_post(prev, cur, rd as int, prev.regs()[rs1 as int],
            (imm_w(w, imm)) as u128, op, 2, f),
        Instr::Op(rd, rs1, rs2, op) => alu_post(prev, cur, rd as int, prev.regs()[rs1 as int],
            prev.regs()[rs2 as int], op, 4, f),
        Instr::COp(rd_rs1, rs2, op) => alu_post(prev, cur, rd_rs1 as int, prev.regs()[rd_rs1 as int],
            prev.regs()[rs2 as int], op, 2, f),
        Instr::Auipc(rd, imm) => cur.frame_exec(prev) && cur.regs() == upd_reg(
            prev.regs(),
            rd as int,
            ((prev.spec_pc() + imm) % w.size()) as u128,
        ) && cur.spec_pc() == prev.pc_step(4) && f == Flow::Sequential,
        Instr::Load(rd, rs1, offset, width) => load_post(prev, cur, rd as int, rs1 as int, offset,
            width, 4, f),
        Instr::CLoad(rd, rs1, offset, width) => load_post(prev, cur, rd as int, rs1 as int, offset,
            width, 2, f),
        Instr::Store(rs1, rs2, offset, width) => store_post(prev, cur, rs1 as int, rs2 as int,
            offset, width, 4, f),
        Instr::CStore(rs1, rs2, offset, width) => store_post(prev, cur, rs1 as int, rs2 as int,
            offset, width, 2, f),
        Instr::MiscMem(op) => match op {
            MiscMemOp::Fence(_, _, _) => cur.frame_exec(prev) && cur.regs() == prev.regs()
                && cur.spec_pc() == prev.pc_step(4) && f == Flow::Sequential,
            MiscMemOp::FenceI => {
                &&& cur.spec_isa() == prev.spec_isa()
                &&& cur.mem == prev.mem
                &&& cur.fpu == prev.fpu
                &&& cur.priv_ctrl == prev.priv_ctrl
                &&& cur.spec_stopped() == prev.spec_stopped()
                &&& cur.regs() == prev.regs()
                &&& cur.cache().wf()
                &&& forall|a: u128| cur.cache().lookup(a) is None
                &&& cur.spec_pc() == prev.pc_step(4)
                &&& f == Flow::Sequential
            },
        },
        Instr::Branch(rs1, rs2, offset, cond) => branch_post(prev, cur, prev.regs()[rs1 as int],
            prev.regs()[rs2 as int], offset, cond, 4, f),
        Instr::CBranch(rs1, offset, cond) => branch_post(prev, cur, prev.regs()[rs1 as int], 0,
            offset, cond, 2, f),
        Instr::Jal(rd, offset) => jal_post(prev, cur, rd as int, offset, 4, f),
        Instr::CJal(rd, offset) => jal_post(prev, cur, rd as int, offset, 2, f),
        Instr::Jalr(rd, rs1, offset) => jalr_post(prev, cur, rd as int, rs1 as int, offset, 4, f),
        Instr::CJalr(rd, rs1) => jalr_post(prev, cur, rd as int, rs1 as int, 0, 2, f),
        Instr::Csr(rd, rs1, addr, op) => csr_post(prev, cur, rd as int, rs1 as int, addr as int,
            op, f),
        Instr::LoadReserved(rd, rs1, _, width) => lr_post(prev, cur, rd as int, rs1 as int, width,
            f),
        Instr::StoreConditional(rd, rs1, rs2, _, width) => sc_post(prev, cur, rd as int,
            rs1 as int, rs2 as int, width, f),
        Instr::Amo(rd, rs1, rs2, _, width, op) => amo_post(prev, cur, rd as int, rs1 as int,
            rs2 as int, width, op, f),
        Instr::LoadFp(rd, rs1, offset, pr) => load_fp_post(prev, cur, rd as int, rs1 as int,
            offset, pr, 4, f),
        Instr::CLoadFp(rd, rs1, offset, pr) => load_fp_post(prev, cur, rd as int, rs1 as int,
            offset, pr, 2, f),
        Instr::StoreFp(rs1, rs2, offset, pr) => store_fp_post(prev, cur, rs1 as int, rs2 as int,
            offset, pr, 4, f),
        Instr::CStoreFp(rs1, rs2, offset, pr) => store_fp_post(prev, cur, rs1 as int, rs2 as int,
            offset, pr, 2, f),
        Instr::FpOp3(rd, _, _, _, rm, _, _) => fp_reg_op_post(prev, cur, rd as int, rm, f),
        Instr::FpOp2(rd, _, _, rm, _, _) => fp_reg_op_post(prev, cur, rd as int, rm, f),
        Instr::FpOp(rd, _, rm, _, _) => fp_reg_op_post(prev, cur, rd as int, rm, f),
        Instr::GpCvtFp(rd, _, rm, _, _) => fp_reg_op_post(prev, cur, rd as int, rm, f),
        Instr::FpCvtFp(rd, _, rm, _, _) => fp_reg_op_post(prev, cur, rd as int, rm, f),
        Instr::FpCvtGp(rd, rs1, rm, pr, op) => fp_cvt_gp_post(prev, cur, rd as int, rs1 as int,
            rm, pr, op, f),
        Instr::FpCmp(rd, rs1, rs2, pr, cond) => fp_cmp_post(prev, cur, rd as int, rs1 as int,
            rs2 as int, pr, cond, f),
    }
}


/// A float-to-integer conversion, bit move or classification: the staged
/// rounding mode resolves (or the hart traps), the destination receives a
/// well-formed word, and the bit move and classification values are exact.
pub open spec fn fp_cvt_gp_post(
    prev: Hart,
    cur: Hart,
    rd: int,
    rs1: int,
    rm: RoundMode,
    pr: Precision,
    op: FpGpOp,
    f: Flow,
) -> bool {
            if prev.rm_fails(rm) {
                cur.trapped(prev, Exception::IllegalInstr) && f == Flow::Halted
            } else {
                &&& cur.fp_read_frame(prev, rd, cur.regs()[rd])
                &&& wf(prev.w(), cur.regs()[rd])
                &&& (op == FpGpOp::Class && pr == Precision::S && rd != 0 ==> cur.regs()[rd]
                    == crate::fpu::spec_class32(prev.fpu.spec_rd32(rs1)) as u128)
                &&& (op == FpGpOp::Class && pr == Precision::D && rd != 0 ==> cur.regs()[rd]
                    == crate::fpu::spec_class64(prev.fpu.spec_rd64(rs1)) as u128)
                &&& (op == FpGpOp::MV && pr == Precision::S && rd != 0 ==> cur.regs()[rd]
                    == prev.fpu.spec_rd32(rs1) as u128)
                &&& (op == FpGpOp::MV && pr == Precision::D && rd != 0 ==> cur.regs()[rd]
                    == prev.fpu.spec_rd64(rs1) as u128)
                &&& cur.spec_pc() == prev.pc_step(4)
                &&& f == Flow::Sequential
            }
        }

/// An ordered floating-point comparison: the destination receives exactly 1
/// or 0 per the comparison, and the invalid flag rises per the NaN rules.
pub open spec fn fp_cmp_post(
    prev: Hart,
    cur: Hart,
    rd: int,
    rs1: int,
    rs2: int,
    pr: Precision,
    cond: FpCmpCond,
    f: Flow,
) -> bool {
            &&& cur.fp_read_frame(prev, rd, cur.regs()[rd])
            &&& (pr == Precision::S && rd != 0 ==> cur.regs()[rd] == (if crate::fpu::spec_cmp32(
                cond,
                prev.fpu.spec_rd32(rs1),
                prev.fpu.spec_rd32(rs2),
            ).0 {
                1int
            } else {
                0int
            }))
            &&& (pr == Precision::D && rd != 0 ==> cur.regs()[rd] == (if crate::fpu::spec_cmp64(
                cond,
                prev.fpu.spec_rd64(rs1),
                prev.fpu.spec_rd64(rs2),
            ).0 {
                1int
            } else {
                0int
            }))
            &&& cur.spec_pc() == prev.pc_step(4)
            &&& f == Flow::Sequential
        }

/// An ALU instruction: the destination receives the operation's value and
/// the program counter advances.
pub open spec fn alu_post(
    prev: Hart,
    cur: Hart,
    rd: int,
    a: u128,
    b: u128,
    op: BinaryOp,
    step: int,
    f: Flow,
) -> bool {
    &&& cur.frame_exec(prev)
    &&& cur.regs() == upd_reg(prev.regs(), rd, op.value(prev.w(), a, b) as u128)
    &&& cur.spec_pc() == prev.pc_step(step)
    &&& f == Flow::Sequential
}

/// A load: the effective address is base plus offset; in range, the
/// destination receives the extended value and the counter advances; out of
/// range, the hart traps on a read access fault.
pub open spec fn load_post(
    prev: Hart,
    cur: Hart,
    rd: int,
    rs1: int,
    offset: i32,
    width: MemWidth,
    step: int,
    f: Flow,
) -> bool {
    let addr = ((prev.regs()[rs1] + offset) % prev.w().size()) as u128;
    let n = width_bytes(width);
    if prev.mem.in_range(addr, n) {
        &&& cur.frame_exec(prev)
        &&& cur.regs() == upd_reg(
            prev.regs(),
            rd,
            ext_rep(prev.w(), width, le_word(prev.mem.bytes(), addr as int, n)) as u128,
        )
        &&& cur.spec_pc() == prev.pc_step(step)
        &&& f == Flow::Sequential
    } else {
        cur.trapped(prev, Exception::AccessFault(MemProtect::R)) && f == Flow::Halted
    }
}

/// A store: in range, the bytes are written and the counter advances; out
/// of range, the hart traps on a write access fault.
pub open spec fn store_post(
    prev: Hart,
    cur: Hart,
    rs1: int,
    rs2: int,
    offset: i32,
    width: MemWidth,
    step: int,
    f: Flow,
) -> bool {
    let addr = ((prev.regs()[rs1] + offset) % prev.w().size()) as u128;
    let n = width_bytes(width);
    let data = prev.regs()[rs2] as int % (match width {
        MemWidth::B | MemWidth::BU => 0x100int,
        MemWidth::H | MemWidth::HU => 0x1_0000int,
        MemWidth::W | MemWidth::WU => 0x1_0000_0000int,
        MemWidth::D => 0x1_0000_0000_0000_0000int,
    });
    if prev.mem.in_range(addr, n) {
        &&& cur.spec_isa() == prev.spec_isa()
        &&& cur.cache() == prev.cache()
        &&& cur.fpu == prev.fpu
        &&& cur.priv_ctrl == prev.priv_ctrl
        &&& cur.spec_stopped() == prev.spec_stopped()
        &&& cur.regs() == prev.regs()
        &&& cur.mem.has_region()
        &&& cur.mem.bytes() == le_stored(prev.mem.bytes(), addr as int, n, data)
        &&& cur.mem.reservation() == prev.mem.reservation()
        &&& cur.spec_pc() == prev.pc_step(step)
        &&& f == Flow::Sequential
    } else {
        cur.trapped(prev, Exception::AccessFault(MemProtect::W)) && f == Flow::Halted
    }
}

/// A conditional branch: taken, the counter moves by the offset and the
/// flow reports a redirect; not taken, it advances sequentially.
pub open spec fn branch_post(
    prev: Hart,
    cur: Hart,
    a: u128,
    b: u128,
    offset: i32,
    cond: CmpCond,
    step: int,
    f: Flow,
) -> bool {
    &&& cur.frame_exec(prev)
    &&& cur.regs() == prev.regs()
    &&& if cond.holds(prev.w(), a, b) {
        cur.spec_pc() == prev.pc_step(offset as int) && f == Flow::Redirected
    } else {
        cur.spec_pc() == prev.pc_step(step) && f == Flow::Sequential
    }
}

/// A jump-and-link: the link address (the next sequential counter) lands in
/// the destination before the counter moves by the offset.
pub open spec fn jal_post(prev: Hart, cur: Hart, rd: int, offset: i32, step: int, f: Flow) -> bool {
    &&& cur.frame_exec(prev)
    &&& cur.regs() == upd_reg(prev.regs(), rd, prev.pc_step(step))
    &&& cur.spec_pc() == prev.pc_step(offset as int)
    &&& f == Flow::Redirected
}

/// An indirect jump-and-link: the target is the base register (read before
/// the link write) plus the offset.
pub open spec fn jalr_post(
    prev: Hart,
    cur: Hart,
    rd: int,
    rs1: int,
    offset: i32,
    step: int,
    f: Flow,
) -> bool {
    &&& cur.frame_exec(prev)
    &&& cur.regs() == upd_reg(prev.regs(), rd, prev.pc_step(step))
    &&& cur.spec_pc() == ((prev.regs()[rs1] + offset) % prev.w().size()) as u128
    &&& f == Flow::Redirected
}

/// A CSR access: a legal address returns the old CSR value into the
/// destination, applies the write, set or clear to the floating-point CSR
/// state (a set or clear with a zero source performs no write), and
/// advances; an illegal address traps.
pub open spec fn csr_post(
    prev: Hart,
    cur: Hart,
    rd: int,
    rs1: int,
    addr: int,
    op: CsrOp,
    f: Flow,
) -> bool {
    // The source value: the rs1 register for the register forms, the
    // five-bit field itself, zero-extended, for the immediate forms.
    let val = match op {
        CsrOp::Rw | CsrOp::Rs | CsrOp::Rc => prev.regs()[rs1] as int,
        CsrOp::Rwi | CsrOp::Rsi | CsrOp::Rci => rs1,
    };
    if addr == 1 || addr == 2 || addr == 3 {
        &&& cur.spec_isa() == prev.spec_isa()
        &&& cur.cache() == prev.cache()
        &&& cur.mem == prev.mem
        &&& cur.priv_ctrl == prev.priv_ctrl
        &&& cur.spec_stopped() == prev.spec_stopped()
        &&& cur.fpu.wf()
        &&& cur.fpu.regs() == prev.fpu.regs()
        &&& cur.fpu.eff_mode() == prev.fpu.eff_mode()
        &&& cur.fpu.flags() == crate::privilege::spec_csr_flags(prev.fpu.flags(), op, addr, val)
        &&& cur.fpu.dyn_mode() == crate::privilege::spec_csr_rm(prev.fpu.dyn_mode(), op, addr, val)
        &&& cur.regs() == upd_reg(prev.regs(), rd, csr_val(prev, addr) as u128)
        &&& cur.spec_pc() == prev.pc_step(4)
        &&& f == Flow::Sequential
    } else {
        cur.trapped(prev, Exception::IllegalInstr) && f == Flow::Halted
    }
}

/// A load-reserved: the read value lands sign-extended in the destination
/// and the reservation is recorded.
pub open spec fn lr_post(
    prev: Hart,
    cur: Hart,
    rd: int,
    rs1: int,
    width: MemWidth,
    f: Flow,
) -> bool {
    let addr = prev.regs()[rs1];
    let n = width_bytes(width);
    if prev.mem.in_range(addr, n) {
        &&& cur.spec_isa() == prev.spec_isa()
        &&& cur.cache() == prev.cache()
        &&& cur.fpu == prev.fpu
        &&& cur.priv_ctrl == prev.priv_ctrl
        &&& cur.spec_stopped() == prev.spec_stopped()
        &&& cur.mem.bytes() == prev.mem.bytes()
        &&& cur.mem.has_region() == prev.mem.has_region()
        &&& cur.mem.reservation() == Some(addr)
        &&& cur.regs() == upd_reg(
            prev.regs(),
            rd,
            ext_rep(prev.w(), width, le_word(prev.mem.bytes(), addr as int, n)) as u128,
        )
        &&& cur.spec_pc() == prev.pc_step(4)
        &&& f == Flow::Sequential
    } else {
        cur.trapped(prev, Exception::AccessFault(MemProtect::R)) && f == Flow::Halted
    }
}

/// A store-conditional: success writes the data and yields 0, a lost
/// reservation yields 1 without writing; either way the reservation is
/// consumed.
pub open spec fn sc_post(
    prev: Hart,
    cur: Hart,
    rd: int,
    rs1: int,
    rs2: int,
    width: MemWidth,
    f: Flow,
) -> bool {
    let addr = prev.regs()[rs1];
    let n = width_bytes(width);
    let data = prev.regs()[rs2] as int % (if n == 4 {
        0x1_0000_0000int
    } else {
        0x1_0000_0000_0000_0000int
    });
    if prev.mem.reservation() != Some(addr) {
        &&& cur.spec_isa() == prev.spec_isa()
        &&& cur.cache() == prev.cache()
        &&& cur.fpu == prev.fpu
        &&& cur.priv_ctrl == prev.priv_ctrl
        &&& cur.spec_stopped() == prev.spec_stopped()
        &&& cur.mem.bytes() == prev.mem.bytes()
        &&& cur.mem.has_region() == prev.mem.has_region()
        &&& cur.mem.reservation() is None
        &&& cur.regs() == upd_reg(prev.regs(), rd, 1)
        &&& cur.spec_pc() == prev.pc_step(4)
        &&& f == Flow::Sequential
    } else if prev.mem.in_range(addr, n) {
        &&& cur.spec_isa() == prev.spec_isa()
        &&& cur.cache() == prev.cache()
        &&& cur.fpu == prev.fpu
        &&& cur.priv_ctrl == prev.priv_ctrl
        &&& cur.spec_stopped() == prev.spec_stopped()
        &&& cur.mem.bytes() == le_stored(prev.mem.bytes(), addr as int, n, data)
        &&& cur.mem.has_region() == prev.mem.has_region()
        &&& cur.mem.reservation() is None
        &&& cur.regs() == upd_reg(prev.regs(), rd, 0)
        &&& cur.spec_pc() == prev.pc_step(4)
        &&& f == Flow::Sequential
    } else {
        // The failed write still consumed the reservation before trapping.
        &&& cur.regs() == prev.regs()
        &&& cur.spec_pc() == prev.spec_pc()
        &&& cur.spec_isa() == prev.spec_isa()
        &&& cur.cache() == prev.cache()
        &&& cur.fpu == prev.fpu
        &&& cur.mem.bytes() == prev.mem.bytes()
        &&& cur.mem.has_region() == prev.mem.has_region()
        &&& cur.mem.reservation() is None
        &&& cur.spec_stopped()
        &&& cur.priv_ctrl.trap == Some(Exception::AccessFault(MemProtect::W))
        &&& f == Flow::Halted
    }
}

/// An atomic memory operation: the old word lands sign-extended in the
/// destination and the ALU combination of old word and source data is
/// stored back.
pub open spec fn amo_post(
    prev: Hart,
    cur: Hart,
    rd: int,
    rs1: int,
    rs2: int,
    width: MemWidth,
    op: BinaryOp,
    f: Flow,
) -> bool {
    let addr = prev.regs()[rs1];
    let n = width_bytes(width);
    let oldw = le_word(prev.mem.bytes(), addr as int, n);
    let data = prev.regs()[rs2] as int % (if n == 4 {
        0x1_0000_0000int
    } else {
        0x1_0000_0000_0000_0000int
    });
    let neww = if n == 4 {
        op.value(Xlen::X32, oldw as u128, data as u128)
    } else {
        op.value(Xlen::X64, oldw as u128, data as u128)
    };
    if prev.mem.in_range(addr, n) {
        &&& cur.spec_isa() == prev.spec_isa()
        &&& cur.cache() == prev.cache()
        &&& cur.fpu == prev.fpu
        &&& cur.priv_ctrl == prev.priv_ctrl
        &&& cur.spec_stopped() == prev.spec_stopped()
        &&& cur.mem.bytes() == le_stored(prev.mem.bytes(), addr as int, n, neww)
        &&& cur.mem.has_region() == prev.mem.has_region()
        &&& cur.mem.reservation() == prev.mem.reservation()
        &&& cur.regs() == upd_reg(prev.regs(), rd, ext_rep(prev.w(), width, oldw) as u128)
        &&& cur.spec_pc() == prev.pc_step(4)
        &&& f == Flow::Sequential
    } else {
        cur.trapped(prev, Exception::AccessFault(MemProtect::W)) && f == Flow::Halted
    }
}

/// A floating-point load: the read pattern lands in the destination
/// register, NaN-boxed when single precision.
pub open spec fn load_fp_post(
    prev: Hart,
    cur: Hart,
    rd: int,
    rs1: int,
    offset: i32,
    pr: Precision,
    step: int,
    f: Flow,
) -> bool {
    let addr = ((prev.regs()[rs1] + offset) % prev.w().size()) as u128;
    let n = if pr == Precision::S {
        4int
    } else {
        8int
    };
    if prev.mem.in_range(addr, n) {
        &&& cur.spec_isa() == prev.spec_isa()
        &&& cur.cache() == prev.cache()
        &&& cur.mem == prev.mem
        &&& cur.priv_ctrl == prev.priv_ctrl
        &&& cur.spec_stopped() == prev.spec_stopped()
        &&& cur.regs() == prev.regs()
        &&& cur.fpu.wf()
        &&& cur.fpu.regs() == prev.fpu.regs().update(
            rd,
            if pr == Precision::S {
                spec_box32(le_word(prev.mem.bytes(), addr as int, 4) as u32)
            } else {
                le_word(prev.mem.bytes(), addr as int, 8) as u64
            },
        )
        &&& cur.fpu.flags() == prev.fpu.flags()
        &&& cur.fpu.dyn_mode() == prev.fpu.dyn_mode()
        &&& cur.fpu.eff_mode() == prev.fpu.eff_mode()
        &&& cur.spec_pc() == prev.pc_step(step)
        &&& f == Flow::Sequential
    } else {
        cur.trapped(prev, Exception::AccessFault(MemProtect::R)) && f == Flow::Halted
    }
}

/// A floating-point store: the register's pattern (the boxed low half at
/// single precision) is written to memory.
pub open spec fn store_fp_post(
    prev: Hart,
    cur: Hart,
    rs1: int,
    rs2: int,
    offset: i32,
    pr: Precision,
    step: int,
    f: Flow,
) -> bool {
    let addr = ((prev.regs()[rs1] + offset) % prev.w().size()) as u128;
    let n = if pr == Precision::S {
        4int
    } else {
        8int
    };
    let data = if pr == Precision::S {
        prev.fpu.spec_rd32(rs2) as int
    } else {
        prev.fpu.spec_rd64(rs2) as int
    };
    if prev.mem.in_range(addr, n) {
        &&& cur.spec_isa() == prev.spec_isa()
        &&& cur.cache() == prev.cache()
        &&& cur.fpu == prev.fpu
        &&& cur.priv_ctrl == prev.priv_ctrl
        &&& cur.spec_stopped() == prev.spec_stopped()
        &&& cur.regs() == prev.regs()
        &&& cur.mem.bytes() == le_stored(prev.mem.bytes(), addr as int, n, data)
        &&& cur.mem.has_region()
        &&& cur.mem.reservation() == prev.mem.reservation()
        &&& cur.spec_pc() == prev.pc_step(step)
        &&& f == Flow::Sequential
    } else {
        cur.trapped(prev, Exception::AccessFault(MemProtect::W)) && f == Flow::Halted
    }
}

/// A floating-point operation that writes a floating-point register: the
/// rounding mode stages (or the hart traps on an unresolvable dynamic
/// mode), at most the destination register changes, and the sticky flags
/// only grow.
pub open spec fn fp_reg_op_post(prev: Hart, cur: Hart, rd: int, rm: RoundMode, f: Flow) -> bool {
    if prev.rm_fails(rm) {
        cur.trapped(prev, Exception::IllegalInstr) && f == Flow::Halted
    } else {
        &&& cur.fp_write_frame(prev, rd)
        &&& cur.spec_pc() == prev.pc_step(4)
        &&& f == Flow::Sequential
    }
}


impl Hart {
    fn do_load(&mut self, rd: u8, rs1: u8, offset: i32, width: MemWidth, step: u32) -> (f: Flow)
        requires
            old(self).wf(),
            rd < 32,
            rs1 < 32,
            width_ok(width, old(self).w()),
        ensures
            final(self).wf(),
            load_post(*old(self), *final(self), rd as int, rs1 as int, offset, width, step as int, f),
    {
        proof {
            vstd::arithmetic::power2::lemma2_to64();
            vstd::arithmetic::power2::lemma2_to64_rest();
        }
        let w = self.fe.isa.xlen;
        let base = self.rd_gpr(rs1);
        let addr = w.add_i32(base, offset);
        match width {
            MemWidth::B => match self.mem.rd_mem8(addr) {
                Ok(v) => {
                    let sv: i32 = if v >= 0x80 {
                        v as i32 - 0x100
                    } else {
                        v as i32
                    };
                    let x = w.from_i32(sv);
                    self.wr_gpr(rd, x);
                    self.advance_pc(step)
                },
                Err(e) => self.raise(e),
            },
            MemWidth::H => match self.mem.rd_mem16(addr) {
                Ok(v) => {
                    let sv: i32 = if v >= 0x8000 {
                        v as i32 - 0x1_0000
                    } else {
                        v as i32
                    };
                    let x = w.from_i32(sv);
                    self.wr_gpr(rd, x);
                    self.advance_pc(step)
                },
                Err(e) => self.raise(e),
            },
            MemWidth::W => match self.mem.rd_mem32(addr) {
                Ok(v) => {
                    let sv: i32 = if v >= 0x8000_0000 {
                        (v as i64 - 0x1_0000_0000i64) as i32
                    } else {
                        v as i32
                    };
                    let x = w.from_i32(sv);
                    self.wr_gpr(rd, x);
                    self.advance_pc(step)
                },
                Err(e) => self.raise(e),
            },
            MemWidth::D => match self.mem.rd_mem64(addr) {
                Ok(v) => {
                    let sv: i64 = if v >= 0x8000_0000_0000_0000 {
                        (v as i128 - 0x1_0000_0000_0000_0000i128) as i64
                    } else {
                        v as i64
                    };
                    let x = w.from_i64(sv);
                    self.wr_gpr(rd, x);
                    self.advance_pc(step)
                },
                Err(e) => self.raise(e),
            },
            MemWidth::BU => match self.mem.rd_mem8(addr) {
                Ok(v) => {
                    let x = crate::xlen::from_u32(v as u32);
                    proof {
                        vstd::arithmetic::div_mod::lemma_small_mod(v as nat, w.size() as nat);
                    }
                    self.wr_gpr(rd, x);
                    self.advance_pc(step)
                },
                Err(e) => self.raise(e),
            },
            MemWidth::HU => match self.mem.rd_mem16(addr) {
                Ok(v) => {
                    let x = crate::xlen::from_u32(v as u32);
                    proof {
                        vstd::arithmetic::div_mod::lemma_small_mod(v as nat, w.size() as nat);
                    }
                    self.wr_gpr(rd, x);
                    self.advance_pc(step)
                },
                Err(e) => self.raise(e),
            },
            MemWidth::WU => match self.mem.rd_mem32(addr) {
                Ok(v) => {
                    let x = crate::xlen::from_u32(v);
                    proof {
                        vstd::arithmetic::div_mod::lemma_small_mod(v as nat, w.size() as nat);
                    }
                    self.wr_gpr(rd, x);
                    self.advance_pc(step)
                },
                Err(e) => self.raise(e),
            },
        }
    }

    fn do_store(&mut self, rs1: u8, rs2: u8, offset: i32, width: MemWidth, step: u32) -> (f: Flow)
        requires
            old(self).wf(),
            rs1 < 32,
            rs2 < 32,
            width_ok(width, old(self).w()),
        ensures
            final(self).wf(),
            store_post(*old(self), *final(self), rs1 as int, rs2 as int, offset, width, step as int, f),
    {
        let w = self.fe.isa.xlen;
        let base = self.rd_gpr(rs1);
        let addr = w.add_i32(base, offset);
        let data = self.rd_gpr(rs2);
        let res = match width {
            MemWidth::B | MemWidth::BU => self.mem.wr_mem8(addr, crate::xlen::to_u8(data)),
            MemWidth::H | MemWidth::HU => self.mem.wr_mem16(addr, crate::xlen::to_u16(data)),
            MemWidth::W | MemWidth::WU => self.mem.wr_mem32(addr, crate::xlen::to_u32(data)),
            MemWidth::D => self.mem.wr_mem64(addr, crate::xlen::to_u64(data)),
        };
        match res {
            Ok(_) => self.advance_pc(step),
            Err(e) => self.raise(e),
        }
    }

    fn do_branch(&mut self, rs1: u8, rs2: u8, offset: i32, cond: CmpCond, step: u32) -> (f: Flow)
        requires
            old(self).wf(),
            rs1 < 32,
            rs2 < 32,
        ensures
            final(self).wf(),
            branch_post(
                *old(self),
                *final(self),
                old(self).regs()[rs1 as int],
                old(self).regs()[rs2 as int],
                offset,
                cond,
                step as int,
                f,
            ),
    {
        let w = self.fe.isa.xlen;
        let a = self.rd_gpr(rs1);
        let b = self.rd_gpr(rs2);
        if cond.test(w, a, b) {
            self.rel_jump(offset)
        } else {
            self.advance_pc(step)
        }
    }

    fn do_jal(&mut self, rd: u8, offset: i32, step: u32) -> (f: Flow)
        requires
            old(self).wf(),
            rd < 32,
        ensures
            final(self).wf(),
            jal_post(*old(self), *final(self), rd as int, offset, step as int, f),
    {
        let w = self.fe.isa.xlen;
        let link = w.add(self.get_pc(), crate::xlen::from_u32(step));
        self.wr_gpr(rd, link);
        self.rel_jump(offset)
    }

    fn do_jalr(&mut self, rd: u8, rs1: u8, offset: i32, step: u32) -> (f: Flow)
        requires
            old(self).wf(),
            rd < 32,
            rs1 < 32,
        ensures
            final(self).wf(),
            jalr_post(*old(self), *final(self), rd as int, rs1 as int, offset, step as int, f),
    {
        let w = self.fe.isa.xlen;
        let target = w.add_i32(self.rd_gpr(rs1), offset);
        let link = w.add(self.get_pc(), crate::xlen::from_u32(step));
        self.wr_gpr(rd, link);
        self.set_pc(target)
    }

    #[verifier::rlimit(60)]
    fn do_csr(&mut self, rd: u8, rs1: u8, addr: u16, op: CsrOp) -> (f: Flow)
        requires
            old(self).wf(),
            rd < 32,
            rs1 < 32,
        ensures
            final(self).wf(),
            csr_post(*old(self), *final(self), rd as int, rs1 as int, addr as int, op, f),
    {
        let val = match op {
            CsrOp::Rw | CsrOp::Rs | CsrOp::Rc => self.rd_gpr(rs1),
            CsrOp::Rwi | CsrOp::Rsi | CsrOp::Rci => crate::xlen::from_u32(rs1 as u32),
        };
        let res = match op {
            CsrOp::Rw | CsrOp::Rwi => self.csr_wr(addr, val),
            CsrOp::Rs | CsrOp::Rsi => self.csr_set(addr, val),
            CsrOp::Rc | CsrOp::Rci => self.csr_clr(addr, val),
        };
        match res {
            Ok(v) => {
                self.wr_gpr(rd, v);
                self.advance_pc(4)
            },
            Err(e) => self.raise(e),
        }
    }

    fn do_lr(&mut self, rd: u8, rs1: u8, ord: MemOrder, width: MemWidth) -> (f: Flow)
        requires
            old(self).wf(),
            rd < 32,
            rs1 < 32,
            width == MemWidth::W || (width == MemWidth::D && old(self).w().spec_bits() >= 64),
        ensures
            final(self).wf(),
            lr_post(*old(self), *final(self), rd as int, rs1 as int, width, f),
    {
        proof {
            vstd::arithmetic::power2::lemma2_to64();
            vstd::arithmetic::power2::lemma2_to64_rest();
        }
        let w = self.fe.isa.xlen;
        let addr = self.rd_gpr(rs1);
        match width {
            MemWidth::W => match self.mem.load_rsrv32(addr, ord) {
                Ok(v) => {
                    let sv: i32 = if v >= 0x8000_0000 {
                        (v as i64 - 0x1_0000_0000i64) as i32
                    } else {
                        v as i32
                    };
                    let x = w.from_i32(sv);
                    self.wr_gpr(rd, x);
                    self.advance_pc(4)
                },
                Err(e) => self.raise(e),
            },
            MemWidth::D => match self.mem.load_rsrv64(addr, ord) {
                Ok(v) => {
                    let sv: i64 = if v >= 0x8000_0000_0000_0000 {
                        (v as i128 - 0x1_0000_0000_0000_0000i128) as i64
                    } else {
                        v as i64
                    };
                    let x = w.from_i64(sv);
                    self.wr_gpr(rd, x);
                    self.advance_pc(4)
                },
                Err(e) => self.raise(e),
            },
            _ => {
                proof {
                    assert(false);
                }
                Flow::Halted
            },
        }
    }

    fn do_sc(&mut self, rd: u8, rs1: u8, rs2: u8, ord: MemOrder, width: MemWidth) -> (f: Flow)
        requires
            old(self).wf(),
            rd < 32,
            rs1 < 32,
            rs2 < 32,
            width == MemWidth::W || (width == MemWidth::D && old(self).w().spec_bits() >= 64),
        ensures
            final(self).wf(),
            sc_post(*old(self), *final(self), rd as int, rs1 as int, rs2 as int, width, f),
    {
        let w = self.fe.isa.xlen;
        let addr = self.rd_gpr(rs1);
        let data = self.rd_gpr(rs2);
        match width {
            MemWidth::W => match self.mem.store_cond32(addr, ord, crate::xlen::to_u32(data)) {
                Ok(code) => {
                    let x = crate::xlen::from_u32(code);
                    self.wr_gpr(rd, x);
                    self.advance_pc(4)
                },
                Err(e) => self.raise(e),
            },
            MemWidth::D => match self.mem.store_cond64(addr, ord, crate::xlen::to_u64(data)) {
                Ok(code) => {
                    let x = crate::xlen::from_u32(code as u32);
                    self.wr_gpr(rd, x);
                    self.advance_pc(4)
                },
                Err(e) => self.raise(e),
            },
            _ => {
                proof {
                    assert(false);
                }
                Flow::Halted
            },
        }
    }

    fn do_amo(&mut self, rd: u8, rs1: u8, rs2: u8, ord: MemOrder, width: MemWidth, op: BinaryOp) -> (f:
        Flow)
        requires
            old(self).wf(),
            rd < 32,
            rs1 < 32,
            rs2 < 32,
            width == MemWidth::W || (width == MemWidth::D && old(self).w().spec_bits() >= 64),
            op.ok_for(Xlen::X32),
            op.ok_for(Xlen::X64),
        ensures
            final(self).wf(),
            amo_post(*old(self), *final(self), rd as int, rs1 as int, rs2 as int, width, op, f),
    {
        proof {
            vstd::arithmetic::power2::lemma2_to64();
            vstd::arithmetic::power2::lemma2_to64_rest();
        }
        let w = self.fe.isa.xlen;
        let addr = self.rd_gpr(rs1);
        let data = self.rd_gpr(rs2);
        match width {
            MemWidth::W => match self.mem.amo32(addr, ord, crate::xlen::to_u32(data), op) {
                Ok(v) => {
                    let sv: i32 = if v >= 0x8000_0000 {
                        (v as i64 - 0x1_0000_0000i64) as i32
                    } else {
                        v as i32
                    };
                    let x = w.from_i32(sv);
                    self.wr_gpr(rd, x);
                    self.advance_pc(4)
                },
                Err(e) => self.raise(e),
            },
            MemWidth::D => match self.mem.amo64(addr, ord, crate::xlen::to_u64(data), op) {
                Ok(v) => {
                    let sv: i64 = if v >= 0x8000_0000_0000_0000 {
                        (v as i128 - 0x1_0000_0000_0000_0000i128) as i64
                    } else {
                        v as i64
                    };
                    let x = w.from_i64(sv);
                    self.wr_gpr(rd, x);
                    self.advance_pc(4)
                },
                Err(e) => self.raise(e),
            },
            _ => {
                proof {
                    assert(false);
                }
                Flow::Halted
            },
        }
    }

    fn do_load_fp(&mut self, rd: u8, rs1: u8, offset: i32, pr: Precision, step: u32) -> (f: Flow)
        requires
            old(self).wf(),
            rd < 32,
            rs1 < 32,
        ensures
            final(self).wf(),
            load_fp_post(*old(self), *final(self), rd as int, rs1 as int, offset, pr, step as int, f),
    {
        let w = self.fe.isa.xlen;
        let base = self.rd_gpr(rs1);
        let addr = w.add_i32(base, offset);
        match pr {
            Precision::S => match self.mem.rd_mem32(addr) {
                Ok(v) => {
                    self.fpu.u32_mv_f32(rd, v);
                    self.advance_pc(step)
                },
                Err(e) => self.raise(e),
            },
            Precision::D => match self.mem.rd_mem64(addr) {
                Ok(v) => {
                    self.fpu.u64_mv_f64(rd, v);
                    self.advance_pc(step)
                },
                Err(e) => self.raise(e),
            },
        }
    }

    fn do_store_fp(&mut self, rs1: u8, rs2: u8, offset: i32, pr: Precision, step: u32) -> (f: Flow)
        requires
            old(self).wf(),
            rs1 < 32,
            rs2 < 32,
        ensures
            final(self).wf(),
            store_fp_post(*old(self), *final(self), rs1 as int, rs2 as int, offset, pr, step as int, f),
    {
        let w = self.fe.isa.xlen;
        let base = self.rd_gpr(rs1);
        let addr = w.add_i32(base, offset);
        let res = match pr {
            Precision::S => {
                let data = self.fpu.f32_mv_u32(rs2);
                self.mem.wr_mem32(addr, data)
            },
            Precision::D => {
                let data = self.fpu.f64_mv_u64(rs2);
                self.mem.wr_mem64(addr, data)
            },
        };
        match res {
            Ok(_) => self.advance_pc(step),
            Err(e) => self.raise(e),
        }
    }
}

impl Instr {
    /// Whether this micro-op belongs to the floating-point families.
    pub open spec fn is_fp(self) -> bool {
        match self {
            Instr::LoadFp(_, _, _, _) | Instr::CLoadFp(_, _, _, _) | Instr::StoreFp(_, _, _, _)
                | Instr::CStoreFp(_, _, _, _) | Instr::FpOp3(_, _, _, _, _, _, _)
                | Instr::FpOp2(_, _, _, _, _, _) | Instr::FpOp(_, _, _, _, _)
                | Instr::FpCvtGp(_, _, _, _, _) | Instr::GpCvtFp(_, _, _, _, _)
                | Instr::FpCmp(_, _, _, _, _) | Instr::FpCvtFp(_, _, _, _, _) => true,
            _ => false,
        }
    }

    /// Executes this micro-op against the hart, delegating floating-point
    /// arithmetic to the host bundle, and reports how control flow left it.
    pub fn exec<F: FpOp>(self, hart: &mut Hart, host: &mut F) -> (f: Flow)
        requires
            old(hart).wf(),
            self.ok_for(old(hart).spec_isa().xlen),
        ensures
            final(hart).wf(),
            exec_post(self, *old(hart), *final(hart), f),
    {
        if is_fp_exec(&self) {
            self.exec_fp(hart, host)
        } else {
            self.exec_int(hart)
        }
    }

    /// Executes the integer, memory, control-flow and system families.
    #[verifier::rlimit(100)]
    #[verifier::spinoff_prover]
    fn exec_int(self, hart: &mut Hart) -> (f: Flow)
        requires
            old(hart).wf(),
            self.ok_for(old(hart).spec_isa().xlen),
            !self.is_fp(),
        ensures
            final(hart).wf(),
            exec_post(self, *old(hart), *final(hart), f),
    {
        let w = hart.fe.isa.xlen;
        match self {
            Instr::Undecoded => {
                proof {
                    assert(false);
                }
                Flow::Halted
            },
            Instr::Nop => hart.advance_pc(4),
            Instr::Trap(e) => hart.raise(e),
            Instr::CTrap(e) => hart.raise(e),
            Instr::OpImm(rd, rs1, imm, op) => {
                let a = hart.rd_gpr(rs1);
                let b = w.from_i32(imm);
                let v = op.exec(w, a, b);
                hart.wr_gpr(rd, v);
                hart.advance_pc(4)
            },
            Instr::COpImm(rd, rs1, imm, op) => {
                let a = hart.rd_gpr(rs1);
                let b = w.from_i32(imm);
                let v = op.exec(w, a, b);
                hart.wr_gpr(rd, v);
                hart.advance_pc(2)
            },
            Instr::Op(rd, rs1, rs2, op) => {
                let a = hart.rd_gpr(rs1);
                let b = hart.rd_gpr(rs2);
                let v = op.exec(w, a, b);
                hart.wr_gpr(rd, v);
                hart.advance_pc(4)
            },
            Instr::COp(rd_rs1, rs2, op) => {
                let a = hart.rd_gpr(rd_rs1);
                let b = hart.rd_gpr(rs2);
                let v = op.exec(w, a, b);
                hart.wr_gpr(rd_rs1, v);
                hart.advance_pc(2)
            },
            Instr::Auipc(rd, imm) => {
                let v = w.add_i32(hart.get_pc(), imm);
                hart.wr_gpr(rd, v);
                hart.advance_pc(4)
            },
            Instr::Load(rd, rs1, offset, width) => hart.do_load(rd, rs1, offset, width, 4),
            Instr::CLoad(rd, rs1, offset, width) => hart.do_load(rd, rs1, offset, width, 2),
            Instr::Store(rs1, rs2, offset, width) => hart.do_store(rs1, rs2, offset, width, 4),
            Instr::CStore(rs1, rs2, offset, width) => hart.do_store(rs1, rs2, offset, width, 2),
            Instr::MiscMem(op) => {
                match op {
                    MiscMemOp::Fence(pred, succ, mode) => {
                        match mode {
                            crate::uop::FenceMode::Normal => self_fence(hart, pred, succ),
                            crate::uop::FenceMode::Tso => hart.mem.fence_tso(),
                        }
                        hart.advance_pc(4)
                    },
                    MiscMemOp::FenceI => {
                        hart.mem.fence_i();
                        hart.fe.cache.flush();
                        hart.advance_pc(4)
                    },
                }
            },
            Instr::Branch(rs1, rs2, offset, cond) => hart.do_branch(rs1, rs2, offset, cond, 4),
            Instr::CBranch(rs1, offset, cond) => hart.do_branch(rs1, 0, offset, cond, 2),
            Instr::Jal(rd, offset) => hart.do_jal(rd, offset, 4),
            Instr::CJal(rd, offset) => hart.do_jal(rd, offset, 2),
            Instr::Jalr(rd, rs1, offset) => hart.do_jalr(rd, rs1, offset, 4),
            Instr::CJalr(rd, rs1) => hart.do_jalr(rd, rs1, 0, 2),
            Instr::Csr(rd, rs1, addr, op) => hart.do_csr(rd, rs1, addr, op),
            Instr::LoadReserved(rd, rs1, ord, width) => hart.do_lr(rd, rs1, ord, width),
            Instr::StoreConditional(rd, rs1, rs2, ord, width) => hart.do_sc(rd, rs1, rs2, ord, width),
            Instr::Amo(rd, rs1, rs2, ord, width, op) => hart.do_amo(rd, rs1, rs2, ord, width, op),
            _ => {
                proof {
                    assert(false);
                }
                Flow::Halted
            },
        }
    }

    /// Executes the floating-point families.
    #[verifier::rlimit(100)]
    #[verifier::spinoff_prover]
    fn exec_fp<F: FpOp>(self, hart: &mut Hart, host: &mut F) -> (f: Flow)
        requires
            old(hart).wf(),
            self.ok_for(old(hart).spec_isa().xlen),
            self.is_fp(),
        ensures
            final(hart).wf(),
            exec_post(self, *old(hart), *final(hart), f),
    {
        let w = hart.fe.isa.xlen;
        match self {
            Instr::LoadFp(rd, rs1, offset, pr) => hart.do_load_fp(rd, rs1, offset, pr, 4),
            Instr::CLoadFp(rd, rs1, offset, pr) => hart.do_load_fp(rd, rs1, offset, pr, 2),
            Instr::StoreFp(rs1, rs2, offset, pr) => hart.do_store_fp(rs1, rs2, offset, pr, 4),
            Instr::CStoreFp(rs1, rs2, offset, pr) => hart.do_store_fp(rs1, rs2, offset, pr, 2),
            Instr::FpOp3(_, _, _, _, _, _, _) => hart.do_fp_reg_op(host, self),
            Instr::FpOp2(_, _, _, _, _, _) => hart.do_fp_reg_op(host, self),
            Instr::FpOp(_, _, _, _, _) => hart.do_fp_reg_op(host, self),
            Instr::FpCvtGp(rd, rs1, rm, pr, op) => hart.do_fp_cvt_gp(host, rd, rs1, rm, pr, op),
            Instr::GpCvtFp(_, _, _, _, _) => hart.do_fp_reg_op(host, self),
            Instr::FpCmp(rd, rs1, rs2, pr, cond) => hart.do_fp_cmp(rd, rs1, rs2, pr, cond),
            Instr::FpCvtFp(_, _, _, _, _) => hart.do_fp_reg_op(host, self),
            _ => {
                proof {
                    assert(false);
                }
                Flow::Halted
            },
        }
    }
}

/// The executable test matching [`Instr::is_fp`].
fn is_fp_exec(i: &Instr) -> (r: bool)
    ensures
        r == i.is_fp(),
{
    match i {
        Instr::LoadFp(_, _, _, _) | Instr::CLoadFp(_, _, _, _) | Instr::StoreFp(_, _, _, _)
            | Instr::CStoreFp(_, _, _, _) | Instr::FpOp3(_, _, _, _, _, _, _)
            | Instr::FpOp2(_, _, _, _, _, _) | Instr::FpOp(_, _, _, _, _)
            | Instr::FpCvtGp(_, _, _, _, _) | Instr::GpCvtFp(_, _, _, _, _)
            | Instr::FpCmp(_, _, _, _, _) | Instr::FpCvtFp(_, _, _, _, _) => true,
        _ => false,
    }
}


impl Hart {
    fn do_fp_reg_op<F: FpOp>(&mut self, host: &mut F, i: Instr) -> (f: Flow)
        requires
            old(self).wf(),
            i.ok_for(old(self).spec_isa().xlen),
            i matches Instr::FpOp3(_, _, _, _, _, _, _) || i matches Instr::FpOp2(
                _,
                _,
                _,
                _,
                _,
                _,
            ) || i matches Instr::FpOp(_, _, _, _, _) || i matches Instr::GpCvtFp(_, _, _, _, _)
                || i matches Instr::FpCvtFp(_, _, _, _, _),
        ensures
            final(self).wf(),
            exec_post(i, *old(self), *final(self), f),
    {
        match i {
            Instr::FpOp3(rd, rs1, rs2, rs3, rm, pr, op3) => {
                match self.set_rt_rm(rm) {
                    Err(fl) => fl,
                    Ok(_) => {
                        self.fpu.ternary_op(host, rd, rs1, rs2, rs3, pr, op3);
                        self.advance_pc(4)
                    },
                }
            },
            Instr::FpOp2(rd, rs1, rs2, rm, pr, op2) => {
                match self.set_rt_rm(rm) {
                    Err(fl) => fl,
                    Ok(_) => {
                        self.fpu.binary_op(host, rd, rs1, rs2, pr, op2);
                        self.advance_pc(4)
                    },
                }
            },
            Instr::FpOp(rd, rs1, rm, pr, _) => {
                match self.set_rt_rm(rm) {
                    Err(fl) => fl,
                    Ok(_) => {
                        self.fpu.unary_op(host, rd, rs1, pr);
                        self.advance_pc(4)
                    },
                }
            },
            Instr::GpCvtFp(rd, rs1, rm, pr, op) => {
                match self.set_rt_rm(rm) {
                    Err(fl) => fl,
                    Ok(_) => {
                        let v = self.rd_gpr(rs1);
                        self.fpu.gp_cvt_fp(host, rd, v, pr, op);
                        self.advance_pc(4)
                    },
                }
            },
            Instr::FpCvtFp(rd, rs1, rm, from, to) => {
                match self.set_rt_rm(rm) {
                    Err(fl) => fl,
                    Ok(_) => {
                        self.fpu.fp_cvt_fp(host, rd, rs1, from, to);
                        self.advance_pc(4)
                    },
                }
            },
            _ => {
                proof {
                    assert(false);
                }
                Flow::Halted
            },
        }
    }

    fn do_fp_cvt_gp<F: FpOp>(
        &mut self,
        host: &mut F,
        rd: u8,
        rs1: u8,
        rm: RoundMode,
        pr: Precision,
        op: FpGpOp,
    ) -> (f: Flow)
        requires
            old(self).wf(),
            rd < 32,
            rs1 < 32,
            (op == FpGpOp::L || op == FpGpOp::LU) ==> old(self).w().spec_bits() >= 64,
            (op == FpGpOp::MV && pr == Precision::D) ==> old(self).w().spec_bits() >= 64,
        ensures
            final(self).wf(),
            fp_cvt_gp_post(*old(self), *final(self), rd as int, rs1 as int, rm, pr, op, f),
    {
        let w = self.fe.isa.xlen;
        match self.set_rt_rm(rm) {
            Err(fl) => fl,
            Ok(_) => {
                let v = self.fpu.fp_cvt_gp(host, rs1, pr, op, w);
                self.wr_gpr(rd, v);
                self.advance_pc(4)
            },
        }
    }

    fn do_fp_cmp(&mut self, rd: u8, rs1: u8, rs2: u8, pr: Precision, cond: FpCmpCond) -> (f: Flow)
        requires
            old(self).wf(),
            rd < 32,
            rs1 < 32,
            rs2 < 32,
        ensures
            final(self).wf(),
            fp_cmp_post(*old(self), *final(self), rd as int, rs1 as int, rs2 as int, pr, cond, f),
    {
        let v = self.fpu.fp_cmp(rs1, rs2, pr, cond);
        let x = crate::xlen::from_u32(v);
        self.wr_gpr(rd, x);
        self.advance_pc(4)
    }
}


/// Every micro-op the 32-bit decode table yields is well formed for the
/// configuration's width: register fields fit the file and the
/// width-conditional forms appear only at the widths that gate them.
#[verifier::rlimit(100)]
#[verifier::spinoff_prover]
pub proof fn lemma_dec32_ok(isa: crate::decode::common::Isa, ins: u32)
    ensures
        crate::decode::dec32::spec_dec32(isa, ins).ok_for(isa.xlen),
{
    vstd::arithmetic::power2::lemma2_to64();
}

/// Every micro-op the compressed decode table yields is well formed for the
/// configuration's width.
#[verifier::rlimit(100)]
#[verifier::spinoff_prover]
pub proof fn lemma_dec16_ok(isa: crate::decode::common::Isa, ins: u16)
    ensures
        crate::decode::dec16::spec_dec16(isa, ins).ok_for(isa.xlen),
{
    vstd::arithmetic::power2::lemma2_to64();
}

/// Conveys a normal fence to the memory collaborator.
fn self_fence(hart: &mut Hart, pred: u8, succ: u8)
    requires
        old(hart).wf(),
    ensures
        *final(hart) == *old(hart),
{
    hart.mem.fence(pred, succ);
}

} // verus!
