//! The privilege collaborator, in the minimal user-mode trap model this
//! crate ships: every raised exception records its kind and halts the hart,
//! and the only control-and-status registers are the floating-point `fflags`
//! (address 1), `frm` (address 2) and `fcsr` (address 3); any other CSR
//! address is an illegal instruction.

use crate::fpu::FpExcept;
use crate::hart::Hart;
use crate::uop::{CsrOp, Exception, Flow, RoundMode};
use crate::xlen::wf;
use vstd::prelude::*;

verus! {

/// The privilege state of the hart: under this crate's trap model, the
/// exception that halted it, if any.
#[derive(Debug, Clone, Copy, PartialEq, Eq, Structural)]
pub struct PrivCtrl {
    /// The first exception raised, recorded when the hart halts.
    pub trap: Option<Exception>,
}

/// The `frm` CSR encoding of a rounding mode; the unset or invalid dynamic
/// mode reads back as one of the reserved codes.
pub open spec fn spec_rm_bits(rm: RoundMode) -> int {
    match rm {
        RoundMode::Rne => 0,
        RoundMode::Rtz => 1,
        RoundMode::Rdn => 2,
        RoundMode::Rup => 3,
        RoundMode::Rmm => 4,
        RoundMode::Dyn => 7,
        RoundMode::NoRm => 7,
    }
}

/// The rounding mode a CSR-written `frm` value selects; the reserved codes
/// leave the dynamic mode unset.
pub open spec fn spec_bits_rm(bits: int) -> RoundMode {
    if bits == 0 {
        RoundMode::Rne
    } else if bits == 1 {
        RoundMode::Rtz
    } else if bits == 2 {
        RoundMode::Rdn
    } else if bits == 3 {
        RoundMode::Rup
    } else if bits == 4 {
        RoundMode::Rmm
    } else {
        RoundMode::NoRm
    }
}

fn rm_bits(rm: RoundMode) -> (r: u8)
    ensures
        r == spec_rm_bits(rm),
{
    match rm {
        RoundMode::Rne => 0,
        RoundMode::Rtz => 1,
        RoundMode::Rdn => 2,
        RoundMode::Rup => 3,
        RoundMode::Rmm => 4,
        RoundMode::Dyn => 7,
        RoundMode::NoRm => 7,
    }
}

fn bits_rm(bits: u8) -> (r: RoundMode)
    ensures
        r == spec_bits_rm(bits as int),
{
    match bits {
        0 => RoundMode::Rne,
        1 => RoundMode::Rtz,
        2 => RoundMode::Rdn,
        3 => RoundMode::Rup,
        4 => RoundMode::Rmm,
        _ => RoundMode::NoRm,
    }
}

impl Hart {
    /// The hart with a trap recorded and the stop token set, all else
    /// unchanged.
    pub open spec fn trapped(self, prev: Hart, e: Exception) -> bool {
        &&& self.regs() == prev.regs()
        &&& self.spec_pc() == prev.spec_pc()
        &&& self.spec_isa() == prev.spec_isa()
        &&& self.cache() == prev.cache()
        &&& self.fpu == prev.fpu
        &&& self.mem == prev.mem
        &&& self.spec_stopped()
        &&& self.priv_ctrl.trap == Some(e)
    }

    /// Raises an architectural exception.  Under this crate's trap model
    /// the exception is recorded and the hart halts; the dispatch loop
    /// yields the halted control-flow signal.
    pub fn raise(&mut self, reason: Exception) -> (f: Flow)
        requires
            old(self).wf(),
        ensures
            final(self).wf(),
            f == Flow::Halted,
            final(self).trapped(*old(self), reason),
    {
        self.priv_ctrl.trap = Some(reason);
        self.stop_tok = true;
        Flow::Halted
    }

    /// A CSR read-write: returns the old value of the register and replaces
    /// it, for the three floating-point CSRs; any other address is an
    /// illegal instruction.
    pub fn csr_wr(&mut self, addr: u16, val: u128) -> (r: Result<u128, Exception>)
        requires
            old(self).wf(),
        ensures
            final(self).wf(),
            final(self).regs() == old(self).regs(),
            final(self).spec_pc() == old(self).spec_pc(),
            final(self).spec_stopped() == old(self).spec_stopped(),
            final(self).spec_isa() == old(self).spec_isa(),
            final(self).cache() == old(self).cache(),
            final(self).mem == old(self).mem,
            final(self).priv_ctrl == old(self).priv_ctrl,
            final(self).fpu.regs() == old(self).fpu.regs(),
            final(self).fpu.eff_mode() == old(self).fpu.eff_mode(),
            r is Ok <==> (addr == 1 || addr == 2 || addr == 3),
            r is Err ==> r->Err_0 == Exception::IllegalInstr && final(self).fpu == old(self).fpu,
            addr == 1 ==> r == Result::<u128, Exception>::Ok(
                old(self).fpu.flags().spec_as_u8() as u128,
            ) && final(self).fpu.flags() == FpExcept::spec_from_bits(val as int % 32) && final(self).fpu.dyn_mode() == old(self).fpu.dyn_mode(),
            addr == 2 ==> r == Result::<u128, Exception>::Ok(
                spec_rm_bits(old(self).fpu.dyn_mode()) as u128,
            ) && final(self).fpu.dyn_mode() == spec_bits_rm(val as int % 8) && final(self).fpu.flags() == old(self).fpu.flags(),
            addr == 3 ==> r == Result::<u128, Exception>::Ok(
                (old(self).fpu.flags().spec_as_u8() + spec_rm_bits(old(self).fpu.dyn_mode()) * 32)
                    as u128,
            ) && final(self).fpu.flags() == FpExcept::spec_from_bits(val as int % 32) && final(self).fpu.dyn_mode() == spec_bits_rm((val as int / 32) % 8),
    {
        proof {
            vstd::arithmetic::div_mod::lemma_mod_bound(val as int, 32);
            vstd::arithmetic::div_mod::lemma_mod_bound(val as int, 8);
            vstd::arithmetic::div_mod::lemma_mod_bound(val as int / 32, 8);
            vstd::arithmetic::div_mod::lemma_div_pos_is_pos(val as int, 32);
        }
        match addr {
            1 => {
                let oldv = self.fpu.get_fpe().as_u8();
                self.fpu.clr_all_fpe();
                self.fpu.set_fpe(FpExcept::from_bits((val % 32) as u8));
                Ok(oldv as u128)
            },
            2 => {
                let oldv = rm_bits(self.fpu.get_dyn_rm());
                self.fpu.set_dyn_rm(bits_rm((val % 8) as u8));
                Ok(oldv as u128)
            },
            3 => {
                let oldv = self.fpu.get_fpe().as_u8() as u128 + rm_bits(self.fpu.get_dyn_rm())
                    as u128 * 32;
                self.fpu.clr_all_fpe();
                self.fpu.set_fpe(FpExcept::from_bits((val % 32) as u8));
                self.fpu.set_dyn_rm(bits_rm(((val / 32) % 8) as u8));
                Ok(oldv)
            },
            _ => Err(Exception::IllegalInstr),
        }
    }

    /// A CSR read-set: returns the old value and sets the given bits; a
    /// zero mask performs no write, so read-sensitive registers see a pure
    /// read.
    pub fn csr_set(&mut self, addr: u16, mask: u128) -> (r: Result<u128, Exception>)
        requires
            old(self).wf(),
        ensures
            final(self).wf(),
            final(self).regs() == old(self).regs(),
            final(self).spec_pc() == old(self).spec_pc(),
            final(self).spec_stopped() == old(self).spec_stopped(),
            final(self).spec_isa() == old(self).spec_isa(),
            final(self).cache() == old(self).cache(),
            final(self).mem == old(self).mem,
            final(self).priv_ctrl == old(self).priv_ctrl,
            final(self).fpu.regs() == old(self).fpu.regs(),
            final(self).fpu.eff_mode() == old(self).fpu.eff_mode(),
            r is Ok <==> (addr == 1 || addr == 2 || addr == 3),
            r is Err ==> r->Err_0 == Exception::IllegalInstr && final(self).fpu == old(self).fpu,
            addr == 1 ==> r == Result::<u128, Exception>::Ok(
                old(self).fpu.flags().spec_as_u8() as u128,
            ) && final(self).fpu.flags() == old(self).fpu.flags().spec_union(
                FpExcept::spec_from_bits(mask as int % 32),
            ) && final(self).fpu.dyn_mode() == old(self).fpu.dyn_mode(),
            addr == 2 ==> r == Result::<u128, Exception>::Ok(
                spec_rm_bits(old(self).fpu.dyn_mode()) as u128,
            ) && final(self).fpu.flags() == old(self).fpu.flags(),
            addr == 2 && mask != 0 ==> final(self).fpu.dyn_mode() == spec_bits_rm(
                ((spec_rm_bits(old(self).fpu.dyn_mode()) as u8) | ((mask as int % 8) as u8)) as int,
            ),
            addr == 3 ==> r == Result::<u128, Exception>::Ok(
                (old(self).fpu.flags().spec_as_u8() + spec_rm_bits(old(self).fpu.dyn_mode()) * 32)
                    as u128,
            ),
            addr == 3 && mask != 0 ==> final(self).fpu.flags() == old(self).fpu.flags().spec_union(
                FpExcept::spec_from_bits(mask as int % 32),
            ) && final(self).fpu.dyn_mode() == spec_bits_rm(
                ((spec_rm_bits(old(self).fpu.dyn_mode()) as u8) | (((mask as int / 32) % 8) as u8))
                    as int,
            ),
            mask == 0 ==> final(self).fpu == old(self).fpu,
    {
        proof {
            vstd::arithmetic::div_mod::lemma_mod_bound(mask as int, 32);
            vstd::arithmetic::div_mod::lemma_mod_bound(mask as int, 8);
            vstd::arithmetic::div_mod::lemma_mod_bound(mask as int / 32, 8);
            vstd::arithmetic::div_mod::lemma_div_pos_is_pos(mask as int, 32);
        }
        match addr {
            1 => {
                let oldv = self.fpu.get_fpe().as_u8();
                if mask != 0 {
                    self.fpu.set_fpe(FpExcept::from_bits((mask % 32) as u8));
                }
                proof {
                    if mask == 0 {
                        assert(old(self).fpu.flags().spec_union(
                            FpExcept::spec_from_bits(mask as int % 32),
                        ) == old(self).fpu.flags());
                    }
                }
                Ok(oldv as u128)
            },
            2 => {
                let oldv = rm_bits(self.fpu.get_dyn_rm());
                if mask != 0 {
                    let cur = rm_bits(self.fpu.get_dyn_rm());
                    let merged = cur | (mask % 8) as u8;
                    self.fpu.set_dyn_rm(bits_rm(merged));
                }
                Ok(oldv as u128)
            },
            3 => {
                let oldv = self.fpu.get_fpe().as_u8() as u128 + rm_bits(self.fpu.get_dyn_rm())
                    as u128 * 32;
                if mask != 0 {
                    self.fpu.set_fpe(FpExcept::from_bits((mask % 32) as u8));
                    let cur = rm_bits(self.fpu.get_dyn_rm());
                    let merged = cur | ((mask / 32) % 8) as u8;
                    self.fpu.set_dyn_rm(bits_rm(merged));
                }
                Ok(oldv)
            },
            _ => Err(Exception::IllegalInstr),
        }
    }

    /// A CSR read-clear: returns the old value and clears the given bits; a
    /// zero mask performs no write.
    pub fn csr_clr(&mut self, addr: u16, mask: u128) -> (r: Result<u128, Exception>)
        requires
            old(self).wf(),
        ensures
            final(self).wf(),
            final(self).regs() == old(self).regs(),
            final(self).spec_pc() == old(self).spec_pc(),
            final(self).spec_stopped() == old(self).spec_stopped(),
            final(self).spec_isa() == old(self).spec_isa(),
            final(self).cache() == old(self).cache(),
            final(self).mem == old(self).mem,
            final(self).priv_ctrl == old(self).priv_ctrl,
            final(self).fpu.regs() == old(self).fpu.regs(),
            final(self).fpu.eff_mode() == old(self).fpu.eff_mode(),
            r is Ok <==> (addr == 1 || addr == 2 || addr == 3),
            r is Err ==> r->Err_0 == Exception::IllegalInstr && final(self).fpu == old(self).fpu,
            addr == 1 ==> r == Result::<u128, Exception>::Ok(
                old(self).fpu.flags().spec_as_u8() as u128,
            ) && final(self).fpu.flags() == old(self).fpu.flags().spec_minus(
                FpExcept::spec_from_bits(mask as int % 32),
            ) && final(self).fpu.dyn_mode() == old(self).fpu.dyn_mode(),
            addr == 2 ==> r == Result::<u128, Exception>::Ok(
                spec_rm_bits(old(self).fpu.dyn_mode()) as u128,
            ) && final(self).fpu.flags() == old(self).fpu.flags(),
            addr == 2 && mask != 0 ==> final(self).fpu.dyn_mode() == spec_bits_rm(
                ((spec_rm_bits(old(self).fpu.dyn_mode()) as u8) & !((mask as int % 8) as u8)) as int,
            ),
            addr == 3 ==> r == Result::<u128, Exception>::Ok(
                (old(self).fpu.flags().spec_as_u8() + spec_rm_bits(old(self).fpu.dyn_mode()) * 32)
                    as u128,
            ),
            addr == 3 && mask != 0 ==> final(self).fpu.flags() == old(self).fpu.flags().spec_minus(
                FpExcept::spec_from_bits(mask as int % 32),
            ) && final(self).fpu.dyn_mode() == spec_bits_rm(
                ((spec_rm_bits(old(self).fpu.dyn_mode()) as u8) & !(((mask as int / 32) % 8) as u8))
                    as int,
            ),
            mask == 0 ==> final(self).fpu == old(self).fpu,
    {
        proof {
            vstd::arithmetic::div_mod::lemma_mod_bound(mask as int, 32);
            vstd::arithmetic::div_mod::lemma_mod_bound(mask as int, 8);
            vstd::arithmetic::div_mod::lemma_mod_bound(mask as int / 32, 8);
            vstd::arithmetic::div_mod::lemma_div_pos_is_pos(mask as int, 32);
        }
        match addr {
            1 => {
                let oldv = self.fpu.get_fpe().as_u8();
                if mask != 0 {
                    self.fpu.clr_fpe(FpExcept::from_bits((mask % 32) as u8));
                }
                proof {
                    if mask == 0 {
                        assert(old(self).fpu.flags().spec_minus(
                            FpExcept::spec_from_bits(mask as int % 32),
                        ) == old(self).fpu.flags());
                    }
                }
                Ok(oldv as u128)
            },
            2 => {
                let oldv = rm_bits(self.fpu.get_dyn_rm());
                if mask != 0 {
                    let cur = rm_bits(self.fpu.get_dyn_rm());
                    let cleared = clear_bits(cur, (mask % 8) as u8);
                    self.fpu.set_dyn_rm(bits_rm(cleared));
                }
                Ok(oldv as u128)
            },
            3 => {
                let oldv = self.fpu.get_fpe().as_u8() as u128 + rm_bits(self.fpu.get_dyn_rm())
                    as u128 * 32;
                if mask != 0 {
                    self.fpu.clr_fpe(FpExcept::from_bits((mask % 32) as u8));
                    let cur = rm_bits(self.fpu.get_dyn_rm());
                    let cleared = clear_bits(cur, ((mask / 32) % 8) as u8);
                    self.fpu.set_dyn_rm(bits_rm(cleared));
                }
                Ok(oldv)
            },
            _ => Err(Exception::IllegalInstr),
        }
    }
}

/// The sticky flags after a CSR access of the given kind at the given
/// address with the given source value: `frm` accesses leave them alone, a
/// read-write replaces them from the value's low five bits, and read-set
/// and read-clear with a nonzero source join respectively remove those
/// bits (a zero source performs no write).
pub open spec fn spec_csr_flags(old_fl: FpExcept, op: CsrOp, addr: int, val: int) -> FpExcept {
    if addr == 2 {
        old_fl
    } else {
        match op {
            CsrOp::Rw | CsrOp::Rwi => FpExcept::spec_from_bits(val % 32),
            CsrOp::Rs | CsrOp::Rsi => if val == 0 {
                old_fl
            } else {
                old_fl.spec_union(FpExcept::spec_from_bits(val % 32))
            },
            CsrOp::Rc | CsrOp::Rci => if val == 0 {
                old_fl
            } else {
                old_fl.spec_minus(FpExcept::spec_from_bits(val % 32))
            },
        }
    }
}

/// The dynamic rounding-mode register after a CSR access: `fflags`
/// accesses leave it alone; `frm` and `fcsr` accesses write, set or clear
/// its three-bit encoding (a zero source performs no write), and the
/// resulting encoding selects the mode, reserved codes unsetting it.
pub open spec fn spec_csr_rm(old_rm: RoundMode, op: CsrOp, addr: int, val: int) -> RoundMode {
    if addr == 1 {
        old_rm
    } else {
        let bits = if addr == 2 {
            val % 8
        } else {
            (val / 32) % 8
        };
        match op {
            CsrOp::Rw | CsrOp::Rwi => spec_bits_rm(bits),
            CsrOp::Rs | CsrOp::Rsi => if val == 0 {
                old_rm
            } else {
                spec_bits_rm(((spec_rm_bits(old_rm) as u8) | (bits as u8)) as int)
            },
            CsrOp::Rc | CsrOp::Rci => if val == 0 {
                old_rm
            } else {
                spec_bits_rm(((spec_rm_bits(old_rm) as u8) & !(bits as u8)) as int)
            },
        }
    }
}

/// The bits of `v` that are not in `mask`.
fn clear_bits(v: u8, mask: u8) -> (r: u8)
    ensures
        r == (v & !mask),
{
    v & !mask
}

} // verus!
