//! The instruction decoder: raw 16- and 32-bit encodings to micro-ops, and
//! the fetch path that feeds them from memory through the decoded-op cache.

pub mod cache;
pub mod common;
pub mod dec16;
pub mod dec32;

use crate::hart::Hart;
use crate::uop::{Exception, Instr, MemProtect};
use vstd::prelude::*;

verus! {

/// The decode front end of a hart: its ISA configuration and the
/// decoded-op cache.
pub struct FrontEnd {
    /// The ISA configuration.
    pub isa: common::Isa,
    /// The decoded-op cache.
    pub cache: cache::UopCache,
}

/// What one fetch at the current program counter yields: a micro-op (cached,
/// or freshly decoded from memory), or the exception the fetch raises.
/// Page and access faults have higher priority than alignment faults, so a
/// misaligned program counter pointing outside memory reports the access
/// fault.
pub open spec fn spec_fetch(h: Hart) -> Result<Instr, Exception> {
    let pc = h.spec_pc();
    match h.cache().lookup(pc) {
        Some(i) => Ok(i),
        None => {
            if pc % 4 == 0 {
                if !h.mem.in_range(pc, 4) {
                    Err(Exception::AccessFault(MemProtect::X))
                } else {
                    let w = crate::mem::le_word(h.mem.bytes(), pc as int, 4);
                    if w % 4 != 3 {
                        if h.spec_isa().c {
                            Ok(dec16::spec_dec16(h.spec_isa(), (w % 0x1_0000) as u16))
                        } else {
                            Ok(Instr::Trap(Exception::IllegalInstr))
                        }
                    } else {
                        Ok(dec32::spec_dec32(h.spec_isa(), w as u32))
                    }
                }
            } else if pc % 2 == 0 && h.spec_isa().c {
                if !h.mem.in_range(pc, 2) {
                    Err(Exception::AccessFault(MemProtect::X))
                } else {
                    let low = crate::mem::le_word(h.mem.bytes(), pc as int, 2);
                    if low % 4 != 3 {
                        Ok(dec16::spec_dec16(h.spec_isa(), low as u16))
                    } else {
                        let hpc = ((pc + 2) % h.w().size()) as u128;
                        if !h.mem.in_range(hpc, 2) {
                            Err(Exception::AccessFault(MemProtect::X))
                        } else {
                            let high = crate::mem::le_word(h.mem.bytes(), hpc as int, 2);
                            Ok(dec32::spec_dec32(h.spec_isa(), (low + high * 0x1_0000) as u32))
                        }
                    }
                }
            } else {
                if h.mem.in_range(pc, 2) {
                    Err(Exception::AddrMisalign(MemProtect::X))
                } else {
                    Err(Exception::AccessFault(MemProtect::X))
                }
            }
        },
    }
}

impl Hart {
    /// Fetches the micro-op at the current program counter: from the
    /// decoded-op cache on a hit, else by reading memory, decoding, and
    /// populating the cache.
    #[verifier::rlimit(60)]
    pub fn fetch_uop(&mut self) -> (r: Result<Instr, Exception>)
        requires
            old(self).wf(),
        ensures
            final(self).wf(),
            r == spec_fetch(*old(self)),
            final(self).regs() == old(self).regs(),
            final(self).spec_pc() == old(self).spec_pc(),
            final(self).spec_stopped() == old(self).spec_stopped(),
            final(self).spec_isa() == old(self).spec_isa(),
            final(self).fpu == old(self).fpu,
            final(self).mem == old(self).mem,
            final(self).priv_ctrl == old(self).priv_ctrl,
            r is Ok ==> final(self).cache().lookup(old(self).spec_pc()) == Some(r->Ok_0),
            r is Ok ==> r->Ok_0.ok_for(old(self).spec_isa().xlen),
            r is Err ==> final(self).cache() == old(self).cache(),
    {
        proof {
            crate::execute::dispatch::lemma_dec32_ok(
                self.fe.isa,
                (crate::mem::le_word(self.mem.bytes(), self.pc as int, 4)) as u32,
            );
            crate::execute::dispatch::lemma_dec16_ok(
                self.fe.isa,
                (crate::mem::le_word(self.mem.bytes(), self.pc as int, 4) % 0x1_0000) as u16,
            );
            crate::execute::dispatch::lemma_dec16_ok(
                self.fe.isa,
                (crate::mem::le_word(self.mem.bytes(), self.pc as int, 2)) as u16,
            );
            crate::execute::dispatch::lemma_dec32_ok(
                self.fe.isa,
                (crate::mem::le_word(self.mem.bytes(), self.pc as int, 2) + crate::mem::le_word(
                    self.mem.bytes(),
                    ((self.pc + 2) % self.fe.isa.xlen.size()) as int,
                    2,
                ) * 0x1_0000) as u32,
            );
        }
        let pc = self.get_pc();
        match self.fe.cache.read(pc) {
            Some(i) => {
                return Ok(i);
            },
            None => {},
        }
        let ins = if pc % 4 == 0 {
            match self.mem.fetch_mem32(pc) {
                Ok(w) => {
                    if w % 4 != 3 {
                        if self.fe.isa.c {
                            self.fe.isa.dec16((w % 0x1_0000) as u16)
                        } else {
                            Instr::Trap(Exception::IllegalInstr)
                        }
                    } else {
                        self.fe.isa.dec32(w)
                    }
                },
                Err(e) => {
                    return Err(e);
                },
            }
        } else if pc % 2 == 0 && self.fe.isa.c {
            match self.mem.fetch_mem16(pc) {
                Ok(low) => {
                    if low % 4 != 3 {
                        self.fe.isa.dec16(low)
                    } else {
                        let hpc = self.fe.isa.xlen.add(pc, 2);
                        match self.mem.fetch_mem16(hpc) {
                            Ok(high) => self.fe.isa.dec32(low as u32 + high as u32 * 0x1_0000),
                            Err(e) => {
                                return Err(e);
                            },
                        }
                    }
                },
                Err(e) => {
                    return Err(e);
                },
            }
        } else {
            match self.mem.fetch_check(pc) {
                Ok(_) => {
                    return Err(Exception::AddrMisalign(MemProtect::X));
                },
                Err(e) => {
                    return Err(e);
                },
            }
        };
        self.fe.cache.insert(pc, ins);
        Ok(ins)
    }
}

} // verus!
