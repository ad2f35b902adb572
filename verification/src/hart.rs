//! The hart: the whole machine state of one hardware thread.

use crate::decode::cache::UopCache;
use crate::decode::common::Isa;
use crate::decode::FrontEnd;
use crate::fpu::Fpu;
use crate::mem::Mem;
use crate::privilege::PrivCtrl;
use crate::uop::Flow;
use crate::xlen::{wf, Xlen};
use vstd::prelude::*;

verus! {

/// The state of a hart: 32 general-purpose registers of width XLEN (index 0
/// reads as zero and ignores writes), the program counter, the
/// floating-point unit, the decode front end, and the memory and privilege
/// collaborators.
pub struct Hart {
    /// The general-purpose registers; use the accessors to honor the
    /// zero-register and well-formedness rules.
    pub gprs: Vec<u128>,
    /// The floating-point unit.
    pub fpu: Fpu,
    /// The decode front end.
    pub fe: FrontEnd,
    /// The memory collaborator.
    pub mem: Mem,
    /// The privilege collaborator.
    pub priv_ctrl: PrivCtrl,
    /// The program counter.
    pub pc: u128,
    /// The cooperative stop token.
    pub stop_tok: bool,
}

impl Hart {
    /// The register width the hart was built with.
    pub open spec fn w(self) -> Xlen {
        self.fe.isa.xlen
    }

    /// The ISA configuration.
    pub open spec fn spec_isa(self) -> Isa {
        self.fe.isa
    }

    /// The general-purpose register file.
    pub open spec fn regs(self) -> Seq<u128> {
        self.gprs@
    }

    /// The program counter.
    pub open spec fn spec_pc(self) -> u128 {
        self.pc
    }

    /// The cooperative stop token.
    pub open spec fn spec_stopped(self) -> bool {
        self.stop_tok
    }

    /// The decoded-op cache.
    pub open spec fn cache(self) -> UopCache {
        self.fe.cache
    }

    /// The hart invariant: 32 well-formed registers with the zero register
    /// hard-wired, a well-formed program counter, and well-formed
    /// floating-point and cache state.
    pub open spec fn wf(self) -> bool {
        &&& self.regs().len() == 32
        &&& self.regs()[0] == 0
        &&& forall|i: int| 0 <= i < 32 ==> wf(self.w(), #[trigger] self.regs()[i])
        &&& wf(self.w(), self.spec_pc())
        &&& self.fpu.wf()
        &&& self.cache().wf()
        &&& forall|j: int|
            0 <= j < self.cache().entries().len() ==> (#[trigger] self.cache().entries()[j]
                matches Some(e) ==> e.1.ok_for(self.w()))
    }

    /// A fresh hart under the given configuration: zeroed registers,
    /// program counter zero, no memory region, no trap, not stopped.
    pub fn new(isa: Isa) -> (r: Hart)
        ensures
            r.wf(),
            r.spec_isa() == isa,
            r.regs() =~= Seq::new(32, |i: int| 0u128),
            r.spec_pc() == 0,
            !r.spec_stopped(),
            !r.mem.has_region(),
            r.priv_ctrl.trap is None,
    {
        let mut gprs: Vec<u128> = Vec::new();
        let mut i: usize = 0;
        while i < 32
            invariant
                i <= 32,
                gprs@.len() == i,
                forall|j: int| 0 <= j < i ==> gprs@[j] == 0u128,
            decreases 32 - i,
        {
            gprs.push(0);
            i = i + 1;
        }
        Hart {
            gprs,
            fpu: Fpu::new(),
            fe: FrontEnd { isa, cache: UopCache::new() },
            mem: Mem::new(),
            priv_ctrl: PrivCtrl { trap: None },
            pc: 0,
            stop_tok: false,
        }
    }

    /// The ISA configuration the hart decodes under.
    pub fn isa(&self) -> (r: Isa)
        ensures
            r == self.spec_isa(),
    {
        self.fe.isa
    }

    /// Reads a general-purpose register; register 0 reads as zero.
    pub fn rd_gpr(&self, r: u8) -> (v: u128)
        requires
            self.wf(),
            r < 32,
        ensures
            v == self.regs()[r as int],
            wf(self.w(), v),
    {
        self.gprs[r as usize]
    }

    /// Writes a general-purpose register; a write to register 0 is
    /// discarded.
    pub fn wr_gpr(&mut self, r: u8, v: u128)
        requires
            old(self).wf(),
            r < 32,
            wf(old(self).w(), v),
        ensures
            final(self).wf(),
            final(self).regs() == if r == 0 {
                old(self).regs()
            } else {
                old(self).regs().update(r as int, v)
            },
            final(self).spec_pc() == old(self).spec_pc(),
            final(self).spec_stopped() == old(self).spec_stopped(),
            final(self).spec_isa() == old(self).spec_isa(),
            final(self).cache() == old(self).cache(),
            final(self).fpu == old(self).fpu,
            final(self).mem == old(self).mem,
            final(self).priv_ctrl == old(self).priv_ctrl,
    {
        if r != 0 {
            self.gprs.set(r as usize, v);
        }
    }

    /// The current program counter.
    pub fn get_pc(&self) -> (r: u128)
        requires
            self.wf(),
        ensures
            r == self.spec_pc(),
            wf(self.w(), r),
    {
        self.pc
    }

    /// Redirects the program counter.
    pub fn set_pc(&mut self, addr: u128) -> (f: Flow)
        requires
            old(self).wf(),
            wf(old(self).w(), addr),
        ensures
            final(self).wf(),
            f == Flow::Redirected,
            final(self).spec_pc() == addr,
            final(self).regs() == old(self).regs(),
            final(self).spec_stopped() == old(self).spec_stopped(),
            final(self).spec_isa() == old(self).spec_isa(),
            final(self).cache() == old(self).cache(),
            final(self).fpu == old(self).fpu,
            final(self).mem == old(self).mem,
            final(self).priv_ctrl == old(self).priv_ctrl,
    {
        self.pc = addr;
        Flow::Redirected
    }

    /// Whether the stop token is set.
    pub fn stopped(&self) -> (r: bool)
        ensures
            r == self.spec_stopped(),
    {
        self.stop_tok
    }
}

} // verus!
