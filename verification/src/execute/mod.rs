//! Execution of decoded micro-ops: the integer ALU, the per-instruction
//! dispatcher, and the fetch–decode–execute loop.

pub mod alu;
pub mod dispatch;

use crate::decode::spec_fetch;
use crate::execute::dispatch::exec_post;
use crate::fpu::FpOp;
use crate::hart::Hart;
use crate::uop::{Flow, Instr};
use vstd::prelude::*;

verus! {

/// The state after a successful fetch of micro-op `i`: everything of
/// `prev` is unchanged except the decoded-op cache, which now holds `i` at
/// the program counter (a cache hit leaves it as it was, a miss fills the
/// slot).
pub open spec fn fetched_from(mid: Hart, prev: Hart, i: Instr) -> bool {
    &&& mid.regs() == prev.regs()
    &&& mid.spec_pc() == prev.spec_pc()
    &&& mid.spec_isa() == prev.spec_isa()
    &&& mid.fpu == prev.fpu
    &&& mid.mem == prev.mem
    &&& mid.priv_ctrl == prev.priv_ctrl
    &&& mid.spec_stopped() == prev.spec_stopped()
    &&& mid.wf()
    &&& mid.cache().lookup(prev.spec_pc()) == Some(i)
}

/// What one cycle does: the micro-op the fetch yields is executed from the
/// cache-updated state per [`exec_post`]; a fetch fault raises its
/// exception, which under this crate's trap model records it and halts.
pub open spec fn spec_cycle(prev: Hart, cur: Hart, f: Flow) -> bool {
    match spec_fetch(prev) {
        Ok(i) => exists|mid: Hart|
            #[trigger] fetched_from(mid, prev, i) && exec_post(i, mid, cur, f),
        Err(e) => cur.trapped(prev, e) && f == Flow::Halted,
    }
}

/// What a bounded run does: cycles chained from `prev` to `cur`, stopping
/// as soon as the stop token is set or the fuel is spent — so a final state
/// with the stop token clear has taken every one of the `fuel` cycles, and
/// a hart that starts stopped is untouched.
pub open spec fn spec_run(prev: Hart, cur: Hart, fuel: nat) -> bool
    decreases fuel,
{
    if fuel == 0 || prev.spec_stopped() {
        cur == prev
    } else {
        exists|mid: Hart, f: Flow|
            #[trigger] spec_cycle(prev, mid, f) && spec_run(mid, cur, (fuel - 1) as nat)
    }
}

impl Hart {
    /// One cycle: fetch the micro-op at the program counter (through the
    /// decoded-op cache) and execute it; a fetch fault raises its
    /// exception.
    pub fn exec_cycle<F: FpOp>(&mut self, host: &mut F) -> (f: Flow)
        requires
            old(self).wf(),
        ensures
            final(self).wf(),
            spec_cycle(*old(self), *final(self), f),
    {
        match self.fetch_uop() {
            Ok(i) => {
                let ghost mid = *self;
                let f = i.exec(self, host);
                proof {
                    assert(fetched_from(mid, *old(self), i));
                    assert(exec_post(i, mid, *self, f));
                }
                f
            },
            Err(e) => self.raise(e),
        }
    }

    /// Runs the hart until the stop token is set, or until the given number
    /// of cycles has been spent, polling the token between instructions.
    /// Under this crate's trap model every trap sets the stop token, so a
    /// halting guest stops the loop.
    pub fn run<F: FpOp>(&mut self, host: &mut F, fuel: u64)
        requires
            old(self).wf(),
        ensures
            final(self).wf(),
            spec_run(*old(self), *final(self), fuel as nat),
    {
        let mut left = fuel;
        while left > 0 && !self.stopped()
            invariant
                self.wf(),
                forall|h: Hart|
                    spec_run(*self, h, left as nat) ==> spec_run(
                        *old(self),
                        h,
                        fuel as nat,
                    ),
            decreases left,
        {
            let ghost pre = *self;
            let ghost entry_left = left;
            let f = self.exec_cycle(host);
            left = left - 1;
            proof {
                assert forall|h: Hart| spec_run(*self, h, left as nat) implies spec_run(
                    *old(self),
                    h,
                    fuel as nat,
                ) by {
                    assert(spec_cycle(pre, *self, f));
                    assert(spec_run(pre, h, entry_left as nat));
                }
            }
        }
        proof {
            assert(spec_run(*self, *self, left as nat));
        }
    }
}

} // verus!
