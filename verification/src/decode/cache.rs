//! The decoded-op cache: a direct-mapped map from guest program counter to
//! previously decoded micro-op.
//!
//! The cache is advisory: purging any or all entries is always safe, and the
//! memory collaborator is responsible for flushing when stores may have
//! modified fetched code.

use crate::uop::Instr;
use vstd::prelude::*;

verus! {

/// The number of slots; program counters are direct-mapped by halfword
/// index.
pub const UOP_CACHE_SLOTS: usize = 256;

/// A direct-mapped cache of decoded micro-ops, keyed by guest program
/// counter.
pub struct UopCache {
    slots: Vec<Option<(u128, Instr)>>,
}

impl UopCache {
    /// The slot a program counter maps to.
    pub open spec fn slot_of(pc: u128) -> int {
        (pc as int / 2) % (UOP_CACHE_SLOTS as int)
    }

    /// The stored entries.
    pub closed spec fn entries(self) -> Seq<Option<(u128, Instr)>> {
        self.slots@
    }

    /// The cache holds exactly its fixed number of slots.
    pub open spec fn wf(self) -> bool {
        self.entries().len() == UOP_CACHE_SLOTS
    }

    /// The cached micro-op for a program counter, if its slot holds exactly
    /// that address.
    pub open spec fn lookup(self, pc: u128) -> Option<Instr> {
        match self.entries()[UopCache::slot_of(pc)] {
            Some(e) => if e.0 == pc {
                Some(e.1)
            } else {
                None
            },
            None => None,
        }
    }

    /// An empty cache.
    pub fn new() -> (r: UopCache)
        ensures
            r.wf(),
            forall|pc: u128| r.lookup(pc) is None,
            forall|j: int| 0 <= j < UOP_CACHE_SLOTS ==> r.entries()[j] is None,
    {
        let mut slots: Vec<Option<(u128, Instr)>> = Vec::new();
        let mut i: usize = 0;
        while i < UOP_CACHE_SLOTS
            invariant
                i <= UOP_CACHE_SLOTS,
                slots@.len() == i,
                forall|j: int| 0 <= j < i ==> slots@[j] is None,
            decreases UOP_CACHE_SLOTS - i,
        {
            slots.push(None);
            i = i + 1;
        }
        UopCache { slots }
    }

    /// Reads the cached micro-op for a program counter.
    pub fn read(&self, pc: u128) -> (r: Option<Instr>)
        requires
            self.wf(),
        ensures
            r == self.lookup(pc),
    {
        proof {
            vstd::arithmetic::div_mod::lemma_mod_bound(
                pc as int / 2,
                UOP_CACHE_SLOTS as int,
            );
            vstd::arithmetic::div_mod::lemma_div_pos_is_pos(pc as int, 2);
        }
        let idx = ((pc / 2) % (UOP_CACHE_SLOTS as u128)) as usize;
        match self.slots[idx] {
            Some((a, i)) => if a == pc {
                Some(i)
            } else {
                None
            },
            None => None,
        }
    }

    /// Stores a decoded micro-op, evicting whatever shared its slot.
    pub fn insert(&mut self, pc: u128, ins: Instr)
        requires
            old(self).wf(),
        ensures
            final(self).wf(),
            final(self).entries() == old(self).entries().update(
                UopCache::slot_of(pc),
                Some((pc, ins)),
            ),
            final(self).lookup(pc) == Some(ins),
    {
        proof {
            vstd::arithmetic::div_mod::lemma_mod_bound(
                pc as int / 2,
                UOP_CACHE_SLOTS as int,
            );
            vstd::arithmetic::div_mod::lemma_div_pos_is_pos(pc as int, 2);
        }
        let idx = ((pc / 2) % (UOP_CACHE_SLOTS as u128)) as usize;
        self.slots.set(idx, Some((pc, ins)));
    }

    /// Clears every entry: the `fence.i` semantics.
    pub fn flush(&mut self)
        requires
            old(self).wf(),
        ensures
            final(self).wf(),
            forall|pc: u128| final(self).lookup(pc) is None,
            forall|j: int| 0 <= j < UOP_CACHE_SLOTS ==> final(self).entries()[j] is None,
    {
        let mut i: usize = 0;
        while i < UOP_CACHE_SLOTS
            invariant
                i <= UOP_CACHE_SLOTS,
                self.slots@.len() == UOP_CACHE_SLOTS,
                forall|j: int| 0 <= j < i ==> self.slots@[j] is None,
            decreases UOP_CACHE_SLOTS - i,
        {
            self.slots.set(i, None);
            i = i + 1;
        }
    }

    /// Clears the entries of one 4 KiB page: invoked on address-translation
    /// changes.
    pub fn flush_page(&mut self, addr: u128)
        requires
            old(self).wf(),
        ensures
            final(self).wf(),
            forall|pc: u128|
                final(self).lookup(pc) == if pc as int / 4096 == addr as int / 4096 {
                    None
                } else {
                    old(self).lookup(pc)
                },
    {
        let page = addr / 4096;
        let mut i: usize = 0;
        while i < UOP_CACHE_SLOTS
            invariant
                i <= UOP_CACHE_SLOTS,
                self.slots@.len() == UOP_CACHE_SLOTS,
                page == addr as int / 4096,
                forall|j: int|
                    0 <= j < i ==> self.slots@[j] == (match old(self).entries()[j] {
                        Some(e) => if e.0 as int / 4096 == addr as int / 4096 {
                            None
                        } else {
                            Some(e)
                        },
                        None => None::<(u128, Instr)>,
                    }),
                forall|j: int| i <= j < UOP_CACHE_SLOTS ==> self.slots@[j] == old(self).entries()[j],
            decreases UOP_CACHE_SLOTS - i,
        {
            match self.slots[i] {
                Some((a, _)) => {
                    if a / 4096 == page {
                        self.slots.set(i, None);
                    }
                },
                None => {},
            }
            i = i + 1;
        }
    }
}

} // verus!
