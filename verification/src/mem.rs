//! The memory collaborator: a flat little-endian byte region with
//! single-hart load-reserved/store-conditional support.
//!
//! A hart built without a region faults on every access.  Reads and writes
//! of each width are bounds-checked; an access outside the region is an
//! access fault of the corresponding protection class.  Fences are
//! satisfied trivially by this in-order, single-hart model.

use crate::uop::{BinaryOp, Exception, MemOrder, MemProtect};
use crate::xlen::Xlen;
use vstd::prelude::*;

verus! {

/// The little-endian value of the `n` bytes of `s` starting at `addr`.
pub open spec fn le_word(s: Seq<u8>, addr: int, n: int) -> int
    decreases n,
{
    if n <= 0 {
        0
    } else {
        s[addr] + 256 * le_word(s, addr + 1, n - 1)
    }
}

/// The sequence `s` with the little-endian encoding of `v` written as `n`
/// bytes starting at `addr`.
pub open spec fn le_stored(s: Seq<u8>, addr: int, n: int, v: int) -> Seq<u8>
    decreases n,
{
    if n <= 0 {
        s
    } else {
        le_stored(s.update(addr, (v % 256) as u8), addr + 1, n - 1, v / 256)
    }
}

/// A little-endian word of at most eight bytes is bounded by the width it
/// was read at.
proof fn lemma_le_word_bound(s: Seq<u8>, addr: int, n: int)
    ensures
        0 <= le_word(s, addr, n),
        n <= 1 ==> le_word(s, addr, n) < 0x100,
        n <= 2 ==> le_word(s, addr, n) < 0x1_0000,
        n <= 3 ==> le_word(s, addr, n) < 0x100_0000,
        n <= 4 ==> le_word(s, addr, n) < 0x1_0000_0000,
        n <= 5 ==> le_word(s, addr, n) < 0x100_0000_0000,
        n <= 6 ==> le_word(s, addr, n) < 0x1_0000_0000_0000,
        n <= 7 ==> le_word(s, addr, n) < 0x100_0000_0000_0000,
        n <= 8 ==> le_word(s, addr, n) < 0x1_0000_0000_0000_0000,
    decreases n,
{
    if n > 0 {
        lemma_le_word_bound(s, addr + 1, n - 1);
    }
}

/// The memory subsystem: an optional flat byte region, loaded at address
/// zero, and the current load-reservation address.
pub struct Mem {
    region: Option<Vec<u8>>,
    rsrv: Option<u128>,
}

impl Mem {
    /// Whether a backing region exists.
    pub closed spec fn has_region(self) -> bool {
        self.region is Some
    }

    /// The bytes of the region.
    pub closed spec fn bytes(self) -> Seq<u8> {
        self.region->0@
    }

    /// The current reservation address, if a load-reserved is outstanding.
    pub closed spec fn reservation(self) -> Option<u128> {
        self.rsrv
    }

    /// Whether `n` bytes starting at `addr` lie inside the region.
    pub open spec fn in_range(self, addr: u128, n: int) -> bool {
        self.has_region() && addr + n <= self.bytes().len()
    }

    /// A memory with no region: every access faults.
    pub fn new() -> (r: Mem)
        ensures
            !r.has_region(),
            r.reservation() is None,
    {
        Mem { region: None, rsrv: None }
    }

    /// A memory backed by the given byte region.
    pub fn with_region(data: Vec<u8>) -> (r: Mem)
        ensures
            r.has_region(),
            r.bytes() == data@,
            r.reservation() is None,
    {
        Mem { region: Some(data), rsrv: None }
    }

    /// Reads an `n`-byte little-endian word, `None` when out of range.
    fn rd_raw(&self, addr: u128, n: usize) -> (r: Option<u64>)
        requires
            1 <= n <= 8,
        ensures
            r is Some <==> self.in_range(addr, n as int),
            r is Some ==> r->0 == le_word(self.bytes(), addr as int, n as int),
    {
        match &self.region {
            Some(data) => {
                let len128 = data.len() as u128;
                if len128 < n as u128 || addr > len128 - n as u128 {
                    None
                } else {
                    let base = addr as usize;
                    let mut v: u64 = 0;
                    let mut i: usize = n;
                    while i > 0
                        invariant
                            i <= n <= 8,
                            base == addr,
                            base + n <= data.len(),
                            self.region == Some(*data),
                            v == le_word(data@, base + i, (n - i) as int),
                            v < 0x1_0000_0000_0000_0000,
                        decreases i,
                    {
                        proof {
                            lemma_le_word_bound(data@, base + i - 1, (n - i + 1) as int);
                            lemma_le_word_bound(data@, base + i, (n - i) as int);
                        }
                        i = i - 1;
                        v = v * 256 + data[base + i] as u64;
                    }
                    Some(v)
                }
            },
            None => None,
        }
    }

    /// Writes an `n`-byte little-endian word, `None` when out of range; the
    /// memory is unchanged on a failed write.
    fn wr_raw(&mut self, addr: u128, n: usize, v: u64) -> (r: Option<()>)
        requires
            1 <= n <= 8,
        ensures
            r is Some <==> old(self).in_range(addr, n as int),
            r is Some ==> final(self).has_region() && final(self).bytes() == le_stored(
                old(self).bytes(),
                addr as int,
                n as int,
                v as int,
            ),
            r is None ==> *final(self) == *old(self),
            final(self).reservation() == old(self).reservation(),
    {
        match &mut self.region {
            Some(data) => {
                let len128 = data.len() as u128;
                if len128 < n as u128 || addr > len128 - n as u128 {
                    None
                } else {
                    let base = addr as usize;
                    let mut w: u64 = v;
                    let mut i: usize = 0;
                    proof {
                        lemma_le_word_bound(Seq::<u8>::empty(), 0, 0);
                    }
                    while i < n
                        invariant
                            i <= n <= 8,
                            base == addr,
                            base + n <= data.len(),
                            le_stored(data@, base + i, (n - i) as int, w as int) == le_stored(
                                old(self).bytes(),
                                base as int,
                                n as int,
                                v as int,
                            ),
                            data@.len() == old(self).bytes().len(),
                        decreases n - i,
                    {
                        data.set(base + i, (w % 256) as u8);
                        w = w / 256;
                        i = i + 1;
                    }
                    Some(())
                }
            },
            None => None,
        }
    }

    /// Reads a byte.
    pub fn rd_mem8(&self, addr: u128) -> (r: Result<u8, Exception>)
        ensures
            r is Ok <==> self.in_range(addr, 1),
            r is Ok ==> r->Ok_0 == le_word(self.bytes(), addr as int, 1),
            r is Err ==> r->Err_0 == Exception::AccessFault(MemProtect::R),
    {
        proof {
            lemma_le_word_bound(self.bytes(), addr as int, 1);
        }
        match self.rd_raw(addr, 1) {
            Some(v) => Ok(v as u8),
            None => Err(Exception::AccessFault(MemProtect::R)),
        }
    }

    /// Reads a halfword.
    pub fn rd_mem16(&self, addr: u128) -> (r: Result<u16, Exception>)
        ensures
            r is Ok <==> self.in_range(addr, 2),
            r is Ok ==> r->Ok_0 == le_word(self.bytes(), addr as int, 2),
            r is Err ==> r->Err_0 == Exception::AccessFault(MemProtect::R),
    {
        proof {
            lemma_le_word_bound(self.bytes(), addr as int, 2);
            lemma_le_word_bound(self.bytes(), addr as int, 2);
        }
        match self.rd_raw(addr, 2) {
            Some(v) => Ok(v as u16),
            None => Err(Exception::AccessFault(MemProtect::R)),
        }
    }

    /// Reads a word.
    pub fn rd_mem32(&self, addr: u128) -> (r: Result<u32, Exception>)
        ensures
            r is Ok <==> self.in_range(addr, 4),
            r is Ok ==> r->Ok_0 == le_word(self.bytes(), addr as int, 4),
            r is Err ==> r->Err_0 == Exception::AccessFault(MemProtect::R),
    {
        proof {
            lemma_le_word_bound(self.bytes(), addr as int, 4);
        }
        match self.rd_raw(addr, 4) {
            Some(v) => Ok(v as u32),
            None => Err(Exception::AccessFault(MemProtect::R)),
        }
    }

    /// Reads a double word.
    pub fn rd_mem64(&self, addr: u128) -> (r: Result<u64, Exception>)
        ensures
            r is Ok <==> self.in_range(addr, 8),
            r is Ok ==> r->Ok_0 == le_word(self.bytes(), addr as int, 8),
            r is Err ==> r->Err_0 == Exception::AccessFault(MemProtect::R),
    {
        match self.rd_raw(addr, 8) {
            Some(v) => Ok(v),
            None => Err(Exception::AccessFault(MemProtect::R)),
        }
    }

    /// Writes a byte.
    pub fn wr_mem8(&mut self, addr: u128, data: u8) -> (r: Result<(), Exception>)
        ensures
            r is Ok <==> old(self).in_range(addr, 1),
            r is Ok ==> final(self).bytes() == le_stored(
                old(self).bytes(),
                addr as int,
                1,
                data as int,
            ) && final(self).has_region(),
            r is Err ==> *final(self) == *old(self) && r->Err_0 == Exception::AccessFault(
                MemProtect::W,
            ),
            final(self).reservation() == old(self).reservation(),
    {
        match self.wr_raw(addr, 1, data as u64) {
            Some(_) => Ok(()),
            None => Err(Exception::AccessFault(MemProtect::W)),
        }
    }

    /// Writes a halfword.
    pub fn wr_mem16(&mut self, addr: u128, data: u16) -> (r: Result<(), Exception>)
        ensures
            r is Ok <==> old(self).in_range(addr, 2),
            r is Ok ==> final(self).bytes() == le_stored(
                old(self).bytes(),
                addr as int,
                2,
                data as int,
            ) && final(self).has_region(),
            r is Err ==> *final(self) == *old(self) && r->Err_0 == Exception::AccessFault(
                MemProtect::W,
            ),
            final(self).reservation() == old(self).reservation(),
    {
        match self.wr_raw(addr, 2, data as u64) {
            Some(_) => Ok(()),
            None => Err(Exception::AccessFault(MemProtect::W)),
        }
    }

    /// Writes a word.
    pub fn wr_mem32(&mut self, addr: u128, data: u32) -> (r: Result<(), Exception>)
        ensures
            r is Ok <==> old(self).in_range(addr, 4),
            r is Ok ==> final(self).bytes() == le_stored(
                old(self).bytes(),
                addr as int,
                4,
                data as int,
            ) && final(self).has_region(),
            r is Err ==> *final(self) == *old(self) && r->Err_0 == Exception::AccessFault(
                MemProtect::W,
            ),
            final(self).reservation() == old(self).reservation(),
    {
        match self.wr_raw(addr, 4, data as u64) {
            Some(_) => Ok(()),
            None => Err(Exception::AccessFault(MemProtect::W)),
        }
    }

    /// Writes a double word.
    pub fn wr_mem64(&mut self, addr: u128, data: u64) -> (r: Result<(), Exception>)
        ensures
            r is Ok <==> old(self).in_range(addr, 8),
            r is Ok ==> final(self).bytes() == le_stored(
                old(self).bytes(),
                addr as int,
                8,
                data as int,
            ) && final(self).has_region(),
            r is Err ==> *final(self) == *old(self) && r->Err_0 == Exception::AccessFault(
                MemProtect::W,
            ),
            final(self).reservation() == old(self).reservation(),
    {
        match self.wr_raw(addr, 8, data) {
            Some(_) => Ok(()),
            None => Err(Exception::AccessFault(MemProtect::W)),
        }
    }

    /// Reads a halfword on the fetch path; a miss is an execute fault.
    pub fn fetch_mem16(&self, addr: u128) -> (r: Result<u16, Exception>)
        ensures
            r is Ok <==> self.in_range(addr, 2),
            r is Ok ==> r->Ok_0 == le_word(self.bytes(), addr as int, 2),
            r is Err ==> r->Err_0 == Exception::AccessFault(MemProtect::X),
    {
        proof {
            lemma_le_word_bound(self.bytes(), addr as int, 2);
        }
        match self.rd_raw(addr, 2) {
            Some(v) => Ok(v as u16),
            None => Err(Exception::AccessFault(MemProtect::X)),
        }
    }

    /// Reads a word on the fetch path; a miss is an execute fault.
    pub fn fetch_mem32(&self, addr: u128) -> (r: Result<u32, Exception>)
        ensures
            r is Ok <==> self.in_range(addr, 4),
            r is Ok ==> r->Ok_0 == le_word(self.bytes(), addr as int, 4),
            r is Err ==> r->Err_0 == Exception::AccessFault(MemProtect::X),
    {
        proof {
            lemma_le_word_bound(self.bytes(), addr as int, 4);
        }
        match self.rd_raw(addr, 4) {
            Some(v) => Ok(v as u32),
            None => Err(Exception::AccessFault(MemProtect::X)),
        }
    }

    /// The fetch-accessibility check that precedes an alignment trap: page
    /// and access faults have higher priority than misalignment.
    pub fn fetch_check(&self, addr: u128) -> (r: Result<(), Exception>)
        ensures
            r is Ok <==> self.in_range(addr, 2),
            r is Err ==> r->Err_0 == Exception::AccessFault(MemProtect::X),
    {
        match self.rd_raw(addr, 2) {
            Some(_) => Ok(()),
            None => Err(Exception::AccessFault(MemProtect::X)),
        }
    }

    /// Load-reserved of a word: reads and records the reservation.
    pub fn load_rsrv32(&mut self, addr: u128, ord: MemOrder) -> (r: Result<u32, Exception>)
        ensures
            r is Ok <==> old(self).in_range(addr, 4),
            r is Ok ==> r->Ok_0 == le_word(old(self).bytes(), addr as int, 4) && final(self).reservation() == Some(addr),
            r is Err ==> r->Err_0 == Exception::AccessFault(MemProtect::R) && *final(self)
                == *old(self),
            final(self).bytes() == old(self).bytes(),
            final(self).has_region() == old(self).has_region(),
    {
        proof {
            lemma_le_word_bound(self.bytes(), addr as int, 4);
        }
        match self.rd_raw(addr, 4) {
            Some(v) => {
                self.rsrv = Some(addr);
                Ok(v as u32)
            },
            None => Err(Exception::AccessFault(MemProtect::R)),
        }
    }

    /// Load-reserved of a double word.
    pub fn load_rsrv64(&mut self, addr: u128, ord: MemOrder) -> (r: Result<u64, Exception>)
        ensures
            r is Ok <==> old(self).in_range(addr, 8),
            r is Ok ==> r->Ok_0 == le_word(old(self).bytes(), addr as int, 8) && final(self).reservation() == Some(addr),
            r is Err ==> r->Err_0 == Exception::AccessFault(MemProtect::R) && *final(self)
                == *old(self),
            final(self).bytes() == old(self).bytes(),
            final(self).has_region() == old(self).has_region(),
    {
        match self.rd_raw(addr, 8) {
            Some(v) => {
                self.rsrv = Some(addr);
                Ok(v)
            },
            None => Err(Exception::AccessFault(MemProtect::R)),
        }
    }

    /// Store-conditional of a word: succeeds with result 0 exactly when the
    /// reservation matches, fails with result 1 otherwise; either way the
    /// reservation is consumed.
    pub fn store_cond32(&mut self, addr: u128, ord: MemOrder, data: u32) -> (r: Result<
        u32,
        Exception,
    >)
        ensures
            final(self).reservation() is None,
            final(self).has_region() == old(self).has_region(),
            old(self).reservation() != Some(addr) ==> r == Result::<u32, Exception>::Ok(1u32)
                && final(self).bytes() == old(self).bytes(),
            old(self).reservation() == Some(addr) ==> {
                &&& (r is Ok <==> old(self).in_range(addr, 4))
                &&& (r is Ok ==> r->Ok_0 == 0 && final(self).bytes() == le_stored(
                    old(self).bytes(),
                    addr as int,
                    4,
                    data as int,
                ))
                &&& (r is Err ==> r->Err_0 == Exception::AccessFault(MemProtect::W) && final(self).bytes() == old(self).bytes())
            },
    {
        let hit = match self.rsrv {
            Some(a) => a == addr,
            None => false,
        };
        self.rsrv = None;
        if hit {
            match self.wr_raw(addr, 4, data as u64) {
                Some(_) => Ok(0),
                None => Err(Exception::AccessFault(MemProtect::W)),
            }
        } else {
            Ok(1)
        }
    }

    /// Store-conditional of a double word.
    pub fn store_cond64(&mut self, addr: u128, ord: MemOrder, data: u64) -> (r: Result<
        u64,
        Exception,
    >)
        ensures
            final(self).reservation() is None,
            final(self).has_region() == old(self).has_region(),
            old(self).reservation() != Some(addr) ==> r == Result::<u64, Exception>::Ok(1u64)
                && final(self).bytes() == old(self).bytes(),
            old(self).reservation() == Some(addr) ==> {
                &&& (r is Ok <==> old(self).in_range(addr, 8))
                &&& (r is Ok ==> r->Ok_0 == 0 && final(self).bytes() == le_stored(
                    old(self).bytes(),
                    addr as int,
                    8,
                    data as int,
                ))
                &&& (r is Err ==> r->Err_0 == Exception::AccessFault(MemProtect::W) && final(self).bytes() == old(self).bytes())
            },
    {
        let hit = match self.rsrv {
            Some(a) => a == addr,
            None => false,
        };
        self.rsrv = None;
        if hit {
            match self.wr_raw(addr, 8, data) {
                Some(_) => Ok(0),
                None => Err(Exception::AccessFault(MemProtect::W)),
            }
        } else {
            Ok(1)
        }
    }

    /// An atomic word operation: reads the old value, applies the ALU
    /// operation to it and the given data at 32 bits, writes the result
    /// back, and returns the old value.
    pub fn amo32(&mut self, addr: u128, ord: MemOrder, data: u32, op: BinaryOp) -> (r: Result<
        u32,
        Exception,
    >)
        requires
            op.ok_for(Xlen::X32),
        ensures
            final(self).has_region() == old(self).has_region(),
            final(self).reservation() == old(self).reservation(),
            r is Ok <==> old(self).in_range(addr, 4),
            r is Ok ==> r->Ok_0 == le_word(old(self).bytes(), addr as int, 4) && final(self).bytes() == le_stored(
                old(self).bytes(),
                addr as int,
                4,
                op.value(Xlen::X32, (le_word(old(self).bytes(), addr as int, 4)) as u128, data as u128),
            ),
            r is Err ==> r->Err_0 == Exception::AccessFault(MemProtect::W) && *final(self)
                == *old(self),
    {
        proof {
            lemma_le_word_bound(self.bytes(), addr as int, 4);
        }
        match self.rd_raw(addr, 4) {
            Some(v) => {
                let oldv = v as u32;
                let newv = op.exec(Xlen::X32, oldv as u128, data as u128);
                let newv32 = crate::xlen::to_u32(newv);
                proof {
                    vstd::arithmetic::div_mod::lemma_small_mod(newv as nat, 0x1_0000_0000);
                }
                match self.wr_raw(addr, 4, newv32 as u64) {
                    Some(_) => Ok(oldv),
                    None => Err(Exception::AccessFault(MemProtect::W)),
                }
            },
            None => Err(Exception::AccessFault(MemProtect::W)),
        }
    }

    /// An atomic double-word operation.
    pub fn amo64(&mut self, addr: u128, ord: MemOrder, data: u64, op: BinaryOp) -> (r: Result<
        u64,
        Exception,
    >)
        requires
            op.ok_for(Xlen::X64),
        ensures
            final(self).has_region() == old(self).has_region(),
            final(self).reservation() == old(self).reservation(),
            r is Ok <==> old(self).in_range(addr, 8),
            r is Ok ==> r->Ok_0 == le_word(old(self).bytes(), addr as int, 8) && final(self).bytes() == le_stored(
                old(self).bytes(),
                addr as int,
                8,
                op.value(Xlen::X64, (le_word(old(self).bytes(), addr as int, 8)) as u128, data as u128),
            ),
            r is Err ==> r->Err_0 == Exception::AccessFault(MemProtect::W) && *final(self)
                == *old(self),
    {
        match self.rd_raw(addr, 8) {
            Some(v) => {
                let newv = op.exec(Xlen::X64, v as u128, data as u128);
                let newv64 = crate::xlen::to_u64(newv);
                proof {
                    vstd::arithmetic::div_mod::lemma_small_mod(
                        newv as nat,
                        0x1_0000_0000_0000_0000,
                    );
                }
                match self.wr_raw(addr, 8, newv64) {
                    Some(_) => Ok(v),
                    None => Err(Exception::AccessFault(MemProtect::W)),
                }
            },
            None => Err(Exception::AccessFault(MemProtect::W)),
        }
    }

    /// A memory fence: trivially satisfied by this in-order single-hart
    /// model.
    pub fn fence(&mut self, pred: u8, succ: u8)
        ensures
            *final(self) == *old(self),
    {
    }

    /// A total-store-ordering fence: likewise trivial here.
    pub fn fence_tso(&mut self)
        ensures
            *final(self) == *old(self),
    {
    }

    /// An instruction-fetch fence: the decoded-op cache is flushed by the
    /// dispatcher; memory itself needs nothing.
    pub fn fence_i(&mut self)
        ensures
            *final(self) == *old(self),
    {
    }
}

} // verus!
