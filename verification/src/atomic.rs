//! The LR/SC reservation set: a bounded ring of word-aligned
//! addresses, and the load-reserved / store-conditional operations.
use vstd::prelude::*;
use crate::Exception;
use crate::bus::bus_load_u32_spec;
use crate::bus::bus_load_u64_spec;
use crate::bus::bus_store_u64_post_spec;
use crate::cpu::Cpu;
use crate::cpu::Trap;
use crate::mmu::PERM_R;
use crate::mmu::PERM_W;
use crate::mmu::translate_spec;

verus! {

/// The `aq`/`rl` ordering bits of an atomic instruction. They are
/// decoded and accepted but have no effect on this single-hart core.
pub struct AqRlMode {
    pub aq: bool,
    pub rl: bool,
}

impl AqRlMode {
    pub fn from_bits(b: u32) -> (r: AqRlMode)
        ensures
            r.aq == (b & 2 != 0),
            r.rl == (b & 1 != 0),
    {
        AqRlMode { aq: b & 2 != 0, rl: b & 1 != 0 }
    }
}

pub const RS_SET_SIZE: usize = 16;

/// Up to `RS_SET_SIZE - 1` reserved 4-byte addresses; inserting while
/// full wraps the cursor around and forgets the earlier reservations.
pub struct ReservationSet {
    pub set: Vec<u64>,
    pub length: usize,
}

impl ReservationSet {
    pub open spec fn wf(self) -> bool {
        self.set@.len() == RS_SET_SIZE && self.length < RS_SET_SIZE
    }

    /// The addresses currently reserved.
    pub open spec fn entries(self) -> Seq<u64> {
        self.set@.take(self.length as int)
    }

    /// Whether every 4-byte unit of an access of `sz` words at `addr`
    /// is still reserved.
    pub open spec fn owns_spec(self, addr: u64, sz: int) -> bool {
        forall|i: int|
            0 <= i < sz ==> #[trigger] self.entries().contains(addr.wrapping_add((4 * i) as u64))
    }

    pub fn new() -> (r: ReservationSet)
        ensures
            r.wf(),
            r.entries() == Seq::<u64>::empty(),
    {
        ReservationSet { set: vec![0u64; 16], length: 0 }
    }

    /// Record one 4-byte unit; at the end of the ring the cursor wraps
    /// to the start, dropping every earlier reservation.
    pub fn aquire_4(&mut self, addr: u64)
        requires
            old(self).wf(),
        ensures
            final(self).wf(),
            old(self).length < RS_SET_SIZE - 1 ==> final(self).entries() == old(
                self,
            ).entries().push(addr),
            old(self).length == RS_SET_SIZE - 1 ==> final(self).entries() == Seq::<u64>::empty(),
    {
        self.set[self.length] = addr;
        self.length = (self.length + 1) % RS_SET_SIZE;
        proof {
            assert(self.entries() =~= if old(self).length < RS_SET_SIZE - 1 {
                old(self).entries().push(addr)
            } else {
                Seq::<u64>::empty()
            });
        }
    }

    /// Record every 4-byte unit of an access of `sz` words at `addr`.
    pub fn aquire(&mut self, addr: u64, sz: usize)
        requires
            old(self).wf(),
            sz <= 2,
        ensures
            final(self).wf(),
            old(self).length + sz < RS_SET_SIZE ==> final(self).entries() == old(self).entries()
                + Seq::new(sz as nat, |i: int| addr.wrapping_add((4 * i) as u64)),
    {
        let mut i: usize = 0;
        while i < sz
            invariant
                self.wf(),
                i <= sz <= 2,
                old(self).length + sz < RS_SET_SIZE ==> self.length == old(self).length + i
                    && self.entries() =~= old(self).entries() + Seq::new(
                    i as nat,
                    |j: int| addr.wrapping_add((4 * j) as u64),
                ),
            decreases sz - i,
        {
            self.aquire_4(addr.wrapping_add((i as u64) * 4));
            proof {
                if old(self).length + sz < RS_SET_SIZE {
                    assert(self.entries() =~= old(self).entries() + Seq::new(
                        (i + 1) as nat,
                        |j: int| addr.wrapping_add((4 * j) as u64),
                    ));
                }
            }
            i = i + 1;
        }
        proof {
            if old(self).length + sz < RS_SET_SIZE {
                assert(self.entries() =~= old(self).entries() + Seq::new(
                    sz as nat,
                    |i: int| addr.wrapping_add((4 * i) as u64),
                ));
            }
        }
    }

    /// Whether `addr` is among the reserved units.
    pub fn check_ownership_4(&self, addr: u64) -> (r: bool)
        requires
            self.wf(),
        ensures
            r == self.entries().contains(addr),
    {
        let mut i: usize = 0;
        while i < self.length
            invariant
                self.wf(),
                i <= self.length,
                forall|j: int| 0 <= j < i ==> self.entries()[j] != addr,
            decreases self.length - i,
        {
            if self.set[i] == addr {
                proof {
                    assert(self.entries()[i as int] == addr);
                }
                return true;
            }
            i = i + 1;
        }
        proof {
            assert(forall|j: int| 0 <= j < self.entries().len() ==> self.entries()[j] != addr);
        }
        false
    }

    /// Whether every 4-byte unit of the access is still reserved: the
    /// store-conditional success condition.
    pub fn check_ownership(&self, addr: u64, sz: usize) -> (r: bool)
        requires
            self.wf(),
            sz <= 2,
        ensures
            r == self.owns_spec(addr, sz as int),
    {
        let mut i: usize = 0;
        let mut ok = true;
        while i < sz
            invariant
                self.wf(),
                i <= sz <= 2,
                ok == (forall|j: int|
                    0 <= j < i ==> #[trigger] self.entries().contains(
                        addr.wrapping_add((4 * j) as u64),
                    )),
            decreases sz - i,
        {
            let here = self.check_ownership_4(addr.wrapping_add((i as u64) * 4));
            proof {
                assert((i as u64) * 4 == (4 * (i as int)) as u64);
                if ok && here {
                    assert forall|j: int| 0 <= j < i + 1 implies #[trigger] self.entries().contains(
                        addr.wrapping_add((4 * j) as u64),
                    ) by {
                        if j == i {
                            assert(self.entries().contains(
                                addr.wrapping_add((4 * (i as int)) as u64),
                            ));
                        }
                    }
                } else if ok {
                    assert(!self.entries().contains(addr.wrapping_add((4 * (i as int)) as u64)));
                } else {
                    assert(exists|j: int|
                        0 <= j < i && !#[trigger] self.entries().contains(
                            addr.wrapping_add((4 * j) as u64),
                        ));
                    let j0 = choose|j: int|
                        0 <= j < i && !#[trigger] self.entries().contains(
                            addr.wrapping_add((4 * j) as u64),
                        );
                    assert(0 <= j0 < i + 1 && !self.entries().contains(
                        addr.wrapping_add((4 * j0) as u64),
                    ));
                }
            }
            ok = ok && here;
            i = i + 1;
        }
        ok
    }

    /// Drop every reservation.
    pub fn clear(&mut self)
        requires
            old(self).wf(),
        ensures
            final(self).wf(),
            final(self).entries() == Seq::<u64>::empty(),
            final(self).set == old(self).set,
    {
        self.length = 0;
        proof {
            assert(self.entries() =~= Seq::<u64>::empty());
        }
    }
}


impl Cpu {
    /// Load-reserved: record every 4-byte unit of the access in the
    /// reservation set, then load through the MMU.
    pub fn atomic_load_u32(&mut self, a: u64, aqrl: AqRlMode) -> (r: Result<u32, Trap>)
        requires
            old(self).wf(),
        ensures
            final(self).wf(),
            *final(self) == (Cpu {
                bus: final(self).bus,
                amo_rs: final(self).amo_rs,
                ..*old(self)
            }),
            old(self).amo_rs.length + 1 < RS_SET_SIZE ==> final(self).amo_rs.entries() == old(
                self,
            ).amo_rs.entries() + Seq::new(1, |i: int| a.wrapping_add((4 * i) as u64)),
            match translate_spec(*old(self), a, PERM_R) {
                Err(_) => r == Err::<u32, Trap>(Trap { cause: Exception::LoadPageFault, tval: a })
                    && final(self).bus@ == old(self).bus@,
                Ok((pa, upd)) => final(self).bus@ == (match upd {
                    None => old(self).bus@,
                    Some(u) => bus_store_u64_post_spec(old(self).bus@, u.0, u.1),
                }) && r == (match bus_load_u32_spec(final(self).bus@, pa) {
                    Ok(v) => Ok::<u32, Trap>(v),
                    Err(e) => Err::<u32, Trap>(Trap { cause: e, tval: 0 }),
                }),
            },
    {
        let _ = aqrl;
        self.amo_rs.aquire(a, 1);
        self.mmu_load_u32(a)
    }

    /// Load-reserved, doubleword form.
    pub fn atomic_load_u64(&mut self, a: u64, aqrl: AqRlMode) -> (r: Result<u64, Trap>)
        requires
            old(self).wf(),
        ensures
            final(self).wf(),
            *final(self) == (Cpu {
                bus: final(self).bus,
                amo_rs: final(self).amo_rs,
                ..*old(self)
            }),
            old(self).amo_rs.length + 2 < RS_SET_SIZE ==> final(self).amo_rs.entries() == old(
                self,
            ).amo_rs.entries() + Seq::new(2, |i: int| a.wrapping_add((4 * i) as u64)),
            match translate_spec(*old(self), a, PERM_R) {
                Err(_) => r == Err::<u64, Trap>(Trap { cause: Exception::LoadPageFault, tval: a })
                    && final(self).bus@ == old(self).bus@,
                Ok((pa, upd)) => final(self).bus@ == (match upd {
                    None => old(self).bus@,
                    Some(u) => bus_store_u64_post_spec(old(self).bus@, u.0, u.1),
                }) && r == (match bus_load_u64_spec(final(self).bus@, pa) {
                    Ok(v) => Ok::<u64, Trap>(v),
                    Err(e) => Err::<u64, Trap>(Trap { cause: e, tval: 0 }),
                }),
            },
    {
        let _ = aqrl;
        self.amo_rs.aquire(a, 2);
        self.mmu_load_u64(a)
    }

    /// Store-conditional: succeeds only when every 4-byte unit of the
    /// access is still reserved; the reservation set is cleared whether
    /// it succeeds or fails.
    pub fn atomic_store_u32(&mut self, a: u64, v: u32, aqrl: AqRlMode) -> (r: Result<(), ()>)
        requires
            old(self).wf(),
        ensures
            final(self).wf(),
            *final(self) == (Cpu {
                bus: final(self).bus,
                amo_rs: final(self).amo_rs,
                ..*old(self)
            }),
            final(self).amo_rs.entries() == Seq::<u64>::empty(),
            !old(self).amo_rs.owns_spec(a, 1) ==> r is Err && final(self).bus@ == old(self).bus@,
            old(self).amo_rs.owns_spec(a, 1) ==> (match translate_spec(*old(self), a, PERM_W) {
                Err(_) => r is Err && final(self).bus@ == old(self).bus@,
                Ok((pa, upd)) => ({
                    let mid = match upd {
                        None => old(self).bus@,
                        Some(u) => bus_store_u64_post_spec(old(self).bus@, u.0, u.1),
                    };
                    if crate::bus::bus_store_u32_ok_spec(mid, pa) {
                        r is Ok && final(self).bus@ == crate::bus::bus_store_u32_post_spec(
                            mid,
                            pa,
                            v,
                        )
                    } else {
                        r is Err && final(self).bus@ == mid
                    }
                }),
            }),
    {
        let _ = aqrl;
        let owned = self.amo_rs.check_ownership(a, 1);
        self.amo_rs.clear();
        if !owned {
            return Err(());
        }
        match self.mmu_store_u32(a, v) {
            Ok(_) => Ok(()),
            Err(_) => Err(()),
        }
    }

    /// Store-conditional, doubleword form.
    pub fn atomic_store_u64(&mut self, a: u64, v: u64, aqrl: AqRlMode) -> (r: Result<(), ()>)
        requires
            old(self).wf(),
        ensures
            final(self).wf(),
            *final(self) == (Cpu {
                bus: final(self).bus,
                amo_rs: final(self).amo_rs,
                ..*old(self)
            }),
            final(self).amo_rs.entries() == Seq::<u64>::empty(),
            !old(self).amo_rs.owns_spec(a, 2) ==> r is Err && final(self).bus@ == old(self).bus@,
            old(self).amo_rs.owns_spec(a, 2) ==> (match translate_spec(*old(self), a, PERM_W) {
                Err(_) => r is Err && final(self).bus@ == old(self).bus@,
                Ok((pa, upd)) => ({
                    let mid = match upd {
                        None => old(self).bus@,
                        Some(u) => bus_store_u64_post_spec(old(self).bus@, u.0, u.1),
                    };
                    if crate::bus::bus_store_u64_ok_spec(mid, pa) {
                        r is Ok && final(self).bus@ == crate::bus::bus_store_u64_post_spec(
                            mid,
                            pa,
                            v,
                        )
                    } else {
                        r is Err && final(self).bus@ == mid
                    }
                }),
            }),
    {
        let _ = aqrl;
        let owned = self.amo_rs.check_ownership(a, 2);
        self.amo_rs.clear();
        if !owned {
            return Err(());
        }
        match self.mmu_store_u64(a, v) {
            Ok(_) => Ok(()),
            Err(_) => Err(()),
        }
    }
}

} // verus!
