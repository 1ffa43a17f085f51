//! Sv39 address translation: the three-level page walk with permission
//! checks and A/D-bit maintenance, and bare-mode passthrough.
use vstd::prelude::*;
use crate::Exception;
use crate::Mode;
use crate::bus::BusView;
use crate::bus::bus_load_u16_spec;
use crate::bus::bus_load_u32_spec;
use crate::bus::bus_load_u64_spec;
use crate::bus::bus_load_u8_spec;
use crate::bus::bus_store_u64_ok_spec;
use crate::bus::bus_store_u64_post_spec;
use crate::cpu::Cpu;
use crate::cpu::Trap;
use crate::csr::CSR_SATP;
use crate::csr::csr_access_err_spec;
use crate::csr::mstatus_read_spec;

verus! {

broadcast use crate::bits::lemma_u64_and_le, crate::bits::lemma_u64_and4095_id;

pub const PERM_R: u64 = 0x02;

pub const PERM_W: u64 = 0x04;

pub const PERM_X: u64 = 0x08;

pub const PERM_U: u64 = 0x10;

/// Paging as latched from `satp` on `SFENCE.VMA`: either bare
/// passthrough or Sv39 with the physical address of the root table.
#[derive(Debug, Clone, Copy, PartialEq, Eq, Structural)]
pub enum Paging {
    Bare,
    Sv39 { address: u64 },
}

/// The permission vector an access carries into the walk: the PTE bits
/// it requires, the bits that must be absent, and whether translation
/// is bypassed altogether.
#[derive(Debug, Clone, Copy, PartialEq, Eq, Structural)]
pub struct Perm {
    pub req: u64,
    pub forb: u64,
    pub bypass: bool,
}

/// The permission vector for an access needing PTE bits `p` from
/// privilege level `mode`: user accesses also require `U`; supervisor
/// accesses forbid `U` unless `mstatus.SUM` is set; machine mode
/// bypasses unless `mstatus.MPRV` redirects to `MPP`.
pub open spec fn perm_for_mode_spec(csrs: Seq<u64>, p: u64, mode: Mode) -> Perm
    decreases (if mode == Mode::Machine {
        1int
    } else {
        0int
    }),
{
    match mode {
        Mode::User => Perm { req: p | PERM_U, forb: 0, bypass: false },
        Mode::Supervisor => Perm {
            req: p,
            forb: if !(mstatus_read_spec(csrs) >> 18) & 1 == 1 {
                PERM_U
            } else {
                0
            },
            bypass: false,
        },
        Mode::Reserved => Perm { req: p, forb: 0, bypass: false },
        Mode::Machine => {
            let m = mstatus_read_spec(csrs);
            let mpp = Mode::from_code_spec((m >> 11) & 3);
            if (m >> 17) & 1 != 0 && mpp != Mode::Machine {
                perm_for_mode_spec(csrs, p, mpp)
            } else {
                Perm { req: p, forb: 0, bypass: true }
            }
        },
    }
}

/// The 9-bit virtual page number of `a` at the given level.
pub open spec fn vpn_spec(a: u64, level: int) -> u64 {
    if level == 0 {
        (a >> 12) & 0x1ff
    } else if level == 1 {
        (a >> 21) & 0x1ff
    } else {
        (a >> 30) & 0x1ff
    }
}

/// The physical address a leaf PTE at `level` maps `a` to: page
/// numbers below the level come from the virtual address, the rest
/// from the PTE.
pub open spec fn sv39_pa_spec(pte: u64, a: u64, level: int) -> u64 {
    let p0 = if level > 0 {
        (a >> 12) & 0x1ff
    } else {
        (pte >> 10) & 0x1ff
    };
    let p1 = if level > 1 {
        (a >> 21) & 0x1ff
    } else {
        (pte >> 19) & 0x1ff
    };
    let p2 = (pte >> 28) & 0x3ffffff;
    (p2 << 30) | (p1 << 21) | (p0 << 12) | (a & 0xfff)
}

/// What one Sv39 walk finds, before any A/D update is applied.
#[derive(Debug, Clone, Copy, PartialEq, Eq, Structural)]
pub enum WalkOutcome {
    Fault,
    Leaf { pa: u64, pte_addr: u64, pte: u64 },
}

/// The Sv39 walk from table base `root` at `level`: fetch the PTE,
/// fault on an invalid or malformed entry, descend on a pointer entry,
/// and check permissions and superpage alignment at the leaf.
pub open spec fn sv39_walk_spec(
    b: BusView,
    root: u64,
    a: u64,
    req: u64,
    forb: u64,
    level: int,
) -> WalkOutcome
    decreases level + 1,
{
    if level < 0 {
        WalkOutcome::Fault
    } else {
        let pte_addr = root.wrapping_add(vpn_spec(a, level) << 3);
        match bus_load_u64_spec(b, pte_addr) {
            Err(_) => WalkOutcome::Fault,
            Ok(pte) => {
                if pte & 1 == 0 || (pte & 2 == 0 && pte & 4 == 4) {
                    WalkOutcome::Fault
                } else if pte & 0xa == 0 {
                    sv39_walk_spec(b, (pte >> 10) << 12, a, req, forb, level - 1)
                } else if pte & req != req || pte & forb != 0 {
                    WalkOutcome::Fault
                } else if (level >= 1 && (pte >> 10) & 0x1ff != 0) || (level == 2 && (pte >> 19)
                    & 0x1ff != 0) {
                    WalkOutcome::Fault
                } else {
                    WalkOutcome::Leaf { pa: sv39_pa_spec(pte, a, level), pte_addr, pte }
                }
            },
        }
    }
}

/// Whether the walk must rewrite the PTE: `A` clear, or a store with
/// `D` clear.
pub open spec fn ad_needed_spec(pte: u64, store: bool) -> bool {
    pte & 0x40 == 0 || (store && pte & 0x80 == 0)
}

/// The PTE with `A` set, and `D` set on a store.
pub open spec fn ad_new_pte_spec(pte: u64, store: bool) -> u64 {
    pte | 0x40 | (if store {
        0x80u64
    } else {
        0u64
    })
}

/// The outcome of translating `a` under permission vector `perm`:
/// the physical address, together with the PTE rewrite the walk owes
/// (its address and new value), or a page fault.
pub open spec fn translate_with_perm_spec(b: BusView, mode: Mode, pages: Paging, a: u64, perm: Perm) -> Result<
    (u64, Option<(u64, u64)>),
    (),
> {
    if perm.bypass || (mode == Mode::Machine && perm.req & PERM_X != 0) {
        Ok((a, None))
    } else {
        match pages {
            Paging::Bare => Ok((a, None)),
            Paging::Sv39 { address } => match sv39_walk_spec(
                b,
                address,
                a,
                perm.req,
                perm.forb,
                2,
            ) {
                WalkOutcome::Fault => Err(()),
                WalkOutcome::Leaf { pa, pte_addr, pte } => {
                    let store = perm.req & PERM_W != 0;
                    if !ad_needed_spec(pte, store) {
                        Ok((pa, None))
                    } else if bus_store_u64_ok_spec(b, pte_addr) {
                        Ok((pa, Some((pte_addr, ad_new_pte_spec(pte, store)))))
                    } else {
                        Err(())
                    }
                },
            },
        }
    }
}

/// Translation of `a` for an access needing PTE bits `p` from the
/// hart's current mode.
pub open spec fn translate_spec(cpu: Cpu, a: u64, p: u64) -> Result<
    (u64, Option<(u64, u64)>),
    (),
> {
    translate_with_perm_spec(
        cpu.bus@,
        cpu.mode,
        cpu.pages,
        a,
        perm_for_mode_spec(cpu.csrs@, p, cpu.mode),
    )
}

/// The paging state `satp` encodes: mode 0 is bare, mode 8 is Sv39
/// with the root page number shifted to a byte address; other modes
/// leave the current state in place.
pub open spec fn paging_of_satp_spec(satp: u64, cur: Paging) -> Paging {
    if satp >> 60 == 0 {
        Paging::Bare
    } else if satp >> 60 == 8 {
        Paging::Sv39 { address: (satp & 0xfffffffffff) << 12 }
    } else {
        cur
    }
}

impl Cpu {
    fn vpn(&self, a: u64, i: usize) -> (r: u64)
        ensures
            r == vpn_spec(a, i as int),
    {
        if i == 0 {
            (a >> 12) & 0x1ff
        } else if i == 1 {
            (a >> 21) & 0x1ff
        } else {
            (a >> 30) & 0x1ff
        }
    }

    /// The permission vector of the current mode for PTE bits `p`.
    pub fn get_perm(&self, p: u64) -> (r: Perm)
        requires
            self.wf(),
        ensures
            r == perm_for_mode_spec(self.csrs@, p, self.mode),
    {
        self.get_perm_mode(p, self.mode)
    }

    fn get_perm_mode(&self, p: u64, mode: Mode) -> (r: Perm)
        requires
            self.wf(),
        ensures
            r == perm_for_mode_spec(self.csrs@, p, mode),
        decreases (if mode == Mode::Machine {
            1int
        } else {
            0int
        }),
    {
        match mode {
            Mode::User => Perm { req: p | PERM_U, forb: 0, bypass: false },
            Mode::Supervisor => {
                let m = self.csr_read_cpu(crate::csr::CSR_MSTATUS);
                let forb = if !(m >> 18) & 1 == 1 {
                    PERM_U
                } else {
                    0
                };
                Perm { req: p, forb, bypass: false }
            },
            Mode::Reserved => Perm { req: p, forb: 0, bypass: false },
            Mode::Machine => {
                let m = self.csr_read_cpu(crate::csr::CSR_MSTATUS);
                let mpp = Mode::from_code((m >> 11) & 3);
                if (m >> 17) & 1 != 0 && !matches!(mpp, Mode::Machine) {
                    self.get_perm_mode(p, mpp)
                } else {
                    Perm { req: p, forb: 0, bypass: true }
                }
            },
        }
    }

    /// Translate `a` under `perm`, performing the A/D rewrite the walk
    /// owes; a failed walk or a failed rewrite is a page fault.
    pub fn resolve_paging(&mut self, a: u64, perm: Perm) -> (r: Result<u64, ()>)
        requires
            old(self).wf(),
        ensures
            final(self).wf(),
            *final(self) == (Cpu { bus: final(self).bus, ..*old(self) }),
            match translate_with_perm_spec(old(self).bus@, old(self).mode, old(self).pages, a, perm) {
                Err(_) => r is Err && final(self).bus@ == old(self).bus@,
                Ok((pa, upd)) => r == Ok::<u64, ()>(pa) && final(self).bus@ == (match upd {
                    None => old(self).bus@,
                    Some(u) => bus_store_u64_post_spec(old(self).bus@, u.0, u.1),
                }),
            },
    {
        let bypass = {
            let mx = matches!(self.mode, Mode::Machine) && perm.req & PERM_X != 0;
            perm.bypass || mx
        };
        if bypass {
            return Ok(a);
        }
        let address = match self.pages {
            Paging::Bare => {
                return Ok(a);
            },
            Paging::Sv39 { address } => address,
        };
        let store = perm.req & PERM_W != 0;
        let mut root = address;
        let mut i: usize = 2;
        loop
            invariant
                self.wf(),
                *self == (Cpu { bus: self.bus, ..*old(self) }),
                self.bus@ == old(self).bus@,
                i <= 2,
                !perm.bypass,
                !(old(self).mode == Mode::Machine && perm.req & PERM_X != 0),
                old(self).pages == (Paging::Sv39 { address }),
                store == (perm.req & PERM_W != 0),
                sv39_walk_spec(old(self).bus@, address, a, perm.req, perm.forb, 2)
                    == sv39_walk_spec(old(self).bus@, root, a, perm.req, perm.forb, i as int),
            decreases i,
        {
            let pte_addr = root.wrapping_add(self.vpn(a, i) << 3u64);
            let pte = match self.bus.load_u64(pte_addr) {
                Ok(v) => v,
                Err(_) => {
                    return Err(());
                },
            };
            if pte & 1 == 0 || (pte & 2 == 0 && pte & 4 == 4) {
                return Err(());
            }
            if pte & 0xa == 0 {
                if i == 0 {
                    proof {
                        assert(sv39_walk_spec(
                            old(self).bus@,
                            ((pte >> 10) << 12u64),
                            a,
                            perm.req,
                            perm.forb,
                            -1,
                        ) == WalkOutcome::Fault);
                    }
                    return Err(());
                }
                root = (pte >> 10) << 12u64;
                i = i - 1;
                continue ;
            }
            if pte & perm.req != perm.req || pte & perm.forb != 0 {
                return Err(());
            }
            if (i >= 1 && (pte >> 10) & 0x1ff != 0) || (i == 2 && (pte >> 19) & 0x1ff != 0) {
                return Err(());
            }
            let p0 = if i > 0 {
                (a >> 12) & 0x1ff
            } else {
                (pte >> 10) & 0x1ff
            };
            let p1 = if i > 1 {
                (a >> 21) & 0x1ff
            } else {
                (pte >> 19) & 0x1ff
            };
            let p2 = (pte >> 28) & 0x3ffffff;
            let pa = (p2 << 30u64) | (p1 << 21u64) | (p0 << 12u64) | (a & 0xfff);
            if pte & 0x40 == 0 || (store && pte & 0x80 == 0) {
                let npte = pte | 0x40 | (if store {
                    0x80u64
                } else {
                    0u64
                });
                match self.bus.store_u64(pte_addr, npte) {
                    Ok(_) => {},
                    Err(_) => {
                        return Err(());
                    },
                }
            }
            return Ok(pa);
        }
    }

    /// Re-latch the paging state from `satp`; under `mstatus.TVM` a
    /// supervisor access to `satp` is an illegal instruction.
    pub fn flush_mapping(&mut self) -> (r: Result<(), Trap>)
        requires
            old(self).wf(),
        ensures
            final(self).wf(),
            *final(self) == (Cpu { pages: final(self).pages, ..*old(self) }),
            csr_access_err_spec(*old(self), CSR_SATP, true) ==> r == Err::<(), Trap>(
                Trap { cause: Exception::IllegalInst, tval: 0 },
            ) && final(self).pages == old(self).pages,
            !csr_access_err_spec(*old(self), CSR_SATP, true) ==> r == Ok::<(), Trap>(())
                && final(self).pages == paging_of_satp_spec(
                old(self).csrs@[CSR_SATP as int],
                old(self).pages,
            ),
    {
        let satp = match self.csr_read(CSR_SATP) {
            Ok(v) => v,
            Err(t) => {
                return Err(t);
            },
        };
        if satp >> 60u64 == 0 {
            self.pages = Paging::Bare;
        } else if satp >> 60u64 == 8 {
            self.pages = Paging::Sv39 { address: (satp & 0xfffffffffff) << 12u64 };
        }
        Ok(())
    }
}

impl Cpu {
    /// A load through address translation; a failed walk is a load
    /// page fault carrying the virtual address.
    pub fn mmu_load_u8(&mut self, a: u64) -> (r: Result<u8, Trap>)
        requires
            old(self).wf(),
        ensures
            final(self).wf(),
            *final(self) == (Cpu { bus: final(self).bus, ..*old(self) }),
            match translate_spec(*old(self), a, PERM_R) {
                Err(_) => r == Err::<u8, Trap>(Trap { cause: Exception::LoadPageFault, tval: a })
                    && final(self).bus@ == old(self).bus@,
                Ok((pa, upd)) => final(self).bus@ == (match upd {
                    None => old(self).bus@,
                    Some(u) => bus_store_u64_post_spec(old(self).bus@, u.0, u.1),
                }) && r == (match bus_load_u8_spec(final(self).bus@, pa) {
                    Ok(v) => Ok::<u8, Trap>(v),
                    Err(e) => Err::<u8, Trap>(Trap { cause: e, tval: 0 }),
                }),
            },
    {
        let perm = self.get_perm(PERM_R);
        let pa = match self.resolve_paging(a, perm) {
            Ok(pa) => pa,
            Err(_) => {
                return Err(Trap { cause: Exception::LoadPageFault, tval: a });
            },
        };
        match self.bus.load_u8(pa) {
            Ok(v) => Ok(v),
            Err(e) => Err(Trap { cause: e, tval: 0 }),
        }
    }

    /// A load through address translation; a failed walk is a load
    /// page fault carrying the virtual address.
    pub fn mmu_load_u16(&mut self, a: u64) -> (r: Result<u16, Trap>)
        requires
            old(self).wf(),
        ensures
            final(self).wf(),
            *final(self) == (Cpu { bus: final(self).bus, ..*old(self) }),
            match translate_spec(*old(self), a, PERM_R) {
                Err(_) => r == Err::<u16, Trap>(Trap { cause: Exception::LoadPageFault, tval: a })
                    && final(self).bus@ == old(self).bus@,
                Ok((pa, upd)) => final(self).bus@ == (match upd {
                    None => old(self).bus@,
                    Some(u) => bus_store_u64_post_spec(old(self).bus@, u.0, u.1),
                }) && r == (match bus_load_u16_spec(final(self).bus@, pa) {
                    Ok(v) => Ok::<u16, Trap>(v),
                    Err(e) => Err::<u16, Trap>(Trap { cause: e, tval: 0 }),
                }),
            },
    {
        let perm = self.get_perm(PERM_R);
        let pa = match self.resolve_paging(a, perm) {
            Ok(pa) => pa,
            Err(_) => {
                return Err(Trap { cause: Exception::LoadPageFault, tval: a });
            },
        };
        match self.bus.load_u16(pa) {
            Ok(v) => Ok(v),
            Err(e) => Err(Trap { cause: e, tval: 0 }),
        }
    }

    /// A load through address translation; a failed walk is a load
    /// page fault carrying the virtual address.
    pub fn mmu_load_u32(&mut self, a: u64) -> (r: Result<u32, Trap>)
        requires
            old(self).wf(),
        ensures
            final(self).wf(),
            *final(self) == (Cpu { bus: final(self).bus, ..*old(self) }),
            match translate_spec(*old(self), a, PERM_R) {
                Err(_) => r == Err::<u32, Trap>(Trap { cause: Exception::LoadPageFault, tval: a })
                    && final(self).bus@ == old(self).bus@,
                Ok((pa, upd)) => final(self).bus@ == (match upd {
                    None => old(self).bus@,
                    Some(u) => bus_store_u64_post_spec(old(self).bus@, u.0, u.1),
                }) && r == (match bus_load_u32_spec(final(self).bus@, pa) {
                    Ok(v) => Ok::<u32, Trap>(v),
                    Err(e) => Err::<u32, Trap>(Trap { cause: e, tval: 0 }),
                }),
            },
    {
        let perm = self.get_perm(PERM_R);
        let pa = match self.resolve_paging(a, perm) {
            Ok(pa) => pa,
            Err(_) => {
                return Err(Trap { cause: Exception::LoadPageFault, tval: a });
            },
        };
        match self.bus.load_u32(pa) {
            Ok(v) => Ok(v),
            Err(e) => Err(Trap { cause: e, tval: 0 }),
        }
    }

    /// A load through address translation; a failed walk is a load
    /// page fault carrying the virtual address.
    pub fn mmu_load_u64(&mut self, a: u64) -> (r: Result<u64, Trap>)
        requires
            old(self).wf(),
        ensures
            final(self).wf(),
            *final(self) == (Cpu { bus: final(self).bus, ..*old(self) }),
            match translate_spec(*old(self), a, PERM_R) {
                Err(_) => r == Err::<u64, Trap>(Trap { cause: Exception::LoadPageFault, tval: a })
                    && final(self).bus@ == old(self).bus@,
                Ok((pa, upd)) => final(self).bus@ == (match upd {
                    None => old(self).bus@,
                    Some(u) => bus_store_u64_post_spec(old(self).bus@, u.0, u.1),
                }) && r == (match bus_load_u64_spec(final(self).bus@, pa) {
                    Ok(v) => Ok::<u64, Trap>(v),
                    Err(e) => Err::<u64, Trap>(Trap { cause: e, tval: 0 }),
                }),
            },
    {
        let perm = self.get_perm(PERM_R);
        let pa = match self.resolve_paging(a, perm) {
            Ok(pa) => pa,
            Err(_) => {
                return Err(Trap { cause: Exception::LoadPageFault, tval: a });
            },
        };
        match self.bus.load_u64(pa) {
            Ok(v) => Ok(v),
            Err(e) => Err(Trap { cause: e, tval: 0 }),
        }
    }

    /// A store through address translation; a failed walk is a store
    /// page fault carrying the virtual address.
    pub fn mmu_store_u8(&mut self, a: u64, v: u8) -> (r: Result<(), Trap>)
        requires
            old(self).wf(),
        ensures
            final(self).wf(),
            *final(self) == (Cpu { bus: final(self).bus, ..*old(self) }),
            match translate_spec(*old(self), a, PERM_W) {
                Err(_) => r == Err::<(), Trap>(Trap { cause: Exception::StorePageFault, tval: a })
                    && final(self).bus@ == old(self).bus@,
                Ok((pa, upd)) => ({
                    let mid = match upd {
                        None => old(self).bus@,
                        Some(u) => bus_store_u64_post_spec(old(self).bus@, u.0, u.1),
                    };
                    if crate::bus::bus_store_u8_ok_spec(mid, pa) {
                        r == Ok::<(), Trap>(()) && final(self).bus@ == crate::bus::bus_store_u8_post_spec(
                            mid,
                            pa,
                            v,
                        )
                    } else {
                        r == Err::<(), Trap>(Trap { cause: Exception::StoreAccessFault, tval: 0 })
                            && final(self).bus@ == mid
                    }
                }),
            },
    {
        let perm = self.get_perm(PERM_W);
        let pa = match self.resolve_paging(a, perm) {
            Ok(pa) => pa,
            Err(_) => {
                return Err(Trap { cause: Exception::StorePageFault, tval: a });
            },
        };
        match self.bus.store_u8(pa, v) {
            Ok(_) => Ok(()),
            Err(e) => Err(Trap { cause: e, tval: 0 }),
        }
    }

    /// A store through address translation; a failed walk is a store
    /// page fault carrying the virtual address.
    pub fn mmu_store_u16(&mut self, a: u64, v: u16) -> (r: Result<(), Trap>)
        requires
            old(self).wf(),
        ensures
            final(self).wf(),
            *final(self) == (Cpu { bus: final(self).bus, ..*old(self) }),
            match translate_spec(*old(self), a, PERM_W) {
                Err(_) => r == Err::<(), Trap>(Trap { cause: Exception::StorePageFault, tval: a })
                    && final(self).bus@ == old(self).bus@,
                Ok((pa, upd)) => ({
                    let mid = match upd {
                        None => old(self).bus@,
                        Some(u) => bus_store_u64_post_spec(old(self).bus@, u.0, u.1),
                    };
                    if crate::bus::bus_store_u16_ok_spec(mid, pa) {
                        r == Ok::<(), Trap>(()) && final(self).bus@ == crate::bus::bus_store_u16_post_spec(
                            mid,
                            pa,
                            v,
                        )
                    } else {
                        r == Err::<(), Trap>(Trap { cause: Exception::StoreAccessFault, tval: 0 })
                            && final(self).bus@ == mid
                    }
                }),
            },
    {
        let perm = self.get_perm(PERM_W);
        let pa = match self.resolve_paging(a, perm) {
            Ok(pa) => pa,
            Err(_) => {
                return Err(Trap { cause: Exception::StorePageFault, tval: a });
            },
        };
        match self.bus.store_u16(pa, v) {
            Ok(_) => Ok(()),
            Err(e) => Err(Trap { cause: e, tval: 0 }),
        }
    }

    /// A store through address translation; a failed walk is a store
    /// page fault carrying the virtual address.
    pub fn mmu_store_u32(&mut self, a: u64, v: u32) -> (r: Result<(), Trap>)
        requires
            old(self).wf(),
        ensures
            final(self).wf(),
            *final(self) == (Cpu { bus: final(self).bus, ..*old(self) }),
            match translate_spec(*old(self), a, PERM_W) {
                Err(_) => r == Err::<(), Trap>(Trap { cause: Exception::StorePageFault, tval: a })
                    && final(self).bus@ == old(self).bus@,
                Ok((pa, upd)) => ({
                    let mid = match upd {
                        None => old(self).bus@,
                        Some(u) => bus_store_u64_post_spec(old(self).bus@, u.0, u.1),
                    };
                    if crate::bus::bus_store_u32_ok_spec(mid, pa) {
                        r == Ok::<(), Trap>(()) && final(self).bus@ == crate::bus::bus_store_u32_post_spec(
                            mid,
                            pa,
                            v,
                        )
                    } else {
                        r == Err::<(), Trap>(Trap { cause: Exception::StoreAccessFault, tval: 0 })
                            && final(self).bus@ == mid
                    }
                }),
            },
    {
        let perm = self.get_perm(PERM_W);
        let pa = match self.resolve_paging(a, perm) {
            Ok(pa) => pa,
            Err(_) => {
                return Err(Trap { cause: Exception::StorePageFault, tval: a });
            },
        };
        match self.bus.store_u32(pa, v) {
            Ok(_) => Ok(()),
            Err(e) => Err(Trap { cause: e, tval: 0 }),
        }
    }

    /// A store through address translation; a failed walk is a store
    /// page fault carrying the virtual address.
    pub fn mmu_store_u64(&mut self, a: u64, v: u64) -> (r: Result<(), Trap>)
        requires
            old(self).wf(),
        ensures
            final(self).wf(),
            *final(self) == (Cpu { bus: final(self).bus, ..*old(self) }),
            match translate_spec(*old(self), a, PERM_W) {
                Err(_) => r == Err::<(), Trap>(Trap { cause: Exception::StorePageFault, tval: a })
                    && final(self).bus@ == old(self).bus@,
                Ok((pa, upd)) => ({
                    let mid = match upd {
                        None => old(self).bus@,
                        Some(u) => bus_store_u64_post_spec(old(self).bus@, u.0, u.1),
                    };
                    if crate::bus::bus_store_u64_ok_spec(mid, pa) {
                        r == Ok::<(), Trap>(()) && final(self).bus@ == crate::bus::bus_store_u64_post_spec(
                            mid,
                            pa,
                            v,
                        )
                    } else {
                        r == Err::<(), Trap>(Trap { cause: Exception::StoreAccessFault, tval: 0 })
                            && final(self).bus@ == mid
                    }
                }),
            },
    {
        let perm = self.get_perm(PERM_W);
        let pa = match self.resolve_paging(a, perm) {
            Ok(pa) => pa,
            Err(_) => {
                return Err(Trap { cause: Exception::StorePageFault, tval: a });
            },
        };
        match self.bus.store_u64(pa, v) {
            Ok(_) => Ok(()),
            Err(e) => Err(Trap { cause: e, tval: 0 }),
        }
    }

    /// An instruction fetch through address translation; a failed walk
    /// is an instruction page fault, a bus fault an instruction access
    /// fault.
    pub fn mmu_load_xu32(&mut self, a: u64) -> (r: Result<u32, Trap>)
        requires
            old(self).wf(),
        ensures
            final(self).wf(),
            *final(self) == (Cpu { bus: final(self).bus, ..*old(self) }),
            match translate_spec(*old(self), a, PERM_X) {
                Err(_) => r == Err::<u32, Trap>(Trap { cause: Exception::InstPageFault, tval: a })
                    && final(self).bus@ == old(self).bus@,
                Ok((pa, upd)) => final(self).bus@ == (match upd {
                    None => old(self).bus@,
                    Some(u) => bus_store_u64_post_spec(old(self).bus@, u.0, u.1),
                }) && r == (match bus_load_u32_spec(final(self).bus@, pa) {
                    Ok(v) => Ok::<u32, Trap>(v),
                    Err(_) => Err::<u32, Trap>(Trap { cause: Exception::InstAccessFault, tval: 0 }),
                }),
            },
    {
        let perm = self.get_perm(PERM_X);
        let pa = match self.resolve_paging(a, perm) {
            Ok(pa) => pa,
            Err(_) => {
                return Err(Trap { cause: Exception::InstPageFault, tval: a });
            },
        };
        match self.bus.load_u32(pa) {
            Ok(v) => Ok(v),
            Err(_) => Err(Trap { cause: Exception::InstAccessFault, tval: 0 }),
        }
    }
}

} // verus!
