//! Platform-level interrupt controller registers for one supervisor context.
use vstd::prelude::*;
use crate::Exception;
use crate::bus::PLIC_BASE;

verus! {

pub const PLIC_PENDING: u64 = PLIC_BASE + 0x1000;

pub const PLIC_SENABLE: u64 = PLIC_BASE + 0x2080;

pub const PLIC_SPRIORITY: u64 = PLIC_BASE + 0x201000;

pub const PLIC_SCLAIM: u64 = PLIC_BASE + 0x201004;

pub struct Plic {
    pub pending: u32,
    pub senable: u32,
    pub spriority: u32,
    pub sclaim: u32,
}

/// A 32-bit load returns the selected register; other offsets read zero.
pub open spec fn plic_load_u32_spec(p: Plic, addr: u64) -> u32 {
    if addr == PLIC_PENDING {
        p.pending
    } else if addr == PLIC_SENABLE {
        p.senable
    } else if addr == PLIC_SPRIORITY {
        p.spriority
    } else if addr == PLIC_SCLAIM {
        p.sclaim
    } else {
        0
    }
}

/// A 32-bit store replaces the selected register; other offsets are ignored.
pub open spec fn plic_store_u32_spec(p: Plic, addr: u64, v: u32) -> Plic {
    if addr == PLIC_PENDING {
        Plic { pending: v, ..p }
    } else if addr == PLIC_SENABLE {
        Plic { senable: v, ..p }
    } else if addr == PLIC_SPRIORITY {
        Plic { spriority: v, ..p }
    } else if addr == PLIC_SCLAIM {
        Plic { sclaim: v, ..p }
    } else {
        p
    }
}

impl Plic {
    pub fn new() -> (r: Plic)
        ensures
            r.pending == 0,
            r.senable == 0,
            r.spriority == 0,
            r.sclaim == 0,
    {
        Plic { pending: 0, senable: 0, spriority: 0, sclaim: 0 }
    }

    pub fn load_u32(&self, addr: u64) -> (r: Result<u32, Exception>)
        ensures
            r == Ok::<u32, Exception>(plic_load_u32_spec(*self, addr)),
    {
        if addr == PLIC_PENDING {
            Ok(self.pending)
        } else if addr == PLIC_SENABLE {
            Ok(self.senable)
        } else if addr == PLIC_SPRIORITY {
            Ok(self.spriority)
        } else if addr == PLIC_SCLAIM {
            Ok(self.sclaim)
        } else {
            Ok(0)
        }
    }

    pub fn store_u32(&mut self, addr: u64, v: u32) -> (r: Result<(), Exception>)
        ensures
            r is Ok,
            *final(self) == plic_store_u32_spec(*old(self), addr, v),
    {
        if addr == PLIC_PENDING {
            self.pending = v;
        } else if addr == PLIC_SENABLE {
            self.senable = v;
        } else if addr == PLIC_SPRIORITY {
            self.spriority = v;
        } else if addr == PLIC_SCLAIM {
            self.sclaim = v;
        }
        Ok(())
    }
}

} // verus!
