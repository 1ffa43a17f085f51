//! Core-local interruptor: the `mtime` and `mtimecmp` 64-bit slots.
use vstd::prelude::*;
use crate::Exception;
use crate::bus::CLINT_BASE;

verus! {

pub const CLINT_MTIMECMP: u64 = CLINT_BASE + 0x4000;

pub const CLINT_MTIME: u64 = CLINT_BASE + 0xbff8;

pub struct Clint {
    pub mtime: u64,
    pub mtimecmp: u64,
}

/// A 64-bit load returns the selected timer slot; other offsets read zero.
pub open spec fn clint_load_u64_spec(c: Clint, addr: u64) -> u64 {
    if addr == CLINT_MTIMECMP {
        c.mtimecmp
    } else if addr == CLINT_MTIME {
        c.mtime
    } else {
        0
    }
}

/// A 64-bit store replaces the selected timer slot; other offsets are ignored.
pub open spec fn clint_store_u64_spec(c: Clint, addr: u64, v: u64) -> Clint {
    if addr == CLINT_MTIMECMP {
        Clint { mtimecmp: v, ..c }
    } else if addr == CLINT_MTIME {
        Clint { mtime: v, ..c }
    } else {
        c
    }
}

impl Clint {
    pub fn new() -> (r: Clint)
        ensures
            r.mtime == 0,
            r.mtimecmp == 0,
    {
        Clint { mtime: 0, mtimecmp: 0 }
    }

    pub fn load_u64(&self, addr: u64) -> (r: Result<u64, Exception>)
        ensures
            r == Ok::<u64, Exception>(clint_load_u64_spec(*self, addr)),
    {
        if addr == CLINT_MTIMECMP {
            Ok(self.mtimecmp)
        } else if addr == CLINT_MTIME {
            Ok(self.mtime)
        } else {
            Ok(0)
        }
    }

    pub fn store_u64(&mut self, addr: u64, v: u64) -> (r: Result<(), Exception>)
        ensures
            r is Ok,
            *final(self) == clint_store_u64_spec(*old(self), addr, v),
    {
        if addr == CLINT_MTIMECMP {
            self.mtimecmp = v;
        } else if addr == CLINT_MTIME {
            self.mtime = v;
        }
        Ok(())
    }
}

} // verus!
