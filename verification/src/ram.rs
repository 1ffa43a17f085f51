//! Little-endian byte-addressable memory anchored at `RAM_BASE`.
use vstd::prelude::*;
use crate::Exception;
use crate::bus::RAM_BASE;

verus! {

pub struct Ram {
    pub data: Vec<u8>,
}

/// The byte read by an 8-bit load, or a fault when the address is
/// below the RAM base or past the end of the backing buffer.
pub open spec fn ram_load_u8_spec(data: Seq<u8>, addr: u64) -> Result<u8, Exception> {
    if RAM_BASE <= addr && addr - RAM_BASE < data.len() {
        Ok(data[addr - RAM_BASE])
    } else {
        Err(Exception::LoadAccessFault)
    }
}

pub open spec fn ram_load_u16_spec(data: Seq<u8>, addr: u64) -> Result<u16, Exception> {
    if RAM_BASE <= addr && addr - RAM_BASE + 2 <= data.len() {
        Ok((data[addr - RAM_BASE] as u16) | ((data[addr - RAM_BASE + 1] as u16) << 8))
    } else {
        Err(Exception::LoadAccessFault)
    }
}

pub open spec fn ram_load_u32_spec(data: Seq<u8>, addr: u64) -> Result<u32, Exception> {
    if RAM_BASE <= addr && addr - RAM_BASE + 4 <= data.len() {
        Ok((data[addr - RAM_BASE] as u32) | ((data[addr - RAM_BASE + 1] as u32) << 8)
            | ((data[addr - RAM_BASE + 2] as u32) << 16)
            | ((data[addr - RAM_BASE + 3] as u32) << 24))
    } else {
        Err(Exception::LoadAccessFault)
    }
}

pub open spec fn ram_load_u64_spec(data: Seq<u8>, addr: u64) -> Result<u64, Exception> {
    if RAM_BASE <= addr && addr - RAM_BASE + 8 <= data.len() {
        Ok((data[addr - RAM_BASE] as u64) | ((data[addr - RAM_BASE + 1] as u64) << 8)
            | ((data[addr - RAM_BASE + 2] as u64) << 16)
            | ((data[addr - RAM_BASE + 3] as u64) << 24)
            | ((data[addr - RAM_BASE + 4] as u64) << 32)
            | ((data[addr - RAM_BASE + 5] as u64) << 40)
            | ((data[addr - RAM_BASE + 6] as u64) << 48)
            | ((data[addr - RAM_BASE + 7] as u64) << 56))
    } else {
        Err(Exception::LoadAccessFault)
    }
}

/// Whether a store of `sz` bytes at `addr` lands inside the buffer.
pub open spec fn ram_store_ok_spec(data: Seq<u8>, addr: u64, sz: int) -> bool {
    RAM_BASE <= addr && addr - RAM_BASE + sz <= data.len()
}

/// The buffer after an in-bounds little-endian store of the low
/// `sz` bytes of `v` at `addr`.
pub open spec fn ram_store_post_spec(data: Seq<u8>, addr: u64, v: u64, sz: int) -> Seq<u8>
    decreases sz,
{
    if sz <= 0 {
        data
    } else {
        ram_store_post_spec(data, addr, v, sz - 1).update(
            addr - RAM_BASE + (sz - 1),
            (v >> (((sz - 1) * 8) as u64)) as u8,
        )
    }
}

impl Ram {
    pub fn new(data: Vec<u8>) -> (r: Ram)
        ensures
            r.data@ == data@,
    {
        Ram { data }
    }

    pub fn load_u8(&self, addr: u64) -> (r: Result<u8, Exception>)
        ensures
            r == ram_load_u8_spec(self.data@, addr),
    {
        if RAM_BASE <= addr && addr - RAM_BASE < self.data.len() as u64 {
            Ok(self.data[(addr - RAM_BASE) as usize])
        } else {
            Err(Exception::LoadAccessFault)
        }
    }

    pub fn load_u16(&self, addr: u64) -> (r: Result<u16, Exception>)
        ensures
            r == ram_load_u16_spec(self.data@, addr),
    {
        if RAM_BASE <= addr && addr - RAM_BASE <= u64::MAX - 2 && addr - RAM_BASE + 2 <= self.data.len() as u64 {
            let s = (addr - RAM_BASE) as usize;
            Ok((self.data[s] as u16) | ((self.data[s + 1] as u16) << 8u16))
        } else {
            Err(Exception::LoadAccessFault)
        }
    }

    pub fn load_u32(&self, addr: u64) -> (r: Result<u32, Exception>)
        ensures
            r == ram_load_u32_spec(self.data@, addr),
    {
        if RAM_BASE <= addr && addr - RAM_BASE <= u64::MAX - 4 && addr - RAM_BASE + 4 <= self.data.len() as u64 {
            let s = (addr - RAM_BASE) as usize;
            Ok((self.data[s] as u32) | ((self.data[s + 1] as u32) << 8u32)
                | ((self.data[s + 2] as u32) << 16u32) | ((self.data[s + 3] as u32) << 24u32))
        } else {
            Err(Exception::LoadAccessFault)
        }
    }

    pub fn load_u64(&self, addr: u64) -> (r: Result<u64, Exception>)
        ensures
            r == ram_load_u64_spec(self.data@, addr),
    {
        if RAM_BASE <= addr && addr - RAM_BASE <= u64::MAX - 8 && addr - RAM_BASE + 8 <= self.data.len() as u64 {
            let s = (addr - RAM_BASE) as usize;
            Ok((self.data[s] as u64) | ((self.data[s + 1] as u64) << 8u64)
                | ((self.data[s + 2] as u64) << 16u64) | ((self.data[s + 3] as u64) << 24u64)
                | ((self.data[s + 4] as u64) << 32u64) | ((self.data[s + 5] as u64) << 40u64)
                | ((self.data[s + 6] as u64) << 48u64) | ((self.data[s + 7] as u64) << 56u64))
        } else {
            Err(Exception::LoadAccessFault)
        }
    }

    /// Store the low `sz` bytes of `v` little-endian at `addr`;
    /// out-of-bounds stores fault and leave the buffer unchanged.
    pub fn store_bytes(&mut self, addr: u64, v: u64, sz: usize) -> (r: Result<(), Exception>)
        requires
            1 <= sz <= 8,
        ensures
            r is Ok <==> ram_store_ok_spec(old(self).data@, addr, sz as int),
            r is Ok ==> final(self).data@ == ram_store_post_spec(old(self).data@, addr, v, sz as int),
            r is Err ==> final(self).data@ == old(self).data@ && r == Err::<(), Exception>(
                Exception::StoreAccessFault,
            ),
    {
        if RAM_BASE <= addr && addr - RAM_BASE <= u64::MAX - 8 && addr - RAM_BASE + sz as u64 <= self.data.len() as u64 {
            let s = (addr - RAM_BASE) as usize;
            let mut k: usize = 0;
            while k < sz
                invariant
                    k <= sz <= 8,
                    RAM_BASE <= addr,
                    addr - RAM_BASE + sz <= self.data.len(),
                    s == addr - RAM_BASE,
                    self.data@ == ram_store_post_spec(old(self).data@, addr, v, k as int),
                decreases sz - k,
            {
                proof {
                    assert(ram_store_post_spec(old(self).data@, addr, v, (k + 1) as int)
                        == ram_store_post_spec(old(self).data@, addr, v, k as int).update(
                        addr - RAM_BASE + k,
                        (v >> ((k * 8) as u64)) as u8,
                    ));
                }
                self.data[s + k] = (v >> ((k * 8) as u64)) as u8;
                k = k + 1;
            }
            Ok(())
        } else {
            Err(Exception::StoreAccessFault)
        }
    }
}

} // verus!
