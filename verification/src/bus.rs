//! Address-decoded dispatch to RAM, PLIC, CLINT and UART. A load or
//! store outside every device range, or of a width a device does not
//! implement, is an access fault.
use vstd::prelude::*;
use crate::Exception;
use crate::clint::Clint;
use crate::clint::clint_load_u64_spec;
use crate::clint::clint_store_u64_spec;
use crate::plic::Plic;
use crate::plic::plic_load_u32_spec;
use crate::plic::plic_store_u32_spec;
use crate::ram::Ram;
use crate::ram::ram_load_u16_spec;
use crate::ram::ram_load_u32_spec;
use crate::ram::ram_load_u64_spec;
use crate::ram::ram_load_u8_spec;
use crate::ram::ram_store_ok_spec;
use crate::ram::ram_store_post_spec;
use crate::uart::Uart;
use crate::uart::UART_THR;

verus! {

pub const RAM_BASE: u64 = 0x8000_0000;

pub const RAM_SIZE: u64 = 32 * 1024 * 1024;

pub const PLIC_BASE: u64 = 0x0c00_0000;

pub const PLIC_SIZE: u64 = 0x0400_0000;

pub const CLINT_BASE: u64 = 0x0200_0000;

pub const CLINT_SIZE: u64 = 0x0001_0000;

pub const UART_BASE: u64 = 0x1000_0000;

pub const UART_SIZE: u64 = 0x0000_0008;

pub open spec fn in_ram(addr: u64) -> bool {
    RAM_BASE <= addr < RAM_BASE + RAM_SIZE
}

pub open spec fn in_plic(addr: u64) -> bool {
    PLIC_BASE <= addr < PLIC_BASE + PLIC_SIZE
}

pub open spec fn in_clint(addr: u64) -> bool {
    CLINT_BASE <= addr < CLINT_BASE + CLINT_SIZE
}

pub open spec fn in_uart(addr: u64) -> bool {
    UART_BASE <= addr < UART_BASE + UART_SIZE
}

pub struct Bus {
    pub ram: Ram,
    pub plic: Plic,
    pub clint: Clint,
    pub uart: Uart,
}

/// The mathematical state of the bus: the RAM bytes, the device
/// registers, and the bytes the UART has emitted so far.
pub struct BusView {
    pub ram: Seq<u8>,
    pub plic: Plic,
    pub clint: Clint,
    pub uart: Seq<u8>,
}

impl View for Bus {
    type V = BusView;

    open spec fn view(&self) -> BusView {
        BusView { ram: self.ram.data@, plic: self.plic, clint: self.clint, uart: self.uart.out@ }
    }
}

pub open spec fn bus_load_u8_spec(b: BusView, addr: u64) -> Result<u8, Exception> {
    if in_ram(addr) {
        ram_load_u8_spec(b.ram, addr)
    } else if in_uart(addr) {
        Ok(0u8)
    } else {
        Err(Exception::LoadAccessFault)
    }
}

pub open spec fn bus_load_u16_spec(b: BusView, addr: u64) -> Result<u16, Exception> {
    if in_ram(addr) {
        ram_load_u16_spec(b.ram, addr)
    } else {
        Err(Exception::LoadAccessFault)
    }
}

pub open spec fn bus_load_u32_spec(b: BusView, addr: u64) -> Result<u32, Exception> {
    if in_ram(addr) {
        ram_load_u32_spec(b.ram, addr)
    } else if in_plic(addr) {
        Ok(plic_load_u32_spec(b.plic, addr))
    } else {
        Err(Exception::LoadAccessFault)
    }
}

pub open spec fn bus_load_u64_spec(b: BusView, addr: u64) -> Result<u64, Exception> {
    if in_ram(addr) {
        ram_load_u64_spec(b.ram, addr)
    } else if in_clint(addr) {
        Ok(clint_load_u64_spec(b.clint, addr))
    } else {
        Err(Exception::LoadAccessFault)
    }
}

pub open spec fn bus_store_u8_ok_spec(b: BusView, addr: u64) -> bool {
    if in_ram(addr) {
        ram_store_ok_spec(b.ram, addr, 1)
    } else {
        in_uart(addr)
    }
}

pub open spec fn bus_store_u8_post_spec(b: BusView, addr: u64, v: u8) -> BusView {
    if in_ram(addr) && ram_store_ok_spec(b.ram, addr, 1) {
        BusView { ram: ram_store_post_spec(b.ram, addr, v as u64, 1), ..b }
    } else if in_uart(addr) && addr == UART_THR {
        BusView { uart: b.uart.push(v), ..b }
    } else {
        b
    }
}

pub open spec fn bus_store_u16_ok_spec(b: BusView, addr: u64) -> bool {
    in_ram(addr) && ram_store_ok_spec(b.ram, addr, 2)
}

pub open spec fn bus_store_u16_post_spec(b: BusView, addr: u64, v: u16) -> BusView {
    if bus_store_u16_ok_spec(b, addr) {
        BusView { ram: ram_store_post_spec(b.ram, addr, v as u64, 2), ..b }
    } else {
        b
    }
}

pub open spec fn bus_store_u32_ok_spec(b: BusView, addr: u64) -> bool {
    if in_ram(addr) {
        ram_store_ok_spec(b.ram, addr, 4)
    } else {
        in_plic(addr)
    }
}

pub open spec fn bus_store_u32_post_spec(b: BusView, addr: u64, v: u32) -> BusView {
    if in_ram(addr) && ram_store_ok_spec(b.ram, addr, 4) {
        BusView { ram: ram_store_post_spec(b.ram, addr, v as u64, 4), ..b }
    } else if in_plic(addr) {
        BusView { plic: plic_store_u32_spec(b.plic, addr, v), ..b }
    } else {
        b
    }
}

pub open spec fn bus_store_u64_ok_spec(b: BusView, addr: u64) -> bool {
    if in_ram(addr) {
        ram_store_ok_spec(b.ram, addr, 8)
    } else {
        in_clint(addr)
    }
}

pub open spec fn bus_store_u64_post_spec(b: BusView, addr: u64, v: u64) -> BusView {
    if in_ram(addr) && ram_store_ok_spec(b.ram, addr, 8) {
        BusView { ram: ram_store_post_spec(b.ram, addr, v, 8), ..b }
    } else if in_clint(addr) {
        BusView { clint: clint_store_u64_spec(b.clint, addr, v), ..b }
    } else {
        b
    }
}

impl Bus {
    pub fn new(ram: Ram) -> (r: Bus)
        ensures
            r@ == (BusView {
                ram: ram.data@,
                plic: Plic { pending: 0, senable: 0, spriority: 0, sclaim: 0 },
                clint: Clint { mtime: 0, mtimecmp: 0 },
                uart: Seq::<u8>::empty(),
            }),
    {
        let r = Bus { ram, plic: Plic::new(), clint: Clint::new(), uart: Uart::new() };
        proof {
            assert(r@ =~= (BusView {
                ram: r.ram.data@,
                plic: Plic { pending: 0, senable: 0, spriority: 0, sclaim: 0 },
                clint: Clint { mtime: 0, mtimecmp: 0 },
                uart: Seq::<u8>::empty(),
            }));
        }
        r
    }

    pub fn load_u8(&self, addr: u64) -> (r: Result<u8, Exception>)
        ensures
            r == bus_load_u8_spec(self@, addr),
    {
        if RAM_BASE <= addr && addr < RAM_BASE + RAM_SIZE {
            self.ram.load_u8(addr)
        } else if UART_BASE <= addr && addr < UART_BASE + UART_SIZE {
            self.uart.load_u8(addr)
        } else {
            Err(Exception::LoadAccessFault)
        }
    }

    pub fn load_u16(&self, addr: u64) -> (r: Result<u16, Exception>)
        ensures
            r == bus_load_u16_spec(self@, addr),
    {
        if RAM_BASE <= addr && addr < RAM_BASE + RAM_SIZE {
            self.ram.load_u16(addr)
        } else {
            Err(Exception::LoadAccessFault)
        }
    }

    pub fn load_u32(&self, addr: u64) -> (r: Result<u32, Exception>)
        ensures
            r == bus_load_u32_spec(self@, addr),
    {
        if RAM_BASE <= addr && addr < RAM_BASE + RAM_SIZE {
            self.ram.load_u32(addr)
        } else if PLIC_BASE <= addr && addr < PLIC_BASE + PLIC_SIZE {
            self.plic.load_u32(addr)
        } else {
            Err(Exception::LoadAccessFault)
        }
    }

    pub fn load_u64(&self, addr: u64) -> (r: Result<u64, Exception>)
        ensures
            r == bus_load_u64_spec(self@, addr),
    {
        if RAM_BASE <= addr && addr < RAM_BASE + RAM_SIZE {
            self.ram.load_u64(addr)
        } else if CLINT_BASE <= addr && addr < CLINT_BASE + CLINT_SIZE {
            self.clint.load_u64(addr)
        } else {
            Err(Exception::LoadAccessFault)
        }
    }

    pub fn store_u8(&mut self, addr: u64, v: u8) -> (r: Result<(), Exception>)
        ensures
            r is Ok <==> bus_store_u8_ok_spec(old(self)@, addr),
            r is Ok ==> final(self)@ == bus_store_u8_post_spec(old(self)@, addr, v),
            r is Err ==> final(self)@ == old(self)@ && r == Err::<(), Exception>(
                Exception::StoreAccessFault,
            ),
    {
        if RAM_BASE <= addr && addr < RAM_BASE + RAM_SIZE {
            let r = self.ram.store_bytes(addr, v as u64, 1);
            proof {
                if r is Ok {
                    assert(self@ =~= bus_store_u8_post_spec(old(self)@, addr, v));
                } else {
                    assert(self@ =~= old(self)@);
                }
            }
            r
        } else if UART_BASE <= addr && addr < UART_BASE + UART_SIZE {
            let r = self.uart.store_u8(addr, v);
            proof {
                assert(self@ =~= bus_store_u8_post_spec(old(self)@, addr, v));
            }
            r
        } else {
            Err(Exception::StoreAccessFault)
        }
    }

    pub fn store_u16(&mut self, addr: u64, v: u16) -> (r: Result<(), Exception>)
        ensures
            r is Ok <==> bus_store_u16_ok_spec(old(self)@, addr),
            r is Ok ==> final(self)@ == bus_store_u16_post_spec(old(self)@, addr, v),
            r is Err ==> final(self)@ == old(self)@ && r == Err::<(), Exception>(
                Exception::StoreAccessFault,
            ),
    {
        if RAM_BASE <= addr && addr < RAM_BASE + RAM_SIZE {
            let r = self.ram.store_bytes(addr, v as u64, 2);
            proof {
                if r is Ok {
                    assert(self@ =~= bus_store_u16_post_spec(old(self)@, addr, v));
                } else {
                    assert(self@ =~= old(self)@);
                }
            }
            r
        } else {
            Err(Exception::StoreAccessFault)
        }
    }

    pub fn store_u32(&mut self, addr: u64, v: u32) -> (r: Result<(), Exception>)
        ensures
            r is Ok <==> bus_store_u32_ok_spec(old(self)@, addr),
            r is Ok ==> final(self)@ == bus_store_u32_post_spec(old(self)@, addr, v),
            r is Err ==> final(self)@ == old(self)@ && r == Err::<(), Exception>(
                Exception::StoreAccessFault,
            ),
    {
        if RAM_BASE <= addr && addr < RAM_BASE + RAM_SIZE {
            let r = self.ram.store_bytes(addr, v as u64, 4);
            proof {
                if r is Ok {
                    assert(self@ =~= bus_store_u32_post_spec(old(self)@, addr, v));
                } else {
                    assert(self@ =~= old(self)@);
                }
            }
            r
        } else if PLIC_BASE <= addr && addr < PLIC_BASE + PLIC_SIZE {
            let r = self.plic.store_u32(addr, v);
            proof {
                assert(self@ =~= bus_store_u32_post_spec(old(self)@, addr, v));
            }
            r
        } else {
            Err(Exception::StoreAccessFault)
        }
    }

    pub fn store_u64(&mut self, addr: u64, v: u64) -> (r: Result<(), Exception>)
        ensures
            r is Ok <==> bus_store_u64_ok_spec(old(self)@, addr),
            r is Ok ==> final(self)@ == bus_store_u64_post_spec(old(self)@, addr, v),
            r is Err ==> final(self)@ == old(self)@ && r == Err::<(), Exception>(
                Exception::StoreAccessFault,
            ),
    {
        if RAM_BASE <= addr && addr < RAM_BASE + RAM_SIZE {
            let r = self.ram.store_bytes(addr, v, 8);
            proof {
                if r is Ok {
                    assert(self@ =~= bus_store_u64_post_spec(old(self)@, addr, v));
                } else {
                    assert(self@ =~= old(self)@);
                }
            }
            r
        } else if CLINT_BASE <= addr && addr < CLINT_BASE + CLINT_SIZE {
            let r = self.clint.store_u64(addr, v);
            proof {
                assert(self@ =~= bus_store_u64_post_spec(old(self)@, addr, v));
            }
            r
        } else {
            Err(Exception::StoreAccessFault)
        }
    }
}

} // verus!
