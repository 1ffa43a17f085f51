//! 16550-style UART: bytes stored to the transmit holding register are
//! buffered in `out` for a host sink to drain; reads return zero.
use vstd::prelude::*;
use crate::Exception;
use crate::bus::UART_BASE;

verus! {

pub const UART_THR: u64 = UART_BASE;

pub struct Uart {
    pub out: Vec<u8>,
}

impl Uart {
    pub fn new() -> (r: Uart)
        ensures
            r.out@ == Seq::<u8>::empty(),
    {
        Uart { out: Vec::new() }
    }

    pub fn load_u8(&self, addr: u64) -> (r: Result<u8, Exception>)
        ensures
            r == Ok::<u8, Exception>(0u8),
    {
        let _ = addr;
        Ok(0)
    }

    /// A store to the transmit holding register appends the byte to the
    /// output buffer; stores to the other registers are ignored.
    pub fn store_u8(&mut self, addr: u64, v: u8) -> (r: Result<(), Exception>)
        ensures
            r is Ok,
            addr == UART_THR ==> final(self).out@ == old(self).out@.push(v),
            addr != UART_THR ==> *final(self) == *old(self),
    {
        if addr == UART_THR {
            self.out.push(v);
        }
        Ok(())
    }
}

} // verus!
