//! A single-hart RV64IMAFC instruction-set emulator: fetch, decode and
//! execute with machine/supervisor/user privilege, a CSR file, Sv39
//! address translation, LR/SC reservations, an IEEE-754 FPU with
//! NaN-boxing, and a memory-mapped bus with RAM, CLINT, PLIC and UART.
use vstd::prelude::*;

pub mod atomic;
pub mod bits;
pub mod bus;
pub mod clint;
pub mod comp;
pub mod cpu;
pub mod csr;
pub mod exec;
pub mod float;
pub mod laws;
pub mod mmu;
pub mod plic;
pub mod ram;
pub mod sqrt;
pub mod uart;

verus! {

/// Privilege level of the hart; the numeric encoding used by
/// `mstatus.MPP`/`SPP` is given by `Mode::code`.
#[derive(Debug, Clone, Copy, PartialEq, Eq, Structural)]
pub enum Mode {
    User,
    Supervisor,
    Reserved,
    Machine,
}

impl Mode {
    /// Encoding of this privilege level as it appears in `mstatus`.
    pub fn code(self) -> (c: u64)
        ensures
            c == self.code_spec(),
    {
        match self {
            Mode::User => 0,
            Mode::Supervisor => 1,
            Mode::Reserved => 2,
            Mode::Machine => 3,
        }
    }

    pub open spec fn code_spec(self) -> u64 {
        match self {
            Mode::User => 0,
            Mode::Supervisor => 1,
            Mode::Reserved => 2,
            Mode::Machine => 3,
        }
    }

    /// The privilege level encoded by `c & 3`.
    pub fn from_code(c: u64) -> (m: Mode)
        ensures
            m == Mode::from_code_spec(c),
    {
        match c & 3 {
            0 => Mode::User,
            1 => Mode::Supervisor,
            2 => Mode::Reserved,
            _ => Mode::Machine,
        }
    }

    pub open spec fn from_code_spec(c: u64) -> Mode {
        if c & 3 == 0 {
            Mode::User
        } else if c & 3 == 1 {
            Mode::Supervisor
        } else if c & 3 == 2 {
            Mode::Reserved
        } else {
            Mode::Machine
        }
    }

    /// The exception an `ECALL` raises from this privilege level.
    pub fn ecall_exception(self) -> (e: Exception)
        ensures
            e == self.ecall_exception_spec(),
    {
        match self {
            Mode::User => Exception::EcallFromUser,
            Mode::Supervisor => Exception::EcallFromSupervisor,
            Mode::Reserved => Exception::EcallFromReserved,
            Mode::Machine => Exception::EcallFromMachine,
        }
    }

    pub open spec fn ecall_exception_spec(self) -> Exception {
        match self {
            Mode::User => Exception::EcallFromUser,
            Mode::Supervisor => Exception::EcallFromSupervisor,
            Mode::Reserved => Exception::EcallFromReserved,
            Mode::Machine => Exception::EcallFromMachine,
        }
    }
}

/// Architectural exception causes of the RISC-V privileged
/// specification; the numeric cause code is given by `Exception::code`.
#[derive(Debug, Clone, Copy, PartialEq, Eq, Structural)]
pub enum Exception {
    InstAddrMisalign,
    InstAccessFault,
    IllegalInst,
    Breakpoint,
    LoadAddrMisalign,
    LoadAccessFault,
    StoreAddrMisalign,
    StoreAccessFault,
    EcallFromUser,
    EcallFromSupervisor,
    EcallFromReserved,
    EcallFromMachine,
    InstPageFault,
    LoadPageFault,
    StorePageFault,
    SoftwareCheck,
    HardwareError,
}

impl Exception {
    /// The cause code written to `xcause` when this exception is delivered.
    pub fn code(self) -> (c: u64)
        ensures
            c == self.code_spec(),
    {
        match self {
            Exception::InstAddrMisalign => 0,
            Exception::InstAccessFault => 1,
            Exception::IllegalInst => 2,
            Exception::Breakpoint => 3,
            Exception::LoadAddrMisalign => 4,
            Exception::LoadAccessFault => 5,
            Exception::StoreAddrMisalign => 6,
            Exception::StoreAccessFault => 7,
            Exception::EcallFromUser => 8,
            Exception::EcallFromSupervisor => 9,
            Exception::EcallFromReserved => 10,
            Exception::EcallFromMachine => 11,
            Exception::InstPageFault => 12,
            Exception::LoadPageFault => 13,
            Exception::StorePageFault => 15,
            Exception::SoftwareCheck => 18,
            Exception::HardwareError => 19,
        }
    }

    pub open spec fn code_spec(self) -> u64 {
        match self {
            Exception::InstAddrMisalign => 0,
            Exception::InstAccessFault => 1,
            Exception::IllegalInst => 2,
            Exception::Breakpoint => 3,
            Exception::LoadAddrMisalign => 4,
            Exception::LoadAccessFault => 5,
            Exception::StoreAddrMisalign => 6,
            Exception::StoreAccessFault => 7,
            Exception::EcallFromUser => 8,
            Exception::EcallFromSupervisor => 9,
            Exception::EcallFromReserved => 10,
            Exception::EcallFromMachine => 11,
            Exception::InstPageFault => 12,
            Exception::LoadPageFault => 13,
            Exception::StorePageFault => 15,
            Exception::SoftwareCheck => 18,
            Exception::HardwareError => 19,
        }
    }
}

} // verus!
