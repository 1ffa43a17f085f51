//! Hart state: general and floating registers, program counter,
//! privilege mode, CSR bank, paging root and the LR/SC reservation set.
use vstd::prelude::*;
use crate::Exception;
use crate::Mode;
use crate::atomic::ReservationSet;
use crate::bus::Bus;
use crate::mmu::Paging;

verus! {

broadcast use crate::bits::lemma_u64_and_le, crate::bits::lemma_u64_and4095_id;

/// An exception together with the value delivered to `xtval`:
/// the misaligned or faulting address, the offending encoding for an
/// illegal instruction, and zero otherwise.
#[derive(Debug, Clone, Copy, PartialEq, Eq, Structural)]
pub struct Trap {
    pub cause: Exception,
    pub tval: u64,
}

pub struct Cpu {
    pub bus: Bus,
    /// x1 through x31; x0 is not stored, it always reads zero.
    pub regs: Vec<u64>,
    /// f0 through f31, NaN-boxed.
    pub float_regs: Vec<u64>,
    pub pc: u64,
    pub mode: Mode,
    pub csrs: Vec<u64>,
    pub pages: Paging,
    pub amo_rs: ReservationSet,
}

impl Cpu {
    /// Sizes of the fixed register banks and the reservation set.
    pub open spec fn wf(self) -> bool {
        &&& self.regs@.len() == 31
        &&& self.float_regs@.len() == 32
        &&& self.csrs@.len() == 4096
        &&& self.amo_rs.wf()
    }

    /// The value register `r` holds: zero for x0, the stored slot otherwise.
    pub open spec fn read_reg_spec(self, r: int) -> u64 {
        if r == 0 {
            0
        } else {
            self.regs@[r - 1]
        }
    }

    /// The general register bank after writing `v` to register `r`;
    /// a write to x0 is discarded.
    pub open spec fn write_reg_spec(self, r: int, v: u64) -> Seq<u64> {
        if r == 0 {
            self.regs@
        } else {
            self.regs@.update(r - 1, v)
        }
    }

    /// A hart at reset: `pc` at the RAM base, machine mode, all
    /// registers zero, `mstatus` seeded with the XLEN fields and
    /// `FS = Initial`, bare paging, an empty reservation set.
    pub fn new(bus: Bus) -> (r: Cpu)
        ensures
            r.wf(),
            r.bus == bus,
            r.pc == 0x8000_0000u64,
            r.mode == Mode::Machine,
            forall|i: int| 0 <= i < 31 ==> r.regs@[i] == 0,
            forall|i: int| 0 <= i < 32 ==> r.float_regs@[i] == 0,
            r.csrs@[crate::csr::CSR_MSTATUS as int] == 0x0000_000a_0000_2000u64,
            forall|i: int|
                0 <= i < 4096 && i != crate::csr::CSR_MSTATUS as int ==> r.csrs@[i] == 0,
            r.pages == Paging::Bare,
            r.amo_rs.entries() == Seq::<u64>::empty(),
    {
        let mut cpu = Cpu {
            bus,
            regs: vec![0u64; 31],
            float_regs: vec![0u64; 32],
            pc: 0x8000_0000,
            mode: Mode::Machine,
            csrs: vec![0u64; 4096],
            pages: Paging::Bare,
            amo_rs: ReservationSet::new(),
        };
        cpu.csrs[crate::csr::CSR_MSTATUS as usize] = 0x0000_000a_0000_2000;
        cpu
    }

    /// Reads of x0 always yield zero, whatever was written.
    pub fn read_reg(&self, r: usize) -> (v: u64)
        requires
            self.wf(),
            r < 32,
        ensures
            v == self.read_reg_spec(r as int),
            r == 0 ==> v == 0,
    {
        if r == 0 {
            0
        } else {
            self.regs[r - 1]
        }
    }

    /// Writes to x0 are discarded; all other state is untouched.
    pub fn write_reg(&mut self, r: usize, v: u64)
        requires
            old(self).wf(),
            r < 32,
        ensures
            final(self).wf(),
            final(self).regs@ == old(self).write_reg_spec(r as int, v),
            *final(self) == (Cpu { regs: final(self).regs, ..*old(self) }),
            final(self).read_reg_spec(0) == 0,
    {
        if r != 0 {
            self.regs[r - 1] = v;
        }
    }

    /// Replace `pc` with `v` and hand back the old value; a target that
    /// is not 2-byte aligned raises `InstAddrMisalign` with the target
    /// as `tval` and changes nothing.
    pub fn write_pc(&mut self, v: u64) -> (r: Result<u64, Trap>)
        ensures
            v & 1 == 0 ==> r == Ok::<u64, Trap>(old(self).pc) && *final(self) == (Cpu {
                pc: v,
                ..*old(self)
            }),
            v & 1 != 0 ==> r == Err::<u64, Trap>(
                Trap { cause: Exception::InstAddrMisalign, tval: v },
            ) && *final(self) == *old(self),
    {
        if v & 1 == 0 {
            let o = self.pc;
            self.pc = v;
            Ok(o)
        } else {
            Err(Trap { cause: Exception::InstAddrMisalign, tval: v })
        }
    }
}

/// The trap-vector target: direct for `tvec` mode 0 (and the reserved
/// modes), `base + 4 * cause_bit` for mode 1 (vectored).
pub open spec fn tvec_target_spec(tvec: u64, cause: u64) -> u64 {
    if tvec & 3 == 1 {
        (tvec & !3).wrapping_add((cause & 0x7fff_ffff_ffff_ffff).wrapping_mul(4))
    } else {
        tvec & !3
    }
}

/// `mstatus` after delivery to machine mode: `MPIE` takes `MIE`, `MIE`
/// clears, and `MPP` records the interrupted privilege level.
pub open spec fn mtrap_mstatus_spec(m: u64, prev: u64) -> u64 {
    let m1 = m & !0x1880;
    let m2 = m1 | ((m1 & 8) << 4);
    let m3 = m2 & !8;
    m3 | ((prev & 3) << 11)
}

/// `mstatus` after delivery to supervisor mode: `SPIE` takes `SIE`,
/// `SIE` clears, and `SPP` records the interrupted privilege level.
pub open spec fn strap_mstatus_spec(m: u64, prev: u64) -> u64 {
    let m1 = m & !0x120;
    let m2 = m1 | ((m1 & 2) << 4);
    let m3 = m2 & !2;
    m3 | ((prev & 1) << 8)
}

/// The CSR bank after a machine-mode trap: `mcause`, `mepc` and
/// `mtval` written, then the `mstatus` transition.
pub open spec fn machine_trap_post(c: Seq<u64>, cause: u64, epc: u64, tval: u64, prev: Mode) -> Seq<
    u64,
> {
    let c1 = c.update(crate::csr::CSR_MCAUSE as int, cause).update(
        crate::csr::CSR_MEPC as int,
        epc,
    ).update(crate::csr::CSR_MTVAL as int, tval);
    crate::csr::mstatus_write_post(
        c1,
        mtrap_mstatus_spec(crate::csr::mstatus_read_spec(c1), prev.code_spec()),
    )
}

/// The CSR bank after a supervisor-mode trap: `scause`, `sepc` and
/// `stval` written, then the `mstatus` transition.
pub open spec fn supervisor_trap_post(
    c: Seq<u64>,
    cause: u64,
    epc: u64,
    tval: u64,
    prev: Mode,
) -> Seq<u64> {
    let c1 = c.update(crate::csr::CSR_SCAUSE as int, cause).update(
        crate::csr::CSR_SEPC as int,
        epc,
    ).update(crate::csr::CSR_STVAL as int, tval);
    crate::csr::mstatus_write_post(
        c1,
        strap_mstatus_spec(crate::csr::mstatus_read_spec(c1), prev.code_spec()),
    )
}

/// Whether a trap with cause bit `cause & 0x3f` is delegated to
/// supervisor mode: the hart is below machine mode and the matching
/// bit of the delegation CSR (`medeleg` or `mideleg`) is set.
pub open spec fn trap_to_supervisor_spec(cpu: Cpu, cause: u64, deleg: u64) -> bool {
    cpu.mode != Mode::Machine && (cpu.csrs@[deleg as int] >> (cause & 0x3f)) & 1 == 1
}

impl Cpu {
    /// Deliver a trap of cause code `cause` (with the interrupt flag in
    /// bit 63 where it applies): write `xcause`, `xepc = epc`,
    /// `xtval = tval`, shift `xIE` into `xPIE`, record the interrupted
    /// mode in `xPP`, jump to `xtvec` and enter the delivery mode.
    pub fn deliver_trap(&mut self, cause: u64, tval: u64, epc: u64, deleg: u64)
        requires
            old(self).wf(),
            deleg == crate::csr::CSR_MEDELEG || deleg == crate::csr::CSR_MIDELEG,
        ensures
            final(self).wf(),
            *final(self) == (Cpu {
                csrs: final(self).csrs,
                pc: final(self).pc,
                mode: final(self).mode,
                ..*old(self)
            }),
            trap_to_supervisor_spec(*old(self), cause, deleg) ==> final(self).mode
                == Mode::Supervisor && final(self).csrs@ == supervisor_trap_post(
                old(self).csrs@,
                cause,
                epc,
                tval,
                old(self).mode,
            ) && final(self).pc == tvec_target_spec(
                old(self).csrs@[crate::csr::CSR_STVEC as int],
                cause,
            ),
            !trap_to_supervisor_spec(*old(self), cause, deleg) ==> final(self).mode == Mode::Machine
                && final(self).csrs@ == machine_trap_post(
                old(self).csrs@,
                cause,
                epc,
                tval,
                old(self).mode,
            ) && final(self).pc == tvec_target_spec(
                old(self).csrs@[crate::csr::CSR_MTVEC as int],
                cause,
            ),
    {
        let cause_bit = cause & 0x3f;
        let d = self.csr_read_cpu(deleg);
        let not_machine = match self.mode {
            Mode::Machine => false,
            _ => true,
        };
        if not_machine && (d >> cause_bit) & 1 == 1 {
            self.supervisor_trap(cause, tval, epc);
        } else {
            self.machine_trap(cause, tval, epc);
        }
    }

    fn machine_trap(&mut self, cause: u64, tval: u64, epc: u64)
        requires
            old(self).wf(),
        ensures
            final(self).wf(),
            *final(self) == (Cpu {
                csrs: final(self).csrs,
                pc: final(self).pc,
                mode: final(self).mode,
                ..*old(self)
            }),
            final(self).mode == Mode::Machine,
            final(self).csrs@ == machine_trap_post(old(self).csrs@, cause, epc, tval, old(
                self,
            ).mode),
            final(self).pc == tvec_target_spec(old(self).csrs@[crate::csr::CSR_MTVEC as int], cause),
    {
        let prev = self.mode;
        self.csr_write_cpu(crate::csr::CSR_MCAUSE, cause);
        self.csr_write_cpu(crate::csr::CSR_MEPC, epc);
        self.csr_write_cpu(crate::csr::CSR_MTVAL, tval);
        let m = self.csr_read_cpu(crate::csr::CSR_MSTATUS);
        let m1 = m & !0x1880;
        let m2 = m1 | ((m1 & 8) << 4u64);
        let m3 = m2 & !8;
        let m4 = m3 | ((prev.code() & 3) << 11u64);
        self.csr_write_cpu(crate::csr::CSR_MSTATUS, m4);
        let tvec = self.csr_read_cpu(crate::csr::CSR_MTVEC);
        self.pc = self.tvec_target(tvec, cause);
        self.mode = Mode::Machine;
    }

    fn supervisor_trap(&mut self, cause: u64, tval: u64, epc: u64)
        requires
            old(self).wf(),
        ensures
            final(self).wf(),
            *final(self) == (Cpu {
                csrs: final(self).csrs,
                pc: final(self).pc,
                mode: final(self).mode,
                ..*old(self)
            }),
            final(self).mode == Mode::Supervisor,
            final(self).csrs@ == supervisor_trap_post(old(self).csrs@, cause, epc, tval, old(
                self,
            ).mode),
            final(self).pc == tvec_target_spec(old(self).csrs@[crate::csr::CSR_STVEC as int], cause),
    {
        let prev = self.mode;
        self.csr_write_cpu(crate::csr::CSR_SCAUSE, cause);
        self.csr_write_cpu(crate::csr::CSR_SEPC, epc);
        self.csr_write_cpu(crate::csr::CSR_STVAL, tval);
        let m = self.csr_read_cpu(crate::csr::CSR_MSTATUS);
        let m1 = m & !0x120;
        let m2 = m1 | ((m1 & 2) << 4u64);
        let m3 = m2 & !2;
        let m4 = m3 | ((prev.code() & 1) << 8u64);
        self.csr_write_cpu(crate::csr::CSR_MSTATUS, m4);
        let tvec = self.csr_read_cpu(crate::csr::CSR_STVEC);
        self.pc = self.tvec_target(tvec, cause);
        self.mode = Mode::Supervisor;
    }

    fn tvec_target(&self, tvec: u64, cause: u64) -> (r: u64)
        ensures
            r == tvec_target_spec(tvec, cause),
    {
        if tvec & 3 == 1 {
            (tvec & !3).wrapping_add((cause & 0x7fff_ffff_ffff_ffff).wrapping_mul(4))
        } else {
            tvec & !3
        }
    }

    /// Deliver an architectural exception raised at `epc`.
    pub fn exception(&mut self, t: Trap, epc: u64)
        requires
            old(self).wf(),
        ensures
            final(self).wf(),
            *final(self) == (Cpu {
                csrs: final(self).csrs,
                pc: final(self).pc,
                mode: final(self).mode,
                ..*old(self)
            }),
            trap_to_supervisor_spec(*old(self), t.cause.code_spec(), crate::csr::CSR_MEDELEG)
                ==> final(self).mode == Mode::Supervisor && final(self).csrs@
                == supervisor_trap_post(old(self).csrs@, t.cause.code_spec(), epc, t.tval, old(
                self,
            ).mode) && final(self).pc == tvec_target_spec(
                old(self).csrs@[crate::csr::CSR_STVEC as int],
                t.cause.code_spec(),
            ),
            !trap_to_supervisor_spec(*old(self), t.cause.code_spec(), crate::csr::CSR_MEDELEG)
                ==> final(self).mode == Mode::Machine && final(self).csrs@ == machine_trap_post(
                old(self).csrs@,
                t.cause.code_spec(),
                epc,
                t.tval,
                old(self).mode,
            ) && final(self).pc == tvec_target_spec(
                old(self).csrs@[crate::csr::CSR_MTVEC as int],
                t.cause.code_spec(),
            ),
    {
        let code = t.cause.code();
        self.deliver_trap(code, t.tval, epc, crate::csr::CSR_MEDELEG);
    }

    /// Deliver the interrupt with cause bit `b`: cause is `b` with the
    /// interrupt flag, and `xepc` records the resume point, the
    /// address of the next instruction.
    pub fn interrupt(&mut self, b: u64)
        requires
            old(self).wf(),
            b < 64,
        ensures
            final(self).wf(),
            *final(self) == (Cpu {
                csrs: final(self).csrs,
                pc: final(self).pc,
                mode: final(self).mode,
                ..*old(self)
            }),
            trap_to_supervisor_spec(*old(self), b | (1u64 << 63), crate::csr::CSR_MIDELEG)
                ==> final(self).mode == Mode::Supervisor && final(self).csrs@ == supervisor_trap_post(
                old(self).csrs@,
                b | (1u64 << 63),
                old(self).pc,
                0,
                old(self).mode,
            ) && final(self).pc == tvec_target_spec(
                old(self).csrs@[crate::csr::CSR_STVEC as int],
                b | (1u64 << 63),
            ),
            !trap_to_supervisor_spec(*old(self), b | (1u64 << 63), crate::csr::CSR_MIDELEG)
                ==> final(self).mode == Mode::Machine && final(self).csrs@ == machine_trap_post(
                old(self).csrs@,
                b | (1u64 << 63),
                old(self).pc,
                0,
                old(self).mode,
            ) && final(self).pc == tvec_target_spec(
                old(self).csrs@[crate::csr::CSR_MTVEC as int],
                b | (1u64 << 63),
            ),
    {
        let cause = b | (1u64 << 63);
        let epc = self.pc;
        self.deliver_trap(cause, 0, epc, crate::csr::CSR_MIDELEG);
    }
}


/// Whether interrupt bit `b` fires: pending and enabled, and the
/// privilege gate passes. A bit delegated to supervisor mode fires
/// when the hart is in user mode, or in supervisor mode with
/// `sstatus.SIE` set; an undelegated bit fires when the hart is below
/// machine mode, or in machine mode with `mstatus.MIE` set.
pub open spec fn int_fires_spec(cpu: Cpu, b: u64) -> bool {
    let mip = cpu.csrs@[crate::csr::CSR_MIP as int];
    let mie = cpu.csrs@[crate::csr::CSR_MIE as int];
    let delg = cpu.csrs@[crate::csr::CSR_MIDELEG as int];
    let m = crate::csr::mstatus_read_spec(cpu.csrs@);
    (mip >> b) & 1 == 1 && (mie >> b) & 1 == 1 && (if (delg >> b) & 1 == 1 {
        cpu.mode == Mode::User || (cpu.mode == Mode::Supervisor && (m >> 1) & 1 == 1)
    } else {
        cpu.mode != Mode::Machine || (m >> 3) & 1 == 1
    })
}

/// The highest-priority firing interrupt, in the fixed order
/// counter-overflow, MEI, MTI, MSI, SEI, STI, SSI.
pub open spec fn first_firing_spec(cpu: Cpu) -> Option<u64> {
    if int_fires_spec(cpu, 13) {
        Some(13u64)
    } else if int_fires_spec(cpu, 11) {
        Some(11u64)
    } else if int_fires_spec(cpu, 7) {
        Some(7u64)
    } else if int_fires_spec(cpu, 3) {
        Some(3u64)
    } else if int_fires_spec(cpu, 9) {
        Some(9u64)
    } else if int_fires_spec(cpu, 5) {
        Some(5u64)
    } else if int_fires_spec(cpu, 1) {
        Some(1u64)
    } else {
        None
    }
}

/// The CSR bank after taking interrupt bit `b`: trap delivery with
/// the resume point in `xepc`, then the pending bit cleared.
pub open spec fn int_delivery_csrs_spec(cpu: Cpu, b: u64) -> Seq<u64> {
    let cause = b | (1u64 << 63);
    let epc = cpu.pc;
    let delivered = if trap_to_supervisor_spec(cpu, cause, crate::csr::CSR_MIDELEG) {
        supervisor_trap_post(cpu.csrs@, cause, epc, 0, cpu.mode)
    } else {
        machine_trap_post(cpu.csrs@, cause, epc, 0, cpu.mode)
    };
    delivered.update(
        crate::csr::CSR_MIP as int,
        cpu.csrs@[crate::csr::CSR_MIP as int] ^ (1u64 << b),
    )
}

impl Cpu {
    fn int_fires(&self, b: u64) -> (r: bool)
        requires
            self.wf(),
            b < 64,
        ensures
            r == int_fires_spec(*self, b),
    {
        let mip = self.csr_read_cpu(crate::csr::CSR_MIP);
        let mie = self.csr_read_cpu(crate::csr::CSR_MIE);
        let delg = self.csr_read_cpu(crate::csr::CSR_MIDELEG);
        let m = self.csr_read_cpu(crate::csr::CSR_MSTATUS);
        if (mip >> b) & 1 != 1 || (mie >> b) & 1 != 1 {
            false
        } else if (delg >> b) & 1 == 1 {
            matches!(self.mode, Mode::User) || (matches!(self.mode, Mode::Supervisor) && (m >> 1)
                & 1 == 1)
        } else {
            !matches!(self.mode, Mode::Machine) || (m >> 3) & 1 == 1
        }
    }

    fn take_interrupt(&mut self, b: u64)
        requires
            old(self).wf(),
            b < 64,
        ensures
            final(self).wf(),
            *final(self) == (Cpu {
                csrs: final(self).csrs,
                pc: final(self).pc,
                mode: final(self).mode,
                ..*old(self)
            }),
            final(self).csrs@ == int_delivery_csrs_spec(*old(self), b),
            trap_to_supervisor_spec(*old(self), b | (1u64 << 63), crate::csr::CSR_MIDELEG)
                ==> final(self).mode == Mode::Supervisor && final(self).pc == tvec_target_spec(
                old(self).csrs@[crate::csr::CSR_STVEC as int],
                b | (1u64 << 63),
            ),
            !trap_to_supervisor_spec(*old(self), b | (1u64 << 63), crate::csr::CSR_MIDELEG)
                ==> final(self).mode == Mode::Machine && final(self).pc == tvec_target_spec(
                old(self).csrs@[crate::csr::CSR_MTVEC as int],
                b | (1u64 << 63),
            ),
    {
        let mip = self.csr_read_cpu(crate::csr::CSR_MIP);
        self.interrupt(b);
        self.csr_write_cpu(crate::csr::CSR_MIP, mip ^ (1u64 << b));
    }

    /// Poll the pending interrupts in priority order and take the first
    /// one that fires; with none firing, nothing changes.
    pub fn check_interrupts(&mut self)
        requires
            old(self).wf(),
        ensures
            final(self).wf(),
            *final(self) == (Cpu {
                csrs: final(self).csrs,
                pc: final(self).pc,
                mode: final(self).mode,
                ..*old(self)
            }),
            first_firing_spec(*old(self)) is None ==> *final(self) == *old(self),
            first_firing_spec(*old(self)) matches Some(b) ==> final(self).csrs@
                == int_delivery_csrs_spec(*old(self), b) && (trap_to_supervisor_spec(
                *old(self),
                b | (1u64 << 63),
                crate::csr::CSR_MIDELEG,
            ) ==> final(self).mode == Mode::Supervisor && final(self).pc == tvec_target_spec(
                old(self).csrs@[crate::csr::CSR_STVEC as int],
                b | (1u64 << 63),
            )) && (!trap_to_supervisor_spec(
                *old(self),
                b | (1u64 << 63),
                crate::csr::CSR_MIDELEG,
            ) ==> final(self).mode == Mode::Machine && final(self).pc == tvec_target_spec(
                old(self).csrs@[crate::csr::CSR_MTVEC as int],
                b | (1u64 << 63),
            )),
    {
        if self.int_fires(13) {
            self.take_interrupt(13);
            return ;
        }
        if self.int_fires(11) {
            self.take_interrupt(11);
            return ;
        }
        if self.int_fires(7) {
            self.take_interrupt(7);
            return ;
        }
        if self.int_fires(3) {
            self.take_interrupt(3);
            return ;
        }
        if self.int_fires(9) {
            self.take_interrupt(9);
            return ;
        }
        if self.int_fires(5) {
            self.take_interrupt(5);
            return ;
        }
        if self.int_fires(1) {
            self.take_interrupt(1);
            return ;
        }
    }
}

} // verus!
