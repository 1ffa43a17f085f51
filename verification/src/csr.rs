//! The control and status register file: a flat 4096-slot bank with
//! per-CSR permission checks, write masks and the `mstatus`/`sstatus`
//! and `fcsr`/`fflags`/`frm` aliases.
use vstd::prelude::*;
use crate::Exception;
use crate::Mode;
use crate::cpu::Cpu;
use crate::cpu::Trap;

verus! {

broadcast use crate::bits::lemma_u64_and_le, crate::bits::lemma_u64_and4095_id, crate::bits::lemma_u64_ro_quadrant;


pub const CSR_FFLAGS: u64 = 0x001;

pub const CSR_FRM: u64 = 0x002;

pub const CSR_FCSR: u64 = 0x003;

pub const CSR_SSTATUS: u64 = 0x100;

pub const CSR_SIE: u64 = 0x104;

pub const CSR_STVEC: u64 = 0x105;

pub const CSR_SSCRATCH: u64 = 0x140;

pub const CSR_SEPC: u64 = 0x141;

pub const CSR_SCAUSE: u64 = 0x142;

pub const CSR_STVAL: u64 = 0x143;

pub const CSR_SIP: u64 = 0x144;

pub const CSR_SATP: u64 = 0x180;

pub const CSR_MVENDORID: u64 = 0xf11;

pub const CSR_MHARTID: u64 = 0xf14;

pub const CSR_MSTATUS: u64 = 0x300;

pub const CSR_MISA: u64 = 0x301;

pub const CSR_MEDELEG: u64 = 0x302;

pub const CSR_MIDELEG: u64 = 0x303;

pub const CSR_MIE: u64 = 0x304;

pub const CSR_MTVEC: u64 = 0x305;

pub const CSR_MSCRATCH: u64 = 0x340;

pub const CSR_MEPC: u64 = 0x341;

pub const CSR_MCAUSE: u64 = 0x342;

pub const CSR_MTVAL: u64 = 0x343;

pub const CSR_MIP: u64 = 0x344;

/// The supervisor-visible bits of `mstatus`: what `sstatus` exposes.
pub const MSTAT_S_MASK: u64 = 0x8000_0003_000f_e7e2;

/// The writable bits of `mstatus`.
pub const MSTAT_W_MASK: u64 = 0x7fff_ffc0_fff6_79bf;

/// The fixed `misa` value advertising RV64IMAFDC with S and U modes.
pub const MISA_VALUE: u64 = 0x8000_0000_0014_112d;

/// `mstatus` as read: the stored slot with `SD` (bit 63) synthesized
/// as `FS == Dirty || XS == Dirty`.
pub open spec fn mstatus_read_spec(csrs: Seq<u64>) -> u64 {
    csrs[CSR_MSTATUS as int] | (if (csrs[CSR_MSTATUS as int] >> 13) & 3 == 3 || (csrs[
        CSR_MSTATUS as int] >> 15) & 3 == 3 {
        1u64 << 63
    } else {
        0u64
    })
}

/// The CSR bank after a raw `mstatus` write: only `MSTAT_W_MASK` bits
/// are writable.
pub open spec fn mstatus_write_post(csrs: Seq<u64>, d: u64) -> Seq<u64> {
    csrs.update(CSR_MSTATUS as int, (csrs[CSR_MSTATUS as int] & !MSTAT_W_MASK) | (d
        & MSTAT_W_MASK))
}

/// The CSR bank after marking the floating-point state dirty
/// (`mstatus.FS = 3`).
pub open spec fn fs_dirty_post(csrs: Seq<u64>) -> Seq<u64> {
    mstatus_write_post(csrs, mstatus_read_spec(csrs) | 0x6000)
}

/// The value a permitted CSR read returns, for a 12-bit address `a`.
pub open spec fn csr_read_val_spec(cpu: Cpu, a: u64) -> u64 {
    if a == CSR_MISA {
        MISA_VALUE
    } else if a == CSR_MHARTID {
        0u64
    } else if a == CSR_MSTATUS {
        mstatus_read_spec(cpu.csrs@)
    } else if a == CSR_SSTATUS {
        mstatus_read_spec(cpu.csrs@) & MSTAT_S_MASK
    } else if a == CSR_FFLAGS {
        cpu.csrs@[CSR_FCSR as int] & 0x1f
    } else if a == CSR_FRM {
        (cpu.csrs@[CSR_FCSR as int] >> 5) & 7
    } else if a == 0x7a0 || a == 0x7a5 {
        1u64
    } else {
        cpu.csrs@[a as int]
    }
}

/// Why a CSR access from the instruction stream is refused, if it is:
/// insufficient privilege, or a `satp` access under `mstatus.TVM` from
/// supervisor mode. Accesses made by trap delivery itself skip these.
pub open spec fn csr_access_err_spec(cpu: Cpu, a: u64, err: bool) -> bool {
    err && ((a >> 8) & 3 > cpu.mode.code_spec() || (a == CSR_SATP && cpu.mode == Mode::Supervisor
        && (mstatus_read_spec(cpu.csrs@) >> 20) & 1 == 1))
}

/// The CSR bank after a permitted write of `d` to the 12-bit address
/// `a`, with the aliasing rules: `sstatus` routes through `mstatus`,
/// `fflags`/`frm` rewrite their slice of `fcsr`, and any write to the
/// floating-point CSRs marks `mstatus.FS` dirty.
pub open spec fn csr_write_post_spec(cpu: Cpu, a: u64, d: u64) -> Seq<u64> {
    if a == CSR_MISA {
        cpu.csrs@
    } else if a == CSR_MSTATUS {
        mstatus_write_post(cpu.csrs@, d)
    } else if a == CSR_SSTATUS {
        mstatus_write_post(cpu.csrs@, (mstatus_read_spec(cpu.csrs@) & !(MSTAT_S_MASK
            & MSTAT_W_MASK)) | (d & (MSTAT_S_MASK & MSTAT_W_MASK)))
    } else if a == CSR_FCSR {
        fs_dirty_post(cpu.csrs@).update(CSR_FCSR as int, d & 0xff)
    } else if a == CSR_FFLAGS {
        fs_dirty_post(cpu.csrs@).update(CSR_FCSR as int, (cpu.csrs@[CSR_FCSR as int] & !0x1f) | (d
            & 0x1f))
    } else if a == CSR_FRM {
        fs_dirty_post(cpu.csrs@).update(CSR_FCSR as int, (cpu.csrs@[CSR_FCSR as int] & !0xe0) | ((d
            << 5) & 0xe0))
    } else {
        cpu.csrs@.update(a as int, d)
    }
}

/// After the floating-point state is marked dirty, `mstatus.FS` reads
/// as `Dirty`, so the FPU is enabled.
pub proof fn lemma_fs_dirty_enables_fp(c: Seq<u64>)
    requires
        c.len() == 4096,
    ensures
        (mstatus_read_spec(fs_dirty_post(c)) >> 13) & 3 != 0,
{
    let m = c[CSR_MSTATUS as int];
    let x = mstatus_read_spec(c);
    let d = x | 0x6000;
    assert((x | 0x6000u64) & 0x6000 == 0x6000) by (bit_vector);
    let slot = fs_dirty_post(c)[CSR_MSTATUS as int];
    assert(slot == (m & !MSTAT_W_MASK) | (d & MSTAT_W_MASK));
    assert((slot >> 13) & 3 == 3) by (bit_vector)
        requires
            slot == (m & !0x7fff_ffc0_fff6_79bfu64) | (d & 0x7fff_ffc0_fff6_79bfu64),
            d & 0x6000 == 0x6000,
    ;
    assert(((slot | (1u64 << 63)) >> 13) & 3 == 3) by (bit_vector)
        requires
            (slot >> 13) & 3 == 3,
    ;
}

impl Cpu {
    /// Read `mstatus` with `SD` synthesized, straight from the slot.
    fn mstatus_read(&self) -> (r: u64)
        requires
            self.wf(),
        ensures
            r == mstatus_read_spec(self.csrs@),
    {
        let s = self.csrs[CSR_MSTATUS as usize];
        let sd = if (s >> 13) & 3 == 3 || (s >> 15) & 3 == 3 {
            1u64 << 63
        } else {
            0u64
        };
        s | sd
    }

    /// A CSR read from the instruction stream: permission-checked.
    pub fn csr_read(&self, a: u64) -> (r: Result<u64, Trap>)
        requires
            self.wf(),
        ensures
            csr_access_err_spec(*self, a & 4095, true) ==> r == Err::<u64, Trap>(
                Trap { cause: Exception::IllegalInst, tval: 0 },
            ),
            !csr_access_err_spec(*self, a & 4095, true) ==> r == Ok::<u64, Trap>(
                csr_read_val_spec(*self, a & 4095),
            ),
    {
        self.csr_read_inner(a, true)
    }

    /// A CSR read made by the engine itself (trap delivery, views):
    /// no permission check, never faults.
    pub fn csr_read_cpu(&self, a: u64) -> (r: u64)
        requires
            self.wf(),
        ensures
            r == csr_read_val_spec(*self, a & 4095),
    {
        match self.csr_read_inner(a, false) {
            Ok(v) => v,
            Err(_) => 0,
        }
    }

    fn csr_read_inner(&self, a: u64, err: bool) -> (r: Result<u64, Trap>)
        requires
            self.wf(),
        ensures
            csr_access_err_spec(*self, a & 4095, err) ==> r == Err::<u64, Trap>(
                Trap { cause: Exception::IllegalInst, tval: 0 },
            ),
            !csr_access_err_spec(*self, a & 4095, err) ==> r == Ok::<u64, Trap>(
                csr_read_val_spec(*self, a & 4095),
            ),
    {
        let a = a & 4095;
        if err && (a >> 8) & 3 > self.mode.code() {
            return Err(Trap { cause: Exception::IllegalInst, tval: 0 });
        }
        if a == CSR_MISA {
            Ok(MISA_VALUE)
        } else if a == CSR_MHARTID {
            Ok(0)
        } else if a == CSR_MSTATUS {
            Ok(self.mstatus_read())
        } else if a == CSR_SSTATUS {
            Ok(self.mstatus_read() & MSTAT_S_MASK)
        } else if a == CSR_SATP {
            if err && self.mode == Mode::Supervisor && (self.mstatus_read() >> 20) & 1 == 1 {
                return Err(Trap { cause: Exception::IllegalInst, tval: 0 });
            }
            Ok(self.csrs[a as usize])
        } else if a == CSR_FFLAGS {
            Ok(self.csrs[CSR_FCSR as usize] & 0x1f)
        } else if a == CSR_FRM {
            Ok((self.csrs[CSR_FCSR as usize] >> 5) & 7)
        } else if a == 0x7a0 || a == 0x7a5 {
            Ok(1)
        } else {
            Ok(self.csrs[a as usize])
        }
    }

    /// A CSR write from the instruction stream: permission-checked,
    /// and the top address quadrant (`a[11:10] == 3`) is read-only.
    pub fn csr_write(&mut self, a: u64, d: u64) -> (r: Result<(), Trap>)
        requires
            old(self).wf(),
        ensures
            final(self).wf(),
            *final(self) == (Cpu { csrs: final(self).csrs, ..*old(self) }),
            csr_access_err_spec(*old(self), a & 4095, true) || (a & 4095) >= 0xc00 ==> r
                == Err::<(), Trap>(Trap { cause: Exception::IllegalInst, tval: 0 })  && final(self).csrs@ == old(self).csrs@,
            !(csr_access_err_spec(*old(self), a & 4095, true) || (a & 4095) >= 0xc00) ==> r
                == Ok::<(), Trap>(()) && final(self).csrs@ == csr_write_post_spec(
                *old(self),
                a & 4095,
                d,
            ),
    {
        self.csr_write_inner(a, d, true)
    }

    /// A CSR write made by the engine itself: no permission check.
    pub fn csr_write_cpu(&mut self, a: u64, d: u64)
        requires
            old(self).wf(),
            (a & 4095) < 0xc00,
        ensures
            final(self).wf(),
            *final(self) == (Cpu { csrs: final(self).csrs, ..*old(self) }),
            final(self).csrs@ == csr_write_post_spec(*old(self), a & 4095, d),
    {
        let r = self.csr_write_inner(a, d, false);
        proof {
            assert(r is Ok);
        }
    }

    fn csr_write_inner(&mut self, a: u64, d: u64, err: bool) -> (r: Result<(), Trap>)
        requires
            old(self).wf(),
        ensures
            final(self).wf(),
            *final(self) == (Cpu { csrs: final(self).csrs, ..*old(self) }),
            csr_access_err_spec(*old(self), a & 4095, err) || (a & 4095) >= 0xc00 ==> r
                == Err::<(), Trap>(Trap { cause: Exception::IllegalInst, tval: 0 })  && final(self).csrs@ == old(self).csrs@,
            !(csr_access_err_spec(*old(self), a & 4095, err) || (a & 4095) >= 0xc00) ==> r
                == Ok::<(), Trap>(()) && final(self).csrs@ == csr_write_post_spec(
                *old(self),
                a & 4095,
                d,
            ),
    {
        let a = a & 4095;
        if err && (a >> 8) & 3 > self.mode.code() {
            return Err(Trap { cause: Exception::IllegalInst, tval: 0 });
        }
        if err && a == CSR_SATP && self.mode == Mode::Supervisor && (self.mstatus_read() >> 20) & 1
            == 1 {
            return Err(Trap { cause: Exception::IllegalInst, tval: 0 });
        }
        if a >> 10 == 3 {
            return Err(Trap { cause: Exception::IllegalInst, tval: 0 });
        }
        if a == CSR_MISA {
        } else if a == CSR_MSTATUS {
            self.csrs[a as usize] = (self.csrs[a as usize] & !MSTAT_W_MASK) | (d & MSTAT_W_MASK);
        } else if a == CSR_SSTATUS {
            let m = self.mstatus_read();
            let m2 = (m & !(MSTAT_S_MASK & MSTAT_W_MASK)) | (d & (MSTAT_S_MASK & MSTAT_W_MASK));
            self.csrs[CSR_MSTATUS as usize] = (self.csrs[CSR_MSTATUS as usize] & !MSTAT_W_MASK) | (
            m2 & MSTAT_W_MASK);
        } else if a == CSR_FCSR {
            self.mut_fp_state();
            self.csrs[a as usize] = d & 0xff;
        } else if a == CSR_FFLAGS {
            let f = self.csrs[CSR_FCSR as usize];
            self.mut_fp_state();
            self.csrs[CSR_FCSR as usize] = (f & !0x1f) | (d & 0x1f);
        } else if a == CSR_FRM {
            let f = self.csrs[CSR_FCSR as usize];
            self.mut_fp_state();
            self.csrs[CSR_FCSR as usize] = (f & !0xe0) | ((d << 5u64) & 0xe0);
        } else {
            self.csrs[a as usize] = d;
        }
        Ok(())
    }

    /// Whether the floating-point unit is enabled (`mstatus.FS != 0`).
    pub fn can_use_fp(&self) -> (r: bool)
        requires
            self.wf(),
        ensures
            r == ((mstatus_read_spec(self.csrs@) >> 13) & 3 != 0),
    {
        (self.csr_read_cpu(CSR_MSTATUS) >> 13) & 3 != 0
    }

    /// Mark the floating-point state dirty: any FP write sets
    /// `mstatus.FS = 3`.
    pub fn mut_fp_state(&mut self)
        requires
            old(self).wf(),
        ensures
            final(self).wf(),
            *final(self) == (Cpu { csrs: final(self).csrs, ..*old(self) }),
            final(self).csrs@ == fs_dirty_post(old(self).csrs@),
    {
        let m = self.mstatus_read();
        self.csrs[CSR_MSTATUS as usize] = (self.csrs[CSR_MSTATUS as usize] & !MSTAT_W_MASK) | ((m
            | 0x6000) & MSTAT_W_MASK);
    }
}

} // verus!
