//! The architectural laws of the core, stated and proved over the spec
//! functions the executable contracts use.
use vstd::prelude::*;
use crate::Mode;
use crate::atomic::ReservationSet;
use crate::cpu::Cpu;
use crate::cpu::machine_trap_post;
use crate::cpu::supervisor_trap_post;
use crate::csr::CSR_MEPC;
use crate::csr::CSR_MSTATUS;
use crate::csr::CSR_SEPC;
use crate::csr::CSR_SSTATUS;
use crate::csr::MSTAT_S_MASK;
use crate::csr::csr_read_val_spec;
use crate::float::fclass32_spec;
use crate::float::fclass64_spec;
use crate::float::nanbox32_spec;

verus! {

/// A read of x0 yields zero in every hart state, whatever was written
/// before: writes to x0 are discarded by `write_reg_spec` and reads of
/// x0 never consult the register bank.
pub proof fn lemma_x0_reads_zero(cpu: Cpu, v: u64)
    ensures
        cpu.read_reg_spec(0) == 0,
        (Cpu { regs: cpu.regs, ..cpu }).read_reg_spec(0) == 0,
        cpu.write_reg_spec(0, v) == cpu.regs@,
{
}

/// A read of `sstatus` is exactly the read of `mstatus` masked to the
/// supervisor-visible bits.
pub proof fn lemma_sstatus_is_masked_mstatus(cpu: Cpu)
    ensures
        csr_read_val_spec(cpu, CSR_SSTATUS) == csr_read_val_spec(cpu, CSR_MSTATUS)
            & MSTAT_S_MASK,
{
}

/// Trap delivery records the faulting instruction's address in the
/// delivery mode's `xepc`, for both machine and supervisor targets.
pub proof fn lemma_trap_delivery_epc(c: Seq<u64>, cause: u64, epc: u64, tval: u64, prev: Mode)
    requires
        c.len() == 4096,
    ensures
        machine_trap_post(c, cause, epc, tval, prev)[CSR_MEPC as int] == epc,
        supervisor_trap_post(c, cause, epc, tval, prev)[CSR_SEPC as int] == epc,
{
}

/// The `FMV.W.X` / `FMV.X.W` round trip: boxing the low 32 bits of an
/// integer register into an f-register and moving them back yields the
/// low 32 bits sign-extended, exactly as the architecture asks.
pub proof fn lemma_fmv_round_trip(r: u64)
    ensures
        (((nanbox32_spec(r as u32) & 0xffff_ffff) as u32) as i32) as u64 == ((r as u32) as i32)
            as u64,
{
    assert((((0xffff_ffff_0000_0000u64 | ((r as u32) as u64)) & 0xffff_ffff) as u32) == r as u32)
        by (bit_vector);
}

/// Classification is exhaustive and exclusive: for every 32-bit value
/// exactly one of the ten class bits is set.
pub proof fn lemma_fclass32_one_bit(v: u32)
    ensures
        fclass32_spec(v) != 0,
        fclass32_spec(v) & ((fclass32_spec(v) - 1) as u64) == 0,
        fclass32_spec(v) <= 0x200,
{
    let c = fclass32_spec(v);
    assert(c == 1 || c == 2 || c == 4 || c == 8 || c == 0x10 || c == 0x20 || c == 0x40 || c == 0x80
        || c == 0x100 || c == 0x200);
    assert(c & ((c - 1) as u64) == 0) by (bit_vector)
        requires
            c == 1 || c == 2 || c == 4 || c == 8 || c == 0x10 || c == 0x20 || c == 0x40 || c == 0x80
                || c == 0x100 || c == 0x200,
    ;
}

/// Classification is exhaustive and exclusive for 64-bit values too.
pub proof fn lemma_fclass64_one_bit(v: u64)
    ensures
        fclass64_spec(v) != 0,
        fclass64_spec(v) & ((fclass64_spec(v) - 1) as u64) == 0,
        fclass64_spec(v) <= 0x200,
{
    let c = fclass64_spec(v);
    assert(c == 1 || c == 2 || c == 4 || c == 8 || c == 0x10 || c == 0x20 || c == 0x40 || c == 0x80
        || c == 0x100 || c == 0x200);
    assert(c & ((c - 1) as u64) == 0) by (bit_vector)
        requires
            c == 1 || c == 2 || c == 4 || c == 8 || c == 0x10 || c == 0x20 || c == 0x40 || c == 0x80
                || c == 0x100 || c == 0x200,
    ;
}

/// With no reservation outstanding a store-conditional cannot succeed:
/// its ownership condition fails for every address.
pub proof fn lemma_empty_set_owns_nothing(s: ReservationSet, addr: u64, sz: int)
    requires
        s.entries() == Seq::<u64>::empty(),
        sz >= 1,
    ensures
        !s.owns_spec(addr, sz),
{
    assert(!s.entries().contains(addr.wrapping_add((4 * 0) as u64))) by {
        assert(s.entries().len() == 0);
    }
}

/// After a load-reserved whose units were all recorded, the matching
/// store-conditional's ownership condition holds.
pub proof fn lemma_fresh_reservation_owns(pre: ReservationSet, post: ReservationSet, addr: u64, sz: int)
    requires
        0 <= sz <= 2,
        post.entries() == pre.entries() + Seq::new(sz as nat, |i: int| addr.wrapping_add((4 * i) as u64)),
    ensures
        post.owns_spec(addr, sz),
{
    assert forall|i: int| 0 <= i < sz implies #[trigger] post.entries().contains(
        addr.wrapping_add((4 * i) as u64),
    ) by {
        assert(post.entries()[pre.entries().len() + i] == addr.wrapping_add((4 * i) as u64));
    }
}

} // verus!
