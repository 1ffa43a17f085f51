//! End-to-end and unit tests of the integer core: the step loop,
//! traps, translation, atomics and the test-harness exit protocol.
use emu::Mode;
use emu::bus::Bus;
use emu::cpu::Cpu;
use emu::ram::Ram;

fn mk_cpu() -> Cpu {
    let ram = vec![0u8; 4 * 1024 * 1024];
    Cpu::new(Bus::new(Ram::new(ram)))
}

fn rtype(f7: u32, rs2: u32, rs1: u32, f3: u32, rd: u32, opc: u32) -> u32 {
    (f7 << 25) | (rs2 << 20) | (rs1 << 15) | (f3 << 12) | (rd << 7) | opc
}

fn itype(imm: u32, rs1: u32, f3: u32, rd: u32, opc: u32) -> u32 {
    (imm << 20) | (rs1 << 15) | (f3 << 12) | (rd << 7) | opc
}

fn stype(imm: u32, rs2: u32, rs1: u32, f3: u32) -> u32 {
    ((imm >> 5) << 25) | (rs2 << 20) | (rs1 << 15) | (f3 << 12) | ((imm & 0x1f) << 7) | 0x23
}

fn btype(imm: u32, rs2: u32, rs1: u32, f3: u32) -> u32 {
    (((imm >> 12) & 1) << 31) | (((imm >> 5) & 0x3f) << 25) | (rs2 << 20) | (rs1 << 15) | (f3 << 12)
        | (((imm >> 1) & 0xf) << 8) | (((imm >> 11) & 1) << 7) | 0x63
}

#[test]
fn addi_chain() {
    let mut cpu = mk_cpu();
    let prog = [
        itype(1, 0, 0, 1, 0x13),        // addi x1, x0, 1
        itype(1, 0, 0, 2, 0x13),        // addi x2, x0, 1
        itype(1001, 0, 0, 3, 0x13),     // addi x3, x0, 1001
        rtype(0, 2, 1, 0, 1, 0x33),     // add x1, x1, x2
        rtype(0x20, 1, 2, 0, 5, 0x33),  // sub x5, x2, x1
        itype(0x300, 2, 1, 0, 0x73),    // csrrw x0, mstatus, x2
        btype((-12i32 as u32) & 0x1fff, 1, 3, 1),  // bne x3, x1, -12
        0x0000_006f,                    // jal x0, 0
    ];
    for (k, w) in prog.iter().enumerate() {
        cpu.bus.store_u32(0x8000_0000 + 4 * k as u64, *w).unwrap();
    }
    for _ in 0..4003 {
        let r = cpu.step(false);
        assert!(r.is_none());
    }
    assert_eq!(cpu.read_reg(1), 1001);
}

#[test]
fn x0_writes_are_discarded() {
    let mut cpu = mk_cpu();
    cpu.execute(itype(5, 0, 0, 0, 0x13), 4, false).unwrap();  // addi x0, x0, 5
    assert_eq!(cpu.read_reg(0), 0);
    cpu.write_reg(0, 77);
    assert_eq!(cpu.read_reg(0), 0);
}

#[test]
fn sstatus_is_masked_mstatus() {
    let mut cpu = mk_cpu();
    cpu.csr_write(0x300, 0xffff_ffff_ffff_ffff).unwrap();
    let m = cpu.csr_read(0x300).unwrap();
    let s = cpu.csr_read(0x100).unwrap();
    assert_eq!(s, m & 0x8000_0003_000f_e7e2);
}

#[test]
fn division_edge_cases() {
    let mut cpu = mk_cpu();
    cpu.write_reg(1, 7);
    cpu.write_reg(2, 0);
    cpu.execute(rtype(1, 2, 1, 4, 3, 0x33), 4, false).unwrap();  // div x3, x1, x2
    assert_eq!(cpu.read_reg(3), u64::MAX);
    cpu.execute(rtype(1, 2, 1, 6, 4, 0x33), 4, false).unwrap();  // rem x4, x1, x2
    assert_eq!(cpu.read_reg(4), 7);
    cpu.write_reg(1, i64::MIN as u64);
    cpu.write_reg(2, -1i64 as u64);
    cpu.execute(rtype(1, 2, 1, 4, 3, 0x33), 4, false).unwrap();
    assert_eq!(cpu.read_reg(3), i64::MIN as u64);
    cpu.execute(rtype(1, 2, 1, 6, 4, 0x33), 4, false).unwrap();
    assert_eq!(cpu.read_reg(4), 0);
    cpu.write_reg(1, 100);
    cpu.write_reg(2, 7);
    cpu.execute(rtype(1, 2, 1, 4, 3, 0x33), 4, false).unwrap();
    assert_eq!(cpu.read_reg(3), 14);
    cpu.execute(rtype(1, 2, 1, 6, 4, 0x33), 4, false).unwrap();
    assert_eq!(cpu.read_reg(4), 2);
}

#[test]
fn mulh_variants() {
    let mut cpu = mk_cpu();
    cpu.write_reg(1, u64::MAX);
    cpu.write_reg(2, u64::MAX);
    cpu.execute(rtype(1, 2, 1, 3, 3, 0x33), 4, false).unwrap();  // mulhu
    assert_eq!(cpu.read_reg(3), 0xffff_ffff_ffff_fffe);
    cpu.execute(rtype(1, 2, 1, 1, 4, 0x33), 4, false).unwrap();  // mulh (-1 * -1)
    assert_eq!(cpu.read_reg(4), 0);
}

#[test]
fn ram_little_endian() {
    let mut cpu = mk_cpu();
    cpu.bus.store_u64(0x8000_0100, 0x0102_0304_0506_0708).unwrap();
    assert_eq!(cpu.bus.load_u8(0x8000_0100).unwrap(), 0x08);
    assert_eq!(cpu.bus.load_u8(0x8000_0107).unwrap(), 0x01);
    assert_eq!(cpu.bus.load_u16(0x8000_0100).unwrap(), 0x0708);
    assert_eq!(cpu.bus.load_u32(0x8000_0104).unwrap(), 0x0102_0304);
    assert_eq!(cpu.bus.load_u64(0x8000_0100).unwrap(), 0x0102_0304_0506_0708);
}

#[test]
fn uart_buffers_bytes() {
    let mut cpu = mk_cpu();
    cpu.write_reg(1, 0x1000_0000);
    cpu.write_reg(2, 'h' as u64);
    cpu.execute(stype(0, 2, 1, 0), 4, false).unwrap();  // sb x2, 0(x1)
    cpu.write_reg(2, 'i' as u64);
    cpu.execute(stype(0, 2, 1, 0), 4, false).unwrap();
    assert_eq!(cpu.bus.uart.out, vec![b'h', b'i']);
}

#[test]
fn bus_faults_outside_devices() {
    let cpu = mk_cpu();
    assert!(cpu.bus.load_u32(0x4000_0000).is_err());
    assert!(cpu.bus.load_u8(0x0200_0000).is_err());
    assert_eq!(cpu.bus.load_u64(0x0200_bff8).unwrap(), 0);
}

#[test]
fn clint_timer_slots() {
    let mut cpu = mk_cpu();
    cpu.bus.store_u64(0x0200_4000, 1234).unwrap();
    cpu.bus.store_u64(0x0200_bff8, 77).unwrap();
    assert_eq!(cpu.bus.load_u64(0x0200_4000).unwrap(), 1234);
    assert_eq!(cpu.bus.load_u64(0x0200_bff8).unwrap(), 77);
}

#[test]
fn lr_sc_success() {
    let mut cpu = mk_cpu();
    cpu.write_reg(5, 0x8000_0100);
    cpu.write_reg(7, 0xdead_beef);
    // lr.w x6, (x5)
    cpu.execute(rtype(0x02 << 2, 0, 5, 2, 6, 0x2f), 4, false).unwrap();
    // sc.w x6, x7, (x5)
    cpu.execute(rtype(0x03 << 2, 7, 5, 2, 6, 0x2f), 4, false).unwrap();
    assert_eq!(cpu.read_reg(6), 0);
    assert_eq!(cpu.bus.load_u32(0x8000_0100).unwrap(), 0xdead_beef);
}

#[test]
fn sc_fails_after_intervening_store() {
    let mut cpu = mk_cpu();
    cpu.write_reg(5, 0x8000_0100);
    cpu.write_reg(7, 42);
    // lr.w x6, (x5)
    cpu.execute(rtype(0x02 << 2, 0, 5, 2, 6, 0x2f), 4, false).unwrap();
    // sw x7, 0(x5): an unrelated store clears the reservation
    cpu.execute(stype(0, 7, 5, 2), 4, false).unwrap();
    // sc.w x6, x7, (x5)
    cpu.execute(rtype(0x03 << 2, 7, 5, 2, 6, 0x2f), 4, false).unwrap();
    assert_ne!(cpu.read_reg(6), 0);
}

#[test]
fn amoadd_word() {
    let mut cpu = mk_cpu();
    cpu.bus.store_u32(0x8000_0200, 40).unwrap();
    cpu.write_reg(5, 0x8000_0200);
    cpu.write_reg(7, 2);
    // amoadd.w x6, x7, (x5)
    cpu.execute(rtype(0x00 << 2, 7, 5, 2, 6, 0x2f), 4, false).unwrap();
    assert_eq!(cpu.read_reg(6), 40);
    assert_eq!(cpu.bus.load_u32(0x8000_0200).unwrap(), 42);
}

#[test]
fn sv39_translation() {
    let mut cpu = mk_cpu();
    let va: u64 = 0x0000_0001_2345_0000;
    let vpn2 = (va >> 30) & 0x1ff;
    let vpn1 = (va >> 21) & 0x1ff;
    let vpn0 = (va >> 12) & 0x1ff;
    let root: u64 = 0x8020_0000;
    let l1: u64 = 0x8021_0000;
    let l0: u64 = 0x8022_0000;
    cpu.bus.store_u64(root + vpn2 * 8, ((l1 >> 12) << 10) | 1).unwrap();
    cpu.bus.store_u64(l1 + vpn1 * 8, ((l0 >> 12) << 10) | 1).unwrap();
    // leaf: V|R|W|X|U with A and D already set
    cpu.bus.store_u64(l0 + vpn0 * 8, ((0x8010_0000u64 >> 12) << 10) | 0xdf).unwrap();
    cpu.bus.store_u8(0x8010_0010, 0xab).unwrap();
    cpu.csrs[0x180] = (8u64 << 60) | (root >> 12);
    cpu.flush_mapping().unwrap();
    cpu.csrs[0x300] |= 1 << 18;  // SUM
    cpu.mode = Mode::Supervisor;
    assert_eq!(cpu.mmu_load_u8(va + 0x10).unwrap(), 0xab);
}

#[test]
fn sv39_page_fault_without_permission() {
    let mut cpu = mk_cpu();
    let root: u64 = 0x8020_0000;
    cpu.csrs[0x180] = (8u64 << 60) | (root >> 12);
    cpu.flush_mapping().unwrap();
    cpu.mode = Mode::Supervisor;
    // the root table is all zeroes: every PTE is invalid
    let e = cpu.mmu_load_u8(0x1000).unwrap_err();
    assert_eq!(e.cause, emu::Exception::LoadPageFault);
    assert_eq!(e.tval, 0x1000);
}

#[test]
fn trap_delegation_to_supervisor() {
    let mut cpu = mk_cpu();
    cpu.bus.store_u32(0x8000_0000, 0x0000_0073).unwrap();  // ecall
    cpu.csrs[0x302] = 1 << 8;  // medeleg: ecall-from-user
    cpu.mode = Mode::User;
    cpu.step(false);
    assert_eq!(cpu.csrs[0x142], 8);  // scause
    assert_eq!(cpu.csrs[0x141], 0x8000_0000);  // sepc
    assert!(matches!(cpu.mode, Mode::Supervisor));
    assert_eq!((cpu.csrs[0x300] >> 8) & 1, 0);  // SPP records user
}

#[test]
fn ecall_machine_without_delegation() {
    let mut cpu = mk_cpu();
    cpu.bus.store_u32(0x8000_0000, 0x0000_0073).unwrap();
    cpu.csrs[0x305] = 0x8000_2000;  // mtvec
    cpu.step(false);
    assert_eq!(cpu.csrs[0x342], 11);  // mcause: ecall from machine
    assert_eq!(cpu.csrs[0x341], 0x8000_0000);  // mepc
    assert_eq!(cpu.pc, 0x8000_2000);
    assert!(matches!(cpu.mode, Mode::Machine));
}

#[test]
fn compressed_li_expands_to_addi() {
    let cpu = mk_cpu();
    // c.li x1, 0 expands to addi x1, x0, 0
    assert_eq!(cpu.comp_expand(0x4081).unwrap(), 0x0000_0093);
}

#[test]
fn compressed_li_executes_like_addi() {
    let mut cpu = mk_cpu();
    cpu.bus.store_u16(0x8000_0000, 0x4081).unwrap();
    cpu.write_reg(1, 99);
    cpu.step(false);
    assert_eq!(cpu.read_reg(1), 0);
    assert_eq!(cpu.pc, 0x8000_0002);
}

#[test]
fn compressed_zero_is_illegal() {
    let mut cpu = mk_cpu();
    // a zero halfword raises IllegalInst, delivered to the trap vector
    cpu.csrs[0x305] = 0x8000_3000;
    cpu.step(false);
    assert_eq!(cpu.csrs[0x342], 2);
    assert_eq!(cpu.pc, 0x8000_3000);
}

#[test]
fn test_harness_exit_protocol() {
    let mut cpu = mk_cpu();
    cpu.bus.store_u32(0x8000_1000, 1).unwrap();
    cpu.write_reg(10, 0x8000_1004);
    let r = cpu.execute(stype(0, 0, 10, 2), 4, true).unwrap();  // sw x0, 0(x10)
    assert_eq!(r, Some(0));
    cpu.bus.store_u32(0x8000_1000, 5).unwrap();
    let r = cpu.execute(stype(0, 0, 10, 2), 4, true).unwrap();
    assert_eq!(r, Some(4));
}

#[test]
fn machine_timer_interrupt_fires() {
    let mut cpu = mk_cpu();
    cpu.csrs[0x344] = 1 << 7;  // mip.MTIP
    cpu.csrs[0x304] = 1 << 7;  // mie.MTIE
    cpu.csrs[0x300] |= 8;  // mstatus.MIE
    cpu.csrs[0x305] = 0x8000_4000;
    cpu.pc = 0x8000_0004;
    cpu.check_interrupts();
    assert_eq!(cpu.csrs[0x342], (1 << 63) | 7);
    assert_eq!(cpu.csrs[0x341], 0x8000_0004);  // mepc: the resume point
    assert_eq!(cpu.pc, 0x8000_4000);
    assert_eq!(cpu.csrs[0x304], 1 << 7);  // mie is untouched
    assert_eq!((cpu.csrs[0x344] >> 7) & 1, 0);  // pending bit cleared
}

#[test]
fn mret_restores_mode_and_pc() {
    let mut cpu = mk_cpu();
    cpu.csrs[0x341] = 0x8000_0040;  // mepc
    // MPP = user, MPIE = 1
    cpu.csrs[0x300] = (cpu.csrs[0x300] & !0x1800) | 0x80;
    cpu.execute(0x3020_0073, 4, false).unwrap();  // mret
    assert_eq!(cpu.pc, 0x8000_0040);
    assert!(matches!(cpu.mode, Mode::User));
    assert_eq!(cpu.csrs[0x300] & 8, 8);  // MIE took MPIE
}

#[test]
fn csr_permission_checked_from_user() {
    let mut cpu = mk_cpu();
    cpu.mode = Mode::User;
    assert!(cpu.csr_read(0x300).is_err());
    assert!(cpu.csr_write(0x300, 0).is_err());
}

#[test]
fn misa_reads_fixed_and_ignores_writes() {
    let mut cpu = mk_cpu();
    let before = cpu.csr_read(0x301).unwrap();
    cpu.csr_write(0x301, 0).unwrap();
    assert_eq!(cpu.csr_read(0x301).unwrap(), before);
    assert_eq!(before >> 62, 2);  // MXL = 64-bit
}

#[test]
fn jal_links_and_jumps() {
    let mut cpu = mk_cpu();
    // jal x1, +16 at 0x8000_0000
    let imm: u32 = 16;
    let inst = (((imm >> 12) & 0xff) << 12) | (((imm >> 11) & 1) << 20) | (((imm >> 1) & 0x3ff)
        << 21) | (((imm >> 20) & 1) << 31) | (1 << 7) | 0x6f;
    cpu.bus.store_u32(0x8000_0000, inst).unwrap();
    cpu.step(false);
    assert_eq!(cpu.read_reg(1), 0x8000_0004);
    assert_eq!(cpu.pc, 0x8000_0010);
}

#[test]
fn jalr_clears_bit_zero() {
    let mut cpu = mk_cpu();
    cpu.write_reg(5, 0x8000_0101);
    cpu.bus.store_u32(0x8000_0000, itype(0, 5, 0, 1, 0x67)).unwrap();  // jalr x1, 0(x5)
    cpu.step(false);
    assert_eq!(cpu.pc, 0x8000_0100);
    assert_eq!(cpu.read_reg(1), 0x8000_0004);
}

#[test]
fn auipc_adds_to_instruction_address() {
    let mut cpu = mk_cpu();
    cpu.bus.store_u32(0x8000_0000, (1 << 12) | (1 << 7) | 0x17).unwrap();  // auipc x1, 1
    cpu.step(false);
    assert_eq!(cpu.read_reg(1), 0x8000_1000);
}

#[test]
fn addiw_truncates_and_sign_extends() {
    let mut cpu = mk_cpu();
    cpu.write_reg(1, 0x7fff_ffff);
    cpu.execute(itype(1, 1, 0, 2, 0x1b), 4, false).unwrap();  // addiw x2, x1, 1
    assert_eq!(cpu.read_reg(2), 0xffff_ffff_8000_0000);
}

#[test]
fn ld_sd_round_trip_through_mmu() {
    let mut cpu = mk_cpu();
    cpu.write_reg(1, 0x8000_0400);
    cpu.write_reg(2, 0x1122_3344_5566_7788);
    cpu.execute(stype(0, 2, 1, 3), 4, false).unwrap();  // sd x2, 0(x1)
    cpu.execute(itype(0, 1, 3, 3, 0x03), 4, false).unwrap();  // ld x3, 0(x1)
    assert_eq!(cpu.read_reg(3), 0x1122_3344_5566_7788);
    // lb sign-extends the low byte
    cpu.execute(itype(0, 1, 0, 4, 0x03), 4, false).unwrap();
    assert_eq!(cpu.read_reg(4), 0xffff_ffff_ffff_ff88);
}

#[test]
fn load_outside_bus_is_access_fault() {
    let mut cpu = mk_cpu();
    cpu.write_reg(1, 0x4000_0000);
    let e = cpu.execute(itype(0, 1, 2, 3, 0x03), 4, false).unwrap_err();
    assert_eq!(e.cause, emu::Exception::LoadAccessFault);
}

#[test]
fn satp_blocked_by_tvm_in_supervisor() {
    let mut cpu = mk_cpu();
    cpu.csrs[0x300] |= 1 << 20;  // TVM
    cpu.mode = Mode::Supervisor;
    assert!(cpu.csr_read(0x180).is_err());
    assert!(cpu.csr_write(0x180, 0).is_err());
    // sfence.vma re-reads satp and traps the same way
    assert!(cpu.execute(0x1200_0073, 4, false).is_err());
}

#[test]
fn fflags_frm_are_fcsr_views() {
    let mut cpu = mk_cpu();
    cpu.csr_write(3, 0xff).unwrap();
    assert_eq!(cpu.csr_read(1).unwrap(), 0x1f);
    assert_eq!(cpu.csr_read(2).unwrap(), 7);
    cpu.csr_write(1, 0).unwrap();  // clear fflags, keep frm
    assert_eq!(cpu.csr_read(3).unwrap(), 0xe0);
    cpu.csr_write(2, 2).unwrap();  // frm = 2
    assert_eq!(cpu.csr_read(3).unwrap(), 0x40);
}

#[test]
fn wfi_is_a_nop() {
    let mut cpu = mk_cpu();
    cpu.bus.store_u32(0x8000_0000, 0x1050_0073).unwrap();
    cpu.step(false);
    assert_eq!(cpu.pc, 0x8000_0004);
    assert!(matches!(cpu.mode, Mode::Machine));
}

#[test]
fn csr_write_side_effects_skipped_for_x0_mask() {
    let mut cpu = mk_cpu();
    cpu.csrs[0x340] = 55;  // mscratch
    // csrrs x1, mscratch, x0: read without write
    cpu.execute(itype(0x340, 0, 2, 1, 0x73), 4, false).unwrap();
    assert_eq!(cpu.read_reg(1), 55);
    assert_eq!(cpu.csrs[0x340], 55);
    // csrrc x1, mscratch, x5 with x5 = 7 clears bits
    cpu.write_reg(5, 7);
    cpu.execute(itype(0x340, 5, 3, 1, 0x73), 4, false).unwrap();
    assert_eq!(cpu.csrs[0x340], 48);
}

#[test]
fn delegated_interrupt_respects_sie() {
    let mut cpu = mk_cpu();
    cpu.csrs[0x344] = 1 << 1;  // mip.SSIP
    cpu.csrs[0x304] = 1 << 1;  // mie.SSIE
    cpu.csrs[0x303] = 1 << 1;  // mideleg: delegate SSI
    cpu.csrs[0x105] = 0x8000_5000;  // stvec
    cpu.mode = Mode::Supervisor;
    // sstatus.SIE clear: the delegated interrupt is masked
    cpu.check_interrupts();
    assert!(matches!(cpu.mode, Mode::Supervisor));
    assert_eq!(cpu.csrs[0x142], 0);
    // with SIE set it fires and is delivered to supervisor mode
    cpu.csrs[0x300] |= 2;
    cpu.pc = 0x8000_0004;
    cpu.check_interrupts();
    assert_eq!(cpu.csrs[0x142], (1 << 63) | 1);  // scause
    assert_eq!(cpu.pc, 0x8000_5000);
    assert!(matches!(cpu.mode, Mode::Supervisor));
}
