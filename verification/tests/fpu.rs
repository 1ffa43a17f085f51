//! Tests of the floating-point unit: NaN-boxing, canonical NaNs,
//! flags, classification, min/max, conversions and square roots.
use emu::bus::Bus;
use emu::cpu::Cpu;
use emu::ram::Ram;
use emu::sqrt::fsqrt32;
use emu::sqrt::fsqrt64;

fn mk_cpu() -> Cpu {
    let ram = vec![0u8; 1024 * 1024];
    let mut cpu = Cpu::new(Bus::new(Ram::new(ram)));
    // enable the FPU: mstatus.FS = Initial
    cpu.csrs[0x300] |= 0x2000;
    cpu
}

fn fptype(f7: u32, rs2: u32, rs1: u32, rm: u32, rd: u32) -> u32 {
    (f7 << 25) | (rs2 << 20) | (rs1 << 15) | (rm << 12) | (rd << 7) | 0x53
}

fn set_f32(cpu: &mut Cpu, n: usize, bits: u32) {
    cpu.float_regs[n] = 0xffff_ffff_0000_0000 | bits as u64;
}

fn fflags(cpu: &Cpu) -> u64 {
    cpu.csrs[3] & 0x1f
}

#[test]
fn fadd_computes() {
    let mut cpu = mk_cpu();
    set_f32(&mut cpu, 2, 1.5f32.to_bits());
    set_f32(&mut cpu, 3, 2.25f32.to_bits());
    cpu.execute(fptype(0x00, 3, 2, 0, 1), 4, false).unwrap();
    assert_eq!(cpu.float_regs[1], 0xffff_ffff_0000_0000 | 3.75f32.to_bits() as u64);
    assert_eq!(fflags(&cpu), 0);
}

#[test]
fn fadd_opposite_infinities_gives_canonical_nan() {
    let mut cpu = mk_cpu();
    set_f32(&mut cpu, 2, f32::INFINITY.to_bits());
    set_f32(&mut cpu, 3, f32::NEG_INFINITY.to_bits());
    cpu.execute(fptype(0x00, 3, 2, 0, 1), 4, false).unwrap();
    assert_eq!(cpu.float_regs[1], 0xffff_ffff_7fc0_0000);
    assert_eq!(fflags(&cpu) & 0x10, 0x10);  // NV
}

#[test]
fn fdiv_by_zero_sets_dz() {
    let mut cpu = mk_cpu();
    set_f32(&mut cpu, 2, 1.0f32.to_bits());
    set_f32(&mut cpu, 3, 0.0f32.to_bits());
    cpu.execute(fptype(0x0c, 3, 2, 0, 1), 4, false).unwrap();
    assert_eq!(cpu.float_regs[1] as u32, f32::INFINITY.to_bits());
    assert_eq!(fflags(&cpu) & 0x08, 0x08);  // DZ
}

#[test]
fn unboxed_operand_reads_as_canonical_nan() {
    let mut cpu = mk_cpu();
    // f2 holds a 32-bit value without the NaN box: reads see qNaN
    cpu.float_regs[2] = 1.0f32.to_bits() as u64;
    set_f32(&mut cpu, 3, 1.0f32.to_bits());
    cpu.execute(fptype(0x00, 3, 2, 0, 1), 4, false).unwrap();
    assert_eq!(cpu.float_regs[1] as u32, 0x7fc0_0000);
}

#[test]
fn fp_write_sets_upper_bits_and_fs_dirty() {
    let mut cpu = mk_cpu();
    cpu.write_reg(5, 0x1234_5678);
    cpu.execute(fptype(0x78, 0, 5, 0, 1), 4, false).unwrap();  // fmv.w.x f1, x5
    assert_eq!(cpu.float_regs[1] >> 32, 0xffff_ffff);
    assert_eq!((cpu.csrs[0x300] >> 13) & 3, 3);  // FS = Dirty
}

#[test]
fn fmv_round_trip_sign_extends() {
    let mut cpu = mk_cpu();
    cpu.write_reg(5, 0x1111_2222_dead_beef);
    cpu.execute(fptype(0x78, 0, 5, 0, 1), 4, false).unwrap();  // fmv.w.x f1, x5
    cpu.execute(fptype(0x70, 0, 1, 0, 6), 4, false).unwrap();  // fmv.x.w x6, f1
    assert_eq!(cpu.read_reg(6), 0xffff_ffff_dead_beef);
}

#[test]
fn fclass_examples() {
    let mut cpu = mk_cpu();
    let cases: &[(u32, u64)] = &[
        (f32::NEG_INFINITY.to_bits(), 1 << 0),
        ((-1.5f32).to_bits(), 1 << 1),
        (0x8000_0001, 1 << 2),           // negative subnormal
        (0x8000_0000, 1 << 3),           // -0
        (0x0000_0000, 1 << 4),           // +0
        (0x0000_0001, 1 << 5),           // positive subnormal
        (1.5f32.to_bits(), 1 << 6),
        (f32::INFINITY.to_bits(), 1 << 7),
        (0x7f80_0001, 1 << 8),           // sNaN
        (0x7fc0_0000, 1 << 9),           // qNaN
    ];
    for (bits, expect) in cases {
        set_f32(&mut cpu, 2, *bits);
        cpu.execute(fptype(0x70, 0, 2, 1, 6), 4, false).unwrap();  // fclass.s x6, f2
        assert_eq!(cpu.read_reg(6), *expect);
    }
}

#[test]
fn fmin_prefers_negative_zero() {
    let mut cpu = mk_cpu();
    set_f32(&mut cpu, 2, 0x8000_0000);  // -0.0
    set_f32(&mut cpu, 3, 0x0000_0000);  // +0.0
    cpu.execute(fptype(0x14, 3, 2, 0, 1), 4, false).unwrap();  // fmin.s
    assert_eq!(cpu.float_regs[1] as u32, 0x8000_0000);
    cpu.execute(fptype(0x14, 3, 2, 1, 1), 4, false).unwrap();  // fmax.s
    assert_eq!(cpu.float_regs[1] as u32, 0x0000_0000);
}

#[test]
fn fmin_with_nan_returns_other() {
    let mut cpu = mk_cpu();
    set_f32(&mut cpu, 2, 0x7fc0_0000);
    set_f32(&mut cpu, 3, 2.0f32.to_bits());
    cpu.execute(fptype(0x14, 3, 2, 0, 1), 4, false).unwrap();
    assert_eq!(cpu.float_regs[1] as u32, 2.0f32.to_bits());
}

#[test]
fn feq_flt_flags() {
    let mut cpu = mk_cpu();
    set_f32(&mut cpu, 2, 1.0f32.to_bits());
    set_f32(&mut cpu, 3, 2.0f32.to_bits());
    cpu.execute(fptype(0x50, 3, 2, 1, 6), 4, false).unwrap();  // flt
    assert_eq!(cpu.read_reg(6), 1);
    cpu.execute(fptype(0x50, 3, 2, 2, 6), 4, false).unwrap();  // feq
    assert_eq!(cpu.read_reg(6), 0);
    // quiet NaN: feq gives 0 without NV, flt raises NV
    set_f32(&mut cpu, 3, 0x7fc0_0000);
    cpu.csrs[3] = 0;
    cpu.execute(fptype(0x50, 3, 2, 2, 6), 4, false).unwrap();
    assert_eq!(cpu.read_reg(6), 0);
    assert_eq!(fflags(&cpu) & 0x10, 0);
    cpu.execute(fptype(0x50, 3, 2, 1, 6), 4, false).unwrap();
    assert_eq!(fflags(&cpu) & 0x10, 0x10);
}

#[test]
fn fcvt_saturates_and_flags() {
    let mut cpu = mk_cpu();
    set_f32(&mut cpu, 2, 0x7fc0_0000);  // NaN
    cpu.execute(fptype(0x60, 0, 2, 1, 6), 4, false).unwrap();  // fcvt.w.s rtz
    assert_eq!(cpu.read_reg(6), i32::MAX as u64);
    assert_eq!(fflags(&cpu) & 0x10, 0x10);
    set_f32(&mut cpu, 2, 3e9f32.to_bits());  // above i32::MAX
    cpu.execute(fptype(0x60, 0, 2, 1, 6), 4, false).unwrap();
    assert_eq!(cpu.read_reg(6), i32::MAX as u64);
    set_f32(&mut cpu, 2, (-1.0f32).to_bits());
    cpu.csrs[3] = 0;
    cpu.execute(fptype(0x60, 1, 2, 1, 6), 4, false).unwrap();  // fcvt.wu.s
    assert_eq!(cpu.read_reg(6), 0);
    assert_eq!(fflags(&cpu) & 0x10, 0x10);
}

#[test]
fn fcvt_int_to_float_and_back() {
    let mut cpu = mk_cpu();
    cpu.write_reg(5, 7);
    cpu.execute(fptype(0x68, 0, 5, 0, 1), 4, false).unwrap();  // fcvt.s.w f1, x5
    assert_eq!(cpu.float_regs[1] as u32, 7.0f32.to_bits());
    cpu.execute(fptype(0x60, 0, 1, 1, 6), 4, false).unwrap();  // fcvt.w.s x6, f1
    assert_eq!(cpu.read_reg(6), 7);
}

#[test]
fn fcvt_between_widths() {
    let mut cpu = mk_cpu();
    set_f32(&mut cpu, 2, 1.5f32.to_bits());
    cpu.execute(fptype(0x21, 0, 2, 0, 1), 4, false).unwrap();  // fcvt.d.s
    assert_eq!(cpu.float_regs[1], 1.5f64.to_bits());
    cpu.execute(fptype(0x20, 1, 1, 0, 3), 4, false).unwrap();  // fcvt.s.d
    assert_eq!(cpu.float_regs[3] as u32, 1.5f32.to_bits());
}

#[test]
fn fsqrt_exact() {
    assert_eq!(fsqrt32(4.0f32.to_bits(), 0), (2.0f32.to_bits(), 0));
    assert_eq!(fsqrt32(1.0f32.to_bits(), 0), (1.0f32.to_bits(), 0));
    assert_eq!(fsqrt64(9.0f64.to_bits(), 0), (3.0f64.to_bits(), 0));
    assert_eq!(fsqrt32(0x8000_0000, 0), (0x8000_0000, 0));  // sqrt(-0) = -0
    assert_eq!(fsqrt32(f32::INFINITY.to_bits(), 0), (f32::INFINITY.to_bits(), 0));
}

#[test]
fn fsqrt_matches_host_rounding() {
    for v in [2.0f32, 3.0, 0.5, 1234.5678, 1e-40, 3.4e38] {
        let (bits, fl) = fsqrt32(v.to_bits(), 0);
        assert_eq!(bits, v.sqrt().to_bits());
        assert_eq!(fl, 1);  // inexact
    }
    for v in [2.0f64, 3.0, 0.5, 9.87654321e100, 5e-310] {
        let (bits, fl) = fsqrt64(v.to_bits(), 0);
        assert_eq!(bits, v.sqrt().to_bits());
        assert_eq!(fl, 1);
    }
}

#[test]
fn fsqrt_negative_gives_nan() {
    assert_eq!(fsqrt32((-4.0f32).to_bits(), 0), (0x7fc0_0000, 0x10));
    assert_eq!(fsqrt64(f64::NEG_INFINITY.to_bits(), 0), (0x7ff8_0000_0000_0000, 0x10));
}

#[test]
fn fsqrt_instruction() {
    let mut cpu = mk_cpu();
    set_f32(&mut cpu, 2, 2.0f32.to_bits());
    cpu.execute(fptype(0x2c, 0, 2, 0, 1), 4, false).unwrap();
    assert_eq!(cpu.float_regs[1] as u32, 2.0f32.sqrt().to_bits());
    assert_eq!(fflags(&cpu) & 1, 1);
}

#[test]
fn fmadd_is_mul_then_add() {
    let mut cpu = mk_cpu();
    set_f32(&mut cpu, 2, 3.0f32.to_bits());
    set_f32(&mut cpu, 3, 4.0f32.to_bits());
    set_f32(&mut cpu, 4, 5.0f32.to_bits());
    // fmadd.s f1, f2, f3, f4
    let inst = (4 << 27) | (3 << 20) | (2 << 15) | (1 << 7) | 0x43;
    cpu.execute(inst, 4, false).unwrap();
    assert_eq!(cpu.float_regs[1] as u32, 17.0f32.to_bits());
}

#[test]
fn dynamic_rounding_mode_reserved_is_illegal() {
    let mut cpu = mk_cpu();
    cpu.csrs[3] = 5 << 5;  // frm = 5 (reserved)
    set_f32(&mut cpu, 2, 1.0f32.to_bits());
    set_f32(&mut cpu, 3, 1.0f32.to_bits());
    let r = cpu.execute(fptype(0x00, 3, 2, 7, 1), 4, false);
    assert!(r.is_err());
}

#[test]
fn fsgnj_injects_signs() {
    let mut cpu = mk_cpu();
    set_f32(&mut cpu, 2, 1.5f32.to_bits());
    set_f32(&mut cpu, 3, (-2.0f32).to_bits());
    cpu.execute(fptype(0x10, 3, 2, 0, 1), 4, false).unwrap();  // fsgnj
    assert_eq!(cpu.float_regs[1] as u32, (-1.5f32).to_bits());
    cpu.execute(fptype(0x10, 3, 2, 1, 1), 4, false).unwrap();  // fsgnjn
    assert_eq!(cpu.float_regs[1] as u32, 1.5f32.to_bits());
    cpu.execute(fptype(0x10, 3, 2, 2, 1), 4, false).unwrap();  // fsgnjx
    assert_eq!(cpu.float_regs[1] as u32, (-1.5f32).to_bits());
}

#[test]
fn flw_fsw_round_trip() {
    let mut cpu = mk_cpu();
    cpu.bus.store_u32(0x8000_0300, 1.25f32.to_bits()).unwrap();
    cpu.write_reg(5, 0x8000_0300);
    // flw f1, 0(x5)
    cpu.execute((5 << 15) | (2 << 12) | (1 << 7) | 0x07, 4, false).unwrap();
    assert_eq!(cpu.float_regs[1], 0xffff_ffff_0000_0000 | 1.25f32.to_bits() as u64);
    // fsw f1, 8(x5)
    cpu.execute((1 << 20) | (5 << 15) | (2 << 12) | (8 << 7) | 0x27, 4, false).unwrap();
    assert_eq!(cpu.bus.load_u32(0x8000_0308).unwrap(), 1.25f32.to_bits());
}

#[test]
fn fadd_double_precision() {
    let mut cpu = mk_cpu();
    cpu.float_regs[2] = 1.5f64.to_bits();
    cpu.float_regs[3] = 2.25f64.to_bits();
    cpu.execute(fptype(0x01, 3, 2, 0, 1), 4, false).unwrap();  // fadd.d
    assert_eq!(cpu.float_regs[1], 3.75f64.to_bits());
    cpu.execute(fptype(0x09, 3, 2, 0, 4), 4, false).unwrap();  // fmul.d
    assert_eq!(cpu.float_regs[4], (1.5f64 * 2.25).to_bits());
}

#[test]
fn fcvt_l_d_round_trip() {
    let mut cpu = mk_cpu();
    cpu.write_reg(5, (-123i64) as u64);
    cpu.execute(fptype(0x69, 2, 5, 0, 1), 4, false).unwrap();  // fcvt.d.l
    assert_eq!(cpu.float_regs[1], (-123.0f64).to_bits());
    cpu.execute(fptype(0x61, 2, 1, 1, 6), 4, false).unwrap();  // fcvt.l.d rtz
    assert_eq!(cpu.read_reg(6), (-123i64) as u64);
}
