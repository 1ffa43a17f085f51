//! The floating-point unit's discipline on raw bit patterns:
//! NaN-boxing of 32-bit values in 64-bit registers, classification,
//! sign-injection, comparisons and min/max with their NaN rules, the
//! rounding-mode field, and exception-flag accumulation. The rounded
//! arithmetic itself is done by IEEE-754 software arithmetic from an
//! outside crate, behind named trusted wrappers.
use vstd::prelude::*;
use rustc_apfloat::Float;
use rustc_apfloat::FloatConvert;
use rustc_apfloat::Round;
use rustc_apfloat::ieee::Double;
use rustc_apfloat::ieee::Single;
use crate::Exception;
use crate::cpu::Cpu;
use crate::cpu::Trap;
use crate::csr::CSR_FCSR;
use crate::csr::csr_write_post_spec;
use crate::csr::fs_dirty_post;
use crate::csr::mstatus_read_spec;

verus! {

broadcast use crate::bits::lemma_u64_and_le, crate::bits::lemma_u64_and4095_id;

pub const FFLAG_NV: u64 = 0x10;

pub const FFLAG_DZ: u64 = 0x08;

pub const FFLAG_OF: u64 = 0x04;

pub const FFLAG_UF: u64 = 0x02;

pub const FFLAG_NX: u64 = 0x01;

/// The canonical quiet NaN of each width.
pub const F32_CNAN: u32 = 0x7fc0_0000;

pub const F64_CNAN: u64 = 0x7ff8_0000_0000_0000;

pub open spec fn is_nan32_spec(x: u32) -> bool {
    (x >> 23) & 0xff == 0xff && x & 0x7fffff != 0
}

pub open spec fn is_snan32_spec(x: u32) -> bool {
    is_nan32_spec(x) && x & 0x400000 == 0
}

pub open spec fn is_nan64_spec(x: u64) -> bool {
    (x >> 52) & 0x7ff == 0x7ff && x & 0xf_ffff_ffff_ffff != 0
}

pub open spec fn is_snan64_spec(x: u64) -> bool {
    is_nan64_spec(x) && x & 0x8_0000_0000_0000 == 0
}

/// The ten-bit `FCLASS` mask; by construction exactly one of the ten
/// class bits is returned.
pub open spec fn fclass32_spec(x: u32) -> u64 {
    let neg = x >> 31 != 0;
    let exp = (x >> 23) & 0xff;
    let man = x & 0x7fffff;
    if exp == 0xff && man != 0 {
        if man & 0x400000 == 0 {
            0x100u64
        } else {
            0x200u64
        }
    } else if exp == 0xff {
        if neg {
            0x1u64
        } else {
            0x80u64
        }
    } else if exp == 0 && man == 0 {
        if neg {
            0x8u64
        } else {
            0x10u64
        }
    } else if exp == 0 {
        if neg {
            0x4u64
        } else {
            0x20u64
        }
    } else {
        if neg {
            0x2u64
        } else {
            0x40u64
        }
    }
}

pub open spec fn fclass64_spec(x: u64) -> u64 {
    let neg = x >> 63 != 0;
    let exp = (x >> 52) & 0x7ff;
    let man = x & 0xf_ffff_ffff_ffff;
    if exp == 0x7ff && man != 0 {
        if man & 0x8_0000_0000_0000 == 0 {
            0x100u64
        } else {
            0x200u64
        }
    } else if exp == 0x7ff {
        if neg {
            0x1u64
        } else {
            0x80u64
        }
    } else if exp == 0 && man == 0 {
        if neg {
            0x8u64
        } else {
            0x10u64
        }
    } else if exp == 0 {
        if neg {
            0x4u64
        } else {
            0x20u64
        }
    } else {
        if neg {
            0x2u64
        } else {
            0x40u64
        }
    }
}

/// A signed key that orders non-NaN 32-bit values as IEEE-754 does,
/// with both zeroes at key zero.
pub open spec fn f32_key_spec(x: u32) -> int {
    if x >> 31 == 0 {
        (x & 0x7fffffff) as int
    } else {
        -((x & 0x7fffffff) as int)
    }
}

pub open spec fn f64_key_spec(x: u64) -> int {
    if x >> 63 == 0 {
        (x & 0x7fff_ffff_ffff_ffff) as int
    } else {
        -((x & 0x7fff_ffff_ffff_ffff) as int)
    }
}

/// The value a 32-bit read of an f-register sees: the low word when
/// the value is properly NaN-boxed, the canonical NaN otherwise.
pub open spec fn nanbox_read32_spec(r: u64) -> u32 {
    if r >> 32 == 0xffff_ffff {
        (r & 0xffff_ffff) as u32
    } else {
        F32_CNAN
    }
}

/// A 32-bit value boxed for an f-register: all-ones upper half.
pub open spec fn nanbox32_spec(d: u32) -> u64 {
    0xffff_ffff_0000_0000u64 | d as u64
}

/// An arithmetic result with any NaN replaced by the canonical NaN.
pub open spec fn canon32_spec(b: u32) -> u32 {
    if is_nan32_spec(b) {
        F32_CNAN
    } else {
        b
    }
}

pub open spec fn canon64_spec(b: u64) -> u64 {
    if is_nan64_spec(b) {
        F64_CNAN
    } else {
        b
    }
}

/// `FMIN.S` on bit patterns: quiet the NaN cases, prefer negative
/// zero on a zero tie, otherwise the smaller value.
pub open spec fn fmin32_bits_spec(a: u32, b: u32) -> u32 {
    if is_nan32_spec(a) && is_nan32_spec(b) {
        F32_CNAN
    } else if is_nan32_spec(a) {
        b
    } else if is_nan32_spec(b) {
        a
    } else if a & 0x7fffffff == 0 && b & 0x7fffffff == 0 {
        if a >> 31 != 0 || b >> 31 != 0 {
            0x8000_0000u32
        } else {
            0u32
        }
    } else if f32_key_spec(a) <= f32_key_spec(b) {
        a
    } else {
        b
    }
}

pub open spec fn fmax32_bits_spec(a: u32, b: u32) -> u32 {
    if is_nan32_spec(a) && is_nan32_spec(b) {
        F32_CNAN
    } else if is_nan32_spec(a) {
        b
    } else if is_nan32_spec(b) {
        a
    } else if a & 0x7fffffff == 0 && b & 0x7fffffff == 0 {
        if a >> 31 == 0 || b >> 31 == 0 {
            0u32
        } else {
            0x8000_0000u32
        }
    } else if f32_key_spec(a) >= f32_key_spec(b) {
        a
    } else {
        b
    }
}

pub open spec fn fmin64_bits_spec(a: u64, b: u64) -> u64 {
    if is_nan64_spec(a) && is_nan64_spec(b) {
        F64_CNAN
    } else if is_nan64_spec(a) {
        b
    } else if is_nan64_spec(b) {
        a
    } else if a & 0x7fff_ffff_ffff_ffff == 0 && b & 0x7fff_ffff_ffff_ffff == 0 {
        if a >> 63 != 0 || b >> 63 != 0 {
            0x8000_0000_0000_0000u64
        } else {
            0u64
        }
    } else if f64_key_spec(a) <= f64_key_spec(b) {
        a
    } else {
        b
    }
}

pub open spec fn fmax64_bits_spec(a: u64, b: u64) -> u64 {
    if is_nan64_spec(a) && is_nan64_spec(b) {
        F64_CNAN
    } else if is_nan64_spec(a) {
        b
    } else if is_nan64_spec(b) {
        a
    } else if a & 0x7fff_ffff_ffff_ffff == 0 && b & 0x7fff_ffff_ffff_ffff == 0 {
        if a >> 63 == 0 || b >> 63 == 0 {
            0u64
        } else {
            0x8000_0000_0000_0000u64
        }
    } else if f64_key_spec(a) >= f64_key_spec(b) {
        a
    } else {
        b
    }
}

/// The rounding mode an FP instruction uses: its `rm` field, or `frm`
/// when the field says dynamic; the reserved encodings 5 and 6 are
/// illegal.
pub open spec fn rm_resolve_spec(csrs: Seq<u64>, m: u64) -> Result<u8, Trap> {
    if m < 5 {
        Ok(m as u8)
    } else if m == 7 {
        let f = (csrs[CSR_FCSR as int] >> 5) & 7;
        if f < 5 {
            Ok(f as u8)
        } else {
            Err(Trap { cause: Exception::IllegalInst, tval: 0 })
        }
    } else {
        Err(Trap { cause: Exception::IllegalInst, tval: 0 })
    }
}

impl Cpu {
    pub fn is_nan32(&self, x: u32) -> (r: bool)
        ensures
            r == is_nan32_spec(x),
    {
        (x >> 23) & 0xff == 0xff && x & 0x7fffff != 0
    }

    pub fn is_nan64(&self, x: u64) -> (r: bool)
        ensures
            r == is_nan64_spec(x),
    {
        (x >> 52) & 0x7ff == 0x7ff && x & 0xf_ffff_ffff_ffff != 0
    }

    /// Resolve the instruction's rounding-mode field against `frm`.
    pub fn get_rm(&self, m: u32) -> (r: Result<u8, Trap>)
        requires
            self.wf(),
        ensures
            r == rm_resolve_spec(self.csrs@, m as u64),
    {
        if m < 5 {
            Ok(m as u8)
        } else if m == 7 {
            let f = (self.csr_read_cpu(CSR_FCSR) >> 5) & 7;
            if f < 5 {
                Ok(f as u8)
            } else {
                Err(Trap { cause: Exception::IllegalInst, tval: 0 })
            }
        } else {
            Err(Trap { cause: Exception::IllegalInst, tval: 0 })
        }
    }

    /// OR a set of exception flags into `fcsr`, marking the FP state
    /// dirty.
    pub fn float_set_flags(&mut self, f: u64)
        requires
            old(self).wf(),
        ensures
            final(self).wf(),
            *final(self) == (Cpu { csrs: final(self).csrs, ..*old(self) }),
            final(self).csrs@ == csr_write_post_spec(
                *old(self),
                CSR_FCSR,
                old(self).csrs@[CSR_FCSR as int] | f,
            ),
    {
        let o = self.csr_read_cpu(CSR_FCSR);
        self.csr_write_cpu(CSR_FCSR, o | f);
    }

    /// The raw 64-bit contents of an f-register.
    pub fn read_float_reg(&self, n: usize) -> (r: u64)
        requires
            self.wf(),
            n < 32,
        ensures
            r == self.float_regs@[n as int],
    {
        self.float_regs[n]
    }

    /// Write an f-register; with the FPU disabled this is an illegal
    /// instruction, otherwise `mstatus.FS` becomes dirty.
    pub fn write_float_reg(&mut self, n: usize, d: u64) -> (r: Result<(), Trap>)
        requires
            old(self).wf(),
            n < 32,
        ensures
            final(self).wf(),
            (mstatus_read_spec(old(self).csrs@) >> 13) & 3 == 0 ==> r == Err::<(), Trap>(
                Trap { cause: Exception::IllegalInst, tval: 0 },
            ) && *final(self) == *old(self),
            (mstatus_read_spec(old(self).csrs@) >> 13) & 3 != 0 ==> r == Ok::<(), Trap>(()) && (
            *final(self) == (Cpu {
                csrs: final(self).csrs,
                float_regs: final(self).float_regs,
                ..*old(self)
            })) && final(self).csrs@ == fs_dirty_post(old(self).csrs@) && final(self).float_regs@
                == old(self).float_regs@.update(n as int, d),
    {
        if !self.can_use_fp() {
            return Err(Trap { cause: Exception::IllegalInst, tval: 0 });
        }
        self.mut_fp_state();
        self.float_regs[n] = d;
        Ok(())
    }

    /// Read an f-register as a 32-bit value, canonicalizing a value
    /// that is not NaN-boxed.
    pub fn read_float_reg_r32(&self, n: usize) -> (r: u32)
        requires
            self.wf(),
            n < 32,
        ensures
            r == nanbox_read32_spec(self.float_regs@[n as int]),
    {
        let v = self.float_regs[n];
        if v >> 32 == 0xffff_ffff {
            (v & 0xffff_ffff) as u32
        } else {
            F32_CNAN
        }
    }

    /// Read the low word of an f-register without canonicalizing: the
    /// `FMV.X.W` and `FSW` view.
    pub fn read_float_reg_r32_uc(&self, n: usize) -> (r: u32)
        requires
            self.wf(),
            n < 32,
        ensures
            r == (self.float_regs@[n as int] & 0xffff_ffff) as u32,
    {
        (self.float_regs[n] & 0xffff_ffff) as u32
    }

    /// Write a 32-bit value into an f-register, NaN-boxed: the upper
    /// 32 bits of the destination are all ones immediately after.
    pub fn write_float_reg_r32(&mut self, n: usize, d: u32) -> (r: Result<(), Trap>)
        requires
            old(self).wf(),
            n < 32,
        ensures
            final(self).wf(),
            (mstatus_read_spec(old(self).csrs@) >> 13) & 3 == 0 ==> r == Err::<(), Trap>(
                Trap { cause: Exception::IllegalInst, tval: 0 },
            ) && *final(self) == *old(self),
            (mstatus_read_spec(old(self).csrs@) >> 13) & 3 != 0 ==> r == Ok::<(), Trap>(()) && (
            *final(self) == (Cpu {
                csrs: final(self).csrs,
                float_regs: final(self).float_regs,
                ..*old(self)
            })) && final(self).csrs@ == fs_dirty_post(old(self).csrs@) && final(self).float_regs@
                == old(self).float_regs@.update(n as int, nanbox32_spec(d))
                && final(self).float_regs@[n as int] >> 32 == 0xffff_ffff,
    {
        proof {
            assert((0xffff_ffff_0000_0000u64 | (d as u64)) >> 32 == 0xffff_ffff) by (bit_vector);
        }
        self.write_float_reg(n, 0xffff_ffff_0000_0000u64 | d as u64)
    }
}

/// What `rustc_apfloat` computes for each wrapped operation: the
/// result bit pattern and the IEEE status flags, a function of the
/// operand bits and the rounding mode alone.
pub uninterp spec fn f32_add_of(a: u32, b: u32, rm: u8) -> (u32, u8);

pub uninterp spec fn f32_sub_of(a: u32, b: u32, rm: u8) -> (u32, u8);

pub uninterp spec fn f32_mul_of(a: u32, b: u32, rm: u8) -> (u32, u8);

pub uninterp spec fn f32_div_of(a: u32, b: u32, rm: u8) -> (u32, u8);

pub uninterp spec fn f64_add_of(a: u64, b: u64, rm: u8) -> (u64, u8);

pub uninterp spec fn f64_sub_of(a: u64, b: u64, rm: u8) -> (u64, u8);

pub uninterp spec fn f64_mul_of(a: u64, b: u64, rm: u8) -> (u64, u8);

pub uninterp spec fn f64_div_of(a: u64, b: u64, rm: u8) -> (u64, u8);

pub uninterp spec fn f32_to_signed_of(a: u32, width: u8, rm: u8) -> (i64, u8);

pub uninterp spec fn f32_to_unsigned_of(a: u32, width: u8, rm: u8) -> (u64, u8);

pub uninterp spec fn f64_to_signed_of(a: u64, width: u8, rm: u8) -> (i64, u8);

pub uninterp spec fn f64_to_unsigned_of(a: u64, width: u8, rm: u8) -> (u64, u8);

pub uninterp spec fn f32_from_signed_of(x: i64, rm: u8) -> (u32, u8);

pub uninterp spec fn f32_from_unsigned_of(x: u64, rm: u8) -> (u32, u8);

pub uninterp spec fn f64_from_signed_of(x: i64, rm: u8) -> (u64, u8);

pub uninterp spec fn f64_from_unsigned_of(x: u64, rm: u8) -> (u64, u8);

pub uninterp spec fn f32_to_f64_of(a: u32, rm: u8) -> (u64, u8);

pub uninterp spec fn f64_to_f32_of(a: u64, rm: u8) -> (u32, u8);


/// Relies on `rustc_apfloat::ieee::Single::add_r`: IEEE-754 binary32
/// add of the operand bit patterns under the given rounding mode.
#[verifier::external_body]
pub(crate) fn sf32_add(a: u32, b: u32, rm: u8) -> (r: (u32, u8))
    ensures
        r == f32_add_of(a, b, rm),
{
    let m = match rm {
        0 => Round::NearestTiesToEven,
        1 => Round::TowardZero,
        2 => Round::TowardNegative,
        3 => Round::TowardPositive,
        _ => Round::NearestTiesToAway,
    };
    let s = Single::from_bits(a as u128).add_r(Single::from_bits(b as u128), m);
    (s.value.to_bits() as u32, s.status.bits())
}

/// Relies on `rustc_apfloat::ieee::Single::sub_r`: IEEE-754 binary32
/// sub of the operand bit patterns under the given rounding mode.
#[verifier::external_body]
pub(crate) fn sf32_sub(a: u32, b: u32, rm: u8) -> (r: (u32, u8))
    ensures
        r == f32_sub_of(a, b, rm),
{
    let m = match rm {
        0 => Round::NearestTiesToEven,
        1 => Round::TowardZero,
        2 => Round::TowardNegative,
        3 => Round::TowardPositive,
        _ => Round::NearestTiesToAway,
    };
    let s = Single::from_bits(a as u128).sub_r(Single::from_bits(b as u128), m);
    (s.value.to_bits() as u32, s.status.bits())
}

/// Relies on `rustc_apfloat::ieee::Single::mul_r`: IEEE-754 binary32
/// mul of the operand bit patterns under the given rounding mode.
#[verifier::external_body]
pub(crate) fn sf32_mul(a: u32, b: u32, rm: u8) -> (r: (u32, u8))
    ensures
        r == f32_mul_of(a, b, rm),
{
    let m = match rm {
        0 => Round::NearestTiesToEven,
        1 => Round::TowardZero,
        2 => Round::TowardNegative,
        3 => Round::TowardPositive,
        _ => Round::NearestTiesToAway,
    };
    let s = Single::from_bits(a as u128).mul_r(Single::from_bits(b as u128), m);
    (s.value.to_bits() as u32, s.status.bits())
}

/// Relies on `rustc_apfloat::ieee::Single::div_r`: IEEE-754 binary32
/// div of the operand bit patterns under the given rounding mode.
#[verifier::external_body]
pub(crate) fn sf32_div(a: u32, b: u32, rm: u8) -> (r: (u32, u8))
    ensures
        r == f32_div_of(a, b, rm),
{
    let m = match rm {
        0 => Round::NearestTiesToEven,
        1 => Round::TowardZero,
        2 => Round::TowardNegative,
        3 => Round::TowardPositive,
        _ => Round::NearestTiesToAway,
    };
    let s = Single::from_bits(a as u128).div_r(Single::from_bits(b as u128), m);
    (s.value.to_bits() as u32, s.status.bits())
}

/// Relies on `rustc_apfloat::ieee::Double::add_r`: IEEE-754 binary64
/// add of the operand bit patterns under the given rounding mode.
#[verifier::external_body]
pub(crate) fn sf64_add(a: u64, b: u64, rm: u8) -> (r: (u64, u8))
    ensures
        r == f64_add_of(a, b, rm),
{
    let m = match rm {
        0 => Round::NearestTiesToEven,
        1 => Round::TowardZero,
        2 => Round::TowardNegative,
        3 => Round::TowardPositive,
        _ => Round::NearestTiesToAway,
    };
    let s = Double::from_bits(a as u128).add_r(Double::from_bits(b as u128), m);
    (s.value.to_bits() as u64, s.status.bits())
}

/// Relies on `rustc_apfloat::ieee::Double::sub_r`: IEEE-754 binary64
/// sub of the operand bit patterns under the given rounding mode.
#[verifier::external_body]
pub(crate) fn sf64_sub(a: u64, b: u64, rm: u8) -> (r: (u64, u8))
    ensures
        r == f64_sub_of(a, b, rm),
{
    let m = match rm {
        0 => Round::NearestTiesToEven,
        1 => Round::TowardZero,
        2 => Round::TowardNegative,
        3 => Round::TowardPositive,
        _ => Round::NearestTiesToAway,
    };
    let s = Double::from_bits(a as u128).sub_r(Double::from_bits(b as u128), m);
    (s.value.to_bits() as u64, s.status.bits())
}

/// Relies on `rustc_apfloat::ieee::Double::mul_r`: IEEE-754 binary64
/// mul of the operand bit patterns under the given rounding mode.
#[verifier::external_body]
pub(crate) fn sf64_mul(a: u64, b: u64, rm: u8) -> (r: (u64, u8))
    ensures
        r == f64_mul_of(a, b, rm),
{
    let m = match rm {
        0 => Round::NearestTiesToEven,
        1 => Round::TowardZero,
        2 => Round::TowardNegative,
        3 => Round::TowardPositive,
        _ => Round::NearestTiesToAway,
    };
    let s = Double::from_bits(a as u128).mul_r(Double::from_bits(b as u128), m);
    (s.value.to_bits() as u64, s.status.bits())
}

/// Relies on `rustc_apfloat::ieee::Double::div_r`: IEEE-754 binary64
/// div of the operand bit patterns under the given rounding mode.
#[verifier::external_body]
pub(crate) fn sf64_div(a: u64, b: u64, rm: u8) -> (r: (u64, u8))
    ensures
        r == f64_div_of(a, b, rm),
{
    let m = match rm {
        0 => Round::NearestTiesToEven,
        1 => Round::TowardZero,
        2 => Round::TowardNegative,
        3 => Round::TowardPositive,
        _ => Round::NearestTiesToAway,
    };
    let s = Double::from_bits(a as u128).div_r(Double::from_bits(b as u128), m);
    (s.value.to_bits() as u64, s.status.bits())
}

/// Relies on `rustc_apfloat::Float::to_i128_r`: conversion of a
/// binary32 value to a signed integer of the given width, saturating
/// out-of-range values with the invalid flag.
#[verifier::external_body]
pub(crate) fn sf32_to_signed(a: u32, width: u8, rm: u8) -> (r: (i64, u8))
    requires
        width == 32 || width == 64,
    ensures
        r == f32_to_signed_of(a, width, rm),
{
    let m = match rm {
        0 => Round::NearestTiesToEven,
        1 => Round::TowardZero,
        2 => Round::TowardNegative,
        3 => Round::TowardPositive,
        _ => Round::NearestTiesToAway,
    };
    let mut exact = false;
    let s = Single::from_bits(a as u128).to_i128_r(width as usize, m, &mut exact);
    (s.value as i64, s.status.bits())
}

/// Relies on `rustc_apfloat::Float::to_u128_r`: conversion of a
/// binary32 value to an unsigned integer of the given width,
/// saturating out-of-range values with the invalid flag.
#[verifier::external_body]
pub(crate) fn sf32_to_unsigned(a: u32, width: u8, rm: u8) -> (r: (u64, u8))
    requires
        width == 32 || width == 64,
    ensures
        r == f32_to_unsigned_of(a, width, rm),
{
    let m = match rm {
        0 => Round::NearestTiesToEven,
        1 => Round::TowardZero,
        2 => Round::TowardNegative,
        3 => Round::TowardPositive,
        _ => Round::NearestTiesToAway,
    };
    let mut exact = false;
    let s = Single::from_bits(a as u128).to_u128_r(width as usize, m, &mut exact);
    (s.value as u64, s.status.bits())
}

/// Relies on `rustc_apfloat::Float::from_i128_r`: the binary32 value
/// nearest the signed integer under the given rounding mode.
#[verifier::external_body]
pub(crate) fn sf32_from_signed(x: i64, rm: u8) -> (r: (u32, u8))
    ensures
        r == f32_from_signed_of(x, rm),
{
    let m = match rm {
        0 => Round::NearestTiesToEven,
        1 => Round::TowardZero,
        2 => Round::TowardNegative,
        3 => Round::TowardPositive,
        _ => Round::NearestTiesToAway,
    };
    let s = Single::from_i128_r(x as i128, m);
    (s.value.to_bits() as u32, s.status.bits())
}

/// Relies on `rustc_apfloat::Float::from_u128_r`: the binary32 value
/// nearest the unsigned integer under the given rounding mode.
#[verifier::external_body]
pub(crate) fn sf32_from_unsigned(x: u64, rm: u8) -> (r: (u32, u8))
    ensures
        r == f32_from_unsigned_of(x, rm),
{
    let m = match rm {
        0 => Round::NearestTiesToEven,
        1 => Round::TowardZero,
        2 => Round::TowardNegative,
        3 => Round::TowardPositive,
        _ => Round::NearestTiesToAway,
    };
    let s = Single::from_u128_r(x as u128, m);
    (s.value.to_bits() as u32, s.status.bits())
}

/// Relies on `rustc_apfloat::Float::to_i128_r`: conversion of a
/// binary64 value to a signed integer of the given width, saturating
/// out-of-range values with the invalid flag.
#[verifier::external_body]
pub(crate) fn sf64_to_signed(a: u64, width: u8, rm: u8) -> (r: (i64, u8))
    requires
        width == 32 || width == 64,
    ensures
        r == f64_to_signed_of(a, width, rm),
{
    let m = match rm {
        0 => Round::NearestTiesToEven,
        1 => Round::TowardZero,
        2 => Round::TowardNegative,
        3 => Round::TowardPositive,
        _ => Round::NearestTiesToAway,
    };
    let mut exact = false;
    let s = Double::from_bits(a as u128).to_i128_r(width as usize, m, &mut exact);
    (s.value as i64, s.status.bits())
}

/// Relies on `rustc_apfloat::Float::to_u128_r`: conversion of a
/// binary64 value to an unsigned integer of the given width,
/// saturating out-of-range values with the invalid flag.
#[verifier::external_body]
pub(crate) fn sf64_to_unsigned(a: u64, width: u8, rm: u8) -> (r: (u64, u8))
    requires
        width == 32 || width == 64,
    ensures
        r == f64_to_unsigned_of(a, width, rm),
{
    let m = match rm {
        0 => Round::NearestTiesToEven,
        1 => Round::TowardZero,
        2 => Round::TowardNegative,
        3 => Round::TowardPositive,
        _ => Round::NearestTiesToAway,
    };
    let mut exact = false;
    let s = Double::from_bits(a as u128).to_u128_r(width as usize, m, &mut exact);
    (s.value as u64, s.status.bits())
}

/// Relies on `rustc_apfloat::Float::from_i128_r`: the binary64 value
/// nearest the signed integer under the given rounding mode.
#[verifier::external_body]
pub(crate) fn sf64_from_signed(x: i64, rm: u8) -> (r: (u64, u8))
    ensures
        r == f64_from_signed_of(x, rm),
{
    let m = match rm {
        0 => Round::NearestTiesToEven,
        1 => Round::TowardZero,
        2 => Round::TowardNegative,
        3 => Round::TowardPositive,
        _ => Round::NearestTiesToAway,
    };
    let s = Double::from_i128_r(x as i128, m);
    (s.value.to_bits() as u64, s.status.bits())
}

/// Relies on `rustc_apfloat::Float::from_u128_r`: the binary64 value
/// nearest the unsigned integer under the given rounding mode.
#[verifier::external_body]
pub(crate) fn sf64_from_unsigned(x: u64, rm: u8) -> (r: (u64, u8))
    ensures
        r == f64_from_unsigned_of(x, rm),
{
    let m = match rm {
        0 => Round::NearestTiesToEven,
        1 => Round::TowardZero,
        2 => Round::TowardNegative,
        3 => Round::TowardPositive,
        _ => Round::NearestTiesToAway,
    };
    let s = Double::from_u128_r(x as u128, m);
    (s.value.to_bits() as u64, s.status.bits())
}

/// Relies on `rustc_apfloat::FloatConvert::convert_r`: widening a
/// binary32 value to binary64, which is exact.
#[verifier::external_body]
pub(crate) fn sf32_to_f64(a: u32, rm: u8) -> (r: (u64, u8))
    ensures
        r == f32_to_f64_of(a, rm),
{
    let m = match rm {
        0 => Round::NearestTiesToEven,
        1 => Round::TowardZero,
        2 => Round::TowardNegative,
        3 => Round::TowardPositive,
        _ => Round::NearestTiesToAway,
    };
    let mut loses = false;
    let s: rustc_apfloat::StatusAnd<Double> = Single::from_bits(a as u128).convert_r(m, &mut loses);
    (s.value.to_bits() as u64, s.status.bits())
}

/// Relies on `rustc_apfloat::FloatConvert::convert_r`: rounding a
/// binary64 value to binary32 under the given rounding mode.
#[verifier::external_body]
pub(crate) fn sf64_to_f32(a: u64, rm: u8) -> (r: (u32, u8))
    ensures
        r == f64_to_f32_of(a, rm),
{
    let m = match rm {
        0 => Round::NearestTiesToEven,
        1 => Round::TowardZero,
        2 => Round::TowardNegative,
        3 => Round::TowardPositive,
        _ => Round::NearestTiesToAway,
    };
    let mut loses = false;
    let s: rustc_apfloat::StatusAnd<Single> = Double::from_bits(a as u128).convert_r(m, &mut loses);
    (s.value.to_bits() as u32, s.status.bits())
}

} // verus!
