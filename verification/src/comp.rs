//! The compressed-instruction expander: a 16-bit instruction whose low
//! two bits are not `0b11` is rewritten as its 32-bit equivalent; the
//! all-zero halfword and the unencoded holes are illegal instructions.
use vstd::prelude::*;
use crate::Exception;
use crate::cpu::Cpu;
use crate::cpu::Trap;

verus! {

broadcast use crate::bits::lemma_u32_and_le, crate::bits::lemma_u32_shr_le;

/// Pack a branch target into the B-format fields of `base`.
pub open spec fn bpack_spec(base: u32, r1: u32, imm: u32) -> u32 {
    base | (r1 << 15) | ((imm & 0x1e) << 7) | ((imm & 0x7e0) << 20) | ((imm & 0x800) >> 4) | ((imm
        & 0x1000) << 19)
}

fn bpack(base: u32, r1: u32, imm: u32) -> (r: u32)
    ensures
        r == bpack_spec(base, r1, imm),
{
    base | (r1 << 15) | ((imm & 0x1e) << 7) | ((imm & 0x7e0) << 20) | ((imm & 0x800) >> 4) | ((imm
        & 0x1000) << 19)
}

/// The 32-bit expansion of a 16-bit instruction, quadrant by quadrant.
pub open spec fn comp_expand_spec(inst: u16) -> Result<u32, Trap> {
    let i = inst as u32;
    if inst == 0 {
        Err(Trap { cause: Exception::IllegalInst, tval: inst as u64 })
    } else if i & 3 == 0 && i >> 13 == 0 {
        let rd = (((i & 0x1c) >> 2) + 8) as u32;
        let imm = ((i & 0x40) >> 4) | ((i & 0x20) >> 2) | ((i & 0x1800) >> 7) | ((i & 0x780) >> 1);
        Ok(0x00010013u32 | (imm << 20) | (rd << 7))
    } else if i & 3 == 0 && i >> 13 == 1 {
        let rd = (((i & 0x1c) >> 2) + 8) as u32;
        let r1 = (((i & 0x380) >> 7) + 8) as u32;
        let imm = ((i & 0x1c00) >> 7) | ((i & 0x60) << 1);
        Ok(0x00003007u32 | (rd << 7) | (r1 << 15) | (imm << 20))
    } else if i & 3 == 0 && i >> 13 == 2 {
        let rd = (((i & 0x1c) >> 2) + 8) as u32;
        let r1 = (((i & 0x380) >> 7) + 8) as u32;
        let imm = ((i & 0x40) >> 4) | ((i & 0x1c00) >> 7) | ((i & 0x20) << 1);
        Ok(0x00002003u32 | (rd << 7) | (r1 << 15) | (imm << 20))
    } else if i & 3 == 0 && i >> 13 == 3 {
        let rd = (((i & 0x1c) >> 2) + 8) as u32;
        let r1 = (((i & 0x380) >> 7) + 8) as u32;
        let imm = ((i & 0x1c00) >> 7) | ((i & 0x60) << 1);
        Ok(0x00003003u32 | (rd << 7) | (r1 << 15) | (imm << 20))
    } else if i & 3 == 0 && i >> 13 == 5 {
        let r2 = (((i & 0x1c) >> 2) + 8) as u32;
        let r1 = (((i & 0x380) >> 7) + 8) as u32;
        let imm = ((i & 0x1c00) >> 7) | ((i & 0x60) << 1);
        Ok(0x00003027u32 | (r1 << 15) | (r2 << 20) | ((imm & 0x1f) << 7) | ((imm & 0xffff_ffe0)
            << 20))
    } else if i & 3 == 0 && i >> 13 == 6 {
        let r2 = (((i & 0x1c) >> 2) + 8) as u32;
        let r1 = (((i & 0x380) >> 7) + 8) as u32;
        let imm = ((i & 0x40) >> 4) | ((i & 0x1c00) >> 7) | ((i & 0x20) << 1);
        Ok(0x00002023u32 | (r1 << 15) | (r2 << 20) | ((imm & 0x1f) << 7) | ((imm & 0xffff_ffe0)
            << 20))
    } else if i & 3 == 0 && i >> 13 == 7 {
        let r2 = (((i & 0x1c) >> 2) + 8) as u32;
        let r1 = (((i & 0x380) >> 7) + 8) as u32;
        let imm = ((i & 0x1c00) >> 7) | ((i & 0x60) << 1);
        Ok(0x00003023u32 | (r1 << 15) | (r2 << 20) | ((imm & 0x1f) << 7) | ((imm & 0xffff_ffe0)
            << 20))
    } else if i & 3 == 1 && i >> 13 == 0 {
        let rds1 = (i >> 7) & 0x1f;
        let imm = ((i & 0x7c) >> 2) | (if i & 0x1000 != 0 {
            0xffff_ffe0u32
        } else {
            0u32
        });
        Ok(0x00000013u32 | (rds1 << 7) | (rds1 << 15) | (imm << 20))
    } else if i & 3 == 1 && i >> 13 == 1 {
        let rds1 = (i >> 7) & 0x1f;
        let imm = ((i & 0x7c) >> 2) | (if i & 0x1000 != 0 {
            0xffff_ffe0u32
        } else {
            0u32
        });
        Ok(0x0000001bu32 | (rds1 << 7) | (rds1 << 15) | (imm << 20))
    } else if i & 3 == 1 && i >> 13 == 2 {
        let rd = (i >> 7) & 0x1f;
        let imm = ((i & 0x7c) >> 2) | (if i & 0x1000 != 0 {
            0xffff_ffe0u32
        } else {
            0u32
        });
        Ok(0x00000013u32 | (rd << 7) | (imm << 20))
    } else if i & 3 == 1 && i >> 13 == 3 {
        let rd = (i >> 7) & 0x1f;
        if rd == 2 {
            let imm = ((i & 0x40) >> 6) | ((i & 0x04) >> 1) | ((i & 0x20) >> 3) | (i & 0x18) | (
            if i & 0x1000 != 0 {
                0xffff_ffe0u32
            } else {
                0u32
            });
            Ok(0x00010113u32 | (imm << 24))
        } else {
            let imm = ((i & 0x7c) >> 2) | (if i & 0x1000 != 0 {
                0xffff_ffe0u32
            } else {
                0u32
            });
            Ok(0x00000037u32 | (rd << 7) | (imm << 12))
        }
    } else if i & 3 == 1 && i >> 13 == 4 {
        let rds1 = (((i & 0x380) >> 7) + 8) as u32;
        let r2 = (((i & 0x1c) >> 2) + 8) as u32;
        let imm = ((i & 0x7c) >> 2) | (if i & 0x1000 != 0 {
            0xffff_ffe0u32
        } else {
            0u32
        });
        let f2 = (i & 0xc00) >> 10;
        let itop = (imm >> 3) & 7;
        if f2 == 0 {
            Ok(0x00005013u32 | (rds1 << 7) | (rds1 << 15) | ((imm & 0x3f) << 20))
        } else if f2 == 1 {
            Ok(0x40005013u32 | (rds1 << 7) | (rds1 << 15) | ((imm & 0x3f) << 20))
        } else if f2 == 2 {
            Ok(0x00007013u32 | (rds1 << 7) | (rds1 << 15) | (imm << 20))
        } else if itop == 0 {
            Ok(0x40000033u32 | (rds1 << 7) | (rds1 << 15) | (r2 << 20))
        } else if itop == 1 {
            Ok(0x00004033u32 | (rds1 << 7) | (rds1 << 15) | (r2 << 20))
        } else if itop == 2 {
            Ok(0x00006033u32 | (rds1 << 7) | (rds1 << 15) | (r2 << 20))
        } else if itop == 3 {
            Ok(0x00007033u32 | (rds1 << 7) | (rds1 << 15) | (r2 << 20))
        } else if itop == 4 {
            Ok(0x4000003bu32 | (rds1 << 7) | (rds1 << 15) | (r2 << 20))
        } else if itop == 5 {
            Ok(0x0000003bu32 | (rds1 << 7) | (rds1 << 15) | (r2 << 20))
        } else {
            Err(Trap { cause: Exception::IllegalInst, tval: inst as u64 })
        }
    } else if i & 3 == 1 && i >> 13 == 5 {
        let imm = ((i & 0x38) >> 2) | ((i & 0x800) >> 7) | ((i & 0x4) << 3) | ((i & 0x80) >> 1) | (
        (i & 0x40) << 1) | ((i & 0x600) >> 1) | ((i & 0x100) << 2) | (if i & 0x1000 != 0 {
            0xffff_f800u32
        } else {
            0u32
        });
        Ok(0x0000006fu32 | ((imm & 0x7fe) << 20) | ((imm & 0x800) << 9) | (imm & 0xff000) | ((imm
            & 0x10000) << 11))
    } else if i & 3 == 1 && i >> 13 == 6 {
        let r1 = (((i & 0x380) >> 7) + 8) as u32;
        let imm = ((i & 0x18) >> 2) | ((i & 0xc00) >> 7) | ((i & 0x4) << 3) | ((i & 0x60) << 1) | (
        if i & 0x1000 != 0 {
            0xffff_f800u32
        } else {
            0u32
        });
        Ok(bpack_spec(0x00000063u32, r1, imm))
    } else if i & 3 == 1 && i >> 13 == 7 {
        let r1 = (((i & 0x380) >> 7) + 8) as u32;
        let imm = ((i & 0x18) >> 2) | ((i & 0xc00) >> 7) | ((i & 0x4) << 3) | ((i & 0x60) << 1) | (
        if i & 0x1000 != 0 {
            0xffff_f800u32
        } else {
            0u32
        });
        Ok(bpack_spec(0x00001063u32, r1, imm))
    } else if i & 3 == 2 && i >> 13 == 0 {
        let rds1 = (i >> 7) & 0x1f;
        let imm = ((i & 0x7c) >> 2) | (if i & 0x1000 != 0 {
            0xffff_ffe0u32
        } else {
            0u32
        });
        Ok(0x00001013u32 | (rds1 << 7) | (rds1 << 15) | ((imm & 0x3f) << 20))
    } else if i & 3 == 2 && i >> 13 == 1 {
        let rd = (i & 0xf80) >> 7;
        let imm = ((i & 0x60) >> 2) | ((i & 0x1000) >> 7) | ((i & 0x1c) << 4);
        Ok(0x00003007u32 | (rd << 7) | (imm << 20))
    } else if i & 3 == 2 && i >> 13 == 2 {
        let rd = (i & 0xf80) >> 7;
        let imm = ((i & 0x70) >> 2) | ((i & 0x1000) >> 7) | ((i & 0xc) << 4);
        Ok(0x00012003u32 | (rd << 7) | (imm << 20))
    } else if i & 3 == 2 && i >> 13 == 3 {
        let rd = (i & 0xf80) >> 7;
        let imm = ((i & 0x60) >> 2) | ((i & 0x1000) >> 7) | ((i & 0x1c) << 4);
        Ok(0x00013003u32 | (rd << 7) | (imm << 20))
    } else if i & 3 == 2 && i >> 13 == 4 {
        let rds1 = (i & 0xf80) >> 7;
        let r2 = (i & 0x7c) >> 2;
        let f1 = (i & 0x1000) >> 12;
        if f1 == 0 {
            if r2 == 0 {
                Ok(0x00000067u32 | (rds1 << 15))
            } else {
                Ok(0x00000033u32 | (rds1 << 7) | (r2 << 20))
            }
        } else {
            if rds1 == 0 && r2 == 0 {
                Ok(0x00100073u32)
            } else if r2 == 0 {
                Ok(0x000000e7u32 | (rds1 << 15))
            } else {
                Ok(0x00000033u32 | (rds1 << 7) | (rds1 << 15) | (r2 << 20))
            }
        }
    } else if i & 3 == 2 && i >> 13 == 5 {
        let r2 = (i & 0x7c) >> 2;
        let imm = ((i & 0x1c00) >> 7) | ((i & 0x380) >> 1);
        Ok(0x00003027u32 | (r2 << 20) | ((imm & 0x1f) << 7) | ((imm & 0xffff_ffe0) << 20))
    } else if i & 3 == 2 && i >> 13 == 6 {
        let r2 = (i & 0x7c) >> 2;
        let imm = ((i & 0x1e00) >> 7) | ((i & 0x180) >> 1);
        Ok(0x00012023u32 | (r2 << 20) | ((imm & 0x1f) << 7) | ((imm & 0xffff_ffe0) << 20))
    } else if i & 3 == 2 && i >> 13 == 7 {
        let r2 = (i & 0x7c) >> 2;
        let imm = ((i & 0x1c00) >> 7) | ((i & 0x380) >> 1);
        Ok(0x00013023u32 | (r2 << 20) | ((imm & 0x1f) << 7) | ((imm & 0xffff_ffe0) << 20))
    } else {
        Err(Trap { cause: Exception::IllegalInst, tval: inst as u64 })
    }
}

impl Cpu {
    /// Expand a 16-bit instruction to its 32-bit equivalent.
    pub fn comp_expand(&self, inst: u16) -> (r: Result<u32, Trap>)
        ensures
            r == comp_expand_spec(inst),
    {
    let i = inst as u32;
    if inst == 0 {
        Err(Trap { cause: Exception::IllegalInst, tval: inst as u64 })
    } else if i & 3 == 0 && i >> 13 == 0 {
        let rd = (((i & 0x1c) >> 2) + 8) as u32;
        let imm = ((i & 0x40) >> 4) | ((i & 0x20) >> 2) | ((i & 0x1800) >> 7) | ((i & 0x780) >> 1);
        Ok(0x00010013u32 | (imm << 20) | (rd << 7))
    } else if i & 3 == 0 && i >> 13 == 1 {
        let rd = (((i & 0x1c) >> 2) + 8) as u32;
        let r1 = (((i & 0x380) >> 7) + 8) as u32;
        let imm = ((i & 0x1c00) >> 7) | ((i & 0x60) << 1);
        Ok(0x00003007u32 | (rd << 7) | (r1 << 15) | (imm << 20))
    } else if i & 3 == 0 && i >> 13 == 2 {
        let rd = (((i & 0x1c) >> 2) + 8) as u32;
        let r1 = (((i & 0x380) >> 7) + 8) as u32;
        let imm = ((i & 0x40) >> 4) | ((i & 0x1c00) >> 7) | ((i & 0x20) << 1);
        Ok(0x00002003u32 | (rd << 7) | (r1 << 15) | (imm << 20))
    } else if i & 3 == 0 && i >> 13 == 3 {
        let rd = (((i & 0x1c) >> 2) + 8) as u32;
        let r1 = (((i & 0x380) >> 7) + 8) as u32;
        let imm = ((i & 0x1c00) >> 7) | ((i & 0x60) << 1);
        Ok(0x00003003u32 | (rd << 7) | (r1 << 15) | (imm << 20))
    } else if i & 3 == 0 && i >> 13 == 5 {
        let r2 = (((i & 0x1c) >> 2) + 8) as u32;
        let r1 = (((i & 0x380) >> 7) + 8) as u32;
        let imm = ((i & 0x1c00) >> 7) | ((i & 0x60) << 1);
        Ok(0x00003027u32 | (r1 << 15) | (r2 << 20) | ((imm & 0x1f) << 7) | ((imm & 0xffff_ffe0)
            << 20))
    } else if i & 3 == 0 && i >> 13 == 6 {
        let r2 = (((i & 0x1c) >> 2) + 8) as u32;
        let r1 = (((i & 0x380) >> 7) + 8) as u32;
        let imm = ((i & 0x40) >> 4) | ((i & 0x1c00) >> 7) | ((i & 0x20) << 1);
        Ok(0x00002023u32 | (r1 << 15) | (r2 << 20) | ((imm & 0x1f) << 7) | ((imm & 0xffff_ffe0)
            << 20))
    } else if i & 3 == 0 && i >> 13 == 7 {
        let r2 = (((i & 0x1c) >> 2) + 8) as u32;
        let r1 = (((i & 0x380) >> 7) + 8) as u32;
        let imm = ((i & 0x1c00) >> 7) | ((i & 0x60) << 1);
        Ok(0x00003023u32 | (r1 << 15) | (r2 << 20) | ((imm & 0x1f) << 7) | ((imm & 0xffff_ffe0)
            << 20))
    } else if i & 3 == 1 && i >> 13 == 0 {
        let rds1 = (i >> 7) & 0x1f;
        let imm = ((i & 0x7c) >> 2) | (if i & 0x1000 != 0 {
            0xffff_ffe0u32
        } else {
            0u32
        });
        Ok(0x00000013u32 | (rds1 << 7) | (rds1 << 15) | (imm << 20))
    } else if i & 3 == 1 && i >> 13 == 1 {
        let rds1 = (i >> 7) & 0x1f;
        let imm = ((i & 0x7c) >> 2) | (if i & 0x1000 != 0 {
            0xffff_ffe0u32
        } else {
            0u32
        });
        Ok(0x0000001bu32 | (rds1 << 7) | (rds1 << 15) | (imm << 20))
    } else if i & 3 == 1 && i >> 13 == 2 {
        let rd = (i >> 7) & 0x1f;
        let imm = ((i & 0x7c) >> 2) | (if i & 0x1000 != 0 {
            0xffff_ffe0u32
        } else {
            0u32
        });
        Ok(0x00000013u32 | (rd << 7) | (imm << 20))
    } else if i & 3 == 1 && i >> 13 == 3 {
        let rd = (i >> 7) & 0x1f;
        if rd == 2 {
            let imm = ((i & 0x40) >> 6) | ((i & 0x04) >> 1) | ((i & 0x20) >> 3) | (i & 0x18) | (
            if i & 0x1000 != 0 {
                0xffff_ffe0u32
            } else {
                0u32
            });
            Ok(0x00010113u32 | (imm << 24))
        } else {
            let imm = ((i & 0x7c) >> 2) | (if i & 0x1000 != 0 {
                0xffff_ffe0u32
            } else {
                0u32
            });
            Ok(0x00000037u32 | (rd << 7) | (imm << 12))
        }
    } else if i & 3 == 1 && i >> 13 == 4 {
        let rds1 = (((i & 0x380) >> 7) + 8) as u32;
        let r2 = (((i & 0x1c) >> 2) + 8) as u32;
        let imm = ((i & 0x7c) >> 2) | (if i & 0x1000 != 0 {
            0xffff_ffe0u32
        } else {
            0u32
        });
        let f2 = (i & 0xc00) >> 10;
        let itop = (imm >> 3) & 7;
        if f2 == 0 {
            Ok(0x00005013u32 | (rds1 << 7) | (rds1 << 15) | ((imm & 0x3f) << 20))
        } else if f2 == 1 {
            Ok(0x40005013u32 | (rds1 << 7) | (rds1 << 15) | ((imm & 0x3f) << 20))
        } else if f2 == 2 {
            Ok(0x00007013u32 | (rds1 << 7) | (rds1 << 15) | (imm << 20))
        } else if itop == 0 {
            Ok(0x40000033u32 | (rds1 << 7) | (rds1 << 15) | (r2 << 20))
        } else if itop == 1 {
            Ok(0x00004033u32 | (rds1 << 7) | (rds1 << 15) | (r2 << 20))
        } else if itop == 2 {
            Ok(0x00006033u32 | (rds1 << 7) | (rds1 << 15) | (r2 << 20))
        } else if itop == 3 {
            Ok(0x00007033u32 | (rds1 << 7) | (rds1 << 15) | (r2 << 20))
        } else if itop == 4 {
            Ok(0x4000003bu32 | (rds1 << 7) | (rds1 << 15) | (r2 << 20))
        } else if itop == 5 {
            Ok(0x0000003bu32 | (rds1 << 7) | (rds1 << 15) | (r2 << 20))
        } else {
            Err(Trap { cause: Exception::IllegalInst, tval: inst as u64 })
        }
    } else if i & 3 == 1 && i >> 13 == 5 {
        let imm = ((i & 0x38) >> 2) | ((i & 0x800) >> 7) | ((i & 0x4) << 3) | ((i & 0x80) >> 1) | (
        (i & 0x40) << 1) | ((i & 0x600) >> 1) | ((i & 0x100) << 2) | (if i & 0x1000 != 0 {
            0xffff_f800u32
        } else {
            0u32
        });
        Ok(0x0000006fu32 | ((imm & 0x7fe) << 20) | ((imm & 0x800) << 9) | (imm & 0xff000) | ((imm
            & 0x10000) << 11))
    } else if i & 3 == 1 && i >> 13 == 6 {
        let r1 = (((i & 0x380) >> 7) + 8) as u32;
        let imm = ((i & 0x18) >> 2) | ((i & 0xc00) >> 7) | ((i & 0x4) << 3) | ((i & 0x60) << 1) | (
        if i & 0x1000 != 0 {
            0xffff_f800u32
        } else {
            0u32
        });
        Ok(bpack(0x00000063u32, r1, imm))
    } else if i & 3 == 1 && i >> 13 == 7 {
        let r1 = (((i & 0x380) >> 7) + 8) as u32;
        let imm = ((i & 0x18) >> 2) | ((i & 0xc00) >> 7) | ((i & 0x4) << 3) | ((i & 0x60) << 1) | (
        if i & 0x1000 != 0 {
            0xffff_f800u32
        } else {
            0u32
        });
        Ok(bpack(0x00001063u32, r1, imm))
    } else if i & 3 == 2 && i >> 13 == 0 {
        let rds1 = (i >> 7) & 0x1f;
        let imm = ((i & 0x7c) >> 2) | (if i & 0x1000 != 0 {
            0xffff_ffe0u32
        } else {
            0u32
        });
        Ok(0x00001013u32 | (rds1 << 7) | (rds1 << 15) | ((imm & 0x3f) << 20))
    } else if i & 3 == 2 && i >> 13 == 1 {
        let rd = (i & 0xf80) >> 7;
        let imm = ((i & 0x60) >> 2) | ((i & 0x1000) >> 7) | ((i & 0x1c) << 4);
        Ok(0x00003007u32 | (rd << 7) | (imm << 20))
    } else if i & 3 == 2 && i >> 13 == 2 {
        let rd = (i & 0xf80) >> 7;
        let imm = ((i & 0x70) >> 2) | ((i & 0x1000) >> 7) | ((i & 0xc) << 4);
        Ok(0x00012003u32 | (rd << 7) | (imm << 20))
    } else if i & 3 == 2 && i >> 13 == 3 {
        let rd = (i & 0xf80) >> 7;
        let imm = ((i & 0x60) >> 2) | ((i & 0x1000) >> 7) | ((i & 0x1c) << 4);
        Ok(0x00013003u32 | (rd << 7) | (imm << 20))
    } else if i & 3 == 2 && i >> 13 == 4 {
        let rds1 = (i & 0xf80) >> 7;
        let r2 = (i & 0x7c) >> 2;
        let f1 = (i & 0x1000) >> 12;
        if f1 == 0 {
            if r2 == 0 {
                Ok(0x00000067u32 | (rds1 << 15))
            } else {
                Ok(0x00000033u32 | (rds1 << 7) | (r2 << 20))
            }
        } else {
            if rds1 == 0 && r2 == 0 {
                Ok(0x00100073u32)
            } else if r2 == 0 {
                Ok(0x000000e7u32 | (rds1 << 15))
            } else {
                Ok(0x00000033u32 | (rds1 << 7) | (rds1 << 15) | (r2 << 20))
            }
        }
    } else if i & 3 == 2 && i >> 13 == 5 {
        let r2 = (i & 0x7c) >> 2;
        let imm = ((i & 0x1c00) >> 7) | ((i & 0x380) >> 1);
        Ok(0x00003027u32 | (r2 << 20) | ((imm & 0x1f) << 7) | ((imm & 0xffff_ffe0) << 20))
    } else if i & 3 == 2 && i >> 13 == 6 {
        let r2 = (i & 0x7c) >> 2;
        let imm = ((i & 0x1e00) >> 7) | ((i & 0x180) >> 1);
        Ok(0x00012023u32 | (r2 << 20) | ((imm & 0x1f) << 7) | ((imm & 0xffff_ffe0) << 20))
    } else if i & 3 == 2 && i >> 13 == 7 {
        let r2 = (i & 0x7c) >> 2;
        let imm = ((i & 0x1c00) >> 7) | ((i & 0x380) >> 1);
        Ok(0x00013023u32 | (r2 << 20) | ((imm & 0x1f) << 7) | ((imm & 0xffff_ffe0) << 20))
    } else {
        Err(Trap { cause: Exception::IllegalInst, tval: inst as u64 })
    }
    }
}

} // verus!
