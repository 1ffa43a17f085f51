//! Instruction decode and execution: opcode dispatch for the base
//! integer set with the M, A, F, D, Zicsr and privileged extensions,
//! and the fetch/execute/poll step loop.
use vstd::prelude::*;
use crate::Exception;
use crate::Mode;
use crate::atomic::AqRlMode;
use crate::cpu::Cpu;
use crate::cpu::Trap;
use crate::float::F32_CNAN;
use crate::float::F64_CNAN;

verus! {

broadcast use crate::bits::lemma_u32_and_le, crate::bits::lemma_u32_shr_bound, crate::bits::lemma_u64_and_le, crate::bits::lemma_u64_and4095_id;

/// The sign-extended I-type immediate.
pub open spec fn imm_i_spec(inst: u32) -> u64 {
    ((inst as i32) >> 20) as u64
}

/// The sign-extended S-type immediate.
pub open spec fn imm_s_spec(inst: u32) -> u64 {
    (((inst & 0xfe00_0000) as i32 >> 20) as u64) | (((inst >> 7) & 0x1f) as u64)
}

/// The sign-extended B-type immediate (in bytes, bit 0 clear).
pub open spec fn imm_b_spec(inst: u32) -> u64 {
    (((inst & 0x8000_0000) as i32 >> 19) as u64) | (((inst & 0x80) << 4) as u64) | (((inst >> 20)
        & 0x7e0) as u64) | (((inst >> 7) & 0x1e) as u64)
}

/// The U-type immediate, sign-extended to 64 bits.
pub open spec fn imm_u_spec(inst: u32) -> u64 {
    ((inst & 0xffff_f000) as i32) as u64
}

/// The sign-extended J-type immediate.
pub open spec fn imm_j_spec(inst: u32) -> u64 {
    (((inst & 0x8000_0000) as i32 >> 11) as u64) | ((inst & 0xff000) as u64) | (((inst >> 9)
        & 0x800) as u64) | (((inst >> 20) & 0x7fe) as u64)
}

/// Signed division with truncation toward zero; division by zero and
/// `INT_MIN / -1` follow the RISC-V M rules through the two's
/// complement arithmetic.
pub open spec fn sdiv64_spec(a: u64, b: u64) -> u64 {
    let ua = if (a as i64) < 0 {
        (0u64).wrapping_sub(a)
    } else {
        a
    };
    let ub = if (b as i64) < 0 {
        (0u64).wrapping_sub(b)
    } else {
        b
    };
    let q = (ua / ub) as u64;
    if ((a as i64) < 0) != ((b as i64) < 0) {
        (0u64).wrapping_sub(q)
    } else {
        q
    }
}

/// Signed remainder, with the sign of the dividend.
pub open spec fn srem64_spec(a: u64, b: u64) -> u64 {
    let ua = if (a as i64) < 0 {
        (0u64).wrapping_sub(a)
    } else {
        a
    };
    let ub = if (b as i64) < 0 {
        (0u64).wrapping_sub(b)
    } else {
        b
    };
    let m = (ua % ub) as u64;
    if (a as i64) < 0 {
        (0u64).wrapping_sub(m)
    } else {
        m
    }
}

/// The 64-bit register-register ALU, including the M extension:
/// `None` is an illegal encoding.
pub open spec fn alu64_spec(f3: u32, f7: u32, a: u64, b: u64) -> Option<u64> {
    if f7 == 0x00 {
        if f3 == 0 {
            Some(a.wrapping_add(b))
        } else if f3 == 1 {
            Some(a << (b & 0x3f))
        } else if f3 == 2 {
            Some(
                if (a as i64) < (b as i64) {
                    1u64
                } else {
                    0u64
                },
            )
        } else if f3 == 3 {
            Some(
                if a < b {
                    1u64
                } else {
                    0u64
                },
            )
        } else if f3 == 4 {
            Some(a ^ b)
        } else if f3 == 5 {
            Some(a >> (b & 0x3f))
        } else if f3 == 6 {
            Some(a | b)
        } else {
            Some(a & b)
        }
    } else if f7 == 0x20 {
        if f3 == 0 {
            Some(a.wrapping_sub(b))
        } else if f3 == 5 {
            Some(((a as i64) >> (b & 0x3f)) as u64)
        } else {
            None
        }
    } else if f7 == 0x01 {
        if f3 == 0 {
            Some(a.wrapping_mul(b))
        } else if f3 == 1 {
            Some((((a as i64 as u128).wrapping_mul(b as i64 as u128)) >> 64) as u64)
        } else if f3 == 2 {
            Some((((a as i64 as u128).wrapping_mul(b as u128)) >> 64) as u64)
        } else if f3 == 3 {
            Some((((a as u128).wrapping_mul(b as u128)) >> 64) as u64)
        } else if f3 == 4 {
            Some(
                if b == 0 {
                    u64::MAX
                } else {
                    sdiv64_spec(a, b)
                },
            )
        } else if f3 == 5 {
            Some(
                if b == 0 {
                    u64::MAX
                } else {
                    (a / b) as u64
                },
            )
        } else if f3 == 6 {
            Some(
                if b == 0 {
                    a
                } else {
                    srem64_spec(a, b)
                },
            )
        } else {
            Some(
                if b == 0 {
                    a
                } else {
                    (a % b) as u64
                },
            )
        }
    } else {
        None
    }
}

/// The 32-bit (`.W`) register-register ALU with the M extension;
/// results are sign-extended from 32 bits.
pub open spec fn alu32_spec(f3: u32, f7: u32, a: u64, b: u64) -> Option<u64> {
    if f7 == 0x00 {
        if f3 == 0 {
            Some((a.wrapping_add(b) as i32) as u64)
        } else if f3 == 1 {
            Some(((a << (b & 0x1f)) as i32) as u64)
        } else if f3 == 5 {
            Some((((a as u32) >> ((b & 0x1f) as u32)) as i32) as u64)
        } else {
            None
        }
    } else if f7 == 0x20 {
        if f3 == 0 {
            Some((a.wrapping_sub(b) as i32) as u64)
        } else if f3 == 5 {
            Some(((a as i32) >> ((b & 0x1f) as u32)) as u64)
        } else {
            None
        }
    } else if f7 == 0x01 {
        if f3 == 0 {
            Some(((a as i32).wrapping_mul(b as i32)) as u64)
        } else if f3 == 4 {
            Some(
                if b as u32 == 0 {
                    u64::MAX
                } else {
                    (sdiv64_spec((a as i32) as u64, (b as i32) as u64) as i32) as u64
                },
            )
        } else if f3 == 5 {
            Some(
                if b as u32 == 0 {
                    u64::MAX
                } else {
                    ((((a as u32) / (b as u32)) as u32) as i32) as u64
                },
            )
        } else if f3 == 6 {
            Some(
                if b as u32 == 0 {
                    a
                } else {
                    (srem64_spec((a as i32) as u64, (b as i32) as u64) as i32) as u64
                },
            )
        } else if f3 == 7 {
            Some(
                if b as u32 == 0 {
                    (((a as u32) as i32) as u64)
                } else {
                    ((((a as u32) % (b as u32)) as i32) as u64)
                },
            )
        } else {
            None
        }
    } else {
        None
    }
}

/// The I-type ALU; every `funct3` encodes an operation.
pub open spec fn alu_imm64_spec(f3: u32, a: u64, b: u64) -> u64 {
    if f3 == 0 {
        a.wrapping_add(b)
    } else if f3 == 1 {
        a << (b & 0x3f)
    } else if f3 == 2 {
        if (a as i64) < (b as i64) {
            1u64
        } else {
            0u64
        }
    } else if f3 == 3 {
        if a < b {
            1u64
        } else {
            0u64
        }
    } else if f3 == 4 {
        a ^ b
    } else if f3 == 5 {
        if b >> 6 == 0 {
            a >> (b & 0x3f)
        } else {
            ((a as i64) >> (b & 0x3f)) as u64
        }
    } else if f3 == 6 {
        a | b
    } else {
        a & b
    }
}

/// The 32-bit I-type ALU; `None` is an illegal encoding.
pub open spec fn alu_imm32_spec(f3: u32, a: u64, b: u64) -> Option<u64> {
    if f3 == 0 {
        Some((a.wrapping_add(b) as i32) as u64)
    } else if f3 == 1 {
        Some(((a << (b & 0x1f)) as i32) as u64)
    } else if f3 == 5 {
        Some(
            if b >> 6 == 0 {
                ((((a as u32) >> ((b & 0x1f) as u32)) as u32) as i32) as u64
            } else {
                ((a as i32) >> ((b & 0x1f) as u32)) as u64
            },
        )
    } else {
        None
    }
}

/// Whether a branch of the given `funct3` is taken; `None` is an
/// illegal encoding.
pub open spec fn branch_take_spec(f3: u32, a: u64, b: u64) -> Option<bool> {
    if f3 == 0 {
        Some(a == b)
    } else if f3 == 1 {
        Some(a != b)
    } else if f3 == 4 {
        Some((a as i64) < (b as i64))
    } else if f3 == 5 {
        Some((a as i64) >= (b as i64))
    } else if f3 == 6 {
        Some(a < b)
    } else if f3 == 7 {
        Some(a >= b)
    } else {
        None
    }
}

fn rs1_of(inst: u32) -> (r: usize)
    ensures
        r == ((inst >> 15) & 0x1f) as usize,
        r < 32,
{
    ((inst >> 15) & 0x1f) as usize
}

fn rs2_of(inst: u32) -> (r: usize)
    ensures
        r == ((inst >> 20) & 0x1f) as usize,
        r < 32,
{
    ((inst >> 20) & 0x1f) as usize
}

fn rd_of(inst: u32) -> (r: usize)
    ensures
        r == ((inst >> 7) & 0x1f) as usize,
        r < 32,
{
    ((inst >> 7) & 0x1f) as usize
}

fn imm_i_of(inst: u32) -> (r: u64)
    ensures
        r == imm_i_spec(inst),
{
    ((inst as i32) >> 20u32) as u64
}

fn imm_s_of(inst: u32) -> (r: u64)
    ensures
        r == imm_s_spec(inst),
{
    (((inst & 0xfe00_0000) as i32 >> 20u32) as u64) | (((inst >> 7) & 0x1f) as u64)
}

fn imm_b_of(inst: u32) -> (r: u64)
    ensures
        r == imm_b_spec(inst),
{
    (((inst & 0x8000_0000) as i32 >> 19u32) as u64) | (((inst & 0x80) << 4u32) as u64) | (((inst
        >> 20) & 0x7e0) as u64) | (((inst >> 7) & 0x1e) as u64)
}

fn imm_u_of(inst: u32) -> (r: u64)
    ensures
        r == imm_u_spec(inst),
{
    ((inst & 0xffff_f000) as i32) as u64
}

fn imm_j_of(inst: u32) -> (r: u64)
    ensures
        r == imm_j_spec(inst),
{
    (((inst & 0x8000_0000) as i32 >> 11u32) as u64) | ((inst & 0xff000) as u64) | (((inst >> 9)
        & 0x800) as u64) | (((inst >> 20) & 0x7fe) as u64)
}


/// Effect of `LUI`.
pub open spec fn lui_post(pre: Cpu, post: Cpu, inst: u32, r: Result<(), Trap>) -> bool {
    r is Ok && post == (Cpu { regs: post.regs, ..pre }) && post.regs@ == pre.write_reg_spec(
        ((inst >> 7) & 0x1f) as int,
        imm_u_spec(inst),
    )
}

/// Effect of `AUIPC`: the U-immediate plus the instruction's own
/// address (`pc` has already advanced by `ilen`).
pub open spec fn auipc_post(pre: Cpu, post: Cpu, inst: u32, ilen: u64, r: Result<(), Trap>) -> bool {
    r is Ok && post == (Cpu { regs: post.regs, ..pre }) && post.regs@ == pre.write_reg_spec(
        ((inst >> 7) & 0x1f) as int,
        pre.pc.wrapping_sub(ilen).wrapping_add(imm_u_spec(inst)),
    )
}

/// Effect of `JAL`: jump by the J-immediate, linking the address of
/// the next instruction; a misaligned target traps with nothing done.
pub open spec fn jal_post(pre: Cpu, post: Cpu, inst: u32, ilen: u64, r: Result<(), Trap>) -> bool {
    post == (Cpu { regs: post.regs, pc: post.pc, ..pre }) && ({
        let target = pre.pc.wrapping_sub(ilen).wrapping_add(imm_j_spec(inst));
        if target & 1 == 0 {
            r is Ok && post.pc == target && post.regs@ == pre.write_reg_spec(
                ((inst >> 7) & 0x1f) as int,
                pre.pc,
            )
        } else {
            r == Err::<(), Trap>(Trap { cause: Exception::InstAddrMisalign, tval: target }) && post
                == pre
        }
    })
}

/// Effect of `JALR`: jump to `rs1 + imm` with bit 0 cleared, linking
/// the next instruction's address; a nonzero `funct3` is illegal.
pub open spec fn jalr_post(pre: Cpu, post: Cpu, inst: u32, r: Result<(), Trap>) -> bool {
    post == (Cpu { regs: post.regs, pc: post.pc, ..pre }) && (if (inst >> 12) & 7 != 0 {
        r == Err::<(), Trap>(Trap { cause: Exception::IllegalInst, tval: inst as u64 }) && post
            == pre
    } else {
        let target = pre.read_reg_spec(((inst >> 15) & 0x1f) as int).wrapping_add(imm_i_spec(inst))
            & 0xffff_ffff_ffff_fffe;
        r is Ok && post.pc == target && post.regs@ == pre.write_reg_spec(
            ((inst >> 7) & 0x1f) as int,
            pre.pc,
        )
    })
}

/// Effect of a conditional branch.
pub open spec fn branch_post(pre: Cpu, post: Cpu, inst: u32, ilen: u64, r: Result<(), Trap>) -> bool {
    post == (Cpu { pc: post.pc, ..pre }) && ({
        let a = pre.read_reg_spec(((inst >> 15) & 0x1f) as int);
        let b = pre.read_reg_spec(((inst >> 20) & 0x1f) as int);
        let target = pre.pc.wrapping_sub(ilen).wrapping_add(imm_b_spec(inst));
        match branch_take_spec((inst >> 12) & 7, a, b) {
            None => r == Err::<(), Trap>(Trap { cause: Exception::IllegalInst, tval: inst as u64 })
                && post == pre,
            Some(take) => if !take {
                r is Ok && post == pre
            } else if target & 1 == 0 {
                r is Ok && post.pc == target
            } else {
                r == Err::<(), Trap>(Trap { cause: Exception::InstAddrMisalign, tval: target })
                    && post == pre
            },
        }
    })
}

/// Effect of a register-register ALU operation (`OP`).
pub open spec fn op_post(pre: Cpu, post: Cpu, inst: u32, r: Result<(), Trap>) -> bool {
    post == (Cpu { regs: post.regs, ..pre }) && ({
        let a = pre.read_reg_spec(((inst >> 15) & 0x1f) as int);
        let b = pre.read_reg_spec(((inst >> 20) & 0x1f) as int);
        match alu64_spec((inst >> 12) & 7, inst >> 25, a, b) {
            None => r == Err::<(), Trap>(Trap { cause: Exception::IllegalInst, tval: inst as u64 })
                && post == pre,
            Some(v) => r is Ok && post.regs@ == pre.write_reg_spec(((inst >> 7) & 0x1f) as int, v),
        }
    })
}

/// Effect of a register-immediate ALU operation (`OP-IMM`).
pub open spec fn op_imm_post(pre: Cpu, post: Cpu, inst: u32, r: Result<(), Trap>) -> bool {
    r is Ok && post == (Cpu { regs: post.regs, ..pre }) && post.regs@ == pre.write_reg_spec(
        ((inst >> 7) & 0x1f) as int,
        alu_imm64_spec(
            (inst >> 12) & 7,
            pre.read_reg_spec(((inst >> 15) & 0x1f) as int),
            imm_i_spec(inst),
        ),
    )
}

/// Effect of a 32-bit register-immediate ALU operation (`OP-IMM-32`).
pub open spec fn op_imm32_post(pre: Cpu, post: Cpu, inst: u32, r: Result<(), Trap>) -> bool {
    post == (Cpu { regs: post.regs, ..pre }) && ({
        let a = pre.read_reg_spec(((inst >> 15) & 0x1f) as int);
        match alu_imm32_spec((inst >> 12) & 7, a, imm_i_spec(inst)) {
            None => r == Err::<(), Trap>(Trap { cause: Exception::IllegalInst, tval: inst as u64 })
                && post == pre,
            Some(v) => r is Ok && post.regs@ == pre.write_reg_spec(((inst >> 7) & 0x1f) as int, v),
        }
    })
}

/// Effect of a 32-bit register-register ALU operation (`OP-32`).
pub open spec fn op32_post(pre: Cpu, post: Cpu, inst: u32, r: Result<(), Trap>) -> bool {
    post == (Cpu { regs: post.regs, ..pre }) && ({
        let a = pre.read_reg_spec(((inst >> 15) & 0x1f) as int);
        let b = pre.read_reg_spec(((inst >> 20) & 0x1f) as int);
        match alu32_spec((inst >> 12) & 7, inst >> 25, a, b) {
            None => r == Err::<(), Trap>(Trap { cause: Exception::IllegalInst, tval: inst as u64 })
                && post == pre,
            Some(v) => r is Ok && post.regs@ == pre.write_reg_spec(((inst >> 7) & 0x1f) as int, v),
        }
    })
}

/// Effect of an integer load: address translation, the bus read, the
/// width extension and the register write, or the exact fault.
pub open spec fn load_post(pre: Cpu, post: Cpu, inst: u32, r: Result<(), Trap>) -> bool {
    post == (Cpu { bus: post.bus, regs: post.regs, ..pre }) && ({
        let f3 = (inst >> 12) & 7;
        let addr = pre.read_reg_spec(((inst >> 15) & 0x1f) as int).wrapping_add(imm_i_spec(inst));
        if f3 == 7 {
            r == Err::<(), Trap>(Trap { cause: Exception::IllegalInst, tval: inst as u64 }) && post
                == pre
        } else {
            match crate::mmu::translate_spec(pre, addr, crate::mmu::PERM_R) {
                Err(_) => r == Err::<(), Trap>(
                    Trap { cause: Exception::LoadPageFault, tval: addr },
                ) && post.bus@ == pre.bus@ && post.regs == pre.regs,
                Ok((pa, upd)) => post.bus@ == (match upd {
                    None => pre.bus@,
                    Some(u) => crate::bus::bus_store_u64_post_spec(pre.bus@, u.0, u.1),
                }) && (match load_result_spec(f3, post.bus@, pa) {
                    Err(e) => r == Err::<(), Trap>(Trap { cause: e, tval: 0 }) && post.regs
                        == pre.regs,
                    Ok(v) => r is Ok && post.regs@ == pre.write_reg_spec(
                        ((inst >> 7) & 0x1f) as int,
                        v,
                    ),
                }),
            }
        }
    })
}

/// Effect of an integer store: the reservation set is cleared, then
/// translation and the bus write, or the exact fault; in test mode a
/// zero store to a result address yields the exit code instead.
pub open spec fn store_post(pre: Cpu, post: Cpu, inst: u32, testing: bool, r: Result<
    Option<u32>,
    Trap,
>) -> bool {
    post == (Cpu { bus: post.bus, amo_rs: post.amo_rs, ..pre }) && post.amo_rs.entries()
        == Seq::<u64>::empty() && (!testing ==> (r matches Ok(c) ==> c is None)) && ({
        let f3 = (inst >> 12) & 7;
        let addr = pre.read_reg_spec(((inst >> 15) & 0x1f) as int).wrapping_add(imm_s_spec(inst));
        let val = pre.read_reg_spec(((inst >> 20) & 0x1f) as int);
        if f3 > 3 {
            r == Err::<Option<u32>, Trap>(Trap { cause: Exception::IllegalInst, tval: inst as u64 })
                && post.bus@ == pre.bus@
        } else if f3 == 2 && testing && (addr == 0x8000_1004 || addr == 0x8000_2004) && val as u32
            == 0 {
            post.bus@ == pre.bus@ && (match crate::bus::bus_load_u32_spec(
                pre.bus@,
                addr.wrapping_sub(4),
            ) {
                Ok(w) => r == Ok::<Option<u32>, Trap>(
                    Some(
                        if w == 0 {
                            0u32
                        } else {
                            (w - 1) as u32
                        },
                    ),
                ),
                Err(_) => r == Ok::<Option<u32>, Trap>(Some(0u32)),
            })
        } else {
            match crate::mmu::translate_spec(pre, addr, crate::mmu::PERM_W) {
                Err(_) => r == Err::<Option<u32>, Trap>(
                    Trap { cause: Exception::StorePageFault, tval: addr },
                ) && post.bus@ == pre.bus@,
                Ok((pa, upd)) => ({
                    let mid = match upd {
                        None => pre.bus@,
                        Some(u) => crate::bus::bus_store_u64_post_spec(pre.bus@, u.0, u.1),
                    };
                    if store_ok_spec(f3, mid, pa) {
                        r == Ok::<Option<u32>, Trap>(None) && post.bus@ == store_post_spec(
                            f3,
                            mid,
                            pa,
                            val,
                        )
                    } else {
                        r == Err::<Option<u32>, Trap>(
                            Trap { cause: Exception::StoreAccessFault, tval: 0 },
                        ) && post.bus@ == mid
                    }
                }),
            }
        }
    })
}

impl Cpu {
    fn sdiv64(&self, a: u64, b: u64) -> (r: u64)
        requires
            b != 0,
        ensures
            r == sdiv64_spec(a, b),
    {
        let ua = if (a as i64) < 0 {
            (0u64).wrapping_sub(a)
        } else {
            a
        };
        let ub = if (b as i64) < 0 {
            (0u64).wrapping_sub(b)
        } else {
            b
        };
        let q = ua / ub;
        if ((a as i64) < 0) != ((b as i64) < 0) {
            (0u64).wrapping_sub(q)
        } else {
            q
        }
    }

    fn srem64(&self, a: u64, b: u64) -> (r: u64)
        requires
            b != 0,
        ensures
            r == srem64_spec(a, b),
    {
        let ua = if (a as i64) < 0 {
            (0u64).wrapping_sub(a)
        } else {
            a
        };
        let ub = if (b as i64) < 0 {
            (0u64).wrapping_sub(b)
        } else {
            b
        };
        let m = ua % ub;
        if (a as i64) < 0 {
            (0u64).wrapping_sub(m)
        } else {
            m
        }
    }

    fn alu64(&self, f3: u32, f7: u32, a: u64, b: u64) -> (r: Option<u64>)
        ensures
            r == alu64_spec(f3, f7, a, b),
    {
        if f7 == 0x00 {
            Some(
                if f3 == 0 {
                    a.wrapping_add(b)
                } else if f3 == 1 {
                    a << (b & 0x3f)
                } else if f3 == 2 {
                    if (a as i64) < (b as i64) {
                        1u64
                    } else {
                        0u64
                    }
                } else if f3 == 3 {
                    if a < b {
                        1u64
                    } else {
                        0u64
                    }
                } else if f3 == 4 {
                    a ^ b
                } else if f3 == 5 {
                    a >> (b & 0x3f)
                } else if f3 == 6 {
                    a | b
                } else {
                    a & b
                },
            )
        } else if f7 == 0x20 {
            if f3 == 0 {
                Some(a.wrapping_sub(b))
            } else if f3 == 5 {
                Some(((a as i64) >> (b & 0x3f)) as u64)
            } else {
                None
            }
        } else if f7 == 0x01 {
            if f3 == 0 {
                Some(a.wrapping_mul(b))
            } else if f3 == 1 {
                Some((((a as i64 as u128).wrapping_mul(b as i64 as u128)) >> 64u32) as u64)
            } else if f3 == 2 {
                Some((((a as i64 as u128).wrapping_mul(b as u128)) >> 64u32) as u64)
            } else if f3 == 3 {
                Some((((a as u128).wrapping_mul(b as u128)) >> 64u32) as u64)
            } else if f3 == 4 {
                if b == 0 {
                    Some(u64::MAX)
                } else {
                    Some(self.sdiv64(a, b))
                }
            } else if f3 == 5 {
                if b == 0 {
                    Some(u64::MAX)
                } else {
                    Some(a / b)
                }
            } else if f3 == 6 {
                if b == 0 {
                    Some(a)
                } else {
                    Some(self.srem64(a, b))
                }
            } else {
                if b == 0 {
                    Some(a)
                } else {
                    Some(a % b)
                }
            }
        } else {
            None
        }
    }

    fn alu32(&self, f3: u32, f7: u32, a: u64, b: u64) -> (r: Option<u64>)
        ensures
            r == alu32_spec(f3, f7, a, b),
    {
        if f7 == 0x00 {
            if f3 == 0 {
                Some((a.wrapping_add(b) as i32) as u64)
            } else if f3 == 1 {
                Some(((a << (b & 0x1f)) as i32) as u64)
            } else if f3 == 5 {
                Some((((a as u32) >> ((b & 0x1f) as u32)) as i32) as u64)
            } else {
                None
            }
        } else if f7 == 0x20 {
            if f3 == 0 {
                Some((a.wrapping_sub(b) as i32) as u64)
            } else if f3 == 5 {
                Some(((a as i32) >> ((b & 0x1f) as u32)) as u64)
            } else {
                None
            }
        } else if f7 == 0x01 {
            if f3 == 0 {
                Some(((a as i32).wrapping_mul(b as i32)) as u64)
            } else if f3 == 4 {
                if b as u32 == 0 {
                    Some(u64::MAX)
                } else {
                    proof {
                        assert((b as i32) as u64 != 0) by (bit_vector)
                            requires
                                b as u32 != 0u32,
                        ;
                    }
                    Some((self.sdiv64((a as i32) as u64, (b as i32) as u64) as i32) as u64)
                }
            } else if f3 == 5 {
                if b as u32 == 0 {
                    Some(u64::MAX)
                } else {
                    Some((((a as u32) / (b as u32)) as i32) as u64)
                }
            } else if f3 == 6 {
                if b as u32 == 0 {
                    Some(a)
                } else {
                    proof {
                        assert((b as i32) as u64 != 0) by (bit_vector)
                            requires
                                b as u32 != 0u32,
                        ;
                    }
                    Some((self.srem64((a as i32) as u64, (b as i32) as u64) as i32) as u64)
                }
            } else if f3 == 7 {
                if b as u32 == 0 {
                    Some(((a as u32) as i32) as u64)
                } else {
                    Some((((a as u32) % (b as u32)) as i32) as u64)
                }
            } else {
                None
            }
        } else {
            None
        }
    }

    /// `LUI`: load the U-immediate into `rd`.
    pub fn exec_lui(&mut self, inst: u32) -> (r: Result<(), Trap>)
        requires
            old(self).wf(),
        ensures
            final(self).wf(),
            lui_post(*old(self), *final(self), inst, r),
    {
        let v = imm_u_of(inst);
        self.write_reg(rd_of(inst), v);
        Ok(())
    }

    /// `AUIPC`: the U-immediate plus the instruction's own address.
    pub fn exec_auipc(&mut self, inst: u32, ilen: u64) -> (r: Result<(), Trap>)
        requires
            old(self).wf(),
        ensures
            final(self).wf(),
            auipc_post(*old(self), *final(self), inst, ilen, r),
    {
        let v = self.pc.wrapping_sub(ilen).wrapping_add(imm_u_of(inst));
        self.write_reg(rd_of(inst), v);
        Ok(())
    }

    /// `JAL`: jump to the J-immediate target and link the address of
    /// the next instruction.
    pub fn exec_jal(&mut self, inst: u32, ilen: u64) -> (r: Result<(), Trap>)
        requires
            old(self).wf(),
        ensures
            final(self).wf(),
            jal_post(*old(self), *final(self), inst, ilen, r),
    {
        let target = self.pc.wrapping_sub(ilen).wrapping_add(imm_j_of(inst));
        let link = match self.write_pc(target) {
            Ok(v) => v,
            Err(t) => {
                return Err(t);
            },
        };
        self.write_reg(rd_of(inst), link);
        Ok(())
    }

    /// `JALR`: jump to `rs1` plus the I-immediate with bit 0 cleared,
    /// linking the next instruction's address.
    pub fn exec_jalr(&mut self, inst: u32) -> (r: Result<(), Trap>)
        requires
            old(self).wf(),
        ensures
            final(self).wf(),
            jalr_post(*old(self), *final(self), inst, r),
    {
        if (inst >> 12) & 7 != 0 {
            return Err(Trap { cause: Exception::IllegalInst, tval: inst as u64 });
        }
        let a = self.read_reg(rs1_of(inst));
        let base = a.wrapping_add(imm_i_of(inst));
        let target = base & 0xffff_ffff_ffff_fffe;
        proof {
            assert((base & 0xffff_ffff_ffff_fffeu64) & 1 == 0) by (bit_vector);
        }
        let link = match self.write_pc(target) {
            Ok(v) => v,
            Err(t) => {
                return Err(t);
            },
        };
        self.write_reg(rd_of(inst), link);
        Ok(())
    }

    /// A conditional branch: compare and, when taken, jump by the
    /// B-immediate relative to the instruction's address.
    pub fn exec_branch(&mut self, inst: u32, ilen: u64) -> (r: Result<(), Trap>)
        requires
            old(self).wf(),
        ensures
            final(self).wf(),
            branch_post(*old(self), *final(self), inst, ilen, r),
    {
        let a = self.read_reg(rs1_of(inst));
        let b = self.read_reg(rs2_of(inst));
        let f3 = (inst >> 12) & 7;
        let take = if f3 == 0 {
            a == b
        } else if f3 == 1 {
            a != b
        } else if f3 == 4 {
            (a as i64) < (b as i64)
        } else if f3 == 5 {
            (a as i64) >= (b as i64)
        } else if f3 == 6 {
            a < b
        } else if f3 == 7 {
            a >= b
        } else {
            return Err(Trap { cause: Exception::IllegalInst, tval: inst as u64 });
        };
        if take {
            let target = self.pc.wrapping_sub(ilen).wrapping_add(imm_b_of(inst));
            match self.write_pc(target) {
                Ok(_) => {},
                Err(t) => {
                    return Err(t);
                },
            }
        }
        Ok(())
    }

    /// A register-register ALU operation (`OP`), M extension included.
    pub fn exec_op(&mut self, inst: u32) -> (r: Result<(), Trap>)
        requires
            old(self).wf(),
        ensures
            final(self).wf(),
            op_post(*old(self), *final(self), inst, r),
    {
        let a = self.read_reg(rs1_of(inst));
        let b = self.read_reg(rs2_of(inst));
        let v = match self.alu64((inst >> 12) & 7, inst >> 25, a, b) {
            Some(v) => v,
            None => {
                return Err(Trap { cause: Exception::IllegalInst, tval: inst as u64 });
            },
        };
        self.write_reg(rd_of(inst), v);
        Ok(())
    }

    /// A register-immediate ALU operation (`OP-IMM`).
    pub fn exec_op_imm(&mut self, inst: u32) -> (r: Result<(), Trap>)
        requires
            old(self).wf(),
        ensures
            final(self).wf(),
            op_imm_post(*old(self), *final(self), inst, r),
    {
        let a = self.read_reg(rs1_of(inst));
        let b = imm_i_of(inst);
        let f3 = (inst >> 12) & 7;
        let v = if f3 == 0 {
            a.wrapping_add(b)
        } else if f3 == 1 {
            a << (b & 0x3f)
        } else if f3 == 2 {
            if (a as i64) < (b as i64) {
                1u64
            } else {
                0u64
            }
        } else if f3 == 3 {
            if a < b {
                1u64
            } else {
                0u64
            }
        } else if f3 == 4 {
            a ^ b
        } else if f3 == 5 {
            if b >> 6u64 == 0 {
                a >> (b & 0x3f)
            } else {
                ((a as i64) >> (b & 0x3f)) as u64
            }
        } else if f3 == 6 {
            a | b
        } else {
            a & b
        };
        self.write_reg(rd_of(inst), v);
        Ok(())
    }

    /// A 32-bit register-immediate ALU operation (`OP-IMM-32`).
    pub fn exec_op_imm32(&mut self, inst: u32) -> (r: Result<(), Trap>)
        requires
            old(self).wf(),
        ensures
            final(self).wf(),
            op_imm32_post(*old(self), *final(self), inst, r),
    {
        let a = self.read_reg(rs1_of(inst));
        let b = imm_i_of(inst);
        let f3 = (inst >> 12) & 7;
        let v = if f3 == 0 {
            (a.wrapping_add(b) as i32) as u64
        } else if f3 == 1 {
            ((a << (b & 0x1f)) as i32) as u64
        } else if f3 == 5 {
            if b >> 6u64 == 0 {
                (((a as u32) >> ((b & 0x1f) as u32)) as i32) as u64
            } else {
                ((a as i32) >> ((b & 0x1f) as u32)) as u64
            }
        } else {
            return Err(Trap { cause: Exception::IllegalInst, tval: inst as u64 });
        };
        self.write_reg(rd_of(inst), v);
        Ok(())
    }

    /// A 32-bit register-register ALU operation (`OP-32`).
    pub fn exec_op32(&mut self, inst: u32) -> (r: Result<(), Trap>)
        requires
            old(self).wf(),
        ensures
            final(self).wf(),
            op32_post(*old(self), *final(self), inst, r),
    {
        let a = self.read_reg(rs1_of(inst));
        let b = self.read_reg(rs2_of(inst));
        let v = match self.alu32((inst >> 12) & 7, inst >> 25, a, b) {
            Some(v) => v,
            None => {
                return Err(Trap { cause: Exception::IllegalInst, tval: inst as u64 });
            },
        };
        self.write_reg(rd_of(inst), v);
        Ok(())
    }
}


/// IEEE status flags from the software float library mapped onto the
/// `fflags` bits.
pub open spec fn map_status_spec(st: u8) -> u64 {
    (if st & 0x01 != 0 {
        0x10u64
    } else {
        0u64
    }) | (if st & 0x02 != 0 {
        0x08u64
    } else {
        0u64
    }) | (if st & 0x04 != 0 {
        0x04u64
    } else {
        0u64
    }) | (if st & 0x08 != 0 {
        0x02u64
    } else {
        0u64
    }) | (if st & 0x10 != 0 {
        0x01u64
    } else {
        0u64
    })
}

fn map_status(st: u8) -> (r: u64)
    ensures
        r == map_status_spec(st),
{
    (if st & 0x01 != 0 {
        0x10u64
    } else {
        0u64
    }) | (if st & 0x02 != 0 {
        0x08u64
    } else {
        0u64
    }) | (if st & 0x04 != 0 {
        0x04u64
    } else {
        0u64
    }) | (if st & 0x08 != 0 {
        0x02u64
    } else {
        0u64
    }) | (if st & 0x10 != 0 {
        0x01u64
    } else {
        0u64
    })
}


/// The value a load of the given `funct3` yields from physical
/// address `pa`: the bus value, sign- or zero-extended per the width.
pub open spec fn load_result_spec(f3: u32, b: crate::bus::BusView, pa: u64) -> Result<
    u64,
    Exception,
> {
    if f3 == 0 {
        match crate::bus::bus_load_u8_spec(b, pa) {
            Ok(v) => Ok(((v as i8) as u64)),
            Err(e) => Err(e),
        }
    } else if f3 == 1 {
        match crate::bus::bus_load_u16_spec(b, pa) {
            Ok(v) => Ok(((v as i16) as u64)),
            Err(e) => Err(e),
        }
    } else if f3 == 2 {
        match crate::bus::bus_load_u32_spec(b, pa) {
            Ok(v) => Ok(((v as i32) as u64)),
            Err(e) => Err(e),
        }
    } else if f3 == 3 {
        crate::bus::bus_load_u64_spec(b, pa)
    } else if f3 == 4 {
        match crate::bus::bus_load_u8_spec(b, pa) {
            Ok(v) => Ok(v as u64),
            Err(e) => Err(e),
        }
    } else if f3 == 5 {
        match crate::bus::bus_load_u16_spec(b, pa) {
            Ok(v) => Ok(v as u64),
            Err(e) => Err(e),
        }
    } else {
        match crate::bus::bus_load_u32_spec(b, pa) {
            Ok(v) => Ok(v as u64),
            Err(e) => Err(e),
        }
    }
}

/// Whether a store of the given `funct3` lands on the bus at `pa`.
pub open spec fn store_ok_spec(f3: u32, b: crate::bus::BusView, pa: u64) -> bool {
    if f3 == 0 {
        crate::bus::bus_store_u8_ok_spec(b, pa)
    } else if f3 == 1 {
        crate::bus::bus_store_u16_ok_spec(b, pa)
    } else if f3 == 2 {
        crate::bus::bus_store_u32_ok_spec(b, pa)
    } else {
        crate::bus::bus_store_u64_ok_spec(b, pa)
    }
}

/// The bus after a store of the low bytes of `val` at `pa`.
pub open spec fn store_post_spec(f3: u32, b: crate::bus::BusView, pa: u64, val: u64) -> crate::bus::BusView {
    if f3 == 0 {
        crate::bus::bus_store_u8_post_spec(b, pa, val as u8)
    } else if f3 == 1 {
        crate::bus::bus_store_u16_post_spec(b, pa, val as u16)
    } else if f3 == 2 {
        crate::bus::bus_store_u32_post_spec(b, pa, val as u32)
    } else {
        crate::bus::bus_store_u64_post_spec(b, pa, val)
    }
}


/// The value an AMO functor computes from the loaded word and `rs2`.
pub open spec fn amo_op32_spec(f5: u32, v: u32, b: u32) -> u32 {
    if f5 == 0x01 {
        b
    } else if f5 == 0x00 {
        v.wrapping_add(b)
    } else if f5 == 0x04 {
        v ^ b
    } else if f5 == 0x0c {
        v & b
    } else if f5 == 0x08 {
        v | b
    } else if f5 == 0x10 {
        if (v as i32) <= (b as i32) {
            v
        } else {
            b
        }
    } else if f5 == 0x14 {
        if (v as i32) >= (b as i32) {
            v
        } else {
            b
        }
    } else if f5 == 0x18 {
        if v <= b {
            v
        } else {
            b
        }
    } else {
        if v >= b {
            v
        } else {
            b
        }
    }
}

pub open spec fn amo_op64_spec(f5: u32, v: u64, b: u64) -> u64 {
    if f5 == 0x01 {
        b
    } else if f5 == 0x00 {
        v.wrapping_add(b)
    } else if f5 == 0x04 {
        v ^ b
    } else if f5 == 0x0c {
        v & b
    } else if f5 == 0x08 {
        v | b
    } else if f5 == 0x10 {
        if (v as i64) <= (b as i64) {
            v
        } else {
            b
        }
    } else if f5 == 0x14 {
        if (v as i64) >= (b as i64) {
            v
        } else {
            b
        }
    } else if f5 == 0x18 {
        if v <= b {
            v
        } else {
            b
        }
    } else {
        if v >= b {
            v
        } else {
            b
        }
    }
}

pub open spec fn amo_f5_valid(f5: u32) -> bool {
    f5 == 0x01 || f5 == 0x00 || f5 == 0x04 || f5 == 0x0c || f5 == 0x08 || f5 == 0x10 || f5 == 0x14
        || f5 == 0x18 || f5 == 0x1c
}

/// Effect of the A extension: LR records the reservation and loads;
/// SC writes 0 to rd and stores exactly when every unit of the access
/// is still reserved (clearing the set either way, never trapping);
/// an AMO loads, applies the functor, stores back and writes the old
/// value to rd, clearing the reservation set at its store.
pub open spec fn amo_post(pre: Cpu, post: Cpu, inst: u32, r: Result<(), Trap>) -> bool {
    post == (Cpu { bus: post.bus, regs: post.regs, amo_rs: post.amo_rs, ..pre }) && ({
        let f3 = (inst >> 12) & 7;
        let f5 = inst >> 27;
        let a = pre.read_reg_spec(((inst >> 15) & 0x1f) as int);
        let b = pre.read_reg_spec(((inst >> 20) & 0x1f) as int);
        let rd = ((inst >> 7) & 0x1f) as int;
        let sz = if f3 == 2 {
            1int
        } else {
            2int
        };
        if f3 != 2 && f3 != 3 {
            r == Err::<(), Trap>(Trap { cause: Exception::IllegalInst, tval: inst as u64 }) && post
                == pre
        } else if f5 == 0x02 {
            (pre.amo_rs.length + sz < crate::atomic::RS_SET_SIZE ==> post.amo_rs.entries()
                == pre.amo_rs.entries() + Seq::new(
                sz as nat,
                |i: int| a.wrapping_add((4 * i) as u64),
            )) && (match crate::mmu::translate_spec(pre, a, crate::mmu::PERM_R) {
                Err(_) => r == Err::<(), Trap>(Trap { cause: Exception::LoadPageFault, tval: a })
                    && post.bus@ == pre.bus@ && post.regs == pre.regs,
                Ok((pa, upd)) => post.bus@ == (match upd {
                    None => pre.bus@,
                    Some(u) => crate::bus::bus_store_u64_post_spec(pre.bus@, u.0, u.1),
                }) && (match load_result_spec(f3, post.bus@, pa) {
                    Err(e) => r == Err::<(), Trap>(Trap { cause: e, tval: 0 }) && post.regs
                        == pre.regs,
                    Ok(v) => r is Ok && post.regs@ == pre.write_reg_spec(rd, v),
                }),
            })
        } else if f5 == 0x03 {
            post.amo_rs.entries() == Seq::<u64>::empty() && (if !pre.amo_rs.owns_spec(a, sz) {
                r is Ok && post.bus@ == pre.bus@ && post.regs@ == pre.write_reg_spec(rd, 1)
            } else {
                match crate::mmu::translate_spec(pre, a, crate::mmu::PERM_W) {
                    Err(_) => r is Ok && post.bus@ == pre.bus@ && post.regs@ == pre.write_reg_spec(
                        rd,
                        1,
                    ),
                    Ok((pa, upd)) => ({
                        let mid = match upd {
                            None => pre.bus@,
                            Some(u) => crate::bus::bus_store_u64_post_spec(pre.bus@, u.0, u.1),
                        };
                        if store_ok_spec(f3, mid, pa) {
                            r is Ok && post.bus@ == store_post_spec(f3, mid, pa, b) && post.regs@
                                == pre.write_reg_spec(rd, 0)
                        } else {
                            r is Ok && post.bus@ == mid && post.regs@ == pre.write_reg_spec(rd, 1)
                        }
                    }),
                }
            })
        } else if amo_f5_valid(f5) {
            match crate::mmu::translate_spec(pre, a, crate::mmu::PERM_R) {
                Err(_) => r == Err::<(), Trap>(Trap { cause: Exception::LoadPageFault, tval: a })
                    && post.bus@ == pre.bus@ && post.regs == pre.regs && post.amo_rs
                    == pre.amo_rs,
                Ok((pa1, upd1)) => ({
                    let mid1 = match upd1 {
                        None => pre.bus@,
                        Some(u) => crate::bus::bus_store_u64_post_spec(pre.bus@, u.0, u.1),
                    };
                    match load_result_spec(f3, mid1, pa1) {
                        Err(e) => r == Err::<(), Trap>(Trap { cause: e, tval: 0 }) && post.bus@
                            == mid1 && post.regs == pre.regs && post.amo_rs == pre.amo_rs,
                        Ok(lv) => ({
                            let n = if f3 == 2 {
                                amo_op32_spec(f5, lv as u32, b as u32) as u64
                            } else {
                                amo_op64_spec(f5, lv, b)
                            };
                            post.amo_rs.entries() == Seq::<u64>::empty() && (match
                                crate::mmu::translate_with_perm_spec(
                                mid1,
                                pre.mode,
                                pre.pages,
                                a,
                                crate::mmu::perm_for_mode_spec(
                                    pre.csrs@,
                                    crate::mmu::PERM_W,
                                    pre.mode,
                                ),
                            ) {
                                Err(_) => r == Err::<(), Trap>(
                                    Trap { cause: Exception::StorePageFault, tval: a },
                                ) && post.bus@ == mid1 && post.regs == pre.regs,
                                Ok((pa2, upd2)) => ({
                                    let mid2 = match upd2 {
                                        None => mid1,
                                        Some(u) => crate::bus::bus_store_u64_post_spec(
                                            mid1,
                                            u.0,
                                            u.1,
                                        ),
                                    };
                                    if store_ok_spec(f3, mid2, pa2) {
                                        r is Ok && post.bus@ == store_post_spec(f3, mid2, pa2, n)
                                            && post.regs@ == pre.write_reg_spec(rd, lv)
                                    } else {
                                        r == Err::<(), Trap>(
                                            Trap { cause: Exception::StoreAccessFault, tval: 0 },
                                        ) && post.bus@ == mid2 && post.regs == pre.regs
                                    }
                                }),
                            })
                        }),
                    }
                }),
            }
        } else {
            r == Err::<(), Trap>(Trap { cause: Exception::IllegalInst, tval: inst as u64 }) && post
                == pre
        }
    })
}

/// Effect of `FLW`/`FLD`: translation, the bus read, and the NaN-boxed
/// (word) or raw (doubleword) register write, which needs the FPU on.
pub open spec fn fp_load_post(pre: Cpu, post: Cpu, inst: u32, r: Result<(), Trap>) -> bool {
    post == (Cpu { bus: post.bus, csrs: post.csrs, float_regs: post.float_regs, ..pre }) && ({
        let f3 = (inst >> 12) & 7;
        let addr = pre.read_reg_spec(((inst >> 15) & 0x1f) as int).wrapping_add(imm_i_spec(inst));
        let rd = ((inst >> 7) & 0x1f) as int;
        let fs_off = (crate::csr::mstatus_read_spec(pre.csrs@) >> 13) & 3 == 0;
        if f3 != 2 && f3 != 3 {
            r == Err::<(), Trap>(Trap { cause: Exception::IllegalInst, tval: inst as u64 }) && post
                == pre
        } else {
            match crate::mmu::translate_spec(pre, addr, crate::mmu::PERM_R) {
                Err(_) => r == Err::<(), Trap>(
                    Trap { cause: Exception::LoadPageFault, tval: addr },
                ) && post.bus@ == pre.bus@ && post.csrs == pre.csrs && post.float_regs
                    == pre.float_regs,
                Ok((pa, upd)) => post.bus@ == (match upd {
                    None => pre.bus@,
                    Some(u) => crate::bus::bus_store_u64_post_spec(pre.bus@, u.0, u.1),
                }) && (match load_result_spec(
                    if f3 == 2 {
                        6u32
                    } else {
                        3u32
                    },
                    post.bus@,
                    pa,
                ) {
                    Err(e) => r == Err::<(), Trap>(Trap { cause: e, tval: 0 }) && post.csrs
                        == pre.csrs && post.float_regs == pre.float_regs,
                    Ok(v) => if fs_off {
                        r == Err::<(), Trap>(Trap { cause: Exception::IllegalInst, tval: 0 })
                            && post.csrs == pre.csrs && post.float_regs == pre.float_regs
                    } else {
                        r is Ok && post.csrs@ == crate::csr::fs_dirty_post(pre.csrs@)
                            && post.float_regs@ == pre.float_regs@.update(
                            rd,
                            if f3 == 2 {
                                crate::float::nanbox32_spec(v as u32)
                            } else {
                                v
                            },
                        )
                    },
                }),
            }
        }
    })
}

/// Effect of `FSW`/`FSD`: the reservation set is cleared; with the FPU
/// off the store is skipped, otherwise the (un)boxed register value is
/// stored through translation.
pub open spec fn fp_store_post(pre: Cpu, post: Cpu, inst: u32, r: Result<(), Trap>) -> bool {
    post == (Cpu { bus: post.bus, amo_rs: post.amo_rs, ..pre }) && post.amo_rs.entries()
        == Seq::<u64>::empty() && ({
        let f3 = (inst >> 12) & 7;
        let addr = pre.read_reg_spec(((inst >> 15) & 0x1f) as int).wrapping_add(imm_s_spec(inst));
        let fs_on = (crate::csr::mstatus_read_spec(pre.csrs@) >> 13) & 3 != 0;
        let val = if f3 == 2 {
            pre.float_regs@[((inst >> 20) & 0x1f) as int] & 0xffff_ffff
        } else {
            pre.float_regs@[((inst >> 20) & 0x1f) as int]
        };
        if f3 != 2 && f3 != 3 {
            r == Err::<(), Trap>(Trap { cause: Exception::IllegalInst, tval: inst as u64 })
                && post.bus@ == pre.bus@
        } else if !fs_on {
            r is Ok && post.bus@ == pre.bus@
        } else {
            match crate::mmu::translate_spec(pre, addr, crate::mmu::PERM_W) {
                Err(_) => r == Err::<(), Trap>(
                    Trap { cause: Exception::StorePageFault, tval: addr },
                ) && post.bus@ == pre.bus@,
                Ok((pa, upd)) => ({
                    let mid = match upd {
                        None => pre.bus@,
                        Some(u) => crate::bus::bus_store_u64_post_spec(pre.bus@, u.0, u.1),
                    };
                    if store_ok_spec(f3, mid, pa) {
                        r is Ok && post.bus@ == store_post_spec(f3, mid, pa, val)
                    } else {
                        r == Err::<(), Trap>(
                            Trap { cause: Exception::StoreAccessFault, tval: 0 },
                        ) && post.bus@ == mid
                    }
                }),
            }
        }
    })
}

/// The register and CSR effect of a finished single-precision result:
/// flags accumulated into `fcsr`, the canonicalized value NaN-boxed
/// into f[rd], and `mstatus.FS` dirty.
pub open spec fn fp32_result_post(pre: Cpu, post: Cpu, rd: int, bits: u32, flags: u64) -> bool {
    post == (Cpu { csrs: post.csrs, float_regs: post.float_regs, ..pre }) && post.float_regs@
        == pre.float_regs@.update(
        rd,
        crate::float::nanbox32_spec(crate::float::canon32_spec(bits)),
    ) && post.csrs@ == crate::csr::fs_dirty_post(
        crate::csr::csr_write_post_spec(
            pre,
            crate::csr::CSR_FCSR,
            pre.csrs@[crate::csr::CSR_FCSR as int] | flags,
        ),
    )
}

pub open spec fn fp64_result_post(pre: Cpu, post: Cpu, rd: int, bits: u64, flags: u64) -> bool {
    post == (Cpu { csrs: post.csrs, float_regs: post.float_regs, ..pre }) && post.float_regs@
        == pre.float_regs@.update(rd, crate::float::canon64_spec(bits)) && post.csrs@
        == crate::csr::fs_dirty_post(
        crate::csr::csr_write_post_spec(
            pre,
            crate::csr::CSR_FCSR,
            pre.csrs@[crate::csr::CSR_FCSR as int] | flags,
        ),
    )
}

/// Effect of the multiply-add family: the product and the sum are
/// rounded separately through the named soft-float results, with both
/// status words accumulated; the negating forms flip the rounded
/// product's sign.
pub open spec fn fp_madd_post(pre: Cpu, post: Cpu, inst: u32, opc: u32, r: Result<(), Trap>) -> bool {
    let fmt = (inst >> 25) & 3;
    let rd = ((inst >> 7) & 0x1f) as int;
    match crate::float::rm_resolve_spec(pre.csrs@, (((inst >> 12) & 7) as u64)) {
        Err(t) => r == Err::<(), Trap>(t) && post == pre,
        Ok(rm) => if fmt == 0 {
            let a = crate::float::nanbox_read32_spec(pre.float_regs@[((inst >> 15) & 0x1f) as int]);
            let b = crate::float::nanbox_read32_spec(pre.float_regs@[((inst >> 20) & 0x1f) as int]);
            let c = crate::float::nanbox_read32_spec(pre.float_regs@[((inst >> 27) & 0x1f) as int]);
            let m = crate::float::f32_mul_of(a, b, rm);
            let prod = if opc == 0x4b || opc == 0x4f {
                m.0 ^ 0x8000_0000
            } else {
                m.0
            };
            let sum = if opc == 0x43 || opc == 0x4b {
                crate::float::f32_add_of(prod, c, rm)
            } else {
                crate::float::f32_sub_of(prod, c, rm)
            };
            r is Ok && fp32_result_post(
                pre,
                post,
                rd,
                sum.0,
                map_status_spec(m.1) | map_status_spec(sum.1),
            )
        } else if fmt == 1 {
            let a = pre.float_regs@[((inst >> 15) & 0x1f) as int];
            let b = pre.float_regs@[((inst >> 20) & 0x1f) as int];
            let c = pre.float_regs@[((inst >> 27) & 0x1f) as int];
            let m = crate::float::f64_mul_of(a, b, rm);
            let prod = if opc == 0x4b || opc == 0x4f {
                m.0 ^ 0x8000_0000_0000_0000
            } else {
                m.0
            };
            let sum = if opc == 0x43 || opc == 0x4b {
                crate::float::f64_add_of(prod, c, rm)
            } else {
                crate::float::f64_sub_of(prod, c, rm)
            };
            r is Ok && fp64_result_post(
                pre,
                post,
                rd,
                sum.0,
                map_status_spec(m.1) | map_status_spec(sum.1),
            )
        } else {
            r == Err::<(), Trap>(Trap { cause: Exception::IllegalInst, tval: inst as u64 }) && post
                == pre
        },
    }
}

impl Cpu {
    /// A load from memory into an integer register.
    pub fn exec_load(&mut self, inst: u32) -> (r: Result<(), Trap>)
        requires
            old(self).wf(),
        ensures
            final(self).wf(),
            load_post(*old(self), *final(self), inst, r),
    {
        let a = self.read_reg(rs1_of(inst)).wrapping_add(imm_i_of(inst));
        let f3 = (inst >> 12) & 7;
        let v: u64 = if f3 == 0 {
            (self.mmu_load_u8(a)? as i8) as u64
        } else if f3 == 1 {
            (self.mmu_load_u16(a)? as i16) as u64
        } else if f3 == 2 {
            (self.mmu_load_u32(a)? as i32) as u64
        } else if f3 == 3 {
            self.mmu_load_u64(a)?
        } else if f3 == 4 {
            self.mmu_load_u8(a)? as u64
        } else if f3 == 5 {
            self.mmu_load_u16(a)? as u64
        } else if f3 == 6 {
            self.mmu_load_u32(a)? as u64
        } else {
            return Err(Trap { cause: Exception::IllegalInst, tval: inst as u64 });
        };
        self.write_reg(rd_of(inst), v);
        Ok(())
    }

    /// A store from an integer register to memory; any store clears
    /// the LR/SC reservation set. Under the test harness protocol, a
    /// 32-bit store of zero to one of the two result addresses ends
    /// the run: the returned code is the word just below the address,
    /// minus one, clamped at zero.
    pub fn exec_store(&mut self, inst: u32, testing: bool) -> (r: Result<Option<u32>, Trap>)
        requires
            old(self).wf(),
        ensures
            final(self).wf(),
            store_post(*old(self), *final(self), inst, testing, r),
    {
        let a = self.read_reg(rs1_of(inst));
        let b = self.read_reg(rs2_of(inst));
        let addr = a.wrapping_add(imm_s_of(inst));
        self.amo_rs.clear();
        let f3 = (inst >> 12) & 7;
        if f3 == 0 {
            self.mmu_store_u8(addr, b as u8)?;
        } else if f3 == 1 {
            self.mmu_store_u16(addr, b as u16)?;
        } else if f3 == 2 {
            if testing && (addr == 0x8000_1004 || addr == 0x8000_2004) && b as u32 == 0 {
                let w = match self.bus.load_u32(addr.wrapping_sub(4)) {
                    Ok(w) => w,
                    Err(_) => 0,
                };
                let code = if w == 0 {
                    0
                } else {
                    w - 1
                };
                return Ok(Some(code));
            }
            self.mmu_store_u32(addr, b as u32)?;
        } else if f3 == 3 {
            self.mmu_store_u64(addr, b)?;
        } else {
            return Err(Trap { cause: Exception::IllegalInst, tval: inst as u64 });
        }
        Ok(None)
    }

    /// An atomic-extension operation: LR, SC, or a read-modify-write.
    pub fn exec_amo(&mut self, inst: u32) -> (r: Result<(), Trap>)
        requires
            old(self).wf(),
        ensures
            final(self).wf(),
            amo_post(*old(self), *final(self), inst, r),
    {
        let a = self.read_reg(rs1_of(inst));
        let b = self.read_reg(rs2_of(inst));
        let rd = rd_of(inst);
        let f3 = (inst >> 12) & 7;
        let f5 = inst >> 27;
        let aqrl = AqRlMode::from_bits((inst >> 25) & 3);
        if f3 == 2 {
            if f5 == 0x02 {
                let v = self.atomic_load_u32(a, aqrl)?;
                self.write_reg(rd, (v as i32) as u64);
            } else if f5 == 0x03 {
                let sc = self.atomic_store_u32(a, b as u32, aqrl);
                let scv: u64 = match sc {
                    Ok(_) => 0,
                    Err(_) => 1,
                };
                self.write_reg(rd, scv);
            } else {
                let b32 = b as u32;
                let valid = f5 == 0x01 || f5 == 0x00 || f5 == 0x04 || f5 == 0x0c || f5 == 0x08 || f5
                    == 0x10 || f5 == 0x14 || f5 == 0x18 || f5 == 0x1c;
                if !valid {
                    return Err(Trap { cause: Exception::IllegalInst, tval: inst as u64 });
                }
                let old_v = self.mmu_load_u32(a)?;
                proof {
                    assert((((old_v as i32) as u64) as u32) == old_v) by (bit_vector);
                }
                let n = if f5 == 0x01 {
                    b32
                } else if f5 == 0x00 {
                    old_v.wrapping_add(b32)
                } else if f5 == 0x04 {
                    old_v ^ b32
                } else if f5 == 0x0c {
                    old_v & b32
                } else if f5 == 0x08 {
                    old_v | b32
                } else if f5 == 0x10 {
                    if (old_v as i32) <= (b32 as i32) {
                        old_v
                    } else {
                        b32
                    }
                } else if f5 == 0x14 {
                    if (old_v as i32) >= (b32 as i32) {
                        old_v
                    } else {
                        b32
                    }
                } else if f5 == 0x18 {
                    if old_v <= b32 {
                        old_v
                    } else {
                        b32
                    }
                } else {
                    if old_v >= b32 {
                        old_v
                    } else {
                        b32
                    }
                };
                self.amo_rs.clear();
                self.mmu_store_u32(a, n)?;
                self.write_reg(rd, (old_v as i32) as u64);
            }
        } else if f3 == 3 {
            if f5 == 0x02 {
                let v = self.atomic_load_u64(a, aqrl)?;
                self.write_reg(rd, v);
            } else if f5 == 0x03 {
                let sc = self.atomic_store_u64(a, b, aqrl);
                let scv: u64 = match sc {
                    Ok(_) => 0,
                    Err(_) => 1,
                };
                self.write_reg(rd, scv);
            } else {
                let valid = f5 == 0x01 || f5 == 0x00 || f5 == 0x04 || f5 == 0x0c || f5 == 0x08 || f5
                    == 0x10 || f5 == 0x14 || f5 == 0x18 || f5 == 0x1c;
                if !valid {
                    return Err(Trap { cause: Exception::IllegalInst, tval: inst as u64 });
                }
                let old_v = self.mmu_load_u64(a)?;
                let n = if f5 == 0x01 {
                    b
                } else if f5 == 0x00 {
                    old_v.wrapping_add(b)
                } else if f5 == 0x04 {
                    old_v ^ b
                } else if f5 == 0x0c {
                    old_v & b
                } else if f5 == 0x08 {
                    old_v | b
                } else if f5 == 0x10 {
                    if (old_v as i64) <= (b as i64) {
                        old_v
                    } else {
                        b
                    }
                } else if f5 == 0x14 {
                    if (old_v as i64) >= (b as i64) {
                        old_v
                    } else {
                        b
                    }
                } else if f5 == 0x18 {
                    if old_v <= b {
                        old_v
                    } else {
                        b
                    }
                } else {
                    if old_v >= b {
                        old_v
                    } else {
                        b
                    }
                };
                self.amo_rs.clear();
                self.mmu_store_u64(a, n)?;
                self.write_reg(rd, old_v);
            }
        } else {
            return Err(Trap { cause: Exception::IllegalInst, tval: inst as u64 });
        }
        Ok(())
    }

    /// Set the accumulated flags, canonicalize a NaN result, and write
    /// the NaN-boxed 32-bit value. Setting flags marks the FP state
    /// dirty, so the register write always succeeds.
    fn fp_finish32(&mut self, rd: usize, bits: u32, flags: u64) -> (r: Result<(), Trap>)
        requires
            old(self).wf(),
            rd < 32,
        ensures
            final(self).wf(),
            r is Ok,
            *final(self) == (Cpu {
                csrs: final(self).csrs,
                float_regs: final(self).float_regs,
                ..*old(self)
            }),
            final(self).float_regs@ == old(self).float_regs@.update(
                rd as int,
                crate::float::nanbox32_spec(
                    if crate::float::is_nan32_spec(bits) {
                        F32_CNAN
                    } else {
                        bits
                    },
                ),
            ),
            final(self).csrs@ == crate::csr::fs_dirty_post(
                crate::csr::csr_write_post_spec(
                    *old(self),
                    crate::csr::CSR_FCSR,
                    old(self).csrs@[crate::csr::CSR_FCSR as int] | flags,
                ),
            ),
    {
        self.float_set_flags(flags);
        proof {
            crate::csr::lemma_fs_dirty_enables_fp(old(self).csrs@);
        }
        let out = if self.is_nan32(bits) {
            F32_CNAN
        } else {
            bits
        };
        self.write_float_reg_r32(rd, out)
    }

    /// Set the accumulated flags, canonicalize a NaN result, and write
    /// the 64-bit value. Setting flags marks the FP state dirty, so
    /// the register write always succeeds.
    fn fp_finish64(&mut self, rd: usize, bits: u64, flags: u64) -> (r: Result<(), Trap>)
        requires
            old(self).wf(),
            rd < 32,
        ensures
            final(self).wf(),
            r is Ok,
            *final(self) == (Cpu {
                csrs: final(self).csrs,
                float_regs: final(self).float_regs,
                ..*old(self)
            }),
            final(self).float_regs@ == old(self).float_regs@.update(
                rd as int,
                if crate::float::is_nan64_spec(bits) {
                    F64_CNAN
                } else {
                    bits
                },
            ),
            final(self).csrs@ == crate::csr::fs_dirty_post(
                crate::csr::csr_write_post_spec(
                    *old(self),
                    crate::csr::CSR_FCSR,
                    old(self).csrs@[crate::csr::CSR_FCSR as int] | flags,
                ),
            ),
    {
        self.float_set_flags(flags);
        proof {
            crate::csr::lemma_fs_dirty_enables_fp(old(self).csrs@);
        }
        let out = if self.is_nan64(bits) {
            F64_CNAN
        } else {
            bits
        };
        self.write_float_reg(rd, out)
    }

    fn fmin32x(&self, a: u32, b: u32) -> (r: u32)
        ensures
            r == crate::float::fmin32_bits_spec(a, b),
    {
        if self.is_nan32(a) && self.is_nan32(b) {
            F32_CNAN
        } else if self.is_nan32(a) {
            b
        } else if self.is_nan32(b) {
            a
        } else if a & 0x7fffffff == 0 && b & 0x7fffffff == 0 {
            if a >> 31 != 0 || b >> 31 != 0 {
                0x8000_0000
            } else {
                0
            }
        } else if self.f32_key(a) <= self.f32_key(b) {
            a
        } else {
            b
        }
    }

    fn fmax32x(&self, a: u32, b: u32) -> (r: u32)
        ensures
            r == crate::float::fmax32_bits_spec(a, b),
    {
        if self.is_nan32(a) && self.is_nan32(b) {
            F32_CNAN
        } else if self.is_nan32(a) {
            b
        } else if self.is_nan32(b) {
            a
        } else if a & 0x7fffffff == 0 && b & 0x7fffffff == 0 {
            if a >> 31 == 0 || b >> 31 == 0 {
                0
            } else {
                0x8000_0000
            }
        } else if self.f32_key(a) >= self.f32_key(b) {
            a
        } else {
            b
        }
    }

    fn fmin64x(&self, a: u64, b: u64) -> (r: u64)
        ensures
            r == crate::float::fmin64_bits_spec(a, b),
    {
        if self.is_nan64(a) && self.is_nan64(b) {
            F64_CNAN
        } else if self.is_nan64(a) {
            b
        } else if self.is_nan64(b) {
            a
        } else if a & 0x7fff_ffff_ffff_ffff == 0 && b & 0x7fff_ffff_ffff_ffff == 0 {
            if a >> 63 != 0 || b >> 63 != 0 {
                0x8000_0000_0000_0000
            } else {
                0
            }
        } else if self.f64_key(a) <= self.f64_key(b) {
            a
        } else {
            b
        }
    }

    fn fmax64x(&self, a: u64, b: u64) -> (r: u64)
        ensures
            r == crate::float::fmax64_bits_spec(a, b),
    {
        if self.is_nan64(a) && self.is_nan64(b) {
            F64_CNAN
        } else if self.is_nan64(a) {
            b
        } else if self.is_nan64(b) {
            a
        } else if a & 0x7fff_ffff_ffff_ffff == 0 && b & 0x7fff_ffff_ffff_ffff == 0 {
            if a >> 63 == 0 || b >> 63 == 0 {
                0
            } else {
                0x8000_0000_0000_0000
            }
        } else if self.f64_key(a) >= self.f64_key(b) {
            a
        } else {
            b
        }
    }

    fn f32_key(&self, x: u32) -> (r: i64)
        ensures
            r as int == crate::float::f32_key_spec(x),
    {
        if x >> 31 == 0 {
            (x & 0x7fffffff) as i64
        } else {
            0i64 - ((x & 0x7fffffff) as i64)
        }
    }

    fn f64_key(&self, x: u64) -> (r: i128)
        ensures
            r as int == crate::float::f64_key_spec(x),
    {
        if x >> 63 == 0 {
            (x & 0x7fff_ffff_ffff_ffff) as i128
        } else {
            0i128 - ((x & 0x7fff_ffff_ffff_ffff) as i128)
        }
    }

    fn is_snan32(&self, x: u32) -> (r: bool)
        ensures
            r == crate::float::is_snan32_spec(x),
    {
        self.is_nan32(x) && x & 0x400000 == 0
    }

    fn is_snan64(&self, x: u64) -> (r: bool)
        ensures
            r == crate::float::is_snan64_spec(x),
    {
        self.is_nan64(x) && x & 0x8_0000_0000_0000 == 0
    }

    fn fclass32x(&self, x: u32) -> (r: u64)
        ensures
            r == crate::float::fclass32_spec(x),
    {
        let neg = x >> 31 != 0;
        let exp = (x >> 23) & 0xff;
        let man = x & 0x7fffff;
        if exp == 0xff && man != 0 {
            if man & 0x400000 == 0 {
                0x100
            } else {
                0x200
            }
        } else if exp == 0xff {
            if neg {
                0x1
            } else {
                0x80
            }
        } else if exp == 0 && man == 0 {
            if neg {
                0x8
            } else {
                0x10
            }
        } else if exp == 0 {
            if neg {
                0x4
            } else {
                0x20
            }
        } else {
            if neg {
                0x2
            } else {
                0x40
            }
        }
    }

    fn fclass64x(&self, x: u64) -> (r: u64)
        ensures
            r == crate::float::fclass64_spec(x),
    {
        let neg = x >> 63 != 0;
        let exp = (x >> 52) & 0x7ff;
        let man = x & 0xf_ffff_ffff_ffff;
        if exp == 0x7ff && man != 0 {
            if man & 0x8_0000_0000_0000 == 0 {
                0x100
            } else {
                0x200
            }
        } else if exp == 0x7ff {
            if neg {
                0x1
            } else {
                0x80
            }
        } else if exp == 0 && man == 0 {
            if neg {
                0x8
            } else {
                0x10
            }
        } else if exp == 0 {
            if neg {
                0x4
            } else {
                0x20
            }
        } else {
            if neg {
                0x2
            } else {
                0x40
            }
        }
    }

    /// A floating-point load (`FLW`/`FLD`).
    pub fn exec_fp_load(&mut self, inst: u32) -> (r: Result<(), Trap>)
        requires
            old(self).wf(),
        ensures
            final(self).wf(),
            fp_load_post(*old(self), *final(self), inst, r),
    {
        let a = self.read_reg(rs1_of(inst)).wrapping_add(imm_i_of(inst));
        let f3 = (inst >> 12) & 7;
        if f3 == 2 {
            let v = self.mmu_load_u32(a)?;
            self.write_float_reg_r32(rd_of(inst), v)?;
        } else if f3 == 3 {
            let v = self.mmu_load_u64(a)?;
            self.write_float_reg(rd_of(inst), v)?;
        } else {
            return Err(Trap { cause: Exception::IllegalInst, tval: inst as u64 });
        }
        Ok(())
    }

    /// A floating-point store (`FSW`/`FSD`); with the FPU disabled the
    /// store is silently skipped. Any store clears the reservation set.
    pub fn exec_fp_store(&mut self, inst: u32) -> (r: Result<(), Trap>)
        requires
            old(self).wf(),
        ensures
            final(self).wf(),
            fp_store_post(*old(self), *final(self), inst, r),
    {
        let a = self.read_reg(rs1_of(inst)).wrapping_add(imm_s_of(inst));
        self.amo_rs.clear();
        let f3 = (inst >> 12) & 7;
        if f3 == 2 {
            let v = self.read_float_reg_r32_uc(rs2_of(inst));
            if self.can_use_fp() {
                self.mmu_store_u32(a, v)?;
            }
        } else if f3 == 3 {
            let v = self.read_float_reg(rs2_of(inst));
            if self.can_use_fp() {
                self.mmu_store_u64(a, v)?;
            }
        } else {
            return Err(Trap { cause: Exception::IllegalInst, tval: inst as u64 });
        }
        Ok(())
    }

    /// The multiply-add family; as in the rest of this engine the
    /// product and the sum are rounded separately.
    pub fn exec_fp_madd(&mut self, inst: u32, opc: u32) -> (r: Result<(), Trap>)
        requires
            old(self).wf(),
        ensures
            final(self).wf(),
            fp_madd_post(*old(self), *final(self), inst, opc, r),
    {
        let fmt = (inst >> 25) & 3;
        let rs3 = ((inst >> 27) & 0x1f) as usize;
        let rd = rd_of(inst);
        let rm = self.get_rm((inst >> 12) & 7)?;
        if fmt == 0 {
            let a = self.read_float_reg_r32(rs1_of(inst));
            let b = self.read_float_reg_r32(rs2_of(inst));
            let c = self.read_float_reg_r32(rs3);
            let m = crate::float::sf32_mul(a, b, rm);
            let prod = if opc == 0x4b || opc == 0x4f {
                m.0 ^ 0x8000_0000
            } else {
                m.0
            };
            let s = if opc == 0x43 || opc == 0x4b {
                crate::float::sf32_add(prod, c, rm)
            } else {
                crate::float::sf32_sub(prod, c, rm)
            };
            self.fp_finish32(rd, s.0, map_status(m.1) | map_status(s.1))
        } else if fmt == 1 {
            let a = self.read_float_reg(rs1_of(inst));
            let b = self.read_float_reg(rs2_of(inst));
            let c = self.read_float_reg(rs3);
            let m = crate::float::sf64_mul(a, b, rm);
            let prod = if opc == 0x4b || opc == 0x4f {
                m.0 ^ 0x8000_0000_0000_0000
            } else {
                m.0
            };
            let s = if opc == 0x43 || opc == 0x4b {
                crate::float::sf64_add(prod, c, rm)
            } else {
                crate::float::sf64_sub(prod, c, rm)
            };
            self.fp_finish64(rd, s.0, map_status(m.1) | map_status(s.1))
        } else {
            Err(Trap { cause: Exception::IllegalInst, tval: inst as u64 })
        }
    }
}



/// The `mstatus` transition of `SRET`: `SIE` takes `SPIE`, `SPIE`
/// sets, `SPP` clears to user; paired with the restored privilege
/// level read from `SPP`.
pub open spec fn sret_post_spec(m: u64) -> (u64, Mode) {
    let m1 = m & !2;
    let m2 = m1 | ((m1 >> 4) & 2);
    let newmode = Mode::from_code_spec((m2 >> 8) & 1);
    let m3 = m2 & !0x20;
    let m4 = m3 | 0x20;
    let m5 = m4 & !0x100;
    (m5, newmode)
}

/// The `mstatus` transition of `MRET`: `MIE` takes `MPIE`, `MPIE`
/// sets, `MPP` clears to user, and `MPRV` clears when leaving machine
/// mode; paired with the restored privilege level read from `MPP`.
pub open spec fn mret_post_spec(m: u64) -> (u64, Mode) {
    let m1 = m & !8;
    let m2 = m1 | ((m1 >> 4) & 8);
    let newmode = Mode::from_code_spec((m2 >> 11) & 3);
    let m3 = m2 & !0x80;
    let m4 = m3 | 0x80;
    let m5 = m4 & !0x1800;
    let m6 = if newmode != Mode::Machine {
        m5 & !0x20000
    } else {
        m5
    };
    (m6, newmode)
}


/// `fcsr` after OR-ing a set of flags in (the write marks FS dirty).
pub open spec fn flagged_csrs_spec(pre: Cpu, fl: u64) -> Seq<u64> {
    crate::csr::csr_write_post_spec(
        pre,
        crate::csr::CSR_FCSR,
        pre.csrs@[crate::csr::CSR_FCSR as int] | fl,
    )
}

/// The effect of writing a NaN-boxed 32-bit value to f[rd]: illegal
/// with the FPU off, otherwise the update with `mstatus.FS` dirtied.
pub open spec fn fpreg32_write_post(pre: Cpu, post: Cpu, rd: int, v: u32, r: Result<
    (),
    Trap,
>) -> bool {
    if (crate::csr::mstatus_read_spec(pre.csrs@) >> 13) & 3 == 0 {
        r == Err::<(), Trap>(Trap { cause: Exception::IllegalInst, tval: 0 }) && post == pre
    } else {
        r is Ok && post == (Cpu { csrs: post.csrs, float_regs: post.float_regs, ..pre })
            && post.csrs@ == crate::csr::fs_dirty_post(pre.csrs@) && post.float_regs@
            == pre.float_regs@.update(rd, crate::float::nanbox32_spec(v))
    }
}

pub open spec fn fpreg64_write_post(pre: Cpu, post: Cpu, rd: int, v: u64, r: Result<
    (),
    Trap,
>) -> bool {
    if (crate::csr::mstatus_read_spec(pre.csrs@) >> 13) & 3 == 0 {
        r == Err::<(), Trap>(Trap { cause: Exception::IllegalInst, tval: 0 }) && post == pre
    } else {
        r is Ok && post == (Cpu { csrs: post.csrs, float_regs: post.float_regs, ..pre })
            && post.csrs@ == crate::csr::fs_dirty_post(pre.csrs@) && post.float_regs@
            == pre.float_regs@.update(rd, v)
    }
}

/// Effect of the single- and double-precision computational
/// instructions, `funct7` group by group, over the named soft-float
/// results and the verified bit-level specifications.
pub open spec fn fp_op_post(pre: Cpu, post: Cpu, inst: u32, r: Result<(), Trap>) -> bool {
    let f7 = inst >> 25;
    let r2f = (inst >> 20) & 0x1f;
    let rmf = (inst >> 12) & 7;
    let rd = ((inst >> 7) & 0x1f) as int;
    let a32 = crate::float::nanbox_read32_spec(pre.float_regs@[((inst >> 15) & 0x1f) as int]);
    let b32 = crate::float::nanbox_read32_spec(pre.float_regs@[((inst >> 20) & 0x1f) as int]);
    let a64 = pre.float_regs@[((inst >> 15) & 0x1f) as int];
    let b64 = pre.float_regs@[((inst >> 20) & 0x1f) as int];
    let x1 = pre.read_reg_spec(((inst >> 15) & 0x1f) as int);
    let ill = r == Err::<(), Trap>(Trap { cause: Exception::IllegalInst, tval: inst as u64 })
        && post == pre;
    if f7 == 0x00 || f7 == 0x04 || f7 == 0x08 || f7 == 0x0c {
        match crate::float::rm_resolve_spec(pre.csrs@, rmf as u64) {
            Err(t) => r == Err::<(), Trap>(t) && post == pre,
            Ok(rm) => ({
                let s = if f7 == 0x00 {
                    crate::float::f32_add_of(a32, b32, rm)
                } else if f7 == 0x04 {
                    crate::float::f32_sub_of(a32, b32, rm)
                } else if f7 == 0x08 {
                    crate::float::f32_mul_of(a32, b32, rm)
                } else {
                    crate::float::f32_div_of(a32, b32, rm)
                };
                r is Ok && fp32_result_post(pre, post, rd, s.0, map_status_spec(s.1))
            }),
        }
    } else if f7 == 0x01 || f7 == 0x05 || f7 == 0x09 || f7 == 0x0d {
        match crate::float::rm_resolve_spec(pre.csrs@, rmf as u64) {
            Err(t) => r == Err::<(), Trap>(t) && post == pre,
            Ok(rm) => ({
                let s = if f7 == 0x01 {
                    crate::float::f64_add_of(a64, b64, rm)
                } else if f7 == 0x05 {
                    crate::float::f64_sub_of(a64, b64, rm)
                } else if f7 == 0x09 {
                    crate::float::f64_mul_of(a64, b64, rm)
                } else {
                    crate::float::f64_div_of(a64, b64, rm)
                };
                r is Ok && fp64_result_post(pre, post, rd, s.0, map_status_spec(s.1))
            }),
        }
    } else if f7 == 0x2c {
        if r2f != 0 {
            ill
        } else {
            match crate::float::rm_resolve_spec(pre.csrs@, rmf as u64) {
                Err(t) => r == Err::<(), Trap>(t) && post == pre,
                Ok(rm) => ({
                    let s = crate::sqrt::fsqrt32_spec(a32, rm);
                    r is Ok && fp32_result_post(pre, post, rd, s.0, s.1)
                }),
            }
        }
    } else if f7 == 0x2d {
        if r2f != 0 {
            ill
        } else {
            match crate::float::rm_resolve_spec(pre.csrs@, rmf as u64) {
                Err(t) => r == Err::<(), Trap>(t) && post == pre,
                Ok(rm) => ({
                    let s = crate::sqrt::fsqrt64_spec(a64, rm);
                    r is Ok && fp64_result_post(pre, post, rd, s.0, s.1)
                }),
            }
        }
    } else if f7 == 0x10 {
        if rmf > 2 {
            ill
        } else {
            let v = if rmf == 0 {
                (a32 & 0x7fff_ffff) | (b32 & 0x8000_0000)
            } else if rmf == 1 {
                (a32 & 0x7fff_ffff) | (!b32 & 0x8000_0000)
            } else {
                (a32 & 0x7fff_ffff) | ((a32 ^ b32) & 0x8000_0000)
            };
            fpreg32_write_post(pre, post, rd, v, r)
        }
    } else if f7 == 0x11 {
        if rmf > 2 {
            ill
        } else {
            let v = if rmf == 0 {
                (a64 & 0x7fff_ffff_ffff_ffff) | (b64 & 0x8000_0000_0000_0000)
            } else if rmf == 1 {
                (a64 & 0x7fff_ffff_ffff_ffff) | (!b64 & 0x8000_0000_0000_0000)
            } else {
                (a64 & 0x7fff_ffff_ffff_ffff) | ((a64 ^ b64) & 0x8000_0000_0000_0000)
            };
            fpreg64_write_post(pre, post, rd, v, r)
        }
    } else if f7 == 0x14 {
        if rmf > 1 {
            ill
        } else {
            let v = if rmf == 0 {
                crate::float::fmin32_bits_spec(a32, b32)
            } else {
                crate::float::fmax32_bits_spec(a32, b32)
            };
            if crate::float::is_snan32_spec(a32) || crate::float::is_snan32_spec(b32) {
                r is Ok && post == (Cpu { csrs: post.csrs, float_regs: post.float_regs, ..pre })
                    && post.csrs@ == crate::csr::fs_dirty_post(flagged_csrs_spec(pre, 0x10))
                    && post.float_regs@ == pre.float_regs@.update(
                    rd,
                    crate::float::nanbox32_spec(v),
                )
            } else {
                fpreg32_write_post(pre, post, rd, v, r)
            }
        }
    } else if f7 == 0x15 {
        if rmf > 1 {
            ill
        } else {
            let v = if rmf == 0 {
                crate::float::fmin64_bits_spec(a64, b64)
            } else {
                crate::float::fmax64_bits_spec(a64, b64)
            };
            if crate::float::is_snan64_spec(a64) || crate::float::is_snan64_spec(b64) {
                r is Ok && post == (Cpu { csrs: post.csrs, float_regs: post.float_regs, ..pre })
                    && post.csrs@ == crate::csr::fs_dirty_post(flagged_csrs_spec(pre, 0x10))
                    && post.float_regs@ == pre.float_regs@.update(rd, v)
            } else {
                fpreg64_write_post(pre, post, rd, v, r)
            }
        }
    } else if f7 == 0x50 {
        post == (Cpu { csrs: post.csrs, regs: post.regs, ..pre }) && (if rmf == 2 {
            if crate::float::is_snan32_spec(a32) || crate::float::is_snan32_spec(b32) {
                r is Ok && post.csrs@ == flagged_csrs_spec(pre, 0x10) && post.regs@
                    == pre.write_reg_spec(rd, 0)
            } else if crate::float::is_nan32_spec(a32) || crate::float::is_nan32_spec(b32) {
                r is Ok && post.csrs == pre.csrs && post.regs@ == pre.write_reg_spec(rd, 0)
            } else {
                r is Ok && post.csrs == pre.csrs && post.regs@ == pre.write_reg_spec(
                    rd,
                    if crate::float::f32_key_spec(a32) == crate::float::f32_key_spec(b32) {
                        1u64
                    } else {
                        0u64
                    },
                )
            }
        } else if rmf == 1 || rmf == 0 {
            if crate::float::is_nan32_spec(a32) || crate::float::is_nan32_spec(b32) {
                r is Ok && post.csrs@ == flagged_csrs_spec(pre, 0x10) && post.regs@
                    == pre.write_reg_spec(rd, 0)
            } else {
                let c = if rmf == 1 {
                    crate::float::f32_key_spec(a32) < crate::float::f32_key_spec(b32)
                } else {
                    crate::float::f32_key_spec(a32) <= crate::float::f32_key_spec(b32)
                };
                r is Ok && post.csrs == pre.csrs && post.regs@ == pre.write_reg_spec(
                    rd,
                    if c {
                        1u64
                    } else {
                        0u64
                    },
                )
            }
        } else {
            ill
        })
    } else if f7 == 0x51 {
        post == (Cpu { csrs: post.csrs, regs: post.regs, ..pre }) && (if rmf == 2 {
            if crate::float::is_snan64_spec(a64) || crate::float::is_snan64_spec(b64) {
                r is Ok && post.csrs@ == flagged_csrs_spec(pre, 0x10) && post.regs@
                    == pre.write_reg_spec(rd, 0)
            } else if crate::float::is_nan64_spec(a64) || crate::float::is_nan64_spec(b64) {
                r is Ok && post.csrs == pre.csrs && post.regs@ == pre.write_reg_spec(rd, 0)
            } else {
                r is Ok && post.csrs == pre.csrs && post.regs@ == pre.write_reg_spec(
                    rd,
                    if crate::float::f64_key_spec(a64) == crate::float::f64_key_spec(b64) {
                        1u64
                    } else {
                        0u64
                    },
                )
            }
        } else if rmf == 1 || rmf == 0 {
            if crate::float::is_nan64_spec(a64) || crate::float::is_nan64_spec(b64) {
                r is Ok && post.csrs@ == flagged_csrs_spec(pre, 0x10) && post.regs@
                    == pre.write_reg_spec(rd, 0)
            } else {
                let c = if rmf == 1 {
                    crate::float::f64_key_spec(a64) < crate::float::f64_key_spec(b64)
                } else {
                    crate::float::f64_key_spec(a64) <= crate::float::f64_key_spec(b64)
                };
                r is Ok && post.csrs == pre.csrs && post.regs@ == pre.write_reg_spec(
                    rd,
                    if c {
                        1u64
                    } else {
                        0u64
                    },
                )
            }
        } else {
            ill
        })
    } else if f7 == 0x60 {
        match crate::float::rm_resolve_spec(pre.csrs@, rmf as u64) {
            Err(t) => r == Err::<(), Trap>(t) && post == pre,
            Ok(rm) => if r2f > 3 {
                ill
            } else {
                post == (Cpu { csrs: post.csrs, regs: post.regs, ..pre }) && (
                if crate::float::is_nan32_spec(a32) {
                    let nanval = if r2f == 0 {
                        ((i32::MAX as i64) as u64)
                    } else if r2f == 1 {
                        (((u32::MAX as i32) as i64) as u64)
                    } else if r2f == 2 {
                        (i64::MAX as u64)
                    } else {
                        u64::MAX
                    };
                    r is Ok && post.csrs@ == flagged_csrs_spec(pre, 0x10) && post.regs@
                        == pre.write_reg_spec(rd, nanval)
                } else {
                    let v = if r2f == 0 {
                        (((crate::float::f32_to_signed_of(a32, 32, rm).0 as i32) as i64) as u64)
                    } else if r2f == 1 {
                        ((((crate::float::f32_to_unsigned_of(a32, 32, rm).0 as u32) as i32)
                            as i64) as u64)
                    } else if r2f == 2 {
                        (crate::float::f32_to_signed_of(a32, 64, rm).0 as u64)
                    } else {
                        crate::float::f32_to_unsigned_of(a32, 64, rm).0
                    };
                    let st = if r2f == 0 {
                        crate::float::f32_to_signed_of(a32, 32, rm).1
                    } else if r2f == 1 {
                        crate::float::f32_to_unsigned_of(a32, 32, rm).1
                    } else if r2f == 2 {
                        crate::float::f32_to_signed_of(a32, 64, rm).1
                    } else {
                        crate::float::f32_to_unsigned_of(a32, 64, rm).1
                    };
                    r is Ok && post.csrs@ == flagged_csrs_spec(pre, map_status_spec(st))
                        && post.regs@ == pre.write_reg_spec(rd, v)
                })
            },
        }
    } else if f7 == 0x61 {
        match crate::float::rm_resolve_spec(pre.csrs@, rmf as u64) {
            Err(t) => r == Err::<(), Trap>(t) && post == pre,
            Ok(rm) => if r2f > 3 {
                ill
            } else {
                post == (Cpu { csrs: post.csrs, regs: post.regs, ..pre }) && (
                if crate::float::is_nan64_spec(a64) {
                    let nanval = if r2f == 0 {
                        ((i32::MAX as i64) as u64)
                    } else if r2f == 1 {
                        (((u32::MAX as i32) as i64) as u64)
                    } else if r2f == 2 {
                        (i64::MAX as u64)
                    } else {
                        u64::MAX
                    };
                    r is Ok && post.csrs@ == flagged_csrs_spec(pre, 0x10) && post.regs@
                        == pre.write_reg_spec(rd, nanval)
                } else {
                    let v = if r2f == 0 {
                        (((crate::float::f64_to_signed_of(a64, 32, rm).0 as i32) as i64) as u64)
                    } else if r2f == 1 {
                        ((((crate::float::f64_to_unsigned_of(a64, 32, rm).0 as u32) as i32)
                            as i64) as u64)
                    } else if r2f == 2 {
                        (crate::float::f64_to_signed_of(a64, 64, rm).0 as u64)
                    } else {
                        crate::float::f64_to_unsigned_of(a64, 64, rm).0
                    };
                    let st = if r2f == 0 {
                        crate::float::f64_to_signed_of(a64, 32, rm).1
                    } else if r2f == 1 {
                        crate::float::f64_to_unsigned_of(a64, 32, rm).1
                    } else if r2f == 2 {
                        crate::float::f64_to_signed_of(a64, 64, rm).1
                    } else {
                        crate::float::f64_to_unsigned_of(a64, 64, rm).1
                    };
                    r is Ok && post.csrs@ == flagged_csrs_spec(pre, map_status_spec(st))
                        && post.regs@ == pre.write_reg_spec(rd, v)
                })
            },
        }
    } else if f7 == 0x68 {
        match crate::float::rm_resolve_spec(pre.csrs@, rmf as u64) {
            Err(t) => r == Err::<(), Trap>(t) && post == pre,
            Ok(rm) => if r2f > 3 {
                ill
            } else {
                let s = if r2f == 0 {
                    crate::float::f32_from_signed_of(((x1 as i32) as i64), rm)
                } else if r2f == 1 {
                    crate::float::f32_from_unsigned_of(((x1 as u32) as u64), rm)
                } else if r2f == 2 {
                    crate::float::f32_from_signed_of((x1 as i64), rm)
                } else {
                    crate::float::f32_from_unsigned_of(x1, rm)
                };
                r is Ok && fp32_result_post(pre, post, rd, s.0, map_status_spec(s.1))
            },
        }
    } else if f7 == 0x69 {
        match crate::float::rm_resolve_spec(pre.csrs@, rmf as u64) {
            Err(t) => r == Err::<(), Trap>(t) && post == pre,
            Ok(rm) => if r2f > 3 {
                ill
            } else {
                let s = if r2f == 0 {
                    crate::float::f64_from_signed_of(((x1 as i32) as i64), rm)
                } else if r2f == 1 {
                    crate::float::f64_from_unsigned_of(((x1 as u32) as u64), rm)
                } else if r2f == 2 {
                    crate::float::f64_from_signed_of((x1 as i64), rm)
                } else {
                    crate::float::f64_from_unsigned_of(x1, rm)
                };
                r is Ok && fp64_result_post(pre, post, rd, s.0, map_status_spec(s.1))
            },
        }
    } else if f7 == 0x20 {
        if r2f != 1 {
            ill
        } else {
            match crate::float::rm_resolve_spec(pre.csrs@, rmf as u64) {
                Err(t) => r == Err::<(), Trap>(t) && post == pre,
                Ok(rm) => ({
                    let s = crate::float::f64_to_f32_of(a64, rm);
                    r is Ok && fp32_result_post(pre, post, rd, s.0, map_status_spec(s.1))
                }),
            }
        }
    } else if f7 == 0x21 {
        if r2f != 0 {
            ill
        } else {
            match crate::float::rm_resolve_spec(pre.csrs@, rmf as u64) {
                Err(t) => r == Err::<(), Trap>(t) && post == pre,
                Ok(rm) => ({
                    let s = crate::float::f32_to_f64_of(a32, rm);
                    r is Ok && fp64_result_post(pre, post, rd, s.0, map_status_spec(s.1))
                }),
            }
        }
    } else if f7 == 0x70 {
        if r2f == 0 && rmf == 0 {
            r is Ok && post == (Cpu { regs: post.regs, ..pre }) && post.regs@
                == pre.write_reg_spec(
                rd,
                ((((pre.float_regs@[((inst >> 15) & 0x1f) as int] & 0xffff_ffff) as u32) as i32)
                    as i64) as u64,
            )
        } else if r2f == 0 && rmf == 1 {
            r is Ok && post == (Cpu { regs: post.regs, ..pre }) && post.regs@
                == pre.write_reg_spec(rd, crate::float::fclass32_spec(a32))
        } else {
            ill
        }
    } else if f7 == 0x71 {
        if r2f == 0 && rmf == 0 {
            r is Ok && post == (Cpu { regs: post.regs, ..pre }) && post.regs@
                == pre.write_reg_spec(rd, a64)
        } else if r2f == 0 && rmf == 1 {
            r is Ok && post == (Cpu { regs: post.regs, ..pre }) && post.regs@
                == pre.write_reg_spec(rd, crate::float::fclass64_spec(a64))
        } else {
            ill
        }
    } else if f7 == 0x78 {
        if r2f == 0 && rmf == 0 {
            fpreg32_write_post(pre, post, rd, (x1 as u32), r)
        } else {
            ill
        }
    } else if f7 == 0x79 {
        if r2f == 0 && rmf == 0 {
            fpreg64_write_post(pre, post, rd, x1, r)
        } else {
            ill
        }
    } else {
        ill
    }
}


/// Repackaged effect of trap delivery at `epc` with the given cause
/// and `tval`, exactly as `Cpu::exception` guarantees it.
pub open spec fn exception_rel(pre: Cpu, post: Cpu, cause: Exception, tval: u64, epc: u64) -> bool {
    post == (Cpu { csrs: post.csrs, pc: post.pc, mode: post.mode, ..pre })
        && (crate::cpu::trap_to_supervisor_spec(pre, cause.code_spec(), crate::csr::CSR_MEDELEG)
        ==> post.mode == Mode::Supervisor && post.csrs@ == crate::cpu::supervisor_trap_post(
        pre.csrs@,
        cause.code_spec(),
        epc,
        tval,
        pre.mode,
    ) && post.pc == crate::cpu::tvec_target_spec(
        pre.csrs@[crate::csr::CSR_STVEC as int],
        cause.code_spec(),
    )) && (!crate::cpu::trap_to_supervisor_spec(pre, cause.code_spec(), crate::csr::CSR_MEDELEG)
        ==> post.mode == Mode::Machine && post.csrs@ == crate::cpu::machine_trap_post(
        pre.csrs@,
        cause.code_spec(),
        epc,
        tval,
        pre.mode,
    ) && post.pc == crate::cpu::tvec_target_spec(
        pre.csrs@[crate::csr::CSR_MTVEC as int],
        cause.code_spec(),
    ))
}

/// Effect of `SRET`: illegal under `mstatus.TSR`, a misaligned `sepc`
/// traps, otherwise the return transition of the supervisor trap state.
pub open spec fn sret_rel(pre: Cpu, post: Cpu, r: Result<(), Trap>) -> bool {
    post == (Cpu { pc: post.pc, mode: post.mode, csrs: post.csrs, ..pre }) && ({
        let m = crate::csr::mstatus_read_spec(pre.csrs@);
        let epc = pre.csrs@[crate::csr::CSR_SEPC as int];
        if (m >> 22) & 1 == 1 {
            r == Err::<(), Trap>(Trap { cause: Exception::IllegalInst, tval: 0 }) && post == pre
        } else if epc & 1 != 0 {
            r == Err::<(), Trap>(Trap { cause: Exception::InstAddrMisalign, tval: epc }) && post
                == pre
        } else {
            r is Ok && post.pc == epc && post.mode == sret_post_spec(m).1 && post.csrs@
                == crate::csr::mstatus_write_post(pre.csrs@, sret_post_spec(m).0)
        }
    })
}

/// Effect of `MRET`: a misaligned `mepc` traps, otherwise the return
/// transition of the machine trap state.
pub open spec fn mret_rel(pre: Cpu, post: Cpu, r: Result<(), Trap>) -> bool {
    post == (Cpu { pc: post.pc, mode: post.mode, csrs: post.csrs, ..pre }) && ({
        let m = crate::csr::mstatus_read_spec(pre.csrs@);
        let epc = pre.csrs@[crate::csr::CSR_MEPC as int];
        if epc & 1 != 0 {
            r == Err::<(), Trap>(Trap { cause: Exception::InstAddrMisalign, tval: epc }) && post
                == pre
        } else {
            r is Ok && post.pc == epc && post.mode == mret_post_spec(m).1 && post.csrs@
                == crate::csr::mstatus_write_post(pre.csrs@, mret_post_spec(m).0)
        }
    })
}

/// Effect of Zicsr and the privileged instructions. The CSR forms
/// read and write through the file's exact masks and aliases; the
/// set/clear forms with `rs1 = x0` (or a zero immediate) perform no
/// write and so no write side effect. `xRET`, `ECALL`, `EBREAK`, `WFI`
/// and `SFENCE.VMA` carry their privilege checks.
pub open spec fn system_post(pre: Cpu, post: Cpu, inst: u32, ilen: u64, r: Result<
    (),
    Trap,
>) -> bool {
    let f3 = (inst >> 12) & 7;
    let csr = (((inst >> 20) & 0xfff) as u64);
    let r1f = (inst >> 15) & 0x1f;
    let rdf = (inst >> 7) & 0x1f;
    let rd = rdf as int;
    let a = pre.read_reg_spec(((inst >> 15) & 0x1f) as int);
    let acc = crate::csr::csr_access_err_spec(pre, csr, true);
    let ro = csr >= 0xc00;
    let rv = crate::csr::csr_read_val_spec(pre, csr);
    let csr_trap = (r == Err::<(), Trap>(Trap { cause: Exception::IllegalInst, tval: 0 }) && post
        == (Cpu { csrs: post.csrs, ..pre }) && post.csrs@ == pre.csrs@);
    let ill = (r == Err::<(), Trap>(Trap { cause: Exception::IllegalInst, tval: inst as u64 })
        && post == pre);
    if f3 == 1 || f3 == 5 {
        let wv = if f3 == 1 {
            a
        } else {
            r1f as u64
        };
        if acc || ro {
            csr_trap
        } else {
            r is Ok && post == (Cpu { csrs: post.csrs, regs: post.regs, ..pre }) && post.csrs@
                == crate::csr::csr_write_post_spec(pre, csr, wv) && post.regs@
                == pre.write_reg_spec(
                rd,
                if rdf != 0 {
                    rv
                } else {
                    0u64
                },
            )
        }
    } else if f3 == 2 || f3 == 3 || f3 == 6 || f3 == 7 {
        if acc {
            csr_trap
        } else if r1f == 0 {
            r is Ok && post == (Cpu { regs: post.regs, ..pre }) && post.regs@
                == pre.write_reg_spec(rd, rv)
        } else if ro {
            csr_trap
        } else {
            let wv = if f3 == 2 {
                a | rv
            } else if f3 == 6 {
                (r1f as u64) | rv
            } else if f3 == 3 {
                !a & rv
            } else {
                !(r1f as u64) & rv
            };
            r is Ok && post == (Cpu { csrs: post.csrs, regs: post.regs, ..pre }) && post.csrs@
                == crate::csr::csr_write_post_spec(pre, csr, wv) && post.regs@
                == pre.write_reg_spec(rd, rv)
        }
    } else if f3 == 0 {
        let f7 = inst >> 25;
        let r2f = (inst >> 20) & 0x1f;
        if f7 == 0x08 && r2f == 2 && r1f == 0 && rdf == 0 {
            if pre.mode.code_spec() < 1 {
                ill
            } else {
                sret_rel(pre, post, r)
            }
        } else if f7 == 0x18 && r2f == 2 && r1f == 0 && rdf == 0 {
            if pre.mode.code_spec() < 3 {
                ill
            } else {
                mret_rel(pre, post, r)
            }
        } else if inst == 0x0000_0073 {
            r is Ok && exception_rel(
                pre,
                post,
                pre.mode.ecall_exception_spec(),
                0,
                pre.pc.wrapping_sub(ilen),
            )
        } else if inst == 0x0010_0073 {
            r is Ok && exception_rel(pre, post, Exception::Breakpoint, 0, pre.pc.wrapping_sub(ilen))
        } else if f7 == 0x08 && r2f == 5 && r1f == 0 && rdf == 0 {
            r is Ok && post == pre
        } else if f7 == 0x09 && rdf == 0 {
            if pre.mode.code_spec() < 1 {
                ill
            } else if crate::csr::csr_access_err_spec(pre, crate::csr::CSR_SATP, true) {
                csr_trap
            } else {
                r is Ok && post == (Cpu {
                    pages: crate::mmu::paging_of_satp_spec(
                        pre.csrs@[crate::csr::CSR_SATP as int],
                        pre.pages,
                    ),
                    ..pre
                })
            }
        } else {
            ill
        }
    } else {
        ill
    }
}


/// A decode-level result with any exit code stripped.
pub open spec fn as_unit_spec(r: Result<Option<u32>, Trap>) -> Result<(), Trap> {
    match r {
        Ok(_) => Ok(()),
        Err(t) => Err(t),
    }
}

/// Effect of executing one decoded instruction: the opcode dispatch,
/// each arm tied to its family's exact post-relation; an unknown
/// opcode is an illegal instruction with nothing changed.
pub open spec fn execute_rel(
    pre: Cpu,
    post: Cpu,
    inst: u32,
    ilen: u64,
    testing: bool,
    r: Result<Option<u32>, Trap>,
) -> bool {
    let opc = inst & 0x7f;
    let ru = as_unit_spec(r);
    let plain = (r matches Ok(c) ==> c is None);
    if opc == 0x37 {
        plain && lui_post(pre, post, inst, ru)
    } else if opc == 0x17 {
        plain && auipc_post(pre, post, inst, ilen, ru)
    } else if opc == 0x6f {
        plain && jal_post(pre, post, inst, ilen, ru)
    } else if opc == 0x67 {
        plain && jalr_post(pre, post, inst, ru)
    } else if opc == 0x63 {
        plain && branch_post(pre, post, inst, ilen, ru)
    } else if opc == 0x03 {
        plain && load_post(pre, post, inst, ru)
    } else if opc == 0x23 {
        store_post(pre, post, inst, testing, r)
    } else if opc == 0x13 {
        plain && op_imm_post(pre, post, inst, ru)
    } else if opc == 0x33 {
        plain && op_post(pre, post, inst, ru)
    } else if opc == 0x1b {
        plain && op_imm32_post(pre, post, inst, ru)
    } else if opc == 0x3b {
        plain && op32_post(pre, post, inst, ru)
    } else if opc == 0x0f {
        r == Ok::<Option<u32>, Trap>(None) && post == pre
    } else if opc == 0x2f {
        plain && amo_post(pre, post, inst, ru)
    } else if opc == 0x07 {
        plain && fp_load_post(pre, post, inst, ru)
    } else if opc == 0x27 {
        plain && fp_store_post(pre, post, inst, ru)
    } else if opc == 0x43 || opc == 0x47 || opc == 0x4b || opc == 0x4f {
        plain && fp_madd_post(pre, post, inst, opc, ru)
    } else if opc == 0x53 {
        plain && fp_op_post(pre, post, inst, ru)
    } else if opc == 0x73 {
        plain && system_post(pre, post, inst, ilen, ru)
    } else {
        r == Err::<Option<u32>, Trap>(Trap { cause: Exception::IllegalInst, tval: inst as u64 })
            && post == pre
    }
}


/// Effect of one fetch: a misaligned `pc` traps with nothing changed;
/// otherwise the instruction word comes through translation and the
/// bus, a compressed halfword is expanded, and `pc` advances by the
/// instruction's length.
pub open spec fn fetch_rel(pre: Cpu, post: Cpu, r: Result<(u32, u64), Trap>) -> bool {
    post == (Cpu { bus: post.bus, pc: post.pc, ..pre }) && (r matches Ok(p) ==> (p.1 == 2 || p.1
        == 4) && post.pc == pre.pc.wrapping_add(p.1)) && (r is Err ==> post.pc == pre.pc) && (
    pre.pc & 1 != 0 ==> r == Err::<(u32, u64), Trap>(
        Trap { cause: Exception::InstAddrMisalign, tval: pre.pc },
    ) && post == pre) && (pre.pc & 1 == 0 ==> (match crate::mmu::translate_spec(
        pre,
        pre.pc,
        crate::mmu::PERM_X,
    ) {
        Err(_) => r == Err::<(u32, u64), Trap>(
            Trap { cause: Exception::InstPageFault, tval: pre.pc },
        ) && post.bus@ == pre.bus@,
        Ok((pa, upd)) => post.bus@ == (match upd {
            None => pre.bus@,
            Some(u) => crate::bus::bus_store_u64_post_spec(pre.bus@, u.0, u.1),
        }) && (match crate::bus::bus_load_u32_spec(post.bus@, pa) {
            Err(_) => r == Err::<(u32, u64), Trap>(
                Trap { cause: Exception::InstAccessFault, tval: 0 },
            ),
            Ok(w) => if w & 3 != 3 {
                match crate::comp::comp_expand_spec(w as u16) {
                    Err(t) => r == Err::<(u32, u64), Trap>(t),
                    Ok(x) => r == Ok::<(u32, u64), Trap>((x, 2)),
                }
            } else {
                r == Ok::<(u32, u64), Trap>((w, 4))
            },
        }),
    }))
}

/// Effect of one interrupt poll, as `Cpu::check_interrupts`
/// guarantees it: nothing changes unless the highest-priority enabled
/// pending bit fires, in which case it is delivered.
pub open spec fn interrupts_rel(pre: Cpu, post: Cpu) -> bool {
    post == (Cpu { csrs: post.csrs, pc: post.pc, mode: post.mode, ..pre }) && (
    crate::cpu::first_firing_spec(pre) is None ==> post == pre) && (crate::cpu::first_firing_spec(
        pre,
    ) matches Some(b) ==> post.csrs@ == crate::cpu::int_delivery_csrs_spec(pre, b) && (
    crate::cpu::trap_to_supervisor_spec(pre, b | (1u64 << 63), crate::csr::CSR_MIDELEG)
        ==> post.mode == Mode::Supervisor && post.pc == crate::cpu::tvec_target_spec(
        pre.csrs@[crate::csr::CSR_STVEC as int],
        b | (1u64 << 63),
    )) && (!crate::cpu::trap_to_supervisor_spec(pre, b | (1u64 << 63), crate::csr::CSR_MIDELEG)
        ==> post.mode == Mode::Machine && post.pc == crate::cpu::tvec_target_spec(
        pre.csrs@[crate::csr::CSR_MTVEC as int],
        b | (1u64 << 63),
    )))
}

/// A trap was raised during the step: either the fetch itself
/// trapped, or some fetched instruction's execution did.
pub open spec fn step_trap_rel(pre: Cpu, post: Cpu, t: Trap, testing: bool) -> bool {
    fetch_rel(pre, post, Err::<(u32, u64), Trap>(t)) || (exists|m1: Cpu, p: (u32, u64)|
        #[trigger] fetch_rel(pre, m1, Ok::<(u32, u64), Trap>(p)) && execute_rel(
            m1,
            post,
            p.0,
            p.1,
            testing,
            Err::<Option<u32>, Trap>(t),
        ))
}

impl Cpu {
    /// The single- and double-precision computational instructions.
    pub fn exec_fp_op(&mut self, inst: u32) -> (r: Result<(), Trap>)
        requires
            old(self).wf(),
        ensures
            final(self).wf(),
            fp_op_post(*old(self), *final(self), inst, r),
    {
        let f7 = inst >> 25;
        let r2f = (inst >> 20) & 0x1f;
        let rmf = (inst >> 12) & 7;
        let rd = rd_of(inst);
        let rs1 = rs1_of(inst);
        let rs2 = rs2_of(inst);
        let illegal = Trap { cause: Exception::IllegalInst, tval: inst as u64 };
        if f7 == 0x00 || f7 == 0x04 || f7 == 0x08 || f7 == 0x0c {
            let a = self.read_float_reg_r32(rs1);
            let b = self.read_float_reg_r32(rs2);
            let rm = self.get_rm(rmf)?;
            let s = if f7 == 0x00 {
                crate::float::sf32_add(a, b, rm)
            } else if f7 == 0x04 {
                crate::float::sf32_sub(a, b, rm)
            } else if f7 == 0x08 {
                crate::float::sf32_mul(a, b, rm)
            } else {
                crate::float::sf32_div(a, b, rm)
            };
            self.fp_finish32(rd, s.0, map_status(s.1))
        } else if f7 == 0x01 || f7 == 0x05 || f7 == 0x09 || f7 == 0x0d {
            let a = self.read_float_reg(rs1);
            let b = self.read_float_reg(rs2);
            let rm = self.get_rm(rmf)?;
            let s = if f7 == 0x01 {
                crate::float::sf64_add(a, b, rm)
            } else if f7 == 0x05 {
                crate::float::sf64_sub(a, b, rm)
            } else if f7 == 0x09 {
                crate::float::sf64_mul(a, b, rm)
            } else {
                crate::float::sf64_div(a, b, rm)
            };
            self.fp_finish64(rd, s.0, map_status(s.1))
        } else if f7 == 0x2c {
            if r2f != 0 {
                return Err(illegal);
            }
            let a = self.read_float_reg_r32(rs1);
            let rm = self.get_rm(rmf)?;
            let s = crate::sqrt::fsqrt32(a, rm);
            self.fp_finish32(rd, s.0, s.1)
        } else if f7 == 0x2d {
            if r2f != 0 {
                return Err(illegal);
            }
            let a = self.read_float_reg(rs1);
            let rm = self.get_rm(rmf)?;
            let s = crate::sqrt::fsqrt64(a, rm);
            self.fp_finish64(rd, s.0, s.1)
        } else if f7 == 0x10 {
            let a = self.read_float_reg_r32(rs1);
            let b = self.read_float_reg_r32(rs2);
            let v = if rmf == 0 {
                (a & 0x7fff_ffff) | (b & 0x8000_0000)
            } else if rmf == 1 {
                (a & 0x7fff_ffff) | (!b & 0x8000_0000)
            } else if rmf == 2 {
                (a & 0x7fff_ffff) | ((a ^ b) & 0x8000_0000)
            } else {
                return Err(illegal);
            };
            self.write_float_reg_r32(rd, v)
        } else if f7 == 0x11 {
            let a = self.read_float_reg(rs1);
            let b = self.read_float_reg(rs2);
            let v = if rmf == 0 {
                (a & 0x7fff_ffff_ffff_ffff) | (b & 0x8000_0000_0000_0000)
            } else if rmf == 1 {
                (a & 0x7fff_ffff_ffff_ffff) | (!b & 0x8000_0000_0000_0000)
            } else if rmf == 2 {
                (a & 0x7fff_ffff_ffff_ffff) | ((a ^ b) & 0x8000_0000_0000_0000)
            } else {
                return Err(illegal);
            };
            self.write_float_reg(rd, v)
        } else if f7 == 0x14 {
            if rmf > 1 {
                return Err(illegal);
            }
            let a = self.read_float_reg_r32(rs1);
            let b = self.read_float_reg_r32(rs2);
            if self.is_snan32(a) || self.is_snan32(b) {
                self.float_set_flags(0x10);
                proof {
                    crate::csr::lemma_fs_dirty_enables_fp(old(self).csrs@);
                }
            }
            let v = if rmf == 0 {
                self.fmin32x(a, b)
            } else {
                self.fmax32x(a, b)
            };
            self.write_float_reg_r32(rd, v)
        } else if f7 == 0x15 {
            if rmf > 1 {
                return Err(illegal);
            }
            let a = self.read_float_reg(rs1);
            let b = self.read_float_reg(rs2);
            if self.is_snan64(a) || self.is_snan64(b) {
                self.float_set_flags(0x10);
                proof {
                    crate::csr::lemma_fs_dirty_enables_fp(old(self).csrs@);
                }
            }
            let v = if rmf == 0 {
                self.fmin64x(a, b)
            } else {
                self.fmax64x(a, b)
            };
            self.write_float_reg(rd, v)
        } else if f7 == 0x50 {
            let a = self.read_float_reg_r32(rs1);
            let b = self.read_float_reg_r32(rs2);
            let v: u64 = if rmf == 2 {
                if self.is_snan32(a) || self.is_snan32(b) {
                    self.float_set_flags(0x10);
                    0
                } else if self.is_nan32(a) || self.is_nan32(b) {
                    0
                } else {
                    if self.f32_key(a) == self.f32_key(b) {
                        1
                    } else {
                        0
                    }
                }
            } else if rmf == 1 {
                if self.is_nan32(a) || self.is_nan32(b) {
                    self.float_set_flags(0x10);
                    0
                } else {
                    if self.f32_key(a) < self.f32_key(b) {
                        1
                    } else {
                        0
                    }
                }
            } else if rmf == 0 {
                if self.is_nan32(a) || self.is_nan32(b) {
                    self.float_set_flags(0x10);
                    0
                } else {
                    if self.f32_key(a) <= self.f32_key(b) {
                        1
                    } else {
                        0
                    }
                }
            } else {
                return Err(illegal);
            };
            self.write_reg(rd, v);
            Ok(())
        } else if f7 == 0x51 {
            let a = self.read_float_reg(rs1);
            let b = self.read_float_reg(rs2);
            let v: u64 = if rmf == 2 {
                if self.is_snan64(a) || self.is_snan64(b) {
                    self.float_set_flags(0x10);
                    0
                } else if self.is_nan64(a) || self.is_nan64(b) {
                    0
                } else {
                    if self.f64_key(a) == self.f64_key(b) {
                        1
                    } else {
                        0
                    }
                }
            } else if rmf == 1 {
                if self.is_nan64(a) || self.is_nan64(b) {
                    self.float_set_flags(0x10);
                    0
                } else {
                    if self.f64_key(a) < self.f64_key(b) {
                        1
                    } else {
                        0
                    }
                }
            } else if rmf == 0 {
                if self.is_nan64(a) || self.is_nan64(b) {
                    self.float_set_flags(0x10);
                    0
                } else {
                    if self.f64_key(a) <= self.f64_key(b) {
                        1
                    } else {
                        0
                    }
                }
            } else {
                return Err(illegal);
            };
            self.write_reg(rd, v);
            Ok(())
        } else if f7 == 0x60 {
            let a = self.read_float_reg_r32(rs1);
            let rm = self.get_rm(rmf)?;
            if r2f == 0 {
                let v: u64 = if self.is_nan32(a) {
                    self.float_set_flags(0x10);
                    (i32::MAX as i64) as u64
                } else {
                    let s = crate::float::sf32_to_signed(a, 32, rm);
                    self.float_set_flags(map_status(s.1));
                    ((s.0 as i32) as i64) as u64
                };
                self.write_reg(rd, v);
                Ok(())
            } else if r2f == 1 {
                let v: u64 = if self.is_nan32(a) {
                    self.float_set_flags(0x10);
                    ((u32::MAX as i32) as i64) as u64
                } else {
                    let s = crate::float::sf32_to_unsigned(a, 32, rm);
                    self.float_set_flags(map_status(s.1));
                    (((s.0 as u32) as i32) as i64) as u64
                };
                self.write_reg(rd, v);
                Ok(())
            } else if r2f == 2 {
                let v: u64 = if self.is_nan32(a) {
                    self.float_set_flags(0x10);
                    i64::MAX as u64
                } else {
                    let s = crate::float::sf32_to_signed(a, 64, rm);
                    self.float_set_flags(map_status(s.1));
                    s.0 as u64
                };
                self.write_reg(rd, v);
                Ok(())
            } else if r2f == 3 {
                let v: u64 = if self.is_nan32(a) {
                    self.float_set_flags(0x10);
                    u64::MAX
                } else {
                    let s = crate::float::sf32_to_unsigned(a, 64, rm);
                    self.float_set_flags(map_status(s.1));
                    s.0
                };
                self.write_reg(rd, v);
                Ok(())
            } else {
                Err(illegal)
            }
        } else if f7 == 0x61 {
            let a = self.read_float_reg(rs1);
            let rm = self.get_rm(rmf)?;
            if r2f == 0 {
                let v: u64 = if self.is_nan64(a) {
                    self.float_set_flags(0x10);
                    (i32::MAX as i64) as u64
                } else {
                    let s = crate::float::sf64_to_signed(a, 32, rm);
                    self.float_set_flags(map_status(s.1));
                    ((s.0 as i32) as i64) as u64
                };
                self.write_reg(rd, v);
                Ok(())
            } else if r2f == 1 {
                let v: u64 = if self.is_nan64(a) {
                    self.float_set_flags(0x10);
                    ((u32::MAX as i32) as i64) as u64
                } else {
                    let s = crate::float::sf64_to_unsigned(a, 32, rm);
                    self.float_set_flags(map_status(s.1));
                    (((s.0 as u32) as i32) as i64) as u64
                };
                self.write_reg(rd, v);
                Ok(())
            } else if r2f == 2 {
                let v: u64 = if self.is_nan64(a) {
                    self.float_set_flags(0x10);
                    i64::MAX as u64
                } else {
                    let s = crate::float::sf64_to_signed(a, 64, rm);
                    self.float_set_flags(map_status(s.1));
                    s.0 as u64
                };
                self.write_reg(rd, v);
                Ok(())
            } else if r2f == 3 {
                let v: u64 = if self.is_nan64(a) {
                    self.float_set_flags(0x10);
                    u64::MAX
                } else {
                    let s = crate::float::sf64_to_unsigned(a, 64, rm);
                    self.float_set_flags(map_status(s.1));
                    s.0
                };
                self.write_reg(rd, v);
                Ok(())
            } else {
                Err(illegal)
            }
        } else if f7 == 0x68 {
            let a = self.read_reg(rs1);
            let rm = self.get_rm(rmf)?;
            let s = if r2f == 0 {
                crate::float::sf32_from_signed(((a as i32) as i64), rm)
            } else if r2f == 1 {
                crate::float::sf32_from_unsigned((a as u32) as u64, rm)
            } else if r2f == 2 {
                crate::float::sf32_from_signed(a as i64, rm)
            } else if r2f == 3 {
                crate::float::sf32_from_unsigned(a, rm)
            } else {
                return Err(illegal);
            };
            self.fp_finish32(rd, s.0, map_status(s.1))
        } else if f7 == 0x69 {
            let a = self.read_reg(rs1);
            let rm = self.get_rm(rmf)?;
            let s = if r2f == 0 {
                crate::float::sf64_from_signed(((a as i32) as i64), rm)
            } else if r2f == 1 {
                crate::float::sf64_from_unsigned((a as u32) as u64, rm)
            } else if r2f == 2 {
                crate::float::sf64_from_signed(a as i64, rm)
            } else if r2f == 3 {
                crate::float::sf64_from_unsigned(a, rm)
            } else {
                return Err(illegal);
            };
            self.fp_finish64(rd, s.0, map_status(s.1))
        } else if f7 == 0x20 {
            if r2f != 1 {
                return Err(illegal);
            }
            let a = self.read_float_reg(rs1);
            let rm = self.get_rm(rmf)?;
            let s = crate::float::sf64_to_f32(a, rm);
            self.fp_finish32(rd, s.0, map_status(s.1))
        } else if f7 == 0x21 {
            if r2f != 0 {
                return Err(illegal);
            }
            let a = self.read_float_reg_r32(rs1);
            let rm = self.get_rm(rmf)?;
            let s = crate::float::sf32_to_f64(a, rm);
            self.fp_finish64(rd, s.0, map_status(s.1))
        } else if f7 == 0x70 {
            if r2f == 0 && rmf == 0 {
                let v = self.read_float_reg_r32_uc(rs1);
                self.write_reg(rd, ((v as i32) as i64) as u64);
                Ok(())
            } else if r2f == 0 && rmf == 1 {
                let a = self.read_float_reg_r32(rs1);
                let v = self.fclass32x(a);
                self.write_reg(rd, v);
                Ok(())
            } else {
                Err(illegal)
            }
        } else if f7 == 0x71 {
            if r2f == 0 && rmf == 0 {
                let v = self.read_float_reg(rs1);
                self.write_reg(rd, v);
                Ok(())
            } else if r2f == 0 && rmf == 1 {
                let a = self.read_float_reg(rs1);
                let v = self.fclass64x(a);
                self.write_reg(rd, v);
                Ok(())
            } else {
                Err(illegal)
            }
        } else if f7 == 0x78 {
            if r2f == 0 && rmf == 0 {
                let a = self.read_reg(rs1);
                self.write_float_reg_r32(rd, a as u32)
            } else {
                Err(illegal)
            }
        } else if f7 == 0x79 {
            if r2f == 0 && rmf == 0 {
                let a = self.read_reg(rs1);
                self.write_float_reg(rd, a)
            } else {
                Err(illegal)
            }
        } else {
            Err(illegal)
        }
    }

    /// Zicsr and the privileged instructions.
    pub fn exec_system(&mut self, inst: u32, ilen: u64) -> (r: Result<(), Trap>)
        requires
            old(self).wf(),
        ensures
            final(self).wf(),
            system_post(*old(self), *final(self), inst, ilen, r),
    {
        let f3 = (inst >> 12) & 7;
        let csr = ((inst >> 20) & 0xfff) as u64;
        let r1f = (inst >> 15) & 0x1f;
        let rdf = (inst >> 7) & 0x1f;
        let a = self.read_reg(rs1_of(inst));
        let illegal = Trap { cause: Exception::IllegalInst, tval: inst as u64 };
        if f3 == 1 {
            let rv = if rdf != 0 {
                self.csr_read(csr)?
            } else {
                0
            };
            self.csr_write(csr, a)?;
            self.write_reg(rd_of(inst), rv);
            Ok(())
        } else if f3 == 5 {
            let rv = if rdf != 0 {
                self.csr_read(csr)?
            } else {
                0
            };
            self.csr_write(csr, r1f as u64)?;
            self.write_reg(rd_of(inst), rv);
            Ok(())
        } else if f3 == 2 {
            let rv = self.csr_read(csr)?;
            if r1f != 0 {
                self.csr_write(csr, a | rv)?;
            }
            self.write_reg(rd_of(inst), rv);
            Ok(())
        } else if f3 == 6 {
            let rv = self.csr_read(csr)?;
            if r1f != 0 {
                self.csr_write(csr, (r1f as u64) | rv)?;
            }
            self.write_reg(rd_of(inst), rv);
            Ok(())
        } else if f3 == 3 {
            let rv = self.csr_read(csr)?;
            if r1f != 0 {
                self.csr_write(csr, !a & rv)?;
            }
            self.write_reg(rd_of(inst), rv);
            Ok(())
        } else if f3 == 7 {
            let rv = self.csr_read(csr)?;
            if r1f != 0 {
                self.csr_write(csr, !(r1f as u64) & rv)?;
            }
            self.write_reg(rd_of(inst), rv);
            Ok(())
        } else if f3 == 0 {
            let f7 = inst >> 25;
            let r2f = (inst >> 20) & 0x1f;
            if f7 == 0x08 && r2f == 2 && r1f == 0 && rdf == 0 {
                if self.mode.code() < 1 {
                    return Err(illegal);
                }
                self.exec_sret()
            } else if f7 == 0x18 && r2f == 2 && r1f == 0 && rdf == 0 {
                if self.mode.code() < 3 {
                    return Err(illegal);
                }
                self.exec_mret()
            } else if inst == 0x0000_0073 {
                let t = Trap { cause: self.mode.ecall_exception(), tval: 0 };
                let epc = self.pc.wrapping_sub(ilen);
                self.exception(t, epc);
                Ok(())
            } else if inst == 0x0010_0073 {
                let t = Trap { cause: Exception::Breakpoint, tval: 0 };
                let epc = self.pc.wrapping_sub(ilen);
                self.exception(t, epc);
                Ok(())
            } else if f7 == 0x08 && r2f == 5 && r1f == 0 && rdf == 0 {
                Ok(())
            } else if f7 == 0x09 && rdf == 0 {
                if self.mode.code() < 1 {
                    return Err(illegal);
                }
                self.flush_mapping()
            } else {
                Err(illegal)
            }
        } else {
            Err(illegal)
        }
    }

    /// `SRET`: return from a supervisor trap; illegal under
    /// `mstatus.TSR`.
    fn exec_sret(&mut self) -> (r: Result<(), Trap>)
        requires
            old(self).wf(),
        ensures
            final(self).wf(),
            sret_rel(*old(self), *final(self), r),
    {
        if (self.csr_read_cpu(crate::csr::CSR_MSTATUS) >> 22) & 1 == 1 {
            return Err(Trap { cause: Exception::IllegalInst, tval: 0 });
        }
        let epc = self.csr_read_cpu(crate::csr::CSR_SEPC);
        match self.write_pc(epc) {
            Ok(_) => {},
            Err(t) => {
                return Err(t);
            },
        }
        let m0 = self.csr_read_cpu(crate::csr::CSR_MSTATUS);
        let m1 = m0 & !2;
        let m2 = m1 | ((m1 >> 4) & 2);
        let newmode = Mode::from_code((m2 >> 8) & 1);
        let m3 = m2 & !0x20;
        let m4 = m3 | 0x20;
        let m5 = m4 & !0x100;
        self.mode = newmode;
        self.csr_write_cpu(crate::csr::CSR_MSTATUS, m5);
        Ok(())
    }

    /// `MRET`: return from a machine trap; clears `MPRV` when leaving
    /// machine mode.
    fn exec_mret(&mut self) -> (r: Result<(), Trap>)
        requires
            old(self).wf(),
        ensures
            final(self).wf(),
            mret_rel(*old(self), *final(self), r),
    {
        let epc = self.csr_read_cpu(crate::csr::CSR_MEPC);
        match self.write_pc(epc) {
            Ok(_) => {},
            Err(t) => {
                return Err(t);
            },
        }
        let m0 = self.csr_read_cpu(crate::csr::CSR_MSTATUS);
        let m1 = m0 & !8;
        let m2 = m1 | ((m1 >> 4) & 8);
        let newmode = Mode::from_code((m2 >> 11) & 3);
        let m3 = m2 & !0x80;
        let m4 = m3 | 0x80;
        let m5 = m4 & !0x1800;
        let m6 = if !matches!(newmode, Mode::Machine) {
            m5 & !0x20000
        } else {
            m5
        };
        self.mode = newmode;
        self.csr_write_cpu(crate::csr::CSR_MSTATUS, m6);
        Ok(())
    }

    /// Execute one decoded instruction. Outside of test mode no run
    /// ever reports an exit code.
    pub fn execute(&mut self, inst: u32, ilen: u64, testing: bool) -> (r: Result<Option<u32>, Trap>)
        requires
            old(self).wf(),
        ensures
            final(self).wf(),
            execute_rel(*old(self), *final(self), inst, ilen, testing, r),
            !testing ==> (r matches Ok(c) ==> c is None),
    {
        let opc = inst & 0x7f;
        if opc == 0x37 {
            self.exec_lui(inst)?;
            Ok(None)
        } else if opc == 0x17 {
            self.exec_auipc(inst, ilen)?;
            Ok(None)
        } else if opc == 0x6f {
            self.exec_jal(inst, ilen)?;
            Ok(None)
        } else if opc == 0x67 {
            self.exec_jalr(inst)?;
            Ok(None)
        } else if opc == 0x63 {
            self.exec_branch(inst, ilen)?;
            Ok(None)
        } else if opc == 0x03 {
            self.exec_load(inst)?;
            Ok(None)
        } else if opc == 0x23 {
            self.exec_store(inst, testing)
        } else if opc == 0x13 {
            self.exec_op_imm(inst)?;
            Ok(None)
        } else if opc == 0x33 {
            self.exec_op(inst)?;
            Ok(None)
        } else if opc == 0x1b {
            self.exec_op_imm32(inst)?;
            Ok(None)
        } else if opc == 0x3b {
            self.exec_op32(inst)?;
            Ok(None)
        } else if opc == 0x0f {
            Ok(None)
        } else if opc == 0x2f {
            self.exec_amo(inst)?;
            Ok(None)
        } else if opc == 0x07 {
            self.exec_fp_load(inst)?;
            Ok(None)
        } else if opc == 0x27 {
            self.exec_fp_store(inst)?;
            Ok(None)
        } else if opc == 0x43 || opc == 0x47 || opc == 0x4b || opc == 0x4f {
            self.exec_fp_madd(inst, opc)?;
            Ok(None)
        } else if opc == 0x53 {
            self.exec_fp_op(inst)?;
            Ok(None)
        } else if opc == 0x73 {
            self.exec_system(inst, ilen)?;
            Ok(None)
        } else {
            Err(Trap { cause: Exception::IllegalInst, tval: inst as u64 })
        }
    }

    /// Fetch the instruction at `pc`, expanding a compressed one, and
    /// advance `pc` past it.
    pub fn fetch(&mut self) -> (r: Result<(u32, u64), Trap>)
        requires
            old(self).wf(),
        ensures
            final(self).wf(),
            fetch_rel(*old(self), *final(self), r),
    {
        if self.pc & 1 != 0 {
            return Err(Trap { cause: Exception::InstAddrMisalign, tval: self.pc });
        }
        let w = self.mmu_load_xu32(self.pc)?;
        if w & 3 != 3 {
            let x = self.comp_expand(w as u16)?;
            self.pc = self.pc.wrapping_add(2);
            Ok((x, 2))
        } else {
            self.pc = self.pc.wrapping_add(4);
            Ok((w, 4))
        }
    }

    /// Fetch and execute one instruction, then poll interrupts once;
    /// a raised trap is handed back for delivery.
    fn step_w_exception(&mut self, testing: bool) -> (r: Result<Option<u32>, Trap>)
        requires
            old(self).wf(),
        ensures
            final(self).wf(),
            r matches Err(t) ==> step_trap_rel(*old(self), *final(self), t, testing),
            r matches Ok(c) ==> (c matches Some(code) ==> exists|m1: Cpu, p: (u32, u64)|
                #[trigger] fetch_rel(*old(self), m1, Ok::<(u32, u64), Trap>(p)) && execute_rel(
                    m1,
                    *final(self),
                    p.0,
                    p.1,
                    testing,
                    Ok::<Option<u32>, Trap>(Some(code)),
                )),
            r == Ok::<Option<u32>, Trap>(None) ==> exists|m1: Cpu, p: (u32, u64), m2: Cpu|
                #![trigger fetch_rel(*old(self), m1, Ok::<(u32, u64), Trap>(p)), interrupts_rel(m2, *final(self))]
                fetch_rel(*old(self), m1, Ok::<(u32, u64), Trap>(p)) && execute_rel(
                    m1,
                    m2,
                    p.0,
                    p.1,
                    testing,
                    Ok::<Option<u32>, Trap>(None),
                ) && interrupts_rel(m2, *final(self)),
            !testing ==> (r matches Ok(c) ==> c is None),
    {
        let fr = self.fetch();
        let ghost m1 = *self;
        let fetched = match fr {
            Ok(p) => p,
            Err(t) => {
                return Err(t);
            },
        };
        let er = self.execute(fetched.0, fetched.1, testing);
        let ghost m2 = *self;
        let code = match er {
            Ok(c) => c,
            Err(t) => {
                proof {
                    assert(fetch_rel(*old(self), m1, Ok::<(u32, u64), Trap>(fetched)));
                }
                return Err(t);
            },
        };
        match code {
            Some(c) => {
                proof {
                    assert(fetch_rel(*old(self), m1, Ok::<(u32, u64), Trap>(fetched)));
                }
                Ok(Some(c))
            },
            None => {
                self.check_interrupts();
                proof {
                    assert(fetch_rel(*old(self), m1, Ok::<(u32, u64), Trap>(fetched))
                        && execute_rel(
                        m1,
                        m2,
                        fetched.0,
                        fetched.1,
                        testing,
                        Ok::<Option<u32>, Trap>(None),
                    ) && interrupts_rel(m2, *self));
                }
                Ok(None)
            },
        }
    }

    /// Run one instruction to completion: fetch, decode, execute, and
    /// poll for pending interrupts; a raised exception is delivered to
    /// the trap vector. Under the test-harness protocol the returned
    /// code, when present, ends the run.
    pub fn step(&mut self, testing: bool) -> (r: Option<u32>)
        requires
            old(self).wf(),
        ensures
            final(self).wf(),
            !testing ==> r is None,
            r matches Some(code) ==> exists|m1: Cpu, p: (u32, u64)|
                #[trigger] fetch_rel(*old(self), m1, Ok::<(u32, u64), Trap>(p)) && execute_rel(
                    m1,
                    *final(self),
                    p.0,
                    p.1,
                    testing,
                    Ok::<Option<u32>, Trap>(Some(code)),
                ),
            r is None ==> (exists|m1: Cpu, p: (u32, u64), m2: Cpu|
                #![trigger fetch_rel(*old(self), m1, Ok::<(u32, u64), Trap>(p)), interrupts_rel(m2, *final(self))]
                fetch_rel(*old(self), m1, Ok::<(u32, u64), Trap>(p)) && execute_rel(
                    m1,
                    m2,
                    p.0,
                    p.1,
                    testing,
                    Ok::<Option<u32>, Trap>(None),
                ) && interrupts_rel(m2, *final(self))) || (exists|m: Cpu, t: Trap|
                #[trigger] step_trap_rel(*old(self), m, t, testing) && exception_rel(
                    m,
                    *final(self),
                    t.cause,
                    t.tval,
                    old(self).pc,
                )),
    {
        let pc0 = self.pc;
        match self.step_w_exception(testing) {
            Ok(c) => c,
            Err(t) => {
                let ghost m = *self;
                self.exception(t, pc0);
                proof {
                    assert(step_trap_rel(*old(self), m, t, testing) && exception_rel(
                        m,
                        *self,
                        t.cause,
                        t.tval,
                        old(self).pc,
                    ));
                }
                None
            },
        }
    }
}

} // verus!
