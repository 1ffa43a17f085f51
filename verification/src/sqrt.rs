//! `FSQRT` computed exactly in integer arithmetic: the significand is
//! scaled to a wide even-exponent form, its integer square root gives
//! the result digits with three extra bits, and the remainder drives
//! rounding and the inexact flag. Square roots of positive values
//! never overflow or underflow, so the only flag is `NX` (or `NV` for
//! NaN and negative operands).
use vstd::prelude::*;
use crate::float::F32_CNAN;
use crate::float::F64_CNAN;
use crate::float::FFLAG_NV;
use crate::float::FFLAG_NX;
use crate::float::is_nan32_spec;
use crate::float::is_nan64_spec;
use crate::float::is_snan32_spec;
use crate::float::is_snan64_spec;

verus! {

broadcast use crate::bits::lemma_u64_and_le, crate::bits::lemma_u64_shr_le;

/// `r` is the integer square root of `x`.
pub open spec fn is_isqrt(x: int, r: int) -> bool {
    0 <= r && r * r <= x && x < (r + 1) * (r + 1)
}

pub open spec fn isqrt_spec(x: int) -> int {
    choose|r: int| is_isqrt(x, r)
}

proof fn lemma_square_le(a: int, b: int)
    by (nonlinear_arith)
    requires
        0 <= a <= b,
    ensures
        a * a <= b * b,
{
}

/// The integer square root is unique.
pub proof fn lemma_isqrt_unique(x: int, r1: int, r2: int)
    requires
        is_isqrt(x, r1),
        is_isqrt(x, r2),
    ensures
        r1 == r2,
{
    if r1 < r2 {
        lemma_square_le(r1 + 1, r2);
        assert(false);
    }
    if r2 < r1 {
        lemma_square_le(r2 + 1, r1);
        assert(false);
    }
}

/// Binary search for the integer square root of a value below `2^114`.
fn isqrt128(x: u128) -> (r: u128)
    requires
        x < 0x4_0000_0000_0000_0000_0000_0000_0000,
    ensures
        r <= 0x200_0000_0000_0000,
        is_isqrt(x as int, r as int),
{
    let mut lo: u128 = 0;
    let mut hi: u128 = 0x200_0000_0000_0000;
    while lo + 1 < hi
        invariant
            lo < hi <= 0x200_0000_0000_0000,
            lo * lo <= x,
            x < hi * hi,
        decreases hi - lo,
    {
        let mid = lo + (hi - lo) / 2;
        proof {
            assert((mid as int) * (mid as int) <= 0x200_0000_0000_0000 * 0x200_0000_0000_0000) by (
            nonlinear_arith)
                requires
                    0 <= mid as int <= 0x200_0000_0000_0000,
            ;
        }
        let sq = mid * mid;
        if sq <= x {
            lo = mid;
        } else {
            hi = mid;
        }
    }
    lo
}

/// Repeatedly double a positive significand until it reaches `t`,
/// lowering the exponent in step.
pub open spec fn fsqrt_norm_spec(mm: int, eb: int, t: int) -> (int, int)
    decreases (if 0 < mm < t {
        t - mm
    } else {
        0
    }),
{
    if 0 < mm < t && eb > 0 {
        fsqrt_norm_spec(mm * 2, eb - 1, t)
    } else {
        (mm, eb)
    }
}

/// Whether rounding rounds the magnitude up, given the mode, the three
/// extra result bits, the sticky remainder and the low result bit.
pub open spec fn sqrt_round_up_spec(rm: u8, rb: u64, sticky: bool, low_odd: bool) -> bool {
    if rm == 0 {
        rb > 4 || (rb == 4 && (sticky || low_odd))
    } else if rm == 3 {
        rb != 0 || sticky
    } else if rm == 4 {
        rb >= 4
    } else {
        false
    }
}

/// The square root of a positive finite nonzero binary32 value:
/// result bits and exception flags.
pub open spec fn fsqrt32_pos_spec(a: u32, rm: u8) -> (u32, u64) {
    let exp = ((a >> 23) & 0xff) as u64;
    let man = (a & 0x7fffff) as u64;
    let m = if exp == 0 {
        man
    } else {
        (man + 0x800000) as u64
    };
    let eb0 = if exp == 0 {
        251u64
    } else {
        (exp + 250) as u64
    };
    let nrm = fsqrt_norm_spec(m as int, eb0 as int, 0x10_0000_0000_0000);
    let mm1 = nrm.0 as u64;
    let eb1 = nrm.1 as u64;
    let mm = if eb1 % 2 == 1 {
        (mm1 * 2) as u64
    } else {
        mm1
    };
    let eb = if eb1 % 2 == 1 {
        (eb1 - 1) as u64
    } else {
        eb1
    };
    let r = isqrt_spec(mm as int) as u64;
    let m24 = r >> 3;
    let rb = r & 7;
    let sticky = r as int * r as int != mm as int;
    let inexact = rb != 0 || sticky;
    let up = sqrt_round_up_spec(rm, rb, sticky, m24 & 1 == 1);
    let sig = if up {
        (m24 + 1) as u64
    } else {
        m24
    };
    let base = eb / 2;
    let expo = if sig == 0x100_0000 {
        if base >= 47 {
            (base - 47 + 1) as u64
        } else {
            1u64
        }
    } else {
        if base >= 47 {
            (base - 47) as u64
        } else {
            0u64
        }
    };
    let sigf = if sig == 0x100_0000 {
        0x80_0000u64
    } else {
        sig
    };
    ((((expo << 23) | (sigf & 0x7fffff)) & 0xffff_ffff) as u32, (if inexact {
        FFLAG_NX
    } else {
        0u64
    }))
}

/// `FSQRT.S` on bit patterns: NaN operands give the canonical NaN
/// (`NV` when signaling), negative nonzero operands give the canonical
/// NaN with `NV`, zeroes and positive infinity pass through exactly.
pub open spec fn fsqrt32_spec(a: u32, rm: u8) -> (u32, u64) {
    if is_nan32_spec(a) {
        (F32_CNAN, if is_snan32_spec(a) {
            FFLAG_NV
        } else {
            0u64
        })
    } else if a == 0 || a == 0x8000_0000 {
        (a, 0u64)
    } else if a >> 31 == 1 {
        (F32_CNAN, FFLAG_NV)
    } else if a == 0x7f80_0000 {
        (a, 0u64)
    } else {
        fsqrt32_pos_spec(a, rm)
    }
}

pub open spec fn fsqrt64_pos_spec(a: u64, rm: u8) -> (u64, u64) {
    let exp = (a >> 52) & 0x7ff;
    let man = a & 0xf_ffff_ffff_ffff;
    let m = if exp == 0 {
        man
    } else {
        (man + 0x10_0000_0000_0000) as u64
    };
    let eb0 = if exp == 0 {
        926u64
    } else {
        (exp + 925) as u64
    };
    let nrm = fsqrt_norm_spec(m as int, eb0 as int, 0x4000_0000_0000_0000_0000_0000_0000);
    let mm1 = nrm.0;
    let eb1 = nrm.1 as u64;
    let mm = if eb1 % 2 == 1 {
        mm1 * 2
    } else {
        mm1
    };
    let eb = if eb1 % 2 == 1 {
        (eb1 - 1) as u64
    } else {
        eb1
    };
    let r = isqrt_spec(mm) as u64;
    let m53 = r >> 3;
    let rb = r & 7;
    let sticky = r as int * r as int != mm;
    let inexact = rb != 0 || sticky;
    let up = sqrt_round_up_spec(rm, rb, sticky, m53 & 1 == 1);
    let sig = if up {
        (m53 + 1) as u64
    } else {
        m53
    };
    let expo = if sig == 0x20_0000_0000_0000 {
        (eb / 2 + 78 + 1) as u64
    } else {
        (eb / 2 + 78) as u64
    };
    let sigf = if sig == 0x20_0000_0000_0000 {
        0x10_0000_0000_0000u64
    } else {
        sig
    };
    ((expo << 52) | (sigf & 0xf_ffff_ffff_ffff), (if inexact {
        FFLAG_NX
    } else {
        0u64
    }))
}

pub open spec fn fsqrt64_spec(a: u64, rm: u8) -> (u64, u64) {
    if is_nan64_spec(a) {
        (F64_CNAN, if is_snan64_spec(a) {
            FFLAG_NV
        } else {
            0u64
        })
    } else if a == 0 || a == 0x8000_0000_0000_0000 {
        (a, 0u64)
    } else if a >> 63 == 1 {
        (F64_CNAN, FFLAG_NV)
    } else if a == 0x7ff0_0000_0000_0000 {
        (a, 0u64)
    } else {
        fsqrt64_pos_spec(a, rm)
    }
}

/// Correctly rounded `FSQRT.S`: result bits and exception flags.
pub fn fsqrt32(a: u32, rm: u8) -> (r: (u32, u64))
    ensures
        r == fsqrt32_spec(a, rm),
{
    let exp32 = (a >> 23) & 0xff;
    let man32 = a & 0x7fffff;
    if exp32 == 0xff && man32 != 0 {
        let nv = if a & 0x400000 == 0 {
            FFLAG_NV
        } else {
            0u64
        };
        return (F32_CNAN, nv);
    }
    if a == 0 || a == 0x8000_0000 {
        return (a, 0);
    }
    if a >> 31 == 1 {
        return (F32_CNAN, FFLAG_NV);
    }
    if a == 0x7f80_0000 {
        return (a, 0);
    }
    let exp = exp32 as u64;
    let man = man32 as u64;
    let m: u64 = if exp == 0 {
        man
    } else {
        man + 0x800000
    };
    let eb0: u64 = if exp == 0 {
        251
    } else {
        exp + 250
    };
    let mut mm1: u64 = m;
    let mut eb1: u64 = eb0;
    while 0 < mm1 && mm1 < 0x10_0000_0000_0000 && eb1 > 0
        invariant
            mm1 < 0x20_0000_0000_0000,
            eb1 <= eb0 <= 505,
            fsqrt_norm_spec(m as int, eb0 as int, 0x10_0000_0000_0000) == fsqrt_norm_spec(
                mm1 as int,
                eb1 as int,
                0x10_0000_0000_0000,
            ),
        decreases eb1,
    {
        mm1 = mm1 * 2;
        eb1 = eb1 - 1;
    }
    let mm: u64 = if eb1 % 2 == 1 {
        mm1 * 2
    } else {
        mm1
    };
    let eb: u64 = if eb1 % 2 == 1 {
        eb1 - 1
    } else {
        eb1
    };
    let rq = isqrt128(mm as u128);
    let r64 = rq as u64;
    proof {
        assert(is_isqrt(mm as int, rq as int));
        lemma_isqrt_unique(mm as int, rq as int, isqrt_spec(mm as int));
    }
    let m24 = r64 >> 3u64;
    let rb = r64 & 7;
    let sticky = rq * rq != mm as u128;
    let inexact = rb != 0 || sticky;
    let up = if rm == 0 {
        rb > 4 || (rb == 4 && (sticky || m24 & 1 == 1))
    } else if rm == 3 {
        inexact
    } else if rm == 4 {
        rb >= 4
    } else {
        false
    };
    let sig: u64 = if up {
        m24 + 1
    } else {
        m24
    };
    let base = eb / 2;
    let expo: u64 = if sig == 0x100_0000 {
        if base >= 47 {
            base - 47 + 1
        } else {
            1
        }
    } else {
        if base >= 47 {
            base - 47
        } else {
            0
        }
    };
    let sigf: u64 = if sig == 0x100_0000 {
        0x80_0000
    } else {
        sig
    };
    let bits = (((expo << 23u64) | (sigf & 0x7fffff)) & 0xffff_ffff) as u32;
    let fl = if inexact {
        FFLAG_NX
    } else {
        0u64
    };
    (bits, fl)
}

/// Correctly rounded `FSQRT.D`: result bits and exception flags.
pub fn fsqrt64(a: u64, rm: u8) -> (r: (u64, u64))
    ensures
        r == fsqrt64_spec(a, rm),
{
    let exp11 = (a >> 52) & 0x7ff;
    let man52 = a & 0xf_ffff_ffff_ffff;
    if exp11 == 0x7ff && man52 != 0 {
        let nv = if a & 0x8_0000_0000_0000 == 0 {
            FFLAG_NV
        } else {
            0u64
        };
        return (F64_CNAN, nv);
    }
    if a == 0 || a == 0x8000_0000_0000_0000 {
        return (a, 0);
    }
    if a >> 63 == 1 {
        return (F64_CNAN, FFLAG_NV);
    }
    if a == 0x7ff0_0000_0000_0000 {
        return (a, 0);
    }
    let m: u128 = if exp11 == 0 {
        man52 as u128
    } else {
        (man52 + 0x10_0000_0000_0000) as u128
    };
    let eb0: u64 = if exp11 == 0 {
        926
    } else {
        exp11 + 925
    };
    let mut mm1: u128 = m;
    let mut eb1: u64 = eb0;
    while 0 < mm1 && mm1 < 0x4000_0000_0000_0000_0000_0000_0000 && eb1 > 0
        invariant
            mm1 < 0x8000_0000_0000_0000_0000_0000_0000,
            eb1 <= eb0 <= 2972,
            fsqrt_norm_spec(m as int, eb0 as int, 0x4000_0000_0000_0000_0000_0000_0000)
                == fsqrt_norm_spec(mm1 as int, eb1 as int, 0x4000_0000_0000_0000_0000_0000_0000),
        decreases eb1,
    {
        mm1 = mm1 * 2;
        eb1 = eb1 - 1;
    }
    let mm: u128 = if eb1 % 2 == 1 {
        mm1 * 2
    } else {
        mm1
    };
    let eb: u64 = if eb1 % 2 == 1 {
        eb1 - 1
    } else {
        eb1
    };
    let rq = isqrt128(mm);
    let r64 = rq as u64;
    proof {
        assert(is_isqrt(mm as int, rq as int));
        lemma_isqrt_unique(mm as int, rq as int, isqrt_spec(mm as int));
    }
    let m53 = r64 >> 3u64;
    let rb = r64 & 7;
    let sticky = rq * rq != mm;
    let inexact = rb != 0 || sticky;
    let up = if rm == 0 {
        rb > 4 || (rb == 4 && (sticky || m53 & 1 == 1))
    } else if rm == 3 {
        inexact
    } else if rm == 4 {
        rb >= 4
    } else {
        false
    };
    let sig: u64 = if up {
        m53 + 1
    } else {
        m53
    };
    let base = eb / 2;
    let expo: u64 = if sig == 0x20_0000_0000_0000 {
        base + 78 + 1
    } else {
        base + 78
    };
    let sigf: u64 = if sig == 0x20_0000_0000_0000 {
        0x10_0000_0000_0000
    } else {
        sig
    };
    let bits = (expo << 52u64) | (sigf & 0xf_ffff_ffff_ffff);
    let fl = if inexact {
        FFLAG_NX
    } else {
        0u64
    };
    (bits, fl)
}

} // verus!
