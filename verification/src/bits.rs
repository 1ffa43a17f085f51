//! Small ambient facts about masking and shifting that the decoder and
//! the CSR file lean on throughout.
use vstd::prelude::*;

verus! {

/// A masked value never exceeds the mask.
pub broadcast proof fn lemma_u64_and_le(a: u64, m: u64)
    by (bit_vector)
    ensures
        #[trigger] (a & m) <= m,
{
}

/// A masked value never exceeds the mask.
pub broadcast proof fn lemma_u32_and_le(a: u32, m: u32)
    by (bit_vector)
    ensures
        #[trigger] (a & m) <= m,
{
}

/// Masking with 4095 keeps a 12-bit value as it is.
pub broadcast proof fn lemma_u64_and4095_id(a: u64)
    by (bit_vector)
    ensures
        a < 4096 ==> #[trigger] (a & 4095) == a,
{
}

/// A shifted 32-bit value is bounded by what the shift leaves.
pub broadcast proof fn lemma_u32_shr_bound(a: u32, s: u32)
    by (bit_vector)
    ensures
        s >= 20 ==> #[trigger] (a >> s) < 4096,
        s >= 25 ==> (a >> s) < 128,
        s >= 27 ==> (a >> s) < 32,
{
}

/// For a 12-bit CSR address, the two top address bits are `0b11`
/// exactly when the address is at or above `0xc00`: the read-only
/// quadrant.
pub broadcast proof fn lemma_u64_ro_quadrant(a: u64)
    by (bit_vector)
    ensures
        a < 4096 ==> ((#[trigger] (a >> 10)) == 3 <==> a >= 0xc00),
{
}

/// Shifting right never increases a value.
pub broadcast proof fn lemma_u64_shr_le(a: u64, s: u64)
    by (bit_vector)
    ensures
        #[trigger] (a >> s) <= a,
{
}

/// Shifting right never increases a value.
pub broadcast proof fn lemma_u32_shr_le(a: u32, s: u32)
    by (bit_vector)
    ensures
        #[trigger] (a >> s) <= a,
{
}

} // verus!
