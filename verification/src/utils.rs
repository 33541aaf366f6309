//! Rounding to a multiple of a power of two.

use vstd::prelude::*;

verus! {

/// `k` has exactly one bit set.
pub open spec fn is_pow2(k: u64) -> bool {
    k != 0 && k & ((k - 1) as u64) == 0
}

/// The low bits of `x` below the power of two `k` are all clear, so `x` is a
/// multiple of `k`.
pub open spec fn is_aligned(x: u64, k: u64) -> bool {
    x & ((k - 1) as u64) == 0
}

/// `x` with the bits below the power of two `k` cleared.
pub open spec fn clear_low(x: u64, k: u64) -> u64 {
    x & !((k - 1) as u64)
}

proof fn lemma_clear_low(x: u64, k: u64)
    by (bit_vector)
    requires
        k != 0,
        k & ((k - 1) as u64) == 0,
    ensures
        x & !((k - 1) as u64) <= x,
        x - (x & !((k - 1) as u64)) < k,
        (x & !((k - 1) as u64)) & ((k - 1) as u64) == 0,
        x & ((k - 1) as u64) == 0 ==> x & !((k - 1) as u64) == x,
{
}

/// Rounds `x` down to a multiple of the power of two `k`: the result is the
/// one aligned value in `(x - k, x]`.
pub fn round_down(x: u64, k: u64) -> (r: u64)
    requires
        is_pow2(k),
    ensures
        r == clear_low(x, k),
        is_aligned(r, k),
        r <= x < r + k,
        is_aligned(x, k) ==> r == x,
{
    proof {
        lemma_clear_low(x, k);
    }
    x & !(k - 1)
}

/// Rounds `x` up to a multiple of the power of two `k`: the result is the one
/// aligned value in `[x, x + k)`.
pub fn round_up(x: u64, k: u64) -> (r: u64)
    requires
        is_pow2(k),
        x + k - 1 <= u64::MAX,
    ensures
        r == clear_low((x + k - 1) as u64, k),
        is_aligned(r, k),
        x <= r < x + k,
{
    let y: u64 = x + (k - 1);
    proof {
        lemma_clear_low(y, k);
    }
    y & !(k - 1)
}

} // verus!
