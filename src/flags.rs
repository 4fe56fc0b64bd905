//! The per-request flag word of the native allocator's sized entry points.
use vstd::prelude::*;
use vstd::arithmetic::power2::{pow2, lemma_pow2_unfold, lemma2_to64};
use crate::layout::{log2, power_of_two};

verus! {

/// The flag bit that asks the allocator to zero-fill the memory it returns.
pub const MALLOCX_ZERO: i32 = 0x40;

/// A power of two is two raised to its logarithm.
pub proof fn lemma_pow2_log2(n: int)
    requires
        power_of_two(n),
    ensures
        pow2(log2(n)) == n,
    decreases n,
{
    if n > 1 {
        lemma_pow2_log2(n / 2);
        lemma_pow2_unfold(log2(n));
    } else {
        lemma2_to64();
    }
}

/// Below `2^k` the logarithm is below `k`.
pub proof fn lemma_log2_below(n: int, k: nat)
    requires
        1 <= n < pow2(k),
    ensures
        log2(n) < k,
    decreases n,
{
    lemma2_to64();
    if k > 0 {
        lemma_pow2_unfold(k);
        if n > 1 {
            lemma_log2_below(n / 2, (k - 1) as nat);
        }
    }
}

/// Every alignment that fits a `usize` has a logarithm below 64.
pub proof fn lemma_log2_usize(n: usize)
    requires
        n >= 1,
    ensures
        log2(n as int) < 64,
{
    lemma2_to64();
    lemma_log2_below(n as int, 64);
}

/// The flag bits that ask for alignment `align`: its base-two logarithm.
pub fn mallocx_align(align: usize) -> (r: i32)
    requires
        power_of_two(align as int),
    ensures
        r == log2(align as int),
        0 <= r < 64,
        pow2(r as nat) == align,
{
    proof {
        lemma_log2_usize(align);
        lemma_pow2_log2(align as int);
    }
    let mut m: usize = align;
    let mut lg: i32 = 0;
    while m > 1
        invariant
            m >= 1,
            power_of_two(m as int),
            log2(align as int) < 64,
            0 <= lg,
            lg + log2(m as int) == log2(align as int),
        decreases m,
    {
        m = m / 2;
        lg = lg + 1;
    }
    lg
}

/// The flag word for alignment `align`, with the zero-fill bit where `zero`.
pub open spec fn flags_of(align: int, zero: bool) -> int {
    log2(align) + if zero {
        MALLOCX_ZERO as int
    } else {
        0
    }
}

/// Composes the flag word of a request: the alignment's logarithm in the low
/// bits, and the zero-fill bit where `zero` asks for it.
pub fn mallocx_flags(align: usize, zero: bool) -> (r: i32)
    requires
        power_of_two(align as int),
    ensures
        r == flags_of(align as int, zero),
        r & 0x3f == log2(align as int),
        (r & MALLOCX_ZERO != 0) == zero,
{
    let lg = mallocx_align(align);
    if zero {
        let r = lg | MALLOCX_ZERO;
        assert(0 <= lg < 64 ==> (lg | 0x40) == lg + 0x40 && ((lg | 0x40) & 0x3f) == lg
            && ((lg | 0x40) & 0x40) != 0) by (bit_vector);
        r
    } else {
        assert(0 <= lg < 64 ==> (lg & 0x3f) == lg && (lg & 0x40) == 0) by (bit_vector);
        lg
    }
}

} // verus!
