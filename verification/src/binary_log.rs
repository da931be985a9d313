//! The binary logarithm and the powers of two, as far as sector sizes need
//! them.

use vstd::prelude::*;
use vstd::arithmetic::power2::pow2;
use vstd::arithmetic::power2::lemma2_to64;
use vstd::arithmetic::power2::lemma2_to64_rest;
use vstd::arithmetic::power2::lemma_pow2_pos;
use vstd::arithmetic::power2::lemma_pow2_strictly_increases;
use vstd::arithmetic::power2::lemma_pow2_unfold;

verus! {

/// The number of times `n` can be halved before it drops below 2: the floor
/// of its binary logarithm.
pub open spec fn log2(n: nat) -> nat
    decreases n,
{
    if n < 2 {
        0
    } else {
        1 + log2(n / 2)
    }
}

/// Whether `n` is a power of two.
pub open spec fn is_power_of_two(n: nat) -> bool
    decreases n,
{
    n == 1 || (n >= 2 && n % 2 == 0 && is_power_of_two(n / 2))
}

/// A power of two is 2 to the power of its binary logarithm.
pub proof fn lemma_power_of_two_is_pow2_of_log2(n: nat)
    requires
        is_power_of_two(n),
    ensures
        pow2(log2(n)) == n,
    decreases n,
{
    if n == 1 {
        lemma2_to64();
    } else {
        lemma_power_of_two_is_pow2_of_log2(n / 2);
        lemma_pow2_unfold(log2(n));
    }
}

/// The logarithm of `2^k` is `k`, and `2^k` is a power of two.
pub proof fn lemma_log2_of_pow2(k: nat)
    ensures
        log2(pow2(k)) == k,
        is_power_of_two(pow2(k)),
    decreases k,
{
    if k == 0 {
        lemma2_to64();
    } else {
        lemma_pow2_unfold(k);
        lemma_pow2_pos((k - 1) as nat);
        lemma_log2_of_pow2((k - 1) as nat);
        assert(pow2(k) / 2 == pow2((k - 1) as nat));
    }
}

/// A number below `2^k` has a logarithm below `k`.
pub proof fn lemma_log2_below(n: nat, k: nat)
    requires
        k >= 1,
        n < pow2(k),
    ensures
        log2(n) < k,
    decreases k,
{
    if n >= 2 {
        lemma_pow2_unfold(k);
        if k == 1 {
            lemma2_to64();
        } else {
            lemma_log2_below(n / 2, (k - 1) as nat);
        }
    }
}

/// A number of at least 32 has a logarithm of at least 5.
pub proof fn lemma_log2_at_least_five(n: nat)
    requires
        n >= 32,
    ensures
        log2(n) >= 5,
{
    reveal_with_fuel(log2, 6);
}

/// Two powers of two are equal only if their exponents are.
pub proof fn lemma_pow2_injective(a: nat, b: nat)
    ensures
        pow2(a) == pow2(b) <==> a == b,
{
    if a < b {
        lemma_pow2_strictly_increases(a, b);
    }
    if b < a {
        lemma_pow2_strictly_increases(b, a);
    }
}

/// The floor of the binary logarithm of `n`.
pub fn floor_log2(n: u64) -> (log: u32)
    ensures
        log == log2(n as nat),
        log < 64,
{
    proof {
        lemma2_to64();
        lemma2_to64_rest();
        lemma_log2_below(n as nat, 64);
    }
    let mut rest: u64 = n;
    let mut log: u32 = 0;
    while rest >= 2
        invariant
            log2(n as nat) == log + log2(rest as nat),
            log + log2(rest as nat) < 64,
        decreases rest,
    {
        rest = rest / 2;
        log = log + 1;
    }
    log
}

/// Tells whether `n` is a power of two.
pub fn power_of_two(n: u64) -> (yes: bool)
    ensures
        yes == is_power_of_two(n as nat),
{
    let mut rest: u64 = n;
    while rest >= 2 && rest % 2 == 0
        invariant
            is_power_of_two(n as nat) == is_power_of_two(rest as nat),
        decreases rest,
    {
        rest = rest / 2;
    }
    rest == 1
}

} // verus!
