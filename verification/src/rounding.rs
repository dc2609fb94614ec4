//! Division that rounds up, and the powers of two that bound the integers.

use vstd::prelude::*;
use vstd::arithmetic::power2::{lemma2_to64, lemma_pow2_adds, lemma_pow2_strictly_increases, pow2};

verus! {

/// The quotient of `n` by `d` rounded up; `d` is positive.
pub open spec fn ceil_div(n: nat, d: nat) -> nat {
    ((n + d - 1) / (d as int)) as nat
}

/// Rounding up gives the least number whose product with the divisor
/// reaches the numerator: a number is at least the rounded quotient exactly
/// when its product with the divisor is at least the numerator.
pub proof fn lemma_ceil_div(n: nat, d: nat, x: nat)
    requires
        d > 0,
    ensures
        ceil_div(n, d) <= x <==> n <= x * d,
{
    let q = ceil_div(n, d);
    assert(q * d >= n && (q == 0 ==> n == 0) && (q > 0 ==> (q - 1) * d < n)) by (nonlinear_arith)
        requires
            d > 0,
            q == ((n + d - 1) / (d as int)) as nat,
    ;
    if q <= x {
        assert(q * d <= x * d) by (nonlinear_arith)
            requires
                q <= x,
        ;
    } else {
        assert((q - 1) * d >= x * d) by (nonlinear_arith)
            requires
                q - 1 >= x,
                d > 0,
        ;
    }
}

/// Rounding down gives the greatest number whose product with the divisor
/// stays within the numerator.
pub proof fn lemma_floor_div(n: nat, d: nat, x: nat)
    requires
        d > 0,
    ensures
        x <= n / d <==> x * d <= n,
{
    let q = n / d;
    assert(q * d <= n && (q + 1) * d > n) by (nonlinear_arith)
        requires
            d > 0,
            q == n / d,
    ;
    if x <= q {
        assert(x * d <= q * d) by (nonlinear_arith)
            requires
                x <= q,
        ;
    } else {
        assert(x * d >= (q + 1) * d) by (nonlinear_arith)
            requires
                x >= q + 1,
                d > 0,
        ;
    }
}

/// A quotient never falls when the numerator grows and the divisor
/// shrinks.
pub proof fn lemma_quotient_monotone(n_small: nat, d_great: nat, n_great: nat, d_small: nat)
    requires
        n_small <= n_great,
        0 < d_small <= d_great,
    ensures
        n_small / d_great <= n_great / d_small,
{
    let q = n_small / d_great;
    lemma_floor_div(n_small, d_great, q);
    assert(q * d_small <= q * d_great) by (nonlinear_arith)
        requires
            d_small <= d_great,
    ;
    lemma_floor_div(n_great, d_small, q);
}

/// A quotient rounded up never falls when the numerator grows and the
/// divisor shrinks.
pub proof fn lemma_ceil_quotient_monotone(n_small: nat, d_great: nat, n_great: nat, d_small: nat)
    requires
        n_small <= n_great,
        0 < d_small <= d_great,
    ensures
        ceil_div(n_small, d_great) <= ceil_div(n_great, d_small),
{
    let q = ceil_div(n_great, d_small);
    lemma_ceil_div(n_great, d_small, q);
    assert(q * d_small <= q * d_great) by (nonlinear_arith)
        requires
            d_small <= d_great,
    ;
    lemma_ceil_div(n_small, d_great, q);
}

/// The powers of two at the widths of the machine integers and of the wide
/// integers, and their order.
pub proof fn lemma_widths()
    ensures
        pow2(64) == 0x1_0000_0000_0000_0000,
        pow2(128) == 0x1_0000_0000_0000_0000_0000_0000_0000_0000nat,
        pow2(192) == pow2(64) * pow2(128),
        pow2(256) == pow2(128) * pow2(128),
        pow2(320) == pow2(64) * pow2(256),
        pow2(128) < pow2(192) < pow2(256) < pow2(320) < pow2(512),
{
    lemma2_to64();
    lemma_pow2_adds(64, 64);
    lemma_pow2_adds(64, 128);
    lemma_pow2_adds(128, 128);
    lemma_pow2_adds(64, 256);
    lemma_pow2_strictly_increases(128, 192);
    lemma_pow2_strictly_increases(192, 256);
    lemma_pow2_strictly_increases(256, 320);
    lemma_pow2_strictly_increases(320, 512);
}

} // verus!
