//! The price of a bin of a DLMM pool.
//!
//! Bin `id` of a pool with bin step `s` has the price `(1 + s / 10000)^id`,
//! as a fixed-point number with 64 fractional bits. The power is taken by
//! repeated squaring on numbers below one, so that no product leaves 128
//! bits: a base of one or more is inverted first and the result inverted
//! back.

use vstd::prelude::*;
use crate::error::ZapError;

verus! {

/// The number of fractional bits.
pub const SCALE_OFFSET: u32 = 64;

/// One, as a fixed-point number.
pub const ONE: u128 = 0x1_0000_0000_0000_0000;

/// One hundred percent in basis points.
pub const BASIS_POINT_MAX: u128 = 10_000;

/// Exponents of this magnitude or more are refused: nineteen bits of
/// exponent cover every price that 128 bits can hold.
pub const MAX_EXPONENTIAL: u32 = 0x80000;

/// The number of bits of an exponent.
pub open spec fn exponent_bits() -> nat {
    19
}

/// The product of two fixed-point numbers, rounded down.
pub open spec fn mul_shift(a: nat, b: nat) -> nat {
    (a * b) / (ONE as nat)
}

/// The product of `result` with the powers of `squared_base` that the low
/// `bits` bits of `exp` select: `squared_base` to the power `exp`, times
/// `result`, each product rounded down.
pub open spec fn pow_bits(squared_base: nat, result: nat, exp: nat, bits: nat) -> nat
    decreases bits,
{
    if bits == 0 {
        result
    } else {
        let next = if exp % 2 == 1 {
            mul_shift(result, squared_base)
        } else {
            result
        };
        if bits == 1 {
            next
        } else {
            pow_bits(mul_shift(squared_base, squared_base), next, exp / 2, (bits - 1) as nat)
        }
    }
}

/// The magnitude of an exponent.
pub open spec fn magnitude(exp: i32) -> nat {
    if exp < 0 {
        (-exp) as nat
    } else {
        exp as nat
    }
}

/// `base` to the power `exp`, as fixed-point numbers; nothing for an
/// exponent that is too large and for a power that rounds to zero.
pub open spec fn pow_spec(base: u128, exp: i32) -> Option<u128> {
    if exp == 0 {
        Some(ONE)
    } else if magnitude(exp) >= MAX_EXPONENTIAL {
        None
    } else {
        let inverted = base >= ONE;
        let start = if inverted {
            (u128::MAX / base) as nat
        } else {
            base as nat
        };
        let result = pow_bits(start, ONE as nat, magnitude(exp), exponent_bits());
        if result == 0 {
            None
        } else if inverted != (exp < 0) {
            Some((u128::MAX as nat / result) as u128)
        } else {
            Some(result as u128)
        }
    }
}

/// Multiplies two fixed-point numbers of which one is below one and the
/// other at most one.
fn mul_below_one(a: u128, b: u128) -> (r: u128)
    requires
        a <= ONE,
        b < ONE,
    ensures
        r == mul_shift(a as nat, b as nat),
        r < ONE,
        r <= a,
{
    assert(a * b < 0x1_0000_0000_0000_0000 * 0x1_0000_0000_0000_0000 && a * b <= a
        * 0x1_0000_0000_0000_0000) by (nonlinear_arith)
        requires
            a <= 0x1_0000_0000_0000_0000,
            b < 0x1_0000_0000_0000_0000,
    ;
    let product: u128 = a * b;
    assert(product >> 64u32 == product / 0x1_0000_0000_0000_0000u128) by (bit_vector);
    assert(product / 0x1_0000_0000_0000_0000u128 <= a) by (nonlinear_arith)
        requires
            product <= a * 0x1_0000_0000_0000_0000,
    ;
    assert((a * b) / 0x1_0000_0000_0000_0000 < 0x1_0000_0000_0000_0000) by (nonlinear_arith)
        requires
            a * b < 0x1_0000_0000_0000_0000 * 0x1_0000_0000_0000_0000,
    ;
    product >> 64
}

/// Raises a fixed-point number to an integer power. It returns nothing for
/// an exponent of magnitude `MAX_EXPONENTIAL` or more and for a power that
/// rounds to zero.
pub fn pow(base: u128, exp: i32) -> (r: Option<u128>)
    ensures
        r == pow_spec(base, exp),
{
    if exp == 0 {
        return Some(ONE);
    }
    let mut invert = exp < 0;
    let wide: i64 = exp as i64;
    let exp_abs: u32 = if invert {
        (-wide) as u32
    } else {
        wide as u32
    };
    if exp_abs >= MAX_EXPONENTIAL {
        return None;
    }
    let mut squared_base = base;
    let mut result = ONE;
    if squared_base >= result {
        assert(u128::MAX / base < 0x1_0000_0000_0000_0000) by (nonlinear_arith)
            requires
                base >= 0x1_0000_0000_0000_0000,
                u128::MAX == 0xffff_ffff_ffff_ffff_ffff_ffff_ffff_ffff,
        ;
        squared_base = u128::MAX / squared_base;
        invert = !invert;
    }
    let ghost start = squared_base;
    let mut e: u32 = exp_abs;
    let mut bit: u32 = 0;
    while bit < 19
        invariant
            bit <= 19,
            squared_base < ONE,
            result <= ONE,
            pow_bits(squared_base as nat, result as nat, e as nat, (19 - bit) as nat) == pow_bits(
                start as nat,
                ONE as nat,
                exp_abs as nat,
                19,
            ),
        decreases 19 - bit,
    {
        if e % 2 == 1 {
            result = mul_below_one(result, squared_base);
        }
        e = e / 2;
        bit += 1;
        if bit < 19 {
            squared_base = mul_below_one(squared_base, squared_base);
        }
    }
    if result == 0 {
        return None;
    }
    if invert {
        result = u128::MAX / result;
    }
    Some(result)
}

/// The base of the prices of a pool with this bin step: one plus the bin
/// step in basis points.
pub open spec fn price_base_factor_spec(bin_step: u16) -> u128 {
    (ONE + (bin_step as nat * ONE as nat) / BASIS_POINT_MAX as nat) as u128
}

/// Computes the base of the prices of a pool with this bin step.
pub fn get_price_base_factor(bin_step: u16) -> (r: Result<u128, ZapError>)
    ensures
        r == Ok::<u128, ZapError>(price_base_factor_spec(bin_step)),
        r.unwrap() >= ONE,
{
    let step = bin_step as u128;
    assert(step << 64u32 == step * 0x1_0000_0000_0000_0000u128) by (bit_vector)
        requires
            step <= 0xffffu128,
    ;
    let bps: u128 = (step << 64) / BASIS_POINT_MAX;
    Ok(ONE + bps)
}

/// The price of bin `active_id` of a pool with this bin step, if 128 bits
/// hold it.
pub open spec fn price_from_id_spec(active_id: i32, bin_step: u16) -> Option<u128> {
    pow_spec(price_base_factor_spec(bin_step), active_id)
}

/// Computes the price of a bin; fails with `MathOverflow` where 128 bits
/// do not hold it.
pub fn get_price_from_id(active_id: i32, bin_step: u16) -> (r: Result<u128, ZapError>)
    ensures
        r == match price_from_id_spec(active_id, bin_step) {
            Some(price) => Ok::<u128, ZapError>(price),
            None => Err::<u128, ZapError>(ZapError::MathOverflow),
        },
{
    let base = get_price_base_factor(bin_step)?;
    match pow(base, active_id) {
        Some(price) => Ok(price),
        None => Err(ZapError::MathOverflow),
    }
}

} // verus!
