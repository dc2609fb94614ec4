//! The shape of a deposit into a DLMM pool.
//!
//! A position covers the bins from `active_id + min_delta_id` to
//! `active_id + max_delta_id`. Token Y goes into the bins below the active
//! bin, token X into the bins above it, and the active bin takes one of the
//! two. The amount that bin `active_id + d` gets is linear in `d`: on the
//! side of token Y it is `y0 + delta_y * (-d)`, on the side of token X it is
//! `(x0 + delta_x * d)` times the price of the bin inverted. A strategy
//! chooses the line: level for spot, falling away from the active bin for
//! curve, rising away from it for bid-ask. The line is fitted so that the
//! amounts add up to no more than what is deposited.

use vstd::prelude::*;
use crate::error::ZapError;
use crate::price_math::{get_price_from_id, price_from_id_spec};
use crate::safe_math::{trunc_div, lemma_trunc_div_range};
use crate::wide::{two_pow, U256};

verus! {

/// How a deposit is spread over the bins.
#[derive(Debug, Clone, Copy, PartialEq, Eq, Structural)]
pub enum StrategyType {
    /// The same amount in every bin.
    Spot,
    /// Most in the bins next to the active bin.
    Curve,
    /// Most in the bins far from the active bin.
    BidAsk,
}

/// The line of a deposit, with signs.
#[derive(Debug, Clone, Copy, PartialEq, Eq, Structural)]
pub struct ParsedAddLiquidityParams {
    pub x0: i128,
    pub y0: i128,
    pub delta_x: i128,
    pub delta_y: i128,
}

/// The line of a deposit as the pool program takes it: magnitudes, and a
/// flag for each number that is negative.
#[derive(Debug, Clone, Copy, PartialEq, Eq, Structural)]
pub struct UnparsedAddLiquidityParams {
    pub x0: u64,
    pub y0: u64,
    pub delta_x: u64,
    pub delta_y: u64,
    pub bit_flag: u8,
}

/// Set where `x0` is negative.
pub const X0_NEG_FLAG: u8 = 1;

/// Set where `y0` is negative.
pub const Y0_NEG_FLAG: u8 = 2;

/// Set where `delta_x` is negative.
pub const DELTA_X_NEG_FLAG: u8 = 4;

/// Set where `delta_y` is negative.
pub const DELTA_Y_NEG_FLAG: u8 = 8;

/// The magnitude of a number, if 64 bits hold it.
pub open spec fn magnitude_spec(v: i128) -> Option<u64> {
    let m = if v < 0 {
        -v
    } else {
        v as int
    };
    if m > u64::MAX {
        None
    } else {
        Some(m as u64)
    }
}

/// The flag of a number: its bit if the number is negative, nothing otherwise.
pub open spec fn flag_of(v: i128, flag: u8) -> u8 {
    if v < 0 {
        flag
    } else {
        0
    }
}

/// Computes the magnitude of a number.
fn magnitude(v: i128) -> (r: Result<u64, ZapError>)
    ensures
        r == match magnitude_spec(v) {
            Some(m) => Ok::<u64, ZapError>(m),
            None => Err::<u64, ZapError>(ZapError::TypeCastFailed),
        },
{
    if v < 0 {
        if v < -0xffff_ffff_ffff_ffffi128 {
            Err(ZapError::TypeCastFailed)
        } else {
            Ok((-v) as u64)
        }
    } else {
        if v > 0xffff_ffff_ffff_ffffi128 {
            Err(ZapError::TypeCastFailed)
        } else {
            Ok(v as u64)
        }
    }
}

impl ParsedAddLiquidityParams {
    /// The magnitudes and the flags, if 64 bits hold every magnitude.
    pub open spec fn unparsed_spec(self) -> Option<UnparsedAddLiquidityParams> {
        match (
            magnitude_spec(self.x0),
            magnitude_spec(self.y0),
            magnitude_spec(self.delta_x),
            magnitude_spec(self.delta_y),
        ) {
            (Some(x0), Some(y0), Some(delta_x), Some(delta_y)) => Some(
                UnparsedAddLiquidityParams {
                    x0,
                    y0,
                    delta_x,
                    delta_y,
                    bit_flag: (flag_of(self.x0, X0_NEG_FLAG) + flag_of(self.y0, Y0_NEG_FLAG)
                        + flag_of(self.delta_x, DELTA_X_NEG_FLAG) + flag_of(
                        self.delta_y,
                        DELTA_Y_NEG_FLAG,
                    )) as u8,
                },
            ),
            _ => None,
        }
    }

    /// Splits each number into its magnitude and its sign. It fails with
    /// `TypeCastFailed` where a magnitude does not fit 64 bits.
    pub fn unparse(&self) -> (r: Result<UnparsedAddLiquidityParams, ZapError>)
        ensures
            r == match self.unparsed_spec() {
                Some(v) => Ok::<UnparsedAddLiquidityParams, ZapError>(v),
                None => Err::<UnparsedAddLiquidityParams, ZapError>(ZapError::TypeCastFailed),
            },
    {
        let mut bit_flag: u8 = 0;
        if self.x0 < 0 {
            bit_flag = bit_flag + X0_NEG_FLAG;
        }
        if self.y0 < 0 {
            bit_flag = bit_flag + Y0_NEG_FLAG;
        }
        if self.delta_x < 0 {
            bit_flag = bit_flag + DELTA_X_NEG_FLAG;
        }
        if self.delta_y < 0 {
            bit_flag = bit_flag + DELTA_Y_NEG_FLAG;
        }
        let x0 = magnitude(self.x0)?;
        let y0 = magnitude(self.y0)?;
        let delta_x = magnitude(self.delta_x)?;
        let delta_y = magnitude(self.delta_y)?;
        Ok(UnparsedAddLiquidityParams { x0, y0, delta_x, delta_y, bit_flag })
    }
}

/// The price of bin `active_id + delta` inverted, which is the price of
/// the bin with the opposite id; or `MathOverflow` where there is no such
/// bin or 128 bits do not hold the price.
pub open spec fn price_at_spec(active_id: i32, delta: int, bin_step: u16) -> Result<u128, ZapError> {
    let bin = active_id + delta;
    if bin <= i32::MIN || bin > i32::MAX {
        Err(ZapError::MathOverflow)
    } else {
        match price_from_id_spec((-bin) as i32, bin_step) {
            Some(price) => Ok(price),
            None => Err(ZapError::MathOverflow),
        }
    }
}

/// Computes the inverted price of bin `active_id + delta`.
fn price_at(active_id: i32, delta: i32, bin_step: u16) -> (r: Result<u128, ZapError>)
    ensures
        r == price_at_spec(active_id, delta as int, bin_step),
{
    let bin: i64 = active_id as i64 + delta as i64;
    if bin <= -0x8000_0000i64 || bin > 0x7fff_ffffi64 {
        return Err(ZapError::MathOverflow);
    }
    get_price_from_id((-bin) as i32, bin_step)
}

/// What 256 bits hold.
pub open spec fn fits_256(v: int) -> bool {
    0 <= v < two_pow(256)
}

/// The inverted prices of the bins from `active_id + m` to
/// `active_id + hi`, added to `acc`.
pub open spec fn spot_weight_spec(active_id: i32, m: int, hi: int, bin_step: u16, acc: int) -> Result<
    int,
    ZapError,
>
    decreases hi - m + 1,
{
    if m > hi {
        Ok(acc)
    } else {
        match price_at_spec(active_id, m, bin_step) {
            Err(e) => Err(e),
            Ok(price) => if !fits_256(acc + price) {
                Err(ZapError::MathOverflow)
            } else {
                spot_weight_spec(active_id, m + 1, hi, bin_step, acc + price)
            },
        }
    }
}

/// A quotient of 256-bit numbers as a signed 128-bit number.
pub open spec fn quotient_i128(numerator: nat, denominator: nat) -> Result<i128, ZapError> {
    if denominator == 0 {
        Err(ZapError::MathOverflow)
    } else if numerator / denominator > i128::MAX {
        Err(ZapError::TypeCastFailed)
    } else {
        Ok((numerator / denominator) as i128)
    }
}

/// Divides `amount * 2^64` by a weight and narrows the quotient.
fn scaled_quotient(amount: u64, weight: &U256) -> (r: Result<i128, ZapError>)
    ensures
        r == quotient_i128(amount as nat * 0x1_0000_0000_0000_0000, weight@),
{
    proof {
        crate::rounding::lemma_widths();
        assert(amount as nat * vstd::arithmetic::power2::pow2(64) < vstd::arithmetic::power2::pow2(
            64,
        ) * vstd::arithmetic::power2::pow2(128)) by (nonlinear_arith)
            requires
                amount < vstd::arithmetic::power2::pow2(64),
                vstd::arithmetic::power2::pow2(64) < vstd::arithmetic::power2::pow2(128),
        ;
    }
    let scaled = match U256::from_u64(amount).checked_shl(64) {
        Some(v) => v,
        None => {
            return Err(ZapError::MathOverflow);
        },
    };
    let quotient = match scaled.checked_div(weight) {
        Some(v) => v,
        None => {
            return Err(ZapError::MathOverflow);
        },
    };
    match quotient.to_u128() {
        Some(v) => if v > i128::MAX as u128 {
            Err(ZapError::TypeCastFailed)
        } else {
            Ok(v as i128)
        },
        None => Err(ZapError::TypeCastFailed),
    }
}

/// The level of a spot deposit of token Y: the amount divided by the
/// number of bins.
pub open spec fn spot_y_spec(amount_y: u64, min_delta_id: i32, max_delta_id: i32) -> Result<
    (i128, i128),
    ZapError,
> {
    let width = max_delta_id - min_delta_id;
    if width < i32::MIN || width > i32::MAX || width + 1 > i32::MAX {
        Err(ZapError::MathOverflow)
    } else if width + 1 < 0 {
        Err(ZapError::TypeCastFailed)
    } else if width + 1 == 0 {
        Err(ZapError::MathOverflow)
    } else {
        Ok(((amount_y as int / (width + 1)) as i128, 0))
    }
}

/// Fits a spot deposit of token Y.
pub fn spot_find_y0_and_delta_y(amount_y: u64, min_delta_id: i32, max_delta_id: i32) -> (r: Result<
    (i128, i128),
    ZapError,
>)
    ensures
        r == spot_y_spec(amount_y, min_delta_id, max_delta_id),
{
    let width = match max_delta_id.checked_sub(min_delta_id) {
        Some(v) => v,
        None => {
            return Err(ZapError::MathOverflow);
        },
    };
    let total_bin = match width.checked_add(1) {
        Some(v) => v,
        None => {
            return Err(ZapError::MathOverflow);
        },
    };
    if total_bin < 0 {
        return Err(ZapError::TypeCastFailed);
    }
    if total_bin == 0 {
        return Err(ZapError::MathOverflow);
    }
    let y0 = amount_y / (total_bin as u64);
    Ok((y0 as i128, 0))
}

/// The level of a spot deposit of token X: the amount, scaled by two to the
/// 64, divided by the sum of the inverted prices of the bins. Nothing is
/// deposited where the amount is zero or no bin lies above the active bin.
pub open spec fn spot_x_spec(
    amount_x: u64,
    min_delta_id: i32,
    max_delta_id: i32,
    bin_step: u16,
    active_id: i32,
) -> Result<(i128, i128), ZapError> {
    if amount_x == 0 || max_delta_id <= 0 {
        Ok((0, 0))
    } else if active_id + min_delta_id < i32::MIN || active_id + min_delta_id > i32::MAX
        || active_id + max_delta_id < i32::MIN || active_id + max_delta_id > i32::MAX {
        Err(ZapError::MathOverflow)
    } else {
        match spot_weight_spec(active_id, min_delta_id as int, max_delta_id as int, bin_step, 0) {
            Err(e) => Err(e),
            Ok(weight) => match quotient_i128(
                amount_x as nat * 0x1_0000_0000_0000_0000,
                weight as nat,
            ) {
                Err(e) => Err(e),
                Ok(x0) => Ok((x0, 0)),
            },
        }
    }
}

/// Fits a spot deposit of token X.
pub fn spot_find_x0_and_delta_x(
    amount_x: u64,
    min_delta_id: i32,
    max_delta_id: i32,
    bin_step: u16,
    active_id: i32,
) -> (r: Result<(i128, i128), ZapError>)
    ensures
        r == spot_x_spec(amount_x, min_delta_id, max_delta_id, bin_step, active_id),
{
    if amount_x == 0 || max_delta_id <= 0 {
        return Ok((0, 0));
    }
    if active_id.checked_add(min_delta_id).is_none() {
        return Err(ZapError::MathOverflow);
    }
    if active_id.checked_add(max_delta_id).is_none() {
        return Err(ZapError::MathOverflow);
    }
    let mut total_weight = U256::from_u64(0);
    let mut m: i64 = min_delta_id as i64;
    while m <= max_delta_id as i64
        invariant
            min_delta_id <= m,
            m <= max_delta_id + 1 || min_delta_id > max_delta_id,
            amount_x != 0,
            max_delta_id > 0,
            i32::MIN <= active_id + min_delta_id <= i32::MAX,
            i32::MIN <= active_id + max_delta_id <= i32::MAX,
            spot_weight_spec(
                active_id,
                m as int,
                max_delta_id as int,
                bin_step,
                total_weight@ as int,
            )
                == spot_weight_spec(
                active_id,
                min_delta_id as int,
                max_delta_id as int,
                bin_step,
                0,
            ),
        decreases max_delta_id - m + 1,
    {
        let base_price = price_at(active_id, m as i32, bin_step)?;
        total_weight = match total_weight.checked_add(&U256::from_u128(base_price)) {
            Some(v) => v,
            None => {
                return Err(ZapError::MathOverflow);
            },
        };
        m = m + 1;
    }
    let x0 = scaled_quotient(amount_x, &total_weight)?;
    Ok((x0, 0))
}

/// Half the product of a number with its successor, which is the sum of
/// the numbers from one to it.
pub open spec fn triangle(m: int) -> int {
    (m * (m + 1)) / 2
}

/// The weight of the line over the bins of token Y, between the distances
/// `m2` and `m1` from the active bin: the sum of the distances.
pub open spec fn distance_sum(m1: int, m2: int) -> int {
    triangle(m1) - (m2 * (m2 - 1)) / 2
}

/// The line of a curve deposit of token Y. With `m1` and `m2` the distances
/// of the far and the near end from the active bin, the line falls from
/// `y0` at the active bin to nothing at distance `m1`; `delta_y` is rounded
/// toward zero first and `y0` fitted to it, so that the amounts add up to
/// no more than `amount_y`. A single bin takes everything. There is no line
/// where the far end is the active bin or the bins have no weight.
pub open spec fn curve_y_spec(amount_y: u64, min_delta_id: i32, max_delta_id: i32) -> Result<
    (i128, i128),
    ZapError,
> {
    if min_delta_id == max_delta_id {
        Ok((amount_y as i128, 0))
    } else {
        let m1 = -(min_delta_id as int);
        let m2 = -(max_delta_id as int);
        let a = (m1 - m2 + 1) * m1 - distance_sum(m1, m2);
        if a == 0 || m1 == 0 {
            Err(ZapError::MathOverflow)
        } else {
            let y0 = trunc_div(amount_y * m1, a);
            let delta_y = -trunc_div(y0, m1);
            Ok(((-(delta_y * m1)) as i128, delta_y as i128))
        }
    }
}

/// The sum of the numbers from one to `m`, and the bounds that keep the
/// arithmetic of the lines within 128 bits.
proof fn lemma_triangle(m: int)
    requires
        -0x8000_0000 <= m <= 0x8000_0000,
    ensures
        0 <= m * (m + 1) <= 0x4000_0000_8000_0000,
        0 <= m * (m - 1) <= 0x4000_0000_8000_0000,
        0 <= triangle(m) <= 0x2000_0000_4000_0000,
        0 <= (m * (m - 1)) / 2 <= 0x2000_0000_4000_0000,
{
    assert(0 <= m * (m + 1) <= 0x4000_0000_8000_0000 && 0 <= m * (m - 1) <= 0x4000_0000_8000_0000)
        by (nonlinear_arith)
        requires
            -0x8000_0000 <= m <= 0x8000_0000,
    ;
}

/// Divides signed numbers, rounding toward zero; the divisor is not zero
/// and the quotient fits.
fn div_toward_zero(x: i128, d: i128) -> (r: i128)
    requires
        d != 0,
        x > i128::MIN,
    ensures
        r == trunc_div(x as int, d as int),
        -(if x < 0 {
            -x
        } else {
            x as int
        }) <= r <= (if x < 0 {
            -x
        } else {
            x as int
        }),
{
    proof {
        lemma_trunc_div_range(x as int, d as int, i128::MAX as int);
        lemma_trunc_magnitude(x as int, d as int);
    }
    match x.checked_div(d) {
        Some(v) => v,
        None => 0,
    }
}

/// A quotient rounded toward zero is no larger in magnitude than the
/// dividend.
pub proof fn lemma_trunc_magnitude(x: int, d: int)
    requires
        d != 0,
    ensures
        x >= 0 ==> -x <= trunc_div(x, d) <= x,
        x < 0 ==> x <= trunc_div(x, d) <= -x,
{
    let a = if x < 0 {
        x * -1
    } else {
        x
    };
    let b = if d < 0 {
        d * -1
    } else {
        d
    };
    assert(0 <= a / b <= a) by (nonlinear_arith)
        requires
            a >= 0,
            b >= 1,
    ;
}

/// Fits a curve deposit of token Y.
pub fn curve_find_y0_and_delta_y(amount_y: u64, min_delta_id: i32, max_delta_id: i32) -> (r: Result<
    (i128, i128),
    ZapError,
>)
    ensures
        r == curve_y_spec(amount_y, min_delta_id, max_delta_id),
{
    if min_delta_id == max_delta_id {
        return Ok((amount_y as i128, 0));
    }
    let m1: i128 = -(min_delta_id as i128);
    let m2: i128 = -(max_delta_id as i128);
    proof {
        lemma_triangle(m1 as int);
        lemma_triangle(m2 as int);
        assert(-0x1_0000_0001 * 0x8000_0000 <= (m1 - m2 + 1) * m1 <= 0x1_0000_0001 * 0x8000_0000)
            by (nonlinear_arith)
            requires
                -0x8000_0000 <= m1 <= 0x8000_0000,
                -0x1_0000_0001 <= m1 - m2 + 1 <= 0x1_0000_0001,
        ;
        assert(-0x1_0000_0000_0000_0000 * 0x8000_0000 <= amount_y * m1 <= 0x1_0000_0000_0000_0000
            * 0x8000_0000) by (nonlinear_arith)
            requires
                0 <= amount_y <= 0x1_0000_0000_0000_0000,
                -0x8000_0000 <= m1 <= 0x8000_0000,
        ;
    }
    let a: i128 = (m1 - m2 + 1) * m1 - ((m1 * (m1 + 1)) / 2 - (m2 * (m2 - 1)) / 2);
    if a == 0 || m1 == 0 {
        return Err(ZapError::MathOverflow);
    }
    let y0 = div_toward_zero(amount_y as i128 * m1, a);
    let step = div_toward_zero(y0, m1);
    let delta_y = -step;
    proof {
        lemma_trunc_magnitude(y0 as int, m1 as int);
        assert(-0x1_0000_0000_0000_0000 * 0x8000_0000 * 0x8000_0000 <= delta_y * m1
            <= 0x1_0000_0000_0000_0000 * 0x8000_0000 * 0x8000_0000) by (nonlinear_arith)
            requires
                -0x1_0000_0000_0000_0000 * 0x8000_0000 <= delta_y <= 0x1_0000_0000_0000_0000
                    * 0x8000_0000,
                -0x8000_0000 <= m1 <= 0x8000_0000,
        ;
    }
    let y0 = -(delta_y * m1);
    Ok((y0, delta_y))
}

/// The line of a bid-ask deposit of token Y. With `m1` and `m2` the
/// distances of the far and the near end from the active bin, the line
/// rises from nothing at distance `m2` by `delta_y` for each bin. A single
/// bin takes everything. There is no line where the bins have no weight.
pub open spec fn bid_ask_y_spec(amount_y: u64, min_delta_id: i32, max_delta_id: i32) -> Result<
    (i128, i128),
    ZapError,
> {
    if min_delta_id == max_delta_id {
        Ok((amount_y as i128, 0))
    } else {
        let m1 = -(min_delta_id as int);
        let m2 = -(max_delta_id as int);
        let a = (-m2) * (m1 - m2 + 1) + distance_sum(m1, m2);
        if a == 0 {
            Err(ZapError::MathOverflow)
        } else {
            let delta_y = trunc_div(amount_y as int, a);
            Ok((((-delta_y) * m2) as i128, delta_y as i128))
        }
    }
}

/// Fits a bid-ask deposit of token Y.
pub fn bid_ask_find_y0_and_delta_y(amount_y: u64, min_delta_id: i32, max_delta_id: i32) -> (r:
    Result<(i128, i128), ZapError>)
    ensures
        r == bid_ask_y_spec(amount_y, min_delta_id, max_delta_id),
{
    if min_delta_id == max_delta_id {
        return Ok((amount_y as i128, 0));
    }
    let m1: i128 = -(min_delta_id as i128);
    let m2: i128 = -(max_delta_id as i128);
    proof {
        lemma_triangle(m1 as int);
        lemma_triangle(m2 as int);
        assert(-0x1_0000_0001 * 0x8000_0000 <= (-m2) * (m1 - m2 + 1) <= 0x1_0000_0001 * 0x8000_0000)
            by (nonlinear_arith)
            requires
                -0x8000_0000 <= -m2 <= 0x8000_0000,
                -0x1_0000_0001 <= m1 - m2 + 1 <= 0x1_0000_0001,
        ;
    }
    let a: i128 = (-m2) * (m1 - m2 + 1) + ((m1 * (m1 + 1)) / 2 - (m2 * (m2 - 1)) / 2);
    if a == 0 {
        return Err(ZapError::MathOverflow);
    }
    let delta_y = div_toward_zero(amount_y as i128, a);
    proof {
        assert(-0x1_0000_0000_0000_0000 * 0x8000_0000 <= (-delta_y) * m2 <= 0x1_0000_0000_0000_0000
            * 0x8000_0000) by (nonlinear_arith)
            requires
                -0x1_0000_0000_0000_0000 <= -delta_y <= 0x1_0000_0000_0000_0000,
                -0x8000_0000 <= m2 <= 0x8000_0000,
        ;
    }
    let y0 = (-delta_y) * m2;
    Ok((y0, delta_y))
}

/// The two weights of a curve deposit of token X over the bins from
/// distance `m` to distance `m2`, added to `b` and `c`: `b` is the sum of
/// the inverted prices, `c` the sum of the inverted prices weighted with
/// the distance as a share of `m2`, each share rounded down. A distance
/// that is negative has no weight, and neither has a far end of zero.
pub open spec fn curve_weights_spec(
    active_id: i32,
    m: int,
    m2: int,
    bin_step: u16,
    b: int,
    c: int,
) -> Result<(int, int), ZapError>
    decreases m2 - m + 1,
{
    if m > m2 {
        Ok((b, c))
    } else {
        match price_at_spec(active_id, m, bin_step) {
            Err(e) => Err(e),
            Ok(price) => if !fits_256(b + price) {
                Err(ZapError::MathOverflow)
            } else if m < 0 {
                Err(ZapError::TypeCastFailed)
            } else if !fits_256(m * price) || m2 == 0 {
                Err(ZapError::MathOverflow)
            } else if !fits_256(c + (m * price) / m2) {
                Err(ZapError::MathOverflow)
            } else {
                curve_weights_spec(
                    active_id,
                    m + 1,
                    m2,
                    bin_step,
                    b + price,
                    c + (m * price) / m2,
                )
            },
        }
    }
}

/// The line of a curve deposit of token X: it falls from `x0` at the active
/// bin to nothing at the far end. `delta_x` is rounded toward zero first
/// and `x0` fitted to it.
pub open spec fn curve_x_spec(
    amount_x: u64,
    min_delta_id: i32,
    max_delta_id: i32,
    bin_step: u16,
    active_id: i32,
) -> Result<(i128, i128), ZapError> {
    match curve_weights_spec(active_id, min_delta_id as int, max_delta_id as int, bin_step, 0, 0) {
        Err(e) => Err(e),
        Ok((b, c)) => if b < c {
            Err(ZapError::MathOverflow)
        } else {
            match quotient_i128(amount_x as nat * 0x1_0000_0000_0000_0000, (b - c) as nat) {
                Err(e) => Err(e),
                Ok(level) => {
                    let m2 = max_delta_id as int;
                    let delta_x = if m2 != 0 {
                        trunc_div(-level, m2)
                    } else {
                        0
                    };
                    Ok(((-(delta_x * m2)) as i128, delta_x as i128))
                },
            }
        }
    }
}

/// Fits a curve deposit of token X.
pub fn curve_find_x0_and_delta_x(
    amount_x: u64,
    min_delta_id: i32,
    max_delta_id: i32,
    bin_step: u16,
    active_id: i32,
) -> (r: Result<(i128, i128), ZapError>)
    ensures
        r == curve_x_spec(amount_x, min_delta_id, max_delta_id, bin_step, active_id),
{
    let mut b = U256::from_u64(0);
    let mut c = U256::from_u64(0);
    let mut m: i64 = min_delta_id as i64;
    while m <= max_delta_id as i64
        invariant
            min_delta_id <= m,
            m <= max_delta_id + 1 || min_delta_id > max_delta_id,
            curve_weights_spec(
                active_id,
                m as int,
                max_delta_id as int,
                bin_step,
                b@ as int,
                c@ as int,
            )
                == curve_weights_spec(
                active_id,
                min_delta_id as int,
                max_delta_id as int,
                bin_step,
                0,
                0,
            ),
        decreases max_delta_id - m + 1,
    {
        let pm = U256::from_u128(price_at(active_id, m as i32, bin_step)?);
        b = match b.checked_add(&pm) {
            Some(v) => v,
            None => {
                return Err(ZapError::MathOverflow);
            },
        };
        if m < 0 {
            return Err(ZapError::TypeCastFailed);
        }
        let weighted = match U256::from_u64(m as u64).checked_mul(&pm) {
            Some(v) => v,
            None => {
                return Err(ZapError::MathOverflow);
            },
        };
        let c_delta = match weighted.checked_div(&U256::from_u64(max_delta_id as u64)) {
            Some(v) => v,
            None => {
                return Err(ZapError::MathOverflow);
            },
        };
        c = match c.checked_add(&c_delta) {
            Some(v) => v,
            None => {
                return Err(ZapError::MathOverflow);
            },
        };
        m = m + 1;
    }
    let weight = match b.checked_sub(&c) {
        Some(v) => v,
        None => {
            return Err(ZapError::MathOverflow);
        },
    };
    let level = scaled_quotient(amount_x, &weight)?;
    let m2: i128 = max_delta_id as i128;
    let delta_x: i128 = if m2 != 0 {
        div_toward_zero(-level, m2)
    } else {
        0
    };
    proof {
        if m2 != 0 {
            lemma_trunc_magnitude(-level as int, m2 as int);
        }
        assert(-0x8000_0000_0000_0000_0000_0000_0000_0000int * 0x8000_0000 <= delta_x * m2
            <= 0x8000_0000_0000_0000_0000_0000_0000_0000int * 0x8000_0000) by (nonlinear_arith)
            requires
                -0x8000_0000_0000_0000_0000_0000_0000_0000int <= delta_x
                    <= 0x8000_0000_0000_0000_0000_0000_0000_0000int,
                -0x8000_0000 <= m2 <= 0x8000_0000,
        ;
    }
    let product = match delta_x.checked_mul(m2) {
        Some(v) => v,
        None => {
            proof {
                lemma_product_of_quotient(-level as int, m2 as int);
            }
            return Err(ZapError::MathOverflow);
        },
    };
    proof {
        lemma_product_of_quotient(-level as int, m2 as int);
    }
    Ok((-product, delta_x))
}

/// A quotient rounded toward zero, multiplied back, is no larger in
/// magnitude than the dividend.
pub proof fn lemma_product_of_quotient(x: int, d: int)
    requires
        d != 0,
    ensures
        x >= 0 ==> 0 <= trunc_div(x, d) * d <= x,
        x < 0 ==> x <= trunc_div(x, d) * d <= 0,
{
    let a = if x < 0 {
        x * -1
    } else {
        x
    };
    let b = if d < 0 {
        d * -1
    } else {
        d
    };
    let q = a / b;
    assert(0 <= q * b <= a) by (nonlinear_arith)
        requires
            a >= 0,
            b >= 1,
            q == a / b,
    ;
    assert(q * b == (q * -1) * (b * -1) && (q * -1) * b == -(q * b) && q * (b * -1) == -(q * b))
        by (nonlinear_arith);
}

/// The two weights of a bid-ask deposit of token X over the bins from
/// distance `m` to distance `hi`, added to `b` and `c`: `b` is the sum of
/// the inverted prices weighted with the near distance `m1`, `c` the sum
/// weighted with each bin's own distance.
pub open spec fn bid_ask_weights_spec(
    active_id: i32,
    m1: int,
    m: int,
    hi: int,
    bin_step: u16,
    b: int,
    c: int,
) -> Result<(int, int), ZapError>
    decreases hi - m + 1,
{
    if m > hi {
        Ok((b, c))
    } else {
        match price_at_spec(active_id, m, bin_step) {
            Err(e) => Err(e),
            Ok(price) => if !fits_256(m1 * price) || !fits_256(b + m1 * price) {
                Err(ZapError::MathOverflow)
            } else if m < 0 {
                Err(ZapError::TypeCastFailed)
            } else if !fits_256(m * price) || !fits_256(c + m * price) {
                Err(ZapError::MathOverflow)
            } else {
                bid_ask_weights_spec(
                    active_id,
                    m1,
                    m + 1,
                    hi,
                    bin_step,
                    b + m1 * price,
                    c + m * price,
                )
            },
        }
    }
}

/// The line of a bid-ask deposit of token X: it rises from nothing at the
/// near end by `delta_x` for each bin. A single bin takes everything on the
/// line that rises from nothing at the active bin. The near end must not
/// lie below the active bin.
pub open spec fn bid_ask_x_spec(
    amount_x: u64,
    min_delta_id: i32,
    max_delta_id: i32,
    bin_step: u16,
    active_id: i32,
) -> Result<(i128, i128), ZapError> {
    if min_delta_id < 0 {
        Err(ZapError::TypeCastFailed)
    } else if min_delta_id == max_delta_id {
        match price_at_spec(active_id, min_delta_id as int, bin_step) {
            Err(e) => Err(e),
            Ok(price) => match quotient_i128(
                amount_x as nat * 0x1_0000_0000_0000_0000,
                (min_delta_id * price) as nat,
            ) {
                Err(e) => Err(e),
                Ok(delta_x) => Ok((0, delta_x)),
            },
        }
    } else {
        match bid_ask_weights_spec(
            active_id,
            min_delta_id as int,
            min_delta_id as int,
            max_delta_id as int,
            bin_step,
            0,
            0,
        ) {
            Err(e) => Err(e),
            Ok((b, c)) => if c < b {
                Err(ZapError::MathOverflow)
            } else {
                match quotient_i128(amount_x as nat * 0x1_0000_0000_0000_0000, (c - b) as nat) {
                    Err(e) => Err(e),
                    Ok(delta_x) => if delta_x * (-(min_delta_id as int)) < i128::MIN {
                        Err(ZapError::MathOverflow)
                    } else {
                        Ok(((delta_x * (-(min_delta_id as int))) as i128, delta_x))
                    },
                }
            }
        }
    }
}

/// Fits a bid-ask deposit of token X.
pub fn bid_ask_find_x0_and_delta_x(
    amount_x: u64,
    min_delta_id: i32,
    max_delta_id: i32,
    bin_step: u16,
    active_id: i32,
) -> (r: Result<(i128, i128), ZapError>)
    ensures
        r == bid_ask_x_spec(amount_x, min_delta_id, max_delta_id, bin_step, active_id),
{
    if min_delta_id < 0 {
        return Err(ZapError::TypeCastFailed);
    }
    let m1 = U256::from_u64(min_delta_id as u64);
    if min_delta_id == max_delta_id {
        let pm = U256::from_u128(price_at(active_id, min_delta_id, bin_step)?);
        proof {
            crate::rounding::lemma_widths();
            assert(m1@ * pm@ < vstd::arithmetic::power2::pow2(64) * vstd::arithmetic::power2::pow2(
                128,
            )) by (nonlinear_arith)
                requires
                    m1@ < vstd::arithmetic::power2::pow2(64),
                    pm@ < vstd::arithmetic::power2::pow2(128),
            ;
        }
        let weight = match m1.checked_mul(&pm) {
            Some(v) => v,
            None => {
                return Err(ZapError::MathOverflow);
            },
        };
        let delta_x = scaled_quotient(amount_x, &weight)?;
        return Ok((0, delta_x));
    }
    let mut b = U256::from_u64(0);
    let mut c = U256::from_u64(0);
    let mut m: i64 = min_delta_id as i64;
    while m <= max_delta_id as i64
        invariant
            0 <= min_delta_id <= m,
            min_delta_id != max_delta_id,
            m <= max_delta_id + 1 || min_delta_id > max_delta_id,
            m1@ == min_delta_id,
            bid_ask_weights_spec(
                active_id,
                min_delta_id as int,
                m as int,
                max_delta_id as int,
                bin_step,
                b@ as int,
                c@ as int,
            ) == bid_ask_weights_spec(
                active_id,
                min_delta_id as int,
                min_delta_id as int,
                max_delta_id as int,
                bin_step,
                0,
                0,
            ),
        decreases max_delta_id - m + 1,
    {
        let pm = U256::from_u128(price_at(active_id, m as i32, bin_step)?);
        let b_delta = match m1.checked_mul(&pm) {
            Some(v) => v,
            None => {
                return Err(ZapError::MathOverflow);
            },
        };
        b = match b.checked_add(&b_delta) {
            Some(v) => v,
            None => {
                return Err(ZapError::MathOverflow);
            },
        };
        let c_delta = match U256::from_u64(m as u64).checked_mul(&pm) {
            Some(v) => v,
            None => {
                return Err(ZapError::MathOverflow);
            },
        };
        c = match c.checked_add(&c_delta) {
            Some(v) => v,
            None => {
                return Err(ZapError::MathOverflow);
            },
        };
        m = m + 1;
    }
    let weight = match c.checked_sub(&b) {
        Some(v) => v,
        None => {
            return Err(ZapError::MathOverflow);
        },
    };
    let delta_x = scaled_quotient(amount_x, &weight)?;
    assert(delta_x * (-(min_delta_id as int)) <= 0) by (nonlinear_arith)
        requires
            delta_x >= 0,
            min_delta_id >= 0,
    ;
    let x0 = match delta_x.checked_mul(-(min_delta_id as i128)) {
        Some(v) => v,
        None => {
            return Err(ZapError::MathOverflow);
        },
    };
    Ok((x0, delta_x))
}

/// A strategy: how it fits the line on each side of the active bin.
pub trait StrategyHandler {
    /// The line on the side of token Y.
    spec fn y_line(&self, amount_y: u64, min_delta_id: i32, max_delta_id: i32) -> Result<
        (i128, i128),
        ZapError,
    >;

    /// The line on the side of token X.
    spec fn x_line(
        &self,
        amount_x: u64,
        min_delta_id: i32,
        max_delta_id: i32,
        bin_step: u16,
        active_id: i32,
    ) -> Result<(i128, i128), ZapError>;

    /// Fits `y0` and `delta_y` to a deposit of `amount_y` into the bins from
    /// `min_delta_id` to `max_delta_id`, which lie at or below the active bin.
    fn find_y0_and_delta_y(&self, amount_y: u64, min_delta_id: i32, max_delta_id: i32) -> (r:
        Result<(i128, i128), ZapError>)
        ensures
            r == self.y_line(amount_y, min_delta_id, max_delta_id),
    ;

    /// Fits `x0` and `delta_x` to a deposit of `amount_x` into the bins from
    /// `min_delta_id` to `max_delta_id`, which lie at or above the active bin.
    fn find_x0_and_delta_x(
        &self,
        amount_x: u64,
        min_delta_id: i32,
        max_delta_id: i32,
        bin_step: u16,
        active_id: i32,
    ) -> (r: Result<(i128, i128), ZapError>)
        ensures
            r == self.x_line(amount_x, min_delta_id, max_delta_id, bin_step, active_id),
    ;
}

/// The spot strategy.
#[derive(Debug, Clone, Copy, PartialEq, Eq, Structural)]
pub struct SpotHandler;

/// The curve strategy.
#[derive(Debug, Clone, Copy, PartialEq, Eq, Structural)]
pub struct CurveHandler;

/// The bid-ask strategy.
#[derive(Debug, Clone, Copy, PartialEq, Eq, Structural)]
pub struct BidAskHandler;

impl StrategyHandler for SpotHandler {
    open spec fn y_line(&self, amount_y: u64, min_delta_id: i32, max_delta_id: i32) -> Result<
        (i128, i128),
        ZapError,
    > {
        spot_y_spec(amount_y, min_delta_id, max_delta_id)
    }

    open spec fn x_line(
        &self,
        amount_x: u64,
        min_delta_id: i32,
        max_delta_id: i32,
        bin_step: u16,
        active_id: i32,
    ) -> Result<(i128, i128), ZapError> {
        spot_x_spec(amount_x, min_delta_id, max_delta_id, bin_step, active_id)
    }

    fn find_y0_and_delta_y(&self, amount_y: u64, min_delta_id: i32, max_delta_id: i32) -> (r:
        Result<(i128, i128), ZapError>) {
        spot_find_y0_and_delta_y(amount_y, min_delta_id, max_delta_id)
    }

    fn find_x0_and_delta_x(
        &self,
        amount_x: u64,
        min_delta_id: i32,
        max_delta_id: i32,
        bin_step: u16,
        active_id: i32,
    ) -> (r: Result<(i128, i128), ZapError>) {
        spot_find_x0_and_delta_x(amount_x, min_delta_id, max_delta_id, bin_step, active_id)
    }
}

impl StrategyHandler for CurveHandler {
    open spec fn y_line(&self, amount_y: u64, min_delta_id: i32, max_delta_id: i32) -> Result<
        (i128, i128),
        ZapError,
    > {
        curve_y_spec(amount_y, min_delta_id, max_delta_id)
    }

    open spec fn x_line(
        &self,
        amount_x: u64,
        min_delta_id: i32,
        max_delta_id: i32,
        bin_step: u16,
        active_id: i32,
    ) -> Result<(i128, i128), ZapError> {
        curve_x_spec(amount_x, min_delta_id, max_delta_id, bin_step, active_id)
    }

    fn find_y0_and_delta_y(&self, amount_y: u64, min_delta_id: i32, max_delta_id: i32) -> (r:
        Result<(i128, i128), ZapError>) {
        curve_find_y0_and_delta_y(amount_y, min_delta_id, max_delta_id)
    }

    fn find_x0_and_delta_x(
        &self,
        amount_x: u64,
        min_delta_id: i32,
        max_delta_id: i32,
        bin_step: u16,
        active_id: i32,
    ) -> (r: Result<(i128, i128), ZapError>) {
        curve_find_x0_and_delta_x(amount_x, min_delta_id, max_delta_id, bin_step, active_id)
    }
}

impl StrategyHandler for BidAskHandler {
    open spec fn y_line(&self, amount_y: u64, min_delta_id: i32, max_delta_id: i32) -> Result<
        (i128, i128),
        ZapError,
    > {
        bid_ask_y_spec(amount_y, min_delta_id, max_delta_id)
    }

    open spec fn x_line(
        &self,
        amount_x: u64,
        min_delta_id: i32,
        max_delta_id: i32,
        bin_step: u16,
        active_id: i32,
    ) -> Result<(i128, i128), ZapError> {
        bid_ask_x_spec(amount_x, min_delta_id, max_delta_id, bin_step, active_id)
    }

    fn find_y0_and_delta_y(&self, amount_y: u64, min_delta_id: i32, max_delta_id: i32) -> (r:
        Result<(i128, i128), ZapError>) {
        bid_ask_find_y0_and_delta_y(amount_y, min_delta_id, max_delta_id)
    }

    fn find_x0_and_delta_x(
        &self,
        amount_x: u64,
        min_delta_id: i32,
        max_delta_id: i32,
        bin_step: u16,
        active_id: i32,
    ) -> (r: Result<(i128, i128), ZapError>) {
        bid_ask_find_x0_and_delta_x(amount_x, min_delta_id, max_delta_id, bin_step, active_id)
    }
}

/// A deposit into a DLMM pool, before it is given its shape.
#[derive(Debug, Clone, Copy, PartialEq, Eq, Structural)]
pub struct ZapInRebalancingParams {
    /// What is deposited of token X.
    pub amount_x: u64,
    /// What is deposited of token Y.
    pub amount_y: u64,
    /// The first bin of the position, relative to the active bin.
    pub min_delta_id: i32,
    /// The last bin of the position, relative to the active bin.
    pub max_delta_id: i32,
    /// How the deposit is spread.
    pub strategy: StrategyType,
    /// Whether the active bin takes token X; token Y otherwise.
    pub favor_x_in_active_id: bool,
    /// The bin step of the pool.
    pub bin_step: u16,
    /// The active bin.
    pub active_id: i32,
}

impl ZapInRebalancingParams {
    /// The last bin of token Y and the first bin of token X, relative to
    /// the active bin.
    pub open spec fn sides_spec(self) -> (i32, i32) {
        if self.favor_x_in_active_id {
            (-1i32, 0i32)
        } else {
            (0i32, 1i32)
        }
    }

    /// Whether the position holds token Y alone.
    pub open spec fn only_y_spec(self) -> bool {
        self.max_delta_id <= self.sides_spec().0
    }

    /// Whether the position holds token X alone.
    pub open spec fn only_x_spec(self) -> bool {
        self.min_delta_id >= self.sides_spec().1
    }

    /// The line of the deposit under a strategy: the side of token Y alone
    /// where the position ends below the bins of token X, the side of token
    /// X alone where it begins above the bins of token Y, and both sides,
    /// token Y first, where it spans the active bin.
    pub open spec fn parsed_spec<H: StrategyHandler>(self, handler: H) -> Result<
        ParsedAddLiquidityParams,
        ZapError,
    > {
        if self.only_y_spec() {
            match handler.y_line(self.amount_y, self.min_delta_id, self.max_delta_id) {
                Err(e) => Err(e),
                Ok((y0, delta_y)) => Ok(
                    ParsedAddLiquidityParams { x0: 0, y0, delta_x: 0, delta_y },
                ),
            }
        } else if self.only_x_spec() {
            match handler.x_line(
                self.amount_x,
                self.min_delta_id,
                self.max_delta_id,
                self.bin_step,
                self.active_id,
            ) {
                Err(e) => Err(e),
                Ok((x0, delta_x)) => Ok(
                    ParsedAddLiquidityParams { x0, y0: 0, delta_x, delta_y: 0 },
                ),
            }
        } else {
            match handler.y_line(self.amount_y, self.min_delta_id, self.sides_spec().0) {
                Err(e) => Err(e),
                Ok((y0, delta_y)) => match handler.x_line(
                    self.amount_x,
                    self.sides_spec().1,
                    self.max_delta_id,
                    self.bin_step,
                    self.active_id,
                ) {
                    Err(e) => Err(e),
                    Ok((x0, delta_x)) => Ok(ParsedAddLiquidityParams { x0, y0, delta_x, delta_y }),
                },
            }
        }
    }

    /// The line of the deposit under its own strategy, as the pool program
    /// takes it.
    pub open spec fn rebalancing_spec(self) -> Result<UnparsedAddLiquidityParams, ZapError> {
        let parsed = match self.strategy {
            StrategyType::Spot => self.parsed_spec(SpotHandler),
            StrategyType::Curve => self.parsed_spec(CurveHandler),
            StrategyType::BidAsk => self.parsed_spec(BidAskHandler),
        };
        match parsed {
            Err(e) => Err(e),
            Ok(line) => match line.unparsed_spec() {
                Some(v) => Ok(v),
                None => Err(ZapError::TypeCastFailed),
            },
        }
    }

    /// Returns the last bin of token Y and the first bin of token X,
    /// relative to the active bin.
    pub fn get_max_delta_id_both_side(&self) -> (r: (i32, i32))
        ensures
            r == self.sides_spec(),
    {
        if self.favor_x_in_active_id {
            (-1, 0)
        } else {
            (0, 1)
        }
    }

    /// Tells whether the position holds token Y alone.
    pub fn is_only_deposit_y(&self) -> (r: bool)
        ensures
            r == self.only_y_spec(),
    {
        let (bid_side_end_delta_id, _ask_side_start_delta_id) = self.get_max_delta_id_both_side();
        self.max_delta_id <= bid_side_end_delta_id
    }

    /// Tells whether the position holds token X alone.
    pub fn is_only_deposit_x(&self) -> (r: bool)
        ensures
            r == self.only_x_spec(),
    {
        let (_bid_side_end_delta_id, ask_side_start_delta_id) = self.get_max_delta_id_both_side();
        self.min_delta_id >= ask_side_start_delta_id
    }

    /// Fits the line of the deposit under a strategy.
    pub fn get_parsed_rebalancing_params<H: StrategyHandler>(&self, strategy_handler: &H) -> (r:
        Result<ParsedAddLiquidityParams, ZapError>)
        ensures
            r == self.parsed_spec(*strategy_handler),
    {
        if self.is_only_deposit_y() {
            let (y0, delta_y) = strategy_handler.find_y0_and_delta_y(
                self.amount_y,
                self.min_delta_id,
                self.max_delta_id,
            )?;
            return Ok(ParsedAddLiquidityParams { x0: 0, y0, delta_x: 0, delta_y });
        }
        if self.is_only_deposit_x() {
            let (x0, delta_x) = strategy_handler.find_x0_and_delta_x(
                self.amount_x,
                self.min_delta_id,
                self.max_delta_id,
                self.bin_step,
                self.active_id,
            )?;
            return Ok(ParsedAddLiquidityParams { x0, y0: 0, delta_x, delta_y: 0 });
        }
        let (bid_side_end_delta_id, ask_side_start_delta_id) = self.get_max_delta_id_both_side();
        let (y0, delta_y) = strategy_handler.find_y0_and_delta_y(
            self.amount_y,
            self.min_delta_id,
            bid_side_end_delta_id,
        )?;
        let (x0, delta_x) = strategy_handler.find_x0_and_delta_x(
            self.amount_x,
            ask_side_start_delta_id,
            self.max_delta_id,
            self.bin_step,
            self.active_id,
        )?;
        Ok(ParsedAddLiquidityParams { x0, y0, delta_x, delta_y })
    }

    /// Fits the line of the deposit under its own strategy and splits each
    /// number into magnitude and sign.
    pub fn get_rebalancing_params(&self) -> (r: Result<UnparsedAddLiquidityParams, ZapError>)
        ensures
            r == self.rebalancing_spec(),
    {
        let parsed_params = match self.strategy {
            StrategyType::Spot => self.get_parsed_rebalancing_params(&SpotHandler)?,
            StrategyType::Curve => self.get_parsed_rebalancing_params(&CurveHandler)?,
            StrategyType::BidAsk => self.get_parsed_rebalancing_params(&BidAskHandler)?,
        };
        parsed_params.unparse()
    }
}

} // verus!
