//! Simulation of a swap, and the search for the amount to swap so that what
//! is left of both tokens can be deposited together.
//!
//! The pool's own curve and fee schedule are not computed here. They are
//! handed in as four functions, which the simulation calls in a fixed order
//! and between which it takes its own decisions: which mint's transfer fee
//! applies, whether the trading fee is taken on the input or on the output,
//! and whether the price stays in the pool's range. The simulation works on
//! a snapshot and changes nothing.

use vstd::prelude::*;
use crate::error::ZapError;
use crate::liquidity::checked;
use crate::pool::{PoolSnapshot, TradeDirection};
use crate::rounding::lemma_widths;
use crate::safe_math::SafeMath;
use crate::token::TransferFeeCalculator;
use crate::wide::U192;

verus! {

/// How the deposit stands after a simulated swap.
#[derive(Debug, Clone, Copy, PartialEq, Eq, Structural)]
pub enum SwapResultStatus {
    /// The two tokens are in the proportion of the pool, to a thousandth.
    Done,
    /// Too much of token A is left.
    ExceededA,
    /// Too much of token B is left.
    ExceededB,
}

/// Two to the 64, the scale of a ratio.
pub open spec fn q64() -> nat {
    0x1_0000_0000_0000_0000
}

/// The share that `amount` is of `total`, scaled by two to the 64 and
/// rounded down. The total is not zero.
pub open spec fn ratio_spec(amount: u64, total: u64) -> nat {
    (amount as nat * q64()) / (total as nat)
}

/// The status of a deposit of `net_a` and `net_b` into a pool that holds
/// `total_a` and `total_b`: the user's share of token A is compared with the
/// user's share of token B, and the deposit is done when twice their
/// difference is below a thousandth of their sum. There is no status where
/// a total is zero or both shares are.
pub open spec fn swap_result_status_spec(net_a: u64, net_b: u64, total_a: u64, total_b: u64) -> Option<
    SwapResultStatus,
> {
    if total_a == 0 || total_b == 0 {
        None
    } else {
        let r1 = ratio_spec(net_a, total_a);
        let r2 = ratio_spec(net_b, total_b);
        let diff = if r1 > r2 {
            (r1 - r2) as nat
        } else {
            (r2 - r1) as nat
        };
        if r1 + r2 == 0 {
            None
        } else if (diff * 2000) / (r1 + r2) == 0 {
            Some(SwapResultStatus::Done)
        } else if r1 > r2 {
            Some(SwapResultStatus::ExceededA)
        } else {
            Some(SwapResultStatus::ExceededB)
        }
    }
}

/// The status of a deposit of amounts that are still subject to the
/// transfer fees of their mints.
pub open spec fn gross_status_spec(
    token_a_transfer_fee_calculator: TransferFeeCalculator,
    token_b_transfer_fee_calculator: TransferFeeCalculator,
    token_a_amount: u64,
    token_b_amount: u64,
    total_amount_a: u64,
    total_amount_b: u64,
) -> Option<SwapResultStatus> {
    match (
        token_a_transfer_fee_calculator.excluded_spec(token_a_amount),
        token_b_transfer_fee_calculator.excluded_spec(token_b_amount),
    ) {
        (Some(net_a), Some(net_b)) => swap_result_status_spec(
            net_a.amount,
            net_b.amount,
            total_amount_a,
            total_amount_b,
        ),
        _ => None,
    }
}

/// Computes the share of `total` that `amount` is, scaled by two to the 64.
fn ratio(amount: u64, total: u64) -> (r: Result<u128, ZapError>)
    ensures
        r.is_ok() <==> total != 0,
        r.is_ok() ==> r.unwrap() == ratio_spec(amount, total),
        r.is_err() ==> r.unwrap_err() == ZapError::MathOverflow,
{
    let wide = amount as u128;
    assert(wide << 64u32 == wide * 0x1_0000_0000_0000_0000u128) by (bit_vector)
        requires
            wide <= 0xffff_ffff_ffff_ffffu128,
    ;
    let scaled: u128 = checked(wide.safe_shl(64))?;
    proof {
        if total != 0 {
            crate::safe_math::lemma_trunc_nonnegative(scaled as int, total as int);
        }
    }
    checked(scaled.safe_div(total as u128))
}

/// Compares what the user would hold of each token, net of transfer fees,
/// with what the pool holds, and tells whether the two tokens are in the
/// pool's proportion or which of them is in surplus. It fails with
/// `MathOverflow` where a transfer fee cannot be taken, where the pool holds
/// nothing of a token, and where the user holds nothing of either.
pub fn get_swap_result_status(
    token_a_transfer_fee_calculator: &TransferFeeCalculator,
    token_b_transfer_fee_calculator: &TransferFeeCalculator,
    token_a_amount: u64,
    token_b_amount: u64,
    total_amount_a: u64,
    total_amount_b: u64,
) -> (r: Result<SwapResultStatus, ZapError>)
    ensures
        r == match gross_status_spec(
            *token_a_transfer_fee_calculator,
            *token_b_transfer_fee_calculator,
            token_a_amount,
            token_b_amount,
            total_amount_a,
            total_amount_b,
        ) {
            Some(status) => Ok::<SwapResultStatus, ZapError>(status),
            None => Err::<SwapResultStatus, ZapError>(ZapError::MathOverflow),
        },
{
    let exclude_transfer_fee_token_a_amount =
        token_a_transfer_fee_calculator.calculate_transfer_fee_excluded_amount(
        token_a_amount,
    )?.amount;
    let exclude_transfer_fee_token_b_amount =
        token_b_transfer_fee_calculator.calculate_transfer_fee_excluded_amount(
        token_b_amount,
    )?.amount;
    let r1: u128 = ratio(exclude_transfer_fee_token_a_amount, total_amount_a)?;
    let r2: u128 = ratio(exclude_transfer_fee_token_b_amount, total_amount_b)?;
    let diff: u128 = if r1 > r2 {
        checked(r1.safe_sub(r2))?
    } else {
        checked(r2.safe_sub(r1))?
    };
    proof {
        lemma_widths();
        assert(diff as nat * 2000 < vstd::arithmetic::power2::pow2(128)
            * vstd::arithmetic::power2::pow2(64)) by (nonlinear_arith)
            requires
                diff < vstd::arithmetic::power2::pow2(128),
                2000 < vstd::arithmetic::power2::pow2(64),
        ;
        assert(vstd::arithmetic::power2::pow2(128) * vstd::arithmetic::power2::pow2(64)
            == vstd::arithmetic::power2::pow2(64) * vstd::arithmetic::power2::pow2(128))
            by (nonlinear_arith);
    }
    let scaled = checked(U192::from_u128(diff).safe_mul(U192::from_u128(2000)))?;
    let sum = checked(U192::from_u128(r1).safe_add(U192::from_u128(r2)))?;
    proof {
        if sum@ != 0 {
            crate::safe_math::lemma_trunc_nonnegative(scaled@ as int, sum@ as int);
        }
    }
    let prod = checked(scaled.safe_div(sum))?;
    if prod.is_zero() {
        Ok(SwapResultStatus::Done)
    } else {
        if r1 > r2 {
            Ok(SwapResultStatus::ExceededA)
        } else {
            Ok(SwapResultStatus::ExceededB)
        }
    }
}

/// What a simulated swap moves.
#[derive(Debug, Clone, Copy, PartialEq, Eq, Structural)]
pub struct SimulateSwapResult {
    /// What the user receives, net of the transfer fee of the output mint.
    pub user_amount_in: u64,
    /// What the user sends.
    pub user_amount_out: u64,
    /// What the pool receives.
    pub pool_amount_in: u64,
    /// What the pool sends.
    pub pool_amount_out: u64,
}

/// The amounts that the user and the pool hold after a swap, in the order
/// user A, user B, pool A, pool B; nothing where the swap takes more than
/// there is or a total does not fit 64 bits.
pub open spec fn amounts_after_swap(
    swap_result: SimulateSwapResult,
    remaining_amount: u64,
    total_amount_a: u64,
    total_amount_b: u64,
    trade_direction: TradeDirection,
) -> Option<(u64, u64, u64, u64)> {
    let paid = swap_result.user_amount_out;
    let taken = swap_result.pool_amount_out;
    let given = swap_result.pool_amount_in;
    match trade_direction {
        TradeDirection::AtoB => if remaining_amount < paid || total_amount_a + given > u64::MAX
            || total_amount_b < taken {
            None
        } else {
            Some(
                (
                    (remaining_amount - paid) as u64,
                    swap_result.user_amount_in,
                    (total_amount_a + given) as u64,
                    (total_amount_b - taken) as u64,
                ),
            )
        },
        TradeDirection::BtoA => if remaining_amount < paid || total_amount_a < taken
            || total_amount_b + given > u64::MAX {
            None
        } else {
            Some(
                (
                    swap_result.user_amount_in,
                    (remaining_amount - paid) as u64,
                    (total_amount_a - taken) as u64,
                    (total_amount_b + given) as u64,
                ),
            )
        },
    }
}

/// The status of the deposit after a swap, on plain values.
pub open spec fn validated_status_spec(
    swap_result: SimulateSwapResult,
    token_a_transfer_fee_calculator: TransferFeeCalculator,
    token_b_transfer_fee_calculator: TransferFeeCalculator,
    remaining_amount: u64,
    total_amount_a: u64,
    total_amount_b: u64,
    trade_direction: TradeDirection,
) -> Option<SwapResultStatus> {
    match amounts_after_swap(
        swap_result,
        remaining_amount,
        total_amount_a,
        total_amount_b,
        trade_direction,
    ) {
        None => None,
        Some((user_a, user_b, pool_a, pool_b)) => gross_status_spec(
            token_a_transfer_fee_calculator,
            token_b_transfer_fee_calculator,
            user_a,
            user_b,
            pool_a,
            pool_b,
        ),
    }
}

/// Applies a simulated swap to what the user has left and to what the pool
/// holds, and tells how the deposit stands then. It fails with
/// `MathOverflow` where the amounts after the swap cannot be formed or have
/// no status.
pub fn validate_swap_result(
    swap_result: &SimulateSwapResult,
    token_a_transfer_fee_calculator: &TransferFeeCalculator,
    token_b_transfer_fee_calculator: &TransferFeeCalculator,
    remaining_amount: u64,
    total_amount_a: u64,
    total_amount_b: u64,
    trade_direction: TradeDirection,
) -> (r: Result<SwapResultStatus, ZapError>)
    ensures
        r == match validated_status_spec(
            *swap_result,
            *token_a_transfer_fee_calculator,
            *token_b_transfer_fee_calculator,
            remaining_amount,
            total_amount_a,
            total_amount_b,
            trade_direction,
        ) {
            Some(status) => Ok::<SwapResultStatus, ZapError>(status),
            None => Err::<SwapResultStatus, ZapError>(ZapError::MathOverflow),
        },
{
    let user_amount_in = swap_result.user_amount_in;
    let user_amount_out = swap_result.user_amount_out;
    let pool_amount_in = swap_result.pool_amount_in;
    let pool_amount_out = swap_result.pool_amount_out;
    match trade_direction {
        TradeDirection::AtoB => {
            let user_amount_a = checked(remaining_amount.safe_sub(user_amount_out))?;
            let user_amount_b = user_amount_in;
            let pool_amount_a = checked(total_amount_a.safe_add(pool_amount_in))?;
            let pool_amount_b = checked(total_amount_b.safe_sub(pool_amount_out))?;
            get_swap_result_status(
                token_a_transfer_fee_calculator,
                token_b_transfer_fee_calculator,
                user_amount_a,
                user_amount_b,
                pool_amount_a,
                pool_amount_b,
            )
        },
        TradeDirection::BtoA => {
            let user_amount_a = user_amount_in;
            let user_amount_b = checked(remaining_amount.safe_sub(user_amount_out))?;
            let pool_amount_a = checked(total_amount_a.safe_sub(pool_amount_out))?;
            let pool_amount_b = checked(total_amount_b.safe_add(pool_amount_in))?;
            get_swap_result_status(
                token_a_transfer_fee_calculator,
                token_b_transfer_fee_calculator,
                user_amount_a,
                user_amount_b,
                pool_amount_a,
                pool_amount_b,
            )
        },
    }
}

/// The total fee: the base fee plus the variable fee, capped at the
/// greatest fee; nothing where the sum does not fit.
pub open spec fn total_fee_numerator_spec(
    base_fee_numerator: u64,
    variable_fee_numerator: u128,
    max_fee_numerator: u64,
) -> Result<u64, ZapError> {
    let sum = variable_fee_numerator + base_fee_numerator;
    if sum > u128::MAX {
        Err(ZapError::MathOverflow)
    } else if sum > u64::MAX {
        Err(ZapError::TypeCastFailed)
    } else if sum > max_fee_numerator {
        Ok(max_fee_numerator)
    } else {
        Ok(sum as u64)
    }
}

/// Adds the base fee and the variable fee and caps the sum at the greatest
/// fee. It fails with `MathOverflow` where the sum does not fit 128 bits and
/// with `TypeCastFailed` where it does not fit 64.
pub fn get_total_fee_numerator(
    base_fee_numerator: u64,
    variable_fee_numerator: u128,
    max_fee_numerator: u64,
) -> (r: Result<u64, ZapError>)
    ensures
        r == total_fee_numerator_spec(
            base_fee_numerator,
            variable_fee_numerator,
            max_fee_numerator,
        ),
{
    let total_fee_numerator: u128 = checked(
        variable_fee_numerator.safe_add(base_fee_numerator as u128),
    )?;
    if total_fee_numerator > u64::MAX as u128 {
        return Err(ZapError::TypeCastFailed);
    }
    let total_fee_numerator: u64 = total_fee_numerator as u64;
    if total_fee_numerator > max_fee_numerator {
        Ok(max_fee_numerator)
    } else {
        Ok(total_fee_numerator)
    }
}

/// How a pool schedules its base fee.
#[derive(Debug, Clone, Copy, PartialEq, Eq, Structural)]
pub enum BaseFeeMode {
    /// The fee falls in equal steps over time.
    FeeSchedulerLinear,
    /// The fee falls by a factor over time.
    FeeSchedulerExponential,
    /// The fee rises with the amount that is traded.
    RateLimiter,
}

/// Where a pool takes its trading fee.
#[derive(Debug, Clone, Copy, PartialEq, Eq, Structural)]
pub struct FeeMode {
    /// Whether the fee is taken on the input; on the output otherwise.
    pub fees_on_input: bool,
    /// Whether a referral takes part of the fee.
    pub has_referral: bool,
}

/// The trading fee of one search: a number fixed in advance, or the pieces
/// from which it is put together for each amount.
#[derive(Debug, Clone, Copy, PartialEq, Eq, Structural)]
pub struct FeeHandler {
    /// The variable part of the fee.
    pub variable_fee_numerator: u128,
    /// The greatest fee.
    pub max_fee_numerator: u64,
    /// The fee, where it does not depend on the amount.
    pub total_fee_numerator: u64,
    /// Whether the base fee depends on the amount.
    pub is_rate_limiter: bool,
}

impl FeeHandler {
    /// The trading fee for an amount whose base fee under the rate limiter
    /// is `rate_limiter_base_fee_numerator`.
    pub open spec fn trade_fee_numerator_spec(self, rate_limiter_base_fee_numerator: u64) -> Result<
        u64,
        ZapError,
    > {
        if self.is_rate_limiter {
            total_fee_numerator_spec(
                rate_limiter_base_fee_numerator,
                self.variable_fee_numerator,
                self.max_fee_numerator,
            )
        } else {
            Ok(self.total_fee_numerator)
        }
    }

    /// Returns the trading fee: under a rate limiter the total of the base
    /// fee that the limiter gives for the amount and the variable fee, the
    /// fixed total otherwise.
    pub fn get_trade_fee_numerator(&self, rate_limiter_base_fee_numerator: u64) -> (r: Result<
        u64,
        ZapError,
    >)
        ensures
            r == self.trade_fee_numerator_spec(rate_limiter_base_fee_numerator),
    {
        if self.is_rate_limiter {
            get_total_fee_numerator(
                rate_limiter_base_fee_numerator,
                self.variable_fee_numerator,
                self.max_fee_numerator,
            )
        } else {
            Ok(self.total_fee_numerator)
        }
    }
}

/// Whether the base fee of a pool comes from its scheduler: under the two
/// fee schedulers it does; under a rate limiter, and under a mode that is
/// not known, the scheduler is not asked.
pub open spec fn reads_scheduler_spec(base_fee_mode: Option<BaseFeeMode>) -> bool {
    base_fee_mode == Some(BaseFeeMode::FeeSchedulerLinear) || base_fee_mode == Some(
        BaseFeeMode::FeeSchedulerExponential,
    )
}

/// Tells whether the pool's scheduler is to be asked for the base fee
/// before the fee handler is made.
pub fn reads_scheduler(base_fee_mode: Option<BaseFeeMode>) -> (r: bool)
    ensures
        r == reads_scheduler_spec(base_fee_mode),
{
    match base_fee_mode {
        Some(BaseFeeMode::FeeSchedulerLinear) => true,
        Some(BaseFeeMode::FeeSchedulerExponential) => true,
        _ => false,
    }
}

/// The fee handler of a pool, on plain values: under a fee scheduler the
/// total is fixed from the scheduler's base fee; under a rate limiter it is
/// left to each amount; under a mode that is not known the cliff fee stands
/// for the base fee.
pub open spec fn fee_handler_spec(
    base_fee_mode: Option<BaseFeeMode>,
    scheduler_base_fee_numerator: u64,
    cliff_fee_numerator: u64,
    variable_fee_numerator: u128,
    max_fee_numerator: u64,
) -> Result<FeeHandler, ZapError> {
    match base_fee_mode {
        Some(BaseFeeMode::RateLimiter) => Ok(
            FeeHandler {
                variable_fee_numerator,
                max_fee_numerator,
                total_fee_numerator: 0,
                is_rate_limiter: true,
            },
        ),
        _ => {
            let base = if base_fee_mode.is_some() {
                scheduler_base_fee_numerator
            } else {
                cliff_fee_numerator
            };
            match total_fee_numerator_spec(base, variable_fee_numerator, max_fee_numerator) {
                Ok(total_fee_numerator) => Ok(
                    FeeHandler {
                        variable_fee_numerator,
                        max_fee_numerator,
                        total_fee_numerator,
                        is_rate_limiter: false,
                    },
                ),
                Err(e) => Err(e),
            }
        },
    }
}

/// Makes the fee handler of a pool. `scheduler_base_fee_numerator` is the
/// base fee that the pool's scheduler gives at the current point, which does
/// not depend on the amount; it is read only under a fee scheduler, as
/// `reads_scheduler` tells, and any number will do otherwise.
pub fn get_fee_handler(
    base_fee_mode: Option<BaseFeeMode>,
    scheduler_base_fee_numerator: u64,
    cliff_fee_numerator: u64,
    variable_fee_numerator: u128,
    max_fee_numerator: u64,
) -> (r: Result<FeeHandler, ZapError>)
    ensures
        r == fee_handler_spec(
            base_fee_mode,
            scheduler_base_fee_numerator,
            cliff_fee_numerator,
            variable_fee_numerator,
            max_fee_numerator,
        ),
        !reads_scheduler_spec(base_fee_mode) ==> forall|any: u64|
            r == #[trigger] fee_handler_spec(
                base_fee_mode,
                any,
                cliff_fee_numerator,
                variable_fee_numerator,
                max_fee_numerator,
            ),
{
    match base_fee_mode {
        Some(value) => {
            match value {
                BaseFeeMode::FeeSchedulerLinear | BaseFeeMode::FeeSchedulerExponential => {
                    let total_fee_numerator = get_total_fee_numerator(
                        scheduler_base_fee_numerator,
                        variable_fee_numerator,
                        max_fee_numerator,
                    )?;
                    Ok(
                        FeeHandler {
                            variable_fee_numerator,
                            max_fee_numerator,
                            total_fee_numerator,
                            is_rate_limiter: false,
                        },
                    )
                },
                BaseFeeMode::RateLimiter => {
                    Ok(
                        FeeHandler {
                            total_fee_numerator: 0,
                            variable_fee_numerator,
                            max_fee_numerator,
                            is_rate_limiter: true,
                        },
                    )
                },
            }
        },
        None => {
            let total_fee_numerator = get_total_fee_numerator(
                cliff_fee_numerator,
                variable_fee_numerator,
                max_fee_numerator,
            )?;
            Ok(
                FeeHandler {
                    variable_fee_numerator,
                    max_fee_numerator,
                    total_fee_numerator,
                    is_rate_limiter: false,
                },
            )
        },
    }
}

/// Whether a swap in this direction may move the price to `next_sqrt_price`:
/// a swap of token A lowers the price and must not go below the least price,
/// a swap of token B raises it and must not go above the greatest.
pub open spec fn price_in_range(
    pool: PoolSnapshot,
    next_sqrt_price: u128,
    trade_direction: TradeDirection,
) -> bool {
    match trade_direction {
        TradeDirection::AtoB => next_sqrt_price >= pool.sqrt_min_price,
        TradeDirection::BtoA => next_sqrt_price <= pool.sqrt_max_price,
    }
}

/// Checks that a swap keeps the price in the pool's range; fails with
/// `PriceRangeViolation` otherwise.
pub fn check_next_sqrt_price(
    pool: &PoolSnapshot,
    next_sqrt_price: u128,
    trade_direction: TradeDirection,
) -> (r: Result<(), ZapError>)
    ensures
        r.is_ok() <==> price_in_range(*pool, next_sqrt_price, trade_direction),
        r.is_err() ==> r.unwrap_err() == ZapError::PriceRangeViolation,
{
    match trade_direction {
        TradeDirection::AtoB => {
            if next_sqrt_price < pool.sqrt_min_price {
                return Err(ZapError::PriceRangeViolation);
            }
        },
        TradeDirection::BtoA => {
            if next_sqrt_price > pool.sqrt_max_price {
                return Err(ZapError::PriceRangeViolation);
            }
        },
    }
    Ok(())
}

/// The pool's curve and fee schedule, as four functions of plain values.
pub struct PoolQuotes<R, G, N, D> {
    /// The base fee that the rate limiter gives for an input amount.
    pub rate_limiter_base_fee: R,
    /// What is left of an amount after the trading fee with the given
    /// numerator is taken.
    pub amount_after_fee: G,
    /// The price after the pool took in an amount.
    pub next_sqrt_price: N,
    /// What the pool sends out when the price moves from the current price
    /// to the given one, rounded down.
    pub output_amount: D,
}

impl<R, G, N, D> PoolQuotes<R, G, N, D> where
    R: Fn(u64) -> Result<u64, ZapError>,
    G: Fn(u64, u64) -> Result<u64, ZapError>,
    N: Fn(u64) -> Result<u128, ZapError>,
    D: Fn(u128) -> Result<u64, ZapError>,
 {
    /// Each of the four functions accepts every argument.
    pub open spec fn total(&self) -> bool {
        &&& forall|amount: u64| call_requires(self.rate_limiter_base_fee, (amount,))
        &&& forall|amount: u64, numerator: u64|
            call_requires(self.amount_after_fee, (amount, numerator))
        &&& forall|amount: u64| call_requires(self.next_sqrt_price, (amount,))
        &&& forall|price: u128| call_requires(self.output_amount, (price,))
    }
}

/// The transfer-fee calculator of the mint that a swap takes in.
pub open spec fn input_calculator(
    fee_a: TransferFeeCalculator,
    fee_b: TransferFeeCalculator,
    trade_direction: TradeDirection,
) -> TransferFeeCalculator {
    match trade_direction {
        TradeDirection::AtoB => fee_a,
        TradeDirection::BtoA => fee_b,
    }
}

/// The transfer-fee calculator of the mint that a swap pays out.
pub open spec fn output_calculator(
    fee_a: TransferFeeCalculator,
    fee_b: TransferFeeCalculator,
    trade_direction: TradeDirection,
) -> TransferFeeCalculator {
    match trade_direction {
        TradeDirection::AtoB => fee_b,
        TradeDirection::BtoA => fee_a,
    }
}

/// The result of a swap, put together from what the pool's functions gave:
/// `pool_amount_in` went into the curve, `output_amount` came out of it, and
/// `gross_amount_out` is what is transferred to the user.
pub open spec fn swap_result_spec(
    fee_a: TransferFeeCalculator,
    fee_b: TransferFeeCalculator,
    amount_in: u64,
    trade_direction: TradeDirection,
    pool_amount_in: u64,
    output_amount: u64,
    gross_amount_out: u64,
) -> Result<SimulateSwapResult, ZapError> {
    match output_calculator(fee_a, fee_b, trade_direction).excluded_spec(gross_amount_out) {
        None => Err(ZapError::MathOverflow),
        Some(net) => Ok(
            SimulateSwapResult {
                user_amount_in: net.amount,
                user_amount_out: amount_in,
                pool_amount_in,
                pool_amount_out: output_amount,
            },
        ),
    }
}

/// Puts the result of a swap together from what the pool's functions gave;
/// the transfer fee of the output mint is taken off what the user receives.
pub fn swap_result_from(
    token_a_transfer_fee_calculator: &TransferFeeCalculator,
    token_b_transfer_fee_calculator: &TransferFeeCalculator,
    amount_in: u64,
    trade_direction: TradeDirection,
    pool_amount_in: u64,
    output_amount: u64,
    gross_amount_out: u64,
) -> (r: Result<SimulateSwapResult, ZapError>)
    ensures
        r == swap_result_spec(
            *token_a_transfer_fee_calculator,
            *token_b_transfer_fee_calculator,
            amount_in,
            trade_direction,
            pool_amount_in,
            output_amount,
            gross_amount_out,
        ),
{
    let excluded_fee_amount_out = match trade_direction {
        TradeDirection::AtoB => token_b_transfer_fee_calculator.calculate_transfer_fee_excluded_amount(
            gross_amount_out,
        )?.amount,
        TradeDirection::BtoA => token_a_transfer_fee_calculator.calculate_transfer_fee_excluded_amount(
            gross_amount_out,
        )?.amount,
    };
    Ok(
        SimulateSwapResult {
            user_amount_in: excluded_fee_amount_out,
            user_amount_out: amount_in,
            pool_amount_in,
            pool_amount_out: output_amount,
        },
    )
}

/// Whether `result` is a result of a swap of `amount_in`: it holds
/// `amount_in` as what the user sends; what went into the curve is the net
/// input, after the trading fee where that is taken on the input; the pool
/// gave a price for it that lies in the range, and the output for that
/// price; and what the user receives is what arrives of the output, after
/// the trading fee where that is taken on the output.
pub open spec fn is_swap_result_of<R, G, N, D>(
    quotes: PoolQuotes<R, G, N, D>,
    pool: PoolSnapshot,
    fee_a: TransferFeeCalculator,
    fee_b: TransferFeeCalculator,
    amount_in: u64,
    trade_direction: TradeDirection,
    fee_handler: FeeHandler,
    fee_mode: FeeMode,
    result: SimulateSwapResult,
) -> bool where
    R: Fn(u64) -> Result<u64, ZapError>,
    G: Fn(u64, u64) -> Result<u64, ZapError>,
    N: Fn(u64) -> Result<u128, ZapError>,
    D: Fn(u128) -> Result<u64, ZapError>,
 {
    let net_in = input_calculator(
        fee_a,
        fee_b,
        trade_direction,
    ).excluded_spec(amount_in);
    &&& result.user_amount_out == amount_in
    &&& net_in.is_some()
    &&& !fee_mode.fees_on_input ==> result.pool_amount_in == net_in.unwrap().amount
    &&& exists|next: u128|
        {
            &&& call_ensures(
                quotes.next_sqrt_price,
                (result.pool_amount_in,),
                Ok::<u128, ZapError>(next),
            )
            &&& price_in_range(pool, next, trade_direction)
            &&& #[trigger] call_ensures(
                quotes.output_amount,
                (next,),
                Ok::<u64, ZapError>(result.pool_amount_out),
            )
        }
    &&& fee_mode.fees_on_input ==> Ok::<SimulateSwapResult, ZapError>(result)
        == swap_result_spec(
        fee_a,
        fee_b,
        amount_in,
        trade_direction,
        result.pool_amount_in,
        result.pool_amount_out,
        result.pool_amount_out,
    )
    &&& fee_mode.fees_on_input ==> exists|numerator: u64|
        {
            &&& #[trigger] call_ensures(
                quotes.amount_after_fee,
                (net_in.unwrap().amount, numerator),
                Ok::<u64, ZapError>(result.pool_amount_in),
            )
            &&& !fee_handler.is_rate_limiter ==> numerator
                == fee_handler.total_fee_numerator
        }
    &&& !fee_mode.fees_on_input ==> exists|numerator: u64, gross: u64|
        {
            &&& #[trigger] call_ensures(
                quotes.amount_after_fee,
                (result.pool_amount_out, numerator),
                Ok::<u64, ZapError>(gross),
            )
            &&& !fee_handler.is_rate_limiter ==> numerator
                == fee_handler.total_fee_numerator
            &&& Ok::<SimulateSwapResult, ZapError>(result) == swap_result_spec(
                fee_a,
                fee_b,
                amount_in,
                trade_direction,
                result.pool_amount_in,
                result.pool_amount_out,
                gross,
            )
        }
}

/// What the pool's functions answered in one simulation of a swap. An
/// answer that the simulation did not ask for stands for nothing.
pub struct QuoteAnswers {
    /// The base fee that the rate limiter gave for the net input.
    pub rate_limiter_base_fee: Result<u64, ZapError>,
    /// What the pool left of the net input after the trading fee.
    pub input_after_fee: Result<u64, ZapError>,
    /// The price that the pool gave for what went into the curve.
    pub next_sqrt_price: Result<u128, ZapError>,
    /// What the pool sends out at that price.
    pub output_amount: Result<u64, ZapError>,
    /// What the pool left of the output after the trading fee.
    pub output_after_fee: Result<u64, ZapError>,
}

/// The trading fee of a simulation: under a rate limiter the total for the
/// base fee that the limiter answered, the fixed total otherwise.
pub open spec fn trade_fee_outcome(fee_handler: FeeHandler, answers: QuoteAnswers) -> Result<
    u64,
    ZapError,
> {
    if fee_handler.is_rate_limiter {
        match answers.rate_limiter_base_fee {
            Err(e) => Err(e),
            Ok(base_fee_numerator) => fee_handler.trade_fee_numerator_spec(base_fee_numerator),
        }
    } else {
        fee_handler.trade_fee_numerator_spec(0)
    }
}

/// What goes into the curve of a net input: what the pool left of it after
/// the trading fee where the fee is taken on the input, all of it otherwise.
pub open spec fn curve_input_outcome(fee_mode: FeeMode, net_in: u64, answers: QuoteAnswers) -> Result<
    u64,
    ZapError,
> {
    if fee_mode.fees_on_input {
        answers.input_after_fee
    } else {
        Ok(net_in)
    }
}

/// What is transferred to the user of what the curve sends out: all of it
/// where the fee is taken on the input, what the pool left of it after the
/// trading fee otherwise.
pub open spec fn gross_output_outcome(fee_mode: FeeMode, output_amount: u64, answers: QuoteAnswers) -> Result<
    u64,
    ZapError,
> {
    if fee_mode.fees_on_input {
        Ok(output_amount)
    } else {
        answers.output_after_fee
    }
}

/// What the simulation of a swap of `amount_in` comes to, given the pool's
/// answers. The steps follow each other as in a swap of an exact input, and
/// the first failure is the simulation's: the transfer fee of the input
/// mint, the trading fee, what goes into the curve, the price after the
/// swap, which must stay in the pool's range, what the curve sends out,
/// what is transferred of it, and the transfer fee of the output mint.
pub open spec fn swap_result_outcome(
    pool: PoolSnapshot,
    fee_a: TransferFeeCalculator,
    fee_b: TransferFeeCalculator,
    amount_in: u64,
    trade_direction: TradeDirection,
    fee_handler: FeeHandler,
    fee_mode: FeeMode,
    answers: QuoteAnswers,
) -> Result<SimulateSwapResult, ZapError> {
    match input_calculator(fee_a, fee_b, trade_direction).excluded_spec(amount_in) {
        None => Err(ZapError::MathOverflow),
        Some(net) => match trade_fee_outcome(fee_handler, answers) {
            Err(e) => Err(e),
            Ok(_) => match curve_input_outcome(fee_mode, net.amount, answers) {
                Err(e) => Err(e),
                Ok(pool_amount_in) => match answers.next_sqrt_price {
                    Err(e) => Err(e),
                    Ok(next) => if !price_in_range(pool, next, trade_direction) {
                        Err(ZapError::PriceRangeViolation)
                    } else {
                        match answers.output_amount {
                            Err(e) => Err(e),
                            Ok(output_amount) => match gross_output_outcome(
                                fee_mode,
                                output_amount,
                                answers,
                            ) {
                                Err(e) => Err(e),
                                Ok(gross_amount_out) => swap_result_spec(
                                    fee_a,
                                    fee_b,
                                    amount_in,
                                    trade_direction,
                                    pool_amount_in,
                                    output_amount,
                                    gross_amount_out,
                                ),
                            },
                        }
                    },
                },
            },
        },
    }
}

/// Whether `answers` are what the pool's functions gave in the simulation
/// of a swap of `amount_in`: each answer that the simulation asks for was
/// given for the argument that the simulation hands over, which comes from
/// the answers before it.
pub open spec fn quotes_answered<R, G, N, D>(
    quotes: PoolQuotes<R, G, N, D>,
    pool: PoolSnapshot,
    fee_a: TransferFeeCalculator,
    fee_b: TransferFeeCalculator,
    amount_in: u64,
    trade_direction: TradeDirection,
    fee_handler: FeeHandler,
    fee_mode: FeeMode,
    answers: QuoteAnswers,
) -> bool where
    R: Fn(u64) -> Result<u64, ZapError>,
    G: Fn(u64, u64) -> Result<u64, ZapError>,
    N: Fn(u64) -> Result<u128, ZapError>,
    D: Fn(u128) -> Result<u64, ZapError>,
 {
    let net_in = input_calculator(fee_a, fee_b, trade_direction).excluded_spec(amount_in);
    let numerator = trade_fee_outcome(fee_handler, answers);
    let pool_amount_in = curve_input_outcome(fee_mode, net_in.unwrap().amount, answers);
    let priced = pool_amount_in.is_ok() && answers.next_sqrt_price.is_ok() && price_in_range(
        pool,
        answers.next_sqrt_price.unwrap(),
        trade_direction,
    );
    net_in.is_some() ==> {
        &&& fee_handler.is_rate_limiter ==> call_ensures(
            quotes.rate_limiter_base_fee,
            (net_in.unwrap().amount,),
            answers.rate_limiter_base_fee,
        )
        &&& numerator.is_ok() ==> {
            &&& fee_mode.fees_on_input ==> call_ensures(
                quotes.amount_after_fee,
                (net_in.unwrap().amount, numerator.unwrap()),
                answers.input_after_fee,
            )
            &&& pool_amount_in.is_ok() ==> call_ensures(
                quotes.next_sqrt_price,
                (pool_amount_in.unwrap(),),
                answers.next_sqrt_price,
            )
            &&& priced ==> call_ensures(
                quotes.output_amount,
                (answers.next_sqrt_price.unwrap(),),
                answers.output_amount,
            )
            &&& priced && answers.output_amount.is_ok() && !fee_mode.fees_on_input ==> call_ensures(
                quotes.amount_after_fee,
                (answers.output_amount.unwrap(), numerator.unwrap()),
                answers.output_after_fee,
            )
        }
    }
}

/// Simulates a swap of `amount_in` the way the pool carries out a swap of
/// an exact input: the transfer fee of the input mint is taken off, the
/// trading fee is taken on the input or on the output as the fee mode says,
/// the price must stay in the pool's range, and the transfer fee of the
/// output mint is taken off what comes out.
///
/// Whatever the pool's functions return, the result, a failure too, is
/// what `swap_result_outcome` makes of answers that the pool's functions
/// gave; a result that is no failure is a result of a swap of `amount_in`
/// as `is_swap_result_of` says.
pub fn calculate_swap_result<R, G, N, D>(
    quotes: &PoolQuotes<R, G, N, D>,
    pool: &PoolSnapshot,
    token_a_transfer_fee_calculator: &TransferFeeCalculator,
    token_b_transfer_fee_calculator: &TransferFeeCalculator,
    amount_in: u64,
    trade_direction: TradeDirection,
    fee_handler: &FeeHandler,
    fee_mode: &FeeMode,
) -> (r: Result<SimulateSwapResult, ZapError>) where
    R: Fn(u64) -> Result<u64, ZapError>,
    G: Fn(u64, u64) -> Result<u64, ZapError>,
    N: Fn(u64) -> Result<u128, ZapError>,
    D: Fn(u128) -> Result<u64, ZapError>,

    requires
        quotes.total(),
    ensures
        exists|answers: QuoteAnswers|
            {
                &&& #[trigger] quotes_answered(
                    *quotes,
                    *pool,
                    *token_a_transfer_fee_calculator,
                    *token_b_transfer_fee_calculator,
                    amount_in,
                    trade_direction,
                    *fee_handler,
                    *fee_mode,
                    answers,
                )
                &&& r == swap_result_outcome(
                    *pool,
                    *token_a_transfer_fee_calculator,
                    *token_b_transfer_fee_calculator,
                    amount_in,
                    trade_direction,
                    *fee_handler,
                    *fee_mode,
                    answers,
                )
            },
        r.is_ok() ==> is_swap_result_of(
            *quotes,
            *pool,
            *token_a_transfer_fee_calculator,
            *token_b_transfer_fee_calculator,
            amount_in,
            trade_direction,
            *fee_handler,
            *fee_mode,
            r.unwrap(),
        ),
        input_calculator(
            *token_a_transfer_fee_calculator,
            *token_b_transfer_fee_calculator,
            trade_direction,
        ).excluded_spec(amount_in).is_none() ==> r == Err::<SimulateSwapResult, ZapError>(
            ZapError::MathOverflow,
        ),
{
    let ghost unasked = QuoteAnswers {
        rate_limiter_base_fee: Err(ZapError::MathOverflow),
        input_after_fee: Err(ZapError::MathOverflow),
        next_sqrt_price: Err(ZapError::MathOverflow),
        output_amount: Err(ZapError::MathOverflow),
        output_after_fee: Err(ZapError::MathOverflow),
    };
    let ghost fee_a = *token_a_transfer_fee_calculator;
    let ghost fee_b = *token_b_transfer_fee_calculator;
    proof {
        assert(input_calculator(fee_a, fee_b, trade_direction).excluded_spec(amount_in).is_none()
            ==> quotes_answered(
            *quotes,
            *pool,
            fee_a,
            fee_b,
            amount_in,
            trade_direction,
            *fee_handler,
            *fee_mode,
            unasked,
        ));
    }
    let excluded_fee_amount_in = match trade_direction {
        TradeDirection::AtoB => token_a_transfer_fee_calculator.calculate_transfer_fee_excluded_amount(
            amount_in,
        )?.amount,
        TradeDirection::BtoA => token_b_transfer_fee_calculator.calculate_transfer_fee_excluded_amount(
            amount_in,
        )?.amount,
    };
    let ghost mut answers = unasked;
    let trade_fee_numerator = if fee_handler.is_rate_limiter {
        let base_fee = (quotes.rate_limiter_base_fee)(excluded_fee_amount_in);
        proof {
            answers = QuoteAnswers { rate_limiter_base_fee: base_fee, ..answers };
            assert(trade_fee_outcome(*fee_handler, answers).is_err() ==> quotes_answered(
                *quotes,
                *pool,
                fee_a,
                fee_b,
                amount_in,
                trade_direction,
                *fee_handler,
                *fee_mode,
                answers,
            ));
        }
        let base_fee_numerator = base_fee?;
        fee_handler.get_trade_fee_numerator(base_fee_numerator)?
    } else {
        proof {
            assert(trade_fee_outcome(*fee_handler, answers).is_err() ==> quotes_answered(
                *quotes,
                *pool,
                fee_a,
                fee_b,
                amount_in,
                trade_direction,
                *fee_handler,
                *fee_mode,
                answers,
            ));
        }
        fee_handler.get_trade_fee_numerator(0)?
    };
    let actual_amount_in = if fee_mode.fees_on_input {
        let after_fee = (quotes.amount_after_fee)(excluded_fee_amount_in, trade_fee_numerator);
        proof {
            answers = QuoteAnswers { input_after_fee: after_fee, ..answers };
            assert(after_fee.is_err() ==> quotes_answered(
                *quotes,
                *pool,
                fee_a,
                fee_b,
                amount_in,
                trade_direction,
                *fee_handler,
                *fee_mode,
                answers,
            ));
        }
        after_fee?
    } else {
        excluded_fee_amount_in
    };
    let priced = (quotes.next_sqrt_price)(actual_amount_in);
    proof {
        answers = QuoteAnswers { next_sqrt_price: priced, ..answers };
        assert(priced.is_err() || !price_in_range(*pool, priced.unwrap(), trade_direction)
            ==> quotes_answered(
            *quotes,
            *pool,
            fee_a,
            fee_b,
            amount_in,
            trade_direction,
            *fee_handler,
            *fee_mode,
            answers,
        ));
    }
    let next_sqrt_price = priced?;
    check_next_sqrt_price(pool, next_sqrt_price, trade_direction)?;
    let sent = (quotes.output_amount)(next_sqrt_price);
    proof {
        answers = QuoteAnswers { output_amount: sent, ..answers };
        assert(sent.is_err() || fee_mode.fees_on_input ==> quotes_answered(
            *quotes,
            *pool,
            fee_a,
            fee_b,
            amount_in,
            trade_direction,
            *fee_handler,
            *fee_mode,
            answers,
        ));
    }
    let output_amount = sent?;
    let actual_amount_out = if fee_mode.fees_on_input {
        output_amount
    } else {
        let after_fee = (quotes.amount_after_fee)(output_amount, trade_fee_numerator);
        proof {
            answers = QuoteAnswers { output_after_fee: after_fee, ..answers };
            assert(quotes_answered(
                *quotes,
                *pool,
                fee_a,
                fee_b,
                amount_in,
                trade_direction,
                *fee_handler,
                *fee_mode,
                answers,
            ));
        }
        after_fee?
    };
    swap_result_from(
        token_a_transfer_fee_calculator,
        token_b_transfer_fee_calculator,
        amount_in,
        trade_direction,
        actual_amount_in,
        output_amount,
        actual_amount_out,
    )
}

/// The greatest number of swaps that a search simulates.
pub const MAX_SEARCH_ROUNDS: u8 = 20;

/// What came back for the amount that a round of the search tried.
#[derive(Debug, Clone, Copy, PartialEq, Eq, Structural)]
pub enum RoundOutcome {
    /// The swap could not be simulated.
    NotSimulated,
    /// The swap was simulated; its status could not be told.
    NotValidated,
    /// The swap was simulated and the deposit stands like this after it.
    Status(SwapResultStatus),
}

/// The state of a binary search for the amount to swap.
#[derive(Debug, Clone, Copy, PartialEq, Eq, Structural)]
pub struct SwapSearch {
    /// The search looks above this amount.
    pub min_swap_amount: u64,
    /// The search looks below this amount.
    pub max_swap_amount: u64,
    /// The last amount for which the swap could be simulated, or zero.
    pub swap_amount: u64,
    /// Whether the search has ended.
    pub finished: bool,
}

impl SwapSearch {
    /// The bracket is in order.
    pub open spec fn well_formed(self) -> bool {
        self.min_swap_amount <= self.max_swap_amount
    }

    /// The state before the first round: everything from nothing to all
    /// that is left may be swapped.
    pub open spec fn initial(remaining_amount: u64) -> SwapSearch {
        SwapSearch {
            min_swap_amount: 0,
            max_swap_amount: remaining_amount,
            swap_amount: 0,
            finished: false,
        }
    }

    /// The amount that the next round tries: the middle of the bracket,
    /// where the sum of its ends fits 64 bits.
    pub open spec fn candidate_spec(self) -> Option<u64> {
        if self.max_swap_amount + self.min_swap_amount > u64::MAX {
            None
        } else {
            Some(((self.max_swap_amount + self.min_swap_amount) / 2) as u64)
        }
    }

    /// The state after a round that tried `amount_in`. A swap that could not
    /// be simulated ends the search and leaves the result as it was. A swap
    /// that was simulated becomes the result; if its status cannot be told
    /// or is `Done`, the search ends. Otherwise the bracket is cut at the
    /// amount: more must be swapped when the token that goes in is in
    /// surplus, less when the other one is.
    pub open spec fn advanced(
        self,
        amount_in: u64,
        outcome: RoundOutcome,
        trade_direction: TradeDirection,
    ) -> SwapSearch {
        match outcome {
            RoundOutcome::NotSimulated => SwapSearch { finished: true, ..self },
            RoundOutcome::NotValidated => SwapSearch {
                swap_amount: amount_in,
                finished: true,
                ..self
            },
            RoundOutcome::Status(SwapResultStatus::Done) => SwapSearch {
                swap_amount: amount_in,
                finished: true,
                ..self
            },
            RoundOutcome::Status(status) => {
                let surplus_goes_in = (status == SwapResultStatus::ExceededA) == (trade_direction
                    == TradeDirection::AtoB);
                if surplus_goes_in {
                    SwapSearch { min_swap_amount: amount_in, swap_amount: amount_in, ..self }
                } else {
                    SwapSearch { max_swap_amount: amount_in, swap_amount: amount_in, ..self }
                }
            },
        }
    }

    /// Starts a search over what is left of the token in surplus.
    pub fn new(remaining_amount: u64) -> (r: SwapSearch)
        ensures
            r == Self::initial(remaining_amount),
            r.well_formed(),
    {
        SwapSearch {
            min_swap_amount: 0,
            max_swap_amount: remaining_amount,
            swap_amount: 0,
            finished: false,
        }
    }

    /// Returns the amount that the next round tries; fails with
    /// `MathOverflow` where the ends of the bracket cannot be added.
    pub fn candidate(&self) -> (r: Result<u64, ZapError>)
        ensures
            r == match self.candidate_spec() {
                Some(v) => Ok::<u64, ZapError>(v),
                None => Err::<u64, ZapError>(ZapError::MathOverflow),
            },
            self.well_formed() && r.is_ok() ==> self.min_swap_amount <= r.unwrap()
                <= self.max_swap_amount,
    {
        let sum = checked(self.max_swap_amount.safe_add(self.min_swap_amount))?;
        Ok(sum / 2)
    }

    /// Takes the search one round further.
    pub fn advance(&self, amount_in: u64, outcome: RoundOutcome, trade_direction: TradeDirection) -> (r:
        SwapSearch)
        ensures
            r == self.advanced(amount_in, outcome, trade_direction),
            self.well_formed() && self.min_swap_amount <= amount_in <= self.max_swap_amount
                ==> r.well_formed() && self.min_swap_amount <= r.min_swap_amount
                && r.max_swap_amount <= self.max_swap_amount,
    {
        match outcome {
            RoundOutcome::NotSimulated => SwapSearch {
                min_swap_amount: self.min_swap_amount,
                max_swap_amount: self.max_swap_amount,
                swap_amount: self.swap_amount,
                finished: true,
            },
            RoundOutcome::NotValidated => SwapSearch {
                min_swap_amount: self.min_swap_amount,
                max_swap_amount: self.max_swap_amount,
                swap_amount: amount_in,
                finished: true,
            },
            RoundOutcome::Status(status) => {
                match status {
                    SwapResultStatus::Done => SwapSearch {
                        min_swap_amount: self.min_swap_amount,
                        max_swap_amount: self.max_swap_amount,
                        swap_amount: amount_in,
                        finished: true,
                    },
                    SwapResultStatus::ExceededA => {
                        match trade_direction {
                            TradeDirection::AtoB => SwapSearch {
                                min_swap_amount: amount_in,
                                max_swap_amount: self.max_swap_amount,
                                swap_amount: amount_in,
                                finished: self.finished,
                            },
                            TradeDirection::BtoA => SwapSearch {
                                min_swap_amount: self.min_swap_amount,
                                max_swap_amount: amount_in,
                                swap_amount: amount_in,
                                finished: self.finished,
                            },
                        }
                    },
                    SwapResultStatus::ExceededB => {
                        match trade_direction {
                            TradeDirection::AtoB => SwapSearch {
                                min_swap_amount: self.min_swap_amount,
                                max_swap_amount: amount_in,
                                swap_amount: amount_in,
                                finished: self.finished,
                            },
                            TradeDirection::BtoA => SwapSearch {
                                min_swap_amount: amount_in,
                                max_swap_amount: self.max_swap_amount,
                                swap_amount: amount_in,
                                finished: self.finished,
                            },
                        }
                    },
                }
            },
        }
    }
}

/// What a round of the search makes of the simulation of a swap: a failed
/// simulation was not simulated; a result whose status cannot be told was
/// not validated; otherwise the round has the status of the deposit after
/// the swap.
pub open spec fn round_outcome_spec(
    simulation: Result<SimulateSwapResult, ZapError>,
    fee_a: TransferFeeCalculator,
    fee_b: TransferFeeCalculator,
    remaining_amount: u64,
    pool_amount_a: u64,
    pool_amount_b: u64,
    trade_direction: TradeDirection,
) -> RoundOutcome {
    match simulation {
        Err(_) => RoundOutcome::NotSimulated,
        Ok(swap_result) => match validated_status_spec(
            swap_result,
            fee_a,
            fee_b,
            remaining_amount,
            pool_amount_a,
            pool_amount_b,
            trade_direction,
        ) {
            None => RoundOutcome::NotValidated,
            Some(status) => RoundOutcome::Status(status),
        },
    }
}

/// Whether the search over `remaining_amount` stands at `search` after
/// `rounds` rounds: it starts from the initial state, and each round takes
/// a search that has not ended to the next one by trying the middle of the
/// bracket, simulating its swap on answers that the pool's functions gave,
/// and advancing on what the round makes of the simulation.
pub open spec fn swap_search_reached<R, G, N, D>(
    quotes: PoolQuotes<R, G, N, D>,
    pool: PoolSnapshot,
    fee_a: TransferFeeCalculator,
    fee_b: TransferFeeCalculator,
    remaining_amount: u64,
    trade_direction: TradeDirection,
    fee_handler: FeeHandler,
    fee_mode: FeeMode,
    pool_amount_a: u64,
    pool_amount_b: u64,
    search: SwapSearch,
    rounds: nat,
) -> bool where
    R: Fn(u64) -> Result<u64, ZapError>,
    G: Fn(u64, u64) -> Result<u64, ZapError>,
    N: Fn(u64) -> Result<u128, ZapError>,
    D: Fn(u128) -> Result<u64, ZapError>,

    decreases rounds,
{
    if rounds == 0 {
        search == SwapSearch::initial(remaining_amount)
    } else {
        exists|before: SwapSearch, answers: QuoteAnswers|
            {
                &&& swap_search_reached(
                    quotes,
                    pool,
                    fee_a,
                    fee_b,
                    remaining_amount,
                    trade_direction,
                    fee_handler,
                    fee_mode,
                    pool_amount_a,
                    pool_amount_b,
                    before,
                    (rounds - 1) as nat,
                )
                &&& !before.finished
                &&& before.candidate_spec().is_some()
                &&& #[trigger] quotes_answered(
                    quotes,
                    pool,
                    fee_a,
                    fee_b,
                    before.candidate_spec().unwrap(),
                    trade_direction,
                    fee_handler,
                    fee_mode,
                    answers,
                )
                &&& search == before.advanced(
                    before.candidate_spec().unwrap(),
                    round_outcome_spec(
                        swap_result_outcome(
                            pool,
                            fee_a,
                            fee_b,
                            before.candidate_spec().unwrap(),
                            trade_direction,
                            fee_handler,
                            fee_mode,
                            answers,
                        ),
                        fee_a,
                        fee_b,
                        remaining_amount,
                        pool_amount_a,
                        pool_amount_b,
                        trade_direction,
                    ),
                    trade_direction,
                )
            }
    }
}

/// What the search comes to once it stands at `search` after `rounds`
/// rounds: the last amount that could be simulated, where the search has
/// ended or twenty rounds are done; `MathOverflow` where the ends of the
/// bracket cannot be added for the next round. A search that goes on has no
/// outcome yet.
pub open spec fn swap_search_outcome(search: SwapSearch, rounds: nat) -> Option<Result<u64, ZapError>> {
    if search.finished || rounds >= MAX_SEARCH_ROUNDS {
        Some(Ok(search.swap_amount))
    } else if search.candidate_spec().is_none() {
        Some(Err(ZapError::MathOverflow))
    } else {
        None
    }
}

/// Searches, by bisection over at most twenty simulated swaps, for the
/// amount of the token in surplus to swap so that what is left of both
/// tokens is in the proportion of the pool. `pool_amount_a` and
/// `pool_amount_b` are what the pool holds.
///
/// Whatever the pool's functions return, the result is the outcome of the
/// search at a state that the rounds lead to from the initial state on the
/// pool's answers, as `swap_search_reached` and `swap_search_outcome` say.
/// The amount found is at most `remaining_amount`; it is zero, or an amount
/// of which the pool's functions gave the result of a swap. The call fails
/// only where the ends of the bracket cannot be added, which cannot happen
/// while `remaining_amount` is at most half of what 64 bits hold.
pub fn calculate_swap_amount<R, G, N, D>(
    quotes: &PoolQuotes<R, G, N, D>,
    pool: &PoolSnapshot,
    token_a_transfer_fee_calculator: &TransferFeeCalculator,
    token_b_transfer_fee_calculator: &TransferFeeCalculator,
    remaining_amount: u64,
    trade_direction: TradeDirection,
    fee_handler: &FeeHandler,
    fee_mode: &FeeMode,
    pool_amount_a: u64,
    pool_amount_b: u64,
) -> (r: Result<u64, ZapError>) where
    R: Fn(u64) -> Result<u64, ZapError>,
    G: Fn(u64, u64) -> Result<u64, ZapError>,
    N: Fn(u64) -> Result<u128, ZapError>,
    D: Fn(u128) -> Result<u64, ZapError>,

    requires
        quotes.total(),
    ensures
        exists|search: SwapSearch, rounds: nat|
            {
                &&& rounds <= MAX_SEARCH_ROUNDS
                &&& #[trigger] swap_search_reached(
                    *quotes,
                    *pool,
                    *token_a_transfer_fee_calculator,
                    *token_b_transfer_fee_calculator,
                    remaining_amount,
                    trade_direction,
                    *fee_handler,
                    *fee_mode,
                    pool_amount_a,
                    pool_amount_b,
                    search,
                    rounds,
                )
                &&& swap_search_outcome(search, rounds) == Some(r)
            },
        r.is_ok() ==> r.unwrap() <= remaining_amount,
        r.is_err() ==> r.unwrap_err() == ZapError::MathOverflow,
        remaining_amount <= u64::MAX / 2 ==> r.is_ok(),
        r.is_ok() && r.unwrap() != 0 ==> exists|result: SimulateSwapResult|
            #[trigger] is_swap_result_of(
                *quotes,
                *pool,
                *token_a_transfer_fee_calculator,
                *token_b_transfer_fee_calculator,
                r.unwrap(),
                trade_direction,
                *fee_handler,
                *fee_mode,
                result,
            ),
{
    let mut search = SwapSearch::new(remaining_amount);
    let mut round: u8 = 0;
    let ghost fee_a = *token_a_transfer_fee_calculator;
    let ghost fee_b = *token_b_transfer_fee_calculator;
    while round < MAX_SEARCH_ROUNDS && !search.finished
        invariant
            quotes.total(),
            round <= MAX_SEARCH_ROUNDS,
            fee_a == *token_a_transfer_fee_calculator,
            fee_b == *token_b_transfer_fee_calculator,
            swap_search_reached(
                *quotes,
                *pool,
                fee_a,
                fee_b,
                remaining_amount,
                trade_direction,
                *fee_handler,
                *fee_mode,
                pool_amount_a,
                pool_amount_b,
                search,
                round as nat,
            ),
            search.well_formed(),
            search.max_swap_amount <= remaining_amount,
            search.swap_amount <= remaining_amount,
            search.swap_amount != 0 ==> exists|result: SimulateSwapResult|
                #[trigger] is_swap_result_of(
                    *quotes,
                    *pool,
                    *token_a_transfer_fee_calculator,
                    *token_b_transfer_fee_calculator,
                    search.swap_amount,
                    trade_direction,
                    *fee_handler,
                    *fee_mode,
                    result,
                ),
        decreases MAX_SEARCH_ROUNDS - round,
    {
        let ghost before = search;
        let amount_in = search.candidate()?;
        let simulation = calculate_swap_result(
            quotes,
            pool,
            token_a_transfer_fee_calculator,
            token_b_transfer_fee_calculator,
            amount_in,
            trade_direction,
            fee_handler,
            fee_mode,
        );
        let ghost answers = choose|answers: QuoteAnswers|
            quotes_answered(
                *quotes,
                *pool,
                fee_a,
                fee_b,
                amount_in,
                trade_direction,
                *fee_handler,
                *fee_mode,
                answers,
            ) && simulation == swap_result_outcome(
                *pool,
                fee_a,
                fee_b,
                amount_in,
                trade_direction,
                *fee_handler,
                *fee_mode,
                answers,
            );
        let outcome = match simulation {
            Ok(swap_result) => {
                match validate_swap_result(
                    &swap_result,
                    token_a_transfer_fee_calculator,
                    token_b_transfer_fee_calculator,
                    remaining_amount,
                    pool_amount_a,
                    pool_amount_b,
                    trade_direction,
                ) {
                    Ok(status) => RoundOutcome::Status(status),
                    Err(_) => RoundOutcome::NotValidated,
                }
            },
            Err(_) => RoundOutcome::NotSimulated,
        };
        search = search.advance(amount_in, outcome, trade_direction);
        round += 1;
        proof {
            assert(outcome == round_outcome_spec(
                simulation,
                fee_a,
                fee_b,
                remaining_amount,
                pool_amount_a,
                pool_amount_b,
                trade_direction,
            ));
            assert(quotes_answered(
                *quotes,
                *pool,
                fee_a,
                fee_b,
                before.candidate_spec().unwrap(),
                trade_direction,
                *fee_handler,
                *fee_mode,
                answers,
            ));
        }
    }
    Ok(search.swap_amount)
}

/// Whether `found` is what the search for the amount to swap may come to
/// over `remaining_amount`: the outcome at a state that at most twenty
/// rounds lead to from the initial state on answers of the pool's functions.
pub open spec fn is_swap_amount_found<R, G, N, D>(
    quotes: PoolQuotes<R, G, N, D>,
    pool: PoolSnapshot,
    fee_a: TransferFeeCalculator,
    fee_b: TransferFeeCalculator,
    remaining_amount: u64,
    trade_direction: TradeDirection,
    fee_handler: FeeHandler,
    fee_mode: FeeMode,
    pool_amount_a: u64,
    pool_amount_b: u64,
    found: Result<u64, ZapError>,
) -> bool where
    R: Fn(u64) -> Result<u64, ZapError>,
    G: Fn(u64, u64) -> Result<u64, ZapError>,
    N: Fn(u64) -> Result<u128, ZapError>,
    D: Fn(u128) -> Result<u64, ZapError>,
 {
    exists|search: SwapSearch, rounds: nat|
        {
            &&& rounds <= MAX_SEARCH_ROUNDS
            &&& #[trigger] swap_search_reached(
                quotes,
                pool,
                fee_a,
                fee_b,
                remaining_amount,
                trade_direction,
                fee_handler,
                fee_mode,
                pool_amount_a,
                pool_amount_b,
                search,
                rounds,
            )
            &&& swap_search_outcome(search, rounds) == Some(found)
        }
}

/// Whether `simulation` is what the simulation of a swap of `amount_in` may
/// come to: what `swap_result_outcome` makes of answers that the pool's
/// functions gave.
pub open spec fn is_simulation_of<R, G, N, D>(
    quotes: PoolQuotes<R, G, N, D>,
    pool: PoolSnapshot,
    fee_a: TransferFeeCalculator,
    fee_b: TransferFeeCalculator,
    amount_in: u64,
    trade_direction: TradeDirection,
    fee_handler: FeeHandler,
    fee_mode: FeeMode,
    simulation: Result<SimulateSwapResult, ZapError>,
) -> bool where
    R: Fn(u64) -> Result<u64, ZapError>,
    G: Fn(u64, u64) -> Result<u64, ZapError>,
    N: Fn(u64) -> Result<u128, ZapError>,
    D: Fn(u128) -> Result<u64, ZapError>,
 {
    exists|answers: QuoteAnswers|
        {
            &&& #[trigger] quotes_answered(
                quotes,
                pool,
                fee_a,
                fee_b,
                amount_in,
                trade_direction,
                fee_handler,
                fee_mode,
                answers,
            )
            &&& simulation == swap_result_outcome(
                pool,
                fee_a,
                fee_b,
                amount_in,
                trade_direction,
                fee_handler,
                fee_mode,
                answers,
            )
        }
}

/// The quote of a swap, given what the search found and what the
/// simulation of a swap of that amount came to: the amount to swap and
/// what the user receives for it. A search that found nothing to swap
/// quotes nothing for nothing, and no swap is simulated for it. A failure
/// of the search or of the simulation is the quote's.
pub open spec fn swap_quote_spec(
    found: Result<u64, ZapError>,
    simulation: Result<SimulateSwapResult, ZapError>,
) -> Result<(u64, u64), ZapError> {
    match found {
        Err(e) => Err(e),
        Ok(swap_in_amount) => if swap_in_amount == 0 {
            Ok((0, 0))
        } else {
            match simulation {
                Err(e) => Err(e),
                Ok(swap_result) => Ok((swap_in_amount, swap_result.user_amount_in)),
            }
        },
    }
}

/// Quotes the swap of what is left of the token in surplus: searches for
/// the amount to swap and simulates the swap of the amount found.
///
/// Whatever the pool's functions return, the quote, a failure too, is what
/// `swap_quote_spec` makes of an outcome of the search and, where the
/// search found an amount, of a simulation of its swap. The amount quoted
/// is at most `remaining_amount`.
pub fn calculate_swap_quote<R, G, N, D>(
    quotes: &PoolQuotes<R, G, N, D>,
    pool: &PoolSnapshot,
    token_a_transfer_fee_calculator: &TransferFeeCalculator,
    token_b_transfer_fee_calculator: &TransferFeeCalculator,
    remaining_amount: u64,
    trade_direction: TradeDirection,
    fee_handler: &FeeHandler,
    fee_mode: &FeeMode,
    pool_amount_a: u64,
    pool_amount_b: u64,
) -> (r: Result<(u64, u64), ZapError>) where
    R: Fn(u64) -> Result<u64, ZapError>,
    G: Fn(u64, u64) -> Result<u64, ZapError>,
    N: Fn(u64) -> Result<u128, ZapError>,
    D: Fn(u128) -> Result<u64, ZapError>,

    requires
        quotes.total(),
    ensures
        exists|found: Result<u64, ZapError>, simulation: Result<SimulateSwapResult, ZapError>|
            {
                &&& #[trigger] is_swap_amount_found(
                    *quotes,
                    *pool,
                    *token_a_transfer_fee_calculator,
                    *token_b_transfer_fee_calculator,
                    remaining_amount,
                    trade_direction,
                    *fee_handler,
                    *fee_mode,
                    pool_amount_a,
                    pool_amount_b,
                    found,
                )
                &&& found.is_ok() && found.unwrap() != 0 ==> is_simulation_of(
                    *quotes,
                    *pool,
                    *token_a_transfer_fee_calculator,
                    *token_b_transfer_fee_calculator,
                    found.unwrap(),
                    trade_direction,
                    *fee_handler,
                    *fee_mode,
                    simulation,
                )
                &&& r == #[trigger] swap_quote_spec(found, simulation)
            },
        r matches Ok(quote) ==> quote.0 <= remaining_amount,
{
    let ghost unasked = Err::<SimulateSwapResult, ZapError>(ZapError::MathOverflow);
    let found = calculate_swap_amount(
        quotes,
        pool,
        token_a_transfer_fee_calculator,
        token_b_transfer_fee_calculator,
        remaining_amount,
        trade_direction,
        fee_handler,
        fee_mode,
        pool_amount_a,
        pool_amount_b,
    );
    proof {
        assert(is_swap_amount_found(
            *quotes,
            *pool,
            *token_a_transfer_fee_calculator,
            *token_b_transfer_fee_calculator,
            remaining_amount,
            trade_direction,
            *fee_handler,
            *fee_mode,
            pool_amount_a,
            pool_amount_b,
            found,
        ));
    }
    let swap_in_amount = match found {
        Ok(v) => v,
        Err(e) => {
            proof {
                assert(Err::<(u64, u64), ZapError>(e) == swap_quote_spec(found, unasked));
            }
            return Err(e);
        },
    };
    if swap_in_amount == 0 {
        proof {
            assert(Ok::<(u64, u64), ZapError>((0, 0)) == swap_quote_spec(found, unasked));
        }
        return Ok((0, 0));
    }
    let simulation = calculate_swap_result(
        quotes,
        pool,
        token_a_transfer_fee_calculator,
        token_b_transfer_fee_calculator,
        swap_in_amount,
        trade_direction,
        fee_handler,
        fee_mode,
    );
    proof {
        assert(is_simulation_of(
            *quotes,
            *pool,
            *token_a_transfer_fee_calculator,
            *token_b_transfer_fee_calculator,
            swap_in_amount,
            trade_direction,
            *fee_handler,
            *fee_mode,
            simulation,
        ));
    }
    let quote = match simulation {
        Ok(swap_result) => Ok((swap_in_amount, swap_result.user_amount_in)),
        Err(e) => Err(e),
    };
    proof {
        assert(quote == swap_quote_spec(found, simulation));
    }
    quote
}

} // verus!
