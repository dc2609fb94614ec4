//! The zap-in into a DLMM pool for a position that does not exist yet.
//!
//! The position is laid out around the active bin, as many bins to the left
//! as to the right. Once the caller has made the position, the deposit is
//! given its shape and handed to the pool program as one rebalancing; what
//! the pool program does not take stays in the user's ledger.

use vstd::prelude::*;
use crate::constants::{same_key, Pubkey};
use crate::dlmm_utils::{StrategyType, UnparsedAddLiquidityParams, ZapInRebalancingParams};
use crate::error::ZapError;
use crate::ledger::UserLedger;
use crate::token::TransferFeeCalculator;

verus! {

/// The address that owns an account which nobody has made yet.
pub const DEFAULT_PUBKEY: Pubkey = [
    0, 0, 0, 0, 0, 0, 0, 0,
    0, 0, 0, 0, 0, 0, 0, 0,
    0, 0, 0, 0, 0, 0, 0, 0,
    0, 0, 0, 0, 0, 0, 0, 0,
];

/// The pool program is told not to shrink the position on either side.
pub const SHRINK_MODE_NONE: u8 = 3;

/// The bins of a position.
#[derive(Debug, Clone, Copy, PartialEq, Eq, Structural)]
pub struct PositionRange {
    /// The first bin.
    pub lower_bin_id: i32,
    /// The number of bins.
    pub width: i32,
}

/// The position around `active_id` with `bin_delta` bins on each side, if
/// its first bin has an id.
pub open spec fn position_range_spec(active_id: i32, bin_delta: u8) -> Option<PositionRange> {
    if active_id - bin_delta < i32::MIN {
        None
    } else {
        Some(
            PositionRange {
                lower_bin_id: (active_id - bin_delta) as i32,
                width: (2 * bin_delta + 1) as i32,
            },
        )
    }
}

/// Lays out a position around the active bin: `bin_delta` bins to the left,
/// `bin_delta` bins to the right. It fails with `MathOverflow` where the
/// first bin would have no id.
pub fn position_range(active_id: i32, bin_delta: u8) -> (r: Result<PositionRange, ZapError>)
    ensures
        r == match position_range_spec(active_id, bin_delta) {
            Some(range) => Ok::<PositionRange, ZapError>(range),
            None => Err::<PositionRange, ZapError>(ZapError::MathOverflow),
        },
{
    let bin_delta: i32 = bin_delta as i32;
    let lower_bin_id = match active_id.checked_sub(bin_delta) {
        Some(v) => v,
        None => {
            return Err(ZapError::MathOverflow);
        },
    };
    let width = bin_delta * 2 + 1;
    Ok(PositionRange { lower_bin_id, width })
}

/// Checks that the account of the position has not been made yet: nobody
/// owns it and it holds no data. It fails with `InvalidPosition` otherwise.
pub fn check_position_uninitialized(owner: &Pubkey, data_is_empty: bool) -> (r: Result<
    (),
    ZapError,
>)
    ensures
        r.is_ok() <==> owner@ == DEFAULT_PUBKEY@ && data_is_empty,
        r.is_err() ==> r.unwrap_err() == ZapError::InvalidPosition,
{
    if same_key(owner, &DEFAULT_PUBKEY) && data_is_empty {
        Ok(())
    } else {
        Err(ZapError::InvalidPosition)
    }
}

/// One deposit of a rebalancing.
#[derive(Debug, Clone, Copy, PartialEq, Eq, Structural)]
pub struct AddLiquidityPlan {
    /// The first bin, relative to the active bin.
    pub min_delta_id: i32,
    /// The last bin, relative to the active bin.
    pub max_delta_id: i32,
    /// The line of the deposit.
    pub line: UnparsedAddLiquidityParams,
    /// Whether the active bin takes token X.
    pub favor_x_in_active_id: bool,
}

/// What the pool program is asked to do.
#[derive(Debug, Clone, Copy, PartialEq, Eq, Structural)]
pub struct RebalancePlan {
    /// The active bin that the user saw.
    pub active_id: i32,
    /// How far the active bin may have moved since.
    pub max_active_bin_slippage: u16,
    /// The most to take of token X.
    pub max_deposit_x_amount: u64,
    /// The most to take of token Y.
    pub max_deposit_y_amount: u64,
    /// Which sides of the position may shrink: none.
    pub shrink_mode: u8,
    /// The deposit.
    pub add: AddLiquidityPlan,
}

/// The first and the last bin of a position relative to the pool's active
/// bin, if both can be formed.
pub open spec fn delta_ids_spec(range: PositionRange, lb_pair_active_id: i32) -> Option<(i32, i32)> {
    let min_delta = range.lower_bin_id - lb_pair_active_id;
    let upper = range.lower_bin_id + range.width;
    let max_delta = upper - 1 - lb_pair_active_id;
    if min_delta < i32::MIN || min_delta > i32::MAX || upper < i32::MIN || upper > i32::MAX
        || upper - 1 < i32::MIN || max_delta < i32::MIN || max_delta > i32::MAX {
        None
    } else {
        Some((min_delta as i32, max_delta as i32))
    }
}

/// Computes the first and the last bin of a position relative to the
/// pool's active bin.
fn delta_ids(range: &PositionRange, lb_pair_active_id: i32) -> (r: Result<(i32, i32), ZapError>)
    ensures
        r == match delta_ids_spec(*range, lb_pair_active_id) {
            Some(v) => Ok::<(i32, i32), ZapError>(v),
            None => Err::<(i32, i32), ZapError>(ZapError::MathOverflow),
        },
{
    let min_delta_id = match range.lower_bin_id.checked_sub(lb_pair_active_id) {
        Some(v) => v,
        None => {
            return Err(ZapError::MathOverflow);
        },
    };
    let upper = match range.lower_bin_id.checked_add(range.width) {
        Some(v) => v,
        None => {
            return Err(ZapError::MathOverflow);
        },
    };
    let upper_bin_id = match upper.checked_sub(1) {
        Some(v) => v,
        None => {
            return Err(ZapError::MathOverflow);
        },
    };
    let max_delta_id = match upper_bin_id.checked_sub(lb_pair_active_id) {
        Some(v) => v,
        None => {
            return Err(ZapError::MathOverflow);
        },
    };
    Ok((min_delta_id, max_delta_id))
}

/// The rebalancing that deposits what the ledger holds into a position,
/// on plain values.
pub open spec fn rebalance_plan_spec(
    ledger: UserLedger,
    fee_x: TransferFeeCalculator,
    fee_y: TransferFeeCalculator,
    range: PositionRange,
    lb_pair_active_id: i32,
    bin_step: u16,
    active_id: i32,
    max_active_bin_slippage: u16,
    favor_x_in_active_id: bool,
    strategy: StrategyType,
) -> Result<RebalancePlan, ZapError> {
    match delta_ids_spec(range, lb_pair_active_id) {
        None => Err(ZapError::MathOverflow),
        Some((min_delta_id, max_delta_id)) => match (
            fee_x.excluded_spec(ledger.amount_a),
            fee_y.excluded_spec(ledger.amount_b),
        ) {
            (Some(net_x), Some(net_y)) => match (ZapInRebalancingParams {
                amount_x: net_x.amount,
                amount_y: net_y.amount,
                min_delta_id,
                max_delta_id,
                strategy,
                favor_x_in_active_id,
                bin_step,
                active_id: lb_pair_active_id,
            }).rebalancing_spec() {
                Err(e) => Err(e),
                Ok(line) => Ok(
                    RebalancePlan {
                        active_id,
                        max_active_bin_slippage,
                        max_deposit_x_amount: ledger.amount_a,
                        max_deposit_y_amount: ledger.amount_b,
                        shrink_mode: SHRINK_MODE_NONE,
                        add: AddLiquidityPlan {
                            min_delta_id,
                            max_delta_id,
                            line,
                            favor_x_in_active_id,
                        },
                    },
                ),
            },
            _ => Err(ZapError::MathOverflow),
        },
    }
}

/// Plans the rebalancing that deposits what the ledger holds into the
/// position. The shape is fitted to the amounts net of transfer fees, over
/// the bins of the position relative to the pool's active bin; the pool
/// program may take up to what the ledger holds.
pub fn plan_rebalance(
    ledger: &UserLedger,
    token_x_transfer_fee_calculator: &TransferFeeCalculator,
    token_y_transfer_fee_calculator: &TransferFeeCalculator,
    range: &PositionRange,
    lb_pair_active_id: i32,
    bin_step: u16,
    active_id: i32,
    max_active_bin_slippage: u16,
    favor_x_in_active_id: bool,
    strategy: StrategyType,
) -> (r: Result<RebalancePlan, ZapError>)
    ensures
        r == rebalance_plan_spec(
            *ledger,
            *token_x_transfer_fee_calculator,
            *token_y_transfer_fee_calculator,
            *range,
            lb_pair_active_id,
            bin_step,
            active_id,
            max_active_bin_slippage,
            favor_x_in_active_id,
            strategy,
        ),
{
    let max_deposit_x_amount = ledger.amount_a;
    let max_deposit_y_amount = ledger.amount_b;
    let (min_delta_id, max_delta_id) = delta_ids(range, lb_pair_active_id)?;
    let amount_x = token_x_transfer_fee_calculator.calculate_transfer_fee_excluded_amount(
        max_deposit_x_amount,
    );
    let amount_y = token_y_transfer_fee_calculator.calculate_transfer_fee_excluded_amount(
        max_deposit_y_amount,
    );
    let (amount_x, amount_y) = match (amount_x, amount_y) {
        (Ok(x), Ok(y)) => (x.amount, y.amount),
        _ => {
            return Err(ZapError::MathOverflow);
        },
    };
    let params = ZapInRebalancingParams {
        amount_x,
        amount_y,
        active_id: lb_pair_active_id,
        bin_step,
        min_delta_id,
        max_delta_id,
        favor_x_in_active_id,
        strategy,
    };
    let line = params.get_rebalancing_params()?;
    Ok(
        RebalancePlan {
            active_id,
            max_active_bin_slippage,
            max_deposit_x_amount,
            max_deposit_y_amount,
            shrink_mode: SHRINK_MODE_NONE,
            add: AddLiquidityPlan { min_delta_id, max_delta_id, line, favor_x_in_active_id },
        },
    )
}

} // verus!
