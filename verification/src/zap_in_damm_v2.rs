//! The zap-in into a DAMM v2 pool out of a user's ledger, as a sequence of
//! decisions.
//!
//! The instruction adds liquidity first, so that a swap which follows pays
//! part of its fee back to the user; then it swaps what is left of the
//! token in surplus, checks that the swap did not move the price too far,
//! and adds liquidity again. The calls into the pool program are made by
//! the caller; between them, the caller reports the balances of the user's
//! token accounts and follows the decisions taken here. Each stage hands
//! out the next, so that the stages can only be gone through in order.

use vstd::prelude::*;
use crate::error::ZapError;
use crate::ledger::{balance_after, UserLedger};
use crate::liquidity::{get_price_change_bps, price_change_bps_spec};
use crate::pool::{PoolSnapshot, TradeDirection};
use crate::token::TransferFeeCalculator;

verus! {

/// The first deposit is decided; the caller makes it.
#[derive(Debug, Clone, Copy, PartialEq, Eq, Structural)]
pub struct ZapInFirstDeposit {
    /// The direction of the swap that evens out what the deposit leaves.
    pub trade_direction: TradeDirection,
    /// The balance of the user's account of token A before the deposit.
    pub balance_a: u64,
    /// The balance of the user's account of token B before the deposit.
    pub balance_b: u64,
}

/// The first deposit is made and the ledger knows it; the caller swaps.
#[derive(Debug, Clone, Copy, PartialEq, Eq, Structural)]
pub struct ZapInSwap {
    /// The direction of the swap.
    pub trade_direction: TradeDirection,
    /// The balance of the user's account of token A before the swap.
    pub balance_a: u64,
    /// The balance of the user's account of token B before the swap.
    pub balance_b: u64,
}

/// The swap is made and the second deposit is decided; the caller makes it.
#[derive(Debug, Clone, Copy, PartialEq, Eq, Structural)]
pub struct ZapInSecondDeposit {
    /// The balance of the user's account of token A before the deposit.
    pub balance_a: u64,
    /// The balance of the user's account of token B before the deposit.
    pub balance_b: u64,
}

/// What the caller is to do after the first deposit.
#[derive(Debug, Clone, Copy, PartialEq, Eq, Structural)]
pub enum AfterFirstDeposit {
    /// Something is left of the token in surplus: find out how much of it
    /// to swap.
    QuoteSwap {
        /// What is left of the token in surplus.
        remaining_amount: u64,
        /// The direction of the swap.
        trade_direction: TradeDirection,
    },
    /// Nothing is left of the token in surplus: go on without a swap.
    NoSwap,
}

/// What the caller is to do with the quote of a swap.
#[derive(Debug, Clone, Copy, PartialEq, Eq, Structural)]
pub enum SwapDecision {
    /// Swap this amount.
    Swap {
        /// What is swapped.
        amount_in: u64,
        /// The direction of the swap.
        trade_direction: TradeDirection,
    },
    /// End the instruction here, successfully.
    Finish,
}

/// The decision on the quote of a swap: an amount in or an amount out of
/// zero needs no swap, and a quote that failed is no reason to fail.
pub open spec fn swap_decision_spec(
    quote: Result<(u64, u64), ZapError>,
    trade_direction: TradeDirection,
) -> SwapDecision {
    match quote {
        Ok((swap_in_amount, swap_out_amount)) => if swap_in_amount == 0 || swap_out_amount == 0 {
            SwapDecision::Finish
        } else {
            SwapDecision::Swap { amount_in: swap_in_amount, trade_direction }
        },
        Err(_) => SwapDecision::Finish,
    }
}

/// What the caller is to do once the ledger holds `amount_a` and `amount_b`
/// after the first deposit.
pub open spec fn after_first_deposit_spec(
    amount_a: u64,
    amount_b: u64,
    trade_direction: TradeDirection,
) -> AfterFirstDeposit {
    let remaining = match trade_direction {
        TradeDirection::AtoB => amount_a,
        TradeDirection::BtoA => amount_b,
    };
    if remaining > 0 {
        AfterFirstDeposit::QuoteSwap { remaining_amount: remaining, trade_direction }
    } else {
        AfterFirstDeposit::NoSwap
    }
}

/// Starts a zap-in: derives from the ledger the liquidity of the first
/// deposit and the direction of the swap that follows it, and notes the
/// balances of the user's token accounts. A liquidity of zero means that
/// the first deposit is left out.
pub fn start_zap_in(
    ledger: &UserLedger,
    token_a_transfer_fee_calculator: &TransferFeeCalculator,
    token_b_transfer_fee_calculator: &TransferFeeCalculator,
    pool: &PoolSnapshot,
    user_amount_a: u64,
    user_amount_b: u64,
) -> (r: Result<(ZapInFirstDeposit, u128), ZapError>)
    ensures
        r.is_ok() <==> {
            let net_a = token_a_transfer_fee_calculator.excluded_spec(ledger.amount_a);
            let net_b = token_b_transfer_fee_calculator.excluded_spec(ledger.amount_b);
            &&& net_a.is_some() && net_b.is_some()
            &&& pool.sqrt_min_price < pool.sqrt_price < pool.sqrt_max_price
            &&& crate::liquidity::liquidity_from_a_spec(
                net_a.unwrap().amount as nat,
                pool.sqrt_max_price as nat,
                pool.sqrt_price as nat,
            ) <= u128::MAX
            &&& crate::liquidity::liquidity_from_b_spec(
                net_b.unwrap().amount as nat,
                pool.sqrt_min_price as nat,
                pool.sqrt_price as nat,
            ) <= u128::MAX
        },
        r.is_ok() ==> {
            let (stage, liquidity) = r.unwrap();
            let net_a = token_a_transfer_fee_calculator.excluded_spec(ledger.amount_a);
            let net_b = token_b_transfer_fee_calculator.excluded_spec(ledger.amount_b);
            &&& (liquidity as nat, stage.trade_direction)
                == UserLedger::liquidity_and_direction_spec(
                net_a.unwrap().amount,
                net_b.unwrap().amount,
                pool.sqrt_price,
                pool.sqrt_min_price,
                pool.sqrt_max_price,
            )
            &&& stage.balance_a == user_amount_a
            &&& stage.balance_b == user_amount_b
        },
        r.is_err() ==> r.unwrap_err() == UserLedger::liquidity_error_spec(
            token_a_transfer_fee_calculator.excluded_spec(ledger.amount_a),
            token_b_transfer_fee_calculator.excluded_spec(ledger.amount_b),
            pool.sqrt_price,
            pool.sqrt_min_price,
            pool.sqrt_max_price,
        ),
{
    let (liquidity, trade_direction) = ledger.get_liquidity_from_amounts_and_trade_direction(
        token_a_transfer_fee_calculator,
        token_b_transfer_fee_calculator,
        pool.sqrt_price,
        pool.sqrt_min_price,
        pool.sqrt_max_price,
    )?;
    Ok(
        (
            ZapInFirstDeposit { trade_direction, balance_a: user_amount_a, balance_b: user_amount_b },
            liquidity,
        ),
    )
}

impl ZapInFirstDeposit {
    /// Takes note of the first deposit: the ledger takes over the change of
    /// the two balances, and what it then holds of the token in surplus is
    /// what may be swapped. Where the ledger cannot take over the change,
    /// it stays as it was.
    pub fn after_first_deposit(
        self,
        ledger: &mut UserLedger,
        user_amount_a: u64,
        user_amount_b: u64,
    ) -> (r: Result<(ZapInSwap, AfterFirstDeposit), ZapError>)
        ensures
            r.is_ok() <==> balance_after(old(ledger).amount_a, self.balance_a, user_amount_a).is_some()
                && balance_after(old(ledger).amount_b, self.balance_b, user_amount_b).is_some(),
            r.is_ok() ==> {
                let (stage, next) = r.unwrap();
                &&& final(ledger).amount_a == old(ledger).amount_a + user_amount_a - self.balance_a
                &&& final(ledger).amount_b == old(ledger).amount_b + user_amount_b - self.balance_b
                &&& stage == (ZapInSwap {
                    trade_direction: self.trade_direction,
                    balance_a: user_amount_a,
                    balance_b: user_amount_b,
                })
                &&& next == after_first_deposit_spec(
                    final(ledger).amount_a,
                    final(ledger).amount_b,
                    self.trade_direction,
                )
            },
            r.is_err() ==> r.unwrap_err() == ZapError::MathOverflow && final(ledger).amount_a
                == old(ledger).amount_a && final(ledger).amount_b == old(ledger).amount_b,
            final(ledger).owner == old(ledger).owner,
    {
        ledger.update_ledger_balances(self.balance_a, user_amount_a, self.balance_b, user_amount_b)?;
        let stage = ZapInSwap {
            trade_direction: self.trade_direction,
            balance_a: user_amount_a,
            balance_b: user_amount_b,
        };
        let remaining_amount = match self.trade_direction {
            TradeDirection::AtoB => ledger.amount_a,
            TradeDirection::BtoA => ledger.amount_b,
        };
        if remaining_amount > 0 {
            Ok(
                (
                    stage,
                    AfterFirstDeposit::QuoteSwap {
                        remaining_amount,
                        trade_direction: self.trade_direction,
                    },
                ),
            )
        } else {
            Ok((stage, AfterFirstDeposit::NoSwap))
        }
    }
}

/// What `after_swap` makes of a swap, on plain values: the error, or the
/// balances of the ledger and the liquidity of the second deposit.
pub open spec fn after_swap_spec(
    ledger_a: u64,
    ledger_b: u64,
    stage: ZapInSwap,
    fee_a: TransferFeeCalculator,
    fee_b: TransferFeeCalculator,
    pool: PoolSnapshot,
    pre_sqrt_price: u128,
    max_sqrt_price_change_bps: u32,
    user_amount_a: u64,
    user_amount_b: u64,
) -> Result<(u64, u64, nat), ZapError> {
    if pre_sqrt_price == 0 {
        Err(ZapError::MathOverflow)
    } else if price_change_bps_spec(pre_sqrt_price as nat, pool.sqrt_price as nat) > u32::MAX {
        Err(ZapError::TypeCastFailed)
    } else if price_change_bps_spec(pre_sqrt_price as nat, pool.sqrt_price as nat)
        > max_sqrt_price_change_bps {
        Err(ZapError::ExceededSlippage)
    } else {
        match (
            balance_after(ledger_a, stage.balance_a, user_amount_a),
            balance_after(ledger_b, stage.balance_b, user_amount_b),
        ) {
            (Some(amount_a), Some(amount_b)) => {
                let net_a = fee_a.excluded_spec(amount_a);
                let net_b = fee_b.excluded_spec(amount_b);
                if net_a.is_some() && net_b.is_some() && pool.sqrt_min_price < pool.sqrt_price
                    < pool.sqrt_max_price && crate::liquidity::liquidity_from_a_spec(
                    net_a.unwrap().amount as nat,
                    pool.sqrt_max_price as nat,
                    pool.sqrt_price as nat,
                ) <= u128::MAX && crate::liquidity::liquidity_from_b_spec(
                    net_b.unwrap().amount as nat,
                    pool.sqrt_min_price as nat,
                    pool.sqrt_price as nat,
                ) <= u128::MAX {
                    Ok(
                        (
                            amount_a,
                            amount_b,
                            UserLedger::liquidity_and_direction_spec(
                                net_a.unwrap().amount,
                                net_b.unwrap().amount,
                                pool.sqrt_price,
                                pool.sqrt_min_price,
                                pool.sqrt_max_price,
                            ).0,
                        ),
                    )
                } else {
                    Err(
                        UserLedger::liquidity_error_spec(
                            net_a,
                            net_b,
                            pool.sqrt_price,
                            pool.sqrt_min_price,
                            pool.sqrt_max_price,
                        ),
                    )
                }
            },
            _ => Err(ZapError::MathOverflow),
        }
    }
}

impl ZapInSwap {
    /// Decides on the quote of a swap. A quote that failed, and a quote of
    /// nothing in or nothing out, end the instruction without a swap and
    /// without an error: what is left stays in the ledger.
    pub fn decide_swap(&self, quote: Result<(u64, u64), ZapError>) -> (r: SwapDecision)
        ensures
            r == swap_decision_spec(quote, self.trade_direction),
    {
        match quote {
            Ok((swap_in_amount, swap_out_amount)) => {
                if swap_in_amount == 0 || swap_out_amount == 0 {
                    SwapDecision::Finish
                } else {
                    SwapDecision::Swap {
                        amount_in: swap_in_amount,
                        trade_direction: self.trade_direction,
                    }
                }
            },
            Err(_) => SwapDecision::Finish,
        }
    }

    /// Takes note of the swap, or of its absence. The price of the pool
    /// must not have moved, from the price that the user saw, by more basis
    /// points than the user allows; the call fails with `ExceededSlippage`
    /// otherwise. The ledger takes over the change of the two balances, and
    /// the liquidity of the second deposit is derived from it at the pool's
    /// price now. A liquidity of zero means that the second deposit is left
    /// out. Whenever the call fails, the ledger stays as it was.
    pub fn after_swap(
        self,
        ledger: &mut UserLedger,
        token_a_transfer_fee_calculator: &TransferFeeCalculator,
        token_b_transfer_fee_calculator: &TransferFeeCalculator,
        pool: &PoolSnapshot,
        pre_sqrt_price: u128,
        max_sqrt_price_change_bps: u32,
        user_amount_a: u64,
        user_amount_b: u64,
    ) -> (r: Result<(ZapInSecondDeposit, u128), ZapError>)
        ensures
            final(ledger).owner == old(ledger).owner,
            match r {
                Ok((stage, liquidity)) => after_swap_spec(
                    old(ledger).amount_a,
                    old(ledger).amount_b,
                    self,
                    *token_a_transfer_fee_calculator,
                    *token_b_transfer_fee_calculator,
                    *pool,
                    pre_sqrt_price,
                    max_sqrt_price_change_bps,
                    user_amount_a,
                    user_amount_b,
                ) == Ok::<(u64, u64, nat), ZapError>(
                    (final(ledger).amount_a, final(ledger).amount_b, liquidity as nat),
                ) && stage == (ZapInSecondDeposit {
                    balance_a: user_amount_a,
                    balance_b: user_amount_b,
                }),
                Err(e) => after_swap_spec(
                    old(ledger).amount_a,
                    old(ledger).amount_b,
                    self,
                    *token_a_transfer_fee_calculator,
                    *token_b_transfer_fee_calculator,
                    *pool,
                    pre_sqrt_price,
                    max_sqrt_price_change_bps,
                    user_amount_a,
                    user_amount_b,
                ) == Err::<(u64, u64, nat), ZapError>(e),
            },
            r.is_err() ==> final(ledger).amount_a == old(ledger).amount_a && final(ledger).amount_b
                == old(ledger).amount_b,
    {
        let sqrt_price_change_bps = get_price_change_bps(pre_sqrt_price, pool.sqrt_price)?;
        if sqrt_price_change_bps > max_sqrt_price_change_bps {
            return Err(ZapError::ExceededSlippage);
        }
        let mut updated = UserLedger {
            owner: ledger.owner,
            amount_a: ledger.amount_a,
            amount_b: ledger.amount_b,
        };
        updated.update_ledger_balances(self.balance_a, user_amount_a, self.balance_b, user_amount_b)?;
        let (liquidity, _trade_direction) = updated.get_liquidity_from_amounts_and_trade_direction(
            token_a_transfer_fee_calculator,
            token_b_transfer_fee_calculator,
            pool.sqrt_price,
            pool.sqrt_min_price,
            pool.sqrt_max_price,
        )?;
        ledger.amount_a = updated.amount_a;
        ledger.amount_b = updated.amount_b;
        Ok((ZapInSecondDeposit { balance_a: user_amount_a, balance_b: user_amount_b }, liquidity))
    }
}

impl ZapInSecondDeposit {
    /// Takes note of the second deposit: the ledger takes over the change
    /// of the two balances, and the zap-in is finished. What the ledger
    /// then holds is what could not be deposited.
    pub fn after_second_deposit(
        self,
        ledger: &mut UserLedger,
        user_amount_a: u64,
        user_amount_b: u64,
    ) -> (r: Result<(), ZapError>)
        ensures
            r.is_ok() <==> balance_after(old(ledger).amount_a, self.balance_a, user_amount_a).is_some()
                && balance_after(old(ledger).amount_b, self.balance_b, user_amount_b).is_some(),
            r.is_ok() ==> {
                &&& final(ledger).amount_a == old(ledger).amount_a + user_amount_a - self.balance_a
                &&& final(ledger).amount_b == old(ledger).amount_b + user_amount_b - self.balance_b
            },
            r.is_err() ==> r.unwrap_err() == ZapError::MathOverflow && final(ledger).amount_a
                == old(ledger).amount_a && final(ledger).amount_b == old(ledger).amount_b,
            final(ledger).owner == old(ledger).owner,
    {
        ledger.update_ledger_balances(self.balance_a, user_amount_a, self.balance_b, user_amount_b)
    }
}

} // verus!
