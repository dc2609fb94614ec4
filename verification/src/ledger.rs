//! The ledger of one user: what has arrived for the user and is not yet
//! deposited, per token.
//!
//! Balances move by deltas. An instruction that transfers tokens reads the
//! balance of the token account before and after, and the ledger takes over
//! the difference; several legs in a row thus add up without counting any
//! transfer twice.

use vstd::prelude::*;
use crate::constants::Pubkey;
use crate::error::ZapError;
use crate::liquidity::{
    get_liquidity_from_amount_a, get_liquidity_from_amount_b, liquidity_from_a_spec,
    liquidity_from_b_spec,
};
use crate::pool::TradeDirection;
use crate::token::{TransferFeeCalculator, TransferFeeExcludedAmount};

verus! {

/// The running balances of one owner.
#[derive(Debug, Clone, Copy, PartialEq, Eq)]
pub struct UserLedger {
    /// The owner of the ledger.
    pub owner: Pubkey,
    /// What is left undeposited of token A.
    pub amount_a: u64,
    /// What is left undeposited of token B.
    pub amount_b: u64,
}

/// A balance after it took over the change from `pre` to `post`, where the
/// sum fits 64 bits and the change does not take more than there is.
pub open spec fn balance_after(balance: u64, pre: u64, post: u64) -> Option<u64> {
    if balance + post > u64::MAX || balance + post - pre < 0 {
        None
    } else {
        Some((balance + post - pre) as u64)
    }
}

/// Two legs in a row count as one: a balance that took over the change from
/// `first` to `second` and then the change from `second` to `third` has
/// taken over the change from `first` to `third`, and nothing was counted
/// twice.
pub proof fn lemma_legs_compose(balance: u64, first: u64, second: u64, third: u64)
    requires
        balance_after(balance, first, second).is_some(),
        balance_after(balance_after(balance, first, second).unwrap(), second, third).is_some(),
    ensures
        balance_after(balance_after(balance, first, second).unwrap(), second, third).unwrap()
            == balance + third - first,
        balance + third <= u64::MAX ==> balance_after(balance, first, third) == balance_after(
            balance_after(balance, first, second).unwrap(),
            second,
            third,
        ),
{
}

/// What is transferred out of a balance that grew from `pre` to `current`:
/// the growth, capped at `max_amount`; nothing if the balance did not grow.
pub open spec fn delta_amount_spec(current: u64, pre: u64, max_amount: u64) -> u64 {
    let delta = if current > pre {
        (current - pre) as u64
    } else {
        0
    };
    if delta < max_amount {
        delta
    } else {
        max_amount
    }
}

/// Computes the growth of a balance since `pre`, capped at `max_amount`.
pub fn delta_amount(current: u64, pre: u64, max_amount: u64) -> (r: u64)
    ensures
        r == delta_amount_spec(current, pre, max_amount),
        r <= max_amount,
{
    let delta = current.saturating_sub(pre);
    if delta < max_amount {
        delta
    } else {
        max_amount
    }
}

/// Computes one balance after a change, with the checked operations in the
/// order of the accumulation: add what is there now, take off what was there.
fn accumulate(balance: u64, pre: u64, post: u64) -> (r: Option<u64>)
    ensures
        r == balance_after(balance, pre, post),
{
    match balance.checked_add(post) {
        Some(sum) => sum.checked_sub(pre),
        None => None,
    }
}

impl UserLedger {
    /// A ledger with nothing in it.
    pub fn new(owner: Pubkey) -> (r: UserLedger)
        ensures
            r.owner == owner,
            r.amount_a == 0,
            r.amount_b == 0,
    {
        UserLedger { owner, amount_a: 0, amount_b: 0 }
    }

    /// Takes over the changes of the two token balances: each running total
    /// becomes the total plus what the account holds now minus what it held
    /// before. Where either total cannot be formed, the call fails with
    /// `MathOverflow` and the ledger stays as it was.
    pub fn update_ledger_balances(
        &mut self,
        pre_amount_a: u64,
        post_amount_a: u64,
        pre_amount_b: u64,
        post_amount_b: u64,
    ) -> (r: Result<(), ZapError>)
        ensures
            r.is_ok() <==> balance_after(old(self).amount_a, pre_amount_a, post_amount_a).is_some()
                && balance_after(old(self).amount_b, pre_amount_b, post_amount_b).is_some(),
            r.is_ok() ==> final(self).amount_a == old(self).amount_a + post_amount_a - pre_amount_a
                && final(self).amount_b == old(self).amount_b + post_amount_b - pre_amount_b,
            r.is_err() ==> r.unwrap_err() == ZapError::MathOverflow && final(self).amount_a == old(
                self,
            ).amount_a && final(self).amount_b == old(self).amount_b,
            final(self).owner == old(self).owner,
    {
        let amount_a = match accumulate(self.amount_a, pre_amount_a, post_amount_a) {
            Some(v) => v,
            None => {
                return Err(ZapError::MathOverflow);
            },
        };
        let amount_b = match accumulate(self.amount_b, pre_amount_b, post_amount_b) {
            Some(v) => v,
            None => {
                return Err(ZapError::MathOverflow);
            },
        };
        self.amount_a = amount_a;
        self.amount_b = amount_b;
        Ok(())
    }

    /// Sets one of the two balances.
    pub fn set_ledger_balance(&mut self, amount: u64, is_token_a: bool)
        ensures
            final(self).owner == old(self).owner,
            final(self).amount_a == (if is_token_a {
                amount
            } else {
                old(self).amount_a
            }),
            final(self).amount_b == (if is_token_a {
                old(self).amount_b
            } else {
                amount
            }),
    {
        if is_token_a {
            self.amount_a = amount;
        } else {
            self.amount_b = amount;
        }
    }

    /// Sets one of the two balances to what a swap brought: the growth of
    /// the token account since `pre_source_token_balance`, capped at
    /// `max_transfer_amount`.
    pub fn update_ledger_balance_after_swap(
        &mut self,
        current_token_balance: u64,
        pre_source_token_balance: u64,
        max_transfer_amount: u64,
        is_token_a: bool,
    )
        ensures
            final(self).owner == old(self).owner,
            final(self).amount_a == (if is_token_a {
                delta_amount_spec(
                    current_token_balance,
                    pre_source_token_balance,
                    max_transfer_amount,
                )
            } else {
                old(self).amount_a
            }),
            final(self).amount_b == (if is_token_a {
                old(self).amount_b
            } else {
                delta_amount_spec(
                    current_token_balance,
                    pre_source_token_balance,
                    max_transfer_amount,
                )
            }),
    {
        let amount = delta_amount(
            current_token_balance,
            pre_source_token_balance,
            max_transfer_amount,
        );
        self.set_ledger_balance(amount, is_token_a);
    }

    /// The liquidity that the ledger's balances can add, with the direction
    /// of the swap that would even out what is left; on plain values.
    pub open spec fn liquidity_and_direction_spec(
        net_amount_a: u64,
        net_amount_b: u64,
        sqrt_price: u128,
        min_sqrt_price: u128,
        max_sqrt_price: u128,
    ) -> (nat, TradeDirection) {
        let from_a = liquidity_from_a_spec(
            net_amount_a as nat,
            max_sqrt_price as nat,
            sqrt_price as nat,
        );
        let from_b = liquidity_from_b_spec(
            net_amount_b as nat,
            min_sqrt_price as nat,
            sqrt_price as nat,
        );
        if from_a > from_b {
            (from_b, TradeDirection::AtoB)
        } else {
            (from_a, TradeDirection::BtoA)
        }
    }

    /// The error with which the liquidity of the ledger's balances cannot
    /// be derived: `MathOverflow` where a transfer fee cannot be taken or
    /// the price does not lie strictly inside the range, `TypeCastFailed`
    /// where a liquidity does not fit 128 bits. Token A is looked at first.
    pub open spec fn liquidity_error_spec(
        net_a: Option<TransferFeeExcludedAmount>,
        net_b: Option<TransferFeeExcludedAmount>,
        sqrt_price: u128,
        min_sqrt_price: u128,
        max_sqrt_price: u128,
    ) -> ZapError {
        if net_a.is_none() || net_b.is_none() {
            ZapError::MathOverflow
        } else if max_sqrt_price <= sqrt_price {
            ZapError::MathOverflow
        } else if liquidity_from_a_spec(
            net_a.unwrap().amount as nat,
            max_sqrt_price as nat,
            sqrt_price as nat,
        ) > u128::MAX {
            ZapError::TypeCastFailed
        } else if sqrt_price <= min_sqrt_price {
            ZapError::MathOverflow
        } else {
            ZapError::TypeCastFailed
        }
    }

    /// Derives, from the two balances net of transfer fees, the liquidity
    /// that a deposit can add at the current price, which is the lesser of
    /// what each balance supports, and tells which token is in surplus:
    /// where token A supports more liquidity than token B, token A must be
    /// swapped for token B, and the other way round.
    pub fn get_liquidity_from_amounts_and_trade_direction(
        &self,
        token_a_transfer_fee_calculator: &TransferFeeCalculator,
        token_b_transfer_fee_calculator: &TransferFeeCalculator,
        sqrt_price: u128,
        min_sqrt_price: u128,
        max_sqrt_price: u128,
    ) -> (r: Result<(u128, TradeDirection), ZapError>)
        ensures
            r.is_ok() ==> {
                let net_a = token_a_transfer_fee_calculator.excluded_spec(self.amount_a);
                let net_b = token_b_transfer_fee_calculator.excluded_spec(self.amount_b);
                &&& net_a.is_some()
                &&& net_b.is_some()
                &&& min_sqrt_price < sqrt_price < max_sqrt_price
                &&& (r.unwrap().0 as nat, r.unwrap().1) == Self::liquidity_and_direction_spec(
                    net_a.unwrap().amount,
                    net_b.unwrap().amount,
                    sqrt_price,
                    min_sqrt_price,
                    max_sqrt_price,
                )
            },
            r.is_ok() <==> {
                let net_a = token_a_transfer_fee_calculator.excluded_spec(self.amount_a);
                let net_b = token_b_transfer_fee_calculator.excluded_spec(self.amount_b);
                &&& net_a.is_some()
                &&& net_b.is_some()
                &&& min_sqrt_price < sqrt_price < max_sqrt_price
                &&& liquidity_from_a_spec(
                    net_a.unwrap().amount as nat,
                    max_sqrt_price as nat,
                    sqrt_price as nat,
                ) <= u128::MAX
                &&& liquidity_from_b_spec(
                    net_b.unwrap().amount as nat,
                    min_sqrt_price as nat,
                    sqrt_price as nat,
                ) <= u128::MAX
            },
            r.is_err() ==> r.unwrap_err() == Self::liquidity_error_spec(
                token_a_transfer_fee_calculator.excluded_spec(self.amount_a),
                token_b_transfer_fee_calculator.excluded_spec(self.amount_b),
                sqrt_price,
                min_sqrt_price,
                max_sqrt_price,
            ),
    {
        let amount_a = token_a_transfer_fee_calculator.calculate_transfer_fee_excluded_amount(
            self.amount_a,
        )?.amount;
        let amount_b = token_b_transfer_fee_calculator.calculate_transfer_fee_excluded_amount(
            self.amount_b,
        )?.amount;
        let liquidity_from_a = get_liquidity_from_amount_a(amount_a, max_sqrt_price, sqrt_price)?;
        let liquidity_from_b = get_liquidity_from_amount_b(amount_b, min_sqrt_price, sqrt_price)?;
        if liquidity_from_a > liquidity_from_b {
            Ok((liquidity_from_b, TradeDirection::AtoB))
        } else {
            Ok((liquidity_from_a, TradeDirection::BtoA))
        }
    }
}

} // verus!
