//! Transfer fees: the conversion between the amount that is sent and the
//! amount that arrives, for a mint that takes a fee on every transfer.
//!
//! The fee itself is computed by the token program's own library; the
//! functions here build the two conversions on it and prove that they are
//! inverse to each other up to rounding, never in the caller's favour.

use vstd::prelude::*;
use anchor_spl::token_2022::spl_token_2022::extension::transfer_fee;
use crate::error::ZapError;
use crate::rounding::{ceil_div, lemma_ceil_div};

verus! {

/// The greatest fee rate, one hundred percent, in basis points.
pub const MAX_FEE_BASIS_POINTS: u16 = 10_000;

/// The transfer fee of a mint in one epoch.
#[derive(Debug, Clone, Copy, PartialEq, Eq, Structural)]
pub struct TransferFee {
    /// The first epoch in which the fee applies.
    pub epoch: u64,
    /// The most that one transfer pays, in tokens.
    pub maximum_fee: u64,
    /// The rate, in hundredths of a percent of the amount sent.
    pub transfer_fee_basis_points: u16,
}

impl TransferFee {
    /// The fee on a transfer of `pre_fee_amount`: the rate applied to the
    /// amount and rounded up, capped at the maximum fee. There is none
    /// where the rounded fee does not fit 64 bits.
    pub open spec fn fee_spec(self, pre_fee_amount: u64) -> Option<u64> {
        let bps = self.transfer_fee_basis_points as nat;
        if bps == 0 || pre_fee_amount == 0 {
            Some(0)
        } else {
            let raw = ceil_div(pre_fee_amount as nat * bps, 10_000);
            if raw > u64::MAX {
                None
            } else if raw < self.maximum_fee {
                Some(raw as u64)
            } else {
                Some(self.maximum_fee)
            }
        }
    }

    /// The least amount to send so that `post_fee_amount` arrives, where 64
    /// bits hold it and the rate is at most one hundred percent.
    pub open spec fn pre_fee_amount_spec(self, post_fee_amount: u64) -> Option<u64> {
        let bps = self.transfer_fee_basis_points as nat;
        let maximum_fee = self.maximum_fee as nat;
        let post = post_fee_amount as nat;
        if bps == 0 {
            Some(post_fee_amount)
        } else if post == 0 {
            Some(0)
        } else if bps == 10_000 {
            if maximum_fee + post > u64::MAX {
                None
            } else {
                Some((maximum_fee + post) as u64)
            }
        } else if bps > 10_000 {
            None
        } else {
            let raw = ceil_div(post * 10_000, (10_000 - bps) as nat);
            if raw - post >= maximum_fee {
                if post + maximum_fee > u64::MAX {
                    None
                } else {
                    Some((post + maximum_fee) as u64)
                }
            } else if raw > u64::MAX {
                None
            } else {
                Some(raw as u64)
            }
        }
    }

    /// The fee that a transfer pays of which `post_fee_amount` arrives.
    pub open spec fn inverse_fee_spec(self, post_fee_amount: u64) -> Option<u64> {
        match self.pre_fee_amount_spec(post_fee_amount) {
            None => None,
            Some(pre_fee_amount) => self.fee_spec(pre_fee_amount),
        }
    }
}

/// `TransferFee::calculate_fee` of the token program's library, on a fee
/// with these three fields: the fee on a transfer of `pre_fee_amount`, as
/// `fee_spec` states it.
#[verifier::external_body]
fn spl_calculate_fee(fee: &TransferFee, pre_fee_amount: u64) -> (r: Option<u64>)
    ensures
        r == fee.fee_spec(pre_fee_amount),
{
    let outside = transfer_fee::TransferFee {
        epoch: fee.epoch.into(),
        maximum_fee: fee.maximum_fee.into(),
        transfer_fee_basis_points: fee.transfer_fee_basis_points.into(),
    };
    outside.calculate_fee(pre_fee_amount)
}

/// `TransferFee::calculate_inverse_fee` of the token program's library, on a
/// fee with these three fields: the fee on the least transfer of which
/// `post_fee_amount` arrives, as `inverse_fee_spec` states it.
#[verifier::external_body]
fn spl_calculate_inverse_fee(fee: &TransferFee, post_fee_amount: u64) -> (r: Option<u64>)
    ensures
        r == fee.inverse_fee_spec(post_fee_amount),
{
    let outside = transfer_fee::TransferFee {
        epoch: fee.epoch.into(),
        maximum_fee: fee.maximum_fee.into(),
        transfer_fee_basis_points: fee.transfer_fee_basis_points.into(),
    };
    outside.calculate_inverse_fee(post_fee_amount)
}

/// An amount that arrives, with the fee that the transfer paid.
#[derive(Debug, Clone, Copy, PartialEq, Eq, Structural)]
pub struct TransferFeeExcludedAmount {
    /// What arrives.
    pub amount: u64,
    /// What the transfer pays.
    pub transfer_fee: u64,
}

/// An amount to send, with the fee that the transfer pays.
#[derive(Debug, Clone, Copy, PartialEq, Eq, Structural)]
pub struct TransferFeeIncludedAmount {
    /// What is sent.
    pub amount: u64,
    /// What the transfer pays.
    pub transfer_fee: u64,
}

/// The transfer fee of one mint, fetched once per instruction.
#[derive(Debug, Clone, Copy, PartialEq, Eq, Structural)]
pub struct TransferFeeCalculator {
    /// The fee of the current epoch.
    pub epoch_transfer_fee: TransferFee,
    /// Whether the mint takes no fee at all, so that no fee need be computed.
    pub no_transfer_fee_extension: bool,
}

impl TransferFeeCalculator {
    /// What arrives of a transfer of `amount`, with the fee; nothing where
    /// the fee cannot be computed or exceeds the amount.
    pub open spec fn excluded_spec(self, amount: u64) -> Option<TransferFeeExcludedAmount> {
        if self.no_transfer_fee_extension {
            Some(TransferFeeExcludedAmount { amount, transfer_fee: 0 })
        } else {
            match self.epoch_transfer_fee.fee_spec(amount) {
                None => None,
                Some(transfer_fee) => if transfer_fee > amount {
                    None
                } else {
                    Some(
                        TransferFeeExcludedAmount {
                            amount: (amount - transfer_fee) as u64,
                            transfer_fee,
                        },
                    )
                },
            }
        }
    }

    /// The fee to add to `amount` so that `amount` arrives.
    pub open spec fn added_fee_spec(self, amount: u64) -> Option<u64> {
        if self.epoch_transfer_fee.transfer_fee_basis_points == MAX_FEE_BASIS_POINTS {
            Some(self.epoch_transfer_fee.maximum_fee)
        } else {
            self.epoch_transfer_fee.inverse_fee_spec(amount)
        }
    }

    /// What to send so that `amount` arrives, with the fee; nothing where
    /// the sum does not fit 64 bits or where the fee on the sum is not the
    /// fee that was added.
    pub open spec fn included_spec(self, amount: u64) -> Option<TransferFeeIncludedAmount> {
        if amount == 0 {
            Some(TransferFeeIncludedAmount { amount: 0, transfer_fee: 0 })
        } else if self.no_transfer_fee_extension {
            Some(TransferFeeIncludedAmount { amount, transfer_fee: 0 })
        } else {
            match self.added_fee_spec(amount) {
                None => None,
                Some(transfer_fee) => if amount + transfer_fee > u64::MAX {
                    None
                } else if self.epoch_transfer_fee.fee_spec((amount + transfer_fee) as u64) != Some(
                    transfer_fee,
                ) {
                    None
                } else {
                    Some(
                        TransferFeeIncludedAmount {
                            amount: (amount + transfer_fee) as u64,
                            transfer_fee,
                        },
                    )
                },
            }
        }
    }

    /// A calculator for a mint without a transfer fee.
    pub fn without_fee() -> (r: TransferFeeCalculator)
        ensures
            r.no_transfer_fee_extension,
            r.epoch_transfer_fee == (TransferFee {
                epoch: 0,
                maximum_fee: 0,
                transfer_fee_basis_points: 0,
            }),
    {
        TransferFeeCalculator {
            epoch_transfer_fee: TransferFee {
                epoch: 0,
                maximum_fee: 0,
                transfer_fee_basis_points: 0,
            },
            no_transfer_fee_extension: true,
        }
    }

    /// Given the amount that is sent, returns the amount that arrives and
    /// the fee. A mint without a fee passes the amount through.
    pub fn calculate_transfer_fee_excluded_amount(&self, amount: u64) -> (r: Result<
        TransferFeeExcludedAmount,
        ZapError,
    >)
        ensures
            r == match self.excluded_spec(amount) {
                Some(v) => Ok::<TransferFeeExcludedAmount, ZapError>(v),
                None => Err::<TransferFeeExcludedAmount, ZapError>(ZapError::MathOverflow),
            },
    {
        if self.no_transfer_fee_extension {
            Ok(TransferFeeExcludedAmount { amount, transfer_fee: 0 })
        } else {
            let transfer_fee = match spl_calculate_fee(&self.epoch_transfer_fee, amount) {
                Some(v) => v,
                None => {
                    return Err(ZapError::MathOverflow);
                },
            };
            let transfer_fee_excluded_amount = match amount.checked_sub(transfer_fee) {
                Some(v) => v,
                None => {
                    return Err(ZapError::MathOverflow);
                },
            };
            Ok(TransferFeeExcludedAmount { amount: transfer_fee_excluded_amount, transfer_fee })
        }
    }

    /// Given the amount that must arrive, returns the amount to send and the
    /// fee. The fee on the amount to send is computed again and must be the
    /// fee that was added; the call fails otherwise, as it does where the
    /// amount to send does not fit 64 bits.
    pub fn calculate_transfer_fee_included_amount(&self, amount: u64) -> (r: Result<
        TransferFeeIncludedAmount,
        ZapError,
    >)
        ensures
            r == match self.included_spec(amount) {
                Some(v) => Ok::<TransferFeeIncludedAmount, ZapError>(v),
                None => Err::<TransferFeeIncludedAmount, ZapError>(ZapError::MathOverflow),
            },
    {
        if amount == 0 {
            return Ok(TransferFeeIncludedAmount { amount: 0, transfer_fee: 0 });
        }
        if self.no_transfer_fee_extension {
            return Ok(TransferFeeIncludedAmount { amount, transfer_fee: 0 });
        }
        let transfer_fee: u64 = if self.epoch_transfer_fee.transfer_fee_basis_points
            == MAX_FEE_BASIS_POINTS {
            self.epoch_transfer_fee.maximum_fee
        } else {
            match spl_calculate_inverse_fee(&self.epoch_transfer_fee, amount) {
                Some(v) => v,
                None => {
                    return Err(ZapError::MathOverflow);
                },
            }
        };
        let transfer_fee_included_amount = match amount.checked_add(transfer_fee) {
            Some(v) => v,
            None => {
                return Err(ZapError::MathOverflow);
            },
        };
        match spl_calculate_fee(&self.epoch_transfer_fee, transfer_fee_included_amount) {
            Some(verification) => {
                if verification != transfer_fee {
                    return Err(ZapError::MathOverflow);
                }
            },
            None => {
                return Err(ZapError::MathOverflow);
            },
        }
        Ok(TransferFeeIncludedAmount { amount: transfer_fee_included_amount, transfer_fee })
    }
}

/// Makes the calculator for a mint: without a fee where the mint belongs to
/// the token program that knows no extensions, or has no transfer-fee
/// extension; with the fee of the current epoch otherwise.
pub fn new_transfer_fee_calculator(
    owned_by_plain_token_program: bool,
    epoch_transfer_fee: Option<TransferFee>,
) -> (r: TransferFeeCalculator)
    ensures
        r == match epoch_transfer_fee {
            Some(fee) if !owned_by_plain_token_program => TransferFeeCalculator {
                epoch_transfer_fee: fee,
                no_transfer_fee_extension: false,
            },
            _ => TransferFeeCalculator {
                epoch_transfer_fee: TransferFee {
                    epoch: 0,
                    maximum_fee: 0,
                    transfer_fee_basis_points: 0,
                },
                no_transfer_fee_extension: true,
            },
        },
{
    if owned_by_plain_token_program {
        return TransferFeeCalculator::without_fee();
    }
    match epoch_transfer_fee {
        Some(fee) => TransferFeeCalculator {
            epoch_transfer_fee: fee,
            no_transfer_fee_extension: false,
        },
        None => TransferFeeCalculator::without_fee(),
    }
}

/// What arrives of the amount that is sent so that `amount` arrives is
/// `amount` again: converting a net amount to gross and back loses nothing.
pub proof fn lemma_excluded_of_included(calculator: TransferFeeCalculator, amount: u64)
    requires
        calculator.included_spec(amount).is_some(),
    ensures
        calculator.excluded_spec(calculator.included_spec(amount).unwrap().amount).is_some(),
        calculator.excluded_spec(calculator.included_spec(amount).unwrap().amount).unwrap().amount
            >= amount,
        calculator.excluded_spec(calculator.included_spec(amount).unwrap().amount).unwrap().amount
            == amount,
{
}

/// What must be sent so that the net of `amount` arrives is at most
/// `amount`: converting a gross amount to net and back never asks for more
/// than was sent.
pub proof fn lemma_included_of_excluded(calculator: TransferFeeCalculator, amount: u64)
    requires
        calculator.excluded_spec(amount).is_some(),
        calculator.included_spec(calculator.excluded_spec(amount).unwrap().amount).is_some(),
    ensures
        calculator.included_spec(calculator.excluded_spec(amount).unwrap().amount).unwrap().amount
            <= amount,
{
    let fee = calculator.epoch_transfer_fee;
    let net = calculator.excluded_spec(amount).unwrap().amount;
    let bps = fee.transfer_fee_basis_points as nat;
    let cap = fee.maximum_fee as nat;
    if net != 0 && !calculator.no_transfer_fee_extension && bps != 0 {
        let paid = fee.fee_spec(amount).unwrap() as nat;
        let added = calculator.added_fee_spec(net).unwrap() as nat;
        let raw_paid = ceil_div(amount as nat * bps, 10_000);
        if bps == 10_000 {
            lemma_ceil_div(amount as nat * bps, 10_000, amount as nat);
            lemma_ceil_div(amount as nat * bps, 10_000, (amount - 1) as nat);
            assert(raw_paid == amount);
        } else if paid == cap {
            assert(added <= cap);
        } else {
            let rest = (10_000 - bps) as nat;
            let raw_pre = ceil_div(net as nat * 10_000, rest);
            lemma_ceil_div(amount as nat * bps, 10_000, raw_paid);
            assert(net as nat * 10_000 <= amount as nat * rest) by (nonlinear_arith)
                requires
                    amount as nat * bps <= raw_paid * 10_000,
                    net == amount - raw_paid,
                    rest == 10_000 - bps,
            ;
            lemma_ceil_div(net as nat * 10_000, rest, amount as nat);
            assert(raw_pre <= amount);
            let pre = fee.pre_fee_amount_spec(net).unwrap() as nat;
            assert(pre == raw_pre);
            let raw_added = ceil_div(pre * bps, 10_000);
            assert(pre * bps <= amount as nat * bps) by (nonlinear_arith)
                requires
                    pre <= amount,
            ;
            lemma_ceil_div(pre * bps, 10_000, raw_paid);
            assert(raw_added <= raw_paid);
        }
    }
}

/// Of two transfers, the greater lets no less arrive: what arrives never
/// falls when the amount sent grows.
pub proof fn lemma_excluded_monotone(calculator: TransferFeeCalculator, smaller: u64, greater: u64)
    requires
        smaller <= greater,
        calculator.excluded_spec(smaller).is_some(),
        calculator.excluded_spec(greater).is_some(),
    ensures
        calculator.excluded_spec(smaller).unwrap().amount <= calculator.excluded_spec(
            greater,
        ).unwrap().amount,
{
    let fee = calculator.epoch_transfer_fee;
    let bps = fee.transfer_fee_basis_points as nat;
    if !calculator.no_transfer_fee_extension && bps != 0 && smaller != 0 {
        let raw_smaller = ceil_div(smaller as nat * bps, 10_000);
        let raw_greater = ceil_div(greater as nat * bps, 10_000);
        let paid_smaller = fee.fee_spec(smaller).unwrap() as nat;
        if paid_smaller == raw_smaller {
            // the fee on the smaller transfer is not capped and is at most
            // the transfer, so the rate is at most one hundred percent
            lemma_ceil_div(smaller as nat * bps, 10_000, raw_smaller);
            assert(bps <= 10_000) by (nonlinear_arith)
                requires
                    smaller as nat * bps <= raw_smaller * 10_000,
                    raw_smaller <= smaller,
                    smaller > 0,
            ;
            let step = (raw_smaller + (greater - smaller)) as nat;
            assert(greater as nat * bps <= step * 10_000) by (nonlinear_arith)
                requires
                    smaller as nat * bps <= raw_smaller * 10_000,
                    bps <= 10_000,
                    smaller <= greater,
                    step == raw_smaller + (greater - smaller),
            ;
            lemma_ceil_div(greater as nat * bps, 10_000, step);
        }
    }
}

/// Of two amounts that are to arrive, the greater asks for no less to be
/// sent.
pub proof fn lemma_included_monotone(calculator: TransferFeeCalculator, smaller: u64, greater: u64)
    requires
        smaller <= greater,
        calculator.included_spec(smaller).is_some(),
        calculator.included_spec(greater).is_some(),
    ensures
        calculator.included_spec(smaller).unwrap().amount <= calculator.included_spec(
            greater,
        ).unwrap().amount,
{
    let sent_smaller = calculator.included_spec(smaller).unwrap().amount;
    let sent_greater = calculator.included_spec(greater).unwrap().amount;
    lemma_excluded_of_included(calculator, smaller);
    lemma_excluded_of_included(calculator, greater);
    if sent_smaller > sent_greater {
        lemma_excluded_monotone(calculator, sent_greater, sent_smaller);
    }
}

} // verus!
