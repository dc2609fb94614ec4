use zap::constants::{DAMM_V2, ZAP};
use zap::dlmm_utils::StrategyType;
use zap::error::ZapError;
use zap::ledger::UserLedger;
use zap::pool::{PoolSnapshot, TradeDirection};
use zap::token::TransferFeeCalculator;
use zap::zap_in_damm_v2::{
    start_zap_in, AfterFirstDeposit, SwapDecision, ZapInFirstDeposit, ZapInSecondDeposit, ZapInSwap,
};
use zap::zap_in_dlmm::{
    check_position_uninitialized, plan_rebalance, position_range, PositionRange, DEFAULT_PUBKEY,
    SHRINK_MODE_NONE,
};

const Q64: u128 = 1u128 << 64;

fn plain() -> TransferFeeCalculator {
    TransferFeeCalculator::without_fee()
}

fn pool() -> PoolSnapshot {
    PoolSnapshot::new(2 * Q64, Q64, 4 * Q64, 1u128 << 100).unwrap()
}

#[test]
fn damm_v2_zap_in_with_a_swap() {
    let mut ledger = UserLedger { owner: ZAP, amount_a: 2000, amount_b: 4000 };
    // from a: 8000 * 2^64, from b: 4000 * 2^64: token A is in surplus
    let (first, liquidity) = start_zap_in(&ledger, &plain(), &plain(), &pool(), 2000, 4000).unwrap();
    assert_eq!(liquidity, 4000 * Q64);
    assert_eq!(
        first,
        ZapInFirstDeposit { trade_direction: TradeDirection::AtoB, balance_a: 2000, balance_b: 4000 }
    );
    // the deposit took 1000 of A and all of B
    let (swap, next) = first.after_first_deposit(&mut ledger, 1000, 0).unwrap();
    assert_eq!(next, AfterFirstDeposit::QuoteSwap { remaining_amount: 1000, trade_direction: TradeDirection::AtoB });
    assert_eq!((ledger.amount_a, ledger.amount_b), (1000, 0));
    assert_eq!(swap, ZapInSwap { trade_direction: TradeDirection::AtoB, balance_a: 1000, balance_b: 0 });
    assert_eq!(
        swap.decide_swap(Ok((400, 390))),
        SwapDecision::Swap { amount_in: 400, trade_direction: TradeDirection::AtoB }
    );
    // the swap took 400 of A and brought 390 of B; the price fell by one percent
    let after = PoolSnapshot { sqrt_price: 2 * Q64 - 2 * Q64 / 100, ..pool() };
    let (second, liquidity) = swap.after_swap(&mut ledger, &plain(), &plain(), &after, 2 * Q64, 100, 600, 390).unwrap();
    assert_eq!((ledger.amount_a, ledger.amount_b), (600, 390));
    assert!(liquidity > 0);
    assert_eq!(second, ZapInSecondDeposit { balance_a: 600, balance_b: 390 });
    assert_eq!(second.after_second_deposit(&mut ledger, 3, 0), Ok(()));
    assert_eq!((ledger.amount_a, ledger.amount_b), (3, 0));
}

#[test]
fn damm_v2_zap_in_slippage_and_quotes() {
    let ledger = UserLedger { owner: ZAP, amount_a: 2000, amount_b: 4000 };
    let (first, _) = start_zap_in(&ledger, &plain(), &plain(), &pool(), 2000, 4000).unwrap();
    let swap_stage = |ledger: &mut UserLedger| first.after_first_deposit(ledger, 1000, 0).unwrap().0;
    // the price moved by more than allowed
    let mut l = ledger;
    let stage = swap_stage(&mut l);
    let after = PoolSnapshot { sqrt_price: 2 * Q64 - 2 * Q64 / 100 - 1, ..pool() };
    assert_eq!(
        stage.after_swap(&mut l, &plain(), &plain(), &after, 2 * Q64, 100, 600, 390),
        Err(ZapError::ExceededSlippage)
    );
    assert_eq!((l.amount_a, l.amount_b), (1000, 0));
    assert_eq!(
        stage.after_swap(&mut l, &plain(), &plain(), &after, 2 * Q64, 101, 600, 390).is_ok(),
        true
    );
    // a price of zero measures nothing
    let mut l = ledger;
    let stage = swap_stage(&mut l);
    assert_eq!(
        stage.after_swap(&mut l, &plain(), &plain(), &pool(), 0, 100, 600, 390),
        Err(ZapError::MathOverflow)
    );
    // a quote of nothing, and a quote that failed, end the instruction
    assert_eq!(stage.decide_swap(Ok((0, 5))), SwapDecision::Finish);
    assert_eq!(stage.decide_swap(Ok((5, 0))), SwapDecision::Finish);
    assert_eq!(stage.decide_swap(Err(ZapError::MathOverflow)), SwapDecision::Finish);
    // nothing left of the token in surplus
    let mut l = ledger;
    assert_eq!(first.after_first_deposit(&mut l, 0, 3000).unwrap().1, AfterFirstDeposit::NoSwap);
    assert_eq!((l.amount_a, l.amount_b), (0, 3000));
    // the ledger cannot follow
    let mut l = UserLedger { owner: ZAP, amount_a: 10, amount_b: 10 };
    assert_eq!(first.after_first_deposit(&mut l, 0, 0), Err(ZapError::MathOverflow));
    assert_eq!((l.amount_a, l.amount_b), (10, 10));
    // the price on the edge of the range has no liquidity to derive
    let edge = PoolSnapshot { sqrt_price: Q64, ..pool() };
    assert_eq!(
        start_zap_in(&ledger, &plain(), &plain(), &edge, 2000, 4000),
        Err(ZapError::MathOverflow)
    );
}

#[test]
fn dlmm_position_and_plan() {
    assert_eq!(position_range(100, 5), Ok(PositionRange { lower_bin_id: 95, width: 11 }));
    assert_eq!(position_range(-3, 0), Ok(PositionRange { lower_bin_id: -3, width: 1 }));
    assert_eq!(position_range(i32::MIN + 4, 255), Err(ZapError::MathOverflow));
    assert_eq!(position_range(i32::MAX, 255), Ok(PositionRange { lower_bin_id: i32::MAX - 255, width: 511 }));
    assert_eq!(check_position_uninitialized(&DEFAULT_PUBKEY, true), Ok(()));
    assert_eq!(check_position_uninitialized(&DEFAULT_PUBKEY, false), Err(ZapError::InvalidPosition));
    assert_eq!(check_position_uninitialized(&DAMM_V2, true), Err(ZapError::InvalidPosition));

    let ledger = UserLedger { owner: ZAP, amount_a: 1_000_000, amount_b: 2_000_000 };
    let range = position_range(100, 5).unwrap();
    let plan = plan_rebalance(&ledger, &plain(), &plain(), &range, 100, 10, 99, 3, true, StrategyType::Spot).unwrap();
    assert_eq!(plan.active_id, 99);
    assert_eq!(plan.max_active_bin_slippage, 3);
    assert_eq!(plan.max_deposit_x_amount, 1_000_000);
    assert_eq!(plan.max_deposit_y_amount, 2_000_000);
    assert_eq!(plan.shrink_mode, SHRINK_MODE_NONE);
    assert_eq!((plan.add.min_delta_id, plan.add.max_delta_id), (-5, 5));
    assert_eq!(plan.add.favor_x_in_active_id, true);
    // spot: token Y over the five bins below the active bin
    assert_eq!(plan.add.line.y0, 400_000);
    assert_eq!(plan.add.line.delta_y, 0);
    assert!(plan.add.line.x0 > 0);
    assert_eq!(plan.add.line.bit_flag, 0);
    // the pool moved since the position was laid out
    let plan = plan_rebalance(&ledger, &plain(), &plain(), &range, 103, 10, 99, 3, true, StrategyType::Spot).unwrap();
    assert_eq!((plan.add.min_delta_id, plan.add.max_delta_id), (-8, 2));
    // a position at the end of the bins
    let far = PositionRange { lower_bin_id: i32::MAX - 3, width: 11 };
    assert_eq!(
        plan_rebalance(&ledger, &plain(), &plain(), &far, 0, 10, 0, 3, true, StrategyType::Spot),
        Err(ZapError::MathOverflow)
    );
}
