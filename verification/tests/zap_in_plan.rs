use ruint::aliases::U512;
use zap::error::ZapError;
use zap::liquidity::{
    get_liquidity_for_adding_liquidity, get_liquidity_from_amount_a, get_liquidity_from_amount_b,
};
use zap::pool::{PoolSnapshot, TradeDirection};
use zap::token::{new_transfer_fee_calculator, TransferFee, TransferFeeCalculator};
use zap::zap_in::{
    calculate_zap_in, left_over, plan_one_sided_zap_in, remainders, search_zap_in,
    simulate_add_liquidity, swap_action_of, CalculateZapInResult, PoolSwapResult,
    SearchStatus, SimulateAddLiquidityResult, SwapAction, ZapInPlan,
};

const Q64: u128 = 1u128 << 64;

fn joint_liquidity(pool: &PoolSnapshot, amount_a: u64, amount_b: u64) -> Result<u128, ZapError> {
    get_liquidity_for_adding_liquidity(
        amount_a,
        amount_b,
        pool.sqrt_price,
        pool.sqrt_min_price,
        pool.sqrt_max_price,
    )
}

fn no_fee() -> TransferFeeCalculator {
    TransferFeeCalculator::without_fee()
}

fn one_percent() -> TransferFeeCalculator {
    new_transfer_fee_calculator(
        false,
        Some(TransferFee { epoch: 0, maximum_fee: u64::MAX, transfer_fee_basis_points: 100 }),
    )
}

fn snapshot() -> PoolSnapshot {
    PoolSnapshot::new(2 * Q64, Q64, 4 * Q64, 1u128 << 100).unwrap()
}

// Pays one for one and moves the price by one for every unit swapped.
fn unit_swap(amount: u64, direction: TradeDirection, pool: PoolSnapshot) -> Result<PoolSwapResult, ZapError> {
    let next_sqrt_price = match direction {
        TradeDirection::AtoB => pool.sqrt_price - amount as u128,
        TradeDirection::BtoA => pool.sqrt_price + amount as u128,
    };
    Ok(PoolSwapResult { output_amount: amount, next_sqrt_price })
}

// The amounts that a liquidity holds on the curve, rounded up.
fn on_the_curve(liquidity: u128, pool: PoolSnapshot) -> Result<(u64, u64), ZapError> {
    let l = U512::from(liquidity);
    let p = U512::from(pool.sqrt_price);
    let a = (l * (U512::from(pool.sqrt_max_price) - p)).div_ceil(p * U512::from(pool.sqrt_max_price));
    let b = (l * (p - U512::from(pool.sqrt_min_price))).div_ceil(U512::from(1u8) << 128);
    let a = u64::try_from(a).map_err(|_| ZapError::TypeCastFailed)?;
    let b = u64::try_from(b).map_err(|_| ZapError::TypeCastFailed)?;
    Ok((a, b))
}

#[test]
fn joint_liquidity_is_the_lesser_and_not_zero() {
    let p = snapshot();
    // from a: 4a * 2^64, from b: b * 2^64
    assert_eq!(joint_liquidity(&p, 1000, 4000), Ok(4000 * Q64));
    assert_eq!(joint_liquidity(&p, 1000, 3000), Ok(3000 * Q64));
    assert_eq!(joint_liquidity(&p, 500, 4000), Ok(2000 * Q64));
    assert_eq!(joint_liquidity(&p, 0, 4000), Err(ZapError::AmountIsZero));
    assert_eq!(joint_liquidity(&p, 1000, 0), Err(ZapError::AmountIsZero));
    let low = PoolSnapshot::new(Q64, Q64, 4 * Q64, 1).unwrap();
    assert_eq!(joint_liquidity(&low, 1000, 1000), Err(ZapError::MathOverflow));
    let high = PoolSnapshot::new(4 * Q64, Q64, 4 * Q64, 1).unwrap();
    assert_eq!(joint_liquidity(&high, 1000, 1000), Err(ZapError::MathOverflow));
    // the liquidity from token B does not fit 128 bits
    let narrow = PoolSnapshot::new(Q64 + 1, Q64, 4 * Q64, 1).unwrap();
    assert_eq!(joint_liquidity(&narrow, 1, 1), Err(ZapError::TypeCastFailed));
}

#[test]
fn remainders_of_a_first_deposit() {
    let needed = SimulateAddLiquidityResult { token_a_amount: 700, token_b_amount: 40 };
    assert_eq!(remainders(1000, 40, needed), Ok((300, 0)));
    assert_eq!(remainders(700, 50, needed), Ok((0, 10)));
    assert_eq!(remainders(699, 50, needed), Err(ZapError::MathOverflow));
    assert_eq!(remainders(700, 39, needed), Err(ZapError::MathOverflow));
    assert_eq!(remainders(u64::MAX, u64::MAX, needed), Ok((u64::MAX - 700, u64::MAX - 40)));
}

#[test]
fn the_swap_of_a_plan() {
    assert_eq!(swap_action_of(ZapInPlan::Nothing), None);
    assert_eq!(
        swap_action_of(ZapInPlan::SwapAndDeposit {
            swap_amount_in: 11,
            minimum_amount_out: 7,
            trade_direction: TradeDirection::BtoA,
            liquidity_delta: 99,
            token_a_amount_threshold: 5,
            token_b_amount_threshold: 6,
        }),
        Some(SwapAction {
            amount_in: 11,
            minimum_amount_out: 7,
            trade_direction: TradeDirection::BtoA,
            liquidity_delta: 99,
            token_a_amount_threshold: 5,
            token_b_amount_threshold: 6,
        })
    );
}

#[test]
fn a_deposit_of_both_tokens_is_made_of_its_parts() {
    let p = snapshot();
    let cases: [(u64, u64, u64, u64); 8] = [
        (2000, 4000, 0, 0),
        (1000, 9000, 0, 0),
        (1000, 9000, 0, 4999),
        (1000, 9000, 0, 5000),
        (123_456, 7, 3, 3),
        (5, 1_000_000, 0, 0),
        (1001, 4000, 0, 0),
        (1000, 4001, 0, 0),
    ];
    for (max_a, max_b, threshold_a, threshold_b) in cases {
        let got = calculate_zap_in(&p, &no_fee(), &no_fee(), max_a, max_b, threshold_a, threshold_b, &unit_swap, &on_the_curve);
        let liquidity_delta = joint_liquidity(&p, max_a, max_b).unwrap();
        let needed = simulate_add_liquidity(&p, liquidity_delta, &no_fee(), &no_fee(), &on_the_curve).unwrap();
        let left = remainders(max_a, max_b, needed).unwrap();
        let expected = match left_over(left.0, left.1, threshold_a, threshold_b) {
            None => Ok(CalculateZapInResult { liquidity_delta, swap_action: None }),
            Some((rest, direction)) => {
                match plan_one_sided_zap_in(&p, &no_fee(), &no_fee(), rest, direction, &unit_swap, &on_the_curve) {
                    Ok(plan) => Ok(CalculateZapInResult { liquidity_delta, swap_action: swap_action_of(plan) }),
                    Err(e) => Err(e),
                }
            }
        };
        assert_eq!(got, expected);
    }
    // exact values: 1000 of token A are left over and split
    let got = calculate_zap_in(&p, &no_fee(), &no_fee(), 2000, 4000, 0, 0, &unit_swap, &on_the_curve).unwrap();
    assert_eq!(got.liquidity_delta, 4000 * Q64);
    let plan = plan_one_sided_zap_in(&p, &no_fee(), &no_fee(), 1000, TradeDirection::AtoB, &unit_swap, &on_the_curve).unwrap();
    assert_eq!(got.swap_action, swap_action_of(plan));
    assert!(got.swap_action.is_some());
    // one unit over the threshold is searched, at the threshold it is not
    let at = calculate_zap_in(&p, &no_fee(), &no_fee(), 1000, 9000, 0, 5000, &unit_swap, &on_the_curve).unwrap();
    assert_eq!(at, CalculateZapInResult { liquidity_delta: 4000 * Q64, swap_action: None });
}

#[test]
fn the_answers_of_the_pool_decide_a_deposit_of_both_tokens() {
    let p = snapshot();
    // the pool's error for the amounts is the plan's
    let refusing = |_: u128, _: PoolSnapshot| -> Result<(u64, u64), ZapError> { Err(ZapError::InvalidPosition) };
    assert_eq!(
        calculate_zap_in(&p, &no_fee(), &no_fee(), 2000, 4000, 0, 0, &unit_swap, &refusing),
        Err(ZapError::InvalidPosition)
    );
    // the pool asks for more than the deposit holds
    let greedy = |_: u128, _: PoolSnapshot| -> Result<(u64, u64), ZapError> { Ok((2001, 4000)) };
    assert_eq!(
        calculate_zap_in(&p, &no_fee(), &no_fee(), 2000, 4000, 0, 0, &unit_swap, &greedy),
        Err(ZapError::MathOverflow)
    );
    let greedy_b = |_: u128, _: PoolSnapshot| -> Result<(u64, u64), ZapError> { Ok((2000, 4001)) };
    assert_eq!(
        calculate_zap_in(&p, &no_fee(), &no_fee(), 2000, 4000, 0, 0, &unit_swap, &greedy_b),
        Err(ZapError::MathOverflow)
    );
    // the pool takes all: nothing is left, the swap is never asked
    let all = |_: u128, _: PoolSnapshot| -> Result<(u64, u64), ZapError> { Ok((2000, 4000)) };
    let never = |_: u64, _: TradeDirection, _: PoolSnapshot| -> Result<PoolSwapResult, ZapError> {
        Err(ZapError::ExceededSlippage)
    };
    assert_eq!(
        calculate_zap_in(&p, &no_fee(), &no_fee(), 2000, 4000, 0, 0, &never, &all),
        Ok(CalculateZapInResult { liquidity_delta: 4000 * Q64, swap_action: None })
    );
    // a remainder is left and the swap fails: the failure is the plan's
    assert_eq!(
        calculate_zap_in(&p, &no_fee(), &no_fee(), 2000, 4000, 0, 0, &never, &on_the_curve),
        Err(ZapError::ExceededSlippage)
    );
    // a swap that brings nothing finds no liquidity: the swap is left out
    let nothing = |amount: u64, _: TradeDirection, pool: PoolSnapshot| -> Result<PoolSwapResult, ZapError> {
        Ok(PoolSwapResult { output_amount: 0, next_sqrt_price: pool.sqrt_price - amount as u128 })
    };
    assert_eq!(
        calculate_zap_in(&p, &no_fee(), &no_fee(), 2000, 4000, 0, 0, &nothing, &on_the_curve),
        Ok(CalculateZapInResult { liquidity_delta: 4000 * Q64, swap_action: None })
    );
    // the transfer fee is added to what the pool asks for
    let fixed = |_: u128, _: PoolSnapshot| -> Result<(u64, u64), ZapError> { Ok((990, 4000)) };
    assert_eq!(
        calculate_zap_in(&p, &one_percent(), &no_fee(), 1000, 4000, 0, 0, &never, &fixed),
        Ok(CalculateZapInResult { liquidity_delta: 4000 * Q64, swap_action: None })
    );
    assert_eq!(
        calculate_zap_in(&p, &one_percent(), &no_fee(), 999, 4000, 0, 0, &never, &fixed),
        Err(ZapError::MathOverflow)
    );
}

#[test]
fn a_simulated_deposit_asks_for_what_was_tendered() {
    let mut amounts: Vec<u64> = vec![0, 1, 2, 3, 999, 1_000_000, u64::MAX / 7];
    let mut x: u64 = 77;
    for _ in 0..200 {
        x = x.wrapping_mul(6364136223846793005).wrapping_add(1442695040888963407);
        amounts.push(x >> 13);
    }
    let mut checked: u32 = 0;
    let pools = [
        snapshot(),
        PoolSnapshot::new(3 * Q64 + 12345, Q64 - 7, 5 * Q64 + 1, 1).unwrap(),
        PoolSnapshot::new(Q64 / 3, Q64 / 1000, Q64, 1).unwrap(),
    ];
    for p in pools {
        for &amount in amounts.iter() {
            if let Ok(from_a) = get_liquidity_from_amount_a(amount, p.sqrt_max_price, p.sqrt_price) {
                if let Ok(asked) = simulate_add_liquidity(&p, from_a, &no_fee(), &no_fee(), &on_the_curve) {
                    assert_eq!(asked.token_a_amount, amount);
                    checked += 1;
                }
                if let Ok(asked) = simulate_add_liquidity(&p, from_a, &one_percent(), &no_fee(), &on_the_curve) {
                    let net = one_percent().calculate_transfer_fee_excluded_amount(asked.token_a_amount).unwrap();
                    assert_eq!(net.amount, amount);
                }
            }
            if let Ok(from_b) = get_liquidity_from_amount_b(amount, p.sqrt_min_price, p.sqrt_price) {
                if let Ok(asked) = simulate_add_liquidity(&p, from_b, &no_fee(), &no_fee(), &on_the_curve) {
                    assert_eq!(asked.token_b_amount, amount);
                    checked += 1;
                }
            }
        }
    }
    assert!(checked > 600);
    // exact values
    let p = snapshot();
    let liquidity = get_liquidity_from_amount_a(1_000_000, p.sqrt_max_price, p.sqrt_price).unwrap();
    assert_eq!(liquidity, 4_000_000 * Q64);
    assert_eq!(
        simulate_add_liquidity(&p, liquidity, &no_fee(), &no_fee(), &on_the_curve),
        Ok(SimulateAddLiquidityResult { token_a_amount: 1_000_000, token_b_amount: 4_000_000 })
    );
}

#[test]
fn a_greater_deposit_swaps_no_less_and_finds_no_less() {
    let p = snapshot();
    let fees = [
        (no_fee(), no_fee()),
        (one_percent(), no_fee()),
        (no_fee(), one_percent()),
        (one_percent(), one_percent()),
    ];
    let mut amounts: Vec<u64> = (1..=300).collect();
    let mut x: u64 = 31;
    for _ in 0..300 {
        x = x.wrapping_mul(6364136223846793005).wrapping_add(1442695040888963407);
        amounts.push(1 + (x >> 11) % 1_000_000_000_000);
        amounts.push(1 + (x >> 17) % 100_000);
    }
    amounts.sort();
    for (fee_a, fee_b) in fees {
        for direction in [TradeDirection::AtoB, TradeDirection::BtoA] {
            let mut last: Option<(u64, u128)> = None;
            let mut ended: u32 = 0;
            for &amount_in in amounts.iter() {
                if let Ok(state) = search_zap_in(&p, &fee_a, &fee_b, amount_in, direction, &unit_swap, &on_the_curve) {
                    assert!(state.status == SearchStatus::Converged || state.confused_flag == 0);
                    let swapped = amount_in - state.amount;
                    if let Some((swapped_before, liquidity_before)) = last {
                        assert!(swapped >= swapped_before);
                        assert!(state.liquidity_delta >= liquidity_before);
                    }
                    last = Some((swapped, state.liquidity_delta));
                    ended += 1;
                }
            }
            assert!(ended > 800);
        }
    }
}

#[test]
fn the_plan_caps_the_deposit_after_the_swap() {
    // with a transfer fee on token A, the cap on token A is what must be
    // sent so that what the liquidity holds arrives
    let p = snapshot();
    for (fee_a, fee_b) in [(no_fee(), no_fee()), (one_percent(), no_fee()), (no_fee(), one_percent())] {
        for direction in [TradeDirection::AtoB, TradeDirection::BtoA] {
            let state = search_zap_in(&p, &fee_a, &fee_b, 1_000_000, direction, &unit_swap, &on_the_curve).unwrap();
            let swapped = 1_000_000 - state.amount;
            let net_in = match direction {
                TradeDirection::AtoB => fee_a.calculate_transfer_fee_excluded_amount(swapped).unwrap().amount,
                TradeDirection::BtoA => fee_b.calculate_transfer_fee_excluded_amount(swapped).unwrap().amount,
            };
            let after = match direction {
                TradeDirection::AtoB => PoolSnapshot { sqrt_price: p.sqrt_price - net_in as u128, ..p },
                TradeDirection::BtoA => PoolSnapshot { sqrt_price: p.sqrt_price + net_in as u128, ..p },
            };
            let asked = simulate_add_liquidity(&after, state.liquidity_delta, &fee_a, &fee_b, &on_the_curve).unwrap();
            let plan = plan_one_sided_zap_in(&p, &fee_a, &fee_b, 1_000_000, direction, &unit_swap, &on_the_curve).unwrap();
            match plan {
                ZapInPlan::SwapAndDeposit {
                    swap_amount_in,
                    trade_direction,
                    liquidity_delta,
                    token_a_amount_threshold,
                    token_b_amount_threshold,
                    ..
                } => {
                    assert_eq!(swap_amount_in, swapped);
                    assert_eq!(trade_direction, direction);
                    assert_eq!(liquidity_delta, state.liquidity_delta);
                    assert_eq!(token_a_amount_threshold, asked.token_a_amount);
                    assert_eq!(token_b_amount_threshold, asked.token_b_amount);
                }
                ZapInPlan::Nothing => panic!("a plan was expected"),
            }
        }
    }
}
