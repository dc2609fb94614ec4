use zap::error::ZapError;
use zap::pool::{PoolSnapshot, TradeDirection};
use zap::swap::{
    calculate_swap_amount, calculate_swap_quote, calculate_swap_result, FeeHandler, FeeMode,
    PoolQuotes,
};
use zap::token::TransferFeeCalculator;

const CENTRE: u128 = 1u128 << 64;

fn free() -> TransferFeeCalculator {
    TransferFeeCalculator::without_fee()
}

fn handler(total_fee_numerator: u64) -> FeeHandler {
    FeeHandler {
        variable_fee_numerator: 0,
        max_fee_numerator: 500_000_000,
        total_fee_numerator,
        is_rate_limiter: false,
    }
}

// Constant product with reserves `x` in and `y` out; a swap of `amount`
// moves the price by `amount` away from the centre.
fn constant_product(
    x: u64,
    y: u64,
    direction: TradeDirection,
) -> PoolQuotes<
    impl Fn(u64) -> Result<u64, ZapError>,
    impl Fn(u64, u64) -> Result<u64, ZapError>,
    impl Fn(u64) -> Result<u128, ZapError>,
    impl Fn(u128) -> Result<u64, ZapError>,
> {
    PoolQuotes {
        rate_limiter_base_fee: |amount: u64| Ok(amount / 1000),
        amount_after_fee: |amount: u64, numerator: u64| {
            Ok((amount as u128 * (1_000_000_000 - numerator as u128) / 1_000_000_000) as u64)
        },
        next_sqrt_price: move |amount: u64| match direction {
            TradeDirection::AtoB => Ok(CENTRE - amount as u128),
            TradeDirection::BtoA => Ok(CENTRE + amount as u128),
        },
        output_amount: move |next: u128| {
            let amount = if next > CENTRE { next - CENTRE } else { CENTRE - next };
            Ok((y as u128 * amount / (x as u128 + amount)) as u64)
        },
    }
}

#[test]
fn the_quote_is_the_amount_found_and_what_its_swap_brings() {
    let fee_mode = FeeMode { fees_on_input: true, has_referral: false };
    let wide = PoolSnapshot::new(CENTRE, 0, u128::MAX, 1).unwrap();
    let mut x: u64 = 5;
    for _ in 0..100 {
        x = x.wrapping_mul(6364136223846793005).wrapping_add(1442695040888963407);
        let remaining = 1 + x % 1_000_000_000;
        for direction in [TradeDirection::AtoB, TradeDirection::BtoA] {
            let quotes = constant_product(7_000_000_000, 3_000_000_000, direction);
            let (a, b) = match direction {
                TradeDirection::AtoB => (7_000_000_000, 3_000_000_000),
                TradeDirection::BtoA => (3_000_000_000, 7_000_000_000),
            };
            let found = calculate_swap_amount(&quotes, &wide, &free(), &free(), remaining, direction, &handler(1_000_000), &fee_mode, a, b).unwrap();
            let quote = calculate_swap_quote(&quotes, &wide, &free(), &free(), remaining, direction, &handler(1_000_000), &fee_mode, a, b);
            if found == 0 {
                assert_eq!(quote, Ok((0, 0)));
            } else {
                let result = calculate_swap_result(&quotes, &wide, &free(), &free(), found, direction, &handler(1_000_000), &fee_mode).unwrap();
                assert_eq!(quote, Ok((found, result.user_amount_in)));
                assert!(found <= remaining);
            }
        }
    }
}

#[test]
fn a_quote_of_nothing_and_a_quote_that_fails() {
    let fee_mode = FeeMode { fees_on_input: true, has_referral: false };
    let narrow = PoolSnapshot::new(CENTRE, CENTRE - 1_000_000, CENTRE + 1_000_000, 1).unwrap();
    // a pool that never answers: nothing is found, nothing is quoted
    let silent = PoolQuotes {
        rate_limiter_base_fee: |_: u64| Err(ZapError::MathOverflow),
        amount_after_fee: |_: u64, _: u64| Err(ZapError::MathOverflow),
        next_sqrt_price: |_: u64| Err(ZapError::MathOverflow),
        output_amount: |_: u128| Err(ZapError::MathOverflow),
    };
    assert_eq!(
        calculate_swap_quote(&silent, &narrow, &free(), &free(), 1000, TradeDirection::AtoB, &handler(0), &fee_mode, 10, 10),
        Ok((0, 0))
    );
    // nothing is left
    let quotes = constant_product(1_000_000, 1_000_000, TradeDirection::BtoA);
    assert_eq!(
        calculate_swap_quote(&quotes, &narrow, &free(), &free(), 0, TradeDirection::BtoA, &handler(0), &fee_mode, 1_000_000, 1_000_000),
        Ok((0, 0))
    );
    // the ends of the bracket cannot be added: the failure of the search
    let hungry = PoolQuotes {
        rate_limiter_base_fee: |_: u64| Ok(0),
        amount_after_fee: |amount: u64, _: u64| Ok(amount),
        next_sqrt_price: |_: u64| Ok(CENTRE),
        output_amount: |_: u128| Ok(0),
    };
    assert_eq!(
        calculate_swap_quote(&hungry, &narrow, &free(), &free(), u64::MAX, TradeDirection::AtoB, &handler(0), &fee_mode, 1, u64::MAX),
        Err(ZapError::MathOverflow)
    );
    // an exact quote: the first candidate stands, and its swap brings seven
    let flat = PoolQuotes {
        rate_limiter_base_fee: |_: u64| Ok(0),
        amount_after_fee: |amount: u64, _: u64| Ok(amount),
        next_sqrt_price: |_: u64| Ok(CENTRE),
        output_amount: |_: u128| Ok(7),
    };
    let on_output = FeeMode { fees_on_input: false, has_referral: false };
    assert_eq!(
        calculate_swap_amount(&flat, &narrow, &free(), &free(), 10, TradeDirection::AtoB, &handler(0), &on_output, u64::MAX, 7),
        Ok(5)
    );
    assert_eq!(
        calculate_swap_quote(&flat, &narrow, &free(), &free(), 10, TradeDirection::AtoB, &handler(0), &on_output, u64::MAX, 7),
        Ok((5, 7))
    );
}

#[test]
fn the_amount_found_is_the_first_candidate_within_the_band() {
    // the pool holds seven of token A to three of token B and swaps one for
    // one, so a surplus of token A is in proportion when three tenths of it
    // are swapped; the search stops at the first candidate that comes as
    // near as a thousandth
    let fee_mode = FeeMode { fees_on_input: true, has_referral: false };
    let view = PoolSnapshot::new(CENTRE, CENTRE / 14 * 11, 2 * CENTRE, 1).unwrap();
    let one_for_one = PoolQuotes {
        rate_limiter_base_fee: |_: u64| -> Result<u64, ZapError> { Ok(0) },
        amount_after_fee: |amount: u64, _: u64| -> Result<u64, ZapError> { Ok(amount) },
        next_sqrt_price: |amount: u64| -> Result<u128, ZapError> { Ok(CENTRE - amount as u128) },
        output_amount: |next: u128| -> Result<u64, ZapError> { Ok((CENTRE - next) as u64) },
    };
    let found = |remaining: u64| {
        calculate_swap_amount(
            &one_for_one,
            &view,
            &free(),
            &free(),
            remaining,
            TradeDirection::AtoB,
            &handler(0),
            &fee_mode,
            7_000_000_000,
            3_000_000_000,
        )
    };
    assert_eq!(found(3350), Ok(1005));
    assert_eq!(found(3351), Ok(1006));
    // one unit more of the surplus, and the candidate that stands is one
    // unit less: the amount found follows the middles of the brackets
    assert_eq!(found(3352), Ok(1005));
    assert_eq!(found(1_000), Ok(300));
    assert_eq!(found(100_000), Ok(29_979));
    // a swap that is large against what the pool holds shifts the
    // proportion that it aims at
    assert_eq!(found(1_000_000_007), Ok(272_705_078));
}
