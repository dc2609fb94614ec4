use ruint::aliases::U256;
use zap::dlmm_utils::{
    BidAskHandler, CurveHandler, ParsedAddLiquidityParams, SpotHandler, StrategyHandler,
    StrategyType, UnparsedAddLiquidityParams, ZapInRebalancingParams, DELTA_X_NEG_FLAG,
    DELTA_Y_NEG_FLAG, X0_NEG_FLAG, Y0_NEG_FLAG,
};
use zap::error::ZapError;
use zap::price_math::{get_price_base_factor, get_price_from_id, pow, ONE};
use zap::safe_math::SafeMath;

struct AddLiquidityParams {
    min_delta_id: i32,
    max_delta_id: i32,
    x0: u64,
    y0: u64,
    delta_x: u64,
    delta_y: u64,
    bit_flag: u8,
    favor_x_in_active_id: bool,
}

struct RebalanceLiquidityParams {
    adds: Vec<AddLiquidityParams>,
}

fn build_add_liquidity_params(
    amount_x: u64,
    amount_y: u64,
    active_id: i32,
    bin_step: u16,
    min_delta_id: i32,
    max_delta_id: i32,
    favor_x_in_active_id: bool,
    strategy: StrategyType,
) -> RebalanceLiquidityParams {
    let params = ZapInRebalancingParams {
        amount_x,
        amount_y,
        active_id,
        bin_step,
        min_delta_id,
        max_delta_id,
        favor_x_in_active_id,
        strategy,
    };

    let UnparsedAddLiquidityParams {
        x0,
        y0,
        delta_x,
        delta_y,
        bit_flag,
    } = params.get_rebalancing_params().unwrap();

    RebalanceLiquidityParams {
        adds: vec![AddLiquidityParams {
            min_delta_id,
            max_delta_id,
            x0,
            y0,
            delta_x,
            delta_y,
            favor_x_in_active_id,
            bit_flag,
        }],
    }
}

#[derive(Debug, Clone, Copy, Default)]
struct AmountInBin {
    bin_id: i32,
    amount_x: u64,
    amount_y: u64,
}

fn get_liquidity_distribution(amount_in_bins: &[AmountInBin], bin_step: u16) -> Vec<u64> {
    let mut liquidity_distributions = vec![];
    for bin in amount_in_bins.iter() {
        let price = U256::from(get_price_from_id(bin.bin_id, bin_step).unwrap());
        let (quote_amount_of_base_token, _) = U256::from(bin.amount_x)
            .checked_mul(price)
            .unwrap()
            .overflowing_shr(64);
        let quote_amount_of_base_token = u64::try_from(quote_amount_of_base_token).unwrap();

        let total_quote = quote_amount_of_base_token.safe_add(bin.amount_y).unwrap();

        liquidity_distributions.push(total_quote);
    }
    liquidity_distributions
}

fn get_total_amount(amount_in_bins: &[AmountInBin]) -> (u64, u64) {
    let mut amount_x = 0u64;
    let mut amount_y = 0u64;
    for bin in amount_in_bins.iter() {
        amount_x = amount_x.safe_add(bin.amount_x).unwrap();
        amount_y = amount_y.safe_add(bin.amount_y).unwrap();
    }
    (amount_x, amount_y)
}

fn assert_diff_amount(a: u64, b: u64, max_bps: u64) {
    let diff = if a > b { a - b } else { b - a };
    let diff_bps = diff.safe_mul(10_000).unwrap().safe_div(a).unwrap();
    assert!(diff_bps <= max_bps);
}

fn get_bin_add_liquidity(
    params: &RebalanceLiquidityParams,
    active_id: i32,
    bin_step: u16,
) -> Result<Vec<AmountInBin>, ZapError> {
    let mut amounts_in_bin = vec![];
    for bin_range in params.adds.iter() {
        let mut amount_into_bin_range = to_amount_in_bins(bin_range, active_id, bin_step)?;
        amounts_in_bin.append(&mut amount_into_bin_range);
    }
    Ok(amounts_in_bin)
}

fn sides(params: &AddLiquidityParams) -> (i32, i32) {
    if params.favor_x_in_active_id {
        (-1, 0)
    } else {
        (0, 1)
    }
}

fn parse(params: &AddLiquidityParams) -> ParsedAddLiquidityParams {
    let mut parsed_x0 = i128::from(params.x0);
    let mut parsed_y0 = i128::from(params.y0);
    let mut parsed_delta_x = i128::from(params.delta_x);
    let mut parsed_delta_y = i128::from(params.delta_y);

    if params.bit_flag & X0_NEG_FLAG != 0 {
        parsed_x0 = -parsed_x0;
    }
    if params.bit_flag & Y0_NEG_FLAG != 0 {
        parsed_y0 = -parsed_y0;
    }
    if params.bit_flag & DELTA_X_NEG_FLAG != 0 {
        parsed_delta_x = -parsed_delta_x;
    }
    if params.bit_flag & DELTA_Y_NEG_FLAG != 0 {
        parsed_delta_y = -parsed_delta_y;
    }

    ParsedAddLiquidityParams {
        x0: parsed_x0,
        y0: parsed_y0,
        delta_x: parsed_delta_x,
        delta_y: parsed_delta_y,
    }
}

fn to_amount_in_bins(
    params: &AddLiquidityParams,
    active_id: i32,
    bin_step: u16,
) -> Result<Vec<AmountInBin>, ZapError> {
    let parsed_params = parse(params);
    let (bid_side_end_delta_id, ask_side_start_delta_id) = sides(params);
    // only deposit y
    if params.max_delta_id <= bid_side_end_delta_id {
        return get_amount_in_bins_bid_side(
            active_id,
            params.min_delta_id,
            params.max_delta_id,
            parsed_params.delta_y,
            parsed_params.y0,
        );
    }
    // only deposit x
    if params.min_delta_id >= ask_side_start_delta_id {
        return get_amount_in_bins_ask_side(
            active_id,
            bin_step,
            params.min_delta_id,
            params.max_delta_id,
            parsed_params.delta_x,
            parsed_params.x0,
        );
    }

    let amounts_bid_side = get_amount_in_bins_bid_side(
        active_id,
        params.min_delta_id,
        bid_side_end_delta_id,
        parsed_params.delta_y,
        parsed_params.y0,
    )?;

    let amounts_ask_side = get_amount_in_bins_ask_side(
        active_id,
        bin_step,
        ask_side_start_delta_id,
        params.max_delta_id,
        parsed_params.delta_x,
        parsed_params.x0,
    )?;

    Ok([amounts_bid_side, amounts_ask_side].concat())
}

fn math(e: zap::error::ProtocolZapError) -> ZapError {
    ZapError::from_protocol(e)
}

fn get_amount_in_bins_bid_side(
    active_id: i32,
    min_delta_id: i32,
    max_delta_id: i32,
    delta_y: i128,
    y0: i128,
) -> Result<Vec<AmountInBin>, ZapError> {
    let bin_count = max_delta_id.safe_sub(min_delta_id).map_err(math)?.safe_add(1).map_err(math)?;
    let mut amounts_in_bin = vec![AmountInBin::default(); bin_count as usize];

    let min_bin_id = active_id.safe_add(min_delta_id).map_err(math)?;
    let max_bin_id = active_id.safe_add(max_delta_id).map_err(math)?;

    for (idx, bin_id) in (min_bin_id..=max_bin_id).enumerate() {
        let delta_bin = active_id.safe_sub(bin_id).map_err(math)?;

        let total_delta_y = delta_y.safe_mul(delta_bin.into()).map_err(math)?;

        let amount_y = y0
            .safe_add(total_delta_y)
            .map_err(math)?
            .try_into()
            .map_err(|_| ZapError::TypeCastFailed)?;

        amounts_in_bin[idx] = AmountInBin {
            bin_id,
            amount_x: 0,
            amount_y,
        };
    }

    Ok(amounts_in_bin)
}

fn get_amount_in_bins_ask_side(
    active_id: i32,
    bin_step: u16,
    min_delta_id: i32,
    max_delta_id: i32,
    delta_x: i128,
    x0: i128,
) -> Result<Vec<AmountInBin>, ZapError> {
    let bin_count = max_delta_id.safe_sub(min_delta_id).map_err(math)?.safe_add(1).map_err(math)?;

    let base_u128 = get_price_base_factor(bin_step)?;
    let base = U256::from(base_u128);

    let max_bin_id = active_id.safe_add(max_delta_id).map_err(math)?;
    let min_bin_id = active_id.safe_add(min_delta_id).map_err(math)?;

    // the inverse base price is multiplied up bin by bin, which saves a division per bin
    let mut inverse_base_price =
        U256::from(pow(base_u128, -max_bin_id).ok_or(ZapError::MathOverflow)?);

    let mut amounts_in_bin = vec![AmountInBin::default(); bin_count as usize];
    let mut current_bin_id = max_bin_id;

    loop {
        if current_bin_id < min_bin_id {
            break;
        }

        let delta_bin = current_bin_id.safe_sub(active_id).map_err(math)?;

        let total_delta_x = delta_x.safe_mul(delta_bin.into()).map_err(math)?;

        let amount_x = U256::try_from(x0.safe_add(total_delta_x).map_err(math)?)
            .map_err(|_| ZapError::TypeCastFailed)?;

        let (amount_x, _) = amount_x
            .checked_mul(inverse_base_price)
            .ok_or(ZapError::MathOverflow)?
            .overflowing_shr(64);

        let amount_x = u64::try_from(amount_x).map_err(|_| ZapError::TypeCastFailed)?;

        let idx: usize = current_bin_id
            .safe_sub(min_bin_id)
            .map_err(math)?
            .try_into()
            .map_err(|_| ZapError::TypeCastFailed)?;

        amounts_in_bin[idx] = AmountInBin {
            bin_id: current_bin_id,
            amount_x,
            amount_y: 0,
        };

        (inverse_base_price, _) = inverse_base_price
            .checked_mul(base)
            .ok_or(ZapError::MathOverflow)?
            .overflowing_shr(64);

        current_bin_id = current_bin_id.safe_sub(1).map_err(math)?;
    }

    Ok(amounts_in_bin)
}

const STRATEGY: StrategyType = StrategyType::BidAsk;

#[test]
fn test_strategy_only_ask_side_single_bin() {
    let active_id = 100;
    let bin_step = 100;
    let total_amount_x = 100_000_000;
    let min_delta_id = 100;
    let max_delta_id = 100;
    let favor_x_in_active_id = true;

    let params = build_add_liquidity_params(
        total_amount_x,
        0,
        active_id,
        bin_step,
        min_delta_id,
        max_delta_id,
        favor_x_in_active_id,
        STRATEGY,
    );

    let amount_in_bins = get_bin_add_liquidity(&params, active_id, bin_step).unwrap();
    let amount_in_bin = &amount_in_bins[0];

    let diff = total_amount_x - amount_in_bin.amount_x;
    assert_eq!(diff, 12);
}

#[test]
fn test_strategy_only_bid_side_favour_x() {
    let active_id = 100;
    let bin_step = 10;
    let total_amount_y = 100_000_000;
    let min_delta_id = -100;
    let max_delta_id = -1;
    let favor_x_in_active_id = true;

    let params = build_add_liquidity_params(
        0,
        total_amount_y,
        active_id,
        bin_step,
        min_delta_id,
        max_delta_id,
        favor_x_in_active_id,
        STRATEGY,
    );

    let amount_in_bins = get_bin_add_liquidity(&params, active_id, bin_step).unwrap();

    let expected_min_bin_id = active_id.checked_add(min_delta_id).unwrap();
    let expected_max_bin_id = active_id.checked_add(max_delta_id).unwrap();

    let generated_min_bin_id = amount_in_bins[0].bin_id;
    let generated_max_bin_id = amount_in_bins[amount_in_bins.len() - 1].bin_id;

    assert_eq!(generated_min_bin_id, expected_min_bin_id);
    assert_eq!(generated_max_bin_id, expected_max_bin_id);
    // println!("amount_in_bins {:#?}", amount_in_bins);

    for &AmountInBin {
        bin_id,
        amount_x,
        amount_y,
    } in amount_in_bins.iter()
    {
        if bin_id < active_id {
            assert_eq!(amount_x, 0);
        }
        if bin_id == active_id {
            assert!(amount_y == 0);
        }
        if bin_id > active_id {
            assert!(amount_x > 0);
            assert!(amount_y == 0);
        }
    }

    let liquidity_distributions = get_liquidity_distribution(&amount_in_bins, bin_step);
    println!("{:?}", liquidity_distributions);

    let (amount_x, amount_y) = get_total_amount(&amount_in_bins);
    assert_eq!(amount_x, 0);
    println!("amount_y {}", amount_y);
    assert_eq!(amount_y <= total_amount_y, true);
    assert_diff_amount(total_amount_y, amount_y, 10); // less than 10bps
}

#[test]
fn test_strategy_only_bid_side_favor_y() {
    let active_id = 100;
    let bin_step = 10;
    let total_amount_y = 100_000_000;
    let min_delta_id = -100;
    let max_delta_id = 0;
    let favor_x_in_active_id = false;

    let params = build_add_liquidity_params(
        0,
        total_amount_y,
        active_id,
        bin_step,
        min_delta_id,
        max_delta_id,
        favor_x_in_active_id,
        STRATEGY,
    );

    let amount_in_bins = get_bin_add_liquidity(&params, active_id, bin_step).unwrap();

    let expected_min_bin_id = active_id.checked_add(min_delta_id).unwrap();
    let expected_max_bin_id = active_id.checked_add(max_delta_id).unwrap();

    let generated_min_bin_id = amount_in_bins[0].bin_id;
    let generated_max_bin_id = amount_in_bins[amount_in_bins.len() - 1].bin_id;

    assert_eq!(generated_min_bin_id, expected_min_bin_id);
    assert_eq!(generated_max_bin_id, expected_max_bin_id);
    // println!("amount_in_bins {:#?}", amount_in_bins);

    for &AmountInBin {
        bin_id,
        amount_x,
        amount_y,
    } in amount_in_bins.iter()
    {
        if bin_id < active_id {
            assert_eq!(amount_x, 0);
        }
        if bin_id == active_id {
            assert!(amount_x == 0);
        }
        if bin_id > active_id {
            assert!(amount_x > 0);
            assert!(amount_y == 0);
        }
    }

    let liquidity_distributions = get_liquidity_distribution(&amount_in_bins, bin_step);
    println!("{:?}", liquidity_distributions);

    let (amount_x, amount_y) = get_total_amount(&amount_in_bins);
    assert_eq!(amount_x, 0);
    println!("amount_y {}", amount_y);
    assert_eq!(amount_y <= total_amount_y, true);
    assert_diff_amount(total_amount_y, amount_y, 10); // less than 10bps
}

#[test]
fn test_strategy_only_ask_side_favour_y() {
    let active_id = 100;
    let bin_step = 10;
    let total_amount_x = 100_000_000;
    let min_delta_id = 1;
    let max_delta_id = 100;
    let favor_x_in_active_id = false;

    let params = build_add_liquidity_params(
        total_amount_x,
        0,
        active_id,
        bin_step,
        min_delta_id,
        max_delta_id,
        favor_x_in_active_id,
        STRATEGY,
    );

    let amount_in_bins = get_bin_add_liquidity(&params, active_id, bin_step).unwrap();
    let expected_min_bin_id = active_id.checked_add(min_delta_id).unwrap();
    let expected_max_bin_id = active_id.checked_add(max_delta_id).unwrap();

    let generated_min_bin_id = amount_in_bins[0].bin_id;
    let generated_max_bin_id = amount_in_bins[amount_in_bins.len() - 1].bin_id;

    assert_eq!(generated_min_bin_id, expected_min_bin_id);
    assert_eq!(generated_max_bin_id, expected_max_bin_id);

    for &AmountInBin {
        bin_id,
        amount_x,
        amount_y,
    } in amount_in_bins.iter()
    {
        if bin_id < active_id {
            assert_eq!(amount_x, 0);
            assert!(amount_y > 0);
        }
        if bin_id == active_id {
            assert!(amount_y == 0);
        }
        if bin_id > active_id {
            assert!(amount_y == 0);
        }
    }

    let liquidity_distributions = get_liquidity_distribution(&amount_in_bins, bin_step);
    println!("liquidity distribution {:?}", liquidity_distributions);

    let (amount_x, amount_y) = get_total_amount(&amount_in_bins);
    assert_eq!(amount_y, 0);
    println!("amount_x {}", amount_x);
    assert_eq!(amount_x <= total_amount_x, true);
    assert_diff_amount(total_amount_x, amount_x, 10); // less than 10bps
}

#[test]
fn test_strategy_only_ask_side_favour_x() {
    let active_id = 100;
    let bin_step = 10;
    let total_amount_x = 100_000_000;
    let min_delta_id = 1;
    let max_delta_id = 100;
    let favor_x_in_active_id = true;

    let params = build_add_liquidity_params(
        total_amount_x,
        0,
        active_id,
        bin_step,
        min_delta_id,
        max_delta_id,
        favor_x_in_active_id,
        STRATEGY,
    );

    let amount_in_bins = get_bin_add_liquidity(&params, active_id, bin_step).unwrap();
    let expected_min_bin_id = active_id.checked_add(min_delta_id).unwrap();
    let expected_max_bin_id = active_id.checked_add(max_delta_id).unwrap();

    let generated_min_bin_id = amount_in_bins[0].bin_id;
    let generated_max_bin_id = amount_in_bins[amount_in_bins.len() - 1].bin_id;

    assert_eq!(generated_min_bin_id, expected_min_bin_id);
    assert_eq!(generated_max_bin_id, expected_max_bin_id);

    for &AmountInBin {
        bin_id,
        amount_x,
        amount_y,
    } in amount_in_bins.iter()
    {
        if bin_id < active_id {
            assert_eq!(amount_x, 0);
            assert!(amount_y > 0);
        }
        if bin_id == active_id {
            assert!(amount_y == 0);
        }
        if bin_id > active_id {
            assert!(amount_y == 0);
        }
    }

    let liquidity_distributions = get_liquidity_distribution(&amount_in_bins, bin_step);
    println!("liquidity distribution {:?}", liquidity_distributions);

    let (amount_x, amount_y) = get_total_amount(&amount_in_bins);
    assert_eq!(amount_y, 0);
    println!("amount_x {}", amount_x);
    assert_eq!(amount_x <= total_amount_x, true);
    assert_diff_amount(total_amount_x, amount_x, 10); // less than 10bps
}

#[test]
fn test_strategy_both_sides_favor_y() {
    let active_id = 100;
    let bin_step = 10;
    let total_amount_x = 100_000_000;
    let total_amount_y = 200_000_000;
    let min_delta_id = -50;
    let max_delta_id = 100;
    let favor_x_in_active_id = false;

    let params = build_add_liquidity_params(
        total_amount_x,
        total_amount_y,
        active_id,
        bin_step,
        min_delta_id,
        max_delta_id,
        favor_x_in_active_id,
        STRATEGY,
    );

    let amount_in_bins = get_bin_add_liquidity(&params, active_id, bin_step).unwrap();
    let expected_min_bin_id = active_id.checked_add(min_delta_id).unwrap();
    let expected_max_bin_id = active_id.checked_add(max_delta_id).unwrap();

    let generated_min_bin_id = amount_in_bins[0].bin_id;
    let generated_max_bin_id = amount_in_bins[amount_in_bins.len() - 1].bin_id;

    assert_eq!(generated_min_bin_id, expected_min_bin_id);
    assert_eq!(generated_max_bin_id, expected_max_bin_id);

    for &AmountInBin {
        bin_id,
        amount_x,
        amount_y,
    } in amount_in_bins.iter()
    {
        if bin_id < active_id {
            assert_eq!(amount_x, 0);
        }
        if bin_id == active_id {
            assert!(amount_x == 0);
        }
        if bin_id > active_id {
            assert!(amount_y == 0);
        }
    }

    let liquidity_distributions = get_liquidity_distribution(&amount_in_bins, bin_step);
    println!("{:?}", liquidity_distributions);

    let (amount_x, amount_y) = get_total_amount(&amount_in_bins);
    println!("amount_x {} amount_y {}", amount_x, amount_y);
    assert_eq!(amount_x <= total_amount_x, true);
    assert_eq!(amount_y <= total_amount_y, true);

    assert_diff_amount(total_amount_x, amount_x, 10); // less than 10bps
    assert_diff_amount(total_amount_y, amount_y, 10); // less than 10bps
}

#[test]
fn test_strategy_both_sides_favor_x() {
    let active_id = 100;
    let bin_step = 10;
    let total_amount_x = 100_000_000;
    let total_amount_y = 200_000_000;
    let min_delta_id = -50;
    let max_delta_id = 100;
    let favor_x_in_active_id = true;

    let params = build_add_liquidity_params(
        total_amount_x,
        total_amount_y,
        active_id,
        bin_step,
        min_delta_id,
        max_delta_id,
        favor_x_in_active_id,
        STRATEGY,
    );

    let amount_in_bins = get_bin_add_liquidity(&params, active_id, bin_step).unwrap();
    let expected_min_bin_id = active_id.checked_add(min_delta_id).unwrap();
    let expected_max_bin_id = active_id.checked_add(max_delta_id).unwrap();

    let generated_min_bin_id = amount_in_bins[0].bin_id;
    let generated_max_bin_id = amount_in_bins[amount_in_bins.len() - 1].bin_id;

    assert_eq!(generated_min_bin_id, expected_min_bin_id);
    assert_eq!(generated_max_bin_id, expected_max_bin_id);

    for &AmountInBin {
        bin_id,
        amount_x,
        amount_y,
    } in amount_in_bins.iter()
    {
        if bin_id < active_id {
            assert_eq!(amount_x, 0);
        }
        if bin_id == active_id {
            assert!(amount_y == 0);
        }
        if bin_id > active_id {
            assert!(amount_y == 0);
        }
    }

    let liquidity_distributions = get_liquidity_distribution(&amount_in_bins, bin_step);
    println!("{:?}", liquidity_distributions);

    let (amount_x, amount_y) = get_total_amount(&amount_in_bins);
    println!("amount_x {} amount_y {}", amount_x, amount_y);
    assert_eq!(amount_x <= total_amount_x, true);
    assert_eq!(amount_y <= total_amount_y, true);

    assert_diff_amount(total_amount_x, amount_x, 10); // less than 10bps
    assert_diff_amount(total_amount_y, amount_y, 10); // less than 10bps
}

#[test]
fn price_of_a_bin() {
    assert_eq!(pow(ONE, 0), Some(ONE));
    assert_eq!(pow(ONE + 1, 0x80000), None);
    assert_eq!(pow(ONE + 1, -0x80000), None);
    assert_eq!(pow(ONE + 1, i32::MIN), None);
    assert_eq!(get_price_from_id(0, 25), Ok(ONE));
    assert_eq!(get_price_base_factor(100), Ok(ONE + (100u128 << 64) / 10000));
    // one step up and one step down are inverse to each other, up to rounding
    let up = get_price_from_id(1, 100).unwrap();
    let down = get_price_from_id(-1, 100).unwrap();
    let base = ONE + (100u128 << 64) / 10000;
    assert_eq!(down, u128::MAX / base);
    assert_eq!(up, u128::MAX / down);
    // the price rises with the bin
    let mut last = 0u128;
    for id in -2000..2000 {
        let price = get_price_from_id(id, 10).unwrap();
        assert!(price > last);
        last = price;
    }
    // 1.01^100 lies between 2.70 and 2.71
    let p = get_price_from_id(100, 100).unwrap();
    assert!(p > 270 * (ONE / 100) && p < 271 * (ONE / 100));
    assert_eq!(get_price_from_id(0x80000, 1), Err(ZapError::MathOverflow));
}

#[test]
fn unparse_splits_sign_and_magnitude() {
    let line = ParsedAddLiquidityParams { x0: -5, y0: 6, delta_x: 7, delta_y: -8 };
    assert_eq!(
        line.unparse(),
        Ok(UnparsedAddLiquidityParams { x0: 5, y0: 6, delta_x: 7, delta_y: 8, bit_flag: 0b1001 })
    );
    let all = ParsedAddLiquidityParams { x0: -1, y0: -1, delta_x: -1, delta_y: -1 };
    assert_eq!(all.unparse().unwrap().bit_flag, 0b1111);
    let edge = ParsedAddLiquidityParams {
        x0: -(u64::MAX as i128),
        y0: u64::MAX as i128,
        delta_x: 0,
        delta_y: 0,
    };
    assert_eq!(edge.unparse().unwrap().x0, u64::MAX);
    let big = ParsedAddLiquidityParams { x0: u64::MAX as i128 + 1, y0: 0, delta_x: 0, delta_y: 0 };
    assert_eq!(big.unparse(), Err(ZapError::TypeCastFailed));
    let least = ParsedAddLiquidityParams { x0: 0, y0: 0, delta_x: 0, delta_y: i128::MIN };
    assert_eq!(least.unparse(), Err(ZapError::TypeCastFailed));
}

#[test]
fn lines_of_token_y() {
    // spot: the amount divided by the number of bins
    assert_eq!(SpotHandler.find_y0_and_delta_y(1000, -9, 0), Ok((100, 0)));
    assert_eq!(SpotHandler.find_y0_and_delta_y(1000, 0, -1), Err(ZapError::MathOverflow));
    assert_eq!(SpotHandler.find_y0_and_delta_y(1000, 0, -2), Err(ZapError::TypeCastFailed));
    assert_eq!(
        SpotHandler.find_y0_and_delta_y(1000, i32::MIN, i32::MAX),
        Err(ZapError::MathOverflow)
    );
    // a single bin takes everything
    assert_eq!(CurveHandler.find_y0_and_delta_y(1000, -3, -3), Ok((1000, 0)));
    assert_eq!(BidAskHandler.find_y0_and_delta_y(1000, -3, -3), Ok((1000, 0)));
    // curve over the distances 1..=4: a = 4 * 4 - 10 = 6, y0 = 666, delta = -166, y0 = 664
    assert_eq!(CurveHandler.find_y0_and_delta_y(1000, -4, -1), Ok((664, -166)));
    // bid-ask over the distances 1..=4: a = -1 * 4 + 10 = 6, delta = 166, y0 = -166
    assert_eq!(BidAskHandler.find_y0_and_delta_y(1000, -4, -1), Ok((-166, 166)));
    // the far end at the active bin has no curve
    assert_eq!(CurveHandler.find_y0_and_delta_y(1000, 0, 1), Err(ZapError::MathOverflow));
    // the amounts of a curve never add up to more than was deposited
    for (lo, hi) in [(-10, -1), (-100, 0), (-7, -3), (-1, 0)] {
        let (y0, delta) = CurveHandler.find_y0_and_delta_y(1_000_000, lo, hi).unwrap();
        let mut sum = 0i128;
        for d in lo..=hi {
            let amount = y0 + delta * i128::from(-d);
            assert!(amount >= 0);
            sum += amount;
        }
        assert!(sum <= 1_000_000);
        let (y0, delta) = BidAskHandler.find_y0_and_delta_y(1_000_000, lo, hi).unwrap();
        let mut sum = 0i128;
        for d in lo..=hi {
            let amount = y0 + delta * i128::from(-d);
            assert!(amount >= 0);
            sum += amount;
        }
        assert!(sum <= 1_000_000);
    }
}

#[test]
fn lines_of_token_x() {
    assert_eq!(SpotHandler.find_x0_and_delta_x(0, 1, 10, 10, 0), Ok((0, 0)));
    assert_eq!(SpotHandler.find_x0_and_delta_x(5, -3, 0, 10, 0), Ok((0, 0)));
    // one bin at the active id of zero: the price is one, the level is the amount
    assert_eq!(SpotHandler.find_x0_and_delta_x(5, 0, 1, 10, 0).is_ok(), true);
    let (x0, delta) = SpotHandler.find_x0_and_delta_x(1000, 1, 1, 100, -1).unwrap();
    assert_eq!((x0, delta), (1000, 0));
    assert_eq!(
        SpotHandler.find_x0_and_delta_x(5, 1, 2, 10, i32::MAX),
        Err(ZapError::MathOverflow)
    );
    // a bid-ask line must not begin below the active bin
    assert_eq!(
        BidAskHandler.find_x0_and_delta_x(5, -1, 2, 10, 0),
        Err(ZapError::TypeCastFailed)
    );
    assert_eq!(
        CurveHandler.find_x0_and_delta_x(5, -1, 2, 10, 0),
        Err(ZapError::TypeCastFailed)
    );
    // an empty range has no weight
    assert_eq!(
        CurveHandler.find_x0_and_delta_x(5, 3, 2, 10, 0),
        Err(ZapError::MathOverflow)
    );
    let (x0, delta) = CurveHandler.find_x0_and_delta_x(1_000_000, 1, 10, 10, 0).unwrap();
    assert!(x0 > 0 && delta < 0);
    assert_eq!(x0, -(delta * 10));
    let (x0, delta) = BidAskHandler.find_x0_and_delta_x(1_000_000, 1, 10, 10, 0).unwrap();
    assert!(x0 < 0 && delta > 0);
    assert_eq!(x0, -delta);
    // a single bin: the line rises from nothing at the active bin
    assert_eq!(
        BidAskHandler.find_x0_and_delta_x(100_000_000, 100, 100, 100, 100),
        Ok((0, 7316017))
    );
    assert_eq!(
        BidAskHandler.find_x0_and_delta_x(100_000_000, 0, 0, 100, 100),
        Err(ZapError::MathOverflow)
    );
}

#[test]
fn sides_of_the_active_bin() {
    let p = |min_delta_id: i32, max_delta_id: i32, favor_x_in_active_id: bool| ZapInRebalancingParams {
        amount_x: 1000,
        amount_y: 1000,
        min_delta_id,
        max_delta_id,
        strategy: StrategyType::Spot,
        favor_x_in_active_id,
        bin_step: 10,
        active_id: 0,
    };
    assert_eq!(p(-5, 5, true).get_max_delta_id_both_side(), (-1, 0));
    assert_eq!(p(-5, 5, false).get_max_delta_id_both_side(), (0, 1));
    assert!(p(-5, -1, true).is_only_deposit_y());
    assert!(!p(-5, 0, true).is_only_deposit_y());
    assert!(p(-5, 0, false).is_only_deposit_y());
    assert!(p(0, 5, true).is_only_deposit_x());
    assert!(!p(0, 5, false).is_only_deposit_x());
    assert!(p(1, 5, false).is_only_deposit_x());
    let both = p(-5, 5, true).get_parsed_rebalancing_params(&SpotHandler).unwrap();
    assert!(both.x0 > 0 && both.y0 > 0);
    let only_y = p(-5, -1, true).get_parsed_rebalancing_params(&SpotHandler).unwrap();
    assert_eq!((only_y.x0, only_y.delta_x), (0, 0));
}
