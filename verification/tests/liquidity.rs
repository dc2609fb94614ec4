use ruint::aliases::{U256, U512};
use zap::error::ZapError;
use zap::liquidity::{
    get_liquidity_delta_from_token_a, get_liquidity_delta_from_token_b,
    get_liquidity_for_adding_liquidity, get_liquidity_from_amount_a, get_liquidity_from_amount_b,
    get_price_change_bps,
};

const Q64: u128 = 1u128 << 64;

fn reference_a(amount: u64, max: u128, price: u128) -> U512 {
    U512::from(amount) * U512::from(price) * U512::from(max) / U512::from(max - price)
}

fn reference_b(amount: u64, min: u128, price: u128) -> U256 {
    (U256::from(amount) << 128) / U256::from(price - min)
}

fn amount_a_for(liquidity: U512, max: u128, price: u128) -> U512 {
    (liquidity * U512::from(max - price)).div_ceil(U512::from(price) * U512::from(max))
}

fn amount_b_for(liquidity: U256, min: u128, price: u128) -> U256 {
    (liquidity * U256::from(price - min)).div_ceil(U256::from(1u8) << 128)
}

#[test]
fn liquidity_from_token_a_only() {
    let sqrt_price = 1u128 << 64;
    let sqrt_max_price = 2u128 << 64;
    let amount_a = 1_000_000u64;
    // a * p * m / (m - p) = 1_000_000 * 2^64 * 2^65 / 2^64 = 1_000_000 * 2^65
    let expected: u128 = 1_000_000u128 << 65;
    assert_eq!(expected, 36_893_488_147_419_103_232_000_000);
    assert_eq!(get_liquidity_from_amount_a(amount_a, sqrt_max_price, sqrt_price), Ok(expected));
    assert_eq!(reference_a(amount_a, sqrt_max_price, sqrt_price), U512::from(expected));
    let wide = get_liquidity_delta_from_token_a(amount_a, sqrt_max_price, sqrt_price).unwrap();
    assert_eq!(wide.to_u128(), Some(expected));
}

#[test]
fn liquidity_from_token_b() {
    // b * 2^128 / (p - min) with p - min = 2^64: b * 2^64
    assert_eq!(get_liquidity_from_amount_b(5, Q64, 2 * Q64), Ok(5 * Q64));
    assert_eq!(get_liquidity_delta_from_token_b(5, Q64, 2 * Q64), Ok(5 * Q64));
    assert_eq!(get_liquidity_from_amount_b(0, 1, 2), Ok(0));
    // rounded down
    assert_eq!(reference_b(1, 0, 3), U256::from(u128::MAX / 3));
    assert_eq!(get_liquidity_from_amount_b(1, 0, 3), Ok(u128::MAX / 3));
}

#[test]
fn liquidity_errors() {
    assert_eq!(get_liquidity_from_amount_a(1, 5, 5), Err(ZapError::MathOverflow));
    assert_eq!(get_liquidity_from_amount_a(1, 4, 5), Err(ZapError::MathOverflow));
    assert_eq!(get_liquidity_from_amount_b(1, 5, 5), Err(ZapError::MathOverflow));
    assert_eq!(get_liquidity_from_amount_b(1, 6, 5), Err(ZapError::MathOverflow));
    // 2^128 / 1 does not fit
    assert_eq!(get_liquidity_from_amount_b(1, 0, 1), Err(ZapError::TypeCastFailed));
    // u64::MAX * p * (p + 1) / 1 does not fit
    assert_eq!(
        get_liquidity_from_amount_a(u64::MAX, u128::MAX, u128::MAX - 1),
        Err(ZapError::TypeCastFailed)
    );
    assert!(get_liquidity_delta_from_token_a(u64::MAX, u128::MAX, u128::MAX - 1).is_ok());
    assert_eq!(
        get_liquidity_for_adding_liquidity(1, 1, 5, 5, 9),
        Err(ZapError::MathOverflow)
    );
    assert_eq!(
        get_liquidity_for_adding_liquidity(1, 1, 9, 5, 9),
        Err(ZapError::MathOverflow)
    );
    assert_eq!(
        get_liquidity_for_adding_liquidity(1, 1, 1, 0, 9),
        Err(ZapError::TypeCastFailed)
    );
}

#[test]
fn the_binding_side_decides() {
    let min = Q64;
    let price = 2 * Q64;
    let max = 4 * Q64;
    // from a: a * 2 * 4 / 2 * 2^64 = 4a * 2^64; from b: b * 2^64
    assert_eq!(get_liquidity_for_adding_liquidity(10, 100, price, min, max), Ok(40 * Q64));
    assert_eq!(get_liquidity_for_adding_liquidity(10, 30, price, min, max), Ok(30 * Q64));
    assert_eq!(get_liquidity_for_adding_liquidity(10, 40, price, min, max), Ok(40 * Q64));
    // nothing of one token supports no liquidity: the deposit is refused
    assert_eq!(get_liquidity_for_adding_liquidity(0, 40, price, min, max), Err(ZapError::AmountIsZero));
    assert_eq!(get_liquidity_for_adding_liquidity(40, 0, price, min, max), Err(ZapError::AmountIsZero));
    assert_eq!(get_liquidity_for_adding_liquidity(0, 0, price, min, max), Err(ZapError::AmountIsZero));
    assert_eq!(
        get_liquidity_for_adding_liquidity(0, 40, 2 * Q64, Q64, 3 * Q64),
        Err(ZapError::AmountIsZero)
    );
    // one unit of each is enough
    assert_eq!(get_liquidity_for_adding_liquidity(1, 4, price, min, max), Ok(4 * Q64));
    assert_eq!(get_liquidity_for_adding_liquidity(1, 1, price, min, max), Ok(Q64));
    // the range comes before the amounts, and the width before the zero
    assert_eq!(get_liquidity_for_adding_liquidity(0, 0, min, min, max), Err(ZapError::MathOverflow));
    assert_eq!(get_liquidity_for_adding_liquidity(0, 1, Q64 + 1, Q64, max), Err(ZapError::TypeCastFailed));
    // the liquidity from a alone would not fit, the lesser does
    assert_eq!(
        get_liquidity_for_adding_liquidity(u64::MAX, 7, u128::MAX - 1, u128::MAX - 1 - Q64, u128::MAX),
        Ok(7 * Q64)
    );
}

#[test]
fn round_trip_through_the_curve() {
    let mut x: u64 = 7;
    for _ in 0..300 {
        x = x.wrapping_mul(6364136223846793005).wrapping_add(1442695040888963407);
        let amount = x >> (x % 50);
        x = x.wrapping_mul(6364136223846793005).wrapping_add(1442695040888963407);
        let price = ((x as u128) << 40) + 1;
        x = x.wrapping_mul(6364136223846793005).wrapping_add(1442695040888963407);
        let max = price + 1 + ((x as u128) << 30);
        let min = price - 1 - (price - 1) / 3;
        let from_a = get_liquidity_delta_from_token_a(amount, max, price).unwrap();
        let wide = U512::from_limbs(from_a.limbs);
        assert_eq!(wide, reference_a(amount, max, price));
        assert_eq!(amount_a_for(wide, max, price), U512::from(amount));
        let wide_b = reference_b(amount, min, price);
        assert_eq!(amount_b_for(wide_b, min, price), U256::from(amount));
        match get_liquidity_from_amount_b(amount, min, price) {
            Ok(v) => assert_eq!(U256::from(v), wide_b),
            Err(e) => {
                assert_eq!(e, ZapError::TypeCastFailed);
                assert!(wide_b > U256::from(u128::MAX));
            }
        }
        // more of a token never supports less liquidity
        if amount < u64::MAX {
            let more = get_liquidity_delta_from_token_a(amount + 1, max, price).unwrap();
            assert!(U512::from_limbs(more.limbs) >= wide);
            assert!(reference_b(amount + 1, min, price) >= wide_b);
        }
    }
}

#[test]
fn change_of_the_price_in_basis_points() {
    assert_eq!(get_price_change_bps(10_000, 10_000), Ok(0));
    assert_eq!(get_price_change_bps(10_000, 10_100), Ok(100));
    assert_eq!(get_price_change_bps(10_000, 9_900), Ok(100));
    // rounded up
    assert_eq!(get_price_change_bps(10_000, 10_001), Ok(1));
    assert_eq!(get_price_change_bps(30_000, 30_001), Ok(1));
    assert_eq!(get_price_change_bps(3, 4), Ok(3334));
    assert_eq!(get_price_change_bps(u128::MAX, 0), Ok(10_000));
    assert_eq!(get_price_change_bps(1, 429_497), Ok(4_294_960_000));
    assert_eq!(get_price_change_bps(1, 429_498), Err(ZapError::TypeCastFailed));
    assert_eq!(get_price_change_bps(1, u128::MAX), Err(ZapError::TypeCastFailed));
    assert_eq!(get_price_change_bps(0, 5), Err(ZapError::MathOverflow));
    assert_eq!(get_price_change_bps(0, 0), Err(ZapError::MathOverflow));
}
