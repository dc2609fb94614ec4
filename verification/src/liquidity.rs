//! Liquidity of a constant-liquidity range and the token amounts behind it.
//!
//! Between the square-root prices `lower` and `upper`, liquidity `L` holds
//! `L * (1/lower - 1/upper)` of token A and `L * (upper - lower)` of token B.
//! Prices are fixed-point numbers with 64 fractional bits, so the amount of
//! token B carries a factor of two to the 128. A deposit of token A covers
//! the range from the current price up to the greatest price of the pool, a
//! deposit of token B the range from the least price up to the current one.
//!
//! Liquidity derived from an amount is rounded down: never more than the
//! amount supports. An amount derived from liquidity is rounded up.

use vstd::prelude::*;
use vstd::arithmetic::power2::pow2;
use crate::constants::MAX_BASIS_POINT;
use crate::error::{ProtocolZapError, ZapError};
use crate::rounding::{ceil_div, lemma_ceil_div, lemma_floor_div, lemma_widths};
use crate::safe_math::SafeMath;
use crate::wide::{two_pow, U192, U256, U512};

verus! {

/// Two to the 128, the factor that a token-B amount carries.
pub open spec fn q128() -> nat {
    0x1_0000_0000_0000_0000_0000_0000_0000_0000nat
}

/// The liquidity that `amount_a` of token A supports between `sqrt_price`
/// and `sqrt_max_price`, rounded down. The prices differ.
pub open spec fn liquidity_from_a_spec(amount_a: nat, sqrt_max_price: nat, sqrt_price: nat) -> nat {
    (amount_a * sqrt_price * sqrt_max_price) / ((sqrt_max_price - sqrt_price) as nat)
}

/// The liquidity that `amount_b` of token B supports between
/// `sqrt_min_price` and `sqrt_price`, rounded down. The prices differ.
pub open spec fn liquidity_from_b_spec(amount_b: nat, sqrt_min_price: nat, sqrt_price: nat) -> nat {
    (amount_b * q128()) / ((sqrt_price - sqrt_min_price) as nat)
}

/// The amount of token A that `liquidity` holds between `sqrt_price` and
/// `sqrt_max_price`, rounded up.
pub open spec fn amount_a_for_liquidity(liquidity: nat, sqrt_max_price: nat, sqrt_price: nat) -> nat {
    ceil_div(liquidity * ((sqrt_max_price - sqrt_price) as nat), sqrt_price * sqrt_max_price)
}

/// The amount of token B that `liquidity` holds between `sqrt_min_price`
/// and `sqrt_price`, rounded up.
pub open spec fn amount_b_for_liquidity(liquidity: nat, sqrt_min_price: nat, sqrt_price: nat) -> nat {
    ceil_div(liquidity * ((sqrt_price - sqrt_min_price) as nat), q128())
}

/// Maps the error of a checked operation to the program's error.
pub fn checked<T>(r: Result<T, ProtocolZapError>) -> (out: Result<T, ZapError>)
    ensures
        match r {
            Ok(v) => out == Ok::<T, ZapError>(v),
            Err(e) => out == Err::<T, ZapError>(ZapError::of_protocol(e)),
        },
{
    match r {
        Ok(v) => Ok(v),
        Err(e) => Err(ZapError::from_protocol(e)),
    }
}

/// Derives liquidity from an amount of token A, without narrowing:
/// `amount * sqrt_price * sqrt_max_price / (sqrt_max_price - sqrt_price)`,
/// rounded down. It fails with `MathOverflow` unless the greatest price lies
/// above the current price.
pub fn get_liquidity_delta_from_token_a(
    base_amount: u64,
    sqrt_max_price: u128,
    sqrt_price: u128,
) -> (r: Result<U512, ZapError>)
    ensures
        r.is_ok() <==> sqrt_max_price > sqrt_price,
        r.is_ok() ==> r.unwrap()@ == liquidity_from_a_spec(
            base_amount as nat,
            sqrt_max_price as nat,
            sqrt_price as nat,
        ),
        r.is_err() ==> r.unwrap_err() == ZapError::MathOverflow,
{
    proof {
        lemma_widths();
        assert(base_amount as nat * sqrt_price as nat <= pow2(64) * pow2(128)) by (nonlinear_arith)
            requires
                base_amount < pow2(64),
                sqrt_price < pow2(128),
        ;
        assert(base_amount as nat * sqrt_price as nat * sqrt_max_price as nat <= pow2(64) * pow2(
            128,
        ) * pow2(128)) by (nonlinear_arith)
            requires
                base_amount as nat * sqrt_price as nat <= pow2(64) * pow2(128),
                sqrt_max_price < pow2(128),
        ;
        assert(pow2(64) * pow2(128) * pow2(128) == pow2(320)) by (nonlinear_arith)
            requires
                pow2(320) == pow2(64) * pow2(256),
                pow2(256) == pow2(128) * pow2(128),
        ;
    }
    let delta: u128 = checked(sqrt_max_price.safe_sub(sqrt_price))?;
    let price_delta = U512::from_u128(delta);
    let first = checked(U512::from_u64(base_amount).safe_mul(U512::from_u128(sqrt_price)))?;
    let prod = checked(first.safe_mul(U512::from_u128(sqrt_max_price)))?;
    proof {
        if delta != 0 {
            crate::safe_math::lemma_trunc_nonnegative(prod@ as int, delta as int);
        }
    }
    let liquidity = checked(prod.safe_div(price_delta))?;
    Ok(liquidity)
}

/// Derives liquidity from an amount of token A:
/// `amount * sqrt_price * sqrt_max_price / (sqrt_max_price - sqrt_price)`,
/// computed in 512 bits and rounded down. It fails with `MathOverflow`
/// unless the greatest price lies above the current price, and with
/// `TypeCastFailed` where the liquidity does not fit 128 bits.
pub fn get_liquidity_from_amount_a(amount_a: u64, sqrt_max_price: u128, sqrt_price: u128) -> (r:
    Result<u128, ZapError>)
    ensures
        r.is_ok() <==> sqrt_max_price > sqrt_price && liquidity_from_a_spec(
            amount_a as nat,
            sqrt_max_price as nat,
            sqrt_price as nat,
        ) <= u128::MAX,
        r.is_ok() ==> r.unwrap() == liquidity_from_a_spec(
            amount_a as nat,
            sqrt_max_price as nat,
            sqrt_price as nat,
        ),
        r.is_err() ==> r.unwrap_err() == (if sqrt_max_price > sqrt_price {
            ZapError::TypeCastFailed
        } else {
            ZapError::MathOverflow
        }),
{
    let liquidity = get_liquidity_delta_from_token_a(amount_a, sqrt_max_price, sqrt_price)?;
    match liquidity.to_u128() {
        Some(v) => Ok(v),
        None => Err(ZapError::TypeCastFailed),
    }
}

/// Derives liquidity from an amount of token B:
/// `amount * 2^128 / (sqrt_price - sqrt_min_price)`, computed in 256 bits
/// and rounded down. It fails with `MathOverflow` unless the current price
/// lies above the least price, and with `TypeCastFailed` where the
/// liquidity does not fit 128 bits.
pub fn get_liquidity_from_amount_b(amount_b: u64, sqrt_min_price: u128, sqrt_price: u128) -> (r:
    Result<u128, ZapError>)
    ensures
        r.is_ok() <==> sqrt_price > sqrt_min_price && liquidity_from_b_spec(
            amount_b as nat,
            sqrt_min_price as nat,
            sqrt_price as nat,
        ) <= u128::MAX,
        r.is_ok() ==> r.unwrap() == liquidity_from_b_spec(
            amount_b as nat,
            sqrt_min_price as nat,
            sqrt_price as nat,
        ),
        r.is_err() ==> r.unwrap_err() == (if sqrt_price > sqrt_min_price {
            ZapError::TypeCastFailed
        } else {
            ZapError::MathOverflow
        }),
{
    proof {
        lemma_widths();
        assert(amount_b as nat * pow2(128) < pow2(64) * pow2(128)) by (nonlinear_arith)
            requires
                amount_b < pow2(64),
                pow2(128) > 0,
        ;
    }
    let delta: u128 = checked(sqrt_price.safe_sub(sqrt_min_price))?;
    let price_delta = U256::from_u128(delta);
    let quote_amount = checked(U256::from_u64(amount_b).safe_shl(128))?;
    proof {
        if delta != 0 {
            crate::safe_math::lemma_trunc_nonnegative(quote_amount@ as int, delta as int);
        }
    }
    let liquidity = checked(quote_amount.safe_div(price_delta))?;
    match liquidity.to_u128() {
        Some(v) => Ok(v),
        None => Err(ZapError::TypeCastFailed),
    }
}

/// Derives liquidity from an amount of token B; see `get_liquidity_from_amount_b`.
pub fn get_liquidity_delta_from_token_b(
    quote_amount: u64,
    sqrt_min_price: u128,
    sqrt_price: u128,
) -> (r: Result<u128, ZapError>)
    ensures
        r.is_ok() <==> sqrt_price > sqrt_min_price && liquidity_from_b_spec(
            quote_amount as nat,
            sqrt_min_price as nat,
            sqrt_price as nat,
        ) <= u128::MAX,
        r.is_ok() ==> r.unwrap() == liquidity_from_b_spec(
            quote_amount as nat,
            sqrt_min_price as nat,
            sqrt_price as nat,
        ),
        r.is_err() ==> r.unwrap_err() == (if sqrt_price > sqrt_min_price {
            ZapError::TypeCastFailed
        } else {
            ZapError::MathOverflow
        }),
{
    get_liquidity_from_amount_b(quote_amount, sqrt_min_price, sqrt_price)
}

/// The liquidity that a deposit of both tokens can add: the lesser of what
/// each amount supports, the binding side.
pub open spec fn liquidity_for_adding_spec(
    amount_a: nat,
    amount_b: nat,
    sqrt_price: nat,
    min_sqrt_price: nat,
    max_sqrt_price: nat,
) -> nat {
    let from_a = liquidity_from_a_spec(amount_a, max_sqrt_price, sqrt_price);
    let from_b = liquidity_from_b_spec(amount_b, min_sqrt_price, sqrt_price);
    if from_a > from_b {
        from_b
    } else {
        from_a
    }
}

/// The liquidity that a deposit of both tokens adds, or the error that the
/// deposit is refused with: `MathOverflow` unless the price lies strictly
/// inside the pool's range, `TypeCastFailed` where the liquidity from
/// token B does not fit 128 bits, `AmountIsZero` where the two amounts
/// support no liquidity together.
pub open spec fn liquidity_for_adding_result(
    amount_a: u64,
    amount_b: u64,
    sqrt_price: u128,
    min_sqrt_price: u128,
    max_sqrt_price: u128,
) -> Result<u128, ZapError> {
    let joint = liquidity_for_adding_spec(
        amount_a as nat,
        amount_b as nat,
        sqrt_price as nat,
        min_sqrt_price as nat,
        max_sqrt_price as nat,
    );
    if !(min_sqrt_price < sqrt_price < max_sqrt_price) {
        Err(ZapError::MathOverflow)
    } else if liquidity_from_b_spec(amount_b as nat, min_sqrt_price as nat, sqrt_price as nat)
        > u128::MAX {
        Err(ZapError::TypeCastFailed)
    } else if joint == 0 {
        Err(ZapError::AmountIsZero)
    } else {
        Ok(joint as u128)
    }
}

/// Computes the liquidity that a deposit of `amount_a` and `amount_b` can
/// add at the current price: the lesser of the liquidity that each amount
/// supports. The two are compared in 512 bits, so that the liquidity from
/// token A need not fit 128 bits where that from token B is the lesser. It
/// fails with `MathOverflow` unless the current price lies strictly inside
/// the pool's range, with `TypeCastFailed` where the liquidity from token B
/// does not fit 128 bits, and with `AmountIsZero` where the lesser
/// liquidity is zero.
pub fn get_liquidity_for_adding_liquidity(
    amount_a: u64,
    amount_b: u64,
    sqrt_price: u128,
    min_sqrt_price: u128,
    max_sqrt_price: u128,
) -> (r: Result<u128, ZapError>)
    ensures
        r == liquidity_for_adding_result(
            amount_a,
            amount_b,
            sqrt_price,
            min_sqrt_price,
            max_sqrt_price,
        ),
        r.is_ok() <==> min_sqrt_price < sqrt_price < max_sqrt_price && liquidity_from_b_spec(
            amount_b as nat,
            min_sqrt_price as nat,
            sqrt_price as nat,
        ) <= u128::MAX && liquidity_for_adding_spec(
            amount_a as nat,
            amount_b as nat,
            sqrt_price as nat,
            min_sqrt_price as nat,
            max_sqrt_price as nat,
        ) > 0,
        r.is_ok() ==> r.unwrap() > 0 && r.unwrap() == liquidity_for_adding_spec(
            amount_a as nat,
            amount_b as nat,
            sqrt_price as nat,
            min_sqrt_price as nat,
            max_sqrt_price as nat,
        ),
        r.is_err() ==> r.unwrap_err() == (if !(min_sqrt_price < sqrt_price < max_sqrt_price) {
            ZapError::MathOverflow
        } else if liquidity_from_b_spec(
            amount_b as nat,
            min_sqrt_price as nat,
            sqrt_price as nat,
        ) > u128::MAX {
            ZapError::TypeCastFailed
        } else {
            ZapError::AmountIsZero
        }),
{
    let liquidity_from_token_a = get_liquidity_delta_from_token_a(
        amount_a,
        max_sqrt_price,
        sqrt_price,
    )?;
    let liquidity_from_token_b = get_liquidity_delta_from_token_b(
        amount_b,
        min_sqrt_price,
        sqrt_price,
    )?;
    let liquidity = if liquidity_from_token_a.gt(&U512::from_u128(liquidity_from_token_b)) {
        liquidity_from_token_b
    } else {
        match liquidity_from_token_a.to_u128() {
            Some(v) => v,
            None => {
                return Err(ZapError::TypeCastFailed);
            },
        }
    };
    if liquidity == 0 {
        return Err(ZapError::AmountIsZero);
    }
    Ok(liquidity)
}

/// The change from `pre_sqrt_price` to `post_sqrt_price` in hundredths of a
/// percent of the former, rounded up. The former is not zero.
pub open spec fn price_change_bps_spec(pre_sqrt_price: nat, post_sqrt_price: nat) -> nat {
    let diff = if pre_sqrt_price > post_sqrt_price {
        pre_sqrt_price - post_sqrt_price
    } else {
        post_sqrt_price - pre_sqrt_price
    };
    ceil_div((diff * 10_000) as nat, pre_sqrt_price)
}

/// Measures how far the price moved, in basis points of the price before,
/// rounded up. It fails with `MathOverflow` for a price of zero, by which
/// nothing can be measured, and with `TypeCastFailed` where the change does
/// not fit 32 bits, that is beyond about forty-three million percent.
pub fn get_price_change_bps(pre_sqrt_price: u128, post_sqrt_price: u128) -> (r: Result<
    u32,
    ZapError,
>)
    ensures
        r.is_ok() <==> pre_sqrt_price != 0 && price_change_bps_spec(
            pre_sqrt_price as nat,
            post_sqrt_price as nat,
        ) <= u32::MAX,
        r.is_ok() ==> r.unwrap() == price_change_bps_spec(
            pre_sqrt_price as nat,
            post_sqrt_price as nat,
        ),
        r.is_err() ==> r.unwrap_err() == (if pre_sqrt_price == 0 {
            ZapError::MathOverflow
        } else {
            ZapError::TypeCastFailed
        }),
{
    if pre_sqrt_price == 0 {
        return Err(ZapError::MathOverflow);
    }
    let price_diff: u128 = if pre_sqrt_price > post_sqrt_price {
        checked(pre_sqrt_price.safe_sub(post_sqrt_price))?
    } else {
        checked(post_sqrt_price.safe_sub(pre_sqrt_price))?
    };
    proof {
        lemma_widths();
        assert(price_diff as nat * 10_000 < pow2(128) * pow2(64)) by (nonlinear_arith)
            requires
                price_diff < pow2(128),
                10_000 < pow2(64),
        ;
        assert(pow2(128) * pow2(64) == pow2(64) * pow2(128)) by (nonlinear_arith);
    }
    let price_diff_prod = checked(
        U192::from_u128(price_diff).safe_mul(U192::from_u128(MAX_BASIS_POINT as u128)),
    )?;
    let price_diff_bps = price_diff_prod.div_ceil(&U192::from_u128(pre_sqrt_price));
    match price_diff_bps.to_u128() {
        Some(v) => {
            if v > u32::MAX as u128 {
                Err(ZapError::TypeCastFailed)
            } else {
                Ok(v as u32)
            }
        },
        None => Err(ZapError::TypeCastFailed),
    }
}

/// A deposit of token A gets back what it tendered: the amount of token A
/// that the derived liquidity holds, rounded up, is the amount from which
/// the liquidity was derived. The price is positive and below the greatest
/// price.
pub proof fn lemma_round_trip_a(amount_a: nat, sqrt_max_price: nat, sqrt_price: nat)
    requires
        0 < sqrt_price < sqrt_max_price,
    ensures
        amount_a_for_liquidity(
            liquidity_from_a_spec(amount_a, sqrt_max_price, sqrt_price),
            sqrt_max_price,
            sqrt_price,
        ) == amount_a,
{
    let d = (sqrt_max_price - sqrt_price) as nat;
    let pm = sqrt_price * sqrt_max_price;
    let n = amount_a * sqrt_price * sqrt_max_price;
    let l = n / d;
    assert(pm >= sqrt_max_price && n == amount_a * pm) by (nonlinear_arith)
        requires
            sqrt_price >= 1,
            pm == sqrt_price * sqrt_max_price,
            n == amount_a * sqrt_price * sqrt_max_price,
    ;
    assert(l * d <= n && l * d > n - d) by (nonlinear_arith)
        requires
            d > 0,
            l == n / d,
    ;
    lemma_ceil_div(l * d, pm, amount_a);
    if amount_a > 0 {
        lemma_ceil_div(l * d, pm, (amount_a - 1) as nat);
        assert((amount_a - 1) * pm == n - pm) by (nonlinear_arith)
            requires
                n == amount_a * pm,
        ;
    }
}

/// A deposit of token B gets back what it tendered: the amount of token B
/// that the derived liquidity holds, rounded up, is the amount from which
/// the liquidity was derived. The price lies above the least price and fits
/// 128 bits.
pub proof fn lemma_round_trip_b(amount_b: nat, sqrt_min_price: nat, sqrt_price: nat)
    requires
        sqrt_min_price < sqrt_price <= u128::MAX,
    ensures
        amount_b_for_liquidity(
            liquidity_from_b_spec(amount_b, sqrt_min_price, sqrt_price),
            sqrt_min_price,
            sqrt_price,
        ) == amount_b,
{
    let d = (sqrt_price - sqrt_min_price) as nat;
    let n = amount_b * q128();
    let l = n / d;
    assert(l * d <= n && l * d > n - d) by (nonlinear_arith)
        requires
            d > 0,
            l == n / d,
    ;
    lemma_ceil_div(l * d, q128(), amount_b);
    if amount_b > 0 {
        lemma_ceil_div(l * d, q128(), (amount_b - 1) as nat);
        assert((amount_b - 1) * q128() == n - q128()) by (nonlinear_arith)
            requires
                n == amount_b * q128(),
        ;
    }
}

/// A greater amount of either token never supports less liquidity.
pub proof fn lemma_liquidity_monotone(
    smaller: nat,
    greater: nat,
    sqrt_min_price: nat,
    sqrt_price: nat,
    sqrt_max_price: nat,
)
    requires
        smaller <= greater,
        sqrt_min_price < sqrt_price < sqrt_max_price,
    ensures
        liquidity_from_a_spec(smaller, sqrt_max_price, sqrt_price) <= liquidity_from_a_spec(
            greater,
            sqrt_max_price,
            sqrt_price,
        ),
        liquidity_from_b_spec(smaller, sqrt_min_price, sqrt_price) <= liquidity_from_b_spec(
            greater,
            sqrt_min_price,
            sqrt_price,
        ),
{
    let da = (sqrt_max_price - sqrt_price) as nat;
    let db = (sqrt_price - sqrt_min_price) as nat;
    let na_small = smaller * sqrt_price * sqrt_max_price;
    let na_great = greater * sqrt_price * sqrt_max_price;
    assert(na_small <= na_great) by (nonlinear_arith)
        requires
            smaller <= greater,
            na_small == smaller * sqrt_price * sqrt_max_price,
            na_great == greater * sqrt_price * sqrt_max_price,
    ;
    assert(smaller * q128() <= greater * q128()) by (nonlinear_arith)
        requires
            smaller <= greater,
    ;
    lemma_floor_div(na_small, da, na_small / da);
    lemma_floor_div(na_great, da, na_small / da);
    lemma_floor_div(smaller * q128(), db, (smaller * q128()) / db);
    lemma_floor_div(greater * q128(), db, (smaller * q128()) / db);
}

/// A deposit that holds no less of either token never adds less liquidity.
pub proof fn lemma_deposit_monotone(
    smaller_a: nat,
    smaller_b: nat,
    greater_a: nat,
    greater_b: nat,
    sqrt_price: nat,
    sqrt_min_price: nat,
    sqrt_max_price: nat,
)
    requires
        smaller_a <= greater_a,
        smaller_b <= greater_b,
        sqrt_min_price < sqrt_price < sqrt_max_price,
    ensures
        liquidity_for_adding_spec(smaller_a, smaller_b, sqrt_price, sqrt_min_price, sqrt_max_price)
            <= liquidity_for_adding_spec(
            greater_a,
            greater_b,
            sqrt_price,
            sqrt_min_price,
            sqrt_max_price,
        ),
{
    lemma_liquidity_monotone(smaller_a, greater_a, sqrt_min_price, sqrt_price, sqrt_max_price);
    lemma_liquidity_monotone(smaller_b, greater_b, sqrt_min_price, sqrt_price, sqrt_max_price);
}

} // verus!
