//! Zap-in: deposit unbalanced amounts into a pool, swapping the surplus of
//! one token for the other first.
//!
//! A deposit of one token alone is split by a bisection: so much is kept,
//! the rest is swapped, and the split is right when the liquidity that the
//! swapped part supports asks for exactly what was kept. A deposit of both
//! tokens first adds what the two amounts support together and searches
//! only for what is left over.
//!
//! The pool's swap and the pool's amounts for a liquidity are handed in as
//! functions. Every simulation starts from the same snapshot, so that no
//! simulation sees what another one did.

use vstd::prelude::*;
use crate::error::ZapError;
use crate::liquidity::{
    amount_a_for_liquidity, amount_b_for_liquidity, checked, get_liquidity_for_adding_liquidity,
    get_liquidity_from_amount_a, get_liquidity_from_amount_b, lemma_liquidity_monotone,
    liquidity_for_adding_result,
    lemma_round_trip_a, lemma_round_trip_b, liquidity_for_adding_spec, liquidity_from_a_spec,
    liquidity_from_b_spec, q128,
};
use crate::rounding::lemma_quotient_monotone;
use crate::pool::{PoolSnapshot, TradeDirection};
use crate::safe_math::SafeMath;
use crate::swap::{input_calculator, output_calculator};
use crate::token::{lemma_excluded_of_included, TransferFeeCalculator};

verus! {

/// What the pool's swap gives for an input: the amount that comes out and
/// the price after the swap.
#[derive(Debug, Clone, Copy, PartialEq, Eq, Structural)]
pub struct PoolSwapResult {
    /// What the pool sends out.
    pub output_amount: u64,
    /// The price after the swap.
    pub next_sqrt_price: u128,
}

/// What a simulated swap gives: the amount that the user would receive and
/// the pool as it would stand.
#[derive(Debug, Clone, Copy, PartialEq, Eq, Structural)]
pub struct SimulatedSwap {
    /// What arrives at the user, net of the transfer fee of the output mint.
    pub amount_out: u64,
    /// The snapshot with the price after the swap.
    pub pool: PoolSnapshot,
}

/// What a simulated swap gives once the pool's swap has answered `swapped`
/// for the net input.
pub open spec fn simulated_swap_spec(
    pool: PoolSnapshot,
    fee_a: TransferFeeCalculator,
    fee_b: TransferFeeCalculator,
    trade_direction: TradeDirection,
    swapped: PoolSwapResult,
) -> Result<SimulatedSwap, ZapError> {
    if !(pool.sqrt_min_price <= swapped.next_sqrt_price <= pool.sqrt_max_price) {
        Err(ZapError::PriceRangeViolation)
    } else {
        match output_calculator(fee_a, fee_b, trade_direction).excluded_spec(swapped.output_amount) {
            None => Err(ZapError::MathOverflow),
            Some(net) => Ok(
                SimulatedSwap {
                    amount_out: net.amount,
                    pool: PoolSnapshot { sqrt_price: swapped.next_sqrt_price, ..pool },
                },
            ),
        }
    }
}

/// The net amount that goes into the pool of a swap of `amount_in`, or the
/// error that the swap is refused with: the transfer fee of the input mint
/// must be computable and must leave something.
pub open spec fn swap_input_spec(
    fee_a: TransferFeeCalculator,
    fee_b: TransferFeeCalculator,
    amount_in: u64,
    trade_direction: TradeDirection,
) -> Result<u64, ZapError> {
    match input_calculator(fee_a, fee_b, trade_direction).excluded_spec(amount_in) {
        None => Err(ZapError::MathOverflow),
        Some(net) => if net.amount == 0 {
            Err(ZapError::AmountIsZero)
        } else {
            Ok(net.amount)
        },
    }
}

/// Takes the transfer fee of the input mint off the amount to swap.
pub fn swap_input(
    token_a_transfer_fee_calculator: &TransferFeeCalculator,
    token_b_transfer_fee_calculator: &TransferFeeCalculator,
    amount_in: u64,
    trade_direction: TradeDirection,
) -> (r: Result<u64, ZapError>)
    ensures
        r == swap_input_spec(
            *token_a_transfer_fee_calculator,
            *token_b_transfer_fee_calculator,
            amount_in,
            trade_direction,
        ),
{
    let net = match trade_direction {
        TradeDirection::AtoB => token_a_transfer_fee_calculator.calculate_transfer_fee_excluded_amount(
            amount_in,
        )?,
        TradeDirection::BtoA => token_b_transfer_fee_calculator.calculate_transfer_fee_excluded_amount(
            amount_in,
        )?,
    };
    if net.amount == 0 {
        return Err(ZapError::AmountIsZero);
    }
    Ok(net.amount)
}

/// Applies what the pool's swap answered to a copy of the snapshot and
/// takes the transfer fee of the output mint off what comes out.
pub fn apply_swap_result(
    pool: &PoolSnapshot,
    token_a_transfer_fee_calculator: &TransferFeeCalculator,
    token_b_transfer_fee_calculator: &TransferFeeCalculator,
    trade_direction: TradeDirection,
    swapped: PoolSwapResult,
) -> (r: Result<SimulatedSwap, ZapError>)
    ensures
        r == simulated_swap_spec(
            *pool,
            *token_a_transfer_fee_calculator,
            *token_b_transfer_fee_calculator,
            trade_direction,
            swapped,
        ),
        r.is_ok() ==> r.unwrap().pool.well_formed(),
{
    let scratch = match pool.with_price(swapped.next_sqrt_price) {
        Some(v) => v,
        None => {
            return Err(ZapError::PriceRangeViolation);
        },
    };
    let net = match trade_direction {
        TradeDirection::AtoB => token_b_transfer_fee_calculator.calculate_transfer_fee_excluded_amount(
            swapped.output_amount,
        )?,
        TradeDirection::BtoA => token_a_transfer_fee_calculator.calculate_transfer_fee_excluded_amount(
            swapped.output_amount,
        )?,
    };
    Ok(SimulatedSwap { amount_out: net.amount, pool: scratch })
}

/// What a simulated swap of `amount_in` comes to, given what the pool's
/// swap answered for the net input: the error of the input's transfer fee
/// where there is one, else the pool's error where it gave one, else what
/// `simulated_swap_spec` makes of the pool's answer.
pub open spec fn swap_outcome(
    pool: PoolSnapshot,
    fee_a: TransferFeeCalculator,
    fee_b: TransferFeeCalculator,
    amount_in: u64,
    trade_direction: TradeDirection,
    answer: Result<PoolSwapResult, ZapError>,
) -> Result<SimulatedSwap, ZapError> {
    match swap_input_spec(fee_a, fee_b, amount_in, trade_direction) {
        Err(e) => Err(e),
        Ok(_) => match answer {
            Err(e) => Err(e),
            Ok(swapped) => simulated_swap_spec(pool, fee_a, fee_b, trade_direction, swapped),
        },
    }
}

/// Whether `answer` is what the pool's swap gave for the net input of a
/// swap of `amount_in` on `pool`. Where the transfer fee of the input
/// leaves nothing to swap, the pool is not asked and any answer will do.
pub open spec fn swap_answered<S: Fn(u64, TradeDirection, PoolSnapshot) -> Result<PoolSwapResult, ZapError>>(
    swap: S,
    pool: PoolSnapshot,
    fee_a: TransferFeeCalculator,
    fee_b: TransferFeeCalculator,
    amount_in: u64,
    trade_direction: TradeDirection,
    answer: Result<PoolSwapResult, ZapError>,
) -> bool {
    swap_input_spec(fee_a, fee_b, amount_in, trade_direction) matches Ok(net_in) ==> call_ensures(
        swap,
        (net_in, trade_direction, pool),
        answer,
    )
}

/// Simulates a swap of `amount_in` on a snapshot: the transfer fee of the
/// input mint is taken off, the pool's swap is asked for the result, the
/// result is applied to a copy of the snapshot, and the transfer fee of the
/// output mint is taken off what comes out. The snapshot itself is not
/// changed.
///
/// Whatever the pool's swap returns: the result, a failure too, is what
/// `swap_outcome` makes of an answer that the pool's swap gave for the net
/// input.
pub fn simulate_swap<S>(
    pool: &PoolSnapshot,
    token_a_transfer_fee_calculator: &TransferFeeCalculator,
    token_b_transfer_fee_calculator: &TransferFeeCalculator,
    amount_in: u64,
    trade_direction: TradeDirection,
    swap: &S,
) -> (r: Result<SimulatedSwap, ZapError>) where S: Fn(u64, TradeDirection, PoolSnapshot) -> Result<PoolSwapResult, ZapError>
    requires
        forall|amount: u64, direction: TradeDirection, snapshot: PoolSnapshot|
            call_requires(*swap, (amount, direction, snapshot)),
    ensures
        exists|answer: Result<PoolSwapResult, ZapError>|
            {
                &&& #[trigger] swap_answered(
                    *swap,
                    *pool,
                    *token_a_transfer_fee_calculator,
                    *token_b_transfer_fee_calculator,
                    amount_in,
                    trade_direction,
                    answer,
                )
                &&& r == swap_outcome(
                    *pool,
                    *token_a_transfer_fee_calculator,
                    *token_b_transfer_fee_calculator,
                    amount_in,
                    trade_direction,
                    answer,
                )
            },
        swap_input_spec(
            *token_a_transfer_fee_calculator,
            *token_b_transfer_fee_calculator,
            amount_in,
            trade_direction,
        ) matches Err(e) ==> r == Err::<SimulatedSwap, ZapError>(e),
        r.is_ok() ==> {
            let net_in = swap_input_spec(
                *token_a_transfer_fee_calculator,
                *token_b_transfer_fee_calculator,
                amount_in,
                trade_direction,
            );
            &&& net_in.is_ok()
            &&& r.unwrap().pool.well_formed()
            &&& exists|swapped: PoolSwapResult|
                {
                    &&& #[trigger] call_ensures(
                        *swap,
                        (net_in.unwrap(), trade_direction, *pool),
                        Ok::<PoolSwapResult, ZapError>(swapped),
                    )
                    &&& r == simulated_swap_spec(
                        *pool,
                        *token_a_transfer_fee_calculator,
                        *token_b_transfer_fee_calculator,
                        trade_direction,
                        swapped,
                    )
                }
        },
{
    let transfer_fee_excluded_amount_in = match swap_input(
        token_a_transfer_fee_calculator,
        token_b_transfer_fee_calculator,
        amount_in,
        trade_direction,
    ) {
        Ok(v) => v,
        Err(e) => {
            proof {
                let unasked = Err::<PoolSwapResult, ZapError>(e);
                assert(swap_answered(
                    *swap,
                    *pool,
                    *token_a_transfer_fee_calculator,
                    *token_b_transfer_fee_calculator,
                    amount_in,
                    trade_direction,
                    unasked,
                ));
            }
            return Err(e);
        },
    };
    let answer = swap(transfer_fee_excluded_amount_in, trade_direction, *pool);
    proof {
        assert(swap_answered(
            *swap,
            *pool,
            *token_a_transfer_fee_calculator,
            *token_b_transfer_fee_calculator,
            amount_in,
            trade_direction,
            answer,
        ));
    }
    let swapped = answer?;
    apply_swap_result(
        pool,
        token_a_transfer_fee_calculator,
        token_b_transfer_fee_calculator,
        trade_direction,
        swapped,
    )
}

/// What a deposit of a liquidity takes of each token, transfer fees included.
#[derive(Debug, Clone, Copy, PartialEq, Eq, Structural)]
pub struct SimulateAddLiquidityResult {
    /// What is sent of token A.
    pub token_a_amount: u64,
    /// What is sent of token B.
    pub token_b_amount: u64,
}

/// What must be sent of each token so that the amounts which the pool asks
/// for arrive.
pub open spec fn add_liquidity_amounts_spec(
    fee_a: TransferFeeCalculator,
    fee_b: TransferFeeCalculator,
    pool_amount_a: u64,
    pool_amount_b: u64,
) -> Result<SimulateAddLiquidityResult, ZapError> {
    match (fee_a.included_spec(pool_amount_a), fee_b.included_spec(pool_amount_b)) {
        (Some(a), Some(b)) => Ok(
            SimulateAddLiquidityResult { token_a_amount: a.amount, token_b_amount: b.amount },
        ),
        _ => Err(ZapError::MathOverflow),
    }
}

/// Adds the transfer fees to the amounts that the pool asks for a deposit.
pub fn add_liquidity_amounts(
    token_a_transfer_fee_calculator: &TransferFeeCalculator,
    token_b_transfer_fee_calculator: &TransferFeeCalculator,
    pool_amount_a: u64,
    pool_amount_b: u64,
) -> (r: Result<SimulateAddLiquidityResult, ZapError>)
    ensures
        r == add_liquidity_amounts_spec(
            *token_a_transfer_fee_calculator,
            *token_b_transfer_fee_calculator,
            pool_amount_a,
            pool_amount_b,
        ),
{
    let a = token_a_transfer_fee_calculator.calculate_transfer_fee_included_amount(pool_amount_a)?;
    let b = token_b_transfer_fee_calculator.calculate_transfer_fee_included_amount(pool_amount_b)?;
    Ok(SimulateAddLiquidityResult { token_a_amount: a.amount, token_b_amount: b.amount })
}

/// What the simulation of a deposit comes to, given what the pool answered
/// for the liquidity: the pool's error where it gave one, else what must be
/// sent so that the amounts which the pool asks for arrive.
pub open spec fn add_liquidity_outcome(
    fee_a: TransferFeeCalculator,
    fee_b: TransferFeeCalculator,
    answer: Result<(u64, u64), ZapError>,
) -> Result<SimulateAddLiquidityResult, ZapError> {
    match answer {
        Err(e) => Err(e),
        Ok(needed) => add_liquidity_amounts_spec(fee_a, fee_b, needed.0, needed.1),
    }
}

/// Whether the pool answers the question for `liquidity` on `pool` as the
/// curve says: the amounts that it gives are what the liquidity holds of
/// token A between the price and the greatest price, and of token B
/// between the least price and the price, each rounded up.
pub open spec fn answers_by_curve<A: Fn(u128, PoolSnapshot) -> Result<(u64, u64), ZapError>>(
    amounts: A,
    liquidity: u128,
    pool: PoolSnapshot,
) -> bool {
    forall|needed: (u64, u64)| #[trigger]
        call_ensures(amounts, (liquidity, pool), Ok::<(u64, u64), ZapError>(needed)) ==> needed.0
            == amount_a_for_liquidity(
            liquidity as nat,
            pool.sqrt_max_price as nat,
            pool.sqrt_price as nat,
        ) && needed.1 == amount_b_for_liquidity(
            liquidity as nat,
            pool.sqrt_min_price as nat,
            pool.sqrt_price as nat,
        )
}

/// Whether the pool gives amounts for `liquidity` on `pool`: it does not
/// fail.
pub open spec fn gives_amounts<A: Fn(u128, PoolSnapshot) -> Result<(u64, u64), ZapError>>(
    amounts: A,
    liquidity: u128,
    pool: PoolSnapshot,
) -> bool {
    forall|answer: Result<(u64, u64), ZapError>| #[trigger]
        call_ensures(amounts, (liquidity, pool), answer) ==> answer.is_ok()
}

/// Whether `r` is what the simulation of a deposit of `liquidity` may
/// return on `pool`: what `add_liquidity_outcome` makes of an answer that
/// the pool gave.
pub open spec fn is_simulated_deposit<A: Fn(u128, PoolSnapshot) -> Result<(u64, u64), ZapError>>(
    amounts: A,
    liquidity: u128,
    pool: PoolSnapshot,
    fee_a: TransferFeeCalculator,
    fee_b: TransferFeeCalculator,
    r: Result<SimulateAddLiquidityResult, ZapError>,
) -> bool {
    exists|answer: Result<(u64, u64), ZapError>|
        {
            &&& #[trigger] call_ensures(amounts, (liquidity, pool), answer)
            &&& r == add_liquidity_outcome(fee_a, fee_b, answer)
        }
}

/// Finds out what a deposit of `liquidity_delta` takes of each token: the
/// pool is asked for the amounts, rounded up, and the transfer fees are
/// added.
///
/// Whatever the pool returns: the result, a failure too, is what
/// `add_liquidity_outcome` makes of an answer that the pool gave for the
/// liquidity on this snapshot.
pub fn simulate_add_liquidity<A>(
    pool: &PoolSnapshot,
    liquidity_delta: u128,
    token_a_transfer_fee_calculator: &TransferFeeCalculator,
    token_b_transfer_fee_calculator: &TransferFeeCalculator,
    amounts: &A,
) -> (r: Result<SimulateAddLiquidityResult, ZapError>) where A: Fn(u128, PoolSnapshot) -> Result<(u64, u64), ZapError>
    requires
        forall|liquidity: u128, snapshot: PoolSnapshot|
            call_requires(*amounts, (liquidity, snapshot)),
    ensures
        is_simulated_deposit(
            *amounts,
            liquidity_delta,
            *pool,
            *token_a_transfer_fee_calculator,
            *token_b_transfer_fee_calculator,
            r,
        ),
{
    let answer = amounts(liquidity_delta, *pool);
    let needed = answer?;
    add_liquidity_amounts(
        token_a_transfer_fee_calculator,
        token_b_transfer_fee_calculator,
        needed.0,
        needed.1,
    )
}

/// Round trip of token A: the liquidity that an amount of token A supports
/// is derived, rounded down, and the deposit of that liquidity is
/// simulated on a pool that gives amounts, as the curve says. Then the
/// simulation succeeds, and what it asks of token A arrives at the pool as exactly the
/// amount tendered: never more, and no unit less. Where token A carries no
/// transfer fee, it asks for the amount tendered itself. The price is
/// positive and below the greatest price, and the liquidity fits 128 bits.
pub proof fn lemma_simulated_round_trip_a<A: Fn(u128, PoolSnapshot) -> Result<(u64, u64), ZapError>>(
    amounts: A,
    pool: PoolSnapshot,
    fee_a: TransferFeeCalculator,
    fee_b: TransferFeeCalculator,
    amount_a: u64,
    r: Result<SimulateAddLiquidityResult, ZapError>,
)
    requires
        0 < pool.sqrt_price < pool.sqrt_max_price,
        liquidity_from_a_spec(amount_a as nat, pool.sqrt_max_price as nat, pool.sqrt_price as nat)
            <= u128::MAX,
        fee_a.included_spec(amount_a).is_some(),
        fee_b.no_transfer_fee_extension,
        answers_by_curve(
            amounts,
            liquidity_from_a_spec(
                amount_a as nat,
                pool.sqrt_max_price as nat,
                pool.sqrt_price as nat,
            ) as u128,
            pool,
        ),
        gives_amounts(
            amounts,
            liquidity_from_a_spec(
                amount_a as nat,
                pool.sqrt_max_price as nat,
                pool.sqrt_price as nat,
            ) as u128,
            pool,
        ),
        is_simulated_deposit(
            amounts,
            liquidity_from_a_spec(
                amount_a as nat,
                pool.sqrt_max_price as nat,
                pool.sqrt_price as nat,
            ) as u128,
            pool,
            fee_a,
            fee_b,
            r,
        ),
    ensures
        r.is_ok(),
        fee_a.excluded_spec(r.unwrap().token_a_amount) matches Some(net) && net.amount == amount_a,
        fee_a.no_transfer_fee_extension ==> r.unwrap().token_a_amount == amount_a,
{
    lemma_round_trip_a(amount_a as nat, pool.sqrt_max_price as nat, pool.sqrt_price as nat);
    lemma_excluded_of_included(fee_a, amount_a);
}

/// Round trip of token B: the liquidity that an amount of token B supports
/// is derived, rounded down, and the deposit of that liquidity is
/// simulated on a pool that gives amounts, as the curve says. Then the
/// simulation succeeds, and what it asks of token B arrives at the pool as exactly the
/// amount tendered: never more, and no unit less. Where token B carries no
/// transfer fee, it asks for the amount tendered itself. The price lies
/// above the least price, and the liquidity fits 128 bits.
pub proof fn lemma_simulated_round_trip_b<A: Fn(u128, PoolSnapshot) -> Result<(u64, u64), ZapError>>(
    amounts: A,
    pool: PoolSnapshot,
    fee_a: TransferFeeCalculator,
    fee_b: TransferFeeCalculator,
    amount_b: u64,
    r: Result<SimulateAddLiquidityResult, ZapError>,
)
    requires
        pool.sqrt_min_price < pool.sqrt_price,
        liquidity_from_b_spec(amount_b as nat, pool.sqrt_min_price as nat, pool.sqrt_price as nat)
            <= u128::MAX,
        fee_a.no_transfer_fee_extension,
        fee_b.included_spec(amount_b).is_some(),
        answers_by_curve(
            amounts,
            liquidity_from_b_spec(
                amount_b as nat,
                pool.sqrt_min_price as nat,
                pool.sqrt_price as nat,
            ) as u128,
            pool,
        ),
        gives_amounts(
            amounts,
            liquidity_from_b_spec(
                amount_b as nat,
                pool.sqrt_min_price as nat,
                pool.sqrt_price as nat,
            ) as u128,
            pool,
        ),
        is_simulated_deposit(
            amounts,
            liquidity_from_b_spec(
                amount_b as nat,
                pool.sqrt_min_price as nat,
                pool.sqrt_price as nat,
            ) as u128,
            pool,
            fee_a,
            fee_b,
            r,
        ),
    ensures
        r.is_ok(),
        fee_b.excluded_spec(r.unwrap().token_b_amount) matches Some(net) && net.amount == amount_b,
        fee_b.no_transfer_fee_extension ==> r.unwrap().token_b_amount == amount_b,
{
    lemma_round_trip_b(amount_b as nat, pool.sqrt_min_price as nat, pool.sqrt_price as nat);
    lemma_excluded_of_included(fee_b, amount_b);
}

/// How a search stands.
#[derive(Debug, Clone, Copy, PartialEq, Eq, Structural)]
pub enum SearchStatus {
    /// The next candidate is to be tried.
    Searching,
    /// The last candidate asks for exactly what it keeps.
    Converged,
    /// The bracket cannot shrink further, or the rounds are used up; the
    /// last candidate is accepted.
    Exhausted,
}

/// The greatest number of candidates that a search tries.
pub const MAX_ZAP_IN_ROUNDS: u8 = 64;

/// For how many rounds a bracket of width one at most is tolerated.
pub const CONFUSED_ROUNDS: u8 = 2;

/// The state of the search for the amount to keep of a one-sided deposit.
#[derive(Debug, Clone, Copy, PartialEq, Eq, Structural)]
pub struct ZapInConvergenceState {
    /// What is deposited in all.
    pub amount_in: u64,
    /// The amount to keep lies at or above this.
    pub min_amount: u64,
    /// The amount to keep lies at or below this.
    pub max_amount: u64,
    /// The candidate: what is kept; the rest is swapped.
    pub amount: u64,
    /// What the swap of the rest brought when the candidate was last tried.
    pub amount_out: u64,
    /// The liquidity that what the swap brought supports.
    pub liquidity_delta: u128,
    /// What that liquidity asks of the token that is kept, transfer fee
    /// included.
    pub required_amount: u64,
    /// What it asks of the token that the swap brings, transfer fee
    /// included.
    pub paired_amount: u64,
    /// How many more rounds a bracket of width one at most is tolerated.
    pub confused_flag: u8,
    /// How many candidates were tried.
    pub rounds: u8,
    /// How the search stands.
    pub status: SearchStatus,
}

impl ZapInConvergenceState {
    /// The bracket is in order and holds the candidate, the counters are
    /// within their limits, and a search that goes on tries the middle of
    /// the bracket.
    pub open spec fn well_formed(self) -> bool {
        &&& self.min_amount <= self.amount <= self.max_amount <= self.amount_in
        &&& self.confused_flag <= CONFUSED_ROUNDS
        &&& self.rounds <= MAX_ZAP_IN_ROUNDS
        &&& self.status == SearchStatus::Searching ==> self.confused_flag > 0 && self.rounds
            < MAX_ZAP_IN_ROUNDS && self.amount == self.min_amount + (self.max_amount
            - self.min_amount) / 2
    }

    /// The width of the bracket.
    pub open spec fn width(self) -> nat {
        (self.max_amount - self.min_amount) as nat
    }

    /// The state before the first round: anything from nothing to
    /// everything may be kept, and half is tried first.
    pub open spec fn initial(amount_in: u64) -> ZapInConvergenceState {
        ZapInConvergenceState {
            amount_in,
            min_amount: 0,
            max_amount: amount_in,
            amount: amount_in / 2,
            amount_out: 0,
            liquidity_delta: 0,
            required_amount: 0,
            paired_amount: 0,
            confused_flag: CONFUSED_ROUNDS,
            rounds: 0,
            status: SearchStatus::Searching,
        }
    }

    /// The state after the candidate was tried: the swap of the rest brought
    /// `amount_out`, which supports `liquidity_delta`, which in turn asks
    /// for `required_amount` of the token that is kept and for
    /// `paired_amount` of the token that the swap brings.
    ///
    /// Where the liquidity asks for exactly what is kept, the search has
    /// converged. Where it asks for more, the candidate keeps too little
    /// and becomes the lower end of the bracket; where it asks for less,
    /// the upper end. A bracket of width one at most is tolerated for two
    /// rounds, and no more than sixty-four candidates are tried; then the
    /// search is exhausted and the last candidate stands. Otherwise the
    /// middle of the bracket is tried next.
    pub open spec fn stepped(
        self,
        amount_out: u64,
        liquidity_delta: u128,
        required_amount: u64,
        paired_amount: u64,
    ) -> ZapInConvergenceState {
        if self.status != SearchStatus::Searching {
            self
        } else if required_amount == self.amount {
            ZapInConvergenceState {
                amount_out,
                liquidity_delta,
                required_amount,
                paired_amount,
                rounds: (self.rounds + 1) as u8,
                status: SearchStatus::Converged,
                ..self
            }
        } else {
            let min_amount = if required_amount > self.amount {
                self.amount
            } else {
                self.min_amount
            };
            let max_amount = if required_amount > self.amount {
                self.max_amount
            } else {
                self.amount
            };
            let confused_flag = if max_amount - min_amount <= 1 {
                (self.confused_flag - 1) as u8
            } else {
                self.confused_flag
            };
            let rounds = (self.rounds + 1) as u8;
            if confused_flag == 0 || rounds >= MAX_ZAP_IN_ROUNDS {
                ZapInConvergenceState {
                    min_amount,
                    max_amount,
                    amount_out,
                    liquidity_delta,
                    required_amount,
                    paired_amount,
                    confused_flag,
                    rounds,
                    status: SearchStatus::Exhausted,
                    ..self
                }
            } else {
                ZapInConvergenceState {
                    min_amount,
                    max_amount,
                    amount: (min_amount + (max_amount - min_amount) / 2) as u64,
                    amount_out,
                    liquidity_delta,
                    required_amount,
                    paired_amount,
                    confused_flag,
                    rounds,
                    status: SearchStatus::Searching,
                    ..self
                }
            }
        }
    }

    /// Starts a search over a deposit of `amount_in`.
    pub fn new(amount_in: u64) -> (r: ZapInConvergenceState)
        ensures
            r == Self::initial(amount_in),
            r.well_formed(),
    {
        ZapInConvergenceState {
            amount_in,
            min_amount: 0,
            max_amount: amount_in,
            amount: amount_in / 2,
            amount_out: 0,
            liquidity_delta: 0,
            required_amount: 0,
            paired_amount: 0,
            confused_flag: CONFUSED_ROUNDS,
            rounds: 0,
            status: SearchStatus::Searching,
        }
    }

    /// What is swapped when the candidate is kept.
    pub fn swap_amount(&self) -> (r: u64)
        requires
            self.well_formed(),
        ensures
            r == self.amount_in - self.amount,
    {
        self.amount_in - self.amount
    }

    /// Takes the search one round further. The bracket never widens: it
    /// stays within the bracket before, and its width at most halves,
    /// rounded up, unless the search ends.
    pub fn step(
        &self,
        amount_out: u64,
        liquidity_delta: u128,
        required_amount: u64,
        paired_amount: u64,
    ) -> (r: ZapInConvergenceState)
        requires
            self.well_formed(),
        ensures
            r == self.stepped(amount_out, liquidity_delta, required_amount, paired_amount),
            r.well_formed(),
            r.amount_in == self.amount_in,
            self.min_amount <= r.min_amount,
            r.max_amount <= self.max_amount,
            self.status == SearchStatus::Searching ==> r.rounds == self.rounds + 1,
            self.status == SearchStatus::Searching && r.status == SearchStatus::Searching
                ==> r.width() <= (self.width() + 1) / 2,
            r.status != SearchStatus::Searching && self.status == SearchStatus::Searching
                ==> r.amount == self.amount && r.amount_out == amount_out && r.liquidity_delta
                == liquidity_delta && r.required_amount == required_amount && r.paired_amount
                == paired_amount,
    {
        match self.status {
            SearchStatus::Searching => {},
            _ => {
                return *self;
            },
        }
        let rounds = self.rounds + 1;
        if required_amount == self.amount {
            return ZapInConvergenceState {
                amount_in: self.amount_in,
                min_amount: self.min_amount,
                max_amount: self.max_amount,
                amount: self.amount,
                amount_out,
                liquidity_delta,
                required_amount,
                paired_amount,
                confused_flag: self.confused_flag,
                rounds,
                status: SearchStatus::Converged,
            };
        }
        let mut min_amount = self.min_amount;
        let mut max_amount = self.max_amount;
        if required_amount > self.amount {
            min_amount = self.amount;
        } else {
            max_amount = self.amount;
        }
        let mut confused_flag = self.confused_flag;
        if max_amount - min_amount <= 1 {
            confused_flag = confused_flag - 1;
        }
        if confused_flag == 0 || rounds >= MAX_ZAP_IN_ROUNDS {
            ZapInConvergenceState {
                amount_in: self.amount_in,
                min_amount,
                max_amount,
                amount: self.amount,
                amount_out,
                liquidity_delta,
                required_amount,
                paired_amount,
                confused_flag,
                rounds,
                status: SearchStatus::Exhausted,
            }
        } else {
            ZapInConvergenceState {
                amount_in: self.amount_in,
                min_amount,
                max_amount,
                amount: min_amount + (max_amount - min_amount) / 2,
                amount_out,
                liquidity_delta,
                required_amount,
                paired_amount,
                confused_flag,
                rounds,
                status: SearchStatus::Searching,
            }
        }
    }
}

/// The liquidity that what a swap brought supports, at the price after the
/// swap: a swap of token A brings token B, which covers the range from the
/// least price up to the price; a swap of token B brings token A, which
/// covers the range from the price up to the greatest.
pub open spec fn liquidity_from_output_spec(
    pool: PoolSnapshot,
    amount_out: u64,
    trade_direction: TradeDirection,
) -> nat {
    match trade_direction {
        TradeDirection::AtoB => liquidity_from_b_spec(
            amount_out as nat,
            pool.sqrt_min_price as nat,
            pool.sqrt_price as nat,
        ),
        TradeDirection::BtoA => liquidity_from_a_spec(
            amount_out as nat,
            pool.sqrt_max_price as nat,
            pool.sqrt_price as nat,
        ),
    }
}

/// A swap that brings more never supports less liquidity, at the same
/// price after the swap.
pub proof fn lemma_more_output_more_liquidity(
    pool: PoolSnapshot,
    smaller_out: u64,
    greater_out: u64,
    trade_direction: TradeDirection,
)
    requires
        smaller_out <= greater_out,
        pool.sqrt_min_price < pool.sqrt_price < pool.sqrt_max_price,
    ensures
        liquidity_from_output_spec(pool, smaller_out, trade_direction)
            <= liquidity_from_output_spec(pool, greater_out, trade_direction),
{
    lemma_liquidity_monotone(
        smaller_out as nat,
        greater_out as nat,
        pool.sqrt_min_price as nat,
        pool.sqrt_price as nat,
        pool.sqrt_max_price as nat,
    );
}

/// A swap that brings no less and moves the price no less far supports no
/// less liquidity. The output covers the range between the price after the
/// swap and the end of the pool's range toward which the swap moves the
/// price: that range only narrows as the swap grows, and what is spread over
/// it only grows.
pub proof fn lemma_further_swap_more_liquidity(
    nearer: PoolSnapshot,
    further: PoolSnapshot,
    smaller_out: u64,
    greater_out: u64,
    trade_direction: TradeDirection,
)
    requires
        smaller_out <= greater_out,
        nearer.sqrt_min_price == further.sqrt_min_price,
        nearer.sqrt_max_price == further.sqrt_max_price,
        match trade_direction {
            TradeDirection::AtoB => nearer.sqrt_min_price < further.sqrt_price <= nearer.sqrt_price,
            TradeDirection::BtoA => nearer.sqrt_price <= further.sqrt_price < nearer.sqrt_max_price,
        },
    ensures
        liquidity_from_output_spec(nearer, smaller_out, trade_direction)
            <= liquidity_from_output_spec(further, greater_out, trade_direction),
{
    match trade_direction {
        TradeDirection::AtoB => {
            assert(smaller_out as nat * q128() <= greater_out as nat * q128()) by (nonlinear_arith)
                requires
                    smaller_out <= greater_out,
            ;
            lemma_quotient_monotone(
                smaller_out as nat * q128(),
                (nearer.sqrt_price - nearer.sqrt_min_price) as nat,
                greater_out as nat * q128(),
                (further.sqrt_price - further.sqrt_min_price) as nat,
            );
        },
        TradeDirection::BtoA => {
            let top = nearer.sqrt_max_price as nat;
            assert(smaller_out as nat * nearer.sqrt_price as nat <= greater_out as nat
                * further.sqrt_price as nat) by (nonlinear_arith)
                requires
                    smaller_out <= greater_out,
                    nearer.sqrt_price <= further.sqrt_price,
            ;
            assert(smaller_out as nat * nearer.sqrt_price as nat * top <= greater_out as nat
                * further.sqrt_price as nat * top) by (nonlinear_arith)
                requires
                    smaller_out as nat * nearer.sqrt_price as nat <= greater_out as nat
                        * further.sqrt_price as nat,
            ;
            lemma_quotient_monotone(
                smaller_out as nat * nearer.sqrt_price as nat * top,
                (nearer.sqrt_max_price - nearer.sqrt_price) as nat,
                greater_out as nat * further.sqrt_price as nat * top,
                (further.sqrt_max_price - further.sqrt_price) as nat,
            );
        },
    }
}

/// The liquidity that what a swap brought supports, or the error that the
/// derivation ends with: `MathOverflow` where the price sits on the end of
/// the range that the output token covers, `TypeCastFailed` where the
/// liquidity does not fit 128 bits.
pub open spec fn liquidity_from_output_result(
    pool: PoolSnapshot,
    amount_out: u64,
    trade_direction: TradeDirection,
) -> Result<u128, ZapError> {
    let inside = match trade_direction {
        TradeDirection::AtoB => pool.sqrt_price > pool.sqrt_min_price,
        TradeDirection::BtoA => pool.sqrt_max_price > pool.sqrt_price,
    };
    if !inside {
        Err(ZapError::MathOverflow)
    } else if liquidity_from_output_spec(pool, amount_out, trade_direction) > u128::MAX {
        Err(ZapError::TypeCastFailed)
    } else {
        Ok(liquidity_from_output_spec(pool, amount_out, trade_direction) as u128)
    }
}

/// Derives the liquidity that what a swap brought supports, at the price
/// after the swap. It fails with `MathOverflow` where the price sits on
/// the end of the range that the output token covers, and with
/// `TypeCastFailed` where the liquidity does not fit 128 bits.
pub fn liquidity_from_output(pool: &PoolSnapshot, amount_out: u64, trade_direction: TradeDirection) -> (r:
    Result<u128, ZapError>)
    ensures
        r == liquidity_from_output_result(*pool, amount_out, trade_direction),
        r.is_ok() ==> r.unwrap() == liquidity_from_output_spec(*pool, amount_out, trade_direction),
        r.is_ok() <==> (match trade_direction {
            TradeDirection::AtoB => pool.sqrt_price > pool.sqrt_min_price,
            TradeDirection::BtoA => pool.sqrt_max_price > pool.sqrt_price,
        }) && liquidity_from_output_spec(*pool, amount_out, trade_direction) <= u128::MAX,
        r.is_err() ==> r.unwrap_err() == (if match trade_direction {
            TradeDirection::AtoB => pool.sqrt_price > pool.sqrt_min_price,
            TradeDirection::BtoA => pool.sqrt_max_price > pool.sqrt_price,
        } {
            ZapError::TypeCastFailed
        } else {
            ZapError::MathOverflow
        }),
{
    match trade_direction {
        TradeDirection::AtoB => get_liquidity_from_amount_b(
            amount_out,
            pool.sqrt_min_price,
            pool.sqrt_price,
        ),
        TradeDirection::BtoA => get_liquidity_from_amount_a(
            amount_out,
            pool.sqrt_max_price,
            pool.sqrt_price,
        ),
    }
}

/// Whether what a search holds goes together: the amount out is what the
/// pool's swap, asked on `pool`, brings for what the candidate does not
/// keep, and the liquidity is what that amount supports at the price after
/// the swap.
pub open spec fn settled<S: Fn(u64, TradeDirection, PoolSnapshot) -> Result<PoolSwapResult, ZapError>>(
    state: ZapInConvergenceState,
    pool: PoolSnapshot,
    fee_a: TransferFeeCalculator,
    fee_b: TransferFeeCalculator,
    trade_direction: TradeDirection,
    swap: S,
) -> bool {
    let net_in = swap_input_spec(
        fee_a,
        fee_b,
        (state.amount_in - state.amount) as u64,
        trade_direction,
    );
    &&& net_in.is_ok()
    &&& exists|swapped: PoolSwapResult|
        {
            &&& #[trigger] call_ensures(
                swap,
                (net_in.unwrap(), trade_direction, pool),
                Ok::<PoolSwapResult, ZapError>(swapped),
            )
            &&& simulated_swap_spec(pool, fee_a, fee_b, trade_direction, swapped) matches Ok(
                simulated,
            ) && simulated.amount_out == state.amount_out && state.liquidity_delta
                == liquidity_from_output_spec(
                simulated.pool,
                simulated.amount_out,
                trade_direction,
            )
        }
}

/// What the pool answered in one round of a search: the result of the swap
/// of what the candidate does not keep, and the amounts that the liquidity
/// takes which the swap's output supports.
pub struct RoundAnswers {
    /// What the pool's swap gave.
    pub swap: Result<PoolSwapResult, ZapError>,
    /// What the pool gave for the liquidity.
    pub amounts: Result<(u64, u64), ZapError>,
}

/// What the trial of a candidate finds.
#[derive(Debug, Clone, Copy, PartialEq, Eq, Structural)]
pub struct Trial {
    /// What the swap of what the candidate does not keep brings.
    pub amount_out: u64,
    /// The liquidity that this supports at the price after the swap.
    pub liquidity_delta: u128,
    /// What that liquidity asks of the token that is kept, transfer fee
    /// included.
    pub required_amount: u64,
    /// What it asks of the token that the swap brings, transfer fee
    /// included.
    pub paired_amount: u64,
}

/// What the trial of a candidate that swaps `swap_amount` finds, given the
/// pool's answers: the swap is simulated, the liquidity that its output
/// supports at the price after the swap is derived, and the amounts that
/// this liquidity takes are found, transfer fees included. The first
/// failure is the trial's.
pub open spec fn trial_outcome(
    swap_amount: u64,
    pool: PoolSnapshot,
    fee_a: TransferFeeCalculator,
    fee_b: TransferFeeCalculator,
    trade_direction: TradeDirection,
    answers: RoundAnswers,
) -> Result<Trial, ZapError> {
    match swap_outcome(pool, fee_a, fee_b, swap_amount, trade_direction, answers.swap) {
        Err(e) => Err(e),
        Ok(simulated) => match liquidity_from_output_result(
            simulated.pool,
            simulated.amount_out,
            trade_direction,
        ) {
            Err(e) => Err(e),
            Ok(liquidity_delta) => match add_liquidity_outcome(fee_a, fee_b, answers.amounts) {
                Err(e) => Err(e),
                Ok(needed) => Ok(
                    Trial {
                        amount_out: simulated.amount_out,
                        liquidity_delta,
                        required_amount: match trade_direction {
                            TradeDirection::AtoB => needed.token_a_amount,
                            TradeDirection::BtoA => needed.token_b_amount,
                        },
                        paired_amount: match trade_direction {
                            TradeDirection::AtoB => needed.token_b_amount,
                            TradeDirection::BtoA => needed.token_a_amount,
                        },
                    },
                ),
            },
        },
    }
}

/// Whether `answers` are what the pool gave in the trial of a candidate
/// that swaps `swap_amount`: the swap's answer for the net input on `pool`,
/// and, where the trial gets that far, the amounts for the derived
/// liquidity on the snapshot after the swap.
pub open spec fn trial_answered<S, A>(
    swap_amount: u64,
    pool: PoolSnapshot,
    fee_a: TransferFeeCalculator,
    fee_b: TransferFeeCalculator,
    trade_direction: TradeDirection,
    swap: S,
    amounts: A,
    answers: RoundAnswers,
) -> bool where
    S: Fn(u64, TradeDirection, PoolSnapshot) -> Result<PoolSwapResult, ZapError>,
    A: Fn(u128, PoolSnapshot) -> Result<(u64, u64), ZapError>,
 {
    &&& swap_answered(swap, pool, fee_a, fee_b, swap_amount, trade_direction, answers.swap)
    &&& swap_outcome(pool, fee_a, fee_b, swap_amount, trade_direction, answers.swap) matches Ok(
        simulated,
    ) ==> (liquidity_from_output_result(
        simulated.pool,
        simulated.amount_out,
        trade_direction,
    ) matches Ok(liquidity_delta) ==> call_ensures(
        amounts,
        (liquidity_delta, simulated.pool),
        answers.amounts,
    ))
}

/// What one round makes of a searching state, given the pool's answers:
/// the candidate is tried, on what it does not keep, and the search steps
/// on what the trial finds. A failure of the trial is the round's.
pub open spec fn round_outcome(
    state: ZapInConvergenceState,
    pool: PoolSnapshot,
    fee_a: TransferFeeCalculator,
    fee_b: TransferFeeCalculator,
    trade_direction: TradeDirection,
    answers: RoundAnswers,
) -> Result<ZapInConvergenceState, ZapError> {
    match trial_outcome(
        (state.amount_in - state.amount) as u64,
        pool,
        fee_a,
        fee_b,
        trade_direction,
        answers,
    ) {
        Err(e) => Err(e),
        Ok(found) => Ok(
            state.stepped(
                found.amount_out,
                found.liquidity_delta,
                found.required_amount,
                found.paired_amount,
            ),
        ),
    }
}

/// Whether `answers` are what the pool gave in the round that starts from
/// `state`: those of the trial of its candidate.
pub open spec fn round_answered<S, A>(
    state: ZapInConvergenceState,
    pool: PoolSnapshot,
    fee_a: TransferFeeCalculator,
    fee_b: TransferFeeCalculator,
    trade_direction: TradeDirection,
    swap: S,
    amounts: A,
    answers: RoundAnswers,
) -> bool where
    S: Fn(u64, TradeDirection, PoolSnapshot) -> Result<PoolSwapResult, ZapError>,
    A: Fn(u128, PoolSnapshot) -> Result<(u64, u64), ZapError>,
 {
    trial_answered(
        (state.amount_in - state.amount) as u64,
        pool,
        fee_a,
        fee_b,
        trade_direction,
        swap,
        amounts,
        answers,
    )
}

/// Whether the search over `amount_in` stands at `state` after `rounds`
/// rounds: it starts from the initial state, and each round takes a
/// searching state to the next by `round_outcome`, on answers that the pool
/// gave.
pub open spec fn search_reached<S, A>(
    pool: PoolSnapshot,
    fee_a: TransferFeeCalculator,
    fee_b: TransferFeeCalculator,
    amount_in: u64,
    trade_direction: TradeDirection,
    swap: S,
    amounts: A,
    state: ZapInConvergenceState,
    rounds: nat,
) -> bool where
    S: Fn(u64, TradeDirection, PoolSnapshot) -> Result<PoolSwapResult, ZapError>,
    A: Fn(u128, PoolSnapshot) -> Result<(u64, u64), ZapError>,

    decreases rounds,
{
    if rounds == 0 {
        state == ZapInConvergenceState::initial(amount_in)
    } else {
        exists|before: ZapInConvergenceState, answers: RoundAnswers|
            {
                &&& search_reached(
                    pool,
                    fee_a,
                    fee_b,
                    amount_in,
                    trade_direction,
                    swap,
                    amounts,
                    before,
                    (rounds - 1) as nat,
                )
                &&& before.status == SearchStatus::Searching
                &&& #[trigger] round_answered(
                    before,
                    pool,
                    fee_a,
                    fee_b,
                    trade_direction,
                    swap,
                    amounts,
                    answers,
                )
                &&& round_outcome(before, pool, fee_a, fee_b, trade_direction, answers) == Ok::<
                    ZapInConvergenceState,
                    ZapError,
                >(state)
            }
    }
}

/// Whether `outcome` is what the search over `amount_in` comes to on
/// answers that the pool gave: the first state that is not searching any
/// more, reached within sixty-four rounds; or the error of the first round
/// that failed.
pub open spec fn is_search_outcome<S, A>(
    pool: PoolSnapshot,
    fee_a: TransferFeeCalculator,
    fee_b: TransferFeeCalculator,
    amount_in: u64,
    trade_direction: TradeDirection,
    swap: S,
    amounts: A,
    outcome: Result<ZapInConvergenceState, ZapError>,
) -> bool where
    S: Fn(u64, TradeDirection, PoolSnapshot) -> Result<PoolSwapResult, ZapError>,
    A: Fn(u128, PoolSnapshot) -> Result<(u64, u64), ZapError>,
 {
    match outcome {
        Ok(state) => state.status != SearchStatus::Searching && exists|rounds: nat|
            1 <= rounds <= MAX_ZAP_IN_ROUNDS && #[trigger] search_reached(
                pool,
                fee_a,
                fee_b,
                amount_in,
                trade_direction,
                swap,
                amounts,
                state,
                rounds,
            ),
        Err(e) => exists|before: ZapInConvergenceState, rounds: nat, answers: RoundAnswers|
            {
                &&& rounds < MAX_ZAP_IN_ROUNDS
                &&& #[trigger] search_reached(
                    pool,
                    fee_a,
                    fee_b,
                    amount_in,
                    trade_direction,
                    swap,
                    amounts,
                    before,
                    rounds,
                )
                &&& before.status == SearchStatus::Searching
                &&& #[trigger] round_answered(
                    before,
                    pool,
                    fee_a,
                    fee_b,
                    trade_direction,
                    swap,
                    amounts,
                    answers,
                )
                &&& round_outcome(before, pool, fee_a, fee_b, trade_direction, answers) == Err::<
                    ZapInConvergenceState,
                    ZapError,
                >(e)
            },
    }
}

/// What a one-sided deposit comes to.
#[derive(Debug, Clone, Copy, PartialEq, Eq, Structural)]
pub enum ZapInPlan {
    /// The deposit is too small to form any liquidity; nothing is done.
    Nothing,
    /// So much is swapped, for at least so much, and then the liquidity is
    /// added.
    SwapAndDeposit {
        /// What is swapped.
        swap_amount_in: u64,
        /// The least that the swap must bring.
        minimum_amount_out: u64,
        /// The direction of the swap.
        trade_direction: TradeDirection,
        /// The liquidity to add after the swap.
        liquidity_delta: u128,
        /// The most of token A that the deposit after the swap may take:
        /// what the liquidity asked for in the simulation, transfer fee
        /// included.
        token_a_amount_threshold: u64,
        /// The most of token B that the deposit after the swap may take.
        token_b_amount_threshold: u64,
    },
}

/// What the liquidity of a finished search asks of token A, transfer fee
/// included: of the token that is kept where token A is swapped, of the
/// token that the swap brings where token B is.
pub open spec fn token_a_threshold_spec(
    state: ZapInConvergenceState,
    trade_direction: TradeDirection,
) -> u64 {
    match trade_direction {
        TradeDirection::AtoB => state.required_amount,
        TradeDirection::BtoA => state.paired_amount,
    }
}

/// What the liquidity of a finished search asks of token B, transfer fee
/// included.
pub open spec fn token_b_threshold_spec(
    state: ZapInConvergenceState,
    trade_direction: TradeDirection,
) -> u64 {
    match trade_direction {
        TradeDirection::AtoB => state.paired_amount,
        TradeDirection::BtoA => state.required_amount,
    }
}

/// The plan that a finished search comes to.
pub open spec fn plan_spec(state: ZapInConvergenceState, trade_direction: TradeDirection) -> ZapInPlan {
    if state.liquidity_delta == 0 {
        ZapInPlan::Nothing
    } else {
        ZapInPlan::SwapAndDeposit {
            swap_amount_in: (state.amount_in - state.amount) as u64,
            minimum_amount_out: state.amount_out,
            trade_direction,
            liquidity_delta: state.liquidity_delta,
            token_a_amount_threshold: token_a_threshold_spec(state, trade_direction),
            token_b_amount_threshold: token_b_threshold_spec(state, trade_direction),
        }
    }
}

/// What the planning of a one-sided deposit makes of the outcome of the
/// search: the plan of the state that the search ended in, or its error.
pub open spec fn plan_outcome(
    outcome: Result<ZapInConvergenceState, ZapError>,
    trade_direction: TradeDirection,
) -> Result<ZapInPlan, ZapError> {
    match outcome {
        Ok(state) => Ok(plan_spec(state, trade_direction)),
        Err(e) => Err(e),
    }
}

/// Makes the plan out of a finished search: what is not kept is swapped,
/// for at least what the simulation brought, and the liquidity that the
/// simulation found is added, for no more of either token than it asked
/// for in the simulation. A liquidity of zero makes the whole zap a no-op,
/// which is no error.
pub fn plan_of(state: &ZapInConvergenceState, trade_direction: TradeDirection) -> (r: ZapInPlan)
    requires
        state.well_formed(),
    ensures
        r == plan_spec(*state, trade_direction),
{
    if state.liquidity_delta == 0 {
        ZapInPlan::Nothing
    } else {
        let (token_a_amount_threshold, token_b_amount_threshold) = match trade_direction {
            TradeDirection::AtoB => (state.required_amount, state.paired_amount),
            TradeDirection::BtoA => (state.paired_amount, state.required_amount),
        };
        ZapInPlan::SwapAndDeposit {
            swap_amount_in: state.amount_in - state.amount,
            minimum_amount_out: state.amount_out,
            trade_direction,
            liquidity_delta: state.liquidity_delta,
            token_a_amount_threshold,
            token_b_amount_threshold,
        }
    }
}

/// Searches for the split of a one-sided deposit of `amount_in`: how much
/// to keep and how much to swap in `trade_direction`, so that the liquidity
/// which the swapped part supports asks for what is kept.
///
/// Each round simulates the swap of what the candidate does not keep, on
/// the snapshot that was passed, derives the liquidity that the output
/// supports at the price after the swap, asks the pool what that liquidity
/// takes, adds the transfer fee of the input mint, and steps the search.
/// The first failure of any of these ends the search with that error.
///
/// Whatever the pool's functions return, the result is what
/// `is_search_outcome` says: the state that the rounds lead to from the
/// initial state on the pool's answers, once it is not searching any more,
/// or the error of the first round that failed. The search ends within
/// sixty-four rounds, and the state that is returned is well formed, is
/// about `amount_in`, and is settled: its amount out and its liquidity are
/// those of the candidate that it holds.
pub fn search_zap_in<S, A>(
    pool: &PoolSnapshot,
    token_a_transfer_fee_calculator: &TransferFeeCalculator,
    token_b_transfer_fee_calculator: &TransferFeeCalculator,
    amount_in: u64,
    trade_direction: TradeDirection,
    swap: &S,
    amounts: &A,
) -> (r: Result<ZapInConvergenceState, ZapError>) where
    S: Fn(u64, TradeDirection, PoolSnapshot) -> Result<PoolSwapResult, ZapError>,
    A: Fn(u128, PoolSnapshot) -> Result<(u64, u64), ZapError>,

    requires
        forall|amount: u64, direction: TradeDirection, snapshot: PoolSnapshot|
            call_requires(*swap, (amount, direction, snapshot)),
        forall|liquidity: u128, snapshot: PoolSnapshot|
            call_requires(*amounts, (liquidity, snapshot)),
    ensures
        is_search_outcome(
            *pool,
            *token_a_transfer_fee_calculator,
            *token_b_transfer_fee_calculator,
            amount_in,
            trade_direction,
            *swap,
            *amounts,
            r,
        ),
        r.is_ok() ==> {
            let state = r.unwrap();
            &&& state.well_formed()
            &&& state.amount_in == amount_in
            &&& state.status != SearchStatus::Searching
            &&& 1 <= state.rounds <= MAX_ZAP_IN_ROUNDS
            &&& settled(
                state,
                *pool,
                *token_a_transfer_fee_calculator,
                *token_b_transfer_fee_calculator,
                trade_direction,
                *swap,
            )
        },
{
    let mut state = ZapInConvergenceState::new(amount_in);
    let ghost fee_a = *token_a_transfer_fee_calculator;
    let ghost fee_b = *token_b_transfer_fee_calculator;
    loop
        invariant_except_break
            state.status == SearchStatus::Searching,
        invariant
            forall|amount: u64, direction: TradeDirection, snapshot: PoolSnapshot|
                call_requires(*swap, (amount, direction, snapshot)),
            forall|liquidity: u128, snapshot: PoolSnapshot|
                call_requires(*amounts, (liquidity, snapshot)),
            fee_a == *token_a_transfer_fee_calculator,
            fee_b == *token_b_transfer_fee_calculator,
            state.well_formed(),
            state.amount_in == amount_in,
            search_reached(
                *pool,
                fee_a,
                fee_b,
                amount_in,
                trade_direction,
                *swap,
                *amounts,
                state,
                state.rounds as nat,
            ),
        ensures
            state.well_formed(),
            state.amount_in == amount_in,
            state.status != SearchStatus::Searching,
            1 <= state.rounds <= MAX_ZAP_IN_ROUNDS,
            settled(
                state,
                *pool,
                *token_a_transfer_fee_calculator,
                *token_b_transfer_fee_calculator,
                trade_direction,
                *swap,
            ),
            search_reached(
                *pool,
                fee_a,
                fee_b,
                amount_in,
                trade_direction,
                *swap,
                *amounts,
                state,
                state.rounds as nat,
            ),
        decreases MAX_ZAP_IN_ROUNDS - state.rounds,
    {
        let ghost before = state;
        let swap_amount = state.swap_amount();
        let simulation = simulate_swap(
            pool,
            token_a_transfer_fee_calculator,
            token_b_transfer_fee_calculator,
            swap_amount,
            trade_direction,
            swap,
        );
        let ghost swap_answer = choose|answer: Result<PoolSwapResult, ZapError>|
            swap_answered(*swap, *pool, fee_a, fee_b, swap_amount, trade_direction, answer)
                && simulation == swap_outcome(
                *pool,
                fee_a,
                fee_b,
                swap_amount,
                trade_direction,
                answer,
            );
        let simulated = match simulation {
            Ok(v) => v,
            Err(e) => {
                proof {
                    let answers = RoundAnswers {
                        swap: swap_answer,
                        amounts: Err::<(u64, u64), ZapError>(e),
                    };
                    assert(round_answered(
                        before,
                        *pool,
                        fee_a,
                        fee_b,
                        trade_direction,
                        *swap,
                        *amounts,
                        answers,
                    ));
                }
                return Err(e);
            },
        };
        let liquidity_delta = match liquidity_from_output(
            &simulated.pool,
            simulated.amount_out,
            trade_direction,
        ) {
            Ok(v) => v,
            Err(e) => {
                proof {
                    let answers = RoundAnswers {
                        swap: swap_answer,
                        amounts: Err::<(u64, u64), ZapError>(e),
                    };
                    assert(round_answered(
                        before,
                        *pool,
                        fee_a,
                        fee_b,
                        trade_direction,
                        *swap,
                        *amounts,
                        answers,
                    ));
                }
                return Err(e);
            },
        };
        let deposit = simulate_add_liquidity(
            &simulated.pool,
            liquidity_delta,
            token_a_transfer_fee_calculator,
            token_b_transfer_fee_calculator,
            amounts,
        );
        let ghost answers = RoundAnswers {
            swap: swap_answer,
            amounts: choose|answer: Result<(u64, u64), ZapError>|
                call_ensures(*amounts, (liquidity_delta, simulated.pool), answer) && deposit
                    == add_liquidity_outcome(fee_a, fee_b, answer),
        };
        proof {
            assert(round_answered(
                before,
                *pool,
                fee_a,
                fee_b,
                trade_direction,
                *swap,
                *amounts,
                answers,
            ));
        }
        let needed = match deposit {
            Ok(v) => v,
            Err(e) => {
                return Err(e);
            },
        };
        let (required_amount, paired_amount) = match trade_direction {
            TradeDirection::AtoB => (needed.token_a_amount, needed.token_b_amount),
            TradeDirection::BtoA => (needed.token_b_amount, needed.token_a_amount),
        };
        state = state.step(simulated.amount_out, liquidity_delta, required_amount, paired_amount);
        proof {
            assert(round_outcome(before, *pool, fee_a, fee_b, trade_direction, answers) == Ok::<
                ZapInConvergenceState,
                ZapError,
            >(state));
        }
        match state.status {
            SearchStatus::Searching => {},
            _ => {
                break ;
            },
        }
    }
    Ok(state)
}

/// Plans a one-sided deposit: runs the search and makes the plan.
///
/// Whatever the pool's functions return, the result is what `plan_outcome`
/// makes of an outcome of the search: the plan of the state that the search
/// ended in, or the error of the round that failed.
pub fn plan_one_sided_zap_in<S, A>(
    pool: &PoolSnapshot,
    token_a_transfer_fee_calculator: &TransferFeeCalculator,
    token_b_transfer_fee_calculator: &TransferFeeCalculator,
    amount_in: u64,
    trade_direction: TradeDirection,
    swap: &S,
    amounts: &A,
) -> (r: Result<ZapInPlan, ZapError>) where
    S: Fn(u64, TradeDirection, PoolSnapshot) -> Result<PoolSwapResult, ZapError>,
    A: Fn(u128, PoolSnapshot) -> Result<(u64, u64), ZapError>,

    requires
        forall|amount: u64, direction: TradeDirection, snapshot: PoolSnapshot|
            call_requires(*swap, (amount, direction, snapshot)),
        forall|liquidity: u128, snapshot: PoolSnapshot|
            call_requires(*amounts, (liquidity, snapshot)),
    ensures
        r matches Ok(ZapInPlan::SwapAndDeposit {
            swap_amount_in,
            minimum_amount_out,
            trade_direction: direction,
            liquidity_delta,
            token_a_amount_threshold,
            token_b_amount_threshold,
        }) ==> swap_amount_in <= amount_in && direction == trade_direction && liquidity_delta > 0,
        exists|outcome: Result<ZapInConvergenceState, ZapError>|
            {
                &&& #[trigger] is_search_outcome(
                    *pool,
                    *token_a_transfer_fee_calculator,
                    *token_b_transfer_fee_calculator,
                    amount_in,
                    trade_direction,
                    *swap,
                    *amounts,
                    outcome,
                )
                &&& r == plan_outcome(outcome, trade_direction)
            },
        r matches Ok(plan) ==> exists|state: ZapInConvergenceState|
            {
                &&& state.well_formed()
                &&& state.amount_in == amount_in
                &&& state.status != SearchStatus::Searching
                &&& #[trigger] settled(
                    state,
                    *pool,
                    *token_a_transfer_fee_calculator,
                    *token_b_transfer_fee_calculator,
                    trade_direction,
                    *swap,
                )
                &&& plan == plan_spec(state, trade_direction)
            },
{
    let outcome = search_zap_in(
        pool,
        token_a_transfer_fee_calculator,
        token_b_transfer_fee_calculator,
        amount_in,
        trade_direction,
        swap,
        amounts,
    );
    match outcome {
        Ok(state) => Ok(plan_of(&state, trade_direction)),
        Err(e) => Err(e),
    }
}

/// A swap that a zap-in makes before it deposits.
#[derive(Debug, Clone, Copy, PartialEq, Eq, Structural)]
pub struct SwapAction {
    /// What is swapped.
    pub amount_in: u64,
    /// The least that the swap must bring.
    pub minimum_amount_out: u64,
    /// The direction of the swap.
    pub trade_direction: TradeDirection,
    /// The liquidity to add after the swap.
    pub liquidity_delta: u128,
    /// The most of token A that the deposit after the swap may take.
    pub token_a_amount_threshold: u64,
    /// The most of token B that the deposit after the swap may take.
    pub token_b_amount_threshold: u64,
}

/// What a deposit of both tokens comes to.
#[derive(Debug, Clone, Copy, PartialEq, Eq, Structural)]
pub struct CalculateZapInResult {
    /// The liquidity that the two amounts support together; it is added first.
    pub liquidity_delta: u128,
    /// The swap of what is left over, if enough is left over.
    pub swap_action: Option<SwapAction>,
}

/// What is to be swapped of what a first deposit left over: nothing where
/// both remainders are within their thresholds; otherwise the remainder of
/// token A if it is above its threshold, and that of token B if not.
pub open spec fn left_over_spec(
    remainder_a: u64,
    remainder_b: u64,
    threshold_token_a: u64,
    threshold_token_b: u64,
) -> Option<(u64, TradeDirection)> {
    if remainder_a <= threshold_token_a && remainder_b <= threshold_token_b {
        None
    } else if remainder_a > threshold_token_a {
        Some((remainder_a, TradeDirection::AtoB))
    } else {
        Some((remainder_b, TradeDirection::BtoA))
    }
}

/// Decides which remainder is to be swapped, if any.
pub fn left_over(
    remainder_a: u64,
    remainder_b: u64,
    threshold_token_a: u64,
    threshold_token_b: u64,
) -> (r: Option<(u64, TradeDirection)>)
    ensures
        r == left_over_spec(remainder_a, remainder_b, threshold_token_a, threshold_token_b),
{
    if remainder_a <= threshold_token_a && remainder_b <= threshold_token_b {
        None
    } else if remainder_a > threshold_token_a {
        Some((remainder_a, TradeDirection::AtoB))
    } else {
        Some((remainder_b, TradeDirection::BtoA))
    }
}

/// The liquidity that a deposit of both tokens into `pool` adds first, or
/// the error that the deposit is refused with.
pub open spec fn joint_liquidity_result(
    pool: PoolSnapshot,
    max_deposit_amount_a: u64,
    max_deposit_amount_b: u64,
) -> Result<u128, ZapError> {
    liquidity_for_adding_result(
        max_deposit_amount_a,
        max_deposit_amount_b,
        pool.sqrt_price,
        pool.sqrt_min_price,
        pool.sqrt_max_price,
    )
}

/// What a first deposit leaves of each token: the deposit less what the
/// liquidity takes; `MathOverflow` where it takes more of a token than the
/// deposit holds.
pub open spec fn remainders_spec(
    max_deposit_amount_a: u64,
    max_deposit_amount_b: u64,
    needed: SimulateAddLiquidityResult,
) -> Result<(u64, u64), ZapError> {
    if needed.token_a_amount > max_deposit_amount_a || needed.token_b_amount > max_deposit_amount_b {
        Err(ZapError::MathOverflow)
    } else {
        Ok(
            (
                (max_deposit_amount_a - needed.token_a_amount) as u64,
                (max_deposit_amount_b - needed.token_b_amount) as u64,
            ),
        )
    }
}

/// Computes what a first deposit leaves of each token.
pub fn remainders(max_deposit_amount_a: u64, max_deposit_amount_b: u64, needed: SimulateAddLiquidityResult) -> (r:
    Result<(u64, u64), ZapError>)
    ensures
        r == remainders_spec(max_deposit_amount_a, max_deposit_amount_b, needed),
{
    let remain_token_a_amount = checked(max_deposit_amount_a.safe_sub(needed.token_a_amount))?;
    let remain_token_b_amount = checked(max_deposit_amount_b.safe_sub(needed.token_b_amount))?;
    Ok((remain_token_a_amount, remain_token_b_amount))
}

/// The swap that a plan for the remainder names, if it names one.
pub open spec fn swap_action_spec(plan: ZapInPlan) -> Option<SwapAction> {
    match plan {
        ZapInPlan::Nothing => None,
        ZapInPlan::SwapAndDeposit {
            swap_amount_in,
            minimum_amount_out,
            trade_direction,
            liquidity_delta,
            token_a_amount_threshold,
            token_b_amount_threshold,
        } => Some(
            SwapAction {
                amount_in: swap_amount_in,
                minimum_amount_out,
                trade_direction,
                liquidity_delta,
                token_a_amount_threshold,
                token_b_amount_threshold,
            },
        ),
    }
}

/// Turns the plan for the remainder into the swap that it names.
pub fn swap_action_of(plan: ZapInPlan) -> (r: Option<SwapAction>)
    ensures
        r == swap_action_spec(plan),
{
    match plan {
        ZapInPlan::Nothing => None,
        ZapInPlan::SwapAndDeposit {
            swap_amount_in,
            minimum_amount_out,
            trade_direction,
            liquidity_delta,
            token_a_amount_threshold,
            token_b_amount_threshold,
        } => Some(
            SwapAction {
                amount_in: swap_amount_in,
                minimum_amount_out,
                trade_direction,
                liquidity_delta,
                token_a_amount_threshold,
                token_b_amount_threshold,
            },
        ),
    }
}

/// What the pool answered to the planning of a deposit of both tokens: the
/// amounts that the joint liquidity takes, and what the search over the
/// remainder came to.
pub struct ZapInAnswers {
    /// What the pool gave for the joint liquidity.
    pub amounts: Result<(u64, u64), ZapError>,
    /// What the search over the remainder came to.
    pub search: Result<ZapInConvergenceState, ZapError>,
}

/// What is left to swap after the first deposit, given what the pool
/// answered for the joint liquidity: the first error on the way, nothing
/// where both remainders are within their thresholds, else the remainder in
/// surplus and the direction of its swap.
pub open spec fn remainder_outcome(
    fee_a: TransferFeeCalculator,
    fee_b: TransferFeeCalculator,
    max_deposit_amount_a: u64,
    max_deposit_amount_b: u64,
    threshold_token_a: u64,
    threshold_token_b: u64,
    answer: Result<(u64, u64), ZapError>,
) -> Result<Option<(u64, TradeDirection)>, ZapError> {
    match add_liquidity_outcome(fee_a, fee_b, answer) {
        Err(e) => Err(e),
        Ok(needed) => match remainders_spec(max_deposit_amount_a, max_deposit_amount_b, needed) {
            Err(e) => Err(e),
            Ok(left) => Ok(left_over_spec(left.0, left.1, threshold_token_a, threshold_token_b)),
        },
    }
}

/// What the planning of a deposit of both tokens comes to, given the
/// pool's answers. The joint liquidity is derived first, and its error is
/// the plan's. Then the pool's amounts for it decide: the pool's error, or
/// that of a transfer fee, is the plan's; an amount above the deposit of
/// its token gives `MathOverflow`. Where both remainders are within their
/// thresholds, the plan holds the joint liquidity and no swap. Otherwise
/// the search over the remainder in surplus decides: its error is the
/// plan's, a search that found no liquidity leaves the swap out, and any
/// other names the swap.
pub open spec fn zap_in_outcome(
    pool: PoolSnapshot,
    fee_a: TransferFeeCalculator,
    fee_b: TransferFeeCalculator,
    max_deposit_amount_a: u64,
    max_deposit_amount_b: u64,
    threshold_token_a: u64,
    threshold_token_b: u64,
    answers: ZapInAnswers,
) -> Result<CalculateZapInResult, ZapError> {
    match joint_liquidity_result(pool, max_deposit_amount_a, max_deposit_amount_b) {
        Err(e) => Err(e),
        Ok(liquidity_delta) => match remainder_outcome(
            fee_a,
            fee_b,
            max_deposit_amount_a,
            max_deposit_amount_b,
            threshold_token_a,
            threshold_token_b,
            answers.amounts,
        ) {
            Err(e) => Err(e),
            Ok(None) => Ok(CalculateZapInResult { liquidity_delta, swap_action: None }),
            Ok(Some(rest)) => match plan_outcome(answers.search, rest.1) {
                Err(e) => Err(e),
                Ok(plan) => Ok(
                    CalculateZapInResult { liquidity_delta, swap_action: swap_action_spec(plan) },
                ),
            },
        },
    }
}

/// Whether `answers` are what the pool gave to the planning of a deposit
/// of both tokens: the amounts are the pool's answer for the joint
/// liquidity on `pool`, and, where a remainder is left to swap, the search
/// is an outcome of the search over that remainder, in the direction of
/// its swap, on `pool`. Where the planning does not get as far as a
/// question, any answer to it will do.
pub open spec fn zap_in_answered<S, A>(
    pool: PoolSnapshot,
    fee_a: TransferFeeCalculator,
    fee_b: TransferFeeCalculator,
    max_deposit_amount_a: u64,
    max_deposit_amount_b: u64,
    threshold_token_a: u64,
    threshold_token_b: u64,
    swap: S,
    amounts: A,
    answers: ZapInAnswers,
) -> bool where
    S: Fn(u64, TradeDirection, PoolSnapshot) -> Result<PoolSwapResult, ZapError>,
    A: Fn(u128, PoolSnapshot) -> Result<(u64, u64), ZapError>,
 {
    joint_liquidity_result(pool, max_deposit_amount_a, max_deposit_amount_b) matches Ok(
        liquidity_delta,
    ) ==> {
        &&& call_ensures(amounts, (liquidity_delta, pool), answers.amounts)
        &&& remainder_outcome(
            fee_a,
            fee_b,
            max_deposit_amount_a,
            max_deposit_amount_b,
            threshold_token_a,
            threshold_token_b,
            answers.amounts,
        ) matches Ok(Some(rest)) ==> is_search_outcome(
            pool,
            fee_a,
            fee_b,
            rest.0,
            rest.1,
            swap,
            amounts,
            answers.search,
        )
    }
}

/// Plans a deposit of both tokens. The liquidity that the two amounts
/// support together, the lesser of what each supports, is added first; it
/// must not be zero. If what is then left of both tokens is within the
/// thresholds, that is all. Otherwise the remainder of the token in surplus
/// is split by the search, and the plan names the swap and the liquidity to
/// add after it; a search that finds no liquidity leaves the swap out.
///
/// Whatever the pool's functions return, the result, a failure too, is
/// what `zap_in_outcome` makes of answers that the pool gave: the pool is
/// asked for the amounts of the joint liquidity on the snapshot that was
/// passed, and the search runs over the remainder in surplus on the same
/// snapshot. A plan holds the liquidity that the two amounts support
/// together, which is positive, and a swap of it takes no more than the
/// deposit of its token.
pub fn calculate_zap_in<S, A>(
    pool: &PoolSnapshot,
    token_a_transfer_fee_calculator: &TransferFeeCalculator,
    token_b_transfer_fee_calculator: &TransferFeeCalculator,
    max_deposit_amount_a: u64,
    max_deposit_amount_b: u64,
    threshold_token_a: u64,
    threshold_token_b: u64,
    swap: &S,
    amounts: &A,
) -> (r: Result<CalculateZapInResult, ZapError>) where
    S: Fn(u64, TradeDirection, PoolSnapshot) -> Result<PoolSwapResult, ZapError>,
    A: Fn(u128, PoolSnapshot) -> Result<(u64, u64), ZapError>,

    requires
        forall|amount: u64, direction: TradeDirection, snapshot: PoolSnapshot|
            call_requires(*swap, (amount, direction, snapshot)),
        forall|liquidity: u128, snapshot: PoolSnapshot|
            call_requires(*amounts, (liquidity, snapshot)),
    ensures
        exists|answers: ZapInAnswers|
            {
                &&& #[trigger] zap_in_answered(
                    *pool,
                    *token_a_transfer_fee_calculator,
                    *token_b_transfer_fee_calculator,
                    max_deposit_amount_a,
                    max_deposit_amount_b,
                    threshold_token_a,
                    threshold_token_b,
                    *swap,
                    *amounts,
                    answers,
                )
                &&& r == zap_in_outcome(
                    *pool,
                    *token_a_transfer_fee_calculator,
                    *token_b_transfer_fee_calculator,
                    max_deposit_amount_a,
                    max_deposit_amount_b,
                    threshold_token_a,
                    threshold_token_b,
                    answers,
                )
            },
        joint_liquidity_result(*pool, max_deposit_amount_a, max_deposit_amount_b) matches Err(e) ==> r
            == Err::<CalculateZapInResult, ZapError>(e),
        r.is_ok() ==> {
            let result = r.unwrap();
            &&& pool.sqrt_min_price < pool.sqrt_price < pool.sqrt_max_price
            &&& result.liquidity_delta > 0
            &&& result.liquidity_delta == liquidity_for_adding_spec(
                max_deposit_amount_a as nat,
                max_deposit_amount_b as nat,
                pool.sqrt_price as nat,
                pool.sqrt_min_price as nat,
                pool.sqrt_max_price as nat,
            )
            &&& result.swap_action matches Some(action) ==> action.liquidity_delta > 0 && (
            match action.trade_direction {
                TradeDirection::AtoB => action.amount_in <= max_deposit_amount_a,
                TradeDirection::BtoA => action.amount_in <= max_deposit_amount_b,
            })
        },
{
    let ghost fee_a = *token_a_transfer_fee_calculator;
    let ghost fee_b = *token_b_transfer_fee_calculator;
    let ghost unasked = ZapInAnswers {
        amounts: Err::<(u64, u64), ZapError>(ZapError::MathOverflow),
        search: Err::<ZapInConvergenceState, ZapError>(ZapError::MathOverflow),
    };
    let liquidity_delta = match get_liquidity_for_adding_liquidity(
        max_deposit_amount_a,
        max_deposit_amount_b,
        pool.sqrt_price,
        pool.sqrt_min_price,
        pool.sqrt_max_price,
    ) {
        Ok(v) => v,
        Err(e) => {
            proof {
                assert(zap_in_answered(
                    *pool,
                    fee_a,
                    fee_b,
                    max_deposit_amount_a,
                    max_deposit_amount_b,
                    threshold_token_a,
                    threshold_token_b,
                    *swap,
                    *amounts,
                    unasked,
                ));
            }
            return Err(e);
        },
    };
    let deposit = simulate_add_liquidity(
        pool,
        liquidity_delta,
        token_a_transfer_fee_calculator,
        token_b_transfer_fee_calculator,
        amounts,
    );
    let ghost answer = choose|answer: Result<(u64, u64), ZapError>|
        call_ensures(*amounts, (liquidity_delta, *pool), answer) && deposit == add_liquidity_outcome(
            fee_a,
            fee_b,
            answer,
        );
    let ghost unsearched = ZapInAnswers {
        amounts: answer,
        search: Err::<ZapInConvergenceState, ZapError>(ZapError::MathOverflow),
    };
    let needed = match deposit {
        Ok(v) => v,
        Err(e) => {
            proof {
                assert(zap_in_answered(
                    *pool,
                    fee_a,
                    fee_b,
                    max_deposit_amount_a,
                    max_deposit_amount_b,
                    threshold_token_a,
                    threshold_token_b,
                    *swap,
                    *amounts,
                    unsearched,
                ));
            }
            return Err(e);
        },
    };
    let left = match remainders(max_deposit_amount_a, max_deposit_amount_b, needed) {
        Ok(v) => v,
        Err(e) => {
            proof {
                assert(zap_in_answered(
                    *pool,
                    fee_a,
                    fee_b,
                    max_deposit_amount_a,
                    max_deposit_amount_b,
                    threshold_token_a,
                    threshold_token_b,
                    *swap,
                    *amounts,
                    unsearched,
                ));
            }
            return Err(e);
        },
    };
    let (remain_amount, trade_direction) = match left_over(
        left.0,
        left.1,
        threshold_token_a,
        threshold_token_b,
    ) {
        Some(v) => v,
        None => {
            proof {
                assert(zap_in_answered(
                    *pool,
                    fee_a,
                    fee_b,
                    max_deposit_amount_a,
                    max_deposit_amount_b,
                    threshold_token_a,
                    threshold_token_b,
                    *swap,
                    *amounts,
                    unsearched,
                ));
            }
            return Ok(CalculateZapInResult { liquidity_delta, swap_action: None });
        },
    };
    let planned = plan_one_sided_zap_in(
        pool,
        token_a_transfer_fee_calculator,
        token_b_transfer_fee_calculator,
        remain_amount,
        trade_direction,
        swap,
        amounts,
    );
    proof {
        let answers = ZapInAnswers {
            amounts: answer,
            search: choose|outcome: Result<ZapInConvergenceState, ZapError>|
                is_search_outcome(
                    *pool,
                    fee_a,
                    fee_b,
                    remain_amount,
                    trade_direction,
                    *swap,
                    *amounts,
                    outcome,
                ) && planned == plan_outcome(outcome, trade_direction),
        };
        assert(zap_in_answered(
            *pool,
            fee_a,
            fee_b,
            max_deposit_amount_a,
            max_deposit_amount_b,
            threshold_token_a,
            threshold_token_b,
            *swap,
            *amounts,
            answers,
        ));
    }
    let plan = planned?;
    Ok(CalculateZapInResult { liquidity_delta, swap_action: swap_action_of(plan) })
}

/// What a zap-in of both tokens asks for.
#[derive(Debug, Clone, Copy, PartialEq, Eq, Structural)]
pub struct ZapInParameters {
    /// The balance of token A before the preceding instruction.
    pub pre_token_a_balance: u64,
    /// The balance of token B before the preceding instruction.
    pub pre_token_b_balance: u64,
    /// What the user deposits of token A besides what arrived.
    pub amount_a_0: u64,
    /// What the user deposits of token B besides what arrived.
    pub amount_b_0: u64,
    /// How much of token A may stay undeposited.
    pub threshold_amount_a: u64,
    /// How much of token B may stay undeposited.
    pub threshold_amount_b: u64,
    /// A cap on the deposit of token A.
    pub max_deposit_amount_a: u64,
    /// A cap on the deposit of token B.
    pub max_deposit_amount_b: u64,
}

/// What may be deposited of a token: what the user adds, plus what arrived
/// since the balance was `pre_balance`, capped at `cap`; nothing where that
/// cannot be formed.
pub open spec fn deposit_amount_spec(amount_0: u64, balance: u64, pre_balance: u64, cap: u64) -> Option<
    u64,
> {
    if amount_0 + balance > u64::MAX || amount_0 + balance < pre_balance {
        None
    } else if amount_0 + balance - pre_balance < cap {
        Some((amount_0 + balance - pre_balance) as u64)
    } else {
        Some(cap)
    }
}

/// Computes what may be deposited of a token.
fn deposit_amount(amount_0: u64, balance: u64, pre_balance: u64, cap: u64) -> (r: Result<
    u64,
    ZapError,
>)
    ensures
        r == match deposit_amount_spec(amount_0, balance, pre_balance, cap) {
            Some(v) => Ok::<u64, ZapError>(v),
            None => Err::<u64, ZapError>(ZapError::MathOverflow),
        },
{
    let sum = checked(amount_0.safe_add(balance))?;
    let amount = checked(sum.safe_sub(pre_balance))?;
    if amount < cap {
        Ok(amount)
    } else {
        Ok(cap)
    }
}

/// Whether enough of a token was deposited: the balance fell from `before`
/// to `after`, and what was not deposited of `max_deposit_amount` is within
/// the threshold, strictly below it where `strict` is set. Nothing where
/// the balance rose or more was deposited than was allowed.
pub open spec fn deposited_enough_spec(
    max_deposit_amount: u64,
    before: u64,
    after: u64,
    threshold: u64,
    strict: bool,
) -> Option<bool> {
    if after > before || before - after > max_deposit_amount {
        None
    } else {
        let left = max_deposit_amount - (before - after);
        Some(if strict {
            left < threshold
        } else {
            left <= threshold
        })
    }
}

/// Checks what was deposited of one token.
fn deposited_enough(max_deposit_amount: u64, before: u64, after: u64, threshold: u64, strict: bool) -> (r:
    Result<bool, ZapError>)
    ensures
        r == match deposited_enough_spec(max_deposit_amount, before, after, threshold, strict) {
            Some(v) => Ok::<bool, ZapError>(v),
            None => Err::<bool, ZapError>(ZapError::MathOverflow),
        },
{
    let deposited = checked(before.safe_sub(after))?;
    let left = checked(max_deposit_amount.safe_sub(deposited))?;
    if strict {
        Ok(left < threshold)
    } else {
        Ok(left <= threshold)
    }
}

impl ZapInParameters {
    /// Computes what may be deposited of each token, given the balances of
    /// the user's token accounts: what the user adds plus what arrived,
    /// capped. It fails with `MathOverflow` where a sum does not fit or a
    /// balance before is stated higher than what is there.
    pub fn deposit_amounts(&self, token_a_balance: u64, token_b_balance: u64) -> (r: Result<
        (u64, u64),
        ZapError,
    >)
        ensures
            r == match (
                deposit_amount_spec(
                    self.amount_a_0,
                    token_a_balance,
                    self.pre_token_a_balance,
                    self.max_deposit_amount_a,
                ),
                deposit_amount_spec(
                    self.amount_b_0,
                    token_b_balance,
                    self.pre_token_b_balance,
                    self.max_deposit_amount_b,
                ),
            ) {
                (Some(a), Some(b)) => Ok::<(u64, u64), ZapError>((a, b)),
                _ => Err::<(u64, u64), ZapError>(ZapError::MathOverflow),
            },
    {
        let max_deposit_amount_a = deposit_amount(
            self.amount_a_0,
            token_a_balance,
            self.pre_token_a_balance,
            self.max_deposit_amount_a,
        )?;
        let max_deposit_amount_b = deposit_amount(
            self.amount_b_0,
            token_b_balance,
            self.pre_token_b_balance,
            self.max_deposit_amount_b,
        )?;
        Ok((max_deposit_amount_a, max_deposit_amount_b))
    }

    /// Checks, after the deposit, that no more is left of either token than
    /// the thresholds allow: at most the threshold of token A, and less
    /// than the threshold of token B. It fails with
    /// `RemainingAmountIsOverThreshold` otherwise, and with `MathOverflow`
    /// where a balance rose or more was deposited than was allowed.
    pub fn check_deposited(
        &self,
        max_deposit_amount_a: u64,
        max_deposit_amount_b: u64,
        token_a_balance: u64,
        post_token_a_balance: u64,
        token_b_balance: u64,
        post_token_b_balance: u64,
    ) -> (r: Result<(), ZapError>)
        ensures
            r.is_ok() <==> deposited_enough_spec(
                max_deposit_amount_a,
                token_a_balance,
                post_token_a_balance,
                self.threshold_amount_a,
                false,
            ) == Some(true) && deposited_enough_spec(
                max_deposit_amount_b,
                token_b_balance,
                post_token_b_balance,
                self.threshold_amount_b,
                true,
            ) == Some(true),
            r.is_err() ==> r.unwrap_err() == (if deposited_enough_spec(
                max_deposit_amount_a,
                token_a_balance,
                post_token_a_balance,
                self.threshold_amount_a,
                false,
            ).is_none() || deposited_enough_spec(
                max_deposit_amount_b,
                token_b_balance,
                post_token_b_balance,
                self.threshold_amount_b,
                true,
            ).is_none() {
                ZapError::MathOverflow
            } else {
                ZapError::RemainingAmountIsOverThreshold
            }),
    {
        let enough_a = deposited_enough(
            max_deposit_amount_a,
            token_a_balance,
            post_token_a_balance,
            self.threshold_amount_a,
            false,
        )?;
        let enough_b = deposited_enough(
            max_deposit_amount_b,
            token_b_balance,
            post_token_b_balance,
            self.threshold_amount_b,
            true,
        )?;
        if !enough_a {
            return Err(ZapError::RemainingAmountIsOverThreshold);
        }
        if !enough_b {
            return Err(ZapError::RemainingAmountIsOverThreshold);
        }
        Ok(())
    }
}

} // verus!
