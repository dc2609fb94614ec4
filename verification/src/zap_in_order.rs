//! The order that the split search keeps: a greater deposit never finds
//! less liquidity.
//!
//! What the pool answers is not known here, so the law is stated of a pool
//! that answers in order: a greater swap brings no less and moves the
//! price no less far, and more liquidity, or a price further along, asks
//! for no less of the token that is kept. On such a pool the search lands
//! on the least amount to swap that, together with what its liquidity asks
//! for, covers the deposit; and that amount never falls when the deposit
//! grows.
//!
//! A search over two to the 63 or more may use up its rounds while its
//! bracket is still open, and then stop one unit short of that amount. The
//! law is stated of deposits below two to the 63.

use vstd::prelude::*;
use vstd::arithmetic::power2::{lemma2_to64, lemma_pow2_pos, lemma_pow2_unfold, pow2};
use crate::error::ZapError;
use crate::liquidity::q128;
use crate::pool::{PoolSnapshot, TradeDirection};
use crate::rounding::lemma_ceil_quotient_monotone;
use crate::swap::{input_calculator, output_calculator};
use crate::token::{lemma_excluded_monotone, lemma_included_monotone, TransferFeeCalculator};
use crate::zap_in::{
    answers_by_curve, is_search_outcome, lemma_further_swap_more_liquidity, round_answered,
    round_outcome,
    search_reached, trial_answered, trial_outcome, PoolSwapResult, RoundAnswers, SearchStatus,
    Trial, ZapInConvergenceState,
};

verus! {

/// Whether the trial of a candidate that swaps `swap_amount` can find
/// `found`: there are answers of the pool on which it does.
pub open spec fn tried<S, A>(
    pool: PoolSnapshot,
    fee_a: TransferFeeCalculator,
    fee_b: TransferFeeCalculator,
    trade_direction: TradeDirection,
    swap: S,
    amounts: A,
    swap_amount: u64,
    found: Trial,
) -> bool where
    S: Fn(u64, TradeDirection, PoolSnapshot) -> Result<PoolSwapResult, ZapError>,
    A: Fn(u128, PoolSnapshot) -> Result<(u64, u64), ZapError>,
 {
    exists|answers: RoundAnswers|
        {
            &&& #[trigger] trial_answered(
                swap_amount,
                pool,
                fee_a,
                fee_b,
                trade_direction,
                swap,
                amounts,
                answers,
            )
            &&& trial_outcome(swap_amount, pool, fee_a, fee_b, trade_direction, answers) == Ok::<
                Trial,
                ZapError,
            >(found)
        }
}

/// Whether the pool's swap answers in order on this snapshot: of two swaps
/// in this direction, the one of no less brings no less and moves the
/// price no less far, down for a swap of token A and up for a swap of
/// token B.
pub open spec fn swap_in_order<S: Fn(u64, TradeDirection, PoolSnapshot) -> Result<PoolSwapResult, ZapError>>(
    swap: S,
    pool: PoolSnapshot,
    trade_direction: TradeDirection,
) -> bool {
    forall|less: u64, more: u64, first: PoolSwapResult, second: PoolSwapResult|
        less <= more && #[trigger] call_ensures(
            swap,
            (less, trade_direction, pool),
            Ok::<PoolSwapResult, ZapError>(first),
        ) && #[trigger] call_ensures(
            swap,
            (more, trade_direction, pool),
            Ok::<PoolSwapResult, ZapError>(second),
        ) ==> first.output_amount <= second.output_amount && match trade_direction {
            TradeDirection::AtoB => second.next_sqrt_price <= first.next_sqrt_price,
            TradeDirection::BtoA => first.next_sqrt_price <= second.next_sqrt_price,
        }
}

/// Whether the pool's amounts answer in order on this pool: of two
/// liquidities at two prices within the pool's range, no less liquidity at
/// a price no less far along the swap asks for no less of the token that
/// the swap takes in. A swap of token A moves the price down, and token A
/// covers the range above the price; a swap of token B moves it up, and
/// token B covers the range below.
pub open spec fn amounts_in_order<A: Fn(u128, PoolSnapshot) -> Result<(u64, u64), ZapError>>(
    amounts: A,
    pool: PoolSnapshot,
    trade_direction: TradeDirection,
) -> bool {
    forall|less: u128, more: u128, near: u128, far: u128, first: (u64, u64), second: (u64, u64)|
        less <= more && pool.sqrt_min_price <= near <= pool.sqrt_max_price && pool.sqrt_min_price
            <= far <= pool.sqrt_max_price && (match trade_direction {
            TradeDirection::AtoB => far <= near,
            TradeDirection::BtoA => near <= far,
        }) && #[trigger] call_ensures(
            amounts,
            (less, PoolSnapshot { sqrt_price: near, ..pool }),
            Ok::<(u64, u64), ZapError>(first),
        ) && #[trigger] call_ensures(
            amounts,
            (more, PoolSnapshot { sqrt_price: far, ..pool }),
            Ok::<(u64, u64), ZapError>(second),
        ) ==> match trade_direction {
            TradeDirection::AtoB => first.0 <= second.0,
            TradeDirection::BtoA => first.1 <= second.1,
        }
}

/// Whether the pool is orderly on this snapshot: of two trials, the one
/// that swaps no less finds no less liquidity and is asked for no less of
/// the token that is kept. Two trials of one amount then find the same of
/// both.
pub open spec fn orderly<S, A>(
    pool: PoolSnapshot,
    fee_a: TransferFeeCalculator,
    fee_b: TransferFeeCalculator,
    trade_direction: TradeDirection,
    swap: S,
    amounts: A,
) -> bool where
    S: Fn(u64, TradeDirection, PoolSnapshot) -> Result<PoolSwapResult, ZapError>,
    A: Fn(u128, PoolSnapshot) -> Result<(u64, u64), ZapError>,
 {
    forall|less: u64, more: u64, found_less: Trial, found_more: Trial|
        less <= more && #[trigger] tried(
            pool,
            fee_a,
            fee_b,
            trade_direction,
            swap,
            amounts,
            less,
            found_less,
        ) && #[trigger] tried(pool, fee_a, fee_b, trade_direction, swap, amounts, more, found_more)
            ==> found_less.liquidity_delta <= found_more.liquidity_delta
            && found_less.required_amount <= found_more.required_amount
}

/// Whether a swap of `swap_amount` falls short of a deposit of `amount_in`:
/// a trial of it is asked for less than what is then kept.
pub open spec fn falls_short<S, A>(
    pool: PoolSnapshot,
    fee_a: TransferFeeCalculator,
    fee_b: TransferFeeCalculator,
    trade_direction: TradeDirection,
    swap: S,
    amounts: A,
    amount_in: u64,
    swap_amount: u64,
) -> bool where
    S: Fn(u64, TradeDirection, PoolSnapshot) -> Result<PoolSwapResult, ZapError>,
    A: Fn(u128, PoolSnapshot) -> Result<(u64, u64), ZapError>,
 {
    exists|found: Trial| #[trigger]
        tried(pool, fee_a, fee_b, trade_direction, swap, amounts, swap_amount, found) && swap_amount
            + found.required_amount < amount_in
}

/// Whether a swap of `swap_amount` goes too far for a deposit of
/// `amount_in`: a trial of it is asked for more than what is then kept.
pub open spec fn goes_too_far<S, A>(
    pool: PoolSnapshot,
    fee_a: TransferFeeCalculator,
    fee_b: TransferFeeCalculator,
    trade_direction: TradeDirection,
    swap: S,
    amounts: A,
    amount_in: u64,
    swap_amount: u64,
) -> bool where
    S: Fn(u64, TradeDirection, PoolSnapshot) -> Result<PoolSwapResult, ZapError>,
    A: Fn(u128, PoolSnapshot) -> Result<(u64, u64), ZapError>,
 {
    exists|found: Trial| #[trigger]
        tried(pool, fee_a, fee_b, trade_direction, swap, amounts, swap_amount, found) && swap_amount
            + found.required_amount > amount_in
}

/// Whether a search over `amount_in` that swaps `swap_amount` and finds
/// `liquidity_delta` has landed: a trial of that amount finds that
/// liquidity and is asked for no less than what is kept, and either it is
/// asked for exactly that, or one unit less cannot be swapped, or a swap of
/// one unit less falls short.
pub open spec fn landed<S, A>(
    pool: PoolSnapshot,
    fee_a: TransferFeeCalculator,
    fee_b: TransferFeeCalculator,
    trade_direction: TradeDirection,
    swap: S,
    amounts: A,
    amount_in: u64,
    swap_amount: u64,
    liquidity_delta: u128,
) -> bool where
    S: Fn(u64, TradeDirection, PoolSnapshot) -> Result<PoolSwapResult, ZapError>,
    A: Fn(u128, PoolSnapshot) -> Result<(u64, u64), ZapError>,
 {
    &&& 1 <= swap_amount <= amount_in
    &&& exists|found: Trial|
        {
            &&& #[trigger] tried(
                pool,
                fee_a,
                fee_b,
                trade_direction,
                swap,
                amounts,
                swap_amount,
                found,
            )
            &&& found.liquidity_delta == liquidity_delta
            &&& swap_amount + found.required_amount >= amount_in
            &&& (swap_amount + found.required_amount == amount_in || swap_amount == 1
                || falls_short(
                pool,
                fee_a,
                fee_b,
                trade_direction,
                swap,
                amounts,
                amount_in,
                (swap_amount - 1) as u64,
            ))
        }
}

/// Whether the bracket of a search is backed by trials: its lower end is
/// zero or was tried and keeps too little, its upper end is the whole
/// deposit or was tried and keeps too much; the search was confused
/// exactly when a round left the bracket no wider than one; and every
/// round has halved the bracket.
pub open spec fn bracketed<S, A>(
    pool: PoolSnapshot,
    fee_a: TransferFeeCalculator,
    fee_b: TransferFeeCalculator,
    trade_direction: TradeDirection,
    swap: S,
    amounts: A,
    state: ZapInConvergenceState,
) -> bool where
    S: Fn(u64, TradeDirection, PoolSnapshot) -> Result<PoolSwapResult, ZapError>,
    A: Fn(u128, PoolSnapshot) -> Result<(u64, u64), ZapError>,
 {
    &&& state.well_formed()
    &&& (state.min_amount == 0 || goes_too_far(
        pool,
        fee_a,
        fee_b,
        trade_direction,
        swap,
        amounts,
        state.amount_in,
        (state.amount_in - state.min_amount) as u64,
    ))
    &&& (state.max_amount == state.amount_in || falls_short(
        pool,
        fee_a,
        fee_b,
        trade_direction,
        swap,
        amounts,
        state.amount_in,
        (state.amount_in - state.max_amount) as u64,
    ))
    &&& state.confused_flag < 2 ==> state.max_amount - state.min_amount <= 1
    &&& state.confused_flag >= 2 && state.rounds >= 1 ==> state.max_amount - state.min_amount >= 2
    &&& (state.max_amount - state.min_amount - 1) * pow2(state.rounds as nat) <= state.amount_in
}

/// No trial swaps nothing: the swap of nothing is refused.
pub proof fn lemma_nothing_tried<S, A>(
    pool: PoolSnapshot,
    fee_a: TransferFeeCalculator,
    fee_b: TransferFeeCalculator,
    trade_direction: TradeDirection,
    swap: S,
    amounts: A,
    found: Trial,
) where
    S: Fn(u64, TradeDirection, PoolSnapshot) -> Result<PoolSwapResult, ZapError>,
    A: Fn(u128, PoolSnapshot) -> Result<(u64, u64), ZapError>,

    ensures
        !tried(pool, fee_a, fee_b, trade_direction, swap, amounts, 0, found),
{
}

/// A round that leaves the search going keeps the bracket backed by trials.
pub proof fn lemma_round_keeps_bracket<S, A>(
    pool: PoolSnapshot,
    fee_a: TransferFeeCalculator,
    fee_b: TransferFeeCalculator,
    trade_direction: TradeDirection,
    swap: S,
    amounts: A,
    before: ZapInConvergenceState,
    found: Trial,
) where
    S: Fn(u64, TradeDirection, PoolSnapshot) -> Result<PoolSwapResult, ZapError>,
    A: Fn(u128, PoolSnapshot) -> Result<(u64, u64), ZapError>,

    requires
        bracketed(pool, fee_a, fee_b, trade_direction, swap, amounts, before),
        before.status == SearchStatus::Searching,
        tried(
            pool,
            fee_a,
            fee_b,
            trade_direction,
            swap,
            amounts,
            (before.amount_in - before.amount) as u64,
            found,
        ),
        before.stepped(
            found.amount_out,
            found.liquidity_delta,
            found.required_amount,
            found.paired_amount,
        ).status
            == SearchStatus::Searching,
    ensures
        bracketed(
            pool,
            fee_a,
            fee_b,
            trade_direction,
            swap,
            amounts,
            before.stepped(
            found.amount_out,
            found.liquidity_delta,
            found.required_amount,
            found.paired_amount,
        ),
        ),
        before.stepped(
            found.amount_out,
            found.liquidity_delta,
            found.required_amount,
            found.paired_amount,
        ).amount_in
            == before.amount_in,
{
    let after = before.stepped(
            found.amount_out,
            found.liquidity_delta,
            found.required_amount,
            found.paired_amount,
        );
    let width = before.max_amount - before.min_amount;
    let halved = after.max_amount - after.min_amount;
    lemma_pow2_unfold(after.rounds as nat);
    lemma_pow2_pos(before.rounds as nat);
    assert((halved - 1) * pow2(after.rounds as nat) <= (width - 1) * pow2(before.rounds as nat))
        by (nonlinear_arith)
        requires
            2 * (halved - 1) <= width - 1,
            pow2(after.rounds as nat) == 2 * pow2(before.rounds as nat),
            pow2(before.rounds as nat) > 0,
    ;
    if found.required_amount > before.amount {
        assert(after.min_amount == before.amount);
        assert(goes_too_far(
            pool,
            fee_a,
            fee_b,
            trade_direction,
            swap,
            amounts,
            after.amount_in,
            (after.amount_in - after.min_amount) as u64,
        ));
    } else {
        assert(after.max_amount == before.amount);
        assert(falls_short(
            pool,
            fee_a,
            fee_b,
            trade_direction,
            swap,
            amounts,
            after.amount_in,
            (after.amount_in - after.max_amount) as u64,
        ));
    }
}

/// A search that is still going after `rounds` rounds has its bracket
/// backed by trials.
pub proof fn lemma_search_keeps_bracket<S, A>(
    pool: PoolSnapshot,
    fee_a: TransferFeeCalculator,
    fee_b: TransferFeeCalculator,
    amount_in: u64,
    trade_direction: TradeDirection,
    swap: S,
    amounts: A,
    state: ZapInConvergenceState,
    rounds: nat,
) where
    S: Fn(u64, TradeDirection, PoolSnapshot) -> Result<PoolSwapResult, ZapError>,
    A: Fn(u128, PoolSnapshot) -> Result<(u64, u64), ZapError>,

    requires
        search_reached(
            pool,
            fee_a,
            fee_b,
            amount_in,
            trade_direction,
            swap,
            amounts,
            state,
            rounds,
        ),
        state.status == SearchStatus::Searching,
    ensures
        bracketed(pool, fee_a, fee_b, trade_direction, swap, amounts, state),
        state.amount_in == amount_in,
    decreases rounds,
{
    lemma2_to64();
    if rounds > 0 {
        let (before, answers) = choose|before: ZapInConvergenceState, answers: RoundAnswers|
            {
                &&& search_reached(
                    pool,
                    fee_a,
                    fee_b,
                    amount_in,
                    trade_direction,
                    swap,
                    amounts,
                    before,
                    (rounds - 1) as nat,
                )
                &&& before.status == SearchStatus::Searching
                &&& #[trigger] round_answered(
                    before,
                    pool,
                    fee_a,
                    fee_b,
                    trade_direction,
                    swap,
                    amounts,
                    answers,
                )
                &&& round_outcome(before, pool, fee_a, fee_b, trade_direction, answers) == Ok::<
                    ZapInConvergenceState,
                    ZapError,
                >(state)
            };
        lemma_search_keeps_bracket(
            pool,
            fee_a,
            fee_b,
            amount_in,
            trade_direction,
            swap,
            amounts,
            before,
            (rounds - 1) as nat,
        );
        let swap_amount = (before.amount_in - before.amount) as u64;
        let found = trial_outcome(
            swap_amount,
            pool,
            fee_a,
            fee_b,
            trade_direction,
            answers,
        ).unwrap();
        assert(trial_answered(
            swap_amount,
            pool,
            fee_a,
            fee_b,
            trade_direction,
            swap,
            amounts,
            answers,
        ));
        lemma_round_keeps_bracket(
            pool,
            fee_a,
            fee_b,
            trade_direction,
            swap,
            amounts,
            before,
            found,
        );
    }
}

/// The round that ends a search over less than two to the 63 on an
/// orderly pool lands it: such a search never uses up its rounds while the
/// bracket is still open.
pub proof fn lemma_last_round_lands<S, A>(
    pool: PoolSnapshot,
    fee_a: TransferFeeCalculator,
    fee_b: TransferFeeCalculator,
    trade_direction: TradeDirection,
    swap: S,
    amounts: A,
    before: ZapInConvergenceState,
    found: Trial,
) where
    S: Fn(u64, TradeDirection, PoolSnapshot) -> Result<PoolSwapResult, ZapError>,
    A: Fn(u128, PoolSnapshot) -> Result<(u64, u64), ZapError>,

    requires
        orderly(pool, fee_a, fee_b, trade_direction, swap, amounts),
        bracketed(pool, fee_a, fee_b, trade_direction, swap, amounts, before),
        before.status == SearchStatus::Searching,
        tried(
            pool,
            fee_a,
            fee_b,
            trade_direction,
            swap,
            amounts,
            (before.amount_in - before.amount) as u64,
            found,
        ),
        before.stepped(
            found.amount_out,
            found.liquidity_delta,
            found.required_amount,
            found.paired_amount,
        ).status
            != SearchStatus::Searching,
        before.amount_in < 0x8000_0000_0000_0000,
    ensures
        ({
            let after = before.stepped(
                found.amount_out,
                found.liquidity_delta,
                found.required_amount,
                found.paired_amount,
            );
            &&& after.amount <= before.amount_in
            &&& after.amount_in == before.amount_in
            &&& landed(
                pool,
                fee_a,
                fee_b,
                trade_direction,
                swap,
                amounts,
                before.amount_in,
                (before.amount_in - after.amount) as u64,
                after.liquidity_delta,
            )
        }),
{
    let after = before.stepped(
            found.amount_out,
            found.liquidity_delta,
            found.required_amount,
            found.paired_amount,
        );
    let amount_in = before.amount_in;
    let swap_amount = (amount_in - before.amount) as u64;
    lemma_nothing_tried(pool, fee_a, fee_b, trade_direction, swap, amounts, found);
    assert(swap_amount >= 1);
    assert(after.amount == before.amount);
    if found.required_amount != before.amount {
        if before.rounds >= 63 {
            // sixty-three rounds have halved the bracket to a width of one
            let width = before.max_amount - before.min_amount;
            lemma2_to64();
            lemma_pow2_unfold(64);
            assert(width <= 1) by (nonlinear_arith)
                requires
                    (width - 1) * pow2(63) <= amount_in,
                    amount_in < 0x8000_0000_0000_0000,
                    pow2(63) == 0x8000_0000_0000_0000,
            ;
        }
        // the search was confused before this round, so the bracket was no
        // wider than one and the candidate was its lower end
        assert(before.confused_flag == 1);
        assert(before.amount == before.min_amount);
        if found.required_amount < before.amount {
            // the lower end was tried before and kept too little
            let earlier = choose|earlier: Trial| #[trigger]
                tried(pool, fee_a, fee_b, trade_direction, swap, amounts, swap_amount, earlier)
                    && swap_amount + earlier.required_amount > amount_in;
            assert(earlier.required_amount <= found.required_amount);
            assert(false);
        }
        if before.max_amount == before.min_amount {
            if before.max_amount != amount_in {
                let earlier = choose|earlier: Trial| #[trigger]
                    tried(pool, fee_a, fee_b, trade_direction, swap, amounts, swap_amount, earlier)
                        && swap_amount + earlier.required_amount < amount_in;
                assert(found.required_amount <= earlier.required_amount);
                assert(false);
            }
            assert(false);
        }
        assert(before.max_amount == before.min_amount + 1);
        assert(swap_amount == 1 || falls_short(
            pool,
            fee_a,
            fee_b,
            trade_direction,
            swap,
            amounts,
            amount_in,
            (swap_amount - 1) as u64,
        ));
    }
}

/// On an orderly pool, a search over less than two to the 63 that ends
/// has landed.
pub proof fn lemma_search_lands<S, A>(
    pool: PoolSnapshot,
    fee_a: TransferFeeCalculator,
    fee_b: TransferFeeCalculator,
    amount_in: u64,
    trade_direction: TradeDirection,
    swap: S,
    amounts: A,
    state: ZapInConvergenceState,
) where
    S: Fn(u64, TradeDirection, PoolSnapshot) -> Result<PoolSwapResult, ZapError>,
    A: Fn(u128, PoolSnapshot) -> Result<(u64, u64), ZapError>,

    requires
        orderly(pool, fee_a, fee_b, trade_direction, swap, amounts),
        is_search_outcome(
            pool,
            fee_a,
            fee_b,
            amount_in,
            trade_direction,
            swap,
            amounts,
            Ok::<ZapInConvergenceState, ZapError>(state),
        ),
        amount_in < 0x8000_0000_0000_0000,
    ensures
        state.amount <= amount_in,
        landed(
            pool,
            fee_a,
            fee_b,
            trade_direction,
            swap,
            amounts,
            amount_in,
            (amount_in - state.amount) as u64,
            state.liquidity_delta,
        ),
{
    let rounds = choose|rounds: nat|
        1 <= rounds <= crate::zap_in::MAX_ZAP_IN_ROUNDS && #[trigger] search_reached(
            pool,
            fee_a,
            fee_b,
            amount_in,
            trade_direction,
            swap,
            amounts,
            state,
            rounds,
        );
    let (before, answers) = choose|before: ZapInConvergenceState, answers: RoundAnswers|
        {
            &&& search_reached(
                pool,
                fee_a,
                fee_b,
                amount_in,
                trade_direction,
                swap,
                amounts,
                before,
                (rounds - 1) as nat,
            )
            &&& before.status == SearchStatus::Searching
            &&& #[trigger] round_answered(
                before,
                pool,
                fee_a,
                fee_b,
                trade_direction,
                swap,
                amounts,
                answers,
            )
            &&& round_outcome(before, pool, fee_a, fee_b, trade_direction, answers) == Ok::<
                ZapInConvergenceState,
                ZapError,
            >(state)
        };
    lemma_search_keeps_bracket(
        pool,
        fee_a,
        fee_b,
        amount_in,
        trade_direction,
        swap,
        amounts,
        before,
        (rounds - 1) as nat,
    );
    let swap_amount = (before.amount_in - before.amount) as u64;
    let found = trial_outcome(swap_amount, pool, fee_a, fee_b, trade_direction, answers).unwrap();
    assert(trial_answered(
        swap_amount,
        pool,
        fee_a,
        fee_b,
        trade_direction,
        swap,
        amounts,
        answers,
    ));
    lemma_last_round_lands(pool, fee_a, fee_b, trade_direction, swap, amounts, before, found);
}

/// Of two searches that have landed on an orderly pool, the one over the
/// greater deposit swaps no less and finds no less liquidity.
pub proof fn lemma_landed_in_order<S, A>(
    pool: PoolSnapshot,
    fee_a: TransferFeeCalculator,
    fee_b: TransferFeeCalculator,
    trade_direction: TradeDirection,
    swap: S,
    amounts: A,
    smaller_in: u64,
    smaller_swap: u64,
    smaller_liquidity: u128,
    greater_in: u64,
    greater_swap: u64,
    greater_liquidity: u128,
) where
    S: Fn(u64, TradeDirection, PoolSnapshot) -> Result<PoolSwapResult, ZapError>,
    A: Fn(u128, PoolSnapshot) -> Result<(u64, u64), ZapError>,

    requires
        orderly(pool, fee_a, fee_b, trade_direction, swap, amounts),
        smaller_in <= greater_in,
        landed(
            pool,
            fee_a,
            fee_b,
            trade_direction,
            swap,
            amounts,
            smaller_in,
            smaller_swap,
            smaller_liquidity,
        ),
        landed(
            pool,
            fee_a,
            fee_b,
            trade_direction,
            swap,
            amounts,
            greater_in,
            greater_swap,
            greater_liquidity,
        ),
    ensures
        smaller_swap <= greater_swap,
        smaller_liquidity <= greater_liquidity,
{
    let small = choose|found: Trial|
        {
            &&& #[trigger] tried(
                pool,
                fee_a,
                fee_b,
                trade_direction,
                swap,
                amounts,
                smaller_swap,
                found,
            )
            &&& found.liquidity_delta == smaller_liquidity
            &&& smaller_swap + found.required_amount >= smaller_in
            &&& (smaller_swap + found.required_amount == smaller_in || smaller_swap == 1
                || falls_short(
                pool,
                fee_a,
                fee_b,
                trade_direction,
                swap,
                amounts,
                smaller_in,
                (smaller_swap - 1) as u64,
            ))
        };
    let great = choose|found: Trial|
        {
            &&& #[trigger] tried(
                pool,
                fee_a,
                fee_b,
                trade_direction,
                swap,
                amounts,
                greater_swap,
                found,
            )
            &&& found.liquidity_delta == greater_liquidity
            &&& greater_swap + found.required_amount >= greater_in
            &&& (greater_swap + found.required_amount == greater_in || greater_swap == 1
                || falls_short(
                pool,
                fee_a,
                fee_b,
                trade_direction,
                swap,
                amounts,
                greater_in,
                (greater_swap - 1) as u64,
            ))
        };
    if smaller_swap > greater_swap {
        // the greater deposit is covered by a swap below the one that the
        // smaller deposit needs
        assert(great.required_amount <= small.required_amount);
        if smaller_swap + small.required_amount != smaller_in {
            let below = choose|found: Trial| #[trigger]
                tried(
                    pool,
                    fee_a,
                    fee_b,
                    trade_direction,
                    swap,
                    amounts,
                    (smaller_swap - 1) as u64,
                    found,
                ) && smaller_swap - 1 + found.required_amount < smaller_in;
            assert(great.required_amount <= below.required_amount);
            assert(false);
        }
        assert(false);
    }
    assert(small.liquidity_delta <= great.liquidity_delta);
}

/// Two trials on a pool that answers in order are in order: the one that
/// swaps no less finds no less liquidity and is asked for no less of the
/// token that is kept. The transfer fees keep the order, and so does the
/// derivation of the liquidity.
pub proof fn lemma_trials_in_order<S, A>(
    pool: PoolSnapshot,
    fee_a: TransferFeeCalculator,
    fee_b: TransferFeeCalculator,
    trade_direction: TradeDirection,
    swap: S,
    amounts: A,
    less: u64,
    more: u64,
    found_less: Trial,
    found_more: Trial,
) where
    S: Fn(u64, TradeDirection, PoolSnapshot) -> Result<PoolSwapResult, ZapError>,
    A: Fn(u128, PoolSnapshot) -> Result<(u64, u64), ZapError>,

    requires
        swap_in_order(swap, pool, trade_direction),
        amounts_in_order(amounts, pool, trade_direction),
        less <= more,
        tried(pool, fee_a, fee_b, trade_direction, swap, amounts, less, found_less),
        tried(pool, fee_a, fee_b, trade_direction, swap, amounts, more, found_more),
    ensures
        found_less.liquidity_delta <= found_more.liquidity_delta,
        found_less.required_amount <= found_more.required_amount,
{
    let first = choose|answers: RoundAnswers|
        {
            &&& #[trigger] trial_answered(
                less,
                pool,
                fee_a,
                fee_b,
                trade_direction,
                swap,
                amounts,
                answers,
            )
            &&& trial_outcome(less, pool, fee_a, fee_b, trade_direction, answers) == Ok::<
                Trial,
                ZapError,
            >(found_less)
        };
    let second = choose|answers: RoundAnswers|
        {
            &&& #[trigger] trial_answered(
                more,
                pool,
                fee_a,
                fee_b,
                trade_direction,
                swap,
                amounts,
                answers,
            )
            &&& trial_outcome(more, pool, fee_a, fee_b, trade_direction, answers) == Ok::<
                Trial,
                ZapError,
            >(found_more)
        };
    let fee_in = input_calculator(fee_a, fee_b, trade_direction);
    let fee_out = output_calculator(fee_a, fee_b, trade_direction);
    // what goes into the pool
    lemma_excluded_monotone(fee_in, less, more);
    let net_less = fee_in.excluded_spec(less).unwrap().amount;
    let net_more = fee_in.excluded_spec(more).unwrap().amount;
    // what the pool's swap answers
    let swapped_less = first.swap.unwrap();
    let swapped_more = second.swap.unwrap();
    assert(call_ensures(
        swap,
        (net_less, trade_direction, pool),
        Ok::<PoolSwapResult, ZapError>(swapped_less),
    ));
    assert(call_ensures(
        swap,
        (net_more, trade_direction, pool),
        Ok::<PoolSwapResult, ZapError>(swapped_more),
    ));
    // what arrives at the user
    lemma_excluded_monotone(fee_out, swapped_less.output_amount, swapped_more.output_amount);
    let out_less = fee_out.excluded_spec(swapped_less.output_amount).unwrap().amount;
    let out_more = fee_out.excluded_spec(swapped_more.output_amount).unwrap().amount;
    let near = PoolSnapshot { sqrt_price: swapped_less.next_sqrt_price, ..pool };
    let far = PoolSnapshot { sqrt_price: swapped_more.next_sqrt_price, ..pool };
    // the liquidity that it supports
    lemma_further_swap_more_liquidity(near, far, out_less, out_more, trade_direction);
    assert(found_less.liquidity_delta <= found_more.liquidity_delta);
    // what the pool asks for it
    let needed_less = first.amounts.unwrap();
    let needed_more = second.amounts.unwrap();
    assert(call_ensures(
        amounts,
        (found_less.liquidity_delta, PoolSnapshot { sqrt_price: swapped_less.next_sqrt_price, ..pool }),
        Ok::<(u64, u64), ZapError>(needed_less),
    ));
    assert(call_ensures(
        amounts,
        (found_more.liquidity_delta, PoolSnapshot { sqrt_price: swapped_more.next_sqrt_price, ..pool }),
        Ok::<(u64, u64), ZapError>(needed_more),
    ));
    // and what must be sent so that it arrives
    match trade_direction {
        TradeDirection::AtoB => {
            lemma_included_monotone(fee_a, needed_less.0, needed_more.0);
        },
        TradeDirection::BtoA => {
            lemma_included_monotone(fee_b, needed_less.1, needed_more.1);
        },
    }
}

/// A pool that answers in order is orderly, whatever the transfer fees.
pub proof fn lemma_pool_in_order_is_orderly<S, A>(
    pool: PoolSnapshot,
    fee_a: TransferFeeCalculator,
    fee_b: TransferFeeCalculator,
    trade_direction: TradeDirection,
    swap: S,
    amounts: A,
) where
    S: Fn(u64, TradeDirection, PoolSnapshot) -> Result<PoolSwapResult, ZapError>,
    A: Fn(u128, PoolSnapshot) -> Result<(u64, u64), ZapError>,

    requires
        swap_in_order(swap, pool, trade_direction),
        amounts_in_order(amounts, pool, trade_direction),
    ensures
        orderly(pool, fee_a, fee_b, trade_direction, swap, amounts),
{
    assert forall|less: u64, more: u64, found_less: Trial, found_more: Trial|
        less <= more && #[trigger] tried(
            pool,
            fee_a,
            fee_b,
            trade_direction,
            swap,
            amounts,
            less,
            found_less,
        ) && #[trigger] tried(
            pool,
            fee_a,
            fee_b,
            trade_direction,
            swap,
            amounts,
            more,
            found_more,
        ) implies found_less.liquidity_delta <= found_more.liquidity_delta
        && found_less.required_amount <= found_more.required_amount by {
        lemma_trials_in_order(
            pool,
            fee_a,
            fee_b,
            trade_direction,
            swap,
            amounts,
            less,
            more,
            found_less,
            found_more,
        );
    }
}

/// A pool whose amounts follow the curve answers in order: what a
/// liquidity holds of token A, rounded up, never falls when the liquidity
/// grows and the price falls, and what it holds of token B never falls when
/// the liquidity grows and the price rises. The least price of the pool is
/// positive.
pub proof fn lemma_curve_answers_in_order<A: Fn(u128, PoolSnapshot) -> Result<(u64, u64), ZapError>>(
    amounts: A,
    pool: PoolSnapshot,
    trade_direction: TradeDirection,
)
    requires
        pool.sqrt_min_price > 0,
        forall|liquidity: u128, price: u128|
            pool.sqrt_min_price <= price <= pool.sqrt_max_price ==> #[trigger] answers_by_curve(
                amounts,
                liquidity,
                PoolSnapshot { sqrt_price: price, ..pool },
            ),
    ensures
        amounts_in_order(amounts, pool, trade_direction),
{
    assert forall|less: u128, more: u128, near: u128, far: u128, first: (u64, u64), second: (u64, u64)|
        less <= more && pool.sqrt_min_price <= near <= pool.sqrt_max_price && pool.sqrt_min_price
            <= far <= pool.sqrt_max_price && (match trade_direction {
            TradeDirection::AtoB => far <= near,
            TradeDirection::BtoA => near <= far,
        }) && #[trigger] call_ensures(
            amounts,
            (less, PoolSnapshot { sqrt_price: near, ..pool }),
            Ok::<(u64, u64), ZapError>(first),
        ) && #[trigger] call_ensures(
            amounts,
            (more, PoolSnapshot { sqrt_price: far, ..pool }),
            Ok::<(u64, u64), ZapError>(second),
        ) implies match trade_direction {
        TradeDirection::AtoB => first.0 <= second.0,
        TradeDirection::BtoA => first.1 <= second.1,
    } by {
        assert(answers_by_curve(amounts, less, PoolSnapshot { sqrt_price: near, ..pool }));
        assert(answers_by_curve(amounts, more, PoolSnapshot { sqrt_price: far, ..pool }));
        let top = pool.sqrt_max_price as nat;
        let bottom = pool.sqrt_min_price as nat;
        match trade_direction {
            TradeDirection::AtoB => {
                assert(less as nat * ((top - near) as nat) <= more as nat * ((top - far) as nat))
                    by (nonlinear_arith)
                    requires
                        less <= more,
                        far <= near <= top,
                ;
                assert(0 < far as nat * top <= near as nat * top) by (nonlinear_arith)
                    requires
                        0 < far <= near,
                        far <= top,
                ;
                lemma_ceil_quotient_monotone(
                    less as nat * ((top - near) as nat),
                    near as nat * top,
                    more as nat * ((top - far) as nat),
                    far as nat * top,
                );
            },
            TradeDirection::BtoA => {
                assert(less as nat * ((near - bottom) as nat) <= more as nat * ((far - bottom) as nat))
                    by (nonlinear_arith)
                    requires
                        less <= more,
                        bottom <= near <= far,
                ;
                lemma_ceil_quotient_monotone(
                    less as nat * ((near - bottom) as nat),
                    q128(),
                    more as nat * ((far - bottom) as nat),
                    q128(),
                );
            },
        }
    }
}

/// A greater deposit never finds less liquidity: of two searches that end
/// on the same snapshot of a pool that answers in order, in the same
/// direction and with the same transfer fees, the one over the greater
/// amount ends with no less liquidity, and swaps no less. The amounts are
/// below two to the 63.
pub proof fn lemma_search_monotone<S, A>(
    pool: PoolSnapshot,
    fee_a: TransferFeeCalculator,
    fee_b: TransferFeeCalculator,
    trade_direction: TradeDirection,
    swap: S,
    amounts: A,
    smaller_in: u64,
    greater_in: u64,
    smaller: ZapInConvergenceState,
    greater: ZapInConvergenceState,
) where
    S: Fn(u64, TradeDirection, PoolSnapshot) -> Result<PoolSwapResult, ZapError>,
    A: Fn(u128, PoolSnapshot) -> Result<(u64, u64), ZapError>,

    requires
        smaller_in <= greater_in < 0x8000_0000_0000_0000,
        swap_in_order(swap, pool, trade_direction),
        amounts_in_order(amounts, pool, trade_direction),
        is_search_outcome(
            pool,
            fee_a,
            fee_b,
            smaller_in,
            trade_direction,
            swap,
            amounts,
            Ok::<ZapInConvergenceState, ZapError>(smaller),
        ),
        is_search_outcome(
            pool,
            fee_a,
            fee_b,
            greater_in,
            trade_direction,
            swap,
            amounts,
            Ok::<ZapInConvergenceState, ZapError>(greater),
        ),
    ensures
        smaller.liquidity_delta <= greater.liquidity_delta,
        smaller.amount <= smaller_in,
        greater.amount <= greater_in,
        smaller_in - smaller.amount <= greater_in - greater.amount,
{
    lemma_pool_in_order_is_orderly(pool, fee_a, fee_b, trade_direction, swap, amounts);
    lemma_search_lands(pool, fee_a, fee_b, smaller_in, trade_direction, swap, amounts, smaller);
    lemma_search_lands(pool, fee_a, fee_b, greater_in, trade_direction, swap, amounts, greater);
    lemma_landed_in_order(
        pool,
        fee_a,
        fee_b,
        trade_direction,
        swap,
        amounts,
        smaller_in,
        (smaller_in - smaller.amount) as u64,
        smaller.liquidity_delta,
        greater_in,
        (greater_in - greater.amount) as u64,
        greater.liquidity_delta,
    );
}

} // verus!
