//! Rules on a Jupiter route that a zap-out may carry.
//!
//! A route plan is a list of swap legs. Each leg takes a percentage of the
//! tokens at its input index and puts what it gets at its output index. A
//! plan is accepted when every leg goes through a whitelisted venue, every
//! input is consumed in full, all paths end in one output, and no platform
//! fee is taken.

use vstd::prelude::*;
use crate::error::ProtocolZapError;

verus! {

/// The venue of a swap leg. The venues that a zap-out accepts are named;
/// every other venue is `Other`.
#[derive(Debug, Clone, Copy, PartialEq, Eq, Structural)]
pub enum Swap {
    Meteora,
    MeteoraDammV2,
    MeteoraDammV2WithRemainingAccounts,
    MeteoraDlmm,
    MeteoraDlmmSwapV2,
    Mercurial,
    Whirlpool,
    WhirlpoolSwapV2,
    Raydium,
    RaydiumV2,
    RaydiumCP,
    RaydiumClmm,
    RaydiumClmmV2,
    /// A venue that is not on the whitelist.
    Other,
}

/// One leg of a route plan.
#[derive(Debug, Clone, Copy, PartialEq, Eq, Structural)]
pub struct RoutePlanStep {
    /// The venue.
    pub swap: Swap,
    /// The share of the input that the leg consumes, in percent.
    pub percent: u8,
    /// Where the leg takes its tokens from.
    pub input_index: u8,
    /// Where the leg puts what it gets.
    pub output_index: u8,
}

/// What a zap-out reads of the arguments of a Jupiter route.
#[derive(Debug, Clone, PartialEq, Eq)]
pub struct JupiterRoute {
    /// The legs.
    pub route_plan: Vec<RoutePlanStep>,
    /// The platform fee in basis points.
    pub platform_fee_bps: u8,
}

/// A venue is whitelisted unless it is `Other`.
pub open spec fn swap_is_whitelisted(swap: Swap) -> bool {
    swap != Swap::Other
}

/// Every leg goes through a whitelisted venue.
pub open spec fn all_legs_whitelisted(steps: Seq<RoutePlanStep>) -> bool {
    forall|i: int| 0 <= i < steps.len() ==> swap_is_whitelisted(#[trigger] steps[i].swap)
}

/// The percentages of the legs that take from `input`, added up.
pub open spec fn percent_sum(steps: Seq<RoutePlanStep>, input: u8) -> nat
    decreases steps.len(),
{
    if steps.len() == 0 {
        0
    } else {
        percent_sum(steps.drop_last(), input) + if steps.last().input_index == input {
            steps.last().percent as nat
        } else {
            0
        }
    }
}

/// Every input that some leg takes from is consumed to exactly one hundred percent.
pub open spec fn inputs_fully_consumed(steps: Seq<RoutePlanStep>) -> bool {
    forall|i: int|
        0 <= i < steps.len() ==> percent_sum(steps, #[trigger] steps[i].input_index) == 100
}

/// The first leg from index `from` on whose input is not consumed to one
/// hundred percent, or the number of legs if there is none.
pub open spec fn first_unbalanced(steps: Seq<RoutePlanStep>, from: int) -> int
    decreases steps.len() - from,
{
    if from < 0 || from >= steps.len() {
        steps.len() as int
    } else if percent_sum(steps, steps[from].input_index) != 100 {
        from
    } else {
        first_unbalanced(steps, from + 1)
    }
}

/// An index is a terminal output when some leg puts tokens there and no leg
/// takes tokens from there.
pub open spec fn is_terminal_output(steps: Seq<RoutePlanStep>, output: u8) -> bool {
    &&& exists|i: int| 0 <= i < steps.len() && #[trigger] steps[i].output_index == output
    &&& forall|j: int| 0 <= j < steps.len() ==> #[trigger] steps[j].input_index != output
}

/// All paths end in one place: there is exactly one terminal output.
pub open spec fn single_terminal_output(steps: Seq<RoutePlanStep>) -> bool {
    exists|o: u8|
        #[trigger] is_terminal_output(steps, o) && forall|p: u8|
            #[trigger] is_terminal_output(steps, p) ==> p == o
}

/// The plan fully converges.
pub open spec fn route_plan_converges(steps: Seq<RoutePlanStep>) -> bool {
    inputs_fully_consumed(steps) && single_terminal_output(steps)
}

/// The error that a plan which does not converge is refused with: an input
/// whose percentages add up to more than a byte holds is an overflow, any
/// other fault an invalid parameter. The first unbalanced input decides.
pub open spec fn convergence_error(steps: Seq<RoutePlanStep>) -> ProtocolZapError {
    let k = first_unbalanced(steps, 0);
    if k < steps.len() && percent_sum(steps, steps[k].input_index) > 255 {
        ProtocolZapError::MathOverflow
    } else {
        ProtocolZapError::InvalidZapOutParameters
    }
}

/// Leg `i` is the first to put tokens at its output, and no leg takes from there.
pub open spec fn first_terminal_at(steps: Seq<RoutePlanStep>, i: int) -> bool {
    &&& 0 <= i < steps.len()
    &&& forall|j: int| 0 <= j < i ==> #[trigger] steps[j].output_index != steps[i].output_index
    &&& forall|j: int|
        0 <= j < steps.len() ==> #[trigger] steps[j].input_index != steps[i].output_index
}

/// The number of legs below `n` that are the first to reach a terminal output.
pub open spec fn terminal_count(steps: Seq<RoutePlanStep>, n: int) -> nat
    decreases n,
{
    if n <= 0 {
        0
    } else {
        terminal_count(steps, n - 1) + if first_terminal_at(steps, n - 1) {
            1nat
        } else {
            0nat
        }
    }
}

proof fn lemma_percent_sum_prefix(steps: Seq<RoutePlanStep>, input: u8, n: int)
    requires
        0 <= n <= steps.len(),
    ensures
        percent_sum(steps.take(n), input) <= percent_sum(steps, input),
    decreases steps.len() - n,
{
    if n == steps.len() {
        assert(steps.take(n) =~= steps);
    } else {
        lemma_percent_sum_prefix(steps, input, n + 1);
        assert(steps.take(n + 1).drop_last() =~= steps.take(n));
    }
}

proof fn lemma_first_unbalanced_is(steps: Seq<RoutePlanStep>, from: int, k: int)
    requires
        0 <= from <= k <= steps.len(),
        forall|j: int| from <= j < k ==> percent_sum(steps, #[trigger] steps[j].input_index) == 100,
        k < steps.len() ==> percent_sum(steps, steps[k].input_index) != 100,
    ensures
        first_unbalanced(steps, from) == k,
    decreases k - from,
{
    if from < k {
        lemma_first_unbalanced_is(steps, from + 1, k);
    }
}

proof fn lemma_count_zero(steps: Seq<RoutePlanStep>, n: int, i: int)
    requires
        0 <= i < n <= steps.len(),
        first_terminal_at(steps, i),
    ensures
        terminal_count(steps, n) >= 1,
    decreases n,
{
    if i < n - 1 {
        lemma_count_zero(steps, n - 1, i);
    }
}

proof fn lemma_count_two(steps: Seq<RoutePlanStep>, n: int, i: int, k: int)
    requires
        0 <= i < k < n <= steps.len(),
        first_terminal_at(steps, i),
        first_terminal_at(steps, k),
    ensures
        terminal_count(steps, n) >= 2,
    decreases n,
{
    if k < n - 1 {
        lemma_count_two(steps, n - 1, i, k);
    } else {
        lemma_count_zero(steps, n - 1, i);
    }
}

proof fn lemma_count_witness(steps: Seq<RoutePlanStep>, n: int) -> (i: int)
    requires
        0 <= n <= steps.len(),
        terminal_count(steps, n) >= 1,
    ensures
        0 <= i < n,
        first_terminal_at(steps, i),
    decreases n,
{
    if first_terminal_at(steps, n - 1) {
        n - 1
    } else {
        lemma_count_witness(steps, n - 1)
    }
}

proof fn lemma_count_two_witnesses(steps: Seq<RoutePlanStep>, n: int) -> (pair: (int, int))
    requires
        0 <= n <= steps.len(),
        terminal_count(steps, n) >= 2,
    ensures
        0 <= pair.0 < pair.1 < n,
        first_terminal_at(steps, pair.0),
        first_terminal_at(steps, pair.1),
    decreases n,
{
    if first_terminal_at(steps, n - 1) {
        let i = lemma_count_witness(steps, n - 1);
        (i, n - 1)
    } else {
        lemma_count_two_witnesses(steps, n - 1)
    }
}

proof fn lemma_first_occurrence(steps: Seq<RoutePlanStep>, j: int) -> (i: int)
    requires
        0 <= j < steps.len(),
    ensures
        0 <= i <= j,
        steps[i].output_index == steps[j].output_index,
        forall|k: int| 0 <= k < i ==> #[trigger] steps[k].output_index != steps[i].output_index,
    decreases j,
{
    if exists|k: int| 0 <= k < j && #[trigger] steps[k].output_index == steps[j].output_index {
        let k = choose|k: int| 0 <= k < j && #[trigger] steps[k].output_index == steps[j].output_index;
        lemma_first_occurrence(steps, k)
    } else {
        j
    }
}

/// Counting the legs that are first to reach a terminal output counts the
/// terminal outputs: the count is one exactly when there is a single
/// terminal output.
pub proof fn lemma_terminal_count_is_one(steps: Seq<RoutePlanStep>)
    ensures
        terminal_count(steps, steps.len() as int) == 1 <==> single_terminal_output(steps),
{
    let n = steps.len() as int;
    if terminal_count(steps, n) == 1 {
        let i = lemma_count_witness(steps, n);
        let o = steps[i].output_index;
        assert(is_terminal_output(steps, o));
        assert forall|p: u8| #[trigger] is_terminal_output(steps, p) implies p == o by {
            if p != o {
                let m = choose|m: int| 0 <= m < steps.len() && #[trigger] steps[m].output_index == p;
                let f = lemma_first_occurrence(steps, m);
                assert(first_terminal_at(steps, f));
                if f < i {
                    lemma_count_two(steps, n, f, i);
                } else {
                    lemma_count_two(steps, n, i, f);
                }
            }
        }
        assert(single_terminal_output(steps));
    }
    if single_terminal_output(steps) {
        let o = choose|o: u8|
            #[trigger] is_terminal_output(steps, o) && forall|p: u8|
                #[trigger] is_terminal_output(steps, p) ==> p == o;
        let m = choose|m: int| 0 <= m < steps.len() && #[trigger] steps[m].output_index == o;
        let f = lemma_first_occurrence(steps, m);
        assert(first_terminal_at(steps, f));
        lemma_count_zero(steps, n, f);
        if terminal_count(steps, n) >= 2 {
            let (a, b) = lemma_count_two_witnesses(steps, n);
            assert(is_terminal_output(steps, steps[a].output_index));
            assert(is_terminal_output(steps, steps[b].output_index));
            assert(steps[a].output_index != steps[b].output_index);
        }
    }
}

/// Accepts a plan whose legs all go through whitelisted venues.
pub fn ensure_whitelisted_swap_leg(route_plan_steps: &[RoutePlanStep]) -> (r: Result<
    (),
    ProtocolZapError,
>)
    ensures
        r.is_ok() <==> all_legs_whitelisted(route_plan_steps@),
        r.is_err() ==> r.unwrap_err() == ProtocolZapError::InvalidZapOutParameters,
{
    let mut i: usize = 0;
    while i < route_plan_steps.len()
        invariant
            i <= route_plan_steps.len(),
            forall|j: int| 0 <= j < i ==> swap_is_whitelisted(#[trigger] route_plan_steps@[j].swap),
        decreases route_plan_steps.len() - i,
    {
        match route_plan_steps[i].swap {
            Swap::Other => {
                return Err(ProtocolZapError::InvalidZapOutParameters);
            },
            _ => {},
        }
        i += 1;
    }
    Ok(())
}

/// Tells whether some leg before `upto` takes from `input`.
fn input_seen_before(steps: &[RoutePlanStep], upto: usize, input: u8) -> (r: bool)
    requires
        upto <= steps.len(),
    ensures
        r == exists|j: int| 0 <= j < upto && #[trigger] steps@[j].input_index == input,
{
    let mut j: usize = 0;
    while j < upto
        invariant
            j <= upto <= steps.len(),
            forall|k: int| 0 <= k < j ==> #[trigger] steps@[k].input_index != input,
        decreases upto - j,
    {
        if steps[j].input_index == input {
            return true;
        }
        j += 1;
    }
    false
}

/// Tells whether some leg before `upto` puts tokens at `output`.
fn output_seen_before(steps: &[RoutePlanStep], upto: usize, output: u8) -> (r: bool)
    requires
        upto <= steps.len(),
    ensures
        r == exists|j: int| 0 <= j < upto && #[trigger] steps@[j].output_index == output,
{
    let mut j: usize = 0;
    while j < upto
        invariant
            j <= upto <= steps.len(),
            forall|k: int| 0 <= k < j ==> #[trigger] steps@[k].output_index != output,
        decreases upto - j,
    {
        if steps[j].output_index == output {
            return true;
        }
        j += 1;
    }
    false
}

/// Adds up, in a byte, the percentages of the legs that take from `input`;
/// nothing where the sum does not fit a byte.
fn checked_percent_sum(steps: &[RoutePlanStep], input: u8) -> (r: Option<u8>)
    ensures
        r.is_some() <==> percent_sum(steps@, input) <= 255,
        r.is_some() ==> r.unwrap() == percent_sum(steps@, input),
{
    let mut acc: u8 = 0;
    let mut j: usize = 0;
    while j < steps.len()
        invariant
            j <= steps.len(),
            acc == percent_sum(steps@.take(j as int), input),
        decreases steps.len() - j,
    {
        proof {
            assert(steps@.take(j + 1).drop_last() =~= steps@.take(j as int));
            lemma_percent_sum_prefix(steps@, input, j + 1);
        }
        if steps[j].input_index == input {
            acc = match acc.checked_add(steps[j].percent) {
                Some(v) => v,
                None => {
                    return None;
                },
            };
        }
        j += 1;
    }
    assert(steps@.take(j as int) =~= steps@);
    Some(acc)
}

/// Accepts a plan that fully converges: every input index, the first and the
/// intermediate ones, is consumed to exactly one hundred percent, and all
/// paths end in exactly one terminal output.
pub fn ensure_route_plan_fully_converges(route_plan_steps: &[RoutePlanStep]) -> (r: Result<
    (),
    ProtocolZapError,
>)
    ensures
        r.is_ok() <==> route_plan_converges(route_plan_steps@),
        r.is_err() ==> r.unwrap_err() == convergence_error(route_plan_steps@),
{
    let n = route_plan_steps.len();
    let mut i: usize = 0;
    while i < n
        invariant
            i <= n,
            n == route_plan_steps.len(),
            forall|k: int|
                0 <= k < i ==> percent_sum(
                    route_plan_steps@,
                    #[trigger] route_plan_steps@[k].input_index,
                ) == 100,
        decreases n - i,
    {
        let input = route_plan_steps[i].input_index;
        let seen = input_seen_before(route_plan_steps, i, input);
        if !seen {
            let percent_sum = checked_percent_sum(route_plan_steps, input);
            match percent_sum {
                None => {
                    proof {
                        lemma_first_unbalanced_is(route_plan_steps@, 0, i as int);
                    }
                    return Err(ProtocolZapError::MathOverflow);
                },
                Some(sum) => {
                    if sum != 100 {
                        proof {
                            lemma_first_unbalanced_is(route_plan_steps@, 0, i as int);
                        }
                        return Err(ProtocolZapError::InvalidZapOutParameters);
                    }
                },
            }
        }
        i += 1;
    }
    proof {
        lemma_first_unbalanced_is(route_plan_steps@, 0, n as int);
    }
    let mut terminal: usize = 0;
    let mut k: usize = 0;
    while k < n
        invariant
            k <= n,
            n == route_plan_steps.len(),
            terminal == terminal_count(route_plan_steps@, k as int),
            terminal <= k,
        decreases n - k,
    {
        let output = route_plan_steps[k].output_index;
        let is_first = !output_seen_before(route_plan_steps, k, output);
        let is_terminal = !input_seen_before(route_plan_steps, n, output);
        if is_first && is_terminal {
            terminal += 1;
        }
        k += 1;
    }
    proof {
        lemma_terminal_count_is_one(route_plan_steps@);
    }
    if terminal != 1 {
        return Err(ProtocolZapError::InvalidZapOutParameters);
    }
    Ok(())
}

/// A Jupiter route is accepted when its legs are whitelisted, its plan fully
/// converges and it takes no platform fee.
pub open spec fn route_accepted(route: JupiterRoute) -> bool {
    &&& all_legs_whitelisted(route.route_plan@)
    &&& route_plan_converges(route.route_plan@)
    &&& route.platform_fee_bps == 0
}

/// The error that a route which is not accepted is refused with.
pub open spec fn route_error(route: JupiterRoute) -> ProtocolZapError {
    if !all_legs_whitelisted(route.route_plan@) {
        ProtocolZapError::InvalidZapOutParameters
    } else if !route_plan_converges(route.route_plan@) {
        convergence_error(route.route_plan@)
    } else {
        ProtocolZapError::InvalidZapOutParameters
    }
}

/// Validates the arguments of a Jupiter route. A platform fee is refused, so
/// that nobody can divert funds by naming a fee account of their own.
pub fn validate_route(route: &JupiterRoute) -> (r: Result<(), ProtocolZapError>)
    ensures
        r.is_ok() <==> route_accepted(*route),
        r.is_err() ==> r.unwrap_err() == route_error(*route),
{
    match ensure_whitelisted_swap_leg(route.route_plan.as_slice()) {
        Ok(()) => {},
        Err(e) => {
            return Err(e);
        },
    }
    match ensure_route_plan_fully_converges(route.route_plan.as_slice()) {
        Ok(()) => {},
        Err(e) => {
            return Err(e);
        },
    }
    if route.platform_fee_bps != 0 {
        return Err(ProtocolZapError::InvalidZapOutParameters);
    }
    Ok(())
}

} // verus!
