use crate::errors::ContractError;
use vstd::arithmetic::div_mod::{
    lemma_div_is_ordered, lemma_div_multiples_vanish, lemma_div_of0, lemma_div_pos_is_pos,
};
use vstd::arithmetic::mul::lemma_mul_inequality;
use vstd::prelude::*;

verus! {

/// The fixed-point base of the rate coefficients: a coefficient of this
/// value decays the full making/taking spread.
pub const RATE_BASE: u128 = 100_000_000;

/// One step of the decay curve: a segment length relative to the previous
/// point, and the coefficient reached at the segment's end.
#[derive(Clone, Copy, Debug, PartialEq, Eq)]
pub struct PricePoint {
    pub delay: u64,
    pub coefficient: u32,
}

/// The gas adjustment terms of the wire format; the price computation
/// leaves them unused.
#[derive(Clone, Copy, Debug, PartialEq, Eq)]
pub struct GasCost {
    pub gas_bump_estimate: u128,
    pub gas_price_estimate: u128,
}

/// The auction's shape: start, length, the coefficient at the start, and
/// the decay points consumed in order.
#[derive(Clone, Debug)]
pub struct AuctionParameters {
    pub duration: u64,
    pub start_time: u64,
    pub initial_rate_bump: u32,
    pub points: Vec<PricePoint>,
    pub gas_cost: GasCost,
}

/// Linear interpolation from `from` toward `to`, `t` seconds into a
/// segment of length `d`, truncating toward zero.
pub open spec fn interpolated(from: int, to: int, t: int, d: int) -> int {
    if to >= from {
        from + (to - from) * t / d
    } else {
        from - (from - to) * t / d
    }
}

/// The coefficient in force `elapsed` seconds after the start, starting
/// from `prev`: each fully elapsed point replaces the coefficient, and the
/// point reached mid-segment interpolates from the coefficient before it.
pub open spec fn coefficient_at(prev: int, points: Seq<PricePoint>, elapsed: int) -> int
    decreases points.len(),
{
    if points.len() == 0 {
        prev
    } else {
        let p = points[0];
        if elapsed >= p.delay {
            coefficient_at(p.coefficient as int, points.drop_first(), elapsed - p.delay)
        } else if p.delay > 0 {
            interpolated(prev, p.coefficient as int, elapsed, p.delay as int)
        } else {
            prev
        }
    }
}

/// Seconds since the auction started, never negative.
pub open spec fn auction_elapsed(params: AuctionParameters, now: u64) -> int {
    if now >= params.start_time {
        now - params.start_time
    } else {
        0
    }
}

/// The coefficient the auction applies at the given clock value.
pub open spec fn auction_coefficient(params: AuctionParameters, now: u64) -> int {
    coefficient_at(params.initial_rate_bump as int, params.points@, auction_elapsed(params, now))
}

/// How much of the making/taking spread the coefficient removes.
pub open spec fn decay_of(making: int, taking: int, coefficient: int) -> int {
    (making - taking) * coefficient / (RATE_BASE as int)
}

/// The settlement price: the making amount less the decayed spread.
pub open spec fn price_spec(making: u128, taking: u128, params: AuctionParameters, now: u64) -> int {
    making - decay_of(making as int, taking as int, auction_coefficient(params, now))
}

/// The machine can produce the price: the spread times the coefficient
/// fits the arithmetic, and the decay does not exceed the making amount.
pub open spec fn price_computable(
    making: u128,
    taking: u128,
    params: AuctionParameters,
    now: u64,
) -> bool {
    &&& (making - taking) * auction_coefficient(params, now) <= u128::MAX
    &&& decay_of(making as int, taking as int, auction_coefficient(params, now)) <= making
}

/// The chain starting at `prev` never steps down: each point's coefficient
/// is at least the one before it.
pub open spec fn chain_non_decreasing(prev: int, points: Seq<PricePoint>) -> bool
    decreases points.len(),
{
    points.len() == 0 || (prev <= points[0].coefficient && chain_non_decreasing(
        points[0].coefficient as int,
        points.drop_first(),
    ))
}

/// The auction's coefficients never step down, from the initial rate bump
/// onward.
pub open spec fn coefficients_non_decreasing(params: AuctionParameters) -> bool {
    chain_non_decreasing(params.initial_rate_bump as int, params.points@)
}

/// On a non-decreasing chain the coefficient never falls below its
/// starting value.
proof fn lemma_coefficient_lower_bound(prev: int, points: Seq<PricePoint>, elapsed: int)
    requires
        0 <= elapsed,
        0 <= prev,
        chain_non_decreasing(prev, points),
    ensures
        coefficient_at(prev, points, elapsed) >= prev,
    decreases points.len(),
{
    if points.len() > 0 {
        let p = points[0];
        if elapsed >= p.delay {
            lemma_coefficient_lower_bound(p.coefficient as int, points.drop_first(), elapsed
                - p.delay);
        } else {
            lemma_mul_inequality(0, elapsed, p.coefficient - prev);
            lemma_div_pos_is_pos((p.coefficient - prev) * elapsed, p.delay as int);
        }
    }
}

/// On a non-decreasing chain the coefficient is monotone in elapsed time.
proof fn lemma_coefficient_monotonic(prev: int, points: Seq<PricePoint>, e1: int, e2: int)
    requires
        0 <= prev,
        0 <= e1 <= e2,
        chain_non_decreasing(prev, points),
    ensures
        coefficient_at(prev, points, e1) <= coefficient_at(prev, points, e2),
    decreases points.len(),
{
    if points.len() > 0 {
        let p = points[0];
        let d = p.delay as int;
        let c = p.coefficient as int;
        if e1 >= d {
            lemma_coefficient_monotonic(c, points.drop_first(), e1 - d, e2 - d);
        } else if e2 < d {
            lemma_mul_inequality(e1, e2, c - prev);
            lemma_div_is_ordered((c - prev) * e1, (c - prev) * e2, d);
        } else {
            lemma_mul_inequality(e1, d, c - prev);
            lemma_div_is_ordered((c - prev) * e1, (c - prev) * d, d);
            lemma_div_multiples_vanish(c - prev, d);
            assert((c - prev) * d == d * (c - prev)) by (nonlinear_arith);
            lemma_coefficient_lower_bound(c, points.drop_first(), e2 - d);
        }
    }
}

/// Every coefficient of the chain stays within the given bound.
pub open spec fn chain_bounded(prev: int, points: Seq<PricePoint>, bound: int) -> bool {
    &&& prev <= bound
    &&& forall|i: int| 0 <= i < points.len() ==> (#[trigger] points[i]).coefficient <= bound
}

/// The auction's coefficients never exceed the rate base, so the decay
/// never exceeds the full spread.
pub open spec fn coefficients_bounded(params: AuctionParameters) -> bool {
    chain_bounded(params.initial_rate_bump as int, params.points@, RATE_BASE as int)
}

/// From a non-negative start and non-negative points, the coefficient
/// stays non-negative.
proof fn lemma_coefficient_nonneg(prev: int, points: Seq<PricePoint>, elapsed: int)
    requires
        0 <= elapsed,
        0 <= prev,
    ensures
        coefficient_at(prev, points, elapsed) >= 0,
    decreases points.len(),
{
    if points.len() > 0 {
        let p = points[0];
        let d = p.delay as int;
        let c = p.coefficient as int;
        if elapsed >= d {
            lemma_coefficient_nonneg(c, points.drop_first(), elapsed - d);
        } else if c >= prev {
            lemma_mul_inequality(0, elapsed, c - prev);
            lemma_div_pos_is_pos((c - prev) * elapsed, d);
        } else {
            lemma_mul_inequality(elapsed, d, prev - c);
            lemma_div_is_ordered((prev - c) * elapsed, (prev - c) * d, d);
            lemma_div_multiples_vanish(prev - c, d);
            assert((prev - c) * d == d * (prev - c)) by (nonlinear_arith);
        }
    }
}

/// On a bounded chain the coefficient never exceeds the bound.
proof fn lemma_coefficient_upper_bound(prev: int, points: Seq<PricePoint>, elapsed: int, bound: int)
    requires
        0 <= elapsed,
        0 <= prev,
        chain_bounded(prev, points, bound),
    ensures
        coefficient_at(prev, points, elapsed) <= bound,
    decreases points.len(),
{
    if points.len() > 0 {
        let p = points[0];
        let d = p.delay as int;
        let c = p.coefficient as int;
        if elapsed >= d {
            assert(points.drop_first().len() == points.len() - 1);
            assert(forall|i: int|
                0 <= i < points.drop_first().len() ==> (#[trigger] points.drop_first()[i])
                    == points[i + 1]);
            lemma_coefficient_upper_bound(c, points.drop_first(), elapsed - d, bound);
        } else if c >= prev {
            lemma_mul_inequality(elapsed, d, c - prev);
            lemma_div_is_ordered((c - prev) * elapsed, (c - prev) * d, d);
            lemma_div_multiples_vanish(c - prev, d);
            assert((c - prev) * d == d * (c - prev)) by (nonlinear_arith);
        } else {
            lemma_mul_inequality(0, elapsed, prev - c);
            lemma_div_pos_is_pos((prev - c) * elapsed, d);
        }
    }
}

/// Law: with coefficients bounded by the rate base, the settlement price
/// never leaves the range from the taking amount to the making amount.
pub proof fn lemma_price_bounded(
    making: u128,
    taking: u128,
    params: AuctionParameters,
    now: u64,
)
    requires
        making >= taking,
        coefficients_bounded(params),
    ensures
        taking <= price_spec(making, taking, params, now) <= making,
{
    let c = auction_coefficient(params, now);
    let spread = making - taking;
    lemma_coefficient_nonneg(
        params.initial_rate_bump as int,
        params.points@,
        auction_elapsed(params, now),
    );
    lemma_coefficient_upper_bound(
        params.initial_rate_bump as int,
        params.points@,
        auction_elapsed(params, now),
        RATE_BASE as int,
    );
    lemma_mul_inequality(0, c, spread);
    assert(spread * 0 == 0) by (nonlinear_arith);
    assert(spread * c == c * spread) by (nonlinear_arith);
    lemma_div_pos_is_pos(spread * c, RATE_BASE as int);
    lemma_mul_inequality(c, RATE_BASE as int, spread);
    assert(spread * (RATE_BASE as int) == (RATE_BASE as int) * spread) by (nonlinear_arith);
    lemma_div_is_ordered(spread * c, spread * (RATE_BASE as int), RATE_BASE as int);
    lemma_div_multiples_vanish(spread, RATE_BASE as int);
}

/// Law: once the coefficient reaches the rate base, the decay removes the
/// whole spread and the settlement price bottoms at the taking amount.
pub proof fn lemma_price_bottoms_at_taking(
    making: u128,
    taking: u128,
    params: AuctionParameters,
    now: u64,
)
    requires
        making >= taking,
        auction_coefficient(params, now) == RATE_BASE,
    ensures
        price_spec(making, taking, params, now) == taking,
{
    let spread = making - taking;
    lemma_div_multiples_vanish(spread, RATE_BASE as int);
    assert(spread * (RATE_BASE as int) == (RATE_BASE as int) * spread) by (nonlinear_arith);
}

/// Law: with a non-decreasing coefficient chain, the settlement price
/// never rises as the clock advances; later fills never pay more.
pub proof fn lemma_price_non_increasing(
    making: u128,
    taking: u128,
    params: AuctionParameters,
    now1: u64,
    now2: u64,
)
    requires
        making >= taking,
        coefficients_non_decreasing(params),
        now1 <= now2,
    ensures
        price_spec(making, taking, params, now2) <= price_spec(making, taking, params, now1),
{
    let c1 = auction_coefficient(params, now1);
    let c2 = auction_coefficient(params, now2);
    lemma_coefficient_monotonic(
        params.initial_rate_bump as int,
        params.points@,
        auction_elapsed(params, now1),
        auction_elapsed(params, now2),
    );
    lemma_mul_inequality(c1, c2, making - taking);
    assert((making - taking) * c1 == c1 * (making - taking)) by (nonlinear_arith);
    assert((making - taking) * c2 == c2 * (making - taking)) by (nonlinear_arith);
    lemma_div_is_ordered((making - taking) * c1, (making - taking) * c2, RATE_BASE as int);
}

/// Law: at the auction's start, with no initial rate bump and a first
/// segment of positive length, the settlement price equals the making
/// amount exactly.
pub proof fn lemma_price_at_start(making: u128, taking: u128, params: AuctionParameters)
    requires
        making >= taking,
        params.initial_rate_bump == 0,
        params.points@.len() > 0 ==> params.points@[0].delay > 0,
    ensures
        price_spec(making, taking, params, params.start_time) == making,
{
    assert(auction_elapsed(params, params.start_time) == 0);
    let c = auction_coefficient(params, params.start_time);
    if params.points@.len() > 0 {
        let p = params.points@[0];
        assert(c == interpolated(0, p.coefficient as int, 0, p.delay as int));
        assert((p.coefficient as int - 0) * 0 == 0) by (nonlinear_arith);
        lemma_div_of0(p.delay as int);
    }
    assert(c == 0);
    assert((making - taking) * 0 == 0) by (nonlinear_arith);
    lemma_div_of0(RATE_BASE as int);
}

/// The coefficient in force after `elapsed` seconds, walking the points
/// from index `i` onward with `prev` as the coefficient reached so far.
fn coefficient_exec(prev: u64, points: &Vec<PricePoint>, i: usize, elapsed: u64) -> (r: u64)
    requires
        prev <= u32::MAX,
        i <= points.len(),
    ensures
        r == coefficient_at(prev as int, points@.skip(i as int), elapsed as int),
        r <= u32::MAX,
    decreases points.len() - i,
{
    proof {
        if i < points.len() {
            assert(points@.skip(i as int)[0] == points@[i as int]);
            assert(points@.skip(i as int).drop_first() =~= points@.skip(i as int + 1));
        } else {
            assert(points@.skip(i as int) =~= Seq::<PricePoint>::empty());
        }
    }
    if i == points.len() {
        return prev;
    }
    let p = points[i];
    if elapsed >= p.delay {
        coefficient_exec(p.coefficient as u64, points, i + 1, elapsed - p.delay)
    } else {
        let d: u128 = p.delay as u128;
        let t: u128 = elapsed as u128;
        let next: u64 = p.coefficient as u64;
        if next >= prev {
            let diff: u128 = (next - prev) as u128;
            proof {
                assert(diff * t <= 0xFFFF_FFFF * 0xFFFF_FFFF_FFFF_FFFFu128) by (nonlinear_arith)
                    requires
                        diff <= 0xFFFF_FFFFu128,
                        t <= 0xFFFF_FFFF_FFFF_FFFFu128,
                ;
                lemma_mul_inequality(t as int, d as int, diff as int);
                lemma_div_is_ordered((diff * t) as int, (diff as int) * (d as int), d as int);
                lemma_div_multiples_vanish(diff as int, d as int);
                assert((diff as int) * (d as int) == (d as int) * (diff as int))
                    by (nonlinear_arith);
            }
            let step: u128 = diff * t / d;
            prev + (step as u64)
        } else {
            let diff: u128 = (prev - next) as u128;
            proof {
                assert(diff * t <= 0xFFFF_FFFF * 0xFFFF_FFFF_FFFF_FFFFu128) by (nonlinear_arith)
                    requires
                        diff <= 0xFFFF_FFFFu128,
                        t <= 0xFFFF_FFFF_FFFF_FFFFu128,
                ;
                lemma_mul_inequality(t as int, d as int, diff as int);
                lemma_div_is_ordered((diff * t) as int, (diff as int) * (d as int), d as int);
                lemma_div_multiples_vanish(diff as int, d as int);
                assert((diff as int) * (d as int) == (d as int) * (diff as int))
                    by (nonlinear_arith);
                lemma_div_pos_is_pos((diff * t) as int, d as int);
            }
            let step: u128 = diff * t / d;
            prev - (step as u64)
        }
    }
}

/// Computes the time-decayed settlement price for the spread between the
/// making and taking amounts, per the auction's decay points.
pub fn calculate_price(
    making_amount: u128,
    taking_amount: u128,
    params: &AuctionParameters,
    current_time: u64,
) -> (r: Result<u128, ContractError>)
    requires
        making_amount >= taking_amount,
    ensures
        r is Ok <==> price_computable(making_amount, taking_amount, *params, current_time),
        r is Ok ==> r->Ok_0 == price_spec(making_amount, taking_amount, *params, current_time),
        r is Err ==> r->Err_0 is Std,
{
    let elapsed: u64 = if current_time >= params.start_time {
        current_time - params.start_time
    } else {
        0
    };
    proof {
        assert(params.points@.skip(0) =~= params.points@);
    }
    let coefficient: u64 = coefficient_exec(
        params.initial_rate_bump as u64,
        &params.points,
        0,
        elapsed,
    );
    let price_range: u128 = making_amount - taking_amount;
    let scaled: u128 = match price_range.checked_mul(coefficient as u128) {
        Some(v) => v,
        None => {
            return Err(ContractError::Std("price computation overflow".to_owned()));
        },
    };
    let decayed_price: u128 = scaled / RATE_BASE;
    proof {
        lemma_div_pos_is_pos(scaled as int, RATE_BASE as int);
    }
    if decayed_price > making_amount {
        return Err(ContractError::Std("price decay exceeds the making amount".to_owned()));
    }
    Ok(making_amount - decayed_price)
}

} // verus!
