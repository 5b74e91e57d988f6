//! The accrual engine: how much of a deposit is owed at a point in time.

use vstd::prelude::*;

verus! {

/// The smaller of two integers.
pub open spec fn int_min(a: int, b: int) -> int {
    if a <= b { a } else { b }
}

/// The larger of two integers.
pub open spec fn int_max(a: int, b: int) -> int {
    if a >= b { a } else { b }
}

/// A schedule that the lifecycle accepts: a non-empty window, the cliff inside
/// it, a non-negative rate, and a deposit that covers the whole window.
pub open spec fn valid_schedule(start: u64, cliff: u64, end: u64, rate: i128, deposit: i128) -> bool {
    &&& start < end
    &&& start <= cliff <= end
    &&& rate >= 0
    &&& deposit >= rate * (end - start)
}

/// The amount owed at `now`, over unbounded integers.
///
/// Nothing is owed before the cliff, on an empty or inverted window, or at a
/// negative rate. Otherwise time counts from `start` and stops at `end`, and
/// the product of elapsed time and rate is clamped into `[0, deposit]`.
pub open spec fn accrued_amount(
    start: u64,
    cliff: u64,
    end: u64,
    rate: i128,
    deposit: i128,
    now: u64,
) -> int {
    if now < cliff || start >= end || rate < 0 {
        0
    } else {
        int_max(int_min((int_min(now as int, end as int) - start) * rate, deposit as int), 0)
    }
}

/// Computes the amount accrued at `current_time`.
///
/// Total: every input has a result, and a product too large for `i128` counts
/// as the deposit, which is what clamping the exact product gives.
pub fn calculate_accrued_amount(
    start_time: u64,
    cliff_time: u64,
    end_time: u64,
    rate_per_second: i128,
    deposit_amount: i128,
    current_time: u64,
) -> (accrued: i128)
    ensures
        accrued == accrued_amount(
            start_time,
            cliff_time,
            end_time,
            rate_per_second,
            deposit_amount,
            current_time,
        ),
{
    if current_time < cliff_time {
        return 0;
    }
    if start_time >= end_time || rate_per_second < 0 {
        return 0;
    }
    let elapsed_now: u64 = if current_time < end_time { current_time } else { end_time };
    let elapsed_seconds: i128 = match elapsed_now.checked_sub(start_time) {
        Some(elapsed) => elapsed as i128,
        None => {
            proof {
                lemma_product_sign(elapsed_now as int - start_time as int, rate_per_second as int);
            }
            return 0;
        },
    };
    let capped: i128 = match elapsed_seconds.checked_mul(rate_per_second) {
        Some(amount) => if amount < deposit_amount { amount } else { deposit_amount },
        None => {
            proof {
                lemma_product_sign(elapsed_seconds as int, rate_per_second as int);
            }
            deposit_amount
        },
    };
    if capped > 0 { capped } else { 0 }
}

/// A product with a non-negative second factor has the sign of the first.
pub proof fn lemma_product_sign(a: int, b: int)
    requires
        b >= 0,
    ensures
        a >= 0 ==> a * b >= 0,
        a <= 0 ==> a * b <= 0,
{
    assert(a >= 0 && b >= 0 ==> a * b >= 0) by (nonlinear_arith);
    assert(a <= 0 && b >= 0 ==> a * b <= 0) by (nonlinear_arith);
}

/// The accrued amount never leaves the range from zero to the deposit, as
/// long as the deposit is not negative.
pub proof fn lemma_accrued_bounded(
    start: u64,
    cliff: u64,
    end: u64,
    rate: i128,
    deposit: i128,
    now: u64,
)
    requires
        deposit >= 0,
    ensures
        0 <= accrued_amount(start, cliff, end, rate, deposit, now) <= deposit,
{
}

/// Before the cliff nothing has accrued, on any schedule.
pub proof fn lemma_nothing_before_cliff(
    start: u64,
    cliff: u64,
    end: u64,
    rate: i128,
    deposit: i128,
    now: u64,
)
    requires
        now < cliff,
    ensures
        accrued_amount(start, cliff, end, rate, deposit, now) == 0,
{
}

/// From the end of a valid schedule on, the accrued amount is the smaller
/// of the rate over the whole window and the deposit, however late `now` is.
pub proof fn lemma_settled_from_end(
    start: u64,
    cliff: u64,
    end: u64,
    rate: i128,
    deposit: i128,
    now: u64,
)
    requires
        valid_schedule(start, cliff, end, rate, deposit),
        now >= end,
    ensures
        accrued_amount(start, cliff, end, rate, deposit, now) == int_min(
            rate * (end - start),
            deposit as int,
        ),
{
    lemma_product_sign(end - start, rate as int);
    assert((end - start) * rate == rate * (end - start)) by (nonlinear_arith);
}

/// On a valid schedule the accrued amount never falls as time goes on, and
/// it stays between zero and the deposit.
pub proof fn lemma_accrual_monotonic(
    start: u64,
    cliff: u64,
    end: u64,
    rate: i128,
    deposit: i128,
    earlier: u64,
    later: u64,
)
    requires
        valid_schedule(start, cliff, end, rate, deposit),
        earlier <= later,
    ensures
        0 <= accrued_amount(start, cliff, end, rate, deposit, earlier),
        accrued_amount(start, cliff, end, rate, deposit, earlier) <= accrued_amount(
            start,
            cliff,
            end,
            rate,
            deposit,
            later,
        ),
        accrued_amount(start, cliff, end, rate, deposit, later) <= deposit,
{
    lemma_product_sign(end - start, rate as int);
    assert(rate * (end - start) == (end - start) * rate) by (nonlinear_arith);
    if earlier >= cliff {
        let a = int_min(earlier as int, end as int) - start;
        let b = int_min(later as int, end as int) - start;
        assert(a * rate <= b * rate) by (nonlinear_arith)
            requires
                a <= b,
                rate >= 0,
        ;
    }
}

/// The engine is a function of its arguments alone: any two results that
/// it may give on the same arguments are the same amount.
pub proof fn lemma_accrual_is_deterministic(
    start: u64,
    cliff: u64,
    end: u64,
    rate: i128,
    deposit: i128,
    now: u64,
    first: i128,
    second: i128,
)
    requires
        call_ensures(calculate_accrued_amount, (start, cliff, end, rate, deposit, now), first),
        call_ensures(calculate_accrued_amount, (start, cliff, end, rate, deposit, now), second),
    ensures
        first == second,
        first == accrued_amount(start, cliff, end, rate, deposit, now),
{
}

} // verus!
