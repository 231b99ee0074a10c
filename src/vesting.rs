use vstd::arithmetic::div_mod::{lemma_div_is_ordered, lemma_div_multiples_vanish};
use vstd::arithmetic::mul::lemma_mul_inequality;
use vstd::prelude::*;

use crate::error::StreamError;

verus! {

/// True when vesting has not begun at time `t`: before the start, or before
/// the cliff when there is one.
pub open spec fn before_vesting(start_time: int, cliff_time: Option<u64>, t: int) -> bool {
    t < start_time || (cliff_time is Some && t < cliff_time->0)
}

/// The amount vested at time `t`: nothing before the start (or the cliff),
/// everything from the end on, and the floor of the linear share between.
pub open spec fn vested_spec(
    deposited_total: int,
    start_time: int,
    end_time: int,
    cliff_time: Option<u64>,
    t: int,
) -> int {
    if before_vesting(start_time, cliff_time, t) {
        0
    } else if t >= end_time {
        deposited_total
    } else {
        (deposited_total * (t - start_time)) / (end_time - start_time)
    }
}

/// True when computing the vested amount at `t` needs the product
/// `deposited_total * (t - start_time)` and that product exceeds `u64`.
pub open spec fn vesting_overflows(
    deposited_total: int,
    start_time: int,
    end_time: int,
    cliff_time: Option<u64>,
    t: int,
) -> bool {
    !before_vesting(start_time, cliff_time, t) && t < end_time && deposited_total * (t
        - start_time) > u64::MAX
}

/// The linear share `d * x / span` lies between 0 and `d` while `x <= span`.
pub proof fn lemma_share_bounds(d: int, x: int, span: int)
    requires
        0 <= d,
        0 <= x <= span,
        0 < span,
    ensures
        0 <= (d * x) / span <= d,
{
    lemma_mul_inequality(x, span, d);
    assert(x * d == d * x && span * d == d * span) by (nonlinear_arith);
    assert(0 <= d * x) by (nonlinear_arith)
        requires
            0 <= d,
            0 <= x,
    ;
    lemma_div_is_ordered(0, d * x, span);
    lemma_div_is_ordered(d * x, d * span, span);
    lemma_div_multiples_vanish(d, span);
    assert(d * span == span * d) by (nonlinear_arith);
}

/// The linear share grows with elapsed time.
pub proof fn lemma_share_monotonic(d: int, x1: int, x2: int, span: int)
    requires
        0 <= d,
        0 <= x1 <= x2,
        0 < span,
    ensures
        (d * x1) / span <= (d * x2) / span,
{
    lemma_mul_inequality(x1, x2, d);
    assert(x1 * d == d * x1 && x2 * d == d * x2) by (nonlinear_arith);
    lemma_div_is_ordered(d * x1, d * x2, span);
}

/// The vested amount never exceeds the deposit and is never negative.
pub proof fn lemma_vested_bounds(
    deposited_total: int,
    start_time: int,
    end_time: int,
    cliff_time: Option<u64>,
    t: int,
)
    requires
        0 <= deposited_total,
        start_time < end_time,
    ensures
        0 <= vested_spec(deposited_total, start_time, end_time, cliff_time, t) <= deposited_total,
{
    if !before_vesting(start_time, cliff_time, t) && t < end_time {
        lemma_share_bounds(deposited_total, t - start_time, end_time - start_time);
    }
}

/// Monotonicity: the vested amount never decreases as time advances.
pub proof fn lemma_vested_monotonic(
    deposited_total: int,
    start_time: int,
    end_time: int,
    cliff_time: Option<u64>,
    t1: int,
    t2: int,
)
    requires
        0 <= deposited_total,
        start_time < end_time,
        t1 <= t2,
    ensures
        vested_spec(deposited_total, start_time, end_time, cliff_time, t1) <= vested_spec(
            deposited_total,
            start_time,
            end_time,
            cliff_time,
            t2,
        ),
{
    let span = end_time - start_time;
    lemma_vested_bounds(deposited_total, start_time, end_time, cliff_time, t1);
    lemma_vested_bounds(deposited_total, start_time, end_time, cliff_time, t2);
    if !before_vesting(start_time, cliff_time, t1) && t2 < end_time {
        lemma_share_monotonic(deposited_total, t1 - start_time, t2 - start_time, span);
    }
}

/// Boundaries: nothing is vested at the start time, nor at any time before
/// the cliff, and the whole deposit is vested at the end time.
pub proof fn lemma_vested_boundaries(
    deposited_total: int,
    start_time: int,
    end_time: int,
    cliff_time: Option<u64>,
)
    requires
        0 <= deposited_total,
        start_time < end_time,
        cliff_time is Some ==> start_time <= cliff_time->0 <= end_time,
    ensures
        vested_spec(deposited_total, start_time, end_time, cliff_time, start_time) == 0,
        forall|t: int|
            cliff_time is Some && t < cliff_time->0 ==> #[trigger] vested_spec(
                deposited_total,
                start_time,
                end_time,
                cliff_time,
                t,
            ) == 0,
        vested_spec(deposited_total, start_time, end_time, cliff_time, end_time)
            == deposited_total,
{
    assert(deposited_total * 0 == 0) by (nonlinear_arith);
}

/// Computes the amount vested at `now` under the schedule, rounding down.
/// Fails with `ArithmeticError` exactly when the intermediate product
/// `deposited_total * (now - start_time)` does not fit in `u64`.
pub fn vested(
    deposited_total: u64,
    start_time: u64,
    end_time: u64,
    cliff_time: Option<u64>,
    now: u64,
) -> (r: Result<u64, StreamError>)
    requires
        start_time < end_time,
    ensures
        vesting_overflows(
            deposited_total as int,
            start_time as int,
            end_time as int,
            cliff_time,
            now as int,
        ) ==> r == Err::<u64, StreamError>(StreamError::ArithmeticError),
        !vesting_overflows(
            deposited_total as int,
            start_time as int,
            end_time as int,
            cliff_time,
            now as int,
        ) ==> r == Ok::<u64, StreamError>(
            vested_spec(
                deposited_total as int,
                start_time as int,
                end_time as int,
                cliff_time,
                now as int,
            ) as u64,
        ),
        r is Ok ==> r->Ok_0 == vested_spec(
            deposited_total as int,
            start_time as int,
            end_time as int,
            cliff_time,
            now as int,
        ),
{
    let before_cliff = match cliff_time {
        Some(c) => now < c,
        None => false,
    };
    if now < start_time || before_cliff {
        return Ok(0);
    }
    if now >= end_time {
        return Ok(deposited_total);
    }
    let elapsed = now - start_time;
    let span = end_time - start_time;
    match deposited_total.checked_mul(elapsed) {
        None => Err(StreamError::ArithmeticError),
        Some(product) => {
            proof {
                lemma_share_bounds(deposited_total as int, elapsed as int, span as int);
            }
            Ok(product / span)
        },
    }
}

} // verus!
