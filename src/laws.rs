use vstd::arithmetic::div_mod::{
    lemma_div_is_ordered,
    lemma_div_multiples_vanish,
    lemma_fundamental_div_mod,
};
use vstd::prelude::*;

use crate::error::StreamError;
use crate::stream::{no_transfers, StreamRecord, StreamStatus, Transfers};
use crate::vesting::{before_vesting, lemma_vested_bounds, lemma_vested_monotonic};

verus! {

/// Rounded-down quotients keep the order of the exact ratios:
/// `c / e <= a / b` whenever `c * b <= a * e`.
pub proof fn lemma_floor_cross(a: int, b: int, c: int, e: int)
    requires
        0 < b,
        0 < e,
        0 <= c,
        c * b <= a * e,
    ensures
        c / e <= a / b,
{
    let q = c / e;
    lemma_fundamental_div_mod(c, e);
    assert(0 <= c % e) by {
        vstd::arithmetic::div_mod::lemma_mod_bound(c, e);
    }
    assert(e * q <= c);
    assert(q * b <= a) by (nonlinear_arith)
        requires
            e * q <= c,
            c * b <= a * e,
            0 < b,
            0 < e,
    ;
    lemma_div_is_ordered(q * b, a, b);
    lemma_div_multiples_vanish(q, b);
    assert(b * q == q * b) by (nonlinear_arith);
}

/// A newly created stream is well-formed and its accounting holds from its
/// creation time on: nothing has been withdrawn yet.
pub proof fn lemma_creation_establishes_invariant(
    id: u64,
    employer: u64,
    employee: u64,
    deposited_total: u64,
    start_time: u64,
    end_time: u64,
    cliff_time: Option<u64>,
    now: u64,
)
    ensures
        ({
            let r = StreamRecord::spec_create(
                id,
                employer,
                employee,
                deposited_total,
                start_time,
                end_time,
                cliff_time,
                now,
            );
            r is Ok ==> r->Ok_0.wf() && r->Ok_0.accounted_at(now as int)
                && r->Ok_0.withdrawn_total == 0
        }),
{
    if start_time < end_time {
        lemma_vested_bounds(
            deposited_total as int,
            start_time as int,
            end_time as int,
            cliff_time,
            now as int,
        );
    }
}

/// The invariant carried forward in time: once what was paid out is covered
/// by what has vested at `t0`, then at every later time `t`,
/// `0 <= withdrawn_total <= vested(t) <= deposited_total`.
pub proof fn lemma_accounting_persists(r: StreamRecord, t0: int, t: int)
    requires
        r.wf(),
        r.accounted_at(t0),
        t0 <= t,
    ensures
        0 <= r.withdrawn_total <= r.vested_at(t) <= r.deposited_total,
{
    lemma_vested_monotonic(
        r.deposited_total as int,
        r.start_time as int,
        r.end_time as int,
        r.cliff_time,
        t0,
        t,
    );
    lemma_vested_bounds(
        r.deposited_total as int,
        r.start_time as int,
        r.end_time as int,
        r.cliff_time,
        t,
    );
}

/// A top-up never lowers the vested amount at any time.
pub proof fn lemma_top_up_never_lowers_vesting(r: StreamRecord, signer: u64, amount: u64, t: int)
    requires
        r.wf(),
        r.spec_top_up(signer, amount) is Ok,
    ensures
        r.vested_at(t) <= r.spec_top_up(signer, amount)->Ok_0.0.vested_at(t),
        r.spec_top_up(signer, amount)->Ok_0.0.end_time >= r.end_time,
{
    let r2 = r.spec_top_up(signer, amount)->Ok_0.0;
    let d = r.deposited_total as int;
    let n = r2.deposited_total as int;
    let s = r.start_time as int;
    let span = r.end_time - r.start_time;
    let span2 = r2.end_time - r2.start_time;
    assert(span2 == n * span / d);
    assert(d * span <= n * span) by (nonlinear_arith)
        requires
            d <= n,
            0 < span,
    ;
    lemma_div_is_ordered(d * span, n * span, d);
    lemma_div_multiples_vanish(span, d);
    assert(span <= span2);
    lemma_fundamental_div_mod(n * span, d);
    assert(0 <= (n * span) % d) by {
        vstd::arithmetic::div_mod::lemma_mod_bound(n * span, d);
    }
    assert(d * span2 <= n * span);
    lemma_vested_bounds(d, s, r.end_time as int, r.cliff_time, t);
    if !before_vesting(s, r.cliff_time, t) && t < r2.end_time {
        let x = t - s;
        assert((d * x) * span2 <= (n * x) * span) by (nonlinear_arith)
            requires
                d * span2 <= n * span,
                0 <= x,
        ;
        assert(0 <= d * x) by (nonlinear_arith)
            requires
                0 <= d,
                0 <= x,
        ;
        lemma_floor_cross(n * x, span2, d * x, span);
        if t >= r.end_time {
            assert(d * span <= d * x) by (nonlinear_arith)
                requires
                    0 <= d,
                    span <= x,
            ;
            lemma_div_is_ordered(d * span, d * x, span);
            lemma_div_multiples_vanish(d, span);
            assert(d * span == span * d) by (nonlinear_arith);
            assert(span * d == d * span) by (nonlinear_arith);
        }
    }
}

/// A top-up keeps the vesting rate: the new deposit over the new duration
/// equals the old deposit over the old duration whenever the new duration is
/// a whole number of clock units, and then nothing vested up to the old end
/// time changes.
pub proof fn lemma_top_up_preserves_rate(r: StreamRecord, signer: u64, amount: u64, t: int)
    requires
        r.wf(),
        r.spec_top_up(signer, amount) is Ok,
        ((r.deposited_total + amount) * (r.end_time - r.start_time)) % (r.deposited_total as int)
            == 0,
        t <= r.end_time,
    ensures
        ({
            let r2 = r.spec_top_up(signer, amount)->Ok_0.0;
            &&& r2.deposited_total * (r.end_time - r.start_time) == r.deposited_total * (
            r2.end_time - r2.start_time)
            &&& r2.vested_at(t) == r.vested_at(t)
        }),
{
    let r2 = r.spec_top_up(signer, amount)->Ok_0.0;
    let d = r.deposited_total as int;
    let n = r2.deposited_total as int;
    let s = r.start_time as int;
    let span = r.end_time - r.start_time;
    let span2 = r2.end_time - r2.start_time;
    lemma_top_up_never_lowers_vesting(r, signer, amount, t);
    assert(n == r.deposited_total + amount);
    lemma_fundamental_div_mod(n * span, d);
    assert(d * span2 == n * span);
    assert(n * span == d * span2);
    if !before_vesting(s, r.cliff_time, t) {
        assert(t < r2.end_time) by {
            assert(d * span < n * span) by (nonlinear_arith)
                requires
                    d < n,
                    0 < span,
            ;
            lemma_div_multiples_vanish(span, d);
            assert(d * span == span * d) by (nonlinear_arith);
            assert(span < span2) by (nonlinear_arith)
                requires
                    d * span < n * span,
                    d * span2 == n * span,
                    0 < d,
            ;
        }
        let x = t - s;
        assert((n * x) * span == (d * x) * span2) by (nonlinear_arith)
            requires
                d * span2 == n * span,
        ;
        assert(0 <= n * x && 0 <= d * x) by (nonlinear_arith)
            requires
                0 <= d <= n,
                0 <= x,
        ;
        lemma_floor_cross(d * x, span, n * x, span2);
        if t == r.end_time {
            lemma_div_multiples_vanish(d, span);
            assert(d * span == span * d) by (nonlinear_arith);
            assert(span * d == d * span) by (nonlinear_arith);
            assert(d * x == d * span);
        }
    }
}

/// Every lifecycle operation that succeeds at `now` on a well-formed record
/// whose accounting holds at `now` leaves a well-formed record whose
/// accounting holds at `now`, and the escrow changes by exactly the funds
/// moved in and out.
pub open spec fn step_keeps_invariant(
    r: StreamRecord,
    outcome: Result<(StreamRecord, Transfers), StreamError>,
    now: u64,
) -> bool {
    outcome is Ok ==> {
        let (r2, tr) = outcome->Ok_0;
        &&& r2.wf()
        &&& r2.accounted_at(now as int)
        &&& r2.escrow() == r.escrow() + tr.into_escrow - tr.to_employee - tr.to_employer
    }
}

proof fn lemma_settle_keeps_invariant(r: StreamRecord, signer: u64, now: u64)
    requires
        r.wf(),
        r.accounted_at(now as int),
    ensures
        step_keeps_invariant(r, r.spec_close(signer, now), now),
        step_keeps_invariant(r, r.spec_emergency_withdraw(signer, now), now),
{
    let t = now as int;
    lemma_vested_bounds(
        r.deposited_total as int,
        r.start_time as int,
        r.end_time as int,
        r.cliff_time,
        t,
    );
    let e = r.settled_total(t);
    assert(e == r.vested_at(t));
    let end2 = r.settled_end(now);
    if end2 == r.end_time && t < r.end_time {
        if !before_vesting(r.start_time as int, r.cliff_time, t) {
            assert(t == r.start_time);
            assert(r.deposited_total * 0 == 0) by (nonlinear_arith);
            vstd::arithmetic::div_mod::lemma_div_basics_2(r.end_time - r.start_time);
        }
        assert(e == 0);
    }
    if r.spec_close(signer, now) is Ok {
        let r2 = r.spec_close(signer, now)->Ok_0.0;
        lemma_vested_bounds(
            r2.deposited_total as int,
            r2.start_time as int,
            r2.end_time as int,
            r2.cliff_time,
            t,
        );
    }
    if r.spec_emergency_withdraw(signer, now) is Ok {
        let r2 = r.spec_emergency_withdraw(signer, now)->Ok_0.0;
        lemma_vested_bounds(
            r2.deposited_total as int,
            r2.start_time as int,
            r2.end_time as int,
            r2.cliff_time,
            t,
        );
    }
}

/// Invariant preservation: from a well-formed record whose accounting holds
/// at `now`, each operation at `now` that succeeds keeps the record
/// well-formed, keeps `withdrawn_total <= vested(now) <= deposited_total`,
/// and moves funds in and out of escrow without creating or losing any.
pub proof fn lemma_operations_keep_invariant(r: StreamRecord, signer: u64, amount: u64, now: u64)
    requires
        r.wf(),
        r.accounted_at(now as int),
    ensures
        step_keeps_invariant(r, r.spec_top_up(signer, amount), now),
        step_keeps_invariant(r, r.spec_withdraw(signer, now), now),
        step_keeps_invariant(r, r.spec_close(signer, now), now),
        step_keeps_invariant(r, r.spec_emergency_withdraw(signer, now), now),
        step_keeps_invariant(r, r.spec_refresh_activity(signer, now), now),
{
    let t = now as int;
    lemma_vested_bounds(
        r.deposited_total as int,
        r.start_time as int,
        r.end_time as int,
        r.cliff_time,
        t,
    );
    if r.spec_top_up(signer, amount) is Ok {
        lemma_top_up_never_lowers_vesting(r, signer, amount, t);
    }
    lemma_settle_keeps_invariant(r, signer, now);
}

/// Idempotence: a withdrawal pays out the whole withdrawable amount, and a
/// second withdrawal at the same time pays nothing and changes nothing.
pub proof fn lemma_withdraw_idempotent(r: StreamRecord, signer: u64, now: u64)
    requires
        r.wf(),
        r.spec_withdraw(signer, now) is Ok,
    ensures
        ({
            let (r2, first) = r.spec_withdraw(signer, now)->Ok_0;
            &&& first.to_employee == r.withdrawable_at(now as int)
            &&& r2.spec_withdraw(signer, now) == Ok::<(StreamRecord, Transfers), StreamError>(
                (r2, no_transfers()),
            )
        }),
{
}

/// Terminality, first half: a successful close or emergency withdrawal
/// leaves the stream closed.
pub proof fn lemma_settling_closes(r: StreamRecord, signer: u64, now: u64)
    requires
        r.wf(),
    ensures
        r.spec_close(signer, now) is Ok ==> r.spec_close(signer, now)->Ok_0.0.status
            == StreamStatus::Closed,
        r.spec_emergency_withdraw(signer, now) is Ok ==> r.spec_emergency_withdraw(
            signer,
            now,
        )->Ok_0.0.status == StreamStatus::Closed,
{
}

/// Terminality, second half: on a closed stream every top-up, activity
/// refresh, close and emergency withdrawal fails with `StateError`, whoever
/// signs and whenever, and a withdrawal leaves it closed.
pub proof fn lemma_closed_is_terminal(r: StreamRecord, signer: u64, amount: u64, now: u64)
    requires
        r.status == StreamStatus::Closed,
    ensures
        r.spec_top_up(signer, amount) == Err::<(StreamRecord, Transfers), StreamError>(
            StreamError::StateError,
        ),
        r.spec_refresh_activity(signer, now) == Err::<(StreamRecord, Transfers), StreamError>(
            StreamError::StateError,
        ),
        r.spec_close(signer, now) == Err::<(StreamRecord, Transfers), StreamError>(
            StreamError::StateError,
        ),
        r.spec_emergency_withdraw(signer, now) == Err::<(StreamRecord, Transfers), StreamError>(
            StreamError::StateError,
        ),
        r.spec_withdraw(signer, now) is Ok ==> r.spec_withdraw(signer, now)->Ok_0.0.status
            == StreamStatus::Closed,
{
}

/// Every operation that succeeds on a well-formed record leaves it
/// well-formed and under the same identifier.
pub proof fn lemma_operations_preserve_shape(
    r: StreamRecord,
    signer: u64,
    now: u64,
    op: crate::ledger::StreamOperation,
)
    requires
        r.wf(),
    ensures
        crate::ledger::spec_record_step(r, signer, now, op) is Ok ==> {
            let r2 = crate::ledger::spec_record_step(r, signer, now, op)->Ok_0.0;
            r2.wf() && r2.id == r.id
        },
{
    let t = now as int;
    lemma_vested_bounds(
        r.deposited_total as int,
        r.start_time as int,
        r.end_time as int,
        r.cliff_time,
        t,
    );
    match op {
        crate::ledger::StreamOperation::TopUpStream { amount, .. } => {
            if r.spec_top_up(signer, amount) is Ok {
                lemma_top_up_never_lowers_vesting(r, signer, amount, t);
            }
        },
        crate::ledger::StreamOperation::CloseStream { .. } => {
            lemma_settled_schedule_wf(r, now);
        },
        crate::ledger::StreamOperation::EmployerEmergencyWithdraw { .. } => {
            lemma_settled_schedule_wf(r, now);
        },
        _ => {},
    }
}

proof fn lemma_settled_schedule_wf(r: StreamRecord, now: u64)
    requires
        r.wf(),
    ensures
        r.start_time < r.settled_end(now),
        r.cliff_time is Some ==> r.cliff_time->0 <= r.settled_end(now),
        r.withdrawn_total <= r.settled_total(now as int) <= r.deposited_total,
{
    lemma_vested_bounds(
        r.deposited_total as int,
        r.start_time as int,
        r.end_time as int,
        r.cliff_time,
        now as int,
    );
}

} // verus!
