use vstd::prelude::*;

use crate::error::StreamError;
use crate::vesting::{before_vesting, vested, vested_spec, vesting_overflows};

verus! {

/// Time, in ledger clock units, after the employee's last proof of life from
/// which the employer may reclaim the unvested remainder.
pub const INACTIVITY_THRESHOLD: u64 = 10000;

/// Lifecycle status of a stream; `Closed` is terminal.
#[derive(Clone, Copy, Debug, PartialEq, Eq, Structural)]
pub enum StreamStatus {
    Active,
    Closed,
}

/// Fund movements requested from the ledger runtime by one operation.
#[derive(Clone, Copy, Debug, PartialEq, Eq, Structural)]
pub struct Transfers {
    /// Moved from the employer's balance into the stream's escrow.
    pub into_escrow: u64,
    /// Paid from escrow to the employee.
    pub to_employee: u64,
    /// Returned from escrow to the employer.
    pub to_employer: u64,
}

/// The persisted state of one stream.
#[derive(Clone, Copy, Debug, PartialEq, Eq)]
pub struct StreamRecord {
    pub id: u64,
    pub employer: u64,
    pub employee: u64,
    /// Funds ever committed to the stream, less what the employer reclaimed.
    pub deposited_total: u64,
    /// Funds paid to the employee so far.
    pub withdrawn_total: u64,
    pub start_time: u64,
    pub end_time: u64,
    pub cliff_time: Option<u64>,
    pub status: StreamStatus,
    /// Time of the employee's last proof of life.
    pub last_activity_time: u64,
}

/// The transfers of an operation that moves no funds.
pub open spec fn no_transfers() -> Transfers {
    Transfers { into_escrow: 0, to_employee: 0, to_employer: 0 }
}

impl StreamRecord {
    /// Structural well-formedness, kept by every operation.
    pub open spec fn wf(self) -> bool {
        &&& self.employer != self.employee
        &&& self.start_time < self.end_time
        &&& (self.cliff_time is Some ==> self.start_time <= self.cliff_time->0 <= self.end_time)
        &&& self.withdrawn_total <= self.deposited_total
        &&& (self.status == StreamStatus::Active ==> self.deposited_total > 0)
    }

    pub open spec fn vested_at(self, t: int) -> int {
        vested_spec(
            self.deposited_total as int,
            self.start_time as int,
            self.end_time as int,
            self.cliff_time,
            t,
        )
    }

    pub open spec fn overflows_at(self, t: int) -> bool {
        vesting_overflows(
            self.deposited_total as int,
            self.start_time as int,
            self.end_time as int,
            self.cliff_time,
            t,
        )
    }

    /// Vested but not yet withdrawn at time `t` (never negative).
    pub open spec fn withdrawable_at(self, t: int) -> int {
        if self.vested_at(t) > self.withdrawn_total {
            self.vested_at(t) - self.withdrawn_total
        } else {
            0
        }
    }

    /// The accounting invariant at time `t`: what was paid out is covered by
    /// what has vested.
    pub open spec fn accounted_at(self, t: int) -> bool {
        self.withdrawn_total <= self.vested_at(t)
    }

    /// Funds still held in escrow for this stream.
    pub open spec fn escrow(self) -> int {
        self.deposited_total - self.withdrawn_total
    }

    /// The total that stays with the employee when the stream is settled at
    /// `t`: what has vested, or what was already paid if that is more.
    pub open spec fn settled_total(self, t: int) -> int {
        if self.vested_at(t) > self.withdrawn_total {
            self.vested_at(t)
        } else {
            self.withdrawn_total as int
        }
    }

    /// The end time after settling at `t`: the schedule is cut at `t` while
    /// vesting is under way, so that the settled amount is vested from then on.
    pub open spec fn settled_end(self, t: u64) -> u64 {
        if self.start_time < t && t < self.end_time && !before_vesting(
            self.start_time as int,
            self.cliff_time,
            t as int,
        ) {
            t
        } else {
            self.end_time
        }
    }

    /// Outcome of creating a stream.
    pub open spec fn spec_create(
        id: u64,
        employer: u64,
        employee: u64,
        deposited_total: u64,
        start_time: u64,
        end_time: u64,
        cliff_time: Option<u64>,
        now: u64,
    ) -> Result<StreamRecord, StreamError> {
        if end_time <= start_time || (cliff_time is Some && (cliff_time->0 < start_time
            || cliff_time->0 > end_time)) || employer == employee || deposited_total == 0 {
            Err(StreamError::ValidationError)
        } else {
            Ok(
                StreamRecord {
                    id,
                    employer,
                    employee,
                    deposited_total,
                    withdrawn_total: 0,
                    start_time,
                    end_time,
                    cliff_time,
                    status: StreamStatus::Active,
                    last_activity_time: now,
                },
            )
        }
    }

    /// The end time that keeps the vesting rate when the deposit grows to
    /// `new_total`: `start + new_total * span / deposited_total`, rounded down.
    pub open spec fn rate_preserving_span(self, new_total: int) -> int {
        new_total * (self.end_time - self.start_time) / (self.deposited_total as int)
    }

    /// Outcome of a top-up of `amount` signed by `signer`.
    pub open spec fn spec_top_up(self, signer: u64, amount: u64) -> Result<
        (StreamRecord, Transfers),
        StreamError,
    > {
        let new_total = self.deposited_total + amount;
        if self.status == StreamStatus::Closed {
            Err(StreamError::StateError)
        } else if signer != self.employer {
            Err(StreamError::AuthorizationError)
        } else if amount == 0 {
            Err(StreamError::ValidationError)
        } else if new_total > u64::MAX || new_total * (self.end_time - self.start_time)
            > u64::MAX || self.start_time + self.rate_preserving_span(new_total) > u64::MAX {
            Err(StreamError::ArithmeticError)
        } else {
            Ok(
                (
                    StreamRecord {
                        deposited_total: new_total as u64,
                        end_time: (self.start_time + self.rate_preserving_span(new_total)) as u64,
                        ..self
                    },
                    Transfers { into_escrow: amount, ..no_transfers() },
                ),
            )
        }
    }

    /// Outcome of a withdrawal at `now` signed by `signer`.
    pub open spec fn spec_withdraw(self, signer: u64, now: u64) -> Result<
        (StreamRecord, Transfers),
        StreamError,
    > {
        let w = self.withdrawable_at(now as int);
        if signer != self.employee {
            Err(StreamError::AuthorizationError)
        } else if self.overflows_at(now as int) {
            Err(StreamError::ArithmeticError)
        } else if w == 0 {
            Ok((self, no_transfers()))
        } else {
            Ok(
                (
                    StreamRecord {
                        withdrawn_total: (self.withdrawn_total + w) as u64,
                        last_activity_time: now,
                        ..self
                    },
                    Transfers { to_employee: w as u64, ..no_transfers() },
                ),
            )
        }
    }

    /// Outcome of closing the stream at `now`, signed by `signer`.
    pub open spec fn spec_close(self, signer: u64, now: u64) -> Result<
        (StreamRecord, Transfers),
        StreamError,
    > {
        let e = self.settled_total(now as int);
        if self.status == StreamStatus::Closed {
            Err(StreamError::StateError)
        } else if signer != self.employer && signer != self.employee {
            Err(StreamError::AuthorizationError)
        } else if self.overflows_at(now as int) {
            Err(StreamError::ArithmeticError)
        } else {
            Ok(
                (
                    StreamRecord {
                        deposited_total: e as u64,
                        withdrawn_total: e as u64,
                        end_time: self.settled_end(now),
                        status: StreamStatus::Closed,
                        ..self
                    },
                    Transfers {
                        into_escrow: 0,
                        to_employee: (e - self.withdrawn_total) as u64,
                        to_employer: (self.deposited_total - e) as u64,
                    },
                ),
            )
        }
    }

    /// Outcome of the employer's emergency withdrawal at `now`.
    pub open spec fn spec_emergency_withdraw(self, signer: u64, now: u64) -> Result<
        (StreamRecord, Transfers),
        StreamError,
    > {
        let e = self.settled_total(now as int);
        if self.status == StreamStatus::Closed {
            Err(StreamError::StateError)
        } else if signer != self.employer {
            Err(StreamError::AuthorizationError)
        } else if now - self.last_activity_time < INACTIVITY_THRESHOLD {
            Err(StreamError::InactivityNotMet)
        } else if self.overflows_at(now as int) {
            Err(StreamError::ArithmeticError)
        } else {
            Ok(
                (
                    StreamRecord {
                        deposited_total: e as u64,
                        end_time: self.settled_end(now),
                        status: StreamStatus::Closed,
                        ..self
                    },
                    Transfers { to_employer: (self.deposited_total - e) as u64, ..no_transfers() },
                ),
            )
        }
    }

    /// Outcome of the employee's proof of life at `now`.
    pub open spec fn spec_refresh_activity(self, signer: u64, now: u64) -> Result<
        (StreamRecord, Transfers),
        StreamError,
    > {
        if self.status == StreamStatus::Closed {
            Err(StreamError::StateError)
        } else if signer != self.employee {
            Err(StreamError::AuthorizationError)
        } else {
            Ok((StreamRecord { last_activity_time: now, ..self }, no_transfers()))
        }
    }
}

/// The outcome an executable operation reports, given the outcome its spec
/// transition prescribes: on success the new record and the transfers, on
/// failure the same error with the record untouched.
pub open spec fn reports(
    spec_outcome: Result<(StreamRecord, Transfers), StreamError>,
    before: StreamRecord,
    after: StreamRecord,
    r: Result<Transfers, StreamError>,
) -> bool {
    match r {
        Ok(t) => spec_outcome == Ok::<(StreamRecord, Transfers), StreamError>((after, t)),
        Err(e) => spec_outcome == Err::<(StreamRecord, Transfers), StreamError>(e) && after
            == before,
    }
}

impl StreamRecord {
    /// Creates an active stream funded with `deposited_total`, whose activity
    /// clock starts at `now`.
    pub fn create_stream(
        id: u64,
        employer: u64,
        employee: u64,
        deposited_total: u64,
        start_time: u64,
        end_time: u64,
        cliff_time: Option<u64>,
        now: u64,
    ) -> (r: Result<StreamRecord, StreamError>)
        ensures
            r == StreamRecord::spec_create(
                id,
                employer,
                employee,
                deposited_total,
                start_time,
                end_time,
                cliff_time,
                now,
            ),
            r is Ok ==> r->Ok_0.wf() && r->Ok_0.accounted_at(now as int),
    {
        if end_time <= start_time {
            return Err(StreamError::ValidationError);
        }
        match cliff_time {
            Some(c) => {
                if c < start_time || c > end_time {
                    return Err(StreamError::ValidationError);
                }
            },
            None => {},
        }
        if employer == employee || deposited_total == 0 {
            return Err(StreamError::ValidationError);
        }
        let record = StreamRecord {
            id,
            employer,
            employee,
            deposited_total,
            withdrawn_total: 0,
            start_time,
            end_time,
            cliff_time,
            status: StreamStatus::Active,
            last_activity_time: now,
        };
        proof {
            crate::vesting::lemma_vested_bounds(
                deposited_total as int,
                start_time as int,
                end_time as int,
                cliff_time,
                now as int,
            );
        }
        Ok(record)
    }

    /// The amount vested at `now`.
    pub fn vested_at_time(&self, now: u64) -> (r: Result<u64, StreamError>)
        requires
            self.wf(),
        ensures
            self.overflows_at(now as int) ==> r == Err::<u64, StreamError>(
                StreamError::ArithmeticError,
            ),
            !self.overflows_at(now as int) ==> r is Ok && r->Ok_0 == self.vested_at(now as int),
    {
        vested(self.deposited_total, self.start_time, self.end_time, self.cliff_time, now)
    }

    /// The amount the employee could withdraw at `now`.
    pub fn withdrawable(&self, now: u64) -> (r: Result<u64, StreamError>)
        requires
            self.wf(),
        ensures
            self.overflows_at(now as int) ==> r == Err::<u64, StreamError>(
                StreamError::ArithmeticError,
            ),
            !self.overflows_at(now as int) ==> r is Ok && r->Ok_0 == self.withdrawable_at(
                now as int,
            ),
    {
        let v = self.vested_at_time(now)?;
        if v > self.withdrawn_total {
            Ok(v - self.withdrawn_total)
        } else {
            Ok(0)
        }
    }

    /// Adds `amount` to the deposit and extends the end time so that the
    /// vesting rate stays as it was.
    pub fn top_up(&mut self, signer: u64, amount: u64) -> (r: Result<Transfers, StreamError>)
        requires
            old(self).wf(),
        ensures
            reports(old(self).spec_top_up(signer, amount), *old(self), *final(self), r),
    {
        if self.status == StreamStatus::Closed {
            return Err(StreamError::StateError);
        }
        if signer != self.employer {
            return Err(StreamError::AuthorizationError);
        }
        if amount == 0 {
            return Err(StreamError::ValidationError);
        }
        let span = self.end_time - self.start_time;
        let new_total = match self.deposited_total.checked_add(amount) {
            Some(n) => n,
            None => return Err(StreamError::ArithmeticError),
        };
        let scaled = match new_total.checked_mul(span) {
            Some(n) => n,
            None => return Err(StreamError::ArithmeticError),
        };
        let new_end = match self.start_time.checked_add(scaled / self.deposited_total) {
            Some(n) => n,
            None => return Err(StreamError::ArithmeticError),
        };
        self.deposited_total = new_total;
        self.end_time = new_end;
        Ok(Transfers { into_escrow: amount, to_employee: 0, to_employer: 0 })
    }

    /// Pays the employee everything vested and not yet withdrawn at `now`.
    pub fn withdraw(&mut self, signer: u64, now: u64) -> (r: Result<Transfers, StreamError>)
        requires
            old(self).wf(),
        ensures
            reports(old(self).spec_withdraw(signer, now), *old(self), *final(self), r),
    {
        if signer != self.employee {
            return Err(StreamError::AuthorizationError);
        }
        let w = self.withdrawable(now)?;
        if w == 0 {
            return Ok(Transfers { into_escrow: 0, to_employee: 0, to_employer: 0 });
        }
        proof {
            crate::vesting::lemma_vested_bounds(
                self.deposited_total as int,
                self.start_time as int,
                self.end_time as int,
                self.cliff_time,
                now as int,
            );
        }
        self.withdrawn_total = self.withdrawn_total + w;
        self.last_activity_time = now;
        Ok(Transfers { into_escrow: 0, to_employee: w, to_employer: 0 })
    }

    /// Settles the stream at `now`: computes what stays with the employee and
    /// the end time that freezes the schedule, without changing the record.
    fn settle(&self, now: u64) -> (r: Result<(u64, u64), StreamError>)
        requires
            self.wf(),
        ensures
            self.overflows_at(now as int) ==> r == Err::<(u64, u64), StreamError>(
                StreamError::ArithmeticError,
            ),
            !self.overflows_at(now as int) ==> r is Ok && r->Ok_0.0 == self.settled_total(
                now as int,
            ) && r->Ok_0.1 == self.settled_end(now),
    {
        let v = self.vested_at_time(now)?;
        let kept = if v > self.withdrawn_total {
            v
        } else {
            self.withdrawn_total
        };
        let vesting_started = match self.cliff_time {
            Some(c) => now >= c,
            None => true,
        };
        let end = if self.start_time < now && now < self.end_time && vesting_started {
            now
        } else {
            self.end_time
        };
        Ok((kept, end))
    }

    /// Closes the stream at `now`: pays the employee what has vested and
    /// returns the unvested remainder to the employer.
    pub fn close_stream(&mut self, signer: u64, now: u64) -> (r: Result<Transfers, StreamError>)
        requires
            old(self).wf(),
        ensures
            reports(old(self).spec_close(signer, now), *old(self), *final(self), r),
    {
        if self.status == StreamStatus::Closed {
            return Err(StreamError::StateError);
        }
        if signer != self.employer && signer != self.employee {
            return Err(StreamError::AuthorizationError);
        }
        let (kept, end) = self.settle(now)?;
        proof {
            crate::vesting::lemma_vested_bounds(
                self.deposited_total as int,
                self.start_time as int,
                self.end_time as int,
                self.cliff_time,
                now as int,
            );
        }
        let transfers = Transfers {
            into_escrow: 0,
            to_employee: kept - self.withdrawn_total,
            to_employer: self.deposited_total - kept,
        };
        self.deposited_total = kept;
        self.withdrawn_total = kept;
        self.end_time = end;
        self.status = StreamStatus::Closed;
        Ok(transfers)
    }

    /// The employer reclaims the unvested remainder of a stream whose
    /// employee has been inactive for at least `INACTIVITY_THRESHOLD`; what
    /// has vested stays claimable by the employee.
    pub fn employer_emergency_withdraw(&mut self, signer: u64, now: u64) -> (r: Result<
        Transfers,
        StreamError,
    >)
        requires
            old(self).wf(),
        ensures
            reports(old(self).spec_emergency_withdraw(signer, now), *old(self), *final(self), r),
    {
        if self.status == StreamStatus::Closed {
            return Err(StreamError::StateError);
        }
        if signer != self.employer {
            return Err(StreamError::AuthorizationError);
        }
        if now < self.last_activity_time || now - self.last_activity_time < INACTIVITY_THRESHOLD {
            return Err(StreamError::InactivityNotMet);
        }
        let (kept, end) = self.settle(now)?;
        proof {
            crate::vesting::lemma_vested_bounds(
                self.deposited_total as int,
                self.start_time as int,
                self.end_time as int,
                self.cliff_time,
                now as int,
            );
        }
        let transfers = Transfers {
            into_escrow: 0,
            to_employee: 0,
            to_employer: self.deposited_total - kept,
        };
        self.deposited_total = kept;
        self.end_time = end;
        self.status = StreamStatus::Closed;
        Ok(transfers)
    }

    /// Records the employee's proof of life at `now`.
    pub fn refresh_activity(&mut self, signer: u64, now: u64) -> (r: Result<
        Transfers,
        StreamError,
    >)
        requires
            old(self).wf(),
        ensures
            reports(old(self).spec_refresh_activity(signer, now), *old(self), *final(self), r),
    {
        if self.status == StreamStatus::Closed {
            return Err(StreamError::StateError);
        }
        if signer != self.employee {
            return Err(StreamError::AuthorizationError);
        }
        self.last_activity_time = now;
        Ok(Transfers { into_escrow: 0, to_employee: 0, to_employer: 0 })
    }
}

} // verus!
