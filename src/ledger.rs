use vstd::prelude::*;

use crate::error::StreamError;
use crate::stream::{StreamRecord, Transfers};

verus! {

/// One request against the store of streams; every variant but creation
/// names the stream it acts on.
#[derive(Clone, Copy, Debug, PartialEq, Eq)]
pub enum StreamOperation {
    CreateStream {
        employee: u64,
        deposited_total: u64,
        start_time: u64,
        end_time: u64,
        cliff_time: Option<u64>,
    },
    TopUpStream { stream_id: u64, amount: u64 },
    Withdraw { stream_id: u64 },
    CloseStream { stream_id: u64 },
    EmployerEmergencyWithdraw { stream_id: u64 },
    RefreshActivity { stream_id: u64 },
}

/// What a successful operation reports: the stream it acted on and the
/// fund movements the ledger runtime must carry out with it.
#[derive(Clone, Copy, Debug, PartialEq, Eq, Structural)]
pub struct Receipt {
    pub stream_id: u64,
    pub transfers: Transfers,
}

/// The stream records, each stored under its identifier, which is its
/// position in the store.
pub struct StreamLedger {
    streams: Vec<StreamRecord>,
}

/// Outcome of an operation on an existing stream record.
pub open spec fn spec_record_step(r: StreamRecord, signer: u64, now: u64, op: StreamOperation) -> Result<
    (StreamRecord, Transfers),
    StreamError,
> {
    match op {
        StreamOperation::TopUpStream { amount, .. } => r.spec_top_up(signer, amount),
        StreamOperation::Withdraw { .. } => r.spec_withdraw(signer, now),
        StreamOperation::CloseStream { .. } => r.spec_close(signer, now),
        StreamOperation::EmployerEmergencyWithdraw { .. } => r.spec_emergency_withdraw(
            signer,
            now,
        ),
        StreamOperation::RefreshActivity { .. } => r.spec_refresh_activity(signer, now),
        StreamOperation::CreateStream { .. } => Err(StreamError::ValidationError),
    }
}

/// The stream an operation on an existing stream names.
pub open spec fn target(op: StreamOperation) -> u64 {
    match op {
        StreamOperation::TopUpStream { stream_id, .. } => stream_id,
        StreamOperation::Withdraw { stream_id } => stream_id,
        StreamOperation::CloseStream { stream_id } => stream_id,
        StreamOperation::EmployerEmergencyWithdraw { stream_id } => stream_id,
        StreamOperation::RefreshActivity { stream_id } => stream_id,
        StreamOperation::CreateStream { .. } => 0,
    }
}

/// Outcome of `op`, signed by `signer` at `now`, on the store `streams`.
pub open spec fn spec_execute(
    streams: Seq<StreamRecord>,
    signer: u64,
    now: u64,
    op: StreamOperation,
) -> Result<(Seq<StreamRecord>, Receipt), StreamError> {
    match op {
        StreamOperation::CreateStream {
            employee,
            deposited_total,
            start_time,
            end_time,
            cliff_time,
        } => {
            if streams.len() >= u64::MAX {
                Err(StreamError::ArithmeticError)
            } else {
                match StreamRecord::spec_create(
                    streams.len() as u64,
                    signer,
                    employee,
                    deposited_total,
                    start_time,
                    end_time,
                    cliff_time,
                    now,
                ) {
                    Ok(rec) => Ok(
                        (
                            streams.push(rec),
                            Receipt {
                                stream_id: streams.len() as u64,
                                transfers: Transfers {
                                    into_escrow: deposited_total,
                                    to_employee: 0,
                                    to_employer: 0,
                                },
                            },
                        ),
                    ),
                    Err(e) => Err(e),
                }
            }
        },
        _ => {
            let id = target(op);
            if id >= streams.len() {
                Err(StreamError::UnknownStream)
            } else {
                match spec_record_step(streams[id as int], signer, now, op) {
                    Ok((r2, tr)) => Ok(
                        (streams.update(id as int, r2), Receipt { stream_id: id, transfers: tr }),
                    ),
                    Err(e) => Err(e),
                }
            }
        },
    }
}

impl View for StreamLedger {
    type V = Seq<StreamRecord>;

    closed spec fn view(&self) -> Seq<StreamRecord> {
        self.streams@
    }
}

impl StreamLedger {
    /// Every record is well-formed and stored under its own identifier.
    pub open spec fn wf(&self) -> bool {
        forall|i: int| 0 <= i < self@.len() ==> #[trigger] self@[i].wf() && self@[i].id == i
    }

    /// An empty store.
    pub fn new() -> (r: StreamLedger)
        ensures
            r@ == Seq::<StreamRecord>::empty(),
            r.wf(),
    {
        StreamLedger { streams: Vec::new() }
    }

    /// Number of streams ever created.
    pub fn len(&self) -> (r: usize)
        ensures
            r == self@.len(),
    {
        self.streams.len()
    }

    /// A copy of the record stored under `stream_id`, if there is one.
    pub fn get(&self, stream_id: u64) -> (r: Option<StreamRecord>)
        ensures
            stream_id < self@.len() ==> r == Some(self@[stream_id as int]),
            stream_id >= self@.len() ==> r is None,
    {
        if (stream_id as u128) < (self.streams.len() as u128) {
            Some(self.streams[stream_id as usize])
        } else {
            None
        }
    }

    /// Applies `op`, signed by `signer` at `now`. On failure the store is
    /// left exactly as it was.
    pub fn execute(&mut self, signer: u64, now: u64, op: StreamOperation) -> (r: Result<
        Receipt,
        StreamError,
    >)
        requires
            old(self).wf(),
        ensures
            final(self).wf(),
            r is Ok ==> spec_execute(old(self)@, signer, now, op) == Ok::<
                (Seq<StreamRecord>, Receipt),
                StreamError,
            >((final(self)@, r->Ok_0)),
            r is Err ==> spec_execute(old(self)@, signer, now, op) == Err::<
                (Seq<StreamRecord>, Receipt),
                StreamError,
            >(r->Err_0) && final(self)@ == old(self)@,
    {
        let len = self.streams.len();
        match op {
            StreamOperation::CreateStream {
                employee,
                deposited_total,
                start_time,
                end_time,
                cliff_time,
            } => {
                if len as u128 >= u64::MAX as u128 {
                    return Err(StreamError::ArithmeticError);
                }
                let id = len as u64;
                let rec = StreamRecord::create_stream(
                    id,
                    signer,
                    employee,
                    deposited_total,
                    start_time,
                    end_time,
                    cliff_time,
                    now,
                )?;
                self.streams.push(rec);
                Ok(
                    Receipt {
                        stream_id: id,
                        transfers: Transfers {
                            into_escrow: deposited_total,
                            to_employee: 0,
                            to_employer: 0,
                        },
                    },
                )
            },
            _ => {
                let id = match op {
                    StreamOperation::TopUpStream { stream_id, .. } => stream_id,
                    StreamOperation::Withdraw { stream_id } => stream_id,
                    StreamOperation::CloseStream { stream_id } => stream_id,
                    StreamOperation::EmployerEmergencyWithdraw { stream_id } => stream_id,
                    StreamOperation::RefreshActivity { stream_id } => stream_id,
                    StreamOperation::CreateStream { .. } => 0,
                };
                if id as u128 >= len as u128 {
                    return Err(StreamError::UnknownStream);
                }
                let mut rec = self.streams[id as usize];
                let ghost before = rec;
                let transfers = match op {
                    StreamOperation::TopUpStream { amount, .. } => rec.top_up(signer, amount),
                    StreamOperation::Withdraw { .. } => rec.withdraw(signer, now),
                    StreamOperation::CloseStream { .. } => rec.close_stream(signer, now),
                    StreamOperation::EmployerEmergencyWithdraw { .. } => {
                        rec.employer_emergency_withdraw(signer, now)
                    },
                    StreamOperation::RefreshActivity { .. } => rec.refresh_activity(signer, now),
                    StreamOperation::CreateStream { .. } => Err(StreamError::ValidationError),
                }?;
                proof {
                    crate::laws::lemma_operations_preserve_shape(before, signer, now, op);
                    assert(spec_record_step(before, signer, now, op) == Ok::<
                        (StreamRecord, Transfers),
                        StreamError,
                    >((rec, transfers)));
                }
                self.streams.set(id as usize, rec);
                proof {
                    assert forall|i: int| 0 <= i < self@.len() implies #[trigger] self@[i].wf()
                        && self@[i].id == i by {
                        assert(old(self)@[i].wf());
                        if i != id as int {
                            assert(self@[i] == old(self)@[i]);
                        } else {
                            assert(old(self)@[i].wf());
                        }
                    }
                }
                Ok(Receipt { stream_id: id, transfers })
            },
        }
    }
}

} // verus!
