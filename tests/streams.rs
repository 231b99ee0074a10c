use cascade::error::StreamError;
use cascade::ledger::{Receipt, StreamLedger, StreamOperation};
use cascade::stream::{StreamRecord, StreamStatus, Transfers, INACTIVITY_THRESHOLD};
use cascade::vesting::vested;

const EMPLOYER: u64 = 1;
const EMPLOYEE: u64 = 2;
const STRANGER: u64 = 3;

fn stream(deposit: u64, start: u64, end: u64, cliff: Option<u64>, now: u64) -> StreamRecord {
    StreamRecord::create_stream(7, EMPLOYER, EMPLOYEE, deposit, start, end, cliff, now).unwrap()
}

fn paid(to_employee: u64, to_employer: u64) -> Transfers {
    Transfers { into_escrow: 0, to_employee, to_employer }
}

#[test]
fn linear_stream_pays_half_then_rest() {
    let mut s = stream(1000, 0, 1000, None, 0);
    assert_eq!(s.vested_at_time(500), Ok(500));
    assert_eq!(s.withdraw(EMPLOYEE, 500), Ok(paid(500, 0)));
    assert_eq!(s.withdrawn_total, 500);
    assert_eq!(s.last_activity_time, 500);
    assert_eq!(s.withdraw(EMPLOYEE, 1000), Ok(paid(500, 0)));
    assert_eq!(s.withdrawn_total, 1000);
}

#[test]
fn refresh_delays_emergency_withdraw() {
    assert_eq!(INACTIVITY_THRESHOLD, 10000);
    let mut s = stream(100000, 0, 100000, None, 0);
    assert_eq!(s.refresh_activity(EMPLOYEE, 100), Ok(paid(0, 0)));
    assert_eq!(s.last_activity_time, 100);
    let before = s;
    assert_eq!(s.employer_emergency_withdraw(EMPLOYER, 10099), Err(StreamError::InactivityNotMet));
    assert_eq!(s, before);
    assert_eq!(s.employer_emergency_withdraw(EMPLOYER, 10100), Ok(paid(0, 100000 - 10100)));
    assert_eq!(s.status, StreamStatus::Closed);
    assert_eq!(s.deposited_total, 10100);
    // what had vested stays claimable by the employee
    assert_eq!(s.withdraw(EMPLOYEE, 10100), Ok(paid(10100, 0)));
    assert_eq!(s.withdraw(EMPLOYEE, 50000), Ok(paid(0, 0)));
}

#[test]
fn create_with_bad_schedule_is_rejected_before_escrow() {
    let r = StreamRecord::create_stream(0, EMPLOYER, EMPLOYEE, 1000, 500, 500, None, 0);
    assert_eq!(r, Err(StreamError::ValidationError));
    let r = StreamRecord::create_stream(0, EMPLOYER, EMPLOYEE, 1000, 600, 500, None, 0);
    assert_eq!(r, Err(StreamError::ValidationError));
    let mut ledger = StreamLedger::new();
    let op = StreamOperation::CreateStream {
        employee: EMPLOYEE,
        deposited_total: 1000,
        start_time: 500,
        end_time: 400,
        cliff_time: None,
    };
    assert_eq!(ledger.execute(EMPLOYER, 0, op), Err(StreamError::ValidationError));
    assert_eq!(ledger.len(), 0);
}

#[test]
fn create_validates_parties_amount_and_cliff() {
    let same = StreamRecord::create_stream(0, EMPLOYER, EMPLOYER, 1000, 0, 10, None, 0);
    assert_eq!(same, Err(StreamError::ValidationError));
    let zero = StreamRecord::create_stream(0, EMPLOYER, EMPLOYEE, 0, 0, 10, None, 0);
    assert_eq!(zero, Err(StreamError::ValidationError));
    let early = StreamRecord::create_stream(0, EMPLOYER, EMPLOYEE, 10, 5, 10, Some(4), 0);
    assert_eq!(early, Err(StreamError::ValidationError));
    let late = StreamRecord::create_stream(0, EMPLOYER, EMPLOYEE, 10, 5, 10, Some(11), 0);
    assert_eq!(late, Err(StreamError::ValidationError));
    let s = stream(10, 5, 10, Some(10), 3);
    assert_eq!(s.status, StreamStatus::Active);
    assert_eq!(s.withdrawn_total, 0);
    assert_eq!(s.last_activity_time, 3);
    assert_eq!(s.id, 7);
}

#[test]
fn vesting_formula_rounds_down() {
    assert_eq!(vested(1000, 0, 3, None, 1), Ok(333));
    assert_eq!(vested(1000, 0, 3, None, 2), Ok(666));
    assert_eq!(vested(7, 10, 20, None, 15), Ok(3));
    assert_eq!(vested(7, 10, 20, None, 9), Ok(0));
    assert_eq!(vested(7, 10, 20, None, 25), Ok(7));
}

#[test]
fn vesting_is_monotonic_in_time() {
    let mut last = 0;
    for t in 0..130u64 {
        let v = vested(997, 10, 120, Some(30), t).unwrap();
        assert!(v >= last);
        assert!(v <= 997);
        last = v;
    }
}

#[test]
fn vesting_boundaries_and_cliff() {
    assert_eq!(vested(1000, 100, 200, None, 100), Ok(0));
    assert_eq!(vested(1000, 100, 200, None, 200), Ok(1000));
    assert_eq!(vested(1000, 100, 200, Some(150), 149), Ok(0));
    assert_eq!(vested(1000, 100, 200, Some(150), 150), Ok(500));
}

#[test]
fn vesting_overflow_is_an_error() {
    assert_eq!(vested(u64::MAX, 0, 10, None, 5), Err(StreamError::ArithmeticError));
    assert_eq!(vested(u64::MAX, 0, 10, None, 10), Ok(u64::MAX));
    assert_eq!(vested(u64::MAX, 0, 10, None, 0), Ok(0));
}

#[test]
fn second_withdraw_at_same_time_pays_nothing() {
    let mut s = stream(1000, 0, 1000, None, 0);
    assert_eq!(s.withdrawable(300), Ok(300));
    assert_eq!(s.withdraw(EMPLOYEE, 300), Ok(paid(300, 0)));
    let after_first = s;
    assert_eq!(s.withdraw(EMPLOYEE, 300), Ok(paid(0, 0)));
    assert_eq!(s, after_first);
}

#[test]
fn top_up_keeps_rate_and_vested_amounts() {
    let mut s = stream(1000, 0, 1000, None, 0);
    assert_eq!(s.withdraw(EMPLOYEE, 400), Ok(paid(400, 0)));
    let before = s;
    let r = s.top_up(EMPLOYER, 500);
    assert_eq!(r, Ok(Transfers { into_escrow: 500, to_employee: 0, to_employer: 0 }));
    assert_eq!(s.deposited_total, 1500);
    assert_eq!(s.end_time, 1500);
    for t in [0u64, 1, 250, 400, 999, 1000] {
        assert_eq!(s.vested_at_time(t), before.vested_at_time(t));
    }
    assert_eq!(s.vested_at_time(1200), Ok(1200));
    assert_eq!(s.withdraw(EMPLOYEE, 1500), Ok(paid(1100, 0)));
}

#[test]
fn top_up_rounds_end_time_down() {
    let mut s = stream(3, 0, 10, None, 0);
    assert_eq!(s.top_up(EMPLOYER, 1).map(|t| t.into_escrow), Ok(1));
    // 4 * 10 / 3 = 13
    assert_eq!(s.end_time, 13);
    assert!(s.vested_at_time(6).unwrap() >= 1);
}

#[test]
fn top_up_errors() {
    let mut s = stream(1000, 0, 1000, None, 0);
    let before = s;
    assert_eq!(s.top_up(EMPLOYEE, 10), Err(StreamError::AuthorizationError));
    assert_eq!(s.top_up(EMPLOYER, 0), Err(StreamError::ValidationError));
    assert_eq!(s.top_up(EMPLOYER, u64::MAX), Err(StreamError::ArithmeticError));
    assert_eq!(s, before);
}

#[test]
fn closed_stream_rejects_top_up_and_refresh() {
    let mut s = stream(1000, 0, 1000, None, 0);
    assert_eq!(s.close_stream(EMPLOYEE, 250), Ok(paid(250, 750)));
    assert_eq!(s.status, StreamStatus::Closed);
    assert_eq!(s.top_up(EMPLOYER, 10), Err(StreamError::StateError));
    assert_eq!(s.refresh_activity(EMPLOYEE, 300), Err(StreamError::StateError));
    assert_eq!(s.top_up(STRANGER, 10), Err(StreamError::StateError));
    assert_eq!(s.close_stream(EMPLOYER, 300), Err(StreamError::StateError));
    assert_eq!(s.employer_emergency_withdraw(EMPLOYER, 50000), Err(StreamError::StateError));
    assert_eq!(s.withdraw(EMPLOYEE, 900), Ok(paid(0, 0)));

    let mut e = stream(1000, 0, 1000, None, 0);
    assert_eq!(e.employer_emergency_withdraw(EMPLOYER, 20000), Ok(paid(0, 0)));
    assert_eq!(e.top_up(EMPLOYER, 10), Err(StreamError::StateError));
    assert_eq!(e.refresh_activity(EMPLOYEE, 20001), Err(StreamError::StateError));
    assert_eq!(e.withdraw(EMPLOYEE, 20001), Ok(paid(1000, 0)));
}

#[test]
fn close_after_partial_withdraw_conserves_funds() {
    let mut s = stream(1000, 0, 1000, Some(100), 0);
    assert_eq!(s.withdraw(EMPLOYEE, 300), Ok(paid(300, 0)));
    assert_eq!(s.close_stream(EMPLOYER, 600), Ok(paid(300, 400)));
    assert_eq!(s.deposited_total, 600);
    assert_eq!(s.withdrawn_total, 600);
    assert_eq!(s.end_time, 600);

    let mut c = stream(1000, 0, 1000, Some(100), 0);
    assert_eq!(c.close_stream(EMPLOYER, 50), Ok(paid(0, 1000)));
    assert_eq!(c.deposited_total, 0);
}

#[test]
fn authorization_errors() {
    let mut s = stream(1000, 0, 1000, None, 0);
    let before = s;
    assert_eq!(s.withdraw(EMPLOYER, 500), Err(StreamError::AuthorizationError));
    assert_eq!(s.refresh_activity(EMPLOYER, 500), Err(StreamError::AuthorizationError));
    assert_eq!(s.close_stream(STRANGER, 500), Err(StreamError::AuthorizationError));
    assert_eq!(
        s.employer_emergency_withdraw(EMPLOYEE, 50000),
        Err(StreamError::AuthorizationError)
    );
    assert_eq!(s, before);
}

#[test]
fn withdraw_overflow_is_an_error() {
    let mut s = stream(u64::MAX, 0, 10, None, 0);
    assert_eq!(s.withdraw(EMPLOYEE, 5), Err(StreamError::ArithmeticError));
    assert_eq!(s.withdrawn_total, 0);
    assert_eq!(s.withdraw(EMPLOYEE, 10), Ok(paid(u64::MAX, 0)));
}

#[test]
fn accounting_holds_across_operations() {
    let mut s = stream(5000, 100, 1100, Some(300), 0);
    let mut escrow: u64 = 5000;
    let mut now = 0;
    for step in 0..40u64 {
        now += 37;
        let r = match step % 4 {
            0 => s.withdraw(EMPLOYEE, now),
            1 => s.top_up(EMPLOYER, 13),
            2 => s.refresh_activity(EMPLOYEE, now),
            _ => s.withdraw(EMPLOYEE, now),
        };
        let t = r.unwrap();
        escrow = escrow + t.into_escrow - t.to_employee - t.to_employer;
        assert_eq!(escrow, s.deposited_total - s.withdrawn_total);
        let v = s.vested_at_time(now).unwrap();
        assert!(s.withdrawn_total <= v && v <= s.deposited_total);
    }
}

#[test]
fn ledger_dispatches_operations() {
    let mut ledger = StreamLedger::new();
    let create = StreamOperation::CreateStream {
        employee: EMPLOYEE,
        deposited_total: 1000,
        start_time: 0,
        end_time: 1000,
        cliff_time: None,
    };
    let receipt = ledger.execute(EMPLOYER, 0, create);
    let funded = Transfers { into_escrow: 1000, to_employee: 0, to_employer: 0 };
    assert_eq!(receipt, Ok(Receipt { stream_id: 0, transfers: funded }));
    assert_eq!(ledger.execute(EMPLOYER, 0, create).map(|r| r.stream_id), Ok(1));
    assert_eq!(ledger.len(), 2);

    let w = ledger.execute(EMPLOYEE, 500, StreamOperation::Withdraw { stream_id: 1 });
    assert_eq!(w, Ok(Receipt { stream_id: 1, transfers: paid(500, 0) }));
    assert_eq!(ledger.get(1).unwrap().withdrawn_total, 500);
    assert_eq!(ledger.get(0).unwrap().withdrawn_total, 0);

    let missing = StreamOperation::RefreshActivity { stream_id: 9 };
    assert_eq!(ledger.execute(EMPLOYEE, 1, missing), Err(StreamError::UnknownStream));
    assert_eq!(ledger.get(9), None);

    let top = StreamOperation::TopUpStream { stream_id: 0, amount: 1000 };
    let r = ledger.execute(EMPLOYER, 600, top).unwrap();
    assert_eq!(r.transfers.into_escrow, 1000);
    assert_eq!(ledger.get(0).unwrap().end_time, 2000);

    let close = StreamOperation::CloseStream { stream_id: 0 };
    let r = ledger.execute(EMPLOYEE, 700, close).unwrap();
    assert_eq!(r.transfers, paid(700, 1300));
    let refresh = StreamOperation::RefreshActivity { stream_id: 0 };
    assert_eq!(ledger.execute(EMPLOYEE, 800, refresh), Err(StreamError::StateError));

    let emergency = StreamOperation::EmployerEmergencyWithdraw { stream_id: 1 };
    assert_eq!(ledger.execute(EMPLOYER, 600, emergency), Err(StreamError::InactivityNotMet));
    let r = ledger.execute(EMPLOYER, 10500, emergency).unwrap();
    assert_eq!(r.transfers, paid(0, 0));
    assert_eq!(ledger.get(1).unwrap().status, StreamStatus::Closed);
}
