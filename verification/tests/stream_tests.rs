//! Scenario tests for the stream ledger: accrual arithmetic, the lifecycle
//! state machine, withdrawal bounds, and per-party authorization.

use streampay::stream::{AmountText, StreamError, StreamOperation, StreamResponse, StreamStatus};
use streampay::stream_ledger::StreamState;

const SEC: u64 = 1_000_000;

const SENDER: u64 = 1;
const RECIPIENT: u64 = 2;
const STRANGER: u64 = 99;

fn ledger_with_stream(rate: u128, start: u64) -> StreamState {
    let mut st = StreamState::new();
    let r = st.create_stream(Some(SENDER), RECIPIENT, AmountText::Value(rate), None, start);
    assert_eq!(r, Ok(1));
    st
}

#[test]
fn create_assigns_sequential_ids_and_indexes() {
    let mut st = StreamState::new();
    assert_eq!(
        st.create_stream(Some(SENDER), RECIPIENT, AmountText::Value(5), None, SEC),
        Ok(1)
    );
    assert_eq!(
        st.create_stream(Some(SENDER), 3, AmountText::Value(7), None, 2 * SEC),
        Ok(2)
    );
    assert_eq!(st.next_stream_id, 3);

    let by_sender = st.streams_by_sender(SENDER);
    assert_eq!(by_sender.len(), 2);
    assert_eq!(by_sender[0].id, 1);
    assert_eq!(by_sender[1].id, 2);

    let by_recipient = st.streams_by_recipient(RECIPIENT);
    assert_eq!(by_recipient.len(), 1);
    assert_eq!(by_recipient[0].id, 1);

    let all = st.all_streams();
    assert_eq!(all.len(), 2);
    assert_eq!(all[0].id, 1);
    assert_eq!(all[1].id, 2);
}

#[test]
fn create_requires_authentication() {
    let mut st = StreamState::new();
    assert_eq!(
        st.create_stream(None, RECIPIENT, AmountText::Value(5), None, SEC),
        Err(StreamError::NotAuthenticated)
    );
    assert_eq!(st.next_stream_id, 1);
    assert!(st.stream(1).is_none());
}

#[test]
fn create_rejects_zero_and_malformed_rate() {
    let mut st = StreamState::new();
    assert_eq!(
        st.create_stream(Some(SENDER), RECIPIENT, AmountText::Value(0), None, SEC),
        Err(StreamError::InvalidRate)
    );
    assert_eq!(
        st.create_stream(Some(SENDER), RECIPIENT, AmountText::Malformed, None, SEC),
        Err(StreamError::InvalidRate)
    );
    assert!(st.stream(1).is_none());
}

#[test]
fn create_with_duration_sets_end_time() {
    let mut st = StreamState::new();
    let start = 10 * SEC;
    assert_eq!(
        st.create_stream(Some(SENDER), RECIPIENT, AmountText::Value(5), Some(100), start),
        Ok(1)
    );
    let s = st.stream(1).unwrap();
    assert_eq!(s.end_time, Some(start + 100 * SEC));
    assert_eq!(s.status, StreamStatus::Active);
    assert!(!st.should_complete_stream(&s, start + 99 * SEC));
    assert!(st.should_complete_stream(&s, start + 100 * SEC));
}

#[test]
fn accrual_is_exact_at_whole_seconds() {
    let st = ledger_with_stream(5, SEC);
    let s = st.stream(1).unwrap();
    assert_eq!(st.calculate_earned_amount(&s, SEC + 10 * SEC), 50);
}

#[test]
fn accrual_truncates_fractional_seconds() {
    let st = ledger_with_stream(5, SEC);
    let s = st.stream(1).unwrap();
    // 10.999 seconds elapsed: exactly the 10-second amount, nothing fractional.
    assert_eq!(st.calculate_earned_amount(&s, SEC + 10 * SEC + 999_000), 50);
    assert_eq!(st.calculate_earned_amount(&s, SEC + 10 * SEC + 999_999), 50);
}

#[test]
fn accrual_is_zero_at_or_before_start() {
    let st = ledger_with_stream(5, 10 * SEC);
    let s = st.stream(1).unwrap();
    assert_eq!(st.calculate_earned_amount(&s, 10 * SEC), 0);
    assert_eq!(st.calculate_earned_amount(&s, 3 * SEC), 0);
    // a partial first second also earns nothing
    assert_eq!(st.calculate_earned_amount(&s, 10 * SEC + 999_999), 0);
}

#[test]
fn accrual_is_monotonic_while_active() {
    let st = ledger_with_stream(7, SEC);
    let s = st.stream(1).unwrap();
    let mut previous = 0;
    for step in 0..20 {
        let earned = st.calculate_earned_amount(&s, SEC + step * 500_000);
        assert!(earned >= previous);
        previous = earned;
    }
}

#[test]
fn pause_freezes_accrual_at_pause_instant() {
    let mut st = ledger_with_stream(4, SEC);
    assert_eq!(st.pause_stream(Some(SENDER), 1, SEC + 5 * SEC), Ok(()));
    let s = st.stream(1).unwrap();
    assert_eq!(s.status, StreamStatus::Paused);
    assert_eq!(s.paused_at, Some(SEC + 5 * SEC));
    // any amount of later wall time yields exactly the 5-second amount
    assert_eq!(st.calculate_earned_amount(&s, SEC + 6 * SEC), 20);
    assert_eq!(st.calculate_earned_amount(&s, SEC + 1_000_000 * SEC), 20);
}

#[test]
fn resume_restores_accrual_against_start_time() {
    let mut st = ledger_with_stream(4, SEC);
    assert_eq!(st.pause_stream(Some(SENDER), 1, SEC + 5 * SEC), Ok(()));
    assert_eq!(st.resume_stream(Some(SENDER), 1), Ok(()));
    let s = st.stream(1).unwrap();
    assert_eq!(s.status, StreamStatus::Active);
    assert_eq!(s.paused_at, None);
    // accrual is measured from the unchanged start time again
    assert_eq!(st.calculate_earned_amount(&s, SEC + 10 * SEC), 40);
}

#[test]
fn pause_requires_active_and_resume_requires_paused() {
    let mut st = ledger_with_stream(4, SEC);
    assert_eq!(st.resume_stream(Some(SENDER), 1), Err(StreamError::NotPaused));
    assert_eq!(st.pause_stream(Some(SENDER), 1, 2 * SEC), Ok(()));
    assert_eq!(st.pause_stream(Some(SENDER), 1, 3 * SEC), Err(StreamError::NotActive));
    assert_eq!(st.stop_stream(Some(SENDER), 1, 4 * SEC), Ok(()));
    assert_eq!(st.pause_stream(Some(SENDER), 1, 5 * SEC), Err(StreamError::NotActive));
    assert_eq!(st.resume_stream(Some(SENDER), 1), Err(StreamError::NotPaused));
}

#[test]
fn stop_freezes_end_time_and_keeps_earned_value() {
    let mut st = ledger_with_stream(3, SEC);
    assert_eq!(st.stop_stream(Some(SENDER), 1, SEC + 10 * SEC), Ok(()));
    let s = st.stream(1).unwrap();
    assert_eq!(s.status, StreamStatus::Stopped);
    assert_eq!(s.end_time, Some(SEC + 10 * SEC));
    // earned value is frozen at the stop instant, and stays withdrawable
    assert_eq!(st.calculate_earned_amount(&s, SEC + 500 * SEC), 30);
    assert_eq!(
        st.withdraw_from_stream(Some(RECIPIENT), 1, None, SEC + 500 * SEC),
        Ok(30)
    );
}

#[test]
fn stop_overwrites_duration_end_time() {
    let mut st = StreamState::new();
    assert_eq!(
        st.create_stream(Some(SENDER), RECIPIENT, AmountText::Value(3), Some(100), SEC),
        Ok(1)
    );
    assert_eq!(st.stop_stream(Some(SENDER), 1, SEC + 5 * SEC), Ok(()));
    let s = st.stream(1).unwrap();
    assert_eq!(s.end_time, Some(SEC + 5 * SEC));
}

#[test]
fn withdraw_unspecified_amount_takes_everything_earned() {
    let mut st = ledger_with_stream(5, SEC);
    let now = SEC + 10 * SEC;
    assert_eq!(st.withdraw_from_stream(Some(RECIPIENT), 1, None, now), Ok(50));
    let s = st.stream(1).unwrap();
    assert_eq!(s.total_withdrawn, 50);
    assert_eq!(st.calculate_earned_amount(&s, now), 0);
}

#[test]
fn withdraw_is_not_idempotent_and_bounded_by_earned() {
    let mut st = ledger_with_stream(5, SEC);
    let now = SEC + 10 * SEC;
    // withdrawing the full earned amount succeeds once
    assert_eq!(
        st.withdraw_from_stream(Some(RECIPIENT), 1, Some(AmountText::Value(50)), now),
        Ok(50)
    );
    // repeating the exact same withdrawal without new accrual fails
    assert_eq!(
        st.withdraw_from_stream(Some(RECIPIENT), 1, Some(AmountText::Value(50)), now),
        Err(StreamError::InsufficientEarned)
    );
    // so does any positive request
    assert_eq!(
        st.withdraw_from_stream(Some(RECIPIENT), 1, Some(AmountText::Value(1)), now),
        Err(StreamError::InsufficientEarned)
    );
    // new accrual makes withdrawal possible again
    assert_eq!(
        st.withdraw_from_stream(Some(RECIPIENT), 1, Some(AmountText::Value(5)), now + SEC),
        Ok(5)
    );
}

#[test]
fn withdraw_rejects_overdraw_and_malformed_amount() {
    let mut st = ledger_with_stream(5, SEC);
    let now = SEC + 10 * SEC;
    assert_eq!(
        st.withdraw_from_stream(Some(RECIPIENT), 1, Some(AmountText::Value(51)), now),
        Err(StreamError::InsufficientEarned)
    );
    assert_eq!(
        st.withdraw_from_stream(Some(RECIPIENT), 1, Some(AmountText::Malformed), now),
        Err(StreamError::InvalidAmount)
    );
    assert_eq!(st.stream(1).unwrap().total_withdrawn, 0);
}

#[test]
fn top_up_accumulates_and_rejects_malformed() {
    let mut st = ledger_with_stream(5, SEC);
    assert_eq!(st.top_up_stream(Some(SENDER), 1, AmountText::Value(100)), Ok(()));
    assert_eq!(st.top_up_stream(Some(SENDER), 1, AmountText::Value(25)), Ok(()));
    assert_eq!(st.stream(1).unwrap().total_deposited, 125);
    assert_eq!(
        st.top_up_stream(Some(SENDER), 1, AmountText::Malformed),
        Err(StreamError::InvalidAmount)
    );
    assert_eq!(st.stream(1).unwrap().total_deposited, 125);
}

#[test]
fn top_up_saturates_at_amount_maximum() {
    let mut st = ledger_with_stream(5, SEC);
    assert_eq!(
        st.top_up_stream(Some(SENDER), 1, AmountText::Value(u128::MAX)),
        Ok(())
    );
    assert_eq!(st.top_up_stream(Some(SENDER), 1, AmountText::Value(1)), Ok(()));
    assert_eq!(st.stream(1).unwrap().total_deposited, u128::MAX);
}

#[test]
fn accrual_saturates_at_amount_maximum() {
    let st = ledger_with_stream(u128::MAX, SEC);
    let s = st.stream(1).unwrap();
    assert_eq!(st.calculate_earned_amount(&s, SEC + 2 * SEC), u128::MAX);
}

#[test]
fn unknown_stream_is_not_found() {
    let mut st = ledger_with_stream(5, SEC);
    let now = 2 * SEC;
    assert_eq!(st.pause_stream(Some(SENDER), 42, now), Err(StreamError::NotFound));
    assert_eq!(st.resume_stream(Some(SENDER), 42), Err(StreamError::NotFound));
    assert_eq!(st.stop_stream(Some(SENDER), 42, now), Err(StreamError::NotFound));
    assert_eq!(
        st.withdraw_from_stream(Some(RECIPIENT), 42, None, now),
        Err(StreamError::NotFound)
    );
    assert_eq!(
        st.top_up_stream(Some(SENDER), 42, AmountText::Value(1)),
        Err(StreamError::NotFound)
    );
    assert!(st.stream(42).is_none());
}

#[test]
fn only_owning_parties_may_mutate() {
    let mut st = ledger_with_stream(5, SEC);
    let now = 2 * SEC;

    // a stranger is rejected by every stream-mutating operation
    assert_eq!(st.pause_stream(Some(STRANGER), 1, now), Err(StreamError::NotSender));
    assert_eq!(st.resume_stream(Some(STRANGER), 1), Err(StreamError::NotSender));
    assert_eq!(st.stop_stream(Some(STRANGER), 1, now), Err(StreamError::NotSender));
    assert_eq!(
        st.top_up_stream(Some(STRANGER), 1, AmountText::Value(1)),
        Err(StreamError::NotSender)
    );
    assert_eq!(
        st.withdraw_from_stream(Some(STRANGER), 1, None, now),
        Err(StreamError::NotRecipient)
    );

    // the recipient may not act as sender, nor the sender as recipient
    assert_eq!(st.pause_stream(Some(RECIPIENT), 1, now), Err(StreamError::NotSender));
    assert_eq!(
        st.withdraw_from_stream(Some(SENDER), 1, None, now),
        Err(StreamError::NotRecipient)
    );

    // an unauthenticated caller is rejected everywhere
    assert_eq!(st.pause_stream(None, 1, now), Err(StreamError::NotAuthenticated));
    assert_eq!(st.resume_stream(None, 1), Err(StreamError::NotAuthenticated));
    assert_eq!(st.stop_stream(None, 1, now), Err(StreamError::NotAuthenticated));
    assert_eq!(
        st.withdraw_from_stream(None, 1, None, now),
        Err(StreamError::NotAuthenticated)
    );
    assert_eq!(
        st.top_up_stream(None, 1, AmountText::Value(1)),
        Err(StreamError::NotAuthenticated)
    );

    // and nothing changed
    let s = st.stream(1).unwrap();
    assert_eq!(s.status, StreamStatus::Active);
    assert_eq!(s.total_deposited, 0);
    assert_eq!(s.total_withdrawn, 0);
}

#[test]
fn stream_dispatcher_maps_outcomes_to_responses() {
    let mut st = StreamState::new();
    let create = StreamOperation::CreateStream {
        recipient: RECIPIENT,
        rate_per_second: AmountText::Value(5),
        duration_seconds: None,
    };
    assert_eq!(st.execute_operation(Some(SENDER), create, SEC), StreamResponse::StreamId(1));

    let pause = StreamOperation::PauseStream { stream_id: 1 };
    assert_eq!(
        st.execute_operation(Some(STRANGER), pause, 2 * SEC),
        StreamResponse::Error(StreamError::NotSender)
    );
    assert_eq!(st.execute_operation(Some(SENDER), pause, 2 * SEC), StreamResponse::Accepted);

    let resume = StreamOperation::ResumeStream { stream_id: 1 };
    assert_eq!(st.execute_operation(Some(SENDER), resume, 3 * SEC), StreamResponse::Accepted);

    let withdraw = StreamOperation::WithdrawFromStream { stream_id: 1, amount: None };
    assert_eq!(
        st.execute_operation(Some(RECIPIENT), withdraw, SEC + 4 * SEC),
        StreamResponse::Amount(20)
    );

    let top_up = StreamOperation::TopUpStream { stream_id: 1, amount: AmountText::Value(9) };
    assert_eq!(st.execute_operation(Some(SENDER), top_up, SEC + 4 * SEC), StreamResponse::Accepted);

    let stop = StreamOperation::StopStream { stream_id: 1 };
    assert_eq!(st.execute_operation(Some(SENDER), stop, SEC + 5 * SEC), StreamResponse::Accepted);
    assert_eq!(st.stream(1).unwrap().status, StreamStatus::Stopped);

    let bad_create = StreamOperation::CreateStream {
        recipient: RECIPIENT,
        rate_per_second: AmountText::Malformed,
        duration_seconds: None,
    };
    assert_eq!(
        st.execute_operation(Some(SENDER), bad_create, 6 * SEC),
        StreamResponse::Error(StreamError::InvalidRate)
    );
}

#[test]
fn queries_tolerate_unknown_owners() {
    let st = ledger_with_stream(5, SEC);
    assert!(st.streams_by_sender(STRANGER).is_empty());
    assert!(st.streams_by_recipient(STRANGER).is_empty());
}
