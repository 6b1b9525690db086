use rust_async_queue::error::{BrokerError, ClientError};
use rust_async_queue::poll::{Poll, PollAction, PollEvent, POLL_INTERVAL_MILLIS};

#[test]
fn poll_begins_by_asking_for_the_key() {
    let (poll, first) = Poll::start("id-1".to_string(), 200);
    assert!(matches!(first, PollAction::Get { key } if key == "id-1"));
    assert_eq!(poll.get_budget(), 200);
    assert!(!poll.is_finished());
}

#[test]
fn poll_returns_the_value_that_is_found() {
    let (mut poll, _) = Poll::start("id-1".to_string(), 200);
    let action = poll.step(PollEvent::Found("3".to_string()));
    assert!(matches!(action, PollAction::Return(Ok(text)) if text == "3"));
    assert!(poll.is_finished());
}

#[test]
fn poll_rests_one_second_between_looks() {
    let (mut poll, _) = Poll::start("id-1".to_string(), 10_000);
    for _ in 0..5 {
        let action = poll.step(PollEvent::Absent);
        assert!(matches!(action, PollAction::Sleep { millis: 1000 }));
        let action = poll.step(PollEvent::Rested);
        assert!(matches!(action, PollAction::Get { key } if key == "id-1"));
    }
    assert_eq!(POLL_INTERVAL_MILLIS, 1000);
    let action = poll.step(PollEvent::Found("done".to_string()));
    assert!(matches!(action, PollAction::Return(Ok(text)) if text == "done"));
}

#[test]
fn poll_of_an_id_that_is_never_written_times_out() {
    // A budget of 200 ms and a backend that never answers: the only report
    // is that the budget is spent.
    let (mut poll, first) = Poll::start("never".to_string(), 200);
    assert!(matches!(first, PollAction::Get { .. }));
    let action = poll.step(PollEvent::TimedOut);
    assert!(matches!(action, PollAction::Return(Err(ClientError::Timeout))));
    assert!(poll.is_finished());
}

#[test]
fn poll_times_out_while_resting() {
    let (mut poll, _) = Poll::start("never".to_string(), 200);
    poll.step(PollEvent::Absent);
    let action = poll.step(PollEvent::TimedOut);
    assert!(matches!(action, PollAction::Return(Err(ClientError::Timeout))));
}

#[test]
fn poll_passes_a_broker_failure_on() {
    let (mut poll, _) = Poll::start("id".to_string(), 200);
    let action = poll.step(PollEvent::GetFailed(BrokerError::RedisError("down".to_string())));
    match action {
        PollAction::Return(Err(ClientError::BrokerError(BrokerError::RedisError(reason)))) => {
            assert_eq!(reason, "down")
        }
        other => panic!("unexpected {:?}", other),
    }
    assert!(poll.is_finished());
}

#[test]
fn poll_that_is_over_ignores_everything() {
    let (mut poll, _) = Poll::start("id".to_string(), 200);
    poll.step(PollEvent::Found("x".to_string()));
    assert!(matches!(poll.step(PollEvent::TimedOut), PollAction::Ignored));
    assert!(matches!(poll.step(PollEvent::Found("y".to_string())), PollAction::Ignored));
    assert!(matches!(poll.step(PollEvent::Absent), PollAction::Ignored));
    assert!(matches!(poll.step(PollEvent::Rested), PollAction::Ignored));
    assert!(poll.is_finished());
}

#[test]
fn poll_ignores_what_does_not_fit() {
    let (mut poll, _) = Poll::start("id".to_string(), 200);
    assert!(matches!(poll.step(PollEvent::Rested), PollAction::Ignored));
    poll.step(PollEvent::Absent);
    assert!(matches!(poll.step(PollEvent::Found("x".to_string())), PollAction::Ignored));
    assert!(matches!(poll.step(PollEvent::Absent), PollAction::Ignored));
    assert!(!poll.is_finished());
}
