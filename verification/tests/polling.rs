use batch_transfer::outcome::ConfirmationOutcome;
use batch_transfer::poll::{
    default_poll_policy, run_poll, PollAction, PollEvent, PollPolicy, Poller,
    DEFAULT_INTERVAL_SECS, DEFAULT_MAX_ATTEMPTS,
};

fn padded(mut events: Vec<PollEvent>, len: usize) -> Vec<PollEvent> {
    while events.len() < len {
        events.push(PollEvent::Pending);
    }
    events
}

#[test]
fn default_policy_matches_the_documented_numbers() {
    let p = default_poll_policy();
    assert_eq!(p.max_attempts, 10);
    assert_eq!(p.interval_secs, 2);
    assert_eq!(DEFAULT_MAX_ATTEMPTS, 10);
    assert_eq!(DEFAULT_INTERVAL_SECS, 2);
}

#[test]
fn immediate_finalization_confirms_in_one_query() {
    let policy = default_poll_policy();
    let events = padded(vec![PollEvent::Finalized { with_error: false }], 10);
    let (outcome, queries) = run_poll(policy, &events);
    assert_eq!(outcome, ConfirmationOutcome::Confirmed);
    assert_eq!(queries, 1);
}

#[test]
fn finalization_with_error_is_not_confirmed() {
    let policy = default_poll_policy();
    let events = padded(
        vec![PollEvent::Pending, PollEvent::QueryFailed, PollEvent::Finalized { with_error: true }],
        10,
    );
    let (outcome, queries) = run_poll(policy, &events);
    assert_eq!(outcome, ConfirmationOutcome::FailedOnChain);
    assert_eq!(queries, 3);
}

#[test]
fn transient_failures_are_retried_then_confirm() {
    let policy = default_poll_policy();
    let events = padded(
        vec![PollEvent::QueryFailed, PollEvent::Finalized { with_error: false }],
        10,
    );
    let (outcome, queries) = run_poll(policy, &events);
    assert_eq!(outcome, ConfirmationOutcome::Confirmed);
    assert_eq!(queries, 2);
}

#[test]
fn no_terminal_status_times_out_after_exactly_the_budget() {
    let policy = default_poll_policy();
    let events = padded(vec![], 10);
    let (outcome, queries) = run_poll(policy, &events);
    assert_eq!(outcome, ConfirmationOutcome::TimedOut);
    assert_eq!(queries, 10);
}

#[test]
fn terminal_status_past_the_budget_is_never_seen() {
    let policy = PollPolicy { max_attempts: 3, interval_secs: 2 };
    let mut events = padded(vec![], 3);
    events.push(PollEvent::Finalized { with_error: false });
    let (outcome, queries) = run_poll(policy, &events);
    assert_eq!(outcome, ConfirmationOutcome::TimedOut);
    assert_eq!(queries, 3);
}

#[test]
fn non_terminal_answers_wait_exactly_the_interval() {
    let policy = PollPolicy { max_attempts: 5, interval_secs: 7 };
    let mut poller = Poller::new(policy);
    assert_eq!(poller.step(PollEvent::Pending), PollAction::Wait { interval_secs: 7 });
    assert_eq!(poller.step(PollEvent::QueryFailed), PollAction::Wait { interval_secs: 7 });
    assert_eq!(
        poller.step(PollEvent::Finalized { with_error: false }),
        PollAction::Finish { outcome: ConfirmationOutcome::Confirmed }
    );
}

#[test]
fn last_attempt_without_terminal_status_finishes_timed_out() {
    let policy = PollPolicy { max_attempts: 1, interval_secs: 2 };
    let mut poller = Poller::new(policy);
    assert_eq!(
        poller.step(PollEvent::Pending),
        PollAction::Finish { outcome: ConfirmationOutcome::TimedOut }
    );
}

#[test]
fn only_confirmed_counts_as_confirmed() {
    assert!(ConfirmationOutcome::Confirmed.is_confirmed());
    assert!(!ConfirmationOutcome::FailedOnChain.is_confirmed());
    assert!(!ConfirmationOutcome::TimedOut.is_confirmed());
}
