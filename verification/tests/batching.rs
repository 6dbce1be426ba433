use batch_transfer::amount::Amount;
use batch_transfer::batch::{confirm_all, ids_to_poll, report, submit_all, BatchResult};
use batch_transfer::outcome::{ConfirmationOutcome, SubmissionError, SubmissionOutcome};
use batch_transfer::poll::{default_poll_policy, PollEvent};
use batch_transfer::submit::{SubmitEvent, TransferRequest};

const VALID_ADDRESS: &str = "11111111111111111111111111111111";

fn request(destination: &str) -> TransferRequest {
    TransferRequest {
        source_credential: String::from("payer.json"),
        destination: String::from(destination),
        amount: Amount::new(0, 5_000_000).unwrap(),
    }
}

fn happy_events(id: &str) -> Vec<SubmitEvent> {
    vec![
        SubmitEvent::CredentialLoaded,
        SubmitEvent::BlockRefReady,
        SubmitEvent::Accepted { id: String::from(id) },
    ]
}

fn finalizes_cleanly() -> Vec<PollEvent> {
    let mut events = vec![PollEvent::Finalized { with_error: false }];
    while events.len() < 10 {
        events.push(PollEvent::Pending);
    }
    events
}

fn never_finalizes() -> Vec<PollEvent> {
    vec![PollEvent::Pending; 10]
}

#[test]
fn ids_come_from_successful_submissions_only_in_order() {
    let outcomes = vec![
        SubmissionOutcome::Submitted { id: String::from("a") },
        SubmissionOutcome::Failed { error: SubmissionError::RemoteRejected },
        SubmissionOutcome::Submitted { id: String::from("b") },
    ];
    let ids = ids_to_poll(&outcomes);
    assert_eq!(ids, vec![String::from("a"), String::from("b")]);
}

#[test]
fn report_counts_each_phase() {
    let outcomes = vec![
        SubmissionOutcome::Submitted { id: String::from("a") },
        SubmissionOutcome::Failed { error: SubmissionError::AddressInvalid },
        SubmissionOutcome::Submitted { id: String::from("b") },
    ];
    let confirmations = vec![ConfirmationOutcome::Confirmed, ConfirmationOutcome::TimedOut];
    let result = report(&outcomes, &confirmations, 1234);
    assert_eq!(
        result,
        BatchResult {
            submitted: 2,
            failed_submissions: 1,
            confirmed: 1,
            unconfirmed: 1,
            elapsed_millis: 1234,
        }
    );
}

#[test]
fn report_is_a_pure_function_of_the_outcome_lists() {
    let outcomes = vec![
        SubmissionOutcome::Submitted { id: String::from("a") },
        SubmissionOutcome::Failed { error: SubmissionError::RemoteRejected },
    ];
    let confirmations = vec![ConfirmationOutcome::FailedOnChain];
    let first = report(&outcomes, &confirmations, 10);
    let second = report(&outcomes, &confirmations, 10);
    assert_eq!(first, second);
}

#[test]
fn three_clean_transfers_all_confirm() {
    let requests = vec![request(VALID_ADDRESS), request(VALID_ADDRESS), request(VALID_ADDRESS)];
    let submit_events = vec![happy_events("s1"), happy_events("s2"), happy_events("s3")];
    let outcomes = submit_all(&requests, &submit_events);
    assert_eq!(outcomes.len(), 3);

    let ids = ids_to_poll(&outcomes);
    assert_eq!(ids, vec![String::from("s1"), String::from("s2"), String::from("s3")]);

    let poll_events = vec![finalizes_cleanly(), finalizes_cleanly(), finalizes_cleanly()];
    let confirmations = confirm_all(&ids, &poll_events, default_poll_policy());
    assert_eq!(confirmations, vec![ConfirmationOutcome::Confirmed; 3]);

    let result = report(&outcomes, &confirmations, 2000);
    assert_eq!(result.submitted, 3);
    assert_eq!(result.failed_submissions, 0);
    assert_eq!(result.confirmed, 3);
    assert_eq!(result.unconfirmed, 0);
}

#[test]
fn invalid_destination_is_reported_and_never_polled() {
    let requests = vec![request("not base58 at all"), request(VALID_ADDRESS)];
    let submit_events = vec![vec![SubmitEvent::CredentialLoaded], happy_events("ok-1")];
    let outcomes = submit_all(&requests, &submit_events);
    assert_eq!(outcomes.len(), 2);
    assert_eq!(
        outcomes[0],
        SubmissionOutcome::Failed { error: SubmissionError::AddressInvalid }
    );

    let ids = ids_to_poll(&outcomes);
    assert_eq!(ids, vec![String::from("ok-1")]);

    let poll_events = vec![finalizes_cleanly()];
    let confirmations = confirm_all(&ids, &poll_events, default_poll_policy());
    assert_eq!(confirmations, vec![ConfirmationOutcome::Confirmed]);

    let result = report(&outcomes, &confirmations, 500);
    assert_eq!(result.submitted, 1);
    assert_eq!(result.failed_submissions, 1);
    assert_eq!(result.confirmed, 1);
    assert_eq!(result.unconfirmed, 0);
}

#[test]
fn never_finalizing_transaction_times_out_in_the_aggregate() {
    let requests = vec![request(VALID_ADDRESS)];
    let submit_events = vec![happy_events("slow-1")];
    let outcomes = submit_all(&requests, &submit_events);
    let ids = ids_to_poll(&outcomes);
    assert_eq!(ids.len(), 1);

    let poll_events = vec![never_finalizes()];
    let confirmations = confirm_all(&ids, &poll_events, default_poll_policy());
    assert_eq!(confirmations, vec![ConfirmationOutcome::TimedOut]);

    let result = report(&outcomes, &confirmations, 20000);
    assert_eq!(result.submitted, 1);
    assert_eq!(result.failed_submissions, 0);
    assert_eq!(result.confirmed, 0);
    assert_eq!(result.unconfirmed, 1);
}

#[test]
fn failure_in_one_item_leaves_its_neighbours_untouched() {
    let requests = vec![request(VALID_ADDRESS), request(VALID_ADDRESS), request(VALID_ADDRESS)];
    let submit_events = vec![
        happy_events("left"),
        vec![
            SubmitEvent::CredentialLoaded,
            SubmitEvent::BlockRefReady,
            SubmitEvent::RemoteRejected,
        ],
        happy_events("right"),
    ];
    let outcomes = submit_all(&requests, &submit_events);
    assert_eq!(outcomes.len(), 3);
    assert_eq!(outcomes[0], SubmissionOutcome::Submitted { id: String::from("left") });
    assert_eq!(
        outcomes[1],
        SubmissionOutcome::Failed { error: SubmissionError::RemoteRejected }
    );
    assert_eq!(outcomes[2], SubmissionOutcome::Submitted { id: String::from("right") });

    let ids = ids_to_poll(&outcomes);
    assert_eq!(ids, vec![String::from("left"), String::from("right")]);

    let poll_events = vec![finalizes_cleanly(), finalizes_cleanly()];
    let confirmations = confirm_all(&ids, &poll_events, default_poll_policy());
    let result = report(&outcomes, &confirmations, 100);
    assert_eq!(result.submitted, 2);
    assert_eq!(result.failed_submissions, 1);
    assert_eq!(result.confirmed, 2);
    assert_eq!(result.unconfirmed, 0);
}
