//! The per-request submission state machine.
//!
//! Submitting one transfer interleaves remote work (loading the signing
//! credential, fetching a block reference, sending the signed transaction)
//! with decisions. The decisions live here: the driver performs each remote
//! step and feeds its result back as a [`SubmitEvent`], and [`submit_step`]
//! says what happens next. Destination addresses are checked right here,
//! since parsing is a pure computation.

use vstd::prelude::*;

use crate::amount::Amount;
use crate::outcome::{SubmissionError, SubmissionOutcome};

verus! {

/// One desired transfer: where the signing credential lives, where the
/// value goes, and how much.
pub struct TransferRequest {
    /// Opaque locator of the signing credential, e.g. a key file path.
    pub source_credential: String,
    /// Destination account address, validated when the submission runs.
    pub destination: String,
    /// Quantity to transfer.
    pub amount: Amount,
}

impl TransferRequest {
    /// A request is well formed when its amount is.
    pub open spec fn wf(self) -> bool {
        self.amount.wf()
    }
}

/// Whether a string parses as a ledger account address.
pub uninterp spec fn spec_address_parses(s: Seq<char>) -> bool;

/// Relies on `solana_sdk::pubkey::Pubkey::from_str`: a base58 decode whose
/// result depends on the characters alone, and which returns an error
/// rather than panicking on every malformed input.
#[verifier::external_body]
fn address_parses(s: &str) -> (r: bool)
    ensures
        r == spec_address_parses(s@),
{
    <solana_sdk::pubkey::Pubkey as core::str::FromStr>::from_str(s).is_ok()
}

/// What the driver reports back after performing one remote step of a
/// submission.
#[derive(Clone, Debug, PartialEq, Eq)]
pub enum SubmitEvent {
    /// The signing credential was resolved and read.
    CredentialLoaded,
    /// The signing credential could not be resolved or read.
    CredentialUnreadable,
    /// A fresh block reference was fetched.
    BlockRefReady,
    /// The block reference fetch failed.
    BlockRefUnavailable,
    /// The ledger accepted the transaction and assigned it an id.
    Accepted { id: String },
    /// The ledger rejected the transaction.
    RemoteRejected,
}

/// Where one submission stands. `subunits` carries the exactly converted
/// transfer value once the request has passed its local checks.
#[derive(Clone, Debug, PartialEq, Eq)]
pub enum SubmitState {
    /// Waiting for the driver to load the signing credential.
    AwaitingCredential,
    /// Credential and destination are good; waiting for a block reference.
    AwaitingBlockRef { subunits: u64 },
    /// Transaction can be built and sent; waiting for the ledger's answer.
    AwaitingAcceptance { subunits: u64 },
    /// The submission is over, one way or the other.
    Done { outcome: SubmissionOutcome },
}

/// The transition function of the submission machine.
///
/// Events that do not belong to the current state leave it unchanged, and
/// a finished submission absorbs everything.
pub open spec fn spec_submit_step(
    state: SubmitState,
    req: TransferRequest,
    event: SubmitEvent,
) -> SubmitState {
    match (state, event) {
        (SubmitState::AwaitingCredential, SubmitEvent::CredentialUnreadable) => SubmitState::Done {
            outcome: SubmissionOutcome::Failed { error: SubmissionError::CredentialUnreadable },
        },
        (SubmitState::AwaitingCredential, SubmitEvent::CredentialLoaded) => {
            if spec_address_parses(req.destination@) {
                SubmitState::AwaitingBlockRef { subunits: req.amount.total_subunits() as u64 }
            } else {
                SubmitState::Done {
                    outcome: SubmissionOutcome::Failed { error: SubmissionError::AddressInvalid },
                }
            }
        },
        (SubmitState::AwaitingBlockRef { subunits }, SubmitEvent::BlockRefUnavailable) => SubmitState::Done {
            outcome: SubmissionOutcome::Failed { error: SubmissionError::BlockRefUnavailable },
        },
        (SubmitState::AwaitingBlockRef { subunits }, SubmitEvent::BlockRefReady) => SubmitState::AwaitingAcceptance {
            subunits,
        },
        (SubmitState::AwaitingAcceptance { subunits }, SubmitEvent::RemoteRejected) => SubmitState::Done {
            outcome: SubmissionOutcome::Failed { error: SubmissionError::RemoteRejected },
        },
        (SubmitState::AwaitingAcceptance { subunits }, SubmitEvent::Accepted { id }) => SubmitState::Done {
            outcome: SubmissionOutcome::Submitted { id },
        },
        (s, _) => s,
    }
}

/// Runs one transition of the submission machine.
pub fn submit_step(state: SubmitState, req: &TransferRequest, event: &SubmitEvent) -> (next:
    SubmitState)
    requires
        req.wf(),
    ensures
        next == spec_submit_step(state, *req, *event),
{
    match (state, event) {
        (SubmitState::AwaitingCredential, SubmitEvent::CredentialUnreadable) => SubmitState::Done {
            outcome: SubmissionOutcome::Failed { error: SubmissionError::CredentialUnreadable },
        },
        (SubmitState::AwaitingCredential, SubmitEvent::CredentialLoaded) => {
            if address_parses(req.destination.as_str()) {
                SubmitState::AwaitingBlockRef { subunits: req.amount.to_subunits() }
            } else {
                SubmitState::Done {
                    outcome: SubmissionOutcome::Failed { error: SubmissionError::AddressInvalid },
                }
            }
        },
        (SubmitState::AwaitingBlockRef { subunits }, SubmitEvent::BlockRefUnavailable) => SubmitState::Done {
            outcome: SubmissionOutcome::Failed { error: SubmissionError::BlockRefUnavailable },
        },
        (SubmitState::AwaitingBlockRef { subunits }, SubmitEvent::BlockRefReady) => SubmitState::AwaitingAcceptance {
            subunits,
        },
        (SubmitState::AwaitingAcceptance { subunits }, SubmitEvent::RemoteRejected) => SubmitState::Done {
            outcome: SubmissionOutcome::Failed { error: SubmissionError::RemoteRejected },
        },
        (SubmitState::AwaitingAcceptance { subunits }, SubmitEvent::Accepted { id }) => SubmitState::Done {
            outcome: SubmissionOutcome::Submitted { id: id.clone() },
        },
        (s, _) => s,
    }
}

/// The machine run from its initial state over a sequence of events.
pub open spec fn spec_submit_run(req: TransferRequest, events: Seq<SubmitEvent>) -> SubmitState
    decreases events.len(),
{
    if events.len() == 0 {
        SubmitState::AwaitingCredential
    } else {
        spec_submit_step(spec_submit_run(req, events.drop_last()), req, events.last())
    }
}

/// A recorded event sequence completes the submission when it drives the
/// machine all the way to `Done`.
pub open spec fn spec_submission_complete(req: TransferRequest, events: Seq<SubmitEvent>) -> bool {
    spec_submit_run(req, events) is Done
}

/// The outcome a completing event sequence ends in.
pub open spec fn spec_submission_outcome(
    req: TransferRequest,
    events: Seq<SubmitEvent>,
) -> SubmissionOutcome {
    spec_submit_run(req, events)->outcome
}

/// Replays one submission over a recorded event sequence.
pub fn run_submission(req: &TransferRequest, events: &Vec<SubmitEvent>) -> (r: SubmitState)
    requires
        req.wf(),
    ensures
        r == spec_submit_run(*req, events@),
{
    let mut state = SubmitState::AwaitingCredential;
    let mut i: usize = 0;
    while i < events.len()
        invariant
            req.wf(),
            i <= events@.len(),
            state == spec_submit_run(*req, events@.take(i as int)),
        decreases events@.len() - i,
    {
        state = submit_step(state, req, &events[i]);
        proof {
            assert(events@.take(i + 1 as int).drop_last() =~= events@.take(i as int));
            assert(events@.take(i + 1 as int).last() == events@[i as int]);
        }
        i = i + 1;
    }
    proof {
        assert(events@.take(events@.len() as int) =~= events@);
    }
    state
}

/// A request whose destination does not parse can only end in failure:
/// no event sequence whatever drives its machine to a submitted outcome.
pub proof fn lemma_unparseable_destination_fails(req: TransferRequest, events: Seq<SubmitEvent>)
    ensures
        !spec_address_parses(req.destination@) ==> {
            &&& spec_submit_run(req, events) matches SubmitState::Done { outcome }
                ==> outcome is Failed
            &&& !(spec_submit_run(req, events) is AwaitingBlockRef)
            &&& !(spec_submit_run(req, events) is AwaitingAcceptance)
        },
    decreases events.len(),
{
    if events.len() > 0 {
        lemma_unparseable_destination_fails(req, events.drop_last());
    }
}

} // verus!
