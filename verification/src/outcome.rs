//! Per-item outcome types of the two pipeline phases.

use vstd::prelude::*;

verus! {

/// Why submitting one transfer failed. Each variant is a distinct failure
/// condition; none of them is retried automatically.
#[derive(Clone, Copy, Debug, PartialEq, Eq, Structural)]
pub enum SubmissionError {
    /// The signing credential could not be resolved or read.
    CredentialUnreadable,
    /// The destination did not parse as a ledger account address.
    AddressInvalid,
    /// The fresh block reference the ledger requires could not be fetched.
    BlockRefUnavailable,
    /// The remote ledger rejected the submitted transaction.
    RemoteRejected,
}

/// The result of submitting one transfer request: the transaction id the
/// ledger assigned, or the error that stopped the submission.
#[derive(Clone, Debug, PartialEq, Eq)]
pub enum SubmissionOutcome {
    Submitted { id: String },
    Failed { error: SubmissionError },
}

/// The result of confirmation polling for one submitted transaction.
///
/// `FailedOnChain` (the remote reported a terminal status with an error)
/// and `TimedOut` (the attempt budget ran out before any terminal status)
/// are distinct here, but both count as unconfirmed in the aggregate.
#[derive(Clone, Copy, Debug, PartialEq, Eq, Structural)]
pub enum ConfirmationOutcome {
    Confirmed,
    FailedOnChain,
    TimedOut,
}

impl ConfirmationOutcome {
    /// Whether this outcome counts as confirmed in the two-state aggregate.
    pub fn is_confirmed(&self) -> (r: bool)
        ensures
            r == (*self is Confirmed),
    {
        matches!(self, ConfirmationOutcome::Confirmed)
    }
}

} // verus!
