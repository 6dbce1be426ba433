//! Bounded-retry confirmation polling.
//!
//! For one submitted transaction the driver repeatedly queries the remote
//! status and feeds each answer in as a [`PollEvent`]; the [`Poller`] decides
//! whether to finish or to wait the fixed interval and query again. A
//! terminal status ends the poll at once; a transient query failure or a
//! still-pending transaction costs one attempt; when the attempt budget is
//! spent without a terminal status the poll times out.

use vstd::prelude::*;

use crate::outcome::ConfirmationOutcome;

verus! {

/// Default number of status queries allowed per transaction.
pub const DEFAULT_MAX_ATTEMPTS: u64 = 10;

/// Default wait, in seconds, between consecutive non-terminal queries.
pub const DEFAULT_INTERVAL_SECS: u64 = 2;

/// The polling policy: attempt budget and wait interval.
#[derive(Clone, Copy, Debug, PartialEq, Eq, Structural)]
pub struct PollPolicy {
    pub max_attempts: u64,
    pub interval_secs: u64,
}

/// The default policy.
pub fn default_poll_policy() -> (r: PollPolicy)
    ensures
        r.max_attempts == DEFAULT_MAX_ATTEMPTS,
        r.interval_secs == DEFAULT_INTERVAL_SECS,
{
    PollPolicy { max_attempts: DEFAULT_MAX_ATTEMPTS, interval_secs: DEFAULT_INTERVAL_SECS }
}

/// What one status query reported back.
#[derive(Clone, Copy, Debug, PartialEq, Eq, Structural)]
pub enum PollEvent {
    /// The remote reports a terminal status, with or without an error.
    Finalized { with_error: bool },
    /// No terminal status is available yet.
    Pending,
    /// The query itself failed; treated as transient.
    QueryFailed,
}

/// What the driver must do next.
#[derive(Clone, Copy, Debug, PartialEq, Eq, Structural)]
pub enum PollAction {
    /// Sleep for the given number of seconds, then query again.
    Wait { interval_secs: u64 },
    /// Stop polling; the outcome is settled.
    Finish { outcome: ConfirmationOutcome },
}

/// The state of one poll: its policy and how many queries were made.
pub struct Poller {
    policy: PollPolicy,
    attempts_used: u64,
}

impl Poller {
    /// The policy this poller was created with.
    pub closed spec fn spec_policy(self) -> PollPolicy {
        self.policy
    }

    /// Number of status queries made so far.
    pub closed spec fn spec_attempts(self) -> u64 {
        self.attempts_used
    }

    /// The attempt count never passes the budget.
    pub open spec fn wf(self) -> bool {
        self.spec_attempts() <= self.spec_policy().max_attempts
            && self.spec_policy().max_attempts >= 1
    }

    /// A fresh poller that has queried nothing yet.
    pub fn new(policy: PollPolicy) -> (r: Poller)
        requires
            policy.max_attempts >= 1,
        ensures
            r.wf(),
            r.spec_policy() == policy,
            r.spec_attempts() == 0,
    {
        Poller { policy, attempts_used: 0 }
    }

    /// Accounts for one completed status query and decides what follows.
    ///
    /// A terminal status finishes at once: confirmed when the remote
    /// reported no error, failed when it did. Any other answer costs one
    /// attempt; the poll times out on the last one and otherwise waits
    /// exactly the policy's interval before the next query.
    pub fn step(&mut self, event: PollEvent) -> (a: PollAction)
        requires
            old(self).wf(),
            old(self).spec_attempts() < old(self).spec_policy().max_attempts,
        ensures
            final(self).wf(),
            final(self).spec_policy() == old(self).spec_policy(),
            final(self).spec_attempts() == old(self).spec_attempts() + 1,
            event matches PollEvent::Finalized { with_error } ==> a == (PollAction::Finish {
                outcome: if with_error {
                    ConfirmationOutcome::FailedOnChain
                } else {
                    ConfirmationOutcome::Confirmed
                },
            }),
            !(event is Finalized) && old(self).spec_attempts() + 1
                == old(self).spec_policy().max_attempts ==> a == (PollAction::Finish {
                outcome: ConfirmationOutcome::TimedOut,
            }),
            !(event is Finalized) && old(self).spec_attempts() + 1
                < old(self).spec_policy().max_attempts ==> a == (PollAction::Wait {
                interval_secs: old(self).spec_policy().interval_secs,
            }),
    {
        self.attempts_used = self.attempts_used + 1;
        match event {
            PollEvent::Finalized { with_error } => PollAction::Finish {
                outcome: if with_error {
                    ConfirmationOutcome::FailedOnChain
                } else {
                    ConfirmationOutcome::Confirmed
                },
            },
            _ => {
                if self.attempts_used == self.policy.max_attempts {
                    PollAction::Finish { outcome: ConfirmationOutcome::TimedOut }
                } else {
                    PollAction::Wait { interval_secs: self.policy.interval_secs }
                }
            },
        }
    }
}

/// The outcome of polling with budget `max` over the statuses in `events`,
/// taken in order, one per query.
pub open spec fn spec_poll_outcome(events: Seq<PollEvent>, max: nat) -> ConfirmationOutcome
    decreases max,
{
    if max == 0 || events.len() == 0 {
        ConfirmationOutcome::TimedOut
    } else {
        match events[0] {
            PollEvent::Finalized { with_error } => if with_error {
                ConfirmationOutcome::FailedOnChain
            } else {
                ConfirmationOutcome::Confirmed
            },
            _ => spec_poll_outcome(events.drop_first(), (max - 1) as nat),
        }
    }
}

/// How many status queries that poll makes.
pub open spec fn spec_poll_queries(events: Seq<PollEvent>, max: nat) -> nat
    decreases max,
{
    if max == 0 || events.len() == 0 {
        0
    } else {
        match events[0] {
            PollEvent::Finalized { .. } => 1,
            _ => 1 + spec_poll_queries(events.drop_first(), (max - 1) as nat),
        }
    }
}

/// Replays one poll over recorded status answers.
///
/// Returns the settled outcome and the number of queries it took.
pub fn run_poll(policy: PollPolicy, events: &Vec<PollEvent>) -> (r: (ConfirmationOutcome, u64))
    requires
        policy.max_attempts >= 1,
        events@.len() >= policy.max_attempts,
    ensures
        r.0 == spec_poll_outcome(events@, policy.max_attempts as nat),
        r.1 == spec_poll_queries(events@, policy.max_attempts as nat),
        r.1 <= policy.max_attempts,
{
    let mut poller = Poller::new(policy);
    let n: usize = events.len();
    let mut i: u64 = 0;
    proof {
        assert(events@.skip(0) =~= events@);
    }
    while i < policy.max_attempts
        invariant
            poller.wf(),
            poller.spec_policy() == policy,
            poller.spec_attempts() == i,
            i <= policy.max_attempts,
            n == events@.len(),
            events@.len() >= policy.max_attempts,
            spec_poll_outcome(events@, policy.max_attempts as nat) == spec_poll_outcome(
                events@.skip(i as int),
                (policy.max_attempts - i) as nat,
            ),
            spec_poll_queries(events@, policy.max_attempts as nat) == i + spec_poll_queries(
                events@.skip(i as int),
                (policy.max_attempts - i) as nat,
            ),
        decreases policy.max_attempts - i,
    {
        proof {
            assert(i < n);
        }
        let event = events[i as usize];
        proof {
            assert(events@.skip(i as int)[0] == events@[i as int]);
            assert(events@.skip(i as int).drop_first() =~= events@.skip(i + 1));
        }
        let action = poller.step(event);
        proof {
            let tail = events@.skip(i as int);
            assert(tail.len() >= policy.max_attempts - i >= 1);
            if !(event is Finalized) {
                assert(spec_poll_queries(tail, (policy.max_attempts - i) as nat) == 1
                    + spec_poll_queries(tail.drop_first(), (policy.max_attempts - i - 1) as nat));
                if i + 1 == policy.max_attempts {
                    assert(spec_poll_queries(tail.drop_first(), 0) == 0);
                    assert(spec_poll_outcome(tail.drop_first(), 0)
                        == ConfirmationOutcome::TimedOut);
                }
            }
        }
        i = i + 1;
        match action {
            PollAction::Finish { outcome } => {
                return (outcome, i);
            },
            PollAction::Wait { .. } => {},
        }
    }
    (ConfirmationOutcome::TimedOut, i)
}

/// Polling never makes more than `max` status queries.
pub proof fn lemma_poll_queries_bounded(events: Seq<PollEvent>, max: nat)
    ensures
        spec_poll_queries(events, max) <= max,
    decreases max,
{
    if max > 0 && events.len() > 0 && !(events[0] is Finalized) {
        lemma_poll_queries_bounded(events.drop_first(), (max - 1) as nat);
    }
}

/// If the first terminal status within the budget stands at position `k`,
/// the poll stops right there, after `k + 1` queries, and the outcome is
/// confirmed exactly when that status carries no error.
pub proof fn lemma_poll_first_terminal(events: Seq<PollEvent>, max: nat, k: int)
    requires
        0 <= k < max,
        k < events.len(),
        events[k] is Finalized,
        forall|j: int| 0 <= j < k ==> !(events[j] is Finalized),
    ensures
        spec_poll_outcome(events, max) == (if events[k]->with_error {
            ConfirmationOutcome::FailedOnChain
        } else {
            ConfirmationOutcome::Confirmed
        }),
        spec_poll_queries(events, max) == k + 1,
    decreases k,
{
    if k > 0 {
        lemma_poll_first_terminal(events.drop_first(), (max - 1) as nat, k - 1);
    }
}

/// If no terminal status appears within the budget, the poll makes exactly
/// `max` queries and times out.
pub proof fn lemma_poll_exhaustion(events: Seq<PollEvent>, max: nat)
    requires
        events.len() >= max,
        forall|j: int| 0 <= j < max ==> !(events[j] is Finalized),
    ensures
        spec_poll_outcome(events, max) == ConfirmationOutcome::TimedOut,
        spec_poll_queries(events, max) == max,
    decreases max,
{
    if max > 0 {
        lemma_poll_exhaustion(events.drop_first(), (max - 1) as nat);
    }
}

} // verus!
