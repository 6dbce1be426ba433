//! Batch orchestration and reporting.
//!
//! Phase one submits every request and yields one [`SubmissionOutcome`] per
//! request; phase two polls exactly the transactions that were submitted
//! successfully; the reporter folds both outcome lists into aggregate
//! counts. The fan-out itself is the driver's business — what stands here
//! is the logic those fan-outs must follow: which ids are eligible for
//! polling, that every item gets exactly one outcome, that each item's
//! outcome depends on that item alone, and what the summary counts are.

use vstd::prelude::*;
use vstd::pervasive::unreached;

use crate::outcome::{ConfirmationOutcome, SubmissionOutcome};
use crate::poll::{spec_poll_outcome, run_poll, PollEvent, PollPolicy};
use crate::submit::{
    spec_submission_complete, spec_submission_outcome, run_submission, SubmitEvent, SubmitState,
    TransferRequest,
};

verus! {

/// The transaction ids of the successful submissions, in order.
pub open spec fn spec_ids(s: Seq<SubmissionOutcome>) -> Seq<Seq<char>>
    decreases s.len(),
{
    if s.len() == 0 {
        Seq::empty()
    } else {
        match s.first() {
            SubmissionOutcome::Submitted { id } => seq![id@] + spec_ids(s.drop_first()),
            SubmissionOutcome::Failed { .. } => spec_ids(s.drop_first()),
        }
    }
}

/// How many submissions succeeded.
pub open spec fn spec_count_submitted(s: Seq<SubmissionOutcome>) -> nat {
    spec_ids(s).len()
}

/// How many polled transactions ended confirmed.
pub open spec fn spec_count_confirmed(c: Seq<ConfirmationOutcome>) -> nat
    decreases c.len(),
{
    if c.len() == 0 {
        0
    } else {
        (if c.first() is Confirmed {
            1nat
        } else {
            0nat
        }) + spec_count_confirmed(c.drop_first())
    }
}

/// The polled ids of a concatenation are the polled ids of the parts.
pub proof fn lemma_ids_concat(a: Seq<SubmissionOutcome>, b: Seq<SubmissionOutcome>)
    ensures
        spec_ids(a + b) == spec_ids(a) + spec_ids(b),
    decreases a.len(),
{
    if a.len() == 0 {
        assert(a + b =~= b);
        assert(spec_ids(a) + spec_ids(b) =~= spec_ids(b));
    } else {
        assert((a + b).drop_first() =~= a.drop_first() + b);
        lemma_ids_concat(a.drop_first(), b);
        match a.first() {
            SubmissionOutcome::Submitted { id } => {
                assert(seq![id@] + (spec_ids(a.drop_first()) + spec_ids(b)) =~= (seq![id@]
                    + spec_ids(a.drop_first())) + spec_ids(b));
            },
            SubmissionOutcome::Failed { .. } => {},
        }
    }
}

/// Item isolation for polling eligibility: whatever outcome stands at
/// position `k`, the items before and after `k` contribute exactly the
/// same ids, in the same order.
pub proof fn lemma_ids_isolated(s: Seq<SubmissionOutcome>, k: int, x: SubmissionOutcome)
    requires
        0 <= k < s.len(),
    ensures
        spec_ids(s.update(k, x)) == spec_ids(s.take(k)) + spec_ids(seq![x]) + spec_ids(
            s.skip(k + 1),
        ),
{
    assert(s.update(k, x) =~= s.take(k) + seq![x] + s.skip(k + 1));
    lemma_ids_concat(s.take(k) + seq![x], s.skip(k + 1));
    lemma_ids_concat(s.take(k), seq![x]);
}

/// A failed submission is never polled: it contributes no id at all.
pub proof fn lemma_failed_never_polled(s: Seq<SubmissionOutcome>, k: int, x: SubmissionOutcome)
    requires
        0 <= k < s.len(),
        x is Failed,
    ensures
        spec_ids(s.update(k, x)) == spec_ids(s.take(k)) + spec_ids(s.skip(k + 1)),
{
    lemma_ids_isolated(s, k, x);
    assert(seq![x].drop_first() =~= Seq::<SubmissionOutcome>::empty());
    assert(spec_ids(Seq::<SubmissionOutcome>::empty()) =~= Seq::<Seq<char>>::empty());
    assert(spec_ids(seq![x]) =~= Seq::<Seq<char>>::empty());
    assert(spec_ids(s.take(k)) + Seq::<Seq<char>>::empty() + spec_ids(s.skip(k + 1))
        =~= spec_ids(s.take(k)) + spec_ids(s.skip(k + 1)));
}

/// Never more submissions succeed than there are items.
pub proof fn lemma_count_submitted_le(s: Seq<SubmissionOutcome>)
    ensures
        spec_count_submitted(s) <= s.len(),
    decreases s.len(),
{
    if s.len() > 0 {
        lemma_count_submitted_le(s.drop_first());
    }
}

/// Never more confirmations than there are polled transactions.
pub proof fn lemma_count_confirmed_le(c: Seq<ConfirmationOutcome>)
    ensures
        spec_count_confirmed(c) <= c.len(),
    decreases c.len(),
{
    if c.len() > 0 {
        lemma_count_confirmed_le(c.drop_first());
    }
}

/// Phase one over recorded events: one submission per request, each
/// replayed on its own event sequence.
///
/// Exactly one outcome comes back per request, and the outcome at each
/// position is a function of that position's request and events alone.
pub fn submit_all(requests: &Vec<TransferRequest>, events: &Vec<Vec<SubmitEvent>>) -> (r: Vec<
    SubmissionOutcome,
>)
    requires
        events@.len() == requests@.len(),
        forall|i: int| 0 <= i < requests@.len() ==> requests@[i].wf(),
        forall|i: int|
            0 <= i < requests@.len() ==> spec_submission_complete(requests@[i], events@[i]@),
    ensures
        r@.len() == requests@.len(),
        forall|i: int|
            0 <= i < requests@.len() ==> r@[i] == spec_submission_outcome(
                requests@[i],
                events@[i]@,
            ),
{
    let mut r: Vec<SubmissionOutcome> = Vec::new();
    let mut i: usize = 0;
    while i < requests.len()
        invariant
            events@.len() == requests@.len(),
            forall|j: int| 0 <= j < requests@.len() ==> requests@[j].wf(),
            forall|j: int|
                0 <= j < requests@.len() ==> spec_submission_complete(requests@[j], events@[j]@),
            i <= requests@.len(),
            r@.len() == i,
            forall|j: int|
                0 <= j < i ==> r@[j] == spec_submission_outcome(requests@[j], events@[j]@),
        decreases requests@.len() - i,
    {
        let state = run_submission(&requests[i], &events[i]);
        match state {
            SubmitState::Done { outcome } => {
                r.push(outcome);
            },
            _ => {
                return unreached();
            },
        }
        i = i + 1;
    }
    r
}

/// Filters phase-one outcomes down to the transaction ids to poll.
///
/// Exactly the ids of the successful submissions come back, in order: one
/// poll per success, none for a failure.
pub fn ids_to_poll(outcomes: &Vec<SubmissionOutcome>) -> (r: Vec<String>)
    ensures
        r@.map_values(|id: String| id@) == spec_ids(outcomes@),
        r@.len() == spec_count_submitted(outcomes@),
{
    let mut r: Vec<String> = Vec::new();
    let mut i: usize = 0;
    proof {
        assert(outcomes@.take(0) =~= Seq::<SubmissionOutcome>::empty());
        assert(r@.map_values(|id: String| id@) =~= spec_ids(outcomes@.take(0)));
    }
    while i < outcomes.len()
        invariant
            i <= outcomes@.len(),
            r@.map_values(|id: String| id@) == spec_ids(outcomes@.take(i as int)),
        decreases outcomes@.len() - i,
    {
        match &outcomes[i] {
            SubmissionOutcome::Submitted { id } => {
                r.push(id.clone());
            },
            SubmissionOutcome::Failed { .. } => {},
        }
        proof {
            let x = outcomes@[i as int];
            assert(seq![x].drop_first() =~= Seq::<SubmissionOutcome>::empty());
            assert(spec_ids(Seq::<SubmissionOutcome>::empty()) =~= Seq::<Seq<char>>::empty());
            assert(outcomes@.take(i + 1) =~= outcomes@.take(i as int) + seq![x]);
            lemma_ids_concat(outcomes@.take(i as int), seq![x]);
            assert(r@.map_values(|id: String| id@) =~= spec_ids(outcomes@.take(i + 1)));
        }
        i = i + 1;
    }
    proof {
        assert(outcomes@.take(outcomes@.len() as int) =~= outcomes@);
    }
    r
}

/// Phase two over recorded status answers: one bounded poll per submitted
/// transaction id.
///
/// Exactly one confirmation comes back per id, and each is a function of
/// that transaction's own status answers alone.
pub fn confirm_all(ids: &Vec<String>, events: &Vec<Vec<PollEvent>>, policy: PollPolicy) -> (r: Vec<
    ConfirmationOutcome,
>)
    requires
        policy.max_attempts >= 1,
        events@.len() == ids@.len(),
        forall|i: int| 0 <= i < events@.len() ==> events@[i]@.len() >= policy.max_attempts,
    ensures
        r@.len() == ids@.len(),
        forall|i: int|
            0 <= i < ids@.len() ==> r@[i] == spec_poll_outcome(
                events@[i]@,
                policy.max_attempts as nat,
            ),
{
    let mut r: Vec<ConfirmationOutcome> = Vec::new();
    let mut i: usize = 0;
    while i < ids.len()
        invariant
            policy.max_attempts >= 1,
            events@.len() == ids@.len(),
            forall|j: int| 0 <= j < events@.len() ==> events@[j]@.len() >= policy.max_attempts,
            i <= ids@.len(),
            r@.len() == i,
            forall|j: int|
                0 <= j < i ==> r@[j] == spec_poll_outcome(events@[j]@, policy.max_attempts as nat),
        decreases ids@.len() - i,
    {
        let (outcome, _queries) = run_poll(policy, &events[i]);
        r.push(outcome);
        i = i + 1;
    }
    r
}

/// The aggregate summary of one batch run.
#[derive(Clone, Copy, Debug, PartialEq, Eq, Structural)]
pub struct BatchResult {
    /// Submissions the ledger accepted.
    pub submitted: usize,
    /// Submissions that failed; these were never polled.
    pub failed_submissions: usize,
    /// Polled transactions that ended confirmed.
    pub confirmed: usize,
    /// Polled transactions that ended failed on chain or timed out.
    pub unconfirmed: usize,
    /// Wall-clock time of the whole run, as the driver measured it.
    pub elapsed_millis: u64,
}

/// What the summary of given outcome lists must be.
pub open spec fn spec_batch_result(
    s: Seq<SubmissionOutcome>,
    c: Seq<ConfirmationOutcome>,
    elapsed_millis: u64,
) -> BatchResult {
    BatchResult {
        submitted: spec_count_submitted(s) as usize,
        failed_submissions: (s.len() - spec_count_submitted(s)) as usize,
        confirmed: spec_count_confirmed(c) as usize,
        unconfirmed: (c.len() - spec_count_confirmed(c)) as usize,
        elapsed_millis,
    }
}

/// Pure aggregation of both phases' outcomes into the batch summary.
pub fn report(
    outcomes: &Vec<SubmissionOutcome>,
    confirmations: &Vec<ConfirmationOutcome>,
    elapsed_millis: u64,
) -> (r: BatchResult)
    ensures
        r == spec_batch_result(outcomes@, confirmations@, elapsed_millis),
        r.submitted == spec_count_submitted(outcomes@),
        r.failed_submissions == outcomes@.len() - spec_count_submitted(outcomes@),
        r.confirmed == spec_count_confirmed(confirmations@),
        r.unconfirmed == confirmations@.len() - spec_count_confirmed(confirmations@),
{
    let ids = ids_to_poll(outcomes);
    let submitted = ids.len();
    proof {
        lemma_count_submitted_le(outcomes@);
    }
    let failed_submissions = outcomes.len() - submitted;
    let mut confirmed: usize = 0;
    let mut i: usize = 0;
    while i < confirmations.len()
        invariant
            i <= confirmations@.len(),
            confirmed == spec_count_confirmed(confirmations@.take(i as int)),
            confirmed <= i,
        decreases confirmations@.len() - i,
    {
        proof {
            assert(confirmations@.take(i + 1) =~= confirmations@.take(i as int).push(
                confirmations@[i as int],
            ));
            lemma_count_confirmed_snoc(confirmations@.take(i as int), confirmations@[i as int]);
        }
        if confirmations[i].is_confirmed() {
            confirmed = confirmed + 1;
        }
        i = i + 1;
    }
    proof {
        assert(confirmations@.take(confirmations@.len() as int) =~= confirmations@);
        lemma_count_confirmed_le(confirmations@);
    }
    let unconfirmed = confirmations.len() - confirmed;
    BatchResult { submitted, failed_submissions, confirmed, unconfirmed, elapsed_millis }
}

/// Appending one confirmation adds one to the count exactly when it is
/// confirmed.
pub proof fn lemma_count_confirmed_snoc(c: Seq<ConfirmationOutcome>, x: ConfirmationOutcome)
    ensures
        spec_count_confirmed(c.push(x)) == spec_count_confirmed(c) + (if x is Confirmed {
            1nat
        } else {
            0nat
        }),
    decreases c.len(),
{
    if c.len() == 0 {
        assert(c.push(x).first() == x);
        assert(c.push(x).drop_first() =~= Seq::<ConfirmationOutcome>::empty());
        assert(spec_count_confirmed(Seq::<ConfirmationOutcome>::empty()) == 0);
    } else {
        assert(c.push(x).first() == c.first());
        assert(c.push(x).drop_first() =~= c.drop_first().push(x));
        lemma_count_confirmed_snoc(c.drop_first(), x);
    }
}

/// The reporter is a pure function of the outcome lists: the same lists
/// always yield the same aggregate summary.
pub proof fn lemma_report_idempotent(
    s1: Seq<SubmissionOutcome>,
    c1: Seq<ConfirmationOutcome>,
    s2: Seq<SubmissionOutcome>,
    c2: Seq<ConfirmationOutcome>,
    elapsed_millis: u64,
)
    requires
        s1 == s2,
        c1 == c2,
    ensures
        spec_batch_result(s1, c1, elapsed_millis) == spec_batch_result(s2, c2, elapsed_millis),
{
}

} // verus!
