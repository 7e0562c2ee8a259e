//! The retry policy of a single download task.
//!
//! Every attempt runs under a timeout; a failed or timed-out attempt is
//! retried immediately until the budget of
//! [`crate::config::DOWNLOAD_RETRIES`] attempts is spent. A task that
//! exhausts its budget reports its own failure without disturbing its
//! siblings.

use vstd::prelude::*;

verus! {

/// The result of running the retry policy against a sequence of
/// per-attempt outcomes (`true` = the attempt succeeded within its
/// timeout): how many attempts were made, and whether the task succeeded.
pub open spec fn spec_retry_run(outcomes: Seq<bool>, budget: nat) -> (nat, bool)
    decreases outcomes.len(),
{
    if budget == 0 || outcomes.len() == 0 {
        (0, false)
    } else if outcomes[0] {
        (1, true)
    } else {
        let rest = spec_retry_run(outcomes.drop_first(), (budget - 1) as nat);
        ((rest.0 + 1) as nat, rest.1)
    }
}

/// A download that fails transiently `k` times, `k` at most budget − 1,
/// and then succeeds, ends successfully after exactly `k + 1` attempts.
pub proof fn lemma_retry_transient_failures(outcomes: Seq<bool>, budget: nat, k: int)
    requires
        0 <= k < budget,
        k < outcomes.len(),
        outcomes[k],
        forall|j: int| 0 <= j < k ==> !outcomes[j],
    ensures
        spec_retry_run(outcomes, budget).1,
        spec_retry_run(outcomes, budget).0 == k + 1,
    decreases k,
{
    if k > 0 {
        lemma_retry_transient_failures(outcomes.drop_first(), (budget - 1) as nat, k - 1);
    }
}

/// A download whose attempts all fail stops after exactly `budget`
/// attempts, unsuccessfully.
pub proof fn lemma_retry_exhausted(outcomes: Seq<bool>, budget: nat)
    requires
        budget <= outcomes.len(),
        forall|j: int| 0 <= j < budget ==> !outcomes[j],
    ensures
        !spec_retry_run(outcomes, budget).1,
        spec_retry_run(outcomes, budget).0 == budget,
    decreases budget,
{
    if budget > 0 {
        lemma_retry_exhausted(outcomes.drop_first(), (budget - 1) as nat);
    }
}

/// The incremental form of the retry policy, driven one attempt at a
/// time by the task that owns it.
pub struct RetryState {
    budget: usize,
    used: usize,
    succeeded: bool,
    history: Ghost<Seq<bool>>,
}

impl RetryState {
    /// The configured attempt budget.
    pub closed spec fn spec_budget(&self) -> usize {
        self.budget
    }

    /// How many attempts have been made.
    pub closed spec fn spec_used(&self) -> usize {
        self.used
    }

    /// Whether an attempt has succeeded; the task is then done.
    pub closed spec fn spec_succeeded(&self) -> bool {
        self.succeeded
    }

    /// The outcome of every attempt made, in order.
    pub closed spec fn spec_history(&self) -> Seq<bool> {
        self.history@
    }

    /// Attempts stop at the budget, only the last attempt can have
    /// succeeded, and success stops further attempts.
    pub open spec fn wf(&self) -> bool {
        &&& self.spec_used() <= self.spec_budget()
        &&& self.spec_history().len() == self.spec_used()
        &&& (self.spec_succeeded() ==> 1 <= self.spec_used())
        &&& (forall|i: int|
            0 <= i < self.spec_history().len() ==> self.spec_history()[i] == (
            self.spec_succeeded() && i == self.spec_history().len() - 1))
    }

    /// A fresh policy with the full budget.
    pub fn new(budget: usize) -> (r: RetryState)
        ensures
            r.wf(),
            r.spec_budget() == budget,
            r.spec_used() == 0,
            !r.spec_succeeded(),
    {
        RetryState { budget, used: 0, succeeded: false, history: Ghost(Seq::empty()) }
    }

    /// Whether another attempt must be made: the task has not succeeded
    /// and budget remains.
    pub fn should_attempt(&self) -> (r: bool)
        ensures
            r == (!self.spec_succeeded() && self.spec_used() < self.spec_budget()),
    {
        !self.succeeded && self.used < self.budget
    }

    /// Record the outcome of one attempt.
    pub fn record_attempt(&mut self, success: bool)
        requires
            old(self).wf(),
            !old(self).spec_succeeded(),
            old(self).spec_used() < old(self).spec_budget(),
        ensures
            final(self).wf(),
            final(self).spec_budget() == old(self).spec_budget(),
            final(self).spec_used() == old(self).spec_used() + 1,
            final(self).spec_succeeded() == success,
            final(self).spec_history() == old(self).spec_history().push(success),
    {
        self.used = self.used + 1;
        self.succeeded = success;
        proof {
            self.history@ = self.history@.push(success);
        }
    }

    /// Whether the task ended successfully.
    pub fn succeeded(&self) -> (r: bool)
        ensures
            r == self.spec_succeeded(),
    {
        self.succeeded
    }

    /// How many attempts were made.
    pub fn attempts_used(&self) -> (r: usize)
        ensures
            r == self.spec_used(),
    {
        self.used
    }
}

/// The incremental machine agrees with the retry policy: a machine that
/// has stopped reports exactly what the policy computes on its history.
pub proof fn lemma_machine_matches_policy(r: &RetryState)
    requires
        r.wf(),
        r.spec_succeeded() || r.spec_used() == r.spec_budget(),
    ensures
        spec_retry_run(r.spec_history(), r.spec_budget() as nat) == (
            r.spec_used() as nat,
            r.spec_succeeded(),
        ),
{
    if r.spec_succeeded() {
        lemma_retry_transient_failures(
            r.spec_history(),
            r.spec_budget() as nat,
            r.spec_used() - 1,
        );
    } else {
        lemma_retry_exhausted(r.spec_history(), r.spec_budget() as nat);
    }
}

} // verus!
