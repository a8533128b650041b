use vstd::prelude::*;

verus! {

/// A bounded number of attempts, with a fixed wait between two attempts and none after the last.
#[derive(Clone, Copy, Debug)]
pub struct RetryPolicy {
    pub max_attempts: u32,
    pub interval_millis: u64,
}

/// What to do after an attempt.
#[derive(Clone, Copy, Debug, PartialEq, Eq, Structural)]
pub enum RetryStep {
    /// The attempt succeeded: stop.
    Succeeded,
    /// The attempt failed and another is allowed: wait the interval, then try again.
    WaitThenRetry,
    /// The attempt failed and it was the last one allowed.
    GiveUp,
}

/// How a run of attempts ended: whether one succeeded, how many were made and how many waits
/// came between them.
pub struct RetryRun {
    pub succeeded: bool,
    pub attempts: nat,
    pub waits: nat,
}

/// The step after attempt number `attempt` (counting from 1) of at most `max`.
pub open spec fn step_after(max: u32, attempt: nat, succeeded: bool) -> RetryStep {
    if succeeded {
        RetryStep::Succeeded
    } else if attempt < max {
        RetryStep::WaitThenRetry
    } else {
        RetryStep::GiveUp
    }
}

/// Runs the policy against the outcomes `outcomes` (the outcome of attempt `i + 1` is
/// `outcomes[i]`), when `done` attempts have already failed.
pub open spec fn run_from(max: u32, outcomes: Seq<bool>, done: nat) -> RetryRun
    decreases max - done,
{
    if done >= max || done >= outcomes.len() {
        RetryRun { succeeded: false, attempts: done, waits: 0 }
    } else {
        match step_after(max, done + 1, outcomes[done as int]) {
            RetryStep::Succeeded => RetryRun { succeeded: true, attempts: done + 1, waits: 0 },
            RetryStep::GiveUp => RetryRun { succeeded: false, attempts: done + 1, waits: 0 },
            RetryStep::WaitThenRetry => {
                let rest = run_from(max, outcomes, done + 1);
                RetryRun { succeeded: rest.succeeded, attempts: rest.attempts, waits: rest.waits + 1 }
            },
        }
    }
}

impl RetryPolicy {
    pub fn new(max_attempts: u32, interval_millis: u64) -> (r: RetryPolicy)
        ensures
            r.max_attempts == max_attempts,
            r.interval_millis == interval_millis,
    {
        RetryPolicy { max_attempts, interval_millis }
    }

    /// Whether a first attempt may be made at all.
    pub fn allows_attempt(&self) -> (r: bool)
        ensures
            r == (self.max_attempts > 0),
    {
        self.max_attempts > 0
    }

    /// The step after attempt number `attempt` (counting from 1), given its outcome.
    pub fn after_attempt(&self, attempt: u32, succeeded: bool) -> (r: RetryStep)
        requires
            1 <= attempt <= self.max_attempts,
        ensures
            r == step_after(self.max_attempts, attempt as nat, succeeded),
    {
        if succeeded {
            RetryStep::Succeeded
        } else if attempt < self.max_attempts {
            RetryStep::WaitThenRetry
        } else {
            RetryStep::GiveUp
        }
    }
}

/// When no attempt ever succeeds, the policy gives up after exactly `max` attempts, having
/// waited between each two of them and not after the last.
pub proof fn lemma_all_failures_give_up(max: u32, outcomes: Seq<bool>)
    requires
        max >= 1,
        outcomes.len() >= max,
        forall|i: int| 0 <= i < outcomes.len() ==> !#[trigger] outcomes[i],
    ensures
        run_from(max, outcomes, 0) == (RetryRun { succeeded: false, attempts: max as nat, waits: (max - 1) as nat }),
{
    lemma_failures_from(max, outcomes, 0);
}

proof fn lemma_failures_from(max: u32, outcomes: Seq<bool>, done: nat)
    requires
        done < max,
        outcomes.len() >= max,
        forall|i: int| 0 <= i < outcomes.len() ==> !#[trigger] outcomes[i],
    ensures
        run_from(max, outcomes, done) == (RetryRun { succeeded: false, attempts: max as nat, waits: (max - 1 - done) as nat }),
    decreases max - done,
{
    if done + 1 < max {
        lemma_failures_from(max, outcomes, done + 1);
    }
    assert(!outcomes[done as int]);
}

/// When attempt `k + 1` is the first to succeed and it is allowed, the run succeeds after
/// `k + 1` attempts with `k` waits.
pub proof fn lemma_first_success(max: u32, outcomes: Seq<bool>, k: nat)
    requires
        k < max,
        k < outcomes.len(),
        outcomes[k as int],
        forall|i: int| 0 <= i < k ==> !#[trigger] outcomes[i],
    ensures
        run_from(max, outcomes, 0) == (RetryRun { succeeded: true, attempts: k + 1, waits: k }),
{
    lemma_success_from(max, outcomes, k, 0);
}

proof fn lemma_success_from(max: u32, outcomes: Seq<bool>, k: nat, done: nat)
    requires
        done <= k < max,
        k < outcomes.len(),
        outcomes[k as int],
        forall|i: int| 0 <= i < k ==> !#[trigger] outcomes[i],
    ensures
        run_from(max, outcomes, done) == (RetryRun { succeeded: true, attempts: k + 1, waits: (k - done) as nat }),
    decreases k - done,
{
    if done < k {
        assert(!outcomes[done as int]);
        lemma_success_from(max, outcomes, k, done + 1);
    }
}

} // verus!
