//! Bounded retry with a fixed pause: the decisions only. The caller runs the
//! confirmation read, reports whether it succeeded, and waits when told to.
use vstd::prelude::*;

verus! {

/// How often and how far apart a confirmation read is repeated after the first one.
#[derive(Clone, Copy, Debug, PartialEq, Eq, Structural)]
pub struct RetryPolicy {
    /// Retries allowed after the first read.
    pub max_attempts: u32,
    /// Pause before each retry, in milliseconds.
    pub delay_ms: u64,
}

impl RetryPolicy {
    /// The policy of every confirmation read: three retries, half a second apart.
    pub fn confirmation() -> (r: RetryPolicy)
        ensures
            r.max_attempts == 3,
            r.delay_ms == 500,
    {
        RetryPolicy { max_attempts: 3, delay_ms: 500 }
    }
}

/// What to do after a read.
#[derive(Clone, Copy, Debug, PartialEq, Eq, Structural)]
pub enum RetryStep {
    /// The read succeeded: stop.
    Finished,
    /// The read failed and budget is left: wait this many milliseconds, then read again.
    RetryAfter(u64),
    /// The read failed and no retry is left: report the last failure.
    GaveUp,
}

/// The decision after one read, with `left` retries remaining: the new budget and the step.
pub open spec fn retry_step(left: nat, delay_ms: u64, succeeded: bool) -> (nat, RetryStep) {
    if succeeded {
        (left, RetryStep::Finished)
    } else if left == 0 {
        (0, RetryStep::GaveUp)
    } else {
        ((left - 1) as nat, RetryStep::RetryAfter(delay_ms))
    }
}

/// The steps taken when `k` reads in a row fail, starting with `left` retries; the run
/// ends early where the budget gives out.
pub open spec fn failing_run(left: nat, delay_ms: u64, k: nat) -> Seq<RetryStep>
    decreases k,
{
    if k == 0 {
        Seq::empty()
    } else {
        let (next, step) = retry_step(left, delay_ms, false);
        if step == RetryStep::GaveUp {
            seq![step]
        } else {
            seq![step] + failing_run(next, delay_ms, (k - 1) as nat)
        }
    }
}

/// When the daemon never confirms, a fresh retry state waits and reads again exactly
/// `max_attempts` times, then gives up on the next failure; no further read is asked for.
pub proof fn lemma_retries_exactly_max(policy: RetryPolicy, extra: nat)
    ensures
        failing_run(policy.max_attempts as nat, policy.delay_ms, (policy.max_attempts + 1 + extra) as nat)
            == Seq::new(policy.max_attempts as nat, |i: int| RetryStep::RetryAfter(policy.delay_ms))
            .push(RetryStep::GaveUp),
    decreases policy.max_attempts,
{
    let n = policy.max_attempts as nat;
    let d = policy.delay_ms;
    if n == 0 {
        assert(failing_run(0, d, (1 + extra) as nat) =~= seq![RetryStep::GaveUp]);
        assert(Seq::new(0, |i: int| RetryStep::RetryAfter(d)).push(RetryStep::GaveUp) =~= seq![
            RetryStep::GaveUp,
        ]);
    } else {
        let smaller = RetryPolicy { max_attempts: (policy.max_attempts - 1) as u32, delay_ms: d };
        lemma_retries_exactly_max(smaller, extra);
        let rest = failing_run((n - 1) as nat, d, (n + extra) as nat);
        assert(failing_run(n, d, (n + 1 + extra) as nat) == seq![RetryStep::RetryAfter(d)] + rest);
        assert(seq![RetryStep::RetryAfter(d)] + Seq::new(
            (n - 1) as nat,
            |i: int| RetryStep::RetryAfter(d),
        ).push(RetryStep::GaveUp) =~= Seq::new(n, |i: int| RetryStep::RetryAfter(d)).push(
            RetryStep::GaveUp,
        ));
    }
}

/// The budget of one confirmation run.
#[derive(Clone, Copy, Debug)]
pub struct RetryState {
    pub policy: RetryPolicy,
    /// Retries still allowed.
    pub retries_left: u32,
}

impl RetryState {
    /// A run that has not read yet.
    pub fn new(policy: RetryPolicy) -> (r: RetryState)
        ensures
            r.policy == policy,
            r.retries_left == policy.max_attempts,
    {
        RetryState { policy, retries_left: policy.max_attempts }
    }

    /// Records the outcome of a read and says what comes next.
    pub fn record(&mut self, succeeded: bool) -> (r: RetryStep)
        ensures
            final(self).policy == old(self).policy,
            (final(self).retries_left as nat, r) == retry_step(
                old(self).retries_left as nat,
                old(self).policy.delay_ms,
                succeeded,
            ),
    {
        if succeeded {
            RetryStep::Finished
        } else if self.retries_left == 0 {
            RetryStep::GaveUp
        } else {
            self.retries_left = self.retries_left - 1;
            RetryStep::RetryAfter(self.policy.delay_ms)
        }
    }
}

} // verus!
