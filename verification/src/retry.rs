//! The retry budget of an operation that is tried again after a failure.
//!
//! An operation starts at attempt number 0. After a failed attempt it is
//! tried again while the attempt number is below the allowed number of
//! retries, and the attempt number grows by one; otherwise the failure is
//! final. With `n` allowed retries an operation that keeps failing is thus
//! tried `n + 1` times, and the first success ends the run at once.

use vstd::prelude::*;

verus! {

/// Counts the retries an operation has taken against the retries it may take.
pub struct RetryBudget {
    attempt_no: usize,
    max_attempts_amount: usize,
}

/// Whether a run of attempts goes on after an attempt with the given result:
/// only a failure does, and only while retries are left.
pub open spec fn continues_after(attempt_no: nat, max_attempts_amount: nat, succeeded: bool) -> bool {
    !succeeded && attempt_no < max_attempts_amount
}

/// The number of attempts a run makes when the attempts, taken in turn from
/// attempt number `attempt_no` on, succeed as `outcomes` says (`true` for a
/// success). The run stops at the first success, when no retry is left, or
/// when `outcomes` has nothing more to say.
pub open spec fn attempts_made(attempt_no: nat, max_attempts_amount: nat, outcomes: Seq<bool>) -> nat
    decreases outcomes.len(),
{
    if outcomes.len() == 0 {
        0
    } else if continues_after(attempt_no, max_attempts_amount, outcomes[0]) {
        1 + attempts_made(attempt_no + 1, max_attempts_amount, outcomes.drop_first())
    } else {
        1
    }
}

/// What a retrying loop does with the result of one attempt.
pub enum RetryStep<T, E> {
    /// The run is over and this is its result.
    Finished(Result<T, E>),
    /// The attempt failed and is to be made again.
    TryAgain,
}

impl RetryBudget {
    #[verifier::type_invariant]
    spec fn within_budget(self) -> bool {
        self.attempt_no <= self.max_attempts_amount
    }

    /// The retries taken so far.
    pub closed spec fn attempt_no_spec(self) -> nat {
        self.attempt_no as nat
    }

    /// The retries allowed in all.
    pub closed spec fn max_attempts_amount_spec(self) -> nat {
        self.max_attempts_amount as nat
    }

    /// A budget of `max_attempts_amount` retries, none taken yet.
    pub fn new(max_attempts_amount: usize) -> (res: Self)
        ensures
            res.attempt_no_spec() == 0,
            res.max_attempts_amount_spec() == max_attempts_amount,
    {
        RetryBudget { attempt_no: 0, max_attempts_amount }
    }

    /// The retries taken so far.
    pub fn attempt_no(&self) -> (res: usize)
        ensures
            res == self.attempt_no_spec(),
    {
        self.attempt_no
    }

    /// The retries allowed in all.
    pub fn max_attempts_amount(&self) -> (res: usize)
        ensures
            res == self.max_attempts_amount_spec(),
    {
        self.max_attempts_amount
    }

    /// Records a failed attempt. Returns whether the operation is to be tried
    /// again; if so, one more retry is counted as taken, else nothing changes.
    pub fn on_failure(&mut self) -> (retry: bool)
        ensures
            retry == (old(self).attempt_no_spec() < old(self).max_attempts_amount_spec()),
            retry ==> final(self).attempt_no_spec() == old(self).attempt_no_spec() + 1,
            !retry ==> final(self).attempt_no_spec() == old(self).attempt_no_spec(),
            final(self).max_attempts_amount_spec() == old(self).max_attempts_amount_spec(),
            final(self).attempt_no_spec() <= final(self).max_attempts_amount_spec(),
    {
        proof {
            use_type_invariant(&*self);
        }
        if self.attempt_no >= self.max_attempts_amount {
            false
        } else {
            self.attempt_no = self.attempt_no + 1;
            true
        }
    }
}

/// Handles the result of one attempt of a retried request: a success ends
/// the run with it; a failure is tried again while retries are left, and
/// ends the run with that failure once none is left.
pub fn retry_step<T, E>(budget: &mut RetryBudget, result: Result<T, E>) -> (step: RetryStep<T, E>)
    ensures
        (step is TryAgain) == continues_after(
            old(budget).attempt_no_spec(),
            old(budget).max_attempts_amount_spec(),
            result is Ok,
        ),
        !(step is TryAgain) ==> step == RetryStep::Finished(result),
        step is TryAgain ==> final(budget).attempt_no_spec() == old(budget).attempt_no_spec() + 1,
        !(step is TryAgain) ==> final(budget).attempt_no_spec() == old(budget).attempt_no_spec(),
        final(budget).max_attempts_amount_spec() == old(budget).max_attempts_amount_spec(),
{
    match result {
        Ok(value) => RetryStep::Finished(Ok(value)),
        Err(err) => {
            if budget.on_failure() {
                RetryStep::TryAgain
            } else {
                RetryStep::Finished(Err(err))
            }
        },
    }
}

/// A run that keeps failing makes exactly one attempt more than the retries
/// it is allowed: from attempt number `attempt_no`, `max - attempt_no + 1`.
pub proof fn law_failing_run_length(attempt_no: nat, max_attempts_amount: nat, outcomes: Seq<bool>)
    requires
        attempt_no <= max_attempts_amount,
        outcomes.len() > max_attempts_amount - attempt_no,
        forall|i: int| 0 <= i < outcomes.len() ==> !outcomes[i],
    ensures
        attempts_made(attempt_no, max_attempts_amount, outcomes) == max_attempts_amount - attempt_no + 1,
    decreases max_attempts_amount - attempt_no,
{
    if attempt_no < max_attempts_amount {
        let rest = outcomes.drop_first();
        assert forall|i: int| 0 <= i < rest.len() implies !rest[i] by {
            assert(rest[i] == outcomes[i + 1]);
        }
        law_failing_run_length(attempt_no + 1, max_attempts_amount, rest);
    }
}

/// A run stops at its first success: when the attempt at index `k` of the
/// run succeeds, every earlier one failed, and the budget allows `k`
/// retries, the run makes `k + 1` attempts.
pub proof fn law_first_success_ends_run(
    attempt_no: nat,
    max_attempts_amount: nat,
    outcomes: Seq<bool>,
    k: nat,
)
    requires
        k < outcomes.len(),
        attempt_no + k <= max_attempts_amount,
        outcomes[k as int],
        forall|i: int| 0 <= i < k ==> !outcomes[i],
    ensures
        attempts_made(attempt_no, max_attempts_amount, outcomes) == k + 1,
    decreases k,
{
    if k > 0 {
        let rest = outcomes.drop_first();
        assert(!outcomes[0]);
        assert forall|i: int| 0 <= i < (k - 1) as nat implies !rest[i] by {
            assert(rest[i] == outcomes[i + 1]);
        }
        assert(rest[(k - 1) as int] == outcomes[k as int]);
        law_first_success_ends_run(attempt_no + 1, max_attempts_amount, rest, (k - 1) as nat);
    }
}

/// A run never makes more attempts than one more than its budget allows.
pub proof fn law_attempts_bounded(attempt_no: nat, max_attempts_amount: nat, outcomes: Seq<bool>)
    requires
        attempt_no <= max_attempts_amount,
    ensures
        attempts_made(attempt_no, max_attempts_amount, outcomes) <= max_attempts_amount - attempt_no + 1,
    decreases outcomes.len(),
{
    if outcomes.len() > 0 && continues_after(attempt_no, max_attempts_amount, outcomes[0]) {
        law_attempts_bounded(attempt_no + 1, max_attempts_amount, outcomes.drop_first());
    }
}

} // verus!
