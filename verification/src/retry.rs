use vstd::prelude::*;

use crate::decode::Reading;
use crate::error::SensorError;

verus! {

/// The bounded-retry policy of a multi-attempt read, as a state machine.
///
/// The caller asks for at most `retry` attempts with [`RetryState::begin`],
/// performs one full read (capture plus decode) whenever the machine says
/// [`RetryStep::Attempt`], and feeds the outcome to [`RetryState::step`].
/// The first successful attempt ends the read with that success; when every
/// allowed attempt has failed, the read ends with a generic
/// `SensorError::FailedRead`, the detail of the last failure deliberately
/// collapsed. The caller sleeps a fixed backoff interval after each failed
/// attempt; the machine itself never waits.
pub struct RetryState {
    remaining: usize,
}

/// What the retry policy decides next.
pub enum RetryStep {
    /// Perform one read attempt and feed its outcome to [`RetryState::step`].
    Attempt(RetryState),
    /// The multi-attempt read is over, with this final outcome.
    Done(Result<Reading, SensorError>),
}

/// Ghost summary of a finished multi-attempt read: the first success, or
/// exhaustion of every allowed attempt.
pub enum RetrySummary {
    Success(Reading),
    Exhausted,
}

/// The result of running the retry policy with `remaining` allowed attempts
/// against the sequence of outcomes the attempts would produce: the summary
/// and the number of attempts actually performed.
pub open spec fn retry_run(
    remaining: int,
    outcomes: Seq<Result<Reading, SensorError>>,
) -> (RetrySummary, int)
    decreases remaining,
{
    if remaining <= 0 {
        (RetrySummary::Exhausted, 0)
    } else if outcomes[0] is Ok {
        (RetrySummary::Success(outcomes[0]->Ok_0), 1)
    } else {
        let sub = retry_run(remaining - 1, outcomes.drop_first());
        (sub.0, sub.1 + 1)
    }
}

impl RetryState {
    /// How many attempts may still be performed.
    pub closed spec fn attempts_left(self) -> int {
        self.remaining as int
    }

    /// Starts a read with at most `retry` attempts. With no attempt allowed
    /// the read is already exhausted; otherwise the first attempt may run.
    pub fn begin(retry: usize) -> (r: RetryStep)
        ensures
            retry == 0 ==> (r matches RetryStep::Done(res) && res matches Err(e)
                && e matches SensorError::FailedRead(m) && m@ == "dht11 failed"@),
            retry >= 1 ==> (r matches RetryStep::Attempt(st) && st.attempts_left() == retry),
    {
        if retry == 0 {
            RetryStep::Done(Err(SensorError::FailedRead(String::from_str("dht11 failed"))))
        } else {
            RetryStep::Attempt(RetryState { remaining: retry })
        }
    }

    /// Feeds the outcome of one attempt into the policy. A successful
    /// attempt ends the read at once with exactly that outcome; a failed
    /// attempt consumes one allowed attempt, and when it was the last, the
    /// read ends with the generic `FailedRead` of an exhausted retry.
    ///
    /// The two quantified clauses state that this decision is one step of
    /// [`retry_run`]: whatever outcomes later attempts would produce, the
    /// run with this attempt's outcome in front is the run the returned
    /// state stands for, one attempt further in.
    pub fn step(self, outcome: Result<Reading, SensorError>) -> (r: RetryStep)
        requires
            self.attempts_left() >= 1,
        ensures
            (match r {
                RetryStep::Attempt(st) => outcome is Err && self.attempts_left() > 1
                    && st.attempts_left() == self.attempts_left() - 1,
                RetryStep::Done(res) => (outcome is Ok && res == outcome) || (outcome is Err
                    && self.attempts_left() == 1 && (res matches Err(e)
                    && e matches SensorError::FailedRead(m) && m@ == "dht11 failed"@)),
            }),
            outcome is Ok ==> (forall|rest: Seq<Result<Reading, SensorError>>|
                #[trigger] retry_run(self.attempts_left(), seq![outcome].add(rest)) == (
                RetrySummary::Success(outcome->Ok_0), 1int)),
            outcome is Err ==> (forall|rest: Seq<Result<Reading, SensorError>>|
                #[trigger] retry_run(self.attempts_left(), seq![outcome].add(rest)) == ({
                    let sub = retry_run(self.attempts_left() - 1, rest);
                    (sub.0, sub.1 + 1int)
                })),
    {
        proof {
            assert forall|rest: Seq<Result<Reading, SensorError>>|
                #[trigger] retry_run(self.attempts_left(), seq![outcome].add(rest)) == (
                if outcome is Ok {
                    (RetrySummary::Success(outcome->Ok_0), 1int)
                } else {
                    let sub = retry_run(self.attempts_left() - 1, rest);
                    (sub.0, sub.1 + 1int)
                }) by {
                let s = seq![outcome].add(rest);
                assert(s[0] == outcome);
                assert(s.drop_first() =~= rest);
            }
        }
        match outcome {
            Ok(reading) => RetryStep::Done(Ok(reading)),
            Err(_) => {
                if self.remaining <= 1 {
                    RetryStep::Done(
                        Err(SensorError::FailedRead(String::from_str("dht11 failed"))),
                    )
                } else {
                    RetryStep::Attempt(RetryState { remaining: self.remaining - 1 })
                }
            },
        }
    }
}

/// A multi-attempt read whose first `n - 1` attempts fail and whose `n`-th
/// attempt succeeds returns exactly that success, after exactly `n`
/// attempts.
pub proof fn lemma_retry_first_success(n: int, outcomes: Seq<Result<Reading, SensorError>>)
    requires
        1 <= n,
        outcomes.len() >= n,
        forall|i: int| 0 <= i < n - 1 ==> outcomes[i] is Err,
        outcomes[n - 1] is Ok,
    ensures
        retry_run(n, outcomes) == (RetrySummary::Success(outcomes[n - 1]->Ok_0), n),
    decreases n,
{
    if n > 1 {
        assert(outcomes[0] is Err);
        lemma_retry_first_success(n - 1, outcomes.drop_first());
    }
}

/// A multi-attempt read all of whose `n` allowed attempts fail is exhausted
/// after exactly `n` attempts; an exhausted read surfaces as the generic
/// `FailedRead` (see [`RetryState::step`]).
pub proof fn lemma_retry_all_fail(n: int, outcomes: Seq<Result<Reading, SensorError>>)
    requires
        0 <= n,
        outcomes.len() >= n,
        forall|i: int| 0 <= i < n ==> outcomes[i] is Err,
    ensures
        retry_run(n, outcomes) == (RetrySummary::Exhausted, n),
    decreases n,
{
    if n > 0 {
        assert(outcomes[0] is Err);
        lemma_retry_all_fail(n - 1, outcomes.drop_first());
    }
}

} // verus!
