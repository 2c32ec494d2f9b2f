//! Bounded exponential backoff around token acquisition: the delay schedule,
//! the per-attempt bookkeeping, and the laws bounding how many attempts a
//! retried acquisition can make.

use vstd::prelude::*;
use crate::retrieval::TokenError;

verus! {

/// First retry delay, in milliseconds.
pub const BACKOFF_MIN_DELAY_MS: u64 = 1000;

/// Ceiling on any retry delay, in milliseconds.
pub const BACKOFF_MAX_DELAY_MS: u64 = 60000;

/// The delay, in milliseconds, waited after the `failures`-th failed attempt
/// (counting from 1) before the next attempt: it starts at the minimum and
/// doubles each time, never exceeding the ceiling.
pub open spec fn backoff_delay_ms_spec(failures: nat) -> u64
    decreases failures,
{
    if failures <= 1 {
        BACKOFF_MIN_DELAY_MS
    } else {
        let doubled = 2 * backoff_delay_ms_spec((failures - 1) as nat);
        if doubled > BACKOFF_MAX_DELAY_MS {
            BACKOFF_MAX_DELAY_MS
        } else {
            doubled as u64
        }
    }
}

/// Every delay of the schedule stays within the ceiling.
pub proof fn lemma_backoff_delay_bounded(failures: nat)
    ensures
        backoff_delay_ms_spec(failures) <= BACKOFF_MAX_DELAY_MS,
    decreases failures,
{
    if failures > 1 {
        lemma_backoff_delay_bounded((failures - 1) as nat);
    }
}

/// Computes the delay waited after the `failures`-th failed attempt.
pub fn backoff_delay_ms(failures: u64) -> (delay: u64)
    requires
        1 <= failures,
    ensures
        delay == backoff_delay_ms_spec(failures as nat),
{
    let mut delay: u64 = BACKOFF_MIN_DELAY_MS;
    let mut i: u64 = 1;
    while i < failures
        invariant
            1 <= i <= failures,
            delay == backoff_delay_ms_spec(i as nat),
            delay <= BACKOFF_MAX_DELAY_MS,
        decreases failures - i,
    {
        let doubled: u64 = 2 * delay;
        delay = if doubled > BACKOFF_MAX_DELAY_MS {
            BACKOFF_MAX_DELAY_MS
        } else {
            doubled
        };
        i = i + 1;
    }
    delay
}

/// How a bounded-retry acquisition reacts to a failed attempt.
pub enum RetryDecision {
    /// Try again after waiting this many milliseconds.
    RetryAfterMillis { delay_ms: u64 },
    /// Retries are exhausted; escalate the last error.
    GiveUp,
}

/// The retry budget of an acquisition: up to `max_retries` further attempts
/// after the first, so `max_retries + 1` attempts in all.
pub struct RetryPolicy {
    pub max_retries: u64,
}

/// The progress of one bounded-retry acquisition: how many attempts have
/// failed so far against a fixed budget.
pub struct RetryRun {
    pub failures: u64,
    pub max_retries: u64,
}

impl RetryRun {
    /// Starts an acquisition under the given budget, before any attempt.
    pub fn new(policy: &RetryPolicy) -> (run: RetryRun)
        ensures
            run.failures == 0,
            run.max_retries == policy.max_retries,
    {
        RetryRun { failures: 0, max_retries: policy.max_retries }
    }

    /// Records one failed attempt and decides what follows: another attempt
    /// after the scheduled backoff delay while the budget lasts, and giving
    /// up at the `max_retries + 1`-th failure.
    pub fn record_failure(&mut self) -> (decision: RetryDecision)
        requires
            old(self).failures <= old(self).max_retries,
            old(self).max_retries < u64::MAX,
        ensures
            final(self).failures == old(self).failures + 1,
            final(self).max_retries == old(self).max_retries,
            old(self).failures < old(self).max_retries ==> (decision
                matches RetryDecision::RetryAfterMillis { delay_ms } && delay_ms
                == backoff_delay_ms_spec(final(self).failures as nat)),
            old(self).failures == old(self).max_retries ==> decision is GiveUp,
    {
        self.failures = self.failures + 1;
        if self.failures > self.max_retries {
            RetryDecision::GiveUp
        } else {
            RetryDecision::RetryAfterMillis { delay_ms: backoff_delay_ms(self.failures) }
        }
    }
}

/// What follows a failed attempt when its error is carried along: another
/// attempt after the scheduled delay, or the typed escalation of the last
/// error once the budget is spent.
pub enum RetryStep {
    /// Try again after waiting this many milliseconds.
    RetryAfterMillis { delay_ms: u64 },
    /// The budget is spent; escalate exactly this error.
    Exhausted { error: TokenError },
}

impl RetryRun {
    /// Records one failed attempt together with its error: while the
    /// budget lasts the next attempt is scheduled after the backoff delay;
    /// at the `max_retries + 1`-th failure the acquisition gives up and
    /// escalates exactly `ExhaustedRetries` around that last error — never
    /// a stale or default token.
    pub fn on_failure(&mut self, last_error: TokenError) -> (step: RetryStep)
        requires
            old(self).failures <= old(self).max_retries,
            old(self).max_retries < u64::MAX,
        ensures
            final(self).failures == old(self).failures + 1,
            final(self).max_retries == old(self).max_retries,
            old(self).failures < old(self).max_retries ==> (step
                matches RetryStep::RetryAfterMillis { delay_ms } && delay_ms
                == backoff_delay_ms_spec(final(self).failures as nat)),
            old(self).failures == old(self).max_retries ==> (step matches RetryStep::Exhausted {
                error,
            } && (error matches TokenError::ExhaustedRetries { last_error: boxed } && *boxed
                == last_error)),
    {
        match self.record_failure() {
            RetryDecision::RetryAfterMillis { delay_ms } => RetryStep::RetryAfterMillis {
                delay_ms,
            },
            RetryDecision::GiveUp => RetryStep::Exhausted {
                error: crate::retrieval::wrap_exhausted(last_error),
            },
        }
    }
}

/// The number of attempts a bounded-retry acquisition makes when successive
/// attempts turn out as `outcomes` says (`true` is success): attempts are
/// made one by one until the first success, until the outcomes run out, or
/// until `max_retries` retries have followed the first attempt.
pub open spec fn attempts_used(outcomes: Seq<bool>, max_retries: nat) -> nat
    decreases outcomes.len(),
{
    if outcomes.len() == 0 {
        0
    } else if outcomes[0] {
        1
    } else if max_retries == 0 {
        1
    } else {
        1 + attempts_used(outcomes.drop_first(), (max_retries - 1) as nat)
    }
}

/// A retried acquisition with a budget of `max_retries` retries makes at
/// most `max_retries + 1` attempts, whatever the attempts' outcomes.
pub proof fn lemma_retry_attempts_bounded(outcomes: Seq<bool>, max_retries: nat)
    ensures
        attempts_used(outcomes, max_retries) <= max_retries + 1,
    decreases outcomes.len(),
{
    if outcomes.len() > 0 && !outcomes[0] && max_retries > 0 {
        lemma_retry_attempts_bounded(outcomes.drop_first(), (max_retries - 1) as nat);
    }
}

/// A retried acquisition stops at the first success: when the first
/// successful attempt is the `i + 1`-th and lies within the budget, exactly
/// `i + 1` attempts are made.
pub proof fn lemma_retry_stops_on_first_success(outcomes: Seq<bool>, max_retries: nat, i: int)
    requires
        0 <= i < outcomes.len(),
        outcomes[i],
        forall|j: int| 0 <= j < i ==> !outcomes[j],
        i <= max_retries,
    ensures
        attempts_used(outcomes, max_retries) == i + 1,
    decreases i,
{
    if i > 0 {
        lemma_retry_stops_on_first_success(outcomes.drop_first(), (max_retries - 1) as nat, i - 1);
    }
}

/// Replays a bounded-retry acquisition against a fixed list of attempt
/// outcomes and returns how many attempts were made; it follows the
/// bookkeeping of `RetryRun` and lands exactly on the `attempts_used`
/// model.
pub fn attempts_for_outcomes(outcomes: &Vec<bool>, policy: &RetryPolicy) -> (n: u64)
    requires
        policy.max_retries < u64::MAX,
        outcomes@.len() <= u64::MAX,
    ensures
        n == attempts_used(outcomes@, policy.max_retries as nat),
{
    let mut n: u64 = 0;
    let mut i: usize = 0;
    let mut run = RetryRun::new(policy);
    let mut stopped: bool = false;
    proof {
        assert(outcomes@.skip(0) =~= outcomes@);
    }
    while i < outcomes.len() && !stopped
        invariant
            0 <= i <= outcomes@.len(),
            outcomes@.len() <= u64::MAX,
            run.max_retries == policy.max_retries,
            policy.max_retries < u64::MAX,
            !stopped ==> run.failures == n,
            !stopped ==> n == i,
            !stopped ==> run.failures <= run.max_retries,
            stopped ==> attempts_used(outcomes@, policy.max_retries as nat) == n,
            !stopped ==> attempts_used(outcomes@, policy.max_retries as nat) == n + attempts_used(
                outcomes@.skip(i as int),
                (run.max_retries - run.failures) as nat,
            ),
        decreases outcomes@.len() - i,
    {
        proof {
            assert(outcomes@.skip(i as int).len() > 0);
            assert(outcomes@.skip(i as int)[0] == outcomes@[i as int]);
            assert(outcomes@.skip(i as int).drop_first() =~= outcomes@.skip(i as int + 1));
        }
        n = n + 1;
        if outcomes[i] {
            stopped = true;
        } else {
            match run.record_failure() {
                RetryDecision::GiveUp => {
                    stopped = true;
                },
                RetryDecision::RetryAfterMillis { .. } => {
                },
            }
        }
        i = i + 1;
    }
    proof {
        if !stopped {
            assert(outcomes@.skip(i as int).len() == 0);
        }
    }
    n
}

} // verus!
