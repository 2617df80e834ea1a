//! The retry policy: whether a failed HTTP call is tried again, how long to
//! wait before the next attempt, and how many attempts a call gets in all.
//!
//! The policy itself is verb-agnostic: the caller says with [`Retry`]
//! whether the call is safe to repeat. A fatal error gives up at once
//! without consuming further attempts; a transient error is retried with a
//! fixed or exponentially growing delay until the configured attempt count
//! is exhausted.

use vstd::prelude::*;

use crate::error::Error;

verus! {

/// How the delay between attempts grows.
pub enum RetryPolicy {
    /// Every wait is the base delay.
    Fixed,
    /// The wait doubles after each attempt, saturating at `u64::MAX`.
    Exponential,
}

/// Settings for retrying failed calls. A call is made at most
/// `max_attempts` times in all, so the configuration is only meaningful
/// when `max_attempts` is at least 1.
pub struct RetryConfig {
    pub max_attempts: u64,
    pub base_delay_ms: u64,
    pub policy: RetryPolicy,
}

impl RetryConfig {
    /// The invariant every usable configuration satisfies.
    pub open spec fn wf(&self) -> bool {
        self.max_attempts >= 1
    }
}

/// Whether the caller permits retrying a particular call. Calls that are
/// not naturally idempotent pass `No` and are never repeated.
#[derive(Clone, Copy)]
pub enum Retry {
    Yes,
    No,
}

/// What one attempt of a call produced, as seen by the retry loop.
pub enum AttemptReport {
    /// The call went through; its payload is not the retrier's concern.
    Completed,
    /// The call failed with the given error.
    Failed(Error),
}

/// The retrier's verdict after a failed attempt.
pub enum RetryDecision {
    /// Wait `delay_ms` milliseconds, then try the call again.
    RetryAfter { delay_ms: u64 },
    /// Surface the error to the caller.
    GiveUp,
}

/// Doubling that saturates at `u64::MAX`.
pub open spec fn spec_double_sat(d: u64) -> u64 {
    if 2 * d > u64::MAX {
        u64::MAX
    } else {
        (2 * d) as u64
    }
}

/// The delay before attempt `attempts_made + 1`: the base delay for a fixed
/// policy, and the base delay doubled `attempts_made - 1` times (saturating)
/// for an exponential one.
pub open spec fn spec_backoff(config: RetryConfig, attempts_made: u64) -> u64
    decreases attempts_made,
{
    match config.policy {
        RetryPolicy::Fixed => config.base_delay_ms,
        RetryPolicy::Exponential => {
            if attempts_made <= 1 {
                config.base_delay_ms
            } else {
                spec_double_sat(spec_backoff(config, (attempts_made - 1) as u64))
            }
        },
    }
}

/// Computes the backoff delay after `attempts_made` failed attempts.
pub fn backoff_delay(config: &RetryConfig, attempts_made: u64) -> (r: u64)
    requires
        1 <= attempts_made,
    ensures
        r == spec_backoff(*config, attempts_made),
{
    match config.policy {
        RetryPolicy::Fixed => config.base_delay_ms,
        RetryPolicy::Exponential => {
            let mut delay: u64 = config.base_delay_ms;
            let mut made: u64 = 1;
            while made < attempts_made
                invariant
                    1 <= made <= attempts_made,
                    delay == spec_backoff(*config, made),
                    config.policy is Exponential,
                decreases attempts_made - made,
            {
                delay = if delay > u64::MAX / 2 {
                    u64::MAX
                } else {
                    delay * 2
                };
                made = made + 1;
            }
            delay
        },
    }
}

/// The decision the retrier owes after a failed attempt: retry exactly when
/// the caller permits it, the error is transient, and attempts remain.
pub open spec fn spec_decide(
    config: RetryConfig,
    retry: Retry,
    attempts_made: u64,
    error: Error,
) -> RetryDecision {
    if retry is Yes && error.spec_retryable() && attempts_made < config.max_attempts {
        RetryDecision::RetryAfter { delay_ms: spec_backoff(config, attempts_made) }
    } else {
        RetryDecision::GiveUp
    }
}

/// Decides what to do after an attempt has failed. `attempts_made` counts
/// the attempts already performed, including the one that just failed.
pub fn decide(config: &RetryConfig, retry: Retry, attempts_made: u64, error: &Error) -> (r:
    RetryDecision)
    requires
        config.wf(),
        1 <= attempts_made,
    ensures
        r == spec_decide(*config, retry, attempts_made, *error),
{
    let permitted = match retry {
        Retry::Yes => true,
        Retry::No => false,
    };
    if permitted && error.is_retryable() && attempts_made < config.max_attempts {
        RetryDecision::RetryAfter { delay_ms: backoff_delay(config, attempts_made) }
    } else {
        RetryDecision::GiveUp
    }
}

/// Whether the retry loop stops after examining attempt `i` (counted from
/// 0): the attempt completed, its error is not retryable (or retrying is
/// not permitted), or it was the last attempt allowed.
pub open spec fn stops_at(
    config: RetryConfig,
    retry: Retry,
    outcomes: Seq<AttemptReport>,
    i: int,
) -> bool {
    ||| outcomes[i] is Completed
    ||| (outcomes[i] matches AttemptReport::Failed(e) && !(retry is Yes && e.spec_retryable()))
    ||| i == config.max_attempts - 1
}

/// The index of the attempt on which the retry loop stops, scanning from
/// `i`. The scan never runs past the last permitted attempt.
pub open spec fn stop_from(
    config: RetryConfig,
    retry: Retry,
    outcomes: Seq<AttemptReport>,
    i: int,
) -> int
    decreases config.max_attempts - i,
{
    if i >= config.max_attempts - 1 || stops_at(config, retry, outcomes, i) {
        i
    } else {
        stop_from(config, retry, outcomes, i + 1)
    }
}

/// The index of the attempt on which the retry loop stops.
pub open spec fn spec_stop_index(
    config: RetryConfig,
    retry: Retry,
    outcomes: Seq<AttemptReport>,
) -> int {
    stop_from(config, retry, outcomes, 0)
}

proof fn lemma_stop_from_reaches(
    config: RetryConfig,
    retry: Retry,
    outcomes: Seq<AttemptReport>,
    i: int,
    j: int,
)
    requires
        0 <= i <= j <= config.max_attempts - 1,
        forall|k: int| i <= k < j ==> !stops_at(config, retry, outcomes, k),
        j == config.max_attempts - 1 || stops_at(config, retry, outcomes, j),
    ensures
        stop_from(config, retry, outcomes, i) == j,
    decreases j - i,
{
    if i < j {
        lemma_stop_from_reaches(config, retry, outcomes, i + 1, j);
    }
}

/// Drives the retry loop over a fixed sequence of attempt outcomes:
/// `outcomes[i]` is what the `i + 1`-th attempt of the call would produce.
/// Returns how many attempts were made and the final result: success if
/// the loop stopped on a completed attempt, the last error otherwise.
pub fn run_retry(config: &RetryConfig, retry: Retry, outcomes: &Vec<AttemptReport>) -> (r: (
    u64,
    Result<(), Error>,
))
    requires
        config.wf(),
        outcomes@.len() >= config.max_attempts,
    ensures
        r.0 == spec_stop_index(*config, retry, outcomes@) + 1,
        outcomes@[spec_stop_index(*config, retry, outcomes@)] is Completed ==> r.1 is Ok,
        (outcomes@[spec_stop_index(*config, retry, outcomes@)] matches AttemptReport::Failed(e)
            ==> r.1 == Result::<(), Error>::Err(e)),
{
    let ghost stop = spec_stop_index(*config, retry, outcomes@);
    let n = outcomes.len();
    let mut i: usize = 0;
    loop
        invariant
            config.wf(),
            outcomes@.len() >= config.max_attempts,
            n == outcomes@.len(),
            0 <= i < config.max_attempts,
            forall|k: int| 0 <= k < i ==> !stops_at(*config, retry, outcomes@, k),
            stop == spec_stop_index(*config, retry, outcomes@),
        decreases config.max_attempts - i,
    {
        let attempts_made = i as u64 + 1;
        match &outcomes[i] {
            AttemptReport::Completed => {
                proof {
                    lemma_stop_from_reaches(*config, retry, outcomes@, 0, i as int);
                }
                return (attempts_made, Ok(()));
            },
            AttemptReport::Failed(e) => {
                match decide(config, retry, attempts_made, e) {
                    RetryDecision::RetryAfter { .. } => {
                        i = i + 1;
                    },
                    RetryDecision::GiveUp => {
                        proof {
                            lemma_stop_from_reaches(*config, retry, outcomes@, 0, i as int);
                        }
                        return (attempts_made, Err(e.clone()));
                    },
                }
            },
        }
    }
}

/// A permanently failing retryable call is attempted exactly
/// `max_attempts` times and then surfaces the last error: when every
/// outcome is a transient failure and retrying is permitted, the retry
/// loop stops only on the last permitted attempt.
pub proof fn lemma_permanent_failure_exhausts_attempts(
    config: RetryConfig,
    outcomes: Seq<AttemptReport>,
)
    requires
        config.wf(),
        outcomes.len() >= config.max_attempts,
        forall|i: int| 0 <= i < outcomes.len() ==> (#[trigger] outcomes[i]
            matches AttemptReport::Failed(e) && e.spec_retryable()),
    ensures
        spec_stop_index(config, Retry::Yes, outcomes) == config.max_attempts - 1,
        (outcomes[spec_stop_index(config, Retry::Yes, outcomes)]
            matches AttemptReport::Failed(e)),
{
    assert forall|k: int| 0 <= k < config.max_attempts - 1 implies !stops_at(
        config,
        Retry::Yes,
        outcomes,
        k,
    ) by {
        assert(outcomes[k] matches AttemptReport::Failed(e) && e.spec_retryable());
    }
    lemma_stop_from_reaches(config, Retry::Yes, outcomes, 0, config.max_attempts - 1);
}

/// A fatal error is attempted exactly once: when the first attempt fails
/// with a non-retryable error, the retry loop stops on it immediately and
/// surfaces that error.
pub proof fn lemma_fatal_error_attempted_once(
    config: RetryConfig,
    retry: Retry,
    outcomes: Seq<AttemptReport>,
)
    requires
        config.wf(),
        outcomes.len() >= config.max_attempts,
        (outcomes[0] matches AttemptReport::Failed(e) && !e.spec_retryable()),
    ensures
        spec_stop_index(config, retry, outcomes) == 0,
{
    assert(stops_at(config, retry, outcomes, 0));
}

/// A call that is not permitted to retry is attempted exactly once,
/// whatever its first attempt produced.
pub proof fn lemma_no_retry_attempted_once(config: RetryConfig, outcomes: Seq<AttemptReport>)
    requires
        config.wf(),
        outcomes.len() >= config.max_attempts,
    ensures
        spec_stop_index(config, Retry::No, outcomes) == 0,
{
    assert(stops_at(config, Retry::No, outcomes, 0));
}

} // verus!
