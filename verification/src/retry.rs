use vstd::prelude::*;

verus! {

/// Backoff parameters for retrying a fallible remote call.
///
/// `exponential_factor` scales the delay between attempts; a factor of
/// one means the delay does not grow.
#[derive(Debug, Clone, Copy, PartialEq, Eq, Structural)]
pub struct RetryPolicy {
    pub max_retries: u64,
    pub base_delay_ms: u64,
    pub max_delay_ms: u64,
    pub exponential_factor: u32,
}

impl RetryPolicy {
    /// The stock policy: three retries, a flat three-second delay.
    pub open spec fn default_spec() -> RetryPolicy {
        RetryPolicy {
            max_retries: 3,
            base_delay_ms: 3000,
            max_delay_ms: 3000,
            exponential_factor: 1,
        }
    }
}

impl Default for RetryPolicy {
    /// Three retries with a flat three-second delay between attempts.
    fn default() -> (r: Self)
        ensures
            r == RetryPolicy::default_spec(),
    {
        RetryPolicy {
            max_retries: 3,
            base_delay_ms: 3000,
            max_delay_ms: 3000,
            exponential_factor: 1,
        }
    }
}

/// The delay before the next attempt, before clamping: the current
/// delay scaled by the exponential factor, plus the fresh jitter.
pub open spec fn raw_delay(policy: RetryPolicy, current_delay_ms: u64, jitter_ms: u64) -> int {
    current_delay_ms * policy.exponential_factor + jitter_ms
}

/// The delay before the next attempt: the scaled delay plus jitter,
/// clamped to the policy's `max_delay_ms`.
pub open spec fn delay_spec(policy: RetryPolicy, current_delay_ms: u64, jitter_ms: u64) -> u64 {
    if raw_delay(policy, current_delay_ms, jitter_ms) <= policy.max_delay_ms {
        raw_delay(policy, current_delay_ms, jitter_ms) as u64
    } else {
        policy.max_delay_ms
    }
}

/// Compute the delay before the next attempt from the delay used last
/// and a fresh jitter draw.
pub fn next_delay(policy: &RetryPolicy, current_delay_ms: u64, jitter_ms: u64) -> (r: u64)
    ensures
        r == delay_spec(*policy, current_delay_ms, jitter_ms),
        r <= policy.max_delay_ms,
{
    let scaled = match current_delay_ms.checked_mul(policy.exponential_factor as u64) {
        Some(s) => s.saturating_add(jitter_ms),
        None => u64::MAX,
    };
    if scaled <= policy.max_delay_ms {
        scaled
    } else {
        policy.max_delay_ms
    }
}

/// The computed delay never exceeds the policy's maximum delay,
/// whatever the current delay and the jitter are.
pub proof fn lemma_delay_clamped(policy: RetryPolicy, current_delay_ms: u64, jitter_ms: u64)
    ensures
        delay_spec(policy, current_delay_ms, jitter_ms) <= policy.max_delay_ms,
{
}

/// With a growth factor of at least one and a current delay that sits
/// within the maximum, the backoff never shrinks: the next delay is at
/// least the delay used last, whatever jitter is drawn.
pub proof fn lemma_backoff_non_decreasing(policy: RetryPolicy, current_delay_ms: u64, jitter_ms: u64)
    requires
        policy.exponential_factor >= 1,
        current_delay_ms <= policy.max_delay_ms,
    ensures
        delay_spec(policy, current_delay_ms, jitter_ms) >= current_delay_ms,
{
    assert(current_delay_ms * policy.exponential_factor >= current_delay_ms) by (nonlinear_arith)
        requires
            policy.exponential_factor >= 1,
    ;
}

/// Relies on rand::random: a value drawn from the thread-local
/// generator; nothing is promised of it.
pub assume_specification<T>[ rand::random::<T> ]() -> (r: T)
    where
        rand::distributions::Standard: rand::distributions::Distribution<T>,
;

/// Draw a fresh jitter strictly below one second, to spread out
/// otherwise synchronized retries.
fn draw_jitter() -> (r: u64)
    ensures
        r < 1000,
{
    let raw: u64 = rand::random::<u64>();
    raw % 1000
}

/// What the retry executor is to do after a failed attempt.
#[derive(Debug, Clone, Copy, PartialEq, Eq, Structural)]
pub enum RetryStep {
    /// Sleep for the given delay, then try the operation again.
    Retry { delay_ms: u64 },
    /// Retries are exhausted: propagate the most recent failure unchanged.
    GiveUp,
}

/// The state of one retry loop: which policy governs it, how many
/// retries were taken, and the delay the exponential term grows from.
///
/// Each run is self-contained; concurrent runs share nothing.
#[derive(Debug, Clone, Copy, PartialEq, Eq, Structural)]
pub struct RetryRun {
    pub policy: RetryPolicy,
    pub retries_taken: u64,
    pub current_delay_ms: u64,
}

/// Whether the run has used up every retry its policy allows.
pub open spec fn retries_exhausted(run: RetryRun) -> bool {
    run.retries_taken >= run.policy.max_retries
}

/// The state after one more retry with the given jitter draw: the
/// count goes up by one and the delay just computed is carried over.
pub open spec fn after_retry(run: RetryRun, jitter_ms: u64) -> RetryRun {
    RetryRun {
        policy: run.policy,
        retries_taken: (run.retries_taken + 1) as u64,
        current_delay_ms: delay_spec(run.policy, run.current_delay_ms, jitter_ms),
    }
}

impl RetryRun {
    /// Start a run: no retries taken, the delay starts at the base delay.
    pub fn new(policy: RetryPolicy) -> (r: Self)
        ensures
            r == (RetryRun {
                policy,
                retries_taken: 0,
                current_delay_ms: policy.base_delay_ms,
            }),
    {
        RetryRun { policy, retries_taken: 0, current_delay_ms: policy.base_delay_ms }
    }

    /// Decide what follows a failed attempt, given the jitter drawn for
    /// it: retry after the computed delay while retries remain, give up
    /// once they are exhausted.
    pub fn on_failure_with_jitter(&mut self, jitter_ms: u64) -> (r: RetryStep)
        ensures
            retries_exhausted(*old(self)) ==> {
                &&& r == RetryStep::GiveUp
                &&& *final(self) == *old(self)
            },
            !retries_exhausted(*old(self)) ==> {
                &&& r == (RetryStep::Retry {
                    delay_ms: delay_spec(
                        old(self).policy,
                        old(self).current_delay_ms,
                        jitter_ms,
                    ),
                })
                &&& *final(self) == after_retry(*old(self), jitter_ms)
            },
    {
        if self.retries_taken < self.policy.max_retries {
            self.retries_taken = self.retries_taken + 1;
            let delay_ms = next_delay(&self.policy, self.current_delay_ms, jitter_ms);
            self.current_delay_ms = delay_ms;
            RetryStep::Retry { delay_ms }
        } else {
            RetryStep::GiveUp
        }
    }

    /// Decide what follows a failed attempt, drawing the jitter fresh;
    /// the delay of a retry is bounded by the policy alone.
    pub fn on_failure(&mut self) -> (r: RetryStep)
        ensures
            retries_exhausted(*old(self)) ==> {
                &&& r == RetryStep::GiveUp
                &&& *final(self) == *old(self)
            },
            !retries_exhausted(*old(self)) ==> exists|jitter_ms: u64|
                {
                    &&& jitter_ms < 1000
                    &&& r == (RetryStep::Retry {
                        delay_ms: delay_spec(
                            old(self).policy,
                            old(self).current_delay_ms,
                            jitter_ms,
                        ),
                    })
                    &&& *final(self) == after_retry(*old(self), jitter_ms)
                },
    {
        let jitter_ms = draw_jitter();
        let r = self.on_failure_with_jitter(jitter_ms);
        proof {
            if !retries_exhausted(*old(self)) {
                assert(jitter_ms < 1000 && r == (RetryStep::Retry {
                    delay_ms: delay_spec(
                        old(self).policy,
                        old(self).current_delay_ms,
                        jitter_ms,
                    ),
                }) && *self == after_retry(*old(self), jitter_ms));
            }
        }
        r
    }
}

/// Under a policy that allows no retries at all, every run has its
/// retries exhausted from the start: the first failure gives up, so
/// the operation is invoked exactly once.
pub proof fn lemma_no_retries_gives_up(run: RetryRun)
    requires
        run.policy.max_retries == 0,
    ensures
        retries_exhausted(run),
{
}

/// Under a flat policy, one whose factor is one and whose base delay
/// already sits at the maximum, every retry sleeps for exactly the
/// maximum delay, whatever jitter was drawn.
pub proof fn lemma_flat_policy_sleeps_max(run: RetryRun, jitter_ms: u64)
    requires
        run.policy.exponential_factor == 1,
        run.policy.base_delay_ms == run.policy.max_delay_ms,
        run.current_delay_ms == run.policy.max_delay_ms,
    ensures
        delay_spec(run.policy, run.current_delay_ms, jitter_ms) == run.policy.max_delay_ms,
        after_retry(run, jitter_ms).current_delay_ms == run.policy.max_delay_ms,
{
}

} // verus!
