use chain_client::retry::{next_delay, RetryPolicy, RetryRun, RetryStep};

#[test]
fn default_policy_values() {
    let policy = RetryPolicy::default();
    assert_eq!(policy.max_retries, 3);
    assert_eq!(policy.base_delay_ms, 3000);
    assert_eq!(policy.max_delay_ms, 3000);
    assert_eq!(policy.exponential_factor, 1);
}

#[test]
fn next_delay_exact_when_under_max() {
    let policy = RetryPolicy {
        max_retries: 3,
        base_delay_ms: 100,
        max_delay_ms: 10000,
        exponential_factor: 2,
    };
    assert_eq!(next_delay(&policy, 100, 7), 207);
    assert_eq!(next_delay(&policy, 100, 0), 200);
}

#[test]
fn next_delay_clamped_to_max() {
    let policy = RetryPolicy {
        max_retries: 3,
        base_delay_ms: 3000,
        max_delay_ms: 3000,
        exponential_factor: 1,
    };
    // base + jitter would exceed the maximum: clamped.
    assert_eq!(next_delay(&policy, 3000, 999), 3000);
    assert_eq!(next_delay(&policy, 3000, 0), 3000);
}

#[test]
fn next_delay_clamped_on_overflow() {
    let policy = RetryPolicy {
        max_retries: 1,
        base_delay_ms: u64::MAX,
        max_delay_ms: 60000,
        exponential_factor: 1000,
    };
    // The scaled delay overflows a u64; the clamp still holds.
    assert_eq!(next_delay(&policy, u64::MAX, 999), 60000);
}

#[test]
fn zero_retries_gives_up_on_first_failure() {
    let policy = RetryPolicy {
        max_retries: 0,
        base_delay_ms: 3000,
        max_delay_ms: 3000,
        exponential_factor: 1,
    };
    let mut run = RetryRun::new(policy);
    // The one allowed invocation failed: no sleep, no retry.
    assert_eq!(run.on_failure_with_jitter(500), RetryStep::GiveUp);
    assert_eq!(run.retries_taken, 0);
    assert_eq!(run.on_failure_with_jitter(0), RetryStep::GiveUp);
}

#[test]
fn flat_policy_retries_three_times_then_gives_up() {
    // base 3000, max 3000, factor 1: an operation that fails three
    // times is retried exactly three times, each sleep in [3000, 4000)
    // milliseconds, and the fourth attempt's result is returned.
    let policy = RetryPolicy {
        max_retries: 3,
        base_delay_ms: 3000,
        max_delay_ms: 3000,
        exponential_factor: 1,
    };
    let mut run = RetryRun::new(policy);
    for jitter in [0u64, 500, 999] {
        match run.on_failure_with_jitter(jitter) {
            RetryStep::Retry { delay_ms } => {
                assert!((3000..4000).contains(&delay_ms));
                assert_eq!(delay_ms, 3000);
            }
            RetryStep::GiveUp => panic!("retries should remain"),
        }
    }
    assert_eq!(run.retries_taken, 3);
    // A fourth failure would exhaust the policy.
    assert_eq!(run.on_failure_with_jitter(0), RetryStep::GiveUp);
}

#[test]
fn exponential_factor_grows_the_delay() {
    let policy = RetryPolicy {
        max_retries: 3,
        base_delay_ms: 100,
        max_delay_ms: 100000,
        exponential_factor: 2,
    };
    let mut run = RetryRun::new(policy);
    assert_eq!(run.current_delay_ms, 100);
    assert_eq!(run.on_failure_with_jitter(0), RetryStep::Retry { delay_ms: 200 });
    assert_eq!(run.on_failure_with_jitter(0), RetryStep::Retry { delay_ms: 400 });
    assert_eq!(run.on_failure_with_jitter(0), RetryStep::Retry { delay_ms: 800 });
    assert_eq!(run.current_delay_ms, 800);
    assert_eq!(run.on_failure_with_jitter(0), RetryStep::GiveUp);
}

#[test]
fn backoff_never_shrinks_within_the_maximum() {
    let policy = RetryPolicy {
        max_retries: 3,
        base_delay_ms: 500,
        max_delay_ms: 5000,
        exponential_factor: 1,
    };
    assert!(next_delay(&policy, 500, 0) >= 500);
    assert!(next_delay(&policy, 4999, 0) >= 4999);
    assert!(next_delay(&policy, 5000, 999) >= 5000);
}

#[test]
fn drawn_jitter_stays_below_one_second() {
    // With a zero current delay and factor one, the whole delay is the
    // jitter the run drew: it must be strictly below 1000.
    let policy = RetryPolicy {
        max_retries: 8,
        base_delay_ms: 0,
        max_delay_ms: u64::MAX,
        exponential_factor: 1,
    };
    let mut run = RetryRun::new(policy);
    for _ in 0..8 {
        match run.on_failure() {
            RetryStep::Retry { delay_ms } => assert!(delay_ms < 1000),
            RetryStep::GiveUp => panic!("retries should remain"),
        }
        // Keep the exponential term out of the next draw.
        run.current_delay_ms = 0;
    }
}
