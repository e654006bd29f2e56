use statserver::cache::{connection_policy, may_retry, retry_delay, CacheError, RetryPolicy};
use statserver::config::CacheConfig;

fn policy(retries: usize, max: u64, base: u64) -> RetryPolicy {
    RetryPolicy { number_of_retries: retries, max_delay_millis: max, exponent_base_millis: base }
}

#[test]
fn backoff_doubles_until_the_cap() {
    let p = policy(5, 1000, 2);
    let delays: Vec<u64> = (0..12).map(|a| retry_delay(&p, a)).collect();
    assert_eq!(delays, vec![1, 2, 4, 8, 16, 32, 64, 128, 256, 512, 1000, 1000]);
}

#[test]
fn backoff_with_unit_base_is_flat() {
    let p = policy(5, 1000, 1);
    assert_eq!(retry_delay(&p, 0), 1);
    assert_eq!(retry_delay(&p, 7), 1);
}

#[test]
fn backoff_with_zero_base_collapses() {
    let p = policy(5, 1000, 0);
    assert_eq!(retry_delay(&p, 0), 1);
    assert_eq!(retry_delay(&p, 1), 0);
    assert_eq!(retry_delay(&p, 9), 0);
}

#[test]
fn backoff_with_zero_cap_never_waits() {
    let p = policy(5, 0, 2);
    assert_eq!(retry_delay(&p, 0), 0);
    assert_eq!(retry_delay(&p, 3), 0);
}

#[test]
fn retry_budget_is_exhausted_after_the_configured_attempts() {
    let p = policy(3, 1000, 2);
    assert!(may_retry(&p, 0));
    assert!(may_retry(&p, 2));
    assert!(!may_retry(&p, 3));
    assert!(!may_retry(&p, 10));
}

#[test]
fn connection_policy_copies_the_tuning() {
    let cfg = CacheConfig {
        dsn: "redis://localhost".to_string(),
        sync_interval_millis: 1000,
        connection_timeout_millis: 200,
        response_timeout_millis: 1000,
        number_of_retries: 5,
        max_delay_between_retries_millis: 1000,
        delay_exponent_base_millis: 2,
    };
    let p = connection_policy(&cfg);
    assert_eq!(p, policy(5, 1000, 2));
}

#[test]
fn cache_errors_carry_their_detail() {
    let e = CacheError::Connection("refused".to_string());
    assert_eq!(e.describe(), "failed to open connection to cache service: refused");
    let e = CacheError::Command("timed out".to_string());
    assert_eq!(e.describe(), "failed to execute cache service command: timed out");
}
