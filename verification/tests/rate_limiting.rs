//! Tests for the token-bucket rate limiter: burst behaviour, refill over
//! time, per-key independence, the retry hint, and the disabled
//! pass-through.

use secureapis::config::RateLimitConfig;
use secureapis::errors::SecurityError;
use secureapis::rate_limit::RateLimiter;

fn config(requests: u32, window_secs: u64, burst: u32) -> RateLimitConfig {
    RateLimitConfig {
        enabled: true,
        requests_per_window: requests,
        window_secs,
        burst_size: burst,
        per_ip: true,
        per_user: false,
        adaptive: false,
    }
}

#[test]
fn test_rate_limiter_allows_within_limit() {
    let config = config(10, 1, 10);
    let mut limiter = RateLimiter::new(config);

    let t0: u64 = 1_000_000;
    for _ in 0..10 {
        assert!(limiter.check_at("test-ip", t0).is_ok());
    }
}

#[test]
fn test_rate_limiter_blocks_over_limit() {
    let config = config(5, 60, 5);
    let mut limiter = RateLimiter::new(config);

    let t0: u64 = 1_000_000;
    for _ in 0..5 {
        assert!(limiter.check_at("test-ip", t0).is_ok());
    }

    assert!(limiter.check_at("test-ip", t0).is_err());
}

#[test]
fn test_rate_limiter_refills_over_time() {
    let config = config(10, 1, 5);
    let mut limiter = RateLimiter::new(config);

    let t0: u64 = 1_000_000;
    for _ in 0..5 {
        assert!(limiter.check_at("test-ip", t0).is_ok());
    }

    assert!(limiter.check_at("test-ip", t0).is_err());

    // 200 ms later, at 10 tokens per second, two tokens have refilled.
    assert!(limiter.check_at("test-ip", t0 + 200).is_ok());
}

#[test]
fn six_sequential_checks_reject_the_sixth_with_retry_hint() {
    // Configuration: 5 requests per 60 s window, burst 5.
    let mut limiter = RateLimiter::new(config(5, 60, 5));

    let t0: u64 = 42_000;
    for i in 0..5 {
        assert!(limiter.check_at("ip-A", t0).is_ok(), "check {} should pass", i + 1);
    }
    match limiter.check_at("ip-A", t0) {
        Err(SecurityError::RateLimitExceeded { retry_after }) => {
            assert!(retry_after >= 1);
            // An empty bucket refills one token in 60/5 = 12 seconds.
            assert_eq!(retry_after, 12);
        }
        _ => panic!("sixth check should be rate limited"),
    }
}

#[test]
fn distinct_keys_never_contend() {
    // 1000 distinct keys with burst 1: every first admission succeeds.
    let mut limiter = RateLimiter::new(config(1, 60, 1));
    let t0: u64 = 5_000;

    let mut successes = 0;
    for i in 0..1000 {
        let key = format!("client-{}", i);
        if limiter.check_at(&key, t0).is_ok() {
            successes += 1;
        }
    }
    assert_eq!(successes, 1000);
    assert_eq!(limiter.stats().active_buckets, 1000);
}

#[test]
fn one_key_admits_exactly_its_burst() {
    // 20 checks against one key with burst 5: exactly 5 admissions.
    let mut limiter = RateLimiter::new(config(5, 60, 5));
    let t0: u64 = 5_000;

    let mut successes = 0;
    let mut failures = 0;
    for _ in 0..20 {
        match limiter.check_at("one-key", t0) {
            Ok(()) => successes += 1,
            Err(SecurityError::RateLimitExceeded { .. }) => failures += 1,
            Err(_) => panic!("unexpected error kind"),
        }
    }
    assert_eq!(successes, 5);
    assert_eq!(failures, 15);
}

#[test]
fn disabled_rate_limit_creates_no_buckets() {
    let mut cfg = config(5, 60, 5);
    cfg.enabled = false;
    let mut limiter = RateLimiter::new(cfg);

    for _ in 0..50 {
        assert!(limiter.check_at("some-ip", 1_000).is_ok());
    }
    assert_eq!(limiter.stats().active_buckets, 0);
    assert_eq!(limiter.stats().total_requests, 0);
}

#[test]
fn cleanup_sweeps_only_long_idle_buckets() {
    let mut limiter = RateLimiter::new(config(5, 60, 5));
    let t0: u64 = 1_000_000;
    assert!(limiter.check_at("old", t0).is_ok());
    assert!(limiter.check_at("fresh", t0 + 700_000).is_ok());
    assert_eq!(limiter.stats().active_buckets, 2);

    // Ten windows is 600 s; "old" is idle for 700 s, "fresh" is not.
    limiter.cleanup_old_buckets(t0 + 700_001);
    assert_eq!(limiter.stats().active_buckets, 1);
}
