use civicconnect::limiter::{utc_day, RateLimiter, MAX_DAILY_VERIFICATIONS};

#[test]
fn test_counters_per_user_and_day() {
    let mut limiter = RateLimiter::new();
    assert_eq!(limiter.count_for(1, 100), 0);

    limiter.record(1, 100);
    limiter.record(1, 100);
    assert_eq!(limiter.count_for(1, 100), 2);

    // Other users and other days are untouched.
    assert_eq!(limiter.count_for(2, 100), 0);
    assert_eq!(limiter.count_for(1, 101), 0);

    limiter.record(1, 100);
    assert!(limiter.count_for(1, 100) >= MAX_DAILY_VERIFICATIONS);
}

#[test]
fn test_utc_day_boundaries() {
    assert_eq!(utc_day(0), 0);
    assert_eq!(utc_day(86399), 0);
    assert_eq!(utc_day(86400), 1);
    assert_eq!(utc_day(2 * 86400 + 1), 2);
}
