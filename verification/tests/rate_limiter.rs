use std::time::{Duration, Instant};
use trading_bot_rust::order_manager::RateLimiter;

#[test]
fn rate_limiter_starts_full() {
    let l = RateLimiter::new(5, 3);
    assert_eq!(l.tokens(), 5);
    assert_eq!(l.max_tokens(), 5);
    assert_eq!(l.refill_rate(), 3);
    assert!(l.last_refill() <= Instant::now());
}

#[test]
fn acquire_takes_one_token_until_empty() {
    let mut l = RateLimiter::new(5, 5);
    let now = Instant::now();
    for left in (0..5).rev() {
        assert!(l.try_acquire(0, now));
        assert_eq!(l.tokens(), left);
    }
    assert!(!l.try_acquire(0, now));
    assert_eq!(l.tokens(), 0);
}

#[test]
fn refill_is_capped_at_capacity() {
    let mut l = RateLimiter::new(5, 5);
    let now = Instant::now();
    assert!(l.try_acquire(0, now));
    assert!(l.try_acquire(0, now));
    let later = now + Duration::from_secs(1);
    l.refill(1, later);
    assert_eq!(l.tokens(), 4);
    assert_eq!(l.last_refill(), later);
    l.refill(u32::MAX, later);
    assert_eq!(l.tokens(), 5);
}

#[test]
fn refill_without_new_tokens_keeps_last_refill() {
    let mut l = RateLimiter::new(2, 1);
    let before = l.last_refill();
    l.refill(0, before + Duration::from_secs(5));
    assert_eq!(l.last_refill(), before);
    assert_eq!(l.tokens(), 2);
}

#[test]
fn empty_bucket_acquires_after_refill() {
    let mut l = RateLimiter::new(1, 1);
    let now = Instant::now();
    assert!(l.try_acquire(0, now));
    assert!(!l.try_acquire(0, now));
    let later = now + Duration::from_millis(1500);
    assert!(l.try_acquire(1, later));
    assert_eq!(l.tokens(), 0);
    assert_eq!(l.last_refill(), later);
}

#[test]
fn zero_capacity_never_acquires() {
    let mut l = RateLimiter::new(0, 5);
    assert!(!l.try_acquire(10, Instant::now()));
    assert_eq!(l.tokens(), 0);
}
