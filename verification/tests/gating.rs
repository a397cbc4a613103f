//! Behavior of the two self-expiring stores: challenge verification,
//! rate-limit acquisition, and the sweeps.

use faucet_core::challenge::{MathChallengeStore, CHALLENGE_TTL_MILLIS};
use faucet_core::rate_limit::{RateLimiter, RATE_LIMIT_WINDOW_MILLIS};

#[test]
fn correct_answer_accepted_exactly_once() {
    let mut store = MathChallengeStore::new();
    let c = store.issue_with_operands(3, 4, "S".to_string(), 1_000);
    assert_eq!(c.expires_at, 1_000 + CHALLENGE_TTL_MILLIS);
    assert!(store.verify_answer("S", 7, 2_000));
    assert!(!store.verify_answer("S", 7, 2_500));
    assert!(!store.verify_answer("S", 8, 2_500));
}

#[test]
fn wrong_answer_does_not_consume_challenge() {
    let mut store = MathChallengeStore::new();
    store.issue_with_operands(5, 9, "S".to_string(), 0);
    assert!(!store.verify_answer("S", 15, 10));
    assert!(!store.verify_answer("S", 13, 20));
    assert!(store.verify_answer("S", 14, 30));
}

#[test]
fn absent_session_fails() {
    let mut store = MathChallengeStore::new();
    assert!(!store.verify_answer("missing", 7, 0));
}

#[test]
fn expired_challenge_fails_even_with_correct_answer() {
    let mut store = MathChallengeStore::new();
    store.issue_with_operands(3, 4, "S".to_string(), 0);
    assert!(!store.verify_answer("S", 7, CHALLENGE_TTL_MILLIS + 1));
    // The failed call removed the record; a sweep afterward changes nothing
    // for that session, and the answer stays rejected.
    store.cleanup_expired(CHALLENGE_TTL_MILLIS + 2);
    assert!(!store.verify_answer("S", 7, CHALLENGE_TTL_MILLIS + 2));
}

#[test]
fn verify_at_exact_expiry_still_succeeds() {
    let mut store = MathChallengeStore::new();
    store.issue_with_operands(3, 4, "S".to_string(), 0);
    assert!(store.verify_answer("S", 7, CHALLENGE_TTL_MILLIS));
}

#[test]
fn reissue_overwrites_session() {
    let mut store = MathChallengeStore::new();
    store.issue_with_operands(3, 4, "S".to_string(), 0);
    store.issue_with_operands(10, 10, "S".to_string(), 0);
    assert!(!store.verify_answer("S", 7, 1));
    assert!(store.verify_answer("S", 20, 2));
}

#[test]
fn challenge_sweep_keeps_live_and_drops_expired() {
    let mut store = MathChallengeStore::new();
    store.issue_with_operands(3, 4, "old".to_string(), 0);
    store.issue_with_operands(2, 2, "fresh".to_string(), CHALLENGE_TTL_MILLIS);
    store.cleanup_expired(CHALLENGE_TTL_MILLIS + 1);
    assert!(!store.verify_answer("old", 7, CHALLENGE_TTL_MILLIS + 1));
    assert!(store.verify_answer("fresh", 4, CHALLENGE_TTL_MILLIS + 1));
}

#[test]
fn generated_challenge_is_answerable() {
    let mut store = MathChallengeStore::new();
    let c = store.generate_challenge(0);
    assert_eq!(c.expires_at, CHALLENGE_TTL_MILLIS);
    assert_eq!(c.session_id.len(), 36);
    let body = c.question.strip_suffix(" = ?").expect("question ends in \" = ?\"");
    let (a, b) = body.split_once(" + ").expect("question holds a plus");
    let a: i32 = a.parse().expect("left operand is a number");
    let b: i32 = b.parse().expect("right operand is a number");
    assert!((1..=20).contains(&a));
    assert!((1..=20).contains(&b));
    assert!(!store.verify_answer(&c.session_id, a + b + 1, 1));
    assert!(store.verify_answer(&c.session_id, a + b, 1));
}

#[test]
fn two_acquisitions_within_window_grant_once() {
    let mut limiter = RateLimiter::new();
    assert!(limiter.check_and_update("k", 0));
    assert!(!limiter.check_and_update("k", 3_600_000));
    assert!(!limiter.check_and_update("k", RATE_LIMIT_WINDOW_MILLIS - 1));
}

#[test]
fn acquisition_after_window_grants_again() {
    let mut limiter = RateLimiter::new();
    assert!(limiter.check_and_update("k", 0));
    assert!(limiter.check_and_update("k", RATE_LIMIT_WINDOW_MILLIS));
    // The fresh grant opens a fresh window.
    assert!(!limiter.check_and_update("k", RATE_LIMIT_WINDOW_MILLIS + 1));
}

#[test]
fn distinct_keys_are_independent() {
    let mut limiter = RateLimiter::new();
    assert!(limiter.check_and_update("a", 0));
    assert!(limiter.check_and_update("b", 0));
    assert!(!limiter.check_and_update("a", 1));
}

#[test]
fn rate_sweep_keeps_live_and_drops_elapsed() {
    let mut limiter = RateLimiter::new();
    assert!(limiter.check_and_update("old", 0));
    assert!(limiter.check_and_update("fresh", RATE_LIMIT_WINDOW_MILLIS - 1));
    limiter.cleanup_expired(RATE_LIMIT_WINDOW_MILLIS);
    // The swept key behaves exactly as a never-seen key: granted.
    assert!(limiter.check_and_update("old", RATE_LIMIT_WINDOW_MILLIS));
    // The kept key is still within its window: denied.
    assert!(!limiter.check_and_update("fresh", RATE_LIMIT_WINDOW_MILLIS));
}
