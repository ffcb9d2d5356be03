use mpow::clock::current_timestamp;
use mpow::gate::{AppState, GateError, NonceSubmission};
use mpow::pow::verify_pow;
use mpow::store::Challenge;
use mpow::values::{CHALLENGE_EXPIRY_SECS, MAX_ATTEMPTS, POW_DIFFICULTY_PREFIX};

// Helper: brute-force a nonce whose hash satisfies the difficulty prefix.
fn find_valid_nonce(challenge: &str, difficulty_prefix: &str) -> String {
    for nonce in 0..1000000 {
        let nonce_str = nonce.to_string();
        if verify_pow(challenge, &nonce_str, difficulty_prefix) {
            return nonce_str;
        }
    }
    panic!("Could not find valid nonce within reasonable attempts");
}

fn insert_challenge(state: &mut AppState, token: &str, challenge: &str, created_at: u64) {
    state.challenges.insert(Challenge {
        token: token.to_string(),
        challenge: challenge.to_string(),
        created_at,
        attempts: 0,
    });
}

#[test]
fn challenge_issue_and_entropy() {
    let mut state = AppState::new();
    assert_eq!(state.jwt_secret.len(), 32);
    assert_eq!(state.challenges.len(), 0);

    let a = state.get_challenge();
    let b = state.get_challenge();
    assert_eq!(a.attempts, 0);
    assert_eq!(a.token.len(), 36);
    assert_eq!(a.challenge.len(), 36);
    // Keys and secrets are fresh random values, pairwise distinct.
    assert_ne!(a.token, a.challenge);
    assert_ne!(a.token, b.token);
    assert_ne!(a.challenge, b.challenge);
    assert_eq!(state.challenges.len(), 2);
}

#[test]
fn full_flow_grants_credential() {
    let mut state = AppState::new();
    let c = state.get_challenge();
    let nonce = find_valid_nonce(&c.challenge, POW_DIFFICULTY_PREFIX);

    let submission = NonceSubmission { nonce, token: c.token.clone() };
    let credential = state
        .submit_nonce(&submission)
        .expect("a correct solution should be granted a credential");

    let claims = state
        .check_access(&credential)
        .expect("the granted credential should validate");
    assert_eq!(claims.sub, "verified_user");

    // The challenge is consumed: the same key cannot be replayed.
    let again = state.submit_nonce(&submission);
    assert_eq!(again, Err(GateError::NotFound));
}

#[test]
fn wrong_nonce_is_rejected_and_charged() {
    let mut state = AppState::new();
    let now = current_timestamp();
    insert_challenge(&mut state, "test_token", "test_challenge", now);

    let r = state.submit_nonce_at("test_token", "definitely wrong", now);
    assert_eq!(r, Err(GateError::InvalidNonce));

    // The challenge is still present, with exactly one attempt charged.
    let kept = state.challenges.get("test_token").expect("still present");
    assert_eq!(kept.attempts, 1);
    assert_eq!(kept.challenge, "test_challenge");
}

#[test]
fn unknown_key_is_not_found() {
    let mut state = AppState::new();
    let now = current_timestamp();
    let r = state.submit_nonce_at("no_such_token", "123456", now);
    assert_eq!(r, Err(GateError::NotFound));
}

#[test]
fn expired_challenge_is_unusable_even_with_correct_nonce() {
    let mut state = AppState::new();
    let now = current_timestamp();
    let created_at = now - CHALLENGE_EXPIRY_SECS - 1;
    insert_challenge(&mut state, "test_token", "test_challenge", created_at);

    let nonce = find_valid_nonce("test_challenge", POW_DIFFICULTY_PREFIX);
    let r = state.submit_nonce_at("test_token", &nonce, now);
    assert_eq!(r, Err(GateError::Expired));

    // The stale record was removed on the way out.
    assert!(state.challenges.get("test_token").is_none());
}

#[test]
fn attempts_cap_is_hit_exactly_after_the_budget() {
    let mut state = AppState::new();
    let now = current_timestamp();
    insert_challenge(&mut state, "test_token", "test_challenge", now);

    for i in 0..MAX_ATTEMPTS {
        let r = state.submit_nonce_at("test_token", "wrong", now);
        assert_eq!(r, Err(GateError::InvalidNonce), "attempt {} should still be admitted", i);
        let kept = state.challenges.get("test_token").expect("still present");
        assert_eq!(kept.attempts, i + 1);
    }

    let r = state.submit_nonce_at("test_token", "wrong", now);
    assert_eq!(r, Err(GateError::RateLimited));
    // A rate-limited submission charges nothing and removes nothing.
    let kept = state.challenges.get("test_token").expect("still present");
    assert_eq!(kept.attempts, MAX_ATTEMPTS);
}

#[test]
fn over_long_nonce_is_rejected_before_hashing() {
    let mut state = AppState::new();
    let now = current_timestamp();
    insert_challenge(&mut state, "test_token", "test_challenge", now);

    let long_nonce = "9".repeat(129);
    let r = state.submit_nonce_at("test_token", &long_nonce, now);
    assert_eq!(r, Err(GateError::InvalidNonce));
    let kept = state.challenges.get("test_token").expect("still present");
    assert_eq!(kept.attempts, 1);
}

#[test]
fn credential_issuance_overflow_is_internal() {
    let mut state = AppState::new();
    insert_challenge(&mut state, "test_token", "test_challenge", u64::MAX);

    let nonce = find_valid_nonce("test_challenge", POW_DIFFICULTY_PREFIX);
    // At this clock reading the challenge is live but the credential expiry
    // cannot be represented.
    let r = state.submit_nonce_at("test_token", &nonce, u64::MAX);
    assert_eq!(r, Err(GateError::Internal));
}

#[test]
fn sweep_removes_exactly_the_expired() {
    let mut state = AppState::new();
    let now = current_timestamp();
    insert_challenge(&mut state, "stale", "c1", now - CHALLENGE_EXPIRY_SECS - 1);
    insert_challenge(&mut state, "live", "c2", now);
    insert_challenge(&mut state, "boundary", "c3", now - CHALLENGE_EXPIRY_SECS);

    state.sweep(now);

    assert!(state.challenges.get("stale").is_none());
    assert!(state.challenges.get("live").is_some());
    // A record exactly at the lifetime bound is still live.
    assert!(state.challenges.get("boundary").is_some());
    assert_eq!(state.challenges.len(), 2);
}
