use mpow::store::{Challenge, ChallengeStore, StoreError};
use mpow::values::{CHALLENGE_EXPIRY_SECS, MAX_ATTEMPTS};

fn challenge(token: &str, secret: &str, created_at: u64, attempts: u32) -> Challenge {
    Challenge {
        token: token.to_string(),
        challenge: secret.to_string(),
        created_at,
        attempts,
    }
}

#[test]
fn insert_get_remove() {
    let mut store = ChallengeStore::new();
    assert_eq!(store.len(), 0);
    assert!(store.get("k1").is_none());

    store.insert(challenge("k1", "s1", 100, 0));
    store.insert(challenge("k2", "s2", 200, 0));
    assert_eq!(store.len(), 2);
    assert_eq!(store.get("k1").unwrap().challenge, "s1");
    assert_eq!(store.get("k2").unwrap().created_at, 200);

    store.remove("k1");
    assert!(store.get("k1").is_none());
    assert!(store.get("k2").is_some());
    assert_eq!(store.len(), 1);
}

#[test]
fn insert_overwrites_same_token() {
    let mut store = ChallengeStore::new();
    store.insert(challenge("k", "old", 1, 3));
    store.insert(challenge("k", "new", 2, 0));
    assert_eq!(store.len(), 1);
    let c = store.get("k").unwrap();
    assert_eq!(c.challenge, "new");
    assert_eq!(c.created_at, 2);
    assert_eq!(c.attempts, 0);
}

#[test]
fn record_attempt_outcomes() {
    let mut store = ChallengeStore::new();
    let now: u64 = 1000 + CHALLENGE_EXPIRY_SECS;

    assert!(matches!(store.record_attempt("missing", now), Err(StoreError::NotFound)));

    store.insert(challenge("stale", "s", 999, 0));
    assert!(matches!(store.record_attempt("stale", now), Err(StoreError::Expired)));
    // The expired record is removed by the failed lookup.
    assert!(store.get("stale").is_none());

    store.insert(challenge("spent", "s", now, MAX_ATTEMPTS));
    assert!(matches!(store.record_attempt("spent", now), Err(StoreError::RateLimited)));
    assert_eq!(store.get("spent").unwrap().attempts, MAX_ATTEMPTS);

    store.insert(challenge("live", "s", now, 0));
    let charged = store.record_attempt("live", now).expect("a live attempt");
    assert_eq!(charged.attempts, 1);
    assert_eq!(store.get("live").unwrap().attempts, 1);
}

#[test]
fn expiry_is_strict() {
    let mut store = ChallengeStore::new();
    let created: u64 = 5000;
    store.insert(challenge("k", "s", created, 0));

    // Exactly at the lifetime bound the challenge is still live.
    let at_bound = created + CHALLENGE_EXPIRY_SECS;
    assert!(store.record_attempt("k", at_bound).is_ok());

    // One second past the bound it is dead.
    assert!(matches!(
        store.record_attempt("k", at_bound + 1),
        Err(StoreError::Expired)
    ));
}
