use mpow::pow::verify_pow;

// SHA-256 of "abc" is ba7816bf8f01cfea414140de5dae2223b00361a396177a9cb410ff61f20015ad.
const ABC_DIGEST: &str = "ba7816bf8f01cfea414140de5dae2223b00361a396177a9cb410ff61f20015ad";

#[test]
fn verify_known_digest() {
    // secret "a" extended with nonce "bc" hashes like the string "abc".
    assert!(verify_pow("a", "bc", "ba7816bf"));
    assert!(verify_pow("a", "bc", ABC_DIGEST));
    assert!(!verify_pow("a", "bc", "0000"));
    assert!(!verify_pow("a", "bc", "ba7817"));
}

#[test]
fn verify_is_deterministic() {
    let first = verify_pow("some secret", "12345", "0000");
    let second = verify_pow("some secret", "12345", "0000");
    assert_eq!(first, second);
    let third = verify_pow("some secret", "12345", "b");
    let fourth = verify_pow("some secret", "12345", "b");
    assert_eq!(third, fourth);
}

#[test]
fn empty_nonce_is_a_valid_input() {
    // An empty nonce is hashed like the secret alone, not rejected.
    assert!(verify_pow("abc", "", "ba7816bf"));
    assert!(!verify_pow("abc", "", "0000"));
}

#[test]
fn empty_prefix_always_matches() {
    assert!(verify_pow("anything", "at all", ""));
}
