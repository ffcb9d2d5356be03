use mpow::values::{
    CHALLENGE_EXPIRY_SECS, COOKIE_NAME, MAX_ATTEMPTS, MAX_CHALLENGE_ATTEMPTS, MAX_NONCE_LENGTH,
    POW_DIFFICULTY, POW_DIFFICULTY_PREFIX, TOKEN_BYTE_LENGTH, TOKEN_EXPIRY_SECS, USE_LOKI,
};

#[test]
fn constants_exist() {
    let _ = COOKIE_NAME;
    let _ = TOKEN_BYTE_LENGTH;
    let _ = TOKEN_EXPIRY_SECS;
    let _ = CHALLENGE_EXPIRY_SECS;
    let _ = POW_DIFFICULTY_PREFIX;
    let _ = MAX_NONCE_LENGTH;
    let _ = MAX_CHALLENGE_ATTEMPTS;
    let _ = USE_LOKI;
    let _ = POW_DIFFICULTY;
    let _ = MAX_ATTEMPTS;
}

#[test]
fn constants_values() {
    assert_eq!(COOKIE_NAME, "mpow_token");
    assert_eq!(TOKEN_EXPIRY_SECS, 36 * 3600);
    assert_eq!(CHALLENGE_EXPIRY_SECS, 300);
    assert_eq!(POW_DIFFICULTY_PREFIX, "0000");
    assert_eq!(POW_DIFFICULTY, POW_DIFFICULTY_PREFIX.len());
    assert_eq!(MAX_ATTEMPTS, 15);
    assert_eq!(MAX_NONCE_LENGTH, 128);
}
