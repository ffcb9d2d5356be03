use mpow::cookie::extract_token_from_cookie;

#[test]
fn extracts_single_cookie() {
    assert_eq!(
        extract_token_from_cookie("mpow_token=abc123"),
        Some("abc123".to_string())
    );
}

#[test]
fn extracts_among_several_cookies() {
    assert_eq!(
        extract_token_from_cookie("session=1; mpow_token=xyz; theme=dark"),
        Some("xyz".to_string())
    );
    assert_eq!(
        extract_token_from_cookie("a=b;mpow_token=q"),
        Some("q".to_string())
    );
}

#[test]
fn trims_whitespace_around_pairs() {
    assert_eq!(
        extract_token_from_cookie("  mpow_token=tok  "),
        Some("tok".to_string())
    );
    assert_eq!(
        extract_token_from_cookie("x=y; \t mpow_token=jwt.value.here"),
        Some("jwt.value.here".to_string())
    );
}

#[test]
fn missing_or_malformed_cookie_yields_none() {
    assert_eq!(extract_token_from_cookie(""), None);
    assert_eq!(extract_token_from_cookie("session=1; theme=dark"), None);
    // A space before the equals sign breaks the prefix.
    assert_eq!(extract_token_from_cookie("mpow_token =v"), None);
    assert_eq!(extract_token_from_cookie("mpow_toke=v"), None);
}

#[test]
fn empty_value_is_still_a_match() {
    assert_eq!(extract_token_from_cookie("mpow_token="), Some(String::new()));
}

#[test]
fn first_match_wins() {
    assert_eq!(
        extract_token_from_cookie("mpow_token=first; mpow_token=second"),
        Some("first".to_string())
    );
}
