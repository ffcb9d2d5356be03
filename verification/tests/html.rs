use mpow::html::{generate_challenge_html, render_challenge_page, JS_SCRIPT, STYLE_CSS};

#[test]
fn test_render_challenge_page() {
    let challenge = "test_challenge";
    let difficulty = "00";
    let rendered = render_challenge_page(challenge, difficulty);

    assert!(rendered.contains("test_challenge"));
    assert!(rendered.contains("00"));
    assert!(rendered.contains("<!DOCTYPE html>"));
    assert!(rendered.contains("<html lang=\"en\">"));
    assert!(rendered.contains(STYLE_CSS));
    assert!(rendered.contains(JS_SCRIPT));
}

#[test]
fn test_generate_challenge_html() {
    let token = "test_token";
    let challenge = "test_challenge";
    let difficulty = 4;
    let rendered = generate_challenge_html(token, challenge, difficulty);

    assert!(rendered.contains("test_token"));
    assert!(rendered.contains("test_challenge"));
    assert!(rendered.contains("0000"));
    assert!(rendered.contains("<!DOCTYPE html>"));
}

#[test]
fn embedded_values_are_escaped() {
    let rendered = generate_challenge_html("<tok&en>", "<scr>ipt&", 4);
    assert!(rendered.contains("&lt;tok&amp;en&gt;"));
    assert!(rendered.contains("&lt;scr&gt;ipt&amp;"));
    assert!(!rendered.contains("<tok&en>"));

    let rendered = render_challenge_page("a<b", "0&0");
    assert!(rendered.contains("a&lt;b"));
    assert!(rendered.contains("0&amp;0"));
}

#[test]
fn difficulty_prefix_matches_request() {
    let rendered = generate_challenge_html("t", "c", 6);
    assert!(rendered.contains("const difficultyPrefix = \"000000\";"));
    let rendered = generate_challenge_html("t", "c", 0);
    assert!(rendered.contains("const difficultyPrefix = \"\";"));
}
