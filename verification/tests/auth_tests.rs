use axum_otel_tempo::auth::basic_auth_header;
use base64::Engine;

#[test]
fn header_has_exact_documented_form() {
    // "user:password" in standard padded base64.
    assert_eq!(
        basic_auth_header("user", "password"),
        "Basic dXNlcjpwYXNzd29yZA=="
    );
}

#[test]
fn header_matches_engine_encoding() {
    let h = basic_auth_header("alice", "open sesame");
    let expected = format!(
        "Basic {}",
        base64::engine::general_purpose::STANDARD.encode("alice:open sesame")
    );
    assert_eq!(h, expected);
}

#[test]
fn decoding_recovers_the_pair() {
    let h = basic_auth_header("alice", "s3cr3t!");
    let text = h.strip_prefix("Basic ").expect("prefix");
    let payload = base64::engine::general_purpose::STANDARD
        .decode(text)
        .expect("valid base64");
    let payload = String::from_utf8(payload).expect("valid utf8");
    let (user, pass) = payload.split_once(':').expect("colon");
    assert_eq!(user, "alice");
    assert_eq!(pass, "s3cr3t!");
}

#[test]
fn decoding_recovers_a_unicode_pair() {
    let h = basic_auth_header("müller", "paßwörter");
    let text = h.strip_prefix("Basic ").expect("prefix");
    let payload = base64::engine::general_purpose::STANDARD
        .decode(text)
        .expect("valid base64");
    let payload = String::from_utf8(payload).expect("valid utf8");
    let (user, pass) = payload.split_once(':').expect("colon");
    assert_eq!(user, "müller");
    assert_eq!(pass, "paßwörter");
}

#[test]
fn empty_credentials_pass_through_verbatim() {
    // Empty values are encoded as they are, not validated.
    let expected = format!(
        "Basic {}",
        base64::engine::general_purpose::STANDARD.encode(":")
    );
    assert_eq!(basic_auth_header("", ""), expected);
    assert_eq!(basic_auth_header("", ""), "Basic Og==");
}

#[test]
fn a_colon_in_the_username_is_ambiguous() {
    // The encoded form cannot distinguish where the username ends once the
    // username itself holds a colon; such pairs do not round-trip.
    assert_eq!(basic_auth_header("a:b", "c"), basic_auth_header("a", "b:c"));
}

#[test]
fn padding_varies_with_length() {
    // Zero, two and one padding bytes respectively.
    assert_eq!(basic_auth_header("a", "b"), "Basic YTpi"); // 3 bytes
    assert_eq!(basic_auth_header("ab", "b"), "Basic YWI6Yg=="); // 4 bytes
    assert_eq!(basic_auth_header("ab", "cd"), "Basic YWI6Y2Q="); // 5 bytes
}
