use oidc_core::encode::{json_escape_str, token_response_body, u64_dec_str};
use oidc_core::tokens::Token;

#[test]
fn decimal_rendering_is_exact() {
    assert_eq!(u64_dec_str(0), "0");
    assert_eq!(u64_dec_str(7), "7");
    assert_eq!(u64_dec_str(10), "10");
    assert_eq!(u64_dec_str(3600), "3600");
    assert_eq!(u64_dec_str(1234567890), "1234567890");
    assert_eq!(u64_dec_str(u64::MAX), "18446744073709551615");
}

#[test]
fn json_escaping_is_exact() {
    assert_eq!(json_escape_str("plain"), "plain");
    assert_eq!(json_escape_str(""), "");
    assert_eq!(json_escape_str("a\"b"), "a\\\"b");
    assert_eq!(json_escape_str("a\\b"), "a\\\\b");
    assert_eq!(json_escape_str("line\nbreak"), "line\\nbreak");
    assert_eq!(json_escape_str("cr\rtab\t"), "cr\\rtab\\t");
    assert_eq!(json_escape_str("\u{1}"), "\\u0001");
    assert_eq!(json_escape_str("\u{1f}"), "\\u001f");
    assert_eq!(json_escape_str("unicode \u{263a} stays"), "unicode \u{263a} stays");
}

#[test]
fn token_body_has_the_exact_wire_shape() {
    let token = Token::new("abc".to_owned(), None, 3600, Some("xyz".to_owned()));
    let body = token_response_body(&token);
    assert_eq!(
        body,
        "{\"access_token\":\"abc\",\"token_type\":\"Bearer\",\"refresh_token\":null,\
         \"expires_in\":3600,\"id_token\":\"xyz\"}"
    );
}

#[test]
fn token_body_parses_as_json_with_the_right_fields() {
    let token = Token::new(
        "acc\"ess\\tok\nen".to_owned(),
        Some("refresh-1".to_owned()),
        7200,
        None,
    );
    let body = token_response_body(&token);
    let value: serde_json::Value = serde_json::from_str(&body).expect("body must be valid JSON");
    assert_eq!(
        value.get("access_token").and_then(|v| v.as_str()),
        Some("acc\"ess\\tok\nen")
    );
    assert_eq!(value.get("token_type").and_then(|v| v.as_str()), Some("Bearer"));
    assert_eq!(value.get("refresh_token").and_then(|v| v.as_str()), Some("refresh-1"));
    assert_eq!(value.get("expires_in").and_then(|v| v.as_u64()), Some(7200));
    assert!(value.get("id_token").expect("field present").is_null());
}

#[test]
fn token_body_control_characters_round_trip() {
    let token = Token::new("a\u{2}b".to_owned(), None, 1, None);
    let body = token_response_body(&token);
    let value: serde_json::Value = serde_json::from_str(&body).expect("body must be valid JSON");
    assert_eq!(value.get("access_token").and_then(|v| v.as_str()), Some("a\u{2}b"));
}
