use storm_services::auth::{
    constant_time_eq, constant_time_eq_bytes, header_is_text, is_authorized, unauthorized_response,
    API_TOKEN_HEADER,
};

#[test]
fn token_header_name() {
    assert_eq!(API_TOKEN_HEADER, "x-api-token");
}

#[test]
fn constant_time_eq_compares_whole_strings() {
    assert!(constant_time_eq("secret", "secret"));
    assert!(!constant_time_eq("secret", "secreT"));
    assert!(!constant_time_eq("secret", "secret!"));
    assert!(!constant_time_eq("", "a"));
    assert!(constant_time_eq("", ""));
    assert!(constant_time_eq("h\u{e9}", "h\u{e9}"));
    assert!(!constant_time_eq("h\u{e9}", "he"));
}

#[test]
fn constant_time_eq_bytes_detects_any_difference() {
    assert!(constant_time_eq_bytes(&[1, 2, 3], &[1, 2, 3]));
    assert!(!constant_time_eq_bytes(&[1, 2, 3], &[1, 2, 4]));
    assert!(!constant_time_eq_bytes(&[0, 2, 3], &[1, 2, 3]));
    assert!(!constant_time_eq_bytes(&[1, 2], &[1, 2, 3]));
}

#[test]
fn header_text_allows_visible_ascii_space_and_tab() {
    assert!(header_is_text(b"abc DEF\t~!"));
    assert!(header_is_text(b""));
    assert!(!header_is_text(b"abc\x7f"));
    assert!(!header_is_text(b"\x1f"));
    assert!(!header_is_text(&[0xc3, 0xa9]));
}

#[test]
fn is_authorized_needs_the_exact_token() {
    assert!(is_authorized(Some(b"s3cret"), "s3cret"));
    assert!(!is_authorized(Some(b"s3cret "), "s3cret"));
    assert!(!is_authorized(Some(b"S3CRET"), "s3cret"));
    assert!(!is_authorized(None, "s3cret"));
    assert!(!is_authorized(Some(b""), "s3cret"));
}

#[test]
fn is_authorized_refuses_a_header_that_is_not_text() {
    // The token itself holds a non-ASCII character: its bytes can never be
    // presented as header text.
    assert!(!is_authorized(Some("t\u{e9}".as_bytes()), "t\u{e9}"));
}

#[test]
fn unauthorized_response_is_401() {
    let reply = unauthorized_response();
    assert_eq!(reply.status, 401);
    assert_eq!(reply.body.error, "Unauthorized");
    assert_eq!(reply.body.message, "Missing or invalid API token");
}
