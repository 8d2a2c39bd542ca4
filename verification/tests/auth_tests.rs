use thingspace_sdk::auth::{decode_login_field, encode_login_field, oauth_field};

#[test]
fn bearer_header_prefixes_token() {
    let h = oauth_field("tok123");
    assert_eq!(h, "Bearer tok123");
}

#[test]
fn bearer_header_of_empty_token() {
    let h = oauth_field("");
    assert_eq!(h, "Bearer ");
}

#[test]
fn basic_auth_header_encodes_pair() {
    // base64("abc:def") == "YWJjOmRlZg=="
    let h = encode_login_field("abc", "def");
    assert_eq!(h, "Basic YWJjOmRlZg==");
}

#[test]
fn basic_auth_round_trip() {
    let h = encode_login_field("my-public-key", "my-private-key");
    let pair = decode_login_field(h.as_str()).expect("header built here must decode");
    assert_eq!(pair, "my-public-key:my-private-key");
}

#[test]
fn basic_auth_round_trip_empty_keys() {
    let h = encode_login_field("", "");
    let pair = decode_login_field(h.as_str()).expect("header built here must decode");
    assert_eq!(pair, ":");
}

#[test]
fn basic_auth_round_trip_key_shaped_input() {
    let h = encode_login_field("0a1b2c3d-4e5f-6071-8293-a4b5c6d7e8f9", "SECRET-REDACTED");
    let pair = decode_login_field(h.as_str()).expect("header built here must decode");
    assert_eq!(pair, "0a1b2c3d-4e5f-6071-8293-a4b5c6d7e8f9:SECRET-REDACTED");
}

#[test]
fn decode_rejects_missing_prefix() {
    assert!(decode_login_field("YWJjOmRlZg==").is_none());
}

#[test]
fn decode_rejects_bad_base64() {
    assert!(decode_login_field("Basic !!!not-base64!!!").is_none());
}
