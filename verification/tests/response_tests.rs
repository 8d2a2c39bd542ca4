use thingspace_sdk::access::{access_token_response, parse_credential_error, parse_login_response,
    parse_session, session_token_response};
use thingspace_sdk::http::{classify_m2m_response, parse_thingspace_error};
use thingspace_sdk::models::Error;

#[test]
fn login_response_parses_all_fields() {
    let body = "{\"access_token\":\"abc\",\"scope\":\"ts.application.ro\",\
                 \"token_type\":\"Bearer\",\"expires_in\":3600}";
    let lr = parse_login_response(body).expect("well-shaped body parses");
    assert_eq!(lr.access_token, "abc");
    assert_eq!(lr.scope, "ts.application.ro");
    assert_eq!(lr.token_type, "Bearer");
    assert_eq!(lr.expires_in, 3600);
}

#[test]
fn login_response_rejects_missing_field() {
    assert!(parse_login_response("{\"access_token\":\"abc\"}").is_none());
}

#[test]
fn login_response_rejects_negative_ttl() {
    let body = "{\"access_token\":\"abc\",\"scope\":\"s\",\"token_type\":\"t\",\
                 \"expires_in\":-1}";
    assert!(parse_login_response(body).is_none());
}

#[test]
fn session_parses_camel_case_members() {
    let s = parse_session("{\"sessionToken\":\"st\",\"expiresIn\":1200}").expect("parses");
    assert_eq!(s.session_token, "st");
    assert_eq!(s.expires_in, 1200);
}

#[test]
fn session_rejects_snake_case_members() {
    assert!(parse_session("{\"session_token\":\"st\",\"expires_in\":1200}").is_none());
}

#[test]
fn credential_error_parses() {
    let e = parse_credential_error(
        "{\"error\":\"invalid_client\",\"error_description\":\"bad keys\"}",
    )
    .expect("parses");
    assert_eq!(e.error, "invalid_client");
    assert_eq!(e.error_description, "bad keys");
}

#[test]
fn thingspace_error_parses() {
    let e = parse_thingspace_error("{\"errorCode\":\"401\",\"errorMessage\":\"bad creds\"}")
        .expect("parses");
    assert_eq!(e.error_code, "401");
    assert_eq!(e.error_message, "bad creds");
}

#[test]
fn access_response_success() {
    let body = "{\"access_token\":\"abc\",\"scope\":\"s\",\"token_type\":\"t\",\
                 \"expires_in\":10}";
    let lr = access_token_response(200, body.to_string()).expect("success status parses");
    assert_eq!(lr.access_token, "abc");
}

#[test]
fn access_response_provider_error() {
    let body = "{\"error\":\"invalid_client\",\"error_description\":\"bad keys\"}";
    match access_token_response(401, body.to_string()) {
        Err(Error::Credential(c)) => {
            assert_eq!(c.error, "invalid_client");
            assert_eq!(c.error_description, "bad keys");
        }
        _ => panic!("a 401 with a structured body is a credential error"),
    }
}

#[test]
fn access_response_malformed_error_body_is_decode() {
    match access_token_response(500, "oops".to_string()) {
        Err(Error::Decode(b)) => assert_eq!(b, "oops"),
        _ => panic!("a malformed error body is a decode error"),
    }
}

#[test]
fn access_response_malformed_success_body_is_decode() {
    match access_token_response(200, "oops".to_string()) {
        Err(Error::Decode(b)) => assert_eq!(b, "oops"),
        _ => panic!("a malformed success body is a decode error"),
    }
}

#[test]
fn session_response_provider_error_is_surfaced_verbatim() {
    let body = "{\"errorCode\":\"401\",\"errorMessage\":\"bad creds\"}";
    match session_token_response(401, body.to_string()) {
        Err(Error::ThingSpace(e)) => {
            assert_eq!(e.error_code, "401");
            assert_eq!(e.error_message, "bad creds");
        }
        _ => panic!("a 401 with a structured body is a provider error"),
    }
}

#[test]
fn session_response_success() {
    let body = "{\"sessionToken\":\"sess\",\"expiresIn\":1200}";
    let s = session_token_response(200, body.to_string()).expect("success status parses");
    assert_eq!(s.session_token, "sess");
    assert_eq!(s.expires_in, 1200);
}

#[test]
fn m2m_classification_hands_success_bodies_through() {
    let body = "{\"has_more_data\":false}".to_string();
    let out = classify_m2m_response(200, body.clone()).expect("success passes through");
    assert_eq!(out, body);
}

#[test]
fn m2m_classification_maps_error_statuses() {
    let body = "{\"errorCode\":\"REQUEST_FAILED.InvalidToken\",\"errorMessage\":\"expired\"}";
    match classify_m2m_response(401, body.to_string()) {
        Err(Error::ThingSpace(e)) => {
            assert_eq!(e.error_code, "REQUEST_FAILED.InvalidToken");
            assert_eq!(e.error_message, "expired");
        }
        _ => panic!("a 401 is a provider error"),
    }
}

#[test]
fn m2m_classification_upper_bound_is_600() {
    assert!(classify_m2m_response(599, "x".to_string()).is_err());
    assert!(classify_m2m_response(600, "x".to_string()).is_ok());
    assert!(classify_m2m_response(399, "x".to_string()).is_ok());
    assert!(classify_m2m_response(400, "x".to_string()).is_err());
}

#[test]
fn reports_render_field_per_line() {
    let lr = parse_login_response(
        "{\"access_token\":\"abc\",\"scope\":\"s\",\"token_type\":\"t\",\"expires_in\":10}",
    )
    .expect("parses");
    assert_eq!(lr.report(), "Access Token: abc\nExpires: 10\nScope: s\nToken Type: t");
    let s = parse_session("{\"sessionToken\":\"st\",\"expiresIn\":1200}").expect("parses");
    assert_eq!(s.report(), "Session Token: st\nExpires: 1200");
}

#[test]
fn error_messages_name_their_family() {
    let e = Error::MissingAccessToken;
    assert_eq!(e.message(), "{ \"MissingAccessTokenError\": { } }");
    let t = Error::Transport("connection refused".to_string());
    assert_eq!(t.message(), "{ \"TransportError\": { connection refused } }");
    let d = Error::Decode("bad".to_string());
    assert_eq!(d.message(), "{ \"DecodeError\": { bad } }");
}
