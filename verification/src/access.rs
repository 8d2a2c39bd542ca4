//! The two credential-exchange endpoints: the OAuth2 access-token request
//! and the M2M session-login request.
//!
//! Each exchange is split into the request that must be sent (built and
//! pinned down here) and the reading of the response that came back
//! (classified and parsed here).  Sending is the caller's job.
use vstd::prelude::*;
use crate::auth::{basic_auth_spec, bearer_auth_spec, encode_login_field, oauth_field};
use crate::http::{HttpRequest, Method, headers_view, push_header, is_provider_error_status,
    thingspace_error_fields, parse_thingspace_error};
use crate::json::{json_string, append_json_string};
use crate::json_parse::{json_fields_of, str_field, int_field, parse_json_object, get_str_field,
    get_int_field};
use crate::models::{Error, CredentialError, LoginResponse, Session, SessionRequestBody};
use crate::strutil::push_char;
use crate::{LOGIN_URL, M2M_REST_API_V1};

verus! {

/// The form body every access-token request carries.
pub open spec fn access_token_body() -> Seq<char> {
    "grant_type=client_credentials"@
}

/// What an access-token request looks like: a form-encoded POST to the
/// identity endpoint carrying the Basic-Auth header.
pub open spec fn is_access_token_request(
    r: HttpRequest,
    public_key: Seq<char>,
    private_key: Seq<char>,
) -> bool {
    &&& r.method == Method::Post
    &&& r.url@ == LOGIN_URL@
    &&& headers_view(r.headers@) == seq![
        ("Accept"@, "application/json"@),
        ("Content-Type"@, "application/x-www-form-urlencoded"@),
        ("Authorization"@, basic_auth_spec(public_key, private_key)),
    ]
    &&& (r.body matches Some(b) && b@ == access_token_body())
}

/// Builds the request that exchanges a key pair for an OAuth2 access token.
pub fn access_token_request(public_key: &str, private_key: &str) -> (r: HttpRequest)
    requires
        public_key@.len() + private_key@.len() + 1 <= usize::MAX / 16,
    ensures
        is_access_token_request(r, public_key@, private_key@),
{
    let auth = encode_login_field(public_key, private_key);
    let mut headers: Vec<(String, String)> = Vec::new();
    push_header(&mut headers, "Accept", String::from_str("application/json"));
    push_header(&mut headers, "Content-Type", String::from_str("application/x-www-form-urlencoded"));
    push_header(&mut headers, "Authorization", auth);
    assert(headers_view(headers@) =~= seq![
        ("Accept"@, "application/json"@),
        ("Content-Type"@, "application/x-www-form-urlencoded"@),
        ("Authorization"@, basic_auth_spec(public_key@, private_key@)),
    ]);
    HttpRequest {
        method: Method::Post,
        url: String::from_str(LOGIN_URL),
        headers,
        body: Some(String::from_str("grant_type=client_credentials")),
    }
}

/// The `error` / `error_description` pair denoted by an identity-endpoint
/// error body, if the body has that shape.
pub open spec fn credential_error_fields(s: Seq<char>) -> Option<(Seq<char>, Seq<char>)> {
    match json_fields_of(s) {
        Some(fs) => match (str_field(fs, "error"@), str_field(fs, "error_description"@)) {
            (Some(e), Some(d)) => Some((e, d)),
            _ => None,
        },
        None => None,
    }
}

/// Parses an identity error body of the shape
/// `{"error":..,"error_description":..}`.
pub fn parse_credential_error(body: &str) -> (r: Option<CredentialError>)
    ensures
        match r {
            Some(e) => credential_error_fields(body@) == Some((e.error@, e.error_description@)),
            None => credential_error_fields(body@) is None,
        },
{
    match parse_json_object(body) {
        Some(fields) => {
            let error = get_str_field(&fields, "error");
            let description = get_str_field(&fields, "error_description");
            match (error, description) {
                (Some(e), Some(d)) => Some(CredentialError { error: e, error_description: d }),
                _ => None,
            }
        },
        None => None,
    }
}

/// The token, scope, token type and TTL denoted by an access-token success
/// body, if the body has that shape.  The TTL must be a nonnegative number
/// of seconds that fits in an `i32`.
pub open spec fn login_response_of(s: Seq<char>) -> Option<(Seq<char>, Seq<char>, Seq<char>, int)> {
    match json_fields_of(s) {
        Some(fs) => match (
            str_field(fs, "access_token"@),
            str_field(fs, "scope"@),
            str_field(fs, "token_type"@),
            int_field(fs, "expires_in"@),
        ) {
            (Some(a), Some(sc), Some(t), Some(e)) => if 0 <= e <= i32::MAX {
                Some((a, sc, t, e))
            } else {
                None
            },
            _ => None,
        },
        None => None,
    }
}

/// Parses an access-token success body of the shape
/// `{"access_token":..,"scope":..,"token_type":..,"expires_in":..}`.
pub fn parse_login_response(body: &str) -> (r: Option<LoginResponse>)
    ensures
        match r {
            Some(lr) => login_response_of(body@) == Some(
                (lr.access_token@, lr.scope@, lr.token_type@, lr.expires_in as int),
            ),
            None => login_response_of(body@) is None,
        },
{
    match parse_json_object(body) {
        Some(fields) => {
            let access_token = get_str_field(&fields, "access_token");
            let scope = get_str_field(&fields, "scope");
            let token_type = get_str_field(&fields, "token_type");
            let expires_in = get_int_field(&fields, "expires_in");
            match (access_token, scope, token_type, expires_in) {
                (Some(a), Some(sc), Some(t), Some(e)) => {
                    if 0 <= e && e <= i32::MAX as i64 {
                        Some(LoginResponse {
                            access_token: a,
                            scope: sc,
                            token_type: t,
                            expires_in: e as i32,
                        })
                    } else {
                        None
                    }
                },
                _ => None,
            }
        },
        None => None,
    }
}

/// How an identity-endpoint response is read: an error status carries an
/// `{"error","error_description"}` body, a success status carries a
/// [`LoginResponse`] body, and anything malformed is a decode error that
/// keeps the offending body.
pub open spec fn access_outcome_ok(status: u16, body: Seq<char>, r: Result<LoginResponse, Error>) -> bool {
    match r {
        Ok(lr) => !is_provider_error_status(status) && login_response_of(body) == Some(
            (lr.access_token@, lr.scope@, lr.token_type@, lr.expires_in as int),
        ),
        Err(e) => if is_provider_error_status(status) {
            match credential_error_fields(body) {
                Some(p) => e matches Error::Credential(c) && c.error@ == p.0
                    && c.error_description@ == p.1,
                None => e matches Error::Decode(b) && b@ == body,
            }
        } else {
            login_response_of(body) is None && (e matches Error::Decode(b) && b@ == body)
        },
    }
}

/// Interprets the identity endpoint's response: statuses 400..599 become a
/// [`Error::Credential`] provider error, success statuses are parsed as a
/// [`LoginResponse`], and a body of the wrong shape is a [`Error::Decode`].
pub fn access_token_response(status: u16, body: String) -> (r: Result<LoginResponse, Error>)
    ensures
        access_outcome_ok(status, body@, r),
{
    if 400 <= status && status < 600 {
        match parse_credential_error(body.as_str()) {
            Some(e) => Err(Error::Credential(e)),
            None => Err(Error::Decode(body)),
        }
    } else {
        match parse_login_response(body.as_str()) {
            Some(lr) => Ok(lr),
            None => Err(Error::Decode(body)),
        }
    }
}

/// The JSON body of a session-login request.
pub open spec fn session_request_json(username: Seq<char>, password: Seq<char>) -> Seq<char> {
    seq!['{'] + json_string("username"@) + seq![':'] + json_string(username) + seq![',']
        + json_string("password"@) + seq![':'] + json_string(password) + seq!['}']
}

/// What a session-login request looks like: a JSON POST to the session
/// endpoint carrying the Bearer-Auth header.
pub open spec fn is_session_token_request(
    r: HttpRequest,
    username: Seq<char>,
    password: Seq<char>,
    access_token: Seq<char>,
) -> bool {
    &&& r.method == Method::Post
    &&& r.url@ == M2M_REST_API_V1@ + "/session/login"@
    &&& headers_view(r.headers@) == seq![
        ("Accept"@, "application/json"@),
        ("Content-Type"@, "application/json"@),
        ("Authorization"@, bearer_auth_spec(access_token)),
    ]
    &&& (r.body matches Some(b) && b@ == session_request_json(username, password))
}

/// Builds the request that exchanges a username, password and access token
/// for a session token.
pub fn session_token_request(cred: &SessionRequestBody, access_token: &str) -> (r: HttpRequest)
    ensures
        is_session_token_request(r, cred.username@, cred.password@, access_token@),
{
    let mut body = String::new();
    push_char(&mut body, '{');
    append_json_string(&mut body, "username");
    push_char(&mut body, ':');
    append_json_string(&mut body, cred.username.as_str());
    push_char(&mut body, ',');
    append_json_string(&mut body, "password");
    push_char(&mut body, ':');
    append_json_string(&mut body, cred.password.as_str());
    push_char(&mut body, '}');
    assert(body@ =~= session_request_json(cred.username@, cred.password@));

    let mut headers: Vec<(String, String)> = Vec::new();
    push_header(&mut headers, "Accept", String::from_str("application/json"));
    push_header(&mut headers, "Content-Type", String::from_str("application/json"));
    push_header(&mut headers, "Authorization", oauth_field(access_token));
    assert(headers_view(headers@) =~= seq![
        ("Accept"@, "application/json"@),
        ("Content-Type"@, "application/json"@),
        ("Authorization"@, bearer_auth_spec(access_token@)),
    ]);

    let url = String::from_str(M2M_REST_API_V1).concat("/session/login");
    HttpRequest { method: Method::Post, url, headers, body: Some(body) }
}

/// The session token and TTL denoted by a session-login success body, if
/// the body has that shape (`sessionToken` / `expiresIn` on the wire).  The
/// TTL must be a nonnegative number of seconds that fits in an `i32`.
pub open spec fn session_of(s: Seq<char>) -> Option<(Seq<char>, int)> {
    match json_fields_of(s) {
        Some(fs) => match (str_field(fs, "sessionToken"@), int_field(fs, "expiresIn"@)) {
            (Some(t), Some(e)) => if 0 <= e <= i32::MAX {
                Some((t, e))
            } else {
                None
            },
            _ => None,
        },
        None => None,
    }
}

/// Parses a session-login success body of the shape
/// `{"sessionToken":..,"expiresIn":..}`.
pub fn parse_session(body: &str) -> (r: Option<Session>)
    ensures
        match r {
            Some(s) => session_of(body@) == Some((s.session_token@, s.expires_in as int)),
            None => session_of(body@) is None,
        },
{
    match parse_json_object(body) {
        Some(fields) => {
            let token = get_str_field(&fields, "sessionToken");
            let expires_in = get_int_field(&fields, "expiresIn");
            match (token, expires_in) {
                (Some(t), Some(e)) => {
                    if 0 <= e && e <= i32::MAX as i64 {
                        Some(Session { session_token: t, expires_in: e as i32 })
                    } else {
                        None
                    }
                },
                _ => None,
            }
        },
        None => None,
    }
}

/// How a session-endpoint response is read: an error status carries an
/// `{"errorCode","errorMessage"}` body, a success status carries a
/// [`Session`] body, and anything malformed is a decode error that keeps
/// the offending body.
pub open spec fn session_outcome_ok(status: u16, body: Seq<char>, r: Result<Session, Error>) -> bool {
    match r {
        Ok(s) => !is_provider_error_status(status) && session_of(body) == Some(
            (s.session_token@, s.expires_in as int),
        ),
        Err(e) => if is_provider_error_status(status) {
            match thingspace_error_fields(body) {
                Some(p) => e matches Error::ThingSpace(t) && t.error_code@ == p.0
                    && t.error_message@ == p.1,
                None => e matches Error::Decode(b) && b@ == body,
            }
        } else {
            session_of(body) is None && (e matches Error::Decode(b) && b@ == body)
        },
    }
}

/// Interprets the session endpoint's response: statuses 400..599 become a
/// [`Error::ThingSpace`] provider error, success statuses are parsed as a
/// [`Session`], and a body of the wrong shape is a [`Error::Decode`].
pub fn session_token_response(status: u16, body: String) -> (r: Result<Session, Error>)
    ensures
        session_outcome_ok(status, body@, r),
{
    if 400 <= status && status < 600 {
        match parse_thingspace_error(body.as_str()) {
            Some(e) => Err(Error::ThingSpace(e)),
            None => Err(Error::Decode(body)),
        }
    } else {
        match parse_session(body.as_str()) {
            Some(s) => Ok(s),
            None => Err(Error::Decode(body)),
        }
    }
}

} // verus!
