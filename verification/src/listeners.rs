//! Registered callback listeners: registering a webhook URL for a callback
//! service, removing it, and listing what is registered.
use vstd::prelude::*;
use crate::auth::{bearer_auth_spec, oauth_field};
use crate::http::{HttpRequest, Method, headers_view, push_header};
use crate::json::{json_string, json_key, append_json_string, append_json_key};
use crate::json_parse::{json_fields_of, str_field, parse_json_object, get_str_field};
use crate::devices::opt_str_member;
use crate::strutil::push_char;
use crate::M2M_REST_API_V1;

verus! {

/// A callback listener: which service to subscribe to and where callback
/// messages should be delivered.
#[derive(Debug, Clone)]
pub struct CallbackListener {
    /// The name of the callback service to subscribe to (`name` on the
    /// wire).
    pub service_name: String,
    /// The address on the subscriber's server where callback messages are
    /// received.
    pub url: String,
    /// The user name the platform should return in callback messages.
    pub username: Option<String>,
    /// The password the platform should return in callback messages.
    pub password: Option<String>,
    /// The billing account the listener belongs to; reported by the
    /// provider, never sent.
    pub account_name: Option<String>,
}

impl Default for CallbackListener {
    /// An empty listener.
    fn default() -> (r: CallbackListener)
        ensures
            r.service_name@ == Seq::<char>::empty(),
            r.url@ == Seq::<char>::empty(),
            r.username is None,
            r.password is None,
            r.account_name is None,
    {
        CallbackListener {
            service_name: String::new(),
            url: String::new(),
            username: None,
            password: None,
            account_name: None,
        }
    }
}

/// The provider's answer to a listener registration or removal.
#[derive(Debug, Clone)]
pub struct CallbackListenerResponse {
    /// Account name.
    pub account_name: String,
    /// Service name.
    pub service_name: String,
}

impl Default for CallbackListenerResponse {
    /// An empty response.
    fn default() -> (r: CallbackListenerResponse)
        ensures
            r.account_name@ == Seq::<char>::empty(),
            r.service_name@ == Seq::<char>::empty(),
    {
        CallbackListenerResponse { account_name: String::new(), service_name: String::new() }
    }
}

/// The JSON body of a registration request: the service name under `name`,
/// the URL, and the optional credentials; the account name is never sent.
pub open spec fn callback_listener_json(l: CallbackListener) -> Seq<char> {
    seq!['{'] + json_key("name"@) + json_string(l.service_name@) + seq![','] + json_key("url"@)
        + json_string(l.url@) + opt_str_member("username"@, l.username)
        + opt_str_member("password"@, l.password) + seq!['}']
}

/// Serializes a callback listener as its registration body.
pub fn callback_listener_body(l: &CallbackListener) -> (body: String)
    ensures
        body@ == callback_listener_json(*l),
{
    let mut out = String::new();
    push_char(&mut out, '{');
    append_json_key(&mut out, "name");
    append_json_string(&mut out, l.service_name.as_str());
    push_char(&mut out, ',');
    append_json_key(&mut out, "url");
    append_json_string(&mut out, l.url.as_str());
    match &l.username {
        Some(u) => {
            push_char(&mut out, ',');
            append_json_key(&mut out, "username");
            append_json_string(&mut out, u.as_str());
        },
        None => {},
    }
    match &l.password {
        Some(p) => {
            push_char(&mut out, ',');
            append_json_key(&mut out, "password");
            append_json_string(&mut out, p.as_str());
        },
        None => {},
    }
    push_char(&mut out, '}');
    assert(out@ =~= callback_listener_json(*l));
    out
}

/// The URL that addresses an account's callback listeners.
pub open spec fn callbacks_url_spec(account_name: Seq<char>) -> Seq<char> {
    M2M_REST_API_V1@ + "/callbacks/"@ + account_name
}

/// Builds the URL that addresses an account's callback listeners.
pub fn callbacks_url(account_name: &str) -> (r: String)
    ensures
        r@ == callbacks_url_spec(account_name@),
{
    let mut url = String::from_str(M2M_REST_API_V1);
    url.append("/callbacks/");
    url.append(account_name);
    assert(url@ =~= callbacks_url_spec(account_name@));
    url
}

/// What a listener registration request looks like: a JSON POST to
/// `/callbacks/{account}` carrying the Bearer-Auth header and the session
/// token header.
pub open spec fn is_register_listener_request(
    r: HttpRequest,
    account_name: Seq<char>,
    l: CallbackListener,
    access_token: Seq<char>,
    session_token: Seq<char>,
) -> bool {
    &&& r.method == Method::Post
    &&& r.url@ == callbacks_url_spec(account_name)
    &&& headers_view(r.headers@) == seq![
        ("Accept"@, "application/json"@),
        ("Content-Type"@, "application/json"@),
        ("Authorization"@, bearer_auth_spec(access_token)),
        (crate::SESSION_TOKEN_FIELD@, session_token),
    ]
    &&& (r.body matches Some(b) && b@ == callback_listener_json(l))
}

/// Builds the request that registers a callback listener for an account.
pub fn register_callback_listener_request(
    account_name: &str,
    access_token: &str,
    session_token: &str,
    listener: &CallbackListener,
) -> (r: HttpRequest)
    ensures
        is_register_listener_request(
            r,
            account_name@,
            *listener,
            access_token@,
            session_token@,
        ),
{
    let body = callback_listener_body(listener);
    let mut headers: Vec<(String, String)> = Vec::new();
    push_header(&mut headers, "Accept", String::from_str("application/json"));
    push_header(&mut headers, "Content-Type", String::from_str("application/json"));
    push_header(&mut headers, "Authorization", oauth_field(access_token));
    push_header(&mut headers, crate::SESSION_TOKEN_FIELD, String::from_str(session_token));
    assert(headers_view(headers@) =~= seq![
        ("Accept"@, "application/json"@),
        ("Content-Type"@, "application/json"@),
        ("Authorization"@, bearer_auth_spec(access_token@)),
        (crate::SESSION_TOKEN_FIELD@, session_token@),
    ]);
    HttpRequest {
        method: Method::Post,
        url: callbacks_url(account_name),
        headers,
        body: Some(body),
    }
}

/// The URL that addresses one named listener of an account.
pub open spec fn callback_service_url_spec(
    account_name: Seq<char>,
    service_name: Seq<char>,
) -> Seq<char> {
    callbacks_url_spec(account_name) + "/name/"@ + service_name
}

/// What a listener removal request looks like: a DELETE of
/// `/callbacks/{account}/name/{service}` carrying the Bearer-Auth header
/// and the session token header, with no body.
pub open spec fn is_deregister_listener_request(
    r: HttpRequest,
    account_name: Seq<char>,
    service_name: Seq<char>,
    access_token: Seq<char>,
    session_token: Seq<char>,
) -> bool {
    &&& r.method == Method::Delete
    &&& r.url@ == callback_service_url_spec(account_name, service_name)
    &&& headers_view(r.headers@) == seq![
        ("Accept"@, "application/json"@),
        ("Content-Type"@, "application/json"@),
        ("Authorization"@, bearer_auth_spec(access_token)),
        (crate::SESSION_TOKEN_FIELD@, session_token),
    ]
    &&& r.body is None
}

/// Builds the request that removes a registered callback listener.
pub fn deregister_callback_listener_request(
    account_name: &str,
    access_token: &str,
    session_token: &str,
    service_name: &str,
) -> (r: HttpRequest)
    ensures
        is_deregister_listener_request(
            r,
            account_name@,
            service_name@,
            access_token@,
            session_token@,
        ),
{
    let mut url = callbacks_url(account_name);
    url.append("/name/");
    url.append(service_name);
    assert(url@ =~= callback_service_url_spec(account_name@, service_name@));
    let mut headers: Vec<(String, String)> = Vec::new();
    push_header(&mut headers, "Accept", String::from_str("application/json"));
    push_header(&mut headers, "Content-Type", String::from_str("application/json"));
    push_header(&mut headers, "Authorization", oauth_field(access_token));
    push_header(&mut headers, crate::SESSION_TOKEN_FIELD, String::from_str(session_token));
    assert(headers_view(headers@) =~= seq![
        ("Accept"@, "application/json"@),
        ("Content-Type"@, "application/json"@),
        ("Authorization"@, bearer_auth_spec(access_token@)),
        (crate::SESSION_TOKEN_FIELD@, session_token@),
    ]);
    HttpRequest { method: Method::Delete, url, headers, body: None }
}

/// What a listener listing request looks like: a GET of
/// `/callbacks/{account}` carrying the Bearer-Auth header and the session
/// token header, with no body and no content type.
pub open spec fn is_list_listeners_request(
    r: HttpRequest,
    account_name: Seq<char>,
    access_token: Seq<char>,
    session_token: Seq<char>,
) -> bool {
    &&& r.method == Method::Get
    &&& r.url@ == callbacks_url_spec(account_name)
    &&& headers_view(r.headers@) == seq![
        ("Accept"@, "application/json"@),
        ("Authorization"@, bearer_auth_spec(access_token)),
        (crate::SESSION_TOKEN_FIELD@, session_token),
    ]
    &&& r.body is None
}

/// Builds the request that lists an account's registered callback
/// listeners.
pub fn list_callback_listeners_request(
    account_name: &str,
    access_token: &str,
    session_token: &str,
) -> (r: HttpRequest)
    ensures
        is_list_listeners_request(r, account_name@, access_token@, session_token@),
{
    let mut headers: Vec<(String, String)> = Vec::new();
    push_header(&mut headers, "Accept", String::from_str("application/json"));
    push_header(&mut headers, "Authorization", oauth_field(access_token));
    push_header(&mut headers, crate::SESSION_TOKEN_FIELD, String::from_str(session_token));
    assert(headers_view(headers@) =~= seq![
        ("Accept"@, "application/json"@),
        ("Authorization"@, bearer_auth_spec(access_token@)),
        (crate::SESSION_TOKEN_FIELD@, session_token@),
    ]);
    HttpRequest {
        method: Method::Get,
        url: callbacks_url(account_name),
        headers,
        body: None,
    }
}

/// The account and service name denoted by a registration response body.
/// The provider may omit either member; an omitted member reads as empty.
pub open spec fn listener_response_of(s: Seq<char>) -> Option<(Seq<char>, Seq<char>)> {
    match json_fields_of(s) {
        Some(fs) => Some(
            (
                match str_field(fs, "accountName"@) {
                    Some(a) => a,
                    None => Seq::empty(),
                },
                match str_field(fs, "serviceName"@) {
                    Some(n) => n,
                    None => Seq::empty(),
                },
            ),
        ),
        None => None,
    }
}

/// Parses a registration or removal response body of the shape
/// `{"accountName":..,"serviceName":..}`, either member optional.
pub fn parse_callback_listener_response(body: &str) -> (r: Option<CallbackListenerResponse>)
    ensures
        match r {
            Some(c) => listener_response_of(body@) == Some((c.account_name@, c.service_name@)),
            None => listener_response_of(body@) is None,
        },
{
    match parse_json_object(body) {
        Some(fields) => {
            let account_name = match get_str_field(&fields, "accountName") {
                Some(a) => a,
                None => String::new(),
            };
            let service_name = match get_str_field(&fields, "serviceName") {
                Some(n) => n,
                None => String::new(),
            };
            Some(CallbackListenerResponse { account_name, service_name })
        },
        None => None,
    }
}

} // verus!
