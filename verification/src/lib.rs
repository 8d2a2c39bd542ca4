//! Client SDK for the Verizon ThingSpace REST API.
//!
//! The verified core builds the HTTP requests (auth headers, URLs, JSON
//! bodies) and classifies the HTTP responses (token parsing, provider-error
//! mapping) for the OAuth2 token, session, device-list, NIDD and
//! callback-listener endpoints.  Sending the requests is left to a thin
//! unverified shell around this crate.
use vstd::prelude::*;

pub mod access;
pub mod auth;
pub mod cache;
pub mod devices;
pub mod http;
pub mod json;
pub mod json_laws;
pub mod json_parse;
pub mod listeners;
pub mod models;
pub mod nidd;
pub mod strutil;

verus! {

/// Base URL of the machine-to-machine REST API.
pub const M2M_REST_API_V1: &'static str = "https://thingspace.verizon.com/api/m2m/v1";

/// URL of the OAuth2 access-token endpoint.
pub const LOGIN_URL: &'static str = "https://thingspace.verizon.com/api/ts/v1/oauth2/token";

/// Name of the header that carries the session token.
pub const SESSION_TOKEN_FIELD: &'static str = "VZ-M2M-Token";

} // verus!
