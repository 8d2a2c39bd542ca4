//! The one capability the SDK needs from an HTTP client:
//! `send(method, url, headers, body) -> (status, body)`.
//!
//! The verified core only ever builds [`HttpRequest`] values and reads
//! [`HttpResponse`] values; performing the exchange is the caller's job.
use vstd::prelude::*;
use crate::models::{Error, ThingSpaceError};
use crate::json_parse::{json_fields_of, str_field, parse_json_object, get_str_field};

verus! {

/// An HTTP method used by the SDK.
#[derive(Clone, Copy, Debug, PartialEq, Eq, Structural)]
pub enum Method {
    Get,
    Post,
    Delete,
}

/// One outbound REST request: everything an HTTP client needs to send it.
#[derive(Debug)]
pub struct HttpRequest {
    pub method: Method,
    pub url: String,
    /// Header names and values, in order.
    pub headers: Vec<(String, String)>,
    /// The request body, for methods that carry one.
    pub body: Option<String>,
}

/// One inbound response, reduced to what the SDK reads.
#[derive(Debug)]
pub struct HttpResponse {
    pub status: u16,
    pub body: String,
}

/// The headers of a request, name and value, in order.
pub open spec fn headers_view(h: Seq<(String, String)>) -> Seq<(Seq<char>, Seq<char>)> {
    h.map_values(|p: (String, String)| (p.0@, p.1@))
}

/// Appends one header to a request under construction.
pub fn push_header(headers: &mut Vec<(String, String)>, name: &str, value: String)
    ensures
        headers_view(final(headers)@) == headers_view(old(headers)@) + seq![(name@, value@)],
{
    let ghost before = headers@;
    headers.push((String::from_str(name), value));
    assert(headers_view(headers@) =~= headers_view(before) + seq![(name@, value@)]);
}

/// A provider error: the upstream answered with an HTTP error status.
pub open spec fn is_provider_error_status(status: u16) -> bool {
    400 <= status < 600
}

/// The `errorCode` / `errorMessage` pair denoted by an M2M error body, if
/// the body has that shape.
pub open spec fn thingspace_error_fields(s: Seq<char>) -> Option<(Seq<char>, Seq<char>)> {
    match json_fields_of(s) {
        Some(fs) => match (str_field(fs, "errorCode"@), str_field(fs, "errorMessage"@)) {
            (Some(c), Some(m)) => Some((c, m)),
            _ => None,
        },
        None => None,
    }
}

/// Parses an M2M error body of the shape `{"errorCode":..,"errorMessage":..}`.
pub fn parse_thingspace_error(body: &str) -> (r: Option<ThingSpaceError>)
    ensures
        match r {
            Some(e) => thingspace_error_fields(body@) == Some((e.error_code@, e.error_message@)),
            None => thingspace_error_fields(body@) is None,
        },
{
    match parse_json_object(body) {
        Some(fields) => {
            let code = get_str_field(&fields, "errorCode");
            let message = get_str_field(&fields, "errorMessage");
            match (code, message) {
                (Some(c), Some(m)) => Some(ThingSpaceError { error_code: c, error_message: m }),
                _ => None,
            }
        },
        None => None,
    }
}

/// How an M2M (session, device, NIDD, callback) response is read: error
/// statuses carry a structured provider error, everything else hands the
/// body through untouched.
pub open spec fn m2m_outcome_ok(status: u16, body: Seq<char>, r: Result<String, Error>) -> bool {
    if is_provider_error_status(status) {
        match thingspace_error_fields(body) {
            Some(p) => r matches Err(Error::ThingSpace(e)) && e.error_code@ == p.0
                && e.error_message@ == p.1,
            None => r matches Err(Error::Decode(b)) && b@ == body,
        }
    } else {
        r matches Ok(b) && b@ == body
    }
}

/// Classifies an M2M response: statuses 400..599 become a
/// [`Error::ThingSpace`] provider error (or [`Error::Decode`] when the
/// error body itself is malformed); any other status is success and the
/// body is handed through.
pub fn classify_m2m_response(status: u16, body: String) -> (r: Result<String, Error>)
    ensures
        m2m_outcome_ok(status, body@, r),
{
    if 400 <= status && status < 600 {
        match parse_thingspace_error(body.as_str()) {
            Some(e) => Err(Error::ThingSpace(e)),
            None => Err(Error::Decode(body)),
        }
    } else {
        Ok(body)
    }
}

} // verus!
