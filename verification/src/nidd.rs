//! Non-IP Data Delivery: the message-send request, its JSON body, and the
//! callback models the provider posts back.
use vstd::prelude::*;
use crate::auth::{bearer_auth_spec, oauth_field};
use crate::devices::{DeviceID, device_id_json, append_device_id};
use crate::http::{HttpRequest, Method, headers_view, push_header};
use crate::json::{json_string, json_key, json_int, append_json_string, append_json_key,
    append_json_int};
use crate::strutil::push_char;
use crate::M2M_REST_API_V1;

verus! {

/// A NIDD message to send to one or more devices.
#[derive(Debug, Clone)]
pub struct NiddMessage {
    /// The name of a billing account: 10 digits, a hyphen, 5 more digits,
    /// leading zeros included.
    pub account_name: String,
    /// The devices to deliver to.
    pub device_ids: Vec<DeviceID>,
    /// The maximum delivery time in seconds, between 2 and 2592000 (30
    /// days).
    pub maximum_delivery_time: i32,
    /// A Base64-encoded binary message of at most 1358 bytes.
    pub message: String,
}

impl Default for NiddMessage {
    /// An empty message addressed to one placeholder device.
    fn default() -> (r: NiddMessage)
        ensures
            r.account_name@ == Seq::<char>::empty(),
            r.device_ids@.len() == 1,
            r.maximum_delivery_time == 0,
            r.message@ == Seq::<char>::empty(),
    {
        let mut ids: Vec<DeviceID> = Vec::new();
        ids.push(DeviceID::default());
        NiddMessage {
            account_name: String::new(),
            device_ids: ids,
            maximum_delivery_time: 0,
            message: String::new(),
        }
    }
}

/// The request id under which asynchronous NIDD callbacks arrive.
#[derive(Debug, Clone)]
pub struct NiddRequest {
    /// Request id for the asynchronous NIDD message.
    pub request_id: String,
}

impl Default for NiddRequest {
    /// An empty request id.
    fn default() -> (r: NiddRequest)
        ensures
            r.request_id@ == Seq::<char>::empty(),
    {
        NiddRequest { request_id: String::new() }
    }
}

/// A delivery report for a mobile-terminated NIDD message.  Times are
/// ISO-8601 text.
#[derive(Debug, Clone)]
pub struct NiddMTDeliveryResponse {
    /// The billing account name.
    pub account_name: String,
    /// When the network acknowledged the device's receipt.
    pub acknowledge_time: Option<String>,
    /// When delivery was first attempted.
    pub first_attempt_delivery_time: Option<String>,
    /// Failure reason, present only when delivery failed.
    pub reason: Option<String>,
    /// The device the report concerns.
    pub device_ids: Vec<DeviceID>,
}

/// A notification carrying a mobile-originated NIDD message.
#[derive(Debug, Clone)]
pub struct NiddMONotificationResponse {
    /// The billing account name.
    pub account_name: String,
    /// The Base64-encoded binary message.
    pub message: String,
    /// The device the message came from.
    pub device_ids: Vec<DeviceID>,
}

/// The payload of a NIDD callback: a delivery report or a
/// mobile-originated notification.
#[derive(Debug, Clone)]
pub enum NiddResponse {
    NiddMTDeliveryResponse(NiddMTDeliveryResponse),
    NiddMONotificationResponse(NiddMONotificationResponse),
}

impl Default for NiddResponse {
    /// An empty mobile-originated notification.
    fn default() -> (r: NiddResponse)
        ensures
            r matches NiddResponse::NiddMONotificationResponse(n) && n.account_name@
                == Seq::<char>::empty() && n.message@ == Seq::<char>::empty() && n.device_ids@.len()
                == 0,
    {
        NiddResponse::NiddMONotificationResponse(
            NiddMONotificationResponse {
                account_name: String::new(),
                message: String::new(),
                device_ids: Vec::new(),
            },
        )
    }
}

/// A delivery status report the provider posts to a registered listener.
#[derive(Debug, Clone)]
pub struct NiddDeliveryResponse {
    /// The device the report concerns.
    pub device_ids: Vec<DeviceID>,
    /// Delivered, Queued or DeliveryFailed.
    pub status: String,
    /// Total number of callback requests.
    pub callback_count: i32,
    /// Maximum number of callbacks allowed.
    pub max_callback_threshold: i32,
}

/// A mobile-terminated delivery callback.
#[derive(Debug, Clone)]
pub struct NiddMtDeliveryCallback {
    /// Associates the callback with the originating request.
    pub request_id: String,
    /// The device the callback concerns.
    pub device_ids: Vec<DeviceID>,
    /// Delivered, Queued or DeliveryFailed.
    pub status: String,
    /// Total number of callback requests.
    pub callback_count: i32,
    /// Maximum number of callbacks allowed.
    pub max_callback_threshold: i32,
}

/// One NIDD callback message as the provider posts it.
#[derive(Debug, Clone)]
pub struct NiddCallback {
    /// Associates the callback with the originating request.
    pub request_id: String,
    /// The device the callback concerns.
    pub device_ids: Vec<DeviceID>,
    /// The payload.
    pub nidd_response: NiddResponse,
    /// Delivered, Queued or DeliveryFailed.
    pub status: Option<String>,
    /// Total number of callback requests.
    pub callback_count: i32,
    /// Maximum number of callbacks allowed.
    pub max_callback_threshold: i32,
}

impl Default for NiddCallback {
    /// An empty callback.
    fn default() -> (r: NiddCallback)
        ensures
            r.request_id@ == Seq::<char>::empty(),
            r.device_ids@.len() == 1,
            r.status is None,
            r.callback_count == 0,
            r.max_callback_threshold == 0,
    {
        let mut ids: Vec<DeviceID> = Vec::new();
        ids.push(DeviceID::default());
        NiddCallback {
            request_id: String::new(),
            device_ids: ids,
            nidd_response: NiddResponse::default(),
            status: None,
            callback_count: 0,
            max_callback_threshold: 0,
        }
    }
}

/// The comma-separated items of a JSON array of device identifiers.
pub open spec fn device_id_list_items(ids: Seq<DeviceID>) -> Seq<char>
    decreases ids.len(),
{
    if ids.len() == 0 {
        Seq::empty()
    } else if ids.len() == 1 {
        device_id_json(ids[0])
    } else {
        device_id_list_items(ids.drop_last()) + seq![','] + device_id_json(ids.last())
    }
}

/// A JSON array of device identifiers.
pub open spec fn device_id_list_json(ids: Seq<DeviceID>) -> Seq<char> {
    seq!['['] + device_id_list_items(ids) + seq![']']
}

/// Appends a JSON array holding the given device identifiers.
pub fn append_device_id_list(out: &mut String, ids: &Vec<DeviceID>)
    ensures
        final(out)@ == old(out)@ + device_id_list_json(ids@),
{
    push_char(out, '[');
    let n = ids.len();
    let mut i: usize = 0;
    while i < n
        invariant
            i <= n,
            n == ids@.len(),
            out@ == old(out)@ + seq!['['] + device_id_list_items(ids@.subrange(0, i as int)),
        decreases n - i,
    {
        if i > 0 {
            push_char(out, ',');
        }
        append_device_id(out, &ids[i]);
        proof {
            let pre = ids@.subrange(0, i as int);
            let cur = ids@.subrange(0, i + 1);
            assert(cur.drop_last() =~= pre);
            assert(cur.last() == ids@[i as int]);
            if i == 0 {
                assert(cur.len() == 1);
                assert(cur[0] == ids@[0]);
                assert(out@ =~= old(out)@ + seq!['['] + device_id_list_items(cur));
            } else {
                assert(out@ =~= old(out)@ + seq!['['] + device_id_list_items(cur));
            }
        }
        i += 1;
    }
    assert(ids@.subrange(0, n as int) =~= ids@);
    push_char(out, ']');
    assert(final(out)@ =~= old(out)@ + device_id_list_json(ids@));
}

/// The JSON body of a NIDD message-send request, keys in camel case.
pub open spec fn nidd_message_json(m: NiddMessage) -> Seq<char> {
    seq!['{'] + json_key("accountName"@) + json_string(m.account_name@) + seq![',']
        + json_key("deviceIds"@) + device_id_list_json(m.device_ids@) + seq![',']
        + json_key("maximumDeliveryTime"@) + json_int(m.maximum_delivery_time as int) + seq![',']
        + json_key("message"@) + json_string(m.message@) + seq!['}']
}

/// Serializes a NIDD message as its JSON body.
#[verifier::rlimit(50)]
pub fn nidd_message_body(m: &NiddMessage) -> (body: String)
    ensures
        body@ == nidd_message_json(*m),
{
    let mut out = String::new();
    push_char(&mut out, '{');
    append_json_key(&mut out, "accountName");
    append_json_string(&mut out, m.account_name.as_str());
    push_char(&mut out, ',');
    append_json_key(&mut out, "deviceIds");
    append_device_id_list(&mut out, &m.device_ids);
    push_char(&mut out, ',');
    append_json_key(&mut out, "maximumDeliveryTime");
    append_json_int(&mut out, m.maximum_delivery_time);
    push_char(&mut out, ',');
    append_json_key(&mut out, "message");
    append_json_string(&mut out, m.message.as_str());
    push_char(&mut out, '}');
    assert(out@ =~= nidd_message_json(*m));
    out
}

/// What a NIDD send request looks like: a JSON POST to
/// `/devices/nidd/message` carrying the Bearer-Auth header and the session
/// token header, whose body serializes the message.
pub open spec fn is_send_nidd_request(
    r: HttpRequest,
    m: NiddMessage,
    access_token: Seq<char>,
    session_token: Seq<char>,
) -> bool {
    &&& r.method == Method::Post
    &&& r.url@ == M2M_REST_API_V1@ + "/devices/nidd/message"@
    &&& headers_view(r.headers@) == seq![
        ("Accept"@, "application/json"@),
        ("Content-Type"@, "application/json"@),
        ("Authorization"@, bearer_auth_spec(access_token)),
        (crate::SESSION_TOKEN_FIELD@, session_token),
    ]
    &&& (r.body matches Some(b) && b@ == nidd_message_json(m))
}

/// Builds the request that sends a NIDD message to its devices.
pub fn send_nidd_request(access_token: &str, session_token: &str, nidd_msg: &NiddMessage) -> (r:
    HttpRequest)
    ensures
        is_send_nidd_request(r, *nidd_msg, access_token@, session_token@),
{
    let body = nidd_message_body(nidd_msg);
    let mut headers: Vec<(String, String)> = Vec::new();
    push_header(&mut headers, "Accept", String::from_str("application/json"));
    push_header(&mut headers, "Content-Type", String::from_str("application/json"));
    push_header(&mut headers, "Authorization", oauth_field(access_token));
    push_header(&mut headers, crate::SESSION_TOKEN_FIELD, String::from_str(session_token));
    assert(headers_view(headers@) =~= seq![
        ("Accept"@, "application/json"@),
        ("Content-Type"@, "application/json"@),
        ("Authorization"@, bearer_auth_spec(access_token@)),
        (crate::SESSION_TOKEN_FIELD@, session_token@),
    ]);
    let url = String::from_str(M2M_REST_API_V1).concat("/devices/nidd/message");
    HttpRequest { method: Method::Post, url, headers, body: Some(body) }
}

} // verus!
