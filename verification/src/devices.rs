//! Device management: the account device list request and its models.
//!
//! The request body the SDK sends to `/devices/actions/list` is produced by
//! a verified serializer and pinned down, byte for byte, by
//! [`adl_request_json`].  Dates travel as ISO-8601 text; the SDK never
//! looks inside them.
use vstd::prelude::*;
use crate::auth::{bearer_auth_spec, oauth_field};
use crate::http::{HttpRequest, Method, headers_view, push_header};
use crate::json::{json_string, json_key, append_json_string, append_json_key, append_json_int,
    json_int};
use crate::strutil::push_char;
use crate::M2M_REST_API_V1;

verus! {

/// A device identifier and its kind (ESN, EID, ICCID, IMEI, MDN, MEID or
/// MSISDN).
#[derive(Debug, Clone)]
pub struct DeviceID {
    /// Device ID.
    pub id: String,
    /// The type of the device identifier.
    pub kind: String,
}

impl Default for DeviceID {
    /// An empty identifier.
    fn default() -> (r: DeviceID)
        ensures
            r.id@ == Seq::<char>::empty(),
            r.kind@ == Seq::<char>::empty(),
    {
        DeviceID { id: String::new(), kind: String::new() }
    }
}

/// A search filter over device identifiers.
#[derive(Debug, Clone)]
pub struct DeviceIdSearch {
    /// The string appears anywhere in the identifier.
    pub contains: String,
    /// The identifier must start with the specified string.
    pub starts_with: Option<String>,
    /// The identifier must end with the specified string.
    pub ends_with: Option<String>,
    /// The type of the device identifier.
    pub kind: String,
}

impl Default for DeviceIdSearch {
    /// An empty filter.
    fn default() -> (r: DeviceIdSearch)
        ensures
            r.contains@ == Seq::<char>::empty(),
            r.starts_with is None,
            r.ends_with is None,
            r.kind@ == Seq::<char>::empty(),
    {
        DeviceIdSearch {
            contains: String::new(),
            starts_with: None,
            ends_with: None,
            kind: String::new(),
        }
    }
}

/// Information about the device's carrier.
#[derive(Debug, Clone)]
pub struct CarrierInformation {
    /// Carrier name.
    pub carrier_name: String,
    /// Service plan.
    pub service_plan: String,
    /// Service state.
    pub state: String,
}

impl Default for CarrierInformation {
    /// An empty carrier record.
    fn default() -> (r: CarrierInformation)
        ensures
            r.carrier_name@ == Seq::<char>::empty(),
            r.service_plan@ == Seq::<char>::empty(),
            r.state@ == Seq::<char>::empty(),
    {
        CarrierInformation {
            carrier_name: String::new(),
            service_plan: String::new(),
            state: String::new(),
        }
    }
}

/// An extended attribute of a device, as a key and value pair.
#[derive(Debug, Clone)]
pub struct ExtendedAttribute {
    /// Extended attribute key.
    pub key: String,
    /// Extended attribute value, usually empty.
    pub value: Option<String>,
}

impl Default for ExtendedAttribute {
    /// An empty attribute.
    fn default() -> (r: ExtendedAttribute)
        ensures
            r.key@ == Seq::<char>::empty(),
            r.value is None,
    {
        ExtendedAttribute { key: String::new(), value: None }
    }
}

/// One device as the provider reports it.  Dates are ISO-8601 text.
#[derive(Debug, Clone)]
pub struct Device {
    /// Account name.
    pub account_name: String,
    /// Billing cycle end date.
    pub billing_cycle_end_date: String,
    /// Carrier records (the provider sends exactly one).
    pub carrier_informations: Vec<CarrierInformation>,
    /// Connection state.
    pub connected: bool,
    /// Device creation date.
    pub created_at: String,
    /// The device's identifiers (the provider sends six).
    pub device_ids: Vec<DeviceID>,
    /// Extended attributes.
    pub extended_attributes: Vec<ExtendedAttribute>,
    /// Device group names (the provider sends one, the default group).
    pub group_names: Vec<String>,
    /// Last activated by user.
    pub last_activation_by: String,
    /// Last activation date.
    pub last_activation_date: String,
    /// Last connection date.
    pub last_connection_date: String,
}

impl Default for Device {
    /// A placeholder device shaped like a real record: one carrier entry,
    /// six identifiers, room for the usual twenty-six extended attributes.
    fn default() -> (r: Device)
        ensures
            r.account_name@ == Seq::<char>::empty(),
            r.carrier_informations@.len() == 1,
            r.device_ids@.len() == 6,
            r.extended_attributes@.len() == 26,
            r.group_names@.len() == 1,
            r.connected == false,
    {
        let mut carriers: Vec<CarrierInformation> = Vec::new();
        carriers.push(CarrierInformation::default());
        let mut ids: Vec<DeviceID> = Vec::new();
        let mut i: usize = 0;
        while i < 6
            invariant
                ids@.len() == i,
                i <= 6,
            decreases 6 - i,
        {
            ids.push(DeviceID::default());
            i += 1;
        }
        let mut attrs: Vec<ExtendedAttribute> = Vec::new();
        let mut j: usize = 0;
        while j < 26
            invariant
                attrs@.len() == j,
                j <= 26,
            decreases 26 - j,
        {
            attrs.push(ExtendedAttribute::default());
            j += 1;
        }
        let mut groups: Vec<String> = Vec::new();
        groups.push(String::new());
        Device {
            account_name: String::new(),
            billing_cycle_end_date: String::new(),
            carrier_informations: carriers,
            connected: false,
            created_at: String::new(),
            device_ids: ids,
            extended_attributes: attrs,
            group_names: groups,
            last_activation_by: String::new(),
            last_activation_date: String::new(),
            last_connection_date: String::new(),
        }
    }
}

/// An account device list request: the billing account plus optional
/// filters.  Dates are ISO-8601 text.
#[derive(Debug, Clone)]
pub struct AccountDeviceListRequest {
    /// The billing account for which a list of devices is returned.
    pub account_name: String,
    /// An identifier for a single device.
    pub device_id: Option<DeviceID>,
    /// Filter for a list of devices.
    pub filter: Option<DeviceIdSearch>,
    /// Only include devices in this state.
    pub current_state: Option<String>,
    /// Only include devices added after this date and time.
    pub earliest: Option<String>,
    /// Only include devices added before this date and time.
    pub latest: Option<String>,
    /// Only include devices with this service plan.
    pub service_plan: Option<String>,
    /// Max number of devices returned for the request (0 to 100).
    pub max_number_of_devices: Option<i32>,
    /// Pagination cursor (0 to 100).
    pub largest_device_id_seen: Option<i32>,
}

impl Default for AccountDeviceListRequest {
    /// A request with no account and no filters.
    fn default() -> (r: AccountDeviceListRequest)
        ensures
            r.account_name@ == Seq::<char>::empty(),
            r.device_id is None,
            r.filter is None,
            r.current_state is None,
            r.earliest is None,
            r.latest is None,
            r.service_plan is None,
            r.max_number_of_devices is None,
            r.largest_device_id_seen is None,
    {
        AccountDeviceListRequest {
            account_name: String::new(),
            device_id: None,
            filter: None,
            current_state: None,
            earliest: None,
            latest: None,
            service_plan: None,
            max_number_of_devices: None,
            largest_device_id_seen: None,
        }
    }
}

/// An account device list result.
#[derive(Debug)]
pub struct AccountDeviceListResult {
    /// True when more devices exist than were returned (a 202 answer).
    pub has_more_data: bool,
    /// The returned devices.
    pub devices: Vec<Device>,
}

impl Default for AccountDeviceListResult {
    /// A result holding one placeholder device.
    fn default() -> (r: AccountDeviceListResult)
        ensures
            r.has_more_data == false,
            r.devices@.len() == 1,
    {
        let mut devices: Vec<Device> = Vec::new();
        devices.push(Device::default());
        AccountDeviceListResult { has_more_data: false, devices }
    }
}

/// The JSON form of a [`DeviceID`]: `{"id":..,"kind":..}`.
pub open spec fn device_id_json(d: DeviceID) -> Seq<char> {
    seq!['{'] + json_key("id"@) + json_string(d.id@) + seq![','] + json_key("kind"@)
        + json_string(d.kind@) + seq!['}']
}

/// Appends the JSON form of a [`DeviceID`].
pub fn append_device_id(out: &mut String, d: &DeviceID)
    ensures
        final(out)@ == old(out)@ + device_id_json(*d),
{
    push_char(out, '{');
    append_json_key(out, "id");
    append_json_string(out, d.id.as_str());
    push_char(out, ',');
    append_json_key(out, "kind");
    append_json_string(out, d.kind.as_str());
    push_char(out, '}');
    assert(final(out)@ =~= old(out)@ + device_id_json(*d));
}

/// An optional string member, comma first, skipped when absent.
pub open spec fn opt_str_member(key: Seq<char>, v: Option<String>) -> Seq<char> {
    match v {
        Some(s) => seq![','] + json_key(key) + json_string(s@),
        None => Seq::empty(),
    }
}

fn append_opt_str_member(out: &mut String, key: &str, v: &Option<String>)
    ensures
        final(out)@ == old(out)@ + opt_str_member(key@, *v),
{
    match v {
        Some(s) => {
            push_char(out, ',');
            append_json_key(out, key);
            append_json_string(out, s.as_str());
            assert(final(out)@ =~= old(out)@ + opt_str_member(key@, *v));
        },
        None => {
            assert(final(out)@ =~= old(out)@ + opt_str_member(key@, *v));
        },
    }
}

/// An optional integer member, comma first, skipped when absent.
pub open spec fn opt_int_member(key: Seq<char>, v: Option<i32>) -> Seq<char> {
    match v {
        Some(n) => seq![','] + json_key(key) + json_int(n as int),
        None => Seq::empty(),
    }
}

fn append_opt_int_member(out: &mut String, key: &str, v: &Option<i32>)
    ensures
        final(out)@ == old(out)@ + opt_int_member(key@, *v),
{
    match v {
        Some(n) => {
            push_char(out, ',');
            append_json_key(out, key);
            append_json_int(out, *n);
            assert(final(out)@ =~= old(out)@ + opt_int_member(key@, *v));
        },
        None => {
            assert(final(out)@ =~= old(out)@ + opt_int_member(key@, *v));
        },
    }
}

/// The JSON form of a [`DeviceIdSearch`]: `contains` and `kind` always,
/// `starts_with` and `ends_with` only when set.
pub open spec fn device_id_search_json(f: DeviceIdSearch) -> Seq<char> {
    seq!['{'] + json_key("contains"@) + json_string(f.contains@)
        + opt_str_member("starts_with"@, f.starts_with)
        + opt_str_member("ends_with"@, f.ends_with)
        + seq![','] + json_key("kind"@) + json_string(f.kind@) + seq!['}']
}

fn append_device_id_search(out: &mut String, f: &DeviceIdSearch)
    ensures
        final(out)@ == old(out)@ + device_id_search_json(*f),
{
    push_char(out, '{');
    append_json_key(out, "contains");
    append_json_string(out, f.contains.as_str());
    append_opt_str_member(out, "starts_with", &f.starts_with);
    append_opt_str_member(out, "ends_with", &f.ends_with);
    push_char(out, ',');
    append_json_key(out, "kind");
    append_json_string(out, f.kind.as_str());
    push_char(out, '}');
    assert(final(out)@ =~= old(out)@ + device_id_search_json(*f));
}

/// The JSON body of an account device list request: the account name
/// always, every optional filter only when set, keys in camel case.
pub open spec fn adl_request_json(r: AccountDeviceListRequest) -> Seq<char> {
    seq!['{'] + json_key("accountName"@) + json_string(r.account_name@)
        + (match r.device_id {
            Some(d) => seq![','] + json_key("deviceId"@) + device_id_json(d),
            None => Seq::empty(),
        })
        + (match r.filter {
            Some(f) => seq![','] + json_key("filter"@) + device_id_search_json(f),
            None => Seq::empty(),
        })
        + opt_str_member("currentState"@, r.current_state)
        + opt_str_member("earliest"@, r.earliest)
        + opt_str_member("latest"@, r.latest)
        + opt_str_member("servicePlan"@, r.service_plan)
        + opt_int_member("maxNumberOfDevices"@, r.max_number_of_devices)
        + opt_int_member("largestDeviceIdSeen"@, r.largest_device_id_seen)
        + seq!['}']
}

/// Serializes an account device list request as its JSON body.
#[verifier::rlimit(100)]
pub fn adl_request_body(r: &AccountDeviceListRequest) -> (body: String)
    ensures
        body@ == adl_request_json(*r),
{
    let mut out = String::new();
    push_char(&mut out, '{');
    append_json_key(&mut out, "accountName");
    append_json_string(&mut out, r.account_name.as_str());
    match &r.device_id {
        Some(d) => {
            push_char(&mut out, ',');
            append_json_key(&mut out, "deviceId");
            append_device_id(&mut out, d);
        },
        None => {},
    }
    match &r.filter {
        Some(f) => {
            push_char(&mut out, ',');
            append_json_key(&mut out, "filter");
            append_device_id_search(&mut out, f);
        },
        None => {},
    }
    append_opt_str_member(&mut out, "currentState", &r.current_state);
    append_opt_str_member(&mut out, "earliest", &r.earliest);
    append_opt_str_member(&mut out, "latest", &r.latest);
    append_opt_str_member(&mut out, "servicePlan", &r.service_plan);
    append_opt_int_member(&mut out, "maxNumberOfDevices", &r.max_number_of_devices);
    append_opt_int_member(&mut out, "largestDeviceIdSeen", &r.largest_device_id_seen);
    push_char(&mut out, '}');
    assert(out@ =~= adl_request_json(*r));
    out
}

/// What a device-list request looks like: a JSON POST to
/// `/devices/actions/list` carrying the Bearer-Auth header and the session
/// token header, whose body serializes the filled-in request.
pub open spec fn is_devices_list_request(
    r: HttpRequest,
    req: AccountDeviceListRequest,
    access_token: Seq<char>,
    session_token: Seq<char>,
) -> bool {
    &&& r.method == Method::Post
    &&& r.url@ == M2M_REST_API_V1@ + "/devices/actions/list"@
    &&& headers_view(r.headers@) == seq![
        ("Accept"@, "application/json"@),
        ("Content-Type"@, "application/json"@),
        (crate::SESSION_TOKEN_FIELD@, session_token),
        ("Authorization"@, bearer_auth_spec(access_token)),
    ]
    &&& (r.body matches Some(b) && b@ == adl_request_json(req))
}

/// Builds the account device list request: fills the billing account into
/// `request`, serializes it, and attaches the access token as a bearer
/// `Authorization` header and the session token as the `VZ-M2M-Token`
/// header.
pub fn devices_list_request(
    account_name: &str,
    access_token: &str,
    session_token: &str,
    request: &mut AccountDeviceListRequest,
) -> (r: HttpRequest)
    ensures
        final(request).account_name@ == account_name@,
        final(request).device_id == old(request).device_id,
        final(request).filter == old(request).filter,
        final(request).current_state == old(request).current_state,
        final(request).earliest == old(request).earliest,
        final(request).latest == old(request).latest,
        final(request).service_plan == old(request).service_plan,
        final(request).max_number_of_devices == old(request).max_number_of_devices,
        final(request).largest_device_id_seen == old(request).largest_device_id_seen,
        is_devices_list_request(r, *final(request), access_token@, session_token@),
{
    request.account_name = String::from_str(account_name);
    let body = adl_request_body(request);
    let mut headers: Vec<(String, String)> = Vec::new();
    push_header(&mut headers, "Accept", String::from_str("application/json"));
    push_header(&mut headers, "Content-Type", String::from_str("application/json"));
    push_header(&mut headers, crate::SESSION_TOKEN_FIELD, String::from_str(session_token));
    push_header(&mut headers, "Authorization", oauth_field(access_token));
    assert(headers_view(headers@) =~= seq![
        ("Accept"@, "application/json"@),
        ("Content-Type"@, "application/json"@),
        (crate::SESSION_TOKEN_FIELD@, session_token@),
        ("Authorization"@, bearer_auth_spec(access_token@)),
    ]);
    let url = String::from_str(M2M_REST_API_V1).concat("/devices/actions/list");
    HttpRequest { method: Method::Post, url, headers, body: Some(body) }
}

} // verus!
