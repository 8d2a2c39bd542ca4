use thingspace_sdk::access::{access_token_request, session_token_request};
use thingspace_sdk::devices::{AccountDeviceListRequest, DeviceID, DeviceIdSearch,
    adl_request_body, devices_list_request};
use thingspace_sdk::http::Method;
use thingspace_sdk::listeners::{CallbackListener, callback_listener_body,
    deregister_callback_listener_request, list_callback_listeners_request,
    parse_callback_listener_response, register_callback_listener_request};
use thingspace_sdk::models::{ServiceName, SessionRequestBody};
use thingspace_sdk::nidd::{NiddMessage, nidd_message_body, send_nidd_request};

fn header<'a>(headers: &'a [(String, String)], name: &str) -> Option<&'a str> {
    headers.iter().find(|(n, _)| n == name).map(|(_, v)| v.as_str())
}

#[test]
fn access_request_shape() {
    let req = access_token_request("abc", "def");
    assert_eq!(req.method, Method::Post);
    assert_eq!(req.url, "https://thingspace.verizon.com/api/ts/v1/oauth2/token");
    assert_eq!(header(&req.headers, "Accept"), Some("application/json"));
    assert_eq!(
        header(&req.headers, "Content-Type"),
        Some("application/x-www-form-urlencoded"),
    );
    assert_eq!(header(&req.headers, "Authorization"), Some("Basic YWJjOmRlZg=="));
    assert_eq!(req.body.as_deref(), Some("grant_type=client_credentials"));
}

#[test]
fn session_request_shape() {
    let cred = SessionRequestBody { username: "user".to_string(), password: "pass".to_string() };
    let req = session_token_request(&cred, "atok");
    assert_eq!(req.method, Method::Post);
    assert_eq!(req.url, "https://thingspace.verizon.com/api/m2m/v1/session/login");
    assert_eq!(header(&req.headers, "Content-Type"), Some("application/json"));
    assert_eq!(header(&req.headers, "Authorization"), Some("Bearer atok"));
    assert_eq!(
        req.body.as_deref(),
        Some("{\"username\":\"user\",\"password\":\"pass\"}"),
    );
}

#[test]
fn session_request_escapes_credentials() {
    let cred = SessionRequestBody { username: "u\"x".to_string(), password: "p\\y".to_string() };
    let req = session_token_request(&cred, "atok");
    assert_eq!(
        req.body.as_deref(),
        Some("{\"username\":\"u\\\"x\",\"password\":\"p\\\\y\"}"),
    );
}

#[test]
fn devices_list_request_serializes_account_and_session_header() {
    let mut request = AccountDeviceListRequest::default();
    let req = devices_list_request("0742644905-00001", "atok", "stok", &mut request);
    assert_eq!(req.method, Method::Post);
    assert_eq!(
        req.url,
        "https://thingspace.verizon.com/api/m2m/v1/devices/actions/list",
    );
    assert_eq!(header(&req.headers, "VZ-M2M-Token"), Some("stok"));
    assert_eq!(header(&req.headers, "Authorization"), Some("Bearer atok"));
    let body = req.body.expect("a list request carries a body");
    assert!(body.contains("\"accountName\":\"0742644905-00001\""));
    assert_eq!(body, "{\"accountName\":\"0742644905-00001\"}");
    assert_eq!(request.account_name, "0742644905-00001");
}

#[test]
fn devices_list_body_with_filters() {
    let request = AccountDeviceListRequest {
        account_name: "acct".to_string(),
        device_id: Some(DeviceID { id: "89148000008531108276".to_string(), kind: "iccid".to_string() }),
        filter: Some(DeviceIdSearch {
            contains: "89".to_string(),
            starts_with: Some("891".to_string()),
            ends_with: None,
            kind: "iccid".to_string(),
        }),
        current_state: Some("active".to_string()),
        earliest: None,
        latest: None,
        service_plan: None,
        max_number_of_devices: Some(100),
        largest_device_id_seen: None,
    };
    let body = adl_request_body(&request);
    assert_eq!(
        body,
        "{\"accountName\":\"acct\",\
          \"deviceId\":{\"id\":\"89148000008531108276\",\"kind\":\"iccid\"},\
          \"filter\":{\"contains\":\"89\",\"starts_with\":\"891\",\"kind\":\"iccid\"},\
          \"currentState\":\"active\",\
          \"maxNumberOfDevices\":100}",
    );
}

#[test]
fn nidd_request_shape() {
    let msg = NiddMessage {
        account_name: "0742644905-00001".to_string(),
        device_ids: vec![
            DeviceID { id: "350457799502610".to_string(), kind: "IMEI".to_string() },
            DeviceID { id: "4062914013".to_string(), kind: "MDN".to_string() },
        ],
        maximum_delivery_time: 120,
        message: "SGVsbG8=".to_string(),
    };
    let req = send_nidd_request("atok", "stok", &msg);
    assert_eq!(req.method, Method::Post);
    assert_eq!(
        req.url,
        "https://thingspace.verizon.com/api/m2m/v1/devices/nidd/message",
    );
    assert_eq!(header(&req.headers, "VZ-M2M-Token"), Some("stok"));
    assert_eq!(
        req.body.as_deref(),
        Some(
            "{\"accountName\":\"0742644905-00001\",\
              \"deviceIds\":[{\"id\":\"350457799502610\",\"kind\":\"IMEI\"},\
                             {\"id\":\"4062914013\",\"kind\":\"MDN\"}],\
              \"maximumDeliveryTime\":120,\
              \"message\":\"SGVsbG8=\"}"
        ),
    );
}

#[test]
fn int_members_cover_the_extremes() {
    let msg = NiddMessage {
        account_name: "a".to_string(),
        device_ids: vec![],
        maximum_delivery_time: i32::MIN,
        message: String::new(),
    };
    let body = nidd_message_body(&msg);
    assert!(body.contains("\"maximumDeliveryTime\":-2147483648"));
    let msg2 = NiddMessage { maximum_delivery_time: i32::MAX, ..msg };
    let body2 = nidd_message_body(&msg2);
    assert!(body2.contains("\"maximumDeliveryTime\":2147483647"));
}

#[test]
fn nidd_body_with_empty_device_list() {
    let msg = NiddMessage {
        account_name: "a".to_string(),
        device_ids: vec![],
        maximum_delivery_time: -5,
        message: String::new(),
    };
    let body = nidd_message_body(&msg);
    assert_eq!(
        body,
        "{\"accountName\":\"a\",\"deviceIds\":[],\"maximumDeliveryTime\":-5,\"message\":\"\"}",
    );
}

#[test]
fn register_listener_request_shape() {
    let listener = CallbackListener {
        service_name: ServiceName::CarrierService.as_str().to_string(),
        url: "https://mock.thingspace.verizon.com/webhook".to_string(),
        username: None,
        password: None,
        account_name: None,
    };
    let req = register_callback_listener_request("0742644905-00001", "atok", "stok", &listener);
    assert_eq!(req.method, Method::Post);
    assert_eq!(
        req.url,
        "https://thingspace.verizon.com/api/m2m/v1/callbacks/0742644905-00001",
    );
    assert_eq!(header(&req.headers, "VZ-M2M-Token"), Some("stok"));
    assert_eq!(
        req.body.as_deref(),
        Some(
            "{\"name\":\"CarrierService\",\
              \"url\":\"https://mock.thingspace.verizon.com/webhook\"}"
        ),
    );
}

#[test]
fn register_body_includes_optional_credentials() {
    let listener = CallbackListener {
        service_name: "NiddService".to_string(),
        url: "https://example.invalid/hook".to_string(),
        username: Some("u".to_string()),
        password: Some("p".to_string()),
        account_name: Some("never-sent".to_string()),
    };
    let body = callback_listener_body(&listener);
    assert_eq!(
        body,
        "{\"name\":\"NiddService\",\"url\":\"https://example.invalid/hook\",\
          \"username\":\"u\",\"password\":\"p\"}",
    );
}

#[test]
fn deregister_listener_request_shape() {
    let req = deregister_callback_listener_request("acct", "atok", "stok", "CarrierService");
    assert_eq!(req.method, Method::Delete);
    assert_eq!(
        req.url,
        "https://thingspace.verizon.com/api/m2m/v1/callbacks/acct/name/CarrierService",
    );
    assert!(req.body.is_none());
    assert_eq!(header(&req.headers, "Authorization"), Some("Bearer atok"));
}

#[test]
fn list_listeners_request_shape() {
    let req = list_callback_listeners_request("acct", "atok", "stok");
    assert_eq!(req.method, Method::Get);
    assert_eq!(req.url, "https://thingspace.verizon.com/api/m2m/v1/callbacks/acct");
    assert!(req.body.is_none());
    assert_eq!(header(&req.headers, "Accept"), Some("application/json"));
    assert_eq!(header(&req.headers, "Content-Type"), None);
    assert_eq!(header(&req.headers, "VZ-M2M-Token"), Some("stok"));
}

#[test]
fn listener_response_parses_with_defaults() {
    let r = parse_callback_listener_response(
        "{\"accountName\":\"acct\",\"serviceName\":\"CarrierService\"}",
    )
    .expect("parses");
    assert_eq!(r.account_name, "acct");
    assert_eq!(r.service_name, "CarrierService");

    let partial = parse_callback_listener_response("{\"accountName\":\"acct\"}").expect("parses");
    assert_eq!(partial.account_name, "acct");
    assert_eq!(partial.service_name, "");

    assert!(parse_callback_listener_response("nope").is_none());
}

#[test]
fn generated_bodies_are_valid_json() {
    let msg = NiddMessage {
        account_name: "a\"b\\c\nd\te\rf\u{1}g".to_string(),
        device_ids: vec![DeviceID { id: "1".to_string(), kind: "MDN".to_string() }],
        maximum_delivery_time: 2,
        message: "x".to_string(),
    };
    let body = nidd_message_body(&msg);
    let value: serde_json::Value = serde_json::from_str(&body).expect("body is valid JSON");
    assert_eq!(
        value.get("accountName").and_then(|v| v.as_str()),
        Some("a\"b\\c\nd\te\rf\u{1}g"),
    );
    assert_eq!(
        value.get("maximumDeliveryTime").and_then(|v| v.as_i64()),
        Some(2),
    );
}

#[test]
fn service_names_render_their_wire_form() {
    assert_eq!(ServiceName::CarrierService.as_str(), "CarrierService");
    assert_eq!(ServiceName::NiddService.as_str(), "NiddService");
    assert_eq!(ServiceName::QoS.as_str(), "QoS");
}
