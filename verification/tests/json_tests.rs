use thingspace_sdk::json_parse::{parse_json_object, get_str_field, get_int_field, JsonScalar};

fn parse(s: &str) -> Option<Vec<thingspace_sdk::json_parse::JsonField>> {
    parse_json_object(s)
}

#[test]
fn parses_empty_object() {
    let fields = parse("{}").expect("empty object parses");
    assert_eq!(fields.len(), 0);
}

#[test]
fn parses_empty_object_with_whitespace() {
    let fields = parse("  \t\r\n {  } \n").expect("whitespace is insignificant");
    assert_eq!(fields.len(), 0);
}

#[test]
fn parses_string_and_int_members() {
    let fields = parse("{\"a\":\"x\",\"b\":42}").expect("flat object parses");
    assert_eq!(fields.len(), 2);
    assert_eq!(get_str_field(&fields, "a").unwrap(), "x");
    assert_eq!(get_int_field(&fields, "b").unwrap(), 42);
}

#[test]
fn parses_members_in_any_order_with_whitespace() {
    let fields = parse(" { \"b\" : 7 , \"a\" : \"y\" } ").expect("parses");
    assert_eq!(get_int_field(&fields, "b").unwrap(), 7);
    assert_eq!(get_str_field(&fields, "a").unwrap(), "y");
}

#[test]
fn parses_negative_int() {
    let fields = parse("{\"n\":-12}").expect("parses");
    assert_eq!(get_int_field(&fields, "n").unwrap(), -12);
}

#[test]
fn parses_escapes_in_strings() {
    let fields = parse("{\"s\":\"a\\\"b\\\\c\\nd\\te\\rf\\/g\"}").expect("parses");
    assert_eq!(get_str_field(&fields, "s").unwrap(), "a\"b\\c\nd\te\rf/g");
}

#[test]
fn rejects_unknown_escape() {
    assert!(parse("{\"s\":\"a\\qb\"}").is_none());
}

#[test]
fn rejects_raw_control_character() {
    assert!(parse("{\"s\":\"a\u{1}b\"}").is_none());
}

#[test]
fn rejects_nineteen_digit_numbers() {
    assert!(parse("{\"n\":1234567890123456789}").is_none());
}

#[test]
fn accepts_eighteen_digit_numbers() {
    let fields = parse("{\"n\":123456789012345678}").expect("18 digits fit");
    assert_eq!(get_int_field(&fields, "n").unwrap(), 123_456_789_012_345_678);
}

#[test]
fn rejects_trailing_garbage() {
    assert!(parse("{\"a\":1} x").is_none());
}

#[test]
fn rejects_nested_objects() {
    assert!(parse("{\"a\":{\"b\":1}}").is_none());
}

#[test]
fn rejects_unterminated_object() {
    assert!(parse("{\"a\":1").is_none());
}

#[test]
fn rejects_non_object() {
    assert!(parse("42").is_none());
    assert!(parse("").is_none());
}

#[test]
fn first_member_wins_on_duplicate_keys() {
    let fields = parse("{\"a\":1,\"a\":2}").expect("parses");
    assert_eq!(get_int_field(&fields, "a").unwrap(), 1);
}

#[test]
fn missing_key_is_absent() {
    let fields = parse("{\"a\":1}").expect("parses");
    assert!(get_str_field(&fields, "b").is_none());
    assert!(get_int_field(&fields, "b").is_none());
}

#[test]
fn wrongly_typed_member_is_absent() {
    let fields = parse("{\"a\":1}").expect("parses");
    assert!(get_str_field(&fields, "a").is_none());
}

#[test]
fn session_body_round_trips_through_the_parser() {
    let cred = thingspace_sdk::models::SessionRequestBody {
        username: "a\"user".to_string(),
        password: "p\\w\nd".to_string(),
    };
    let req = thingspace_sdk::access::session_token_request(&cred, "atok");
    let body = req.body.expect("session requests carry a body");
    let fields = parse(&body).expect("the body the SDK sends parses back");
    assert_eq!(fields.len(), 2);
    assert_eq!(get_str_field(&fields, "username").unwrap(), "a\"user");
    assert_eq!(get_str_field(&fields, "password").unwrap(), "p\\w\nd");
}

#[test]
fn listener_body_round_trips_through_the_parser() {
    let listener = thingspace_sdk::listeners::CallbackListener {
        service_name: "NiddService".to_string(),
        url: "https://example.invalid/hook".to_string(),
        username: None,
        password: None,
        account_name: None,
    };
    let body = thingspace_sdk::listeners::callback_listener_body(&listener);
    let fields = parse(&body).expect("the body the SDK sends parses back");
    assert_eq!(get_str_field(&fields, "name").unwrap(), "NiddService");
    assert_eq!(get_str_field(&fields, "url").unwrap(), "https://example.invalid/hook");
}

#[test]
fn device_list_body_round_trips_through_the_parser() {
    let mut request = thingspace_sdk::devices::AccountDeviceListRequest::default();
    request.account_name = "0742644905-00001".to_string();
    request.max_number_of_devices = Some(-7);
    let body = thingspace_sdk::devices::adl_request_body(&request);
    let fields = parse(&body).expect("the body the SDK sends parses back");
    assert_eq!(get_str_field(&fields, "accountName").unwrap(), "0742644905-00001");
    assert_eq!(get_int_field(&fields, "maxNumberOfDevices").unwrap(), -7);
}

#[test]
fn scalar_values_are_kept_verbatim() {
    let fields = parse("{\"k\":\"v\"}").expect("parses");
    match &fields[0].value {
        JsonScalar::Str(s) => assert_eq!(s, "v"),
        JsonScalar::Int(_) => panic!("expected a string"),
    }
    assert_eq!(fields[0].key, "k");
}
