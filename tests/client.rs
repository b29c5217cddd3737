use unical::calendarific::client::{CalendarificClient, Reply, DEFAULT_BASE_URL};
use unical::error::FetchError;

const TWO_HOLIDAYS: &str = r#"{
    "meta": { "code": 200 },
    "response": { "holidays": [
        { "name": "New Year's Day", "description": "First day", "date": { "iso": "2025-01-01" },
          "type": ["National holiday"], "locations": "All", "states": "All" },
        { "name": "Labour Day", "date": { "iso": "2025-05-01" } }
    ] }
}"#;

fn received(status: u16, body: &str) -> Reply {
    Reply::Received { status, body: body.to_string() }
}

#[test]
fn new_client_uses_provider_endpoint() {
    let c = CalendarificClient::new("abc123");
    assert_eq!(c.api_key, "abc123");
    assert_eq!(c.base_url, DEFAULT_BASE_URL);
    assert_eq!(DEFAULT_BASE_URL, "https://calendarific.com/api/v2/holidays");
}

#[test]
fn request_url_carries_key_country_and_year() {
    let c = CalendarificClient::with_base_url("abc123", "http://test.local/holidays");
    assert_eq!(
        c.request_url("KE", 2025),
        "http://test.local/holidays?api_key=abc123&country=KE&year=2025"
    );
}

#[test]
fn request_url_writes_year_in_plain_decimal() {
    let c = CalendarificClient::new("k");
    assert_eq!(
        c.request_url("US", 7),
        "https://calendarific.com/api/v2/holidays?api_key=k&country=US&year=7"
    );
    assert!(c.request_url("US", -45).ends_with("&year=-45"));
    assert!(c.request_url("US", i32::MIN).ends_with("&year=-2147483648"));
    assert!(c.request_url("US", 0).ends_with("&year=0"));
}

#[test]
fn envelope_gives_holidays_in_order() {
    let hs = CalendarificClient::holidays_from_reply(&received(200, TWO_HOLIDAYS)).unwrap();
    assert_eq!(hs.len(), 2);
    assert_eq!(hs[0].name, "New Year's Day");
    assert_eq!(hs[0].types.as_ref().unwrap()[0], "National holiday");
    assert_eq!(hs[1].name, "Labour Day");
    assert_eq!(hs[1].description, None);
}

#[test]
fn transport_failure_is_network_error() {
    assert_eq!(
        CalendarificClient::holidays_from_reply(&Reply::TransportFailed),
        Err(FetchError::NetworkError)
    );
}

#[test]
fn empty_holiday_list_is_no_error() {
    let body = r#"{ "meta": { "code": 200 }, "response": { "holidays": [] } }"#;
    let hs = CalendarificClient::holidays_from_reply(&received(200, body)).unwrap();
    assert!(hs.is_empty());
}

#[test]
fn malformed_body_with_success_status_is_malformed_payload() {
    assert_eq!(
        CalendarificClient::holidays_from_reply(&received(200, "not json")),
        Err(FetchError::MalformedPayload)
    );
    assert_eq!(
        CalendarificClient::holidays_from_reply(&received(200, r#"{ "meta": { "code": 200 } }"#)),
        Err(FetchError::MalformedPayload)
    );
}

#[test]
fn error_status_with_unreadable_body_is_network_error() {
    let body = r#"{ "meta": { "code": 401, "error_type": "auth failed" }, "response": [] }"#;
    assert_eq!(
        CalendarificClient::holidays_from_reply(&received(401, body)),
        Err(FetchError::NetworkError)
    );
    assert_eq!(
        CalendarificClient::holidays_from_reply(&received(503, "<html>")),
        Err(FetchError::NetworkError)
    );
}

#[test]
fn error_status_with_envelope_still_gives_holidays() {
    let hs = CalendarificClient::holidays_from_reply(&received(500, TWO_HOLIDAYS)).unwrap();
    assert_eq!(hs.len(), 2);
}

#[test]
fn holidays_from_document_without_document() {
    assert_eq!(
        CalendarificClient::holidays_from_document(204, &None),
        Err(FetchError::MalformedPayload)
    );
    assert_eq!(
        CalendarificClient::holidays_from_document(404, &None),
        Err(FetchError::NetworkError)
    );
}
