use bun_docs_mcp_proxy::http::{BunDocsClient, Header, BUN_DOCS_API, REQUEST_TIMEOUT_SECS};
use bun_docs_mcp_proxy::json::Json;
use reqwest::header::HeaderMap;
use reqwest::StatusCode;

fn headers_of(map: &HeaderMap) -> Vec<Header> {
    map.iter()
        .map(|(name, value)| Header {
            name: name.as_str().to_owned(),
            value: value.as_bytes().to_vec(),
        })
        .collect()
}

#[test]
fn tests_test_client_creation() {
    let client = BunDocsClient::new();
    assert_eq!(client.base_url(), BUN_DOCS_API);
}

#[test]
fn tests_test_client_default() {
    let client = BunDocsClient::default();
    assert_eq!(client.base_url(), BUN_DOCS_API);
}

#[test]
fn tests_test_client_with_base_url() {
    let custom_url = "https://example.com/api";
    let client = BunDocsClient::with_base_url(custom_url).unwrap();
    assert_eq!(client.base_url(), custom_url);
}

#[test]
fn tests_test_client_with_base_url_invalid() {
    let result = BunDocsClient::with_base_url("not a valid url");
    assert!(result.is_err());
}

#[test]
fn tests_test_backoff_delay_ms() {
    assert_eq!(BunDocsClient::backoff_delay_ms(1_usize), 200_u64);
    assert_eq!(BunDocsClient::backoff_delay_ms(2_usize), 400_u64);
    assert_eq!(BunDocsClient::backoff_delay_ms(3_usize), 800_u64);
    assert_eq!(BunDocsClient::backoff_delay_ms(4_usize), 1000_u64); // capped
}

#[test]
fn tests_test_is_transient_status() {
    assert!(BunDocsClient::is_transient_status(
        StatusCode::TOO_MANY_REQUESTS.as_u16()
    ));
    assert!(BunDocsClient::is_transient_status(
        StatusCode::INTERNAL_SERVER_ERROR.as_u16()
    ));
    assert!(BunDocsClient::is_transient_status(
        StatusCode::BAD_GATEWAY.as_u16()
    ));
    assert!(BunDocsClient::is_transient_status(
        StatusCode::SERVICE_UNAVAILABLE.as_u16()
    ));
    assert!(BunDocsClient::is_transient_status(
        StatusCode::GATEWAY_TIMEOUT.as_u16()
    ));
    assert!(!BunDocsClient::is_transient_status(
        StatusCode::NOT_FOUND.as_u16()
    ));
    assert!(!BunDocsClient::is_transient_status(
        StatusCode::BAD_REQUEST.as_u16()
    ));
}

#[test]
fn tests_test_main_content_type() {
    let mut headers = HeaderMap::new();
    headers.insert(
        reqwest::header::CONTENT_TYPE,
        "application/json; charset=utf-8".parse().unwrap(),
    );
    assert_eq!(
        BunDocsClient::main_content_type(&headers_of(&headers)),
        "application/json"
    );

    headers.insert(
        reqwest::header::CONTENT_TYPE,
        "text/event-stream".parse().unwrap(),
    );
    assert_eq!(
        BunDocsClient::main_content_type(&headers_of(&headers)),
        "text/event-stream"
    );

    let empty_headers = HeaderMap::new();
    assert_eq!(
        BunDocsClient::main_content_type(&headers_of(&empty_headers)),
        ""
    );
}

#[test]
fn tests_test_summarize_headers() {
    let mut headers = HeaderMap::new();
    headers.insert(
        reqwest::header::CONTENT_TYPE,
        "application/json".parse().unwrap(),
    );
    headers.insert(
        reqwest::header::CONTENT_LENGTH,
        "123".parse().unwrap(),
    );

    let summary = BunDocsClient::summarize_headers(&headers_of(&headers));
    assert!(summary.contains("content-type"));
    assert!(summary.contains("application/json"));
}

#[test]
fn tests_test_truncate_utf8() {
    let short = "hello";
    assert_eq!(BunDocsClient::truncate_utf8(short, 10_usize), short);

    let long = "a".repeat(100_usize);
    let truncated = BunDocsClient::truncate_utf8(&long, 50_usize);
    assert!(truncated.len() <= 50_usize);
    assert!(!truncated.is_empty());
    assert!(truncated.is_char_boundary(truncated.len()));

    // "hello 世界"
    let unicode = "hello \u{4e16}\u{754c}";
    let truncated_unicode = BunDocsClient::truncate_utf8(unicode, 8_usize);
    assert!(truncated_unicode.len() <= 8_usize);
    assert!(truncated_unicode.is_char_boundary(truncated_unicode.len()));
}

#[test]
fn tests_test_content_type_detection() {
    let sse_type = "text/event-stream; charset=utf-8";
    let json_type = "application/json";

    assert!(sse_type.contains("text/event-stream"));
    assert!(!json_type.contains("text/event-stream"));
}

#[test]
fn tests_test_result_and_error_field_detection() {
    let with_result = Json::parse(r#"{"result": {"data": "test"}}"#).expect("valid JSON");
    let with_error =
        Json::parse(r#"{"error": {"code": -32700, "message": "Parse error"}}"#).expect("valid JSON");
    let neither = Json::parse(r#"{"status": "pending"}"#).expect("valid JSON");

    assert!(with_result.get("result").is_some());
    assert!(with_error.get("error").is_some());
    assert!(neither.get("result").is_none() && neither.get("error").is_none());
}

#[test]
fn tests_test_empty_sse_data_handling() {
    let empty_data = "";
    assert!(empty_data.is_empty());

    // Empty data should be skipped in SSE parsing
    let non_empty = "data";
    assert!(!non_empty.is_empty());
}

#[test]
fn tests_test_http_status_detection() {
    let status_ok = StatusCode::OK;
    let status_error = StatusCode::INTERNAL_SERVER_ERROR;

    assert!(BunDocsClient::is_success_status(status_ok.as_u16()));
    assert!(!BunDocsClient::is_success_status(status_error.as_u16()));
}

#[test]
fn tests_test_string_truncation() {
    let long_string = "a".repeat(300_usize);
    let truncated = &long_string[..long_string.len().min(200)];

    assert_eq!(truncated.len(), 200_usize);
}

#[test]
fn tests_test_timeout_value() {
    let timeout_secs = REQUEST_TIMEOUT_SECS;
    assert_eq!(timeout_secs, 5_u64);
    assert!(timeout_secs > 0_u64);
}

#[test]
fn tests_test_api_url_const() {
    assert_eq!(BUN_DOCS_API, "https://bun.com/docs/mcp");
    assert!(BUN_DOCS_API.starts_with("https://"));
}

#[test]
fn tests_test_sse_event_type_handling() {
    let event_type = "message";
    assert!(!event_type.is_empty());
}

#[test]
fn tests_test_json_parse_error_handling() {
    let invalid_json = "not valid json {]";
    let result = Json::parse(invalid_json);
    assert!(result.is_none());
}

#[test]
fn tests_test_error_message_fallback() {
    let error_text = "Service Unavailable";
    let fallback = error_text;
    assert_eq!(fallback, "Service Unavailable");

    let default_error = "unknown error";
    assert_eq!(default_error, "unknown error");
}

#[test]
fn tests_test_sse_data_min_truncation() {
    let long_data = "a".repeat(300_usize);
    let truncated = &long_data[..long_data.len().min(200)];
    assert_eq!(truncated.len(), 200_usize);
}
