use postboy_sync::response::{
    format_bytes, format_duration, JsonError, Response, ResponseBody, ResponseHeader, TestResult,
};

#[test]
fn test_response_creation() {
    let response = Response::new(200, "OK".to_string());
    assert_eq!(response.status_code, 200);
    assert_eq!(response.status_text, "OK");
    assert!(response.is_success());
    assert!(!response.is_redirect());
    assert!(!response.is_client_error());
    assert!(!response.is_server_error());
}

#[test]
fn test_response_categories() {
    assert!(Response::new(200, "OK".to_string()).is_success());
    assert!(Response::new(201, "Created".to_string()).is_success());
    assert!(Response::new(204, "No Content".to_string()).is_success());
    assert!(Response::new(301, "Moved Permanently".to_string()).is_redirect());
    assert!(Response::new(302, "Found".to_string()).is_redirect());
    assert!(Response::new(400, "Bad Request".to_string()).is_client_error());
    assert!(Response::new(404, "Not Found".to_string()).is_client_error());
    assert!(Response::new(500, "Internal Server Error".to_string()).is_server_error());
    assert!(Response::new(503, "Service Unavailable".to_string()).is_server_error());
}

#[test]
fn test_response_json() {
    let json_value: serde_json::Value = serde_json::from_str("{\"message\": \"hello\"}").unwrap();
    let response = Response {
        body: ResponseBody::Json(json_value.clone()),
        ..Response::new(200, "OK".to_string())
    };
    let parsed = response.json().unwrap();
    assert_eq!(parsed, json_value);
}

#[test]
fn test_format_duration() {
    assert_eq!(format_duration(100), "100ms");
    assert_eq!(format_duration(1500), "1.5s");
    assert_eq!(format_duration(65000), "1m 5s");
}

#[test]
fn test_format_bytes() {
    assert_eq!(format_bytes(100), "100B");
    assert_eq!(format_bytes(2048), "2.00KB");
    assert_eq!(format_bytes(3_145_728), "3.00MB");
    assert_eq!(format_bytes(1_073_741_824), "1.00GB");
}

#[test]
fn test_test_results() {
    let mut response = Response::new(200, "OK".to_string());
    response.add_test_result(TestResult::passed("Status is 200".to_string()));
    response.add_test_result(TestResult::failed("Has data".to_string(), "No data found".to_string()));
    response.add_test_result(TestResult::passed("Response time OK".to_string()));
    assert_eq!(response.test_results.len(), 3);
    assert_eq!(response.passed_tests().len(), 2);
    assert_eq!(response.failed_tests().len(), 1);
    assert!(!response.all_tests_passed());
}

#[test]
fn duration_rounding_matches_float_formatting() {
    for ms in [0u64, 999, 1000, 1049, 1050, 1150, 1250, 1750, 2250, 2350, 9950, 33350, 59949, 59950, 59999, 60000, 3_600_000, u64::MAX] {
        let expected = if ms < 1000 {
            format!("{}ms", ms)
        } else if ms < 60000 {
            format!("{:.1}s", ms as f64 / 1000.0)
        } else {
            format!("{}m {}s", ms / 60000, (ms % 60000) / 1000)
        };
        assert_eq!(format_duration(ms), expected, "ms = {}", ms);
    }
}

#[test]
fn duration_rounding_over_a_whole_range() {
    for ms in 1000u64..60000 {
        assert_eq!(format_duration(ms), format!("{:.1}s", ms as f64 / 1000.0), "ms = {}", ms);
    }
}

#[test]
fn byte_rounding_matches_float_formatting() {
    const KB: u64 = 1024;
    const MB: u64 = KB * 1024;
    const GB: u64 = MB * 1024;
    let mut samples: Vec<u64> = vec![0, 1023, 1024, 1029, 1030, 1536, 5 * KB + 5, MB - 1, MB, MB + 5243, GB - 1, GB, 3 * GB + 5 * MB + 7, (1 << 53) + 1, (1 << 60) + 12345, u64::MAX];
    for k in 0..4000u64 {
        samples.push(KB + k * 7);
        samples.push(MB + k * 5237);
    }
    for b in samples {
        let expected = if b < KB {
            format!("{}B", b)
        } else if b < MB {
            format!("{:.2}KB", b as f64 / KB as f64)
        } else if b < GB {
            format!("{:.2}MB", b as f64 / MB as f64)
        } else {
            format!("{:.2}GB", b as f64 / GB as f64)
        };
        assert_eq!(format_bytes(b), expected, "bytes = {}", b);
    }
}

#[test]
fn headers_are_found_ignoring_case() {
    let mut response = Response::new(200, "OK".to_string());
    response.headers.push(ResponseHeader::new("X-Id".to_string(), "7".to_string()));
    response.headers.push(ResponseHeader::new("CONTENT-type".to_string(), "application/json; charset=utf-8".to_string()));
    assert_eq!(response.content_type(), Some("application/json".to_string()));
    assert_eq!(response.get_header("x-id"), Some(&"7".to_string()));
    assert_eq!(response.get_header("missing"), None);
    assert_eq!(Response::new(200, "OK".to_string()).content_type(), None);
}

#[test]
fn bodies_as_json_text_and_bytes() {
    let text = Response { body: ResponseBody::Text("{\"a\":1}".to_string()), ..Response::new(200, "OK".to_string()) };
    assert_eq!(text.json().unwrap(), serde_json::from_str::<serde_json::Value>("{\"a\":1}").unwrap());
    assert_eq!(text.bytes(), b"{\"a\":1}".to_vec());
    assert_eq!(text.text(), "{\"a\":1}");
    let bad = Response { body: ResponseBody::Text("{".to_string()), ..Response::new(200, "OK".to_string()) };
    assert!(matches!(bad.json(), Err(JsonError::Parse(_))));
    let empty = Response::new(204, "No Content".to_string());
    assert_eq!(empty.json(), Err(JsonError::Empty));
    assert_eq!(empty.text(), "");
    assert!(empty.body.is_empty());
    let binary = Response { body: ResponseBody::Binary(vec![104, 105, 255]), ..Response::new(200, "OK".to_string()) };
    assert_eq!(binary.json(), Err(JsonError::NotJson));
    assert_eq!(binary.text(), "hi\u{FFFD}");
    assert_eq!(binary.bytes(), vec![104, 105, 255]);
    assert_eq!(binary.body.len(), 3);
    let json = Response { body: ResponseBody::Json(serde_json::from_str("[1, 2]").unwrap()), ..Response::new(200, "OK".to_string()) };
    assert_eq!(json.text(), "[1,2]");
    assert_eq!(json.body.len(), 5);
}

#[test]
fn error_response_and_summaries() {
    let response = Response::error("boom".to_string());
    assert_eq!(response.status_code, 0);
    assert_eq!(response.status_text, "Error");
    assert_eq!(response.errors.len(), 1);
    assert_eq!(response.errors[0].code, "REQUEST_ERROR");
    assert_eq!(response.text(), "boom");
    let mut timed = Response::new(200, "OK".to_string());
    timed.duration_ms = 1500;
    timed.size = 2048;
    assert_eq!(timed.duration_str(), "1.5s");
    assert_eq!(timed.size_str(), "2.00KB");
    assert!(timed.all_tests_passed());
    assert_eq!(JsonError::Parse("x".to_string()).message(), "Failed to parse JSON: x");
    assert_eq!(JsonError::Empty.message(), "Response body is empty");
}
