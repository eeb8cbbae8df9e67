use chrome_cdp::error::{Error, Result};

#[test]
fn test_error_browser_creation() {
    let err = Error::Browser("test error".to_string());
    assert_eq!(err.message(), "Browser error: test error");
}

#[test]
fn test_error_cdp_creation() {
    let err = Error::Cdp("protocol error".to_string());
    assert_eq!(err.message(), "CDP error: protocol error");
}

#[test]
fn test_error_http_creation() {
    let err = Error::Http("connection failed".to_string());
    assert_eq!(err.message(), "HTTP error: connection failed");
}

#[test]
fn test_error_websocket_creation() {
    let err = Error::WebSocket("handshake failed".to_string());
    assert_eq!(err.message(), "WebSocket error: handshake failed");
}

#[test]
fn test_error_io_conversion() {
    let err = Error::Io("file not found".to_string());
    assert!(matches!(err, Error::Io(_)));
    assert!(err.message().contains("file not found"));
    assert_eq!(err.message(), "I/O error: file not found");
}

#[test]
fn test_error_json_conversion() {
    let result = chrome_cdp::endpoint::interpret_version_response(9222, 200, "invalid json");
    assert!(matches!(result, Err(Error::Json(_))));
}

#[test]
fn test_result_type_alias_ok() {
    let result: Result<i32> = Ok(42);
    assert_eq!(result.unwrap(), 42);
}

#[test]
fn test_result_type_alias_err() {
    let result: Result<i32> = Err(Error::Browser("failed".to_string()));
    assert!(result.is_err());
    assert!(matches!(result.unwrap_err(), Error::Browser(_)));
}

#[test]
fn test_error_display_formatting() {
    assert_eq!(
        Error::Browser("test".to_string()).message(),
        "Browser error: test"
    );
    assert_eq!(Error::Cdp("test".to_string()).message(), "CDP error: test");
    assert_eq!(Error::Http("test".to_string()).message(), "HTTP error: test");
    assert_eq!(
        Error::WebSocket("test".to_string()).message(),
        "WebSocket error: test"
    );
}

#[test]
fn endpoint_resolution_extracts_address() {
    let body = r#"{"webSocketDebuggerUrl":"ws://localhost:9222/devtools/page/X"}"#;
    let result = chrome_cdp::endpoint::interpret_version_response(9222, 200, body);
    assert_eq!(result.unwrap(), "ws://localhost:9222/devtools/page/X");
}

#[test]
fn endpoint_resolution_missing_field_is_distinct_failure() {
    let body = r#"{"browser":"Chrome","version":"1.2.3"}"#;
    let result = chrome_cdp::endpoint::interpret_version_response(9222, 200, body);
    match result {
        Err(Error::Browser(m)) => assert_eq!(
            m,
            format!(
                "Chrome debugger response does not contain webSocketDebuggerUrl. Response: {}",
                body
            )
        ),
        other => panic!("expected a field-absent failure, got {:?}", other),
    }
}

#[test]
fn endpoint_resolution_failure_status_reports_status_and_body() {
    let result = chrome_cdp::endpoint::interpret_version_response(9222, 500, "oops");
    match result {
        Err(Error::Browser(m)) => assert_eq!(
            m,
            "Chrome debugger returned error status 500 (http://127.0.0.1:9222/json/version). Response: oops"
        ),
        other => panic!("expected a status failure, got {:?}", other),
    }
    // A failure status wins regardless of body content.
    let with_good_body = chrome_cdp::endpoint::interpret_version_response(
        9222,
        404,
        r#"{"webSocketDebuggerUrl":"ws://localhost:9222/devtools/page/X"}"#,
    );
    assert!(matches!(with_good_body, Err(Error::Browser(_))));
}

#[test]
fn test_websocket_url_extraction_from_valid_json() {
    let json_body =
        r#"{"webSocketDebuggerUrl":"ws://localhost:9222/devtools/page/ABC123","browser":"Chrome"}"#;
    let url = chrome_cdp::endpoint::interpret_version_response(9222, 200, json_body);
    assert_eq!(url.unwrap(), "ws://localhost:9222/devtools/page/ABC123");
}

#[test]
fn test_websocket_url_extraction_missing() {
    let json_body = r#"{"browser":"Chrome","version":"1.2.3"}"#;
    let url = chrome_cdp::endpoint::interpret_version_response(9222, 200, json_body);
    assert!(url.is_err());
}

#[test]
fn test_new_page_error_on_invalid_response() {
    let body = r#"{"invalid":"response"}"#;
    let result = chrome_cdp::endpoint::interpret_new_page_response(9222, 200, body);
    match result {
        Err(Error::Browser(m)) => assert_eq!(
            m,
            format!(
                "Could not find webSocketDebuggerUrl in response. Response: {}",
                body
            )
        ),
        other => panic!("expected a field-absent failure, got {:?}", other),
    }
}

#[test]
fn test_new_page_error_on_invalid_json() {
    let body = r#"invalid json"#;
    let result = chrome_cdp::endpoint::interpret_new_page_response(9222, 200, body);
    match result {
        Err(Error::Browser(m)) => {
            assert!(m.starts_with(
                "Failed to parse JSON response from http://127.0.0.1:9222/json/new: "
            ));
            assert!(m.ends_with(". Response body: invalid json"));
        }
        other => panic!("expected a parse failure, got {:?}", other),
    }
}

#[test]
fn new_page_resolution_extracts_address() {
    let body = r#"{"webSocketDebuggerUrl":"ws://localhost:9222/devtools/page/NEW"}"#;
    let result = chrome_cdp::endpoint::interpret_new_page_response(9222, 200, body);
    assert_eq!(result.unwrap(), "ws://localhost:9222/devtools/page/NEW");
}

#[test]
fn new_page_failure_status_reports_creation_context() {
    let result = chrome_cdp::endpoint::interpret_new_page_response(9222, 500, "busy");
    match result {
        Err(Error::Browser(m)) => assert_eq!(
            m,
            "Chrome debugger returned error 500 when creating new page (http://127.0.0.1:9222/json/new). Response: busy"
        ),
        other => panic!("expected a status failure, got {:?}", other),
    }
}

#[test]
fn test_get_ws_url_retry_logic() {
    // Test that retry logic constructs proper error on failure
    // This is a unit test for the logic structure
    let max_retries = 3u32;
    let mut attempt_count = 0;
    let mut last_error = None;

    for attempt in 0..max_retries {
        attempt_count = attempt + 1;
        // Simulate failure
        last_error = Some("Failed to connect".to_string());
        if chrome_cdp::endpoint::should_retry(attempt, max_retries) {
            // Would sleep here in real implementation
        }
    }

    assert_eq!(attempt_count, 3);
    assert!(last_error.is_some());
}

#[test]
fn retry_schedule_stops_after_last_attempt() {
    assert!(chrome_cdp::endpoint::should_retry(0, 10));
    assert!(chrome_cdp::endpoint::should_retry(8, 10));
    assert!(!chrome_cdp::endpoint::should_retry(9, 10));
    assert!(!chrome_cdp::endpoint::should_retry(0, 0));
    let fallback = chrome_cdp::endpoint::retry_exhausted_error();
    assert_eq!(
        fallback.message(),
        "Browser error: Failed to get WebSocket URL after retries"
    );
}

#[test]
fn test_retry_delay_duration() {
    let delay = std::time::Duration::from_millis(chrome_cdp::endpoint::RESOLVE_RETRY_DELAY_MS);
    assert_eq!(delay.as_millis(), 500);
}
