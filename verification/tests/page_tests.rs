use chrome_cdp::error::Error;
use chrome_cdp::json::JsonValue;
use chrome_cdp::page::{
    evaluate_params, extract_html, html_script, interpret_evaluate_result, navigate_params,
    prefixed_browser_error, selector_probe_script, truthy_result, wait_poll_continue,
};

fn obj(fields: Vec<(&str, JsonValue)>) -> JsonValue {
    JsonValue::Obj(
        fields
            .into_iter()
            .map(|(k, v)| (k.to_string(), v))
            .collect(),
    )
}

#[test]
fn test_wait_for_element_script_format() {
    let selector = "div.main";
    let script = format!(
        "!!document.querySelector(\"{}\")",
        selector.replace('"', "\\\"")
    );
    assert_eq!(script, "!!document.querySelector(\"div.main\")");
    assert_eq!(selector_probe_script(selector), script);
}

#[test]
fn test_wait_for_element_script_with_quotes() {
    let selector = r#"div[data-attr="test"]"#;
    let script = format!(
        "!!document.querySelector(\"{}\")",
        selector.replace('"', "\\\"")
    );
    // The replace function escapes the quotes with backslash
    assert_eq!(script, "!!document.querySelector(\"div[data-attr=\\\"test\\\"]\")");
    assert_eq!(selector_probe_script(selector), script);
}

#[test]
fn test_get_html_script() {
    let script = "document.documentElement.outerHTML";
    assert_eq!(script, "document.documentElement.outerHTML");
    assert_eq!(html_script(), script);
}

#[test]
fn test_evaluate_command_format() {
    let script = "document.title";
    let mut mux = chrome_cdp::mux::Multiplexer::new();
    let (_, text) = mux.submit_text("Runtime.evaluate", evaluate_params(script));
    let cmd: serde_json::Value = serde_json::from_str(&text).unwrap();
    assert_eq!(cmd["params"]["expression"], "document.title");
    assert_eq!(cmd["params"]["returnByValue"], true);
    assert_eq!(cmd["params"]["awaitPromise"], true);
}

#[test]
fn test_goto_command_format() {
    let url = "https://example.com";
    let mut mux = chrome_cdp::mux::Multiplexer::new();
    let (_, text) = mux.submit_text("Page.navigate", navigate_params(url));
    let cmd: serde_json::Value = serde_json::from_str(&text).unwrap();
    assert_eq!(cmd["params"]["url"], "https://example.com");
}

#[test]
fn test_polling_timeout_behavior() {
    // The poll decision keeps going strictly under the timeout and stops at it.
    assert!(wait_poll_continue(0, 1));
    assert!(!wait_poll_continue(1, 1));
    assert!(!wait_poll_continue(2, 1));
    assert_eq!(chrome_cdp::page::WAIT_POLL_INTERVAL_MS, 500);
}

#[test]
fn test_boolean_result_parsing() {
    let json_true = JsonValue::Bool(true);
    assert_eq!(json_true.bool_value(), Some(true));

    let json_false = JsonValue::Bool(false);
    assert_eq!(json_false.bool_value(), Some(false));

    let json_string = JsonValue::Str("not a boolean".to_string());
    assert_eq!(json_string.bool_value(), None);

    assert!(truthy_result(&JsonValue::Bool(true)));
    assert!(!truthy_result(&JsonValue::Bool(false)));
    assert!(!truthy_result(&JsonValue::Str("not a boolean".to_string())));
}

#[test]
fn test_html_result_string_extraction() {
    let html_value = JsonValue::Str("<html><body>test</body></html>".to_string());
    assert_eq!(
        html_value.str_value(),
        Some("<html><body>test</body></html>".to_string())
    );
    assert_eq!(
        extract_html(&html_value).unwrap(),
        "<html><body>test</body></html>"
    );

    let json_obj = obj(vec![("not", JsonValue::Str("a string".to_string()))]);
    assert_eq!(json_obj.str_value(), None);
    match extract_html(&json_obj) {
        Err(Error::Browser(m)) => {
            assert_eq!(m, "Failed to get HTML: JavaScript result was not a string")
        }
        other => panic!("expected a browser error, got {:?}", other),
    }
}

#[test]
fn test_exception_details_parsing() {
    let mut result = obj(vec![(
        "exceptionDetails",
        obj(vec![
            (
                "exception",
                obj(vec![(
                    "description",
                    JsonValue::Str("ReferenceError: x is not defined".to_string()),
                )]),
            ),
            ("text", JsonValue::Str("Alternative text".to_string())),
            ("columnNumber", JsonValue::Int(10)),
            ("lineNumber", JsonValue::Int(5)),
        ]),
    )]);
    match interpret_evaluate_result(&mut result) {
        Err(Error::Browser(m)) => assert_eq!(
            m,
            "JavaScript execution error at line 5, column 10: ReferenceError: x is not defined"
        ),
        other => panic!("expected a script failure, got {:?}", other),
    }
}

#[test]
fn test_exception_with_fallback_to_text() {
    let mut result = obj(vec![(
        "exceptionDetails",
        obj(vec![("text", JsonValue::Str("Error message".to_string()))]),
    )]);
    match interpret_evaluate_result(&mut result) {
        Err(Error::Browser(m)) => assert_eq!(
            m,
            "JavaScript execution error at line -1, column -1: Error message"
        ),
        other => panic!("expected a script failure, got {:?}", other),
    }
}

#[test]
fn exception_without_any_text_uses_placeholder() {
    let mut result = obj(vec![("exceptionDetails", obj(vec![]))]);
    match interpret_evaluate_result(&mut result) {
        Err(Error::Browser(m)) => assert_eq!(
            m,
            "JavaScript execution error at line -1, column -1: unknown error"
        ),
        other => panic!("expected a script failure, got {:?}", other),
    }
}

#[test]
fn evaluate_result_value_is_moved_out() {
    let mut result = obj(vec![(
        "result",
        obj(vec![("value", JsonValue::Str("hello".to_string()))]),
    )]);
    assert_eq!(
        interpret_evaluate_result(&mut result).unwrap(),
        JsonValue::Str("hello".to_string())
    );
}

#[test]
fn evaluate_result_without_value_is_null() {
    let mut bare = obj(vec![("result", obj(vec![]))]);
    assert_eq!(interpret_evaluate_result(&mut bare).unwrap(), JsonValue::Null);
    let mut empty = obj(vec![]);
    assert_eq!(interpret_evaluate_result(&mut empty).unwrap(), JsonValue::Null);
}

#[test]
fn page_failures_carry_their_operation() {
    let inner = Error::Cdp("boom".to_string());
    let wrapped = prefixed_browser_error("Failed to enable Page domain: ", &inner);
    match wrapped {
        Error::Browser(m) => assert_eq!(m, "Failed to enable Page domain: CDP error: boom"),
        other => panic!("expected a browser error, got {:?}", other),
    }
    let nav = chrome_cdp::page::navigate_failure_error("https://example.com", &inner);
    match nav {
        Error::Browser(m) => assert_eq!(
            m,
            "Failed to navigate to 'https://example.com': CDP error: boom"
        ),
        other => panic!("expected a browser error, got {:?}", other),
    }
}
