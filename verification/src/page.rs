//! Page automation support: the scripts and command parameters the page
//! client submits, and the interpretation of what comes back.

use vstd::prelude::*;
use crate::error::{Error, error_message};
use crate::json::{JsonValue, get_key, as_str_spec, take_key};
use crate::text::dec_of_int;

verus! {

/// Fixed interval between element polls, in milliseconds.
pub const WAIT_POLL_INTERVAL_MS: u64 = 500;

/// A selector with every double quote escaped, ready to sit inside a
/// double-quoted script literal.
pub open spec fn escape_quotes(s: Seq<char>) -> Seq<char>
    decreases s.len(),
{
    if s.len() == 0 {
        Seq::empty()
    } else {
        escape_quotes(s.drop_last()) + (if s.last() == '"' {
            seq!['\\', '"']
        } else {
            seq![s.last()]
        })
    }
}

/// The script that probes whether a selector matches any element.
pub fn selector_probe_script(selector: &str) -> (r: String)
    ensures
        r@ == "!!document.querySelector(\""@ + escape_quotes(selector@) + "\")"@,
{
    let mut s = String::new();
    s.append("!!document.querySelector(\"");
    let n = selector.unicode_len();
    let mut i: usize = 0;
    while i < n
        invariant
            n == selector@.len(),
            i <= n,
            s@ == "!!document.querySelector(\""@ + escape_quotes(selector@.take(i as int)),
        decreases n - i,
    {
        proof {
            assert(selector@.take(i + 1).drop_last() =~= selector@.take(i as int));
            assert(selector@.take(i + 1).last() == selector@[i as int]);
        }
        let c = selector.get_char(i);
        if c == '"' {
            s.append("\\\"");
            proof {
                reveal_strlit("\\\"");
                assert(s@ =~= "!!document.querySelector(\""@ + escape_quotes(selector@.take(
                    i + 1,
                )));
            }
        } else {
            let piece = selector.substring_char(i, i + 1);
            s.append(piece);
            proof {
                assert(piece@ =~= seq![selector@[i as int]]);
                assert(s@ =~= "!!document.querySelector(\""@ + escape_quotes(selector@.take(
                    i + 1,
                )));
            }
        }
        i += 1;
    }
    s.append("\")");
    proof {
        assert(selector@.take(n as int) =~= selector@);
        assert(s@ =~= "!!document.querySelector(\""@ + escape_quotes(selector@) + "\")"@);
    }
    s
}

/// The script that serializes the whole document.
pub fn html_script() -> (r: &'static str)
    ensures
        r@ == "document.documentElement.outerHTML"@,
{
    "document.documentElement.outerHTML"
}

/// Whether `v` is the parameter object of a navigation command.
pub open spec fn is_navigate_params(v: JsonValue, url: Seq<char>) -> bool {
    v matches JsonValue::Obj(fields) && {
        &&& fields@.len() == 1
        &&& fields@[0].0@ == "url"@
        &&& fields@[0].1 matches JsonValue::Str(s) && s@ == url
    }
}

/// The parameter object of a navigation command.
pub fn navigate_params(url: &str) -> (r: JsonValue)
    ensures
        is_navigate_params(r, url@),
{
    let mut fields: Vec<(String, JsonValue)> = Vec::new();
    fields.push((String::from_str("url"), JsonValue::Str(String::from_str(url))));
    JsonValue::Obj(fields)
}

/// Whether `v` is the parameter object of a script evaluation: the
/// expression, by-value return, and promise awaiting.
pub open spec fn is_evaluate_params(v: JsonValue, script: Seq<char>) -> bool {
    v matches JsonValue::Obj(fields) && {
        &&& fields@.len() == 3
        &&& fields@[0].0@ == "expression"@
        &&& fields@[0].1 matches JsonValue::Str(s) && s@ == script
        &&& fields@[1].0@ == "returnByValue"@
        &&& fields@[1].1 == JsonValue::Bool(true)
        &&& fields@[2].0@ == "awaitPromise"@
        &&& fields@[2].1 == JsonValue::Bool(true)
    }
}

/// The parameter object of a script evaluation.
pub fn evaluate_params(script: &str) -> (r: JsonValue)
    ensures
        is_evaluate_params(r, script@),
{
    let mut fields: Vec<(String, JsonValue)> = Vec::new();
    fields.push((String::from_str("expression"), JsonValue::Str(String::from_str(script))));
    fields.push((String::from_str("returnByValue"), JsonValue::Bool(true)));
    fields.push((String::from_str("awaitPromise"), JsonValue::Bool(true)));
    JsonValue::Obj(fields)
}

/// The empty parameter object of commands that take none.
pub fn empty_params() -> (r: JsonValue)
    ensures
        r matches JsonValue::Obj(fields) && fields@.len() == 0,
{
    let fields: Vec<(String, JsonValue)> = Vec::new();
    JsonValue::Obj(fields)
}

/// The description the exception payload carries, when it is a string.
pub open spec fn exception_description(ex: JsonValue) -> Option<Seq<char>> {
    match get_key(ex, "exception"@) {
        Some(e) => match get_key(e, "description"@) {
            Some(v) => as_str_spec(v),
            None => None,
        },
        None => None,
    }
}

/// The plain text of the exception payload, when it is a string.
pub open spec fn exception_fallback_text(ex: JsonValue) -> Option<Seq<char>> {
    match get_key(ex, "text"@) {
        Some(v) => as_str_spec(v),
        None => None,
    }
}

/// What a script failure reports: the description, else the plain text, else
/// a placeholder.
pub open spec fn exception_text(ex: JsonValue) -> Seq<char> {
    match exception_description(ex) {
        Some(t) => t,
        None => match exception_fallback_text(ex) {
            Some(t) => t,
            None => "unknown error"@,
        },
    }
}

/// The line a script failure names; minus one when absent.
pub open spec fn exception_line(ex: JsonValue) -> i64 {
    match get_key(ex, "lineNumber"@) {
        Some(JsonValue::Int(i)) => i,
        _ => -1i64,
    }
}

/// The column a script failure names; minus one when absent.
pub open spec fn exception_column(ex: JsonValue) -> i64 {
    match get_key(ex, "columnNumber"@) {
        Some(JsonValue::Int(i)) => i,
        _ => -1i64,
    }
}

/// The rendered message of a script failure.
pub open spec fn script_error_message(ex: JsonValue) -> Seq<char> {
    "JavaScript execution error at line "@ + dec_of_int(exception_line(ex) as int) + ", column "@
        + dec_of_int(exception_column(ex) as int) + ": "@ + exception_text(ex)
}

/// The value an evaluation result carries: the value field of its result
/// field, or null where either is absent.
pub open spec fn result_value_of(result: JsonValue) -> JsonValue {
    match get_key(result, "result"@) {
        Some(inner) => match get_key(inner, "value"@) {
            Some(v) => v,
            None => JsonValue::Null,
        },
        None => JsonValue::Null,
    }
}

/// What interpreting an evaluation result yields: a script failure with the
/// reported position and text when exception details are present, else the
/// carried value.
pub open spec fn evaluate_interpretation(result: JsonValue, r: Result<JsonValue, Error>) -> bool {
    match get_key(result, "exceptionDetails"@) {
        Some(ex) => r matches Err(Error::Browser(m)) && m@ == script_error_message(ex),
        None => r matches Ok(v) && v == result_value_of(result),
    }
}

/// Interpret what a script evaluation returned: a failure carrying the
/// exception's line, column and text when the result reports one, else the
/// returned value, moved out of the result.
pub fn interpret_evaluate_result(result: &mut JsonValue) -> (r: Result<JsonValue, Error>)
    ensures
        evaluate_interpretation(*old(result), r),
{
    let has_exception: bool = match result.get("exceptionDetails") {
        Some(_) => true,
        None => false,
    };
    if has_exception {
        let ex = match take_key(result, "exceptionDetails") {
            Some(ex) => ex,
            None => JsonValue::Null,
        };
        let text: String = {
            let desc: Option<String> = match ex.get("exception") {
                Some(e) => match e.get("description") {
                    Some(d) => d.str_value(),
                    None => None,
                },
                None => None,
            };
            match desc {
                Some(t) => t,
                None => {
                    let fallback: Option<String> = match ex.get("text") {
                        Some(t) => t.str_value(),
                        None => None,
                    };
                    match fallback {
                        Some(t) => t,
                        None => String::from_str("unknown error"),
                    }
                },
            }
        };
        let line: i64 = match ex.get("lineNumber") {
            Some(v) => match v.int_value() {
                Some(i) => i,
                None => -1,
            },
            None => -1,
        };
        let column: i64 = match ex.get("columnNumber") {
            Some(v) => match v.int_value() {
                Some(i) => i,
                None => -1,
            },
            None => -1,
        };
        let mut m = String::new();
        m.append("JavaScript execution error at line ");
        m.append(crate::text::i64_to_dec(line).as_str());
        m.append(", column ");
        m.append(crate::text::i64_to_dec(column).as_str());
        m.append(": ");
        m.append(text.as_str());
        proof {
            assert(m@ =~= script_error_message(get_key(*old(result), "exceptionDetails"@)->0));
        }
        Err(Error::Browser(m))
    } else {
        let inner = match take_key(result, "result") {
            Some(inner) => inner,
            None => {
                return Ok(JsonValue::Null);
            },
        };
        let mut inner_mut = inner;
        match take_key(&mut inner_mut, "value") {
            Some(v) => Ok(v),
            None => Ok(JsonValue::Null),
        }
    }
}

/// Extract the serialized document from an evaluation value: the string it
/// is, or the failure that says it was not one.
pub fn extract_html(value: &JsonValue) -> (r: Result<String, Error>)
    ensures
        match as_str_spec(*value) {
            Some(h) => r matches Ok(s) && s@ == h,
            None => r matches Err(Error::Browser(m)) && m@
                == "Failed to get HTML: JavaScript result was not a string"@,
        },
{
    match value.str_value() {
        Some(s) => Ok(s),
        None => Err(
            Error::Browser(
                String::from_str("Failed to get HTML: JavaScript result was not a string"),
            ),
        ),
    }
}

/// The truth an evaluation value carries: false unless it is the boolean
/// true. Element polling keeps waiting on anything else.
pub fn truthy_result(value: &JsonValue) -> (r: bool)
    ensures
        r == (crate::json::as_bool_spec(*value) == Some(true)),
{
    match value.bool_value() {
        Some(b) => b,
        None => false,
    }
}

/// Whether the element poll keeps going: only while the elapsed whole
/// seconds are under the timeout.
pub fn wait_poll_continue(elapsed_secs: u64, timeout_secs: u64) -> (r: bool)
    ensures
        r == (elapsed_secs < timeout_secs),
{
    elapsed_secs < timeout_secs
}

/// A failure wrapped with the operation that met it, as the page client
/// reports its command failures.
pub fn prefixed_browser_error(prefix: &str, e: &Error) -> (r: Error)
    ensures
        r matches Error::Browser(m) && m@ == prefix@ + error_message(*e),
{
    let mut m = String::new();
    m.append(prefix);
    m.append(e.message().as_str());
    proof {
        assert(m@ =~= prefix@ + error_message(*e));
    }
    Error::Browser(m)
}

/// The failure reported when navigation to a URL fails.
pub fn navigate_failure_error(url: &str, e: &Error) -> (r: Error)
    ensures
        r matches Error::Browser(m) && m@ == "Failed to navigate to '"@ + url@ + "': "@
            + error_message(*e),
{
    let mut m = String::new();
    m.append("Failed to navigate to '");
    m.append(url);
    m.append("': ");
    m.append(e.message().as_str());
    proof {
        assert(m@ =~= "Failed to navigate to '"@ + url@ + "': "@ + error_message(*e));
    }
    Error::Browser(m)
}

} // verus!
