//! Endpoint resolution: the metadata URLs on the control port, the
//! interpretation of their responses, and the retry bookkeeping around them.

use vstd::prelude::*;
use crate::error::Error;
use crate::json::{JsonValue, get_key, as_str_spec, json_of, parse_json};
use crate::text::{dec_of, u64_to_dec};

verus! {

/// How many resolution attempts are made before giving up.
pub const RESOLVE_MAX_RETRIES: u32 = 10;

/// Fixed delay between resolution attempts, in milliseconds.
pub const RESOLVE_RETRY_DELAY_MS: u64 = 500;

/// Whether an HTTP status reports success.
pub open spec fn is_success_status(status: u16) -> bool {
    200 <= status < 300
}

/// The metadata URL asked for the control channel address.
pub open spec fn version_url_spec(port: u16) -> Seq<char> {
    "http://127.0.0.1:"@ + dec_of(port as nat) + "/json/version"@
}

/// The creation URL asked for a fresh automation target.
pub open spec fn new_page_url_spec(port: u16) -> Seq<char> {
    "http://127.0.0.1:"@ + dec_of(port as nat) + "/json/new"@
}

/// Build the metadata URL for a control port.
pub fn version_url(port: u16) -> (r: String)
    ensures
        r@ == version_url_spec(port),
{
    let mut s = String::new();
    s.append("http://127.0.0.1:");
    s.append(u64_to_dec(port as u64).as_str());
    s.append("/json/version");
    proof {
        assert(s@ =~= version_url_spec(port));
    }
    s
}

/// Build the page-creation URL for a control port.
pub fn new_page_url(port: u16) -> (r: String)
    ensures
        r@ == new_page_url_spec(port),
{
    let mut s = String::new();
    s.append("http://127.0.0.1:");
    s.append(u64_to_dec(port as u64).as_str());
    s.append("/json/new");
    proof {
        assert(s@ =~= new_page_url_spec(port));
    }
    s
}

/// The control channel address a metadata response carries: the string bound
/// to the address field of the parsed body.
pub open spec fn ws_url_of(body: JsonValue) -> Option<Seq<char>> {
    match get_key(body, "webSocketDebuggerUrl"@) {
        Some(v) => as_str_spec(v),
        None => None,
    }
}

/// Extract the control channel address from a parsed metadata response.
pub fn extract_ws_url(body: &JsonValue) -> (r: Option<String>)
    ensures
        match r {
            Some(u) => ws_url_of(*body) == Some(u@),
            None => ws_url_of(*body) is None,
        },
{
    match body.get("webSocketDebuggerUrl") {
        Some(v) => v.str_value(),
        None => None,
    }
}

/// What resolving the metadata response yields, given the status and body of
/// the reply on the version URL: the address exactly when the status reports
/// success, the body parses, and the parsed body binds the address field to a
/// string. Each failure is the matching error.
pub open spec fn version_resolution(port: u16, status: u16, body: Seq<char>, r: Result<
    String,
    Error,
>) -> bool {
    if !is_success_status(status) {
        r matches Err(Error::Browser(m)) && m@ == "Chrome debugger returned error status "@
            + dec_of(status as nat) + " ("@ + version_url_spec(port) + "). Response: "@ + body
    } else {
        match json_of(body) {
            None => r is Err && r->Err_0 is Json,
            Some(v) => match ws_url_of(v) {
                Some(u) => r matches Ok(s) && s@ == u,
                None => r matches Err(Error::Browser(m)) && m@
                    == "Chrome debugger response does not contain webSocketDebuggerUrl. Response: "@
                    + body,
            },
        }
    }
}

/// Interpret the reply of the metadata query: on success status, parse the
/// body and extract the control channel address; otherwise report the status
/// and body. A body without the address field is a distinct failure from a
/// transport or parse failure.
pub fn interpret_version_response(port: u16, status: u16, body: &str) -> (r: Result<String, Error>)
    ensures
        version_resolution(port, status, body@, r),
{
    if !(200 <= status && status < 300) {
        let mut m = String::new();
        m.append("Chrome debugger returned error status ");
        m.append(u64_to_dec(status as u64).as_str());
        m.append(" (");
        m.append(version_url(port).as_str());
        m.append("). Response: ");
        m.append(body);
        proof {
            assert(m@ =~= "Chrome debugger returned error status "@ + dec_of(status as nat)
                + " ("@ + version_url_spec(port) + "). Response: "@ + body@);
        }
        return Err(Error::Browser(m));
    }
    let parsed = match parse_json(body) {
        Ok(v) => v,
        Err(e) => {
            return Err(Error::Json(e));
        },
    };
    match extract_ws_url(&parsed) {
        Some(u) => Ok(u),
        None => {
            let mut m = String::new();
            m.append(
                "Chrome debugger response does not contain webSocketDebuggerUrl. Response: ",
            );
            m.append(body);
            Err(Error::Browser(m))
        },
    }
}

/// What creating a page yields, given the status and body of the reply on
/// the creation URL: as for the metadata query, but every failure names the
/// creation context, and a malformed body is reported as a browser failure
/// carrying the raw body.
pub open spec fn new_page_resolution(port: u16, status: u16, body: Seq<char>, r: Result<
    String,
    Error,
>) -> bool {
    if !is_success_status(status) {
        r matches Err(Error::Browser(m)) && m@ == "Chrome debugger returned error "@ + dec_of(
            status as nat,
        ) + " when creating new page ("@ + new_page_url_spec(port) + "). Response: "@ + body
    } else {
        match json_of(body) {
            None => r matches Err(Error::Browser(m)) && exists|detail: Seq<char>|
                m@ == "Failed to parse JSON response from "@ + new_page_url_spec(port) + ": "@
                    + detail + ". Response body: "@ + body,
            Some(v) => match ws_url_of(v) {
                Some(u) => r matches Ok(s) && s@ == u,
                None => r matches Err(Error::Browser(m)) && m@
                    == "Could not find webSocketDebuggerUrl in response. Response: "@ + body,
            },
        }
    }
}

/// Interpret the reply of the page-creation request.
pub fn interpret_new_page_response(port: u16, status: u16, body: &str) -> (r: Result<
    String,
    Error,
>)
    ensures
        new_page_resolution(port, status, body@, r),
{
    if !(200 <= status && status < 300) {
        let mut m = String::new();
        m.append("Chrome debugger returned error ");
        m.append(u64_to_dec(status as u64).as_str());
        m.append(" when creating new page (");
        m.append(new_page_url(port).as_str());
        m.append("). Response: ");
        m.append(body);
        proof {
            assert(m@ =~= "Chrome debugger returned error "@ + dec_of(status as nat)
                + " when creating new page ("@ + new_page_url_spec(port) + "). Response: "@
                + body@);
        }
        return Err(Error::Browser(m));
    }
    let parsed = match parse_json(body) {
        Ok(v) => v,
        Err(detail) => {
            let mut m = String::new();
            m.append("Failed to parse JSON response from ");
            m.append(new_page_url(port).as_str());
            m.append(": ");
            m.append(detail.as_str());
            m.append(". Response body: ");
            m.append(body);
            proof {
                assert(m@ =~= "Failed to parse JSON response from "@ + new_page_url_spec(port)
                    + ": "@ + detail@ + ". Response body: "@ + body@);
            }
            return Err(Error::Browser(m));
        },
    };
    match extract_ws_url(&parsed) {
        Some(u) => Ok(u),
        None => {
            let mut m = String::new();
            m.append("Could not find webSocketDebuggerUrl in response. Response: ");
            m.append(body);
            Err(Error::Browser(m))
        },
    }
}

/// Whether another resolution attempt follows a failed one: attempts are
/// numbered from zero, and a failed attempt is retried (after the fixed
/// delay) while any attempt remains.
pub fn should_retry(attempt: u32, max_retries: u32) -> (r: bool)
    ensures
        r == (attempt + 1 < max_retries),
{
    max_retries > 0 && attempt < max_retries - 1
}

/// The fallback failure when resolution was never attempted (a retry budget
/// of zero): no last error exists to report.
pub fn retry_exhausted_error() -> (r: Error)
    ensures
        r matches Error::Browser(m) && m@ == "Failed to get WebSocket URL after retries"@,
{
    Error::Browser(String::from_str("Failed to get WebSocket URL after retries"))
}

} // verus!
