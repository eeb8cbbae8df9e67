//! Error taxonomy: process, protocol, transport, serialization and HTTP
//! failures, each carrying a rendered diagnostic message.

use vstd::prelude::*;

verus! {

/// Error type for control-channel operations.
#[derive(Debug, PartialEq)]
pub enum Error {
    /// Browser-related errors.
    Browser(String),
    /// Protocol errors reported over the control channel.
    Cdp(String),
    /// I/O errors.
    Io(String),
    /// HTTP request errors.
    Http(String),
    /// JSON parsing errors.
    Json(String),
    /// WebSocket errors.
    WebSocket(String),
}

/// Result type for control-channel operations.
pub type Result<T> = core::result::Result<T, Error>;

/// The rendered message of an error: a category prefix and the detail.
pub open spec fn error_message(e: Error) -> Seq<char> {
    match e {
        Error::Browser(s) => "Browser error: "@ + s@,
        Error::Cdp(s) => "CDP error: "@ + s@,
        Error::Io(s) => "I/O error: "@ + s@,
        Error::Http(s) => "HTTP error: "@ + s@,
        Error::Json(s) => "JSON error: "@ + s@,
        Error::WebSocket(s) => "WebSocket error: "@ + s@,
    }
}

impl Error {
    /// Render the error as a descriptive message.
    pub fn message(&self) -> (r: String)
        ensures
            r@ == error_message(*self),
    {
        match self {
            Error::Browser(s) => {
                let mut m = String::new();
                m.append("Browser error: ");
                m.append(s.as_str());
                m
            },
            Error::Cdp(s) => {
                let mut m = String::new();
                m.append("CDP error: ");
                m.append(s.as_str());
                m
            },
            Error::Io(s) => {
                let mut m = String::new();
                m.append("I/O error: ");
                m.append(s.as_str());
                m
            },
            Error::Http(s) => {
                let mut m = String::new();
                m.append("HTTP error: ");
                m.append(s.as_str());
                m
            },
            Error::Json(s) => {
                let mut m = String::new();
                m.append("JSON error: ");
                m.append(s.as_str());
                m
            },
            Error::WebSocket(s) => {
                let mut m = String::new();
                m.append("WebSocket error: ");
                m.append(s.as_str());
                m
            },
        }
    }
}

} // verus!
