//! Session-transport layer for driving a Chromium-family browser over its
//! remote-debugging protocol: process acquisition, port discovery, endpoint
//! resolution, a command multiplexer correlating concurrent submissions by
//! identifier, and session lifecycle management.

use vstd::prelude::*;

pub mod discovery;
pub mod endpoint;
pub mod error;
pub mod json;
pub mod launcher;
pub mod mux;
pub mod page;
pub mod session;
pub mod text;

pub use error::Error;
pub use error::Result;

verus! {

/// Returns the library version.
pub fn version() -> (r: &'static str)
    ensures
        r@ == "0.1.0"@,
{
    "0.1.0"
}

} // verus!
