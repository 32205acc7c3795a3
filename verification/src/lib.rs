//! Fixed network endpoints of the desktop shell.
//!
//! The frontend reaches the backend HTTP service and its event stream at
//! loopback addresses that never change while the shell runs. These accessors
//! hand the frontend those addresses; each one always returns the same value.

use vstd::prelude::*;

pub mod shell;

verus! {

/// The characters of the backend HTTP base URL.
pub open spec fn spec_backend_url() -> Seq<char> {
    "http://127.0.0.1:8080"@
}

/// The characters of the event WebSocket URL.
pub open spec fn spec_ws_url() -> Seq<char> {
    "ws://127.0.0.1:8081/events"@
}

/// Base URL under which the backend HTTP service answers.
///
/// Returns exactly `http://127.0.0.1:8080`, on every call.
pub fn get_backend_url() -> (r: String)
    ensures
        r@ == spec_backend_url(),
{
    String::from_str("http://127.0.0.1:8080")
}

/// URL of the WebSocket on which the backend publishes events.
///
/// Returns exactly `ws://127.0.0.1:8081/events`, on every call.
pub fn get_ws_url() -> (r: String)
    ensures
        r@ == spec_ws_url(),
{
    String::from_str("ws://127.0.0.1:8081/events")
}

} // verus!
