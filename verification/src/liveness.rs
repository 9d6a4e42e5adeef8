//! Interpretation of the agent API liveness check.
//!
//! The caller issues a single HTTP GET against the agent's well-known local
//! endpoint and reports back either the response status code or a transport
//! failure; the library says which outcomes count as "alive". Any transport
//! failure and any non-success status collapse to `false`.

use vstd::prelude::*;

verus! {

/// What came back from a single HTTP request to the agent's endpoint.
#[derive(Clone, Copy, Debug, PartialEq, Eq, Structural)]
pub enum HttpOutcome {
    /// A response arrived with this status code.
    Status(u16),
    /// No response arrived: connection refused, timeout, or any other
    /// transport-level failure.
    TransportError,
}

/// A status code indicates success exactly when it lies in [200, 300).
pub open spec fn is_success_status(status: u16) -> bool {
    200 <= status < 300
}

/// The API counts as alive exactly when a response arrived and its status
/// indicates success.
pub open spec fn spec_api_alive(o: HttpOutcome) -> bool {
    o matches HttpOutcome::Status(s) && is_success_status(s)
}

/// Read the liveness verdict off the outcome of the HTTP request: `true`
/// only for a response with a status in [200, 300); `false` for every
/// status outside that range and for every transport failure.
pub fn api_alive(outcome: &HttpOutcome) -> (r: bool)
    ensures
        r == spec_api_alive(*outcome),
{
    match outcome {
        HttpOutcome::Status(s) => 200 <= *s && *s < 300,
        HttpOutcome::TransportError => false,
    }
}

/// The fixed local endpoint the liveness request is issued against.
pub fn api_endpoint() -> (r: String)
    ensures
        r@ == "http://localhost:11434/api/version"@,
{
    String::from_str("http://localhost:11434/api/version")
}

} // verus!
