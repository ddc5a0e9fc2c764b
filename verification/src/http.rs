//! Plain-value model of a single HTTP exchange with a miner.
//!
//! The caller performs the actual request and reports what happened as an
//! [`HttpEvent`]; every decision about that outcome is made here, in
//! verified code.

use vstd::prelude::*;

verus! {

/// The request timeout for operations against a known device, in
/// milliseconds: long enough for device-side processing.
pub const SINGLE_TARGET_TIMEOUT_MS: u64 = 10000;

/// The request timeout for one scan probe, in milliseconds: deliberately
/// short, since a scan's wall-clock cost is dominated by the addresses
/// that never answer.
pub const SCAN_PROBE_TIMEOUT_MS: u64 = 1500;

/// The outcome of one HTTP request against one URL, as the transport
/// reported it.
#[derive(Debug)]
pub enum HttpEvent {
    /// The request never produced a response: connection refused, timeout,
    /// or any other transport-level failure. Carries the transport's own
    /// error text.
    TransportFailed(String),
    /// The device answered with `status` and the given body text.
    Responded { status: u16, body: String },
}

/// True when `status` lies in the HTTP success range.
pub open spec fn spec_status_ok(status: u16) -> bool {
    200 <= status < 300
}

/// Executable test for the HTTP success range.
pub fn status_ok(status: u16) -> (r: bool)
    ensures
        r == spec_status_ok(status),
{
    200 <= status && status < 300
}

} // verus!
