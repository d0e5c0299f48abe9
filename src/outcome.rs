//! What one probe of an endpoint produced.
use vstd::prelude::*;

verus! {

/// The status of a probe: an HTTP status that arrived, or a transport-level
/// failure (timeout, refused connection, DNS or TLS failure, too many
/// redirects) with no HTTP status attached.
#[derive(Clone, Copy, Debug, PartialEq, Eq, Structural)]
pub enum Status {
    Http(u16),
    TransportFailure,
}

/// The status as the integer that logs show; a transport failure shows as -1.
pub open spec fn status_code(s: Status) -> int {
    match s {
        Status::Http(c) => c as int,
        Status::TransportFailure => -1,
    }
}

impl Status {
    pub fn code(&self) -> (r: i64)
        ensures
            r as int == status_code(*self),
    {
        match self {
            Status::Http(c) => *c as i64,
            Status::TransportFailure => -1,
        }
    }
}

/// The result of executing one check: when it finished (seconds since the
/// Unix epoch), how long the request took (nanoseconds), and its status.
#[derive(Clone, Copy, Debug, PartialEq, Eq, Structural)]
pub struct ProbeOutcome {
    pub timestamp_secs: u64,
    pub elapsed_ns: u64,
    pub status: Status,
}

pub open spec fn millis(ns: u64) -> nat {
    (ns / 1_000_000) as nat
}

impl ProbeOutcome {
    pub fn new(timestamp_secs: u64, elapsed_ns: u64, status: Status) -> (r: ProbeOutcome)
        ensures
            r == (ProbeOutcome { timestamp_secs, elapsed_ns, status }),
    {
        ProbeOutcome { timestamp_secs, elapsed_ns, status }
    }

    /// The elapsed time in whole milliseconds.
    pub fn elapsed_ms(&self) -> (r: u64)
        ensures
            r as nat == millis(self.elapsed_ns),
    {
        self.elapsed_ns / 1_000_000
    }
}

} // verus!
