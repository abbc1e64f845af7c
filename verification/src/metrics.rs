//! The counters the proxy produces: total, blocked and forwarded requests.
//!
//! The counters only ever grow, saturating at the integer bound; exposing
//! them over HTTP is a collaborator's concern.

use vstd::prelude::*;

verus! {

/// Increment that saturates instead of wrapping.
pub open spec fn sat_inc(x: u64) -> u64 {
    if x == u64::MAX {
        x
    } else {
        (x + 1) as u64
    }
}

/// The request counters.
#[derive(Clone, Copy, PartialEq, Eq, Structural, Debug)]
pub struct Metrics {
    pub total_requests: u64,
    pub blocked_requests: u64,
    pub forwarded_requests: u64,
}

impl Metrics {
    /// All counters at zero.
    pub fn new() -> (r: Metrics)
        ensures
            r.total_requests == 0,
            r.blocked_requests == 0,
            r.forwarded_requests == 0,
    {
        Metrics { total_requests: 0, blocked_requests: 0, forwarded_requests: 0 }
    }

    /// Count one more inbound request.
    pub fn inc_total(&mut self)
        ensures
            *final(self) == (Metrics { total_requests: sat_inc(old(self).total_requests), ..*old(self) }),
    {
        if self.total_requests < u64::MAX {
            self.total_requests = self.total_requests + 1;
        }
    }

    /// Count one more blocked request.
    pub fn inc_blocked(&mut self)
        ensures
            *final(self) == (Metrics { blocked_requests: sat_inc(old(self).blocked_requests), ..*old(self) }),
    {
        if self.blocked_requests < u64::MAX {
            self.blocked_requests = self.blocked_requests + 1;
        }
    }

    /// Count one more successfully forwarded request.
    pub fn inc_forwarded(&mut self)
        ensures
            *final(self) == (Metrics { forwarded_requests: sat_inc(old(self).forwarded_requests), ..*old(self) }),
    {
        if self.forwarded_requests < u64::MAX {
            self.forwarded_requests = self.forwarded_requests + 1;
        }
    }
}

} // verus!
