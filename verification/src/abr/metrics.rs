//! A session's windows, as its metrics read them.

use vstd::prelude::*;

verus! {

/// One window of a session's trajectory.
#[derive(Clone, Copy, Debug, PartialEq, Eq, Structural)]
pub struct MetricWindow {
    pub t_ms: u64,
    pub rate_kbps: u32,
    pub request_kbps: Option<u32>,
    pub dropped: u64,
    pub discarded: bool,
}

} // verus!
