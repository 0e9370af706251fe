//! The share a host gives a session on a path it divides.

use vstd::prelude::*;

verus! {

/// A share of nothing: the group ended and the session has the path alone.
pub const NO_SHARE_KBPS: u32 = 0;

} // verus!
