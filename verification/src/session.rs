//! What the session hands over: reassembled access units.

use vstd::prelude::*;

verus! {

/// Where a slice-progressive part sits in its access unit.
#[derive(Clone, Copy, Debug, PartialEq, Eq, Structural)]
pub struct FramePart {
    pub offset: u32,
    pub first: bool,
    pub last: bool,
}

/// One reassembled access unit, or a part of one.
#[derive(Clone, Debug, PartialEq, Eq)]
pub struct Frame {
    pub data: Vec<u8>,
    pub frame_index: u32,
    pub pts_ns: u64,
    pub flags: u32,
    /// The access unit ends with this entry.
    pub complete: bool,
    pub part: Option<FramePart>,
    pub received_ns: u64,
}

} // verus!
