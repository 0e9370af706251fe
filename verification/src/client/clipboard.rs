//! The shared clipboard's vocabulary and its transfer numbers.

use vstd::prelude::*;

verus! {

/// Set in the number of a transfer the host started.
pub const INBOUND_REQ_FLAG: u32 = 0x8000_0000;

/// One format on offer.
#[derive(Clone, Debug, PartialEq, Eq)]
pub struct ClipKind {
    pub mime: String,
    /// Size in bytes, as far as known. Zero is not known.
    pub size_hint: u64,
}

/// What happens on the clipboard.
#[derive(Debug, PartialEq, Eq)]
pub enum ClipEventCore {
    /// The host has something to paste, in these formats.
    RemoteOffer { seq: u32, kinds: Vec<ClipKind> },
    /// What the host permits.
    State { enabled: bool, policy: u8, reason: u8 },
    /// The host pastes what was offered to it.
    FetchRequest { req_id: u32, seq: u32, file_index: u32, mime: String },
    /// Bytes of a transfer that was asked for.
    Data { xfer_id: u32, bytes: Vec<u8>, last: bool },
    Cancelled { id: u32 },
    Error { id: u32, code: i32 },
}

/// Numbers the transfers the client starts.
#[derive(Clone, Copy, Debug, PartialEq, Eq, Structural)]
pub struct XferIds {
    pub next: u32,
}

/// The number of the transfer that takes `counter`: the low part, so that it
/// never meets one the host started.
pub open spec fn xfer_id(counter: u32) -> u32 {
    counter % INBOUND_REQ_FLAG
}

/// The counter after one transfer.
pub open spec fn next_counter(counter: u32) -> u32 {
    if counter == u32::MAX {
        0
    } else {
        (counter + 1) as u32
    }
}

impl XferIds {
    /// No transfer was numbered yet.
    pub open spec fn fresh() -> XferIds {
        XferIds { next: 1 }
    }

    pub fn new() -> (ids: XferIds)
        ensures
            ids == XferIds::fresh(),
            ids.next == 1,
    {
        XferIds { next: 1 }
    }

    /// The number of the next transfer.
    pub fn take(&mut self) -> (id: u32)
        ensures
            id == xfer_id(old(self).next),
            final(self).next == next_counter(old(self).next),
            final(self).next == if old(self).next == u32::MAX {
                0
            } else {
                old(self).next + 1
            },
    {
        let counter: u32 = self.next;
        self.next = counter.wrapping_add(1);
        assert(counter & !0x8000_0000u32 == counter % 0x8000_0000u32) by (bit_vector);
        counter & !INBOUND_REQ_FLAG
    }
}

/// Transfers the client starts and transfers the host starts have no number
/// in common.
pub proof fn law_ids_keep_to_their_side(counter: u32, inbound: u32)
    requires
        inbound >= INBOUND_REQ_FLAG,
    ensures
        xfer_id(counter) != inbound,
        xfer_id(counter) < INBOUND_REQ_FLAG,
{
}

/// Two transfers share a number only if half the counter lies between them.
pub proof fn law_ids_are_distinct(a: u32, b: u32)
    requires
        a < b,
        b - a < INBOUND_REQ_FLAG,
    ensures
        xfer_id(a) != xfer_id(b),
{
}

/// Transfers are numbered one after the other, and start over past half the
/// counter.
pub proof fn law_transfers_are_numbered_in_turn(counter: u32)
    ensures
        xfer_id(next_counter(counter)) == (xfer_id(counter) + 1) % 0x8000_0000,
        counter < 0x8000_0000 ==> xfer_id(counter) == counter,
        counter >= 0x8000_0000 ==> xfer_id(counter) == counter - 0x8000_0000,
{
}

/// The first transfer is number one.
pub proof fn law_the_first_transfer_is_number_one()
    ensures
        xfer_id(XferIds::fresh().next) == 1,
{
}

} // verus!
