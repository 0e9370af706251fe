//! Loss recovery: which frames went missing, and what the host is asked for.

use vstd::prelude::*;

verus! {

/// How long after one recovery ask the next may follow, in nanoseconds.
pub const RFI_THROTTLE_NS: u64 = 100_000_000;

/// The widest span of lost frames an encoder can still recover from by
/// dropping references. A wider one needs a keyframe.
pub const RFI_MAX_RANGE: u32 = 256;

/// Indexes further ahead than this are behind: the counter wraps.
pub const INDEX_HALF: u32 = 0x7FFF_FFFF;

/// What a delivered frame makes the client ask the host for.
#[derive(Clone, Copy, Debug, PartialEq, Eq, Structural)]
pub enum RecoveryAsk {
    /// Nothing is missing, or an ask went out a moment ago.
    Nothing,
    /// Drop the references to the frames from the first to the last.
    Rfi(u32, u32),
    /// The span is wider than any reference history: resync by a keyframe.
    Keyframe,
}

/// What the loss detector remembers of the frames delivered so far.
#[derive(Clone, Copy, Debug)]
pub struct RfiRecovery {
    /// The frame that comes next if nothing is lost. None before the first.
    pub next_expected: Option<u32>,
    /// When an ask last went out.
    pub last_req: Option<u64>,
}

/// How far `index` lies ahead of `expected`, on the wrapping counter.
pub open spec fn index_ahead(expected: u32, index: u32) -> int {
    if index >= expected {
        index - expected
    } else {
        index - expected + 0x1_0000_0000
    }
}

/// The index after `index`, on the wrapping counter.
pub open spec fn index_after(index: u32) -> u32 {
    if index == u32::MAX {
        0
    } else {
        (index + 1) as u32
    }
}

/// The index before `index`, on the wrapping counter.
pub open spec fn index_before(index: u32) -> u32 {
    if index == 0 {
        u32::MAX
    } else {
        (index - 1) as u32
    }
}

impl RfiRecovery {
    /// `index` lies ahead of the frame expected: those between are lost.
    pub open spec fn is_gap(self, index: u32) -> bool {
        match self.next_expected {
            Some(expected) => 0 < index_ahead(expected, index) < INDEX_HALF,
            None => false,
        }
    }

    /// `index` lies behind the frame expected: a late arrival.
    pub open spec fn is_straggler(self, index: u32) -> bool {
        match self.next_expected {
            Some(expected) => index_ahead(expected, index) >= INDEX_HALF,
            None => false,
        }
    }

    /// The last ask is long enough ago for another.
    pub open spec fn may_ask(self, now: u64) -> bool {
        match self.last_req {
            Some(at) => now >= at + RFI_THROTTLE_NS,
            None => true,
        }
    }

    /// What the lost span before `index` is answered with.
    pub open spec fn ask_for(self, index: u32) -> RecoveryAsk {
        let expected = self.next_expected->0;
        if index_ahead(expected, index) > RFI_MAX_RANGE {
            RecoveryAsk::Keyframe
        } else {
            RecoveryAsk::Rfi(expected, index_before(index))
        }
    }

    /// The detector after frame `index` was delivered at `now`.
    pub open spec fn after(self, index: u32, now: u64) -> Self {
        if self.is_straggler(index) {
            self
        } else {
            RfiRecovery {
                next_expected: Some(index_after(index)),
                last_req: if self.is_gap(index) && self.may_ask(now) {
                    Some(now)
                } else {
                    self.last_req
                },
            }
        }
    }

    /// What is asked for when frame `index` is delivered at `now`.
    pub open spec fn asked(self, index: u32, now: u64) -> RecoveryAsk {
        if self.is_gap(index) && self.may_ask(now) {
            self.ask_for(index)
        } else {
            RecoveryAsk::Nothing
        }
    }

    /// Frame `frame_index` was delivered at `now` (nanoseconds). Says whether
    /// frames before it are lost, and what the host is to be asked for.
    pub fn observe(&mut self, frame_index: u32, now: u64) -> (r: (bool, RecoveryAsk))
        ensures
            *final(self) == old(self).after(frame_index, now),
            r == (old(self).is_gap(frame_index), old(self).asked(frame_index, now)),
    {
        match self.next_expected {
            None => {
                self.next_expected = Some(frame_index.wrapping_add(1));
                (false, RecoveryAsk::Nothing)
            },
            Some(expected) => {
                let ahead: u32 = frame_index.wrapping_sub(expected);
                if ahead == 0 {
                    self.next_expected = Some(frame_index.wrapping_add(1));
                    (false, RecoveryAsk::Nothing)
                } else if ahead < INDEX_HALF {
                    self.next_expected = Some(frame_index.wrapping_add(1));
                    let send = match self.last_req {
                        Some(at) => now >= at && now - at >= RFI_THROTTLE_NS,
                        None => true,
                    };
                    if !send {
                        return (true, RecoveryAsk::Nothing);
                    }
                    self.last_req = Some(now);
                    if ahead > RFI_MAX_RANGE {
                        (true, RecoveryAsk::Keyframe)
                    } else {
                        (true, RecoveryAsk::Rfi(expected, frame_index.wrapping_sub(1)))
                    }
                } else {
                    (false, RecoveryAsk::Nothing)
                }
            },
        }
    }
}

impl Default for RfiRecovery {
    fn default() -> (r: Self)
        ensures
            r == (RfiRecovery { next_expected: None, last_req: None }),
    {
        RfiRecovery { next_expected: None, last_req: None }
    }
}

/// Frames delivered one after the other report no gap and ask for nothing,
/// the counter's wrap included.
pub proof fn law_contiguous_frames_never_gap(r: RfiRecovery, index: u32, now: u64, later: u64)
    requires
        !r.is_straggler(index),
    ensures
        ({
            let next = r.after(index, now);
            &&& !next.is_gap(index_after(index))
            &&& !next.is_straggler(index_after(index))
            &&& next.asked(index_after(index), later) == RecoveryAsk::Nothing
        }),
{
}

/// A recovery ask names the lost frames and no others: an index is in the
/// named span exactly if it was expected before the frame that arrived.
pub proof fn law_the_ask_names_the_lost_span(r: RfiRecovery, index: u32, now: u64, lost: u32)
    requires
        r.asked(index, now) is Rfi,
    ensures
        r.asked(index, now) matches RecoveryAsk::Rfi(first, last) && (index_ahead(first, lost)
            <= index_ahead(first, last) <==> index_ahead(r.next_expected->0, lost) < index_ahead(
            r.next_expected->0,
            index,
        )),
{
}

/// One gap asks at most once: the frame that follows the one that showed it
/// is expected, and so is that one when it comes again late.
pub proof fn law_a_gap_is_reported_once(r: RfiRecovery, index: u32, now: u64, later: u64)
    requires
        r.is_gap(index),
    ensures
        !r.after(index, now).is_gap(index),
        r.after(index, now).asked(index, later) == RecoveryAsk::Nothing,
        r.after(index, now).after(index, later) == r.after(index, now),
{
}

/// Late arrivals change nothing and ask for nothing.
pub proof fn law_stragglers_are_ignored(r: RfiRecovery, index: u32, now: u64)
    requires
        r.is_straggler(index),
    ensures
        r.after(index, now) == r,
        r.asked(index, now) == RecoveryAsk::Nothing,
{
}

/// Two asks are at least the throttle apart.
pub proof fn law_asks_are_throttled(r: RfiRecovery, i: u32, j: u32, now: u64, later: u64)
    requires
        r.asked(i, now) != RecoveryAsk::Nothing,
        r.after(i, now).asked(j, later) != RecoveryAsk::Nothing,
    ensures
        later - now >= RFI_THROTTLE_NS,
{
}

/// A delivered frame is the one expected, ahead of it, or late. Only one ahead
/// of it is a gap, up to half the counter's wheel; the first frame of all is
/// none.
pub proof fn law_a_frame_ahead_is_a_gap(r: RfiRecovery, expected: u32, ahead: int)
    requires
        r.next_expected == Some(expected),
        0 <= ahead <= 0xffff_ffff,
    ensures
        ({
            let index = ((expected + ahead) % 0x1_0000_0000) as u32;
            &&& r.is_gap(index) <==> 0 < ahead < 0x7fff_ffff
            &&& r.is_straggler(index) <==> ahead >= 0x7fff_ffff
        }),
        !(RfiRecovery { next_expected: None, ..r }).is_gap(expected),
        !(RfiRecovery { next_expected: None, ..r }).is_straggler(expected),
{
}

/// After any frame that is not late the one after it is expected, the wrap
/// included; the time of the last ask moves only with an ask.
pub proof fn law_the_next_frame_is_expected(r: RfiRecovery, index: u32, now: u64)
    ensures
        !r.is_straggler(index) ==> (r.after(index, now).next_expected matches Some(next) && (next
            == index + 1 || (index == u32::MAX && next == 0))),
        r.asked(index, now) == RecoveryAsk::Nothing ==> r.after(index, now).last_req == r.last_req,
        r.asked(index, now) != RecoveryAsk::Nothing ==> r.after(index, now).last_req == Some(now),
{
}

/// A gap of at most 256 frames is asked for by its first and its last lost
/// frame, a wider one by a keyframe; an ask less than a tenth of a second ago
/// keeps it back.
pub proof fn law_a_gap_is_asked_for(r: RfiRecovery, expected: u32, lost: int, now: u64)
    requires
        r.next_expected == Some(expected),
        0 < lost < 0x7fff_ffff,
    ensures
        ({
            let index = ((expected + lost) % 0x1_0000_0000) as u32;
            let last = ((expected + lost - 1) % 0x1_0000_0000) as u32;
            let free = r.last_req matches Some(at) ==> now >= at + 100_000_000;
            &&& free && lost <= 256 ==> r.asked(index, now) == RecoveryAsk::Rfi(expected, last)
            &&& free && lost > 256 ==> r.asked(index, now) == RecoveryAsk::Keyframe
            &&& !free ==> r.asked(index, now) == RecoveryAsk::Nothing
        }),
{
}

} // verus!
