//! The host's own limits, as its acknowledgements show them.

use super::cap::{LearnedCap, StandDown};
use crate::math::counted;
use vstd::prelude::*;

verus! {

/// Identical short answers that are a limit. One can be a failed rebuild.
pub const SHORT_ACKS_TO_LATCH: u32 = 2;

/// What is known of the host.
#[derive(Clone, Copy, Debug, PartialEq, Eq, Structural)]
pub struct HostLimits {
    /// The rate it keeps answering with.
    pub cap: LearnedCap,
    pub short_ack_kbps: u32,
    pub short_acks: u32,
    /// It refused a climb because its encode is behind. Held on a clock, and
    /// no cap: a busy machine is not a rate it cannot hold.
    pub cadence_hold: StandDown,
}

impl HostLimits {
    pub open spec fn wf(self) -> bool {
        self.cap.wf() && self.cadence_hold.wf()
    }

    #[verifier::allow_in_spec]
    pub fn new() -> HostLimits
        returns
            (HostLimits {
                cap: LearnedCap::new(),
                short_ack_kbps: 0,
                short_acks: 0,
                cadence_hold: StandDown::new(),
            }),
    {
        HostLimits {
            cap: LearnedCap::new(),
            short_ack_kbps: 0,
            short_acks: 0,
            cadence_hold: StandDown::new(),
        }
    }

    /// How many identical short answers `kbps` makes.
    pub open spec fn shorts_with(self, kbps: u32) -> u32 {
        if self.short_ack_kbps == kbps {
            counted(self.short_acks)
        } else {
            1
        }
    }

    /// The limits after `kbps` answered a request for `asked`.
    pub open spec fn answered(self, kbps: u32, asked: u32, floor_kbps: u32) -> HostLimits {
        if kbps < asked {
            HostLimits {
                short_ack_kbps: kbps,
                short_acks: self.shorts_with(kbps),
                cap: if self.shorts_with(kbps) >= SHORT_ACKS_TO_LATCH {
                    self.cap.latched(kbps, floor_kbps)
                } else {
                    self.cap
                },
                ..self
            }
        } else {
            HostLimits {
                short_acks: 0,
                cap: match self.cap.kbps {
                    Some(c) => if kbps >= c {
                        LearnedCap::new()
                    } else {
                        self.cap
                    },
                    None => self.cap,
                },
                ..self
            }
        }
    }

    /// The host answered a request. Two identical short answers are its
    /// limit; a grant at or above the limit is the limit lifting.
    pub fn answer(&mut self, kbps: u32, asked: u32, floor_kbps: u32)
        requires
            old(self).wf(),
        ensures
            final(self).wf(),
            *final(self) == old(self).answered(kbps, asked, floor_kbps),
    {
        if kbps < asked {
            if self.short_ack_kbps == kbps {
                self.short_acks = counted(self.short_acks);
            } else {
                self.short_ack_kbps = kbps;
                self.short_acks = 1;
            }
            if self.short_acks >= SHORT_ACKS_TO_LATCH {
                let _ = self.cap.latch(kbps, floor_kbps);
            }
        } else {
            self.short_acks = 0;
            if let Some(c) = self.cap.kbps {
                if kbps >= c {
                    self.cap.drop_cap();
                }
            }
        }
    }

    /// The limits after a cadence refusal.
    pub open spec fn held(self) -> HostLimits {
        HostLimits {
            short_acks: 0,
            cadence_hold: if self.cadence_hold.down {
                StandDown { clean: 0, ..self.cadence_hold }
            } else {
                self.cadence_hold.switched_off()
            },
            ..self
        }
    }

    /// The host's encode is behind. Climbs hold until a clean run; the rate
    /// stands, and nothing is learned about it.
    pub fn hold_for_cadence(&mut self)
        requires
            old(self).wf(),
        ensures
            final(self).wf(),
            *final(self) == old(self).held(),
    {
        self.short_acks = 0;
        if self.cadence_hold.disarmed() {
            self.cadence_hold.note_bad();
            return;
        }
        self.cadence_hold.disarm();
    }
}

/// One window on a stand-down's clock. Stillness neither runs it nor stops it.
pub open spec fn stood(s: StandDown, bad: bool, quiet: bool) -> StandDown {
    if !s.down {
        s
    } else if bad {
        StandDown { clean: 0, ..s }
    } else if quiet {
        s
    } else {
        s.cleaner()
    }
}

/// Run a stand-down's clock for one window. `true` when it arms again.
pub fn tick_stand_down(s: &mut StandDown, bad: bool, quiet: bool) -> (armed: bool)
    requires
        old(s).wf(),
    ensures
        final(s).wf(),
        *final(s) == stood(*old(s), bad, quiet),
        armed == (old(s).down && !final(s).down),
{
    if s.disarmed() {
        if bad {
            s.note_bad();
        } else if !quiet {
            return s.note_clean();
        }
    }
    false
}

/// A cadence refusal never moves the host's cap, and always holds climbs.
pub proof fn law_a_busy_host_is_no_limit(h: HostLimits)
    ensures
        h.held().cap == h.cap,
        h.held().cadence_hold.down,
{
}

/// Two identical short answers latch the host's cap at that rate.
pub proof fn law_two_identical_short_answers_are_a_limit(
    h: HostLimits,
    kbps: u32,
    first_asked: u32,
    second_asked: u32,
    floor_kbps: u32,
)
    requires
        h.wf(),
        floor_kbps <= kbps,
        kbps < first_asked,
        kbps < second_asked,
    ensures
        h.answered(kbps, first_asked, floor_kbps).answered(
            kbps,
            second_asked,
            floor_kbps,
        ).cap.kbps == Some(kbps),
{
}

/// A short answer is counted with those like it, and another rate starts the
/// count over; the second of one rate is the host's limit. An answer that is
/// not short ends the count, and one at or above the limit lifts it.
pub proof fn law_an_answer_is_short_or_ends_the_count(
    h: HostLimits,
    kbps: u32,
    asked: u32,
    floor_kbps: u32,
)
    requires
        h.wf(),
        h.short_acks < u32::MAX,
    ensures
        ({
            let a = h.answered(kbps, asked, floor_kbps);
            &&& kbps < asked && h.short_ack_kbps != kbps ==> a.short_acks == 1 && a.cap == h.cap
            &&& kbps < asked && h.short_ack_kbps == kbps ==> a.short_acks == h.short_acks + 1
            &&& kbps < asked ==> a.short_ack_kbps == kbps
            &&& kbps < asked && a.short_acks >= 2 ==> (a.cap.kbps matches Some(k) && k >= kbps && k
                >= floor_kbps && (k == kbps || k == floor_kbps))
            &&& kbps < asked && a.short_acks < 2 ==> a.cap == h.cap
            &&& kbps >= asked ==> a.short_acks == 0
            &&& kbps >= asked ==> (h.cap.kbps matches Some(k) ==> (kbps >= k ==> a.cap.kbps is None)
                && (kbps < k ==> a.cap == h.cap))
            &&& kbps >= asked && h.cap.kbps is None ==> a.cap == h.cap
            &&& a.cadence_hold == h.cadence_hold
        }),
{
}

/// A busy host is held until a clean run, and one that is busy again while
/// held starts that run over without waiting longer.
pub proof fn law_a_busy_host_is_held(h: HostLimits)
    requires
        h.wf(),
    ensures
        h.held().short_acks == 0,
        h.held().cadence_hold.down && h.held().cadence_hold.clean == 0,
        h.cadence_hold.down ==> h.held().cadence_hold.reprobe_after == h.cadence_hold.reprobe_after,
{
}

/// A stand-down's clock runs on clean windows that moved, starts over on
/// damage, and stands still with the picture.
pub proof fn law_a_stand_down_runs_on_clean_windows(s: StandDown, bad: bool, quiet: bool)
    requires
        s.wf(),
    ensures
        !s.down ==> stood(s, bad, quiet) == s,
        s.down && bad ==> stood(s, bad, quiet).down && stood(s, bad, quiet).clean == 0,
        s.down && !bad && quiet ==> stood(s, bad, quiet) == s,
        s.down && !bad && !quiet && s.clean + 1 < s.reprobe_after ==> stood(s, bad, quiet).down
            && stood(s, bad, quiet).clean == s.clean + 1,
        s.down && !bad && !quiet && s.clean + 1 == s.reprobe_after ==> !stood(s, bad, quiet).down,
{
}

/// A host starts without a limit, unhurried, and with nothing counted.
pub proof fn law_a_host_starts_without_a_limit()
    ensures
        HostLimits::new().cap.kbps is None && HostLimits::new().short_acks == 0
            && HostLimits::new().short_ack_kbps == 0 && !HostLimits::new().cadence_hold.down,
{
}

} // verus!
