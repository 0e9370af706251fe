//! The guard over a cut's own queue.

use super::sample::WindowSample;
use super::verdict::HEAVY_LOSS_PPM;
use vstd::prelude::*;

verus! {

/// Windows a cut's queue is given to drain: 4.5 s.
pub const LINK_DRAIN_WINDOWS: u32 = 6;

/// Fall of the delay over a window that is a queue emptying.
pub const DRAIN_FALL_US: i64 = 5_000;

/// While the guard stands, damage is the last cut's queue on its way out.
#[derive(Clone, Copy, Debug, PartialEq, Eq, Structural)]
pub struct DrainGuard {
    /// Windows left, `0` for no guard.
    pub windows: u32,
    /// The delay it waits to see again, `0` for none known.
    pub ref_us: i64,
    /// Windows it kept a cut off.
    pub suppressed: u32,
}

impl DrainGuard {
    #[verifier::allow_in_spec]
    pub fn new() -> DrainGuard
        returns
            (DrainGuard { windows: 0, ref_us: 0, suppressed: 0 }),
    {
        DrainGuard { windows: 0, ref_us: 0, suppressed: 0 }
    }

    /// A guard for the cut just made, waiting for `ref_us`.
    #[verifier::allow_in_spec]
    pub fn armed(ref_us: i64) -> DrainGuard
        returns
            (DrainGuard { windows: LINK_DRAIN_WINDOWS, ref_us, suppressed: 0 }),
    {
        DrainGuard { windows: LINK_DRAIN_WINDOWS, ref_us, suppressed: 0 }
    }

    /// Frames still going while the queue is not emptying: the rate is over
    /// the wall again.
    pub open spec fn over_again(w: WindowSample) -> bool {
        &&& (w.dropped > 0 || w.loss_ppm >= HEAVY_LOSS_PPM)
        &&& (w.delay is None || w.delay->0.rise_us > -DRAIN_FALL_US)
    }

    /// The delay is back where it was before the cut.
    pub open spec fn drained(self, w: WindowSample) -> bool {
        self.ref_us > 0 && w.delay is Some && w.delay->0.mean_us <= self.ref_us
    }

    /// Is this window the last cut's queue emptying?
    pub open spec fn guards(self, w: WindowSample) -> bool {
        self.windows > 0 && !DrainGuard::over_again(w) && !self.drained(w)
    }

    /// The guard after this window.
    pub open spec fn stepped(self, w: WindowSample) -> DrainGuard {
        if self.windows == 0 {
            self
        } else if !self.guards(w) || self.windows == 1 {
            DrainGuard { windows: 0, suppressed: 0, ..self }
        } else {
            DrainGuard { windows: (self.windows - 1) as u32, ..self }
        }
    }

    /// One window under the guard. It ends when the queue has, when the rate
    /// is over the wall again, or with its budget.
    pub fn note(&mut self, w: &WindowSample) -> (draining: bool)
        ensures
            *final(self) == old(self).stepped(*w),
            draining == old(self).guards(*w),
    {
        if self.windows == 0 {
            return false;
        }
        let not_emptying = match w.delay {
            Some(d) => d.rise_us > -DRAIN_FALL_US,
            None => true,
        };
        let over_again = (w.dropped > 0 || w.loss_ppm >= HEAVY_LOSS_PPM) && not_emptying;
        let drained = match w.delay {
            Some(d) => self.ref_us > 0 && d.mean_us <= self.ref_us,
            None => false,
        };
        if over_again || drained {
            self.windows = 0;
            self.suppressed = 0;
            return false;
        }
        self.windows = self.windows - 1;
        if self.windows == 0 {
            self.suppressed = 0;
        }
        true
    }
}

/// A guard ends within its budget: each window it explains away costs it one.
pub proof fn law_a_guard_spends_its_budget(g: DrainGuard, w: WindowSample)
    ensures
        g.guards(w) ==> g.stepped(w).windows == g.windows - 1,
        !g.guards(w) ==> g.stepped(w).windows == 0,
{
}

/// A guard stands while the queue it was set over empties: it ends when the
/// delay is back, when frames go while it is not falling, and after six
/// windows at the latest. Without one nothing is explained away.
pub proof fn law_a_guard_stands_while_the_queue_empties(g: DrainGuard, w: WindowSample, us: i64)
    ensures
        DrainGuard::armed(us).windows == 6 && DrainGuard::armed(us).ref_us == us,
        g.windows == 0 ==> !g.guards(w) && g.stepped(w) == g,
        g.windows > 0 && w.dropped == 0 && w.loss_ppm < 20_000 && (w.delay is None || g.ref_us <= 0
            || w.delay->0.mean_us > g.ref_us) ==> g.guards(w),
        g.ref_us > 0 && w.delay is Some && w.delay->0.mean_us <= g.ref_us ==> !g.guards(w),
        (w.dropped > 0 || w.loss_ppm >= 20_000) && (w.delay is None || w.delay->0.rise_us > -5_000)
            ==> !g.guards(w),
        (w.dropped > 0 || w.loss_ppm >= 20_000) && w.delay is Some && w.delay->0.rise_us <= -5_000
            && g.windows > 0 && (g.ref_us <= 0 || w.delay->0.mean_us > g.ref_us) ==> g.guards(w),
        g.stepped(w).ref_us == g.ref_us,
{
}

} // verus!
