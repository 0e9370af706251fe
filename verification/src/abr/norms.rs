//! What clean windows at the running rate look like.

use super::sample::{WindowActivity, WindowSample};
use crate::math::{counted, mean, plus, total};
use vstd::prelude::*;

verus! {

/// Clean windows whose delivery is a rate's norm: 3 s.
pub const DELIVERY_REF_WINDOWS: u32 = 4;

/// A source under a quarter of its usual frames went still.
pub const STILL_FRAMES_DIV: u128 = 4;

/// Deliveries and delays of clean windows. Both are only true of the rate
/// they were taken at, and are forgotten when it moves; how often the source
/// draws and how long the path takes are kept.
#[derive(Clone, Copy, Debug, PartialEq, Eq, Structural)]
pub struct RateNorms {
    /// Wire rates of the clean windows, summed, and how many there were.
    pub delivery_sum_kbps: u64,
    pub delivery_windows: u32,
    /// New-content frames those windows carried.
    pub delivery_frames: u64,
    /// Frames a window carried when a norm last formed, `0` for never.
    pub frames_norm: u64,
    /// First-shard delays of the clean windows.
    pub delay_sum_us: i64,
    pub delay_windows: u32,
    /// The delay norm the last rate move left behind.
    pub delay_norm_us: i64,
}

impl RateNorms {
    #[verifier::allow_in_spec]
    pub fn new() -> RateNorms
        returns
            (RateNorms {
                delivery_sum_kbps: 0,
                delivery_windows: 0,
                delivery_frames: 0,
                frames_norm: 0,
                delay_sum_us: 0,
                delay_windows: 0,
                delay_norm_us: 0,
            }),
    {
        RateNorms {
            delivery_sum_kbps: 0,
            delivery_windows: 0,
            delivery_frames: 0,
            frames_norm: 0,
            delay_sum_us: 0,
            delay_windows: 0,
            delay_norm_us: 0,
        }
    }

    /// What clean windows at this rate deliver, once there are enough.
    #[verifier::allow_in_spec]
    pub fn delivery_reference(&self) -> Option<u32>
        returns
            (if self.delivery_windows >= DELIVERY_REF_WINDOWS {
                Some((self.delivery_sum_kbps / self.delivery_windows as u64) as u32)
            } else {
                None
            }),
    {
        if self.delivery_windows >= DELIVERY_REF_WINDOWS {
            Some(#[verifier::truncate] ((self.delivery_sum_kbps / self.delivery_windows as u64) as u32))
        } else {
            None
        }
    }

    /// The delay of clean windows at this rate, if any had one.
    #[verifier::allow_in_spec]
    pub fn delay(&self) -> Option<i64>
        returns
            (if self.delay_windows > 0 {
                Some(mean(self.delay_sum_us, self.delay_windows))
            } else {
                None
            }),
    {
        if self.delay_windows > 0 {
            Some(mean(self.delay_sum_us, self.delay_windows))
        } else {
            None
        }
    }

    /// The delay of clean windows, at this rate or at the one before.
    #[verifier::allow_in_spec]
    pub fn delay_mark(&self) -> i64
        returns
            (match self.delay() {
                Some(us) => us,
                None => self.delay_norm_us,
            }),
    {
        match self.delay() {
            Some(us) => us,
            None => self.delay_norm_us,
        }
    }

    /// Frames a window of this source usually carries.
    #[verifier::allow_in_spec]
    pub fn usual_frames(&self) -> u64
        returns
            (if self.delivery_windows >= DELIVERY_REF_WINDOWS {
                (self.delivery_frames / self.delivery_windows as u64) as u64
            } else {
                self.frames_norm
            }),
    {
        if self.delivery_windows >= DELIVERY_REF_WINDOWS {
            self.delivery_frames / self.delivery_windows as u64
        } else {
            self.frames_norm
        }
    }

    /// The norms after the rate moved.
    pub open spec fn forgotten(self) -> RateNorms {
        RateNorms {
            frames_norm: self.usual_frames(),
            delay_norm_us: self.delay_mark(),
            ..RateNorms::new()
        }
    }

    /// Forget what this rate looked like, on the wire and in the delay.
    pub fn forget(&mut self)
        ensures
            *final(self) == old(self).forgotten(),
    {
        let frames_norm: u64 = self.usual_frames();
        let delay_norm_us: i64 = self.delay_mark();
        *self = RateNorms::new();
        self.frames_norm = frames_norm;
        self.delay_norm_us = delay_norm_us;
    }

    /// Under a quarter of the usual frames. Lost frames count as drawn: the
    /// link, not the source, took them.
    pub open spec fn still(self, w: WindowSample) -> bool {
        match w.activity {
            WindowActivity::Active(n) => (n + w.dropped) * STILL_FRAMES_DIV < self.usual_frames(),
            _ => false,
        }
    }

    /// Did the source stop drawing? One never seen busy is never still.
    #[verifier::when_used_as_spec(still_window)]
    pub fn source_went_still(&self, w: &WindowSample) -> (r: bool)
        ensures
            r == self.still(*w),
    {
        match w.activity {
            WindowActivity::Active(n) => {
                let drawn: u128 = n as u128 + w.dropped as u128;
                drawn * STILL_FRAMES_DIV < self.usual_frames() as u128
            },
            _ => false,
        }
    }

    /// [`still`](Self::still), on a borrowed window.
    pub open spec fn still_window(&self, w: &WindowSample) -> bool {
        self.still(*w)
    }

    /// The norms after a clean window.
    pub open spec fn noted(self, w: WindowSample) -> RateNorms {
        if w.activity.quiet() || self.still(w) {
            self
        } else {
            RateNorms {
                delivery_sum_kbps: total(self.delivery_sum_kbps, w.actual_kbps as u64),
                delivery_windows: counted(self.delivery_windows),
                delivery_frames: match w.activity {
                    WindowActivity::Active(n) => total(self.delivery_frames, n as u64),
                    _ => self.delivery_frames,
                },
                delay_sum_us: match w.delay {
                    Some(d) => plus(self.delay_sum_us, d.mean_us),
                    None => self.delay_sum_us,
                },
                delay_windows: if w.delay is Some {
                    counted(self.delay_windows)
                } else {
                    self.delay_windows
                },
                ..self
            }
        }
    }

    /// A clean window. A quiet or still one is not this rate's norm.
    pub fn note(&mut self, w: &WindowSample)
        ensures
            *final(self) == old(self).noted(*w),
    {
        if w.activity.quiet() || self.source_went_still(w) {
            return;
        }
        self.delivery_sum_kbps = total(self.delivery_sum_kbps, w.actual_kbps as u64);
        self.delivery_windows = counted(self.delivery_windows);
        if let WindowActivity::Active(n) = w.activity {
            self.delivery_frames = total(self.delivery_frames, n as u64);
        }
        if let Some(d) = w.delay {
            self.delay_sum_us = plus(self.delay_sum_us, d.mean_us);
            self.delay_windows = counted(self.delay_windows);
        }
    }
}

/// A rate move keeps how often the source draws and where the delay sat, and
/// leaves no delivery norm for the new rate to be judged by.
pub proof fn law_a_rate_move_keeps_what_the_rate_did_not_make(n: RateNorms)
    ensures
        n.forgotten().usual_frames() == n.usual_frames(),
        n.forgotten().delay_mark() == n.delay_mark(),
        n.forgotten().delivery_reference() is None,
        n.forgotten().delay() is None,
{
}

/// A clean window that moved adds its delivery, its frames and its delay, each
/// to its own sum; a still or quiet one adds nothing.
pub proof fn law_a_clean_window_adds_its_own(n: RateNorms, w: WindowSample)
    requires
        n.delivery_sum_kbps <= u64::MAX / 2,
        n.delivery_frames <= u64::MAX / 2,
        n.delivery_windows < u32::MAX,
        n.delay_windows < u32::MAX,
        -1_000_000_000_000_000_000 <= n.delay_sum_us <= 1_000_000_000_000_000_000,
        w.delay matches Some(d) ==> -1_000_000_000_000 <= d.mean_us <= 1_000_000_000_000,
    ensures
        w.activity is Idle || w.activity is Empty || n.still(w) ==> n.noted(w) == n,
        !(w.activity is Idle) && !(w.activity is Empty) && !n.still(w) ==> {
            &&& n.noted(w).delivery_sum_kbps == n.delivery_sum_kbps + w.actual_kbps
            &&& n.noted(w).delivery_windows == n.delivery_windows + 1
            &&& w.activity matches WindowActivity::Active(frames) ==> n.noted(w).delivery_frames
                == n.delivery_frames + frames
            &&& w.delay matches Some(d) ==> n.noted(w).delay_sum_us == n.delay_sum_us + d.mean_us
                && n.noted(w).delay_windows == n.delay_windows + 1
            &&& w.delay is None ==> n.noted(w).delay_windows == n.delay_windows
            &&& n.noted(w).frames_norm == n.frames_norm && n.noted(w).delay_norm_us
                == n.delay_norm_us
        },
{
}

/// A norm is the mean of what was added: of deliveries once there are four, of
/// delays as soon as there is one, else the delay the last rate had.
pub proof fn law_a_norm_is_a_mean(n: RateNorms)
    ensures
        n.delivery_windows < 4 ==> n.delivery_reference() is None,
        n.delivery_windows >= 4 ==> n.delivery_reference() is Some,
        n.delivery_windows >= 4 && n.delivery_sum_kbps < n.delivery_windows * 0x1_0000_0000 ==> (
        n.delivery_reference() matches Some(k) && k * n.delivery_windows <= n.delivery_sum_kbps < (k
            + 1) * n.delivery_windows),
        n.delay_windows == 0 ==> n.delay() is None && n.delay_mark() == n.delay_norm_us,
        n.delay_windows > 0 && n.delay_sum_us >= 0 ==> (n.delay() matches Some(us) && us
            * n.delay_windows <= n.delay_sum_us < (us + 1) * n.delay_windows && n.delay_mark() == us),
        n.delivery_windows < 4 ==> n.usual_frames() == n.frames_norm,
        n.delivery_windows >= 4 ==> n.usual_frames() * n.delivery_windows <= n.delivery_frames < (
        n.usual_frames() + 1) * n.delivery_windows,
{
    if n.delivery_windows >= 4 {
        let c = n.delivery_windows as int;
        let q = n.delivery_sum_kbps as int / c;
        let f = n.delivery_frames as int / c;
        vstd::arithmetic::div_mod::lemma_fundamental_div_mod(n.delivery_sum_kbps as int, c);
        vstd::arithmetic::div_mod::lemma_mod_bound(n.delivery_sum_kbps as int, c);
        vstd::arithmetic::div_mod::lemma_fundamental_div_mod(n.delivery_frames as int, c);
        vstd::arithmetic::div_mod::lemma_mod_bound(n.delivery_frames as int, c);
        assert(c * q == q * c && (q + 1) * c == q * c + c && c * f == f * c && (f + 1) * c == f * c
            + c) by (nonlinear_arith);
        if n.delivery_sum_kbps < n.delivery_windows * 0x1_0000_0000 {
            assert(0 <= q < 0x1_0000_0000) by (nonlinear_arith)
                requires
                    c >= 1,
                    0 <= n.delivery_sum_kbps < c * 0x1_0000_0000,
                    q == n.delivery_sum_kbps as int / c,
            ;
        }
    }
    if n.delay_windows > 0 && n.delay_sum_us >= 0 {
        let c = n.delay_windows as int;
        let s = n.delay_sum_us as int;
        let q = s / c;
        vstd::arithmetic::div_mod::lemma_fundamental_div_mod(s, c);
        vstd::arithmetic::div_mod::lemma_mod_bound(s, c);
        assert(c * q == q * c && (q + 1) * c == q * c + c) by (nonlinear_arith);
        assert(0 <= q <= s) by (nonlinear_arith)
            requires
                c >= 1,
                s >= 0,
                q == s / c,
        ;
    }
}

/// A source went still where it drew, and lost, under a quarter of what it
/// usually draws.
pub proof fn law_a_still_source_draws_under_a_quarter(n: RateNorms, w: WindowSample)
    ensures
        n.still(w) <==> (w.activity matches WindowActivity::Active(frames) && 4 * (frames
            + w.dropped) < n.usual_frames()),
{
}

/// A rate nobody has watched has no norm: nothing summed, nothing counted. A
/// rate that is left hands its delay and its frames on, and starts over.
pub proof fn law_a_new_rate_has_no_norm(n: RateNorms)
    ensures
        ({
            let fresh = RateNorms::new();
            &&& fresh.delivery_sum_kbps == 0 && fresh.delivery_windows == 0
                && fresh.delivery_frames == 0 && fresh.frames_norm == 0
            &&& fresh.delay_sum_us == 0 && fresh.delay_windows == 0 && fresh.delay_norm_us == 0
        }),
        ({
            let next = n.forgotten();
            &&& next.delivery_sum_kbps == 0 && next.delivery_windows == 0 && next.delivery_frames
                == 0 && next.delay_sum_us == 0 && next.delay_windows == 0
            &&& next.frames_norm == n.usual_frames() && next.delay_norm_us == n.delay_mark()
        }),
{
}

} // verus!
