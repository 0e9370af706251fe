//! The decision a report window licenses.

use super::cap::StandDown;
use super::controller::{Asks, BitrateController, Causes, Streaks};
use super::decoder::DecoderLoad;
use super::drain::{DrainGuard, DRAIN_FALL_US};
use super::encoder::EncoderLoad;
use super::growth::{delivered_the_rate, lemma_proration_wf, proration, utilized, Proration, Proven};
use super::host::{stood, tick_stand_down, HostLimits};
use super::norms::RateNorms;
use super::sample::{WindowActivity, WindowSample};
use super::verdict::{
    Baselines, Reason, RollingMin, Standing, Verdict, BLIP_CLEAN_WINDOWS, HEAVY_LOSS_PPM,
};
use super::wall::{lift_bar, LinkWall};
use crate::math::{counted, higher, product, spent};
use vstd::prelude::*;

verus! {

/// The first descent under this is worth one warning.
pub const LOW_RATE_WARN_KBPS: u32 = 5_000;

/// Still windows before the next moving one starts doubling again: 3 s.
pub const IDLE_WINDOWS_TO_REARM: u32 = 4;

/// Clean full windows that refute a verdict the link never gave: 6 s.
pub const CLEAN_WINDOWS_TO_REARM: u32 = 8;

/// Least time between two requests, in nanoseconds.
pub const CHANGE_COOLDOWN: u64 = 1_500_000_000;

/// A window is full-rate at three quarters of the refresh's frames.
pub const DECODE_FULL_RATE_NUM: i64 = 3;

pub const DECODE_FULL_RATE_DEN: i64 = 4;

/// A cut the link earned lands on this share of what it delivered.
pub const LINK_CUT_PCT: u32 = 85;

/// The furthest one such cut goes.
pub const LINK_CUT_FLOOR_PCT: u32 = 50;

/// Any other cut keeps this share of the rate.
pub const BLIND_CUT_PCT: u32 = 70;

/// A window under this share of the norm is short.
pub const DELIVERY_SHORT_PCT: u32 = 90;

/// The window's damage is the host encoder's and nothing else's.
#[verifier::allow_in_spec]
pub fn encode_named(w: &WindowSample, v: &Verdict) -> bool
    returns
        v.reason == Reason::Encode && w.loss_ppm < HEAVY_LOSS_PPM,
{
    v.reason == Reason::Encode && w.loss_ppm < HEAVY_LOSS_PPM
}

/// Frames lost that a clean window behind them does not vouch for.
#[verifier::allow_in_spec]
pub fn repeated_drops(w: &WindowSample, clean_windows: u32) -> bool
    returns
        w.dropped > 1 || (w.dropped == 1 && clean_windows == 0),
{
    w.dropped > 1 || (w.dropped == 1 && clean_windows == 0)
}

impl BitrateController {
    /// Wait for a lifted rate's delay no further than this over its reference.
    #[verifier::when_used_as_spec(lift_bar_spec)]
    pub fn lift_bar_us(ref_us: i64) -> (bar: i64)
        ensures
            bar == lift_bar(ref_us),
    {
        super::wall::lift_bar_us(ref_us)
    }

    pub open spec fn lift_bar_spec(ref_us: i64) -> i64 {
        lift_bar(ref_us)
    }

    /// One window under the drain guard.
    pub fn note_drain(&mut self, w: &WindowSample) -> (draining: bool)
        requires
            old(self).wf(),
        ensures
            final(self).wf(),
            *final(self) == (BitrateController { drain: old(self).drain.stepped(*w), ..*old(self) }),
            draining == old(self).drain.guards(*w),
    {
        let mut drain: DrainGuard = self.drain;
        let draining = drain.note(w);
        self.drain = drain;
        draining
    }

    /// Guard the queue of the cut just made. The mark to wait for is where
    /// clean windows sat, at this rate or at the one before.
    pub fn arm_drain(&mut self)
        requires
            old(self).wf(),
        ensures
            final(self).wf(),
            *final(self) == (BitrateController {
                drain: DrainGuard::armed(old(self).norms.delay_mark()),
                ..*old(self)
            }),
    {
        self.drain = DrainGuard::armed(self.norms.delay_mark());
    }

    /// Did the link hand over less than the rate it was running at?
    ///
    /// Against the rate's own norm where there is one. Without one, the
    /// climb's bar, prorated by the frames that arrived; a standing delay
    /// breaks that count, and the wall clock judges then. A source that went
    /// still is never short unless a queue is holding its frames.
    pub open spec fn short(self, w: WindowSample, owd_bad: bool) -> bool {
        if !owd_bad && self.norms.still(w) {
            false
        } else {
            match self.norms.delivery_reference() {
                Some(reference) => w.actual_kbps * 100 < reference * DELIVERY_SHORT_PCT,
                None => {
                    ||| !utilized(
                        w.activity,
                        proration(w.activity, self.frame_budget_us),
                        w.actual_kbps,
                        self.current_kbps,
                    )
                    ||| (owd_bad && !delivered_the_rate(w.actual_kbps, self.current_kbps))
                },
            }
        }
    }

    pub fn short_of_offered(&self, w: &WindowSample, owd_bad: bool) -> (r: bool)
        ensures
            r == self.short(*w, owd_bad),
    {
        if !owd_bad && self.norms.source_went_still(w) {
            return false;
        }
        if let Some(reference) = self.norms.delivery_reference() {
            return product(w.actual_kbps, 100) < product(reference, DELIVERY_SHORT_PCT);
        }
        proof {
            lemma_proration_wf(w.activity, self.frame_budget_us);
        }
        let p: Proration = proration(w.activity, self.frame_budget_us);
        if !utilized(w.activity, p, w.actual_kbps, self.current_kbps) {
            return true;
        }
        owd_bad && !delivered_the_rate(w.actual_kbps, self.current_kbps)
    }

    /// One frame gone and a link with room behind it: the wire carried what
    /// the rate asked for and the queue is not growing.
    pub open spec fn vouched(self, w: WindowSample) -> bool {
        &&& self.streaks.blip_hold == 0
        &&& w.dropped == 1
        &&& w.delay is Some
        &&& w.delay->0.rise_us < DRAIN_FALL_US
        &&& !self.short(w, false)
    }

    pub fn link_vouches_for(&self, w: &WindowSample) -> (r: bool)
        ensures
            r == self.vouched(*w),
    {
        let not_growing = match w.delay {
            Some(d) => d.rise_us < DRAIN_FALL_US,
            None => false,
        };
        self.streaks.blip_hold == 0 && w.dropped == 1 && not_growing && !self.short_of_offered(
            w,
            false,
        )
    }

    /// What the window is scored against.
    pub open spec fn standing(self, w: WindowSample, draining: bool) -> Standing {
        Standing {
            current_kbps: self.current_kbps,
            frame_budget_us: self.frame_budget_us,
            encode_disarmed: self.encoder.down.down,
            clean_windows: self.streaks.clean_windows,
            draining,
            link_vouches: self.vouched(w),
            lift_probing: self.link.lift_probing(),
            source_still: self.norms.still(w),
        }
    }

    /// The state after scoring the window, and its verdict.
    pub open spec fn scored(self, w: WindowSample) -> (Self, Verdict) {
        let guarded = BitrateController {
            drain: self.drain.stepped(w),
            streaks: Streaks { blip_hold: spent(self.streaks.blip_hold), ..self.streaks },
            ..self
        };
        let s = guarded.standing(w, self.drain.guards(w));
        let v = self.baselines.verdict(w, s);
        (
            BitrateController {
                baselines: self.baselines.learned(w, s),
                causes: Causes { last_reason: v.reason, ..self.causes },
                ..guarded
            },
            v,
        )
    }

    fn score(&mut self, w: &WindowSample) -> (r: (bool, Verdict))
        requires
            old(self).wf(),
        ensures
            final(self).wf(),
            r.0 == old(self).drain.guards(*w),
            (*final(self), r.1) == old(self).scored(*w),
    {
        let draining = self.note_drain(w);
        self.streaks =
        Streaks { blip_hold: spent(self.streaks.blip_hold), ..self.streaks };
        let s = Standing {
            current_kbps: self.current_kbps,
            frame_budget_us: self.frame_budget_us,
            encode_disarmed: self.encoder.down.disarmed(),
            clean_windows: self.streaks.clean_windows,
            draining,
            link_vouches: self.link_vouches_for(w),
            lift_probing: self.link.lift_probing(),
            source_still: self.norms.source_went_still(w),
        };
        let mut baselines: Baselines = self.baselines;
        let v: Verdict = baselines.score(w, s);
        *self =
        BitrateController {
            baselines,
            causes: Causes { last_reason: v.reason, ..self.causes },
            ..*self
        };
        (draining, v)
    }

    /// The state after the window's stillness or motion.
    ///
    /// Repeats alone are stillness; an empty window is as neutral but proves
    /// nothing. Motion after a long enough stillness starts doubling again,
    /// and clears the cooldown so that this very window can.
    pub open spec fn moved(self, activity: WindowActivity, quiet: bool) -> Self {
        if activity.idle() {
            BitrateController {
                streaks: Streaks {
                    idle_windows: counted(self.streaks.idle_windows),
                    ..self.streaks
                },
                ..self
            }
        } else if quiet {
            self
        } else {
            let onset = self.streaks.idle_windows >= IDLE_WINDOWS_TO_REARM && !self.probing;
            BitrateController {
                probing: self.probing || onset,
                asks: if onset {
                    Asks { last_change: None, ..self.asks }
                } else {
                    self.asks
                },
                streaks: Streaks { idle_windows: 0, ..self.streaks },
                ..self
            }
        }
    }

    fn note_activity(&mut self, activity: WindowActivity, quiet: bool)
        requires
            old(self).wf(),
        ensures
            final(self).wf(),
            *final(self) == old(self).moved(activity, quiet),
    {
        if activity.idle() {
            self.streaks =
            Streaks { idle_windows: counted(self.streaks.idle_windows), ..self.streaks };
            return;
        }
        if quiet {
            return;
        }
        let onset = self.streaks.idle_windows >= IDLE_WINDOWS_TO_REARM && !self.probing;
        *self =
        BitrateController {
            probing: self.probing || onset,
            asks: if onset {
                Asks { last_change: None, ..self.asks }
            } else {
                self.asks
            },
            streaks: Streaks { idle_windows: 0, ..self.streaks },
            ..*self
        };
    }

    /// The state after a blip: the rate stands and doubling with it, but the
    /// clean run that vouched starts over, and a climbed-to rate the decoder
    /// sailed through ends its knee.
    pub open spec fn blipped(self, v: Verdict) -> Self {
        BitrateController {
            proven: self.proven.ticked(),
            streaks: Streaks {
                clean_windows: 0,
                blip_hold: BLIP_CLEAN_WINDOWS,
                ..self.streaks
            },
            decoder: DecoderLoad {
                backoff_kbps: if self.climb_since_backoff && !v.starved {
                    0
                } else {
                    self.decoder.backoff_kbps
                },
                ..self.decoder
            },
            ..self
        }
    }

    /// The damage is the link's: a loss share, a standing delay, a flush, or
    /// lost frames nothing vouches for.
    pub open spec fn link_damage(self, w: WindowSample, v: Verdict) -> bool {
        w.loss_ppm >= HEAVY_LOSS_PPM || v.owd_bad || w.flushed || repeated_drops(
            &w,
            self.streaks.clean_windows,
        )
    }

    /// The state after a bad window.
    ///
    /// The link shows itself as a delay or as a shortfall, and a link with
    /// room shows neither. Only a shortfall makes what was delivered the
    /// number to land on. A decoder past its budget is the rate's doing but
    /// not the link's.
    pub open spec fn damaged(self, w: WindowSample, v: Verdict) -> Self {
        let link = self.link_damage(w, v);
        let short = self.short(w, v.owd_bad);
        BitrateController {
            proven: self.proven.ticked(),
            causes: Causes {
                rate_verdict: link || v.decode_bad,
                link_evidence: link && (v.owd_bad || short),
                link_verdict: link && short,
                streak_cut: Some(v.reason),
                ..self.causes
            },
            streaks: Streaks {
                bad_windows: counted(self.streaks.bad_windows),
                clean_windows: 0,
                ..self.streaks
            },
            decoder: self.decoder.damaged(self.current_kbps, v.decode_bad, self.floor_kbps),
            probing: false,
            ..self
        }
    }

    /// The state after a window that was not bad. It is proof of delivery and
    /// part of the rate's norm; only a moving one is credit.
    pub open spec fn undamaged(self, w: WindowSample, v: Verdict) -> Self {
        let noted = BitrateController {
            proven: Proven {
                this_bucket: higher(self.proven.ticked().this_bucket, w.actual_kbps),
                ..self.proven.ticked()
            },
            norms: self.norms.noted(w),
            ..self
        };
        if v.quiet {
            noted
        } else {
            BitrateController {
                streaks: Streaks {
                    clean_windows: counted(self.streaks.clean_windows),
                    bad_windows: 0,
                    ..self.streaks
                },
                decoder: DecoderLoad { streak_windows: 0, ..self.decoder },
                causes: Causes { link_evidence: false, ..self.causes },
                ..noted
            }
        }
    }

    /// The state after folding the verdict into the streaks.
    pub open spec fn noted(self, w: WindowSample, v: Verdict) -> Self {
        if v.reason == Reason::Blip {
            self.blipped(v)
        } else if v.bad {
            self.damaged(w, v)
        } else {
            self.undamaged(w, v)
        }
    }

    fn note_damage(&mut self, w: &WindowSample, v: &Verdict)
        requires
            old(self).wf(),
        ensures
            final(self).wf(),
            *final(self) == old(self).damaged(*w, *v),
    {
        let link = w.loss_ppm >= HEAVY_LOSS_PPM || v.owd_bad || w.flushed || repeated_drops(
            w,
            self.streaks.clean_windows,
        );
        let short = self.short_of_offered(w, v.owd_bad);
        let mut proven: Proven = self.proven;
        proven.tick();
        let mut decoder: DecoderLoad = self.decoder;
        decoder.note_bad(self.current_kbps, v.decode_bad, self.floor_kbps);
        *self =
        BitrateController {
            proven,
            causes: Causes {
                rate_verdict: link || v.decode_bad,
                link_evidence: link && (v.owd_bad || short),
                link_verdict: link && short,
                streak_cut: Some(v.reason),
                ..self.causes
            },
            streaks: Streaks {
                bad_windows: counted(self.streaks.bad_windows),
                clean_windows: 0,
                ..self.streaks
            },
            decoder,
            probing: false,
            ..*self
        };
    }

    fn note_verdict(&mut self, w: &WindowSample, v: &Verdict)
        requires
            old(self).wf(),
        ensures
            final(self).wf(),
            *final(self) == old(self).noted(*w, *v),
    {
        if v.reason == Reason::Blip {
            let mut proven: Proven = self.proven;
            proven.tick();
            *self =
            BitrateController {
                proven,
                streaks: Streaks {
                    clean_windows: 0,
                    blip_hold: BLIP_CLEAN_WINDOWS,
                    ..self.streaks
                },
                decoder: DecoderLoad {
                    backoff_kbps: if self.climb_since_backoff && !v.starved {
                        0
                    } else {
                        self.decoder.backoff_kbps
                    },
                    ..self.decoder
                },
                ..*self
            };
            return;
        }
        if v.bad {
            self.note_damage(w, v);
            return;
        }
        let mut proven: Proven = self.proven;
        proven.tick();
        proven.note(w.actual_kbps);
        let mut norms: RateNorms = self.norms;
        norms.note(w);
        *self = BitrateController { proven, norms, ..*self };
        if !v.quiet {
            *self =
            BitrateController {
                streaks: Streaks {
                    clean_windows: counted(self.streaks.clean_windows),
                    bad_windows: 0,
                    ..self.streaks
                },
                decoder: DecoderLoad { streak_windows: 0, ..self.decoder },
                causes: Causes { link_evidence: false, ..self.causes },
                ..*self
            };
        }
    }

    /// A verdict the rate did not cause may be refuted by a clean run. One
    /// the rate is the lever for is held to, except far under a wall the
    /// session itself ran into: the doubling cannot pass that.
    pub open spec fn refutable(self) -> bool {
        &&& !self.probing
        &&& (!self.causes.rate_verdict || self.link.far_above(self.current_kbps))
        &&& self.decoder.backoff_kbps == 0
    }

    /// A window that counts toward refuting one.
    pub open spec fn refutes(self, w: WindowSample, v: Verdict) -> bool {
        &&& !v.bad
        &&& !v.quiet
        &&& v.reason != Reason::Blip
        &&& utilized(
            w.activity,
            proration(w.activity, self.frame_budget_us),
            w.actual_kbps,
            self.current_kbps,
        )
    }

    /// The state after the clean run's count: a full one gives doubling back.
    pub open spec fn rearmed(self, w: WindowSample, v: Verdict) -> Self {
        if !self.refutable() {
            self
        } else {
            let run = if self.refutes(w, v) {
                counted(self.streaks.rearm_windows)
            } else {
                0
            };
            let full = run >= CLEAN_WINDOWS_TO_REARM;
            BitrateController {
                probing: full,
                streaks: Streaks {
                    rearm_windows: if full {
                        0
                    } else {
                        run
                    },
                    ..self.streaks
                },
                ..self
            }
        }
    }

    fn note_rearm(&mut self, w: &WindowSample, v: &Verdict)
        requires
            old(self).wf(),
        ensures
            final(self).wf(),
            *final(self) == old(self).rearmed(*w, *v),
    {
        if self.probing || (self.causes.rate_verdict && !self.link.far_above(self.current_kbps))
            || self.decoder.backoff_kbps > 0 {
            return;
        }
        proof {
            lemma_proration_wf(w.activity, self.frame_budget_us);
        }
        let p: Proration = proration(w.activity, self.frame_budget_us);
        let counts = !v.bad && !v.quiet && !(v.reason == Reason::Blip) && utilized(
            w.activity,
            p,
            w.actual_kbps,
            self.current_kbps,
        );
        let run: u32 = if counts {
            counted(self.streaks.rearm_windows)
        } else {
            0
        };
        let full = run >= CLEAN_WINDOWS_TO_REARM;
        *self =
        BitrateController {
            probing: full,
            streaks: Streaks {
                rearm_windows: if full {
                    0
                } else {
                    run
                },
                ..self.streaks
            },
            ..*self
        };
    }

    /// How far a link cap may lift: to what the stream and the operator
    /// allow. On a measured wall the ceiling is the cap itself, so the
    /// ceiling cannot be what bounds it.
    #[verifier::allow_in_spec]
    pub fn lift_limit(&self) -> u32
        returns
            higher(self.ceiling.usable(u32::MAX), self.ceiling.kbps),
    {
        higher(self.ceiling.usable(u32::MAX), self.ceiling.kbps)
    }

    /// The state after the wall's clock. A lift carries the ceiling with it;
    /// a wall that moved gives doubling back.
    pub open spec fn wall_ticked(self, v: Verdict) -> Self {
        let delay_us = self.norms.delay();
        let made = self.link.lift_made(v.quiet, self.current_kbps, self.lift_limit(), delay_us);
        let ticked = BitrateController {
            link: self.link.ticked(v.quiet, self.current_kbps, self.lift_limit(), delay_us),
            ..self
        };
        match made {
            None => ticked,
            Some(lift) => if lift.moved {
                BitrateController {
                    probing: true,
                    causes: Causes { rate_verdict: false, ..self.causes },
                    ..ticked.raised(lift.to_kbps)
                }
            } else {
                ticked.raised(lift.to_kbps)
            },
        }
    }

    fn tick_wall(&mut self, v: &Verdict)
        requires
            old(self).wf(),
        ensures
            final(self).wf(),
            *final(self) == old(self).wall_ticked(*v),
    {
        let lift_to: u32 = self.lift_limit();
        let delay_us: Option<i64> = self.norms.delay();
        let mut link: LinkWall = self.link;
        let made = link.tick(v.quiet, self.current_kbps, lift_to, delay_us);
        self.link = link;
        if let Some(lift) = made {
            self.raise_ceiling(lift.to_kbps);
            if lift.moved {
                *self =
                BitrateController {
                    probing: true,
                    causes: Causes { rate_verdict: false, ..self.causes },
                    ..*self
                };
            }
        }
    }

    /// The state after one window on every re-probe clock. The host's and the
    /// decoder's caps are bounded by the ceiling as it was; the wall's own
    /// lift carries the ceiling after that.
    pub open spec fn ticked(self, v: Verdict) -> Self {
        let (bad, quiet, rate) = (v.bad, v.quiet, self.current_kbps);
        let down = stood(self.encoder.down, bad, quiet);
        let clocked = BitrateController {
            host: HostLimits {
                cap: self.host.cap.windowed(bad, quiet, rate, self.ceiling.kbps),
                cadence_hold: stood(self.host.cadence_hold, bad, quiet),
                ..self.host
            },
            decoder: self.decoder.ticked(bad, quiet, rate, self.ceiling.kbps, v.decode_mean_us),
            encoder: EncoderLoad { down, ..self.encoder },
            baselines: if self.encoder.down.down && !down.down {
                Baselines { encode: RollingMin::new(), ..self.baselines }
            } else {
                self.baselines
            },
            ..self
        };
        clocked.wall_ticked(v)
    }

    fn tick_caps(&mut self, v: &Verdict)
        requires
            old(self).wf(),
        ensures
            final(self).wf(),
            *final(self) == old(self).ticked(*v),
    {
        let (bad, quiet, rate, ceiling): (bool, bool, u32, u32) = (
            v.bad,
            v.quiet,
            self.current_kbps,
            self.ceiling.kbps,
        );
        let mut host: HostLimits = self.host;
        let _ = host.cap.on_window(bad, quiet, rate, ceiling);
        let _ = tick_stand_down(&mut host.cadence_hold, bad, quiet);
        let mut decoder: DecoderLoad = self.decoder;
        decoder.tick(bad, quiet, rate, ceiling, v.decode_mean_us);
        let mut down: StandDown = self.encoder.down;
        let armed = tick_stand_down(&mut down, bad, quiet);
        let mut baselines: Baselines = self.baselines;
        if armed {
            baselines.clear_encode();
        }
        *self =
        BitrateController {
            host,
            decoder,
            encoder: EncoderLoad { down, ..self.encoder },
            baselines,
            ..*self
        };
        self.tick_wall(v);
    }

    /// Score the window and fold it into every streak and clock.
    pub(super) fn fold(&mut self, w: &WindowSample) -> (r: (bool, Verdict))
        requires
            old(self).wf(),
        ensures
            final(self).wf(),
            r.0 == old(self).drain.guards(*w),
            (*final(self), r.1) == old(self).folded(*w),
    {
        proof {
            reveal(BitrateController::folded);
        }
        let (draining, v): (bool, Verdict) = self.score(w);
        self.note_activity(w.activity, v.quiet);
        self.note_verdict(w, &v);
        self.note_rearm(w, &v);
        self.tick_caps(&v);
        (draining, v)
    }
}

/// A link is short against what its rate usually delivers, by a tenth; where
/// nothing is usual yet, against three quarters of the rate, or nine tenths
/// while a delay stands. A source that went still is short only while a delay
/// stands.
pub proof fn law_a_short_link_is_short_by_a_tenth(
    c: BitrateController,
    w: WindowSample,
    owd_bad: bool,
)
    ensures
        !owd_bad && c.norms.still(w) ==> !c.short(w, owd_bad),
        owd_bad || !c.norms.still(w) ==> (c.norms.delivery_reference() matches Some(k) ==> (c.short(
            w,
            owd_bad,
        ) <==> 10 * w.actual_kbps < 9 * k)),
        (owd_bad || !c.norms.still(w)) && c.norms.delivery_reference() is None && (w.activity is Idle
            || w.activity is Empty) ==> c.short(w, owd_bad),
        (owd_bad || !c.norms.still(w)) && c.norms.delivery_reference() is None && !(w.activity is Idle
            || w.activity is Empty) && c.frame_budget_us is None ==> (c.short(w, owd_bad) <==> 4
            * w.actual_kbps < 3 * c.current_kbps || (owd_bad && 10 * w.actual_kbps < 9
            * c.current_kbps)),
{
    let p = proration(w.activity, c.frame_budget_us);
    lemma_proration_wf(w.activity, c.frame_budget_us);
    super::growth::law_a_thin_window_is_read_as_its_share(w.activity, c.frame_budget_us);
    super::growth::law_a_window_fills_at_three_quarters(
        w.activity,
        p,
        w.actual_kbps,
        c.current_kbps,
    );
}

/// The link vouches for one lost frame, once in eight windows, where it carried
/// its rate and the delay is known not to grow.
pub proof fn law_a_link_vouches_for_one_frame(c: BitrateController, w: WindowSample)
    ensures
        c.vouched(w) ==> w.dropped == 1 && c.streaks.blip_hold == 0,
        c.vouched(w) ==> (w.delay matches Some(d) && d.rise_us < 5_000),
        c.vouched(w) ==> !c.short(w, false),
        w.dropped == 1 && c.streaks.blip_hold == 0 && w.delay is Some && w.delay->0.rise_us < 5_000
            && !c.short(w, false) ==> c.vouched(w),
        repeated_drops(&w, c.streaks.clean_windows) <==> w.dropped > 1 || (w.dropped == 1
            && c.streaks.clean_windows == 0),
{
}

/// Each thing a window is scored against is the session's own: its rate, its
/// budget, its clean run, its encoder driver, its wall, its source.
pub proof fn law_a_window_is_scored_against_the_session(
    c: BitrateController,
    w: WindowSample,
    draining: bool,
)
    ensures
        ({
            let s = c.standing(w, draining);
            &&& s.current_kbps == c.current_kbps && s.frame_budget_us == c.frame_budget_us
            &&& s.clean_windows == c.streaks.clean_windows
            &&& s.encode_disarmed == c.encoder.down.down
            &&& s.draining == draining
            &&& s.link_vouches == c.vouched(w)
            &&& s.lift_probing == (c.link.lift is Some && !c.link.lift->0.settled)
            &&& s.source_still == c.norms.still(w)
        }),
        ({
            let (after, v) = c.scored(w);
            &&& after.causes.last_reason == v.reason
            &&& c.streaks.blip_hold > 0 ==> after.streaks.blip_hold == c.streaks.blip_hold - 1
            &&& c.streaks.blip_hold == 0 ==> after.streaks.blip_hold == 0
            &&& c.drain.windows == 0 ==> after.drain == c.drain
            &&& after.streaks.clean_windows == c.streaks.clean_windows && after.streaks.bad_windows
                == c.streaks.bad_windows && after.streaks.idle_windows == c.streaks.idle_windows
            &&& after.probing == c.probing && after.decoder == c.decoder && after.encoder
                == c.encoder && after.link == c.link && after.host == c.host && after.norms
                == c.norms && after.proven == c.proven && after.asks == c.asks
            &&& after.causes.streak_cut == c.causes.streak_cut && after.causes.last_cut
                == c.causes.last_cut
            &&& v == c.baselines.verdict(
                w,
                BitrateController {
                    streaks: Streaks { blip_hold: after.streaks.blip_hold, ..c.streaks },
                    ..c
                }.standing(w, c.drain.guards(w)),
            )
        }),
{
}

/// Repeats alone count as stillness. Motion ends the count, and after four
/// still windows doubles again at once; an empty window does neither.
pub proof fn law_motion_after_stillness_doubles(
    c: BitrateController,
    activity: WindowActivity,
    quiet: bool,
)
    requires
        c.streaks.idle_windows < u32::MAX,
    ensures
        ({
            let m = c.moved(activity, quiet);
            &&& activity is Idle ==> m.streaks.idle_windows == c.streaks.idle_windows + 1 && m.probing
                == c.probing && m.asks == c.asks
            &&& !(activity is Idle) && quiet ==> m == c
            &&& !(activity is Idle) && !quiet ==> m.streaks.idle_windows == 0
            &&& !(activity is Idle) && !quiet && c.streaks.idle_windows >= 4 ==> m.probing
            &&& !(activity is Idle) && !quiet && c.streaks.idle_windows < 4 ==> m.probing == c.probing
                && m.asks == c.asks
            &&& !(activity is Idle) && !quiet && c.streaks.idle_windows >= 4 && !c.probing
                ==> m.asks.last_change is None
            &&& c.probing ==> m.probing && m.asks == c.asks
            &&& m.asks.unacked == c.asks.unacked && m.asks.last_requested_kbps
                == c.asks.last_requested_kbps
            &&& m.streaks.clean_windows == c.streaks.clean_windows && m.streaks.bad_windows
                == c.streaks.bad_windows
        }),
{
}

/// A blip costs the clean run and holds the next one back eight windows; the
/// rate's own standing is left, but a rate the session climbed to and the
/// decoder was fed at is no knee.
pub proof fn law_a_blip_costs_the_clean_run(c: BitrateController, w: WindowSample, v: Verdict)
    requires
        v.reason == Reason::Blip,
    ensures
        ({
            let n = c.noted(w, v);
            &&& n.streaks.clean_windows == 0 && n.streaks.blip_hold == 8
            &&& n.streaks.bad_windows == c.streaks.bad_windows && n.streaks.rearm_windows
                == c.streaks.rearm_windows
            &&& n.probing == c.probing && n.causes == c.causes && n.norms == c.norms && n.link
                == c.link
            &&& c.climb_since_backoff && !v.starved ==> n.decoder.backoff_kbps == 0
            &&& !c.climb_since_backoff || v.starved ==> n.decoder == c.decoder
        }),
{
}

/// A bad window lengthens the bad run, ends the clean one and stops doubling.
/// It is the link's on a loss share of a fiftieth, a standing delay, a flush
/// or lost frames nothing vouches for; it is evidence of the link where a
/// delay stands or the link was short, and a verdict on it only where it was
/// short.
pub proof fn law_damage_is_laid_at_its_door(c: BitrateController, w: WindowSample, v: Verdict)
    requires
        v.reason != Reason::Blip,
        v.bad,
        c.streaks.bad_windows < u32::MAX,
    ensures
        ({
            let n = c.noted(w, v);
            let link = w.loss_ppm >= 20_000 || v.owd_bad || w.flushed || w.dropped > 1 || (w.dropped
                == 1 && c.streaks.clean_windows == 0);
            let short = c.short(w, v.owd_bad);
            &&& n.streaks.bad_windows == c.streaks.bad_windows + 1 && n.streaks.clean_windows == 0
            &&& !n.probing
            &&& n.causes.rate_verdict <==> link || v.decode_bad
            &&& n.causes.link_evidence <==> link && (v.owd_bad || short)
            &&& n.causes.link_verdict <==> link && short
            &&& n.causes.streak_cut == Some(v.reason) && n.causes.last_cut == c.causes.last_cut
            &&& n.decoder.probe is None
            &&& n.norms == c.norms && n.link == c.link && n.streaks.blip_hold
                == c.streaks.blip_hold
        }),
{
}

/// A window that was not bad proves its delivery and joins the norm; only one
/// that moved lengthens the clean run and ends the bad one.
pub proof fn law_a_clean_window_is_proof(c: BitrateController, w: WindowSample, v: Verdict)
    requires
        v.reason != Reason::Blip,
        !v.bad,
        c.proven.wf(),
        c.streaks.clean_windows < u32::MAX,
    ensures
        ({
            let n = c.noted(w, v);
            &&& n.proven.mark() >= w.actual_kbps
            &&& n.proven.mark() == w.actual_kbps || n.proven.mark() <= c.proven.mark()
            &&& n.norms == c.norms.noted(w)
            &&& !v.quiet ==> n.streaks.clean_windows == c.streaks.clean_windows + 1
                && n.streaks.bad_windows == 0 && n.decoder.streak_windows == 0
                && !n.causes.link_evidence
            &&& v.quiet ==> n.streaks == c.streaks && n.decoder == c.decoder && n.causes == c.causes
            &&& n.probing == c.probing && n.causes.rate_verdict == c.causes.rate_verdict
                && n.causes.link_verdict == c.causes.link_verdict
        }),
{
}

/// Eight clean full windows give doubling back, where the rate is not the
/// lever for what went wrong, or the session sits far under a wall it found;
/// the decoder's knee keeps it away.
pub proof fn law_a_clean_run_gives_doubling_back(c: BitrateController, w: WindowSample, v: Verdict)
    requires
        c.streaks.rearm_windows < u32::MAX,
    ensures
        ({
            let r = c.rearmed(w, v);
            let open = !c.probing && c.decoder.backoff_kbps == 0 && (!c.causes.rate_verdict
                || c.link.far_above(c.current_kbps));
            let full = super::growth::fills(
                w.activity,
                proration(w.activity, c.frame_budget_us),
                w.actual_kbps,
                c.current_kbps,
            );
            let counts = !v.bad && !v.quiet && v.reason != Reason::Blip && full;
            &&& !open ==> r == c
            &&& open && !counts ==> !r.probing && r.streaks.rearm_windows == 0
            &&& open && counts && c.streaks.rearm_windows < 7 ==> !r.probing
                && r.streaks.rearm_windows == c.streaks.rearm_windows + 1
            &&& open && counts && c.streaks.rearm_windows >= 7 ==> r.probing
                && r.streaks.rearm_windows == 0
            &&& r.streaks.clean_windows == c.streaks.clean_windows && r.streaks.bad_windows
                == c.streaks.bad_windows && r.streaks.blip_hold == c.streaks.blip_hold
        }),
{
}

/// A lift goes as far as the operator and the stream allow, and no less far
/// than the ceiling; it carries the ceiling along. A wall that moved is gone
/// and gives doubling back.
pub proof fn law_a_lift_carries_the_ceiling(c: BitrateController, v: Verdict)
    requires
        c.wf(),
        c.enabled,
    ensures
        c.lift_limit() >= c.ceiling.kbps,
        c.ceiling.cap_kbps matches Some(k) ==> c.lift_limit() <= k || c.lift_limit()
            == c.ceiling.kbps,
        c.ceiling.stream_cap_kbps matches Some(k) ==> c.lift_limit() <= k || c.lift_limit()
            == c.ceiling.kbps,
        c.ceiling.cap_kbps is None && c.ceiling.stream_cap_kbps is None ==> c.lift_limit()
            == u32::MAX,
        ({
            let t = c.wall_ticked(v);
            let made = c.link.lift_made(
                v.quiet,
                c.current_kbps,
                c.lift_limit(),
                c.norms.delay(),
            );
            &&& t.link == c.link.ticked(v.quiet, c.current_kbps, c.lift_limit(), c.norms.delay())
            &&& made is None ==> t.ceiling == c.ceiling && t.probing == c.probing && t.causes
                == c.causes
            &&& made matches Some(l) ==> t.ceiling.kbps >= l.to_kbps && t.ceiling.kbps
                >= c.ceiling.kbps && (t.ceiling.kbps == l.to_kbps || t.ceiling.kbps
                == c.ceiling.kbps)
            &&& made matches Some(l) ==> (l.moved ==> t.probing && !t.causes.rate_verdict)
            &&& made matches Some(l) ==> (!l.moved ==> t.probing == c.probing && t.causes
                == c.causes)
        }),
{
}

/// Each clock runs on its own: the host's cap, the busy host, the decoder's
/// cap and the encoder driver each take the window, and an encoder driver that
/// comes back learns its floor anew.
pub proof fn law_every_clock_takes_the_window(c: BitrateController, v: Verdict)
    requires
        c.wf(),
    ensures
        ({
            let t = c.ticked(v);
            &&& t.host.cap == c.host.cap.windowed(v.bad, v.quiet, c.current_kbps, c.ceiling.kbps)
            &&& t.host.cadence_hold == stood(c.host.cadence_hold, v.bad, v.quiet)
            &&& t.host.short_acks == c.host.short_acks
            &&& t.decoder == c.decoder.ticked(
                v.bad,
                v.quiet,
                c.current_kbps,
                c.ceiling.kbps,
                v.decode_mean_us,
            )
            &&& t.encoder.down == stood(c.encoder.down, v.bad, v.quiet) && t.encoder.probe
                == c.encoder.probe
            &&& c.encoder.down.down && !t.encoder.down.down ==> t.baselines.encode.seen == 0
            &&& c.encoder.down.down == t.encoder.down.down ==> t.baselines == c.baselines
            &&& t.baselines.owd == c.baselines.owd && t.baselines.decode == c.baselines.decode
            &&& t.streaks == c.streaks && t.norms == c.norms && t.proven == c.proven && t.drain
                == c.drain && t.asks == c.asks
        }),
{
}

/// A window is folded in one order: scored, then read for motion, then for its
/// verdict. The clean run and the bad run are those of the verdict.
pub proof fn law_a_window_is_folded_once(c: BitrateController, w: WindowSample)
    requires
        c.wf(),
        c.streaks.bad_windows < u32::MAX,
        c.streaks.clean_windows < u32::MAX,
        c.streaks.idle_windows < u32::MAX,
    ensures
        ({
            let (f, v) = c.folded(w);
            &&& v == c.scored(w).1
            &&& f.causes.last_reason == v.reason
            &&& v.bad && v.reason != Reason::Blip ==> f.streaks.bad_windows
                == c.streaks.bad_windows + 1 && f.streaks.clean_windows == 0
                && f.causes.streak_cut == Some(v.reason)
            &&& !v.bad && v.reason != Reason::Blip && !v.quiet ==> f.streaks.bad_windows == 0
                && f.streaks.clean_windows == c.streaks.clean_windows + 1
            &&& !v.bad && v.reason != Reason::Blip && v.quiet ==> f.streaks.bad_windows
                == c.streaks.bad_windows && f.streaks.clean_windows == c.streaks.clean_windows
            &&& v.reason == Reason::Blip ==> f.streaks.clean_windows == 0 && f.streaks.blip_hold == 8
            &&& w.activity is Idle ==> f.streaks.idle_windows == c.streaks.idle_windows + 1
        }),
{
    reveal(BitrateController::folded);
}

} // verus!
