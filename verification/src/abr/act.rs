//! The moves a window may take: answer a lift, judge a notch, back off, give
//! the decoder room, or climb.

use super::controller::{BitrateController, Causes, Ceiling, Streaks, MAX_UNACKED};
use super::decide::{
    encode_named, BLIND_CUT_PCT, CHANGE_COOLDOWN, DECODE_FULL_RATE_DEN, DECODE_FULL_RATE_NUM,
    LINK_CUT_FLOOR_PCT, LINK_CUT_PCT, LOW_RATE_WARN_KBPS,
};
use super::decoder::{DecoderLoad, BAD_WINDOWS_TO_DECREASE};
use super::drain::DrainGuard;
use super::encoder::{EncodeAnswer, EncoderLoad};
use super::growth::{
    climb_step, lemma_proration_wf, proration, proven_target_cap, utilized, Proration,
    CLEAN_WINDOWS_TO_INCREASE,
};
use super::sample::{WindowActivity, WindowSample, WINDOW_US};
use super::verdict::{encode_thresholds, Baselines, Reason, RollingMin, Verdict};
use super::wall::LinkWall;
use crate::math::{bounded, counted, higher, lower, product, share};
use vstd::prelude::*;

verus! {

impl BitrateController {
    /// A wall that licenses this rate bounds the session: it is not nothing,
    /// and it is under what the stream can use anyway.
    pub open spec fn wall_binds(self, park_kbps: u32) -> bool {
        &&& self.enabled
        &&& park_kbps > 0
        &&& (self.ceiling.stream_cap_kbps is None || park_kbps < self.ceiling.stream_cap_kbps->0)
    }

    /// The state after [`note_measured_wall`](Self::note_measured_wall).
    pub open spec fn walled(self, park_kbps: u32, delivered_kbps: u32) -> Self {
        if self.wall_binds(park_kbps) {
            BitrateController {
                link: self.link.after_measurement(park_kbps, delivered_kbps, self.floor_kbps),
                ..self
            }
        } else {
            self
        }
    }

    /// A wall a deliberate measurement found, and the rate it licenses. One
    /// reading latches it, and from there it is a cap like any other.
    pub fn note_measured_wall(&mut self, park_kbps: u32, delivered_kbps: u32)
        requires
            old(self).wf(),
        ensures
            final(self).wf(),
            *final(self) == old(self).walled(park_kbps, delivered_kbps),
    {
        let beyond = match self.ceiling.stream_cap_kbps {
            Some(c) => park_kbps >= c,
            None => false,
        };
        if !self.enabled || park_kbps == 0 || beyond {
            return;
        }
        let mut link: LinkWall = self.link;
        link.measure(park_kbps, delivered_kbps, self.floor_kbps);
        self.link = link;
    }

    /// The state after [`note_link_mark`](Self::note_link_mark).
    pub open spec fn marked(self, delivered_kbps: u32) -> Self {
        if self.enabled && delivered_kbps > 0 {
            BitrateController { link: self.link.marked(delivered_kbps, self.floor_kbps), ..self }
        } else {
            self
        }
    }

    /// What a cut the link earned delivered: one mark toward the wall.
    pub fn note_link_mark(&mut self, delivered_kbps: u32)
        requires
            old(self).wf(),
        ensures
            final(self).wf(),
            *final(self) == old(self).marked(delivered_kbps),
    {
        if !self.enabled || delivered_kbps == 0 {
            return;
        }
        let mut link: LinkWall = self.link;
        link.mark(delivered_kbps, self.floor_kbps);
        self.link = link;
    }

    /// The state and the ask after the window answered a lift. A refusal
    /// retreats to the cap, guards the queue the lift filled, and is named
    /// after the delay unless other damage said it first.
    pub open spec fn lift_judged(self, w: WindowSample) -> (Self, Option<u32>) {
        let evidence = self.causes.link_evidence;
        let judged = BitrateController {
            link: self.link.judged(
                w,
                self.current_kbps,
                evidence,
                self.ceiling.share_cap is Some,
                self.floor_kbps,
            ),
            ..self
        };
        match self.link.refusal(w, self.current_kbps, evidence) {
            None => (judged, None),
            Some(refusal) => (
                BitrateController {
                    drain: DrainGuard::armed(self.norms.delay_mark()),
                    streaks: Streaks { bad_windows: 0, ..self.streaks },
                    decoder: DecoderLoad { streak_windows: 0, ..self.decoder },
                    causes: Causes {
                        last_cut: Some(
                            if refusal.by_delay {
                                Reason::Owd
                            } else {
                                self.causes.last_reason
                            },
                        ),
                        ..self.causes
                    },
                    ..judged
                }.requested(refusal.cap_kbps, w.now),
                Some(refusal.cap_kbps),
            ),
        }
    }

    fn judge_lift(&mut self, w: &WindowSample) -> (ask: Option<u32>)
        requires
            old(self).wf(),
        ensures
            final(self).wf(),
            (*final(self), ask) == old(self).lift_judged(*w),
    {
        let mut link: LinkWall = self.link;
        let refusal = link.judge(
            w,
            self.current_kbps,
            self.causes.link_evidence,
            self.ceiling.share_cap.is_some(),
            self.floor_kbps,
        );
        match refusal {
            None => {
                self.link = link;
                None
            },
            Some(refusal) => {
                *self =
                BitrateController {
                    link,
                    drain: DrainGuard::armed(self.norms.delay_mark()),
                    streaks: Streaks { bad_windows: 0, ..self.streaks },
                    decoder: DecoderLoad { streak_windows: 0, ..self.decoder },
                    causes: Causes {
                        last_cut: Some(
                            if refusal.by_delay {
                                Reason::Owd
                            } else {
                                self.causes.last_reason
                            },
                        ),
                        ..self.causes
                    },
                    ..*self
                };
                self.request(refusal.cap_kbps, w.now)
            },
        }
    }

    /// The frame budget a step's answer is measured in.
    #[verifier::allow_in_spec]
    pub fn encode_budget_us(&self) -> i64
        returns
            (match self.frame_budget_us {
                Some(us) => us,
                None => (encode_thresholds(None).0 * 2) as i64,
            }),
    {
        match self.frame_budget_us {
            Some(us) => us,
            None => encode_thresholds(None).0 * 2,
        }
    }

    /// The state and the ask after the encoder's answer to a notch. One it
    /// followed is the rate's doing; one it did not is given back, and the
    /// driver stands down.
    pub open spec fn encode_judged(self, w: WindowSample, v: Verdict) -> (Self, Option<u32>) {
        let (encoder, answer) = self.encoder.judged(
            self.current_kbps,
            w.encode_mean_us,
            !v.quiet && !v.starved,
            self.encode_budget_us(),
        );
        match answer {
            EncodeAnswer::Waiting => (BitrateController { encoder, ..self }, None),
            EncodeAnswer::Followed => (
                BitrateController {
                    encoder,
                    causes: Causes { rate_verdict: true, ..self.causes },
                    ..self
                },
                None,
            ),
            EncodeAnswer::Restore(kbps) => (
                BitrateController {
                    encoder,
                    baselines: Baselines { encode: RollingMin::new(), ..self.baselines },
                    ..self
                }.requested(kbps, w.now),
                Some(kbps),
            ),
        }
    }

    fn judge_encode_step(&mut self, w: &WindowSample, v: &Verdict) -> (ask: Option<u32>)
        requires
            old(self).wf(),
        ensures
            final(self).wf(),
            (*final(self), ask) == old(self).encode_judged(*w, *v),
    {
        let budget_us: i64 = self.encode_budget_us();
        let mut encoder: EncoderLoad = self.encoder;
        let answer = encoder.judge(
            self.current_kbps,
            w.encode_mean_us,
            !v.quiet && !v.starved,
            budget_us,
        );
        match answer {
            EncodeAnswer::Waiting => {
                self.encoder = encoder;
                None
            },
            EncodeAnswer::Followed => {
                *self =
                BitrateController {
                    encoder,
                    causes: Causes { rate_verdict: true, ..self.causes },
                    ..*self
                };
                None
            },
            EncodeAnswer::Restore(kbps) => {
                let mut baselines: Baselines = self.baselines;
                baselines.clear_encode();
                *self = BitrateController { encoder, baselines, ..*self };
                self.request(kbps, w.now)
            },
        }
    }

    /// Where a cut the link earned lands.
    ///
    /// What the window delivered, put back into target units by the rate's
    /// own norm so that neither the content's fill nor the parity share is
    /// charged to the link; less the margin that drains the queue; and never
    /// further than one step from the rate the session is running at.
    pub open spec fn link_cut(self, delivered_kbps: u32) -> u32 {
        let base = self.cut_base_kbps();
        let target = match self.norms.delivery_reference() {
            Some(reference) => if reference > 0 {
                ((delivered_kbps * base) as u64 / reference as u64) as u32
            } else {
                delivered_kbps
            },
            None => delivered_kbps,
        };
        higher(
            higher(
                lower(share(target, LINK_CUT_PCT), share(base, LINK_CUT_PCT)),
                share(base, LINK_CUT_FLOOR_PCT),
            ),
            self.floor_kbps,
        )
    }

    pub fn link_cut_kbps(&self, delivered_kbps: u32) -> (kbps: u32)
        ensures
            kbps == self.link_cut(delivered_kbps),
    {
        let base: u32 = self.cut_base_kbps();
        let target: u32 = match self.norms.delivery_reference() {
            Some(reference) => {
                if reference > 0 {
                    let scaled: u64 = product(delivered_kbps, base);
                    #[verifier::truncate]
                    ((scaled / reference as u64) as u32)
                } else {
                    delivered_kbps
                }
            },
            None => delivered_kbps,
        };
        higher(
            higher(
                lower(share(target, LINK_CUT_PCT), share(base, LINK_CUT_PCT)),
                share(base, LINK_CUT_FLOOR_PCT),
            ),
            self.floor_kbps,
        )
    }

    /// Where a backoff lands: on what the link delivered when it fell short,
    /// and on the blind share of the rate otherwise.
    pub open spec fn cut(self, delivered_kbps: u32) -> u32 {
        if self.causes.link_verdict {
            self.link_cut(delivered_kbps)
        } else {
            higher(share(self.cut_base_kbps(), BLIND_CUT_PCT), self.floor_kbps)
        }
    }

    /// The state after a cut to `next`, asked for at `now`.
    pub open spec fn cut_to(self, next: u32, now: u64) -> Self {
        BitrateController {
            climb_since_backoff: false,
            low_rate_warned: self.low_rate_warned || next < LOW_RATE_WARN_KBPS,
            streaks: Streaks { bad_windows: 0, ..self.streaks },
            decoder: DecoderLoad { streak_windows: 0, ..self.decoder },
            causes: Causes { last_cut: self.causes.streak_cut, ..self.causes },
            ..self
        }.requested(next, now)
    }

    fn ask_cut(&mut self, next: u32, now: u64) -> (ask: Option<u32>)
        requires
            old(self).wf(),
        ensures
            final(self).wf(),
            *final(self) == old(self).cut_to(next, now),
            ask == Some(next),
    {
        *self =
        BitrateController {
            climb_since_backoff: false,
            low_rate_warned: self.low_rate_warned || next < LOW_RATE_WARN_KBPS,
            streaks: Streaks { bad_windows: 0, ..self.streaks },
            decoder: DecoderLoad { streak_windows: 0, ..self.decoder },
            causes: Causes { last_cut: self.causes.streak_cut, ..self.causes },
            ..*self
        };
        self.request(next, now)
    }

    /// The state and the ask after an encode-named backoff: one notch, and
    /// nothing at all while one is being judged.
    pub open spec fn encode_retreated(self, w: WindowSample) -> (Self, Option<u32>) {
        match self.encoder.next_notch(w.encode_mean_us, self.current_kbps, self.floor_kbps) {
            None => (self, None),
            Some(next) => (
                BitrateController {
                    encoder: self.encoder.notched(w.encode_mean_us->0, self.current_kbps),
                    ..self
                }.cut_to(next, w.now),
                Some(next),
            ),
        }
    }

    fn retreat_encode(&mut self, w: &WindowSample) -> (ask: Option<u32>)
        requires
            old(self).wf(),
        ensures
            final(self).wf(),
            (*final(self), ask) == old(self).encode_retreated(*w),
    {
        let next: Option<u32> = self.encoder.next_notch(
            w.encode_mean_us,
            self.current_kbps,
            self.floor_kbps,
        );
        match (next, w.encode_mean_us) {
            (Some(next), Some(mean_us)) => {
                let mut encoder: EncoderLoad = self.encoder;
                encoder.take_notch(mean_us, self.current_kbps);
                self.encoder = encoder;
                self.ask_cut(next, w.now)
            },
            _ => None,
        }
    }

    /// The state after what a backoff teaches: the decoder's knee, and the
    /// wall where the link is what a climbed-to rate met. The queue a
    /// link-made cut leaves is guarded.
    pub open spec fn taught(self, w: WindowSample, v: Verdict) -> Self {
        let knee = BitrateController {
            decoder: self.decoder.backed_off(
                w,
                v,
                self.current_kbps,
                self.climb_since_backoff,
                self.floor_kbps,
            ),
            ..self
        };
        let wall = if self.causes.link_evidence && self.climb_since_backoff {
            knee.marked(w.actual_kbps)
        } else {
            knee
        };
        BitrateController {
            drain: if self.causes.link_evidence {
                DrainGuard::armed(self.norms.delay_mark())
            } else {
                self.drain
            },
            ..wall
        }
    }

    fn learn_from_cut(&mut self, w: &WindowSample, v: &Verdict)
        requires
            old(self).wf(),
        ensures
            final(self).wf(),
            *final(self) == old(self).taught(*w, *v),
    {
        let mut decoder: DecoderLoad = self.decoder;
        decoder.learn_knee(w, v, self.current_kbps, self.climb_since_backoff, self.floor_kbps);
        self.decoder = decoder;
        if self.causes.link_evidence && self.climb_since_backoff {
            self.note_link_mark(w.actual_kbps);
        }
        if self.causes.link_evidence {
            self.arm_drain();
        }
    }

    /// The state and the ask after a backoff.
    pub open spec fn backed_off(self, w: WindowSample, v: Verdict) -> (Self, Option<u32>) {
        if encode_named(&w, &v) {
            self.encode_retreated(w)
        } else {
            let taught = self.taught(w, v);
            (taught.cut_to(taught.cut(w.actual_kbps), w.now), Some(taught.cut(w.actual_kbps)))
        }
    }

    fn back_off(&mut self, w: &WindowSample, v: &Verdict) -> (ask: Option<u32>)
        requires
            old(self).wf(),
        ensures
            final(self).wf(),
            (*final(self), ask) == old(self).backed_off(*w, *v),
    {
        if encode_named(w, v) {
            return self.retreat_encode(w);
        }
        self.learn_from_cut(w, v);
        let next: u32 = if self.causes.link_verdict {
            self.link_cut_kbps(w.actual_kbps)
        } else {
            higher(share(self.cut_base_kbps(), BLIND_CUT_PCT), self.floor_kbps)
        };
        self.ask_cut(next, w.now)
    }

    /// A clean moving window at the refresh's own frame rate, with a decode
    /// time and a budget to hold it against.
    pub open spec fn headroom_readable(self, w: WindowSample, v: Verdict) -> bool {
        &&& self.frame_budget_us is Some
        &&& self.frame_budget_us->0 > 0
        &&& v.decode_mean_us is Some
        &&& !v.bad
        &&& !v.quiet
        &&& !v.starved
        &&& (match w.activity {
            WindowActivity::Active(n) => n * DECODE_FULL_RATE_DEN >= (WINDOW_US
                / self.frame_budget_us->0) * DECODE_FULL_RATE_NUM,
            _ => true,
        })
    }

    /// The state and the ask after the decoder's headroom was read.
    pub open spec fn headroom_judged(self, w: WindowSample, v: Verdict) -> (Self, Option<u32>) {
        if !self.headroom_readable(w, v) {
            (self, None)
        } else {
            let (decoder, ask) = self.decoder.judged(
                v.decode_mean_us->0,
                self.frame_budget_us->0,
                self.current_kbps,
                self.floor_kbps,
            );
            match ask {
                None => (BitrateController { decoder, ..self }, None),
                Some(kbps) => (
                    BitrateController {
                        decoder,
                        ceiling: Ceiling { ask_kbps: kbps, ..self.ceiling },
                        ..self
                    }.requested(kbps, w.now),
                    Some(kbps),
                ),
            }
        }
    }

    fn judge_headroom(&mut self, w: &WindowSample, v: &Verdict) -> (ask: Option<u32>)
        requires
            old(self).wf(),
        ensures
            final(self).wf(),
            (*final(self), ask) == old(self).headroom_judged(*w, *v),
    {
        let budget_us: i64 = match self.frame_budget_us {
            Some(us) => us,
            None => {
                return None;
            },
        };
        let mean_us: i64 = match v.decode_mean_us {
            Some(us) => us,
            None => {
                return None;
            },
        };
        if budget_us <= 0 || v.bad || v.quiet || v.starved {
            return None;
        }
        assert(0 <= 750_000int / budget_us as int <= 750_000) by (nonlinear_arith)
            requires
                budget_us > 0,
        ;
        let full: i64 = WINDOW_US / budget_us;
        if let WindowActivity::Active(n) = w.activity {
            if (n as i64) * DECODE_FULL_RATE_DEN < full * DECODE_FULL_RATE_NUM {
                return None;
            }
        }
        let mut decoder: DecoderLoad = self.decoder;
        let ask: Option<u32> = decoder.judge_decode_headroom(
            mean_us,
            budget_us,
            self.current_kbps,
            self.floor_kbps,
        );
        match ask {
            None => {
                self.decoder = decoder;
                None
            },
            Some(kbps) => {
                *self =
                BitrateController {
                    decoder,
                    ceiling: Ceiling { ask_kbps: kbps, ..self.ceiling },
                    ..*self
                };
                self.request(kbps, w.now)
            },
        }
    }

    /// The lowest of every bound on the climb: the link's, the host's, the
    /// decoder's, the wall's and the share's.
    #[verifier::allow_in_spec]
    pub fn effective_ceiling(&self) -> u32
        returns
            bounded(
                bounded(
                    bounded(bounded(self.ceiling.kbps, self.host.cap.kbps), self.decoder.cap.kbps),
                    self.link.cap.kbps,
                ),
                self.ceiling.share_cap,
            ),
    {
        bounded(
            bounded(
                bounded(bounded(self.ceiling.kbps, self.host.cap.kbps), self.decoder.cap.kbps),
                self.link.cap.kbps,
            ),
            self.ceiling.share_cap,
        )
    }

    /// The session runs above a ceiling it was not yet asked down to.
    pub open spec fn overshoots(self) -> bool {
        let target = higher(self.effective_ceiling(), self.floor_kbps);
        self.current_kbps > target && self.ceiling.ask_kbps != target
    }

    /// Doubling is allowed: nothing was wrong, the last window was clean, and
    /// no blip is holding it.
    pub open spec fn doubles(self) -> bool {
        self.probing && self.streaks.clean_windows >= 1 && self.streaks.blip_hold == 0
    }

    /// How far this window lets the rate climb: to the effective ceiling, and
    /// no further than the proven rate licenses.
    pub open spec fn climb_cap(self, w: WindowSample) -> u32 {
        lower(
            self.effective_ceiling(),
            proven_target_cap(self.proven.mark(), proration(w.activity, self.frame_budget_us)),
        )
    }

    /// The window earns a climb.
    pub open spec fn climbs(self, w: WindowSample) -> bool {
        &&& !self.host.cadence_hold.down
        &&& self.current_kbps < self.effective_ceiling()
        &&& utilized(
            w.activity,
            proration(w.activity, self.frame_budget_us),
            w.actual_kbps,
            self.current_kbps,
        )
        &&& self.climb_cap(w) > self.current_kbps
        &&& (self.doubles() || self.streaks.clean_windows >= CLEAN_WINDOWS_TO_INCREASE)
    }

    /// The state and the ask of a window with nothing wrong with it: down to
    /// a ceiling the session is above, once, or a step up toward it.
    pub open spec fn climbed(self, w: WindowSample) -> (Self, Option<u32>) {
        if self.overshoots() {
            let target = higher(self.effective_ceiling(), self.floor_kbps);
            (
                BitrateController {
                    ceiling: Ceiling { ask_kbps: target, ..self.ceiling },
                    ..self
                }.requested(target, w.now),
                Some(target),
            )
        } else if self.climbs(w) {
            let next = climb_step(self.current_kbps, self.climb_cap(w), self.doubles());
            (
                BitrateController {
                    streaks: Streaks { clean_windows: 0, ..self.streaks },
                    ..self
                }.requested(next, w.now),
                Some(next),
            )
        } else {
            (self, None)
        }
    }

    fn climb(&mut self, w: &WindowSample) -> (ask: Option<u32>)
        requires
            old(self).wf(),
        ensures
            final(self).wf(),
            (*final(self), ask) == old(self).climbed(*w),
    {
        proof {
            lemma_proration_wf(w.activity, self.frame_budget_us);
        }
        let p: Proration = proration(w.activity, self.frame_budget_us);
        let full = utilized(w.activity, p, w.actual_kbps, self.current_kbps);
        let ceiling: u32 = self.effective_ceiling();
        let target: u32 = higher(ceiling, self.floor_kbps);
        if self.current_kbps > target && self.ceiling.ask_kbps != target {
            self.ceiling = Ceiling { ask_kbps: target, ..self.ceiling };
            return self.request(target, w.now);
        }
        if self.host.cadence_hold.disarmed() {
            return None;
        }
        let cap: u32 = lower(ceiling, proven_target_cap(self.proven.mark(), p));
        if self.current_kbps < ceiling && full && cap > self.current_kbps {
            let slow_start = self.probing && self.streaks.clean_windows >= 1
                && self.streaks.blip_hold == 0;
            if slow_start || self.streaks.clean_windows >= CLEAN_WINDOWS_TO_INCREASE {
                let next: u32 = climb_step(self.current_kbps, cap, slow_start);
                self.streaks = Streaks { clean_windows: 0, ..self.streaks };
                return self.request(next, w.now);
            }
        }
        None
    }

    /// The last request is old enough for another.
    #[verifier::allow_in_spec]
    pub fn cooled(&self, now: u64) -> bool
        returns
            (match self.asks.last_change {
                Some(t) => now >= t && now - t >= CHANGE_COOLDOWN,
                None => true,
            }),
    {
        match self.asks.last_change {
            Some(t) => now >= t && now - t >= CHANGE_COOLDOWN,
            None => true,
        }
    }

    /// The damage calls for a decrease the rate has room for.
    pub open spec fn must_back_off(self, v: Verdict) -> bool {
        &&& (self.streaks.bad_windows >= BAD_WINDOWS_TO_DECREASE || (v.severe
            && self.streaks.bad_windows >= 1))
        &&& self.current_kbps > self.floor_kbps
    }

    /// The state after the drain guard kept a cut off.
    pub open spec fn suppressed(self) -> Self {
        BitrateController {
            drain: DrainGuard { suppressed: counted(self.drain.suppressed), ..self.drain },
            streaks: Streaks { bad_windows: 0, ..self.streaks },
            decoder: DecoderLoad { streak_windows: 0, ..self.decoder },
            ..self
        }
    }

    /// The state and the ask once lifts and notches in flight have had their
    /// say: a decrease, room for the decoder, or a climb.
    #[verifier::opaque]
    pub open spec fn decided(self, w: WindowSample, v: Verdict, draining: bool) -> (
        Self,
        Option<u32>,
    ) {
        if self.must_back_off(v) {
            if draining && !encode_named(&w, &v) {
                (self.suppressed(), None)
            } else {
                self.backed_off(w, v)
            }
        } else {
            let (read, ask) = self.headroom_judged(w, v);
            if ask is Some {
                (read, ask)
            } else {
                read.climbed(w)
            }
        }
    }

    fn decide(&mut self, w: &WindowSample, v: &Verdict, draining: bool) -> (ask: Option<u32>)
        requires
            old(self).wf(),
        ensures
            final(self).wf(),
            (*final(self), ask) == old(self).decided(*w, *v, draining),
    {
        proof {
            reveal(BitrateController::decided);
        }
        if (self.streaks.bad_windows >= BAD_WINDOWS_TO_DECREASE || (v.severe
            && self.streaks.bad_windows >= 1)) && self.current_kbps > self.floor_kbps {
            if draining && !encode_named(w, v) {
                *self =
                BitrateController {
                    drain: DrainGuard { suppressed: counted(self.drain.suppressed), ..self.drain },
                    streaks: Streaks { bad_windows: 0, ..self.streaks },
                    decoder: DecoderLoad { streak_windows: 0, ..self.decoder },
                    ..*self
                };
                return None;
            }
            return self.back_off(w, v);
        }
        let ask: Option<u32> = self.judge_headroom(w, v);
        if ask.is_some() {
            return ask;
        }
        self.climb(w)
    }

    /// The state and the ask of a window past the cooldown. A lift the link
    /// refused comes first: the session was fine at the cap a window ago.
    #[verifier::opaque]
    pub open spec fn answered(self, w: WindowSample, v: Verdict, draining: bool) -> (
        Self,
        Option<u32>,
    ) {
        let (lifted, retreat) = self.lift_judged(w);
        if retreat is Some {
            (lifted, retreat)
        } else {
            let (notched, restore) = lifted.encode_judged(w, v);
            if restore is Some {
                (notched, restore)
            } else {
                notched.decided(w, v, draining)
            }
        }
    }

    fn answer(&mut self, w: &WindowSample, v: &Verdict, draining: bool) -> (ask: Option<u32>)
        requires
            old(self).wf(),
        ensures
            final(self).wf(),
            (*final(self), ask) == old(self).answered(*w, *v, draining),
    {
        proof {
            reveal(BitrateController::answered);
        }
        let retreat: Option<u32> = self.judge_lift(w);
        if retreat.is_some() {
            return retreat;
        }
        let restore: Option<u32> = self.judge_encode_step(w, v);
        if restore.is_some() {
            return restore;
        }
        self.decide(w, v, draining)
    }

    /// The state once the window is scored and folded into every streak and
    /// clock, and the verdict it was scored as.
    #[verifier::opaque]
    pub open spec fn folded(self, w: WindowSample) -> (Self, Verdict) {
        let (scored, v) = self.scored(w);
        (scored.moved(w.activity, v.quiet).noted(w, v).rearmed(w, v).ticked(v), v)
    }

    /// The host never answered: it predates renegotiation.
    pub open spec fn unheard(self) -> bool {
        self.asks.unacked >= MAX_UNACKED
    }

    /// The state and the ask after [`on_window`](Self::on_window).
    #[verifier::opaque]
    pub open spec fn windowed(self, w: WindowSample) -> (Self, Option<u32>) {
        if !self.enabled {
            (self, None)
        } else if self.unheard() {
            (BitrateController { enabled: false, ..self }, None)
        } else {
            let (folded, v) = self.folded(w);
            if folded.cooled(w.now) {
                folded.answered(w, v, self.drain.guards(w))
            } else {
                (folded, None)
            }
        }
    }

    /// Decide whether this window should ask for a new encoder rate.
    ///
    /// Score it, fold it into the streaks and the clocks, then, once the
    /// cooldown allows a change, take the first move it licenses.
    pub fn on_window(&mut self, w: &WindowSample) -> (ask: Option<u32>)
        requires
            old(self).wf(),
        ensures
            final(self).wf(),
            (*final(self), ask) == old(self).windowed(*w),
    {
        proof {
            reveal(BitrateController::windowed);
        }
        if !self.enabled {
            return None;
        }
        if self.asks.unacked >= MAX_UNACKED {
            self.enabled = false;
            return None;
        }
        let (draining, v): (bool, Verdict) = self.fold(w);
        if !self.cooled(w.now) {
            return None;
        }
        self.answer(w, &v, draining)
    }
}

/// A measured wall is held where the session is on and the wall is under what
/// the stream can use; one the stream never reaches, and nothing, change
/// nothing. A cut's delivery marks the wall.
pub proof fn law_a_wall_is_held_where_it_binds(c: BitrateController, park: u32, delivered: u32)
    requires
        park >= c.floor_kbps,
    ensures
        ({
            let binds = c.enabled && park > 0 && (c.ceiling.stream_cap_kbps matches Some(k) ==> park
                < k);
            let after = c.walled(park, delivered);
            &&& binds ==> after.link.cap.kbps == Some(park) && after.link.mark_kbps == delivered
                && after.link.measured
            &&& !binds ==> after == c
            &&& after.ceiling == c.ceiling && after.current_kbps == c.current_kbps
        }),
        !c.enabled || delivered == 0 ==> c.marked(delivered) == c,
        c.enabled && delivered > 0 ==> c.marked(delivered).link.mark_kbps == delivered,
{
}

/// A refused lift asks for the cap it left, guards the queue it filled, starts
/// the bad run over, and is named after the delay where the delay refused it.
pub proof fn law_a_refused_lift_asks_for_its_cap(c: BitrateController, w: WindowSample)
    ensures
        ({
            let (after, ask) = c.lift_judged(w);
            let refusal = c.link.refusal(w, c.current_kbps, c.causes.link_evidence);
            &&& ask is Some <==> refusal is Some
            &&& c.link.lift is None ==> ask is None
            &&& ask matches Some(k) ==> (c.link.lift matches Some(p) && k == p.cap_kbps && k
                < c.current_kbps)
            &&& ask is Some ==> after.streaks.bad_windows == 0 && after.decoder.streak_windows == 0
                && after.drain.windows == 6 && after.drain.ref_us == c.norms.delay_mark()
            &&& refusal matches Some(r) ==> (r.by_delay ==> after.causes.last_cut == Some(
                Reason::Owd,
            ))
            &&& refusal matches Some(r) ==> (!r.by_delay ==> after.causes.last_cut == Some(
                c.causes.last_reason,
            ))
            &&& ask is None ==> after.streaks == c.streaks && after.drain == c.drain && after.causes
                == c.causes && after.asks == c.asks
            &&& after.link == c.link.judged(
                w,
                c.current_kbps,
                c.causes.link_evidence,
                c.ceiling.share_cap is Some,
                c.floor_kbps,
            )
        }),
{
}

/// A notch's answer is read from a window that moved and was fed. One the
/// encoder followed is the rate's doing; one it did not is asked back, and the
/// encode floor is learned anew.
pub proof fn law_a_notch_is_answered_by_the_encoder(
    c: BitrateController,
    w: WindowSample,
    v: Verdict,
)
    requires
        c.wf(),
    ensures
        c.frame_budget_us matches Some(us) ==> c.encode_budget_us() == us,
        c.frame_budget_us is None ==> c.encode_budget_us() == 8_332,
        ({
            let (after, ask) = c.encode_judged(w, v);
            let answer = c.encoder.judged(
                c.current_kbps,
                w.encode_mean_us,
                !v.quiet && !v.starved,
                c.encode_budget_us(),
            ).1;
            &&& c.encoder.probe is None ==> ask is None && after.causes == c.causes
            &&& v.quiet || v.starved ==> ask is None && after.causes == c.causes
            &&& ask matches Some(k) ==> (c.encoder.probe matches Some(p) && k == p.from_kbps && k
                > c.current_kbps)
            &&& ask is Some ==> after.baselines.encode.seen == 0 && after.encoder.down.down
                && after.encoder.probe is None
            &&& ask is None ==> after.baselines == c.baselines && after.asks == c.asks
            &&& answer is Followed ==> after.causes.rate_verdict && ask is None
            &&& answer is Waiting ==> after.causes == c.causes && ask is None
            &&& answer is Restore <==> ask is Some
            &&& after.baselines.owd == c.baselines.owd && after.baselines.decode
                == c.baselines.decode && after.link == c.link && after.decoder == c.decoder
        }),
{
}

/// A cut the link earned takes 85 % of what was delivered, read as a rate by
/// what the rate usually delivers: at most 85 % of the rate it is cut from, at
/// least half of it, and never under the floor.
pub proof fn law_a_link_cut_lands_on_its_delivery(c: BitrateController, delivered: u32)
    ensures
        ({
            let base = c.cut_base_kbps();
            let reference = c.norms.delivery_reference();
            let cut = c.link_cut(delivered);
            let norm: int = match reference {
                Some(k) => if k > 0 {
                    delivered * base / k as int
                } else {
                    delivered as int
                },
                None => delivered as int,
            };
            let want = norm * 85 / 100;
            &&& cut >= c.floor_kbps && cut >= base * 50 / 100
            &&& base >= norm && want >= base * 50 / 100 && want >= c.floor_kbps ==> cut == want
            &&& base >= norm && want < base * 50 / 100 && base * 50 / 100 >= c.floor_kbps ==> cut
                == base * 50 / 100
            &&& base < norm <= u32::MAX && base * 85 / 100 >= c.floor_kbps ==> cut == base * 85 / 100
        }),
{
    let base = c.cut_base_kbps();
    assert(base * 50 / 100 <= base * 85 / 100 <= base) by (nonlinear_arith);
    match c.norms.delivery_reference() {
        Some(k) => {
            if k > 0 {
                assert(0 <= delivered * base <= 0xffff_ffff * 0xffff_ffff) by (nonlinear_arith)
                    requires
                        0 <= delivered <= 0xffff_ffff,
                        0 <= base <= 0xffff_ffff,
                ;
                let target = delivered * base / k as int;
                assert(target >= 0) by (nonlinear_arith)
                    requires
                        target == delivered * base / k as int,
                        delivered * base >= 0,
                        k > 0,
                ;
                assert((delivered * base) as u64 / k as u64 == target);
                if target <= u32::MAX {
                    assert(0 <= target * 85 / 100 <= target) by (nonlinear_arith)
                        requires
                            target >= 0,
                    ;
                    assert(target <= base ==> target * 85 / 100 <= base * 85 / 100)
                        by (nonlinear_arith);
                    assert(target >= base ==> target * 85 / 100 >= base * 85 / 100)
                        by (nonlinear_arith);
                }
            }
        },
        None => {},
    }
    assert(delivered * 85 / 100 <= delivered) by (nonlinear_arith);
    assert(delivered <= base ==> delivered * 85 / 100 <= base * 85 / 100) by (nonlinear_arith);
    assert(delivered >= base ==> delivered * 85 / 100 >= base * 85 / 100) by (nonlinear_arith);
}

/// Any other cut keeps 70 % of the rate; which one it is, the last verdict on
/// the link says.
pub proof fn law_a_blind_cut_keeps_seven_tenths(c: BitrateController, delivered: u32)
    ensures
        c.causes.link_verdict ==> c.cut(delivered) == c.link_cut(delivered),
        !c.causes.link_verdict && c.cut_base_kbps() * 70 / 100 >= c.floor_kbps ==> c.cut(delivered)
            == c.cut_base_kbps() * 70 / 100,
        !c.causes.link_verdict && c.cut_base_kbps() * 70 / 100 < c.floor_kbps ==> c.cut(delivered)
            == c.floor_kbps,
{
}

/// A cut ends the climb and both bad runs, keeps the reason it was made for,
/// and warns once it goes under 5 Mb/s.
pub proof fn law_a_cut_ends_the_climb(c: BitrateController, next: u32, now: u64)
    requires
        c.asks.unacked < u32::MAX,
    ensures
        ({
            let a = c.cut_to(next, now);
            &&& !a.climb_since_backoff
            &&& a.streaks.bad_windows == 0 && a.decoder.streak_windows == 0
            &&& a.streaks.clean_windows == c.streaks.clean_windows
            &&& a.causes.last_cut == c.causes.streak_cut
            &&& a.low_rate_warned <==> c.low_rate_warned || next < 5_000
            &&& a.asks.last_requested_kbps == Some(next) && a.asks.last_change == Some(now)
                && a.asks.unacked == c.asks.unacked + 1
            &&& a.current_kbps == c.current_kbps && a.link == c.link && a.drain == c.drain
        }),
{
}

/// Damage the encoder named, and no loss share behind it, takes one notch off
/// the rate where no notch is being judged; anything else cuts, and teaches.
pub proof fn law_a_backoff_goes_to_its_cause(c: BitrateController, w: WindowSample, v: Verdict)
    ensures
        ({
            let (after, ask) = c.backed_off(w, v);
            let named = v.reason == Reason::Encode && w.loss_ppm < 20_000;
            &&& named && (c.encoder.probe is Some || w.encode_mean_us is None) ==> ask is None
                && after == c
            &&& named && c.encoder.probe is None && w.encode_mean_us is Some ==> (
            ask matches Some(k) && (k == c.floor_kbps || k == c.current_kbps - c.current_kbps / 8)
                && k >= c.floor_kbps && k >= c.current_kbps - c.current_kbps / 8)
            &&& named && c.encoder.probe is None ==> (w.encode_mean_us matches Some(us) ==> (
            after.encoder.probe matches Some(p) && p.from_kbps == c.current_kbps && p.ref_us == us
                && p.samples == 0))
            &&& named ==> after.link == c.link && after.drain == c.drain && after.decoder.cap
                == c.decoder.cap
            &&& !named ==> ask == Some(c.taught(w, v).cut(w.actual_kbps))
            &&& !named ==> after.encoder == c.encoder
            &&& ask is Some ==> !after.climb_since_backoff && after.streaks.bad_windows == 0
                && after.causes.last_cut == c.causes.streak_cut
        }),
{
}

/// What a cut teaches: evidence of the link guards the queue, and marks the
/// wall with what was delivered where the session had climbed; without such
/// evidence the wall and the guard are left alone.
pub proof fn law_a_cut_teaches_the_wall(c: BitrateController, w: WindowSample, v: Verdict)
    ensures
        ({
            let t = c.taught(w, v);
            &&& c.causes.link_evidence ==> t.drain.windows == 6 && t.drain.ref_us
                == c.norms.delay_mark()
            &&& !c.causes.link_evidence ==> t.drain == c.drain && t.link == c.link
            &&& c.causes.link_evidence && !c.climb_since_backoff ==> t.link == c.link
            &&& c.causes.link_evidence && c.climb_since_backoff && c.enabled && w.actual_kbps > 0
                ==> t.link.mark_kbps == w.actual_kbps
            &&& t.decoder == c.decoder.backed_off(
                w,
                v,
                c.current_kbps,
                c.climb_since_backoff,
                c.floor_kbps,
            )
            &&& t.norms == c.norms && t.causes == c.causes && t.asks == c.asks && t.encoder
                == c.encoder
        }),
{
}

/// Headroom is read on a clean window that moved, was fed, knows its decode
/// time and its budget, and had three quarters of the refresh's frames. An ask
/// for room is remembered, and asked for.
pub proof fn law_headroom_is_read_on_full_windows(c: BitrateController, w: WindowSample, v: Verdict)
    ensures
        ({
            let (after, ask) = c.headroom_judged(w, v);
            let ready = !v.bad && !v.quiet && !v.starved && v.decode_mean_us is Some && (
            c.frame_budget_us matches Some(us) && us > 0);
            let thin = w.activity matches WindowActivity::Active(n) && (
            c.frame_budget_us matches Some(us) && 4 * n < 3 * (750_000int / us as int));
            &&& !ready || thin ==> ask is None && after == c
            &&& ready && !thin ==> (after.decoder, ask) == c.decoder.judged(
                v.decode_mean_us->0,
                c.frame_budget_us->0,
                c.current_kbps,
                c.floor_kbps,
            )
            &&& ask matches Some(k) ==> after.ceiling.ask_kbps == k
                && after.asks.last_requested_kbps == Some(k)
            &&& ask is None ==> after.asks == c.asks && after.ceiling == c.ceiling
            &&& after.streaks == c.streaks && after.causes == c.causes && after.link == c.link
        }),
{
}

/// The ceiling that binds is the lowest of all: the session's own, the host's,
/// the decoder's, the wall's and the share's.
pub proof fn law_the_lowest_ceiling_binds(c: BitrateController)
    ensures
        ({
            let k = c.effective_ceiling();
            &&& k <= c.ceiling.kbps
            &&& c.host.cap.kbps matches Some(b) ==> k <= b
            &&& c.decoder.cap.kbps matches Some(b) ==> k <= b
            &&& c.link.cap.kbps matches Some(b) ==> k <= b
            &&& c.ceiling.share_cap matches Some(b) ==> k <= b
            &&& k == c.ceiling.kbps || c.host.cap.kbps == Some(k) || c.decoder.cap.kbps == Some(k)
                || c.link.cap.kbps == Some(k) || c.ceiling.share_cap == Some(k)
        }),
{
}

/// A session above its ceiling is asked down to it, or to the floor, once. One
/// under it climbs on a full window it has proved the rate for, after six
/// clean windows, or after one while it doubles; a busy host holds it.
pub proof fn law_a_climb_is_earned(c: BitrateController, w: WindowSample)
    ensures
        ({
            let (after, ask) = c.climbed(w);
            let top = c.effective_ceiling();
            let target = if top >= c.floor_kbps {
                top
            } else {
                c.floor_kbps
            };
            let p = proration(w.activity, c.frame_budget_us);
            let full = super::growth::fills(w.activity, p, w.actual_kbps, c.current_kbps);
            let license = super::growth::licensed(c.proven.mark(), p);
            let doubles = c.probing && c.streaks.clean_windows >= 1 && c.streaks.blip_hold == 0;
            let over = c.current_kbps > target && c.ceiling.ask_kbps != target;
            let earns = !c.host.cadence_hold.down && c.current_kbps < top && full && license
                > c.current_kbps && (doubles || c.streaks.clean_windows >= 6);
            let cap = if license < top {
                license
            } else {
                top
            };
            let step: int = if doubles {
                2 * c.current_kbps
            } else {
                c.current_kbps + c.current_kbps / 16 + 1
            };
            &&& over ==> ask == Some(target) && after.ceiling.ask_kbps == target && after.streaks
                == c.streaks
            &&& !over && !earns ==> ask is None && after == c
            &&& !over && earns && step <= cap ==> (ask matches Some(k) && k == step)
            &&& !over && earns && step > cap ==> ask == Some(cap)
            &&& !over && earns ==> after.streaks.clean_windows == 0 && after.ceiling == c.ceiling
            &&& after.probing == c.probing && after.link == c.link && after.causes == c.causes
        }),
{
}

/// Two requests are a second and a half apart; the first needs no wait.
pub proof fn law_requests_are_apart(c: BitrateController, now: u64)
    ensures
        c.asks.last_change is None ==> c.cooled(now),
        c.asks.last_change matches Some(t) ==> (c.cooled(now) <==> now >= t + 1_500_000_000),
{
}

/// Two bad windows, or one severe one, cut a rate that is above the floor; a
/// window that emptied the last cut's queue only starts the count over.
pub proof fn law_a_cut_takes_two_bad_windows(
    c: BitrateController,
    w: WindowSample,
    v: Verdict,
    draining: bool,
)
    requires
        c.drain.suppressed < u32::MAX,
    ensures
        ({
            let (after, ask) = c.decided(w, v, draining);
            let cuts = c.current_kbps > c.floor_kbps && (c.streaks.bad_windows >= 2 || (v.severe
                && c.streaks.bad_windows == 1));
            let named = v.reason == Reason::Encode && w.loss_ppm < 20_000;
            &&& cuts && draining && !named ==> ask is None && after.streaks.bad_windows == 0
                && after.drain.suppressed == c.drain.suppressed + 1 && after.asks == c.asks
                && after.drain.windows == c.drain.windows && after.link == c.link
            &&& cuts && (!draining || named) ==> (after, ask) == c.backed_off(w, v)
            &&& !cuts && c.headroom_judged(w, v).1 is Some ==> (after, ask) == c.headroom_judged(
                w,
                v,
            )
            &&& !cuts && c.headroom_judged(w, v).1 is None ==> (after, ask) == c.headroom_judged(
                w,
                v,
            ).0.climbed(w)
        }),
{
    reveal(BitrateController::decided);
}

/// The first move a window licenses is its only one: a refused lift before a
/// notch's answer, and that before anything the window itself calls for.
pub proof fn law_the_first_move_wins(
    c: BitrateController,
    w: WindowSample,
    v: Verdict,
    draining: bool,
)
    ensures
        ({
            let (after, ask) = c.answered(w, v, draining);
            let (lifted, retreat) = c.lift_judged(w);
            let (notched, restore) = lifted.encode_judged(w, v);
            &&& retreat is Some ==> (after, ask) == (lifted, retreat)
            &&& retreat is None && restore is Some ==> (after, ask) == (notched, restore)
            &&& retreat is None && restore is None ==> (after, ask) == notched.decided(
                w,
                v,
                draining,
            )
        }),
{
    reveal(BitrateController::answered);
}

/// A controller that is on folds every window in, and acts on one only when
/// the last request is old enough. A host that left three requests unanswered
/// is asked no more.
pub proof fn law_a_window_is_folded_then_acted_on(c: BitrateController, w: WindowSample)
    ensures
        ({
            let (after, ask) = c.windowed(w);
            let (folded, v) = c.folded(w);
            let old_enough = folded.asks.last_change matches Some(t) ==> w.now >= t + 1_500_000_000;
            &&& c.enabled && c.asks.unacked >= 3 ==> ask is None && !after.enabled && after.asks
                == c.asks && after.streaks == c.streaks
            &&& c.enabled && c.asks.unacked < 3 && !old_enough ==> ask is None && after == folded
            &&& c.enabled && c.asks.unacked < 3 && old_enough ==> (after, ask) == folded.answered(
                w,
                v,
                c.drain.guards(w),
            )
            &&& !c.enabled ==> ask is None && after == c
        }),
{
    reveal(BitrateController::windowed);
}

} // verus!
