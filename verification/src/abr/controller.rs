//! The controller: one decision per report window.
//!
//! A severe window backs off at once, ordinary congestion after two bad
//! windows in a row. A window the host's encoder named costs one notch, kept
//! only if the encoder's time follows the rate. Recovery doubles while nothing
//! was ever wrong and climbs a sixteenth at a time after that. Bounds are
//! learned from what the host, the decoder and the link refuse, and each is
//! tested again on its own clock.

use super::cap::StandDown;
use super::decoder::DecoderLoad;
use super::drain::DrainGuard;
use super::encoder::EncoderLoad;
use super::governor::NO_SHARE_KBPS;
use super::growth::Proven;
use super::host::HostLimits;
use super::norms::RateNorms;
use super::verdict::{Baselines, Reason};
use super::wall::LinkWall;
use crate::math::{bounded, counted, higher, lower, spent};
use crate::quic::AckReason;
use vstd::prelude::*;

verus! {

/// No measurement takes the session under this: a thin link is better served
/// soft than lossy.
pub const FLOOR_KBPS: u32 = 2_000;

/// Unanswered requests before the host is taken to know none.
pub const MAX_UNACKED: u32 = 3;

/// Where climbs end, and who said so.
#[derive(Clone, Copy, Debug, PartialEq, Eq, Structural)]
pub struct Ceiling {
    pub kbps: u32,
    /// The operator's bound on every ceiling.
    pub cap_kbps: Option<u32>,
    /// The ceiling is still the negotiated guess: nothing was measured, and
    /// nothing ruled a measurement out.
    pub blind: bool,
    /// What the stream's shape can use. Bounds what is learned, not what was
    /// negotiated.
    pub stream_cap_kbps: Option<u32>,
    /// This session's share of a divided path. The host owns both directions,
    /// so there is no clock here.
    pub share_cap: Option<u32>,
    /// The last ceiling the session was asked down to, `0` for none. Asked
    /// once: a host that answers higher cannot go there.
    pub ask_kbps: u32,
}

impl Ceiling {
    /// What the operator and the stream's shape leave of a rate.
    #[verifier::allow_in_spec]
    pub fn usable(&self, kbps: u32) -> u32
        returns
            bounded(bounded(kbps, self.cap_kbps), self.stream_cap_kbps),
    {
        bounded(bounded(kbps, self.cap_kbps), self.stream_cap_kbps)
    }

    /// The ceiling after a grant at `kbps`.
    pub open spec fn raised(self, kbps: u32) -> Ceiling {
        Ceiling { kbps: higher(self.kbps, self.usable(kbps)), ..self }
    }

    /// The ceiling after a measurement: the first one binds unless it was
    /// clamped on the way in, and any later one only raises.
    pub open spec fn measured(self, kbps: u32, floor_kbps: u32) -> Ceiling {
        Ceiling {
            kbps: if (self.blind && self.usable(kbps) == kbps) || self.usable(kbps) > self.kbps {
                higher(self.usable(kbps), floor_kbps)
            } else {
                self.kbps
            },
            blind: false,
            ..self
        }
    }

    /// The ceiling once it is known that nothing will be measured.
    pub open spec fn unmeasured(self, stream_cap_kbps: u32) -> Ceiling {
        if self.blind {
            Ceiling {
                kbps: higher(bounded(stream_cap_kbps, self.cap_kbps), self.kbps),
                blind: false,
                ..self
            }
        } else {
            self
        }
    }
}

/// Requests on their way to the host.
#[derive(Clone, Copy, Debug, PartialEq, Eq, Structural)]
pub struct Asks {
    /// When the last one went out.
    pub last_change: Option<u64>,
    /// How many have gone unanswered.
    pub unacked: u32,
    /// The one the next acknowledgement answers.
    pub last_requested_kbps: Option<u32>,
}

/// Windows in a row.
#[derive(Clone, Copy, Debug, PartialEq, Eq, Structural)]
pub struct Streaks {
    pub bad_windows: u32,
    pub clean_windows: u32,
    /// Fully still ones.
    pub idle_windows: u32,
    /// Clean full ones since a verdict the rate did not cause.
    pub rearm_windows: u32,
    /// Left in which a second lone lost frame is ordinary damage.
    pub blip_hold: u32,
}

/// What the last bad window and the last cut were for.
#[derive(Clone, Copy, Debug, PartialEq, Eq, Structural)]
pub struct Causes {
    /// The last bad window named something the rate is the lever for.
    pub rate_verdict: bool,
    /// It was the link's, and the link handed over less than it was asked.
    pub link_verdict: bool,
    /// It was the link's.
    pub link_evidence: bool,
    /// What the last window was scored as.
    pub last_reason: Reason,
    /// What made the latest bad window bad.
    pub streak_cut: Option<Reason>,
    /// Why the last backoff happened, until the next climb.
    pub last_cut: Option<Reason>,
}

/// One decision per report window; `Some(kbps)` asks the host for that rate.
#[derive(Clone, Copy, Debug, PartialEq, Eq, Structural)]
pub struct BitrateController {
    /// `false` is off for good.
    pub enabled: bool,
    /// The rate the host acknowledged. A request is not assumed applied.
    pub current_kbps: u32,
    pub floor_kbps: u32,
    pub ceiling: Ceiling,
    pub asks: Asks,
    /// Doubling, until the first congestion.
    pub probing: bool,
    /// The rate has risen since the last backoff.
    pub climb_since_backoff: bool,
    pub low_rate_warned: bool,
    pub streaks: Streaks,
    pub causes: Causes,
    pub norms: RateNorms,
    pub drain: DrainGuard,
    pub link: LinkWall,
    pub host: HostLimits,
    pub decoder: DecoderLoad,
    pub encoder: EncoderLoad,
    pub baselines: Baselines,
    /// One refresh interval.
    pub frame_budget_us: Option<i64>,
    /// The highest clean delivery of late.
    pub proven: Proven,
}

impl BitrateController {
    /// Every clock, probe and floor is inside its own bounds.
    pub open spec fn wf(self) -> bool {
        &&& self.link.wf()
        &&& self.host.wf()
        &&& self.decoder.wf()
        &&& self.encoder.wf()
        &&& self.baselines.wf()
        &&& self.proven.wf()
        &&& (self.frame_budget_us is Some ==> 0 <= self.frame_budget_us->0 <= 1_000_000)
    }

    /// A session at the negotiated rate that knows nothing yet. A rate of `0`
    /// is a session nobody may re-rate.
    pub open spec fn fresh(start_kbps: u32, ceiling_cap_kbps: Option<u32>) -> BitrateController {
        BitrateController {
            enabled: start_kbps > 0,
            current_kbps: start_kbps,
            floor_kbps: lower(FLOOR_KBPS, higher(start_kbps, 1)),
            ceiling: Ceiling {
                kbps: bounded(start_kbps, ceiling_cap_kbps),
                cap_kbps: ceiling_cap_kbps,
                blind: true,
                stream_cap_kbps: None,
                share_cap: None,
                ask_kbps: 0,
            },
            asks: Asks { last_change: None, unacked: 0, last_requested_kbps: None },
            probing: true,
            climb_since_backoff: true,
            low_rate_warned: false,
            streaks: Streaks {
                bad_windows: 0,
                clean_windows: 0,
                idle_windows: 0,
                rearm_windows: 0,
                blip_hold: 0,
            },
            causes: Causes {
                rate_verdict: false,
                link_verdict: false,
                link_evidence: false,
                last_reason: Reason::Clean,
                streak_cut: None,
                last_cut: None,
            },
            norms: RateNorms::new(),
            drain: DrainGuard::new(),
            link: LinkWall::new(),
            host: HostLimits::new(),
            decoder: DecoderLoad::new(),
            encoder: EncoderLoad::new(),
            baselines: Baselines::new(),
            frame_budget_us: None,
            proven: Proven::new(),
        }
    }

    /// A controller for a session negotiated at `start_kbps`. The operator's
    /// bound holds for the negotiated rate too.
    pub fn new(start_kbps: u32, ceiling_cap_kbps: Option<u32>) -> (c: Self)
        ensures
            c.wf(),
            c == BitrateController::fresh(start_kbps, ceiling_cap_kbps),
    {
        BitrateController {
            enabled: start_kbps > 0,
            current_kbps: start_kbps,
            floor_kbps: lower(FLOOR_KBPS, higher(start_kbps, 1)),
            ceiling: Ceiling {
                kbps: bounded(start_kbps, ceiling_cap_kbps),
                cap_kbps: ceiling_cap_kbps,
                blind: true,
                stream_cap_kbps: None,
                share_cap: None,
                ask_kbps: 0,
            },
            asks: Asks { last_change: None, unacked: 0, last_requested_kbps: None },
            probing: true,
            climb_since_backoff: true,
            low_rate_warned: false,
            streaks: Streaks {
                bad_windows: 0,
                clean_windows: 0,
                idle_windows: 0,
                rearm_windows: 0,
                blip_hold: 0,
            },
            causes: Causes {
                rate_verdict: false,
                link_verdict: false,
                link_evidence: false,
                last_reason: Reason::Clean,
                streak_cut: None,
                last_cut: None,
            },
            norms: RateNorms::new(),
            drain: DrainGuard::new(),
            link: LinkWall::new(),
            host: HostLimits::new(),
            decoder: DecoderLoad::new(),
            encoder: EncoderLoad::new(),
            baselines: Baselines::new(),
            frame_budget_us: None,
            proven: Proven::new(),
        }
    }

    /// The signal that decided the last window.
    #[verifier::allow_in_spec]
    pub fn last_reason(&self) -> Reason
        returns
            self.causes.last_reason,
    {
        self.causes.last_reason
    }

    /// Why the rate was last cut, while it has not climbed since.
    #[verifier::allow_in_spec]
    pub fn last_cut(&self) -> Option<Reason>
        returns
            self.causes.last_cut,
    {
        self.causes.last_cut
    }

    /// The state after [`set_ceiling`](Self::set_ceiling).
    pub open spec fn with_ceiling(self, kbps: u32) -> Self {
        if self.enabled {
            BitrateController { ceiling: self.ceiling.measured(kbps, self.floor_kbps), ..self }
        } else {
            self
        }
    }

    /// A measured link capacity. The first one binds, up or down: the rate
    /// the session was negotiated at says nothing about the link. Later ones
    /// only raise, and a clamped one never binds downward.
    pub fn set_ceiling(&mut self, kbps: u32)
        requires
            old(self).wf(),
        ensures
            final(self).wf(),
            *final(self) == old(self).with_ceiling(kbps),
    {
        let measured: u32 = kbps;
        let kbps: u32 = self.ceiling.usable(kbps);
        if !self.enabled {
            return;
        }
        let clamped = kbps < measured;
        let binds = (self.ceiling.blind && !clamped) || kbps > self.ceiling.kbps;
        self.ceiling =
        Ceiling {
            kbps: if binds {
                higher(kbps, self.floor_kbps)
            } else {
                self.ceiling.kbps
            },
            blind: false,
            ..self.ceiling
        };
    }

    /// The state after [`no_link_evidence`](Self::no_link_evidence).
    pub open spec fn unmeasured(self, stream_cap_kbps: u32) -> Self {
        if self.enabled {
            BitrateController { ceiling: self.ceiling.unmeasured(stream_cap_kbps), ..self }
        } else {
            self
        }
    }

    /// Nothing will measure this session's link. What the stream can use is
    /// the bound then, and every step up to it is still earned.
    pub fn no_link_evidence(&mut self, stream_cap_kbps: u32)
        requires
            old(self).wf(),
        ensures
            final(self).wf(),
            *final(self) == old(self).unmeasured(stream_cap_kbps),
    {
        if !self.ceiling.blind || !self.enabled {
            return;
        }
        self.ceiling =
        Ceiling {
            kbps: higher(bounded(stream_cap_kbps, self.ceiling.cap_kbps), self.ceiling.kbps),
            blind: false,
            ..self.ceiling
        };
    }

    /// The state after [`raise_ceiling`](Self::raise_ceiling).
    pub open spec fn raised(self, kbps: u32) -> Self {
        if self.enabled {
            BitrateController { ceiling: self.ceiling.raised(kbps), ..self }
        } else {
            self
        }
    }

    /// The host granted a rate above the ceiling. It raises, and leaves a
    /// later measurement free to bind.
    pub fn raise_ceiling(&mut self, kbps: u32)
        requires
            old(self).wf(),
        ensures
            final(self).wf(),
            *final(self) == old(self).raised(kbps),
    {
        let kbps: u32 = self.ceiling.usable(kbps);
        if self.enabled && kbps > self.ceiling.kbps {
            self.ceiling.kbps = kbps;
        }
    }

    /// Where a session that measured `kbps` opens.
    #[verifier::allow_in_spec]
    pub fn opening(&self, kbps: u32) -> u32
        returns
            lower(
                bounded(higher(kbps, self.floor_kbps), self.ceiling.cap_kbps),
                self.ceiling.kbps,
            ),
    {
        lower(bounded(higher(kbps, self.floor_kbps), self.ceiling.cap_kbps), self.ceiling.kbps)
    }

    /// The state and the ask after [`start_from_measurement`](Self::start_from_measurement).
    pub open spec fn opened(self, kbps: u32, now: u64) -> (Self, Option<u32>) {
        if self.enabled && self.opening(kbps) != self.current_kbps {
            (self.requested(self.opening(kbps), now), Some(self.opening(kbps)))
        } else {
            (self, None)
        }
    }

    /// Open the session at what the bring-up ramp measured. `None` when there
    /// is nothing to ask for.
    pub fn start_from_measurement(&mut self, kbps: u32, now: u64) -> (ask: Option<u32>)
        requires
            old(self).wf(),
        ensures
            final(self).wf(),
            (*final(self), ask) == old(self).opened(kbps, now),
    {
        let kbps: u32 = self.opening(kbps);
        if !self.enabled || kbps == self.current_kbps {
            return None;
        }
        self.request(kbps, now)
    }

    /// The state after [`set_stream_cap`](Self::set_stream_cap).
    pub open spec fn shaped(self, kbps: u32) -> Self {
        BitrateController {
            ceiling: Ceiling {
                stream_cap_kbps: Some(kbps),
                kbps: if self.ceiling.stream_cap_kbps is Some && self.enabled {
                    lower(self.ceiling.kbps, kbps)
                } else {
                    self.ceiling.kbps
                },
                ..self.ceiling
            },
            ..self
        }
    }

    /// Bound learned ceilings by the stream's shape. The first bound leaves a
    /// negotiated start above it standing; a later one is a mode switch, and
    /// binds.
    pub fn set_stream_cap(&mut self, kbps: u32)
        requires
            old(self).wf(),
        ensures
            final(self).wf(),
            *final(self) == old(self).shaped(kbps),
    {
        let mode_switch = self.ceiling.stream_cap_kbps.is_some();
        self.ceiling =
        Ceiling {
            stream_cap_kbps: Some(kbps),
            kbps: if mode_switch && self.enabled {
                lower(self.ceiling.kbps, kbps)
            } else {
                self.ceiling.kbps
            },
            ..self.ceiling
        };
    }

    /// The state after [`set_frame_budget`](Self::set_frame_budget).
    pub open spec fn budgeted(self, refresh_hz: u32) -> Self {
        if refresh_hz > 0 {
            BitrateController {
                frame_budget_us: Some((1_000_000int / refresh_hz as int) as i64),
                ..self
            }
        } else {
            self
        }
    }

    /// Size the latency thresholds in frame budgets. A refresh of `0` is
    /// nonsense and changes nothing.
    pub fn set_frame_budget(&mut self, refresh_hz: u32)
        requires
            old(self).wf(),
        ensures
            final(self).wf(),
            *final(self) == old(self).budgeted(refresh_hz),
    {
        if refresh_hz > 0 {
            assert(0 <= 1_000_000int / refresh_hz as int <= 1_000_000) by (nonlinear_arith)
                requires
                    refresh_hz > 0,
            ;
            self.frame_budget_us = Some(1_000_000 / refresh_hz as i64);
        }
    }

    /// The state after asking for `kbps`.
    pub open spec fn requested(self, kbps: u32, now: u64) -> Self {
        BitrateController {
            norms: self.norms.forgotten(),
            asks: Asks {
                last_change: Some(now),
                unacked: counted(self.asks.unacked),
                last_requested_kbps: Some(kbps),
            },
            ..self
        }
    }

    /// Ask for `kbps`. The acknowledgement is what moves the rate.
    pub fn request(&mut self, kbps: u32, now: u64) -> (ask: Option<u32>)
        requires
            old(self).wf(),
        ensures
            final(self).wf(),
            *final(self) == old(self).requested(kbps, now),
            ask == Some(kbps),
    {
        let mut norms: RateNorms = self.norms;
        norms.forget();
        let asks = Asks {
            last_change: Some(now),
            unacked: counted(self.asks.unacked),
            last_requested_kbps: Some(kbps),
        };
        *self = BitrateController { norms, asks, ..*self };
        Some(kbps)
    }

    /// The state after [`on_request_dropped`](Self::on_request_dropped).
    pub open spec fn unasked(self) -> Self {
        BitrateController {
            asks: Asks {
                unacked: spent(self.asks.unacked),
                last_requested_kbps: None,
                ..self.asks
            },
            ..self
        }
    }

    /// A request that never left: it counts against nobody, and nothing
    /// answers it.
    pub fn on_request_dropped(&mut self)
        requires
            old(self).wf(),
        ensures
            final(self).wf(),
            *final(self) == old(self).unasked(),
    {
        self.asks =
        Asks { unacked: spent(self.asks.unacked), last_requested_kbps: None, ..self.asks };
    }

    /// What clean windows at this rate have been delivering.
    #[verifier::allow_in_spec]
    pub fn delivery_reference(&self) -> Option<u32>
        returns
            self.norms.delivery_reference(),
    {
        self.norms.delivery_reference()
    }

    /// The rate a cut is measured from: the ask still in flight, when there
    /// is one under the running rate.
    #[verifier::allow_in_spec]
    pub fn cut_base_kbps(&self) -> u32
        returns
            bounded(self.current_kbps, self.asks.last_requested_kbps),
    {
        bounded(self.current_kbps, self.asks.last_requested_kbps)
    }

    /// The state after the host moved the rate on its own to `kbps`.
    pub open spec fn moved_to(self, kbps: u32) -> Self {
        BitrateController {
            current_kbps: kbps,
            norms: if kbps != self.current_kbps {
                self.norms.forgotten()
            } else {
                self.norms
            },
            baselines: if kbps < self.current_kbps {
                Baselines { encode: super::verdict::RollingMin::new(), ..self.baselines }
            } else {
                self.baselines
            },
            ..self
        }
    }

    /// The running rate is `kbps` now. What only the old rate knew goes, and
    /// a lower rate starts the encoder's floor over.
    fn move_to(&mut self, kbps: u32)
        requires
            old(self).wf(),
        ensures
            final(self).wf(),
            *final(self) == old(self).moved_to(kbps),
    {
        let mut baselines: Baselines = self.baselines;
        if kbps < self.current_kbps {
            baselines.clear_encode();
        }
        let mut norms: RateNorms = self.norms;
        if kbps != self.current_kbps {
            norms.forget();
        }
        *self = BitrateController { current_kbps: kbps, norms, baselines, ..*self };
    }

    /// The state after an acknowledgement that a limit other than the pin
    /// and the share answered.
    pub open spec fn acked(self, kbps: u32, why: Option<AckReason>) -> Self {
        let answered = BitrateController {
            asks: Asks { last_requested_kbps: None, unacked: 0, ..self.asks },
            host: if why == Some(AckReason::Cadence) {
                self.host.held()
            } else {
                match self.asks.last_requested_kbps {
                    Some(asked) => self.host.answered(kbps, asked, self.floor_kbps),
                    None => self.host,
                }
            },
            climb_since_backoff: self.climb_since_backoff || kbps > self.current_kbps,
            causes: Causes {
                last_cut: if kbps > self.current_kbps {
                    None
                } else {
                    self.causes.last_cut
                },
                ..self.causes
            },
            ..self
        };
        answered.moved_to(kbps).raised(kbps)
    }

    /// The state after [`on_ack`](Self::on_ack).
    pub open spec fn after_ack(self, kbps: u32, why: Option<AckReason>) -> Self {
        if why == Some(AckReason::Pinned) {
            self.pinned(kbps)
        } else if why == Some(AckReason::Governor) {
            self.shared(kbps)
        } else if kbps > 0 {
            self.acked(kbps, why)
        } else {
            BitrateController { asks: Asks { unacked: 0, ..self.asks }, ..self }
        }
    }

    /// The host's acknowledgement: its clamp is authoritative, and any answer
    /// proves it negotiates.
    ///
    /// `why` names the limit that answered. A pinned session has no rate to
    /// control; a cadence refusal is a busy machine, held on a clock and
    /// never latched; a share is a ceiling, not an answer to anything this
    /// session asked. No reason is an older host, and a short answer.
    pub fn on_ack(&mut self, kbps: u32, why: Option<AckReason>)
        requires
            old(self).wf(),
        ensures
            final(self).wf(),
            *final(self) == old(self).after_ack(kbps, why),
    {
        match why {
            Some(AckReason::Pinned) => {
                self.on_pinned(kbps);
            },
            Some(AckReason::Governor) => {
                self.on_share(kbps);
            },
            _ => {
                if kbps > 0 {
                    self.settle_ack(kbps, why);
                } else {
                    self.asks.unacked = 0;
                }
            },
        }
    }

    fn settle_ack(&mut self, kbps: u32, why: Option<AckReason>)
        requires
            old(self).wf(),
        ensures
            final(self).wf(),
            *final(self) == old(self).acked(kbps, why),
    {
        let mut host: HostLimits = self.host;
        if why == Some(AckReason::Cadence) {
            host.hold_for_cadence();
        } else if let Some(asked) = self.asks.last_requested_kbps {
            host.answer(kbps, asked, self.floor_kbps);
        }
        let rose = kbps > self.current_kbps;
        *self =
        BitrateController {
            asks: Asks { last_requested_kbps: None, unacked: 0, ..self.asks },
            host,
            climb_since_backoff: self.climb_since_backoff || rose,
            causes: Causes {
                last_cut: if rose {
                    None
                } else {
                    self.causes.last_cut
                },
                ..self.causes
            },
            ..*self
        };
        self.move_to(kbps);
        self.raise_ceiling(kbps);
    }

    /// The state once a share was heard: nothing was answered by it, and
    /// whatever cut the rate last is not what moves it now.
    pub open spec fn told(self, kbps: u32) -> Self {
        BitrateController {
            asks: Asks { last_requested_kbps: None, unacked: 0, ..self.asks },
            host: HostLimits { short_acks: 0, ..self.host },
            causes: Causes { last_cut: None, ..self.causes },
            ceiling: Ceiling {
                share_cap: if kbps == NO_SHARE_KBPS {
                    None
                } else {
                    Some(kbps)
                },
                ..self.ceiling
            },
            ..self
        }
    }

    fn hear_share(&mut self, kbps: u32)
        requires
            old(self).wf(),
        ensures
            final(self).wf(),
            *final(self) == old(self).told(kbps),
    {
        *self =
        BitrateController {
            asks: Asks { last_requested_kbps: None, unacked: 0, ..self.asks },
            host: HostLimits { short_acks: 0, ..self.host },
            causes: Causes { last_cut: None, ..self.causes },
            ceiling: Ceiling {
                share_cap: if kbps == NO_SHARE_KBPS {
                    None
                } else {
                    Some(kbps)
                },
                ..self.ceiling
            },
            ..*self
        };
    }

    /// The state after a share above the ceiling.
    pub open spec fn allowed(self, kbps: u32) -> Self {
        let raised = self.raised(kbps);
        BitrateController { link: LinkWall { share_lift: true, ..raised.link }, ..raised }
    }

    fn allow(&mut self, kbps: u32)
        requires
            old(self).wf(),
        ensures
            final(self).wf(),
            *final(self) == old(self).allowed(kbps),
    {
        self.raise_ceiling(kbps);
        self.link.share_lift = true;
    }

    /// The state after [`on_share`](Self::on_share).
    pub open spec fn shared(self, kbps: u32) -> Self {
        let told = self.told(kbps);
        let moved = if kbps != NO_SHARE_KBPS && kbps < self.current_kbps {
            told.moved_to(kbps)
        } else {
            told
        };
        if kbps != NO_SHARE_KBPS && kbps > self.ceiling.kbps {
            moved.allowed(kbps)
        } else {
            moved
        }
    }

    /// The host divided a path this session shares: `kbps` is the ceiling it
    /// may climb to, and nothing is the group ending.
    ///
    /// Never a target, and never authority to climb. A share below the rate
    /// is a retarget the host already applied. One above the ceiling raises
    /// it, leaves the wall standing, and owes the wall one early lift.
    pub fn on_share(&mut self, kbps: u32)
        requires
            old(self).wf(),
        ensures
            final(self).wf(),
            *final(self) == old(self).shared(kbps),
    {
        let below = kbps != NO_SHARE_KBPS && kbps < self.current_kbps;
        let above = kbps != NO_SHARE_KBPS && kbps > self.ceiling.kbps;
        self.hear_share(kbps);
        if below {
            self.move_to(kbps);
        }
        if above {
            self.allow(kbps);
        }
    }

    /// The state after [`on_pinned`](Self::on_pinned).
    pub open spec fn pinned(self, kbps: u32) -> Self {
        BitrateController {
            asks: Asks { last_requested_kbps: None, unacked: 0, ..self.asks },
            current_kbps: if kbps > 0 {
                kbps
            } else {
                self.current_kbps
            },
            enabled: false,
            ..self
        }
    }

    /// The host will not negotiate this session's rate: retire.
    pub fn on_pinned(&mut self, kbps: u32)
        requires
            old(self).wf(),
        ensures
            final(self).wf(),
            *final(self) == old(self).pinned(kbps),
    {
        *self =
        BitrateController {
            asks: Asks { last_requested_kbps: None, unacked: 0, ..self.asks },
            current_kbps: if kbps > 0 {
                kbps
            } else {
                self.current_kbps
            },
            enabled: false,
            ..*self
        };
    }

    /// The state after [`on_mode_switch`](Self::on_mode_switch).
    pub open spec fn switched(self) -> Self {
        BitrateController {
            host: HostLimits {
                short_acks: 0,
                cap: super::cap::LearnedCap::new(),
                cadence_hold: StandDown::new(),
                ..self.host
            },
            decoder: DecoderLoad::new(),
            encoder: EncoderLoad::new(),
            climb_since_backoff: true,
            baselines: Baselines::new(),
            proven: Proven::new(),
            streaks: Streaks { idle_windows: 0, ..self.streaks },
            norms: RateNorms { frames_norm: 0, ..self.norms.forgotten() },
            ..self
        }
    }

    /// The mode changed. Knees, floors and the proven rate belong to the mode
    /// and go; the measured ceiling and the wall belong to the link and stay.
    pub fn on_mode_switch(&mut self)
        requires
            old(self).wf(),
        ensures
            final(self).wf(),
            *final(self) == old(self).switched(),
    {
        let mut norms: RateNorms = self.norms;
        norms.forget();
        norms.frames_norm = 0;
        *self =
        BitrateController {
            host: HostLimits {
                short_acks: 0,
                cap: super::cap::LearnedCap::new(),
                cadence_hold: StandDown::new(),
                ..self.host
            },
            decoder: DecoderLoad::new(),
            encoder: EncoderLoad::new(),
            climb_since_backoff: true,
            baselines: Baselines::new(),
            proven: Proven::new(),
            streaks: Streaks { idle_windows: 0, ..self.streaks },
            norms,
            ..*self
        };
    }
}

/// A session starts at its negotiated rate, knows nothing, and doubles; a rate
/// of nothing is a session nobody may re-rate. The operator's bound holds of
/// its ceiling from the start.
pub proof fn law_a_session_starts_at_its_rate(start_kbps: u32, cap_kbps: Option<u32>)
    ensures
        ({
            let c = BitrateController::fresh(start_kbps, cap_kbps);
            &&& c.enabled <==> start_kbps > 0
            &&& c.current_kbps == start_kbps
            &&& start_kbps >= 2_000 ==> c.floor_kbps == 2_000
            &&& 0 < start_kbps < 2_000 ==> c.floor_kbps == start_kbps
            &&& cap_kbps is None ==> c.ceiling.kbps == start_kbps
            &&& cap_kbps matches Some(k) ==> c.ceiling.kbps <= k && c.ceiling.kbps <= start_kbps && (
            c.ceiling.kbps == k || c.ceiling.kbps == start_kbps)
            &&& c.ceiling.cap_kbps == cap_kbps && c.ceiling.blind
            &&& c.probing && c.asks.unacked == 0 && c.asks.last_requested_kbps is None
                && c.asks.last_change is None
            &&& c.link.cap.kbps is None && c.host.cap.kbps is None && c.decoder.cap.kbps is None
        }),
{
}

/// A measurement binds at what the operator and the stream leave of it: the
/// first moves the ceiling either way unless it was clamped, a later one only
/// up, and none under the floor. A grant raises it and leaves a measurement
/// free to bind; where nothing will be measured the stream's shape is the
/// bound.
pub proof fn law_a_ceiling_is_what_was_measured(c: BitrateController, kbps: u32)
    requires
        c.enabled,
        c.floor_kbps <= c.ceiling.kbps,
    ensures
        ({
            let m = c.with_ceiling(kbps).ceiling;
            let free = (c.ceiling.cap_kbps matches Some(k) ==> kbps <= k) && (
            c.ceiling.stream_cap_kbps matches Some(k) ==> kbps <= k);
            &&& free && c.ceiling.blind && kbps >= c.floor_kbps ==> m.kbps == kbps
            &&& free && c.ceiling.blind && kbps < c.floor_kbps ==> m.kbps == c.floor_kbps
            &&& free && !c.ceiling.blind && kbps > c.ceiling.kbps ==> m.kbps == kbps
            &&& free && !c.ceiling.blind && kbps <= c.ceiling.kbps ==> m.kbps == c.ceiling.kbps
            &&& !free ==> m.kbps >= c.ceiling.kbps
            &&& !m.blind
            &&& c.ceiling.cap_kbps matches Some(k) ==> m.kbps <= k || m.kbps == c.ceiling.kbps
                || m.kbps == c.floor_kbps
            &&& c.ceiling.stream_cap_kbps matches Some(k) ==> m.kbps <= k || m.kbps
                == c.ceiling.kbps || m.kbps == c.floor_kbps
            &&& free && kbps > c.ceiling.kbps ==> c.raised(kbps).ceiling.kbps == kbps
            &&& kbps <= c.ceiling.kbps ==> c.raised(kbps).ceiling == c.ceiling
            &&& c.raised(kbps).ceiling.blind == c.ceiling.blind
        }),
        ({
            let u = c.unmeasured(kbps).ceiling;
            &&& !c.ceiling.blind ==> u == c.ceiling
            &&& c.ceiling.blind ==> !u.blind && u.kbps >= c.ceiling.kbps
            &&& c.ceiling.blind && c.ceiling.cap_kbps is None && kbps >= c.ceiling.kbps ==> u.kbps
                == kbps
            &&& c.ceiling.blind && kbps <= c.ceiling.kbps ==> u.kbps == c.ceiling.kbps
        }),
{
}

/// A session opens where it measured, no lower than its floor and no higher
/// than its ceiling and the operator's bound, and asks where that is another
/// rate than the one it runs at.
pub proof fn law_a_session_opens_where_it_measured(c: BitrateController, kbps: u32, now: u64)
    requires
        c.enabled,
        c.floor_kbps <= kbps <= c.ceiling.kbps,
        c.ceiling.cap_kbps matches Some(k) ==> kbps <= k,
    ensures
        kbps != c.current_kbps ==> c.opened(kbps, now).1 == Some(kbps) && c.opened(
            kbps,
            now,
        ).0.asks.last_requested_kbps == Some(kbps) && c.opened(kbps, now).0.asks.last_change == Some(
            now,
        ),
        kbps == c.current_kbps ==> c.opened(kbps, now) == (c, None::<u32>),
        c.opened(kbps, now).0.current_kbps == c.current_kbps,
{
}

/// The stream's shape bounds what is learned: the first bound leaves what was
/// negotiated, a later one lowers the ceiling to it. A refresh sizes a frame's
/// budget, and none changes nothing.
pub proof fn law_a_shape_bounds_and_a_refresh_sizes(c: BitrateController, kbps: u32, hz: u32)
    ensures
        c.shaped(kbps).ceiling.stream_cap_kbps == Some(kbps),
        c.ceiling.stream_cap_kbps is None ==> c.shaped(kbps).ceiling.kbps == c.ceiling.kbps,
        c.ceiling.stream_cap_kbps is Some && c.enabled ==> c.shaped(kbps).ceiling.kbps <= kbps
            && c.shaped(kbps).ceiling.kbps <= c.ceiling.kbps && (c.shaped(kbps).ceiling.kbps == kbps
            || c.shaped(kbps).ceiling.kbps == c.ceiling.kbps),
        hz == 0 ==> c.budgeted(hz) == c,
        0 < hz <= 1_000_000 ==> (c.budgeted(hz).frame_budget_us matches Some(us) && us * hz
            <= 1_000_000 < (us + 1) * hz),
        c.budgeted(hz).current_kbps == c.current_kbps && c.shaped(kbps).current_kbps
            == c.current_kbps,
{
    if hz > 0 {
        let h = hz as int;
        let q = 1_000_000int / h;
        vstd::arithmetic::div_mod::lemma_fundamental_div_mod(1_000_000, h);
        vstd::arithmetic::div_mod::lemma_mod_bound(1_000_000, h);
        assert(h * q == q * h && (q + 1) * h == q * h + h) by (nonlinear_arith);
        assert(0 <= q <= 1_000_000) by (nonlinear_arith)
            requires
                h >= 1,
                q == 1_000_000int / h,
        ;
    }
}

/// A request is remembered and counted, and moves nothing; one that never left
/// is uncounted and forgotten.
pub proof fn law_a_request_is_counted(c: BitrateController, kbps: u32, now: u64)
    requires
        c.asks.unacked < u32::MAX,
    ensures
        ({
            let r = c.requested(kbps, now);
            &&& r.asks.last_change == Some(now) && r.asks.last_requested_kbps == Some(kbps)
            &&& r.asks.unacked == c.asks.unacked + 1
            &&& r.current_kbps == c.current_kbps && r.ceiling == c.ceiling && r.enabled == c.enabled
            &&& r.unasked().asks.unacked == c.asks.unacked
            &&& r.unasked().asks.last_requested_kbps is None
        }),
        c.asks.last_requested_kbps is None ==> c.cut_base_kbps() == c.current_kbps,
        c.asks.last_requested_kbps matches Some(k) ==> (k <= c.current_kbps ==> c.cut_base_kbps()
            == k) && (k >= c.current_kbps ==> c.cut_base_kbps() == c.current_kbps),
{
}

/// The host's answer moves the rate to what it says, proves that it
/// negotiates, and answers the request. A rate above the last one ends what
/// the last cut was for, and raises the ceiling where nothing bounds it; a
/// lower one starts the encoder's floor over. An answer of nothing only proves
/// that it negotiates.
pub proof fn law_an_answer_moves_the_rate(c: BitrateController, kbps: u32, why: Option<AckReason>)
    requires
        why != Some(AckReason::Pinned),
        why != Some(AckReason::Governor),
    ensures
        ({
            let a = c.after_ack(kbps, why);
            &&& a.asks.unacked == 0
            &&& kbps > 0 ==> a.current_kbps == kbps && a.asks.last_requested_kbps is None
            &&& kbps == 0 ==> a.current_kbps == c.current_kbps && a.asks.last_requested_kbps
                == c.asks.last_requested_kbps
            &&& a.enabled == c.enabled
            &&& kbps > c.current_kbps ==> a.causes.last_cut is None && a.climb_since_backoff
            &&& 0 < kbps <= c.current_kbps ==> a.causes.last_cut == c.causes.last_cut
                && a.climb_since_backoff == c.climb_since_backoff
            &&& 0 < kbps < c.current_kbps ==> a.baselines.encode.seen == 0
            &&& a.baselines.owd == c.baselines.owd && a.baselines.decode == c.baselines.decode
            &&& kbps >= c.current_kbps || kbps == 0 ==> a.baselines == c.baselines
            &&& a.ceiling.kbps >= c.ceiling.kbps
            &&& c.enabled && kbps > 0 && c.ceiling.cap_kbps is None && c.ceiling.stream_cap_kbps
                is None ==> a.ceiling.kbps >= kbps
            &&& why == Some(AckReason::Cadence) && kbps > 0 ==> a.host.cadence_hold.down
                && a.host.cap == c.host.cap
            &&& why != Some(AckReason::Cadence) && kbps > 0 && c.asks.last_requested_kbps is None
                ==> a.host == c.host
            &&& why != Some(AckReason::Cadence) && kbps > 0 ==> (
            c.asks.last_requested_kbps matches Some(asked) ==> a.host == c.host.answered(
                kbps,
                asked,
                c.floor_kbps,
            ))
        }),
{
}

/// A pinned host ends it: the rate is the host's, and the controller is off.
pub proof fn law_a_pinned_host_ends_it(c: BitrateController, kbps: u32)
    ensures
        ({
            let a = c.after_ack(kbps, Some(AckReason::Pinned));
            &&& !a.enabled
            &&& kbps > 0 ==> a.current_kbps == kbps
            &&& kbps == 0 ==> a.current_kbps == c.current_kbps
            &&& a.asks.unacked == 0 && a.asks.last_requested_kbps is None
            &&& a.ceiling == c.ceiling && a.host == c.host
        }),
{
}

/// A share bounds the climb and is no target: one under the rate is where the
/// host already went, one over it moves nothing, and no share at all ends the
/// bound. One over the ceiling raises it as a grant does and owes the wall a
/// lift.
pub proof fn law_a_share_bounds_and_never_lifts(c: BitrateController, kbps: u32)
    ensures
        ({
            let a = c.after_ack(kbps, Some(AckReason::Governor));
            &&& kbps > 0 ==> a.ceiling.share_cap == Some(kbps)
            &&& kbps == 0 ==> a.ceiling.share_cap is None && a.current_kbps == c.current_kbps
            &&& kbps > 0 && kbps < c.current_kbps ==> a.current_kbps == kbps
            &&& kbps >= c.current_kbps ==> a.current_kbps == c.current_kbps
            &&& kbps <= c.ceiling.kbps ==> a.ceiling.kbps == c.ceiling.kbps && a.link == c.link
            &&& kbps > c.ceiling.kbps ==> a.link.share_lift && a.ceiling.kbps >= c.ceiling.kbps
                && a.ceiling.kbps <= higher(kbps, c.ceiling.kbps)
            &&& a.asks.last_requested_kbps is None && a.asks.unacked == 0
            &&& a.enabled == c.enabled
        }),
{
}

/// A mode switch forgets what belongs to the mode: the host's and the
/// decoder's limits, every floor, the proven mark, the stand-downs. The rate,
/// the ceiling, the wall and the requests stay.
pub proof fn law_a_mode_switch_forgets_the_mode(c: BitrateController)
    ensures
        ({
            let a = c.switched();
            &&& a.host.cap.kbps is None && !a.host.cadence_hold.down && a.host.short_acks == 0
            &&& a.decoder == DecoderLoad::new() && a.encoder == EncoderLoad::new()
            &&& a.baselines.owd.seen == 0 && a.baselines.decode.seen == 0 && a.baselines.encode.seen
                == 0
            &&& a.proven.mark() == 0 && a.streaks.idle_windows == 0 && a.norms.frames_norm == 0
            &&& a.climb_since_backoff
            &&& a.current_kbps == c.current_kbps && a.ceiling == c.ceiling && a.link == c.link
                && a.asks == c.asks && a.enabled == c.enabled && a.floor_kbps == c.floor_kbps
        }),
{
}

/// A session starts with nothing known of the link, the host, the decoder or
/// the encoder, nothing counted, nothing wrong and no budget.
pub proof fn law_a_session_starts_knowing_nothing(start_kbps: u32, cap_kbps: Option<u32>)
    ensures
        ({
            let c = BitrateController::fresh(start_kbps, cap_kbps);
            &&& c.streaks.bad_windows == 0 && c.streaks.clean_windows == 0 && c.streaks.idle_windows
                == 0 && c.streaks.rearm_windows == 0 && c.streaks.blip_hold == 0
            &&& !c.causes.rate_verdict && !c.causes.link_verdict && !c.causes.link_evidence
                && c.causes.last_reason == Reason::Clean && c.causes.streak_cut is None
                && c.causes.last_cut is None
            &&& c.ceiling.stream_cap_kbps is None && c.ceiling.share_cap is None
                && c.ceiling.ask_kbps == 0
            &&& c.climb_since_backoff && !c.low_rate_warned && c.frame_budget_us is None
            &&& c.drain.windows == 0 && c.drain.suppressed == 0
            &&& c.link.mark_kbps == 0 && !c.link.measured && !c.link.lifted && c.link.lift is None
                && !c.link.share_lift
            &&& c.decoder.backoff_kbps == 0 && c.decoder.streak_windows == 0 && c.decoder.probe
                is None && !c.decoder.headroom.down
            &&& c.encoder.probe is None && !c.encoder.down.down
            &&& c.proven.mark() == 0 && c.norms.delivery_windows == 0 && c.norms.delay_windows == 0
            &&& c.baselines.owd.seen == 0 && c.baselines.decode.seen == 0 && c.baselines.encode.seen
                == 0
        }),
{
}

} // verus!
