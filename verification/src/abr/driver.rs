//! Automatic bitrate, whole: events in, actions out.
//!
//! The embedder owns no policy. It feeds the driver access units, counters,
//! latencies and acknowledgements, and sends what [`Driver::tick`] returns.

use super::capacity::{ramp_start_kbps, wall_ceiling_kbps, Burst, CapacityProbe, ProbeView};
use super::controller::{BitrateController, Ceiling};
use super::metrics;
use super::probe::{Measured, ProbeReport, RampStep, RampSummary, Ramped};
use super::sample::WindowSample;
use super::session::Event;
use super::verdict::Reason;
use super::window::{Closed, WindowAccumulator};
use crate::math::{higher, lower, scaled, total};
use crate::quic::{AckReason, CHROMA_IDC_444, CODEC_H264};
use crate::stats::Stats;
use vstd::prelude::*;

verus! {

/// What the session negotiated, plus the operator's overrides, read once.
#[derive(Clone, Copy, Debug, PartialEq, Eq, Structural)]
pub struct DriverConfig {
    /// The negotiated automatic rate. `0` keeps the controller off.
    pub start_kbps: u32,
    /// The operator's bound on the rate.
    pub ceiling_cap_kbps: Option<u32>,
    /// Stream-shape bound on every learned ceiling.
    pub stream_cap_kbps: u32,
    pub refresh_hz: u32,
    /// Codec and sample shape, which a mode switch does not change.
    pub codec: u8,
    pub bit_depth: u8,
    pub chroma_format: u8,
    /// Audio's wire reservation.
    pub audio_reserved_kbps: u32,
    /// The host marks repeats of a still picture.
    pub marks_repeats: bool,
    /// The host reads a delivery report every window.
    pub reads_delivery: bool,
    /// Run the startup measurement.
    pub probe: bool,
    /// The operator's burst target, or the ramp's maximum.
    pub probe_target_kbps: Option<u32>,
    /// The host serves probe requests during bring-up.
    pub ramp: bool,
    /// The rate the session is pinned to. A measured wall lowers it once, and
    /// nothing else moves it.
    pub pin_kbps: Option<u32>,
}

/// What the embedder has to do for the controller.
#[derive(Clone, Copy, Debug, PartialEq, Eq, Structural)]
pub enum Action {
    /// Shard loss of this window, in parts per million.
    Loss(u32),
    /// Session total of packets received.
    Delivery(u64),
    /// What the bring-up ramp proved the link carries.
    LinkRate(u32),
    /// Ask the host for a new encoder rate.
    SetBitrate(u32),
    /// Ask for a capacity burst. `ramp` is a step before any video exists.
    Probe { target_kbps: u32, duration_ms: u32, ramp: bool },
    /// Ask for a keyframe.
    Keyframe,
    /// Let the probe in flight go: it was never answered.
    AbandonProbe,
}

/// The report window that just closed.
#[derive(Clone, Copy, Debug, PartialEq, Eq, Structural)]
pub struct ClosedWindow {
    pub sample: WindowSample,
    /// It described a burst's tail or a host rebuild, not the link.
    pub discarded: bool,
    /// It delivered everything the link was asked for.
    pub loss_free: bool,
}

/// One iteration's worth of decisions.
pub struct Tick {
    /// In the order they should go out.
    pub actions: Vec<Action>,
    /// `Some` when the report window closed on this tick.
    pub window: Option<ClosedWindow>,
}

/// A closed window with what the controller did about it.
#[derive(Clone, Copy, Debug, PartialEq, Eq, Structural)]
pub struct WindowRecord {
    /// Milliseconds from the session's start to this window's close.
    pub t_ms: u64,
    /// Rate the session was running at.
    pub rate_kbps: u32,
    pub request_kbps: Option<u32>,
    pub sample: WindowSample,
    pub discarded: bool,
    pub reason: Reason,
}

impl WindowRecord {
    /// This window as the metrics read it.
    #[verifier::allow_in_spec]
    pub fn metric(&self) -> metrics::MetricWindow
        returns
            (metrics::MetricWindow {
                t_ms: self.t_ms,
                rate_kbps: self.rate_kbps,
                request_kbps: self.request_kbps,
                dropped: self.sample.dropped,
                discarded: self.discarded,
            }),
    {
        metrics::MetricWindow {
            t_ms: self.t_ms,
            rate_kbps: self.rate_kbps,
            request_kbps: self.request_kbps,
            dropped: self.sample.dropped,
            discarded: self.discarded,
        }
    }
}

/// What the bring-up ramp measured, for a client writing it down.
pub struct RampRecord {
    /// Every settled step, oldest first.
    pub steps: Vec<RampStep>,
    pub outcome: RampSummary,
    /// The rate the session opened at.
    pub opening_kbps: u32,
}

/// Thousandths of a bit a pixel may use: H.264 is the least efficient codec,
/// ten bits are a quarter more depth, full chroma half again the samples.
#[verifier::allow_in_spec]
pub fn milli_bits_per_pixel(codec: u8, bit_depth: u8, chroma_format: u8) -> u64
    returns
        ({
            let base: u64 = if codec == CODEC_H264 {
                1_000
            } else {
                750
            };
            let deep: u64 = if bit_depth >= 10 {
                (base * 5 / 4) as u64
            } else {
                base
            };
            if chroma_format == CHROMA_IDC_444 {
                (deep * 3 / 2) as u64
            } else {
                deep
            }
        }),
{
    let base: u64 = if codec == CODEC_H264 {
        1_000
    } else {
        750
    };
    let deep: u64 = if bit_depth >= 10 {
        base * 5 / 4
    } else {
        base
    };
    if chroma_format == CHROMA_IDC_444 {
        deep * 3 / 2
    } else {
        deep
    }
}

/// Pixels a second, at least one refresh.
#[verifier::allow_in_spec]
pub fn pixel_rate(width: u32, height: u32, refresh_hz: u32) -> u64
    returns
        scaled(scaled(width as u64, height as u64), higher(refresh_hz, 1) as u64),
{
    scaled(scaled(width as u64, height as u64), higher(refresh_hz, 1) as u64)
}

/// Upper bound on the bitrate this stream's shape could use, in kbps. A bound
/// on the absurd, not a quality opinion; a mode of no pixels has none.
pub open spec fn stream_ceiling(
    width: u32,
    height: u32,
    refresh_hz: u32,
    codec: u8,
    bit_depth: u8,
    chroma_format: u8,
) -> u32 {
    let pixels = pixel_rate(width, height, refresh_hz);
    let kbps = scaled(pixels, milli_bits_per_pixel(codec, bit_depth, chroma_format)) / 1_000_000;
    if pixels == 0 || kbps > u32::MAX {
        u32::MAX
    } else {
        kbps as u32
    }
}

#[verifier::when_used_as_spec(stream_ceiling)]
pub fn stream_ceiling_kbps(
    width: u32,
    height: u32,
    refresh_hz: u32,
    codec: u8,
    bit_depth: u8,
    chroma_format: u8,
) -> (kbps: u32)
    ensures
        kbps == stream_ceiling(width, height, refresh_hz, codec, bit_depth, chroma_format),
{
    let pixels: u64 = pixel_rate(width, height, refresh_hz);
    if pixels == 0 {
        return u32::MAX;
    }
    let kbps: u64 = scaled(pixels, milli_bits_per_pixel(codec, bit_depth, chroma_format))
        / 1_000_000;
    if kbps > u32::MAX as u64 {
        u32::MAX
    } else {
        kbps as u32
    }
}

/// Automatic bitrate: the window the embedder feeds, the controller that
/// judges it, and the measurement of the link.
pub struct Driver {
    pub abr: BitrateController,
    pub window: WindowAccumulator,
    pub probe: CapacityProbe,
    /// What this mode can use.
    pub stream_cap_kbps: u32,
    pub codec: u8,
    pub bit_depth: u8,
    pub chroma_format: u8,
    pub pin_kbps: Option<u32>,
    /// Raised between ticks, sent on the next one.
    pub pending: Vec<Action>,
    /// Acknowledgements since the last window closed.
    pub acks: Vec<(u32, Option<AckReason>)>,
    /// Picture access units forwarded.
    pub video_aus: u64,
}

/// The driver, with its queues as sequences.
#[verifier::ext_equal]
pub struct DriverView {
    pub abr: BitrateController,
    pub window: WindowAccumulator,
    pub probe: ProbeView,
    pub stream_cap_kbps: u32,
    pub codec: u8,
    pub bit_depth: u8,
    pub chroma_format: u8,
    pub pin_kbps: Option<u32>,
    pub pending: Seq<Action>,
    pub acks: Seq<(u32, Option<AckReason>)>,
    pub video_aus: u64,
}

impl View for Driver {
    type V = DriverView;

    open spec fn view(&self) -> DriverView {
        DriverView {
            abr: self.abr,
            window: self.window,
            probe: self.probe@,
            stream_cap_kbps: self.stream_cap_kbps,
            codec: self.codec,
            bit_depth: self.bit_depth,
            chroma_format: self.chroma_format,
            pin_kbps: self.pin_kbps,
            pending: self.pending@,
            acks: self.acks@,
            video_aus: self.video_aus,
        }
    }
}

/// Nothing but keyframe asks.
pub open spec fn keyframes_only(actions: Seq<Action>) -> bool {
    forall|i: int| 0 <= i < actions.len() ==> actions[i] == Action::Keyframe
}

/// The controller after every acknowledgement of a run, oldest first.
pub open spec fn all_acked(c: BitrateController, acks: Seq<(u32, Option<AckReason>)>) -> BitrateController
    decreases acks.len(),
{
    if acks.len() == 0 {
        c
    } else {
        let (kbps, why) = acks.last();
        all_acked(c, acks.drop_last()).after_ack(kbps, why)
    }
}

/// What a tick sends, and the window it closed.
#[verifier::ext_equal]
pub struct TickView {
    pub actions: Seq<Action>,
    pub window: Option<ClosedWindow>,
}

impl View for Tick {
    type V = TickView;

    open spec fn view(&self) -> TickView {
        TickView { actions: self.actions@, window: self.window }
    }
}

impl DriverView {
    /// The parts are inside their own bounds, and what waits for the next
    /// tick are keyframe asks.
    pub open spec fn wf(self) -> bool {
        &&& self.abr.wf()
        &&& self.window.wf()
        &&& self.probe.wf()
        &&& keyframes_only(self.pending)
    }

    /// What the last judged window was.
    pub open spec fn read_as(self) -> Reason {
        self.abr.causes.last_reason
    }

    /// What the last cut was for.
    pub open spec fn cut_for(self) -> Option<Reason> {
        self.abr.causes.last_cut
    }

    /// The rate the session runs at.
    pub open spec fn runs_at(self) -> u32 {
        self.abr.current_kbps
    }

    /// Every step of the ramp that settled.
    pub open spec fn steps_taken(self) -> Seq<RampStep> {
        self.probe.history
    }

    /// A pin of nothing is no pin.
    pub open spec fn pin_of(cfg: DriverConfig) -> Option<u32> {
        match cfg.pin_kbps {
            Some(pin) => if pin > 0 {
                Some(pin)
            } else {
                None
            },
            None => None,
        }
    }

    /// A driver that has seen nothing yet.
    pub open spec fn fresh(cfg: DriverConfig, now: u64) -> DriverView {
        let abr = BitrateController::fresh(cfg.start_kbps, cfg.ceiling_cap_kbps).shaped(
            cfg.stream_cap_kbps,
        ).budgeted(cfg.refresh_hz);
        let pin = DriverView::pin_of(cfg);
        DriverView {
            abr: match pin {
                Some(kbps) => BitrateController { current_kbps: kbps, ..abr },
                None => abr,
            },
            window: WindowAccumulator::new(
                cfg.audio_reserved_kbps,
                cfg.marks_repeats,
                cfg.reads_delivery,
                now,
            ),
            probe: match pin {
                Some(kbps) => ProbeView::fresh_pinned(
                    cfg.probe && cfg.ramp,
                    cfg.probe_target_kbps,
                    kbps,
                    now,
                ),
                None => ProbeView::fresh(
                    cfg.probe && cfg.start_kbps > 0,
                    cfg.ramp,
                    cfg.probe_target_kbps,
                    cfg.stream_cap_kbps,
                    now,
                ),
            },
            stream_cap_kbps: cfg.stream_cap_kbps,
            codec: cfg.codec,
            bit_depth: cfg.bit_depth,
            chroma_format: cfg.chroma_format,
            pin_kbps: pin,
            pending: Seq::empty(),
            acks: Seq::empty(),
            video_aus: 0,
        }
    }

    /// After the accepted mode changed.
    #[verifier::opaque]
    pub open spec fn switched(self, width: u32, height: u32, refresh_hz: u32) -> DriverView {
        let cap = stream_ceiling(
            width,
            height,
            refresh_hz,
            self.codec,
            self.bit_depth,
            self.chroma_format,
        );
        DriverView {
            abr: self.abr.switched().budgeted(refresh_hz).shaped(cap),
            stream_cap_kbps: cap,
            ..self
        }
    }

    /// After a burst went in or out of flight. Its end rebases the window; a
    /// burst beside video that no frame survived asks for a keyframe.
    pub open spec fn probed(self, active: bool, duration_ms: u32, now: u64) -> DriverView {
        let frames = self.window.stats.frames_completed;
        let probe = self.probe.activated(active, duration_ms, frames, now);
        if self.probe.burst.active && !active {
            DriverView {
                probe,
                window: self.window.rebased(now),
                pending: if !self.probe.burst.step && frames == self.probe.burst.frames_at_start {
                    self.pending.push(Action::Keyframe)
                } else {
                    self.pending
                },
                ..self
            }
        } else {
            DriverView { probe, ..self }
        }
    }

    /// After a report. Our own burst sets the ceiling, and the wall where the
    /// link refused it; bytes that landed under it are no window's.
    #[verifier::opaque]
    pub open spec fn reported(self, r: ProbeReport, now: u64) -> DriverView {
        let (probe, measured) = self.probe.resulted(r, now);
        let heard = DriverView { probe, ..self };
        match measured {
            Measured::NotOurs => heard,
            Measured::Declined => heard.bytes_rebased(),
            Measured::Ceiling { ceiling_kbps, wall_kbps } => {
                let capped = self.abr.with_ceiling(ceiling_kbps);
                DriverView {
                    abr: match wall_kbps {
                        Some(kbps) => capped.walled(ceiling_kbps, kbps),
                        None => capped,
                    },
                    ..heard.bytes_rebased()
                }
            },
        }
    }

    /// After the window's byte anchor moved past what has arrived.
    pub open spec fn bytes_rebased(self) -> DriverView {
        DriverView {
            window: WindowAccumulator {
                anchors: super::window::Anchors {
                    bytes: super::window::Anchors::of(&self.window.stats).bytes,
                    ..self.window.anchors
                },
                ..self.window
            },
            ..self
        }
    }

    /// The rate a pinned session's ramp lowers its pin to: only a wall does,
    /// and only downward.
    pub open spec fn pin_fit(pin: u32, ramped: Ramped) -> Option<u32> {
        match ramped {
            Ramped::Wall { delivered_kbps } => {
                let fit = lower(wall_ceiling_kbps(delivered_kbps), pin);
                if 0 < fit < pin {
                    Some(fit)
                } else {
                    None
                }
            },
            Ramped::NoWall { .. } => None,
        }
    }

    /// The authority the ramp's verdict gives the controller. A wall is a
    /// measured capacity and a cap to test again. No wall, from a ramp that
    /// finished, leaves the stream's shape as the only bound. Nothing
    /// measured licenses nothing.
    pub open spec fn authorised(self, ramped: Ramped) -> BitrateController {
        let cut_short = self.probe.ramp is Some && self.probe.ramp->0.cut_short;
        match ramped {
            Ramped::Wall { delivered_kbps } => {
                let licensed = wall_ceiling_kbps(delivered_kbps);
                self.abr.with_ceiling(licensed).walled(licensed, delivered_kbps)
            },
            Ramped::NoWall { proven_kbps } => if cut_short {
                self.abr
            } else if proven_kbps > 0 {
                self.abr.with_ceiling(self.stream_cap_kbps)
            } else {
                self.abr.unmeasured(self.stream_cap_kbps)
            },
        }
    }

    /// After the ramp's verdict, and the rate to open at.
    pub open spec fn ramped(self, ramped: Ramped, now: u64) -> (DriverView, Option<u32>) {
        match self.pin_kbps {
            Some(pin) => (self, DriverView::pin_fit(pin, ramped)),
            None => {
                let abr = self.authorised(ramped);
                if ramped.proven_kbps() == 0 && !ramped.is_wall() {
                    (DriverView { abr, ..self }, None)
                } else {
                    let (opened, ask) = abr.opened(
                        ramp_start_kbps(ramped.proven_kbps(), self.stream_cap_kbps),
                        now,
                    );
                    (DriverView { abr: opened, ..self }, ask)
                }
            },
        }
    }

    /// The measurement's part of a tick: the driver after it, what it sends
    /// (what waited, an abandoned probe, the next one, and what the ramp
    /// proved), and the rate to open at.
    #[verifier::opaque]
    pub open spec fn opening(self, now: u64) -> (DriverView, Seq<Action>, Option<u32>) {
        let (lapsed, abandoned) = self.probe.lapsed(now);
        let sent0 = if abandoned {
            self.pending.push(Action::AbandonProbe)
        } else {
            self.pending
        };
        let (polled, ask) = lapsed.polled(now, self.window.stats.frames_completed, self.video_aus);
        let sent1 = match ask {
            Some((target_kbps, duration_ms)) => sent0.push(
                Action::Probe { target_kbps, duration_ms, ramp: lapsed.ramping() },
            ),
            None => sent0,
        };
        let abr = if polled.burst.no_evidence {
            self.abr.unmeasured(self.stream_cap_kbps)
        } else {
            self.abr
        };
        let told = ProbeView { burst: Burst { no_evidence: false, ..polled.burst }, ..polled };
        let (probe, verdict) = told.verdict_taken(now);
        let d = DriverView { abr, probe, pending: Seq::empty(), ..self };
        match verdict {
            None => (d, sent1, None),
            Some(ramped) => {
                let sent2 = if ramped.proven_kbps() > 0 {
                    sent1.push(Action::LinkRate(ramped.proven_kbps()))
                } else {
                    sent1
                };
                let (opened, kbps) = d.ramped(ramped, now);
                (opened, sent2, kbps)
            },
        }
    }

    /// After the measurement's part of a tick, and all it sends: the rate to
    /// open at comes last.
    pub open spec fn measured(self, now: u64) -> (DriverView, Seq<Action>) {
        let (d, sent, kbps) = self.opening(now);
        match kbps {
            Some(kbps) => (d, sent.push(Action::SetBitrate(kbps))),
            None => (d, sent),
        }
    }

    /// After the window closed: acknowledgements first, then the report, the
    /// delivery and the controller's decision, unless it is discarded.
    pub open spec fn window_closed(self, now: u64, sent: Seq<Action>) -> (DriverView, TickView) {
        let closed = self.window.closing(now);
        let w = closed.sample;
        let abr = all_acked(self.abr, self.acks);
        let reopened = DriverView {
            window: self.window.reopened(now),
            acks: Seq::empty(),
            abr,
            ..self
        };
        let window = Some(
            ClosedWindow {
                sample: w,
                discarded: closed.discarded,
                loss_free: !closed.discarded && w.loss_ppm == 0 && w.dropped == 0,
            },
        );
        if closed.discarded {
            (reopened, TickView { actions: sent, window })
        } else {
            let (judged, ask) = abr.windowed(w);
            let sent1 = sent.push(Action::Loss(w.loss_ppm));
            let sent2 = match closed.delivery {
                Some(packets) => sent1.push(Action::Delivery(packets)),
                None => sent1,
            };
            let sent3 = match ask {
                Some(kbps) => sent2.push(Action::SetBitrate(kbps)),
                None => sent2,
            };
            (DriverView { abr: judged, ..reopened }, TickView { actions: sent3, window })
        }
    }

    /// After a tick, and what it sends.
    #[verifier::opaque]
    pub open spec fn ticked(self, now: u64) -> (DriverView, TickView) {
        let (measured, sent) = self.measured(now);
        if measured.window.due(now, measured.probe.burst.active) {
            measured.window_closed(now, sent)
        } else {
            (measured, TickView { actions: sent, window: None })
        }
    }
}

impl Driver {
    pub fn new(cfg: DriverConfig, now: u64) -> (d: Self)
        ensures
            d@.wf(),
            d@ == DriverView::fresh(cfg, now),
    {
        let mut abr: BitrateController = BitrateController::new(
            cfg.start_kbps,
            cfg.ceiling_cap_kbps,
        );
        abr.set_stream_cap(cfg.stream_cap_kbps);
        abr.set_frame_budget(cfg.refresh_hz);
        let pin_kbps: Option<u32> = match cfg.pin_kbps {
            Some(pin) => {
                if pin > 0 {
                    Some(pin)
                } else {
                    None
                }
            },
            None => None,
        };
        let probe = match pin_kbps {
            Some(pin) => {
                abr.current_kbps = pin;
                CapacityProbe::for_pinned(cfg.probe && cfg.ramp, cfg.probe_target_kbps, pin, now)
            },
            None => CapacityProbe::new(
                cfg.probe && cfg.start_kbps > 0,
                cfg.ramp,
                cfg.probe_target_kbps,
                cfg.stream_cap_kbps,
                now,
            ),
        };
        let d = Driver {
            abr,
            window: WindowAccumulator::new(
                cfg.audio_reserved_kbps,
                cfg.marks_repeats,
                cfg.reads_delivery,
                now,
            ),
            probe,
            stream_cap_kbps: cfg.stream_cap_kbps,
            codec: cfg.codec,
            bit_depth: cfg.bit_depth,
            chroma_format: cfg.chroma_format,
            pin_kbps,
            pending: Vec::new(),
            acks: Vec::new(),
            video_aus: 0,
        };
        assert(d@ =~= DriverView::fresh(cfg, now));
        d
    }

    /// The session counters, once per iteration.
    pub fn on_stats(&mut self, st: &Stats)
        requires
            old(self)@.wf(),
        ensures
            final(self)@.wf(),
            final(self)@ == old(self)@.heard(Event::Stats(*st)),
            final(self)@ == (DriverView {
                window: WindowAccumulator { stats: *st, ..old(self)@.window },
                ..old(self)@
            }),
    {
        proof {
            reveal(DriverView::heard);
        }
        self.window.on_stats(st);
    }

    /// One completed picture access unit; filler never reaches this.
    pub fn on_au(&mut self, repeat: bool)
        requires
            old(self)@.wf(),
        ensures
            final(self)@.wf(),
            final(self)@ == old(self)@.heard(Event::Au(repeat)),
            final(self)@ == (DriverView {
                video_aus: total(old(self)@.video_aus, 1),
                window: old(self)@.window.with_au(repeat),
                ..old(self)@
            }),
    {
        proof {
            reveal(DriverView::heard);
        }
        self.video_aus = total(self.video_aus, 1);
        self.window.on_au(repeat);
    }

    /// Capture to received for one access unit, in nanoseconds.
    pub fn on_owd(&mut self, ns: i128)
        requires
            old(self)@.wf(),
        ensures
            final(self)@.wf(),
            final(self)@ == old(self)@.heard(Event::Owd(ns)),
            final(self)@ == (DriverView {
                window: WindowAccumulator {
                    tally: super::window::Tally {
                        owd: old(self)@.window.tally.owd.with(super::window::latency_us(ns)),
                        ..old(self)@.window.tally
                    },
                    ..old(self)@.window
                },
                ..old(self)@
            }),
    {
        proof {
            reveal(DriverView::heard);
        }
        self.window.on_owd(ns);
    }

    /// Capture to a frame's first shard, in nanoseconds.
    pub fn on_shard_owd(&mut self, ns: i128)
        requires
            old(self)@.wf(),
        ensures
            final(self)@.wf(),
            final(self)@ == old(self)@.heard(Event::ShardOwd(ns)),
            final(self)@ == (DriverView {
                window: WindowAccumulator {
                    tally: super::window::Tally {
                        shards: old(self)@.window.tally.shards.with(super::window::latency_us(ns)),
                        ..old(self)@.window.tally
                    },
                    ..old(self)@.window
                },
                ..old(self)@
            }),
    {
        proof {
            reveal(DriverView::heard);
        }
        self.window.on_shard_owd(ns);
    }

    /// The client's decode-stage total and its sample count.
    pub fn on_decode_latency(&mut self, sum_us: u64, count: u32)
        requires
            old(self)@.wf(),
        ensures
            final(self)@.wf(),
            final(self)@ == old(self)@.heard(Event::DecodeLatency(sum_us, count)),
            final(self)@ == (DriverView {
                window: WindowAccumulator {
                    tally: super::window::Tally {
                        decode: old(self)@.window.tally.decode.plus(sum_us, count),
                        ..old(self)@.window.tally
                    },
                    ..old(self)@.window
                },
                ..old(self)@
            }),
    {
        proof {
            reveal(DriverView::heard);
        }
        self.window.on_decode_latency(sum_us, count);
    }

    /// The host's encode-stage total and its sample count.
    pub fn on_encode_latency(&mut self, sum_us: u64, count: u32)
        requires
            old(self)@.wf(),
        ensures
            final(self)@.wf(),
            final(self)@ == old(self)@.heard(Event::EncodeLatency(sum_us, count)),
            final(self)@ == (DriverView {
                window: WindowAccumulator {
                    tally: super::window::Tally {
                        encode: old(self)@.window.tally.encode.plus(sum_us, count),
                        ..old(self)@.window.tally
                    },
                    ..old(self)@.window
                },
                ..old(self)@
            }),
    {
        proof {
            reveal(DriverView::heard);
        }
        self.window.on_encode_latency(sum_us, count);
    }

    /// Keyframe asks that went out to repair the picture.
    pub fn on_keyframe_asks(&mut self, n: u32)
        requires
            old(self)@.wf(),
        ensures
            final(self)@.wf(),
            final(self)@ == old(self)@.heard(Event::KeyframeAsks(n)),
            final(self)@ == (DriverView {
                window: WindowAccumulator {
                    tally: super::window::Tally {
                        keyframe_asks: if old(self)@.window.tally.keyframe_asks + n > u32::MAX {
                            u32::MAX
                        } else {
                            (old(self)@.window.tally.keyframe_asks + n) as u32
                        },
                        ..old(self)@.window.tally
                    },
                    ..old(self)@.window
                },
                ..old(self)@
            }),
    {
        proof {
            reveal(DriverView::heard);
        }
        self.window.on_keyframe_asks(n);
    }

    /// The client jumped to the live edge.
    pub fn on_flush(&mut self)
        requires
            old(self)@.wf(),
        ensures
            final(self)@.wf(),
            final(self)@ == old(self)@.heard(Event::Flush),
            final(self)@ == (DriverView {
                window: WindowAccumulator {
                    tally: super::window::Tally { flushed: true, ..old(self)@.window.tally },
                    ..old(self)@.window
                },
                ..old(self)@
            }),
    {
        proof {
            reveal(DriverView::heard);
        }
        self.window.on_flush();
    }

    /// The host rebuilt its pipeline: the window in progress describes the
    /// gap, not the link.
    pub fn on_pipeline_gap(&mut self, _gap_ms: u32)
        requires
            old(self)@.wf(),
        ensures
            final(self)@.wf(),
            final(self)@ == old(self)@.heard(Event::PipelineGap),
            final(self)@ == (DriverView {
                window: WindowAccumulator { discarding: true, ..old(self)@.window },
                ..old(self)@
            }),
    {
        proof {
            reveal(DriverView::heard);
        }
        self.discard_window();
    }

    /// The host's acknowledgement, in arrival order. Applied when the window
    /// closes: a window is judged against the rate that ran for it.
    pub fn on_ack(&mut self, kbps: u32, why: Option<AckReason>)
        requires
            old(self)@.wf(),
        ensures
            final(self)@.wf(),
            final(self)@ == old(self)@.heard(Event::Ack(kbps, why)),
            final(self)@ == (DriverView {
                acks: old(self)@.acks.push((kbps, why)),
                ..old(self)@
            }),
    {
        proof {
            reveal(DriverView::heard);
        }
        self.acks.push((kbps, why));
    }

    /// A request for `_kbps` that never reached the host.
    pub fn on_request_dropped(&mut self, _kbps: u32)
        requires
            old(self)@.wf(),
        ensures
            final(self)@.wf(),
            final(self)@ == old(self)@.heard(Event::RequestDropped),
            final(self)@ == (DriverView { abr: old(self)@.abr.unasked(), ..old(self)@ }),
    {
        proof {
            reveal(DriverView::heard);
        }
        self.abr.on_request_dropped();
    }

    /// A probe that never reached the host.
    pub fn on_probe_dropped(&mut self, now: u64)
        requires
            old(self)@.wf(),
        ensures
            final(self)@.wf(),
            final(self)@ == old(self)@.heard(Event::ProbeDropped(now)),
            final(self)@ == (DriverView { probe: old(self)@.probe.dropped(now), ..old(self)@ }),
    {
        proof {
            reveal(DriverView::heard);
        }
        self.probe.on_dropped(now);
    }

    /// The accepted mode changed.
    pub fn on_mode_switch(&mut self, width: u32, height: u32, refresh_hz: u32)
        requires
            old(self)@.wf(),
        ensures
            final(self)@.wf(),
            final(self)@ == old(self)@.heard(Event::ModeSwitch(width, height, refresh_hz)),
            final(self)@ == old(self)@.switched(width, height, refresh_hz),
    {
        proof {
            reveal(DriverView::heard);
            reveal(DriverView::switched);
        }
        self.abr.on_mode_switch();
        self.abr.set_frame_budget(refresh_hz);
        self.stream_cap_kbps =
        stream_ceiling_kbps(
            width,
            height,
            refresh_hz,
            self.codec,
            self.bit_depth,
            self.chroma_format,
        );
        self.abr.set_stream_cap(self.stream_cap_kbps);
    }

    /// A burst went in or out of flight, ours or an embedder's. One beside
    /// video that no frame survived is followed by an ask for a keyframe.
    pub fn on_probe_active(&mut self, active: bool, duration_ms: u32, now: u64)
        requires
            old(self)@.wf(),
        ensures
            final(self)@.wf(),
            final(self)@ == old(self)@.heard(Event::ProbeActive(active, duration_ms, now)),
            final(self)@ == old(self)@.probed(active, duration_ms, now),
    {
        proof {
            reveal(DriverView::heard);
        }
        let frames: u64 = self.window.stats.frames_completed;
        let ended: Option<u64> = self.probe.on_active(active, duration_ms, frames, now);
        if let Some(frames_at_start) = ended {
            self.window.rebase(now);
            // A step ran before any picture, so it took none with it.
            if !self.probe.burst.step && frames == frames_at_start {
                self.pending.push(Action::Keyframe);
            }
        }
    }

    /// The host's end-of-burst report, as often as it is presented.
    pub fn on_probe_result(&mut self, r: ProbeReport, now: u64)
        requires
            old(self)@.wf(),
        ensures
            final(self)@.wf(),
            final(self)@ == old(self)@.heard(Event::ProbeResult(r, now)),
            final(self)@ == old(self)@.reported(r, now),
    {
        proof {
            reveal(DriverView::heard);
            reveal(DriverView::reported);
        }
        match self.probe.on_result(r, now) {
            Measured::NotOurs => {
                return;
            },
            Measured::Declined => {},
            Measured::Ceiling { ceiling_kbps, wall_kbps } => {
                self.abr.set_ceiling(ceiling_kbps);
                if let Some(kbps) = wall_kbps {
                    self.abr.note_measured_wall(ceiling_kbps, kbps);
                }
            },
        }
        self.window.rebase_bytes();
    }

    /// What the last judged window was.
    pub fn reason(&self) -> (r: Reason)
        ensures
            r == self@.read_as(),
            r == self@.abr.causes.last_reason,
    {
        self.abr.last_reason()
    }

    /// What the last cut was for, until the host grants a climb.
    pub fn last_cut(&self) -> (r: Option<Reason>)
        ensures
            r == self@.cut_for(),
            r == self@.abr.causes.last_cut,
    {
        self.abr.last_cut()
    }

    /// The rate the session is running at.
    pub fn target_kbps(&self) -> (r: u32)
        ensures
            r == self@.runs_at(),
            r == self@.abr.current_kbps,
    {
        self.abr.current_kbps
    }

    /// Every ramp step that settled, oldest first.
    pub fn ramp_steps(&self) -> (steps: &[RampStep])
        ensures
            steps@ == self@.steps_taken(),
            steps@ == self@.probe.history,
    {
        self.probe.ramp_steps()
    }

    /// What the ramp came to, once it stopped.
    pub fn ramp_outcome(&self) -> (s: Option<RampSummary>)
        ensures
            s == self@.probe.summary(),
    {
        self.probe.ramp_summary()
    }

    /// A measured link capacity.
    pub fn set_ceiling(&mut self, kbps: u32)
        requires
            old(self)@.wf(),
        ensures
            final(self)@.wf(),
            final(self)@ == old(self)@.heard(Event::SetCeiling(kbps)),
            final(self)@ == (DriverView { abr: old(self)@.abr.with_ceiling(kbps), ..old(self)@ }),
    {
        proof {
            reveal(DriverView::heard);
        }
        self.abr.set_ceiling(kbps);
    }

    /// The window in progress describes something other than the link.
    pub fn discard_window(&mut self)
        requires
            old(self)@.wf(),
        ensures
            final(self)@.wf(),
            final(self)@ == old(self)@.heard(Event::PipelineGap),
            final(self)@ == (DriverView {
                window: WindowAccumulator { discarding: true, ..old(self)@.window },
                ..old(self)@
            }),
    {
        proof {
            reveal(DriverView::heard);
        }
        self.window.discard();
    }

    /// What the ramp proved, applied once: the authority first, then the rate
    /// the session opens at.
    fn on_ramped(&mut self, ramped: Ramped, now: u64) -> (ask: Option<u32>)
        requires
            old(self)@.wf(),
        ensures
            final(self)@.wf(),
            (final(self)@, ask) == old(self)@.ramped(ramped, now),
    {
        if let Some(pin) = self.pin_kbps {
            return match ramped {
                Ramped::Wall { delivered_kbps } => {
                    let fit: u32 = lower(wall_ceiling_kbps(delivered_kbps), pin);
                    if fit > 0 && fit < pin {
                        Some(fit)
                    } else {
                        None
                    }
                },
                Ramped::NoWall { .. } => None,
            };
        }
        let proven_kbps: u32 = match ramped {
            Ramped::Wall { delivered_kbps } => {
                let licensed: u32 = wall_ceiling_kbps(delivered_kbps);
                self.abr.set_ceiling(licensed);
                self.abr.note_measured_wall(licensed, delivered_kbps);
                delivered_kbps
            },
            Ramped::NoWall { proven_kbps } => {
                if proven_kbps == 0 {
                    if !self.probe.ramp_cut_short() {
                        self.abr.no_link_evidence(self.stream_cap_kbps);
                    }
                    return None;
                }
                if !self.probe.ramp_cut_short() {
                    self.abr.set_ceiling(self.stream_cap_kbps);
                }
                proven_kbps
            },
        };
        let start: u32 = ramp_start_kbps(proven_kbps, self.stream_cap_kbps);
        self.abr.start_from_measurement(start, now)
    }

    /// The measurement's part of a tick.
    fn measure(&mut self, now: u64) -> (actions: Vec<Action>)
        requires
            old(self)@.wf(),
        ensures
            final(self)@.wf(),
            (final(self)@, actions@) == old(self)@.measured(now),
    {
        proof {
            reveal(DriverView::opening);
        }
        let mut actions: Vec<Action> = Vec::new();
        std::mem::swap(&mut actions, &mut self.pending);
        assert(self.pending@ =~= Seq::empty());
        if self.probe.expired(now) {
            actions.push(Action::AbandonProbe);
        }
        let ramp = self.probe.ramping();
        let ask: Option<(u32, u32)> = self.probe.poll(
            now,
            self.window.stats.frames_completed,
            self.video_aus,
        );
        if let Some((target_kbps, duration_ms)) = ask {
            actions.push(Action::Probe { target_kbps, duration_ms, ramp });
        }
        if self.probe.take_no_evidence() {
            self.abr.no_link_evidence(self.stream_cap_kbps);
        }
        if let Some(ramped) = self.probe.take_ramped(now) {
            let proven: u32 = ramped.proven_kbps();
            if proven > 0 {
                actions.push(Action::LinkRate(proven));
            }
            if let Some(kbps) = self.on_ramped(ramped, now) {
                actions.push(Action::SetBitrate(kbps));
            }
        }
        actions
    }

    /// Apply the acknowledgements that arrived, oldest first.
    fn apply_acks(&mut self)
        requires
            old(self)@.wf(),
        ensures
            final(self)@.wf(),
            final(self)@ == (DriverView {
                abr: all_acked(old(self)@.abr, old(self)@.acks),
                acks: Seq::empty(),
                ..old(self)@
            }),
    {
        let mut acks: Vec<(u32, Option<AckReason>)> = Vec::new();
        std::mem::swap(&mut acks, &mut self.acks);
        assert(self.acks@ =~= Seq::empty());
        let mut abr: BitrateController = self.abr;
        let ghost start = abr;
        let mut i: usize = 0;
        while i < acks.len()
            invariant
                i <= acks.len(),
                abr.wf(),
                abr == all_acked(start, acks@.take(i as int)),
            decreases acks.len() - i,
        {
            let (kbps, why): (u32, Option<AckReason>) = acks[i];
            abr.on_ack(kbps, why);
            assert(acks@.take(i + 1).drop_last() =~= acks@.take(i as int));
            i = i + 1;
        }
        assert(acks@.take(acks.len() as int) =~= acks@);
        self.abr = abr;
    }

    /// The window's part of a tick.
    fn close_window(&mut self, now: u64, sent: Vec<Action>) -> (tick: Tick)
        requires
            old(self)@.wf(),
        ensures
            final(self)@.wf(),
            (final(self)@, tick@) == old(self)@.window_closed(now, sent@),
    {
        let mut actions: Vec<Action> = sent;
        let closed: Closed = self.window.close(now);
        self.apply_acks();
        let w: WindowSample = closed.sample;
        if !closed.discarded {
            actions.push(Action::Loss(w.loss_ppm));
            if let Some(packets) = closed.delivery {
                actions.push(Action::Delivery(packets));
            }
            if let Some(kbps) = self.abr.on_window(&w) {
                actions.push(Action::SetBitrate(kbps));
            }
        }
        Tick {
            actions,
            window: Some(
                ClosedWindow {
                    sample: w,
                    discarded: closed.discarded,
                    loss_free: !closed.discarded && w.loss_ppm == 0 && w.dropped == 0,
                },
            ),
        }
    }

    /// Everything the session owes right now. Called every iteration; the
    /// report window closes inside it, on its own cadence.
    pub fn tick(&mut self, now: u64) -> (tick: Tick)
        requires
            old(self)@.wf(),
        ensures
            final(self)@.wf(),
            final(self)@ == old(self)@.heard(Event::Tick(now)),
            (final(self)@, tick@) == old(self)@.ticked(now),
    {
        proof {
            reveal(DriverView::heard);
            reveal(DriverView::ticked);
        }
        let actions: Vec<Action> = self.measure(now);
        if !self.window.due(now, self.probe.active()) {
            return Tick { actions, window: None };
        }
        self.close_window(now, actions)
    }
}

/// A discarded window sends nothing of its own and judges nothing: the
/// controller only hears the acknowledgements it owed.
pub proof fn law_a_discarded_window_teaches_nothing(d: DriverView, now: u64, sent: Seq<Action>)
    requires
        d.window.discarding,
    ensures
        d.window_closed(now, sent).1.actions == sent,
        d.window_closed(now, sent).0.abr == all_acked(d.abr, d.acks),
        d.window_closed(now, sent).1.window is Some,
        !d.window_closed(now, sent).1.window->0.loss_free,
{
}

/// A window that stands is always reported, and a loss-free one is one that
/// stands, lost no shard and lost no frame.
pub proof fn law_a_standing_window_is_reported(d: DriverView, now: u64, sent: Seq<Action>)
    requires
        !d.window.discarding,
    ensures
        d.window_closed(now, sent).1.actions.len() > sent.len(),
        d.window_closed(now, sent).1.actions[sent.len() as int] == Action::Loss(
            d.window.closing(now).sample.loss_ppm,
        ),
        d.window_closed(now, sent).1.window is Some,
        d.window_closed(now, sent).1.window->0.loss_free <==> (d.window.closing(
            now,
        ).sample.loss_ppm == 0 && d.window.closing(now).sample.dropped == 0),
{
}

/// No window closes while a burst is in flight.
pub proof fn law_a_burst_holds_the_report_back(d: DriverView, now: u64)
    requires
        d.measured(now).0.probe.burst.active,
    ensures
        d.ticked(now).1.window is None,
{
    reveal(DriverView::ticked);
}

/// A measurement never raises a pin, and only a wall lowers it.
pub proof fn law_a_pin_only_drops_on_a_wall(d: DriverView, ramped: Ramped, now: u64)
    requires
        d.pin_kbps is Some,
    ensures
        d.ramped(ramped, now).0 == d,
        d.ramped(ramped, now).1 is Some ==> ramped.is_wall() && 0 < d.ramped(ramped, now).1->0
            < d.pin_kbps->0,
{
}

/// A session opens under its ceiling, whatever the ramp proved.
pub proof fn law_an_opening_is_under_its_ceiling(c: BitrateController, kbps: u32, now: u64)
    ensures
        c.opened(kbps, now).1 is Some ==> c.opened(kbps, now).1->0 <= c.ceiling.kbps,
{
}

/// H.264, ten bits and full chroma are each allowed at least as much as the
/// stream without them, and a mode of no pixels is not bounded at all.
pub proof fn law_a_richer_stream_is_allowed_more(
    width: u32,
    height: u32,
    refresh_hz: u32,
    codec: u8,
    bit_depth: u8,
    chroma_format: u8,
)
    ensures
        stream_ceiling(width, height, refresh_hz, codec, bit_depth, chroma_format)
            <= stream_ceiling(width, height, refresh_hz, CODEC_H264, bit_depth, chroma_format),
        stream_ceiling(width, height, refresh_hz, codec, bit_depth, chroma_format)
            <= stream_ceiling(width, height, refresh_hz, codec, 10, chroma_format),
        stream_ceiling(width, height, refresh_hz, codec, bit_depth, chroma_format)
            <= stream_ceiling(width, height, refresh_hz, codec, bit_depth, CHROMA_IDC_444),
        width == 0 || height == 0 ==> stream_ceiling(
            width,
            height,
            refresh_hz,
            codec,
            bit_depth,
            chroma_format,
        ) == u32::MAX,
{
    let pixels = pixel_rate(width, height, refresh_hz);
    let plain = milli_bits_per_pixel(codec, bit_depth, chroma_format);
    lemma_more_bits(pixels, plain, milli_bits_per_pixel(CODEC_H264, bit_depth, chroma_format));
    lemma_more_bits(pixels, plain, milli_bits_per_pixel(codec, 10, chroma_format));
    lemma_more_bits(pixels, plain, milli_bits_per_pixel(codec, bit_depth, CHROMA_IDC_444));
    if width == 0 || height == 0 {
        assert(width * height == 0) by (nonlinear_arith)
            requires
                width == 0 || height == 0,
        ;
        let area = scaled(width as u64, height as u64);
        let hz = higher(refresh_hz, 1) as u64;
        assert(area * hz == 0) by (nonlinear_arith)
            requires
                area == 0,
        ;
    }
}

proof fn lemma_more_bits(pixels: u64, fewer: u64, more: u64)
    requires
        fewer <= more,
    ensures
        scaled(pixels, fewer) <= scaled(pixels, more),
{
    assert(pixels * fewer <= pixels * more) by (nonlinear_arith)
        requires
            fewer <= more,
    ;
}

/// A pinned session whose ramp hit a wall is lowered to seven tenths of what
/// the link delivered, and asked for exactly that, wherever it is under the
/// pin; where it is not, and where the ramp hit no wall, the pin stands.
pub proof fn law_a_wall_lowers_the_pin(d: DriverView, ramped: Ramped, now: u64)
    requires
        d.pin_kbps is Some,
    ensures
        ramped matches Ramped::Wall { delivered_kbps } ==> {
            let fit = delivered_kbps * 70 / 100;
            &&& 0 < fit < d.pin_kbps->0 ==> (d.ramped(ramped, now).1 matches Some(kbps) && kbps
                == fit)
            &&& fit == 0 || fit >= d.pin_kbps->0 ==> d.ramped(ramped, now).1 is None
        },
        !ramped.is_wall() ==> d.ramped(ramped, now).1 is None,
{
}

} // verus!
