//! What the driver sends, and what each thing it hears does to it.

use super::capacity::{Burst, ProbeView};
use super::controller::BitrateController;
use super::driver::{
    all_acked, milli_bits_per_pixel, pixel_rate, stream_ceiling, Action, DriverConfig, DriverView,
    WindowRecord,
};
use super::probe::{Measured, ProbeReport, Ramped};
use super::session::Event;
use crate::quic::AckReason;
use vstd::prelude::*;

verus! {

/// A pixel of H.264 may use one bit and a pixel of any other codec three
/// quarters of one; ten bits add a quarter, full chroma half again.
pub proof fn law_a_pixel_uses_so_many_bits(codec: u8, bit_depth: u8, chroma_format: u8)
    ensures
        ({
            let bits = milli_bits_per_pixel(codec, bit_depth, chroma_format);
            let deep = bit_depth >= 10;
            let full = chroma_format == 3;
            &&& codec == 1 && !deep && !full ==> bits == 1_000
            &&& codec == 1 && deep && !full ==> bits == 1_250
            &&& codec == 1 && !deep && full ==> bits == 1_500
            &&& codec == 1 && deep && full ==> bits == 1_875
            &&& codec != 1 && !deep && !full ==> bits == 750
            &&& codec != 1 && deep && !full ==> bits == 937
            &&& codec != 1 && !deep && full ==> bits == 1_125
            &&& codec != 1 && deep && full ==> bits == 1_405
        }),
{
}

/// A stream is bounded by its pixels a second times what a pixel may use, in
/// whole kilobits; a refresh of nothing counts as one.
pub proof fn law_a_stream_is_bounded_by_its_pixels(
    width: u32,
    height: u32,
    refresh_hz: u32,
    codec: u8,
    bit_depth: u8,
    chroma_format: u8,
)
    requires
        0 < width <= 100_000,
        0 < height <= 100_000,
        refresh_hz <= 1_000,
    ensures
        ({
            let hz: int = if refresh_hz == 0 {
                1
            } else {
                refresh_hz as int
            };
            let millibits = width * height * hz * milli_bits_per_pixel(
                codec,
                bit_depth,
                chroma_format,
            );
            let kbps = stream_ceiling(width, height, refresh_hz, codec, bit_depth, chroma_format);
            &&& pixel_rate(width, height, refresh_hz) == width * height * hz
            &&& kbps < u32::MAX ==> kbps * 1_000_000 <= millibits < (kbps + 1) * 1_000_000
        }),
{
    let hz: int = if refresh_hz == 0 {
        1
    } else {
        refresh_hz as int
    };
    let area = width * height;
    assert(0 < area <= 10_000_000_000) by (nonlinear_arith)
        requires
            area == width * height,
            0 < width <= 100_000,
            0 < height <= 100_000,
    ;
    let pixels = area * hz;
    assert(0 < pixels <= 10_000_000_000_000) by (nonlinear_arith)
        requires
            pixels == area * hz,
            0 < area <= 10_000_000_000,
            1 <= hz <= 1_000,
    ;
    let bits = milli_bits_per_pixel(codec, bit_depth, chroma_format) as int;
    assert(0 < bits <= 1_875);
    assert(0 < pixels * bits <= 18_750_000_000_000_000) by (nonlinear_arith)
        requires
            0 < pixels <= 10_000_000_000_000,
            0 < bits <= 1_875,
    ;
}

/// A driver starts as it was told to: a pin of nothing is none, a pin is the
/// rate it runs at, and nothing waits.
pub proof fn law_a_driver_starts_as_it_was_told(cfg: DriverConfig, now: u64)
    ensures
        ({
            let d = DriverView::fresh(cfg, now);
            let pinned = cfg.pin_kbps matches Some(k) && k > 0;
            &&& pinned ==> d.pin_kbps == cfg.pin_kbps && Some(d.abr.current_kbps) == cfg.pin_kbps
            &&& !pinned ==> d.pin_kbps is None && d.abr.current_kbps == cfg.start_kbps
            &&& d.abr.enabled <==> cfg.start_kbps > 0
            &&& d.abr.ceiling.stream_cap_kbps == Some(cfg.stream_cap_kbps)
            &&& d.abr.ceiling.cap_kbps == cfg.ceiling_cap_kbps
            &&& d.stream_cap_kbps == cfg.stream_cap_kbps && d.codec == cfg.codec && d.bit_depth
                == cfg.bit_depth && d.chroma_format == cfg.chroma_format
            &&& d.window.opened_at == now && !d.window.discarding && d.window.audio_reserved_kbps
                == cfg.audio_reserved_kbps && d.window.marks_repeats == cfg.marks_repeats
                && d.window.reads_delivery == cfg.reads_delivery
            &&& pinned ==> d.probe == ProbeView::fresh_pinned(
                cfg.probe && cfg.ramp,
                cfg.probe_target_kbps,
                d.abr.current_kbps,
                now,
            )
            &&& !pinned ==> d.probe == ProbeView::fresh(
                cfg.probe && cfg.start_kbps > 0,
                cfg.ramp,
                cfg.probe_target_kbps,
                cfg.stream_cap_kbps,
                now,
            )
            &&& d.pending.len() == 0 && d.acks.len() == 0 && d.video_aus == 0
        }),
{
}

/// A mode switch sizes the stream anew, in the codec, depth and chroma the
/// session has, and the controller forgets the old mode.
pub proof fn law_a_mode_switch_sizes_the_stream(d: DriverView, width: u32, height: u32, hz: u32)
    ensures
        ({
            let s = d.heard(Event::ModeSwitch(width, height, hz));
            let cap = stream_ceiling(width, height, hz, d.codec, d.bit_depth, d.chroma_format);
            &&& s.stream_cap_kbps == cap && s.abr.ceiling.stream_cap_kbps == Some(cap)
            &&& s.abr.current_kbps == d.abr.current_kbps && s.abr.link == d.abr.link
            &&& s.abr.decoder.cap.kbps is None && s.abr.host.cap.kbps is None
            &&& d.abr.ceiling.stream_cap_kbps is Some && d.abr.enabled ==> s.abr.ceiling.kbps <= cap
            &&& hz > 0 ==> s.abr.frame_budget_us is Some
            &&& s.window == d.window && s.probe == d.probe && s.pending == d.pending && s.acks
                == d.acks && s.pin_kbps == d.pin_kbps && s.codec == d.codec
        }),
{
    reveal(DriverView::heard);
    reveal(DriverView::switched);
}

/// A burst that ends starts the window over and discards it; beside video and
/// without a frame since it started, it also owes a keyframe. One that starts
/// leaves the window and the queue alone.
pub proof fn law_a_burst_ends_the_window(d: DriverView, active: bool, ms: u32, now: u64)
    ensures
        ({
            let p = d.heard(Event::ProbeActive(active, ms, now));
            let ends = d.probe.burst.active && !active;
            let lost = !d.probe.burst.step && d.window.stats.frames_completed
                == d.probe.burst.frames_at_start;
            &&& p.probe == d.probe.activated(active, ms, d.window.stats.frames_completed, now)
            &&& ends ==> p.window.discarding && p.window.opened_at == now && p.window.stats
                == d.window.stats && p.window.tally.fresh == 0
            &&& !ends ==> p.window == d.window && p.pending == d.pending
            &&& ends && lost ==> p.pending == d.pending.push(Action::Keyframe)
            &&& ends && !lost ==> p.pending == d.pending
            &&& p.abr == d.abr && p.acks == d.acks && p.video_aus == d.video_aus
        }),
{
    reveal(DriverView::heard);
}

/// A report that is the driver's own moves the byte anchor past the burst, and
/// one that measured something sets the ceiling; where the link refused, the
/// wall is held there too. One that is not its own changes only the
/// measurement.
pub proof fn law_a_report_sets_the_ceiling(d: DriverView, r: ProbeReport, now: u64)
    ensures
        ({
            let h = d.heard(Event::ProbeResult(r, now));
            let (probe, measured) = d.probe.resulted(r, now);
            let arrived = super::window::Anchors::of(&d.window.stats).bytes;
            &&& h.probe == probe
            &&& measured is NotOurs ==> h.window == d.window && h.abr == d.abr
            &&& measured is Declined ==> h.abr == d.abr
            &&& !(measured is NotOurs) ==> h.window.anchors.bytes == arrived
                && h.window.anchors.packets == d.window.anchors.packets && h.window.anchors.dropped
                == d.window.anchors.dropped && h.window.tally == d.window.tally
            &&& measured matches Measured::Ceiling { ceiling_kbps, wall_kbps } ==> {
                &&& wall_kbps is None ==> h.abr == d.abr.with_ceiling(ceiling_kbps)
                &&& wall_kbps matches Some(k) ==> h.abr == d.abr.with_ceiling(ceiling_kbps).walled(
                    ceiling_kbps,
                    k,
                )
            }
            &&& h.pending == d.pending && h.acks == d.acks && h.pin_kbps == d.pin_kbps
        }),
{
    reveal(DriverView::heard);
    reveal(DriverView::reported);
}

/// An acknowledgement waits for the window to close; a request that never left
/// is uncounted; a ceiling handed in is a measurement.
pub proof fn law_the_controllers_own_news(d: DriverView, kbps: u32, why: Option<AckReason>, now: u64)
    requires
        d.abr.asks.unacked > 0,
    ensures
        d.heard(Event::Ack(kbps, why)).acks == d.acks.push((kbps, why)),
        d.heard(Event::Ack(kbps, why)).abr == d.abr,
        d.heard(Event::RequestDropped).abr.asks.unacked == d.abr.asks.unacked - 1,
        d.heard(Event::RequestDropped).abr.asks.last_requested_kbps is None,
        d.heard(Event::RequestDropped).acks == d.acks,
        d.heard(Event::SetCeiling(kbps)).abr == d.abr.with_ceiling(kbps),
        d.heard(Event::SetCeiling(kbps)).window == d.window,
        d.heard(Event::ProbeDropped(now)).probe == d.probe.dropped(now),
        d.heard(Event::ProbeDropped(now)).abr == d.abr,
        d.heard(Event::PipelineGap).window.discarding,
        d.heard(Event::PipelineGap).abr == d.abr,
{
    reveal(DriverView::heard);
}

/// Acknowledgements are heard oldest first: the last one that names a rate is
/// the rate the session runs at.
pub proof fn law_the_last_answer_stands(
    c: BitrateController,
    acks: Seq<(u32, Option<AckReason>)>,
    kbps: u32,
    why: Option<AckReason>,
)
    requires
        kbps > 0,
        why != Some(AckReason::Governor),
    ensures
        all_acked(c, Seq::empty()) == c,
        all_acked(c, acks.push((kbps, why))) == all_acked(c, acks).after_ack(kbps, why),
        all_acked(c, acks.push((kbps, why))).current_kbps == kbps,
        all_acked(c, acks.push((kbps, why))).asks.unacked == 0,
{
    assert(acks.push((kbps, why)).drop_last() =~= acks);
}

/// What an unpinned session takes from its ramp. A wall licenses seven tenths
/// of what was delivered and is held there. A ramp that ran out of steps frees
/// the stream's own bound; one that proved nothing leaves that bound to the
/// session; one that was cut short licenses nothing. It opens at half of what
/// was proved, or a fifth of what the stream can use.
pub proof fn law_a_ramp_opens_the_session(d: DriverView, ramped: Ramped, now: u64)
    requires
        d.pin_kbps is None,
    ensures
        ({
            let (after, ask) = d.ramped(ramped, now);
            let cut_short = d.probe.ramp is Some && d.probe.ramp->0.cut_short;
            let given = d.authorised(ramped);
            &&& ramped matches Ramped::Wall { delivered_kbps } ==> {
                let licensed = (delivered_kbps * 70 / 100) as u32;
                given == d.abr.with_ceiling(licensed).walled(licensed, delivered_kbps)
            }
            &&& ramped matches Ramped::NoWall { proven_kbps } ==> {
                &&& cut_short ==> given == d.abr
                &&& !cut_short && proven_kbps > 0 ==> given == d.abr.with_ceiling(d.stream_cap_kbps)
                &&& !cut_short && proven_kbps == 0 ==> given == d.abr.unmeasured(d.stream_cap_kbps)
                &&& proven_kbps == 0 ==> ask is None && after.abr == given
            }
            &&& ramped matches Ramped::Wall { delivered_kbps } ==> {
                let start: int = if d.stream_cap_kbps / 5 < delivered_kbps / 2 {
                    (d.stream_cap_kbps / 5) as int
                } else {
                    (delivered_kbps / 2) as int
                };
                (after.abr, ask) == given.opened(start as u32, now)
            }
            &&& ramped matches Ramped::NoWall { proven_kbps } ==> (proven_kbps > 0 ==> {
                let start: int = if d.stream_cap_kbps / 5 < proven_kbps / 2 {
                    (d.stream_cap_kbps / 5) as int
                } else {
                    (proven_kbps / 2) as int
                };
                (after.abr, ask) == given.opened(start as u32, now)
            })
            &&& after.window == d.window && after.probe == d.probe && after.stream_cap_kbps
                == d.stream_cap_kbps
        }),
{
}

/// A tick sends in one order: what waited, the probe it gives up, the probe it
/// asks for, what the ramp proved, and the rate to open at.
pub proof fn law_a_measurement_is_sent_in_order(d: DriverView, now: u64)
    ensures
        ({
            let (after, sent, ask) = d.opening(now);
            let (lapsed, abandoned) = d.probe.lapsed(now);
            let (polled, probe) = lapsed.polled(
                now,
                d.window.stats.frames_completed,
                d.video_aus,
            );
            let told = ProbeView { burst: Burst { no_evidence: false, ..polled.burst }, ..polled };
            let verdict = told.verdict_taken(now).1;
            let n = d.pending.len() as int;
            let gave: int = if abandoned {
                1
            } else {
                0
            };
            let asked: int = if probe is Some {
                1
            } else {
                0
            };
            let proved: int = if verdict is Some && verdict->0.proven_kbps() > 0 {
                1
            } else {
                0
            };
            &&& sent.len() == n + gave + asked + proved
            &&& forall|i: int| 0 <= i < n ==> sent[i] == d.pending[i]
            &&& abandoned ==> sent[n] == Action::AbandonProbe
            &&& probe matches Some((kbps, ms)) ==> (sent[n + gave] matches Action::Probe {
                target_kbps,
                duration_ms,
                ramp,
            } && target_kbps == kbps && duration_ms == ms && ramp == lapsed.ramping())
            &&& proved == 1 ==> sent[n + gave + asked] == Action::LinkRate(verdict->0.proven_kbps())
            &&& verdict is None ==> ask is None
            &&& after.pending.len() == 0
            &&& after.probe == told.verdict_taken(now).0
            &&& polled.burst.no_evidence && verdict is None ==> after.abr == d.abr.unmeasured(
                d.stream_cap_kbps,
            )
            &&& !polled.burst.no_evidence && verdict is None ==> after.abr == d.abr
            &&& verdict matches Some(ramped) ==> ask == after.ramped_from(d, polled, ramped, now).1
                && after.abr == after.ramped_from(d, polled, ramped, now).0.abr
            &&& ask is None ==> d.measured(now).1 == sent
            &&& ask matches Some(kbps) ==> d.measured(now).1 == sent.push(Action::SetBitrate(kbps))
            &&& d.measured(now).0 == after
        }),
{
    reveal(DriverView::opening);
}

impl DriverView {
    /// What the ramp's verdict does to the session `d`, whose measurement is
    /// this one's.
    pub open spec fn ramped_from(
        self,
        d: DriverView,
        polled: ProbeView,
        ramped: Ramped,
        now: u64,
    ) -> (DriverView, Option<u32>) {
        DriverView {
            abr: if polled.burst.no_evidence {
                d.abr.unmeasured(d.stream_cap_kbps)
            } else {
                d.abr
            },
            probe: self.probe,
            pending: Seq::empty(),
            ..d
        }.ramped(ramped, now)
    }
}

/// A window that closes hears its acknowledgements first. One that stands is
/// then judged, and sends its loss, its delivery where the host reads it, and
/// the rate the controller asks for, in that order.
pub proof fn law_a_closed_window_is_sent_in_order(d: DriverView, now: u64, sent: Seq<Action>)
    ensures
        ({
            let (after, tick) = d.window_closed(now, sent);
            let closed = d.window.closing(now);
            let heard = all_acked(d.abr, d.acks);
            let (judged, ask) = heard.windowed(closed.sample);
            let n = sent.len() as int;
            let read: int = if d.window.reads_delivery {
                1
            } else {
                0
            };
            let asked: int = if ask is Some {
                1
            } else {
                0
            };
            &&& tick.window matches Some(w) && w.sample == closed.sample && w.discarded
                == d.window.discarding
            &&& d.window.discarding ==> tick.actions == sent && after.abr == heard
            &&& !d.window.discarding ==> after.abr == judged && tick.actions.len() == n + 1 + read
                + asked && tick.actions[n] == Action::Loss(closed.sample.loss_ppm)
            &&& !d.window.discarding && d.window.reads_delivery ==> tick.actions[n + 1]
                == Action::Delivery(d.window.stats.packets_received)
            &&& !d.window.discarding ==> (ask matches Some(kbps) ==> tick.actions[n + 1 + read]
                == Action::SetBitrate(kbps))
            &&& forall|i: int| 0 <= i < n ==> tick.actions[i] == sent[i]
            &&& after.acks.len() == 0 && after.window.opened_at == now && !after.window.discarding
                && after.window.tally.fresh == 0 && after.window.tally.keyframe_asks == 0
                && !after.window.tally.flushed
            &&& after.probe == d.probe && after.pending == d.pending
        }),
{
}

/// A window closes three quarters of a second after it opened, and not while a
/// burst is in flight; until then a tick sends what the measurement sends.
pub proof fn law_a_window_closes_on_its_cadence(d: DriverView, now: u64)
    ensures
        ({
            let (after, tick) = d.ticked(now);
            let (measured, sent) = d.measured(now);
            let due = !measured.probe.burst.active && now >= measured.window.opened_at + 750_000_000;
            &&& tick.window is Some <==> due
            &&& due ==> (after, tick) == measured.window_closed(now, sent)
            &&& !due ==> after == measured && tick.actions == sent
        }),
{
    reveal(DriverView::ticked);
}

/// A record's metric is the record's own.
pub proof fn law_a_metric_reads_its_record(r: WindowRecord)
    ensures
        r.metric().t_ms == r.t_ms && r.metric().rate_kbps == r.rate_kbps,
        r.metric().request_kbps == r.request_kbps && r.metric().dropped == r.sample.dropped,
        r.metric().discarded == r.discarded,
{
}

/// A session runs at its pin or its negotiated rate, then at the last rate the
/// host named; nothing was read or cut at its start, and no step taken.
pub proof fn law_a_session_runs_at_the_last_rate_named(
    cfg: DriverConfig,
    d: DriverView,
    kbps: u32,
    why: Option<AckReason>,
    now: u64,
    sent: Seq<Action>,
)
    requires
        kbps > 0,
        why != Some(AckReason::Governor),
        d.acks.len() > 0,
        d.acks.last() == (kbps, why),
    ensures
        ({
            let f = DriverView::fresh(cfg, now);
            &&& cfg.pin_kbps is None ==> f.runs_at() == cfg.start_kbps
            &&& cfg.pin_kbps matches Some(pin) ==> (pin > 0 ==> f.runs_at() == pin)
            &&& f.read_as() == super::verdict::Reason::Clean && f.cut_for() is None
            &&& f.steps_taken().len() == 0
        }),
        d.window_closed(now, sent).0.runs_at() == kbps,
        d.window_closed(now, sent).0.steps_taken() == d.steps_taken(),
{
    let acks = d.acks.drop_last();
    assert(acks.push((kbps, why)) =~= d.acks);
    law_the_last_answer_stands(d.abr, acks, kbps, why);
    super::laws::law_a_window_only_asks(
        all_acked(d.abr, d.acks),
        d.window.closing(now).sample,
    );
}

} // verus!
