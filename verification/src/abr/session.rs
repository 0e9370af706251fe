//! A session as the driver hears it, and what holds of every one.

use super::capacity::{Burst, ProbeView};
use super::driver::{keyframes_only, Action, DriverConfig, DriverView};
use super::probe::{ProbeReport, Ramp, RampStep, RampStepEnd, RAMP_START_KBPS};
use super::window::{latency_us, Tally, WindowAccumulator};
use crate::math::total;
use crate::quic::AckReason;
use crate::stats::Stats;
use vstd::prelude::*;

verus! {

/// Everything a driver can be told.
pub enum Event {
    Stats(Stats),
    Au(bool),
    Owd(i128),
    ShardOwd(i128),
    DecodeLatency(u64, u32),
    EncodeLatency(u64, u32),
    KeyframeAsks(u32),
    Flush,
    PipelineGap,
    Ack(u32, Option<AckReason>),
    RequestDropped,
    ProbeDropped(u64),
    ModeSwitch(u32, u32, u32),
    ProbeActive(bool, u32, u64),
    ProbeResult(ProbeReport, u64),
    SetCeiling(u32),
    Tick(u64),
}

impl DriverView {
    /// The driver with another tally in its window.
    pub open spec fn tallied(self, tally: Tally) -> DriverView {
        DriverView { window: WindowAccumulator { tally, ..self.window }, ..self }
    }

    /// The driver after an event, as its own method leaves it.
    #[verifier::opaque]
    pub open spec fn heard(self, e: Event) -> DriverView {
        let tally = self.window.tally;
        match e {
            Event::Stats(stats) => DriverView {
                window: WindowAccumulator { stats, ..self.window },
                ..self
            },
            Event::Au(repeat) => DriverView {
                video_aus: total(self.video_aus, 1),
                window: self.window.with_au(repeat),
                ..self
            },
            Event::Owd(ns) => self.tallied(Tally { owd: tally.owd.with(latency_us(ns)), ..tally }),
            Event::ShardOwd(ns) => self.tallied(
                Tally { shards: tally.shards.with(latency_us(ns)), ..tally },
            ),
            Event::DecodeLatency(sum_us, count) => self.tallied(
                Tally { decode: tally.decode.plus(sum_us, count), ..tally },
            ),
            Event::EncodeLatency(sum_us, count) => self.tallied(
                Tally { encode: tally.encode.plus(sum_us, count), ..tally },
            ),
            Event::KeyframeAsks(n) => self.tallied(
                Tally {
                    keyframe_asks: if tally.keyframe_asks + n > u32::MAX {
                        u32::MAX
                    } else {
                        (tally.keyframe_asks + n) as u32
                    },
                    ..tally
                },
            ),
            Event::Flush => self.tallied(Tally { flushed: true, ..tally }),
            Event::PipelineGap => DriverView {
                window: WindowAccumulator { discarding: true, ..self.window },
                ..self
            },
            Event::Ack(kbps, why) => DriverView { acks: self.acks.push((kbps, why)), ..self },
            Event::RequestDropped => DriverView { abr: self.abr.unasked(), ..self },
            Event::ProbeDropped(now) => DriverView { probe: self.probe.dropped(now), ..self },
            Event::ModeSwitch(width, height, refresh_hz) => self.switched(
                width,
                height,
                refresh_hz,
            ),
            Event::ProbeActive(active, duration_ms, now) => self.probed(active, duration_ms, now),
            Event::ProbeResult(r, now) => self.reported(r, now),
            Event::SetCeiling(kbps) => DriverView { abr: self.abr.with_ceiling(kbps), ..self },
            Event::Tick(now) => self.ticked(now).0,
        }
    }

    /// The driver after each of `events` in turn.
    pub open spec fn lived(self, events: Seq<Event>) -> DriverView
        decreases events.len(),
    {
        if events.len() == 0 {
            self
        } else {
            self.lived(events.drop_last()).heard(events.last())
        }
    }
}

/// The event discards the window in flight: a gap in the host's pipeline, or
/// the end of a burst.
pub open spec fn marks(d: DriverView, e: Event) -> bool {
    ||| e is PipelineGap
    ||| e matches Event::ProbeActive(active, duration_ms, now) && !active && d.probe.burst.active
}

/// The driver keeps its rate, its switch, its queues, its burst's start and
/// the mark of its window, and asks for no more than before.
pub open spec fn steady(d: DriverView, e: DriverView) -> bool {
    &&& e.abr.current_kbps == d.abr.current_kbps
    &&& e.abr.enabled == d.abr.enabled
    &&& d.abr.asks.unacked == 0 ==> e.abr.asks.unacked == 0
    &&& d.abr.asks.last_requested_kbps is None ==> e.abr.asks.last_requested_kbps is None
    &&& e.acks == d.acks
    &&& e.pending == d.pending
    &&& e.window.discarding == d.window.discarding
    &&& e.probe.burst.active == d.probe.burst.active
    &&& e.probe.burst.frames_at_start == d.probe.burst.frames_at_start
    &&& e.probe.burst.step == d.probe.burst.step
}

proof fn lemma_switched_steady(d: DriverView, width: u32, height: u32, refresh_hz: u32)
    ensures
        steady(d, d.switched(width, height, refresh_hz)),
        d.switched(width, height, refresh_hz).probe == d.probe,
{
    reveal(DriverView::switched);
}

proof fn lemma_reported_steady(d: DriverView, r: ProbeReport, now: u64)
    ensures
        steady(d, d.reported(r, now)),
{
    reveal(DriverView::reported);
}

/// What an event between two ticks leaves alone: the rate, the switch and the
/// requests that are out; what is acknowledged but by an acknowledgement; the
/// burst but when one starts or ends; and the mark of the window but where it
/// is set.
pub proof fn lemma_between_ticks(d: DriverView, e: Event)
    requires
        !(e is Tick),
    ensures
        d.heard(e).abr.current_kbps == d.abr.current_kbps,
        d.heard(e).abr.enabled == d.abr.enabled,
        d.abr.asks.unacked == 0 ==> d.heard(e).abr.asks.unacked == 0,
        d.abr.asks.last_requested_kbps is None ==> d.heard(e).abr.asks.last_requested_kbps is None,
        d.heard(e).acks == match e {
            Event::Ack(kbps, why) => d.acks.push((kbps, why)),
            _ => d.acks,
        },
        d.heard(e).window.discarding == (d.window.discarding || marks(d, e)),
        !(e is ProbeActive) ==> d.heard(e).pending == d.pending,
        !(e is ProbeActive) ==> d.heard(e).probe.burst.active == d.probe.burst.active,
        !(e is ProbeActive) ==> d.heard(e).probe.burst.frames_at_start
            == d.probe.burst.frames_at_start,
        !(e is ProbeActive) ==> d.heard(e).probe.burst.step == d.probe.burst.step,
        keyframes_only(d.pending) ==> keyframes_only(d.heard(e).pending),
{
    reveal(DriverView::heard);
    match e {
        Event::ModeSwitch(width, height, refresh_hz) => {
            lemma_switched_steady(d, width, height, refresh_hz);
        },
        Event::ProbeResult(r, now) => {
            lemma_reported_steady(d, r, now);
        },
        _ => {},
    }
}

/// One step of a ramp's history follows another: a rate that was carried is
/// followed by a higher one, at most its double, and a refusal without loss by
/// the same rate once more.
pub open spec fn follows(a: RampStep, b: RampStep) -> bool {
    ||| a.end is Continued && a.target_kbps < b.target_kbps <= 2 * a.target_kbps && !b.repeat
    ||| a.end is RefusedReAsking && b.target_kbps == a.target_kbps && b.repeat
}

/// A ramp's history: it starts at the first rate, each step follows the one
/// before, and one rate at most was asked again.
pub open spec fn ramp_history(h: Seq<RampStep>) -> bool {
    &&& (h.len() > 0 ==> h[0].target_kbps == RAMP_START_KBPS && !h[0].repeat)
    &&& forall|i: int|
        #![trigger h[i]]
        0 <= i && i + 1 < h.len() ==> follows(h[i], h[i + 1])
    &&& forall|i: int, j: int|
        0 <= i < h.len() && 0 <= j < h.len() && h[i].end is RefusedReAsking
            && h[j].end is RefusedReAsking ==> i == j
}

/// What the ramp asks for next.
pub open spec fn next_rate(r: Ramp) -> u32 {
    r.next_ask().0
}

/// A running ramp is where its history left it.
pub open spec fn ramp_running(r: Ramp, h: Seq<RampStep>) -> bool {
    let t = next_rate(r);
    &&& RAMP_START_KBPS <= t
    &&& RAMP_START_KBPS <= r.max_kbps
    &&& h.len() <= t - RAMP_START_KBPS + (if r.re_ask_spent {
        1int
    } else {
        0
    })
    &&& (r.confirming is Some ==> r.re_ask_spent)
    &&& (h.len() == 0 ==> t == RAMP_START_KBPS && r.confirming is None && !r.re_ask_spent)
    &&& (h.len() > 0 ==> {
        ||| h.last().end is Continued && h.last().target_kbps < t <= 2 * h.last().target_kbps
            && r.confirming is None
        ||| h.last().end is RefusedReAsking && h.last().target_kbps == t && r.confirming is Some
    })
    &&& (r.step is Some ==> r.step->0.target_kbps == t && r.step->0.repeat == (r.confirming
        is Some))
    &&& r.steps >= h.len() + (if r.step is Some {
        1int
    } else {
        0
    })
}

/// A ramp that stopped agrees with the last step of its history.
pub open spec fn ramp_over(r: Ramp, h: Seq<RampStep>) -> bool {
    &&& r.step is None
    &&& r.steps >= h.len()
    &&& (r.wall <==> h.len() > 0 && h.last().end is Wall)
    &&& (r.wall ==> h.last().end == RampStepEnd::Wall { delivered_kbps: r.proven_kbps })
}

/// The measurement and its history belong together.
pub open spec fn traced(p: ProbeView) -> bool {
    &&& ramp_history(p.history)
    &&& match p.ramp {
        None => p.history.len() == 0,
        Some(r) => {
            &&& (!r.re_ask_spent ==> forall|i: int|
                0 <= i < p.history.len() ==> !(#[trigger] p.history[i].end is RefusedReAsking))
            &&& if r.done {
                ramp_over(r, p.history)
            } else {
                ramp_running(r, p.history)
            }
        },
    }
}

/// The later measurement is the earlier one further on: its history is longer
/// or the same, and a ramp that had stopped is as it was.
pub open spec fn extends(p: ProbeView, q: ProbeView) -> bool {
    &&& p.history.len() <= q.history.len()
    &&& q.history.take(p.history.len() as int) == p.history
    &&& (p.summary() is Some ==> q.summary() == p.summary() && q.history == p.history)
}

proof fn lemma_extends(a: ProbeView, b: ProbeView, c: ProbeView)
    requires
        extends(a, b),
        extends(b, c),
    ensures
        extends(a, c),
{
    assert(c.history.take(a.history.len() as int) =~= c.history.take(
        b.history.len() as int,
    ).take(a.history.len() as int));
}

proof fn lemma_unmoved(p: ProbeView, q: ProbeView)
    requires
        p.history == q.history,
        p.summary() is Some ==> q.summary() == p.summary(),
    ensures
        extends(p, q),
{
    assert(q.history.take(p.history.len() as int) =~= p.history);
}

/// A step that ends goes to the history's end.
proof fn lemma_noted(p: ProbeView, step: RampStep, q: ProbeView)
    requires
        traced(p),
        p.ramping(),
        p.ramp->0.step is Some,
        step.target_kbps == p.ramp->0.step->0.target_kbps,
        step.repeat == p.ramp->0.step->0.repeat,
        step.end is RefusedReAsking ==> !p.ramp->0.re_ask_spent,
        q.history == p.history.push(step),
    ensures
        ramp_history(q.history),
        extends(p, q),
{
    let h = p.history;
    let g = q.history;
    assert(g.take(h.len() as int) =~= h);
    assert forall|i: int| #![trigger g[i]] 0 <= i && i + 1 < g.len() implies follows(
        g[i],
        g[i + 1],
    ) by {
        if i + 1 < h.len() {
            assert(follows(h[i], h[i + 1]));
        } else {
            assert(g[i] == h.last());
        }
    }
    assert forall|i: int, j: int|
        0 <= i < g.len() && 0 <= j < g.len() && g[i].end is RefusedReAsking
            && g[j].end is RefusedReAsking implies i == j by {
        if i < h.len() {
            assert(g[i] == h[i]);
        }
        if j < h.len() {
            assert(g[j] == h[j]);
        }
    }
}

/// A ramp cut where it stands keeps its history.
proof fn lemma_cut(p: ProbeView, burst: Burst, now: u64)
    requires
        traced(p),
        p.ramp is Some,
    ensures
        traced(ProbeView { burst, ramp: Some(p.ramp->0.cut(now)), ..p }),
        extends(p, ProbeView { burst, ramp: Some(p.ramp->0.cut(now)), ..p }),
{
    lemma_unmoved(p, ProbeView { burst, ramp: Some(p.ramp->0.cut(now)), ..p });
}

/// A settled step is noted, and the ramp goes on from it or stops at it.
proof fn lemma_settled(p: ProbeView, now: u64)
    requires
        traced(p),
        p.ramping(),
        p.ramp->0.step is Some,
    ensures
        traced(p.ramp_polled(now, 0).0),
        extends(p, p.ramp_polled(now, 0).0),
{
    let r = p.ramp->0;
    let h = p.history;
    let q = p.ramp_polled(now, 0).0;
    let (ramp, ended, ask) = r.settled(now);
    match ended {
        None => {
            lemma_unmoved(p, q);
        },
        Some(step) => {
            lemma_noted(p, step, q);
            assert(q.history.last() == step);
            if !ramp.re_ask_spent {
                assert forall|i: int| 0 <= i < q.history.len() implies !(
                #[trigger] q.history[i].end is RefusedReAsking) by {
                    if i < h.len() {
                        assert(q.history[i] == h[i]);
                    }
                }
            }
        },
    }
}

/// A report is folded in, or ends the ramp with the step it declines.
proof fn lemma_resulted(p: ProbeView, r: ProbeReport, now: u64)
    requires
        traced(p),
    ensures
        traced(p.resulted(r, now).0),
        extends(p, p.resulted(r, now).0),
{
    let q = p.resulted(r, now).0;
    if p.ramping() {
        let (ramp, ended) = p.ramp->0.reported(r, now);
        match ended {
            None => {
                lemma_unmoved(p, q);
            },
            Some(step) => {
                lemma_noted(p, step, q);
                assert(q.history.last() == step);
                assert forall|i: int| 0 <= i < q.history.len() && !ramp.re_ask_spent implies !(
                #[trigger] q.history[i].end is RefusedReAsking) by {
                    if i < p.history.len() {
                        assert(q.history[i] == p.history[i]);
                    }
                }
            },
        }
    } else {
        lemma_unmoved(p, q);
    }
}

proof fn lemma_polled(p: ProbeView, now: u64, frames_completed: u64, video_aus: u64)
    requires
        traced(p),
    ensures
        traced(p.polled(now, frames_completed, video_aus).0),
        extends(p, p.polled(now, frames_completed, video_aus).0),
{
    let q = p.polled(now, frames_completed, video_aus).0;
    if p.ramping() {
        if video_aus > 0 {
            lemma_cut(p, p.burst, now);
        } else if p.ramp->0.step is Some {
            lemma_settled(p, now);
        } else {
            lemma_unmoved(p, q);
        }
    } else {
        lemma_unmoved(p, q);
    }
}

proof fn lemma_lapsed(p: ProbeView, now: u64)
    requires
        traced(p),
    ensures
        traced(p.lapsed(now).0),
        extends(p, p.lapsed(now).0),
{
    if p.step_expired(now) {
        lemma_cut(p, p.lapsed(now).0.burst, now);
    } else {
        lemma_unmoved(p, p.lapsed(now).0);
    }
}

proof fn lemma_verdict_taken(p: ProbeView, now: u64)
    requires
        traced(p),
    ensures
        traced(p.verdict_taken(now).0),
        extends(p, p.verdict_taken(now).0),
{
    lemma_unmoved(p, p.verdict_taken(now).0);
}

/// A tick's measurement keeps the trace.
proof fn lemma_measured(d: DriverView, now: u64)
    requires
        traced(d.probe),
    ensures
        traced(d.measured(now).0.probe),
        extends(d.probe, d.measured(now).0.probe),
{
    reveal(DriverView::opening);
    let lapsed = d.probe.lapsed(now).0;
    let frames = d.window.stats.frames_completed;
    let polled = lapsed.polled(now, frames, d.video_aus).0;
    let told = ProbeView { burst: Burst { no_evidence: false, ..polled.burst }, ..polled };
    let probe = told.verdict_taken(now).0;
    lemma_lapsed(d.probe, now);
    lemma_polled(lapsed, now, frames, d.video_aus);
    lemma_unmoved(polled, told);
    lemma_verdict_taken(told, now);
    lemma_extends(d.probe, lapsed, polled);
    lemma_extends(d.probe, polled, told);
    lemma_extends(d.probe, told, probe);
    assert(d.measured(now).0.probe == probe);
}

/// A tick's window leaves the measurement alone, and nothing waits after it.
pub proof fn lemma_ticked_probe(d: DriverView, now: u64)
    ensures
        d.ticked(now).0.probe == d.measured(now).0.probe,
        d.ticked(now).0.pending == Seq::<Action>::empty(),
{
    reveal(DriverView::ticked);
    let measured = d.measured(now).0;
    assert(measured.pending == Seq::<Action>::empty()) by {
        reveal(DriverView::opening);
    }
    if measured.window.due(now, measured.probe.burst.active) {
        let sent = d.measured(now).1;
        assert(measured.window_closed(now, sent).0.probe == measured.probe);
        assert(measured.window_closed(now, sent).0.pending == measured.pending);
    }
}

proof fn lemma_reported_probe(d: DriverView, r: ProbeReport, now: u64)
    ensures
        d.reported(r, now).probe == d.probe.resulted(r, now).0,
        d.reported(r, now).pending == d.pending,
{
    reveal(DriverView::reported);
}

proof fn lemma_probed(d: DriverView, active: bool, duration_ms: u32, now: u64)
    ensures
        d.probed(active, duration_ms, now).probe.ramp == d.probe.ramp,
        d.probed(active, duration_ms, now).probe.history == d.probe.history,
        keyframes_only(d.pending) ==> keyframes_only(d.probed(active, duration_ms, now).pending),
{
}

/// The measurement moves on four events; the others leave it alone.
pub open spec fn measures(e: Event) -> bool {
    e is ProbeDropped || e is ProbeResult || e is ProbeActive || e is Tick
}

/// What every event keeps: the trace, what was known of it before, and that
/// only keyframe asks wait.
#[verifier::opaque]
pub open spec fn kept(d: DriverView, e: DriverView) -> bool {
    &&& traced(e.probe)
    &&& extends(d.probe, e.probe)
    &&& keyframes_only(e.pending)
}

/// The driver's measurement and queue are in order.
#[verifier::opaque]
pub open spec fn orderly(d: DriverView) -> bool {
    traced(d.probe) && keyframes_only(d.pending)
}

proof fn lemma_elsewhere(d: DriverView, e: Event)
    requires
        !measures(e),
    ensures
        d.heard(e).probe == d.probe,
        d.heard(e).pending == d.pending,
{
    reveal(DriverView::heard);
    if let Event::ModeSwitch(width, height, refresh_hz) = e {
        lemma_switched_steady(d, width, height, refresh_hz);
    }
}

proof fn lemma_heard_elsewhere(d: DriverView, e: Event)
    requires
        orderly(d),
        !measures(e),
    ensures
        kept(d, d.heard(e)),
{
    reveal(kept);
    reveal(orderly);
    lemma_elsewhere(d, e);
    lemma_unmoved(d.probe, d.probe);
}

proof fn lemma_heard_dropped(d: DriverView, now: u64)
    requires
        orderly(d),
    ensures
        kept(d, DriverView { probe: d.probe.dropped(now), ..d }),
{
    reveal(kept);
    reveal(orderly);
    let q = d.probe.dropped(now);
    if d.probe.ramp is Some {
        lemma_cut(d.probe, q.burst, now);
    } else {
        lemma_unmoved(d.probe, q);
    }
}

proof fn lemma_heard_result(d: DriverView, r: ProbeReport, now: u64)
    requires
        orderly(d),
    ensures
        kept(d, d.reported(r, now)),
{
    reveal(kept);
    reveal(orderly);
    lemma_resulted(d.probe, r, now);
    lemma_reported_probe(d, r, now);
}

proof fn lemma_heard_active(d: DriverView, active: bool, duration_ms: u32, now: u64)
    requires
        orderly(d),
    ensures
        kept(d, d.probed(active, duration_ms, now)),
{
    reveal(kept);
    reveal(orderly);
    lemma_probed(d, active, duration_ms, now);
    lemma_unmoved(d.probe, d.probed(active, duration_ms, now).probe);
}

proof fn lemma_heard_tick(d: DriverView, now: u64)
    requires
        orderly(d),
    ensures
        kept(d, d.ticked(now).0),
{
    reveal(kept);
    reveal(orderly);
    lemma_measured(d, now);
    lemma_ticked_probe(d, now);
}

/// Every event keeps what is to be kept.
proof fn lemma_heard(d: DriverView, e: Event)
    requires
        orderly(d),
    ensures
        kept(d, d.heard(e)),
{
    reveal(DriverView::heard);
    match e {
        Event::ProbeDropped(now) => {
            lemma_heard_dropped(d, now);
        },
        Event::ProbeResult(r, now) => {
            lemma_heard_result(d, r, now);
        },
        Event::Tick(now) => {
            lemma_heard_tick(d, now);
        },
        Event::ProbeActive(active, duration_ms, now) => {
            lemma_heard_active(d, active, duration_ms, now);
        },
        _ => {
            lemma_heard_elsewhere(d, e);
        },
    }
}

proof fn lemma_kept(a: DriverView, b: DriverView, c: DriverView)
    requires
        kept(a, b),
        kept(b, c),
    ensures
        kept(a, c),
{
    reveal(kept);
    lemma_extends(a.probe, b.probe, c.probe);
}

proof fn lemma_kept_orderly(a: DriverView, b: DriverView)
    requires
        kept(a, b),
    ensures
        orderly(b),
{
    reveal(kept);
    reveal(orderly);
}

proof fn lemma_lived(d: DriverView, events: Seq<Event>)
    requires
        orderly(d),
    ensures
        kept(d, d.lived(events)),
        orderly(d.lived(events)),
    decreases events.len(),
{
    if events.len() == 0 {
        reveal(kept);
        reveal(orderly);
        lemma_unmoved(d.probe, d.probe);
    } else {
        lemma_lived(d, events.drop_last());
        let before = d.lived(events.drop_last());
        lemma_heard(before, events.last());
        lemma_kept(d, before, d.lived(events));
        lemma_kept_orderly(d, d.lived(events));
    }
}

proof fn lemma_fresh(cfg: DriverConfig, now: u64)
    ensures
        orderly(DriverView::fresh(cfg, now)),
{
    reveal(orderly);
}

/// At any point of any session the ramp's history starts at the first rate,
/// goes on to at most the double of a rate that was carried, asks a refused
/// rate again at most once, and only ever grows at its end: what was read of
/// it earlier is a prefix of what is read later.
pub proof fn law_the_ramps_history(
    cfg: DriverConfig,
    now: u64,
    events: Seq<Event>,
    later: Seq<Event>,
)
    ensures
        ramp_history(DriverView::fresh(cfg, now).lived(events).probe.history),
        ({
            let h = DriverView::fresh(cfg, now).lived(events).probe.history;
            let g = DriverView::fresh(cfg, now).lived(events).lived(later).probe.history;
            h.len() <= g.len() && g.take(h.len() as int) == h
        }),
{
    let d = DriverView::fresh(cfg, now);
    lemma_fresh(cfg, now);
    lemma_lived(d, events);
    lemma_lived(d.lived(events), later);
    reveal(kept);
}

/// A step of the ramp is asked for.
pub open spec fn asks_a_step(a: Action) -> bool {
    a matches Action::Probe { target_kbps, duration_ms, ramp } && ramp
}

proof fn lemma_no_step_measured(d: DriverView, now: u64)
    requires
        keyframes_only(d.pending),
        d.probe.summary() is Some,
    ensures
        forall|i: int|
            0 <= i < d.measured(now).1.len() ==> !asks_a_step(#[trigger] d.measured(now).1[i]),
{
    reveal(DriverView::opening);
    let lapsed = d.probe.lapsed(now).0;
    assert(!lapsed.ramping());
}

proof fn lemma_no_step_closed(d: DriverView, now: u64, sent: Seq<Action>)
    requires
        forall|i: int| 0 <= i < sent.len() ==> !asks_a_step(#[trigger] sent[i]),
    ensures
        forall|i: int|
            0 <= i < d.window_closed(now, sent).1.actions.len() ==> !asks_a_step(
                #[trigger] d.window_closed(now, sent).1.actions[i],
            ),
{
}

/// A driver whose ramp has stopped asks for no step.
proof fn lemma_no_step(d: DriverView, now: u64)
    requires
        keyframes_only(d.pending),
        d.probe.summary() is Some,
    ensures
        forall|i: int|
            0 <= i < d.ticked(now).1.actions.len() ==> !asks_a_step(
                #[trigger] d.ticked(now).1.actions[i],
            ),
{
    reveal(DriverView::ticked);
    lemma_no_step_measured(d, now);
    let (measured, sent) = d.measured(now);
    lemma_no_step_closed(measured, now, sent);
}

/// Once the ramp's outcome is known it never changes, how long it took
/// included. It counts every step of the history, is a wall exactly where the
/// last step is one, at the rate that step delivered, and no step is asked
/// for after it.
pub proof fn law_an_outcome_stands(
    cfg: DriverConfig,
    now: u64,
    events: Seq<Event>,
    later: Seq<Event>,
    tick: u64,
)
    ensures
        ({
            let d = DriverView::fresh(cfg, now).lived(events);
            let e = d.lived(later);
            let h = d.probe.history;
            d.probe.summary() matches Some(s) ==> {
                &&& e.probe.summary() == Some(s)
                &&& e.probe.history == h
                &&& s.steps >= h.len()
                &&& (s.wall <==> h.len() > 0 && h.last().end is Wall)
                &&& (s.wall ==> h.last().end == RampStepEnd::Wall { delivered_kbps: s.proven_kbps })
                &&& forall|i: int|
                    0 <= i < e.ticked(tick).1.actions.len() ==> !asks_a_step(
                        #[trigger] e.ticked(tick).1.actions[i],
                    )
            }
        }),
{
    let f = DriverView::fresh(cfg, now);
    let d = f.lived(events);
    let e = d.lived(later);
    lemma_fresh(cfg, now);
    lemma_lived(f, events);
    lemma_lived(d, later);
    reveal(kept);
    if e.probe.summary() is Some {
        lemma_no_step(e, tick);
    }
}

} // verus!
