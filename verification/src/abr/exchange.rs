//! What the driver and the host say to each other over a session.

use super::controller::BitrateController;
use super::driver::{all_acked, keyframes_only, Action, DriverView, TickView};
use super::laws::{law_a_window_only_asks, law_an_ask_is_recorded};
use super::probe::Ramped;
use super::sample::WindowSample;
use super::session::{lemma_between_ticks, lemma_ticked_probe, marks, Event};
use crate::quic::AckReason;
use vstd::prelude::*;

verus! {

/// How many actions there are of the kinds that are counted.
pub struct Totals {
    pub rates: nat,
    pub losses: nat,
    pub deliveries: nat,
    pub keyframes: nat,
}

impl Totals {
    pub open spec fn with(self, a: Action) -> Totals {
        match a {
            Action::SetBitrate(_) => Totals { rates: self.rates + 1, ..self },
            Action::Loss(_) => Totals { losses: self.losses + 1, ..self },
            Action::Delivery(_) => Totals { deliveries: self.deliveries + 1, ..self },
            Action::Keyframe => Totals { keyframes: self.keyframes + 1, ..self },
            _ => self,
        }
    }
}

/// The totals of `actions`.
pub open spec fn totals(actions: Seq<Action>) -> Totals
    decreases actions.len(),
{
    if actions.len() == 0 {
        Totals { rates: 0, losses: 0, deliveries: 0, keyframes: 0 }
    } else {
        totals(actions.drop_last()).with(actions.last())
    }
}

proof fn lemma_one_more(actions: Seq<Action>, a: Action)
    ensures
        totals(actions.push(a)) == totals(actions).with(a),
{
    assert(actions.push(a).drop_last() =~= actions);
}

/// What waits is keyframes, as many as there are.
proof fn lemma_keyframes(actions: Seq<Action>)
    requires
        keyframes_only(actions),
    ensures
        totals(actions) == (Totals {
            rates: 0,
            losses: 0,
            deliveries: 0,
            keyframes: actions.len(),
        }),
    decreases actions.len(),
{
    if actions.len() > 0 {
        let fewer = actions.drop_last();
        assert forall|i: int| 0 <= i < fewer.len() implies fewer[i] == Action::Keyframe by {
            assert(fewer[i] == actions[i]);
        }
        lemma_keyframes(fewer);
        assert(actions[actions.len() - 1] == Action::Keyframe);
    }
}

/// What a verdict leaves of the controller: the rate and the switch as they
/// were, and either the asks as they were or one more.
proof fn lemma_ramped(d: DriverView, ramped: Ramped, now: u64)
    ensures
        d.ramped(ramped, now).0.abr.current_kbps == d.abr.current_kbps,
        d.ramped(ramped, now).0.abr.enabled == d.abr.enabled,
        d.ramped(ramped, now).0.abr.asks == d.abr.asks || (d.ramped(ramped, now).1 is Some
            && d.ramped(ramped, now).0.abr.asks.unacked <= d.abr.asks.unacked + 1),
        d.ramped(ramped, now).0.acks == d.acks,
        d.ramped(ramped, now).0.window == d.window,
{
}

/// What the measurement's part of a tick leaves alone.
proof fn lemma_opening(d: DriverView, now: u64)
    ensures
        d.opening(now).0.abr.current_kbps == d.abr.current_kbps,
        d.opening(now).0.abr.enabled == d.abr.enabled,
        d.opening(now).0.acks == d.acks,
        d.opening(now).0.window == d.window,
        d.opening(now).0.abr.asks == d.abr.asks || (d.opening(now).2 is Some && d.opening(
            now,
        ).0.abr.asks.unacked <= d.abr.asks.unacked + 1),
{
    reveal(DriverView::opening);
    let (lapsed, abandoned) = d.probe.lapsed(now);
    let (polled, ask) = lapsed.polled(now, d.window.stats.frames_completed, d.video_aus);
    let told = super::capacity::ProbeView {
        burst: super::capacity::Burst { no_evidence: false, ..polled.burst },
        ..polled
    };
    let (probe, verdict) = told.verdict_taken(now);
    let abr = if polled.burst.no_evidence {
        d.abr.unmeasured(d.stream_cap_kbps)
    } else {
        d.abr
    };
    let e = DriverView { abr, probe, pending: Seq::empty(), ..d };
    if verdict is Some {
        lemma_ramped(e, verdict->0, now);
    }
}

/// The measurement's part of a tick sends what waited, in its order, and after
/// it nothing that is counted but the rate to open at.
proof fn lemma_opening_sends(d: DriverView, now: u64)
    ensures
        totals(d.opening(now).1) == totals(d.pending),
        totals(d.measured(now).1) == match d.opening(now).2 {
            Some(kbps) => totals(d.pending).with(Action::SetBitrate(kbps)),
            None => totals(d.pending),
        },
        d.opening(now).1.len() >= d.pending.len(),
        forall|i: int| 0 <= i < d.pending.len() ==> d.opening(now).1[i] == d.pending[i],
{
    reveal(DriverView::opening);
    let (lapsed, abandoned) = d.probe.lapsed(now);
    let sent0 = if abandoned {
        d.pending.push(Action::AbandonProbe)
    } else {
        d.pending
    };
    lemma_one_more(d.pending, Action::AbandonProbe);
    let (polled, ask) = lapsed.polled(now, d.window.stats.frames_completed, d.video_aus);
    let sent1 = match ask {
        Some((target_kbps, duration_ms)) => sent0.push(
            Action::Probe { target_kbps, duration_ms, ramp: lapsed.ramping() },
        ),
        None => sent0,
    };
    if let Some((target_kbps, duration_ms)) = ask {
        lemma_one_more(sent0, Action::Probe { target_kbps, duration_ms, ramp: lapsed.ramping() });
    }
    let told = super::capacity::ProbeView {
        burst: super::capacity::Burst { no_evidence: false, ..polled.burst },
        ..polled
    };
    if let Some(ramped) = told.verdict_taken(now).1 {
        lemma_one_more(sent1, Action::LinkRate(ramped.proven_kbps()));
    }
    if let Some(kbps) = d.opening(now).2 {
        lemma_one_more(d.opening(now).1, Action::SetBitrate(kbps));
    }
}

/// What a closing window adds to what is sent.
pub open spec fn closing_adds(d: DriverView, now: u64, t: Totals) -> Totals {
    let closed = d.window.closing(now);
    if closed.discarded {
        t
    } else {
        Totals {
            losses: t.losses + 1,
            deliveries: t.deliveries + (if closed.delivery is Some {
                1nat
            } else {
                0
            }),
            rates: t.rates + (if all_acked(d.abr, d.acks).windowed(closed.sample).1 is Some {
                1nat
            } else {
                0
            }),
            ..t
        }
    }
}

proof fn lemma_closed_sends(d: DriverView, now: u64, sent: Seq<Action>)
    ensures
        totals(d.window_closed(now, sent).1.actions) == closing_adds(d, now, totals(sent)),
        d.window_closed(now, sent).1.window is Some,
        d.window_closed(now, sent).1.window->0.discarded == d.window.closing(now).discarded,
{
    let closed = d.window.closing(now);
    let w = closed.sample;
    let ask = all_acked(d.abr, d.acks).windowed(w).1;
    let sent1 = sent.push(Action::Loss(w.loss_ppm));
    lemma_one_more(sent, Action::Loss(w.loss_ppm));
    let sent2 = match closed.delivery {
        Some(packets) => sent1.push(Action::Delivery(packets)),
        None => sent1,
    };
    if let Some(packets) = closed.delivery {
        lemma_one_more(sent1, Action::Delivery(packets));
    }
    if let Some(kbps) = ask {
        lemma_one_more(sent2, Action::SetBitrate(kbps));
    }
}

/// A window that is judged is reported exactly once, and a tick that judges
/// none reports none.
pub proof fn law_one_loss_report_per_judged_window(d: DriverView, now: u64)
    requires
        d.wf(),
    ensures
        totals(d.ticked(now).1.actions).losses == (if d.ticked(now).1.window is Some && !d.ticked(
            now,
        ).1.window->0.discarded {
            1nat
        } else {
            0
        }),
{
    reveal(DriverView::ticked);
    lemma_keyframes(d.pending);
    lemma_opening_sends(d, now);
    let (measured, sent) = d.measured(now);
    lemma_closed_sends(measured, now, sent);
}

/// A tick asks for exactly the keyframes that waited.
proof fn lemma_tick_keyframes(d: DriverView, now: u64)
    ensures
        totals(d.ticked(now).1.actions).keyframes == totals(d.pending).keyframes,
{
    reveal(DriverView::ticked);
    lemma_opening_sends(d, now);
    let (measured, sent) = d.measured(now);
    lemma_closed_sends(measured, now, sent);
}

/// A burst beside video from which no frame came back is followed by an ask
/// for a keyframe on the next tick, whether or not a ramp ran before it; a
/// ramp step asks for none.
pub proof fn law_a_lost_picture_is_asked_for(
    d: DriverView,
    e: DriverView,
    duration_ms: u32,
    start: u64,
    end: u64,
    tick: u64,
)
    requires
        !d.probe.burst.active,
        e.probe.burst == d.probed(true, duration_ms, start).probe.burst,
        e.window.stats.frames_completed == d.window.stats.frames_completed,
    ensures
        !d.probe.ramping() ==> e.probed(false, duration_ms, end).ticked(tick).1.actions.contains(
            Action::Keyframe,
        ),
        d.probe.ramping() ==> e.probed(false, duration_ms, end).pending == e.pending,
{
    let f = e.probed(false, duration_ms, end);
    if !d.probe.ramping() {
        assert(f.pending == e.pending.push(Action::Keyframe));
        let at = e.pending.len() as int;
        lemma_pending_goes_first(f, tick, at);
    }
}

/// Nothing waits, and a burst that is still in flight started beside video,
/// with `frames` completed. None stands for no burst at all.
#[verifier::opaque]
pub open spec fn aloft(d: DriverView, frames: Option<u64>) -> bool {
    &&& d.pending.len() == 0
    &&& d.probe.burst.active ==> frames == Some(d.probe.burst.frames_at_start)
        && !d.probe.burst.step
}

/// A burst goes in flight.
pub open spec fn starts(e: Event) -> bool {
    e matches Event::ProbeActive(active, duration_ms, now) && active
}

/// A tick may give a burst up, and starts none.
proof fn lemma_opening_burst(d: DriverView, now: u64)
    ensures
        d.opening(now).0.probe.burst.active ==> d.probe.burst.active,
        d.opening(now).0.probe.burst.frames_at_start == d.probe.burst.frames_at_start,
        d.opening(now).0.probe.burst.step == d.probe.burst.step,
{
    reveal(DriverView::opening);
}

proof fn lemma_aloft_tick(d: DriverView, now: u64, frames: Option<u64>)
    requires
        aloft(d, frames),
    ensures
        aloft(d.ticked(now).0, frames),
        totals(d.ticked(now).1.actions).keyframes == 0,
{
    reveal(aloft);
    lemma_opening_burst(d, now);
    lemma_ticked_probe(d, now);
    lemma_tick_keyframes(d, now);
}

proof fn lemma_aloft_event(d: DriverView, e: Event, frames: Option<u64>)
    requires
        aloft(d, frames),
        !(e is Tick),
        !(e is ProbeActive),
    ensures
        aloft(d.heard(e), frames),
{
    reveal(aloft);
    lemma_between_ticks(d, e);
}

proof fn lemma_aloft_heard(d: DriverView, e: Event, frames: Option<u64>)
    requires
        aloft(d, frames),
        !starts(e),
        e is ProbeActive ==> frames is None,
    ensures
        aloft(d.heard(e), frames),
{
    match e {
        Event::Tick(now) => {
            reveal(DriverView::heard);
            lemma_aloft_tick(d, now, frames);
        },
        Event::ProbeActive(active, duration_ms, now) => {
            reveal(DriverView::heard);
            reveal(aloft);
        },
        _ => {
            lemma_aloft_event(d, e, frames);
        },
    }
}

proof fn lemma_aloft(d: DriverView, events: Seq<Event>, frames: Option<u64>)
    requires
        aloft(d, frames),
        forall|i: int| 0 <= i < events.len() ==> !starts(#[trigger] events[i]),
        frames is Some ==> forall|i: int|
            0 <= i < events.len() ==> !(#[trigger] events[i] is ProbeActive),
    ensures
        aloft(d.lived(events), frames),
    decreases events.len(),
{
    if events.len() > 0 {
        let fewer = events.drop_last();
        assert forall|i: int| 0 <= i < fewer.len() implies !starts(#[trigger] fewer[i]) by {
            assert(fewer[i] == events[i]);
        }
        assert forall|i: int| 0 <= i < fewer.len() && frames is Some implies !(
        #[trigger] fewer[i] is ProbeActive) by {
            assert(fewer[i] == events[i]);
        }
        lemma_aloft(d, fewer, frames);
        assert(!starts(events[events.len() - 1]));
        lemma_aloft_heard(d.lived(fewer), events.last(), frames);
    }
}

/// A burst lands: what waits then, and what stays.
proof fn lemma_lands(e: DriverView, frames: u64, duration_ms: u32, end: u64)
    requires
        aloft(e, Some(frames)),
    ensures
        ({
            let f = e.probed(false, duration_ms, end);
            &&& !f.probe.burst.active
            &&& f.probe.burst.watchdog is None
            &&& f.pending == if e.probe.burst.active && e.window.stats.frames_completed == frames {
                seq![Action::Keyframe]
            } else {
                Seq::empty()
            }
        }),
{
    reveal(aloft);
    assert(e.pending =~= Seq::empty());
    assert(Seq::<Action>::empty().push(Action::Keyframe) =~= seq![Action::Keyframe]);
}

/// A burst beside video is followed by exactly one ask for a keyframe on the
/// next tick if no frame was completed while it was in flight, and by none if
/// one was. To be told again that it is over changes nothing, and no later
/// tick asks before the next burst. A burst that was given up before it ended
/// is not asked for.
pub proof fn law_one_keyframe_for_a_lost_picture(
    d: DriverView,
    duration_ms: u32,
    start: u64,
    between: Seq<Event>,
    end: u64,
    again_ms: u32,
    again: u64,
    tick: u64,
    later: Seq<Event>,
    last: u64,
)
    requires
        d.pending.len() == 0,
        !d.probe.burst.active,
        !d.probe.ramping(),
        forall|i: int| 0 <= i < between.len() ==> !(#[trigger] between[i] is ProbeActive),
        forall|i: int| 0 <= i < later.len() ==> !starts(#[trigger] later[i]),
    ensures
        ({
            let e = d.probed(true, duration_ms, start).lived(between);
            let f = e.probed(false, duration_ms, end);
            &&& totals(f.ticked(tick).1.actions).keyframes == (if e.probe.burst.active
                && e.window.stats.frames_completed == d.window.stats.frames_completed {
                1nat
            } else {
                0
            })
            &&& f.probed(false, again_ms, again) == f
            &&& totals(f.ticked(tick).0.lived(later).ticked(last).1.actions).keyframes == 0
        }),
{
    let frames = d.window.stats.frames_completed;
    let b = d.probed(true, duration_ms, start);
    let e = b.lived(between);
    let f = e.probed(false, duration_ms, end);
    assert(aloft(b, Some(frames))) by {
        reveal(aloft);
    }
    assert forall|i: int| 0 <= i < between.len() implies !starts(#[trigger] between[i]) by {
        assert(!(between[i] is ProbeActive));
    }
    lemma_aloft(b, between, Some(frames));
    lemma_lands(e, frames, duration_ms, end);
    lemma_keyframes(f.pending);
    lemma_tick_keyframes(f, tick);
    let g = f.ticked(tick).0;
    lemma_opening_burst(f, tick);
    lemma_ticked_probe(f, tick);
    assert(aloft(g, None)) by {
        reveal(aloft);
    }
    lemma_aloft(g, later, None);
    lemma_aloft_tick(g.lived(later), last, None);
}

/// What waits goes out first, in its order.
proof fn lemma_pending_goes_first(d: DriverView, now: u64, at: int)
    requires
        0 <= at < d.pending.len(),
    ensures
        d.ticked(now).1.actions.len() > at,
        d.ticked(now).1.actions[at] == d.pending[at],
{
    reveal(DriverView::ticked);
    lemma_opening_sends(d, now);
    let (measured, sent) = d.measured(now);
    assert(sent.len() > at && sent[at] == d.pending[at]);
}

/// The report window closes on this event.
pub open spec fn closes(d: DriverView, e: Event) -> bool {
    e matches Event::Tick(now) && d.ticked(now).1.window is Some
}

/// Through all of `events` no window closes.
pub open spec fn window_open(d: DriverView, events: Seq<Event>) -> bool
    decreases events.len(),
{
    events.len() == 0 || {
        &&& window_open(d, events.drop_last())
        &&& !closes(d.lived(events.drop_last()), events.last())
    }
}

/// While the window is open a tick moves neither the rate nor the queue of
/// acknowledgements.
proof fn lemma_tick_open(d: DriverView, now: u64)
    requires
        d.ticked(now).1.window is None,
    ensures
        d.ticked(now).0.abr.current_kbps == d.abr.current_kbps,
        d.ticked(now).0.acks == d.acks,
{
    reveal(DriverView::ticked);
    lemma_opening(d, now);
    let (measured, sent) = d.measured(now);
    assert(!measured.window.due(now, measured.probe.burst.active)) by {
        assert(measured.window_closed(now, sent).1.window is Some);
    }
}

proof fn lemma_still(d: DriverView, e: Event)
    requires
        !(e is Ack),
        !(e is Tick),
    ensures
        d.heard(e).abr.current_kbps == d.abr.current_kbps,
        d.heard(e).acks == d.acks,
{
    lemma_between_ticks(d, e);
}

/// The rate and what waits to move it are the same.
#[verifier::opaque]
pub open spec fn same_rate(d: DriverView, e: DriverView) -> bool {
    d.abr.current_kbps == e.abr.current_kbps && d.acks == e.acks
}

proof fn lemma_tick_same(d: DriverView, now: u64)
    requires
        d.ticked(now).1.window is None,
    ensures
        same_rate(d, d.ticked(now).0),
{
    reveal(same_rate);
    lemma_tick_open(d, now);
}

proof fn lemma_event_same(d: DriverView, e: Event)
    requires
        !(e is Ack),
        !(e is Tick),
    ensures
        same_rate(d, d.heard(e)),
{
    reveal(same_rate);
    lemma_still(d, e);
}

proof fn lemma_open_heard(d: DriverView, e: Event)
    requires
        !(e is Ack),
        !closes(d, e),
    ensures
        same_rate(d, d.heard(e)),
{
    match e {
        Event::Tick(now) => {
            reveal(DriverView::heard);
            lemma_tick_same(d, now);
        },
        _ => {
            lemma_event_same(d, e);
        },
    }
}

proof fn lemma_same(a: DriverView, b: DriverView, c: DriverView)
    requires
        same_rate(a, b),
        same_rate(b, c),
    ensures
        same_rate(a, c),
{
    reveal(same_rate);
}

proof fn lemma_open(d: DriverView, events: Seq<Event>)
    requires
        window_open(d, events),
        forall|i: int| 0 <= i < events.len() ==> !(#[trigger] events[i] is Ack),
    ensures
        same_rate(d, d.lived(events)),
    decreases events.len(),
{
    if events.len() == 0 {
        reveal(same_rate);
    } else {
        let fewer = events.drop_last();
        assert forall|i: int| 0 <= i < fewer.len() implies !(#[trigger] fewer[i] is Ack) by {
            assert(fewer[i] == events[i]);
        }
        lemma_open(d, fewer);
        assert(!(events[events.len() - 1] is Ack));
        let before = d.lived(events.drop_last());
        lemma_open_heard(before, events.last());
        lemma_same(d, before, d.lived(events));
    }
}

/// The rate once a window closed: what the acknowledgements that waited say.
proof fn lemma_tick_closes(d: DriverView, now: u64)
    requires
        d.ticked(now).1.window is Some,
    ensures
        d.ticked(now).0.abr.current_kbps == all_acked(
            d.measured(now).0.abr,
            d.acks,
        ).current_kbps,
        d.ticked(now).0.acks == Seq::<(u32, Option<AckReason>)>::empty(),
{
    reveal(DriverView::ticked);
    lemma_opening(d, now);
    let measured = d.measured(now).0;
    law_a_window_only_asks(
        all_acked(measured.abr, measured.acks),
        measured.window.closing(now).sample,
    );
}

/// A tick with one acknowledgement waiting.
proof fn lemma_one_ack(e: DriverView, kbps: u32, why: Option<AckReason>, now: u64)
    requires
        e.acks == seq![(kbps, why)],
        kbps > 0,
        why != Some(AckReason::Governor),
    ensures
        e.ticked(now).0.abr.current_kbps == if e.ticked(now).1.window is Some {
            kbps
        } else {
            e.abr.current_kbps
        },
{
    if e.ticked(now).1.window is Some {
        lemma_tick_closes(e, now);
        lemma_acked_once(e.measured(now).0.abr, kbps, why);
    } else {
        lemma_tick_open(e, now);
    }
}

proof fn lemma_acked_once(c: BitrateController, kbps: u32, why: Option<AckReason>)
    requires
        kbps > 0,
        why != Some(AckReason::Governor),
    ensures
        all_acked(c, seq![(kbps, why)]).current_kbps == kbps,
{
    let acks = seq![(kbps, why)];
    assert(acks.drop_last() =~= Seq::<(u32, Option<AckReason>)>::empty());
    reveal_with_fuel(all_acked, 2);
}

/// An acknowledgement moves the rate at the next close of a window, judged or
/// discarded, and not before: whatever happens until then, short of another
/// acknowledgement, leaves the rate alone. A share is no answer, and is left out.
pub proof fn law_an_ack_moves_the_rate_at_the_close(
    d: DriverView,
    kbps: u32,
    why: Option<AckReason>,
    events: Seq<Event>,
    now: u64,
)
    requires
        d.acks.len() == 0,
        kbps > 0,
        why != Some(AckReason::Governor),
        window_open(d.heard(Event::Ack(kbps, why)), events),
        forall|i: int| 0 <= i < events.len() ==> !(#[trigger] events[i] is Ack),
    ensures
        d.heard(Event::Ack(kbps, why)).abr.current_kbps == d.abr.current_kbps,
        ({
            let e = d.heard(Event::Ack(kbps, why)).lived(events);
            &&& e.abr.current_kbps == d.abr.current_kbps
            &&& e.ticked(now).0.abr.current_kbps == if e.ticked(now).1.window is Some {
                kbps
            } else {
                d.abr.current_kbps
            }
        }),
{
    let q = d.heard(Event::Ack(kbps, why));
    let e = q.lived(events);
    assert(q == (DriverView { acks: d.acks.push((kbps, why)), ..d })) by {
        reveal(DriverView::heard);
    }
    lemma_open(q, events);
    assert(q.acks =~= seq![(kbps, why)]);
    assert(e.acks == q.acks && e.abr.current_kbps == q.abr.current_kbps) by {
        reveal(same_rate);
    }
    lemma_one_ack(e, kbps, why, now);
}

/// The controller after `n` of its requests were reported as dropped.
pub open spec fn unasked_times(c: BitrateController, n: nat) -> BitrateController
    decreases n,
{
    if n == 0 {
        c
    } else {
        unasked_times(c, (n - 1) as nat).unasked()
    }
}

proof fn lemma_unasked_times(c: BitrateController, n: nat)
    ensures
        unasked_times(c, n).enabled == c.enabled,
        unasked_times(c, n).current_kbps == c.current_kbps,
        unasked_times(c, n).host == c.host,
        unasked_times(c, n).asks.unacked == (if c.asks.unacked >= n {
            c.asks.unacked - n
        } else {
            0
        }),
        n > 0 ==> unasked_times(c, n).asks.last_requested_kbps is None,
        n == 0 ==> unasked_times(c, n) == c,
    decreases n,
{
    if n > 0 {
        lemma_unasked_times(c, (n - 1) as nat);
    }
}

impl DriverView {
    /// The driver once every rate a tick asked for was reported as dropped.
    pub open spec fn unsent(self, tick: TickView) -> DriverView {
        DriverView { abr: unasked_times(self.abr, totals(tick.actions).rates), ..self }
    }

    /// The driver after `events`, no request of which reaches the host.
    pub open spec fn lived_unsent(self, events: Seq<Event>) -> DriverView
        decreases events.len(),
    {
        if events.len() == 0 {
            self
        } else {
            self.lived_unsent(events.drop_last()).heard_unsent(events.last())
        }
    }

    /// The driver after an event, with every rate a tick asked for reported
    /// as dropped.
    pub open spec fn heard_unsent(self, e: Event) -> DriverView {
        match e {
            Event::Tick(now) => self.heard(e).unsent(self.ticked(now).1),
            _ => self.heard(e),
        }
    }
}

/// The host has not pinned the session.
pub open spec fn unpinned(acks: Seq<(u32, Option<AckReason>)>) -> bool {
    forall|i: int| 0 <= i < acks.len() ==> (#[trigger] acks[i]).1 != Some(AckReason::Pinned)
}

/// No request is out.
pub open spec fn nothing_asked(c: BitrateController) -> bool {
    c.asks.unacked == 0 && c.asks.last_requested_kbps is None
}

proof fn lemma_all_acked(c: BitrateController, acks: Seq<(u32, Option<AckReason>)>)
    requires
        unpinned(acks),
    ensures
        all_acked(c, acks).enabled == c.enabled,
        all_acked(c, acks).asks.unacked <= c.asks.unacked,
        nothing_asked(c) ==> nothing_asked(all_acked(c, acks)),
    decreases acks.len(),
{
    if acks.len() > 0 {
        let fewer = acks.drop_last();
        assert forall|i: int| 0 <= i < fewer.len() implies (#[trigger] fewer[i]).1 != Some(
            AckReason::Pinned,
        ) by {
            assert(fewer[i] == acks[i]);
        }
        lemma_all_acked(c, fewer);
        assert(acks[acks.len() - 1].1 != Some(AckReason::Pinned));
    }
}

/// A tick leaves no more requests out than it sent.
proof fn lemma_tick_asks(d: DriverView, now: u64)
    requires
        keyframes_only(d.pending),
        unpinned(d.acks),
        nothing_asked(d.abr),
    ensures
        d.ticked(now).0.abr.enabled == d.abr.enabled,
        d.ticked(now).0.abr.asks.unacked <= totals(d.ticked(now).1.actions).rates,
        totals(d.ticked(now).1.actions).rates == 0 ==> nothing_asked(d.ticked(now).0.abr),
        unpinned(d.ticked(now).0.acks),
{
    reveal(DriverView::ticked);
    lemma_keyframes(d.pending);
    lemma_opening(d, now);
    lemma_opening_sends(d, now);
    let (measured, sent) = d.measured(now);
    if measured.window.due(now, measured.probe.burst.active) {
        lemma_closed_sends(measured, now, sent);
        let c = all_acked(measured.abr, measured.acks);
        let w = measured.window.closing(now).sample;
        lemma_all_acked(measured.abr, measured.acks);
        law_a_window_only_asks(c, w);
        law_an_ask_is_recorded(c, w);
    }
}

proof fn lemma_event_asks_nothing(d: DriverView, e: Event)
    requires
        !(e is Tick),
        !(e matches Event::Ack(_, why) && why == Some(AckReason::Pinned)),
        unpinned(d.acks),
        nothing_asked(d.abr),
        keyframes_only(d.pending),
    ensures
        d.heard(e).abr.enabled == d.abr.enabled,
        nothing_asked(d.heard(e).abr),
        unpinned(d.heard(e).acks),
        keyframes_only(d.heard(e).pending),
{
    lemma_between_ticks(d, e);
}

/// Nothing is held against the host, and nothing about to be.
#[verifier::opaque]
pub open spec fn unburdened(d: DriverView) -> bool {
    keyframes_only(d.pending) && unpinned(d.acks) && nothing_asked(d.abr)
}

/// The host pins the session.
pub open spec fn pins(e: Event) -> bool {
    e matches Event::Ack(kbps, why) && why == Some(AckReason::Pinned)
}

proof fn lemma_tick_unsent(d: DriverView, now: u64)
    requires
        unburdened(d),
    ensures
        unburdened(d.ticked(now).0.unsent(d.ticked(now).1)),
        d.ticked(now).0.unsent(d.ticked(now).1).abr.enabled == d.abr.enabled,
{
    reveal(unburdened);
    lemma_tick_asks(d, now);
    lemma_ticked_probe(d, now);
    lemma_unasked_times(d.ticked(now).0.abr, totals(d.ticked(now).1.actions).rates);
}

proof fn lemma_event_unsent(d: DriverView, e: Event)
    requires
        unburdened(d),
        !(e is Tick),
        !pins(e),
    ensures
        unburdened(d.heard(e)),
        d.heard(e).abr.enabled == d.abr.enabled,
{
    reveal(unburdened);
    lemma_event_asks_nothing(d, e);
}

proof fn lemma_heard_unsent(d: DriverView, e: Event)
    requires
        unburdened(d),
        !pins(e),
    ensures
        unburdened(d.heard_unsent(e)),
        d.heard_unsent(e).abr.enabled == d.abr.enabled,
{
    match e {
        Event::Tick(now) => {
            reveal(DriverView::heard);
            lemma_tick_unsent(d, now);
        },
        _ => {
            lemma_event_unsent(d, e);
        },
    }
}

proof fn lemma_lived_unsent(d: DriverView, events: Seq<Event>)
    requires
        unburdened(d),
        forall|i: int| 0 <= i < events.len() ==> !pins(#[trigger] events[i]),
    ensures
        unburdened(d.lived_unsent(events)),
        d.lived_unsent(events).abr.enabled == d.abr.enabled,
    decreases events.len(),
{
    if events.len() > 0 {
        let fewer = events.drop_last();
        assert forall|i: int| 0 <= i < fewer.len() implies !pins(#[trigger] fewer[i]) by {
            assert(fewer[i] == events[i]);
        }
        lemma_lived_unsent(d, fewer);
        assert(!pins(events[events.len() - 1]));
        lemma_heard_unsent(d.lived_unsent(fewer), events.last());
    }
}

/// A host that owes no answer has its windows judged.
proof fn lemma_answers(c: BitrateController, w: WindowSample)
    requires
        nothing_asked(c),
    ensures
        c.enabled && c.folded(w).0.cooled(w.now) ==> c.windowed(w) == c.folded(w).0.answered(
            w,
            c.folded(w).1,
            c.drain.guards(w),
        ),
{
    reveal(BitrateController::windowed);
}

/// A rate that nobody asked for is no short answer.
proof fn lemma_no_short_answer(c: BitrateController, kbps: u32)
    requires
        nothing_asked(c),
        kbps > 0,
    ensures
        c.after_ack(kbps, None).host == c.host,
{
}

/// Requests that never left count against nobody. However many are dropped,
/// the controller is not switched off over the silence and goes on judging
/// windows; a report of a drop moves no rate; and what the host says later is
/// not read as a short answer to a rate it was never asked for. A host that
/// pins the session is left out: that switches the controller off by itself.
pub proof fn law_dropped_requests_count_against_nobody(
    d: DriverView,
    events: Seq<Event>,
    w: WindowSample,
    kbps: u32,
)
    requires
        d.wf(),
        unpinned(d.acks),
        nothing_asked(d.abr),
        forall|i: int| 0 <= i < events.len() ==> !pins(#[trigger] events[i]),
    ensures
        d.lived_unsent(events).abr.enabled == d.abr.enabled,
        ({
            let c = d.lived_unsent(events).abr;
            let (folded, v) = c.folded(w);
            d.abr.enabled && folded.cooled(w.now) ==> c.windowed(w) == folded.answered(
                w,
                v,
                c.drain.guards(w),
            )
        }),
        kbps > 0 ==> d.lived_unsent(events).abr.after_ack(kbps, None).host == d.lived_unsent(
            events,
        ).abr.host,
        d.abr.unasked().current_kbps == d.abr.current_kbps,
{
    assert(unburdened(d)) by {
        reveal(unburdened);
    }
    lemma_lived_unsent(d, events);
    let e = d.lived_unsent(events);
    assert(nothing_asked(e.abr)) by {
        reveal(unburdened);
    }
    lemma_answers(e.abr, w);
    if kbps > 0 {
        lemma_no_short_answer(e.abr, kbps);
    }
}

/// The mark that discards the window in flight is as said, and only keyframe
/// asks wait.
#[verifier::opaque]
pub open spec fn marked(d: DriverView, discarding: bool) -> bool {
    d.window.discarding == discarding && keyframes_only(d.pending)
}

/// None of `events` discards the window in flight.
pub open spec fn unmarked(d: DriverView, events: Seq<Event>) -> bool
    decreases events.len(),
{
    events.len() == 0 || {
        &&& unmarked(d, events.drop_last())
        &&& !marks(d.lived(events.drop_last()), events.last())
    }
}

proof fn lemma_marked_tick(d: DriverView, now: u64, discarding: bool)
    requires
        marked(d, discarding),
        d.ticked(now).1.window is None,
    ensures
        marked(d.ticked(now).0, discarding),
{
    reveal(DriverView::ticked);
    reveal(marked);
    lemma_opening(d, now);
    lemma_ticked_probe(d, now);
    let (measured, sent) = d.measured(now);
    assert(!measured.window.due(now, measured.probe.burst.active)) by {
        assert(measured.window_closed(now, sent).1.window is Some);
    }
}

proof fn lemma_marked_event(d: DriverView, e: Event, discarding: bool)
    requires
        marked(d, discarding),
        !(e is Tick),
        discarding || !marks(d, e),
    ensures
        marked(d.heard(e), discarding),
{
    reveal(marked);
    lemma_between_ticks(d, e);
}

proof fn lemma_marked_heard(d: DriverView, e: Event, discarding: bool)
    requires
        marked(d, discarding),
        !closes(d, e),
        discarding || !marks(d, e),
    ensures
        marked(d.heard(e), discarding),
{
    match e {
        Event::Tick(now) => {
            reveal(DriverView::heard);
            lemma_marked_tick(d, now, discarding);
        },
        _ => {
            lemma_marked_event(d, e, discarding);
        },
    }
}

/// The mark stays as it is while the window is open, but for events that set
/// it.
proof fn lemma_marked(d: DriverView, events: Seq<Event>, discarding: bool)
    requires
        marked(d, discarding),
        window_open(d, events),
        discarding || unmarked(d, events),
    ensures
        marked(d.lived(events), discarding),
    decreases events.len(),
{
    if events.len() > 0 {
        lemma_marked(d, events.drop_last(), discarding);
        lemma_marked_heard(d.lived(events.drop_last()), events.last(), discarding);
    }
}

/// The tick that closes a window hands the mark out and takes it back.
proof fn lemma_marked_close(d: DriverView, now: u64, discarding: bool)
    requires
        marked(d, discarding),
        d.ticked(now).1.window is Some,
    ensures
        d.ticked(now).1.window->0.discarded == discarding,
        discarding ==> !d.ticked(now).1.window->0.loss_free,
        discarding ==> totals(d.ticked(now).1.actions).deliveries == 0,
        totals(d.ticked(now).1.actions).losses == (if discarding {
            0nat
        } else {
            1
        }),
        marked(d.ticked(now).0, false),
{
    reveal(DriverView::ticked);
    reveal(marked);
    lemma_keyframes(d.pending);
    lemma_opening(d, now);
    lemma_opening_sends(d, now);
    lemma_ticked_probe(d, now);
    let (measured, sent) = d.measured(now);
    lemma_closed_sends(measured, now, sent);
}

/// A gap in the host's pipeline costs the window in flight, and that one
/// alone. Whatever happens until it closes, it is handed out as discarded,
/// not loss free, and neither its loss nor its delivery is reported; the next
/// one is judged and reported again, unless it is discarded on its own
/// account.
pub proof fn law_a_gap_costs_one_window(
    d: DriverView,
    events: Seq<Event>,
    close: u64,
    later: Seq<Event>,
    next: u64,
)
    requires
        d.wf(),
        window_open(d.heard(Event::PipelineGap), events),
    ensures
        ({
            let e = d.heard(Event::PipelineGap).lived(events);
            let (g, tick) = e.ticked(close);
            &&& e.window.discarding
            &&& tick.window matches Some(w) ==> {
                &&& w.discarded
                &&& !w.loss_free
                &&& totals(tick.actions).losses == 0
                &&& totals(tick.actions).deliveries == 0
                &&& !g.window.discarding
                &&& window_open(g, later) && unmarked(g, later) ==> {
                    let after = g.lived(later).ticked(next).1;
                    after.window matches Some(v) ==> !v.discarded && totals(after.actions).losses
                        == 1
                }
            }
        }),
{
    let q = d.heard(Event::PipelineGap);
    let e = q.lived(events);
    let g = e.ticked(close).0;
    assert(marked(q, true)) by {
        reveal(marked);
        lemma_between_ticks(d, Event::PipelineGap);
    }
    lemma_marked(q, events, true);
    assert(e.window.discarding) by {
        reveal(marked);
    }
    if e.ticked(close).1.window is Some {
        lemma_marked_close(e, close, true);
        assert(!g.window.discarding) by {
            reveal(marked);
        }
        if window_open(g, later) && unmarked(g, later) {
            lemma_marked(g, later, false);
            if g.lived(later).ticked(next).1.window is Some {
                lemma_marked_close(g.lived(later), next, false);
            }
        }
    }
}

} // verus!
