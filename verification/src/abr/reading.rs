//! A closed window is a summary of what was heard while it was open.

use super::driver::DriverView;
use super::sample::WindowActivity;
use super::session::Event;
use super::window::{DelayFit, WindowAccumulator};
use crate::stats::{law_loss_is_a_share_of_what_was_sent, Stats};
use vstd::prelude::*;

verus! {

/// Whole microseconds in so many nanoseconds, toward zero.
pub open spec fn whole_us(ns: int) -> int {
    if ns >= 0 {
        ns / 1_000
    } else {
        -((-ns) / 1_000)
    }
}

/// What was said while a window was open.
pub struct Told {
    /// The newest counters.
    pub stats: Stats,
    pub fresh: int,
    pub repeats: int,
    pub asks: int,
    pub flushed: bool,
    pub gap: bool,
    pub decode_us: int,
    pub decodes: int,
    pub encode_us: int,
    pub encodes: int,
    /// Delays of access units, and of first shards.
    pub owd_us: int,
    pub owds: int,
    pub shard_us: int,
    pub shards: int,
    pub last_shard_us: int,
}

impl Told {
    /// Nothing yet, with the counters at `stats`.
    pub open spec fn nothing(stats: Stats) -> Told {
        Told {
            stats,
            fresh: 0,
            repeats: 0,
            asks: 0,
            flushed: false,
            gap: false,
            decode_us: 0,
            decodes: 0,
            encode_us: 0,
            encodes: 0,
            owd_us: 0,
            owds: 0,
            shard_us: 0,
            shards: 0,
            last_shard_us: 0,
        }
    }

    pub open spec fn with(self, e: Event) -> Told {
        match e {
            Event::Stats(stats) => Told { stats, ..self },
            Event::Au(repeat) => if repeat {
                Told { repeats: self.repeats + 1, ..self }
            } else {
                Told { fresh: self.fresh + 1, ..self }
            },
            Event::Owd(ns) => Told {
                owd_us: self.owd_us + whole_us(ns as int),
                owds: self.owds + 1,
                ..self
            },
            Event::ShardOwd(ns) => Told {
                shard_us: self.shard_us + whole_us(ns as int),
                shards: self.shards + 1,
                last_shard_us: whole_us(ns as int),
                ..self
            },
            Event::DecodeLatency(sum_us, count) => Told {
                decode_us: self.decode_us + sum_us,
                decodes: self.decodes + count,
                ..self
            },
            Event::EncodeLatency(sum_us, count) => Told {
                encode_us: self.encode_us + sum_us,
                encodes: self.encodes + count,
                ..self
            },
            Event::KeyframeAsks(n) => Told { asks: self.asks + n, ..self },
            Event::Flush => Told { flushed: true, ..self },
            Event::PipelineGap => Told { gap: true, ..self },
            _ => self,
        }
    }

    /// It all fits what a window can count.
    pub open spec fn fits(self) -> bool {
        &&& self.fresh <= u32::MAX && self.repeats <= u32::MAX && self.asks <= u32::MAX
        &&& self.decode_us <= u64::MAX && self.decodes <= u32::MAX
        &&& self.encode_us <= u64::MAX && self.encodes <= u32::MAX
        &&& self.owds <= 65_536 && self.shards <= 65_536
    }
}

/// What `events` said, from counters at `stats`.
pub open spec fn told(stats: Stats, events: Seq<Event>) -> Told
    decreases events.len(),
{
    if events.len() == 0 {
        Told::nothing(stats)
    } else {
        told(stats, events.drop_last()).with(events.last())
    }
}

/// The event closes no window and moves no burst, and a delay it reports is
/// one a clock can show.
pub open spec fn plain(e: Event) -> bool {
    &&& !(e is Tick) && !(e is ProbeActive) && !(e is ProbeResult)
    &&& e matches Event::Owd(ns) ==> -1_000_000_000_000_000 <= ns <= 1_000_000_000_000_000
    &&& e matches Event::ShardOwd(ns) ==> -1_000_000_000_000_000 <= ns <= 1_000_000_000_000_000
}

/// A window that has just opened at `at`, with the counters at `stats`.
pub open spec fn opens(w: WindowAccumulator, at: u64, stats: Stats) -> bool {
    &&& w.opened_at == at
    &&& !w.discarding
    &&& w.stats == stats
    &&& counts(w, stats, Told::nothing(stats))
}

/// The window counts what was told since its counters stood at `stats`.
pub open spec fn counts(w: WindowAccumulator, stats: Stats, t: Told) -> bool {
    &&& stats.bytes_received >= stats.probe_bytes_received ==> w.anchors.bytes
        == stats.bytes_received - stats.probe_bytes_received
    &&& stats.packets_received >= stats.probe_packets_received ==> w.anchors.packets
        == stats.packets_received - stats.probe_packets_received
    &&& w.anchors.recovered == stats.fec_recovered_shards
    &&& w.anchors.dropped == stats.frames_dropped
    &&& w.stats == t.stats
    &&& w.discarding == t.gap
    &&& w.tally.fresh == t.fresh && w.tally.repeats == t.repeats
    &&& w.tally.keyframe_asks == t.asks
    &&& w.tally.flushed == t.flushed
    &&& w.tally.decode.sum_us == t.decode_us && w.tally.decode.count == t.decodes
    &&& w.tally.encode.sum_us == t.encode_us && w.tally.encode.count == t.encodes
    &&& w.tally.owd.sum_us == t.owd_us && w.tally.owd.samples == t.owds
    &&& w.tally.shards.sum_us == t.shard_us && w.tally.shards.samples == t.shards
    &&& w.tally.shards.last_us == t.last_shard_us
    &&& -(1_000_000_000_000 * t.owds) <= t.owd_us <= 1_000_000_000_000 * t.owds
    &&& -(1_000_000_000_000 * t.shards) <= t.shard_us <= 1_000_000_000_000 * t.shards
}

/// The window as the events left it.
#[verifier::opaque]
pub open spec fn listens(d: DriverView, old: DriverView, stats: Stats, t: Told) -> bool {
    &&& counts(d.window, stats, t)
    &&& d.window.opened_at == old.window.opened_at
    &&& d.window.marks_repeats == old.window.marks_repeats
    &&& d.window.reads_delivery == old.window.reads_delivery
    &&& d.window.audio_reserved_kbps == old.window.audio_reserved_kbps
    &&& 0 <= t.fresh && 0 <= t.repeats && 0 <= t.asks
    &&& 0 <= t.decode_us && 0 <= t.decodes && 0 <= t.encode_us && 0 <= t.encodes
    &&& 0 <= t.owds && 0 <= t.shards
}

proof fn lemma_listens_heard(d: DriverView, old: DriverView, stats: Stats, t: Told, e: Event)
    requires
        listens(d, old, stats, t),
        plain(e),
        t.with(e).fits(),
    ensures
        listens(d.heard(e), old, stats, t.with(e)),
{
    reveal(listens);
    reveal(DriverView::heard);
    reveal(DriverView::switched);
}

proof fn lemma_listens(d: DriverView, stats: Stats, events: Seq<Event>)
    requires
        opens(d.window, d.window.opened_at, stats),
        forall|i: int| 0 <= i < events.len() ==> plain(#[trigger] events[i]),
        told(stats, events).fits(),
    ensures
        listens(d.lived(events), d, stats, told(stats, events)),
    decreases events.len(),
{
    if events.len() == 0 {
        reveal(listens);
    } else {
        let fewer = events.drop_last();
        assert forall|i: int| 0 <= i < fewer.len() implies plain(#[trigger] fewer[i]) by {
            assert(fewer[i] == events[i]);
        }
        assert(plain(events[events.len() - 1]));
        lemma_told_grows(stats, fewer, events.last());
        lemma_listens(d, stats, fewer);
        lemma_listens_heard(d.lived(fewer), d, stats, told(stats, fewer), events.last());
    }
}

proof fn lemma_told_grows(stats: Stats, events: Seq<Event>, e: Event)
    ensures
        told(stats, events).with(e).fits() ==> told(stats, events).fits(),
{
}

/// A window that closes hands the counters on: the one that opens in its place
/// starts there and then, with nothing in it. So does a session's first.
pub proof fn law_a_window_starts_where_the_last_one_closed(w: WindowAccumulator, now: u64)
    ensures
        opens(w.reopened(now), now, w.stats),
        w.reopened(now).marks_repeats == w.marks_repeats,
        w.reopened(now).reads_delivery == w.reads_delivery,
        w.reopened(now).audio_reserved_kbps == w.audio_reserved_kbps,
        opens(
            WindowAccumulator::new(w.audio_reserved_kbps, w.marks_repeats, w.reads_delivery, now),
            now,
            Stats::zero(),
        ),
{
}

/// The mean of a stage is the time its own samples took over how many there
/// were, whatever the other stages saw; a stage without samples has none.
pub proof fn law_each_stage_reads_its_own_samples(
    d: DriverView,
    stats: Stats,
    events: Seq<Event>,
    now: u64,
)
    requires
        opens(d.window, d.window.opened_at, stats),
        forall|i: int| 0 <= i < events.len() ==> plain(#[trigger] events[i]),
        told(stats, events).fits(),
    ensures
        ({
            let t = told(stats, events);
            let sample = d.lived(events).window.closing(now).sample;
            &&& t.decodes == 0 ==> sample.decode_mean_us is None
            &&& t.decodes > 0 ==> sample.decode_mean_us is Some
            &&& t.decode_us <= 1_000_000_000_000 ==> (sample.decode_mean_us matches Some(us) ==> us
                * t.decodes <= t.decode_us < (us + 1) * t.decodes)
            &&& t.encodes == 0 ==> sample.encode_mean_us is None
            &&& t.encodes > 0 ==> sample.encode_mean_us is Some
            &&& t.encode_us <= 1_000_000_000_000 ==> (sample.encode_mean_us matches Some(us) ==> us
                * t.encodes <= t.encode_us < (us + 1) * t.encodes)
        }),
{
    let t = told(stats, events);
    lemma_listens(d, stats, events);
    reveal(listens);
    if t.decodes > 0 {
        lemma_mean(t.decode_us, t.decodes);
    }
    if t.encodes > 0 {
        lemma_mean(t.encode_us, t.encodes);
    }
}

proof fn lemma_mean(sum: int, n: int)
    requires
        sum >= 0,
        n > 0,
    ensures
        (sum / n) * n <= sum < (sum / n + 1) * n,
        0 <= sum / n <= sum,
{
    vstd::arithmetic::div_mod::lemma_fundamental_div_mod(sum, n);
    vstd::arithmetic::div_mod::lemma_mod_bound(sum, n);
    assert(n * (sum / n) == (sum / n) * n && (sum / n + 1) * n == (sum / n) * n + n)
        by (nonlinear_arith);
    assert(0 <= sum / n <= sum) by (nonlinear_arith)
        requires
            sum >= 0,
            n > 0,
    ;
}

/// The delays of a window are read alike: the mean over the delays that were
/// reported, of access units for the one and of first shards for the other,
/// and the last of them.
pub proof fn law_delays_are_means_of_what_was_reported(
    d: DriverView,
    stats: Stats,
    events: Seq<Event>,
    now: u64,
)
    requires
        opens(d.window, d.window.opened_at, stats),
        forall|i: int| 0 <= i < events.len() ==> plain(#[trigger] events[i]),
        told(stats, events).fits(),
    ensures
        ({
            let t = told(stats, events);
            let sample = d.lived(events).window.closing(now).sample;
            &&& t.owds == 0 ==> sample.owd_mean_us is None
            &&& t.owds > 0 ==> sample.owd_mean_us is Some
            &&& t.owd_us >= 0 ==> (sample.owd_mean_us matches Some(us) ==> us * t.owds <= t.owd_us
                < (us + 1) * t.owds)
            &&& t.shards == 0 ==> sample.delay is None
            &&& t.shards > 0 ==> sample.delay is Some
            &&& sample.delay matches Some(trend) ==> {
                &&& trend.samples == t.shards
                &&& trend.last_us == t.last_shard_us
                &&& t.shard_us >= 0 ==> trend.mean_us * t.shards <= t.shard_us < (trend.mean_us + 1)
                    * t.shards
            }
        }),
{
    let t = told(stats, events);
    lemma_listens(d, stats, events);
    reveal(listens);
    if t.owds > 0 && t.owd_us >= 0 {
        lemma_mean(t.owd_us, t.owds);
        lemma_small_mean(t.owd_us, t.owds);
    }
    if t.shards > 0 && t.shard_us >= 0 {
        lemma_mean(t.shard_us, t.shards);
        lemma_small_mean(t.shard_us, t.shards);
    }
}

proof fn lemma_small_mean(sum: int, n: int)
    requires
        0 <= sum <= 1_000_000_000_000 * n,
        n > 0,
    ensures
        0 <= sum / n <= 1_000_000_000_000,
{
    assert(0 <= sum / n <= 1_000_000_000_000) by (nonlinear_arith)
        requires
            0 <= sum <= 1_000_000_000_000 * n,
            n > 0,
    ;
}

/// A window's flush, keyframe asks, pictures and mark are those that were
/// told, and its delivery is the session's total of packets.
pub proof fn law_a_window_tells_what_happened(
    d: DriverView,
    stats: Stats,
    events: Seq<Event>,
    now: u64,
)
    requires
        opens(d.window, d.window.opened_at, stats),
        forall|i: int| 0 <= i < events.len() ==> plain(#[trigger] events[i]),
        told(stats, events).fits(),
    ensures
        ({
            let t = told(stats, events);
            let closed = d.lived(events).window.closing(now);
            let sample = closed.sample;
            &&& sample.now == now
            &&& sample.flushed == t.flushed
            &&& sample.recovery_kf == t.asks
            &&& closed.discarded == t.gap
            &&& d.window.reads_delivery ==> closed.delivery == Some(t.stats.packets_received)
            &&& !d.window.reads_delivery ==> closed.delivery is None
            &&& !d.window.marks_repeats ==> sample.activity == WindowActivity::Unmarked
            &&& d.window.marks_repeats && t.fresh > 0 ==> (
            sample.activity matches WindowActivity::Active(n) && n == t.fresh)
            &&& d.window.marks_repeats && t.fresh == 0 && t.repeats > 0 ==> sample.activity
                == WindowActivity::Idle
            &&& d.window.marks_repeats && t.fresh == 0 && t.repeats == 0 ==> sample.activity
                == WindowActivity::Empty
        }),
{
    lemma_listens(d, stats, events);
    reveal(listens);
}

/// A window's loss and rate are what its counters grew by while it was open,
/// filler left out: lost frames, the share of shards repaired, and the bits
/// that arrived over the time it took, audio's reservation on top.
pub proof fn law_a_window_measures_the_growth_of_its_counters(
    d: DriverView,
    stats: Stats,
    events: Seq<Event>,
    now: u64,
)
    requires
        opens(d.window, d.window.opened_at, stats),
        forall|i: int| 0 <= i < events.len() ==> plain(#[trigger] events[i]),
        told(stats, events).fits(),
        net_growth(stats, told(stats, events).stats),
        now >= d.window.opened_at + 1_000_000,
        d.window.audio_reserved_kbps <= 1_000_000,
    ensures
        ({
            let end = told(stats, events).stats;
            let sample = d.lived(events).window.closing(now).sample;
            let recovered = end.fec_recovered_shards - stats.fec_recovered_shards;
            let packets = (end.packets_received - end.probe_packets_received) - (
            stats.packets_received - stats.probe_packets_received);
            let bytes = (end.bytes_received - end.probe_bytes_received) - (stats.bytes_received
                - stats.probe_bytes_received);
            let ms = (now - d.window.opened_at) / 1_000_000;
            let kbps = sample.actual_kbps - d.window.audio_reserved_kbps;
            &&& sample.dropped == end.frames_dropped - stats.frames_dropped
            &&& recovered > 0 ==> sample.loss_ppm * (recovered + packets) <= recovered * 1_000_000
                < (sample.loss_ppm + 1) * (recovered + packets)
            &&& recovered == 0 && sample.dropped == 0 ==> sample.loss_ppm == 0
            &&& recovered == 0 && sample.dropped > 0 ==> sample.loss_ppm * (1 + packets)
                <= 1_000_000 < (sample.loss_ppm + 1) * (1 + packets)
            &&& kbps >= 0
            &&& bytes <= 100_000_000 ==> kbps * ms <= 8 * bytes < (kbps + 1) * ms
        }),
{
    lemma_listens(d, stats, events);
    reveal(listens);
    let end = told(stats, events).stats;
    let recovered = (end.fec_recovered_shards - stats.fec_recovered_shards) as u64;
    let packets = ((end.packets_received - end.probe_packets_received) - (stats.packets_received
        - stats.probe_packets_received)) as u64;
    let dropped = (end.frames_dropped - stats.frames_dropped) as u64;
    law_loss_is_a_share_of_what_was_sent(recovered, packets, dropped);
    law_loss_is_a_share_of_what_was_sent(1, packets, 0);
    let bytes = (end.bytes_received - end.probe_bytes_received) - (stats.bytes_received
        - stats.probe_bytes_received);
    let ms = (now - d.window.opened_at) / 1_000_000;
    if bytes <= 100_000_000 {
        lemma_mean(8 * bytes, ms);
    }
}

/// Every counter, filler left out, grew or stood still.
pub open spec fn net_growth(a: Stats, b: Stats) -> bool {
    &&& a.probe_bytes_received <= a.bytes_received
    &&& b.probe_bytes_received <= b.bytes_received
    &&& a.bytes_received - a.probe_bytes_received <= b.bytes_received - b.probe_bytes_received
    &&& a.probe_packets_received <= a.packets_received
    &&& b.probe_packets_received <= b.packets_received
    &&& a.packets_received - a.probe_packets_received <= b.packets_received
        - b.probe_packets_received
    &&& a.fec_recovered_shards <= b.fec_recovered_shards
    &&& a.frames_dropped <= b.frames_dropped
}

/// The fit through `n` delays that start at `from` and grow by `step` each.
pub open spec fn line(from: int, step: int, n: nat) -> DelayFit
    decreases n,
{
    if n == 0 {
        DelayFit::new()
    } else {
        line(from, step, (n - 1) as nat).with((from + step * (n - 1)) as i64)
    }
}

proof fn lemma_line(from: int, step: int, n: nat)
    requires
        n <= 1_000,
        -1_000_000_000 <= from <= 1_000_000_000,
        -1_000_000 <= step <= 1_000_000,
    ensures
        line(from, step, n).samples == n,
        2 * line(from, step, n).sum_us == 2 * n * from + step * (n * (n - 1)),
        6 * line(from, step, n).weighted_us == 3 * from * (n * (n - 1)) + step * (n * (n - 1) * (2
            * n - 1)),
        n > 0 ==> line(from, step, n).last_us == from + step * (n - 1),
    decreases n,
{
    if n > 0 {
        let m = (n - 1) as nat;
        lemma_line(from, step, m);
        let us = from + step * m;
        assert(-1_000_000_000 <= step * m <= 1_000_000_000) by (nonlinear_arith)
            requires
                m <= 1_000,
                -1_000_000 <= step <= 1_000_000,
        ;
        let f = line(from, step, m);
        assert(-10_000_000_000_000 <= m * us <= 10_000_000_000_000) by (nonlinear_arith)
            requires
                m <= 1_000,
                -2_000_000_000 <= us <= 2_000_000_000,
        ;
        assert(2 * m * from + step * (m * (m - 1)) + 2 * us == 2 * (m + 1) * from + step * ((m + 1)
            * m)) by (nonlinear_arith)
            requires
                us == from + step * m,
        ;
        assert(3 * from * (m * (m - 1)) + step * (m * (m - 1) * (2 * m - 1)) + 6 * (m * us) == 3
            * from * ((m + 1) * m) + step * ((m + 1) * m * (2 * m + 1))) by (nonlinear_arith)
            requires
                us == from + step * m,
        ;
        assert(-4_000_000_000_000 <= 2 * m * from <= 4_000_000_000_000) by (nonlinear_arith)
            requires
                m <= 1_000,
                -1_000_000_000 <= from <= 1_000_000_000,
        ;
        assert(0 <= m * (m - 1) <= 1_000_000) by (nonlinear_arith)
            requires
                m <= 1_000,
                m >= 0,
        ;
        assert(0 <= m * (m - 1) * (2 * m - 1) <= 2_000_000_000) by (nonlinear_arith)
            requires
                0 <= m * (m - 1) <= 1_000_000,
                m <= 1_000,
                m >= 0,
        ;
        let k: int = n as int;
        let j: int = m as int;
        assert(k * (k - 1) == (j + 1) * j && k * (k - 1) * (2 * k - 1) == (j + 1) * j * (2 * j + 1)
            && 2 * k * from == 2 * (j + 1) * from) by (nonlinear_arith)
            requires
                k == j + 1,
        ;
        let p = m * (m - 1);
        let q = m * (m - 1) * (2 * m - 1);
        assert(-1_000_000_000_000 <= step * p <= 1_000_000_000_000) by (nonlinear_arith)
            requires
                0 <= p <= 1_000_000,
                -1_000_000 <= step <= 1_000_000,
        ;
        assert(-2_000_000_000_000_000 <= step * q <= 2_000_000_000_000_000) by (nonlinear_arith)
            requires
                0 <= q <= 2_000_000_000,
                -1_000_000 <= step <= 1_000_000,
        ;
        assert(-3_000_000_000_000_000 <= 3 * from * p <= 3_000_000_000_000_000) by (nonlinear_arith)
            requires
                0 <= p <= 1_000_000,
                -1_000_000_000 <= from <= 1_000_000_000,
        ;
        let g = line(from, step, n);
        assert(g == f.with(us as i64));
        assert(step * (n * (n - 1)) == step * ((j + 1) * j));
    } else {
        let k: int = n as int;
        assert(2 * k * from == 0 && step * (k * (k - 1)) == 0 && 3 * from * (k * (k - 1)) == 0 && step
            * (k * (k - 1) * (2 * k - 1)) == 0) by (nonlinear_arith)
            requires
                k == 0,
        ;
    }
}

/// Delays on a line are read as that line: a delay that grows by as much with
/// every sample rises, from the first to the last, by exactly what they are
/// apart, and its last reading is the last sample.
pub proof fn law_a_steady_rise_is_read_as_one(from: int, step: int, n: nat)
    requires
        0 < n <= 1_000,
        -1_000_000_000 <= from <= 1_000_000_000,
        -1_000_000 <= step <= 1_000_000,
    ensures
        line(from, step, n).trend() matches Some(t) && t.rise_us == step * (n - 1) && t.samples == n
            && t.last_us == from + step * (n - 1),
        DelayFit::new().trend() is None,
{
    lemma_line(from, step, n);
    let f = line(from, step, n);
    let lever = 6 * (2 * f.weighted_us - (n - 1) * f.sum_us);
    let k: int = n as int;
    let s: int = f.sum_us as int;
    let t: int = f.weighted_us as int;
    assert(6 * ((k - 1) * s) == 3 * ((k - 1) * (2 * s))) by (nonlinear_arith);
    assert((k - 1) * (2 * s) == (k - 1) * (2 * k * from + step * (k * (k - 1)))) by (nonlinear_arith)
        requires
            2 * s == 2 * k * from + step * (k * (k - 1)),
    ;
    assert(2 * (3 * from * (k * (k - 1)) + step * (k * (k - 1) * (2 * k - 1))) - 3 * ((k - 1) * (2 * k
        * from + step * (k * (k - 1)))) == (step * (k - 1)) * (k * (k + 1))) by (nonlinear_arith);
    assert(lever == (step * (k - 1)) * (k * (k + 1)));
    let rise = step * (n - 1);
    let d: int = (n * (n + 1)) as int;
    assert(d > 0) by (nonlinear_arith)
        requires
            n > 0,
            d == n * (n + 1),
    ;
    assert(-1_000_000_000 <= rise <= 1_000_000_000) by (nonlinear_arith)
        requires
            0 < n <= 1_000,
            -1_000_000 <= step <= 1_000_000,
            rise == step * (n - 1),
    ;
    if rise >= 0 {
        vstd::arithmetic::div_mod::lemma_div_multiples_vanish(rise, d);
        assert(rise * d >= 0 && d * rise == rise * d) by (nonlinear_arith)
            requires
                rise >= 0,
                d > 0,
        ;
    } else {
        vstd::arithmetic::div_mod::lemma_div_multiples_vanish(-rise, d);
        assert(rise * d < 0 && d * (-rise) == -(rise * d)) by (nonlinear_arith)
            requires
                rise < 0,
                d > 0,
        ;
    }
}

} // verus!
