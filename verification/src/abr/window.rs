//! Assembling a report window from the session's counters and latencies.

use super::probe::ms_since;
use super::sample::{DelayTrend, WindowActivity, WindowSample, WINDOW};
use crate::math::{counted, scaled, total, trunc_div};
use crate::stats::{since, window_loss_ppm, Stats};
use vstd::prelude::*;

verus! {

/// A latency further out than this is a broken clock: 12 days.
pub const LATENCY_LIMIT_US: i64 = 1_000_000_000_000;

/// First-shard delays a window reads. No refresh reaches this in 750 ms.
pub const SHARD_SAMPLES_MAX: u32 = 65_536;

/// The furthest latency at the last place a window reads.
pub const WEIGHTED_LIMIT_US: i128 = 65_536_000_000_000_000;

/// A latency in nanoseconds, as whole microseconds inside the limit.
pub open spec fn latency_us(ns: i128) -> i64 {
    let us = trunc_div(ns as int, 1_000);
    if us > LATENCY_LIMIT_US {
        LATENCY_LIMIT_US
    } else if us < -LATENCY_LIMIT_US {
        (-LATENCY_LIMIT_US) as i64
    } else {
        us as i64
    }
}

fn to_us(ns: i128) -> (us: i64)
    ensures
        us == latency_us(ns),
        -LATENCY_LIMIT_US <= us <= LATENCY_LIMIT_US,
{
    let us: i128 = ns / 1_000;
    if us > LATENCY_LIMIT_US as i128 {
        LATENCY_LIMIT_US
    } else if us < -(LATENCY_LIMIT_US as i128) {
        -LATENCY_LIMIT_US
    } else {
        us as i64
    }
}

/// A running mean of a latency stage.
#[derive(Clone, Copy, Debug, PartialEq, Eq, Structural)]
pub struct StageMean {
    pub sum_us: u64,
    pub count: u32,
}

impl StageMean {
    #[verifier::allow_in_spec]
    pub fn new() -> StageMean
        returns
            (StageMean { sum_us: 0, count: 0 }),
    {
        StageMean { sum_us: 0, count: 0 }
    }

    /// The stage after another batch of samples.
    #[verifier::allow_in_spec]
    pub fn plus(self, sum_us: u64, count: u32) -> StageMean
        returns
            (StageMean {
                sum_us: total(self.sum_us, sum_us),
                count: if self.count + count > u32::MAX {
                    u32::MAX
                } else {
                    (self.count + count) as u32
                },
            }),
    {
        StageMean {
            sum_us: total(self.sum_us, sum_us),
            count: if self.count > u32::MAX - count {
                u32::MAX
            } else {
                self.count + count
            },
        }
    }

    /// The mean, none without a sample.
    #[verifier::allow_in_spec]
    pub fn mean(self) -> Option<i64>
        returns
            (if self.count == 0 {
                None
            } else if self.sum_us / self.count as u64 > LATENCY_LIMIT_US {
                Some(LATENCY_LIMIT_US)
            } else {
                Some((self.sum_us / self.count as u64) as i64)
            }),
    {
        if self.count == 0 {
            return None;
        }
        let mean: u64 = self.sum_us / self.count as u64;
        if mean > LATENCY_LIMIT_US as u64 {
            Some(LATENCY_LIMIT_US)
        } else {
            Some(mean as i64)
        }
    }
}

/// First-shard delays and the sums a line through them needs.
#[derive(Clone, Copy, Debug, PartialEq, Eq, Structural)]
pub struct DelayFit {
    pub samples: u32,
    pub sum_us: i128,
    /// Each delay times its place in the window, counted from zero.
    pub weighted_us: i128,
    pub last_us: i64,
}

impl DelayFit {
    pub open spec fn wf(self) -> bool {
        &&& self.samples <= SHARD_SAMPLES_MAX
        &&& -(LATENCY_LIMIT_US * self.samples) <= self.sum_us <= LATENCY_LIMIT_US * self.samples
        &&& -(WEIGHTED_LIMIT_US * self.samples) <= self.weighted_us <= WEIGHTED_LIMIT_US
            * self.samples
    }

    #[verifier::allow_in_spec]
    pub fn new() -> DelayFit
        returns
            (DelayFit { samples: 0, sum_us: 0, weighted_us: 0, last_us: 0 }),
    {
        DelayFit { samples: 0, sum_us: 0, weighted_us: 0, last_us: 0 }
    }

    /// The fit with one more delay.
    pub open spec fn with(self, us: i64) -> DelayFit {
        if self.samples >= SHARD_SAMPLES_MAX {
            self
        } else {
            DelayFit {
                samples: (self.samples + 1) as u32,
                sum_us: (self.sum_us + us) as i128,
                weighted_us: (self.weighted_us + self.samples * us) as i128,
                last_us: us,
            }
        }
    }

    fn note(&mut self, us: i64)
        requires
            old(self).wf(),
            -LATENCY_LIMIT_US <= us <= LATENCY_LIMIT_US,
        ensures
            final(self).wf(),
            *final(self) == old(self).with(us),
    {
        if self.samples >= SHARD_SAMPLES_MAX {
            return;
        }
        assert(-(1_000_000_000_000 * 65_536) <= self.samples * us <= 1_000_000_000_000 * 65_536)
            by (nonlinear_arith)
            requires
                self.samples <= 65_536,
                -1_000_000_000_000 <= us <= 1_000_000_000_000,
        ;
        let placed: i128 = self.samples as i128 * us as i128;
        *self =
        DelayFit {
            samples: self.samples + 1,
            sum_us: self.sum_us + us as i128,
            weighted_us: self.weighted_us + placed,
            last_us: us,
        };
    }

    /// The least-squares line through the delays, against their place: its
    /// mean, and how far it moves from the first place to the last.
    ///
    /// For `n` equally spaced values with sum `s` and place-weighted sum `t`
    /// that move is `6 (2 t - (n - 1) s) / (n (n + 1))`.
    pub open spec fn trend(self) -> Option<DelayTrend> {
        let n = self.samples as int;
        if n == 0 {
            None
        } else {
            Some(
                DelayTrend {
                    samples: self.samples,
                    mean_us: trunc_div(self.sum_us as int, n) as i64,
                    rise_us: trunc_div(
                        6 * (2 * self.weighted_us - (n - 1) * self.sum_us),
                        n * (n + 1),
                    ) as i64,
                    last_us: self.last_us,
                },
            )
        }
    }

    fn fit(&self) -> (t: Option<DelayTrend>)
        requires
            self.wf(),
        ensures
            t == self.trend(),
    {
        if self.samples == 0 {
            return None;
        }
        let n: i128 = self.samples as i128;
        assert(-(65_536 * 65_536 * 1_000_000_000_000) <= (n - 1) * self.sum_us <= 65_536 * 65_536
            * 1_000_000_000_000) by (nonlinear_arith)
            requires
                1 <= n <= 65_536,
                -(1_000_000_000_000 * n) <= self.sum_us <= 1_000_000_000_000 * n,
        ;
        let lever: i128 = (n - 1) * self.sum_us;
        let numerator: i128 = 6 * (2 * self.weighted_us - lever);
        assert(2 <= n * (n + 1) <= 65_536 * 65_537) by (nonlinear_arith)
            requires
                1 <= n <= 65_536,
        ;
        let denominator: i128 = n * (n + 1);
        let mean: i128 = self.sum_us / n;
        let rise: i128 = numerator / denominator;
        Some(
            DelayTrend {
                samples: self.samples,
                mean_us: #[verifier::truncate]
                (mean as i64),
                rise_us: #[verifier::truncate]
                (rise as i64),
                last_us: self.last_us,
            },
        )
    }
}

/// The counters a window is measured from, net of a measurement's filler.
#[derive(Clone, Copy, Debug, PartialEq, Eq, Structural)]
pub struct Anchors {
    pub bytes: u64,
    pub packets: u64,
    pub recovered: u64,
    pub dropped: u64,
}

impl Anchors {
    /// The counters of a snapshot.
    #[verifier::allow_in_spec]
    pub fn of(st: &Stats) -> Anchors
        returns
            (Anchors {
                bytes: since(st.bytes_received, st.probe_bytes_received),
                packets: since(st.packets_received, st.probe_packets_received),
                recovered: st.fec_recovered_shards,
                dropped: st.frames_dropped,
            }),
    {
        Anchors {
            bytes: since(st.bytes_received, st.probe_bytes_received),
            packets: since(st.packets_received, st.probe_packets_received),
            recovered: st.fec_recovered_shards,
            dropped: st.frames_dropped,
        }
    }
}

/// What arrived in the window besides counters.
#[derive(Clone, Copy, Debug, PartialEq, Eq, Structural)]
pub struct Tally {
    /// Access units with new content, and repeats of a still picture.
    pub fresh: u32,
    pub repeats: u32,
    pub keyframe_asks: u32,
    pub flushed: bool,
    pub owd: DelayFit,
    pub shards: DelayFit,
    pub decode: StageMean,
    pub encode: StageMean,
}

impl Tally {
    pub open spec fn wf(self) -> bool {
        self.owd.wf() && self.shards.wf()
    }

    #[verifier::allow_in_spec]
    pub fn new() -> Tally
        returns
            (Tally {
                fresh: 0,
                repeats: 0,
                keyframe_asks: 0,
                flushed: false,
                owd: DelayFit::new(),
                shards: DelayFit::new(),
                decode: StageMean::new(),
                encode: StageMean::new(),
            }),
    {
        Tally {
            fresh: 0,
            repeats: 0,
            keyframe_asks: 0,
            flushed: false,
            owd: DelayFit::new(),
            shards: DelayFit::new(),
            decode: StageMean::new(),
            encode: StageMean::new(),
        }
    }

    /// What the window's access units were.
    #[verifier::allow_in_spec]
    pub fn activity(&self, marks_repeats: bool) -> WindowActivity
        returns
            (if !marks_repeats {
                WindowActivity::Unmarked
            } else if self.fresh > 0 {
                WindowActivity::Active(self.fresh)
            } else if self.repeats > 0 {
                WindowActivity::Idle
            } else {
                WindowActivity::Empty
            }),
    {
        if !marks_repeats {
            WindowActivity::Unmarked
        } else if self.fresh > 0 {
            WindowActivity::Active(self.fresh)
        } else if self.repeats > 0 {
            WindowActivity::Idle
        } else {
            WindowActivity::Empty
        }
    }
}

/// A window that closed.
#[derive(Clone, Copy, Debug, PartialEq, Eq, Structural)]
pub struct Closed {
    pub sample: WindowSample,
    /// It described something other than the link.
    pub discarded: bool,
    /// Session total of packets received, for a host that reads it.
    pub delivery: Option<u64>,
}

/// The report window in progress.
#[derive(Clone, Copy, Debug, PartialEq, Eq, Structural)]
pub struct WindowAccumulator {
    /// Audio's wire reservation, spent whether video flows or not.
    pub audio_reserved_kbps: u32,
    pub marks_repeats: bool,
    pub reads_delivery: bool,
    pub opened_at: u64,
    pub discarding: bool,
    /// The latest counters.
    pub stats: Stats,
    pub anchors: Anchors,
    pub tally: Tally,
}

/// `bytes` over `ms` milliseconds, as kilobits a second.
#[verifier::allow_in_spec]
pub fn wire_rate_kbps(bytes: u64, ms: u64) -> u32
    requires
        ms > 0,
    returns
        (if scaled(bytes, 8) / ms > u32::MAX {
            u32::MAX
        } else {
            (scaled(bytes, 8) / ms) as u32
        }),
{
    let kbps: u64 = scaled(bytes, 8) / ms;
    if kbps > u32::MAX as u64 {
        u32::MAX
    } else {
        kbps as u32
    }
}

impl WindowAccumulator {
    pub open spec fn wf(self) -> bool {
        self.tally.wf()
    }

    #[verifier::allow_in_spec]
    pub fn new(audio_reserved_kbps: u32, marks_repeats: bool, reads_delivery: bool, now: u64) -> WindowAccumulator
        returns
            (WindowAccumulator {
                audio_reserved_kbps,
                marks_repeats,
                reads_delivery,
                opened_at: now,
                discarding: false,
                stats: Stats::zero(),
                anchors: Anchors::of(&Stats::zero()),
                tally: Tally::new(),
            }),
    {
        WindowAccumulator {
            audio_reserved_kbps,
            marks_repeats,
            reads_delivery,
            opened_at: now,
            discarding: false,
            stats: Stats::zero(),
            anchors: Anchors::of(&Stats::zero()),
            tally: Tally::new(),
        }
    }

    /// The session counters, as they stand.
    pub fn on_stats(&mut self, st: &Stats)
        requires
            old(self).wf(),
        ensures
            final(self).wf(),
            *final(self) == (WindowAccumulator { stats: *st, ..*old(self) }),
    {
        self.stats = *st;
    }

    /// The window after one access unit.
    pub open spec fn with_au(self, repeat: bool) -> Self {
        WindowAccumulator {
            tally: Tally {
                fresh: if repeat {
                    self.tally.fresh
                } else {
                    counted(self.tally.fresh)
                },
                repeats: if repeat {
                    counted(self.tally.repeats)
                } else {
                    self.tally.repeats
                },
                ..self.tally
            },
            ..self
        }
    }

    pub fn on_au(&mut self, repeat: bool)
        requires
            old(self).wf(),
        ensures
            final(self).wf(),
            *final(self) == old(self).with_au(repeat),
    {
        let tally: Tally = self.tally;
        self.tally =
        if repeat {
            Tally { repeats: counted(tally.repeats), ..tally }
        } else {
            Tally { fresh: counted(tally.fresh), ..tally }
        };
    }

    /// Capture to received, for one access unit.
    pub fn on_owd(&mut self, ns: i128)
        requires
            old(self).wf(),
        ensures
            final(self).wf(),
            *final(self) == (WindowAccumulator {
                tally: Tally {
                    owd: old(self).tally.owd.with(latency_us(ns)),
                    ..old(self).tally
                },
                ..*old(self)
            }),
    {
        let mut owd: DelayFit = self.tally.owd;
        owd.note(to_us(ns));
        self.tally = Tally { owd, ..self.tally };
    }

    /// Capture to the first shard's arrival, for one frame.
    pub fn on_shard_owd(&mut self, ns: i128)
        requires
            old(self).wf(),
        ensures
            final(self).wf(),
            *final(self) == (WindowAccumulator {
                tally: Tally {
                    shards: old(self).tally.shards.with(latency_us(ns)),
                    ..old(self).tally
                },
                ..*old(self)
            }),
    {
        let mut shards: DelayFit = self.tally.shards;
        shards.note(to_us(ns));
        self.tally = Tally { shards, ..self.tally };
    }

    pub fn on_decode_latency(&mut self, sum_us: u64, count: u32)
        requires
            old(self).wf(),
        ensures
            final(self).wf(),
            *final(self) == (WindowAccumulator {
                tally: Tally {
                    decode: old(self).tally.decode.plus(sum_us, count),
                    ..old(self).tally
                },
                ..*old(self)
            }),
    {
        self.tally = Tally { decode: self.tally.decode.plus(sum_us, count), ..self.tally };
    }

    pub fn on_encode_latency(&mut self, sum_us: u64, count: u32)
        requires
            old(self).wf(),
        ensures
            final(self).wf(),
            *final(self) == (WindowAccumulator {
                tally: Tally {
                    encode: old(self).tally.encode.plus(sum_us, count),
                    ..old(self).tally
                },
                ..*old(self)
            }),
    {
        self.tally = Tally { encode: self.tally.encode.plus(sum_us, count), ..self.tally };
    }

    pub fn on_keyframe_asks(&mut self, n: u32)
        requires
            old(self).wf(),
        ensures
            final(self).wf(),
            *final(self) == (WindowAccumulator {
                tally: Tally {
                    keyframe_asks: if old(self).tally.keyframe_asks + n > u32::MAX {
                        u32::MAX
                    } else {
                        (old(self).tally.keyframe_asks + n) as u32
                    },
                    ..old(self).tally
                },
                ..*old(self)
            }),
    {
        let asks: u32 = self.tally.keyframe_asks;
        self.tally =
        Tally {
            keyframe_asks: if asks > u32::MAX - n {
                u32::MAX
            } else {
                asks + n
            },
            ..self.tally
        };
    }

    pub fn on_flush(&mut self)
        requires
            old(self).wf(),
        ensures
            final(self).wf(),
            *final(self) == (WindowAccumulator {
                tally: Tally { flushed: true, ..old(self).tally },
                ..*old(self)
            }),
    {
        self.tally = Tally { flushed: true, ..self.tally };
    }

    /// The window in progress describes something other than the link.
    pub fn discard(&mut self)
        requires
            old(self).wf(),
        ensures
            final(self).wf(),
            *final(self) == (WindowAccumulator { discarding: true, ..*old(self) }),
    {
        self.discarding = true;
    }

    /// The window after every anchor moved past a burst.
    pub open spec fn rebased(self, now: u64) -> Self {
        WindowAccumulator {
            opened_at: now,
            discarding: true,
            anchors: Anchors::of(&self.stats),
            tally: Tally::new(),
            ..self
        }
    }

    /// A burst ended: move every anchor past it, and discard the window it
    /// straddled.
    pub fn rebase(&mut self, now: u64)
        requires
            old(self).wf(),
        ensures
            final(self).wf(),
            *final(self) == old(self).rebased(now),
    {
        *self =
        WindowAccumulator {
            opened_at: now,
            discarding: true,
            anchors: Anchors::of(&self.stats),
            tally: Tally::new(),
            ..*self
        };
    }

    /// Move the byte anchor alone past what has arrived.
    pub fn rebase_bytes(&mut self)
        requires
            old(self).wf(),
        ensures
            final(self).wf(),
            *final(self) == (WindowAccumulator {
                anchors: Anchors {
                    bytes: Anchors::of(&old(self).stats).bytes,
                    ..old(self).anchors
                },
                ..*old(self)
            }),
    {
        self.anchors = Anchors { bytes: Anchors::of(&self.stats).bytes, ..self.anchors };
    }

    /// The window has run its length, and no burst holds the report back.
    #[verifier::allow_in_spec]
    pub fn due(&self, now: u64, probe_active: bool) -> bool
        returns
            !probe_active && now >= self.opened_at && now - self.opened_at >= WINDOW,
    {
        !probe_active && now >= self.opened_at && now - self.opened_at >= WINDOW
    }

    /// The rate that arrived, audio's reservation included.
    pub open spec fn arrived_kbps(self, now: u64) -> u32 {
        let ms = ms_since(self.opened_at, now);
        let kbps = wire_rate_kbps(
            since(Anchors::of(&self.stats).bytes, self.anchors.bytes),
            if ms > 0 {
                ms
            } else {
                1
            },
        );
        if kbps + self.audio_reserved_kbps > u32::MAX {
            u32::MAX
        } else {
            (kbps + self.audio_reserved_kbps) as u32
        }
    }

    /// The window as the controller reads it.
    pub open spec fn sample(self, now: u64) -> WindowSample {
        let at = Anchors::of(&self.stats);
        let dropped = since(at.dropped, self.anchors.dropped);
        WindowSample {
            now,
            dropped,
            loss_ppm: window_loss_ppm(
                since(at.recovered, self.anchors.recovered),
                since(at.packets, self.anchors.packets),
                dropped,
            ),
            owd_mean_us: match self.tally.owd.trend() {
                Some(t) => Some(t.mean_us),
                None => None,
            },
            decode_mean_us: self.tally.decode.mean(),
            encode_mean_us: self.tally.encode.mean(),
            actual_kbps: self.arrived_kbps(now),
            flushed: self.tally.flushed,
            recovery_kf: self.tally.keyframe_asks,
            activity: self.tally.activity(self.marks_repeats),
            delay: self.tally.shards.trend(),
        }
    }

    /// What closing the window gives.
    pub open spec fn closing(self, now: u64) -> Closed {
        Closed {
            sample: self.sample(now),
            discarded: self.discarding,
            delivery: if self.reads_delivery {
                Some(self.stats.packets_received)
            } else {
                None
            },
        }
    }

    /// The window that opens in its place.
    pub open spec fn reopened(self, now: u64) -> Self {
        WindowAccumulator {
            opened_at: now,
            discarding: false,
            anchors: Anchors::of(&self.stats),
            tally: Tally::new(),
            ..self
        }
    }

    /// Close the window and open the next one.
    pub fn close(&mut self, now: u64) -> (closed: Closed)
        requires
            old(self).wf(),
        ensures
            final(self).wf(),
            *final(self) == old(self).reopened(now),
            closed == old(self).closing(now),
    {
        let at = Anchors::of(&self.stats);
        let dropped: u64 = since(at.dropped, self.anchors.dropped);
        let loss_ppm: u32 = window_loss_ppm(
            since(at.recovered, self.anchors.recovered),
            since(at.packets, self.anchors.packets),
            dropped,
        );
        let ms: u64 = ms_since(self.opened_at, now);
        let kbps: u32 = wire_rate_kbps(
            since(at.bytes, self.anchors.bytes),
            if ms > 0 {
                ms
            } else {
                1
            },
        );
        let actual_kbps: u32 = if kbps > u32::MAX - self.audio_reserved_kbps {
            u32::MAX
        } else {
            kbps + self.audio_reserved_kbps
        };
        let owd_mean_us: Option<i64> = match self.tally.owd.fit() {
            Some(t) => Some(t.mean_us),
            None => None,
        };
        let closed = Closed {
            sample: WindowSample {
                now,
                dropped,
                loss_ppm,
                owd_mean_us,
                decode_mean_us: self.tally.decode.mean(),
                encode_mean_us: self.tally.encode.mean(),
                actual_kbps,
                flushed: self.tally.flushed,
                recovery_kf: self.tally.keyframe_asks,
                activity: self.tally.activity(self.marks_repeats),
                delay: self.tally.shards.fit(),
            },
            discarded: self.discarding,
            delivery: if self.reads_delivery {
                Some(self.stats.packets_received)
            } else {
                None
            },
        };
        *self =
        WindowAccumulator {
            opened_at: now,
            discarding: false,
            anchors: at,
            tally: Tally::new(),
            ..*self
        };
        closed
    }
}

/// A burst's bytes never reach a window: one that closes right where it was
/// rebased carries nothing but audio's reservation, and is discarded.
pub proof fn law_a_rebased_window_starts_empty(w: WindowAccumulator, now: u64)
    ensures
        w.rebased(now).closing(now).discarded,
        w.rebased(now).closing(now).sample.dropped == 0,
        w.rebased(now).closing(now).sample.loss_ppm == 0,
        w.rebased(now).closing(now).sample.actual_kbps == w.audio_reserved_kbps,
{
}

} // verus!
