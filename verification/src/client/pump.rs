//! The data-plane pump's decisions: when the stream has fallen behind and
//! must jump to the live edge, and what each report window tells the host.
//!
//! A standing queue never drains by itself, and access units are reference
//! chained, so the only way back is to throw the whole backlog away and ask
//! for a keyframe. Two detectors ask for that: frames that keep arriving late
//! against the capture clock, and a hand-off queue that stays deep.

use super::frame_channel::{
    ADAPT_REPORT_INTERVAL, FLUSH_COOLDOWN, FLUSH_LATENCY, NOOP_CLOCK_FLUSHES_TO_DISARM,
    NOOP_FLUSH_DATAGRAMS, OWD_LIMIT_NS, QUEUE_HIGH, QUEUE_LOW,
};
use crate::math::counted;
use crate::stats::{law_loss_is_a_share_of_what_was_sent, window_loss_ppm, Stats};
use vstd::prelude::*;

verus! {

/// Late frames in a row that make the clock detector jump.
pub const FLUSH_AFTER_FRAMES: u32 = 30;

/// Frames in a row with a deep queue that make the queue detector jump.
pub const STANDING_FRAMES: u32 = 30;

/// No delay the two clocks can show is longer than this.
pub const DELAY_LIMIT: u128 = 0x2_0000_0000_0000_0000;

/// One completed frame, as the pump sees it.
#[derive(Clone, Copy, Debug)]
pub struct Arrival {
    /// Monotonic time, in nanoseconds.
    pub now: u64,
    /// Wall clock, in nanoseconds.
    pub wall_ns: u64,
    /// Host clock minus client clock. Zero where it is not known.
    pub clock_offset_ns: i64,
    /// The frame's capture time on the host's clock.
    pub pts_ns: u64,
    /// Frames waiting in the hand-off queue.
    pub depth: usize,
    /// The frame is a speed test's filler.
    pub filler: bool,
    /// A speed test runs.
    pub probing: bool,
}

/// What becomes of a completed frame.
#[derive(Clone, Copy, Debug, PartialEq, Eq, Structural)]
pub enum FrameStep {
    /// Not video: nothing to do.
    Skip,
    /// Hand it to the decoder.
    Deliver,
    /// Throw away the receive backlog and the queued frames, ask for a
    /// keyframe, and drop this frame too. Says which detectors fired.
    Jump { clock: bool, queue: bool },
}

/// What a finished report window holds.
#[derive(Clone, Copy, Debug, PartialEq, Eq, Structural)]
pub struct WindowReport {
    /// The wall clock is suspected to have stepped: ask for a re-sync.
    pub resync: bool,
    /// Shard loss before repair.
    pub loss_ppm: u32,
    /// Frames lost beyond repair.
    pub dropped: u64,
    /// Mean capture-to-receive delay, where the clocks compare.
    pub owd_mean_us: Option<i64>,
    /// The stream jumped to the live edge within the window.
    pub flushed: bool,
}

/// The pump's memory between frames.
#[derive(Clone, Copy, Debug, PartialEq, Eq, Structural)]
pub struct Pump {
    /// Late frames in a row.
    pub stale_frames: u32,
    /// Frames since the queue was last drained, while it is deep.
    pub standing_frames: u32,
    /// When the stream last jumped.
    pub last_flush: Option<u64>,
    /// Clock-only jumps in a row that found no backlog.
    pub noop_clock_flushes: u32,
    pub clock_detector_armed: bool,
    pub resync_wanted: bool,
    /// The clock re-sync the counters were measured under.
    pub seen_clock_gen: u32,
    /// The window's delay sum and how many frames are in it.
    pub owd_sum_ns: u128,
    pub owd_frames: u32,
    pub flush_in_window: bool,
    /// When the last window closed, and the counters there.
    pub last_report: u64,
    pub last_recovered: u64,
    pub last_received: u64,
    pub last_dropped: u64,
}

impl Arrival {
    /// How late the frame is against the capture clock. Zero where the clocks
    /// do not compare.
    pub open spec fn latency(self) -> int {
        if self.clock_offset_ns != 0 {
            self.wall_ns + self.clock_offset_ns - self.pts_ns
        } else {
            0
        }
    }

    pub open spec fn late(self) -> bool {
        self.latency() > FLUSH_LATENCY
    }

    /// The delay that is believed of the frame.
    pub open spec fn believed(self) -> Option<i128> {
        if !self.filler && !self.probing && 0 < self.latency() < OWD_LIMIT_NS {
            Some(self.latency() as i128)
        } else {
            None
        }
    }

    /// The frame's delay, where it says something of the path: a picture's,
    /// outside a speed test, under clocks that compare, and worth believing.
    pub fn delay(&self) -> (ns: Option<i128>)
        ensures
            ns == self.believed(),
            ns == if !self.filler && !self.probing && 0 < self.latency() < OWD_LIMIT_NS {
                Some(self.latency() as i128)
            } else {
                None
            },
    {
        if self.filler || self.probing || self.clock_offset_ns == 0 {
            return None;
        }
        let ns: i128 = self.wall_ns as i128 + self.clock_offset_ns as i128 - self.pts_ns as i128;
        if 0 < ns && ns < OWD_LIMIT_NS {
            Some(ns)
        } else {
            None
        }
    }
}

impl Pump {
    /// A pump that starts at `now` under clock generation `gen`.
    #[verifier::allow_in_spec]
    pub fn new(now: u64, gen: u32) -> Pump
        returns
            (Pump {
                stale_frames: 0,
                standing_frames: 0,
                last_flush: None,
                noop_clock_flushes: 0,
                clock_detector_armed: true,
                resync_wanted: false,
                seen_clock_gen: gen,
                owd_sum_ns: 0,
                owd_frames: 0,
                flush_in_window: false,
                last_report: now,
                last_recovered: 0,
                last_received: 0,
                last_dropped: 0,
            }),
    {
        Pump {
            stale_frames: 0,
            standing_frames: 0,
            last_flush: None,
            noop_clock_flushes: 0,
            clock_detector_armed: true,
            resync_wanted: false,
            seen_clock_gen: gen,
            owd_sum_ns: 0,
            owd_frames: 0,
            flush_in_window: false,
            last_report: now,
            last_recovered: 0,
            last_received: 0,
            last_dropped: 0,
        }
    }

    /// The pump once clock generation `gen` is known: a re-sync voids what
    /// was measured under the old offset, and arms the clock detector again.
    pub open spec fn resynced(self, gen: u32) -> Pump {
        if gen != self.seen_clock_gen {
            Pump {
                seen_clock_gen: gen,
                stale_frames: 0,
                noop_clock_flushes: 0,
                clock_detector_armed: true,
                ..self
            }
        } else {
            self
        }
    }

    pub fn on_clock_gen(&mut self, gen: u32)
        requires
            old(self).wf(),
        ensures
            final(self).wf(),
            *final(self) == old(self).resynced(gen),
    {
        if gen != self.seen_clock_gen {
            *self = Pump {
                seen_clock_gen: gen,
                stale_frames: 0,
                noop_clock_flushes: 0,
                clock_detector_armed: true,
                ..*self
            };
        }
    }

    /// A report window is over. A speed test holds it open.
    pub open spec fn window_over(self, now: u64, probing: bool) -> bool {
        !probing && now >= self.last_report + ADAPT_REPORT_INTERVAL
    }

    /// The window's mean delay, in microseconds.
    pub open spec fn delay_mean(self) -> Option<i64> {
        if self.owd_frames > 0 {
            Some(
                #[verifier::truncate] ((self.owd_sum_ns as int / self.owd_frames as int / 1000) as i64),
            )
        } else {
            None
        }
    }

    /// What the window that ends with `stats` tells the host.
    pub open spec fn window(self, stats: Stats) -> WindowReport {
        WindowReport {
            resync: self.resync_wanted,
            loss_ppm: window_loss_ppm(
                stats.fec_recovered_shards.wrapping_sub(self.last_recovered),
                stats.packets_received.wrapping_sub(self.last_received),
                stats.frames_dropped.wrapping_sub(self.last_dropped),
            ),
            dropped: stats.frames_dropped.wrapping_sub(self.last_dropped),
            owd_mean_us: self.delay_mean(),
            flushed: self.flush_in_window,
        }
    }

    /// The pump after a window closed at `now` with `stats`.
    pub open spec fn next_window(self, now: u64, stats: Stats) -> Pump {
        Pump {
            resync_wanted: false,
            owd_sum_ns: 0,
            owd_frames: 0,
            flush_in_window: false,
            last_report: now,
            last_recovered: stats.fec_recovered_shards,
            last_received: stats.packets_received,
            last_dropped: stats.frames_dropped,
            ..self
        }
    }

    /// The pump after a look at `now`, and the window that closed.
    pub open spec fn reporting(self, now: u64, stats: Stats, probing: bool) -> (
        Pump,
        Option<WindowReport>,
    ) {
        if self.window_over(now, probing) {
            (self.next_window(now, stats), Some(self.window(stats)))
        } else {
            (self, None)
        }
    }

    /// Close the report window if it is over.
    pub fn report(&mut self, now: u64, stats: &Stats, probing: bool) -> (r: Option<WindowReport>)
        requires
            old(self).wf(),
        ensures
            final(self).wf(),
            (*final(self), r) == old(self).reporting(now, *stats, probing),
            old(self).window_over(now, probing) ==> r == Some(old(self).window(*stats))
                && *final(self) == old(self).next_window(now, *stats),
            !old(self).window_over(now, probing) ==> r is None && *final(self) == *old(self),
    {
        if probing || now < self.last_report || now - self.last_report < ADAPT_REPORT_INTERVAL {
            return None;
        }
        let dropped: u64 = stats.frames_dropped.wrapping_sub(self.last_dropped);
        let recovered: u64 = stats.fec_recovered_shards.wrapping_sub(self.last_recovered);
        let received: u64 = stats.packets_received.wrapping_sub(self.last_received);
        let loss_ppm: u32 = window_loss_ppm(recovered, received, dropped);
        let owd_mean_us: Option<i64> = if self.owd_frames > 0 {
            let mean_ns: u128 = self.owd_sum_ns / (self.owd_frames as u128);
            Some(#[verifier::truncate] ((mean_ns / 1000) as i64))
        } else {
            None
        };
        let report = WindowReport {
            resync: self.resync_wanted,
            loss_ppm,
            dropped,
            owd_mean_us,
            flushed: self.flush_in_window,
        };
        *self = Pump {
            resync_wanted: false,
            owd_sum_ns: 0,
            owd_frames: 0,
            flush_in_window: false,
            last_report: now,
            last_recovered: stats.fec_recovered_shards,
            last_received: stats.packets_received,
            last_dropped: stats.frames_dropped,
            ..*self
        };
        Some(report)
    }

    /// The window's delays are ones its frames can have had.
    pub open spec fn wf(self) -> bool {
        self.owd_sum_ns <= self.owd_frames * DELAY_LIMIT
    }

    /// The pump with the frame's delay in its window. Past the last number a
    /// window can count to, frames add nothing.
    pub open spec fn delayed(self, a: Arrival) -> Pump {
        if a.latency() > 0 && self.owd_frames < u32::MAX {
            Pump {
                owd_sum_ns: (self.owd_sum_ns + a.latency()) as u128,
                owd_frames: (self.owd_frames + 1) as u32,
                ..self
            }
        } else {
            self
        }
    }

    /// The pump with the frame counted by both detectors.
    pub open spec fn counting(self, a: Arrival) -> Pump {
        Pump {
            stale_frames: if self.clock_detector_armed && a.late() {
                counted(self.stale_frames)
            } else {
                0
            },
            standing_frames: if a.depth >= QUEUE_HIGH {
                counted(self.standing_frames)
            } else if a.depth <= QUEUE_LOW {
                0
            } else {
                self.standing_frames
            },
            ..self
        }
    }

    pub open spec fn clock_behind(self) -> bool {
        self.stale_frames >= FLUSH_AFTER_FRAMES
    }

    pub open spec fn queue_behind(self) -> bool {
        self.standing_frames >= STANDING_FRAMES
    }

    /// The last jump is long enough ago for another.
    pub open spec fn cooled(self, now: u64) -> bool {
        match self.last_flush {
            Some(at) => now >= at + FLUSH_COOLDOWN,
            None => true,
        }
    }

    /// The pump that jumped at `now`.
    pub open spec fn jumped(self, now: u64) -> Pump {
        Pump {
            stale_frames: 0,
            standing_frames: 0,
            last_flush: Some(now),
            flush_in_window: true,
            ..self
        }
    }

    /// The detectors fire on this frame.
    pub open spec fn jumps(self, a: Arrival) -> bool {
        let p = self.counting(a);
        !a.filler && !a.probing && (p.clock_behind() || p.queue_behind()) && p.cooled(a.now)
    }

    /// What becomes of the frame.
    pub open spec fn step(self, a: Arrival) -> FrameStep {
        if a.filler {
            FrameStep::Skip
        } else if self.jumps(a) {
            FrameStep::Jump {
                clock: self.counting(a).clock_behind(),
                queue: self.counting(a).queue_behind(),
            }
        } else {
            FrameStep::Deliver
        }
    }

    /// The pump after the frame. A speed test saturates the queue on purpose,
    /// so it keeps both detectors at zero.
    pub open spec fn after(self, a: Arrival) -> Pump {
        if a.filler {
            self
        } else if a.probing {
            Pump { stale_frames: 0, standing_frames: 0, ..self }
        } else {
            let p = self.delayed(a).counting(a);
            if self.jumps(a) {
                p.jumped(a.now)
            } else {
                p
            }
        }
    }

    /// A frame completed.
    pub fn on_frame(&mut self, a: &Arrival) -> (step: FrameStep)
        requires
            old(self).wf(),
        ensures
            final(self).wf(),
            *final(self) == old(self).after(*a),
            step == old(self).step(*a),
    {
        if a.filler {
            return FrameStep::Skip;
        }
        if a.probing {
            *self = Pump { stale_frames: 0, standing_frames: 0, ..*self };
            return FrameStep::Deliver;
        }
        let lat_ns: i128 = if a.clock_offset_ns != 0 {
            a.wall_ns as i128 + a.clock_offset_ns as i128 - a.pts_ns as i128
        } else {
            0
        };
        let mut p: Pump = *self;
        if lat_ns > 0 && p.owd_frames < u32::MAX {
            proof {
                lemma_sum_fits(p.owd_frames as int);
            }
            p = Pump {
                owd_sum_ns: p.owd_sum_ns + lat_ns as u128,
                owd_frames: p.owd_frames + 1,
                ..p
            };
        }
        let stale_frames: u32 = if p.clock_detector_armed && lat_ns > FLUSH_LATENCY as i128 {
            counted(p.stale_frames)
        } else {
            0
        };
        let standing_frames: u32 = if a.depth >= QUEUE_HIGH {
            counted(p.standing_frames)
        } else if a.depth <= QUEUE_LOW {
            0
        } else {
            p.standing_frames
        };
        let clock: bool = stale_frames >= FLUSH_AFTER_FRAMES;
        let queue: bool = standing_frames >= STANDING_FRAMES;
        let cooled: bool = match p.last_flush {
            Some(at) => a.now >= at && a.now - at >= FLUSH_COOLDOWN,
            None => true,
        };
        if (clock || queue) && cooled {
            *self = Pump {
                stale_frames: 0,
                standing_frames: 0,
                last_flush: Some(a.now),
                flush_in_window: true,
                ..p
            };
            FrameStep::Jump { clock, queue }
        } else {
            *self = Pump { stale_frames, standing_frames, ..p };
            FrameStep::Deliver
        }
    }

    /// A jump found nothing to throw away: only the clock read as behind, and
    /// no backlog was here.
    pub open spec fn found_nothing(clock: bool, queue: bool, flushed: u64, dropped: usize) -> bool {
        clock && !queue && flushed < NOOP_FLUSH_DATAGRAMS && dropped == 0
    }

    /// The pump after a jump's flush threw `flushed` datagrams and `dropped`
    /// queued frames away. A second flush in a row without a backlog disarms
    /// the clock detector; the first asks for a clock re-sync.
    pub open spec fn flushed(self, clock: bool, queue: bool, flushed: u64, dropped: usize) -> Pump {
        if Pump::found_nothing(clock, queue, flushed, dropped) {
            let n = counted(self.noop_clock_flushes);
            Pump {
                noop_clock_flushes: n,
                resync_wanted: self.resync_wanted || n == 1,
                clock_detector_armed: self.clock_detector_armed && n
                    < NOOP_CLOCK_FLUSHES_TO_DISARM,
                ..self
            }
        } else {
            Pump { noop_clock_flushes: 0, ..self }
        }
    }

    pub fn on_flushed(&mut self, clock: bool, queue: bool, flushed: u64, dropped: usize)
        requires
            old(self).wf(),
        ensures
            final(self).wf(),
            *final(self) == old(self).flushed(clock, queue, flushed, dropped),
    {
        if clock && !queue && flushed < NOOP_FLUSH_DATAGRAMS && dropped == 0 {
            let n: u32 = counted(self.noop_clock_flushes);
            *self = Pump {
                noop_clock_flushes: n,
                resync_wanted: self.resync_wanted || n == 1,
                clock_detector_armed: self.clock_detector_armed && n
                    < NOOP_CLOCK_FLUSHES_TO_DISARM,
                ..*self
            };
        } else {
            *self = Pump { noop_clock_flushes: 0, ..*self };
        }
    }
}

proof fn lemma_sum_fits(frames: int)
    requires
        0 <= frames < u32::MAX,
    ensures
        frames * DELAY_LIMIT + DELAY_LIMIT == (frames + 1) * DELAY_LIMIT,
        0 <= (frames + 1) * DELAY_LIMIT <= 0x1_0000_0000 * DELAY_LIMIT,
{
    assert(frames * DELAY_LIMIT + DELAY_LIMIT == (frames + 1) * DELAY_LIMIT) by (nonlinear_arith);
    assert(0 <= (frames + 1) * DELAY_LIMIT <= 0x1_0000_0000 * DELAY_LIMIT) by (nonlinear_arith)
        requires
            0 <= frames < u32::MAX,
    ;
}

/// A fresh pump is well formed, and every step keeps it so.
pub proof fn law_a_windows_sum_is_its_frames(p: Pump, a: Arrival, now: u64, gen: u32)
    requires
        p.wf(),
    ensures
        Pump::new(now, gen).wf(),
        p.after(a).wf(),
{
    if p.owd_frames < u32::MAX {
        lemma_sum_fits(p.owd_frames as int);
    }
}

/// The pump after each of `frames` in turn.
pub open spec fn pumped(p: Pump, frames: Seq<Arrival>) -> Pump
    decreases frames.len(),
{
    if frames.len() == 0 {
        p
    } else {
        pumped(p, frames.drop_last()).after(frames.last())
    }
}

proof fn lemma_counts_grow_by_one(p: Pump, frames: Seq<Arrival>)
    requires
        p.stale_frames == 0,
        p.standing_frames == 0,
    ensures
        pumped(p, frames).stale_frames <= frames.len(),
        pumped(p, frames).standing_frames <= frames.len(),
    decreases frames.len(),
{
    if frames.len() > 0 {
        lemma_counts_grow_by_one(p, frames.drop_last());
    }
}

/// A jump takes thirty frames: from counters at zero, which is where every
/// jump leaves them, fewer frames cause none, however late or deep.
pub proof fn law_a_jump_takes_a_run_of_frames(p: Pump, frames: Seq<Arrival>, last: Arrival)
    requires
        p.stale_frames == 0,
        p.standing_frames == 0,
        frames.len() + 1 < FLUSH_AFTER_FRAMES,
    ensures
        !pumped(p, frames).jumps(last),
{
    lemma_counts_grow_by_one(p, frames);
}

/// Two jumps are at least the cooldown apart, whatever comes between.
pub proof fn law_jumps_are_spaced(p: Pump, a: Arrival, frames: Seq<Arrival>, b: Arrival)
    requires
        p.jumps(a),
        forall|i: int| 0 <= i < frames.len() ==> !(#[trigger] pumped(p.after(a), frames.take(i)).jumps(frames[i])),
        pumped(p.after(a), frames).jumps(b),
    ensures
        b.now - a.now >= FLUSH_COOLDOWN,
{
    lemma_quiet_keeps_the_flush(p.after(a), frames);
}

proof fn lemma_quiet_keeps_the_flush(p: Pump, frames: Seq<Arrival>)
    requires
        forall|i: int| 0 <= i < frames.len() ==> !(#[trigger] pumped(p, frames.take(i)).jumps(frames[i])),
    ensures
        pumped(p, frames).last_flush == p.last_flush,
    decreases frames.len(),
{
    if frames.len() > 0 {
        let fewer = frames.drop_last();
        assert forall|i: int| 0 <= i < fewer.len() implies !(#[trigger] pumped(p, fewer.take(i)).jumps(
            fewer[i],
        )) by {
            assert(fewer.take(i) =~= frames.take(i));
            assert(!pumped(p, frames.take(i)).jumps(frames[i]));
        }
        lemma_quiet_keeps_the_flush(p, fewer);
        assert(frames.take(frames.len() - 1) =~= fewer);
        assert(!pumped(p, frames.take(frames.len() - 1)).jumps(frames[frames.len() - 1]));
    }
}

/// A frame in time that finds the queue drained leaves both detectors at zero
/// and is delivered: a clump that drains never costs a keyframe.
pub proof fn law_a_drained_queue_resets(p: Pump, a: Arrival)
    requires
        !a.filler,
        !a.late(),
        a.depth <= QUEUE_LOW,
    ensures
        p.after(a).stale_frames == 0,
        p.after(a).standing_frames == 0,
        p.step(a) == FrameStep::Deliver,
{
}

/// A speed test keeps both detectors off, however saturated its queue.
pub proof fn law_a_speed_test_never_jumps(p: Pump, a: Arrival)
    requires
        a.probing,
    ensures
        !p.jumps(a),
        !a.filler ==> p.after(a).stale_frames == 0 && p.after(a).standing_frames == 0,
{
}

/// Where the clocks do not compare, only the queue detector can fire, and no
/// delay is measured.
pub proof fn law_one_clock_never_reads_behind(p: Pump, a: Arrival)
    requires
        a.clock_offset_ns == 0,
    ensures
        p.step(a) matches FrameStep::Jump { clock, queue } ==> !clock && queue,
        p.after(a).owd_sum_ns == p.owd_sum_ns,
        p.after(a).owd_frames == p.owd_frames,
{
}

/// A clock that stepped costs two flushes at most: the first asks for a
/// re-sync, the second disarms the detector, and after that no frame makes
/// it fire until a re-sync lands.
pub proof fn law_a_clock_step_disarms(p: Pump, f1: u64, f2: u64, a: Arrival)
    requires
        p.noop_clock_flushes == 0,
        f1 < NOOP_FLUSH_DATAGRAMS,
        f2 < NOOP_FLUSH_DATAGRAMS,
    ensures
        ({
            let first = p.flushed(true, false, f1, 0);
            let second = first.flushed(true, false, f2, 0);
            &&& first.resync_wanted
            &&& first.clock_detector_armed == p.clock_detector_armed
            &&& !second.clock_detector_armed
            &&& (second.step(a) matches FrameStep::Jump { clock, queue } ==> !clock)
        }),
{
}

/// A clock re-sync arms the clock detector again and voids what it counted.
pub proof fn law_a_resync_arms_again(p: Pump, gen: u32)
    requires
        gen != p.seen_clock_gen,
    ensures
        p.resynced(gen).clock_detector_armed,
        p.resynced(gen).stale_frames == 0,
        p.resynced(gen).noop_clock_flushes == 0,
        p.resynced(gen).resynced(gen) == p.resynced(gen),
{
}

/// Windows hand on where they stopped: a counter's growth over two windows is
/// the sum of what the two report, and a window reports its flush and its
/// re-sync once.
pub proof fn law_windows_add_up(p: Pump, s1: Stats, s2: Stats, now: u64)
    requires
        p.last_dropped <= s1.frames_dropped <= s2.frames_dropped,
    ensures
        p.window(s1).dropped + p.next_window(now, s1).window(s2).dropped == s2.frames_dropped
            - p.last_dropped,
        !p.next_window(now, s1).window(s2).flushed,
        !p.next_window(now, s1).window(s2).resync,
        p.next_window(now, s1).window(s2).owd_mean_us is None,
{
}

/// A frame's latency leads from its capture to now on the host's clock; where
/// the offset is not known there is none. A later look makes it longer, a
/// later capture shorter.
pub proof fn law_latency_leads_from_capture_to_now(a: Arrival)
    ensures
        a.clock_offset_ns != 0 ==> a.pts_ns + a.latency() == a.wall_ns + a.clock_offset_ns,
        a.clock_offset_ns == 0 ==> a.latency() == 0,
        a.late() <==> a.clock_offset_ns != 0 && a.wall_ns + a.clock_offset_ns > a.pts_ns
            + 400_000_000,
{
}

/// A window reports what its counters grew by since the window before it
/// closed, and nothing of what came earlier: two pumps that closed a window on
/// the same counters report the same of the next.
pub proof fn law_a_window_reports_its_own_growth(p: Pump, q: Pump, s1: Stats, s2: Stats, now: u64)
    requires
        s1.fec_recovered_shards <= s2.fec_recovered_shards,
        s1.packets_received <= s2.packets_received,
        s1.frames_dropped <= s2.frames_dropped,
    ensures
        ({
            let r = p.next_window(now, s1).window(s2);
            let recovered = s2.fec_recovered_shards - s1.fec_recovered_shards;
            let received = s2.packets_received - s1.packets_received;
            let dropped = s2.frames_dropped - s1.frames_dropped;
            &&& r.dropped == dropped
            &&& recovered == 0 && dropped == 0 ==> r.loss_ppm == 0
            &&& recovered > 0 ==> r.loss_ppm * (recovered + received) <= recovered * 1_000_000 < (
            r.loss_ppm + 1) * (recovered + received)
            &&& recovered == 0 && dropped > 0 ==> r.loss_ppm * (1 + received) <= 1_000_000 < (
            r.loss_ppm + 1) * (1 + received)
            &&& q.next_window(now, s1).window(s2).loss_ppm == r.loss_ppm
            &&& q.next_window(now, s1).window(s2).dropped == r.dropped
        }),
{
    let recovered = (s2.fec_recovered_shards - s1.fec_recovered_shards) as u64;
    let received = (s2.packets_received - s1.packets_received) as u64;
    let dropped = (s2.frames_dropped - s1.frames_dropped) as u64;
    law_loss_is_a_share_of_what_was_sent(recovered, received, dropped);
    law_loss_is_a_share_of_what_was_sent(1, received, 0);
}

/// A window is over once its length has passed since the last one closed, and
/// never while a speed test runs; the one that follows runs its full length.
pub proof fn law_windows_run_their_length(p: Pump, s: Stats, now: u64, then: u64)
    ensures
        p.window_over(now, false) <==> now - p.last_report >= 750_000_000,
        !p.window_over(now, true),
        p.next_window(now, s).window_over(then, false) <==> then - now >= 750_000_000,
{
}

/// How many of `frames` have a delay to measure, and what those add up to.
pub open spec fn delays(frames: Seq<Arrival>) -> (int, int)
    decreases frames.len(),
{
    if frames.len() == 0 {
        (0, 0)
    } else {
        let (n, sum) = delays(frames.drop_last());
        let a = frames.last();
        let ns = a.wall_ns + a.clock_offset_ns - a.pts_ns;
        if !a.filler && !a.probing && a.clock_offset_ns != 0 && ns > 0 {
            (n + 1, sum + ns)
        } else {
            (n, sum)
        }
    }
}

proof fn lemma_delays(p: Pump, frames: Seq<Arrival>)
    requires
        p.owd_frames == 0,
        p.owd_sum_ns == 0,
        frames.len() < u32::MAX,
    ensures
        0 <= delays(frames).0 <= frames.len(),
        0 <= delays(frames).1 <= delays(frames).0 * DELAY_LIMIT,
        pumped(p, frames).owd_frames == delays(frames).0,
        pumped(p, frames).owd_sum_ns == delays(frames).1,
    decreases frames.len(),
{
    if frames.len() > 0 {
        lemma_delays(p, frames.drop_last());
        lemma_sum_fits(delays(frames.drop_last()).0);
    }
}

/// The delay a window reports is the mean over its pictures that have one, in
/// whole microseconds: filler, speed tests and clocks that do not compare add
/// nothing, and without a delay there is no mean.
pub proof fn law_the_mean_delay_is_of_its_frames(p: Pump, frames: Seq<Arrival>, s: Stats)
    requires
        p.owd_frames == 0,
        p.owd_sum_ns == 0,
        frames.len() < u32::MAX,
        delays(frames).1 < delays(frames).0 * 0x4000_0000_0000_0000,
    ensures
        ({
            let (n, sum) = delays(frames);
            let r = pumped(p, frames).window(s);
            &&& n == 0 ==> r.owd_mean_us is None
            &&& n > 0 ==> r.owd_mean_us is Some
            &&& r.owd_mean_us matches Some(us) ==> us * 1_000 * n <= sum < (us + 1) * 1_000 * n
        }),
{
    lemma_delays(p, frames);
    let (n, sum) = delays(frames);
    if n > 0 {
        let ns = sum / n;
        let us = ns / 1000;
        vstd::arithmetic::div_mod::lemma_fundamental_div_mod(sum, n);
        assert(0 <= ns < 0x4000_0000_0000_0000) by (nonlinear_arith)
            requires
                n > 0,
                0 <= sum < n * 0x4000_0000_0000_0000,
                ns == sum / n,
        ;
        assert(us * 1_000 * n <= ns * n) by (nonlinear_arith)
            requires
                us * 1_000 <= ns,
                n > 0,
        ;
        assert((ns + 1) * n <= (us + 1) * 1_000 * n) by (nonlinear_arith)
            requires
                ns + 1 <= (us + 1) * 1_000,
                n > 0,
        ;
        assert(n * ns == ns * n && (ns + 1) * n == ns * n + n) by (nonlinear_arith);
    }
}

/// A jump drops its frame, empties both counters, marks the window and the
/// time, and says which detector saw it; every other picture is delivered, and
/// only filler is skipped.
pub proof fn law_a_jump_starts_over(p: Pump, a: Arrival, s: Stats)
    ensures
        p.step(a) is Skip <==> a.filler,
        a.filler ==> p.after(a) == p,
        p.step(a) is Jump ==> {
            &&& p.after(a).stale_frames == 0 && p.after(a).standing_frames == 0
            &&& p.after(a).last_flush == Some(a.now)
            &&& p.after(a).window(s).flushed
            &&& p.step(a)->clock || p.step(a)->queue
        },
        p.step(a) is Deliver ==> p.after(a).last_flush == p.last_flush && p.after(a).window(s).flushed
            == p.window(s).flushed,
        p.after(a).clock_detector_armed == p.clock_detector_armed,
        p.after(a).last_report == p.last_report,
{
}

/// Every frame of a run counts: the late ones for the clock, and the ones that
/// find a deep queue for the queue.
proof fn lemma_a_run_counts(p: Pump, frames: Seq<Arrival>)
    requires
        frames.len() < 30,
        p.stale_frames == 0,
        p.standing_frames == 0,
        p.clock_detector_armed,
        forall|i: int|
            0 <= i < frames.len() ==> !(#[trigger] frames[i]).filler && !frames[i].probing,
    ensures
        pumped(p, frames).last_flush == p.last_flush,
        pumped(p, frames).clock_detector_armed,
        (forall|i: int| 0 <= i < frames.len() ==> (#[trigger] frames[i]).late()) ==> pumped(
            p,
            frames,
        ).stale_frames == frames.len(),
        (forall|i: int| 0 <= i < frames.len() ==> (#[trigger] frames[i]).depth >= 6) ==> pumped(
            p,
            frames,
        ).standing_frames == frames.len(),
        pumped(p, frames).stale_frames <= frames.len(),
        pumped(p, frames).standing_frames <= frames.len(),
    decreases frames.len(),
{
    if frames.len() > 0 {
        let fewer = frames.drop_last();
        assert forall|i: int| 0 <= i < fewer.len() implies !(#[trigger] fewer[i]).filler
            && !fewer[i].probing by {
            assert(fewer[i] == frames[i]);
        }
        lemma_a_run_counts(p, fewer);
        assert(!frames[frames.len() - 1].filler);
        if forall|i: int| 0 <= i < frames.len() ==> (#[trigger] frames[i]).late() {
            assert forall|i: int| 0 <= i < fewer.len() implies (#[trigger] fewer[i]).late() by {
                assert(fewer[i] == frames[i]);
            }
            assert(frames[frames.len() - 1].late());
        }
        if forall|i: int| 0 <= i < frames.len() ==> (#[trigger] frames[i]).depth >= 6 {
            assert forall|i: int| 0 <= i < fewer.len() implies (#[trigger] fewer[i]).depth >= 6 by {
                assert(fewer[i] == frames[i]);
            }
            assert(frames[frames.len() - 1].depth >= 6);
        }
    }
}

/// A stream that has fallen behind is found out: the thirtieth late frame in a
/// row, or the thirtieth in a row behind a deep queue, jumps, unless a jump
/// was less than the cooldown ago.
pub proof fn law_falling_behind_is_found_out(p: Pump, frames: Seq<Arrival>, last: Arrival)
    requires
        frames.len() == 29,
        p.stale_frames == 0,
        p.standing_frames == 0,
        p.clock_detector_armed,
        !last.filler && !last.probing,
        forall|i: int|
            0 <= i < frames.len() ==> !(#[trigger] frames[i]).filler && !frames[i].probing,
        p.last_flush matches Some(at) ==> last.now - at >= 2_000_000_000,
    ensures
        last.late() && (forall|i: int| 0 <= i < frames.len() ==> (#[trigger] frames[i]).late())
            ==> (pumped(p, frames).step(last) matches FrameStep::Jump { clock, queue } && clock),
        last.depth >= 6 && (forall|i: int| 0 <= i < frames.len() ==> (#[trigger] frames[i]).depth
            >= 6) ==> (pumped(p, frames).step(last) matches FrameStep::Jump { clock, queue }
            && queue),
{
    lemma_a_run_counts(p, frames);
}

/// A flush that found a backlog clears the count of those that did not; one
/// that only the clock asked for and that found none is counted, and no other
/// is.
pub proof fn law_a_backlog_clears_the_clock(p: Pump, clock: bool, queue: bool, flushed: u64, dropped: usize)
    requires
        p.noop_clock_flushes < u32::MAX,
    ensures
        queue || !clock || flushed >= 64 || dropped > 0 ==> {
            &&& p.flushed(clock, queue, flushed, dropped).noop_clock_flushes == 0
            &&& p.flushed(clock, queue, flushed, dropped).clock_detector_armed
                == p.clock_detector_armed
            &&& p.flushed(clock, queue, flushed, dropped).resync_wanted == p.resync_wanted
        },
        clock && !queue && flushed < 64 && dropped == 0 ==> p.flushed(
            clock,
            queue,
            flushed,
            dropped,
        ).noop_clock_flushes == p.noop_clock_flushes + 1,
{
}

/// The two detectors count on their own. A late frame lengthens the clock's
/// run while it is armed, and any other ends it; a queue of six lengthens the
/// queue's, one of two ends it, and one between leaves it.
pub proof fn law_each_detector_counts_its_own(p: Pump, a: Arrival)
    requires
        p.stale_frames < u32::MAX,
        p.standing_frames < u32::MAX,
    ensures
        ({
            let c = p.counting(a);
            let late = a.clock_offset_ns != 0 && a.wall_ns + a.clock_offset_ns - a.pts_ns
                > 400_000_000;
            &&& p.clock_detector_armed && late ==> c.stale_frames == p.stale_frames + 1
            &&& !p.clock_detector_armed || !late ==> c.stale_frames == 0
            &&& a.depth >= 6 ==> c.standing_frames == p.standing_frames + 1
            &&& a.depth <= 2 ==> c.standing_frames == 0
            &&& 2 < a.depth < 6 ==> c.standing_frames == p.standing_frames
            &&& c.last_flush == p.last_flush && c.owd_frames == p.owd_frames
        }),
        !a.filler && !a.probing && p.step(a) is Deliver ==> p.after(a).stale_frames == p.counting(
            a,
        ).stale_frames && p.after(a).standing_frames == p.counting(a).standing_frames,
{
}

/// A frame jumps where either run is thirty long and the last jump is two
/// seconds ago, outside a speed test; it says which of the two it was.
pub proof fn law_a_jump_needs_thirty_frames(p: Pump, a: Arrival)
    ensures
        ({
            let c = p.counting(a);
            let free = p.last_flush matches Some(at) ==> a.now >= at + 2_000_000_000;
            &&& p.step(a) is Jump <==> !a.filler && !a.probing && free && (c.stale_frames >= 30
                || c.standing_frames >= 30)
            &&& p.step(a) matches FrameStep::Jump { clock, queue } ==> (clock <==> c.stale_frames
                >= 30) && (queue <==> c.standing_frames >= 30)
        }),
{
}

/// A delay is believed of a picture outside a speed test, above nought and
/// under ten seconds.
pub proof fn law_a_delay_is_believed_within_reason(a: Arrival)
    ensures
        ({
            let ns = a.wall_ns + a.clock_offset_ns - a.pts_ns;
            let read = !a.filler && !a.probing && a.clock_offset_ns != 0 && 0 < ns < 10_000_000_000;
            &&& read ==> (a.believed() matches Some(d) && d == ns)
            &&& !read ==> a.believed() is None
        }),
{
}

/// A pump starts with nothing counted and its clock detector armed. A new
/// clock voids what the old one counted and no more; the same clock changes
/// nothing.
pub proof fn law_a_new_clock_voids_the_old(p: Pump, gen: u32, now: u64)
    ensures
        ({
            let n = Pump::new(now, gen);
            &&& n.stale_frames == 0 && n.standing_frames == 0 && n.last_flush is None
                && n.noop_clock_flushes == 0 && n.clock_detector_armed && !n.resync_wanted
            &&& n.seen_clock_gen == gen && n.last_report == now && n.owd_frames == 0
                && !n.flush_in_window
            &&& n.last_recovered == 0 && n.last_received == 0 && n.last_dropped == 0
        }),
        gen == p.seen_clock_gen ==> p.resynced(gen) == p,
        gen != p.seen_clock_gen ==> p.resynced(gen).seen_clock_gen == gen,
        p.resynced(gen).standing_frames == p.standing_frames && p.resynced(gen).last_flush
            == p.last_flush && p.resynced(gen).owd_sum_ns == p.owd_sum_ns && p.resynced(
            gen,
        ).owd_frames == p.owd_frames && p.resynced(gen).last_report == p.last_report && p.resynced(
            gen,
        ).resync_wanted == p.resync_wanted,
{
}

/// A window that is over is told whole, with its flush and its wish for a
/// re-sync; one that is not stands.
pub proof fn law_a_window_is_told_once_it_is_over(p: Pump, now: u64, s: Stats, probing: bool)
    ensures
        ({
            let (after, told) = p.reporting(now, s, probing);
            let over = !probing && now - p.last_report >= 750_000_000;
            &&& told is Some <==> over
            &&& !over ==> after == p
            &&& told matches Some(r) ==> r.resync == p.resync_wanted && r.flushed
                == p.flush_in_window
            &&& over ==> after.last_report == now && after.last_received == s.packets_received
                && after.last_recovered == s.fec_recovered_shards && after.last_dropped
                == s.frames_dropped && after.owd_frames == 0 && after.owd_sum_ns == 0
                && !after.flush_in_window && !after.resync_wanted
            &&& after.stale_frames == p.stale_frames && after.standing_frames == p.standing_frames
                && after.last_flush == p.last_flush && after.clock_detector_armed
                == p.clock_detector_armed
        }),
{
}

} // verus!
