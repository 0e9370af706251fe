//! Pre-decode hand-off from the data-plane pump to the embedder, with the
//! constants of the jump to the live edge and the standing-latency ladder.
//!
//! Video access units are reference-chained, so the queue never drops one
//! from the middle. A standing backlog is cleared whole and a keyframe asked
//! for. A stream of independent pictures is the exception: taking one drains
//! to the newest.

use crate::math::{counted, total};
use crate::session::Frame;
use std::collections::VecDeque;
use vstd::prelude::*;

verus! {

/// Queue depth that is not draining.
pub const QUEUE_HIGH: usize = 6;

/// Queue depth that ends a standing run.
pub const QUEUE_LOW: usize = 2;

/// How long the queue must stand before the jump, in nanoseconds.
pub const STANDING_TIME: u64 = 250_000_000;

/// Memory backstop.
pub const FRAME_QUEUE_HARD_CAP: usize = 90;

/// Access units held for a decoder that has not asked for one yet.
pub const PREROLL_AUS: usize = 48;

/// A frame this far behind the capture clock is late.
pub const FLUSH_LATENCY: u64 = 400_000_000;

/// How long frames must run late before the jump.
pub const FLUSH_AFTER: u64 = 250_000_000;

/// Least time between two jumps.
pub const FLUSH_COOLDOWN: u64 = 2_000_000_000;

/// Keyframe re-ask spacing while no video has arrived.
pub const NO_VIDEO_RETRY: u64 = 2_600_000_000;

/// One report window.
pub const ADAPT_REPORT_INTERVAL: u64 = 750_000_000;

/// A clock-triggered jump that discarded fewer datagrams than this found no
/// local backlog.
pub const NOOP_FLUSH_DATAGRAMS: u64 = 64;

/// Such jumps in a row before the clock-based detector stands down.
pub const NOOP_CLOCK_FLUSHES_TO_DISARM: u32 = 2;

/// Real backlogs shed under a pinned rate before the client says so.
pub const PIN_SHEDS_TO_WARN: u32 = 3;

/// Spacing of the mid-stream clock re-sync.
pub const CLOCK_RESYNC_INTERVAL: u64 = 60_000_000_000;

/// How far over its floor a window's least delay is standing.
pub const STANDING_LAT_THRESH_NS: i128 = 10_000_000;

/// Such windows in a row before the ladder escalates.
pub const STANDING_LAT_WINDOWS: u32 = 6;

/// Bleeds a session may spend.
pub const STANDING_LAT_MAX_BLEEDS: u32 = 3;

/// No frame's delay is believed past this.
pub const OWD_LIMIT_NS: i128 = 10_000_000_000;

/// What a closed window asks of the pump.
#[derive(Clone, Copy, Debug, PartialEq, Eq, Structural)]
pub enum StandingLatAction {
    /// Nothing to do.
    Nothing,
    /// Re-sync the clock first: a stale offset looks just like this.
    Resync { above_ms: i64 },
    /// The elevation survived a re-sync: flush and ask for a keyframe.
    Bleed { above_ms: i64 },
    /// The path itself changed: stop paying keyframes for it.
    Disarm { above_ms: i64 },
}

/// A small, constant, loss-free rise of the delay: the band the jump to the
/// live edge deliberately tolerates. Re-sync, then bounded bleeds, then off.
#[derive(Clone, Copy, Debug, PartialEq, Eq, Structural)]
pub struct StandingLatency {
    /// The least delay since the start or the last rebase.
    pub floor_ns: Option<i128>,
    pub window_min_ns: Option<i128>,
    /// Elevated windows in a row.
    pub run: u32,
    /// This elevation already had its re-sync.
    pub resync_tried: bool,
    pub bleeds: u32,
    pub disarmed: bool,
}

impl StandingLatency {
    /// Delays are ones a caller may report, and a run is shorter than the one
    /// that escalates.
    pub open spec fn wf(self) -> bool {
        &&& (self.floor_ns is Some ==> 0 < self.floor_ns->0 < OWD_LIMIT_NS)
        &&& (self.window_min_ns is Some ==> 0 < self.window_min_ns->0 < OWD_LIMIT_NS)
        &&& self.run < STANDING_LAT_WINDOWS
    }

    /// Nothing was measured, tried or spent.
    pub open spec fn fresh() -> StandingLatency {
        StandingLatency {
            floor_ns: None,
            window_min_ns: None,
            run: 0,
            resync_tried: false,
            bleeds: 0,
            disarmed: false,
        }
    }

    pub fn new() -> (d: Self)
        ensures
            d.wf(),
            d == StandingLatency::fresh(),
            d == (StandingLatency {
                floor_ns: None,
                window_min_ns: None,
                run: 0,
                resync_tried: false,
                bleeds: 0,
                disarmed: false,
            }),
    {
        StandingLatency {
            floor_ns: None,
            window_min_ns: None,
            run: 0,
            resync_tried: false,
            bleeds: 0,
            disarmed: false,
        }
    }

    /// The state after one frame's delay.
    pub open spec fn with_frame(self, owd_ns: i128) -> Self {
        StandingLatency {
            window_min_ns: match self.window_min_ns {
                Some(m) => if m <= owd_ns {
                    Some(m)
                } else {
                    Some(owd_ns)
                },
                None => Some(owd_ns),
            },
            ..self
        }
    }

    /// One frame's skew-corrected delay. The caller gates on a live clock
    /// offset and a delay worth believing.
    pub fn note_frame(&mut self, owd_ns: i128)
        requires
            old(self).wf(),
            0 < owd_ns < OWD_LIMIT_NS,
        ensures
            final(self).wf(),
            *final(self) == old(self).with_frame(owd_ns),
    {
        self.window_min_ns =
        match self.window_min_ns {
            Some(m) => if m <= owd_ns {
                Some(m)
            } else {
                Some(owd_ns)
            },
            None => Some(owd_ns),
        };
    }

    /// How far the window's least delay sits over the floor.
    pub open spec fn above(self) -> int {
        match (self.window_min_ns, self.floor_ns) {
            (Some(m), Some(f)) => m - f,
            _ => 0,
        }
    }

    /// The window is elevated: standing over the floor, and nothing was lost.
    pub open spec fn elevated(self, loss_free: bool) -> bool {
        loss_free && self.above() >= STANDING_LAT_THRESH_NS
    }

    /// The state once the window taught the floor and was taken.
    pub open spec fn floored(self) -> Self {
        StandingLatency {
            window_min_ns: None,
            floor_ns: match (self.window_min_ns, self.floor_ns) {
                (Some(m), Some(f)) => if f <= m {
                    Some(f)
                } else {
                    Some(m)
                },
                (Some(m), None) => Some(m),
                (None, f) => f,
            },
            ..self
        }
    }

    /// The state and the action after [`on_window`](Self::on_window).
    pub open spec fn windowed(self, loss_free: bool) -> (Self, StandingLatAction) {
        let d = self.floored();
        let above_ms = (self.above() / 1_000_000) as i64;
        if self.window_min_ns is None || self.disarmed {
            (d, StandingLatAction::Nothing)
        } else if !self.elevated(loss_free) {
            (
                StandingLatency {
                    run: 0,
                    resync_tried: self.resync_tried && self.above() >= STANDING_LAT_THRESH_NS,
                    ..d
                },
                StandingLatAction::Nothing,
            )
        } else if self.run + 1 < STANDING_LAT_WINDOWS {
            (StandingLatency { run: (self.run + 1) as u32, ..d }, StandingLatAction::Nothing)
        } else if !self.resync_tried {
            (
                StandingLatency { run: 0, resync_tried: true, ..d },
                StandingLatAction::Resync { above_ms },
            )
        } else if self.bleeds < STANDING_LAT_MAX_BLEEDS {
            (StandingLatency { run: 0, ..d }, StandingLatAction::Bleed { above_ms })
        } else {
            (StandingLatency { run: 0, disarmed: true, ..d }, StandingLatAction::Disarm { above_ms })
        }
    }

    /// Close a report window. A window without frames is no evidence; loss
    /// resets the run, because congestion has other answers.
    pub fn on_window(&mut self, loss_free: bool) -> (action: StandingLatAction)
        requires
            old(self).wf(),
        ensures
            final(self).wf(),
            (*final(self), action) == old(self).windowed(loss_free),
    {
        let wmin: i128 = match self.window_min_ns {
            Some(m) => m,
            None => {
                return StandingLatAction::Nothing;
            },
        };
        let floor: i128 = match self.floor_ns {
            Some(f) => f,
            None => wmin,
        };
        self.window_min_ns = None;
        self.floor_ns =
        if floor <= wmin {
            Some(floor)
        } else {
            Some(wmin)
        };
        let above_ns: i128 = wmin - floor;
        if self.disarmed {
            return StandingLatAction::Nothing;
        }
        if !loss_free || above_ns < STANDING_LAT_THRESH_NS {
            self.run = 0;
            if above_ns < STANDING_LAT_THRESH_NS {
                self.resync_tried = false;
            }
            return StandingLatAction::Nothing;
        }
        if self.run + 1 < STANDING_LAT_WINDOWS {
            self.run = self.run + 1;
            return StandingLatAction::Nothing;
        }
        self.run = 0;
        let above_ms: i64 = (above_ns / 1_000_000) as i64;
        if !self.resync_tried {
            self.resync_tried = true;
            StandingLatAction::Resync { above_ms }
        } else if self.bleeds < STANDING_LAT_MAX_BLEEDS {
            StandingLatAction::Bleed { above_ms }
        } else {
            self.disarmed = true;
            StandingLatAction::Disarm { above_ms }
        }
    }

    /// The state once a bleed was executed.
    pub open spec fn after_bleed(self) -> Self {
        StandingLatency { bleeds: counted(self.bleeds), window_min_ns: None, ..self }
    }

    /// The state once a re-sync was applied.
    pub open spec fn rebased(self) -> Self {
        StandingLatency {
            floor_ns: None,
            window_min_ns: None,
            run: 0,
            resync_tried: false,
            ..self
        }
    }

    /// The pump executed a bleed. The floor is kept: a bleed that worked
    /// brings the delay back to it.
    pub fn bled(&mut self)
        requires
            old(self).wf(),
        ensures
            final(self).wf(),
            *final(self) == old(self).after_bleed(),
            *final(self) == (StandingLatency {
                bleeds: counted(old(self).bleeds),
                window_min_ns: None,
                ..*old(self)
            }),
    {
        self.bleeds = counted(self.bleeds);
        self.window_min_ns = None;
    }

    /// A re-sync was applied: every delay shifted, so the floor and the
    /// elevation go. The bleeds spent stay spent.
    pub fn rebase(&mut self)
        requires
            old(self).wf(),
        ensures
            final(self).wf(),
            *final(self) == old(self).rebased(),
            *final(self) == (StandingLatency {
                floor_ns: None,
                window_min_ns: None,
                run: 0,
                resync_tried: false,
                ..*old(self)
            }),
    {
        *self =
        StandingLatency {
            floor_ns: None,
            window_min_ns: None,
            run: 0,
            resync_tried: false,
            ..*self
        };
    }
}

/// Latency samples of a window: their sum and their count.
#[derive(Clone, Copy, Debug, PartialEq, Eq, Structural)]
pub struct LatencyAcc {
    pub sum_us: u64,
    pub count: u32,
}

/// Client decode latency.
pub type DecodeLatAcc = LatencyAcc;

/// Host encode latency.
pub type EncodeLatAcc = LatencyAcc;

impl LatencyAcc {
    #[verifier::allow_in_spec]
    pub fn new() -> LatencyAcc
        returns
            (LatencyAcc { sum_us: 0, count: 0 }),
    {
        LatencyAcc { sum_us: 0, count: 0 }
    }

    /// The window that opens, and the one that is over.
    pub open spec fn taken(self) -> (LatencyAcc, LatencyAcc) {
        (LatencyAcc::new(), self)
    }

    /// The window with one more sample.
    pub open spec fn with(self, us: u32) -> LatencyAcc {
        LatencyAcc { sum_us: total(self.sum_us, us as u64), count: counted(self.count) }
    }

    /// One sample.
    pub fn note(&mut self, us: u32)
        ensures
            *final(self) == old(self).with(us),
            *final(self) == (LatencyAcc {
                sum_us: total(old(self).sum_us, us as u64),
                count: counted(old(self).count),
            }),
    {
        *self = LatencyAcc { sum_us: total(self.sum_us, us as u64), count: counted(self.count) };
    }

    /// The window's samples, taken: what is left is empty.
    pub fn take(&mut self) -> (window: LatencyAcc)
        ensures
            (*final(self), window) == old(self).taken(),
            window == *old(self),
            *final(self) == LatencyAcc::new(),
    {
        let window = *self;
        *self = LatencyAcc::new();
        window
    }
}

/// What taking a frame came to.
#[derive(Debug)]
pub enum FramePop {
    Frame(Frame),
    /// Nothing was queued when the wait ended.
    Timeout,
    /// Nothing is queued and the pump is gone.
    Closed,
}

/// The queue from the pump to the embedder.
pub struct FrameChannel {
    pub q: VecDeque<Frame>,
    /// The pump is gone.
    pub closed: bool,
    /// Every access unit decodes on its own.
    pub all_intra: bool,
    /// Access units the drain to the newest skipped since last read.
    pub skipped_total: u64,
    /// Something has asked for a frame.
    pub consumer_seen: bool,
}

/// The channel, with its queue as a sequence, oldest first.
#[verifier::ext_equal]
pub struct ChannelView {
    pub q: Seq<Frame>,
    pub closed: bool,
    pub all_intra: bool,
    pub skipped_total: u64,
    pub consumer_seen: bool,
}

impl View for FrameChannel {
    type V = ChannelView;

    open spec fn view(&self) -> ChannelView {
        ChannelView {
            q: self.q@,
            closed: self.closed,
            all_intra: self.all_intra,
            skipped_total: self.skipped_total,
            consumer_seen: self.consumer_seen,
        }
    }
}

/// How many entries end an access unit.
pub open spec fn completed(q: Seq<Frame>) -> nat
    decreases q.len(),
{
    if q.len() == 0 {
        0
    } else if q.last().complete {
        completed(q.drop_last()) + 1
    } else {
        completed(q.drop_last())
    }
}

/// The newest `n` entries.
pub open spec fn newest(q: Seq<Frame>, n: int) -> Seq<Frame> {
    if q.len() <= n {
        q
    } else {
        q.subrange(q.len() - n, q.len() as int)
    }
}

impl ChannelView {
    /// An empty channel nobody has read from.
    pub open spec fn empty() -> ChannelView {
        ChannelView {
            q: Seq::empty(),
            closed: false,
            all_intra: false,
            skipped_total: 0,
            consumer_seen: false,
        }
    }

    /// The channel after a frame was queued.
    pub open spec fn pushed(self, frame: Frame) -> ChannelView {
        ChannelView { q: newest(self.q.push(frame), FRAME_QUEUE_HARD_CAP as int), ..self }
    }

    /// The channel after a frame was held for a decoder to come, and how many
    /// access units that dropped.
    pub open spec fn prerolled(self, frame: Frame) -> (ChannelView, nat) {
        if completed(self.q) >= PREROLL_AUS {
            (
                ChannelView { q: Seq::empty(), ..self },
                if frame.complete && completed(self.q) < usize::MAX {
                    completed(self.q) + 1
                } else {
                    completed(self.q)
                },
            )
        } else {
            (ChannelView { q: self.q.push(frame), ..self }, 0)
        }
    }

    /// What a read says.
    pub open spec fn answers(self) -> FramePop {
        match self.popped().1 {
            Some(frame) => FramePop::Frame(frame),
            None => if self.closed {
                FramePop::Closed
            } else {
                FramePop::Timeout
            },
        }
    }

    /// The channel and what came out of it after a read.
    pub open spec fn popped(self) -> (ChannelView, Option<Frame>) {
        let seen = ChannelView { consumer_seen: true, ..self };
        if self.q.len() == 0 {
            (seen, None)
        } else if self.all_intra && self.q.len() > 1 {
            (
                ChannelView {
                    q: Seq::empty(),
                    skipped_total: total(self.skipped_total, (self.q.len() - 1) as u64),
                    ..seen
                },
                Some(self.q.last()),
            )
        } else {
            (ChannelView { q: self.q.drop_first(), ..seen }, Some(self.q.first()))
        }
    }
}

impl ChannelView {
    /// The channel of a stream whose pictures stand alone, or do not.
    pub open spec fn independent(self, all_intra: bool) -> ChannelView {
        ChannelView { all_intra, ..self }
    }

    /// The channel once its skips were told, and how many they were.
    pub open spec fn skips_told(self) -> (ChannelView, u64) {
        (ChannelView { skipped_total: 0, ..self }, self.skipped_total)
    }

    /// The channel whose pump is gone.
    pub open spec fn ended(self) -> ChannelView {
        ChannelView { closed: true, ..self }
    }

    /// The channel with nothing queued, and how many entries went.
    pub open spec fn emptied(self) -> (ChannelView, nat) {
        (ChannelView { q: Seq::empty(), ..self }, self.q.len())
    }

    /// Someone has asked for a frame.
    pub open spec fn was_asked(self) -> bool {
        self.consumer_seen
    }
}

impl FrameChannel {
    pub fn new() -> (ch: Self)
        ensures
            ch@ == ChannelView::empty(),
    {
        let ch = FrameChannel {
            q: VecDeque::new(),
            closed: false,
            all_intra: false,
            skipped_total: 0,
            consumer_seen: false,
        };
        assert(ch@ =~= ChannelView::empty());
        ch
    }

    /// Has anything ever asked for a frame? Until then there is no decoder,
    /// and the pump holds the opening frames instead of queueing.
    pub fn consumer_seen(&self) -> (r: bool)
        ensures
            r == self@.was_asked(),
            r == self@.consumer_seen,
    {
        self.consumer_seen
    }

    /// Queued depth in whole access units. Parts of an open one do not count.
    pub fn depth(&self) -> (n: usize)
        ensures
            n == completed(self@.q),
    {
        let mut n: usize = 0;
        let mut i: usize = 0;
        while i < self.q.len()
            invariant
                i <= self.q@.len(),
                n == completed(self.q@.take(i as int)),
                n <= i,
            decreases self.q@.len() - i,
        {
            assert(self.q@.take(i + 1).drop_last() =~= self.q@.take(i as int));
            if self.q[i].complete {
                n = n + 1;
            }
            i = i + 1;
        }
        assert(self.q@.take(self.q@.len() as int) =~= self.q@);
        n
    }

    /// Hold `frame` for a decoder that has not asked yet. At the bound the
    /// held frames go whole: nothing after the opening keyframe is of use
    /// without it. Returns the access units dropped, `frame` included.
    pub fn preroll(&mut self, frame: Frame) -> (dropped: usize)
        ensures
            (final(self)@, dropped as nat) == old(self)@.prerolled(frame),
            completed(old(self)@.q) >= PREROLL_AUS ==> {
                &&& dropped == if frame.complete && completed(old(self)@.q) < usize::MAX {
                    completed(old(self)@.q) + 1
                } else {
                    completed(old(self)@.q)
                }
                &&& final(self)@ == (ChannelView { q: Seq::empty(), ..old(self)@ })
            },
            completed(old(self)@.q) < PREROLL_AUS ==> {
                &&& dropped == 0
                &&& final(self)@ == (ChannelView { q: old(self)@.q.push(frame), ..old(self)@ })
            },
    {
        let held: usize = self.depth();
        if held >= PREROLL_AUS {
            self.q.clear();
            if frame.complete && held < usize::MAX {
                return held + 1;
            }
            return held;
        }
        self.q.push_back(frame);
        0
    }

    pub fn set_all_intra(&mut self, all_intra: bool)
        ensures
            final(self)@ == old(self)@.independent(all_intra),
            final(self)@ == (ChannelView { all_intra, ..old(self)@ }),
    {
        self.all_intra = all_intra;
    }

    /// Access units skipped since last asked.
    pub fn take_skipped(&mut self) -> (n: u64)
        ensures
            (final(self)@, n) == old(self)@.skips_told(),
            n == old(self)@.skipped_total,
            final(self)@ == (ChannelView { skipped_total: 0, ..old(self)@ }),
    {
        let n: u64 = self.skipped_total;
        self.skipped_total = 0;
        n
    }

    /// Queue a frame. Past the memory backstop the oldest go.
    pub fn push(&mut self, frame: Frame)
        ensures
            final(self)@ == old(self)@.pushed(frame),
            final(self)@ == (ChannelView {
                q: newest(old(self)@.q.push(frame), FRAME_QUEUE_HARD_CAP as int),
                ..old(self)@
            }),
    {
        self.q.push_back(frame);
        let ghost all = self.q@;
        while self.q.len() > FRAME_QUEUE_HARD_CAP
            invariant
                self.q@.len() <= all.len(),
                self.q@ == all.subrange(all.len() - self.q@.len(), all.len() as int),
                self.q@.len() >= FRAME_QUEUE_HARD_CAP || self.q@ == all,
                self.closed == old(self).closed,
                self.all_intra == old(self).all_intra,
                self.skipped_total == old(self).skipped_total,
                self.consumer_seen == old(self).consumer_seen,
            decreases self.q@.len(),
        {
            let ghost before = self.q@;
            let _ = self.q.pop_front();
            assert(self.q@ =~= before.subrange(1, before.len() as int));
            assert(self.q@ =~= all.subrange(all.len() - self.q@.len(), all.len() as int));
        }
        assert(self.q@ =~= newest(all, FRAME_QUEUE_HARD_CAP as int));
    }

    /// Drop the backlog. Returns how many entries went.
    pub fn clear(&mut self) -> (n: usize)
        ensures
            (final(self)@, n as nat) == old(self)@.emptied(),
            n == old(self)@.q.len(),
            final(self)@ == (ChannelView { q: Seq::empty(), ..old(self)@ }),
    {
        let n: usize = self.q.len();
        self.q.clear();
        n
    }

    /// The pump is gone.
    pub fn close(&mut self)
        ensures
            final(self)@ == old(self)@.ended(),
            final(self)@ == (ChannelView { closed: true, ..old(self)@ }),
    {
        self.closed = true;
    }

    /// The oldest access unit, as the queue stands once any wait is over. A
    /// stream of independent pictures drains to the newest instead.
    pub fn pop(&mut self) -> (r: FramePop)
        ensures
            final(self)@ == old(self)@.popped().0,
            r == old(self)@.answers(),
            match old(self)@.popped().1 {
                Some(frame) => r == FramePop::Frame(frame),
                None => r == if old(self)@.closed {
                    FramePop::Closed
                } else {
                    FramePop::Timeout
                },
            },
    {
        self.consumer_seen = true;
        let n: usize = self.q.len();
        if self.all_intra && n > 1 {
            self.skipped_total = total(self.skipped_total, (n - 1) as u64);
            if let Some(frame) = self.q.pop_back() {
                self.q.clear();
                assert(self@ =~= old(self)@.popped().0);
                return FramePop::Frame(frame);
            }
        }
        let ghost before = self.q@;
        match self.q.pop_front() {
            Some(frame) => {
                assert(self.q@ =~= before.drop_first());
                FramePop::Frame(frame)
            },
            None => {
                assert(self.q@ =~= before);
                if self.closed {
                    FramePop::Closed
                } else {
                    FramePop::Timeout
                }
            },
        }
    }
}

/// The queue is a queue: what a push leaves is a run of the newest entries in
/// order, ending with the new one, and nothing is dropped from the middle.
pub proof fn law_a_push_never_drops_the_middle(q: Seq<Frame>, frame: Frame)
    ensures
        newest(q.push(frame), FRAME_QUEUE_HARD_CAP as int).len() <= FRAME_QUEUE_HARD_CAP,
        newest(q.push(frame), FRAME_QUEUE_HARD_CAP as int).last() == frame,
        q.len() < FRAME_QUEUE_HARD_CAP ==> newest(q.push(frame), FRAME_QUEUE_HARD_CAP as int)
            == q.push(frame),
        forall|i: int|
            0 <= i < newest(q.push(frame), FRAME_QUEUE_HARD_CAP as int).len()
                ==> #[trigger] newest(q.push(frame), FRAME_QUEUE_HARD_CAP as int)[i] == q.push(
                frame,
            )[q.len() + 1 - newest(q.push(frame), FRAME_QUEUE_HARD_CAP as int).len() + i],
{
}

/// First in, first out: pushing onto an empty queue and reading twice gives
/// the two frames in the order they came.
pub proof fn law_first_in_first_out(ch: ChannelView, a: Frame, b: Frame)
    requires
        ch.q.len() == 0,
        !ch.all_intra,
    ensures
        ({
            let two = ChannelView { q: ch.q.push(a).push(b), ..ch };
            &&& two.popped().1 == Some(a)
            &&& two.popped().0.popped().1 == Some(b)
            &&& two.popped().0.popped().0.q.len() == 0
        }),
{
    let two = ChannelView { q: ch.q.push(a).push(b), ..ch };
    assert(two.q.drop_first().first() == b);
}

/// A read of independent pictures takes the newest, leaves nothing, and
/// accounts for every entry it skipped.
pub proof fn law_the_drain_accounts_for_what_it_skips(ch: ChannelView)
    requires
        ch.all_intra,
        ch.q.len() > 0,
        ch.skipped_total + ch.q.len() <= u64::MAX,
    ensures
        ch.popped().1 == Some(ch.q.last()),
        ch.popped().0.q.len() == 0,
        ch.popped().0.skipped_total == ch.skipped_total + ch.q.len() - 1,
{
}

/// The ladder only climbs in order: a bleed needs a re-sync behind it and a
/// budget ahead of it, and once off it asks for nothing.
pub proof fn law_the_ladder_climbs_in_order(d: StandingLatency, loss_free: bool)
    requires
        d.wf(),
    ensures
        d.disarmed ==> d.windowed(loss_free).1 is Nothing && d.windowed(loss_free).0.disarmed,
        d.windowed(loss_free).1 is Bleed ==> d.resync_tried && d.bleeds < STANDING_LAT_MAX_BLEEDS,
        d.windowed(loss_free).1 is Disarm ==> d.resync_tried && d.bleeds
            >= STANDING_LAT_MAX_BLEEDS,
        d.windowed(loss_free).1 is Resync ==> !d.resync_tried,
        !loss_free ==> d.windowed(loss_free).1 is Nothing,
        d.windowed(loss_free).1 !is Nothing ==> d.run + 1 == STANDING_LAT_WINDOWS && d.above()
            >= STANDING_LAT_THRESH_NS,
{
}

/// A read takes the oldest frame and leaves the others in their order; a queue
/// without one says whether more may come. Either way someone has asked.
pub proof fn law_a_read_takes_the_oldest(ch: ChannelView)
    ensures
        ch.q.len() == 0 && ch.closed ==> ch.answers() is Closed,
        ch.q.len() == 0 && !ch.closed ==> ch.answers() is Timeout,
        ch.q.len() > 0 && !ch.all_intra ==> {
            &&& ch.answers() == FramePop::Frame(ch.q[0])
            &&& ch.popped().0.q.len() == ch.q.len() - 1
            &&& forall|i: int|
                0 <= i < ch.q.len() - 1 ==> #[trigger] ch.popped().0.q[i] == ch.q[i + 1]
            &&& ch.popped().0.skipped_total == ch.skipped_total
        },
        ch.q.len() > 0 && ch.all_intra ==> {
            &&& ch.answers() == FramePop::Frame(ch.q[ch.q.len() - 1])
            &&& ch.popped().0.q.len() == 0
        },
        ch.popped().0.consumer_seen,
        ch.popped().0.closed == ch.closed,
        ch.popped().0.all_intra == ch.all_intra,
{
}

/// A queued frame is the last to come out, and changes nothing but the queue:
/// what was there before keeps its order, and only past the backstop does the
/// oldest go.
pub proof fn law_a_queued_frame_comes_out_last(ch: ChannelView, frame: Frame)
    requires
        ch.q.len() <= 90,
    ensures
        ch.pushed(frame).q.last() == frame,
        ch.q.len() < 90 ==> ch.pushed(frame).q.drop_last() == ch.q,
        ch.q.len() == 90 ==> ch.pushed(frame).q.len() == 90 && ch.pushed(frame).q.drop_last()
            == ch.q.drop_first(),
        ch.pushed(frame).closed == ch.closed,
        ch.pushed(frame).all_intra == ch.all_intra,
        ch.pushed(frame).consumer_seen == ch.consumer_seen,
        ch.pushed(frame).skipped_total == ch.skipped_total,
{
    assert(ch.q.push(frame).drop_last() =~= ch.q);
    assert(ch.q.len() == 90 ==> ch.pushed(frame).q.drop_last() =~= ch.q.drop_first());
}

/// Depth counts the access units that are whole: one more for each frame that
/// completes one, none for a part.
pub proof fn law_depth_counts_whole_units(q: Seq<Frame>, frame: Frame)
    ensures
        completed(Seq::<Frame>::empty()) == 0,
        frame.complete ==> completed(q.push(frame)) == completed(q) + 1,
        !frame.complete ==> completed(q.push(frame)) == completed(q),
{
    assert(q.push(frame).drop_last() =~= q);
}

/// The opening frames are held while there is room for them; past that they
/// go whole, the new one too, and every access unit that goes is reported.
pub proof fn law_an_opening_is_held_or_dropped_whole(ch: ChannelView, frame: Frame)
    requires
        completed(ch.q) < usize::MAX,
    ensures
        completed(ch.q) < 48 ==> ch.prerolled(frame).0.q == ch.q.push(frame) && ch.prerolled(
            frame,
        ).1 == 0,
        completed(ch.q) >= 48 ==> ch.prerolled(frame).0.q.len() == 0 && ch.prerolled(frame).1
            == completed(ch.q.push(frame)),
        ch.prerolled(frame).0.consumer_seen == ch.consumer_seen,
{
    assert(ch.q.push(frame).drop_last() =~= ch.q);
}

/// A window keeps the least of its delays.
pub proof fn law_a_window_keeps_its_least_delay(d: StandingLatency, owd_ns: i128)
    ensures
        d.with_frame(owd_ns).window_min_ns matches Some(m) && m <= owd_ns && (m == owd_ns
            || d.window_min_ns == Some(m)),
        d.window_min_ns matches Some(old) ==> d.with_frame(owd_ns).window_min_ns->0 <= old,
        d.with_frame(owd_ns).floor_ns == d.floor_ns,
        d.with_frame(owd_ns).run == d.run,
{
}

/// The floor is the least delay of any window since it was set, and a window
/// is judged against the floor before it.
pub proof fn law_the_floor_only_sinks(d: StandingLatency, loss_free: bool)
    ensures
        d.window_min_ns is None ==> d.windowed(loss_free).0 == d,
        d.window_min_ns matches Some(m) ==> {
            &&& d.windowed(loss_free).0.window_min_ns is None
            &&& d.windowed(loss_free).0.floor_ns matches Some(f) && f <= m && (f == m || d.floor_ns
                == Some(f))
            &&& d.floor_ns matches Some(old) ==> d.windowed(loss_free).0.floor_ns->0 <= old
        },
        d.windowed(loss_free).0.bleeds == d.bleeds,
{
}

/// A delay that stands at least ten milliseconds over the floor for six
/// windows without loss is acted on: with a re-sync first, then with a bleed
/// while there are some left, then never again. Each says how far over the
/// floor it is. A window that does not stand ends the run.
pub proof fn law_a_standing_delay_is_acted_on(d: StandingLatency, m: i128, f: i128, loss_free: bool)
    requires
        d.wf(),
        d.window_min_ns == Some(m),
        d.floor_ns == Some(f),
        !d.disarmed,
    ensures
        ({
            let (after, action) = d.windowed(loss_free);
            let stands = loss_free && m - f >= 10_000_000;
            &&& !stands ==> action is Nothing && after.run == 0
            &&& stands && d.run < 5 ==> action is Nothing && after.run == d.run + 1
                && after.resync_tried == d.resync_tried
            &&& stands && d.run == 5 ==> after.run == 0
            &&& stands && d.run == 5 && !d.resync_tried ==> (action matches StandingLatAction::Resync {
                above_ms,
            } && above_ms * 1_000_000 <= m - f < (above_ms + 1) * 1_000_000) && after.resync_tried
            &&& stands && d.run == 5 && d.resync_tried && d.bleeds < 3 ==> (
            action matches StandingLatAction::Bleed { above_ms } && above_ms * 1_000_000 <= m - f < (
            above_ms + 1) * 1_000_000) && !after.disarmed
            &&& stands && d.run == 5 && d.resync_tried && d.bleeds >= 3 ==> (
            action matches StandingLatAction::Disarm { above_ms } && above_ms * 1_000_000 <= m - f
                < (above_ms + 1) * 1_000_000) && after.disarmed
            &&& m - f < 10_000_000 ==> !after.resync_tried
            &&& !loss_free && m - f >= 10_000_000 ==> after.resync_tried == d.resync_tried
        }),
{
}

/// A bleed is spent for good: neither a window nor a re-sync gives it back.
/// A re-sync forgets the floor and what was tried against it.
pub proof fn law_a_bleed_is_spent_for_good(d: StandingLatency)
    requires
        d.bleeds < u32::MAX,
    ensures
        d.after_bleed().bleeds == d.bleeds + 1,
        d.after_bleed().floor_ns == d.floor_ns,
        d.after_bleed().resync_tried == d.resync_tried,
        d.after_bleed().window_min_ns is None,
        d.rebased().bleeds == d.bleeds,
        d.rebased().disarmed == d.disarmed,
        d.rebased().floor_ns is None && d.rebased().window_min_ns is None,
        d.rebased().run == 0 && !d.rebased().resync_tried,
{
}

/// A sample adds its time and one to its window.
pub proof fn law_a_sample_counts_once(acc: LatencyAcc, us: u32)
    requires
        acc.count < u32::MAX,
        acc.sum_us <= u64::MAX - u32::MAX,
    ensures
        acc.with(us).sum_us == acc.sum_us + us,
        acc.with(us).count == acc.count + 1,
{
}

/// A channel starts open, empty and unasked. A read asks; skips are told once;
/// an end keeps what is queued, and answers for good once that is gone.
pub proof fn law_a_channel_keeps_what_is_queued(ch: ChannelView, all_intra: bool)
    ensures
        ({
            let e = ChannelView::empty();
            &&& e.q.len() == 0 && !e.closed && !e.all_intra && e.skipped_total == 0
                && !e.was_asked()
        }),
        ch.popped().0.was_asked(),
        ch.skips_told().1 == ch.skipped_total && ch.skips_told().0.skips_told().1 == 0
            && ch.skips_told().0.q == ch.q,
        ch.ended().q == ch.q && (ch.q.len() == 0 ==> ch.ended().answers() is Closed),
        ch.ended().was_asked() == ch.was_asked() && ch.ended().skipped_total == ch.skipped_total,
        ch.independent(all_intra).all_intra == all_intra && ch.independent(all_intra).q == ch.q
            && ch.independent(all_intra).skipped_total == ch.skipped_total,
{
}

/// A detector starts with no floor, nothing tried and nothing spent; a
/// window's samples start at nought.
pub proof fn law_a_detector_starts_untried()
    ensures
        ({
            let d = StandingLatency::fresh();
            &&& d.floor_ns is None && d.window_min_ns is None && d.run == 0
            &&& !d.resync_tried && d.bleeds == 0 && !d.disarmed
        }),
        LatencyAcc::new().sum_us == 0 && LatencyAcc::new().count == 0,
{
}

/// A channel that is emptied says how many entries went, and stays as it was
/// otherwise; a window that is taken is handed over whole, and the next starts
/// at nought.
pub proof fn law_what_is_taken_is_handed_over(ch: ChannelView, acc: LatencyAcc)
    ensures
        ch.emptied().0.q.len() == 0 && ch.emptied().1 == ch.q.len(),
        ch.emptied().0.closed == ch.closed && ch.emptied().0.was_asked() == ch.was_asked()
            && ch.emptied().0.skipped_total == ch.skipped_total && ch.emptied().0.all_intra
            == ch.all_intra,
        acc.taken().1 == acc && acc.taken().0.sum_us == 0 && acc.taken().0.count == 0,
{
}

} // verus!
