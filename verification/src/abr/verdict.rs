//! Scoring a window: what damaged it, and how badly.

use super::sample::WindowSample;
use vstd::prelude::*;

verus! {

/// Loss share that is congestion: 2 %.
pub const HEAVY_LOSS_PPM: u32 = 20_000;

/// Loss share that cannot wait for a second window: 6 %.
pub const SEVERE_LOSS_PPM: u32 = 60_000;

/// Keyframe asks in one window that make it a bad one.
pub const RECOVERY_KF_BAD: u32 = 2;

/// Keyframe asks in one window that are a storm.
pub const RECOVERY_KF_SEVERE: u32 = 6;

/// Clean windows that vouch for one lost frame: 6 s.
pub const BLIP_CLEAN_WINDOWS: u32 = 8;

/// Windows a floor needs before anything is judged against it.
pub const BASELINE_MIN_WINDOWS: usize = 4;

/// Windows in one bucket of a rolling floor: 30 s.
pub const BASELINE_BUCKET_WINDOWS: u32 = 40;

/// Delay over its floor that is a queue.
pub const OWD_RISE_US: i64 = 25_000;

/// Decode time over its floor: bad, and deep.
pub const DECODE_RISE_US: i64 = 10_000;

pub const DECODE_SEVERE_US: i64 = 30_000;

/// Encode time over its floor, for a 120 Hz session: half a frame budget, and
/// two whole ones.
pub const ENCODE_RISE_US: i64 = 4_166;

pub const ENCODE_SEVERE_US: i64 = 16_664;

/// A window that delivered under this fraction of its target starved.
pub const STARVED_DIV: u32 = 4;

/// What named a window.
#[derive(Clone, Copy, Debug, PartialEq, Eq, Structural)]
pub enum Reason {
    /// Nothing was wrong with it.
    Clean,
    /// Nothing moved in it.
    Quiet,
    /// One lost frame with a link behind it that vouches for itself.
    Blip,
    /// Frames lost beyond repair.
    Drop,
    /// The client jumped to the live edge.
    Flush,
    /// A loss share.
    Loss,
    /// A standing delay.
    Owd,
    /// The client's decoder.
    Decode,
    /// The host's encoder.
    Encode,
    /// Keyframe asks.
    Keyframe,
}

/// A scored window.
#[derive(Clone, Copy, Debug, PartialEq, Eq, Structural)]
pub struct Verdict {
    pub bad: bool,
    /// Bad enough to act on at once.
    pub severe: bool,
    /// Nothing moved: neither credit nor blame.
    pub quiet: bool,
    /// Delivery was a fraction of the target.
    pub starved: bool,
    pub owd_bad: bool,
    pub decode_bad: bool,
    pub decode_severe: bool,
    /// The decode signal, when the window carried one worth reading.
    pub decode_mean_us: Option<i64>,
    pub reason: Reason,
}

/// The encode rises that are bad and severe, sized in the session's frame
/// budget: half of one, and two.
#[verifier::allow_in_spec]
pub fn encode_thresholds(frame_budget_us: Option<i64>) -> (i64, i64)
    requires
        frame_budget_us is Some ==> 0 <= frame_budget_us->0 <= 1_000_000,
    returns
        (match frame_budget_us {
            Some(budget) => ((budget as int / 2) as i64, (2 * budget) as i64),
            None => (ENCODE_RISE_US, ENCODE_SEVERE_US),
        }),
{
    match frame_budget_us {
        Some(budget) => (budget / 2, 2 * budget),
        None => (ENCODE_RISE_US, ENCODE_SEVERE_US),
    }
}

/// The lowest value of the last two buckets of windows.
#[derive(Clone, Copy, Debug, PartialEq, Eq, Structural)]
pub struct RollingMin {
    /// Windows seen, counted only as far as anything depends on it.
    pub seen: u32,
    pub this_us: Option<i64>,
    pub last_us: Option<i64>,
    /// Windows in this bucket.
    pub ticks: u32,
}

/// The lower of two readings, either of which may be missing.
#[verifier::allow_in_spec]
pub fn lower_reading(a: Option<i64>, b: Option<i64>) -> Option<i64>
    returns
        (match (a, b) {
            (Some(x), Some(y)) => if x <= y {
                Some(x)
            } else {
                Some(y)
            },
            (Some(x), None) => Some(x),
            (None, _) => b,
        }),
{
    match (a, b) {
        (Some(x), Some(y)) => if x <= y {
            Some(x)
        } else {
            Some(y)
        },
        (Some(x), None) => Some(x),
        (None, _) => b,
    }
}

impl RollingMin {
    pub open spec fn wf(self) -> bool {
        &&& self.seen <= BASELINE_MIN_WINDOWS
        &&& self.ticks < BASELINE_BUCKET_WINDOWS
    }

    #[verifier::allow_in_spec]
    pub fn new() -> RollingMin
        returns
            (RollingMin { seen: 0, this_us: None, last_us: None, ticks: 0 }),
    {
        RollingMin { seen: 0, this_us: None, last_us: None, ticks: 0 }
    }

    /// The floor, once enough windows have taught it.
    #[verifier::allow_in_spec]
    pub fn floor(&self) -> Option<i64>
        returns
            (if (self.seen as int) < BASELINE_MIN_WINDOWS {
                None
            } else {
                lower_reading(self.this_us, self.last_us)
            }),
    {
        if (self.seen as usize) < BASELINE_MIN_WINDOWS {
            None
        } else {
            lower_reading(self.this_us, self.last_us)
        }
    }

    /// The state after [`note`](Self::note).
    pub open spec fn noted(self, us: i64) -> RollingMin {
        let seen = if self.seen < BASELINE_MIN_WINDOWS {
            (self.seen + 1) as u32
        } else {
            self.seen
        };
        let this_us = lower_reading(self.this_us, Some(us));
        if self.ticks + 1 >= BASELINE_BUCKET_WINDOWS {
            RollingMin { seen, this_us: None, last_us: this_us, ticks: 0 }
        } else {
            RollingMin { seen, this_us, last_us: self.last_us, ticks: (self.ticks + 1) as u32 }
        }
    }

    pub fn note(&mut self, us: i64)
        requires
            old(self).wf(),
        ensures
            final(self).wf(),
            *final(self) == old(self).noted(us),
    {
        if (self.seen as usize) < BASELINE_MIN_WINDOWS {
            self.seen = self.seen + 1;
        }
        self.this_us = lower_reading(self.this_us, Some(us));
        if self.ticks + 1 >= BASELINE_BUCKET_WINDOWS {
            self.last_us = self.this_us;
            self.this_us = None;
            self.ticks = 0;
        } else {
            self.ticks = self.ticks + 1;
        }
    }

    /// The state after a window that may have carried no reading, or one that
    /// must not teach.
    pub open spec fn taught(self, us: Option<i64>, learns: bool) -> RollingMin {
        if us is Some && learns {
            self.noted(us->0)
        } else {
            self
        }
    }

    fn teach(&mut self, us: Option<i64>, learns: bool)
        requires
            old(self).wf(),
        ensures
            final(self).wf(),
            *final(self) == old(self).taught(us, learns),
    {
        if let Some(us) = us {
            if learns {
                self.note(us);
            }
        }
    }

    /// Is this reading at least `rise_us` over a floor that is known?
    pub open spec fn risen(self, us: Option<i64>, rise_us: i64) -> bool {
        us is Some && self.floor() is Some && us->0 - self.floor()->0 >= rise_us
    }

    fn over(&self, us: Option<i64>, rise_us: i64) -> (r: bool)
        ensures
            r == self.risen(us, rise_us),
    {
        match (us, self.floor()) {
            (Some(us), Some(floor)) => us as i128 - floor as i128 >= rise_us as i128,
            _ => false,
        }
    }
}

/// What a window is scored against besides itself.
#[derive(Clone, Copy, Debug, PartialEq, Eq, Structural)]
pub struct Standing {
    pub current_kbps: u32,
    pub frame_budget_us: Option<i64>,
    /// Encode rises are not answering the rate.
    pub encode_disarmed: bool,
    /// Clean windows behind this one.
    pub clean_windows: u32,
    /// The last cut's queue is still emptying.
    pub draining: bool,
    /// The link vouches for a lone lost frame.
    pub link_vouches: bool,
    /// A lift is being judged, and the delay floor held still for it.
    pub lift_probing: bool,
    /// The source stopped drawing.
    pub source_still: bool,
}

impl Standing {
    pub open spec fn wf(self) -> bool {
        self.frame_budget_us is Some ==> 0 <= self.frame_budget_us->0 <= 1_000_000
    }
}

/// The floors the relative signals are scored against.
#[derive(Clone, Copy, Debug, PartialEq, Eq, Structural)]
pub struct Baselines {
    pub owd: RollingMin,
    pub decode: RollingMin,
    pub encode: RollingMin,
}

impl Baselines {
    pub open spec fn wf(self) -> bool {
        self.owd.wf() && self.decode.wf() && self.encode.wf()
    }

    #[verifier::allow_in_spec]
    pub fn new() -> Baselines
        returns
            (Baselines {
                owd: RollingMin::new(),
                decode: RollingMin::new(),
                encode: RollingMin::new(),
            }),
    {
        Baselines { owd: RollingMin::new(), decode: RollingMin::new(), encode: RollingMin::new() }
    }

    pub fn clear(&mut self)
        ensures
            final(self).wf(),
            *final(self) == Baselines::new(),
    {
        *self = Baselines::new();
    }

    pub fn clear_encode(&mut self)
        requires
            old(self).wf(),
        ensures
            final(self).wf(),
            *final(self) == (Baselines { encode: RollingMin::new(), ..*old(self) }),
    {
        self.encode = RollingMin::new();
    }

    /// A standing delay, which the guard over an emptying queue explains away.
    pub open spec fn delayed(self, w: WindowSample, s: Standing) -> bool {
        !w.activity.quiet() && !s.draining && self.owd.risen(w.owd_mean_us, OWD_RISE_US)
    }

    /// Decode time over its floor by at least `rise_us`.
    pub open spec fn decode_risen(self, w: WindowSample, rise_us: i64) -> bool {
        !w.activity.quiet() && self.decode.risen(w.decode_mean_us, rise_us)
    }

    /// Encode time over its floor by at least `rise_us`, while that driver is
    /// armed.
    pub open spec fn encode_risen(self, w: WindowSample, s: Standing, rise_us: i64) -> bool {
        !w.activity.quiet() && !s.encode_disarmed && self.encode.risen(w.encode_mean_us, rise_us)
    }

    /// Damage other than frames lost beyond repair.
    pub open spec fn other_damage(self, w: WindowSample, s: Standing) -> bool {
        ||| w.flushed
        ||| w.loss_ppm >= HEAVY_LOSS_PPM
        ||| self.delayed(w, s)
        ||| self.decode_risen(w, DECODE_RISE_US)
        ||| self.encode_risen(w, s, encode_thresholds(s.frame_budget_us).0)
        ||| w.recovery_kf >= RECOVERY_KF_BAD
    }

    /// One lost frame, nothing else wrong, and something to vouch for it.
    pub open spec fn blip(self, w: WindowSample, s: Standing) -> bool {
        &&& w.dropped == 1
        &&& !self.other_damage(w, s)
        &&& (s.clean_windows >= BLIP_CLEAN_WINDOWS || s.link_vouches)
    }

    /// Damage that does not wait for a second window.
    pub open spec fn deep_damage(self, w: WindowSample, s: Standing) -> bool {
        ||| w.dropped > 0
        ||| w.flushed
        ||| w.loss_ppm >= SEVERE_LOSS_PPM
        ||| self.decode_risen(w, DECODE_SEVERE_US)
        ||| self.encode_risen(w, s, encode_thresholds(s.frame_budget_us).1)
        ||| w.recovery_kf >= RECOVERY_KF_SEVERE
    }

    /// The signal that names the window: what the link lost first, then the
    /// clocks, then the asks.
    pub open spec fn named(self, w: WindowSample, s: Standing) -> Reason {
        if self.blip(w, s) {
            Reason::Blip
        } else if w.dropped > 0 {
            Reason::Drop
        } else if w.flushed {
            Reason::Flush
        } else if w.loss_ppm >= HEAVY_LOSS_PPM {
            Reason::Loss
        } else if self.delayed(w, s) {
            Reason::Owd
        } else if self.decode_risen(w, DECODE_RISE_US) {
            Reason::Decode
        } else if self.encode_risen(w, s, encode_thresholds(s.frame_budget_us).0) {
            Reason::Encode
        } else if w.recovery_kf >= RECOVERY_KF_BAD {
            Reason::Keyframe
        } else if w.activity.quiet() {
            Reason::Quiet
        } else {
            Reason::Clean
        }
    }

    /// The window's verdict.
    pub open spec fn verdict(self, w: WindowSample, s: Standing) -> Verdict {
        let bad = (w.dropped > 0 || self.other_damage(w, s)) && !self.blip(w, s);
        Verdict {
            bad,
            severe: bad && self.deep_damage(w, s),
            quiet: w.activity.quiet(),
            starved: !s.source_still && w.actual_kbps < s.current_kbps / STARVED_DIV,
            owd_bad: self.delayed(w, s),
            decode_bad: self.decode_risen(w, DECODE_RISE_US),
            decode_severe: self.decode_risen(w, DECODE_SEVERE_US),
            decode_mean_us: if w.activity.quiet() {
                None
            } else {
                w.decode_mean_us
            },
            reason: self.named(w, s),
        }
    }

    /// The floors after the window has taught them. Stillness teaches
    /// nothing, and a lift under judgement holds the delay floor.
    pub open spec fn learned(self, w: WindowSample, s: Standing) -> Baselines {
        let moves = !w.activity.quiet();
        Baselines {
            owd: self.owd.taught(w.owd_mean_us, moves && !s.lift_probing),
            decode: self.decode.taught(w.decode_mean_us, moves),
            encode: self.encode.taught(w.encode_mean_us, moves),
        }
    }

    /// Score the window against the floors, then let it teach them.
    pub fn score(&mut self, w: &WindowSample, s: Standing) -> (v: Verdict)
        requires
            old(self).wf(),
            s.wf(),
        ensures
            final(self).wf(),
            *final(self) == old(self).learned(*w, s),
            v == old(self).verdict(*w, s),
    {
        let quiet = w.activity.quiet();
        let (encode_rise, encode_deep): (i64, i64) = encode_thresholds(s.frame_budget_us);
        let owd_bad = !quiet && !s.draining && self.owd.over(w.owd_mean_us, OWD_RISE_US);
        let decode_bad = !quiet && self.decode.over(w.decode_mean_us, DECODE_RISE_US);
        let decode_severe = !quiet && self.decode.over(w.decode_mean_us, DECODE_SEVERE_US);
        let encode_armed = !quiet && !s.encode_disarmed;
        let encode_bad = encode_armed && self.encode.over(w.encode_mean_us, encode_rise);
        let encode_severe = encode_armed && self.encode.over(w.encode_mean_us, encode_deep);
        let lossy = w.loss_ppm >= HEAVY_LOSS_PPM;
        let asks = w.recovery_kf >= RECOVERY_KF_BAD;
        let other = w.flushed || lossy || owd_bad || decode_bad || encode_bad || asks;
        let blip = w.dropped == 1 && !other && (s.clean_windows >= BLIP_CLEAN_WINDOWS
            || s.link_vouches);
        let bad = (w.dropped > 0 || other) && !blip;
        let severe = bad && (w.dropped > 0 || w.flushed || w.loss_ppm >= SEVERE_LOSS_PPM
            || decode_severe || encode_severe || w.recovery_kf >= RECOVERY_KF_SEVERE);
        let reason = if blip {
            Reason::Blip
        } else if w.dropped > 0 {
            Reason::Drop
        } else if w.flushed {
            Reason::Flush
        } else if lossy {
            Reason::Loss
        } else if owd_bad {
            Reason::Owd
        } else if decode_bad {
            Reason::Decode
        } else if encode_bad {
            Reason::Encode
        } else if asks {
            Reason::Keyframe
        } else if quiet {
            Reason::Quiet
        } else {
            Reason::Clean
        };
        let starved = !s.source_still && w.actual_kbps < s.current_kbps / STARVED_DIV;
        self.owd.teach(w.owd_mean_us, !quiet && !s.lift_probing);
        self.decode.teach(w.decode_mean_us, !quiet);
        self.encode.teach(w.encode_mean_us, !quiet);
        Verdict {
            bad,
            severe,
            quiet,
            starved,
            owd_bad,
            decode_bad,
            decode_severe,
            decode_mean_us: if quiet {
                None
            } else {
                w.decode_mean_us
            },
            reason,
        }
    }
}

/// A window is bad exactly when something named it that is neither stillness,
/// cleanliness nor a blip, and only a bad window is severe.
pub proof fn law_a_bad_window_is_a_named_one(b: Baselines, w: WindowSample, s: Standing)
    ensures
        b.verdict(w, s).bad <==> !(b.verdict(w, s).reason == Reason::Clean || b.verdict(
            w,
            s,
        ).reason == Reason::Quiet || b.verdict(w, s).reason == Reason::Blip),
        b.verdict(w, s).severe ==> b.verdict(w, s).bad,
{
}

/// A rolling floor never exceeds the reading it was just taught.
pub proof fn law_a_floor_is_a_floor(r: RollingMin, us: i64)
    requires
        r.wf(),
    ensures
        r.noted(us).floor() is Some ==> r.noted(us).floor()->0 <= us,
{
}

/// A lost frame, a jump, a loss share, a storm of asks: each makes a window
/// bad by itself, at its own height, and each makes it severe where it is deep.
pub proof fn law_what_the_link_lost_is_damage(b: Baselines, w: WindowSample, s: Standing)
    ensures
        w.dropped >= 2 ==> b.verdict(w, s).bad && b.verdict(w, s).severe,
        w.flushed ==> b.verdict(w, s).bad && b.verdict(w, s).severe,
        w.loss_ppm >= 20_000 ==> b.verdict(w, s).bad,
        w.loss_ppm >= 60_000 ==> b.verdict(w, s).severe,
        w.recovery_kf >= 2 ==> b.verdict(w, s).bad,
        w.recovery_kf >= 6 ==> b.verdict(w, s).severe,
        w.dropped == 1 && !b.verdict(w, s).bad ==> b.verdict(w, s).reason == Reason::Blip && (
        s.clean_windows >= 8 || s.link_vouches),
        w.dropped == 1 && b.verdict(w, s).bad ==> b.verdict(w, s).severe,
{
}

/// Each clock is read against its own floor: a queue by the delay, the client
/// by its decode time, the host by its encode time. A window in which nothing
/// moved is not read at all, a queue that is still emptying is not held
/// against the link, and an encoder that does not answer the rate is not held
/// against the host.
pub proof fn law_each_clock_is_read_against_its_own_floor(
    b: Baselines,
    w: WindowSample,
    s: Standing,
    delay: int,
    decode: int,
    encode: int,
)
    requires
        s.wf(),
        delay == clock_rise(b.owd, w.owd_mean_us),
        decode == clock_rise(b.decode, w.decode_mean_us),
        encode == clock_rise(b.encode, w.encode_mean_us),
    ensures
        ({
            let v = b.verdict(w, s);
            let moves = !(w.activity is Idle) && !(w.activity is Empty);
            let (bad, deep) = match s.frame_budget_us {
                Some(budget) => (budget / 2, 2 * budget),
                None => (4_166, 16_664),
            };
            let encode_bad = moves && !s.encode_disarmed && encode >= bad && known(
                b.encode,
                w.encode_mean_us,
            );
            let encode_deep = moves && !s.encode_disarmed && encode >= deep && known(
                b.encode,
                w.encode_mean_us,
            );
            &&& v.quiet == !moves
            &&& v.owd_bad <==> moves && !s.draining && delay >= 25_000
            &&& v.decode_bad <==> moves && decode >= 10_000
            &&& v.decode_severe <==> moves && decode >= 30_000
            &&& v.owd_bad || v.decode_bad || encode_bad ==> v.bad
            &&& v.decode_severe || encode_deep ==> v.severe || !v.bad
            &&& v.decode_severe ==> v.severe
            &&& w.dropped == 0 && !w.flushed && w.loss_ppm < 20_000 && w.recovery_kf < 2
                && !v.owd_bad && !v.decode_bad && !encode_bad ==> !v.bad
            &&& w.dropped == 0 && !w.flushed && w.loss_ppm < 60_000 && w.recovery_kf < 6
                && !v.decode_severe && !encode_deep ==> !v.severe
            &&& v.decode_mean_us == if moves {
                w.decode_mean_us
            } else {
                None
            }
        }),
{
}

/// There is a reading, and a floor to hold it against.
pub open spec fn known(r: RollingMin, us: Option<i64>) -> bool {
    us is Some && r.floor() is Some
}

/// How far a reading is over its floor, nothing where either is missing.
pub open spec fn clock_rise(r: RollingMin, us: Option<i64>) -> int {
    if known(r, us) {
        us->0 - r.floor()->0
    } else {
        0
    }
}

/// One lost frame that nothing else goes with is a blip, where the windows
/// before it or the link vouch for it.
pub proof fn law_a_lone_frame_is_a_blip(b: Baselines, w: WindowSample, s: Standing)
    requires
        w.dropped == 1,
        !w.flushed,
        w.loss_ppm < 20_000,
        w.recovery_kf < 2,
        w.activity is Idle || (w.owd_mean_us is None && w.decode_mean_us is None
            && w.encode_mean_us is None),
    ensures
        s.clean_windows >= 8 || s.link_vouches ==> !b.verdict(w, s).bad,
        !(s.clean_windows >= 8 || s.link_vouches) ==> b.verdict(w, s).bad && b.verdict(
            w,
            s,
        ).reason == Reason::Drop,
{
}

/// What names a window is the first of what was wrong with it: the link's
/// losses, then the clocks, then the asks; a window with none of them is still
/// or clean.
pub proof fn law_a_window_is_named_by_the_first_thing_wrong(
    b: Baselines,
    w: WindowSample,
    s: Standing,
)
    ensures
        ({
            let v = b.verdict(w, s);
            &&& w.dropped > 0 && v.bad ==> v.reason == Reason::Drop
            &&& w.dropped == 0 && w.flushed ==> v.reason == Reason::Flush
            &&& w.dropped == 0 && !w.flushed && w.loss_ppm >= 20_000 ==> v.reason == Reason::Loss
            &&& w.dropped == 0 && !w.flushed && w.loss_ppm < 20_000 ==> {
                &&& v.owd_bad ==> v.reason == Reason::Owd
                &&& !v.owd_bad && v.decode_bad ==> v.reason == Reason::Decode
                &&& !v.owd_bad && !v.decode_bad && v.bad && w.recovery_kf < 2 ==> v.reason
                    == Reason::Encode
                &&& v.reason == Reason::Keyframe ==> w.recovery_kf >= 2 && !v.owd_bad
                    && !v.decode_bad
                &&& !v.bad && v.quiet ==> v.reason == Reason::Quiet
                &&& !v.bad && !v.quiet ==> v.reason == Reason::Clean
            }
        }),
{
}

/// A window starved if the source drew and less than a quarter of the rate
/// arrived.
pub proof fn law_a_starved_window_delivered_a_fraction(b: Baselines, w: WindowSample, s: Standing)
    ensures
        b.verdict(w, s).starved <==> !s.source_still && 4 * (w.actual_kbps + 1) <= s.current_kbps,
{
}

/// The fresh floor after each of `readings`.
pub open spec fn taught_by(readings: Seq<i64>) -> RollingMin
    decreases readings.len(),
{
    if readings.len() == 0 {
        RollingMin::new()
    } else {
        taught_by(readings.drop_last()).noted(readings.last())
    }
}

proof fn lemma_taught_by(readings: Seq<i64>)
    requires
        readings.len() < 40,
    ensures
        taught_by(readings).ticks == readings.len(),
        taught_by(readings).seen == if readings.len() < 4 {
            readings.len()
        } else {
            4
        },
        taught_by(readings).last_us is None,
        readings.len() == 0 ==> taught_by(readings).this_us is None,
        readings.len() > 0 ==> taught_by(readings).this_us is Some && readings.contains(
            taught_by(readings).this_us->0,
        ),
        forall|i: int|
            0 <= i < readings.len() ==> taught_by(readings).this_us->0 <= #[trigger] readings[i],
    decreases readings.len(),
{
    if readings.len() > 0 {
        let fewer = readings.drop_last();
        lemma_taught_by(fewer);
        let n = readings.len() - 1;
        assert(readings[n] == readings.last());
        if fewer.len() > 0 {
            let least = taught_by(fewer).this_us->0;
            let at = choose|i: int| 0 <= i < fewer.len() && fewer[i] == least;
            assert(readings[at] == least);
        }
        assert forall|i: int| 0 <= i < readings.len() implies taught_by(readings).this_us->0
            <= #[trigger] readings[i] by {
            if i < n {
                assert(fewer[i] == readings[i]);
            }
        }
    }
}

/// A floor is the least of what taught it, once four windows have; before that
/// there is none.
pub proof fn law_a_floor_is_the_least_reading(readings: Seq<i64>)
    requires
        readings.len() < 40,
    ensures
        readings.len() < 4 ==> taught_by(readings).floor() is None,
        readings.len() >= 4 ==> taught_by(readings).floor() is Some && readings.contains(
            taught_by(readings).floor()->0,
        ) && forall|i: int|
            0 <= i < readings.len() ==> taught_by(readings).floor()->0 <= #[trigger] readings[i],
{
    lemma_taught_by(readings);
}

/// The fortieth window of a bucket ends it: the bucket is kept as the last
/// one, and the one before it is forgotten.
pub proof fn law_a_bucket_is_kept_for_one_more(r: RollingMin, us: i64)
    requires
        r.wf(),
        r.ticks == 39,
    ensures
        r.noted(us).ticks == 0,
        r.noted(us).this_us is None,
        r.noted(us).last_us matches Some(least) && least <= us && (least == us || r.this_us
            == Some(least)),
        r.this_us matches Some(least) ==> r.noted(us).last_us->0 <= least,
{
}

/// A window teaches each floor its own reading and no other. Stillness teaches
/// none, and while a lift is judged the delay's floor is held.
pub proof fn law_each_floor_learns_its_own_reading(b: Baselines, w: WindowSample, s: Standing)
    ensures
        w.activity is Idle || w.activity is Empty ==> b.learned(w, s) == b,
        s.lift_probing ==> b.learned(w, s).owd == b.owd,
        w.owd_mean_us is None ==> b.learned(w, s).owd == b.owd,
        w.decode_mean_us is None ==> b.learned(w, s).decode == b.decode,
        w.encode_mean_us is None ==> b.learned(w, s).encode == b.encode,
        !(w.activity is Idle) && !(w.activity is Empty) ==> {
            &&& w.owd_mean_us matches Some(us) ==> (!s.lift_probing ==> b.learned(w, s).owd
                == b.owd.noted(us))
            &&& w.decode_mean_us matches Some(us) ==> b.learned(w, s).decode == b.decode.noted(us)
            &&& w.encode_mean_us matches Some(us) ==> b.learned(w, s).encode == b.encode.noted(us)
        },
{
}

} // verus!
