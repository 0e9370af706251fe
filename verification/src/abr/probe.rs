//! Measuring the link: a bring-up ramp before the first frame, and a burst
//! beside the picture where the ramp is not served.
//!
//! The ramp is a run of short steps at doubling rates, sent while no video
//! exists yet, so nothing it does can cost a frame. It stops at the first step
//! the link does not deliver, at what the stream can use, at a sender that
//! cannot offer the rate, or at the first video frame. Every deadline is here
//! because a host may simply not answer.

use crate::math::{counted, higher, lower, product, scaled, times, total};
use vstd::prelude::*;

verus! {

/// Burst length, in milliseconds.
pub const PROBE_MS: u32 = 800;

/// Wait after video flows before bursting, in nanoseconds.
pub const PROBE_DELAY: u64 = 2_000_000_000;

/// A result later than this is not about the burst.
pub const PROBE_TIMEOUT: u64 = 15_000_000_000;

/// Length of one ramp step, in milliseconds.
pub const RAMP_STEP_MS: u32 = 25;

/// The ramp's first rate.
pub const RAMP_START_KBPS: u32 = 5_000;

/// A step is capped in bytes as well as in time.
pub const RAMP_STEP_BYTES: u64 = 16_000_000;

/// Delivered over offered under this is a wall.
pub const RAMP_WALL_PCT: u64 = 90;

/// Loss a refused step may carry and still be asked again: one packet, or
/// this share of a larger step.
pub const RAMP_LOSS_SLACK_PCT: u64 = 5;

/// What a wall licenses of what it delivered.
pub const RAMP_CEILING_PCT: u32 = 70;

/// The session opens at this share of what the ramp proved.
pub const RAMP_START_PCT: u32 = 50;

/// What a clean picture wants, as a divisor of the stream-shape cap.
pub const MODE_RATE_DIV: u32 = 5;

/// Arrivals quiet this long mean the step has drained, in milliseconds.
pub const RAMP_DRAIN_MS: u64 = 20;

/// A step whose result never comes.
pub const RAMP_STEP_TIMEOUT: u64 = 1_500_000_000;

/// How far past its pin a pinned ramp climbs.
pub const PINNED_RAMP_HEADROOM: u32 = 8;

/// The most a burst asks for.
pub const PROBE_MAX_KBPS: u32 = 2_000_000;

/// A sender that put less than this share of the ask on the wire is the limit.
pub const SENDER_PCT: u128 = 90;

pub const NS_PER_MS: u64 = 1_000_000;

/// Whole milliseconds from `then` to `now`, none when the clock went back.
#[verifier::allow_in_spec]
pub fn ms_since(then: u64, now: u64) -> u64
    returns
        (if now >= then {
            ((now - then) as u64 / NS_PER_MS) as u64
        } else {
            0
        }),
{
    if now >= then {
        (now - then) / NS_PER_MS
    } else {
        0
    }
}

/// What a burst or a step delivered.
///
/// Two domains: `delivered_*` and `wire_packets_sent` are wire packets, parity
/// and headers and all; `host_bytes_sent` is the payload the host offered.
#[derive(Clone, Copy, Debug, PartialEq, Eq, Structural)]
pub struct ProbeReport {
    /// Wire bytes delivered. `0` is a declined burst.
    pub delivered_bytes: u64,
    pub delivered_packets: u64,
    /// The client's receive interval where there was one, else the host's
    /// send window.
    pub window_ms: u32,
    /// The host's send window. `0` is a declined burst.
    pub host_duration_ms: u32,
    pub client_interval_ms: u32,
    /// The same interval at the resolution of the arrival stamps.
    pub client_interval_us: u32,
    /// Payload bytes the host put on the wire.
    pub host_bytes_sent: u64,
    /// Wire packets the host's kernel accepted.
    pub wire_packets_sent: u32,
    /// Wire packets its send buffer refused.
    pub send_dropped: u32,
}

impl ProbeReport {
    /// A report of nothing.
    #[verifier::allow_in_spec]
    pub fn empty() -> ProbeReport
        returns
            (ProbeReport {
                delivered_bytes: 0,
                delivered_packets: 0,
                window_ms: 0,
                host_duration_ms: 0,
                client_interval_ms: 0,
                client_interval_us: 0,
                host_bytes_sent: 0,
                wire_packets_sent: 0,
                send_dropped: 0,
            }),
    {
        ProbeReport {
            delivered_bytes: 0,
            delivered_packets: 0,
            window_ms: 0,
            host_duration_ms: 0,
            client_interval_ms: 0,
            client_interval_us: 0,
            host_bytes_sent: 0,
            wire_packets_sent: 0,
            send_dropped: 0,
        }
    }
}

impl Default for ProbeReport {
    fn default() -> (r: ProbeReport)
        ensures
            r == ProbeReport::empty(),
    {
        ProbeReport::empty()
    }
}

/// What a burst's report was worth.
#[derive(Clone, Copy, Debug, PartialEq, Eq, Structural)]
pub enum Measured {
    /// Not the burst this client asked for, or one already read.
    NotOurs,
    /// The host declined it: the negotiated ceiling stands.
    Declined,
    /// Link capacity with the headroom taken off, and the wall where the link
    /// refused what the burst offered.
    Ceiling { ceiling_kbps: u32, wall_kbps: Option<u32> },
}

/// What the ramp proved by the time it stopped.
#[derive(Clone, Copy, Debug, PartialEq, Eq, Structural)]
pub enum Ramped {
    /// The link refused a step: it holds about this much and no more.
    Wall { delivered_kbps: u32 },
    /// Nothing refused up to this rate, which is a floor under the capacity.
    NoWall { proven_kbps: u32 },
}

impl Ramped {
    /// The rate the link was proved to carry, whichever way it ended.
    #[verifier::allow_in_spec]
    pub fn proven_kbps(self) -> u32
        returns
            (match self {
                Ramped::Wall { delivered_kbps } => delivered_kbps,
                Ramped::NoWall { proven_kbps } => proven_kbps,
            }),
    {
        match self {
            Ramped::Wall { delivered_kbps } => delivered_kbps,
            Ramped::NoWall { proven_kbps } => proven_kbps,
        }
    }

    #[verifier::allow_in_spec]
    pub fn is_wall(self) -> bool
        returns
            (match self {
                Ramped::Wall { .. } => true,
                Ramped::NoWall { .. } => false,
            }),
    {
        match self {
            Ramped::Wall { .. } => true,
            Ramped::NoWall { .. } => false,
        }
    }
}

/// What a settled step came to.
#[derive(Clone, Copy, Debug, PartialEq, Eq, Structural)]
pub enum RampStepEnd {
    /// Proved its rate; the ramp doubled and went on.
    Continued,
    /// Delivered under the bar.
    Wall { delivered_kbps: u32 },
    /// The sender could not offer the rate: a floor, never a wall.
    SenderLimit { proven_kbps: u32 },
    /// Too little arrived to read a rate over.
    Unreadable,
    /// Refused with nothing lost: asked again before it may be a wall.
    RefusedReAsking { delivered_kbps: u32 },
    /// Proved the most this stream can use.
    ReachedMax { proven_kbps: u32 },
    /// The report never arrived.
    NoReport,
    /// The host answered without sending.
    Declined,
}

/// One settled step: the numbers it was judged on and what it came to.
#[derive(Clone, Copy, Debug, PartialEq, Eq, Structural)]
pub struct RampStep {
    /// Milliseconds from the ramp's start to this step settling.
    pub t_ms: u64,
    /// It asked again for a rate that was refused.
    pub repeat: bool,
    pub target_kbps: u32,
    pub asked_bytes: u64,
    pub host_bytes_sent: u64,
    pub wire_packets_sent: u32,
    pub delivered_packets: u64,
    pub delivered_bytes: u64,
    pub client_interval_ms: u32,
    pub host_duration_ms: u32,
    pub send_dropped: u32,
    pub end: RampStepEnd,
}

/// What the ramp came to.
#[derive(Clone, Copy, Debug, PartialEq, Eq, Structural)]
pub struct RampSummary {
    pub wall: bool,
    pub proven_kbps: u32,
    pub steps: u32,
    /// Payload bytes asked for over every step.
    pub asked_bytes: u64,
    /// From the first step to the stop.
    pub took_ms: u64,
}

/// What one settled step says.
#[derive(Clone, Copy, Debug, PartialEq, Eq, Structural)]
pub enum StepVerdict {
    /// It proved the rate.
    Carried,
    /// The link did not carry it. `timing_only`: so little went missing that
    /// the reading rests on when the packets arrived.
    Refused { delivered_kbps: u32, timing_only: bool },
    /// The host could not offer the rate; what it managed is a floor.
    Sender { delivered_kbps: u32 },
    /// Too few packets, or no interval.
    Unreadable,
}

/// One step in flight.
#[derive(Clone, Copy, Debug, PartialEq, Eq, Structural)]
pub struct Step {
    pub target_kbps: u32,
    /// Asking again for a rate that was refused without loss.
    pub repeat: bool,
    /// How long the host was asked to send for.
    pub asked_us: u64,
    /// Payload bytes it was asked for.
    pub asked_bytes: u64,
    /// Delivered bytes the last report showed, and when they last grew.
    pub seen_bytes: u64,
    pub seen_at: u64,
    pub last: Option<ProbeReport>,
    pub deadline: u64,
}

impl Step {
    /// The bytes have arrived and stopped arriving. A step queued behind
    /// someone else's traffic is late, not empty.
    #[verifier::allow_in_spec]
    pub fn drained(&self, now: u64) -> bool
        returns
            self.seen_bytes > 0 && ms_since(self.seen_at, now) >= RAMP_DRAIN_MS,
    {
        self.seen_bytes > 0 && ms_since(self.seen_at, now) >= RAMP_DRAIN_MS
    }
}

/// What one step proves: its bytes over the interval they arrived in, and
/// never more than it asked for.
#[verifier::allow_in_spec]
pub fn step_rate_kbps(step: &Step, r: &ProbeReport) -> u32
    returns
        lower(
            (scaled(r.delivered_bytes, 8_000) / higher(r.client_interval_us, 1) as u64) as u32,
            step.target_kbps,
        ),
{
    let us: u64 = higher(r.client_interval_us, 1) as u64;
    let rate: u32 = #[verifier::truncate]
    ((scaled(r.delivered_bytes, 8_000) / us) as u32);
    lower(rate, step.target_kbps)
}

/// Did the link refuse what a burst offered? Arrivals stretched by a queue
/// and arrivals thinned by loss both say so. A sender that could not offer
/// the rate is no refusal: the link was never asked.
pub open spec fn refuses(r: ProbeReport) -> bool {
    &&& r.client_interval_ms > 0
    &&& r.delivered_packets >= 2
    &&& r.wire_packets_sent > 0
    &&& r.send_dropped == 0
    &&& r.delivered_packets * r.host_duration_ms * 100 < r.wire_packets_sent * r.client_interval_ms
        * RAMP_WALL_PCT
}

#[verifier::when_used_as_spec(refuses_report)]
pub fn link_refused(r: &ProbeReport) -> (refused: bool)
    ensures
        refused == refuses(*r),
{
    if r.client_interval_ms == 0 || r.delivered_packets < 2 || r.wire_packets_sent == 0
        || r.send_dropped > 0 {
        return false;
    }
    assert(0 <= r.delivered_packets * r.host_duration_ms <= 0xffff_ffff_ffff_ffff * 0xffff_ffff)
        by (nonlinear_arith)
        requires
            r.delivered_packets <= 0xffff_ffff_ffff_ffffu64,
            r.host_duration_ms <= 0xffff_ffffu32,
    ;
    let got: u128 = (r.delivered_packets as u128) * (r.host_duration_ms as u128);
    let offered: u64 = product(r.wire_packets_sent, r.client_interval_ms);
    got * 100 < offered as u128 * (RAMP_WALL_PCT as u128)
}

/// [`refuses`], on a borrowed report.
pub open spec fn refuses_report(r: &ProbeReport) -> bool {
    refuses(*r)
}

/// Step length for a rate: the step's own duration, shortened where the byte
/// cap binds first.
#[verifier::allow_in_spec]
pub fn step_ms(target_kbps: u32) -> u32
    returns
        (if 8 * RAMP_STEP_BYTES < higher(target_kbps, 1) {
            1
        } else {
            lower((8 * RAMP_STEP_BYTES / higher(target_kbps, 1) as int) as u32, RAMP_STEP_MS)
        }),
{
    let target: u64 = higher(target_kbps, 1) as u64;
    let bits: u64 = RAMP_STEP_BYTES * 8;
    assert(target >= 1 ==> bits / target <= bits) by (nonlinear_arith)
        requires
            target >= 1,
    ;
    assert(bits >= target ==> bits / target >= 1) by (nonlinear_arith)
        requires
            target >= 1,
    ;
    let by_bytes: u32 = (bits / target) as u32;
    if bits < target {
        return 1;
    }
    lower(by_bytes, RAMP_STEP_MS)
}

/// What a step's report says of it, in the order the questions are asked:
/// is there a rate to read, was the sender the limit, did the link carry it.
///
/// Delivered over offered is packets a microsecond on each side, both spans
/// first to last: `n` packets leave the asked window across `n - 1` gaps, and
/// the arrivals are timed the same way.
pub open spec fn step_verdict(step: Step, r: ProbeReport) -> StepVerdict {
    let sent = r.wire_packets_sent as int;
    let offered_span = step.asked_us * (sent - 1) / sent;
    if r.client_interval_us == 0 || r.delivered_packets < 2 || r.wire_packets_sent == 0 {
        StepVerdict::Unreadable
    } else if r.send_dropped > 0 || r.host_bytes_sent * 100 < step.asked_bytes * SENDER_PCT {
        StepVerdict::Sender { delivered_kbps: step_rate_kbps(&step, &r) }
    } else if r.delivered_packets * offered_span * 100 < sent * r.client_interval_us
        * RAMP_WALL_PCT {
        StepVerdict::Refused {
            delivered_kbps: step_rate_kbps(&step, &r),
            timing_only: r.delivered_packets + 1 >= sent || r.delivered_packets * 100 >= sent * (100
                - RAMP_LOSS_SLACK_PCT),
        }
    } else {
        StepVerdict::Carried
    }
}

/// Judge a settled step.
pub fn judge(step: &Step, r: &ProbeReport) -> (v: StepVerdict)
    requires
        step.asked_us <= RAMP_STEP_MS * 1_000,
    ensures
        v == step_verdict(*step, *r),
{
    if r.client_interval_us == 0 || r.delivered_packets < 2 || r.wire_packets_sent == 0 {
        return StepVerdict::Unreadable;
    }
    let delivered_kbps: u32 = step_rate_kbps(step, r);
    let put: u128 = r.host_bytes_sent as u128 * 100;
    let asked: u128 = step.asked_bytes as u128 * SENDER_PCT;
    if r.send_dropped > 0 || put < asked {
        return StepVerdict::Sender { delivered_kbps };
    }
    let sent: u64 = r.wire_packets_sent as u64;
    let gaps: u64 = sent - 1;
    assert(0 <= step.asked_us * gaps <= 25_000 * 0xffff_ffff) by (nonlinear_arith)
        requires
            step.asked_us <= 25_000,
            gaps <= 0xffff_ffff,
    ;
    let offered_span: u64 = step.asked_us * gaps / sent;
    proof {
        lemma_span(step.asked_us as int, sent as int);
    }
    assert(0 <= r.delivered_packets * offered_span <= 0xffff_ffff_ffff_ffff * 25_000)
        by (nonlinear_arith)
        requires
            r.delivered_packets <= 0xffff_ffff_ffff_ffffu64,
            offered_span <= 25_000,
    ;
    let got: u128 = (r.delivered_packets as u128) * (offered_span as u128);
    let offered: u64 = product(r.wire_packets_sent, r.client_interval_us);
    if got * 100 < offered as u128 * (RAMP_WALL_PCT as u128) {
        let packets: u128 = r.delivered_packets as u128;
        let timing_only = packets + 1 >= sent as u128 || packets * 100 >= sent as u128 * ((100
            - RAMP_LOSS_SLACK_PCT) as u128);
        return StepVerdict::Refused { delivered_kbps, timing_only };
    }
    StepVerdict::Carried
}

proof fn lemma_span(asked: int, sent: int)
    requires
        0 <= asked,
        1 <= sent,
    ensures
        0 <= asked * (sent - 1) / sent <= asked,
{
    assert(0 <= asked * (sent - 1) <= asked * sent) by (nonlinear_arith)
        requires
            0 <= asked,
            1 <= sent,
    ;
    assert(0 <= asked * (sent - 1) / sent <= asked) by (nonlinear_arith)
        requires
            0 <= asked * (sent - 1) <= asked * sent,
            1 <= sent,
    ;
}

/// The bring-up ramp: short steps at doubling rates until a stop rule fires.
#[derive(Clone, Copy, Debug, PartialEq, Eq, Structural)]
pub struct Ramp {
    /// It never asks above this.
    pub max_kbps: u32,
    /// What the next step asks for.
    pub next_kbps: u32,
    pub step: Option<Step>,
    /// Highest rate the link delivered whole.
    pub proven_kbps: u32,
    pub spent_bytes: u64,
    pub steps: u32,
    pub started: u64,
    /// It has stopped. Kept apart from the outcome, which is taken once.
    pub done: bool,
    pub stopped_ms: u64,
    pub wall: bool,
    /// A refusal waiting on its repeat, and whether the one repeat is spent.
    pub confirming: Option<u32>,
    pub re_ask_spent: bool,
    /// It stopped before it had asked everything it meant to.
    pub cut_short: bool,
    pub outcome: Option<Ramped>,
}

impl Ramp {
    /// A step in flight was asked of a ramp that has not stopped, at no more
    /// than the most it asks for, and for no longer than a step.
    pub open spec fn wf(self) -> bool {
        self.step is Some ==> {
            &&& !self.done
            &&& self.step->0.target_kbps <= self.max_kbps
            &&& self.step->0.asked_us <= RAMP_STEP_MS * 1_000
        }
    }

    #[verifier::allow_in_spec]
    pub fn new(max_kbps: u32, now: u64) -> Ramp
        returns
            (Ramp {
                max_kbps: higher(max_kbps, RAMP_START_KBPS),
                next_kbps: RAMP_START_KBPS,
                step: None,
                proven_kbps: 0,
                spent_bytes: 0,
                steps: 0,
                started: now,
                done: false,
                stopped_ms: 0,
                wall: false,
                confirming: None,
                re_ask_spent: false,
                cut_short: false,
                outcome: None,
            }),
    {
        Ramp {
            max_kbps: higher(max_kbps, RAMP_START_KBPS),
            next_kbps: RAMP_START_KBPS,
            step: None,
            proven_kbps: 0,
            spent_bytes: 0,
            steps: 0,
            started: now,
            done: false,
            stopped_ms: 0,
            wall: false,
            confirming: None,
            re_ask_spent: false,
            cut_short: false,
            outcome: None,
        }
    }

    /// A settled step, written down.
    #[verifier::allow_in_spec]
    pub fn noted(&self, step: &Step, r: &ProbeReport, end: RampStepEnd, now: u64) -> RampStep
        returns
            (RampStep {
                t_ms: ms_since(self.started, now),
                repeat: step.repeat,
                target_kbps: step.target_kbps,
                asked_bytes: step.asked_bytes,
                host_bytes_sent: r.host_bytes_sent,
                wire_packets_sent: r.wire_packets_sent,
                delivered_packets: r.delivered_packets,
                delivered_bytes: r.delivered_bytes,
                client_interval_ms: r.client_interval_ms,
                host_duration_ms: r.host_duration_ms,
                send_dropped: r.send_dropped,
                end,
            }),
    {
        RampStep {
            t_ms: ms_since(self.started, now),
            repeat: step.repeat,
            target_kbps: step.target_kbps,
            asked_bytes: step.asked_bytes,
            host_bytes_sent: r.host_bytes_sent,
            wire_packets_sent: r.wire_packets_sent,
            delivered_packets: r.delivered_packets,
            delivered_bytes: r.delivered_bytes,
            client_interval_ms: r.client_interval_ms,
            host_duration_ms: r.host_duration_ms,
            send_dropped: r.send_dropped,
            end,
        }
    }

    /// The ramp once it stopped with `outcome`. The first stop wins: a later
    /// one would overwrite evidence with the absence of it.
    pub open spec fn stopped(self, outcome: Ramped, now: u64) -> Ramp {
        if self.done {
            Ramp { step: None, ..self }
        } else {
            Ramp {
                step: None,
                done: true,
                stopped_ms: ms_since(self.started, now),
                wall: outcome.is_wall(),
                proven_kbps: outcome.proven_kbps(),
                outcome: Some(outcome),
                ..self
            }
        }
    }

    pub fn stop(&mut self, outcome: Ramped, now: u64)
        requires
            old(self).wf(),
        ensures
            final(self).wf(),
            *final(self) == old(self).stopped(outcome, now),
    {
        *self =
        if self.done {
            Ramp { step: None, ..*self }
        } else {
            Ramp {
                step: None,
                done: true,
                stopped_ms: ms_since(self.started, now),
                wall: outcome.is_wall(),
                proven_kbps: outcome.proven_kbps(),
                outcome: Some(outcome),
                ..*self
            }
        };
    }

    /// The ramp stopped with nothing above its proven rate measured.
    pub open spec fn cut(self, now: u64) -> Ramp {
        Ramp { cut_short: true, ..self }.stopped(
            Ramped::NoWall { proven_kbps: self.proven_kbps },
            now,
        )
    }

    /// Video arrived, a step went unanswered, or one could not be read. The
    /// link's wall, if it has one, is still out there.
    pub fn no_wall(&mut self, now: u64)
        requires
            old(self).wf(),
        ensures
            final(self).wf(),
            *final(self) == old(self).cut(now),
    {
        self.cut_short = true;
        self.stop(Ramped::NoWall { proven_kbps: self.proven_kbps }, now);
    }

    /// The ramp asked everything it meant to and nothing refused it.
    pub fn finished(&mut self, now: u64)
        requires
            old(self).wf(),
        ensures
            final(self).wf(),
            *final(self) == old(self).stopped(
                Ramped::NoWall { proven_kbps: old(self).proven_kbps },
                now,
            ),
    {
        self.stop(Ramped::NoWall { proven_kbps: self.proven_kbps }, now);
    }

    /// What the next step asks for: a rate, for so many milliseconds.
    #[verifier::allow_in_spec]
    pub fn next_ask(&self) -> (u32, u32)
        returns
            (lower(self.next_kbps, self.max_kbps), step_ms(lower(self.next_kbps, self.max_kbps))),
    {
        let target_kbps: u32 = lower(self.next_kbps, self.max_kbps);
        (target_kbps, step_ms(target_kbps))
    }

    /// The ramp with its next step in flight.
    pub open spec fn begun(self, now: u64) -> Ramp {
        let (target_kbps, duration_ms) = self.next_ask();
        let asked_bytes = ((target_kbps * duration_ms) as u64 / 8) as u64;
        Ramp {
            spent_bytes: total(self.spent_bytes, asked_bytes),
            steps: counted(self.steps),
            step: Some(
                Step {
                    target_kbps,
                    repeat: self.confirming is Some,
                    asked_us: (duration_ms * 1_000) as u64,
                    asked_bytes,
                    seen_bytes: 0,
                    seen_at: now,
                    last: None,
                    deadline: total(now, RAMP_STEP_TIMEOUT),
                },
            ),
            ..self
        }
    }

    /// Put the next step in flight and say what to ask the host for.
    pub fn begin(&mut self, now: u64) -> (ask: (u32, u32))
        requires
            old(self).wf(),
            !old(self).done,
        ensures
            final(self).wf(),
            *final(self) == old(self).begun(now),
            ask == old(self).next_ask(),
    {
        let (target_kbps, duration_ms): (u32, u32) = self.next_ask();
        proof {
            lemma_step_is_short(target_kbps);
        }
        let asked_bytes: u64 = product(target_kbps, duration_ms) / 8;
        let asked_us: u64 = duration_ms as u64 * 1_000;
        *self =
        Ramp {
            spent_bytes: total(self.spent_bytes, asked_bytes),
            steps: counted(self.steps),
            step: Some(
                Step {
                    target_kbps,
                    repeat: self.confirming.is_some(),
                    asked_us,
                    asked_bytes,
                    seen_bytes: 0,
                    seen_at: now,
                    last: None,
                    deadline: total(now, RAMP_STEP_TIMEOUT),
                },
            ),
            ..*self
        };
        (target_kbps, duration_ms)
    }

    /// The ramp after a step the link did not carry, and the ask it makes.
    ///
    /// One that rests on timing is asked once more before it may be a wall,
    /// and one repeat is all a ramp gets. A second refusal of one rate is a
    /// wall at the better of the two readings.
    pub open spec fn refused(self, delivered_kbps: u32, timing_only: bool, now: u64) -> (
        Ramp,
        Option<(u32, u32)>,
    ) {
        match self.confirming {
            Some(first) => (
                Ramp { confirming: None, ..self }.stopped(
                    Ramped::Wall { delivered_kbps: higher(delivered_kbps, first) },
                    now,
                ),
                None,
            ),
            None => if timing_only && !self.re_ask_spent {
                let asking = Ramp {
                    re_ask_spent: true,
                    confirming: Some(delivered_kbps),
                    ..self
                };
                (asking.begun(now), Some(asking.next_ask()))
            } else {
                (self.stopped(Ramped::Wall { delivered_kbps }, now), None)
            },
        }
    }

    pub fn on_refusal(&mut self, delivered_kbps: u32, timing_only: bool, now: u64) -> (ask: Option<
        (u32, u32),
    >)
        requires
            old(self).wf(),
            !old(self).done,
        ensures
            final(self).wf(),
            (*final(self), ask) == old(self).refused(delivered_kbps, timing_only, now),
    {
        if let Some(first) = self.confirming {
            self.confirming = None;
            self.stop(Ramped::Wall { delivered_kbps: higher(delivered_kbps, first) }, now);
            return None;
        }
        if timing_only && !self.re_ask_spent {
            *self =
            Ramp { re_ask_spent: true, confirming: Some(delivered_kbps), ..*self };
            return Some(self.begin(now));
        }
        self.stop(Ramped::Wall { delivered_kbps }, now);
        None
    }

    /// A report of a step the host declined: nothing was sent, so nothing
    /// will drain.
    #[verifier::allow_in_spec]
    pub fn declines(r: &ProbeReport) -> bool
        returns
            r.host_duration_ms == 0 && r.host_bytes_sent == 0,
    {
        r.host_duration_ms == 0 && r.host_bytes_sent == 0
    }

    /// The ramp after a report, and the step the report ended.
    pub open spec fn reported(self, r: ProbeReport, now: u64) -> (Ramp, Option<RampStep>) {
        match self.step {
            None => (self, None),
            Some(step) => if Ramp::declines(&r) {
                (
                    Ramp { step: None, ..self }.cut(now),
                    Some(self.noted(&step, &r, RampStepEnd::Declined, now)),
                )
            } else {
                let grew = r.delivered_bytes > step.seen_bytes;
                (
                    Ramp {
                        step: Some(
                            Step {
                                seen_bytes: if grew {
                                    r.delivered_bytes
                                } else {
                                    step.seen_bytes
                                },
                                seen_at: if grew {
                                    now
                                } else {
                                    step.seen_at
                                },
                                last: Some(r),
                                ..step
                            },
                        ),
                        ..self
                    },
                    None,
                )
            },
        }
    }

    /// Fold a report into the step in flight. Reports repeat while the
    /// receive buffer drains, and their bytes keep growing. A declined step
    /// ends the ramp on the report, not on its deadline.
    pub fn on_report(&mut self, r: ProbeReport, now: u64) -> (ended: Option<RampStep>)
        requires
            old(self).wf(),
        ensures
            final(self).wf(),
            (*final(self), ended) == old(self).reported(r, now),
    {
        let step: Step = match self.step {
            Some(step) => step,
            None => {
                return None;
            },
        };
        if Ramp::declines(&r) {
            let ended = self.noted(&step, &r, RampStepEnd::Declined, now);
            self.step = None;
            self.no_wall(now);
            return Some(ended);
        }
        let grew = r.delivered_bytes > step.seen_bytes;
        self.step =
        Some(
            Step {
                seen_bytes: if grew {
                    r.delivered_bytes
                } else {
                    step.seen_bytes
                },
                seen_at: if grew {
                    now
                } else {
                    step.seen_at
                },
                last: Some(r),
                ..step
            },
        );
        None
    }

    /// How a refused step is written down: as asked again, or as the wall it
    /// was credited as.
    pub open spec fn refusal_end(self, delivered_kbps: u32, timing_only: bool) -> RampStepEnd {
        match self.confirming {
            Some(first) => RampStepEnd::Wall { delivered_kbps: higher(delivered_kbps, first) },
            None => if timing_only && !self.re_ask_spent {
                RampStepEnd::RefusedReAsking { delivered_kbps }
            } else {
                RampStepEnd::Wall { delivered_kbps }
            },
        }
    }

    /// The ramp after a step's report was judged, how the step ended, and the
    /// next ask.
    pub open spec fn concluded(self, step: Step, r: ProbeReport, now: u64) -> (
        Ramp,
        RampStepEnd,
        Option<(u32, u32)>,
    ) {
        match step_verdict(step, r) {
            StepVerdict::Refused { delivered_kbps, timing_only } => {
                let (ramp, ask) = self.refused(delivered_kbps, timing_only, now);
                (ramp, self.refusal_end(delivered_kbps, timing_only), ask)
            },
            StepVerdict::Sender { delivered_kbps } => {
                let proven_kbps = higher(self.proven_kbps, delivered_kbps);
                (
                    self.stopped(Ramped::NoWall { proven_kbps }, now),
                    RampStepEnd::SenderLimit { proven_kbps },
                    None,
                )
            },
            StepVerdict::Unreadable => (self.cut(now), RampStepEnd::Unreadable, None),
            StepVerdict::Carried => {
                let proven_kbps = step_rate_kbps(&step, &r);
                let carried = Ramp { confirming: None, proven_kbps, ..self };
                if step.target_kbps >= self.max_kbps {
                    (
                        carried.stopped(Ramped::NoWall { proven_kbps }, now),
                        RampStepEnd::ReachedMax { proven_kbps },
                        None,
                    )
                } else {
                    let doubled = Ramp {
                        next_kbps: lower(times(step.target_kbps, 2), self.max_kbps),
                        ..carried
                    };
                    (doubled.begun(now), RampStepEnd::Continued, Some(doubled.next_ask()))
                }
            },
        }
    }

    fn conclude(&mut self, step: &Step, r: &ProbeReport, now: u64) -> (end: (
        RampStepEnd,
        Option<(u32, u32)>,
    ))
        requires
            old(self).wf(),
            !old(self).done,
            old(self).step is None,
            step.asked_us <= RAMP_STEP_MS * 1_000,
        ensures
            final(self).wf(),
            (*final(self), end.0, end.1) == old(self).concluded(*step, *r, now),
    {
        match judge(step, r) {
            StepVerdict::Refused { delivered_kbps, timing_only } => {
                let first: Option<u32> = self.confirming;
                let ask: Option<(u32, u32)> = self.on_refusal(delivered_kbps, timing_only, now);
                let end = if self.confirming.is_some() {
                    RampStepEnd::RefusedReAsking { delivered_kbps }
                } else {
                    RampStepEnd::Wall {
                        delivered_kbps: match first {
                            Some(f) => higher(delivered_kbps, f),
                            None => delivered_kbps,
                        },
                    }
                };
                (end, ask)
            },
            StepVerdict::Sender { delivered_kbps } => {
                let proven_kbps: u32 = higher(self.proven_kbps, delivered_kbps);
                self.stop(Ramped::NoWall { proven_kbps }, now);
                (RampStepEnd::SenderLimit { proven_kbps }, None)
            },
            StepVerdict::Unreadable => {
                self.no_wall(now);
                (RampStepEnd::Unreadable, None)
            },
            StepVerdict::Carried => {
                let proven_kbps: u32 = step_rate_kbps(step, r);
                *self = Ramp { confirming: None, proven_kbps, ..*self };
                if step.target_kbps >= self.max_kbps {
                    self.finished(now);
                    return (RampStepEnd::ReachedMax { proven_kbps }, None);
                }
                self.next_kbps = lower(times(step.target_kbps, 2), self.max_kbps);
                let ask: (u32, u32) = self.begin(now);
                (RampStepEnd::Continued, Some(ask))
            },
        }
    }

    /// The ramp after a poll with a step in flight, the step that settled,
    /// and the next ask.
    pub open spec fn settled(self, now: u64) -> (Ramp, Option<RampStep>, Option<(u32, u32)>) {
        match self.step {
            None => (self, None, None),
            Some(step) => if !step.drained(now) {
                (self, None, None)
            } else {
                let idle = Ramp { step: None, ..self };
                match step.last {
                    None => (
                        idle.cut(now),
                        Some(
                            self.noted(&step, &ProbeReport::empty(), RampStepEnd::NoReport, now),
                        ),
                        None,
                    ),
                    Some(report) => {
                        let (ramp, end, ask) = idle.concluded(step, report, now);
                        (ramp, Some(self.noted(&step, &report, end, now)), ask)
                    },
                }
            },
        }
    }

    /// A step is over once its bytes stopped arriving.
    pub fn settle(&mut self, now: u64) -> (r: (Option<RampStep>, Option<(u32, u32)>))
        requires
            old(self).wf(),
        ensures
            final(self).wf(),
            (*final(self), r.0, r.1) == old(self).settled(now),
    {
        let step: Step = match self.step {
            Some(step) => step,
            None => {
                return (None, None);
            },
        };
        if !step.drained(now) {
            return (None, None);
        }
        self.step = None;
        match step.last {
            None => {
                let ended = self.noted(&step, &ProbeReport::empty(), RampStepEnd::NoReport, now);
                self.no_wall(now);
                (Some(ended), None)
            },
            Some(report) => {
                let before: Ramp = *self;
                let (end, ask): (RampStepEnd, Option<(u32, u32)>) = self.conclude(
                    &step,
                    &report,
                    now,
                );
                (Some(before.noted(&step, &report, end, now)), ask)
            },
        }
    }
}

proof fn lemma_step_is_short(target_kbps: u32)
    ensures
        1 <= step_ms(target_kbps) <= RAMP_STEP_MS,
{
    let target = higher(target_kbps, 1) as int;
    if 8 * RAMP_STEP_BYTES >= target {
        assert(128_000_000int / target >= 1) by (nonlinear_arith)
            requires
                1 <= target <= 128_000_000,
        ;
        assert(128_000_000int / target <= 128_000_000) by (nonlinear_arith)
            requires
                1 <= target,
        ;
    }
}

/// Whole milliseconds lead from one time to the other, less than one short;
/// a clock that went back passed none.
pub proof fn law_milliseconds_lead_from_then_to_now(then: u64, now: u64)
    ensures
        now >= then ==> then + ms_since(then, now) * 1_000_000 <= now < then + (ms_since(then, now)
            + 1) * 1_000_000,
        now <= then ==> ms_since(then, now) == 0,
{
}

/// A step's rate is the bits that arrived over the time they took, held at
/// what was asked for.
pub proof fn law_a_step_reads_the_bits_that_arrived(step: Step, r: ProbeReport)
    requires
        r.client_interval_us > 0,
        r.delivered_bytes * 8_000 < r.client_interval_us * 0x1_0000_0000,
        r.delivered_bytes <= 0x10_0000_0000_0000,
    ensures
        ({
            let rate = step_rate_kbps(&step, &r);
            &&& rate <= step.target_kbps
            &&& rate * r.client_interval_us <= r.delivered_bytes * 8_000
            &&& rate < step.target_kbps ==> r.delivered_bytes * 8_000 < (rate + 1)
                * r.client_interval_us
        }),
{
    let bits = r.delivered_bytes * 8_000;
    let us = r.client_interval_us as int;
    vstd::arithmetic::div_mod::lemma_fundamental_div_mod(bits, us);
    vstd::arithmetic::div_mod::lemma_mod_bound(bits, us);
    let q = bits / us;
    assert(us * q == q * us && (q + 1) * us == q * us + us) by (nonlinear_arith);
    assert(0 <= q < 0x1_0000_0000) by (nonlinear_arith)
        requires
            0 <= bits < us * 0x1_0000_0000,
            us > 0,
            q == bits / us,
    ;
    let rate = step_rate_kbps(&step, &r) as int;
    assert(rate <= q);
    assert(rate * us <= q * us) by (nonlinear_arith)
        requires
            rate <= q,
            us > 0,
    ;
}

/// A burst that arrived whole in the time it was sent in was not refused; one
/// of which under nine tenths arrived, or that took longer in the same
/// measure, was. More arriving never makes a refusal, and a sender that could
/// not send never is one.
pub proof fn law_a_refusal_is_less_than_was_offered(r: ProbeReport, more: ProbeReport)
    requires
        more == (ProbeReport { delivered_packets: more.delivered_packets, ..r }),
    ensures
        r.delivered_packets >= r.wire_packets_sent && r.client_interval_ms <= r.host_duration_ms
            ==> !refuses(r),
        r.delivered_packets >= 2 && r.send_dropped == 0 && r.client_interval_ms > 0
            && r.client_interval_ms >= r.host_duration_ms && r.delivered_packets * 100
            < r.wire_packets_sent * 90 ==> refuses(r),
        r.delivered_packets >= 2 && r.send_dropped == 0 && r.wire_packets_sent > 0
            && r.delivered_packets <= r.wire_packets_sent && r.host_duration_ms * 100
            < r.client_interval_ms * 90 ==> refuses(r),
        r.send_dropped > 0 ==> !refuses(r),
        r.client_interval_ms == 0 || r.delivered_packets < 2 || r.wire_packets_sent == 0
            ==> !refuses(r),
        refuses(more) && 2 <= r.delivered_packets <= more.delivered_packets ==> refuses(r),
{
    let got = r.delivered_packets as int;
    let sent = r.wire_packets_sent as int;
    let took = r.client_interval_ms as int;
    let over = r.host_duration_ms as int;
    if got >= sent && took <= over {
        assert(got * over * 100 >= sent * took * 90) by (nonlinear_arith)
            requires
                got >= sent >= 0,
                over >= took >= 0,
        ;
    }
    if took > 0 && took >= over && got * 100 < sent * 90 && got >= 2 {
        assert(got * over * 100 < sent * took * 90) by (nonlinear_arith)
            requires
                took > 0,
                took >= over >= 0,
                0 <= got,
                got * 100 < sent * 90,
        ;
    }
    if sent > 0 && 0 <= got <= sent && over * 100 < took * 90 {
        assert(got * over * 100 < sent * took * 90) by (nonlinear_arith)
            requires
                sent > 0,
                0 <= got <= sent,
                over >= 0,
                over * 100 < took * 90,
        ;
    }
    if got <= more.delivered_packets {
        assert(got * over * 100 <= more.delivered_packets * over * 100) by (nonlinear_arith)
            requires
                0 <= got <= more.delivered_packets,
                over >= 0,
        ;
    }
}

/// A step is asked for its whole length wherever that is under the byte cap.
pub proof fn law_a_step_is_as_long_as_its_bytes_allow(target_kbps: u32)
    ensures
        target_kbps * 25 <= 128_000_000 ==> step_ms(target_kbps) == 25,
        target_kbps * 25 > 128_000_000 && target_kbps <= 128_000_000 ==> step_ms(target_kbps)
            * target_kbps <= 128_000_000 < (step_ms(target_kbps) + 1) * target_kbps,
        target_kbps > 128_000_000 ==> step_ms(target_kbps) == 1,
{
    let t: int = if target_kbps == 0 {
        1
    } else {
        target_kbps as int
    };
    let q = 128_000_000int / t;
    vstd::arithmetic::div_mod::lemma_fundamental_div_mod(128_000_000, t);
    vstd::arithmetic::div_mod::lemma_mod_bound(128_000_000, t);
    assert(t * q == q * t && (q + 1) * t == q * t + t) by (nonlinear_arith);
    assert(0 <= q <= 128_000_000) by (nonlinear_arith)
        requires
            t >= 1,
            q == 128_000_000int / t,
    ;
    if t * 25 <= 128_000_000 {
        assert(q >= 25) by (nonlinear_arith)
            requires
                t >= 1,
                t * 25 <= 128_000_000,
                128_000_000 < (q + 1) * t,
        ;
    } else {
        assert(q < 25) by (nonlinear_arith)
            requires
                t >= 1,
                t * 25 > 128_000_000,
                q * t <= 128_000_000,
        ;
    }
}

/// A step is judged in order. What cannot be read says nothing; a sender that
/// fell a tenth short of what was asked, or dropped anything, is the limit;
/// and only then is the link held to nine tenths of what was offered. A step
/// that arrived whole and in time was carried; one of which under nine tenths
/// arrived was not, and rests on timing alone where no more than one packet,
/// or a twentieth, is missing.
pub proof fn law_a_step_is_judged_in_order(step: Step, r: ProbeReport)
    requires
        step.asked_us <= 25_000,
    ensures
        ({
            let v = step_verdict(step, r);
            let readable = r.client_interval_us > 0 && r.delivered_packets >= 2
                && r.wire_packets_sent > 0;
            let short = r.send_dropped > 0 || r.host_bytes_sent * 10 < step.asked_bytes * 9;
            let sent = r.wire_packets_sent as int;
            &&& !readable <==> v is Unreadable
            &&& readable && short <==> v is Sender
            &&& v matches StepVerdict::Sender { delivered_kbps } ==> delivered_kbps
                == step_rate_kbps(&step, &r)
            &&& v matches StepVerdict::Refused { delivered_kbps, timing_only } ==> {
                &&& delivered_kbps == step_rate_kbps(&step, &r)
                &&& timing_only <==> sent - r.delivered_packets <= 1 || (sent - r.delivered_packets)
                    * 20 <= sent
            }
            &&& readable && !short && r.delivered_packets >= sent && r.client_interval_us * sent
                <= step.asked_us * (sent - 1) ==> v is Carried
            &&& readable && !short && r.delivered_packets * 10 < sent * 9 && r.client_interval_us
                >= step.asked_us ==> v is Refused
            &&& readable && !short && r.delivered_packets <= sent && step.asked_us * 10
                < r.client_interval_us * 9 ==> v is Refused
        }),
{
    if r.wire_packets_sent > 0 {
        let sent = r.wire_packets_sent as int;
        let got = r.delivered_packets as int;
        let took = r.client_interval_us as int;
        let asked = step.asked_us as int;
        let span = asked * (sent - 1) / sent;
        lemma_span(asked, sent);
        if took * sent <= asked * (sent - 1) {
            assert(took <= span) by (nonlinear_arith)
                requires
                    took * sent <= asked * (sent - 1),
                    sent > 0,
                    span == asked * (sent - 1) / sent,
            ;
        }
        if got >= sent && took <= span {
            assert(got * span * 100 >= sent * took * 90) by (nonlinear_arith)
                requires
                    got >= sent > 0,
                    0 <= took <= span,
            ;
        }
        if got * 10 < sent * 9 && took >= asked && took > 0 {
            assert(got * span * 100 < sent * took * 90) by (nonlinear_arith)
                requires
                    0 <= got,
                    got * 10 < sent * 9,
                    0 <= span <= took,
                    took > 0,
            ;
        }
        if got <= sent && asked * 10 < took * 9 {
            assert(got * span * 100 < sent * took * 90) by (nonlinear_arith)
                requires
                    0 <= got <= sent,
                    sent > 0,
                    0 <= span <= asked,
                    asked * 10 < took * 9,
            ;
        }
    }
}

/// The next step is asked for at its rate and for its length, and its bytes
/// are counted; a silent one is given up a second and a half later.
pub proof fn law_a_step_in_flight_is_what_was_asked(r: Ramp, now: u64)
    requires
        now <= u64::MAX - 2_000_000_000,
        r.steps < u32::MAX,
        r.spent_bytes <= u64::MAX / 2,
    ensures
        ({
            let (kbps, ms) = r.next_ask();
            let b = r.begun(now);
            &&& kbps <= r.next_kbps && kbps <= r.max_kbps && (kbps == r.next_kbps || kbps
                == r.max_kbps)
            &&& ms == step_ms(kbps)
            &&& b.steps == r.steps + 1
            &&& b.step matches Some(step) && step.target_kbps == kbps && step.asked_us == ms * 1_000
                && step.deadline == now + 1_500_000_000 && step.seen_bytes == 0 && step.seen_at
                == now && step.last is None && step.repeat == r.confirming is Some
            &&& b.step->0.asked_bytes * 8 <= kbps * ms < b.step->0.asked_bytes * 8 + 8
            &&& b.spent_bytes == r.spent_bytes + b.step->0.asked_bytes
            &&& b.proven_kbps == r.proven_kbps && b.done == r.done && b.max_kbps == r.max_kbps
        }),
{
    let (kbps, ms) = r.next_ask();
    lemma_step_is_short(kbps);
    assert(0 <= kbps * ms <= 0xffff_ffff * 25) by (nonlinear_arith)
        requires
            0 <= kbps <= 0xffff_ffff,
            0 <= ms <= 25,
    ;
}

/// A step that was carried proves its rate and doubles the next one, up to the
/// most there is to ask, where the ramp ends; one the link refused is a wall,
/// at what it delivered, unless it rests on timing and may be asked once more.
/// A second refusal of the same rate is a wall at the better of the two. A
/// sender's limit and a step that cannot be read end the ramp without a wall.
pub proof fn law_a_step_moves_the_ramp(r: Ramp, step: Step, report: ProbeReport, now: u64)
    requires
        !r.done,
        step.target_kbps <= r.max_kbps,
    ensures
        ({
            let (after, end, ask) = r.concluded(step, report, now);
            match step_verdict(step, report) {
                StepVerdict::Carried => {
                    &&& after.proven_kbps == step_rate_kbps(&step, &report)
                    &&& step.target_kbps == r.max_kbps ==> ask is None && after.done && !after.wall
                        && !after.cut_short == !r.cut_short && (
                    end matches RampStepEnd::ReachedMax { proven_kbps } && proven_kbps
                        == after.proven_kbps)
                    &&& step.target_kbps < r.max_kbps ==> !after.done && end is Continued && (
                    ask matches Some((kbps, _)) && kbps <= r.max_kbps && kbps <= 2
                        * step.target_kbps && (kbps == 2 * step.target_kbps || kbps == r.max_kbps))
                },
                StepVerdict::Refused { delivered_kbps, timing_only } => {
                    &&& r.confirming is None && timing_only && !r.re_ask_spent ==> !after.done
                        && after.re_ask_spent && after.confirming == Some(delivered_kbps)
                        && ask == Some(r.next_ask()) && (end matches RampStepEnd::RefusedReAsking {
                        delivered_kbps: d,
                    } && d == delivered_kbps)
                    &&& r.confirming is None && !(timing_only && !r.re_ask_spent) ==> after.done
                        && after.wall && after.proven_kbps == delivered_kbps && ask is None && (
                    end matches RampStepEnd::Wall { delivered_kbps: d } && d == delivered_kbps)
                    &&& r.confirming matches Some(first) ==> after.done && after.wall && ask is None
                        && after.proven_kbps >= delivered_kbps && after.proven_kbps >= first && (
                    after.proven_kbps == delivered_kbps || after.proven_kbps == first) && (
                    end matches RampStepEnd::Wall { delivered_kbps: d } && d == after.proven_kbps)
                },
                StepVerdict::Sender { delivered_kbps } => {
                    &&& after.done && !after.wall && ask is None && end is SenderLimit
                    &&& after.proven_kbps >= r.proven_kbps && after.proven_kbps >= delivered_kbps
                    &&& after.proven_kbps == r.proven_kbps || after.proven_kbps == delivered_kbps
                    &&& after.cut_short == r.cut_short
                },
                StepVerdict::Unreadable => {
                    &&& after.done && !after.wall && ask is None && end is Unreadable
                    &&& after.proven_kbps == r.proven_kbps
                    &&& after.cut_short
                },
            }
        }),
{
}

/// A stop says how it ended: a wall is one, and what it proved is kept.
pub proof fn law_a_stop_says_how_it_ended(r: Ramp, outcome: Ramped, now: u64)
    requires
        !r.done,
    ensures
        r.stopped(outcome, now).done,
        outcome matches Ramped::Wall { delivered_kbps } ==> r.stopped(outcome, now).wall
            && r.stopped(outcome, now).proven_kbps == delivered_kbps,
        outcome matches Ramped::NoWall { proven_kbps } ==> !r.stopped(outcome, now).wall
            && r.stopped(outcome, now).proven_kbps == proven_kbps,
        r.stopped(outcome, now).stopped_ms == ms_since(r.started, now),
        r.stopped(outcome, now).steps == r.steps,
        r.cut(now).done && r.cut(now).cut_short && !r.cut(now).wall && r.cut(now).proven_kbps
            == r.proven_kbps,
{
}

/// A step settles once bytes have come and none has for twenty milliseconds,
/// and not before; a report whose bytes grew starts that wait again. A host
/// that answers without sending ends the ramp on its report.
pub proof fn law_a_step_settles_when_it_has_drained(r: Ramp, step: Step, report: ProbeReport, now: u64)
    requires
        r.step == Some(step),
        !r.done,
    ensures
        step.seen_bytes == 0 ==> r.settled(now) == (r, None::<RampStep>, None::<(u32, u32)>),
        now < step.seen_at + 20_000_000 ==> r.settled(now) == (
            r,
            None::<RampStep>,
            None::<(u32, u32)>,
        ),
        step.seen_bytes > 0 && now >= step.seen_at + 20_000_000 ==> r.settled(now).1 is Some,
        report.host_duration_ms == 0 && report.host_bytes_sent == 0 ==> r.reported(report, now).0.done
            && (r.reported(report, now).1 matches Some(s) && s.end is Declined),
        report.host_duration_ms > 0 || report.host_bytes_sent > 0 ==> {
            &&& r.reported(report, now).1 is None
            &&& r.reported(report, now).0.step matches Some(s) && s.last == Some(report)
                && s.target_kbps == step.target_kbps && s.asked_bytes == step.asked_bytes
                && s.deadline == step.deadline && (report.delivered_bytes > step.seen_bytes
                ==> s.seen_bytes == report.delivered_bytes && s.seen_at == now) && (
            report.delivered_bytes <= step.seen_bytes ==> s.seen_bytes == step.seen_bytes
                && s.seen_at == step.seen_at)
        },
{
}

/// A settled step is written down with the numbers it was judged on.
pub proof fn law_a_settled_step_is_written_down(r: Ramp, step: Step, report: ProbeReport, now: u64)
    requires
        r.step == Some(step),
        !r.done,
        step.seen_bytes > 0,
        now >= step.seen_at + 20_000_000,
        step.last == Some(report),
    ensures
        r.settled(now).1 matches Some(s) && {
            &&& s.target_kbps == step.target_kbps && s.repeat == step.repeat && s.asked_bytes
                == step.asked_bytes
            &&& s.host_bytes_sent == report.host_bytes_sent && s.wire_packets_sent
                == report.wire_packets_sent
            &&& s.delivered_packets == report.delivered_packets && s.delivered_bytes
                == report.delivered_bytes
            &&& s.client_interval_ms == report.client_interval_ms && s.host_duration_ms
                == report.host_duration_ms
            &&& s.send_dropped == report.send_dropped
            &&& s.t_ms == ms_since(r.started, now)
        },
{
}

} // verus!
