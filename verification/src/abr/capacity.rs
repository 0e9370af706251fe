//! The measurement's whole life: the ramp before the first frame, or the
//! burst armed, in flight, answered or abandoned.

use super::probe::{
    link_refused, step_ms, step_rate_kbps, Measured, ProbeReport, Ramp, RampStep, RampSummary,
    Ramped, Step, MODE_RATE_DIV, NS_PER_MS, PINNED_RAMP_HEADROOM, PROBE_DELAY, PROBE_MAX_KBPS,
    PROBE_MS, PROBE_TIMEOUT, RAMP_CEILING_PCT, RAMP_START_PCT, RAMP_STEP_BYTES, RAMP_STEP_MS,
};
use crate::math::{bounded, higher, lower, scaled, share, times, total};
use vstd::prelude::*;

verus! {

/// What a burst asks for: twice what the stream can use, which leaves the
/// margin the measurement takes off, and no more than the hard ceiling.
#[verifier::allow_in_spec]
pub fn probe_target_kbps(stream_cap_kbps: u32) -> u32
    returns
        lower(times(stream_cap_kbps, 2), PROBE_MAX_KBPS),
{
    lower(times(stream_cap_kbps, 2), PROBE_MAX_KBPS)
}

/// The rate whose 70 % is the stream cap, rounded up.
pub open spec fn proving_rate(stream_cap_kbps: u32) -> u32 {
    let by_stream = (stream_cap_kbps * 10 + 6) / 7;
    if by_stream > u32::MAX {
        u32::MAX
    } else {
        by_stream as u32
    }
}

/// Where the ramp stops climbing: the rate that proves the stream cap, or the
/// operator's bound when that is lower.
#[verifier::when_used_as_spec(ramp_max)]
pub fn ramp_max_kbps(stream_cap_kbps: u32, env_kbps: Option<u32>) -> (r: u32)
    ensures
        r == ramp_max(stream_cap_kbps, env_kbps),
{
    let by_stream: u64 = (stream_cap_kbps as u64 * 10 + 6) / 7;
    let by_stream: u32 = if by_stream > u32::MAX as u64 {
        u32::MAX
    } else {
        by_stream as u32
    };
    bounded(by_stream, env_kbps)
}

pub open spec fn ramp_max(stream_cap_kbps: u32, env_kbps: Option<u32>) -> u32 {
    bounded(proving_rate(stream_cap_kbps), env_kbps)
}

/// Where a pinned session's ramp stops: eight times the pin, or the
/// operator's bound when that is lower.
#[verifier::allow_in_spec]
pub fn pinned_ramp_max_kbps(pin_kbps: u32, env_kbps: Option<u32>) -> u32
    returns
        bounded(times(pin_kbps, PINNED_RAMP_HEADROOM), env_kbps),
{
    bounded(times(pin_kbps, PINNED_RAMP_HEADROOM), env_kbps)
}

/// What the session opens at: half of what the ramp proved, and never more
/// than a clean picture at this mode wants.
#[verifier::allow_in_spec]
pub fn ramp_start_kbps(proven_kbps: u32, stream_cap_kbps: u32) -> u32
    returns
        lower(
            (stream_cap_kbps / MODE_RATE_DIV) as u32,
            (proven_kbps / (100u32 / RAMP_START_PCT)) as u32,
        ),
{
    lower(stream_cap_kbps / MODE_RATE_DIV, proven_kbps / (100 / RAMP_START_PCT))
}

/// The ceiling a wall licenses: well under what the link delivered.
#[verifier::allow_in_spec]
pub fn wall_ceiling_kbps(delivered_kbps: u32) -> u32
    returns
        share(delivered_kbps, RAMP_CEILING_PCT),
{
    share(delivered_kbps, RAMP_CEILING_PCT)
}

/// The rate a burst delivered, over the interval its bytes arrived in.
#[verifier::allow_in_spec]
pub fn burst_rate_kbps(r: &ProbeReport) -> u32
    returns
        (scaled(r.delivered_bytes, 8) / higher(r.window_ms, 1) as u64) as u32,
{
    let ms: u64 = higher(r.window_ms, 1) as u64;
    #[verifier::truncate]
    ((scaled(r.delivered_bytes, 8) / ms) as u32)
}

/// What a report of our own burst is worth.
#[verifier::allow_in_spec]
pub fn read_burst(r: &ProbeReport) -> Measured
    returns
        (if r.host_duration_ms == 0 || r.delivered_bytes == 0 {
            Measured::Declined
        } else {
            Measured::Ceiling {
                ceiling_kbps: (times(burst_rate_kbps(r), 7) / 10) as u32,
                wall_kbps: if link_refused(r) {
                    Some(burst_rate_kbps(r))
                } else {
                    None
                },
            }
        }),
{
    if r.host_duration_ms == 0 || r.delivered_bytes == 0 {
        return Measured::Declined;
    }
    let delivered_kbps: u32 = burst_rate_kbps(r);
    Measured::Ceiling {
        ceiling_kbps: times(delivered_kbps, 7) / 10,
        wall_kbps: if link_refused(r) {
            Some(delivered_kbps)
        } else {
            None
        },
    }
}

/// A deadline that is set and has passed.
#[verifier::allow_in_spec]
pub fn past(at: Option<u64>, now: u64) -> bool
    returns
        (match at {
            Some(at) => now >= at,
            None => false,
        }),
{
    match at {
        Some(at) => now >= at,
        None => false,
    }
}

/// The burst and everything about the measurement but the ramp.
#[derive(Clone, Copy, Debug, PartialEq, Eq, Structural)]
pub struct Burst {
    pub target_kbps: u32,
    /// When to fire it. `None` is fired already, or never armed.
    pub fire_at: Option<u64>,
    /// It is out, and its result is owed by then.
    pub result_by: Option<u64>,
    /// Any burst is in flight, ours or an embedder's.
    pub active: bool,
    /// One in flight past this is unanswered.
    pub watchdog: Option<u64>,
    /// Frames completed when it started.
    pub frames_at_start: u64,
    /// The one in flight, or the last one, was a ramp step when it started.
    pub step: bool,
    /// Nothing is going to measure this link. Taken once.
    pub no_evidence: bool,
    /// A pinned session: its ramp sizes the pin, and no burst follows.
    pub pinned: bool,
}

/// The measurement, with its history as a sequence.
#[verifier::ext_equal]
pub struct ProbeView {
    pub burst: Burst,
    pub ramp: Option<Ramp>,
    /// Every step the ramp settled, oldest first.
    pub history: Seq<RampStep>,
}

/// The measurement of one session's link.
pub struct CapacityProbe {
    pub burst: Burst,
    pub ramp: Option<Ramp>,
    pub history: Vec<RampStep>,
}

impl View for CapacityProbe {
    type V = ProbeView;

    open spec fn view(&self) -> ProbeView {
        ProbeView { burst: self.burst, ramp: self.ramp, history: self.history@ }
    }
}

impl ProbeView {
    pub open spec fn wf(self) -> bool {
        match self.ramp {
            Some(r) => r.wf(),
            None => self.history.len() == 0,
        }
    }

    /// The next burst fired would be a ramp step.
    pub open spec fn ramping(self) -> bool {
        self.ramp is Some && !self.ramp->0.done
    }

    /// A measurement that has not begun.
    pub open spec fn fresh(
        armed: bool,
        ramp: bool,
        target_kbps: Option<u32>,
        stream_cap_kbps: u32,
        now: u64,
    ) -> ProbeView {
        ProbeView {
            burst: Burst {
                target_kbps: match target_kbps {
                    Some(kbps) => kbps,
                    None => probe_target_kbps(stream_cap_kbps),
                },
                fire_at: if armed && !ramp {
                    Some(total(now, PROBE_DELAY))
                } else {
                    None
                },
                result_by: None,
                active: false,
                watchdog: None,
                frames_at_start: 0,
                step: false,
                no_evidence: !armed,
                pinned: false,
            },
            ramp: if armed && ramp {
                Some(Ramp::new(ramp_max_kbps(stream_cap_kbps, target_kbps), now))
            } else {
                None
            },
            history: Seq::empty(),
        }
    }

    /// A pinned session's measurement that has not begun.
    pub open spec fn fresh_pinned(
        armed: bool,
        target_kbps: Option<u32>,
        pin_kbps: u32,
        now: u64,
    ) -> ProbeView {
        ProbeView {
            burst: Burst {
                target_kbps: 0,
                fire_at: None,
                result_by: None,
                active: false,
                watchdog: None,
                frames_at_start: 0,
                step: false,
                no_evidence: !armed,
                pinned: true,
            },
            ramp: if armed {
                Some(Ramp::new(pinned_ramp_max_kbps(pin_kbps, target_kbps), now))
            } else {
                None
            },
            history: Seq::empty(),
        }
    }

    /// After a burst went in or out of flight.
    pub open spec fn activated(
        self,
        active: bool,
        duration_ms: u32,
        frames_completed: u64,
        now: u64,
    ) -> ProbeView {
        let starts = !self.burst.active && active;
        ProbeView {
            burst: Burst {
                active,
                watchdog: if starts {
                    Some(total(now, total((duration_ms * NS_PER_MS) as u64, PROBE_TIMEOUT)))
                } else if active {
                    self.burst.watchdog
                } else {
                    None
                },
                frames_at_start: if starts {
                    frames_completed
                } else {
                    self.burst.frames_at_start
                },
                step: if starts {
                    self.ramping()
                } else {
                    self.burst.step
                },
                ..self.burst
            },
            ..self
        }
    }

    /// After a poll of a ramp that is running: the first step, the next one
    /// once the last drained, or the end of it at the first video frame.
    pub open spec fn ramp_polled(self, now: u64, video_aus: u64) -> (ProbeView, Option<(u32, u32)>) {
        let r = self.ramp->0;
        if video_aus > 0 {
            (ProbeView { ramp: Some(r.cut(now)), ..self }, None)
        } else if r.step is Some {
            let (ramp, ended, ask) = r.settled(now);
            (
                ProbeView {
                    ramp: Some(ramp),
                    history: match ended {
                        Some(step) => self.history.push(step),
                        None => self.history,
                    },
                    ..self
                },
                ask,
            )
        } else {
            (ProbeView { ramp: Some(r.begun(now)), ..self }, Some(r.next_ask()))
        }
    }

    /// After a poll, and what it fires: the next ramp step, or the burst once
    /// video is flowing.
    pub open spec fn polled(self, now: u64, frames_completed: u64, video_aus: u64) -> (
        ProbeView,
        Option<(u32, u32)>,
    ) {
        if self.ramping() {
            self.ramp_polled(now, video_aus)
        } else if !past(self.burst.fire_at, now) {
            (self, None)
        } else if self.burst.active || frames_completed == 0 {
            (
                ProbeView {
                    burst: Burst { fire_at: Some(total(now, PROBE_DELAY)), ..self.burst },
                    ..self
                },
                None,
            )
        } else {
            (
                ProbeView {
                    burst: Burst {
                        fire_at: None,
                        result_by: Some(total(now, PROBE_TIMEOUT)),
                        ..self.burst
                    },
                    ..self
                },
                Some((self.burst.target_kbps, PROBE_MS)),
            )
        }
    }

    /// After a request that never left: nothing is in flight, so nothing is
    /// owed.
    pub open spec fn dropped(self, now: u64) -> ProbeView {
        ProbeView {
            burst: Burst { result_by: None, ..self.burst },
            ramp: match self.ramp {
                Some(r) => Some(r.cut(now)),
                None => None,
            },
            ..self
        }
    }

    /// The ramp's step in flight is past its deadline.
    pub open spec fn step_expired(self, now: u64) -> bool {
        self.ramp is Some && self.ramp->0.step is Some && now >= self.ramp->0.step->0.deadline
    }

    /// After the deadlines were looked at, and whether one had passed: the
    /// step's, then any burst's, then our own result's.
    pub open spec fn lapsed(self, now: u64) -> (ProbeView, bool) {
        if self.step_expired(now) {
            (
                ProbeView {
                    ramp: Some(self.ramp->0.cut(now)),
                    burst: Burst { active: false, watchdog: None, ..self.burst },
                    ..self
                },
                true,
            )
        } else if past(self.burst.watchdog, now) {
            (
                ProbeView {
                    burst: Burst { active: false, watchdog: None, ..self.burst },
                    ..self
                },
                true,
            )
        } else if past(self.burst.result_by, now) {
            (
                ProbeView {
                    burst: Burst { result_by: None, no_evidence: true, ..self.burst },
                    ..self
                },
                true,
            )
        } else {
            (self, false)
        }
    }

    /// After the ramp's verdict was taken. One cut short leaves the wall
    /// unmeasured, so a burst is armed to finish the job; a pinned session
    /// has no use for one.
    pub open spec fn verdict_taken(self, now: u64) -> (ProbeView, Option<Ramped>) {
        match self.ramp {
            None => (self, None),
            Some(r) => match r.outcome {
                None => (self, None),
                Some(out) => (
                    ProbeView {
                        ramp: Some(Ramp { outcome: None, ..r }),
                        burst: if r.cut_short && !self.burst.pinned {
                            Burst {
                                fire_at: Some(total(now, PROBE_DELAY)),
                                no_evidence: false,
                                ..self.burst
                            }
                        } else {
                            self.burst
                        },
                        ..self
                    },
                    Some(out),
                ),
            },
        }
    }

    /// After a report. A ramp step folds it in; our own burst is answered
    /// once, because the same report keeps arriving.
    pub open spec fn resulted(self, r: ProbeReport, now: u64) -> (ProbeView, Measured) {
        if self.ramping() {
            let (ramp, ended) = self.ramp->0.reported(r, now);
            (
                ProbeView {
                    ramp: Some(ramp),
                    history: match ended {
                        Some(step) => self.history.push(step),
                        None => self.history,
                    },
                    ..self
                },
                Measured::NotOurs,
            )
        } else if self.burst.result_by is None {
            (self, Measured::NotOurs)
        } else {
            (
                ProbeView {
                    burst: Burst {
                        result_by: None,
                        no_evidence: self.burst.no_evidence || read_burst(&r)
                            == Measured::Declined,
                        ..self.burst
                    },
                    ..self
                },
                read_burst(&r),
            )
        }
    }

    /// What the ramp came to, once it has stopped.
    pub open spec fn summary(self) -> Option<RampSummary> {
        match self.ramp {
            Some(r) => if r.done {
                Some(
                    RampSummary {
                        wall: r.wall,
                        proven_kbps: r.proven_kbps,
                        steps: r.steps,
                        asked_bytes: r.spent_bytes,
                        took_ms: r.stopped_ms,
                    },
                )
            } else {
                None
            },
            None => None,
        }
    }
}

impl CapacityProbe {
    /// `armed` is a session that measures at all; `ramp` is a host that
    /// serves probe requests during bring-up. No target sizes the burst from
    /// the stream cap.
    pub fn new(
        armed: bool,
        ramp: bool,
        target_kbps: Option<u32>,
        stream_cap_kbps: u32,
        now: u64,
    ) -> (p: Self)
        ensures
            p@.wf(),
            p@ == ProbeView::fresh(armed, ramp, target_kbps, stream_cap_kbps, now),
    {
        let p = CapacityProbe {
            burst: Burst {
                target_kbps: match target_kbps {
                    Some(kbps) => kbps,
                    None => probe_target_kbps(stream_cap_kbps),
                },
                fire_at: if armed && !ramp {
                    Some(total(now, PROBE_DELAY))
                } else {
                    None
                },
                result_by: None,
                active: false,
                watchdog: None,
                frames_at_start: 0,
                step: false,
                no_evidence: !armed,
                pinned: false,
            },
            ramp: if armed && ramp {
                Some(Ramp::new(ramp_max_kbps(stream_cap_kbps, target_kbps), now))
            } else {
                None
            },
            history: Vec::new(),
        };
        assert(p.history@ =~= Seq::empty());
        p
    }

    /// A pinned session's measurement: the ramp sizes the pin, and no burst
    /// follows it.
    pub fn for_pinned(armed: bool, target_kbps: Option<u32>, pin_kbps: u32, now: u64) -> (p: Self)
        ensures
            p@.wf(),
            p@ == ProbeView::fresh_pinned(armed, target_kbps, pin_kbps, now),
    {
        let p = CapacityProbe {
            burst: Burst {
                target_kbps: 0,
                fire_at: None,
                result_by: None,
                active: false,
                watchdog: None,
                frames_at_start: 0,
                step: false,
                no_evidence: !armed,
                pinned: true,
            },
            ramp: if armed {
                Some(Ramp::new(pinned_ramp_max_kbps(pin_kbps, target_kbps), now))
            } else {
                None
            },
            history: Vec::new(),
        };
        assert(p.history@ =~= Seq::empty());
        p
    }

    pub fn active(&self) -> (r: bool)
        ensures
            r == self@.burst.active,
    {
        self.burst.active
    }

    /// A burst went in or out of flight. `Some` on the trailing edge: the
    /// frames completed when it started.
    pub fn on_active(
        &mut self,
        active: bool,
        duration_ms: u32,
        frames_completed: u64,
        now: u64,
    ) -> (ended: Option<u64>)
        requires
            old(self)@.wf(),
        ensures
            final(self)@.wf(),
            final(self)@ == old(self)@.activated(active, duration_ms, frames_completed, now),
            ended == if old(self)@.burst.active && !active {
                Some(old(self)@.burst.frames_at_start)
            } else {
                None
            },
    {
        let ended = self.burst.active && !active;
        let starts = !self.burst.active && active;
        let frames_at_start: u64 = self.burst.frames_at_start;
        let burst_ns: u64 = duration_ms as u64 * NS_PER_MS;
        self.burst =
        Burst {
            active,
            watchdog: if starts {
                Some(total(now, total(burst_ns, PROBE_TIMEOUT)))
            } else if active {
                self.burst.watchdog
            } else {
                None
            },
            frames_at_start: if starts {
                frames_completed
            } else {
                frames_at_start
            },
            step: if starts {
                self.ramping()
            } else {
                self.burst.step
            },
            ..self.burst
        };
        if ended {
            Some(frames_at_start)
        } else {
            None
        }
    }

    /// Fire what is due. `frames_completed` counts the burst's own filler, so
    /// the ramp reads `video_aus`, which counts picture alone.
    pub fn poll(&mut self, now: u64, frames_completed: u64, video_aus: u64) -> (ask: Option<
        (u32, u32),
    >)
        requires
            old(self)@.wf(),
        ensures
            final(self)@.wf(),
            (final(self)@, ask) == old(self)@.polled(now, frames_completed, video_aus),
    {
        if let Some(r) = self.ramp {
            if !r.done {
                return self.poll_ramp(now, video_aus);
            }
        }
        if !past(self.burst.fire_at, now) {
            return None;
        }
        if self.burst.active || frames_completed == 0 {
            self.burst = Burst { fire_at: Some(total(now, PROBE_DELAY)), ..self.burst };
            return None;
        }
        self.burst =
        Burst { fire_at: None, result_by: Some(total(now, PROBE_TIMEOUT)), ..self.burst };
        Some((self.burst.target_kbps, PROBE_MS))
    }

    fn poll_ramp(&mut self, now: u64, video_aus: u64) -> (ask: Option<(u32, u32)>)
        requires
            old(self)@.wf(),
            old(self)@.ramping(),
        ensures
            final(self)@.wf(),
            (final(self)@, ask) == old(self)@.ramp_polled(now, video_aus),
    {
        let mut ask: Option<(u32, u32)> = None;
        if let Some(mut r) = self.ramp {
            if video_aus > 0 {
                r.no_wall(now);
            } else if r.step.is_some() {
                let (ended, next): (Option<RampStep>, Option<(u32, u32)>) = r.settle(now);
                if let Some(step) = ended {
                    self.history.push(step);
                }
                ask = next;
            } else {
                ask = Some(r.begin(now));
            }
            self.ramp = Some(r);
        }
        ask
    }

    /// The request never reached the host: nothing is in flight.
    pub fn on_dropped(&mut self, now: u64)
        requires
            old(self)@.wf(),
        ensures
            final(self)@.wf(),
            final(self)@ == old(self)@.dropped(now),
    {
        self.burst = Burst { result_by: None, ..self.burst };
        if let Some(mut r) = self.ramp {
            r.no_wall(now);
            self.ramp = Some(r);
        }
    }

    /// `true` when something in flight went unanswered and has to be let go
    /// so that reports resume.
    pub fn expired(&mut self, now: u64) -> (r: bool)
        requires
            old(self)@.wf(),
        ensures
            final(self)@.wf(),
            (final(self)@, r) == old(self)@.lapsed(now),
    {
        if let Some(mut r) = self.ramp {
            if let Some(step) = r.step {
                if now >= step.deadline {
                    r.no_wall(now);
                    self.ramp = Some(r);
                    self.burst = Burst { active: false, watchdog: None, ..self.burst };
                    return true;
                }
            }
        }
        if past(self.burst.watchdog, now) {
            self.burst = Burst { active: false, watchdog: None, ..self.burst };
            return true;
        }
        if past(self.burst.result_by, now) {
            self.burst = Burst { result_by: None, no_evidence: true, ..self.burst };
            return true;
        }
        false
    }

    /// Nothing measured the link and nothing will. Taken once.
    pub fn take_no_evidence(&mut self) -> (r: bool)
        requires
            old(self)@.wf(),
        ensures
            final(self)@.wf(),
            final(self)@ == (ProbeView {
                burst: Burst { no_evidence: false, ..old(self)@.burst },
                ..old(self)@
            }),
            r == old(self)@.burst.no_evidence,
    {
        let r = self.burst.no_evidence;
        self.burst = Burst { no_evidence: false, ..self.burst };
        r
    }

    /// The ramp's verdict, once.
    pub fn take_ramped(&mut self, now: u64) -> (out: Option<Ramped>)
        requires
            old(self)@.wf(),
        ensures
            final(self)@.wf(),
            (final(self)@, out) == old(self)@.verdict_taken(now),
    {
        let mut r: Ramp = match self.ramp {
            Some(r) => r,
            None => {
                return None;
            },
        };
        let out: Ramped = match r.outcome {
            Some(out) => out,
            None => {
                return None;
            },
        };
        r.outcome = None;
        self.ramp = Some(r);
        if r.cut_short && !self.burst.pinned {
            self.burst =
            Burst { fire_at: Some(total(now, PROBE_DELAY)), no_evidence: false, ..self.burst };
        }
        Some(out)
    }

    /// Every step the ramp settled, oldest first.
    pub fn ramp_steps(&self) -> (steps: &[RampStep])
        ensures
            steps@ == self@.history,
    {
        self.history.as_slice()
    }

    pub fn ramp_summary(&self) -> (s: Option<RampSummary>)
        ensures
            s == self@.summary(),
    {
        match self.ramp {
            Some(r) => {
                if r.done {
                    Some(
                        RampSummary {
                            wall: r.wall,
                            proven_kbps: r.proven_kbps,
                            steps: r.steps,
                            asked_bytes: r.spent_bytes,
                            took_ms: r.stopped_ms,
                        },
                    )
                } else {
                    None
                }
            },
            None => None,
        }
    }

    /// The next burst fired would be a ramp step.
    pub fn ramping(&self) -> (r: bool)
        ensures
            r == self@.ramping(),
    {
        match self.ramp {
            Some(r) => !r.done,
            None => false,
        }
    }

    /// The ramp stopped before it had measured what it meant to.
    pub fn ramp_cut_short(&self) -> (r: bool)
        ensures
            r == (self@.ramp is Some && self@.ramp->0.cut_short),
    {
        match self.ramp {
            Some(r) => r.cut_short,
            None => false,
        }
    }

    /// This session measures with a ramp.
    pub fn has_ramp(&self) -> (r: bool)
        ensures
            r == (self@.ramp is Some),
    {
        self.ramp.is_some()
    }

    /// The host's report of a burst or a step.
    pub fn on_result(&mut self, r: ProbeReport, now: u64) -> (m: Measured)
        requires
            old(self)@.wf(),
        ensures
            final(self)@.wf(),
            (final(self)@, m) == old(self)@.resulted(r, now),
    {
        if let Some(mut ramp) = self.ramp {
            if !ramp.done {
                let ended: Option<RampStep> = ramp.on_report(r, now);
                if let Some(step) = ended {
                    self.history.push(step);
                }
                self.ramp = Some(ramp);
                return Measured::NotOurs;
            }
        }
        if self.burst.result_by.is_none() {
            return Measured::NotOurs;
        }
        let m: Measured = read_burst(&r);
        self.burst =
        Burst {
            result_by: None,
            no_evidence: self.burst.no_evidence || m == Measured::Declined,
            ..self.burst
        };
        m
    }
}

/// A step cannot prove more than it asked for.
pub proof fn law_a_step_proves_no_more_than_it_asked(step: Step, r: ProbeReport)
    ensures
        step_rate_kbps(&step, &r) <= step.target_kbps,
{
}

/// A step is at most its own length, at least a millisecond, and under the
/// byte cap wherever a millisecond of it is.
pub proof fn law_a_step_is_capped_in_bytes_and_time(target_kbps: u32)
    requires
        target_kbps <= 8 * RAMP_STEP_BYTES,
    ensures
        1 <= step_ms(target_kbps) <= RAMP_STEP_MS,
        target_kbps * step_ms(target_kbps) / 8 <= RAMP_STEP_BYTES,
{
    let target = higher(target_kbps, 1) as int;
    let by_bytes = 128_000_000int / target;
    assert(1 <= by_bytes <= 128_000_000 && by_bytes * target <= 128_000_000) by (nonlinear_arith)
        requires
            1 <= target <= 128_000_000,
            by_bytes == 128_000_000int / target,
    ;
    let ms = step_ms(target_kbps) as int;
    assert(target_kbps * ms <= 128_000_000) by (nonlinear_arith)
        requires
            0 <= target_kbps <= target,
            0 <= ms <= by_bytes,
            by_bytes * target <= 128_000_000,
    ;
}

/// The ramp's first stop wins, and a stopped ramp has no step in flight.
pub proof fn law_the_first_stop_wins(r: Ramp, first: Ramped, second: Ramped, t1: u64, t2: u64)
    requires
        !r.done,
    ensures
        r.stopped(first, t1).stopped(second, t2) == r.stopped(first, t1),
        r.stopped(first, t1).outcome == Some(first),
        r.stopped(first, t1).step is None,
        r.stopped(first, t1).done,
{
}

/// No ramp step asks above the ramp's maximum, whatever happened before.
pub proof fn law_the_ramp_never_asks_above_its_maximum(
    p: ProbeView,
    now: u64,
    frames_completed: u64,
    video_aus: u64,
)
    requires
        p.wf(),
        p.ramping(),
    ensures
        p.polled(now, frames_completed, video_aus).1 matches Some((kbps, _)) ==> kbps
            <= p.ramp->0.max_kbps,
        p.polled(now, frames_completed, video_aus).0.ramp->0.max_kbps == p.ramp->0.max_kbps,
{
}

/// The first video frame ends the ramp where it stands, and from then on no
/// step goes out: the poll that sees it asks nothing, and no later poll ramps.
pub proof fn law_video_ends_the_ramp(
    p: ProbeView,
    now: u64,
    frames_completed: u64,
    video_aus: u64,
)
    requires
        p.wf(),
        p.ramping(),
        video_aus > 0,
    ensures
        p.polled(now, frames_completed, video_aus).1 is None,
        !p.polled(now, frames_completed, video_aus).0.ramping(),
        p.polled(now, frames_completed, video_aus).0.ramp->0.outcome == Some(
            Ramped::NoWall { proven_kbps: p.ramp->0.proven_kbps },
        ),
{
}

/// A ramp that was not cut short arms no burst, and a pinned session never
/// does.
pub proof fn law_a_finished_ramp_never_bursts(p: ProbeView, now: u64)
    requires
        p.ramp is Some,
        !p.ramp->0.cut_short || p.burst.pinned,
    ensures
        p.verdict_taken(now).0.burst == p.burst,
{
}

/// A finished burst is measured exactly once: the same report again is not
/// ours, and changes nothing.
pub proof fn law_a_burst_is_measured_once(p: ProbeView, r: ProbeReport, again: ProbeReport, t: u64)
    requires
        !p.ramping(),
    ensures
        p.resulted(r, t).0.resulted(again, t) == (p.resulted(r, t).0, Measured::NotOurs),
{
}

/// Every verdict is taken once.
pub proof fn law_a_verdict_is_taken_once(p: ProbeView, t1: u64, t2: u64)
    ensures
        p.verdict_taken(t1).0.verdict_taken(t2) == (p.verdict_taken(t1).0, None::<Ramped>),
{
}

/// A wall licenses less than it delivered, and a session opens at no more
/// than half of what was proved.
pub proof fn law_a_measurement_holds_back(kbps: u32, stream_cap_kbps: u32)
    ensures
        wall_ceiling_kbps(kbps) <= kbps,
        kbps >= 4 ==> wall_ceiling_kbps(kbps) < kbps,
        ramp_start_kbps(kbps, stream_cap_kbps) <= kbps / 2,
        ramp_start_kbps(kbps, stream_cap_kbps) <= stream_cap_kbps / MODE_RATE_DIV,
{
}

/// A burst proves every stream cap up to 70 % of the hard ceiling without
/// asking for more than twice it, and the ramp's own maximum proves every cap
/// it can name.
pub proof fn law_the_target_proves_the_stream_cap(cap: u32)
    ensures
        cap <= 1_400_000 ==> times(probe_target_kbps(cap), 7) / 10 >= cap,
        probe_target_kbps(cap) <= times(cap, 2),
        ramp_max_kbps(cap, None) < u32::MAX ==> ramp_max_kbps(cap, None) * 7 / 10 >= cap,
{
}

/// What is asked of a link is sized by what the stream can use: a burst by
/// twice the cap, a ramp by the least rate whose seven tenths are the cap, and
/// a pinned ramp by eight times the pin; the operator's bound holds of both
/// ramps.
pub proof fn law_a_measurement_is_sized_by_the_stream(cap: u32, env: Option<u32>)
    ensures
        cap <= 1_000_000 ==> probe_target_kbps(cap) == 2 * cap,
        cap > 1_000_000 ==> probe_target_kbps(cap) == 2_000_000,
        cap <= 3_000_000_000 ==> {
            &&& ramp_max_kbps(cap, None) * 7 >= cap * 10
            &&& cap > 0 ==> (ramp_max_kbps(cap, None) - 1) * 7 < cap * 10
        },
        cap <= 500_000_000 ==> pinned_ramp_max_kbps(cap, None) == cap * 8,
        env matches Some(bound) ==> {
            &&& ramp_max_kbps(cap, env) <= bound && pinned_ramp_max_kbps(cap, env) <= bound
            &&& ramp_max_kbps(cap, env) == bound || ramp_max_kbps(cap, env) == ramp_max_kbps(
                cap,
                None,
            )
            &&& ramp_max_kbps(cap, env) <= ramp_max_kbps(cap, None)
            &&& pinned_ramp_max_kbps(cap, env) == bound || pinned_ramp_max_kbps(cap, env)
                == pinned_ramp_max_kbps(cap, None)
            &&& pinned_ramp_max_kbps(cap, env) <= pinned_ramp_max_kbps(cap, None)
        },
{
}

/// A session opens at half of what was proved or a fifth of the cap, whichever
/// is less; a wall licenses seven tenths of what it delivered.
pub proof fn law_an_opening_is_half_or_a_fifth(proven: u32, cap: u32)
    ensures
        ramp_start_kbps(proven, cap) == proven / 2 || ramp_start_kbps(proven, cap) == cap / 5,
        ramp_start_kbps(proven, cap) <= proven / 2 && ramp_start_kbps(proven, cap) <= cap / 5,
        wall_ceiling_kbps(proven) * 10 <= proven * 7 < wall_ceiling_kbps(proven) * 10 + 10,
{
    assert(proven * 70 / 100 <= proven) by (nonlinear_arith)
        requires
            proven >= 0,
    ;
}

/// A burst is worth seven tenths of the rate it delivered, and a wall at that
/// rate exactly where the link refused it; one that sent nothing, or of which
/// nothing came, was declined.
pub proof fn law_a_burst_is_worth_what_it_delivered(r: ProbeReport)
    requires
        r.window_ms > 0,
        r.delivered_bytes <= 50_000_000,
    ensures
        r.host_duration_ms == 0 || r.delivered_bytes == 0 ==> read_burst(&r) == Measured::Declined,
        r.host_duration_ms > 0 && r.delivered_bytes > 0 ==> (read_burst(
            &r,
        ) matches Measured::Ceiling { ceiling_kbps, wall_kbps } && {
            let rate = burst_rate_kbps(&r);
            &&& rate * r.window_ms <= r.delivered_bytes * 8 < (rate + 1) * r.window_ms
            &&& ceiling_kbps * 10 <= rate * 7 < ceiling_kbps * 10 + 10
            &&& link_refused(&r) ==> wall_kbps == Some(rate)
            &&& !link_refused(&r) ==> wall_kbps is None
        }),
{
    let bits = r.delivered_bytes * 8;
    let ms = r.window_ms as int;
    vstd::arithmetic::div_mod::lemma_fundamental_div_mod(bits, ms);
    vstd::arithmetic::div_mod::lemma_mod_bound(bits, ms);
    let q = bits / ms;
    assert(ms * q == q * ms && (q + 1) * ms == q * ms + ms) by (nonlinear_arith);
    assert(0 <= q <= bits) by (nonlinear_arith)
        requires
            bits >= 0,
            ms > 0,
            q == bits / ms,
    ;
}

/// A session that measures either ramps at once or bursts two seconds in,
/// never both; one that does not says that nothing will. A pinned session
/// never bursts.
pub proof fn law_a_measurement_is_armed_one_way(
    armed: bool,
    ramp: bool,
    target: Option<u32>,
    cap: u32,
    now: u64,
)
    requires
        now <= u64::MAX - 2_000_000_000,
    ensures
        ({
            let p = ProbeView::fresh(armed, ramp, target, cap, now);
            &&& p.ramping() <==> armed && ramp
            &&& p.burst.fire_at is Some <==> armed && !ramp
            &&& p.burst.fire_at matches Some(at) ==> at == now + 2_000_000_000
            &&& p.burst.no_evidence <==> !armed
            &&& !p.burst.active && p.burst.result_by is None && !p.burst.pinned
            &&& target matches Some(kbps) ==> p.burst.target_kbps == kbps
            &&& target is None ==> p.burst.target_kbps == probe_target_kbps(cap)
            &&& p.ramp matches Some(r) ==> r.next_kbps == 5_000 && r.proven_kbps == 0 && r.steps
                == 0 && r.started == now
        }),
        ({
            let p = ProbeView::fresh_pinned(armed, target, cap, now);
            &&& p.ramping() <==> armed
            &&& p.burst.fire_at is None && p.burst.pinned && (p.burst.no_evidence <==> !armed)
        }),
{
}

/// A burst fires once video flows and its time has come, at its target and for
/// its length, and its result is owed for fifteen seconds; while another is in
/// flight, or before the first frame, it waits two seconds more.
pub proof fn law_a_burst_fires_beside_video(p: ProbeView, at: u64, now: u64, frames: u64, aus: u64)
    requires
        !p.ramping(),
        p.burst.fire_at == Some(at),
        now <= u64::MAX - 20_000_000_000,
    ensures
        ({
            let (q, ask) = p.polled(now, frames, aus);
            &&& now < at ==> q == p && ask is None
            &&& now >= at && (p.burst.active || frames == 0) ==> ask is None && q.burst.fire_at
                == Some((now + 2_000_000_000) as u64) && q.burst.result_by == p.burst.result_by
            &&& now >= at && !p.burst.active && frames > 0 ==> ask == Some(
                (p.burst.target_kbps, 800u32),
            ) && q.burst.fire_at is None && q.burst.result_by == Some(
                (now + 15_000_000_000) as u64,
            )
        }),
{
}

/// A burst that starts is watched for its length and fifteen seconds more; its
/// end, or word that it never left, ends the watch.
pub proof fn law_a_burst_in_flight_is_watched(p: ProbeView, ms: u32, frames: u64, now: u64)
    requires
        now <= 0x1000_0000_0000_0000,
    ensures
        ({
            let q = p.activated(true, ms, frames, now);
            let e = p.activated(false, ms, frames, now);
            &&& q.burst.active && !e.burst.active
            &&& !p.burst.active ==> q.burst.frames_at_start == frames && q.burst.step == p.ramping()
                && (q.burst.watchdog matches Some(at) && at == now + ms * 1_000_000
                + 15_000_000_000)
            &&& p.burst.active ==> q.burst == p.burst
            &&& e.burst.watchdog is None && e.burst.frames_at_start == p.burst.frames_at_start
            &&& q.burst.fire_at == p.burst.fire_at && q.burst.result_by == p.burst.result_by
            &&& p.dropped(now).burst.result_by is None && !p.dropped(now).ramping()
        }),
{
}

/// A deadline that has passed is acted on once: a step's ends the ramp, any
/// burst's lets it go, and a result's says that nothing measured the link.
/// Before them nothing happens.
pub proof fn law_a_deadline_is_acted_on(p: ProbeView, now: u64)
    ensures
        ({
            let (q, abandoned) = p.lapsed(now);
            let step_late = p.ramp matches Some(r) && r.step matches Some(s) && now >= s.deadline;
            let burst_late = p.burst.watchdog matches Some(at) && now >= at;
            let result_late = p.burst.result_by matches Some(at) && now >= at;
            &&& abandoned <==> step_late || burst_late || result_late
            &&& !abandoned ==> q == p
            &&& step_late ==> !q.ramping() && !q.burst.active && q.burst.watchdog is None
            &&& !step_late && burst_late ==> !q.burst.active && q.burst.watchdog is None && q.ramp
                == p.ramp
            &&& !step_late && !burst_late && result_late ==> q.burst.result_by is None
                && q.burst.no_evidence && q.burst.active == p.burst.active
        }),
{
}

/// A report is ours only while a result is owed; then it is worth what it
/// delivered, and one that was declined says that nothing measured the link.
pub proof fn law_a_report_is_ours_while_owed(p: ProbeView, r: ProbeReport, now: u64)
    requires
        !p.ramping(),
    ensures
        p.burst.result_by is None ==> p.resulted(r, now) == (p, Measured::NotOurs),
        p.burst.result_by is Some ==> {
            &&& p.resulted(r, now).1 == read_burst(&r)
            &&& p.resulted(r, now).0.burst.result_by is None
            &&& p.resulted(r, now).0.burst.no_evidence == (p.burst.no_evidence
                || r.host_duration_ms == 0 || r.delivered_bytes == 0)
            &&& p.resulted(r, now).0.burst.active == p.burst.active
        },
{
}

/// A ramp's verdict is the one it stopped with. One that was cut short arms a
/// burst two seconds later, unless the session is pinned.
pub proof fn law_a_cut_ramp_arms_a_burst(p: ProbeView, r: Ramp, now: u64)
    requires
        p.ramp == Some(r),
        now <= u64::MAX - 2_000_000_000,
    ensures
        p.verdict_taken(now).1 == r.outcome,
        r.outcome is Some && r.cut_short && !p.burst.pinned ==> p.verdict_taken(
            now,
        ).0.burst.fire_at == Some((now + 2_000_000_000) as u64),
        r.outcome is None ==> p.verdict_taken(now).0 == p,
        p.verdict_taken(now).0.ramp matches Some(q) && q.outcome is None && q.done == r.done
            && q.proven_kbps == r.proven_kbps && q.wall == r.wall,
{
}

/// What a ramp came to is known once it has stopped, and is what it kept.
pub proof fn law_a_summary_is_what_the_ramp_kept(p: ProbeView)
    ensures
        p.summary() is Some <==> (p.ramp matches Some(r) && r.done),
        p.summary() matches Some(s) ==> s.wall == p.ramp->0.wall && s.proven_kbps
            == p.ramp->0.proven_kbps && s.steps == p.ramp->0.steps && s.asked_bytes
            == p.ramp->0.spent_bytes && s.took_ms == p.ramp->0.stopped_ms,
{
}

/// A running ramp is polled on: it ends at the first picture, takes its first
/// step where none is in flight, and otherwise settles the one that is; a step
/// that settled is written down.
pub proof fn law_a_running_ramp_is_polled_on(p: ProbeView, r: Ramp, now: u64, frames: u64, aus: u64)
    requires
        p.ramp == Some(r),
        p.ramping(),
    ensures
        ({
            let (after, ask) = p.polled(now, frames, aus);
            &&& aus > 0 ==> ask is None && after.ramp == Some(r.cut(now)) && after.history
                == p.history
            &&& aus == 0 && r.step is None ==> ask == Some(r.next_ask()) && after.ramp == Some(
                r.begun(now),
            ) && after.history == p.history
            &&& aus == 0 && r.step is Some ==> ({
                let (next, ended, asked) = r.settled(now);
                &&& ask == asked && after.ramp == Some(next)
                &&& ended is None ==> after.history == p.history
                &&& ended matches Some(step) ==> after.history == p.history.push(step)
            })
            &&& after.burst == p.burst
        }),
{
}

} // verus!
