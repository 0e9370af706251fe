//! The client's decoder: the knee it chokes at, and the headroom under it.

use super::cap::{LearnedCap, StandDown, StepProbe};
use super::sample::WindowSample;
use super::verdict::{Verdict, HEAVY_LOSS_PPM, RECOVERY_KF_BAD};
use crate::math::{apart, counted, higher};
use vstd::prelude::*;

verus! {

/// Decode time as a share of the frame budget: climbs park, the rate retreats.
pub const DECODE_HOLD_PCT: i64 = 80;

pub const DECODE_RETREAT_PCT: i64 = 90;

/// A step is answered when its signal moves by this share of the budget.
pub const ANSWER_PCT: i64 = 5;

/// One notch is an eighth.
pub const RETREAT_DIV: u32 = 8;

/// Two decode backoffs within an eighth of each other are one knee.
pub const DECODE_CAP_SIMILAR_DIV: u32 = 8;

/// A knee cap goes a sixteenth under the rate that choked.
pub const KNEE_DIV: u32 = 16;

/// Bad windows in a row before a decrease, when none of them is severe.
pub const BAD_WINDOWS_TO_DECREASE: u32 = 2;

/// One notch off `from_kbps`, never under the floor.
#[verifier::allow_in_spec]
pub fn notch(from_kbps: u32, floor_kbps: u32) -> u32
    returns
        higher((from_kbps - from_kbps / RETREAT_DIV) as u32, floor_kbps),
{
    higher(from_kbps - from_kbps / RETREAT_DIV, floor_kbps)
}

/// The move of a signal that answers a step.
#[verifier::allow_in_spec]
pub fn answer_us(budget_us: i64) -> i64
    requires
        0 <= budget_us <= 1_000_000,
    returns
        (budget_us * ANSWER_PCT / 100) as i64,
{
    budget_us * ANSWER_PCT / 100
}

/// `us` is at least `pct` percent of `budget_us`.
pub open spec fn reaches(us: i64, budget_us: i64, pct: i64) -> bool {
    us * 100 >= pct * budget_us
}

fn at_least_pct(us: i64, budget_us: i64, pct: i64) -> (r: bool)
    requires
        0 <= budget_us <= 1_000_000,
        0 <= pct <= 100,
    ensures
        r == reaches(us, budget_us, pct),
{
    assert(0 <= pct * budget_us <= 100_000_000) by (nonlinear_arith)
        requires
            0 <= budget_us <= 1_000_000,
            0 <= pct <= 100,
    ;
    us as i128 * 100 >= (pct * budget_us) as i128
}

/// The signal fell by at least `by` on the way from `was` to `now`.
pub open spec fn fell(was: i64, now: i64, by: i64) -> bool {
    was - now >= by
}

pub fn fell_by(was: i64, now: i64, by: i64) -> (r: bool)
    ensures
        r == fell(was, now, by),
{
    was as i128 - now as i128 >= by as i128
}

#[derive(Clone, Copy, Debug, PartialEq, Eq, Structural)]
pub enum DecodeProbeKind {
    Retreat,
    Lift,
}

/// A headroom step awaiting the decoder's answer at its new rate.
#[derive(Clone, Copy, Debug, PartialEq, Eq, Structural)]
pub struct DecodeProbe {
    pub kind: DecodeProbeKind,
    pub step: StepProbe,
}

impl DecodeProbe {
    /// The session runs at the rate the step asked for.
    #[verifier::allow_in_spec]
    pub fn reached(&self, rate: u32) -> bool
        returns
            (match self.kind {
                DecodeProbeKind::Retreat => rate < self.step.from_kbps,
                DecodeProbeKind::Lift => rate > self.step.from_kbps,
            }),
    {
        match self.kind {
            DecodeProbeKind::Retreat => rate < self.step.from_kbps,
            DecodeProbeKind::Lift => rate > self.step.from_kbps,
        }
    }

    /// The decode time a window at this rate lends the probe.
    #[verifier::allow_in_spec]
    pub fn signal(&self, rate: u32, mean_us: i64) -> Option<i64>
        returns
            (if self.reached(rate) {
                Some(mean_us)
            } else {
                None
            }),
    {
        if self.reached(rate) {
            Some(mean_us)
        } else {
            None
        }
    }

    /// The decoder did not give the step what it was for: a retreat that
    /// bought no time, or a lift that cost some.
    pub open spec fn refuted(self, mean_us: i64, budget_us: i64) -> bool {
        match self.kind {
            DecodeProbeKind::Retreat => !fell(self.step.ref_us, mean_us, answer_us(budget_us)),
            DecodeProbeKind::Lift => fell(mean_us, self.step.ref_us, answer_us(budget_us))
                || reaches(mean_us, budget_us, DECODE_RETREAT_PCT),
        }
    }
}

/// What is known of the decoder.
#[derive(Clone, Copy, Debug, PartialEq, Eq, Structural)]
pub struct DecoderLoad {
    pub cap: LearnedCap,
    /// The rate of the previous decode backoff, `0` when the last backoff was
    /// not the decoder's.
    pub backoff_kbps: u32,
    /// Decode-flagged windows in this bad streak.
    pub streak_windows: u32,
    /// A retreat or a lift waiting for the decoder's answer.
    pub probe: Option<DecodeProbe>,
    /// Decode time did not follow the rate.
    pub headroom: StandDown,
}

impl DecoderLoad {
    pub open spec fn wf(self) -> bool {
        &&& self.cap.wf()
        &&& self.headroom.wf()
        &&& (self.probe is Some ==> self.probe->0.step.wf())
    }

    #[verifier::allow_in_spec]
    pub fn new() -> DecoderLoad
        returns
            (DecoderLoad {
                cap: LearnedCap::new(),
                backoff_kbps: 0,
                streak_windows: 0,
                probe: None,
                headroom: StandDown::new(),
            }),
    {
        DecoderLoad {
            cap: LearnedCap::new(),
            backoff_kbps: 0,
            streak_windows: 0,
            probe: None,
            headroom: StandDown::new(),
        }
    }

    /// The load after a bad window: a lift that ran into damage failed, and a
    /// retreat learns nothing from it.
    pub open spec fn damaged(self, rate: u32, decode_bad: bool, floor_kbps: u32) -> DecoderLoad {
        DecoderLoad {
            streak_windows: if decode_bad {
                counted(self.streak_windows)
            } else {
                self.streak_windows
            },
            headroom: StandDown { clean: 0, ..self.headroom },
            probe: None,
            cap: match self.probe {
                Some(p) => if p.kind == DecodeProbeKind::Lift && p.reached(rate) {
                    self.cap.latched(p.step.from_kbps, floor_kbps)
                } else {
                    self.cap
                },
                None => self.cap,
            },
            ..self
        }
    }

    pub fn note_bad(&mut self, rate: u32, decode_bad: bool, floor_kbps: u32)
        requires
            old(self).wf(),
        ensures
            final(self).wf(),
            *final(self) == old(self).damaged(rate, decode_bad, floor_kbps),
    {
        if decode_bad {
            self.streak_windows = counted(self.streak_windows);
        }
        self.headroom.note_bad();
        if let Some(p) = self.probe {
            if p.kind == DecodeProbeKind::Lift && p.reached(rate) {
                let _ = self.cap.latch(p.step.from_kbps, floor_kbps);
            }
        }
        self.probe = None;
    }

    /// The load after one window on the cap's clock. A lift starts the probe
    /// whose answer decides whether it holds.
    pub open spec fn ticked(
        self,
        bad: bool,
        quiet: bool,
        rate: u32,
        ceiling: u32,
        decode_mean_us: Option<i64>,
    ) -> DecoderLoad {
        DecoderLoad {
            cap: self.cap.windowed(bad, quiet, rate, ceiling),
            probe: match self.cap.lift(bad, quiet, rate, ceiling) {
                Some((from, _)) => match decode_mean_us {
                    Some(us) => Some(
                        DecodeProbe { kind: DecodeProbeKind::Lift, step: StepProbe::new(from, us) },
                    ),
                    None => None,
                },
                None => self.probe,
            },
            ..self
        }
    }

    pub fn tick(
        &mut self,
        bad: bool,
        quiet: bool,
        rate: u32,
        ceiling: u32,
        decode_mean_us: Option<i64>,
    )
        requires
            old(self).wf(),
        ensures
            final(self).wf(),
            *final(self) == old(self).ticked(bad, quiet, rate, ceiling, decode_mean_us),
    {
        if let Some((from, _)) = self.cap.on_window(bad, quiet, rate, ceiling) {
            self.probe =
            match decode_mean_us {
                Some(us) => Some(
                    DecodeProbe { kind: DecodeProbeKind::Lift, step: StepProbe::new(from, us) },
                ),
                None => None,
            };
        }
    }

    /// The load after the decoder answered a step, and the rate to go back
    /// to when the answer refutes it. A refuted retreat stands the driver
    /// down: the time is not a function of the rate here. A refuted lift goes
    /// back to the cap, and the next one waits twice as long.
    pub open spec fn settled(self, p: DecodeProbe, mean_us: i64, budget_us: i64, floor_kbps: u32) -> (
        DecoderLoad,
        Option<u32>,
    ) {
        if !p.refuted(mean_us, budget_us) {
            (self, None)
        } else {
            match p.kind {
                DecodeProbeKind::Retreat => (
                    DecoderLoad {
                        headroom: self.headroom.switched_off(),
                        cap: LearnedCap { kbps: Some(p.step.from_kbps), ..self.cap },
                        ..self
                    },
                    Some(p.step.from_kbps),
                ),
                DecodeProbeKind::Lift => (
                    DecoderLoad { cap: self.cap.latched(p.step.from_kbps, floor_kbps), ..self },
                    Some(p.step.from_kbps),
                ),
            }
        }
    }

    pub fn settle_decode_step(
        &mut self,
        p: DecodeProbe,
        mean_us: i64,
        budget_us: i64,
        floor_kbps: u32,
    ) -> (back_to: Option<u32>)
        requires
            old(self).wf(),
            0 <= budget_us <= 1_000_000,
        ensures
            final(self).wf(),
            (*final(self), back_to) == old(self).settled(p, mean_us, budget_us, floor_kbps),
    {
        let answer: i64 = answer_us(budget_us);
        match p.kind {
            DecodeProbeKind::Retreat => {
                if fell_by(p.step.ref_us, mean_us, answer) {
                    return None;
                }
                self.headroom.disarm();
                self.cap.park(p.step.from_kbps);
                Some(p.step.from_kbps)
            },
            DecodeProbeKind::Lift => {
                let worse = fell_by(mean_us, p.step.ref_us, answer) || at_least_pct(
                    mean_us,
                    budget_us,
                    DECODE_RETREAT_PCT,
                );
                if !worse {
                    return None;
                }
                let _ = self.cap.latch(p.step.from_kbps, floor_kbps);
                Some(p.step.from_kbps)
            },
        }
    }

    /// The load after a clean full window read against the two bands, and the
    /// retreat it asks for.
    pub open spec fn banded(self, mean_us: i64, budget_us: i64, rate: u32, floor_kbps: u32) -> (
        DecoderLoad,
        Option<u32>,
    ) {
        if self.headroom.down {
            (DecoderLoad { headroom: self.headroom.cleaner(), ..self }, None)
        } else if reaches(mean_us, budget_us, DECODE_RETREAT_PCT) && rate > floor_kbps {
            (
                DecoderLoad {
                    cap: LearnedCap { kbps: Some(notch(rate, floor_kbps)), ..self.cap },
                    probe: Some(
                        DecodeProbe {
                            kind: DecodeProbeKind::Retreat,
                            step: StepProbe::new(rate, mean_us),
                        },
                    ),
                    ..self
                },
                Some(notch(rate, floor_kbps)),
            )
        } else if reaches(mean_us, budget_us, DECODE_HOLD_PCT) && (self.cap.kbps is None
            || self.cap.kbps->0 > rate) {
            (DecoderLoad { cap: LearnedCap { kbps: Some(rate), ..self.cap }, ..self }, None)
        } else {
            (self, None)
        }
    }

    fn read_bands(&mut self, mean_us: i64, budget_us: i64, rate: u32, floor_kbps: u32) -> (ask:
        Option<u32>)
        requires
            old(self).wf(),
            0 <= budget_us <= 1_000_000,
        ensures
            final(self).wf(),
            (*final(self), ask) == old(self).banded(mean_us, budget_us, rate, floor_kbps),
    {
        if self.headroom.disarmed() {
            let _ = self.headroom.note_clean();
            return None;
        }
        if at_least_pct(mean_us, budget_us, DECODE_RETREAT_PCT) && rate > floor_kbps {
            let next: u32 = notch(rate, floor_kbps);
            self.cap.park(next);
            self.probe =
            Some(
                DecodeProbe {
                    kind: DecodeProbeKind::Retreat,
                    step: StepProbe::new(rate, mean_us),
                },
            );
            return Some(next);
        }
        let uncapped = match self.cap.kbps {
            Some(c) => c > rate,
            None => true,
        };
        if at_least_pct(mean_us, budget_us, DECODE_HOLD_PCT) && uncapped {
            self.cap.park(rate);
        }
        None
    }

    /// The load after a clean full window: the answer to a step in flight
    /// first, then the bands.
    pub open spec fn judged(self, mean_us: i64, budget_us: i64, rate: u32, floor_kbps: u32) -> (
        DecoderLoad,
        Option<u32>,
    ) {
        match self.probe {
            None => self.banded(mean_us, budget_us, rate, floor_kbps),
            Some(p) => {
                let signal = p.signal(rate, mean_us);
                let noted = DecodeProbe { step: p.step.noted(signal), ..p };
                match p.step.answer(signal) {
                    None => (
                        DecoderLoad {
                            probe: if noted.step.expired() {
                                None
                            } else {
                                Some(noted)
                            },
                            ..self
                        },
                        None,
                    ),
                    Some(answer) => {
                        let (load, back_to) = DecoderLoad { probe: None, ..self }.settled(
                            noted,
                            answer,
                            budget_us,
                            floor_kbps,
                        );
                        if back_to is Some {
                            (load, back_to)
                        } else {
                            load.banded(mean_us, budget_us, rate, floor_kbps)
                        }
                    },
                }
            },
        }
    }

    /// Decode headroom on a clean full-rate window. `Some` is a rate to ask
    /// for: one notch down, or back to where a refuted step came from.
    pub fn judge_decode_headroom(
        &mut self,
        mean_us: i64,
        budget_us: i64,
        rate: u32,
        floor_kbps: u32,
    ) -> (ask: Option<u32>)
        requires
            old(self).wf(),
            0 <= budget_us <= 1_000_000,
        ensures
            final(self).wf(),
            (*final(self), ask) == old(self).judged(mean_us, budget_us, rate, floor_kbps),
    {
        if let Some(mut p) = self.probe {
            let signal: Option<i64> = p.signal(rate, mean_us);
            let answer: Option<i64> = p.step.note(signal);
            match answer {
                None => {
                    self.probe =
                    if p.step.expired() {
                        None
                    } else {
                        Some(p)
                    };
                    return None;
                },
                Some(answer) => {
                    self.probe = None;
                    let back_to: Option<u32> = self.settle_decode_step(
                        p,
                        answer,
                        budget_us,
                        floor_kbps,
                    );
                    if back_to.is_some() {
                        return back_to;
                    }
                },
            }
        }
        self.read_bands(mean_us, budget_us, rate, floor_kbps)
    }

    /// The window's damage is the decoder's: deep decode time, a streak of
    /// it, keyframe asks without a loss share, or a flush nothing on the
    /// decoder contradicts.
    pub open spec fn evidence(self, w: WindowSample, v: Verdict) -> bool {
        ||| v.decode_severe
        ||| self.streak_windows >= BAD_WINDOWS_TO_DECREASE
        ||| (w.recovery_kf >= RECOVERY_KF_BAD && w.loss_ppm < HEAVY_LOSS_PPM)
        ||| (w.flushed && (v.decode_bad || v.decode_mean_us is None))
    }

    /// Two chokes within an eighth of each other.
    #[verifier::allow_in_spec]
    pub fn choked_before(&self, rate: u32) -> bool
        returns
            self.backoff_kbps > 0 && apart(rate, self.backoff_kbps) <= self.backoff_kbps
                / DECODE_CAP_SIMILAR_DIV,
    {
        self.backoff_kbps > 0 && apart(rate, self.backoff_kbps) <= self.backoff_kbps
            / DECODE_CAP_SIMILAR_DIV
    }

    /// Just under the rate that choked, never under the floor.
    #[verifier::allow_in_spec]
    pub fn knee_under(rate: u32, floor_kbps: u32) -> u32
        returns
            higher((rate - rate / KNEE_DIV) as u32, floor_kbps),
    {
        higher(rate - rate / KNEE_DIV, floor_kbps)
    }

    /// The load after a backoff. Without a climb behind it, or starved, it
    /// samples nothing; otherwise it is a knee sample or the end of one.
    pub open spec fn backed_off(
        self,
        w: WindowSample,
        v: Verdict,
        rate: u32,
        climbed: bool,
        floor_kbps: u32,
    ) -> DecoderLoad {
        if !climbed || v.starved {
            self
        } else if self.evidence(w, v) {
            DecoderLoad {
                cap: if self.choked_before(rate) {
                    self.cap.latched(DecoderLoad::knee_under(rate, floor_kbps), floor_kbps)
                } else {
                    self.cap
                },
                backoff_kbps: rate,
                ..self
            }
        } else {
            DecoderLoad { backoff_kbps: 0, ..self }
        }
    }

    /// Two decode-driven backoffs at a similar climbed-to rate are a knee.
    pub fn learn_knee(
        &mut self,
        w: &WindowSample,
        v: &Verdict,
        rate: u32,
        climbed: bool,
        floor_kbps: u32,
    )
        requires
            old(self).wf(),
        ensures
            final(self).wf(),
            *final(self) == old(self).backed_off(*w, *v, rate, climbed, floor_kbps),
    {
        let evidence = v.decode_severe || self.streak_windows >= BAD_WINDOWS_TO_DECREASE || (
        w.recovery_kf >= RECOVERY_KF_BAD && w.loss_ppm < HEAVY_LOSS_PPM) || (w.flushed && (
        v.decode_bad || v.decode_mean_us.is_none()));
        if !climbed || v.starved {
            return;
        }
        if evidence {
            if self.choked_before(rate) {
                let _ = self.cap.latch(DecoderLoad::knee_under(rate, floor_kbps), floor_kbps);
            }
            self.backoff_kbps = rate;
        } else {
            self.backoff_kbps = 0;
        }
    }
}

/// A step the decoder refutes is undone exactly: the ask is the rate the step
/// left, and the cap stands there too, where the floor allows it.
pub proof fn law_a_refuted_step_is_undone(
    load: DecoderLoad,
    p: DecodeProbe,
    mean_us: i64,
    budget_us: i64,
    floor_kbps: u32,
)
    requires
        load.wf(),
        p.step.from_kbps >= floor_kbps,
    ensures
        load.settled(p, mean_us, budget_us, floor_kbps).1 is Some <==> p.refuted(
            mean_us,
            budget_us,
        ),
        p.refuted(mean_us, budget_us) ==> {
            &&& load.settled(p, mean_us, budget_us, floor_kbps).1 == Some(p.step.from_kbps)
            &&& load.settled(p, mean_us, budget_us, floor_kbps).0.cap.kbps == Some(
                p.step.from_kbps,
            )
        },
{
}

/// Two chokes at a similar climbed-to rate leave a cap under the second.
pub proof fn law_two_similar_chokes_are_a_knee(
    load: DecoderLoad,
    w: WindowSample,
    v: Verdict,
    rate: u32,
    floor_kbps: u32,
)
    requires
        load.wf(),
        load.choked_before(rate),
        load.evidence(w, v),
        !v.starved,
    ensures
        load.backed_off(w, v, rate, true, floor_kbps).cap.kbps == Some(
            DecoderLoad::knee_under(rate, floor_kbps),
        ),
        load.backed_off(w, v, rate, true, floor_kbps).backoff_kbps == rate,
{
}

/// A notch takes an eighth off and stops at the floor; a step is answered by a
/// twentieth of the frame budget.
pub proof fn law_a_notch_is_an_eighth(from_kbps: u32, floor_kbps: u32, budget_us: i64)
    requires
        0 <= budget_us <= 1_000_000,
    ensures
        notch(from_kbps, floor_kbps) >= floor_kbps,
        8 * (from_kbps - notch(from_kbps, floor_kbps)) <= from_kbps,
        from_kbps - from_kbps / 8 >= floor_kbps ==> notch(from_kbps, floor_kbps) == from_kbps
            - from_kbps / 8,
        from_kbps - from_kbps / 8 < floor_kbps ==> notch(from_kbps, floor_kbps) == floor_kbps,
        20 * answer_us(budget_us) <= budget_us < 20 * answer_us(budget_us) + 20,
{
}

/// A retreat is refuted where decode time fell by less than a twentieth of the
/// budget, a lift where it rose by that much or reached nine tenths of it.
pub proof fn law_a_step_is_held_to_its_promise(p: DecodeProbe, mean_us: i64, budget_us: i64)
    requires
        0 <= budget_us <= 1_000_000,
    ensures
        p.kind == DecodeProbeKind::Retreat ==> (p.refuted(mean_us, budget_us) <==> p.step.ref_us
            - mean_us < budget_us / 20),
        p.kind == DecodeProbeKind::Lift ==> (p.refuted(mean_us, budget_us) <==> (mean_us
            - p.step.ref_us >= budget_us / 20 || 10 * mean_us >= 9 * budget_us)),
{
}

/// A window lends a step its decode time once the rate is where the step
/// asked: under where a retreat left, over where a lift did.
pub proof fn law_a_step_reads_its_own_rate(p: DecodeProbe, rate: u32, mean_us: i64)
    ensures
        p.kind == DecodeProbeKind::Retreat ==> (p.signal(rate, mean_us) is Some <==> rate
            < p.step.from_kbps),
        p.kind == DecodeProbeKind::Lift ==> (p.signal(rate, mean_us) is Some <==> rate
            > p.step.from_kbps),
        p.signal(rate, mean_us) matches Some(us) ==> us == mean_us,
{
}

/// What a refuted step leaves behind: a retreat stands the headroom driver
/// down, a lift leaves it alone; a step that held changes nothing.
pub proof fn law_a_refuted_retreat_stands_down(
    load: DecoderLoad,
    p: DecodeProbe,
    mean_us: i64,
    budget_us: i64,
    floor_kbps: u32,
)
    requires
        load.wf(),
        0 <= budget_us <= 1_000_000,
    ensures
        ({
            let after = load.settled(p, mean_us, budget_us, floor_kbps).0;
            &&& p.kind == DecodeProbeKind::Retreat && p.step.ref_us - mean_us < budget_us / 20
                ==> after.headroom.down && after.cap.reprobe_after == load.cap.reprobe_after
            &&& p.kind == DecodeProbeKind::Retreat && p.step.ref_us - mean_us >= budget_us / 20
                ==> after == load
            &&& p.kind == DecodeProbeKind::Lift ==> after.headroom == load.headroom
            &&& after.backoff_kbps == load.backoff_kbps && after.streak_windows
                == load.streak_windows && after.probe == load.probe
        }),
{
}

/// Decode time at nine tenths of the budget takes a notch and waits for the
/// answer; at eight tenths it holds the rate where it is, or where a lower cap
/// already stands. Under that, nothing; and a driver that stood down counts a
/// clean window instead.
pub proof fn law_headroom_holds_then_retreats(
    load: DecoderLoad,
    mean_us: i64,
    budget_us: i64,
    rate: u32,
    floor_kbps: u32,
)
    requires
        load.wf(),
        load.probe is None,
        0 <= budget_us <= 1_000_000,
        rate > floor_kbps,
    ensures
        ({
            let (after, ask) = load.judged(mean_us, budget_us, rate, floor_kbps);
            let deep = 10 * mean_us >= 9 * budget_us;
            let near = 10 * mean_us >= 8 * budget_us;
            &&& load.headroom.down ==> ask is None && after.cap == load.cap && after.probe is None
            &&& !load.headroom.down ==> after.headroom == load.headroom
            &&& !load.headroom.down && deep ==> (ask matches Some(k) && k >= floor_kbps && 8 * (rate
                - k) <= rate && (k == floor_kbps || k == rate - rate / 8) && after.cap.kbps == ask)
            &&& !load.headroom.down && deep ==> (after.probe matches Some(p) && p.kind
                == DecodeProbeKind::Retreat && p.step.from_kbps == rate && p.step.ref_us == mean_us
                && p.step.samples == 0)
            &&& !deep ==> ask is None && after.probe is None
            &&& !load.headroom.down && near && !deep ==> (after.cap.kbps matches Some(c) && c <= rate
                && (c == rate || load.cap.kbps == Some(c)))
            &&& !load.headroom.down && !near ==> after == load
        }),
{
}

/// A bad window ends the step in flight and the clean run. It caps the
/// decoder only where a lift had been taken up, at the rate the lift left;
/// only damage on the decode clock counts toward its streak.
pub proof fn law_damage_ends_a_step(
    load: DecoderLoad,
    rate: u32,
    decode_bad: bool,
    floor_kbps: u32,
)
    requires
        load.wf(),
        load.streak_windows < u32::MAX,
    ensures
        ({
            let after = load.damaged(rate, decode_bad, floor_kbps);
            &&& after.probe is None
            &&& after.headroom.clean == 0 && after.headroom.down == load.headroom.down
            &&& decode_bad ==> after.streak_windows == load.streak_windows + 1
            &&& !decode_bad ==> after.streak_windows == load.streak_windows
            &&& load.probe matches Some(p) ==> {
                &&& p.kind == DecodeProbeKind::Lift && rate > p.step.from_kbps && p.step.from_kbps
                    >= floor_kbps ==> after.cap.kbps == Some(p.step.from_kbps)
                &&& p.kind == DecodeProbeKind::Retreat || rate <= p.step.from_kbps ==> after.cap
                    == load.cap
            }
            &&& load.probe is None ==> after.cap == load.cap
        }),
{
}

/// A lift of the decoder's cap starts a step from where the cap stood, judged
/// against the decode time of the window that made it; without a decode time
/// nothing can judge it.
pub proof fn law_a_lift_starts_a_step(
    load: DecoderLoad,
    quiet: bool,
    rate: u32,
    ceiling: u32,
    us: Option<i64>,
)
    requires
        load.wf(),
    ensures
        ({
            let after = load.ticked(false, quiet, rate, ceiling, us);
            &&& after.cap.kbps == load.cap.kbps ==> after.probe == load.probe
            &&& after.cap.kbps != load.cap.kbps ==> {
                &&& us is None ==> after.probe is None
                &&& us matches Some(m) ==> (after.probe matches Some(p) && p.kind
                    == DecodeProbeKind::Lift && load.cap.kbps == Some(p.step.from_kbps)
                    && p.step.ref_us == m && p.step.samples == 0)
            }
            &&& after.headroom == load.headroom && after.backoff_kbps == load.backoff_kbps
        }),
{
}

/// A backoff samples the decoder only after a climb and with the decoder fed.
/// The decoder's own damage remembers the rate; any other forgets it. A second
/// choke within an eighth of the first caps a sixteenth under it.
pub proof fn law_a_choke_is_the_decoders_own(
    load: DecoderLoad,
    w: WindowSample,
    v: Verdict,
    rate: u32,
    climbed: bool,
    floor_kbps: u32,
)
    requires
        load.wf(),
    ensures
        ({
            let after = load.backed_off(w, v, rate, climbed, floor_kbps);
            let own = v.decode_severe || load.streak_windows >= 2 || (w.recovery_kf >= 2
                && w.loss_ppm < 20_000) || (w.flushed && (v.decode_bad || v.decode_mean_us is None));
            let apart = rate - load.backoff_kbps;
            let close = load.backoff_kbps > 0 && -(load.backoff_kbps / 8) <= apart
                <= load.backoff_kbps / 8;
            &&& !climbed || v.starved ==> after == load
            &&& climbed && !v.starved && own ==> after.backoff_kbps == rate
            &&& climbed && !v.starved && !own ==> after.backoff_kbps == 0 && after.cap == load.cap
            &&& climbed && !v.starved && own && !close ==> after.cap == load.cap
            &&& climbed && !v.starved && own && close && rate - rate / 16 >= floor_kbps ==> (
            after.cap.kbps matches Some(k) && k == rate - rate / 16)
            &&& after.headroom == load.headroom && after.probe == load.probe
        }),
{
}

} // verus!
