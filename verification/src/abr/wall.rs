//! The link's wall: where it stopped carrying what it was asked for, and the
//! lifts that ask it again.

use super::cap::LearnedCap;
use super::drain::DRAIN_FALL_US;
use super::sample::WindowSample;
use crate::math::{apart, counted, plus};
use vstd::prelude::*;

verus! {

/// A link cap goes a tenth under the wall, and climbs stop at it.
pub const LINK_HOLD_DIV: u32 = 10;

/// Two deliveries within a fifth of each other are one wall.
pub const LINK_MARK_SIMILAR_DIV: u32 = 5;

/// How far over its reference a lifted rate's delay may go: this much, or a
/// quarter of the reference.
pub const LIFT_BAR_US: i64 = 15_000;

pub const LIFT_BAR_DIV: i64 = 4;

/// Windows over that bar, or rising under it, that refuse a lift.
pub const LIFT_OVER_WINDOWS: u32 = 2;

pub const LIFT_RISING_WINDOWS: u32 = 2;

/// Clean windows at the lifted rate that settle it: 6 s.
pub const LIFT_PROBE_WINDOWS: u32 = 8;

/// Windows a lift waits to be taken up.
pub const LIFT_PROBE_MAX_AGE: u32 = 16;

/// How far over the frozen reference the delay may go.
pub open spec fn lift_bar(ref_us: i64) -> i64 {
    let quarter = crate::math::trunc_div(ref_us as int, LIFT_BAR_DIV as int);
    if quarter > LIFT_BAR_US {
        quarter as i64
    } else {
        LIFT_BAR_US
    }
}

#[verifier::when_used_as_spec(lift_bar)]
pub fn lift_bar_us(ref_us: i64) -> (bar: i64)
    ensures
        bar == lift_bar(ref_us),
{
    let quarter: i64 = ref_us / LIFT_BAR_DIV;
    if quarter > LIFT_BAR_US {
        quarter
    } else {
        LIFT_BAR_US
    }
}

/// A cap lift awaiting the link's answer, and the delay the session had
/// before it.
///
/// The reference is frozen at the lift: a floor that keeps learning would
/// learn a slow rise and call it normal. `settled` is the probe's budget
/// spent; the lift is kept then, but the reference stays, because a wall that
/// answers late is still the lift's doing.
#[derive(Clone, Copy, Debug, PartialEq, Eq, Structural)]
pub struct LiftProbe {
    /// Where a refused lift retreats to: the cap as it was.
    pub cap_kbps: u32,
    pub ref_us: i64,
    pub clean: u32,
    pub over: u32,
    pub rising: u32,
    /// Windows since the lift, at any rate.
    pub age: u32,
    pub settled: bool,
}

impl LiftProbe {
    #[verifier::allow_in_spec]
    pub fn new(cap_kbps: u32, ref_us: i64) -> LiftProbe
        returns
            (LiftProbe {
                cap_kbps,
                ref_us,
                clean: 0,
                over: 0,
                rising: 0,
                age: 0,
                settled: false,
            }),
    {
        LiftProbe { cap_kbps, ref_us, clean: 0, over: 0, rising: 0, age: 0, settled: false }
    }

    /// The delay is past the bar.
    pub open spec fn past_bar(self, w: WindowSample) -> bool {
        w.delay is Some && w.delay->0.mean_us > plus(self.ref_us, lift_bar(self.ref_us))
    }

    /// The delay is rising and already halfway to the bar.
    pub open spec fn filling(self, w: WindowSample) -> bool {
        &&& w.delay is Some
        &&& w.delay->0.rise_us >= DRAIN_FALL_US
        &&& w.delay->0.mean_us > plus(self.ref_us, (lift_bar(self.ref_us) as int / 2) as i64)
    }

    /// The probe after a window at the lifted rate: the two streaks, kept by
    /// a window that had no delay to read.
    pub open spec fn read(self, w: WindowSample) -> LiftProbe {
        LiftProbe {
            age: counted(self.age),
            over: if w.delay is None {
                self.over
            } else if self.past_bar(w) {
                counted(self.over)
            } else {
                0
            },
            rising: if w.delay is None {
                self.rising
            } else if self.filling(w) {
                counted(self.rising)
            } else {
                0
            },
            ..self
        }
    }

    /// The queue answered: too long over the bar, or rising toward it.
    pub open spec fn delay_refuses(self) -> bool {
        self.over >= LIFT_OVER_WINDOWS || self.rising >= LIFT_RISING_WINDOWS
    }

    /// The lift is refused. The bar outlives the probe; a rise under it and
    /// the link's other damage count only while the probe is open.
    pub open spec fn refused(self, link_evidence: bool) -> bool {
        ||| self.over >= LIFT_OVER_WINDOWS
        ||| (!self.settled && (self.rising >= LIFT_RISING_WINDOWS || link_evidence))
    }

    /// The probe after a window that did not refuse it.
    pub open spec fn carried(self, quiet: bool) -> LiftProbe {
        if self.settled || quiet {
            self
        } else {
            LiftProbe {
                clean: counted(self.clean),
                settled: counted(self.clean) >= LIFT_PROBE_WINDOWS,
                ..self
            }
        }
    }

    /// Fold a window at the lifted rate into the probe. `true` refuses it.
    fn judge(&mut self, w: &WindowSample, link_evidence: bool) -> (refused: bool)
        ensures
            refused == old(self).read(*w).refused(link_evidence),
            *final(self) == if refused {
                old(self).read(*w)
            } else {
                old(self).read(*w).carried(w.activity.quiet())
            },
    {
        self.age = counted(self.age);
        let bar: i64 = lift_bar_us(self.ref_us);
        let over_at: i64 = plus(self.ref_us, bar);
        let rising_at: i64 = plus(self.ref_us, bar / 2);
        if let Some(d) = w.delay {
            self.over = if d.mean_us > over_at {
                counted(self.over)
            } else {
                0
            };
            self.rising = if d.rise_us >= DRAIN_FALL_US && d.mean_us > rising_at {
                counted(self.rising)
            } else {
                0
            };
        }
        let over = self.over >= LIFT_OVER_WINDOWS;
        if over || (!self.settled && (self.rising >= LIFT_RISING_WINDOWS || link_evidence)) {
            return true;
        }
        if !self.settled && !w.activity.quiet() {
            self.clean = counted(self.clean);
            self.settled = self.clean >= LIFT_PROBE_WINDOWS;
        }
        false
    }
}

/// A refused lift: where to go back to, and whether the delay said so.
#[derive(Clone, Copy, Debug, PartialEq, Eq, Structural)]
pub struct Refusal {
    pub cap_kbps: u32,
    pub by_delay: bool,
}

/// A lift the clock made: where the cap went, and whether the session had
/// already held the lift before it, in which case the wall moved and the cap
/// is gone.
#[derive(Clone, Copy, Debug, PartialEq, Eq, Structural)]
pub struct WallLift {
    pub to_kbps: u32,
    pub moved: bool,
}

/// What is known of the link's wall.
#[derive(Clone, Copy, Debug, PartialEq, Eq, Structural)]
pub struct LinkWall {
    /// Where climbs hold under it.
    pub cap: LearnedCap,
    /// The previous delivery at it, `0` for none.
    pub mark_kbps: u32,
    /// The standing cap came from a measurement, which holds back more than
    /// the wall does.
    pub measured: bool,
    /// A lift the wall has not answered.
    pub lifted: bool,
    /// The lift in flight.
    pub lift: Option<LiftProbe>,
    /// One lift is owed as soon as a delay can judge it.
    pub share_lift: bool,
}

impl LinkWall {
    pub open spec fn wf(self) -> bool {
        self.cap.wf()
    }

    #[verifier::allow_in_spec]
    pub fn new() -> LinkWall
        returns
            (LinkWall {
                cap: LearnedCap::new(),
                mark_kbps: 0,
                measured: false,
                lifted: false,
                lift: None,
                share_lift: false,
            }),
    {
        LinkWall {
            cap: LearnedCap::new(),
            mark_kbps: 0,
            measured: false,
            lifted: false,
            lift: None,
            share_lift: false,
        }
    }

    /// Is a lift being judged right now?
    #[verifier::allow_in_spec]
    pub fn lift_probing(&self) -> bool
        returns
            (match self.lift {
                Some(p) => !p.settled,
                None => false,
            }),
    {
        match self.lift {
            Some(p) => !p.settled,
            None => false,
        }
    }

    /// A session-found wall the rate sits more than a tenth under.
    #[verifier::allow_in_spec]
    pub fn far_above(&self, rate: u32) -> bool
        returns
            (match self.cap.kbps {
                Some(c) => !self.measured && rate < c - c / LINK_HOLD_DIV,
                None => false,
            }),
    {
        match self.cap.kbps {
            Some(c) => !self.measured && rate < c - c / LINK_HOLD_DIV,
            None => false,
        }
    }

    /// The state after [`measure`](Self::measure).
    pub open spec fn after_measurement(
        self,
        park_kbps: u32,
        delivered_kbps: u32,
        floor_kbps: u32,
    ) -> LinkWall {
        LinkWall {
            mark_kbps: delivered_kbps,
            measured: true,
            cap: self.cap.measured(park_kbps, floor_kbps),
            ..self
        }
    }

    /// A deliberate measurement found the wall, and one reading latches it.
    pub fn measure(&mut self, park_kbps: u32, delivered_kbps: u32, floor_kbps: u32)
        requires
            old(self).wf(),
        ensures
            final(self).wf(),
            *final(self) == old(self).after_measurement(park_kbps, delivered_kbps, floor_kbps),
    {
        self.mark_kbps = delivered_kbps;
        self.measured = true;
        let _ = self.cap.latch_measured(park_kbps, floor_kbps);
    }

    /// Does this delivery agree with the one before it?
    #[verifier::allow_in_spec]
    pub fn agrees(&self, delivered_kbps: u32) -> bool
        returns
            self.mark_kbps > 0 && apart(delivered_kbps, self.mark_kbps) <= self.mark_kbps
                / LINK_MARK_SIMILAR_DIV,
    {
        self.mark_kbps > 0 && apart(delivered_kbps, self.mark_kbps) <= self.mark_kbps
            / LINK_MARK_SIMILAR_DIV
    }

    /// Where climbs hold under a wall that delivered this much.
    #[verifier::allow_in_spec]
    pub fn hold_under(delivered_kbps: u32) -> u32
        returns
            (delivered_kbps - delivered_kbps / LINK_HOLD_DIV) as u32,
    {
        delivered_kbps - delivered_kbps / LINK_HOLD_DIV
    }

    /// The cap before the mark latches: a wall a fifth under the standing one
    /// is another wall, and starts a clock of its own.
    pub open spec fn cap_before_mark(self, hold: u32) -> LearnedCap {
        match self.cap.kbps {
            Some(c) => if hold < c - c / LINK_MARK_SIMILAR_DIV {
                LearnedCap::new()
            } else {
                self.cap
            },
            None => self.cap,
        }
    }

    /// The state after [`mark`](Self::mark).
    pub open spec fn marked(self, delivered_kbps: u32, floor_kbps: u32) -> LinkWall {
        if !self.agrees(delivered_kbps) && self.cap.kbps is None {
            LinkWall { mark_kbps: delivered_kbps, ..self }
        } else {
            let hold = LinkWall::hold_under(delivered_kbps);
            let before = self.cap_before_mark(hold);
            LinkWall {
                mark_kbps: delivered_kbps,
                measured: false,
                lift: None,
                cap: before.latched(hold, floor_kbps),
                lifted: if before.kbps == Some(crate::math::higher(hold, floor_kbps)) {
                    self.lifted
                } else {
                    false
                },
                ..self
            }
        }
    }

    /// What a cut the link earned delivered. Two that agree are a wall; once
    /// a cap stands, one is the wall's answer to a lift.
    pub fn mark(&mut self, delivered_kbps: u32, floor_kbps: u32)
        requires
            old(self).wf(),
        ensures
            final(self).wf(),
            *final(self) == old(self).marked(delivered_kbps, floor_kbps),
    {
        let similar = self.agrees(delivered_kbps);
        self.mark_kbps = delivered_kbps;
        if !similar && self.cap.kbps.is_none() {
            return;
        }
        let hold: u32 = LinkWall::hold_under(delivered_kbps);
        self.measured = false;
        self.lift = None;
        if let Some(c) = self.cap.kbps {
            if hold < c - c / LINK_MARK_SIMILAR_DIV {
                self.cap.drop_cap();
            }
        }
        if self.cap.latch(hold, floor_kbps) {
            self.lifted = false;
        }
    }

    /// The cap after the step a share asked for.
    pub open spec fn shared_cap(self, delay_us: Option<i64>) -> LearnedCap {
        if self.share_lift && delay_us is Some {
            LearnedCap { lift_due: true, ..self.cap }
        } else {
            self.cap
        }
    }

    /// The lift this window makes.
    pub open spec fn lift_made(
        self,
        quiet: bool,
        rate: u32,
        lift_to: u32,
        delay_us: Option<i64>,
    ) -> Option<WallLift> {
        match self.shared_cap(delay_us).lift(false, quiet, rate, lift_to) {
            Some((_, to)) => Some(WallLift { to_kbps: to, moved: self.lifted && !self.measured }),
            None => None,
        }
    }

    /// The state after [`tick`](Self::tick).
    pub open spec fn ticked(
        self,
        quiet: bool,
        rate: u32,
        lift_to: u32,
        delay_us: Option<i64>,
    ) -> LinkWall {
        let cap = self.shared_cap(delay_us).windowed(false, quiet, rate, lift_to);
        let share_lift = self.share_lift && delay_us is None;
        match self.lift_made(quiet, rate, lift_to, delay_us) {
            None => LinkWall { cap, share_lift, ..self },
            Some(made) => if made.moved {
                LinkWall {
                    cap: LearnedCap::new(),
                    lifted: false,
                    lift: None,
                    share_lift,
                    ..self
                }
            } else {
                LinkWall {
                    cap,
                    lifted: true,
                    lift: match delay_us {
                        Some(us) => Some(LiftProbe::new(self.cap.kbps->0, us)),
                        None => None,
                    },
                    share_lift,
                    ..self
                }
            },
        }
    }

    /// One window on the wall's clock. Damage does not stop it: only the wall
    /// breaks this hold, by marking again. A lift freezes the delay it is
    /// judged against; a second lift over one nobody answered means the wall
    /// moved, and drops the cap. `delay_us` is the delay clean windows at
    /// this rate had, if any did.
    pub fn tick(&mut self, quiet: bool, rate: u32, lift_to: u32, delay_us: Option<i64>) -> (made:
        Option<WallLift>)
        requires
            old(self).wf(),
        ensures
            final(self).wf(),
            *final(self) == old(self).ticked(quiet, rate, lift_to, delay_us),
            made == old(self).lift_made(quiet, rate, lift_to, delay_us),
    {
        if self.share_lift && delay_us.is_some() {
            self.share_lift = false;
            self.cap.lift_now();
        }
        match self.cap.on_window(false, quiet, rate, lift_to) {
            Some((from, to)) => {
                let moved = self.lifted && !self.measured;
                if moved {
                    self.cap.drop_cap();
                    self.lifted = false;
                    self.lift = None;
                } else {
                    self.lifted = true;
                    self.lift =
                    match delay_us {
                        Some(us) => Some(LiftProbe::new(from, us)),
                        None => None,
                    };
                }
                Some(WallLift { to_kbps: to, moved })
            },
            None => None,
        }
    }

    /// The refusal this window is, if it is one.
    pub open spec fn refusal(self, w: WindowSample, rate: u32, link_evidence: bool) -> Option<
        Refusal,
    > {
        match self.lift {
            Some(p) => if rate > p.cap_kbps && p.read(w).refused(link_evidence) {
                Some(Refusal { cap_kbps: p.cap_kbps, by_delay: p.read(w).delay_refuses() })
            } else {
                None
            },
            None => None,
        }
    }

    /// The state after [`judge`](Self::judge).
    pub open spec fn judged(
        self,
        w: WindowSample,
        rate: u32,
        link_evidence: bool,
        divided: bool,
        floor_kbps: u32,
    ) -> LinkWall {
        match self.lift {
            None => self,
            Some(p) => if rate <= p.cap_kbps {
                LinkWall {
                    lift: if counted(p.age) < LIFT_PROBE_MAX_AGE {
                        Some(LiftProbe { age: counted(p.age), ..p })
                    } else {
                        None
                    },
                    ..self
                }
            } else if p.read(w).refused(link_evidence) {
                LinkWall {
                    lift: None,
                    lifted: false,
                    cap: if divided {
                        LearnedCap { kbps: Some(p.cap_kbps), ..self.cap }
                    } else {
                        self.cap.latched(p.cap_kbps, floor_kbps)
                    },
                    ..self
                }
            } else {
                LinkWall { lift: Some(p.read(w).carried(w.activity.quiet())), ..self }
            },
        }
    }

    /// One window's answer to a lift. A lift the rate has not reached waits,
    /// and is dropped when it waits too long. A refusal goes back to the cap
    /// the lift came from; the wait doubles only where this session has the
    /// path to itself.
    pub fn judge(
        &mut self,
        w: &WindowSample,
        rate: u32,
        link_evidence: bool,
        divided: bool,
        floor_kbps: u32,
    ) -> (refusal: Option<Refusal>)
        requires
            old(self).wf(),
        ensures
            final(self).wf(),
            *final(self) == old(self).judged(*w, rate, link_evidence, divided, floor_kbps),
            refusal == old(self).refusal(*w, rate, link_evidence),
    {
        let mut p: LiftProbe = match self.lift {
            Some(p) => p,
            None => {
                return None;
            },
        };
        if rate <= p.cap_kbps {
            p.age = counted(p.age);
            self.lift =
            if p.age < LIFT_PROBE_MAX_AGE {
                Some(p)
            } else {
                None
            };
            return None;
        }
        if !p.judge(w, link_evidence) {
            self.lift = Some(p);
            return None;
        }
        self.lift = None;
        self.lifted = false;
        if divided {
            self.cap.park(p.cap_kbps);
        } else {
            let _ = self.cap.latch(p.cap_kbps, floor_kbps);
        }
        Some(
            Refusal {
                cap_kbps: p.cap_kbps,
                by_delay: p.over >= LIFT_OVER_WINDOWS || p.rising >= LIFT_RISING_WINDOWS,
            },
        )
    }
}

/// A refused lift leaves the cap where the lift found it, or at the floor.
pub proof fn law_a_refused_lift_restores_its_cap(
    wall: LinkWall,
    w: WindowSample,
    rate: u32,
    link_evidence: bool,
    divided: bool,
    floor_kbps: u32,
)
    requires
        wall.wf(),
        wall.refusal(w, rate, link_evidence) is Some,
        wall.lift->0.cap_kbps >= floor_kbps,
    ensures
        wall.judged(w, rate, link_evidence, divided, floor_kbps).cap.kbps == Some(
            wall.refusal(w, rate, link_evidence)->0.cap_kbps,
        ),
        wall.judged(w, rate, link_evidence, divided, floor_kbps).lift is None,
        divided ==> wall.judged(w, rate, link_evidence, divided, floor_kbps).cap.reprobe_after
            == wall.cap.reprobe_after,
        (!divided && wall.cap.kbps is Some && wall.cap.kbps->0 != wall.lift->0.cap_kbps) ==> wall.judged(
            w,
            rate,
            link_evidence,
            divided,
            floor_kbps,
        ).cap.reprobe_after == super::cap::doubled_wait(wall.cap.reprobe_after),
{
}

/// Two deliveries that agree latch a cap a tenth under the second, where none
/// stood and the floor allows it.
pub proof fn law_two_agreeing_marks_are_a_wall(wall: LinkWall, first: u32, second: u32, floor: u32)
    requires
        wall.wf(),
        wall.cap.kbps is None,
        !wall.agrees(first),
        first > 0,
        apart(second, first) <= first / LINK_MARK_SIMILAR_DIV,
    ensures
        wall.marked(first, floor).cap.kbps is None,
        wall.marked(first, floor).marked(second, floor).cap.kbps == Some(
            crate::math::higher(LinkWall::hold_under(second), floor),
        ),
{
}

/// The bar of a lift is the larger of fifteen milliseconds and a quarter of the
/// delay it was made over.
pub proof fn law_a_bar_is_a_quarter(ref_us: i64)
    ensures
        lift_bar(ref_us) >= 15_000,
        ref_us >= 0 ==> 4 * lift_bar(ref_us) > ref_us - 4,
        ref_us <= 60_003 ==> lift_bar(ref_us) == 15_000,
        ref_us >= 60_000 ==> lift_bar(ref_us) == ref_us / 4,
{
}

/// A window over the bar, or rising past its half, lengthens that streak; one
/// that is not ends it; one without a delay leaves both.
pub proof fn law_a_lift_is_read_by_its_delay(p: LiftProbe, w: WindowSample)
    requires
        0 <= p.ref_us <= 1_000_000_000_000,
        p.over < u32::MAX,
        p.rising < u32::MAX,
        p.age < u32::MAX,
    ensures
        ({
            let r = p.read(w);
            let bar: int = if p.ref_us > 60_000 {
                p.ref_us as int / 4
            } else {
                15_000
            };
            &&& r.age == p.age + 1 && r.clean == p.clean && r.settled == p.settled && r.cap_kbps
                == p.cap_kbps && r.ref_us == p.ref_us
            &&& w.delay is None ==> r.over == p.over && r.rising == p.rising
            &&& w.delay matches Some(d) ==> {
                &&& d.mean_us > p.ref_us + bar ==> r.over == p.over + 1
                &&& d.mean_us <= p.ref_us + bar ==> r.over == 0
                &&& d.mean_us > p.ref_us + bar / 2 && d.rise_us >= 5_000 ==> r.rising == p.rising + 1
                &&& d.mean_us <= p.ref_us + bar / 2 || d.rise_us < 5_000 ==> r.rising == 0
            }
        }),
{
}

/// Two windows over the bar refuse a lift at any time; two that rise, or the
/// link's own damage, only while it is being tried. Eight windows that moved
/// settle it.
pub proof fn law_a_lift_is_refused_by_two_windows(p: LiftProbe, link_evidence: bool, quiet: bool)
    requires
        p.clean < u32::MAX,
    ensures
        p.over >= 2 ==> p.refused(link_evidence),
        !p.settled && p.rising >= 2 ==> p.refused(link_evidence),
        !p.settled ==> p.refused(true),
        p.over < 2 && p.settled ==> !p.refused(link_evidence),
        p.over < 2 && p.rising < 2 ==> !p.refused(false),
        p.delay_refuses() <==> p.over >= 2 || p.rising >= 2,
        p.settled || quiet ==> p.carried(quiet) == p,
        !p.settled && !quiet ==> p.carried(quiet).clean == p.clean + 1 && (p.carried(quiet).settled
            <==> p.clean >= 7),
{
}

/// A wall is marked by what it delivered. Where no cap stands and the last
/// delivery was more than a fifth away it is only remembered; else climbs hold
/// a tenth under it, and a lift in flight is over.
pub proof fn law_a_wall_holds_a_tenth_under(wall: LinkWall, kbps: u32, floor_kbps: u32)
    requires
        wall.wf(),
    ensures
        ({
            let m = wall.marked(kbps, floor_kbps);
            let apart = kbps - wall.mark_kbps;
            let agrees = wall.mark_kbps > 0 && -(wall.mark_kbps / 5) <= apart <= wall.mark_kbps / 5;
            let latches = agrees || wall.cap.kbps is Some;
            &&& m.mark_kbps == kbps
            &&& !latches ==> m.cap == wall.cap && m.lift == wall.lift && m.measured == wall.measured
            &&& latches ==> m.lift is None && !m.measured
            &&& latches && kbps - kbps / 10 >= floor_kbps ==> (m.cap.kbps matches Some(k) && k
                == kbps - kbps / 10)
            &&& latches && kbps - kbps / 10 < floor_kbps ==> m.cap.kbps == Some(floor_kbps)
            &&& wall.cap.kbps matches Some(c) ==> {
                &&& kbps - kbps / 10 < c - c / 5 ==> m.cap.reprobe_after == 20
                &&& kbps - kbps / 10 >= c - c / 5 ==> m.cap.reprobe_after
                    >= wall.cap.reprobe_after || m.cap.reprobe_after == 320
            }
            &&& m.share_lift == wall.share_lift
        }),
{
}

/// One measurement is enough: climbs hold where it parks, the delivery is
/// remembered, and the clock starts at its shortest.
pub proof fn law_a_measured_wall_is_latched_at_once(
    wall: LinkWall,
    park_kbps: u32,
    delivered_kbps: u32,
    floor_kbps: u32,
)
    requires
        park_kbps >= floor_kbps,
    ensures
        ({
            let m = wall.after_measurement(park_kbps, delivered_kbps, floor_kbps);
            &&& m.cap.kbps == Some(park_kbps) && m.cap.reprobe_after == 20 && m.cap.ridden == 0
            &&& m.mark_kbps == delivered_kbps && m.measured
            &&& m.lift == wall.lift && m.lifted == wall.lifted
        }),
{
}

/// A rate more than a tenth under a wall the session found is far under it; a
/// measured wall is never far.
pub proof fn law_far_under_the_wall(wall: LinkWall, rate: u32)
    ensures
        wall.measured || wall.cap.kbps is None ==> !wall.far_above(rate),
        wall.cap.kbps matches Some(c) ==> (!wall.measured ==> (wall.far_above(rate) <==> rate < c - c
            / 10)),
        wall.lift_probing() <==> (wall.lift matches Some(p) && !p.settled),
{
}

/// A lift that a delay can judge starts its trial from the cap as it stood and
/// against that delay. A second lift over one the wall never answered drops
/// the cap: the wall moved. A share's step is taken once a delay can judge it.
pub proof fn law_a_lift_is_tried_once(
    wall: LinkWall,
    quiet: bool,
    rate: u32,
    lift_to: u32,
    delay_us: Option<i64>,
    k: u32,
)
    requires
        wall.wf(),
        wall.cap.kbps == Some(k),
    ensures
        ({
            let t = wall.ticked(quiet, rate, lift_to, delay_us);
            let made = wall.lift_made(quiet, rate, lift_to, delay_us);
            let up = k + k / 8;
            let due = wall.cap.lift_due || (wall.share_lift && delay_us is Some) || (!quiet && rate
                >= k && wall.cap.ridden + 1 == wall.cap.reprobe_after);
            &&& made is Some <==> due && up > k && lift_to > k
            &&& made matches Some(l) ==> (l.to_kbps == up || l.to_kbps == lift_to) && l.to_kbps <= up
                && l.to_kbps <= lift_to && (l.moved <==> wall.lifted && !wall.measured)
            &&& made matches Some(l) ==> (l.moved ==> t.cap.kbps is None && t.lift is None
                && !t.lifted)
            &&& made matches Some(l) ==> (!l.moved ==> t.cap.kbps == Some(l.to_kbps) && t.lifted && (
            delay_us matches Some(us) ==> (t.lift matches Some(p) && p.cap_kbps == k && p.ref_us
                == us && p.clean == 0 && p.over == 0 && p.rising == 0 && !p.settled)) && (delay_us
                is None ==> t.lift is None))
            &&& made is None ==> t.cap.kbps == Some(k) && t.lift == wall.lift && t.lifted
                == wall.lifted
            &&& t.share_lift <==> wall.share_lift && delay_us is None
            &&& t.mark_kbps == wall.mark_kbps && t.measured == wall.measured
        }),
{
}

/// A lift the rate has not reached waits sixteen windows; one that was taken
/// up is carried until it is refused.
pub proof fn law_a_lift_waits_to_be_taken_up(
    wall: LinkWall,
    p: LiftProbe,
    w: WindowSample,
    rate: u32,
    link_evidence: bool,
    divided: bool,
    floor_kbps: u32,
)
    requires
        wall.wf(),
        wall.lift == Some(p),
        p.age < u32::MAX,
    ensures
        ({
            let j = wall.judged(w, rate, link_evidence, divided, floor_kbps);
            let refusal = wall.refusal(w, rate, link_evidence);
            &&& rate <= p.cap_kbps ==> refusal is None && j.cap == wall.cap && j.lifted
                == wall.lifted
            &&& rate <= p.cap_kbps && p.age < 15 ==> (j.lift matches Some(q) && q.age == p.age + 1
                && q.clean == p.clean && q.over == p.over && q.rising == p.rising)
            &&& rate <= p.cap_kbps && p.age >= 15 ==> j.lift is None
            &&& rate > p.cap_kbps && refusal is None ==> j.lift is Some && j.cap == wall.cap
            &&& rate > p.cap_kbps && !p.settled && link_evidence ==> refusal is Some
            &&& refusal is Some ==> j.lift is None && !j.lifted
            &&& j.mark_kbps == wall.mark_kbps && j.measured == wall.measured
        }),
{
}

} // verus!
