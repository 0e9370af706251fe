//! Learned bounds and the clocks that test them again.

use crate::math::{higher, lower, plus};
use vstd::prelude::*;

verus! {

/// Windows at a learned cap before it is first tested again: 15 s.
pub const CAP_REPROBE_WINDOWS_MIN: u32 = 20;

/// The longest a cap waits, however often it was confirmed: 4 min.
pub const CAP_REPROBE_WINDOWS_MAX: u32 = 320;

/// A lifted cap rises by this fraction of itself.
pub const CAP_LIFT_DIV: u32 = 8;

/// Windows at the new rate whose mean is a step's answer.
pub const STEP_SAMPLES: u32 = 3;

/// Windows a step may wait for that answer.
pub const STEP_MAX_AGE: u32 = 16;

/// The next wait after one that ended in a refusal.
#[verifier::allow_in_spec]
pub fn doubled_wait(windows: u32) -> u32
    requires
        windows <= CAP_REPROBE_WINDOWS_MAX,
    returns
        lower((2 * windows) as u32, CAP_REPROBE_WINDOWS_MAX),
{
    lower(2 * windows, CAP_REPROBE_WINDOWS_MAX)
}

/// A rate bound learned from evidence, with the clock it is re-tested on.
///
/// The first latch starts the clock at its shortest wait; a latch over a cap
/// that already stands is the limit confirming itself, and doubles the wait.
#[derive(Clone, Copy, Debug, PartialEq, Eq, Structural)]
pub struct LearnedCap {
    pub kbps: Option<u32>,
    pub reprobe_after: u32,
    /// Windows spent at the cap since the clock started.
    pub ridden: u32,
    /// The next window lifts, whatever the clock reads.
    pub lift_due: bool,
}

impl LearnedCap {
    /// The clock is inside its bounds and has not run out.
    pub open spec fn wf(self) -> bool {
        &&& CAP_REPROBE_WINDOWS_MIN <= self.reprobe_after <= CAP_REPROBE_WINDOWS_MAX
        &&& self.ridden < self.reprobe_after
    }

    /// No cap, and the shortest clock.
    #[verifier::allow_in_spec]
    pub fn new() -> LearnedCap
        returns
            (LearnedCap {
                kbps: None,
                reprobe_after: CAP_REPROBE_WINDOWS_MIN,
                ridden: 0,
                lift_due: false,
            }),
    {
        LearnedCap {
            kbps: None,
            reprobe_after: CAP_REPROBE_WINDOWS_MIN,
            ridden: 0,
            lift_due: false,
        }
    }

    /// The cap that stands.
    #[verifier::allow_in_spec]
    pub fn kbps(&self) -> Option<u32>
        returns
            self.kbps,
    {
        self.kbps
    }

    /// Windows at the cap before the next lift.
    #[verifier::allow_in_spec]
    pub fn reprobe_after(&self) -> u32
        returns
            self.reprobe_after,
    {
        self.reprobe_after
    }

    /// The state after [`latch`](Self::latch).
    pub open spec fn latched(self, kbps: u32, floor_kbps: u32) -> LearnedCap {
        let cap = higher(kbps, floor_kbps);
        if self.kbps == Some(cap) {
            self
        } else {
            LearnedCap {
                kbps: Some(cap),
                reprobe_after: if self.kbps is Some {
                    doubled_wait(self.reprobe_after)
                } else {
                    CAP_REPROBE_WINDOWS_MIN
                },
                ridden: 0,
                lift_due: false,
            }
        }
    }

    /// The limit showed itself at `kbps`, which is never under the floor.
    /// `false` when this very cap already stands and nothing moved.
    pub fn latch(&mut self, kbps: u32, floor_kbps: u32) -> (moved: bool)
        requires
            old(self).wf(),
        ensures
            final(self).wf(),
            *final(self) == old(self).latched(kbps, floor_kbps),
            moved == (old(self).kbps != Some(higher(kbps, floor_kbps))),
    {
        let cap: u32 = higher(kbps, floor_kbps);
        if let Some(standing) = self.kbps {
            if standing == cap {
                return false;
            }
            self.reprobe_after = doubled_wait(self.reprobe_after);
        } else {
            self.reprobe_after = CAP_REPROBE_WINDOWS_MIN;
        }
        self.kbps = Some(cap);
        self.ridden = 0;
        self.lift_due = false;
        true
    }

    /// The state after [`latch_measured`](Self::latch_measured).
    pub open spec fn measured(self, kbps: u32, floor_kbps: u32) -> LearnedCap {
        LearnedCap { kbps: Some(higher(kbps, floor_kbps)), ..LearnedCap::new() }
    }

    /// A deliberate measurement found the limit: the cap goes there on the
    /// shortest clock, whatever stood before. `true` when the cap moved.
    pub fn latch_measured(&mut self, kbps: u32, floor_kbps: u32) -> (moved: bool)
        ensures
            final(self).wf(),
            *final(self) == old(self).measured(kbps, floor_kbps),
            moved == (old(self).kbps != Some(higher(kbps, floor_kbps))),
    {
        let cap: u32 = higher(kbps, floor_kbps);
        let moved = match self.kbps {
            Some(standing) => standing != cap,
            None => true,
        };
        *self = LearnedCap::new();
        self.kbps = Some(cap);
        moved
    }

    /// Hold at `kbps` without touching the clock.
    pub fn park(&mut self, kbps: u32)
        ensures
            *final(self) == (LearnedCap { kbps: Some(kbps), ..*old(self) }),
    {
        self.kbps = Some(kbps);
    }

    /// Lift at the next window instead of on the clock.
    pub fn lift_now(&mut self)
        ensures
            *final(self) == (LearnedCap { lift_due: true, ..*old(self) }),
    {
        self.lift_due = true;
    }

    /// Forget the cap and everything its clock knew.
    pub fn drop_cap(&mut self)
        ensures
            final(self).wf(),
            *final(self) == LearnedCap::new(),
    {
        *self = LearnedCap::new();
    }

    /// Where a lift from `cap` goes: an eighth up, no further than `ceiling`.
    pub open spec fn lift_target(cap: u32, ceiling: u32) -> u32 {
        let up = cap + cap / CAP_LIFT_DIV;
        if up <= ceiling {
            up as u32
        } else {
            ceiling
        }
    }

    /// Does this window lift the cap's clock to its end?
    pub open spec fn rings(self, bad: bool, quiet: bool, rate: u32) -> bool {
        &&& self.kbps is Some
        &&& (self.lift_due || (!bad && !quiet && rate >= self.kbps->0 && self.ridden + 1
            >= self.reprobe_after))
    }

    /// The state after [`on_window`](Self::on_window).
    pub open spec fn windowed(self, bad: bool, quiet: bool, rate: u32, ceiling: u32) -> LearnedCap {
        match self.kbps {
            None => self,
            Some(cap) => if self.rings(bad, quiet, rate) {
                LearnedCap {
                    kbps: Some(higher(cap, LearnedCap::lift_target(cap, ceiling))),
                    ridden: 0,
                    lift_due: false,
                    ..self
                }
            } else if bad {
                LearnedCap { ridden: 0, ..self }
            } else if quiet || rate < cap {
                self
            } else {
                LearnedCap { ridden: (self.ridden + 1) as u32, ..self }
            },
        }
    }

    /// The lift this window made, as the cap it left and the cap it set.
    pub open spec fn lift(self, bad: bool, quiet: bool, rate: u32, ceiling: u32) -> Option<
        (u32, u32),
    > {
        if self.rings(bad, quiet, rate) && LearnedCap::lift_target(self.kbps->0, ceiling)
            > self.kbps->0 {
            Some((self.kbps->0, LearnedCap::lift_target(self.kbps->0, ceiling)))
        } else {
            None
        }
    }

    /// One window on the clock. Damage starts it over, stillness and a rate
    /// under the cap leave it alone, and at its end the cap rises an eighth.
    pub fn on_window(&mut self, bad: bool, quiet: bool, rate: u32, ceiling: u32) -> (lifted: Option<
        (u32, u32),
    >)
        requires
            old(self).wf(),
        ensures
            final(self).wf(),
            *final(self) == old(self).windowed(bad, quiet, rate, ceiling),
            lifted == old(self).lift(bad, quiet, rate, ceiling),
    {
        let cap: u32 = match self.kbps {
            Some(cap) => cap,
            None => {
                return None;
            },
        };
        if !self.lift_due {
            if bad {
                self.ridden = 0;
                return None;
            }
            if quiet || rate < cap {
                return None;
            }
            if self.ridden + 1 < self.reprobe_after {
                self.ridden = self.ridden + 1;
                return None;
            }
        }
        self.ridden = 0;
        self.lift_due = false;
        let up: u64 = cap as u64 + (cap / CAP_LIFT_DIV) as u64;
        let to: u32 = if up <= ceiling as u64 {
            up as u32
        } else {
            ceiling
        };
        if to <= cap {
            return None;
        }
        self.kbps = Some(to);
        Some((cap, to))
    }
}

/// A driver that was switched off because its signal did not answer, and the
/// clean run that switches it back on. Each further switch-off waits longer.
#[derive(Clone, Copy, Debug, PartialEq, Eq, Structural)]
pub struct StandDown {
    pub down: bool,
    /// It has been switched off before.
    pub used: bool,
    pub clean: u32,
    pub reprobe_after: u32,
}

impl StandDown {
    pub open spec fn wf(self) -> bool {
        &&& CAP_REPROBE_WINDOWS_MIN <= self.reprobe_after <= CAP_REPROBE_WINDOWS_MAX
        &&& self.clean < self.reprobe_after
    }

    /// Armed, and never switched off.
    #[verifier::allow_in_spec]
    pub fn new() -> StandDown
        returns
            (StandDown {
                down: false,
                used: false,
                clean: 0,
                reprobe_after: CAP_REPROBE_WINDOWS_MIN,
            }),
    {
        StandDown { down: false, used: false, clean: 0, reprobe_after: CAP_REPROBE_WINDOWS_MIN }
    }

    #[verifier::allow_in_spec]
    pub fn disarmed(&self) -> bool
        returns
            self.down,
    {
        self.down
    }

    /// Clean windows before it is armed again.
    #[verifier::allow_in_spec]
    pub fn reprobe_after(&self) -> u32
        returns
            self.reprobe_after,
    {
        self.reprobe_after
    }

    /// The state after [`disarm`](Self::disarm).
    pub open spec fn switched_off(self) -> StandDown {
        StandDown {
            down: true,
            used: true,
            clean: 0,
            reprobe_after: if self.used {
                doubled_wait(self.reprobe_after)
            } else {
                self.reprobe_after
            },
        }
    }

    pub fn disarm(&mut self)
        requires
            old(self).wf(),
        ensures
            final(self).wf(),
            *final(self) == old(self).switched_off(),
    {
        if self.used {
            self.reprobe_after = doubled_wait(self.reprobe_after);
        }
        self.down = true;
        self.used = true;
        self.clean = 0;
    }

    /// Damage: the clean run starts over.
    pub fn note_bad(&mut self)
        requires
            old(self).wf(),
        ensures
            final(self).wf(),
            *final(self) == (StandDown { clean: 0, ..*old(self) }),
    {
        self.clean = 0;
    }

    /// The state after [`note_clean`](Self::note_clean).
    pub open spec fn cleaner(self) -> StandDown {
        if !self.down {
            self
        } else if self.clean + 1 >= self.reprobe_after {
            StandDown { down: false, clean: 0, ..self }
        } else {
            StandDown { clean: (self.clean + 1) as u32, ..self }
        }
    }

    /// One clean window. `true` when the run is long enough to arm it again.
    pub fn note_clean(&mut self) -> (armed: bool)
        requires
            old(self).wf(),
        ensures
            final(self).wf(),
            *final(self) == old(self).cleaner(),
            armed == (old(self).down && !final(self).down),
    {
        if !self.down {
            return false;
        }
        if self.clean + 1 >= self.reprobe_after {
            self.down = false;
            self.clean = 0;
            return true;
        }
        self.clean = self.clean + 1;
        false
    }
}

/// A step in the rate, waiting for the mean of its signal at the new rate.
#[derive(Clone, Copy, Debug, PartialEq, Eq, Structural)]
pub struct StepProbe {
    /// The rate the step left.
    pub from_kbps: u32,
    /// The signal there.
    pub ref_us: i64,
    pub sum_us: i64,
    pub samples: u32,
    /// Windows since the step, at any rate.
    pub age: u32,
}

impl StepProbe {
    pub open spec fn wf(self) -> bool {
        &&& self.samples < STEP_SAMPLES
        &&& self.age < STEP_MAX_AGE
    }

    #[verifier::allow_in_spec]
    pub fn new(from_kbps: u32, ref_us: i64) -> StepProbe
        returns
            (StepProbe { from_kbps, ref_us, sum_us: 0, samples: 0, age: 0 }),
    {
        StepProbe { from_kbps, ref_us, sum_us: 0, samples: 0, age: 0 }
    }

    /// The state after [`note`](Self::note).
    pub open spec fn noted(self, signal_us: Option<i64>) -> StepProbe {
        StepProbe {
            age: (self.age + 1) as u32,
            samples: if signal_us is Some {
                (self.samples + 1) as u32
            } else {
                self.samples
            },
            sum_us: if signal_us is Some {
                plus(self.sum_us, signal_us->0)
            } else {
                self.sum_us
            },
            ..self
        }
    }

    /// The mean this window completes, if it does.
    pub open spec fn answer(self, signal_us: Option<i64>) -> Option<i64> {
        let n = self.noted(signal_us);
        if signal_us is Some && n.samples >= STEP_SAMPLES {
            Some(crate::math::mean(n.sum_us, n.samples))
        } else {
            None
        }
    }

    /// One window: its signal when it ran at the new rate. `Some` is the mean
    /// the step is judged by.
    pub fn note(&mut self, signal_us: Option<i64>) -> (answer: Option<i64>)
        requires
            old(self).wf(),
        ensures
            *final(self) == old(self).noted(signal_us),
            answer == old(self).answer(signal_us),
    {
        self.age = self.age + 1;
        match signal_us {
            Some(us) => {
                self.sum_us = plus(self.sum_us, us);
                self.samples = self.samples + 1;
                if self.samples >= STEP_SAMPLES {
                    Some(crate::math::mean(self.sum_us, self.samples))
                } else {
                    None
                }
            },
            None => None,
        }
    }

    /// The step has waited as long as it may.
    #[verifier::allow_in_spec]
    pub fn expired(&self) -> bool
        returns
            self.age >= STEP_MAX_AGE,
    {
        self.age >= STEP_MAX_AGE
    }
}

/// Confirming a limit never shortens its wait.
pub proof fn law_a_confirmed_cap_waits_longer(cap: LearnedCap, kbps: u32, floor_kbps: u32)
    requires
        cap.wf(),
        cap.kbps is Some,
    ensures
        cap.latched(kbps, floor_kbps).reprobe_after >= cap.reprobe_after,
        cap.latched(kbps, floor_kbps).kbps == Some(higher(kbps, floor_kbps)),
{
}

/// A window never lowers a cap and never moves it past the larger of itself
/// and the ceiling.
pub proof fn law_a_clock_only_lifts(
    cap: LearnedCap,
    bad: bool,
    quiet: bool,
    rate: u32,
    ceiling: u32,
)
    requires
        cap.wf(),
    ensures
        cap.kbps is None ==> cap.windowed(bad, quiet, rate, ceiling).kbps is None,
        cap.kbps is Some ==> {
            &&& cap.windowed(bad, quiet, rate, ceiling).kbps is Some
            &&& cap.kbps->0 <= cap.windowed(bad, quiet, rate, ceiling).kbps->0
            &&& cap.windowed(bad, quiet, rate, ceiling).kbps->0 <= higher(cap.kbps->0, ceiling)
        },
{
}

/// A limit that shows itself is held at that rate, never under the floor. The
/// same limit again changes nothing; another one over it doubles the wait, and
/// the first starts it at its shortest.
pub proof fn law_a_limit_is_held_where_it_showed(cap: LearnedCap, kbps: u32, floor_kbps: u32)
    requires
        cap.wf(),
    ensures
        ({
            let c = cap.latched(kbps, floor_kbps);
            &&& c.kbps matches Some(k) && k >= kbps && k >= floor_kbps && (k == kbps || k
                == floor_kbps)
            &&& cap.kbps == c.kbps ==> c == cap
            &&& cap.kbps != c.kbps ==> c.ridden == 0 && !c.lift_due
            &&& cap.kbps is None ==> c.reprobe_after == 20
            &&& cap.kbps is Some && cap.kbps != c.kbps ==> (c.reprobe_after == 2
                * cap.reprobe_after || c.reprobe_after == 320) && c.reprobe_after <= 320
                && c.reprobe_after <= 2 * cap.reprobe_after
        }),
        ({
            let m = cap.measured(kbps, floor_kbps);
            &&& m.kbps == cap.latched(kbps, floor_kbps).kbps
            &&& m.reprobe_after == 20 && m.ridden == 0 && !m.lift_due
        }),
{
}

/// A cap is tested again when its clock runs out: a clean window that moved at
/// the cap counts, damage starts the count over, and stillness or a lower rate
/// leaves it alone. The window that completes the count lifts it an eighth,
/// no further than the ceiling; so does one that was told to.
pub proof fn law_a_cap_is_tested_on_its_clock(
    cap: LearnedCap,
    bad: bool,
    quiet: bool,
    rate: u32,
    ceiling: u32,
    k: u32,
)
    requires
        cap.wf(),
        cap.kbps == Some(k),
    ensures
        ({
            let c = cap.windowed(bad, quiet, rate, ceiling);
            let counts = !bad && !quiet && rate >= k;
            let lifts = cap.lift_due || (counts && cap.ridden + 1 == cap.reprobe_after);
            let up = k + k / 8;
            &&& !lifts ==> c.kbps == Some(k) && cap.lift(bad, quiet, rate, ceiling) is None
            &&& !lifts && bad ==> c.ridden == 0
            &&& !lifts && counts ==> c.ridden == cap.ridden + 1
            &&& !lifts && !bad && !counts ==> c == cap
            &&& lifts ==> c.ridden == 0 && !c.lift_due
            &&& lifts && up <= ceiling ==> (c.kbps matches Some(to) && to == up)
            &&& lifts && k <= ceiling < up ==> c.kbps == Some(ceiling)
            &&& lifts && ceiling < k ==> c.kbps == Some(k)
            &&& cap.lift(bad, quiet, rate, ceiling) matches Some((from, to)) ==> from == k
                && c.kbps == Some(to) && to > from
            &&& c.kbps != Some(k) ==> cap.lift(bad, quiet, rate, ceiling) is Some
            &&& c.reprobe_after == cap.reprobe_after
        }),
{
}

/// A driver that is switched off comes back after so many clean windows in a
/// row, and each switch-off after the first waits twice as long.
pub proof fn law_a_switch_off_waits_for_a_clean_run(s: StandDown)
    requires
        s.wf(),
    ensures
        ({
            let off = s.switched_off();
            &&& off.down && off.used && off.clean == 0
            &&& !s.used ==> off.reprobe_after == s.reprobe_after
            &&& s.used ==> off.reprobe_after <= 320 && (off.reprobe_after == 2 * s.reprobe_after
                || off.reprobe_after == 320) && off.reprobe_after <= 2 * s.reprobe_after
        }),
        !s.down ==> s.cleaner() == s,
        s.down && s.clean + 1 < s.reprobe_after ==> s.cleaner().down && s.cleaner().clean == s.clean
            + 1,
        s.down && s.clean + 1 == s.reprobe_after ==> !s.cleaner().down && s.cleaner().clean == 0,
        s.cleaner().used == s.used && s.cleaner().reprobe_after == s.reprobe_after,
        !StandDown::new().down && !StandDown::new().used && StandDown::new().reprobe_after == 20,
{
}

/// A step is answered by the mean of three readings at the new rate, and by
/// nothing before; windows without a reading only make it older.
pub proof fn law_a_step_is_answered_by_three_readings(p: StepProbe, a: i64, b: i64, c: i64)
    requires
        p.samples == 0,
        p.sum_us == 0,
        p.age < 10,
        0 <= a <= 1_000_000_000_000,
        0 <= b <= 1_000_000_000_000,
        0 <= c <= 1_000_000_000_000,
    ensures
        p.answer(Some(a)) is None,
        p.noted(Some(a)).answer(Some(b)) is None,
        p.noted(Some(a)).noted(Some(b)).answer(Some(c)) matches Some(m) && 3 * m <= a + b + c < 3
            * m + 3,
        p.answer(None) is None,
        p.noted(None).samples == p.samples && p.noted(None).sum_us == p.sum_us && p.noted(None).age
            == p.age + 1,
        p.noted(Some(a)).age == p.age + 1,
        p.noted(Some(a)).from_kbps == p.from_kbps && p.noted(Some(a)).ref_us == p.ref_us,
        p.expired() <==> p.age >= 16,
{
}

/// A cap, a stand-down and a step start empty: no limit, nothing down, nothing
/// read, the wait at its shortest.
pub proof fn law_clocks_start_at_nought(from_kbps: u32, ref_us: i64)
    ensures
        LearnedCap::new().kbps is None && LearnedCap::new().reprobe_after == 20
            && LearnedCap::new().ridden == 0 && !LearnedCap::new().lift_due,
        StandDown::new().clean == 0 && !StandDown::new().down && !StandDown::new().used,
        ({
            let p = StepProbe::new(from_kbps, ref_us);
            &&& p.from_kbps == from_kbps && p.ref_us == ref_us
            &&& p.samples == 0 && p.sum_us == 0 && p.age == 0
        }),
{
}

} // verus!
