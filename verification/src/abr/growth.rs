//! The climb law: how far, how fast, and on what evidence.

use super::sample::{WindowActivity, WINDOW_US};
use crate::math::higher;
use vstd::prelude::*;

verus! {

/// Clean windows behind one additive step: about 4.5 s.
pub const CLEAN_WINDOWS_TO_INCREASE: u32 = 6;

/// A window fills its target at three quarters of it.
pub const UTILIZED_NUM: u64 = 3;

pub const UTILIZED_DEN: u64 = 4;

/// A window delivered its rate at this share of it.
pub const DELIVERED_PCT: u64 = 90;

/// An additive step is this fraction of the rate.
pub const ADDITIVE_DIV: u32 = 16;

/// Windows in one bucket of the proven mark: 30 s.
pub const PROVEN_BUCKET_WINDOWS: u32 = 40;

/// The frames a full window would have had, over the frames this one had.
#[derive(Clone, Copy, Debug, PartialEq, Eq, Structural)]
pub struct Proration {
    pub expected: u32,
    pub seen: u32,
}

impl Proration {
    /// A ratio of at least one, small enough that a rate times either side
    /// fits the arithmetic below.
    pub open spec fn wf(self) -> bool {
        1 <= self.seen <= self.expected <= WINDOW_US
    }
}

/// The share of a full window's frames that arrived. A window with all of
/// them, with none, or with no frame budget to count by, is taken as whole.
#[verifier::allow_in_spec]
pub fn proration(activity: WindowActivity, frame_budget_us: Option<i64>) -> Proration
    returns
        (match (activity, frame_budget_us) {
            (WindowActivity::Active(n), Some(budget)) => if budget > 0 && 0 < n < WINDOW_US / budget {
                Proration { expected: (WINDOW_US / budget) as u32, seen: n }
            } else {
                Proration { expected: 1, seen: 1 }
            },
            _ => Proration { expected: 1, seen: 1 },
        }),
{
    match (activity, frame_budget_us) {
        (WindowActivity::Active(n), Some(budget)) => {
            if budget > 0 {
                let full: i64 = WINDOW_US / budget;
                proof {
                    lemma_full_window(budget);
                }
                if n > 0 && (n as i64) < full {
                    return Proration { expected: full as u32, seen: n };
                }
            }
            Proration { expected: 1, seen: 1 }
        },
        _ => Proration { expected: 1, seen: 1 },
    }
}

proof fn lemma_full_window(budget: i64)
    requires
        budget > 0,
    ensures
        0 <= WINDOW_US / budget <= WINDOW_US,
{
    assert(0 <= 750_000int / budget as int <= 750_000) by (nonlinear_arith)
        requires
            budget > 0,
    ;
}

/// A prorated window is a ratio the climb law can use.
pub proof fn lemma_proration_wf(activity: WindowActivity, frame_budget_us: Option<i64>)
    ensures
        proration(activity, frame_budget_us).wf(),
{
    match (activity, frame_budget_us) {
        (WindowActivity::Active(n), Some(budget)) => {
            if budget > 0 {
                lemma_full_window(budget);
            }
        },
        _ => {},
    }
}

/// Did the window fill its target? Judged at the wire rate all of its frames
/// would have made: `actual / target >= (3/4) * (seen / expected)`.
pub open spec fn fills(activity: WindowActivity, p: Proration, actual: u32, target: u32) -> bool {
    !activity.quiet() && actual * p.expected * UTILIZED_DEN >= target * p.seen * UTILIZED_NUM
}

#[verifier::when_used_as_spec(fills)]
pub fn utilized(activity: WindowActivity, p: Proration, actual: u32, target: u32) -> (r: bool)
    requires
        p.wf(),
    ensures
        r == fills(activity, p, actual, target),
{
    if activity.quiet() {
        return false;
    }
    assert(actual * p.expected <= 0xffff_ffff * 750_000 && target * p.seen <= 0xffff_ffff
        * 750_000) by (nonlinear_arith)
        requires
            actual <= 0xffff_ffffu32,
            target <= 0xffff_ffffu32,
            p.expected <= 750_000,
            p.seen <= 750_000,
    ;
    let have: u64 = crate::math::product(actual, p.expected);
    let need: u64 = crate::math::product(target, p.seen);
    have * UTILIZED_DEN >= need * UTILIZED_NUM
}

/// Did the wall clock see the rate it was promised?
#[verifier::allow_in_spec]
pub fn delivered_the_rate(actual: u32, target: u32) -> bool
    returns
        actual * 100 >= target * DELIVERED_PCT,
{
    actual as u64 * 100 >= target as u64 * DELIVERED_PCT
}

/// The highest target the proven mark licenses: half again as much, projected
/// to a full window's frames.
pub open spec fn licensed(mark: u32, p: Proration) -> u32 {
    let full = mark * p.expected * 3 / (2 * p.seen);
    if full > u32::MAX {
        u32::MAX
    } else {
        full as u32
    }
}

#[verifier::when_used_as_spec(licensed)]
pub fn proven_target_cap(mark: u32, p: Proration) -> (r: u32)
    requires
        p.wf(),
    ensures
        r == licensed(mark, p),
{
    assert(mark * p.expected <= 0xffff_ffff * 750_000) by (nonlinear_arith)
        requires
            mark <= 0xffff_ffffu32,
            p.expected <= 750_000,
    ;
    let scaled: u64 = crate::math::product(mark, p.expected) * 3;
    let per: u64 = 2 * (p.seen as u64);
    let full: u64 = scaled / per;
    if full > u32::MAX as u64 {
        u32::MAX
    } else {
        full as u32
    }
}

/// The next rate on the way to `cap`: twice this one in slow start, a
/// sixteenth more otherwise.
pub open spec fn stepped(current: u32, cap: u32, slow_start: bool) -> u32 {
    let next = if slow_start {
        2 * current
    } else {
        current + current / ADDITIVE_DIV + 1
    };
    if next <= cap {
        next as u32
    } else {
        cap
    }
}

#[verifier::when_used_as_spec(stepped)]
pub fn climb_step(current: u32, cap: u32, slow_start: bool) -> (r: u32)
    ensures
        r == stepped(current, cap, slow_start),
{
    let next: u64 = if slow_start {
        2 * (current as u64)
    } else {
        current as u64 + (current / ADDITIVE_DIV) as u64 + 1
    };
    if next <= cap as u64 {
        next as u32
    } else {
        cap
    }
}

/// The highest clean delivery of the last two buckets of windows.
#[derive(Clone, Copy, Debug, PartialEq, Eq, Structural)]
pub struct Proven {
    pub this_bucket: u32,
    pub last_bucket: u32,
    pub ticks: u32,
}

impl Proven {
    pub open spec fn wf(self) -> bool {
        self.ticks < PROVEN_BUCKET_WINDOWS
    }

    #[verifier::allow_in_spec]
    pub fn new() -> Proven
        returns
            (Proven { this_bucket: 0, last_bucket: 0, ticks: 0 }),
    {
        Proven { this_bucket: 0, last_bucket: 0, ticks: 0 }
    }

    /// The state after [`tick`](Self::tick).
    pub open spec fn ticked(self) -> Proven {
        if self.ticks + 1 >= PROVEN_BUCKET_WINDOWS {
            Proven { this_bucket: 0, last_bucket: self.this_bucket, ticks: 0 }
        } else {
            Proven { ticks: (self.ticks + 1) as u32, ..self }
        }
    }

    /// One window of time, whatever it carried.
    pub fn tick(&mut self)
        requires
            old(self).wf(),
        ensures
            final(self).wf(),
            *final(self) == old(self).ticked(),
    {
        if self.ticks + 1 >= PROVEN_BUCKET_WINDOWS {
            self.last_bucket = self.this_bucket;
            self.this_bucket = 0;
            self.ticks = 0;
        } else {
            self.ticks = self.ticks + 1;
        }
    }

    /// A clean window delivered `kbps`.
    pub fn note(&mut self, kbps: u32)
        ensures
            *final(self) == (Proven {
                this_bucket: higher(old(self).this_bucket, kbps),
                ..*old(self)
            }),
    {
        self.this_bucket = higher(self.this_bucket, kbps);
    }

    #[verifier::allow_in_spec]
    pub fn mark(&self) -> u32
        returns
            higher(self.this_bucket, self.last_bucket),
    {
        higher(self.this_bucket, self.last_bucket)
    }

    pub fn clear(&mut self)
        ensures
            final(self).wf(),
            *final(self) == Proven::new(),
    {
        *self = Proven::new();
    }
}

/// A step toward a cap above the rate climbs, and never past the cap.
pub proof fn law_a_step_climbs_within_its_cap(current: u32, cap: u32, slow_start: bool)
    requires
        0 < current < cap,
    ensures
        current < stepped(current, cap, slow_start) <= cap,
{
}

/// Slow start doubles, any other climb adds a sixteenth and one, and neither
/// goes past the cap.
pub proof fn law_a_climb_doubles_or_adds_a_sixteenth(current: u32, cap: u32)
    ensures
        2 * current <= cap ==> stepped(current, cap, true) == 2 * current,
        2 * current > cap ==> stepped(current, cap, true) == cap,
        current + current / 16 + 1 <= cap ==> stepped(current, cap, false) == current + current / 16
            + 1,
        current + current / 16 + 1 > cap ==> stepped(current, cap, false) == cap,
{
}

/// A window with fewer frames than its length has room for is read as the
/// share of a whole one; any other is read as whole.
pub proof fn law_a_thin_window_is_read_as_its_share(activity: WindowActivity, budget: Option<i64>)
    ensures
        ({
            let p = proration(activity, budget);
            &&& p.seen <= p.expected
            &&& !(activity is Active) || budget is None ==> p.seen == p.expected
            &&& activity matches WindowActivity::Active(n) ==> (budget matches Some(us) ==> (us > 0
                ==> {
                let full = 750_000int / us as int;
                &&& 0 < n < full ==> p.seen == n && p.expected == full
                &&& n == 0 || n >= full ==> p.seen == p.expected
            }))
        }),
{
    match (activity, budget) {
        (WindowActivity::Active(n), Some(us)) => {
            if us > 0 {
                lemma_full_window(us);
            }
        },
        _ => {},
    }
}

/// A whole window fills its target at three quarters of it, a thin one at the
/// same share of its frames; stillness fills none. It delivered its rate at
/// nine tenths.
pub proof fn law_a_window_fills_at_three_quarters(activity: WindowActivity, p: Proration, actual: u32, target: u32)
    requires
        p.wf(),
    ensures
        activity is Idle || activity is Empty ==> !fills(activity, p, actual, target),
        !(activity is Idle) && !(activity is Empty) && p.seen == p.expected ==> (fills(
            activity,
            p,
            actual,
            target,
        ) <==> 4 * actual >= 3 * target),
        !(activity is Idle) && !(activity is Empty) && actual * p.expected >= target * p.seen
            ==> fills(activity, p, actual, target),
        2 * actual * p.expected < target * p.seen ==> !fills(activity, p, actual, target),
        delivered_the_rate(actual, target) <==> 10 * actual >= 9 * target,
{
    let k = p.expected as int;
    assert(actual * k * 4 >= target * k * 3 <==> 4 * actual >= 3 * target) by (nonlinear_arith)
        requires
            k >= 1,
    ;
    assert(target * p.seen >= 0 && actual * p.expected >= 0) by (nonlinear_arith)
        requires
            target >= 0,
            actual >= 0,
            p.seen >= 0,
            p.expected >= 0,
    ;
    assert(2 * actual * p.expected == 2 * (actual * p.expected)) by (nonlinear_arith);
}

/// A mark licenses half again as much as it proved, more where the window that
/// proved it was thin.
pub proof fn law_a_mark_licenses_half_again(mark: u32, p: Proration)
    requires
        p.wf(),
    ensures
        p.seen == p.expected && mark <= 2_000_000_000 ==> licensed(mark, p) == mark * 3 / 2,
        licensed(mark, p) < u32::MAX ==> licensed(mark, p) * (2 * p.seen) <= mark * p.expected * 3
            < (licensed(mark, p) + 1) * (2 * p.seen),
        licensed(mark, p) >= mark,
{
    let have = mark * p.expected * 3;
    let per: int = 2 * p.seen as int;
    let q = have / per;
    assert(mark * p.seen <= mark * p.expected) by (nonlinear_arith)
        requires
            p.seen <= p.expected,
            mark >= 0,
    ;
    assert(have >= 0) by (nonlinear_arith)
        requires
            have == mark * p.expected * 3,
            mark >= 0,
            p.expected >= 0,
    ;
    vstd::arithmetic::div_mod::lemma_fundamental_div_mod(have, per);
    vstd::arithmetic::div_mod::lemma_mod_bound(have, per);
    assert(per * q == q * per && (q + 1) * per == q * per + per) by (nonlinear_arith);
    assert(q >= mark) by (nonlinear_arith)
        requires
            have < (q + 1) * per,
            have >= mark * p.seen * 3,
            per == 2 * p.seen,
            p.seen >= 1,
            mark >= 0,
    ;
    if p.seen == p.expected {
        let k = p.seen as int;
        let h: int = mark * 3 / 2;
        assert(h * (2 * k) <= mark * k * 3 < (h + 1) * (2 * k)) by (nonlinear_arith)
            requires
                2 * h <= mark * 3 < 2 * h + 2,
                k >= 1,
        ;
        assert(q == h) by (nonlinear_arith)
            requires
                h * per <= have < (h + 1) * per,
                q * per <= have < (q + 1) * per,
                per >= 1,
        ;
    }
}

/// The mark is the best of two buckets: forty windows fill one, and it is kept
/// for one more.
pub proof fn law_a_mark_is_the_best_of_two_buckets(p: Proven)
    requires
        p.wf(),
    ensures
        p.mark() >= p.this_bucket && p.mark() >= p.last_bucket,
        p.mark() == p.this_bucket || p.mark() == p.last_bucket,
        p.ticks < 39 ==> p.ticked().ticks == p.ticks + 1 && p.ticked().mark() == p.mark(),
        p.ticks == 39 ==> p.ticked().ticks == 0 && p.ticked().mark() == p.this_bucket
            && p.ticked().last_bucket == p.this_bucket && p.ticked().this_bucket == 0,
{
}

/// Nothing is proved at the start.
pub proof fn law_nothing_is_proved_at_the_start()
    ensures
        Proven::new().mark() == 0 && Proven::new().this_bucket == 0 && Proven::new().last_bucket
            == 0 && Proven::new().ticks == 0,
{
}

} // verus!
