//! What holds of the controller as a whole.

use super::controller::{BitrateController, MAX_UNACKED};
use super::decide::{encode_named, CHANGE_COOLDOWN, IDLE_WINDOWS_TO_REARM};
use super::decide::{LINK_CUT_FLOOR_PCT, LINK_CUT_PCT};
use super::sample::{WindowActivity, WindowSample};
use super::verdict::Verdict;
use crate::math::{counted, higher, lower, share};
use crate::quic::AckReason;
use vstd::prelude::*;

verus! {

/// What no window touches: the running rate, the floor, and the bounds that
/// others set. Only an acknowledgement moves the rate.
pub open spec fn same_ground(a: BitrateController, b: BitrateController) -> bool {
    &&& a.current_kbps == b.current_kbps
    &&& a.floor_kbps == b.floor_kbps
    &&& a.ceiling.cap_kbps == b.ceiling.cap_kbps
    &&& a.ceiling.stream_cap_kbps == b.ceiling.stream_cap_kbps
    &&& a.ceiling.share_cap == b.ceiling.share_cap
    &&& a.ceiling.blind == b.ceiling.blind
    &&& a.enabled == b.enabled
}

/// The requests on their way are the same, but for the cooldown.
pub open spec fn same_asks(a: BitrateController, b: BitrateController) -> bool {
    &&& a.asks.unacked == b.asks.unacked
    &&& a.asks.last_requested_kbps == b.asks.last_requested_kbps
}

/// Every rate the controller may go back to is at or above the floor.
pub open spec fn above_floor(c: BitrateController) -> bool {
    &&& c.floor_kbps >= 1
    &&& c.current_kbps >= c.floor_kbps
    &&& (c.decoder.cap.kbps is Some ==> c.decoder.cap.kbps->0 >= c.floor_kbps)
    &&& (c.decoder.probe is Some ==> c.decoder.probe->0.step.from_kbps >= c.floor_kbps)
    &&& (c.encoder.probe is Some ==> c.encoder.probe->0.from_kbps >= c.floor_kbps)
    &&& (c.link.cap.kbps is Some ==> c.link.cap.kbps->0 >= c.floor_kbps)
    &&& (c.link.lift is Some ==> c.link.lift->0.cap_kbps >= c.floor_kbps)
}

/// The operator's bound holds of the ceiling, where it is not under the floor.
pub open spec fn under_operator(c: BitrateController) -> bool {
    c.ceiling.cap_kbps is Some ==> c.ceiling.kbps <= higher(c.ceiling.cap_kbps->0, c.floor_kbps)
}

proof fn lemma_fold(c: BitrateController, w: WindowSample)
    ensures
        same_ground(c.folded(w).0, c),
        same_asks(c.folded(w).0, c),
        c.folded(w).0.ceiling.kbps >= c.ceiling.kbps,
        c.folded(w).0.ceiling.kbps <= higher(c.ceiling.kbps, c.ceiling.usable(u32::MAX)),
        above_floor(c) ==> above_floor(c.folded(w).0),
{
    reveal(BitrateController::folded);
    let (scored, v) = c.scored(w);
    let moved = scored.moved(w.activity, v.quiet);
    let noted = moved.noted(w, v);
    let rearmed = noted.rearmed(w, v);
    lemma_scored(c, w);
    lemma_moved(scored, w.activity, v.quiet);
    lemma_noted(moved, w, v);
    lemma_rearmed(noted, w, v);
    lemma_ticked(rearmed, v);
}

proof fn lemma_scored(c: BitrateController, w: WindowSample)
    ensures
        same_ground(c.scored(w).0, c),
        c.scored(w).0.asks == c.asks,
        c.scored(w).0.ceiling == c.ceiling,
        above_floor(c) ==> above_floor(c.scored(w).0),
{
}

proof fn lemma_moved(c: BitrateController, activity: WindowActivity, quiet: bool)
    ensures
        same_ground(c.moved(activity, quiet), c),
        same_asks(c.moved(activity, quiet), c),
        c.moved(activity, quiet).ceiling == c.ceiling,
        (c.probing || c.streaks.idle_windows < IDLE_WINDOWS_TO_REARM) ==> c.moved(
            activity,
            quiet,
        ).asks == c.asks,
        above_floor(c) ==> above_floor(c.moved(activity, quiet)),
{
}

proof fn lemma_noted(c: BitrateController, w: WindowSample, v: Verdict)
    ensures
        same_ground(c.noted(w, v), c),
        c.noted(w, v).asks == c.asks,
        c.noted(w, v).ceiling == c.ceiling,
        above_floor(c) ==> above_floor(c.noted(w, v)),
{
}

proof fn lemma_rearmed(c: BitrateController, w: WindowSample, v: Verdict)
    ensures
        same_ground(c.rearmed(w, v), c),
        c.rearmed(w, v).asks == c.asks,
        c.rearmed(w, v).ceiling == c.ceiling,
        above_floor(c) ==> above_floor(c.rearmed(w, v)),
{
}

proof fn lemma_ticked(c: BitrateController, v: Verdict)
    ensures
        same_ground(c.ticked(v), c),
        c.ticked(v).asks == c.asks,
        c.ticked(v).ceiling.kbps >= c.ceiling.kbps,
        c.ticked(v).ceiling.kbps <= higher(c.ceiling.kbps, c.ceiling.usable(u32::MAX)),
        above_floor(c) ==> above_floor(c.ticked(v)),
{
}

/// What an answer to a window leaves: the ground as it was, and either no ask
/// at all or exactly the one it returns.
pub open spec fn asked_once(
    before: BitrateController,
    after: BitrateController,
    ask: Option<u32>,
    now: u64,
) -> bool {
    &&& same_ground(after, before)
    &&& after.ceiling.kbps == before.ceiling.kbps
    &&& match ask {
        None => after.asks == before.asks,
        Some(kbps) => {
            &&& after.asks.last_change == Some(now)
            &&& after.asks.last_requested_kbps == Some(kbps)
            &&& after.asks.unacked == counted(before.asks.unacked)
            &&& after.norms.delivery_reference() is None
            &&& after.norms.delay() is None
        },
    }
}

proof fn lemma_lift_judged(c: BitrateController, w: WindowSample)
    ensures
        asked_once(c, c.lift_judged(w).0, c.lift_judged(w).1, w.now),
        above_floor(c) ==> above_floor(c.lift_judged(w).0),
        above_floor(c) && c.lift_judged(w).1 is Some ==> c.lift_judged(w).1->0 >= c.floor_kbps,
{
}

proof fn lemma_encode_judged(c: BitrateController, w: WindowSample, v: Verdict)
    ensures
        asked_once(c, c.encode_judged(w, v).0, c.encode_judged(w, v).1, w.now),
        above_floor(c) ==> above_floor(c.encode_judged(w, v).0),
        above_floor(c) && c.encode_judged(w, v).1 is Some ==> c.encode_judged(w, v).1->0
            >= c.floor_kbps,
{
}

proof fn lemma_backed_off(c: BitrateController, w: WindowSample, v: Verdict)
    ensures
        asked_once(c, c.backed_off(w, v).0, c.backed_off(w, v).1, w.now),
        above_floor(c) ==> above_floor(c.backed_off(w, v).0),
        c.backed_off(w, v).1 is Some ==> c.backed_off(w, v).1->0 >= c.floor_kbps,
{
}

proof fn lemma_headroom_judged(c: BitrateController, w: WindowSample, v: Verdict)
    ensures
        asked_once(c, c.headroom_judged(w, v).0, c.headroom_judged(w, v).1, w.now),
        above_floor(c) ==> above_floor(c.headroom_judged(w, v).0),
        above_floor(c) && c.headroom_judged(w, v).1 is Some ==> c.headroom_judged(w, v).1->0
            >= c.floor_kbps,
{
}

proof fn lemma_climbed(c: BitrateController, w: WindowSample)
    ensures
        asked_once(c, c.climbed(w).0, c.climbed(w).1, w.now),
        above_floor(c) ==> above_floor(c.climbed(w).0),
        above_floor(c) && c.climbed(w).1 is Some ==> c.climbed(w).1->0 >= c.floor_kbps,
{
}

proof fn lemma_answered(c: BitrateController, w: WindowSample, v: Verdict, draining: bool)
    ensures
        asked_once(c, c.answered(w, v, draining).0, c.answered(w, v, draining).1, w.now),
        above_floor(c) ==> above_floor(c.answered(w, v, draining).0),
        above_floor(c) && c.answered(w, v, draining).1 is Some ==> c.answered(
            w,
            v,
            draining,
        ).1->0 >= c.floor_kbps,
{
    reveal(BitrateController::answered);
    let (lifted, retreat) = c.lift_judged(w);
    lemma_lift_judged(c, w);
    if retreat is None {
        let (notched, restore) = lifted.encode_judged(w, v);
        lemma_encode_judged(lifted, w, v);
        if restore is None {
            lemma_decided(notched, w, v, draining);
        }
    }
}

proof fn lemma_decided(c: BitrateController, w: WindowSample, v: Verdict, draining: bool)
    ensures
        asked_once(c, c.decided(w, v, draining).0, c.decided(w, v, draining).1, w.now),
        above_floor(c) ==> above_floor(c.decided(w, v, draining).0),
        above_floor(c) && c.decided(w, v, draining).1 is Some ==> c.decided(w, v, draining).1->0
            >= c.floor_kbps,
{
    reveal(BitrateController::decided);
    if c.must_back_off(v) {
        lemma_backed_off(c, w, v);
    } else {
        let (read, ask) = c.headroom_judged(w, v);
        lemma_headroom_judged(c, w, v);
        if ask is None {
            lemma_climbed(read, w);
        }
    }
}

/// A controller that is off never asks, and no window turns it on.
pub proof fn law_off_is_off(c: BitrateController, w: WindowSample)
    requires
        !c.enabled,
    ensures
        c.windowed(w) == (c, None::<u32>),
{
    reveal(BitrateController::windowed);
}

/// No acknowledgement and no measurement turns a controller on, and one the
/// host pins is off.
pub proof fn law_nothing_turns_it_on(c: BitrateController, kbps: u32, why: Option<AckReason>)
    ensures
        !c.enabled ==> !c.after_ack(kbps, why).enabled,
        !c.enabled ==> c.with_ceiling(kbps) == c && c.unmeasured(kbps) == c,
        !c.enabled ==> c.walled(kbps, kbps) == c && c.marked(kbps) == c,
        !c.enabled ==> c.opened(kbps, 0).1 is None,
        !c.after_ack(kbps, Some(AckReason::Pinned)).enabled,
{
}

/// A window never moves the running rate, the floor or anyone else's bound:
/// it asks, and the host's acknowledgement is what moves the rate. Only a host
/// that never answers turns the controller off.
pub proof fn law_a_window_only_asks(c: BitrateController, w: WindowSample)
    ensures
        c.windowed(w).0.current_kbps == c.current_kbps,
        c.windowed(w).0.floor_kbps == c.floor_kbps,
        c.windowed(w).0.ceiling.cap_kbps == c.ceiling.cap_kbps,
        c.windowed(w).0.ceiling.stream_cap_kbps == c.ceiling.stream_cap_kbps,
        c.windowed(w).0.ceiling.share_cap == c.ceiling.share_cap,
        c.windowed(w).0.ceiling.blind == c.ceiling.blind,
        !c.unheard() ==> c.windowed(w).0.enabled == c.enabled,
{
    reveal(BitrateController::windowed);
    if c.enabled && !c.unheard() {
        let (folded, v) = c.folded(w);
        lemma_fold(c, w);
        lemma_answered(folded, w, v, c.drain.guards(w));
    }
}

/// An ask is recorded exactly as it was made, and forgets what only the old
/// rate knew; a window that asks nothing leaves the count of unanswered
/// requests alone.
pub proof fn law_an_ask_is_recorded(c: BitrateController, w: WindowSample)
    ensures
        match c.windowed(w).1 {
            Some(kbps) => {
                &&& c.windowed(w).0.asks.last_change == Some(w.now)
                &&& c.windowed(w).0.asks.last_requested_kbps == Some(kbps)
                &&& c.windowed(w).0.asks.unacked == counted(c.asks.unacked)
                &&& c.windowed(w).0.norms.delivery_reference() is None
            },
            None => same_asks(c.windowed(w).0, c),
        },
{
    reveal(BitrateController::windowed);
    if c.enabled && !c.unheard() {
        let (folded, v) = c.folded(w);
        lemma_fold(c, w);
        lemma_answered(folded, w, v, c.drain.guards(w));
    }
}

/// The floor is never crossed: a session whose rates are all at or above it
/// asks for nothing under it, and stays that way.
pub proof fn law_the_floor_is_never_crossed(c: BitrateController, w: WindowSample)
    requires
        c.wf(),
        above_floor(c),
    ensures
        c.windowed(w).1 is Some ==> c.windowed(w).1->0 >= c.floor_kbps,
        above_floor(c.windowed(w).0),
{
    reveal(BitrateController::windowed);
    if c.enabled && !c.unheard() {
        let (folded, v) = c.folded(w);
        lemma_fold(c, w);
        lemma_answered(folded, w, v, c.drain.guards(w));
    }
}

/// A session starts above the floor, an acknowledgement at or above it keeps
/// it there, and so do a measured wall, a mark and a mode switch.
pub proof fn law_the_floor_is_kept(
    start_kbps: u32,
    cap_kbps: Option<u32>,
    c: BitrateController,
    kbps: u32,
    why: Option<AckReason>,
)
    requires
        start_kbps > 0,
        c.wf(),
        above_floor(c),
    ensures
        above_floor(BitrateController::fresh(start_kbps, cap_kbps)),
        kbps == 0 || kbps >= c.floor_kbps ==> above_floor(c.after_ack(kbps, why)),
        above_floor(c.walled(kbps, kbps)),
        above_floor(c.marked(kbps)),
        above_floor(c.switched()),
{
}

/// A cut is never under the floor, whatever the session's rates are.
pub proof fn law_a_cut_lands_on_or_over_the_floor(c: BitrateController, w: WindowSample, v: Verdict)
    ensures
        c.backed_off(w, v).1 is Some ==> c.backed_off(w, v).1->0 >= c.floor_kbps,
{
}

/// A cut the link earned stays between half and 85 % of the rate it is
/// measured from, or at the floor.
pub proof fn law_a_link_cut_is_one_step(c: BitrateController, delivered_kbps: u32)
    ensures
        c.link_cut(delivered_kbps) >= share(c.cut_base_kbps(), LINK_CUT_FLOOR_PCT),
        c.link_cut(delivered_kbps) <= higher(share(c.cut_base_kbps(), LINK_CUT_PCT), c.floor_kbps),
        c.link_cut(delivered_kbps) >= c.floor_kbps,
{
    let base = c.cut_base_kbps();
    assert(base * 50 / 100 <= base * 85 / 100) by (nonlinear_arith);
    assert(base * 85 / 100 <= base) by (nonlinear_arith);
}

/// The operator's bound holds of every ceiling the controller ever has.
pub proof fn law_the_operator_bounds_every_ceiling(
    start_kbps: u32,
    cap_kbps: Option<u32>,
    c: BitrateController,
    w: WindowSample,
    kbps: u32,
    why: Option<AckReason>,
)
    requires
        c.wf(),
        under_operator(c),
    ensures
        under_operator(BitrateController::fresh(start_kbps, cap_kbps)),
        under_operator(c.with_ceiling(kbps)),
        under_operator(c.unmeasured(kbps)),
        under_operator(c.shaped(kbps)),
        under_operator(c.after_ack(kbps, why)),
        under_operator(c.switched()),
        under_operator(c.windowed(w).0),
{
    reveal(BitrateController::windowed);
    if c.enabled && !c.unheard() {
        let (folded, v) = c.folded(w);
        lemma_fold(c, w);
        lemma_answered(folded, w, v, c.drain.guards(w));
    }
}

/// The first measurement binds, up or down, unless a bound clamped it; every
/// later one only raises.
pub proof fn law_the_first_measurement_binds(c: BitrateController, kbps: u32)
    requires
        c.enabled,
    ensures
        c.ceiling.blind && c.ceiling.usable(kbps) == kbps ==> c.with_ceiling(kbps).ceiling.kbps
            == higher(kbps, c.floor_kbps),
        !c.ceiling.blind ==> c.with_ceiling(kbps).ceiling.kbps >= c.ceiling.kbps,
        c.ceiling.usable(kbps) < kbps ==> c.with_ceiling(kbps).ceiling.kbps >= c.ceiling.kbps,
        !c.with_ceiling(kbps).ceiling.blind,
{
}

/// A climb stays under every bound: what the link, the host, the decoder, the
/// wall and the share allow, and what the proven rate licenses.
pub proof fn law_a_climb_stays_under_every_bound(c: BitrateController, w: WindowSample)
    requires
        c.current_kbps > 0,
    ensures
        c.climbed(w).1 is Some && c.climbed(w).1->0 > c.current_kbps ==> {
            &&& c.climbed(w).1->0 <= c.ceiling.kbps
            &&& c.climbed(w).1->0 <= c.climb_cap(w)
            &&& (c.host.cap.kbps is Some ==> c.climbed(w).1->0 <= c.host.cap.kbps->0)
            &&& (c.decoder.cap.kbps is Some ==> c.climbed(w).1->0 <= c.decoder.cap.kbps->0)
            &&& (c.link.cap.kbps is Some ==> c.climbed(w).1->0 <= c.link.cap.kbps->0)
            &&& (c.ceiling.share_cap is Some ==> c.climbed(w).1->0 <= c.ceiling.share_cap->0)
        },
        c.host.cadence_hold.down ==> (c.climbed(w).1 is Some ==> c.climbed(w).1->0
            < c.current_kbps),
{
}

/// Inside the cooldown nothing is asked, unless motion after a long stillness
/// ended it.
pub proof fn law_a_request_cools_down(c: BitrateController, w: WindowSample, t: u64)
    requires
        c.wf(),
        c.asks.last_change == Some(t),
        w.now < t + CHANGE_COOLDOWN,
        c.probing || c.streaks.idle_windows < IDLE_WINDOWS_TO_REARM,
    ensures
        c.windowed(w).1 is None,
{
    reveal(BitrateController::folded);
    reveal(BitrateController::windowed);
    if c.enabled && !c.unheard() {
        let (scored, v) = c.scored(w);
        let moved = scored.moved(w.activity, v.quiet);
        let noted = moved.noted(w, v);
        let rearmed = noted.rearmed(w, v);
        lemma_scored(c, w);
        assert(scored.probing == c.probing);
        assert(scored.streaks.idle_windows == c.streaks.idle_windows);
        lemma_moved(scored, w.activity, v.quiet);
        lemma_noted(moved, w, v);
        lemma_rearmed(noted, w, v);
        lemma_ticked(rearmed, v);
        assert(!c.folded(w).0.cooled(w.now));
    }
}

/// The controller after a run of windows no acknowledgement interrupts, and
/// how often it asked.
pub open spec fn run(c: BitrateController, ws: Seq<WindowSample>) -> (BitrateController, nat)
    decreases ws.len(),
{
    if ws.len() == 0 {
        (c, 0)
    } else {
        let (before, asked) = run(c, ws.drop_last());
        let (after, ask) = before.windowed(ws.last());
        (
            after,
            if ask is Some {
                asked + 1
            } else {
                asked
            },
        )
    }
}

proof fn lemma_window_keeps_wf(c: BitrateController, w: WindowSample)
    requires
        c.wf(),
    ensures
        c.windowed(w).0.wf(),
{
    reveal(BitrateController::windowed);
    if c.enabled && !c.unheard() {
        let (folded, v) = c.folded(w);
        lemma_folded_wf(c, w);
        lemma_answered_wf(folded, w, v, c.drain.guards(w));
    }
}

proof fn lemma_scored_wf(c: BitrateController, w: WindowSample)
    requires
        c.wf(),
    ensures
        c.scored(w).0.wf(),
{
}

proof fn lemma_moved_wf(c: BitrateController, activity: WindowActivity, quiet: bool)
    requires
        c.wf(),
    ensures
        c.moved(activity, quiet).wf(),
{
}

proof fn lemma_noted_wf(c: BitrateController, w: WindowSample, v: Verdict)
    requires
        c.wf(),
    ensures
        c.noted(w, v).wf(),
{
}

proof fn lemma_rearmed_wf(c: BitrateController, w: WindowSample, v: Verdict)
    requires
        c.wf(),
    ensures
        c.rearmed(w, v).wf(),
{
}

proof fn lemma_ticked_wf(c: BitrateController, v: Verdict)
    requires
        c.wf(),
    ensures
        c.ticked(v).wf(),
{
}

proof fn lemma_folded_wf(c: BitrateController, w: WindowSample)
    requires
        c.wf(),
    ensures
        c.folded(w).0.wf(),
{
    reveal(BitrateController::folded);
    let (scored, v) = c.scored(w);
    let moved = scored.moved(w.activity, v.quiet);
    let noted = moved.noted(w, v);
    lemma_scored_wf(c, w);
    lemma_moved_wf(scored, w.activity, v.quiet);
    lemma_noted_wf(moved, w, v);
    lemma_rearmed_wf(noted, w, v);
    lemma_ticked_wf(noted.rearmed(w, v), v);
}

proof fn lemma_answered_wf(c: BitrateController, w: WindowSample, v: Verdict, draining: bool)
    requires
        c.wf(),
    ensures
        c.answered(w, v, draining).0.wf(),
{
    reveal(BitrateController::answered);
    let (lifted, retreat) = c.lift_judged(w);
    assert(lifted.wf());
    if retreat is None {
        let (notched, restore) = lifted.encode_judged(w, v);
        assert(notched.wf());
        if restore is None {
            lemma_decided_wf(notched, w, v, draining);
        }
    }
}

proof fn lemma_decided_wf(c: BitrateController, w: WindowSample, v: Verdict, draining: bool)
    requires
        c.wf(),
    ensures
        c.decided(w, v, draining).0.wf(),
{
    reveal(BitrateController::decided);
    if c.must_back_off(v) {
        assert(c.backed_off(w, v).0.wf());
        assert(c.suppressed().wf());
    } else {
        assert(c.headroom_judged(w, v).0.wf());
        assert(c.headroom_judged(w, v).0.climbed(w).0.wf());
    }
}

/// A host that never answers is asked no more than three times, however long
/// the session runs.
pub proof fn law_a_silent_host_is_left_alone(c: BitrateController, ws: Seq<WindowSample>)
    requires
        c.wf(),
        c.asks.unacked <= MAX_UNACKED,
    ensures
        run(c, ws).0.wf(),
        run(c, ws).0.asks.unacked == c.asks.unacked + run(c, ws).1,
        c.asks.unacked + run(c, ws).1 <= MAX_UNACKED,
    decreases ws.len(),
{
    reveal(BitrateController::windowed);
    if ws.len() > 0 {
        law_a_silent_host_is_left_alone(c, ws.drop_last());
        let before = run(c, ws.drop_last()).0;
        lemma_window_keeps_wf(before, ws.last());
        law_an_ask_is_recorded(before, ws.last());
    }
}

/// A share is never read as the answer to a request: no cap is learned from
/// it, the wall stands, doubling is not handed out, and no ask survives it.
pub proof fn law_a_share_answers_nothing(c: BitrateController, kbps: u32)
    ensures
        c.after_ack(kbps, Some(AckReason::Governor)).host.cap == c.host.cap,
        c.after_ack(kbps, Some(AckReason::Governor)).link.cap == c.link.cap,
        c.after_ack(kbps, Some(AckReason::Governor)).probing == c.probing,
        c.after_ack(kbps, Some(AckReason::Governor)).asks.last_requested_kbps is None,
        c.after_ack(kbps, Some(AckReason::Governor)).drain == c.drain,
        kbps > 0 ==> c.after_ack(kbps, Some(AckReason::Governor)).current_kbps == lower(
            kbps,
            c.current_kbps,
        ),
        kbps > 0 ==> c.after_ack(kbps, Some(AckReason::Governor)).effective_ceiling() <= kbps,
{
}

/// A busy host teaches no cap.
pub proof fn law_a_cadence_refusal_teaches_no_cap(c: BitrateController, kbps: u32)
    requires
        kbps > 0,
    ensures
        c.after_ack(kbps, Some(AckReason::Cadence)).host.cap == c.host.cap,
        c.after_ack(kbps, Some(AckReason::Cadence)).host.cadence_hold.down,
        c.after_ack(kbps, Some(AckReason::Cadence)).current_kbps == kbps,
{
}

/// While the last cut's queue drains, damage the encoder did not name cuts
/// nothing.
pub proof fn law_a_draining_queue_is_not_cut_again(
    c: BitrateController,
    w: WindowSample,
    v: Verdict,
)
    requires
        c.must_back_off(v),
        !encode_named(&w, &v),
    ensures
        c.decided(w, v, true).1 is None,
        c.decided(w, v, true).0.asks == c.asks,
{
    reveal(BitrateController::decided);
}

/// A mode switch keeps what belongs to the link: the ceiling, the wall, the
/// share and the running rate.
pub proof fn law_a_mode_switch_keeps_the_link(c: BitrateController)
    ensures
        c.switched().ceiling == c.ceiling,
        c.switched().link == c.link,
        c.switched().current_kbps == c.current_kbps,
        c.switched().host.cap.kbps is None,
        c.switched().decoder.cap.kbps is None,
        c.switched().norms.delivery_reference() is None,
{
}

} // verus!
