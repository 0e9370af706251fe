//! The controller, window by window.

use punktfunk_core::abr::cap::CAP_REPROBE_WINDOWS_MIN;
use punktfunk_core::abr::controller::{BitrateController, MAX_UNACKED};
use punktfunk_core::abr::decide::CLEAN_WINDOWS_TO_REARM;
use punktfunk_core::abr::drain::{DRAIN_FALL_US, LINK_DRAIN_WINDOWS};
use punktfunk_core::abr::governor::NO_SHARE_KBPS;
use punktfunk_core::abr::norms::DELIVERY_REF_WINDOWS;
use punktfunk_core::abr::sample::{DelayTrend, WindowActivity, WindowSample, WINDOW};
use punktfunk_core::abr::verdict::{
    Reason, BASELINE_MIN_WINDOWS, HEAVY_LOSS_PPM, RECOVERY_KF_BAD,
};
use punktfunk_core::abr::wall::{
    LIFT_OVER_WINDOWS, LIFT_PROBE_MAX_AGE, LIFT_PROBE_WINDOWS, LIFT_RISING_WINDOWS,
};
use punktfunk_core::quic::AckReason;

/// When every session here begins.
const START: u64 = 1_000_000_000_000;

/// The close of window `i`.
fn ticks(start: u64, i: u32) -> u64 {
    start + u64::from(i) * WINDOW
}

/// `n` clean, generously delivered windows from window `from`: the first
/// request they produce.
fn run_clean(c: &mut BitrateController, start: u64, from: u32, n: u32) -> Option<u32> {
    let mut first: Option<u32> = None;
    for i in from..from + n {
        let ask = c.on_window(&WindowSample {
            owd_mean_us: Some(10_000),
            actual_kbps: 1_000_000,
            ..WindowSample::at(ticks(start, i))
        });
        if ask.is_some() {
            first = ask;
            break;
        }
    }
    first
}

/// Clean windows, every request granted, until the rate reaches `target`.
fn climb_to(c: &mut BitrateController, start: u64, t: &mut u32, target: u32) {
    for _ in 0..400 {
        if c.current_kbps >= target {
            return;
        }
        let ask = c.on_window(&WindowSample {
            owd_mean_us: Some(10_000),
            actual_kbps: 1_000_000,
            ..WindowSample::at(ticks(start, *t))
        });
        *t += 1;
        if let Some(k) = ask {
            c.on_ack(k, None);
        }
    }
    panic!("never climbed to {target}: at {}", c.current_kbps);
}

/// One full-rate 120 Hz window at the running rate with this decode time.
fn loaded(c: &mut BitrateController, at: u64, decode_us: i64) -> Option<u32> {
    let rate = c.current_kbps;
    c.on_window(&WindowSample {
        owd_mean_us: Some(10_000),
        decode_mean_us: Some(decode_us),
        actual_kbps: rate,
        activity: WindowActivity::Active(90),
        ..WindowSample::at(at)
    })
}

/// Up to `max` such windows; the first request is granted and returned.
fn until_request(
    c: &mut BitrateController,
    start: u64,
    t: &mut u32,
    decode_us: i64,
    max: u32,
) -> Option<u32> {
    for _ in 0..max {
        let ask = loaded(c, ticks(start, *t), decode_us);
        *t += 1;
        if let Some(k) = ask {
            c.on_ack(k, None);
            return Some(k);
        }
    }
    None
}

/// A 120 Hz session whose floors are taught, with room above it.
fn seeded_120(kbps: u32) -> (BitrateController, u64, u32) {
    let start = START;
    let mut c = BitrateController::new(kbps, None);
    c.set_frame_budget(120);
    let mut t: u32 = 0;
    for _ in 0..BASELINE_MIN_WINDOWS {
        assert_eq!(loaded(&mut c, ticks(start, t), 6_000), None);
        t += 1;
    }
    c.set_ceiling(1_000_000);
    (c, start, t)
}


#[test]
fn disabled_when_not_automatic_or_old_host() {
    // start 0 = explicit bitrate or a host that didn't echo one.
    let mut c = BitrateController::new(0, None);
    let now = START;
    assert_eq!(
        c.on_window(&WindowSample {
            dropped: 5,
            loss_ppm: 900_000,
            owd_mean_us: Some(500_000),
            actual_kbps: 1_000_000,
            flushed: true,
            ..WindowSample::at(now)
        }),
        None
    );
}

/// A link that carried a third of what it was asked for: the rate lands on
/// what it delivered, not on a fraction of a rate it never carried. A link
/// with room keeps the blind step, whatever damaged the window.
#[test]
fn a_link_short_of_offered_is_cut_to_what_it_delivered() {
    let start = START;
    let cut = |delivered: u32| -> Option<u32> {
        let mut c = BitrateController::new(20_000, None);
        c.on_window(&WindowSample {
            dropped: 4,
            actual_kbps: delivered,
            ..WindowSample::at(ticks(start, 0))
        })
    };
    // 0.85 x 12 000, inside the bounds.
    assert_eq!(cut(12_000), Some(10_200));
    // 0.85 x 4 000 is under half the rate: one cut goes no further.
    assert_eq!(cut(4_000), Some(10_000));
    // A window that delivered nothing measured no capacity at all.
    assert_eq!(cut(0), Some(10_000));
    // The link handed over what it was asked for: today's arithmetic.
    assert_eq!(cut(20_000), Some(14_000));
}

/// What a clean window delivers at this rate is the norm a short one is
/// read against.
///
/// A source filling 78 % of its allowance makes every clean window read
/// 78 % of the rate; sizing a cut from that delivery charges the content's
/// fill to the link. Against the norm the fill cancels, and a wire above
/// its own target — the parity floor at the bottom of the range — has
/// measured no fall at all.
#[test]
fn a_content_bound_window_is_cut_against_the_wires_own_norm() {
    let start = START;
    let cut = |windows: u32, delivered: u32| -> Option<u32> {
        let mut c = BitrateController::new(20_000, None);
        for i in 0..windows {
            assert_eq!(
                c.on_window(&WindowSample {
                    owd_mean_us: Some(10_000),
                    actual_kbps: 15_600,
                    ..WindowSample::at(ticks(start, i))
                }),
                None,
                "78 % of the rate is what this content delivers"
            );
        }
        c.on_window(&WindowSample {
            dropped: 4,
            actual_kbps: delivered,
            ..WindowSample::at(ticks(start, windows))
        })
    };
    // 13 400 of a 15 600 norm: the wire fell to 86 % of itself, and the
    // cut is that fall in target units — not 0.85 × 13 400.
    assert_eq!(cut(DELIVERY_REF_WINDOWS, 13_400), Some(14_602));
    // Too few clean windows to know this rate's norm: the blind step.
    assert_eq!(cut(DELIVERY_REF_WINDOWS - 1, 13_400), Some(11_390));
    // The same window on a wire carrying more than its target.
    assert_eq!(
        cut(DELIVERY_REF_WINDOWS, 21_000),
        Some(14_000),
        "a blind step, not a link cut"
    );
}

/// A norm belongs to the rate it was taken at, and the host can move the
/// rate without being asked: a re-resolve, a clamp, a mode switch.
#[test]
fn a_rate_the_host_moved_drops_the_wires_norm() {
    let start = START;
    let mut c = BitrateController::new(20_000, None);
    for i in 0..DELIVERY_REF_WINDOWS {
        c.on_window(&WindowSample {
            owd_mean_us: Some(10_000),
            actual_kbps: 15_600,
            ..WindowSample::at(ticks(start, i))
        });
    }
    assert_eq!(c.delivery_reference(), Some(15_600));
    c.on_ack(40_000, None);
    assert_eq!(
        c.delivery_reference(),
        None,
        "a different rate, a different wire"
    );
}

/// A decoder past its budget is not the link: the rate may be the lever,
/// but what the link delivered is not the number to land on.
#[test]
fn a_decode_verdict_never_lands_on_the_delivered_rate() {
    let mut c = BitrateController::new(20_000, None);
    c.set_frame_budget(60);
    let start = START;
    for i in 0..BASELINE_MIN_WINDOWS as u32 {
        assert_eq!(loaded(&mut c, ticks(start, i), 2_000), None);
    }
    // Deep decode excursion, and delivery a third of the target.
    let at = ticks(start, BASELINE_MIN_WINDOWS as u32);
    assert_eq!(
        c.on_window(&WindowSample {
            decode_mean_us: Some(40_000),
            actual_kbps: 7_000,
            activity: WindowActivity::Unmarked,
            ..WindowSample::at(at)
        }),
        Some(14_000),
        "the decoder's verdict keeps the blind step"
    );
}

fn trend(mean_us: i64, rise_us: i64) -> DelayTrend {
    DelayTrend {
        samples: 20,
        mean_us,
        rise_us,
        last_us: mean_us,
    }
}

/// A session parked at a learned wall with `ref_us` of delay behind it, at
/// the window the re-probe clock lifts the cap. `take_up` is the host
/// applying the lift; without it the rate stays at the cap. The returned
/// tick is past the cooldown the climb's own ask holds.
fn lifted_cap(start: u64, ref_us: i64, take_up: bool) -> (BitrateController, u32, u32) {
    let mut c = BitrateController::new(20_000, None);
    c.set_ceiling(300_000);
    // A wall at 12 000 twice: the cap latches a tenth under it.
    c.note_link_mark(12_000);
    c.note_link_mark(11_500);
    let cap = c.link.cap.kbps().expect("two marks are a wall");
    c.on_ack(cap, None);
    let mut t = 0;
    for _ in 0..CAP_REPROBE_WINDOWS_MIN {
        let at = ticks(start, t);
        t += 1;
        c.on_window(&WindowSample {
            owd_mean_us: Some(ref_us),
            delay: Some(trend(ref_us, 0)),
            actual_kbps: cap,
            ..WindowSample::at(at)
        });
    }
    let lift = c.link.cap.kbps().expect("the clock must lift the cap");
    assert!(lift > cap, "the re-probe never lifted");
    if take_up {
        c.on_ack(lift, None);
    }
    (c, t + 2, if take_up { lift } else { cap })
}

/// A lift is a probe, and a queue filling under it is the wall answering.
///
/// The retreat goes to the cap the lift came from — the session was fine
/// there a window ago — and the cap's clock doubles. One window over the
/// bar is a handover stall or a send loop losing a slice, and a lift the
/// link is carrying outlives it.
#[test]
fn a_lift_the_queue_answers_retreats_to_the_cap() {
    let start = START;
    let judged = |ref_us: i64, mean_us: i64, rise_us: i64, n: u32| -> (Option<u32>, u32) {
        let (mut c, mut t, rate) = lifted_cap(start, ref_us, true);
        let mut out = None;
        for _ in 0..n {
            let at = ticks(start, t);
            t += 1;
            out = out.or(c.on_window(&WindowSample {
                owd_mean_us: Some(mean_us),
                delay: Some(trend(mean_us, rise_us)),
                actual_kbps: rate,
                ..WindowSample::at(at)
            }));
        }
        (out, c.link.cap.reprobe_after())
    };
    let bar = BitrateController::lift_bar_us(10_000);
    let over = 10_000 + bar + 1_000;
    assert_eq!(
        judged(10_000, over, 0, 1).0,
        None,
        "one window over the bar is a stall"
    );
    let (retreat, reprobe_after) = judged(10_000, over, 0, LIFT_OVER_WINDOWS);
    assert_eq!(retreat, Some(10_350), "back to the cap, not a fraction");
    assert_eq!(
        reprobe_after,
        CAP_REPROBE_WINDOWS_MIN * 2,
        "and the next ask waits twice as long"
    );
    assert_eq!(
        judged(
            10_000,
            10_000 + bar / 2 + 1_000,
            DRAIN_FALL_US,
            LIFT_RISING_WINDOWS
        )
        .0,
        Some(10_350),
        "a queue filling under the bar is the same answer"
    );
    // A tunnel whose own delay is 100 ms: the bar is a quarter of that,
    // not the 15 ms a LAN is judged by.
    assert_eq!(
        judged(100_000, 120_000, 0, LIFT_OVER_WINDOWS).0,
        None,
        "20 ms on a 100 ms link is inside the session's own noise"
    );
}

/// A lift refused on a path the host has divided costs the step, not the
/// clock.
///
/// The queue that refused it may be the sibling's, and one window cannot
/// tell. Doubling the wait there records a wall this session never
/// measured, and the ladder stops closing on the share it was given.
#[test]
fn a_lift_refused_on_a_shared_path_keeps_the_short_clock() {
    let start = START;
    let (mut c, mut t, rate) = lifted_cap(start, 10_000, true);
    c.ceiling.share_cap = Some(rate * 2);
    let over = 10_000 + BitrateController::lift_bar_us(10_000) + 1_000;
    let mut out = None;
    for _ in 0..LIFT_OVER_WINDOWS {
        let at = ticks(start, t);
        t += 1;
        out = out.or(c.on_window(&WindowSample {
            owd_mean_us: Some(over),
            delay: Some(trend(over, 0)),
            actual_kbps: rate,
            ..WindowSample::at(at)
        }));
    }
    assert_eq!(out, Some(10_350), "back to the cap it came from");
    assert_eq!(
        c.link.cap.reprobe_after(),
        CAP_REPROBE_WINDOWS_MIN,
        "the host, not this window, says when the path has room again"
    );
}

/// The probe's budget settles the lift, and a lift nothing took up gives
/// the delay baseline back.
///
/// After the budget the cap keeps the new value and the ordinary verdict
/// owns the window again — but the frozen reference stays, because a wall
/// that answers late is still the lift's doing and not a cut's.
#[test]
fn a_settled_lift_keeps_its_reference_and_nothing_else() {
    let start = START;
    let (mut c, mut t, rate) = lifted_cap(start, 10_000, true);
    let bar = BitrateController::lift_bar_us(10_000);
    let window = |c: &mut BitrateController, t: &mut u32, mean_us: i64, rise_us: i64| {
        let at = ticks(start, *t);
        *t += 1;
        c.on_window(&WindowSample {
            owd_mean_us: Some(mean_us),
            delay: Some(trend(mean_us, rise_us)),
            actual_kbps: rate,
            ..WindowSample::at(at)
        })
    };
    for _ in 0..LIFT_PROBE_WINDOWS {
        assert_eq!(
            window(&mut c, &mut t, 10_000, 0),
            None,
            "the link carries it"
        );
    }
    for _ in 0..LIFT_RISING_WINDOWS {
        assert_eq!(
            window(&mut c, &mut t, 10_000 + bar / 2 + 1_000, DRAIN_FALL_US),
            None,
            "a settled lift leaves a rise under the bar to the verdict"
        );
    }
    let mut out = None;
    for _ in 0..LIFT_OVER_WINDOWS {
        out = out.or(window(&mut c, &mut t, 10_000 + bar + 1_000, 0));
    }
    assert_eq!(
        out,
        Some(10_350),
        "a standing rise at a lifted rate retreats"
    );
}

/// A lift the climb never takes up is dropped: a probe left open holds the
/// delay baseline still, and a baseline that never learns judges nothing.
#[test]
fn a_lift_nothing_takes_up_is_dropped() {
    let start = START;
    let (mut c, mut t, rate) = lifted_cap(start, 10_000, false);
    let window = |c: &mut BitrateController, t: &mut u32| {
        let at = ticks(start, *t);
        *t += 1;
        // Half the rate: the climb has no reason to ask for the lift.
        c.on_window(&WindowSample {
            owd_mean_us: Some(10_000),
            delay: Some(trend(10_000, 0)),
            actual_kbps: rate / 2,
            ..WindowSample::at(at)
        })
    };
    for _ in 0..LIFT_PROBE_MAX_AGE / 2 {
        window(&mut c, &mut t);
    }
    assert!(c.link.lift.is_some(), "the probe waits for the rate to arrive");
    for _ in 0..LIFT_PROBE_MAX_AGE {
        window(&mut c, &mut t);
    }
    assert!(
        c.link.lift.is_none(),
        "and gives up rather than freeze the delay"
    );
}

/// The queue a link cut caused is what makes the next windows read badly.
///
/// Standing delay, lost frames and loss inside the guard are that queue's
/// tail, whether the fit says it is falling yet or not: a queue that has
/// not peaked still reads as rising, and cutting there is the cascade the
/// rig recorded. Only the delay coming back to where it was, or the
/// budget, ends it.
#[test]
fn damage_while_the_last_cut_drains_is_not_a_second_verdict() {
    let start = START;
    let after = |mean_us: i64, rise_us: i64, dropped: u64| -> Option<u32> {
        let mut c = BitrateController::new(20_000, None);
        // Four clean windows: 10 ms is where this rate's delay sits.
        for i in 0..BASELINE_MIN_WINDOWS as u32 {
            c.on_window(&WindowSample {
                owd_mean_us: Some(10_000),
                delay: Some(trend(10_000, 0)),
                actual_kbps: 20_000,
                ..WindowSample::at(ticks(start, i))
            });
        }
        let mut t = BASELINE_MIN_WINDOWS as u32;
        // A link-attributed cut: delivery a third of the rate.
        let cut = c.on_window(&WindowSample {
            dropped: 4,
            owd_mean_us: Some(400_000),
            delay: Some(trend(400_000, 100_000)),
            actual_kbps: 7_000,
            ..WindowSample::at(ticks(start, t))
        });
        assert_eq!(cut, Some(10_000), "the cut lands on what was delivered");
        c.on_ack(10_000, None);
        // The overflow's tail: standing delay and the frames it swallowed.
        let mut out = None;
        for _ in 0..2 {
            t += 1;
            out = out.or(c.on_window(&WindowSample {
                dropped,
                owd_mean_us: Some(300_000),
                actual_kbps: 9_500,
                delay: Some(trend(mean_us, rise_us)),
                ..WindowSample::at(ticks(start, t))
            }));
        }
        out
    };
    assert_eq!(
        after(300_000, -60_000, 2),
        None,
        "frames lost out of a draining queue are that queue's tail"
    );
    assert_eq!(
        after(300_000, 0, 0),
        None,
        "and a queue that has not peaked yet is still the cut's own"
    );
    assert_eq!(
        after(300_000, 0, 2),
        Some(7_000),
        "a queue that is not emptying and still losing frames is the rate"
    );
    assert_eq!(
        after(9_000, 0, 2),
        Some(7_000),
        "a delay back where it was ends the guard, and the window is judged"
    );
}

/// A blip costs the doubling for as long as it holds the exemption.
///
/// Slow start takes its next step off one clean window, so a lost frame it
/// waves through would be answered by half again the rate that lost it.
/// The rate stands still until the additive climb earns its step.
#[test]
fn a_vouched_blip_holds_the_rate_and_the_doubling() {
    let start = START;
    let mut c = BitrateController::new(20_000, None);
    let held = |at: u32, dropped: u64| WindowSample {
        owd_mean_us: Some(10_000),
        delay: Some(trend(10_000, 0)),
        dropped,
        actual_kbps: 20_000,
        ..WindowSample::at(ticks(start, at))
    };
    for i in 0..4 {
        assert_eq!(c.on_window(&held(i, 0)), None);
    }
    assert!(c.probing, "slow start is still armed");
    c.set_ceiling(300_000);
    assert_eq!(c.on_window(&held(4, 1)), None);
    assert_eq!(c.last_reason(), Reason::Blip);
    assert!(c.probing, "the blip does not spend slow start");
    for i in 5..10 {
        assert_eq!(c.on_window(&held(i, 0)), None, "window {i} moved the rate");
    }
    assert_eq!(
        c.on_window(&held(10, 0)),
        Some(21_251),
        "and the first step after it is additive, not a doubling"
    );
}

/// A blip draining the last backoff teaches no knee, the way that
/// backoff's own successor does not.
///
/// The reference the choke left stands until a rate the session climbed to
/// meets it again; a climbed-to rate the decoder sailed through ends it.
#[test]
fn a_blip_without_a_climb_behind_it_keeps_the_knee_reference() {
    let start = START;
    let after_backoff = |climbed: bool| -> u32 {
        let mut c = BitrateController::new(20_000, None);
        c.set_frame_budget(120);
        for i in 0..BASELINE_MIN_WINDOWS as u32 {
            c.on_window(&WindowSample {
                owd_mean_us: Some(10_000),
                decode_mean_us: Some(8_000),
                delay: Some(trend(10_000, 0)),
                actual_kbps: 20_000,
                ..WindowSample::at(ticks(start, i))
            });
        }
        let mut t = BASELINE_MIN_WINDOWS as u32;
        let cut = c
            .on_window(&WindowSample {
                owd_mean_us: Some(10_000),
                decode_mean_us: Some(60_000),
                delay: Some(trend(10_000, 0)),
                actual_kbps: 20_000,
                ..WindowSample::at(ticks(start, t))
            })
            .expect("a decode excursion backs off");
        assert_eq!(c.decoder.backoff_kbps, 20_000, "and leaves its reference");
        c.on_ack(cut, None);
        if climbed {
            c.on_ack(cut + 1_000, None);
        }
        t += 1;
        assert_eq!(
            c.on_window(&WindowSample {
                owd_mean_us: Some(10_000),
                delay: Some(trend(10_000, 0)),
                dropped: 1,
                actual_kbps: c.current_kbps,
                ..WindowSample::at(ticks(start, t))
            }),
            None
        );
        assert_eq!(c.last_reason(), Reason::Blip);
        c.decoder.backoff_kbps
    };
    assert_eq!(after_backoff(false), 20_000, "no climb, no knee sample");
    assert_eq!(after_backoff(true), 0, "a climbed-to rate ends it");
}

/// A cut one window after a climb step still knows where the delay sat.
///
/// The step forgets this rate's norms, and one window is too few to build
/// another, so the guard would have no mark to wait for and would spend
/// its whole budget. The norm the step left behind is that mark.
#[test]
fn a_guard_armed_right_after_a_climb_keeps_a_reference() {
    let start = START;
    let mut c = BitrateController::new(20_000, None);
    // Four windows at the ceiling: 10 ms is where this rate's delay sits.
    for i in 0..BASELINE_MIN_WINDOWS as u32 {
        assert_eq!(
            c.on_window(&WindowSample {
                owd_mean_us: Some(10_000),
                delay: Some(trend(10_000, 0)),
                actual_kbps: 20_000,
                ..WindowSample::at(ticks(start, i))
            }),
            None
        );
    }
    let mut t = BASELINE_MIN_WINDOWS as u32;
    c.set_ceiling(30_000);
    let up = c
        .on_window(&WindowSample {
            owd_mean_us: Some(10_000),
            delay: Some(trend(10_000, 0)),
            actual_kbps: 20_000,
            ..WindowSample::at(ticks(start, t))
        })
        .expect("the room is there, so the session climbs");
    c.on_ack(up, None);
    assert_eq!(c.norms.delay_windows, 0, "the step forgot the rate's norms");
    // The link answers the step: the queue fills, then it swallows frames.
    for dropped in [0, 4] {
        t += 1;
        let _ = c.on_window(&WindowSample {
            dropped,
            owd_mean_us: Some(300_000),
            delay: Some(trend(300_000, 100_000)),
            actual_kbps: 10_000,
            ..WindowSample::at(ticks(start, t))
        });
    }
    assert!(c.drain.windows > 0, "a link cut arms the guard");
    assert_eq!(c.drain.ref_us, 10_000, "the norm the step left behind");
    t += 1;
    assert!(
        !c.note_drain(&WindowSample {
            delay: Some(trend(10_000, -20_000)),
            ..WindowSample::at(ticks(start, t))
        }),
        "and the guard ends when the delay is back at it"
    );
}

/// The guard runs until the queue is gone or the budget is, and a window
/// with nothing to read from is not evidence that it drained.
#[test]
fn the_drain_guard_ends_with_the_queue_or_with_its_budget() {
    let mut c = BitrateController::new(20_000, None);
    let now = START;
    let at = |mean_us: i64, rise_us: i64| WindowSample {
        delay: Some(trend(mean_us, rise_us)),
        ..WindowSample::at(now)
    };
    c.drain.windows = LINK_DRAIN_WINDOWS;
    c.drain.ref_us = 10_000;
    for _ in 0..LINK_DRAIN_WINDOWS {
        assert!(c.note_drain(&at(300_000, 40_000)), "still filling");
    }
    assert!(!c.note_drain(&at(300_000, 40_000)), "budget spent");

    c.drain.windows = LINK_DRAIN_WINDOWS;
    assert!(
        !c.note_drain(&WindowSample {
            dropped: 3,
            ..at(300_000, 0)
        }),
        "a full queue still losing frames is the rate, not the tail"
    );

    c.drain.windows = LINK_DRAIN_WINDOWS;
    assert!(!c.note_drain(&at(9_000, 0)), "back where it was");
    assert_eq!(c.drain.windows, 0, "and the guard is over");

    c.drain.windows = LINK_DRAIN_WINDOWS;
    c.drain.ref_us = 0;
    assert!(c.note_drain(&at(1_000, 0)), "no reference, only the budget");
    assert!(
        c.note_drain(&WindowSample::at(now)),
        "no delay reading is no evidence of draining"
    );
}

/// Three windows cannot cut from one number.
///
/// Until the host's ack lands, `current_kbps` is a rate the session has
/// already asked to leave: on the rig's cell three windows cut from the
/// same 4 043 in 4.5 s. Each cut measures from the ask in flight.
#[test]
fn a_cut_while_a_request_is_unacked_measures_from_the_ask() {
    let mut c = BitrateController::new(20_000, None);
    let start = START;
    let bad = |c: &mut BitrateController, t: u32| {
        c.on_window(&WindowSample {
            loss_ppm: 25_000,
            actual_kbps: 1_000_000,
            ..WindowSample::at(ticks(start, t))
        })
    };
    assert_eq!(bad(&mut c, 0), None);
    assert_eq!(bad(&mut c, 1), Some(14_000));
    // Nothing acked: the rate the host is running is still 20 000.
    assert_eq!(bad(&mut c, 6), None);
    assert_eq!(
        bad(&mut c, 7),
        Some(9_800),
        "x0.7 of the ask, not of 20 000"
    );
}

#[test]
fn two_ordinary_bad_windows_step_down_multiplicatively() {
    let mut c = BitrateController::new(20_000, None);
    let start = START;
    // 2–6 % loss is ordinary: one window is a blip.
    assert_eq!(
        c.on_window(&WindowSample {
            loss_ppm: 25_000,
            actual_kbps: 1_000_000,
            ..WindowSample::at(ticks(start, 0))
        }),
        None
    );
    // Second consecutive ordinary-bad window: ×0.7.
    assert_eq!(
        c.on_window(&WindowSample {
            loss_ppm: 25_000,
            actual_kbps: 1_000_000,
            ..WindowSample::at(ticks(start, 1))
        }),
        Some(14_000)
    );
    c.on_ack(14_000, None);
    // Still bad after cooldown: another ×0.7 from the acked rate.
    assert_eq!(
        c.on_window(&WindowSample {
            loss_ppm: 25_000,
            actual_kbps: 1_000_000,
            ..WindowSample::at(ticks(start, 6))
        }),
        None
    );
    assert_eq!(
        c.on_window(&WindowSample {
            loss_ppm: 25_000,
            actual_kbps: 1_000_000,
            ..WindowSample::at(ticks(start, 7))
        }),
        Some(9_800)
    );
}

#[test]
fn severe_window_backs_off_immediately() {
    // Unrecoverable frame skips the two-window wait…
    let mut c = BitrateController::new(20_000, None);
    let start = START;
    assert_eq!(
        c.on_window(&WindowSample {
            dropped: 1,
            actual_kbps: 1_000_000,
            ..WindowSample::at(ticks(start, 0))
        }),
        Some(14_000)
    );
    // …and so does a jump-to-live flush.
    let mut c = BitrateController::new(20_000, None);
    assert_eq!(
        c.on_window(&WindowSample {
            actual_kbps: 1_000_000,
            flushed: true,
            ..WindowSample::at(ticks(start, 0))
        }),
        Some(14_000)
    );
    // …and ≥6 % window loss.
    let mut c = BitrateController::new(20_000, None);
    assert_eq!(
        c.on_window(&WindowSample {
            loss_ppm: 80_000,
            actual_kbps: 1_000_000,
            ..WindowSample::at(ticks(start, 0))
        }),
        Some(14_000)
    );
    assert_eq!(c.last_cut(), Some(Reason::Loss));
}

/// A clean run refutes a verdict the rate never caused and slow start
/// comes back; the link's own verdict is held to.
#[test]
fn a_clean_run_re_arms_slow_start_only_for_a_refutable_verdict() {
    let start = START;
    let re_armed = |ender: WindowSample| -> bool {
        let mut c = BitrateController::new(20_000, None);
        c.set_ceiling(300_000);
        assert_eq!(c.on_window(&ender), None, "one bad window cuts nothing");
        assert!(!c.probing, "but it does end slow start");
        for i in 1..=CLEAN_WINDOWS_TO_REARM {
            let at_kbps = c.current_kbps;
            if let Some(k) = c.on_window(&WindowSample {
                owd_mean_us: Some(10_000),
                actual_kbps: at_kbps,
                ..WindowSample::at(ticks(start, i))
            }) {
                c.on_ack(k, None);
            }
        }
        c.probing
    };
    let base = WindowSample {
        owd_mean_us: Some(10_000),
        actual_kbps: 20_000,
        ..WindowSample::at(ticks(start, 0))
    };
    assert!(
        re_armed(WindowSample {
            recovery_kf: RECOVERY_KF_BAD,
            ..base
        }),
        "keyframe asks say nothing about what the link can carry"
    );
    assert!(
        !re_armed(WindowSample {
            loss_ppm: HEAVY_LOSS_PPM,
            ..base
        }),
        "a loss share is the link's own — doubling back into it saws"
    );
}

#[test]
fn cooldown_blocks_back_to_back_steps() {
    let mut c = BitrateController::new(20_000, None);
    let start = START;
    assert_eq!(
        c.on_window(&WindowSample {
            dropped: 1,
            actual_kbps: 1_000_000,
            ..WindowSample::at(ticks(start, 0))
        }),
        Some(14_000)
    );
    c.on_ack(14_000, None);
    // Tick 1 = 750 ms, inside cooldown; tick 2 = 1.5 s, fires.
    assert_eq!(
        c.on_window(&WindowSample {
            dropped: 1,
            actual_kbps: 1_000_000,
            ..WindowSample::at(ticks(start, 1))
        }),
        None
    );
    assert_eq!(
        c.on_window(&WindowSample {
            dropped: 1,
            actual_kbps: 1_000_000,
            ..WindowSample::at(ticks(start, 2))
        }),
        Some(9_800)
    );
}

#[test]
fn floor_is_never_crossed() {
    let mut c = BitrateController::new(2_500, None);
    let start = START;
    // ×0.7 of 2500 = 1750 < floor → 2000.
    assert_eq!(
        c.on_window(&WindowSample {
            dropped: 1,
            actual_kbps: 1_000_000,
            ..WindowSample::at(ticks(start, 0))
        }),
        Some(2_000)
    );
    c.on_ack(2_000, None);
    // At the floor, further bad windows request nothing.
    assert_eq!(
        c.on_window(&WindowSample {
            dropped: 1,
            actual_kbps: 1_000_000,
            ..WindowSample::at(ticks(start, 6))
        }),
        None
    );
    assert_eq!(
        c.on_window(&WindowSample {
            dropped: 1,
            actual_kbps: 1_000_000,
            ..WindowSample::at(ticks(start, 7))
        }),
        None
    );
}

/// A disabled controller learns nothing, and the FIRST measurement binds
/// whichever way it points: a 10 Mbps wall under a blind 20 Mbps start is
/// the tunnel case, and discarding it is what left #1131 climbing into it.
/// Later measurements only raise.
#[test]
fn set_ceiling_is_ignored_when_disabled_and_the_first_one_binds() {
    let mut c = BitrateController::new(0, None);
    c.set_ceiling(1_000_000);
    assert_eq!(
        c.on_window(&WindowSample {
            actual_kbps: 1_000_000,
            ..WindowSample::at(START)
        }),
        None
    );
    let mut c = BitrateController::new(20_000, None);
    c.set_ceiling(10_000);
    assert_eq!(c.ceiling.kbps, 10_000, "the wall is what was measured");
    c.set_ceiling(6_000);
    assert_eq!(c.ceiling.kbps, 10_000, "a second, worse reading is not");
    c.set_ceiling(30_000);
    assert_eq!(c.ceiling.kbps, 30_000, "a better one still raises");
}

/// Stream bound clamps learned ceilings only; a host-resolved start stands.
#[test]
fn the_stream_bound_clamps_a_learned_ceiling_only() {
    let mut c = BitrateController::new(20_000, None);
    c.set_stream_cap(100_000);
    c.set_ceiling(657_000);
    assert_eq!(c.ceiling.kbps, 100_000, "a learned ceiling is bounded");

    // Never set: no stream bound.
    let mut c = BitrateController::new(20_000, None);
    c.set_ceiling(657_000);
    assert_eq!(c.ceiling.kbps, 657_000);

    // Negotiated start above the bound stands.
    let mut c = BitrateController::new(300_000, None);
    c.set_stream_cap(100_000);
    assert_eq!(c.ceiling.kbps, 300_000);
    c.set_ceiling(657_000);
    assert_eq!(
        c.ceiling.kbps, 300_000,
        "and a learned ceiling under it never lowers what was negotiated"
    );

    // Tighter of env and stream caps wins.
    let mut c = BitrateController::new(20_000, Some(50_000));
    c.set_stream_cap(100_000);
    c.set_ceiling(657_000);
    assert_eq!(
        c.ceiling.kbps, 50_000,
        "the env cap still binds when it is tighter"
    );
}

/// Mode switch re-teaches the stream cap both ways: upswitch opens room,
/// downswitch rebinds because [`BitrateController::set_ceiling`] never lowers.
#[test]
fn a_mode_switch_reteaches_the_stream_cap_both_ways() {
    // 1080p on a fat link: ceiling bound at the 1080p shape.
    let mut c = BitrateController::new(20_000, None);
    c.set_stream_cap(100_000);
    c.set_ceiling(657_000);
    assert_eq!(c.ceiling.kbps, 100_000);

    // Upswitch to 4K: new shape allows more; probe measurement may re-authorize.
    c.on_mode_switch();
    c.set_stream_cap(400_000);
    assert_eq!(
        c.ceiling.kbps, 100_000,
        "an upswitch alone raises nothing — authority still needs a measurement"
    );
    c.set_ceiling(657_000);
    assert_eq!(
        c.ceiling.kbps, 400_000,
        "the 4K shape no longer pins the session to the 1080p bound"
    );

    // Downswitch to 720p: re-taught cap rebinds; `set_ceiling` never lowers.
    c.on_mode_switch();
    c.set_stream_cap(42_000);
    assert_eq!(
        c.ceiling.kbps, 42_000,
        "a downswitch rebinds the already-learned ceiling"
    );

    // Disabled controller (explicit bitrate) is untouched.
    let mut d = BitrateController::new(0, None);
    d.set_stream_cap(100_000);
    d.set_stream_cap(42_000);
    assert_eq!(d.ceiling.kbps, 0);
}

/// One-shot warning on first descent below the old 5 Mbps floor.
#[test]
fn the_low_rate_warning_fires_once_below_the_old_floor() {
    let mut c = BitrateController::new(6_000, None);
    let start = START;
    assert!(!c.low_rate_warned);
    // 6000 × 0.7 = 4200: under the old floor, over the new one.
    assert_eq!(
        c.on_window(&WindowSample {
            dropped: 1,
            actual_kbps: 1_000_000,
            ..WindowSample::at(ticks(start, 0))
        }),
        Some(4_200)
    );
    assert!(c.low_rate_warned, "the descent below 5 000 warns");
    c.on_ack(4_200, None);
    assert_eq!(
        c.on_window(&WindowSample {
            dropped: 1,
            actual_kbps: 1_000_000,
            ..WindowSample::at(ticks(start, 6))
        }),
        Some(2_940)
    );
    assert!(c.low_rate_warned, "…exactly once");
}

#[test]
fn a_host_retarget_above_the_ceiling_raises_it() {
    // Unsolicited host re-target above the negotiated rate must raise the ceiling.
    let mut c = BitrateController::new(20_000, None);
    assert_eq!(c.ceiling.kbps, 20_000);
    c.on_ack(60_000, None); // unsolicited, no request outstanding
    assert_eq!(c.current_kbps, 60_000);
    assert_eq!(c.ceiling.kbps, 60_000);
    let start = START;
    // No step-down.
    assert_eq!(run_clean(&mut c, start, 0, 4), None);
    // Env cap still outranks the host retarget.
    let mut c = BitrateController::new(20_000, Some(50_000));
    c.on_ack(60_000, None);
    assert_eq!(c.ceiling.kbps, 50_000);
    assert_eq!(run_clean(&mut c, start, 0, 1), Some(50_000));
}

/// The host's share bounds the climb, and a share under the live rate is
/// the live rate: the host applied it before it said so.
#[test]
fn a_share_is_a_ceiling_the_climb_stops_at() {
    let mut c = BitrateController::new(20_000, None);
    c.set_ceiling(200_000);
    let start = START;
    let mut t = 0;
    climb_to(&mut c, start, &mut t, 40_000);
    c.on_ack(24_000, Some(AckReason::Governor));
    assert_eq!(c.current_kbps, 24_000, "the host already retargeted to it");
    assert_eq!(c.ceiling.share_cap, Some(24_000));
    assert_eq!(c.host.cap.kbps(), None, "a share is not a short ack");
    // Clean windows for a minute: the climb stops at the share.
    for _ in 0..80 {
        if let Some(k) = c.on_window(&WindowSample {
            owd_mean_us: Some(10_000),
            actual_kbps: 1_000_000,
            ..WindowSample::at(ticks(start, t))
        }) {
            c.on_ack(k, None);
        }
        t += 1;
    }
    assert!(
        c.current_kbps <= 24_000,
        "climbed past the share to {}",
        c.current_kbps
    );
    // The group ends: the ceiling goes with it and the session climbs.
    c.on_ack(
        NO_SHARE_KBPS,
        Some(AckReason::Governor),
    );
    assert_eq!(c.ceiling.share_cap, None);
    climb_to(&mut c, start, &mut t, 40_000);
}

/// A share above this session's ceiling is an allowance, not evidence
/// about its own air: the wall it measured stands, slow start does not
/// re-arm, and the cap is asked again at the next window that can judge
/// the answer instead of on its clock.
#[test]
fn a_share_above_the_ceiling_keeps_the_wall_and_probes_it_again() {
    let start = START;
    let mut c = BitrateController::new(20_000, None);
    // Two deliveries at one rate are a wall; the verdict that marked them
    // is what ends slow start in a live session.
    c.note_link_mark(12_000);
    c.note_link_mark(11_500);
    c.probing = false;
    let cap = c.link.cap.kbps().expect("two marks are a wall");
    c.on_ack(24_000, Some(AckReason::Governor));
    assert_eq!(c.link.cap.kbps(), Some(cap), "a sibling's queue is not it");
    assert!(!c.probing, "and a share is not licence to double");
    assert_eq!(c.ceiling.kbps, 24_000, "only the allowance moved");
    c.on_ack(cap, None);
    let mut t = 0;
    let window = |c: &mut BitrateController, t: &mut u32, mean_us: i64| {
        let at = ticks(start, *t);
        *t += 1;
        c.on_window(&WindowSample {
            owd_mean_us: Some(mean_us),
            delay: Some(trend(mean_us, 0)),
            actual_kbps: c.current_kbps,
            ..WindowSample::at(at)
        })
    };
    // A window the shard path said nothing in freezes nothing, and a lift
    // with no reference is a commitment. The step waits for one that does.
    run_clean(&mut c, start, t, 1);
    t += 1;
    assert_eq!(c.link.cap.kbps(), Some(cap), "no reference, no step");
    window(&mut c, &mut t, 10_000);
    assert_eq!(c.link.cap.kbps(), Some(cap + cap / 8), "the share's step");
    assert!(c.link.lift.is_some(), "and it is judged, not granted");
    // The host takes the lift up and the queue answers it: back to the cap
    // exactly, no ×0.7, and still on the short clock — this session cannot
    // tell that queue from the sibling it is sharing with.
    c.on_ack(cap + cap / 8, None);
    let over = 10_000 + BitrateController::lift_bar_us(10_000) + 1_000;
    let mut out = None;
    for _ in 0..LIFT_OVER_WINDOWS {
        out = out.or(window(&mut c, &mut t, over));
    }
    assert_eq!(out, Some(cap), "the rate it was fine at a window ago");
    assert_eq!(c.link.cap.reprobe_after(), CAP_REPROBE_WINDOWS_MIN);
}

/// A share that lands while a request is outstanding is not an answer to
/// it. The same pair of numbers from a host that names nothing is, which
/// is what an old client sees and why it is only slower to lift.
#[test]
fn a_share_is_never_read_as_the_answer_to_a_request() {
    let start = START;
    let mut c = BitrateController::new(20_000, None);
    c.set_ceiling(200_000);
    let ask = run_clean(&mut c, start, 0, 8).expect("a clean run climbs");
    assert!(ask > 14_000);
    c.on_ack(14_000, Some(AckReason::Governor));
    assert_eq!(c.host.cap.kbps(), None, "a share is not a short ack");
    assert_eq!(c.ceiling.share_cap, Some(14_000));
    assert_eq!(c.current_kbps, 14_000);

    let mut old = BitrateController::new(20_000, None);
    old.set_ceiling(200_000);
    let mut t = 0;
    for _ in 0..2 {
        let ask = run_clean(&mut old, start, t, 8).expect("a clean run climbs");
        assert!(ask > 14_000);
        t += 8;
        old.on_ack(14_000, None);
    }
    assert_eq!(
        old.host.cap.kbps(),
        Some(14_000),
        "a nameless ack still binds — safe, and only slower to lift"
    );
}

/// A share is a rate the session never asked for: the wire's norm at the
/// old rate goes with it, the ask it did not answer does not become the
/// base of the next cut, and the guard the last cut armed keeps measuring
/// against the number it was given.
#[test]
fn a_share_that_moves_the_rate_drops_what_only_the_old_rate_knew() {
    let start = START;
    let mut c = BitrateController::new(20_000, None);
    for i in 0..DELIVERY_REF_WINDOWS {
        c.on_window(&WindowSample {
            owd_mean_us: Some(10_000),
            delay: Some(trend(10_000, 0)),
            actual_kbps: 15_600,
            ..WindowSample::at(ticks(start, i))
        });
    }
    assert_eq!(c.delivery_reference(), Some(15_600));
    c.arm_drain();
    // An ask in flight, and a share arriving where its answer would.
    c.asks.last_requested_kbps = Some(18_000);
    c.on_ack(14_000, Some(AckReason::Governor));
    assert_eq!(
        c.delivery_reference(),
        None,
        "a different rate, a different wire"
    );
    assert_eq!(c.cut_base_kbps(), 14_000, "no ask survives a share");
    assert_eq!(
        (c.drain.windows, c.drain.ref_us),
        (LINK_DRAIN_WINDOWS, 10_000),
        "the guard keeps the delay it was armed on"
    );
}

#[test]
fn env_max_mbps_caps_every_learned_ceiling() {
    // Injected 50 Mbps env cap outranks an 886 Mbps probe.
    let mut c = BitrateController::new(20_000, Some(50_000));
    c.set_ceiling(886_312);
    assert_eq!(c.ceiling.kbps, 50_000);
    // Measurement under the cap stands.
    let mut c = BitrateController::new(20_000, Some(50_000));
    c.set_ceiling(40_000);
    assert_eq!(c.ceiling.kbps, 40_000);
    // Climb honors it: 20→40→50, then quiet.
    let mut c = BitrateController::new(20_000, Some(50_000));
    c.set_ceiling(886_312);
    let start = START;
    assert_eq!(run_clean(&mut c, start, 0, 1), Some(40_000));
    c.on_ack(40_000, None);
    assert_eq!(run_clean(&mut c, start, 2, 1), Some(50_000));
    c.on_ack(50_000, None);
    assert_eq!(run_clean(&mut c, start, 4, 20), None);
}

#[test]
fn a_session_above_the_env_cap_steps_down_to_it_once() {
    // Env cap binds the negotiated start, not only probe-learned ceilings.
    let mut c = BitrateController::new(100_000, Some(50_000));
    assert_eq!(c.ceiling.kbps, 50_000);
    let start = START;
    assert_eq!(run_clean(&mut c, start, 0, 1), Some(50_000));
    // Host answers higher: cannot go there; do not re-ask every cooldown.
    c.on_ack(80_000, None);
    assert_eq!(run_clean(&mut c, start, 2, 20), None);
    // Same clamped target: no new ask.
    c.set_ceiling(90_000);
    assert_eq!(run_clean(&mut c, start, 24, 20), None);
}

#[test]
fn ack_silence_disables_the_controller() {
    let mut c = BitrateController::new(20_000, None);
    let start = START;
    let mut sent = 0;
    let mut i = 0;
    // Never ack: exactly [`MAX_UNACKED`] requests, then silence.
    while i < 60 {
        if c.on_window(&WindowSample {
            dropped: 1,
            actual_kbps: 1_000_000,
            ..WindowSample::at(ticks(start, i))
        })
        .is_some()
        {
            sent += 1;
        }
        i += 1;
    }
    assert_eq!(sent, MAX_UNACKED);
}
#[test]
fn decode_headroom_parks_a_clean_climb() {
    // 7 000 µs of 8 333: 84 % — inside the hold band. No climb, cap at the rate.
    let (mut c, start, mut t) = seeded_120(100_000);
    for _ in 0..12 {
        assert_eq!(
            loaded(&mut c, ticks(start, t), 7_000),
            None,
            "window {t} climbed"
        );
        t += 1;
    }
    assert_eq!(c.decoder.cap.kbps(), Some(100_000));
    assert_eq!(c.current_kbps, 100_000);
}

#[test]
fn a_lifted_decode_cap_is_held_when_headroom_stays() {
    let (mut c, start, mut t) = seeded_120(100_000);
    for _ in 0..4 {
        assert_eq!(loaded(&mut c, ticks(start, t), 7_000), None);
        t += 1;
    }
    // The ladder lifts the parked cap +12.5 % and the climb takes it.
    let lift = until_request(&mut c, start, &mut t, 7_000, 40).expect("ladder lift");
    assert_eq!(lift, 112_500);
    // Flat latency above the old cap: the lift stands.
    assert_eq!(until_request(&mut c, start, &mut t, 7_000, 6), None);
    assert_eq!(c.current_kbps, 112_500);
    assert_eq!(c.decoder.cap.kbps(), Some(112_500));
    assert!(c.decoder.probe.is_none(), "verdict must have been reached");
}

#[test]
fn a_lift_is_undone_when_the_decoder_loses_headroom() {
    let (mut c, start, mut t) = seeded_120(100_000);
    for _ in 0..4 {
        assert_eq!(loaded(&mut c, ticks(start, t), 7_000), None);
        t += 1;
    }
    assert_eq!(
        until_request(&mut c, start, &mut t, 7_000, 40),
        Some(112_500)
    );
    // 7 700 µs: +700 over the reference (≥ 5 % of the budget) and 92 %.
    let back = until_request(&mut c, start, &mut t, 7_700, 6).expect("lift undone");
    assert_eq!(back, 100_000);
    assert_eq!(c.decoder.cap.kbps(), Some(100_000));
    assert_eq!(c.decoder.cap.reprobe_after(), CAP_REPROBE_WINDOWS_MIN * 2);
}

#[test]
fn a_decoder_without_headroom_retreats_and_keeps_it_when_latency_follows() {
    let (mut c, start, mut t) = seeded_120(100_000);
    // 7 800 µs: 93 % — retreat one notch, not the ×0.7 congestion backoff.
    let r = loaded(&mut c, ticks(start, t), 7_800).expect("retreat");
    t += 1;
    assert_eq!(r, 87_500);
    assert_eq!(c.decoder.cap.kbps(), Some(87_500));
    c.on_ack(r, None);
    // Latency followed (−1 300 µs): the retreat stands, nothing else moves.
    assert_eq!(until_request(&mut c, start, &mut t, 6_500, 8), None);
    assert_eq!(c.current_kbps, 87_500);
    assert!(!c.decoder.headroom.disarmed());
}

#[test]
fn a_flat_decoder_gets_its_rate_back_and_the_driver_stands_down() {
    let (mut c, start, mut t) = seeded_120(100_000);
    let r = loaded(&mut c, ticks(start, t), 7_800).expect("retreat");
    t += 1;
    c.on_ack(r, None);
    // Same latency at the lower rate: not a function of the rate.
    let restore = until_request(&mut c, start, &mut t, 7_800, 6).expect("restore");
    assert_eq!(restore, 100_000);
    assert!(c.decoder.headroom.disarmed());
    assert_eq!(c.decoder.cap.kbps(), Some(100_000));
    // Stood down: the same 93 % no longer retreats.
    assert_eq!(until_request(&mut c, start, &mut t, 7_800, 10), None);
    assert_eq!(c.current_kbps, 100_000);
}

#[test]
fn frame_driven_windows_do_not_judge_headroom() {
    // 30 of 90 expected frames: bigger frames per budget, so 93 % here
    // says nothing about the full-rate load. Climbs are still allowed.
    let (mut c, start, mut t) = seeded_120(100_000);
    for _ in 0..6 {
        let r = c.on_window(&WindowSample {
            owd_mean_us: Some(10_000),
            decode_mean_us: Some(7_800),
            actual_kbps: c.current_kbps,
            activity: WindowActivity::Active(30),
            ..WindowSample::at(ticks(start, t))
        });
        t += 1;
        if let Some(k) = r {
            assert!(k > c.current_kbps, "only climbs, never a retreat");
            c.on_ack(k, None);
        }
    }
    assert_eq!(c.decoder.cap.kbps(), None);
}
